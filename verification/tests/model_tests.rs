use opensay::model::{
    builtin_catalog, DownloadProgress, ModelInfo, ModelVariant, Quantization,
};

#[test]
fn test_quantization_suffix() {
    assert_eq!(Quantization::Q5_1.suffix(), "q5_1");
    assert_eq!(Quantization::from_suffix("Q5_1"), Some(Quantization::Q5_1));
}

#[test]
fn test_quantization_suffix_roundtrip_all() {
    for q in [
        Quantization::Q4_0,
        Quantization::Q5_0,
        Quantization::Q5_1,
        Quantization::Q8_0,
        Quantization::F16,
    ] {
        assert_eq!(Quantization::from_suffix(q.suffix()), Some(q));
    }
    assert_eq!(Quantization::from_suffix("q9_9"), None);
    assert_eq!(Quantization::from_suffix(""), None);
    assert_eq!(Quantization::from_suffix("F16"), Some(Quantization::F16));
}

#[test]
fn test_download_progress() {
    let mut progress = DownloadProgress::new("whisper-small".to_string(), Quantization::Q5_1);
    progress.update(50, 100);
    assert_eq!(progress.percent, 50);
}

#[test]
fn test_download_progress_unknown_total() {
    let mut progress = DownloadProgress::new("whisper-small".to_string(), Quantization::Q5_1);
    progress.update(1234, 0);
    assert_eq!(progress.percent, 0);
    assert_eq!(progress.bytes_downloaded, 1234);
}

#[test]
fn test_catalog_parsing() {
    let catalog = builtin_catalog();
    assert!(catalog.version >= 1);
    assert!(!catalog.models.is_empty());

    let small = catalog.get("whisper-small");
    assert!(small.is_some());
}

#[test]
fn test_catalog_model_ids() {
    let catalog = builtin_catalog();
    let ids = catalog.model_ids();
    assert_eq!(ids.len(), catalog.models.len());
    assert!(ids.contains(&"whisper-tiny"));
    assert!(ids.contains(&"whisper-base"));
    assert!(ids.contains(&"whisper-small"));
    assert!(catalog.get("whisper-nonexistent").is_none());
}

#[test]
fn test_variant_lookup() {
    let catalog = builtin_catalog();
    let small = catalog.get("whisper-small").unwrap();
    let variant = small.variant(Quantization::Q5_1).unwrap();
    assert_eq!(variant.quantization, Quantization::Q5_1);
    assert!(small.variant(Quantization::F16).is_none());
}

#[test]
fn test_default_variant_prefers_balanced() {
    let catalog = builtin_catalog();
    let small = catalog.get("whisper-small").unwrap();
    let default = small.default_variant().unwrap();
    assert_eq!(default.quantization, Quantization::Q5_1);

    // Without the balanced variant, the first one wins.
    let custom = ModelInfo {
        id: "custom".to_string(),
        name: "Custom".to_string(),
        description: String::new(),
        min_ram_gb: 1,
        variants: vec![ModelVariant {
            quantization: Quantization::Q8_0,
            size_bytes: 10,
            sha256: String::new(),
            url: String::new(),
        }],
    };
    assert_eq!(custom.default_variant().unwrap().quantization, Quantization::Q8_0);
}
