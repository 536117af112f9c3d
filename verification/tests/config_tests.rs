use opensay::config::{AppConfig, PrivacyConfig};
use opensay::hardware::{CpuHardwareDetector, HardwareProbe, SimdCapabilities};
use opensay::model::{builtin_catalog, Quantization};
use opensay::paths::TomlConfigStore;
use opensay::transcribe::{TranscribeConfig, TranscriberCore, TranscribePlan};
use opensay::errors::DomainError;

#[test]
fn test_config_store_paths() {
    let store = TomlConfigStore::new("data".to_string());

    let config_path = store.config_path();
    assert!(config_path.ends_with("config.toml"));

    let logs_dir = store.logs_dir();
    assert!(logs_dir.contains("logs"));

    let paths = store.app_paths();
    assert_eq!(paths.data_dir, "data");
    assert_eq!(paths.config_path, "data/config.toml");
    assert_eq!(paths.logs_dir, "data/logs");
    assert_eq!(store.models_dir(), "data/models");
}

#[test]
fn test_config_defaults() {
    let config = AppConfig::new();
    assert!(config.privacy.local_only);
    assert_eq!(config.logging.level, "info");
    assert_eq!(config.logging.max_files, 7);
    assert_eq!(config.ui.theme, "system");
    assert_eq!(config.transcription.model, "whisper-small");
    assert_eq!(config.transcription.language, "auto");
    assert_eq!(config.shortcut.toggle_shortcut, "Alt+Space");
    assert_eq!(config.output.paste_delay_ms, 100);

    let domains = PrivacyConfig::default_allowed_domains();
    assert_eq!(domains.len(), 5);
    assert!(domains.contains(&"huggingface.co".to_string()));
}

#[test]
fn test_transcribe_config_default() {
    let config = TranscribeConfig::default();
    assert!(config.language.is_none());
    assert!(config.vad_enabled);
    assert_eq!(config.vad_no_speech_threshold_milli, 600);
    assert_eq!(config.vad_entropy_threshold_milli, 2400);
    assert_eq!(config.threads, 0);
}

#[test]
fn test_transcriber_creation() {
    let transcriber = TranscriberCore::new(4, 8);
    assert!(!transcriber.is_available());
    assert!(!transcriber.is_model_loaded());
}

#[test]
fn test_capabilities() {
    let transcriber = TranscriberCore::new(4, 8);
    let caps = transcriber.capabilities();

    assert_eq!(caps.name, "whisper.cpp");
    assert!(!caps.requires_network);
    assert!(!caps.streaming);
    assert!(caps.languages.contains(&"en".to_string()));
    assert_eq!(caps.languages.len(), 12);
}

#[test]
fn test_transcribe_preconditions() {
    let mut transcriber = TranscriberCore::new(0, 8);

    // Without a model nothing runs.
    let no_model = transcriber.begin_transcribe(16000, 100, 0);
    assert!(matches!(no_model, Err(DomainError::Whisper(_))));

    transcriber.note_model_loaded();
    assert!(transcriber.is_model_loaded());

    // Only 16 kHz input is accepted.
    let wrong_rate = transcriber.begin_transcribe(44100, 100, 0);
    assert!(matches!(wrong_rate, Err(DomainError::Whisper(_))));

    // An empty buffer yields an empty result without running inference.
    assert_eq!(transcriber.begin_transcribe(16000, 0, 0).unwrap(), TranscribePlan::Empty);
    let empty = transcriber.empty_result();
    assert!(empty.text.is_empty());
    assert_eq!(empty.duration_ms, 0);
    assert!(empty.detected_language.is_none());

    // The per-call thread override wins when nonzero; else the default
    // budget (parallelism less one) applies.
    assert_eq!(
        transcriber.begin_transcribe(16000, 100, 3).unwrap(),
        TranscribePlan::Run { threads: 3 }
    );
    assert_eq!(
        transcriber.begin_transcribe(16000, 100, 0).unwrap(),
        TranscribePlan::Run { threads: 7 }
    );

    transcriber.unload_model();
    assert!(!transcriber.is_model_loaded());
}

#[test]
fn test_recommendation_table() {
    let catalog = builtin_catalog();
    let gib: u64 = 1024 * 1024 * 1024;
    let cases: [(u64, bool, &str); 4] = [
        (2 * gib, false, "whisper-tiny"),
        (6 * gib, true, "whisper-base"),
        (16 * gib, true, "whisper-small"),
        (16 * gib, false, "whisper-small"),
    ];
    for (ram, good_simd, expected) in cases {
        let mut detector = CpuHardwareDetector::new();
        detector.detect(&HardwareProbe {
            arch_name: "x86_64".to_string(),
            os_name: "linux".to_string(),
            threads: 8,
            simd: SimdCapabilities { avx: good_simd, avx2: good_simd, avx512: false, neon: false },
            ram_bytes: ram,
        });
        let rec = detector.recommend_model(&catalog).unwrap();
        assert_eq!(rec.model_id, expected);
        assert_eq!(rec.quantization, Quantization::Q5_1);
    }

    // Before any detection the recommender reports the missing profile.
    let detector = CpuHardwareDetector::new();
    assert!(matches!(detector.recommend_model(&catalog), Err(DomainError::Hardware(_))));
}
