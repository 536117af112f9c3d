use opensay::errors::DomainError;
use opensay::hashing::{sha256_hex, to_hex, Sha256Stream};
use opensay::installer::LocalModelManager;
use opensay::model::{builtin_catalog, Quantization};

fn manager() -> LocalModelManager {
    LocalModelManager::new(builtin_catalog(), "models".to_string())
}

fn expected_small_sha() -> String {
    let catalog = builtin_catalog();
    let small = catalog.get("whisper-small").unwrap();
    small.variant(Quantization::Q5_1).unwrap().sha256.clone()
}

#[test]
fn test_model_path_generation() {
    let manager = manager();
    let path = manager.get_model_path("whisper-small", Quantization::Q5_1);
    assert!(path.contains("whisper-small-q5_1.bin"));
    assert_eq!(path, "models/whisper-small-q5_1.bin");
}

#[test]
fn test_plan_download() {
    let manager = manager();
    let plan = manager.plan_download("whisper-small", Quantization::Q5_1).unwrap();
    assert_eq!(plan.target_path, "models/whisper-small-q5_1.bin");
    assert_eq!(plan.temp_path, "models/whisper-small-q5_1.download");
    assert_eq!(plan.expected_sha256, expected_small_sha());
    assert!(plan.url.starts_with("https://huggingface.co/"));

    let missing = manager.plan_download("whisper-large", Quantization::Q5_1);
    assert!(matches!(missing, Err(DomainError::ModelNotFound(_))));
    let missing_variant = manager.plan_download("whisper-small", Quantization::F16);
    assert!(matches!(missing_variant, Err(DomainError::ModelNotFound(_))));
}

#[test]
fn test_finish_download_accepts_matching_checksum() {
    let mut manager = manager();
    let sha = expected_small_sha();
    let installed = manager
        .finish_download("whisper-small", Quantization::Q5_1, &sha, 4242)
        .unwrap();
    assert_eq!(installed.id, "whisper-small");
    assert_eq!(installed.quantization, Quantization::Q5_1);
    assert_eq!(installed.sha256, sha);
    assert_eq!(installed.size_bytes, 4242);
    assert_eq!(installed.path, "models/whisper-small-q5_1.bin");
    assert!(manager.is_installed("whisper-small", Quantization::Q5_1));
    assert_eq!(manager.list_installed().len(), 1);
}

#[test]
fn test_finish_download_rejects_corrupted_file() {
    let mut manager = manager();
    let result = manager.finish_download(
        "whisper-small",
        Quantization::Q5_1,
        "0000000000000000000000000000000000000000000000000000000000000000",
        4242,
    );
    assert!(matches!(result, Err(DomainError::ModelVerification { .. })));
    // Nothing was recorded: the host deletes the file, so the final path
    // only ever holds a file whose checksum is the catalog's.
    assert!(!manager.is_installed("whisper-small", Quantization::Q5_1));
}

#[test]
fn test_verify_reports_mismatch() {
    let mut manager = manager();
    let sha = expected_small_sha();
    manager.finish_download("whisper-small", Quantization::Q5_1, &sha, 1).unwrap();

    assert!(manager.verify("whisper-small", Quantization::Q5_1, &sha).unwrap());
    // After the file is corrupted it re-hashes to something else:
    // verify reports false without changing any state.
    let corrupted = "1111111111111111111111111111111111111111111111111111111111111111";
    assert!(!manager.verify("whisper-small", Quantization::Q5_1, corrupted).unwrap());
    assert!(manager.is_installed("whisper-small", Quantization::Q5_1));

    let not_installed = manager.verify("whisper-base", Quantization::Q5_1, &sha);
    assert!(matches!(not_installed, Err(DomainError::ModelNotFound(_))));
}

#[test]
fn test_delete_model() {
    let mut manager = manager();
    let sha = expected_small_sha();
    manager.finish_download("whisper-small", Quantization::Q5_1, &sha, 1).unwrap();

    let path = manager.delete("whisper-small", Quantization::Q5_1).unwrap();
    assert_eq!(path, "models/whisper-small-q5_1.bin");
    assert!(!manager.is_installed("whisper-small", Quantization::Q5_1));

    let again = manager.delete("whisper-small", Quantization::Q5_1);
    assert!(matches!(again, Err(DomainError::ModelNotFound(_))));
}

#[test]
fn test_rescan_finds_install() {
    let mut manager = manager();
    let sha = expected_small_sha();
    let installed = manager
        .finish_download("whisper-small", Quantization::Q5_1, &sha, 777)
        .unwrap();

    // Rescan from a directory listing holding the installed file (plus
    // unrelated files, which are ignored).
    let files = vec![
        ("notes.txt".to_string(), 5u64),
        ("whisper-small-q5_1.bin".to_string(), 777u64),
        ("whisper-small-q9_9.bin".to_string(), 1u64),
    ];
    manager.scan_installed(&files);

    let rescanned = manager.list_installed();
    assert_eq!(rescanned.len(), 1);
    assert_eq!(rescanned[0].id, installed.id);
    assert_eq!(rescanned[0].quantization, installed.quantization);
    assert_eq!(rescanned[0].sha256, installed.sha256);
    assert_eq!(rescanned[0].size_bytes, installed.size_bytes);
}

#[test]
fn test_parse_model_file_shapes() {
    let manager = manager();
    let parsed = manager.parse_model_file("whisper-small-q5_1.bin", 42).unwrap();
    assert_eq!(parsed.id, "whisper-small");
    assert_eq!(parsed.quantization, Quantization::Q5_1);
    assert_eq!(parsed.path, "models/whisper-small-q5_1.bin");
    assert_eq!(parsed.sha256, expected_small_sha());

    assert!(manager.parse_model_file("whisper-small-q9_9.bin", 1).is_none());
    assert!(manager.parse_model_file("unknown-q5_1.bin", 1).is_none());
    assert!(manager.parse_model_file("nodash.bin", 1).is_none());
    assert!(manager.parse_model_file("whisper-small-q5_1.txt", 1).is_none());
    assert!(manager.parse_model_file("", 1).is_none());
}

#[test]
fn test_download_blocked_in_local_only_mode() {
    // With local-only mode on, even the catalog's own download URL is
    // refused by the privacy guard before any request leaves.
    let manager = manager();
    let plan = manager.plan_download("whisper-small", Quantization::Q5_1).unwrap();
    let guard = opensay::privacy::PrivacyGuard::new(
        true,
        opensay::config::PrivacyConfig::default_allowed_domains(),
    );
    let gate = guard.is_url_allowed(&plan.url);
    assert!(matches!(gate, Err(DomainError::NetworkBlocked { .. })));

    // With it off, the model host is in the default allowlist.
    let guard = opensay::privacy::PrivacyGuard::new(
        false,
        opensay::config::PrivacyConfig::default_allowed_domains(),
    );
    assert!(guard.is_url_allowed(&plan.url).is_ok());
}

#[test]
fn test_sha256_hex_known_digests() {
    assert_eq!(
        sha256_hex(b"abc"),
        "ba7816bf8f01cfea414140de5dae2223b00361a396177a9cb410ff61f20015ad"
    );
    assert_eq!(
        sha256_hex(b""),
        "e3b0c44298fc1c149afbf4c8996fb92427ae41e4649b934ca495991b7852b855"
    );
}

#[test]
fn test_sha256_incremental_matches_oneshot() {
    let mut hasher = Sha256Stream::new();
    hasher.update(b"ab");
    hasher.update(b"c");
    let digest = hasher.finalize();
    assert_eq!(digest.len(), 32);
    assert_eq!(to_hex(&digest), sha256_hex(b"abc"));
}

#[test]
fn test_to_hex() {
    assert_eq!(to_hex(&[0xbe, 0xef]), "beef");
    assert_eq!(to_hex(&[]), "");
    assert_eq!(to_hex(&[0x00, 0x0f, 0xf0]), "000ff0");
}
