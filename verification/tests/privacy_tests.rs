use opensay::errors::DomainError;
use opensay::privacy::{host_matches, PrivacyGuard};

#[test]
fn test_local_only_blocks_requests() {
    let guard = PrivacyGuard::new(true, vec!["example.com".to_string()]);
    assert!(guard.is_network_blocked());

    let result = guard.is_url_allowed("https://example.com/api");
    assert!(result.is_err());
}

#[test]
fn test_allowed_domain_passes() {
    let guard = PrivacyGuard::new(false, vec!["api.openai.com".to_string()]);
    assert!(!guard.is_network_blocked());

    let result = guard.is_url_allowed("https://api.openai.com/v1/chat");
    assert!(result.is_ok());
}

#[test]
fn test_disallowed_domain_blocked() {
    let guard = PrivacyGuard::new(false, vec!["api.openai.com".to_string()]);

    let result = guard.is_url_allowed("https://malicious.example/steal");
    assert!(result.is_err());
}

#[test]
fn test_subdomain_allowed() {
    let guard = PrivacyGuard::new(false, vec!["huggingface.co".to_string()]);

    let result = guard.is_url_allowed("https://cdn-lfs.huggingface.co/file");
    assert!(result.is_ok());
}

#[test]
fn test_lookalike_domain_blocked() {
    // A host that merely ends in the domain's text, without the dot
    // boundary, is not a subdomain.
    let guard = PrivacyGuard::new(false, vec!["huggingface.co".to_string()]);
    assert!(!host_matches("nothuggingface.co", "huggingface.co"));
    assert!(guard.is_url_allowed("https://nothuggingface.co/file").is_err());
}

#[test]
fn test_invalid_url_rejected() {
    let guard = PrivacyGuard::new(false, vec!["example.com".to_string()]);
    let result = guard.is_url_allowed("not a url at all");
    assert!(matches!(result, Err(DomainError::HttpRequest(_))));
}

#[test]
fn test_blocked_error_kinds() {
    let guard = PrivacyGuard::new(true, vec![]);
    let result = guard.is_url_allowed("https://example.com/");
    assert!(matches!(result, Err(DomainError::NetworkBlocked { .. })));

    let guard = PrivacyGuard::new(false, vec![]);
    let result = guard.is_url_allowed("https://example.com/");
    assert!(matches!(result, Err(DomainError::NetworkBlocked { .. })));
}

#[test]
fn test_policy_changes_are_live() {
    let mut guard = PrivacyGuard::new(true, vec!["example.com".to_string()]);
    assert!(guard.is_url_allowed("https://example.com/").is_err());

    guard.set_local_only(false);
    assert!(guard.is_url_allowed("https://example.com/").is_ok());

    guard.set_allowed_domains(vec!["other.org".to_string()]);
    assert!(guard.is_url_allowed("https://example.com/").is_err());
    assert!(guard.is_url_allowed("https://www.other.org/").is_ok());
    assert_eq!(guard.allowed_domains(), vec!["other.org".to_string()]);
}
