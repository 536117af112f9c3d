use opensay::audio::AudioState;
use opensay::controller::{
    completed_result, effective_language, toggle_action, ToggleAction, ToggleGuard, ToggleResult,
};
use opensay::errors::DomainError;

#[test]
fn test_toggle_guard_single_entry() {
    // Of overlapping toggle invocations exactly one enters; the others
    // fail fast until the first releases.
    let mut guard = ToggleGuard::new();
    assert!(guard.try_acquire().is_ok());
    for _ in 0..4 {
        let blocked = guard.try_acquire();
        assert!(matches!(blocked, Err(DomainError::Audio(_))));
    }
    guard.release();
    assert!(guard.try_acquire().is_ok());
}

#[test]
fn test_toggle_action_per_state() {
    assert_eq!(toggle_action(AudioState::Idle).unwrap(), ToggleAction::StartRecording);
    assert_eq!(toggle_action(AudioState::Recording).unwrap(), ToggleAction::StopAndTranscribe);
    assert!(matches!(toggle_action(AudioState::DeviceLost), Err(DomainError::Audio(_))));
    assert!(matches!(toggle_action(AudioState::Recovering), Err(DomainError::Audio(_))));
    assert!(matches!(toggle_action(AudioState::Error), Err(DomainError::Audio(_))));
}

#[test]
fn test_completed_result_empty_text_skips_injection() {
    let (result, inject) = completed_result(String::new());
    assert!(matches!(result, ToggleResult::Completed { text: None }));
    assert!(!inject);

    let (result, inject) = completed_result("hello".to_string());
    match result {
        ToggleResult::Completed { text } => assert_eq!(text.as_deref(), Some("hello")),
        ToggleResult::Started => panic!("expected a completion"),
    }
    assert!(inject);
}

#[test]
fn test_effective_language() {
    assert_eq!(effective_language(&"auto".to_string()), None);
    assert_eq!(effective_language(&"en".to_string()), Some("en".to_string()));
}

#[test]
fn test_error_messages() {
    let err = DomainError::ModelVerification {
        expected: "aa".to_string(),
        actual: "bb".to_string(),
    };
    let text = err.message();
    assert!(text.contains("expected aa"));
    assert!(text.contains("got bb"));
    assert!(!DomainError::AudioNotRecording.message().is_empty());
}
