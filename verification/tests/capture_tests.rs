use opensay::audio::{AudioConfig, AudioEvent, AudioState};
use opensay::capture::{assign_device_ids, recovery_delay_ms, CaptureCore, SampleRing};
use opensay::errors::DomainError;

fn small_config() -> AudioConfig {
    AudioConfig { buffer_duration_secs: 1, sample_rate: 16000, max_recovery_attempts: 3 }
}

#[test]
fn test_session_roundtrip() {
    let mut core = CaptureCore::new(small_config());
    assert_eq!(core.state(), AudioState::Idle);

    core.start_session(16000, 1).unwrap();
    assert_eq!(core.state(), AudioState::Recording);

    // Mono samples at the target rate pass through unchanged.
    let tick = vec![100i16; 1600];
    core.on_samples(&tick);
    core.on_samples(&tick);

    let samples = core.stop_session().unwrap();
    assert_eq!(core.state(), AudioState::Idle);
    assert_eq!(samples.len(), 3200);
    assert!(samples.iter().all(|&s| s == 100));
    assert_eq!(core.current_level(), 0);
}

#[test]
fn test_session_level_metering() {
    let mut core = CaptureCore::new(small_config());
    core.start_session(16000, 1).unwrap();
    // 1600 samples are a tenth of a second at 16 kHz: one level update.
    core.on_samples(&vec![100i16; 1600]);
    let events = core.take_events();
    assert!(events.iter().any(|e| matches!(e, AudioEvent::LevelUpdate { level: 100 })));
    assert_eq!(core.current_level(), 100);
}

#[test]
fn test_ring_overflow_keeps_oldest() {
    let config = AudioConfig { buffer_duration_secs: 1, sample_rate: 16, max_recovery_attempts: 3 };
    let mut core = CaptureCore::new(config);
    core.start_session(16, 1).unwrap();
    // Capacity is 16 samples; push 20: the first 16 stay, the rest drop.
    let tick: Vec<i16> = (0..20).collect();
    core.on_samples(&tick);
    let samples = core.stop_session().unwrap();
    let expected: Vec<i16> = (0..16).collect();
    assert_eq!(samples, expected);
}

#[test]
fn test_start_twice_fails() {
    let mut core = CaptureCore::new(small_config());
    core.start_session(48000, 2).unwrap();
    let again = core.start_session(48000, 2);
    assert!(matches!(again, Err(DomainError::AudioAlreadyRecording)));
    assert_eq!(core.state(), AudioState::Recording);
}

#[test]
fn test_stop_without_start_fails() {
    let mut core = CaptureCore::new(small_config());
    let result = core.stop_session();
    assert!(matches!(result, Err(DomainError::AudioNotRecording)));
}

#[test]
fn test_device_error_during_recording() {
    let mut core = CaptureCore::new(small_config());
    core.start_session(16000, 1).unwrap();
    core.on_stream_error("USB Mic".to_string());
    assert_eq!(core.state(), AudioState::DeviceLost);
    let events = core.take_events();
    assert!(events.iter().any(|e| matches!(e, AudioEvent::DeviceLost { .. })));

    // A stop after the loss fails: the session is gone.
    let result = core.stop_session();
    assert!(matches!(result, Err(DomainError::AudioNotRecording)));
}

#[test]
fn test_device_error_when_idle_is_ignored() {
    let mut core = CaptureCore::new(small_config());
    core.on_stream_error("USB Mic".to_string());
    assert_eq!(core.state(), AudioState::Idle);
    assert!(core.take_events().is_empty());
}

#[test]
fn test_recovery_success_path() {
    let mut core = CaptureCore::new(small_config());
    core.start_session(16000, 1).unwrap();
    core.on_stream_error("USB Mic".to_string());

    core.begin_recover().unwrap();
    assert_eq!(core.state(), AudioState::Recovering);

    // The device came back on the second attempt: the cumulative wait
    // would have been 500 + 1000 ms.
    assert_eq!(recovery_delay_ms(1), 500);
    assert_eq!(recovery_delay_ms(2), 1000);
    assert_eq!(recovery_delay_ms(3), 2000);

    core.recovery_succeeded("USB Mic".to_string());
    assert_eq!(core.state(), AudioState::Idle);
    let events = core.take_events();
    assert!(events.iter().any(|e| matches!(e, AudioEvent::RecoverySuccess { .. })));
}

#[test]
fn test_recovery_exhausted_path() {
    let mut core = CaptureCore::new(small_config());
    core.start_session(16000, 1).unwrap();
    core.on_stream_error("USB Mic".to_string());
    core.begin_recover().unwrap();

    let err = core.recovery_exhausted(3, "device absent".to_string());
    assert_eq!(core.state(), AudioState::Error);
    assert!(matches!(err, DomainError::AudioDevice { .. }));
    let events = core.take_events();
    assert!(events.iter().any(|e| matches!(e, AudioEvent::RecoveryFailed { attempts: 3, .. })));

    // Recovery can be attempted again from Error.
    core.begin_recover().unwrap();
    assert_eq!(core.state(), AudioState::Recovering);
}

#[test]
fn test_recover_from_idle_fails() {
    let mut core = CaptureCore::new(small_config());
    let result = core.begin_recover();
    assert!(matches!(result, Err(DomainError::AudioStateTransition { .. })));
}

#[test]
fn test_stereo_downmix_in_session() {
    let mut core = CaptureCore::new(small_config());
    core.start_session(16000, 2).unwrap();
    // Interleaved stereo: each frame averages to 150.
    core.on_samples(&[100, 200, 100, 200]);
    let samples = core.stop_session().unwrap();
    assert_eq!(samples, vec![150, 150]);
}

#[test]
fn test_sample_ring_push_and_drain() {
    let mut ring = SampleRing::new(4);
    assert_eq!(ring.push_slice(&[1, 2, 3]), 3);
    assert_eq!(ring.push_slice(&[4, 5, 6]), 1);
    assert_eq!(ring.len(), 4);
    let out = ring.drain();
    assert_eq!(out, vec![1, 2, 3, 4]);
    assert_eq!(ring.len(), 0);
}

#[test]
fn test_assign_device_ids_duplicates() {
    let names = vec!["Mic".to_string(), "Mic".to_string(), "Other".to_string(), "Mic".to_string()];
    let default_name = Some("Other".to_string());
    let devices = assign_device_ids(&names, &default_name);
    assert_eq!(devices.len(), 4);
    assert_eq!(devices[0].id, "Mic");
    assert_eq!(devices[1].id, "Mic:1");
    assert_eq!(devices[2].id, "Other");
    assert_eq!(devices[3].id, "Mic:2");
    assert!(!devices[0].is_default);
    assert!(devices[2].is_default);
    assert_eq!(devices[1].name, "Mic");
}

#[test]
fn test_select_input_device() {
    let mut core = CaptureCore::new(small_config());
    let names = vec!["Mic".to_string(), "Mic".to_string()];
    let devices = assign_device_ids(&names, &None);

    assert!(core.select_input_device(Some("Mic:1"), &devices).is_ok());
    assert_eq!(core.selected_device().map(|s| s.as_str()), Some("Mic:1"));

    let missing = core.select_input_device(Some("Webcam"), &devices);
    assert!(matches!(missing, Err(DomainError::AudioDevice { .. })));

    assert!(core.select_input_device(None, &devices).is_ok());
    assert!(core.selected_device().is_none());
}
