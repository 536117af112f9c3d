use opensay::audio::{AtomicAudioState, AudioConfig, AudioState};

#[test]
fn test_audio_state_can_start_recording() {
    assert!(AudioState::Idle.can_start_recording());
    assert!(!AudioState::Recording.can_start_recording());
    assert!(!AudioState::DeviceLost.can_start_recording());
    assert!(!AudioState::Recovering.can_start_recording());
    assert!(!AudioState::Error.can_start_recording());
}

#[test]
fn test_audio_state_can_stop_recording() {
    assert!(!AudioState::Idle.can_stop_recording());
    assert!(AudioState::Recording.can_stop_recording());
    assert!(!AudioState::DeviceLost.can_stop_recording());
    assert!(!AudioState::Recovering.can_stop_recording());
    assert!(!AudioState::Error.can_stop_recording());
}

#[test]
fn test_audio_state_can_recover() {
    assert!(!AudioState::Idle.can_recover());
    assert!(!AudioState::Recording.can_recover());
    assert!(AudioState::DeviceLost.can_recover());
    assert!(!AudioState::Recovering.can_recover());
    assert!(AudioState::Error.can_recover());
}

#[test]
fn test_audio_state_roundtrip() {
    for state in [
        AudioState::Idle,
        AudioState::Recording,
        AudioState::DeviceLost,
        AudioState::Recovering,
        AudioState::Error,
    ] {
        let value: u8 = state.into();
        let recovered: AudioState = value.into();
        assert_eq!(state, recovered);
    }
}

#[test]
fn test_audio_state_defensive_decode() {
    // A byte outside the five canonical encodings decodes to Error.
    let decoded: AudioState = 200u8.into();
    assert_eq!(decoded, AudioState::Error);
}

#[test]
fn test_atomic_audio_state() {
    let mut atomic = AtomicAudioState::new(AudioState::Idle);
    assert_eq!(atomic.load(), AudioState::Idle);

    atomic.store(AudioState::Recording);
    assert_eq!(atomic.load(), AudioState::Recording);

    // Successful swap.
    assert!(atomic.compare_exchange(AudioState::Recording, AudioState::DeviceLost));
    assert_eq!(atomic.load(), AudioState::DeviceLost);

    // Failed swap (wrong current value) leaves the cell unchanged.
    assert!(!atomic.compare_exchange(AudioState::Idle, AudioState::Recording));
    assert_eq!(atomic.load(), AudioState::DeviceLost);
}

#[test]
fn test_audio_config_default() {
    let config = AudioConfig::default();
    assert_eq!(config.buffer_duration_secs, 60);
    assert_eq!(config.sample_rate, 16_000);
    assert_eq!(config.max_recovery_attempts, 3);
}

#[test]
fn test_audio_config_buffer_capacity() {
    let config = AudioConfig::default();
    assert_eq!(config.buffer_capacity(), 960_000);
}
