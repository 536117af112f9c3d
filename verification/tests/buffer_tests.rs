use opensay::buffer::AudioBuffer;

#[test]
fn test_audio_buffer_creation() {
    let buffer = AudioBuffer::new(16000);
    assert!(buffer.is_empty());
    assert_eq!(buffer.sample_rate(), 16000);
    assert_eq!(buffer.channels(), 1);
}

#[test]
fn test_audio_buffer_push_samples() {
    let mut buffer = AudioBuffer::new(16000);
    buffer.push_samples(&[100, 200, 300]);
    assert_eq!(buffer.len(), 3);
    assert_eq!(buffer.samples(), &[100, 200, 300]);
}

#[test]
fn test_audio_buffer_with_capacity() {
    let buffer = AudioBuffer::with_capacity(16000, 1024);
    assert!(buffer.is_empty());
    assert_eq!(buffer.len(), 0);
}

#[test]
fn test_audio_buffer_clear_wipes() {
    let mut buffer = AudioBuffer::new(16000);
    buffer.push_samples(&[1, 2, 3, 4]);
    buffer.clear();
    assert!(buffer.is_empty());
    assert_eq!(buffer.len(), 0);
    assert_eq!(buffer.sample_rate(), 16000);
}
