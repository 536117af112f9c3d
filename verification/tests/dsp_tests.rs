use opensay::dsp::{calculate_rms, downmix_mono, isqrt, resample};

#[test]
fn test_calculate_rms() {
    // Levels are in fixed point: the value over 32767 is the level in
    // 0.0 ..= 1.0.
    assert_eq!(calculate_rms(&[]), 0);
    assert_eq!(calculate_rms(&[0, 0, 0]), 0);

    let max_rms = calculate_rms(&[32767, 32767, 32767]);
    assert_eq!(max_rms, 32767);

    let half_rms = calculate_rms(&[16384, -16384, 16384, -16384]);
    assert!(half_rms > 13107 && half_rms < 19660); // between 0.4 and 0.6
}

#[test]
fn test_resample_same_rate() {
    let samples = vec![100, 200, 300, 400];
    let result = resample(&samples, 48000, 48000);
    assert_eq!(result, samples);
}

#[test]
fn test_resample_downsample() {
    let samples: Vec<i16> = (0..48).map(|i| i * 100).collect();
    let result = resample(&samples, 48000, 16000);
    assert!(result.len() >= 15 && result.len() <= 17);
}

#[test]
fn test_resample_upsample() {
    let samples = vec![0, 1000, 2000, 3000];
    let result = resample(&samples, 8000, 16000);
    assert!(result.len() >= 7 && result.len() <= 9);
}

#[test]
fn test_resample_downsample_first_sample() {
    // Downsampling three to one keeps the first sample exact.
    let samples: Vec<i16> = (0..48).map(|i| i * 100).collect();
    let result = resample(&samples, 48000, 16000);
    assert_eq!(result[0], 0);
    // ceil(48 * 16000 / 48000) = 16 output samples, exactly.
    assert_eq!(result.len(), 16);
}

#[test]
fn test_resample_interpolates() {
    // Upsampling 1:2 places the average of two neighbours between them.
    let samples = vec![0i16, 1000];
    let result = resample(&samples, 8000, 16000);
    assert_eq!(result.len(), 4);
    assert_eq!(result[0], 0);
    assert_eq!(result[1], 500);
    assert_eq!(result[2], 1000);
}

#[test]
fn test_downmix_stereo() {
    // Interleaved stereo frames average channel pairs.
    let data = vec![100i16, 200, -100, 300, 0, 0];
    let mono = downmix_mono(&data, 2);
    assert_eq!(mono, vec![150, 100, 0]);
}

#[test]
fn test_downmix_mono_passthrough() {
    let data = vec![5i16, -5, 7];
    let mono = downmix_mono(&data, 1);
    assert_eq!(mono, data);
}

#[test]
fn test_downmix_short_tail() {
    // A trailing partial frame is still divided by the channel count.
    let data = vec![100i16, 200, 300];
    let mono = downmix_mono(&data, 2);
    assert_eq!(mono, vec![150, 150]);
}

#[test]
fn test_resample_empty() {
    let empty: Vec<i16> = Vec::new();
    assert_eq!(resample(&empty, 48000, 16000), empty);
    assert_eq!(resample(&empty, 16000, 16000), empty);
}

#[test]
fn test_isqrt_exact_and_between() {
    assert_eq!(isqrt(0), 0);
    assert_eq!(isqrt(1), 1);
    assert_eq!(isqrt(15), 3);
    assert_eq!(isqrt(16), 4);
    assert_eq!(isqrt(0x4000_0000), 32768);
}
