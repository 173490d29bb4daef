use stt_groq_rust::audio::{convert_i16_samples, convert_u16_samples, CHANNELS, SAMPLE_RATE};

#[test]
fn i16_samples_are_kept() {
    let data: [i16; 4] = [0, -32768, 32767, 12];
    assert_eq!(convert_i16_samples(&data), vec![0, -32768, 32767, 12]);
}

#[test]
fn u16_samples_above_i16_range_are_dropped() {
    let data: [u16; 5] = [0, 32767, 32768, 65535, 100];
    assert_eq!(convert_u16_samples(&data), vec![0i16, 32767, 100]);
}

#[test]
fn empty_buffers_convert_to_nothing() {
    assert!(convert_u16_samples(&[]).is_empty());
    assert!(convert_i16_samples(&[]).is_empty());
}

#[test]
fn recording_format() {
    assert_eq!(SAMPLE_RATE, 16000);
    assert_eq!(CHANNELS, 1);
}
