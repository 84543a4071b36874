use rusty_mapper::audio::{append_keeping_latest, SAMPLE_BUFFER_LIMIT};
use rusty_mapper::text::{decimal_string, text_contains};

#[test]
fn decimals() {
    assert_eq!(decimal_string(0), "0");
    assert_eq!(decimal_string(7), "7");
    assert_eq!(decimal_string(10), "10");
    assert_eq!(decimal_string(4096), "4096");
    assert_eq!(decimal_string(usize::MAX), usize::MAX.to_string());
}

#[test]
fn contains() {
    assert!(text_contains("my obs feed", "obs"));
    assert!(!text_contains("my ob feed", "obs"));
    assert!(text_contains("anything", ""));
    assert!(!text_contains("", "x"));
    assert!(text_contains("obs", "obs"));
}

#[test]
fn audio_buffer_keeps_latest_samples() {
    let mut buf: Vec<f32> = vec![1.0, 2.0];
    append_keeping_latest(&mut buf, &[3.0, 4.0, 5.0], 4);
    assert_eq!(buf, vec![2.0, 3.0, 4.0, 5.0]);
    append_keeping_latest(&mut buf, &[], 4);
    assert_eq!(buf.len(), 4);
    let mut big: Vec<f32> = Vec::new();
    let chunk = vec![0.5f32; 3000];
    append_keeping_latest(&mut big, &chunk, SAMPLE_BUFFER_LIMIT);
    append_keeping_latest(&mut big, &chunk, SAMPLE_BUFFER_LIMIT);
    assert_eq!(big.len(), 4096);
}
