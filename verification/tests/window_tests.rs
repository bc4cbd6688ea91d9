use redpitaya_mercury::window::{extract_window, WindowError};
use redpitaya_mercury::BUFFER_SIZE;

fn ramp_buffer() -> Vec<u16> {
    let mut buffer = Vec::with_capacity(BUFFER_SIZE as usize);
    for i in 0..BUFFER_SIZE as usize {
        buffer.push((i % 65536) as u16);
    }
    buffer
}

#[test]
fn window_has_pre_plus_post_samples() {
    let buffer = ramp_buffer();
    let w = extract_window(&buffer, 3, 5, false).unwrap();
    assert_eq!(w.samples.len(), 8);
    for (i, s) in w.samples.iter().enumerate() {
        assert_eq!(*s, buffer[i]);
    }
    assert!(!w.rle);
}

#[test]
fn window_empty_when_counters_zero() {
    let buffer = ramp_buffer();
    let w = extract_window(&buffer, 0, 0, false).unwrap();
    assert_eq!(w.samples.len(), 0);
}

#[test]
fn window_fills_whole_buffer() {
    let buffer = ramp_buffer();
    let w = extract_window(&buffer, 8192, 8192, false).unwrap();
    assert_eq!(w.samples.len(), BUFFER_SIZE as usize);
    assert_eq!(w.samples[0], buffer[0]);
    assert_eq!(w.samples[BUFFER_SIZE as usize - 1], buffer[BUFFER_SIZE as usize - 1]);
}

#[test]
fn window_overflow_is_reported() {
    let buffer = ramp_buffer();
    assert_eq!(
        extract_window(&buffer, 8192, 8193, false).err(),
        Some(WindowError::Overflow)
    );
    assert_eq!(
        extract_window(&buffer, 0xffff_ffff, 0xffff_ffff, false).err(),
        Some(WindowError::Overflow)
    );
}

#[test]
fn window_keeps_rle_flag() {
    let buffer = ramp_buffer();
    let w = extract_window(&buffer, 1, 1, true).unwrap();
    assert!(w.rle);
    let w = extract_window(&buffer, 1, 1, false).unwrap();
    assert!(!w.rle);
}
