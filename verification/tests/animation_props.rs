//! Animation sequencing: exact, index-stable looping and duration clamping.

use oculante::animation::AnimFrame;
use oculante::animation::AnimationState;
use oculante::buffer::PixelBuffer;
use oculante::buffer::Rgba;

fn frame(duration_ms: u32) -> AnimFrame {
    let buffer = PixelBuffer::new_filled(1, 1, Rgba { r: 1, g: 2, b: 3, a: 255 }).unwrap();
    AnimFrame { buffer, duration_ms }
}

fn three_frame_state(started_at: u64) -> AnimationState {
    // Durations 30, 50, 20: one loop lasts 100 ms.
    AnimationState::new(vec![frame(30), frame(50), frame(20)], started_at).unwrap()
}

#[test]
fn frame_windows_within_first_loop() {
    let a = three_frame_state(1000);
    assert_eq!(a.frame_index(1000), 0);
    assert_eq!(a.frame_index(1029), 0);
    assert_eq!(a.frame_index(1030), 1);
    assert_eq!(a.frame_index(1079), 1);
    assert_eq!(a.frame_index(1080), 2);
    assert_eq!(a.frame_index(1099), 2);
}

#[test]
fn looping_is_exact_and_index_stable() {
    let a = three_frame_state(0);
    // After exactly one loop the first frame shows again ...
    assert_eq!(a.frame_index(100), 0);
    // ... and after any number of whole loops plus a remainder, the frame
    // is the one the remainder falls on, no matter how many loops passed.
    assert_eq!(a.frame_index(7 * 100 + 35), 1);
    assert_eq!(a.frame_index(1_000_000 * 100 + 85), 2);
    assert_eq!(a.frame_index(3 * 100 + 29), 0);
}

#[test]
fn zero_durations_are_clamped() {
    let a = AnimationState::new(vec![frame(0), frame(200)], 0).unwrap();
    assert_eq!(a.duration_at(0), 10);
    assert_eq!(a.duration_at(1), 200);
    assert_eq!(a.total_ms(), 210);
    // The clamped first window is 10 ms wide, not zero.
    assert_eq!(a.frame_index(9), 0);
    assert_eq!(a.frame_index(10), 1);
}

#[test]
fn empty_sequence_is_rejected() {
    assert!(AnimationState::new(Vec::new(), 0).is_none());
}

#[test]
fn frame_buffers_and_count_are_preserved() {
    let a = three_frame_state(0);
    assert_eq!(a.frame_count(), 3);
    let b = a.frame_buffer(1);
    assert_eq!(b.width(), 1);
    assert_eq!(b.height(), 1);
    assert_eq!(b.get_pixel(0, 0), Rgba { r: 1, g: 2, b: 3, a: 255 });
}
