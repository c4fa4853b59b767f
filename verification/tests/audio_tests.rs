use echopup::audio::{AudioBuffer, AudioRingBuffer};

#[test]
fn push_samples_keeps_latest_capacity_window() {
    let mut buffer = AudioRingBuffer::with_capacity(4);
    buffer.push_samples(&[1.0f32, 2.0, 3.0]);
    buffer.push_samples(&[4.0, 5.0]);
    assert_eq!(buffer.snapshot(), vec![2.0, 3.0, 4.0, 5.0]);
}

#[test]
fn push_samples_over_capacity_replaces_with_latest_tail() {
    let mut buffer = AudioRingBuffer::with_capacity(3);
    buffer.push_samples(&[1.0f32, 2.0, 3.0, 4.0, 5.0]);
    assert_eq!(buffer.snapshot(), vec![3.0, 4.0, 5.0]);
}

#[test]
fn tail_returns_latest_requested_samples() {
    let mut buffer = AudioRingBuffer::with_capacity(5);
    buffer.push_samples(&[1.0f32, 2.0, 3.0, 4.0, 5.0]);
    assert_eq!(buffer.tail(2), vec![4.0, 5.0]);
    assert_eq!(buffer.tail(10), vec![1.0, 2.0, 3.0, 4.0, 5.0]);
}

#[test]
fn ring_capacity_is_at_least_one() {
    let mut buffer = AudioRingBuffer::with_capacity(0);
    assert_eq!(buffer.capacity(), 1);
    buffer.push_sample(1.0f32);
    buffer.push_sample(2.0);
    assert_eq!(buffer.snapshot(), vec![2.0]);
    assert_eq!(buffer.len(), 1);
    buffer.clear();
    assert!(buffer.is_empty());
}

#[test]
fn two_pushes_equal_one_push() {
    let mut a = AudioRingBuffer::with_capacity(4);
    a.push_samples(&[1i16, 2, 3]);
    a.push_samples(&[4, 5, 6]);
    let mut b = AudioRingBuffer::with_capacity(4);
    b.push_samples(&[1i16, 2, 3, 4, 5, 6]);
    assert_eq!(a.snapshot(), b.snapshot());
}

#[test]
fn growing_buffer_keeps_everything() {
    let mut buffer = AudioBuffer::new();
    buffer.push(0.5f32);
    buffer.push(-0.5);
    assert_eq!(buffer.as_slice(), &[0.5, -0.5]);
    buffer.clear();
    assert!(buffer.as_slice().is_empty());
}
