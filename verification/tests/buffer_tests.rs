use crunch::buffer::{AudioBuffer, DEFAULT_CAPACITY, SILENCE};

#[test]
fn new_buffer_is_empty() {
    let buf = AudioBuffer::new(8);
    assert_eq!(buf.len(), 0);
    assert!(buf.is_empty());
    assert_eq!(buf.capacity(), 8);
}

#[test]
fn samples_come_out_in_order() {
    let mut buf = AudioBuffer::new(8);
    for s in [1u32, 2, 3] {
        buf.push(s);
    }
    assert_eq!(buf.len(), 3);
    assert_eq!(buf.pop(), 1);
    assert_eq!(buf.pop(), 2);
    assert_eq!(buf.pop(), 3);
    assert!(buf.is_empty());
}

#[test]
fn push_into_full_buffer_is_dropped() {
    let mut buf = AudioBuffer::new(2);
    buf.push(10);
    buf.push(20);
    buf.push(30);
    assert_eq!(buf.len(), 2);
    assert_eq!(buf.pop(), 10);
    assert_eq!(buf.pop(), 20);
    assert_eq!(buf.pop(), SILENCE);
}

#[test]
fn pop_from_empty_buffer_is_silence() {
    let mut buf = AudioBuffer::new(4);
    assert_eq!(buf.pop(), SILENCE);
    assert_eq!(f32::from_bits(buf.pop()), 0.0);
    assert_eq!(buf.len(), 0);
}

#[test]
fn zero_capacity_buffer_drops_everything() {
    let mut buf = AudioBuffer::new(0);
    buf.push(7);
    assert!(buf.is_empty());
    assert_eq!(buf.pop(), SILENCE);
}

#[test]
fn default_buffer_holds_4096_samples() {
    let mut buf = AudioBuffer::default();
    assert_eq!(buf.capacity(), 4096);
    assert_eq!(DEFAULT_CAPACITY, 4096);
    for i in 0..5000u32 {
        buf.push(i);
    }
    assert_eq!(buf.len(), 4096);
    assert_eq!(buf.pop(), 0);
}

#[test]
fn float_samples_round_trip_through_the_buffer() {
    let mut buf = AudioBuffer::new(4);
    buf.push((-0.25f32).to_bits());
    buf.push(0.75f32.to_bits());
    assert_eq!(f32::from_bits(buf.pop()), -0.25);
    assert_eq!(f32::from_bits(buf.pop()), 0.75);
}

#[test]
fn interleaved_push_and_pop_keep_fifo_order() {
    let mut buf = AudioBuffer::new(3);
    buf.push(1);
    buf.push(2);
    assert_eq!(buf.pop(), 1);
    buf.push(3);
    buf.push(4);
    buf.push(5);
    assert_eq!(buf.len(), 3);
    assert_eq!(buf.pop(), 2);
    assert_eq!(buf.pop(), 3);
    assert_eq!(buf.pop(), 4);
    assert_eq!(buf.pop(), SILENCE);
}
