use crunch::buffer::SILENCE;
use crunch::delay::{DelayLine, SampleRing};

#[test]
fn fresh_line_is_silent() {
    let line = DelayLine::new(3);
    assert_eq!(line.delay_samples(), 3);
    assert_eq!(line.delayed(), SILENCE);
}

#[test]
fn sample_comes_back_after_the_delay() {
    let mut line = DelayLine::new(3);
    let mut heard = Vec::new();
    for s in 1..=8u32 {
        heard.push(line.delayed());
        line.push(s);
    }
    assert_eq!(heard, vec![0, 0, 0, 1, 2, 3, 4, 5]);
}

#[test]
fn delay_of_one_sample() {
    let mut line = DelayLine::new(1);
    line.push(42);
    assert_eq!(line.delayed(), 42);
    line.push(43);
    assert_eq!(line.delayed(), 43);
}

#[test]
fn shrinking_the_delay_folds_the_pointer() {
    let mut line = DelayLine::new(4);
    for s in 1..=4u32 {
        line.push(s);
    }
    line.set_delay(1);
    assert_eq!(line.delay_samples(), 1);
    // slots are [1, 2], the pointer 4 % 2 == 0, so the read slot is 1
    assert_eq!(line.delayed(), 2);
}

#[test]
fn growing_the_delay_adds_silence() {
    let mut line = DelayLine::new(1);
    line.push(9);
    line.set_delay(3);
    assert_eq!(line.delay_samples(), 3);
    // slots [9, 0, 0, 0], pointer 1, read slot (1 + 4 - 3) % 4 == 2
    assert_eq!(line.delayed(), SILENCE);
    line.push(1);
    line.push(2);
    line.push(3);
    assert_eq!(line.delayed(), 1);
}

#[test]
fn ring_writes_at_head_and_wraps() {
    let mut ring = SampleRing::new(3);
    assert_eq!(ring.len(), 3);
    assert_eq!(ring.head(), 0);
    ring.write(5);
    assert_eq!(ring.sample_at(0), 5);
    ring.advance();
    ring.advance();
    ring.advance();
    assert_eq!(ring.head(), 0);
    assert_eq!(ring.wrap(7), 1);
    assert_eq!(ring.sample_at(ring.wrap(3)), 5);
}
