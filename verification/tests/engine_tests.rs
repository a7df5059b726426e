use crunch::buffer::{AudioBuffer, SILENCE};
use crunch::engine::{fill_output, fill_silence, Prefill, PrefillStep, BUFFER_CAPACITY, MAX_PREFILL_POLLS};

#[test]
fn each_frame_gets_one_sample_on_every_channel() {
    let mut buf = AudioBuffer::new(16);
    buf.push(11);
    buf.push(22);
    buf.push(33);
    let mut data = [9u32; 8];
    fill_output(&mut buf, &mut data, 2);
    assert_eq!(data, [11, 11, 22, 22, 33, 33, SILENCE, SILENCE]);
    assert!(buf.is_empty());
}

#[test]
fn partial_last_frame_takes_a_sample() {
    let mut buf = AudioBuffer::new(16);
    for s in [1u32, 2, 3, 4] {
        buf.push(s);
    }
    let mut data = [0u32; 5];
    fill_output(&mut buf, &mut data, 2);
    assert_eq!(data, [1, 1, 2, 2, 3]);
    assert_eq!(buf.len(), 1);
    assert_eq!(buf.pop(), 4);
}

#[test]
fn mono_output_pops_one_sample_per_slot() {
    let mut buf = AudioBuffer::new(4);
    buf.push(5);
    buf.push(6);
    let mut data = [7u32; 3];
    fill_output(&mut buf, &mut data, 1);
    assert_eq!(data, [5, 6, SILENCE]);
}

#[test]
fn empty_block_pops_nothing() {
    let mut buf = AudioBuffer::new(4);
    buf.push(5);
    let mut data: [u32; 0] = [];
    fill_output(&mut buf, &mut data, 2);
    assert_eq!(buf.len(), 1);
}

#[test]
fn silence_overwrites_the_block() {
    let mut data = [1u32, 2, 3];
    fill_silence(&mut data);
    assert_eq!(data, [SILENCE; 3]);
}

#[test]
fn prefill_starts_when_buffer_is_full_enough() {
    let mut gate = Prefill::new(1440);
    assert_eq!(gate.poll(0), PrefillStep::Wait);
    assert_eq!(gate.poll(1000), PrefillStep::Wait);
    assert_eq!(gate.waited, 2);
    assert_eq!(gate.poll(1440), PrefillStep::StartOutput);
    assert_eq!(gate.waited, 2);
}

#[test]
fn prefill_gives_up_after_the_last_wait() {
    let mut gate = Prefill::new(usize::MAX);
    let mut waits = 0;
    while gate.poll(0) == PrefillStep::Wait {
        waits += 1;
    }
    assert_eq!(waits, MAX_PREFILL_POLLS);
    assert_eq!(gate.waited, 100);
}

#[test]
fn engine_buffer_holds_8192_samples() {
    assert_eq!(BUFFER_CAPACITY, 8192);
}
