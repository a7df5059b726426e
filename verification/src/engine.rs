use vstd::prelude::*;
use crate::buffer::{AudioBuffer, Sample, SILENCE, pop_value, pop_rest};

verus! {

/// How many frames of `channels` interleaved samples a block of `len` samples holds,
/// counting a trailing partial frame.
pub open spec fn frame_count(len: int, channels: int) -> int {
    (len + channels - 1) / channels
}

/// The sample that the `frame`-th pop of a buffer holding `contents` returns.
pub open spec fn frame_sample(contents: Seq<Sample>, frame: int) -> Sample {
    if frame < contents.len() {
        contents[frame]
    } else {
        SILENCE
    }
}

/// What a buffer holding `contents` still holds after `pops` pops.
pub open spec fn after_pops(contents: Seq<Sample>, pops: int) -> Seq<Sample> {
    if pops < contents.len() {
        contents.skip(pops)
    } else {
        Seq::empty()
    }
}

proof fn lemma_frame_of(j: int, f: int, channels: int)
    by (nonlinear_arith)
    requires
        channels > 0,
        f >= 0,
        f * channels <= j < f * channels + channels,
    ensures
        j / channels == f,
{
}

proof fn lemma_frames_done(len: int, f: int, channels: int)
    by (nonlinear_arith)
    requires
        channels > 0,
        f >= 0,
        len > 0,
        (f - 1) * channels < len <= f * channels,
    ensures
        frame_count(len, channels) == f,
{
}

/// Fills one output block: for each frame of `channels` interleaved samples (the last frame
/// may be partial), pops one sample from the buffer and copies it to every channel of the
/// frame. Frames beyond the queued samples play silence.
pub fn fill_output(buffer: &mut AudioBuffer, data: &mut [Sample], channels: usize)
    requires
        channels > 0,
    ensures
        final(data)@.len() == old(data)@.len(),
        forall|j: int|
            0 <= j < old(data)@.len() ==> #[trigger] final(data)@[j] == frame_sample(
                old(buffer).contents(),
                j / channels as int,
            ),
        final(buffer).contents() == after_pops(
            old(buffer).contents(),
            frame_count(old(data)@.len() as int, channels as int),
        ),
        final(buffer).spec_capacity() == old(buffer).spec_capacity(),
{
    let ghost start = buffer.contents();
    let len = data.len();
    let mut pos: usize = 0;
    let mut frame: usize = 0;
    while pos < len
        invariant
            len == data@.len(),
            len == old(data)@.len(),
            channels > 0,
            pos <= len,
            frame <= pos,
            pos < len ==> pos == frame * channels,
            pos == len ==> (frame == 0 && len == 0) || ((frame - 1) * channels < len <= frame * channels),
            buffer.contents() == after_pops(start, frame as int),
            buffer.spec_capacity() == old(buffer).spec_capacity(),
            forall|j: int| 0 <= j < pos ==> #[trigger] data@[j] == frame_sample(start, j / channels as int),
        decreases len - pos,
    {
        proof {
            if frame < start.len() {
                assert(start.skip(frame as int)[0] == start[frame as int]);
                assert(start.skip(frame as int).drop_first() =~= after_pops(start, frame + 1));
            } else {
                assert(after_pops(start, frame + 1) =~= Seq::<Sample>::empty());
            }
        }
        assert(frame <= frame * channels) by (nonlinear_arith)
            requires
                channels > 0,
        ;
        let sample = buffer.pop();
        assert(sample == frame_sample(start, frame as int));
        let ghost frame_start = pos as int;
        let mut k: usize = 0;
        while k < channels && pos < len
            invariant
                len == data@.len(),
                channels > 0,
                frame_start == frame * channels,
                pos == frame_start + k,
                k <= channels,
                pos <= len,
                sample == frame_sample(start, frame as int),
                forall|j: int| 0 <= j < pos ==> #[trigger] data@[j] == frame_sample(start, j / channels as int),
            decreases channels - k,
        {
            proof {
                lemma_frame_of(pos as int, frame as int, channels as int);
            }
            data[pos] = sample;
            pos = pos + 1;
            k = k + 1;
        }
        proof {
            assert((frame + 1) * channels == frame * channels + channels) by (nonlinear_arith);
            if pos < len {
                assert(k == channels);
            } else {
                assert(frame * channels < len);
            }
        }
        frame = frame + 1;
    }
    proof {
        if len > 0 {
            lemma_frames_done(len as int, frame as int, channels as int);
        } else {
            assert(frame_count(0, channels as int) == 0) by (nonlinear_arith)
                requires
                    channels > 0,
            ;
        }
    }
}

/// Writes silence over a whole output block, as the output callback does when it cannot
/// reach the buffer.
pub fn fill_silence(data: &mut [Sample])
    ensures
        final(data)@.len() == old(data)@.len(),
        forall|j: int| 0 <= j < old(data)@.len() ==> #[trigger] final(data)@[j] == SILENCE,
{
    let len = data.len();
    let mut i: usize = 0;
    while i < len
        invariant
            len == data@.len(),
            len == old(data)@.len(),
            i <= len,
            forall|j: int| 0 <= j < i ==> #[trigger] data@[j] == SILENCE,
        decreases len - i,
    {
        data[i] = SILENCE;
        i = i + 1;
    }
}


/// Capacity of the buffer between the input and the output callbacks.
pub const BUFFER_CAPACITY: usize = 8192;

/// How many times the start-up waits for the buffer to fill before it starts the output
/// anyway.
pub const MAX_PREFILL_POLLS: u32 = 100;

/// What the start-up does after one look at the buffer.
#[derive(Clone, Copy, PartialEq, Eq, Structural, Debug)]
pub enum PrefillStep {
    /// Sleep one poll interval, then look again.
    Wait,
    /// Start the output stream.
    StartOutput,
}

/// The start-up of the audio streams: after the input starts, the output waits until the
/// buffer holds `target_fill` samples, or until it has waited `MAX_PREFILL_POLLS` times.
#[derive(Clone, Copy, PartialEq, Eq, Structural, Debug)]
pub struct Prefill {
    pub waited: u32,
    pub target_fill: usize,
}

impl Prefill {
    /// A start-up that has not waited yet.
    pub fn new(target_fill: usize) -> (r: Self)
        ensures
            r.waited == 0,
            r.target_fill == target_fill,
    {
        Prefill { waited: 0, target_fill }
    }

    /// Looks at the buffer, which holds `fill` samples: starts the output once the buffer is
    /// full enough or the waits are used up, and otherwise counts one more wait.
    pub fn poll(&mut self, fill: usize) -> (r: PrefillStep)
        ensures
            final(self).target_fill == old(self).target_fill,
            old(self).waited < MAX_PREFILL_POLLS && fill < old(self).target_fill ==> r == PrefillStep::Wait
                && final(self).waited == old(self).waited + 1,
            !(old(self).waited < MAX_PREFILL_POLLS && fill < old(self).target_fill) ==> r
                == PrefillStep::StartOutput && final(self).waited == old(self).waited,
    {
        if self.waited < MAX_PREFILL_POLLS && fill < self.target_fill {
            self.waited = self.waited + 1;
            PrefillStep::Wait
        } else {
            PrefillStep::StartOutput
        }
    }
}

/// How many of the looks at the buffer, seeing the fill levels `fills` in turn, make the
/// start-up wait, when it has already waited `waited` times.
pub open spec fn waits_for(waited: nat, target_fill: usize, fills: Seq<usize>) -> nat
    decreases fills.len(),
{
    if fills.len() == 0 {
        0
    } else if waited < MAX_PREFILL_POLLS && fills[0] < target_fill {
        1 + waits_for(waited + 1, target_fill, fills.drop_first())
    } else {
        waits_for(waited, target_fill, fills.drop_first())
    }
}

/// The start-up waits at most `MAX_PREFILL_POLLS` times in all, whatever fill levels it
/// sees: the output always starts.
pub proof fn lemma_prefill_wait_is_bounded(waited: nat, target_fill: usize, fills: Seq<usize>)
    requires
        waited <= MAX_PREFILL_POLLS,
    ensures
        waited + waits_for(waited, target_fill, fills) <= MAX_PREFILL_POLLS,
    decreases fills.len(),
{
    if fills.len() > 0 {
        if waited < MAX_PREFILL_POLLS && fills[0] < target_fill {
            lemma_prefill_wait_is_bounded(waited + 1, target_fill, fills.drop_first());
        } else {
            lemma_prefill_wait_is_bounded(waited, target_fill, fills.drop_first());
        }
    }
}

} // verus!
