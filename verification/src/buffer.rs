use vstd::prelude::*;
use std::collections::VecDeque;

verus! {

/// One audio sample, carried as the IEEE-754 bit pattern of an `f32`.
///
/// The buffers and delay lines of this crate store, order and hand back samples without
/// ever doing arithmetic on them, so they hold the bit pattern; the effects that compute
/// on samples convert with `f32::to_bits` / `f32::from_bits`.
pub type Sample = u32;

/// The bit pattern of `0.0f32`: what a drained buffer plays.
pub const SILENCE: Sample = 0;

/// Capacity of the buffer that `AudioBuffer::default` builds.
pub const DEFAULT_CAPACITY: usize = 4096;

/// The contents after pushing `sample` into a buffer holding `contents` with room for
/// `capacity` samples: the sample is appended when there is room and dropped otherwise.
pub open spec fn push_model(contents: Seq<Sample>, capacity: nat, sample: Sample) -> Seq<Sample> {
    if contents.len() < capacity {
        contents.push(sample)
    } else {
        contents
    }
}

/// The contents left after one pop: the oldest sample is removed, if there is one.
pub open spec fn pop_rest(contents: Seq<Sample>) -> Seq<Sample> {
    if contents.len() == 0 {
        contents
    } else {
        contents.drop_first()
    }
}

/// The sample one pop returns: the oldest one, or silence from an empty buffer.
pub open spec fn pop_value(contents: Seq<Sample>) -> Sample {
    if contents.len() == 0 {
        SILENCE
    } else {
        contents[0]
    }
}

/// The contents after pushing every sample of `samples`, in order.
pub open spec fn push_all_model(contents: Seq<Sample>, capacity: nat, samples: Seq<Sample>) -> Seq<Sample>
    decreases samples.len(),
{
    if samples.len() == 0 {
        contents
    } else {
        push_all_model(push_model(contents, capacity, samples[0]), capacity, samples.drop_first())
    }
}

/// The samples that `n` pops in a row return.
pub open spec fn pop_n_values(contents: Seq<Sample>, n: nat) -> Seq<Sample>
    decreases n,
{
    if n == 0 {
        Seq::empty()
    } else {
        seq![pop_value(contents)] + pop_n_values(pop_rest(contents), (n - 1) as nat)
    }
}

/// A bounded first-in, first-out queue of samples between the input and the output
/// callbacks. A push into a full buffer is dropped; a pop from an empty one gives silence.
pub struct AudioBuffer {
    inner: VecDeque<Sample>,
    capacity: usize,
}

impl AudioBuffer {
    #[verifier::type_invariant]
    spec fn wf(self) -> bool {
        self.inner@.len() <= self.capacity
    }

    /// The queued samples, oldest first.
    pub closed spec fn contents(self) -> Seq<Sample> {
        self.inner@
    }

    /// The most samples the buffer holds at once.
    pub closed spec fn spec_capacity(self) -> nat {
        self.capacity as nat
    }

    /// An empty buffer with room for `capacity` samples.
    pub fn new(capacity: usize) -> (r: Self)
        ensures
            r.contents() == Seq::<Sample>::empty(),
            r.spec_capacity() == capacity,
    {
        AudioBuffer { inner: VecDeque::with_capacity(capacity), capacity }
    }

    /// Appends a sample when the buffer has room; drops it when the buffer is full.
    pub fn push(&mut self, sample: Sample)
        ensures
            final(self).contents() == push_model(old(self).contents(), old(self).spec_capacity(), sample),
            final(self).spec_capacity() == old(self).spec_capacity(),
    {
        proof {
            use_type_invariant(&*self);
        }
        if self.inner.len() < self.capacity {
            let mut inner = VecDeque::new();
            std::mem::swap(&mut inner, &mut self.inner);
            inner.push_back(sample);
            std::mem::swap(&mut inner, &mut self.inner);
        }
    }

    /// Removes and returns the oldest sample, or returns silence when the buffer is empty.
    pub fn pop(&mut self) -> (r: Sample)
        ensures
            r == pop_value(old(self).contents()),
            final(self).contents() == pop_rest(old(self).contents()),
            final(self).spec_capacity() == old(self).spec_capacity(),
    {
        proof {
            use_type_invariant(&*self);
        }
        let mut inner = VecDeque::new();
        std::mem::swap(&mut inner, &mut self.inner);
        let front = inner.pop_front();
        std::mem::swap(&mut inner, &mut self.inner);
        match front {
            Some(sample) => sample,
            None => SILENCE,
        }
    }

    /// The number of queued samples, which never exceeds the capacity.
    pub fn len(&self) -> (r: usize)
        ensures
            r == self.contents().len(),
            r <= self.spec_capacity(),
    {
        proof {
            use_type_invariant(self);
        }
        self.inner.len()
    }

    /// Whether no sample is queued.
    pub fn is_empty(&self) -> (r: bool)
        ensures
            r == (self.contents().len() == 0),
    {
        self.len() == 0
    }

    /// The most samples the buffer holds at once.
    pub fn capacity(&self) -> (r: usize)
        ensures
            r == self.spec_capacity(),
    {
        self.capacity
    }
}

impl Default for AudioBuffer {
    fn default() -> (r: Self)
        ensures
            r.contents() == Seq::<Sample>::empty(),
            r.spec_capacity() == DEFAULT_CAPACITY,
    {
        Self::new(DEFAULT_CAPACITY)
    }
}

/// Pushing never lets a buffer grow past its capacity.
pub proof fn lemma_push_respects_capacity(contents: Seq<Sample>, capacity: nat, sample: Sample)
    requires
        contents.len() <= capacity,
    ensures
        push_model(contents, capacity, sample).len() <= capacity,
{
}

/// Samples come out in the order they went in: pushing `samples` into a buffer that holds
/// `contents` and has room for all of them, then popping everything, returns `contents`
/// followed by `samples`.
pub proof fn lemma_fifo_order(contents: Seq<Sample>, capacity: nat, samples: Seq<Sample>)
    requires
        contents.len() + samples.len() <= capacity,
    ensures
        push_all_model(contents, capacity, samples) == contents + samples,
        pop_n_values(contents + samples, contents.len() + samples.len()) == contents + samples,
    decreases samples.len(),
{
    lemma_push_all_appends(contents, capacity, samples);
    lemma_pop_n_drains(contents + samples);
}

proof fn lemma_push_all_appends(contents: Seq<Sample>, capacity: nat, samples: Seq<Sample>)
    requires
        contents.len() + samples.len() <= capacity,
    ensures
        push_all_model(contents, capacity, samples) == contents + samples,
    decreases samples.len(),
{
    if samples.len() > 0 {
        let next = contents.push(samples[0]);
        lemma_push_all_appends(next, capacity, samples.drop_first());
        assert(next + samples.drop_first() =~= contents + samples);
    } else {
        assert(contents + samples =~= contents);
    }
}

proof fn lemma_pop_n_drains(contents: Seq<Sample>)
    ensures
        pop_n_values(contents, contents.len()) == contents,
    decreases contents.len(),
{
    if contents.len() == 0 {
        assert(pop_n_values(contents, 0) =~= contents);
    } else {
        lemma_pop_n_drains(contents.drop_first());
        assert(seq![contents[0]] + contents.drop_first() =~= contents);
    }
}

/// Popping more samples than the buffer holds yields its contents, then silence for every
/// extra pop.
pub proof fn lemma_drained_buffer_is_silent(contents: Seq<Sample>, extra: nat)
    ensures
        pop_n_values(contents, contents.len() + extra) == contents + Seq::new(extra, |i: int| SILENCE),
    decreases contents.len(),
{
    if contents.len() > 0 {
        lemma_drained_buffer_is_silent(contents.drop_first(), extra);
        assert(seq![contents[0]] + (contents.drop_first() + Seq::new(extra, |i: int| SILENCE))
            =~= contents + Seq::new(extra, |i: int| SILENCE));
    } else {
        lemma_silence_forever(contents, extra);
        assert(contents + Seq::new(extra, |i: int| SILENCE) =~= Seq::new(extra, |i: int| SILENCE));
    }
}

proof fn lemma_silence_forever(contents: Seq<Sample>, n: nat)
    requires
        contents.len() == 0,
    ensures
        pop_n_values(contents, n) == Seq::new(n, |i: int| SILENCE),
    decreases n,
{
    if n > 0 {
        lemma_silence_forever(contents, (n - 1) as nat);
        assert(pop_n_values(contents, n) =~= Seq::new(n, |i: int| SILENCE));
    } else {
        assert(pop_n_values(contents, n) =~= Seq::new(n, |i: int| SILENCE));
    }
}

} // verus!
