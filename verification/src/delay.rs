use vstd::prelude::*;
use crate::buffer::{Sample, SILENCE};

verus! {

/// `x % len` for `x` below `2 * len`: one wrap at most.
proof fn lemma_wrap(x: int, len: int)
    requires
        0 < len,
        0 <= x < 2 * len,
    ensures
        x % len == if x < len { x } else { x - len },
{
    if x < len {
        vstd::arithmetic::div_mod::lemma_small_mod(x as nat, len as nat);
    } else {
        vstd::arithmetic::div_mod::lemma_mod_multiples_vanish(1, x - len, len);
        vstd::arithmetic::div_mod::lemma_small_mod((x - len) as nat, len as nat);
    }
}

/// The position after `pos` in a ring of `len` slots.
pub open spec fn ring_next(pos: nat, len: nat) -> nat {
    if pos + 1 >= len {
        0
    } else {
        (pos + 1) as nat
    }
}

/// A circular buffer of samples with a write head, as the chorus uses it: the newest
/// sample is written at the head, taps read anywhere in the ring, then the head moves on.
pub struct SampleRing {
    buffer: Vec<Sample>,
    head: usize,
}

impl SampleRing {
    #[verifier::type_invariant]
    spec fn wf(self) -> bool {
        if self.buffer@.len() == 0 {
            self.head == 0
        } else {
            self.head < self.buffer@.len()
        }
    }

    /// The slots of the ring.
    pub closed spec fn slots(self) -> Seq<Sample> {
        self.buffer@
    }

    /// The slot the next sample is written to.
    pub closed spec fn spec_head(self) -> nat {
        self.head as nat
    }

    /// A ring of `len` silent slots with the head on the first.
    pub fn new(len: usize) -> (r: Self)
        ensures
            r.slots() == Seq::new(len as nat, |i: int| SILENCE),
            r.spec_head() == 0,
    {
        let buffer: Vec<Sample> = vec![SILENCE; len];
        assert(buffer@ =~= Seq::new(len as nat, |i: int| SILENCE));
        SampleRing { buffer, head: 0 }
    }

    /// The number of slots.
    pub fn len(&self) -> (r: usize)
        ensures
            r == self.slots().len(),
    {
        self.buffer.len()
    }

    /// The slot the next sample is written to, which is a slot of a non-empty ring.
    pub fn head(&self) -> (r: usize)
        ensures
            r == self.spec_head(),
            self.slots().len() > 0 ==> r < self.slots().len(),
    {
        proof {
            use_type_invariant(self);
        }
        self.head
    }

    /// Writes `sample` at the head, leaving the head where it is.
    pub fn write(&mut self, sample: Sample)
        requires
            old(self).slots().len() > 0,
        ensures
            final(self).slots() == old(self).slots().update(old(self).spec_head() as int, sample),
            final(self).spec_head() == old(self).spec_head(),
    {
        proof {
            use_type_invariant(&*self);
        }
        let mut taken = SampleRing { buffer: Vec::new(), head: 0 };
        std::mem::swap(&mut taken, self);
        let SampleRing { mut buffer, head } = taken;
        buffer.set(head, sample);
        *self = SampleRing { buffer, head };
    }

    /// Moves the head to the next slot, wrapping from the last slot to the first.
    pub fn advance(&mut self)
        requires
            old(self).slots().len() > 0,
        ensures
            final(self).slots() == old(self).slots(),
            final(self).spec_head() == ring_next(old(self).spec_head(), old(self).slots().len()),
    {
        let len = self.buffer.len();
        proof {
            use_type_invariant(&*self);
            lemma_wrap(self.head + 1, len as int);
        }
        self.head = (self.head + 1) % len;
    }

    /// `index` folded into the ring: `index % len`.
    pub fn wrap(&self, index: usize) -> (r: usize)
        requires
            self.slots().len() > 0,
        ensures
            r == index as nat % self.slots().len(),
            r < self.slots().len(),
    {
        index % self.buffer.len()
    }

    /// The sample in slot `index`.
    pub fn sample_at(&self, index: usize) -> (r: Sample)
        requires
            index < self.slots().len(),
        ensures
            r == self.slots()[index as int],
    {
        self.buffer[index]
    }
}

impl Clone for SampleRing {
    /// A copy with the same slots and head.
    fn clone(&self) -> (r: Self)
        ensures
            r.slots() == self.slots(),
            r.spec_head() == self.spec_head(),
    {
        proof {
            use_type_invariant(self);
        }
        let buffer = self.buffer.clone();
        assert(buffer@ =~= self.buffer@);
        SampleRing { buffer, head: self.head }
    }
}

/// The slot that a delay line of `len` slots with its write pointer at `ptr` reads when
/// delaying by `delay` samples.
pub open spec fn read_slot(ptr: nat, len: nat, delay: nat) -> int {
    (ptr + len - delay) % (len as int)
}

/// A feedback delay line: a ring of `delay_samples + 1` slots. Each step reads the sample
/// written `delay_samples` steps ago and writes a new one.
pub struct DelayLine {
    buffer: Vec<Sample>,
    write_ptr: usize,
    delay_samples: usize,
}

impl DelayLine {
    #[verifier::type_invariant]
    spec fn wf(self) -> bool {
        &&& self.buffer@.len() == self.delay_samples + 1
        &&& self.write_ptr < self.buffer@.len()
    }

    /// The slots of the line.
    pub closed spec fn slots(self) -> Seq<Sample> {
        self.buffer@
    }

    /// The slot the next sample is written to.
    pub closed spec fn spec_write_ptr(self) -> nat {
        self.write_ptr as nat
    }

    /// The delay, in samples.
    pub closed spec fn spec_delay(self) -> nat {
        self.delay_samples as nat
    }

    /// A silent line delaying by `delay_samples`.
    pub fn new(delay_samples: usize) -> (r: Self)
        requires
            delay_samples < usize::MAX,
        ensures
            r.slots() == Seq::new((delay_samples + 1) as nat, |i: int| SILENCE),
            r.spec_write_ptr() == 0,
            r.spec_delay() == delay_samples,
    {
        let buffer: Vec<Sample> = vec![SILENCE; delay_samples + 1];
        assert(buffer@ =~= Seq::new((delay_samples + 1) as nat, |i: int| SILENCE));
        DelayLine { buffer, write_ptr: 0, delay_samples }
    }

    /// The delay, in samples; the line has one slot more, and its write pointer on a slot.
    pub fn delay_samples(&self) -> (r: usize)
        ensures
            r == self.spec_delay(),
            self.slots().len() == r + 1,
            self.spec_write_ptr() < self.slots().len(),
    {
        proof {
            use_type_invariant(self);
        }
        self.delay_samples
    }

    /// Changes the delay: the ring is cut or extended with silence to `delay_samples + 1`
    /// slots, and the write pointer is folded into it.
    pub fn set_delay(&mut self, delay_samples: usize)
        requires
            delay_samples < usize::MAX,
        ensures
            final(self).spec_delay() == delay_samples,
            final(self).slots().len() == delay_samples + 1,
            delay_samples + 1 <= old(self).slots().len() ==> final(self).slots() == old(self).slots().subrange(
                0,
                delay_samples + 1,
            ),
            delay_samples + 1 > old(self).slots().len() ==> final(self).slots() == old(self).slots()
                + Seq::new((delay_samples + 1 - old(self).slots().len()) as nat, |i: int| SILENCE),
            final(self).spec_write_ptr() == old(self).spec_write_ptr() % (delay_samples + 1) as nat,
    {
        proof {
            use_type_invariant(&*self);
        }
        let len = delay_samples + 1;
        let mut taken = DelayLine::new(0);
        std::mem::swap(&mut taken, self);
        let DelayLine { mut buffer, write_ptr, delay_samples: _ } = taken;
        let ghost before = buffer@;
        if len <= buffer.len() {
            buffer.truncate(len);
        } else {
            while buffer.len() < len
                invariant
                    len == delay_samples + 1,
                    before.len() < len,
                    before.len() <= buffer@.len() <= len,
                    buffer@ == before + Seq::new((buffer@.len() - before.len()) as nat, |i: int| SILENCE),
                decreases len - buffer@.len(),
            {
                buffer.push(SILENCE);
                assert(buffer@ =~= before + Seq::new((buffer@.len() - before.len()) as nat, |i: int| SILENCE));
            }
        }
        let ptr = write_ptr % len;
        *self = DelayLine { buffer, write_ptr: ptr, delay_samples };
    }

    /// The sample written `delay_samples` steps ago (silence at first).
    pub fn delayed(&self) -> (r: Sample)
        ensures
            r == self.slots()[read_slot(self.spec_write_ptr(), self.slots().len(), self.spec_delay())],
            0 <= read_slot(self.spec_write_ptr(), self.slots().len(), self.spec_delay()) < self.slots().len(),
    {
        proof {
            use_type_invariant(self);
            lemma_wrap(self.write_ptr + self.buffer@.len() - self.delay_samples, self.buffer@.len() as int);
        }
        let len = self.buffer.len();
        let read_ptr = (self.write_ptr + (len - self.delay_samples)) % len;
        self.buffer[read_ptr]
    }

    /// Writes `sample` at the write pointer and moves the pointer on, wrapping around.
    pub fn push(&mut self, sample: Sample)
        ensures
            final(self).slots() == old(self).slots().update(old(self).spec_write_ptr() as int, sample),
            final(self).spec_write_ptr() == ring_next(old(self).spec_write_ptr(), old(self).slots().len()),
            final(self).spec_delay() == old(self).spec_delay(),
    {
        proof {
            use_type_invariant(&*self);
            lemma_wrap(self.write_ptr + 1, self.buffer@.len() as int);
        }
        let mut taken = DelayLine::new(0);
        std::mem::swap(&mut taken, self);
        let DelayLine { mut buffer, write_ptr, delay_samples } = taken;
        buffer.set(write_ptr, sample);
        let len = buffer.len();
        *self = DelayLine { buffer, write_ptr: (write_ptr + 1) % len, delay_samples };
    }
}


impl Clone for DelayLine {
    /// A copy with the same slots, write pointer and delay.
    fn clone(&self) -> (r: Self)
        ensures
            r.slots() == self.slots(),
            r.spec_write_ptr() == self.spec_write_ptr(),
            r.spec_delay() == self.spec_delay(),
    {
        proof {
            use_type_invariant(self);
        }
        let buffer = self.buffer.clone();
        assert(buffer@ =~= self.buffer@);
        DelayLine { buffer, write_ptr: self.write_ptr, delay_samples: self.delay_samples }
    }
}

/// The slots and write pointer of a delay line after pushing `samples`, in order, into one
/// whose slots are `slots` and whose write pointer is `ptr`.
pub open spec fn pushed(slots: Seq<Sample>, ptr: nat, samples: Seq<Sample>) -> (Seq<Sample>, nat)
    decreases samples.len(),
{
    if samples.len() == 0 {
        (slots, ptr)
    } else {
        pushed(slots.update(ptr as int, samples[0]), ring_next(ptr, slots.len()), samples.drop_first())
    }
}

/// How many steps the pointer takes from `from` to reach slot `to` in a ring of `len`.
pub open spec fn ring_distance(from: int, to: int, len: int) -> int {
    if to >= from {
        to - from
    } else {
        to + len - from
    }
}

proof fn lemma_pushed_shape(slots: Seq<Sample>, ptr: nat, samples: Seq<Sample>)
    requires
        ptr < slots.len(),
        samples.len() <= slots.len(),
    ensures
        pushed(slots, ptr, samples).0.len() == slots.len(),
        pushed(slots, ptr, samples).1 == if ptr + samples.len() < slots.len() {
            (ptr + samples.len()) as int
        } else {
            ptr + samples.len() - slots.len()
        },
        forall|i: int|
            0 <= i < slots.len() ==> #[trigger] pushed(slots, ptr, samples).0[i] == if ring_distance(
                ptr as int,
                i,
                slots.len() as int,
            ) < samples.len() {
                samples[ring_distance(ptr as int, i, slots.len() as int)]
            } else {
                slots[i]
            },
    decreases samples.len(),
{
    if samples.len() > 0 {
        let s1 = slots.update(ptr as int, samples[0]);
        let p1 = ring_next(ptr, slots.len());
        let tail = samples.drop_first();
        lemma_pushed_shape(s1, p1, tail);
        assert forall|i: int| 0 <= i < slots.len() implies #[trigger] pushed(slots, ptr, samples).0[i] == if ring_distance(
            ptr as int,
            i,
            slots.len() as int,
        ) < samples.len() {
            samples[ring_distance(ptr as int, i, slots.len() as int)]
        } else {
            slots[i]
        } by {
            assert(pushed(slots, ptr, samples).0 == pushed(s1, p1, tail).0);
            if i != ptr {
                assert(ring_distance(ptr as int, i, slots.len() as int) == ring_distance(p1 as int, i, slots.len() as int) + 1);
            } else {
                assert(ring_distance(p1 as int, i, slots.len() as int) == slots.len() - 1);
            }
        }
    }
}

/// A delay line hands back each sample exactly `delay` steps after it was written: from any
/// state, after pushing `samples` (as many as the delay), the line reads the first of them.
pub proof fn lemma_delay_returns_input(slots: Seq<Sample>, ptr: nat, delay: nat, samples: Seq<Sample>)
    requires
        slots.len() == delay + 1,
        ptr < slots.len(),
        delay >= 1,
        samples.len() == delay,
    ensures
        0 <= read_slot(pushed(slots, ptr, samples).1, slots.len(), delay) < slots.len(),
        pushed(slots, ptr, samples).0[read_slot(pushed(slots, ptr, samples).1, slots.len(), delay)]
            == samples[0],
{
    lemma_pushed_shape(slots, ptr, samples);
    let p2 = pushed(slots, ptr, samples).1;
    lemma_wrap(p2 + slots.len() - delay, slots.len() as int);
    assert(read_slot(p2, slots.len(), delay) == ptr);
    assert(ring_distance(ptr as int, ptr as int, slots.len() as int) == 0);
}

/// A fresh line reads silence until its first sample comes back.
pub proof fn lemma_fresh_line_is_silent(delay: nat, ptr: nat)
    requires
        ptr < delay + 1,
    ensures
        0 <= read_slot(ptr, delay + 1, delay) < delay + 1,
        Seq::new(delay + 1, |i: int| SILENCE)[read_slot(ptr, delay + 1, delay)] == SILENCE,
{
    lemma_wrap(ptr + delay + 1 - delay, (delay + 1) as int);
}

} // verus!
