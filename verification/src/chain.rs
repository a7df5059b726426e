use vstd::prelude::*;

verus! {

/// An ordered chain of effects; a sample runs through them first to last.
///
/// The chain is generic over the effect type: the effects compute on floating-point samples
/// and stay outside the verified library, while the chain's structure (which effects it
/// holds, in which order) is kept here.
pub struct EffectChain<E> {
    effects: Vec<E>,
}

impl<E> View for EffectChain<E> {
    type V = Seq<E>;

    /// The effects of the chain, in processing order.
    closed spec fn view(&self) -> Seq<E> {
        self.effects@
    }
}

impl<E> EffectChain<E> {
    /// An empty chain, which passes samples through unchanged.
    pub fn new() -> (r: Self)
        ensures
            r@ == Seq::<E>::empty(),
    {
        EffectChain { effects: Vec::new() }
    }

    /// The chain with `effect` appended at its end (builder style).
    pub fn apply(self, effect: E) -> (r: Self)
        ensures
            r@ == self@.push(effect),
    {
        let mut chain = self;
        chain.effects.push(effect);
        chain
    }

    /// The effects, in processing order.
    pub fn effects(&self) -> (r: &[E])
        ensures
            r@ == self@,
    {
        self.effects.as_slice()
    }

    /// The effects, in processing order, for changing their settings in place.
    pub fn effects_mut(&mut self) -> (r: &mut [E])
        ensures
            r@ == old(self)@,
            final(self)@ == final(r)@,
    {
        self.effects.as_mut_slice()
    }

    /// Appends `effect` at the end of the chain.
    pub fn push_effect(&mut self, effect: E)
        ensures
            final(self)@ == old(self)@.push(effect),
    {
        self.effects.push(effect);
    }

    /// Removes the effect at `index`; an index past the end leaves the chain unchanged.
    pub fn remove_effect(&mut self, index: usize)
        ensures
            index < old(self)@.len() ==> final(self)@ == old(self)@.remove(index as int),
            index >= old(self)@.len() ==> final(self)@ == old(self)@,
    {
        if index < self.effects.len() {
            self.effects.remove(index);
        }
    }
}

impl<E: Clone> Clone for EffectChain<E> {
    /// A chain of clones of the effects, in the same order.
    fn clone(&self) -> (r: Self)
        ensures
            r@.len() == self@.len(),
            forall|i: int| 0 <= i < self@.len() ==> cloned::<E>(#[trigger] self@[i], r@[i]),
    {
        EffectChain { effects: self.effects.clone() }
    }
}

impl<E> Default for EffectChain<E> {
    fn default() -> (r: Self)
        ensures
            r@ == Seq::<E>::empty(),
    {
        EffectChain::new()
    }
}

/// Appending an effect and then removing the last one gives back the chain as it was.
pub proof fn lemma_push_then_remove_last<E>(effects: Seq<E>, effect: E)
    ensures
        effects.push(effect).remove(effects.len() as int) == effects,
{
    assert(effects.push(effect).remove(effects.len() as int) =~= effects);
}

/// Removing an effect shortens the chain by one and keeps the others in order.
pub proof fn lemma_remove_keeps_order<E>(effects: Seq<E>, index: int)
    requires
        0 <= index < effects.len(),
    ensures
        effects.remove(index).len() == effects.len() - 1,
        forall|i: int| 0 <= i < index ==> #[trigger] effects.remove(index)[i] == effects[i],
        forall|i: int| index <= i < effects.len() - 1 ==> #[trigger] effects.remove(index)[i] == effects[i + 1],
{
}

} // verus!
