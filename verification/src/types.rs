use vstd::prelude::*;

verus! {

/// The screen that the terminal UI shows.
#[derive(Clone, Copy, PartialEq, Eq, Structural, Debug)]
pub enum Screen {
    MainMenu,
    InputDeviceSelect,
    OutputDeviceSelect,
    Pedalboard,
    AddEffect,
}

/// Which pane of the pedalboard screen the arrow keys move in.
#[derive(Clone, Copy, PartialEq, Eq, Structural, Debug)]
pub enum PedalFocus {
    Effects,
    Params,
}

/// The kinds of effect that the "add effect" dialog offers, in the order it lists them.
#[derive(Clone, Copy, PartialEq, Eq, Structural, Debug)]
pub enum EffectKind {
    Overdrive,
    Distortion,
    Fuzz,
    Chorus,
    Delay,
}

/// The entries of the main menu.
pub const MENU_ITEMS: [&'static str; 2] = ["Pedalboard", "Exit"];

/// The names of the effect kinds, in the order the "add effect" dialog lists them.
pub const EFFECT_KINDS: [&'static str; 5] = ["Overdrive", "Distortion", "Fuzz", "Chorus", "Delay"];

/// Number of entries in the main menu.
pub const MENU_LEN: usize = 2;

/// Number of effect kinds that can be added.
pub const EFFECT_KIND_COUNT: usize = 5;

/// The effect kind listed at `index` in the "add effect" dialog.
pub open spec fn effect_kind_at_spec(index: nat) -> EffectKind {
    if index == 0 {
        EffectKind::Overdrive
    } else if index == 1 {
        EffectKind::Distortion
    } else if index == 2 {
        EffectKind::Fuzz
    } else if index == 3 {
        EffectKind::Chorus
    } else {
        EffectKind::Delay
    }
}

/// The effect kind listed at `index` in the "add effect" dialog.
pub fn effect_kind_at(index: usize) -> (r: EffectKind)
    requires
        index < EFFECT_KIND_COUNT,
    ensures
        r == effect_kind_at_spec(index as nat),
{
    if index == 0 {
        EffectKind::Overdrive
    } else if index == 1 {
        EffectKind::Distortion
    } else if index == 2 {
        EffectKind::Fuzz
    } else if index == 3 {
        EffectKind::Chorus
    } else {
        EffectKind::Delay
    }
}

impl EffectKind {
    /// The name shown for this kind of effect.
    pub fn name(&self) -> (r: &'static str)
        ensures
            r == EFFECT_KINDS[self.index() as int],
    {
        match self {
            EffectKind::Overdrive => EFFECT_KINDS[0],
            EffectKind::Distortion => EFFECT_KINDS[1],
            EffectKind::Fuzz => EFFECT_KINDS[2],
            EffectKind::Chorus => EFFECT_KINDS[3],
            EffectKind::Delay => EFFECT_KINDS[4],
        }
    }

    /// The position of this kind in the "add effect" dialog.
    pub open spec fn index(self) -> nat {
        match self {
            EffectKind::Overdrive => 0,
            EffectKind::Distortion => 1,
            EffectKind::Fuzz => 2,
            EffectKind::Chorus => 3,
            EffectKind::Delay => 4,
        }
    }
}

/// Each kind sits at its own position in the dialog.
pub proof fn lemma_effect_kind_round_trip(kind: EffectKind)
    ensures
        kind.index() < EFFECT_KIND_COUNT,
        effect_kind_at_spec(kind.index()) == kind,
{
}

} // verus!
