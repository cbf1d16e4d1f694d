//! The abstract modifier set and its derivation from the four modifier flags
//! that a windowing platform reports with every key event.

use vstd::prelude::*;

verus! {

/// A keyboard modifier that a shortcut may require.
#[derive(Clone, Copy, Debug, PartialEq, Eq, Structural)]
pub enum Modifier {
    Ctrl,
    Alt,
    /// The super key ("windows" or "command").
    Mod,
    Shift,
}

/// The modifier flags that accompany a key event: four independent booleans.
#[derive(Clone, Copy, Debug, PartialEq, Eq, Structural)]
pub struct ModifierFlags {
    pub alt: bool,
    pub ctrl: bool,
    /// The super key ("windows" or "command").
    pub logo: bool,
    pub shift: bool,
}

impl ModifierFlags {
    /// Whether the flag that stands for `modifier` is set.
    pub open spec fn holds(self, modifier: Modifier) -> bool {
        match modifier {
            Modifier::Ctrl => self.ctrl,
            Modifier::Alt => self.alt,
            Modifier::Mod => self.logo,
            Modifier::Shift => self.shift,
        }
    }
}

/// The one-element sequence `[modifier]` if `active`, else the empty sequence.
pub open spec fn modifier_if(active: bool, modifier: Modifier) -> Seq<Modifier> {
    if active {
        seq![modifier]
    } else {
        Seq::empty()
    }
}

/// The active modifiers of `flags`, in the order Alt, Ctrl, Mod, Shift.
pub open spec fn active_modifiers(flags: ModifierFlags) -> Seq<Modifier> {
    modifier_if(flags.alt, Modifier::Alt) + modifier_if(flags.ctrl, Modifier::Ctrl) + modifier_if(
        flags.logo,
        Modifier::Mod,
    ) + modifier_if(flags.shift, Modifier::Shift)
}

/// Converts the platform's modifier flags into the list of active modifiers.
///
/// Every flag is tested once, so no modifier occurs twice, and a modifier is
/// in the result exactly when its flag is set.
pub fn convert_modifiers(flags: ModifierFlags) -> (modifiers: Vec<Modifier>)
    ensures
        modifiers@ == active_modifiers(flags),
        modifiers@.no_duplicates(),
        forall|m: Modifier| modifiers@.contains(m) <==> flags.holds(m),
{
    let mut modifiers: Vec<Modifier> = Vec::new();
    if flags.alt {
        modifiers.push(Modifier::Alt);
    }
    if flags.ctrl {
        modifiers.push(Modifier::Ctrl);
    }
    if flags.logo {
        modifiers.push(Modifier::Mod);
    }
    if flags.shift {
        modifiers.push(Modifier::Shift);
    }
    proof {
        assert(modifiers@ =~= active_modifiers(flags));
        lemma_active_modifiers(flags);
    }
    modifiers
}

/// Whether `modifier` occurs in `modifiers`.
pub fn contains_modifier(modifiers: &Vec<Modifier>, modifier: Modifier) -> (found: bool)
    ensures
        found == modifiers@.contains(modifier),
{
    let mut i: usize = 0;
    while i < modifiers.len()
        invariant
            i <= modifiers.len(),
            forall|j: int| 0 <= j < i ==> modifiers@[j] != modifier,
        decreases modifiers.len() - i,
    {
        if modifiers[i] == modifier {
            return true;
        }
        i += 1;
    }
    false
}

/// The active modifiers hold no modifier twice, and hold exactly the
/// modifiers whose flag is set.
pub proof fn lemma_active_modifiers(flags: ModifierFlags)
    ensures
        active_modifiers(flags).no_duplicates(),
        forall|m: Modifier| active_modifiers(flags).contains(m) <==> flags.holds(m),
{
    let s = active_modifiers(flags);
    assert forall|m: Modifier| s.contains(m) <==> flags.holds(m) by {
        if flags.holds(m) {
            lemma_active_position(flags, m);
        }
    }
}

proof fn lemma_active_position(flags: ModifierFlags, m: Modifier)
    requires
        flags.holds(m),
    ensures
        exists|i: int| 0 <= i < active_modifiers(flags).len() && active_modifiers(flags)[i] == m,
{
    let s = active_modifiers(flags);
    let a: int = if flags.alt { 1 } else { 0 };
    let c: int = if flags.ctrl { 1 } else { 0 };
    let l: int = if flags.logo { 1 } else { 0 };
    let i: int = match m {
        Modifier::Alt => 0,
        Modifier::Ctrl => a,
        Modifier::Mod => a + c,
        Modifier::Shift => a + c + l,
    };
    assert(0 <= i < s.len() && s[i] == m);
}

} // verus!
