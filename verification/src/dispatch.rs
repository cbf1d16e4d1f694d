//! Dispatch: what one key event does to the tracker, and which action the
//! held input triggers afterwards.

use crate::key::PhysicalKey;
use crate::key_combo::{KeyCombo, KeyComboView};
use crate::key_state::{after_transition, KeyTransition, PersistentKeyState};
use crate::modifier::{convert_modifiers, lemma_active_modifiers, Modifier, ModifierFlags};
use crate::shortcuts::{
    action_rank, lemma_ordered_actions, ordered_actions, Action, KeyboardShortcuts,
};
use vstd::prelude::*;

verus! {

/// A key event as the windowing platform delivers it.
#[derive(Clone, Copy, Debug, PartialEq, Eq, Structural)]
pub struct KeyInput {
    /// The key that the event is about, where the platform could name it.
    pub key: Option<PhysicalKey>,
    /// Whether the key went down or came up.
    pub state: KeyTransition,
    /// The modifier flags at the time of the event.
    pub modifiers: ModifierFlags,
}

/// The held keys after the event `input`. An event without a key changes
/// nothing.
pub open spec fn held_after(held: Seq<PhysicalKey>, input: KeyInput) -> Seq<PhysicalKey> {
    match input.key {
        Some(key) => after_transition(held, key, input.state),
        None => held,
    }
}

/// The live combo: the modifiers whose flag is set and the keys that are
/// held.
pub open spec fn live_combo(held: Seq<PhysicalKey>, flags: ModifierFlags) -> KeyComboView {
    KeyComboView { modifiers: Set::new(|m: Modifier| flags.holds(m)), keys: held.to_set() }
}

/// Whether `found` is the outcome of trying the combos of `table` against
/// `live` in the order of their actions' ranks: the first action whose combo
/// `live` satisfies, or `None` where it satisfies no combo.
pub open spec fn is_first_match(
    table: KeyboardShortcuts,
    live: KeyComboView,
    found: Option<Action>,
) -> bool {
    match found {
        Some(action) => {
            &&& table.combo_view(action).satisfied_by(live)
            &&& forall|earlier: Action|
                action_rank(earlier) < action_rank(action) ==> !(#[trigger] table.combo_view(
                    earlier,
                )).satisfied_by(live)
        },
        None => forall|action: Action| !(#[trigger] table.combo_view(action)).satisfied_by(live),
    }
}

/// Tries the held input `live` against every combo of the table and gives
/// the first action whose combo it satisfies.
pub fn first_match(shortcuts: &KeyboardShortcuts, live: &KeyCombo) -> (found: Option<Action>)
    ensures
        is_first_match(*shortcuts, live@, found),
{
    let actions = Action::ordered();
    let mut i: usize = 0;
    while i < actions.len()
        invariant
            i <= actions.len(),
            actions@ == ordered_actions(),
            forall|j: int|
                0 <= j < i ==> !shortcuts.combo_view(#[trigger] actions@[j]).satisfied_by(live@),
        decreases actions.len() - i,
    {
        let action = actions[i];
        if shortcuts.combo(action).satisfied_by(live) {
            proof {
                lemma_ordered_actions();
            }
            return Some(action);
        }
        i += 1;
    }
    proof {
        lemma_ordered_actions();
    }
    None
}

/// Handles one key event: updates the tracker, builds the live combo from
/// the held keys and the event's modifier flags, and gives the action that
/// it triggers, if any.
///
/// A combo triggers when all that it requires is held; the first such action
/// in the order of the table wins.
pub fn keyboard_shortcuts(
    key_state: &mut PersistentKeyState,
    shortcuts: &KeyboardShortcuts,
    input: KeyInput,
) -> (action: Option<Action>)
    ensures
        final(key_state)@ == held_after(old(key_state)@, input),
        old(key_state)@.no_duplicates() ==> final(key_state)@.no_duplicates(),
        is_first_match(*shortcuts, live_combo(final(key_state)@, input.modifiers), action),
{
    match input.key {
        Some(key) => key_state.update(key, input.state),
        None => {},
    }
    let live = KeyCombo::new(convert_modifiers(input.modifiers), key_state.0.clone());
    proof {
        lemma_active_modifiers(input.modifiers);
        assert(live@ =~= live_combo(key_state@, input.modifiers));
    }
    first_match(shortcuts, &live)
}

} // verus!
