//! The key-state tracker: the keys that are held down at the moment,
//! kept up to date from press and release events.

use crate::key::{contains_key, PhysicalKey};
use vstd::prelude::*;

verus! {

/// What happened to a key: it went down or it came up.
#[derive(Clone, Copy, Debug, PartialEq, Eq, Structural)]
pub enum KeyTransition {
    Pressed,
    Released,
}

/// The held keys after `key` is pressed: `key` is appended unless it is held
/// already.
pub open spec fn pressed(held: Seq<PhysicalKey>, key: PhysicalKey) -> Seq<PhysicalKey> {
    if held.contains(key) {
        held
    } else {
        held.push(key)
    }
}

/// The held keys after `key` is released: every occurrence of `key` is gone,
/// the other keys stay in their order.
pub open spec fn released(held: Seq<PhysicalKey>, key: PhysicalKey) -> Seq<PhysicalKey> {
    held.filter(|other: PhysicalKey| other != key)
}

/// The held keys after one transition of `key`.
pub open spec fn after_transition(
    held: Seq<PhysicalKey>,
    key: PhysicalKey,
    transition: KeyTransition,
) -> Seq<PhysicalKey> {
    match transition {
        KeyTransition::Pressed => pressed(held, key),
        KeyTransition::Released => released(held, key),
    }
}

/// The held keys after `key` went through `transitions`, one after another.
pub open spec fn after_transitions(
    held: Seq<PhysicalKey>,
    key: PhysicalKey,
    transitions: Seq<KeyTransition>,
) -> Seq<PhysicalKey>
    decreases transitions.len(),
{
    if transitions.len() == 0 {
        held
    } else {
        after_transition(
            after_transitions(held, key, transitions.drop_last()),
            key,
            transitions.last(),
        )
    }
}

/// The keys that are held down, in the order in which they went down.
#[derive(Debug)]
pub struct PersistentKeyState(pub Vec<PhysicalKey>);

impl View for PersistentKeyState {
    type V = Seq<PhysicalKey>;

    open spec fn view(&self) -> Seq<PhysicalKey> {
        self.0@
    }
}

impl PersistentKeyState {
    /// A tracker with no key held.
    pub fn new() -> (state: PersistentKeyState)
        ensures
            state@ == Seq::<PhysicalKey>::empty(),
    {
        PersistentKeyState(Vec::new())
    }

    /// Whether `key` is held.
    pub fn is_held(&self, key: PhysicalKey) -> (held: bool)
        ensures
            held == self@.contains(key),
    {
        contains_key(&self.0, key)
    }

    /// Records that `key` went down. A key that is held already is not
    /// recorded again, so repeated press events change nothing.
    pub fn on_press(&mut self, key: PhysicalKey)
        ensures
            final(self)@ == pressed(old(self)@, key),
            final(self)@.contains(key),
            old(self)@.no_duplicates() ==> final(self)@.no_duplicates(),
    {
        if !contains_key(&self.0, key) {
            self.0.push(key);
        }
        proof {
            lemma_pressed(old(self)@, key);
            assert(pressed(old(self)@, key).to_set().contains(key));
        }
    }

    /// Records that `key` came up: every occurrence of it is removed.
    pub fn on_release(&mut self, key: PhysicalKey)
        ensures
            final(self)@ == released(old(self)@, key),
            !final(self)@.contains(key),
            old(self)@.no_duplicates() ==> final(self)@.no_duplicates(),
    {
        let mut kept: Vec<PhysicalKey> = Vec::new();
        let mut i: usize = 0;
        while i < self.0.len()
            invariant
                i <= self.0.len(),
                self.0@ == old(self)@,
                kept@ == released(self.0@.take(i as int), key),
            decreases self.0.len() - i,
        {
            let held = self.0[i];
            proof {
                assert(self.0@.take(i + 1) =~= self.0@.take(i as int).push(held));
                lemma_released_push(self.0@.take(i as int), held, key);
            }
            if held != key {
                kept.push(held);
            }
            i += 1;
        }
        proof {
            assert(self.0@.take(self.0@.len() as int) =~= self.0@);
            lemma_released(old(self)@, key);
        }
        self.0 = kept;
    }

    /// Records one transition of `key`.
    pub fn update(&mut self, key: PhysicalKey, transition: KeyTransition)
        ensures
            final(self)@ == after_transition(old(self)@, key, transition),
            old(self)@.no_duplicates() ==> final(self)@.no_duplicates(),
    {
        match transition {
            KeyTransition::Pressed => self.on_press(key),
            KeyTransition::Released => self.on_release(key),
        }
    }

    /// Forgets every held key. For use when release events may have been
    /// missed, as on loss of focus.
    pub fn clear(&mut self)
        ensures
            final(self)@ == Seq::<PhysicalKey>::empty(),
    {
        self.0.clear();
    }
}

/// Releasing from a sequence with one more key: that key stays unless it is
/// the released one.
proof fn lemma_released_push(held: Seq<PhysicalKey>, last: PhysicalKey, key: PhysicalKey)
    ensures
        released(held.push(last), key) == if last != key {
            released(held, key).push(last)
        } else {
            released(held, key)
        },
{
    reveal(Seq::filter);
    assert(held.push(last).drop_last() =~= held);
}

/// After a press the key is held, every key that was held still is, nothing
/// else is, and no key is held twice if none was before.
pub proof fn lemma_pressed(held: Seq<PhysicalKey>, key: PhysicalKey)
    ensures
        pressed(held, key).to_set() == held.to_set().insert(key),
        held.no_duplicates() ==> pressed(held, key).no_duplicates(),
{
    held.lemma_push_to_set_commute(key);
}

/// After a release the key is not held, every other key is held exactly if
/// it was before, and no key is held twice if none was before.
pub proof fn lemma_released(held: Seq<PhysicalKey>, key: PhysicalKey)
    ensures
        released(held, key).to_set() == held.to_set().remove(key),
        !released(held, key).contains(key),
        held.no_duplicates() ==> released(held, key).no_duplicates(),
    decreases held.len(),
{
    if held.len() == 0 {
        reveal(Seq::filter);
    } else {
        let init = held.drop_last();
        let last = held.last();
        assert(held =~= init.push(last));
        lemma_released(init, key);
        lemma_released_push(init, last, key);
        init.lemma_push_to_set_commute(last);
        released(init, key).lemma_push_to_set_commute(last);
        if held.no_duplicates() {
            assert(init.no_duplicates());
            assert(!init.contains(last)) by {
                if init.contains(last) {
                    let i = init.index_of(last);
                    assert(held[i] == held[held.len() - 1]);
                }
            }
            assert(!released(init, key).to_set().contains(last));
        }
    }
}

/// Pressing a key that was just pressed changes nothing: two presses in a
/// row leave the tracker as one press does.
pub proof fn lemma_press_idempotent(held: Seq<PhysicalKey>, key: PhysicalKey)
    ensures
        pressed(pressed(held, key), key) == pressed(held, key),
{
    lemma_pressed(held, key);
    assert(pressed(held, key).to_set().contains(key));
}

/// Starting with no key held, after any run of presses and releases of one
/// key the tracker is empty if the run is empty or ends with a release, and
/// holds the key once if the run ends with a press. However often a press was
/// repeated, one release undoes them all.
pub proof fn lemma_same_key_transitions(key: PhysicalKey, transitions: Seq<KeyTransition>)
    ensures
        after_transitions(Seq::empty(), key, transitions) == if transitions.len() > 0
            && transitions.last() == KeyTransition::Pressed {
            seq![key]
        } else {
            Seq::<PhysicalKey>::empty()
        },
    decreases transitions.len(),
{
    let empty = Seq::<PhysicalKey>::empty();
    if transitions.len() > 0 {
        let init = transitions.drop_last();
        lemma_same_key_transitions(key, init);
        lemma_press_idempotent(empty, key);
        lemma_press_then_release(empty, key);
        lemma_released_without(empty, key);
        assert(pressed(empty, key) =~= seq![key]);
    }
}

/// A press followed by a release of the same key leaves a tracker that did
/// not hold the key as it was.
pub proof fn lemma_press_then_release(held: Seq<PhysicalKey>, key: PhysicalKey)
    requires
        !held.contains(key),
    ensures
        released(pressed(held, key), key) == held,
{
    lemma_released_push(held, key, key);
    lemma_released_without(held, key);
}

/// Releasing a key that is not held changes nothing.
pub proof fn lemma_released_without(held: Seq<PhysicalKey>, key: PhysicalKey)
    requires
        !held.contains(key),
    ensures
        released(held, key) == held,
    decreases held.len(),
{
    broadcast use vstd::seq_lib::lemma_seq_contains_after_push;

    if held.len() == 0 {
        reveal(Seq::filter);
    } else {
        let init = held.drop_last();
        assert(held =~= init.push(held.last()));
        lemma_released_without(init, key);
        lemma_released_push(init, held.last(), key);
    }
}

} // verus!
