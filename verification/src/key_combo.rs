//! Key combinations: a set of modifiers together with a set of keys, and the
//! containment tests that decide whether held input satisfies a shortcut.

use crate::key::{contains_key, PhysicalKey};
use crate::modifier::{contains_modifier, Modifier};
use vstd::prelude::*;

verus! {

/// The mathematical value of a [`KeyCombo`]: two sets.
#[verifier::ext_equal]
pub struct KeyComboView {
    pub modifiers: Set<Modifier>,
    pub keys: Set<PhysicalKey>,
}

impl KeyComboView {
    /// Whether `live`, the held input, satisfies this required combo: each
    /// modifier and each key that this combo requires is held. Further held
    /// modifiers or keys do not matter.
    pub open spec fn satisfied_by(self, live: KeyComboView) -> bool {
        self.modifiers.subset_of(live.modifiers) && self.keys.subset_of(live.keys)
    }
}

/// A set of modifiers and a set of keys: either what a shortcut requires or
/// what is held at the moment.
///
/// Neither list holds an entry twice.
#[derive(Debug)]
pub struct KeyCombo {
    modifiers: Vec<Modifier>,
    keys: Vec<PhysicalKey>,
}

impl View for KeyCombo {
    type V = KeyComboView;

    closed spec fn view(&self) -> KeyComboView {
        KeyComboView { modifiers: self.modifiers@.to_set(), keys: self.keys@.to_set() }
    }
}

/// The modifiers of `modifiers`, each once.
fn distinct_modifiers(modifiers: &Vec<Modifier>) -> (distinct: Vec<Modifier>)
    ensures
        distinct@.no_duplicates(),
        distinct@.to_set() == modifiers@.to_set(),
{
    let mut distinct: Vec<Modifier> = Vec::new();
    let mut i: usize = 0;
    while i < modifiers.len()
        invariant
            i <= modifiers.len(),
            distinct@.no_duplicates(),
            distinct@.to_set() == modifiers@.take(i as int).to_set(),
        decreases modifiers.len() - i,
    {
        let modifier = modifiers[i];
        proof {
            assert(modifiers@.take(i + 1) =~= modifiers@.take(i as int).push(modifier));
            modifiers@.take(i as int).lemma_push_to_set_commute(modifier);
            distinct@.lemma_push_to_set_commute(modifier);
        }
        if !contains_modifier(&distinct, modifier) {
            distinct.push(modifier);
        }
        i += 1;
    }
    assert(modifiers@.take(i as int) =~= modifiers@);
    distinct
}

/// The keys of `keys`, each once.
fn distinct_keys(keys: &Vec<PhysicalKey>) -> (distinct: Vec<PhysicalKey>)
    ensures
        distinct@.no_duplicates(),
        distinct@.to_set() == keys@.to_set(),
{
    let mut distinct: Vec<PhysicalKey> = Vec::new();
    let mut i: usize = 0;
    while i < keys.len()
        invariant
            i <= keys.len(),
            distinct@.no_duplicates(),
            distinct@.to_set() == keys@.take(i as int).to_set(),
        decreases keys.len() - i,
    {
        let key = keys[i];
        proof {
            assert(keys@.take(i + 1) =~= keys@.take(i as int).push(key));
            keys@.take(i as int).lemma_push_to_set_commute(key);
            distinct@.lemma_push_to_set_commute(key);
        }
        if !contains_key(&distinct, key) {
            distinct.push(key);
        }
        i += 1;
    }
    assert(keys@.take(i as int) =~= keys@);
    distinct
}

/// Whether every modifier of `inner` occurs in `outer`.
fn modifiers_within(inner: &Vec<Modifier>, outer: &Vec<Modifier>) -> (within: bool)
    ensures
        within == inner@.to_set().subset_of(outer@.to_set()),
{
    let mut i: usize = 0;
    while i < inner.len()
        invariant
            i <= inner.len(),
            forall|j: int| 0 <= j < i ==> outer@.contains(inner@[j]),
        decreases inner.len() - i,
    {
        if !contains_modifier(outer, inner[i]) {
            assert(inner@.to_set().contains(inner@[i as int]));
            return false;
        }
        i += 1;
    }
    true
}

/// Whether every key of `inner` occurs in `outer`.
fn keys_within(inner: &Vec<PhysicalKey>, outer: &Vec<PhysicalKey>) -> (within: bool)
    ensures
        within == inner@.to_set().subset_of(outer@.to_set()),
{
    let mut i: usize = 0;
    while i < inner.len()
        invariant
            i <= inner.len(),
            forall|j: int| 0 <= j < i ==> outer@.contains(inner@[j]),
        decreases inner.len() - i,
    {
        if !contains_key(outer, inner[i]) {
            assert(inner@.to_set().contains(inner@[i as int]));
            return false;
        }
        i += 1;
    }
    true
}

impl KeyCombo {
    #[verifier::type_invariant]
    spec fn well_formed(self) -> bool {
        self.modifiers@.no_duplicates() && self.keys@.no_duplicates()
    }

    /// The combo of the given modifiers and keys. An entry that is listed
    /// more than once counts once.
    pub fn new(modifiers: Vec<Modifier>, keys: Vec<PhysicalKey>) -> (combo: KeyCombo)
        ensures
            combo@.modifiers == modifiers@.to_set(),
            combo@.keys == keys@.to_set(),
    {
        KeyCombo { modifiers: distinct_modifiers(&modifiers), keys: distinct_keys(&keys) }
    }

    /// The modifiers of this combo, each once.
    pub fn modifiers(&self) -> (modifiers: &Vec<Modifier>)
        ensures
            modifiers@.no_duplicates(),
            modifiers@.to_set() == self@.modifiers,
    {
        proof {
            use_type_invariant(self);
        }
        &self.modifiers
    }

    /// The keys of this combo, each once.
    pub fn keys(&self) -> (keys: &Vec<PhysicalKey>)
        ensures
            keys@.no_duplicates(),
            keys@.to_set() == self@.keys,
    {
        proof {
            use_type_invariant(self);
        }
        &self.keys
    }

    /// Whether this combo, taken as a requirement, is met while `modifiers`
    /// and `keys` are held: every modifier and every key of the combo is among
    /// them. What else is held does not matter.
    pub fn matches(&self, modifiers: &Vec<Modifier>, keys: &Vec<PhysicalKey>) -> (matched: bool)
        ensures
            matched == (self@.modifiers.subset_of(modifiers@.to_set()) && self@.keys.subset_of(
                keys@.to_set(),
            )),
    {
        modifiers_within(&self.modifiers, modifiers) && keys_within(&self.keys, keys)
    }

    /// Whether the held input `live` satisfies this required combo: the held
    /// modifiers and keys are a superset of the required ones.
    pub fn satisfied_by(&self, live: &KeyCombo) -> (satisfied: bool)
        ensures
            satisfied == self@.satisfied_by(live@),
    {
        self.matches(&live.modifiers, &live.keys)
    }
}

/// A combo that requires no modifier and no key is satisfied by every held
/// input, since the empty set is contained in every set.
pub proof fn lemma_empty_combo_always_satisfied(required: KeyComboView, live: KeyComboView)
    requires
        required.modifiers == Set::<Modifier>::empty(),
        required.keys == Set::<PhysicalKey>::empty(),
    ensures
        required.satisfied_by(live),
{
}

/// A combo that requires at least one key is not satisfied while no key is
/// held, whatever modifiers are held.
pub proof fn lemma_no_held_key_satisfies_no_keyed_combo(
    required: KeyComboView,
    live: KeyComboView,
    key: PhysicalKey,
)
    requires
        required.keys.contains(key),
        live.keys == Set::<PhysicalKey>::empty(),
    ensures
        !required.satisfied_by(live),
{
}

/// Holding more never undoes a match: input that holds all of what an input
/// holds that satisfies a combo satisfies that combo too.
pub proof fn lemma_more_held_still_satisfies(
    required: KeyComboView,
    live: KeyComboView,
    more: KeyComboView,
)
    requires
        required.satisfied_by(live),
        live.modifiers.subset_of(more.modifiers),
        live.keys.subset_of(more.keys),
    ensures
        required.satisfied_by(more),
{
}

/// Held input satisfies a combo exactly when it holds each required modifier
/// and each required key; what else is held makes no difference.
pub proof fn lemma_satisfied_iff_all_held(required: KeyComboView, live: KeyComboView)
    ensures
        required.satisfied_by(live) <==> (forall|m: Modifier|
            required.modifiers.contains(m) ==> live.modifiers.contains(m)) && (forall|
            k: PhysicalKey,
        | required.keys.contains(k) ==> live.keys.contains(k)),
{
}

} // verus!
