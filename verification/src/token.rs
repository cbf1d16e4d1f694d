//! The tokens of a shortcut's configuration entry: each names a modifier or
//! a key, and a list of them makes a key combination.

use crate::document::ConfigNode;
use crate::key::{decoded_key, PhysicalKey};
use crate::key_combo::{KeyCombo, KeyComboView};
use crate::modifier::Modifier;
use vstd::prelude::*;

verus! {

/// What a configuration token stands for.
#[derive(Clone, Copy, Debug, PartialEq, Eq, Structural)]
pub enum Token {
    Modifier(Modifier),
    Key(PhysicalKey),
}

/// The modifier that `name` names: one of `Alt`, `Shift`, `Ctrl` and `Mod`.
pub open spec fn modifier_named(name: Seq<char>) -> Option<Modifier> {
    if name == "Alt"@ {
        Some(Modifier::Alt)
    } else if name == "Shift"@ {
        Some(Modifier::Shift)
    } else if name == "Ctrl"@ {
        Some(Modifier::Ctrl)
    } else if name == "Mod"@ {
        Some(Modifier::Mod)
    } else {
        None
    }
}

/// What the token `text` stands for: a modifier if it is a modifier's name,
/// else the key that it decodes to, else nothing.
pub open spec fn token_of(text: Seq<char>) -> Option<Token> {
    match modifier_named(text) {
        Some(modifier) => Some(Token::Modifier(modifier)),
        None => match decoded_key(text) {
            Some(key) => Some(Token::Key(key)),
            None => None,
        },
    }
}

/// What an entry's value stands for. A value that is no string stands for
/// nothing.
pub open spec fn value_token(value: Option<String>) -> Option<Token> {
    match value {
        Some(text) => token_of(text@),
        None => None,
    }
}

/// What each of `values` stands for, in order.
pub open spec fn value_tokens(values: Seq<Option<String>>) -> Seq<Option<Token>> {
    Seq::new(values.len(), |i: int| value_token(values[i]))
}

/// The tokens of `tokens` in order, if every one of them is there; `None`
/// as soon as one is missing.
pub open spec fn collected(tokens: Seq<Option<Token>>) -> Option<Seq<Token>> {
    if forall|i: int| 0 <= i < tokens.len() ==> (#[trigger] tokens[i]) is Some {
        Some(Seq::new(tokens.len(), |i: int| tokens[i].unwrap()))
    } else {
        None
    }
}

/// The tokens that `values` stand for, in order, if every one of them stands
/// for a modifier or a key; `None` as soon as one does not.
pub open spec fn classified(values: Seq<Option<String>>) -> Option<Seq<Token>> {
    collected(value_tokens(values))
}

/// The combo that `tokens` make: the modifiers among them and the keys among
/// them.
pub open spec fn tokens_combo(tokens: Seq<Token>) -> KeyComboView {
    KeyComboView {
        modifiers: Set::new(|modifier: Modifier| tokens.contains(Token::Modifier(modifier))),
        keys: Set::new(|key: PhysicalKey| tokens.contains(Token::Key(key))),
    }
}

/// The combo that an entry with the values `values` configures, if every
/// value is recognised.
pub open spec fn combo_of(values: Seq<Option<String>>) -> Option<KeyComboView> {
    match classified(values) {
        Some(tokens) => Some(tokens_combo(tokens)),
        None => None,
    }
}

/// Whether two strings hold the same text.
fn same_text(a: &str, b: &str) -> (same: bool)
    ensures
        same == (a@ == b@),
{
    a.to_owned() == b.to_owned()
}

/// The modifier that `name` names, if it is a modifier's name.
pub fn modifier_from_name(name: &str) -> (modifier: Option<Modifier>)
    ensures
        modifier == modifier_named(name@),
{
    if same_text(name, "Alt") {
        Some(Modifier::Alt)
    } else if same_text(name, "Shift") {
        Some(Modifier::Shift)
    } else if same_text(name, "Ctrl") {
        Some(Modifier::Ctrl)
    } else if same_text(name, "Mod") {
        Some(Modifier::Mod)
    } else {
        None
    }
}

/// Classifies a token: a modifier's name is that modifier; any other token
/// is decoded as a key.
pub fn classify_token(text: &str) -> (token: Option<Token>)
    ensures
        token == token_of(text@),
{
    match modifier_from_name(text) {
        Some(modifier) => Some(Token::Modifier(modifier)),
        None => match PhysicalKey::from_token(text) {
            Some(key) => Some(Token::Key(key)),
            None => None,
        },
    }
}

/// Collects classified tokens into a list. Fails as a whole if one of them
/// is missing: one token that was not recognised spoils the entry.
pub fn collect_tokens(tokens: &Vec<Option<Token>>) -> (all: Option<Vec<Token>>)
    ensures
        match all {
            Some(all) => collected(tokens@) == Some(all@),
            None => collected(tokens@) is None,
        },
        all is Some <==> forall|i: int| 0 <= i < tokens@.len() ==> (#[trigger] tokens@[i]) is Some,
{
    let mut all: Vec<Token> = Vec::new();
    let mut i: usize = 0;
    while i < tokens.len()
        invariant
            i <= tokens.len(),
            all@.len() == i,
            forall|j: int| 0 <= j < i ==> tokens@[j] == Some(#[trigger] all@[j]),
        decreases tokens.len() - i,
    {
        match tokens[i] {
            Some(token) => all.push(token),
            None => {
                return None;
            },
        }
        i += 1;
    }
    proof {
        assert forall|j: int| 0 <= j < tokens@.len() implies (#[trigger] tokens@[j]) is Some by {
            assert(tokens@[j] == Some(all@[j]));
        }
        assert(all@ =~= Seq::new(tokens@.len(), |j: int| tokens@[j].unwrap()));
    }
    Some(all)
}

/// Classifies the values of an entry. Fails as a whole if one value is not a
/// string, or is a string that names neither a modifier nor a key.
pub fn classify_values(values: &Vec<Option<String>>) -> (tokens: Option<Vec<Token>>)
    ensures
        match tokens {
            Some(tokens) => classified(values@) == Some(tokens@),
            None => classified(values@) is None,
        },
{
    let mut tokens: Vec<Option<Token>> = Vec::new();
    let mut i: usize = 0;
    while i < values.len()
        invariant
            i <= values.len(),
            tokens@.len() == i,
            forall|j: int| 0 <= j < i ==> #[trigger] tokens@[j] == value_token(values@[j]),
        decreases values.len() - i,
    {
        let token = match &values[i] {
            Some(text) => classify_token(text.as_str()),
            None => None,
        };
        tokens.push(token);
        i += 1;
    }
    assert(tokens@ =~= value_tokens(values@));
    collect_tokens(&tokens)
}

/// Builds the combo that `tokens` make: modifiers to the modifier set, keys
/// to the key set.
pub fn combo_from_tokens(tokens: &Vec<Token>) -> (combo: KeyCombo)
    ensures
        combo@ == tokens_combo(tokens@),
{
    let mut modifiers: Vec<Modifier> = Vec::new();
    let mut keys: Vec<PhysicalKey> = Vec::new();
    let mut i: usize = 0;
    while i < tokens.len()
        invariant
            i <= tokens.len(),
            forall|m: Modifier|
                modifiers@.contains(m) <==> tokens@.take(i as int).contains(Token::Modifier(m)),
            forall|k: PhysicalKey| keys@.contains(k) <==> tokens@.take(i as int).contains(Token::Key(k)),
        decreases tokens.len() - i,
    {
        proof {
            broadcast use vstd::seq_lib::lemma_seq_contains_after_push;

            assert(tokens@.take(i + 1) =~= tokens@.take(i as int).push(tokens@[i as int]));
        }
        match tokens[i] {
            Token::Modifier(modifier) => modifiers.push(modifier),
            Token::Key(key) => keys.push(key),
        }
        i += 1;
    }
    let combo = KeyCombo::new(modifiers, keys);
    proof {
        assert(tokens@.take(tokens@.len() as int) =~= tokens@);
        assert(combo@ =~= tokens_combo(tokens@));
    }
    combo
}

/// Whether `value` is the name of `modifier`.
pub open spec fn names_modifier(value: Option<String>, modifier: Modifier) -> bool {
    value matches Some(text) && modifier_named(text@) == Some(modifier)
}

/// Whether `value` is no modifier's name and decodes to `key`.
pub open spec fn names_key(value: Option<String>, key: PhysicalKey) -> bool {
    value matches Some(text) && modifier_named(text@) is None && decoded_key(text@) == Some(key)
}

/// A combo reflects the values it was read from, modifiers apart from keys:
/// it holds a modifier exactly when one of the values is that modifier's
/// name, and a key exactly when one of the values is no modifier's name and
/// decodes to that key.
pub proof fn lemma_combo_reflects_values(values: Seq<Option<String>>, combo: KeyComboView)
    requires
        combo_of(values) == Some(combo),
    ensures
        forall|m: Modifier|
            combo.modifiers.contains(m) <==> exists|i: int|
                0 <= i < values.len() && #[trigger] names_modifier(values[i], m),
        forall|k: PhysicalKey|
            combo.keys.contains(k) <==> exists|i: int|
                0 <= i < values.len() && #[trigger] names_key(values[i], k),
{
    let tokens = classified(values)->0;
    assert forall|m: Modifier|
        combo.modifiers.contains(m) <==> exists|i: int|
            0 <= i < values.len() && #[trigger] names_modifier(values[i], m) by {
        if combo.modifiers.contains(m) {
            let i = choose|i: int| 0 <= i < tokens.len() && tokens[i] == Token::Modifier(m);
            assert(names_modifier(values[i], m));
        }
        if exists|i: int| 0 <= i < values.len() && #[trigger] names_modifier(values[i], m) {
            let i = choose|i: int| 0 <= i < values.len() && #[trigger] names_modifier(values[i], m);
            assert(tokens[i] == Token::Modifier(m));
        }
    }
    assert forall|k: PhysicalKey|
        combo.keys.contains(k) <==> exists|i: int|
            0 <= i < values.len() && #[trigger] names_key(values[i], k) by {
        if combo.keys.contains(k) {
            let i = choose|i: int| 0 <= i < tokens.len() && tokens[i] == Token::Key(k);
            assert(names_key(values[i], k));
        }
        if exists|i: int| 0 <= i < values.len() && #[trigger] names_key(values[i], k) {
            let i = choose|i: int| 0 <= i < values.len() && #[trigger] names_key(values[i], k);
            assert(tokens[i] == Token::Key(k));
        }
    }
}

/// One value that is not recognised makes the parse of the whole entry fail,
/// and nothing else does.
pub proof fn lemma_unrecognised_value_fails(values: Seq<Option<String>>)
    ensures
        combo_of(values) is None <==> exists|i: int|
            0 <= i < values.len() && (#[trigger] value_token(values[i])) is None,
{
    let tokens = value_tokens(values);
    if combo_of(values) is None {
        let i = choose|i: int| 0 <= i < tokens.len() && !((#[trigger] tokens[i]) is Some);
        assert(value_token(values[i]) is None);
    }
    if exists|i: int| 0 <= i < values.len() && (#[trigger] value_token(values[i])) is None {
        let i = choose|i: int| 0 <= i < values.len() && (#[trigger] value_token(values[i])) is None;
        assert(tokens[i] is None);
    }
}

/// Parses the entry of one action into the combo that it configures.
///
/// Each value of the node is classified as a modifier's name or else as a
/// key. One value that is neither makes the whole parse fail.
pub fn parse_key_combo(node: &ConfigNode) -> (combo: Option<KeyCombo>)
    ensures
        match combo {
            Some(combo) => combo_of(node.values@) == Some(combo@),
            None => combo_of(node.values@) is None,
        },
{
    match classify_values(&node.values) {
        Some(tokens) => Some(combo_from_tokens(&tokens)),
        None => None,
    }
}

} // verus!
