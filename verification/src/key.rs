//! Physical keys: opaque, comparable identifiers of the keys of a keyboard.

use vstd::prelude::*;
use winit::event::VirtualKeyCode;

verus! {

/// A key of the keyboard, identified by the platform's code for it.
///
/// The engine only compares keys; it never interprets the code.
#[derive(Clone, Copy, Debug, PartialEq, Eq, Structural)]
pub struct PhysicalKey {
    /// The discriminant of the platform's `VirtualKeyCode` for this key.
    pub code: u32,
}

/// The key that a configuration token names: what
/// `serde_json::from_str::<winit::event::VirtualKeyCode>` decodes the token
/// to, as the code of that key, or `None` where decoding reports an error.
pub uninterp spec fn decoded_key(token: Seq<char>) -> Option<PhysicalKey>;

/// Decodes `token` with `serde_json::from_str` into a
/// `winit::event::VirtualKeyCode` and converts the key into its code.
///
/// Trusted: the result is a function of the token's text alone, named
/// `decoded_key`. Nothing is claimed about which tokens decode.
#[verifier::external_body]
fn decode_key(token: &str) -> (key: Option<PhysicalKey>)
    ensures
        key == decoded_key(token@),
{
    serde_json::from_str::<VirtualKeyCode>(token).ok().map(|key| PhysicalKey { code: key as u32 })
}

impl PhysicalKey {
    /// Decodes a configuration token into the key it names, if any.
    pub fn from_token(token: &str) -> (key: Option<PhysicalKey>)
        ensures
            key == decoded_key(token@),
    {
        decode_key(token)
    }
}

/// Whether `key` occurs in `keys`.
pub fn contains_key(keys: &Vec<PhysicalKey>, key: PhysicalKey) -> (found: bool)
    ensures
        found == keys@.contains(key),
{
    let mut i: usize = 0;
    while i < keys.len()
        invariant
            i <= keys.len(),
            forall|j: int| 0 <= j < i ==> keys@[j] != key,
        decreases keys.len() - i,
    {
        if keys[i] == key {
            return true;
        }
        i += 1;
    }
    false
}

} // verus!
