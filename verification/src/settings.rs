//! Custom positions remembered per placement mode: the value that is stored
//! and the key it is stored under.

use vstd::prelude::*;
use vstd::string::StringExecFns;

verus! {

/// File that holds the panel's settings.
pub const SETTINGS_FILE: &'static str = "settings.json";

/// What every custom-position key starts with.
pub const CUSTOM_POSITION_PREFIX: &'static str = "custom_position_";

/// A position the user chose for the panel.
#[derive(Clone, Copy, Debug, PartialEq, Eq, Structural)]
pub struct WindowPos {
    pub x: i32,
    pub y: i32,
}

impl WindowPos {
    /// The position as an `(x, y)` pair.
    pub fn coordinates(&self) -> (pair: (i32, i32))
        ensures
            pair == (self.x, self.y),
    {
        (self.x, self.y)
    }
}

/// The key for `mode`: the prefix followed by the mode's name, unchanged.
pub open spec fn custom_position_key_of(mode: Seq<char>) -> Seq<char> {
    CUSTOM_POSITION_PREFIX@ + mode
}

/// Builds the key under which the custom position of `mode` is stored.
pub fn custom_position_key(mode: &str) -> (key: String)
    ensures
        key@ == custom_position_key_of(mode@),
{
    String::from_str(CUSTOM_POSITION_PREFIX).concat(mode)
}

/// What a lookup reports for the stored value, if there was one.
pub fn stored_coordinates(stored: Option<WindowPos>) -> (found: Option<(i32, i32)>)
    ensures
        found == match stored {
            Some(position) => Some((position.x, position.y)),
            None => None,
        },
{
    match stored {
        Some(position) => Some(position.coordinates()),
        None => None,
    }
}

/// Modes with different names never share a key.
pub proof fn lemma_keys_are_distinct(first: Seq<char>, second: Seq<char>)
    requires
        first != second,
    ensures
        custom_position_key_of(first) != custom_position_key_of(second),
{
    let prefix = CUSTOM_POSITION_PREFIX@;
    let a = custom_position_key_of(first);
    let b = custom_position_key_of(second);
    if a == b {
        assert(first =~= a.subrange(prefix.len() as int, a.len() as int));
        assert(second =~= b.subrange(prefix.len() as int, b.len() as int));
    }
}

} // verus!
