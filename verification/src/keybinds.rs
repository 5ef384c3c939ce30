//! Key-binding descriptions shown in the footer. The front end lays them
//! out; the width arithmetic it sorts and wraps by is defined here.

use vstd::prelude::*;

use vstd::string::StringExecFns;

verus! {

/// One key binding: the key, what it does, and its display priority (lower
/// is shown first).
pub struct KeybindInfo {
    pub key: String,
    pub description: String,
    pub priority: u8,
}

impl KeybindInfo {
    /// A key binding with the given key text, description and priority.
    pub fn new(key: &str, description: &str, priority: u8) -> (r: KeybindInfo)
        ensures
            r.key@ == key@,
            r.description@ == description@,
            r.priority == priority,
    {
        KeybindInfo {
            key: String::from_str(key),
            description: String::from_str(description),
            priority,
        }
    }

    /// The width this binding occupies in the footer: the key, a space, the
    /// description, and the three-character separator, measured in bytes.
    pub fn display_width(&self) -> (r: usize)
        requires
            vstd::utf8::encode_utf8(self.key@).len() + vstd::utf8::encode_utf8(
                self.description@,
            ).len() + 4 <= usize::MAX,
        ensures
            r == vstd::utf8::encode_utf8(self.key@).len() + vstd::utf8::encode_utf8(
                self.description@,
            ).len() + 4,
    {
        self.key.as_str().len() + 1 + self.description.as_str().len() + 3
    }
}

} // verus!
