//! A secret held in its usable form but rendered only as a fixed mask.

use vstd::prelude::*;

verus! {

/// The fixed placeholder that every textual rendering of a secret shows.
pub open spec fn mask_text() -> Seq<char> {
    "********"@
}

/// A secret credential. The stored plaintext is reachable only through
/// `plaintext` (for persistence and use); `masked` is the rendering for
/// logs and display and always yields the fixed mask.
#[derive(Clone, PartialEq, Eq)]
pub struct MaskedString {
    value: String,
}

impl MaskedString {
    /// The plaintext the secret holds, as a mathematical value.
    pub closed spec fn plain(&self) -> Seq<char> {
        self.value@
    }

    /// Wraps a plaintext secret.
    pub fn from_str(s: &str) -> (r: MaskedString)
        ensures
            r.plain() == s@,
    {
        MaskedString { value: String::from_str(s) }
    }

    /// Wraps an owned plaintext secret.
    pub fn new(value: String) -> (r: MaskedString)
        ensures
            r.plain() == value@,
    {
        MaskedString { value }
    }

    /// The explicit accessor: yields the plaintext.
    pub fn plaintext(&self) -> (r: &String)
        ensures
            r@ == self.plain(),
    {
        &self.value
    }

    /// The display rendering: always the fixed mask, never the plaintext.
    pub fn masked(&self) -> (r: String)
        ensures
            r@ == mask_text(),
    {
        String::from_str("********")
    }
}

} // verus!
