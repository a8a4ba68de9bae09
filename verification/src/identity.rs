//! Identities: validated account references that serve as storage keys.

use vstd::prelude::*;
use vstd::utf8::{encode_utf8, is_ascii_chars, is_ascii_chars_encode_utf8};

verus! {

/// The longest identity, in bytes of its UTF-8 form, that can stand inside a
/// composite storage key: each inner part of such a key is stored behind its
/// length in two bytes.
pub const MAX_IDENTITY_BYTES: usize = 0xFFFF;

/// Whether `text` is short enough to be a part of a storage key.
pub open spec fn fits_in_key(text: Seq<char>) -> bool {
    encode_utf8(text).len() <= MAX_IDENTITY_BYTES
}

/// A text of at most 65535 characters of ASCII fits in a storage key: each
/// of them takes one byte.
pub proof fn law_short_ascii_fits(text: Seq<char>)
    requires
        is_ascii_chars(text),
        text.len() <= MAX_IDENTITY_BYTES,
    ensures
        fits_in_key(text),
{
    is_ascii_chars_encode_utf8(text);
}

/// Strict lexicographic order on byte strings, a proper prefix coming first.
pub open spec fn bytes_lt(a: Seq<u8>, b: Seq<u8>) -> bool
    decreases a.len(),
{
    if b.len() == 0 {
        false
    } else if a.len() == 0 {
        true
    } else if a[0] != b[0] {
        a[0] < b[0]
    } else {
        bytes_lt(a.drop_first(), b.drop_first())
    }
}

/// The order of identities: that of their UTF-8 bytes, which is the order in
/// which the store walks its keys.
pub open spec fn identity_lt(a: Seq<char>, b: Seq<char>) -> bool {
    bytes_lt(encode_utf8(a), encode_utf8(b))
}

/// An account reference that the host has validated and that fits in a
/// storage key.
#[derive(Debug, PartialEq, Eq)]
pub struct Identity {
    text: String,
}

impl View for Identity {
    type V = Seq<char>;

    closed spec fn view(&self) -> Seq<char> {
        self.text@
    }
}

impl Identity {
    #[verifier::type_invariant]
    spec fn bounded(self) -> bool {
        fits_in_key(self.text@)
    }

    /// Takes `text` as an identity, unless it is too long for a storage key.
    pub fn new(text: String) -> (r: Option<Identity>)
        ensures
            r is Some <==> fits_in_key(text@),
            r matches Some(id) ==> id@ == text@,
    {
        if text.as_str().as_bytes().len() <= MAX_IDENTITY_BYTES {
            Some(Identity { text })
        } else {
            None
        }
    }

    /// The identity's text.
    pub fn as_string(&self) -> (s: &String)
        ensures
            s@ == self@,
            fits_in_key(s@),
    {
        proof {
            use_type_invariant(self);
        }
        &self.text
    }

    /// The identity's text, owned.
    pub fn into_string(self) -> (s: String)
        ensures
            s@ == self@,
            fits_in_key(s@),
    {
        proof {
            use_type_invariant(&self);
        }
        self.text
    }
}

impl Clone for Identity {
    fn clone(&self) -> (r: Self)
        ensures
            r@ == self@,
    {
        proof {
            use_type_invariant(self);
        }
        Identity { text: self.text.clone() }
    }
}

} // verus!
