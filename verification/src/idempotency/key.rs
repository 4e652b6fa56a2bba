use vstd::prelude::*;
use vstd::std_specs::cmp::PartialEqSpecImpl;
use vstd::std_specs::convert::{FromSpecImpl, TryFromSpecImpl};
use vstd::string::*;
use vstd::utf8::{encode_utf8, is_ascii_chars, is_ascii_chars_encode_utf8};

verus! {

/// Exclusive upper bound on the length of a key, in bytes of its UTF-8 encoding.
pub const MAX_KEY_LENGTH: usize = 50;

/// Length of a key as this module measures it: the number of bytes of its
/// UTF-8 encoding.
pub open spec fn key_length(text: Seq<char>) -> nat {
    encode_utf8(text).len()
}

/// A key is acceptable when it is not empty and shorter than
/// [`MAX_KEY_LENGTH`] bytes.
pub open spec fn is_valid_key(text: Seq<char>) -> bool {
    text.len() > 0 && key_length(text) < MAX_KEY_LENGTH
}

/// Why a string was refused as an idempotency key.
#[derive(Debug, Clone, Copy, PartialEq, Eq, Structural)]
pub enum InvalidIdempotencyKey {
    /// The string was empty.
    Empty,
    /// The string was [`MAX_KEY_LENGTH`] bytes long or longer.
    TooLong,
}

/// The refusal that `text` earns, if any.
pub open spec fn key_refusal(text: Seq<char>) -> Option<InvalidIdempotencyKey> {
    if text.len() == 0 {
        Some(InvalidIdempotencyKey::Empty)
    } else if key_length(text) >= MAX_KEY_LENGTH {
        Some(InvalidIdempotencyKey::TooLong)
    } else {
        None
    }
}

impl InvalidIdempotencyKey {
    /// The sentence shown to the caller.
    pub open spec fn message_spec(self) -> Seq<char> {
        match self {
            InvalidIdempotencyKey::Empty => "The idempotency key cannot be empty"@,
            InvalidIdempotencyKey::TooLong =>
                "The idempotency key must be shorter than 50 characters"@,
        }
    }

    /// The sentence shown to the caller.
    pub fn message(&self) -> (text: String)
        ensures
            text@ == self.message_spec(),
    {
        match self {
            InvalidIdempotencyKey::Empty => String::from_str("The idempotency key cannot be empty"),
            InvalidIdempotencyKey::TooLong => String::from_str(
                "The idempotency key must be shorter than 50 characters",
            ),
        }
    }
}

/// A caller-chosen token naming one logical action across retries.
///
/// Never empty and always shorter than [`MAX_KEY_LENGTH`] bytes.
#[derive(Debug)]
pub struct IdempotencyKey(String);

impl View for IdempotencyKey {
    type V = Seq<char>;

    closed spec fn view(&self) -> Seq<char> {
        self.0@
    }
}

impl IdempotencyKey {
    #[verifier::type_invariant]
    closed spec fn well_formed(&self) -> bool {
        is_valid_key(self.0@)
    }

    /// The key's text, which is always a valid key.
    pub fn as_ref(&self) -> (text: &str)
        ensures
            text@ == self@,
            is_valid_key(text@),
    {
        proof {
            use_type_invariant(self);
        }
        self.0.as_str()
    }

    /// An independent copy of the key.
    pub fn duplicate(&self) -> (copy: IdempotencyKey)
        ensures
            copy@ == self@,
    {
        proof {
            use_type_invariant(self);
        }
        IdempotencyKey(self.0.clone())
    }
}

impl PartialEq for IdempotencyKey {
    fn eq(&self, other: &Self) -> (same: bool) {
        self.0 == other.0
    }
}

impl PartialEqSpecImpl for IdempotencyKey {
    open spec fn obeys_eq_spec() -> bool {
        true
    }

    open spec fn eq_spec(&self, other: &Self) -> bool {
        self@ == other@
    }
}

impl Eq for IdempotencyKey {

}

impl TryFrom<String> for IdempotencyKey {
    type Error = InvalidIdempotencyKey;

    /// Accepts exactly the strings for which [`is_valid_key`] holds and keeps
    /// their text unchanged; every other string is refused with the reason
    /// that [`key_refusal`] gives. In particular, text of fifty characters
    /// or more is refused, and ASCII text of one to forty-nine characters is
    /// accepted.
    fn try_from(s: String) -> (made: Result<Self, Self::Error>)
        ensures
            made is Ok <==> is_valid_key(s@),
            made matches Ok(key) ==> key@ == s@,
            made matches Err(why) ==> key_refusal(s@) == Some(why),
            s@.len() >= MAX_KEY_LENGTH ==> made is Err,
            is_ascii_chars(s@) && 1 <= s@.len() < MAX_KEY_LENGTH ==> made is Ok,
    {
        proof {
            law_key_length_bounds(s@);
            if is_ascii_chars(s@) {
                law_ascii_key_validity(s@);
            }
        }
        if s.as_str().is_empty() {
            return Err(InvalidIdempotencyKey::Empty);
        }
        if s.as_str().as_bytes().len() >= MAX_KEY_LENGTH {
            return Err(InvalidIdempotencyKey::TooLong);
        }
        Ok(IdempotencyKey(s))
    }
}

impl TryFromSpecImpl<String> for IdempotencyKey {
    open spec fn obeys_try_from_spec() -> bool {
        true
    }

    closed spec fn try_from_spec(s: String) -> Result<Self, InvalidIdempotencyKey> {
        match key_refusal(s@) {
            Some(why) => Err(why),
            None => Ok(IdempotencyKey(s)),
        }
    }
}

impl From<IdempotencyKey> for String {
    /// Gives back the key's text.
    fn from(k: IdempotencyKey) -> (text: String)
        ensures
            text@ == k@,
    {
        k.0
    }
}

impl FromSpecImpl<IdempotencyKey> for String {
    open spec fn obeys_from_spec() -> bool {
        true
    }

    closed spec fn from_spec(k: IdempotencyKey) -> String {
        k.0
    }
}

/// A key is never shorter in bytes than in characters, and never more than
/// four times as long.
pub proof fn law_key_length_bounds(text: Seq<char>)
    ensures
        text.len() <= key_length(text) <= 4 * text.len(),
    decreases text.len(),
{
    if text.len() > 0 {
        law_key_length_bounds(text.drop_first());
    }
}

/// Text of fifty characters or more is never a valid key, whatever its
/// characters are.
pub proof fn law_long_text_is_refused(text: Seq<char>)
    requires
        text.len() >= MAX_KEY_LENGTH,
    ensures
        !is_valid_key(text),
        key_refusal(text) == Some(InvalidIdempotencyKey::TooLong),
{
    law_key_length_bounds(text);
}

/// Text made of ASCII characters is a valid key exactly when it has at least
/// one character and fewer than fifty.
pub proof fn law_ascii_key_validity(text: Seq<char>)
    requires
        is_ascii_chars(text),
    ensures
        key_length(text) == text.len(),
        is_valid_key(text) <==> 1 <= text.len() < MAX_KEY_LENGTH,
{
    is_ascii_chars_encode_utf8(text);
}

} // verus!
