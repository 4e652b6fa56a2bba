use vstd::prelude::*;
use vstd::std_specs::cmp::PartialEqSpecImpl;
use vstd::string::*;

verus! {

/// Whether `validator::validate_email` accepts `text` as an email address.
///
/// The grammar is the one that HTML gives for a valid e-mail address, with
/// internationalised domains admitted; this library does not restate it.
pub uninterp spec fn email_is_valid(text: Seq<char>) -> bool;

/// Trusted: calls `validator::validate_email`.
///
/// The outcome is the grammar's verdict on the text. The grammar accepts no
/// empty text, no text without an `@`, and no text whose part before the
/// `@` is empty; nothing else about the grammar is assumed.
#[verifier::external_body]
fn validate_email(text: &str) -> (accepted: bool)
    ensures
        accepted == email_is_valid(text@),
        accepted ==> text@.len() > 0 && text@.contains('@') && text@[0] != '@',
{
    validator::validate_email(text)
}

/// The sentence with which `text` is refused as a subscriber's address.
pub open spec fn rejection_message(text: Seq<char>) -> Seq<char> {
    text + " is not a valid subscriber email"@
}

/// Words the refusal of `text` as a subscriber's address.
pub fn rejection(text: &str) -> (why: String)
    ensures
        why@ == rejection_message(text@),
{
    String::from_str(text).concat(" is not a valid subscriber email")
}

/// An email address that passed validation.
#[derive(Debug)]
pub struct SubscriberEmail(String);

impl View for SubscriberEmail {
    type V = Seq<char>;

    closed spec fn view(&self) -> Seq<char> {
        self.0@
    }
}

impl SubscriberEmail {
    #[verifier::type_invariant]
    closed spec fn well_formed(&self) -> bool {
        email_is_valid(self.0@)
    }

    /// Validates `s` as an email address and keeps it verbatim.
    ///
    /// Succeeds exactly when the address grammar accepts `s`; otherwise the
    /// error is [`rejection_message`] of `s`. Empty text, text without an
    /// `@` and text that starts with the `@` are always refused.
    pub fn parse(s: String) -> (parsed: Result<SubscriberEmail, String>)
        ensures
            parsed is Ok <==> email_is_valid(s@),
            parsed matches Ok(email) ==> email@ == s@,
            parsed matches Err(why) ==> why@ == rejection_message(s@),
            s@.len() == 0 || !s@.contains('@') || s@[0] == '@' ==> parsed is Err,
    {
        if validate_email(s.as_str()) {
            Ok(SubscriberEmail(s))
        } else {
            Err(rejection(s.as_str()))
        }
    }

    /// The address as text, which the grammar accepts.
    pub fn as_ref(&self) -> (text: &str)
        ensures
            text@ == self@,
            email_is_valid(text@),
    {
        proof {
            use_type_invariant(self);
        }
        self.0.as_str()
    }

    /// The address as an owned string, verbatim.
    pub fn to_string(&self) -> (text: String)
        ensures
            text@ == self@,
    {
        self.0.clone()
    }
}

impl Clone for SubscriberEmail {
    fn clone(&self) -> (copy: Self)
        ensures
            copy@ == self@,
    {
        proof {
            use_type_invariant(self);
        }
        SubscriberEmail(self.0.clone())
    }
}

impl PartialEq for SubscriberEmail {
    fn eq(&self, other: &Self) -> (same: bool) {
        self.0 == other.0
    }
}

impl PartialEqSpecImpl for SubscriberEmail {
    open spec fn obeys_eq_spec() -> bool {
        true
    }

    open spec fn eq_spec(&self, other: &Self) -> bool {
        self@ == other@
    }
}

impl Eq for SubscriberEmail {

}

} // verus!
