use vstd::prelude::*;
use vstd::string::*;

verus! {

/// The query of a confirmation link.
#[derive(Debug, PartialEq, Eq)]
pub struct Parameters {
    pub subscription_token: String,
}

/// Why a subscription could not be confirmed.
#[derive(Debug, PartialEq, Eq)]
pub enum ConfirmSubscriberError {
    /// No subscriber belongs to the token.
    UnauthorisedError,
    /// Something went wrong that the caller can do nothing about; the text
    /// says what.
    UnexpectedError(String),
}

impl ConfirmSubscriberError {
    /// The status that reports `self`.
    pub open spec fn status_code_spec(&self) -> u16 {
        match self {
            ConfirmSubscriberError::UnauthorisedError => 401,
            ConfirmSubscriberError::UnexpectedError(_) => 500,
        }
    }

    /// The HTTP status that reports the error: 401 when no subscriber
    /// belongs to the token, 500 otherwise.
    pub fn status_code(&self) -> (status: u16)
        ensures
            status == self.status_code_spec(),
    {
        match self {
            ConfirmSubscriberError::UnauthorisedError => 401,
            ConfirmSubscriberError::UnexpectedError(_) => 500,
        }
    }

    /// What went wrong, in words.
    pub fn to_string(&self) -> (text: String)
        ensures
            text@ == match *self {
                ConfirmSubscriberError::UnauthorisedError =>
                    "No subscriber with associated token"@,
                ConfirmSubscriberError::UnexpectedError(message) => message@,
            },
    {
        match self {
            ConfirmSubscriberError::UnauthorisedError => String::from_str(
                "No subscriber with associated token",
            ),
            ConfirmSubscriberError::UnexpectedError(message) => message.clone(),
        }
    }
}

/// The subscriber a confirmation goes on with, given what the lookup of the
/// token found: the subscriber it found, and `UnauthorisedError` when it
/// found none.
pub fn confirm(found: Option<u128>) -> (subscriber: Result<u128, ConfirmSubscriberError>)
    ensures
        match found {
            Some(id) => subscriber == Ok::<u128, ConfirmSubscriberError>(id),
            None => subscriber == Err::<u128, ConfirmSubscriberError>(
                ConfirmSubscriberError::UnauthorisedError,
            ),
        },
{
    match found {
        Some(id) => Ok(id),
        None => Err(ConfirmSubscriberError::UnauthorisedError),
    }
}

} // verus!
