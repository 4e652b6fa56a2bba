use crate::domain::NewsletterIssue;
use vstd::prelude::*;

verus! {

/// The body of a publishing request made over the API.
#[derive(Debug, PartialEq, Eq)]
pub struct BodyData {
    pub title: String,
    pub content: Content,
}

/// The two renderings of an issue.
#[derive(Debug, PartialEq, Eq)]
pub struct Content {
    pub html: String,
    pub text: String,
}

impl BodyData {
    /// The issue that the body describes, field by field.
    pub fn into_issue(self) -> (issue: NewsletterIssue)
        ensures
            issue.title@ == self.title@,
            issue.html_content@ == self.content.html@,
            issue.text_content@ == self.content.text@,
    {
        NewsletterIssue {
            title: self.title,
            html_content: self.content.html,
            text_content: self.content.text,
        }
    }
}

/// Why publishing an issue failed.
#[derive(Debug, PartialEq, Eq)]
pub enum PublishError {
    /// Something went wrong that the caller can do nothing about; the text
    /// says what.
    UnexpectedError(String),
}

impl PublishError {
    /// The HTTP status that reports the error: always 500.
    pub fn status_code(&self) -> (status: u16)
        ensures
            status == 500,
    {
        match self {
            PublishError::UnexpectedError(_) => 500,
        }
    }

    /// What went wrong, in words.
    pub fn to_string(&self) -> (text: String)
        ensures
            text@ == self->UnexpectedError_0@,
    {
        match self {
            PublishError::UnexpectedError(text) => text.clone(),
        }
    }
}

} // verus!
