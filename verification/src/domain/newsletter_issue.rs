use vstd::prelude::*;

verus! {

/// One issue of the newsletter, as the caller supplied it.
#[derive(Debug, Clone, PartialEq, Eq)]
pub struct NewsletterIssue {
    pub title: String,
    pub html_content: String,
    pub text_content: String,
}

} // verus!
