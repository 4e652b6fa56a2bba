//! Validated value types shared by the routes, the dispatcher and the
//! transport.

pub mod newsletter_issue;
pub mod subscriber_email;

pub use newsletter_issue::NewsletterIssue;
pub use subscriber_email::SubscriberEmail;
