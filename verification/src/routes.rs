//! What the HTTP routes decide and render, apart from the requests and
//! responses themselves.

pub mod admin;
pub mod newsletter;
pub mod subscriptions_confirm;

pub use admin::{admin_dashboard, change_password_form, publish_newsletter_form, FormData};
pub use newsletter::{BodyData, Content, PublishError};
pub use subscriptions_confirm::{ConfirmSubscriberError, Parameters};
