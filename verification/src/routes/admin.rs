//! The pages and forms of the signed-in operator.

pub mod dashboard;
pub mod newsletters;
pub mod password;

pub use dashboard::admin_dashboard;
pub use newsletters::{publish_newsletter_form, FormData};
pub use password::change_password_form;
