use crate::routes::admin::newsletters::{notices, render_notices, texts};
use vstd::prelude::*;
use vstd::string::*;

verus! {

/// The page with the password form up to the notices.
pub const PASSWORD_FORM_HEAD: &'static str = r#"<!DOCTYPE html>
<html lang="en">
<head>
    <title>Change Password</title>
    <meta http-equiv="content-type" content="text/html; charset=utf-8">
</head>
<body>
    "#;

/// The page with the password form after the notices.
pub const PASSWORD_FORM_TAIL: &'static str = r#"
    <form action="/admin/password" method="post">
        <label>
            Current password
            <input
                type="password"
                placeholder="Enter current password"
                name="current_password"
            >
        </label>
        <br>
        <label>
            New password
            <input
                type="password"
                placeholder="Enter new password"
                name="new_password"
            >
        </label>
        <br>
        <label>
            Confirm new password
            <input
                type="password"
                placeholder="Type new password again"
                name="new_password_check"
            >
        </label>
    </form>
    <p><a href="/admin/dashboard">‹ Back</a></p>
</body>
</html>"#;

/// The page with the form that changes the password, with `messages` shown
/// above the form. The messages are put into the page as they are.
pub fn change_password_form(messages: &Vec<String>) -> (page: String)
    ensures
        page@ == PASSWORD_FORM_HEAD@ + notices(texts(messages@)) + PASSWORD_FORM_TAIL@,
{
    let notices = render_notices(messages);
    String::from_str(PASSWORD_FORM_HEAD).concat(notices.as_str()).concat(PASSWORD_FORM_TAIL)
}

} // verus!
