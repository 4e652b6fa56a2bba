use vstd::prelude::*;
use vstd::string::*;

verus! {

/// The dashboard page up to the operator's name.
pub const DASHBOARD_HEAD: &'static str = r#"<!DOCTYPE html>
<html lang="en">
<head>
    <title>Admin Dashboard</title>
    <meta http-equiv="content-type" content="text/html; charset=utf-8">
</head>
<body>
    <p>Welcome "#;

/// The dashboard page after the operator's name.
pub const DASHBOARD_TAIL: &'static str = r#"</p>
    <p>Available actions:</p>
    <ol>
        <li><a href="/admin/newsletters">Send a Newsletter Issue</a></li>
        <li><a href="/admin/password">Change Password</a></li>
        <li>
            <form name="logoutForm" action="/admin/logout" method="post">
                <input type="submit" value="Logout">
            </form>
        </li>
    </ol>
</body>
</html>"#;

/// The dashboard page that greets `username`. The name is put into the page
/// as it is.
pub fn admin_dashboard(username: &str) -> (page: String)
    ensures
        page@ == DASHBOARD_HEAD@ + username@ + DASHBOARD_TAIL@,
{
    String::from_str(DASHBOARD_HEAD).concat(username).concat(DASHBOARD_TAIL)
}

} // verus!
