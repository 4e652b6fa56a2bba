use crate::domain::NewsletterIssue;
use crate::idempotency::response::SavedResponse;
use crate::publish::{redirect, see_other, SEE_OTHER};
use vstd::prelude::*;
use vstd::string::*;

verus! {

/// The fields of the form that publishes an issue.
#[derive(Debug, PartialEq, Eq)]
pub struct FormData {
    pub title: String,
    pub text_content: String,
    pub html_content: String,
}

impl FormData {
    /// The issue that the form describes, field by field.
    pub fn into_issue(self) -> (issue: NewsletterIssue)
        ensures
            issue.title@ == self.title@,
            issue.html_content@ == self.html_content@,
            issue.text_content@ == self.text_content@,
    {
        NewsletterIssue {
            title: self.title,
            html_content: self.html_content,
            text_content: self.text_content,
        }
    }
}

/// Where the operator is sent after an issue was published.
pub const PUBLISHED_LOCATION: &'static str = "/admin/newsletters";

/// What the operator is told after an issue was published.
pub const PUBLISHED_NOTICE: &'static str = "The newsletter issue has been published!";

/// The response to a form whose issue was published: a redirect back to the
/// form.
pub fn published() -> (response: SavedResponse)
    ensures
        response@ == redirect(PUBLISHED_LOCATION@),
{
    see_other(PUBLISHED_LOCATION)
}

/// The notice to show with `response` on the next page: the news of the
/// publication with the redirect that follows it, whether it is given for
/// the first time or replayed, and none with any other response.
pub fn notice_for(response: &SavedResponse) -> (notice: Option<&'static str>)
    ensures
        notice == if response@.status_code == SEE_OTHER {
            Some(PUBLISHED_NOTICE)
        } else {
            None
        },
{
    if response.status_code == SEE_OTHER {
        Some(PUBLISHED_NOTICE)
    } else {
        None
    }
}

/// The notices shown above a form: one paragraph in italics per message, each
/// followed by a line break, in the order of the messages.
pub open spec fn notices(messages: Seq<Seq<char>>) -> Seq<char>
    decreases messages.len(),
{
    if messages.len() == 0 {
        Seq::empty()
    } else {
        notices(messages.drop_last()) + "<p><i>"@ + messages.last() + "</i></p>\n"@
    }
}

/// The texts of a list of messages.
pub open spec fn texts(messages: Seq<String>) -> Seq<Seq<char>> {
    Seq::new(messages.len(), |i: int| messages[i]@)
}

/// Renders [`notices`] for `messages`.
pub fn render_notices(messages: &Vec<String>) -> (html: String)
    ensures
        html@ == notices(texts(messages@)),
{
    let mut html = String::new();
    let mut i: usize = 0;
    while i < messages.len()
        invariant
            i <= messages.len(),
            html@ == notices(texts(messages@).take(i as int)),
        decreases messages.len() - i,
    {
        proof {
            let upto = texts(messages@).take(i + 1);
            assert(upto.drop_last() =~= texts(messages@).take(i as int));
            assert(upto.last() == messages[i as int]@);
        }
        html.append("<p><i>");
        html.append(messages[i].as_str());
        html.append("</i></p>\n");
        i += 1;
    }
    assert(texts(messages@).take(messages.len() as int) =~= texts(messages@));
    html
}

/// The page with the publishing form up to the notices.
pub const PUBLISH_FORM_HEAD: &'static str = r#"<!DOCTYPE html>
<html>
<head>
    <title>Send Newsletter Issue</title>
    <meta http-equiv="content-type" content="text/html; charset=utf-8">
</head>
<body>
    "#;

/// The page with the publishing form after the notices.
pub const PUBLISH_FORM_TAIL: &'static str = r#"
    <form action="/admin/newsletters" method="post">
      <label>
        Title
        <input type="text" placeholder="Enter newsletter issue title" name="title">
        <br>
      </label>
      <br>
      <label>
        Text Content
        <br>
        <textarea placeholder="Enter text content" name="text" rows="20" cols="50"></textarea>
        <br>
      </label>
      <br>
      <label>
        Html Content
        <br>
        <textarea placeholder="Enter html content" name="html" rows="20" cols="50"></textarea>
        <br>
      </label>
      <br>

      <button type="submit">Send</button>
    </form>

    <p><a href="/admin/dashboard">â€¹ Back</a></p>
</body>
</html>"#;

/// The page with the form that publishes an issue, with `messages` shown
/// above the form. The messages are put into the page as they are.
pub fn publish_newsletter_form(messages: &Vec<String>) -> (page: String)
    ensures
        page@ == PUBLISH_FORM_HEAD@ + notices(texts(messages@)) + PUBLISH_FORM_TAIL@,
{
    let notices = render_notices(messages);
    String::from_str(PUBLISH_FORM_HEAD).concat(notices.as_str()).concat(PUBLISH_FORM_TAIL)
}

} // verus!
