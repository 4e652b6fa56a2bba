use crate::domain::{NewsletterIssue, SubscriberEmail};
use std::time::Duration;
use vstd::prelude::*;
use vstd::string::*;

verus! {

/// The address of the provider's send-mail endpoint below `base_url`.
pub open spec fn send_url(base_url: Seq<char>) -> Seq<char> {
    base_url + "/v3/mail/send"@
}

/// The value of the `Authorization` header for a bearer credential.
pub open spec fn bearer_value(token: Seq<char>) -> Seq<char> {
    "Bearer "@ + token
}

/// Builds the `Authorization` header value for `token`.
pub fn authorization_header(token: &str) -> (value: String)
    ensures
        value@ == bearer_value(token@),
{
    String::from_str("Bearer ").concat(token)
}

/// The two parts of a message body, named as the provider names them.
#[derive(Debug, Clone, Copy, PartialEq, Eq, Structural)]
pub enum EmailContentType {
    /// `text/plain`
    Text,
    /// `text/html`
    Html,
}

impl EmailContentType {
    /// The name of the part on the wire.
    pub open spec fn wire_name_spec(self) -> Seq<char> {
        match self {
            EmailContentType::Text => "text/plain"@,
            EmailContentType::Html => "text/html"@,
        }
    }

    /// The name of the part on the wire.
    pub fn wire_name(&self) -> (name: &'static str)
        ensures
            name@ == self.wire_name_spec(),
    {
        match self {
            EmailContentType::Text => "text/plain",
            EmailContentType::Html => "text/html",
        }
    }
}

/// One address in the payload: `{ "email": .. }`.
#[derive(Debug, PartialEq, Eq)]
pub struct Email {
    pub email: String,
}

/// One group of recipients: `{ "to": [..] }`.
#[derive(Debug, PartialEq, Eq)]
pub struct Personalization {
    pub to: Vec<Email>,
}

/// One part of the message: `{ "type": .., "value": .. }`.
#[derive(Debug, PartialEq, Eq)]
pub struct EmailContent {
    pub value: String,
    pub content_type: EmailContentType,
}

/// The body of one send-mail request.
#[derive(Debug, PartialEq, Eq)]
pub struct SendEmailRequest {
    pub from: Email,
    pub personalizations: Vec<Personalization>,
    pub subject: String,
    pub content: Vec<EmailContent>,
}

/// What a request body says, as plain text values.
pub struct SendEmailRequestView {
    pub from: Seq<char>,
    pub personalizations: Seq<Seq<Seq<char>>>,
    pub subject: Seq<char>,
    pub content: Seq<(EmailContentType, Seq<char>)>,
}

impl View for Personalization {
    type V = Seq<Seq<char>>;

    open spec fn view(&self) -> Seq<Seq<char>> {
        Seq::new(self.to.len() as nat, |i: int| self.to[i].email@)
    }
}

impl View for SendEmailRequest {
    type V = SendEmailRequestView;

    open spec fn view(&self) -> SendEmailRequestView {
        SendEmailRequestView {
            from: self.from.email@,
            personalizations: Seq::new(
                self.personalizations.len() as nat,
                |i: int| self.personalizations[i]@,
            ),
            subject: self.subject@,
            content: Seq::new(
                self.content.len() as nat,
                |i: int| (self.content[i].content_type, self.content[i].value@),
            ),
        }
    }
}

/// The body that sends one message from `sender` to the single recipient
/// `recipient`: the HTML part first, then the plain-text part.
pub open spec fn message_body(
    sender: Seq<char>,
    recipient: Seq<char>,
    subject: Seq<char>,
    html: Seq<char>,
    text: Seq<char>,
) -> SendEmailRequestView {
    SendEmailRequestView {
        from: sender,
        personalizations: seq![seq![recipient]],
        subject,
        content: seq![(EmailContentType::Html, html), (EmailContentType::Text, text)],
    }
}

/// Everything the transport needs for one POST.
///
/// It holds the credential, and therefore has no `Debug`.
#[derive(PartialEq, Eq)]
pub struct OutboundRequest {
    /// Where to POST.
    pub url: String,
    /// The value of the `Authorization` header.
    pub authorization: String,
    /// How long to wait for the provider.
    pub timeout: Duration,
    /// The JSON body, before serialisation.
    pub body: SendEmailRequest,
}

/// Why a message could not be handed to the provider.
#[derive(Debug, Clone, Copy, PartialEq, Eq, Structural)]
pub enum SendError {
    /// The provider did not answer within the configured time.
    Timeout,
    /// The provider answered with a status outside 200..=299.
    Rejected(u16),
    /// The request never got an answer for another reason.
    NetworkError,
}

/// What came back from one POST.
#[derive(Debug, Clone, Copy, PartialEq, Eq, Structural)]
pub enum TransportReply {
    /// The provider answered with this status.
    Status(u16),
    /// The request ran into its timeout.
    TimedOut,
    /// The request failed below HTTP: name resolution, connection, TLS.
    Failed,
}

/// Whether `status` counts as delivered.
pub open spec fn is_success_status(status: u16) -> bool {
    200 <= status <= 299
}

/// The outcome of a send, given what came back.
pub open spec fn send_outcome(reply: TransportReply) -> Result<(), SendError> {
    match reply {
        TransportReply::Status(status) => if is_success_status(status) {
            Ok(())
        } else {
            Err(SendError::Rejected(status))
        },
        TransportReply::TimedOut => Err(SendError::Timeout),
        TransportReply::Failed => Err(SendError::NetworkError),
    }
}

/// Classifies what came back from one POST.
pub fn classify(reply: TransportReply) -> (outcome: Result<(), SendError>)
    ensures
        outcome == send_outcome(reply),
{
    match reply {
        TransportReply::Status(status) => {
            if 200 <= status && status <= 299 {
                Ok(())
            } else {
                Err(SendError::Rejected(status))
            }
        },
        TransportReply::TimedOut => Err(SendError::Timeout),
        TransportReply::Failed => Err(SendError::NetworkError),
    }
}

/// The settings of the outbound transport: where the provider is, who sends,
/// the bearer credential, and how long one request may take.
///
/// The credential is private and the type has no `Debug`, so that it cannot
/// end up in a log line by accident.
pub struct EmailClient {
    base_url: String,
    sender: SubscriberEmail,
    authorisation_token: String,
    timeout: Duration,
}

impl EmailClient {
    /// The provider's base address.
    pub closed spec fn base_url_spec(&self) -> Seq<char> {
        self.base_url@
    }

    /// The sender's address.
    pub closed spec fn sender_spec(&self) -> Seq<char> {
        self.sender@
    }

    /// The bearer credential.
    pub closed spec fn token_spec(&self) -> Seq<char> {
        self.authorisation_token@
    }

    /// The time allowed for one request.
    pub closed spec fn timeout_spec(&self) -> Duration {
        self.timeout
    }

    pub fn new(
        base_url: String,
        sender: SubscriberEmail,
        authorisation_token: String,
        timeout: Duration,
    ) -> (client: Self)
        ensures
            client.base_url_spec() == base_url@,
            client.sender_spec() == sender@,
            client.token_spec() == authorisation_token@,
            client.timeout_spec() == timeout,
    {
        EmailClient { base_url, sender, authorisation_token, timeout }
    }

    /// The time allowed for one request.
    pub fn timeout(&self) -> (t: Duration)
        ensures
            t == self.timeout_spec(),
    {
        self.timeout
    }

    /// The address every message is POSTed to.
    pub fn url(&self) -> (url: String)
        ensures
            url@ == send_url(self.base_url_spec()),
    {
        self.base_url.clone().concat("/v3/mail/send")
    }

    /// The body of the request that sends one message to `recipient`.
    pub fn body(
        &self,
        recipient: &SubscriberEmail,
        subject: &str,
        html_content: &str,
        text_content: &str,
    ) -> (body: SendEmailRequest)
        ensures
            body@ == message_body(
                self.sender_spec(),
                recipient@,
                subject@,
                html_content@,
                text_content@,
            ),
    {
        let mut to: Vec<Email> = Vec::new();
        to.push(Email { email: recipient.to_string() });
        let mut personalizations: Vec<Personalization> = Vec::new();
        personalizations.push(Personalization { to });
        let mut content: Vec<EmailContent> = Vec::new();
        content.push(
            EmailContent {
                value: String::from_str(html_content),
                content_type: EmailContentType::Html,
            },
        );
        content.push(
            EmailContent {
                value: String::from_str(text_content),
                content_type: EmailContentType::Text,
            },
        );
        let body = SendEmailRequest {
            from: Email { email: self.sender.to_string() },
            personalizations,
            subject: String::from_str(subject),
            content,
        };
        proof {
            let want = message_body(
                self.sender_spec(),
                recipient@,
                subject@,
                html_content@,
                text_content@,
            );
            assert(body.personalizations[0]@ =~= seq![recipient@]);
            assert(body@.personalizations =~= want.personalizations);
            assert(body@.content =~= want.content);
        }
        body
    }

    /// Everything needed to POST one message to `recipient`: the endpoint
    /// below the base address, the bearer `Authorization` value of the
    /// credential, the timeout, and the body.
    pub fn request(
        &self,
        recipient: &SubscriberEmail,
        subject: &str,
        html_content: &str,
        text_content: &str,
    ) -> (request: OutboundRequest)
        ensures
            request.url@ == send_url(self.base_url_spec()),
            request.authorization@ == bearer_value(self.token_spec()),
            request.timeout == self.timeout_spec(),
            request.body@ == message_body(
                self.sender_spec(),
                recipient@,
                subject@,
                html_content@,
                text_content@,
            ),
    {
        OutboundRequest {
            url: self.url(),
            authorization: authorization_header(self.authorisation_token.as_str()),
            timeout: self.timeout,
            body: self.body(recipient, subject, html_content, text_content),
        }
    }

    /// Everything needed to POST `issue` to `recipient`: the request with the
    /// issue's title as the subject and its two renderings as the parts.
    pub fn request_for_issue(&self, recipient: &SubscriberEmail, issue: &NewsletterIssue) -> (request:
        OutboundRequest)
        ensures
            request.url@ == send_url(self.base_url_spec()),
            request.authorization@ == bearer_value(self.token_spec()),
            request.timeout == self.timeout_spec(),
            request.body@ == message_body(
                self.sender_spec(),
                recipient@,
                issue.title@,
                issue.html_content@,
                issue.text_content@,
            ),
    {
        self.request(
            recipient,
            issue.title.as_str(),
            issue.html_content.as_str(),
            issue.text_content.as_str(),
        )
    }
}

} // verus!
