//! Compute half of the email client: the validated base URL of the
//! provider, and the exact request one send-one-email call carries. The
//! HTTP transport itself is I/O and lives outside this crate.

use vstd::prelude::*;
use vstd::string::StringExecFns;
use crate::domain::user_email::UserEmail;

verus! {

/// The base URL requests are posted to.
#[derive(Debug)]
pub struct ApplicationBaseUrl(String);

impl View for ApplicationBaseUrl {
    type V = Seq<char>;

    closed spec fn view(&self) -> Seq<char> {
        self.0@
    }
}

impl ApplicationBaseUrl {
    /// Validates a raw string into a base URL, rejecting only an empty
    /// string.
    pub fn parse(s: String) -> (r: Result<Self, String>)
        ensures
            s@.len() > 0 ==> (r matches Ok(url) && url@ == s@),
            s@.len() == 0 ==> (r matches Err(e) && e@ == "Url cannot be empty"@),
    {
        if s.as_str().is_empty() {
            Err("Url cannot be empty".to_owned())
        } else {
            Ok(ApplicationBaseUrl(s))
        }
    }

    /// The URL as a string slice.
    pub fn as_ref(&self) -> (r: &str)
        ensures
            r@ == self@,
    {
        self.0.as_str()
    }

    /// An exact copy of the URL.
    pub fn duplicate(&self) -> (r: ApplicationBaseUrl)
        ensures
            r@ == self@,
    {
        ApplicationBaseUrl(self.0.clone())
    }
}

/// The fields of one send-one-email call to the provider.
pub struct SendEmailRequest {
    pub from: String,
    pub to: String,
    pub subject: String,
    pub html_body: String,
    pub text_body: String,
    pub message_stream: String,
}

/// The mathematical value of a [`SendEmailRequest`].
#[verifier::ext_equal]
pub struct SendEmailRequestView {
    pub from: Seq<char>,
    pub to: Seq<char>,
    pub subject: Seq<char>,
    pub html_body: Seq<char>,
    pub text_body: Seq<char>,
    pub message_stream: Seq<char>,
}

impl View for SendEmailRequest {
    type V = SendEmailRequestView;

    open spec fn view(&self) -> SendEmailRequestView {
        SendEmailRequestView {
            from: self.from@,
            to: self.to@,
            subject: self.subject@,
            html_body: self.html_body@,
            text_body: self.text_body@,
            message_stream: self.message_stream@,
        }
    }
}

/// The mathematical value of an [`EmailClient`].
#[verifier::ext_equal]
pub struct EmailClientView {
    pub base_url: Seq<char>,
    pub sender: Seq<char>,
}

/// What the email client decides about a send: the endpoint, and the
/// request body fields.
pub struct EmailClient {
    base_url: ApplicationBaseUrl,
    sender: UserEmail,
}

impl View for EmailClient {
    type V = EmailClientView;

    closed spec fn view(&self) -> EmailClientView {
        EmailClientView { base_url: self.base_url@, sender: self.sender@ }
    }
}

impl EmailClient {
    /// A client that sends from the given validated address through the
    /// provider at the given base URL.
    pub fn new(base_url: ApplicationBaseUrl, sender: UserEmail) -> (r: EmailClient)
        ensures
            r@.base_url == base_url@,
            r@.sender == sender@,
    {
        EmailClient { base_url, sender }
    }

    /// The provider endpoint one send-one-email call is posted to.
    pub fn email_endpoint(&self) -> (r: String)
        ensures
            r@ == self@.base_url + "/email"@,
    {
        self.base_url.as_ref().to_owned().concat("/email")
    }

    /// The request body of one send-one-email call: from the configured
    /// sender, to the recipient, with the given subject and bodies, on the
    /// outbound message stream.
    pub fn build_request(
        &self,
        recipient: &str,
        subject: &str,
        html_content: &str,
        text_content: &str,
    ) -> (r: SendEmailRequest)
        ensures
            r@.from == self@.sender,
            r@.to == recipient@,
            r@.subject == subject@,
            r@.html_body == html_content@,
            r@.text_body == text_content@,
            r@.message_stream == "outbound"@,
    {
        SendEmailRequest {
            from: self.sender.as_ref().to_owned(),
            to: recipient.to_owned(),
            subject: subject.to_owned(),
            html_body: html_content.to_owned(),
            text_body: text_content.to_owned(),
            message_stream: "outbound".to_owned(),
        }
    }
}

} // verus!
