//! Messages for the email client to deliver.

use crate::authentication::SecretText;
use crate::domain::SubscriberEmail;
use vstd::prelude::*;
use vstd::string::StringExecFns;

verus! {

/// A message ready to be handed to the email client.
#[derive(Debug)]
pub struct OutboundEmail {
    pub recipient: SubscriberEmail,
    pub subject: String,
    pub html_content: String,
    pub text_content: String,
}

/// What an [`OutboundEmail`] says, as mathematical values.
pub struct EmailView {
    pub recipient: Seq<char>,
    pub subject: Seq<char>,
    pub html_content: Seq<char>,
    pub text_content: Seq<char>,
}

impl View for OutboundEmail {
    type V = EmailView;

    open spec fn view(&self) -> EmailView {
        EmailView {
            recipient: self.recipient@,
            subject: self.subject@,
            html_content: self.html_content@,
            text_content: self.text_content@,
        }
    }
}

/// The address of the endpoint that takes messages, below the base address
/// of the email service.
pub open spec fn email_endpoint_of(base_url: Seq<char>) -> Seq<char> {
    base_url + "/email"@
}

pub fn email_endpoint(base_url: &str) -> (url: String)
    ensures
        url@ == email_endpoint_of(base_url@),
{
    let mut url = base_url.to_owned();
    url.append("/email");
    url
}

/// The header that carries the token of the email service.
pub const AUTHORIZATION_HEADER: &'static str = "X-Postmark-Server-Token";

/// The body of the request that asks the email service to deliver a
/// message.
#[derive(Debug)]
pub struct SendEmailRequest {
    pub from: String,
    pub to: String,
    pub subject: String,
    pub html_content: String,
    pub text_content: String,
}

/// What the client of the email service needs to know, but for the
/// connection, which the caller holds.
pub struct EmailClient {
    pub base_url: String,
    pub sender: SubscriberEmail,
    pub authorization_token: SecretText,
}

impl EmailClient {
    pub fn new(base_url: String, sender: SubscriberEmail, authorization_token: SecretText) -> (client:
        EmailClient)
        ensures
            client.base_url@ == base_url@,
            client.sender@ == sender@,
            client.authorization_token == authorization_token,
    {
        EmailClient { base_url, sender, authorization_token }
    }

    /// The address that requests go to.
    pub fn endpoint(&self) -> (url: String)
        ensures
            url@ == email_endpoint_of(self.base_url@),
    {
        email_endpoint(self.base_url.as_str())
    }

    /// The request that delivers `email`: it comes from the sender of this
    /// client and goes to the recipient of the message.
    pub fn send_email(&self, email: &OutboundEmail) -> (request: SendEmailRequest)
        ensures
            request.from@ == self.sender@,
            request.to@ == email.recipient@,
            request.subject@ == email.subject@,
            request.html_content@ == email.html_content@,
            request.text_content@ == email.text_content@,
    {
        SendEmailRequest {
            from: self.sender.as_ref().to_owned(),
            to: email.recipient.as_ref().to_owned(),
            subject: email.subject.clone(),
            html_content: email.html_content.clone(),
            text_content: email.text_content.clone(),
        }
    }
}

} // verus!
