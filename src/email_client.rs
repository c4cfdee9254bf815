//! The outbound email delivery client: what one call to the delivery service
//! sends, and what its answer means.

use crate::domain::SubscriberEmail;
use crate::secret::SecretString;
use vstd::prelude::*;

verus! {

/// One recipient of an email, as the delivery service expects it.
#[derive(Debug)]
pub struct Recipient {
    pub email: String,
}

/// The JSON body of a send request; on the wire its fields are `FromEmail`,
/// `Recipients`, `Subject`, `Html-part` and `Text-part`.
#[derive(Debug)]
pub struct SendEmailRequest {
    pub from_email: String,
    pub recipients: Vec<Recipient>,
    pub subject: String,
    pub html_part: String,
    pub text_part: String,
}

/// A `POST` to the delivery service: where it goes, its `Authorization`
/// header, its body, and the deadline for the whole exchange.
pub struct OutboundEmail {
    pub url: String,
    pub authorization: SecretString,
    pub body: SendEmailRequest,
    pub timeout_milliseconds: u64,
}

/// Why a send failed.
#[derive(Debug, Clone, Copy, PartialEq, Eq, Structural)]
pub enum DeliveryError {
    /// No response came: the connection failed or the deadline passed.
    Transport,
    /// The service answered with this status, outside `200..=299`.
    ServerRejected(u16),
}

/// Settings of the client towards the delivery service.
pub struct EmailClient {
    base_url: String,
    sender: SubscriberEmail,
    authorization_token: SecretString,
    timeout_milliseconds: u64,
}

impl EmailClient {
    pub closed spec fn spec_base_url(&self) -> Seq<char> {
        self.base_url@
    }

    pub closed spec fn spec_sender(&self) -> Seq<char> {
        self.sender@
    }

    pub closed spec fn spec_authorization_token(&self) -> Seq<char> {
        self.authorization_token@
    }

    pub closed spec fn spec_timeout_milliseconds(&self) -> u64 {
        self.timeout_milliseconds
    }

    pub fn new(
        base_url: String,
        sender: SubscriberEmail,
        authorization_token: SecretString,
        timeout_milliseconds: u64,
    ) -> (r: EmailClient)
        ensures
            r.spec_base_url() == base_url@,
            r.spec_sender() == sender@,
            r.spec_authorization_token() == authorization_token@,
            r.spec_timeout_milliseconds() == timeout_milliseconds,
    {
        EmailClient { base_url, sender, authorization_token, timeout_milliseconds }
    }

    pub fn sender(&self) -> (r: &SubscriberEmail)
        ensures
            r@ == self.spec_sender(),
    {
        &self.sender
    }

    pub fn timeout_milliseconds(&self) -> (r: u64)
        ensures
            r == self.spec_timeout_milliseconds(),
    {
        self.timeout_milliseconds
    }

    /// The single request that sends `subject` with both bodies from the
    /// configured sender to `recipient`: a `POST` to `{base_url}/send`,
    /// authorized by `Basic {token}`, under the configured deadline.
    pub fn send_email_request(
        &self,
        recipient: &SubscriberEmail,
        subject: &str,
        html_content: &str,
        text_content: &str,
    ) -> (r: OutboundEmail)
        ensures
            r.url@ == self.spec_base_url() + "/send"@,
            r.authorization@ == "Basic "@ + self.spec_authorization_token(),
            r.body.from_email@ == self.spec_sender(),
            r.body.recipients@.len() == 1,
            r.body.recipients@[0].email@ == recipient@,
            r.body.subject@ == subject@,
            r.body.html_part@ == html_content@,
            r.body.text_part@ == text_content@,
            r.timeout_milliseconds == self.spec_timeout_milliseconds(),
    {
        let mut url = self.base_url.clone();
        url.append("/send");
        let mut authorization = String::from_str("Basic ");
        authorization.append(self.authorization_token.expose_secret().as_str());
        let mut recipients: Vec<Recipient> = Vec::new();
        recipients.push(Recipient { email: recipient.as_ref().to_owned() });
        let body = SendEmailRequest {
            from_email: self.sender.as_ref().to_owned(),
            recipients,
            subject: subject.to_owned(),
            html_part: html_content.to_owned(),
            text_part: text_content.to_owned(),
        };
        OutboundEmail {
            url,
            authorization: SecretString::new(authorization),
            body,
            timeout_milliseconds: self.timeout_milliseconds,
        }
    }
}

/// What a send amounts to, given the status that came back (`None` when no
/// response came within the deadline or the connection failed).
pub open spec fn spec_delivery_result(status: Option<u16>) -> Result<(), DeliveryError> {
    match status {
        None => Err(DeliveryError::Transport),
        Some(s) => if 200 <= s <= 299 {
            Ok(())
        } else {
            Err(DeliveryError::ServerRejected(s))
        },
    }
}

/// Only a `2xx` status is a success; any other status is a rejection, and no
/// status at all (a timeout, a refused connection) is a transport failure.
pub fn delivery_result(status: Option<u16>) -> (r: Result<(), DeliveryError>)
    ensures
        r == spec_delivery_result(status),
{
    match status {
        None => Err(DeliveryError::Transport),
        Some(s) => if 200 <= s && s <= 299 {
            Ok(())
        } else {
            Err(DeliveryError::ServerRejected(s))
        },
    }
}

} // verus!
