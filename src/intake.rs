//! Taking in a subscription: validate, store as pending, send the
//! confirmation email.

use crate::domain::{
    valid_subscriber_email, valid_subscriber_name, NewSubscriber, SubscriberEmail,
    SubscriptionRequest,
};
use crate::email_client::{DeliveryError, EmailClient, OutboundEmail};
use crate::subscription::{new_subscription, SubscriptionRecord, SubscriptionStatus};
use vstd::prelude::*;

verus! {

/// What the intake asks its driver to do next.
pub enum SubscribeAction {
    /// Insert this record; then report whether it was stored, with the
    /// confirmation token issued for it.
    Persist(SubscriptionRecord),
    /// Send this confirmation email; then report the outcome.
    SendConfirmation(OutboundEmail),
    /// Answer the request with this status.
    Respond(u16),
}

pub const CONFIRMATION_SUBJECT: &'static str = "Welcome!";

/// The link that confirms the subscription holding `token`.
pub open spec fn confirmation_link(base_url: Seq<char>, token: Seq<char>) -> Seq<char> {
    base_url + "/subscriptions/confirm?subscription_token="@ + token
}

pub open spec fn confirmation_html(link: Seq<char>) -> Seq<char> {
    "Welcome to our newsletter!<br />Click <a href=\""@ + link
        + "\">here</a> to confirm your subscription."@
}

pub open spec fn confirmation_text(link: Seq<char>) -> Seq<char> {
    "Welcome to our newsletter!\nVisit "@ + link + " to confirm your subscription."@
}

/// `e` is the confirmation email for `recipient`, sent through `client`,
/// whose two bodies carry the same link.
pub open spec fn is_confirmation_email(
    e: OutboundEmail,
    client: EmailClient,
    recipient: Seq<char>,
    link: Seq<char>,
) -> bool {
    &&& e.url@ == client.spec_base_url() + "/send"@
    &&& e.authorization@ == "Basic "@ + client.spec_authorization_token()
    &&& e.body.from_email@ == client.spec_sender()
    &&& e.body.recipients@.len() == 1
    &&& e.body.recipients@[0].email@ == recipient
    &&& e.body.subject@ == CONFIRMATION_SUBJECT@
    &&& e.body.html_part@ == confirmation_html(link)
    &&& e.body.text_part@ == confirmation_text(link)
    &&& e.timeout_milliseconds == client.spec_timeout_milliseconds()
}

/// First step: a request whose name and email both validate becomes a pending
/// record to insert; any other is answered `400` and nothing is stored.
pub fn begin_subscription(request: SubscriptionRequest) -> (r: SubscribeAction)
    ensures
        r is Persist <==> valid_subscriber_name(request.name@) && valid_subscriber_email(
            request.email@,
        ),
        r matches SubscribeAction::Persist(rec) ==> rec.email@ == request.email@ && rec.name@
            == request.name@ && rec.status == SubscriptionStatus::PendingConfirmation,
        !(r is Persist) ==> r == SubscribeAction::Respond(400),
{
    match NewSubscriber::try_from(request) {
        Ok(new_subscriber) => SubscribeAction::Persist(new_subscription(new_subscriber)),
        Err(_) => SubscribeAction::Respond(400),
    }
}

/// Second step: once the record is stored and `token` issued for it, the
/// confirmation email goes to the new subscriber. If storing failed the
/// answer is `500`; this covers an email that is already subscribed, which
/// storage refuses by its unique constraint.
pub fn after_persist(
    client: &EmailClient,
    base_url: &str,
    recipient: &SubscriberEmail,
    persisted: Result<String, String>,
) -> (r: SubscribeAction)
    ensures
        persisted is Err ==> r == SubscribeAction::Respond(500),
        persisted matches Ok(token) ==> r matches SubscribeAction::SendConfirmation(e)
            && is_confirmation_email(e, *client, recipient@, confirmation_link(base_url@, token@)),
{
    let token = match persisted {
        Ok(token) => token,
        Err(_) => {
            return SubscribeAction::Respond(500);
        },
    };
    let mut link = base_url.to_owned();
    link.append("/subscriptions/confirm?subscription_token=");
    link.append(token.as_str());
    let mut html = String::from_str("Welcome to our newsletter!<br />Click <a href=\"");
    html.append(link.as_str());
    html.append("\">here</a> to confirm your subscription.");
    let mut text = String::from_str("Welcome to our newsletter!\nVisit ");
    text.append(link.as_str());
    text.append(" to confirm your subscription.");
    SubscribeAction::SendConfirmation(
        client.send_email_request(recipient, CONFIRMATION_SUBJECT, html.as_str(), text.as_str()),
    )
}

/// Last step. The stored record stays whatever happens to the email: `200`
/// once it went out, `500` when it did not, so that the caller knows that the
/// confirmation has to be sent again.
pub fn after_confirmation(outcome: Result<(), DeliveryError>) -> (r: SubscribeAction)
    ensures
        outcome is Ok ==> r == SubscribeAction::Respond(200),
        outcome is Err ==> r == SubscribeAction::Respond(500),
{
    match outcome {
        Ok(()) => SubscribeAction::Respond(200),
        Err(_) => SubscribeAction::Respond(500),
    }
}

} // verus!
