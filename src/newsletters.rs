//! Publishing a newsletter issue: authenticating the caller and fanning the
//! issue out to every confirmed subscriber.

use crate::domain::{valid_subscriber_email, SubscriberEmail};
use crate::email_client::DeliveryError;
use crate::secret::SecretString;
use crate::subscription::{
    confirmed_emails, row_view, rows_view, text_equals, StoredSubscription, SubscriptionStatus,
};
use vstd::prelude::*;
use vstd::utf8::{decode_utf8, valid_utf8};

verus! {

/// Why a request was refused as unauthenticated. The variants stay apart for
/// the logs; every one of them gets the same response.
#[derive(Debug, Clone, Copy, PartialEq, Eq, Structural)]
pub enum AuthError {
    /// No `Authorization` header.
    MissingHeader,
    /// The header holds a byte other than a tab or visible ASCII.
    HeaderNotVisibleAscii,
    /// The header does not start with `Basic `.
    NotBasicScheme,
    /// What follows `Basic ` is not standard, padded base64.
    InvalidBase64,
    /// The decoded credentials are not UTF-8.
    InvalidUtf8,
    /// The decoded credentials hold no `:`.
    MissingPassword,
    /// The credential store did not accept the username and password.
    InvalidCredentials,
}

/// A username and password taken from a `Basic` authorization header.
pub struct Credentials {
    pub username: String,
    pub password: SecretString,
}

/// Standard base64 with padding, decoded.
pub uninterp spec fn base64_decoded(input: Seq<u8>) -> Option<Seq<u8>>;

/// Relies on `base64::decode_config` with `base64::STANDARD`: the bytes that
/// the standard, padded alphabet encodes, or an error. It panics when the
/// input length plus 3 overflows.
#[verifier::external_body]
fn decode_base64(input: &[u8]) -> (r: Option<Vec<u8>>)
    requires
        input@.len() + 3 <= usize::MAX,
    ensures
        r is Some <==> base64_decoded(input@) is Some,
        r matches Some(v) ==> base64_decoded(input@) == Some(v@),
{
    base64::decode_config(input, base64::STANDARD).ok()
}

/// Relies on `String::from_utf8`: `Ok` exactly for valid UTF-8, holding the
/// characters the bytes encode.
#[verifier::external_body]
fn string_from_utf8(bytes: Vec<u8>) -> (r: Option<String>)
    ensures
        r is Some <==> valid_utf8(bytes@),
        r matches Some(s) ==> s@ == decode_utf8(bytes@),
{
    String::from_utf8(bytes).ok()
}

/// The bytes that `http::HeaderValue::to_str` accepts.
pub open spec fn is_visible_ascii(b: u8) -> bool {
    b == 9 || (32 <= b && b < 127)
}

/// `Basic ` in ASCII.
pub open spec fn basic_scheme_prefix() -> Seq<u8> {
    seq![66u8, 97u8, 115u8, 105u8, 99u8, 32u8]
}

pub open spec fn has_basic_prefix(h: Seq<u8>) -> bool {
    h.len() >= 6 && h.subrange(0, 6) == basic_scheme_prefix()
}

/// `k` is the position of the first `:` of `t`.
pub open spec fn is_first_colon(t: Seq<char>, k: int) -> bool {
    &&& 0 <= k < t.len()
    &&& t[k] == ':'
    &&& forall|j: int| 0 <= j < k ==> #[trigger] t[j] != ':'
}

pub open spec fn has_colon(t: Seq<char>) -> bool {
    exists|k: int| 0 <= k < t.len() && #[trigger] t[k] == ':'
}

/// The text of decoded credentials split at its first `:`.
pub open spec fn split_credentials(t: Seq<char>) -> Result<(Seq<char>, Seq<char>), AuthError> {
    if has_colon(t) {
        let k = choose|k: int| is_first_colon(t, k);
        Ok((t.subrange(0, k), t.subrange(k + 1, t.len() as int)))
    } else {
        Err(AuthError::MissingPassword)
    }
}

/// Decoded `Basic` credentials: UTF-8 text split at its first `:`.
pub open spec fn decoded_credentials(bytes: Seq<u8>) -> Result<(Seq<char>, Seq<char>), AuthError> {
    if !valid_utf8(bytes) {
        Err(AuthError::InvalidUtf8)
    } else {
        split_credentials(decode_utf8(bytes))
    }
}

/// The username and password that a `Basic` authorization header carries, or
/// why it carries none.
pub open spec fn basic_credentials(header: Option<Seq<u8>>) -> Result<
    (Seq<char>, Seq<char>),
    AuthError,
> {
    match header {
        None => Err(AuthError::MissingHeader),
        Some(h) => if !(forall|i: int| 0 <= i < h.len() ==> is_visible_ascii(#[trigger] h[i])) {
            Err(AuthError::HeaderNotVisibleAscii)
        } else if !has_basic_prefix(h) {
            Err(AuthError::NotBasicScheme)
        } else {
            match base64_decoded(h.subrange(6, h.len() as int)) {
                None => Err(AuthError::InvalidBase64),
                Some(bytes) => decoded_credentials(bytes),
            }
        },
    }
}

proof fn lemma_first_colon_unique(t: Seq<char>, k1: int, k2: int)
    requires
        is_first_colon(t, k1),
        is_first_colon(t, k2),
    ensures
        k1 == k2,
{
    if k1 < k2 {
        assert(t[k1] != ':');
    } else if k2 < k1 {
        assert(t[k2] != ':');
    }
}

/// Splits decoded credentials at the first `:` (`splitn(2, ':')`).
fn split_at_first_colon(t: &String) -> (r: Result<Credentials, AuthError>)
    ensures
        r matches Ok(c) ==> split_credentials(t@) == Ok::<(Seq<char>, Seq<char>), AuthError>(
            (c.username@, c.password@),
        ),
        r matches Err(e) ==> split_credentials(t@) == Err::<(Seq<char>, Seq<char>), AuthError>(e),
{
    let s = t.as_str();
    let n = s.unicode_len();
    let mut k: usize = 0;
    while k < n && s.get_char(k) != ':'
        invariant
            n == t@.len(),
            s@ == t@,
            k <= n,
            forall|j: int| 0 <= j < k ==> #[trigger] t@[j] != ':',
        decreases n - k,
    {
        k = k + 1;
    }
    if k == n {
        assert(!has_colon(t@));
        return Err(AuthError::MissingPassword);
    }
    proof {
        assert(is_first_colon(t@, k as int));
        let c = choose|c: int| is_first_colon(t@, c);
        lemma_first_colon_unique(t@, c, k as int);
    }
    let username = s.substring_char(0, k).to_owned();
    let password = s.substring_char(k + 1, n).to_owned();
    Ok(Credentials { username, password: SecretString::new(password) })
}

pub open spec fn header_bytes(header: Option<&[u8]>) -> Option<Seq<u8>> {
    match header {
        Some(h) => Some(h@),
        None => None,
    }
}

/// Reads the credentials of a `Basic` authorization header, given as the
/// header's raw bytes (`None` when the request has no such header).
pub fn basic_authentication(header: Option<&[u8]>) -> (r: Result<Credentials, AuthError>)
    ensures
        r matches Ok(c) ==> basic_credentials(header_bytes(header)) == Ok::<
            (Seq<char>, Seq<char>),
            AuthError,
        >((c.username@, c.password@)),
        r matches Err(e) ==> basic_credentials(header_bytes(header)) == Err::<
            (Seq<char>, Seq<char>),
            AuthError,
        >(e),
{
    let h = match header {
        None => {
            return Err(AuthError::MissingHeader);
        },
        Some(h) => h,
    };
    let n = h.len();
    let mut i: usize = 0;
    while i < n
        invariant
            n == h@.len(),
            header_bytes(header) == Some(h@),
            i <= n,
            forall|j: int| 0 <= j < i ==> is_visible_ascii(#[trigger] h@[j]),
        decreases n - i,
    {
        let b = h[i];
        if !(b == 9 || (32 <= b && b < 127)) {
            assert(!is_visible_ascii(h@[i as int]));
            return Err(AuthError::HeaderNotVisibleAscii);
        }
        i = i + 1;
    }
    if !(n >= 6 && h[0] == 66 && h[1] == 97 && h[2] == 115 && h[3] == 105 && h[4] == 99 && h[5]
        == 32) {
        proof {
            if has_basic_prefix(h@) {
                let p = h@.subrange(0, 6);
                assert(p[0] == h@[0] && p[1] == h@[1] && p[2] == h@[2]);
                assert(p[3] == h@[3] && p[4] == h@[4] && p[5] == h@[5]);
            }
        }
        return Err(AuthError::NotBasicScheme);
    }
    assert(h@.subrange(0, 6) =~= basic_scheme_prefix());
    let mut encoded: Vec<u8> = Vec::new();
    let mut j: usize = 6;
    while j < n
        invariant
            n == h@.len(),
            6 <= j <= n,
            encoded@ == h@.subrange(6, j as int),
        decreases n - j,
    {
        encoded.push(h[j]);
        j = j + 1;
        assert(encoded@ =~= h@.subrange(6, j as int));
    }
    let decoded = match decode_base64(encoded.as_slice()) {
        None => {
            return Err(AuthError::InvalidBase64);
        },
        Some(d) => d,
    };
    credentials_from_decoded(decoded)
}

/// Reads the username and password out of the base64-decoded payload of a
/// `Basic` header.
pub fn credentials_from_decoded(bytes: Vec<u8>) -> (r: Result<Credentials, AuthError>)
    ensures
        r matches Ok(c) ==> decoded_credentials(bytes@) == Ok::<(Seq<char>, Seq<char>), AuthError>(
            (c.username@, c.password@),
        ),
        r matches Err(e) ==> decoded_credentials(bytes@) == Err::<(Seq<char>, Seq<char>), AuthError>(e),
{
    let ghost b = bytes@;
    let text = match string_from_utf8(bytes) {
        None => {
            return Err(AuthError::InvalidUtf8);
        },
        Some(t) => t,
    };
    assert(text@ == decode_utf8(b));
    split_at_first_colon(&text)
}

/// An issue to publish: its title becomes the subject of every email.
#[derive(Debug)]
pub struct PublishNewsletterRequest {
    pub title: String,
    pub content: Content,
}

/// The two bodies of an issue.
#[derive(Debug)]
pub struct Content {
    pub html: String,
    pub text: String,
}

/// Why a publish request failed for a reason other than authentication.
#[derive(Debug)]
pub enum UnexpectedError {
    /// The credential store could not check the credentials.
    CredentialStore(String),
    /// The confirmed subscribers could not be read.
    Storage(String),
    /// Sending the issue to `recipient` failed; the fan-out stopped there.
    Delivery { recipient: SubscriberEmail, cause: DeliveryError },
}

/// Why a publish request failed.
#[derive(Debug)]
pub enum PublishError {
    AuthError(AuthError),
    UnexpectedError(UnexpectedError),
}

/// What the credential store answered when it did not accept a check.
#[derive(Debug)]
pub enum CredentialCheckError {
    InvalidCredentials,
    Unexpected(String),
}

/// The status and `WWW-Authenticate` header of a response.
#[derive(Debug)]
pub struct HttpOutcome {
    pub status: u16,
    pub www_authenticate: Option<String>,
}

/// The challenge sent with every refusal for lack of authentication.
pub open spec fn publish_challenge() -> Seq<char> {
    "Basic realm=\"publish\""@
}

pub open spec fn header_text(h: Option<String>) -> Option<Seq<char>> {
    match h {
        Some(s) => Some(s@),
        None => None,
    }
}

impl PublishError {
    /// An authentication failure is `401` with the `Basic` challenge; anything
    /// else is `500` with no header.
    pub open spec fn spec_status(&self) -> u16 {
        match self {
            PublishError::AuthError(_) => 401,
            PublishError::UnexpectedError(_) => 500,
        }
    }

    pub open spec fn spec_www_authenticate(&self) -> Option<Seq<char>> {
        match self {
            PublishError::AuthError(_) => Some(publish_challenge()),
            PublishError::UnexpectedError(_) => None,
        }
    }

    pub fn error_response(&self) -> (r: HttpOutcome)
        ensures
            r.status == self.spec_status(),
            header_text(r.www_authenticate) == self.spec_www_authenticate(),
    {
        match self {
            PublishError::AuthError(_) => HttpOutcome {
                status: 401,
                www_authenticate: Some(String::from_str("Basic realm=\"publish\"")),
            },
            PublishError::UnexpectedError(_) => HttpOutcome { status: 500, www_authenticate: None },
        }
    }

    /// Refused credentials are an authentication failure like a malformed
    /// header; a store that could not answer is an unexpected failure.
    pub fn from_credential_check(e: CredentialCheckError) -> (r: PublishError)
        ensures
            e is InvalidCredentials ==> r == PublishError::AuthError(AuthError::InvalidCredentials),
            e matches CredentialCheckError::Unexpected(m) ==> r == PublishError::UnexpectedError(
                UnexpectedError::CredentialStore(m),
            ),
    {
        match e {
            CredentialCheckError::InvalidCredentials => PublishError::AuthError(
                AuthError::InvalidCredentials,
            ),
            CredentialCheckError::Unexpected(m) => PublishError::UnexpectedError(
                UnexpectedError::CredentialStore(m),
            ),
        }
    }
}

/// The response to a publish request: `200` with no header once every send
/// went through, else the error's response.
pub fn publish_response(result: &Result<(), PublishError>) -> (r: HttpOutcome)
    ensures
        result is Ok ==> r.status == 200 && r.www_authenticate is None,
        result matches Err(e) ==> r.status == e.spec_status() && header_text(r.www_authenticate)
            == e.spec_www_authenticate(),
{
    match result {
        Ok(()) => HttpOutcome { status: 200, www_authenticate: None },
        Err(e) => e.error_response(),
    }
}

/// Authenticates a publish request from its `Authorization` header.
pub fn authenticate(header: Option<&[u8]>) -> (r: Result<Credentials, PublishError>)
    ensures
        r matches Ok(c) ==> basic_credentials(header_bytes(header)) == Ok::<
            (Seq<char>, Seq<char>),
            AuthError,
        >((c.username@, c.password@)),
        r matches Err(e) ==> basic_credentials(header_bytes(header)) matches Err(a) && e
            == PublishError::AuthError(a),
{
    match basic_authentication(header) {
        Ok(c) => Ok(c),
        Err(a) => Err(PublishError::AuthError(a)),
    }
}

/// Every request whose `Authorization` header is missing or malformed is
/// answered with `401` and the `Basic realm="publish"` challenge.
pub proof fn lemma_unauthenticated_is_401(header: Option<Seq<u8>>)
    requires
        basic_credentials(header) is Err,
    ensures
        PublishError::AuthError(basic_credentials(header)->Err_0).spec_status() == 401,
        PublishError::AuthError(basic_credentials(header)->Err_0).spec_www_authenticate() == Some(
            publish_challenge(),
        ),
        header is None ==> basic_credentials(header) == Err::<(Seq<char>, Seq<char>), AuthError>(
            AuthError::MissingHeader,
        ),
{
}

/// A confirmed subscriber whose stored email is valid.
#[derive(Debug)]
pub struct ConfirmedSubscriber {
    pub email: SubscriberEmail,
}

impl Clone for ConfirmedSubscriber {
    fn clone(&self) -> (r: ConfirmedSubscriber)
        ensures
            r == *self,
    {
        ConfirmedSubscriber { email: self.email.clone() }
    }
}

/// What listing makes of the stored email `e` of a confirmed row: the
/// subscriber, or the reason the email no longer validates.
pub open spec fn listed_as(entry: Result<ConfirmedSubscriber, String>, e: Seq<char>) -> bool {
    match entry {
        Ok(c) => c.email@ == e && valid_subscriber_email(e),
        Err(m) => !valid_subscriber_email(e) && m@ == e + " is not a valid subscriber email."@,
    }
}

/// The confirmed subscribers among `rows`, in row order: a row counts when its
/// status is exactly `confirmed`, and its email is validated again, one entry
/// per row, so that one bad row spoils only its own entry.
pub fn get_confirmed_subscribers(rows: &Vec<StoredSubscription>) -> (r: Vec<
    Result<ConfirmedSubscriber, String>,
>)
    ensures
        r@.len() == confirmed_emails(rows_view(rows@)).len(),
        forall|i: int|
            0 <= i < r@.len() ==> listed_as(#[trigger] r@[i], confirmed_emails(rows_view(rows@))[i]),
{
    let mut out: Vec<Result<ConfirmedSubscriber, String>> = Vec::new();
    let mut i: usize = 0;
    while i < rows.len()
        invariant
            i <= rows@.len(),
            out@.len() == confirmed_emails(rows_view(rows@.subrange(0, i as int))).len(),
            forall|k: int|
                0 <= k < out@.len() ==> listed_as(
                    #[trigger] out@[k],
                    confirmed_emails(rows_view(rows@.subrange(0, i as int)))[k],
                ),
        decreases rows@.len() - i,
    {
        let ghost before = rows_view(rows@.subrange(0, i as int));
        let ghost after = rows_view(rows@.subrange(0, i + 1));
        proof {
            assert(after.drop_last() =~= before);
            assert(after.last() == row_view(rows@[i as int]));
        }
        let row = &rows[i];
        if text_equals(row.status.as_str(), SubscriptionStatus::Confirmed.as_str()) {
            let entry = match SubscriberEmail::parse(row.email.clone()) {
                Ok(email) => Ok(ConfirmedSubscriber { email }),
                Err(m) => Err(m),
            };
            out.push(entry);
        }
        i = i + 1;
    }
    assert(rows@.subrange(0, rows@.len() as int) =~= rows@);
    out
}

/// Where a fan-out stands: the entries it works through, the position of the
/// next one, whether a send to that entry is outstanding, and the failed send
/// that stopped it, if any.
pub struct FanoutModel {
    pub recipients: Seq<Result<ConfirmedSubscriber, String>>,
    pub next: int,
    pub awaiting: bool,
    pub failure: Option<(SubscriberEmail, DeliveryError)>,
}

pub open spec fn fanout_wf(s: FanoutModel) -> bool {
    &&& 0 <= s.next <= s.recipients.len()
    &&& s.awaiting ==> s.next < s.recipients.len() && s.recipients[s.next] is Ok
    &&& s.failure is Some ==> !s.awaiting
}

/// What a fan-out asks its driver to do next.
#[derive(Debug)]
pub enum FanoutAction {
    /// Send the issue to this subscriber, then report the outcome.
    Send(SubscriberEmail),
    /// A confirmed row whose email did not validate is passed over; the
    /// reason is for the log.
    Skip(String),
    /// The fan-out is over; this is the outcome of the publish request.
    Finished(Result<(), PublishError>),
}

/// The next action, and the state after it. Entries are taken in order: an
/// invalid one is skipped, a valid one is sent to, and after the last the
/// fan-out has succeeded. Once a send has failed every answer is that failure.
/// While a send is outstanding it is asked for again.
pub open spec fn fanout_next(s: FanoutModel) -> (FanoutModel, FanoutAction) {
    match s.failure {
        Some((recipient, cause)) => (
            s,
            FanoutAction::Finished(
                Err(PublishError::UnexpectedError(UnexpectedError::Delivery { recipient, cause })),
            ),
        ),
        None => if s.awaiting {
            (s, FanoutAction::Send(s.recipients[s.next]->Ok_0.email))
        } else if s.next >= s.recipients.len() {
            (s, FanoutAction::Finished(Ok(())))
        } else {
            match s.recipients[s.next] {
                Err(m) => (FanoutModel { next: s.next + 1, ..s }, FanoutAction::Skip(m)),
                Ok(c) => (FanoutModel { awaiting: true, ..s }, FanoutAction::Send(c.email)),
            }
        },
    }
}

/// The state once the outstanding send has reported: on success the fan-out
/// moves on, on failure it stops for good. With no send outstanding the report
/// changes nothing.
pub open spec fn fanout_after_delivery(s: FanoutModel, outcome: Result<(), DeliveryError>) -> FanoutModel {
    if !s.awaiting {
        s
    } else {
        match outcome {
            Ok(()) => FanoutModel { next: s.next + 1, awaiting: false, ..s },
            Err(cause) => FanoutModel {
                awaiting: false,
                failure: Some((s.recipients[s.next]->Ok_0.email, cause)),
                ..s
            },
        }
    }
}

/// Sends one issue to each confirmed subscriber in turn. The first failed
/// send ends the fan-out and fails the whole request; nothing is sent after it.
pub struct Fanout {
    recipients: Vec<Result<ConfirmedSubscriber, String>>,
    next: usize,
    awaiting: bool,
    failure: Option<(SubscriberEmail, DeliveryError)>,
}

impl View for Fanout {
    type V = FanoutModel;

    closed spec fn view(&self) -> FanoutModel {
        FanoutModel {
            recipients: self.recipients@,
            next: self.next as int,
            awaiting: self.awaiting,
            failure: self.failure,
        }
    }
}

impl Fanout {
    #[verifier::type_invariant]
    closed spec fn wf(self) -> bool {
        fanout_wf(self@)
    }

    pub fn new(recipients: Vec<Result<ConfirmedSubscriber, String>>) -> (r: Fanout)
        ensures
            r@ == (FanoutModel { recipients: recipients@, next: 0, awaiting: false, failure: None }),
    {
        Fanout { recipients, next: 0, awaiting: false, failure: None }
    }

    pub fn next_action(&mut self) -> (r: FanoutAction)
        ensures
            (final(self)@, r) == fanout_next(old(self)@),
            fanout_wf(final(self)@),
    {
        proof {
            use_type_invariant(&*self);
        }
        if let Some((recipient, cause)) = &self.failure {
            return FanoutAction::Finished(
                Err(
                    PublishError::UnexpectedError(
                        UnexpectedError::Delivery { recipient: recipient.clone(), cause: *cause },
                    ),
                ),
            );
        }
        if self.awaiting {
            let email = self.recipients[self.next].as_ref().unwrap().email.clone();
            return FanoutAction::Send(email);
        }
        if self.next >= self.recipients.len() {
            return FanoutAction::Finished(Ok(()));
        }
        match &self.recipients[self.next] {
            Err(m) => {
                let m = m.clone();
                self.next = self.next + 1;
                FanoutAction::Skip(m)
            },
            Ok(c) => {
                let email = c.email.clone();
                self.awaiting = true;
                FanoutAction::Send(email)
            },
        }
    }

    /// Reports the outcome of the outstanding send.
    pub fn record_delivery(&mut self, outcome: Result<(), DeliveryError>)
        ensures
            final(self)@ == fanout_after_delivery(old(self)@, outcome),
            fanout_wf(final(self)@),
    {
        proof {
            use_type_invariant(&*self);
        }
        if !self.awaiting {
            return ;
        }
        let len = self.recipients.len();
        assert(self.next < len);
        match outcome {
            Ok(()) => {
                self.awaiting = false;
                self.next = self.next + 1;
            },
            Err(cause) => {
                let email = self.recipients[self.next].as_ref().unwrap().email.clone();
                self.awaiting = false;
                self.failure = Some((email, cause));
            },
        }
    }
}

/// A failed send ends the fan-out: the failing recipient and cause are kept,
/// every later step answers with the same failure, which is a `500`, and no
/// later report changes anything, so nothing more is sent.
pub proof fn lemma_failure_stops_fanout(s: FanoutModel, cause: DeliveryError)
    requires
        fanout_wf(s),
        s.awaiting,
    ensures
        ({
            let f = fanout_after_delivery(s, Err(cause));
            let recipient = s.recipients[s.next]->Ok_0.email;
            &&& f.failure == Some((recipient, cause))
            &&& fanout_next(f).0 == f
            &&& fanout_next(f).1 == FanoutAction::Finished(
                Err(PublishError::UnexpectedError(UnexpectedError::Delivery { recipient, cause })),
            )
            &&& PublishError::UnexpectedError(
                UnexpectedError::Delivery { recipient, cause },
            ).spec_status() == 500
            &&& forall|o: Result<(), DeliveryError>| #[trigger] fanout_after_delivery(f, o) == f
        }),
{
}

/// The state after `n` steps with no send outstanding in between.
pub open spec fn fanout_steps(s: FanoutModel, n: nat) -> FanoutModel
    decreases n,
{
    if n == 0 {
        s
    } else {
        fanout_next(fanout_steps(s, (n - 1) as nat)).0
    }
}

/// When no listed subscriber has a valid email, a fan-out that has sent
/// nothing yet never asks for a send: each step skips an entry, and once all
/// are skipped it has succeeded.
pub proof fn lemma_no_valid_recipient_no_send(s: FanoutModel, n: nat)
    requires
        fanout_wf(s),
        !s.awaiting,
        s.failure is None,
        forall|i: int| 0 <= i < s.recipients.len() ==> #[trigger] s.recipients[i] is Err,
    ensures
        fanout_steps(s, n).next == if s.next + n <= s.recipients.len() {
            s.next + n
        } else {
            s.recipients.len() as int
        },
        !fanout_steps(s, n).awaiting,
        fanout_steps(s, n).failure is None,
        fanout_steps(s, n).recipients == s.recipients,
        fanout_next(fanout_steps(s, n)).1 !is Send,
        s.next + n >= s.recipients.len() ==> fanout_next(fanout_steps(s, n)).1
            == FanoutAction::Finished(Ok(())),
    decreases n,
{
    if n > 0 {
        lemma_no_valid_recipient_no_send(s, (n - 1) as nat);
    }
    let t = fanout_steps(s, n);
    if t.next < t.recipients.len() {
        assert(t.recipients[t.next] is Err);
    }
}

} // verus!
