//! The stored subscription record and its confirmation workflow.

use crate::domain::{NewSubscriber, SubscriberEmail, SubscriberName};
use uuid::Uuid;
use vstd::prelude::*;

verus! {

#[verifier::external_type_specification]
#[verifier::external_body]
pub struct ExUuid(Uuid);

/// Where a subscriber stands in the double opt-in workflow. A subscription
/// starts out pending and is confirmed once; nothing leads back.
#[derive(Debug, Clone, Copy, PartialEq, Eq, Structural)]
pub enum SubscriptionStatus {
    PendingConfirmation,
    Confirmed,
}

impl SubscriptionStatus {
    /// The text that storage keeps in the status column.
    pub open spec fn spec_text(self) -> Seq<char> {
        match self {
            SubscriptionStatus::PendingConfirmation => "pending_confirmation"@,
            SubscriptionStatus::Confirmed => "confirmed"@,
        }
    }

    pub fn as_str(&self) -> (r: &'static str)
        ensures
            r@ == self.spec_text(),
    {
        match self {
            SubscriptionStatus::PendingConfirmation => "pending_confirmation",
            SubscriptionStatus::Confirmed => "confirmed",
        }
    }

    /// Reads a status column back.
    pub fn parse(s: &str) -> (r: Option<SubscriptionStatus>)
        ensures
            r == (if s@ == "pending_confirmation"@ {
                Some(SubscriptionStatus::PendingConfirmation)
            } else if s@ == "confirmed"@ {
                Some(SubscriptionStatus::Confirmed)
            } else {
                None
            }),
    {
        if text_equals(s, "pending_confirmation") {
            Some(SubscriptionStatus::PendingConfirmation)
        } else if text_equals(s, "confirmed") {
            Some(SubscriptionStatus::Confirmed)
        } else {
            None
        }
    }

    /// Confirmation leads to `Confirmed` from either state.
    pub open spec fn spec_confirm(self) -> SubscriptionStatus {
        SubscriptionStatus::Confirmed
    }

    /// The transition a valid confirmation token triggers.
    pub fn confirm(self) -> (r: SubscriptionStatus)
        ensures
            r == self.spec_confirm(),
    {
        SubscriptionStatus::Confirmed
    }
}

/// Compares two strings character by character.
pub fn text_equals(a: &str, b: &str) -> (r: bool)
    ensures
        r == (a@ == b@),
{
    let n = a.unicode_len();
    if n != b.unicode_len() {
        return false;
    }
    let mut i: usize = 0;
    while i < n
        invariant
            n == a@.len(),
            n == b@.len(),
            i <= n,
            forall|j: int| 0 <= j < i ==> a@[j] == b@[j],
        decreases n - i,
    {
        if a.get_char(i) != b.get_char(i) {
            return false;
        }
        i = i + 1;
    }
    assert(a@ =~= b@);
    true
}

/// A subscription as it is stored.
#[derive(Debug)]
pub struct SubscriptionRecord {
    pub id: Uuid,
    pub email: SubscriberEmail,
    pub name: SubscriberName,
    /// Microseconds since the Unix epoch.
    pub subscribed_at_micros: i64,
    pub status: SubscriptionStatus,
}

/// Relies on `uuid::Uuid::new_v4`: a random identifier; nothing is promised
/// of its value.
#[verifier::external_body]
fn random_subscription_id() -> (r: Uuid) {
    Uuid::new_v4()
}

/// Relies on `chrono::Utc::now` (read as microseconds since the Unix epoch):
/// the time of the call; nothing is promised of its value.
#[verifier::external_body]
fn now_unix_micros() -> (r: i64) {
    chrono::Utc::now().timestamp_micros()
}

/// The record to insert for a new subscriber: a fresh random id, the current
/// time, the validated email and name, and the pending status.
pub fn new_subscription(new_subscriber: NewSubscriber) -> (r: SubscriptionRecord)
    ensures
        r.email@ == new_subscriber.email@,
        r.name@ == new_subscriber.name@,
        r.status == SubscriptionStatus::PendingConfirmation,
{
    let id = random_subscription_id();
    let subscribed_at_micros = now_unix_micros();
    SubscriptionRecord {
        id,
        email: new_subscriber.email,
        name: new_subscriber.name,
        subscribed_at_micros,
        status: SubscriptionStatus::PendingConfirmation,
    }
}

/// A stored row as the storage layer hands it back: the email and the text
/// of the status column.
#[derive(Debug)]
pub struct StoredSubscription {
    pub email: String,
    pub status: String,
}

pub open spec fn row_view(row: StoredSubscription) -> (Seq<char>, Seq<char>) {
    (row.email@, row.status@)
}

pub open spec fn rows_view(rows: Seq<StoredSubscription>) -> Seq<(Seq<char>, Seq<char>)> {
    rows.map_values(|row: StoredSubscription| row_view(row))
}

/// The emails of the rows whose status is exactly `confirmed`, in row order.
pub open spec fn confirmed_emails(rows: Seq<(Seq<char>, Seq<char>)>) -> Seq<Seq<char>>
    decreases rows.len(),
{
    if rows.len() == 0 {
        Seq::empty()
    } else {
        let rest = confirmed_emails(rows.drop_last());
        let last = rows.last();
        if last.1 == SubscriptionStatus::Confirmed.spec_text() {
            rest.push(last.0)
        } else {
            rest
        }
    }
}

/// How often `e` occurs in `s`.
pub open spec fn occurrences(s: Seq<Seq<char>>, e: Seq<char>) -> nat
    decreases s.len(),
{
    if s.len() == 0 {
        0
    } else {
        occurrences(s.drop_last(), e) + if s.last() == e {
            1nat
        } else {
            0nat
        }
    }
}

/// No two rows hold the same email.
pub open spec fn emails_unique(rows: Seq<(Seq<char>, Seq<char>)>) -> bool {
    forall|a: int, b: int|
        0 <= a < rows.len() && 0 <= b < rows.len() && a != b ==> #[trigger] rows[a].0
            != #[trigger] rows[b].0
}

proof fn lemma_absent_email_not_listed(rows: Seq<(Seq<char>, Seq<char>)>, e: Seq<char>)
    requires
        forall|a: int| 0 <= a < rows.len() ==> #[trigger] rows[a].0 != e,
    ensures
        occurrences(confirmed_emails(rows), e) == 0,
    decreases rows.len(),
{
    if rows.len() > 0 {
        let rest = rows.drop_last();
        assert(forall|a: int| 0 <= a < rest.len() ==> #[trigger] rest[a].0 == rows[a].0);
        lemma_absent_email_not_listed(rest, e);
        let ce = confirmed_emails(rest);
        assert(rows[rows.len() - 1].0 != e);
        assert(ce.push(rows.last().0).drop_last() =~= ce);
    }
}

/// With emails unique, the row at `j` is listed as often as its status says:
/// once when confirmed, never otherwise.
proof fn lemma_row_listed_by_status(rows: Seq<(Seq<char>, Seq<char>)>, j: int)
    requires
        emails_unique(rows),
        0 <= j < rows.len(),
    ensures
        occurrences(confirmed_emails(rows), rows[j].0) == if rows[j].1
            == SubscriptionStatus::Confirmed.spec_text() {
            1nat
        } else {
            0nat
        },
    decreases rows.len(),
{
    let e = rows[j].0;
    let rest = rows.drop_last();
    let last = rows.len() - 1;
    let ce = confirmed_emails(rest);
    assert(ce.push(rows.last().0).drop_last() =~= ce);
    if j == last {
        assert forall|a: int| 0 <= a < rest.len() implies #[trigger] rest[a].0 != e by {
            assert(rows[a].0 != rows[j].0);
        }
        lemma_absent_email_not_listed(rest, e);
    } else {
        assert(rows[last].0 != rows[j].0);
        assert(emails_unique(rest)) by {
            assert forall|a: int, b: int|
                0 <= a < rest.len() && 0 <= b < rest.len() && a != b implies #[trigger] rest[a].0
                != #[trigger] rest[b].0 by {
                assert(rows[a].0 != rows[b].0);
            }
        }
        assert(rest[j] == rows[j]);
        lemma_row_listed_by_status(rest, j);
    }
}

/// Listing never yields a pending subscriber: with emails unique, a row whose
/// status is `pending_confirmation` contributes nothing to the list.
pub proof fn lemma_pending_never_listed(rows: Seq<(Seq<char>, Seq<char>)>, j: int)
    requires
        emails_unique(rows),
        0 <= j < rows.len(),
        rows[j].1 == SubscriptionStatus::PendingConfirmation.spec_text(),
    ensures
        occurrences(confirmed_emails(rows), rows[j].0) == 0,
{
    reveal_strlit("pending_confirmation");
    reveal_strlit("confirmed");
    assert(SubscriptionStatus::PendingConfirmation.spec_text()[0] == 'p');
    assert(SubscriptionStatus::Confirmed.spec_text()[0] == 'c');
    lemma_row_listed_by_status(rows, j);
}

/// Once the row at `j` goes through the confirmation transition, its email is
/// listed exactly once (with emails unique).
pub proof fn lemma_confirmed_listed_once(rows: Seq<(Seq<char>, Seq<char>)>, j: int)
    requires
        emails_unique(rows),
        0 <= j < rows.len(),
    ensures
        ({
            let confirmed = rows.update(
                j,
                (rows[j].0, SubscriptionStatus::PendingConfirmation.spec_confirm().spec_text()),
            );
            occurrences(confirmed_emails(confirmed), rows[j].0) == 1
        }),
{
    let confirmed = rows.update(
        j,
        (rows[j].0, SubscriptionStatus::PendingConfirmation.spec_confirm().spec_text()),
    );
    assert(emails_unique(confirmed)) by {
        assert forall|a: int, b: int|
            0 <= a < confirmed.len() && 0 <= b < confirmed.len() && a != b implies #[trigger] confirmed[a].0
            != #[trigger] confirmed[b].0 by {
            assert(confirmed[a].0 == rows[a].0);
            assert(confirmed[b].0 == rows[b].0);
        }
    }
    lemma_row_listed_by_status(confirmed, j);
}

} // verus!
