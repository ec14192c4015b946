//! Toss Payments webhooks: the event and payment data, the user id carried in
//! order ids and customer keys, and what each event does to the payment
//! records and how it is answered.
use crate::text::{char_views, chars_of, index_of, index_of_after, owned, push_all, split_at_char, split_char, string_from_chars};
use vstd::prelude::*;

verus! {

/// Toss Payments webhook event types.
#[derive(Debug, Clone, Copy, PartialEq, Eq, Structural)]
pub enum WebhookEventType {
    PaymentStatusChanged,
    PaymentCancelled,
    PaymentFailed,
    BillingKeyIssued,
    BillingKeyDeleted,
    RefundStatusChanged,
}

/// Payment status reported in webhook data.
#[derive(Debug, Clone, Copy, PartialEq, Eq, Structural)]
pub enum PaymentStatus {
    Ready,
    InProgress,
    WaitingForDeposit,
    Done,
    Cancelled,
    PartialCancelled,
    Aborted,
    Expired,
}

/// Payment data of a webhook.
#[derive(Debug)]
pub struct PaymentData {
    pub payment_key: String,
    pub order_id: String,
    pub status: PaymentStatus,
    pub total_amount: i64,
    pub method: Option<String>,
    pub requested_at: String,
    pub approved_at: Option<String>,
    pub cancelled_at: Option<String>,
}

/// Subscription (billing key) data of a webhook.
#[derive(Debug)]
pub struct SubscriptionData {
    pub billing_key: String,
    pub customer_key: String,
    pub authenticated_at: String,
}

// ============================================================================
// User ids in order ids and customer keys
// ============================================================================

/// The user id of a key `user_<id>[_...]`: the second `_`-separated part, when
/// the first one is `user`.
pub open spec fn user_id_of(key: Seq<char>) -> Option<Seq<char>> {
    let parts = split_char(key, '_');
    if parts.len() >= 2 && parts[0] == "user"@ {
        Some(parts[1])
    } else {
        None
    }
}

fn user_id_exec(key: &str) -> (r: Option<String>)
    ensures
        match user_id_of(key@) {
            Some(id) => r matches Some(s) && s@ == id,
            None => r is None,
        },
{
    let chars = chars_of(key);
    let parts = split_at_char(chars.as_slice(), '_');
    proof {
        assert(char_views(parts@) == split_char(key@, '_'));
        assert(parts@.len() == split_char(key@, '_').len());
    }
    if parts.len() >= 2 {
        let user = string_from_chars(parts[0].as_slice());
        assert(user@ == split_char(key@, '_')[0]);
        if crate::text::str_eq(user.as_str(), "user") {
            let id = string_from_chars(parts[1].as_slice());
            assert(id@ == split_char(key@, '_')[1]);
            return Some(id);
        }
    }
    None
}

/// Extract the user id from an order id of the form `user_<uuid>_<timestamp>`.
pub fn extract_user_id_from_order(order_id: &str) -> (r: Result<String, String>)
    ensures
        match user_id_of(order_id@) {
            Some(id) => r matches Ok(s) && s@ == id,
            None => r matches Err(m) && m@ == "Invalid order_id format: "@ + order_id@,
        },
{
    match user_id_exec(order_id) {
        Some(id) => Ok(id),
        None => {
            let mut m = owned("Invalid order_id format: ");
            push_all(&mut m, order_id);
            Err(m)
        },
    }
}

/// Extract the user id from a customer key of the form `user_<uuid>`.
pub fn extract_user_id_from_customer(customer_key: &str) -> (r: Result<String, String>)
    ensures
        match user_id_of(customer_key@) {
            Some(id) => r matches Ok(s) && s@ == id,
            None => r matches Err(m) && m@ == "Invalid customer_key format: "@ + customer_key@,
        },
{
    match user_id_exec(customer_key) {
        Some(id) => Ok(id),
        None => {
            let mut m = owned("Invalid customer_key format: ");
            push_all(&mut m, customer_key);
            Err(m)
        },
    }
}

/// The customer key under which a user's billing key is registered.
pub fn customer_key_for(user_id: &str) -> (r: String)
    ensures
        r@ == "user_"@ + user_id@,
{
    let mut s = owned("user_");
    push_all(&mut s, user_id);
    s
}

proof fn lemma_index_skips(t: Seq<char>, c: char, i: int, j: int)
    requires
        0 <= i <= j <= t.len(),
        forall|k: int| i <= k < j ==> t[k] != c,
    ensures
        index_of_after(t, c, i) == index_of_after(t, c, j),
    decreases j - i,
{
    if i < j {
        lemma_index_skips(t, c, i + 1, j);
    }
}

/// Keys built as `user_` + id + a suffix that is empty or starts with `_` give
/// the id back, when the id holds no `_`: the customer key of a user, and an
/// order id `user_<id>_<timestamp>`, both name that user.
pub proof fn law_user_id_round_trip(id: Seq<char>, suffix: Seq<char>)
    requires
        forall|k: int| 0 <= k < id.len() ==> id[k] != '_',
        suffix.len() == 0 || suffix[0] == '_',
    ensures
        user_id_of("user_"@ + id + suffix) == Some(id),
{
    reveal_strlit("user_");
    reveal_strlit("user");
    let key = "user_"@ + id + suffix;
    assert(key[0] == 'u' && key[1] == 's' && key[2] == 'e' && key[3] == 'r' && key[4] == '_');
    assert(index_of_after(key, '_', 0) == index_of_after(key, '_', 4)) by {
        lemma_index_skips(key, '_', 0, 4);
    }
    assert(index_of(key, '_') == Some(4int));
    let rest = key.subrange(5, key.len() as int);
    assert(rest =~= id + suffix);
    assert(key.subrange(0, 4) =~= "user"@);
    if suffix.len() == 0 {
        assert(rest =~= id);
        assert(index_of_after(rest, '_', 0) == index_of_after(rest, '_', rest.len() as int)) by {
            lemma_index_skips(rest, '_', 0, rest.len() as int);
        }
        assert(split_char(rest, '_') == seq![rest]);
    } else {
        assert(index_of_after(rest, '_', 0) == index_of_after(rest, '_', id.len() as int)) by {
            lemma_index_skips(rest, '_', 0, id.len() as int);
        }
        assert(rest[id.len() as int] == '_');
        assert(index_of(rest, '_') == Some(id.len() as int));
        assert(rest.subrange(0, id.len() as int) =~= id);
    }
    assert(split_char(key, '_') == seq![key.subrange(0, 4)] + split_char(rest, '_'));
}

// ============================================================================
// What an event does
// ============================================================================

/// What a payment status change does.
#[derive(Debug, Clone, Copy, PartialEq, Eq, Structural)]
pub enum StatusChangeAction {
    /// The payment completed: mark it completed and activate the PRO license.
    Complete,
    /// The payment was cancelled or failed: record the failure.
    RecordFailure,
    /// Any other status is only acknowledged.
    Acknowledge,
}

/// The action of a payment status change.
pub open spec fn status_change_action(s: PaymentStatus) -> StatusChangeAction {
    match s {
        PaymentStatus::Done => StatusChangeAction::Complete,
        PaymentStatus::Cancelled | PaymentStatus::Aborted | PaymentStatus::Expired => StatusChangeAction::RecordFailure,
        _ => StatusChangeAction::Acknowledge,
    }
}

/// A payment that ended without being paid (cancelled, aborted or expired)
/// is recorded as a failure, a completed payment (done) activates PRO, and a
/// payment still under way (ready, in progress, waiting for a deposit) or
/// partly cancelled is only acknowledged. A processed status change is
/// answered accordingly: a failure with "Payment failure processed", a
/// completion with "Payment processed".
pub proof fn law_unpaid_endings_record_a_failure(s: PaymentStatus)
    ensures
        (status_change_action(s) == StatusChangeAction::RecordFailure) <==> (s
            == PaymentStatus::Cancelled || s == PaymentStatus::Aborted || s
            == PaymentStatus::Expired),
        (status_change_action(s) == StatusChangeAction::Complete) <==> s == PaymentStatus::Done,
        (status_change_action(s) == StatusChangeAction::Acknowledge) <==> (s
            == PaymentStatus::Ready || s == PaymentStatus::InProgress || s
            == PaymentStatus::WaitingForDeposit || s == PaymentStatus::PartialCancelled),
        (s == PaymentStatus::Cancelled || s == PaymentStatus::Aborted || s
            == PaymentStatus::Expired) ==> processed_message(
            WebhookEventType::PaymentStatusChanged,
            s,
        ) == "Payment failure processed"@,
        s == PaymentStatus::Done ==> processed_message(WebhookEventType::PaymentStatusChanged, s)
            == "Payment processed"@,
{
}

impl PaymentStatus {
    /// What a change to this status does.
    pub fn change_action(&self) -> (a: StatusChangeAction)
        ensures
            a == status_change_action(*self),
    {
        match self {
            PaymentStatus::Done => StatusChangeAction::Complete,
            PaymentStatus::Cancelled | PaymentStatus::Aborted | PaymentStatus::Expired => StatusChangeAction::RecordFailure,
            _ => StatusChangeAction::Acknowledge,
        }
    }

    /// The variant's name.
    pub fn name(&self) -> (r: &'static str)
        ensures
            r@ == status_name(*self),
    {
        match self {
            PaymentStatus::Ready => "Ready",
            PaymentStatus::InProgress => "InProgress",
            PaymentStatus::WaitingForDeposit => "WaitingForDeposit",
            PaymentStatus::Done => "Done",
            PaymentStatus::Cancelled => "Cancelled",
            PaymentStatus::PartialCancelled => "PartialCancelled",
            PaymentStatus::Aborted => "Aborted",
            PaymentStatus::Expired => "Expired",
        }
    }

    /// Database status of a failed or cancelled payment.
    pub fn failed_db_status(&self) -> (r: &'static str)
        ensures
            r@ == (match *self {
                PaymentStatus::Cancelled | PaymentStatus::PartialCancelled => "cancelled"@,
                _ => "failed"@,
            }),
    {
        match self {
            PaymentStatus::Cancelled | PaymentStatus::PartialCancelled => "cancelled",
            _ => "failed",
        }
    }

    /// Database status of a cancellation: partial or full.
    pub fn cancelled_db_status(&self) -> (r: &'static str)
        ensures
            r@ == (match *self {
                PaymentStatus::PartialCancelled => "partial_cancelled"@,
                _ => "cancelled"@,
            }),
    {
        match self {
            PaymentStatus::PartialCancelled => "partial_cancelled",
            _ => "cancelled",
        }
    }

    /// Failure reason recorded for a payment in this status.
    pub fn failure_reason(&self) -> (r: String)
        ensures
            r@ == "Payment "@ + status_name(*self),
    {
        let mut s = owned("Payment ");
        push_all(&mut s, self.name());
        s
    }
}

/// The name of a status variant.
pub open spec fn status_name(s: PaymentStatus) -> Seq<char> {
    match s {
        PaymentStatus::Ready => "Ready"@,
        PaymentStatus::InProgress => "InProgress"@,
        PaymentStatus::WaitingForDeposit => "WaitingForDeposit"@,
        PaymentStatus::Done => "Done"@,
        PaymentStatus::Cancelled => "Cancelled"@,
        PaymentStatus::PartialCancelled => "PartialCancelled"@,
        PaymentStatus::Aborted => "Aborted"@,
        PaymentStatus::Expired => "Expired"@,
    }
}

/// Outcome of handling one webhook.
#[derive(Debug, Clone, Copy, PartialEq, Eq, Structural)]
pub enum HandlerOutcome {
    /// The event's data could not be read.
    InvalidData,
    /// The records were updated (or nothing had to be done).
    Processed,
    /// A database update failed.
    DatabaseFailed,
}

/// Reply to a webhook: HTTP status, success flag, and the message (on
/// success) or error (otherwise).
#[derive(Debug, Clone, Copy, PartialEq, Eq)]
pub struct WebhookReply {
    pub status_code: u16,
    pub success: bool,
    pub text: &'static str,
}

/// Message of a processed event.
pub open spec fn processed_message(event: WebhookEventType, status: PaymentStatus) -> Seq<char> {
    match event {
        WebhookEventType::PaymentStatusChanged => match status_change_action(status) {
            StatusChangeAction::Complete => "Payment processed"@,
            StatusChangeAction::RecordFailure => "Payment failure processed"@,
            StatusChangeAction::Acknowledge => "Status acknowledged"@,
        },
        WebhookEventType::PaymentCancelled => "Cancellation processed"@,
        WebhookEventType::PaymentFailed => "Failure processed"@,
        WebhookEventType::BillingKeyIssued => "Billing key stored"@,
        WebhookEventType::BillingKeyDeleted => "Subscription cancelled"@,
        WebhookEventType::RefundStatusChanged => "Refund processed"@,
    }
}

/// Error of an event whose data could not be read.
pub open spec fn invalid_data_error(event: WebhookEventType) -> Seq<char> {
    match event {
        WebhookEventType::PaymentStatusChanged => "Invalid payment data"@,
        WebhookEventType::PaymentCancelled => "Invalid cancellation data"@,
        WebhookEventType::PaymentFailed => "Invalid failure data"@,
        WebhookEventType::BillingKeyIssued => "Invalid subscription data"@,
        WebhookEventType::BillingKeyDeleted => "Invalid deletion data"@,
        WebhookEventType::RefundStatusChanged => "Invalid refund data"@,
    }
}

fn processed_text(event: WebhookEventType, status: PaymentStatus) -> (r: &'static str)
    ensures
        r@ == processed_message(event, status),
{
    match event {
        WebhookEventType::PaymentStatusChanged => match status.change_action() {
            StatusChangeAction::Complete => "Payment processed",
            StatusChangeAction::RecordFailure => "Payment failure processed",
            StatusChangeAction::Acknowledge => "Status acknowledged",
        },
        WebhookEventType::PaymentCancelled => "Cancellation processed",
        WebhookEventType::PaymentFailed => "Failure processed",
        WebhookEventType::BillingKeyIssued => "Billing key stored",
        WebhookEventType::BillingKeyDeleted => "Subscription cancelled",
        WebhookEventType::RefundStatusChanged => "Refund processed",
    }
}

fn invalid_text(event: WebhookEventType) -> (r: &'static str)
    ensures
        r@ == invalid_data_error(event),
{
    match event {
        WebhookEventType::PaymentStatusChanged => "Invalid payment data",
        WebhookEventType::PaymentCancelled => "Invalid cancellation data",
        WebhookEventType::PaymentFailed => "Invalid failure data",
        WebhookEventType::BillingKeyIssued => "Invalid subscription data",
        WebhookEventType::BillingKeyDeleted => "Invalid deletion data",
        WebhookEventType::RefundStatusChanged => "Invalid refund data",
    }
}

/// The reply to an event: 400 when its data could not be read, 500 when a
/// database update failed, 200 otherwise. `status` is the payment's status,
/// which only a payment status change reads.
pub fn webhook_reply(event: WebhookEventType, status: PaymentStatus, outcome: HandlerOutcome) -> (r:
    WebhookReply)
    ensures
        outcome == HandlerOutcome::InvalidData ==> r.status_code == 400 && !r.success && r.text@
            == invalid_data_error(event),
        outcome == HandlerOutcome::DatabaseFailed ==> r.status_code == 500 && !r.success
            && r.text@ == "Database update failed"@,
        outcome == HandlerOutcome::Processed ==> r.status_code == 200 && r.success && r.text@
            == processed_message(event, status),
{
    match outcome {
        HandlerOutcome::InvalidData => WebhookReply {
            status_code: 400,
            success: false,
            text: invalid_text(event),
        },
        HandlerOutcome::DatabaseFailed => WebhookReply {
            status_code: 500,
            success: false,
            text: "Database update failed",
        },
        HandlerOutcome::Processed => WebhookReply {
            status_code: 200,
            success: true,
            text: processed_text(event, status),
        },
    }
}

/// Authorization value of the service role, used for webhook writes.
pub fn service_token(service_role_key: &str) -> (r: String)
    ensures
        r@ == "Bearer "@ + service_role_key@,
{
    let mut s = owned("Bearer ");
    push_all(&mut s, service_role_key);
    s
}

/// How a billing key is stored.
#[derive(Debug, Clone, Copy, PartialEq, Eq, Structural)]
pub enum SubscriptionWrite {
    /// The user has an active subscription: update it.
    Update,
    /// Otherwise: create one.
    Insert,
}

/// A new billing key updates the user's active subscription when there is
/// one, and creates a subscription otherwise.
pub fn subscription_write(active_subscriptions: usize) -> (w: SubscriptionWrite)
    ensures
        w == (if active_subscriptions > 0 {
            SubscriptionWrite::Update
        } else {
            SubscriptionWrite::Insert
        }),
{
    if active_subscriptions > 0 {
        SubscriptionWrite::Update
    } else {
        SubscriptionWrite::Insert
    }
}

/// The date a cancelled license expires: the subscription's next billing
/// date when the first subscription row has one, else `today`.
pub fn license_expiry(next_billing_date: Option<String>, today: String) -> (r: String)
    ensures
        r@ == (match next_billing_date {
            Some(d) => d@,
            None => today@,
        }),
{
    match next_billing_date {
        Some(d) => d,
        None => today,
    }
}

/// The instant recorded for a payment event: the one the payment carries, or
/// `now`.
pub fn event_time(carried: &Option<String>, now: &str) -> (r: String)
    ensures
        r@ == (match *carried {
            Some(t) => t@,
            None => now@,
        }),
{
    match carried {
        Some(t) => owned(t.as_str()),
        None => owned(now),
    }
}

} // verus!
