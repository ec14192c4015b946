//! Subscription checkout: the price and name of each plan, the order id and
//! checkout URL of a new subscription, the checks a completed payment must
//! pass, and the subscription status read from a license.
use crate::payments::encoding::{percent_encoded, url_encode};
use crate::payments::toss::PaymentResponse;
use crate::recording::integration_backend::signed_decimal;
use crate::text::{decimal, owned, push_all, push_decimal, str_eq};
use vstd::prelude::*;
use vstd::utf8::encode_utf8;

verus! {

/// Subscription request: the period, "MONTHLY" or "YEARLY".
#[derive(Debug)]
pub struct CreateSubscriptionRequest {
    pub period: String,
}

/// Checkout of a new subscription.
#[derive(Debug)]
pub struct SubscriptionResponse {
    pub checkout_url: String,
    pub order_id: String,
}

/// Subscription status of a user's license.
#[derive(Debug)]
pub struct SubscriptionStatus {
    pub tier: String,
    pub status: String,
    pub expires_at: Option<String>,
}

/// Price of a plan in won: 9,900 a month, 99,000 a year.
pub open spec fn plan_amount(period: Seq<char>) -> Option<i64> {
    if period == "MONTHLY"@ {
        Some(9900)
    } else if period == "YEARLY"@ {
        Some(99000)
    } else {
        None
    }
}

/// Order name of a plan.
pub open spec fn plan_order_name(period: Seq<char>) -> Seq<char> {
    if period == "MONTHLY"@ {
        "LoLShorts PRO 월 구독"@
    } else if period == "YEARLY"@ {
        "LoLShorts PRO 연 구독"@
    } else {
        "LoLShorts PRO"@
    }
}

/// The price of a subscription period.
pub fn subscription_amount(period: &str) -> (r: Result<i64, String>)
    ensures
        match plan_amount(period@) {
            Some(a) => r == Ok::<i64, String>(a),
            None => r matches Err(m) && m@ == "Invalid subscription period"@,
        },
{
    if str_eq(period, "MONTHLY") {
        Ok(9900)
    } else if str_eq(period, "YEARLY") {
        Ok(99000)
    } else {
        Err(owned("Invalid subscription period"))
    }
}

/// The order name of a subscription period.
pub fn order_name(period: &str) -> (r: &'static str)
    ensures
        r@ == plan_order_name(period@),
{
    if str_eq(period, "MONTHLY") {
        "LoLShorts PRO 월 구독"
    } else if str_eq(period, "YEARLY") {
        "LoLShorts PRO 연 구독"
    } else {
        "LoLShorts PRO"
    }
}

/// Appends the decimal form of a signed integer.
pub fn push_signed_i64(s: &mut String, i: i64)
    ensures
        final(s)@ == old(s)@ + signed_decimal(i as int),
{
    if i < 0 {
        s.push('-');
        let m: i128 = -(i as i128);
        let u: u64 = m as u64;
        assert(u as int == -(i as int));
        push_decimal(s, u);
        assert(final(s)@ =~= old(s)@ + signed_decimal(i as int));
    } else {
        push_decimal(s, i as u64);
    }
}

/// Order id `ORDER_<unix seconds>_<first eight characters of a UUID>`.
pub fn order_id(timestamp: i64, uuid: &str) -> (r: String)
    requires
        uuid@.len() >= 8,
    ensures
        r@ == "ORDER_"@ + signed_decimal(timestamp as int) + "_"@ + uuid@.subrange(0, 8),
{
    let mut s = owned("ORDER_");
    push_signed_i64(&mut s, timestamp);
    push_all(&mut s, "_");
    let mut i: usize = 0;
    let ghost base = s@;
    while i < 8
        invariant
            i <= 8,
            uuid@.len() >= 8,
            s@ == base + uuid@.subrange(0, i as int),
        decreases 8 - i,
    {
        s.push(uuid.get_char(i));
        i += 1;
        assert(s@ =~= base + uuid@.subrange(0, i as int));
    }
    assert(s@ =~= "ORDER_"@ + signed_decimal(timestamp as int) + "_"@ + uuid@.subrange(0, 8));
    s
}

/// Page the checkout returns to after a payment.
pub open spec fn success_url() -> Seq<char> {
    "http://localhost:1420/payment/success"@
}

/// Page the checkout returns to after a failure.
pub open spec fn fail_url() -> Seq<char> {
    "http://localhost:1420/payment/fail"@
}

/// Checkout URL: the client key, the amount, and the percent-encoded order id,
/// order name and return pages.
pub open spec fn checkout_url_text(
    client_key: Seq<char>,
    amount: i64,
    order_id: Seq<char>,
    order_name: Seq<char>,
) -> Seq<char> {
    "https://api.tosspayments.com/v1/payments?clientKey="@ + client_key + "&amount="@
        + signed_decimal(amount as int) + "&orderId="@ + percent_encoded(encode_utf8(order_id))
        + "&orderName="@ + percent_encoded(encode_utf8(order_name)) + "&successUrl="@
        + percent_encoded(encode_utf8(success_url())) + "&failUrl="@ + percent_encoded(
        encode_utf8(fail_url()),
    )
}

/// The checkout URL of an order.
pub fn checkout_url(client_key: &str, amount: i64, order_id: &str, order_name: &str) -> (r: String)
    ensures
        r@ == checkout_url_text(client_key@, amount, order_id@, order_name@),
{
    let mut s = owned("https://api.tosspayments.com/v1/payments?clientKey=");
    push_all(&mut s, client_key);
    push_all(&mut s, "&amount=");
    push_signed_i64(&mut s, amount);
    push_all(&mut s, "&orderId=");
    push_all(&mut s, url_encode(order_id).as_str());
    push_all(&mut s, "&orderName=");
    push_all(&mut s, url_encode(order_name).as_str());
    push_all(&mut s, "&successUrl=");
    push_all(&mut s, url_encode("http://localhost:1420/payment/success").as_str());
    push_all(&mut s, "&failUrl=");
    push_all(&mut s, url_encode("http://localhost:1420/payment/fail").as_str());
    assert(s@ =~= checkout_url_text(client_key@, amount, order_id@, order_name@));
    s
}

/// A planned checkout.
#[derive(Debug)]
pub struct CheckoutPlan {
    pub amount: i64,
    pub order_id: String,
    pub order_name: &'static str,
    pub checkout_url: String,
}

/// Plan the checkout of a subscription: the period's price, an order id from
/// the time and a fresh UUID, the period's order name, and the checkout URL.
/// An unknown period is refused.
pub fn plan_checkout(request: &CreateSubscriptionRequest, client_key: &str, timestamp: i64, uuid: &str) -> (r:
    Result<CheckoutPlan, String>)
    requires
        uuid@.len() >= 8,
    ensures
        match plan_amount(request.period@) {
            None => r matches Err(m) && m@ == "Invalid subscription period"@,
            Some(a) => r matches Ok(p) && p.amount == a && p.order_id@ == "ORDER_"@
                + signed_decimal(timestamp as int) + "_"@ + uuid@.subrange(0, 8) && p.order_name@
                == plan_order_name(request.period@) && p.checkout_url@ == checkout_url_text(
                client_key@,
                a,
                p.order_id@,
                p.order_name@,
            ),
        },
{
    let amount = subscription_amount(request.period.as_str())?;
    let id = order_id(timestamp, uuid);
    let name = order_name(request.period.as_str());
    let url = checkout_url(client_key, amount, id.as_str(), name);
    Ok(CheckoutPlan { amount, order_id: id, order_name: name, checkout_url: url })
}

/// The license a pending payment belongs to: the id of the user's first
/// license.
pub fn license_id(first_license_id: Option<String>) -> (r: Result<String, String>)
    ensures
        match first_license_id {
            Some(id) => r matches Ok(s) && s@ == id@,
            None => r matches Err(m) && m@ == "License not found"@,
        },
{
    match first_license_id {
        Some(id) => Ok(id),
        None => Err(owned("License not found")),
    }
}

/// Checks of a payment reported back after checkout: it is done, for the
/// expected amount, and for the expected order, checked in that order.
pub fn verify_payment(payment: &PaymentResponse, amount: i64, order_id: &str) -> (r: Result<(), String>)
    ensures
        payment.status@ != "DONE"@ ==> (r matches Err(m) && m@ == "Payment not completed. Status: "@
            + payment.status@),
        payment.status@ == "DONE"@ && payment.total_amount != amount ==> (r matches Err(m) && m@
            == "Payment amount mismatch"@),
        payment.status@ == "DONE"@ && payment.total_amount == amount && payment.order_id@
            != order_id@ ==> (r matches Err(m) && m@ == "Order ID mismatch"@),
        payment.status@ == "DONE"@ && payment.total_amount == amount && payment.order_id@
            == order_id@ ==> r is Ok,
{
    if !str_eq(payment.status.as_str(), "DONE") {
        let mut m = owned("Payment not completed. Status: ");
        push_all(&mut m, payment.status.as_str());
        return Err(m);
    }
    if payment.total_amount != amount {
        return Err(owned("Payment amount mismatch"));
    }
    if !str_eq(payment.order_id.as_str(), order_id) {
        return Err(owned("Order ID mismatch"));
    }
    Ok(())
}

/// The fields of a license row, each when present as a string.
#[derive(Debug)]
pub struct LicenseRow {
    pub tier: Option<String>,
    pub status: Option<String>,
    pub expires_at: Option<String>,
}

/// The subscription status of the user's first license: its tier (FREE when
/// absent), status (ACTIVE when absent) and expiry; an error without a license.
pub fn subscription_status(first_license: Option<LicenseRow>) -> (r: Result<SubscriptionStatus, String>)
    ensures
        match first_license {
            None => r matches Err(m) && m@ == "License not found"@,
            Some(l) => r matches Ok(s) && s.tier@ == (match l.tier {
                Some(t) => t@,
                None => "FREE"@,
            }) && s.status@ == (match l.status {
                Some(t) => t@,
                None => "ACTIVE"@,
            }) && s.expires_at == l.expires_at,
        },
{
    match first_license {
        None => Err(owned("License not found")),
        Some(l) => {
            let tier = match l.tier {
                Some(t) => t,
                None => owned("FREE"),
            };
            let status = match l.status {
                Some(t) => t,
                None => owned("ACTIVE"),
            };
            Ok(SubscriptionStatus { tier, status, expires_at: l.expires_at })
        },
    }
}

} // verus!
