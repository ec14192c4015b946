//! Toss Payments billing client: its authorization, the endpoints of the
//! billing-key and payment requests, and the data they exchange.
use crate::payments::encoding::{base64_encode, base64_standard};
use crate::payments::tosspayments::{api_base, basic_authorization};
use crate::text::{owned, push_all};
use vstd::prelude::*;
use vstd::utf8::encode_utf8;

verus! {

/// Toss Payments API client.
pub struct TossPaymentsClient {
    secret_key: String,
    base_url: String,
}

impl TossPaymentsClient {
    /// The secret key.
    pub closed spec fn secret(&self) -> Seq<char> {
        self.secret_key@
    }

    /// The base URL of the API.
    pub closed spec fn base(&self) -> Seq<char> {
        self.base_url@
    }

    /// A client for `secret_key`; test and live keys use the same API.
    pub fn new(secret_key: String) -> (c: Self)
        ensures
            c.secret() == secret_key@,
            c.base() == api_base(),
    {
        TossPaymentsClient { secret_key, base_url: owned("https://api.tosspayments.com/v1") }
    }

    /// The base URL.
    pub fn base_url(&self) -> (r: &str)
        ensures
            r@ == self.base(),
    {
        self.base_url.as_str()
    }

    /// Authorization header: `Basic ` and the Base64 of `secret:`.
    pub fn auth_header(&self) -> (r: String)
        requires
            encode_utf8(self.secret() + ":"@).len() < usize::MAX / 2,
        ensures
            r@ == "Basic "@ + base64_standard(encode_utf8(self.secret() + ":"@)),
    {
        let mut credentials = owned(self.secret_key.as_str());
        push_all(&mut credentials, ":");
        let encoded = base64_encode(credentials.as_str());
        basic_authorization(encoded.as_str())
    }

    fn endpoint(&self, path: &str) -> (r: String)
        ensures
            r@ == self.base() + path@,
    {
        let mut s = owned(self.base_url.as_str());
        push_all(&mut s, path);
        s
    }

    /// Endpoint issuing a billing key.
    pub fn billing_key_issue_url(&self) -> (r: String)
        ensures
            r@ == self.base() + "/billing/authorizations/issue"@,
    {
        self.endpoint("/billing/authorizations/issue")
    }

    /// Endpoint charging a billing key.
    pub fn billing_payment_url(&self, billing_key: &str) -> (r: String)
        ensures
            r@ == self.base() + "/billing/"@ + billing_key@,
    {
        let mut s = self.endpoint("/billing/");
        push_all(&mut s, billing_key);
        s
    }

    /// Endpoint cancelling a payment.
    pub fn cancel_payment_url(&self, payment_key: &str) -> (r: String)
        ensures
            r@ == self.base() + "/payments/"@ + payment_key@ + "/cancel"@,
    {
        let mut s = self.endpoint("/payments/");
        push_all(&mut s, payment_key);
        push_all(&mut s, "/cancel");
        s
    }

    /// Endpoint of one payment.
    pub fn payment_url(&self, payment_key: &str) -> (r: String)
        ensures
            r@ == self.base() + "/payments/"@ + payment_key@,
    {
        let mut s = self.endpoint("/payments/");
        push_all(&mut s, payment_key);
        s
    }

    /// Endpoint deleting a billing key.
    pub fn delete_billing_key_url(&self, billing_key: &str) -> (r: String)
        ensures
            r@ == self.base() + "/billing/authorizations/"@ + billing_key@,
    {
        let mut s = self.endpoint("/billing/authorizations/");
        push_all(&mut s, billing_key);
        s
    }
}

/// The error of a failed billing-key deletion.
pub fn delete_billing_key_error(error_text: &str) -> (r: String)
    ensures
        r@ == "Failed to delete billing key: "@ + error_text@,
{
    let mut s = owned("Failed to delete billing key: ");
    push_all(&mut s, error_text);
    s
}

/// Payment request.
#[derive(Debug)]
pub struct PaymentRequest {
    pub amount: i64,
    pub order_id: String,
    pub order_name: String,
    pub customer_email: Option<String>,
    pub customer_name: Option<String>,
}

/// Payment response.
#[derive(Debug)]
pub struct PaymentResponse {
    pub payment_key: String,
    pub order_id: String,
    pub order_name: String,
    /// READY, IN_PROGRESS, WAITING_FOR_DEPOSIT, DONE, CANCELED, ...
    pub status: String,
    pub requested_at: String,
    pub approved_at: Option<String>,
    pub total_amount: i64,
    pub method: Option<String>,
    pub transaction_id: Option<String>,
}

/// Billing key response.
#[derive(Debug)]
pub struct BillingKeyResponse {
    pub billing_key: String,
    pub customer_key: String,
    pub card: Option<CardInfo>,
}

/// Card of a billing key.
#[derive(Debug)]
pub struct CardInfo {
    pub company: String,
    pub number: String,
    pub card_type: String,
}

} // verus!
