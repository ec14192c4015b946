//! The TossPayments API client's rules: which secret keys it accepts, how it
//! authorizes, which endpoints it calls, and how a refused request becomes an
//! error.
use crate::payments::encoding::{base64_encode, base64_standard};
use crate::text::{contains, contains_exec, chars_of, owned, push_all};
use vstd::prelude::*;
use vstd::utf8::encode_utf8;

verus! {

/// Base URL of the TossPayments API.
pub open spec fn api_base() -> Seq<char> {
    "https://api.tosspayments.com/v1"@
}

/// TossPayments errors.
#[derive(Debug)]
pub enum TossPaymentsError {
    /// The HTTP request failed (its message).
    HttpError(String),
    /// The payment was refused.
    PaymentFailed { code: String, message: String },
    /// A setting is missing or invalid.
    ConfigError(String),
    /// A response could not be read (its message).
    ParseError(String),
}

/// Payment confirmation request.
#[derive(Debug)]
pub struct PaymentConfirmRequest {
    pub payment_key: String,
    pub order_id: String,
    pub amount: i64,
}

/// Card payment details.
#[derive(Debug)]
pub struct CardInfo {
    pub company: Option<String>,
    pub number: Option<String>,
    pub installment_plan_months: Option<i32>,
    pub is_interest_free: Option<bool>,
    pub approve_no: Option<String>,
}

/// Virtual account details.
#[derive(Debug)]
pub struct VirtualAccountInfo {
    pub bank: Option<String>,
    pub account_number: Option<String>,
    pub customer_name: Option<String>,
    pub due_date: Option<String>,
}

/// Easy-pay details.
#[derive(Debug)]
pub struct EasyPayInfo {
    pub provider: Option<String>,
    pub amount: Option<i64>,
    pub discount_amount: Option<i64>,
}

/// Payment confirmation response.
#[derive(Debug)]
pub struct PaymentConfirmResponse {
    pub payment_key: String,
    pub order_id: String,
    /// Payment status (DONE, CANCELED, ...).
    pub status: String,
    pub total_amount: i64,
    pub method: Option<String>,
    pub approved_at: Option<String>,
    pub card: Option<CardInfo>,
    pub virtual_account: Option<VirtualAccountInfo>,
    pub easy_pay: Option<EasyPayInfo>,
}

/// Error body of the API.
#[derive(Debug)]
pub struct TossPaymentsErrorResponse {
    pub code: String,
    pub message: String,
}

/// Secret keys the client refuses: empty ones, and test keys shorter than ten
/// bytes (their UTF-8 length, as a `usize`).
pub open spec fn rejected_secret_key(key: Seq<char>) -> bool {
    key.len() == 0 || (contains(key, "test_"@) && (encode_utf8(key).len() as usize) < 10)
}

/// TossPayments client.
pub struct TossPaymentsClient {
    secret_key: String,
}

impl TossPaymentsClient {
    /// The secret key.
    pub closed spec fn secret(&self) -> Seq<char> {
        self.secret_key@
    }

    /// A client for `secret_key`, unless the key is refused.
    pub fn new(secret_key: String) -> (r: Result<Self, TossPaymentsError>)
        ensures
            rejected_secret_key(secret_key@) ==> (r matches Err(
                TossPaymentsError::ConfigError(m),
            ) && m@ == "Invalid TossPayments secret key"@),
            !rejected_secret_key(secret_key@) ==> (r matches Ok(c) && c.secret()
                == secret_key@),
    {
        let empty = secret_key.as_str().unicode_len() == 0;
        let chars = chars_of(secret_key.as_str());
        let test_chars = chars_of("test_");
        let is_test = contains_exec(chars.as_slice(), test_chars.as_slice());
        let blen = secret_key.as_str().len();
        if empty || is_test && blen < 10 {
            return Err(TossPaymentsError::ConfigError(owned("Invalid TossPayments secret key")));
        }
        Ok(TossPaymentsClient { secret_key })
    }

    /// A client for the key found in the environment (`None` when the
    /// variable is not set).
    pub fn from_env_value(value: Option<String>) -> (r: Result<Self, TossPaymentsError>)
        ensures
            value is None ==> (r matches Err(TossPaymentsError::ConfigError(m)) && m@
                == "TOSSPAYMENTS_SECRET_KEY 환경 변수가 설정되지 않았습니다"@),
            value matches Some(k) ==> ((rejected_secret_key(k@) ==> r is Err) && (
            !rejected_secret_key(k@) ==> (r matches Ok(c) && c.secret() == k@))),
    {
        match value {
            Some(k) => TossPaymentsClient::new(k),
            None => Err(
                TossPaymentsError::ConfigError(
                    owned("TOSSPAYMENTS_SECRET_KEY 환경 변수가 설정되지 않았습니다"),
                ),
            ),
        }
    }

    /// Basic authorization value: the Base64 of `secret:`.
    pub fn get_auth_header(&self) -> (r: String)
        requires
            encode_utf8(self.secret() + ":"@).len() < usize::MAX / 2,
        ensures
            r@ == "Basic "@ + base64_standard(encode_utf8(self.secret() + ":"@)),
    {
        let mut credentials = owned(self.secret_key.as_str());
        push_all(&mut credentials, ":");
        let encoded = base64_encode(credentials.as_str());
        basic_authorization(encoded.as_str())
    }

    /// Endpoint confirming a payment.
    pub fn confirm_url(&self) -> (r: String)
        ensures
            r@ == api_base() + "/payments/confirm"@,
    {
        let mut s = owned("https://api.tosspayments.com/v1");
        push_all(&mut s, "/payments/confirm");
        s
    }

    /// Endpoint of one payment.
    pub fn payment_url(&self, payment_key: &str) -> (r: String)
        ensures
            r@ == api_base() + "/payments/"@ + payment_key@,
    {
        let mut s = owned("https://api.tosspayments.com/v1");
        push_all(&mut s, "/payments/");
        push_all(&mut s, payment_key);
        s
    }

    /// Endpoint cancelling a payment.
    pub fn cancel_url(&self, payment_key: &str) -> (r: String)
        ensures
            r@ == api_base() + "/payments/"@ + payment_key@ + "/cancel"@,
    {
        let mut s = owned("https://api.tosspayments.com/v1");
        push_all(&mut s, "/payments/");
        push_all(&mut s, payment_key);
        push_all(&mut s, "/cancel");
        s
    }
}

/// The Basic authorization value of already-encoded credentials.
pub fn basic_authorization(encoded: &str) -> (r: String)
    ensures
        r@ == "Basic "@ + encoded@,
{
    let mut s = owned("Basic ");
    push_all(&mut s, encoded);
    s
}

/// The error of a refused request: the API's error body when it could be
/// read, else the code `UNKNOWN_ERROR` with `fallback_message`.
pub fn payment_failure(body: Option<TossPaymentsErrorResponse>, fallback_message: String) -> (r:
    TossPaymentsError)
    ensures
        match body {
            Some(b) => r matches TossPaymentsError::PaymentFailed { code, message } && code@
                == b.code@ && message@ == b.message@,
            None => r matches TossPaymentsError::PaymentFailed { code, message } && code@
                == "UNKNOWN_ERROR"@ && message@ == fallback_message@,
        },
{
    match body {
        Some(b) => TossPaymentsError::PaymentFailed { code: b.code, message: b.message },
        None => TossPaymentsError::PaymentFailed {
            code: owned("UNKNOWN_ERROR"),
            message: fallback_message,
        },
    }
}

} // verus!
