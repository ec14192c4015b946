use base64::Engine;
use lolshorts::payments::commands::{
    checkout_url, order_id, order_name, plan_checkout, subscription_amount, verify_payment,
    CreateSubscriptionRequest,
};
use lolshorts::payments::toss;
use lolshorts::payments::tosspayments::{TossPaymentsClient, TossPaymentsError};
use lolshorts::payments::webhook::{
    customer_key_for, extract_user_id_from_customer, extract_user_id_from_order, webhook_reply,
    HandlerOutcome, PaymentStatus, StatusChangeAction, WebhookEventType,
};

fn b64(s: &str) -> String {
    base64::engine::general_purpose::STANDARD.encode(s.as_bytes())
}

#[test]
fn test_client_creation() {
    let client = toss::TossPaymentsClient::new("test_sk_test123".to_string());
    assert!(client.base_url().contains("api.tosspayments.com"));
}

#[test]
fn test_auth_header() {
    let client = toss::TossPaymentsClient::new("test_key".to_string());
    let header = client.auth_header();
    assert!(header.starts_with("Basic "));
    assert_eq!(header, format!("Basic {}", b64("test_key:")));
}

#[test]
fn test_auth_header_generation() {
    let client = TossPaymentsClient::new("test_sk_123456".to_string()).unwrap();
    let header = client.get_auth_header();
    assert!(header.starts_with("Basic "));
    assert_eq!(header, "Basic dGVzdF9za18xMjM0NTY6");
}

#[test]
fn test_empty_secret_key_error() {
    let result = TossPaymentsClient::new("".to_string());
    assert!(result.is_err());
}

#[test]
fn short_test_keys_are_refused() {
    assert!(matches!(
        TossPaymentsClient::new("test_sk".to_string()),
        Err(TossPaymentsError::ConfigError(_))
    ));
    assert!(TossPaymentsClient::new("live_sk".to_string()).is_ok());
    assert!(TossPaymentsClient::from_env_value(None).is_err());
}

#[test]
fn toss_endpoints() {
    let client = toss::TossPaymentsClient::new("k".to_string());
    assert_eq!(client.payment_url("pk_1"), format!("{}/payments/pk_1", client.base_url()));
    assert_eq!(
        client.cancel_payment_url("pk_1"),
        format!("{}/payments/pk_1/cancel", client.base_url())
    );
}

#[test]
fn subscription_prices_and_names() {
    assert_eq!(subscription_amount("MONTHLY").unwrap(), 9900);
    assert_eq!(subscription_amount("YEARLY").unwrap(), 99000);
    assert_eq!(subscription_amount("WEEKLY").unwrap_err(), "Invalid subscription period");
    assert_eq!(order_name("MONTHLY"), "LoLShorts PRO 월 구독");
    assert_eq!(order_name("YEARLY"), "LoLShorts PRO 연 구독");
    assert_eq!(order_name("x"), "LoLShorts PRO");
}

#[test]
fn order_ids_and_checkout_urls() {
    assert_eq!(order_id(1_700_000_000, "0123456789abcdef"), "ORDER_1700000000_01234567");
    assert_eq!(order_id(-5, "abcdefgh"), "ORDER_-5_abcdefgh");
    let url = checkout_url("ck", 9900, "ORDER_1_a", "LoLShorts PRO 월 구독");
    let expected = format!(
        "https://api.tosspayments.com/v1/payments?clientKey=ck&amount=9900&orderId={}&orderName={}&successUrl={}&failUrl={}",
        urlencoding::encode("ORDER_1_a"),
        urlencoding::encode("LoLShorts PRO 월 구독"),
        urlencoding::encode("http://localhost:1420/payment/success"),
        urlencoding::encode("http://localhost:1420/payment/fail"),
    );
    assert_eq!(url, expected);
    assert!(url.contains("orderName=LoLShorts%20PRO%20%EC%9B%94%20%EA%B5%AC%EB%8F%85"));

    let request = CreateSubscriptionRequest { period: "YEARLY".to_string() };
    let plan = plan_checkout(&request, "ck", 7, "abcdefghij").unwrap();
    assert_eq!(plan.amount, 99000);
    assert_eq!(plan.order_id, "ORDER_7_abcdefgh");
    assert_eq!(plan.order_name, "LoLShorts PRO 연 구독");
    let bad = CreateSubscriptionRequest { period: "DAILY".to_string() };
    assert!(plan_checkout(&bad, "ck", 7, "abcdefghij").is_err());
}

#[test]
fn user_ids_round_trip_through_keys() {
    let key = customer_key_for("abc123");
    assert_eq!(key, "user_abc123");
    assert_eq!(extract_user_id_from_customer(&key).unwrap(), "abc123");
    assert_eq!(extract_user_id_from_order("user_abc123_1700000000").unwrap(), "abc123");
    assert_eq!(
        extract_user_id_from_order("ORDER_1_abc").unwrap_err(),
        "Invalid order_id format: ORDER_1_abc"
    );
    assert_eq!(
        extract_user_id_from_customer("user").unwrap_err(),
        "Invalid customer_key format: user"
    );
}

#[test]
fn webhook_replies() {
    let r = webhook_reply(WebhookEventType::PaymentStatusChanged, PaymentStatus::Done, HandlerOutcome::Processed);
    assert_eq!((r.status_code, r.success, r.text), (200, true, "Payment processed"));
    let r = webhook_reply(WebhookEventType::PaymentStatusChanged, PaymentStatus::Expired, HandlerOutcome::Processed);
    assert_eq!(r.text, "Payment failure processed");
    let r = webhook_reply(WebhookEventType::PaymentStatusChanged, PaymentStatus::Ready, HandlerOutcome::Processed);
    assert_eq!(r.text, "Status acknowledged");
    let r = webhook_reply(WebhookEventType::BillingKeyIssued, PaymentStatus::Done, HandlerOutcome::InvalidData);
    assert_eq!((r.status_code, r.success, r.text), (400, false, "Invalid subscription data"));
    let r = webhook_reply(WebhookEventType::RefundStatusChanged, PaymentStatus::Done, HandlerOutcome::DatabaseFailed);
    assert_eq!((r.status_code, r.success, r.text), (500, false, "Database update failed"));
    assert_eq!(PaymentStatus::Aborted.change_action(), StatusChangeAction::RecordFailure);
    assert_eq!(PaymentStatus::PartialCancelled.cancelled_db_status(), "partial_cancelled");
}

#[test]
fn payment_verification_order() {
    let payment = toss::PaymentResponse {
        payment_key: "pk".to_string(),
        order_id: "o1".to_string(),
        order_name: "n".to_string(),
        status: "DONE".to_string(),
        requested_at: "t".to_string(),
        approved_at: None,
        total_amount: 9900,
        method: None,
        transaction_id: None,
    };
    assert!(verify_payment(&payment, 9900, "o1").is_ok());
    assert_eq!(verify_payment(&payment, 100, "o2").unwrap_err(), "Payment amount mismatch");
    assert_eq!(verify_payment(&payment, 9900, "o2").unwrap_err(), "Order ID mismatch");
    let pending = toss::PaymentResponse { status: "READY".to_string(), ..payment };
    assert_eq!(
        verify_payment(&pending, 9900, "o1").unwrap_err(),
        "Payment not completed. Status: READY"
    );
}

#[test]
fn auth_header_is_rfc_base64_with_padding() {
    // "sk:" -> "c2s6", "key1:" -> "a2V5MTo=", "k:" -> "azo="
    assert_eq!(toss::TossPaymentsClient::new("sk".to_string()).auth_header(), "Basic c2s6");
    assert_eq!(toss::TossPaymentsClient::new("key1".to_string()).auth_header(), "Basic a2V5MTo=");
    assert_eq!(toss::TossPaymentsClient::new("k".to_string()).auth_header(), "Basic azo=");
}
