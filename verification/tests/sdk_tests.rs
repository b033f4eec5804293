//! Tests for the configuration, error, common-type and request-builder
//! modules.

use africastalking::airtime::AirtimeRecipient;
use africastalking::config::{Config, Endpoint, Environment};
use africastalking::data::{DataUnits, DataValidity};
use africastalking::error::AfricasTalkingError;
use africastalking::payments::WalletTransactionsRequest;
use africastalking::sms::SendSmsRequest;
use africastalking::types::{Currency, PhoneNumber};
use africastalking::voice::{MakeCallRequest, QueueStatusRequest, UploadMediaRequest};

#[test]
fn test_environment_base_urls() {
    assert_eq!(Environment::Sandbox.base_url(), "https://api.sandbox.africastalking.com");
    assert_eq!(Environment::Production.base_url(), "https://api.africastalking.com");
}

#[test]
fn test_endpoint_urls() {
    let sandbox = Environment::Sandbox;
    let production = Environment::Production;
    assert_eq!(
        Endpoint::Standard.build_url(&sandbox, "/version1/messaging"),
        "https://api.sandbox.africastalking.com/version1/messaging"
    );
    assert_eq!(
        Endpoint::MobileData.build_url(&production, "/mobile/data/request"),
        "https://bundles.africastalking.com/mobile/data/request"
    );
    assert_eq!(
        Endpoint::Voice.build_url(&production, "/call"),
        "https://voice.africastalking.com/call"
    );
    assert_eq!(
        Endpoint::Content.build_url(&sandbox, "/messaging"),
        "https://api.sandbox.africastalking.com/version1/messaging"
    );
    assert_eq!(
        Endpoint::Content.build_url(&production, "/messaging"),
        "https://content.africastalking.com/version1/messaging"
    );
}

#[test]
fn test_config_routes_paths_to_endpoints() {
    let config = Config::new("key", "user");
    assert_eq!(
        config.build_url("/version1/messaging"),
        "https://api.sandbox.africastalking.com/version1/messaging"
    );
    assert_eq!(
        config.build_url("/mobile/data/request"),
        "https://bundles.sandbox.africastalking.com/mobile/data/request"
    );
    let production = Config::new("key", "user").environment(Environment::Production);
    assert_eq!(
        production.build_url("/voice/call"),
        "https://voice.africastalking.com/voice/call"
    );
}

#[test]
fn test_config_defaults_and_builders() {
    let config = Config::new("key", "user")
        .environment(Environment::Production)
        .timeout(60)
        .max_retries(5)
        .user_agent("custom-agent");
    assert_eq!(config.api_key, "key");
    assert_eq!(config.username, "user");
    assert_eq!(config.environment, Environment::Production);
    assert_eq!(config.timeout, 60);
    assert_eq!(config.max_retries, 5);
    assert_eq!(config.user_agent.as_deref(), Some("custom-agent"));

    let defaults = Config::new("key", "user");
    assert_eq!(defaults.environment, Environment::Sandbox);
    assert_eq!(defaults.timeout, 30);
    assert_eq!(defaults.max_retries, 3);
    assert_eq!(defaults.user_agent, None);
}

#[test]
fn test_config_validation() {
    assert!(Config::new("key", "user").validate().is_ok());

    let missing_key = Config::new("", "user").validate();
    assert_eq!(
        missing_key,
        Err(AfricasTalkingError::Config("API key cannot be empty".to_string()))
    );

    let missing_user = Config::new("key", "").validate();
    assert_eq!(
        missing_user,
        Err(AfricasTalkingError::Config("Username cannot be empty".to_string()))
    );

    let zero_timeout = Config::new("key", "user").timeout(0).validate();
    assert_eq!(
        zero_timeout,
        Err(AfricasTalkingError::Config("Timeout must be greater than 0".to_string()))
    );
}

#[test]
fn test_error_constructors_and_retryability() {
    let api = AfricasTalkingError::api_error(
        "bad request".to_string(),
        "400".to_string(),
        Some("more".to_string()),
    );
    assert_eq!(
        api,
        AfricasTalkingError::Api {
            message: "bad request".to_string(),
            code: "400".to_string(),
            more_info: Some("more".to_string()),
        }
    );
    assert!(!api.is_retryable());

    assert_eq!(
        AfricasTalkingError::validation("too long"),
        AfricasTalkingError::Validation("too long".to_string())
    );

    assert!(AfricasTalkingError::Http("connection reset".to_string()).is_retryable());
    assert!(AfricasTalkingError::Timeout.is_retryable());
    assert!(AfricasTalkingError::RateLimit { retry_after: 60 }.is_retryable());
    assert!(!AfricasTalkingError::Validation("bad".to_string()).is_retryable());
    assert!(!AfricasTalkingError::Config("bad".to_string()).is_retryable());
}

#[test]
fn test_currency_codes() {
    assert_eq!(Currency::Kes.as_str(), "KES");
    assert_eq!(Currency::Usd.as_str(), "USD");
    assert_eq!(Currency::Ugx.as_str(), "UGX");
    assert_eq!(Currency::Tzs.as_str(), "TZS");
    assert_eq!(Currency::Rwf.as_str(), "RWF");
    assert_eq!(Currency::Zmw.as_str(), "ZMW");
    assert_eq!(Currency::Ngn.as_str(), "NGN");
    assert_eq!(Currency::Ghs.as_str(), "GHS");
}

#[test]
fn test_phone_number_constructors() {
    let plain = PhoneNumber::new("+254700000000");
    assert_eq!(plain.number, "+254700000000");
    assert_eq!(plain.country_code, None);

    let with_code = PhoneNumber::with_country_code("700000000", "254");
    assert_eq!(with_code.number, "700000000");
    assert_eq!(with_code.country_code.as_deref(), Some("254"));
}

#[test]
fn test_airtime_recipient_uses_currency_code() {
    let recipient = AirtimeRecipient::new("+254711000000", "100", Currency::Kes);
    assert_eq!(recipient.phone_number, "+254711000000");
    assert_eq!(recipient.currency_code, "KES");
    assert_eq!(recipient.amount, "100");
}

#[test]
fn test_data_labels() {
    assert_eq!(DataValidity::Day.as_str(), "Day");
    assert_eq!(DataValidity::Week.as_str(), "Week");
    assert_eq!(DataValidity::Month.as_str(), "Month");
    assert_eq!(DataUnits::MB.as_str(), "MB");
    assert_eq!(DataUnits::GB.as_str(), "GB");
}

#[test]
fn test_send_sms_request_builder() {
    let request = SendSmsRequest::new(
        vec!["+254711000000".to_string(), "+254722000000".to_string()],
        "hello",
    );
    assert_eq!(request.to, "+254711000000+254722000000");
    assert_eq!(request.message, "hello");
    assert_eq!(request.from, None);
    assert_eq!(request.bulk_sms_mode, None);

    let bulk = SendSmsRequest::new(vec!["+254711000000".to_string()], "hello")
        .from("SENDER")
        .bulk_mode(true);
    assert_eq!(bulk.from.as_deref(), Some("SENDER"));
    assert_eq!(bulk.bulk_sms_mode, Some(1));

    let premium = SendSmsRequest::new(vec!["+254711000000".to_string()], "hello")
        .bulk_mode(false);
    assert_eq!(premium.bulk_sms_mode, Some(0));
}

#[test]
fn test_make_call_request_joins_recipients() {
    let request = MakeCallRequest::new(
        "+254711XXXYYY",
        vec!["+254722XXXYYY".to_string(), "+254733XXXYYY".to_string()],
    )
    .with_client_request_id("request-123");
    assert_eq!(request.username, "");
    assert_eq!(request.call_from, "+254711XXXYYY");
    assert_eq!(request.call_to, "+254722XXXYYY,+254733XXXYYY");
    assert_eq!(request.client_request_id.as_deref(), Some("request-123"));
}

#[test]
fn test_queue_and_media_requests() {
    let queue = QueueStatusRequest::new(vec!["+254711XXXYYY".to_string()]);
    assert_eq!(queue.username, "");
    assert_eq!(queue.phone_numbers, vec!["+254711XXXYYY".to_string()]);

    let upload = UploadMediaRequest::new("https://example.com/audio.mp3", "+254711XXXYYY");
    assert_eq!(upload.username, "");
    assert_eq!(upload.url, "https://example.com/audio.mp3");
    assert_eq!(upload.phone_number, "+254711XXXYYY");
}

#[test]
fn test_wallet_transactions_query_encoding() {
    let request = WalletTransactionsRequest {
        page: Some(2),
        per_page: Some(50),
        start_date: Some("2024-01-01".to_string()),
        end_date: None,
    };
    assert_eq!(
        request.transactions_query().unwrap(),
        "/version1/payments/transactions?page=2&perPage=50&startDate=2024-01-01"
    );

    let empty = WalletTransactionsRequest {
        page: None,
        per_page: None,
        start_date: None,
        end_date: None,
    };
    assert_eq!(
        empty.transactions_query().unwrap(),
        "/version1/payments/transactions?"
    );

    let escaped = WalletTransactionsRequest {
        page: None,
        per_page: None,
        start_date: Some("2024-01-01 00:00".to_string()),
        end_date: None,
    };
    assert_eq!(
        escaped.transactions_query().unwrap(),
        "/version1/payments/transactions?startDate=2024-01-01+00%3A00"
    );
}
