use hyperswitch_connectors::domain::{
    AttemptStatus, CaptureMethod, ConnectorAuthType, ConnectorError, ConnectorMetadata,
    ConnectorParams, Connectors, CryptoError, CurrencyUnit, IncomingWebhookEvent, Method,
    ObjectReferenceId, PaymentIdType, PaymentMethod, PaymentMethodData, PaymentMethodType,
    PaymentsAuthorizeRouterData,
    PaymentsSyncRouterData, RefundIdType, RefundsRouterData, ResponseId,
};
use hyperswitch_connectors::peach::specifications::{
    ConnectorCategory, ConnectorIntegrationStatus, EventClass, FeatureStatus,
};
use hyperswitch_connectors::peach::transformers::{
    ApmResult, PeachApmPaymentType, PeachpaymentsApmErrorResponse, PeachpaymentsApmWebhook,
};
use hyperswitch_connectors::peach::{decrypt_apm_webhook_payload, Peachpaymentsapm};
use ring::aead;

fn encrypt_for_test(
    algorithm: &'static aead::Algorithm,
    key_bytes: &[u8],
    iv_bytes: [u8; aead::NONCE_LEN],
    plaintext: &[u8],
) -> (Vec<u8>, Vec<u8>) {
    let unbound_key = aead::UnboundKey::new(algorithm, key_bytes).expect("failed to create key");
    let sealing_key = aead::LessSafeKey::new(unbound_key);
    let nonce = aead::Nonce::assume_unique_for_key(iv_bytes);
    let mut ciphertext = plaintext.to_vec();
    let tag = sealing_key
        .seal_in_place_separate_tag(nonce, aead::Aad::empty(), &mut ciphertext)
        .expect("failed to encrypt");
    (ciphertext, tag.as_ref().to_vec())
}

const WEBHOOK_JSON: &[u8] = br#"{"id":"8ac7a4a09c8b9c8e019c8ba47c0000aa","paymentType":"DB","result":{"code":"000.000.000","description":"Transaction succeeded"}}"#;

#[test]
fn test_decrypt_apm_webhook_payload_aes_128_round_trip() {
    let key_bytes = [0x42_u8; 16];
    let iv_bytes = [0x24_u8; aead::NONCE_LEN];
    let (ciphertext, tag) = encrypt_for_test(&aead::AES_128_GCM, &key_bytes, iv_bytes, WEBHOOK_JSON);
    let decrypted = decrypt_apm_webhook_payload(
        &hex::encode(key_bytes),
        &hex::encode(iv_bytes),
        &hex::encode(tag),
        &hex::encode(&ciphertext),
    )
    .expect("failed to decrypt");
    assert_eq!(decrypted, WEBHOOK_JSON);
}

#[test]
fn test_decrypt_apm_webhook_payload_aes_256_round_trip() {
    let key_bytes = [0x42_u8; 32];
    let iv_bytes = [0x24_u8; aead::NONCE_LEN];
    let (ciphertext, tag) = encrypt_for_test(&aead::AES_256_GCM, &key_bytes, iv_bytes, WEBHOOK_JSON);
    let decrypted = decrypt_apm_webhook_payload(
        &hex::encode(key_bytes),
        &hex::encode(iv_bytes),
        &hex::encode(tag),
        &hex::encode(&ciphertext),
    )
    .expect("failed to decrypt");
    assert_eq!(decrypted, WEBHOOK_JSON);
}

#[test]
fn test_decrypt_apm_webhook_payload_rejects_wrong_key() {
    let key_bytes = [0x42_u8; 32];
    let wrong_key_bytes = [0x43_u8; 32];
    let iv_bytes = [0x24_u8; aead::NONCE_LEN];
    let (ciphertext, tag) = encrypt_for_test(&aead::AES_256_GCM, &key_bytes, iv_bytes, b"payload");
    assert!(decrypt_apm_webhook_payload(
        &hex::encode(wrong_key_bytes),
        &hex::encode(iv_bytes),
        &hex::encode(tag),
        &hex::encode(&ciphertext),
    )
    .is_err());
}

#[test]
fn decrypt_payload_reports_each_error() {
    let key = hex::encode([0x42_u8; 16]);
    let iv = hex::encode([0x24_u8; 12]);
    let tag = hex::encode([0x11_u8; 16]);
    assert_eq!(decrypt_apm_webhook_payload("zz", &iv, &tag, "00"), Err(CryptoError::DecodingFailed));
    assert_eq!(decrypt_apm_webhook_payload(&key, &iv, &tag, "abc"), Err(CryptoError::DecodingFailed));
    assert_eq!(
        decrypt_apm_webhook_payload(&hex::encode([1_u8; 24]), &iv, &tag, "00"),
        Err(CryptoError::InvalidKeyLength)
    );
    assert_eq!(
        decrypt_apm_webhook_payload(&key, &hex::encode([1_u8; 16]), &tag, "00"),
        Err(CryptoError::InvalidIvLength)
    );
    assert_eq!(
        decrypt_apm_webhook_payload(&key, &iv, &hex::encode([1_u8; 12]), "00"),
        Err(CryptoError::InvalidTagLength)
    );
    assert_eq!(decrypt_apm_webhook_payload(&key, &iv, &tag, "00"), Err(CryptoError::DecodingFailed));
}

#[test]
fn decrypt_webhook_reads_raw_and_wrapped_bodies() {
    let connector = Peachpaymentsapm::new();
    let key_bytes = [0x42_u8; 16];
    let iv_bytes = [0x24_u8; aead::NONCE_LEN];
    let (ciphertext, tag) = encrypt_for_test(&aead::AES_128_GCM, &key_bytes, iv_bytes, WEBHOOK_JSON);
    let secret = hex::encode(key_bytes);
    let iv = hex::encode(iv_bytes);
    let tag = hex::encode(tag);
    let body_hex = format!("  {}\n", hex::encode(&ciphertext));

    let raw = connector
        .decrypt_apm_webhook(secret.as_bytes(), Some(&iv), Some(&tag), body_hex.as_bytes(), None)
        .unwrap();
    assert_eq!(raw, WEBHOOK_JSON);

    let wrapped = connector
        .decrypt_apm_webhook(
            secret.as_bytes(),
            Some(&iv),
            Some(&tag),
            b"{\"encryptedBody\":\"...\"}",
            Some(hex::encode(&ciphertext)),
        )
        .unwrap();
    assert_eq!(wrapped, WEBHOOK_JSON);

    assert!(matches!(
        connector.decrypt_apm_webhook(&[0xff, 0xfe], Some(&iv), Some(&tag), body_hex.as_bytes(), None),
        Err(ConnectorError::WebhookVerificationSecretInvalid)
    ));
    assert!(matches!(
        connector.decrypt_apm_webhook(secret.as_bytes(), None, Some(&tag), body_hex.as_bytes(), None),
        Err(ConnectorError::WebhookBodyDecodingFailed)
    ));
    assert!(matches!(
        connector.decrypt_apm_webhook(secret.as_bytes(), Some(&iv), Some(&tag), &[0xff], None),
        Err(ConnectorError::WebhookBodyDecodingFailed)
    ));
    let wrong_secret = hex::encode([0x43_u8; 16]);
    assert!(matches!(
        connector.decrypt_apm_webhook(wrong_secret.as_bytes(), Some(&iv), Some(&tag), body_hex.as_bytes(), None),
        Err(ConnectorError::WebhookBodyDecodingFailed)
    ));

    assert!(connector.verify_webhook_source(
        secret.as_bytes(),
        Some(&iv),
        Some(&tag),
        body_hex.as_bytes(),
        None,
        false
    ));
    assert!(!connector.verify_webhook_source(
        wrong_secret.as_bytes(),
        Some(&iv),
        Some(&tag),
        body_hex.as_bytes(),
        None,
        false
    ));
    assert!(connector.verify_webhook_source(wrong_secret.as_bytes(), None, None, WEBHOOK_JSON, None, true));
}

fn webhook(payment_type: Option<PeachApmPaymentType>, code: &str) -> PeachpaymentsApmWebhook {
    PeachpaymentsApmWebhook {
        id: "8ac7a4a09c8b9c8e019c8ba47c0000aa".to_string(),
        payment_type,
        payment_brand: None,
        merchant_transaction_id: None,
        currency: None,
        result: ApmResult { code: code.to_string(), description: None, parameter_errors: None },
        timestamp: None,
    }
}

#[test]
fn webhook_events_follow_result_codes() {
    let connector = Peachpaymentsapm::new();
    let db = Some(PeachApmPaymentType::DB);
    let rf = Some(PeachApmPaymentType::RF);
    let cases = [
        (db, "000.000.000", IncomingWebhookEvent::PaymentIntentSuccess),
        (None, "000.100.110", IncomingWebhookEvent::PaymentIntentSuccess),
        (db, "000.200.000", IncomingWebhookEvent::PaymentIntentProcessing),
        (db, "800.100.152", IncomingWebhookEvent::PaymentIntentFailure),
        (db, "000.400.000", IncomingWebhookEvent::EventNotSupported),
        (rf, "000.000.000", IncomingWebhookEvent::RefundSuccess),
        (rf, "000.200.000", IncomingWebhookEvent::EventNotSupported),
        (rf, "900.100.300", IncomingWebhookEvent::RefundFailure),
        (rf, "000.400.000", IncomingWebhookEvent::EventNotSupported),
    ];
    for (payment_type, code, expected) in cases {
        assert_eq!(connector.get_webhook_event_type(&webhook(payment_type, code)), expected, "{}", code);
    }
}

#[test]
fn webhook_object_reference() {
    let connector = Peachpaymentsapm::new();
    match connector.get_webhook_object_reference_id(&webhook(Some(PeachApmPaymentType::RF), "000.000.000")) {
        ObjectReferenceId::RefundId(RefundIdType::ConnectorRefundId(id)) => {
            assert_eq!(id, "8ac7a4a09c8b9c8e019c8ba47c0000aa")
        }
        other => panic!("unexpected {:?}", other),
    }
    match connector.get_webhook_object_reference_id(&webhook(None, "000.000.000")) {
        ObjectReferenceId::PaymentId(PaymentIdType::ConnectorTransactionId(id)) => {
            assert_eq!(id, "8ac7a4a09c8b9c8e019c8ba47c0000aa")
        }
        other => panic!("unexpected {:?}", other),
    }
}

#[test]
fn error_response_for_rate_limit_parsed_and_raw_bodies() {
    let connector = Peachpaymentsapm::new();
    let limited = connector.build_error_response(429, b"slow down", None);
    assert_eq!(limited.code, "RATE_LIMITED");
    assert_eq!(limited.attempt_status, Some(AttemptStatus::Pending));
    assert_eq!(limited.status_code, 429);

    let parsed = PeachpaymentsApmErrorResponse {
        result: ApmResult {
            code: "200.300.404".to_string(),
            description: Some("invalid or missing parameter".to_string()),
            parameter_errors: None,
        },
        id: Some("id_9".to_string()),
        merchant_transaction_id: None,
    };
    let error = connector.build_error_response(400, b"{}", Some(parsed));
    assert_eq!(error.code, "200.300.404");
    assert_eq!(error.message, "invalid or missing parameter");
    assert_eq!(error.reason.as_deref(), Some("invalid or missing parameter"));
    assert_eq!(error.attempt_status, Some(AttemptStatus::Failure));
    assert_eq!(error.connector_transaction_id.as_deref(), Some("id_9"));

    let raw = connector.build_error_response(502, b"Bad \xffGateway", None);
    assert_eq!(raw.code, "No error code");
    assert_eq!(raw.message, "No error message");
    assert_eq!(raw.reason.as_deref(), Some("Bad \u{fffd}Gateway"));
    assert!(raw.attempt_status.is_none());
}

fn connectors() -> Connectors {
    Connectors {
        peachpaymentsapm: ConnectorParams { base_url: "https://testapi-v2.peachpayments.com".to_string() },
    }
}

fn body_key() -> ConnectorAuthType {
    ConnectorAuthType::BodyKey { api_key: "user id".to_string(), key1: "p&ss".to_string() }
}

#[test]
fn status_url_carries_authentication_query() {
    let connector = Peachpaymentsapm::new();
    let url = connector
        .build_apm_status_url(
            &connectors(),
            "txn_1",
            &body_key(),
            &Some(ConnectorMetadata { entity_id: "entity_1".to_string() }),
        )
        .unwrap();
    assert_eq!(
        url,
        "https://testapi-v2.peachpayments.com/payments/txn_1?authentication.entityId=entity_1&authentication.userId=user+id&authentication.password=p%26ss"
    );
    assert!(matches!(
        connector.build_apm_status_url(&connectors(), "txn_1", &body_key(), &None),
        Err(ConnectorError::InvalidConnectorConfig { config: "metadata" })
    ));
    let bad_base = Connectors { peachpaymentsapm: ConnectorParams { base_url: "not a url".to_string() } };
    assert!(matches!(
        connector.build_apm_status_url(
            &bad_base,
            "txn_1",
            &body_key(),
            &Some(ConnectorMetadata { entity_id: "e".to_string() })
        ),
        Err(ConnectorError::RequestEncodingFailed)
    ));
}

#[test]
fn flow_requests_and_urls() {
    let connector = Peachpaymentsapm::new();
    assert_eq!(connector.id(), "peachpaymentsapm");
    assert_eq!(connector.get_currency_unit(), CurrencyUnit::Base);
    assert_eq!(connector.common_get_content_type(), "application/json");
    let headers = connector.build_headers();
    assert_eq!(headers, vec![("Content-Type".to_string(), "application/json".to_string())]);
    assert!(connector.get_auth_header(&body_key()).is_empty());

    let sync = PaymentsSyncRouterData {
        connector_transaction_id: ResponseId::ConnectorTransactionId("txn_2".to_string()),
        connector_auth_type: body_key(),
        connector_meta_data: Some(ConnectorMetadata { entity_id: "e".to_string() }),
    };
    let request = connector.build_sync_request(&sync, &connectors()).unwrap();
    assert_eq!(request.method, Method::Get);
    assert!(request.url.starts_with("https://testapi-v2.peachpayments.com/payments/txn_2?"));
    let no_id = PaymentsSyncRouterData { connector_transaction_id: ResponseId::NoResponseId, ..sync };
    assert!(matches!(
        connector.sync_url(&no_id, &connectors()),
        Err(ConnectorError::MissingConnectorTransactionID)
    ));

    let refund = RefundsRouterData {
        minor_refund_amount: 100,
        currency: "ZAR".to_string(),
        connector_transaction_id: "txn_3".to_string(),
        connector_refund_id: None,
        connector_auth_type: body_key(),
        connector_meta_data: Some(ConnectorMetadata { entity_id: "e".to_string() }),
    };
    let request = connector.build_refund_request(&refund, &connectors()).unwrap();
    assert_eq!(request.method, Method::Post);
    assert_eq!(request.url, "https://testapi-v2.peachpayments.com/payments/txn_3");
    assert!(matches!(
        connector.build_refund_sync_request(&refund, &connectors()),
        Err(ConnectorError::MissingConnectorTransactionID)
    ));
    let refund = RefundsRouterData { connector_refund_id: Some("rf_1".to_string()), ..refund };
    let request = connector.build_refund_sync_request(&refund, &connectors()).unwrap();
    assert!(request.url.starts_with("https://testapi-v2.peachpayments.com/payments/rf_1?"));

    assert!(matches!(
        connector.build_capture_request(),
        Err(ConnectorError::FlowNotSupported { .. })
    ));
    assert!(matches!(connector.build_void_request(), Err(ConnectorError::FlowNotSupported { .. })));
    assert!(matches!(connector.build_setup_mandate_request(), Err(ConnectorError::NotImplemented(_))));
}

#[test]
fn authorize_url_requires_automatic_capture() {
    let connector = Peachpaymentsapm::new();
    let mut data = PaymentsAuthorizeRouterData {
        payment_method_data: PaymentMethodData::Crypto,
        payment_method_type: None,
        capture_method: None,
        minor_amount: 1,
        currency: "ZAR".to_string(),
        email: None,
        billing: None,
        shipping: None,
        customer_id: None,
        browser_info: None,
        order_details: None,
        router_return_url: None,
        webhook_url: None,
        merchant_order_reference_id: None,
        connector_request_reference_id: "r".to_string(),
        preprocessing_id: None,
        test_mode: None,
        connector_auth_type: body_key(),
        connector_meta_data: None,
    };
    let request = connector.build_authorize_request(&data, &connectors()).unwrap();
    assert_eq!(request.url, "https://testapi-v2.peachpayments.com/payments");
    assert_eq!(request.method, Method::Post);
    data.capture_method = Some(CaptureMethod::Manual);
    assert!(matches!(
        connector.authorize_url(&data, &connectors()),
        Err(ConnectorError::CaptureMethodNotSupported)
    ));
}

#[test]
fn connector_specifications() {
    let connector = Peachpaymentsapm::new();
    let methods = connector.get_supported_payment_methods();
    assert_eq!(methods.len(), 18);
    assert_eq!(methods[0].payment_method, PaymentMethod::BankTransfer);
    assert_eq!(methods[0].payment_method_type, PaymentMethodType::CapitecPay);
    assert_eq!(methods[16].payment_method, PaymentMethod::Voucher);
    assert_eq!(methods[16].payment_method_type, PaymentMethodType::OneForYou);
    assert_eq!(methods[17].payment_method, PaymentMethod::Crypto);
    assert_eq!(methods[17].payment_method_type, PaymentMethodType::MoneyBadger);
    for (i, m) in methods.iter().enumerate() {
        assert_eq!(m.details.mandates, FeatureStatus::NotSupported);
        assert_eq!(m.details.refunds, FeatureStatus::Supported);
        assert_eq!(m.details.supported_capture_methods, vec![CaptureMethod::Automatic]);
        for other in &methods[i + 1..] {
            assert_ne!(m.payment_method_type, other.payment_method_type);
        }
    }
    assert_eq!(
        connector.get_supported_webhook_flows(),
        vec![EventClass::Payments, EventClass::Refunds]
    );
    let about = connector.get_connector_about();
    assert_eq!(about.display_name, "Peach Payments APM");
    assert_eq!(about.connector_type, ConnectorCategory::PaymentGateway);
    assert_eq!(about.integration_status, ConnectorIntegrationStatus::Live);
}

#[test]
fn reference_ids_are_sixteen_alphanumerics() {
    let connector = Peachpaymentsapm::new();
    let random = [0, 25, 26, 51, 52, 61, 62, 63, u64::MAX, 1, 2, 3, 4, 5, 6, 7];
    let id = connector.generate_connector_request_reference_id(random);
    assert_eq!(id, "AZaz09ABPBCDEFGH");
    assert_eq!(id.len(), 16);
    assert!(id.chars().all(|c| c.is_ascii_alphanumeric()));
}

#[test]
fn psync_reference_is_always_valid() {
    let connector = Peachpaymentsapm::new();
    assert!(connector.validate_psync_reference_id(AttemptStatus::Pending).is_ok());
    assert!(connector.validate_psync_reference_id(AttemptStatus::Failure).is_ok());
}
