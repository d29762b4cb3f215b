use hyperswitch_connectors::domain::{
    Address, AddressDetails, ConnectorAuthType, ConnectorError, PaymentMethodData,
    PaymentMethodType, PaymentsAuthorizeRouterData, PhoneDetails, WalletData,
};
use hyperswitch_connectors::paydunya::authorize::{
    billing_customer_address, CommonAuthorizeFields, PaydunyaPaymentsRequest, PaydunyaRouterData,
};

fn address(country: &str, city: Option<&str>, line1: Option<&str>) -> AddressDetails {
    AddressDetails {
        city: city.map(str::to_string),
        country: Some(country.to_string()),
        line1: line1.map(str::to_string),
        line2: None,
        zip: None,
        state: None,
        first_name: Some("Awa".to_string()),
        last_name: Some("Ndiaye".to_string()),
    }
}

fn router_data(
    pm_type: PaymentMethodType,
    pm_data: PaymentMethodData,
    billing: Option<AddressDetails>,
) -> PaymentsAuthorizeRouterData {
    PaymentsAuthorizeRouterData {
        payment_method_data: pm_data,
        payment_method_type: Some(pm_type),
        capture_method: None,
        minor_amount: 1000,
        currency: "XOF".to_string(),
        email: Some("awa@example.com".to_string()),
        billing: Some(Address {
            address: billing,
            phone: Some(PhoneDetails {
                number: Some("770000000".to_string()),
                country_code: Some("+221".to_string()),
            }),
            email: None,
        }),
        shipping: None,
        customer_id: None,
        browser_info: None,
        order_details: None,
        router_return_url: None,
        webhook_url: None,
        merchant_order_reference_id: None,
        connector_request_reference_id: "ref".to_string(),
        preprocessing_id: Some("tok_invoice".to_string()),
        test_mode: None,
        connector_auth_type: ConnectorAuthType::NoKey,
        connector_meta_data: None,
    }
}

fn build(data: &PaymentsAuthorizeRouterData) -> Result<PaydunyaPaymentsRequest, ConnectorError> {
    PaydunyaPaymentsRequest::try_from_router_data(&PaydunyaRouterData::new(data.minor_amount, data))
}

#[test]
fn wave_senegal_request_carries_common_fields() {
    let data = router_data(
        PaymentMethodType::Wave,
        PaymentMethodData::Wallet(WalletData::MomoRedirect),
        Some(address("SN", None, None)),
    );
    match build(&data).unwrap() {
        PaydunyaPaymentsRequest::WaveSenegal(q) => {
            assert_eq!(q.wave_senegal_full_name, "Awa Ndiaye");
            assert_eq!(q.wave_senegal_email, "awa@example.com");
            assert_eq!(q.wave_senegal_phone, "+221770000000");
            assert_eq!(q.wave_senegal_payment_token, "tok_invoice");
        }
        other => panic!("unexpected {:?}", other),
    }
}

#[test]
fn mtn_request_carries_wallet_provider() {
    let data = router_data(
        PaymentMethodType::Momo,
        PaymentMethodData::Wallet(WalletData::MomoRedirect),
        Some(address("CM", None, None)),
    );
    match build(&data).unwrap() {
        PaydunyaPaymentsRequest::MtnCameroun(q) => {
            assert_eq!(q.mtn_cameroun_wallet_provider, "MTNCAMEROUN");
            assert_eq!(q.payment_token, "tok_invoice");
        }
        other => panic!("unexpected {:?}", other),
    }
}

#[test]
fn djamo_request_carries_code_country() {
    let data = router_data(
        PaymentMethodType::Djamo,
        PaymentMethodData::Wallet(WalletData::MomoRedirect),
        Some(address("SN", None, None)),
    );
    match build(&data).unwrap() {
        PaydunyaPaymentsRequest::Djamo(q) => {
            assert_eq!(q.code_country, "sn");
            assert_eq!(q.djamo_payment_token, "tok_invoice");
        }
        other => panic!("unexpected {:?}", other),
    }
}

#[test]
fn moov_mali_request_uses_city_then_line1_as_address() {
    let data = router_data(
        PaymentMethodType::MoovMoney,
        PaymentMethodData::Wallet(WalletData::MomoRedirect),
        Some(address("ML", Some("Bamako"), Some("Rue 1"))),
    );
    match build(&data).unwrap() {
        PaydunyaPaymentsRequest::MoovMali(q) => assert_eq!(q.moov_ml_customer_address, "Bamako"),
        other => panic!("unexpected {:?}", other),
    }
    let data = router_data(
        PaymentMethodType::OrangeMoney,
        PaymentMethodData::Wallet(WalletData::MomoRedirect),
        Some(address("ML", None, Some("Rue 1"))),
    );
    match build(&data).unwrap() {
        PaydunyaPaymentsRequest::OrangeMoneyMali(q) => {
            assert_eq!(q.orange_money_mali_customer_address, "Rue 1")
        }
        other => panic!("unexpected {:?}", other),
    }
    let data = router_data(
        PaymentMethodType::MoovMoney,
        PaymentMethodData::Wallet(WalletData::MomoRedirect),
        Some(address("TG", None, None)),
    );
    assert!(matches!(
        build(&data),
        Err(ConnectorError::MissingRequiredField { field_name: "address.line1" })
    ));
}

#[test]
fn orange_money_ci_requires_otp() {
    let data = router_data(
        PaymentMethodType::OrangeMoney,
        PaymentMethodData::Wallet(WalletData::OrangeMoneyRedirect { otp: Some("8562".to_string()) }),
        Some(address("CI", None, None)),
    );
    match build(&data).unwrap() {
        PaydunyaPaymentsRequest::OrangeMoneyCi(q) => assert_eq!(q.orange_money_ci_otp, "8562"),
        other => panic!("unexpected {:?}", other),
    }
    let data = router_data(
        PaymentMethodType::OrangeMoney,
        PaymentMethodData::Wallet(WalletData::OrangeMoneyRedirect { otp: None }),
        Some(address("BF", None, None)),
    );
    assert!(matches!(
        build(&data),
        Err(ConnectorError::MissingRequiredField {
            field_name: "payment_method_data.wallet.orange_money_redirect.otp"
        })
    ));
}

#[test]
fn orange_money_senegal_sends_invoice_token() {
    let data = router_data(
        PaymentMethodType::OrangeMoney,
        PaymentMethodData::Wallet(WalletData::OrangeMoneyRedirect { otp: None }),
        Some(address("SN", None, None)),
    );
    match build(&data).unwrap() {
        PaydunyaPaymentsRequest::OrangeMoneySenegal(q) => {
            assert_eq!(q.customer_name, "Awa Ndiaye");
            assert_eq!(q.invoice_token, "tok_invoice");
        }
        other => panic!("unexpected {:?}", other),
    }
}

#[test]
fn authorize_without_invoice_token_fails() {
    let mut data = router_data(
        PaymentMethodType::Wave,
        PaymentMethodData::Wallet(WalletData::MomoRedirect),
        Some(address("CI", None, None)),
    );
    data.preprocessing_id = None;
    match build(&data) {
        Err(ConnectorError::MissingConnectorRelatedTransactionID { id }) => {
            assert_eq!(id, "payment_token (paydunya invoice token from preprocessing)")
        }
        other => panic!("unexpected {:?}", other),
    }
}

#[test]
fn authorize_without_billing_address_fails_operator_resolution() {
    let data = router_data(
        PaymentMethodType::Wave,
        PaymentMethodData::Wallet(WalletData::MomoRedirect),
        None,
    );
    assert!(matches!(build(&data), Err(ConnectorError::NotImplemented(_))));
}

#[test]
fn common_fields_report_missing_billing_address_and_email() {
    let data = router_data(
        PaymentMethodType::Momo,
        PaymentMethodData::Wallet(WalletData::MomoRedirect),
        None,
    );
    let item = PaydunyaRouterData::new(1000, &data);
    assert!(matches!(
        CommonAuthorizeFields::try_from_router_data(&item),
        Err(ConnectorError::MissingRequiredField { field_name: "billing.address" })
    ));
    assert!(matches!(
        build(&data),
        Err(ConnectorError::MissingRequiredField { field_name: "billing.address" })
    ));
    let mut data = router_data(
        PaymentMethodType::Momo,
        PaymentMethodData::Wallet(WalletData::MomoRedirect),
        Some(address("BJ", None, None)),
    );
    data.email = None;
    assert!(matches!(
        build(&data),
        Err(ConnectorError::MissingRequiredField { field_name: "email" })
    ));
}

#[test]
fn billing_customer_address_requires_billing_address() {
    let data = router_data(
        PaymentMethodType::MoovMoney,
        PaymentMethodData::Wallet(WalletData::MomoRedirect),
        None,
    );
    let item = PaydunyaRouterData::new(1000, &data);
    assert!(matches!(
        billing_customer_address(&item),
        Err(ConnectorError::MissingRequiredField { field_name: "billing.address" })
    ));
}

#[test]
fn full_name_joins_and_trims() {
    let mut a = address("SN", None, None);
    assert_eq!(a.get_full_name().unwrap(), "Awa Ndiaye");
    a.last_name = None;
    assert_eq!(a.get_full_name().unwrap(), "Awa");
    a.first_name = Some(" Awa ".to_string());
    a.last_name = Some("".to_string());
    assert_eq!(a.get_full_name().unwrap(), "Awa");
    a.first_name = None;
    assert!(matches!(
        a.get_full_name(),
        Err(ConnectorError::MissingRequiredField { field_name: "address.first_name" })
    ));
}
