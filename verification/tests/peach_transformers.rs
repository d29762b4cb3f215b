use hyperswitch_connectors::domain::{
    Address, AddressDetails, AttemptStatus, BankNames, BankTransferData, BrowserInformation,
    CapitecPayAccountType, ConnectorAuthType, ConnectorError, ConnectorMetadata, Method,
    OrderDetail, PayLaterData, PaymentMethodData, PaymentMethodType, PaymentsAuthorizeRouterData,
    PaymentsResponseData, PhoneDetails, RedirectForm, RefundStatus, RefundsRouterData, ResponseId,
    VoucherData, WalletData,
};
use hyperswitch_connectors::peach::transformers::{
    build_apm_error_reason, get_apm_brand_details, get_apm_refund_response,
    get_customer_mobile, get_hyphenated_international_phone, get_local_phone_number,
    map_apm_result_code_to_attempt_status, map_apm_result_code_to_refund_status, ApmAddress,
    ApmAuthentication, ApmBrowser, ApmParameterError, ApmRedirect, ApmRedirectMethod,
    ApmRedirectParameter, ApmResult, ApmVirtualAccountType, PayShapBank, PeachApmPaymentType,
    PeachPaymentBrand, PeachpaymentsApmPaymentsRequest, PeachpaymentsApmPaymentsResponse,
    PeachpaymentsApmRefundRequest, PeachpaymentsApmRouterData,
    PeachpaymentsapmConnectorMetadataObject,
};

#[test]
fn test_apm_result_code_to_attempt_status() {
    assert_eq!(map_apm_result_code_to_attempt_status("000.000.000"), AttemptStatus::Charged);
    assert_eq!(map_apm_result_code_to_attempt_status("000.100.110"), AttemptStatus::Charged);
    assert_eq!(
        map_apm_result_code_to_attempt_status("000.200.000"),
        AttemptStatus::AuthenticationPending
    );
    assert_eq!(map_apm_result_code_to_attempt_status("100.396.101"), AttemptStatus::Failure);
    assert_eq!(map_apm_result_code_to_attempt_status("800.100.152"), AttemptStatus::Failure);
    assert_eq!(map_apm_result_code_to_attempt_status("800.400.100"), AttemptStatus::Failure);
    assert_eq!(map_apm_result_code_to_attempt_status("900.100.300"), AttemptStatus::Failure);
    assert_eq!(map_apm_result_code_to_attempt_status("000.400.000"), AttemptStatus::Pending);
}

#[test]
fn test_apm_result_code_to_refund_status() {
    assert_eq!(map_apm_result_code_to_refund_status("000.000.000"), RefundStatus::Success);
    assert_eq!(map_apm_result_code_to_refund_status("000.200.000"), RefundStatus::Pending);
    assert_eq!(map_apm_result_code_to_refund_status("800.100.152"), RefundStatus::Failure);
}

#[test]
fn result_code_edge_cases() {
    assert_eq!(map_apm_result_code_to_attempt_status(""), AttemptStatus::Pending);
    assert_eq!(map_apm_result_code_to_attempt_status("000.100.0"), AttemptStatus::Pending);
    assert_eq!(map_apm_result_code_to_attempt_status("000.000."), AttemptStatus::Charged);
    assert_eq!(map_apm_result_code_to_attempt_status("200.300.404"), AttemptStatus::Failure);
    assert_eq!(map_apm_result_code_to_attempt_status("100"), AttemptStatus::Pending);
    assert_eq!(map_apm_result_code_to_refund_status("000.100.112"), RefundStatus::Success);
    assert_eq!(map_apm_result_code_to_refund_status("900.100.300"), RefundStatus::Failure);
    assert_eq!(map_apm_result_code_to_refund_status("000.400.000"), RefundStatus::Pending);
}

#[test]
fn payment_and_refund_statuses_agree_on_sample_codes() {
    for code in [
        "000.000.000", "000.100.110", "000.200.000", "100.396.101", "200.100.101", "800.100.152",
        "900.100.300", "000.400.000", "",
    ] {
        let attempt = map_apm_result_code_to_attempt_status(code);
        let refund = map_apm_result_code_to_refund_status(code);
        assert_eq!(attempt == AttemptStatus::Charged, refund == RefundStatus::Success, "{}", code);
        assert_eq!(attempt == AttemptStatus::Failure, refund == RefundStatus::Failure, "{}", code);
    }
}

#[test]
fn test_apm_redirect_to_redirect_form() {
    let redirect = ApmRedirect {
        url: "https://example.peachpayments.com/redirect".to_string(),
        method: Some(ApmRedirectMethod::Post),
        parameters: vec![ApmRedirectParameter {
            name: "token".to_string(),
            value: "abc123".to_string(),
        }],
    };
    match redirect.into_redirect_form() {
        RedirectForm::Form { endpoint, method, form_fields } => {
            assert_eq!(endpoint, "https://example.peachpayments.com/redirect");
            assert_eq!(method, Method::Post);
            let token = form_fields.iter().find(|(name, _)| name == "token").map(|(_, v)| v);
            assert_eq!(token, Some(&"abc123".to_string()));
        }
    }
}

#[test]
fn redirect_form_keeps_last_value_of_repeated_parameter_and_defaults_to_get() {
    let redirect = ApmRedirect {
        url: "https://r.example.com".to_string(),
        method: None,
        parameters: vec![
            ApmRedirectParameter { name: "a".to_string(), value: "1".to_string() },
            ApmRedirectParameter { name: "b".to_string(), value: "2".to_string() },
            ApmRedirectParameter { name: "a".to_string(), value: "3".to_string() },
        ],
    };
    let RedirectForm::Form { method, form_fields, .. } = redirect.into_redirect_form();
    assert_eq!(method, Method::Get);
    assert_eq!(form_fields.len(), 2);
    let value = |n: &str| form_fields.iter().find(|(name, _)| name == n).map(|(_, v)| v.clone());
    assert_eq!(value("a").as_deref(), Some("3"));
    assert_eq!(value("b").as_deref(), Some("2"));
}

#[test]
fn test_apm_browser_from_browser_information() {
    let browser_info = BrowserInformation {
        color_depth: Some(24),
        java_enabled: Some(false),
        java_script_enabled: Some(true),
        language: Some("EN".to_string()),
        screen_height: Some(1080),
        screen_width: Some(1920),
        time_zone: Some(30),
        ip_address: None,
        accept_header: Some("application/json".to_string()),
        user_agent: Some("Mozilla/5.0".to_string()),
    };
    let browser = ApmBrowser::from_browser_information(&browser_info);
    assert_eq!(browser.screen_height.as_deref(), Some("1080"));
    assert_eq!(browser.screen_width.as_deref(), Some("1920"));
    assert_eq!(browser.javascript_enabled.as_deref(), Some("true"));
    assert_eq!(browser.java_enabled.as_deref(), Some("false"));
    assert_eq!(browser.screen_color_depth.as_deref(), Some("24"));
    assert_eq!(browser.timezone.as_deref(), Some("30"));
}

#[test]
fn browser_renders_negative_time_zone_and_extremes() {
    let browser_info = BrowserInformation {
        color_depth: Some(0),
        java_enabled: None,
        java_script_enabled: None,
        language: None,
        screen_height: Some(u32::MAX),
        screen_width: None,
        time_zone: Some(i32::MIN),
        ip_address: None,
        accept_header: None,
        user_agent: None,
    };
    let browser = ApmBrowser::from_browser_information(&browser_info);
    assert_eq!(browser.timezone.as_deref(), Some("-2147483648"));
    assert_eq!(browser.screen_height.as_deref(), Some("4294967295"));
    assert_eq!(browser.screen_color_depth.as_deref(), Some("0"));
    assert!(browser.java_enabled.is_none());
    assert!(browser.screen_width.is_none());
}

fn result(code: &str, description: Option<&str>, errors: Option<Vec<ApmParameterError>>) -> ApmResult {
    ApmResult {
        code: code.to_string(),
        description: description.map(str::to_string),
        parameter_errors: errors,
    }
}

fn parameter_error(name: Option<&str>, message: Option<&str>) -> ApmParameterError {
    ApmParameterError {
        name: name.map(str::to_string),
        value: None,
        message: message.map(str::to_string),
    }
}

#[test]
fn error_reason_joins_description_and_parameter_errors() {
    let r = result(
        "200.300.404",
        Some("invalid or missing parameter"),
        Some(vec![
            parameter_error(Some("amount"), Some("must be positive")),
            parameter_error(None, None),
        ]),
    );
    assert_eq!(
        build_apm_error_reason(&r).as_deref(),
        Some("invalid or missing parameter - amount: must be positive, parameter: invalid")
    );
    let r = result("200.300.404", Some("declined"), None);
    assert_eq!(build_apm_error_reason(&r).as_deref(), Some("declined"));
    let r = result("200.300.404", None, Some(vec![parameter_error(Some("x"), Some("y"))]));
    assert_eq!(build_apm_error_reason(&r).as_deref(), Some("x: y"));
    let r = result("200.300.404", None, None);
    assert_eq!(build_apm_error_reason(&r), None);
    let r = result("200.300.404", Some("d"), Some(vec![]));
    assert_eq!(build_apm_error_reason(&r).as_deref(), Some("d - "));
}

#[test]
fn address_into_option_drops_empty_addresses() {
    let empty = ApmAddress {
        street1: None,
        street2: None,
        city: None,
        state: None,
        postcode: None,
        country: None,
    };
    assert!(empty.into_option().is_none());
    let city_only = ApmAddress {
        street1: None,
        street2: None,
        city: Some("Cape Town".to_string()),
        state: None,
        postcode: None,
        country: None,
    };
    assert_eq!(city_only.into_option().unwrap().city.as_deref(), Some("Cape Town"));
}

#[test]
fn payshap_banks_and_capitec_account_types() {
    assert_eq!(PayShapBank::try_from_bank(BankNames::Absa).ok(), Some(PayShapBank::AbsaBank));
    assert_eq!(PayShapBank::try_from_bank(BankNames::TymeBank).ok(), Some(PayShapBank::TymeBank));
    match PayShapBank::try_from_bank(BankNames::Investec) {
        Err(ConnectorError::NotSupported { message, connector }) => {
            assert_eq!(message, "PayShap with bank Investec");
            assert_eq!(connector, "Peachpaymentsapm");
        }
        other => panic!("unexpected {:?}", other),
    }
    assert_eq!(
        ApmVirtualAccountType::from_capitec(CapitecPayAccountType::AccountNumber),
        ApmVirtualAccountType::AccountNumber
    );
}

fn apm_router_data(pm_data: PaymentMethodData) -> PaymentsAuthorizeRouterData {
    PaymentsAuthorizeRouterData {
        payment_method_data: pm_data,
        payment_method_type: None,
        capture_method: None,
        minor_amount: 10000,
        currency: "ZAR".to_string(),
        email: Some("shopper@example.com".to_string()),
        billing: Some(Address {
            address: Some(AddressDetails {
                city: Some("Cape Town".to_string()),
                country: Some("ZA".to_string()),
                line1: Some("1 Long St".to_string()),
                line2: None,
                zip: Some("8001".to_string()),
                state: None,
                first_name: Some("Thandi".to_string()),
                last_name: Some("Mokoena".to_string()),
            }),
            phone: Some(PhoneDetails {
                number: Some("0711111200".to_string()),
                country_code: Some("+27".to_string()),
            }),
            email: Some("billing@example.com".to_string()),
        }),
        shipping: None,
        customer_id: Some("cus_1".to_string()),
        browser_info: None,
        order_details: None,
        router_return_url: Some("https://merchant.example.com/return".to_string()),
        webhook_url: None,
        merchant_order_reference_id: Some("order_1".to_string()),
        connector_request_reference_id: "Abc123Def456Gh78".to_string(),
        preprocessing_id: None,
        test_mode: Some(true),
        connector_auth_type: ConnectorAuthType::BodyKey {
            api_key: "user".to_string(),
            key1: "secret".to_string(),
        },
        connector_meta_data: Some(ConnectorMetadata { entity_id: "entity_1".to_string() }),
    }
}

#[test]
fn phone_formats() {
    let data = apm_router_data(PaymentMethodData::Crypto);
    assert_eq!(get_hyphenated_international_phone(&data).unwrap(), "+27-711111200");
    assert_eq!(get_local_phone_number(&data).unwrap(), "0711111200");
    assert_eq!(get_customer_mobile(&data).unwrap(), "27711111200");
    let mut no_phone = data.clone();
    no_phone.billing.as_mut().unwrap().phone = None;
    assert!(matches!(
        get_customer_mobile(&no_phone),
        Err(ConnectorError::MissingRequiredField { field_name: "billing.phone" })
    ));
}

#[test]
fn brand_details_per_payment_method() {
    let data = apm_router_data(PaymentMethodData::BankTransfer(BankTransferData::PayShap {
        bank: Some(BankNames::Nedbank),
    }));
    let (brand, account, card) = get_apm_brand_details(&data).unwrap();
    assert_eq!(brand, PeachPaymentBrand::PayShap);
    let account = account.unwrap();
    assert_eq!(account.account_id.as_deref(), Some("+27-711111200"));
    assert_eq!(account.bank, Some(PayShapBank::Nedbank));
    assert_eq!(account.account_type, Some(ApmVirtualAccountType::Cellphone));
    assert!(card.is_none());

    let data = apm_router_data(PaymentMethodData::BankTransfer(BankTransferData::CapitecPay {
        account_type: None,
        account_id: None,
    }));
    let (brand, account, _) = get_apm_brand_details(&data).unwrap();
    assert_eq!(brand, PeachPaymentBrand::CapitecPay);
    assert_eq!(account.unwrap().account_id.as_deref(), Some("0711111200"));

    let data = apm_router_data(PaymentMethodData::PayLater(PayLaterData::MobicredRedirect {
        password: Some("pw".to_string()),
    }));
    let (brand, account, _) = get_apm_brand_details(&data).unwrap();
    assert_eq!(brand, PeachPaymentBrand::Mobicred);
    let account = account.unwrap();
    assert_eq!(account.account_id.as_deref(), Some("billing@example.com"));
    assert_eq!(account.password.as_deref(), Some("pw"));

    let data = apm_router_data(PaymentMethodData::PayLater(PayLaterData::RcsRedirect {
        card_number: Some("6007".to_string()),
    }));
    let (brand, _, card) = get_apm_brand_details(&data).unwrap();
    assert_eq!(brand, PeachPaymentBrand::Rcs);
    assert_eq!(card.unwrap().number, "6007");

    let data = apm_router_data(PaymentMethodData::Wallet(WalletData::MpesaRedirect));
    let (brand, account, _) = get_apm_brand_details(&data).unwrap();
    assert_eq!(brand, PeachPaymentBrand::Mpesa);
    assert_eq!(account.unwrap().account_id.as_deref(), Some("27711111200"));

    let mut data = apm_router_data(PaymentMethodData::Crypto);
    data.payment_method_type = Some(PaymentMethodType::MoneyBadger);
    assert_eq!(get_apm_brand_details(&data).unwrap().0, PeachPaymentBrand::MoneyBadger);
}

#[test]
fn brand_details_errors() {
    let data = apm_router_data(PaymentMethodData::BankTransfer(BankTransferData::PayShap {
        bank: None,
    }));
    assert!(matches!(
        get_apm_brand_details(&data),
        Err(ConnectorError::MissingRequiredField {
            field_name: "payment_method_data.bank_transfer.pay_shap.bank"
        })
    ));
    let data = apm_router_data(PaymentMethodData::Voucher(VoucherData::OneForYou {
        voucher_pin: None,
    }));
    assert!(matches!(
        get_apm_brand_details(&data),
        Err(ConnectorError::MissingRequiredField {
            field_name: "payment_method_data.voucher.one_for_you.voucher_pin"
        })
    ));
    let data = apm_router_data(PaymentMethodData::Card);
    match get_apm_brand_details(&data) {
        Err(ConnectorError::NotImplemented(message)) => {
            assert_eq!(message, "Selected payment method through Peachpaymentsapm")
        }
        other => panic!("unexpected {:?}", other),
    }
    let data = apm_router_data(PaymentMethodData::Crypto);
    assert!(matches!(get_apm_brand_details(&data), Err(ConnectorError::NotImplemented(_))));
}

#[test]
fn payments_request_carries_shopper_addresses_cart_and_test_mode() {
    let mut data = apm_router_data(PaymentMethodData::PayLater(PayLaterData::PayflexRedirect));
    data.order_details = Some(vec![OrderDetail {
        product_name: "Shoes".to_string(),
        quantity: 2,
        amount: Some("50.00".to_string()),
    }]);
    let item = PeachpaymentsApmRouterData::new("100.00".to_string(), &data);
    let request = PeachpaymentsApmPaymentsRequest::try_from_router_data(&item).unwrap();
    assert_eq!(request.authentication.entity_id, "entity_1");
    assert_eq!(request.authentication.user_id, "user");
    assert_eq!(request.authentication.password, "secret");
    assert_eq!(request.merchant_transaction_id, "Abc123Def456Gh78");
    assert_eq!(request.merchant_invoice_id.as_deref(), Some("order_1"));
    assert_eq!(request.amount, "100.00");
    assert_eq!(request.currency, "ZAR");
    assert_eq!(request.payment_brand, PeachPaymentBrand::Payflex);
    assert_eq!(request.payment_type, PeachApmPaymentType::DB);
    assert_eq!(
        request.shopper_result_url.as_deref(),
        Some("https://merchant.example.com/return")
    );
    let customer = request.customer.unwrap();
    assert_eq!(customer.email.as_deref(), Some("billing@example.com"));
    assert_eq!(customer.given_name.as_deref(), Some("Thandi"));
    assert_eq!(customer.surname.as_deref(), Some("Mokoena"));
    assert_eq!(customer.mobile.as_deref(), Some("27711111200"));
    assert_eq!(customer.merchant_customer_id.as_deref(), Some("cus_1"));
    let billing = request.billing.unwrap();
    assert_eq!(billing.street1.as_deref(), Some("1 Long St"));
    assert_eq!(billing.postcode.as_deref(), Some("8001"));
    assert!(request.shipping.is_none());
    let cart = request.cart.unwrap();
    assert_eq!(cart.cart_item.len(), 1);
    assert_eq!(cart.cart_item[0].name, "Shoes");
    assert_eq!(cart.cart_item[0].quantity, "2");
    assert_eq!(cart.cart_item[0].price, "50.00");
    assert_eq!(request.custom_parameters.unwrap().enable_test_mode, "true");
}

#[test]
fn payments_request_errors() {
    let mut data = apm_router_data(PaymentMethodData::PayLater(PayLaterData::PayflexRedirect));
    data.connector_auth_type = ConnectorAuthType::HeaderKey { api_key: "k".to_string() };
    let item = PeachpaymentsApmRouterData::new("1.00".to_string(), &data);
    assert!(matches!(
        PeachpaymentsApmPaymentsRequest::try_from_router_data(&item),
        Err(ConnectorError::FailedToObtainAuthType)
    ));

    let mut data = apm_router_data(PaymentMethodData::PayLater(PayLaterData::PayflexRedirect));
    data.connector_meta_data = None;
    let item = PeachpaymentsApmRouterData::new("1.00".to_string(), &data);
    assert!(matches!(
        PeachpaymentsApmPaymentsRequest::try_from_router_data(&item),
        Err(ConnectorError::InvalidConnectorConfig { config: "metadata" })
    ));

    let mut data = apm_router_data(PaymentMethodData::PayLater(PayLaterData::PayflexRedirect));
    data.order_details = Some(vec![OrderDetail {
        product_name: "Shoes".to_string(),
        quantity: 1,
        amount: None,
    }]);
    let item = PeachpaymentsApmRouterData::new("1.00".to_string(), &data);
    assert!(matches!(
        PeachpaymentsApmPaymentsRequest::try_from_router_data(&item),
        Err(ConnectorError::AmountConversionFailed)
    ));

    let mut data = apm_router_data(PaymentMethodData::Voucher(VoucherData::OneForYou {
        voucher_pin: Some("1234".to_string()),
    }));
    data.billing.as_mut().unwrap().phone = None;
    let item = PeachpaymentsApmRouterData::new("1.00".to_string(), &data);
    assert!(matches!(
        PeachpaymentsApmPaymentsRequest::try_from_router_data(&item),
        Err(ConnectorError::MissingRequiredField { field_name: "billing.phone" })
    ));
}

#[test]
fn metadata_and_authentication() {
    assert!(matches!(
        PeachpaymentsapmConnectorMetadataObject::try_from_metadata(&None),
        Err(ConnectorError::InvalidConnectorConfig { config: "metadata" })
    ));
    let auth = ConnectorAuthType::BodyKey { api_key: "u".to_string(), key1: "p".to_string() };
    let meta = Some(ConnectorMetadata { entity_id: "e".to_string() });
    let a = ApmAuthentication::try_from_connector_data(&auth, &meta).unwrap();
    assert_eq!((a.entity_id.as_str(), a.user_id.as_str(), a.password.as_str()), ("e", "u", "p"));
}

#[test]
fn refund_request_is_an_rf_transaction() {
    let refund = RefundsRouterData {
        minor_refund_amount: 5000,
        currency: "ZAR".to_string(),
        connector_transaction_id: "txn_1".to_string(),
        connector_refund_id: None,
        connector_auth_type: ConnectorAuthType::BodyKey {
            api_key: "u".to_string(),
            key1: "p".to_string(),
        },
        connector_meta_data: Some(ConnectorMetadata { entity_id: "e".to_string() }),
    };
    let item = PeachpaymentsApmRouterData::new("50.00".to_string(), &refund);
    let request = PeachpaymentsApmRefundRequest::try_from_router_data(&item).unwrap();
    assert_eq!(request.amount, "50.00");
    assert_eq!(request.currency, "ZAR");
    assert_eq!(request.payment_type, PeachApmPaymentType::RF);
}

fn payments_response(code: &str, redirect: Option<ApmRedirect>) -> PeachpaymentsApmPaymentsResponse {
    PeachpaymentsApmPaymentsResponse {
        id: "8ac7a4a09c8b9c8e019c8ba47c0000aa".to_string(),
        result: result(code, Some("transaction pending"), None),
        redirect,
        merchant_transaction_id: Some("Abc123Def456Gh78".to_string()),
        payment_type: Some(PeachApmPaymentType::DB),
    }
}

#[test]
fn pending_payment_answer_carries_redirect() {
    let response = payments_response(
        "000.200.000",
        Some(ApmRedirect {
            url: "https://redirect.example.com".to_string(),
            method: Some(ApmRedirectMethod::Get),
            parameters: vec![],
        }),
    );
    let update = response.router_data_update(200);
    assert_eq!(update.status, AttemptStatus::AuthenticationPending);
    match update.response {
        Ok(PaymentsResponseData::TransactionResponse {
            resource_id: ResponseId::ConnectorTransactionId(id),
            redirection_data: Some(RedirectForm::Form { endpoint, method, .. }),
            connector_response_reference_id,
        }) => {
            assert_eq!(id, "8ac7a4a09c8b9c8e019c8ba47c0000aa");
            assert_eq!(endpoint, "https://redirect.example.com");
            assert_eq!(method, Method::Get);
            assert_eq!(connector_response_reference_id.as_deref(), Some("Abc123Def456Gh78"));
        }
        other => panic!("unexpected {:?}", other),
    }
}

#[test]
fn failed_payment_answer_becomes_error_response() {
    let response = PeachpaymentsApmPaymentsResponse {
        id: "id_1".to_string(),
        result: result(
            "800.100.152",
            Some("declined"),
            Some(vec![parameter_error(Some("card"), Some("blocked"))]),
        ),
        redirect: None,
        merchant_transaction_id: None,
        payment_type: None,
    };
    let update = response.router_data_update(402);
    assert_eq!(update.status, AttemptStatus::Failure);
    let error = update.response.unwrap_err();
    assert_eq!(error.code, "800.100.152");
    assert_eq!(error.message, "declined");
    assert_eq!(error.reason.as_deref(), Some("declined - card: blocked"));
    assert_eq!(error.status_code, 402);
    assert_eq!(error.attempt_status, Some(AttemptStatus::Failure));
    assert_eq!(error.connector_transaction_id.as_deref(), Some("id_1"));
}

#[test]
fn refund_answers() {
    let ok = payments_response("000.000.000", None);
    let data = get_apm_refund_response(&ok, 200).unwrap();
    assert_eq!(data.connector_refund_id, "8ac7a4a09c8b9c8e019c8ba47c0000aa");
    assert_eq!(data.refund_status, RefundStatus::Success);
    let pending = payments_response("000.200.000", None);
    assert_eq!(
        pending.refund_router_data_update(200).response.unwrap().refund_status,
        RefundStatus::Pending
    );
    let failed = PeachpaymentsApmPaymentsResponse {
        id: "id".to_string(),
        result: result("900.100.300", None, None),
        redirect: None,
        merchant_transaction_id: Some("m".to_string()),
        payment_type: Some(PeachApmPaymentType::RF),
    };
    let error = get_apm_refund_response(&failed, 500).unwrap_err();
    assert_eq!(error.message, "No error message");
    assert!(error.reason.is_none());
    assert!(error.attempt_status.is_none());
    assert_eq!(error.connector_response_reference_id.as_deref(), Some("m"));
}

#[test]
fn local_phone_keeps_a_single_leading_zero() {
    let mut data = apm_router_data(PaymentMethodData::Crypto);
    data.billing.as_mut().unwrap().phone = Some(PhoneDetails {
        number: Some("000711111200".to_string()),
        country_code: Some("+27".to_string()),
    });
    assert_eq!(get_local_phone_number(&data).unwrap(), "0711111200");
    assert_eq!(get_hyphenated_international_phone(&data).unwrap(), "+27-711111200");
    data.billing.as_mut().unwrap().phone = Some(PhoneDetails {
        number: Some("".to_string()),
        country_code: Some("+27".to_string()),
    });
    assert_eq!(get_local_phone_number(&data).unwrap(), "0");
}

#[test]
fn one_for_you_request_carries_mobile() {
    let data = apm_router_data(PaymentMethodData::Voucher(VoucherData::OneForYou {
        voucher_pin: Some("1234567890123456".to_string()),
    }));
    let item = PeachpaymentsApmRouterData::new("10.00".to_string(), &data);
    let request = PeachpaymentsApmPaymentsRequest::try_from_router_data(&item).unwrap();
    assert_eq!(request.payment_brand, PeachPaymentBrand::OneForYou);
    assert_eq!(request.virtual_account.unwrap().password.as_deref(), Some("1234567890123456"));
    assert_eq!(request.customer.unwrap().mobile.as_deref(), Some("27711111200"));
}
