use hyperswitch_connectors::domain::{ConnectorError, PaymentMethodType};
use hyperswitch_connectors::paydunya::PaydunyaOperator;

const ALL_OPERATORS: [PaydunyaOperator; 18] = [
    PaydunyaOperator::MtnBenin,
    PaydunyaOperator::MtnCi,
    PaydunyaOperator::MtnCameroun,
    PaydunyaOperator::MoovBenin,
    PaydunyaOperator::MoovCi,
    PaydunyaOperator::MoovMali,
    PaydunyaOperator::MoovTogo,
    PaydunyaOperator::MoovBurkina,
    PaydunyaOperator::OrangeMoneyCi,
    PaydunyaOperator::OrangeMoneySenegal,
    PaydunyaOperator::OrangeMoneyMali,
    PaydunyaOperator::OrangeMoneyBurkina,
    PaydunyaOperator::WaveSenegal,
    PaydunyaOperator::WaveCi,
    PaydunyaOperator::FreeMoneySenegal,
    PaydunyaOperator::ExpressoSenegal,
    PaydunyaOperator::DjamoCi,
    PaydunyaOperator::DjamoSn,
];

#[test]
fn operator_endpoint_matches_softpay_paths() {
    assert_eq!(PaydunyaOperator::MtnBenin.endpoint(), "softpay/mtn-benin");
    assert_eq!(PaydunyaOperator::MtnCi.endpoint(), "softpay/mtn-ci");
    assert_eq!(PaydunyaOperator::MtnCameroun.endpoint(), "softpay/mtn-cameroun");
    assert_eq!(PaydunyaOperator::MoovBenin.endpoint(), "softpay/moov-benin");
    assert_eq!(PaydunyaOperator::MoovCi.endpoint(), "softpay/moov-ci");
    assert_eq!(PaydunyaOperator::MoovMali.endpoint(), "softpay/moov-mali");
    assert_eq!(PaydunyaOperator::MoovTogo.endpoint(), "softpay/moov-togo");
    assert_eq!(PaydunyaOperator::MoovBurkina.endpoint(), "softpay/moov-burkina");
    assert_eq!(PaydunyaOperator::OrangeMoneyCi.endpoint(), "softpay/orange-money-ci");
    assert_eq!(
        PaydunyaOperator::OrangeMoneySenegal.endpoint(),
        "softpay/new-orange-money-senegal"
    );
    assert_eq!(PaydunyaOperator::OrangeMoneyMali.endpoint(), "softpay/orange-money-mali");
    assert_eq!(
        PaydunyaOperator::OrangeMoneyBurkina.endpoint(),
        "softpay/orange-money-burkina"
    );
    assert_eq!(PaydunyaOperator::WaveSenegal.endpoint(), "softpay/wave-senegal");
    assert_eq!(PaydunyaOperator::WaveCi.endpoint(), "softpay/wave-ci");
    assert_eq!(
        PaydunyaOperator::FreeMoneySenegal.endpoint(),
        "softpay/free-money-senegal"
    );
    assert_eq!(
        PaydunyaOperator::ExpressoSenegal.endpoint(),
        "softpay/expresso-senegal"
    );
    assert_eq!(PaydunyaOperator::DjamoCi.endpoint(), "softpay/djamo");
    assert_eq!(PaydunyaOperator::DjamoSn.endpoint(), "softpay/djamo");
}

#[test]
fn djamo_code_country_is_set_only_for_djamo_family() {
    assert_eq!(PaydunyaOperator::DjamoCi.djamo_code_country(), Some("ci"));
    assert_eq!(PaydunyaOperator::DjamoSn.djamo_code_country(), Some("sn"));
    assert_eq!(PaydunyaOperator::WaveCi.djamo_code_country(), None);
    assert_eq!(PaydunyaOperator::MtnBenin.djamo_code_country(), None);
}

#[test]
fn wallet_provider_is_set_only_for_mtn_family() {
    assert_eq!(PaydunyaOperator::MtnBenin.wallet_provider(), Some("MTNBENIN"));
    assert_eq!(PaydunyaOperator::MtnCi.wallet_provider(), Some("MTNCI"));
    assert_eq!(PaydunyaOperator::MtnCameroun.wallet_provider(), Some("MTNCAMEROUN"));

    for non_mtn in [
        PaydunyaOperator::MoovBenin,
        PaydunyaOperator::MoovCi,
        PaydunyaOperator::MoovMali,
        PaydunyaOperator::MoovTogo,
        PaydunyaOperator::MoovBurkina,
        PaydunyaOperator::OrangeMoneyCi,
        PaydunyaOperator::OrangeMoneySenegal,
        PaydunyaOperator::OrangeMoneyMali,
        PaydunyaOperator::OrangeMoneyBurkina,
        PaydunyaOperator::WaveSenegal,
        PaydunyaOperator::WaveCi,
        PaydunyaOperator::FreeMoneySenegal,
        PaydunyaOperator::ExpressoSenegal,
        PaydunyaOperator::DjamoCi,
        PaydunyaOperator::DjamoSn,
    ] {
        assert_eq!(non_mtn.wallet_provider(), None);
    }
}

#[test]
fn endpoints_are_distinct_except_for_djamo() {
    for a in ALL_OPERATORS {
        for b in ALL_OPERATORS {
            let both_djamo = a.djamo_code_country().is_some() && b.djamo_code_country().is_some();
            assert_eq!(a.endpoint() == b.endpoint(), a == b || both_djamo, "{:?} {:?}", a, b);
        }
    }
}

#[test]
fn resolve_picks_regional_operator_by_country() {
    let cases = [
        (PaymentMethodType::Momo, "BJ", PaydunyaOperator::MtnBenin),
        (PaymentMethodType::Momo, "CI", PaydunyaOperator::MtnCi),
        (PaymentMethodType::Momo, "CM", PaydunyaOperator::MtnCameroun),
        (PaymentMethodType::MoovMoney, "BJ", PaydunyaOperator::MoovBenin),
        (PaymentMethodType::MoovMoney, "CI", PaydunyaOperator::MoovCi),
        (PaymentMethodType::MoovMoney, "ML", PaydunyaOperator::MoovMali),
        (PaymentMethodType::MoovMoney, "TG", PaydunyaOperator::MoovTogo),
        (PaymentMethodType::MoovMoney, "BF", PaydunyaOperator::MoovBurkina),
        (PaymentMethodType::Wave, "SN", PaydunyaOperator::WaveSenegal),
        (PaymentMethodType::Wave, "CI", PaydunyaOperator::WaveCi),
        (PaymentMethodType::OrangeMoney, "CI", PaydunyaOperator::OrangeMoneyCi),
        (PaymentMethodType::OrangeMoney, "SN", PaydunyaOperator::OrangeMoneySenegal),
        (PaymentMethodType::OrangeMoney, "ML", PaydunyaOperator::OrangeMoneyMali),
        (PaymentMethodType::OrangeMoney, "BF", PaydunyaOperator::OrangeMoneyBurkina),
        (PaymentMethodType::Djamo, "CI", PaydunyaOperator::DjamoCi),
        (PaymentMethodType::Djamo, "SN", PaydunyaOperator::DjamoSn),
    ];
    for (pm, country, expected) in cases {
        assert_eq!(
            PaydunyaOperator::resolve(Some(pm), Some(country)).ok(),
            Some(expected),
            "{:?} {}",
            pm,
            country
        );
    }
}

#[test]
fn resolve_defaults_momo_to_mtn_benin() {
    assert_eq!(
        PaydunyaOperator::resolve(Some(PaymentMethodType::Momo), None).ok(),
        Some(PaydunyaOperator::MtnBenin)
    );
    assert_eq!(
        PaydunyaOperator::resolve(Some(PaymentMethodType::Momo), Some("GH")).ok(),
        Some(PaydunyaOperator::MtnBenin)
    );
}

#[test]
fn resolve_djamo_code_country_is_lowercased_billing_country() {
    for country in ["CI", "SN"] {
        let op = PaydunyaOperator::resolve(Some(PaymentMethodType::Djamo), Some(country)).unwrap();
        assert_eq!(op.djamo_code_country(), Some(country.to_lowercase().as_str()));
    }
}

#[test]
fn resolve_rejects_unserved_country_with_message() {
    match PaydunyaOperator::resolve(Some(PaymentMethodType::Wave), Some("BJ")) {
        Err(ConnectorError::NotImplemented(message)) => assert_eq!(
            message,
            "Paydunya operator resolution for payment_method_type=Some(Wave) country=Some(BJ)"
        ),
        other => panic!("unexpected {:?}", other),
    }
    match PaydunyaOperator::resolve(None, None) {
        Err(ConnectorError::NotImplemented(message)) => assert_eq!(
            message,
            "Paydunya operator resolution for payment_method_type=None country=None"
        ),
        other => panic!("unexpected {:?}", other),
    }
    match PaydunyaOperator::resolve(Some(PaymentMethodType::CapitecPay), Some("ZA")) {
        Err(ConnectorError::NotImplemented(message)) => assert_eq!(
            message,
            "Paydunya operator resolution for payment_method_type=Some(CapitecPay) country=Some(ZA)"
        ),
        other => panic!("unexpected {:?}", other),
    }
}

#[test]
fn wallet_provider_is_upper_cased_endpoint_name() {
    for op in ALL_OPERATORS {
        if let Some(w) = op.wallet_provider() {
            let name = op.endpoint().strip_prefix("softpay/").unwrap();
            assert_eq!(w, name.replace('-', "").to_uppercase());
        }
    }
}
