//! Paydunya: SOFTPAY operator selection, operator-specific authorize bodies,
//! invoice preprocessing, and the mapping of Paydunya's answers onto attempt
//! and refund statuses.

pub mod authorize;
pub mod responses;

use vstd::prelude::*;

use crate::domain::{payment_method_type_name, ConnectorError, PaymentMethodType};
use crate::text::{owned, push_text, text_eq};

verus! {

/// Mobile-money / wallet operator served by Paydunya's SOFTPAY API.
///
/// Each operator has its own endpoint and its own request body shape (field
/// names are prefixed with the operator name, e.g. `mtn_benin_*`, `wave_ci_*`).
#[derive(Debug, Clone, Copy, PartialEq, Eq, Structural)]
pub enum PaydunyaOperator {
    MtnBenin,
    MtnCi,
    MtnCameroun,
    MoovBenin,
    MoovCi,
    MoovMali,
    MoovTogo,
    MoovBurkina,
    OrangeMoneyCi,
    OrangeMoneySenegal,
    OrangeMoneyMali,
    OrangeMoneyBurkina,
    WaveSenegal,
    WaveCi,
    FreeMoneySenegal,
    ExpressoSenegal,
    DjamoCi,
    DjamoSn,
}

/// The SOFTPAY path of each operator, relative to the Paydunya base URL.
pub open spec fn endpoint_path(op: PaydunyaOperator) -> Seq<char> {
    match op {
        PaydunyaOperator::MtnBenin => "softpay/mtn-benin"@,
        PaydunyaOperator::MtnCi => "softpay/mtn-ci"@,
        PaydunyaOperator::MtnCameroun => "softpay/mtn-cameroun"@,
        PaydunyaOperator::MoovBenin => "softpay/moov-benin"@,
        PaydunyaOperator::MoovCi => "softpay/moov-ci"@,
        PaydunyaOperator::MoovMali => "softpay/moov-mali"@,
        PaydunyaOperator::MoovTogo => "softpay/moov-togo"@,
        PaydunyaOperator::MoovBurkina => "softpay/moov-burkina"@,
        PaydunyaOperator::OrangeMoneyCi => "softpay/orange-money-ci"@,
        PaydunyaOperator::OrangeMoneySenegal => "softpay/new-orange-money-senegal"@,
        PaydunyaOperator::OrangeMoneyMali => "softpay/orange-money-mali"@,
        PaydunyaOperator::OrangeMoneyBurkina => "softpay/orange-money-burkina"@,
        PaydunyaOperator::WaveSenegal => "softpay/wave-senegal"@,
        PaydunyaOperator::WaveCi => "softpay/wave-ci"@,
        PaydunyaOperator::FreeMoneySenegal => "softpay/free-money-senegal"@,
        PaydunyaOperator::ExpressoSenegal => "softpay/expresso-senegal"@,
        PaydunyaOperator::DjamoCi | PaydunyaOperator::DjamoSn => "softpay/djamo"@,
    }
}

/// The `*_wallet_provider` value of the MTN operators.
pub open spec fn wallet_provider_code(op: PaydunyaOperator) -> Option<Seq<char>> {
    match op {
        PaydunyaOperator::MtnBenin => Some("MTNBENIN"@),
        PaydunyaOperator::MtnCi => Some("MTNCI"@),
        PaydunyaOperator::MtnCameroun => Some("MTNCAMEROUN"@),
        _ => None,
    }
}

/// The lowercased country that selects the regional Djamo account.
pub open spec fn djamo_country_code(op: PaydunyaOperator) -> Option<Seq<char>> {
    match op {
        PaydunyaOperator::DjamoCi => Some("ci"@),
        PaydunyaOperator::DjamoSn => Some("sn"@),
        _ => None,
    }
}

/// The view of an optional static string.
pub open spec fn opt_str_view(o: Option<&'static str>) -> Option<Seq<char>> {
    match o {
        Some(s) => Some(s@),
        None => None,
    }
}

impl PaydunyaOperator {
    /// Path appended to the Paydunya base URL for the SOFTPAY call.
    pub fn endpoint(self) -> (r: &'static str)
        ensures
            r@ == endpoint_path(self),
    {
        match self {
            Self::MtnBenin => "softpay/mtn-benin",
            Self::MtnCi => "softpay/mtn-ci",
            Self::MtnCameroun => "softpay/mtn-cameroun",
            Self::MoovBenin => "softpay/moov-benin",
            Self::MoovCi => "softpay/moov-ci",
            Self::MoovMali => "softpay/moov-mali",
            Self::MoovTogo => "softpay/moov-togo",
            Self::MoovBurkina => "softpay/moov-burkina",
            Self::OrangeMoneyCi => "softpay/orange-money-ci",
            // The QR-code based "new-" route is the one Paydunya's docs
            // point integrators to for Senegal.
            Self::OrangeMoneySenegal => "softpay/new-orange-money-senegal",
            Self::OrangeMoneyMali => "softpay/orange-money-mali",
            Self::OrangeMoneyBurkina => "softpay/orange-money-burkina",
            Self::WaveSenegal => "softpay/wave-senegal",
            Self::WaveCi => "softpay/wave-ci",
            Self::FreeMoneySenegal => "softpay/free-money-senegal",
            Self::ExpressoSenegal => "softpay/expresso-senegal",
            // Côte d'Ivoire and Senegal share one Djamo endpoint; the region
            // is carried by the `code_country` field.
            Self::DjamoCi | Self::DjamoSn => "softpay/djamo",
        }
    }

    /// Value Paydunya expects in the `*_wallet_provider` field for operators
    /// that require it (the MTN family); `None` for every other operator.
    pub fn wallet_provider(self) -> (r: Option<&'static str>)
        ensures
            opt_str_view(r) == wallet_provider_code(self),
    {
        match self {
            Self::MtnBenin => Some("MTNBENIN"),
            Self::MtnCi => Some("MTNCI"),
            Self::MtnCameroun => Some("MTNCAMEROUN"),
            _ => None,
        }
    }

    /// Lowercased ISO-3166 alpha-2 discriminator the shared Djamo SOFTPAY
    /// endpoint uses to pick the regional account (`"ci"` / `"sn"`); `None`
    /// for every non-Djamo operator.
    pub fn djamo_code_country(self) -> (r: Option<&'static str>)
        ensures
            opt_str_view(r) == djamo_country_code(self),
    {
        match self {
            Self::DjamoCi => Some("ci"),
            Self::DjamoSn => Some("sn"),
            _ => None,
        }
    }
}


/// The operator Paydunya serves for a payment method type in a billing
/// country. The payment method type picks the carrier family and the country
/// picks the regional endpoint within it; MoMo without a recognised country
/// goes to MTN Benin.
pub open spec fn operator_for(
    pm: Option<PaymentMethodType>,
    country: Option<Seq<char>>,
) -> Option<PaydunyaOperator> {
    match pm {
        Some(PaymentMethodType::Momo) => if country == Some("BJ"@) {
            Some(PaydunyaOperator::MtnBenin)
        } else if country == Some("CI"@) {
            Some(PaydunyaOperator::MtnCi)
        } else if country == Some("CM"@) {
            Some(PaydunyaOperator::MtnCameroun)
        } else {
            Some(PaydunyaOperator::MtnBenin)
        },
        Some(PaymentMethodType::MoovMoney) => if country == Some("BJ"@) {
            Some(PaydunyaOperator::MoovBenin)
        } else if country == Some("CI"@) {
            Some(PaydunyaOperator::MoovCi)
        } else if country == Some("ML"@) {
            Some(PaydunyaOperator::MoovMali)
        } else if country == Some("TG"@) {
            Some(PaydunyaOperator::MoovTogo)
        } else if country == Some("BF"@) {
            Some(PaydunyaOperator::MoovBurkina)
        } else {
            None
        },
        Some(PaymentMethodType::Wave) => if country == Some("SN"@) {
            Some(PaydunyaOperator::WaveSenegal)
        } else if country == Some("CI"@) {
            Some(PaydunyaOperator::WaveCi)
        } else {
            None
        },
        Some(PaymentMethodType::OrangeMoney) => if country == Some("CI"@) {
            Some(PaydunyaOperator::OrangeMoneyCi)
        } else if country == Some("SN"@) {
            Some(PaydunyaOperator::OrangeMoneySenegal)
        } else if country == Some("ML"@) {
            Some(PaydunyaOperator::OrangeMoneyMali)
        } else if country == Some("BF"@) {
            Some(PaydunyaOperator::OrangeMoneyBurkina)
        } else {
            None
        },
        Some(PaymentMethodType::Djamo) => if country == Some("CI"@) {
            Some(PaydunyaOperator::DjamoCi)
        } else if country == Some("SN"@) {
            Some(PaydunyaOperator::DjamoSn)
        } else {
            None
        },
        _ => None,
    }
}

/// The `Debug` form of an optional value whose own `Debug` form is `inner`.
pub open spec fn debug_option(inner: Option<Seq<char>>) -> Seq<char> {
    match inner {
        Some(text) => "Some("@ + text + ")"@,
        None => "None"@,
    }
}

/// The message of the error for a payment method type and country that no
/// operator serves.
pub open spec fn operator_error_message(
    pm: Option<PaymentMethodType>,
    country: Option<Seq<char>>,
) -> Seq<char> {
    "Paydunya operator resolution for payment_method_type="@ + debug_option(
        match pm {
            Some(p) => Some(payment_method_type_name(p)),
            None => None,
        },
    ) + " country="@ + debug_option(country)
}

/// The view of an optional string slice.
pub open spec fn opt_slice_view(o: Option<&str>) -> Option<Seq<char>> {
    match o {
        Some(s) => Some(s@),
        None => None,
    }
}

fn is_country(country: Option<&str>, code: &str) -> (r: bool)
    ensures
        r == (opt_slice_view(country) == Some(code@)),
{
    match country {
        Some(c) => text_eq(c, code),
        None => false,
    }
}

fn push_debug_option(s: &mut String, inner: Option<&str>)
    ensures
        final(s)@ == old(s)@ + debug_option(opt_slice_view(inner)),
{
    let ghost start = s@;
    match inner {
        Some(text) => {
            push_text(s, "Some(");
            push_text(s, text);
            push_text(s, ")");
            assert(s@ =~= start + ("Some("@ + text@ + ")"@));
        },
        None => {
            push_text(s, "None");
        },
    }
}

fn operator_error(payment_method_type: Option<PaymentMethodType>, country: Option<&str>) -> (r:
    ConnectorError)
    ensures
        r matches ConnectorError::NotImplemented(m) && m@ == operator_error_message(
            payment_method_type,
            opt_slice_view(country),
        ),
{
    let mut m = owned("Paydunya operator resolution for payment_method_type=");
    let name = match payment_method_type {
        Some(p) => Some(p.debug_name()),
        None => None,
    };
    push_debug_option(&mut m, name);
    push_text(&mut m, " country=");
    push_debug_option(&mut m, country);
    assert(m@ =~= operator_error_message(payment_method_type, opt_slice_view(country)));
    ConnectorError::NotImplemented(m)
}

impl PaydunyaOperator {
    /// Selects the operator from the payment method type and the billing
    /// country; fails with `NotImplemented` for a pair no operator serves.
    pub fn resolve(payment_method_type: Option<PaymentMethodType>, country: Option<&str>) -> (r:
        Result<Self, ConnectorError>)
        ensures
            match operator_for(payment_method_type, opt_slice_view(country)) {
                Some(op) => r == Ok::<Self, ConnectorError>(op),
                None => r matches Err(ConnectorError::NotImplemented(m)) && m@
                    == operator_error_message(payment_method_type, opt_slice_view(country)),
            },
    {
        let resolved = match payment_method_type {
            Some(PaymentMethodType::Momo) => {
                if is_country(country, "BJ") {
                    Some(Self::MtnBenin)
                } else if is_country(country, "CI") {
                    Some(Self::MtnCi)
                } else if is_country(country, "CM") {
                    Some(Self::MtnCameroun)
                } else {
                    // MoMo defaults to MTN Benin when the country is absent
                    // or not one MTN serves.
                    Some(Self::MtnBenin)
                }
            },
            Some(PaymentMethodType::MoovMoney) => {
                if is_country(country, "BJ") {
                    Some(Self::MoovBenin)
                } else if is_country(country, "CI") {
                    Some(Self::MoovCi)
                } else if is_country(country, "ML") {
                    Some(Self::MoovMali)
                } else if is_country(country, "TG") {
                    Some(Self::MoovTogo)
                } else if is_country(country, "BF") {
                    Some(Self::MoovBurkina)
                } else {
                    None
                }
            },
            Some(PaymentMethodType::Wave) => {
                if is_country(country, "SN") {
                    Some(Self::WaveSenegal)
                } else if is_country(country, "CI") {
                    Some(Self::WaveCi)
                } else {
                    None
                }
            },
            Some(PaymentMethodType::OrangeMoney) => {
                if is_country(country, "CI") {
                    Some(Self::OrangeMoneyCi)
                } else if is_country(country, "SN") {
                    Some(Self::OrangeMoneySenegal)
                } else if is_country(country, "ML") {
                    Some(Self::OrangeMoneyMali)
                } else if is_country(country, "BF") {
                    Some(Self::OrangeMoneyBurkina)
                } else {
                    None
                }
            },
            Some(PaymentMethodType::Djamo) => {
                if is_country(country, "CI") {
                    Some(Self::DjamoCi)
                } else if is_country(country, "SN") {
                    Some(Self::DjamoSn)
                } else {
                    None
                }
            },
            _ => None,
        };
        match resolved {
            Some(op) => Ok(op),
            None => Err(operator_error(payment_method_type, country)),
        }
    }
}

} // verus!
