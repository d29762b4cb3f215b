//! The SOFTPAY authorize body: the fields every operator needs, the
//! operator-specific extras, and the body for the operator the payment
//! resolves to.

use vstd::prelude::*;

use super::{
    djamo_country_code, opt_slice_view, operator_error_message, operator_for,
    wallet_provider_code, PaydunyaOperator,
};
use crate::accessors::{
    billing_details, billing_phone_number_spec, full_name_spec, required, text_result_matches,
};
use crate::domain::{
    is_missing_field, opt_view, ConnectorError, PaymentMethodData, PaymentsAuthorizeRouterData,
    WalletData,
};
use crate::text::owned;

verus! {

/// An amount in minor units together with the router data it belongs to.
pub struct PaydunyaRouterData<T> {
    /// Minor units.
    pub amount: i64,
    pub router_data: T,
}

impl<T> PaydunyaRouterData<T> {
    /// Pairs an amount with its router data.
    pub fn new(amount: i64, router_data: T) -> (r: Self)
        ensures
            r.amount == amount,
            r.router_data == router_data,
    {
        PaydunyaRouterData { amount, router_data }
    }
}

/// SOFTPAY body for the MtnBenin operator.
#[derive(Debug)]
pub struct PaydunyaMtnBeninRequest {
    pub mtn_benin_customer_fullname: String,
    pub mtn_benin_email: String,
    pub mtn_benin_phone_number: String,
    pub mtn_benin_wallet_provider: &'static str,
    pub payment_token: String,
}

/// SOFTPAY body for the MtnCi operator.
#[derive(Debug)]
pub struct PaydunyaMtnCiRequest {
    pub mtn_ci_customer_fullname: String,
    pub mtn_ci_email: String,
    pub mtn_ci_phone_number: String,
    pub mtn_ci_wallet_provider: &'static str,
    pub payment_token: String,
}

/// SOFTPAY body for the MtnCameroun operator.
#[derive(Debug)]
pub struct PaydunyaMtnCamerounRequest {
    pub mtn_cameroun_customer_fullname: String,
    pub mtn_cameroun_email: String,
    pub mtn_cameroun_phone_number: String,
    pub mtn_cameroun_wallet_provider: &'static str,
    pub payment_token: String,
}

/// SOFTPAY body for the MoovBenin operator.
#[derive(Debug)]
pub struct PaydunyaMoovBeninRequest {
    pub moov_benin_customer_fullname: String,
    pub moov_benin_email: String,
    pub moov_benin_phone_number: String,
    pub payment_token: String,
}

/// SOFTPAY body for the MoovCi operator.
#[derive(Debug)]
pub struct PaydunyaMoovCiRequest {
    pub moov_ci_customer_fullname: String,
    pub moov_ci_email: String,
    pub moov_ci_phone_number: String,
    pub payment_token: String,
}

/// SOFTPAY body for the MoovMali operator.
#[derive(Debug)]
pub struct PaydunyaMoovMaliRequest {
    pub moov_ml_customer_fullname: String,
    pub moov_ml_email: String,
    pub moov_ml_phone_number: String,
    /// Free-form payer address: the billing city, else address line 1.
    pub moov_ml_customer_address: String,
    pub payment_token: String,
}

/// SOFTPAY body for the MoovTogo operator.
#[derive(Debug)]
pub struct PaydunyaMoovTogoRequest {
    pub moov_togo_customer_fullname: String,
    pub moov_togo_email: String,
    /// Free-form payer address: the billing city, else address line 1.
    pub moov_togo_customer_address: String,
    pub moov_togo_phone_number: String,
    pub payment_token: String,
}

/// SOFTPAY body for the MoovBurkina operator.
#[derive(Debug)]
pub struct PaydunyaMoovBurkinaRequest {
    pub moov_burkina_faso_full_name: String,
    pub moov_burkina_faso_email: String,
    pub moov_burkina_faso_phone_number: String,
    pub moov_burkina_faso_payment_token: String,
}

/// SOFTPAY body for the OrangeMoneyCi operator.
#[derive(Debug)]
pub struct PaydunyaOrangeMoneyCiRequest {
    pub orange_money_ci_customer_fullname: String,
    pub orange_money_ci_email: String,
    pub orange_money_ci_phone_number: String,
    /// One-time code the payer generated through the USSD flow.
    pub orange_money_ci_otp: String,
    pub payment_token: String,
}

/// SOFTPAY body for the OrangeMoneySenegal operator.
#[derive(Debug)]
pub struct PaydunyaOrangeMoneySenegalRequest {
    pub customer_name: String,
    pub customer_email: String,
    pub phone_number: String,
    pub invoice_token: String,
}

/// SOFTPAY body for the OrangeMoneyMali operator.
#[derive(Debug)]
pub struct PaydunyaOrangeMoneyMaliRequest {
    pub orange_money_mali_customer_fullname: String,
    pub orange_money_mali_email: String,
    pub orange_money_mali_phone_number: String,
    /// Free-form payer address: the billing city, else address line 1.
    pub orange_money_mali_customer_address: String,
    pub payment_token: String,
}

/// SOFTPAY body for the OrangeMoneyBurkina operator.
#[derive(Debug)]
pub struct PaydunyaOrangeMoneyBurkinaRequest {
    pub name_bf: String,
    pub email_bf: String,
    pub phone_bf: String,
    /// One-time code the payer generated in their Orange Money app or USSD menu.
    pub otp_code: String,
    pub payment_token: String,
}

/// SOFTPAY body for the WaveSenegal operator.
#[derive(Debug)]
pub struct PaydunyaWaveSenegalRequest {
    pub wave_senegal_full_name: String,
    pub wave_senegal_email: String,
    pub wave_senegal_phone: String,
    pub wave_senegal_payment_token: String,
}

/// SOFTPAY body for the WaveCi operator.
#[derive(Debug)]
pub struct PaydunyaWaveCiRequest {
    pub wave_ci_full_name: String,
    pub wave_ci_email: String,
    pub wave_ci_phone: String,
    pub wave_ci_payment_token: String,
}

/// SOFTPAY body for the FreeMoneySenegal operator.
#[derive(Debug)]
pub struct PaydunyaFreeMoneySenegalRequest {
    pub customer_name: String,
    pub customer_email: String,
    pub phone_number: String,
    pub payment_token: String,
}

/// SOFTPAY body for the ExpressoSenegal operator.
#[derive(Debug)]
pub struct PaydunyaExpressoSenegalRequest {
    pub expresso_sn_full_name: String,
    pub expresso_sn_email: String,
    pub expresso_sn_phone: String,
    pub payment_token: String,
}

/// SOFTPAY body for the Djamo operator.
#[derive(Debug)]
pub struct PaydunyaDjamoRequest {
    pub djamo_full_name: String,
    pub djamo_email: String,
    pub djamo_phone: String,
    /// Lowercased country (`"ci"` / `"sn"`) selecting the regional Djamo account.
    pub code_country: &'static str,
    pub djamo_payment_token: String,
}
/// Authorize / SOFTPAY request body: one variant per operator endpoint, each
/// with the exact field names that operator expects.
#[derive(Debug)]
pub enum PaydunyaPaymentsRequest {
    MtnBenin(PaydunyaMtnBeninRequest),
    MtnCi(PaydunyaMtnCiRequest),
    MtnCameroun(PaydunyaMtnCamerounRequest),
    MoovBenin(PaydunyaMoovBeninRequest),
    MoovCi(PaydunyaMoovCiRequest),
    MoovMali(PaydunyaMoovMaliRequest),
    MoovTogo(PaydunyaMoovTogoRequest),
    MoovBurkina(PaydunyaMoovBurkinaRequest),
    OrangeMoneyCi(PaydunyaOrangeMoneyCiRequest),
    OrangeMoneySenegal(PaydunyaOrangeMoneySenegalRequest),
    OrangeMoneyMali(PaydunyaOrangeMoneyMaliRequest),
    OrangeMoneyBurkina(PaydunyaOrangeMoneyBurkinaRequest),
    WaveSenegal(PaydunyaWaveSenegalRequest),
    WaveCi(PaydunyaWaveCiRequest),
    FreeMoneySenegal(PaydunyaFreeMoneySenegalRequest),
    ExpressoSenegal(PaydunyaExpressoSenegalRequest),
    Djamo(PaydunyaDjamoRequest),
}


/// Fields common to every SOFTPAY operator: payer identity, contact and the
/// invoice token returned by the preprocessing flow.
pub struct CommonAuthorizeFields {
    pub full_name: String,
    pub email: String,
    pub phone_number: String,
    pub payment_token: String,
}

/// The text of the common fields.
pub struct CommonFieldsView {
    pub full_name: Seq<char>,
    pub email: Seq<char>,
    pub phone_number: Seq<char>,
    pub payment_token: Seq<char>,
}

/// Why an authorize body cannot be built.
pub enum AuthorizeFault {
    /// No operator serves the payment method type and billing country.
    OperatorUnresolved,
    /// The preprocessing flow left no invoice token.
    MissingInvoiceToken,
    /// The named field is missing.
    MissingField(Seq<char>),
}

/// The identifier reported when the invoice token is missing.
pub const INVOICE_TOKEN_ID: &'static str = "payment_token (paydunya invoice token from preprocessing)";

/// The missing-field name reported when an OTP-based operator gets no OTP.
pub const OTP_FIELD: &'static str = "payment_method_data.wallet.orange_money_redirect.otp";

/// The billing country of an authorization.
pub open spec fn billing_country(d: PaymentsAuthorizeRouterData) -> Option<Seq<char>> {
    match billing_details(d) {
        Some(a) => opt_view(a.country),
        None => None,
    }
}

/// `e` is the error that reports fault `f` for authorization `d`.
pub open spec fn fault_matches(e: ConnectorError, f: AuthorizeFault, d: PaymentsAuthorizeRouterData) -> bool {
    match f {
        AuthorizeFault::OperatorUnresolved => e matches ConnectorError::NotImplemented(m) && m@
            == operator_error_message(d.payment_method_type, billing_country(d)),
        AuthorizeFault::MissingInvoiceToken => e matches ConnectorError::MissingConnectorRelatedTransactionID { id }
            && id@ == INVOICE_TOKEN_ID@,
        AuthorizeFault::MissingField(name) => is_missing_field(e, name),
    }
}

/// The common fields of an authorization, in the order they are checked:
/// invoice token, billing address, full name, billing phone, email.
pub open spec fn common_fields_spec(d: PaymentsAuthorizeRouterData) -> Result<CommonFieldsView, AuthorizeFault> {
    match d.preprocessing_id {
        None => Err(AuthorizeFault::MissingInvoiceToken),
        Some(token) => match billing_details(d) {
            None => Err(AuthorizeFault::MissingField("billing.address"@)),
            Some(a) => match full_name_spec(a) {
                Err(n) => Err(AuthorizeFault::MissingField(n)),
                Ok(full_name) => match billing_phone_number_spec(d) {
                    Err(n) => Err(AuthorizeFault::MissingField(n)),
                    Ok(phone_number) => match required(d.email, "email"@) {
                        Err(n) => Err(AuthorizeFault::MissingField(n)),
                        Ok(email) => Ok(
                            CommonFieldsView {
                                full_name,
                                email,
                                phone_number,
                                payment_token: token@,
                            },
                        ),
                    },
                },
            },
        },
    }
}

/// The free-form payer address: the billing city, else address line 1.
pub open spec fn customer_address_spec(d: PaymentsAuthorizeRouterData) -> Result<Seq<char>, Seq<char>> {
    match billing_details(d) {
        None => Err("billing.address"@),
        Some(a) => match a.city {
            Some(city) => Ok(city@),
            None => required(a.line1, "address.line1"@),
        },
    }
}

/// The OTP carried by an Orange Money redirect wallet, if any.
pub open spec fn orange_money_otp(pmd: PaymentMethodData) -> Option<Seq<char>> {
    match pmd {
        PaymentMethodData::Wallet(WalletData::OrangeMoneyRedirect { otp }) => opt_view(otp),
        _ => None,
    }
}

/// The operator-specific extra field of an authorization: the payer address
/// for Moov Mali, Moov Togo and Orange Money Mali, the OTP for Orange Money
/// Côte d'Ivoire and Burkina Faso, nothing for the others.
pub open spec fn extra_field_spec(op: PaydunyaOperator, d: PaymentsAuthorizeRouterData) -> Result<Seq<char>, AuthorizeFault> {
    match op {
        PaydunyaOperator::MoovMali | PaydunyaOperator::MoovTogo | PaydunyaOperator::OrangeMoneyMali => {
            match customer_address_spec(d) {
                Ok(a) => Ok(a),
                Err(n) => Err(AuthorizeFault::MissingField(n)),
            }
        },
        PaydunyaOperator::OrangeMoneyCi | PaydunyaOperator::OrangeMoneyBurkina => {
            match orange_money_otp(d.payment_method_data) {
                Some(otp) => Ok(otp),
                None => Err(AuthorizeFault::MissingField(OTP_FIELD@)),
            }
        },
        _ => Ok(Seq::empty()),
    }
}

/// What authorizing `d` yields: the operator, common fields and extra field,
/// or the first fault met (operator, then common fields, then extra field).
pub open spec fn authorize_spec(d: PaymentsAuthorizeRouterData) -> Result<(PaydunyaOperator, CommonFieldsView, Seq<char>), AuthorizeFault> {
    match operator_for(d.payment_method_type, billing_country(d)) {
        None => Err(AuthorizeFault::OperatorUnresolved),
        Some(op) => match common_fields_spec(d) {
            Err(f) => Err(f),
            Ok(c) => match extra_field_spec(op, d) {
                Err(f) => Err(f),
                Ok(extra) => Ok((op, c, extra)),
            },
        },
    }
}

/// The OTP carried by an Orange Money redirect wallet; `None` for any other
/// wallet or payment method.
pub fn extract_orange_money_otp(payment_method_data: &PaymentMethodData) -> (r: Option<String>)
    ensures
        opt_view(r) == orange_money_otp(*payment_method_data),
{
    match payment_method_data {
        PaymentMethodData::Wallet(WalletData::OrangeMoneyRedirect { otp }) => match otp {
            Some(o) => Some(o.clone()),
            None => None,
        },
        _ => None,
    }
}

/// The free-form payer address some SOFTPAY endpoints require: the billing
/// city, falling back to address line 1.
pub fn billing_customer_address(item: &PaydunyaRouterData<&PaymentsAuthorizeRouterData>) -> (r: Result<String, ConnectorError>)
    ensures
        text_result_matches(r, customer_address_spec(*item.router_data)),
{
    let address = match item.router_data.get_optional_billing_details() {
        Some(a) => a,
        None => return Err(ConnectorError::MissingRequiredField { field_name: "billing.address" }),
    };
    match address.get_city() {
        Ok(city) => Ok(city),
        Err(_) => address.get_line1(),
    }
}

/// The view of the common fields.
pub open spec fn common_view(c: CommonAuthorizeFields) -> CommonFieldsView {
    CommonFieldsView {
        full_name: c.full_name@,
        email: c.email@,
        phone_number: c.phone_number@,
        payment_token: c.payment_token@,
    }
}

impl CommonAuthorizeFields {
    /// Gathers the fields every operator needs; the invoice token must have
    /// been stored by the preprocessing flow.
    pub fn try_from_router_data(item: &PaydunyaRouterData<&PaymentsAuthorizeRouterData>) -> (r: Result<Self, ConnectorError>)
        ensures
            match common_fields_spec(*item.router_data) {
                Ok(c) => r matches Ok(f) && common_view(f) == c,
                Err(fault) => r matches Err(e) && fault_matches(e, fault, *item.router_data),
            },
    {
        let router_data = item.router_data;
        let payment_token = match &router_data.preprocessing_id {
            Some(t) => t.clone(),
            None => return Err(
                ConnectorError::MissingConnectorRelatedTransactionID { id: owned(INVOICE_TOKEN_ID) },
            ),
        };
        let billing = match router_data.get_optional_billing_details() {
            Some(a) => a,
            None => return Err(ConnectorError::MissingRequiredField { field_name: "billing.address" }),
        };
        let full_name = match billing.get_full_name() {
            Ok(n) => n,
            Err(e) => return Err(e),
        };
        let phone_number = match router_data.get_billing_phone_number() {
            Ok(p) => p,
            Err(e) => return Err(e),
        };
        let email = match router_data.get_email() {
            Ok(e) => e,
            Err(e) => return Err(e),
        };
        Ok(CommonAuthorizeFields { full_name, email, phone_number, payment_token })
    }
}

fn required_otp(payment_method_data: &PaymentMethodData) -> (r: Result<String, ConnectorError>)
    ensures
        match orange_money_otp(*payment_method_data) {
            Some(otp) => r matches Ok(o) && o@ == otp,
            None => r matches Err(e) && is_missing_field(e, OTP_FIELD@),
        },
{
    match extract_orange_money_otp(payment_method_data) {
        Some(otp) => Ok(otp),
        None => Err(ConnectorError::MissingRequiredField { field_name: OTP_FIELD }),
    }
}

fn customer_address(item: &PaydunyaRouterData<&PaymentsAuthorizeRouterData>) -> (r: Result<String, ConnectorError>)
    ensures
        match customer_address_spec(*item.router_data) {
            Ok(a) => r matches Ok(s) && s@ == a,
            Err(n) => r matches Err(e) && is_missing_field(e, n),
        },
{
    billing_customer_address(item)
}

impl PaydunyaPaymentsRequest {
    /// Builds the SOFTPAY body for the operator the payment resolves to.
    pub fn try_from_router_data(item: &PaydunyaRouterData<&PaymentsAuthorizeRouterData>) -> (r: Result<Self, ConnectorError>)
        ensures
            match authorize_spec(*item.router_data) {
                Ok((op, c, extra)) => r matches Ok(q) && request_for(q, op, c, extra),
                Err(fault) => r matches Err(e) && fault_matches(e, fault, *item.router_data),
            },
    {
        let country = match item.router_data.get_optional_billing_details() {
            Some(a) => match &a.country {
                Some(c) => Some(c.as_str()),
                None => None,
            },
            None => None,
        };
        let operator = match PaydunyaOperator::resolve(item.router_data.payment_method_type, country) {
            Ok(op) => op,
            Err(e) => return Err(e),
        };
        let common = match CommonAuthorizeFields::try_from_router_data(item) {
            Ok(c) => c,
            Err(e) => return Err(e),
        };
        let request = match operator {
            PaydunyaOperator::MtnBenin => Self::MtnBenin(PaydunyaMtnBeninRequest {
                mtn_benin_customer_fullname: common.full_name,
                mtn_benin_email: common.email,
                mtn_benin_phone_number: common.phone_number,
                mtn_benin_wallet_provider: operator.wallet_provider().unwrap_or("MTNBENIN"),
                payment_token: common.payment_token,
            }),
            PaydunyaOperator::MtnCi => Self::MtnCi(PaydunyaMtnCiRequest {
                mtn_ci_customer_fullname: common.full_name,
                mtn_ci_email: common.email,
                mtn_ci_phone_number: common.phone_number,
                mtn_ci_wallet_provider: operator.wallet_provider().unwrap_or("MTNCI"),
                payment_token: common.payment_token,
            }),
            PaydunyaOperator::MtnCameroun => Self::MtnCameroun(PaydunyaMtnCamerounRequest {
                mtn_cameroun_customer_fullname: common.full_name,
                mtn_cameroun_email: common.email,
                mtn_cameroun_phone_number: common.phone_number,
                mtn_cameroun_wallet_provider: operator.wallet_provider().unwrap_or("MTNCAMEROUN"),
                payment_token: common.payment_token,
            }),
            PaydunyaOperator::MoovBenin => Self::MoovBenin(PaydunyaMoovBeninRequest {
                moov_benin_customer_fullname: common.full_name,
                moov_benin_email: common.email,
                moov_benin_phone_number: common.phone_number,
                payment_token: common.payment_token,
            }),
            PaydunyaOperator::MoovCi => Self::MoovCi(PaydunyaMoovCiRequest {
                moov_ci_customer_fullname: common.full_name,
                moov_ci_email: common.email,
                moov_ci_phone_number: common.phone_number,
                payment_token: common.payment_token,
            }),
            PaydunyaOperator::MoovMali => {
                let address = match customer_address(item) {
                    Ok(a) => a,
                    Err(e) => return Err(e),
                };
                Self::MoovMali(PaydunyaMoovMaliRequest {
                    moov_ml_customer_fullname: common.full_name,
                    moov_ml_email: common.email,
                    moov_ml_phone_number: common.phone_number,
                    moov_ml_customer_address: address,
                    payment_token: common.payment_token,
                })
            },
            PaydunyaOperator::MoovTogo => {
                let address = match customer_address(item) {
                    Ok(a) => a,
                    Err(e) => return Err(e),
                };
                Self::MoovTogo(PaydunyaMoovTogoRequest {
                    moov_togo_customer_fullname: common.full_name,
                    moov_togo_email: common.email,
                    moov_togo_customer_address: address,
                    moov_togo_phone_number: common.phone_number,
                    payment_token: common.payment_token,
                })
            },
            PaydunyaOperator::MoovBurkina => Self::MoovBurkina(PaydunyaMoovBurkinaRequest {
                moov_burkina_faso_full_name: common.full_name,
                moov_burkina_faso_email: common.email,
                moov_burkina_faso_phone_number: common.phone_number,
                moov_burkina_faso_payment_token: common.payment_token,
            }),
            PaydunyaOperator::OrangeMoneyCi => {
                // The payer generates this code through USSD before confirming;
                // the call is refused outright when it is not supplied.
                let otp = match required_otp(&item.router_data.payment_method_data) {
                    Ok(o) => o,
                    Err(e) => return Err(e),
                };
                Self::OrangeMoneyCi(PaydunyaOrangeMoneyCiRequest {
                    orange_money_ci_customer_fullname: common.full_name,
                    orange_money_ci_email: common.email,
                    orange_money_ci_phone_number: common.phone_number,
                    orange_money_ci_otp: otp,
                    payment_token: common.payment_token,
                })
            },
            PaydunyaOperator::OrangeMoneyBurkina => {
                let otp = match required_otp(&item.router_data.payment_method_data) {
                    Ok(o) => o,
                    Err(e) => return Err(e),
                };
                Self::OrangeMoneyBurkina(PaydunyaOrangeMoneyBurkinaRequest {
                    name_bf: common.full_name,
                    email_bf: common.email,
                    phone_bf: common.phone_number,
                    otp_code: otp,
                    payment_token: common.payment_token,
                })
            },
            PaydunyaOperator::OrangeMoneySenegal => Self::OrangeMoneySenegal(
                PaydunyaOrangeMoneySenegalRequest {
                    customer_name: common.full_name,
                    customer_email: common.email,
                    phone_number: common.phone_number,
                    invoice_token: common.payment_token,
                },
            ),
            PaydunyaOperator::OrangeMoneyMali => {
                let address = match customer_address(item) {
                    Ok(a) => a,
                    Err(e) => return Err(e),
                };
                Self::OrangeMoneyMali(PaydunyaOrangeMoneyMaliRequest {
                    orange_money_mali_customer_fullname: common.full_name,
                    orange_money_mali_email: common.email,
                    orange_money_mali_phone_number: common.phone_number,
                    orange_money_mali_customer_address: address,
                    payment_token: common.payment_token,
                })
            },
            PaydunyaOperator::WaveSenegal => Self::WaveSenegal(PaydunyaWaveSenegalRequest {
                wave_senegal_full_name: common.full_name,
                wave_senegal_email: common.email,
                wave_senegal_phone: common.phone_number,
                wave_senegal_payment_token: common.payment_token,
            }),
            PaydunyaOperator::WaveCi => Self::WaveCi(PaydunyaWaveCiRequest {
                wave_ci_full_name: common.full_name,
                wave_ci_email: common.email,
                wave_ci_phone: common.phone_number,
                wave_ci_payment_token: common.payment_token,
            }),
            PaydunyaOperator::FreeMoneySenegal => Self::FreeMoneySenegal(
                PaydunyaFreeMoneySenegalRequest {
                    customer_name: common.full_name,
                    customer_email: common.email,
                    phone_number: common.phone_number,
                    payment_token: common.payment_token,
                },
            ),
            PaydunyaOperator::ExpressoSenegal => Self::ExpressoSenegal(
                PaydunyaExpressoSenegalRequest {
                    expresso_sn_full_name: common.full_name,
                    expresso_sn_email: common.email,
                    expresso_sn_phone: common.phone_number,
                    payment_token: common.payment_token,
                },
            ),
            PaydunyaOperator::DjamoCi | PaydunyaOperator::DjamoSn => Self::Djamo(
                PaydunyaDjamoRequest {
                    djamo_full_name: common.full_name,
                    djamo_email: common.email,
                    djamo_phone: common.phone_number,
                    code_country: operator.djamo_code_country().unwrap_or("ci"),
                    djamo_payment_token: common.payment_token,
                },
            ),
        };
        Ok(request)
    }
}

/// `r` is the body for operator `op` built from the common fields `c`, with
/// `extra` the operator's additional field (payer address or OTP) where it
/// has one.
pub open spec fn request_for(
    r: PaydunyaPaymentsRequest,
    op: PaydunyaOperator,
    c: CommonFieldsView,
    extra: Seq<char>,
) -> bool {
    match op {
        PaydunyaOperator::MtnBenin => {
            &&& r matches PaydunyaPaymentsRequest::MtnBenin(q)
            &&& q.mtn_benin_customer_fullname@ == c.full_name
            &&& q.mtn_benin_email@ == c.email
            &&& q.mtn_benin_phone_number@ == c.phone_number
            &&& Some(q.mtn_benin_wallet_provider@) == wallet_provider_code(op)
            &&& q.payment_token@ == c.payment_token
        },
        PaydunyaOperator::MtnCi => {
            &&& r matches PaydunyaPaymentsRequest::MtnCi(q)
            &&& q.mtn_ci_customer_fullname@ == c.full_name
            &&& q.mtn_ci_email@ == c.email
            &&& q.mtn_ci_phone_number@ == c.phone_number
            &&& Some(q.mtn_ci_wallet_provider@) == wallet_provider_code(op)
            &&& q.payment_token@ == c.payment_token
        },
        PaydunyaOperator::MtnCameroun => {
            &&& r matches PaydunyaPaymentsRequest::MtnCameroun(q)
            &&& q.mtn_cameroun_customer_fullname@ == c.full_name
            &&& q.mtn_cameroun_email@ == c.email
            &&& q.mtn_cameroun_phone_number@ == c.phone_number
            &&& Some(q.mtn_cameroun_wallet_provider@) == wallet_provider_code(op)
            &&& q.payment_token@ == c.payment_token
        },
        PaydunyaOperator::MoovBenin => {
            &&& r matches PaydunyaPaymentsRequest::MoovBenin(q)
            &&& q.moov_benin_customer_fullname@ == c.full_name
            &&& q.moov_benin_email@ == c.email
            &&& q.moov_benin_phone_number@ == c.phone_number
            &&& q.payment_token@ == c.payment_token
        },
        PaydunyaOperator::MoovCi => {
            &&& r matches PaydunyaPaymentsRequest::MoovCi(q)
            &&& q.moov_ci_customer_fullname@ == c.full_name
            &&& q.moov_ci_email@ == c.email
            &&& q.moov_ci_phone_number@ == c.phone_number
            &&& q.payment_token@ == c.payment_token
        },
        PaydunyaOperator::MoovMali => {
            &&& r matches PaydunyaPaymentsRequest::MoovMali(q)
            &&& q.moov_ml_customer_fullname@ == c.full_name
            &&& q.moov_ml_email@ == c.email
            &&& q.moov_ml_phone_number@ == c.phone_number
            &&& q.moov_ml_customer_address@ == extra
            &&& q.payment_token@ == c.payment_token
        },
        PaydunyaOperator::MoovTogo => {
            &&& r matches PaydunyaPaymentsRequest::MoovTogo(q)
            &&& q.moov_togo_customer_fullname@ == c.full_name
            &&& q.moov_togo_email@ == c.email
            &&& q.moov_togo_customer_address@ == extra
            &&& q.moov_togo_phone_number@ == c.phone_number
            &&& q.payment_token@ == c.payment_token
        },
        PaydunyaOperator::MoovBurkina => {
            &&& r matches PaydunyaPaymentsRequest::MoovBurkina(q)
            &&& q.moov_burkina_faso_full_name@ == c.full_name
            &&& q.moov_burkina_faso_email@ == c.email
            &&& q.moov_burkina_faso_phone_number@ == c.phone_number
            &&& q.moov_burkina_faso_payment_token@ == c.payment_token
        },
        PaydunyaOperator::OrangeMoneyCi => {
            &&& r matches PaydunyaPaymentsRequest::OrangeMoneyCi(q)
            &&& q.orange_money_ci_customer_fullname@ == c.full_name
            &&& q.orange_money_ci_email@ == c.email
            &&& q.orange_money_ci_phone_number@ == c.phone_number
            &&& q.orange_money_ci_otp@ == extra
            &&& q.payment_token@ == c.payment_token
        },
        PaydunyaOperator::OrangeMoneySenegal => {
            &&& r matches PaydunyaPaymentsRequest::OrangeMoneySenegal(q)
            &&& q.customer_name@ == c.full_name
            &&& q.customer_email@ == c.email
            &&& q.phone_number@ == c.phone_number
            &&& q.invoice_token@ == c.payment_token
        },
        PaydunyaOperator::OrangeMoneyMali => {
            &&& r matches PaydunyaPaymentsRequest::OrangeMoneyMali(q)
            &&& q.orange_money_mali_customer_fullname@ == c.full_name
            &&& q.orange_money_mali_email@ == c.email
            &&& q.orange_money_mali_phone_number@ == c.phone_number
            &&& q.orange_money_mali_customer_address@ == extra
            &&& q.payment_token@ == c.payment_token
        },
        PaydunyaOperator::OrangeMoneyBurkina => {
            &&& r matches PaydunyaPaymentsRequest::OrangeMoneyBurkina(q)
            &&& q.name_bf@ == c.full_name
            &&& q.email_bf@ == c.email
            &&& q.phone_bf@ == c.phone_number
            &&& q.otp_code@ == extra
            &&& q.payment_token@ == c.payment_token
        },
        PaydunyaOperator::WaveSenegal => {
            &&& r matches PaydunyaPaymentsRequest::WaveSenegal(q)
            &&& q.wave_senegal_full_name@ == c.full_name
            &&& q.wave_senegal_email@ == c.email
            &&& q.wave_senegal_phone@ == c.phone_number
            &&& q.wave_senegal_payment_token@ == c.payment_token
        },
        PaydunyaOperator::WaveCi => {
            &&& r matches PaydunyaPaymentsRequest::WaveCi(q)
            &&& q.wave_ci_full_name@ == c.full_name
            &&& q.wave_ci_email@ == c.email
            &&& q.wave_ci_phone@ == c.phone_number
            &&& q.wave_ci_payment_token@ == c.payment_token
        },
        PaydunyaOperator::FreeMoneySenegal => {
            &&& r matches PaydunyaPaymentsRequest::FreeMoneySenegal(q)
            &&& q.customer_name@ == c.full_name
            &&& q.customer_email@ == c.email
            &&& q.phone_number@ == c.phone_number
            &&& q.payment_token@ == c.payment_token
        },
        PaydunyaOperator::ExpressoSenegal => {
            &&& r matches PaydunyaPaymentsRequest::ExpressoSenegal(q)
            &&& q.expresso_sn_full_name@ == c.full_name
            &&& q.expresso_sn_email@ == c.email
            &&& q.expresso_sn_phone@ == c.phone_number
            &&& q.payment_token@ == c.payment_token
        },
        PaydunyaOperator::DjamoCi | PaydunyaOperator::DjamoSn => {
            &&& r matches PaydunyaPaymentsRequest::Djamo(q)
            &&& q.djamo_full_name@ == c.full_name
            &&& q.djamo_email@ == c.email
            &&& q.djamo_phone@ == c.phone_number
            &&& Some(q.code_country@) == djamo_country_code(op)
            &&& q.djamo_payment_token@ == c.payment_token
        },
    }
}

} // verus!
