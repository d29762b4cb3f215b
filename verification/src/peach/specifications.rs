//! What the Payments API connector offers: the payment methods it serves and
//! their features, the webhook flows it reports, and how it describes itself.

use vstd::prelude::*;

use super::Peachpaymentsapm;
use crate::domain::{CaptureMethod, PaymentMethod, PaymentMethodType};

verus! {

/// Whether a connector feature is offered.
#[derive(Debug, Clone, Copy, PartialEq, Eq, Structural)]
pub enum FeatureStatus {
    Supported,
    NotSupported,
}

/// The features of one supported payment method.
#[derive(Debug, Clone)]
pub struct PaymentMethodDetails {
    pub mandates: FeatureStatus,
    pub refunds: FeatureStatus,
    pub supported_capture_methods: Vec<CaptureMethod>,
}

/// One payment method the connector serves, with its features.
#[derive(Debug, Clone)]
pub struct SupportedPaymentMethod {
    pub payment_method: PaymentMethod,
    pub payment_method_type: PaymentMethodType,
    pub details: PaymentMethodDetails,
}

/// The kinds of events a connector's webhooks report.
#[derive(Debug, Clone, Copy, PartialEq, Eq, Structural)]
pub enum EventClass {
    Payments,
    Refunds,
}

/// The category a connector belongs to.
#[derive(Debug, Clone, Copy, PartialEq, Eq, Structural)]
pub enum ConnectorCategory {
    PaymentGateway,
}

/// How far a connector's integration has come.
#[derive(Debug, Clone, Copy, PartialEq, Eq, Structural)]
pub enum ConnectorIntegrationStatus {
    Live,
}

/// How a connector describes itself.
#[derive(Debug, Clone)]
pub struct ConnectorInfo {
    pub display_name: &'static str,
    pub description: &'static str,
    pub connector_type: ConnectorCategory,
    pub integration_status: ConnectorIntegrationStatus,
}

/// The payment methods the Payments API serves here, each once, by family:
/// bank transfers, buy-now-pay-later, wallets, the 1ForYou voucher and
/// MoneyBadger.
pub open spec fn supported_method_types() -> Seq<(PaymentMethod, PaymentMethodType)> {
    seq![
        (PaymentMethod::BankTransfer, PaymentMethodType::CapitecPay),
        (PaymentMethod::BankTransfer, PaymentMethodType::PayShap),
        (PaymentMethod::BankTransfer, PaymentMethodType::NedbankDirectEft),
        (PaymentMethod::BankTransfer, PaymentMethodType::PeachEft),
        (PaymentMethod::PayLater, PaymentMethodType::Payflex),
        (PaymentMethod::PayLater, PaymentMethodType::ZeroPay),
        (PaymentMethod::PayLater, PaymentMethodType::Float),
        (PaymentMethod::PayLater, PaymentMethodType::HappyPay),
        (PaymentMethod::PayLater, PaymentMethodType::Mobicred),
        (PaymentMethod::PayLater, PaymentMethodType::Rcs),
        (PaymentMethod::PayLater, PaymentMethodType::APlus),
        (PaymentMethod::Wallet, PaymentMethodType::Mpesa),
        (PaymentMethod::Wallet, PaymentMethodType::BlinkByEmtel),
        (PaymentMethod::Wallet, PaymentMethodType::McbJuice),
        (PaymentMethod::Wallet, PaymentMethodType::ScanToPay),
        (PaymentMethod::Wallet, PaymentMethodType::Maucas),
        (PaymentMethod::Voucher, PaymentMethodType::OneForYou),
        (PaymentMethod::Crypto, PaymentMethodType::MoneyBadger),
    ]
}

/// The features every APM has: refunds, no mandates, automatic capture only.
pub open spec fn is_apm_details(d: PaymentMethodDetails) -> bool {
    &&& d.mandates == FeatureStatus::NotSupported
    &&& d.refunds == FeatureStatus::Supported
    &&& d.supported_capture_methods@ == seq![CaptureMethod::Automatic]
}

fn apm_details() -> (r: PaymentMethodDetails)
    ensures
        is_apm_details(r),
{
    let mut capture_methods: Vec<CaptureMethod> = Vec::new();
    capture_methods.push(CaptureMethod::Automatic);
    assert(capture_methods@ =~= seq![CaptureMethod::Automatic]);
    PaymentMethodDetails {
        mandates: FeatureStatus::NotSupported,
        refunds: FeatureStatus::Supported,
        supported_capture_methods: capture_methods,
    }
}

fn push_supported(
    methods: &mut Vec<SupportedPaymentMethod>,
    payment_method: PaymentMethod,
    payment_method_type: PaymentMethodType,
)
    ensures
        final(methods)@.len() == old(methods)@.len() + 1,
        forall|i: int| 0 <= i < old(methods)@.len() ==> final(methods)@[i] == old(methods)@[i],
        final(methods)@.last().payment_method == payment_method,
        final(methods)@.last().payment_method_type == payment_method_type,
        is_apm_details(final(methods)@.last().details),
{
    methods.push(SupportedPaymentMethod { payment_method, payment_method_type, details: apm_details() });
}

impl Peachpaymentsapm {
    /// The payment methods the connector serves, in the order of
    /// `supported_method_types`, each refundable, without mandates and with
    /// automatic capture only.
    pub fn get_supported_payment_methods(&self) -> (r: Vec<SupportedPaymentMethod>)
        ensures
            r@.len() == supported_method_types().len(),
            forall|i: int| #![trigger r@[i]] 0 <= i < r@.len() ==> (r@[i].payment_method, r@[i].payment_method_type)
                == supported_method_types()[i] && is_apm_details(r@[i].details),
    {
        let mut methods: Vec<SupportedPaymentMethod> = Vec::new();
        push_supported(&mut methods, PaymentMethod::BankTransfer, PaymentMethodType::CapitecPay);
        push_supported(&mut methods, PaymentMethod::BankTransfer, PaymentMethodType::PayShap);
        push_supported(&mut methods, PaymentMethod::BankTransfer, PaymentMethodType::NedbankDirectEft);
        push_supported(&mut methods, PaymentMethod::BankTransfer, PaymentMethodType::PeachEft);
        push_supported(&mut methods, PaymentMethod::PayLater, PaymentMethodType::Payflex);
        push_supported(&mut methods, PaymentMethod::PayLater, PaymentMethodType::ZeroPay);
        push_supported(&mut methods, PaymentMethod::PayLater, PaymentMethodType::Float);
        push_supported(&mut methods, PaymentMethod::PayLater, PaymentMethodType::HappyPay);
        push_supported(&mut methods, PaymentMethod::PayLater, PaymentMethodType::Mobicred);
        push_supported(&mut methods, PaymentMethod::PayLater, PaymentMethodType::Rcs);
        push_supported(&mut methods, PaymentMethod::PayLater, PaymentMethodType::APlus);
        push_supported(&mut methods, PaymentMethod::Wallet, PaymentMethodType::Mpesa);
        push_supported(&mut methods, PaymentMethod::Wallet, PaymentMethodType::BlinkByEmtel);
        push_supported(&mut methods, PaymentMethod::Wallet, PaymentMethodType::McbJuice);
        push_supported(&mut methods, PaymentMethod::Wallet, PaymentMethodType::ScanToPay);
        push_supported(&mut methods, PaymentMethod::Wallet, PaymentMethodType::Maucas);
        push_supported(&mut methods, PaymentMethod::Voucher, PaymentMethodType::OneForYou);
        push_supported(&mut methods, PaymentMethod::Crypto, PaymentMethodType::MoneyBadger);
        methods
    }

    /// Webhooks report payment and refund events.
    pub fn get_supported_webhook_flows(&self) -> (r: Vec<EventClass>)
        ensures
            r@ == seq![EventClass::Payments, EventClass::Refunds],
    {
        let mut flows: Vec<EventClass> = Vec::new();
        flows.push(EventClass::Payments);
        flows.push(EventClass::Refunds);
        assert(flows@ =~= seq![EventClass::Payments, EventClass::Refunds]);
        flows
    }

    /// The connector's name, description, category and status.
    pub fn get_connector_about(&self) -> (r: ConnectorInfo)
        ensures
            r.display_name@ == "Peach Payments APM"@,
            r.description@ == "Alternative payment methods for Peach Payments via the Payments API, including PayShap, Capitec Pay, EFT, buy-now-pay-later, wallets and vouchers."@,
            r.connector_type == ConnectorCategory::PaymentGateway,
            r.integration_status == ConnectorIntegrationStatus::Live,
    {
        ConnectorInfo {
            display_name: "Peach Payments APM",
            description: "Alternative payment methods for Peach Payments via the Payments API, including PayShap, Capitec Pay, EFT, buy-now-pay-later, wallets and vouchers.",
            connector_type: ConnectorCategory::PaymentGateway,
            integration_status: ConnectorIntegrationStatus::Live,
        }
    }
}

} // verus!
