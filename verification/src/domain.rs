//! The payment-domain vocabulary the connectors read and produce: attempt and
//! refund statuses, payment method data, addresses, authentication shapes,
//! connector errors and the error response handed back to the router.

use vstd::prelude::*;

verus! {

/// Status of a payment attempt, as reported upstream.
#[derive(Debug, Clone, Copy, PartialEq, Eq, Structural)]
pub enum AttemptStatus {
    Started,
    AuthenticationFailed,
    AuthenticationPending,
    AuthenticationSuccessful,
    Authorizing,
    Charged,
    Failure,
    Pending,
}

/// Status of a refund, as reported upstream.
#[derive(Debug, Clone, Copy, PartialEq, Eq, Structural)]
pub enum RefundStatus {
    Failure,
    ManualReview,
    Pending,
    Success,
    TransactionFailure,
}

/// The attempt statuses that are failures of the payment.
pub open spec fn is_failure_status(status: AttemptStatus) -> bool {
    status == AttemptStatus::Failure || status == AttemptStatus::AuthenticationFailed
}

/// Whether an attempt status is a failure of the payment.
pub fn is_payment_failure(status: AttemptStatus) -> (r: bool)
    ensures
        r == is_failure_status(status),
{
    match status {
        AttemptStatus::Failure | AttemptStatus::AuthenticationFailed => true,
        _ => false,
    }
}

/// The payment method types these connectors distinguish.
#[derive(Debug, Clone, Copy, PartialEq, Eq, Structural)]
pub enum PaymentMethodType {
    Momo,
    MoovMoney,
    Wave,
    OrangeMoney,
    Djamo,
    CapitecPay,
    PayShap,
    NedbankDirectEft,
    PeachEft,
    Payflex,
    ZeroPay,
    Float,
    HappyPay,
    Mobicred,
    Rcs,
    APlus,
    Mpesa,
    BlinkByEmtel,
    McbJuice,
    ScanToPay,
    Maucas,
    OneForYou,
    MoneyBadger,
    Credit,
    Debit,
}

/// The `Debug` name of a payment method type.
pub open spec fn payment_method_type_name(p: PaymentMethodType) -> Seq<char> {
    match p {
            PaymentMethodType::Momo => "Momo"@,
            PaymentMethodType::MoovMoney => "MoovMoney"@,
            PaymentMethodType::Wave => "Wave"@,
            PaymentMethodType::OrangeMoney => "OrangeMoney"@,
            PaymentMethodType::Djamo => "Djamo"@,
            PaymentMethodType::CapitecPay => "CapitecPay"@,
            PaymentMethodType::PayShap => "PayShap"@,
            PaymentMethodType::NedbankDirectEft => "NedbankDirectEft"@,
            PaymentMethodType::PeachEft => "PeachEft"@,
            PaymentMethodType::Payflex => "Payflex"@,
            PaymentMethodType::ZeroPay => "ZeroPay"@,
            PaymentMethodType::Float => "Float"@,
            PaymentMethodType::HappyPay => "HappyPay"@,
            PaymentMethodType::Mobicred => "Mobicred"@,
            PaymentMethodType::Rcs => "Rcs"@,
            PaymentMethodType::APlus => "APlus"@,
            PaymentMethodType::Mpesa => "Mpesa"@,
            PaymentMethodType::BlinkByEmtel => "BlinkByEmtel"@,
            PaymentMethodType::McbJuice => "McbJuice"@,
            PaymentMethodType::ScanToPay => "ScanToPay"@,
            PaymentMethodType::Maucas => "Maucas"@,
            PaymentMethodType::OneForYou => "OneForYou"@,
            PaymentMethodType::MoneyBadger => "MoneyBadger"@,
            PaymentMethodType::Credit => "Credit"@,
            PaymentMethodType::Debit => "Debit"@,
    }
}

impl PaymentMethodType {
    /// The `Debug` name of this payment method type.
    pub fn debug_name(self) -> (r: &'static str)
        ensures
            r@ == payment_method_type_name(self),
    {
        match self {
            PaymentMethodType::Momo => "Momo",
            PaymentMethodType::MoovMoney => "MoovMoney",
            PaymentMethodType::Wave => "Wave",
            PaymentMethodType::OrangeMoney => "OrangeMoney",
            PaymentMethodType::Djamo => "Djamo",
            PaymentMethodType::CapitecPay => "CapitecPay",
            PaymentMethodType::PayShap => "PayShap",
            PaymentMethodType::NedbankDirectEft => "NedbankDirectEft",
            PaymentMethodType::PeachEft => "PeachEft",
            PaymentMethodType::Payflex => "Payflex",
            PaymentMethodType::ZeroPay => "ZeroPay",
            PaymentMethodType::Float => "Float",
            PaymentMethodType::HappyPay => "HappyPay",
            PaymentMethodType::Mobicred => "Mobicred",
            PaymentMethodType::Rcs => "Rcs",
            PaymentMethodType::APlus => "APlus",
            PaymentMethodType::Mpesa => "Mpesa",
            PaymentMethodType::BlinkByEmtel => "BlinkByEmtel",
            PaymentMethodType::McbJuice => "McbJuice",
            PaymentMethodType::ScanToPay => "ScanToPay",
            PaymentMethodType::Maucas => "Maucas",
            PaymentMethodType::OneForYou => "OneForYou",
            PaymentMethodType::MoneyBadger => "MoneyBadger",
            PaymentMethodType::Credit => "Credit",
            PaymentMethodType::Debit => "Debit",
        }
    }
}

/// The payment method families.
#[derive(Debug, Clone, Copy, PartialEq, Eq, Structural)]
pub enum PaymentMethod {
    BankTransfer,
    PayLater,
    Wallet,
    Voucher,
    Crypto,
}

/// Banks a shopper may name for a bank transfer.
#[derive(Debug, Clone, Copy, PartialEq, Eq, Structural)]
pub enum BankNames {
    Absa,
    Capitec,
    DiscoveryBank,
    FirstNationalBank,
    Investec,
    Nedbank,
    StandardBank,
    TymeBank,
}

/// The `Debug` name of a bank.
pub open spec fn bank_name(b: BankNames) -> Seq<char> {
    match b {
        BankNames::Absa => "Absa"@,
        BankNames::Capitec => "Capitec"@,
        BankNames::DiscoveryBank => "DiscoveryBank"@,
        BankNames::FirstNationalBank => "FirstNationalBank"@,
        BankNames::Investec => "Investec"@,
        BankNames::Nedbank => "Nedbank"@,
        BankNames::StandardBank => "StandardBank"@,
        BankNames::TymeBank => "TymeBank"@,
    }
}

impl BankNames {
    /// The `Debug` name of this bank.
    pub fn debug_name(self) -> (r: &'static str)
        ensures
            r@ == bank_name(self),
    {
        match self {
            BankNames::Absa => "Absa",
            BankNames::Capitec => "Capitec",
            BankNames::DiscoveryBank => "DiscoveryBank",
            BankNames::FirstNationalBank => "FirstNationalBank",
            BankNames::Investec => "Investec",
            BankNames::Nedbank => "Nedbank",
            BankNames::StandardBank => "StandardBank",
            BankNames::TymeBank => "TymeBank",
        }
    }
}

/// How a Capitec Pay shopper identifies their account.
#[derive(Debug, Clone, Copy, PartialEq, Eq, Structural)]
pub enum CapitecPayAccountType {
    IdNumber,
    Cellphone,
    AccountNumber,
}

/// How the merchant's credentials for a connector are shaped.
#[derive(Debug, Clone)]
pub enum ConnectorAuthType {
    TemporaryAuth,
    HeaderKey { api_key: String },
    BodyKey { api_key: String, key1: String },
    SignatureKey { api_key: String, key1: String, api_secret: String },
    MultiAuthKey { api_key: String, key1: String, api_secret: String, key2: String },
    NoKey,
}

/// Errors a connector reports while building requests or reading responses.
#[derive(Debug, Clone)]
pub enum ConnectorError {
    NotImplemented(String),
    NotSupported { message: String, connector: &'static str },
    MissingRequiredField { field_name: &'static str },
    MissingConnectorRelatedTransactionID { id: String },
    MissingConnectorTransactionID,
    FailedToObtainAuthType,
    InvalidConnectorConfig { config: &'static str },
    RequestEncodingFailed,
    ResponseDeserializationFailed,
    AmountConversionFailed,
    CaptureMethodNotSupported,
    FlowNotSupported { flow: String, connector: String },
    WebhookBodyDecodingFailed,
    WebhookVerificationSecretInvalid,
    WebhookSourceVerificationFailed,
}

/// `e` reports that the field called `name` is missing.
pub open spec fn is_missing_field(e: ConnectorError, name: Seq<char>) -> bool {
    e matches ConnectorError::MissingRequiredField { field_name } && field_name@ == name
}

/// Error code used when the connector supplies none.
pub const NO_ERROR_CODE: &'static str = "No error code";

/// Error message used when the connector supplies none.
pub const NO_ERROR_MESSAGE: &'static str = "No error message";

/// The error answer handed back to the router for a failed call.
#[derive(Debug, Clone)]
pub struct ErrorResponse {
    pub status_code: u16,
    pub code: String,
    pub message: String,
    pub reason: Option<String>,
    pub attempt_status: Option<AttemptStatus>,
    pub connector_transaction_id: Option<String>,
    pub connector_response_reference_id: Option<String>,
}

/// The reference under which a connector knows a transaction.
#[derive(Debug, Clone)]
pub enum ResponseId {
    ConnectorTransactionId(String),
    EncodedData(String),
    NoResponseId,
}

/// The view of an optional string.
pub open spec fn opt_view(o: Option<String>) -> Option<Seq<char>> {
    match o {
        Some(s) => Some(s@),
        None => None,
    }
}

/// A phone number as the shopper gave it.
#[derive(Debug, Clone)]
pub struct PhoneDetails {
    pub number: Option<String>,
    pub country_code: Option<String>,
}

/// A postal address and the name attached to it.
#[derive(Debug, Clone)]
pub struct AddressDetails {
    pub city: Option<String>,
    /// ISO 3166-1 alpha-2 country code, e.g. `"BJ"`.
    pub country: Option<String>,
    pub line1: Option<String>,
    pub line2: Option<String>,
    pub zip: Option<String>,
    pub state: Option<String>,
    pub first_name: Option<String>,
    pub last_name: Option<String>,
}

/// A billing or shipping block: address, phone and email.
#[derive(Debug, Clone)]
pub struct Address {
    pub address: Option<AddressDetails>,
    pub phone: Option<PhoneDetails>,
    pub email: Option<String>,
}

/// Wallet payment method data.
#[derive(Debug, Clone)]
pub enum WalletData {
    OrangeMoneyRedirect { otp: Option<String> },
    MomoRedirect,
    MpesaRedirect,
    BlinkByEmtelRedirect,
    McbJuiceRedirect,
    ScanToPayRedirect,
    MaucasRedirect,
    PaypalRedirect,
}

/// Bank transfer payment method data.
#[derive(Debug, Clone)]
pub enum BankTransferData {
    CapitecPay { account_type: Option<CapitecPayAccountType>, account_id: Option<String> },
    PayShap { bank: Option<BankNames> },
    NedbankDirectEft,
    PeachEft,
    SepaBankTransfer,
}

/// Buy-now-pay-later payment method data.
#[derive(Debug, Clone)]
pub enum PayLaterData {
    PayflexRedirect,
    ZeroPayRedirect,
    FloatRedirect,
    HappyPayRedirect,
    MobicredRedirect { password: Option<String> },
    APlusRedirect,
    RcsRedirect { card_number: Option<String> },
    KlarnaRedirect,
}

/// Voucher payment method data.
#[derive(Debug, Clone)]
pub enum VoucherData {
    OneForYou { voucher_pin: Option<String> },
    Boleto,
}

/// The payment method data a shopper supplied.
#[derive(Debug, Clone)]
pub enum PaymentMethodData {
    Card,
    Wallet(WalletData),
    BankTransfer(BankTransferData),
    PayLater(PayLaterData),
    Voucher(VoucherData),
    Crypto,
}

/// What the shopper's browser reported.
#[derive(Debug, Clone)]
pub struct BrowserInformation {
    pub color_depth: Option<u8>,
    pub java_enabled: Option<bool>,
    pub java_script_enabled: Option<bool>,
    pub language: Option<String>,
    pub screen_height: Option<u32>,
    pub screen_width: Option<u32>,
    pub time_zone: Option<i32>,
    /// The textual form of the shopper's IP address.
    pub ip_address: Option<String>,
    pub accept_header: Option<String>,
    pub user_agent: Option<String>,
}

/// One line of the order.
#[derive(Debug, Clone)]
pub struct OrderDetail {
    pub product_name: String,
    pub quantity: u16,
    /// The line amount in major units as a decimal string, or `None` when it
    /// could not be converted for the order's currency.
    pub amount: Option<String>,
}

/// How the merchant asked for the payment to be captured.
#[derive(Debug, Clone, Copy, PartialEq, Eq, Structural)]
pub enum CaptureMethod {
    Automatic,
    Manual,
    ManualMultiple,
    Scheduled,
    SequentialAutomatic,
}

/// The router's view of a payment being authorized: what the connectors
/// read to build their requests.
#[derive(Debug, Clone)]
pub struct PaymentsAuthorizeRouterData {
    pub payment_method_data: PaymentMethodData,
    pub payment_method_type: Option<PaymentMethodType>,
    pub capture_method: Option<CaptureMethod>,
    /// Minor units.
    pub minor_amount: i64,
    /// ISO 4217 code, e.g. `"ZAR"`.
    pub currency: String,
    pub email: Option<String>,
    pub billing: Option<Address>,
    pub shipping: Option<Address>,
    pub customer_id: Option<String>,
    pub browser_info: Option<BrowserInformation>,
    pub order_details: Option<Vec<OrderDetail>>,
    pub router_return_url: Option<String>,
    pub webhook_url: Option<String>,
    pub merchant_order_reference_id: Option<String>,
    pub connector_request_reference_id: String,
    pub preprocessing_id: Option<String>,
    pub test_mode: Option<bool>,
    pub connector_auth_type: ConnectorAuthType,
    /// The connector's account metadata, as read from the merchant's
    /// configuration; `None` when absent or not of the expected shape.
    pub connector_meta_data: Option<ConnectorMetadata>,
}


/// The router's view of an invoice being prepared before authorization.
#[derive(Debug, Clone)]
pub struct PaymentsPreProcessingRouterData {
    /// Minor units.
    pub minor_amount: i64,
    pub webhook_url: Option<String>,
    pub router_return_url: Option<String>,
}

/// HTTP methods.
#[derive(Debug, Clone, Copy, PartialEq, Eq, Structural)]
pub enum Method {
    Get,
    Post,
    Put,
    Delete,
    Patch,
}

/// Where and how the shopper is sent to complete a payment.
#[derive(Debug, Clone)]
pub enum RedirectForm {
    Form {
        endpoint: String,
        method: Method,
        /// Form fields by name; no name occurs twice.
        form_fields: Vec<(String, String)>,
    },
}

/// What the connector reports about a payment that did not fail.
#[derive(Debug, Clone)]
pub enum PaymentsResponseData {
    TransactionResponse {
        resource_id: ResponseId,
        redirection_data: Option<RedirectForm>,
        connector_response_reference_id: Option<String>,
    },
    PreProcessingResponse { pre_processing_id: String },
}

/// What the connector reports about a refund that did not fail.
#[derive(Debug, Clone)]
pub struct RefundsResponseData {
    pub connector_refund_id: String,
    pub refund_status: RefundStatus,
}

/// The parts of the payment router data a connector response rewrites.
#[derive(Debug)]
pub struct PaymentsRouterDataUpdate {
    pub status: AttemptStatus,
    pub response: Result<PaymentsResponseData, ErrorResponse>,
}

/// The parts of the refund router data a connector response rewrites.
#[derive(Debug)]
pub struct RefundsRouterDataUpdate {
    pub response: Result<RefundsResponseData, ErrorResponse>,
}


/// The connector account metadata the Payments API needs.
#[derive(Debug, Clone)]
pub struct ConnectorMetadata {
    /// The Payments API entity id.
    pub entity_id: String,
}

/// The router's view of a refund.
#[derive(Debug, Clone)]
pub struct RefundsRouterData {
    /// Minor units.
    pub minor_refund_amount: i64,
    /// ISO 4217 code, e.g. `"ZAR"`.
    pub currency: String,
    pub connector_transaction_id: String,
    pub connector_refund_id: Option<String>,
    pub connector_auth_type: ConnectorAuthType,
    pub connector_meta_data: Option<ConnectorMetadata>,
}


/// The router's view of a payment being synchronised.
#[derive(Debug, Clone)]
pub struct PaymentsSyncRouterData {
    pub connector_transaction_id: ResponseId,
    pub connector_auth_type: ConnectorAuthType,
    pub connector_meta_data: Option<ConnectorMetadata>,
}

/// Whether a connector takes amounts in major or minor units.
#[derive(Debug, Clone, Copy, PartialEq, Eq, Structural)]
pub enum CurrencyUnit {
    Base,
    Minor,
}

/// Where one connector is reached.
#[derive(Debug, Clone)]
pub struct ConnectorParams {
    pub base_url: String,
}

/// Where each connector is reached.
#[derive(Debug, Clone)]
pub struct Connectors {
    pub peachpaymentsapm: ConnectorParams,
}

/// An HTTP request to send to a connector; its body, if any, is attached by
/// the caller.
#[derive(Debug, Clone)]
pub struct Request {
    pub method: Method,
    pub url: String,
    pub headers: Vec<(String, String)>,
}

/// How a payment is identified in a webhook.
#[derive(Debug, Clone)]
pub enum PaymentIdType {
    ConnectorTransactionId(String),
}

/// How a refund is identified in a webhook.
#[derive(Debug, Clone)]
pub enum RefundIdType {
    ConnectorRefundId(String),
}

/// The object a webhook is about.
#[derive(Debug, Clone)]
pub enum ObjectReferenceId {
    PaymentId(PaymentIdType),
    RefundId(RefundIdType),
}

/// The event an incoming webhook reports.
#[derive(Debug, Clone, Copy, PartialEq, Eq, Structural)]
pub enum IncomingWebhookEvent {
    PaymentIntentSuccess,
    PaymentIntentProcessing,
    PaymentIntentFailure,
    RefundSuccess,
    RefundFailure,
    EventNotSupported,
}

/// Errors of decoding and decrypting data.
#[derive(Debug, Clone, Copy, PartialEq, Eq, Structural)]
pub enum CryptoError {
    DecodingFailed,
    InvalidKeyLength,
    InvalidIvLength,
    InvalidTagLength,
}

} // verus!
