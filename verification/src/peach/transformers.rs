//! Payments API request bodies and the reading of its answers: result codes,
//! redirects, refunds and error reasons.

use vstd::prelude::*;

use crate::accessors::{
    address_field, address_parts, billing_details, shipping_details, billing_email, billing_phone, phone_country_code_spec, phone_country_digits_spec,
    phone_number_spec, required, text_result_matches,
};
use crate::domain::{
    bank_name, BankTransferData, PaymentMethodData, PaymentMethodType, PaymentsAuthorizeRouterData,
    PayLaterData, VoucherData, WalletData, opt_view, AttemptStatus, BankNames, BrowserInformation, CapitecPayAccountType,
    AddressDetails, ConnectorAuthType, ConnectorError, ConnectorMetadata, ErrorResponse,
    is_failure_status, is_payment_failure, Method, OrderDetail, PaymentsResponseData,
    PaymentsRouterDataUpdate, RedirectForm, RefundStatus, RefundsResponseData, RefundsRouterData,
    RefundsRouterDataUpdate, ResponseId, NO_ERROR_MESSAGE,
};
use crate::outside::push_char;
use crate::text::{
    bool_text, bool_to_text, decimal, i64_to_text, is_prefix_of, owned, push_text,
    signed_decimal, starts_with, text_eq, trim_start_char, trim_start_char_spec, u64_to_text,
};

verus! {

/// The connector name reported in errors.
pub const CONNECTOR_NAME: &'static str = "Peachpaymentsapm";

/// The Payments API account metadata of a merchant.
#[derive(Debug, Clone)]
pub struct PeachpaymentsapmConnectorMetadataObject {
    /// The Payments API entity id, required for APM payments.
    pub entity_id: String,
}

impl PeachpaymentsapmConnectorMetadataObject {
    /// The metadata, or `InvalidConnectorConfig { config: "metadata" }` when
    /// the merchant configured none of the expected shape.
    pub fn try_from_metadata(meta_data: &Option<ConnectorMetadata>) -> (r: Result<Self, ConnectorError>)
        ensures
            match *meta_data {
                Some(m) => r matches Ok(o) && o.entity_id == m.entity_id,
                None => r matches Err(ConnectorError::InvalidConnectorConfig { config })
                    && config@ == "metadata"@,
            },
    {
        match meta_data {
            Some(m) => Ok(PeachpaymentsapmConnectorMetadataObject { entity_id: m.entity_id.clone() }),
            None => Err(ConnectorError::InvalidConnectorConfig { config: "metadata" }),
        }
    }
}

/// The merchant's Payments API credentials.
pub struct PeachpaymentsapmAuthType {
    pub user_id: String,
    pub password: String,
}

impl PeachpaymentsapmAuthType {
    /// Reads a body-key configuration (`api_key` is the user id, `key1` the
    /// password); any other shape fails with `FailedToObtainAuthType`.
    pub fn try_from_auth_type(auth_type: &ConnectorAuthType) -> (r: Result<Self, ConnectorError>)
        ensures
            match *auth_type {
                ConnectorAuthType::BodyKey { api_key, key1 } => r matches Ok(a) && a.user_id
                    == api_key && a.password == key1,
                _ => r matches Err(ConnectorError::FailedToObtainAuthType),
            },
    {
        match auth_type {
            ConnectorAuthType::BodyKey { api_key, key1 } => Ok(PeachpaymentsapmAuthType {
                user_id: api_key.clone(),
                password: key1.clone(),
            }),
            _ => Err(ConnectorError::FailedToObtainAuthType),
        }
    }
}

/// An amount in major units (a decimal string) together with the router
/// data it belongs to.
pub struct PeachpaymentsApmRouterData<T> {
    pub amount: String,
    pub router_data: T,
}

impl<T> PeachpaymentsApmRouterData<T> {
    /// Pairs an amount with its router data.
    pub fn new(amount: String, router_data: T) -> (r: Self)
        ensures
            r.amount == amount,
            r.router_data == router_data,
    {
        PeachpaymentsApmRouterData { amount, router_data }
    }
}

/// The `authentication` object the Payments API takes in request bodies.
#[derive(Debug)]
pub struct ApmAuthentication {
    pub entity_id: String,
    pub user_id: String,
    pub password: String,
}

/// Why the authentication object cannot be built, checking the credentials
/// before the metadata.
pub open spec fn authentication_fault(auth_type: ConnectorAuthType, meta_data: Option<ConnectorMetadata>) -> Option<ApmFault> {
    if !(auth_type is BodyKey) {
        Some(ApmFault::FailedToObtainAuthType)
    } else if meta_data is None {
        Some(ApmFault::InvalidMetadata)
    } else {
        None
    }
}

/// `a` carries the body-key credentials and the metadata's entity id.
pub open spec fn authentication_matches(a: ApmAuthentication, auth_type: ConnectorAuthType, meta_data: Option<ConnectorMetadata>) -> bool {
    &&& auth_type matches ConnectorAuthType::BodyKey { api_key, key1 }
    &&& a.user_id == api_key
    &&& a.password == key1
    &&& meta_data matches Some(m)
    &&& a.entity_id == m.entity_id
}

impl ApmAuthentication {
    /// Combines the merchant's body-key credentials with the entity id of its
    /// account metadata.
    pub fn try_from_connector_data(auth_type: &ConnectorAuthType, connector_meta_data: &Option<ConnectorMetadata>) -> (r: Result<Self, ConnectorError>)
        ensures
            match authentication_fault(*auth_type, *connector_meta_data) {
                Some(f) => r matches Err(e) && apm_fault_matches(e, f),
                None => r matches Ok(a) && authentication_matches(a, *auth_type, *connector_meta_data),
            },
    {
        let auth = match PeachpaymentsapmAuthType::try_from_auth_type(auth_type) {
            Ok(a) => a,
            Err(e) => return Err(e),
        };
        let metadata = match PeachpaymentsapmConnectorMetadataObject::try_from_metadata(connector_meta_data) {
            Ok(m) => m,
            Err(e) => return Err(e),
        };
        Ok(ApmAuthentication {
            entity_id: metadata.entity_id,
            user_id: auth.user_id,
            password: auth.password,
        })
    }
}

/// Why a Payments API request cannot be built.
pub enum ApmFault {
    /// The credentials are not a body key.
    FailedToObtainAuthType,
    /// The account metadata is missing.
    InvalidMetadata,
    /// The payment method is not one the Payments API serves here.
    NotImplemented,
    /// The named field is missing.
    MissingField(Seq<char>),
    /// PayShap does not serve the named bank.
    UnsupportedBank(BankNames),
    /// An order line amount could not be converted to major units.
    AmountConversionFailed,
}

/// The message of the error for a payment method the connector does not
/// implement.
pub open spec fn unimplemented_message() -> Seq<char> {
    "Selected payment method through Peachpaymentsapm"@
}

/// The message of the error for a bank PayShap does not serve.
pub open spec fn unsupported_bank_message(bank: BankNames) -> Seq<char> {
    "PayShap with bank "@ + bank_name(bank)
}

/// `e` is the error that reports fault `f`.
pub open spec fn apm_fault_matches(e: ConnectorError, f: ApmFault) -> bool {
    match f {
        ApmFault::FailedToObtainAuthType => e is FailedToObtainAuthType,
        ApmFault::InvalidMetadata => e matches ConnectorError::InvalidConnectorConfig { config }
            && config@ == "metadata"@,
        ApmFault::NotImplemented => e matches ConnectorError::NotImplemented(m) && m@
            == unimplemented_message(),
        ApmFault::MissingField(name) => crate::domain::is_missing_field(e, name),
        ApmFault::UnsupportedBank(bank) => e matches ConnectorError::NotSupported {
            message,
            connector,
        } && message@ == unsupported_bank_message(bank) && connector@ == CONNECTOR_NAME@,
        ApmFault::AmountConversionFailed => e is AmountConversionFailed,
    }
}

/// The `paymentBrand` identifiers accepted by the Payments API.
#[derive(Debug, Clone, Copy, PartialEq, Eq, Structural)]
pub enum PeachPaymentBrand {
    CapitecPay,
    PayShap,
    NedbankDirectEft,
    PeachEft,
    Payflex,
    ZeroPay,
    Float,
    HappyPay,
    Mobicred,
    Rcs,
    /// A+ Store Cards
    APlus,
    Mpesa,
    BlinkByEmtel,
    McbJuice,
    /// Scan to Pay (formerly Masterpass)
    ScanToPay,
    Maucas,
    /// 1ForYou / 1Voucher
    OneForYou,
    MoneyBadger,
}

/// The kind of a Payments API transaction.
#[derive(Debug, Clone, Copy, PartialEq, Eq, Structural)]
pub enum PeachApmPaymentType {
    /// Debit (payment)
    DB,
    /// Refund
    RF,
}

/// How a virtual account is identified.
#[derive(Debug, Clone, Copy, PartialEq, Eq, Structural)]
pub enum ApmVirtualAccountType {
    IdNumber,
    Cellphone,
    AccountNumber,
}

/// The virtual account type of a Capitec Pay account type.
pub open spec fn virtual_account_type_of(t: CapitecPayAccountType) -> ApmVirtualAccountType {
    match t {
        CapitecPayAccountType::IdNumber => ApmVirtualAccountType::IdNumber,
        CapitecPayAccountType::Cellphone => ApmVirtualAccountType::Cellphone,
        CapitecPayAccountType::AccountNumber => ApmVirtualAccountType::AccountNumber,
    }
}

impl ApmVirtualAccountType {
    /// The virtual account type with the same meaning.
    pub fn from_capitec(value: CapitecPayAccountType) -> (r: Self)
        ensures
            r == virtual_account_type_of(value),
    {
        match value {
            CapitecPayAccountType::IdNumber => ApmVirtualAccountType::IdNumber,
            CapitecPayAccountType::Cellphone => ApmVirtualAccountType::Cellphone,
            CapitecPayAccountType::AccountNumber => ApmVirtualAccountType::AccountNumber,
        }
    }
}

/// Banks reachable through PayShap.
#[derive(Debug, Clone, Copy, PartialEq, Eq, Structural)]
pub enum PayShapBank {
    FirstNationalBank,
    DiscoveryBank,
    Nedbank,
    TymeBank,
    AbsaBank,
}

/// The PayShap bank for a bank name, if PayShap serves it.
pub open spec fn payshap_bank_of(bank: BankNames) -> Option<PayShapBank> {
    match bank {
        BankNames::FirstNationalBank => Some(PayShapBank::FirstNationalBank),
        BankNames::DiscoveryBank => Some(PayShapBank::DiscoveryBank),
        BankNames::Nedbank => Some(PayShapBank::Nedbank),
        BankNames::TymeBank => Some(PayShapBank::TymeBank),
        BankNames::Absa => Some(PayShapBank::AbsaBank),
        _ => None,
    }
}

fn unsupported_bank(bank: BankNames) -> (r: ConnectorError)
    ensures
        apm_fault_matches(r, ApmFault::UnsupportedBank(bank)),
{
    let mut message = owned("PayShap with bank ");
    push_text(&mut message, bank.debug_name());
    ConnectorError::NotSupported { message, connector: CONNECTOR_NAME }
}

impl PayShapBank {
    /// The PayShap bank for a bank name; `NotSupported` for a bank PayShap
    /// does not serve.
    pub fn try_from_bank(bank: BankNames) -> (r: Result<Self, ConnectorError>)
        ensures
            match payshap_bank_of(bank) {
                Some(b) => r == Ok::<Self, ConnectorError>(b),
                None => r matches Err(e) && apm_fault_matches(e, ApmFault::UnsupportedBank(bank)),
            },
    {
        match bank {
            BankNames::FirstNationalBank => Ok(PayShapBank::FirstNationalBank),
            BankNames::DiscoveryBank => Ok(PayShapBank::DiscoveryBank),
            BankNames::Nedbank => Ok(PayShapBank::Nedbank),
            BankNames::TymeBank => Ok(PayShapBank::TymeBank),
            BankNames::Absa => Ok(PayShapBank::AbsaBank),
            _ => Err(unsupported_bank(bank)),
        }
    }
}

/// The virtual account block of a request.
#[derive(Debug)]
pub struct ApmVirtualAccount {
    pub account_id: Option<String>,
    pub password: Option<String>,
    pub account_type: Option<ApmVirtualAccountType>,
    pub bank: Option<PayShapBank>,
}

/// The browser block of a request: every value as text.
#[derive(Debug)]
pub struct ApmBrowser {
    pub accept_header: Option<String>,
    pub language: Option<String>,
    pub screen_height: Option<String>,
    pub screen_width: Option<String>,
    pub timezone: Option<String>,
    pub user_agent: Option<String>,
    pub java_enabled: Option<String>,
    pub javascript_enabled: Option<String>,
    pub screen_color_depth: Option<String>,
}

/// The decimal text of an optional unsigned number.
pub open spec fn opt_decimal(o: Option<nat>) -> Option<Seq<char>> {
    match o {
        Some(n) => Some(decimal(n)),
        None => None,
    }
}

/// `b` carries the browser information, numbers and flags as their text.
pub open spec fn browser_matches(b: ApmBrowser, info: BrowserInformation) -> bool {
    &&& opt_view(b.accept_header) == opt_view(info.accept_header)
    &&& opt_view(b.language) == opt_view(info.language)
    &&& opt_view(b.screen_height) == opt_decimal(
        match info.screen_height {
            Some(h) => Some(h as nat),
            None => None,
        },
    )
    &&& opt_view(b.screen_width) == opt_decimal(
        match info.screen_width {
            Some(w) => Some(w as nat),
            None => None,
        },
    )
    &&& opt_view(b.timezone) == match info.time_zone {
        Some(tz) => Some(signed_decimal(tz as int)),
        None => None,
    }
    &&& opt_view(b.user_agent) == opt_view(info.user_agent)
    &&& opt_view(b.java_enabled) == match info.java_enabled {
        Some(j) => Some(bool_text(j)),
        None => None,
    }
    &&& opt_view(b.javascript_enabled) == match info.java_script_enabled {
        Some(j) => Some(bool_text(j)),
        None => None,
    }
    &&& opt_view(b.screen_color_depth) == opt_decimal(
        match info.color_depth {
            Some(d) => Some(d as nat),
            None => None,
        },
    )
}

fn clone_opt_text(o: &Option<String>) -> (r: Option<String>)
    ensures
        opt_view(r) == opt_view(*o),
{
    match o {
        Some(s) => Some(s.clone()),
        None => None,
    }
}

impl ApmBrowser {
    /// The browser information as the Payments API takes it: numbers and
    /// flags rendered as text.
    pub fn from_browser_information(browser_info: &BrowserInformation) -> (r: Self)
        ensures
            browser_matches(r, *browser_info),
    {
        ApmBrowser {
            accept_header: clone_opt_text(&browser_info.accept_header),
            language: clone_opt_text(&browser_info.language),
            screen_height: match browser_info.screen_height {
                Some(h) => Some(u64_to_text(h as u64)),
                None => None,
            },
            screen_width: match browser_info.screen_width {
                Some(w) => Some(u64_to_text(w as u64)),
                None => None,
            },
            timezone: match browser_info.time_zone {
                Some(tz) => Some(i64_to_text(tz as i64)),
                None => None,
            },
            user_agent: clone_opt_text(&browser_info.user_agent),
            java_enabled: match browser_info.java_enabled {
                Some(j) => Some(bool_to_text(j)),
                None => None,
            },
            javascript_enabled: match browser_info.java_script_enabled {
                Some(j) => Some(bool_to_text(j)),
                None => None,
            },
            screen_color_depth: match browser_info.color_depth {
                Some(d) => Some(u64_to_text(d as u64)),
                None => None,
            },
        }
    }
}

/// The customer block of a request.
#[derive(Debug)]
pub struct ApmCustomer {
    pub email: Option<String>,
    pub given_name: Option<String>,
    pub surname: Option<String>,
    pub mobile: Option<String>,
    pub ip: Option<String>,
    pub merchant_customer_id: Option<String>,
    pub browser: Option<ApmBrowser>,
}

/// A billing or shipping address block of a request.
#[derive(Debug)]
pub struct ApmAddress {
    pub street1: Option<String>,
    pub street2: Option<String>,
    pub city: Option<String>,
    pub state: Option<String>,
    pub postcode: Option<String>,
    /// ISO 3166-1 alpha-2 country code.
    pub country: Option<String>,
}

/// The address has none of its parts.
pub open spec fn address_is_empty(a: ApmAddress) -> bool {
    &&& a.street1 is None
    &&& a.street2 is None
    &&& a.city is None
    &&& a.state is None
    &&& a.postcode is None
    &&& a.country is None
}

impl ApmAddress {
    /// The address, or `None` when it has none of its parts.
    pub fn into_option(self) -> (r: Option<Self>)
        ensures
            address_is_empty(self) ==> r is None,
            !address_is_empty(self) ==> r == Some(self),
    {
        let is_empty = self.street1.is_none() && self.street2.is_none() && self.city.is_none()
            && self.state.is_none() && self.postcode.is_none() && self.country.is_none();
        if is_empty {
            None
        } else {
            Some(self)
        }
    }
}

/// The shopper's RCS store card number, passed in a top-level `card` object.
#[derive(Debug)]
pub struct ApmCard {
    pub number: String,
}

/// One line of the shopping cart.
#[derive(Debug)]
pub struct ApmCartItem {
    pub name: String,
    pub quantity: String,
    /// Major units, as a decimal string.
    pub price: String,
}

/// The shopping cart block of a request.
#[derive(Debug)]
pub struct ApmCart {
    pub cart_item: Vec<ApmCartItem>,
}

/// Custom parameters of a request.
#[derive(Debug)]
pub struct ApmCustomParameters {
    pub enable_test_mode: String,
}

/// The result block of a Payments API answer.
#[derive(Debug, Clone)]
pub struct ApmResult {
    pub code: String,
    pub description: Option<String>,
    pub parameter_errors: Option<Vec<ApmParameterError>>,
}

/// One rejected request parameter.
#[derive(Debug, Clone)]
pub struct ApmParameterError {
    pub name: Option<String>,
    pub value: Option<String>,
    pub message: Option<String>,
}

/// Result codes of transactions that succeeded: `000.000.*` and `000.100.1*`.
pub open spec fn is_success_code(code: Seq<char>) -> bool {
    is_prefix_of("000.000."@, code) || is_prefix_of("000.100.1"@, code)
}

/// Result codes of transactions still waiting on the shopper: `000.200*`.
pub open spec fn is_pending_code(code: Seq<char>) -> bool {
    is_prefix_of("000.200"@, code)
}

/// Result codes of failed or rejected transactions: `100.*`, `200.*`,
/// `800.*`, `900.*`.
pub open spec fn is_rejection_code(code: Seq<char>) -> bool {
    ||| is_prefix_of("100."@, code)
    ||| is_prefix_of("200."@, code)
    ||| is_prefix_of("800."@, code)
    ||| is_prefix_of("900."@, code)
}

/// The attempt status of a result code.
pub open spec fn attempt_status_for_code(code: Seq<char>) -> AttemptStatus {
    if is_success_code(code) {
        AttemptStatus::Charged
    } else if is_pending_code(code) {
        AttemptStatus::AuthenticationPending
    } else if is_rejection_code(code) {
        AttemptStatus::Failure
    } else {
        AttemptStatus::Pending
    }
}

/// The refund status of a result code.
pub open spec fn refund_status_for_code(code: Seq<char>) -> RefundStatus {
    if is_success_code(code) {
        RefundStatus::Success
    } else if is_rejection_code(code) {
        RefundStatus::Failure
    } else {
        RefundStatus::Pending
    }
}

/// Whether a result code reports success.
pub fn success_code(code: &str) -> (r: bool)
    ensures
        r == is_success_code(code@),
{
    starts_with(code, "000.000.") || starts_with(code, "000.100.1")
}

/// Whether a result code reports a transaction still waiting on the shopper.
pub fn pending_code(code: &str) -> (r: bool)
    ensures
        r == is_pending_code(code@),
{
    starts_with(code, "000.200")
}

/// Whether a result code reports a failed or rejected transaction.
pub fn rejection_code(code: &str) -> (r: bool)
    ensures
        r == is_rejection_code(code@),
{
    starts_with(code, "100.") || starts_with(code, "200.") || starts_with(code, "800.")
        || starts_with(code, "900.")
}

/// Maps a Payments API result code to an attempt status.
///
/// * `000.000.*` / `000.100.1*` - transaction succeeded
/// * `000.200.*` - transaction pending (shopper has to complete the redirect)
/// * `100.*` / `200.*` / `800.*` / `900.*` - transaction failed / rejected
/// * anything else - still pending
pub fn map_apm_result_code_to_attempt_status(code: &str) -> (r: AttemptStatus)
    ensures
        r == attempt_status_for_code(code@),
{
    if success_code(code) {
        AttemptStatus::Charged
    } else if pending_code(code) {
        AttemptStatus::AuthenticationPending
    } else if rejection_code(code) {
        AttemptStatus::Failure
    } else {
        AttemptStatus::Pending
    }
}

/// Maps a Payments API result code to a refund status: success codes are a
/// success, rejection codes a failure, anything else pending.
pub fn map_apm_result_code_to_refund_status(code: &str) -> (r: RefundStatus)
    ensures
        r == refund_status_for_code(code@),
{
    if success_code(code) {
        RefundStatus::Success
    } else if rejection_code(code) {
        RefundStatus::Failure
    } else {
        RefundStatus::Pending
    }
}

/// `"name: message"` for one rejected parameter, with `parameter` and
/// `invalid` standing in for a missing name or message.
pub open spec fn parameter_error_text(e: ApmParameterError) -> Seq<char> {
    let name = match e.name {
        Some(n) => n@,
        None => "parameter"@,
    };
    let message = match e.message {
        Some(m) => m@,
        None => "invalid"@,
    };
    name + ": "@ + message
}

/// The rejected parameters, each as its text, joined by `", "`.
pub open spec fn joined_parameter_errors(s: Seq<ApmParameterError>) -> Seq<char>
    decreases s.len(),
{
    if s.len() == 0 {
        Seq::empty()
    } else if s.len() == 1 {
        parameter_error_text(s[0])
    } else {
        joined_parameter_errors(s.drop_last()) + ", "@ + parameter_error_text(s.last())
    }
}

/// The error reason of a result: the description and the rejected
/// parameters joined by `" - "`, or whichever of the two is present.
pub open spec fn error_reason_spec(r: ApmResult) -> Option<Seq<char>> {
    let params = match r.parameter_errors {
        Some(v) => Some(joined_parameter_errors(v@)),
        None => None,
    };
    match (r.description, params) {
        (Some(d), Some(p)) => Some(d@ + " - "@ + p),
        (Some(d), None) => Some(d@),
        (None, p) => p,
    }
}

fn push_parameter_error(s: &mut String, e: &ApmParameterError)
    ensures
        final(s)@ == old(s)@ + parameter_error_text(*e),
{
    let ghost start = s@;
    match &e.name {
        Some(n) => push_text(s, n.as_str()),
        None => push_text(s, "parameter"),
    }
    push_text(s, ": ");
    match &e.message {
        Some(m) => push_text(s, m.as_str()),
        None => push_text(s, "invalid"),
    }
    assert(s@ =~= start + parameter_error_text(*e));
}

fn join_parameter_errors(errors: &Vec<ApmParameterError>) -> (r: String)
    ensures
        r@ == joined_parameter_errors(errors@),
{
    let mut res = String::new();
    let n = errors.len();
    let mut i: usize = 0;
    while i < n
        invariant
            n == errors@.len(),
            i <= n,
            res@ == joined_parameter_errors(errors@.take(i as int)),
        decreases n - i,
    {
        let ghost before = res@;
        if i != 0 {
            push_text(&mut res, ", ");
        }
        push_parameter_error(&mut res, &errors[i]);
        proof {
            let next = errors@.take(i + 1);
            assert(next.drop_last() =~= errors@.take(i as int));
            assert(next.last() == errors@[i as int]);
            if i == 0 {
                assert(before =~= Seq::<char>::empty());
                assert(res@ =~= joined_parameter_errors(next));
            } else {
                assert(res@ =~= joined_parameter_errors(next));
            }
        }
        i = i + 1;
    }
    assert(errors@.take(n as int) =~= errors@);
    res
}

/// The human-readable reason of a failed result: its description and its
/// rejected parameters (`"name: message"`, joined by `", "`), joined by
/// `" - "` when both are present.
pub fn build_apm_error_reason(result: &ApmResult) -> (r: Option<String>)
    ensures
        opt_view(r) == error_reason_spec(*result),
{
    let parameter_errors = match &result.parameter_errors {
        Some(errors) => Some(join_parameter_errors(errors)),
        None => None,
    };
    match (&result.description, parameter_errors) {
        (Some(description), Some(params)) => {
            let mut text = description.clone();
            push_text(&mut text, " - ");
            push_text(&mut text, params.as_str());
            Some(text)
        },
        (Some(description), None) => Some(description.clone()),
        (None, params) => params,
    }
}


/// The billing phone as `+27-711111200`: country code, a hyphen, and the
/// number without leading zeros (the Payments API requires this shape for
/// PayShap and M-PESA account ids).
pub open spec fn hyphenated_phone_spec(d: PaymentsAuthorizeRouterData) -> Result<Seq<char>, Seq<char>> {
    match billing_phone(d) {
        None => Err("billing.phone"@),
        Some(p) => match phone_country_code_spec(p) {
            Err(n) => Err(n),
            Ok(cc) => match phone_number_spec(p) {
                Err(n) => Err(n),
                Ok(number) => Ok(cc + "-"@ + trim_start_char_spec(number, '0')),
            },
        },
    }
}

/// The billing phone as the local `0711111200`: a zero followed by the
/// number without leading zeros (Capitec Pay's format).
pub open spec fn local_phone_spec(d: PaymentsAuthorizeRouterData) -> Result<Seq<char>, Seq<char>> {
    match billing_phone(d) {
        None => Err("billing.phone"@),
        Some(p) => match phone_number_spec(p) {
            Err(n) => Err(n),
            Ok(number) => Ok("0"@ + trim_start_char_spec(number, '0')),
        },
    }
}

/// The billing phone as digits only, `27711111200`: the country code without
/// its `+`, then the number without leading zeros.
pub open spec fn customer_mobile_spec(d: PaymentsAuthorizeRouterData) -> Result<Seq<char>, Seq<char>> {
    match billing_phone(d) {
        None => Err("billing.phone"@),
        Some(p) => match phone_country_digits_spec(p) {
            Err(n) => Err(n),
            Ok(cc) => match phone_number_spec(p) {
                Err(n) => Err(n),
                Ok(number) => Ok(cc + trim_start_char_spec(number, '0')),
            },
        },
    }
}

/// The billing phone's number as given.
pub open spec fn raw_phone_number_spec(d: PaymentsAuthorizeRouterData) -> Result<Seq<char>, Seq<char>> {
    match billing_phone(d) {
        None => Err("billing.phone"@),
        Some(p) => phone_number_spec(p),
    }
}

/// Billing phone in `+27-711111200` format: the Payments API requires
/// `virtualAccount.accountId` to match `^\+[0-9]{1,3}-[0-9]{1,30}$` for
/// PayShap and M-PESA.
pub fn get_hyphenated_international_phone(item: &PaymentsAuthorizeRouterData) -> (r: Result<String, ConnectorError>)
    ensures
        text_result_matches(r, hyphenated_phone_spec(*item)),
{
    let phone = match item.get_billing_phone() {
        Ok(p) => p,
        Err(e) => return Err(e),
    };
    let mut text = match phone.get_country_code() {
        Ok(cc) => cc,
        Err(e) => return Err(e),
    };
    let number = match phone.get_number() {
        Ok(n) => n,
        Err(e) => return Err(e),
    };
    let ghost cc = text@;
    push_char(&mut text, '-');
    push_text(&mut text, trim_start_char(number.as_str(), '0'));
    assert(text@ =~= cc + "-"@ + trim_start_char_spec(number@, '0')) by {
        reveal_strlit("-");
    }
    Ok(text)
}

/// Billing phone in local `0711111200` format: Capitec Pay requires a 10
/// digit cellphone number starting with 0.
pub fn get_local_phone_number(item: &PaymentsAuthorizeRouterData) -> (r: Result<String, ConnectorError>)
    ensures
        text_result_matches(r, local_phone_spec(*item)),
{
    let phone = match item.get_billing_phone() {
        Ok(p) => p,
        Err(e) => return Err(e),
    };
    let number = match phone.get_number() {
        Ok(n) => n,
        Err(e) => return Err(e),
    };
    let mut text = owned("0");
    push_text(&mut text, trim_start_char(number.as_str(), '0'));
    Ok(text)
}

/// Billing phone in `27711111200` format (digits only, country code without
/// the plus), as `customer.mobile` requires.
pub fn get_customer_mobile(item: &PaymentsAuthorizeRouterData) -> (r: Result<String, ConnectorError>)
    ensures
        text_result_matches(r, customer_mobile_spec(*item)),
{
    let phone = match item.get_billing_phone() {
        Ok(p) => p,
        Err(e) => return Err(e),
    };
    let mut text = match phone.extract_country_code() {
        Ok(cc) => cc,
        Err(e) => return Err(e),
    };
    let number = match phone.get_number() {
        Ok(n) => n,
        Err(e) => return Err(e),
    };
    push_text(&mut text, trim_start_char(number.as_str(), '0'));
    Ok(text)
}

/// The text of a virtual account block.
pub struct VirtualAccountView {
    pub account_id: Option<Seq<char>>,
    pub password: Option<Seq<char>>,
    pub account_type: Option<ApmVirtualAccountType>,
    pub bank: Option<PayShapBank>,
}

/// The view of a virtual account block.
pub open spec fn virtual_account_view(v: ApmVirtualAccount) -> VirtualAccountView {
    VirtualAccountView {
        account_id: opt_view(v.account_id),
        password: opt_view(v.password),
        account_type: v.account_type,
        bank: v.bank,
    }
}

/// A virtual account identified by an account id alone.
pub open spec fn account_id_only(id: Seq<char>) -> VirtualAccountView {
    VirtualAccountView { account_id: Some(id), password: None, account_type: None, bank: None }
}

/// M-PESA takes the digits-only number with country code, e.g. `254111111111`.
pub fn digits_cellphone_virtual_account(item: &PaymentsAuthorizeRouterData) -> (r: Result<ApmVirtualAccount, ConnectorError>)
    ensures
        match customer_mobile_spec(*item) {
            Ok(m) => r matches Ok(v) && virtual_account_view(v) == account_id_only(m),
            Err(n) => r matches Err(e) && crate::domain::is_missing_field(e, n),
        },
{
    let mobile = match get_customer_mobile(item) {
        Ok(m) => m,
        Err(e) => return Err(e),
    };
    Ok(ApmVirtualAccount { account_id: Some(mobile), password: None, account_type: None, bank: None })
}

/// blink by Emtel and MCB Juice take the local 8 digit Mauritian number
/// without a country code.
pub fn local_number_virtual_account(item: &PaymentsAuthorizeRouterData) -> (r: Result<ApmVirtualAccount, ConnectorError>)
    ensures
        match raw_phone_number_spec(*item) {
            Ok(m) => r matches Ok(v) && virtual_account_view(v) == account_id_only(m),
            Err(n) => r matches Err(e) && crate::domain::is_missing_field(e, n),
        },
{
    let phone = match item.get_billing_phone() {
        Ok(p) => p,
        Err(e) => return Err(e),
    };
    let number = match phone.get_number() {
        Ok(n) => n,
        Err(e) => return Err(e),
    };
    Ok(ApmVirtualAccount { account_id: Some(number), password: None, account_type: None, bank: None })
}

/// Lifts a missing-field result into a fault result.
pub open spec fn lift(r: Result<Seq<char>, Seq<char>>) -> Result<Seq<char>, ApmFault> {
    match r {
        Ok(t) => Ok(t),
        Err(n) => Err(ApmFault::MissingField(n)),
    }
}

/// The brand, virtual account and card number a payment method maps to.
pub type BrandDetailsView = (PeachPaymentBrand, Option<VirtualAccountView>, Option<Seq<char>>);

/// The brand details of a payment, or the fault that prevents them.
pub open spec fn brand_details_spec(d: PaymentsAuthorizeRouterData) -> Result<BrandDetailsView, ApmFault> {
    match d.payment_method_data {
        PaymentMethodData::BankTransfer(bt) => match bt {
            BankTransferData::CapitecPay { account_type, account_id } => {
                let id = match account_id {
                    Some(a) => Ok(a@),
                    None => lift(local_phone_spec(d)),
                };
                match id {
                    Err(f) => Err(f),
                    Ok(id) => Ok((
                        PeachPaymentBrand::CapitecPay,
                        Some(VirtualAccountView {
                            account_id: Some(id),
                            password: None,
                            account_type: Some(match account_type {
                                Some(t) => virtual_account_type_of(t),
                                None => ApmVirtualAccountType::Cellphone,
                            }),
                            bank: None,
                        }),
                        None,
                    )),
                }
            },
            BankTransferData::PayShap { bank } => match bank {
                None => Err(ApmFault::MissingField("payment_method_data.bank_transfer.pay_shap.bank"@)),
                Some(bank) => match lift(hyphenated_phone_spec(d)) {
                    Err(f) => Err(f),
                    Ok(id) => match payshap_bank_of(bank) {
                        None => Err(ApmFault::UnsupportedBank(bank)),
                        Some(b) => Ok((
                            PeachPaymentBrand::PayShap,
                            Some(VirtualAccountView {
                                account_id: Some(id),
                                password: None,
                                account_type: Some(ApmVirtualAccountType::Cellphone),
                                bank: Some(b),
                            }),
                            None,
                        )),
                    },
                },
            },
            BankTransferData::NedbankDirectEft => Ok((PeachPaymentBrand::NedbankDirectEft, None, None)),
            BankTransferData::PeachEft => Ok((PeachPaymentBrand::PeachEft, None, None)),
            _ => Err(ApmFault::NotImplemented),
        },
        PaymentMethodData::PayLater(pl) => match pl {
            PayLaterData::PayflexRedirect => Ok((PeachPaymentBrand::Payflex, None, None)),
            PayLaterData::ZeroPayRedirect => Ok((PeachPaymentBrand::ZeroPay, None, None)),
            PayLaterData::FloatRedirect => Ok((PeachPaymentBrand::Float, None, None)),
            PayLaterData::HappyPayRedirect => Ok((PeachPaymentBrand::HappyPay, None, None)),
            PayLaterData::MobicredRedirect { password } => match password {
                None => Err(ApmFault::MissingField("payment_method_data.pay_later.mobicred_redirect.password"@)),
                Some(pw) => match lift(required(billing_email(d), "payment_method_data.billing.email"@)) {
                    Err(f) => Err(f),
                    Ok(email) => Ok((
                        PeachPaymentBrand::Mobicred,
                        Some(VirtualAccountView {
                            account_id: Some(email),
                            password: Some(pw@),
                            account_type: None,
                            bank: None,
                        }),
                        None,
                    )),
                },
            },
            PayLaterData::APlusRedirect => match lift(required(billing_email(d), "payment_method_data.billing.email"@)) {
                Err(f) => Err(f),
                Ok(email) => Ok((PeachPaymentBrand::APlus, Some(account_id_only(email)), None)),
            },
            PayLaterData::RcsRedirect { card_number } => Ok((PeachPaymentBrand::Rcs, None, opt_view(card_number))),
            _ => Err(ApmFault::NotImplemented),
        },
        PaymentMethodData::Wallet(w) => match w {
            WalletData::MpesaRedirect => match lift(customer_mobile_spec(d)) {
                Err(f) => Err(f),
                Ok(m) => Ok((PeachPaymentBrand::Mpesa, Some(account_id_only(m)), None)),
            },
            WalletData::BlinkByEmtelRedirect => match lift(raw_phone_number_spec(d)) {
                Err(f) => Err(f),
                Ok(m) => Ok((PeachPaymentBrand::BlinkByEmtel, Some(account_id_only(m)), None)),
            },
            WalletData::McbJuiceRedirect => match lift(raw_phone_number_spec(d)) {
                Err(f) => Err(f),
                Ok(m) => Ok((PeachPaymentBrand::McbJuice, Some(account_id_only(m)), None)),
            },
            WalletData::ScanToPayRedirect => Ok((PeachPaymentBrand::ScanToPay, None, None)),
            WalletData::MaucasRedirect => Ok((PeachPaymentBrand::Maucas, None, None)),
            _ => Err(ApmFault::NotImplemented),
        },
        PaymentMethodData::Voucher(VoucherData::OneForYou { voucher_pin }) => match voucher_pin {
            None => Err(ApmFault::MissingField("payment_method_data.voucher.one_for_you.voucher_pin"@)),
            Some(pin) => Ok((
                PeachPaymentBrand::OneForYou,
                Some(VirtualAccountView {
                    account_id: None,
                    password: Some(pin@),
                    account_type: None,
                    bank: None,
                }),
                None,
            )),
        },
        // MoneyBadger is the only crypto method on the Payments API.
        PaymentMethodData::Crypto => if d.payment_method_type == Some(PaymentMethodType::MoneyBadger) {
            Ok((PeachPaymentBrand::MoneyBadger, None, None))
        } else {
            Err(ApmFault::NotImplemented)
        },
        _ => Err(ApmFault::NotImplemented),
    }
}

/// The exec brand details of a payment.
pub type ApmBrandDetails = (PeachPaymentBrand, Option<ApmVirtualAccount>, Option<ApmCard>);

/// The view of exec brand details.
pub open spec fn brand_details_view(b: ApmBrandDetails) -> BrandDetailsView {
    (
        b.0,
        match b.1 {
            Some(v) => Some(virtual_account_view(v)),
            None => None,
        },
        match b.2 {
            Some(c) => Some(c.number@),
            None => None,
        },
    )
}

fn not_implemented() -> (r: ConnectorError)
    ensures
        apm_fault_matches(r, ApmFault::NotImplemented),
{
    let mut m = owned("Selected payment method through ");
    push_text(&mut m, CONNECTOR_NAME);
    proof {
        reveal_strlit("Selected payment method through ");
        reveal_strlit("Peachpaymentsapm");
        reveal_strlit("Selected payment method through Peachpaymentsapm");
    }
    assert(m@ =~= unimplemented_message());
    ConnectorError::NotImplemented(m)
}

fn billing_email_required(item: &PaymentsAuthorizeRouterData) -> (r: Result<String, ConnectorError>)
    ensures
        match required(billing_email(*item), "payment_method_data.billing.email"@) {
            Ok(t) => r matches Ok(s) && s@ == t,
            Err(n) => r matches Err(e) && crate::domain::is_missing_field(e, n),
        },
{
    item.get_billing_email()
}

/// The brand the Payments API takes for the payment method, with the
/// virtual account or store card that brand requires.
pub fn get_apm_brand_details(item: &PaymentsAuthorizeRouterData) -> (r: Result<ApmBrandDetails, ConnectorError>)
    ensures
        match brand_details_spec(*item) {
            Ok(b) => r matches Ok(x) && brand_details_view(x) == b,
            Err(f) => r matches Err(e) && apm_fault_matches(e, f),
        },
{
    match &item.payment_method_data {
        PaymentMethodData::BankTransfer(bank_transfer_data) => match bank_transfer_data {
            BankTransferData::CapitecPay { account_type, account_id } => {
                let account_id = match account_id {
                    Some(a) => a.clone(),
                    None => match get_local_phone_number(item) {
                        Ok(p) => p,
                        Err(e) => return Err(e),
                    },
                };
                let account_type = match account_type {
                    Some(t) => ApmVirtualAccountType::from_capitec(*t),
                    None => ApmVirtualAccountType::Cellphone,
                };
                Ok((
                    PeachPaymentBrand::CapitecPay,
                    Some(ApmVirtualAccount {
                        account_id: Some(account_id),
                        password: None,
                        account_type: Some(account_type),
                        bank: None,
                    }),
                    None,
                ))
            },
            BankTransferData::PayShap { bank } => {
                let bank = match bank {
                    Some(b) => *b,
                    None => return Err(ConnectorError::MissingRequiredField {
                        field_name: "payment_method_data.bank_transfer.pay_shap.bank",
                    }),
                };
                let account_id = match get_hyphenated_international_phone(item) {
                    Ok(p) => p,
                    Err(e) => return Err(e),
                };
                let payshap_bank = match PayShapBank::try_from_bank(bank) {
                    Ok(b) => b,
                    Err(e) => return Err(e),
                };
                Ok((
                    PeachPaymentBrand::PayShap,
                    Some(ApmVirtualAccount {
                        account_id: Some(account_id),
                        password: None,
                        account_type: Some(ApmVirtualAccountType::Cellphone),
                        bank: Some(payshap_bank),
                    }),
                    None,
                ))
            },
            BankTransferData::NedbankDirectEft => Ok((PeachPaymentBrand::NedbankDirectEft, None, None)),
            BankTransferData::PeachEft => Ok((PeachPaymentBrand::PeachEft, None, None)),
            _ => Err(not_implemented()),
        },
        PaymentMethodData::PayLater(pay_later_data) => match pay_later_data {
            PayLaterData::PayflexRedirect => Ok((PeachPaymentBrand::Payflex, None, None)),
            PayLaterData::ZeroPayRedirect => Ok((PeachPaymentBrand::ZeroPay, None, None)),
            PayLaterData::FloatRedirect => Ok((PeachPaymentBrand::Float, None, None)),
            PayLaterData::HappyPayRedirect => Ok((PeachPaymentBrand::HappyPay, None, None)),
            PayLaterData::MobicredRedirect { password } => {
                let password = match password {
                    Some(p) => p.clone(),
                    None => return Err(ConnectorError::MissingRequiredField {
                        field_name: "payment_method_data.pay_later.mobicred_redirect.password",
                    }),
                };
                let email = match billing_email_required(item) {
                    Ok(e) => e,
                    Err(e) => return Err(e),
                };
                Ok((
                    PeachPaymentBrand::Mobicred,
                    Some(ApmVirtualAccount {
                        account_id: Some(email),
                        password: Some(password),
                        account_type: None,
                        bank: None,
                    }),
                    None,
                ))
            },
            // A+ store cards identify the shopper by their account email.
            PayLaterData::APlusRedirect => {
                let email = match billing_email_required(item) {
                    Ok(e) => e,
                    Err(e) => return Err(e),
                };
                Ok((
                    PeachPaymentBrand::APlus,
                    Some(ApmVirtualAccount {
                        account_id: Some(email),
                        password: None,
                        account_type: None,
                        bank: None,
                    }),
                    None,
                ))
            },
            // RCS store cards pass the card number in a top level `card` object.
            PayLaterData::RcsRedirect { card_number } => Ok((
                PeachPaymentBrand::Rcs,
                None,
                match card_number {
                    Some(n) => Some(ApmCard { number: n.clone() }),
                    None => None,
                },
            )),
            _ => Err(not_implemented()),
        },
        PaymentMethodData::Wallet(wallet_data) => match wallet_data {
            WalletData::MpesaRedirect => match digits_cellphone_virtual_account(item) {
                Ok(v) => Ok((PeachPaymentBrand::Mpesa, Some(v), None)),
                Err(e) => Err(e),
            },
            WalletData::BlinkByEmtelRedirect => match local_number_virtual_account(item) {
                Ok(v) => Ok((PeachPaymentBrand::BlinkByEmtel, Some(v), None)),
                Err(e) => Err(e),
            },
            WalletData::McbJuiceRedirect => match local_number_virtual_account(item) {
                Ok(v) => Ok((PeachPaymentBrand::McbJuice, Some(v), None)),
                Err(e) => Err(e),
            },
            WalletData::ScanToPayRedirect => Ok((PeachPaymentBrand::ScanToPay, None, None)),
            WalletData::MaucasRedirect => Ok((PeachPaymentBrand::Maucas, None, None)),
            _ => Err(not_implemented()),
        },
        PaymentMethodData::Voucher(VoucherData::OneForYou { voucher_pin }) => {
            let voucher_pin = match voucher_pin {
                Some(p) => p.clone(),
                None => return Err(ConnectorError::MissingRequiredField {
                    field_name: "payment_method_data.voucher.one_for_you.voucher_pin",
                }),
            };
            Ok((
                PeachPaymentBrand::OneForYou,
                Some(ApmVirtualAccount {
                    account_id: None,
                    password: Some(voucher_pin),
                    account_type: None,
                    bank: None,
                }),
                None,
            ))
        },
        PaymentMethodData::Crypto => {
            if item.payment_method_type == Some(PaymentMethodType::MoneyBadger) {
                Ok((PeachPaymentBrand::MoneyBadger, None, None))
            } else {
                Err(not_implemented())
            }
        },
        _ => Err(not_implemented()),
    }
}


/// A Payments API debit request.
#[derive(Debug)]
pub struct PeachpaymentsApmPaymentsRequest {
    pub authentication: ApmAuthentication,
    pub merchant_transaction_id: String,
    pub merchant_invoice_id: Option<String>,
    /// Major units, as a decimal string.
    pub amount: String,
    /// ISO 4217 code.
    pub currency: String,
    pub payment_brand: PeachPaymentBrand,
    pub payment_type: PeachApmPaymentType,
    pub shopper_result_url: Option<String>,
    pub virtual_account: Option<ApmVirtualAccount>,
    pub card: Option<ApmCard>,
    pub customer: Option<ApmCustomer>,
    pub billing: Option<ApmAddress>,
    pub shipping: Option<ApmAddress>,
    pub cart: Option<ApmCart>,
    pub custom_parameters: Option<ApmCustomParameters>,
}

/// The shopper's mobile number as sent: required for 1ForYou (a synchronous
/// voucher flow), sent when available for every other brand.
pub open spec fn mobile_spec(d: PaymentsAuthorizeRouterData, brand: PeachPaymentBrand) -> Result<Option<Seq<char>>, ApmFault> {
    if brand == PeachPaymentBrand::OneForYou {
        match customer_mobile_spec(d) {
            Ok(m) => Ok(Some(m)),
            Err(n) => Err(ApmFault::MissingField(n)),
        }
    } else {
        match customer_mobile_spec(d) {
            Ok(m) => Ok(Some(m)),
            Err(_) => Ok(None),
        }
    }
}

/// The order lines, when given and all convertible; an order line whose
/// amount could not be converted fails the request.
pub open spec fn cart_spec(d: PaymentsAuthorizeRouterData) -> Result<Option<Seq<OrderDetail>>, ApmFault> {
    match d.order_details {
        None => Ok(None),
        Some(v) => if exists|i: int| 0 <= i < v@.len() && (#[trigger] v@[i]).amount is None {
            Err(ApmFault::AmountConversionFailed)
        } else {
            Ok(Some(v@))
        },
    }
}

/// What a debit request is built from, or the first fault met: credentials
/// and metadata, then the brand details, then the mobile number, then the
/// cart.
pub open spec fn payments_request_spec(d: PaymentsAuthorizeRouterData) -> Result<(BrandDetailsView, Option<Seq<char>>, Option<Seq<OrderDetail>>), ApmFault> {
    match authentication_fault(d.connector_auth_type, d.connector_meta_data) {
        Some(f) => Err(f),
        None => match brand_details_spec(d) {
            Err(f) => Err(f),
            Ok(b) => match mobile_spec(d, b.0) {
                Err(f) => Err(f),
                Ok(m) => match cart_spec(d) {
                    Err(f) => Err(f),
                    Ok(c) => Ok((b, m, c)),
                },
            },
        },
    }
}

/// `a` is the address block of `details`: absent when the address has none
/// of the forwarded parts, else those parts.
pub open spec fn apm_address_matches(a: Option<ApmAddress>, details: Option<AddressDetails>) -> bool {
    let street1 = address_field(details, |x: AddressDetails| x.line1);
    let street2 = address_field(details, |x: AddressDetails| x.line2);
    let city = address_field(details, |x: AddressDetails| x.city);
    let state = address_field(details, |x: AddressDetails| x.state);
    let postcode = address_field(details, |x: AddressDetails| x.zip);
    let country = address_field(details, |x: AddressDetails| x.country);
    if street1 is None && street2 is None && city is None && state is None && postcode is None
        && country is None {
        a is None
    } else {
        &&& a matches Some(x)
        &&& opt_view(x.street1) == street1
        &&& opt_view(x.street2) == street2
        &&& opt_view(x.city) == city
        &&& opt_view(x.state) == state
        &&& opt_view(x.postcode) == postcode
        &&& opt_view(x.country) == country
    }
}

/// `c` is the customer block of `d` with mobile number `mobile`.
pub open spec fn customer_matches(c: ApmCustomer, d: PaymentsAuthorizeRouterData, mobile: Option<Seq<char>>) -> bool {
    &&& opt_view(c.email) == opt_view(billing_email(d))
    &&& opt_view(c.given_name) == address_field(billing_details(d), |x: AddressDetails| x.first_name)
    &&& opt_view(c.surname) == address_field(billing_details(d), |x: AddressDetails| x.last_name)
    &&& opt_view(c.mobile) == mobile
    &&& opt_view(c.ip) == match d.browser_info {
        Some(b) => opt_view(b.ip_address),
        None => None,
    }
    &&& opt_view(c.merchant_customer_id) == opt_view(d.customer_id)
    &&& match d.browser_info {
        Some(b) => c.browser matches Some(x) && browser_matches(x, b),
        None => c.browser is None,
    }
}

/// `item` is the cart line of order line `o`.
pub open spec fn cart_item_matches(item: ApmCartItem, o: OrderDetail) -> bool {
    &&& item.name@ == o.product_name@
    &&& item.quantity@ == decimal(o.quantity as nat)
    &&& o.amount matches Some(a) && item.price@ == a@
}

/// `c` is the cart block of the order lines `lines`.
pub open spec fn cart_matches(c: Option<ApmCart>, lines: Option<Seq<OrderDetail>>) -> bool {
    match lines {
        None => c is None,
        Some(v) => {
            &&& c matches Some(cart)
            &&& cart.cart_item@.len() == v.len()
            &&& forall|i: int| 0 <= i < v.len() ==> cart_item_matches(#[trigger] cart.cart_item@[i], v[i])
        },
    }
}

/// `q` is the debit request for `item` with the given brand details, mobile
/// number and cart lines.
pub open spec fn payments_request_matches(
    q: PeachpaymentsApmPaymentsRequest,
    item: PeachpaymentsApmRouterData<&PaymentsAuthorizeRouterData>,
    brand: BrandDetailsView,
    mobile: Option<Seq<char>>,
    lines: Option<Seq<OrderDetail>>,
) -> bool {
    let d = *item.router_data;
    &&& authentication_matches(q.authentication, d.connector_auth_type, d.connector_meta_data)
    &&& q.merchant_transaction_id@ == d.connector_request_reference_id@
    &&& opt_view(q.merchant_invoice_id) == opt_view(d.merchant_order_reference_id)
    &&& q.amount@ == item.amount@
    &&& q.currency@ == d.currency@
    &&& brand_details_view((q.payment_brand, q.virtual_account, q.card)) == brand
    &&& q.payment_type == PeachApmPaymentType::DB
    &&& opt_view(q.shopper_result_url) == opt_view(d.router_return_url)
    &&& q.customer matches Some(c) && customer_matches(c, d, mobile)
    &&& apm_address_matches(q.billing, billing_details(d))
    &&& apm_address_matches(q.shipping, shipping_details(d))
    &&& cart_matches(q.cart, lines)
    &&& if d.test_mode == Some(true) {
        q.custom_parameters matches Some(p) && p.enable_test_mode@ == bool_text(true)
    } else {
        q.custom_parameters is None
    }
}

fn build_address(details: Option<&AddressDetails>) -> (r: Option<ApmAddress>)
    ensures
        apm_address_matches(
            r,
            match details {
                Some(a) => Some(*a),
                None => None,
            },
        ),
{
    let parts = address_parts(details);
    ApmAddress {
        street1: parts.line1,
        street2: parts.line2,
        city: parts.city,
        state: parts.state,
        postcode: parts.zip,
        country: parts.country,
    }.into_option()
}

fn build_cart(order_details: &Option<Vec<OrderDetail>>) -> (r: Result<Option<ApmCart>, ConnectorError>)
    ensures
        match *order_details {
            None => r matches Ok(None),
            Some(v) => if exists|i: int| 0 <= i < v@.len() && (#[trigger] v@[i]).amount is None {
                r matches Err(ConnectorError::AmountConversionFailed)
            } else {
                r matches Ok(c) && cart_matches(c, Some(v@))
            },
        },
{
    if order_details.is_none() {
        return Ok(None);
    }
    let lines = order_details.as_ref().unwrap();
    assert(*order_details == Some(*lines));
    let mut items: Vec<ApmCartItem> = Vec::new();
    let n = lines.len();
    let mut i: usize = 0;
    while i < n
        invariant
            *order_details == Some(*lines),
            n == lines@.len(),
            i <= n,
            items@.len() == i,
            forall|j: int| 0 <= j < i ==> (#[trigger] lines@[j]).amount is Some,
            forall|j: int| 0 <= j < i ==> cart_item_matches(#[trigger] items@[j], lines@[j]),
        decreases n - i,
    {
        let line = &lines[i];
        let price = match &line.amount {
            Some(a) => a.clone(),
            None => {
                assert(lines@[i as int].amount is None);
                return Err(ConnectorError::AmountConversionFailed);
            },
        };
        items.push(ApmCartItem {
            name: line.product_name.clone(),
            quantity: u64_to_text(line.quantity as u64),
            price,
        });
        i = i + 1;
    }
    Ok(Some(ApmCart { cart_item: items }))
}

impl PeachpaymentsApmPaymentsRequest {
    /// Builds the debit request for an authorization: credentials, brand
    /// details, the shopper as customer (mobile required for 1ForYou),
    /// billing and shipping addresses that have any part, the cart, and the
    /// test-mode flag.
    pub fn try_from_router_data(item: &PeachpaymentsApmRouterData<&PaymentsAuthorizeRouterData>) -> (r: Result<Self, ConnectorError>)
        ensures
            match payments_request_spec(*item.router_data) {
                Ok((b, m, c)) => r matches Ok(q) && payments_request_matches(q, *item, b, m, c),
                Err(f) => r matches Err(e) && apm_fault_matches(e, f),
            },
    {
        let router_data = item.router_data;
        let authentication = match ApmAuthentication::try_from_connector_data(
            &router_data.connector_auth_type,
            &router_data.connector_meta_data,
        ) {
            Ok(a) => a,
            Err(e) => return Err(e),
        };
        let (payment_brand, virtual_account, card) = match get_apm_brand_details(router_data) {
            Ok(b) => b,
            Err(e) => return Err(e),
        };
        // 1ForYou is a synchronous voucher flow and requires the shopper's
        // mobile number.
        let mobile = if payment_brand == PeachPaymentBrand::OneForYou {
            match get_customer_mobile(router_data) {
                Ok(m) => Some(m),
                Err(e) => return Err(e),
            }
        } else {
            match get_customer_mobile(router_data) {
                Ok(m) => Some(m),
                Err(_) => None,
            }
        };
        // Browser details and ip are forwarded when the SDK collects them.
        let (ip, browser) = match &router_data.browser_info {
            Some(b) => (clone_opt_text(&b.ip_address), Some(ApmBrowser::from_browser_information(b))),
            None => (None, None),
        };
        let billing_details_ref = router_data.get_optional_billing_details();
        let customer = ApmCustomer {
            email: router_data.get_optional_billing_email(),
            given_name: match billing_details_ref {
                Some(a) => clone_opt_text(&a.first_name),
                None => None,
            },
            surname: match billing_details_ref {
                Some(a) => clone_opt_text(&a.last_name),
                None => None,
            },
            mobile,
            ip,
            merchant_customer_id: clone_opt_text(&router_data.customer_id),
            browser,
        };
        let billing = build_address(billing_details_ref);
        let shipping = build_address(router_data.get_optional_shipping_details());
        let cart = match build_cart(&router_data.order_details) {
            Ok(c) => c,
            Err(e) => return Err(e),
        };
        let custom_parameters = match router_data.test_mode {
            Some(true) => Some(ApmCustomParameters { enable_test_mode: bool_to_text(true) }),
            _ => None,
        };
        Ok(PeachpaymentsApmPaymentsRequest {
            authentication,
            merchant_transaction_id: router_data.connector_request_reference_id.clone(),
            merchant_invoice_id: clone_opt_text(&router_data.merchant_order_reference_id),
            amount: item.amount.clone(),
            currency: router_data.currency.clone(),
            payment_brand,
            payment_type: PeachApmPaymentType::DB,
            shopper_result_url: clone_opt_text(&router_data.router_return_url),
            virtual_account,
            card,
            customer: Some(customer),
            billing,
            shipping,
            cart,
            custom_parameters,
        })
    }
}


/// How the shopper's browser is to reach the redirect URL.
#[derive(Debug, Clone, Copy, PartialEq, Eq, Structural)]
pub enum ApmRedirectMethod {
    Get,
    Post,
}

/// One form field of a redirect.
#[derive(Debug, Clone)]
pub struct ApmRedirectParameter {
    pub name: String,
    pub value: String,
}

/// Where the Payments API sends the shopper to complete a payment.
#[derive(Debug, Clone)]
pub struct ApmRedirect {
    pub url: String,
    pub method: Option<ApmRedirectMethod>,
    pub parameters: Vec<ApmRedirectParameter>,
}

/// The value of the last parameter called `name`, if any.
pub open spec fn last_value_for(params: Seq<ApmRedirectParameter>, name: Seq<char>) -> Option<Seq<char>>
    decreases params.len(),
{
    if params.len() == 0 {
        None
    } else if params.last().name@ == name {
        Some(params.last().value@)
    } else {
        last_value_for(params.drop_last(), name)
    }
}

/// No two form fields share a name.
pub open spec fn distinct_names(f: Seq<(String, String)>) -> bool {
    forall|j: int, k: int| 0 <= j < k < f.len() ==> (#[trigger] f[j]).0@ != (#[trigger] f[k]).0@
}

/// The form fields map each parameter name to the value of the last
/// parameter with that name, and hold nothing else: what collecting the
/// parameters into a map gives.
pub open spec fn form_fields_of(f: Seq<(String, String)>, params: Seq<ApmRedirectParameter>) -> bool {
    &&& distinct_names(f)
    &&& forall|k: int| 0 <= k < f.len() ==> last_value_for(params, (#[trigger] f[k]).0@) == Some(f[k].1@)
    &&& forall|name: Seq<char>| #[trigger] last_value_for(params, name) is Some ==> exists|k: int| 0 <= k < f.len() && (#[trigger] f[k]).0@ == name
}

/// The HTTP method of a redirect: POST when asked for, GET otherwise.
pub open spec fn redirect_method(m: Option<ApmRedirectMethod>) -> Method {
    match m {
        Some(ApmRedirectMethod::Post) => Method::Post,
        _ => Method::Get,
    }
}

/// `form` is the redirect form of `redirect`.
pub open spec fn redirect_form_matches(form: RedirectForm, redirect: ApmRedirect) -> bool {
    form matches RedirectForm::Form { endpoint, method, form_fields } && endpoint@ == redirect.url@
        && method == redirect_method(redirect.method) && form_fields_of(form_fields@, redirect.parameters@)
}

fn find_field(f: &Vec<(String, String)>, name: &str) -> (r: Option<usize>)
    ensures
        match r {
            Some(k) => k < f@.len() && f@[k as int].0@ == name@,
            None => forall|k: int| 0 <= k < f@.len() ==> (#[trigger] f@[k]).0@ != name@,
        },
{
    let n = f.len();
    let mut i: usize = 0;
    while i < n
        invariant
            n == f@.len(),
            i <= n,
            forall|k: int| 0 <= k < i ==> (#[trigger] f@[k]).0@ != name@,
        decreases n - i,
    {
        if text_eq(f[i].0.as_str(), name) {
            return Some(i);
        }
        i = i + 1;
    }
    None
}

impl ApmRedirect {
    /// The redirect as a form: the URL as endpoint, POST when asked for and
    /// GET otherwise, and the parameters as form fields (a later parameter
    /// overrides an earlier one of the same name).
    pub fn into_redirect_form(self) -> (r: RedirectForm)
        ensures
            redirect_form_matches(r, self),
    {
        let method = match self.method {
            Some(ApmRedirectMethod::Post) => Method::Post,
            _ => Method::Get,
        };
        let params = &self.parameters;
        let mut fields: Vec<(String, String)> = Vec::new();
        let n = params.len();
        let mut i: usize = 0;
        while i < n
            invariant
                n == params@.len(),
                i <= n,
                form_fields_of(fields@, params@.take(i as int)),
            decreases n - i,
        {
            let ghost prefix = params@.take(i as int);
            let ghost next = params@.take(i + 1);
            let ghost old_fields = fields@;
            let p = &params[i];
            proof {
                assert(next.drop_last() =~= prefix);
                assert(next.last() == params@[i as int]);
            }
            let ghost mut pos: int = 0;
            match find_field(&fields, p.name.as_str()) {
                Some(k) => {
                    let name = fields[k].0.clone();
                    fields.set(k, (name, p.value.clone()));
                    proof {
                        pos = k as int;
                    }
                },
                None => {
                    fields.push((p.name.clone(), p.value.clone()));
                    proof {
                        pos = old_fields.len() as int;
                    }
                },
            }
            assert(0 <= pos < fields@.len() && fields@[pos].0@ == p.name@);
            proof {
                assert(forall|x: Seq<char>| #[trigger] last_value_for(next, x) == if x == p.name@ {
                    Some(p.value@)
                } else {
                    last_value_for(prefix, x)
                });
                assert forall|j: int, k: int| 0 <= j < k < fields@.len() implies (#[trigger] fields@[j]).0@ != (#[trigger] fields@[k]).0@ by {
                    if k == old_fields.len() {
                        assert(fields@[k].0@ == p.name@);
                        assert(fields@[j] == old_fields[j]);
                    } else {
                        assert(old_fields[j].0@ == fields@[j].0@);
                        assert(old_fields[k].0@ == fields@[k].0@);
                    }
                }
                assert forall|k: int| 0 <= k < fields@.len() implies last_value_for(next, (#[trigger] fields@[k]).0@) == Some(fields@[k].1@) by {
                    if fields@[k].0@ == p.name@ {
                    } else {
                        assert(fields@[k] == old_fields[k]);
                    }
                }
                assert forall|x: Seq<char>| #[trigger] last_value_for(next, x) is Some implies exists|k: int| 0 <= k < fields@.len() && (#[trigger] fields@[k]).0@ == x by {
                    if x == p.name@ {
                        assert(fields@[pos].0@ == x);
                    } else {
                        assert(last_value_for(prefix, x) is Some);
                        let k = choose|k: int| 0 <= k < old_fields.len() && (#[trigger] old_fields[k]).0@ == x;
                        assert(fields@[k].0@ == x);
                    }
                }
            }
            i = i + 1;
        }
        proof {
            assert(params@.take(n as int) =~= params@);
        }
        RedirectForm::Form { endpoint: self.url, method, form_fields: fields }
    }
}


/// A Payments API answer about a payment or refund.
#[derive(Debug, Clone)]
pub struct PeachpaymentsApmPaymentsResponse {
    pub id: String,
    pub result: ApmResult,
    pub redirect: Option<ApmRedirect>,
    pub merchant_transaction_id: Option<String>,
    pub payment_type: Option<PeachApmPaymentType>,
}

/// The message of a failed result: its description, else the generic message.
pub open spec fn result_message(r: ApmResult) -> Seq<char> {
    match r.description {
        Some(d) => d@,
        None => NO_ERROR_MESSAGE@,
    }
}

fn message_of(result: &ApmResult) -> (r: String)
    ensures
        r@ == result_message(*result),
{
    match &result.description {
        Some(d) => d.clone(),
        None => owned(NO_ERROR_MESSAGE),
    }
}

impl PeachpaymentsApmPaymentsResponse {
    /// Reads a payment answer: the result code gives the attempt status; a
    /// failure becomes an error response with the result's code, message and
    /// reason, anything else a transaction response with the redirect to
    /// follow, if any.
    pub fn router_data_update(self, http_code: u16) -> (r: PaymentsRouterDataUpdate)
        ensures
            r.status == attempt_status_for_code(self.result.code@),
            r.response is Err <==> is_failure_status(r.status),
            match r.response {
                Err(e) => {
                    &&& e.code@ == self.result.code@
                    &&& e.message@ == result_message(self.result)
                    &&& opt_view(e.reason) == error_reason_spec(self.result)
                    &&& e.status_code == http_code
                    &&& e.attempt_status == Some(r.status)
                    &&& opt_view(e.connector_transaction_id) == Some(self.id@)
                    &&& opt_view(e.connector_response_reference_id) == opt_view(self.merchant_transaction_id)
                },
                Ok(data) => {
                    &&& data matches PaymentsResponseData::TransactionResponse {
                        resource_id: ResponseId::ConnectorTransactionId(rid),
                        redirection_data,
                        connector_response_reference_id,
                    }
                    &&& rid@ == self.id@
                    &&& opt_view(connector_response_reference_id) == opt_view(self.merchant_transaction_id)
                    &&& match self.redirect {
                        Some(redirect) => redirection_data matches Some(form) && redirect_form_matches(form, redirect),
                        None => redirection_data is None,
                    }
                },
            },
    {
        let status = map_apm_result_code_to_attempt_status(self.result.code.as_str());
        let response = if is_payment_failure(status) {
            Err(ErrorResponse {
                code: self.result.code.clone(),
                message: message_of(&self.result),
                reason: build_apm_error_reason(&self.result),
                status_code: http_code,
                attempt_status: Some(status),
                connector_transaction_id: Some(self.id.clone()),
                connector_response_reference_id: clone_opt_text(&self.merchant_transaction_id),
            })
        } else {
            let redirection_data = match self.redirect {
                Some(redirect) => Some(redirect.into_redirect_form()),
                None => None,
            };
            Ok(PaymentsResponseData::TransactionResponse {
                resource_id: ResponseId::ConnectorTransactionId(self.id),
                redirection_data,
                connector_response_reference_id: self.merchant_transaction_id,
            })
        };
        PaymentsRouterDataUpdate { status, response }
    }
}

/// A Payments API refund request.
#[derive(Debug)]
pub struct PeachpaymentsApmRefundRequest {
    pub authentication: ApmAuthentication,
    /// Major units, as a decimal string.
    pub amount: String,
    /// ISO 4217 code.
    pub currency: String,
    pub payment_type: PeachApmPaymentType,
}

impl PeachpaymentsApmRefundRequest {
    /// A refund (`RF`) of the given amount, authenticated with the merchant's
    /// credentials and entity id.
    pub fn try_from_router_data(item: &PeachpaymentsApmRouterData<&RefundsRouterData>) -> (r: Result<Self, ConnectorError>)
        ensures
            match authentication_fault(item.router_data.connector_auth_type, item.router_data.connector_meta_data) {
                Some(f) => r matches Err(e) && apm_fault_matches(e, f),
                None => r matches Ok(q) && {
                    &&& authentication_matches(q.authentication, item.router_data.connector_auth_type, item.router_data.connector_meta_data)
                    &&& q.amount@ == item.amount@
                    &&& q.currency@ == item.router_data.currency@
                    &&& q.payment_type == PeachApmPaymentType::RF
                },
            },
    {
        let authentication = match ApmAuthentication::try_from_connector_data(
            &item.router_data.connector_auth_type,
            &item.router_data.connector_meta_data,
        ) {
            Ok(a) => a,
            Err(e) => return Err(e),
        };
        Ok(PeachpaymentsApmRefundRequest {
            authentication,
            amount: item.amount.clone(),
            currency: item.router_data.currency.clone(),
            payment_type: PeachApmPaymentType::RF,
        })
    }
}

/// `r` is the refund outcome of `response`: an error response exactly when
/// the result code rejects the refund, else the refund id and its status.
pub open spec fn refund_outcome_matches(
    r: Result<RefundsResponseData, ErrorResponse>,
    response: PeachpaymentsApmPaymentsResponse,
    http_code: u16,
) -> bool {
    &&& r is Err <==> refund_status_for_code(response.result.code@) == RefundStatus::Failure
    &&& match r {
        Err(e) => {
            &&& e.code@ == response.result.code@
            &&& e.message@ == result_message(response.result)
            &&& opt_view(e.reason) == error_reason_spec(response.result)
            &&& e.status_code == http_code
            &&& e.attempt_status is None
            &&& e.connector_transaction_id is None
            &&& opt_view(e.connector_response_reference_id) == opt_view(response.merchant_transaction_id)
        },
        Ok(data) => {
            &&& data.connector_refund_id@ == response.id@
            &&& data.refund_status == refund_status_for_code(response.result.code@)
        },
    }
}

/// The refund outcome of a Payments API answer.
pub fn get_apm_refund_response(response: &PeachpaymentsApmPaymentsResponse, http_code: u16) -> (r: Result<RefundsResponseData, ErrorResponse>)
    ensures
        refund_outcome_matches(r, *response, http_code),
{
    let refund_status = map_apm_result_code_to_refund_status(response.result.code.as_str());
    if refund_status == RefundStatus::Failure {
        Err(ErrorResponse {
            code: response.result.code.clone(),
            message: message_of(&response.result),
            reason: build_apm_error_reason(&response.result),
            status_code: http_code,
            attempt_status: None,
            connector_transaction_id: None,
            connector_response_reference_id: clone_opt_text(&response.merchant_transaction_id),
        })
    } else {
        Ok(RefundsResponseData { connector_refund_id: response.id.clone(), refund_status })
    }
}

impl PeachpaymentsApmPaymentsResponse {
    /// Reads a refund answer (for refund execution and refund sync alike).
    pub fn refund_router_data_update(&self, http_code: u16) -> (r: RefundsRouterDataUpdate)
        ensures
            refund_outcome_matches(r.response, *self, http_code),
    {
        RefundsRouterDataUpdate { response: get_apm_refund_response(self, http_code) }
    }
}

/// A decrypted Payments API webhook.
#[derive(Debug, Clone)]
pub struct PeachpaymentsApmWebhook {
    pub id: String,
    pub payment_type: Option<PeachApmPaymentType>,
    pub payment_brand: Option<String>,
    pub merchant_transaction_id: Option<String>,
    pub currency: Option<String>,
    pub result: ApmResult,
    pub timestamp: Option<String>,
}

/// A webhook body that wraps the hex-encoded ciphertext in a JSON object.
#[derive(Debug, Clone)]
pub struct ApmEncryptedWebhookBody {
    pub encrypted_body: String,
}

/// A Payments API error body.
#[derive(Debug, Clone)]
pub struct PeachpaymentsApmErrorResponse {
    pub result: ApmResult,
    pub id: Option<String>,
    pub merchant_transaction_id: Option<String>,
}

} // verus!
