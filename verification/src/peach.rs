//! Peach Payments APM: the Payments API connector for alternative payment
//! methods (bank transfers, buy-now-pay-later, wallets, vouchers, crypto).

pub mod specifications;
pub mod transformers;

use vstd::prelude::*;
use vstd::string::StringSliceAdditionalSpecFns;
use vstd::utf8::{decode_utf8, encode_utf8, encode_utf8_decode_utf8, valid_utf8};

use crate::domain::{
    AttemptStatus, CaptureMethod, ConnectorAuthType, ConnectorError, ConnectorMetadata,
    Connectors, CryptoError, CurrencyUnit, ErrorResponse, IncomingWebhookEvent, Method,
    ObjectReferenceId, PaymentIdType, PaymentsAuthorizeRouterData, PaymentsSyncRouterData,
    RefundIdType, RefundsRouterData, Request, ResponseId, opt_view, NO_ERROR_CODE,
    NO_ERROR_MESSAGE,
};
use crate::outside::{
    aes_gcm_open, append_query_pairs, gcm_open, push_char, hex_decode, hex_decode_spec, pair_views,
    url_with_query_pairs, utf8_lossy, utf8_lossy_text, utf8_text, GcmCipher,
};
use crate::text::{owned, push_text, trim, trim_spec};
use transformers::{
    apm_fault_matches, attempt_status_for_code, authentication_fault, build_apm_error_reason,
    error_reason_spec, is_pending_code, is_rejection_code, is_success_code,
    map_apm_result_code_to_attempt_status, pending_code, rejection_code, result_message,
    success_code, ApmAuthentication, PeachApmPaymentType, PeachpaymentsApmErrorResponse,
    PeachpaymentsApmWebhook,
};

verus! {

/// Header carrying the hex-encoded IV of an encrypted webhook.
pub const APM_WEBHOOK_IV_HEADER: &'static str = "X-Initialization-Vector";

/// Header carrying the hex-encoded authentication tag of an encrypted webhook.
pub const APM_WEBHOOK_AUTH_TAG_HEADER: &'static str = "X-Authentication-Tag";

/// The Peach Payments APM connector.
#[derive(Debug, Clone, Copy)]
pub struct Peachpaymentsapm {}

/// The status URL of a transaction before authentication is appended.
pub open spec fn status_url_base(base: Seq<char>, transaction_id: Seq<char>) -> Seq<char> {
    base + "/payments/"@ + transaction_id
}

/// The authentication query of a status URL.
pub open spec fn status_query(entity_id: Seq<char>, user_id: Seq<char>, password: Seq<char>) -> Seq<(Seq<char>, Seq<char>)> {
    seq![
        ("authentication.entityId"@, entity_id),
        ("authentication.userId"@, user_id),
        ("authentication.password"@, password),
    ]
}

/// `r` is the status URL of `transaction_id`: the authentication fault if
/// the credentials or metadata are unusable, else the base URL with
/// `/payments/{id}` and the authentication query, or `RequestEncodingFailed`
/// when that does not parse as a URL.
pub open spec fn status_url_matches(
    r: Result<String, ConnectorError>,
    base: Seq<char>,
    transaction_id: Seq<char>,
    auth_type: ConnectorAuthType,
    meta_data: Option<ConnectorMetadata>,
) -> bool {
    match authentication_fault(auth_type, meta_data) {
        Some(f) => r matches Err(e) && apm_fault_matches(e, f),
        None => auth_type matches ConnectorAuthType::BodyKey { api_key, key1 } && meta_data matches Some(m)
            && match url_with_query_pairs(status_url_base(base, transaction_id), status_query(m.entity_id@, api_key@, key1@)) {
                Some(u) => r matches Ok(s) && s@ == u,
                None => r matches Err(ConnectorError::RequestEncodingFailed),
            },
    }
}

/// The content-type header every Payments API request carries.
pub open spec fn content_type_header(h: Seq<(String, String)>) -> bool {
    h.len() == 1 && h[0].0@ == "Content-Type"@ && h[0].1@ == "application/json"@
}

/// The message of a 429 answer.
pub const RATE_LIMITED_MESSAGE: &'static str = "Too many requests, the payment is still being processed";

/// The reason of a 429 answer.
pub const RATE_LIMITED_REASON: &'static str = "Rate limited by Peach Payments, status will be updated via webhook or the next sync";

/// `e` is the error response for an answer with status `status_code`, body
/// `body`, and `parsed` the body read as a Payments API error, if it is one.
pub open spec fn error_response_matches(
    e: ErrorResponse,
    status_code: u16,
    body: Seq<u8>,
    parsed: Option<PeachpaymentsApmErrorResponse>,
) -> bool {
    &&& e.status_code == status_code
    &&& if status_code == 429 {
        &&& e.code@ == "RATE_LIMITED"@
        &&& e.message@ == RATE_LIMITED_MESSAGE@
        &&& opt_view(e.reason) == Some(RATE_LIMITED_REASON@)
        &&& e.attempt_status == Some(AttemptStatus::Pending)
        &&& e.connector_transaction_id is None
        &&& e.connector_response_reference_id is None
    } else {
        match parsed {
            Some(p) => {
                &&& e.code@ == p.result.code@
                &&& e.message@ == result_message(p.result)
                &&& opt_view(e.reason) == error_reason_spec(p.result)
                &&& e.attempt_status == Some(attempt_status_for_code(p.result.code@))
                &&& opt_view(e.connector_transaction_id) == opt_view(p.id)
                &&& opt_view(e.connector_response_reference_id) == opt_view(p.merchant_transaction_id)
            },
            None => {
                &&& e.code@ == NO_ERROR_CODE@
                &&& e.message@ == NO_ERROR_MESSAGE@
                &&& opt_view(e.reason) == Some(utf8_lossy(body))
                &&& e.attempt_status is None
                &&& e.connector_transaction_id is None
                &&& e.connector_response_reference_id is None
            },
        }
    }
}

fn clone_opt(o: &Option<String>) -> (r: Option<String>)
    ensures
        opt_view(r) == opt_view(*o),
{
    match o {
        Some(s) => Some(s.clone()),
        None => None,
    }
}

fn content_type_headers() -> (r: Vec<(String, String)>)
    ensures
        content_type_header(r@),
{
    let mut h: Vec<(String, String)> = Vec::new();
    h.push((owned("Content-Type"), owned("application/json")));
    h
}

/// The URL of refund or payment `transaction_id` under the Payments API.
fn payments_path(base: &str, transaction_id: &str) -> (r: String)
    ensures
        r@ == status_url_base(base@, transaction_id@),
{
    let mut url = owned(base);
    push_text(&mut url, "/payments/");
    push_text(&mut url, transaction_id);
    url
}

impl Peachpaymentsapm {
    /// The connector.
    pub fn new() -> (r: Self) {
        Peachpaymentsapm {}
    }

    /// The connector's identifier.
    pub fn id(&self) -> (r: &'static str)
        ensures
            r@ == "peachpaymentsapm"@,
    {
        "peachpaymentsapm"
    }

    /// The Payments API takes amounts as decimal strings in major units.
    pub fn get_currency_unit(&self) -> (r: CurrencyUnit)
        ensures
            r == CurrencyUnit::Base,
    {
        CurrencyUnit::Base
    }

    /// Requests are JSON.
    pub fn common_get_content_type(&self) -> (r: &'static str)
        ensures
            r@ == "application/json"@,
    {
        "application/json"
    }

    /// The configured base URL of the Payments API.
    pub fn base_url<'a>(&self, connectors: &'a Connectors) -> (r: &'a str)
        ensures
            r@ == connectors.peachpaymentsapm.base_url@,
    {
        connectors.peachpaymentsapm.base_url.as_str()
    }

    /// The Payments API authenticates in the body or query, so the only
    /// header is the content type.
    pub fn build_headers(&self) -> (r: Vec<(String, String)>)
        ensures
            content_type_header(r@),
    {
        content_type_headers()
    }

    /// No authentication headers: the Payments API takes credentials in the
    /// body, or in the query of GET requests.
    pub fn get_auth_header(&self, _auth_type: &ConnectorAuthType) -> (r: Vec<(String, String)>)
        ensures
            r@.len() == 0,
    {
        Vec::new()
    }

    /// Builds the status URL of a transaction; the Payments API only accepts
    /// authentication as query parameters on GET requests.
    pub fn build_apm_status_url(
        &self,
        connectors: &Connectors,
        transaction_id: &str,
        auth_type: &ConnectorAuthType,
        connector_meta_data: &Option<ConnectorMetadata>,
    ) -> (r: Result<String, ConnectorError>)
        ensures
            status_url_matches(r, connectors.peachpaymentsapm.base_url@, transaction_id@, *auth_type, *connector_meta_data),
    {
        let authentication = match ApmAuthentication::try_from_connector_data(auth_type, connector_meta_data) {
            Ok(a) => a,
            Err(e) => return Err(e),
        };
        let url = payments_path(self.base_url(connectors), transaction_id);
        let mut pairs: Vec<(String, String)> = Vec::new();
        pairs.push((owned("authentication.entityId"), authentication.entity_id));
        pairs.push((owned("authentication.userId"), authentication.user_id));
        pairs.push((owned("authentication.password"), authentication.password));
        proof {
            assert(pair_views(pairs@) =~= status_query(
                pairs@[0].1@,
                pairs@[1].1@,
                pairs@[2].1@,
            ));
        }
        match append_query_pairs(url.as_str(), &pairs) {
            Some(u) => Ok(u),
            None => Err(ConnectorError::RequestEncodingFailed),
        }
    }

    /// The error response for a failed answer. The Payments API rate-limits
    /// status queries, so a 429 is reported as still pending rather than a
    /// failure; a Payments API error body gives its result; any other body is
    /// kept as the reason, with no status inferred from it.
    pub fn build_error_response(
        &self,
        status_code: u16,
        body: &[u8],
        parsed: Option<PeachpaymentsApmErrorResponse>,
    ) -> (r: ErrorResponse)
        ensures
            error_response_matches(r, status_code, body@, parsed),
    {
        if status_code == 429 {
            return ErrorResponse {
                status_code,
                code: owned("RATE_LIMITED"),
                message: owned(RATE_LIMITED_MESSAGE),
                reason: Some(owned(RATE_LIMITED_REASON)),
                attempt_status: Some(AttemptStatus::Pending),
                connector_transaction_id: None,
                connector_response_reference_id: None,
            };
        }
        match parsed {
            Some(response) => {
                let message = match &response.result.description {
                    Some(d) => d.clone(),
                    None => owned(NO_ERROR_MESSAGE),
                };
                ErrorResponse {
                    status_code,
                    code: response.result.code.clone(),
                    message,
                    reason: build_apm_error_reason(&response.result),
                    attempt_status: Some(map_apm_result_code_to_attempt_status(response.result.code.as_str())),
                    connector_transaction_id: clone_opt(&response.id),
                    connector_response_reference_id: clone_opt(&response.merchant_transaction_id),
                }
            },
            None => ErrorResponse {
                status_code,
                code: owned(NO_ERROR_CODE),
                message: owned(NO_ERROR_MESSAGE),
                reason: Some(utf8_lossy_text(body)),
                attempt_status: None,
                connector_transaction_id: None,
                connector_response_reference_id: None,
            },
        }
    }
}

/// The capture method a payment asks for, automatic when unspecified.
pub open spec fn capture_method_or_default(m: Option<CaptureMethod>) -> CaptureMethod {
    match m {
        Some(c) => c,
        None => CaptureMethod::Automatic,
    }
}

/// The URL outcome of a request outcome.
pub open spec fn request_url(r: Result<Request, ConnectorError>) -> Result<String, ConnectorError> {
    match r {
        Ok(q) => Ok(q.url),
        Err(e) => Err(e),
    }
}

/// A built request uses `method` and carries the content-type header.
pub open spec fn request_shape(r: Result<Request, ConnectorError>, method: Method) -> bool {
    r matches Ok(q) ==> q.method == method && content_type_header(q.headers@)
}

/// `r` is the debit URL for `req`.
pub open spec fn authorize_url_matches(r: Result<String, ConnectorError>, req: PaymentsAuthorizeRouterData, connectors: Connectors) -> bool {
    match capture_method_or_default(req.capture_method) {
        CaptureMethod::Automatic => r matches Ok(u) && u@ == connectors.peachpaymentsapm.base_url@ + "/payments"@,
        _ => r matches Err(ConnectorError::CaptureMethodNotSupported),
    }
}

/// The transaction id a sync request is about.
pub open spec fn sync_transaction_id(id: ResponseId) -> Option<Seq<char>> {
    match id {
        ResponseId::ConnectorTransactionId(t) => Some(t@),
        _ => None,
    }
}

impl Peachpaymentsapm {
    /// The debit URL: APM payments are captured automatically, and any other
    /// capture method is refused.
    pub fn authorize_url(&self, req: &PaymentsAuthorizeRouterData, connectors: &Connectors) -> (r: Result<String, ConnectorError>)
        ensures
            authorize_url_matches(r, *req, *connectors),
    {
        let capture_method = match req.capture_method {
            Some(c) => c,
            None => CaptureMethod::Automatic,
        };
        match capture_method {
            CaptureMethod::Automatic => {
                let mut url = owned(self.base_url(connectors));
                push_text(&mut url, "/payments");
                Ok(url)
            },
            _ => Err(ConnectorError::CaptureMethodNotSupported),
        }
    }

    /// The debit request: POST to the debit URL; the caller attaches the body.
    pub fn build_authorize_request(&self, req: &PaymentsAuthorizeRouterData, connectors: &Connectors) -> (r: Result<Request, ConnectorError>)
        ensures
            authorize_url_matches(request_url(r), *req, *connectors),
            request_shape(r, Method::Post),
    {
        match self.authorize_url(req, connectors) {
            Ok(url) => Ok(Request { method: Method::Post, url, headers: self.build_headers() }),
            Err(e) => Err(e),
        }
    }

    /// The status URL of the payment being synchronised.
    pub fn sync_url(&self, req: &PaymentsSyncRouterData, connectors: &Connectors) -> (r: Result<String, ConnectorError>)
        ensures
            match sync_transaction_id(req.connector_transaction_id) {
                None => r matches Err(ConnectorError::MissingConnectorTransactionID),
                Some(id) => status_url_matches(r, connectors.peachpaymentsapm.base_url@, id, req.connector_auth_type, req.connector_meta_data),
            },
    {
        let transaction_id = match &req.connector_transaction_id {
            ResponseId::ConnectorTransactionId(id) => id,
            _ => return Err(ConnectorError::MissingConnectorTransactionID),
        };
        self.build_apm_status_url(connectors, transaction_id.as_str(), &req.connector_auth_type, &req.connector_meta_data)
    }

    /// The sync request: GET of the status URL.
    pub fn build_sync_request(&self, req: &PaymentsSyncRouterData, connectors: &Connectors) -> (r: Result<Request, ConnectorError>)
        ensures
            match sync_transaction_id(req.connector_transaction_id) {
                None => request_url(r) matches Err(ConnectorError::MissingConnectorTransactionID),
                Some(id) => status_url_matches(request_url(r), connectors.peachpaymentsapm.base_url@, id, req.connector_auth_type, req.connector_meta_data),
            },
            request_shape(r, Method::Get),
    {
        match self.sync_url(req, connectors) {
            Ok(url) => Ok(Request { method: Method::Get, url, headers: self.build_headers() }),
            Err(e) => Err(e),
        }
    }

    /// The refund URL: the payment's own URL.
    pub fn refund_url(&self, req: &RefundsRouterData, connectors: &Connectors) -> (r: Result<String, ConnectorError>)
        ensures
            r matches Ok(u) && u@ == status_url_base(connectors.peachpaymentsapm.base_url@, req.connector_transaction_id@),
    {
        Ok(payments_path(self.base_url(connectors), req.connector_transaction_id.as_str()))
    }

    /// The refund request: POST to the refund URL; the caller attaches the body.
    pub fn build_refund_request(&self, req: &RefundsRouterData, connectors: &Connectors) -> (r: Result<Request, ConnectorError>)
        ensures
            r matches Ok(q) && q.url@ == status_url_base(connectors.peachpaymentsapm.base_url@, req.connector_transaction_id@),
            request_shape(r, Method::Post),
    {
        match self.refund_url(req, connectors) {
            Ok(url) => Ok(Request { method: Method::Post, url, headers: self.build_headers() }),
            Err(e) => Err(e),
        }
    }

    /// The status URL of the refund being synchronised.
    pub fn refund_sync_url(&self, req: &RefundsRouterData, connectors: &Connectors) -> (r: Result<String, ConnectorError>)
        ensures
            match req.connector_refund_id {
                None => r matches Err(ConnectorError::MissingConnectorTransactionID),
                Some(id) => status_url_matches(r, connectors.peachpaymentsapm.base_url@, id@, req.connector_auth_type, req.connector_meta_data),
            },
    {
        let refund_id = match &req.connector_refund_id {
            Some(id) => id,
            None => return Err(ConnectorError::MissingConnectorTransactionID),
        };
        self.build_apm_status_url(connectors, refund_id.as_str(), &req.connector_auth_type, &req.connector_meta_data)
    }

    /// The refund sync request: GET of the refund's status URL.
    pub fn build_refund_sync_request(&self, req: &RefundsRouterData, connectors: &Connectors) -> (r: Result<Request, ConnectorError>)
        ensures
            match req.connector_refund_id {
                None => request_url(r) matches Err(ConnectorError::MissingConnectorTransactionID),
                Some(id) => status_url_matches(request_url(r), connectors.peachpaymentsapm.base_url@, id@, req.connector_auth_type, req.connector_meta_data),
            },
            request_shape(r, Method::Get),
    {
        match self.refund_sync_url(req, connectors) {
            Ok(url) => Ok(Request { method: Method::Get, url, headers: self.build_headers() }),
            Err(e) => Err(e),
        }
    }

    /// Any sync reference is accepted: the status URL is built from the
    /// connector transaction id alone.
    pub fn validate_psync_reference_id(&self, _status: AttemptStatus) -> (r: Result<(), ConnectorError>)
        ensures
            r is Ok,
    {
        Ok(())
    }

    /// The Payments API captures APM payments automatically; a separate
    /// capture is refused.
    pub fn build_capture_request(&self) -> (r: Result<Request, ConnectorError>)
        ensures
            r matches Err(ConnectorError::FlowNotSupported { flow, connector }) && flow@ == "Capture"@
                && connector@ == "Peachpaymentsapm"@,
    {
        Err(ConnectorError::FlowNotSupported { flow: owned("Capture"), connector: owned("Peachpaymentsapm") })
    }

    /// The Payments API does not void APM payments.
    pub fn build_void_request(&self) -> (r: Result<Request, ConnectorError>)
        ensures
            r matches Err(ConnectorError::FlowNotSupported { flow, connector }) && flow@ == "Void"@
                && connector@ == "Peachpaymentsapm"@,
    {
        Err(ConnectorError::FlowNotSupported { flow: owned("Void"), connector: owned("Peachpaymentsapm") })
    }

    /// Mandates are not set up through this connector.
    pub fn build_setup_mandate_request(&self) -> (r: Result<Request, ConnectorError>)
        ensures
            r matches Err(ConnectorError::NotImplemented(m)) && m@ == "Setup Mandate flow for Peachpaymentsapm"@,
    {
        Err(ConnectorError::NotImplemented(owned("Setup Mandate flow for Peachpaymentsapm")))
    }
}

/// What decrypting a webhook payload gives: the four hex inputs decoded (key,
/// IV, tag, ciphertext, in that order), their lengths checked (a 16 or 32
/// byte key, a 12 byte IV, a 16 byte tag), then AES-GCM opening of the
/// ciphertext followed by the tag, with the cipher chosen by the key length.
pub open spec fn decrypt_payload_spec(key_hex: Seq<u8>, iv_hex: Seq<u8>, tag_hex: Seq<u8>, body_hex: Seq<u8>) -> Result<Seq<u8>, CryptoError> {
    match (hex_decode_spec(key_hex), hex_decode_spec(iv_hex), hex_decode_spec(tag_hex), hex_decode_spec(body_hex)) {
        (Some(key), Some(iv), Some(tag), Some(body)) => if !(key.len() == 16 || key.len() == 32) {
            Err(CryptoError::InvalidKeyLength)
        } else if iv.len() != 12 {
            Err(CryptoError::InvalidIvLength)
        } else if tag.len() != 16 {
            Err(CryptoError::InvalidTagLength)
        } else {
            let cipher = if key.len() == 16 {
                GcmCipher::Aes128
            } else {
                GcmCipher::Aes256
            };
            match aes_gcm_open(cipher, key, iv, body + tag) {
                Some(p) => Ok(p),
                None => Err(CryptoError::DecodingFailed),
            }
        },
        _ => Err(CryptoError::DecodingFailed),
    }
}

/// Decrypts an AES-GCM encrypted Payments API webhook whose key, IV, auth
/// tag and ciphertext come separately as hex strings (key from the
/// dashboard, IV and tag from the webhook headers). The Payments API
/// documents AES-128-GCM (16 byte key); a 32 byte key selects AES-256-GCM.
pub fn decrypt_apm_webhook_payload(hex_key: &str, hex_iv: &str, hex_auth_tag: &str, hex_encrypted_body: &str) -> (r: Result<Vec<u8>, CryptoError>)
    ensures
        match decrypt_payload_spec(hex_key.spec_bytes(), hex_iv.spec_bytes(), hex_auth_tag.spec_bytes(), hex_encrypted_body.spec_bytes()) {
            Ok(p) => r matches Ok(v) && v@ == p,
            Err(e) => r == Err::<Vec<u8>, CryptoError>(e),
        },
        r matches Ok(v) ==> hex_decode_spec(hex_encrypted_body.spec_bytes()) matches Some(body) && v@.len()
            == body.len(),
{
    let key_bytes = match hex_decode(hex_key.as_bytes()) {
        Some(b) => b,
        None => return Err(CryptoError::DecodingFailed),
    };
    let iv_bytes = match hex_decode(hex_iv.as_bytes()) {
        Some(b) => b,
        None => return Err(CryptoError::DecodingFailed),
    };
    let mut auth_tag_bytes = match hex_decode(hex_auth_tag.as_bytes()) {
        Some(b) => b,
        None => return Err(CryptoError::DecodingFailed),
    };
    let mut ciphertext_and_tag = match hex_decode(hex_encrypted_body.as_bytes()) {
        Some(b) => b,
        None => return Err(CryptoError::DecodingFailed),
    };
    let cipher = if key_bytes.len() == 16 {
        GcmCipher::Aes128
    } else if key_bytes.len() == 32 {
        GcmCipher::Aes256
    } else {
        return Err(CryptoError::InvalidKeyLength);
    };
    if iv_bytes.len() != 12 {
        return Err(CryptoError::InvalidIvLength);
    }
    if auth_tag_bytes.len() != 16 {
        return Err(CryptoError::InvalidTagLength);
    }
    let ghost body = ciphertext_and_tag@;
    let ghost tag = auth_tag_bytes@;
    ciphertext_and_tag.append(&mut auth_tag_bytes);
    assert(ciphertext_and_tag@ == body + tag);
    match gcm_open(cipher, key_bytes.as_slice(), iv_bytes.as_slice(), ciphertext_and_tag) {
        Some(plaintext) => Ok(plaintext),
        None => Err(CryptoError::DecodingFailed),
    }
}

/// The UTF-8 bytes of an optional string slice.
pub open spec fn opt_slice_bytes(o: Option<&str>) -> Option<Seq<u8>> {
    match o {
        Some(s) => Some(s.spec_bytes()),
        None => None,
    }
}

/// The hex text of a webhook's ciphertext: the `encryptedBody` of a JSON
/// wrapper when the body is one, else the body itself, trimmed.
pub open spec fn webhook_ciphertext_hex(body: Seq<u8>, wrapped: Option<Seq<char>>) -> Seq<char> {
    match wrapped {
        Some(w) => w,
        None => trim_spec(decode_utf8(body)),
    }
}

/// What decrypting an incoming webhook gives: the secret must be UTF-8 (the
/// hex key), both headers must be present, the body must be UTF-8, and the
/// payload must decrypt.
pub open spec fn decrypt_webhook_spec(secret: Seq<u8>, iv: Option<Seq<u8>>, tag: Option<Seq<u8>>, body: Seq<u8>, wrapped: Option<Seq<char>>) -> Result<Seq<u8>, ConnectorError> {
    if !valid_utf8(secret) {
        Err(ConnectorError::WebhookVerificationSecretInvalid)
    } else {
        match (iv, tag) {
            (Some(iv), Some(tag)) => if !valid_utf8(body) {
                Err(ConnectorError::WebhookBodyDecodingFailed)
            } else {
                match decrypt_payload_spec(secret, iv, tag, encode_utf8(webhook_ciphertext_hex(body, wrapped))) {
                    Ok(p) => Ok(p),
                    Err(_) => Err(ConnectorError::WebhookBodyDecodingFailed),
                }
            },
            _ => Err(ConnectorError::WebhookBodyDecodingFailed),
        }
    }
}

/// An exec decryption outcome against its expected form.
pub open spec fn decrypt_result_matches(r: Result<Vec<u8>, ConnectorError>, s: Result<Seq<u8>, ConnectorError>) -> bool {
    match s {
        Ok(p) => r matches Ok(v) && v@ == p,
        Err(ConnectorError::WebhookVerificationSecretInvalid) => r matches Err(ConnectorError::WebhookVerificationSecretInvalid),
        Err(_) => r matches Err(ConnectorError::WebhookBodyDecodingFailed),
    }
}

/// The event a webhook reports, from its payment type and result code: a
/// refund webhook reports refund success or failure (and nothing for a
/// pending code), any other reports the payment succeeding, processing or
/// failing; codes of no class report nothing.
pub open spec fn webhook_event_for(is_refund: bool, code: Seq<char>) -> IncomingWebhookEvent {
    if is_success_code(code) {
        if is_refund {
            IncomingWebhookEvent::RefundSuccess
        } else {
            IncomingWebhookEvent::PaymentIntentSuccess
        }
    } else if is_pending_code(code) {
        if is_refund {
            IncomingWebhookEvent::EventNotSupported
        } else {
            IncomingWebhookEvent::PaymentIntentProcessing
        }
    } else if is_rejection_code(code) {
        if is_refund {
            IncomingWebhookEvent::RefundFailure
        } else {
            IncomingWebhookEvent::PaymentIntentFailure
        }
    } else {
        IncomingWebhookEvent::EventNotSupported
    }
}

/// A webhook is about a refund when its payment type is `RF`.
pub open spec fn is_refund_webhook(w: PeachpaymentsApmWebhook) -> bool {
    w.payment_type == Some(PeachApmPaymentType::RF)
}

impl Peachpaymentsapm {
    /// Decrypts an incoming webhook. `connector_webhook_secret` is the hex key
    /// from the dashboard; `iv_header` and `auth_tag_header` are the
    /// `X-Initialization-Vector` and `X-Authentication-Tag` header values
    /// (`None` when missing or not visible ASCII); `wrapped_encrypted_body`
    /// is the `encryptedBody` of the body read as a JSON wrapper (`None` when
    /// the body is not one), the raw hex body being used otherwise.
    pub fn decrypt_apm_webhook(
        &self,
        connector_webhook_secret: &[u8],
        iv_header: Option<&str>,
        auth_tag_header: Option<&str>,
        body: &[u8],
        wrapped_encrypted_body: Option<String>,
    ) -> (r: Result<Vec<u8>, ConnectorError>)
        ensures
            decrypt_result_matches(
                r,
                decrypt_webhook_spec(
                    connector_webhook_secret@,
                    opt_slice_bytes(iv_header),
                    opt_slice_bytes(auth_tag_header),
                    body@,
                    opt_view(wrapped_encrypted_body),
                ),
            ),
    {
        let key_hex = match utf8_text(connector_webhook_secret) {
            Some(k) => k,
            None => return Err(ConnectorError::WebhookVerificationSecretInvalid),
        };
        let iv_hex = match iv_header {
            Some(h) => h,
            None => return Err(ConnectorError::WebhookBodyDecodingFailed),
        };
        let auth_tag_hex = match auth_tag_header {
            Some(h) => h,
            None => return Err(ConnectorError::WebhookBodyDecodingFailed),
        };
        let body_text = match utf8_text(body) {
            Some(b) => b,
            None => return Err(ConnectorError::WebhookBodyDecodingFailed),
        };
        proof {
            encode_utf8_decode_utf8(body_text@);
        }
        // The encrypted payload is either raw hex or wrapped as
        // {"encryptedBody": "<hex>"}.
        let decrypted = match &wrapped_encrypted_body {
            Some(w) => decrypt_apm_webhook_payload(key_hex, iv_hex, auth_tag_hex, w.as_str()),
            None => decrypt_apm_webhook_payload(key_hex, iv_hex, auth_tag_hex, trim(body_text)),
        };
        match decrypted {
            Ok(p) => Ok(p),
            Err(_) => Err(ConnectorError::WebhookBodyDecodingFailed),
        }
    }

    /// The object a decrypted webhook is about: the refund for a refund
    /// webhook, else the payment, by Peach's id.
    pub fn get_webhook_object_reference_id(&self, webhook_body: &PeachpaymentsApmWebhook) -> (r: ObjectReferenceId)
        ensures
            if is_refund_webhook(*webhook_body) {
                r matches ObjectReferenceId::RefundId(RefundIdType::ConnectorRefundId(id)) && id@ == webhook_body.id@
            } else {
                r matches ObjectReferenceId::PaymentId(PaymentIdType::ConnectorTransactionId(id)) && id@ == webhook_body.id@
            },
    {
        if webhook_body.payment_type == Some(PeachApmPaymentType::RF) {
            ObjectReferenceId::RefundId(RefundIdType::ConnectorRefundId(webhook_body.id.clone()))
        } else {
            ObjectReferenceId::PaymentId(PaymentIdType::ConnectorTransactionId(webhook_body.id.clone()))
        }
    }

    /// The event a decrypted webhook reports.
    pub fn get_webhook_event_type(&self, webhook_body: &PeachpaymentsApmWebhook) -> (r: IncomingWebhookEvent)
        ensures
            r == webhook_event_for(is_refund_webhook(*webhook_body), webhook_body.result.code@),
    {
        let is_refund = webhook_body.payment_type == Some(PeachApmPaymentType::RF);
        let code = webhook_body.result.code.as_str();
        if success_code(code) {
            if is_refund {
                IncomingWebhookEvent::RefundSuccess
            } else {
                IncomingWebhookEvent::PaymentIntentSuccess
            }
        } else if pending_code(code) {
            if is_refund {
                IncomingWebhookEvent::EventNotSupported
            } else {
                IncomingWebhookEvent::PaymentIntentProcessing
            }
        } else if rejection_code(code) {
            if is_refund {
                IncomingWebhookEvent::RefundFailure
            } else {
                IncomingWebhookEvent::PaymentIntentFailure
            }
        } else {
            IncomingWebhookEvent::EventNotSupported
        }
    }

    /// Whether a webhook comes from Peach: a successful AES-GCM decryption
    /// authenticates it, since tag verification fails for any other key. The
    /// body has usually been decrypted already by the time this runs, so a
    /// body that already reads as a webhook (`body_is_webhook`) also counts.
    pub fn verify_webhook_source(
        &self,
        connector_webhook_secret: &[u8],
        iv_header: Option<&str>,
        auth_tag_header: Option<&str>,
        body: &[u8],
        wrapped_encrypted_body: Option<String>,
        body_is_webhook: bool,
    ) -> (r: bool)
        ensures
            r == (decrypt_webhook_spec(
                connector_webhook_secret@,
                opt_slice_bytes(iv_header),
                opt_slice_bytes(auth_tag_header),
                body@,
                opt_view(wrapped_encrypted_body),
            ) is Ok || body_is_webhook),
    {
        match self.decrypt_apm_webhook(connector_webhook_secret, iv_header, auth_tag_header, body, wrapped_encrypted_body) {
            Ok(_) => true,
            Err(_) => body_is_webhook,
        }
    }
}

/// The characters of a merchant transaction id: ASCII letters and digits.
pub open spec fn is_ascii_alphanumeric(c: char) -> bool {
    ||| 'A' <= c <= 'Z'
    ||| 'a' <= c <= 'z'
    ||| '0' <= c <= '9'
}

/// The reference character a random value picks: its remainder modulo 62
/// indexes `A`-`Z`, then `a`-`z`, then `0`-`9`.
pub open spec fn reference_char(n: u64) -> char {
    let k = n % 62;
    if k < 26 {
        ((65 + k) as u8) as char
    } else if k < 52 {
        ((97 + (k - 26)) as u8) as char
    } else {
        ((48 + (k - 52)) as u8) as char
    }
}

fn reference_char_of(n: u64) -> (c: char)
    ensures
        c == reference_char(n),
        is_ascii_alphanumeric(c),
{
    let k = (n % 62) as u8;
    if k < 26 {
        (65 + k) as char
    } else if k < 52 {
        (97 + (k - 26)) as char
    } else {
        (48 + (k - 52)) as char
    }
}

impl Peachpaymentsapm {
    /// A merchant transaction id: the Payments API requires 8 to 16
    /// alphanumeric characters, and APM transactions correlate on Peach's own
    /// id, so 16 characters picked by 16 random values are enough.
    pub fn generate_connector_request_reference_id(&self, random: [u64; 16]) -> (r: String)
        ensures
            r@.len() == 16,
            forall|i: int| 0 <= i < 16 ==> #[trigger] r@[i] == reference_char(random@[i]),
            forall|i: int| 0 <= i < 16 ==> is_ascii_alphanumeric(#[trigger] r@[i]),
    {
        let mut id = String::new();
        let mut i: usize = 0;
        while i < 16
            invariant
                i <= 16,
                id@.len() == i,
                forall|j: int| 0 <= j < i ==> #[trigger] id@[j] == reference_char(random@[j]),
                forall|j: int| 0 <= j < i ==> is_ascii_alphanumeric(#[trigger] id@[j]),
            decreases 16 - i,
        {
            let c = reference_char_of(random[i]);
            push_char(&mut id, c);
            i = i + 1;
        }
        id
    }
}

} // verus!
