//! Paydunya's answers and what they mean upstream: preprocessing (invoice
//! creation), SOFTPAY authorization, invoice confirmation (sync), refunds and
//! the instant payment notification; plus the merchant credentials.

use vstd::prelude::*;

use super::authorize::PaydunyaRouterData;
use crate::accessors::text_or_empty;
use crate::domain::{
    opt_view, AttemptStatus, ConnectorAuthType, ConnectorError, ErrorResponse,
    PaymentsPreProcessingRouterData, PaymentsResponseData, PaymentsRouterDataUpdate,
    RefundStatus as CommonRefundStatus, RefundsResponseData, RefundsRouterDataUpdate, ResponseId,
    NO_ERROR_CODE, NO_ERROR_MESSAGE,
};
use crate::text::{is_blank, owned, trim_spec};

verus! {

/// Body of the `checkout-invoice/create` call that opens an invoice.
#[derive(Debug)]
pub struct PaydunyaPreprocessingRequest {
    pub invoice: Invoice,
    pub store: Store,
    pub actions: Actions,
}

/// The invoice block of a preprocessing request.
#[derive(Debug)]
pub struct Invoice {
    /// Minor units.
    pub total_amount: i64,
}

/// The store block of a preprocessing request.
#[derive(Debug)]
pub struct Store {
    pub name: String,
}

/// Where Paydunya posts status changes and where it sends the payer back.
#[derive(Debug)]
pub struct Actions {
    pub callback_url: String,
    pub return_url: String,
}

fn clone_or_empty(o: &Option<String>) -> (r: String)
    ensures
        r@ == text_or_empty(*o),
{
    match o {
        Some(s) => s.clone(),
        None => String::new(),
    }
}

impl PaydunyaPreprocessingRequest {
    /// Opens an invoice for the payment amount. Paydunya posts its
    /// notifications to the merchant's webhook URL; both URLs default to the
    /// empty string, since the keys are mandatory but may be blank.
    pub fn try_from_router_data(item: &PaymentsPreProcessingRouterData) -> (r: Result<Self, ConnectorError>)
        ensures
            r matches Ok(q) && {
                &&& q.invoice.total_amount == item.minor_amount
                &&& q.store.name@ == "name"@
                &&& q.actions.callback_url@ == text_or_empty(item.webhook_url)
                &&& q.actions.return_url@ == text_or_empty(item.router_return_url)
            },
    {
        let callback_url = clone_or_empty(&item.webhook_url);
        let return_url = clone_or_empty(&item.router_return_url);
        Ok(PaydunyaPreprocessingRequest {
            invoice: Invoice { total_amount: item.minor_amount },
            store: Store { name: owned("name") },
            actions: Actions { callback_url, return_url },
        })
    }
}

/// Paydunya's answer to invoice creation.
#[derive(Debug, Clone)]
pub struct PaydunyaPaymentsPreProcessingResponse {
    pub response_code: String,
    pub response_text: String,
    pub description: String,
    pub token: String,
}

/// The parts of the preprocessing router data the answer rewrites.
#[derive(Debug)]
pub struct PreProcessingRouterDataUpdate {
    pub status: AttemptStatus,
    pub description: Option<String>,
    /// The invoice token, read back by the authorize flow.
    pub preprocessing_id: Option<String>,
    pub response: Result<PaymentsResponseData, ErrorResponse>,
}

/// The status an invoice-creation answer gives: authentication succeeded
/// exactly when the response code is `"00"`.
pub open spec fn preprocessing_status(response_code: Seq<char>) -> AttemptStatus {
    if response_code == "00"@ {
        AttemptStatus::AuthenticationSuccessful
    } else {
        AttemptStatus::AuthenticationFailed
    }
}

impl PaydunyaPaymentsPreProcessingResponse {
    /// Reads the invoice-creation answer: the invoice token is kept as the
    /// preprocessing id so the authorize call can send it as its payment token.
    pub fn router_data_update(&self) -> (r: PreProcessingRouterDataUpdate)
        ensures
            r.status == preprocessing_status(self.response_code@),
            opt_view(r.description) == Some(self.description@),
            opt_view(r.preprocessing_id) == Some(self.token@),
            r.response matches Ok(PaymentsResponseData::PreProcessingResponse { pre_processing_id })
                && pre_processing_id@ == self.token@,
    {
        let status = if crate::text::text_eq(self.response_code.as_str(), "00") {
            AttemptStatus::AuthenticationSuccessful
        } else {
            AttemptStatus::AuthenticationFailed
        };
        PreProcessingRouterDataUpdate {
            status,
            description: Some(self.description.clone()),
            preprocessing_id: Some(self.token.clone()),
            response: Ok(PaymentsResponseData::PreProcessingResponse {
                pre_processing_id: self.token.clone(),
            }),
        }
    }
}

/// The merchant's Paydunya credentials.
#[derive(Debug)]
pub struct PaydunyaAuthType {
    pub master_key: String,
    pub private_key: String,
    pub token: String,
}

impl PaydunyaAuthType {
    /// Reads the three keys from a signature-key configuration (`api_key` is
    /// the master key, `api_secret` the private key, `key1` the token); any
    /// other shape fails with `FailedToObtainAuthType`.
    pub fn try_from_auth_type(auth_type: &ConnectorAuthType) -> (r: Result<Self, ConnectorError>)
        ensures
            match *auth_type {
                ConnectorAuthType::SignatureKey { api_key, key1, api_secret } => r matches Ok(a)
                    && a.master_key == api_key && a.private_key == api_secret && a.token == key1,
                _ => r matches Err(ConnectorError::FailedToObtainAuthType),
            },
    {
        match auth_type {
            ConnectorAuthType::SignatureKey { api_key, api_secret, key1 } => Ok(PaydunyaAuthType {
                master_key: api_key.clone(),
                private_key: api_secret.clone(),
                token: key1.clone(),
            }),
            _ => Err(ConnectorError::FailedToObtainAuthType),
        }
    }
}

/// Status of a SOFTPAY authorization.
#[derive(Debug, Clone, Copy, PartialEq, Eq, Structural)]
pub enum PaydunyaPaymentStatus {
    Succeeded,
    Failed,
    Processing,
}

/// The attempt status of a SOFTPAY status.
pub open spec fn payment_attempt_status(s: PaydunyaPaymentStatus) -> AttemptStatus {
    match s {
        PaydunyaPaymentStatus::Succeeded => AttemptStatus::Charged,
        PaydunyaPaymentStatus::Failed => AttemptStatus::Failure,
        PaydunyaPaymentStatus::Processing => AttemptStatus::Authorizing,
    }
}

impl PaydunyaPaymentStatus {
    /// Succeeded is charged, failed is a failure, processing is still
    /// authorizing (the payer confirms on their phone).
    pub fn attempt_status(self) -> (r: AttemptStatus)
        ensures
            r == payment_attempt_status(self),
    {
        match self {
            PaydunyaPaymentStatus::Succeeded => AttemptStatus::Charged,
            PaydunyaPaymentStatus::Failed => AttemptStatus::Failure,
            PaydunyaPaymentStatus::Processing => AttemptStatus::Authorizing,
        }
    }
}

/// Paydunya's answer to a SOFTPAY authorization.
#[derive(Debug, Clone)]
pub struct PaydunyaPaymentsResponse {
    pub status: PaydunyaPaymentStatus,
    pub id: String,
}

impl PaydunyaPaymentsResponse {
    /// The attempt status of the answer and a transaction response keyed on
    /// Paydunya's transaction id.
    pub fn router_data_update(&self) -> (r: PaymentsRouterDataUpdate)
        ensures
            r.status == payment_attempt_status(self.status),
            r.response matches Ok(
                PaymentsResponseData::TransactionResponse {
                    resource_id: ResponseId::ConnectorTransactionId(id),
                    redirection_data: None,
                    connector_response_reference_id: None,
                },
            ) && id@ == self.id@,
    {
        PaymentsRouterDataUpdate {
            status: self.status.attempt_status(),
            response: Ok(PaymentsResponseData::TransactionResponse {
                resource_id: ResponseId::ConnectorTransactionId(self.id.clone()),
                redirection_data: None,
                connector_response_reference_id: None,
            }),
        }
    }
}

/// Lifecycle states of a Paydunya invoice. A pending invoice is cancelled
/// automatically 24 hours after creation if it is not paid.
#[derive(Debug, Clone, Copy, PartialEq, Eq, Structural)]
pub enum PaydunyaSyncStatus {
    Pending,
    Completed,
    Cancelled,
    Failed,
}

/// The attempt status of an invoice state: cancelled is a terminal
/// non-success, so it fails the attempt just as failed does.
pub open spec fn sync_attempt_status(s: PaydunyaSyncStatus) -> AttemptStatus {
    match s {
        PaydunyaSyncStatus::Completed => AttemptStatus::Charged,
        PaydunyaSyncStatus::Pending => AttemptStatus::Pending,
        PaydunyaSyncStatus::Cancelled | PaydunyaSyncStatus::Failed => AttemptStatus::Failure,
    }
}

impl PaydunyaSyncStatus {
    /// Completed is charged, pending stays pending, cancelled and failed are
    /// failures.
    pub fn attempt_status(self) -> (r: AttemptStatus)
        ensures
            r == sync_attempt_status(self),
    {
        match self {
            PaydunyaSyncStatus::Completed => AttemptStatus::Charged,
            PaydunyaSyncStatus::Pending => AttemptStatus::Pending,
            PaydunyaSyncStatus::Cancelled | PaydunyaSyncStatus::Failed => AttemptStatus::Failure,
        }
    }
}

/// The invoice block of a confirmation answer.
#[derive(Debug, Clone)]
pub struct PaydunyaSyncInvoice {
    pub token: String,
    pub description: Option<String>,
}

/// The error block Paydunya returns for failed or cancelled transactions.
#[derive(Debug, Clone)]
pub struct PaydunyaSyncErrors {
    pub message: Option<String>,
    pub description: Option<String>,
}

/// Paydunya's answer to `GET checkout-invoice/confirm/{invoice_token}`.
#[derive(Debug, Clone)]
pub struct PaydunyaSyncResponse {
    pub response_code: String,
    pub response_text: String,
    pub hash: Option<String>,
    pub status: PaydunyaSyncStatus,
    pub fail_reason: Option<String>,
    pub invoice: Option<PaydunyaSyncInvoice>,
    pub mode: Option<String>,
    pub receipt_url: Option<String>,
    pub errors: Option<PaydunyaSyncErrors>,
}

/// The failure reason of a confirmation answer: the error block's
/// description, else its message, else a top-level fail reason that is not
/// blank.
pub open spec fn failure_reason_spec(r: PaydunyaSyncResponse) -> Option<Seq<char>> {
    let from_errors = match r.errors {
        Some(e) => match e.description {
            Some(d) => Some(d@),
            None => opt_view(e.message),
        },
        None => None,
    };
    match from_errors {
        Some(text) => Some(text),
        None => match r.fail_reason {
            Some(f) => if trim_spec(f@).len() == 0 {
                None
            } else {
                Some(f@)
            },
            None => None,
        },
    }
}

/// The transaction id a confirmation is filed under: the token echoed in the
/// invoice block, else the id the request was sent with.
pub open spec fn sync_transaction_id(r: PaydunyaSyncResponse, requested: ResponseId) -> Option<Seq<char>> {
    match r.invoice {
        Some(inv) => Some(inv.token@),
        None => match requested {
            ResponseId::ConnectorTransactionId(id) => Some(id@),
            _ => None,
        },
    }
}

impl PaydunyaSyncResponse {
    /// Best-effort human-readable failure reason, preferring the error
    /// block (populated for card rails) over the top-level `fail_reason`
    /// used by SOFTPAY rails; a blank fail reason counts as none.
    pub fn failure_reason(&self) -> (r: Option<String>)
        ensures
            opt_view(r) == failure_reason_spec(*self),
    {
        let from_errors = match &self.errors {
            Some(e) => match &e.description {
                Some(d) => Some(d.clone()),
                None => match &e.message {
                    Some(m) => Some(m.clone()),
                    None => None,
                },
            },
            None => None,
        };
        match from_errors {
            Some(text) => Some(text),
            None => match &self.fail_reason {
                Some(f) => if is_blank(f.as_str()) {
                    None
                } else {
                    Some(f.clone())
                },
                None => None,
            },
        }
    }

    /// Reads an invoice confirmation. A failed or cancelled invoice becomes an
    /// error response carrying the failure reason (or the generic message)
    /// and Paydunya's transaction id; any other state becomes a transaction
    /// response keyed on the invoice token, else on the requested id.
    pub fn router_data_update(&self, requested: &ResponseId, http_code: u16) -> (r: PaymentsRouterDataUpdate)
        ensures
            r.status == sync_attempt_status(self.status),
            r.response is Err <==> r.status == AttemptStatus::Failure,
            match r.response {
                Err(e) => {
                    &&& e.status_code == http_code
                    &&& e.code@ == NO_ERROR_CODE@
                    &&& opt_view(e.reason) == failure_reason_spec(*self)
                    &&& e.message@ == match failure_reason_spec(*self) {
                        Some(reason) => reason,
                        None => NO_ERROR_MESSAGE@,
                    }
                    &&& e.attempt_status == Some(AttemptStatus::Failure)
                    &&& opt_view(e.connector_transaction_id) == sync_transaction_id(*self, *requested)
                    &&& e.connector_response_reference_id is None
                },
                Ok(data) => data matches PaymentsResponseData::TransactionResponse {
                    resource_id,
                    redirection_data: None,
                    connector_response_reference_id: None,
                } && match sync_transaction_id(*self, *requested) {
                    Some(id) => resource_id matches ResponseId::ConnectorTransactionId(rid) && rid@ == id,
                    None => resource_id is NoResponseId,
                },
            },
    {
        let attempt_status = self.status.attempt_status();
        let transaction_id: Option<String> = match &self.invoice {
            Some(inv) => Some(inv.token.clone()),
            None => match requested {
                ResponseId::ConnectorTransactionId(id) => Some(id.clone()),
                _ => None,
            },
        };
        let response = match attempt_status {
            AttemptStatus::Failure => {
                let reason = self.failure_reason();
                let message = match &reason {
                    Some(text) => text.clone(),
                    None => owned(NO_ERROR_MESSAGE),
                };
                Err(ErrorResponse {
                    status_code: http_code,
                    // Paydunya only returns a transport-level response code;
                    // the rail's decline code is not exposed.
                    code: owned(NO_ERROR_CODE),
                    message,
                    reason,
                    attempt_status: Some(attempt_status),
                    connector_transaction_id: transaction_id,
                    connector_response_reference_id: None,
                })
            },
            _ => {
                let resource_id = match transaction_id {
                    Some(id) => ResponseId::ConnectorTransactionId(id),
                    None => ResponseId::NoResponseId,
                };
                Ok(PaymentsResponseData::TransactionResponse {
                    resource_id,
                    redirection_data: None,
                    connector_response_reference_id: None,
                })
            },
        };
        PaymentsRouterDataUpdate { status: attempt_status, response }
    }
}

/// Body of a refund request: the amount to refund.
#[derive(Debug)]
pub struct PaydunyaRefundRequest {
    /// Minor units.
    pub amount: i64,
}

impl PaydunyaRefundRequest {
    /// Asks for the amount carried by the router data.
    pub fn try_from_router_data<F>(item: &PaydunyaRouterData<F>) -> (r: Result<Self, ConnectorError>)
        ensures
            r matches Ok(q) && q.amount == item.amount,
    {
        Ok(PaydunyaRefundRequest { amount: item.amount })
    }
}

/// Status of a Paydunya refund.
#[derive(Debug, Clone, Copy, PartialEq, Eq, Structural)]
pub enum RefundStatus {
    Succeeded,
    Failed,
    Processing,
}

/// The upstream refund status of a Paydunya refund status.
pub open spec fn common_refund_status(s: RefundStatus) -> CommonRefundStatus {
    match s {
        RefundStatus::Succeeded => CommonRefundStatus::Success,
        RefundStatus::Failed => CommonRefundStatus::Failure,
        RefundStatus::Processing => CommonRefundStatus::Pending,
    }
}

impl RefundStatus {
    /// Succeeded is a success, failed a failure, processing pending.
    pub fn common_status(self) -> (r: CommonRefundStatus)
        ensures
            r == common_refund_status(self),
    {
        match self {
            RefundStatus::Succeeded => CommonRefundStatus::Success,
            RefundStatus::Failed => CommonRefundStatus::Failure,
            RefundStatus::Processing => CommonRefundStatus::Pending,
        }
    }
}

/// Paydunya's answer about a refund.
#[derive(Debug, Clone)]
pub struct RefundResponse {
    pub id: String,
    pub status: RefundStatus,
}

impl RefundResponse {
    /// The refund id and its upstream status; used for both refund execution
    /// and refund sync.
    pub fn router_data_update(&self) -> (r: RefundsRouterDataUpdate)
        ensures
            r.response matches Ok(data) && data.connector_refund_id@ == self.id@
                && data.refund_status == common_refund_status(self.status),
    {
        RefundsRouterDataUpdate {
            response: Ok(RefundsResponseData {
                connector_refund_id: self.id.clone(),
                refund_status: self.status.common_status(),
            }),
        }
    }
}

/// The shape of a Paydunya error body.
#[derive(Debug, Clone)]
pub struct PaydunyaErrorResponse {
    pub status_code: u16,
    pub code: String,
    pub message: String,
    pub reason: Option<String>,
    pub network_advice_code: Option<String>,
    pub network_decline_code: Option<String>,
    pub network_error_message: Option<String>,
}

/// The invoice block of an instant payment notification.
#[derive(Debug, Clone)]
pub struct PaydunyaIpnInvoice {
    pub token: String,
    /// Paydunya sends integers as strings inside the form body.
    pub total_amount: Option<String>,
    pub description: Option<String>,
}

/// The `data[...]` body of an instant payment notification.
#[derive(Debug, Clone)]
pub struct PaydunyaIpnBody {
    pub response_code: String,
    pub response_text: Option<String>,
    /// Hex-encoded SHA-512 of the merchant's master key.
    pub hash: String,
    pub status: PaydunyaSyncStatus,
    pub invoice: PaydunyaIpnInvoice,
    pub fail_reason: Option<String>,
    pub mode: Option<String>,
    pub receipt_url: Option<String>,
}

/// The top-level envelope of an instant payment notification.
#[derive(Debug, Clone)]
pub struct PaydunyaIpnEnvelope {
    pub data: PaydunyaIpnBody,
}

impl PaydunyaIpnBody {
    /// The invoice token, under which Paydunya identifies the transaction.
    pub fn invoice_token(&self) -> (r: &str)
        ensures
            r@ == self.invoice.token@,
    {
        self.invoice.token.as_str()
    }
}

} // verus!
