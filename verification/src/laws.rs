//! Properties that span several operations of the two connectors.

use vstd::prelude::*;

use crate::domain::{
    opt_view, AttemptStatus, ConnectorError, Connectors, IncomingWebhookEvent, PaymentMethodType,
    PaymentsAuthorizeRouterData, RefundStatus,
};
use crate::outside::hex_decode_spec;
use crate::paydunya::authorize::authorize_spec;
use crate::paydunya::responses::{
    failure_reason_spec, sync_attempt_status, PaydunyaPaymentsPreProcessingResponse,
    PaydunyaSyncResponse, PaydunyaSyncStatus,
};
use crate::paydunya::{djamo_country_code, endpoint_path, operator_for, wallet_provider_code, PaydunyaOperator};
use crate::peach::transformers::{
    attempt_status_for_code, error_reason_spec, is_pending_code, is_rejection_code,
    is_success_code, local_phone_spec, payments_request_spec, refund_status_for_code, ApmResult,
    PeachPaymentBrand,
};
use crate::peach::specifications::{is_apm_details, supported_method_types, PaymentMethodDetails};
use crate::peach::{authorize_url_matches, capture_method_or_default, decrypt_payload_spec, webhook_event_for};
use crate::text::{
    all_white_space, first_other_than_from, is_prefix_of, lemma_trim_empty_iff_all_white,
    trim_start_char_spec,
};

use crate::domain::{PaymentMethod, PaymentMethodData, WalletData};
use crate::paydunya::authorize::{billing_country, request_for, CommonFieldsView, PaydunyaPaymentsRequest};
use crate::peach::transformers::{brand_details_spec, ApmFault, VirtualAccountView};

verus! {

/// The operator serves Paydunya's shared Djamo endpoint.
pub open spec fn is_djamo_family(op: PaydunyaOperator) -> bool {
    op == PaydunyaOperator::DjamoCi || op == PaydunyaOperator::DjamoSn
}

/// Every operator has its own SOFTPAY endpoint, except the two Djamo
/// regions, which share one and are told apart by `code_country`.
pub proof fn endpoint_identifies_operator(a: PaydunyaOperator, b: PaydunyaOperator)
    ensures
        endpoint_path(a) == endpoint_path(b) <==> (a == b || (is_djamo_family(a) && is_djamo_family(b))),
{
    reveal_strlit("softpay/mtn-benin");
    reveal_strlit("softpay/mtn-ci");
    reveal_strlit("softpay/mtn-cameroun");
    reveal_strlit("softpay/moov-benin");
    reveal_strlit("softpay/moov-ci");
    reveal_strlit("softpay/moov-mali");
    reveal_strlit("softpay/moov-togo");
    reveal_strlit("softpay/moov-burkina");
    reveal_strlit("softpay/orange-money-ci");
    reveal_strlit("softpay/new-orange-money-senegal");
    reveal_strlit("softpay/orange-money-mali");
    reveal_strlit("softpay/orange-money-burkina");
    reveal_strlit("softpay/wave-senegal");
    reveal_strlit("softpay/wave-ci");
    reveal_strlit("softpay/free-money-senegal");
    reveal_strlit("softpay/expresso-senegal");
    reveal_strlit("softpay/djamo");
    if endpoint_path(a) == endpoint_path(b) && a != b && !(is_djamo_family(a) && is_djamo_family(b)) {
        // Distinct paths differ in their length or in one of these places.
        let (pa, pb) = (endpoint_path(a), endpoint_path(b));
        assert(pa.len() == pb.len());
        assert(pa[8] == pb[8] && pa[9] == pb[9] && pa[12] == pb[12] && pa[13] == pb[13]);
        assert(pa[14] == pb[14] && pa[15] == pb[15] && pa[16] == pb[16]);
        assert(pa[pa.len() - 1] == pb[pb.len() - 1] && pa[pa.len() - 2] == pb[pb.len() - 2]);
    }
}

/// The operator is one of the MTN family.
pub open spec fn is_mtn_family(op: PaydunyaOperator) -> bool {
    ||| op == PaydunyaOperator::MtnBenin
    ||| op == PaydunyaOperator::MtnCi
    ||| op == PaydunyaOperator::MtnCameroun
}

/// Only the MTN operators carry a wallet provider.
pub proof fn wallet_provider_only_for_mtn(op: PaydunyaOperator)
    ensures
        wallet_provider_code(op) is Some <==> is_mtn_family(op),
{
}

/// An ASCII lower-case letter in upper case; any other character unchanged.
pub open spec fn ascii_upper(c: char) -> char {
    if 'a' <= c <= 'z' {
        ((c as u32) - 32) as char
    } else {
        c
    }
}

/// `s` without its hyphens, with its ASCII letters in upper case.
pub open spec fn upper_without_hyphens(s: Seq<char>) -> Seq<char>
    decreases s.len(),
{
    if s.len() == 0 {
        Seq::empty()
    } else if s[0] == '-' {
        upper_without_hyphens(s.subrange(1, s.len() as int))
    } else {
        seq![ascii_upper(s[0])] + upper_without_hyphens(s.subrange(1, s.len() as int))
    }
}

/// An MTN operator's wallet provider is its endpoint name: the SOFTPAY path
/// without `softpay/` and its hyphens, in upper case.
pub proof fn wallet_provider_is_endpoint_name(op: PaydunyaOperator)
    ensures
        wallet_provider_code(op) matches Some(w) ==> {
            &&& is_prefix_of("softpay/"@, endpoint_path(op))
            &&& w == upper_without_hyphens(endpoint_path(op).subrange(8, endpoint_path(op).len() as int))
        },
{
    reveal_strlit("softpay/");
    reveal_strlit("softpay/mtn-benin");
    reveal_strlit("softpay/mtn-ci");
    reveal_strlit("softpay/mtn-cameroun");
    reveal_strlit("MTNBENIN");
    reveal_strlit("MTNCI");
    reveal_strlit("MTNCAMEROUN");
    reveal_with_fuel(upper_without_hyphens, 14);
    if let Some(w) = wallet_provider_code(op) {
        let p = endpoint_path(op);
        assert(p.subrange(0, 8) =~= "softpay/"@);
        assert(w =~= upper_without_hyphens(p.subrange(8, p.len() as int)));
    }
}

/// Only the Djamo operators carry a `code_country`.
pub proof fn djamo_code_country_only_for_djamo(op: PaydunyaOperator)
    ensures
        djamo_country_code(op) is Some <==> is_djamo_family(op),
{
}

/// The payment method type whose payments an operator serves, if operator
/// resolution ever picks it.
pub open spec fn operator_family(op: PaydunyaOperator) -> Option<PaymentMethodType> {
    match op {
        PaydunyaOperator::MtnBenin | PaydunyaOperator::MtnCi | PaydunyaOperator::MtnCameroun => Some(
            PaymentMethodType::Momo,
        ),
        PaydunyaOperator::MoovBenin | PaydunyaOperator::MoovCi | PaydunyaOperator::MoovMali
        | PaydunyaOperator::MoovTogo | PaydunyaOperator::MoovBurkina => Some(PaymentMethodType::MoovMoney),
        PaydunyaOperator::OrangeMoneyCi | PaydunyaOperator::OrangeMoneySenegal
        | PaydunyaOperator::OrangeMoneyMali | PaydunyaOperator::OrangeMoneyBurkina => Some(
            PaymentMethodType::OrangeMoney,
        ),
        PaydunyaOperator::WaveSenegal | PaydunyaOperator::WaveCi => Some(PaymentMethodType::Wave),
        PaydunyaOperator::DjamoCi | PaydunyaOperator::DjamoSn => Some(PaymentMethodType::Djamo),
        PaydunyaOperator::FreeMoneySenegal | PaydunyaOperator::ExpressoSenegal => None,
    }
}

/// The operator chosen for a payment serves the payment's own method type:
/// the method type picks the carrier family, the country only the region.
pub proof fn resolved_operator_serves_method_type(pm: Option<PaymentMethodType>, country: Option<Seq<char>>)
    ensures
        operator_for(pm, country) matches Some(op) ==> operator_family(op) == pm,
{
}

/// MoMo payments always find an operator: MTN Benin, Côte d'Ivoire or
/// Cameroun by country, MTN Benin for any other or no country.
pub proof fn momo_always_resolves(country: Option<Seq<char>>)
    ensures
        operator_for(Some(PaymentMethodType::Momo), country) is Some,
        country != Some("CI"@) && country != Some("CM"@) ==> operator_for(
            Some(PaymentMethodType::Momo),
            country,
        ) == Some(PaydunyaOperator::MtnBenin),
{
}

/// A Djamo payment's `code_country` is its billing country in lower case.
pub proof fn djamo_region_follows_billing_country(country: Option<Seq<char>>)
    ensures
        operator_for(Some(PaymentMethodType::Djamo), country) matches Some(op) ==> {
            ||| country == Some("CI"@) && djamo_country_code(op) == Some("ci"@)
            ||| country == Some("SN"@) && djamo_country_code(op) == Some("sn"@)
        },
{
}

/// An invoice fails the attempt exactly when it is cancelled or failed:
/// Paydunya's automatic cancellation is a terminal failure like any other.
pub proof fn cancelled_and_failed_invoices_fail_alike(s: PaydunyaSyncStatus)
    ensures
        sync_attempt_status(s) == AttemptStatus::Failure <==> (s == PaydunyaSyncStatus::Cancelled || s
            == PaydunyaSyncStatus::Failed),
{
}

/// When the error block gives no text, the failure reason is the top-level
/// fail reason, and never one made only of whitespace.
pub proof fn failure_reason_is_never_blank(r: PaydunyaSyncResponse)
    requires
        r.errors matches Some(e) ==> e.description is None && e.message is None,
    ensures
        failure_reason_spec(r) matches Some(t) ==> !all_white_space(t) && opt_view(r.fail_reason) == Some(t),
        failure_reason_spec(r) is None ==> (r.fail_reason matches Some(f) ==> all_white_space(f@)),
{
    if let Some(f) = r.fail_reason {
        lemma_trim_empty_iff_all_white(f@);
    }
}

/// The invoice token an invoice creation answers with, once kept as the
/// preprocessing id, is the payment token the authorize call sends.
pub proof fn invoice_token_becomes_payment_token(
    created: PaydunyaPaymentsPreProcessingResponse,
    d: crate::domain::PaymentsAuthorizeRouterData,
)
    requires
        opt_view(d.preprocessing_id) == Some(created.token@),
    ensures
        authorize_spec(d) matches Ok((op, fields, extra)) ==> fields.payment_token == created.token@,
{
}

proof fn lemma_prefix_char(p: Seq<char>, s: Seq<char>, i: int)
    requires
        is_prefix_of(p, s),
        0 <= i < p.len(),
    ensures
        s[i] == p[i],
{
    assert(s.subrange(0, p.len() as int)[i] == p[i]);
}

/// A result code is in at most one class: success, pending or rejection.
pub proof fn result_code_classes_are_disjoint(code: Seq<char>)
    ensures
        !(is_success_code(code) && is_pending_code(code)),
        !(is_success_code(code) && is_rejection_code(code)),
        !(is_pending_code(code) && is_rejection_code(code)),
{
    reveal_strlit("000.000.");
    reveal_strlit("000.100.1");
    reveal_strlit("000.200");
    reveal_strlit("100.");
    reveal_strlit("200.");
    reveal_strlit("800.");
    reveal_strlit("900.");
    if is_prefix_of("000.000."@, code) {
        lemma_prefix_char("000.000."@, code, 0);
        lemma_prefix_char("000.000."@, code, 4);
    }
    if is_prefix_of("000.100.1"@, code) {
        lemma_prefix_char("000.100.1"@, code, 0);
        lemma_prefix_char("000.100.1"@, code, 4);
    }
    if is_prefix_of("000.200"@, code) {
        lemma_prefix_char("000.200"@, code, 0);
        lemma_prefix_char("000.200"@, code, 4);
    }
    if is_prefix_of("100."@, code) {
        lemma_prefix_char("100."@, code, 0);
    }
    if is_prefix_of("200."@, code) {
        lemma_prefix_char("200."@, code, 0);
    }
    if is_prefix_of("800."@, code) {
        lemma_prefix_char("800."@, code, 0);
    }
    if is_prefix_of("900."@, code) {
        lemma_prefix_char("900."@, code, 0);
    }
}

/// A result code charges a payment exactly when it completes a refund, fails
/// a payment exactly when it fails a refund, and a code that leaves a payment
/// waiting on the shopper leaves a refund pending.
pub proof fn payment_and_refund_statuses_agree(code: Seq<char>)
    ensures
        attempt_status_for_code(code) == AttemptStatus::Charged <==> refund_status_for_code(code)
            == RefundStatus::Success,
        attempt_status_for_code(code) == AttemptStatus::Failure <==> refund_status_for_code(code)
            == RefundStatus::Failure,
        attempt_status_for_code(code) == AttemptStatus::AuthenticationPending ==> refund_status_for_code(
            code,
        ) == RefundStatus::Pending,
{
    result_code_classes_are_disjoint(code);
}

/// The event a payment webhook reports agrees with the attempt status of its
/// result code, and the event of a refund webhook with the refund status.
pub proof fn webhook_event_agrees_with_statuses(code: Seq<char>)
    ensures
        webhook_event_for(false, code) == IncomingWebhookEvent::PaymentIntentSuccess
            <==> attempt_status_for_code(code) == AttemptStatus::Charged,
        webhook_event_for(false, code) == IncomingWebhookEvent::PaymentIntentProcessing
            <==> attempt_status_for_code(code) == AttemptStatus::AuthenticationPending,
        webhook_event_for(false, code) == IncomingWebhookEvent::PaymentIntentFailure
            <==> attempt_status_for_code(code) == AttemptStatus::Failure,
        webhook_event_for(true, code) == IncomingWebhookEvent::RefundSuccess
            <==> refund_status_for_code(code) == RefundStatus::Success,
        webhook_event_for(true, code) == IncomingWebhookEvent::RefundFailure
            <==> refund_status_for_code(code) == RefundStatus::Failure,
{
    result_code_classes_are_disjoint(code);
}

/// A result has an error reason exactly when it has a description or a list
/// of rejected parameters, and the reason starts with the description.
pub proof fn error_reason_present_iff_details(r: ApmResult)
    ensures
        error_reason_spec(r) is None <==> (r.description is None && r.parameter_errors is None),
        r.description matches Some(d) ==> error_reason_spec(r) matches Some(t) && is_prefix_of(d@, t),
{
    if let Some(d) = r.description {
        let t = error_reason_spec(r).unwrap();
        assert(t.subrange(0, d@.len() as int) =~= d@);
    }
}

/// A webhook payload decrypts only under a 16 or 32 byte key, a 12 byte IV
/// and a 16 byte tag, all four inputs being valid hex.
pub proof fn decryption_needs_valid_lengths(key_hex: Seq<u8>, iv_hex: Seq<u8>, tag_hex: Seq<u8>, body_hex: Seq<u8>)
    ensures
        decrypt_payload_spec(key_hex, iv_hex, tag_hex, body_hex) is Ok ==> {
            &&& hex_decode_spec(key_hex) matches Some(k) && (k.len() == 16 || k.len() == 32)
            &&& hex_decode_spec(iv_hex) matches Some(iv) && iv.len() == 12
            &&& hex_decode_spec(tag_hex) matches Some(tag) && tag.len() == 16
            &&& hex_decode_spec(body_hex) is Some
        },
{
}

/// No payment method type is listed twice among the supported methods, so
/// each is offered under exactly one payment method family.
pub proof fn supported_method_types_are_distinct()
    ensures
        forall|i: int, j: int|
            0 <= i < j < supported_method_types().len() ==> (#[trigger] supported_method_types()[i]).1
                != (#[trigger] supported_method_types()[j]).1,
{
    let s = supported_method_types();
    assert forall|i: int, j: int| 0 <= i < j < s.len() implies (#[trigger] s[i]).1 != (#[trigger] s[j]).1 by {
        assert(0 <= i < 18 && 0 <= j < 18);
    }
}

/// An authorization is accepted exactly when its capture method (automatic
/// when unspecified) is one the supported payment methods list.
pub proof fn authorize_accepts_listed_capture_methods(
    details: PaymentMethodDetails,
    req: PaymentsAuthorizeRouterData,
    connectors: Connectors,
    r: Result<String, ConnectorError>,
)
    requires
        is_apm_details(details),
        authorize_url_matches(r, req, connectors),
    ensures
        r is Ok <==> details.supported_capture_methods@.contains(capture_method_or_default(req.capture_method)),
{
    let listed = details.supported_capture_methods@;
    if r is Ok {
        assert(listed[0] == capture_method_or_default(req.capture_method));
    }
}

/// A 1ForYou debit request always carries the shopper's mobile number: the
/// voucher flow is synchronous and cannot complete without it.
pub proof fn one_for_you_requests_carry_mobile(d: PaymentsAuthorizeRouterData)
    ensures
        payments_request_spec(d) matches Ok((brand, mobile, lines)) ==> (brand.0
            == PeachPaymentBrand::OneForYou ==> mobile is Some),
{
}

proof fn lemma_first_other_than(s: Seq<char>, c: char, i: int)
    requires
        0 <= i <= s.len(),
    ensures
        i <= first_other_than_from(s, c, i) <= s.len(),
        first_other_than_from(s, c, i) < s.len() ==> s[first_other_than_from(s, c, i)] != c,
    decreases s.len() - i,
{
    if i < s.len() && s[i] == c {
        lemma_first_other_than(s, c, i + 1);
    }
}

/// The Capitec Pay account number is the local form of the billing phone: a
/// single leading zero followed by the number without its own leading zeros.
pub proof fn local_phone_has_single_leading_zero(d: PaymentsAuthorizeRouterData)
    ensures
        local_phone_spec(d) matches Ok(p) ==> {
            &&& p.len() >= 1
            &&& p[0] == '0'
            &&& p.len() > 1 ==> p[1] != '0'
        },
{
    reveal_strlit("0");
    if let Ok(p) = local_phone_spec(d) {
        if let Some(phone) = crate::accessors::billing_phone(d) {
            if let Some(n) = phone.number {
                lemma_first_other_than(n@, '0', 0);
                let rest = trim_start_char_spec(n@, '0');
                assert(p =~= seq!['0'] + rest);
                if rest.len() > 0 {
                    assert(rest[0] == n@[first_other_than_from(n@, '0', 0)]);
                }
            }
        }
    }
}

/// The wallet provider an authorize body carries, if its operator has one.
pub open spec fn body_wallet_provider(q: PaydunyaPaymentsRequest) -> Option<Seq<char>> {
    match q {
        PaydunyaPaymentsRequest::MtnBenin(x) => Some(x.mtn_benin_wallet_provider@),
        PaydunyaPaymentsRequest::MtnCi(x) => Some(x.mtn_ci_wallet_provider@),
        PaydunyaPaymentsRequest::MtnCameroun(x) => Some(x.mtn_cameroun_wallet_provider@),
        _ => None,
    }
}

/// A MoMo authorize body names the MTN wallet of the billing country: MTN
/// Côte d'Ivoire for `CI`, MTN Cameroun for `CM`, MTN Benin for any other
/// country; no other payment method type sends a wallet provider.
pub proof fn authorize_body_wallet_provider_follows_country(
    d: PaymentsAuthorizeRouterData,
    q: PaydunyaPaymentsRequest,
    op: PaydunyaOperator,
    fields: CommonFieldsView,
    extra: Seq<char>,
)
    requires
        authorize_spec(d) == Ok::<(PaydunyaOperator, CommonFieldsView, Seq<char>), crate::paydunya::authorize::AuthorizeFault>((op, fields, extra)),
        request_for(q, op, fields, extra),
    ensures
        d.payment_method_type == Some(PaymentMethodType::Momo) ==> body_wallet_provider(q) == Some(
            if billing_country(d) == Some("CI"@) {
                "MTNCI"@
            } else if billing_country(d) == Some("CM"@) {
                "MTNCAMEROUN"@
            } else {
                "MTNBENIN"@
            },
        ),
        d.payment_method_type != Some(PaymentMethodType::Momo) ==> body_wallet_provider(q) is None,
{
    reveal_strlit("BJ");
    reveal_strlit("CI");
    reveal_strlit("CM");
    if d.payment_method_type == Some(PaymentMethodType::Momo) {
        assert(operator_for(d.payment_method_type, billing_country(d)) == Some(op));
        assert(wallet_provider_code(op) is Some);
        assert(body_wallet_provider(q) == wallet_provider_code(op));
        assert("BJ"@[0] != "CI"@[0] && "BJ"@[0] != "CM"@[0] && "CI"@[1] != "CM"@[1]);
    }
}

/// A result code starting with `100.`, `200.`, `800.` or `900.` fails a
/// payment and a refund, and its webhooks report that failure.
pub proof fn rejection_prefixes_fail(code: Seq<char>)
    requires
        is_prefix_of("100."@, code) || is_prefix_of("200."@, code) || is_prefix_of("800."@, code)
            || is_prefix_of("900."@, code),
    ensures
        attempt_status_for_code(code) == AttemptStatus::Failure,
        refund_status_for_code(code) == RefundStatus::Failure,
        webhook_event_for(false, code) == IncomingWebhookEvent::PaymentIntentFailure,
        webhook_event_for(true, code) == IncomingWebhookEvent::RefundFailure,
{
    result_code_classes_are_disjoint(code);
}

/// A result code starting with `000.000.` or `000.100.1` charges a payment
/// and completes a refund, and its webhooks report that success.
pub proof fn success_prefixes_succeed(code: Seq<char>)
    requires
        is_prefix_of("000.000."@, code) || is_prefix_of("000.100.1"@, code),
    ensures
        attempt_status_for_code(code) == AttemptStatus::Charged,
        refund_status_for_code(code) == RefundStatus::Success,
        webhook_event_for(false, code) == IncomingWebhookEvent::PaymentIntentSuccess,
        webhook_event_for(true, code) == IncomingWebhookEvent::RefundSuccess,
{
}

/// A result code starting with `000.200` leaves the payment waiting on the
/// shopper and a refund pending; a payment webhook reports it as processing
/// and a refund webhook reports nothing.
pub proof fn pending_prefix_waits(code: Seq<char>)
    requires
        is_prefix_of("000.200"@, code),
    ensures
        attempt_status_for_code(code) == AttemptStatus::AuthenticationPending,
        refund_status_for_code(code) == RefundStatus::Pending,
        webhook_event_for(false, code) == IncomingWebhookEvent::PaymentIntentProcessing,
        webhook_event_for(true, code) == IncomingWebhookEvent::EventNotSupported,
{
    result_code_classes_are_disjoint(code);
}

/// A result code with none of the known prefixes leaves payments and refunds
/// pending, and its webhooks report nothing.
pub proof fn unclassified_codes_stay_pending(code: Seq<char>)
    requires
        !is_prefix_of("000.000."@, code),
        !is_prefix_of("000.100.1"@, code),
        !is_prefix_of("000.200"@, code),
        !is_prefix_of("100."@, code),
        !is_prefix_of("200."@, code),
        !is_prefix_of("800."@, code),
        !is_prefix_of("900."@, code),
    ensures
        attempt_status_for_code(code) == AttemptStatus::Pending,
        refund_status_for_code(code) == RefundStatus::Pending,
        webhook_event_for(false, code) == IncomingWebhookEvent::EventNotSupported,
        webhook_event_for(true, code) == IncomingWebhookEvent::EventNotSupported,
{
}

/// The ISO 3166-1 country an operator serves.
pub open spec fn operator_country(op: PaydunyaOperator) -> Seq<char> {
    match op {
        PaydunyaOperator::MtnBenin | PaydunyaOperator::MoovBenin => "BJ"@,
        PaydunyaOperator::MtnCi | PaydunyaOperator::MoovCi | PaydunyaOperator::OrangeMoneyCi
        | PaydunyaOperator::WaveCi | PaydunyaOperator::DjamoCi => "CI"@,
        PaydunyaOperator::MtnCameroun => "CM"@,
        PaydunyaOperator::MoovMali | PaydunyaOperator::OrangeMoneyMali => "ML"@,
        PaydunyaOperator::MoovTogo => "TG"@,
        PaydunyaOperator::MoovBurkina | PaydunyaOperator::OrangeMoneyBurkina => "BF"@,
        PaydunyaOperator::OrangeMoneySenegal | PaydunyaOperator::WaveSenegal
        | PaydunyaOperator::FreeMoneySenegal | PaydunyaOperator::ExpressoSenegal
        | PaydunyaOperator::DjamoSn => "SN"@,
    }
}

/// A resolved operator serves the billing country; the one exception is
/// MoMo's default to MTN Benin when the country is absent or not one MTN
/// serves.
pub proof fn resolved_operator_serves_billing_country(pm: Option<PaymentMethodType>, country: Option<Seq<char>>)
    ensures
        operator_for(pm, country) matches Some(op) ==> (country == Some(operator_country(op)) || (pm
            == Some(PaymentMethodType::Momo) && op == PaydunyaOperator::MtnBenin)),
{
}

/// Blink by Emtel and MCB Juice identify the shopper by the billing phone
/// number exactly as given (the local Mauritian number, without country
/// code); a missing phone or number is reported by name.
pub proof fn mauritian_wallets_use_number_as_given(d: PaymentsAuthorizeRouterData)
    requires
        d.payment_method_data == PaymentMethodData::Wallet(WalletData::BlinkByEmtelRedirect)
            || d.payment_method_data == PaymentMethodData::Wallet(WalletData::McbJuiceRedirect),
    ensures
        match d.billing {
            Some(b) => match b.phone {
                Some(p) => match p.number {
                    Some(n) => brand_details_spec(d) == Ok::<_, ApmFault>((
                        if d.payment_method_data == PaymentMethodData::Wallet(WalletData::BlinkByEmtelRedirect) {
                            PeachPaymentBrand::BlinkByEmtel
                        } else {
                            PeachPaymentBrand::McbJuice
                        },
                        Some(VirtualAccountView { account_id: Some(n@), password: None, account_type: None, bank: None }),
                        None::<Seq<char>>,
                    )),
                    None => brand_details_spec(d) == Err::<crate::peach::transformers::BrandDetailsView, ApmFault>(
                        ApmFault::MissingField("billing.phone.number"@),
                    ),
                },
                None => brand_details_spec(d) == Err::<crate::peach::transformers::BrandDetailsView, ApmFault>(
                    ApmFault::MissingField("billing.phone"@),
                ),
            },
            None => brand_details_spec(d) == Err::<crate::peach::transformers::BrandDetailsView, ApmFault>(
                ApmFault::MissingField("billing.phone"@),
            ),
        },
{
}

/// The payment method family of some payment method data, when the Payments
/// API has one for it.
pub open spec fn payment_method_of(data: PaymentMethodData) -> Option<PaymentMethod> {
    match data {
        PaymentMethodData::BankTransfer(_) => Some(PaymentMethod::BankTransfer),
        PaymentMethodData::PayLater(_) => Some(PaymentMethod::PayLater),
        PaymentMethodData::Wallet(_) => Some(PaymentMethod::Wallet),
        PaymentMethodData::Voucher(_) => Some(PaymentMethod::Voucher),
        PaymentMethodData::Crypto => Some(PaymentMethod::Crypto),
        PaymentMethodData::Card => None,
    }
}

/// The payment method type a brand is offered as.
pub open spec fn brand_method_type(brand: PeachPaymentBrand) -> PaymentMethodType {
    match brand {
        PeachPaymentBrand::CapitecPay => PaymentMethodType::CapitecPay,
        PeachPaymentBrand::PayShap => PaymentMethodType::PayShap,
        PeachPaymentBrand::NedbankDirectEft => PaymentMethodType::NedbankDirectEft,
        PeachPaymentBrand::PeachEft => PaymentMethodType::PeachEft,
        PeachPaymentBrand::Payflex => PaymentMethodType::Payflex,
        PeachPaymentBrand::ZeroPay => PaymentMethodType::ZeroPay,
        PeachPaymentBrand::Float => PaymentMethodType::Float,
        PeachPaymentBrand::HappyPay => PaymentMethodType::HappyPay,
        PeachPaymentBrand::Mobicred => PaymentMethodType::Mobicred,
        PeachPaymentBrand::Rcs => PaymentMethodType::Rcs,
        PeachPaymentBrand::APlus => PaymentMethodType::APlus,
        PeachPaymentBrand::Mpesa => PaymentMethodType::Mpesa,
        PeachPaymentBrand::BlinkByEmtel => PaymentMethodType::BlinkByEmtel,
        PeachPaymentBrand::McbJuice => PaymentMethodType::McbJuice,
        PeachPaymentBrand::ScanToPay => PaymentMethodType::ScanToPay,
        PeachPaymentBrand::Maucas => PaymentMethodType::Maucas,
        PeachPaymentBrand::OneForYou => PaymentMethodType::OneForYou,
        PeachPaymentBrand::MoneyBadger => PaymentMethodType::MoneyBadger,
    }
}

/// Every payment the connector can build brand details for is one it lists
/// as supported, under the family of the payment method data that yields
/// that brand (M-PESA under wallets, PayShap under bank transfers, ...).
pub proof fn brands_are_listed_under_their_family(d: PaymentsAuthorizeRouterData)
    ensures
        brand_details_spec(d) matches Ok(b) ==> payment_method_of(d.payment_method_data) matches Some(pm)
            && supported_method_types().contains((pm, brand_method_type(b.0))),
{
    let s = supported_method_types();
    assert(s[0] == (PaymentMethod::BankTransfer, PaymentMethodType::CapitecPay));
    assert(s[1] == (PaymentMethod::BankTransfer, PaymentMethodType::PayShap));
    assert(s[2] == (PaymentMethod::BankTransfer, PaymentMethodType::NedbankDirectEft));
    assert(s[3] == (PaymentMethod::BankTransfer, PaymentMethodType::PeachEft));
    assert(s[4] == (PaymentMethod::PayLater, PaymentMethodType::Payflex));
    assert(s[5] == (PaymentMethod::PayLater, PaymentMethodType::ZeroPay));
    assert(s[6] == (PaymentMethod::PayLater, PaymentMethodType::Float));
    assert(s[7] == (PaymentMethod::PayLater, PaymentMethodType::HappyPay));
    assert(s[8] == (PaymentMethod::PayLater, PaymentMethodType::Mobicred));
    assert(s[9] == (PaymentMethod::PayLater, PaymentMethodType::Rcs));
    assert(s[10] == (PaymentMethod::PayLater, PaymentMethodType::APlus));
    assert(s[11] == (PaymentMethod::Wallet, PaymentMethodType::Mpesa));
    assert(s[12] == (PaymentMethod::Wallet, PaymentMethodType::BlinkByEmtel));
    assert(s[13] == (PaymentMethod::Wallet, PaymentMethodType::McbJuice));
    assert(s[14] == (PaymentMethod::Wallet, PaymentMethodType::ScanToPay));
    assert(s[15] == (PaymentMethod::Wallet, PaymentMethodType::Maucas));
    assert(s[16] == (PaymentMethod::Voucher, PaymentMethodType::OneForYou));
    assert(s[17] == (PaymentMethod::Crypto, PaymentMethodType::MoneyBadger));
}

} // verus!
