//! The callback of the pay protocol: what is checked, what is asked of the
//! mint and of the store, in which order, and what is answered.
//!
//! The work outside this library (looking up the recipient, issuing the
//! invoice, writing to the store, starting the watcher) is not done here. A
//! `Callback` says which of these is due next, as a `CallbackAction`, and is
//! told how it went, as a `CallbackEvent`.

use vstd::prelude::*;
use vstd::string::*;
use crate::lnurl::LnurlStatus;
use crate::model::{NewInvoice, NewInvoiceView, PaymentRequest, PaymentRequestView, RecipientProfile, RecipientProfileView};
use crate::text::{decimal, decimal_string};
use crate::trusted::{event_kind, parse_url, parsed_url, payload_kind};

verus! {

/// The smallest amount that is accepted, in millisatoshi.
pub const MIN_AMOUNT: u64 = 1000;

/// The kind number of a zap request.
pub const ZAP_REQUEST_KIND: u64 = 9734;

/// The parameters of a callback.
#[derive(Debug, PartialEq, Eq)]
pub struct LnurlCallbackParams {
    /// The amount that the payer chose, in millisatoshi.
    pub amount: u64,
    /// Prevents caching of the response.
    pub nonce: Option<String>,
    /// A comment of the payer for the recipient.
    pub comment: Option<String>,
    /// An ephemeral public key that the payer made.
    pub proofofpayer: Option<String>,
    /// A zap request: a signed event that asks for a receipt.
    pub nostr: Option<String>,
}

/// What a `LnurlCallbackParams` holds.
pub struct LnurlCallbackParamsView {
    pub amount: u64,
    pub nonce: Option<Seq<char>>,
    pub comment: Option<Seq<char>>,
    pub proofofpayer: Option<Seq<char>>,
    pub nostr: Option<Seq<char>>,
}

impl View for LnurlCallbackParams {
    type V = LnurlCallbackParamsView;

    open spec fn view(&self) -> LnurlCallbackParamsView {
        LnurlCallbackParamsView {
            amount: self.amount,
            nonce: self.nonce.deep_view(),
            comment: self.comment.deep_view(),
            proofofpayer: self.proofofpayer.deep_view(),
            nostr: self.nostr.deep_view(),
        }
    }
}

/// What the payer's wallet does once the payment went through.
#[derive(Debug, PartialEq, Eq)]
pub struct LnurlCallbackSuccessAction {
    pub tag: String,
    pub message: String,
}

/// What a `LnurlCallbackSuccessAction` holds.
pub struct LnurlCallbackSuccessActionView {
    pub tag: Seq<char>,
    pub message: Seq<char>,
}

impl View for LnurlCallbackSuccessAction {
    type V = LnurlCallbackSuccessActionView;

    open spec fn view(&self) -> LnurlCallbackSuccessActionView {
        LnurlCallbackSuccessActionView { tag: self.tag@, message: self.message@ }
    }
}

/// The answer to a callback.
#[derive(Debug, PartialEq, Eq)]
pub struct LnurlCallbackResponse {
    pub status: LnurlStatus,
    pub reason: Option<String>,
    /// The invoice to pay.
    pub pr: String,
    /// The URL under which the payment can be verified.
    pub verify: String,
    pub success_action: Option<LnurlCallbackSuccessAction>,
    pub routes: Option<Vec<String>>,
}

/// What a `LnurlCallbackResponse` holds.
pub struct LnurlCallbackResponseView {
    pub status: LnurlStatus,
    pub reason: Option<Seq<char>>,
    pub pr: Seq<char>,
    pub verify: Seq<char>,
    pub success_action: Option<LnurlCallbackSuccessActionView>,
    pub routes: Option<Seq<Seq<char>>>,
}

impl View for LnurlCallbackResponse {
    type V = LnurlCallbackResponseView;

    open spec fn view(&self) -> LnurlCallbackResponseView {
        LnurlCallbackResponseView {
            status: self.status,
            reason: self.reason.deep_view(),
            pr: self.pr@,
            verify: self.verify@,
            success_action: match self.success_action {
                Some(action) => Some(action@),
                None => None,
            },
            routes: self.routes.deep_view(),
        }
    }
}

/// Where the service is reached from outside.
#[derive(Debug, PartialEq, Eq)]
pub struct ServiceAddress {
    pub domain: String,
    pub port: u16,
}

/// What a `ServiceAddress` holds.
pub struct ServiceAddressView {
    pub domain: Seq<char>,
    pub port: u16,
}

impl View for ServiceAddress {
    type V = ServiceAddressView;

    open spec fn view(&self) -> ServiceAddressView {
        ServiceAddressView { domain: self.domain@, port: self.port }
    }
}

/// Why a callback is not answered with an invoice.
#[derive(Clone, Copy, Debug, PartialEq, Eq, Structural)]
pub enum CallbackError {
    /// The amount is below `MIN_AMOUNT`.
    InvalidAmount,
    /// A payment request came with the callback and is no signed zap request.
    InvalidPaymentRequest,
    /// No recipient has the user name.
    UnknownRecipient,
    /// The recipient's federation has no client here.
    UnknownFederation,
    /// The mint did not issue an invoice.
    InvoiceCreationFailed,
    /// The store did not take a record.
    StoreFailed,
    /// The operation could not be subscribed to.
    SubscriptionFailed,
    /// The URL for verification could not be formed.
    InvalidVerifyUrl,
    /// An event arrived that does not answer what was asked last.
    UnexpectedEvent,
}

impl CallbackError {
    /// A validation error is the caller's fault: nothing has been changed
    /// when one is found.
    pub open spec fn is_validation(self) -> bool {
        self == CallbackError::InvalidAmount || self == CallbackError::InvalidPaymentRequest
            || self == CallbackError::UnknownRecipient || self
            == CallbackError::UnknownFederation
    }

    /// The HTTP status that the error is reported with.
    pub open spec fn status_code(self) -> u16 {
        if self.is_validation() {
            400
        } else {
            500
        }
    }

    /// The reason that the error is reported with.
    pub open spec fn reason_text(self) -> Seq<char> {
        match self {
            CallbackError::InvalidAmount => "Amount < MIN_AMOUNT"@,
            CallbackError::InvalidPaymentRequest => "Invalid nostr event"@,
            CallbackError::UnknownRecipient => "User not found"@,
            CallbackError::UnknownFederation => "FederationId not found in multimint map"@,
            CallbackError::InvoiceCreationFailed => "Invoice could not be created"@,
            CallbackError::StoreFailed => "Store failed"@,
            CallbackError::SubscriptionFailed => "Subscription failed"@,
            CallbackError::InvalidVerifyUrl => "Invalid verify url"@,
            CallbackError::UnexpectedEvent => "Unexpected event"@,
        }
    }

    /// The HTTP status that the error is reported with: 400 for a validation
    /// error, 500 for every other.
    pub fn status(&self) -> (r: u16)
        ensures
            r == self.status_code(),
    {
        match self {
            CallbackError::InvalidAmount => 400,
            CallbackError::InvalidPaymentRequest => 400,
            CallbackError::UnknownRecipient => 400,
            CallbackError::UnknownFederation => 400,
            CallbackError::InvoiceCreationFailed => 500,
            CallbackError::StoreFailed => 500,
            CallbackError::SubscriptionFailed => 500,
            CallbackError::InvalidVerifyUrl => 500,
            CallbackError::UnexpectedEvent => 500,
        }
    }

    /// The reason that the error is reported with, for a person to read.
    pub fn reason(&self) -> (r: String)
        ensures
            r@ == self.reason_text(),
    {
        let text = match self {
            CallbackError::InvalidAmount => "Amount < MIN_AMOUNT",
            CallbackError::InvalidPaymentRequest => "Invalid nostr event",
            CallbackError::UnknownRecipient => "User not found",
            CallbackError::UnknownFederation => "FederationId not found in multimint map",
            CallbackError::InvoiceCreationFailed => "Invoice could not be created",
            CallbackError::StoreFailed => "Store failed",
            CallbackError::SubscriptionFailed => "Subscription failed",
            CallbackError::InvalidVerifyUrl => "Invalid verify url",
            CallbackError::UnexpectedEvent => "Unexpected event",
        };
        String::from_str(text)
    }
}

/// How far a callback has come, with what it has learned so far.
#[derive(Debug, PartialEq, Eq)]
pub enum CallbackStage {
    /// The recipient is being looked up.
    AwaitingRecipient,
    /// The recipient's federation is being looked up among the clients.
    AwaitingFederation { profile: RecipientProfile },
    /// The mint is issuing the invoice.
    AwaitingInvoice { profile: RecipientProfile },
    /// The store is taking the invoice.
    AwaitingInvoiceSaved { profile: RecipientProfile, op_id: String, bolt11: String },
    /// The store is taking the payment request.
    AwaitingRequestSaved { profile: RecipientProfile, invoice_id: i32, op_id: String, bolt11: String },
    /// The watcher of the invoice is being started.
    AwaitingWatcher { op_id: String, bolt11: String },
    /// The callback has been answered or rejected.
    Done,
}

/// What a `CallbackStage` holds.
pub enum CallbackStageView {
    AwaitingRecipient,
    AwaitingFederation { profile: RecipientProfileView },
    AwaitingInvoice { profile: RecipientProfileView },
    AwaitingInvoiceSaved { profile: RecipientProfileView, op_id: Seq<char>, bolt11: Seq<char> },
    AwaitingRequestSaved {
        profile: RecipientProfileView,
        invoice_id: i32,
        op_id: Seq<char>,
        bolt11: Seq<char>,
    },
    AwaitingWatcher { op_id: Seq<char>, bolt11: Seq<char> },
    Done,
}

impl View for CallbackStage {
    type V = CallbackStageView;

    open spec fn view(&self) -> CallbackStageView {
        match self {
            CallbackStage::AwaitingRecipient => CallbackStageView::AwaitingRecipient,
            CallbackStage::AwaitingFederation { profile } => CallbackStageView::AwaitingFederation {
                profile: profile@,
            },
            CallbackStage::AwaitingInvoice { profile } => CallbackStageView::AwaitingInvoice {
                profile: profile@,
            },
            CallbackStage::AwaitingInvoiceSaved {
                profile,
                op_id,
                bolt11,
            } => CallbackStageView::AwaitingInvoiceSaved {
                profile: profile@,
                op_id: op_id@,
                bolt11: bolt11@,
            },
            CallbackStage::AwaitingRequestSaved {
                profile,
                invoice_id,
                op_id,
                bolt11,
            } => CallbackStageView::AwaitingRequestSaved {
                profile: profile@,
                invoice_id: *invoice_id,
                op_id: op_id@,
                bolt11: bolt11@,
            },
            CallbackStage::AwaitingWatcher { op_id, bolt11 } => CallbackStageView::AwaitingWatcher {
                op_id: op_id@,
                bolt11: bolt11@,
            },
            CallbackStage::Done => CallbackStageView::Done,
        }
    }
}

/// A callback that is being handled.
#[derive(Debug, PartialEq, Eq)]
pub struct Callback {
    pub username: String,
    pub params: LnurlCallbackParams,
    pub stage: CallbackStage,
}

/// What a `Callback` holds.
pub struct CallbackView {
    pub username: Seq<char>,
    pub params: LnurlCallbackParamsView,
    pub stage: CallbackStageView,
}

impl View for Callback {
    type V = CallbackView;

    open spec fn view(&self) -> CallbackView {
        CallbackView { username: self.username@, params: self.params@, stage: self.stage@ }
    }
}

/// How the work that a callback asked for has gone.
#[derive(Debug, PartialEq, Eq)]
pub enum CallbackEvent {
    /// The recipient was found.
    RecipientFound(RecipientProfile),
    /// The federation has a client here.
    FederationFound,
    /// The mint issued an invoice, under this operation id.
    InvoiceIssued { op_id: String, bolt11: String },
    /// The store took the invoice and gave it this id.
    InvoiceSaved { id: i32 },
    /// The store took the payment request.
    RequestSaved,
    /// The watcher of the invoice runs.
    WatcherStarted,
    /// What was asked for last could not be done.
    Failed,
}

/// What a `CallbackEvent` holds.
pub enum CallbackEventView {
    RecipientFound(RecipientProfileView),
    FederationFound,
    InvoiceIssued { op_id: Seq<char>, bolt11: Seq<char> },
    InvoiceSaved { id: i32 },
    RequestSaved,
    WatcherStarted,
    Failed,
}

impl View for CallbackEvent {
    type V = CallbackEventView;

    open spec fn view(&self) -> CallbackEventView {
        match self {
            CallbackEvent::RecipientFound(profile) => CallbackEventView::RecipientFound(profile@),
            CallbackEvent::FederationFound => CallbackEventView::FederationFound,
            CallbackEvent::InvoiceIssued { op_id, bolt11 } => CallbackEventView::InvoiceIssued {
                op_id: op_id@,
                bolt11: bolt11@,
            },
            CallbackEvent::InvoiceSaved { id } => CallbackEventView::InvoiceSaved { id: *id },
            CallbackEvent::RequestSaved => CallbackEventView::RequestSaved,
            CallbackEvent::WatcherStarted => CallbackEventView::WatcherStarted,
            CallbackEvent::Failed => CallbackEventView::Failed,
        }
    }
}

/// What a callback asks for next.
#[derive(Debug, PartialEq, Eq)]
pub enum CallbackAction {
    /// Look up the recipient with this user name.
    LookupRecipient { username: String },
    /// Look up the client of this federation.
    ResolveFederation { federation_id: String },
    /// Have the federation's mint issue an invoice.
    CreateInvoice { amount_msats: u64, description: String },
    /// Store the invoice, in state `Created`.
    SaveInvoice(NewInvoice),
    /// Store the payment request.
    SaveRequest(PaymentRequest),
    /// Subscribe to the operation and start the watcher of the invoice.
    StartWatcher { invoice_id: i32, op_id: String, profile: RecipientProfile },
    /// Answer the caller with the invoice.
    Respond(LnurlCallbackResponse),
    /// Answer the caller with an error.
    Reject(CallbackError),
    /// Nothing: the callback is over.
    Nothing,
}

/// What a `CallbackAction` holds.
pub enum CallbackActionView {
    LookupRecipient { username: Seq<char> },
    ResolveFederation { federation_id: Seq<char> },
    CreateInvoice { amount_msats: u64, description: Seq<char> },
    SaveInvoice(NewInvoiceView),
    SaveRequest(PaymentRequestView),
    StartWatcher { invoice_id: i32, op_id: Seq<char>, profile: RecipientProfileView },
    Respond(LnurlCallbackResponseView),
    Reject(CallbackError),
    Nothing,
}

impl View for CallbackAction {
    type V = CallbackActionView;

    open spec fn view(&self) -> CallbackActionView {
        match self {
            CallbackAction::LookupRecipient { username } => CallbackActionView::LookupRecipient {
                username: username@,
            },
            CallbackAction::ResolveFederation {
                federation_id,
            } => CallbackActionView::ResolveFederation { federation_id: federation_id@ },
            CallbackAction::CreateInvoice {
                amount_msats,
                description,
            } => CallbackActionView::CreateInvoice {
                amount_msats: *amount_msats,
                description: description@,
            },
            CallbackAction::SaveInvoice(invoice) => CallbackActionView::SaveInvoice(invoice@),
            CallbackAction::SaveRequest(request) => CallbackActionView::SaveRequest(request@),
            CallbackAction::StartWatcher {
                invoice_id,
                op_id,
                profile,
            } => CallbackActionView::StartWatcher {
                invoice_id: *invoice_id,
                op_id: op_id@,
                profile: profile@,
            },
            CallbackAction::Respond(response) => CallbackActionView::Respond(response@),
            CallbackAction::Reject(error) => CallbackActionView::Reject(*error),
            CallbackAction::Nothing => CallbackActionView::Nothing,
        }
    }
}

/// A payment request is valid where it holds a signed event, with a matching
/// id and signature, of the kind of a zap request.
pub open spec fn valid_payment_request(payload: Seq<char>) -> bool {
    event_kind(payload) == Some(ZAP_REQUEST_KIND)
}

/// The error for which the parameters are rejected before anything is looked
/// up: the amount is checked first, then the payment request if there is one.
pub open spec fn validation_error(params: LnurlCallbackParamsView) -> Option<CallbackError> {
    if params.amount < MIN_AMOUNT {
        Some(CallbackError::InvalidAmount)
    } else if params.nostr is Some && !valid_payment_request(params.nostr->0) {
        Some(CallbackError::InvalidPaymentRequest)
    } else {
        None
    }
}

/// The URL under which a payment can be verified, before it is parsed.
pub open spec fn verify_url_text(
    service: ServiceAddressView,
    username: Seq<char>,
    op_id: Seq<char>,
) -> Seq<char> {
    "http://"@ + service.domain + ":"@ + decimal(service.port as nat) + "/lnurlp/"@ + username
        + "/verify/"@ + op_id
}

/// The description that every invoice is issued with.
pub open spec fn invoice_description() -> Seq<char> {
    "test invoice"@
}

/// A callback that has ended with an error.
pub open spec fn rejected(flow: CallbackView, error: CallbackError) -> (
    CallbackView,
    CallbackActionView,
) {
    (CallbackView { stage: CallbackStageView::Done, ..flow }, CallbackActionView::Reject(error))
}

/// A callback that has moved on and asks for something.
pub open spec fn proceed(flow: CallbackView, stage: CallbackStageView, action: CallbackActionView)
    -> (CallbackView, CallbackActionView) {
    (CallbackView { stage, ..flow }, action)
}

/// How a callback starts: with a rejection where the parameters are not valid,
/// else with the lookup of the recipient.
pub open spec fn begin(username: Seq<char>, params: LnurlCallbackParamsView) -> (
    CallbackView,
    CallbackActionView,
) {
    let flow = CallbackView { username, params, stage: CallbackStageView::AwaitingRecipient };
    match validation_error(params) {
        Some(error) => rejected(flow, error),
        None => (flow, CallbackActionView::LookupRecipient { username }),
    }
}

/// The answer that carries the invoice.
pub open spec fn response(bolt11: Seq<char>, verify: Seq<char>) -> LnurlCallbackResponseView {
    LnurlCallbackResponseView {
        status: LnurlStatus::Okay,
        reason: None,
        pr: bolt11,
        verify,
        success_action: None,
        routes: Some(Seq::empty()),
    }
}

/// How a callback goes on when it is told how the work it asked for has gone.
pub open spec fn step(flow: CallbackView, event: CallbackEventView, service: ServiceAddressView)
    -> (CallbackView, CallbackActionView) {
    match (flow.stage, event) {
        (CallbackStageView::Done, _) => (flow, CallbackActionView::Nothing),
        (CallbackStageView::AwaitingRecipient, CallbackEventView::RecipientFound(profile)) => proceed(
            flow,
            CallbackStageView::AwaitingFederation { profile },
            CallbackActionView::ResolveFederation { federation_id: profile.federation_id },
        ),
        (CallbackStageView::AwaitingRecipient, CallbackEventView::Failed) => rejected(
            flow,
            CallbackError::UnknownRecipient,
        ),
        (
            CallbackStageView::AwaitingFederation { profile },
            CallbackEventView::FederationFound,
        ) => proceed(
            flow,
            CallbackStageView::AwaitingInvoice { profile },
            CallbackActionView::CreateInvoice {
                amount_msats: flow.params.amount,
                description: invoice_description(),
            },
        ),
        (CallbackStageView::AwaitingFederation { .. }, CallbackEventView::Failed) => rejected(
            flow,
            CallbackError::UnknownFederation,
        ),
        (
            CallbackStageView::AwaitingInvoice { profile },
            CallbackEventView::InvoiceIssued { op_id, bolt11 },
        ) => proceed(
            flow,
            CallbackStageView::AwaitingInvoiceSaved { profile, op_id, bolt11 },
            CallbackActionView::SaveInvoice(
                NewInvoiceView {
                    op_id,
                    federation_id: profile.federation_id,
                    app_user_id: profile.app_user_id,
                    amount: flow.params.amount,
                    bolt11,
                },
            ),
        ),
        (CallbackStageView::AwaitingInvoice { .. }, CallbackEventView::Failed) => rejected(
            flow,
            CallbackError::InvoiceCreationFailed,
        ),
        (
            CallbackStageView::AwaitingInvoiceSaved { profile, op_id, bolt11 },
            CallbackEventView::InvoiceSaved { id },
        ) => match flow.params.nostr {
            Some(request) => proceed(
                flow,
                CallbackStageView::AwaitingRequestSaved { profile, invoice_id: id, op_id, bolt11 },
                CallbackActionView::SaveRequest(
                    PaymentRequestView { id, request, event_id: None },
                ),
            ),
            None => proceed(
                flow,
                CallbackStageView::AwaitingWatcher { op_id, bolt11 },
                CallbackActionView::StartWatcher { invoice_id: id, op_id, profile },
            ),
        },
        (CallbackStageView::AwaitingInvoiceSaved { .. }, CallbackEventView::Failed) => rejected(
            flow,
            CallbackError::StoreFailed,
        ),
        (
            CallbackStageView::AwaitingRequestSaved { profile, invoice_id, op_id, bolt11 },
            CallbackEventView::RequestSaved,
        ) => proceed(
            flow,
            CallbackStageView::AwaitingWatcher { op_id, bolt11 },
            CallbackActionView::StartWatcher { invoice_id, op_id, profile },
        ),
        (CallbackStageView::AwaitingRequestSaved { .. }, CallbackEventView::Failed) => rejected(
            flow,
            CallbackError::StoreFailed,
        ),
        (
            CallbackStageView::AwaitingWatcher { op_id, bolt11 },
            CallbackEventView::WatcherStarted,
        ) => match parsed_url(verify_url_text(service, flow.username, op_id)) {
            Some(verify) => proceed(
                flow,
                CallbackStageView::Done,
                CallbackActionView::Respond(response(bolt11, verify)),
            ),
            None => rejected(flow, CallbackError::InvalidVerifyUrl),
        },
        (CallbackStageView::AwaitingWatcher { .. }, CallbackEventView::Failed) => rejected(
            flow,
            CallbackError::SubscriptionFailed,
        ),
        _ => rejected(flow, CallbackError::UnexpectedEvent),
    }
}

/// Whether a payment request holds a signed zap request.
pub fn is_zap_request(payload: &str) -> (r: bool)
    ensures
        r == valid_payment_request(payload@),
{
    match payload_kind(payload) {
        Some(kind) => kind == ZAP_REQUEST_KIND,
        None => false,
    }
}

/// Checks the parameters of a callback: the amount first, then the payment
/// request if there is one.
pub fn validate(params: &LnurlCallbackParams) -> (r: Result<(), CallbackError>)
    ensures
        r == match validation_error(params@) {
            Some(error) => Err::<(), CallbackError>(error),
            None => Ok(()),
        },
{
    if params.amount < MIN_AMOUNT {
        return Err(CallbackError::InvalidAmount);
    }
    match &params.nostr {
        Some(payload) => {
            if !is_zap_request(payload.as_str()) {
                return Err(CallbackError::InvalidPaymentRequest);
            }
        },
        None => {},
    }
    Ok(())
}

/// Writes the URL under which a payment can be verified.
pub fn verify_url(service: &ServiceAddress, username: &str, op_id: &str) -> (r: String)
    ensures
        r@ == verify_url_text(service@, username@, op_id@),
{
    let mut url = String::from_str("http://");
    url.append(service.domain.as_str());
    url.append(":");
    url.append(decimal_string(service.port as u64).as_str());
    url.append("/lnurlp/");
    url.append(username);
    url.append("/verify/");
    url.append(op_id);
    url
}

/// Starts to handle a callback. The parameters are checked: an amount below
/// `MIN_AMOUNT` is rejected, then a payment request that is no signed zap
/// request. Where both pass, the recipient is to be looked up next.
pub fn handle_callback(username: String, params: LnurlCallbackParams) -> (r: (
    Callback,
    CallbackAction,
))
    ensures
        (r.0@, r.1@) == begin(username@, params@),
{
    match validate(&params) {
        Err(error) => (
            Callback { username, params, stage: CallbackStage::Done },
            CallbackAction::Reject(error),
        ),
        Ok(()) => {
            let action = CallbackAction::LookupRecipient { username: username.clone() };
            (Callback { username, params, stage: CallbackStage::AwaitingRecipient }, action)
        },
    }
}

impl Callback {
    /// Whether the callback has been answered or rejected.
    pub fn is_done(&self) -> (r: bool)
        ensures
            r == (self@.stage is Done),
    {
        match &self.stage {
            CallbackStage::Done => true,
            _ => false,
        }
    }

    /// Takes the outcome of the work that was asked for last and says what is
    /// due next. An outcome that does not answer what was asked for ends the
    /// callback with `UnexpectedEvent`; once the callback is over, every
    /// outcome is answered with `Nothing`.
    pub fn on_event(self, event: CallbackEvent, service: &ServiceAddress) -> (r: (
        Callback,
        CallbackAction,
    ))
        ensures
            (r.0@, r.1@) == step(self@, event@, service@),
    {
        let Callback { username, params, stage } = self;
        match (stage, event) {
            (CallbackStage::Done, _) => (
                Callback { username, params, stage: CallbackStage::Done },
                CallbackAction::Nothing,
            ),
            (CallbackStage::AwaitingRecipient, CallbackEvent::RecipientFound(profile)) => {
                let action = CallbackAction::ResolveFederation {
                    federation_id: profile.federation_id.clone(),
                };
                (
                    Callback {
                        username,
                        params,
                        stage: CallbackStage::AwaitingFederation { profile },
                    },
                    action,
                )
            },
            (CallbackStage::AwaitingRecipient, CallbackEvent::Failed) => reject(
                username,
                params,
                CallbackError::UnknownRecipient,
            ),
            (CallbackStage::AwaitingFederation { profile }, CallbackEvent::FederationFound) => {
                let action = CallbackAction::CreateInvoice {
                    amount_msats: params.amount,
                    description: String::from_str("test invoice"),
                };
                (
                    Callback { username, params, stage: CallbackStage::AwaitingInvoice { profile } },
                    action,
                )
            },
            (CallbackStage::AwaitingFederation { .. }, CallbackEvent::Failed) => reject(
                username,
                params,
                CallbackError::UnknownFederation,
            ),
            (
                CallbackStage::AwaitingInvoice { profile },
                CallbackEvent::InvoiceIssued { op_id, bolt11 },
            ) => {
                let action = CallbackAction::SaveInvoice(
                    NewInvoice {
                        op_id: op_id.clone(),
                        federation_id: profile.federation_id.clone(),
                        app_user_id: profile.app_user_id,
                        amount: params.amount,
                        bolt11: bolt11.clone(),
                    },
                );
                (
                    Callback {
                        username,
                        params,
                        stage: CallbackStage::AwaitingInvoiceSaved { profile, op_id, bolt11 },
                    },
                    action,
                )
            },
            (CallbackStage::AwaitingInvoice { .. }, CallbackEvent::Failed) => reject(
                username,
                params,
                CallbackError::InvoiceCreationFailed,
            ),
            (
                CallbackStage::AwaitingInvoiceSaved { profile, op_id, bolt11 },
                CallbackEvent::InvoiceSaved { id },
            ) => {
                let request = match &params.nostr {
                    Some(request) => Some(request.clone()),
                    None => None,
                };
                match request {
                    Some(request) => {
                        let action = CallbackAction::SaveRequest(
                            PaymentRequest { id, request, event_id: None },
                        );
                        (
                            Callback {
                                username,
                                params,
                                stage: CallbackStage::AwaitingRequestSaved {
                                    profile,
                                    invoice_id: id,
                                    op_id,
                                    bolt11,
                                },
                            },
                            action,
                        )
                    },
                    None => {
                        let action = CallbackAction::StartWatcher {
                            invoice_id: id,
                            op_id: op_id.clone(),
                            profile,
                        };
                        (
                            Callback {
                                username,
                                params,
                                stage: CallbackStage::AwaitingWatcher { op_id, bolt11 },
                            },
                            action,
                        )
                    },
                }
            },
            (CallbackStage::AwaitingInvoiceSaved { .. }, CallbackEvent::Failed) => reject(
                username,
                params,
                CallbackError::StoreFailed,
            ),
            (
                CallbackStage::AwaitingRequestSaved { profile, invoice_id, op_id, bolt11 },
                CallbackEvent::RequestSaved,
            ) => {
                let action = CallbackAction::StartWatcher {
                    invoice_id,
                    op_id: op_id.clone(),
                    profile,
                };
                (
                    Callback {
                        username,
                        params,
                        stage: CallbackStage::AwaitingWatcher { op_id, bolt11 },
                    },
                    action,
                )
            },
            (CallbackStage::AwaitingRequestSaved { .. }, CallbackEvent::Failed) => reject(
                username,
                params,
                CallbackError::StoreFailed,
            ),
            (CallbackStage::AwaitingWatcher { op_id, bolt11 }, CallbackEvent::WatcherStarted) => {
                let text = verify_url(service, username.as_str(), op_id.as_str());
                match parse_url(text.as_str()) {
                    Some(verify) => {
                        let routes: Vec<String> = Vec::new();
                        assert(routes.deep_view() =~= Seq::<Seq<char>>::empty());
                        let answer = LnurlCallbackResponse {
                            status: LnurlStatus::Okay,
                            reason: None,
                            pr: bolt11,
                            verify,
                            success_action: None,
                            routes: Some(routes),
                        };
                        (
                            Callback { username, params, stage: CallbackStage::Done },
                            CallbackAction::Respond(answer),
                        )
                    },
                    None => reject(username, params, CallbackError::InvalidVerifyUrl),
                }
            },
            (CallbackStage::AwaitingWatcher { .. }, CallbackEvent::Failed) => reject(
                username,
                params,
                CallbackError::SubscriptionFailed,
            ),
            _ => reject(username, params, CallbackError::UnexpectedEvent),
        }
    }
}

/// Ends a callback with an error.
fn reject(username: String, params: LnurlCallbackParams, error: CallbackError) -> (r: (
    Callback,
    CallbackAction,
))
    ensures
        r.0@ == (CallbackView { username: username@, params: params@, stage: CallbackStageView::Done }),
        r.1@ == CallbackActionView::Reject(error),
{
    (Callback { username, params, stage: CallbackStage::Done }, CallbackAction::Reject(error))
}

} // verus!
