use lnurl_settle::callback::{
    handle_callback, is_zap_request, validate, verify_url, Callback, CallbackAction,
    CallbackError, CallbackEvent, CallbackStage, LnurlCallbackParams, LnurlCallbackResponse,
    ServiceAddress, MIN_AMOUNT, ZAP_REQUEST_KIND,
};
use lnurl_settle::lnurl::LnurlStatus;
use lnurl_settle::model::{Invoice, InvoiceState, NewInvoice, PaymentRequest, RecipientProfile};
use nostr::secp256k1::SecretKey;
use nostr::{EventBuilder, Keys, Kind};

const OP_ID: &str = "2a2a2a2a2a2a2a2a2a2a2a2a2a2a2a2a2a2a2a2a2a2a2a2a2a2a2a2a2a2a2a2a";

const FEDERATION: &str = "15db8cb4f1ec8e484d73b889372bec94812580f929e8148b7437d359af422cd3";

const BOLT11: &str = "lnbc20n1pexample";

fn params(amount: u64, nostr: Option<String>) -> LnurlCallbackParams {
    LnurlCallbackParams { amount, nonce: None, comment: None, proofofpayer: None, nostr }
}

fn service() -> ServiceAddress {
    ServiceAddress { domain: "pay.example.com".to_string(), port: 3000 }
}

fn alice() -> RecipientProfile {
    RecipientProfile {
        app_user_id: 7,
        name: "alice".to_string(),
        pubkey: "79be667ef9dcbbac55a06295ce870b07029bfcdb2dce28d959f2815b16f81798".to_string(),
        federation_id: FEDERATION.to_string(),
        dm_type: "nostr".to_string(),
    }
}

fn payer_keys() -> Keys {
    Keys::new(SecretKey::from_slice(&[1; 32]).unwrap())
}

fn zap_request() -> String {
    EventBuilder::new(Kind::ZapRequest, "", &[]).to_event(&payer_keys()).unwrap().as_json()
}

fn text_note() -> String {
    EventBuilder::new(Kind::TextNote, "hello", &[]).to_event(&payer_keys()).unwrap().as_json()
}

fn issued() -> CallbackEvent {
    CallbackEvent::InvoiceIssued { op_id: OP_ID.to_string(), bolt11: BOLT11.to_string() }
}

// Tells a callback these outcomes, one after another, and collects what it asks for.
fn tell(flow: Callback, events: Vec<CallbackEvent>) -> (Callback, Vec<CallbackAction>) {
    let mut flow = flow;
    let mut actions = Vec::new();
    for event in events {
        let (next, action) = flow.on_event(event, &service());
        flow = next;
        actions.push(action);
    }
    (flow, actions)
}

#[test]
fn amount_below_minimum_is_rejected() {
    for amount in [0, 1, 500, 999] {
        let (flow, action) = handle_callback("alice".to_string(), params(amount, None));
        assert_eq!(action, CallbackAction::Reject(CallbackError::InvalidAmount));
        assert_eq!(flow.stage, CallbackStage::Done);
        assert!(flow.is_done());
    }
}

#[test]
fn rejected_callback_asks_for_nothing_more() {
    let (flow, _) = handle_callback("alice".to_string(), params(999, None));
    let (flow, actions) = tell(
        flow,
        vec![
            CallbackEvent::RecipientFound(alice()),
            CallbackEvent::FederationFound,
            issued(),
            CallbackEvent::InvoiceSaved { id: 1 },
            CallbackEvent::WatcherStarted,
            CallbackEvent::Failed,
        ],
    );
    assert_eq!(actions.len(), 6);
    assert!(actions.iter().all(|action| *action == CallbackAction::Nothing));
    assert!(flow.is_done());
}

#[test]
fn smallest_amount_is_accepted() {
    assert_eq!(MIN_AMOUNT, 1000);
    let (flow, action) = handle_callback("alice".to_string(), params(1000, None));
    assert_eq!(action, CallbackAction::LookupRecipient { username: "alice".to_string() });
    assert_eq!(flow.stage, CallbackStage::AwaitingRecipient);
    assert!(!flow.is_done());
}

#[test]
fn amount_is_checked_before_the_payment_request() {
    let (_, action) = handle_callback("alice".to_string(), params(999, Some("{}".to_string())));
    assert_eq!(action, CallbackAction::Reject(CallbackError::InvalidAmount));
}

#[test]
fn malformed_payment_request_is_rejected() {
    for payload in ["", "{}", "not json", "{\"kind\":9734}"] {
        let (flow, action) =
            handle_callback("alice".to_string(), params(2000, Some(payload.to_string())));
        assert_eq!(action, CallbackAction::Reject(CallbackError::InvalidPaymentRequest));
        assert!(flow.is_done());
    }
}

#[test]
fn event_of_another_kind_is_no_payment_request() {
    let (_, action) = handle_callback("alice".to_string(), params(2000, Some(text_note())));
    assert_eq!(action, CallbackAction::Reject(CallbackError::InvalidPaymentRequest));
}

#[test]
fn zap_request_is_accepted() {
    let request = zap_request();
    let (flow, action) = handle_callback("alice".to_string(), params(2000, Some(request.clone())));
    assert_eq!(action, CallbackAction::LookupRecipient { username: "alice".to_string() });
    assert_eq!(flow.params.nostr, Some(request));
}

#[test]
fn zap_request_is_told_by_kind_and_signature() {
    assert_eq!(ZAP_REQUEST_KIND, 9734);
    assert!(is_zap_request(&zap_request()));
    assert!(!is_zap_request(&text_note()));
    assert!(!is_zap_request("9734"));
    // One character of the content changed: the id no longer matches.
    let request = zap_request();
    let tampered = request.replace("\"content\":\"\"", "\"content\":\"x\"");
    assert_ne!(tampered, request);
    assert!(is_zap_request(&request));
    assert!(!is_zap_request(&tampered));
}

#[test]
fn validate_names_the_first_failure() {
    assert_eq!(validate(&params(999, Some("{}".to_string()))), Err(CallbackError::InvalidAmount));
    assert_eq!(
        validate(&params(1000, Some("{}".to_string()))),
        Err(CallbackError::InvalidPaymentRequest)
    );
    assert_eq!(validate(&params(1000, None)), Ok(()));
    assert_eq!(validate(&params(u64::MAX, Some(zap_request()))), Ok(()));
}

#[test]
fn unknown_recipient_is_rejected() {
    let (flow, _) = handle_callback("nobody".to_string(), params(2000, None));
    let (flow, action) = flow.on_event(CallbackEvent::Failed, &service());
    assert_eq!(action, CallbackAction::Reject(CallbackError::UnknownRecipient));
    assert!(flow.is_done());
}

#[test]
fn unknown_federation_is_rejected() {
    let (flow, _) = handle_callback("alice".to_string(), params(2000, None));
    let (flow, action) = flow.on_event(CallbackEvent::RecipientFound(alice()), &service());
    assert_eq!(
        action,
        CallbackAction::ResolveFederation { federation_id: FEDERATION.to_string() }
    );
    let (flow, action) = flow.on_event(CallbackEvent::Failed, &service());
    assert_eq!(action, CallbackAction::Reject(CallbackError::UnknownFederation));
    assert!(flow.is_done());
}

#[test]
fn failed_invoice_stores_nothing() {
    let (flow, _) = handle_callback("alice".to_string(), params(2000, None));
    let (flow, actions) = tell(
        flow,
        vec![
            CallbackEvent::RecipientFound(alice()),
            CallbackEvent::FederationFound,
            CallbackEvent::Failed,
            CallbackEvent::InvoiceSaved { id: 1 },
        ],
    );
    assert_eq!(actions[2], CallbackAction::Reject(CallbackError::InvoiceCreationFailed));
    assert_eq!(actions[3], CallbackAction::Nothing);
    assert!(flow.is_done());
    assert!(!actions.iter().any(|action| matches!(action, CallbackAction::SaveInvoice(_))));
}

#[test]
fn store_failure_is_reported() {
    let (flow, _) = handle_callback("alice".to_string(), params(2000, Some(zap_request())));
    let (_, actions) = tell(
        flow,
        vec![
            CallbackEvent::RecipientFound(alice()),
            CallbackEvent::FederationFound,
            issued(),
            CallbackEvent::InvoiceSaved { id: 1 },
            CallbackEvent::Failed,
        ],
    );
    assert_eq!(actions[4], CallbackAction::Reject(CallbackError::StoreFailed));

    let (flow, _) = handle_callback("alice".to_string(), params(2000, None));
    let (_, actions) = tell(
        flow,
        vec![
            CallbackEvent::RecipientFound(alice()),
            CallbackEvent::FederationFound,
            issued(),
            CallbackEvent::Failed,
        ],
    );
    assert_eq!(actions[3], CallbackAction::Reject(CallbackError::StoreFailed));
}

#[test]
fn subscription_failure_is_reported() {
    let (flow, _) = handle_callback("alice".to_string(), params(2000, None));
    let (_, actions) = tell(
        flow,
        vec![
            CallbackEvent::RecipientFound(alice()),
            CallbackEvent::FederationFound,
            issued(),
            CallbackEvent::InvoiceSaved { id: 1 },
            CallbackEvent::Failed,
        ],
    );
    assert_eq!(actions[4], CallbackAction::Reject(CallbackError::SubscriptionFailed));
}

#[test]
fn outcome_out_of_turn_ends_the_callback() {
    let (flow, _) = handle_callback("alice".to_string(), params(2000, None));
    let (flow, action) = flow.on_event(CallbackEvent::InvoiceSaved { id: 1 }, &service());
    assert_eq!(action, CallbackAction::Reject(CallbackError::UnexpectedEvent));
    assert!(flow.is_done());
}

#[test]
fn scenario_callback_without_payment_request() {
    let (flow, first) = handle_callback("alice".to_string(), params(2000, None));
    assert_eq!(first, CallbackAction::LookupRecipient { username: "alice".to_string() });
    let (flow, actions) = tell(
        flow,
        vec![
            CallbackEvent::RecipientFound(alice()),
            CallbackEvent::FederationFound,
            issued(),
            CallbackEvent::InvoiceSaved { id: 41 },
            CallbackEvent::WatcherStarted,
        ],
    );
    assert!(flow.is_done());
    let row = NewInvoice {
        op_id: OP_ID.to_string(),
        federation_id: FEDERATION.to_string(),
        app_user_id: 7,
        amount: 2000,
        bolt11: BOLT11.to_string(),
    };
    assert_eq!(
        actions,
        vec![
            CallbackAction::ResolveFederation { federation_id: FEDERATION.to_string() },
            CallbackAction::CreateInvoice {
                amount_msats: 2000,
                description: "test invoice".to_string()
            },
            CallbackAction::SaveInvoice(row.clone()),
            CallbackAction::StartWatcher {
                invoice_id: 41,
                op_id: OP_ID.to_string(),
                profile: alice()
            },
            CallbackAction::Respond(LnurlCallbackResponse {
                status: LnurlStatus::Okay,
                reason: None,
                pr: BOLT11.to_string(),
                verify: format!("http://pay.example.com:3000/lnurlp/alice/verify/{}", OP_ID),
                success_action: None,
                routes: Some(vec![]),
            }),
        ]
    );
    let saved = actions
        .iter()
        .filter(|action| matches!(action, CallbackAction::SaveInvoice(_)))
        .count();
    assert_eq!(saved, 1);
    let invoice = Invoice::created(41, row);
    assert_eq!(invoice.state, InvoiceState::Created);
    assert_eq!(invoice.amount, 2000);
    assert_eq!(invoice.id, 41);
    match &actions[4] {
        CallbackAction::Respond(response) => {
            assert_eq!(response.status.as_str(), "OK");
            assert!(!response.pr.is_empty());
        }
        other => panic!("no response: {:?}", other),
    }
}

#[test]
fn callback_with_payment_request_stores_it_once() {
    let request = zap_request();
    let (flow, _) = handle_callback("alice".to_string(), params(2000, Some(request.clone())));
    let (flow, actions) = tell(
        flow,
        vec![
            CallbackEvent::RecipientFound(alice()),
            CallbackEvent::FederationFound,
            issued(),
            CallbackEvent::InvoiceSaved { id: 41 },
            CallbackEvent::RequestSaved,
            CallbackEvent::WatcherStarted,
            CallbackEvent::RequestSaved,
        ],
    );
    assert!(flow.is_done());
    assert_eq!(
        actions[3],
        CallbackAction::SaveRequest(PaymentRequest { id: 41, request, event_id: None })
    );
    assert_eq!(
        actions[4],
        CallbackAction::StartWatcher { invoice_id: 41, op_id: OP_ID.to_string(), profile: alice() }
    );
    assert!(matches!(actions[5], CallbackAction::Respond(_)));
    assert_eq!(actions[6], CallbackAction::Nothing);
    let saved = actions
        .iter()
        .filter(|action| matches!(action, CallbackAction::SaveRequest(_)))
        .count();
    assert_eq!(saved, 1);
}

#[test]
fn verify_url_follows_the_template() {
    assert_eq!(
        verify_url(&service(), "alice", OP_ID),
        format!("http://pay.example.com:3000/lnurlp/alice/verify/{}", OP_ID)
    );
    let local = ServiceAddress { domain: "localhost".to_string(), port: 0 };
    assert_eq!(verify_url(&local, "", ""), "http://localhost:0/lnurlp//verify/");
    let high = ServiceAddress { domain: "h".to_string(), port: 65535 };
    assert_eq!(verify_url(&high, "u", "o"), "http://h:65535/lnurlp/u/verify/o");
}

#[test]
fn verify_url_is_answered_as_the_parser_writes_it() {
    // The parser puts the host in lower case and leaves the default port out.
    let service = ServiceAddress { domain: "Pay.Example.COM".to_string(), port: 80 };
    let (flow, _) = handle_callback("alice".to_string(), params(2000, None));
    let mut flow = flow;
    let mut last = CallbackAction::Nothing;
    for event in [
        CallbackEvent::RecipientFound(alice()),
        CallbackEvent::FederationFound,
        issued(),
        CallbackEvent::InvoiceSaved { id: 41 },
        CallbackEvent::WatcherStarted,
    ] {
        let (next, action) = flow.on_event(event, &service);
        flow = next;
        last = action;
    }
    match last {
        CallbackAction::Respond(response) => assert_eq!(
            response.verify,
            format!("http://pay.example.com/lnurlp/alice/verify/{}", OP_ID)
        ),
        other => panic!("no response: {:?}", other),
    }
}

#[test]
fn verify_url_that_does_not_parse_is_an_error() {
    let service = ServiceAddress { domain: "exa mple".to_string(), port: 3000 };
    let (flow, _) = handle_callback("alice".to_string(), params(2000, None));
    let mut flow = flow;
    let mut last = CallbackAction::Nothing;
    for event in [
        CallbackEvent::RecipientFound(alice()),
        CallbackEvent::FederationFound,
        issued(),
        CallbackEvent::InvoiceSaved { id: 41 },
        CallbackEvent::WatcherStarted,
    ] {
        let (next, action) = flow.on_event(event, &service);
        flow = next;
        last = action;
    }
    assert_eq!(last, CallbackAction::Reject(CallbackError::InvalidVerifyUrl));
    assert!(flow.is_done());
}

#[test]
fn errors_have_status_and_reason() {
    assert_eq!(CallbackError::InvalidAmount.status(), 400);
    assert_eq!(CallbackError::InvalidPaymentRequest.status(), 400);
    assert_eq!(CallbackError::UnknownRecipient.status(), 400);
    assert_eq!(CallbackError::UnknownFederation.status(), 400);
    assert_eq!(CallbackError::InvoiceCreationFailed.status(), 500);
    assert_eq!(CallbackError::StoreFailed.status(), 500);
    assert_eq!(CallbackError::SubscriptionFailed.status(), 500);
    assert_eq!(CallbackError::InvalidVerifyUrl.status(), 500);
    assert_eq!(CallbackError::UnexpectedEvent.status(), 500);
    assert_eq!(CallbackError::InvalidAmount.reason(), "Amount < MIN_AMOUNT");
    assert_eq!(CallbackError::InvalidPaymentRequest.reason(), "Invalid nostr event");
    assert_eq!(
        CallbackError::UnknownFederation.reason(),
        "FederationId not found in multimint map"
    );
}
