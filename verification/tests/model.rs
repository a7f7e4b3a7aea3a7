use lnurl_settle::model::{Invoice, InvoiceState, NewInvoice, PaymentRequest, RecipientProfile};

fn new_invoice() -> NewInvoice {
    NewInvoice {
        op_id: "op".to_string(),
        federation_id: "fed".to_string(),
        app_user_id: 7,
        amount: 2000,
        bolt11: "lnbc20n1pexample".to_string(),
    }
}

#[test]
fn only_created_is_not_terminal() {
    assert!(!InvoiceState::Created.is_terminal());
    assert!(InvoiceState::Settled.is_terminal());
    assert!(InvoiceState::Cancelled.is_terminal());
}

#[test]
fn stored_invoice_starts_as_created() {
    let invoice = Invoice::created(3, new_invoice());
    assert_eq!(
        invoice,
        Invoice {
            id: 3,
            op_id: "op".to_string(),
            federation_id: "fed".to_string(),
            app_user_id: 7,
            amount: 2000,
            bolt11: "lnbc20n1pexample".to_string(),
            state: InvoiceState::Created,
        }
    );
}

#[test]
fn invoice_reaches_one_terminal_state() {
    let mut invoice = Invoice::created(3, new_invoice());
    assert!(!invoice.set_state(InvoiceState::Created));
    assert_eq!(invoice.state, InvoiceState::Created);
    assert!(invoice.set_state(InvoiceState::Settled));
    assert_eq!(invoice.state, InvoiceState::Settled);
    assert!(!invoice.set_state(InvoiceState::Cancelled));
    assert_eq!(invoice.state, InvoiceState::Settled);
    assert!(!invoice.set_state(InvoiceState::Created));
    assert_eq!(invoice.state, InvoiceState::Settled);
    assert!(!invoice.set_state(InvoiceState::Settled));
    assert_eq!(invoice.amount, 2000);

    let mut other = Invoice::created(4, new_invoice());
    assert!(other.set_state(InvoiceState::Cancelled));
    assert!(!other.set_state(InvoiceState::Settled));
    assert_eq!(other.state, InvoiceState::Cancelled);
}

#[test]
fn receipt_id_is_recorded_once() {
    let mut request = PaymentRequest::new(3, "{}".to_string());
    assert_eq!(request, PaymentRequest { id: 3, request: "{}".to_string(), event_id: None });
    assert!(request.set_event_id("first".to_string()));
    assert_eq!(request.event_id, Some("first".to_string()));
    assert!(!request.set_event_id("second".to_string()));
    assert_eq!(request.event_id, Some("first".to_string()));
    assert_eq!(request.request, "{}");
}

#[test]
fn records_are_cloned_field_by_field() {
    let profile = RecipientProfile {
        app_user_id: 7,
        name: "alice".to_string(),
        pubkey: "pk".to_string(),
        federation_id: "fed".to_string(),
        dm_type: "xmpp".to_string(),
    };
    assert_eq!(profile.clone(), profile);
    assert_eq!(new_invoice().clone(), new_invoice());
}
