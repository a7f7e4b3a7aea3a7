//! The notifier: once an invoice is settled, notes of the same value are
//! withdrawn from the mint and sent to the recipient, and a receipt is
//! published where a payment request came with the payment.
//!
//! Withdrawing, sending, broadcasting and writing to the store are not done
//! here. A `Notifier` says which of these is due next, as a `NotifierAction`,
//! and is told how it went, as a `NotifierEvent`.

use vstd::prelude::*;
use vstd::string::*;
use nostr::Keys;
use crate::model::{RecipientProfile, RecipientProfileView};
use crate::receipt::{bound_to, create_zap_event, ReceiptError, ReceiptPartsView, ZapReceipt};
use crate::trusted::{bare_jid, event_json, json_object, json_object_text, parse_bare_jid};

verus! {

/// How long withdrawn notes stay valid, in seconds: one week.
pub const NOTES_VALIDITY_SECS: u64 = 604800;

/// A channel over which notes are sent to the recipient.
#[derive(Clone, Copy, Debug, PartialEq, Eq, Structural)]
pub enum DeliveryChannel {
    /// A private message to the recipient's public key, over the relays.
    Nostr,
    /// A chat message to the recipient's address on the chat server.
    Xmpp,
}

/// The channel that a selector names.
pub open spec fn channel_of(dm_type: Seq<char>) -> Option<DeliveryChannel> {
    if dm_type == "nostr"@ {
        Some(DeliveryChannel::Nostr)
    } else if dm_type == "xmpp"@ {
        Some(DeliveryChannel::Xmpp)
    } else {
        None
    }
}

/// The channel that a selector names: `nostr` or `xmpp`, and no other.
pub fn delivery_channel(dm_type: &String) -> (r: Option<DeliveryChannel>)
    ensures
        r == channel_of(dm_type@),
{
    if *dm_type == String::from_str("nostr") {
        Some(DeliveryChannel::Nostr)
    } else if *dm_type == String::from_str("xmpp") {
        Some(DeliveryChannel::Xmpp)
    } else {
        None
    }
}

/// The message that carries the notes: an object with the operation id of
/// the withdrawal, the amount and the notes.
pub open spec fn delivery_text(operation_id: Seq<char>, amount: u64, notes: Seq<char>) -> Seq<
    char,
> {
    json_object("operationId"@, operation_id, "amount"@, amount, "notes"@, notes)
}

/// Writes the message that carries the notes.
pub fn delivery_message(operation_id: &str, amount: u64, notes: &str) -> (r: String)
    ensures
        r@ == delivery_text(operation_id@, amount, notes@),
{
    json_object_text("operationId", operation_id, "amount", amount, "notes", notes)
}

/// The address of a user on a chat server, before it is parsed.
pub open spec fn chat_address_text(name: Seq<char>, server: Seq<char>) -> Seq<char> {
    name + "@"@ + server
}

/// The address of a user on a chat server, or `None` where the two do not
/// make an address.
pub fn chat_address(name: &str, server: &str) -> (r: Option<String>)
    ensures
        r.deep_view() == bare_jid(chat_address_text(name@, server@)),
{
    let mut text = String::from_str(name);
    text.append("@");
    text.append(server);
    parse_bare_jid(text.as_str())
}

/// Why a recipient was not notified, or no receipt was published.
#[derive(Clone, Copy, Debug, PartialEq, Eq, Structural)]
pub enum NotifyError {
    /// The mint did not hand out notes. Nothing was sent.
    WithdrawalFailed,
    /// The recipient's channel selector names no channel.
    UnsupportedChannel,
    /// The recipient's name and the chat server make no address.
    InvalidAddress,
    /// The message could not be sent.
    DeliveryFailed,
    /// The stored payment request is no signed event.
    InvalidPaymentRequest,
    /// The receipt could not be built or signed.
    SigningFailed,
    /// The receipt could not be broadcast.
    BroadcastFailed,
    /// The store did not take the id of the receipt.
    StoreFailed,
    /// An event arrived that does not answer what was asked last.
    UnexpectedEvent,
}

/// How far a notification has come.
#[derive(Clone, Copy, Debug, PartialEq, Eq, Structural)]
pub enum NotifierStage {
    /// The mint is withdrawing the notes.
    AwaitingNotes,
    /// The message is being sent.
    AwaitingDelivery,
    /// The store is looking for a payment request.
    AwaitingRequest,
    /// The receipt is being broadcast.
    AwaitingBroadcast,
    /// The store is taking the id of the receipt.
    AwaitingReceiptSaved,
    /// The notification is over.
    Done,
}

/// The notification for one settled invoice.
#[derive(Debug, PartialEq, Eq)]
pub struct Notifier {
    /// The id of the invoice in the store.
    pub invoice_id: i32,
    /// The amount that was settled, in millisatoshi.
    pub amount: u64,
    pub profile: RecipientProfile,
    pub stage: NotifierStage,
}

/// What a `Notifier` holds.
pub struct NotifierView {
    pub invoice_id: i32,
    pub amount: u64,
    pub profile: RecipientProfileView,
    pub stage: NotifierStage,
}

impl View for Notifier {
    type V = NotifierView;

    open spec fn view(&self) -> NotifierView {
        NotifierView {
            invoice_id: self.invoice_id,
            amount: self.amount,
            profile: self.profile@,
            stage: self.stage,
        }
    }
}

/// How the work that a notifier asked for has gone.
#[derive(Debug, PartialEq, Eq)]
pub enum NotifierEvent {
    /// The mint handed out notes, under this operation id.
    NotesWithdrawn { operation_id: String, notes: String },
    /// The message was sent.
    Delivered,
    /// The store holds a payment request for the invoice.
    RequestFound { request: String },
    /// The store holds no payment request for the invoice.
    RequestMissing,
    /// The receipt was broadcast, and this is its id.
    ReceiptBroadcast { event_id: String },
    /// The store took the id of the receipt.
    ReceiptSaved,
    /// What was asked for last could not be done.
    Failed,
}

/// What a `NotifierEvent` holds.
pub enum NotifierEventView {
    NotesWithdrawn { operation_id: Seq<char>, notes: Seq<char> },
    Delivered,
    RequestFound { request: Seq<char> },
    RequestMissing,
    ReceiptBroadcast { event_id: Seq<char> },
    ReceiptSaved,
    Failed,
}

impl View for NotifierEvent {
    type V = NotifierEventView;

    open spec fn view(&self) -> NotifierEventView {
        match self {
            NotifierEvent::NotesWithdrawn {
                operation_id,
                notes,
            } => NotifierEventView::NotesWithdrawn { operation_id: operation_id@, notes: notes@ },
            NotifierEvent::Delivered => NotifierEventView::Delivered,
            NotifierEvent::RequestFound { request } => NotifierEventView::RequestFound {
                request: request@,
            },
            NotifierEvent::RequestMissing => NotifierEventView::RequestMissing,
            NotifierEvent::ReceiptBroadcast { event_id } => NotifierEventView::ReceiptBroadcast {
                event_id: event_id@,
            },
            NotifierEvent::ReceiptSaved => NotifierEventView::ReceiptSaved,
            NotifierEvent::Failed => NotifierEventView::Failed,
        }
    }
}

/// What a notifier asks for next.
#[derive(Debug, PartialEq, Eq)]
pub enum NotifierAction {
    /// Withdraw notes of this value from the invoice's federation, valid for
    /// this long, with no further data.
    Withdraw { amount_msats: u64, valid_for_secs: u64 },
    /// Send the message as a private message to this public key.
    SendNostrDm { pubkey: String, message: String },
    /// Send the message as a chat message to this address.
    SendXmppMessage { recipient: String, message: String },
    /// Look for the payment request of this invoice.
    LookupRequest { invoice_id: i32 },
    /// Broadcast the receipt event.
    Broadcast { receipt: ZapReceipt },
    /// Store the id of the receipt with the payment request of this invoice.
    SaveReceiptId { invoice_id: i32, event_id: String },
    /// Nothing more: the recipient has been notified.
    Finish,
    /// Report the error: the notification has ended with it.
    Fail(NotifyError),
    /// Nothing: the notification was over before the event came.
    Nothing,
}

/// What a `NotifierAction` holds.
pub enum NotifierActionView {
    Withdraw { amount_msats: u64, valid_for_secs: u64 },
    SendNostrDm { pubkey: Seq<char>, message: Seq<char> },
    SendXmppMessage { recipient: Seq<char>, message: Seq<char> },
    LookupRequest { invoice_id: i32 },
    Broadcast { receipt: ReceiptPartsView },
    SaveReceiptId { invoice_id: i32, event_id: Seq<char> },
    Finish,
    Fail(NotifyError),
    Nothing,
}

impl View for NotifierAction {
    type V = NotifierActionView;

    open spec fn view(&self) -> NotifierActionView {
        match self {
            NotifierAction::Withdraw {
                amount_msats,
                valid_for_secs,
            } => NotifierActionView::Withdraw {
                amount_msats: *amount_msats,
                valid_for_secs: *valid_for_secs,
            },
            NotifierAction::SendNostrDm { pubkey, message } => NotifierActionView::SendNostrDm {
                pubkey: pubkey@,
                message: message@,
            },
            NotifierAction::SendXmppMessage {
                recipient,
                message,
            } => NotifierActionView::SendXmppMessage { recipient: recipient@, message: message@ },
            NotifierAction::LookupRequest { invoice_id } => NotifierActionView::LookupRequest {
                invoice_id: *invoice_id,
            },
            NotifierAction::Broadcast { receipt } => NotifierActionView::Broadcast {
                receipt: receipt@,
            },
            NotifierAction::SaveReceiptId {
                invoice_id,
                event_id,
            } => NotifierActionView::SaveReceiptId { invoice_id: *invoice_id, event_id: event_id@ },
            NotifierAction::Finish => NotifierActionView::Finish,
            NotifierAction::Fail(error) => NotifierActionView::Fail(*error),
            NotifierAction::Nothing => NotifierActionView::Nothing,
        }
    }
}

/// The outcome of the signing of a receipt, by what the receipt was built
/// from.
pub open spec fn signing_view(signed: Option<Result<ZapReceipt, ReceiptError>>) -> Option<
    Result<ReceiptPartsView, ReceiptError>,
> {
    match signed {
        Some(Ok(receipt)) => Some(Ok(receipt@)),
        Some(Err(error)) => Some(Err(error)),
        None => None,
    }
}

/// A notification that has ended with an error.
pub open spec fn failed(notifier: NotifierView, error: NotifyError) -> (
    NotifierView,
    NotifierActionView,
) {
    (NotifierView { stage: NotifierStage::Done, ..notifier }, NotifierActionView::Fail(error))
}

/// A notification that has moved on and asks for something.
pub open spec fn onward(notifier: NotifierView, stage: NotifierStage, action: NotifierActionView)
    -> (NotifierView, NotifierActionView) {
    (NotifierView { stage, ..notifier }, action)
}

/// How a notification starts: with the withdrawal of notes worth exactly the
/// amount that was settled, valid for a week.
pub open spec fn start(invoice_id: i32, amount: u64, profile: RecipientProfileView) -> (
    NotifierView,
    NotifierActionView,
) {
    (
        NotifierView { invoice_id, amount, profile, stage: NotifierStage::AwaitingNotes },
        NotifierActionView::Withdraw { amount_msats: amount, valid_for_secs: NOTES_VALIDITY_SECS },
    )
}

/// What is sent once the notes are there: the message goes to the one channel
/// that the recipient's selector names.
pub open spec fn dispatch(
    notifier: NotifierView,
    operation_id: Seq<char>,
    notes: Seq<char>,
    xmpp_server: Seq<char>,
) -> (NotifierView, NotifierActionView) {
    let message = delivery_text(operation_id, notifier.amount, notes);
    match channel_of(notifier.profile.dm_type) {
        Some(DeliveryChannel::Nostr) => onward(
            notifier,
            NotifierStage::AwaitingDelivery,
            NotifierActionView::SendNostrDm { pubkey: notifier.profile.pubkey, message },
        ),
        Some(DeliveryChannel::Xmpp) => match bare_jid(
            chat_address_text(notifier.profile.name, xmpp_server),
        ) {
            Some(recipient) => onward(
                notifier,
                NotifierStage::AwaitingDelivery,
                NotifierActionView::SendXmppMessage { recipient, message },
            ),
            None => failed(notifier, NotifyError::InvalidAddress),
        },
        None => failed(notifier, NotifyError::UnsupportedChannel),
    }
}

/// How a notification goes on when it is told how the work it asked for has
/// gone. `signed` is the outcome of the signing of the receipt, which is
/// looked at only where a payment request has been found.
pub open spec fn advance(
    notifier: NotifierView,
    event: NotifierEventView,
    signed: Option<Result<ReceiptPartsView, ReceiptError>>,
    xmpp_server: Seq<char>,
) -> (NotifierView, NotifierActionView) {
    match (notifier.stage, event) {
        (NotifierStage::Done, _) => (notifier, NotifierActionView::Nothing),
        (
            NotifierStage::AwaitingNotes,
            NotifierEventView::NotesWithdrawn { operation_id, notes },
        ) => dispatch(notifier, operation_id, notes, xmpp_server),
        (NotifierStage::AwaitingNotes, NotifierEventView::Failed) => failed(
            notifier,
            NotifyError::WithdrawalFailed,
        ),
        (NotifierStage::AwaitingDelivery, NotifierEventView::Delivered) => onward(
            notifier,
            NotifierStage::AwaitingRequest,
            NotifierActionView::LookupRequest { invoice_id: notifier.invoice_id },
        ),
        (NotifierStage::AwaitingDelivery, NotifierEventView::Failed) => failed(
            notifier,
            NotifyError::DeliveryFailed,
        ),
        (NotifierStage::AwaitingRequest, NotifierEventView::RequestFound { .. }) => match signed {
            Some(Ok(receipt)) => onward(
                notifier,
                NotifierStage::AwaitingBroadcast,
                NotifierActionView::Broadcast { receipt },
            ),
            Some(Err(ReceiptError::InvalidRequest)) => failed(
                notifier,
                NotifyError::InvalidPaymentRequest,
            ),
            _ => failed(notifier, NotifyError::SigningFailed),
        },
        (NotifierStage::AwaitingRequest, NotifierEventView::RequestMissing) => onward(
            notifier,
            NotifierStage::Done,
            NotifierActionView::Finish,
        ),
        (NotifierStage::AwaitingRequest, NotifierEventView::Failed) => onward(
            notifier,
            NotifierStage::Done,
            NotifierActionView::Finish,
        ),
        (
            NotifierStage::AwaitingBroadcast,
            NotifierEventView::ReceiptBroadcast { event_id },
        ) => onward(
            notifier,
            NotifierStage::AwaitingReceiptSaved,
            NotifierActionView::SaveReceiptId { invoice_id: notifier.invoice_id, event_id },
        ),
        (NotifierStage::AwaitingBroadcast, NotifierEventView::Failed) => failed(
            notifier,
            NotifyError::BroadcastFailed,
        ),
        (NotifierStage::AwaitingReceiptSaved, NotifierEventView::ReceiptSaved) => onward(
            notifier,
            NotifierStage::Done,
            NotifierActionView::Finish,
        ),
        (NotifierStage::AwaitingReceiptSaved, NotifierEventView::Failed) => failed(
            notifier,
            NotifyError::StoreFailed,
        ),
        _ => failed(notifier, NotifyError::UnexpectedEvent),
    }
}

/// Whether a receipt is to be signed for an event: only where a payment
/// request has been found for a notification that looks for one.
pub open spec fn calls_for_receipt(notifier: NotifierView, event: NotifierEventView) -> bool {
    notifier.stage == NotifierStage::AwaitingRequest && event is RequestFound
}

/// Starts the notification for a settled invoice: notes worth exactly the
/// amount that was settled are to be withdrawn, valid for a week.
pub fn notify_user(id: i32, amount: u64, profile: RecipientProfile) -> (r: (
    Notifier,
    NotifierAction,
))
    ensures
        (r.0@, r.1@) == start(id, amount, profile@),
{
    (
        Notifier { invoice_id: id, amount, profile, stage: NotifierStage::AwaitingNotes },
        NotifierAction::Withdraw { amount_msats: amount, valid_for_secs: NOTES_VALIDITY_SECS },
    )
}

/// The private message that carries the notes to the recipient's public key.
pub fn send_nostr_dm(profile: &RecipientProfile, operation_id: &str, amount: u64, notes: &str) -> (r:
    NotifierAction)
    ensures
        r@ == (NotifierActionView::SendNostrDm {
            pubkey: profile@.pubkey,
            message: delivery_text(operation_id@, amount, notes@),
        }),
{
    NotifierAction::SendNostrDm {
        pubkey: profile.pubkey.clone(),
        message: delivery_message(operation_id, amount, notes),
    }
}

/// The chat message that carries the notes to the recipient's address on the
/// chat server, or `InvalidAddress` where the recipient's name and the server
/// make no address.
pub fn send_xmpp_msg(
    profile: &RecipientProfile,
    xmpp_server: &str,
    operation_id: &str,
    amount: u64,
    notes: &str,
) -> (r: Result<NotifierAction, NotifyError>)
    ensures
        match bare_jid(chat_address_text(profile@.name, xmpp_server@)) {
            Some(recipient) => r is Ok && r->Ok_0@ == (NotifierActionView::SendXmppMessage {
                recipient,
                message: delivery_text(operation_id@, amount, notes@),
            }),
            None => r == Err::<NotifierAction, NotifyError>(NotifyError::InvalidAddress),
        },
{
    match chat_address(profile.name.as_str(), xmpp_server) {
        Some(recipient) => Ok(
            NotifierAction::SendXmppMessage {
                recipient,
                message: delivery_message(operation_id, amount, notes),
            },
        ),
        None => Err(NotifyError::InvalidAddress),
    }
}

/// Ends a notification with an error.
fn fail(invoice_id: i32, amount: u64, profile: RecipientProfile, error: NotifyError) -> (r: (
    Notifier,
    NotifierAction,
))
    ensures
        r.0@ == (NotifierView {
            invoice_id,
            amount,
            profile: profile@,
            stage: NotifierStage::Done,
        }),
        r.1@ == NotifierActionView::Fail(error),
{
    (
        Notifier { invoice_id, amount, profile, stage: NotifierStage::Done },
        NotifierAction::Fail(error),
    )
}

impl Notifier {
    /// Whether the notification is over.
    pub fn is_done(&self) -> (r: bool)
        ensures
            r == (self.stage == NotifierStage::Done),
    {
        self.stage == NotifierStage::Done
    }

    /// Takes the outcome of the work that was asked for last, and the outcome
    /// of the signing of the receipt where there is one, and says what is due
    /// next. An outcome that does not answer what was asked for ends the
    /// notification with `UnexpectedEvent`; once the notification is over,
    /// every outcome is answered with `Nothing`.
    pub fn advance(
        self,
        event: NotifierEvent,
        signed: Option<Result<ZapReceipt, ReceiptError>>,
        xmpp_server: &str,
    ) -> (r: (Notifier, NotifierAction))
        ensures
            (r.0@, r.1@) == advance(self@, event@, signing_view(signed), xmpp_server@),
    {
        let Notifier { invoice_id, amount, profile, stage } = self;
        match (stage, event) {
            (NotifierStage::Done, _) => (
                Notifier { invoice_id, amount, profile, stage: NotifierStage::Done },
                NotifierAction::Nothing,
            ),
            (NotifierStage::AwaitingNotes, NotifierEvent::NotesWithdrawn { operation_id, notes }) => {
                match delivery_channel(&profile.dm_type) {
                    Some(DeliveryChannel::Nostr) => {
                        let action = send_nostr_dm(
                            &profile,
                            operation_id.as_str(),
                            amount,
                            notes.as_str(),
                        );
                        (
                            Notifier {
                                invoice_id,
                                amount,
                                profile,
                                stage: NotifierStage::AwaitingDelivery,
                            },
                            action,
                        )
                    },
                    Some(DeliveryChannel::Xmpp) => {
                        match send_xmpp_msg(
                            &profile,
                            xmpp_server,
                            operation_id.as_str(),
                            amount,
                            notes.as_str(),
                        ) {
                            Ok(action) => (
                                Notifier {
                                    invoice_id,
                                    amount,
                                    profile,
                                    stage: NotifierStage::AwaitingDelivery,
                                },
                                action,
                            ),
                            Err(error) => fail(invoice_id, amount, profile, error),
                        }
                    },
                    None => fail(invoice_id, amount, profile, NotifyError::UnsupportedChannel),
                }
            },
            (NotifierStage::AwaitingNotes, NotifierEvent::Failed) => fail(
                invoice_id,
                amount,
                profile,
                NotifyError::WithdrawalFailed,
            ),
            (NotifierStage::AwaitingDelivery, NotifierEvent::Delivered) => (
                Notifier { invoice_id, amount, profile, stage: NotifierStage::AwaitingRequest },
                NotifierAction::LookupRequest { invoice_id },
            ),
            (NotifierStage::AwaitingDelivery, NotifierEvent::Failed) => fail(
                invoice_id,
                amount,
                profile,
                NotifyError::DeliveryFailed,
            ),
            (NotifierStage::AwaitingRequest, NotifierEvent::RequestFound { .. }) => match signed {
                Some(Ok(receipt)) => (
                    Notifier {
                        invoice_id,
                        amount,
                        profile,
                        stage: NotifierStage::AwaitingBroadcast,
                    },
                    NotifierAction::Broadcast { receipt },
                ),
                Some(Err(ReceiptError::InvalidRequest)) => fail(
                    invoice_id,
                    amount,
                    profile,
                    NotifyError::InvalidPaymentRequest,
                ),
                _ => fail(invoice_id, amount, profile, NotifyError::SigningFailed),
            },
            (NotifierStage::AwaitingRequest, NotifierEvent::RequestMissing) => (
                Notifier { invoice_id, amount, profile, stage: NotifierStage::Done },
                NotifierAction::Finish,
            ),
            (NotifierStage::AwaitingRequest, NotifierEvent::Failed) => (
                Notifier { invoice_id, amount, profile, stage: NotifierStage::Done },
                NotifierAction::Finish,
            ),
            (NotifierStage::AwaitingBroadcast, NotifierEvent::ReceiptBroadcast { event_id }) => (
                Notifier {
                    invoice_id,
                    amount,
                    profile,
                    stage: NotifierStage::AwaitingReceiptSaved,
                },
                NotifierAction::SaveReceiptId { invoice_id, event_id },
            ),
            (NotifierStage::AwaitingBroadcast, NotifierEvent::Failed) => fail(
                invoice_id,
                amount,
                profile,
                NotifyError::BroadcastFailed,
            ),
            (NotifierStage::AwaitingReceiptSaved, NotifierEvent::ReceiptSaved) => (
                Notifier { invoice_id, amount, profile, stage: NotifierStage::Done },
                NotifierAction::Finish,
            ),
            (NotifierStage::AwaitingReceiptSaved, NotifierEvent::Failed) => fail(
                invoice_id,
                amount,
                profile,
                NotifyError::StoreFailed,
            ),
            _ => fail(invoice_id, amount, profile, NotifyError::UnexpectedEvent),
        }
    }

    /// Takes the outcome of the work that was asked for last and says what is
    /// due next. Where a payment request has been found, the receipt for it
    /// and for the settled amount is created and signed with `keys` first: a
    /// receipt that is then to be broadcast is bound to that request and that
    /// amount, and a request that is no signed event ends the notification
    /// with `InvalidPaymentRequest`. In every other case the step is that of
    /// `advance` without a receipt.
    pub fn on_event(self, event: NotifierEvent, xmpp_server: &str, keys: &Keys) -> (r: (
        Notifier,
        NotifierAction,
    ))
        ensures
            !calls_for_receipt(self@, event@) ==> (r.0@, r.1@) == advance(
                self@,
                event@,
                None,
                xmpp_server@,
            ),
            calls_for_receipt(self@, event@) ==> exists|
                signed: Result<ReceiptPartsView, ReceiptError>,
            |
                {
                    &&& (r.0@, r.1@) == #[trigger] advance(
                        self@,
                        event@,
                        Some(signed),
                        xmpp_server@,
                    )
                    &&& signed matches Ok(receipt) ==> bound_to(
                        receipt,
                        event@->request,
                        self@.amount,
                    )
                    &&& signed == Err::<ReceiptPartsView, ReceiptError>(
                        ReceiptError::InvalidRequest,
                    ) <==> event_json(event@->request) is None
                },
    {
        let signed = match (&self.stage, &event) {
            (NotifierStage::AwaitingRequest, NotifierEvent::RequestFound { request }) => Some(
                create_zap_event(request.as_str(), self.amount, keys),
            ),
            _ => None,
        };
        let ghost before = self@;
        let ghost told = event@;
        let ghost outcome = signing_view(signed);
        let r = self.advance(event, signed, xmpp_server);
        proof {
            if calls_for_receipt(before, told) {
                assert((r.0@, r.1@) == advance(before, told, Some(outcome->0), xmpp_server@));
            } else {
                assert(advance(before, told, outcome, xmpp_server@) == advance(
                    before,
                    told,
                    None,
                    xmpp_server@,
                ));
            }
        }
        r
    }
}

} // verus!
