//! The records that the pipeline reads and writes.

use vstd::prelude::*;

verus! {

/// The network whose currency an invoice is denominated in.
#[derive(Clone, Copy, Debug, PartialEq, Eq, Structural)]
pub enum Network {
    Bitcoin,
    BitcoinTestnet,
    Regtest,
    Simnet,
    Signet,
}

/// Where an invoice stands: issued and waiting, paid, or given up.
#[derive(Clone, Copy, Debug, PartialEq, Eq, Structural)]
pub enum InvoiceState {
    Created,
    Settled,
    Cancelled,
}

impl InvoiceState {
    /// A terminal state is one that an invoice never leaves.
    pub open spec fn terminal(self) -> bool {
        self != InvoiceState::Created
    }

    /// Whether the invoice has reached a state that it never leaves.
    pub fn is_terminal(&self) -> (r: bool)
        ensures
            r == self.terminal(),
    {
        match self {
            InvoiceState::Created => false,
            InvoiceState::Settled => true,
            InvoiceState::Cancelled => true,
        }
    }
}

/// The person who is paid: looked up once for each callback by user name.
#[derive(Debug, PartialEq, Eq)]
pub struct RecipientProfile {
    pub app_user_id: i32,
    pub name: String,
    pub pubkey: String,
    pub federation_id: String,
    pub dm_type: String,
}

/// What a `RecipientProfile` holds.
pub struct RecipientProfileView {
    pub app_user_id: i32,
    pub name: Seq<char>,
    pub pubkey: Seq<char>,
    pub federation_id: Seq<char>,
    pub dm_type: Seq<char>,
}

impl View for RecipientProfile {
    type V = RecipientProfileView;

    open spec fn view(&self) -> RecipientProfileView {
        RecipientProfileView {
            app_user_id: self.app_user_id,
            name: self.name@,
            pubkey: self.pubkey@,
            federation_id: self.federation_id@,
            dm_type: self.dm_type@,
        }
    }
}

impl Clone for RecipientProfile {
    fn clone(&self) -> (r: Self)
        ensures
            r@ == self@,
    {
        RecipientProfile {
            app_user_id: self.app_user_id,
            name: self.name.clone(),
            pubkey: self.pubkey.clone(),
            federation_id: self.federation_id.clone(),
            dm_type: self.dm_type.clone(),
        }
    }
}

/// An invoice that has been issued and is about to be stored.
#[derive(Debug, PartialEq, Eq)]
pub struct NewInvoice {
    pub op_id: String,
    pub federation_id: String,
    pub app_user_id: i32,
    pub amount: u64,
    pub bolt11: String,
}

/// What a `NewInvoice` holds.
pub struct NewInvoiceView {
    pub op_id: Seq<char>,
    pub federation_id: Seq<char>,
    pub app_user_id: i32,
    pub amount: u64,
    pub bolt11: Seq<char>,
}

impl View for NewInvoice {
    type V = NewInvoiceView;

    open spec fn view(&self) -> NewInvoiceView {
        NewInvoiceView {
            op_id: self.op_id@,
            federation_id: self.federation_id@,
            app_user_id: self.app_user_id,
            amount: self.amount,
            bolt11: self.bolt11@,
        }
    }
}

impl Clone for NewInvoice {
    fn clone(&self) -> (r: Self)
        ensures
            r@ == self@,
    {
        NewInvoice {
            op_id: self.op_id.clone(),
            federation_id: self.federation_id.clone(),
            app_user_id: self.app_user_id,
            amount: self.amount,
            bolt11: self.bolt11.clone(),
        }
    }
}

/// A stored invoice.
#[derive(Debug, PartialEq, Eq)]
pub struct Invoice {
    pub id: i32,
    pub op_id: String,
    pub federation_id: String,
    pub app_user_id: i32,
    pub amount: u64,
    pub bolt11: String,
    pub state: InvoiceState,
}

/// What an `Invoice` holds.
pub struct InvoiceView {
    pub id: i32,
    pub op_id: Seq<char>,
    pub federation_id: Seq<char>,
    pub app_user_id: i32,
    pub amount: u64,
    pub bolt11: Seq<char>,
    pub state: InvoiceState,
}

impl View for Invoice {
    type V = InvoiceView;

    open spec fn view(&self) -> InvoiceView {
        InvoiceView {
            id: self.id,
            op_id: self.op_id@,
            federation_id: self.federation_id@,
            app_user_id: self.app_user_id,
            amount: self.amount,
            bolt11: self.bolt11@,
            state: self.state,
        }
    }
}

impl Invoice {
    /// The row that the store holds for a new invoice once it has given it an id:
    /// the same fields, in state `Created`.
    pub fn created(id: i32, new: NewInvoice) -> (r: Invoice)
        ensures
            r@ == (InvoiceView {
                id,
                op_id: new@.op_id,
                federation_id: new@.federation_id,
                app_user_id: new@.app_user_id,
                amount: new@.amount,
                bolt11: new@.bolt11,
                state: InvoiceState::Created,
            }),
    {
        Invoice {
            id,
            op_id: new.op_id,
            federation_id: new.federation_id,
            app_user_id: new.app_user_id,
            amount: new.amount,
            bolt11: new.bolt11,
            state: InvoiceState::Created,
        }
    }

    /// Whether a state may follow another: only a terminal state, and only after
    /// `Created`.
    pub open spec fn may_follow(from: InvoiceState, to: InvoiceState) -> bool {
        from == InvoiceState::Created && to.terminal()
    }

    /// Moves the invoice to a terminal state if it is still `Created`, and says
    /// whether it did. An invoice that has reached a terminal state stays as it
    /// is, and so does one that is asked to go back to `Created`.
    pub fn set_state(&mut self, state: InvoiceState) -> (changed: bool)
        ensures
            changed == Self::may_follow(old(self).state, state),
            final(self)@ == (InvoiceView {
                state: state_after_write(old(self).state, state),
                ..old(self)@
            }),
    {
        if !self.state.is_terminal() && state.is_terminal() {
            self.state = state;
            true
        } else {
            false
        }
    }
}

/// The state of an invoice after a write of `to` has been asked for: the write
/// takes effect only where `to` may follow the state that the invoice is in.
pub open spec fn state_after_write(from: InvoiceState, to: InvoiceState) -> InvoiceState {
    if Invoice::may_follow(from, to) {
        to
    } else {
        from
    }
}

/// The state of an invoice after a run of writes, one after another.
pub open spec fn state_after_writes(from: InvoiceState, writes: Seq<InvoiceState>) -> InvoiceState
    decreases writes.len(),
{
    if writes.len() == 0 {
        from
    } else {
        state_after_write(state_after_writes(from, writes.drop_last()), writes.last())
    }
}

/// An invoice reaches at most one terminal state: once it is settled or
/// cancelled it stays so whatever is written afterwards. It never becomes
/// `Created` again, and never changes from settled to cancelled or back.
pub proof fn lemma_terminal_state_is_final(
    from: InvoiceState,
    writes: Seq<InvoiceState>,
    i: int,
    j: int,
)
    requires
        0 <= i <= j <= writes.len(),
    ensures
        state_after_writes(from, writes.take(i)).terminal() ==> state_after_writes(
            from,
            writes.take(j),
        ) == state_after_writes(from, writes.take(i)),
    decreases j,
{
    if i < j {
        assert(writes.take(j).drop_last() =~= writes.take(j - 1));
        lemma_terminal_state_is_final(from, writes, i, j - 1);
    }
}

/// The payment request that came with a callback, linked to the invoice that
/// was issued for it.
#[derive(Debug, PartialEq, Eq)]
pub struct PaymentRequest {
    /// The id of the invoice that the request belongs to.
    pub id: i32,
    /// The signed request, as it arrived.
    pub request: String,
    /// The id of the receipt event, once one has been broadcast.
    pub event_id: Option<String>,
}

/// What a `PaymentRequest` holds.
pub struct PaymentRequestView {
    pub id: i32,
    pub request: Seq<char>,
    pub event_id: Option<Seq<char>>,
}

impl View for PaymentRequest {
    type V = PaymentRequestView;

    open spec fn view(&self) -> PaymentRequestView {
        PaymentRequestView {
            id: self.id,
            request: self.request@,
            event_id: self.event_id.deep_view(),
        }
    }
}

impl PaymentRequest {
    /// The record for a request that has just arrived: no receipt yet.
    pub fn new(id: i32, request: String) -> (r: PaymentRequest)
        ensures
            r@ == (PaymentRequestView { id, request: request@, event_id: None }),
    {
        PaymentRequest { id, request, event_id: None }
    }

    /// Records the id of the receipt event, unless one is recorded already, and
    /// says whether it did.
    pub fn set_event_id(&mut self, event_id: String) -> (changed: bool)
        ensures
            changed == old(self)@.event_id.is_none(),
            changed ==> final(self)@ == (PaymentRequestView {
                event_id: Some(event_id@),
                ..old(self)@
            }),
            !changed ==> final(self)@ == old(self)@,
    {
        if self.event_id.is_none() {
            self.event_id = Some(event_id);
            true
        } else {
            false
        }
    }
}

} // verus!
