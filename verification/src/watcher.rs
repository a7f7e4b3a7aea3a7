//! The watcher of one invoice: it follows the payment from the mint's
//! lifecycle events and drives the stored invoice to a terminal state, once.
//!
//! Waiting for the next event and writing to the store are not done here. A
//! `Watcher` is told each event and says what is due, as a `WatcherAction`.

use vstd::prelude::*;
use crate::model::InvoiceState;

verus! {

/// An event in the life of an incoming payment, as the mint reports it.
#[derive(Debug, PartialEq, Eq)]
pub enum ReceiveState {
    Created,
    WaitingForPayment,
    Canceled { reason: String },
    Funded,
    AwaitingFunds,
    Claimed,
}

/// What a `ReceiveState` holds.
pub enum ReceiveStateView {
    Created,
    WaitingForPayment,
    Canceled { reason: Seq<char> },
    Funded,
    AwaitingFunds,
    Claimed,
}

impl View for ReceiveState {
    type V = ReceiveStateView;

    open spec fn view(&self) -> ReceiveStateView {
        match self {
            ReceiveState::Created => ReceiveStateView::Created,
            ReceiveState::WaitingForPayment => ReceiveStateView::WaitingForPayment,
            ReceiveState::Canceled { reason } => ReceiveStateView::Canceled { reason: reason@ },
            ReceiveState::Funded => ReceiveStateView::Funded,
            ReceiveState::AwaitingFunds => ReceiveStateView::AwaitingFunds,
            ReceiveState::Claimed => ReceiveStateView::Claimed,
        }
    }
}

impl DeepView for ReceiveState {
    type V = ReceiveStateView;

    open spec fn deep_view(&self) -> ReceiveStateView {
        self@
    }
}

impl ReceiveStateView {
    /// The state that an event brings a waiting invoice to: `Canceled` and
    /// `Claimed` end the wait, every other event leaves it as it is.
    pub open spec fn outcome(self) -> InvoiceState {
        match self {
            ReceiveStateView::Canceled { .. } => InvoiceState::Cancelled,
            ReceiveStateView::Claimed => InvoiceState::Settled,
            _ => InvoiceState::Created,
        }
    }
}

/// What the watcher asks for when it has seen an event.
#[derive(Clone, Copy, Debug, PartialEq, Eq, Structural)]
pub enum WatcherAction {
    /// Nothing yet: wait for the next event.
    Continue,
    /// Write state `Cancelled` for the invoice and stop.
    Cancel { invoice_id: i32 },
    /// Write state `Settled` for the invoice, then notify the recipient, then
    /// stop.
    Settle { invoice_id: i32 },
    /// Nothing: the watcher had stopped before the event came.
    Stopped,
}

/// The watcher of one invoice.
#[derive(Clone, Copy, Debug, PartialEq, Eq, Structural)]
pub struct Watcher {
    /// The id of the invoice in the store.
    pub invoice_id: i32,
    /// The state that the watcher has brought the invoice to.
    pub state: InvoiceState,
}

/// The watcher after an event, and what it asks for.
pub open spec fn watch(watcher: Watcher, event: ReceiveStateView) -> (Watcher, WatcherAction) {
    if watcher.state.terminal() {
        (watcher, WatcherAction::Stopped)
    } else {
        match event.outcome() {
            InvoiceState::Cancelled => (
                Watcher { state: InvoiceState::Cancelled, ..watcher },
                WatcherAction::Cancel { invoice_id: watcher.invoice_id },
            ),
            InvoiceState::Settled => (
                Watcher { state: InvoiceState::Settled, ..watcher },
                WatcherAction::Settle { invoice_id: watcher.invoice_id },
            ),
            InvoiceState::Created => (watcher, WatcherAction::Continue),
        }
    }
}

/// The place of the first event of a run that ends the wait, or the length of
/// the run where none does.
pub open spec fn first_terminal(events: Seq<ReceiveStateView>) -> int
    decreases events.len(),
{
    if events.len() == 0 {
        0
    } else if events[0].outcome().terminal() {
        0
    } else {
        1 + first_terminal(events.drop_first())
    }
}

/// The watcher of an invoice that has just been stored: it waits.
pub fn spawn_invoice_subscription(id: i32) -> (r: Watcher)
    ensures
        r == (Watcher { invoice_id: id, state: InvoiceState::Created }),
{
    Watcher { invoice_id: id, state: InvoiceState::Created }
}

impl Watcher {
    /// Whether the watcher has stopped.
    pub fn is_done(&self) -> (r: bool)
        ensures
            r == self.state.terminal(),
    {
        self.state.is_terminal()
    }

    /// Takes one event. The first `Canceled` or `Claimed` ends the wait: the
    /// watcher asks for the state to be written, and stops. Every other event
    /// is passed over, and so is every event that comes after the watcher has
    /// stopped.
    pub fn on_event(&mut self, event: &ReceiveState) -> (action: WatcherAction)
        ensures
            (*final(self), action) == watch(*old(self), event@),
    {
        if self.state.is_terminal() {
            return WatcherAction::Stopped;
        }
        match event {
            ReceiveState::Canceled { .. } => {
                self.state = InvoiceState::Cancelled;
                WatcherAction::Cancel { invoice_id: self.invoice_id }
            },
            ReceiveState::Claimed => {
                self.state = InvoiceState::Settled;
                WatcherAction::Settle { invoice_id: self.invoice_id }
            },
            _ => WatcherAction::Continue,
        }
    }

    /// Follows a run of events up to the first that ends the wait, and no
    /// further. Says how many events it has taken and what is due: `Continue`
    /// where the run held no such event, so that the wait goes on. A watcher
    /// that has stopped takes none.
    pub fn run(&mut self, events: &Vec<ReceiveState>) -> (r: (usize, WatcherAction))
        ensures
            old(self).state.terminal() ==> r == (0usize, WatcherAction::Stopped) && *final(self)
                == *old(self),
            !old(self).state.terminal() && first_terminal(events.deep_view()) == events.len()
                ==> r == (events.len(), WatcherAction::Continue) && *final(self) == *old(self),
            !old(self).state.terminal() && first_terminal(events.deep_view()) < events.len()
                ==> r.0 == first_terminal(events.deep_view()) + 1 && (*final(self), r.1) == watch(
                *old(self),
                events.deep_view()[first_terminal(events.deep_view())],
            ),
    {
        if self.state.is_terminal() {
            return (0, WatcherAction::Stopped);
        }
        let mut i: usize = 0;
        proof {
            lemma_first_terminal_bounds(events.deep_view());
            assert(events.deep_view().skip(0) =~= events.deep_view());
        }
        while i < events.len()
            invariant
                0 <= i <= events.len(),
                *self == *old(self),
                !self.state.terminal(),
                first_terminal(events.deep_view()) == i + first_terminal(
                    events.deep_view().skip(i as int),
                ),
            decreases events.len() - i,
        {
            proof {
                let rest = events.deep_view().skip(i as int);
                assert(rest[0] == events[i as int]@);
                assert(rest.drop_first() =~= events.deep_view().skip(i + 1));
                lemma_first_terminal_bounds(rest.drop_first());
            }
            let action = self.on_event(&events[i]);
            i = i + 1;
            if self.state.is_terminal() {
                return (i, action);
            }
        }
        proof {
            assert(events.deep_view().skip(i as int) =~= Seq::<ReceiveStateView>::empty());
        }
        (i, WatcherAction::Continue)
    }
}

/// The first event that ends the wait lies within the run, or at its end
/// where there is none.
pub proof fn lemma_first_terminal_bounds(events: Seq<ReceiveStateView>)
    ensures
        0 <= first_terminal(events) <= events.len(),
        first_terminal(events) < events.len() ==> events[first_terminal(
            events,
        )].outcome().terminal(),
        forall|i: int|
            0 <= i < first_terminal(events) ==> !(#[trigger] events[i]).outcome().terminal(),
    decreases events.len(),
{
    if events.len() > 0 && !events[0].outcome().terminal() {
        let rest = events.drop_first();
        lemma_first_terminal_bounds(rest);
        assert forall|i: int| 0 <= i < first_terminal(events) implies !(#[trigger] events[i]).outcome().terminal() by {
            if i > 0 {
                assert(events[i] == rest[i - 1]);
            }
        }
    }
}

} // verus!
