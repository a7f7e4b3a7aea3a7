//! What holds of every watcher, whatever events it is told.

use vstd::prelude::*;
use crate::model::InvoiceState;
use crate::watcher::{first_terminal, lemma_first_terminal_bounds, watch, ReceiveStateView, Watcher, WatcherAction};

verus! {

/// The watcher after it has been told a run of events, one after another.
pub open spec fn watcher_after(watcher: Watcher, events: Seq<ReceiveStateView>) -> Watcher
    decreases events.len(),
{
    if events.len() == 0 {
        watcher
    } else {
        watch(watcher_after(watcher, events.drop_last()), events.last()).0
    }
}

/// What the watcher asks for when it is told the event at place `i` of a run.
pub open spec fn watcher_action_at(
    watcher: Watcher,
    events: Seq<ReceiveStateView>,
    i: int,
) -> WatcherAction
    recommends
        0 <= i < events.len(),
{
    watch(watcher_after(watcher, events.take(i)), events[i]).1
}

/// An event that is told to a watcher whose invoice has reached a terminal
/// state changes nothing and asks for nothing: no state is written and nobody
/// is notified a second time. So it is when the event that ended the wait is
/// told again.
pub proof fn lemma_replay_changes_nothing(watcher: Watcher, event: ReceiveStateView)
    ensures
        watcher.state.terminal() ==> watch(watcher, event) == (watcher, WatcherAction::Stopped),
        event.outcome().terminal() ==> watch(watch(watcher, event).0, event) == (
            watch(watcher, event).0,
            WatcherAction::Stopped,
        ),
{
}

/// The state that a watcher has reached is kept: once the invoice is settled
/// or cancelled, it is so after every further event. It never becomes
/// `Created` again, and never changes from one terminal state to the other.
pub proof fn lemma_terminal_state_is_kept(
    watcher: Watcher,
    events: Seq<ReceiveStateView>,
    i: int,
    j: int,
)
    requires
        0 <= i <= j <= events.len(),
    ensures
        watcher_after(watcher, events.take(j)).invoice_id == watcher.invoice_id,
        watcher_after(watcher, events.take(i)).state.terminal() ==> watcher_after(
            watcher,
            events.take(j),
        ) == watcher_after(watcher, events.take(i)),
    decreases j,
{
    if j == 0 {
        assert(events.take(0) =~= Seq::<ReceiveStateView>::empty());
    } else {
        assert(events.take(j).drop_last() =~= events.take(j - 1));
        if i < j {
            lemma_terminal_state_is_kept(watcher, events, i, j - 1);
        } else {
            lemma_terminal_state_is_kept(watcher, events, 0, j - 1);
        }
    }
}

/// A watcher asks at most once for a state to be written: after it has asked
/// for `Settled` or for `Cancelled`, it answers every event with `Stopped`. So
/// an invoice is never both settled and cancelled, and the recipient is
/// notified at most once.
pub proof fn lemma_one_state_write(
    watcher: Watcher,
    events: Seq<ReceiveStateView>,
    i: int,
    j: int,
)
    requires
        0 <= i < j < events.len(),
        watcher_action_at(watcher, events, i) is Settle || watcher_action_at(
            watcher,
            events,
            i,
        ) is Cancel,
    ensures
        watcher_action_at(watcher, events, j) == WatcherAction::Stopped,
{
    assert(events.take(i + 1).drop_last() =~= events.take(i));
    lemma_terminal_state_is_kept(watcher, events, i + 1, j);
}

/// A watcher that starts on a waiting invoice writes the state that the first
/// `Canceled` or `Claimed` of the run calls for, when it is told that event,
/// and waits before it.
pub proof fn lemma_first_terminal_event_decides(
    watcher: Watcher,
    events: Seq<ReceiveStateView>,
    i: int,
)
    requires
        !watcher.state.terminal(),
        0 <= i < events.len(),
    ensures
        i < first_terminal(events) ==> watcher_action_at(watcher, events, i)
            == WatcherAction::Continue,
        i == first_terminal(events) ==> watcher_after(watcher, events.take(i + 1)).state
            == events[i].outcome() && (watcher_action_at(watcher, events, i) is Settle
            <==> events[i].outcome() == InvoiceState::Settled) && (watcher_action_at(
            watcher,
            events,
            i,
        ) is Cancel <==> events[i].outcome() == InvoiceState::Cancelled),
        i > first_terminal(events) ==> watcher_action_at(watcher, events, i)
            == WatcherAction::Stopped,
{
    lemma_first_terminal_bounds(events);
    assert(events.take(i + 1).drop_last() =~= events.take(i));
    if i <= first_terminal(events) {
        lemma_waits_before_first_terminal(watcher, events, i);
    } else {
        let k = first_terminal(events);
        lemma_waits_before_first_terminal(watcher, events, k);
        assert(events.take(k + 1).drop_last() =~= events.take(k));
        lemma_terminal_state_is_kept(watcher, events, k + 1, i);
    }
}

/// Up to the first event that ends the wait, the watcher is as it started.
proof fn lemma_waits_before_first_terminal(
    watcher: Watcher,
    events: Seq<ReceiveStateView>,
    i: int,
)
    requires
        !watcher.state.terminal(),
        0 <= i <= first_terminal(events),
        i <= events.len(),
    ensures
        watcher_after(watcher, events.take(i)) == watcher,
    decreases i,
{
    lemma_first_terminal_bounds(events);
    if i == 0 {
        assert(events.take(0) =~= Seq::<ReceiveStateView>::empty());
    } else {
        assert(events.take(i).drop_last() =~= events.take(i - 1));
        lemma_waits_before_first_terminal(watcher, events, i - 1);
    }
}

} // verus!
