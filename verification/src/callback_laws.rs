//! What holds of every callback, whatever outcomes it is told.

use vstd::prelude::*;
use crate::callback::{
    begin, step, valid_payment_request, validation_error, CallbackActionView, CallbackError,
    CallbackEventView, CallbackStageView, CallbackView, LnurlCallbackParamsView,
    ServiceAddressView, MIN_AMOUNT,
};

verus! {

/// The callback after it has been told a run of outcomes, one after another.
pub open spec fn state_after(
    flow: CallbackView,
    events: Seq<CallbackEventView>,
    service: ServiceAddressView,
) -> CallbackView
    decreases events.len(),
{
    if events.len() == 0 {
        flow
    } else {
        step(state_after(flow, events.drop_last(), service), events.last(), service).0
    }
}

/// What the callback asks for when it is told the outcome at place `i` of a run.
pub open spec fn action_at(
    flow: CallbackView,
    events: Seq<CallbackEventView>,
    service: ServiceAddressView,
    i: int,
) -> CallbackActionView
    recommends
        0 <= i < events.len(),
{
    step(state_after(flow, events.take(i), service), events[i], service).1
}

/// How far a stage is along the way of a callback.
pub open spec fn progress(stage: CallbackStageView) -> nat {
    match stage {
        CallbackStageView::AwaitingRecipient => 1,
        CallbackStageView::AwaitingFederation { .. } => 2,
        CallbackStageView::AwaitingInvoice { .. } => 3,
        CallbackStageView::AwaitingInvoiceSaved { .. } => 4,
        CallbackStageView::AwaitingRequestSaved { .. } => 5,
        CallbackStageView::AwaitingWatcher { .. } => 6,
        CallbackStageView::Done => 7,
    }
}

/// One step keeps the request, moves the callback forward unless it is over,
/// and asks the store for a record only at the stage that is meant for it.
proof fn lemma_step(flow: CallbackView, event: CallbackEventView, service: ServiceAddressView)
    ensures
        step(flow, event, service).0.username == flow.username,
        step(flow, event, service).0.params == flow.params,
        flow.stage is Done ==> step(flow, event, service) == (flow, CallbackActionView::Nothing),
        !(flow.stage is Done) ==> progress(step(flow, event, service).0.stage) > progress(
            flow.stage,
        ),
        step(flow, event, service).1 is SaveInvoice <==> progress(flow.stage) == 3 && progress(
            step(flow, event, service).0.stage,
        ) == 4,
        step(flow, event, service).1 is SaveInvoice ==> step(
            flow,
            event,
            service,
        ).1->SaveInvoice_0.amount == flow.params.amount,
        step(flow, event, service).1 is SaveRequest <==> progress(flow.stage) == 4 && progress(
            step(flow, event, service).0.stage,
        ) == 5,
        step(flow, event, service).1 is SaveRequest ==> flow.params.nostr == Some(
            step(flow, event, service).1->SaveRequest_0.request,
        ) && step(flow, event, service).1->SaveRequest_0.event_id is None,
        progress(flow.stage) == 4 && flow.params.nostr is None ==> progress(
            step(flow, event, service).0.stage,
        ) != 5,
        progress(flow.stage) == 4 && flow.params.nostr is Some ==> progress(
            step(flow, event, service).0.stage,
        ) != 6,
        progress(flow.stage) < 3 ==> progress(step(flow, event, service).0.stage) <= 3
            || step(flow, event, service).0.stage is Done,
        progress(flow.stage) == 3 ==> progress(step(flow, event, service).0.stage) == 4
            || step(flow, event, service).0.stage is Done,
        step(flow, event, service).1 is Respond ==> progress(flow.stage) == 6,
        step(flow, event, service).1 is CreateInvoice ==> progress(flow.stage) == 2,
        step(flow, event, service).1 is StartWatcher ==> 4 <= progress(flow.stage) <= 5,
        step(flow, event, service).1 matches CallbackActionView::Reject(error) ==> {
            &&& step(flow, event, service).0.stage is Done
            &&& error != CallbackError::InvalidAmount
            &&& error != CallbackError::InvalidPaymentRequest
            &&& error == CallbackError::UnknownRecipient ==> progress(flow.stage) == 1
            &&& error == CallbackError::UnknownFederation ==> progress(flow.stage) == 2
            &&& error == CallbackError::InvoiceCreationFailed ==> progress(flow.stage) == 3
        },
{
}

/// The run up to a place, extended by the outcome at that place, is the run up
/// to the next place.
proof fn lemma_state_after_next(
    flow: CallbackView,
    events: Seq<CallbackEventView>,
    service: ServiceAddressView,
    i: int,
)
    requires
        0 <= i < events.len(),
    ensures
        state_after(flow, events.take(i + 1), service) == step(
            state_after(flow, events.take(i), service),
            events[i],
            service,
        ).0,
{
    assert(events.take(i + 1).drop_last() =~= events.take(i));
    assert(events.take(i + 1).last() == events[i]);
}

/// The request stays what it was, and the callback never moves backward.
proof fn lemma_progress(
    flow: CallbackView,
    events: Seq<CallbackEventView>,
    service: ServiceAddressView,
    i: int,
    j: int,
)
    requires
        0 <= i <= j <= events.len(),
    ensures
        state_after(flow, events.take(j), service).username == flow.username,
        state_after(flow, events.take(j), service).params == flow.params,
        progress(state_after(flow, events.take(i), service).stage) <= progress(
            state_after(flow, events.take(j), service).stage,
        ),
        i < j && !(state_after(flow, events.take(i), service).stage is Done) ==> progress(
            state_after(flow, events.take(i), service).stage,
        ) < progress(state_after(flow, events.take(j), service).stage),
    decreases j,
{
    if j == 0 {
        assert(events.take(0) =~= Seq::<CallbackEventView>::empty());
    } else {
        lemma_state_after_next(flow, events, service, j - 1);
        lemma_step(state_after(flow, events.take(j - 1), service), events[j - 1], service);
        if i < j {
            lemma_progress(flow, events, service, i, j - 1);
        } else {
            lemma_progress(flow, events, service, 0, j - 1);
        }
    }
}

/// A callback that has come past the storing of the invoice has asked for it.
proof fn lemma_invoice_was_saved(
    flow: CallbackView,
    events: Seq<CallbackEventView>,
    service: ServiceAddressView,
    j: int,
) -> (i: int)
    requires
        0 <= j <= events.len(),
        progress(flow.stage) <= 3,
        4 <= progress(state_after(flow, events.take(j), service).stage) <= 6,
    ensures
        0 <= i < j,
        action_at(flow, events, service, i) is SaveInvoice,
    decreases j,
{
    if j == 0 {
        assert(events.take(0) =~= Seq::<CallbackEventView>::empty());
        0
    } else {
        let before = state_after(flow, events.take(j - 1), service);
        lemma_state_after_next(flow, events, service, j - 1);
        lemma_step(before, events[j - 1], service);
        if progress(before.stage) <= 3 {
            j - 1
        } else {
            lemma_invoice_was_saved(flow, events, service, j - 1)
        }
    }
}

/// A callback with a payment request that waits for its watcher has asked for
/// the request to be stored.
proof fn lemma_request_was_saved(
    flow: CallbackView,
    events: Seq<CallbackEventView>,
    service: ServiceAddressView,
    j: int,
) -> (i: int)
    requires
        0 <= j <= events.len(),
        progress(flow.stage) <= 4,
        flow.params.nostr is Some,
        5 <= progress(state_after(flow, events.take(j), service).stage) <= 6,
    ensures
        0 <= i < j,
        action_at(flow, events, service, i) is SaveRequest,
    decreases j,
{
    if j == 0 {
        assert(events.take(0) =~= Seq::<CallbackEventView>::empty());
        0
    } else {
        let before = state_after(flow, events.take(j - 1), service);
        lemma_state_after_next(flow, events, service, j - 1);
        lemma_step(before, events[j - 1], service);
        lemma_progress(flow, events, service, 0, j - 1);
        if progress(before.stage) <= 4 {
            j - 1
        } else {
            lemma_request_was_saved(flow, events, service, j - 1)
        }
    }
}

/// A callback whose parameters are not valid is rejected at once, for the
/// first thing that is wrong with them, and asks for nothing afterwards,
/// whatever it is told: no recipient is looked up, no invoice is issued and
/// nothing is stored.
pub proof fn lemma_invalid_parameters_change_nothing(
    username: Seq<char>,
    params: LnurlCallbackParamsView,
    events: Seq<CallbackEventView>,
    service: ServiceAddressView,
    i: int,
)
    requires
        validation_error(params) is Some,
        0 <= i < events.len(),
    ensures
        begin(username, params).1 == CallbackActionView::Reject(validation_error(params)->0),
        begin(username, params).0.stage is Done,
        action_at(begin(username, params).0, events, service, i) == CallbackActionView::Nothing,
{
    let flow = begin(username, params).0;
    lemma_progress(flow, events, service, 0, i);
    assert(events.take(0) =~= Seq::<CallbackEventView>::empty());
    lemma_step(state_after(flow, events.take(i), service), events[i], service);
}

/// A callback for less than the smallest amount is rejected for its amount at
/// once, and asks for nothing afterwards, whatever it is told: no invoice is
/// issued and none is stored.
pub proof fn lemma_small_amount_is_rejected(
    username: Seq<char>,
    params: LnurlCallbackParamsView,
    events: Seq<CallbackEventView>,
    service: ServiceAddressView,
    i: int,
)
    requires
        params.amount < MIN_AMOUNT,
        0 <= i < events.len(),
    ensures
        begin(username, params).1 == CallbackActionView::Reject(CallbackError::InvalidAmount),
        begin(username, params).0.stage is Done,
        action_at(begin(username, params).0, events, service, i) == CallbackActionView::Nothing,
{
    lemma_invalid_parameters_change_nothing(username, params, events, service, i);
}

/// A callback that is rejected because the recipient or the federation is
/// not known, or because the mint issued no invoice, has stored nothing and
/// started no watcher before, and asks for nothing afterwards.
pub proof fn lemma_early_rejection_changes_nothing(
    username: Seq<char>,
    params: LnurlCallbackParamsView,
    events: Seq<CallbackEventView>,
    service: ServiceAddressView,
    j: int,
    i: int,
)
    requires
        0 <= j < events.len(),
        0 <= i < events.len(),
        action_at(begin(username, params).0, events, service, j) matches CallbackActionView::Reject(
            error,
        ) && (error.is_validation() || error == CallbackError::InvoiceCreationFailed),
    ensures
        !(action_at(begin(username, params).0, events, service, i) is SaveInvoice),
        !(action_at(begin(username, params).0, events, service, i) is SaveRequest),
        !(action_at(begin(username, params).0, events, service, i) is StartWatcher),
        !(action_at(begin(username, params).0, events, service, i) is Respond),
        i > j ==> action_at(begin(username, params).0, events, service, i)
            == CallbackActionView::Nothing,
{
    let flow = begin(username, params).0;
    lemma_step(state_after(flow, events.take(j), service), events[j], service);
    lemma_step(state_after(flow, events.take(i), service), events[i], service);
    lemma_state_after_next(flow, events, service, j);
    if i < j {
        lemma_progress(flow, events, service, i, j);
    } else if i > j {
        lemma_progress(flow, events, service, j + 1, i);
    }
}

/// A callback asks the store for at most one invoice, and for the amount that
/// the caller asked for. A callback that is answered with an invoice has asked
/// the store for exactly one.
pub proof fn lemma_one_invoice_per_callback(
    username: Seq<char>,
    params: LnurlCallbackParamsView,
    events: Seq<CallbackEventView>,
    service: ServiceAddressView,
)
    ensures
        !(begin(username, params).1 is SaveInvoice),
        forall|i: int, j: int|
            0 <= i < j < events.len() ==> !(#[trigger] action_at(
                begin(username, params).0,
                events,
                service,
                i,
            ) is SaveInvoice && #[trigger] action_at(
                begin(username, params).0,
                events,
                service,
                j,
            ) is SaveInvoice),
        forall|i: int|
            0 <= i < events.len() && #[trigger] action_at(
                begin(username, params).0,
                events,
                service,
                i,
            ) is SaveInvoice ==> action_at(
                begin(username, params).0,
                events,
                service,
                i,
            )->SaveInvoice_0.amount == params.amount && params.amount >= MIN_AMOUNT,
        forall|j: int|
            0 <= j < events.len() && #[trigger] action_at(
                begin(username, params).0,
                events,
                service,
                j,
            ) is Respond ==> exists|i: int|
                0 <= i < j && #[trigger] action_at(
                    begin(username, params).0,
                    events,
                    service,
                    i,
                ) is SaveInvoice,
{
    let flow = begin(username, params).0;
    assert forall|i: int, j: int| 0 <= i < j < events.len() implies !(#[trigger] action_at(
        flow,
        events,
        service,
        i,
    ) is SaveInvoice && #[trigger] action_at(flow, events, service, j) is SaveInvoice) by {
        lemma_step(state_after(flow, events.take(i), service), events[i], service);
        lemma_step(state_after(flow, events.take(j), service), events[j], service);
        lemma_progress(flow, events, service, i, j);
    }
    assert forall|i: int|
        0 <= i < events.len() && #[trigger] action_at(
            flow,
            events,
            service,
            i,
        ) is SaveInvoice implies action_at(flow, events, service, i)->SaveInvoice_0.amount
        == params.amount && params.amount >= MIN_AMOUNT by {
        lemma_step(state_after(flow, events.take(i), service), events[i], service);
        lemma_progress(flow, events, service, 0, i);
        assert(events.take(0) =~= Seq::<CallbackEventView>::empty());
    }
    assert forall|j: int|
        0 <= j < events.len() && #[trigger] action_at(
            flow,
            events,
            service,
            j,
        ) is Respond implies exists|i: int|
        0 <= i < j && #[trigger] action_at(flow, events, service, i) is SaveInvoice by {
        lemma_step(state_after(flow, events.take(j), service), events[j], service);
        lemma_progress(flow, events, service, 0, j);
        assert(events.take(0) =~= Seq::<CallbackEventView>::empty());
        let i = lemma_invoice_was_saved(flow, events, service, j);
        assert(action_at(flow, events, service, i) is SaveInvoice);
    }
}

/// A callback asks the store for at most one payment request, and only for
/// the one that came with the callback, which is then a valid one, without a
/// receipt. A callback without a payment request asks for none. A callback
/// with a payment request that is answered with an invoice has asked the
/// store for exactly one.
pub proof fn lemma_one_request_per_callback(
    username: Seq<char>,
    params: LnurlCallbackParamsView,
    events: Seq<CallbackEventView>,
    service: ServiceAddressView,
)
    ensures
        !(begin(username, params).1 is SaveRequest),
        forall|i: int, j: int|
            0 <= i < j < events.len() ==> !(#[trigger] action_at(
                begin(username, params).0,
                events,
                service,
                i,
            ) is SaveRequest && #[trigger] action_at(
                begin(username, params).0,
                events,
                service,
                j,
            ) is SaveRequest),
        forall|i: int|
            0 <= i < events.len() && #[trigger] action_at(
                begin(username, params).0,
                events,
                service,
                i,
            ) is SaveRequest ==> {
                let request = action_at(
                    begin(username, params).0,
                    events,
                    service,
                    i,
                )->SaveRequest_0;
                &&& params.nostr == Some(request.request)
                &&& valid_payment_request(request.request)
                &&& request.event_id is None
            },
        forall|j: int|
            0 <= j < events.len() && params.nostr is Some && #[trigger] action_at(
                begin(username, params).0,
                events,
                service,
                j,
            ) is Respond ==> exists|i: int|
                0 <= i < j && #[trigger] action_at(
                    begin(username, params).0,
                    events,
                    service,
                    i,
                ) is SaveRequest,
{
    let flow = begin(username, params).0;
    assert forall|i: int, j: int| 0 <= i < j < events.len() implies !(#[trigger] action_at(
        flow,
        events,
        service,
        i,
    ) is SaveRequest && #[trigger] action_at(flow, events, service, j) is SaveRequest) by {
        lemma_step(state_after(flow, events.take(i), service), events[i], service);
        lemma_step(state_after(flow, events.take(j), service), events[j], service);
        lemma_progress(flow, events, service, i, j);
    }
    assert forall|i: int|
        0 <= i < events.len() && #[trigger] action_at(
            flow,
            events,
            service,
            i,
        ) is SaveRequest implies {
        let request = action_at(flow, events, service, i)->SaveRequest_0;
        &&& params.nostr == Some(request.request)
        &&& valid_payment_request(request.request)
        &&& request.event_id is None
    } by {
        lemma_step(state_after(flow, events.take(i), service), events[i], service);
        lemma_progress(flow, events, service, 0, i);
        assert(events.take(0) =~= Seq::<CallbackEventView>::empty());
    }
    assert forall|j: int|
        0 <= j < events.len() && params.nostr is Some && #[trigger] action_at(
            flow,
            events,
            service,
            j,
        ) is Respond implies exists|i: int|
        0 <= i < j && #[trigger] action_at(flow, events, service, i) is SaveRequest by {
        lemma_step(state_after(flow, events.take(j), service), events[j], service);
        lemma_progress(flow, events, service, 0, j);
        assert(events.take(0) =~= Seq::<CallbackEventView>::empty());
        let i = lemma_request_was_saved(flow, events, service, j);
        assert(action_at(flow, events, service, i) is SaveRequest);
    }
}

} // verus!
