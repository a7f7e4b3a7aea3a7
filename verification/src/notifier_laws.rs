//! What holds of every notification, whatever outcomes it is told.

use vstd::prelude::*;
use crate::model::RecipientProfileView;
use crate::notifier::{
    advance, start, NotifierActionView, NotifierEventView, NotifierStage, NotifierView,
    NotifyError,
};
use crate::receipt::{ReceiptError, ReceiptPartsView};

verus! {

/// The outcomes that a notification is told: at each place an event, and the
/// outcome of the signing of a receipt where there was one.
pub struct Outcomes {
    pub events: Seq<NotifierEventView>,
    pub signed: Seq<Option<Result<ReceiptPartsView, ReceiptError>>>,
    pub xmpp_server: Seq<char>,
}

impl Outcomes {
    /// There is one outcome of signing, or none, for each event.
    pub open spec fn wf(self) -> bool {
        self.events.len() == self.signed.len()
    }

    /// The number of events.
    pub open spec fn len(self) -> nat {
        self.events.len()
    }
}

/// The notification after it has been told the first `n` outcomes.
pub open spec fn notifier_after(notifier: NotifierView, told: Outcomes, n: int) -> NotifierView
    recommends
        told.wf(),
        0 <= n <= told.len(),
    decreases n,
{
    if n <= 0 {
        notifier
    } else {
        advance(
            notifier_after(notifier, told, n - 1),
            told.events[n - 1],
            told.signed[n - 1],
            told.xmpp_server,
        ).0
    }
}

/// What the notification asks for when it is told the outcome at place `i`.
pub open spec fn notifier_action_at(notifier: NotifierView, told: Outcomes, i: int)
    -> NotifierActionView
    recommends
        told.wf(),
        0 <= i < told.len(),
{
    advance(
        notifier_after(notifier, told, i),
        told.events[i],
        told.signed[i],
        told.xmpp_server,
    ).1
}

/// How far a stage is along the way of a notification.
pub open spec fn progress(stage: NotifierStage) -> nat {
    match stage {
        NotifierStage::AwaitingNotes => 1,
        NotifierStage::AwaitingDelivery => 2,
        NotifierStage::AwaitingRequest => 3,
        NotifierStage::AwaitingBroadcast => 4,
        NotifierStage::AwaitingReceiptSaved => 5,
        NotifierStage::Done => 6,
    }
}

/// One step keeps the invoice, the amount and the recipient, moves the
/// notification forward by one stage or ends it, and asks for each kind of
/// work only at the stage that is meant for it.
proof fn lemma_step(
    notifier: NotifierView,
    event: NotifierEventView,
    signed: Option<Result<ReceiptPartsView, ReceiptError>>,
    xmpp_server: Seq<char>,
)
    ensures
        ({
            let (next, action) = advance(notifier, event, signed, xmpp_server);
            &&& next.invoice_id == notifier.invoice_id
            &&& next.amount == notifier.amount
            &&& next.profile == notifier.profile
            &&& notifier.stage == NotifierStage::Done ==> next == notifier && action
                == NotifierActionView::Nothing
            &&& notifier.stage != NotifierStage::Done ==> progress(next.stage) == progress(
                notifier.stage,
            ) + 1 || next.stage == NotifierStage::Done
            &&& !(action is Withdraw)
            &&& action is SendNostrDm || action is SendXmppMessage <==> progress(notifier.stage)
                == 1 && progress(next.stage) == 2
            &&& action is Broadcast <==> progress(notifier.stage) == 3 && progress(next.stage)
                == 4
            &&& action is SaveReceiptId <==> progress(notifier.stage) == 4 && progress(
                next.stage,
            ) == 5
            &&& action matches NotifierActionView::SaveReceiptId { invoice_id, event_id } ==> event
                == (NotifierEventView::ReceiptBroadcast { event_id }) && invoice_id
                == notifier.invoice_id
            &&& action matches NotifierActionView::Broadcast { receipt } ==> signed == Some(
                Ok::<ReceiptPartsView, ReceiptError>(receipt),
            ) && event is RequestFound
        }),
{
}

/// The invoice, the amount and the recipient stay what they were, and the
/// notification never moves backward.
proof fn lemma_progress(notifier: NotifierView, told: Outcomes, i: int, j: int)
    requires
        told.wf(),
        0 <= i <= j <= told.len(),
    ensures
        notifier_after(notifier, told, j).invoice_id == notifier.invoice_id,
        notifier_after(notifier, told, j).amount == notifier.amount,
        notifier_after(notifier, told, j).profile == notifier.profile,
        progress(notifier_after(notifier, told, i).stage) <= progress(
            notifier_after(notifier, told, j).stage,
        ),
        i < j && notifier_after(notifier, told, i).stage != NotifierStage::Done ==> progress(
            notifier_after(notifier, told, i).stage,
        ) < progress(notifier_after(notifier, told, j).stage),
    decreases j,
{
    if j > 0 {
        lemma_step(
            notifier_after(notifier, told, j - 1),
            told.events[j - 1],
            told.signed[j - 1],
            told.xmpp_server,
        );
        if i < j {
            lemma_progress(notifier, told, i, j - 1);
        } else {
            lemma_progress(notifier, told, 0, j - 1);
        }
    }
}

/// A notification that waits for its receipt id to be stored, or for the
/// broadcast before it, has asked for the receipt to be broadcast.
proof fn lemma_was_broadcast(notifier: NotifierView, told: Outcomes, j: int) -> (i: int)
    requires
        told.wf(),
        0 <= j <= told.len(),
        progress(notifier.stage) <= 3,
        4 <= progress(notifier_after(notifier, told, j).stage) <= 5,
    ensures
        0 <= i < j,
        notifier_action_at(notifier, told, i) is Broadcast,
    decreases j,
{
    if j == 0 {
        0
    } else {
        let before = notifier_after(notifier, told, j - 1);
        lemma_step(before, told.events[j - 1], told.signed[j - 1], told.xmpp_server);
        if progress(before.stage) <= 3 {
            j - 1
        } else {
            lemma_was_broadcast(notifier, told, j - 1)
        }
    }
}

/// A notification starts with the withdrawal of notes worth exactly the
/// amount that was settled, valid for one week, and asks for no second
/// withdrawal, whatever it is told.
pub proof fn lemma_withdraws_settled_amount(
    id: i32,
    amount: u64,
    profile: RecipientProfileView,
    told: Outcomes,
    i: int,
)
    requires
        told.wf(),
        0 <= i < told.len(),
    ensures
        start(id, amount, profile).1 == (NotifierActionView::Withdraw {
            amount_msats: amount,
            valid_for_secs: 604800,
        }),
        !(notifier_action_at(start(id, amount, profile).0, told, i) is Withdraw),
{
    let notifier = start(id, amount, profile).0;
    lemma_step(
        notifier_after(notifier, told, i),
        told.events[i],
        told.signed[i],
        told.xmpp_server,
    );
}

/// Where the withdrawal fails, the notification ends with `WithdrawalFailed`
/// and asks for nothing afterwards: no message is sent for notes that are not
/// there.
pub proof fn lemma_no_notes_no_message(
    id: i32,
    amount: u64,
    profile: RecipientProfileView,
    told: Outcomes,
    i: int,
)
    requires
        told.wf(),
        0 <= i < told.len(),
        told.events[0] is Failed,
    ensures
        notifier_action_at(start(id, amount, profile).0, told, 0) == NotifierActionView::Fail(
            NotifyError::WithdrawalFailed,
        ),
        i > 0 ==> notifier_action_at(start(id, amount, profile).0, told, i)
            == NotifierActionView::Nothing,
{
    let notifier = start(id, amount, profile).0;
    assert(notifier_after(notifier, told, 1).stage == NotifierStage::Done) by {
        assert(notifier_after(notifier, told, 0) == notifier);
    }
    if i > 0 {
        lemma_progress(notifier, told, 1, i);
    }
    lemma_step(
        notifier_after(notifier, told, i),
        told.events[i],
        told.signed[i],
        told.xmpp_server,
    );
}

/// A notification sends at most one message to the recipient, and asks for at
/// most one receipt to be broadcast.
pub proof fn lemma_one_message_one_broadcast(
    notifier: NotifierView,
    told: Outcomes,
    i: int,
    j: int,
)
    requires
        told.wf(),
        0 <= i < j < told.len(),
    ensures
        notifier_action_at(notifier, told, i) is SendNostrDm || notifier_action_at(
            notifier,
            told,
            i,
        ) is SendXmppMessage ==> !(notifier_action_at(notifier, told, j) is SendNostrDm)
            && !(notifier_action_at(notifier, told, j) is SendXmppMessage),
        notifier_action_at(notifier, told, i) is Broadcast ==> !(notifier_action_at(
            notifier,
            told,
            j,
        ) is Broadcast),
{
    lemma_step(
        notifier_after(notifier, told, i),
        told.events[i],
        told.signed[i],
        told.xmpp_server,
    );
    lemma_step(
        notifier_after(notifier, told, j),
        told.events[j],
        told.signed[j],
        told.xmpp_server,
    );
    lemma_progress(notifier, told, i, j);
}

/// The id of a receipt is stored at most once for each notification, and only
/// when the notification is told that the receipt was broadcast: the id is
/// the one that the broadcast gave, it is stored with the payment request of
/// the notification's invoice, and the broadcast was asked for before.
pub proof fn lemma_receipt_id_saved_once(
    id: i32,
    amount: u64,
    profile: RecipientProfileView,
    told: Outcomes,
    i: int,
    j: int,
)
    requires
        told.wf(),
        0 <= i < told.len(),
        0 <= j < told.len(),
    ensures
        i != j ==> !(notifier_action_at(start(id, amount, profile).0, told, i) is SaveReceiptId
            && notifier_action_at(start(id, amount, profile).0, told, j) is SaveReceiptId),
        notifier_action_at(start(id, amount, profile).0, told, j) matches NotifierActionView::SaveReceiptId {
            invoice_id,
            event_id,
        } ==> {
            &&& invoice_id == id
            &&& told.events[j] == (NotifierEventView::ReceiptBroadcast { event_id })
            &&& exists|k: int|
                0 <= k < j && #[trigger] notifier_action_at(
                    start(id, amount, profile).0,
                    told,
                    k,
                ) is Broadcast
        },
{
    let notifier = start(id, amount, profile).0;
    lemma_step(
        notifier_after(notifier, told, i),
        told.events[i],
        told.signed[i],
        told.xmpp_server,
    );
    lemma_step(
        notifier_after(notifier, told, j),
        told.events[j],
        told.signed[j],
        told.xmpp_server,
    );
    if i < j {
        lemma_progress(notifier, told, i, j);
    } else {
        lemma_progress(notifier, told, j, i);
    }
    lemma_progress(notifier, told, 0, j);
    if notifier_action_at(notifier, told, j) is SaveReceiptId {
        let k = lemma_was_broadcast(notifier, told, j);
        assert(notifier_action_at(notifier, told, k) is Broadcast);
    }
}

} // verus!
