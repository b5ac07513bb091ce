//! What holds of the ledger whatever is done to it.
//!
//! The consistency of records and indexes is kept by every operation; a
//! refused operation changes nothing; and the status of an invoice after any
//! run of operations is what the transition table gives.

use vstd::prelude::*;
use crate::invoice::{draft, transition, InvoiceView, Operation};
use crate::lists::{lemma_filter_all, lemma_without_contains, lemma_without_distinct, without};
use crate::model::{fold_table, operations, table_run, table_step, Call, LedgerState, Request};
use crate::types::{BillrError, InvoiceStatus, KeyView};

verus! {

/// The empty ledger is consistent.
pub proof fn lemma_empty_consistent()
    ensures
        LedgerState::empty().consistent(),
{
}

/// Replacing a record by a valid one with the same identifier and the same
/// parties keeps the ledger consistent.
pub proof fn lemma_replace_consistent(s: LedgerState, invoice: InvoiceView)
    requires
        s.consistent(),
        s.invoices.contains_key(invoice.invoice_id),
        invoice.valid(),
        invoice.creator == s.invoices[invoice.invoice_id].creator,
        invoice.recipient == s.invoices[invoice.invoice_id].recipient,
    ensures
        s.stored(invoice).consistent(),
{
    let t = s.stored(invoice);
    assert forall|who: Seq<char>, j: int| 0 <= j < t.created[who].len() implies t.invoices.contains_key(
        #[trigger] t.created[who][j],
    ) && t.invoices[t.created[who][j]].creator == who by {
        assert(s.invoices.contains_key(s.created[who][j]));
    }
    assert forall|who: Seq<char>, j: int| 0 <= j < t.received[who].len() implies t.invoices.contains_key(
        #[trigger] t.received[who][j],
    ) && t.invoices[t.received[who][j]].recipient == who by {
        assert(s.invoices.contains_key(s.received[who][j]));
    }
    assert forall|id: Seq<char>| #[trigger] t.invoices.contains_key(id) implies t.created[t.invoices[id].creator].contains(
        id,
    ) && t.received[t.invoices[id].recipient].contains(id) by {
        assert(s.invoices.contains_key(id));
    }
}

/// An identifier without a record is listed nowhere.
pub proof fn lemma_fresh_unlisted(s: LedgerState, id: Seq<char>, who: Seq<char>)
    requires
        s.consistent(),
        !s.invoices.contains_key(id),
    ensures
        !s.created[who].contains(id),
        !s.received[who].contains(id),
{
    if s.created[who].contains(id) {
        let j = choose|j: int| 0 <= j < s.created[who].len() && s.created[who][j] == id;
        assert(s.invoices.contains_key(s.created[who][j]));
    }
    if s.received[who].contains(id) {
        let j = choose|j: int| 0 <= j < s.received[who].len() && s.received[who][j] == id;
        assert(s.invoices.contains_key(s.received[who][j]));
    }
}

/// Creation keeps the ledger consistent.
pub proof fn lemma_create_consistent(
    s: LedgerState,
    creator: Seq<char>,
    id: Seq<char>,
    recipient: Seq<char>,
    amount: u64,
    metadata: Seq<(Seq<char>, Seq<char>)>,
    now: u64,
)
    requires
        s.consistent(),
        s.create_refusal(true, id, amount) is None,
    ensures
        s.create_effect(creator, id, recipient, amount, metadata, now).consistent(),
{
    let t = s.create_effect(creator, id, recipient, amount, metadata, now);
    let d = draft(id, creator, recipient, amount, metadata, now);
    lemma_fresh_unlisted(s, id, creator);
    lemma_fresh_unlisted(s, id, recipient);
    assert(t.invoices == s.invoices.insert(id, d));
    assert(t.created == s.created.insert(creator, s.created[creator].push(id)));
    assert(t.received == s.received.insert(recipient, s.received[recipient].push(id)));
    assert(t.indexes_total());
    assert(t.records_valid());
    assert forall|who: Seq<char>, j: int| 0 <= j < t.created[who].len() implies t.invoices.contains_key(
        #[trigger] t.created[who][j],
    ) && t.invoices[t.created[who][j]].creator == who by {
        if who == creator && j == s.created[creator].len() {
        } else {
            assert(s.invoices.contains_key(s.created[who][j]));
        }
    }
    assert forall|who: Seq<char>, j: int| 0 <= j < t.received[who].len() implies t.invoices.contains_key(
        #[trigger] t.received[who][j],
    ) && t.invoices[t.received[who][j]].recipient == who by {
        if who == recipient && j == s.received[recipient].len() {
        } else {
            assert(s.invoices.contains_key(s.received[who][j]));
        }
    }
    assert forall|k: Seq<char>| #[trigger] t.invoices.contains_key(k) implies t.created[t.invoices[k].creator].contains(
        k,
    ) && t.received[t.invoices[k].recipient].contains(k) by {
        if k == id {
            assert(t.created[creator][s.created[creator].len() as int] == id);
            assert(t.received[recipient][s.received[recipient].len() as int] == id);
        } else {
            assert(s.invoices.contains_key(k));
            let c = s.invoices[k].creator;
            let r = s.invoices[k].recipient;
            let a = choose|a: int| 0 <= a < s.created[c].len() && s.created[c][a] == k;
            assert(t.created[c][a] == k);
            let b = choose|b: int| 0 <= b < s.received[r].len() && s.received[r][b] == k;
            assert(t.received[r][b] == k);
        }
    }
    assert forall|who: Seq<char>| #[trigger] t.created[who].no_duplicates() by {
        assert(s.created[who].no_duplicates());
    }
    assert forall|who: Seq<char>| #[trigger] t.received[who].no_duplicates() by {
        assert(s.received[who].no_duplicates());
    }
}

/// An edit keeps the ledger consistent.
pub proof fn lemma_edit_consistent(
    s: LedgerState,
    caller: Seq<char>,
    id: Seq<char>,
    recipient: Option<Seq<char>>,
    amount: Option<u64>,
    metadata: Option<Seq<(Seq<char>, Seq<char>)>>,
    now: u64,
)
    requires
        s.consistent(),
        s.edit_refusal(true, caller, id, amount) is None,
    ensures
        s.edit_effect(id, recipient, amount, metadata, now).consistent(),
{
    let old = s.invoices[id];
    let e = old.edited(recipient, amount, metadata, now);
    let t = s.edit_effect(id, recipient, amount, metadata, now);
    assert(s.invoices.contains_key(id));
    assert(e.valid());
    if !old.moves(recipient) {
        lemma_replace_consistent(s, e);
    } else {
        let b = old.recipient;
        let c = recipient->0;
        let l = s.received[b];
        let w = without(l, id);
        lemma_without_contains(l, id, id);
        lemma_without_distinct(l, id);
        assert(t.invoices == s.invoices.insert(id, e));
        assert(t.created == s.created);
        assert(t.received == s.received.insert(b, w).insert(c, s.received[c].push(id)));
        if s.received[c].contains(id) {
            let j = choose|j: int| 0 <= j < s.received[c].len() && s.received[c][j] == id;
            assert(s.invoices.contains_key(s.received[c][j]));
        }
        assert(t.indexes_total());
        assert(t.records_valid());
        assert forall|who: Seq<char>, j: int| 0 <= j < t.created[who].len() implies t.invoices.contains_key(
            #[trigger] t.created[who][j],
        ) && t.invoices[t.created[who][j]].creator == who by {
            assert(s.invoices.contains_key(s.created[who][j]));
        }
        assert forall|who: Seq<char>, j: int| 0 <= j < t.received[who].len() implies t.invoices.contains_key(
            #[trigger] t.received[who][j],
        ) && t.invoices[t.received[who][j]].recipient == who by {
            let x = t.received[who][j];
            if who == c {
                if j < s.received[c].len() {
                    assert(s.invoices.contains_key(s.received[c][j]));
                }
            } else if who == b {
                assert(w[j] == x);
                assert(w.contains(x));
                lemma_without_contains(l, id, x);
                assert(l.contains(x));
                let k = choose|k: int| 0 <= k < l.len() && l[k] == x;
                assert(s.invoices.contains_key(s.received[b][k]));
            } else {
                assert(s.invoices.contains_key(s.received[who][j]));
            }
        }
        assert forall|k: Seq<char>| #[trigger] t.invoices.contains_key(k) implies t.created[t.invoices[k].creator].contains(
            k,
        ) && t.received[t.invoices[k].recipient].contains(k) by {
            assert(s.invoices.contains_key(k));
            if k == id {
                assert(t.received[c][s.received[c].len() as int] == id);
            } else {
                let r = s.invoices[k].recipient;
                if r == c {
                    let a = choose|a: int| 0 <= a < s.received[c].len() && s.received[c][a] == k;
                    assert(t.received[c][a] == k);
                } else if r == b {
                    lemma_without_contains(l, id, k);
                }
            }
        }
        assert forall|who: Seq<char>| #[trigger] t.created[who].no_duplicates() by {
            assert(s.created[who].no_duplicates());
        }
        assert forall|who: Seq<char>| #[trigger] t.received[who].no_duplicates() by {
            assert(s.received[who].no_duplicates());
        }
    }
}

/// Whatever is asked of the ledger, every record stays under its own
/// identifier.
pub proof fn lemma_request_keyed(s: LedgerState, request: Request)
    requires
        s.keyed(),
    ensures
        s.handled(request).keyed(),
{
    if s.request_refusal(request) is None {
        match request {
            Request::OnInvoice { id, call } => {
                assert(s.invoices.contains_key(id));
                assert(s.invoices[id].invoice_id == id);
            },
            _ => {},
        }
    }
}

/// Whatever run of requests is made, every record stays under its own
/// identifier.
pub proof fn lemma_requests_keyed(s: LedgerState, requests: Seq<Request>)
    requires
        s.keyed(),
    ensures
        s.handled_all(requests).keyed(),
    decreases requests.len(),
{
    if requests.len() > 0 {
        lemma_requests_keyed(s, requests.drop_last());
        lemma_request_keyed(s.handled_all(requests.drop_last()), requests.last());
    }
}

/// Whatever run of calls is made on an invoice, every record stays under
/// its own identifier.
pub proof fn lemma_run_keyed(s: LedgerState, id: Seq<char>, calls: Seq<Call>)
    requires
        s.keyed(),
    ensures
        s.after_all(id, calls).keyed(),
    decreases calls.len(),
{
    if calls.len() > 0 {
        lemma_run_keyed(s, id, calls.drop_last());
        lemma_request_keyed(
            s.after_all(id, calls.drop_last()),
            Request::OnInvoice { id, call: calls.last() },
        );
    }
}

/// Nothing leads out of Paid or Cancelled.
pub proof fn lemma_terminal_is_final(op: Operation, from: InvoiceStatus)
    requires
        from.is_terminal(),
    ensures
        transition(op, from) is None,
{
}

/// A call that is refused changes nothing.
pub proof fn lemma_refused_changes_nothing(s: LedgerState, id: Seq<char>, call: Call)
    requires
        s.call_refusal(id, call) is Some,
    ensures
        s.after(id, call) == s,
{
}

/// A call whose operation may not start from the invoice's status is
/// refused, and changes nothing.
pub proof fn lemma_outside_table_refused(s: LedgerState, id: Seq<char>, call: Call)
    requires
        s.invoices.contains_key(id),
        transition(call.operation(), s.invoices[id].status) is None,
    ensures
        s.call_refusal(id, call) is Some,
        s.after(id, call) == s,
{
}

/// A call that is accepted takes the invoice to the status that the
/// transition table gives.
pub proof fn lemma_accepted_follows_table(s: LedgerState, id: Seq<char>, call: Call)
    requires
        s.keyed(),
        s.call_refusal(id, call) is None,
    ensures
        s.invoices.contains_key(id),
        s.after(id, call).invoices.contains_key(id),
        transition(call.operation(), s.invoices[id].status) == Some(
            s.after(id, call).invoices[id].status,
        ),
{
    assert(s.invoices.contains_key(id));
    assert(s.invoices[id].invoice_id == id);
}

/// Whatever call is made on an invoice, the ledger stays consistent: every
/// record keeps a positive amount, has its time of payment exactly when it
/// is paid, and both indexes agree with the records.
pub proof fn lemma_call_consistent(s: LedgerState, id: Seq<char>, call: Call)
    requires
        s.consistent(),
    ensures
        s.after(id, call).consistent(),
{
    if s.call_refusal(id, call) is None {
        assert(s.invoices.contains_key(id));
        assert(s.invoices[id].invoice_id == id);
        let old = s.invoices[id];
        match call {
            Call::Edit { caller, recipient, amount, metadata, consent, now } => {
                lemma_edit_consistent(s, caller, id, recipient, amount, metadata, now);
            },
            Call::Send { .. } => {
                lemma_replace_consistent(s, old.sent());
            },
            Call::Acknowledge { note, now, .. } => {
                lemma_replace_consistent(s, old.acknowledged(note, now));
            },
            Call::Pay { now, .. } => {
                lemma_replace_consistent(s, old.paid(now));
            },
            Call::Cancel { .. } => {
                lemma_replace_consistent(s, old.cancelled());
            },
            Call::UpdateMetadata { replacement, now, .. } => {
                lemma_replace_consistent(s, old.with_metadata(replacement, now));
            },
        }
    }
}

/// Whatever run of calls is made on an invoice, the ledger stays consistent.
pub proof fn lemma_run_consistent(s: LedgerState, id: Seq<char>, calls: Seq<Call>)
    requires
        s.consistent(),
    ensures
        s.after_all(id, calls).consistent(),
    decreases calls.len(),
{
    if calls.len() > 0 {
        lemma_run_consistent(s, id, calls.drop_last());
        lemma_call_consistent(s.after_all(id, calls.drop_last()), id, calls.last());
    }
}

/// After a run of calls none of which is refused, the status of the invoice
/// is the transition table folded over the run's operations.
pub proof fn lemma_status_is_fold(s: LedgerState, id: Seq<char>, calls: Seq<Call>)
    requires
        s.keyed(),
        s.invoices.contains_key(id),
        s.all_accepted(id, calls),
    ensures
        s.after_all(id, calls).invoices.contains_key(id),
        fold_table(s.invoices[id].status, operations(calls)) == Some(
            s.after_all(id, calls).invoices[id].status,
        ),
    decreases calls.len(),
{
    if calls.len() > 0 {
        let init = calls.drop_last();
        let mid = s.after_all(id, init);
        lemma_status_is_fold(s, id, init);
        lemma_run_keyed(s, id, init);
        lemma_accepted_follows_table(mid, id, calls.last());
        assert(operations(calls).drop_last() =~= operations(init));
        assert(operations(calls).last() == calls.last().operation());
    }
}

/// A run that contains a call whose operation the table does not allow at
/// that point is not accepted as a whole: that call is refused and leaves
/// the ledger as the calls before it left it.
pub proof fn lemma_run_stops_outside_table(s: LedgerState, id: Seq<char>, calls: Seq<Call>, k: int)
    requires
        s.keyed(),
        s.invoices.contains_key(id),
        0 <= k < calls.len(),
        s.all_accepted(id, calls.take(k)),
        fold_table(s.invoices[id].status, operations(calls.take(k + 1))) is None,
    ensures
        s.after_all(id, calls.take(k)).call_refusal(id, calls[k]) is Some,
        s.after_all(id, calls.take(k + 1)) == s.after_all(id, calls.take(k)),
{
    let init = calls.take(k);
    let next = calls.take(k + 1);
    let mid = s.after_all(id, init);
    lemma_status_is_fold(s, id, init);
    lemma_run_keyed(s, id, init);
    assert(next.drop_last() =~= init);
    assert(next.last() == calls[k]);
    assert(operations(next).drop_last() =~= operations(init));
    assert(operations(next).last() == calls[k].operation());
    lemma_outside_table_refused(mid, id, calls[k]);
}

/// The draft that a creation records is found under its identifier, with
/// status Draft.
pub proof fn lemma_created_is_draft(
    s: LedgerState,
    creator: Seq<char>,
    id: Seq<char>,
    recipient: Seq<char>,
    amount: u64,
    metadata: Seq<(Seq<char>, Seq<char>)>,
    now: u64,
)
    ensures
        s.create_effect(creator, id, recipient, amount, metadata, now).invoices.contains_key(id),
        s.create_effect(creator, id, recipient, amount, metadata, now).invoices[id].status
            == InvoiceStatus::Draft,
{
}

/// In a consistent ledger every listed identifier leads to its record: the
/// records behind a list are as many as the list is long, in its order.
pub proof fn lemma_listed_all_found(s: LedgerState, who: Seq<char>)
    requires
        s.consistent(),
    ensures
        s.records_of(s.created[who]).len() == s.created[who].len(),
        s.records_of(s.received[who]).len() == s.received[who].len(),
        forall|j: int|
            0 <= j < s.created[who].len() ==> #[trigger] s.records_of(s.created[who])[j]
                == s.invoices[s.created[who][j]],
        forall|j: int|
            0 <= j < s.received[who].len() ==> #[trigger] s.records_of(s.received[who])[j]
                == s.invoices[s.received[who][j]],
{
    let keep = |id: Seq<char>| s.invoices.contains_key(id);
    assert forall|j: int| 0 <= j < s.created[who].len() implies keep(
        #[trigger] s.created[who][j],
    ) by {
        assert(s.invoices.contains_key(s.created[who][j]));
    }
    lemma_filter_all(s.created[who], keep);
    assert forall|j: int| 0 <= j < s.received[who].len() implies keep(
        #[trigger] s.received[who][j],
    ) by {
        assert(s.invoices.contains_key(s.received[who][j]));
    }
    lemma_filter_all(s.received[who], keep);
}

/// A request that is refused changes nothing.
pub proof fn lemma_refused_request_changes_nothing(s: LedgerState, request: Request)
    requires
        s.request_refusal(request) is Some,
    ensures
        s.handled(request) == s,
{
}

/// Whatever is asked of a consistent ledger, it stays consistent.
pub proof fn lemma_request_consistent(s: LedgerState, request: Request)
    requires
        s.consistent(),
    ensures
        s.handled(request).consistent(),
{
    if s.request_refusal(request) is None {
        match request {
            Request::Create { creator, id, recipient, amount, metadata, now, .. } => {
                lemma_create_consistent(s, creator, id, recipient, amount, metadata, now);
            },
            Request::OnInvoice { id, call } => {
                lemma_call_consistent(s, id, call);
            },
            _ => {},
        }
    }
}

/// Every state that the ledger can reach is consistent: at every point in
/// time every record has a positive amount and has its time of payment
/// exactly when it is paid, every identifier listed for an identity leads to
/// a record that names the identity in that role, and every record is listed
/// once for its creator and once for its recipient.
pub proof fn lemma_history_consistent(requests: Seq<Request>)
    ensures
        LedgerState::empty().handled_all(requests).consistent(),
    decreases requests.len(),
{
    if requests.len() > 0 {
        lemma_history_consistent(requests.drop_last());
        lemma_request_consistent(
            LedgerState::empty().handled_all(requests.drop_last()),
            requests.last(),
        );
    }
}

/// From a consistent ledger, every run of requests leads to a consistent
/// one.
pub proof fn lemma_requests_consistent(s: LedgerState, requests: Seq<Request>)
    requires
        s.consistent(),
    ensures
        s.handled_all(requests).consistent(),
    decreases requests.len(),
{
    if requests.len() > 0 {
        lemma_requests_consistent(s, requests.drop_last());
        lemma_request_consistent(s.handled_all(requests.drop_last()), requests.last());
    }
}

/// A request that is not refused moves the status of every invoice as the
/// transition table says: the invoice it is about by the table, and no other
/// invoice at all.
pub proof fn lemma_request_follows_table(s: LedgerState, id: Seq<char>, request: Request)
    requires
        s.keyed(),
        s.request_refusal(request) is None,
    ensures
        s.handled(request).status_of(id) == table_step(s.status_of(id), id, request),
{
    match request {
        Request::OnInvoice { id: target, call } => {
            lemma_accepted_follows_table(s, target, call);
        },
        _ => {},
    }
}

/// After any run of requests none of which is refused, the status of every
/// invoice is the transition table folded over the run.
pub proof fn lemma_status_is_table_run(s: LedgerState, id: Seq<char>, requests: Seq<Request>)
    requires
        s.keyed(),
        s.none_refused(requests),
    ensures
        s.handled_all(requests).status_of(id) == table_run(s.status_of(id), id, requests),
    decreases requests.len(),
{
    if requests.len() > 0 {
        let init = requests.drop_last();
        lemma_status_is_table_run(s, id, init);
        lemma_requests_keyed(s, init);
        lemma_request_follows_table(s.handled_all(init), id, requests.last());
    }
}

/// A call on an invoice changes only what its operation is for: the
/// identifier, the creator and the time of creation never change; recipient
/// and amount change only by an edit, the note only by an acknowledgment,
/// and the time of payment only by a payment.
pub proof fn lemma_call_keeps_the_rest(s: LedgerState, id: Seq<char>, call: Call)
    requires
        s.keyed(),
        s.invoices.contains_key(id),
    ensures
        s.after(id, call).invoices.contains_key(id),
        s.after(id, call).invoices[id].invoice_id == s.invoices[id].invoice_id,
        s.after(id, call).invoices[id].creator == s.invoices[id].creator,
        s.after(id, call).invoices[id].created_at == s.invoices[id].created_at,
        call.operation() != Operation::Edit ==> s.after(id, call).invoices[id].recipient
            == s.invoices[id].recipient && s.after(id, call).invoices[id].amount
            == s.invoices[id].amount,
        call.operation() != Operation::Acknowledge ==> s.after(
            id,
            call,
        ).invoices[id].acknowledgment_note == s.invoices[id].acknowledgment_note,
        call.operation() != Operation::Pay ==> s.after(id, call).invoices[id].paid_at
            == s.invoices[id].paid_at,
        s.invoices[id].status != InvoiceStatus::Draft ==> s.after(id, call).invoices[id].recipient
            == s.invoices[id].recipient && s.after(id, call).invoices[id].amount
            == s.invoices[id].amount,
        s.invoices[id].status.is_terminal() ==> s.after(id, call) == s,
{
    assert(s.invoices[id].invoice_id == id);
}

/// A call on one invoice leaves every other record as it is.
pub proof fn lemma_call_leaves_others(s: LedgerState, id: Seq<char>, call: Call, other: Seq<char>)
    requires
        s.keyed(),
        other != id,
    ensures
        s.after(id, call).invoices.contains_key(other) == s.invoices.contains_key(other),
        s.invoices.contains_key(other) ==> s.after(id, call).invoices[other] == s.invoices[other],
{
    if s.call_refusal(id, call) is None {
        assert(s.invoices.contains_key(id));
        assert(s.invoices[id].invoice_id == id);
    }
}

/// Whenever a settlement may be attempted and the transfer goes through, the
/// payment is accepted; when the transfer fails, the payment is refused for
/// that reason.
pub proof fn lemma_payment_follows_transfer(
    s: LedgerState,
    caller: Seq<char>,
    id: Seq<char>,
    transferred: bool,
)
    requires
        s.settlement_refusal(true, caller, id) is None,
    ensures
        transferred ==> s.pay_refusal(true, caller, id, transferred) is None,
        !transferred ==> s.pay_refusal(true, caller, id, transferred) == Some(
            BillrError::PaymentFailed,
        ),
{
}

/// A creation writes the creator's list, then the recipient's list, then
/// the record: no record is ever written before the lists that lead to it.
pub proof fn lemma_create_writes_lists_first(
    s: LedgerState,
    creator: Seq<char>,
    id: Seq<char>,
    recipient: Seq<char>,
    amount: u64,
    metadata: Seq<(Seq<char>, Seq<char>)>,
    now: u64,
)
    ensures
        s.create_effect(creator, id, recipient, amount, metadata, now).writes == s.writes
            + seq![
            KeyView::CreatorInvoices(creator),
            KeyView::RecipientInvoices(recipient),
            KeyView::Invoice(id),
        ],
{
    assert(s.create_effect(creator, id, recipient, amount, metadata, now).writes =~= s.writes
        + seq![
        KeyView::CreatorInvoices(creator),
        KeyView::RecipientInvoices(recipient),
        KeyView::Invoice(id),
    ]);
}

/// An edit that changes the recipient writes the old recipient's list, then
/// the new one's, then the record; any other edit writes the record alone.
pub proof fn lemma_edit_writes_lists_first(
    s: LedgerState,
    id: Seq<char>,
    recipient: Option<Seq<char>>,
    amount: Option<u64>,
    metadata: Option<Seq<(Seq<char>, Seq<char>)>>,
    now: u64,
)
    requires
        s.keyed(),
        s.invoices.contains_key(id),
    ensures
        s.edit_effect(id, recipient, amount, metadata, now).writes == s.writes + if s.invoices[id].moves(
            recipient,
        ) {
            seq![
                KeyView::RecipientInvoices(s.invoices[id].recipient),
                KeyView::RecipientInvoices(recipient->0),
                KeyView::Invoice(id),
            ]
        } else {
            seq![KeyView::Invoice(id)]
        },
{
    let t = s.edit_effect(id, recipient, amount, metadata, now);
    if s.invoices[id].moves(recipient) {
        assert(t.writes =~= s.writes + seq![
            KeyView::RecipientInvoices(s.invoices[id].recipient),
            KeyView::RecipientInvoices(recipient->0),
            KeyView::Invoice(id),
        ]);
    } else {
        assert(t.writes =~= s.writes + seq![KeyView::Invoice(id)]);
    }
}

/// A call on an invoice touches no list of what anybody created, and no
/// list of what anybody received but, when an edit changes the recipient,
/// those of the old and of the new recipient.
pub proof fn lemma_call_leaves_other_lists(s: LedgerState, id: Seq<char>, call: Call, who: Seq<char>)
    requires
        s.keyed(),
    ensures
        s.after(id, call).created[who] == s.created[who],
        !(call matches Call::Edit { recipient, .. } && s.invoices[id].moves(recipient) && (who
            == s.invoices[id].recipient || Some(who) == recipient)) ==> s.after(
            id,
            call,
        ).received[who] == s.received[who],
{
}

/// Every request adds to the log of events and to the journal of writes,
/// and takes nothing away from either.
pub proof fn lemma_request_only_appends(s: LedgerState, request: Request)
    ensures
        s.events.is_prefix_of(s.handled(request).events),
        s.writes.is_prefix_of(s.handled(request).writes),
        s.request_refusal(request) is Some ==> s.handled(request).events == s.events,
        matches!(request, Request::Create { .. } | Request::OnInvoice { .. }) && s.request_refusal(
            request,
        ) is None ==> s.handled(request).events.len() == s.events.len() + 1,
{
}

/// An operation reads and writes only its own part of the ledger. On two
/// ledgers that hold the same in the configuration, in the record that a
/// request is about and in the lists of the parties to it, the request is
/// refused alike or accepted alike; it leaves the two holding the same in
/// that part again; and it publishes the same events and writes the same
/// keys. So an operation may as well be performed on that part alone.
pub proof fn lemma_request_is_local(s: LedgerState, part: LedgerState, request: Request)
    requires
        s.keyed(),
        part.keyed(),
        s.same_part(part, request),
    ensures
        s.request_refusal(request) == part.request_refusal(request),
        s.handled(request).admin == part.handled(request).admin,
        s.handled(request).token == part.handled(request).token,
        request.about() matches Some(id) ==> {
            &&& s.handled(request).invoices.contains_key(id) == part.handled(
                request,
            ).invoices.contains_key(id)
            &&& s.handled(request).invoices.contains_key(id) ==> s.handled(request).invoices[id]
                == part.handled(request).invoices[id]
        },
        forall|who: Seq<char>| #[trigger]
            s.party_to(request, who) ==> s.handled(request).created[who] == part.handled(
                request,
            ).created[who] && s.handled(request).received[who] == part.handled(
                request,
            ).received[who],
        s.handled(request).events.skip(s.events.len() as int) == part.handled(request).events.skip(
            part.events.len() as int,
        ),
        s.handled(request).writes.skip(s.writes.len() as int) == part.handled(request).writes.skip(
            part.writes.len() as int,
        ),
{
    let t = s.handled(request);
    let q = part.handled(request);
    match request {
        Request::OnInvoice { id, call } => {
            if s.invoices.contains_key(id) {
                assert(s.invoices[id].invoice_id == id);
                assert(part.invoices[id].invoice_id == id);
                assert(s.party_to(request, s.invoices[id].creator));
                assert(s.party_to(request, s.invoices[id].recipient));
                match call {
                    Call::Edit { recipient, .. } => {
                        if recipient is Some {
                            assert(s.party_to(request, recipient->0));
                        }
                    },
                    _ => {},
                }
            }
        },
        Request::Create { creator, recipient, .. } => {
            assert(s.party_to(request, creator));
            assert(s.party_to(request, recipient));
        },
        _ => {},
    }
    assert(t.events.skip(s.events.len() as int) =~= q.events.skip(part.events.len() as int));
    assert(t.writes.skip(s.writes.len() as int) =~= q.writes.skip(part.writes.len() as int));
}

/// A request leaves alone every record but the one it is about, and the
/// lists of everybody who is no party to it.
pub proof fn lemma_request_leaves_the_rest(s: LedgerState, request: Request)
    requires
        s.keyed(),
    ensures
        forall|other: Seq<char>|
            request.about() != Some(other) ==> (#[trigger] s.handled(request).invoices.contains_key(
                other,
            ) == s.invoices.contains_key(other)) && (s.invoices.contains_key(other)
                ==> s.handled(request).invoices[other] == s.invoices[other]),
        forall|who: Seq<char>|
            !s.party_to(request, who) ==> #[trigger] s.handled(request).created[who]
                == s.created[who] && s.handled(request).received[who] == s.received[who],
{
    match request {
        Request::OnInvoice { id, call } => {
            if s.invoices.contains_key(id) {
                assert(s.invoices[id].invoice_id == id);
            }
        },
        _ => {},
    }
}

} // verus!
