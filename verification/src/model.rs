//! The ledger as a mathematical value, and what each operation does to it.
//!
//! A `LedgerState` holds the invoice records by identifier, the two indexes
//! (for each identity, the identifiers of the invoices it created and of
//! those addressed to it, in the order they were listed), the configuration,
//! the log of published events and the journal of the keys that were written,
//! in the order of the writes. An identity that was never listed has the
//! empty list.
//!
//! For every operation there is a function that says why it is refused, if it
//! is, and one that gives the state after it when it is not. A refused
//! operation changes nothing.

use vstd::prelude::*;
use crate::events::EventView;
use crate::invoice::{draft, draft_refusal, transition, InvoiceView, Operation};
use crate::lists::without;
use crate::types::{BillrError, InvoiceStatus, KeyView};

verus! {

/// Everything the ledger holds, as mathematical values.
pub struct LedgerState {
    pub invoices: Map<Seq<char>, InvoiceView>,
    pub created: Map<Seq<char>, Seq<Seq<char>>>,
    pub received: Map<Seq<char>, Seq<Seq<char>>>,
    pub admin: Option<Seq<char>>,
    pub token: Option<Seq<char>>,
    pub events: Seq<EventView>,
    pub writes: Seq<KeyView>,
}

/// The index in which nobody has any invoice.
pub open spec fn empty_index() -> Map<Seq<char>, Seq<Seq<char>>> {
    Map::total(|who: Seq<char>| Seq::<Seq<char>>::empty())
}

impl LedgerState {
    /// The ledger before anything happened.
    pub open spec fn empty() -> LedgerState {
        LedgerState {
            invoices: Map::empty(),
            created: empty_index(),
            received: empty_index(),
            admin: None,
            token: None,
            events: Seq::empty(),
            writes: Seq::empty(),
        }
    }

    /// Every record stands under its own identifier, and both indexes are
    /// defined for every identity.
    pub open spec fn keyed(self) -> bool {
        &&& self.indexes_total()
        &&& forall|id: Seq<char>| #[trigger]
            self.invoices.contains_key(id) ==> self.invoices[id].invoice_id == id
    }

    /// Every record has a positive amount, and has its time of payment
    /// exactly when it is paid.
    pub open spec fn records_valid(self) -> bool {
        forall|id: Seq<char>| #[trigger] self.invoices.contains_key(id) ==> self.invoices[id].valid()
    }

    /// Every identifier listed for an identity belongs to a record that
    /// names this identity in the list's role.
    pub open spec fn indexes_sound(self) -> bool {
        &&& forall|who: Seq<char>, j: int|
            0 <= j < self.created[who].len() ==> self.invoices.contains_key(
                #[trigger] self.created[who][j],
            ) && self.invoices[self.created[who][j]].creator == who
        &&& forall|who: Seq<char>, j: int|
            0 <= j < self.received[who].len() ==> self.invoices.contains_key(
                #[trigger] self.received[who][j],
            ) && self.invoices[self.received[who][j]].recipient == who
    }

    /// Every record is listed for its creator and for its recipient.
    pub open spec fn indexes_complete(self) -> bool {
        forall|id: Seq<char>| #[trigger]
            self.invoices.contains_key(id) ==> self.created[self.invoices[id].creator].contains(id)
                && self.received[self.invoices[id].recipient].contains(id)
    }

    /// No identifier is listed twice for one identity.
    pub open spec fn indexes_distinct(self) -> bool {
        &&& forall|who: Seq<char>| #[trigger] self.created[who].no_duplicates()
        &&& forall|who: Seq<char>| #[trigger] self.received[who].no_duplicates()
    }

    /// Both indexes are defined for every identity.
    pub open spec fn indexes_total(self) -> bool {
        &&& forall|who: Seq<char>| #[trigger] self.created.contains_key(who)
        &&& forall|who: Seq<char>| #[trigger] self.received.contains_key(who)
    }

    /// What holds of the ledger at all times: records and indexes agree.
    pub open spec fn consistent(self) -> bool {
        &&& self.keyed()
        &&& self.records_valid()
        &&& self.indexes_sound()
        &&& self.indexes_complete()
        &&& self.indexes_distinct()
    }

    /// The state with `invoice` written under its identifier.
    pub open spec fn stored(self, invoice: InvoiceView) -> LedgerState {
        LedgerState {
            invoices: self.invoices.insert(invoice.invoice_id, invoice),
            writes: self.writes.push(KeyView::Invoice(invoice.invoice_id)),
            ..self
        }
    }

    /// The state with the list of what `who` created written anew.
    pub open spec fn created_set(self, who: Seq<char>, ids: Seq<Seq<char>>) -> LedgerState {
        LedgerState {
            created: self.created.insert(who, ids),
            writes: self.writes.push(KeyView::CreatorInvoices(who)),
            ..self
        }
    }

    /// The state with the list of what `who` received written anew.
    pub open spec fn received_set(self, who: Seq<char>, ids: Seq<Seq<char>>) -> LedgerState {
        LedgerState {
            received: self.received.insert(who, ids),
            writes: self.writes.push(KeyView::RecipientInvoices(who)),
            ..self
        }
    }

    /// The state with `event` at the end of the log.
    pub open spec fn logged(self, event: EventView) -> LedgerState {
        LedgerState { events: self.events.push(event), ..self }
    }

    /// The state with `id` appended to what `who` created.
    pub open spec fn listed_created(self, who: Seq<char>, id: Seq<char>) -> LedgerState {
        self.created_set(who, self.created[who].push(id))
    }

    /// The state with `id` appended to what `who` received.
    pub open spec fn listed_received(self, who: Seq<char>, id: Seq<char>) -> LedgerState {
        self.received_set(who, self.received[who].push(id))
    }

    /// The state with `id` taken out of what `who` received.
    pub open spec fn unlisted_received(self, who: Seq<char>, id: Seq<char>) -> LedgerState {
        self.received_set(who, without(self.received[who], id))
    }

    /// What every operation on an existing invoice checks first: the acting
    /// identity's consent was verified, and the invoice exists.
    pub open spec fn gate(self, consent: bool, id: Seq<char>) -> Option<BillrError> {
        if !consent {
            Some(BillrError::Unauthorized)
        } else if !self.invoices.contains_key(id) {
            Some(BillrError::InvoiceNotFound)
        } else {
            None
        }
    }

    /// Why `caller` may not perform `op` on invoice `id`, if so.
    pub open spec fn refusal(self, op: Operation, consent: bool, caller: Seq<char>, id: Seq<char>)
        -> Option<BillrError> {
        match self.gate(consent, id) {
            Some(e) => Some(e),
            None => self.invoices[id].refusal(op, caller),
        }
    }

    /// Why a creation is refused, if it is: unverified consent, a zero
    /// amount, an identifier in use; in this order.
    pub open spec fn create_refusal(self, consent: bool, id: Seq<char>, amount: u64) -> Option<
        BillrError,
    > {
        if !consent {
            Some(BillrError::Unauthorized)
        } else {
            draft_refusal(amount, self.invoices.contains_key(id))
        }
    }

    /// The state after a creation: the draft is listed for both parties,
    /// then recorded, then announced.
    pub open spec fn create_effect(
        self,
        creator: Seq<char>,
        id: Seq<char>,
        recipient: Seq<char>,
        amount: u64,
        metadata: Seq<(Seq<char>, Seq<char>)>,
        now: u64,
    ) -> LedgerState {
        self.listed_created(creator, id).listed_received(recipient, id).stored(
            draft(id, creator, recipient, amount, metadata, now),
        ).logged(EventView::Created { invoice_id: id, creator, recipient, amount })
    }

    /// Why an edit is refused, if it is.
    pub open spec fn edit_refusal(
        self,
        consent: bool,
        caller: Seq<char>,
        id: Seq<char>,
        amount: Option<u64>,
    ) -> Option<BillrError> {
        match self.gate(consent, id) {
            Some(e) => Some(e),
            None => self.invoices[id].edit_refusal(caller, amount),
        }
    }

    /// The state after an edit. When the recipient changes, the invoice
    /// first leaves the old recipient's list and joins the end of the new
    /// one's; then the record is written.
    pub open spec fn edit_effect(
        self,
        id: Seq<char>,
        recipient: Option<Seq<char>>,
        amount: Option<u64>,
        metadata: Option<Seq<(Seq<char>, Seq<char>)>>,
        now: u64,
    ) -> LedgerState {
        let old = self.invoices[id];
        let indexed = if old.moves(recipient) {
            self.unlisted_received(old.recipient, id).listed_received(recipient->0, id)
        } else {
            self
        };
        indexed.stored(old.edited(recipient, amount, metadata, now)).logged(
            EventView::Updated { invoice_id: id, creator: old.creator, updated_at: now },
        )
    }

    /// The state after invoice `id` was sent.
    pub open spec fn send_effect(self, id: Seq<char>) -> LedgerState {
        let old = self.invoices[id];
        self.stored(old.sent()).logged(
            EventView::Sent { invoice_id: id, creator: old.creator, recipient: old.recipient },
        )
    }

    /// The state after invoice `id` was acknowledged.
    pub open spec fn acknowledge_effect(self, id: Seq<char>, note: Option<Seq<char>>, now: u64)
        -> LedgerState {
        let old = self.invoices[id];
        self.stored(old.acknowledged(note, now)).logged(
            EventView::Acknowledged { invoice_id: id, recipient: old.recipient, note },
        )
    }

    /// Why no settlement of invoice `id` may be attempted, if so.
    pub open spec fn settlement_refusal(self, consent: bool, caller: Seq<char>, id: Seq<char>)
        -> Option<BillrError> {
        match self.gate(consent, id) {
            Some(e) => Some(e),
            None => self.invoices[id].settlement_refusal(caller, self.token),
        }
    }

    /// Why a payment is refused, if it is.
    pub open spec fn pay_refusal(
        self,
        consent: bool,
        caller: Seq<char>,
        id: Seq<char>,
        transferred: bool,
    ) -> Option<BillrError> {
        match self.gate(consent, id) {
            Some(e) => Some(e),
            None => self.invoices[id].pay_refusal(caller, self.token, transferred),
        }
    }

    /// The state after invoice `id` was paid.
    pub open spec fn pay_effect(self, id: Seq<char>, now: u64) -> LedgerState {
        let old = self.invoices[id];
        self.stored(old.paid(now)).logged(
            EventView::Paid {
                invoice_id: id,
                creator: old.creator,
                recipient: old.recipient,
                amount: old.amount,
                paid_at: now,
            },
        )
    }

    /// The state after invoice `id` was cancelled.
    pub open spec fn cancel_effect(self, id: Seq<char>) -> LedgerState {
        let old = self.invoices[id];
        self.stored(old.cancelled()).logged(
            EventView::Cancelled { invoice_id: id, creator: old.creator },
        )
    }

    /// The state after the metadata of invoice `id` was replaced.
    pub open spec fn update_metadata_effect(
        self,
        id: Seq<char>,
        metadata: Seq<(Seq<char>, Seq<char>)>,
        now: u64,
    ) -> LedgerState {
        let old = self.invoices[id];
        self.stored(old.with_metadata(metadata, now)).logged(
            EventView::Updated { invoice_id: id, creator: old.creator, updated_at: now },
        )
    }

    /// The state with the administrator written.
    pub open spec fn admin_set(self, admin: Seq<char>) -> LedgerState {
        LedgerState { admin: Some(admin), writes: self.writes.push(KeyView::Admin), ..self }
    }

    /// The state with the settlement asset written.
    pub open spec fn token_set(self, token: Seq<char>) -> LedgerState {
        LedgerState { token: Some(token), writes: self.writes.push(KeyView::UsdcToken), ..self }
    }

    /// The state after initialization: administrator and settlement asset
    /// are set, whatever they were.
    pub open spec fn initialize_effect(self, admin: Seq<char>, token: Seq<char>) -> LedgerState {
        self.admin_set(admin).token_set(token)
    }

    /// Why the settlement asset may not be replaced, if so: consent was not
    /// verified, or the caller is not the administrator on record.
    pub open spec fn update_token_refusal(self, consent: bool, caller: Seq<char>) -> Option<
        BillrError,
    > {
        if !consent || self.admin != Some(caller) {
            Some(BillrError::Unauthorized)
        } else {
            None
        }
    }

    /// The state after the settlement asset was replaced.
    pub open spec fn update_token_effect(self, token: Seq<char>) -> LedgerState {
        self.token_set(token)
    }

    /// The records that `ids` lead to, in order; an identifier without a
    /// record is passed over.
    pub open spec fn records_of(self, ids: Seq<Seq<char>>) -> Seq<InvoiceView> {
        ids.filter(|id: Seq<char>| self.invoices.contains_key(id)).map_values(
            |id: Seq<char>| self.invoices[id],
        )
    }
}

/// The invoices among `list` that still wait for payment, in order.
pub open spec fn pending(list: Seq<InvoiceView>) -> Seq<InvoiceView> {
    list.filter(|i: InvoiceView| i.status.is_pending())
}

/// One call on an invoice that exists or is believed to, with everything
/// the call was given: the acting identity, whether its consent was verified,
/// the time, and for a payment whether the transfer went through.
pub enum Call {
    Edit {
        caller: Seq<char>,
        recipient: Option<Seq<char>>,
        amount: Option<u64>,
        metadata: Option<Seq<(Seq<char>, Seq<char>)>>,
        consent: bool,
        now: u64,
    },
    Send { caller: Seq<char>, consent: bool },
    Acknowledge { caller: Seq<char>, note: Option<Seq<char>>, consent: bool, now: u64 },
    Pay { caller: Seq<char>, consent: bool, transferred: bool, now: u64 },
    Cancel { caller: Seq<char>, consent: bool },
    UpdateMetadata {
        caller: Seq<char>,
        replacement: Seq<(Seq<char>, Seq<char>)>,
        consent: bool,
        now: u64,
    },
}

impl Call {
    /// The operation that the call asks for.
    pub open spec fn operation(self) -> Operation {
        match self {
            Call::Edit { .. } => Operation::Edit,
            Call::Send { .. } => Operation::Send,
            Call::Acknowledge { .. } => Operation::Acknowledge,
            Call::Pay { .. } => Operation::Pay,
            Call::Cancel { .. } => Operation::Cancel,
            Call::UpdateMetadata { .. } => Operation::UpdateMetadata,
        }
    }
}

/// The operations that a run of calls asks for, in order.
pub open spec fn operations(calls: Seq<Call>) -> Seq<Operation> {
    calls.map_values(|c: Call| c.operation())
}

/// The transition table folded over a run of operations: the status that
/// the run ends in when it starts from `from`, or `None` when some operation
/// in it may not start from the status that the ones before it lead to.
pub open spec fn fold_table(from: InvoiceStatus, ops: Seq<Operation>) -> Option<InvoiceStatus>
    decreases ops.len(),
{
    if ops.len() == 0 {
        Some(from)
    } else {
        match fold_table(from, ops.drop_last()) {
            Some(status) => transition(ops.last(), status),
            None => None,
        }
    }
}

impl LedgerState {
    /// Why `call` on invoice `id` is refused, if it is.
    pub open spec fn call_refusal(self, id: Seq<char>, call: Call) -> Option<BillrError> {
        match call {
            Call::Edit { caller, amount, consent, .. } => self.edit_refusal(
                consent,
                caller,
                id,
                amount,
            ),
            Call::Send { caller, consent } => self.refusal(Operation::Send, consent, caller, id),
            Call::Acknowledge { caller, consent, .. } => self.refusal(
                Operation::Acknowledge,
                consent,
                caller,
                id,
            ),
            Call::Pay { caller, consent, transferred, .. } => self.pay_refusal(
                consent,
                caller,
                id,
                transferred,
            ),
            Call::Cancel { caller, consent } => self.refusal(
                Operation::Cancel,
                consent,
                caller,
                id,
            ),
            Call::UpdateMetadata { caller, consent, .. } => self.refusal(
                Operation::UpdateMetadata,
                consent,
                caller,
                id,
            ),
        }
    }

    /// The state after `call` on invoice `id`: as the operation leaves it,
    /// or unchanged when the call is refused.
    pub open spec fn after(self, id: Seq<char>, call: Call) -> LedgerState {
        if self.call_refusal(id, call) is Some {
            self
        } else {
            match call {
                Call::Edit { recipient, amount, metadata, now, .. } => self.edit_effect(
                    id,
                    recipient,
                    amount,
                    metadata,
                    now,
                ),
                Call::Send { .. } => self.send_effect(id),
                Call::Acknowledge { note, now, .. } => self.acknowledge_effect(id, note, now),
                Call::Pay { now, .. } => self.pay_effect(id, now),
                Call::Cancel { .. } => self.cancel_effect(id),
                Call::UpdateMetadata { replacement, now, .. } => self.update_metadata_effect(
                    id,
                    replacement,
                    now,
                ),
            }
        }
    }

    /// The state after a run of calls on invoice `id`.
    pub open spec fn after_all(self, id: Seq<char>, calls: Seq<Call>) -> LedgerState
        decreases calls.len(),
    {
        if calls.len() == 0 {
            self
        } else {
            self.after_all(id, calls.drop_last()).after(id, calls.last())
        }
    }

    /// Whether no call of the run is refused.
    pub open spec fn all_accepted(self, id: Seq<char>, calls: Seq<Call>) -> bool
        decreases calls.len(),
    {
        calls.len() == 0 || (self.all_accepted(id, calls.drop_last()) && self.after_all(
            id,
            calls.drop_last(),
        ).call_refusal(id, calls.last()) is None)
    }
}

/// Anything that can be asked of the ledger and may change it.
pub enum Request {
    Initialize { admin: Seq<char>, token: Seq<char>, consent: bool },
    UpdateToken { admin: Seq<char>, token: Seq<char>, consent: bool },
    Create {
        creator: Seq<char>,
        id: Seq<char>,
        recipient: Seq<char>,
        amount: u64,
        metadata: Seq<(Seq<char>, Seq<char>)>,
        consent: bool,
        now: u64,
    },
    OnInvoice { id: Seq<char>, call: Call },
}

impl Call {
    /// Whether the call names `who`: as the identity that acts, or as the
    /// recipient that an edit asks for.
    pub open spec fn names(self, who: Seq<char>) -> bool {
        match self {
            Call::Edit { caller, recipient, .. } => who == caller || recipient == Some(who),
            Call::Send { caller, .. } => who == caller,
            Call::Acknowledge { caller, .. } => who == caller,
            Call::Pay { caller, .. } => who == caller,
            Call::Cancel { caller, .. } => who == caller,
            Call::UpdateMetadata { caller, .. } => who == caller,
        }
    }
}

impl Request {
    /// The invoice that the request is about, if it is about one.
    pub open spec fn about(self) -> Option<Seq<char>> {
        match self {
            Request::Create { id, .. } => Some(id),
            Request::OnInvoice { id, .. } => Some(id),
            _ => None,
        }
    }

    /// Whether the request names `who`.
    pub open spec fn names(self, who: Seq<char>) -> bool {
        match self {
            Request::Initialize { admin, .. } => who == admin,
            Request::UpdateToken { admin, .. } => who == admin,
            Request::Create { creator, recipient, .. } => who == creator || who == recipient,
            Request::OnInvoice { call, .. } => call.names(who),
        }
    }
}

/// What the transition table says of invoice `id` across one request, going
/// by statuses alone: a creation under `id` starts it as a draft, a call on
/// `id` moves it as the table says, and nothing else touches it. `None`
/// stands for an invoice that does not exist, and for a call that the table
/// does not allow.
pub open spec fn table_step(status: Option<InvoiceStatus>, id: Seq<char>, request: Request)
    -> Option<InvoiceStatus> {
    match request {
        Request::Create { id: new, .. } => if new == id {
            Some(InvoiceStatus::Draft)
        } else {
            status
        },
        Request::OnInvoice { id: target, call } => if target == id {
            match status {
                Some(from) => transition(call.operation(), from),
                None => None,
            }
        } else {
            status
        },
        _ => status,
    }
}

/// `table_step` folded over a run of requests.
pub open spec fn table_run(status: Option<InvoiceStatus>, id: Seq<char>, requests: Seq<Request>)
    -> Option<InvoiceStatus>
    decreases requests.len(),
{
    if requests.len() == 0 {
        status
    } else {
        table_step(table_run(status, id, requests.drop_last()), id, requests.last())
    }
}

impl LedgerState {
    /// The status of invoice `id`, if it exists.
    pub open spec fn status_of(self, id: Seq<char>) -> Option<InvoiceStatus> {
        if self.invoices.contains_key(id) {
            Some(self.invoices[id].status)
        } else {
            None
        }
    }

    /// Why `request` is refused, if it is.
    pub open spec fn request_refusal(self, request: Request) -> Option<BillrError> {
        match request {
            Request::Initialize { consent, .. } => if consent {
                None
            } else {
                Some(BillrError::Unauthorized)
            },
            Request::UpdateToken { admin, consent, .. } => self.update_token_refusal(
                consent,
                admin,
            ),
            Request::Create { id, amount, consent, .. } => self.create_refusal(
                consent,
                id,
                amount,
            ),
            Request::OnInvoice { id, call } => self.call_refusal(id, call),
        }
    }

    /// The state after `request`: as the operation leaves it, or unchanged
    /// when the request is refused.
    pub open spec fn handled(self, request: Request) -> LedgerState {
        if self.request_refusal(request) is Some {
            self
        } else {
            match request {
                Request::Initialize { admin, token, .. } => self.initialize_effect(admin, token),
                Request::UpdateToken { token, .. } => self.update_token_effect(token),
                Request::Create {
                    creator,
                    id,
                    recipient,
                    amount,
                    metadata,
                    now,
                    ..
                } => self.create_effect(creator, id, recipient, amount, metadata, now),
                Request::OnInvoice { id, call } => self.after(id, call),
            }
        }
    }

    /// The state after a run of requests.
    pub open spec fn handled_all(self, requests: Seq<Request>) -> LedgerState
        decreases requests.len(),
    {
        if requests.len() == 0 {
            self
        } else {
            self.handled_all(requests.drop_last()).handled(requests.last())
        }
    }

    /// Whether no request of the run is refused.
    pub open spec fn none_refused(self, requests: Seq<Request>) -> bool
        decreases requests.len(),
    {
        requests.len() == 0 || (self.none_refused(requests.drop_last()) && self.handled_all(
            requests.drop_last(),
        ).request_refusal(requests.last()) is None)
    }

    /// Whether `who` is a party to `request`: named in it, or the creator or
    /// the recipient of the invoice that it is about.
    pub open spec fn party_to(self, request: Request, who: Seq<char>) -> bool {
        request.names(who) || (request.about() matches Some(id) && self.invoices.contains_key(id)
            && (self.invoices[id].creator == who || self.invoices[id].recipient == who))
    }

    /// Whether this state and `other` hold the same in every entry that
    /// `request` can read or write: the configuration, the record that the
    /// request is about, and both lists of every party to it.
    pub open spec fn same_part(self, other: LedgerState, request: Request) -> bool {
        &&& self.admin == other.admin
        &&& self.token == other.token
        &&& request.about() matches Some(id) ==> {
            &&& self.invoices.contains_key(id) == other.invoices.contains_key(id)
            &&& self.invoices.contains_key(id) ==> self.invoices[id] == other.invoices[id]
        }
        &&& forall|who: Seq<char>| #[trigger]
            self.party_to(request, who) ==> self.created[who] == other.created[who]
                && self.received[who] == other.received[who]
    }
}

} // verus!
