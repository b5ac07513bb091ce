//! The invoice and its lifecycle.
//!
//! An invoice starts as a draft and moves along
//! `Draft -> Sent -> Acknowledged -> Paid`; it can be cancelled from any
//! status but Paid and Cancelled, which are final. Each operation belongs to
//! one party, the creator or the recipient, and may start only from the
//! statuses that `transition` lists for it.
//!
//! The functions here decide one operation on one record: they take the
//! record as it is stored and give back either the reason for refusing or the
//! record as it must be stored next, together with the event to publish.

use vstd::prelude::*;
use crate::events::{
    EventView,
    InvoiceAcknowledgedEvent,
    InvoiceCancelledEvent,
    InvoiceCreatedEvent,
    InvoicePaidEvent,
    InvoiceSentEvent,
    InvoiceUpdatedEvent,
};
use crate::types::{
    address_text,
    metadata_text,
    optional_text,
    Address,
    BillrError,
    InvoiceStatus,
    Metadata,
};

verus! {

/// The two parties to an invoice.
#[derive(Clone, Copy, Debug, PartialEq, Eq, Structural)]
pub enum Role {
    Creator,
    Recipient,
}

/// What can be done to an invoice once it exists.
#[derive(Clone, Copy, Debug, PartialEq, Eq, Structural)]
pub enum Operation {
    Edit,
    Send,
    Acknowledge,
    Pay,
    Cancel,
    UpdateMetadata,
}

impl Operation {
    /// The party that alone may perform the operation.
    pub open spec fn role(self) -> Role {
        match self {
            Operation::Acknowledge => Role::Recipient,
            Operation::Pay => Role::Recipient,
            _ => Role::Creator,
        }
    }

    pub fn performer(&self) -> (r: Role)
        ensures
            r == self.role(),
    {
        match self {
            Operation::Acknowledge => Role::Recipient,
            Operation::Pay => Role::Recipient,
            _ => Role::Creator,
        }
    }
}

/// The transition table: the status that `op` leads to when the invoice is
/// in status `from`, or `None` when `op` may not start from there.
pub open spec fn transition(op: Operation, from: InvoiceStatus) -> Option<InvoiceStatus> {
    match op {
        Operation::Edit => match from {
            InvoiceStatus::Draft => Some(InvoiceStatus::Draft),
            _ => None,
        },
        Operation::Send => match from {
            InvoiceStatus::Draft => Some(InvoiceStatus::Sent),
            _ => None,
        },
        Operation::Acknowledge => match from {
            InvoiceStatus::Sent => Some(InvoiceStatus::Acknowledged),
            _ => None,
        },
        Operation::Pay => match from {
            InvoiceStatus::Sent => Some(InvoiceStatus::Paid),
            InvoiceStatus::Acknowledged => Some(InvoiceStatus::Paid),
            _ => None,
        },
        Operation::Cancel => match from {
            InvoiceStatus::Draft => Some(InvoiceStatus::Cancelled),
            InvoiceStatus::Sent => Some(InvoiceStatus::Cancelled),
            InvoiceStatus::Acknowledged => Some(InvoiceStatus::Cancelled),
            _ => None,
        },
        Operation::UpdateMetadata => match from {
            InvoiceStatus::Draft => Some(InvoiceStatus::Draft),
            InvoiceStatus::Sent => Some(InvoiceStatus::Sent),
            InvoiceStatus::Acknowledged => Some(InvoiceStatus::Acknowledged),
            _ => None,
        },
    }
}

/// The error for attempting `op` from status `from`, if the table does not
/// allow it. Paying a paid invoice is told apart from every other mismatch.
pub open spec fn status_refusal(op: Operation, from: InvoiceStatus) -> Option<BillrError> {
    if transition(op, from) is Some {
        None
    } else if op == Operation::Pay && from == InvoiceStatus::Paid {
        Some(BillrError::InvoiceAlreadyPaid)
    } else {
        Some(BillrError::InvalidStatus)
    }
}

/// Looks `op` up in the transition table.
pub fn next_status(op: Operation, from: InvoiceStatus) -> (r: Result<InvoiceStatus, BillrError>)
    ensures
        match r {
            Ok(to) => transition(op, from) == Some(to),
            Err(e) => status_refusal(op, from) == Some(e),
        },
{
    match op {
        Operation::Edit => match from {
            InvoiceStatus::Draft => Ok(InvoiceStatus::Draft),
            _ => Err(BillrError::InvalidStatus),
        },
        Operation::Send => match from {
            InvoiceStatus::Draft => Ok(InvoiceStatus::Sent),
            _ => Err(BillrError::InvalidStatus),
        },
        Operation::Acknowledge => match from {
            InvoiceStatus::Sent => Ok(InvoiceStatus::Acknowledged),
            _ => Err(BillrError::InvalidStatus),
        },
        Operation::Pay => match from {
            InvoiceStatus::Sent => Ok(InvoiceStatus::Paid),
            InvoiceStatus::Acknowledged => Ok(InvoiceStatus::Paid),
            InvoiceStatus::Paid => Err(BillrError::InvoiceAlreadyPaid),
            _ => Err(BillrError::InvalidStatus),
        },
        Operation::Cancel => match from {
            InvoiceStatus::Draft => Ok(InvoiceStatus::Cancelled),
            InvoiceStatus::Sent => Ok(InvoiceStatus::Cancelled),
            InvoiceStatus::Acknowledged => Ok(InvoiceStatus::Cancelled),
            _ => Err(BillrError::InvalidStatus),
        },
        Operation::UpdateMetadata => match from {
            InvoiceStatus::Draft => Ok(InvoiceStatus::Draft),
            InvoiceStatus::Sent => Ok(InvoiceStatus::Sent),
            InvoiceStatus::Acknowledged => Ok(InvoiceStatus::Acknowledged),
            _ => Err(BillrError::InvalidStatus),
        },
    }
}

/// An invoice as the ledger records it.
#[derive(Debug, PartialEq, Eq)]
pub struct Invoice {
    pub invoice_id: String,
    pub creator: Address,
    pub recipient: Address,
    pub amount: u64,
    pub metadata: Metadata,
    pub status: InvoiceStatus,
    pub created_at: u64,
    pub paid_at: Option<u64>,
    pub acknowledgment_note: Option<String>,
    pub last_updated: u64,
}

/// What an invoice says, with every string taken as its text.
pub struct InvoiceView {
    pub invoice_id: Seq<char>,
    pub creator: Seq<char>,
    pub recipient: Seq<char>,
    pub amount: u64,
    pub metadata: Seq<(Seq<char>, Seq<char>)>,
    pub status: InvoiceStatus,
    pub created_at: u64,
    pub paid_at: Option<u64>,
    pub acknowledgment_note: Option<Seq<char>>,
    pub last_updated: u64,
}

impl View for Invoice {
    type V = InvoiceView;

    open spec fn view(&self) -> InvoiceView {
        InvoiceView {
            invoice_id: self.invoice_id@,
            creator: self.creator@,
            recipient: self.recipient@,
            amount: self.amount,
            metadata: self.metadata@,
            status: self.status,
            created_at: self.created_at,
            paid_at: self.paid_at,
            acknowledgment_note: optional_text(self.acknowledgment_note),
            last_updated: self.last_updated,
        }
    }
}

/// What the invoices in a list say, in order.
pub open spec fn invoice_views(list: Seq<Invoice>) -> Seq<InvoiceView> {
    list.map_values(|i: Invoice| i@)
}

/// The transfer that settles an invoice: `amount` units of `token`, from the
/// recipient of the invoice to its creator.
#[derive(Debug, PartialEq, Eq)]
pub struct Settlement {
    pub token: Address,
    pub from: Address,
    pub to: Address,
    pub amount: u64,
}

/// What a settlement says, with every address taken as its text.
pub struct SettlementView {
    pub token: Seq<char>,
    pub from: Seq<char>,
    pub to: Seq<char>,
    pub amount: u64,
}

impl View for Settlement {
    type V = SettlementView;

    open spec fn view(&self) -> SettlementView {
        SettlementView {
            token: self.token@,
            from: self.from@,
            to: self.to@,
            amount: self.amount,
        }
    }
}

/// Why no draft is made, if so: the amount is zero or, after that, the
/// identifier is taken.
pub open spec fn draft_refusal(amount: u64, taken: bool) -> Option<BillrError> {
    if amount == 0 {
        Some(BillrError::InvalidAmount)
    } else if taken {
        Some(BillrError::InvoiceAlreadyExists)
    } else {
        None
    }
}

/// The outcome of an edit: the draft as it is now, the event that announces
/// the edit and, when the recipient changed, the recipient that it was
/// taken from.
#[derive(Debug, PartialEq, Eq)]
pub struct Edited {
    pub invoice: Invoice,
    pub event: InvoiceUpdatedEvent,
    pub moved_from: Option<Address>,
}

/// The draft that creation records.
pub open spec fn draft(
    invoice_id: Seq<char>,
    creator: Seq<char>,
    recipient: Seq<char>,
    amount: u64,
    metadata: Seq<(Seq<char>, Seq<char>)>,
    now: u64,
) -> InvoiceView {
    InvoiceView {
        invoice_id,
        creator,
        recipient,
        amount,
        metadata,
        status: InvoiceStatus::Draft,
        created_at: now,
        paid_at: None,
        acknowledgment_note: None,
        last_updated: now,
    }
}

impl InvoiceView {
    /// What holds of every recorded invoice: the amount is positive, and the
    /// time of payment is set exactly on paid invoices.
    pub open spec fn valid(self) -> bool {
        &&& self.amount > 0
        &&& (self.paid_at is Some <==> self.status == InvoiceStatus::Paid)
    }

    /// The identity that holds `role` on this invoice.
    pub open spec fn party(self, role: Role) -> Seq<char> {
        match role {
            Role::Creator => self.creator,
            Role::Recipient => self.recipient,
        }
    }

    /// Why `caller` may not perform `op` on this invoice, if so: the caller
    /// must hold the operation's role, and the status must allow the
    /// operation. The role is looked at first.
    pub open spec fn refusal(self, op: Operation, caller: Seq<char>) -> Option<BillrError> {
        if self.party(op.role()) != caller {
            Some(BillrError::Unauthorized)
        } else {
            status_refusal(op, self.status)
        }
    }

    /// Why an edit is refused: as for any operation or, after that, because
    /// the replacement amount is zero.
    pub open spec fn edit_refusal(self, caller: Seq<char>, amount: Option<u64>) -> Option<
        BillrError,
    > {
        match self.refusal(Operation::Edit, caller) {
            Some(e) => Some(e),
            None => if amount == Some(0u64) {
                Some(BillrError::InvalidAmount)
            } else {
                None
            },
        }
    }

    /// Why no settlement may be attempted: as for any operation or, after
    /// that, because no settlement asset is configured.
    pub open spec fn settlement_refusal(self, caller: Seq<char>, token: Option<Seq<char>>) -> Option<
        BillrError,
    > {
        match self.refusal(Operation::Pay, caller) {
            Some(e) => Some(e),
            None => if token is None {
                Some(BillrError::InvalidToken)
            } else {
                None
            },
        }
    }

    /// Why payment is refused: because no settlement may be attempted or,
    /// after that, because the transfer failed.
    pub open spec fn pay_refusal(
        self,
        caller: Seq<char>,
        token: Option<Seq<char>>,
        transferred: bool,
    ) -> Option<BillrError> {
        match self.settlement_refusal(caller, token) {
            Some(e) => Some(e),
            None => if !transferred {
                Some(BillrError::PaymentFailed)
            } else {
                None
            },
        }
    }

    /// Whether an edit with this recipient takes the invoice to another
    /// recipient.
    pub open spec fn moves(self, recipient: Option<Seq<char>>) -> bool {
        recipient is Some && recipient->0 != self.recipient
    }

    /// The transfer that pays this invoice in `token`.
    pub open spec fn settlement(self, token: Seq<char>) -> SettlementView {
        SettlementView { token, from: self.recipient, to: self.creator, amount: self.amount }
    }

    /// The draft after an edit. Each part that is given replaces the old one.
    pub open spec fn edited(
        self,
        recipient: Option<Seq<char>>,
        amount: Option<u64>,
        metadata: Option<Seq<(Seq<char>, Seq<char>)>>,
        now: u64,
    ) -> InvoiceView {
        InvoiceView {
            recipient: match recipient {
                Some(r) => r,
                None => self.recipient,
            },
            amount: match amount {
                Some(a) => a,
                None => self.amount,
            },
            metadata: match metadata {
                Some(m) => m,
                None => self.metadata,
            },
            last_updated: now,
            ..self
        }
    }

    /// The invoice after it was sent.
    pub open spec fn sent(self) -> InvoiceView {
        InvoiceView { status: InvoiceStatus::Sent, ..self }
    }

    /// The invoice after it was acknowledged with `note`.
    pub open spec fn acknowledged(self, note: Option<Seq<char>>, now: u64) -> InvoiceView {
        InvoiceView {
            status: InvoiceStatus::Acknowledged,
            acknowledgment_note: note,
            last_updated: now,
            ..self
        }
    }

    /// The invoice after it was paid.
    pub open spec fn paid(self, now: u64) -> InvoiceView {
        InvoiceView { status: InvoiceStatus::Paid, paid_at: Some(now), ..self }
    }

    /// The invoice after it was cancelled.
    pub open spec fn cancelled(self) -> InvoiceView {
        InvoiceView { status: InvoiceStatus::Cancelled, ..self }
    }

    /// The invoice after its metadata was replaced.
    pub open spec fn with_metadata(self, metadata: Seq<(Seq<char>, Seq<char>)>, now: u64)
        -> InvoiceView {
        InvoiceView { metadata, last_updated: now, ..self }
    }
}

impl Clone for Invoice {
    fn clone(&self) -> (r: Self)
        ensures
            r@ == self@,
    {
        Invoice {
            invoice_id: self.invoice_id.clone(),
            creator: self.creator.clone(),
            recipient: self.recipient.clone(),
            amount: self.amount,
            metadata: self.metadata.clone(),
            status: self.status,
            created_at: self.created_at,
            paid_at: self.paid_at,
            acknowledgment_note: match &self.acknowledgment_note {
                Some(note) => Some(note.clone()),
                None => None,
            },
            last_updated: self.last_updated,
        }
    }
}

impl Invoice {
    /// Whether the amount is positive and the time of payment is set
    /// exactly when the invoice is paid.
    pub fn is_valid(&self) -> (r: bool)
        ensures
            r == self@.valid(),
    {
        let paid = match self.status {
            InvoiceStatus::Paid => true,
            _ => false,
        };
        self.amount > 0 && self.paid_at.is_some() == paid
    }

    /// Whether `caller` may perform `op` now and, if so, the status that
    /// the invoice takes.
    pub fn permit(&self, op: Operation, caller: &Address) -> (r: Result<InvoiceStatus, BillrError>)
        ensures
            match r {
                Ok(to) => self@.refusal(op, caller@) is None && transition(op, self.status)
                    == Some(to),
                Err(e) => self@.refusal(op, caller@) == Some(e),
            },
    {
        let holder = match op.performer() {
            Role::Creator => &self.creator,
            Role::Recipient => &self.recipient,
        };
        if !holder.same(caller) {
            return Err(BillrError::Unauthorized);
        }
        next_status(op, self.status)
    }

    /// A new draft, and the event that announces it. `taken` says whether a
    /// record exists under the identifier already. Refused when the amount
    /// is zero and, after that, when the identifier is taken.
    pub fn draft(
        invoice_id: String,
        creator: Address,
        recipient: Address,
        amount: u64,
        metadata: Metadata,
        now: u64,
        taken: bool,
    ) -> (r: Result<(Invoice, InvoiceCreatedEvent), BillrError>)
        ensures
            match r {
                Ok((invoice, event)) => {
                    &&& draft_refusal(amount, taken) is None
                    &&& invoice@ == draft(
                        invoice_id@,
                        creator@,
                        recipient@,
                        amount,
                        metadata@,
                        now,
                    )
                    &&& event@ == (EventView::Created {
                        invoice_id: invoice_id@,
                        creator: creator@,
                        recipient: recipient@,
                        amount,
                    })
                },
                Err(e) => draft_refusal(amount, taken) == Some(e),
            },
    {
        if amount == 0 {
            return Err(BillrError::InvalidAmount);
        }
        if taken {
            return Err(BillrError::InvoiceAlreadyExists);
        }
        let event = InvoiceCreatedEvent {
            invoice_id: invoice_id.clone(),
            creator: creator.clone(),
            recipient: recipient.clone(),
            amount,
        };
        let invoice = Invoice {
            invoice_id,
            creator,
            recipient,
            amount,
            metadata,
            status: InvoiceStatus::Draft,
            created_at: now,
            paid_at: None,
            acknowledgment_note: None,
            last_updated: now,
        };
        Ok((invoice, event))
    }

    /// The draft with the given parts replaced. Only the creator may edit,
    /// only a draft, and never to a zero amount.
    pub fn edited(
        self,
        caller: &Address,
        recipient: Option<Address>,
        amount: Option<u64>,
        metadata: Option<Metadata>,
        now: u64,
    ) -> (r: Result<Edited, BillrError>)
        ensures
            match r {
                Ok(done) => {
                    &&& self@.edit_refusal(caller@, amount) is None
                    &&& done.invoice@ == self@.edited(
                        address_text(recipient),
                        amount,
                        metadata_text(metadata),
                        now,
                    )
                    &&& done.event@ == (EventView::Updated {
                        invoice_id: self@.invoice_id,
                        creator: self@.creator,
                        updated_at: now,
                    })
                    &&& address_text(done.moved_from) == if self@.moves(address_text(recipient)) {
                        Some(self@.recipient)
                    } else {
                        None
                    }
                },
                Err(e) => self@.edit_refusal(caller@, amount) == Some(e),
            },
    {
        match self.permit(Operation::Edit, caller) {
            Err(e) => {
                return Err(e);
            },
            Ok(_) => {},
        }
        if let Some(a) = amount {
            if a == 0 {
                return Err(BillrError::InvalidAmount);
            }
        }
        let event = InvoiceUpdatedEvent {
            invoice_id: self.invoice_id.clone(),
            creator: self.creator.clone(),
            updated_at: now,
        };
        let mut moved_from: Option<Address> = None;
        if let Some(r) = &recipient {
            if !r.same(&self.recipient) {
                moved_from = Some(self.recipient.clone());
            }
        }
        let invoice = Invoice {
            recipient: match recipient {
                Some(r) => r,
                None => self.recipient,
            },
            amount: match amount {
                Some(a) => a,
                None => self.amount,
            },
            metadata: match metadata {
                Some(m) => m,
                None => self.metadata,
            },
            last_updated: now,
            invoice_id: self.invoice_id,
            creator: self.creator,
            status: self.status,
            created_at: self.created_at,
            paid_at: self.paid_at,
            acknowledgment_note: self.acknowledgment_note,
        };
        Ok(Edited { invoice, event, moved_from })
    }

    /// The invoice as sent, and the event that announces it. Only the
    /// creator may send, and only a draft.
    pub fn sent(self, caller: &Address) -> (r: Result<(Invoice, InvoiceSentEvent), BillrError>)
        ensures
            match r {
                Ok((invoice, event)) => {
                    &&& self@.refusal(Operation::Send, caller@) is None
                    &&& invoice@ == self@.sent()
                    &&& event@ == (EventView::Sent {
                        invoice_id: self@.invoice_id,
                        creator: self@.creator,
                        recipient: self@.recipient,
                    })
                },
                Err(e) => self@.refusal(Operation::Send, caller@) == Some(e),
            },
    {
        let to = match self.permit(Operation::Send, caller) {
            Err(e) => {
                return Err(e);
            },
            Ok(to) => to,
        };
        let event = InvoiceSentEvent {
            invoice_id: self.invoice_id.clone(),
            creator: self.creator.clone(),
            recipient: self.recipient.clone(),
        };
        let invoice = Invoice { status: to, ..self };
        Ok((invoice, event))
    }

    /// The invoice as acknowledged, and the event that announces it. Only
    /// the recipient may acknowledge, and only a sent invoice.
    pub fn acknowledged(self, caller: &Address, note: Option<String>, now: u64) -> (r: Result<
        (Invoice, InvoiceAcknowledgedEvent),
        BillrError,
    >)
        ensures
            match r {
                Ok((invoice, event)) => {
                    &&& self@.refusal(Operation::Acknowledge, caller@) is None
                    &&& invoice@ == self@.acknowledged(optional_text(note), now)
                    &&& event@ == (EventView::Acknowledged {
                        invoice_id: self@.invoice_id,
                        recipient: self@.recipient,
                        note: optional_text(note),
                    })
                },
                Err(e) => self@.refusal(Operation::Acknowledge, caller@) == Some(e),
            },
    {
        let to = match self.permit(Operation::Acknowledge, caller) {
            Err(e) => {
                return Err(e);
            },
            Ok(to) => to,
        };
        let event = InvoiceAcknowledgedEvent {
            invoice_id: self.invoice_id.clone(),
            recipient: self.recipient.clone(),
            note: match &note {
                Some(n) => Some(n.clone()),
                None => None,
            },
        };
        let invoice = Invoice {
            status: to,
            acknowledgment_note: note,
            last_updated: now,
            ..self
        };
        Ok((invoice, event))
    }

    /// The transfer to attempt before the invoice can be recorded as paid.
    /// Only the recipient may pay, only a sent or acknowledged invoice, and
    /// only when a settlement asset is configured.
    pub fn settlement(&self, caller: &Address, token: Option<&Address>) -> (r: Result<
        Settlement,
        BillrError,
    >)
        ensures
            match r {
                Ok(order) => {
                    &&& token is Some
                    &&& self@.settlement_refusal(caller@, Some(token->0@)) is None
                    &&& order@ == self@.settlement(token->0@)
                },
                Err(e) => self@.settlement_refusal(
                    caller@,
                    match token {
                        Some(t) => Some(t@),
                        None => None,
                    },
                ) == Some(e),
            },
    {
        match self.permit(Operation::Pay, caller) {
            Err(e) => {
                return Err(e);
            },
            Ok(_) => {},
        }
        match token {
            None => Err(BillrError::InvalidToken),
            Some(t) => Ok(
                Settlement {
                    token: t.clone(),
                    from: self.recipient.clone(),
                    to: self.creator.clone(),
                    amount: self.amount,
                },
            ),
        }
    }

    /// The invoice as paid, and the event that announces it. `transferred`
    /// says whether the settlement transfer went through; nothing is paid
    /// without it.
    pub fn paid(self, caller: &Address, token: Option<&Address>, transferred: bool, now: u64) -> (r:
        Result<(Invoice, InvoicePaidEvent), BillrError>)
        ensures
            match r {
                Ok((invoice, event)) => {
                    &&& token is Some
                    &&& self@.pay_refusal(caller@, Some(token->0@), transferred) is None
                    &&& invoice@ == self@.paid(now)
                    &&& event@ == (EventView::Paid {
                        invoice_id: self@.invoice_id,
                        creator: self@.creator,
                        recipient: self@.recipient,
                        amount: self@.amount,
                        paid_at: now,
                    })
                },
                Err(e) => self@.pay_refusal(
                    caller@,
                    match token {
                        Some(t) => Some(t@),
                        None => None,
                    },
                    transferred,
                ) == Some(e),
            },
    {
        let to = match self.permit(Operation::Pay, caller) {
            Err(e) => {
                return Err(e);
            },
            Ok(to) => to,
        };
        if token.is_none() {
            return Err(BillrError::InvalidToken);
        }
        if !transferred {
            return Err(BillrError::PaymentFailed);
        }
        let event = InvoicePaidEvent {
            invoice_id: self.invoice_id.clone(),
            creator: self.creator.clone(),
            recipient: self.recipient.clone(),
            amount: self.amount,
            paid_at: now,
        };
        let invoice = Invoice { status: to, paid_at: Some(now), ..self };
        Ok((invoice, event))
    }

    /// The invoice as cancelled, and the event that announces it. Only the
    /// creator may cancel, and only before the invoice is paid or cancelled.
    pub fn cancelled(self, caller: &Address) -> (r: Result<
        (Invoice, InvoiceCancelledEvent),
        BillrError,
    >)
        ensures
            match r {
                Ok((invoice, event)) => {
                    &&& self@.refusal(Operation::Cancel, caller@) is None
                    &&& invoice@ == self@.cancelled()
                    &&& event@ == (EventView::Cancelled {
                        invoice_id: self@.invoice_id,
                        creator: self@.creator,
                    })
                },
                Err(e) => self@.refusal(Operation::Cancel, caller@) == Some(e),
            },
    {
        let to = match self.permit(Operation::Cancel, caller) {
            Err(e) => {
                return Err(e);
            },
            Ok(to) => to,
        };
        let event = InvoiceCancelledEvent {
            invoice_id: self.invoice_id.clone(),
            creator: self.creator.clone(),
        };
        let invoice = Invoice { status: to, ..self };
        Ok((invoice, event))
    }

    /// The invoice with its metadata replaced, and the event that announces
    /// it. Only the creator may do so, and only before the invoice is paid
    /// or cancelled.
    pub fn with_metadata(self, caller: &Address, metadata: Metadata, now: u64) -> (r: Result<
        (Invoice, InvoiceUpdatedEvent),
        BillrError,
    >)
        ensures
            match r {
                Ok((invoice, event)) => {
                    &&& self@.refusal(Operation::UpdateMetadata, caller@) is None
                    &&& invoice@ == self@.with_metadata(metadata@, now)
                    &&& event@ == (EventView::Updated {
                        invoice_id: self@.invoice_id,
                        creator: self@.creator,
                        updated_at: now,
                    })
                },
                Err(e) => self@.refusal(Operation::UpdateMetadata, caller@) == Some(e),
            },
    {
        match self.permit(Operation::UpdateMetadata, caller) {
            Err(e) => {
                return Err(e);
            },
            Ok(_) => {},
        }
        let event = InvoiceUpdatedEvent {
            invoice_id: self.invoice_id.clone(),
            creator: self.creator.clone(),
            updated_at: now,
        };
        let invoice = Invoice { metadata, last_updated: now, ..self };
        Ok((invoice, event))
    }
}

} // verus!
