//! The notifications that follow each successful change to an invoice.
//!
//! Every event names the invoice and carries the fields that the change
//! touched. `BillrEvent` is any one of them, as it stands in a ledger's log.

use vstd::prelude::*;
use crate::types::{optional_text, Address};

verus! {

/// What an event says, with every string taken as its text.
pub enum EventView {
    Created { invoice_id: Seq<char>, creator: Seq<char>, recipient: Seq<char>, amount: u64 },
    Sent { invoice_id: Seq<char>, creator: Seq<char>, recipient: Seq<char> },
    Paid {
        invoice_id: Seq<char>,
        creator: Seq<char>,
        recipient: Seq<char>,
        amount: u64,
        paid_at: u64,
    },
    Acknowledged { invoice_id: Seq<char>, recipient: Seq<char>, note: Option<Seq<char>> },
    Cancelled { invoice_id: Seq<char>, creator: Seq<char> },
    Updated { invoice_id: Seq<char>, creator: Seq<char>, updated_at: u64 },
}

impl EventView {
    /// The invoice that the event is about.
    pub open spec fn invoice_id(self) -> Seq<char> {
        match self {
            EventView::Created { invoice_id, .. } => invoice_id,
            EventView::Sent { invoice_id, .. } => invoice_id,
            EventView::Paid { invoice_id, .. } => invoice_id,
            EventView::Acknowledged { invoice_id, .. } => invoice_id,
            EventView::Cancelled { invoice_id, .. } => invoice_id,
            EventView::Updated { invoice_id, .. } => invoice_id,
        }
    }
}

/// A new invoice was recorded as a draft.
#[derive(Debug, PartialEq, Eq)]
pub struct InvoiceCreatedEvent {
    pub invoice_id: String,
    pub creator: Address,
    pub recipient: Address,
    pub amount: u64,
}

impl View for InvoiceCreatedEvent {
    type V = EventView;

    open spec fn view(&self) -> EventView {
        EventView::Created {
            invoice_id: self.invoice_id@,
            creator: self.creator@,
            recipient: self.recipient@,
            amount: self.amount,
        }
    }
}

/// The creator sent the invoice to its recipient.
#[derive(Debug, PartialEq, Eq)]
pub struct InvoiceSentEvent {
    pub invoice_id: String,
    pub creator: Address,
    pub recipient: Address,
}

impl View for InvoiceSentEvent {
    type V = EventView;

    open spec fn view(&self) -> EventView {
        EventView::Sent {
            invoice_id: self.invoice_id@,
            creator: self.creator@,
            recipient: self.recipient@,
        }
    }
}

/// The recipient settled the invoice.
#[derive(Debug, PartialEq, Eq)]
pub struct InvoicePaidEvent {
    pub invoice_id: String,
    pub creator: Address,
    pub recipient: Address,
    pub amount: u64,
    pub paid_at: u64,
}

impl View for InvoicePaidEvent {
    type V = EventView;

    open spec fn view(&self) -> EventView {
        EventView::Paid {
            invoice_id: self.invoice_id@,
            creator: self.creator@,
            recipient: self.recipient@,
            amount: self.amount,
            paid_at: self.paid_at,
        }
    }
}

/// The recipient acknowledged the invoice, with or without a note.
#[derive(Debug, PartialEq, Eq)]
pub struct InvoiceAcknowledgedEvent {
    pub invoice_id: String,
    pub recipient: Address,
    pub note: Option<String>,
}

impl View for InvoiceAcknowledgedEvent {
    type V = EventView;

    open spec fn view(&self) -> EventView {
        EventView::Acknowledged {
            invoice_id: self.invoice_id@,
            recipient: self.recipient@,
            note: optional_text(self.note),
        }
    }
}

/// The creator withdrew the invoice.
#[derive(Debug, PartialEq, Eq)]
pub struct InvoiceCancelledEvent {
    pub invoice_id: String,
    pub creator: Address,
}

impl View for InvoiceCancelledEvent {
    type V = EventView;

    open spec fn view(&self) -> EventView {
        EventView::Cancelled { invoice_id: self.invoice_id@, creator: self.creator@ }
    }
}

/// The creator edited the draft or replaced the metadata.
#[derive(Debug, PartialEq, Eq)]
pub struct InvoiceUpdatedEvent {
    pub invoice_id: String,
    pub creator: Address,
    pub updated_at: u64,
}

impl View for InvoiceUpdatedEvent {
    type V = EventView;

    open spec fn view(&self) -> EventView {
        EventView::Updated {
            invoice_id: self.invoice_id@,
            creator: self.creator@,
            updated_at: self.updated_at,
        }
    }
}

/// Any one event, as the ledger logs it.
#[derive(Debug, PartialEq, Eq)]
pub enum BillrEvent {
    Created(InvoiceCreatedEvent),
    Sent(InvoiceSentEvent),
    Paid(InvoicePaidEvent),
    Acknowledged(InvoiceAcknowledgedEvent),
    Cancelled(InvoiceCancelledEvent),
    Updated(InvoiceUpdatedEvent),
}

impl View for BillrEvent {
    type V = EventView;

    open spec fn view(&self) -> EventView {
        match self {
            BillrEvent::Created(e) => e@,
            BillrEvent::Sent(e) => e@,
            BillrEvent::Paid(e) => e@,
            BillrEvent::Acknowledged(e) => e@,
            BillrEvent::Cancelled(e) => e@,
            BillrEvent::Updated(e) => e@,
        }
    }
}

/// The topic under which events of each kind are published.
pub open spec fn topic_of(e: EventView) -> Seq<char> {
    match e {
        EventView::Created { .. } => "invoice_created"@,
        EventView::Sent { .. } => "invoice_sent"@,
        EventView::Paid { .. } => "invoice_paid"@,
        EventView::Acknowledged { .. } => "invoice_acknowledged"@,
        EventView::Cancelled { .. } => "invoice_cancelled"@,
        EventView::Updated { .. } => "invoice_updated"@,
    }
}

impl BillrEvent {
    /// The topic under which this event is published.
    pub fn topic(&self) -> (t: &'static str)
        ensures
            t@ == topic_of(self@),
    {
        match self {
            BillrEvent::Created(_) => "invoice_created",
            BillrEvent::Sent(_) => "invoice_sent",
            BillrEvent::Paid(_) => "invoice_paid",
            BillrEvent::Acknowledged(_) => "invoice_acknowledged",
            BillrEvent::Cancelled(_) => "invoice_cancelled",
            BillrEvent::Updated(_) => "invoice_updated",
        }
    }
}

/// The events in a log, each taken as what it says.
pub open spec fn event_views(log: Seq<BillrEvent>) -> Seq<EventView> {
    log.map_values(|e: BillrEvent| e@)
}

} // verus!
