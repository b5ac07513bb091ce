//! Invoice lifecycle on a shared ledger: who may move an invoice from one
//! status to the next, and how the record store and its two indexes stay in
//! step with each other.
//!
//! `BillrContract` holds the operations, `Ledger` the state they work on.
//! `invoice` decides one operation on one record; `model` says what every
//! operation does to the ledger as a whole, and `laws` proves what never
//! changes. `table` and `lists` are what the ledger is built from.

pub mod contract;
pub mod events;
pub mod invoice;
pub mod laws;
pub mod ledger;
pub mod lists;
pub mod model;
pub mod queries;
pub mod table;
pub mod types;

pub use contract::{administers, BillrContract};
pub use events::{
    BillrEvent, InvoiceAcknowledgedEvent, InvoiceCancelledEvent, InvoiceCreatedEvent,
    InvoicePaidEvent, InvoiceSentEvent, InvoiceUpdatedEvent,
};
pub use invoice::{next_status, Edited, Invoice, Operation, Role, Settlement};
pub use ledger::Ledger;
pub use lists::{copy_ids, with_id, without_id};
pub use queries::{pending_only, Section};
pub use table::Table;
pub use types::{Address, BillrError, DataKey, InvoiceStatus, Metadata};
