//! The ledger that the operations work on: invoice records by identifier,
//! the lists of identifiers by creator and by recipient, the configuration,
//! the log of events to publish and the journal of keys written.
//!
//! A ledger starts empty, or is restored entry by entry from where it was
//! kept. Restoring takes no record that is not valid, and every list as it
//! is: a restored ledger agrees in records and indexes as far as what it was
//! restored from did. From then on only the operations of `BillrContract`
//! write, and they keep that agreement. Whoever keeps the ledger elsewhere
//! finds in the journal, in order, the keys whose values an operation wrote,
//! and in the log the events it published.

use vstd::prelude::*;
use crate::events::{event_views, BillrEvent};
use crate::invoice::Invoice;
use crate::lists::copy_ids;
use crate::model::LedgerState;
use crate::table::Table;
use crate::types::{address_text, key_views, texts, Address, DataKey, KeyView};

verus! {

/// The state that the operations read and write.
pub struct Ledger {
    invoices: Table<Invoice>,
    created: Table<Vec<String>>,
    received: Table<Vec<String>>,
    admin: Option<Address>,
    usdc_token: Option<Address>,
    events: Vec<BillrEvent>,
    journal: Vec<DataKey>,
}

/// The index that a table of lists stands for: an identity without a list
/// has the empty one.
pub open spec fn index_of(lists: Map<Seq<char>, Vec<String>>) -> Map<Seq<char>, Seq<Seq<char>>> {
    Map::total(
        |who: Seq<char>|
            if lists.contains_key(who) {
                texts(lists[who]@)
            } else {
                Seq::<Seq<char>>::empty()
            },
    )
}

impl View for Ledger {
    type V = LedgerState;

    closed spec fn view(&self) -> LedgerState {
        LedgerState {
            invoices: self.invoices.map().map_values(|i: Invoice| i@),
            created: index_of(self.created.map()),
            received: index_of(self.received.map()),
            admin: address_text(self.admin),
            token: address_text(self.usdc_token),
            events: event_views(self.events@),
            writes: key_views(self.journal@),
        }
    }
}

impl Ledger {
    /// Every table holds each of its keys once.
    pub closed spec fn tables_ok(&self) -> bool {
        &&& self.invoices.wf()
        &&& self.created.wf()
        &&& self.received.wf()
    }

    /// The ledger is sound as a store: every record stands under its own
    /// identifier, has a positive amount and has its time of payment
    /// exactly when it is paid, and both indexes are defined for every
    /// identity.
    pub open spec fn well_stored(&self) -> bool {
        self.tables_ok() && self@.keyed() && self@.records_valid()
    }

    /// The ledger is sound as a store, and its records and indexes agree.
    pub open spec fn wf(&self) -> bool {
        self.well_stored() && self@.consistent()
    }

    /// A ledger on which nothing has happened yet.
    pub fn new() -> (ledger: Ledger)
        ensures
            ledger.wf(),
            ledger@ == LedgerState::empty(),
    {
        let ledger = Ledger {
            invoices: Table::new(),
            created: Table::new(),
            received: Table::new(),
            admin: None,
            usdc_token: None,
            events: Vec::new(),
            journal: Vec::new(),
        };
        proof {
            let s = ledger@;
            let e = LedgerState::empty();
            assert(s.invoices =~= e.invoices);
            assert(s.created =~= e.created);
            assert(s.received =~= e.received);
            assert(s.events =~= e.events);
            assert(s.writes =~= e.writes);
        }
        ledger
    }

    /// Puts back a record as it was kept, under its identifier, and says
    /// whether it did. A record that is not valid, with a zero amount or
    /// with a time of payment that does not match its status, is not taken.
    pub fn restore_invoice(&mut self, invoice: Invoice) -> (taken: bool)
        requires
            old(self).well_stored(),
        ensures
            final(self).well_stored(),
            taken == invoice@.valid(),
            taken ==> final(self)@ == (LedgerState {
                invoices: old(self)@.invoices.insert(invoice@.invoice_id, invoice@),
                ..old(self)@
            }),
            !taken ==> *final(self) == *old(self),
    {
        if !invoice.is_valid() {
            return false;
        }
        let key = invoice.invoice_id.clone();
        self.invoices.set(key, invoice);
        proof {
            assert(self@.invoices =~= old(self)@.invoices.insert(invoice@.invoice_id, invoice@));
        }
        true
    }

    /// Puts back the list of what `who` created, as it was kept.
    pub fn restore_created(&mut self, who: &Address, ids: Vec<String>)
        requires
            old(self).well_stored(),
        ensures
            final(self).well_stored(),
            final(self)@ == (LedgerState {
                created: old(self)@.created.insert(who@, texts(ids@)),
                ..old(self)@
            }),
    {
        self.created.set(who.key.clone(), ids);
        proof {
            assert(self@.created =~= old(self)@.created.insert(who@, texts(ids@)));
        }
    }

    /// Puts back the list of what `who` received, as it was kept.
    pub fn restore_received(&mut self, who: &Address, ids: Vec<String>)
        requires
            old(self).well_stored(),
        ensures
            final(self).well_stored(),
            final(self)@ == (LedgerState {
                received: old(self)@.received.insert(who@, texts(ids@)),
                ..old(self)@
            }),
    {
        self.received.set(who.key.clone(), ids);
        proof {
            assert(self@.received =~= old(self)@.received.insert(who@, texts(ids@)));
        }
    }

    /// Puts back the configuration as it was kept.
    pub fn restore_config(&mut self, admin: Option<Address>, token: Option<Address>)
        requires
            old(self).well_stored(),
        ensures
            final(self).well_stored(),
            final(self)@ == (LedgerState {
                admin: address_text(admin),
                token: address_text(token),
                ..old(self)@
            }),
    {
        self.admin = admin;
        self.usdc_token = token;
    }

    /// The events published so far, oldest first.
    pub fn events(&self) -> (r: &Vec<BillrEvent>)
        ensures
            event_views(r@) == self@.events,
    {
        &self.events
    }

    /// The keys written so far, in the order of the writes.
    pub fn journal(&self) -> (r: &Vec<DataKey>)
        ensures
            key_views(r@) == self@.writes,
    {
        &self.journal
    }

    /// The administrator on record.
    pub fn admin(&self) -> (r: Option<&Address>)
        ensures
            match r {
                Some(a) => self@.admin == Some(a@),
                None => self@.admin is None,
            },
    {
        self.admin.as_ref()
    }

    /// The settlement asset on record.
    pub fn token(&self) -> (r: Option<&Address>)
        ensures
            match r {
                Some(a) => self@.token == Some(a@),
                None => self@.token is None,
            },
    {
        self.usdc_token.as_ref()
    }

    /// The record stored under `id`.
    pub fn record(&self, id: &String) -> (r: Option<&Invoice>)
        requires
            self.well_stored(),
        ensures
            match r {
                Some(invoice) => self@.invoices.contains_key(id@) && invoice@
                    == self@.invoices[id@] && invoice@.valid() && invoice@.invoice_id == id@,
                None => !self@.invoices.contains_key(id@),
            },
    {
        self.invoices.get(id)
    }

    /// The identifiers listed for `who` as creator.
    pub fn created_by(&self, who: &Address) -> (r: Vec<String>)
        requires
            self.well_stored(),
        ensures
            texts(r@) == self@.created[who@],
    {
        match self.created.get(&who.key) {
            Some(list) => copy_ids(list),
            None => {
                let r: Vec<String> = Vec::new();
                assert(texts(r@) =~= Seq::<Seq<char>>::empty());
                r
            },
        }
    }

    /// The identifiers listed for `who` as recipient.
    pub fn received_by(&self, who: &Address) -> (r: Vec<String>)
        requires
            self.well_stored(),
        ensures
            texts(r@) == self@.received[who@],
    {
        match self.received.get(&who.key) {
            Some(list) => copy_ids(list),
            None => {
                let r: Vec<String> = Vec::new();
                assert(texts(r@) =~= Seq::<Seq<char>>::empty());
                r
            },
        }
    }

    pub(crate) fn store(&mut self, invoice: Invoice)
        requires
            old(self).well_stored(),
            invoice@.valid(),
        ensures
            final(self).well_stored(),
            final(self)@ == old(self)@.stored(invoice@),
    {
        let key = invoice.invoice_id.clone();
        self.journal.push(DataKey::Invoice(key.clone()));
        self.invoices.set(key, invoice);
        proof {
            assert(self@.invoices =~= old(self)@.invoices.insert(invoice@.invoice_id, invoice@));
            assert(self@.writes =~= old(self)@.writes.push(KeyView::Invoice(invoice@.invoice_id)));
        }
    }

    pub(crate) fn list_created(&mut self, who: &Address, ids: Vec<String>)
        requires
            old(self).well_stored(),
        ensures
            final(self).well_stored(),
            final(self)@ == old(self)@.created_set(who@, texts(ids@)),
    {
        self.journal.push(DataKey::CreatorInvoices(who.clone()));
        self.created.set(who.key.clone(), ids);
        proof {
            assert(self@.created =~= old(self)@.created.insert(who@, texts(ids@)));
            assert(self@.writes =~= old(self)@.writes.push(KeyView::CreatorInvoices(who@)));
        }
    }

    pub(crate) fn list_received(&mut self, who: &Address, ids: Vec<String>)
        requires
            old(self).well_stored(),
        ensures
            final(self).well_stored(),
            final(self)@ == old(self)@.received_set(who@, texts(ids@)),
    {
        self.journal.push(DataKey::RecipientInvoices(who.clone()));
        self.received.set(who.key.clone(), ids);
        proof {
            assert(self@.received =~= old(self)@.received.insert(who@, texts(ids@)));
            assert(self@.writes =~= old(self)@.writes.push(KeyView::RecipientInvoices(who@)));
        }
    }

    pub(crate) fn log(&mut self, event: BillrEvent)
        requires
            old(self).well_stored(),
        ensures
            final(self).well_stored(),
            final(self)@ == old(self)@.logged(event@),
    {
        self.events.push(event);
        proof {
            assert(self@.events =~= old(self)@.events.push(event@));
        }
    }

    pub(crate) fn set_admin(&mut self, admin: Address)
        requires
            old(self).well_stored(),
        ensures
            final(self).well_stored(),
            final(self)@ == old(self)@.admin_set(admin@),
    {
        self.journal.push(DataKey::Admin);
        self.admin = Some(admin);
        proof {
            assert(self@.writes =~= old(self)@.writes.push(KeyView::Admin));
        }
    }

    pub(crate) fn set_token(&mut self, token: Address)
        requires
            old(self).well_stored(),
        ensures
            final(self).well_stored(),
            final(self)@ == old(self)@.token_set(token@),
    {
        self.journal.push(DataKey::UsdcToken);
        self.usdc_token = Some(token);
        proof {
            assert(self@.writes =~= old(self)@.writes.push(KeyView::UsdcToken));
        }
    }
}

} // verus!
