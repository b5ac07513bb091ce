//! Reading the ledger: one record, the identifiers listed for an identity,
//! the records behind them, and the views that put both roles of one
//! identity side by side. Nothing here changes the ledger or asks for
//! anybody's consent.

use vstd::prelude::*;
use crate::contract::BillrContract;
use crate::invoice::{invoice_views, Invoice, InvoiceView};
use crate::lists::lemma_filter_next;
use crate::ledger::Ledger;
use crate::model::pending;
use crate::types::{texts, Address};

verus! {

/// The name under which a combined view lists what an identity created.
pub const CREATED: &'static str = "created";

/// The name under which a combined view lists what is addressed to an
/// identity.
pub const RECEIVED: &'static str = "received";

/// The name under which the pending view lists what an identity created and
/// has not been paid for yet.
pub const AWAITING_PAYMENT: &'static str = "awaiting_payment";

/// The name under which the pending view lists what an identity has still to
/// pay.
pub const PENDING_ACTION: &'static str = "pending_action";

/// One named list of a combined view.
#[derive(Debug, PartialEq, Eq)]
pub struct Section {
    pub name: String,
    pub invoices: Vec<Invoice>,
}

/// The invoices among `list` that still wait for payment, in order.
pub fn pending_only(list: &Vec<Invoice>) -> (r: Vec<Invoice>)
    ensures
        invoice_views(r@) == pending(invoice_views(list@)),
{
    let ghost keep = |i: InvoiceView| i.status.is_pending();
    let mut r: Vec<Invoice> = Vec::new();
    let mut i: usize = 0;
    proof {
        reveal(Seq::filter);
        assert(invoice_views(list@).take(0) =~= Seq::<InvoiceView>::empty());
        assert(invoice_views(r@) =~= Seq::<InvoiceView>::empty());
    }
    while i < list.len()
        invariant
            i <= list.len(),
            keep == |i: InvoiceView| i.status.is_pending(),
            invoice_views(r@) == invoice_views(list@).take(i as int).filter(keep),
        decreases list.len() - i,
    {
        let ghost before = invoice_views(r@);
        proof {
            lemma_filter_next(invoice_views(list@), keep, i as int);
        }
        if list[i].status.pending() {
            r.push(list[i].clone());
            assert(invoice_views(r@) =~= before.push(list[i as int]@));
        }
        i = i + 1;
    }
    assert(invoice_views(list@).take(list.len() as int) =~= invoice_views(list@));
    r
}

impl BillrContract {
    /// The records that `ids` lead to, in order; an identifier without a
    /// record is passed over.
    fn records(env: &Ledger, ids: &Vec<String>) -> (r: Vec<Invoice>)
        requires
            env.well_stored(),
        ensures
            invoice_views(r@) == env@.records_of(texts(ids@)),
    {
        let ghost state = env@;
        let ghost keep = |id: Seq<char>| state.invoices.contains_key(id);
        let ghost look = |id: Seq<char>| state.invoices[id];
        let mut r: Vec<Invoice> = Vec::new();
        let mut i: usize = 0;
        proof {
            reveal(Seq::filter);
            assert(texts(ids@).take(0) =~= Seq::<Seq<char>>::empty());
            assert(invoice_views(r@) =~= Seq::<Seq<char>>::empty().filter(keep).map_values(look));
        }
        while i < ids.len()
            invariant
                i <= ids.len(),
                env.well_stored(),
                state == env@,
                keep == |id: Seq<char>| state.invoices.contains_key(id),
                look == |id: Seq<char>| state.invoices[id],
                invoice_views(r@) == texts(ids@).take(i as int).filter(keep).map_values(look),
            decreases ids.len() - i,
        {
            let ghost before = invoice_views(r@);
            proof {
                lemma_filter_next(texts(ids@), keep, i as int);
            }
            match env.record(&ids[i]) {
                Some(invoice) => {
                    r.push(invoice.clone());
                    assert(invoice_views(r@) =~= before.push(invoice@));
                    assert(texts(ids@).take(i + 1).filter(keep).map_values(look) =~= before.push(
                        look(ids[i as int]@),
                    ));
                },
                None => {},
            }
            i = i + 1;
        }
        assert(texts(ids@).take(ids.len() as int) =~= texts(ids@));
        r
    }

    /// The record of `invoice_id`, if there is one.
    pub fn get_invoice(env: &Ledger, invoice_id: &String) -> (r: Option<Invoice>)
        requires
            env.well_stored(),
        ensures
            match r {
                Some(invoice) => env@.invoices.contains_key(invoice_id@) && invoice@
                    == env@.invoices[invoice_id@],
                None => !env@.invoices.contains_key(invoice_id@),
            },
    {
        match env.record(invoice_id) {
            Some(invoice) => Some(invoice.clone()),
            None => None,
        }
    }

    /// The identifiers of the invoices that `creator` created, in the order
    /// of their creation, whatever their status.
    pub fn list_by_creator(env: &Ledger, creator: &Address) -> (r: Vec<String>)
        requires
            env.well_stored(),
        ensures
            texts(r@) == env@.created[creator@],
    {
        env.created_by(creator)
    }

    /// The identifiers of the invoices addressed to `recipient`, in the
    /// order in which they came to be so, whatever their status.
    pub fn list_by_recipient(env: &Ledger, recipient: &Address) -> (r: Vec<String>)
        requires
            env.well_stored(),
        ensures
            texts(r@) == env@.received[recipient@],
    {
        env.received_by(recipient)
    }

    /// The invoices that `creator` created, in the order of their list.
    pub fn get_invoices_by_creator(env: &Ledger, creator: &Address) -> (r: Vec<Invoice>)
        requires
            env.well_stored(),
        ensures
            invoice_views(r@) == env@.records_of(env@.created[creator@]),
    {
        let ids = Self::list_by_creator(env, creator);
        Self::records(env, &ids)
    }

    /// The invoices addressed to `recipient`, in the order of their list.
    pub fn get_invoices_by_recipient(env: &Ledger, recipient: &Address) -> (r: Vec<Invoice>)
        requires
            env.well_stored(),
        ensures
            invoice_views(r@) == env@.records_of(env@.received[recipient@]),
    {
        let ids = Self::list_by_recipient(env, recipient);
        Self::records(env, &ids)
    }

    /// Both roles of `address` side by side: under `created` the invoices
    /// it created, under `received` those addressed to it.
    pub fn get_all_invoices_for_address(env: &Ledger, address: &Address) -> (r: Vec<Section>)
        requires
            env.well_stored(),
        ensures
            r.len() == 2,
            r[0].name@ == CREATED@,
            invoice_views(r[0].invoices@) == env@.records_of(env@.created[address@]),
            r[1].name@ == RECEIVED@,
            invoice_views(r[1].invoices@) == env@.records_of(env@.received[address@]),
    {
        let mut r: Vec<Section> = Vec::new();
        r.push(
            Section {
                name: CREATED.to_owned(),
                invoices: Self::get_invoices_by_creator(env, address),
            },
        );
        r.push(
            Section {
                name: RECEIVED.to_owned(),
                invoices: Self::get_invoices_by_recipient(env, address),
            },
        );
        r
    }

    /// What is still open for `address`: under `awaiting_payment` the sent
    /// or acknowledged invoices it created, under `pending_action` the sent
    /// or acknowledged invoices addressed to it.
    pub fn get_pending_invoices(env: &Ledger, address: &Address) -> (r: Vec<Section>)
        requires
            env.well_stored(),
        ensures
            r.len() == 2,
            r[0].name@ == AWAITING_PAYMENT@,
            invoice_views(r[0].invoices@) == pending(env@.records_of(env@.created[address@])),
            r[1].name@ == PENDING_ACTION@,
            invoice_views(r[1].invoices@) == pending(env@.records_of(env@.received[address@])),
    {
        let created = Self::get_invoices_by_creator(env, address);
        let received = Self::get_invoices_by_recipient(env, address);
        let mut r: Vec<Section> = Vec::new();
        r.push(Section { name: AWAITING_PAYMENT.to_owned(), invoices: pending_only(&created) });
        r.push(Section { name: PENDING_ACTION.to_owned(), invoices: pending_only(&received) });
        r
    }

    /// The settlement asset on record.
    pub fn get_usdc_token(env: &Ledger) -> (r: Option<Address>)
        requires
            env.well_stored(),
        ensures
            match r {
                Some(a) => env@.token == Some(a@),
                None => env@.token is None,
            },
    {
        match env.token() {
            Some(a) => Some(a.clone()),
            None => None,
        }
    }
}

} // verus!
