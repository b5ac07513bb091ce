//! The operations of the invoice ledger.
//!
//! Every operation that changes the ledger names the identity that acts and
//! is told, in `consent`, whether that identity's consent to this very call
//! was verified. Without it nothing happens. Then the record is looked up,
//! the caller's role and the invoice's status are checked, and only when all
//! of it holds are the indexes and the record written and one event logged.
//! An operation that is refused leaves the ledger exactly as it was.

use vstd::prelude::*;
use crate::events::BillrEvent;
use crate::invoice::{Invoice, Operation, Settlement};
use crate::laws::{lemma_create_consistent, lemma_edit_consistent, lemma_replace_consistent};
use crate::ledger::Ledger;
use crate::lists::{with_id, without_id};
use crate::model::{Call, Request};
use crate::types::{address_text, metadata_text, optional_text, Address, BillrError, Metadata};

verus! {

/// The operations on a ledger of invoices.
pub struct BillrContract;

/// Whether `caller` is the administrator on record.
pub fn administers(stored: Option<&Address>, caller: &Address) -> (r: bool)
    ensures
        r == (stored matches Some(a) && a@ == caller@),
{
    match stored {
        Some(a) => a.same(caller),
        None => false,
    }
}

impl BillrContract {
    /// The record of `invoice_id`, or the error that says there is none.
    fn get_invoice_internal(env: &Ledger, invoice_id: &String) -> (r: Result<Invoice, BillrError>)
        requires
            env.well_stored(),
        ensures
            match r {
                Ok(invoice) => env@.invoices.contains_key(invoice_id@) && invoice@
                    == env@.invoices[invoice_id@],
                Err(e) => e == BillrError::InvoiceNotFound && !env@.invoices.contains_key(
                    invoice_id@,
                ),
            },
    {
        match env.record(invoice_id) {
            Some(invoice) => Ok(invoice.clone()),
            None => Err(BillrError::InvoiceNotFound),
        }
    }

    /// Changes the recipient, the amount or the metadata of a draft; each
    /// part that is `None` stays as it is. Only the creator may edit, only
    /// while the invoice is a draft, and never to a zero amount. A new
    /// recipient takes the invoice into its list, at the end, and the old
    /// recipient's list loses it.
    pub fn edit_invoice(
        env: &mut Ledger,
        creator: Address,
        invoice_id: String,
        recipient: Option<Address>,
        amount: Option<u64>,
        metadata: Option<Metadata>,
        consent: bool,
        now: u64,
    ) -> (r: Result<(), BillrError>)
        requires
            old(env).well_stored(),
        ensures
            final(env).well_stored(),
            old(env).wf() ==> final(env).wf(),
            final(env)@ == old(env)@.handled(
                Request::OnInvoice {
                    id: invoice_id@,
                    call: Call::Edit {
                        caller: creator@,
                        recipient: address_text(recipient),
                        amount,
                        metadata: metadata_text(metadata),
                        consent,
                        now,
                    },
                },
            ),
            match old(env)@.edit_refusal(consent, creator@, invoice_id@, amount) {
                Some(e) => r == Err::<(), BillrError>(e) && *final(env) == *old(env),
                None => r is Ok && final(env)@ == old(env)@.edit_effect(
                    invoice_id@,
                    address_text(recipient),
                    amount,
                    metadata_text(metadata),
                    now,
                ),
            },
    {
        if !consent {
            return Err(BillrError::Unauthorized);
        }
        let stored = match Self::get_invoice_internal(env, &invoice_id) {
            Err(e) => {
                return Err(e);
            },
            Ok(invoice) => invoice,
        };
        let done = match stored.edited(&creator, recipient, amount, metadata, now) {
            Err(e) => {
                return Err(e);
            },
            Ok(done) => done,
        };
        let ghost before = env@;
        if let Some(from) = done.moved_from {
            let kept = without_id(&env.received_by(&from), &invoice_id);
            env.list_received(&from, kept);
            let grown = with_id(env.received_by(&done.invoice.recipient), invoice_id.clone());
            env.list_received(&done.invoice.recipient, grown);
        }
        env.store(done.invoice);
        env.log(BillrEvent::Updated(done.event));
        proof {
            let after = before.edit_effect(
                invoice_id@,
                address_text(recipient),
                amount,
                metadata_text(metadata),
                now,
            );
            assert(env@.invoices =~= after.invoices);
            assert(env@.created =~= after.created);
            assert(env@.received =~= after.received);
            assert(env@.events =~= after.events);
            assert(env@.writes =~= after.writes);
            if before.consistent() {
                lemma_edit_consistent(
                    before,
                    creator@,
                    invoice_id@,
                    address_text(recipient),
                    amount,
                    metadata_text(metadata),
                    now,
                );
            }
        }
        Ok(())
    }

    /// Records a new invoice as a draft, lists it for its creator and for
    /// its recipient, each at the end, and announces it. Refused when the
    /// amount is zero or the identifier is in use.
    pub fn create_invoice(
        env: &mut Ledger,
        creator: Address,
        invoice_id: String,
        recipient: Address,
        amount: u64,
        metadata: Metadata,
        consent: bool,
        now: u64,
    ) -> (r: Result<(), BillrError>)
        requires
            old(env).well_stored(),
        ensures
            final(env).well_stored(),
            old(env).wf() ==> final(env).wf(),
            final(env)@ == old(env)@.handled(
                Request::Create {
                    creator: creator@,
                    id: invoice_id@,
                    recipient: recipient@,
                    amount,
                    metadata: metadata@,
                    consent,
                    now,
                },
            ),
            match old(env)@.create_refusal(consent, invoice_id@, amount) {
                Some(e) => r == Err::<(), BillrError>(e) && *final(env) == *old(env),
                None => r is Ok && final(env)@ == old(env)@.create_effect(
                    creator@,
                    invoice_id@,
                    recipient@,
                    amount,
                    metadata@,
                    now,
                ),
            },
    {
        if !consent {
            return Err(BillrError::Unauthorized);
        }
        let by = creator.clone();
        let to = recipient.clone();
        let id = invoice_id.clone();
        let taken = env.record(&id).is_some();
        let (invoice, event) = match Invoice::draft(
            invoice_id,
            creator,
            recipient,
            amount,
            metadata,
            now,
            taken,
        ) {
            Err(e) => {
                return Err(e);
            },
            Ok(done) => done,
        };
        let ghost before = env@;
        let grown = with_id(env.created_by(&by), id.clone());
        env.list_created(&by, grown);
        let grown = with_id(env.received_by(&to), id);
        env.list_received(&to, grown);
        env.store(invoice);
        env.log(BillrEvent::Created(event));
        proof {
            let after = before.create_effect(by@, id@, to@, amount, metadata@, now);
            assert(env@.invoices =~= after.invoices);
            assert(env@.created =~= after.created);
            assert(env@.received =~= after.received);
            assert(env@.events =~= after.events);
            assert(env@.writes =~= after.writes);
            if before.consistent() {
                lemma_create_consistent(before, by@, id@, to@, amount, metadata@, now);
            }
        }
        Ok(())
    }

    /// What the recipient must transfer before `pay_invoice` can record the
    /// payment: the invoice's amount, in the configured settlement asset,
    /// from the recipient to the creator. Refused as `pay_invoice` would be,
    /// whatever the transfer's outcome.
    pub fn settlement(env: &Ledger, recipient: &Address, invoice_id: &String, consent: bool) -> (r:
        Result<Settlement, BillrError>)
        requires
            env.well_stored(),
        ensures
            match env@.settlement_refusal(consent, recipient@, invoice_id@) {
                Some(e) => r == Err::<Settlement, BillrError>(e),
                None => r is Ok && env@.token is Some && r->Ok_0@
                    == env@.invoices[invoice_id@].settlement(env@.token->0),
            },
    {
        if !consent {
            return Err(BillrError::Unauthorized);
        }
        match env.record(invoice_id) {
            None => Err(BillrError::InvoiceNotFound),
            Some(invoice) => invoice.settlement(recipient, env.token()),
        }
    }

    /// Records the payment of an invoice. `transferred` says whether the
    /// transfer that `settlement` asked for went through. Only the recipient
    /// may pay, and only a sent or acknowledged invoice; a paid one is
    /// refused as paid already. The settlement asset must be configured, and
    /// without the transfer nothing is recorded.
    pub fn pay_invoice(
        env: &mut Ledger,
        recipient: Address,
        invoice_id: String,
        consent: bool,
        transferred: bool,
        now: u64,
    ) -> (r: Result<(), BillrError>)
        requires
            old(env).well_stored(),
        ensures
            final(env).well_stored(),
            old(env).wf() ==> final(env).wf(),
            final(env)@ == old(env)@.handled(
                Request::OnInvoice {
                    id: invoice_id@,
                    call: Call::Pay { caller: recipient@, consent, transferred, now },
                },
            ),
            match old(env)@.pay_refusal(consent, recipient@, invoice_id@, transferred) {
                Some(e) => r == Err::<(), BillrError>(e) && *final(env) == *old(env),
                None => r is Ok && final(env)@ == old(env)@.pay_effect(invoice_id@, now),
            },
    {
        if !consent {
            return Err(BillrError::Unauthorized);
        }
        let stored = match Self::get_invoice_internal(env, &invoice_id) {
            Err(e) => {
                return Err(e);
            },
            Ok(invoice) => invoice,
        };
        let (invoice, event) = match stored.paid(&recipient, env.token(), transferred, now) {
            Err(e) => {
                return Err(e);
            },
            Ok(done) => done,
        };
        let ghost before = env@;
        proof {
            if before.consistent() {
                lemma_replace_consistent(before, invoice@);
            }
        }
        env.store(invoice);
        env.log(BillrEvent::Paid(event));
        Ok(())
    }

    /// Records the recipient's acknowledgment of a sent invoice, with the
    /// note given, if any. Only the recipient may acknowledge, and only a
    /// sent invoice.
    pub fn acknowledge_invoice(
        env: &mut Ledger,
        recipient: Address,
        invoice_id: String,
        note: Option<String>,
        consent: bool,
        now: u64,
    ) -> (r: Result<(), BillrError>)
        requires
            old(env).well_stored(),
        ensures
            final(env).well_stored(),
            old(env).wf() ==> final(env).wf(),
            final(env)@ == old(env)@.handled(
                Request::OnInvoice {
                    id: invoice_id@,
                    call: Call::Acknowledge {
                        caller: recipient@,
                        note: optional_text(note),
                        consent,
                        now,
                    },
                },
            ),
            match old(env)@.refusal(Operation::Acknowledge, consent, recipient@, invoice_id@) {
                Some(e) => r == Err::<(), BillrError>(e) && *final(env) == *old(env),
                None => r is Ok && final(env)@ == old(env)@.acknowledge_effect(
                    invoice_id@,
                    optional_text(note),
                    now,
                ),
            },
    {
        if !consent {
            return Err(BillrError::Unauthorized);
        }
        let stored = match Self::get_invoice_internal(env, &invoice_id) {
            Err(e) => {
                return Err(e);
            },
            Ok(invoice) => invoice,
        };
        let (invoice, event) = match stored.acknowledged(&recipient, note, now) {
            Err(e) => {
                return Err(e);
            },
            Ok(done) => done,
        };
        let ghost before = env@;
        proof {
            if before.consistent() {
                lemma_replace_consistent(before, invoice@);
            }
        }
        env.store(invoice);
        env.log(BillrEvent::Acknowledged(event));
        Ok(())
    }

    /// Replaces the metadata of an invoice as a whole. Only the creator may
    /// do so, and only before the invoice is paid or cancelled.
    pub fn update_metadata(
        env: &mut Ledger,
        creator: Address,
        invoice_id: String,
        metadata: Metadata,
        consent: bool,
        now: u64,
    ) -> (r: Result<(), BillrError>)
        requires
            old(env).well_stored(),
        ensures
            final(env).well_stored(),
            old(env).wf() ==> final(env).wf(),
            final(env)@ == old(env)@.handled(
                Request::OnInvoice {
                    id: invoice_id@,
                    call: Call::UpdateMetadata {
                        caller: creator@,
                        replacement: metadata@,
                        consent,
                        now,
                    },
                },
            ),
            match old(env)@.refusal(Operation::UpdateMetadata, consent, creator@, invoice_id@) {
                Some(e) => r == Err::<(), BillrError>(e) && *final(env) == *old(env),
                None => r is Ok && final(env)@ == old(env)@.update_metadata_effect(
                    invoice_id@,
                    metadata@,
                    now,
                ),
            },
    {
        if !consent {
            return Err(BillrError::Unauthorized);
        }
        let stored = match Self::get_invoice_internal(env, &invoice_id) {
            Err(e) => {
                return Err(e);
            },
            Ok(invoice) => invoice,
        };
        let (invoice, event) = match stored.with_metadata(&creator, metadata, now) {
            Err(e) => {
                return Err(e);
            },
            Ok(done) => done,
        };
        let ghost before = env@;
        proof {
            if before.consistent() {
                lemma_replace_consistent(before, invoice@);
            }
        }
        env.store(invoice);
        env.log(BillrEvent::Updated(event));
        Ok(())
    }

    /// Sends a draft to its recipient. Only the creator may send, and only
    /// a draft.
    pub fn send_invoice(env: &mut Ledger, creator: Address, invoice_id: String, consent: bool) -> (r:
        Result<(), BillrError>)
        requires
            old(env).well_stored(),
        ensures
            final(env).well_stored(),
            old(env).wf() ==> final(env).wf(),
            final(env)@ == old(env)@.handled(
                Request::OnInvoice { id: invoice_id@, call: Call::Send { caller: creator@, consent } },
            ),
            match old(env)@.refusal(Operation::Send, consent, creator@, invoice_id@) {
                Some(e) => r == Err::<(), BillrError>(e) && *final(env) == *old(env),
                None => r is Ok && final(env)@ == old(env)@.send_effect(invoice_id@),
            },
    {
        if !consent {
            return Err(BillrError::Unauthorized);
        }
        let stored = match Self::get_invoice_internal(env, &invoice_id) {
            Err(e) => {
                return Err(e);
            },
            Ok(invoice) => invoice,
        };
        let (invoice, event) = match stored.sent(&creator) {
            Err(e) => {
                return Err(e);
            },
            Ok(done) => done,
        };
        let ghost before = env@;
        proof {
            if before.consistent() {
                lemma_replace_consistent(before, invoice@);
            }
        }
        env.store(invoice);
        env.log(BillrEvent::Sent(event));
        Ok(())
    }

    /// Withdraws an invoice. Only the creator may cancel, and only a draft,
    /// a sent or an acknowledged invoice.
    pub fn cancel_invoice(env: &mut Ledger, creator: Address, invoice_id: String, consent: bool)
        -> (r: Result<(), BillrError>)
        requires
            old(env).well_stored(),
        ensures
            final(env).well_stored(),
            old(env).wf() ==> final(env).wf(),
            final(env)@ == old(env)@.handled(
                Request::OnInvoice {
                    id: invoice_id@,
                    call: Call::Cancel { caller: creator@, consent },
                },
            ),
            match old(env)@.refusal(Operation::Cancel, consent, creator@, invoice_id@) {
                Some(e) => r == Err::<(), BillrError>(e) && *final(env) == *old(env),
                None => r is Ok && final(env)@ == old(env)@.cancel_effect(invoice_id@),
            },
    {
        if !consent {
            return Err(BillrError::Unauthorized);
        }
        let stored = match Self::get_invoice_internal(env, &invoice_id) {
            Err(e) => {
                return Err(e);
            },
            Ok(invoice) => invoice,
        };
        let (invoice, event) = match stored.cancelled(&creator) {
            Err(e) => {
                return Err(e);
            },
            Ok(done) => done,
        };
        let ghost before = env@;
        proof {
            if before.consistent() {
                lemma_replace_consistent(before, invoice@);
            }
        }
        env.store(invoice);
        env.log(BillrEvent::Cancelled(event));
        Ok(())
    }

    /// Replaces the settlement asset. Only the administrator on record may
    /// do so.
    pub fn update_usdc_token(
        env: &mut Ledger,
        admin: Address,
        new_usdc_token: Address,
        consent: bool,
    ) -> (r: Result<(), BillrError>)
        requires
            old(env).well_stored(),
        ensures
            final(env).well_stored(),
            old(env).wf() ==> final(env).wf(),
            final(env)@ == old(env)@.handled(
                Request::UpdateToken { admin: admin@, token: new_usdc_token@, consent },
            ),
            match old(env)@.update_token_refusal(consent, admin@) {
                Some(e) => r == Err::<(), BillrError>(e) && *final(env) == *old(env),
                None => r is Ok && final(env)@ == old(env)@.update_token_effect(new_usdc_token@),
            },
    {
        if !consent {
            return Err(BillrError::Unauthorized);
        }
        if !administers(env.admin(), &admin) {
            return Err(BillrError::Unauthorized);
        }
        env.set_token(new_usdc_token);
        Ok(())
    }

    /// Sets the administrator and the settlement asset, replacing whatever
    /// was configured before. Refused only when the administrator's consent
    /// was not verified.
    pub fn initialize(env: &mut Ledger, admin: Address, usdc_token: Address, consent: bool) -> (r:
        Result<(), BillrError>)
        requires
            old(env).well_stored(),
        ensures
            final(env).well_stored(),
            old(env).wf() ==> final(env).wf(),
            final(env)@ == old(env)@.handled(
                Request::Initialize { admin: admin@, token: usdc_token@, consent },
            ),
            !consent ==> r == Err::<(), BillrError>(BillrError::Unauthorized) && *final(env)
                == *old(env),
            consent ==> r is Ok && final(env)@ == old(env)@.initialize_effect(
                admin@,
                usdc_token@,
            ),
    {
        if !consent {
            return Err(BillrError::Unauthorized);
        }
        env.set_admin(admin);
        env.set_token(usdc_token);
        Ok(())
    }
}

} // verus!
