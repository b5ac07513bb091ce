use billr::{
    administers, copy_ids, pending_only, with_id, without_id, Address, BillrError, Edited, Invoice,
    InvoiceCreatedEvent, InvoicePaidEvent, InvoiceStatus, InvoiceUpdatedEvent, Metadata,
    Operation, Settlement, Table,
};

fn who(name: &str) -> Address {
    Address::new(name)
}

fn text(s: &str) -> String {
    s.to_string()
}

fn list(items: &[&str]) -> Vec<String> {
    items.iter().map(|s| s.to_string()).collect()
}

fn draft() -> Invoice {
    Invoice::draft(text("I"), who("A"), who("B"), 40, Metadata::new(), 9, false).unwrap().0
}

fn in_status(status: InvoiceStatus) -> Invoice {
    let paid_at = if status == InvoiceStatus::Paid { Some(12) } else { None };
    Invoice { status, paid_at, ..draft() }
}

#[test]
fn table_starts_empty() {
    let table: Table<u64> = Table::new();
    assert!(!table.has(&text("a")));
    assert_eq!(table.get(&text("a")), None);
    assert_eq!(table.get(&text("")), None);
}

#[test]
fn table_returns_what_was_set() {
    let mut table: Table<u64> = Table::new();
    table.set(text("a"), 1);
    table.set(text("b"), 2);
    table.set(text(""), 3);
    assert_eq!(table.get(&text("a")), Some(&1));
    assert_eq!(table.get(&text("b")), Some(&2));
    assert_eq!(table.get(&text("")), Some(&3));
    assert_eq!(table.get(&text("c")), None);
    assert!(table.has(&text("a")));
    assert!(!table.has(&text("ab")));
}

#[test]
fn table_set_replaces_the_value_under_a_key() {
    let mut table: Table<u64> = Table::new();
    table.set(text("a"), 1);
    table.set(text("b"), 2);
    table.set(text("a"), 10);
    assert_eq!(table.get(&text("a")), Some(&10));
    assert_eq!(table.get(&text("b")), Some(&2));
    table.set(text("b"), 20);
    table.set(text("a"), 100);
    assert_eq!(table.get(&text("a")), Some(&100));
    assert_eq!(table.get(&text("b")), Some(&20));
}

#[test]
fn with_id_appends() {
    assert_eq!(with_id(vec![], text("x")), list(&["x"]));
    assert_eq!(with_id(list(&["a", "b"]), text("c")), list(&["a", "b", "c"]));
    assert_eq!(with_id(list(&["a", "b"]), text("a")), list(&["a", "b", "a"]));
}

#[test]
fn without_id_removes_every_occurrence() {
    assert_eq!(without_id(&list(&[]), &text("x")), list(&[]));
    assert_eq!(without_id(&list(&["x"]), &text("x")), list(&[]));
    assert_eq!(without_id(&list(&["a", "x", "b"]), &text("x")), list(&["a", "b"]));
    assert_eq!(without_id(&list(&["x", "a", "x", "b", "x"]), &text("x")), list(&["a", "b"]));
    assert_eq!(without_id(&list(&["a", "b"]), &text("x")), list(&["a", "b"]));
    assert_eq!(without_id(&list(&["xx", "x ", "X"]), &text("x")), list(&["xx", "x ", "X"]));
}

#[test]
fn copy_ids_copies() {
    assert_eq!(copy_ids(&list(&[])), list(&[]));
    assert_eq!(copy_ids(&list(&["b", "a", "b"])), list(&["b", "a", "b"]));
}

#[test]
fn pending_only_keeps_sent_and_acknowledged_in_order() {
    let invoices = vec![
        Invoice { invoice_id: text("1"), ..in_status(InvoiceStatus::Paid) },
        Invoice { invoice_id: text("2"), ..in_status(InvoiceStatus::Acknowledged) },
        Invoice { invoice_id: text("3"), ..in_status(InvoiceStatus::Draft) },
        Invoice { invoice_id: text("4"), ..in_status(InvoiceStatus::Sent) },
        Invoice { invoice_id: text("5"), ..in_status(InvoiceStatus::Cancelled) },
        Invoice { invoice_id: text("6"), ..in_status(InvoiceStatus::Sent) },
    ];
    let open = pending_only(&invoices);
    let ids: Vec<&str> = open.iter().map(|i| i.invoice_id.as_str()).collect();
    assert_eq!(ids, vec!["2", "4", "6"]);
    assert_eq!(open[0], invoices[1]);
    assert_eq!(pending_only(&vec![]), vec![]);
}

#[test]
fn addresses_are_the_same_by_their_key() {
    assert!(who("GA").same(&who("GA")));
    assert!(!who("GA").same(&who("GB")));
    assert!(!who("GA").same(&who("GAA")));
    assert!(!who("GA").same(&who("ga")));
    assert!(who("").same(&who("")));
    assert_eq!(who("GA").clone(), who("GA"));
    assert_eq!(who("GA").key, "GA");
}

#[test]
fn administrator_is_the_one_on_record() {
    assert!(administers(Some(&who("ADMIN")), &who("ADMIN")));
    assert!(!administers(Some(&who("ADMIN")), &who("EVE")));
    assert!(!administers(None, &who("ADMIN")));
}

#[test]
fn metadata_clone_keeps_entries() {
    let m = Metadata::from_entries(vec![(text("a"), text("1")), (text("b"), text("2"))]);
    assert_eq!(m.clone(), m);
    assert_eq!(m.entries.len(), 2);
    assert_eq!(Metadata::new().entries, vec![]);
    assert_eq!(Metadata::new().clone(), Metadata::new());
}

#[test]
fn invoice_clone_is_equal() {
    let invoice = Invoice {
        metadata: Metadata::from_entries(vec![(text("a"), text("1"))]),
        acknowledgment_note: Some(text("seen")),
        ..in_status(InvoiceStatus::Acknowledged)
    };
    assert_eq!(invoice.clone(), invoice);
    assert_eq!(draft().clone(), draft());
}

#[test]
fn draft_is_made_as_given() {
    let meta = Metadata::from_entries(vec![(text("k"), text("v"))]);
    let (invoice, event) =
        Invoice::draft(text("I"), who("A"), who("B"), 1, meta.clone(), 123, false).unwrap();
    assert_eq!(
        invoice,
        Invoice {
            invoice_id: text("I"),
            creator: who("A"),
            recipient: who("B"),
            amount: 1,
            metadata: meta,
            status: InvoiceStatus::Draft,
            created_at: 123,
            paid_at: None,
            acknowledgment_note: None,
            last_updated: 123,
        }
    );
    assert_eq!(
        event,
        InvoiceCreatedEvent {
            invoice_id: text("I"),
            creator: who("A"),
            recipient: who("B"),
            amount: 1
        }
    );
}

#[test]
fn draft_is_refused_for_zero_amount_then_taken_identifier() {
    let make = |amount, taken| {
        Invoice::draft(text("I"), who("A"), who("B"), amount, Metadata::new(), 1, taken).map(|_| ())
    };
    assert_eq!(make(0, false), Err(BillrError::InvalidAmount));
    assert_eq!(make(0, true), Err(BillrError::InvalidAmount));
    assert_eq!(make(1, true), Err(BillrError::InvoiceAlreadyExists));
    assert_eq!(make(1, false), Ok(()));
}

#[test]
fn permit_checks_role_then_status() {
    let sent = in_status(InvoiceStatus::Sent);
    assert_eq!(sent.permit(Operation::Pay, &who("B")), Ok(InvoiceStatus::Paid));
    assert_eq!(sent.permit(Operation::Pay, &who("A")), Err(BillrError::Unauthorized));
    assert_eq!(sent.permit(Operation::Send, &who("A")), Err(BillrError::InvalidStatus));
    assert_eq!(sent.permit(Operation::Send, &who("B")), Err(BillrError::Unauthorized));
    assert_eq!(sent.permit(Operation::Cancel, &who("A")), Ok(InvoiceStatus::Cancelled));
    assert_eq!(sent.permit(Operation::UpdateMetadata, &who("A")), Ok(InvoiceStatus::Sent));
    let paid = in_status(InvoiceStatus::Paid);
    assert_eq!(paid.permit(Operation::Pay, &who("B")), Err(BillrError::InvoiceAlreadyPaid));
    assert_eq!(paid.permit(Operation::Pay, &who("Z")), Err(BillrError::Unauthorized));
}

#[test]
fn edited_reports_the_recipient_left_behind() {
    let done = draft().edited(&who("A"), Some(who("C")), Some(41), None, 10).unwrap();
    assert_eq!(
        done,
        Edited {
            invoice: Invoice { recipient: who("C"), amount: 41, last_updated: 10, ..draft() },
            event: InvoiceUpdatedEvent { invoice_id: text("I"), creator: who("A"), updated_at: 10 },
            moved_from: Some(who("B")),
        }
    );
    let same = draft().edited(&who("A"), Some(who("B")), None, None, 11).unwrap();
    assert_eq!(same.moved_from, None);
    assert_eq!(same.invoice, Invoice { last_updated: 11, ..draft() });
    let none = draft().edited(&who("A"), None, None, None, 12).unwrap();
    assert_eq!(none.moved_from, None);
}

#[test]
fn edited_is_refused_in_order() {
    let outcome = |invoice: Invoice, caller: &str, amount| {
        invoice.edited(&who(caller), None, amount, None, 1).map(|_| ())
    };
    assert_eq!(outcome(draft(), "B", Some(0)), Err(BillrError::Unauthorized));
    assert_eq!(outcome(in_status(InvoiceStatus::Sent), "A", Some(0)), Err(BillrError::InvalidStatus));
    assert_eq!(outcome(draft(), "A", Some(0)), Err(BillrError::InvalidAmount));
    assert_eq!(outcome(draft(), "A", Some(1)), Ok(()));
    assert_eq!(outcome(draft(), "A", None), Ok(()));
}

#[test]
fn settlement_goes_from_recipient_to_creator() {
    let sent = in_status(InvoiceStatus::Sent);
    assert_eq!(
        sent.settlement(&who("B"), Some(&who("T"))),
        Ok(Settlement { token: who("T"), from: who("B"), to: who("A"), amount: 40 })
    );
    assert_eq!(sent.settlement(&who("B"), None), Err(BillrError::InvalidToken));
    assert_eq!(sent.settlement(&who("A"), None), Err(BillrError::Unauthorized));
    assert_eq!(draft().settlement(&who("B"), None), Err(BillrError::InvalidStatus));
    assert_eq!(
        in_status(InvoiceStatus::Paid).settlement(&who("B"), Some(&who("T"))),
        Err(BillrError::InvoiceAlreadyPaid)
    );
}

#[test]
fn paid_needs_the_transfer() {
    let acked = in_status(InvoiceStatus::Acknowledged);
    assert_eq!(
        acked.clone().paid(&who("B"), Some(&who("T")), false, 5).map(|_| ()),
        Err(BillrError::PaymentFailed)
    );
    assert_eq!(
        acked.clone().paid(&who("B"), None, true, 5).map(|_| ()),
        Err(BillrError::InvalidToken)
    );
    let (invoice, event) = acked.clone().paid(&who("B"), Some(&who("T")), true, 5).unwrap();
    assert_eq!(invoice, Invoice { status: InvoiceStatus::Paid, paid_at: Some(5), ..acked });
    assert_eq!(
        event,
        InvoicePaidEvent {
            invoice_id: text("I"),
            creator: who("A"),
            recipient: who("B"),
            amount: 40,
            paid_at: 5
        }
    );
}

#[test]
fn decisions_on_one_record() {
    let (sent, _) = draft().sent(&who("A")).unwrap();
    assert_eq!(sent.status, InvoiceStatus::Sent);
    assert_eq!(draft().sent(&who("B")).map(|_| ()), Err(BillrError::Unauthorized));
    let (acked, _) = sent.clone().acknowledged(&who("B"), Some(text("n")), 3).unwrap();
    assert_eq!(acked.status, InvoiceStatus::Acknowledged);
    assert_eq!(acked.acknowledgment_note, Some(text("n")));
    assert_eq!(acked.last_updated, 3);
    let (cancelled, _) = acked.clone().cancelled(&who("A")).unwrap();
    assert_eq!(cancelled, Invoice { status: InvoiceStatus::Cancelled, ..acked.clone() });
    assert_eq!(cancelled.cancelled(&who("A")).map(|_| ()), Err(BillrError::InvalidStatus));
    let meta = Metadata::from_entries(vec![(text("x"), text("y"))]);
    let (noted, event) = acked.clone().with_metadata(&who("A"), meta.clone(), 8).unwrap();
    assert_eq!(noted, Invoice { metadata: meta, last_updated: 8, ..acked });
    assert_eq!(event.updated_at, 8);
}
