use billr::{
    Address, BillrContract, BillrError, DataKey, Invoice, InvoiceStatus, Ledger, Metadata,
};

fn who(name: &str) -> Address {
    Address::new(name)
}

fn text(s: &str) -> String {
    s.to_string()
}

fn record(id: &str, from: &str, to: &str, status: InvoiceStatus) -> Invoice {
    Invoice {
        invoice_id: text(id),
        creator: who(from),
        recipient: who(to),
        amount: 25,
        metadata: Metadata::new(),
        status,
        created_at: 1,
        paid_at: if status == InvoiceStatus::Paid { Some(2) } else { None },
        acknowledgment_note: None,
        last_updated: 1,
    }
}

#[test]
fn new_ledger_has_written_nothing() {
    let env = Ledger::new();
    assert_eq!(env.journal(), &Vec::<DataKey>::new());
    assert_eq!(env.events().len(), 0);
    assert_eq!(env.admin(), None);
    assert_eq!(env.token(), None);
    assert_eq!(env.record(&text("I")), None);
    assert_eq!(env.created_by(&who("A")), Vec::<String>::new());
    assert_eq!(env.received_by(&who("A")), Vec::<String>::new());
}

#[test]
fn create_writes_both_lists_before_the_record() {
    let mut env = Ledger::new();
    BillrContract::create_invoice(&mut env, who("A"), text("I"), who("B"), 1, Metadata::new(), true, 1)
        .unwrap();
    assert_eq!(
        env.journal(),
        &vec![
            DataKey::CreatorInvoices(who("A")),
            DataKey::RecipientInvoices(who("B")),
            DataKey::Invoice(text("I")),
        ]
    );
}

#[test]
fn edit_writes_the_lists_only_when_the_recipient_changes() {
    let mut env = Ledger::new();
    env.restore_invoice(record("I", "A", "B", InvoiceStatus::Draft));
    env.restore_created(&who("A"), vec![text("I")]);
    env.restore_received(&who("B"), vec![text("I")]);
    BillrContract::edit_invoice(&mut env, who("A"), text("I"), None, Some(3), None, true, 5).unwrap();
    assert_eq!(env.journal(), &vec![DataKey::Invoice(text("I"))]);
    BillrContract::edit_invoice(&mut env, who("A"), text("I"), Some(who("B")), None, None, true, 6)
        .unwrap();
    assert_eq!(env.journal(), &vec![DataKey::Invoice(text("I")), DataKey::Invoice(text("I"))]);
    BillrContract::edit_invoice(&mut env, who("A"), text("I"), Some(who("C")), None, None, true, 7)
        .unwrap();
    assert_eq!(
        env.journal()[2..],
        [
            DataKey::RecipientInvoices(who("B")),
            DataKey::RecipientInvoices(who("C")),
            DataKey::Invoice(text("I")),
        ]
    );
    assert_eq!(env.received_by(&who("B")), Vec::<String>::new());
    assert_eq!(env.received_by(&who("C")), vec![text("I")]);
}

#[test]
fn status_changes_write_the_record_alone() {
    let mut env = Ledger::new();
    env.restore_config(None, Some(who("T")));
    env.restore_invoice(record("I", "A", "B", InvoiceStatus::Draft));
    BillrContract::update_metadata(&mut env, who("A"), text("I"), Metadata::new(), true, 2).unwrap();
    BillrContract::send_invoice(&mut env, who("A"), text("I"), true).unwrap();
    BillrContract::acknowledge_invoice(&mut env, who("B"), text("I"), None, true, 3).unwrap();
    BillrContract::pay_invoice(&mut env, who("B"), text("I"), true, true, 4).unwrap();
    assert_eq!(env.journal(), &vec![DataKey::Invoice(text("I")); 4]);
    assert_eq!(env.events().len(), 4);

    let mut other = Ledger::new();
    other.restore_invoice(record("J", "A", "B", InvoiceStatus::Sent));
    BillrContract::cancel_invoice(&mut other, who("A"), text("J"), true).unwrap();
    assert_eq!(other.journal(), &vec![DataKey::Invoice(text("J"))]);
}

#[test]
fn configuration_writes_its_keys() {
    let mut env = Ledger::new();
    BillrContract::initialize(&mut env, who("ADMIN"), who("T"), true).unwrap();
    assert_eq!(env.journal(), &vec![DataKey::Admin, DataKey::UsdcToken]);
    BillrContract::update_usdc_token(&mut env, who("ADMIN"), who("U"), true).unwrap();
    assert_eq!(env.journal(), &vec![DataKey::Admin, DataKey::UsdcToken, DataKey::UsdcToken]);
    assert_eq!(env.token(), Some(&who("U")));
    assert_eq!(env.admin(), Some(&who("ADMIN")));
}

#[test]
fn refused_calls_write_nothing() {
    let mut env = Ledger::new();
    env.restore_invoice(record("I", "A", "B", InvoiceStatus::Paid));
    let refused = [
        BillrContract::initialize(&mut env, who("ADMIN"), who("T"), false),
        BillrContract::update_usdc_token(&mut env, who("ADMIN"), who("T"), true),
        BillrContract::create_invoice(&mut env, who("A"), text("I"), who("B"), 1, Metadata::new(), true, 1),
        BillrContract::create_invoice(&mut env, who("A"), text("J"), who("B"), 0, Metadata::new(), true, 1),
        BillrContract::edit_invoice(&mut env, who("A"), text("I"), Some(who("C")), None, None, true, 1),
        BillrContract::send_invoice(&mut env, who("A"), text("I"), true),
        BillrContract::acknowledge_invoice(&mut env, who("B"), text("I"), None, true, 1),
        BillrContract::pay_invoice(&mut env, who("B"), text("I"), true, true, 1),
        BillrContract::cancel_invoice(&mut env, who("A"), text("I"), true),
        BillrContract::update_metadata(&mut env, who("A"), text("I"), Metadata::new(), true, 1),
    ];
    assert_eq!(
        refused,
        [
            Err(BillrError::Unauthorized),
            Err(BillrError::Unauthorized),
            Err(BillrError::InvoiceAlreadyExists),
            Err(BillrError::InvalidAmount),
            Err(BillrError::InvalidStatus),
            Err(BillrError::InvalidStatus),
            Err(BillrError::InvalidStatus),
            Err(BillrError::InvoiceAlreadyPaid),
            Err(BillrError::InvalidStatus),
            Err(BillrError::InvalidStatus),
        ]
    );
    assert_eq!(env.journal().len(), 0);
    assert_eq!(env.events().len(), 0);
    assert_eq!(env.record(&text("I")), Some(&record("I", "A", "B", InvoiceStatus::Paid)));
}

#[test]
fn restoring_writes_nothing() {
    let mut env = Ledger::new();
    env.restore_config(Some(who("ADMIN")), Some(who("T")));
    env.restore_invoice(record("I", "A", "B", InvoiceStatus::Sent));
    env.restore_created(&who("A"), vec![text("I")]);
    env.restore_received(&who("B"), vec![text("I")]);
    assert_eq!(env.journal().len(), 0);
    assert_eq!(env.events().len(), 0);
    assert_eq!(env.admin(), Some(&who("ADMIN")));
    assert_eq!(env.token(), Some(&who("T")));
    assert_eq!(env.record(&text("I")), Some(&record("I", "A", "B", InvoiceStatus::Sent)));
    assert_eq!(env.created_by(&who("A")), vec![text("I")]);
    assert_eq!(env.received_by(&who("B")), vec![text("I")]);
    assert_eq!(env.received_by(&who("A")), Vec::<String>::new());
}

#[test]
fn restoring_replaces_what_was_there() {
    let mut env = Ledger::new();
    env.restore_invoice(record("I", "A", "B", InvoiceStatus::Draft));
    env.restore_invoice(record("I", "A", "C", InvoiceStatus::Sent));
    assert_eq!(env.record(&text("I")), Some(&record("I", "A", "C", InvoiceStatus::Sent)));
    env.restore_created(&who("A"), vec![text("X"), text("Y")]);
    env.restore_created(&who("A"), vec![text("Z")]);
    assert_eq!(env.created_by(&who("A")), vec![text("Z")]);
    env.restore_config(Some(who("ADMIN")), None);
    env.restore_config(None, Some(who("T")));
    assert_eq!(env.admin(), None);
    assert_eq!(env.token(), Some(&who("T")));
}

#[test]
fn operations_work_on_a_restored_part() {
    // Only what the call touches is restored: the record and B's list, out of
    // a ledger in which B has other invoices too.
    let mut env = Ledger::new();
    env.restore_invoice(record("I", "A", "B", InvoiceStatus::Draft));
    env.restore_created(&who("A"), vec![text("H"), text("I")]);
    env.restore_received(&who("B"), vec![text("G"), text("I"), text("K")]);
    env.restore_received(&who("C"), vec![text("F")]);
    BillrContract::edit_invoice(&mut env, who("A"), text("I"), Some(who("C")), None, None, true, 9)
        .unwrap();
    assert_eq!(env.received_by(&who("B")), vec![text("G"), text("K")]);
    assert_eq!(env.received_by(&who("C")), vec![text("F"), text("I")]);
    assert_eq!(env.created_by(&who("A")), vec![text("H"), text("I")]);
    assert_eq!(env.record(&text("I")).unwrap().recipient, who("C"));
}

#[test]
fn listed_identifier_without_a_record_is_passed_over() {
    let mut env = Ledger::new();
    env.restore_invoice(record("I", "A", "B", InvoiceStatus::Sent));
    env.restore_invoice(record("K", "A", "B", InvoiceStatus::Draft));
    env.restore_created(&who("A"), vec![text("GONE"), text("I"), text("LOST"), text("K")]);
    env.restore_received(&who("B"), vec![text("K"), text("GONE"), text("I")]);
    assert_eq!(
        BillrContract::list_by_creator(&env, &who("A")),
        vec![text("GONE"), text("I"), text("LOST"), text("K")]
    );
    let created = BillrContract::get_invoices_by_creator(&env, &who("A"));
    assert_eq!(
        created,
        vec![record("I", "A", "B", InvoiceStatus::Sent), record("K", "A", "B", InvoiceStatus::Draft)]
    );
    let received = BillrContract::get_invoices_by_recipient(&env, &who("B"));
    assert_eq!(
        received,
        vec![record("K", "A", "B", InvoiceStatus::Draft), record("I", "A", "B", InvoiceStatus::Sent)]
    );
    let pending = BillrContract::get_pending_invoices(&env, &who("A"));
    assert_eq!(pending[0].invoices, vec![record("I", "A", "B", InvoiceStatus::Sent)]);
    assert_eq!(pending[1].invoices, vec![]);
}

#[test]
fn keys_are_equal_by_kind_and_text() {
    assert_eq!(DataKey::Invoice(text("I")).clone(), DataKey::Invoice(text("I")));
    assert_ne!(DataKey::Invoice(text("I")), DataKey::Invoice(text("J")));
    assert_ne!(DataKey::CreatorInvoices(who("A")), DataKey::RecipientInvoices(who("A")));
    assert_eq!(DataKey::CreatorInvoices(who("A")).clone(), DataKey::CreatorInvoices(who("A")));
    assert_eq!(DataKey::RecipientInvoices(who("A")).clone(), DataKey::RecipientInvoices(who("A")));
    assert_eq!(DataKey::UsdcToken.clone(), DataKey::UsdcToken);
    assert_eq!(DataKey::Admin.clone(), DataKey::Admin);
    assert_ne!(DataKey::Admin, DataKey::UsdcToken);
}

#[test]
fn records_that_are_not_valid_are_not_restored() {
    let mut env = Ledger::new();
    let zero = Invoice { amount: 0, ..record("Z", "A", "B", InvoiceStatus::Draft) };
    let paid_without_time = Invoice { paid_at: None, ..record("P", "A", "B", InvoiceStatus::Paid) };
    let time_without_payment =
        Invoice { paid_at: Some(3), ..record("T", "A", "B", InvoiceStatus::Sent) };
    assert!(!zero.is_valid());
    assert!(!paid_without_time.is_valid());
    assert!(!time_without_payment.is_valid());
    assert!(!env.restore_invoice(zero));
    assert!(!env.restore_invoice(paid_without_time));
    assert!(!env.restore_invoice(time_without_payment));
    for id in ["Z", "P", "T"] {
        assert_eq!(env.record(&text(id)), None);
    }
    let good = record("G", "A", "B", InvoiceStatus::Paid);
    assert!(good.is_valid());
    assert!(env.restore_invoice(good));
    assert!(env.restore_invoice(record("H", "A", "B", InvoiceStatus::Cancelled)));
    assert!(env.record(&text("G")).is_some());
    assert!(env.record(&text("H")).is_some());
    // A record that is not valid does not displace the one that is there.
    assert!(!env.restore_invoice(Invoice { amount: 0, ..record("G", "A", "B", InvoiceStatus::Paid) }));
    assert_eq!(env.record(&text("G")), Some(&record("G", "A", "B", InvoiceStatus::Paid)));
}
