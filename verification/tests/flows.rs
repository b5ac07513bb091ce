use billr::{
    Address, BillrContract, BillrError, BillrEvent, Invoice, InvoiceCreatedEvent, InvoicePaidEvent,
    InvoiceStatus, Ledger, Metadata, Settlement,
};

fn alice() -> Address {
    Address::new("GALICE")
}

fn bob() -> Address {
    Address::new("GBOB")
}

fn carol() -> Address {
    Address::new("GCAROL")
}

fn usdc() -> Address {
    Address::new("CUSDC")
}

fn id(text: &str) -> String {
    text.to_string()
}

fn ledger_with_invoice() -> Ledger {
    let mut env = Ledger::new();
    assert_eq!(BillrContract::initialize(&mut env, Address::new("GADMIN"), usdc(), true), Ok(()));
    assert_eq!(
        BillrContract::create_invoice(
            &mut env,
            alice(),
            id("INV-1"),
            bob(),
            100,
            Metadata::new(),
            true,
            1_000,
        ),
        Ok(())
    );
    env
}

#[test]
fn created_invoice_is_a_draft() {
    let env = ledger_with_invoice();
    let invoice = BillrContract::get_invoice(&env, &id("INV-1")).unwrap();
    assert_eq!(invoice.status, InvoiceStatus::Draft);
    assert_eq!(
        invoice,
        Invoice {
            invoice_id: id("INV-1"),
            creator: alice(),
            recipient: bob(),
            amount: 100,
            metadata: Metadata::new(),
            status: InvoiceStatus::Draft,
            created_at: 1_000,
            paid_at: None,
            acknowledgment_note: None,
            last_updated: 1_000,
        }
    );
    assert_eq!(BillrContract::list_by_creator(&env, &alice()), vec![id("INV-1")]);
    assert_eq!(BillrContract::list_by_recipient(&env, &bob()), vec![id("INV-1")]);
    assert_eq!(
        env.events(),
        &vec![BillrEvent::Created(InvoiceCreatedEvent {
            invoice_id: id("INV-1"),
            creator: alice(),
            recipient: bob(),
            amount: 100,
        })]
    );
}

#[test]
fn second_create_under_same_id_is_refused() {
    let mut env = ledger_with_invoice();
    let first = BillrContract::get_invoice(&env, &id("INV-1"));
    let again = BillrContract::create_invoice(
        &mut env,
        carol(),
        id("INV-1"),
        alice(),
        7,
        Metadata::from_entries(vec![(id("k"), id("v"))]),
        true,
        2_000,
    );
    assert_eq!(again, Err(BillrError::InvoiceAlreadyExists));
    assert_eq!(BillrContract::get_invoice(&env, &id("INV-1")), first);
    assert_eq!(BillrContract::list_by_creator(&env, &carol()), Vec::<String>::new());
    assert_eq!(BillrContract::list_by_recipient(&env, &alice()), Vec::<String>::new());
    assert_eq!(BillrContract::list_by_creator(&env, &alice()), vec![id("INV-1")]);
    assert_eq!(env.events().len(), 1);
}

#[test]
fn send_then_pay_settles_once() {
    let mut env = ledger_with_invoice();
    assert_eq!(BillrContract::send_invoice(&mut env, alice(), id("INV-1"), true), Ok(()));
    let order = BillrContract::settlement(&env, &bob(), &id("INV-1"), true);
    assert_eq!(order, Ok(Settlement { token: usdc(), from: bob(), to: alice(), amount: 100 }));
    assert_eq!(
        BillrContract::pay_invoice(&mut env, bob(), id("INV-1"), true, true, 5_000),
        Ok(())
    );
    let invoice = BillrContract::get_invoice(&env, &id("INV-1")).unwrap();
    assert_eq!(invoice.status, InvoiceStatus::Paid);
    assert_eq!(invoice.paid_at, Some(5_000));
    assert_eq!(invoice.last_updated, 1_000);
    let paid: Vec<&BillrEvent> =
        env.events().iter().filter(|e| matches!(e, BillrEvent::Paid(_))).collect();
    assert_eq!(
        paid,
        vec![&BillrEvent::Paid(InvoicePaidEvent {
            invoice_id: id("INV-1"),
            creator: alice(),
            recipient: bob(),
            amount: 100,
            paid_at: 5_000,
        })]
    );
    assert_eq!(
        BillrContract::settlement(&env, &bob(), &id("INV-1"), true),
        Err(BillrError::InvoiceAlreadyPaid)
    );
    assert_eq!(
        BillrContract::pay_invoice(&mut env, bob(), id("INV-1"), true, true, 6_000),
        Err(BillrError::InvoiceAlreadyPaid)
    );
    assert_eq!(BillrContract::get_invoice(&env, &id("INV-1")).unwrap().paid_at, Some(5_000));
    assert_eq!(env.events().len(), 3);
}

#[test]
fn acknowledge_before_send_is_refused() {
    let mut env = ledger_with_invoice();
    let before = BillrContract::get_invoice(&env, &id("INV-1"));
    assert_eq!(
        BillrContract::acknowledge_invoice(
            &mut env,
            bob(),
            id("INV-1"),
            Some(id("ok")),
            true,
            2_000
        ),
        Err(BillrError::InvalidStatus)
    );
    assert_eq!(BillrContract::get_invoice(&env, &id("INV-1")), before);
    assert_eq!(before.unwrap().status, InvoiceStatus::Draft);
    assert_eq!(env.events().len(), 1);
}

#[test]
fn edit_moves_invoice_to_new_recipient() {
    let mut env = ledger_with_invoice();
    assert_eq!(
        BillrContract::edit_invoice(
            &mut env,
            alice(),
            id("INV-1"),
            Some(carol()),
            None,
            None,
            true,
            3_000
        ),
        Ok(())
    );
    assert!(!BillrContract::list_by_recipient(&env, &bob()).contains(&id("INV-1")));
    assert!(BillrContract::list_by_recipient(&env, &carol()).contains(&id("INV-1")));
    assert_eq!(BillrContract::list_by_recipient(&env, &bob()), Vec::<String>::new());
    assert_eq!(BillrContract::list_by_recipient(&env, &carol()), vec![id("INV-1")]);
    assert_eq!(BillrContract::list_by_creator(&env, &alice()), vec![id("INV-1")]);
    let invoice = BillrContract::get_invoice(&env, &id("INV-1")).unwrap();
    assert_eq!(invoice.recipient, carol());
    assert_eq!(invoice.amount, 100);
    assert_eq!(invoice.last_updated, 3_000);
    assert_eq!(invoice.created_at, 1_000);
}

#[test]
fn cancelled_invoice_cannot_be_paid() {
    let mut env = ledger_with_invoice();
    assert_eq!(BillrContract::cancel_invoice(&mut env, alice(), id("INV-1"), true), Ok(()));
    assert_eq!(
        BillrContract::get_invoice(&env, &id("INV-1")).unwrap().status,
        InvoiceStatus::Cancelled
    );
    assert_eq!(
        BillrContract::pay_invoice(&mut env, bob(), id("INV-1"), true, true, 2_000),
        Err(BillrError::InvalidStatus)
    );
    assert_eq!(
        BillrContract::get_invoice(&env, &id("INV-1")).unwrap().status,
        InvoiceStatus::Cancelled
    );
    assert_eq!(BillrContract::get_invoice(&env, &id("INV-1")).unwrap().paid_at, None);
}

#[test]
fn paid_invoice_cannot_be_cancelled() {
    let mut env = ledger_with_invoice();
    assert_eq!(BillrContract::send_invoice(&mut env, alice(), id("INV-1"), true), Ok(()));
    assert_eq!(
        BillrContract::pay_invoice(&mut env, bob(), id("INV-1"), true, true, 2_000),
        Ok(())
    );
    assert_eq!(
        BillrContract::cancel_invoice(&mut env, alice(), id("INV-1"), true),
        Err(BillrError::InvalidStatus)
    );
    assert_eq!(
        BillrContract::get_invoice(&env, &id("INV-1")).unwrap().status,
        InvoiceStatus::Paid
    );
}
