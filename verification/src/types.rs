//! The small vocabulary shared by every module: identities, statuses, the
//! error taxonomy and free-form metadata.

use vstd::prelude::*;

verus! {

/// A principal on the ledger: a creator, a recipient, an administrator or a
/// settlement asset. Two addresses name the same principal exactly when
/// their keys have the same text.
#[derive(Debug, PartialEq, Eq)]
pub struct Address {
    pub key: String,
}

impl View for Address {
    type V = Seq<char>;

    open spec fn view(&self) -> Seq<char> {
        self.key@
    }
}

impl Clone for Address {
    fn clone(&self) -> (r: Self)
        ensures
            r == *self,
    {
        Address { key: self.key.clone() }
    }
}

impl Address {
    /// The principal whose key is `key`.
    pub fn new(key: &str) -> (a: Address)
        ensures
            a@ == key@,
    {
        Address { key: key.to_owned() }
    }

    /// Whether both addresses name the same principal.
    pub fn same(&self, other: &Address) -> (r: bool)
        ensures
            r == (self@ == other@),
    {
        self.key == other.key
    }
}

/// The keys of the ledger's store: one per invoice record, one per identity
/// for each of the two index lists, and one for each part of the
/// configuration.
#[derive(Debug, PartialEq, Eq)]
pub enum DataKey {
    Invoice(String),
    CreatorInvoices(Address),
    RecipientInvoices(Address),
    UsdcToken,
    Admin,
}

/// A key of the store, with its string taken as its text.
pub enum KeyView {
    Invoice(Seq<char>),
    CreatorInvoices(Seq<char>),
    RecipientInvoices(Seq<char>),
    UsdcToken,
    Admin,
}

impl View for DataKey {
    type V = KeyView;

    open spec fn view(&self) -> KeyView {
        match self {
            DataKey::Invoice(id) => KeyView::Invoice(id@),
            DataKey::CreatorInvoices(who) => KeyView::CreatorInvoices(who@),
            DataKey::RecipientInvoices(who) => KeyView::RecipientInvoices(who@),
            DataKey::UsdcToken => KeyView::UsdcToken,
            DataKey::Admin => KeyView::Admin,
        }
    }
}

impl Clone for DataKey {
    fn clone(&self) -> (r: Self)
        ensures
            r == *self,
    {
        match self {
            DataKey::Invoice(id) => DataKey::Invoice(id.clone()),
            DataKey::CreatorInvoices(who) => DataKey::CreatorInvoices(who.clone()),
            DataKey::RecipientInvoices(who) => DataKey::RecipientInvoices(who.clone()),
            DataKey::UsdcToken => DataKey::UsdcToken,
            DataKey::Admin => DataKey::Admin,
        }
    }
}

/// The keys in a list, each with its string taken as its text.
pub open spec fn key_views(keys: Seq<DataKey>) -> Seq<KeyView> {
    keys.map_values(|k: DataKey| k@)
}

/// The text of an optional address.
pub open spec fn address_text(a: Option<Address>) -> Option<Seq<char>> {
    match a {
        Some(a) => Some(a@),
        None => None,
    }
}

/// The text of an optional string.
pub open spec fn optional_text(s: Option<String>) -> Option<Seq<char>> {
    match s {
        Some(s) => Some(s@),
        None => None,
    }
}

/// The texts of a list of strings, in order.
pub open spec fn texts(list: Seq<String>) -> Seq<Seq<char>> {
    list.map_values(|s: String| s@)
}

/// Free-form annotations on an invoice: key and value pairs that the ledger
/// stores and hands back without ever looking inside.
#[derive(Debug, PartialEq, Eq)]
pub struct Metadata {
    pub entries: Vec<(String, String)>,
}

impl View for Metadata {
    type V = Seq<(Seq<char>, Seq<char>)>;

    open spec fn view(&self) -> Seq<(Seq<char>, Seq<char>)> {
        self.entries@.map_values(|e: (String, String)| (e.0@, e.1@))
    }
}

impl Clone for Metadata {
    fn clone(&self) -> (r: Self)
        ensures
            r@ == self@,
    {
        let mut entries: Vec<(String, String)> = Vec::new();
        let mut i: usize = 0;
        while i < self.entries.len()
            invariant
                i <= self.entries.len(),
                entries.len() == i,
                forall|j: int|
                    0 <= j < i ==> entries[j].0@ == self.entries[j].0@ && entries[j].1@
                        == self.entries[j].1@,
            decreases self.entries.len() - i,
        {
            let entry = &self.entries[i];
            entries.push((entry.0.clone(), entry.1.clone()));
            i = i + 1;
        }
        let r = Metadata { entries };
        assert(r@ =~= self@);
        r
    }
}

impl Metadata {
    /// No annotations.
    pub fn new() -> (m: Metadata)
        ensures
            m@ == Seq::<(Seq<char>, Seq<char>)>::empty(),
    {
        let m = Metadata { entries: Vec::new() };
        assert(m@ =~= Seq::<(Seq<char>, Seq<char>)>::empty());
        m
    }

    /// The annotations in `entries`, in the order given.
    pub fn from_entries(entries: Vec<(String, String)>) -> (m: Metadata)
        ensures
            m.entries == entries,
    {
        Metadata { entries }
    }
}

/// The text of optional metadata.
pub open spec fn metadata_text(m: Option<Metadata>) -> Option<Seq<(Seq<char>, Seq<char>)>> {
    match m {
        Some(m) => Some(m@),
        None => None,
    }
}

/// Where an invoice stands in its lifecycle.
#[derive(Clone, Copy, Debug, PartialEq, Eq, Structural)]
pub enum InvoiceStatus {
    Draft,
    Sent,
    Acknowledged,
    Paid,
    Cancelled,
}

impl InvoiceStatus {
    /// Paid and Cancelled are final: nothing leads out of them.
    pub open spec fn is_terminal(self) -> bool {
        self == InvoiceStatus::Paid || self == InvoiceStatus::Cancelled
    }

    /// Sent and Acknowledged invoices are the ones still waiting for payment.
    pub open spec fn is_pending(self) -> bool {
        self == InvoiceStatus::Sent || self == InvoiceStatus::Acknowledged
    }

    pub fn terminal(&self) -> (r: bool)
        ensures
            r == self.is_terminal(),
    {
        match self {
            InvoiceStatus::Paid => true,
            InvoiceStatus::Cancelled => true,
            _ => false,
        }
    }

    pub fn pending(&self) -> (r: bool)
        ensures
            r == self.is_pending(),
    {
        match self {
            InvoiceStatus::Sent => true,
            InvoiceStatus::Acknowledged => true,
            _ => false,
        }
    }
}

/// Why an operation was refused.
#[derive(Clone, Copy, Debug, PartialEq, Eq, Structural)]
pub enum BillrError {
    /// No record exists under the invoice identifier.
    InvoiceNotFound,
    /// A record already exists under the identifier chosen for a new invoice.
    InvoiceAlreadyExists,
    /// The caller's consent was not verified, or the caller does not hold the
    /// role that the operation asks for.
    Unauthorized,
    /// The invoice is not in a status from which the operation may start.
    InvalidStatus,
    /// Payment was attempted on an invoice that is paid already.
    InvoiceAlreadyPaid,
    /// The settlement transfer did not go through.
    PaymentFailed,
    /// The amount is zero.
    InvalidAmount,
    /// No settlement asset is configured.
    InvalidToken,
}

impl BillrError {
    /// The number under which the error is reported.
    pub open spec fn spec_code(self) -> u32 {
        match self {
            BillrError::InvoiceNotFound => 1,
            BillrError::InvoiceAlreadyExists => 2,
            BillrError::Unauthorized => 3,
            BillrError::InvalidStatus => 4,
            BillrError::InvoiceAlreadyPaid => 5,
            BillrError::PaymentFailed => 6,
            BillrError::InvalidAmount => 7,
            BillrError::InvalidToken => 8,
        }
    }

    pub fn code(&self) -> (c: u32)
        ensures
            c == self.spec_code(),
    {
        match self {
            BillrError::InvoiceNotFound => 1,
            BillrError::InvoiceAlreadyExists => 2,
            BillrError::Unauthorized => 3,
            BillrError::InvalidStatus => 4,
            BillrError::InvoiceAlreadyPaid => 5,
            BillrError::PaymentFailed => 6,
            BillrError::InvalidAmount => 7,
            BillrError::InvalidToken => 8,
        }
    }
}

} // verus!
