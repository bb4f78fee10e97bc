//! The invoice book: an account bills another, and the billed account marks
//! the bill paid, which hands the host one ledger transfer.
//!
//! Each account holds its latest invoice as sender and as receiver; invoice
//! numbers come from a counter that only ever grows.

use vstd::prelude::*;
use std::collections::HashMap;
use crate::ledger::{AccountId, Balance, LedgerCall, Outcome};

verus! {

broadcast use vstd::std_specs::hash::group_hash_axioms;

/// A bill of `amount` from `origin` to `to`, with a free-form message.
#[derive(Clone, Debug, PartialEq, Eq)]
pub struct Invoice {
    pub origin: AccountId,
    pub to: AccountId,
    pub amount: Balance,
    /// Whether it has been paid.
    pub status: bool,
    pub id: u64,
    pub msg: Vec<u8>,
}

/// An invoice as the contracts speak of it.
pub struct InvoiceView {
    pub origin: AccountId,
    pub to: AccountId,
    pub amount: Balance,
    pub status: bool,
    pub id: u64,
    pub msg: Seq<u8>,
}

impl View for Invoice {
    type V = InvoiceView;

    open spec fn view(&self) -> InvoiceView {
        InvoiceView {
            origin: self.origin,
            to: self.to,
            amount: self.amount,
            status: self.status,
            id: self.id,
            msg: self.msg@,
        }
    }
}

/// The views of a list of invoices.
pub open spec fn views(s: Seq<Invoice>) -> Seq<InvoiceView> {
    s.map_values(|i: Invoice| i@)
}

/// Whether the list holds an unpaid invoice with number `id`.
pub open spec fn has_unpaid(s: Seq<InvoiceView>, id: u64) -> bool {
    exists|j: int| 0 <= j < s.len() && (#[trigger] s[j]).id == id && !s[j].status
}

/// The invoice, marked paid where it is an unpaid one with number `id`.
pub open spec fn mark_paid(v: InvoiceView, id: u64) -> InvoiceView {
    if v.id == id && !v.status {
        InvoiceView { status: true, ..v }
    } else {
        v
    }
}

/// The list with every unpaid invoice numbered `id` marked paid.
pub open spec fn mark_all_paid(s: Seq<InvoiceView>, id: u64) -> Seq<InvoiceView> {
    s.map_values(|v: InvoiceView| mark_paid(v, id))
}

/// The number that the next invoice gets, from the last one given out: one
/// more, stopping at the largest number.
pub open spec fn next_invoice_id(last: Option<u64>) -> u64 {
    match last {
        None => 0,
        Some(n) => if n == u64::MAX {
            n
        } else {
            (n + 1) as u64
        },
    }
}

/// Notifications of the invoice book.
#[derive(Clone, Debug, PartialEq, Eq)]
pub enum Event {
    /// An invoice was created: sender, receiver, amount, message, paid, number.
    InvoiceEvent(AccountId, AccountId, Balance, Vec<u8>, bool, u64),
    /// Funds went from the first account to the second; the flag tells that
    /// an invoice was paid.
    Transfer(AccountId, AccountId, Balance, bool),
}

/// Why an operation was refused; a refused operation changes nothing.
#[derive(Clone, Copy, Debug, PartialEq, Eq)]
pub enum Error {
    /// Sender and receiver are the same account.
    SameAddressError,
    /// There is no unpaid invoice to pay.
    AnyError,
}

/// Whether `e` announces the invoice with these fields.
pub open spec fn is_invoice_event(
    e: Event,
    from: AccountId,
    to: AccountId,
    amount: Balance,
    msg: Seq<u8>,
    id: u64,
) -> bool {
    match e {
        Event::InvoiceEvent(a, b, c, m, paid, n) => a == from && b == to && c == amount && m@ == msg
            && !paid && n == id,
        _ => false,
    }
}

/// The invoice book's state as the contracts speak of it.
pub struct InvoiceModel {
    /// Account to its invoices as sender.
    pub by_sender: Map<AccountId, Seq<InvoiceView>>,
    /// Account to its invoices as receiver.
    pub by_receiver: Map<AccountId, Seq<InvoiceView>>,
    /// The number of the last invoice created, if any.
    pub last_id: Option<u64>,
}

/// The invoice pallet's storage and operations.
#[derive(Clone, Debug)]
pub struct Pallet {
    invoice_sender: HashMap<AccountId, Vec<Invoice>>,
    invoice_receiver: HashMap<AccountId, Vec<Invoice>>,
    last_id: Option<u64>,
}

impl View for Pallet {
    type V = InvoiceModel;

    closed spec fn view(&self) -> InvoiceModel {
        InvoiceModel {
            by_sender: self.invoice_sender@.map_values(|v: Vec<Invoice>| views(v@)),
            by_receiver: self.invoice_receiver@.map_values(|v: Vec<Invoice>| views(v@)),
            last_id: self.last_id,
        }
    }
}

impl Pallet {
    /// An empty invoice book.
    pub fn new() -> (r: Pallet)
        ensures
            r@.by_sender.is_empty(),
            r@.by_receiver.is_empty(),
            r@.last_id is None,
    {
        let r = Pallet { invoice_sender: HashMap::new(), invoice_receiver: HashMap::new(), last_id: None };
        proof {
            assert(r@.by_sender =~= Map::empty());
            assert(r@.by_receiver =~= Map::empty());
        }
        r
    }

    /// The account's invoices as sender.
    pub fn invoice_sender(&self, a: AccountId) -> (r: Option<&Vec<Invoice>>)
        ensures
            r matches Some(v) ==> self@.by_sender.contains_key(a) && views(v@) == self@.by_sender[a],
            r is None ==> !self@.by_sender.contains_key(a),
    {
        self.invoice_sender.get(&a)
    }

    /// The account's invoices as receiver.
    pub fn invoice_receiver(&self, a: AccountId) -> (r: Option<&Vec<Invoice>>)
        ensures
            r matches Some(v) ==> self@.by_receiver.contains_key(a) && views(v@)
                == self@.by_receiver[a],
            r is None ==> !self@.by_receiver.contains_key(a),
    {
        self.invoice_receiver.get(&a)
    }

    /// The number of the last invoice created, if any.
    pub fn last_invoice_id(&self) -> (r: Option<u64>)
        ensures
            r == self@.last_id,
    {
        self.last_id
    }

    /// The invoices that the caller has sent.
    pub fn show_all_invoices(&self, caller: AccountId) -> (r: Option<&Vec<Invoice>>)
        ensures
            r matches Some(v) ==> self@.by_sender.contains_key(caller) && views(v@)
                == self@.by_sender[caller],
            r is None ==> !self@.by_sender.contains_key(caller),
    {
        self.invoice_sender(caller)
    }

    /// Creates an invoice of `amount` from `from` to `to`. It becomes the
    /// whole invoice list of `from` as sender and of `to` as receiver, unpaid
    /// and stored under number zero, while the notification carries the next
    /// number of the counter.
    pub fn create_invoice(&mut self, from: AccountId, to: AccountId, amount: Balance, msg: Vec<u8>) -> (r:
        Result<Outcome<Event>, Error>)
        ensures
            from == to ==> r == Err::<Outcome<Event>, Error>(Error::SameAddressError) && final(self)@
                == old(self)@,
            from != to ==> r is Ok,
            r matches Ok(out) ==> {
                let inv = InvoiceView { origin: from, to, amount, status: false, id: 0, msg: msg@ };
                let n = next_invoice_id(old(self)@.last_id);
                &&& final(self)@ == InvoiceModel {
                    by_sender: old(self)@.by_sender.insert(from, seq![inv]),
                    by_receiver: old(self)@.by_receiver.insert(to, seq![inv]),
                    last_id: Some(n),
                }
                &&& out.calls@ == Seq::<LedgerCall>::empty()
                &&& out.events@.len() == 1
                &&& is_invoice_event(out.events@[0], from, to, amount, msg@, n)
            },
    {
        if from == to {
            return Err(Error::SameAddressError);
        }
        let invoice_id: u64 = match self.last_id {
            None => 0,
            Some(n) => n.saturating_add(1),
        };
        let for_sender = Invoice { origin: from, to, amount, status: false, id: 0, msg: msg.clone() };
        let for_receiver = Invoice { origin: from, to, amount, status: false, id: 0, msg: msg.clone() };
        let mut sent: Vec<Invoice> = Vec::new();
        sent.push(for_sender);
        let mut received: Vec<Invoice> = Vec::new();
        received.push(for_receiver);
        let ghost inv = InvoiceView { origin: from, to, amount, status: false, id: 0, msg: msg@ };
        proof {
            assert(views(sent@) =~= seq![inv]);
            assert(views(received@) =~= seq![inv]);
        }
        self.invoice_sender.insert(from, sent);
        self.invoice_receiver.insert(to, received);
        self.last_id = Some(invoice_id);
        let mut out = Outcome::none();
        out.events.push(Event::InvoiceEvent(from, to, amount, msg, false, invoice_id));
        proof {
            assert(self@.by_sender =~= old(self)@.by_sender.insert(from, seq![inv]));
            assert(self@.by_receiver =~= old(self)@.by_receiver.insert(to, seq![inv]));
        }
        Ok(out)
    }

    /// Payment by `from` of its received invoices numbered `id`: every such
    /// unpaid one is marked paid, and the host is asked for a transfer of
    /// nothing from `receiver` to `from`. Where `from` has no such unpaid
    /// invoice, nothing changes.
    pub fn pay_invoices(&mut self, from: AccountId, receiver: AccountId, id: u64) -> (r: Result<
        Outcome<Event>,
        Error,
    >)
        ensures
            from == receiver ==> r == Err::<Outcome<Event>, Error>(Error::SameAddressError)
                && final(self)@ == old(self)@,
            from != receiver ==> (r is Ok <==> old(self)@.by_receiver.contains_key(from)
                && has_unpaid(old(self)@.by_receiver[from], id)),
            r is Err ==> final(self)@ == old(self)@,
            from != receiver && r is Err ==> r == Err::<Outcome<Event>, Error>(Error::AnyError),
            r matches Ok(out) ==> {
                &&& final(self)@ == InvoiceModel {
                    by_receiver: old(self)@.by_receiver.insert(
                        from,
                        mark_all_paid(old(self)@.by_receiver[from], id),
                    ),
                    ..old(self)@
                }
                &&& out.calls@ == seq![LedgerCall::Transfer(receiver, from, 0)]
                &&& out.events@ == seq![Event::Transfer(receiver, from, 0, true)]
            },
    {
        if from == receiver {
            return Err(Error::SameAddressError);
        }
        let mut list = match self.invoice_receiver.remove(&from) {
            Some(list) => list,
            None => {
                proof {
                    assert(self.invoice_receiver@ =~= old(self).invoice_receiver@);
                }
                return Err(Error::AnyError);
            },
        };
        let ghost orig = views(list@);
        assert(orig == old(self)@.by_receiver[from]);
        let mut found = false;
        let mut i: usize = 0;
        while i < list.len()
            invariant
                i <= list@.len(),
                list@.len() == orig.len(),
                forall|j: int| 0 <= j < i ==> (#[trigger] list@[j])@ == mark_paid(orig[j], id),
                forall|j: int| i <= j < list@.len() ==> (#[trigger] list@[j])@ == orig[j],
                found ==> has_unpaid(orig, id),
                !found ==> forall|j: int| 0 <= j < i ==> !(#[trigger] orig[j].id == id && !orig[j].status),
            decreases list@.len() - i,
        {
            if list[i].id == id && !list[i].status {
                let ghost before = list@;
                let mut inv = list.remove(i);
                inv.status = true;
                list.insert(i, inv);
                proof {
                    assert(list@ =~= before.update(i as int, inv));
                    assert(orig[i as int].id == id && !orig[i as int].status);
                }
                found = true;
            }
            i += 1;
        }
        proof {
            assert(views(list@) =~= mark_all_paid(orig, id));
        }
        if !found {
            proof {
                assert(views(list@) =~= orig);
            }
            self.invoice_receiver.insert(from, list);
            proof {
                assert(self@.by_receiver =~= old(self)@.by_receiver);
            }
            return Err(Error::AnyError);
        }
        self.invoice_receiver.insert(from, list);
        let mut out = Outcome::none();
        out.calls.push(LedgerCall::Transfer(receiver, from, 0));
        out.events.push(Event::Transfer(receiver, from, 0, true));
        proof {
            assert(self@.by_receiver =~= old(self)@.by_receiver.insert(
                from,
                mark_all_paid(old(self)@.by_receiver[from], id),
            ));
            assert(self@.by_sender =~= old(self)@.by_sender);
            assert(out.calls@ =~= seq![LedgerCall::Transfer(receiver, from, 0)]);
            assert(out.events@ =~= seq![Event::Transfer(receiver, from, 0, true)]);
        }
        Ok(out)
    }

}

} // verus!
