//! The escrow contract: a sender locks an amount for a receiver; the work
//! deadline and the take-action deadline then decide who may move it.
//!
//! Each contract is stored once, in a list of records; two indices map an
//! account to the record of its contract as sender and as receiver, so the
//! sender's and the receiver's view of one contract cannot diverge. A record
//! stays after settlement, marked settled, and a settled contract moves no
//! funds again.

use vstd::prelude::*;
use std::collections::HashMap;
use crate::deadline::{deadlines, lemma_deadlines_ordered, spec_days_after, DEFAULT_BLOCKS_PER_DAY};
use crate::ledger::{AccountId, Balance, BlockNumber, LedgerCall, LockIdentifier, Outcome};

verus! {

broadcast use vstd::std_specs::hash::group_hash_axioms;

/// When a receiver may settle a contract by itself.
#[derive(Clone, Copy, Debug, PartialEq, Eq)]
pub enum ReceiverWait {
    /// Once the height has passed the take-action deadline.
    ActionDeadline,
    /// Once the height has passed the sum of the work deadline and the
    /// take-action deadline: the longer wait that deployments have relied on.
    SumOfDeadlines,
}

/// The deployment's settings, fixed when the pallet is set up.
#[derive(Clone, Copy, Debug)]
pub struct Config {
    /// How many blocks the ledger produces in a day.
    pub blocks_per_day: u64,
    /// The receiver's waiting rule.
    pub receiver_wait: ReceiverWait,
    /// The tag of the locks that contracts place on senders' funds.
    pub lock_id: LockIdentifier,
}

impl Default for Config {
    /// Six-second blocks, the longer receiver wait, and the lock tag `"example "`.
    fn default() -> (r: Config)
        ensures
            r.blocks_per_day == DEFAULT_BLOCKS_PER_DAY,
            r.receiver_wait == ReceiverWait::SumOfDeadlines,
            r.lock_id == [101u8, 120, 97, 109, 112, 108, 101, 32],
    {
        Config {
            blocks_per_day: DEFAULT_BLOCKS_PER_DAY,
            receiver_wait: ReceiverWait::SumOfDeadlines,
            lock_id: [101u8, 120, 97, 109, 112, 108, 101, 32],
        }
    }
}

/// An agreement that `amount` goes from `origin` to `to`.
#[derive(Clone, Copy, Debug, PartialEq, Eq)]
pub struct Contract {
    /// The sender, whose funds are locked.
    pub origin: AccountId,
    /// The receiver.
    pub to: AccountId,
    pub amount: Balance,
    /// The height at which the contract was signed.
    pub current_block_number: u64,
    /// The work deadline: the receiver is not paid before it.
    pub work_days_in_block_number: u64,
    /// The take-action deadline: the end of the sender's window.
    pub take_action_days_in_block: u64,
}

impl Contract {
    /// Two distinct parties and ordered heights.
    pub open spec fn wf(self) -> bool {
        &&& self.origin != self.to
        &&& self.current_block_number <= self.work_days_in_block_number
        &&& self.work_days_in_block_number <= self.take_action_days_in_block
    }
}

/// Whether a contract has been settled.
#[derive(Clone, Copy, Debug, PartialEq, Eq)]
pub enum Status {
    Active,
    Settled,
}

/// A stored contract with its status.
#[derive(Clone, Copy, Debug, PartialEq, Eq)]
pub struct Record {
    pub contract: Contract,
    pub status: Status,
}

/// Notifications of the escrow's state changes.
#[derive(Clone, Copy, Debug, PartialEq, Eq)]
pub enum Event {
    /// A contract was signed: sender, receiver, amount, creation height, work
    /// deadline, take-action deadline.
    ContractEvent(AccountId, AccountId, Balance, u64, u64, u64),
    /// Funds of the account were locked.
    Locked(AccountId, Balance),
    /// The lock on the account's funds was lifted.
    UnLock(AccountId, Balance),
    /// Funds went from the first account to the second.
    Transfer(AccountId, AccountId, Balance),
}

/// Why an operation was refused; a refused operation changes nothing.
#[derive(Clone, Copy, Debug, PartialEq, Eq)]
pub enum Error {
    /// The caller has no contract to act on.
    NoValueStored,
    /// Sender and receiver are the same account.
    SameAddressError,
}

/// The escrow's state as the contracts speak of it.
pub struct EscrowModel {
    pub config: Config,
    /// Every contract ever signed, by its number.
    pub records: Seq<Record>,
    /// Account to the number of its contract as sender.
    pub by_sender: Map<AccountId, nat>,
    /// Account to the number of its contract as receiver.
    pub by_receiver: Map<AccountId, nat>,
}

/// The contract that `sign_contract` builds.
pub open spec fn spec_contract(
    config: Config,
    from: AccountId,
    to: AccountId,
    amount: Balance,
    work_days: u64,
    take_action_days: u64,
    now: BlockNumber,
) -> Contract {
    let work = spec_days_after(now as int, work_days as int, config.blocks_per_day as int);
    let action = spec_days_after(work, take_action_days as int, config.blocks_per_day as int);
    Contract {
        origin: from,
        to,
        amount,
        current_block_number: now,
        work_days_in_block_number: work as u64,
        take_action_days_in_block: action as u64,
    }
}

/// The sender's take-action window: from the work deadline to the
/// take-action deadline, both included.
pub open spec fn in_take_action_window(c: Contract, now: BlockNumber) -> bool {
    c.work_days_in_block_number <= now <= c.take_action_days_in_block
}

/// Whether the receiver's wait is over.
pub open spec fn receiver_wait_over(c: Contract, now: BlockNumber, wait: ReceiverWait) -> bool {
    match wait {
        ReceiverWait::ActionDeadline => now > c.take_action_days_in_block,
        ReceiverWait::SumOfDeadlines => now > c.work_days_in_block_number
            + c.take_action_days_in_block,
    }
}

/// Whether the work period is over, so that the sender may pay.
pub open spec fn work_period_over(c: Contract, now: BlockNumber) -> bool {
    now >= c.work_days_in_block_number
}

/// The calls and notifications of the sender reclaiming its locked funds.
pub open spec fn unlock_outcome(lock_id: LockIdentifier, c: Contract) -> (Seq<LedgerCall>, Seq<Event>) {
    (seq![LedgerCall::RemoveLock(lock_id, c.origin)], seq![Event::UnLock(c.origin, c.amount)])
}

/// The calls and notifications of paying a contract out to its receiver.
pub open spec fn payout_outcome(lock_id: LockIdentifier, c: Contract) -> (Seq<LedgerCall>, Seq<Event>) {
    (
        seq![LedgerCall::RemoveLock(lock_id, c.origin), LedgerCall::Transfer(c.origin, c.to, c.amount)],
        seq![Event::UnLock(c.origin, c.amount), Event::Transfer(c.origin, c.to, c.amount)],
    )
}

impl EscrowModel {
    pub open spec fn wf(self) -> bool {
        &&& forall|a: AccountId| #[trigger]
            self.by_sender.contains_key(a) ==> {
                &&& self.by_sender[a] < self.records.len()
                &&& self.records[self.by_sender[a] as int].contract.origin == a
            }
        &&& forall|b: AccountId| #[trigger]
            self.by_receiver.contains_key(b) ==> {
                &&& self.by_receiver[b] < self.records.len()
                &&& self.records[self.by_receiver[b] as int].contract.to == b
            }
        &&& forall|i: int| 0 <= i < self.records.len() ==> #[trigger] self.records[i].contract.wf()
    }

    /// The record of the account's contract as sender.
    pub open spec fn sender_record(self, a: AccountId) -> Option<Record> {
        if self.by_sender.contains_key(a) {
            Some(self.records[self.by_sender[a] as int])
        } else {
            None
        }
    }

    /// The record of the account's contract as receiver.
    pub open spec fn receiver_record(self, b: AccountId) -> Option<Record> {
        if self.by_receiver.contains_key(b) {
            Some(self.records[self.by_receiver[b] as int])
        } else {
            None
        }
    }

    pub open spec fn contract_by_sender(self, a: AccountId) -> Option<Contract> {
        match self.sender_record(a) {
            Some(r) => Some(r.contract),
            None => None,
        }
    }

    pub open spec fn contract_by_receiver(self, b: AccountId) -> Option<Contract> {
        match self.receiver_record(b) {
            Some(r) => Some(r.contract),
            None => None,
        }
    }

    /// The state with `c` stored as the sender's and the receiver's contract.
    pub open spec fn add(self, c: Contract) -> EscrowModel {
        let id = self.records.len();
        EscrowModel {
            records: self.records.push(Record { contract: c, status: Status::Active }),
            by_sender: self.by_sender.insert(c.origin, id),
            by_receiver: self.by_receiver.insert(c.to, id),
            ..self
        }
    }

    /// The state with record `id` marked settled.
    pub open spec fn settle(self, id: nat) -> EscrowModel {
        EscrowModel {
            records: self.records.update(
                id as int,
                Record { status: Status::Settled, ..self.records[id as int] },
            ),
            ..self
        }
    }

    /// The state with the record that `id` names, if any, marked settled.
    pub open spec fn settle_if(self, id: Option<nat>) -> EscrowModel {
        match id {
            Some(i) => self.settle(i),
            None => self,
        }
    }

    /// The record that the caller reclaims as sender: its active contract,
    /// when the height lies in the take-action window.
    pub open spec fn reclaimable(self, caller: AccountId, now: BlockNumber) -> Option<nat> {
        if self.by_sender.contains_key(caller) {
            let r = self.records[self.by_sender[caller] as int];
            if r.status == Status::Active && in_take_action_window(r.contract, now) {
                Some(self.by_sender[caller])
            } else {
                None
            }
        } else {
            None
        }
    }

    /// The record that the caller settles as receiver: its active contract,
    /// when its wait is over.
    pub open spec fn claimable(self, caller: AccountId, now: BlockNumber) -> Option<nat> {
        if self.by_receiver.contains_key(caller) {
            let r = self.records[self.by_receiver[caller] as int];
            if r.status == Status::Active && receiver_wait_over(
                r.contract,
                now,
                self.config.receiver_wait,
            ) {
                Some(self.by_receiver[caller])
            } else {
                None
            }
        } else {
            None
        }
    }

    /// The record that the caller pays out as sender: its active contract,
    /// once the work period is over.
    pub open spec fn payable(self, caller: AccountId, now: BlockNumber) -> Option<nat> {
        if self.by_sender.contains_key(caller) {
            let r = self.records[self.by_sender[caller] as int];
            if r.status == Status::Active && work_period_over(r.contract, now) {
                Some(self.by_sender[caller])
            } else {
                None
            }
        } else {
            None
        }
    }

    /// The calls and notifications of `withdraw_funds`: the sender's reclaim,
    /// then the receiver's self-settlement, each where it applies.
    pub open spec fn withdraw_outcome(self, caller: AccountId, now: BlockNumber) -> (
        Seq<LedgerCall>,
        Seq<Event>,
    ) {
        let reclaim = match self.reclaimable(caller, now) {
            Some(i) => unlock_outcome(self.config.lock_id, self.records[i as int].contract),
            None => (Seq::empty(), Seq::empty()),
        };
        let claim = match self.claimable(caller, now) {
            Some(i) => payout_outcome(self.config.lock_id, self.records[i as int].contract),
            None => (Seq::empty(), Seq::empty()),
        };
        (reclaim.0 + claim.0, reclaim.1 + claim.1)
    }

    /// The calls and notifications of `send_funds`.
    pub open spec fn send_outcome(self, caller: AccountId, now: BlockNumber) -> (
        Seq<LedgerCall>,
        Seq<Event>,
    ) {
        match self.payable(caller, now) {
            Some(i) => payout_outcome(self.config.lock_id, self.records[i as int].contract),
            None => (Seq::empty(), Seq::empty()),
        }
    }
}

/// The escrow pallet's storage and operations.
#[derive(Clone, Debug)]
pub struct Pallet {
    config: Config,
    records: Vec<Record>,
    by_sender: HashMap<AccountId, usize>,
    by_receiver: HashMap<AccountId, usize>,
}

impl View for Pallet {
    type V = EscrowModel;

    closed spec fn view(&self) -> EscrowModel {
        EscrowModel {
            config: self.config,
            records: self.records@,
            by_sender: self.by_sender@.map_values(|i: usize| i as nat),
            by_receiver: self.by_receiver@.map_values(|i: usize| i as nat),
        }
    }
}

impl Pallet {
    pub open spec fn wf(&self) -> bool {
        self@.wf()
    }

    /// An escrow with no contracts.
    pub fn new(config: Config) -> (r: Pallet)
        ensures
            r.wf(),
            r@.config == config,
            r@.records.len() == 0,
            r@.by_sender.is_empty(),
            r@.by_receiver.is_empty(),
    {
        Pallet { config, records: Vec::new(), by_sender: HashMap::new(), by_receiver: HashMap::new() }
    }

    /// The deployment's settings.
    pub fn config(&self) -> (r: Config)
        ensures
            r == self@.config,
    {
        self.config
    }

    /// Signs a contract: `amount` of `from`'s funds is locked for `to`, with a
    /// work period of `work_days` days from `now` and a take-action window of
    /// `take_action_days` days after it. The contract becomes `from`'s
    /// contract as sender and `to`'s as receiver, replacing any earlier one
    /// in either place.
    pub fn sign_contract(
        &mut self,
        from: AccountId,
        to: AccountId,
        amount: Balance,
        work_days: u64,
        take_action_days: u64,
        now: BlockNumber,
    ) -> (r: Result<Outcome<Event>, Error>)
        requires
            old(self).wf(),
        ensures
            final(self).wf(),
            from == to ==> r == Err::<Outcome<Event>, Error>(Error::SameAddressError) && final(self)@
                == old(self)@,
            from != to ==> r is Ok,
            r matches Ok(out) ==> {
                let c = spec_contract(
                    old(self)@.config,
                    from,
                    to,
                    amount,
                    work_days,
                    take_action_days,
                    now,
                );
                &&& final(self)@ == old(self)@.add(c)
                &&& out.calls@ == seq![LedgerCall::SetLock(old(self)@.config.lock_id, from, amount)]
                &&& out.events@ == seq![
                    Event::ContractEvent(
                        from,
                        to,
                        amount,
                        now,
                        c.work_days_in_block_number,
                        c.take_action_days_in_block,
                    ),
                    Event::Locked(from, amount),
                ]
            },
    {
        if from == to {
            return Err(Error::SameAddressError);
        }
        let (work, action) = deadlines(now, work_days, take_action_days, self.config.blocks_per_day);
        proof {
            lemma_deadlines_ordered(now, work_days, take_action_days, self.config.blocks_per_day);
        }
        let contract = Contract {
            origin: from,
            to,
            amount,
            current_block_number: now,
            work_days_in_block_number: work,
            take_action_days_in_block: action,
        };
        let id = self.records.len();
        self.records.push(Record { contract, status: Status::Active });
        self.by_sender.insert(from, id);
        self.by_receiver.insert(to, id);
        let mut out = Outcome::none();
        out.calls.push(LedgerCall::SetLock(self.config.lock_id, from, amount));
        out.events.push(Event::ContractEvent(from, to, amount, now, work, action));
        out.events.push(Event::Locked(from, amount));
        proof {
            let m = old(self)@.add(contract);
            assert(self@.records =~= m.records);
            assert(self@.by_sender =~= m.by_sender);
            assert(self@.by_receiver =~= m.by_receiver);
            assert(out.calls@ =~= seq![LedgerCall::SetLock(self.config.lock_id, from, amount)]);
            assert(out.events@ =~= seq![
                Event::ContractEvent(from, to, amount, now, work, action),
                Event::Locked(from, amount),
            ]);
        }
        Ok(out)
    }

    /// Marks record `id` settled.
    fn settle_record(&mut self, id: usize)
        requires
            old(self).wf(),
            id < old(self)@.records.len(),
        ensures
            final(self).wf(),
            final(self)@ == old(self)@.settle(id as nat),
    {
        let rec = self.records[id];
        self.records.set(id, Record { status: Status::Settled, ..rec });
        proof {
            assert(self@.records =~= old(self)@.settle(id as nat).records);
        }
    }

    /// The caller's contract as sender, if any, with its number.
    fn sender_entry(&self, caller: AccountId) -> (r: Option<(usize, Record)>)
        requires
            self.wf(),
        ensures
            r matches Some((id, rec)) ==> {
                &&& self@.by_sender.contains_key(caller)
                &&& self@.by_sender[caller] == id as nat
                &&& id < self@.records.len()
                &&& self@.records[id as int] == rec
            },
            r is None ==> !self@.by_sender.contains_key(caller),
    {
        match self.by_sender.get(&caller) {
            Some(id) => {
                let id = *id;
                assert(self@.by_sender.contains_key(caller) && self@.by_sender[caller] == id as nat);
                Some((id, self.records[id]))
            },
            None => None,
        }
    }

    /// The caller's contract as receiver, if any, with its number.
    fn receiver_entry(&self, caller: AccountId) -> (r: Option<(usize, Record)>)
        requires
            self.wf(),
        ensures
            r matches Some((id, rec)) ==> {
                &&& self@.by_receiver.contains_key(caller)
                &&& self@.by_receiver[caller] == id as nat
                &&& id < self@.records.len()
                &&& self@.records[id as int] == rec
            },
            r is None ==> !self@.by_receiver.contains_key(caller),
    {
        match self.by_receiver.get(&caller) {
            Some(id) => {
                let id = *id;
                assert(self@.by_receiver.contains_key(caller) && self@.by_receiver[caller] == id as nat);
                Some((id, self.records[id]))
            },
            None => None,
        }
    }

    /// Settlement by the caller, in either role. As sender of an active
    /// contract, within the take-action window, it lifts the lock on its own
    /// funds. As receiver of an active contract whose wait is over, it has
    /// the sender's funds unlocked and paid to it. Each settles its contract;
    /// outside those conditions a role does nothing.
    pub fn withdraw_funds(&mut self, caller: AccountId, now: BlockNumber) -> (r: Result<
        Outcome<Event>,
        Error,
    >)
        requires
            old(self).wf(),
        ensures
            final(self).wf(),
            r is Err <==> !old(self)@.by_sender.contains_key(caller)
                && !old(self)@.by_receiver.contains_key(caller),
            r is Err ==> r == Err::<Outcome<Event>, Error>(Error::NoValueStored) && final(self)@
                == old(self)@,
            r matches Ok(out) ==> {
                &&& final(self)@ == old(self)@.settle_if(
                    old(self)@.reclaimable(caller, now),
                ).settle_if(old(self)@.claimable(caller, now))
                &&& (out.calls@, out.events@) == old(self)@.withdraw_outcome(caller, now)
            },
    {
        let as_sender = self.sender_entry(caller);
        let as_receiver = self.receiver_entry(caller);
        if as_sender.is_none() && as_receiver.is_none() {
            return Err(Error::NoValueStored);
        }
        let ghost m = self@;
        let lock_id = self.config.lock_id;
        let mut out = Outcome::none();
        if let Some((id, rec)) = as_sender {
            let c = rec.contract;
            if matches!(rec.status, Status::Active) && c.work_days_in_block_number <= now && now
                <= c.take_action_days_in_block {
                out.calls.push(LedgerCall::RemoveLock(lock_id, c.origin));
                out.events.push(Event::UnLock(c.origin, c.amount));
                self.settle_record(id);
            }
        }
        let ghost mid = self@;
        assert(mid == m.settle_if(m.reclaimable(caller, now)));
        if let Some((id, rec)) = as_receiver {
            let c = rec.contract;
            let wait_over = match self.config.receiver_wait {
                ReceiverWait::ActionDeadline => now > c.take_action_days_in_block,
                ReceiverWait::SumOfDeadlines => now > c.work_days_in_block_number && now
                    - c.work_days_in_block_number > c.take_action_days_in_block,
            };
            if matches!(rec.status, Status::Active) && wait_over {
                proof {
                    if let Some(s) = m.reclaimable(caller, now) {
                        assert(m.records[s as int].contract.origin == caller);
                        assert(m.records[id as int].contract.wf());
                    }
                }
                out.calls.push(LedgerCall::RemoveLock(lock_id, c.origin));
                out.calls.push(LedgerCall::Transfer(c.origin, c.to, c.amount));
                out.events.push(Event::UnLock(c.origin, c.amount));
                out.events.push(Event::Transfer(c.origin, c.to, c.amount));
                self.settle_record(id);
            }
        }
        proof {
            let (calls, events) = m.withdraw_outcome(caller, now);
            assert(out.calls@ =~= calls);
            assert(out.events@ =~= events);
        }
        Ok(out)
    }

    /// Payment by the caller as sender: once the work period of its active
    /// contract is over, the lock on its funds is lifted and the amount paid
    /// to the receiver, and the contract is settled. Before that, or once the
    /// contract is settled, it does nothing.
    pub fn send_funds(&mut self, caller: AccountId, now: BlockNumber) -> (r: Result<
        Outcome<Event>,
        Error,
    >)
        requires
            old(self).wf(),
        ensures
            final(self).wf(),
            r is Err <==> !old(self)@.by_sender.contains_key(caller),
            r is Err ==> r == Err::<Outcome<Event>, Error>(Error::NoValueStored) && final(self)@
                == old(self)@,
            r matches Ok(out) ==> {
                &&& final(self)@ == old(self)@.settle_if(old(self)@.payable(caller, now))
                &&& (out.calls@, out.events@) == old(self)@.send_outcome(caller, now)
            },
    {
        let (id, rec) = match self.sender_entry(caller) {
            Some(entry) => entry,
            None => {
                return Err(Error::NoValueStored);
            },
        };
        let ghost m = self@;
        let lock_id = self.config.lock_id;
        let mut out = Outcome::none();
        let c = rec.contract;
        if matches!(rec.status, Status::Active) && now >= c.work_days_in_block_number {
            out.calls.push(LedgerCall::RemoveLock(lock_id, c.origin));
            out.calls.push(LedgerCall::Transfer(c.origin, c.to, c.amount));
            out.events.push(Event::UnLock(c.origin, c.amount));
            out.events.push(Event::Transfer(c.origin, c.to, c.amount));
            self.settle_record(id);
        }
        proof {
            let (calls, events) = m.send_outcome(caller, now);
            assert(out.calls@ =~= calls);
            assert(out.events@ =~= events);
        }
        Ok(out)
    }

    /// The account's contract as sender, if any.
    pub fn contract_sender(&self, a: AccountId) -> (r: Option<Contract>)
        requires
            self.wf(),
        ensures
            r == self@.contract_by_sender(a),
    {
        match self.sender_entry(a) {
            Some((_, rec)) => Some(rec.contract),
            None => None,
        }
    }

    /// The account's contract as receiver, if any.
    pub fn contract_receiver(&self, b: AccountId) -> (r: Option<Contract>)
        requires
            self.wf(),
        ensures
            r == self@.contract_by_receiver(b),
    {
        match self.receiver_entry(b) {
            Some((_, rec)) => Some(rec.contract),
            None => None,
        }
    }

    /// The record of the account's contract as sender, status included.
    pub fn record_sender(&self, a: AccountId) -> (r: Option<Record>)
        requires
            self.wf(),
        ensures
            r == self@.sender_record(a),
    {
        match self.sender_entry(a) {
            Some((_, rec)) => Some(rec),
            None => None,
        }
    }

    /// The record of the account's contract as receiver, status included.
    pub fn record_receiver(&self, b: AccountId) -> (r: Option<Record>)
        requires
            self.wf(),
        ensures
            r == self@.receiver_record(b),
    {
        match self.receiver_entry(b) {
            Some((_, rec)) => Some(rec),
            None => None,
        }
    }
}


/// Signing stores one contract that both parties see alike: right after
/// `sign_contract(from, to, ..)` the sender's contract and the receiver's
/// contract are one active record, the contract with the computed deadlines,
/// and the store stays well formed.
pub proof fn lemma_sign_stores_one_contract(
    pre: EscrowModel,
    from: AccountId,
    to: AccountId,
    amount: Balance,
    work_days: u64,
    take_action_days: u64,
    now: BlockNumber,
)
    requires
        pre.wf(),
        from != to,
    ensures
        ({
            let c = spec_contract(pre.config, from, to, amount, work_days, take_action_days, now);
            let post = pre.add(c);
            &&& post.wf()
            &&& post.by_sender[from] == post.by_receiver[to]
            &&& post.sender_record(from) == Some(Record { contract: c, status: Status::Active })
            &&& post.receiver_record(to) == post.sender_record(from)
            &&& post.contract_by_sender(from) == Some(c)
            &&& post.contract_by_receiver(to) == Some(c)
        }),
{
    lemma_deadlines_ordered(now, work_days, take_action_days, pre.config.blocks_per_day);
    let c = spec_contract(pre.config, from, to, amount, work_days, take_action_days, now);
    let post = pre.add(c);
    assert(c.wf());
    assert forall|i: int| 0 <= i < post.records.len() implies #[trigger] post.records[i].contract.wf() by {
        if i < pre.records.len() {
            assert(pre.records[i].contract.wf());
        }
    }
}

/// At the work deadline of its active contract, exactly, the sender's
/// `send_funds` pays out: the lock is lifted and the amount goes to the
/// receiver.
pub proof fn lemma_send_at_work_deadline(pre: EscrowModel, caller: AccountId)
    requires
        pre.wf(),
        pre.sender_record(caller) matches Some(r) && r.status == Status::Active,
    ensures
        ({
            let c = pre.contract_by_sender(caller)->Some_0;
            let now = c.work_days_in_block_number;
            &&& pre.payable(caller, now) == Some(pre.by_sender[caller])
            &&& pre.send_outcome(caller, now) == payout_outcome(pre.config.lock_id, c)
            &&& c.origin == caller
        }),
{
}

/// Before the work deadline of its contract, the sender's `send_funds` does
/// nothing: no ledger call, no notification, no change of state.
pub proof fn lemma_send_before_work_deadline(pre: EscrowModel, caller: AccountId, now: BlockNumber)
    requires
        pre.wf(),
        pre.contract_by_sender(caller) matches Some(c) && now < c.work_days_in_block_number,
    ensures
        pre.payable(caller, now) is None,
        pre.settle_if(pre.payable(caller, now)) == pre,
        pre.send_outcome(caller, now) == (Seq::<LedgerCall>::empty(), Seq::<Event>::empty()),
{
}

/// A contract pays out once: after `send_funds` has paid, the contract stays
/// stored, unchanged but settled, and a later `send_funds` by the same
/// sender, at any height, does nothing; nor can its receiver claim it.
pub proof fn lemma_send_pays_once(pre: EscrowModel, caller: AccountId, first: BlockNumber, second: BlockNumber)
    requires
        pre.wf(),
        pre.payable(caller, first) is Some,
    ensures
        ({
            let post = pre.settle_if(pre.payable(caller, first));
            &&& post.wf()
            &&& post.contract_by_sender(caller) == pre.contract_by_sender(caller)
            &&& post.payable(caller, second) is None
            &&& post.send_outcome(caller, second) == (
                Seq::<LedgerCall>::empty(),
                Seq::<Event>::empty(),
            )
            &&& forall|b: AccountId|
                post.by_receiver.contains_key(b) && post.by_receiver[b] == pre.by_sender[caller]
                    ==> #[trigger] post.claimable(b, second) is None
        }),
{
    let id = pre.by_sender[caller];
    let post = pre.settle_if(pre.payable(caller, first));
    assert(post == pre.settle(id));
    assert forall|i: int| 0 <= i < post.records.len() implies #[trigger] post.records[i].contract.wf() by {
        assert(pre.records[i].contract.wf());
    }
}

} // verus!
