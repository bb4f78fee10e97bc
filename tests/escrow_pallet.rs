use escrow::contract::{Config, Contract, Error, Event, Pallet, ReceiverWait, Record, Status};
use escrow::ledger::LedgerCall;

const LOCK: [u8; 8] = *b"example ";

fn new_test_ext() -> Pallet {
    Pallet::new(Config::default())
}

fn last_event(events: &[Event]) -> Event {
    *events.last().expect("an event was emitted")
}

#[test]
fn sign_contract_test1() {
    let mut escrow = new_test_ext();
    const ALICE: u64 = 2;
    const BOB: u64 = 2;

    let to = BOB;
    let amount = 4000;
    let work_days = 2;
    let take_action_days = 3;

    let r = escrow.sign_contract(ALICE, to, amount, work_days, take_action_days, 0);
    assert_eq!(r.unwrap_err(), Error::SameAddressError);
    assert_eq!(escrow.contract_sender(ALICE), None);
    assert_eq!(escrow.contract_receiver(BOB), None);
}

#[test]
fn sign_contract_test2() {
    let mut escrow = new_test_ext();
    const ALICE: u64 = 1;
    const BOB: u64 = 2;

    let to = BOB;
    let amount = 4000;
    let work_days = 2;
    let take_action_days = 3;

    assert!(escrow.sign_contract(ALICE, to, amount, work_days, take_action_days, 0).is_ok());
}

#[test]
fn sign_contract_test3() {
    let mut escrow = new_test_ext();
    const ALICE: u64 = 1;
    const BOB: u64 = 2;
    let to = BOB;
    let amount = 4000;
    let work_days: u64 = 5761;
    let take_action_days: u64 = 14401;

    assert!(escrow.sign_contract(ALICE, to, amount, work_days, take_action_days, 0).is_ok());

    let contract = Contract {
        origin: ALICE,
        to: BOB,
        amount,
        current_block_number: 0,
        work_days_in_block_number: 82958400,
        take_action_days_in_block: 290332800,
    };

    assert_eq!(escrow.contract_sender(ALICE), Some(contract));
    assert_eq!(escrow.contract_receiver(BOB), Some(contract));
}

#[test]
fn withdraw_funds_test1() {
    let mut escrow = new_test_ext();
    const ALICE: u64 = 1;
    const BOB: u64 = 2;
    let to = BOB;
    let amount = 4000;
    let work_days: u64 = 5761;
    let take_action_days: u64 = 14401;

    assert!(escrow.sign_contract(ALICE, to, amount, work_days, take_action_days, 0).is_ok());

    let contract = Contract {
        origin: ALICE,
        to: BOB,
        amount,
        current_block_number: 0,
        work_days_in_block_number: 82958400,
        take_action_days_in_block: 290332800,
    };

    let block_number = 82958400;

    assert!(escrow.withdraw_funds(ALICE, block_number).is_ok());

    assert_eq!(escrow.contract_sender(ALICE), Some(contract));
    assert_eq!(escrow.contract_receiver(BOB), Some(contract));
}

#[test]
fn withdraw_funds_test2() {
    let mut escrow = new_test_ext();
    const ALICE: u64 = 1;

    assert_eq!(escrow.withdraw_funds(ALICE, 0).unwrap_err(), Error::NoValueStored);
}

#[test]
fn withdraw_funds_test3() {
    let mut escrow = new_test_ext();
    const ALICE: u64 = 1;
    const BOB: u64 = 2;
    let to = BOB;
    let amount = 4000;
    let work_days: u64 = 5761;
    let take_action_days: u64 = 14401;

    assert!(escrow.sign_contract(ALICE, to, amount, work_days, take_action_days, 0).is_ok());

    let block_number = 82958400;

    let contract = Contract {
        origin: ALICE,
        to: BOB,
        amount,
        current_block_number: 0,
        work_days_in_block_number: 82958400,
        take_action_days_in_block: 290332800,
    };

    let out = escrow.withdraw_funds(ALICE, block_number).unwrap();

    assert_eq!(escrow.contract_sender(ALICE), Some(contract));
    assert_eq!(escrow.contract_receiver(BOB), Some(contract));

    assert_eq!(last_event(&out.events), Event::UnLock(ALICE, amount));
}

#[test]
fn withdraw_funds_test4() {
    let mut escrow = new_test_ext();
    const ALICE: u64 = 1;
    const BOB: u64 = 2;
    let to = BOB;
    let amount = 4000;
    let work_days: u64 = 4;
    let take_action_days: u64 = 5;

    assert!(escrow.sign_contract(ALICE, to, amount, work_days, take_action_days, 0).is_ok());

    let block_number = 82958400;

    let contract = Contract {
        origin: ALICE,
        to: BOB,
        amount,
        current_block_number: 0,
        work_days_in_block_number: 57600,
        take_action_days_in_block: 129600,
    };

    let out = escrow.withdraw_funds(BOB, block_number).unwrap();

    assert_eq!(escrow.contract_sender(ALICE), Some(contract));
    assert_eq!(escrow.contract_receiver(BOB), Some(contract));

    // The receiver is paid: the funds go from the sender to the receiver.
    assert_eq!(last_event(&out.events), Event::Transfer(ALICE, BOB, amount));
}

#[test]
fn send_funds_test1() {
    let mut escrow = new_test_ext();
    const ALICE: u64 = 1;

    assert_eq!(escrow.send_funds(ALICE, 0).unwrap_err(), Error::NoValueStored);
}

#[test]
fn send_funds_test2() {
    let mut escrow = new_test_ext();
    const ALICE: u64 = 1;
    const BOB: u64 = 2;
    let to = BOB;
    let amount = 4000;
    let work_days: u64 = 5761;
    let take_action_days: u64 = 14401;

    assert!(escrow.sign_contract(ALICE, to, amount, work_days, take_action_days, 0).is_ok());

    let contract = Contract {
        origin: ALICE,
        to: BOB,
        amount,
        current_block_number: 0,
        work_days_in_block_number: 82958400,
        take_action_days_in_block: 290332800,
    };

    let block_number = 82958400;

    let out = escrow.send_funds(ALICE, block_number).unwrap();

    assert_eq!(escrow.contract_sender(ALICE), Some(contract));

    assert_eq!(last_event(&out.events), Event::Transfer(ALICE, BOB, amount));
}

#[test]
fn same_address_refused_for_every_amount_and_day_count() {
    let mut escrow = new_test_ext();
    for &(amount, work_days, take_action_days) in
        &[(0u64, 0u64, 0u64), (1, 1, 1), (4000, 5761, 14401), (u64::MAX, u64::MAX, u64::MAX)]
    {
        let r = escrow.sign_contract(7, 7, amount, work_days, take_action_days, 12);
        assert_eq!(r.unwrap_err(), Error::SameAddressError);
    }
    assert_eq!(escrow.contract_sender(7), None);
    assert_eq!(escrow.contract_receiver(7), None);
}

#[test]
fn sign_stores_the_same_contract_on_both_sides_and_locks() {
    let mut escrow = Pallet::new(Config {
        blocks_per_day: 10,
        receiver_wait: ReceiverWait::ActionDeadline,
        lock_id: LOCK,
    });
    let out = escrow.sign_contract(1, 2, 500, 3, 4, 0).unwrap();
    let by_sender = escrow.contract_sender(1).unwrap();
    assert_eq!(escrow.contract_receiver(2), Some(by_sender));
    assert_eq!(by_sender.work_days_in_block_number, 30);
    assert_eq!(by_sender.take_action_days_in_block, 70);
    assert_eq!(out.calls, vec![LedgerCall::SetLock(LOCK, 1, 500)]);
    assert_eq!(
        out.events,
        vec![Event::ContractEvent(1, 2, 500, 0, 30, 70), Event::Locked(1, 500)]
    );
    assert_eq!(
        escrow.record_sender(1),
        Some(Record { contract: by_sender, status: Status::Active })
    );
}

#[test]
fn deadlines_of_the_six_second_scenario() {
    let mut escrow = new_test_ext();
    let out = escrow.sign_contract(1, 2, 4000, 5761, 14401, 0).unwrap();
    assert_eq!(
        out.events[0],
        Event::ContractEvent(1, 2, 4000, 0, 82_958_400, 290_332_800)
    );
}

#[test]
fn deadlines_count_from_the_signing_height() {
    let mut escrow = new_test_ext();
    escrow.sign_contract(1, 2, 4000, 1, 2, 1000).unwrap();
    let c = escrow.contract_sender(1).unwrap();
    assert_eq!(c.current_block_number, 1000);
    assert_eq!(c.work_days_in_block_number, 1000 + 14400);
    assert_eq!(c.take_action_days_in_block, 1000 + 14400 + 2 * 14400);
}

#[test]
fn deadlines_saturate_at_the_largest_height() {
    let mut escrow = new_test_ext();
    escrow.sign_contract(1, 2, 4000, u64::MAX / 2, 1, 5).unwrap();
    let c = escrow.contract_sender(1).unwrap();
    assert_eq!(c.work_days_in_block_number, u64::MAX);
    assert_eq!(c.take_action_days_in_block, u64::MAX);
    escrow.sign_contract(3, 4, 4000, 0, u64::MAX, u64::MAX - 1).unwrap();
    let d = escrow.contract_sender(3).unwrap();
    assert_eq!(d.work_days_in_block_number, u64::MAX - 1);
    assert_eq!(d.take_action_days_in_block, u64::MAX);
}

#[test]
fn receiver_waits_past_the_sum_of_the_deadlines() {
    let mut escrow = new_test_ext();
    escrow.sign_contract(1, 2, 4000, 5761, 14401, 0).unwrap();
    let out = escrow.withdraw_funds(2, 373_291_200).unwrap();
    assert!(out.calls.is_empty());
    assert!(out.events.is_empty());
    let out = escrow.withdraw_funds(2, 373_291_201).unwrap();
    assert_eq!(
        out.calls,
        vec![LedgerCall::RemoveLock(LOCK, 1), LedgerCall::Transfer(1, 2, 4000)]
    );
    assert_eq!(out.events, vec![Event::UnLock(1, 4000), Event::Transfer(1, 2, 4000)]);
}

#[test]
fn receiver_waits_past_the_action_deadline_under_the_single_wait() {
    let mut escrow = Pallet::new(Config {
        blocks_per_day: 14400,
        receiver_wait: ReceiverWait::ActionDeadline,
        lock_id: LOCK,
    });
    escrow.sign_contract(1, 2, 4000, 5761, 14401, 0).unwrap();
    let out = escrow.withdraw_funds(2, 290_332_800).unwrap();
    assert!(out.calls.is_empty());
    let out = escrow.withdraw_funds(2, 290_332_801).unwrap();
    assert_eq!(out.events, vec![Event::UnLock(1, 4000), Event::Transfer(1, 2, 4000)]);
}

#[test]
fn send_at_the_work_deadline_pays_the_receiver() {
    let mut escrow = new_test_ext();
    escrow.sign_contract(1, 2, 4000, 5761, 14401, 0).unwrap();
    let out = escrow.send_funds(1, 82_958_400).unwrap();
    assert_eq!(
        out.calls,
        vec![LedgerCall::RemoveLock(LOCK, 1), LedgerCall::Transfer(1, 2, 4000)]
    );
    assert_eq!(out.events, vec![Event::UnLock(1, 4000), Event::Transfer(1, 2, 4000)]);
}

#[test]
fn send_before_the_work_deadline_does_nothing() {
    let mut escrow = new_test_ext();
    escrow.sign_contract(1, 2, 4000, 5761, 14401, 0).unwrap();
    let out = escrow.send_funds(1, 82_958_399).unwrap();
    assert!(out.calls.is_empty());
    assert!(out.events.is_empty());
    assert_eq!(escrow.record_sender(1).unwrap().status, Status::Active);
}

#[test]
fn withdraw_by_a_stranger_is_refused() {
    let mut escrow = new_test_ext();
    escrow.sign_contract(1, 2, 4000, 5761, 14401, 0).unwrap();
    assert_eq!(escrow.withdraw_funds(3, 400_000_000).unwrap_err(), Error::NoValueStored);
    assert_eq!(escrow.send_funds(2, 400_000_000).unwrap_err(), Error::NoValueStored);
}

#[test]
fn second_send_after_payment_does_nothing() {
    let mut escrow = new_test_ext();
    escrow.sign_contract(1, 2, 4000, 5761, 14401, 0).unwrap();
    let first = escrow.send_funds(1, 82_958_400).unwrap();
    assert_eq!(first.calls.len(), 2);
    let second = escrow.send_funds(1, 82_958_401).unwrap();
    assert!(second.calls.is_empty());
    assert!(second.events.is_empty());
    let rec = escrow.record_sender(1).unwrap();
    assert_eq!(rec.status, Status::Settled);
    assert_eq!(rec.contract.amount, 4000);
    // Nor can the receiver claim the paid contract.
    let claim = escrow.withdraw_funds(2, u64::MAX).unwrap();
    assert!(claim.calls.is_empty());
}

#[test]
fn sender_reclaims_only_within_the_take_action_window() {
    let mut escrow = new_test_ext();
    escrow.sign_contract(1, 2, 4000, 1, 1, 0).unwrap();
    assert!(escrow.withdraw_funds(1, 14_399).unwrap().calls.is_empty());
    assert!(escrow.withdraw_funds(1, 28_801).unwrap().calls.is_empty());
    let out = escrow.withdraw_funds(1, 28_800).unwrap();
    assert_eq!(out.calls, vec![LedgerCall::RemoveLock(LOCK, 1)]);
    assert_eq!(out.events, vec![Event::UnLock(1, 4000)]);
    assert_eq!(escrow.record_receiver(2).unwrap().status, Status::Settled);
    // The reclaimed contract is closed to the receiver.
    assert!(escrow.withdraw_funds(2, u64::MAX).unwrap().calls.is_empty());
}

#[test]
fn one_call_settles_both_roles() {
    let mut escrow = new_test_ext();
    // Account 2 receives from 1 and sends to 3.
    escrow.sign_contract(1, 2, 100, 0, 0, 0).unwrap();
    escrow.sign_contract(2, 3, 50, 10, 0, 0).unwrap();
    let out = escrow.withdraw_funds(2, 144_000).unwrap();
    assert_eq!(
        out.events,
        vec![Event::UnLock(2, 50), Event::UnLock(1, 100), Event::Transfer(1, 2, 100)]
    );
    assert_eq!(
        out.calls,
        vec![
            LedgerCall::RemoveLock(LOCK, 2),
            LedgerCall::RemoveLock(LOCK, 1),
            LedgerCall::Transfer(1, 2, 100),
        ]
    );
}

#[test]
fn a_new_contract_replaces_the_senders_earlier_one() {
    let mut escrow = new_test_ext();
    escrow.sign_contract(1, 2, 100, 1, 1, 0).unwrap();
    let first = escrow.contract_sender(1).unwrap();
    escrow.sign_contract(1, 3, 200, 2, 2, 0).unwrap();
    let second = escrow.contract_sender(1).unwrap();
    assert_eq!(second.to, 3);
    assert_eq!(escrow.contract_receiver(3), Some(second));
    assert_eq!(escrow.contract_receiver(2), Some(first));
}
