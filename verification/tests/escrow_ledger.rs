use pallet_escrow::{Error, Escrow, Event, EventLog, Pallet};

const ALICE: u64 = 1;
const BOB: u64 = 2;
const CHARLIE: u64 = 3;

fn last_event(log: &EventLog) -> Event {
    *log.events().last().expect("Event expected")
}

#[test]
fn cannot_create_escrow_with_zero_amount() {
    let mut ledger = Pallet::new();
    let mut log = EventLog::new();
    // Alice starts a simple escrow contract, but with zero amount the
    // escrow can't be created.
    let result = ledger.start_escrow(&mut log, ALICE, 0, BOB, 10);
    assert_eq!(result, Err(Error::ZeroAmount));
    assert_eq!(ledger.escrow_count(), 0);
    assert!(log.events().is_empty());
}

#[test]
fn basic_escrow_example() {
    let mut ledger = Pallet::new();
    let mut log = EventLog::new();
    let escrow_id = 0;

    // Alice starts a simple escrow contract at block 10.
    assert_eq!(ledger.start_escrow(&mut log, ALICE, 100, BOB, 10), Ok(escrow_id));
    assert_eq!(
        last_event(&log),
        Event::EscrowCreated { id: escrow_id, amount: 100, initiator: ALICE, recipient: BOB, created_at: 10 }
    );

    // Charlie attempts to withdraw at block 13 and can't.
    assert_eq!(
        ledger.withdraw_escrow(&mut log, CHARLIE, 100, escrow_id, 13),
        Err(Error::Unauthorized)
    );

    // Bob attempts to withdraw and can!
    assert_eq!(ledger.withdraw_escrow(&mut log, BOB, 100, escrow_id, 13), Ok(()));
    assert_eq!(ledger.escrow(escrow_id), None);
    assert_eq!(
        last_event(&log),
        Event::EscrowWithdrawn {
            id: escrow_id,
            amount: 100,
            recipient: BOB,
            escrow_created_at: 10,
            withdrawn_at: 13
        }
    );
}

#[test]
fn timelocked_escrow_example() {
    let mut ledger = Pallet::new();
    let mut log = EventLog::new();
    let escrow_id = 0;

    // Alice starts a simple escrow contract at block 10.
    assert_eq!(ledger.start_escrow(&mut log, ALICE, 100, BOB, 10), Ok(escrow_id));
    assert_eq!(
        last_event(&log),
        Event::EscrowCreated { id: escrow_id, amount: 100, initiator: ALICE, recipient: BOB, created_at: 10 }
    );

    // Bob attempts to withdraw right away and can't (too early).
    assert_eq!(
        ledger.withdraw_escrow(&mut log, BOB, 100, escrow_id, 10),
        Err(Error::TooEarly)
    );

    // At block 13 Bob attempts to withdraw and can.
    assert_eq!(ledger.withdraw_escrow(&mut log, BOB, 100, escrow_id, 13), Ok(()));
    assert_eq!(
        last_event(&log),
        Event::EscrowWithdrawn {
            id: escrow_id,
            amount: 100,
            recipient: BOB,
            escrow_created_at: 10,
            withdrawn_at: 13
        }
    );
}

#[test]
fn invalid_escrow_id() {
    let mut ledger = Pallet::new();
    let mut log = EventLog::new();

    // Alice starts a simple escrow contract at block 10.
    assert_eq!(ledger.start_escrow(&mut log, ALICE, 100, BOB, 10), Ok(0));
    assert_eq!(
        last_event(&log),
        Event::EscrowCreated { id: 0, amount: 100, initiator: ALICE, recipient: BOB, created_at: 10 }
    );

    // Bob attempts to withdraw and can't (wrong escrow_id).
    assert_eq!(ledger.withdraw_escrow(&mut log, BOB, 100, 1, 10), Err(Error::NotFound));
}

#[test]
fn storage_updated_correctly_with_withdraw_escrow() {
    let mut ledger = Pallet::new();
    let mut log = EventLog::new();

    // Alice starts a simple escrow contract at block 10.
    assert_eq!(ledger.start_escrow(&mut log, ALICE, 100, BOB, 10), Ok(0));
    assert_eq!(
        last_event(&log),
        Event::EscrowCreated { id: 0, amount: 100, initiator: ALICE, recipient: BOB, created_at: 10 }
    );

    // Bob withdraws 20 tokens at block 13 and succeeds.
    assert_eq!(ledger.withdraw_escrow(&mut log, BOB, 20, 0, 13), Ok(()));
    assert_eq!(
        ledger.escrow(0),
        Some(Escrow { amount: 80, recipient: BOB, created_at: 10 })
    );
    assert_eq!(
        last_event(&log),
        Event::EscrowWithdrawn { id: 0, amount: 20, recipient: BOB, escrow_created_at: 10, withdrawn_at: 13 }
    );

    // Bob attempts to withdraw 100 tokens, but the escrow has 80 only, so
    // it fails and the record is untouched.
    assert_eq!(ledger.withdraw_escrow(&mut log, BOB, 100, 0, 13), Err(Error::InsufficientEscrow));
    assert_eq!(
        ledger.escrow(0),
        Some(Escrow { amount: 80, recipient: BOB, created_at: 10 })
    );

    // Bob withdraws the remaining 80 tokens; this also removes the escrow.
    assert_eq!(ledger.withdraw_escrow(&mut log, BOB, 80, 0, 13), Ok(()));
    assert_eq!(ledger.escrow(0), None);
    assert_eq!(
        last_event(&log),
        Event::EscrowWithdrawn { id: 0, amount: 80, recipient: BOB, escrow_created_at: 10, withdrawn_at: 13 }
    );

    // Bob attempts to withdraw 20 tokens from an escrow which no longer
    // exists.
    assert_eq!(ledger.withdraw_escrow(&mut log, BOB, 20, 0, 13), Err(Error::NotFound));
}

#[test]
fn withdraw_from_missing_id() {
    let mut ledger = Pallet::new();
    let mut log = EventLog::new();
    assert_eq!(ledger.start_escrow(&mut log, ALICE, 100, BOB, 10), Ok(0));
    assert_eq!(ledger.withdraw_escrow(&mut log, BOB, 100, 5, 13), Err(Error::NotFound));
}

#[test]
fn ids_strictly_increase() {
    let mut ledger = Pallet::new();
    let mut log = EventLog::new();
    assert_eq!(ledger.start_escrow(&mut log, ALICE, 10, BOB, 1), Ok(0));
    assert_eq!(ledger.start_escrow(&mut log, ALICE, 20, CHARLIE, 2), Ok(1));
    // A failing creation issues no id.
    assert_eq!(ledger.start_escrow(&mut log, ALICE, 0, BOB, 3), Err(Error::ZeroAmount));
    assert_eq!(ledger.start_escrow(&mut log, BOB, 30, ALICE, 4), Ok(2));
    assert_eq!(ledger.escrow_count(), 3);
}

#[test]
fn timelock_boundary() {
    let mut ledger = Pallet::new();
    let mut log = EventLog::new();
    assert_eq!(ledger.start_escrow(&mut log, ALICE, 100, BOB, 10), Ok(0));
    // Still locked one tick before the minimum holding period has passed.
    assert_eq!(ledger.withdraw_escrow(&mut log, BOB, 100, 0, 11), Err(Error::TooEarly));
    assert_eq!(
        ledger.escrow(0),
        Some(Escrow { amount: 100, recipient: BOB, created_at: 10 })
    );
    // Open exactly at the end of the holding period.
    assert_eq!(ledger.withdraw_escrow(&mut log, BOB, 100, 0, 12), Ok(()));
    assert_eq!(ledger.escrow(0), None);
}

#[test]
fn timelock_holds_at_the_end_of_time() {
    let mut ledger = Pallet::new();
    let mut log = EventLog::new();
    // A record created at the last representable instant can never pass
    // its holding period.
    assert_eq!(ledger.start_escrow(&mut log, ALICE, 100, BOB, u64::MAX), Ok(0));
    assert_eq!(ledger.withdraw_escrow(&mut log, BOB, 100, 0, u64::MAX), Err(Error::TooEarly));
}

#[test]
fn too_early_wins_over_amount_and_authority() {
    let mut ledger = Pallet::new();
    let mut log = EventLog::new();
    assert_eq!(ledger.start_escrow(&mut log, ALICE, 100, BOB, 10), Ok(0));
    // Charlie asks for more than the record holds, before the holding
    // period is over: the timelock answers first.
    assert_eq!(ledger.withdraw_escrow(&mut log, CHARLIE, 300, 0, 11), Err(Error::TooEarly));
}

#[test]
fn not_found_wins_over_authority() {
    let mut ledger = Pallet::new();
    let mut log = EventLog::new();
    assert_eq!(ledger.start_escrow(&mut log, ALICE, 100, BOB, 10), Ok(0));
    // A wrong caller on a nonexistent id is told about the id.
    assert_eq!(ledger.withdraw_escrow(&mut log, CHARLIE, 100, 7, 13), Err(Error::NotFound));
}

#[test]
fn self_escrow_is_allowed() {
    let mut ledger = Pallet::new();
    let mut log = EventLog::new();
    assert_eq!(ledger.start_escrow(&mut log, ALICE, 50, ALICE, 5), Ok(0));
    assert_eq!(ledger.withdraw_escrow(&mut log, ALICE, 50, 0, 7), Ok(()));
    assert_eq!(ledger.escrow(0), None);
}

#[test]
fn unauthorized_leaves_record_intact() {
    let mut ledger = Pallet::new();
    let mut log = EventLog::new();
    assert_eq!(ledger.start_escrow(&mut log, ALICE, 100, BOB, 10), Ok(0));
    assert_eq!(ledger.withdraw_escrow(&mut log, CHARLIE, 40, 0, 13), Err(Error::Unauthorized));
    assert_eq!(
        ledger.escrow(0),
        Some(Escrow { amount: 100, recipient: BOB, created_at: 10 })
    );
    assert_eq!(ledger.escrow_count(), 1);
}

#[test]
fn failing_calls_change_nothing() {
    let mut ledger = Pallet::new();
    let mut log = EventLog::new();
    assert_eq!(ledger.start_escrow(&mut log, ALICE, 100, BOB, 10), Ok(0));
    let events_so_far = log.events().len();

    // One failure of every reachable kind.
    assert_eq!(ledger.start_escrow(&mut log, ALICE, 0, BOB, 11), Err(Error::ZeroAmount));
    assert_eq!(ledger.withdraw_escrow(&mut log, BOB, 100, 9, 13), Err(Error::NotFound));
    assert_eq!(ledger.withdraw_escrow(&mut log, BOB, 100, 0, 11), Err(Error::TooEarly));
    assert_eq!(ledger.withdraw_escrow(&mut log, BOB, 101, 0, 13), Err(Error::InsufficientEscrow));
    assert_eq!(ledger.withdraw_escrow(&mut log, CHARLIE, 100, 0, 13), Err(Error::Unauthorized));

    assert_eq!(ledger.escrow_count(), 1);
    assert_eq!(
        ledger.escrow(0),
        Some(Escrow { amount: 100, recipient: BOB, created_at: 10 })
    );
    assert_eq!(log.events().len(), events_so_far);
}

#[test]
fn event_log_records_every_success_in_order() {
    let mut ledger = Pallet::new();
    let mut log = EventLog::new();
    assert_eq!(ledger.start_escrow(&mut log, ALICE, 100, BOB, 10), Ok(0));
    assert_eq!(ledger.start_escrow(&mut log, BOB, 60, CHARLIE, 11), Ok(1));
    assert_eq!(ledger.withdraw_escrow(&mut log, BOB, 30, 0, 13), Ok(()));
    assert_eq!(
        log.events().as_slice(),
        &[
            Event::EscrowCreated { id: 0, amount: 100, initiator: ALICE, recipient: BOB, created_at: 10 },
            Event::EscrowCreated { id: 1, amount: 60, initiator: BOB, recipient: CHARLIE, created_at: 11 },
            Event::EscrowWithdrawn { id: 0, amount: 30, recipient: BOB, escrow_created_at: 10, withdrawn_at: 13 },
        ]
    );
}

#[test]
fn restore_rebuilds_a_well_formed_store() {
    let entries = vec![
        (0, Escrow { amount: 50, recipient: BOB, created_at: 4 }),
        (3, Escrow { amount: 7, recipient: CHARLIE, created_at: 9 }),
    ];
    let mut ledger = Pallet::restore(10, entries).expect("well-formed parts");
    assert_eq!(ledger.escrow_count(), 10);
    assert_eq!(ledger.escrow(0), Some(Escrow { amount: 50, recipient: BOB, created_at: 4 }));
    assert_eq!(ledger.escrow(3), Some(Escrow { amount: 7, recipient: CHARLIE, created_at: 9 }));
    assert_eq!(ledger.escrow(1), None);
    // The rebuilt ledger continues where the counter left off.
    let mut log = EventLog::new();
    assert_eq!(ledger.start_escrow(&mut log, ALICE, 30, BOB, 20), Ok(10));
}

#[test]
fn restore_refuses_ill_formed_parts() {
    let rec = Escrow { amount: 5, recipient: BOB, created_at: 1 };
    let zero = Escrow { amount: 0, recipient: BOB, created_at: 1 };
    // A record with nothing in it.
    assert!(Pallet::restore(4, vec![(2, zero)]).is_none());
    // An id the counter has not yet passed.
    assert!(Pallet::restore(4, vec![(4, rec)]).is_none());
    // An id listed twice.
    assert!(Pallet::restore(4, vec![(1, rec), (1, rec)]).is_none());
}

#[test]
fn exhausted_counter_reports_overflow() {
    let mut ledger = Pallet::restore(u64::MAX, vec![]).expect("well-formed parts");
    let mut log = EventLog::new();
    assert_eq!(ledger.start_escrow(&mut log, ALICE, 100, BOB, 10), Err(Error::CounterOverflow));
    assert_eq!(ledger.escrow_count(), u64::MAX);
    assert!(log.events().is_empty());
}
