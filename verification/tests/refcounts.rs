use jsrt::refcount::RefLedger;

#[test]
fn clone_three_times_then_drop_all_four() {
    // Wrapping a fresh handle takes the first reference; three clones
    // take three more; dropping all four handles leaves the engine's
    // count for the handle at zero.
    let handle: u64 = 0xABC0;
    let mut ledger = RefLedger::new();
    assert!(!ledger.is_live(handle));

    assert_eq!(ledger.incref(handle), 1); // from_raw
    assert_eq!(ledger.incref(handle), 2); // clone
    assert_eq!(ledger.incref(handle), 3); // clone
    assert_eq!(ledger.incref(handle), 4); // clone
    assert_eq!(ledger.count_of(handle), 4);

    assert_eq!(ledger.decref(handle), 3);
    assert_eq!(ledger.decref(handle), 2);
    assert_eq!(ledger.decref(handle), 1);
    assert_eq!(ledger.decref(handle), 0);

    assert_eq!(ledger.count_of(handle), 0);
    assert!(!ledger.is_live(handle));
}

#[test]
fn counts_are_per_handle() {
    let mut ledger = RefLedger::new();
    ledger.incref(1);
    ledger.incref(2);
    ledger.incref(2);
    assert_eq!(ledger.count_of(1), 1);
    assert_eq!(ledger.count_of(2), 2);
    assert_eq!(ledger.count_of(3), 0);

    assert_eq!(ledger.decref(2), 1);
    assert_eq!(ledger.count_of(1), 1);
    assert_eq!(ledger.count_of(2), 1);

    assert_eq!(ledger.decref(1), 0);
    assert!(!ledger.is_live(1));
    assert!(ledger.is_live(2));
}

#[test]
fn a_released_handle_can_be_adopted_again() {
    let mut ledger = RefLedger::new();
    ledger.incref(9);
    ledger.decref(9);
    assert!(!ledger.is_live(9));
    assert_eq!(ledger.incref(9), 1);
    assert!(ledger.is_live(9));
}
