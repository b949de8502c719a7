use aft::memory_admission::{
    decode_limit, encode_limit, MemoryAdmissionClass, MemoryAdmissionLedger,
};

#[test]
fn reservation_releases_owned_bytes() {
    let mut ledger = MemoryAdmissionLedger::new(Some(64));
    let reservation = ledger
        .reserve(MemoryAdmissionClass::Search, 48)
        .expect("reservation should fit");

    assert_eq!(ledger.snapshot().charged_bytes, 48);
    ledger.release(reservation);
    assert_eq!(ledger.snapshot().charged_bytes, 0);
    assert_eq!(ledger.snapshot().peak_charged_bytes, 48);
}

#[test]
fn denial_records_request_without_charging() {
    let mut ledger = MemoryAdmissionLedger::new(Some(32));
    let _reservation = ledger
        .reserve(MemoryAdmissionClass::Search, 24)
        .expect("first reservation should fit");

    let error = ledger
        .reserve(MemoryAdmissionClass::Semantic, 16)
        .expect_err("second reservation must exceed the ceiling");
    let snapshot = ledger.snapshot();

    assert_eq!(error.requested_bytes, 16);
    assert_eq!(snapshot.charged_bytes, 24);
    assert_eq!(snapshot.denied_total, 1);
    assert_eq!(snapshot.last_denied, Some(error));
}

#[test]
fn unlimited_mode_preserves_existing_behavior() {
    let mut ledger = MemoryAdmissionLedger::new(None);
    let _reservation = ledger
        .reserve(MemoryAdmissionClass::Callgraph, u64::MAX)
        .expect("disabled ceiling should admit the request");

    let snapshot = ledger.snapshot();
    assert_eq!(snapshot.limit_bytes, None);
    assert_eq!(snapshot.available_bytes, None);
    assert_eq!(snapshot.charged_bytes, u64::MAX);
}

#[test]
fn arithmetic_overflow_is_denied() {
    let mut ledger = MemoryAdmissionLedger::new(None);
    let _reservation = ledger
        .reserve(MemoryAdmissionClass::Search, u64::MAX)
        .expect("first reservation should fit in the counter");

    assert!(ledger.reserve(MemoryAdmissionClass::Search, 1).is_err());
    assert_eq!(ledger.snapshot().charged_bytes, u64::MAX);
}

/// Sixteen workers take turns in an order that a generator picks: each asks once and gives back
/// once.
#[test]
fn concurrent_reservations_never_oversubscribe() {
    const LIMIT: u64 = 64;
    const WORKERS: usize = 16;
    for seed in 1..50u64 {
        let mut ledger = MemoryAdmissionLedger::new(Some(LIMIT));
        let mut waiting = WORKERS;
        let mut held = Vec::new();
        let mut denied = 0;
        let mut state = seed;
        while waiting > 0 || !held.is_empty() {
            state = state.wrapping_mul(6364136223846793005).wrapping_add(1442695040888963407);
            let asks = held.is_empty() || (waiting > 0 && (state >> 33) % 3 != 0);
            if asks {
                waiting -= 1;
                match ledger.reserve(MemoryAdmissionClass::Search, 16) {
                    Ok(reservation) => held.push(reservation),
                    Err(_) => denied += 1,
                }
            } else {
                let place = (state >> 40) as usize % held.len();
                ledger.release(held.remove(place));
            }
            assert!(held.len() <= (LIMIT / 16) as usize);
            assert_eq!(ledger.snapshot().charged_bytes, held.len() as u64 * 16);
        }
        let snapshot = ledger.snapshot();
        assert_eq!(snapshot.charged_bytes, 0);
        assert!(snapshot.peak_charged_bytes <= LIMIT);
        assert_eq!(snapshot.denied_total, denied);
    }
}

#[test]
fn a_lowered_limit_denies_what_it_no_longer_covers() {
    let mut ledger = MemoryAdmissionLedger::new(Some(64));
    let held = ledger.reserve(MemoryAdmissionClass::Semantic, 40).expect("fits");
    ledger.set_limit(Some(32));
    assert_eq!(ledger.snapshot().limit_bytes, Some(32));
    assert_eq!(ledger.snapshot().available_bytes, Some(0));
    let error = ledger
        .reserve_for_root(MemoryAdmissionClass::Callgraph, Some("/root".to_string()), 1)
        .expect_err("nothing is left under the new limit");
    assert_eq!(error.root.as_deref(), Some("/root"));
    assert_eq!(error.requested_bytes, 1);
    ledger.release(held);
    ledger
        .reserve(MemoryAdmissionClass::Callgraph, 32)
        .expect("the whole limit is free again");
}

#[test]
fn limits_survive_their_encoding() {
    assert_eq!(decode_limit(encode_limit(None)), None);
    assert_eq!(decode_limit(encode_limit(Some(1))), Some(1));
    assert_eq!(decode_limit(encode_limit(Some(4096))), Some(4096));
}
