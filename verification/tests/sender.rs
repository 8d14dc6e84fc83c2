use alloy::primitives::{Address, Bytes, U256};
use bulkmail::clock::{utc_now, UtcTime};
use bulkmail::gas_price::{INITIAL_BASE_FEE, MAX_PRIORITY_FEE};
use bulkmail::message::Message;
use bulkmail::sender::{percent_change, Outcome, Sender, TxFees};
use bulkmail::Error;

fn msg(priority: u32, deadline: Option<UtcTime>) -> Message {
    Message::new(Some(Address::ZERO), 21_000, U256::from(5), Bytes::default(), priority, deadline)
}

#[test]
fn percent_change_values() {
    assert_eq!(percent_change(100, 20), 20);
    assert_eq!(percent_change(1_000_000_000, 20), 200_000_000);
    assert_eq!(percent_change(7, 20), 1);
    assert_eq!(percent_change(4, 20), 0);
    assert_eq!(percent_change(50, 200), 100);
}

#[test]
fn sender_queue_order() {
    let mut s = Sender::new(1, 0);
    s.add_message(msg(1, None));
    s.add_message(msg(5, None));
    s.add_message(msg(3, None));
    assert_eq!(s.queue_len(), 3);
    assert_eq!(s.next_message().unwrap().priority, 5);
    assert_eq!(s.next_message().unwrap().priority, 3);
    assert_eq!(s.next_message().unwrap().priority, 1);
    assert!(s.next_message().is_none());
}

#[test]
fn process_assigns_nonce_and_fees() {
    let mut s = Sender::new(10, 42);
    let req = s.process_message(msg(1, None)).unwrap();
    assert_eq!(req.nonce(), 42);
    assert_eq!(req.base_fee(), INITIAL_BASE_FEE);
    // 1 Gwei * 2 (medium congestion) * priority 1
    assert_eq!(req.priority_fee(), 2_000_000_000);
    assert_eq!(req.replacement_count(), 0);
    let req2 = s.process_message(msg(1, None)).unwrap();
    assert_eq!(req2.nonce(), 43);
    let fees = s.prepare_transaction(&req).unwrap();
    assert_eq!(
        fees,
        TxFees {
            chain_id: 10,
            nonce: 42,
            gas_limit: 21_000,
            max_fee_per_gas: 4_000_000_000,
            max_priority_fee_per_gas: 2_000_000_000,
        }
    );
}

#[test]
fn process_rejects_expired() {
    let mut s = Sender::new(1, 0);
    let r = s.process_message(msg(1, Some(UtcTime::new(0, 0))));
    assert!(matches!(r, Err(Error::MessageExpired)));
    assert_eq!(s.nonce_manager().in_flight_count(), 0);
}

#[test]
fn confirmation_updates_trackers() {
    let mut s = Sender::new(1, 0);
    let req = s.process_message(msg(1, None)).unwrap();
    assert!(s.prepare_transaction(&req).is_ok());
    s.record_pending((0, 1), req);
    assert!(s.is_pending((0, 1)));
    assert_eq!(s.pending_count(), 1);
    match s.handle_transaction_receipt((0, 1), true) {
        Outcome::Confirmed { nonce } => assert_eq!(nonce, 0),
        _ => panic!("expected a confirmation"),
    }
    assert_eq!(s.pending_count(), 0);
    assert_eq!(s.gas_manager().confirmation_times().len(), 1);
    // the base priority fee is averaged with the 2 Gwei the transaction paid
    assert_eq!(s.gas_manager().priority_fee(), 1_500_000_000);
    // the confirmed nonce is 0, not ahead of the current nonce 0
    assert_eq!(s.nonce_manager().current_nonce(), 0);
    assert!(matches!(s.handle_transaction_receipt((0, 1), true), Outcome::Untracked));
}

#[test]
fn drop_resends_with_same_nonce() {
    let mut s = Sender::new(1, 7);
    let req = s.process_message(msg(1, None)).unwrap();
    s.record_pending((9, 9), req);
    let replacement = match s.handle_transaction_dropped((9, 9)) {
        Outcome::Resend(r) => r,
        _ => panic!("expected a replacement"),
    };
    assert_eq!(replacement.nonce(), 7);
    assert_eq!(replacement.replacement_count(), 1);
    assert_eq!(replacement.msg().retry_count, 1);
    // the replacement fee is 20% above the dropped one
    assert_eq!(replacement.priority_fee(), 2_400_000_000);
    assert!(replacement.priority_fee() > 2_000_000_000);
    assert!(!s.is_pending((9, 9)));
    assert!(matches!(s.handle_transaction_dropped((9, 9)), Outcome::Untracked));
}

#[test]
fn failed_receipt_counts_as_drop_until_retries_run_out() {
    let mut s = Sender::new(1, 0);
    let mut req = s.process_message(msg(1, None)).unwrap();
    let mut outcomes = Vec::new();
    for i in 0..3u128 {
        assert!(s.prepare_transaction(&req).is_ok());
        s.record_pending((i, i), req);
        match s.handle_transaction_receipt((i, i), false) {
            Outcome::Resend(r) => {
                outcomes.push(r.replacement_count());
                req = r;
            }
            Outcome::Abandoned(m) => {
                assert_eq!(m.retry_count, 3);
                outcomes.push(99);
                break;
            }
            _ => panic!("unexpected outcome"),
        }
    }
    assert_eq!(outcomes, vec![1, 2, 99]);
    // the abandoned message's nonce is taken out of flight
    assert!(!s.nonce_manager().is_in_flight(0));
    assert_eq!(s.nonce_manager().first_free_nonce(), Some(0));
}

#[test]
fn sync_nonce_moves_forward() {
    let mut s = Sender::new(1, 3);
    let _ = s.process_message(msg(1, None)).unwrap();
    s.sync_nonce(10);
    assert_eq!(s.nonce_manager().current_nonce(), 10);
    assert_eq!(s.nonce_manager().in_flight_count(), 0);
    s.sync_nonce(4);
    assert_eq!(s.nonce_manager().current_nonce(), 10);
    assert_eq!(s.chain_id(), 1);
}

#[test]
fn replacement_fee_rises() {
    let mut s = Sender::new(1, 0);
    let mut req = s.process_message(msg(1, None)).unwrap();
    let mut fees = vec![req.priority_fee()];
    for i in 0..2u128 {
        s.record_pending((7, i), req);
        req = match s.handle_transaction_dropped((7, i)) {
            Outcome::Resend(r) => r,
            _ => panic!("expected a replacement"),
        };
        fees.push(req.priority_fee());
    }
    assert_eq!(fees, vec![2_000_000_000, 2_400_000_000, 2_880_000_000]);
}

#[test]
fn near_deadline_message_gets_top_fee() {
    let mut s = Sender::new(1, 0);
    let now = UtcTime::new(1_000, 0);
    let urgent = msg(1, Some(UtcTime::new(1_010, 0)));
    let req = s.process_message_at(urgent, now, now, 0).unwrap();
    assert_eq!(req.priority_fee(), MAX_PRIORITY_FEE);
    // ten block times away: boost 10, priority 11, fee for capped priority 10
    let later = msg(1, Some(UtcTime::new(1_100, 0)));
    let req = s.process_message_at(later, now, now, 0).unwrap();
    assert_eq!(req.priority_fee(), 20_000_000_000);
    assert_eq!(req.nonce(), 1);
    // with the real clock
    let real = utc_now();
    let soon = msg(1, Some(UtcTime::new(real.secs + 10, 0)));
    assert_eq!(s.process_message(soon).unwrap().priority_fee(), MAX_PRIORITY_FEE);
}

#[test]
fn process_at_refuses_exactly_expired() {
    let mut s = Sender::new(1, 0);
    let now = UtcTime::new(1_000, 0);
    assert!(matches!(
        s.process_message_at(msg(1, Some(UtcTime::new(999, 999_999_999))), now, now, 0),
        Err(Error::MessageExpired)
    ));
    assert_eq!(s.nonce_manager().in_flight_count(), 0);
    // a deadline equal to the time of the check has not expired
    assert!(s.process_message_at(msg(1, Some(UtcTime::new(1_000, 0))), now, now, 0).is_ok());
}

#[test]
fn replacement_fee_rises_past_the_cap() {
    let mut s = Sender::new(1, 0);
    let now = UtcTime::new(1_000, 0);
    let req = s.process_message_at(msg(1, Some(UtcTime::new(1_005, 0))), now, now, 0).unwrap();
    assert_eq!(req.priority_fee(), MAX_PRIORITY_FEE);
    s.record_pending((1, 1), req);
    match s.handle_transaction_dropped((1, 1)) {
        Outcome::Resend(r) => {
            assert_eq!(r.priority_fee(), 120_000_000_000);
            assert_eq!(r.nonce(), 0);
        }
        _ => panic!("expected a replacement"),
    }
}

#[test]
fn small_replacement_fee_rises_by_one_wei() {
    let mut s = Sender::new(1, 0);
    let now = UtcTime::new(1_000, 0);
    let mut req = s.process_message_at(msg(0, None), now, now, 0).unwrap();
    let mut fees = vec![req.priority_fee()];
    for i in 0..2u128 {
        s.record_pending((3, i), req);
        req = match s.handle_transaction_dropped((3, i)) {
            Outcome::Resend(r) => r,
            _ => panic!("expected a replacement"),
        };
        fees.push(req.priority_fee());
    }
    assert_eq!(fees, vec![0, 1, 2]);
}

#[test]
fn expired_refused_even_without_free_nonce() {
    let mut s = Sender::new(1, u64::MAX);
    let now = UtcTime::new(1_000, 0);
    let req = s.process_message_at(msg(1, None), now, now, 0).unwrap();
    assert_eq!(req.nonce(), u64::MAX);
    assert_eq!(s.nonce_manager().first_free_nonce(), None);
    let r = s.process_message_at(msg(1, Some(UtcTime::new(10, 0))), now, now, 0);
    assert!(matches!(r, Err(Error::MessageExpired)));
    assert_eq!(s.nonce_manager().in_flight_count(), 1);
}

#[test]
fn watch_result_dispatches() {
    let mut s = Sender::new(1, 0);
    let now = UtcTime::new(1_000, 0);
    let req = s.process_message_at(msg(1, None), now, now, 0).unwrap();
    s.record_pending((2, 2), req);
    // no receipt: handled as a drop
    let req = match s.handle_watch_result((2, 2), None) {
        Outcome::Resend(r) => r,
        _ => panic!("expected a replacement"),
    };
    assert_eq!(req.priority_fee(), 2_400_000_000);
    s.record_pending((2, 3), req);
    // a failed receipt: also a drop
    let req = match s.handle_watch_result((2, 3), Some(false)) {
        Outcome::Resend(r) => r,
        _ => panic!("expected a replacement"),
    };
    assert_eq!(req.replacement_count(), 2);
    s.record_pending((2, 4), req);
    // a successful receipt confirms
    assert!(matches!(s.handle_watch_result((2, 4), Some(true)), Outcome::Confirmed { nonce: 0 }));
    assert_eq!(s.gas_manager().priority_fee(), (1_000_000_000 + 2_880_000_000) / 2);
    assert!(matches!(s.handle_watch_result((2, 4), None), Outcome::Untracked));
}
