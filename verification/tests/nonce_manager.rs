use bulkmail::nonce_manager::NonceManager;

#[test]
fn assigns_consecutive_nonces() {
    let mut m = NonceManager::new(7);
    assert_eq!(m.get_next_available_nonce(), 7);
    assert_eq!(m.get_next_available_nonce(), 8);
    assert_eq!(m.get_next_available_nonce(), 9);
    // the current nonce is what the chain confirmed; assignments leave it
    assert_eq!(m.current_nonce(), 7);
    assert_eq!(m.in_flight_count(), 3);
}

#[test]
fn dropped_nonce_is_back_filled() {
    let mut m = NonceManager::new(5);
    let a = m.get_next_available_nonce();
    let b = m.get_next_available_nonce();
    assert_eq!((a, b), (5, 6));
    m.mark_nonce_available(a);
    assert!(!m.is_in_flight(5));
    assert_eq!(m.get_next_available_nonce(), 5);
    assert_eq!(m.get_next_available_nonce(), 7);
}

#[test]
fn gap_in_the_middle_is_filled_first() {
    let mut m = NonceManager::new(0);
    for _ in 0..4 {
        m.get_next_available_nonce();
    }
    m.mark_nonce_available(2);
    m.mark_nonce_available(1);
    assert_eq!(m.get_next_available_nonce(), 1);
    assert_eq!(m.get_next_available_nonce(), 2);
    assert_eq!(m.get_next_available_nonce(), 4);
}

#[test]
fn update_moves_forward_only() {
    let mut m = NonceManager::new(3);
    for _ in 0..4 {
        m.get_next_available_nonce();
    }
    // in flight: 3, 4, 5, 6; current 3
    m.update_current_nonce(2);
    assert_eq!(m.current_nonce(), 3);
    assert_eq!(m.in_flight_count(), 4);
    m.update_current_nonce(5);
    assert_eq!(m.current_nonce(), 5);
    assert!(!m.is_in_flight(3));
    assert!(!m.is_in_flight(4));
    assert!(m.is_in_flight(5));
    assert!(m.is_in_flight(6));
    assert_eq!(m.in_flight_count(), 2);
    // confirmed nonces are never handed out again
    assert_eq!(m.get_next_available_nonce(), 7);
}

#[test]
fn first_free_nonce_check() {
    let mut m = NonceManager::new(u64::MAX - 1);
    assert_eq!(m.first_free_nonce(), Some(u64::MAX - 1));
    m.get_next_available_nonce();
    assert_eq!(m.first_free_nonce(), Some(u64::MAX));
    m.get_next_available_nonce();
    assert_eq!(m.first_free_nonce(), None);
}

#[test]
fn no_shared_nonce_over_history() {
    let mut m = NonceManager::new(0);
    let mut outstanding = Vec::new();
    for _ in 0..3 {
        outstanding.push(m.get_next_available_nonce());
    }
    assert_eq!(outstanding, vec![0, 1, 2]);
    // release 1: it is no longer outstanding and is assigned again first
    m.mark_nonce_available(1);
    outstanding.retain(|n| *n != 1);
    let n = m.get_next_available_nonce();
    assert_eq!(n, 1);
    assert!(!outstanding.contains(&n));
    outstanding.push(n);
    // the chain confirms up to 2: what is assigned next is above every outstanding nonce
    m.update_current_nonce(2);
    let n = m.get_next_available_nonce();
    assert_eq!(n, 3);
    assert!(!outstanding.contains(&n));
}
