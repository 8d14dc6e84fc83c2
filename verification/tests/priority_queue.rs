use alloy::primitives::{Address, Bytes, U256};
use bulkmail::clock::UtcTime;
use bulkmail::message::Message;
use bulkmail::priority_queue::{PrioritizedMessage, PriorityQueue};
use std::cmp::Ordering;

fn msg(priority: u32) -> Message {
    Message::new(Some(Address::ZERO), 0, U256::ZERO, Bytes::default(), priority, None)
}

#[test]
fn test_priority_queue() {
    let mut queue = PriorityQueue::new();

    let msg1 = msg(1);
    let msg2 = msg(2);
    let msg3 = msg(3);

    queue.push(msg1);
    queue.push(msg2);
    queue.push(msg3);

    assert_eq!(queue.len(), 3);
    assert!(!queue.is_empty());

    // Messages should come out in order of priority
    assert_eq!(queue.pop().unwrap().priority, 3);
    assert_eq!(queue.pop().unwrap().priority, 2);
    assert_eq!(queue.pop().unwrap().priority, 1);

    assert!(queue.is_empty());
}

#[test]
fn test_prioritized_message_ordering() {
    let msg1 = msg(1);
    let msg2 = msg(2);

    let pm1 = PrioritizedMessage { message: msg1, effective_priority: 1 };

    let pm2 = PrioritizedMessage { message: msg2, effective_priority: 2 };

    assert!(pm1 < pm2);
    assert_eq!(pm1.cmp(&pm2), Ordering::Less);
}

#[test]
fn equal_priorities_leave_in_queue_order() {
    let mut queue = PriorityQueue::default();
    queue.push(msg(5));
    queue.push(msg(7));
    queue.push(msg(5));
    queue.push(msg(7));
    let mut out = Vec::new();
    while let Some(m) = queue.pop() {
        out.push(m.priority);
    }
    assert_eq!(out, vec![7, 7, 5, 5]);
    assert_eq!(queue.len(), 0);
}

#[test]
fn priorities_are_judged_when_leaving() {
    let now = UtcTime::new(1_000, 0);
    let mut queue = PriorityQueue::new();
    // stored priorities at push time are deliberately misleading
    queue.push_with_priority(msg(3), 100);
    queue.push_with_priority(msg(4), 0);
    queue.push_with_priority(Message::new(None, 0, U256::ZERO, Bytes::default(), 1, Some(UtcTime::new(1_010, 0))), 0);
    // ages: the first message has waited 60 s (5 points), the second none
    let ages = vec![60, 0, 0];
    // third: 1 + boost 50 = 51; first: 3 + 5 = 8; second: 4
    assert_eq!(queue.pop_at(now, &ages).unwrap().priority, 1);
    assert_eq!(queue.pop_at(now, &vec![60, 0]).unwrap().priority, 3);
    assert_eq!(queue.pop_at(now, &vec![0]).unwrap().priority, 4);
    assert!(queue.pop_at(now, &vec![]).is_none());
}

#[test]
fn expired_message_leaves_last() {
    let now = UtcTime::new(1_000, 0);
    let mut queue = PriorityQueue::new();
    queue.push_with_priority(Message::new(None, 0, U256::ZERO, Bytes::default(), 9, Some(UtcTime::new(900, 0))), 9);
    queue.push_with_priority(msg(1), 1);
    assert_eq!(queue.pop_at(now, &vec![0, 0]).unwrap().priority, 1);
}

#[test]
fn prioritized_message_comparisons() {
    let a = PrioritizedMessage { message: msg(1), effective_priority: 4 };
    let b = PrioritizedMessage { message: msg(9), effective_priority: 4 };
    let c = PrioritizedMessage { message: msg(0), effective_priority: 9 };
    assert!(a == b);
    assert_eq!(a.cmp(&b), Ordering::Equal);
    assert_eq!(c.cmp(&a), Ordering::Greater);
    assert_eq!(a.partial_cmp(&c), Some(Ordering::Less));
    assert!(c > b);
}
