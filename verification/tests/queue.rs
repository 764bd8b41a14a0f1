use heapless::spsc::Queue;
use lplora::constants::{CacheQueue, QUEUE_CAPACITY};
use lplora::misc::{enqueue_all_ditch_oldest, enqueue_ditch_oldest, slip_enqueue};
use lplora::serial::{clear_queue, next_tx_byte, serial_rx_byte};

fn contents(queue: &CacheQueue) -> Vec<u8> {
    queue.iter().copied().collect()
}

#[test]
fn queue_holds_its_capacity() {
    let mut q: CacheQueue = Queue::new();
    for i in 0..QUEUE_CAPACITY {
        enqueue_ditch_oldest(&mut q, (i % 251) as u8);
    }
    assert_eq!(q.len(), 1024);
    let held = contents(&q);
    assert_eq!(held[0], 0);
    assert_eq!(held[1023], (1023 % 251) as u8);
}

#[test]
fn enqueue_appends_when_there_is_room() {
    let mut q: CacheQueue = Queue::new();
    enqueue_ditch_oldest(&mut q, 7);
    enqueue_ditch_oldest(&mut q, 9);
    assert_eq!(contents(&q), vec![7, 9]);
}

#[test]
fn one_byte_too_many_drops_the_first() {
    let mut q: CacheQueue = Queue::new();
    let bytes: Vec<u8> = (0..1025u32).map(|i| (i % 253) as u8).collect();
    for b in &bytes {
        enqueue_ditch_oldest(&mut q, *b);
    }
    assert_eq!(q.len(), 1024);
    assert_eq!(contents(&q), bytes[1..].to_vec());
}

#[test]
fn two_bytes_too_many_drop_the_two_earliest() {
    let mut q: CacheQueue = Queue::new();
    let bytes: Vec<u8> = (0..1026u32).map(|i| (i % 253) as u8).collect();
    for b in &bytes {
        enqueue_ditch_oldest(&mut q, *b);
    }
    assert_eq!(q.len(), 1024);
    assert_eq!(contents(&q), bytes[2..].to_vec());
}

#[test]
fn bulk_enqueue_keeps_the_newest() {
    let mut q: CacheQueue = Queue::new();
    enqueue_all_ditch_oldest(&mut q, &[1, 2, 3]);
    assert_eq!(contents(&q), vec![1, 2, 3]);
    let bytes: Vec<u8> = (0..2000u32).map(|i| (i % 249) as u8).collect();
    enqueue_all_ditch_oldest(&mut q, &bytes);
    assert_eq!(contents(&q), bytes[2000 - 1024..].to_vec());
}

#[test]
fn bulk_enqueue_of_nothing_changes_nothing() {
    let mut q: CacheQueue = Queue::new();
    enqueue_all_ditch_oldest(&mut q, &[5, 6]);
    enqueue_all_ditch_oldest(&mut q, &[]);
    assert_eq!(contents(&q), vec![5, 6]);
}

#[test]
fn escaped_byte_on_a_full_queue_drops_two() {
    let mut q: CacheQueue = Queue::new();
    let bytes: Vec<u8> = (0..1024u32).map(|i| (i % 200) as u8).collect();
    enqueue_all_ditch_oldest(&mut q, &bytes);
    slip_enqueue(&mut q, 0xc0);
    let mut expected = bytes[2..].to_vec();
    expected.extend_from_slice(&[0xdb, 0xdc]);
    assert_eq!(contents(&q), expected);
}

#[test]
fn clear_queue_empties() {
    let mut q: CacheQueue = Queue::new();
    enqueue_all_ditch_oldest(&mut q, &[1, 2, 3, 4]);
    clear_queue(&mut q);
    assert!(q.is_empty());
    clear_queue(&mut q);
    assert!(q.is_empty());
}

#[test]
fn start_byte_discards_what_came_before() {
    let mut q: CacheQueue = Queue::new();
    assert!(!serial_rx_byte(&mut q, 0x11));
    assert!(!serial_rx_byte(&mut q, 0x22));
    assert_eq!(contents(&q), vec![0x11, 0x22]);
    assert!(!serial_rx_byte(&mut q, 0xa5));
    assert_eq!(contents(&q), vec![0xa5]);
    assert!(!serial_rx_byte(&mut q, 0x33));
    assert!(serial_rx_byte(&mut q, 0xc0));
    assert_eq!(contents(&q), vec![0xa5, 0x33, 0xc0]);
}

#[test]
fn tx_drain_is_first_in_first_out() {
    let mut q: CacheQueue = Queue::new();
    enqueue_all_ditch_oldest(&mut q, &[9, 8, 7]);
    assert_eq!(next_tx_byte(&mut q), Some(9));
    assert_eq!(next_tx_byte(&mut q), Some(8));
    assert_eq!(next_tx_byte(&mut q), Some(7));
    assert_eq!(next_tx_byte(&mut q), None);
    assert_eq!(next_tx_byte(&mut q), None);
}
