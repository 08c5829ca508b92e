use rusemi::fault::Fault;
use rusemi::queue::ByteQueue;
use rusemi::relay::{relay_packet, relay_packets};

#[test]
fn new_queue_is_empty_and_open() {
    let mut queue = ByteQueue::new();
    assert!(queue.is_empty());
    assert_eq!(queue.len(), 0);
    assert!(queue.consumer_exists());
    assert_eq!(queue.try_receive_all(), Vec::<u8>::new());
}

#[test]
fn bytes_come_out_in_the_order_sent() {
    let mut queue = ByteQueue::new();
    for byte in [0x90u8, 0x3C, 0x40, 0x80, 0x3C, 0x00] {
        assert_eq!(queue.send(byte), Ok(()));
    }
    assert_eq!(queue.len(), 6);
    assert!(!queue.is_empty());
    assert_eq!(queue.try_receive_all(), vec![0x90, 0x3C, 0x40, 0x80, 0x3C, 0x00]);
    assert!(queue.is_empty());
    assert_eq!(queue.try_receive_all(), Vec::<u8>::new());
}

#[test]
fn drains_in_turn_keep_the_order() {
    let mut queue = ByteQueue::new();
    let mut written: Vec<u8> = Vec::new();
    let mut sent: Vec<u8> = Vec::new();
    for round in 0u8..20 {
        for k in 0..(round % 4) {
            let byte = round.wrapping_mul(7).wrapping_add(k);
            queue.send(byte).unwrap();
            sent.push(byte);
        }
        if round % 3 == 0 {
            written.extend(queue.try_receive_all());
        }
    }
    written.extend(queue.try_receive_all());
    assert_eq!(written, sent);
}

#[test]
fn send_fails_once_the_consumer_is_gone() {
    let mut queue = ByteQueue::new();
    queue.send(1).unwrap();
    queue.close();
    assert!(!queue.consumer_exists());
    assert_eq!(queue.send(2), Err(Fault::QueueTeardownFailure));
    assert_eq!(queue.len(), 1);
    assert_eq!(queue.try_receive_all(), vec![1]);
}

#[test]
fn relay_flattens_packets_in_order() {
    let mut queue = ByteQueue::new();
    queue.send(0xAA).unwrap();
    let packets = vec![vec![0x90, 0x3C, 0x40], vec![], vec![0xB0, 0x07], vec![0x7F]];
    assert_eq!(relay_packets(&packets, &mut queue), Ok(()));
    assert_eq!(queue.try_receive_all(), vec![0xAA, 0x90, 0x3C, 0x40, 0xB0, 0x07, 0x7F]);
}

#[test]
fn relay_of_nothing_changes_nothing() {
    let mut queue = ByteQueue::new();
    assert_eq!(relay_packets(&Vec::new(), &mut queue), Ok(()));
    assert_eq!(relay_packets(&vec![vec![], vec![]], &mut queue), Ok(()));
    assert!(queue.is_empty());
}

#[test]
fn relay_into_closed_queue_fails_and_enqueues_nothing() {
    let mut queue = ByteQueue::new();
    queue.send(9).unwrap();
    queue.close();
    let packets = vec![vec![], vec![1, 2, 3]];
    assert_eq!(relay_packets(&packets, &mut queue), Err(Fault::QueueTeardownFailure));
    assert_eq!(queue.len(), 1);
}

#[test]
fn relay_of_nothing_into_closed_queue_succeeds() {
    let mut queue = ByteQueue::new();
    queue.close();
    assert_eq!(relay_packets(&vec![vec![], vec![]], &mut queue), Ok(()));
    assert_eq!(relay_packet(&[], &mut queue), Ok(()));
    assert_eq!(relay_packet(&[1], &mut queue), Err(Fault::QueueTeardownFailure));
}

#[test]
fn single_packet_relay_keeps_order() {
    let mut queue = ByteQueue::new();
    assert_eq!(relay_packet(&[3, 1, 2], &mut queue), Ok(()));
    assert_eq!(relay_packet(&[9, 8], &mut queue), Ok(()));
    assert_eq!(queue.try_receive_all(), vec![3, 1, 2, 9, 8]);
}

#[test]
fn several_deliveries_reach_the_writer_in_order() {
    let mut queue = ByteQueue::new();
    let deliveries = vec![
        vec![vec![0x90u8, 0x3C, 0x40]],
        vec![vec![0x80u8, 0x3C], vec![0x00]],
        vec![],
        vec![vec![0xB0u8, 0x07, 0x7F], vec![0xB0, 0x0A, 0x40]],
    ];
    let mut expected: Vec<u8> = Vec::new();
    let mut written: Vec<u8> = Vec::new();
    for (round, delivery) in deliveries.iter().enumerate() {
        relay_packets(delivery, &mut queue).unwrap();
        for packet in delivery {
            expected.extend(packet);
        }
        if round % 2 == 1 {
            written.extend(queue.try_receive_all());
        }
    }
    written.extend(queue.try_receive_all());
    assert_eq!(written, expected);
}
