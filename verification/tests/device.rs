use std::sync::Arc;

use miscdev::buffer::SharedBuffer;
use miscdev::session::{DeviceError, DeviceSession};
use miscdev::transfer::{read_bytes, write_bytes};

fn open_pair(capacity: usize) -> (Arc<SharedBuffer>, DeviceSession) {
    let buf = Arc::new(SharedBuffer::create(capacity));
    let session = DeviceSession::open(&buf);
    (buf, session)
}

#[test]
fn fresh_buffer_is_zero_filled() {
    let (_buf, s) = open_pair(16);
    let out = s.read(0, 16).unwrap();
    assert_eq!(out, vec![0u8; 16]);
}

#[test]
fn zero_store_is_all_zero_at_the_given_length() {
    assert_eq!(SharedBuffer::zero_store(5), vec![0u8; 5]);
    assert_eq!(SharedBuffer::zero_store(0), Vec::<u8>::new());
}

#[test]
fn capacity_is_what_create_was_given() {
    let buf = SharedBuffer::create(4096);
    assert_eq!(buf.capacity(), 4096);
}

#[test]
fn sample_scenario_hello_then_boundary() {
    let (_buf, s) = open_pair(4096);

    let written = s.write(0, b"hello").unwrap();
    assert_eq!(written, 5);
    let head = s.read(0, 6).unwrap();
    assert_eq!(&head[..5], b"hello");
    assert_eq!(head[5], 0);

    let echoed = s.read(0, 5).unwrap();
    assert_eq!(echoed, b"hello".to_vec());

    let written = s.write(4094, b"XYZ").unwrap();
    assert_eq!(written, 2);
    let tail = s.read(4094, 10).unwrap();
    assert_eq!(tail, b"XY".to_vec());
}

#[test]
fn read_at_or_past_capacity_is_empty() {
    let (_buf, s) = open_pair(8);
    assert_eq!(s.read(8, 1).unwrap(), Vec::<u8>::new());
    assert_eq!(s.read(9, 100).unwrap(), Vec::<u8>::new());
    assert_eq!(s.read(1_000_000, 3).unwrap(), Vec::<u8>::new());
}

#[test]
fn write_at_or_past_capacity_moves_nothing() {
    let (_buf, s) = open_pair(8);
    assert_eq!(s.write(8, b"abc").unwrap(), 0);
    assert_eq!(s.write(40, b"abc").unwrap(), 0);
    assert_eq!(s.write(u64::MAX, b"abc").unwrap(), 0);
    assert_eq!(s.read(0, 8).unwrap(), vec![0u8; 8]);
}

#[test]
fn short_read_returns_min_of_remaining_and_requested() {
    let (_buf, s) = open_pair(8);
    assert_eq!(s.read(3, 100).unwrap().len(), 5);
    assert_eq!(s.read(3, 2).unwrap().len(), 2);
    assert_eq!(s.read(0, 8).unwrap().len(), 8);
    assert_eq!(s.read(7, 1).unwrap().len(), 1);
}

#[test]
fn short_write_truncates_at_capacity_and_copies_the_leading_bytes() {
    let (_buf, s) = open_pair(8);
    assert_eq!(s.write(6, b"abcde").unwrap(), 2);
    assert_eq!(s.read(6, 2).unwrap(), b"ab".to_vec());
    assert_eq!(s.read(0, 6).unwrap(), vec![0u8; 6]);
}

#[test]
fn write_then_read_round_trips() {
    let (_buf, s) = open_pair(32);
    let data = b"the quick brown fox";
    assert_eq!(s.write(0, data).unwrap(), data.len());
    assert_eq!(s.read(0, data.len()).unwrap(), data.to_vec());
}

#[test]
fn write_leaves_bytes_outside_the_span_untouched() {
    let (_buf, s) = open_pair(12);
    assert_eq!(s.write(0, b"AAAAAAAAAAAA").unwrap(), 12);
    assert_eq!(s.write(4, b"zz").unwrap(), 2);
    let all = s.read(0, 12).unwrap();
    assert_eq!(all, b"AAAAzzAAAAAA".to_vec());
}

#[test]
fn sessions_over_one_buffer_observe_the_same_contents() {
    let buf = Arc::new(SharedBuffer::create(16));
    let writer = DeviceSession::open(&buf);
    let reader = DeviceSession::open(&buf);
    assert_eq!(writer.write(2, b"shared").unwrap(), 6);
    assert_eq!(reader.read(2, 6).unwrap(), b"shared".to_vec());
    writer.close();
    assert_eq!(reader.read(2, 6).unwrap(), b"shared".to_vec());
    reader.close();
}

#[test]
fn overlapping_writes_apply_in_a_total_order() {
    let (_buf, s) = open_pair(8);
    assert_eq!(s.write(0, b"11111").unwrap(), 5);
    assert_eq!(s.write(3, b"2222").unwrap(), 4);
    // The later write owns the overlap whole: never a byte-level mix.
    assert_eq!(s.read(0, 8).unwrap(), b"1112222\0".to_vec());
}

#[test]
fn close_drops_one_holder_and_the_buffer_lives_on() {
    let buf = Arc::new(SharedBuffer::create(4));
    let first = DeviceSession::open(&buf);
    assert_eq!(first.write(0, b"abcd").unwrap(), 4);
    first.close();
    let second = DeviceSession::open(&buf);
    assert_eq!(second.read(0, 4).unwrap(), b"abcd".to_vec());
}

#[test]
fn conversion_error_is_its_own_kind() {
    assert_eq!(DeviceError::OffsetConversion, DeviceError::OffsetConversion);
    let cloned = DeviceError::OffsetConversion;
    assert!(matches!(cloned, DeviceError::OffsetConversion));
}

#[test]
fn exclusive_access_runs_the_operation_on_the_store() {
    let buf = SharedBuffer::create(4);
    let old_first = buf.with_exclusive_access(|mut store: Vec<u8>| {
        let old = store[0];
        store[0] = 7;
        (store, old)
    });
    assert_eq!(old_first, 0);
    let now_first = buf.with_exclusive_access(|store: Vec<u8>| {
        let b = store[0];
        (store, b)
    });
    assert_eq!(now_first, 7);
}

#[test]
fn read_bytes_copies_the_exact_span() {
    let store = vec![10u8, 11, 12, 13, 14];
    assert_eq!(read_bytes(&store, 1, 3), vec![11u8, 12, 13]);
    assert_eq!(read_bytes(&store, 3, 10), vec![13u8, 14]);
    assert_eq!(read_bytes(&store, 5, 10), Vec::<u8>::new());
    assert_eq!(read_bytes(&store, 0, 0), Vec::<u8>::new());
}

#[test]
fn write_bytes_copies_reports_and_preserves_the_rest() {
    let mut store = vec![0u8; 6];
    assert_eq!(write_bytes(&mut store, 2, &[5, 6, 7]), 3);
    assert_eq!(store, vec![0u8, 0, 5, 6, 7, 0]);
    assert_eq!(write_bytes(&mut store, 4, &[9, 9, 9]), 2);
    assert_eq!(store, vec![0u8, 0, 5, 6, 9, 9]);
    assert_eq!(write_bytes(&mut store, 6, &[1]), 0);
    assert_eq!(store, vec![0u8, 0, 5, 6, 9, 9]);
}
