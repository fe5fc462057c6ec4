use futures::task::noop_waker;
use futures_ringbuf::{ConnectionClosedError, RingBuffer};
use futures_test::task::new_count_waker;
use std::task::Poll;

fn write_all(ring: &mut RingBuffer, bytes: &[u8]) {
    match ring.poll_write(noop_waker(), bytes) {
        Poll::Ready(Ok(n)) => assert_eq!(n, bytes.len()),
        other => panic!("write: {:?}", other),
    }
}

fn read_some(ring: &mut RingBuffer, buf: &mut [u8]) -> usize {
    match ring.poll_read(noop_waker(), buf) {
        Poll::Ready(n) => n,
        Poll::Pending => panic!("read suspended"),
    }
}

fn pop(ring: &mut RingBuffer) -> u8 {
    let mut one = [0u8; 1];
    assert_eq!(read_some(ring, &mut one), 1);
    one[0]
}

#[test]
fn async_read_async_read() {
    let mut ring = RingBuffer::new(2);

    write_all(&mut ring, b"a");
    write_all(&mut ring, b"b");

    let mut read_buf = [0u8; 1];
    read_some(&mut ring, &mut read_buf);

    assert!(!ring.is_empty());
    assert!(!ring.is_full());
    assert_eq!(ring.len(), 1);
    assert_eq!(ring.remaining(), 1);
    assert!(!ring.is_reader_waiting());
    assert!(!ring.is_writer_waiting());
    assert_eq!(b'a', read_buf[0]);

    read_some(&mut ring, &mut read_buf);

    assert!(ring.is_empty());
    assert!(!ring.is_full());
    assert_eq!(ring.len(), 0);
    assert_eq!(ring.remaining(), 2);
    assert!(!ring.is_reader_waiting());
    assert!(!ring.is_writer_waiting());
    assert_eq!(b'b', read_buf[0]);

    let (waker, count) = new_count_waker();
    assert!(ring.poll_read(waker, &mut read_buf).is_pending());

    assert!(ring.is_empty());
    assert!(!ring.is_full());
    assert_eq!(ring.len(), 0);
    assert_eq!(ring.remaining(), 2);
    assert!(ring.is_reader_waiting());
    assert!(!ring.is_writer_waiting());

    write_all(&mut ring, b"c");

    assert!(!ring.is_empty());
    assert!(!ring.is_full());
    assert_eq!(ring.len(), 1);
    assert_eq!(ring.remaining(), 1);
    assert!(!ring.is_reader_waiting());
    assert_eq!(count, 1);

    assert_eq!(1, read_some(&mut ring, &mut read_buf));
    assert_eq!(b'c', read_buf[0]);

    assert!(ring.is_empty());
    assert!(!ring.is_full());
    assert_eq!(ring.len(), 0);
    assert_eq!(ring.remaining(), 2);
}

#[test]
fn async_read_closed_read() {
    let mut ring = RingBuffer::new(2);
    let mut read_buf = [0u8; 1];

    write_all(&mut ring, b"a");
    ring.close();

    read_some(&mut ring, &mut read_buf);
    assert_eq!(b'a', read_buf[0]);
    assert_eq!(read_some(&mut ring, &mut read_buf), 0);
    assert_eq!(read_some(&mut ring, &mut read_buf), 0);
}

#[test]
fn async_read_tokio_async_read() {
    let mut ring = RingBuffer::new(2);

    write_all(&mut ring, b"a");
    write_all(&mut ring, b"b");

    let mut normal_buf = [0u8; 1];
    read_some(&mut ring, &mut normal_buf);

    assert!(!ring.is_empty());
    assert!(!ring.is_full());
    assert_eq!(ring.len(), 1);
    assert_eq!(ring.remaining(), 1);
    assert!(!ring.is_reader_waiting());
    assert!(!ring.is_writer_waiting());
    assert_eq!(b'a', normal_buf[0]);

    read_some(&mut ring, &mut normal_buf);

    assert!(ring.is_empty());
    assert!(!ring.is_full());
    assert_eq!(ring.len(), 0);
    assert_eq!(ring.remaining(), 2);
    assert!(!ring.is_reader_waiting());
    assert!(!ring.is_writer_waiting());
    assert_eq!(b'b', normal_buf[0]);

    let (waker, count) = new_count_waker();
    assert!(ring.poll_read(waker, &mut normal_buf).is_pending());

    assert!(ring.is_empty());
    assert!(!ring.is_full());
    assert_eq!(ring.len(), 0);
    assert_eq!(ring.remaining(), 2);
    assert!(ring.is_reader_waiting());
    assert!(!ring.is_writer_waiting());

    write_all(&mut ring, b"c");

    assert!(!ring.is_empty());
    assert!(!ring.is_full());
    assert_eq!(ring.len(), 1);
    assert_eq!(ring.remaining(), 1);
    assert!(!ring.is_reader_waiting());
    assert_eq!(count, 1);

    assert_eq!(1, read_some(&mut ring, &mut normal_buf));
    assert_eq!(b'c', normal_buf[0]);

    assert!(ring.is_empty());
    assert!(!ring.is_full());
    assert_eq!(ring.len(), 0);
    assert_eq!(ring.remaining(), 2);
}

#[test]
fn async_read_tokio_closed_read() {
    let mut ring = RingBuffer::new(2);
    let mut read_buf = [0u8; 1];

    write_all(&mut ring, b"a");
    ring.close();

    read_some(&mut ring, &mut read_buf);
    assert_eq!(b'a', read_buf[0]);
    assert_eq!(read_some(&mut ring, &mut read_buf), 0);
    assert_eq!(read_some(&mut ring, &mut read_buf), 0);
}

#[test]
fn async_write() {
    let mut ring = RingBuffer::new(2);

    assert!(ring.is_empty());
    assert!(!ring.is_full());
    assert_eq!(ring.len(), 0);
    assert_eq!(ring.remaining(), 2);
    assert!(!ring.is_reader_waiting());
    assert!(!ring.is_writer_waiting());

    write_all(&mut ring, b"a");

    assert!(!ring.is_empty());
    assert!(!ring.is_full());
    assert_eq!(ring.len(), 1);
    assert_eq!(ring.remaining(), 1);
    assert!(!ring.is_reader_waiting());
    assert!(!ring.is_writer_waiting());
    assert_eq!(b'a', pop(&mut ring));

    write_all(&mut ring, b"b");
    write_all(&mut ring, b"c");

    assert!(!ring.is_empty());
    assert!(ring.is_full());
    assert_eq!(ring.len(), 2);
    assert_eq!(ring.remaining(), 0);
    assert!(!ring.is_reader_waiting());
    assert!(!ring.is_writer_waiting());
    assert_eq!(b'b', pop(&mut ring));
    assert_eq!(b'c', pop(&mut ring));

    write_all(&mut ring, b"d");
    write_all(&mut ring, b"e");

    let (waker, count) = new_count_waker();
    let arr = [b'f'];
    assert!(ring.poll_write(waker, &arr).is_pending());

    assert!(!ring.is_empty());
    assert!(ring.is_full());
    assert_eq!(ring.len(), 2);
    assert_eq!(ring.remaining(), 0);
    assert!(ring.is_writer_waiting());

    let mut read_buf = [0u8; 1];
    assert_eq!(1, read_some(&mut ring, &mut read_buf));
    assert_eq!(b'd', read_buf[0]);
    assert!(!ring.is_writer_waiting());
    assert_eq!(count, 1);

    assert!(!ring.is_empty());
    assert!(!ring.is_full());
    assert_eq!(ring.len(), 1);
    assert_eq!(ring.remaining(), 1);

    write_all(&mut ring, &arr);

    assert!(!ring.is_empty());
    assert!(ring.is_full());
    assert_eq!(ring.len(), 2);
    assert_eq!(ring.remaining(), 0);
}

#[test]
fn close_wake_reader() {
    let mut ring = RingBuffer::new(2);
    let (waker, count) = new_count_waker();
    let mut read_buf = [0u8; 1];

    assert!(ring.poll_read(waker, &mut read_buf).is_pending());
    assert!(ring.is_reader_waiting());
    assert!(!ring.is_writer_waiting());

    ring.close();

    assert!(!ring.is_reader_waiting());
    assert_eq!(count, 1);
}

#[test]
fn closed_write() {
    let mut ring = RingBuffer::new(2);
    ring.close();

    let arr = [b'a'];
    assert_eq!(
        ring.poll_write(noop_waker(), &arr),
        Poll::Ready(Err(ConnectionClosedError))
    );
    assert_eq!(
        ring.poll_write(noop_waker(), &arr),
        Poll::Ready(Err(ConnectionClosedError))
    );
}

#[test]
fn fresh_channel_state() {
    for capacity in [0usize, 1, 7] {
        let ring = RingBuffer::new(capacity);
        assert_eq!(ring.capacity(), capacity);
        assert_eq!(ring.len(), 0);
        assert_eq!(ring.remaining(), capacity);
        assert!(ring.is_empty());
        assert_eq!(ring.is_full(), capacity == 0);
        assert!(!ring.is_closed());
    }
}

#[test]
fn round_trip_keeps_order() {
    let mut ring = RingBuffer::new(8);
    write_all(&mut ring, &[1, 2, 3]);
    write_all(&mut ring, &[4, 5, 6, 7, 8]);
    let mut out = [0u8; 8];
    assert_eq!(read_some(&mut ring, &mut out), 8);
    assert_eq!(out, [1, 2, 3, 4, 5, 6, 7, 8]);
    assert!(ring.is_empty());
}

#[test]
fn write_copies_only_what_fits() {
    let mut ring = RingBuffer::new(3);
    assert_eq!(ring.poll_write(noop_waker(), &[9, 8, 7, 6, 5]), Poll::Ready(Ok(3)));
    let mut out = [0u8; 5];
    assert_eq!(read_some(&mut ring, &mut out), 3);
    assert_eq!(out, [9, 8, 7, 0, 0]);
}

#[test]
fn empty_write_with_room_registers_nothing() {
    let mut ring = RingBuffer::new(2);
    assert_eq!(ring.poll_write(noop_waker(), &[]), Poll::Ready(Ok(0)));
    assert!(!ring.is_writer_waiting());
    assert!(ring.is_empty());
}

#[test]
fn scenario_backpressure() {
    let mut ring = RingBuffer::new(2);
    write_all(&mut ring, b"a");
    write_all(&mut ring, b"b");
    assert_eq!(ring.len(), 2);
    assert_eq!(ring.remaining(), 0);
    assert!(ring.is_full());

    let (waker, count) = new_count_waker();
    assert!(ring.poll_write(waker, b"c").is_pending());
    assert_eq!(ring.len(), 2);

    assert_eq!(pop(&mut ring), b'a');
    assert_eq!(ring.len(), 1);
    assert_eq!(count, 1);

    assert_eq!(ring.poll_write(noop_waker(), b"c"), Poll::Ready(Ok(1)));
    assert_eq!(pop(&mut ring), b'b');
    assert_eq!(pop(&mut ring), b'c');
}

#[test]
fn write_wakes_only_the_waiting_reader() {
    let mut ring = RingBuffer::new(4);
    let (first, first_count) = new_count_waker();
    let (second, second_count) = new_count_waker();
    let mut buf = [0u8; 2];
    assert!(ring.poll_read(first, &mut buf).is_pending());
    // the later registration replaces the earlier one
    assert!(ring.poll_read(second, &mut buf).is_pending());

    write_all(&mut ring, b"xy");
    assert_eq!(second_count, 1);
    assert_eq!(first_count, 0);
    assert!(!ring.is_reader_waiting());

    write_all(&mut ring, b"z");
    assert_eq!(second_count, 1);
}

#[test]
fn end_of_stream_repeats() {
    let mut ring = RingBuffer::new(3);
    write_all(&mut ring, b"hi");
    ring.close();
    let mut buf = [0u8; 4];
    assert_eq!(read_some(&mut ring, &mut buf), 2);
    assert_eq!(&buf[..2], b"hi");
    for _ in 0..3 {
        let (waker, count) = new_count_waker();
        assert_eq!(ring.poll_read(waker, &mut buf), Poll::Ready(0));
        assert!(!ring.is_reader_waiting());
        assert_eq!(count, 0);
    }
}

#[test]
fn closing_twice_changes_nothing() {
    let mut ring = RingBuffer::new(2);
    write_all(&mut ring, b"q");
    ring.close();
    ring.close();
    assert!(ring.is_closed());
    assert_eq!(ring.len(), 1);
    assert_eq!(ring.poll_write(noop_waker(), b"r"), Poll::Ready(Err(ConnectionClosedError)));
}

#[test]
fn close_leaves_a_waiting_writer_waiting() {
    let mut ring = RingBuffer::new(1);
    write_all(&mut ring, b"a");
    let (waker, count) = new_count_waker();
    assert!(ring.poll_write(waker, b"b").is_pending());
    ring.close();
    assert!(ring.is_writer_waiting());
    assert_eq!(count, 0);
    assert_eq!(ring.poll_write(noop_waker(), b"b"), Poll::Ready(Err(ConnectionClosedError)));
}

#[test]
fn zero_length_read_in_every_state() {
    let mut empty = RingBuffer::new(2);
    let mut full = RingBuffer::new(2);
    write_all(&mut full, b"ab");
    let mut closed = RingBuffer::new(2);
    closed.close();
    for ring in [&mut empty, &mut full, &mut closed] {
        let before = ring.len();
        let (waker, count) = new_count_waker();
        assert_eq!(ring.poll_read(waker, &mut []), Poll::Ready(0));
        assert!(!ring.is_reader_waiting());
        assert_eq!(ring.len(), before);
        assert_eq!(count, 0);
    }
}

#[test]
fn zero_capacity_suspends_until_closed() {
    let mut ring = RingBuffer::new(0);
    let mut buf = [0u8; 1];
    assert!(ring.is_empty());
    assert!(ring.is_full());
    assert!(ring.poll_read(noop_waker(), &mut buf).is_pending());
    assert!(ring.poll_write(noop_waker(), b"a").is_pending());
    ring.close();
    assert_eq!(ring.poll_read(noop_waker(), &mut buf), Poll::Ready(0));
    assert_eq!(ring.poll_write(noop_waker(), b"a"), Poll::Ready(Err(ConnectionClosedError)));
}

#[test]
fn flush_is_immediate() {
    let mut ring = RingBuffer::new(2);
    write_all(&mut ring, b"a");
    ring.flush();
    assert_eq!(ring.len(), 1);
}
