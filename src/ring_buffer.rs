//! A bounded byte channel with suspend/resume reads and writes.
//!
//! Reads take bytes in the order they were written. A read on an empty channel and a write on a full
//! one do not block: they keep the caller's resumption handle and report `Poll::Pending`, and the
//! complementary operation invokes that handle once it has made progress. Each side keeps at most
//! one handle: registering again replaces the previous one.

use vstd::prelude::*;
use std::task::{Poll, Waker};
use crate::error::ConnectionClosedError;
use crate::storage::{
    room, storage_capacity, storage_free_len, storage_is_empty, storage_is_full, storage_len,
    storage_new, storage_pop_slice, storage_push_slice, stored, ByteRing,
};
use crate::task::wake;

verus! {

/// What a channel is, as far as its users can tell.
pub struct ChannelView {
    /// The number of bytes it can hold at once.
    pub capacity: nat,
    /// The bytes written and not yet read, oldest first.
    pub data: Seq<u8>,
    /// Whether the writing side has been closed.
    pub closed: bool,
    /// The handle of a reader waiting for data.
    pub reader: Option<Waker>,
    /// The handle of a writer waiting for room.
    pub writer: Option<Waker>,
    /// Every handle that the channel has invoked, in order.
    pub woken: Seq<Waker>,
}

impl ChannelView {
    /// An empty, open channel of the given capacity that has no handles and has woken nobody.
    pub open spec fn fresh(capacity: nat) -> ChannelView {
        ChannelView {
            capacity,
            data: Seq::empty(),
            closed: false,
            reader: None,
            writer: None,
            woken: Seq::empty(),
        }
    }

    /// What every channel satisfies: it holds no more than its capacity, which fits a `usize`.
    pub open spec fn valid(self) -> bool {
        self.data.len() <= self.capacity <= usize::MAX
    }

    /// Places left for writing.
    pub open spec fn remaining(self) -> int {
        self.capacity - self.data.len()
    }

    /// The channel after it invoked and dropped the handle of a waiting writer, if any.
    pub open spec fn writer_woken(self) -> ChannelView {
        match self.writer {
            Some(w) => ChannelView { writer: None, woken: self.woken.push(w), ..self },
            None => self,
        }
    }

    /// The channel after it invoked and dropped the handle of a waiting reader, if any.
    pub open spec fn reader_woken(self) -> ChannelView {
        match self.reader {
            Some(w) => ChannelView { reader: None, woken: self.woken.push(w), ..self },
            None => self,
        }
    }
}

/// The smaller of two integers.
pub open spec fn min(a: int, b: int) -> int {
    if a <= b { a } else { b }
}

/// One read into a buffer that held `dst_pre`, with resumption handle `waker`: the channel goes from
/// `pre` to `post`, the buffer ends as `dst_post`, and `r` is reported.
pub open spec fn read_step(
    pre: ChannelView,
    post: ChannelView,
    waker: Waker,
    dst_pre: Seq<u8>,
    dst_post: Seq<u8>,
    r: Poll<usize>,
) -> bool {
    if dst_pre.len() == 0 {
        r == Poll::Ready(0usize) && post == pre && dst_post == dst_pre
    } else if pre.data.len() > 0 {
        let n = min(dst_pre.len() as int, pre.data.len() as int);
        &&& r == Poll::Ready(n as usize)
        &&& dst_post == pre.data.take(n) + dst_pre.skip(n)
        &&& post == (ChannelView { data: pre.data.skip(n), ..pre }).writer_woken()
    } else if !pre.closed {
        r == Poll::<usize>::Pending && post == (ChannelView { reader: Some(waker), ..pre })
            && dst_post == dst_pre
    } else {
        r == Poll::Ready(0usize) && post == pre && dst_post == dst_pre
    }
}

/// One write of `src` with resumption handle `waker`: the channel goes from `pre` to `post` and `r`
/// is reported.
pub open spec fn write_step(
    pre: ChannelView,
    post: ChannelView,
    waker: Waker,
    src: Seq<u8>,
    r: Poll<Result<usize, ConnectionClosedError>>,
) -> bool {
    if pre.closed {
        r == Poll::Ready(Err::<usize, ConnectionClosedError>(ConnectionClosedError)) && post == pre
    } else if pre.remaining() > 0 {
        let n = min(src.len() as int, pre.remaining());
        &&& r == Poll::Ready(Ok::<usize, ConnectionClosedError>(n as usize))
        &&& if n == 0 {
            post == pre
        } else {
            post == (ChannelView { data: pre.data + src.take(n), ..pre }).reader_woken()
        }
    } else {
        r == Poll::<Result<usize, ConnectionClosedError>>::Pending && post == (ChannelView {
            writer: Some(waker),
            ..pre
        })
    }
}

/// Closing: the channel is closed for writing and a waiting reader is resumed. A waiting writer
/// keeps its handle and sees the closure on its next attempt.
pub open spec fn close_step(pre: ChannelView, post: ChannelView) -> bool {
    post == (ChannelView { closed: true, ..pre }).reader_woken()
}

/// A fresh channel holds nothing and has all of its capacity left: it is empty, and it is full
/// exactly when its capacity is zero.
pub proof fn lemma_fresh(capacity: nat)
    ensures
        ChannelView::fresh(capacity).data.len() == 0,
        ChannelView::fresh(capacity).remaining() == capacity,
        (ChannelView::fresh(capacity).data.len() == ChannelView::fresh(capacity).capacity) == (
        capacity == 0),
{
}

/// Bytes come out in the order they went in: after a write of `src` that fits whole into an open
/// channel holding `held`, a read of exactly `held.len() + src.len()` bytes returns `held + src`. With
/// nothing held, this is the round trip of a single write. (An empty write into a full channel
/// suspends instead, and is left out.)
pub proof fn lemma_fifo(
    c0: ChannelView,
    c1: ChannelView,
    c2: ChannelView,
    w1: Waker,
    w2: Waker,
    src: Seq<u8>,
    r1: Poll<Result<usize, ConnectionClosedError>>,
    dst0: Seq<u8>,
    dst1: Seq<u8>,
    r2: Poll<usize>,
)
    requires
        c0.valid(),
        !c0.closed,
        c0.data.len() + src.len() <= c0.capacity,
        src.len() > 0 || c0.data.len() < c0.capacity,
        write_step(c0, c1, w1, src, r1),
        dst0.len() == c0.data.len() + src.len(),
        read_step(c1, c2, w2, dst0, dst1, r2),
    ensures
        r1 == Poll::Ready(Ok::<usize, ConnectionClosedError>(src.len() as usize)),
        r2 == Poll::Ready(dst0.len() as usize),
        dst1 == c0.data + src,
        c2.data.len() == 0,
{
    if src.len() > 0 {
        assert(src.take(src.len() as int) =~= src);
        assert(dst1 =~= c0.data + src);
    } else if c0.data.len() > 0 {
        assert(src.take(0) =~= src);
        assert(c1.data =~= c0.data);
        assert(dst1 =~= c0.data + src);
    } else {
        assert(c0.data + src =~= dst0);
    }
}

/// A write on a full, open channel suspends and leaves the bytes as they were; once a read has
/// taken at least one byte, the waiting writer has been resumed and the same write goes through with
/// at least one byte.
pub proof fn lemma_backpressure(
    c0: ChannelView,
    c1: ChannelView,
    c2: ChannelView,
    c3: ChannelView,
    w1: Waker,
    w2: Waker,
    w3: Waker,
    src: Seq<u8>,
    r1: Poll<Result<usize, ConnectionClosedError>>,
    dst0: Seq<u8>,
    dst1: Seq<u8>,
    r2: Poll<usize>,
    r3: Poll<Result<usize, ConnectionClosedError>>,
    taken: usize,
)
    requires
        c0.valid(),
        !c0.closed,
        c0.data.len() == c0.capacity,
        src.len() > 0,
        write_step(c0, c1, w1, src, r1),
        read_step(c1, c2, w2, dst0, dst1, r2),
        r2 == Poll::Ready(taken),
        taken > 0,
        write_step(c2, c3, w3, src, r3),
    ensures
        r1 == Poll::<Result<usize, ConnectionClosedError>>::Pending,
        c1.data == c0.data,
        c2.woken == c1.woken.push(w1),
        exists|n: usize| n >= 1 && r3 == Poll::Ready(Ok::<usize, ConnectionClosedError>(n)),
{
    let n = min(src.len() as int, c2.remaining()) as usize;
    assert(r3 == Poll::Ready(Ok::<usize, ConnectionClosedError>(n)));
}

/// A write into an empty channel with a waiting reader resumes that reader and nobody else: the
/// reader's handle, and only it, is added to the woken handles, and a waiting writer's handle stays.
pub proof fn lemma_single_wake(
    c0: ChannelView,
    c1: ChannelView,
    w: Waker,
    src: Seq<u8>,
    r: Poll<Result<usize, ConnectionClosedError>>,
    reader: Waker,
)
    requires
        !c0.closed,
        c0.data.len() == 0,
        c0.capacity > 0,
        c0.reader == Some(reader),
        src.len() > 0,
        write_step(c0, c1, w, src, r),
    ensures
        c1.woken == c0.woken.push(reader),
        c1.reader is None,
        c1.writer == c0.writer,
{
}

/// Once closed and drained, a read reports `Ready(0)` without suspending and changes nothing, so
/// every later read does the same.
pub proof fn lemma_end_of_stream(
    c0: ChannelView,
    c1: ChannelView,
    w: Waker,
    dst0: Seq<u8>,
    dst1: Seq<u8>,
    r: Poll<usize>,
)
    requires
        c0.closed,
        c0.data.len() == 0,
        read_step(c0, c1, w, dst0, dst1, r),
    ensures
        r == Poll::Ready(0usize),
        c1 == c0,
        dst1 == dst0,
{
}

/// Once closed, a write fails with `ConnectionClosedError` and changes nothing, so every later
/// write fails the same way; closing again keeps the channel closed.
pub proof fn lemma_sticky_close(
    c0: ChannelView,
    c1: ChannelView,
    c2: ChannelView,
    w: Waker,
    src: Seq<u8>,
    r: Poll<Result<usize, ConnectionClosedError>>,
)
    requires
        c0.closed,
        write_step(c0, c1, w, src, r),
        close_step(c1, c2),
    ensures
        r == Poll::Ready(Err::<usize, ConnectionClosedError>(ConnectionClosedError)),
        c1 == c0,
        c2.closed,
        c2.data == c0.data,
{
}

/// A fixed-capacity FIFO byte channel with one waiting slot per side and a one-way close.
pub struct RingBuffer {
    storage: Option<ByteRing>,
    read_waker: Option<Waker>,
    write_waker: Option<Waker>,
    closed: bool,
    woken: Ghost<Seq<Waker>>,
}

impl View for RingBuffer {
    type V = ChannelView;

    closed spec fn view(&self) -> ChannelView {
        ChannelView {
            capacity: match self.storage {
                Some(rb) => room(rb),
                None => 0,
            },
            data: match self.storage {
                Some(rb) => stored(rb),
                None => Seq::empty(),
            },
            closed: self.closed,
            reader: self.read_waker,
            writer: self.write_waker,
            woken: self.woken@,
        }
    }
}

impl RingBuffer {
    /// The storage holds no more than it was made for, and its size fits a `usize`.
    pub closed spec fn inv(&self) -> bool {
        match self.storage {
            Some(rb) => 0 < room(rb) && stored(rb).len() <= room(rb) && room(rb) <= usize::MAX,
            None => true,
        }
    }

    /// Every well-formed channel holds no more than its capacity, which fits a `usize`.
    pub proof fn lemma_valid(c: RingBuffer)
        requires
            c.inv(),
        ensures
            c@.valid(),
    {
    }

    /// An empty, open channel that holds at most `capacity` bytes.
    pub fn new(capacity: usize) -> (r: RingBuffer)
        ensures
            r@ == ChannelView::fresh(capacity as nat),
            r.inv(),
            r@.valid(),
    {
        let storage = if capacity == 0 {
            None
        } else {
            Some(storage_new(capacity))
        };
        let r = RingBuffer {
            storage,
            read_waker: None,
            write_waker: None,
            closed: false,
            woken: Ghost(Seq::empty()),
        };
        proof {
            assert(r@.data =~= Seq::<u8>::empty());
        }
        r
    }

    /// The number of bytes the channel can hold at once.
    pub fn capacity(&self) -> (r: usize)
        ensures
            r == self@.capacity,
    {
        match &self.storage {
            Some(rb) => storage_capacity(rb),
            None => 0,
        }
    }

    /// Whether no byte is waiting to be read.
    pub fn is_empty(&self) -> (r: bool)
        ensures
            r == (self@.data.len() == 0),
    {
        match &self.storage {
            Some(rb) => storage_is_empty(rb),
            None => true,
        }
    }

    /// Whether no byte can be written until some are read.
    pub fn is_full(&self) -> (r: bool)
        requires
            self.inv(),
        ensures
            r == (self@.data.len() == self@.capacity),
    {
        match &self.storage {
            Some(rb) => storage_is_full(rb),
            None => true,
        }
    }

    /// The number of bytes waiting to be read.
    pub fn len(&self) -> (r: usize)
        ensures
            r == self@.data.len(),
    {
        match &self.storage {
            Some(rb) => storage_len(rb),
            None => 0,
        }
    }

    /// The number of bytes that can be written before the channel is full.
    pub fn remaining(&self) -> (r: usize)
        requires
            self.inv(),
        ensures
            r == self@.remaining(),
    {
        match &self.storage {
            Some(rb) => storage_free_len(rb),
            None => 0,
        }
    }

    /// Whether a reader's handle is kept, waiting for data.
    pub fn is_reader_waiting(&self) -> (r: bool)
        ensures
            r == self@.reader is Some,
    {
        self.read_waker.is_some()
    }

    /// Whether a writer's handle is kept, waiting for room.
    pub fn is_writer_waiting(&self) -> (r: bool)
        ensures
            r == self@.writer is Some,
    {
        self.write_waker.is_some()
    }

    /// Whether the channel has been closed for writing.
    pub fn is_closed(&self) -> (r: bool)
        ensures
            r == self@.closed,
    {
        self.closed
    }

    fn wake_writer(&mut self)
        ensures
            final(self)@ == old(self)@.writer_woken(),
            final(self).inv() == old(self).inv(),
    {
        if let Some(w) = self.write_waker.take() {
            self.woken = Ghost(self.woken@.push(w));
            wake(w);
        }
    }

    fn wake_reader(&mut self)
        ensures
            final(self)@ == old(self)@.reader_woken(),
            final(self).inv() == old(self).inv(),
    {
        if let Some(w) = self.read_waker.take() {
            self.woken = Ghost(self.woken@.push(w));
            wake(w);
        }
    }
    /// Reads into `dst`. An empty `dst` gives `Ready(0)` at once. Otherwise, when bytes are waiting,
    /// the oldest of them fill the front of `dst` and a waiting writer is resumed; when none are and
    /// the channel is open, `waker` is kept for the next write and `Pending` is reported; when none
    /// are and the channel is closed, `Ready(0)` marks the end of the stream.
    pub fn poll_read(&mut self, waker: Waker, dst: &mut [u8]) -> (r: Poll<usize>)
        requires
            old(self).inv(),
        ensures
            final(self).inv(),
            final(self)@.valid(),
            old(self)@.valid(),
            read_step(old(self)@, final(self)@, waker, old(dst)@, final(dst)@, r),
    {
        if dst.len() == 0 {
            return Poll::Ready(0);
        }
        let held = self.len();
        if held > 0 {
            let n = if dst.len() < held {
                dst.len()
            } else {
                held
            };
            let ghost pre = self@;
            let ghost dst_pre = dst@;
            let (head, tail) = dst.split_at_mut(n);
            if let Some(rb) = &mut self.storage {
                storage_pop_slice(rb, head);
            }
            assert(dst@ =~= pre.data.take(n as int) + dst_pre.skip(n as int));
            assert(self@ == ChannelView { data: pre.data.skip(n as int), ..pre });
            self.wake_writer();
            Poll::Ready(n)
        } else if self.closed {
            Poll::Ready(0)
        } else {
            self.read_waker = Some(waker);
            Poll::Pending
        }
    }

    /// Writes from `src`. On a closed channel it fails, every time. Otherwise, when there is room,
    /// as many bytes of `src` as fit are appended and a waiting reader is resumed (an empty `src`
    /// gives `Ready(Ok(0))` and changes nothing); when the channel is full, `waker` is kept for the
    /// next read and `Pending` is reported.
    pub fn poll_write(&mut self, waker: Waker, src: &[u8]) -> (r: Poll<
        Result<usize, ConnectionClosedError>,
    >)
        requires
            old(self).inv(),
        ensures
            final(self).inv(),
            final(self)@.valid(),
            old(self)@.valid(),
            write_step(old(self)@, final(self)@, waker, src@, r),
    {
        if self.closed {
            return Poll::Ready(Err(ConnectionClosedError));
        }
        let room_left = self.remaining();
        if room_left > 0 {
            let n = if src.len() < room_left {
                src.len()
            } else {
                room_left
            };
            if n == 0 {
                return Poll::Ready(Ok(0));
            }
            let ghost pre = self@;
            let (head, _) = src.split_at(n);
            if let Some(rb) = &mut self.storage {
                storage_push_slice(rb, head);
            }
            assert(self@ == ChannelView { data: pre.data + src@.take(n as int), ..pre });
            self.wake_reader();
            Poll::Ready(Ok(n))
        } else {
            self.write_waker = Some(waker);
            Poll::Pending
        }
    }

    /// Flushing: nothing is staged beyond the stored bytes, so it is done at once.
    pub fn flush(&mut self)
        ensures
            final(self)@ == old(self)@,
            final(self).inv() == old(self).inv(),
    {
    }

    /// Closes the channel for writing, for good, and resumes a waiting reader so that it sees the
    /// end of the stream. Closing again changes nothing more.
    pub fn close(&mut self)
        requires
            old(self).inv(),
        ensures
            final(self).inv(),
            final(self)@.valid(),
            close_step(old(self)@, final(self)@),
    {
        self.closed = true;
        self.wake_reader();
    }
}

} // verus!
