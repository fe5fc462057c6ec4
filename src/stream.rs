//! The byte-stream capability: what a channel and a fault-injecting wrapper offer.

use vstd::prelude::*;
use std::task::{Poll, Waker};
use crate::error::ConnectionClosedError;
use crate::ring_buffer::{close_step, read_step, write_step, RingBuffer};

verus! {

/// A byte stream with suspend/resume reads and writes. Each operation either completes, fails (a
/// write after closing), or keeps `waker` and reports `Pending`; the `*_spec` functions say which
/// outcomes and successor states an implementation allows.
pub trait AsyncStream: Sized {
    /// What every value of the stream satisfies between operations.
    spec fn stream_inv(&self) -> bool;

    /// A read into a buffer holding `dst_pre` may leave the stream as `post`, the buffer as
    /// `dst_post`, and report `r`.
    spec fn read_spec(
        pre: Self,
        post: Self,
        waker: Waker,
        dst_pre: Seq<u8>,
        dst_post: Seq<u8>,
        r: Poll<usize>,
    ) -> bool;

    /// A write of `src` may leave the stream as `post` and report `r`.
    spec fn write_spec(
        pre: Self,
        post: Self,
        waker: Waker,
        src: Seq<u8>,
        r: Poll<Result<usize, ConnectionClosedError>>,
    ) -> bool;

    /// A flush may leave the stream as `post` and report `r`.
    spec fn flush_spec(pre: Self, post: Self, waker: Waker, r: Poll<()>) -> bool;

    /// A close may leave the stream as `post` and report `r`.
    spec fn close_spec(pre: Self, post: Self, waker: Waker, r: Poll<()>) -> bool;

    fn poll_read(&mut self, waker: Waker, dst: &mut [u8]) -> (r: Poll<usize>)
        requires
            old(self).stream_inv(),
        ensures
            final(self).stream_inv(),
            Self::read_spec(*old(self), *final(self), waker, old(dst)@, final(dst)@, r),
            final(dst)@.len() == old(dst)@.len(),
    ;

    fn poll_write(&mut self, waker: Waker, src: &[u8]) -> (r: Poll<
        Result<usize, ConnectionClosedError>,
    >)
        requires
            old(self).stream_inv(),
        ensures
            final(self).stream_inv(),
            Self::write_spec(*old(self), *final(self), waker, src@, r),
    ;

    fn poll_flush(&mut self, waker: Waker) -> (r: Poll<()>)
        requires
            old(self).stream_inv(),
        ensures
            final(self).stream_inv(),
            Self::flush_spec(*old(self), *final(self), waker, r),
    ;

    fn poll_close(&mut self, waker: Waker) -> (r: Poll<()>)
        requires
            old(self).stream_inv(),
        ensures
            final(self).stream_inv(),
            Self::close_spec(*old(self), *final(self), waker, r),
    ;
}

impl AsyncStream for RingBuffer {
    open spec fn stream_inv(&self) -> bool {
        self.inv() && self@.valid()
    }

    open spec fn read_spec(
        pre: Self,
        post: Self,
        waker: Waker,
        dst_pre: Seq<u8>,
        dst_post: Seq<u8>,
        r: Poll<usize>,
    ) -> bool {
        read_step(pre@, post@, waker, dst_pre, dst_post, r)
    }

    open spec fn write_spec(
        pre: Self,
        post: Self,
        waker: Waker,
        src: Seq<u8>,
        r: Poll<Result<usize, ConnectionClosedError>>,
    ) -> bool {
        write_step(pre@, post@, waker, src, r)
    }

    open spec fn flush_spec(pre: Self, post: Self, waker: Waker, r: Poll<()>) -> bool {
        r == Poll::Ready(()) && post@ == pre@
    }

    open spec fn close_spec(pre: Self, post: Self, waker: Waker, r: Poll<()>) -> bool {
        r == Poll::Ready(()) && close_step(pre@, post@)
    }

    fn poll_read(&mut self, waker: Waker, dst: &mut [u8]) -> (r: Poll<usize>) {
        RingBuffer::poll_read(self, waker, dst)
    }

    fn poll_write(&mut self, waker: Waker, src: &[u8]) -> (r: Poll<
        Result<usize, ConnectionClosedError>,
    >) {
        RingBuffer::poll_write(self, waker, src)
    }

    fn poll_flush(&mut self, waker: Waker) -> (r: Poll<()>) {
        self.flush();
        Poll::Ready(())
    }

    fn poll_close(&mut self, waker: Waker) -> (r: Poll<()>) {
        self.close();
        Poll::Ready(())
    }
}

} // verus!
