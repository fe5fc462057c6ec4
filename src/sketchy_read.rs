//! A wrapper that makes only the reads of a byte stream misbehave: they suspend and shorten at
//! random, reproducibly from a seed, as with `Sketchy`. Writes, flushes and closes pass straight
//! through.

use vstd::prelude::*;
use std::task::{Poll, Waker};
use crate::dictator::{Dictator, DictatorView};
use crate::error::ConnectionClosedError;
use crate::sketchy::{plan_transfer, transfer_plan, transfer_shortened, wake_self};
use crate::stream::AsyncStream;

verus! {

/// A stream whose reads suspend and shorten at random, reproducibly from a seed.
pub struct SketchyRead<T> {
    inner: T,
    bd: Dictator,
    woken: Ghost<Seq<Waker>>,
}

impl<T: AsyncStream> SketchyRead<T> {
    /// The wrapped stream.
    pub closed spec fn inner(&self) -> T {
        self.inner
    }

    /// The dictator that makes the decisions.
    pub closed spec fn dictator(&self) -> DictatorView {
        self.bd@
    }

    /// Every handle that the wrapper itself has woken on suspending, in order.
    pub closed spec fn woken(&self) -> Seq<Waker> {
        self.woken@
    }

    pub closed spec fn inv(&self) -> bool {
        self.inner.stream_inv() && self.bd.inv()
    }

    /// Wraps `inner`, with decisions drawn from `seed`.
    pub fn new(inner: T, seed: u64) -> (r: SketchyRead<T>)
        requires
            inner.stream_inv(),
        ensures
            r.inv(),
            r.inner() == inner,
            r.dictator() == (DictatorView { seed, asked: Seq::empty() }),
            r.woken() == Seq::<Waker>::empty(),
    {
        SketchyRead { inner, bd: Dictator::new(seed), woken: Ghost(Seq::empty()) }
    }
}

impl<T: AsyncStream> AsyncStream for SketchyRead<T> {
    closed spec fn stream_inv(&self) -> bool {
        self.inv()
    }

    /// Either suspends, leaving the wrapped stream and the buffer alone and waking the caller, or
    /// reads into the first `k` bytes of the buffer from the wrapped stream.
    open spec fn read_spec(
        pre: Self,
        post: Self,
        waker: Waker,
        dst_pre: Seq<u8>,
        dst_post: Seq<u8>,
        r: Poll<usize>,
    ) -> bool {
        let (plan, d) = transfer_plan(pre.dictator(), dst_pre.len() as usize);
        &&& post.dictator() == d
        &&& match plan {
            None => {
                &&& r == Poll::<usize>::Pending
                &&& post.inner() == pre.inner()
                &&& dst_post == dst_pre
                &&& post.woken() == pre.woken().push(waker)
            },
            Some(k) => {
                &&& k <= dst_pre.len()
                &&& (dst_pre.len() > 0 ==> k >= 1)
                &&& (transfer_shortened(pre.dictator(), dst_pre.len() as usize) ==> k
                    < dst_pre.len())
                &&& post.woken() == pre.woken()
                &&& T::read_spec(
                    pre.inner(),
                    post.inner(),
                    waker,
                    dst_pre.take(k as int),
                    dst_post.take(k as int),
                    r,
                )
                &&& dst_post.skip(k as int) == dst_pre.skip(k as int)
            },
        }
    }

    open spec fn write_spec(
        pre: Self,
        post: Self,
        waker: Waker,
        src: Seq<u8>,
        r: Poll<Result<usize, ConnectionClosedError>>,
    ) -> bool {
        post.dictator() == pre.dictator() && post.woken() == pre.woken() && T::write_spec(pre.inner(), post.inner(), waker, src, r)
    }

    open spec fn flush_spec(pre: Self, post: Self, waker: Waker, r: Poll<()>) -> bool {
        post.dictator() == pre.dictator() && post.woken() == pre.woken() && T::flush_spec(pre.inner(), post.inner(), waker, r)
    }

    open spec fn close_spec(pre: Self, post: Self, waker: Waker, r: Poll<()>) -> bool {
        post.dictator() == pre.dictator() && post.woken() == pre.woken() && T::close_spec(pre.inner(), post.inner(), waker, r)
    }

    fn poll_read(&mut self, waker: Waker, dst: &mut [u8]) -> (r: Poll<usize>) {
        match plan_transfer(&mut self.bd, dst.len()) {
            None => {
                wake_self(&mut self.woken, waker);
                Poll::Pending
            },
            Some(k) => {
                let ghost dst_pre = dst@;
                let (head, tail) = dst.split_at_mut(k);
                let r = self.inner.poll_read(waker, head);
                assert(dst@.take(k as int) =~= head@);
                assert(dst@.skip(k as int) =~= dst_pre.skip(k as int));
                assert(dst_pre.take(k as int) =~= dst_pre.subrange(0, k as int));
                r
            },
        }
    }

    fn poll_write(&mut self, waker: Waker, src: &[u8]) -> (r: Poll<
        Result<usize, ConnectionClosedError>,
    >) {
        self.inner.poll_write(waker, src)
    }

    fn poll_flush(&mut self, waker: Waker) -> (r: Poll<()>) {
        self.inner.poll_flush(waker)
    }

    fn poll_close(&mut self, waker: Waker) -> (r: Poll<()>) {
        self.inner.poll_close(waker)
    }
}

} // verus!
