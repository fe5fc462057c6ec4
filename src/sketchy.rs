//! A wrapper that makes any byte stream misbehave the way a real transport may: it suspends at
//! random, and passes on only part of a buffer at random. The decisions come from a seeded
//! `Dictator`, so a run can be replayed exactly.
//!
//! For a read or a write of `n` bytes it first asks whether to suspend (3 in 10): if so the wrapped
//! stream is not touched, the task is resumed at once, and `Pending` is reported. Otherwise, when
//! `n > 1`, it asks whether to shorten the request (1 in 2) and if so picks a size in `1..n`; the
//! wrapped stream then sees only the first bytes of the buffer. A shortened request never asks for
//! zero bytes, which would read as the end of the stream. Flushing and closing only ask whether to
//! suspend (1 in 2).

use vstd::prelude::*;
use std::task::{Poll, Waker};
use crate::dictator::{Dictator, DictatorView, Question};
use crate::error::ConnectionClosedError;
use crate::ring_buffer::{min, RingBuffer};
use crate::stream::AsyncStream;
use crate::task::wake;

verus! {

/// Odds of suspending a read or a write.
pub const TRANSFER_PENDING_NUMERATOR: u32 = 3;
pub const TRANSFER_PENDING_DENOMINATOR: u32 = 10;

/// Odds of shortening a read or a write of more than one byte.
pub const PARTIAL_NUMERATOR: u32 = 1;
pub const PARTIAL_DENOMINATOR: u32 = 2;

/// Odds of suspending a flush or a close.
pub const CONTROL_PENDING_NUMERATOR: u32 = 1;
pub const CONTROL_PENDING_DENOMINATOR: u32 = 2;

/// What a read or a write of `len` bytes does, as decided by `d`: suspend (`None`) or pass on the
/// first `k` bytes (`Some(k)`); and the dictator after deciding.
pub open spec fn transfer_plan(d: DictatorView, len: usize) -> (Option<usize>, DictatorView) {
    let q1 = Question::Please {
        numerator: TRANSFER_PENDING_NUMERATOR,
        denominator: TRANSFER_PENDING_DENOMINATOR,
    };
    let d1 = d.after(q1);
    if d.answer(q1) == 1 {
        (None, d1)
    } else if len > 1 {
        let q2 = Question::Please { numerator: PARTIAL_NUMERATOR, denominator: PARTIAL_DENOMINATOR };
        let d2 = d1.after(q2);
        if d1.answer(q2) == 1 {
            let q3 = Question::PickSize { low: 1, high: len };
            (Some(d2.answer(q3) as usize), d2.after(q3))
        } else {
            (Some(len), d2)
        }
    } else {
        (Some(len), d1)
    }
}

/// Whether `d` lets a read or a write of `len` bytes through but shortens it: then the size passed
/// on is drawn from `1..len`, and so is less than `len`.
pub open spec fn transfer_shortened(d: DictatorView, len: usize) -> bool {
    let q1 = Question::Please {
        numerator: TRANSFER_PENDING_NUMERATOR,
        denominator: TRANSFER_PENDING_DENOMINATOR,
    };
    let q2 = Question::Please { numerator: PARTIAL_NUMERATOR, denominator: PARTIAL_DENOMINATOR };
    d.answer(q1) != 1 && len > 1 && d.after(q1).answer(q2) == 1
}

/// Whether a flush or a close goes through (`true`) or suspends, as decided by `d`; and the
/// dictator after deciding.
pub open spec fn control_plan(d: DictatorView) -> (bool, DictatorView) {
    let q = Question::Please {
        numerator: CONTROL_PENDING_NUMERATOR,
        denominator: CONTROL_PENDING_DENOMINATOR,
    };
    (d.answer(q) != 1, d.after(q))
}

/// Decides what to do with a read or a write of `len` bytes. A request that goes through is never
/// shortened to nothing.
pub(crate) fn plan_transfer(bd: &mut Dictator, len: usize) -> (r: Option<usize>)
    requires
        old(bd).inv(),
    ensures
        final(bd).inv(),
        (r, final(bd)@) == transfer_plan(old(bd)@, len),
        r matches Some(k) ==> k <= len && (len > 0 ==> k >= 1),
        transfer_shortened(old(bd)@, len) ==> (r matches Some(k) && k < len),
{
    if bd.please(
        "return Pending?",
        TRANSFER_PENDING_NUMERATOR,
        TRANSFER_PENDING_DENOMINATOR,
    ) {
        return None;
    }
    if len > 1 && bd.please("return Partial?", PARTIAL_NUMERATOR, PARTIAL_DENOMINATOR) {
        let size = bd.pick_size("buffer size", 1..len);
        Some(size)
    } else {
        Some(len)
    }
}

/// Resumes the caller at once, so that it tries again, and records the handle as woken.
pub(crate) fn wake_self(woken: &mut Ghost<Seq<Waker>>, waker: Waker)
    ensures
        final(woken)@ == old(woken)@.push(waker),
{
    *woken = Ghost(woken@.push(waker));
    wake(waker);
}

/// Decides whether a flush or a close goes through.
pub(crate) fn plan_control(bd: &mut Dictator) -> (r: bool)
    requires
        old(bd).inv(),
    ensures
        final(bd).inv(),
        (r, final(bd)@) == control_plan(old(bd)@),
{
    !bd.please("return Pending?", CONTROL_PENDING_NUMERATOR, CONTROL_PENDING_DENOMINATOR)
}

/// Faults never stop a read for good: a read of at least one byte from a channel that holds data
/// either suspends, leaving the channel as it was, or takes at least one byte. So every attempt
/// that the dictator lets through makes progress.
pub proof fn lemma_read_progress(
    pre: Sketchy<RingBuffer>,
    post: Sketchy<RingBuffer>,
    waker: Waker,
    dst_pre: Seq<u8>,
    dst_post: Seq<u8>,
    r: Poll<usize>,
)
    requires
        Sketchy::<RingBuffer>::read_spec(pre, post, waker, dst_pre, dst_post, r),
        dst_pre.len() > 0,
        pre.inner()@.data.len() > 0,
    ensures
        (r == Poll::<usize>::Pending && post.inner() == pre.inner()) || (exists|n: usize|
            n >= 1 && r == Poll::Ready(n)),
{
    let (plan, d) = transfer_plan(pre.dictator(), dst_pre.len() as usize);
    if let Some(k) = plan {
        let n = min(k as int, pre.inner()@.data.len() as int);
        assert(r == Poll::Ready(n as usize));
    }
}

/// Faults never stop a write for good: a write of at least one byte into an open channel with room
/// either suspends, leaving the channel as it was, or puts in at least one byte. So every attempt
/// that the dictator lets through makes progress.
pub proof fn lemma_write_progress(
    pre: Sketchy<RingBuffer>,
    post: Sketchy<RingBuffer>,
    waker: Waker,
    src: Seq<u8>,
    r: Poll<Result<usize, ConnectionClosedError>>,
)
    requires
        Sketchy::<RingBuffer>::write_spec(pre, post, waker, src, r),
        src.len() > 0,
        !pre.inner()@.closed,
        pre.inner()@.remaining() > 0,
    ensures
        (r == Poll::<Result<usize, ConnectionClosedError>>::Pending && post.inner()
            == pre.inner()) || (exists|n: usize|
            n >= 1 && r == Poll::Ready(Ok::<usize, ConnectionClosedError>(n))),
{
    let (plan, d) = transfer_plan(pre.dictator(), src.len() as usize);
    if let Some(k) = plan {
        let n = min(k as int, pre.inner()@.remaining());
        assert(r == Poll::Ready(Ok::<usize, ConnectionClosedError>(n as usize)));
    }
}

/// A stream whose operations suspend and shorten at random, reproducibly from a seed.
pub struct Sketchy<T> {
    inner: T,
    bd: Dictator,
    woken: Ghost<Seq<Waker>>,
}

impl<T: AsyncStream> Sketchy<T> {
    /// The wrapped stream.
    pub closed spec fn inner(&self) -> T {
        self.inner
    }

    /// The dictator that makes the decisions.
    pub closed spec fn dictator(&self) -> DictatorView {
        self.bd@
    }

    /// Every handle that the wrapper itself has woken on suspending, in order.
    pub closed spec fn woken(&self) -> Seq<Waker> {
        self.woken@
    }

    pub closed spec fn inv(&self) -> bool {
        self.inner.stream_inv() && self.bd.inv()
    }

    /// Wraps `inner`, with decisions drawn from `seed`.
    pub fn new(inner: T, seed: u64) -> (r: Sketchy<T>)
        requires
            inner.stream_inv(),
        ensures
            r.inv(),
            r.inner() == inner,
            r.dictator() == (DictatorView { seed, asked: Seq::empty() }),
            r.woken() == Seq::<Waker>::empty(),
    {
        Sketchy { inner, bd: Dictator::new(seed), woken: Ghost(Seq::empty()) }
    }
}

impl<T: AsyncStream> AsyncStream for Sketchy<T> {
    closed spec fn stream_inv(&self) -> bool {
        self.inv()
    }

    /// Either suspends, leaving the wrapped stream and the buffer alone and waking the caller, or
    /// reads into the first `k` bytes of the buffer from the wrapped stream.
    open spec fn read_spec(
        pre: Self,
        post: Self,
        waker: Waker,
        dst_pre: Seq<u8>,
        dst_post: Seq<u8>,
        r: Poll<usize>,
    ) -> bool {
        let (plan, d) = transfer_plan(pre.dictator(), dst_pre.len() as usize);
        &&& post.dictator() == d
        &&& match plan {
            None => {
                &&& r == Poll::<usize>::Pending
                &&& post.inner() == pre.inner()
                &&& dst_post == dst_pre
                &&& post.woken() == pre.woken().push(waker)
            },
            Some(k) => {
                &&& k <= dst_pre.len()
                &&& (dst_pre.len() > 0 ==> k >= 1)
                &&& (transfer_shortened(pre.dictator(), dst_pre.len() as usize) ==> k
                    < dst_pre.len())
                &&& post.woken() == pre.woken()
                &&& T::read_spec(
                    pre.inner(),
                    post.inner(),
                    waker,
                    dst_pre.take(k as int),
                    dst_post.take(k as int),
                    r,
                )
                &&& dst_post.len() == dst_pre.len()
                &&& dst_post.skip(k as int) == dst_pre.skip(k as int)
            },
        }
    }

    /// Either suspends, leaving the wrapped stream alone and waking the caller, or writes the
    /// first `k` bytes of `src` to the wrapped stream.
    open spec fn write_spec(
        pre: Self,
        post: Self,
        waker: Waker,
        src: Seq<u8>,
        r: Poll<Result<usize, ConnectionClosedError>>,
    ) -> bool {
        let (plan, d) = transfer_plan(pre.dictator(), src.len() as usize);
        &&& post.dictator() == d
        &&& match plan {
            None => {
                &&& r == Poll::<Result<usize, ConnectionClosedError>>::Pending
                &&& post.inner() == pre.inner()
                &&& post.woken() == pre.woken().push(waker)
            },
            Some(k) => {
                &&& k <= src.len()
                &&& (src.len() > 0 ==> k >= 1)
                &&& (transfer_shortened(pre.dictator(), src.len() as usize) ==> k < src.len())
                &&& post.woken() == pre.woken()
                &&& T::write_spec(pre.inner(), post.inner(), waker, src.take(k as int), r)
            },
        }
    }

    open spec fn flush_spec(pre: Self, post: Self, waker: Waker, r: Poll<()>) -> bool {
        let (go, d) = control_plan(pre.dictator());
        &&& post.dictator() == d
        &&& if go {
            T::flush_spec(pre.inner(), post.inner(), waker, r) && post.woken() == pre.woken()
        } else {
            &&& r == Poll::<()>::Pending
            &&& post.inner() == pre.inner()
            &&& post.woken() == pre.woken().push(waker)
        }
    }

    open spec fn close_spec(pre: Self, post: Self, waker: Waker, r: Poll<()>) -> bool {
        let (go, d) = control_plan(pre.dictator());
        &&& post.dictator() == d
        &&& if go {
            T::close_spec(pre.inner(), post.inner(), waker, r) && post.woken() == pre.woken()
        } else {
            &&& r == Poll::<()>::Pending
            &&& post.inner() == pre.inner()
            &&& post.woken() == pre.woken().push(waker)
        }
    }

    fn poll_read(&mut self, waker: Waker, dst: &mut [u8]) -> (r: Poll<usize>) {
        match plan_transfer(&mut self.bd, dst.len()) {
            None => {
                wake_self(&mut self.woken, waker);
                Poll::Pending
            },
            Some(k) => {
                let ghost dst_pre = dst@;
                let (head, tail) = dst.split_at_mut(k);
                let r = self.inner.poll_read(waker, head);
                assert(dst@.take(k as int) =~= head@);
                assert(dst@.skip(k as int) =~= dst_pre.skip(k as int));
                assert(dst_pre.take(k as int) =~= dst_pre.subrange(0, k as int));
                r
            },
        }
    }

    fn poll_write(&mut self, waker: Waker, src: &[u8]) -> (r: Poll<
        Result<usize, ConnectionClosedError>,
    >) {
        match plan_transfer(&mut self.bd, src.len()) {
            None => {
                wake_self(&mut self.woken, waker);
                Poll::Pending
            },
            Some(k) => {
                let (head, _) = src.split_at(k);
                assert(head@ =~= src@.take(k as int));
                self.inner.poll_write(waker, head)
            },
        }
    }

    fn poll_flush(&mut self, waker: Waker) -> (r: Poll<()>) {
        if plan_control(&mut self.bd) {
            self.inner.poll_flush(waker)
        } else {
            wake_self(&mut self.woken, waker);
            Poll::Pending
        }
    }

    fn poll_close(&mut self, waker: Waker) -> (r: Poll<()>) {
        if plan_control(&mut self.bd) {
            self.inner.poll_close(waker)
        } else {
            wake_self(&mut self.woken, waker);
            Poll::Pending
        }
    }
}

} // verus!
