//! A simulated two-way connection: two channels, one per direction, wired crosswise.
//!
//! Side `A` writes into the `ab` channel and reads from the `ba` channel; side `B` writes into `ba`
//! and reads from `ab`. Backpressure is per direction. Closing a side closes only its outbound
//! channel: the other side drains what is left and then sees the end of the stream, and can still
//! write until it closes its own side.

use vstd::prelude::*;
use std::task::{Poll, Waker};
use crate::error::ConnectionClosedError;
use crate::ring_buffer::{close_step, read_step, write_step, ChannelView, RingBuffer};

verus! {

/// One end of a duplex connection.
#[derive(Clone, Copy, Debug, PartialEq, Eq, Structural)]
pub enum Side {
    /// Writes into `ab`, reads from `ba`.
    A,
    /// Writes into `ba`, reads from `ab`.
    B,
}

impl Side {
    /// The other end.
    pub fn peer(self) -> (r: Side)
        ensures
            r != self,
    {
        match self {
            Side::A => Side::B,
            Side::B => Side::A,
        }
    }
}

/// What a duplex connection is: its two channels.
pub struct DuplexView {
    /// The channel from side `A` to side `B`.
    pub ab: ChannelView,
    /// The channel from side `B` to side `A`.
    pub ba: ChannelView,
}

impl DuplexView {
    /// The channel that `side` writes into.
    pub open spec fn outbound(self, side: Side) -> ChannelView {
        match side {
            Side::A => self.ab,
            Side::B => self.ba,
        }
    }

    /// The channel that `side` reads from: the other side's outbound channel.
    pub open spec fn inbound(self, side: Side) -> ChannelView {
        match side {
            Side::A => self.ba,
            Side::B => self.ab,
        }
    }
}

/// The two channels of a connection are each other's reverse: what one side writes, the other
/// reads.
pub proof fn lemma_crosswise(d: DuplexView, side: Side)
    ensures
        d.inbound(side) == d.outbound(if side == Side::A { Side::B } else { Side::A }),
        d.outbound(side) == d.inbound(if side == Side::A { Side::B } else { Side::A }),
{
}

/// A two-way in-memory connection made of two bounded channels.
pub struct Duplex {
    ab: RingBuffer,
    ba: RingBuffer,
}

impl View for Duplex {
    type V = DuplexView;

    closed spec fn view(&self) -> DuplexView {
        DuplexView { ab: self.ab@, ba: self.ba@ }
    }
}

impl Duplex {
    /// Both channels are well formed.
    pub closed spec fn inv(&self) -> bool {
        self.ab.inv() && self.ba.inv() && self.ab@.valid() && self.ba@.valid()
    }

    /// Every connection's channels hold no more than their capacities.
    pub proof fn lemma_valid(d: Duplex)
        requires
            d.inv(),
        ensures
            d@.ab.valid(),
            d@.ba.valid(),
    {
    }

    /// A connection whose channel from `A` to `B` holds `a_buf` bytes and whose channel from `B` to
    /// `A` holds `b_buf` bytes; both start empty and open.
    pub fn new(a_buf: usize, b_buf: usize) -> (r: Duplex)
        ensures
            r.inv(),
            r@.ab == ChannelView::fresh(a_buf as nat),
            r@.ba == ChannelView::fresh(b_buf as nat),
    {
        Duplex { ab: RingBuffer::new(a_buf), ba: RingBuffer::new(b_buf) }
    }

    /// `side` reads from its inbound channel; its outbound channel is untouched.
    pub fn poll_read(&mut self, side: Side, waker: Waker, dst: &mut [u8]) -> (r: Poll<usize>)
        requires
            old(self).inv(),
        ensures
            final(self).inv(),
            read_step(
                old(self)@.inbound(side),
                final(self)@.inbound(side),
                waker,
                old(dst)@,
                final(dst)@,
                r,
            ),
            final(self)@.outbound(side) == old(self)@.outbound(side),
    {
        match side {
            Side::A => self.ba.poll_read(waker, dst),
            Side::B => self.ab.poll_read(waker, dst),
        }
    }

    /// `side` writes into its outbound channel; its inbound channel is untouched.
    pub fn poll_write(&mut self, side: Side, waker: Waker, src: &[u8]) -> (r: Poll<
        Result<usize, ConnectionClosedError>,
    >)
        requires
            old(self).inv(),
        ensures
            final(self).inv(),
            write_step(old(self)@.outbound(side), final(self)@.outbound(side), waker, src@, r),
            final(self)@.inbound(side) == old(self)@.inbound(side),
    {
        match side {
            Side::A => self.ab.poll_write(waker, src),
            Side::B => self.ba.poll_write(waker, src),
        }
    }

    /// Flushing completes at once and changes nothing.
    pub fn poll_flush(&mut self, side: Side) -> (r: Poll<()>)
        requires
            old(self).inv(),
        ensures
            final(self).inv(),
            r == Poll::Ready(()),
            final(self)@ == old(self)@,
    {
        Poll::Ready(())
    }

    /// `side` closes its outbound channel, waking a reader waiting on it; its inbound channel is
    /// untouched, so the other side can still write to it.
    pub fn poll_close(&mut self, side: Side) -> (r: Poll<()>)
        requires
            old(self).inv(),
        ensures
            final(self).inv(),
            r == Poll::Ready(()),
            close_step(old(self)@.outbound(side), final(self)@.outbound(side)),
            final(self)@.inbound(side) == old(self)@.inbound(side),
    {
        match side {
            Side::A => self.ab.close(),
            Side::B => self.ba.close(),
        }
        Poll::Ready(())
    }
}

} // verus!
