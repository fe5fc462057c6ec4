//! The one failure that a byte stream reports.

use vstd::prelude::*;

verus! {

/// A write was attempted after the writing side was closed. Once a channel reports it, every later
/// write on that channel reports it again.
#[derive(Clone, Copy, Debug, PartialEq, Eq, Structural)]
pub struct ConnectionClosedError;

} // verus!
