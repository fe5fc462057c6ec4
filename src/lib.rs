//! An in-memory stand-in for an asynchronous byte-stream connection, for testing protocol and codec
//! code under backpressure and faults without a network.
//!
//! - `RingBuffer`: a bounded byte channel with suspend/resume reads and writes.
//! - `Duplex`: two channels wired crosswise into the two sides of a connection.
//! - `Sketchy` and `SketchyRead`: wrappers that suspend and shorten operations at random,
//!   reproducibly from a seed.
//! - `Dictator` and `BenevolentDictator`: the seeded source of those decisions.

pub mod benevolent_dictator;
pub mod dictator;
pub mod duplex;
pub mod error;
pub mod ring_buffer;
mod rng;
pub mod sketchy;
pub mod sketchy_read;
mod storage;
pub mod stream;
mod task;

pub use benevolent_dictator::BenevolentDictator;
pub use dictator::{Dictator, DictatorView, Question};
pub use duplex::{Duplex, DuplexView, Side};
pub use error::ConnectionClosedError;
pub use ring_buffer::{ChannelView, RingBuffer};
pub use sketchy::Sketchy;
pub use sketchy_read::SketchyRead;
pub use stream::AsyncStream;
