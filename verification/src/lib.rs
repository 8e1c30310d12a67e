//! A safe iteration layer over a trace-capture engine.
//!
//! The engine itself (opening a capture file, walking its records, decoding
//! fields) lives outside this crate and is reached through a small set of
//! calls.  This crate holds everything that is decided around those calls:
//! which arguments a call is made with, how its answer becomes a typed value
//! or an error, and how a typed accumulator is carried through the engine's
//! untyped callback channel.  Every function here works on plain values, so
//! the caller performs a call and hands its answer back.

pub mod accumulator;
pub mod error;
pub mod event;
pub mod handler;
pub mod native;
pub mod record;
pub mod session;
pub mod text;

pub use accumulator::Accumulator;
pub use error::Error;
pub use event::Event;
pub use handler::Handler;
pub use native::{Call, Delivery};
pub use record::{Field, Record};
pub use session::{Handle, Input};
