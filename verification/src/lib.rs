//! A small leveled logger with a verified core.
//!
//! A [`Logger`] decides whether a message passes its minimum level, formats
//! the line, and queues it for each enabled destination. The crate performs
//! no input or output of its own: a driver takes the queued records and
//! carries each one to its sink.

pub mod clock;
pub mod log_level;
pub mod logger;
pub mod paint;
pub mod record;

pub use crate::logger::Logger;
