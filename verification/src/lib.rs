//! Hardware-communication core of a driver for an optical time-of-flight
//! distance sensor on a shared serial bus.
//!
//! The crate has two verified pieces: the numeric codecs that translate
//! between the sensor's compact on-chip timing representations and physical
//! time units (`codec`), and the transaction layer that turns logical
//! register reads and writes into combined write-then-read bus operations
//! (`com`).  Performing a bus operation and arbitrating access to the bus
//! are the transport's business and stay outside this crate.

pub mod codec;
pub mod com;
pub mod types;
