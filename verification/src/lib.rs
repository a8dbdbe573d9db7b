//! Core of a temperature display: a one-wire sensor behind a remote GPIO daemon, a
//! seven-segment display behind a chain of shift registers, and a store of readings.
//!
//! The crate decides and computes; it performs no input or output. Whatever is to be
//! sent to the daemon or the store comes out of it as a value, and whatever they answer
//! goes into it as a value:
//!
//! - [`pi`] holds the sessions, pins and files of the daemon and the requests on them,
//! - [`shift_register`] turns bytes into pin commands, and [`chain`] says what those
//!   commands do to the registers,
//! - [`segment_display`] turns text into segment codes,
//! - [`sensor`] reads the sensor's file and puts a reading into words,
//! - [`model`] holds the rows of the store and the rule for retrying an insert,
//! - [`poll`] strings these together, cycle after cycle,
//! - [`error`], [`decimal`] and [`wrapper`] serve the others.

pub mod chain;
pub mod decimal;
pub mod error;
pub mod model;
pub mod pi;
pub mod poll;
pub mod segment_display;
pub mod sensor;
pub mod shift_register;
pub mod wrapper;
