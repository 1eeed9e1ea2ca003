//! Station catalog management and player supervision for an internet radio
//! front end.
//!
//! The crate holds the decisions of the program: which names count as blank,
//! which stations a filter keeps, when a dataset has to be fetched, and what
//! the supervisor of the player process does next. Reading files, talking to
//! the network and signalling processes are left to the caller, which reports
//! what happened as plain values.

pub mod cache;
pub mod catalog;
pub mod environment;
pub mod player;
pub mod request;
pub mod station;
pub mod supervisor;
pub mod text;
