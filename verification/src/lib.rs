//! The decisions behind a C interface to the `rorm-db` crate.
//!
//! Every request that arrives over the interface is checked and turned into the
//! plain data of a statement, handed to the database, and answered through a
//! callback. This crate holds the first and the last of these steps: what a
//! request turns into, with which error it is refused, and what the callback is
//! told once the database has spoken. Reading the memory of the caller, running
//! the statement and calling back are left to the code around it.

pub mod calendar;
pub mod columns;
pub mod connection;
pub mod convert;
pub mod errors;
pub mod executor;
pub mod fidelity;
pub mod modify;
pub mod query;
pub mod reply;
pub mod representations;
pub mod row;
pub mod runtime;
pub mod utils;
