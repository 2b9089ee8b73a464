//! A small client library around a remote catalog of pokemon records.
//!
//! The library validates a record identifier, wraps the outcome of a fetch
//! into a uniform result envelope, renders that envelope as canonical JSON
//! text, and hands the text across a foreign-function boundary as an owned,
//! explicitly released handle.  Everything except the network transport and
//! the raw-pointer adapters lives here, verified.

pub mod model;
pub mod numerals;
pub mod text;
pub mod encode;
pub mod decode;
pub mod laws;
pub mod boundary;
