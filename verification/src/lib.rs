//! Client-side core of a JSON-over-HTTP SQL execution service: typed binding
//! values and their canonical wire encodings, typed row decoding with
//! per-field error attribution, response classification for the statement
//! lifecycle, partition assembly, and multi-statement batch tracking.
//!
//! Network I/O lives outside this crate; every function here works on plain
//! values (status codes, parsed bodies, raw cell strings) and carries a
//! contract that pins down its result.

pub mod bindings;
pub mod classify;
pub mod dates;
pub mod decode;
pub mod json;
pub mod lazy;
pub mod multiple;
pub mod numstr;
pub mod request;
pub mod response;
pub mod strutil;
