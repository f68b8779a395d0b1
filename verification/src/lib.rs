//! A client-side driver core for executing SQL statements over Oracle's
//! call interface: typed values, the fixed-width wire codecs for numeric and
//! temporal data, per-column output planning, and the statement fetch state
//! machine. The native call layer itself (handle allocation, network I/O)
//! lives outside this crate; everything here is pure computation over plain
//! values and is verified.

pub mod codec;
pub mod codes;
pub mod connection;
pub mod display;
pub mod error;
pub mod row;
pub mod statement;
pub mod temporal;
pub mod types;
