//! A TCP throughput and latency tester for servers that speak the
//! `DOWNLOAD <n>` / `UPLOAD <n> 0` line protocol.
//!
//! The library holds the decisions of a test run: the request lines, the
//! per-connection transfer state machine, the throughput sampler and its
//! reduction, the latency statistics, address selection and the result
//! record. Sockets, threads, barriers and clocks belong to the caller.

pub mod protocol;
pub mod client;
pub mod ping;
pub mod sampler;
pub mod worker;
