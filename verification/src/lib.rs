//! A metrics bridge for a blockchain node: on each scrape it queries the
//! node's control-plane API for a fixed set of status values and republishes
//! them as typed metric samples.
//!
//! The verified core is the collection-and-translation routine: the ordered
//! sequence of remote calls, the dependency relationships between them,
//! per-call failure handling, and the mapping of response fields onto metric
//! series. The remote transport, the HTTP listener and the text renderer are
//! unverified collaborators around this library.

pub mod collector;
pub mod handler;
pub mod laws;
pub mod metrics;
pub mod rpc;
