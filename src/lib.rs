//! A small diagnostic service that reports what a process can see of itself:
//! its hostname, its local network address and its environment variables, as
//! a web page and as a JSON object.
//!
//! The library holds the logic: the snapshot of the variables, the page, the
//! JSON encoding, the routing and the answer of each handler. Reading the
//! environment, resolving the host and serving HTTP are left to the caller.

pub mod snapshot;
pub mod page;
pub mod json;
pub mod service;
pub mod laws;
