//! A sans-I/O network interface: frames move through in-memory queues that the
//! host fills and drains, while an embedded protocol stack does the rest.
//!
//! - [`address`]: fixed-width host addresses and their native counterparts.
//! - [`device`]: the queue-backed device the stack runs on.
//! - [`handles`]: generation-checked tables of objects handed out by handle.
//! - [`builder`]: staged interface configuration, consumed by finalization.
//! - [`cdevice`]: the link media the host can ask for.
//! - [`ip_fragment`]: cutting an IPv4 datagram into fragments.
//! - [`socket`]: per-protocol socket operations.
//! - [`result_codes`]: the shared result-code space and per-operation errors.
pub mod address;
pub mod builder;
pub mod cdevice;
pub mod device;
pub mod handles;
pub mod ip_fragment;
pub mod result_codes;
pub mod socket;
