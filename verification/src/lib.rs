//! An in-process bridge between a multi-threaded service front end and a
//! trusted application (TA) that must see its requests one at a time and in
//! order, together with the insecure reference capabilities such a TA is
//! built from: a boot-time clock, a directory-backed store of failure
//! records, placeholder keys, and the start-up check of the service.
//!
//! Everything here works on plain values. Reading the clock, touching the
//! file system, spawning the TA thread and registering services are left to
//! the program that embeds this library; it hands the library what it read
//! and acts on what the library decides.
//!
//! - `channel`: the bridge (`LocalTa`, `LocalInsecureTa`) and the side of it
//!   that the TA thread serves (`TaSide`).
//! - `protocol`: what the two ends of a channel record, and the laws of the
//!   rendezvous between them.
//! - `clock`: the boot-time clock (`StdClock`).
//! - `store`: the failure-record store.
//! - `keys`: the placeholder keys.
//! - `startup`: the start-up check and the names of the services.

pub mod channel;
pub mod clock;
pub mod keys;
pub mod protocol;
pub mod startup;
pub mod store;

use vstd::prelude::*;

verus! {

/// Errors that a capability reports back to the TA.
#[derive(Clone, Copy, Debug, PartialEq, Eq, Structural)]
pub enum Error {
    /// The named blob does not exist. Expected in normal operation, for
    /// example on the first authentication attempt of a new identity.
    NotFound,
    /// The storage layer failed in some other way.
    Internal,
}

} // verus!
