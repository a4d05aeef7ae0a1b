//! Configuration tooling for a peer-to-peer encrypted mesh network.
//!
//! The crate models a network topology (subnet, local user, bootstrap
//! peers), a peer directory ("phonebook"), and named key-pair identities,
//! and assembles them into textual tunnel configurations.  It also plans
//! the external commands that create and tear down the tunnel interface,
//! and resolves the phonebook from bootstrap peers in priority order.

pub mod id;
pub mod network;
pub mod tasks;
pub mod text;
