//! Core of a local SSH credential agent: an in-memory key store whose
//! records pair public-key bytes with optional private key material, a
//! serialized human-approval bridge, agent lifecycle rules, key import and
//! generation built on the `ssh_key` crate, and the path and relay rules of
//! the agent's local IPC transport.
//!
//! Everything asynchronous (sockets, channels, timers) lives outside this
//! crate; this library holds the data structures and decision rules, each
//! with a verified contract.

pub mod agent;
pub mod approval;
pub mod generator;
pub mod importer;
pub mod ipc_path;
pub mod keys;
pub mod keystore;
pub mod openssh;
pub mod relay;
pub mod textutil;
pub mod transport;
