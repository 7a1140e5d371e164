//! Logical `mouse-N` device identities, multi-transport endpoints, durable
//! evidence and physical-identity ceremonies for the Attack Shark X3 family.
//!
//! Everything here is computation on plain values: the decisions that drive a
//! mouse, a state file or a discovery scan. Reading and writing hardware and
//! files is left to the caller, who performs the requests that the operations
//! of this crate hand out and feeds the replies back.

pub mod text;
pub mod exact;
pub mod protocol;
pub mod slots;
pub mod ceremony;
pub mod device;
pub mod error;
pub mod operation;
pub mod resources;
pub mod state;
pub mod devices;
pub mod discovery;
pub mod session;
pub mod refresh;
pub mod cache;
pub mod manager;
pub mod operations;
pub mod offline_debug;
pub mod events;
pub mod topology;
