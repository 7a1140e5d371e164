//! Hardware operations on one device, as requests and replies.

pub mod access;
pub mod read;
pub mod status;
pub mod baseline;
pub mod update;
pub mod metadata;
pub mod rate;
pub mod profile_update;
pub mod refresh_all;
