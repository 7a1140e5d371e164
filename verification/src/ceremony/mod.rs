//! Physical-identity ceremonies.
//!
//! A ceremony is driven through its durable journal. Every irreversible
//! hardware write is preceded by a journal entry that describes it, so an
//! interrupted ceremony resumes where it stopped and never mints a second
//! token for the same mouse.

pub mod finalize;
pub mod progress;
pub mod begin;
pub mod steps;
pub mod mint;
pub mod reconnect;
pub mod stamp;
pub mod action;
pub mod laws;
