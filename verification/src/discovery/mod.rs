//! Discovery: from attached endpoints to logical mice.
//!
//! In legacy mode one fuzzy mouse owns every compatible connection and no
//! watermark is read. In persistent mode a connection belongs to the mouse
//! whose token it carries; everything else stays unassociated. Discovery never
//! guesses and never makes up an identity.

pub mod association;
pub mod resolution;
pub mod scan;
pub mod rebind;
pub mod laws;
