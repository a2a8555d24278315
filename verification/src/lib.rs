//! Verified core of a terminal client for a ZeroTier-style network
//! controller: the domain records, their rendering, the edit-request
//! builders, and the session state machine behind the menu screens.

pub mod dto;
pub mod edit;
pub mod info;
pub mod laws;
pub mod paths;
pub mod session;
pub mod text;
pub mod timefmt;
