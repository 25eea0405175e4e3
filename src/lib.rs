//! Mirrors playlists from a source catalog onto a destination catalog.
//!
//! The library holds the verified core: decimal header parsing, the rate
//! budget, the local ledger, the track diff and the per-playlist
//! reconciliation state machine. Network, storage and credential exchanges
//! are performed by the caller, which feeds their results back as events.

pub mod decimal;
pub mod ledger;
pub mod diff;
pub mod timestamp;
pub mod ratelimit;
pub mod engine;
pub mod laws;
pub mod config;
pub mod spotify;
pub mod tidal;
pub mod credentials;
