//! Matchmaking core of a cultural-exchange pairing service.
//!
//! Users opt in, are grouped into pairs around spotlighted countries on a
//! recurring cycle, and accumulate reputation ("Strix") points. The crate
//! holds the session/pairing lifecycle engine: user activation, session
//! creation and archival, country-spotlight selection, pairing formation and
//! completion, and the scoring model. Transport, rendering to a chat
//! platform, and persistence live outside this crate; every operation here is
//! synchronous, in-memory, and deterministic given its time and seed inputs.

pub mod catalog;
pub mod directory;
pub mod handlers;
pub mod pairing;
pub mod score;
pub mod session;
pub mod spotlight;
pub mod state;
pub mod text;
pub mod types;
