//! An event-driven bridge between an Urbit ship and a user-supplied
//! response policy.  The library decodes the ship's pushed update frames
//! into typed events, filters out what the bridge itself said, and decides
//! the joins, acknowledgments and replies each cycle owes; it proves that a
//! malformed frame is skipped in place, that the bridge never answers
//! itself, and that join intents are rebuilt — not remembered — every
//! cycle.  The transport that carries frames in and effects out lives with
//! the integrating program, not here.

pub mod bot;
pub mod chart;
pub mod dispatch;
pub mod events;
pub mod jsonval;
pub mod message;
pub mod resource;
pub mod strutil;
pub mod timeframe;
