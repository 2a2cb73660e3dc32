//! Roster-evaluation engine for a fantasy-football league bot.
//!
//! The library classifies each fantasy team's starting lineup for the
//! current week: starters who are injured, starting slots left empty,
//! and starters whose real team is on bye (or who have no team at all).
//! Every function of the engine carries a contract stating exactly what
//! it returns, proved with Verus.

pub mod brains;
pub mod data;
pub mod laws;
pub mod messaging;
pub mod strutil;
