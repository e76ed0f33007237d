//! Polls a live-audio-room discovery service for rooms matching a topic,
//! filters to currently-live rooms not already reported in the cycle,
//! resolves participant identifiers into labeled display names, computes an
//! elapsed-time label, and renders one text report per room.
//!
//! This crate holds the verified pipeline: response parsing and filtering,
//! per-cycle deduplication, participant-role resolution, elapsed-duration
//! formatting, and report rendering.

pub mod config;
pub mod cycle;
pub mod dedup;
pub mod duration;
pub mod model;
pub mod parser;
pub mod render;
pub mod resolver;
pub mod text;
