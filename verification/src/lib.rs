//! Relay engine between IRC networks and a Discord guild.
//!
//! The library holds the verified core of the relay: the mapping store that
//! associates IRC channels with Discord channels, the ingest normalization
//! that turns protocol lines into relay events, and the router that resolves
//! each event to the outbound effects the Discord side must perform.
//! Connections, file persistence and the Discord REST calls live outside the
//! library; they exchange plain values with it.

pub mod config;
pub mod event;
pub mod ingest;
pub mod mapping;
pub mod router;
