//! Verified core of a Stream Deck / OpenDeck plugin that drives the local
//! Discord desktop client over Discord RPC.

pub mod text;
pub mod decimal;
pub mod json;
pub mod models;
pub mod frame;
pub mod registry;
pub mod failure;
pub mod rpc;
pub mod stream_deck;
pub mod outbound;
pub mod icons;
pub mod plugin;
pub mod args;
