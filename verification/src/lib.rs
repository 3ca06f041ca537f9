//! Player tracking for Oddworld: Abe's Exoddus.
//!
//! The library holds the decisions of the multiplayer tracker: what a
//! player record is, how the server keeps the table of players, what the
//! client sends and shows, how console commands are read, and how values
//! go to and from bytes on the wire (through bincode).
pub mod player;
pub mod roster;
pub mod text;
pub mod wire;
pub mod client;
pub mod server;
pub mod console;
