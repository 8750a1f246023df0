//! The core of a room-based chat service, as plain data with proved
//! contracts.
//!
//! Clients join a room under a short key, get an id, open a connection and
//! exchange text messages with everyone else in the room. This crate holds
//! the rules of that service and nothing of its transport:
//!
//! - [`key`]: what a room key looks like;
//! - [`user`], [`message`], [`room`]: the users and the message log of one
//!   room;
//! - [`state`]: the registry of all rooms, and the sweep that evicts stale
//!   users and empty rooms;
//! - [`wire`]: the frames a connection carries, and their JSON text;
//! - [`session`]: the life of one connection as a state machine;
//! - [`handlers`]: the entry points a server calls;
//! - [`laws`]: what holds of all of it together;
//! - [`outside`]: the calls into other crates, which are taken on trust;
//! - [`text`]: small helpers for text.
//!
//! Time is a count of milliseconds that the caller reads off a monotonic
//! clock and hands in. The caller also serialises access: every function
//! here takes the registry by reference and returns without waiting.

pub mod handlers;
pub mod key;
pub mod laws;
pub mod message;
pub mod outside;
pub mod room;
pub mod session;
pub mod state;
pub mod text;
pub mod user;
pub mod wire;
