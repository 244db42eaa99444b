//! Relays local file changes to a running Bitburner game.
//!
//! The verified pipeline turns a raw watch event into a typed sync operation,
//! encodes that operation for one of two wire protocols, and decides how each
//! resulting message is dispatched.

pub mod bitburner;
pub mod config;
pub mod dispatch;
pub mod encoding;
pub mod handler;
pub mod path;
