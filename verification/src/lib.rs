//! A verified client library for one exchange's REST and websocket APIs:
//! the instrument codec, the signing schemes, the wire schema for commands
//! and events, the websocket session, the derived order book, and the
//! request preparation for both the futures and the spot endpoints.

pub mod book;
pub mod command;
pub mod common;
pub mod constants;
pub mod encode;
pub mod errors;
pub mod json;
pub mod message;
pub mod rest;
pub mod session;
pub mod signing;
pub mod spot;
pub mod symbol;
pub mod text;
pub mod wire;
