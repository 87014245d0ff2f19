//! Typed message streams over websockets.
//!
//! A stream endpoint exchanges JSON objects with its peer. [`websocket`] holds the server side: the
//! checks before an upgrade, the [`websocket::Socket`] that an endpoint is handed, and the task
//! that moves messages between it and the connection. [`websocket_client`] holds the client side.
//! The connection itself (accepting, reading, writing, closing) belongs to the program around this
//! library, which tells a task what happened and does what the task answers. [`guarantee`] says
//! what the operations do, of their inputs and results alone.
pub mod boundary;
pub mod channel;
pub mod delivery;
pub mod drain;
pub mod error;
pub mod exchange;
pub mod guarantee;
pub mod message;
pub mod model;
pub mod schema;
pub mod websocket;
pub mod websocket_client;
