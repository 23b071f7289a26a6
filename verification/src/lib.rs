//! A WebSocket transport for browser peers, with its logic verified.
//!
//! The crate turns a structured multi-protocol address into the URL of a
//! WebSocket endpoint, and keeps the state of one connection: the record that
//! the socket's event handlers write and that the non-blocking read and write
//! operations of a duplex byte stream consume.

pub mod address;
pub mod attempt;
pub mod connection;
pub mod error;
pub mod laws;
pub mod model;
pub mod text;
pub mod transport;

pub use address::{resolve, websocket_url, Segment};
pub use attempt::Attempt;
pub use connection::{finish_write, Connection, WriteStep};
pub use error::Error;
pub use transport::WebsocketTransport;
