//! Server side of a Generic Attribute Profile (GATT) session on top of an
//! Attribute Protocol (ATT) transport.
//!
//! The crate holds the decisions of such a session: which database operation
//! each request asks for and with which access flags, which write raises an
//! event for the application, how a database outcome becomes a response or an
//! error response, and how an application token becomes the handle that a
//! notification or indication is sent for.

pub mod database;
pub mod event;
pub mod handler;
pub mod outgoing;
pub mod packet;

pub use crate::event::Event;
pub use crate::handler::GattHandler;
pub use crate::outgoing::{Outbound, OutgoingError};
