//! Attribute Protocol (ATT) connection core for a Bluetooth peripheral:
//! the handle registry, the PDU wire format, the request/response and
//! notification bookkeeping of one connection, and the decisions taken
//! while a connection is set up and while a response is awaited.

pub mod handles;
pub mod pdu;
pub mod error;
pub mod connect;
pub mod session;
pub mod laws;
pub mod rpa;
pub mod config;
pub mod theme;
