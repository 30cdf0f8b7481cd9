//! Device-side endpoint of a tunnel that multiplexes HTTP exchanges and WebSocket streams to
//! local services over one outer connection.

pub mod astarte;
pub mod text;
pub mod messages;
pub mod http;
pub mod registry;
pub mod connection;
pub mod connections_manager;
