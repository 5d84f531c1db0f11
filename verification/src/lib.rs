//! A client for the Betfair exchange without any input or output of its own.
//!
//! The library decides what to send and what to make of what comes back. [`api_client`] builds the
//! calls of the REST interface and judges logins. [`streaming_client`] keeps what is subscribed to
//! and what has come in, and writes the messages of the stream; [`stream_task`] says when to
//! connect, when to try again and when to give up. [`unified_client`] holds both sides under one
//! session. [`laws`] and [`request_laws`] state what holds across operations.

pub mod api_client;
pub mod config;
pub mod connection_state;
pub mod decimal;
pub mod dto;
pub mod error;
pub mod laws;
pub mod order_cache;
pub mod orderbook;
pub mod request_laws;
pub mod stream_task;
pub mod streaming_client;
pub mod table;
pub mod text;
pub mod transport;
pub mod unified_client;
