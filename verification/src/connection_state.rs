//! How a streaming connection stands.

use vstd::prelude::*;

verus! {

/// The state of a streaming connection.
#[derive(Debug)]
pub enum ConnectionState {
    Disconnected,
    Connecting,
    Connected,
    Reconnecting,
    /// Given up, for a reason.
    Failed(String),
}

/// The state of a streaming connection, with the reason as a text.
pub enum ConnectionStatus {
    Disconnected,
    Connecting,
    Connected,
    Reconnecting,
    Failed(Seq<char>),
}

impl View for ConnectionState {
    type V = ConnectionStatus;

    open spec fn view(&self) -> ConnectionStatus {
        match self {
            ConnectionState::Disconnected => ConnectionStatus::Disconnected,
            ConnectionState::Connecting => ConnectionStatus::Connecting,
            ConnectionState::Connected => ConnectionStatus::Connected,
            ConnectionState::Reconnecting => ConnectionStatus::Reconnecting,
            ConnectionState::Failed(reason) => ConnectionStatus::Failed(reason@),
        }
    }
}

impl Clone for ConnectionState {
    fn clone(&self) -> (copy: Self)
        ensures
            copy == *self,
    {
        match self {
            ConnectionState::Disconnected => ConnectionState::Disconnected,
            ConnectionState::Connecting => ConnectionState::Connecting,
            ConnectionState::Connected => ConnectionState::Connected,
            ConnectionState::Reconnecting => ConnectionState::Reconnecting,
            ConnectionState::Failed(reason) => ConnectionState::Failed(reason.clone()),
        }
    }
}

} // verus!
