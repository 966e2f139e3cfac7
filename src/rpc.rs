use vstd::prelude::*;
use crate::errors::SurrealError;

verus! {

/// The ways in which a call through the client fails.
#[derive(Debug)]
pub enum RpcChannelError {
    /// A request could not be encoded, or a reply did not have the expected shape.
    SurrealBodyParsingError { inner: serde_json::Error },
    /// The transport failed.
    SocketError { inner: tokio_tungstenite::tungstenite::Error },
    /// The server answered with an error.
    SurrealQueryError { inner: SurrealError },
    /// The call was abandoned before its reply came.
    OneshotError { inner: tokio::sync::oneshot::error::RecvError },
}

impl From<tokio_tungstenite::tungstenite::Error> for RpcChannelError {
    fn from(inner: tokio_tungstenite::tungstenite::Error) -> (r: Self) {
        RpcChannelError::SocketError { inner }
    }
}

impl vstd::std_specs::convert::FromSpecImpl<tokio_tungstenite::tungstenite::Error> for RpcChannelError {
    open spec fn obeys_from_spec() -> bool {
        true
    }

    open spec fn from_spec(inner: tokio_tungstenite::tungstenite::Error) -> RpcChannelError {
        RpcChannelError::SocketError { inner }
    }
}

impl From<serde_json::Error> for RpcChannelError {
    fn from(inner: serde_json::Error) -> (r: Self) {
        RpcChannelError::SurrealBodyParsingError { inner }
    }
}

impl vstd::std_specs::convert::FromSpecImpl<serde_json::Error> for RpcChannelError {
    open spec fn obeys_from_spec() -> bool {
        true
    }

    open spec fn from_spec(inner: serde_json::Error) -> RpcChannelError {
        RpcChannelError::SurrealBodyParsingError { inner }
    }
}

impl From<tokio::sync::oneshot::error::RecvError> for RpcChannelError {
    fn from(inner: tokio::sync::oneshot::error::RecvError) -> (r: Self) {
        RpcChannelError::OneshotError { inner }
    }
}

impl vstd::std_specs::convert::FromSpecImpl<tokio::sync::oneshot::error::RecvError> for RpcChannelError {
    open spec fn obeys_from_spec() -> bool {
        true
    }

    open spec fn from_spec(inner: tokio::sync::oneshot::error::RecvError) -> RpcChannelError {
        RpcChannelError::OneshotError { inner }
    }
}

} // verus!
