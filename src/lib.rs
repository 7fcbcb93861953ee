//! Client for the Socket Mode real-time event protocol.
//!
//! The library holds the wire data types and their decoding from parsed JSON,
//! the acknowledgment writer, the reading of the connection-open answer and of
//! the endpoint URL, and the decisions of the receive loop. Transport (HTTP,
//! TLS, WebSocket) is driven by the caller.
use vstd::prelude::*;

pub mod decode;
pub mod endpoint;
pub mod json;
pub mod protocol;
pub mod session;

verus! {

/// Callbacks through which the receive loop hands decoded messages to the
/// application. Both do nothing unless overridden.
pub trait EventHandler {
    /// Called for each `hello` message, with its fields as decoded.
    #[allow(unused_variables)]
    fn on_hello(
        &mut self,
        connection_info: protocol::ConnectionInfo,
        num_connections: u32,
        debug_info: protocol::DebugInfo,
    ) {
    }

    /// Called for each `events_api` envelope, after its acknowledgment was sent.
    #[allow(unused_variables)]
    fn on_events_api(&mut self, payload: protocol::EventsApiPayload) {
    }
}

/// Why a connection ended without a transport failure.
#[derive(Debug, Clone)]
pub enum DisconnectReason {
    /// The server asked the client to reconnect to a fresh endpoint.
    RefreshRequested,
    /// The server sent a disconnect message with another reason.
    Other(String),
    /// The stream ended, or was closed, without a disconnect message.
    Unknown,
}

/// The HTTP client's error (surf's `Error`, from http-types); carried opaque.
#[verifier::external_type_specification]
#[verifier::external_body]
pub struct ExHttpClientError(surf::Error);

/// The URL parser's error; carried opaque.
#[verifier::external_type_specification]
#[verifier::external_body]
pub struct ExUrlParseError(url::ParseError);

/// An I/O error of the TCP or TLS layer; carried opaque.
#[verifier::external_type_specification]
#[verifier::external_body]
pub struct ExIoError(std::io::Error);

/// The WebSocket layer's error; carried opaque.
#[verifier::external_type_specification]
#[verifier::external_body]
pub struct ExWebSocketError(async_tungstenite::tungstenite::Error);

/// Why a connection attempt, or an open connection, failed.
#[derive(Debug)]
pub enum RunError {
    /// The connection-open request could not be completed.
    HttpClientError(surf::Error),
    /// The platform rejected the connection-open request, with its reason.
    OpenConnectionApiError(Option<String>),
    /// The endpoint URL did not parse.
    UrlParseError(url::ParseError),
    /// The endpoint URL has no domain name to connect to.
    MissingDomain,
    /// The TCP connection could not be opened.
    TcpStreamConnectionError(std::io::Error),
    /// The TLS handshake failed.
    TlsConnectionError(std::io::Error),
    /// The WebSocket handshake failed, or a frame could not be read or sent.
    WebSocketError(async_tungstenite::tungstenite::Error),
}

impl From<surf::Error> for RunError {
    fn from(e: surf::Error) -> (r: RunError)
        ensures
            r == RunError::HttpClientError(e),
    {
        RunError::HttpClientError(e)
    }
}

impl vstd::std_specs::convert::FromSpecImpl<surf::Error> for RunError {
    open spec fn obeys_from_spec() -> bool {
        true
    }

    open spec fn from_spec(e: surf::Error) -> RunError {
        RunError::HttpClientError(e)
    }
}

impl From<url::ParseError> for RunError {
    fn from(e: url::ParseError) -> (r: RunError)
        ensures
            r == RunError::UrlParseError(e),
    {
        RunError::UrlParseError(e)
    }
}

impl vstd::std_specs::convert::FromSpecImpl<url::ParseError> for RunError {
    open spec fn obeys_from_spec() -> bool {
        true
    }

    open spec fn from_spec(e: url::ParseError) -> RunError {
        RunError::UrlParseError(e)
    }
}

impl From<async_tungstenite::tungstenite::Error> for RunError {
    fn from(e: async_tungstenite::tungstenite::Error) -> (r: RunError)
        ensures
            r == RunError::WebSocketError(e),
    {
        RunError::WebSocketError(e)
    }
}

impl vstd::std_specs::convert::FromSpecImpl<async_tungstenite::tungstenite::Error> for RunError {
    open spec fn obeys_from_spec() -> bool {
        true
    }

    open spec fn from_spec(e: async_tungstenite::tungstenite::Error) -> RunError {
        RunError::WebSocketError(e)
    }
}

} // verus!
