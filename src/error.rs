//! The library's error type.

use vstd::prelude::*;

verus! {

/// Errors of the device API. Each carries a plain description of its cause.
#[derive(Debug, Clone, PartialEq, Eq)]
pub enum BoseError {
    /// A preset number outside 1-6; carries the number as text.
    InvalidPreset(String),
    /// A response body did not decode.
    XmlError(String),
    /// A request body could not be written.
    SerializeError(String),
    /// The HTTP request failed.
    HttpClientError(String),
    /// The event stream's transport failed.
    ConnectionError(String),
    /// The event stream's URL is not a valid URL; carries that URL.
    UrlParseError(String),
    /// The device broke the event stream's protocol.
    ProtocolError(String),
    /// The event stream was closed.
    WebSocketClosed,
}

} // verus!
