//! One connection to a device's event stream: its URL, the subprotocol
//! handshake, and what each inbound frame does to the connection and the bus.
//! The socket itself is driven by the caller, which hands every step here.

use vstd::prelude::*;
use vstd::string::{StringExecFns, StringSliceAdditionalSpecFns};
use crate::bus::{bounded_push, EventBus};
use crate::error::BoseError;
use crate::event::{DecodeError, SoundTouchEvent};
use crate::text::bytes_eq;

verus! {

/// Subprotocol token that the handshake must negotiate.
pub const SUBPROTOCOL: &'static str = "gabbo";

/// Whether the url crate accepts a text as a URL.
pub uninterp spec fn url_parses(s: Seq<char>) -> bool;

/// Relies on url::Url::parse: tells whether the text parses as a URL.
#[verifier::external_body]
fn url_accepts(s: &str) -> (r: bool)
    ensures
        r == url_parses(s@),
{
    url::Url::parse(s).is_ok()
}

/// The event stream's address for a device: `ws://<host>:8080`.
pub open spec fn spec_websocket_url(host: Seq<char>) -> Seq<char> {
    "ws://"@ + host + ":8080"@
}

/// Builds the event stream's URL for `host`; fails when the result is not a
/// URL.
pub fn websocket_url(host: &str) -> (r: Result<String, BoseError>)
    ensures
        url_parses(spec_websocket_url(host@)) ==> (r matches Ok(u) && u@ == spec_websocket_url(host@)),
        !url_parses(spec_websocket_url(host@)) ==> (r matches Err(BoseError::UrlParseError(u)) && u@
            == spec_websocket_url(host@)),
{
    let mut url = String::from_str("ws://");
    url.append(host);
    url.append(":8080");
    if url_accepts(url.as_str()) {
        Ok(url)
    } else {
        Err(BoseError::UrlParseError(url))
    }
}

/// Whether the subprotocol header of a handshake response echoes the token.
pub open spec fn spec_subprotocol_accepted(header: Option<Seq<u8>>) -> bool {
    header == Some(SUBPROTOCOL.spec_bytes())
}

/// Checks the subprotocol header of a handshake response, if it had one.
pub fn subprotocol_accepted(header: Option<&[u8]>) -> (r: bool)
    ensures
        r == spec_subprotocol_accepted(
            match header {
                Some(h) => Some(h@),
                None => None,
            },
        ),
{
    match header {
        Some(h) => bytes_eq(h, SUBPROTOCOL.as_bytes()),
        None => false,
    }
}

/// Where a connection is in its life.
#[derive(Debug, Clone, Copy, PartialEq, Eq, Structural)]
pub enum LinkState {
    Connecting,
    Handshaking,
    Streaming,
    Closed,
}

/// An inbound frame, as the read loop hands it over.
#[derive(Debug)]
pub enum Inbound {
    /// A text frame and what decoding it gave.
    Decoded(Result<SoundTouchEvent, DecodeError>),
    /// The peer closed the stream.
    Close,
    /// The stream ended without a close frame.
    End,
    /// The transport failed; carries a description.
    TransportError(String),
    /// Any other frame (binary, ping, pong).
    Other,
}

/// What the read loop does after a frame.
#[derive(Debug, PartialEq, Eq)]
pub enum Step {
    /// Read the next frame.
    Continue,
    /// Stop reading; the attempt ended with this result.
    Finished(Result<(), BoseError>),
}

/// The event an inbound frame publishes, if any.
pub open spec fn spec_published(frame: Inbound) -> Option<SoundTouchEvent> {
    match frame {
        Inbound::Decoded(Ok(e)) => Some(e),
        Inbound::Close => Some(SoundTouchEvent::Disconnected),
        Inbound::End => Some(SoundTouchEvent::Disconnected),
        _ => None,
    }
}

/// Whether an inbound frame ends the read loop.
pub open spec fn spec_ends_stream(frame: Inbound) -> bool {
    match frame {
        Inbound::Close | Inbound::End | Inbound::TransportError(_) => true,
        _ => false,
    }
}

/// The state machine of one connection attempt.
#[derive(Debug, Clone, Copy, PartialEq, Eq, Structural)]
pub struct Connection {
    state: LinkState,
    streamed: bool,
}

impl Connection {
    pub closed spec fn spec_state(&self) -> LinkState {
        self.state
    }

    /// Whether this attempt ever got past the handshake.
    pub closed spec fn spec_reached_streaming(&self) -> bool {
        self.streamed
    }

    pub closed spec fn wf(&self) -> bool {
        &&& (self.state == LinkState::Streaming ==> self.streamed)
        &&& (self.state == LinkState::Connecting || self.state == LinkState::Handshaking ==> !self.streamed)
    }

    pub fn new() -> (r: Connection)
        ensures
            r.wf(),
            r.spec_state() == LinkState::Connecting,
            !r.spec_reached_streaming(),
    {
        Connection { state: LinkState::Connecting, streamed: false }
    }

    pub fn state(&self) -> (r: LinkState)
        ensures
            r == self.spec_state(),
    {
        self.state
    }

    pub fn reached_streaming(&self) -> (r: bool)
        ensures
            r == self.spec_reached_streaming(),
    {
        self.streamed
    }

    /// The transport is up; the upgrade handshake starts.
    pub fn begin_handshake(&mut self)
        requires
            old(self).wf(),
            old(self).spec_state() == LinkState::Connecting,
        ensures
            final(self).wf(),
            final(self).spec_state() == LinkState::Handshaking,
            !final(self).spec_reached_streaming(),
    {
        self.state = LinkState::Handshaking;
    }

    /// The connection or its handshake failed at the transport level.
    pub fn connect_failed(&mut self, cause: String) -> (r: BoseError)
        requires
            old(self).wf(),
            old(self).spec_state() == LinkState::Connecting || old(self).spec_state() == LinkState::Handshaking,
        ensures
            final(self).wf(),
            final(self).spec_state() == LinkState::Closed,
            !final(self).spec_reached_streaming(),
            r == BoseError::ConnectionError(cause),
    {
        self.state = LinkState::Closed;
        BoseError::ConnectionError(cause)
    }

    /// Checks the handshake response's subprotocol header: streaming starts
    /// only when it echoes the token; otherwise the attempt fails before any
    /// frame is read.
    pub fn on_handshake_response(&mut self, header: Option<&[u8]>) -> (r: Result<(), BoseError>)
        requires
            old(self).wf(),
            old(self).spec_state() == LinkState::Handshaking,
        ensures
            final(self).wf(),
            ({
                let h = match header {
                    Some(b) => Some(b@),
                    None => None,
                };
                if spec_subprotocol_accepted(h) {
                    &&& r == Ok::<(), BoseError>(())
                    &&& final(self).spec_state() == LinkState::Streaming
                    &&& final(self).spec_reached_streaming()
                } else {
                    &&& r matches Err(BoseError::ProtocolError(_))
                    &&& final(self).spec_state() == LinkState::Closed
                    &&& !final(self).spec_reached_streaming()
                }
            }),
    {
        if subprotocol_accepted(header) {
            self.state = LinkState::Streaming;
            self.streamed = true;
            Ok(())
        } else {
            self.state = LinkState::Closed;
            Err(BoseError::ProtocolError(String::from_str("server did not accept the subprotocol")))
        }
    }

    /// Handles one inbound frame while streaming: a decoded event is
    /// published; a frame that did not decode, and any other frame, is
    /// skipped; a close frame or the end of the stream publishes one
    /// `Disconnected` and ends the loop cleanly; a transport error ends it
    /// with that error.
    pub fn on_inbound(&mut self, frame: Inbound, bus: &mut EventBus) -> (r: Step)
        requires
            old(self).wf(),
            old(self).spec_state() == LinkState::Streaming,
            old(bus).wf(),
        ensures
            final(self).wf(),
            final(self).spec_reached_streaming(),
            final(bus).wf(),
            final(bus).capacity() == old(bus).capacity(),
            final(bus).subscriber_count() == old(bus).subscriber_count(),
            spec_published(frame) matches Some(e) ==> forall|i: int|
                0 <= i < old(bus).subscriber_count() ==> #[trigger] final(bus).pending(i) == bounded_push(
                    old(bus).pending(i),
                    e,
                    old(bus).capacity(),
                ),
            spec_published(frame) is None ==> *final(bus) == *old(bus),
            spec_ends_stream(frame) ==> final(self).spec_state() == LinkState::Closed,
            !spec_ends_stream(frame) ==> final(self).spec_state() == LinkState::Streaming && r == Step::Continue,
            frame is Close || frame is End ==> r == Step::Finished(Ok(())),
            frame matches Inbound::TransportError(m) ==> r == Step::Finished(Err(BoseError::ConnectionError(m))),
    {
        match frame {
            Inbound::Decoded(Ok(e)) => {
                bus.publish(e);
                Step::Continue
            },
            Inbound::Decoded(Err(_)) | Inbound::Other => Step::Continue,
            Inbound::Close | Inbound::End => {
                bus.publish(SoundTouchEvent::Disconnected);
                self.state = LinkState::Closed;
                Step::Finished(Ok(()))
            },
            Inbound::TransportError(m) => {
                self.state = LinkState::Closed;
                Step::Finished(Err(BoseError::ConnectionError(m)))
            },
        }
    }
}

} // verus!
