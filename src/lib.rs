//! Client library for the local control API of SoundTouch audio devices.
//!
//! The verified core is the event pipeline: frame classification
//! ([`frame`]), the event model ([`event`]), a bounded multi-subscriber bus
//! ([`bus`]), the per-connection state machine ([`connection`]) and the
//! reconnect backoff ([`retry`]). [`control`] holds the request/response
//! data of the HTTP control surface and the request bodies it sends.

pub mod text;
pub mod xml;
pub mod event;
pub mod frame;
pub mod wire;
pub mod bus;
pub mod retry;
pub mod error;
pub mod connection;
pub mod control;

pub use bus::{EventBus, SubscriberId, DEFAULT_CAPACITY};
pub use connection::{websocket_url, subprotocol_accepted, Connection, Inbound, LinkState, Step, SUBPROTOCOL};
pub use control::{
    bass_xml, name_xml, preset_key, select_source_xml, Art, ArtStatus, Bass, BassCapabilities, BoseClient,
    Component, Components, DeviceInfo, KeyValue, NetworkInfo, NowPlaying, NowPlayingContentItem, PlayStatus,
    PostKey, PostVolume, Preset, PresetContentItem, PresetContentItemValue, Presets, SourceItem, SourceStatus,
    Sources, Volume, Zone, ZoneMember,
};
pub use error::BoseError;
pub use event::{
    ConnectionState, ConnectionStateType, ContentItem, ContentItemType, DecodeError, DecodePolicy,
    NowPlayingUpdate, Recent, Recents, RecentsUpdate, SdkInfo, SignalStrength, SoundTouchEvent, Source,
    StreamType, Updates, UserActivity, VolumeUpdate,
};
pub use frame::{classify_frame, event_from_updates, FrameKind};
pub use retry::{Supervisor, SupervisorAction, INITIAL_DELAY_SECS, MAX_DELAY_SECS};
