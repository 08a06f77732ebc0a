//! The event model: every kind of notification a device pushes over its
//! event stream, and the decoding of the enumerated text fields it carries.

use vstd::prelude::*;
use crate::text::text_eq;

verus! {

/// How a decoder treats an enumerated field whose text is outside the known set.
#[derive(Debug, Clone, Copy, PartialEq, Eq, Structural)]
pub enum DecodePolicy {
    /// Unknown values are a decode failure.
    Strict,
    /// Unknown values decode to the enumeration's `Unknown` variant.
    Permissive,
}

/// Why a frame produced no event.
#[derive(Debug, Clone, Copy, PartialEq, Eq, Structural)]
pub enum DecodeError {
    /// The frame carries none of the known markers, or an update wrapper
    /// with no populated update.
    UnrecognizedFrame,
    /// The frame's shape was recognized but one of its fields did not decode.
    InvalidField,
}

/// What a strict decode of an unknown enumerated value gives, and a permissive one.
pub open spec fn spec_unknown_value<T>(p: DecodePolicy, unknown: T) -> Result<T, DecodeError> {
    match p {
        DecodePolicy::Strict => Err(DecodeError::InvalidField),
        DecodePolicy::Permissive => Ok(unknown),
    }
}

fn unknown_value<T>(p: DecodePolicy, unknown: T) -> (r: Result<T, DecodeError>)
    ensures
        r == spec_unknown_value(p, unknown),
{
    match p {
        DecodePolicy::Strict => Err(DecodeError::InvalidField),
        DecodePolicy::Permissive => Ok(unknown),
    }
}

/// Information about the device's SDK version.
#[derive(Debug, Clone)]
pub struct SdkInfo {
    pub server_version: String,
    pub server_build: String,
}

/// A user interacted with the device.
#[derive(Debug, Clone)]
pub struct UserActivity {
    pub device_id: String,
}

/// Status of the artwork of the content playing.
#[derive(Debug, Clone, Copy, PartialEq, Eq, Structural)]
pub enum ArtStatus {
    Invalid,
    ShowDefaultImage,
    Downloading,
    ImagePresent,
}

/// Playback status of the device.
#[derive(Debug, Clone, Copy, PartialEq, Eq, Structural)]
pub enum PlayStatus {
    PlayState,
    PauseState,
    StopState,
    BufferingState,
    Invalid,
    /// A value outside the known set, kept under the permissive policy.
    Unknown,
}

/// Volume settings of the device.
#[derive(Debug, Clone, Copy, PartialEq, Eq, Structural)]
pub struct Volume {
    /// Target volume level (0-100).
    pub target_volume: u8,
    /// Current volume level (0-100).
    pub actual_volume: u8,
    pub mute_enabled: bool,
}

/// Payload of a volume change.
#[derive(Debug, Clone, Copy, PartialEq, Eq, Structural)]
pub struct VolumeUpdate {
    pub volume: Volume,
}

/// Music source of a content item.
#[derive(Debug, Clone, Copy, PartialEq, Eq, Structural)]
pub enum Source {
    Tunein,
    Spotify,
    Aux,
    Bluetooth,
    InvalidSource,
    Standby,
    /// A value outside the known set, kept under the permissive policy.
    Unknown,
}

/// Network connection state.
#[derive(Debug, Clone, Copy, PartialEq, Eq, Structural)]
pub enum ConnectionStateType {
    NetworkWifiConnected,
    /// A value outside the known set, kept under the permissive policy.
    Unknown,
}

/// Signal strength of the network connection.
#[derive(Debug, Clone, Copy, PartialEq, Eq, Structural)]
pub enum SignalStrength {
    GoodSignal,
    MarginalSignal,
    /// A value outside the known set, kept under the permissive policy.
    Unknown,
}

/// Kind of media stream.
#[derive(Debug, Clone, Copy, PartialEq, Eq, Structural)]
pub enum StreamType {
    RadioStreaming,
    TrackOndemand,
    /// A value outside the known set, kept under the permissive policy.
    Unknown,
}

/// Kind of content item.
#[derive(Debug, Clone, Copy, PartialEq, Eq, Structural)]
pub enum ContentItemType {
    StationUrl,
    TracklistUrl,
    DoNotResume,
    /// A value outside the known set, kept under the permissive policy.
    Unknown,
}

pub open spec fn spec_art_status_from_wire(s: Seq<char>) -> Result<ArtStatus, DecodeError> {
    if s == "INVALID"@ {
        Ok(ArtStatus::Invalid)
    } else if s == "SHOW_DEFAULT_IMAGE"@ {
        Ok(ArtStatus::ShowDefaultImage)
    } else if s == "DOWNLOADING"@ {
        Ok(ArtStatus::Downloading)
    } else if s == "IMAGE_PRESENT"@ {
        Ok(ArtStatus::ImagePresent)
    } else {
        Err(DecodeError::InvalidField)
    }
}

pub open spec fn spec_play_status_from_wire(s: Seq<char>, p: DecodePolicy) -> Result<PlayStatus, DecodeError> {
    if s == "PLAY_STATE"@ {
        Ok(PlayStatus::PlayState)
    } else if s == "PAUSE_STATE"@ {
        Ok(PlayStatus::PauseState)
    } else if s == "STOP_STATE"@ {
        Ok(PlayStatus::StopState)
    } else if s == "BUFFERING_STATE"@ {
        Ok(PlayStatus::BufferingState)
    } else if s == "INVALID_PLAY_STATUS"@ {
        Ok(PlayStatus::Invalid)
    } else {
        spec_unknown_value(p, PlayStatus::Unknown)
    }
}

pub open spec fn spec_source_from_wire(s: Seq<char>, p: DecodePolicy) -> Result<Source, DecodeError> {
    if s == "TUNEIN"@ {
        Ok(Source::Tunein)
    } else if s == "SPOTIFY"@ {
        Ok(Source::Spotify)
    } else if s == "AUX"@ {
        Ok(Source::Aux)
    } else if s == "BLUETOOTH"@ {
        Ok(Source::Bluetooth)
    } else if s == "INVALID_SOURCE"@ {
        Ok(Source::InvalidSource)
    } else if s == "STANDBY"@ {
        Ok(Source::Standby)
    } else {
        spec_unknown_value(p, Source::Unknown)
    }
}

pub open spec fn spec_connection_state_type_from_wire(s: Seq<char>, p: DecodePolicy) -> Result<ConnectionStateType, DecodeError> {
    if s == "NETWORK_WIFI_CONNECTED"@ {
        Ok(ConnectionStateType::NetworkWifiConnected)
    } else {
        spec_unknown_value(p, ConnectionStateType::Unknown)
    }
}

pub open spec fn spec_signal_strength_from_wire(s: Seq<char>, p: DecodePolicy) -> Result<SignalStrength, DecodeError> {
    if s == "GOOD_SIGNAL"@ {
        Ok(SignalStrength::GoodSignal)
    } else if s == "MARGINAL_SIGNAL"@ {
        Ok(SignalStrength::MarginalSignal)
    } else {
        spec_unknown_value(p, SignalStrength::Unknown)
    }
}

pub open spec fn spec_stream_type_from_wire(s: Seq<char>, p: DecodePolicy) -> Result<StreamType, DecodeError> {
    if s == "RADIO_STREAMING"@ {
        Ok(StreamType::RadioStreaming)
    } else if s == "TRACK_ONDEMAND"@ {
        Ok(StreamType::TrackOndemand)
    } else {
        spec_unknown_value(p, StreamType::Unknown)
    }
}

pub open spec fn spec_content_item_type_from_wire(s: Seq<char>, p: DecodePolicy) -> Result<ContentItemType, DecodeError> {
    if s == "stationurl"@ {
        Ok(ContentItemType::StationUrl)
    } else if s == "tracklisturl"@ {
        Ok(ContentItemType::TracklistUrl)
    } else if s == "DO_NOT_RESUME"@ {
        Ok(ContentItemType::DoNotResume)
    } else {
        spec_unknown_value(p, ContentItemType::Unknown)
    }
}

impl ArtStatus {
    /// Decodes the protocol's text for an artwork status; this set is closed
    /// under either policy.
    pub fn from_wire(s: &str) -> (r: Result<ArtStatus, DecodeError>)
        ensures
            r == spec_art_status_from_wire(s@),
    {
        if text_eq(s, "INVALID") {
            Ok(ArtStatus::Invalid)
        } else if text_eq(s, "SHOW_DEFAULT_IMAGE") {
            Ok(ArtStatus::ShowDefaultImage)
        } else if text_eq(s, "DOWNLOADING") {
            Ok(ArtStatus::Downloading)
        } else if text_eq(s, "IMAGE_PRESENT") {
            Ok(ArtStatus::ImagePresent)
        } else {
            Err(DecodeError::InvalidField)
        }
    }
}

impl PlayStatus {
    /// Decodes the protocol's text for a play status under policy `p`.
    pub fn from_wire(s: &str, p: DecodePolicy) -> (r: Result<PlayStatus, DecodeError>)
        ensures
            r == spec_play_status_from_wire(s@, p),
    {
        if text_eq(s, "PLAY_STATE") {
            Ok(PlayStatus::PlayState)
        } else if text_eq(s, "PAUSE_STATE") {
            Ok(PlayStatus::PauseState)
        } else if text_eq(s, "STOP_STATE") {
            Ok(PlayStatus::StopState)
        } else if text_eq(s, "BUFFERING_STATE") {
            Ok(PlayStatus::BufferingState)
        } else if text_eq(s, "INVALID_PLAY_STATUS") {
            Ok(PlayStatus::Invalid)
        } else {
            unknown_value(p, PlayStatus::Unknown)
        }
    }
}

impl Source {
    /// Decodes the protocol's text for a music source under policy `p`.
    pub fn from_wire(s: &str, p: DecodePolicy) -> (r: Result<Source, DecodeError>)
        ensures
            r == spec_source_from_wire(s@, p),
    {
        if text_eq(s, "TUNEIN") {
            Ok(Source::Tunein)
        } else if text_eq(s, "SPOTIFY") {
            Ok(Source::Spotify)
        } else if text_eq(s, "AUX") {
            Ok(Source::Aux)
        } else if text_eq(s, "BLUETOOTH") {
            Ok(Source::Bluetooth)
        } else if text_eq(s, "INVALID_SOURCE") {
            Ok(Source::InvalidSource)
        } else if text_eq(s, "STANDBY") {
            Ok(Source::Standby)
        } else {
            unknown_value(p, Source::Unknown)
        }
    }
}

impl ConnectionStateType {
    /// Decodes the protocol's text for a connection state under policy `p`.
    pub fn from_wire(s: &str, p: DecodePolicy) -> (r: Result<ConnectionStateType, DecodeError>)
        ensures
            r == spec_connection_state_type_from_wire(s@, p),
    {
        if text_eq(s, "NETWORK_WIFI_CONNECTED") {
            Ok(ConnectionStateType::NetworkWifiConnected)
        } else {
            unknown_value(p, ConnectionStateType::Unknown)
        }
    }
}

impl SignalStrength {
    /// Decodes the protocol's text for a signal strength under policy `p`.
    pub fn from_wire(s: &str, p: DecodePolicy) -> (r: Result<SignalStrength, DecodeError>)
        ensures
            r == spec_signal_strength_from_wire(s@, p),
    {
        if text_eq(s, "GOOD_SIGNAL") {
            Ok(SignalStrength::GoodSignal)
        } else if text_eq(s, "MARGINAL_SIGNAL") {
            Ok(SignalStrength::MarginalSignal)
        } else {
            unknown_value(p, SignalStrength::Unknown)
        }
    }
}

impl StreamType {
    /// Decodes the protocol's text for a stream type under policy `p`.
    pub fn from_wire(s: &str, p: DecodePolicy) -> (r: Result<StreamType, DecodeError>)
        ensures
            r == spec_stream_type_from_wire(s@, p),
    {
        if text_eq(s, "RADIO_STREAMING") {
            Ok(StreamType::RadioStreaming)
        } else if text_eq(s, "TRACK_ONDEMAND") {
            Ok(StreamType::TrackOndemand)
        } else {
            unknown_value(p, StreamType::Unknown)
        }
    }
}

impl ContentItemType {
    /// Decodes the protocol's text for a content item type under policy `p`.
    pub fn from_wire(s: &str, p: DecodePolicy) -> (r: Result<ContentItemType, DecodeError>)
        ensures
            r == spec_content_item_type_from_wire(s@, p),
    {
        if text_eq(s, "stationurl") {
            Ok(ContentItemType::StationUrl)
        } else if text_eq(s, "tracklisturl") {
            Ok(ContentItemType::TracklistUrl)
        } else if text_eq(s, "DO_NOT_RESUME") {
            Ok(ContentItemType::DoNotResume)
        } else {
            unknown_value(p, ContentItemType::Unknown)
        }
    }
}

/// A playable item: a station, a track list, an input.
#[derive(Debug, Clone)]
pub struct ContentItem {
    pub source: Source,
    pub item_type: Option<ContentItemType>,
    pub location: Option<String>,
    pub source_account: Option<String>,
    /// Whether this item can be stored as a preset.
    pub is_presetable: bool,
    pub item_name: Option<String>,
    /// URL of the container's artwork.
    pub container_art: Option<String>,
}

/// What the device is playing.
#[derive(Debug, Clone)]
pub struct NowPlaying {
    pub device_id: String,
    pub source: Source,
    pub source_account: Option<String>,
    pub content_item: ContentItem,
    pub track: Option<String>,
    pub artist: Option<String>,
    pub album: Option<String>,
    pub station_name: Option<String>,
    /// Artwork URL.
    pub art: Option<String>,
    pub art_status: Option<ArtStatus>,
    pub play_status: PlayStatus,
    pub stream_type: Option<StreamType>,
    pub favorite_enabled: Option<String>,
    pub description: Option<String>,
    pub station_location: Option<String>,
}

/// Payload of a now-playing change.
#[derive(Debug, Clone)]
pub struct NowPlayingUpdate {
    pub now_playing: NowPlaying,
}

/// A preset slot and its content.
#[derive(Debug, Clone)]
pub struct Preset {
    /// Slot number (1-6).
    pub id: u8,
    pub content_item: ContentItem,
}

/// A recently played item.
#[derive(Debug, Clone)]
pub struct Recent {
    pub device_id: String,
    pub utc_time: u64,
    pub id: String,
    pub content_item: ContentItem,
}

/// The recently played items, most recent first as the device sends them.
#[derive(Debug, Clone)]
pub struct Recents {
    pub recent: Vec<Recent>,
}

/// Payload of a change of the recently played items.
#[derive(Debug, Clone)]
pub struct RecentsUpdate {
    pub recents: Recents,
}

/// Network connection state of the device.
#[derive(Debug, Clone, Copy, PartialEq, Eq, Structural)]
pub struct ConnectionState {
    pub state: ConnectionStateType,
    /// Whether the connection is up.
    pub up: bool,
    pub signal: SignalStrength,
}

/// An event pushed by the device over its event stream.
#[derive(Debug, Clone)]
pub enum SoundTouchEvent {
    DeviceInfo(SdkInfo),
    UserActivity(UserActivity),
    VolumeUpdated(VolumeUpdate),
    NowPlayingUpdated(NowPlayingUpdate),
    PresetSelected(Preset),
    RecentsUpdated(RecentsUpdate),
    ConnectionStateUpdated(ConnectionState),
    /// The stream ended; no event follows on this connection.
    Disconnected,
}

/// The `updates` wrapper of the protocol: at most one field is populated.
#[derive(Debug, Clone)]
pub struct Updates {
    pub device_id: String,
    pub volume_updated: Option<VolumeUpdate>,
    pub now_playing_updated: Option<NowPlayingUpdate>,
    pub recents_updated: Option<RecentsUpdate>,
    pub connection_state_updated: Option<ConnectionState>,
}

} // verus!
