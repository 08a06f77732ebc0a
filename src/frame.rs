//! Frame classification: which decode path an inbound text frame takes, and
//! which event an `updates` wrapper becomes.

use vstd::prelude::*;
use vstd::string::StringSliceAdditionalSpecFns;
use crate::event::{DecodeError, SoundTouchEvent, Updates};
use crate::text::{contains_text, seq_contains};

verus! {

/// Marker of a frame that carries the device's SDK information.
pub const SDK_INFO_MARKER: &'static str = "SoundTouchSdkInfo";

/// Marker of a frame that reports user activity.
pub const USER_ACTIVITY_MARKER: &'static str = "userActivityUpdate";

/// Marker of a frame that holds an `updates` wrapper.
pub const UPDATES_MARKER: &'static str = "<updates";

/// The decode path a frame takes.
#[derive(Debug, Clone, Copy, PartialEq, Eq, Structural)]
pub enum FrameKind {
    DeviceInfo,
    UserActivity,
    Updates,
    Unrecognized,
}

/// Classification by markers, in fixed priority: SDK information first,
/// then user activity, then the `updates` wrapper.
pub open spec fn spec_frame_kind(frame: Seq<u8>) -> FrameKind {
    if seq_contains(frame, SDK_INFO_MARKER.spec_bytes()) {
        FrameKind::DeviceInfo
    } else if seq_contains(frame, USER_ACTIVITY_MARKER.spec_bytes()) {
        FrameKind::UserActivity
    } else if seq_contains(frame, UPDATES_MARKER.spec_bytes()) {
        FrameKind::Updates
    } else {
        FrameKind::Unrecognized
    }
}

/// Picks the decode path of a text frame from the markers it contains.
pub fn classify_frame(frame: &str) -> (r: FrameKind)
    ensures
        r == spec_frame_kind(frame.spec_bytes()),
{
    if contains_text(frame, SDK_INFO_MARKER) {
        FrameKind::DeviceInfo
    } else if contains_text(frame, USER_ACTIVITY_MARKER) {
        FrameKind::UserActivity
    } else if contains_text(frame, UPDATES_MARKER) {
        FrameKind::Updates
    } else {
        FrameKind::Unrecognized
    }
}

/// The event an `updates` wrapper stands for: its populated field, taken in
/// the order volume, now playing, recents, connection state.
pub open spec fn spec_event_from_updates(u: Updates) -> Result<SoundTouchEvent, DecodeError> {
    if let Some(v) = u.volume_updated {
        Ok(SoundTouchEvent::VolumeUpdated(v))
    } else if let Some(n) = u.now_playing_updated {
        Ok(SoundTouchEvent::NowPlayingUpdated(n))
    } else if let Some(r) = u.recents_updated {
        Ok(SoundTouchEvent::RecentsUpdated(r))
    } else if let Some(c) = u.connection_state_updated {
        Ok(SoundTouchEvent::ConnectionStateUpdated(c))
    } else {
        Err(DecodeError::UnrecognizedFrame)
    }
}

/// Turns a decoded `updates` wrapper into the event it carries; a wrapper
/// with no populated field is an unrecognized frame.
pub fn event_from_updates(u: Updates) -> (r: Result<SoundTouchEvent, DecodeError>)
    ensures
        r == spec_event_from_updates(u),
{
    if let Some(v) = u.volume_updated {
        Ok(SoundTouchEvent::VolumeUpdated(v))
    } else if let Some(n) = u.now_playing_updated {
        Ok(SoundTouchEvent::NowPlayingUpdated(n))
    } else if let Some(r) = u.recents_updated {
        Ok(SoundTouchEvent::RecentsUpdated(r))
    } else if let Some(c) = u.connection_state_updated {
        Ok(SoundTouchEvent::ConnectionStateUpdated(c))
    } else {
        Err(DecodeError::UnrecognizedFrame)
    }
}

/// A frame that contains the SDK information marker is decoded as device
/// information, whatever other markers it also contains.
pub proof fn lemma_sdk_marker_takes_priority(frame: Seq<u8>)
    requires
        seq_contains(frame, SDK_INFO_MARKER.spec_bytes()),
    ensures
        spec_frame_kind(frame) == FrameKind::DeviceInfo,
{
}

/// A frame with the user activity marker and no SDK information marker is
/// decoded as user activity, even when it also holds an `updates` wrapper.
pub proof fn lemma_user_activity_before_updates(frame: Seq<u8>)
    requires
        !seq_contains(frame, SDK_INFO_MARKER.spec_bytes()),
        seq_contains(frame, USER_ACTIVITY_MARKER.spec_bytes()),
    ensures
        spec_frame_kind(frame) == FrameKind::UserActivity,
{
}

} // verus!
