//! The `updates` wrapper as the XML decoder hands it over, with every
//! enumerated field still as text, and its decoding into the event model
//! under a [`DecodePolicy`]. A wrapper decodes as a whole or not at all: one
//! field that does not decode fails the frame.

use vstd::prelude::*;
use crate::event::{
    spec_art_status_from_wire, spec_connection_state_type_from_wire, spec_content_item_type_from_wire,
    spec_play_status_from_wire, spec_signal_strength_from_wire, spec_source_from_wire,
    spec_stream_type_from_wire, ArtStatus, ConnectionState, ConnectionStateType, ContentItem, ContentItemType,
    DecodeError, DecodePolicy, NowPlaying, NowPlayingUpdate, PlayStatus, Recent, Recents, RecentsUpdate,
    SignalStrength, SoundTouchEvent, Source, StreamType, Updates, VolumeUpdate,
};
use crate::frame::{event_from_updates, spec_event_from_updates};

verus! {

/// A content item with its enumerated fields as text.
#[derive(Debug, Clone)]
pub struct ContentItemWire {
    pub source: String,
    pub item_type: Option<String>,
    pub location: Option<String>,
    pub source_account: Option<String>,
    pub is_presetable: bool,
    pub item_name: Option<String>,
    pub container_art: Option<String>,
}

/// Now-playing information with its enumerated fields as text.
#[derive(Debug, Clone)]
pub struct NowPlayingWire {
    pub device_id: String,
    pub source: String,
    pub source_account: Option<String>,
    pub content_item: ContentItemWire,
    pub track: Option<String>,
    pub artist: Option<String>,
    pub album: Option<String>,
    pub station_name: Option<String>,
    pub art: Option<String>,
    pub art_status: Option<String>,
    pub play_status: String,
    pub stream_type: Option<String>,
    pub favorite_enabled: Option<String>,
    pub description: Option<String>,
    pub station_location: Option<String>,
}

#[derive(Debug, Clone)]
pub struct NowPlayingUpdateWire {
    pub now_playing: NowPlayingWire,
}

#[derive(Debug, Clone)]
pub struct RecentWire {
    pub device_id: String,
    pub utc_time: u64,
    pub id: String,
    pub content_item: ContentItemWire,
}

#[derive(Debug, Clone)]
pub struct RecentsWire {
    pub recent: Vec<RecentWire>,
}

#[derive(Debug, Clone)]
pub struct RecentsUpdateWire {
    pub recents: RecentsWire,
}

/// A connection state with its enumerated fields as text.
#[derive(Debug, Clone)]
pub struct ConnectionStateWire {
    pub state: String,
    pub up: bool,
    pub signal: String,
}

/// The `updates` wrapper with its enumerated fields as text.
#[derive(Debug, Clone)]
pub struct UpdatesWire {
    pub device_id: String,
    pub volume_updated: Option<VolumeUpdate>,
    pub now_playing_updated: Option<NowPlayingUpdateWire>,
    pub recents_updated: Option<RecentsUpdateWire>,
    pub connection_state_updated: Option<ConnectionStateWire>,
}

pub open spec fn spec_opt_item_type(o: Option<String>, p: DecodePolicy) -> Result<Option<ContentItemType>, DecodeError> {
    match o {
        None => Ok(None),
        Some(s) => match spec_content_item_type_from_wire(s@, p) {
            Ok(t) => Ok(Some(t)),
            Err(e) => Err(e),
        },
    }
}

pub open spec fn spec_opt_art_status(o: Option<String>) -> Result<Option<ArtStatus>, DecodeError> {
    match o {
        None => Ok(None),
        Some(s) => match spec_art_status_from_wire(s@) {
            Ok(t) => Ok(Some(t)),
            Err(e) => Err(e),
        },
    }
}

pub open spec fn spec_opt_stream_type(o: Option<String>, p: DecodePolicy) -> Result<Option<StreamType>, DecodeError> {
    match o {
        None => Ok(None),
        Some(s) => match spec_stream_type_from_wire(s@, p) {
            Ok(t) => Ok(Some(t)),
            Err(e) => Err(e),
        },
    }
}

/// The content item a wire content item decodes to.
pub open spec fn spec_content_item(w: ContentItemWire, p: DecodePolicy) -> Result<ContentItem, DecodeError> {
    match (spec_source_from_wire(w.source@, p), spec_opt_item_type(w.item_type, p)) {
        (Ok(source), Ok(item_type)) => Ok(
            ContentItem {
                source,
                item_type,
                location: w.location,
                source_account: w.source_account,
                is_presetable: w.is_presetable,
                item_name: w.item_name,
                container_art: w.container_art,
            },
        ),
        _ => Err(DecodeError::InvalidField),
    }
}

/// The now-playing information a wire one decodes to.
pub open spec fn spec_now_playing(w: NowPlayingWire, p: DecodePolicy) -> Result<NowPlaying, DecodeError> {
    match (
        spec_source_from_wire(w.source@, p),
        spec_content_item(w.content_item, p),
        spec_opt_art_status(w.art_status),
        spec_play_status_from_wire(w.play_status@, p),
        spec_opt_stream_type(w.stream_type, p),
    ) {
        (Ok(source), Ok(content_item), Ok(art_status), Ok(play_status), Ok(stream_type)) => Ok(
            NowPlaying {
                device_id: w.device_id,
                source,
                source_account: w.source_account,
                content_item,
                track: w.track,
                artist: w.artist,
                album: w.album,
                station_name: w.station_name,
                art: w.art,
                art_status,
                play_status,
                stream_type,
                favorite_enabled: w.favorite_enabled,
                description: w.description,
                station_location: w.station_location,
            },
        ),
        _ => Err(DecodeError::InvalidField),
    }
}

/// The recently played item a wire one decodes to.
pub open spec fn spec_recent(w: RecentWire, p: DecodePolicy) -> Result<Recent, DecodeError> {
    match spec_content_item(w.content_item, p) {
        Ok(content_item) => Ok(Recent { device_id: w.device_id, utc_time: w.utc_time, id: w.id, content_item }),
        Err(e) => Err(e),
    }
}

/// The connection state a wire one decodes to.
pub open spec fn spec_connection_state(w: ConnectionStateWire, p: DecodePolicy) -> Result<ConnectionState, DecodeError> {
    match (spec_connection_state_type_from_wire(w.state@, p), spec_signal_strength_from_wire(w.signal@, p)) {
        (Ok(state), Ok(signal)) => Ok(ConnectionState { state, up: w.up, signal }),
        _ => Err(DecodeError::InvalidField),
    }
}

/// Whether every recently played item decodes.
pub open spec fn recents_decodable(ws: Seq<RecentWire>, p: DecodePolicy) -> bool {
    forall|i: int| 0 <= i < ws.len() ==> #[trigger] spec_recent(ws[i], p) is Ok
}

/// `v` is what `ws` decodes to, item by item.
pub open spec fn recents_decoded(v: Seq<Recent>, ws: Seq<RecentWire>, p: DecodePolicy) -> bool {
    &&& v.len() == ws.len()
    &&& forall|i: int| 0 <= i < ws.len() ==> Ok::<Recent, DecodeError>(#[trigger] v[i]) == spec_recent(ws[i], p)
}

/// Whether every populated field of a wrapper decodes.
pub open spec fn updates_decodable(w: UpdatesWire, p: DecodePolicy) -> bool {
    &&& (w.now_playing_updated matches Some(n) ==> spec_now_playing(n.now_playing, p) is Ok)
    &&& (w.recents_updated matches Some(r) ==> recents_decodable(r.recents.recent@, p))
    &&& (w.connection_state_updated matches Some(c) ==> spec_connection_state(c, p) is Ok)
}

/// `u` is what the wrapper `w` decodes to, field by field.
pub open spec fn updates_decoded(u: Updates, w: UpdatesWire, p: DecodePolicy) -> bool {
    &&& u.device_id == w.device_id
    &&& u.volume_updated == w.volume_updated
    &&& match (u.now_playing_updated, w.now_playing_updated) {
        (None, None) => true,
        (Some(a), Some(b)) => Ok::<NowPlaying, DecodeError>(a.now_playing) == spec_now_playing(b.now_playing, p),
        _ => false,
    }
    &&& match (u.recents_updated, w.recents_updated) {
        (None, None) => true,
        (Some(a), Some(b)) => recents_decoded(a.recents.recent@, b.recents.recent@, p),
        _ => false,
    }
    &&& match (u.connection_state_updated, w.connection_state_updated) {
        (None, None) => true,
        (Some(a), Some(b)) => Ok::<ConnectionState, DecodeError>(a) == spec_connection_state(b, p),
        _ => false,
    }
}

impl ContentItemWire {
    pub fn decode(self, p: DecodePolicy) -> (r: Result<ContentItem, DecodeError>)
        ensures
            r == spec_content_item(self, p),
    {
        let source = Source::from_wire(self.source.as_str(), p);
        let item_type = match &self.item_type {
            None => Ok(None),
            Some(s) => match ContentItemType::from_wire(s.as_str(), p) {
                Ok(t) => Ok(Some(t)),
                Err(e) => Err(e),
            },
        };
        match (source, item_type) {
            (Ok(source), Ok(item_type)) => Ok(
                ContentItem {
                    source,
                    item_type,
                    location: self.location,
                    source_account: self.source_account,
                    is_presetable: self.is_presetable,
                    item_name: self.item_name,
                    container_art: self.container_art,
                },
            ),
            _ => Err(DecodeError::InvalidField),
        }
    }
}

impl NowPlayingWire {
    pub fn decode(self, p: DecodePolicy) -> (r: Result<NowPlaying, DecodeError>)
        ensures
            r == spec_now_playing(self, p),
    {
        let source = Source::from_wire(self.source.as_str(), p);
        let art_status = match &self.art_status {
            None => Ok(None),
            Some(s) => match ArtStatus::from_wire(s.as_str()) {
                Ok(t) => Ok(Some(t)),
                Err(e) => Err(e),
            },
        };
        let play_status = PlayStatus::from_wire(self.play_status.as_str(), p);
        let stream_type = match &self.stream_type {
            None => Ok(None),
            Some(s) => match StreamType::from_wire(s.as_str(), p) {
                Ok(t) => Ok(Some(t)),
                Err(e) => Err(e),
            },
        };
        let content_item = self.content_item.decode(p);
        match (source, content_item, art_status, play_status, stream_type) {
            (Ok(source), Ok(content_item), Ok(art_status), Ok(play_status), Ok(stream_type)) => Ok(
                NowPlaying {
                    device_id: self.device_id,
                    source,
                    source_account: self.source_account,
                    content_item,
                    track: self.track,
                    artist: self.artist,
                    album: self.album,
                    station_name: self.station_name,
                    art: self.art,
                    art_status,
                    play_status,
                    stream_type,
                    favorite_enabled: self.favorite_enabled,
                    description: self.description,
                    station_location: self.station_location,
                },
            ),
            _ => Err(DecodeError::InvalidField),
        }
    }
}

impl RecentWire {
    pub fn decode(self, p: DecodePolicy) -> (r: Result<Recent, DecodeError>)
        ensures
            r == spec_recent(self, p),
    {
        match self.content_item.decode(p) {
            Ok(content_item) => Ok(
                Recent { device_id: self.device_id, utc_time: self.utc_time, id: self.id, content_item },
            ),
            Err(e) => Err(e),
        }
    }
}

impl RecentsWire {
    /// Decodes every item, in order; fails if any item fails.
    pub fn decode(self, p: DecodePolicy) -> (r: Result<Recents, DecodeError>)
        ensures
            recents_decodable(self.recent@, p) ==> (r matches Ok(v) && recents_decoded(v.recent@, self.recent@, p)),
            !recents_decodable(self.recent@, p) ==> r == Err::<Recents, DecodeError>(DecodeError::InvalidField),
    {
        let ghost all = self.recent@;
        assert(all == self.recent@);
        let mut rest = self.recent;
        let mut out: Vec<Recent> = Vec::new();
        while rest.len() > 0
            invariant
                all == self.recent@,
                out@.len() + rest@.len() == all.len(),
                rest@ == all.subrange(out@.len() as int, all.len() as int),
                forall|i: int| 0 <= i < out@.len() ==> Ok::<Recent, DecodeError>(#[trigger] out@[i]) == spec_recent(all[i], p),
            decreases rest@.len(),
        {
            let ghost k = out@.len() as int;
            let w = rest.remove(0);
            assert(w == all[k]);
            match w.decode(p) {
                Ok(item) => out.push(item),
                Err(_) => {
                    assert(spec_recent(all[k], p) is Err);
                    assert(!recents_decodable(all, p));
                    return Err(DecodeError::InvalidField);
                },
            }
            assert(rest@ =~= all.subrange(out@.len() as int, all.len() as int));
        }
        assert forall|i: int| 0 <= i < all.len() implies #[trigger] spec_recent(all[i], p) is Ok by {
            assert(Ok::<Recent, DecodeError>(out@[i]) == spec_recent(all[i], p));
        }
        Ok(Recents { recent: out })
    }
}

impl ConnectionStateWire {
    pub fn decode(self, p: DecodePolicy) -> (r: Result<ConnectionState, DecodeError>)
        ensures
            r == spec_connection_state(self, p),
    {
        match (ConnectionStateType::from_wire(self.state.as_str(), p), SignalStrength::from_wire(self.signal.as_str(), p)) {
            (Ok(state), Ok(signal)) => Ok(ConnectionState { state, up: self.up, signal }),
            _ => Err(DecodeError::InvalidField),
        }
    }
}

impl UpdatesWire {
    /// Decodes every populated field; fails as a whole when any of them fails.
    pub fn decode(self, p: DecodePolicy) -> (r: Result<Updates, DecodeError>)
        ensures
            updates_decodable(self, p) ==> (r matches Ok(u) && updates_decoded(u, self, p)),
            !updates_decodable(self, p) ==> r == Err::<Updates, DecodeError>(DecodeError::InvalidField),
    {
        let ghost w = self;
        let now_playing_updated = match self.now_playing_updated {
            None => None,
            Some(n) => match n.now_playing.decode(p) {
                Ok(now_playing) => Some(NowPlayingUpdate { now_playing }),
                Err(_) => return Err(DecodeError::InvalidField),
            },
        };
        let recents_updated = match self.recents_updated {
            None => None,
            Some(r) => match r.recents.decode(p) {
                Ok(recents) => Some(RecentsUpdate { recents }),
                Err(_) => return Err(DecodeError::InvalidField),
            },
        };
        let connection_state_updated = match self.connection_state_updated {
            None => None,
            Some(c) => match c.decode(p) {
                Ok(c) => Some(c),
                Err(_) => return Err(DecodeError::InvalidField),
            },
        };
        Ok(
            Updates {
                device_id: self.device_id,
                volume_updated: self.volume_updated,
                now_playing_updated,
                recents_updated,
                connection_state_updated,
            },
        )
    }

    /// Decodes the wrapper under policy `p` and turns it into the event it
    /// carries.
    pub fn into_event(self, p: DecodePolicy) -> (r: Result<SoundTouchEvent, DecodeError>)
        ensures
            !updates_decodable(self, p) ==> r == Err::<SoundTouchEvent, DecodeError>(DecodeError::InvalidField),
            updates_decodable(self, p) ==> exists|u: Updates| updates_decoded(u, self, p) && r == spec_event_from_updates(u),
    {
        match self.decode(p) {
            Ok(u) => event_from_updates(u),
            Err(e) => Err(e),
        }
    }
}

} // verus!
