use bose_soundtouch::event::{ArtStatus, PlayStatus, Volume};
use bose_soundtouch::wire::{
    ConnectionStateWire, ContentItemWire, NowPlayingUpdateWire, NowPlayingWire, RecentWire, RecentsWire, UpdatesWire,
};
use bose_soundtouch::{
    classify_frame, event_from_updates, ConnectionState, ConnectionStateType, ContentItem, ContentItemType,
    DecodeError, DecodePolicy, FrameKind, NowPlayingUpdate, Recents, RecentsUpdate, SignalStrength,
    SoundTouchEvent, Source, StreamType, Updates, VolumeUpdate,
};

const VOLUME_FRAME: &str = r#"<updates deviceID="X"><volumeUpdated><volume><targetvolume>5</targetvolume><actualvolume>5</actualvolume><muteenabled>false</muteenabled></volume></volumeUpdated></updates>"#;

const SAMPLE_UNKNOWN_SOURCE: &str = r#"<updates deviceID="000C8AB02519">
        <nowPlayingUpdated>
            <nowPlaying deviceID="000C8AB02519" source="NEW_SOURCE" sourceAccount="">
                <ContentItem source="NEW_SOURCE" type="stationurl" location="" sourceAccount="" isPresetable="true">
                    <itemName>Unknown Source</itemName>
                </ContentItem>
                <track>Test Track</track>
                <playStatus>PLAY_STATE</playStatus>
            </nowPlaying>
        </nowPlayingUpdated>
    </updates>"#;

fn empty_updates() -> Updates {
    Updates {
        device_id: "X".to_string(),
        volume_updated: None,
        now_playing_updated: None,
        recents_updated: None,
        connection_state_updated: None,
    }
}

fn volume(target: u8, actual: u8, mute: bool) -> VolumeUpdate {
    VolumeUpdate { volume: Volume { target_volume: target, actual_volume: actual, mute_enabled: mute } }
}

fn content(source: Source) -> ContentItem {
    ContentItem {
        source,
        item_type: Some(ContentItemType::StationUrl),
        location: None,
        source_account: None,
        is_presetable: true,
        item_name: Some("Unknown Source".to_string()),
        container_art: None,
    }
}

fn now_playing(source: Source) -> NowPlayingUpdate {
    NowPlayingUpdate {
        now_playing: bose_soundtouch::event::NowPlaying {
            device_id: "000C8AB02519".to_string(),
            source,
            source_account: None,
            content_item: content(source),
            track: Some("Test Track".to_string()),
            artist: None,
            album: None,
            station_name: None,
            art: None,
            art_status: None,
            play_status: PlayStatus::PlayState,
            stream_type: None,
            favorite_enabled: None,
            description: None,
            station_location: None,
        },
    }
}

#[test]
fn frames_are_classified_by_marker() {
    assert_eq!(classify_frame(r#"<SoundTouchSdkInfo serverVersion="4" serverBuild="1"/>"#), FrameKind::DeviceInfo);
    assert_eq!(classify_frame(r#"<userActivityUpdate deviceID="X"/>"#), FrameKind::UserActivity);
    assert_eq!(classify_frame(VOLUME_FRAME), FrameKind::Updates);
    assert_eq!(classify_frame("<ping/>"), FrameKind::Unrecognized);
    assert_eq!(classify_frame(""), FrameKind::Unrecognized);
    assert_eq!(classify_frame("<update"), FrameKind::Unrecognized);
}

#[test]
fn device_info_marker_wins_over_updates() {
    let frame = r#"<updates deviceID="X"><SoundTouchSdkInfo/></updates>"#;
    assert_eq!(classify_frame(frame), FrameKind::DeviceInfo);
    let frame = r#"<updates deviceID="X"><userActivityUpdate/></updates>"#;
    assert_eq!(classify_frame(frame), FrameKind::UserActivity);
    let frame = r#"<userActivityUpdate/><SoundTouchSdkInfo/>"#;
    assert_eq!(classify_frame(frame), FrameKind::DeviceInfo);
}

#[test]
fn volume_updates_frame_becomes_volume_event() {
    assert_eq!(classify_frame(VOLUME_FRAME), FrameKind::Updates);
    let mut u = empty_updates();
    u.volume_updated = Some(volume(5, 5, false));
    match event_from_updates(u) {
        Ok(SoundTouchEvent::VolumeUpdated(update)) => {
            assert_eq!(update.volume.target_volume, 5);
            assert_eq!(update.volume.actual_volume, 5);
            assert!(!update.volume.mute_enabled);
        }
        other => panic!("unexpected {:?}", other),
    }
}

#[test]
fn updates_wrapper_tie_break_order() {
    let mut u = empty_updates();
    u.connection_state_updated = Some(ConnectionState {
        state: ConnectionStateType::NetworkWifiConnected,
        up: true,
        signal: SignalStrength::GoodSignal,
    });
    u.recents_updated = Some(RecentsUpdate { recents: Recents { recent: vec![] } });
    u.now_playing_updated = Some(now_playing(Source::Tunein));
    u.volume_updated = Some(volume(10, 12, true));
    assert!(matches!(event_from_updates(u.clone()), Ok(SoundTouchEvent::VolumeUpdated(_))));
    u.volume_updated = None;
    assert!(matches!(event_from_updates(u.clone()), Ok(SoundTouchEvent::NowPlayingUpdated(_))));
    u.now_playing_updated = None;
    assert!(matches!(event_from_updates(u.clone()), Ok(SoundTouchEvent::RecentsUpdated(_))));
    u.recents_updated = None;
    match event_from_updates(u) {
        Ok(SoundTouchEvent::ConnectionStateUpdated(state)) => {
            assert_eq!(state.state, ConnectionStateType::NetworkWifiConnected);
            assert!(state.up);
            assert_eq!(state.signal, SignalStrength::GoodSignal);
        }
        other => panic!("unexpected {:?}", other),
    }
}

#[test]
fn empty_updates_wrapper_is_unrecognized() {
    assert!(matches!(event_from_updates(empty_updates()), Err(DecodeError::UnrecognizedFrame)));
}

#[test]
fn unknown_source_strict_and_permissive() {
    assert_eq!(classify_frame(SAMPLE_UNKNOWN_SOURCE), FrameKind::Updates);
    assert_eq!(Source::from_wire("NEW_SOURCE", DecodePolicy::Strict), Err(DecodeError::InvalidField));
    assert_eq!(Source::from_wire("NEW_SOURCE", DecodePolicy::Permissive), Ok(Source::Unknown));
    let mut u = empty_updates();
    u.now_playing_updated = Some(now_playing(Source::from_wire("NEW_SOURCE", DecodePolicy::Permissive).unwrap()));
    match event_from_updates(u) {
        Ok(SoundTouchEvent::NowPlayingUpdated(update)) => {
            assert!(matches!(update.now_playing.source, Source::Unknown));
            assert!(matches!(update.now_playing.content_item.source, Source::Unknown));
        }
        other => panic!("unexpected {:?}", other),
    }
}

#[test]
fn known_enum_values_decode_under_both_policies() {
    for p in [DecodePolicy::Strict, DecodePolicy::Permissive] {
        assert_eq!(Source::from_wire("TUNEIN", p), Ok(Source::Tunein));
        assert_eq!(Source::from_wire("SPOTIFY", p), Ok(Source::Spotify));
        assert_eq!(Source::from_wire("AUX", p), Ok(Source::Aux));
        assert_eq!(Source::from_wire("BLUETOOTH", p), Ok(Source::Bluetooth));
        assert_eq!(Source::from_wire("INVALID_SOURCE", p), Ok(Source::InvalidSource));
        assert_eq!(Source::from_wire("STANDBY", p), Ok(Source::Standby));
        assert_eq!(PlayStatus::from_wire("PAUSE_STATE", p), Ok(PlayStatus::PauseState));
        assert_eq!(PlayStatus::from_wire("INVALID_PLAY_STATUS", p), Ok(PlayStatus::Invalid));
        assert_eq!(
            ConnectionStateType::from_wire("NETWORK_WIFI_CONNECTED", p),
            Ok(ConnectionStateType::NetworkWifiConnected)
        );
        assert_eq!(SignalStrength::from_wire("MARGINAL_SIGNAL", p), Ok(SignalStrength::MarginalSignal));
        assert_eq!(StreamType::from_wire("TRACK_ONDEMAND", p), Ok(StreamType::TrackOndemand));
        assert_eq!(ContentItemType::from_wire("tracklisturl", p), Ok(ContentItemType::TracklistUrl));
        assert_eq!(ContentItemType::from_wire("DO_NOT_RESUME", p), Ok(ContentItemType::DoNotResume));
    }
}

#[test]
fn unknown_enum_values_follow_policy() {
    let strict = DecodePolicy::Strict;
    let loose = DecodePolicy::Permissive;
    assert_eq!(PlayStatus::from_wire("REWIND", strict), Err(DecodeError::InvalidField));
    assert_eq!(PlayStatus::from_wire("REWIND", loose), Ok(PlayStatus::Unknown));
    assert_eq!(ConnectionStateType::from_wire("NETWORK_ETHERNET", strict), Err(DecodeError::InvalidField));
    assert_eq!(ConnectionStateType::from_wire("NETWORK_ETHERNET", loose), Ok(ConnectionStateType::Unknown));
    assert_eq!(SignalStrength::from_wire("POOR_SIGNAL", strict), Err(DecodeError::InvalidField));
    assert_eq!(SignalStrength::from_wire("POOR_SIGNAL", loose), Ok(SignalStrength::Unknown));
    assert_eq!(StreamType::from_wire("PODCAST", strict), Err(DecodeError::InvalidField));
    assert_eq!(StreamType::from_wire("PODCAST", loose), Ok(StreamType::Unknown));
    assert_eq!(ContentItemType::from_wire("STATIONURL", strict), Err(DecodeError::InvalidField));
    assert_eq!(ContentItemType::from_wire("STATIONURL", loose), Ok(ContentItemType::Unknown));
    assert_eq!(Source::from_wire("tunein", strict), Err(DecodeError::InvalidField));
    assert_eq!(Source::from_wire("", loose), Ok(Source::Unknown));
}

#[test]
fn art_status_is_closed_under_both_policies() {
    assert_eq!(ArtStatus::from_wire("IMAGE_PRESENT"), Ok(ArtStatus::ImagePresent));
    assert_eq!(ArtStatus::from_wire("SHOW_DEFAULT_IMAGE"), Ok(ArtStatus::ShowDefaultImage));
    assert_eq!(ArtStatus::from_wire("BLURRED"), Err(DecodeError::InvalidField));
}

fn unknown_source_wire() -> UpdatesWire {
    UpdatesWire {
        device_id: "000C8AB02519".to_string(),
        volume_updated: None,
        now_playing_updated: Some(NowPlayingUpdateWire {
            now_playing: NowPlayingWire {
                device_id: "000C8AB02519".to_string(),
                source: "NEW_SOURCE".to_string(),
                source_account: Some(String::new()),
                content_item: ContentItemWire {
                    source: "NEW_SOURCE".to_string(),
                    item_type: Some("stationurl".to_string()),
                    location: Some(String::new()),
                    source_account: Some(String::new()),
                    is_presetable: true,
                    item_name: Some("Unknown Source".to_string()),
                    container_art: None,
                },
                track: Some("Test Track".to_string()),
                artist: None,
                album: None,
                station_name: None,
                art: None,
                art_status: None,
                play_status: "PLAY_STATE".to_string(),
                stream_type: None,
                favorite_enabled: None,
                description: None,
                station_location: None,
            },
        }),
        recents_updated: None,
        connection_state_updated: None,
    }
}

#[test]
fn unknown_source_frame_strict_fails_permissive_decodes() {
    assert!(matches!(
        unknown_source_wire().into_event(DecodePolicy::Strict),
        Err(DecodeError::InvalidField)
    ));
    match unknown_source_wire().into_event(DecodePolicy::Permissive) {
        Ok(SoundTouchEvent::NowPlayingUpdated(update)) => {
            assert!(matches!(update.now_playing.source, Source::Unknown));
            assert!(matches!(update.now_playing.content_item.source, Source::Unknown));
            assert_eq!(update.now_playing.content_item.item_type, Some(ContentItemType::StationUrl));
            assert_eq!(update.now_playing.track.as_deref(), Some("Test Track"));
            assert_eq!(update.now_playing.play_status, PlayStatus::PlayState);
        }
        other => panic!("unexpected {:?}", other),
    }
}

#[test]
fn volume_wrapper_decodes_to_volume_event() {
    let w = UpdatesWire {
        device_id: "X".to_string(),
        volume_updated: Some(volume(5, 5, false)),
        now_playing_updated: None,
        recents_updated: None,
        connection_state_updated: None,
    };
    match w.into_event(DecodePolicy::Strict) {
        Ok(SoundTouchEvent::VolumeUpdated(update)) => {
            assert_eq!(update.volume, Volume { target_volume: 5, actual_volume: 5, mute_enabled: false });
        }
        other => panic!("unexpected {:?}", other),
    }
}

#[test]
fn one_bad_field_fails_the_whole_wrapper() {
    let mut w = unknown_source_wire();
    w.volume_updated = Some(volume(1, 1, true));
    assert!(matches!(w.clone().into_event(DecodePolicy::Strict), Err(DecodeError::InvalidField)));
    assert!(matches!(w.into_event(DecodePolicy::Permissive), Ok(SoundTouchEvent::VolumeUpdated(_))));
    let c = ConnectionStateWire { state: "NETWORK_WIFI_CONNECTED".to_string(), up: true, signal: "NO_SIGNAL".to_string() };
    assert!(matches!(c.clone().decode(DecodePolicy::Strict), Err(DecodeError::InvalidField)));
    assert_eq!(
        c.decode(DecodePolicy::Permissive),
        Ok(ConnectionState { state: ConnectionStateType::NetworkWifiConnected, up: true, signal: SignalStrength::Unknown })
    );
}

#[test]
fn recents_decode_in_order() {
    let item = |source: &str| ContentItemWire {
        source: source.to_string(),
        item_type: None,
        location: None,
        source_account: None,
        is_presetable: false,
        item_name: None,
        container_art: None,
    };
    let recent = |id: &str, source: &str| RecentWire {
        device_id: "D".to_string(),
        utc_time: 1700000000,
        id: id.to_string(),
        content_item: item(source),
    };
    let good = RecentsWire { recent: vec![recent("1", "SPOTIFY"), recent("2", "TUNEIN")] };
    let decoded = good.decode(DecodePolicy::Strict).unwrap();
    assert_eq!(decoded.recent.len(), 2);
    assert_eq!(decoded.recent[0].id, "1");
    assert_eq!(decoded.recent[0].content_item.source, Source::Spotify);
    assert_eq!(decoded.recent[1].content_item.source, Source::Tunein);
    let bad = RecentsWire { recent: vec![recent("1", "SPOTIFY"), recent("2", "PANDORA")] };
    assert!(matches!(bad.clone().decode(DecodePolicy::Strict), Err(DecodeError::InvalidField)));
    assert_eq!(bad.decode(DecodePolicy::Permissive).unwrap().recent[1].content_item.source, Source::Unknown);
    assert_eq!(RecentsWire { recent: vec![] }.decode(DecodePolicy::Strict).unwrap().recent.len(), 0);
}
