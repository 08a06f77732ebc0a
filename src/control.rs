//! The request/response control surface: the data the device's HTTP API
//! returns, the bodies it accepts, and the decisions the client makes on them.

use vstd::prelude::*;
use vstd::string::StringExecFns;
use crate::error::BoseError;
use crate::text::{append_signed_decimal, signed_decimal, text_eq};
use crate::xml::{escape, spec_escape};

verus! {

/// Port of the device's HTTP API.
pub const HTTP_PORT_SUFFIX: &'static str = ":8090";

/// Remote control keys.
#[derive(Debug, Clone, Copy, PartialEq, Eq, Structural)]
pub enum KeyValue {
    Play,
    Pause,
    Stop,
    PrevTrack,
    NextTrack,
    ThumbsUp,
    ThumbsDown,
    Bookmark,
    Power,
    Mute,
    Preset1,
    Preset2,
    Preset3,
    Preset4,
    Preset5,
    Preset6,
    AddFavorite,
    RemoveFavorite,
    AuxInput,
    ShuffleOff,
    ShuffleOn,
    RepeatOff,
    RepeatOne,
    RepeatAll,
    PlayPause,
}

/// The protocol's name of a key.
pub open spec fn spec_key_name(k: KeyValue) -> Seq<char> {
    match k {
        KeyValue::Play => "PLAY"@,
        KeyValue::Pause => "PAUSE"@,
        KeyValue::Stop => "STOP"@,
        KeyValue::PrevTrack => "PREV_TRACK"@,
        KeyValue::NextTrack => "NEXT_TRACK"@,
        KeyValue::ThumbsUp => "THUMBS_UP"@,
        KeyValue::ThumbsDown => "THUMBS_DOWN"@,
        KeyValue::Bookmark => "BOOKMARK"@,
        KeyValue::Power => "POWER"@,
        KeyValue::Mute => "MUTE"@,
        KeyValue::Preset1 => "PRESET_1"@,
        KeyValue::Preset2 => "PRESET_2"@,
        KeyValue::Preset3 => "PRESET_3"@,
        KeyValue::Preset4 => "PRESET_4"@,
        KeyValue::Preset5 => "PRESET_5"@,
        KeyValue::Preset6 => "PRESET_6"@,
        KeyValue::AddFavorite => "ADD_FAVORITE"@,
        KeyValue::RemoveFavorite => "REMOVE_FAVORITE"@,
        KeyValue::AuxInput => "AUX_INPUT"@,
        KeyValue::ShuffleOff => "SHUFFLE_OFF"@,
        KeyValue::ShuffleOn => "SHUFFLE_ON"@,
        KeyValue::RepeatOff => "REPEAT_OFF"@,
        KeyValue::RepeatOne => "REPEAT_ONE"@,
        KeyValue::RepeatAll => "REPEAT_ALL"@,
        KeyValue::PlayPause => "PLAY_PAUSE"@,
    }
}

impl KeyValue {
    /// The protocol's name of this key.
    pub fn wire_name(&self) -> (r: &'static str)
        ensures
            r@ == spec_key_name(*self),
    {
        match self {
            KeyValue::Play => "PLAY",
            KeyValue::Pause => "PAUSE",
            KeyValue::Stop => "STOP",
            KeyValue::PrevTrack => "PREV_TRACK",
            KeyValue::NextTrack => "NEXT_TRACK",
            KeyValue::ThumbsUp => "THUMBS_UP",
            KeyValue::ThumbsDown => "THUMBS_DOWN",
            KeyValue::Bookmark => "BOOKMARK",
            KeyValue::Power => "POWER",
            KeyValue::Mute => "MUTE",
            KeyValue::Preset1 => "PRESET_1",
            KeyValue::Preset2 => "PRESET_2",
            KeyValue::Preset3 => "PRESET_3",
            KeyValue::Preset4 => "PRESET_4",
            KeyValue::Preset5 => "PRESET_5",
            KeyValue::Preset6 => "PRESET_6",
            KeyValue::AddFavorite => "ADD_FAVORITE",
            KeyValue::RemoveFavorite => "REMOVE_FAVORITE",
            KeyValue::AuxInput => "AUX_INPUT",
            KeyValue::ShuffleOff => "SHUFFLE_OFF",
            KeyValue::ShuffleOn => "SHUFFLE_ON",
            KeyValue::RepeatOff => "REPEAT_OFF",
            KeyValue::RepeatOne => "REPEAT_ONE",
            KeyValue::RepeatAll => "REPEAT_ALL",
            KeyValue::PlayPause => "PLAY_PAUSE",
        }
    }
}

#[derive(Debug, Clone, Copy, PartialEq, Eq, Structural)]
enum KeyState {
    Press,
    Release,
}

/// Body of a volume change.
#[derive(Debug, Clone, Copy, PartialEq, Eq, Structural)]
pub struct PostVolume {
    pub value: i32,
}

/// The body `<volume>N</volume>`.
pub open spec fn spec_volume_xml(value: int) -> Seq<char> {
    "<volume>"@ + signed_decimal(value) + "</volume>"@
}

impl PostVolume {
    pub fn new(value: i32) -> (r: PostVolume)
        ensures
            r.value == value,
    {
        PostVolume { value }
    }

    /// The request body that sets this volume.
    pub fn to_xml(&self) -> (r: String)
        ensures
            r@ == spec_volume_xml(self.value as int),
    {
        let mut s = String::from_str("<volume>");
        append_signed_decimal(&mut s, self.value);
        s.append("</volume>");
        s
    }
}

/// Body of one key event: a press or a release of a key.
#[derive(Debug, Clone, Copy, PartialEq, Eq, Structural)]
pub struct PostKey {
    value: KeyValue,
    state: KeyState,
}

/// The body `<key state="press|release" sender="Gabbo">NAME</key>`.
pub open spec fn spec_key_xml(key: KeyValue, pressed: bool) -> Seq<char> {
    "<key state=\""@ + (if pressed {
        "press"@
    } else {
        "release"@
    }) + "\" sender=\"Gabbo\">"@ + spec_key_name(key) + "</key>"@
}

impl PostKey {
    pub closed spec fn key(&self) -> KeyValue {
        self.value
    }

    pub closed spec fn is_press(&self) -> bool {
        self.state == KeyState::Press
    }

    /// The press of `key`.
    pub fn press(key: &KeyValue) -> (r: PostKey)
        ensures
            r.key() == *key,
            r.is_press(),
    {
        PostKey { value: *key, state: KeyState::Press }
    }

    /// The release of `value`.
    pub fn release(value: &KeyValue) -> (r: PostKey)
        ensures
            r.key() == *value,
            !r.is_press(),
    {
        PostKey { value: *value, state: KeyState::Release }
    }

    /// The request body of this key event.
    pub fn to_xml(&self) -> (r: String)
        ensures
            r@ == spec_key_xml(self.key(), self.is_press()),
    {
        let mut s = String::from_str("<key state=\"");
        match self.state {
            KeyState::Press => s.append("press"),
            KeyState::Release => s.append("release"),
        }
        s.append("\" sender=\"Gabbo\">");
        s.append(self.value.wire_name());
        s.append("</key>");
        s
    }
}

/// The key that selects preset `value`.
pub open spec fn spec_preset_key(value: int) -> Option<KeyValue> {
    if value == 1 {
        Some(KeyValue::Preset1)
    } else if value == 2 {
        Some(KeyValue::Preset2)
    } else if value == 3 {
        Some(KeyValue::Preset3)
    } else if value == 4 {
        Some(KeyValue::Preset4)
    } else if value == 5 {
        Some(KeyValue::Preset5)
    } else if value == 6 {
        Some(KeyValue::Preset6)
    } else {
        None
    }
}

/// The key that selects preset `value` (1-6); any other number is an
/// invalid preset.
pub fn preset_key(value: i32) -> (r: Result<KeyValue, BoseError>)
    ensures
        spec_preset_key(value as int) matches Some(k) ==> r == Ok::<KeyValue, BoseError>(k),
        spec_preset_key(value as int) is None ==> (r matches Err(BoseError::InvalidPreset(m)) && m@
            == signed_decimal(value as int) + " is not a valid preset (1-6)."@),
{
    match value {
        1 => Ok(KeyValue::Preset1),
        2 => Ok(KeyValue::Preset2),
        3 => Ok(KeyValue::Preset3),
        4 => Ok(KeyValue::Preset4),
        5 => Ok(KeyValue::Preset5),
        6 => Ok(KeyValue::Preset6),
        _ => {
            let mut m = String::new();
            append_signed_decimal(&mut m, value);
            m.append(" is not a valid preset (1-6).");
            Err(BoseError::InvalidPreset(m))
        },
    }
}

/// Playback information returned by the device.
#[derive(Debug, Clone)]
pub struct NowPlaying {
    pub device_id: String,
    /// Current source (e.g. INTERNET_RADIO, BLUETOOTH, STANDBY).
    pub source: String,
    pub source_account: Option<String>,
    pub content_item: NowPlayingContentItem,
    pub track: Option<String>,
    pub artist: Option<String>,
    pub album: Option<String>,
    pub station_name: Option<String>,
    pub art: Option<Art>,
    pub play_status: Option<PlayStatus>,
    pub description: Option<String>,
    pub station_location: Option<String>,
}

/// Content of what is playing.
#[derive(Debug, Clone)]
pub struct NowPlayingContentItem {
    pub source: String,
    pub content_type: Option<String>,
    pub location: Option<String>,
    pub is_presetable: bool,
    pub name: Option<String>,
    pub container_art: Option<String>,
}

/// Artwork of what is playing.
#[derive(Debug, Clone)]
pub struct Art {
    pub status: ArtStatus,
    pub url: Option<String>,
}

/// Status of artwork.
#[derive(Debug, Clone, Copy, PartialEq, Eq, Structural)]
pub enum ArtStatus {
    Invalid,
    ShowDefaultImage,
    Downloading,
    ImagePresent,
}

/// Playback status.
#[derive(Debug, Clone, Copy, PartialEq, Eq, Structural)]
pub enum PlayStatus {
    PlayState,
    PauseState,
    StopState,
    BufferingState,
    InvalidPlayStatus,
}

/// Volume settings returned by the device.
#[derive(Debug, Clone, Copy, PartialEq, Eq, Structural)]
pub struct Volume {
    /// Target volume level (0-100).
    pub target: i32,
    /// Current volume level (0-100).
    pub actual: i32,
    pub mute_enabled: Option<bool>,
}

/// The device's presets.
#[derive(Debug, Clone)]
pub struct Presets {
    pub items: Vec<Preset>,
}

/// One preset.
#[derive(Debug, Clone)]
pub struct Preset {
    /// Preset number (1-6).
    pub id: i32,
    /// Unix time of creation.
    pub created_on: i32,
    /// Unix time of the last change.
    pub updated_on: i32,
    pub content_item: PresetContentItem,
}

/// Content of a preset.
#[derive(Debug, Clone)]
pub struct PresetContentItem {
    pub source: String,
    pub preset_type: String,
    pub location: String,
    pub source_account: String,
    pub is_presetable: bool,
    pub name: String,
    pub container_art: String,
}

/// An empty element of a preset's content.
#[derive(Debug, Clone, Copy, PartialEq, Eq, Structural)]
pub struct PresetContentItemValue {}

/// Information about the device.
#[derive(Debug, Clone)]
pub struct DeviceInfo {
    /// Device ID (MAC address).
    pub device_id: String,
    pub name: String,
    pub device_type: String,
    pub marge_account_uuid: String,
    pub components: Components,
    pub marge_url: String,
    pub network_info: Vec<NetworkInfo>,
    pub module_type: String,
    pub variant: String,
    pub variant_mode: String,
    pub country_code: String,
    pub region_code: String,
}

/// Software components of the device.
#[derive(Debug, Clone)]
pub struct Components {
    pub component: Vec<Component>,
}

/// One software component.
#[derive(Debug, Clone)]
pub struct Component {
    pub category: String,
    pub software_version: Option<String>,
    pub serial_number: Option<String>,
}

/// One network interface of the device.
#[derive(Debug, Clone)]
pub struct NetworkInfo {
    pub network_type: String,
    pub mac_address: String,
    pub ip_address: String,
}

/// The sources the device offers.
#[derive(Debug, Clone)]
pub struct Sources {
    pub items: Vec<SourceItem>,
}

/// One source.
#[derive(Debug, Clone)]
pub struct SourceItem {
    pub source: String,
    pub source_account: Option<String>,
    pub status: SourceStatus,
    pub name: String,
}

/// Availability of a source.
#[derive(Debug, Clone, Copy, PartialEq, Eq, Structural)]
pub enum SourceStatus {
    Unavailable,
    Ready,
}

/// A multi-room zone.
#[derive(Debug, Clone)]
pub struct Zone {
    /// MAC address of the master.
    pub master: String,
    /// Address of the device sending a zone change, when setting one.
    pub sender_ip_address: Option<String>,
    /// Master and slaves.
    pub members: Vec<ZoneMember>,
}

/// One member of a zone.
#[derive(Debug, Clone)]
pub struct ZoneMember {
    pub ip_address: String,
    pub mac_address: String,
}

/// Bass range of the device.
#[derive(Debug, Clone, Copy, PartialEq, Eq, Structural)]
pub struct BassCapabilities {
    pub min_value: i32,
    pub max_value: i32,
    pub default: i32,
}

/// Bass settings of the device.
#[derive(Debug, Clone, Copy, PartialEq, Eq, Structural)]
pub struct Bass {
    pub target: i32,
    pub actual: i32,
}

impl Sources {
    /// Whether a source of this name is listed and ready.
    pub fn is_available(&self, source: &str) -> (r: bool)
        ensures
            r == exists|i: int|
                0 <= i < self.items@.len() && #[trigger] self.items@[i].source@ == source@
                    && self.items@[i].status == SourceStatus::Ready,
    {
        let mut i: usize = 0;
        while i < self.items.len()
            invariant
                i <= self.items@.len(),
                forall|k: int|
                    0 <= k < i ==> !(#[trigger] self.items@[k].source@ == source@ && self.items@[k].status
                        == SourceStatus::Ready),
            decreases self.items@.len() - i,
        {
            let item = &self.items[i];
            if text_eq(item.source.as_str(), source) && item.status == SourceStatus::Ready {
                return true;
            }
            i = i + 1;
        }
        false
    }
}

impl Zone {
    /// Whether the zone groups more than one device.
    pub fn is_grouped(&self) -> (r: bool)
        ensures
            r == (self.members@.len() > 1),
    {
        self.members.len() > 1
    }

    /// Whether the device with this ID is the master of a grouped zone.
    pub fn is_master(&self, device_id: &str) -> (r: bool)
        ensures
            r == (self.master@ == device_id@ && self.members@.len() > 1),
    {
        text_eq(self.master.as_str(), device_id) && self.members.len() > 1
    }

    /// A zone led by the device at `hostname` with ID `master_mac`, which is
    /// its first member, followed by each `(ip, mac)` of `slaves` in order.
    pub fn with_slaves(master_mac: &str, hostname: &str, slaves: &[(String, String)]) -> (r: Zone)
        ensures
            r.master@ == master_mac@,
            r.sender_ip_address matches Some(a) && a@ == hostname@,
            r.members@.len() == slaves@.len() + 1,
            r.members@[0].ip_address@ == hostname@,
            r.members@[0].mac_address@ == master_mac@,
            forall|i: int|
                0 <= i < slaves@.len() ==> (#[trigger] r.members@[i + 1]).ip_address@ == slaves@[i].0@
                    && r.members@[i + 1].mac_address@ == slaves@[i].1@,
    {
        let mut members: Vec<ZoneMember> = Vec::new();
        members.push(ZoneMember { ip_address: String::from_str(hostname), mac_address: String::from_str(master_mac) });
        let mut i: usize = 0;
        while i < slaves.len()
            invariant
                i <= slaves@.len(),
                members@.len() == i + 1,
                members@[0].ip_address@ == hostname@,
                members@[0].mac_address@ == master_mac@,
                forall|k: int|
                    0 <= k < i ==> (#[trigger] members@[k + 1]).ip_address@ == slaves@[k].0@
                        && members@[k + 1].mac_address@ == slaves@[k].1@,
            decreases slaves@.len() - i,
        {
            let (ip, mac) = &slaves[i];
            members.push(ZoneMember { ip_address: ip.clone(), mac_address: mac.clone() });
            i = i + 1;
        }
        Zone {
            master: String::from_str(master_mac),
            sender_ip_address: Some(String::from_str(hostname)),
            members,
        }
    }

    /// A zone of master `master` naming one member: the body that adds or
    /// removes that slave.
    pub fn single_member(master: &str, ip: &str, mac: &str) -> (r: Zone)
        ensures
            r.master@ == master@,
            r.sender_ip_address is None,
            r.members@.len() == 1,
            r.members@[0].ip_address@ == ip@,
            r.members@[0].mac_address@ == mac@,
    {
        let mut members: Vec<ZoneMember> = Vec::new();
        members.push(ZoneMember { ip_address: String::from_str(ip), mac_address: String::from_str(mac) });
        Zone { master: String::from_str(master), sender_ip_address: None, members }
    }
}

impl BassCapabilities {
    /// The bass level one step up from `current`, unless it is at the maximum.
    pub fn step_up(&self, current: &Bass) -> (r: Option<i32>)
        ensures
            current.actual < self.max_value ==> r == Some((current.actual + 1) as i32),
            current.actual >= self.max_value ==> r is None,
    {
        if current.actual < self.max_value {
            Some(current.actual + 1)
        } else {
            None
        }
    }

    /// The bass level one step down from `current`, unless it is at the minimum.
    pub fn step_down(&self, current: &Bass) -> (r: Option<i32>)
        ensures
            current.actual > self.min_value ==> r == Some((current.actual - 1) as i32),
            current.actual <= self.min_value ==> r is None,
    {
        if current.actual > self.min_value {
            Some(current.actual - 1)
        } else {
            None
        }
    }
}

/// The body that renames the device: `<name>NAME</name>`.
pub open spec fn spec_name_xml(name: Seq<char>) -> Seq<char> {
    "<name>"@ + spec_escape(name) + "</name>"@
}

/// The request body that renames the device.
pub fn name_xml(name: &str) -> (r: String)
    ensures
        r@ == spec_name_xml(name@),
{
    let mut s = String::from_str("<name>");
    let escaped = escape(name);
    s.append(escaped.as_str());
    s.append("</name>");
    s
}

/// The body that selects a source; a missing account is written empty.
pub open spec fn spec_select_source_xml(source: Seq<char>, account: Option<Seq<char>>) -> Seq<char> {
    "<SelectSource source=\""@ + spec_escape(source) + "\" sourceAccount=\""@ + (match account {
        Some(a) => spec_escape(a),
        None => Seq::empty(),
    }) + "\"/>"@
}

/// The request body that selects a source.
pub fn select_source_xml(source: &str, account: Option<&str>) -> (r: String)
    ensures
        r@ == spec_select_source_xml(
            source@,
            match account {
                Some(a) => Some(a@),
                None => None,
            },
        ),
{
    let mut s = String::from_str("<SelectSource source=\"");
    let escaped = escape(source);
    s.append(escaped.as_str());
    s.append("\" sourceAccount=\"");
    match account {
        Some(a) => {
            let escaped = escape(a);
            s.append(escaped.as_str());
        },
        None => {},
    }
    s.append("\"/>");
    proof {
        let acc = match account {
            Some(a) => spec_escape(a@),
            None => Seq::<char>::empty(),
        };
        assert(s@ =~= spec_select_source_xml(
            source@,
            match account {
                Some(a) => Some(a@),
                None => None,
            },
        ));
    }
    s
}

/// The body that sets the bass level: `<bass>N</bass>`.
pub open spec fn spec_bass_xml(value: int) -> Seq<char> {
    "<bass>"@ + signed_decimal(value) + "</bass>"@
}

/// The request body that sets the bass level.
pub fn bass_xml(value: i32) -> (r: String)
    ensures
        r@ == spec_bass_xml(value as int),
{
    let mut s = String::from_str("<bass>");
    append_signed_decimal(&mut s, value);
    s.append("</bass>");
    s
}

/// One member of a zone body: `<member ipaddress="IP">MAC</member>`.
pub open spec fn spec_member_xml(ip: Seq<char>, mac: Seq<char>) -> Seq<char> {
    "<member ipaddress=\""@ + spec_escape(ip) + "\">"@ + spec_escape(mac) + "</member>"@
}

/// The member elements of a zone body, in order.
pub open spec fn spec_members_xml(members: Seq<ZoneMember>) -> Seq<char>
    decreases members.len(),
{
    if members.len() == 0 {
        Seq::empty()
    } else {
        spec_members_xml(members.drop_last()) + spec_member_xml(
            members.last().ip_address@,
            members.last().mac_address@,
        )
    }
}

/// The body of a zone change; the sender's address is written only when set.
pub open spec fn spec_zone_xml(z: Zone) -> Seq<char> {
    "<Zone master=\""@ + spec_escape(z.master@) + "\""@ + (match z.sender_ip_address {
        Some(a) => " senderIPAddress=\""@ + spec_escape(a@) + "\""@,
        None => Seq::empty(),
    }) + ">"@ + spec_members_xml(z.members@) + "</Zone>"@
}

impl Zone {
    /// The request body of this zone.
    pub fn to_xml(&self) -> (r: String)
        ensures
            r@ == spec_zone_xml(*self),
    {
        let mut s = String::from_str("<Zone master=\"");
        let master = escape(self.master.as_str());
        s.append(master.as_str());
        s.append("\"");
        match &self.sender_ip_address {
            Some(a) => {
                s.append(" senderIPAddress=\"");
                let escaped = escape(a.as_str());
                s.append(escaped.as_str());
                s.append("\"");
            },
            None => {},
        }
        s.append(">");
        let ghost head = s@;
        let mut i: usize = 0;
        while i < self.members.len()
            invariant
                i <= self.members@.len(),
                s@ == head + spec_members_xml(self.members@.subrange(0, i as int)),
            decreases self.members@.len() - i,
        {
            let m = &self.members[i];
            s.append("<member ipaddress=\"");
            let ip = escape(m.ip_address.as_str());
            s.append(ip.as_str());
            s.append("\">");
            let mac = escape(m.mac_address.as_str());
            s.append(mac.as_str());
            s.append("</member>");
            proof {
                let prefix = self.members@.subrange(0, i + 1);
                assert(prefix.drop_last() =~= self.members@.subrange(0, i as int));
            }
            i = i + 1;
        }
        s.append("</Zone>");
        proof {
            assert(self.members@.subrange(0, self.members@.len() as int) =~= self.members@);
        }
        s
    }
}

/// Client of one device's control API, addressed by hostname.
#[derive(Debug, Clone)]
pub struct BoseClient {
    hostname: String,
}

/// The address of an HTTP resource of the device: `http://HOST:8090PATH`.
pub open spec fn spec_device_url(host: Seq<char>, path: Seq<char>) -> Seq<char> {
    "http://"@ + host + HTTP_PORT_SUFFIX@ + path
}

impl BoseClient {
    pub closed spec fn spec_hostname(&self) -> Seq<char> {
        self.hostname@
    }

    /// A client of the device at `hostname` (an IP address or a host name).
    pub fn new(hostname: &str) -> (r: BoseClient)
        ensures
            r.spec_hostname() == hostname@,
    {
        Self::new_from_str(hostname)
    }

    pub fn new_from_str(hostname: &str) -> (r: BoseClient)
        ensures
            r.spec_hostname() == hostname@,
    {
        BoseClient { hostname: String::from_str(hostname) }
    }

    pub fn new_from_string(hostname: String) -> (r: BoseClient)
        ensures
            r.spec_hostname() == hostname@,
    {
        BoseClient { hostname }
    }

    pub fn hostname(&self) -> (r: &str)
        ensures
            r@ == self.spec_hostname(),
    {
        self.hostname.as_str()
    }

    /// The address of the resource at `path` on this device.
    pub fn url(&self, path: &str) -> (r: String)
        ensures
            r@ == spec_device_url(self.spec_hostname(), path@),
    {
        let mut s = String::from_str("http://");
        s.append(self.hostname.as_str());
        s.append(HTTP_PORT_SUFFIX);
        s.append(path);
        s
    }
}

} // verus!
