//! The documents that a device answers a query with.
//!
//! A field that a device may leave out is an `Option`: absent is not the same
//! as present with an empty or zero value, and no default stands in for what
//! is missing.

use vstd::prelude::*;

verus! {

/// The applications installed on a device, in the order the device lists them.
#[derive(Debug)]
pub struct Apps {
    pub apps: Vec<App>,
}

/// The application in the foreground, and the screensaver if one is running.
#[derive(Debug)]
pub struct ActiveApp {
    pub app: App,
    pub screensaver: Option<Screensaver>,
}

/// An application. The home screen and other entries that cannot be launched
/// have no identifier.
#[derive(Debug)]
pub struct App {
    pub id: Option<String>,
    pub name: String,
    pub version: Option<String>,
}

/// A running screensaver.
#[derive(Debug)]
pub struct Screensaver {
    pub black: Option<bool>,
    pub id: String,
    pub name: String,
    pub screensaver_type: String,
    pub version: String,
}

/// The state of the media player. Most fields are present only while
/// something plays.
#[derive(Debug)]
pub struct MediaPlayer {
    pub buffering: Option<Buffering>,
    pub duration: Option<String>,
    pub error: bool,
    pub format: Option<Format>,
    pub is_live: Option<bool>,
    pub new_stream: Option<NewStream>,
    pub plugin: Option<Plugin>,
    pub position: Option<String>,
    pub runtime: Option<String>,
    pub state: String,
    pub stream_segment: Option<StreamSegment>,
}

/// The channel that plays.
#[derive(Debug)]
pub struct Plugin {
    pub bandwidth: String,
    pub id: String,
    pub name: String,
}

/// The format of the stream that plays.
#[derive(Debug)]
pub struct Format {
    pub audio: String,
    pub captions: String,
    pub container: String,
    pub drm: String,
    pub video: String,
    pub video_res: String,
}

/// How far buffering has come.
#[derive(Debug)]
pub struct Buffering {
    pub current: u32,
    pub max: u32,
    pub target: u32,
}

/// A stream that is about to start.
#[derive(Debug)]
pub struct NewStream {
    pub speed: String,
}

/// The segment of the stream that plays.
#[derive(Debug)]
pub struct StreamSegment {
    pub bitrate: u32,
    pub media_sequence: u32,
    pub segment_type: String,
    pub time: u32,
}

/// What a device reports of itself: identity, capabilities, network and
/// locale. The wired network address is the one field a device may leave out.
#[derive(Debug)]
pub struct DeviceInfo {
    pub advertising_id: String,
    pub build_number: String,
    pub can_use_wifi_extender: bool,
    pub clock_format: String,
    pub country: String,
    pub davinci_version: String,
    pub default_device_name: String,
    pub developer_enabled: bool,
    pub device_id: String,
    pub ethernet_mac: Option<String>,
    pub find_remote_is_possible: bool,
    pub friendly_device_name: String,
    pub friendly_model_name: String,
    pub grandcentral_version: String,
    pub has_mobile_screensaver: bool,
    pub has_play_on_roku: bool,
    pub has_wifi_5g_support: bool,
    pub has_wifi_extender: bool,
    pub headphones_connected: bool,
    pub is_stick: bool,
    pub is_tv: bool,
    pub keyed_developer_id: String,
    pub language: String,
    pub locale: String,
    pub model_name: String,
    pub model_number: String,
    pub model_region: String,
    pub network_name: String,
    pub network_type: String,
    pub notifications_enabled: bool,
    pub notifications_first_use: bool,
    pub power_mode: String,
    pub search_channels_enabled: bool,
    pub search_enabled: bool,
    pub secure_device: bool,
    pub serial_number: String,
    pub software_build: String,
    pub software_version: String,
    pub support_url: String,
    pub supports_audio_guide: bool,
    pub supports_ecs_microphone: bool,
    pub supports_ecs_textedit: bool,
    pub supports_ethernet: bool,
    pub supports_find_remote: bool,
    pub supports_private_listening: bool,
    pub supports_rva: bool,
    pub supports_suspend: bool,
    pub supports_wake_on_wlan: bool,
    pub time_zone: String,
    pub time_zone_auto: bool,
    pub time_zone_name: String,
    pub time_zone_offset: i32,
    pub time_zone_tz: String,
    pub udn: String,
    pub uptime: u32,
    pub user_device_location: String,
    pub user_device_name: String,
    pub vendor_name: String,
    pub voice_search_enabled: bool,
    pub wifi_driver: String,
    pub wifi_mac: String,
}

} // verus!
