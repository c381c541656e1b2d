//! Start and plugin configuration, and the checks on foreground service types.

use crate::double::Double;
use crate::error::ServiceError;
use crate::text::{
    ascii_lower, concat3, eq_ignoring_ascii_case, same_ignoring_ascii_case, str_eq,
};
use vstd::prelude::*;

verus! {

// ─── Foreground service types ──────────────────────────────────────────

/// The 14 valid Android foreground service types.
///
/// Sourced from <https://developer.android.com/about/versions/14/changes/fg-types>.
pub const VALID_FOREGROUND_SERVICE_TYPES: [&'static str; 14] = [
    "dataSync",
    "mediaPlayback",
    "phoneCall",
    "location",
    "connectedDevice",
    "mediaProjection",
    "camera",
    "microphone",
    "health",
    "remoteMessaging",
    "systemExempted",
    "shortService",
    "specialUse",
    "mediaProcessing",
];

/// Whether a text names one of the valid Android foreground service types.
pub open spec fn is_valid_type(t: Seq<char>) -> bool {
    exists|i: int|
        0 <= i < 14 && (#[trigger] VALID_FOREGROUND_SERVICE_TYPES@[i])@ == t
}

/// The message for a type that Android does not know.
pub open spec fn invalid_type_text(t: Seq<char>) -> Seq<char> {
    "invalid foreground_service_type '"@ + t
        + "'. Valid types: [\"dataSync\", \"mediaPlayback\", \"phoneCall\", \"location\", \"connectedDevice\", \"mediaProjection\", \"camera\", \"microphone\", \"health\", \"remoteMessaging\", \"systemExempted\", \"shortService\", \"specialUse\", \"mediaProcessing\"]"@
}

/// Android knows exactly these types, by these names.
pub proof fn known_types_are_the_fourteen(t: Seq<char>)
    ensures
        is_valid_type(t) <==> (t == "dataSync"@ || t == "mediaPlayback"@ || t == "phoneCall"@ || t
            == "location"@ || t == "connectedDevice"@ || t == "mediaProjection"@ || t == "camera"@
            || t == "microphone"@ || t == "health"@ || t == "remoteMessaging"@ || t
            == "systemExempted"@ || t == "shortService"@ || t == "specialUse"@ || t
            == "mediaProcessing"@),
{
    let types = VALID_FOREGROUND_SERVICE_TYPES@;
    assert(types[0]@ == "dataSync"@ && types[1]@ == "mediaPlayback"@ && types[2]@ == "phoneCall"@);
    assert(types[3]@ == "location"@ && types[4]@ == "connectedDevice"@);
    assert(types[5]@ == "mediaProjection"@ && types[6]@ == "camera"@ && types[7]@ == "microphone"@);
    assert(types[8]@ == "health"@ && types[9]@ == "remoteMessaging"@);
    assert(types[10]@ == "systemExempted"@ && types[11]@ == "shortService"@);
    assert(types[12]@ == "specialUse"@ && types[13]@ == "mediaProcessing"@);
}

/// Checks a foreground service type against the valid Android types.
///
/// The name must match exactly, in the case of its letters too.
pub fn validate_foreground_service_type(t: &str) -> (checked: Result<(), ServiceError>)
    ensures
        checked is Ok <==> is_valid_type(t@),
        checked matches Err(e) ==> {
            &&& e matches ServiceError::Platform(text)
            &&& text@ == invalid_type_text(t@)
        },
{
    let mut i: usize = 0;
    while i < 14
        invariant
            i <= 14,
            forall|j: int| 0 <= j < i ==> (#[trigger] VALID_FOREGROUND_SERVICE_TYPES@[j])@ != t@,
        decreases 14 - i,
    {
        if str_eq(VALID_FOREGROUND_SERVICE_TYPES[i], t) {
            assert(VALID_FOREGROUND_SERVICE_TYPES@[i as int]@ == t@);
            return Ok(());
        }
        i = i + 1;
    }
    Err(
        ServiceError::Platform(
            concat3(
                "invalid foreground_service_type '",
                t,
                "'. Valid types: [\"dataSync\", \"mediaPlayback\", \"phoneCall\", \"location\", \"connectedDevice\", \"mediaProjection\", \"camera\", \"microphone\", \"health\", \"remoteMessaging\", \"systemExempted\", \"shortService\", \"specialUse\", \"mediaProcessing\"]",
            ),
        ),
    )
}

/// Whether a type is on a configured list, the case of ASCII letters aside.
pub open spec fn is_allowlisted(t: Seq<char>, allowed: Seq<String>) -> bool {
    exists|i: int|
        0 <= i < allowed.len() && same_ignoring_ascii_case((#[trigger] allowed[i])@, t)
}

/// Whether the configuration lets a type through: always when the check is
/// switched off, else when it is not empty and is on the list.
pub open spec fn passes_allowlist(t: Seq<char>, allowed: Seq<String>, validate: bool) -> bool {
    !validate || (t.len() > 0 && is_allowlisted(t, allowed))
}

/// The message for a type that the configuration does not let through.
pub open spec fn refused_type_text(t: Seq<char>) -> Seq<char> {
    if t.len() == 0 {
        "foreground_service_type must not be empty"@
    } else {
        "foreground_service_type '"@ + t + "' is not allowed by the plugin configuration"@
    }
}

/// Checks a foreground service type against the types that the plugin
/// configuration allows. With `validate` off every type passes.
pub fn validate_fg_type_against_allowlist(
    t: &str,
    allowed: &[String],
    validate: bool,
) -> (checked: Result<(), ServiceError>)
    ensures
        checked is Ok <==> passes_allowlist(t@, allowed@, validate),
        checked matches Err(e) ==> {
            &&& e matches ServiceError::Platform(text)
            &&& text@ == refused_type_text(t@)
        },
{
    if !validate {
        return Ok(());
    }
    if t.is_empty() {
        return Err(
            ServiceError::Platform("foreground_service_type must not be empty".to_owned()),
        );
    }
    let mut i: usize = 0;
    while i < allowed.len()
        invariant
            i <= allowed@.len(),
            t@.len() > 0,
            validate,
            forall|j: int|
                0 <= j < i ==> !same_ignoring_ascii_case((#[trigger] allowed@[j])@, t@),
        decreases allowed@.len() - i,
    {
        if eq_ignoring_ascii_case(allowed[i].as_str(), t) {
            assert(same_ignoring_ascii_case(allowed@[i as int]@, t@));
            return Ok(());
        }
        i = i + 1;
    }
    Err(
        ServiceError::Platform(
            concat3(
                "foreground_service_type '",
                t,
                "' is not allowed by the plugin configuration",
            ),
        ),
    )
}

/// The case of ASCII letters never decides whether a type is let through.
pub proof fn allowlist_ignores_case(
    t: Seq<char>,
    u: Seq<char>,
    allowed: Seq<String>,
    validate: bool,
)
    requires
        same_ignoring_ascii_case(t, u),
    ensures
        passes_allowlist(t, allowed, validate) == passes_allowlist(u, allowed, validate),
{
    assert forall|i: int| 0 <= i < allowed.len() implies same_ignoring_ascii_case(
        (#[trigger] allowed[i])@,
        t,
    ) == same_ignoring_ascii_case(allowed[i]@, u) by {
        let a = allowed[i]@;
        assert(forall|k: int| 0 <= k < t.len() ==> ascii_lower(#[trigger] t[k]) == ascii_lower(
            u[k],
        ));
        if same_ignoring_ascii_case(a, t) {
            assert forall|k: int| 0 <= k < a.len() implies ascii_lower(#[trigger] a[k])
                == ascii_lower(u[k]) by {
                assert(ascii_lower(t[k]) == ascii_lower(u[k]));
            }
        }
        if same_ignoring_ascii_case(a, u) {
            assert forall|k: int| 0 <= k < a.len() implies ascii_lower(#[trigger] a[k])
                == ascii_lower(t[k]) by {
                assert(ascii_lower(t[k]) == ascii_lower(u[k]));
            }
        }
    }
    if is_allowlisted(t, allowed) {
        let i = choose|i: int|
            0 <= i < allowed.len() && same_ignoring_ascii_case((#[trigger] allowed[i])@, t);
        assert(same_ignoring_ascii_case(allowed[i]@, u));
    }
    if is_allowlisted(u, allowed) {
        let i = choose|i: int|
            0 <= i < allowed.len() && same_ignoring_ascii_case((#[trigger] allowed[i])@, u);
        assert(same_ignoring_ascii_case(allowed[i]@, t));
    }
}

/// Every type on the configured list passes, and with the check switched off
/// every type does.
pub proof fn listed_types_pass(i: int, allowed: Seq<String>, t: Seq<char>)
    requires
        0 <= i < allowed.len(),
        allowed[i]@.len() > 0,
    ensures
        passes_allowlist(allowed[i]@, allowed, true),
        passes_allowlist(t, allowed, false),
{
    assert(same_ignoring_ascii_case(allowed[i]@, allowed[i]@));
}

// ─── Start configuration ───────────────────────────────────────────────

/// Startup configuration of one service run.
#[derive(Debug, PartialEq, Eq)]
pub struct StartConfig {
    /// Text shown in the Android persistent foreground notification.
    pub service_label: String,
    /// Android foreground service type (e.g. "dataSync", "specialUse").
    pub foreground_service_type: String,
}

/// What a [`StartConfig`] holds.
pub struct StartConfigView {
    pub service_label: Seq<char>,
    pub foreground_service_type: Seq<char>,
}

impl View for StartConfig {
    type V = StartConfigView;

    open spec fn view(&self) -> StartConfigView {
        StartConfigView {
            service_label: self.service_label@,
            foreground_service_type: self.foreground_service_type@,
        }
    }
}

impl Clone for StartConfig {
    fn clone(&self) -> (copy: Self)
        ensures
            copy == *self,
    {
        StartConfig {
            service_label: self.service_label.clone(),
            foreground_service_type: self.foreground_service_type.clone(),
        }
    }
}

/// A copy of an optional start configuration.
pub fn copy_config(config: &Option<StartConfig>) -> (copy: Option<StartConfig>)
    ensures
        copy == *config,
{
    match config {
        Some(value) => Some(value.clone()),
        None => None,
    }
}

/// The notification text of a run that asked for none.
pub fn default_label() -> (label: String)
    ensures
        label@ == "Service running"@,
{
    "Service running".to_owned()
}

/// The foreground service type of a run that asked for none.
pub fn default_foreground_service_type() -> (t: String)
    ensures
        t@ == "dataSync"@,
{
    "dataSync".to_owned()
}

impl Default for StartConfig {
    fn default() -> (config: Self)
        ensures
            config@ == (StartConfigView {
                service_label: "Service running"@,
                foreground_service_type: "dataSync"@,
            }),
    {
        StartConfig {
            service_label: default_label(),
            foreground_service_type: default_foreground_service_type(),
        }
    }
}

/// Auto-start request stored by the Android side.
#[derive(Debug, PartialEq, Eq)]
pub struct AutoStartConfig {
    pub pending: bool,
    pub label: Option<String>,
    pub service_type: Option<String>,
}

impl AutoStartConfig {
    /// The start configuration, if auto-start is pending and a label is stored.
    /// A missing type falls back to the default one.
    pub fn into_start_config(self) -> (config: Option<StartConfig>)
        ensures
            config is Some <==> self.pending && self.label is Some,
            config matches Some(c) ==> c@ == (StartConfigView {
                service_label: self.label->Some_0@,
                foreground_service_type: match self.service_type {
                    Some(t) => t@,
                    None => "dataSync"@,
                },
            }),
    {
        if self.pending {
            match self.label {
                Some(label) => Some(
                    StartConfig {
                        service_label: label,
                        foreground_service_type: match self.service_type {
                            Some(t) => t,
                            None => default_foreground_service_type(),
                        },
                    },
                ),
                None => None,
            }
        } else {
            None
        }
    }
}

// ─── Plugin configuration ──────────────────────────────────────────────

/// Plugin-level configuration.
#[derive(Debug, PartialEq, Eq)]
pub struct PluginConfig {
    /// iOS safety timeout in seconds for the expiration handler.
    /// Default: 28.0 (Apple recommends keeping BG tasks under ~30s).
    pub ios_safety_timeout_secs: Double,
    /// iOS cancel listener timeout in seconds. Default: 14400 (4 hours).
    pub ios_cancel_listener_timeout_secs: u64,
    /// iOS BGProcessingTask safety timeout in seconds. Default: 0.0 (no cap).
    pub ios_processing_safety_timeout_secs: Double,
    /// iOS `BGAppRefreshTask` earliest begin date in minutes from now. Default: 15.0.
    pub ios_earliest_refresh_begin_minutes: Double,
    /// iOS `BGProcessingTask` earliest begin date in minutes from now. Default: 15.0.
    pub ios_earliest_processing_begin_minutes: Double,
    /// iOS `BGProcessingTask` requires external power. Default: false.
    pub ios_requires_external_power: bool,
    /// iOS `BGProcessingTask` requires network connectivity. Default: false.
    pub ios_requires_network_connectivity: bool,
    /// iOS adaptive processing ceiling multiplier. Default: 4.0.
    pub ios_processing_ceiling_multiplier: Double,
    /// Capacity of the manager's command channel. Default: 16.
    pub channel_capacity: usize,
    /// Android foreground service types allowed for a start. Default: `["dataSync"]`.
    pub android_foreground_service_types: Vec<String>,
    /// Whether a requested type is checked against the allowed ones. Default: true.
    pub android_validate_foreground_service_type: bool,
    /// Timeout policy for the Android foreground service: "stop", "notifyUser"
    /// (default) or "scheduleRecovery".
    pub android_on_timeout: String,
    /// Android notification channel ID. Default: "bg_service".
    pub android_notification_channel_id: String,
    /// Android notification channel name. Default: "Background Service".
    pub android_notification_channel_name: String,
    /// Android notification ID. Default: 9001.
    pub android_notification_id: u32,
    /// Small icon resource name; `None` for the system default.
    pub android_notification_small_icon: Option<String>,
    /// Whether the notification shows a stop action. Default: true.
    pub android_show_stop_action: bool,
    /// Whether the notification permission is requested on load. Default: true.
    pub android_request_notification_permission_on_load: bool,
    /// Notify when the OS pauses background delivery. Default: false.
    pub notify_on_timeout: bool,
    /// Notify when background delivery is restored. Default: false.
    pub notify_on_recovery: bool,
    /// Desktop service mode: "inProcess" (default) or "osService".
    pub desktop_service_mode: String,
    /// Label of the desktop OS service; `None` to derive it from the app.
    pub desktop_service_label: Option<String>,
    /// Whether the OS service starts on boot or login. Default: false.
    pub desktop_service_autostart: bool,
    /// Whether a start also starts a missing OS service. Default: false.
    pub desktop_start_service_if_missing: bool,
    /// How long to wait for the OS service, in milliseconds. Default: 5000.
    pub desktop_service_start_timeout_ms: u64,
}

/// 28.0
pub fn default_ios_safety_timeout() -> (d: Double)
    ensures
        d == (Double { bits: 0x403c_0000_0000_0000 }),
{
    Double { bits: 0x403c_0000_0000_0000 }
}

/// Four hours, in seconds.
pub fn default_ios_cancel_listener_timeout_secs() -> (secs: u64)
    ensures
        secs == 14400,
{
    14400
}

/// 0.0
pub fn default_ios_processing_safety_timeout_secs() -> (d: Double)
    ensures
        d == Double::zero_spec(),
{
    Double::zero()
}

/// 15.0
pub fn default_ios_earliest_refresh_begin_minutes() -> (d: Double)
    ensures
        d == (Double { bits: 0x402e_0000_0000_0000 }),
{
    Double { bits: 0x402e_0000_0000_0000 }
}

/// 15.0
pub fn default_ios_earliest_processing_begin_minutes() -> (d: Double)
    ensures
        d == (Double { bits: 0x402e_0000_0000_0000 }),
{
    Double { bits: 0x402e_0000_0000_0000 }
}

/// 4.0
pub fn default_ios_processing_ceiling_multiplier() -> (d: Double)
    ensures
        d == (Double { bits: 0x4010_0000_0000_0000 }),
{
    Double { bits: 0x4010_0000_0000_0000 }
}

/// The one type allowed without configuration.
pub fn default_android_foreground_service_types() -> (types: Vec<String>)
    ensures
        types@.len() == 1,
        types@[0]@ == "dataSync"@,
{
    let mut types: Vec<String> = Vec::new();
    types.push("dataSync".to_owned());
    types
}

/// Tell the user about a timeout.
pub fn default_android_on_timeout() -> (policy: String)
    ensures
        policy@ == "notifyUser"@,
{
    "notifyUser".to_owned()
}

/// The notification channel ID.
pub fn default_android_notification_channel_id() -> (id: String)
    ensures
        id@ == "bg_service"@,
{
    "bg_service".to_owned()
}

/// The notification channel name.
pub fn default_android_notification_channel_name() -> (name: String)
    ensures
        name@ == "Background Service"@,
{
    "Background Service".to_owned()
}

/// The notification ID.
pub fn default_android_notification_id() -> (id: u32)
    ensures
        id == 9001,
{
    9001
}

/// For settings that are on unless switched off.
pub fn default_true() -> (on: bool)
    ensures
        on,
{
    true
}

/// Commands that may wait for the manager.
pub fn default_channel_capacity() -> (capacity: usize)
    ensures
        capacity == 16,
{
    16
}

/// Run the service inside the app's own process.
pub fn default_desktop_service_mode() -> (mode: String)
    ensures
        mode@ == "inProcess"@,
{
    "inProcess".to_owned()
}

/// Five seconds, in milliseconds.
pub fn default_desktop_service_start_timeout_ms() -> (ms: u64)
    ensures
        ms == 5000,
{
    5000
}

impl Default for PluginConfig {
    fn default() -> (config: Self)
        ensures
            config.ios_safety_timeout_secs == (Double { bits: 0x403c_0000_0000_0000 }),
            config.ios_cancel_listener_timeout_secs == 14400,
            config.ios_processing_safety_timeout_secs == Double::zero_spec(),
            config.ios_earliest_refresh_begin_minutes == (Double { bits: 0x402e_0000_0000_0000 }),
            config.ios_earliest_processing_begin_minutes == (Double {
                bits: 0x402e_0000_0000_0000,
            }),
            !config.ios_requires_external_power,
            !config.ios_requires_network_connectivity,
            config.ios_processing_ceiling_multiplier == (Double { bits: 0x4010_0000_0000_0000 }),
            config.channel_capacity == 16,
            config.android_foreground_service_types@.len() == 1,
            config.android_foreground_service_types@[0]@ == "dataSync"@,
            config.android_validate_foreground_service_type,
            config.android_on_timeout@ == "notifyUser"@,
            config.android_notification_channel_id@ == "bg_service"@,
            config.android_notification_channel_name@ == "Background Service"@,
            config.android_notification_id == 9001,
            config.android_notification_small_icon is None,
            config.android_show_stop_action,
            config.android_request_notification_permission_on_load,
            !config.notify_on_timeout,
            !config.notify_on_recovery,
            config.desktop_service_mode@ == "inProcess"@,
            config.desktop_service_label is None,
            !config.desktop_service_autostart,
            !config.desktop_start_service_if_missing,
            config.desktop_service_start_timeout_ms == 5000,
    {
        PluginConfig {
            ios_safety_timeout_secs: default_ios_safety_timeout(),
            ios_cancel_listener_timeout_secs: default_ios_cancel_listener_timeout_secs(),
            ios_processing_safety_timeout_secs: default_ios_processing_safety_timeout_secs(),
            ios_earliest_refresh_begin_minutes: default_ios_earliest_refresh_begin_minutes(),
            ios_earliest_processing_begin_minutes: default_ios_earliest_processing_begin_minutes(),
            ios_requires_external_power: false,
            ios_requires_network_connectivity: false,
            ios_processing_ceiling_multiplier: default_ios_processing_ceiling_multiplier(),
            channel_capacity: default_channel_capacity(),
            android_foreground_service_types: default_android_foreground_service_types(),
            android_validate_foreground_service_type: default_true(),
            android_on_timeout: default_android_on_timeout(),
            android_notification_channel_id: default_android_notification_channel_id(),
            android_notification_channel_name: default_android_notification_channel_name(),
            android_notification_id: default_android_notification_id(),
            android_notification_small_icon: None,
            android_show_stop_action: default_true(),
            android_request_notification_permission_on_load: default_true(),
            notify_on_timeout: false,
            notify_on_recovery: false,
            desktop_service_mode: default_desktop_service_mode(),
            desktop_service_label: None,
            desktop_service_autostart: false,
            desktop_start_service_if_missing: false,
            desktop_service_start_timeout_ms: default_desktop_service_start_timeout_ms(),
        }
    }
}

// ─── Laws of the checks and the defaults ───────────────────────────────

/// A type that Android knows passes, by its exact name; any other is refused
/// with a message that names it.
pub proof fn android_types_pass_by_their_name(t: &str, checked: Result<(), ServiceError>)
    requires
        call_ensures(validate_foreground_service_type, (t,), checked),
    ensures
        checked is Ok <==> (t@ == "dataSync"@ || t@ == "mediaPlayback"@ || t@ == "phoneCall"@ || t@
            == "location"@ || t@ == "connectedDevice"@ || t@ == "mediaProjection"@ || t@
            == "camera"@ || t@ == "microphone"@ || t@ == "health"@ || t@ == "remoteMessaging"@
            || t@ == "systemExempted"@ || t@ == "shortService"@ || t@ == "specialUse"@ || t@
            == "mediaProcessing"@),
        checked matches Err(e) ==> (e matches ServiceError::Platform(text) && text@
            == "invalid foreground_service_type '"@ + t@
            + "'. Valid types: [\"dataSync\", \"mediaPlayback\", \"phoneCall\", \"location\", \"connectedDevice\", \"mediaProjection\", \"camera\", \"microphone\", \"health\", \"remoteMessaging\", \"systemExempted\", \"shortService\", \"specialUse\", \"mediaProcessing\"]"@),
{
    known_types_are_the_fourteen(t@);
}

/// With the check off every type passes. With it on, a type passes exactly if it
/// is not empty and one on the list is the same but for the case of ASCII
/// letters; a refusal says that it is empty, or names it.
pub proof fn configured_types_pass(
    t: &str,
    allowed: &[String],
    validate: bool,
    checked: Result<(), ServiceError>,
)
    requires
        call_ensures(validate_fg_type_against_allowlist, (t, allowed, validate), checked),
    ensures
        !validate ==> checked is Ok,
        validate && t@.len() == 0 ==> (checked matches Err(ServiceError::Platform(text)) && text@
            == "foreground_service_type must not be empty"@),
        validate && t@.len() > 0 ==> (checked is Ok <==> exists|i: int|
            0 <= i < allowed@.len() && same_ignoring_ascii_case((#[trigger] allowed@[i])@, t@)),
        validate && t@.len() > 0 && checked is Err ==> (checked matches Err(
            ServiceError::Platform(text),
        ) && text@ == "foreground_service_type '"@ + t@
            + "' is not allowed by the plugin configuration"@),
{
}

/// An auto-start request is for the label and the type that it stores; without a
/// type it is for the default one. There is none unless it is pending and has a
/// label.
pub proof fn auto_start_is_for_what_was_stored(
    request: AutoStartConfig,
    config: Option<StartConfig>,
)
    requires
        call_ensures(AutoStartConfig::into_start_config, (request,), config),
    ensures
        config is Some <==> request.pending && request.label is Some,
        config matches Some(c) ==> c.service_label@ == request.label->Some_0@,
        config matches Some(c) ==> (request.service_type matches Some(t)
            ==> c.foreground_service_type@ == t@),
        config matches Some(c) ==> (request.service_type is None ==> c.foreground_service_type@
            == "dataSync"@),
{
}

/// The default start is for the default label and type, and passes the checks
/// of the default configuration.
pub proof fn default_start_passes_by_default(
    config: StartConfig,
    label: String,
    t: String,
    plugin: PluginConfig,
)
    requires
        call_ensures(<StartConfig as Default>::default, (), config),
        call_ensures(default_label, (), label),
        call_ensures(default_foreground_service_type, (), t),
        call_ensures(<PluginConfig as Default>::default, (), plugin),
    ensures
        config.service_label@ == label@ && label@ == "Service running"@,
        config.foreground_service_type@ == t@ && t@ == "dataSync"@,
        is_valid_type(config.foreground_service_type@),
        passes_allowlist(
            config.foreground_service_type@,
            plugin.android_foreground_service_types@,
            plugin.android_validate_foreground_service_type,
        ),
{
    known_types_are_the_fourteen("dataSync"@);
    reveal_strlit("dataSync");
    assert("dataSync"@.len() == 8);
    assert(config.foreground_service_type@ == config@.foreground_service_type);
    assert(config.service_label@ == config@.service_label);
    assert(same_ignoring_ascii_case(
        plugin.android_foreground_service_types@[0]@,
        config.foreground_service_type@,
    ));
}

/// Without a configuration the plugin has these settings.
pub proof fn default_settings(plugin: PluginConfig)
    requires
        call_ensures(<PluginConfig as Default>::default, (), plugin),
    ensures
        // 28, 0, 15, 15 and 4 as 64-bit floating-point numbers
        plugin.ios_safety_timeout_secs.bits == 0x403c_0000_0000_0000,
        plugin.ios_processing_safety_timeout_secs.bits == 0,
        plugin.ios_earliest_refresh_begin_minutes.bits == 0x402e_0000_0000_0000,
        plugin.ios_earliest_processing_begin_minutes.bits == 0x402e_0000_0000_0000,
        plugin.ios_processing_ceiling_multiplier.bits == 0x4010_0000_0000_0000,
        plugin.ios_cancel_listener_timeout_secs == 4 * 60 * 60,
        !plugin.ios_requires_external_power && !plugin.ios_requires_network_connectivity,
        plugin.channel_capacity == 16,
        plugin.android_foreground_service_types@.len() == 1,
        plugin.android_foreground_service_types@[0]@ == "dataSync"@,
        plugin.android_validate_foreground_service_type && plugin.android_show_stop_action,
        plugin.android_request_notification_permission_on_load,
        plugin.android_on_timeout@ == "notifyUser"@,
        plugin.android_notification_channel_id@ == "bg_service"@,
        plugin.android_notification_channel_name@ == "Background Service"@,
        plugin.android_notification_id == 9001 && plugin.android_notification_small_icon is None,
        !plugin.notify_on_timeout && !plugin.notify_on_recovery,
        plugin.desktop_service_mode@ == "inProcess"@ && plugin.desktop_service_label is None,
        !plugin.desktop_service_autostart && !plugin.desktop_start_service_if_missing,
        plugin.desktop_service_start_timeout_ms == 5 * 1000,
{
}

} // verus!
