//! Lifecycle notifications: which are enabled, what they say, and the numbers
//! that stand for their ids.

use crate::config::PluginConfig;
use crate::text::str_eq;
use vstd::prelude::*;
use vstd::string::*;

verus! {

/// The 32-bit FNV-1a hash of some bytes: each byte is mixed in and the result
/// multiplied by the FNV prime, starting from the offset basis.
pub open spec fn fnv1a(bytes: Seq<u8>) -> u32
    decreases bytes.len(),
{
    if bytes.len() == 0 {
        0x811c_9dc5
    } else {
        (((fnv1a(bytes.drop_last()) ^ (bytes.last() as u32)) * 0x0100_0193) % 0x1_0000_0000) as u32
    }
}

/// The number between `-2^31` and `2^31 - 1` with the same 32 bits as `n`.
pub open spec fn as_signed(n: u32) -> int {
    if n < 0x8000_0000 {
        n as int
    } else {
        n - 0x1_0000_0000
    }
}

/// The notification number of a textual id. It depends on the text alone, so
/// the same id always replaces the same notification.
pub open spec fn notification_id_of(id: Seq<char>) -> int {
    as_signed(fnv1a(vstd::utf8::encode_utf8(id)))
}

/// The number that stands for a textual notification id.
pub fn stable_notification_id(id: &str) -> (number: i32)
    ensures
        number == notification_id_of(id@),
{
    let bytes = id.as_bytes();
    let mut hash: u32 = 0x811c_9dc5;
    let mut i: usize = 0;
    while i < bytes.len()
        invariant
            i <= bytes@.len(),
            hash == fnv1a(bytes@.take(i as int)),
        decreases bytes@.len() - i,
    {
        assert(bytes@.take(i + 1).drop_last() =~= bytes@.take(i as int));
        hash = (hash ^ (bytes[i] as u32)).wrapping_mul(0x0100_0193);
        i = i + 1;
    }
    assert(bytes@.take(i as int) =~= bytes@);
    let number: i32 = #[verifier::truncate] (hash as i32);
    assert(hash < 0x8000_0000u32 ==> hash as i32 == hash) by (bit_vector);
    assert(hash >= 0x8000_0000u32 ==> hash as i32 == hash - 0x1_0000_0000) by (bit_vector);
    number
}

/// Which lifecycle notifications are enabled.
#[derive(Debug, Clone, Copy, PartialEq, Eq, Structural)]
pub struct NotifierPolicy {
    /// Notify when the OS pauses background delivery.
    pub on_timeout: bool,
    /// Notify when background delivery is restored after a restart.
    pub on_recovery: bool,
}

impl Default for NotifierPolicy {
    /// Everything off.
    fn default() -> (policy: Self)
        ensures
            policy == (NotifierPolicy { on_timeout: false, on_recovery: false }),
    {
        NotifierPolicy { on_timeout: false, on_recovery: false }
    }
}

impl NotifierPolicy {
    /// The policy that follows from the configuration.
    pub open spec fn derived(config: PluginConfig, is_android: bool) -> NotifierPolicy {
        NotifierPolicy {
            on_timeout: config.notify_on_timeout && !(is_android && config.android_on_timeout@
                == "notifyUser"@),
            on_recovery: config.notify_on_recovery && !is_android,
        }
    }

    /// The policy that follows from the configuration.
    ///
    /// On Android the native side posts the recovery notification itself, and
    /// the timeout notification as well when it is told to notify the user;
    /// those two are then off here.
    pub fn derive(config: &PluginConfig, is_android: bool) -> (policy: Self)
        ensures
            policy == NotifierPolicy::derived(*config, is_android),
    {
        let native_owns_timeout: bool = is_android && str_eq(
            config.android_on_timeout.as_str(),
            "notifyUser",
        );
        NotifierPolicy {
            on_timeout: config.notify_on_timeout && !native_owns_timeout,
            on_recovery: config.notify_on_recovery && !is_android,
        }
    }
}

/// A notification to post; a later one with the same id replaces it.
#[derive(Debug, PartialEq, Eq)]
pub struct Notice {
    pub id: String,
    pub title: String,
    pub body: String,
}

/// What a [`Notice`] holds.
pub struct NoticeView {
    pub id: Seq<char>,
    pub title: Seq<char>,
    pub body: Seq<char>,
}

impl View for Notice {
    type V = NoticeView;

    open spec fn view(&self) -> NoticeView {
        NoticeView { id: self.id@, title: self.title@, body: self.body@ }
    }
}

/// What the timeout notification says.
pub open spec fn timeout_notice_text() -> NoticeView {
    NoticeView {
        id: "bg-timeout"@,
        title: "Sila background service paused"@,
        body: "The OS paused background delivery; it will resume automatically."@,
    }
}

/// What the recovery notification says.
pub open spec fn recovery_notice_text() -> NoticeView {
    NoticeView {
        id: "bg-recovery"@,
        title: "Sila background service restored"@,
        body: "Background delivery restored."@,
    }
}

impl Notice {
    /// The notification that background delivery is paused.
    pub fn timeout() -> (notice: Notice)
        ensures
            notice@ == timeout_notice_text(),
    {
        Notice {
            id: "bg-timeout".to_owned(),
            title: "Sila background service paused".to_owned(),
            body: "The OS paused background delivery; it will resume automatically.".to_owned(),
        }
    }

    /// The notification that background delivery is restored.
    pub fn recovery() -> (notice: Notice)
        ensures
            notice@ == recovery_notice_text(),
    {
        Notice {
            id: "bg-recovery".to_owned(),
            title: "Sila background service restored".to_owned(),
            body: "Background delivery restored.".to_owned(),
        }
    }
}

/// Where lifecycle notifications go.
pub trait NotifySink: Send + Sync {
    /// Posts a notification; a later one with the same `id` replaces it.
    fn notify(&self, id: &str, title: &str, body: &str);
}

/// Posts a notification if there is one and there is a sink for it: the sink is
/// handed what the notification holds. Tells whether it was posted.
pub fn deliver<S: NotifySink>(sink: &Option<S>, notice: &Option<Notice>) -> (posted: bool)
    ensures
        posted == (sink is Some && notice is Some),
        posted ==> exists|id: &str, title: &str, body: &str|
            id@ == notice->Some_0.id@ && title@ == notice->Some_0.title@ && body@
                == notice->Some_0.body@ && #[trigger] call_ensures(
                S::notify,
                (&sink->Some_0, id, title, body),
                (),
            ),
{
    match (sink, notice) {
        (Some(sink), Some(notice)) => {
            sink.notify(notice.id.as_str(), notice.title.as_str(), notice.body.as_str());
            true
        },
        _ => false,
    }
}

/// No configuration turns the recovery notification on for Android, nor the
/// timeout notification where Android notifies the user itself.
pub proof fn android_suppresses_its_own_notices(config: PluginConfig)
    ensures
        !NotifierPolicy::derived(config, true).on_recovery,
        config.android_on_timeout@ == "notifyUser"@ ==> !NotifierPolicy::derived(
            config,
            true,
        ).on_timeout,
{
}

/// Away from Android the policy is what the configuration says, whatever it
/// says of Android timeouts.
pub proof fn elsewhere_the_configuration_decides(config: PluginConfig)
    ensures
        NotifierPolicy::derived(config, false) == (NotifierPolicy {
            on_timeout: config.notify_on_timeout,
            on_recovery: config.notify_on_recovery,
        }),
{
}

/// The number of an id comes of the 32-bit FNV-1a hash with its published
/// constants: it starts from the offset basis, and every further byte is mixed
/// in and multiplied by the prime, modulo 2^32.
pub proof fn hash_is_fnv1a(bytes: Seq<u8>, byte: u8)
    ensures
        fnv1a(Seq::<u8>::empty()) == 2166136261,
        fnv1a(bytes.push(byte)) == ((fnv1a(bytes) ^ (byte as u32)) * 16777619) % 4294967296,
{
    assert(bytes.push(byte).drop_last() =~= bytes);
}

/// The number of an id has the same 32 bits as the hash of its text, and two
/// ids with one text have one number.
pub proof fn number_is_the_hash_of_the_text(a: &str, b: &str, x: i32, y: i32)
    requires
        call_ensures(stable_notification_id, (a,), x),
        call_ensures(stable_notification_id, (b,), y),
    ensures
        a@ == b@ ==> x == y,
        x >= 0 ==> x == fnv1a(vstd::utf8::encode_utf8(a@)),
        x < 0 ==> x + 4294967296 == fnv1a(vstd::utf8::encode_utf8(a@)),
{
}

/// Off Android a notification is posted if it is configured. On Android the
/// recovery notification never is, and the timeout notification only if it is
/// configured and Android is not told to notify the user itself.
pub proof fn policy_follows_the_configuration(
    config: PluginConfig,
    is_android: bool,
    policy: NotifierPolicy,
)
    requires
        call_ensures(NotifierPolicy::derive, (&config, is_android), policy),
    ensures
        !is_android ==> policy.on_timeout == config.notify_on_timeout && policy.on_recovery
            == config.notify_on_recovery,
        is_android ==> !policy.on_recovery,
        is_android ==> (policy.on_timeout <==> config.notify_on_timeout
            && config.android_on_timeout@ != "notifyUser"@),
{
}

/// Without a configuration nothing is posted.
pub proof fn default_policy_is_silent(policy: NotifierPolicy)
    requires
        call_ensures(<NotifierPolicy as Default>::default, (), policy),
    ensures
        !policy.on_timeout && !policy.on_recovery,
{
}

/// The two notifications have ids of their own, so that neither replaces the
/// other, and say what happened.
pub proof fn notices_say_what_happened(paused: Notice, restored: Notice)
    requires
        call_ensures(Notice::timeout, (), paused),
        call_ensures(Notice::recovery, (), restored),
    ensures
        paused.id@ == "bg-timeout"@ && restored.id@ == "bg-recovery"@,
        paused.id@ != restored.id@,
        paused.title@ == "Sila background service paused"@,
        paused.body@ == "The OS paused background delivery; it will resume automatically."@,
        restored.title@ == "Sila background service restored"@,
        restored.body@ == "Background delivery restored."@,
{
    reveal_strlit("bg-timeout");
    reveal_strlit("bg-recovery");
    assert("bg-timeout"@.len() == 10 && "bg-recovery"@.len() == 11);
}

/// Something is posted exactly if there is something to post and a sink for it.
pub proof fn posting_needs_a_notice_and_a_sink<S: NotifySink>(
    sink: Option<S>,
    notice: Option<Notice>,
    posted: bool,
)
    requires
        call_ensures(deliver::<S>, (&sink, &notice), posted),
    ensures
        posted <==> sink is Some && notice is Some,
        posted ==> exists|id: &str, title: &str, body: &str|
            id@ == notice->Some_0.id@ && title@ == notice->Some_0.title@ && body@
                == notice->Some_0.body@ && #[trigger] call_ensures(
                S::notify,
                (&sink->Some_0, id, title, body),
                (),
            ),
{
}

} // verus!
