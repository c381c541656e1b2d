//! Data types shared by the manager, the validator and the native bridge.

use crate::config::StartConfig;
use crate::double::Double;
use crate::text::{copy_text, opt_text, str_eq};
use vstd::prelude::*;

verus! {

// ─── Lifecycle states ──────────────────────────────────────────────────

/// Lifecycle state of the background service.
#[derive(Debug, Clone, Copy, PartialEq, Eq, Structural)]
pub enum ServiceState {
    /// No service has been started, or the last start was rolled back.
    Idle,
    /// The service is initialising.
    Initializing,
    /// The service initialised and runs.
    Running,
    /// The service stopped (on request, by completion, or by an error).
    Stopped,
}

/// Unified lifecycle state, with recovery and platform conditions.
#[derive(Debug, Clone, Copy, PartialEq, Eq, Structural)]
pub enum LifecycleState {
    /// No service has been started.
    Idle,
    /// The service is initialising.
    Starting,
    /// The service runs.
    Running,
    /// The service is being stopped.
    Stopping,
    /// The service has stopped.
    Stopped,
    /// The service is recovering after a platform timeout or expiration.
    Recovering,
    /// Recovery waits for platform conditions.
    RecoveryPending,
    /// The background execution window has expired.
    Expired,
    /// A platform issue blocks the service.
    Blocked,
    /// The service met an error.
    Error,
    /// The native service runs and waits for account setup.
    SetupIdle,
    /// The native service runs and waits for an unlock.
    LockedIdle,
}

impl ServiceState {
    /// The lifecycle state that stands for this state.
    pub open spec fn to_lifecycle(self) -> LifecycleState {
        match self {
            ServiceState::Idle => LifecycleState::Idle,
            ServiceState::Initializing => LifecycleState::Starting,
            ServiceState::Running => LifecycleState::Running,
            ServiceState::Stopped => LifecycleState::Stopped,
        }
    }
}

impl From<ServiceState> for LifecycleState {
    fn from(state: ServiceState) -> (lifecycle: Self) {
        match state {
            ServiceState::Idle => LifecycleState::Idle,
            ServiceState::Initializing => LifecycleState::Starting,
            ServiceState::Running => LifecycleState::Running,
            ServiceState::Stopped => LifecycleState::Stopped,
        }
    }
}

impl vstd::std_specs::convert::FromSpecImpl<ServiceState> for LifecycleState {
    open spec fn obeys_from_spec() -> bool {
        true
    }

    open spec fn from_spec(state: ServiceState) -> LifecycleState {
        state.to_lifecycle()
    }
}

/// Native platform-side state reported by the OS service layer.
#[derive(Debug, Clone, Copy, PartialEq, Eq, Structural)]
pub enum NativeState {
    Idle,
    Starting,
    Running,
    Stopping,
    Timeout,
    Expired,
    Recovering,
    Error,
}

/// The native state that a name stands for.
pub open spec fn native_state_of(name: Seq<char>) -> Option<NativeState> {
    if name == "idle"@ {
        Some(NativeState::Idle)
    } else if name == "starting"@ {
        Some(NativeState::Starting)
    } else if name == "running"@ {
        Some(NativeState::Running)
    } else if name == "stopping"@ {
        Some(NativeState::Stopping)
    } else if name == "timeout"@ {
        Some(NativeState::Timeout)
    } else if name == "expired"@ {
        Some(NativeState::Expired)
    } else if name == "recovering"@ {
        Some(NativeState::Recovering)
    } else if name == "error"@ {
        Some(NativeState::Error)
    } else {
        None
    }
}

impl NativeState {
    /// The name of the state on the wire and in storage.
    pub open spec fn name_text(self) -> Seq<char> {
        match self {
            NativeState::Idle => "idle"@,
            NativeState::Starting => "starting"@,
            NativeState::Running => "running"@,
            NativeState::Stopping => "stopping"@,
            NativeState::Timeout => "timeout"@,
            NativeState::Expired => "expired"@,
            NativeState::Recovering => "recovering"@,
            NativeState::Error => "error"@,
        }
    }

    /// The name of the state on the wire and in storage.
    pub fn name(self) -> (name: &'static str)
        ensures
            name@ == self.name_text(),
    {
        match self {
            NativeState::Idle => "idle",
            NativeState::Starting => "starting",
            NativeState::Running => "running",
            NativeState::Stopping => "stopping",
            NativeState::Timeout => "timeout",
            NativeState::Expired => "expired",
            NativeState::Recovering => "recovering",
            NativeState::Error => "error",
        }
    }

    /// The state with the given name, if there is one.
    pub fn from_name(name: &str) -> (state: Option<NativeState>)
        ensures
            state == native_state_of(name@),
    {
        if str_eq(name, "idle") {
            Some(NativeState::Idle)
        } else if str_eq(name, "starting") {
            Some(NativeState::Starting)
        } else if str_eq(name, "running") {
            Some(NativeState::Running)
        } else if str_eq(name, "stopping") {
            Some(NativeState::Stopping)
        } else if str_eq(name, "timeout") {
            Some(NativeState::Timeout)
        } else if str_eq(name, "expired") {
            Some(NativeState::Expired)
        } else if str_eq(name, "recovering") {
            Some(NativeState::Recovering)
        } else if str_eq(name, "error") {
            Some(NativeState::Error)
        } else {
            None
        }
    }
}

/// Reading back the name of a native state gives that state.
pub proof fn native_state_name_round_trip(state: NativeState)
    ensures
        native_state_of(state.name_text()) == Some(state),
{
    reveal_strlit("idle");
    reveal_strlit("starting");
    reveal_strlit("running");
    reveal_strlit("stopping");
    reveal_strlit("timeout");
    reveal_strlit("expired");
    reveal_strlit("recovering");
    reveal_strlit("error");
    assert("idle"@.len() == 4 && "error"@.len() == 5 && "recovering"@.len() == 10);
    assert("starting"@.len() == 8 && "stopping"@.len() == 8);
    assert("running"@.len() == 7 && "timeout"@.len() == 7 && "expired"@.len() == 7);
    assert("starting"@[2] == 'a' && "stopping"@[2] == 'o');
    assert("running"@[0] == 'r' && "timeout"@[0] == 't' && "expired"@[0] == 'e');
}

/// A text is read as a native state only if it is the name of that state.
pub proof fn native_states_are_read_by_name_only(name: Seq<char>)
    ensures
        native_state_of(name) matches Some(state) ==> name == state.name_text(),
{
}

/// The native states go by these names, and no two by one.
pub proof fn native_state_names(state: NativeState, name: &'static str)
    requires
        call_ensures(NativeState::name, (state,), name),
    ensures
        name@ == "idle"@ <==> state is Idle,
        name@ == "starting"@ <==> state is Starting,
        name@ == "running"@ <==> state is Running,
        name@ == "stopping"@ <==> state is Stopping,
        name@ == "timeout"@ <==> state is Timeout,
        name@ == "expired"@ <==> state is Expired,
        name@ == "recovering"@ <==> state is Recovering,
        name@ == "error"@ <==> state is Error,
{
    native_state_name_round_trip(state);
    native_state_name_round_trip(NativeState::Idle);
    native_state_name_round_trip(NativeState::Starting);
    native_state_name_round_trip(NativeState::Running);
    native_state_name_round_trip(NativeState::Stopping);
    native_state_name_round_trip(NativeState::Timeout);
    native_state_name_round_trip(NativeState::Expired);
    native_state_name_round_trip(NativeState::Recovering);
    native_state_name_round_trip(NativeState::Error);
}

/// Writing a native state and reading the name back gives the state; a name
/// that reads as a state is the one that the state is written by.
pub proof fn native_state_reads_what_it_writes(
    state: NativeState,
    written: &'static str,
    name: &str,
    read: Option<NativeState>,
)
    requires
        call_ensures(NativeState::name, (state,), written),
        call_ensures(NativeState::from_name, (name,), read),
    ensures
        read == Some(state) <==> name@ == written@,
{
    native_state_name_round_trip(state);
    native_states_are_read_by_name_only(name@);
}

// ─── Platforms ─────────────────────────────────────────────────────────

/// The operating system platform.
#[derive(Debug, Clone, Copy, PartialEq, Eq, Structural)]
pub enum Platform {
    Android,
    Ios,
    Windows,
    Macos,
    Linux,
    Unknown,
}

/// Severity level of a validation issue.
#[derive(Debug, Clone, Copy, PartialEq, Eq, Structural)]
pub enum Severity {
    Error,
    Warning,
    Info,
}

/// The mechanism that keeps the service alive on a platform.
#[derive(Debug, Clone, Copy, PartialEq, Eq, Structural)]
pub enum LifecycleMode {
    AndroidForegroundService,
    IosBgTaskScheduler,
    DesktopInProcess,
    DesktopOsService,
}

/// How far a platform supports a background execution scenario.
#[derive(Debug, Clone, Copy, PartialEq, Eq, Structural)]
pub enum LifecycleGuarantee {
    /// The platform reliably supports the scenario.
    Guaranteed,
    /// The platform may support the scenario but cannot guarantee it.
    BestEffort,
    /// The platform does not support the scenario.
    Unsupported,
}

/// What a platform can promise for background execution.
#[derive(Debug, PartialEq, Eq)]
pub struct PlatformCapabilities {
    pub platform: Platform,
    pub lifecycle_mode: LifecycleMode,
    pub survives_app_close: LifecycleGuarantee,
    pub survives_reboot: LifecycleGuarantee,
    pub survives_force_quit: LifecycleGuarantee,
    pub background_execution: LifecycleGuarantee,
    pub limitations: Vec<String>,
    pub required_setup: Vec<String>,
}

/// Whether an OS-level service is installed and running.
#[derive(Debug, Clone, Copy, PartialEq, Eq, Structural)]
pub enum OsServiceInstallState {
    /// The OS service is not installed.
    NotInstalled,
    /// The OS service is installed but not running.
    Installed,
    /// The OS service is installed and running.
    Running,
}

/// Snapshot of an OS-level service's status.
#[derive(Debug, PartialEq, Eq)]
pub struct OsServiceStatus {
    /// The service label (e.g. `com.example.background-service`).
    pub label: String,
    /// The service manager kind (e.g. `systemd`, `launchd`).
    pub mode: String,
    /// Whether the service is installed and running.
    pub installed: OsServiceInstallState,
    /// Whether the connection to the service process is active.
    pub ipc_connected: bool,
    /// Path of the socket used to talk to the service process.
    pub socket_path: Option<String>,
    /// Last error message from the OS service.
    pub last_error: Option<String>,
}

// ─── Status ────────────────────────────────────────────────────────────

/// Snapshot of the service status.
#[derive(Debug, PartialEq, Eq)]
pub struct ServiceStatus {
    /// Current lifecycle state.
    pub state: ServiceState,
    /// Last error message, if the service stopped by an error.
    pub last_error: Option<String>,
    /// Whether the service is meant to run, as stored.
    pub desired_running: Option<bool>,
    /// Native state, as stored.
    pub native_state: Option<NativeState>,
    /// The lifecycle mechanism in use.
    pub platform_mode: Option<LifecycleMode>,
    /// Configuration of the last start.
    pub last_start_config: Option<StartConfig>,
    /// Epoch milliseconds of the last heartbeat.
    pub last_heartbeat_at: Option<u64>,
    /// Restart attempts since the last clean start; `None` for none.
    pub restart_attempt: Option<u32>,
    /// Reason of the current recovery attempt.
    pub recovery_reason: Option<String>,
    /// Last platform error message.
    pub platform_error: Option<String>,
}

impl ServiceStatus {
    /// An idle status with nothing known beyond it.
    pub open spec fn blank() -> ServiceStatus {
        ServiceStatus {
            state: ServiceState::Idle,
            last_error: None,
            desired_running: None,
            native_state: None,
            platform_mode: None,
            last_start_config: None,
            last_heartbeat_at: None,
            restart_attempt: None,
            recovery_reason: None,
            platform_error: None,
        }
    }
}

impl Default for ServiceStatus {
    fn default() -> (status: Self)
        ensures
            status == ServiceStatus::blank(),
    {
        ServiceStatus {
            state: ServiceState::Idle,
            last_error: None,
            desired_running: None,
            native_state: None,
            platform_mode: None,
            last_start_config: None,
            last_heartbeat_at: None,
            restart_attempt: None,
            recovery_reason: None,
            platform_error: None,
        }
    }
}

/// A status of which nothing is known is idle and says nothing more.
pub proof fn unknown_status_is_idle(status: ServiceStatus)
    requires
        call_ensures(<ServiceStatus as Default>::default, (), status),
    ensures
        status.state is Idle,
        status.last_error is None && status.desired_running is None,
        status.native_state is None && status.platform_mode is None,
        status.last_start_config is None && status.last_heartbeat_at is None,
        status.restart_attempt is None && status.recovery_reason is None,
        status.platform_error is None,
{
}

/// Complete snapshot of the background service lifecycle.
#[derive(Debug, PartialEq, Eq)]
pub struct LifecycleStatus {
    pub state: LifecycleState,
    pub desired_running: bool,
    pub recovery_enabled: bool,
    pub recovery_pending: bool,
    pub recovery_reason: Option<String>,
    pub last_start_config: Option<StartConfig>,
    pub last_platform_state: Option<String>,
    pub last_platform_error: Option<String>,
    pub last_error: Option<String>,
    pub platform: Platform,
    pub capabilities: PlatformCapabilities,
    pub issues: Vec<ValidationIssue>,
    /// Whether the native side runs the service, where it reports that.
    pub native_running: Option<bool>,
    /// Whether the native service is in the foreground, where it reports that.
    pub native_foreground: Option<bool>,
    /// Whether this snapshot took over a service that the native side runs.
    pub adopted: Option<bool>,
    /// Whether background delivery is impaired.
    pub degraded: Option<bool>,
    /// Why it is impaired.
    pub degraded_reason: Option<String>,
    /// The app data directory that the native side uses.
    pub data_dir: Option<String>,
}

// ─── Stop reasons and events ───────────────────────────────────────────

/// Reason why the background service stopped.
#[derive(Debug, Clone, Copy, PartialEq, Eq, Structural)]
pub enum StopReason {
    /// The user stopped the service.
    UserStop,
    /// The application is shutting down gracefully.
    AppStop,
    /// The platform stopped the service on a timeout.
    PlatformTimeout,
    /// The platform ended the background execution window.
    PlatformExpiration,
    /// The user pressed stop on the native notification.
    NativeNotificationStop,
    /// The OS restarted the service after a reboot.
    OsRestart,
    /// The service recovered after device boot.
    BootRecovery,
    /// The service finished by itself.
    TaskCompleted,
    /// The service failed.
    Error,
    /// The host process is exiting.
    ProcessExit,
}

/// The stop reason that a name stands for. Three names of old are understood
/// as well: "completed", "cancelled" and "user".
pub open spec fn stop_reason_of(name: Seq<char>) -> Option<StopReason> {
    if name == "userStop"@ {
        Some(StopReason::UserStop)
    } else if name == "appStop"@ {
        Some(StopReason::AppStop)
    } else if name == "platformTimeout"@ {
        Some(StopReason::PlatformTimeout)
    } else if name == "platformExpiration"@ {
        Some(StopReason::PlatformExpiration)
    } else if name == "nativeNotificationStop"@ {
        Some(StopReason::NativeNotificationStop)
    } else if name == "osRestart"@ {
        Some(StopReason::OsRestart)
    } else if name == "bootRecovery"@ {
        Some(StopReason::BootRecovery)
    } else if name == "taskCompleted"@ {
        Some(StopReason::TaskCompleted)
    } else if name == "error"@ {
        Some(StopReason::Error)
    } else if name == "processExit"@ {
        Some(StopReason::ProcessExit)
    } else if name == "completed"@ {
        Some(StopReason::TaskCompleted)
    } else if name == "cancelled"@ || name == "user"@ {
        Some(StopReason::UserStop)
    } else {
        None
    }
}

impl StopReason {
    /// The name of the reason on the wire.
    pub open spec fn name_text(self) -> Seq<char> {
        match self {
            StopReason::UserStop => "userStop"@,
            StopReason::AppStop => "appStop"@,
            StopReason::PlatformTimeout => "platformTimeout"@,
            StopReason::PlatformExpiration => "platformExpiration"@,
            StopReason::NativeNotificationStop => "nativeNotificationStop"@,
            StopReason::OsRestart => "osRestart"@,
            StopReason::BootRecovery => "bootRecovery"@,
            StopReason::TaskCompleted => "taskCompleted"@,
            StopReason::Error => "error"@,
            StopReason::ProcessExit => "processExit"@,
        }
    }

    /// The name of the reason on the wire.
    pub fn name(self) -> (name: &'static str)
        ensures
            name@ == self.name_text(),
    {
        match self {
            StopReason::UserStop => "userStop",
            StopReason::AppStop => "appStop",
            StopReason::PlatformTimeout => "platformTimeout",
            StopReason::PlatformExpiration => "platformExpiration",
            StopReason::NativeNotificationStop => "nativeNotificationStop",
            StopReason::OsRestart => "osRestart",
            StopReason::BootRecovery => "bootRecovery",
            StopReason::TaskCompleted => "taskCompleted",
            StopReason::Error => "error",
            StopReason::ProcessExit => "processExit",
        }
    }

    /// The reason with the given name, if there is one.
    pub fn from_name(name: &str) -> (reason: Option<StopReason>)
        ensures
            reason == stop_reason_of(name@),
    {
        if str_eq(name, "userStop") {
            Some(StopReason::UserStop)
        } else if str_eq(name, "appStop") {
            Some(StopReason::AppStop)
        } else if str_eq(name, "platformTimeout") {
            Some(StopReason::PlatformTimeout)
        } else if str_eq(name, "platformExpiration") {
            Some(StopReason::PlatformExpiration)
        } else if str_eq(name, "nativeNotificationStop") {
            Some(StopReason::NativeNotificationStop)
        } else if str_eq(name, "osRestart") {
            Some(StopReason::OsRestart)
        } else if str_eq(name, "bootRecovery") {
            Some(StopReason::BootRecovery)
        } else if str_eq(name, "taskCompleted") {
            Some(StopReason::TaskCompleted)
        } else if str_eq(name, "error") {
            Some(StopReason::Error)
        } else if str_eq(name, "processExit") {
            Some(StopReason::ProcessExit)
        } else if str_eq(name, "completed") {
            Some(StopReason::TaskCompleted)
        } else if str_eq(name, "cancelled") || str_eq(name, "user") {
            Some(StopReason::UserStop)
        } else {
            None
        }
    }
}

/// Reading back the name of a stop reason gives that reason.
pub proof fn stop_reason_name_round_trip(reason: StopReason)
    ensures
        stop_reason_of(reason.name_text()) == Some(reason),
{
    reveal_strlit("userStop");
    reveal_strlit("appStop");
    reveal_strlit("platformTimeout");
    reveal_strlit("platformExpiration");
    reveal_strlit("nativeNotificationStop");
    reveal_strlit("osRestart");
    reveal_strlit("bootRecovery");
    reveal_strlit("taskCompleted");
    reveal_strlit("error");
    reveal_strlit("processExit");
    assert("userStop"@.len() == 8 && "appStop"@.len() == 7 && "platformTimeout"@.len() == 15);
    assert("platformExpiration"@.len() == 18 && "nativeNotificationStop"@.len() == 22);
    assert("osRestart"@.len() == 9 && "bootRecovery"@.len() == 12);
    assert("taskCompleted"@.len() == 13 && "error"@.len() == 5 && "processExit"@.len() == 11);
}

/// The stop reasons go by these names.
pub proof fn stop_reason_names(reason: StopReason, name: &'static str)
    requires
        call_ensures(StopReason::name, (reason,), name),
    ensures
        name@ == "userStop"@ <==> reason is UserStop,
        name@ == "appStop"@ <==> reason is AppStop,
        name@ == "platformTimeout"@ <==> reason is PlatformTimeout,
        name@ == "platformExpiration"@ <==> reason is PlatformExpiration,
        name@ == "nativeNotificationStop"@ <==> reason is NativeNotificationStop,
        name@ == "osRestart"@ <==> reason is OsRestart,
        name@ == "bootRecovery"@ <==> reason is BootRecovery,
        name@ == "taskCompleted"@ <==> reason is TaskCompleted,
        name@ == "error"@ <==> reason is Error,
        name@ == "processExit"@ <==> reason is ProcessExit,
{
    stop_reason_name_round_trip(reason);
    stop_reason_name_round_trip(StopReason::UserStop);
    stop_reason_name_round_trip(StopReason::AppStop);
    stop_reason_name_round_trip(StopReason::PlatformTimeout);
    stop_reason_name_round_trip(StopReason::PlatformExpiration);
    stop_reason_name_round_trip(StopReason::NativeNotificationStop);
    stop_reason_name_round_trip(StopReason::OsRestart);
    stop_reason_name_round_trip(StopReason::BootRecovery);
    stop_reason_name_round_trip(StopReason::TaskCompleted);
    stop_reason_name_round_trip(StopReason::Error);
    stop_reason_name_round_trip(StopReason::ProcessExit);
}

/// A name is read as the reason that is written by it; beyond these, three
/// names of old are read: "completed" as a completion, "cancelled" and "user"
/// as stops by the user.
pub proof fn stop_reason_reads_what_it_writes(
    reason: StopReason,
    written: &'static str,
    name: &str,
    read: Option<StopReason>,
)
    requires
        call_ensures(StopReason::name, (reason,), written),
        call_ensures(StopReason::from_name, (name,), read),
    ensures
        name@ == written@ ==> read == Some(reason),
        name@ == "completed"@ ==> read == Some(StopReason::TaskCompleted),
        name@ == "cancelled"@ || name@ == "user"@ ==> read == Some(StopReason::UserStop),
        read == Some(reason) ==> name@ == written@ || (reason is TaskCompleted && name@
            == "completed"@) || (reason is UserStop && (name@ == "cancelled"@ || name@ == "user"@)),
{
    stop_reason_name_round_trip(reason);
    reveal_strlit("completed");
    reveal_strlit("cancelled");
    reveal_strlit("user");
    reveal_strlit("userStop");
    reveal_strlit("appStop");
    reveal_strlit("platformTimeout");
    reveal_strlit("platformExpiration");
    reveal_strlit("nativeNotificationStop");
    reveal_strlit("osRestart");
    reveal_strlit("bootRecovery");
    reveal_strlit("taskCompleted");
    reveal_strlit("error");
    reveal_strlit("processExit");
    assert("completed"@.len() == 9 && "cancelled"@.len() == 9 && "user"@.len() == 4);
    assert("completed"@[0] == 'c' && "completed"@[1] == 'o' && "cancelled"@[1] == 'a');
    assert("osRestart"@.len() == 9 && "osRestart"@[0] == 'o');
    assert("userStop"@.len() == 8 && "appStop"@.len() == 7 && "platformTimeout"@.len() == 15);
    assert("platformExpiration"@.len() == 18 && "nativeNotificationStop"@.len() == 22);
    assert("bootRecovery"@.len() == 12 && "taskCompleted"@.len() == 13);
    assert("error"@.len() == 5 && "processExit"@.len() == 11);
}

/// Lifecycle events sent by the native side.
#[derive(Debug, PartialEq, Eq)]
pub enum NativeLifecycleEvent {
    /// The user pressed stop on the Android foreground service notification.
    AndroidNotificationStop,
    /// Android stopped the foreground service on a timeout.
    AndroidTimeout {
        /// The foreground service type that timed out (e.g. "dataSync").
        fgs_type: Option<String>,
    },
    /// Android accepted a restart of the service by the OS.
    AndroidOsRestartAccepted,
    /// Android accepted a start of the service after boot.
    AndroidBootRecoveryAccepted,
}

impl NativeLifecycleEvent {
    /// The stop reason that the event stands for.
    pub open spec fn stop_reason(&self) -> StopReason {
        match self {
            NativeLifecycleEvent::AndroidNotificationStop => StopReason::NativeNotificationStop,
            NativeLifecycleEvent::AndroidTimeout { .. } => StopReason::PlatformTimeout,
            NativeLifecycleEvent::AndroidOsRestartAccepted => StopReason::OsRestart,
            NativeLifecycleEvent::AndroidBootRecoveryAccepted => StopReason::BootRecovery,
        }
    }

    /// Whether the event reports a restart that the native side accepted,
    /// rather than a stop.
    pub open spec fn accepts_recovery(&self) -> bool {
        self is AndroidOsRestartAccepted || self is AndroidBootRecoveryAccepted
    }

    /// The stop reason that the event stands for.
    pub fn to_stop_reason(&self) -> (reason: StopReason)
        ensures
            reason == self.stop_reason(),
    {
        match self {
            NativeLifecycleEvent::AndroidNotificationStop => StopReason::NativeNotificationStop,
            NativeLifecycleEvent::AndroidTimeout { .. } => StopReason::PlatformTimeout,
            NativeLifecycleEvent::AndroidOsRestartAccepted => StopReason::OsRestart,
            NativeLifecycleEvent::AndroidBootRecoveryAccepted => StopReason::BootRecovery,
        }
    }

    /// Whether the event reports a restart that the native side accepted.
    pub fn is_recovery_acceptance(&self) -> (accepted: bool)
        ensures
            accepted == self.accepts_recovery(),
    {
        match self {
            NativeLifecycleEvent::AndroidOsRestartAccepted => true,
            NativeLifecycleEvent::AndroidBootRecoveryAccepted => true,
            _ => false,
        }
    }
}

/// Each event stands for its own stop reason, and only the two acceptances are
/// no stops.
pub proof fn events_keep_their_meaning(
    event: NativeLifecycleEvent,
    reason: StopReason,
    accepted: bool,
)
    requires
        call_ensures(NativeLifecycleEvent::to_stop_reason, (&event,), reason),
        call_ensures(NativeLifecycleEvent::is_recovery_acceptance, (&event,), accepted),
    ensures
        reason is NativeNotificationStop <==> event is AndroidNotificationStop,
        reason is PlatformTimeout <==> event is AndroidTimeout,
        reason is OsRestart <==> event is AndroidOsRestartAccepted,
        reason is BootRecovery <==> event is AndroidBootRecoveryAccepted,
        accepted <==> !(event is AndroidNotificationStop) && !(event is AndroidTimeout),
{
}

/// Events that the service runner itself emits.
#[derive(Debug, PartialEq, Eq)]
pub enum PluginEvent {
    /// The service initialised.
    Started,
    /// The service returned or was cancelled.
    Stopped { reason: StopReason },
    /// The service failed to initialise or failed while running.
    Error { message: String },
}

// ─── Native snapshots ──────────────────────────────────────────────────

/// What the Android side reports of its foreground service.
#[derive(Debug, PartialEq, Eq)]
pub struct AndroidServiceState {
    pub native_running: bool,
    pub native_foreground: bool,
    pub desired_running: bool,
    /// State kept across restarts, such as "running", "timeout", "setup_idle".
    pub durable_state: String,
    pub service_label: Option<String>,
    pub foreground_service_type: Option<String>,
    pub notification_id: Option<u32>,
    pub notification_channel_id: Option<String>,
    pub recovery_pending: bool,
    pub recovery_reason: Option<String>,
    pub last_platform_error: Option<String>,
    pub data_dir: String,
}

/// A background task of iOS that launched the app.
#[derive(Debug, PartialEq, Eq)]
pub struct PendingTaskInfo {
    /// The kind of background task: "refresh" or "processing".
    pub task_kind: String,
    /// The task identifier (e.g. "com.example.app.bg-refresh").
    pub identifier: String,
    /// Epoch seconds at which the native side received the task.
    pub received_at: Double,
    /// Epoch seconds at which the task was consumed by an auto-start.
    pub consumed_at: Option<Double>,
}

impl PendingTaskInfo {
    /// The task that may still start the service: a task that was consumed
    /// before counts as none.
    pub fn from_pending_payload(payload: Option<PendingTaskInfo>) -> (task: Option<PendingTaskInfo>)
        ensures
            task == (match payload {
                Some(info) => if info.consumed_at is None { Some(info) } else { None },
                None => None,
            }),
    {
        match payload {
            Some(info) => {
                if info.consumed_at.is_none() {
                    Some(info)
                } else {
                    None
                }
            },
            None => None,
        }
    }
}

/// A task can start the service once: it is handed on unchanged while it was
/// not consumed, and never after.
pub proof fn consumed_tasks_start_nothing(
    payload: Option<PendingTaskInfo>,
    task: Option<PendingTaskInfo>,
)
    requires
        call_ensures(PendingTaskInfo::from_pending_payload, (payload,), task),
    ensures
        task is Some ==> task == payload && task->Some_0.consumed_at is None,
        task is None ==> payload is None || payload->Some_0.consumed_at is Some,
{
}

/// Which background tasks iOS accepted at the last scheduling attempt.
#[derive(Debug, PartialEq, Eq)]
pub struct IOSSchedulingStatus {
    /// Whether a `BGAppRefreshTask` was scheduled.
    pub refresh_scheduled: bool,
    /// Whether a `BGProcessingTask` was scheduled.
    pub processing_scheduled: bool,
    /// Error from `BGAppRefreshTask` scheduling.
    pub refresh_error: Option<String>,
    /// Error from `BGProcessingTask` scheduling.
    pub processing_error: Option<String>,
}

/// What iOS keeps of the desired state and of the last background task.
#[derive(Debug, PartialEq, Eq)]
pub struct IOSDesiredStateStatus {
    pub desired_running: bool,
    pub last_start_config: Option<String>,
    pub last_schedule_error: Option<String>,
    pub last_task_kind: Option<String>,
    pub last_task_started_at: Option<Double>,
    pub last_task_completed_at: Option<Double>,
    pub last_completion_reason: Option<String>,
    pub notification_granted: Option<bool>,
}

/// The background-task situation of iOS.
#[derive(Debug, PartialEq, Eq)]
pub struct IosNativeState {
    pub desired_running: bool,
    pub refresh_scheduled: bool,
    pub processing_scheduled: bool,
    /// Kind of the task that is executing.
    pub active_task_kind: Option<String>,
    /// A task that waits to start the service.
    pub pending_task: Option<PendingTaskInfo>,
    pub last_completed_at: Option<Double>,
    pub last_completion_reason: Option<String>,
    pub last_refresh_error: Option<String>,
    pub last_processing_error: Option<String>,
    pub in_budget: bool,
}

// ─── Setup validation ──────────────────────────────────────────────────

/// A setup issue found during validation.
#[derive(Debug, PartialEq, Eq)]
pub struct SetupIssue {
    /// Machine-readable code (e.g. "android_fgs_type").
    pub code: String,
    /// Human-readable description of the issue.
    pub message: String,
    /// The platform this issue applies to.
    pub platform: Platform,
    /// Suggested fix for the issue.
    pub fix: Option<String>,
}

/// What a [`SetupIssue`] holds.
pub struct SetupIssueView {
    pub code: Seq<char>,
    pub message: Seq<char>,
    pub platform: Platform,
    pub fix: Option<Seq<char>>,
}

impl View for SetupIssue {
    type V = SetupIssueView;

    open spec fn view(&self) -> SetupIssueView {
        SetupIssueView {
            code: self.code@,
            message: self.message@,
            platform: self.platform,
            fix: opt_text(self.fix),
        }
    }
}

/// A validation issue with its severity.
#[derive(Debug, PartialEq, Eq)]
pub struct ValidationIssue {
    pub severity: Severity,
    pub code: String,
    pub message: String,
    pub fix: Option<String>,
    pub platform: Platform,
}

/// What a [`ValidationIssue`] holds.
pub struct ValidationIssueView {
    pub severity: Severity,
    pub code: Seq<char>,
    pub message: Seq<char>,
    pub fix: Option<Seq<char>>,
    pub platform: Platform,
}

impl View for ValidationIssue {
    type V = ValidationIssueView;

    open spec fn view(&self) -> ValidationIssueView {
        ValidationIssueView {
            severity: self.severity,
            code: self.code@,
            message: self.message@,
            fix: opt_text(self.fix),
            platform: self.platform,
        }
    }
}

impl SetupIssueView {
    /// The issue with a severity added.
    pub open spec fn rated(self, severity: Severity) -> ValidationIssueView {
        ValidationIssueView {
            severity,
            code: self.code,
            message: self.message,
            fix: self.fix,
            platform: self.platform,
        }
    }
}

impl SetupIssue {
    /// The issue with a severity added.
    pub fn to_validation_issue(&self, severity: Severity) -> (issue: ValidationIssue)
        ensures
            issue@ == self@.rated(severity),
    {
        ValidationIssue {
            severity,
            code: self.code.clone(),
            message: self.message.clone(),
            fix: copy_text(&self.fix),
            platform: self.platform,
        }
    }
}

/// Rating an issue adds the severity and keeps everything else.
pub proof fn rating_keeps_the_issue(
    issue: SetupIssue,
    severity: Severity,
    rated: ValidationIssue,
)
    requires
        call_ensures(SetupIssue::to_validation_issue, (&issue, severity), rated),
    ensures
        rated.severity == severity,
        rated.code@ == issue.code@,
        rated.message@ == issue.message@,
        rated.platform == issue.platform,
        rated.fix is Some <==> issue.fix is Some,
        rated.fix matches Some(fix) ==> fix@ == issue.fix->Some_0@,
{
    assert(rated@ == issue@.rated(severity));
}

/// Result of validating the setup of the background service.
#[derive(Debug, PartialEq, Eq)]
pub struct SetupValidationReport {
    /// Whether `errors` is empty; warnings do not matter here.
    pub ok: bool,
    /// Blocking issues that keep the service from working.
    pub errors: Vec<SetupIssue>,
    /// Issues that may degrade the service.
    pub warnings: Vec<SetupIssue>,
    /// The errors, then the warnings, each with its severity.
    pub issues: Vec<ValidationIssue>,
}

} // verus!
