//! The service manager: a state machine that decides what a start, a stop and
//! the other commands do.
//!
//! The manager does no work of its own outside its state. A host owns the
//! command channel, the native bridge, the storage and the service task; it
//! hands each command to [`ManagerState::step`], carries out what the returned
//! [`Step`] asks for, and hands results back.

use crate::config::{
    copy_config, invalid_type_text, is_valid_type, passes_allowlist, refused_type_text,
    validate_fg_type_against_allowlist, validate_foreground_service_type, PluginConfig,
    StartConfig,
};
use crate::desired_state::{DesiredChange, DesiredState};
use crate::double::Double;
use crate::error::ServiceError;
use crate::json::{is_plain, native_state_from_stored, stored_native_state};
use crate::models::{
    native_state_of, AndroidServiceState, IosNativeState, LifecycleMode, NativeLifecycleEvent,
    ServiceState, ServiceStatus, StopReason,
};
use crate::notifier::{recovery_notice_text, timeout_notice_text, Notice, NotifierPolicy};
use crate::policy::{
    clears_desired, is_platform_pause, resubmits, should_clear_desired_state,
    should_notify_timeout, should_reconcile_resubmit, should_replay_on_boot,
    should_stop_keepalive, stops_keepalive,
};
use crate::text::copy_text;
use crate::token::{
    cancel_token, fresh_token, share_token, CancelledToken, FreshToken, RunToken, ShutdownToken,
};
use vstd::prelude::*;

verus! {

// ─── State ─────────────────────────────────────────────────────────────

/// What the manager has to know of an attached native bridge.
#[derive(Debug, Clone, Copy, PartialEq, Eq, Structural)]
pub struct MobileBridge {
    /// The OS checks foreground service types (Android).
    pub enforces_foreground_service_type: bool,
    /// A refused keepalive only degrades background scheduling; the service
    /// still runs in the foreground (iOS).
    pub scheduling_is_advisory: bool,
}

/// Settings handed to the native side with every start.
#[derive(Debug, Clone, Copy, PartialEq, Eq, Structural)]
pub struct KeepaliveSettings {
    pub ios_safety_timeout_secs: Double,
    /// No cap unless above zero.
    pub ios_processing_safety_timeout_secs: Double,
    pub ios_earliest_refresh_begin_minutes: Double,
    pub ios_earliest_processing_begin_minutes: Double,
    pub ios_requires_external_power: bool,
    pub ios_requires_network_connectivity: bool,
    pub ios_processing_ceiling_multiplier: Double,
}

impl KeepaliveSettings {
    /// The settings in a plugin configuration.
    pub open spec fn of(config: PluginConfig) -> KeepaliveSettings {
        KeepaliveSettings {
            ios_safety_timeout_secs: config.ios_safety_timeout_secs,
            ios_processing_safety_timeout_secs: config.ios_processing_safety_timeout_secs,
            ios_earliest_refresh_begin_minutes: config.ios_earliest_refresh_begin_minutes,
            ios_earliest_processing_begin_minutes: config.ios_earliest_processing_begin_minutes,
            ios_requires_external_power: config.ios_requires_external_power,
            ios_requires_network_connectivity: config.ios_requires_network_connectivity,
            ios_processing_ceiling_multiplier: config.ios_processing_ceiling_multiplier,
        }
    }

    /// The settings in a plugin configuration.
    pub fn from_config(config: &PluginConfig) -> (settings: KeepaliveSettings)
        ensures
            settings == KeepaliveSettings::of(*config),
    {
        KeepaliveSettings {
            ios_safety_timeout_secs: config.ios_safety_timeout_secs,
            ios_processing_safety_timeout_secs: config.ios_processing_safety_timeout_secs,
            ios_earliest_refresh_begin_minutes: config.ios_earliest_refresh_begin_minutes,
            ios_earliest_processing_begin_minutes: config.ios_earliest_processing_begin_minutes,
            ios_requires_external_power: config.ios_requires_external_power,
            ios_requires_network_connectivity: config.ios_requires_network_connectivity,
            ios_processing_ceiling_multiplier: config.ios_processing_ceiling_multiplier,
        }
    }
}

/// Arguments of the native `startKeepalive` call.
#[derive(Debug, PartialEq, Eq)]
pub struct StartKeepaliveArgs {
    pub label: String,
    pub foreground_service_type: String,
    pub ios_safety_timeout_secs: Option<Double>,
    pub ios_processing_safety_timeout_secs: Option<Double>,
    pub ios_earliest_refresh_begin_minutes: Option<Double>,
    pub ios_earliest_processing_begin_minutes: Option<Double>,
    pub ios_requires_external_power: Option<bool>,
    pub ios_requires_network_connectivity: Option<bool>,
    pub ios_processing_ceiling_multiplier: Option<Double>,
}

/// What the native side reports of itself, by platform.
#[derive(Debug, PartialEq, Eq)]
pub enum NativeAuthority {
    /// The long-lived Android foreground service.
    Android(AndroidServiceState),
    /// The background tasks of iOS.
    Ios(IosNativeState),
}

/// State of the manager. `C` is the callback fired when a run completes.
pub struct ManagerState<C> {
    /// Whether a service is believed to run.
    pub is_running: bool,
    /// Cancels the current run; there while one was started and has not been
    /// stopped or finished.
    pub token: Option<RunToken>,
    /// Number of the latest run.
    pub generation: u64,
    /// Callback for the next run.
    pub on_complete: Option<C>,
    /// The attached native bridge.
    pub mobile: Option<MobileBridge>,
    /// Whether a start has supplied an app to emit events on.
    pub has_app: bool,
    /// Settings for the native side.
    pub keepalive: KeepaliveSettings,
    /// Lifecycle state of the service.
    pub lifecycle_state: ServiceState,
    /// Last error message of a run.
    pub last_error: Option<String>,
    /// Why background scheduling is unavailable for the current run.
    pub scheduling_degraded: Option<String>,
    /// Whether there is storage for the desired state.
    pub has_backend: bool,
    /// The lifecycle mechanism in use.
    pub lifecycle_mode: LifecycleMode,
    /// Foreground service types that the configuration allows.
    pub android_fg_service_types: Vec<String>,
    /// Whether requested types are checked against the allowed ones.
    pub android_validate_fg_type: bool,
    /// Which lifecycle notifications are enabled.
    pub notifier_policy: NotifierPolicy,
}

/// The operating system that the plugin was built for.
#[derive(Debug, Clone, Copy, PartialEq, Eq, Structural)]
pub enum TargetOs {
    Android,
    Ios,
    Desktop,
}

impl TargetOs {
    /// The lifecycle mechanism of the system.
    pub open spec fn mode(self) -> LifecycleMode {
        match self {
            TargetOs::Android => LifecycleMode::AndroidForegroundService,
            TargetOs::Ios => LifecycleMode::IosBgTaskScheduler,
            TargetOs::Desktop => LifecycleMode::DesktopInProcess,
        }
    }

    /// The lifecycle mechanism of the system.
    pub fn lifecycle_mode(self) -> (mode: LifecycleMode)
        ensures
            mode == self.mode(),
    {
        match self {
            TargetOs::Android => LifecycleMode::AndroidForegroundService,
            TargetOs::Ios => LifecycleMode::IosBgTaskScheduler,
            TargetOs::Desktop => LifecycleMode::DesktopInProcess,
        }
    }
}

/// The number of the run after run `generation`; numbers wrap around.
pub open spec fn next_generation(generation: u64) -> u64 {
    if generation == u64::MAX {
        0
    } else {
        (generation + 1) as u64
    }
}

// ─── What a command leads to ───────────────────────────────────────────

/// A start under way: the state is claimed and the native side has yet to be
/// asked, if there is one.
pub struct StartTicket<C> {
    /// Number of the run.
    pub generation: u64,
    /// Tells the service to shut down.
    pub shutdown: ShutdownToken,
    /// Callback of the run.
    pub on_complete: Option<C>,
    /// Configuration of the run.
    pub config: StartConfig,
    /// What to ask of the native side.
    pub keepalive: Option<StartKeepaliveArgs>,
}

/// An event that tells the front end of impaired background delivery.
#[derive(Debug, PartialEq, Eq)]
pub enum DegradedEvent {
    /// Background scheduling was refused at start.
    Scheduling { reason: String, error: String },
    /// A status query found the service impaired.
    Status { reason: Option<String>, native_running: Option<bool>, rust_running: bool },
}

/// A start that goes ahead. The parts are carried out from top to bottom.
pub struct StartPlan<C> {
    /// Emit this event.
    pub degraded: Option<DegradedEvent>,
    /// Spawn the service task with the following four.
    pub generation: u64,
    pub shutdown: ShutdownToken,
    pub on_complete: Option<C>,
    pub config: StartConfig,
    /// Save this change of the desired state.
    pub persist: Option<DesiredChange>,
}

/// A stop that took place. The parts are carried out from top to bottom.
pub struct StopPlan {
    /// The token of the run; it is cancelled already.
    pub cancelled: CancelledToken,
    /// Ask the native side to stop the keepalive; a failure is only logged.
    pub stop_keepalive: bool,
    /// Save this change of the desired state.
    pub persist: Option<DesiredChange>,
    /// Load the desired state and hand it to [`ManagerState::resubmission`].
    pub resubmit: bool,
    /// Post this notification.
    pub notice: Option<Notice>,
}

/// A change of intent. The parts are carried out from top to bottom.
#[derive(Debug, PartialEq, Eq)]
pub struct IntentPlan {
    /// Save this change of the desired state.
    pub persist: Option<DesiredChange>,
    /// Mirror this change to the native side; a failure is only logged.
    pub mirror: Option<DesiredChange>,
}

/// A call to forward to the native side; its result is the command's result.
#[derive(Debug, PartialEq, Eq)]
pub enum NativeForward {
    UpdateKeepaliveType { foreground_service_type: String },
    ShowIncomingCall { call_id: String, caller_name: String, is_video: bool },
    ShowMessageNotification {
        notification_id: i32,
        chat_id: String,
        message_id: String,
        title: String,
        body: String,
        route_uri: String,
    },
    CancelIncomingCall { call_id: String },
    SetCallAudioRoute { call_id: String, route: String },
    OpenAppSettings,
}

/// Commands to the manager.
pub enum ManagerCommand<C> {
    Start { config: StartConfig },
    Stop,
    StopWithReason { reason: StopReason },
    UpdateForegroundServiceType { foreground_service_type: String },
    NotifyIncomingCall { call_id: String, caller_name: String, is_video: bool },
    NotifyMessage {
        notification_id: i32,
        chat_id: String,
        message_id: String,
        title: String,
        body: String,
        route_uri: String,
    },
    CancelIncomingCall { call_id: String },
    SetCallAudioRoute { call_id: String, route: String },
    OpenAppSettings,
    IsRunning,
    GetState,
    SetOnComplete { callback: C },
    SetMobile { mobile: MobileBridge },
    SetDesiredRunning { desired: bool, config: Option<StartConfig> },
    EnableAutoRestart { config: Option<StartConfig> },
    DisableAutoRestart,
    GetDesiredState,
    NativeLifecycleEvent { event: NativeLifecycleEvent },
    GetLifecycleStatus { desktop_mode: Option<String> },
    ShutdownGracefully,
}

/// What the host has to do for a command.
pub enum Step<C> {
    /// Reply with this result.
    Reply(Result<(), ServiceError>),
    /// Nothing; the command has no reply.
    Done,
    /// Ask the native side for the keepalive, hand the result to
    /// [`ManagerState::finish_start`], and reply with what comes of it.
    Start(StartTicket<C>),
    /// Carry out the plan and reply with success.
    Stop(StopPlan),
    /// Carry out the plan and reply with success.
    Intent(IntentPlan),
    /// Post the notification, if any, and reply with success.
    Notify(Option<Notice>),
    /// Forward the call and reply with its result.
    Forward(NativeForward),
    /// Query the native side if `ask_native`, and reply with
    /// [`ManagerState::reconcile_running_with_native`].
    ReportRunning { ask_native: bool },
    /// Load the desired state if `load`, and reply with
    /// [`ManagerState::service_status`].
    ReportState { load: bool },
    /// Load the desired state if `load`, and reply with what was loaded.
    ReportDesired { load: bool },
    /// Load the desired state if `load`, query the native side if `ask_native`,
    /// and reply with [`ManagerState::build_lifecycle_status`].
    ReportLifecycle { load: bool, ask_native: bool, desktop_mode: Option<String> },
    /// Run the shutdown hook of a fresh service, with this token, and reply with
    /// its result.
    Drain { shutdown: FreshToken },
}

/// How a request to use a foreground service type is judged.
pub enum TypeCheck {
    /// Android does not know the type.
    Invalid,
    /// The configuration does not allow the type.
    Refused,
    /// The type may be used.
    Fine,
}

impl<C> ManagerState<C> {
    /// What holds of the manager at all times: an idle manager has no run and
    /// believes none; initialising is the state of a run that can be stopped; a
    /// service believed to run is initialising or running; and a run has an app.
    pub open spec fn well_formed(self) -> bool {
        &&& self.lifecycle_state is Idle ==> self.token is None && !self.is_running
        &&& self.lifecycle_state is Initializing ==> self.token is Some && self.is_running
        &&& self.is_running ==> self.lifecycle_state is Initializing
            || self.lifecycle_state is Running
        &&& self.token is Some ==> self.has_app
    }

    /// Whether the OS checks foreground service types.
    pub open spec fn enforces_types(self) -> bool {
        self.mobile is Some && self.mobile->Some_0.enforces_foreground_service_type
    }

    /// How a request to use a foreground service type is judged.
    pub open spec fn judge_type(self, t: Seq<char>) -> TypeCheck {
        if self.enforces_types() && !is_valid_type(t) {
            TypeCheck::Invalid
        } else if !passes_allowlist(
            t,
            self.android_fg_service_types@,
            self.android_validate_fg_type,
        ) {
            TypeCheck::Refused
        } else {
            TypeCheck::Fine
        }
    }

    /// Whether an error is the one owed for a type that may not be used.
    pub open spec fn is_type_error(self, t: Seq<char>, error: ServiceError) -> bool {
        &&& error matches ServiceError::Platform(text)
        &&& match self.judge_type(t) {
            TypeCheck::Invalid => text@ == invalid_type_text(t),
            TypeCheck::Refused => text@ == refused_type_text(t),
            TypeCheck::Fine => false,
        }
    }

    /// What the native side is asked for a run.
    pub open spec fn keepalive_args(self, config: StartConfig) -> StartKeepaliveArgs {
        let s = self.keepalive;
        StartKeepaliveArgs {
            label: config.service_label,
            foreground_service_type: config.foreground_service_type,
            ios_safety_timeout_secs: Some(s.ios_safety_timeout_secs),
            ios_processing_safety_timeout_secs: if s.ios_processing_safety_timeout_secs.exceeds(
                Double::zero_spec(),
            ) {
                Some(s.ios_processing_safety_timeout_secs)
            } else {
                None
            },
            ios_earliest_refresh_begin_minutes: Some(s.ios_earliest_refresh_begin_minutes),
            ios_earliest_processing_begin_minutes: Some(s.ios_earliest_processing_begin_minutes),
            ios_requires_external_power: Some(s.ios_requires_external_power),
            ios_requires_network_connectivity: Some(s.ios_requires_network_connectivity),
            ios_processing_ceiling_multiplier: Some(s.ios_processing_ceiling_multiplier),
        }
    }

    // ── States that commands lead to ───────────────────────────────────

    /// A start supplied an app.
    pub open spec fn with_app(self) -> Self {
        ManagerState { has_app: true, ..self }
    }

    /// A start claimed the state; `token` cancels the new run.
    pub open spec fn begun(self, token: RunToken) -> Self {
        ManagerState {
            has_app: true,
            token: Some(token),
            generation: next_generation(self.generation),
            is_running: true,
            lifecycle_state: ServiceState::Initializing,
            last_error: None,
            scheduling_degraded: None,
            on_complete: None,
            ..self
        }
    }

    /// A start was given up; the callback that it took is put back.
    pub open spec fn rolled_back(self, on_complete: Option<C>) -> Self {
        ManagerState {
            token: None,
            is_running: false,
            lifecycle_state: ServiceState::Idle,
            on_complete,
            ..self
        }
    }

    /// The service was stopped.
    pub open spec fn stopped(self) -> Self {
        ManagerState {
            token: None,
            is_running: false,
            lifecycle_state: ServiceState::Stopped,
            last_error: None,
            scheduling_degraded: None,
            ..self
        }
    }

    /// The native side says whether it runs the service; where that differs
    /// from the belief, the belief follows.
    pub open spec fn converged(self, native_running: bool) -> Self {
        if native_running == self.is_running {
            self
        } else {
            ManagerState {
                is_running: native_running,
                lifecycle_state: if native_running {
                    ServiceState::Running
                } else {
                    ServiceState::Stopped
                },
                ..self
            }
        }
    }

    /// The state after a report of the native side. Only the Android service
    /// overrides the belief: on iOS the manager itself is the authority.
    pub open spec fn reconciled(self, authority: Option<NativeAuthority>) -> Self {
        match authority {
            Some(NativeAuthority::Android(ns)) => self.converged(ns.native_running),
            _ => self,
        }
    }

    // ── Commands ───────────────────────────────────────────────────────

    /// A manager that has not started anything.
    pub fn new(
        keepalive: KeepaliveSettings,
        has_backend: bool,
        android_fg_service_types: Vec<String>,
        android_validate_fg_type: bool,
        notifier_policy: NotifierPolicy,
        target: TargetOs,
    ) -> (state: Self)
        ensures
            state == (ManagerState::<C> {
                is_running: false,
                token: None,
                generation: 0,
                on_complete: None,
                mobile: None,
                has_app: false,
                keepalive,
                lifecycle_state: ServiceState::Idle,
                last_error: None,
                scheduling_degraded: None,
                has_backend,
                lifecycle_mode: target.mode(),
                android_fg_service_types,
                android_validate_fg_type,
                notifier_policy,
            }),
            state.well_formed(),
    {
        ManagerState {
            is_running: false,
            token: None,
            generation: 0,
            on_complete: None,
            mobile: None,
            has_app: false,
            keepalive,
            lifecycle_state: ServiceState::Idle,
            last_error: None,
            scheduling_degraded: None,
            has_backend,
            lifecycle_mode: target.lifecycle_mode(),
            android_fg_service_types,
            android_validate_fg_type,
            notifier_policy,
        }
    }

    /// Checks a foreground service type: against the Android types where the OS
    /// enforces them, then against the configured ones on every platform.
    fn check_type(&self, t: &str) -> (checked: Result<(), ServiceError>)
        ensures
            checked is Ok <==> self.judge_type(t@) is Fine,
            checked matches Err(e) ==> self.is_type_error(t@, e),
    {
        let enforces: bool = match self.mobile {
            Some(bridge) => bridge.enforces_foreground_service_type,
            None => false,
        };
        if enforces {
            match validate_foreground_service_type(t) {
                Ok(()) => {},
                Err(e) => {
                    return Err(e);
                },
            }
        }
        validate_fg_type_against_allowlist(
            t,
            self.android_fg_service_types.as_slice(),
            self.android_validate_fg_type,
        )
    }

    /// What the native side is asked for a run.
    fn make_keepalive_args(&self, config: &StartConfig) -> (args: StartKeepaliveArgs)
        ensures
            args == self.keepalive_args(*config),
    {
        let s = self.keepalive;
        StartKeepaliveArgs {
            label: config.service_label.clone(),
            foreground_service_type: config.foreground_service_type.clone(),
            ios_safety_timeout_secs: Some(s.ios_safety_timeout_secs),
            ios_processing_safety_timeout_secs: if s.ios_processing_safety_timeout_secs
                .is_positive() {
                Some(s.ios_processing_safety_timeout_secs)
            } else {
                None
            },
            ios_earliest_refresh_begin_minutes: Some(s.ios_earliest_refresh_begin_minutes),
            ios_earliest_processing_begin_minutes: Some(s.ios_earliest_processing_begin_minutes),
            ios_requires_external_power: Some(s.ios_requires_external_power),
            ios_requires_network_connectivity: Some(s.ios_requires_network_connectivity),
            ios_processing_ceiling_multiplier: Some(s.ios_processing_ceiling_multiplier),
        }
    }

    /// Begins a start: refuses it while a service is active or if the type may
    /// not be used, else claims the state for the new run.
    ///
    /// The callback set for the next run goes with the run. A start refused
    /// because a service is active changes nothing; one refused for its type
    /// changes nothing but that an app is known.
    pub fn handle_start(&mut self, config: StartConfig) -> (begun: Result<
        StartTicket<C>,
        ServiceError,
    >)
        ensures
            old(self).well_formed() ==> final(self).well_formed(),
            begun is Ok <==> old(self).token is None && old(self).judge_type(
                config.foreground_service_type@,
            ) is Fine,
            match begun {
                Err(e) => if old(self).token is Some {
                    &&& *final(self) == *old(self)
                    &&& e is AlreadyRunning
                } else {
                    &&& *final(self) == old(self).with_app()
                    &&& old(self).is_type_error(config.foreground_service_type@, e)
                },
                Ok(ticket) => {
                    &&& final(self).token matches Some(run)
                    &&& *final(self) == old(self).begun(run)
                    &&& ticket.shutdown.token() == run.token()
                    &&& ticket.generation == final(self).generation
                    &&& ticket.on_complete == old(self).on_complete
                    &&& ticket.config == config
                    &&& ticket.keepalive == (if old(self).mobile is Some {
                        Some(old(self).keepalive_args(config))
                    } else {
                        None
                    })
                },
            },
    {
        if self.token.is_some() {
            return Err(ServiceError::AlreadyRunning);
        }
        self.has_app = true;
        match self.check_type(config.foreground_service_type.as_str()) {
            Ok(()) => {},
            Err(e) => {
                return Err(e);
            },
        }
        let (run, shutdown) = share_token(fresh_token());
        self.token = Some(run);
        let generation: u64 = if self.generation == u64::MAX {
            0
        } else {
            self.generation + 1
        };
        self.generation = generation;
        self.is_running = true;
        self.lifecycle_state = ServiceState::Initializing;
        self.last_error = None;
        self.scheduling_degraded = None;
        let on_complete = self.on_complete.take();
        let keepalive = match self.mobile {
            Some(_) => Some(self.make_keepalive_args(&config)),
            None => None,
        };
        Ok(StartTicket { generation, shutdown, on_complete, config, keepalive })
    }

    /// Ends a start with what the native side said to the keepalive; success
    /// where nothing was asked of it.
    ///
    /// A refusal ends the start and puts the callback back, unless background
    /// scheduling is advisory: then the service runs in the foreground, and the
    /// refusal is remembered and reported.
    pub fn finish_start(
        &mut self,
        ticket: StartTicket<C>,
        keepalive: Result<(), ServiceError>,
    ) -> (plan: Result<StartPlan<C>, ServiceError>)
        ensures
            old(self).well_formed() ==> final(self).well_formed(),
            plan is Ok <==> keepalive is Ok || old(self).scheduling_is_advisory(),
            match plan {
                Err(e) => {
                    &&& keepalive == Err::<(), ServiceError>(e)
                    &&& *final(self) == old(self).rolled_back(ticket.on_complete)
                },
                Ok(p) => {
                    &&& p.generation == ticket.generation
                    &&& p.shutdown == ticket.shutdown
                    &&& p.on_complete == ticket.on_complete
                    &&& p.config == ticket.config
                    &&& p.persist == old(self).persisted(
                        DesiredChange { desired: true, config: Some(ticket.config) },
                    )
                    &&& match keepalive {
                        Ok(()) => p.degraded is None && *final(self) == *old(self),
                        Err(e) => {
                            &&& p.degraded matches Some(
                                DegradedEvent::Scheduling { reason, error },
                            )
                            &&& reason@ == "scheduling_degraded_foreground_only"@
                            &&& error@ == e.message_text()
                            &&& final(self).scheduling_degraded matches Some(text)
                            &&& text@ == e.message_text()
                            &&& *final(self) == (ManagerState {
                                scheduling_degraded: final(self).scheduling_degraded,
                                ..*old(self)
                            })
                        },
                    }
                },
            },
    {
        let mut degraded: Option<DegradedEvent> = None;
        if let Err(e) = keepalive {
            let advisory: bool = match self.mobile {
                Some(bridge) => bridge.scheduling_is_advisory,
                None => false,
            };
            if advisory {
                self.scheduling_degraded = Some(e.message());
                degraded = Some(
                    DegradedEvent::Scheduling {
                        reason: "scheduling_degraded_foreground_only".to_owned(),
                        error: e.message(),
                    },
                );
            } else {
                self.token = None;
                self.is_running = false;
                self.lifecycle_state = ServiceState::Idle;
                self.on_complete = ticket.on_complete;
                return Err(e);
            }
        }
        let config = ticket.config;
        let persist = self.persist(true, &Some(config.clone()));
        Ok(
            StartPlan {
                degraded,
                generation: ticket.generation,
                shutdown: ticket.shutdown,
                on_complete: ticket.on_complete,
                config,
                persist,
            },
        )
    }

    /// Whether a refused keepalive only degrades background scheduling.
    pub open spec fn scheduling_is_advisory(self) -> bool {
        self.mobile is Some && self.mobile->Some_0.scheduling_is_advisory
    }

    /// The change to save, where there is storage for it.
    pub open spec fn persisted(self, change: DesiredChange) -> Option<DesiredChange> {
        if self.has_backend {
            Some(change)
        } else {
            None
        }
    }

    /// The change to mirror, where a native bridge is attached.
    pub open spec fn mirrored(self, change: DesiredChange) -> Option<DesiredChange> {
        if self.mobile is Some {
            Some(change)
        } else {
            None
        }
    }

    fn persist(&self, desired: bool, config: &Option<StartConfig>) -> (change: Option<
        DesiredChange,
    >)
        ensures
            change == self.persisted(DesiredChange { desired, config: *config }),
    {
        if self.has_backend {
            Some(DesiredChange { desired, config: copy_config(config) })
        } else {
            None
        }
    }

    fn mirror(&self, desired: bool, config: &Option<StartConfig>) -> (change: Option<
        DesiredChange,
    >)
        ensures
            change == self.mirrored(DesiredChange { desired, config: *config }),
    {
        match self.mobile {
            Some(_) => Some(DesiredChange { desired, config: copy_config(config) }),
            None => None,
        }
    }

    /// Whether a plan is the one owed for a stop of this state.
    pub open spec fn is_stop_plan(self, reason: StopReason, plan: StopPlan) -> bool {
        &&& self.token matches Some(run)
        &&& plan.cancelled.token() == run.token()
        &&& plan.stop_keepalive == (stops_keepalive(reason) && self.mobile is Some)
        &&& plan.persist == (if clears_desired(reason) {
            self.persisted(DesiredChange { desired: false, config: None })
        } else {
            None
        })
        &&& plan.resubmit == (resubmits(reason) && self.has_backend)
        &&& plan.notice is Some <==> self.notifier_policy.on_timeout && is_platform_pause(reason)
        &&& plan.notice matches Some(notice) ==> notice@ == timeout_notice_text()
    }

    /// Stops the service: cancels its run and decides, by the reason, what
    /// becomes of the keepalive, the desired state and the native schedule.
    pub fn handle_stop_with_reason(&mut self, reason: StopReason) -> (plan: Result<
        StopPlan,
        ServiceError,
    >)
        ensures
            old(self).well_formed() ==> final(self).well_formed(),
            plan is Ok <==> old(self).token is Some,
            match plan {
                Ok(p) => *final(self) == old(self).stopped() && old(self).is_stop_plan(reason, p),
                Err(e) => *final(self) == *old(self) && e is NotRunning,
            },
    {
        match self.token.take() {
            Some(run) => {
                let cancelled = cancel_token(run);
                self.is_running = false;
                self.lifecycle_state = ServiceState::Stopped;
                self.last_error = None;
                self.scheduling_degraded = None;
                let stop_keepalive: bool = should_stop_keepalive(reason) && self.mobile.is_some();
                let clear: bool = should_clear_desired_state(reason);
                let persist = if clear {
                    self.persist(false, &None)
                } else {
                    None
                };
                let resubmit: bool = !clear && should_reconcile_resubmit(reason)
                    && self.has_backend;
                let notice = if self.notifier_policy.on_timeout && should_notify_timeout(reason) {
                    Some(Notice::timeout())
                } else {
                    None
                };
                Ok(StopPlan { cancelled, stop_keepalive, persist, resubmit, notice })
            },
            None => Err(ServiceError::NotRunning),
        }
    }

    /// Stops the service because the user asked for it.
    pub fn handle_stop(&mut self) -> (plan: Result<StopPlan, ServiceError>)
        ensures
            old(self).well_formed() ==> final(self).well_formed(),
            plan is Ok <==> old(self).token is Some,
            match plan {
                Ok(p) => *final(self) == old(self).stopped() && old(self).is_stop_plan(
                    StopReason::UserStop,
                    p,
                ),
                Err(e) => *final(self) == *old(self) && e is NotRunning,
            },
    {
        self.handle_stop_with_reason(StopReason::UserStop)
    }

    /// The change to mirror after a stop whose plan asks for resubmission:
    /// where the service is still wanted, native scheduling is submitted again.
    pub fn resubmission(&self, loaded: &Option<DesiredState>) -> (change: Option<DesiredChange>)
        ensures
            change == (match *loaded {
                Some(ds) => if ds.desired_running {
                    self.mirrored(DesiredChange { desired: true, config: ds.config() })
                } else {
                    None
                },
                None => None,
            }),
    {
        match loaded {
            Some(ds) => {
                if ds.desired_running {
                    self.mirror(true, &ds.start_config())
                } else {
                    None
                }
            },
            None => None,
        }
    }

    /// Changes the type of the running foreground service. Where the OS does
    /// not enforce types there is nothing to change once the type is allowed.
    pub fn handle_update_foreground_service_type(&self, foreground_service_type: String) -> (next:
        Result<Option<NativeForward>, ServiceError>)
        ensures
            next is Ok <==> self.token is Some && self.judge_type(
                foreground_service_type@,
            ) is Fine,
            match next {
                Err(e) => {
                    &&& e is NotRunning <==> self.token is None
                    &&& self.token is Some ==> self.is_type_error(foreground_service_type@, e)
                },
                Ok(call) => call == (if self.enforces_types() {
                    Some(NativeForward::UpdateKeepaliveType { foreground_service_type })
                } else {
                    None
                }),
            },
    {
        if self.token.is_none() {
            return Err(ServiceError::NotRunning);
        }
        match self.check_type(foreground_service_type.as_str()) {
            Ok(()) => {},
            Err(e) => {
                return Err(e);
            },
        }
        let enforces: bool = match self.mobile {
            Some(bridge) => bridge.enforces_foreground_service_type,
            None => false,
        };
        if enforces {
            Ok(Some(NativeForward::UpdateKeepaliveType { foreground_service_type }))
        } else {
            Ok(None)
        }
    }

    /// A call for the native side: forwarded if a bridge is attached, else
    /// without effect.
    pub open spec fn forwarded(self, call: NativeForward) -> Step<C> {
        if self.mobile is Some {
            Step::Forward(call)
        } else {
            Step::Reply(Ok(()))
        }
    }

    fn forward(&self, call: NativeForward) -> (step: Step<C>)
        ensures
            step == self.forwarded(call),
    {
        match self.mobile {
            Some(_) => Step::Forward(call),
            None => Step::Reply(Ok(())),
        }
    }

    /// What a change of intent asks for.
    pub open spec fn intent(self, change: DesiredChange) -> IntentPlan {
        IntentPlan { persist: self.persisted(change), mirror: self.mirrored(change) }
    }

    /// Records whether the service is wanted, without starting or stopping it.
    pub fn handle_set_desired_running(&self, desired: bool, config: Option<StartConfig>) -> (plan:
        IntentPlan)
        ensures
            plan == self.intent(DesiredChange { desired, config }),
    {
        let persist = self.persist(desired, &config);
        let mirror = self.mirror(desired, &config);
        IntentPlan { persist, mirror }
    }

    /// Records that the service is wanted, without starting it.
    pub fn handle_enable_auto_restart(&self, config: Option<StartConfig>) -> (plan: IntentPlan)
        ensures
            plan == self.intent(DesiredChange { desired: true, config }),
    {
        self.handle_set_desired_running(true, config)
    }

    /// Records that the service is not wanted, without stopping it.
    pub fn handle_disable_auto_restart(&self) -> (plan: IntentPlan)
        ensures
            plan == self.intent(DesiredChange { desired: false, config: None }),
    {
        self.handle_set_desired_running(false, None)
    }

    /// Handles an event of the native side. The acceptance of a restart only
    /// posts the recovery notification, where that is enabled: the native side
    /// owns the restart. Every other event is a stop.
    pub fn handle_native_lifecycle_event(&mut self, event: &NativeLifecycleEvent) -> (step: Step<C>)
        ensures
            old(self).well_formed() ==> final(self).well_formed(),
            if event.accepts_recovery() {
                &&& *final(self) == *old(self)
                &&& step matches Step::Notify(notice)
                &&& notice is Some <==> old(self).notifier_policy.on_recovery
                &&& notice matches Some(n) ==> n@ == recovery_notice_text()
            } else {
                old(self).is_stop_step(event.stop_reason(), *final(self), step)
            },
    {
        if event.is_recovery_acceptance() {
            let notice = if self.notifier_policy.on_recovery {
                Some(Notice::recovery())
            } else {
                None
            };
            return Step::Notify(notice);
        }
        match self.handle_stop_with_reason(event.to_stop_reason()) {
            Ok(plan) => Step::Stop(plan),
            Err(e) => Step::Reply(Err(e)),
        }
    }

    /// Whether a stop by `reason` leads from this state to `after` and `step`.
    pub open spec fn is_stop_step(self, reason: StopReason, after: Self, step: Step<C>) -> bool {
        if self.token is Some {
            &&& after == self.stopped()
            &&& step matches Step::Stop(plan)
            &&& self.is_stop_plan(reason, plan)
        } else {
            &&& after == self
            &&& step == Step::<C>::Reply(Err(ServiceError::NotRunning))
        }
    }

    /// Whether the native side, where it is the authority, contradicts the belief.
    pub open spec fn diverges_from(self, authority: Option<NativeAuthority>) -> bool {
        match authority {
            Some(NativeAuthority::Android(ns)) => ns.native_running != self.is_running,
            _ => false,
        }
    }

    /// Whether the native side, where it is the authority, contradicts the
    /// belief. A host asks this before the belief follows, to report a
    /// divergence that would else pass silently.
    pub fn diverges(&self, authority: &Option<NativeAuthority>) -> (diverged: bool)
        ensures
            diverged == self.diverges_from(*authority),
            diverged == (self.reconciled(*authority).is_running != self.is_running),
    {
        match authority {
            Some(NativeAuthority::Android(ns)) => ns.native_running != self.is_running,
            _ => false,
        }
    }

    /// Lets the belief follow the native side where that is the authority. Tells
    /// whether a service is believed to run then; it was believed otherwise
    /// before exactly if the native side diverged.
    pub fn reconcile_running_with_native(&mut self, authority: &Option<NativeAuthority>) -> (running:
        bool)
        ensures
            old(self).well_formed() ==> final(self).well_formed(),
            *final(self) == old(self).reconciled(*authority),
            running == final(self).is_running,
            running != old(self).is_running <==> old(self).diverges_from(*authority),
    {
        if let Some(NativeAuthority::Android(ns)) = authority {
            self.converge(ns.native_running);
        }
        self.is_running
    }

    /// Follows the native side where it differs from the belief. Tells whether
    /// it did.
    pub(crate) fn converge(&mut self, native_running: bool) -> (diverged: bool)
        ensures
            *final(self) == old(self).converged(native_running),
            diverged == (native_running != old(self).is_running),
    {
        if native_running == self.is_running {
            return false;
        }
        self.is_running = native_running;
        self.lifecycle_state = if native_running {
            ServiceState::Running
        } else {
            ServiceState::Stopped
        };
        true
    }

    /// The service status: what the manager knows, completed by the stored
    /// desired state where that could be loaded.
    pub open spec fn status(self, loaded: Option<DesiredState>) -> ServiceStatus {
        let known = ServiceStatus {
            state: self.lifecycle_state,
            last_error: self.last_error,
            platform_mode: Some(self.lifecycle_mode),
            ..ServiceStatus::blank()
        };
        match loaded {
            Some(ds) => ServiceStatus {
                desired_running: Some(ds.desired_running),
                native_state: match ds.last_native_state {
                    Some(text) => stored_native_state(text@),
                    None => None,
                },
                last_start_config: ds.config(),
                last_heartbeat_at: ds.last_heartbeat_epoch_ms,
                restart_attempt: if ds.restart_attempt > 0 {
                    Some(ds.restart_attempt)
                } else {
                    None
                },
                recovery_reason: ds.recovery_reason,
                platform_error: ds.last_platform_error,
                ..known
            },
            None => known,
        }
    }

    /// The service status: what the manager knows, completed by the stored
    /// desired state where that could be loaded.
    pub fn service_status(&self, loaded: &Option<DesiredState>) -> (status: ServiceStatus)
        ensures
            status == self.status(*loaded),
            loaded matches Some(ds) ==> (ds.last_native_state matches Some(text) ==> (is_plain(
                text@,
            ) ==> status.native_state == native_state_of(text@))),
    {
        let mut status = ServiceStatus::default();
        status.state = self.lifecycle_state;
        status.last_error = copy_text(&self.last_error);
        status.platform_mode = Some(self.lifecycle_mode);
        if let Some(ds) = loaded {
            status.desired_running = Some(ds.desired_running);
            status.native_state = match &ds.last_native_state {
                Some(text) => native_state_from_stored(text.as_str()),
                None => None,
            };
            status.last_start_config = ds.start_config();
            status.last_heartbeat_at = ds.last_heartbeat_epoch_ms;
            status.restart_attempt = if ds.restart_attempt > 0 {
                Some(ds.restart_attempt)
            } else {
                None
            };
            status.recovery_reason = copy_text(&ds.recovery_reason);
            status.platform_error = copy_text(&ds.last_platform_error);
        }
        status
    }

    /// Whether a desktop service may be started again at boot: an app is there
    /// for it and the user consented to an unattended unlock.
    pub open spec fn may_replay(self, has_boot_app: bool, consent: bool) -> bool {
        &&& self.lifecycle_mode is DesktopInProcess || self.lifecycle_mode is DesktopOsService
        &&& has_boot_app
        &&& consent
        &&& self.has_backend
    }

    /// The configuration to start with at boot: where a replay is allowed and
    /// the service is wanted, the stored one, if it can be read.
    pub open spec fn replayed(
        self,
        has_boot_app: bool,
        consent: bool,
        loaded: Option<DesiredState>,
    ) -> Option<StartConfig> {
        match loaded {
            Some(ds) => if self.may_replay(has_boot_app, consent) && ds.desired_running {
                ds.config()
            } else {
                None
            },
            None => None,
        }
    }

    /// Whether the host has to load the desired state for [`Self::boot_replay`].
    pub fn wants_boot_replay(&self, has_boot_app: bool, consent: bool) -> (wanted: bool)
        ensures
            wanted == self.may_replay(has_boot_app, consent),
    {
        let desktop: bool = match self.lifecycle_mode {
            LifecycleMode::DesktopInProcess => true,
            LifecycleMode::DesktopOsService => true,
            _ => false,
        };
        desktop && has_boot_app && consent && self.has_backend
    }

    /// The configuration to start with at boot, if the service is to be started
    /// then.
    pub fn boot_replay(
        &self,
        has_boot_app: bool,
        consent: bool,
        loaded: &Option<DesiredState>,
    ) -> (config: Option<StartConfig>)
        ensures
            config == self.replayed(has_boot_app, consent, *loaded),
    {
        if !self.wants_boot_replay(has_boot_app, consent) {
            return None;
        }
        match loaded {
            Some(ds) => {
                if should_replay_on_boot(ds) {
                    ds.start_config()
                } else {
                    None
                }
            },
            None => None,
        }
    }

    /// Prepares a graceful shutdown: there is something to drain only once a
    /// start has supplied an app. The hook gets a token of its own.
    pub fn handle_shutdown_gracefully(&self) -> (step: Step<C>)
        ensures
            step is Drain <==> self.has_app,
            !self.has_app ==> step == Step::<C>::Reply(Ok(())),
    {
        if self.has_app {
            Step::Drain { shutdown: fresh_token() }
        } else {
            Step::Reply(Ok(()))
        }
    }

    /// Whether a command leads from this state to `after` and asks for `step`.
    pub open spec fn leads_to(self, command: ManagerCommand<C>, after: Self, step: Step<C>) -> bool {
        match command {
            ManagerCommand::Start { config } => self.start_leads_to(config, after, step),
            ManagerCommand::Stop => self.is_stop_step(StopReason::UserStop, after, step),
            ManagerCommand::StopWithReason { reason } => self.is_stop_step(reason, after, step),
            ManagerCommand::UpdateForegroundServiceType { foreground_service_type } => {
                &&& after == self
                &&& if self.token is None {
                    step == Step::<C>::Reply(Err(ServiceError::NotRunning))
                } else if !(self.judge_type(foreground_service_type@) is Fine) {
                    &&& step matches Step::Reply(Err(e))
                    &&& self.is_type_error(foreground_service_type@, e)
                } else if self.enforces_types() {
                    step == Step::<C>::Forward(
                        NativeForward::UpdateKeepaliveType { foreground_service_type },
                    )
                } else {
                    step == Step::<C>::Reply(Ok(()))
                }
            },
            ManagerCommand::NotifyIncomingCall { call_id, caller_name, is_video } => {
                after == self && step == self.forwarded(
                    NativeForward::ShowIncomingCall { call_id, caller_name, is_video },
                )
            },
            ManagerCommand::NotifyMessage {
                notification_id,
                chat_id,
                message_id,
                title,
                body,
                route_uri,
            } => {
                after == self && step == self.forwarded(
                    NativeForward::ShowMessageNotification {
                        notification_id,
                        chat_id,
                        message_id,
                        title,
                        body,
                        route_uri,
                    },
                )
            },
            ManagerCommand::CancelIncomingCall { call_id } => {
                after == self && step == self.forwarded(
                    NativeForward::CancelIncomingCall { call_id },
                )
            },
            ManagerCommand::SetCallAudioRoute { call_id, route } => {
                after == self && step == self.forwarded(
                    NativeForward::SetCallAudioRoute { call_id, route },
                )
            },
            ManagerCommand::OpenAppSettings => {
                after == self && step == self.forwarded(NativeForward::OpenAppSettings)
            },
            ManagerCommand::IsRunning => {
                after == self && step == (Step::<C>::ReportRunning {
                    ask_native: self.mobile is Some,
                })
            },
            ManagerCommand::GetState => {
                after == self && step == (Step::<C>::ReportState { load: self.has_backend })
            },
            ManagerCommand::SetOnComplete { callback } => {
                after == (ManagerState { on_complete: Some(callback), ..self }) && step
                    == Step::<C>::Done
            },
            ManagerCommand::SetMobile { mobile } => {
                after == (ManagerState { mobile: Some(mobile), ..self }) && step
                    == Step::<C>::Done
            },
            ManagerCommand::SetDesiredRunning { desired, config } => {
                after == self && step == Step::<C>::Intent(
                    self.intent(DesiredChange { desired, config }),
                )
            },
            ManagerCommand::EnableAutoRestart { config } => {
                after == self && step == Step::<C>::Intent(
                    self.intent(DesiredChange { desired: true, config }),
                )
            },
            ManagerCommand::DisableAutoRestart => {
                after == self && step == Step::<C>::Intent(
                    self.intent(DesiredChange { desired: false, config: None }),
                )
            },
            ManagerCommand::GetDesiredState => {
                after == self && step == (Step::<C>::ReportDesired { load: self.has_backend })
            },
            ManagerCommand::NativeLifecycleEvent { event } => {
                if event.accepts_recovery() {
                    &&& after == self
                    &&& step matches Step::Notify(notice)
                    &&& notice is Some <==> self.notifier_policy.on_recovery
                    &&& notice matches Some(n) ==> n@ == recovery_notice_text()
                } else {
                    self.is_stop_step(event.stop_reason(), after, step)
                }
            },
            ManagerCommand::GetLifecycleStatus { desktop_mode } => {
                after == self && step == (Step::<C>::ReportLifecycle {
                    load: self.has_backend,
                    ask_native: self.mobile is Some,
                    desktop_mode,
                })
            },
            ManagerCommand::ShutdownGracefully => {
                &&& after == self
                &&& if self.has_app {
                    step is Drain
                } else {
                    step == Step::<C>::Reply(Ok(()))
                }
            },
        }
    }

    /// Whether a start leads from this state to `after` and asks for `step`.
    pub open spec fn start_leads_to(self, config: StartConfig, after: Self, step: Step<C>) -> bool {
        if self.token is Some {
            &&& after == self
            &&& step == Step::<C>::Reply(Err(ServiceError::AlreadyRunning))
        } else if !(self.judge_type(config.foreground_service_type@) is Fine) {
            &&& after == self.with_app()
            &&& step matches Step::Reply(Err(e))
            &&& self.is_type_error(config.foreground_service_type@, e)
        } else {
            &&& step matches Step::Start(ticket)
            &&& after.token matches Some(run)
            &&& after == self.begun(run)
            &&& ticket.shutdown.token() == run.token()
            &&& ticket.generation == next_generation(self.generation)
            &&& ticket.on_complete == self.on_complete
            &&& ticket.config == config
            &&& ticket.keepalive == (if self.mobile is Some {
                Some(self.keepalive_args(config))
            } else {
                None
            })
        }
    }

    /// Handles one command: changes the state and tells what the host has to do.
    pub fn step(&mut self, command: ManagerCommand<C>) -> (step: Step<C>)
        ensures
            old(self).well_formed() ==> final(self).well_formed(),
            old(self).leads_to(command, *final(self), step),
    {
        match command {
            ManagerCommand::Start { config } => match self.handle_start(config) {
                Ok(ticket) => Step::Start(ticket),
                Err(e) => Step::Reply(Err(e)),
            },
            ManagerCommand::Stop => match self.handle_stop() {
                Ok(plan) => Step::Stop(plan),
                Err(e) => Step::Reply(Err(e)),
            },
            ManagerCommand::StopWithReason { reason } => match self.handle_stop_with_reason(
                reason,
            ) {
                Ok(plan) => Step::Stop(plan),
                Err(e) => Step::Reply(Err(e)),
            },
            ManagerCommand::UpdateForegroundServiceType { foreground_service_type } => {
                match self.handle_update_foreground_service_type(foreground_service_type) {
                    Ok(Some(call)) => Step::Forward(call),
                    Ok(None) => Step::Reply(Ok(())),
                    Err(e) => Step::Reply(Err(e)),
                }
            },
            ManagerCommand::NotifyIncomingCall { call_id, caller_name, is_video } => self.forward(
                NativeForward::ShowIncomingCall { call_id, caller_name, is_video },
            ),
            ManagerCommand::NotifyMessage {
                notification_id,
                chat_id,
                message_id,
                title,
                body,
                route_uri,
            } => self.forward(
                NativeForward::ShowMessageNotification {
                    notification_id,
                    chat_id,
                    message_id,
                    title,
                    body,
                    route_uri,
                },
            ),
            ManagerCommand::CancelIncomingCall { call_id } => self.forward(
                NativeForward::CancelIncomingCall { call_id },
            ),
            ManagerCommand::SetCallAudioRoute { call_id, route } => self.forward(
                NativeForward::SetCallAudioRoute { call_id, route },
            ),
            ManagerCommand::OpenAppSettings => self.forward(NativeForward::OpenAppSettings),
            ManagerCommand::IsRunning => Step::ReportRunning { ask_native: self.mobile.is_some() },
            ManagerCommand::GetState => Step::ReportState { load: self.has_backend },
            ManagerCommand::SetOnComplete { callback } => {
                self.on_complete = Some(callback);
                Step::Done
            },
            ManagerCommand::SetMobile { mobile } => {
                self.mobile = Some(mobile);
                Step::Done
            },
            ManagerCommand::SetDesiredRunning { desired, config } => Step::Intent(
                self.handle_set_desired_running(desired, config),
            ),
            ManagerCommand::EnableAutoRestart { config } => Step::Intent(
                self.handle_enable_auto_restart(config),
            ),
            ManagerCommand::DisableAutoRestart => Step::Intent(self.handle_disable_auto_restart()),
            ManagerCommand::GetDesiredState => Step::ReportDesired { load: self.has_backend },
            ManagerCommand::NativeLifecycleEvent { event } => self.handle_native_lifecycle_event(
                &event,
            ),
            ManagerCommand::GetLifecycleStatus { desktop_mode } => Step::ReportLifecycle {
                load: self.has_backend,
                ask_native: self.mobile.is_some(),
                desktop_mode,
            },
            ManagerCommand::ShutdownGracefully => self.handle_shutdown_gracefully(),
        }
    }
}

} // verus!
