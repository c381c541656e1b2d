//! Laws of what is reported: the service status, the lifecycle status, and what
//! a run leaves behind for them.

use crate::desired_state::{DesiredState, SavedConfig};
use crate::error::ServiceError;
use crate::json::is_plain;
use crate::manager::{DegradedEvent, ManagerState, NativeAuthority};
use crate::models::{
    AndroidServiceState, IosNativeState, LifecycleState, LifecycleStatus, NativeState, Platform,
    PlatformCapabilities, PluginEvent, ServiceState, ServiceStatus, SetupValidationReport,
};
use crate::status::Health;
use crate::task::TaskStep;
use crate::validator::{DesktopProbe, SetupValidator};
use vstd::prelude::*;

verus! {

// ─── The service status ────────────────────────────────────────────────

/// The service status tells the state, the error and the mechanism of the
/// manager, whatever is stored.
pub proof fn service_status_tells_the_manager<C>(
    s: ManagerState<C>,
    loaded: Option<DesiredState>,
    status: ServiceStatus,
)
    requires
        call_ensures(ManagerState::<C>::service_status, (&s, &loaded), status),
    ensures
        status.state == s.lifecycle_state,
        status.last_error == s.last_error,
        status.platform_mode == Some(s.lifecycle_mode),
{
}

/// Where nothing could be loaded, the service status says nothing of what would
/// be stored.
pub proof fn service_status_makes_nothing_up<C>(s: ManagerState<C>, status: ServiceStatus)
    requires
        call_ensures(ManagerState::<C>::service_status, (&s, &None::<DesiredState>), status),
    ensures
        status.desired_running is None && status.native_state is None,
        status.last_start_config is None && status.last_heartbeat_at is None,
        status.restart_attempt is None && status.recovery_reason is None,
        status.platform_error is None,
{
}

/// What is stored is shown in its own place. A configuration that cannot be read
/// is not shown, nor is a count of no restarts.
pub proof fn service_status_shows_what_is_stored<C>(
    s: ManagerState<C>,
    stored: DesiredState,
    status: ServiceStatus,
)
    requires
        call_ensures(ManagerState::<C>::service_status, (&s, &Some(stored)), status),
    ensures
        status.desired_running == Some(stored.desired_running),
        status.last_heartbeat_at == stored.last_heartbeat_epoch_ms,
        status.recovery_reason == stored.recovery_reason,
        status.platform_error == stored.last_platform_error,
        stored.restart_attempt == 0 ==> status.restart_attempt is None,
        stored.restart_attempt > 0 ==> status.restart_attempt == Some(stored.restart_attempt),
        stored.last_start_config is None ==> status.last_start_config is None,
        stored.last_start_config matches Some(SavedConfig::Unreadable(_))
            ==> status.last_start_config is None,
        stored.last_start_config matches Some(SavedConfig::Config(config))
            ==> status.last_start_config == Some(config),
        stored.last_native_state is None ==> status.native_state is None,
{
}

/// A native state stored by its name is shown as that state, and a plain text
/// that names none is not shown.
pub proof fn service_status_shows_the_native_state<C>(
    s: ManagerState<C>,
    stored: DesiredState,
    status: ServiceStatus,
    name: &'static str,
    state: NativeState,
)
    requires
        call_ensures(ManagerState::<C>::service_status, (&s, &Some(stored)), status),
        stored.last_native_state is Some,
        is_plain(stored.last_native_state->Some_0@),
        call_ensures(NativeState::name, (state,), name),
    ensures
        status.native_state == Some(state) <==> stored.last_native_state->Some_0@ == name@,
{
    crate::models::native_state_name_round_trip(state);
    crate::models::native_states_are_read_by_name_only(stored.last_native_state->Some_0@);
}

// ─── The lifecycle status ──────────────────────────────────────────────

/// The two statuses of one state agree: on the error, the intent, the
/// configuration and the reason of recovery.
pub proof fn both_statuses_agree<C>(
    s: &mut ManagerState<C>,
    loaded: Option<DesiredState>,
    authority: Option<NativeAuthority>,
    platform: Platform,
    capabilities: PlatformCapabilities,
    probe: Option<DesktopProbe>,
    answer: (LifecycleStatus, Option<DegradedEvent>),
    status: ServiceStatus,
)
    requires
        call_ensures(ManagerState::<C>::service_status, (&*old(s), &loaded), status),
        call_ensures(
            ManagerState::<C>::build_lifecycle_status,
            (s, &loaded, &authority, platform, capabilities, probe),
            answer,
        ),
    ensures
        answer.0.last_error == status.last_error,
        answer.0.last_error == old(s).last_error,
        answer.0.desired_running <==> status.desired_running == Some(true),
        answer.0.last_start_config == status.last_start_config,
        answer.0.recovery_reason == status.recovery_reason,
{
}

/// A run that ended or failed to initialise with an error leaves that error to
/// both statuses, whatever is loaded, reported or probed.
pub proof fn error_of_the_run_is_reported<C>(
    run: &mut ManagerState<C>,
    s: &mut ManagerState<C>,
    at_init: bool,
    error: String,
    loaded: Option<DesiredState>,
    authority: Option<NativeAuthority>,
    platform: Platform,
    capabilities: PlatformCapabilities,
    probe: Option<DesktopProbe>,
    answer: (LifecycleStatus, Option<DegradedEvent>),
    status: ServiceStatus,
)
    requires
        call_ensures(
            ManagerState::<C>::note_task_step,
            (
                run,
                old(run).generation,
                if at_init {
                    TaskStep::InitFailed { message: error }
                } else {
                    TaskStep::Finished { error: Some(error) }
                },
            ),
            (),
        ),
        *old(s) == *final(run),
        call_ensures(ManagerState::<C>::service_status, (&*old(s), &loaded), status),
        call_ensures(
            ManagerState::<C>::build_lifecycle_status,
            (s, &loaded, &authority, platform, capabilities, probe),
            answer,
        ),
    ensures
        answer.0.last_error == Some(error),
        status.last_error == Some(error),
{
}

/// What the task hands the manager when a service fails is the message of its
/// error, at the end of a run and at its initialisation.
pub proof fn failed_service_hands_over_its_message(
    error: ServiceError,
    words: String,
    init: Vec<TaskStep>,
    run: Vec<TaskStep>,
)
    requires
        call_ensures(ServiceError::message, (&error,), words),
        call_ensures(crate::task::init_steps, (&Err(error),), init),
        call_ensures(crate::task::run_steps, (&Err(error),), run),
    ensures
        init@.len() == 3 && run@.len() == 3,
        init@[0] matches TaskStep::Emit(PluginEvent::Error { message }) && message@ == words@,
        init@[1] matches TaskStep::InitFailed { message } && message@ == words@,
        init@[2] matches TaskStep::Complete { success } && !success,
        run@[0] matches TaskStep::Emit(PluginEvent::Error { message }) && message@ == words@,
        run@[1] matches TaskStep::Complete { success } && !success,
        run@[2] matches TaskStep::Finished { error: Some(message) } && message@ == words@,
{
    let i = crate::task::step_views(init@);
    let r = crate::task::step_views(run@);
    assert(init@.len() == i.len() && run@.len() == r.len());
    assert(init@[0]@ == i[0] && init@[1]@ == i[1] && init@[2]@ == i[2]);
    assert(run@[0]@ == r[0] && run@[1]@ == r[1] && run@[2]@ == r[2]);
}

/// A service that does well is marked running, announced and run; at its end
/// it is announced as completed, its callback fires with success, and only
/// then is the run over.
pub proof fn successful_service_takes_these_steps(init: Vec<TaskStep>, run: Vec<TaskStep>)
    requires
        call_ensures(crate::task::init_steps, (&Ok::<(), ServiceError>(()),), init),
        call_ensures(crate::task::run_steps, (&Ok::<(), ServiceError>(()),), run),
    ensures
        init@.len() == 3 && run@.len() == 3,
        init@[0] is MarkRunning,
        init@[1] == TaskStep::Emit(PluginEvent::Started),
        init@[2] is Run,
        run@[0] matches TaskStep::Emit(PluginEvent::Stopped { reason }) && reason is TaskCompleted,
        run@[1] matches TaskStep::Complete { success } && success,
        run@[2] matches TaskStep::Finished { error } && error is None,
{
    let i = crate::task::step_views(init@);
    let r = crate::task::step_views(run@);
    assert(init@.len() == i.len() && run@.len() == r.len());
    assert(init@[0]@ == i[0] && init@[1]@ == i[1] && init@[2]@ == i[2]);
    assert(run@[0]@ == r[0] && run@[1]@ == r[1] && run@[2]@ == r[2]);
}

/// The task of a run that is not the latest changes nothing. The task of the
/// latest run moves it from initialising to running, and from either to
/// stopped when it fails or ends; then nothing runs or can be stopped. All
/// else stays, and an end without an error keeps the error there was.
pub proof fn task_moves_its_own_run_only<C>(
    s: &mut ManagerState<C>,
    generation: u64,
    step: TaskStep,
)
    requires
        call_ensures(ManagerState::<C>::note_task_step, (s, generation, step), ()),
    ensures
        generation != old(s).generation ==> *final(s) == *old(s),
        step is Emit || step is Run || step is Complete ==> *final(s) == *old(s),
        *final(s) == (ManagerState {
            token: final(s).token,
            is_running: final(s).is_running,
            lifecycle_state: final(s).lifecycle_state,
            last_error: final(s).last_error,
            ..*old(s)
        }),
        generation == old(s).generation && step is MarkRunning ==> {
            &&& final(s).token == old(s).token && final(s).is_running == old(s).is_running
            &&& final(s).last_error == old(s).last_error
            &&& final(s).lifecycle_state == (if old(s).lifecycle_state is Initializing {
                ServiceState::Running
            } else {
                old(s).lifecycle_state
            })
        },
        generation == old(s).generation && (step is InitFailed || step is Finished) ==> {
            &&& final(s).token is None && !final(s).is_running
            &&& old(s).lifecycle_state is Initializing ==> final(s).lifecycle_state is Stopped
            &&& old(s).lifecycle_state is Idle ==> final(s).lifecycle_state is Idle
            &&& old(s).lifecycle_state is Stopped ==> final(s).lifecycle_state is Stopped
            &&& old(s).lifecycle_state is Running && step is Finished
                ==> final(s).lifecycle_state is Stopped
            &&& old(s).lifecycle_state is Running && step is InitFailed
                ==> final(s).lifecycle_state is Running
        },
        generation == old(s).generation ==> (step matches TaskStep::InitFailed { message }
            ==> final(s).last_error == Some(message)),
        generation == old(s).generation ==> (step matches TaskStep::Finished { error: Some(message) }
            ==> final(s).last_error == Some(message)),
        step matches TaskStep::Finished { error: None } ==> final(s).last_error == old(
            s,
        ).last_error,
{
}

/// The lifecycle status shows what is stored in its own place, and nothing is
/// wanted, pending or configured where nothing could be loaded.
pub proof fn lifecycle_status_shows_what_is_stored<C>(
    s: &mut ManagerState<C>,
    loaded: Option<DesiredState>,
    authority: Option<NativeAuthority>,
    platform: Platform,
    capabilities: PlatformCapabilities,
    probe: Option<DesktopProbe>,
    status: LifecycleStatus,
    event: Option<DegradedEvent>,
)
    requires
        call_ensures(
            ManagerState::<C>::build_lifecycle_status,
            (s, &loaded, &authority, platform, capabilities, probe),
            (status, event),
        ),
    ensures
        status.recovery_enabled == status.desired_running,
        loaded is None ==> {
            &&& !status.desired_running && status.recovery_reason is None
            &&& status.last_start_config is None
        },
        loaded matches Some(stored) ==> {
            &&& status.desired_running == stored.desired_running
            &&& status.recovery_reason == stored.recovery_reason
            &&& stored.recovery_pending ==> status.recovery_pending
            &&& stored.last_start_config matches Some(SavedConfig::Config(config))
                ==> status.last_start_config == Some(config)
            &&& stored.last_start_config matches Some(SavedConfig::Unreadable(_))
                ==> status.last_start_config is None
            &&& stored.last_start_config is None ==> status.last_start_config is None
        },
        status.recovery_pending ==> (loaded is Some && loaded->Some_0.recovery_pending) || (
        authority matches Some(NativeAuthority::Android(ns)) && ns.recovery_pending),
        status.platform == platform,
        status.capabilities == capabilities,
{
}

/// Without a report of the native side the lifecycle status says what the
/// manager believes, says nothing of the native side, and knows delivery to be
/// impaired only if scheduling was refused at the start.
pub proof fn lifecycle_status_without_a_report<C>(
    s: &mut ManagerState<C>,
    loaded: Option<DesiredState>,
    platform: Platform,
    capabilities: PlatformCapabilities,
    probe: Option<DesktopProbe>,
    status: LifecycleStatus,
    event: Option<DegradedEvent>,
)
    requires
        call_ensures(
            ManagerState::<C>::build_lifecycle_status,
            (s, &loaded, &None::<NativeAuthority>, platform, capabilities, probe),
            (status, event),
        ),
    ensures
        *final(s) == *old(s),
        old(s).lifecycle_state is Idle ==> status.state is Idle,
        old(s).lifecycle_state is Initializing ==> status.state is Starting,
        old(s).lifecycle_state is Running ==> status.state is Running,
        old(s).lifecycle_state is Stopped ==> status.state is Stopped,
        status.native_running is None && status.native_foreground is None,
        status.adopted is None && status.data_dir is None,
        status.recovery_pending <==> loaded is Some && loaded->Some_0.recovery_pending,
        status.last_platform_state is Some <==> loaded is Some
            && loaded->Some_0.last_native_state is Some,
        status.last_platform_state matches Some(text) ==> text@
            == loaded->Some_0.last_native_state->Some_0@,
        old(s).scheduling_degraded is None ==> {
            &&& status.degraded is None && status.degraded_reason is None && event is None
            &&& loaded is None ==> status.last_platform_error is None
            &&& loaded matches Some(stored) ==> status.last_platform_error
                == stored.last_platform_error
        },
        old(s).scheduling_degraded is Some ==> {
            &&& status.degraded == Some(true)
            &&& status.degraded_reason matches Some(reason)
            &&& reason@ == "scheduling_degraded_foreground_only"@
            &&& status.last_platform_error == old(s).scheduling_degraded
        },
{
}

/// With a report of Android the lifecycle status tells what the report says,
/// follows it, and takes over a service that runs unbeknown to the manager.
pub proof fn lifecycle_status_on_android<C>(
    s: &mut ManagerState<C>,
    loaded: Option<DesiredState>,
    ns: AndroidServiceState,
    platform: Platform,
    capabilities: PlatformCapabilities,
    probe: Option<DesktopProbe>,
    status: LifecycleStatus,
    event: Option<DegradedEvent>,
)
    requires
        call_ensures(
            ManagerState::<C>::build_lifecycle_status,
            (s, &loaded, &Some(NativeAuthority::Android(ns)), platform, capabilities, probe),
            (status, event),
        ),
    ensures
        status.native_running == Some(ns.native_running),
        status.native_foreground == Some(ns.native_foreground),
        status.data_dir == Some(ns.data_dir),
        ns.recovery_pending ==> status.recovery_pending,
        final(s).is_running == ns.native_running,
        ns.native_running && !old(s).is_running ==> status.adopted == Some(true)
            && final(s).lifecycle_state is Running,
        !ns.native_running && old(s).is_running ==> status.adopted is None
            && final(s).lifecycle_state is Stopped,
        ns.native_running == old(s).is_running ==> status.adopted == Some(false) && *final(s)
            == *old(s),
        ns.durable_state@ == "setup_idle"@ ==> status.state is SetupIdle,
        ns.durable_state@ == "locked_idle"@ ==> status.state is LockedIdle,
        ns.durable_state@ != "setup_idle"@ && ns.durable_state@ != "locked_idle"@ ==> {
            &&& final(s).lifecycle_state is Idle ==> status.state is Idle
            &&& final(s).lifecycle_state is Initializing ==> status.state is Starting
            &&& final(s).lifecycle_state is Running ==> status.state is Running
            &&& final(s).lifecycle_state is Stopped ==> status.state is Stopped
        },
        status.last_platform_state is Some <==> loaded is Some
            && loaded->Some_0.last_native_state is Some,
        status.last_platform_state matches Some(text) ==> text@
            == loaded->Some_0.last_native_state->Some_0@,
{
    reveal_strlit("setup_idle");
    reveal_strlit("locked_idle");
    assert("setup_idle"@.len() == 10 && "locked_idle"@.len() == 11);
}

/// On Android delivery is impaired if the service had stopped unbeknown to the
/// manager, else if it timed out, in this session or an earlier one, else if
/// scheduling was refused at the start, and in no other case.
pub proof fn impairment_on_android<C>(
    s: &mut ManagerState<C>,
    loaded: Option<DesiredState>,
    ns: AndroidServiceState,
    platform: Platform,
    capabilities: PlatformCapabilities,
    probe: Option<DesktopProbe>,
    status: LifecycleStatus,
    event: Option<DegradedEvent>,
)
    requires
        call_ensures(
            ManagerState::<C>::build_lifecycle_status,
            (s, &loaded, &Some(NativeAuthority::Android(ns)), platform, capabilities, probe),
            (status, event),
        ),
    ensures
        ({
            let stopped = !ns.native_running && old(s).is_running;
            let timeout = ns.durable_state@ == "timeout"@;
            let refused = old(s).scheduling_degraded is Some;
            &&& status.degraded == Some(stopped || timeout || refused)
            &&& status.degraded_reason is Some <==> stopped || timeout || refused
            &&& stopped ==> status.degraded_reason->Some_0@ == "native_stopped_rust_running"@
            &&& !stopped && timeout && old(s).is_running ==> status.degraded_reason->Some_0@
                == "native_timeout"@
            &&& !stopped && timeout && !old(s).is_running ==> status.degraded_reason->Some_0@
                == "stale_timeout"@
            &&& !stopped && !timeout && refused ==> status.degraded_reason->Some_0@
                == "scheduling_degraded_foreground_only"@
            &&& !stopped && !timeout && refused ==> status.last_platform_error
                == old(s).scheduling_degraded
            &&& stopped || timeout || !refused ==> status.last_platform_error == (match loaded {
                Some(stored) => stored.last_platform_error,
                None => None,
            })
        }),
{
}

/// With a report of iOS the lifecycle status tells whether a background task
/// executes and what the tasks are at; the manager keeps its belief. A service
/// that is neither wanted nor executing has stopped.
pub proof fn lifecycle_status_on_ios<C>(
    s: &mut ManagerState<C>,
    loaded: Option<DesiredState>,
    ios: IosNativeState,
    platform: Platform,
    capabilities: PlatformCapabilities,
    probe: Option<DesktopProbe>,
    status: LifecycleStatus,
    event: Option<DegradedEvent>,
)
    requires
        call_ensures(
            ManagerState::<C>::build_lifecycle_status,
            (s, &loaded, &Some(NativeAuthority::Ios(ios)), platform, capabilities, probe),
            (status, event),
        ),
    ensures
        *final(s) == *old(s),
        status.native_running == Some(ios.active_task_kind is Some),
        status.native_foreground == Some(false),
        status.adopted is None && status.data_dir is None,
        status.recovery_pending <==> loaded is Some && loaded->Some_0.recovery_pending,
        status.last_platform_state is Some,
        ios.active_task_kind is Some ==> status.last_platform_state->Some_0@ == "running"@,
        ios.active_task_kind is None && ios.pending_task is Some
            ==> status.last_platform_state->Some_0@ == "pendingBgTask"@,
        ios.active_task_kind is None && ios.pending_task is None && ios.desired_running
            ==> status.last_platform_state->Some_0@ == "waitingForBgTask"@,
        ios.active_task_kind is None && ios.pending_task is None && !ios.desired_running
            ==> status.last_platform_state->Some_0@ == "stopped"@,
        ios.active_task_kind is None && !ios.desired_running ==> status.state is Stopped,
        ios.active_task_kind is Some || ios.desired_running ==> {
            &&& old(s).lifecycle_state is Idle ==> status.state is Idle
            &&& old(s).lifecycle_state is Initializing ==> status.state is Starting
            &&& old(s).lifecycle_state is Running ==> status.state is Running
            &&& old(s).lifecycle_state is Stopped ==> status.state is Stopped
        },
{
}

/// On iOS delivery is impaired if a task could not be scheduled, else if a
/// wanted service has no budget, else if scheduling was refused at the start,
/// and in no other case. The error of the refresh task is told before that of
/// the processing task.
pub proof fn impairment_on_ios<C>(
    s: &mut ManagerState<C>,
    loaded: Option<DesiredState>,
    ios: IosNativeState,
    platform: Platform,
    capabilities: PlatformCapabilities,
    probe: Option<DesktopProbe>,
    status: LifecycleStatus,
    event: Option<DegradedEvent>,
)
    requires
        call_ensures(
            ManagerState::<C>::build_lifecycle_status,
            (s, &loaded, &Some(NativeAuthority::Ios(ios)), platform, capabilities, probe),
            (status, event),
        ),
    ensures
        ({
            let failed = ios.last_refresh_error is Some || ios.last_processing_error is Some;
            let spent = ios.desired_running && !ios.in_budget;
            let refused = old(s).scheduling_degraded is Some;
            &&& status.degraded == Some(failed || spent || refused)
            &&& status.degraded_reason is Some <==> failed || spent || refused
            &&& failed ==> status.degraded_reason->Some_0@ == "ios_scheduling_error"@
            &&& !failed && spent ==> status.degraded_reason->Some_0@ == "ios_out_of_budget"@
            &&& !failed && !spent && refused ==> status.degraded_reason->Some_0@
                == "scheduling_degraded_foreground_only"@
            &&& ios.last_refresh_error is Some ==> status.last_platform_error
                == ios.last_refresh_error
            &&& ios.last_refresh_error is None && failed ==> status.last_platform_error
                == ios.last_processing_error
            &&& !failed && !spent && refused ==> status.last_platform_error
                == old(s).scheduling_degraded
            &&& !failed && (spent || !refused) ==> status.last_platform_error == (match loaded {
                Some(stored) => stored.last_platform_error,
                None => None,
            })
        }),
{
}

/// An impairment is announced once an app is known, with the reason and the
/// native side's word of the status and the belief from before; nothing else
/// is announced. Beyond belief and lifecycle state a query changes nothing.
pub proof fn impairment_is_announced<C>(
    s: &mut ManagerState<C>,
    loaded: Option<DesiredState>,
    authority: Option<NativeAuthority>,
    platform: Platform,
    capabilities: PlatformCapabilities,
    probe: Option<DesktopProbe>,
    status: LifecycleStatus,
    event: Option<DegradedEvent>,
)
    requires
        call_ensures(
            ManagerState::<C>::build_lifecycle_status,
            (s, &loaded, &authority, platform, capabilities, probe),
            (status, event),
        ),
    ensures
        event is Some <==> status.degraded == Some(true) && old(s).has_app,
        event matches Some(e) ==> {
            &&& e matches DegradedEvent::Status { reason, native_running, rust_running }
            &&& reason is Some && status.degraded_reason is Some
            &&& reason->Some_0@ == status.degraded_reason->Some_0@
            &&& native_running == status.native_running
            &&& rust_running == old(s).is_running
        },
        *final(s) == (ManagerState {
            is_running: final(s).is_running,
            lifecycle_state: final(s).lifecycle_state,
            ..*old(s)
        }),
{
}

/// The issues in a lifecycle status are those that validating the platform
/// finds, one for one.
pub proof fn lifecycle_status_lists_what_validation_finds<C>(
    s: &mut ManagerState<C>,
    loaded: Option<DesiredState>,
    authority: Option<NativeAuthority>,
    platform: Platform,
    capabilities: PlatformCapabilities,
    probe: Option<DesktopProbe>,
    status: LifecycleStatus,
    event: Option<DegradedEvent>,
    report: SetupValidationReport,
)
    requires
        call_ensures(
            ManagerState::<C>::build_lifecycle_status,
            (s, &loaded, &authority, platform, capabilities, probe),
            (status, event),
        ),
        call_ensures(SetupValidator::validate_with_probe, (platform, probe), report),
    ensures
        status.issues@.len() == report.issues@.len(),
        forall|i: int|
            0 <= i < status.issues@.len() ==> {
                let found = #[trigger] status.issues@[i];
                &&& found.severity == report.issues@[i].severity
                &&& found.code@ == report.issues@[i].code@
                &&& found.message@ == report.issues@[i].message@
                &&& found.platform == report.issues@[i].platform
                &&& found.fix is Some <==> report.issues@[i].fix is Some
                &&& found.fix matches Some(fix) ==> fix@ == report.issues@[i].fix->Some_0@
            },
{
    let a = crate::validator::rated_views(status.issues@);
    let b = crate::validator::rated_views(report.issues@);
    assert(a == b);
    assert(a.len() == b.len());
    assert forall|i: int| 0 <= i < status.issues@.len() implies {
        let found = #[trigger] status.issues@[i];
        &&& found.severity == report.issues@[i].severity
        &&& found.code@ == report.issues@[i].code@
        &&& found.message@ == report.issues@[i].message@
        &&& found.platform == report.issues@[i].platform
        &&& found.fix is Some <==> report.issues@[i].fix is Some
        &&& found.fix matches Some(fix) ==> fix@ == report.issues@[i].fix->Some_0@
    } by {
        assert(a[i] == b[i]);
        assert(status.issues@[i]@ == report.issues@[i]@);
    }
}

/// Delivery is told to be impaired for every health but good and unknown, by a
/// reason of its own.
pub proof fn health_is_told(health: Health, flag: Option<bool>, reason: Option<String>)
    requires
        call_ensures(Health::degraded, (health,), flag),
        call_ensures(Health::reason, (health,), reason),
    ensures
        health is Unknown ==> flag is None && reason is None,
        health is Healthy ==> flag == Some(false) && reason is None,
        !(health is Unknown) && !(health is Healthy) ==> flag == Some(true) && reason is Some,
        health is NativeStopped ==> reason->Some_0@ == "native_stopped_rust_running"@,
        health is NativeTimeout ==> reason->Some_0@ == "native_timeout"@,
        health is StaleTimeout ==> reason->Some_0@ == "stale_timeout"@,
        health is IosSchedulingError ==> reason->Some_0@ == "ios_scheduling_error"@,
        health is IosOutOfBudget ==> reason->Some_0@ == "ios_out_of_budget"@,
        health is SchedulingDegraded ==> reason->Some_0@ == "scheduling_degraded_foreground_only"@,
{
}

/// A state of the manager stands for the lifecycle state of the same meaning.
pub proof fn lifecycle_states_keep_their_meaning(state: ServiceState, lifecycle: LifecycleState)
    requires
        call_ensures(<LifecycleState as From<ServiceState>>::from, (state,), lifecycle),
    ensures
        lifecycle is Idle <==> state is Idle,
        lifecycle is Starting <==> state is Initializing,
        lifecycle is Running <==> state is Running,
        lifecycle is Stopped <==> state is Stopped,
{
}

} // verus!
