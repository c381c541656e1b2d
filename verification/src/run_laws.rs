//! Laws of the commands: what a command leads to, told from the command, the
//! state it met and the result alone.

use crate::bridge::BridgeCall;
use crate::config::{PluginConfig, StartConfig};
use crate::desired_state::{DesiredChange, DesiredState, SavedConfig};
use crate::error::ServiceError;
use crate::manager::{
    DegradedEvent, IntentPlan, KeepaliveSettings, ManagerCommand, ManagerState, MobileBridge,
    NativeAuthority, NativeForward, StartPlan, StartTicket, Step, StopPlan, TargetOs,
};
use crate::models::{LifecycleMode, NativeLifecycleEvent, ServiceState, StopReason};
use crate::notifier::NotifierPolicy;
use crate::text::same_ignoring_ascii_case;
use vstd::prelude::*;

verus! {

// ─── The manager and its configuration ─────────────────────────────────

/// A new manager holds what it was configured with, has the lifecycle mechanism
/// of its system, and has done nothing.
pub proof fn new_manager_has_done_nothing<C>(
    keepalive: KeepaliveSettings,
    has_backend: bool,
    types: Vec<String>,
    validate: bool,
    policy: NotifierPolicy,
    target: TargetOs,
    state: ManagerState<C>,
)
    requires
        call_ensures(
            ManagerState::<C>::new,
            (keepalive, has_backend, types, validate, policy, target),
            state,
        ),
    ensures
        state.keepalive == keepalive,
        state.has_backend == has_backend,
        state.android_fg_service_types == types,
        state.android_validate_fg_type == validate,
        state.notifier_policy == policy,
        target is Android ==> state.lifecycle_mode is AndroidForegroundService,
        target is Ios ==> state.lifecycle_mode is IosBgTaskScheduler,
        target is Desktop ==> state.lifecycle_mode is DesktopInProcess,
        !state.is_running && state.lifecycle_state is Idle,
        state.token is None && state.generation == 0,
        state.on_complete is None && state.mobile is None && !state.has_app,
        state.last_error is None && state.scheduling_degraded is None,
{
}

/// The mechanism that a system reports is the one that a manager for it has.
pub proof fn systems_have_their_mechanism(target: TargetOs, mode: LifecycleMode)
    requires
        call_ensures(TargetOs::lifecycle_mode, (target,), mode),
    ensures
        mode is AndroidForegroundService <==> target is Android,
        mode is IosBgTaskScheduler <==> target is Ios,
        mode is DesktopInProcess <==> target is Desktop,
{
}

/// What a manager was configured with outlives every command. Only `SetMobile`
/// changes the bridge, only an accepted start changes the number of the run,
/// and an app once known stays known.
pub proof fn configuration_outlives_commands<C>(
    s: &mut ManagerState<C>,
    command: ManagerCommand<C>,
    step: Step<C>,
)
    requires
        call_ensures(ManagerState::<C>::step, (s, command), step),
    ensures
        final(s).keepalive == old(s).keepalive,
        final(s).has_backend == old(s).has_backend,
        final(s).lifecycle_mode == old(s).lifecycle_mode,
        final(s).android_fg_service_types == old(s).android_fg_service_types,
        final(s).android_validate_fg_type == old(s).android_validate_fg_type,
        final(s).notifier_policy == old(s).notifier_policy,
        !(command is SetMobile) ==> final(s).mobile == old(s).mobile,
        final(s).generation != old(s).generation ==> step is Start,
        old(s).has_app ==> final(s).has_app,
        !(command is Start) ==> final(s).has_app == old(s).has_app,
{
}

// ─── Starting ──────────────────────────────────────────────────────────

/// A start is accepted exactly if no run is under way, Android knows the type
/// where the system enforces types, and, where types are checked, the type is
/// not empty and is on the configured list, the case of ASCII letters aside.
///
/// A refusal says which of these failed, in this order, and names the type.
pub proof fn start_is_accepted_or_refused_for_a_reason<C>(
    s: &mut ManagerState<C>,
    config: StartConfig,
    step: Step<C>,
)
    requires
        call_ensures(ManagerState::<C>::step, (s, ManagerCommand::Start { config }), step),
    ensures
        ({
            let t = config.foreground_service_type@;
            let enforced = old(s).mobile is Some
                && old(s).mobile->Some_0.enforces_foreground_service_type;
            let known = t == "dataSync"@ || t == "mediaPlayback"@ || t == "phoneCall"@ || t
                == "location"@ || t == "connectedDevice"@ || t == "mediaProjection"@ || t
                == "camera"@ || t == "microphone"@ || t == "health"@ || t == "remoteMessaging"@
                || t == "systemExempted"@ || t == "shortService"@ || t == "specialUse"@ || t
                == "mediaProcessing"@;
            let listed = t.len() > 0 && exists|i: int|
                0 <= i < old(s).android_fg_service_types@.len() && same_ignoring_ascii_case(
                    (#[trigger] old(s).android_fg_service_types@[i])@,
                    t,
                );
            let passes = !old(s).android_validate_fg_type || listed;
            &&& step is Start <==> old(s).token is None && (enforced ==> known) && passes
            &&& old(s).token is Some ==> step == Step::<C>::Reply(
                Err(ServiceError::AlreadyRunning),
            ) && *final(s) == *old(s)
            &&& old(s).token is None && enforced && !known ==> (step matches Step::Reply(
                Err(ServiceError::Platform(text)),
            ) && text@ == "invalid foreground_service_type '"@ + t
                + "'. Valid types: [\"dataSync\", \"mediaPlayback\", \"phoneCall\", \"location\", \"connectedDevice\", \"mediaProjection\", \"camera\", \"microphone\", \"health\", \"remoteMessaging\", \"systemExempted\", \"shortService\", \"specialUse\", \"mediaProcessing\"]"@)
            &&& old(s).token is None && (enforced ==> known) && !passes && t.len() == 0 ==> (
            step matches Step::Reply(Err(ServiceError::Platform(text))) && text@
                == "foreground_service_type must not be empty"@)
            &&& old(s).token is None && (enforced ==> known) && !passes && t.len() > 0 ==> (
            step matches Step::Reply(Err(ServiceError::Platform(text))) && text@
                == "foreground_service_type '"@ + t
                + "' is not allowed by the plugin configuration"@)
            &&& step is Start || step matches Step::Reply(Err(_))
        }),
{
    crate::config::known_types_are_the_fourteen(config.foreground_service_type@);
}

/// A start that is not accepted leaves every run, belief and callback alone.
pub proof fn refused_start_starts_nothing<C>(
    s: &mut ManagerState<C>,
    config: StartConfig,
    step: Step<C>,
)
    requires
        call_ensures(ManagerState::<C>::step, (s, ManagerCommand::Start { config }), step),
        !(step is Start),
    ensures
        *final(s) == (ManagerState { has_app: final(s).has_app, ..*old(s) }),
{
}

/// An accepted start makes the next run, which initialises with a clean record,
/// takes the callback set for it, and can be cancelled by what the manager keeps.
pub proof fn accepted_start_begins_the_next_run<C>(
    s: &mut ManagerState<C>,
    config: StartConfig,
    ticket: StartTicket<C>,
)
    requires
        call_ensures(
            ManagerState::<C>::step,
            (s, ManagerCommand::Start { config }),
            Step::Start(ticket),
        ),
    ensures
        final(s).is_running && final(s).lifecycle_state is Initializing && final(s).has_app,
        final(s).last_error is None && final(s).scheduling_degraded is None,
        final(s).generation == ticket.generation,
        old(s).generation < u64::MAX ==> ticket.generation == old(s).generation + 1,
        old(s).generation == u64::MAX ==> ticket.generation == 0,
        ticket.on_complete == old(s).on_complete && final(s).on_complete is None,
        ticket.config == config,
        final(s).token matches Some(run) && run.token() == ticket.shutdown.token(),
        ticket.keepalive is Some <==> old(s).mobile is Some,
{
}

/// What the plugin was configured with reaches the native side with every
/// start, each setting under its own name, with the label and the type of the
/// start. A processing timeout that is not above zero is left out.
pub proof fn settings_reach_the_native_side<C>(
    plugin: PluginConfig,
    settings: KeepaliveSettings,
    s: &mut ManagerState<C>,
    config: StartConfig,
    ticket: StartTicket<C>,
)
    requires
        call_ensures(KeepaliveSettings::from_config, (&plugin,), settings),
        old(s).keepalive == settings,
        old(s).mobile is Some,
        call_ensures(
            ManagerState::<C>::step,
            (s, ManagerCommand::Start { config }),
            Step::Start(ticket),
        ),
    ensures
        ticket.keepalive matches Some(args) && {
            &&& args.label == config.service_label
            &&& args.foreground_service_type == config.foreground_service_type
            &&& args.ios_safety_timeout_secs == Some(plugin.ios_safety_timeout_secs)
            &&& args.ios_earliest_refresh_begin_minutes == Some(
                plugin.ios_earliest_refresh_begin_minutes,
            )
            &&& args.ios_earliest_processing_begin_minutes == Some(
                plugin.ios_earliest_processing_begin_minutes,
            )
            &&& args.ios_requires_external_power == Some(plugin.ios_requires_external_power)
            &&& args.ios_requires_network_connectivity == Some(
                plugin.ios_requires_network_connectivity,
            )
            &&& args.ios_processing_ceiling_multiplier == Some(
                plugin.ios_processing_ceiling_multiplier,
            )
            &&& args.ios_processing_safety_timeout_secs is Some <==> 0
                < plugin.ios_processing_safety_timeout_secs.bits <= 0x7ff0_0000_0000_0000
            &&& args.ios_processing_safety_timeout_secs matches Some(secs) ==> secs
                == plugin.ios_processing_safety_timeout_secs
        },
{
}

/// Settings taken from a configuration are those of the same names in it.
pub proof fn settings_keep_their_names(plugin: PluginConfig, settings: KeepaliveSettings)
    requires
        call_ensures(KeepaliveSettings::from_config, (&plugin,), settings),
    ensures
        settings.ios_safety_timeout_secs == plugin.ios_safety_timeout_secs,
        settings.ios_processing_safety_timeout_secs == plugin.ios_processing_safety_timeout_secs,
        settings.ios_earliest_refresh_begin_minutes == plugin.ios_earliest_refresh_begin_minutes,
        settings.ios_earliest_processing_begin_minutes
            == plugin.ios_earliest_processing_begin_minutes,
        settings.ios_requires_external_power == plugin.ios_requires_external_power,
        settings.ios_requires_network_connectivity == plugin.ios_requires_network_connectivity,
        settings.ios_processing_ceiling_multiplier == plugin.ios_processing_ceiling_multiplier,
{
}

/// The command and the handler behind it begin the same start.
pub proof fn start_command_is_its_handler<C>(
    a: &mut ManagerState<C>,
    b: &mut ManagerState<C>,
    config: StartConfig,
    step: Step<C>,
    begun: Result<StartTicket<C>, ServiceError>,
)
    requires
        *old(a) == *old(b),
        call_ensures(ManagerState::<C>::step, (a, ManagerCommand::Start { config }), step),
        call_ensures(ManagerState::<C>::handle_start, (b, config), begun),
    ensures
        begun is Ok <==> step is Start,
        begun is Err ==> *final(a) == *final(b),
        final(a).generation == final(b).generation,
        final(a).lifecycle_state == final(b).lifecycle_state,
        begun matches Ok(ticket) ==> {
            &&& ticket.config == config
            &&& ticket.keepalive == step->Start_0.keepalive
            &&& ticket.on_complete == step->Start_0.on_complete
            &&& final(b).token is Some
            &&& final(b).token->Some_0.token() == ticket.shutdown.token()
        },
        begun matches Err(e) ==> (step matches Step::Reply(Err(other)) && other.message_text()
            == e.message_text()),
{
}

/// A start goes ahead exactly if the native side agreed or its agreement is
/// only advisory. The run that goes ahead is the one that was begun, and where
/// there is storage it is saved as wanted, with its configuration.
pub proof fn start_goes_ahead_or_is_undone<C>(
    s: &mut ManagerState<C>,
    ticket: StartTicket<C>,
    keepalive: Result<(), ServiceError>,
    plan: Result<StartPlan<C>, ServiceError>,
)
    requires
        call_ensures(ManagerState::<C>::finish_start, (s, ticket, keepalive), plan),
    ensures
        plan is Ok <==> keepalive is Ok || (old(s).mobile is Some
            && old(s).mobile->Some_0.scheduling_is_advisory),
        plan matches Ok(p) ==> {
            &&& p.generation == ticket.generation
            &&& p.shutdown == ticket.shutdown
            &&& p.on_complete == ticket.on_complete
            &&& p.config == ticket.config
            &&& p.persist is Some <==> old(s).has_backend
            &&& p.persist matches Some(change) ==> change.desired && change.config == Some(
                ticket.config,
            )
            &&& p.degraded is Some <==> keepalive is Err
            &&& final(s).token == old(s).token && final(s).is_running == old(s).is_running
            &&& final(s).lifecycle_state == old(s).lifecycle_state
            &&& final(s).on_complete == old(s).on_complete
        },
        plan is Ok && keepalive is Ok ==> *final(s) == *old(s),
        plan matches Err(e) ==> {
            &&& keepalive == Err::<(), ServiceError>(e)
            &&& final(s).token is None && !final(s).is_running
            &&& final(s).lifecycle_state is Idle
            &&& final(s).on_complete == ticket.on_complete
            &&& final(s).generation == old(s).generation && final(s).has_app == old(s).has_app
            &&& final(s).last_error == old(s).last_error
            &&& final(s).scheduling_degraded == old(s).scheduling_degraded
        },
        final(s).mobile == old(s).mobile,
        final(s).has_app == old(s).has_app,
        final(s).generation == old(s).generation,
        final(s).keepalive == old(s).keepalive,
        final(s).has_backend == old(s).has_backend,
        final(s).lifecycle_mode == old(s).lifecycle_mode,
        final(s).android_fg_service_types == old(s).android_fg_service_types,
        final(s).android_validate_fg_type == old(s).android_validate_fg_type,
        final(s).notifier_policy == old(s).notifier_policy,
{
}

/// An advisory refusal is told and kept in the words of the refusal, and
/// touches nothing else.
pub proof fn advisory_refusal_is_kept_in_its_words<C>(
    s: &mut ManagerState<C>,
    ticket: StartTicket<C>,
    refusal: ServiceError,
    plan: StartPlan<C>,
    words: String,
)
    requires
        call_ensures(ManagerState::<C>::finish_start, (s, ticket, Err(refusal)), Ok(plan)),
        call_ensures(ServiceError::message, (&refusal,), words),
    ensures
        plan.degraded matches Some(DegradedEvent::Scheduling { reason, error }) && reason@
            == "scheduling_degraded_foreground_only"@ && error@ == words@,
        final(s).scheduling_degraded matches Some(text) && text@ == words@,
        *final(s) == (ManagerState {
            scheduling_degraded: final(s).scheduling_degraded,
            ..*old(s)
        }),
{
}

// ─── Stopping ──────────────────────────────────────────────────────────

/// A stop needs a run. It cancels the token of that run and leaves the manager
/// stopped, with a clean record, the callback for the next run and everything
/// else as they were.
pub proof fn stop_ends_the_run<C>(
    s: &mut ManagerState<C>,
    reason: StopReason,
    plan: Result<StopPlan, ServiceError>,
)
    requires
        call_ensures(ManagerState::<C>::handle_stop_with_reason, (s, reason), plan),
    ensures
        plan is Ok <==> old(s).token is Some,
        plan matches Err(e) ==> e is NotRunning && *final(s) == *old(s),
        plan matches Ok(p) ==> {
            &&& p.cancelled.token() == old(s).token->Some_0.token()
            &&& final(s).token is None && !final(s).is_running
            &&& final(s).lifecycle_state is Stopped
            &&& final(s).last_error is None && final(s).scheduling_degraded is None
            &&& final(s).generation == old(s).generation
            &&& final(s).on_complete == old(s).on_complete
            &&& final(s).has_app == old(s).has_app && final(s).mobile == old(s).mobile
            &&& final(s).keepalive == old(s).keepalive
            &&& final(s).has_backend == old(s).has_backend
            &&& final(s).lifecycle_mode == old(s).lifecycle_mode
            &&& final(s).android_fg_service_types == old(s).android_fg_service_types
            &&& final(s).android_validate_fg_type == old(s).android_validate_fg_type
            &&& final(s).notifier_policy == old(s).notifier_policy
        },
{
}

/// With a bridge, a stop takes down the keepalive unless the platform paused
/// the service or the process is exiting; without a bridge there is none to
/// take down.
pub proof fn stop_takes_down_the_keepalive<C>(
    s: &mut ManagerState<C>,
    reason: StopReason,
    plan: StopPlan,
)
    requires
        call_ensures(ManagerState::<C>::handle_stop_with_reason, (s, reason), Ok(plan)),
    ensures
        old(s).mobile is Some ==> (plan.stop_keepalive <==> !(reason is PlatformTimeout) && !(
        reason is PlatformExpiration) && !(reason is ProcessExit)),
        old(s).mobile is None ==> !plan.stop_keepalive,
        old(s).mobile is Some && plan.persist is Some ==> plan.stop_keepalive,
{
}

/// Where there is storage, a stop by the user, by the app, by the notification
/// or by completion saves that the service is no longer wanted; no other stop
/// saves anything.
pub proof fn lasting_stop_is_saved<C>(s: &mut ManagerState<C>, reason: StopReason, plan: StopPlan)
    requires
        call_ensures(ManagerState::<C>::handle_stop_with_reason, (s, reason), Ok(plan)),
    ensures
        plan.persist is Some <==> old(s).has_backend && (reason is UserStop || reason is AppStop
            || reason is NativeNotificationStop || reason is TaskCompleted),
        plan.persist matches Some(change) ==> !change.desired && change.config is None,
{
}

/// Native scheduling is submitted again after a platform timeout, where there
/// is storage to tell whether the service is still wanted, and after no other
/// stop.
pub proof fn only_a_timeout_resubmits<C>(s: &mut ManagerState<C>, reason: StopReason, plan: StopPlan)
    requires
        call_ensures(ManagerState::<C>::handle_stop_with_reason, (s, reason), Ok(plan)),
    ensures
        plan.resubmit <==> reason is PlatformTimeout && old(s).has_backend,
{
}

/// A pause by the platform is announced where that is enabled, in these words;
/// no other stop is announced.
pub proof fn pause_is_announced<C>(s: &mut ManagerState<C>, reason: StopReason, plan: StopPlan)
    requires
        call_ensures(ManagerState::<C>::handle_stop_with_reason, (s, reason), Ok(plan)),
    ensures
        plan.notice is Some <==> old(s).notifier_policy.on_timeout && (reason is PlatformTimeout
            || reason is PlatformExpiration),
        plan.notice matches Some(notice) ==> {
            &&& notice.id@ == "bg-timeout"@
            &&& notice.title@ == "Sila background service paused"@
            &&& notice.body@ == "The OS paused background delivery; it will resume automatically."@
        },
{
}

/// A stop command does what the handler does for its reason.
pub proof fn stop_command_is_its_handler<C>(
    a: &mut ManagerState<C>,
    b: &mut ManagerState<C>,
    reason: StopReason,
    step: Step<C>,
    plan: Result<StopPlan, ServiceError>,
)
    requires
        *old(a) == *old(b),
        call_ensures(ManagerState::<C>::step, (a, ManagerCommand::StopWithReason { reason }), step),
        call_ensures(ManagerState::<C>::handle_stop_with_reason, (b, reason), plan),
    ensures
        *final(a) == *final(b),
        plan matches Err(e) ==> step == Step::<C>::Reply(Err(ServiceError::NotRunning)),
        plan matches Ok(p) ==> (step matches Step::Stop(q) && {
            &&& q.cancelled.token() == p.cancelled.token()
            &&& q.stop_keepalive == p.stop_keepalive
            &&& q.persist is Some <==> p.persist is Some
            &&& q.persist matches Some(change) ==> !change.desired && change.config is None
            &&& q.resubmit == p.resubmit
            &&& q.notice is Some <==> p.notice is Some
            &&& q.notice matches Some(n) ==> n.id@ == p.notice->Some_0.id@ && n.title@
                == p.notice->Some_0.title@ && n.body@ == p.notice->Some_0.body@
        }),
{
}

/// A plain stop is a stop by the user, as a command and as a handler.
pub proof fn plain_stop_is_by_the_user<C>(
    a: &mut ManagerState<C>,
    b: &mut ManagerState<C>,
    c: &mut ManagerState<C>,
    plain: Step<C>,
    given: Step<C>,
    handled: Result<StopPlan, ServiceError>,
)
    requires
        *old(a) == *old(b),
        *old(a) == *old(c),
        call_ensures(ManagerState::<C>::step, (a, ManagerCommand::Stop), plain),
        call_ensures(
            ManagerState::<C>::step,
            (b, ManagerCommand::StopWithReason { reason: StopReason::UserStop }),
            given,
        ),
        call_ensures(ManagerState::<C>::handle_stop, (c,), handled),
    ensures
        *final(a) == *final(b) && *final(a) == *final(c),
        plain is Stop <==> given is Stop,
        handled is Ok <==> given is Stop,
        handled matches Err(e) ==> e is NotRunning,
        !(plain is Stop) ==> plain == given,
        plain matches Step::Stop(p) ==> {
            &&& p.cancelled.token() == given->Stop_0.cancelled.token()
            &&& p.stop_keepalive == given->Stop_0.stop_keepalive
            &&& p.stop_keepalive == (old(a).mobile is Some)
            &&& p.persist is Some <==> old(a).has_backend
            &&& p.persist == given->Stop_0.persist
            &&& !p.resubmit && p.notice is None
            &&& handled->Ok_0.stop_keepalive == p.stop_keepalive
            &&& handled->Ok_0.persist == p.persist
            &&& !handled->Ok_0.resubmit && handled->Ok_0.notice is None
            &&& handled->Ok_0.cancelled.token() == p.cancelled.token()
        },
{
}

/// After a platform timeout a service that is still wanted is mirrored to the
/// native side as wanted, with the configuration that can be read; nothing is
/// mirrored for a service that is not wanted or without a bridge.
pub proof fn resubmission_carries_the_stored_intent<C>(
    s: ManagerState<C>,
    loaded: Option<DesiredState>,
    change: Option<DesiredChange>,
)
    requires
        call_ensures(ManagerState::<C>::resubmission, (&s, &loaded), change),
    ensures
        change is Some <==> s.mobile is Some && loaded is Some && loaded->Some_0.desired_running,
        change matches Some(c) ==> {
            &&& c.desired
            &&& loaded->Some_0.last_start_config matches Some(SavedConfig::Config(config))
                ==> c.config == Some(config)
            &&& loaded->Some_0.last_start_config is None ==> c.config is None
            &&& loaded->Some_0.last_start_config matches Some(SavedConfig::Unreadable(_))
                ==> c.config is None
        },
{
}

// ─── Native events ─────────────────────────────────────────────────────

/// The stop button of the notification and a timeout of Android are stops for
/// the reason that they name.
pub proof fn native_stops_are_stops<C>(
    a: &mut ManagerState<C>,
    b: &mut ManagerState<C>,
    fgs_type: Option<String>,
    pressed: bool,
    event_step: Step<C>,
    stop_step: Step<C>,
)
    requires
        *old(a) == *old(b),
        call_ensures(
            ManagerState::<C>::step,
            (
                a,
                ManagerCommand::NativeLifecycleEvent {
                    event: if pressed {
                        NativeLifecycleEvent::AndroidNotificationStop
                    } else {
                        NativeLifecycleEvent::AndroidTimeout { fgs_type }
                    },
                },
            ),
            event_step,
        ),
        call_ensures(
            ManagerState::<C>::step,
            (
                b,
                ManagerCommand::StopWithReason {
                    reason: if pressed {
                        StopReason::NativeNotificationStop
                    } else {
                        StopReason::PlatformTimeout
                    },
                },
            ),
            stop_step,
        ),
    ensures
        *final(a) == *final(b),
        event_step is Stop <==> old(a).token is Some,
        stop_step is Stop <==> old(a).token is Some,
        old(a).token is None ==> event_step == Step::<C>::Reply(Err(ServiceError::NotRunning)),
        event_step matches Step::Stop(p) ==> {
            &&& p.cancelled.token() == old(a).token->Some_0.token()
            &&& p.stop_keepalive == (pressed && old(a).mobile is Some)
            &&& p.persist is Some <==> pressed && old(a).has_backend
            &&& p.resubmit == (!pressed && old(a).has_backend)
            &&& p.notice is Some <==> !pressed && old(a).notifier_policy.on_timeout
            &&& p.stop_keepalive == stop_step->Stop_0.stop_keepalive
            &&& p.persist == stop_step->Stop_0.persist
            &&& p.resubmit == stop_step->Stop_0.resubmit
        },
{
}

/// The acceptance of a restart, by the OS or at boot, leaves the manager as it
/// is and is announced where that is enabled, in these words.
pub proof fn accepted_restart_is_announced<C>(
    s: &mut ManagerState<C>,
    at_boot: bool,
    step: Step<C>,
)
    requires
        call_ensures(
            ManagerState::<C>::step,
            (
                s,
                ManagerCommand::NativeLifecycleEvent {
                    event: if at_boot {
                        NativeLifecycleEvent::AndroidBootRecoveryAccepted
                    } else {
                        NativeLifecycleEvent::AndroidOsRestartAccepted
                    },
                },
            ),
            step,
        ),
    ensures
        *final(s) == *old(s),
        step matches Step::Notify(notice) && (notice is Some <==> old(s).notifier_policy.on_recovery)
            && (notice matches Some(n) ==> n.id@ == "bg-recovery"@ && n.title@
            == "Sila background service restored"@ && n.body@ == "Background delivery restored."@),
{
}

/// The command for a native event and its handler agree.
pub proof fn event_command_is_its_handler<C>(
    a: &mut ManagerState<C>,
    b: &mut ManagerState<C>,
    event: NativeLifecycleEvent,
    step: Step<C>,
    handled: Step<C>,
)
    requires
        *old(a) == *old(b),
        call_ensures(
            ManagerState::<C>::step,
            (a, ManagerCommand::NativeLifecycleEvent { event }),
            step,
        ),
        call_ensures(ManagerState::<C>::handle_native_lifecycle_event, (b, &event), handled),
    ensures
        *final(a) == *final(b),
        handled is Stop <==> step is Stop,
        handled is Notify <==> step is Notify,
        handled is Stop || handled is Notify || handled == Step::<C>::Reply(
            Err(ServiceError::NotRunning),
        ),
        handled matches Step::Notify(n) ==> (n is Some <==> step->Notify_0 is Some),
        handled matches Step::Stop(p) ==> {
            &&& p.stop_keepalive == step->Stop_0.stop_keepalive
            &&& p.persist == step->Stop_0.persist
            &&& p.resubmit == step->Stop_0.resubmit
            &&& p.notice is Some <==> step->Stop_0.notice is Some
            &&& p.cancelled.token() == step->Stop_0.cancelled.token()
        },
{
}

// ─── Changing the type of a run ────────────────────────────────────────

/// The type of a run can be changed only while there is one. Where the system
/// enforces types, the type that was asked for is what reaches the native side.
pub proof fn type_change_reaches_the_native_side<C>(
    s: &mut ManagerState<C>,
    foreground_service_type: String,
    step: Step<C>,
)
    requires
        call_ensures(
            ManagerState::<C>::step,
            (s, ManagerCommand::UpdateForegroundServiceType { foreground_service_type }),
            step,
        ),
    ensures
        *final(s) == *old(s),
        old(s).token is None ==> step == Step::<C>::Reply(Err(ServiceError::NotRunning)),
        ({
            let enforced = old(s).mobile is Some
                && old(s).mobile->Some_0.enforces_foreground_service_type;
            &&& step is Forward ==> enforced && old(s).token is Some
            &&& step matches Step::Reply(Ok(())) ==> !enforced && old(s).token is Some
            &&& step is Forward || step is Reply
        }),
        step matches Step::Forward(call) ==> call == (NativeForward::UpdateKeepaliveType {
            foreground_service_type,
        }),
{
}

/// The handler for a change of type answers as the command does.
pub proof fn type_change_command_is_its_handler<C>(
    s: &mut ManagerState<C>,
    foreground_service_type: String,
    step: Step<C>,
    next: Result<Option<NativeForward>, ServiceError>,
)
    requires
        call_ensures(
            ManagerState::<C>::step,
            (s, ManagerCommand::UpdateForegroundServiceType { foreground_service_type }),
            step,
        ),
        call_ensures(
            ManagerState::<C>::handle_update_foreground_service_type,
            (&*old(s), foreground_service_type),
            next,
        ),
    ensures
        next is Err <==> step matches Step::Reply(Err(_)),
        next == Ok::<_, ServiceError>(None::<NativeForward>) <==> step == Step::<C>::Reply(Ok(())),
        next matches Ok(Some(call)) ==> step == Step::<C>::Forward(call),
        next matches Err(e) ==> e.message_text() == step->Reply_0->Err_0.message_text(),
{
}

// ─── Calls for the native side ─────────────────────────────────────────

/// An incoming call reaches the native side as it was announced: with its id,
/// its caller, and as the voice or the video call that it is.
pub proof fn incoming_call_is_shown_as_announced<C>(
    s: &mut ManagerState<C>,
    call_id: String,
    caller_name: String,
    is_video: bool,
    forward: NativeForward,
    step: Step<C>,
    call: BridgeCall,
)
    requires
        old(s).mobile is Some,
        call_ensures(
            ManagerState::<C>::step,
            (s, ManagerCommand::NotifyIncomingCall { call_id, caller_name, is_video }),
            step,
        ),
        step matches Step::Forward(f) ==> f == forward,
        call_ensures(NativeForward::into_call, (forward,), call),
    ensures
        step is Forward && *final(s) == *old(s),
        call matches BridgeCall::ShowIncomingCall { call_id: id, caller_name: name, is_video: video }
            && id == call_id && name == caller_name && video == is_video,
{
}

/// A message reaches the native side with each of its parts in its own place.
pub proof fn message_is_shown_as_sent<C>(
    s: &mut ManagerState<C>,
    notification_id: i32,
    chat_id: String,
    message_id: String,
    title: String,
    body: String,
    route_uri: String,
    forward: NativeForward,
    step: Step<C>,
    call: BridgeCall,
)
    requires
        old(s).mobile is Some,
        call_ensures(
            ManagerState::<C>::step,
            (
                s,
                ManagerCommand::NotifyMessage {
                    notification_id,
                    chat_id,
                    message_id,
                    title,
                    body,
                    route_uri,
                },
            ),
            step,
        ),
        step matches Step::Forward(f) ==> f == forward,
        call_ensures(NativeForward::into_call, (forward,), call),
    ensures
        step is Forward && *final(s) == *old(s),
        call is ShowMessageNotification,
        call->ShowMessageNotification_notification_id == notification_id,
        call->ShowMessageNotification_chat_id == chat_id,
        call->ShowMessageNotification_message_id == message_id,
        call->ShowMessageNotification_title == title,
        call->ShowMessageNotification_body == body,
        call->ShowMessageNotification_route_uri == route_uri,
{
}

/// A call is withdrawn by its own id.
pub proof fn call_is_withdrawn_by_its_id<C>(
    s: &mut ManagerState<C>,
    call_id: String,
    forward: NativeForward,
    step: Step<C>,
    call: BridgeCall,
)
    requires
        old(s).mobile is Some,
        call_ensures(
            ManagerState::<C>::step,
            (s, ManagerCommand::CancelIncomingCall { call_id }),
            step,
        ),
        step matches Step::Forward(f) ==> f == forward,
        call_ensures(NativeForward::into_call, (forward,), call),
    ensures
        step is Forward && *final(s) == *old(s),
        call is CancelIncomingCall && call->CancelIncomingCall_call_id == call_id,
{
}

/// The audio of a call is routed as asked.
pub proof fn audio_is_routed_as_asked<C>(
    s: &mut ManagerState<C>,
    call_id: String,
    route: String,
    forward: NativeForward,
    step: Step<C>,
    call: BridgeCall,
)
    requires
        old(s).mobile is Some,
        call_ensures(
            ManagerState::<C>::step,
            (s, ManagerCommand::SetCallAudioRoute { call_id, route }),
            step,
        ),
        step matches Step::Forward(f) ==> f == forward,
        call_ensures(NativeForward::into_call, (forward,), call),
    ensures
        step is Forward && *final(s) == *old(s),
        call is SetCallAudioRoute,
        call->SetCallAudioRoute_call_id == call_id && call->SetCallAudioRoute_route == route,
{
}

/// The settings page is opened, and a change of type carried out, by the call
/// made for it.
pub proof fn settings_and_types_have_their_calls(
    foreground_service_type: String,
    opened: BridgeCall,
    changed: BridgeCall,
)
    requires
        call_ensures(NativeForward::into_call, (NativeForward::OpenAppSettings,), opened),
        call_ensures(
            NativeForward::into_call,
            (NativeForward::UpdateKeepaliveType { foreground_service_type },),
            changed,
        ),
    ensures
        opened is OpenAppSettings,
        changed is UpdateForegroundServiceType,
        changed->UpdateForegroundServiceType_foreground_service_type == foreground_service_type,
{
}

/// The settings page is opened through the bridge, where there is one.
pub proof fn settings_page_needs_the_bridge<C>(s: &mut ManagerState<C>, step: Step<C>)
    requires
        call_ensures(ManagerState::<C>::step, (s, ManagerCommand::OpenAppSettings), step),
    ensures
        *final(s) == *old(s),
        old(s).mobile is Some ==> step == Step::<C>::Forward(NativeForward::OpenAppSettings),
        old(s).mobile is None ==> step == Step::<C>::Reply(Ok(())),
{
}

// ─── Intents, questions and settings ───────────────────────────────────

/// A declared intent is saved where there is storage and mirrored where there
/// is a bridge, as it was declared.
pub proof fn intent_is_kept_as_declared<C>(
    s: &mut ManagerState<C>,
    desired: bool,
    config: Option<StartConfig>,
    step: Step<C>,
    handled: IntentPlan,
)
    requires
        call_ensures(
            ManagerState::<C>::step,
            (s, ManagerCommand::SetDesiredRunning { desired, config }),
            step,
        ),
        call_ensures(
            ManagerState::<C>::handle_set_desired_running,
            (&*old(s), desired, config),
            handled,
        ),
    ensures
        *final(s) == *old(s),
        step == Step::<C>::Intent(handled),
        handled.persist is Some <==> old(s).has_backend,
        handled.mirror is Some <==> old(s).mobile is Some,
        handled.persist matches Some(change) ==> change.desired == desired && change.config
            == config,
        handled.mirror matches Some(change) ==> change.desired == desired && change.config == config,
{
}

/// Enabling recovery declares the service wanted with the given configuration,
/// disabling it declares it unwanted; neither starts or stops anything.
pub proof fn recovery_switch_declares_an_intent<C>(
    a: &mut ManagerState<C>,
    b: &mut ManagerState<C>,
    config: Option<StartConfig>,
    enable: Step<C>,
    disable: Step<C>,
)
    requires
        call_ensures(
            ManagerState::<C>::step,
            (a, ManagerCommand::EnableAutoRestart { config }),
            enable,
        ),
        call_ensures(ManagerState::<C>::step, (b, ManagerCommand::DisableAutoRestart), disable),
    ensures
        *final(a) == *old(a) && *final(b) == *old(b),
        enable matches Step::Intent(plan) && {
            &&& plan.persist is Some <==> old(a).has_backend
            &&& plan.mirror is Some <==> old(a).mobile is Some
            &&& plan.persist matches Some(change) ==> change.desired && change.config == config
            &&& plan.mirror matches Some(change) ==> change.desired && change.config == config
        },
        disable matches Step::Intent(plan) && {
            &&& plan.persist is Some <==> old(b).has_backend
            &&& plan.mirror is Some <==> old(b).mobile is Some
            &&& plan.persist matches Some(change) ==> !change.desired && change.config is None
            &&& plan.mirror matches Some(change) ==> !change.desired && change.config is None
        },
{
}

/// The handlers that switch recovery declare what the commands do.
pub proof fn recovery_switch_is_its_handlers<C>(
    s: ManagerState<C>,
    config: Option<StartConfig>,
    enabled: IntentPlan,
    disabled: IntentPlan,
)
    requires
        call_ensures(ManagerState::<C>::handle_enable_auto_restart, (&s, config), enabled),
        call_ensures(ManagerState::<C>::handle_disable_auto_restart, (&s,), disabled),
    ensures
        enabled.persist is Some <==> s.has_backend,
        enabled.mirror is Some <==> s.mobile is Some,
        enabled.persist matches Some(change) ==> change.desired && change.config == config,
        enabled.mirror matches Some(change) ==> change.desired && change.config == config,
        disabled.persist is Some <==> s.has_backend,
        disabled.mirror is Some <==> s.mobile is Some,
        disabled.persist matches Some(change) ==> !change.desired && change.config is None,
        disabled.mirror matches Some(change) ==> !change.desired && change.config is None,
{
}

/// A question is answered from the storage and the native side exactly where
/// there are such, and changes nothing.
pub proof fn questions_are_answered_from_what_there_is<C>(
    s: &mut ManagerState<C>,
    command: ManagerCommand<C>,
    step: Step<C>,
)
    requires
        call_ensures(ManagerState::<C>::step, (s, command), step),
    ensures
        command is IsRunning ==> *final(s) == *old(s) && (step matches Step::ReportRunning {
            ask_native,
        } && (ask_native <==> old(s).mobile is Some)),
        command is GetState ==> *final(s) == *old(s) && (step matches Step::ReportState { load }
            && load == old(s).has_backend),
        command is GetDesiredState ==> *final(s) == *old(s) && (step matches Step::ReportDesired {
            load,
        } && load == old(s).has_backend),
        command matches ManagerCommand::GetLifecycleStatus { desktop_mode: asked } ==> *final(s)
            == *old(s) && (step matches Step::ReportLifecycle { load, ask_native, desktop_mode }
            && load == old(s).has_backend && (ask_native <==> old(s).mobile is Some)
            && desktop_mode == asked),
{
}

/// A callback and a bridge are kept as given, and nothing else changes.
pub proof fn callback_and_bridge_are_kept<C>(
    a: &mut ManagerState<C>,
    b: &mut ManagerState<C>,
    callback: C,
    mobile: MobileBridge,
    set_callback: Step<C>,
    set_bridge: Step<C>,
)
    requires
        call_ensures(
            ManagerState::<C>::step,
            (a, ManagerCommand::SetOnComplete { callback }),
            set_callback,
        ),
        call_ensures(
            ManagerState::<C>::step,
            (b, ManagerCommand::SetMobile { mobile }),
            set_bridge,
        ),
    ensures
        set_callback is Done && set_bridge is Done,
        *final(a) == (ManagerState { on_complete: Some(callback), ..*old(a) }),
        *final(b) == (ManagerState { mobile: Some(mobile), ..*old(b) }),
{
}

/// There is something to drain exactly once a start has supplied an app.
pub proof fn drain_needs_an_app<C>(s: &mut ManagerState<C>, step: Step<C>, handled: Step<C>)
    requires
        call_ensures(ManagerState::<C>::step, (s, ManagerCommand::ShutdownGracefully), step),
        call_ensures(ManagerState::<C>::handle_shutdown_gracefully, (&*old(s),), handled),
    ensures
        *final(s) == *old(s),
        step is Drain <==> old(s).has_app,
        handled is Drain <==> old(s).has_app,
        !old(s).has_app ==> step == Step::<C>::Reply(Ok(())) && handled == Step::<C>::Reply(Ok(())),
{
}

// ─── Boot and the native side ──────────────────────────────────────────

/// At boot a desktop manager with an app, consent and storage starts a service
/// that is stored as wanted, with the stored configuration, if that can be
/// read; nothing else is started.
pub proof fn boot_starts_what_was_left_wanted<C>(
    s: ManagerState<C>,
    has_boot_app: bool,
    consent: bool,
    loaded: Option<DesiredState>,
    wanted: bool,
    config: Option<StartConfig>,
)
    requires
        call_ensures(ManagerState::<C>::wants_boot_replay, (&s, has_boot_app, consent), wanted),
        call_ensures(ManagerState::<C>::boot_replay, (&s, has_boot_app, consent, &loaded), config),
    ensures
        wanted <==> !(s.lifecycle_mode is AndroidForegroundService) && !(
        s.lifecycle_mode is IosBgTaskScheduler) && has_boot_app && consent && s.has_backend,
        config is Some <==> wanted && loaded is Some && loaded->Some_0.desired_running
            && loaded->Some_0.last_start_config is Some
            && loaded->Some_0.last_start_config->Some_0 is Config,
        config matches Some(c) ==> loaded->Some_0.last_start_config == Some(SavedConfig::Config(c)),
{
}

/// After a report of Android the manager believes what it says; where that is
/// news, the lifecycle state is running or stopped accordingly. A report of iOS,
/// or none, changes nothing. Nothing but belief and lifecycle state ever does.
pub proof fn belief_follows_the_report<C>(
    s: &mut ManagerState<C>,
    authority: Option<NativeAuthority>,
    diverged: bool,
    running: bool,
)
    requires
        call_ensures(ManagerState::<C>::diverges, (&*old(s), &authority), diverged),
        call_ensures(ManagerState::<C>::reconcile_running_with_native, (s, &authority), running),
    ensures
        running == final(s).is_running,
        *final(s) == (ManagerState {
            is_running: final(s).is_running,
            lifecycle_state: final(s).lifecycle_state,
            ..*old(s)
        }),
        match authority {
            Some(NativeAuthority::Android(ns)) => {
                &&& running == ns.native_running
                &&& diverged <==> ns.native_running != old(s).is_running
                &&& !diverged ==> *final(s) == *old(s)
                &&& diverged && ns.native_running ==> final(s).lifecycle_state
                    == ServiceState::Running
                &&& diverged && !ns.native_running ==> final(s).lifecycle_state
                    == ServiceState::Stopped
            },
            _ => !diverged && *final(s) == *old(s),
        },
{
}

} // verus!
