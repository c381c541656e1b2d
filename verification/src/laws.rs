//! Laws of the manager: what holds across commands, native reports and the
//! steps of service tasks.

use crate::config::StartConfig;
use crate::desired_state::{or_blank, DesiredChange, DesiredState};
use crate::error::ServiceError;
use crate::manager::{
    next_generation, DegradedEvent, ManagerCommand, ManagerState, NativeAuthority, Step, StopPlan,
};
use crate::models::{
    AndroidServiceState, LifecycleStatus, NativeLifecycleEvent, Platform, PlatformCapabilities,
    ServiceState, StopReason,
};
use crate::policy::{clears_desired, is_platform_pause};
use crate::status::Health;
use crate::task::{after_init, after_run, TaskStep, TaskStepView};
use crate::token::RunToken;
use crate::validator::DesktopProbe;
use vstd::prelude::*;

verus! {

// ─── The invariant ─────────────────────────────────────────────────────

/// Every command keeps the invariant.
pub proof fn commands_keep_invariant<C>(
    state: ManagerState<C>,
    command: ManagerCommand<C>,
    after: ManagerState<C>,
    step: Step<C>,
)
    requires
        state.well_formed(),
        state.leads_to(command, after, step),
    ensures
        after.well_formed(),
{
}

/// A start that is given up or goes on with degraded scheduling, a native
/// report, and a step of any task, current or stale, keep the invariant.
pub proof fn other_events_keep_invariant<C>(
    state: ManagerState<C>,
    on_complete: Option<C>,
    refusal: Option<String>,
    authority: Option<NativeAuthority>,
    generation: u64,
    task_step: TaskStep,
)
    requires
        state.well_formed(),
    ensures
        state.rolled_back(on_complete).well_formed(),
        (ManagerState { scheduling_degraded: refusal, ..state }).well_formed(),
        state.reconciled(authority).well_formed(),
        state.after_task_step(generation, task_step).well_formed(),
{
}

// ─── Starting and stopping ─────────────────────────────────────────────

/// While a run has a token, a start is refused as already running, whatever it
/// asks for, and nothing changes.
pub proof fn second_start_is_refused<C>(
    state: ManagerState<C>,
    config: StartConfig,
    after: ManagerState<C>,
    step: Step<C>,
)
    requires
        state.token is Some,
        state.leads_to(ManagerCommand::Start { config }, after, step),
    ensures
        step == Step::<C>::Reply(Err(ServiceError::AlreadyRunning)),
        after == state,
{
}

/// A start that was accepted can be stopped, and only once: the second stop
/// finds nothing running and changes nothing.
pub proof fn stop_ends_a_start_once<C>(
    state: ManagerState<C>,
    token: RunToken,
    first: StopReason,
    second: StopReason,
    after_first: ManagerState<C>,
    first_step: Step<C>,
    after_second: ManagerState<C>,
    second_step: Step<C>,
)
    requires
        state.begun(token).leads_to(
            ManagerCommand::StopWithReason { reason: first },
            after_first,
            first_step,
        ),
        after_first.leads_to(
            ManagerCommand::StopWithReason { reason: second },
            after_second,
            second_step,
        ),
    ensures
        first_step matches Step::Stop(plan) && plan.cancelled.token() == token.token(),
        !after_first.is_running,
        after_first.lifecycle_state is Stopped,
        second_step == Step::<C>::Reply(Err(ServiceError::NotRunning)),
        after_second == after_first,
{
}

/// What a stop cancels is what the service of the run was handed at its start.
pub proof fn stop_cancels_the_token_of_the_service<C>(
    state: ManagerState<C>,
    config: StartConfig,
    begun: ManagerState<C>,
    start: Step<C>,
    reason: StopReason,
    stopped: ManagerState<C>,
    stop: Step<C>,
)
    requires
        state.leads_to(ManagerCommand::Start { config }, begun, start),
        start is Start,
        begun.leads_to(ManagerCommand::StopWithReason { reason }, stopped, stop),
    ensures
        stop matches Step::Stop(plan) && plan.cancelled.token()
            == start->Start_0.shutdown.token(),
{
}

/// After a stop the same configuration can be started again, as a new run.
pub proof fn stop_allows_restart<C>(
    state: ManagerState<C>,
    config: StartConfig,
    begun: ManagerState<C>,
    start: Step<C>,
    reason: StopReason,
    stopped: ManagerState<C>,
    stop: Step<C>,
    restarted: ManagerState<C>,
    restart: Step<C>,
)
    requires
        state.leads_to(ManagerCommand::Start { config }, begun, start),
        start is Start,
        begun.leads_to(ManagerCommand::StopWithReason { reason }, stopped, stop),
        stopped.leads_to(ManagerCommand::Start { config }, restarted, restart),
    ensures
        restart is Start,
        restart->Start_0.generation != start->Start_0.generation,
        restarted.is_running,
{
}

/// A start that the native side refuses leaves nothing of the run behind: the
/// callback is back in place, no service is believed to run, and the same
/// configuration is accepted again.
pub proof fn refused_keepalive_undoes_start<C>(
    state: ManagerState<C>,
    config: StartConfig,
    begun: ManagerState<C>,
    start: Step<C>,
    retried: ManagerState<C>,
    retry: Step<C>,
)
    requires
        state.leads_to(ManagerCommand::Start { config }, begun, start),
        start is Start,
        begun.rolled_back(start->Start_0.on_complete).leads_to(
            ManagerCommand::Start { config },
            retried,
            retry,
        ),
    ensures
        begun.rolled_back(start->Start_0.on_complete) == (ManagerState {
            has_app: true,
            generation: next_generation(state.generation),
            is_running: false,
            lifecycle_state: ServiceState::Idle,
            last_error: None,
            scheduling_degraded: None,
            ..state
        }),
        retry is Start,
        retry->Start_0.on_complete == state.on_complete,
{
}

/// A running service may be given exactly the types that it could have been
/// started with, and is refused any other with the same message.
pub proof fn update_accepts_what_start_accepts<C>(
    state: ManagerState<C>,
    config: StartConfig,
    begun: ManagerState<C>,
    start: Step<C>,
    running: ManagerState<C>,
    updated: ManagerState<C>,
    update: Step<C>,
)
    requires
        state.token is None,
        state.leads_to(ManagerCommand::Start { config }, begun, start),
        running.token is Some,
        running.mobile == state.mobile,
        running.android_fg_service_types == state.android_fg_service_types,
        running.android_validate_fg_type == state.android_validate_fg_type,
        running.leads_to(
            ManagerCommand::UpdateForegroundServiceType {
                foreground_service_type: config.foreground_service_type,
            },
            updated,
            update,
        ),
    ensures
        start is Start <==> !(update matches Step::Reply(Err(_))),
        start matches Step::Reply(Err(refusal)) ==> (update matches Step::Reply(Err(other))
            && other.message_text() == refusal.message_text()),
        updated == running,
{
}

/// Where the OS does not enforce foreground service types, no type is refused
/// as unknown to Android, and no change of type reaches the native side.
pub proof fn types_are_an_android_matter<C>(
    state: ManagerState<C>,
    foreground_service_type: String,
    after: ManagerState<C>,
    step: Step<C>,
)
    requires
        !state.enforces_types(),
        state.leads_to(
            ManagerCommand::UpdateForegroundServiceType { foreground_service_type },
            after,
            step,
        ),
    ensures
        !(state.judge_type(foreground_service_type@) is Invalid),
        !(step is Forward),
{
}

/// A callback set while a service runs is for the next run: the run that was
/// started keeps the one that it took.
pub proof fn callback_is_captured_at_start<C>(
    state: ManagerState<C>,
    config: StartConfig,
    begun: ManagerState<C>,
    start: Step<C>,
    callback: C,
    changed: ManagerState<C>,
    set: Step<C>,
)
    requires
        state.leads_to(ManagerCommand::Start { config }, begun, start),
        start is Start,
        begun.leads_to(ManagerCommand::SetOnComplete { callback }, changed, set),
    ensures
        start->Start_0.on_complete == state.on_complete,
        begun.on_complete is None,
        changed == (ManagerState { on_complete: Some(callback), ..begun }),
{
}

/// No command but a start, a stop, a native event, or the setting of the
/// callback or the bridge changes the manager; in particular none that only
/// declares an intent or asks a question.
pub proof fn intents_and_queries_change_nothing<C>(
    state: ManagerState<C>,
    command: ManagerCommand<C>,
    after: ManagerState<C>,
    step: Step<C>,
)
    requires
        state.leads_to(command, after, step),
        !(command is Start),
        !(command is Stop),
        !(command is StopWithReason),
        !(command is NativeLifecycleEvent),
        !(command is SetOnComplete),
        !(command is SetMobile),
    ensures
        after == state,
{
}

/// Without a native bridge a call for the native side succeeds and does
/// nothing.
pub proof fn native_calls_need_a_bridge<C>(
    state: ManagerState<C>,
    command: ManagerCommand<C>,
    after: ManagerState<C>,
    step: Step<C>,
)
    requires
        state.leads_to(command, after, step),
        state.mobile is None,
        command is NotifyIncomingCall || command is NotifyMessage || command is CancelIncomingCall
            || command is SetCallAudioRoute || command is OpenAppSettings,
    ensures
        step == Step::<C>::Reply(Ok(())),
        after == state,
{
}

// ─── What a stop means for recovery ────────────────────────────────────

/// A stop saves that the service is no longer wanted exactly if it is meant to
/// last; after every other stop the stored intent survives untouched.
pub proof fn desired_state_follows_reason<C>(
    state: ManagerState<C>,
    reason: StopReason,
    plan: StopPlan,
)
    requires
        state.is_stop_plan(reason, plan),
    ensures
        plan.persist is Some <==> clears_desired(reason) && state.has_backend,
        plan.persist matches Some(change) ==> !change.desired && change.config is None,
        plan.resubmit ==> plan.persist is None && !plan.stop_keepalive,
{
}

/// A stop by the platform or by the exit of the process leaves the native
/// schedule in place, and so does every stop without a bridge.
pub proof fn keepalive_survives_platform_stops<C>(
    state: ManagerState<C>,
    reason: StopReason,
    plan: StopPlan,
)
    requires
        state.is_stop_plan(reason, plan),
        is_platform_pause(reason) || reason is ProcessExit || state.mobile is None,
    ensures
        !plan.stop_keepalive,
{
}

/// The notification that delivery is paused goes out only where it is enabled,
/// and only for a stop after which the stored intent survives.
pub proof fn pause_notice_keeps_intent<C>(state: ManagerState<C>, reason: StopReason, plan: StopPlan)
    requires
        state.is_stop_plan(reason, plan),
        plan.notice is Some,
    ensures
        state.notifier_policy.on_timeout,
        plan.persist is None,
        !plan.stop_keepalive,
{
}

/// The acceptance of a restart by the native side is no stop: the run goes on.
pub proof fn accepted_recovery_is_no_stop<C>(
    state: ManagerState<C>,
    event: NativeLifecycleEvent,
    after: ManagerState<C>,
    step: Step<C>,
)
    requires
        state.leads_to(ManagerCommand::NativeLifecycleEvent { event }, after, step),
        event.accepts_recovery(),
    ensures
        after == state,
        !(step is Stop),
{
}

/// What is stored after a plan's change, if it has one, was saved at `now_ms`.
pub open spec fn stored_after(
    stored: DesiredState,
    change: Option<DesiredChange>,
    now_ms: u64,
) -> DesiredState {
    match change {
        Some(c) => stored.changed(c, now_ms),
        None => stored,
    }
}

/// A service that was started and then stopped by the platform, by an error or
/// by the exit of the process is started again at boot with the configuration
/// it had; one whose stop was meant to last is not.
pub proof fn recovery_follows_intent<C>(
    state: ManagerState<C>,
    config: StartConfig,
    before: Option<DesiredState>,
    started_ms: u64,
    reason: StopReason,
    plan: StopPlan,
    stopped_ms: u64,
    rebooted: ManagerState<C>,
)
    requires
        state.has_backend,
        state.is_stop_plan(reason, plan),
        rebooted.may_replay(true, true),
    ensures
        ({
            let started = stored_after(
                or_blank(before),
                state.persisted(DesiredChange { desired: true, config: Some(config) }),
                started_ms,
            );
            let stopped = stored_after(started, plan.persist, stopped_ms);
            rebooted.replayed(true, true, Some(stopped)) == (if clears_desired(reason) {
                None
            } else {
                Some(config)
            })
        }),
{
}

/// A status shows what was started: once the start is saved the service is
/// reported as wanted, with its configuration, in both forms of the status;
/// once a lasting stop is saved it is reported as not wanted, without one.
pub proof fn status_shows_the_saved_intent<C>(
    state: ManagerState<C>,
    stored: DesiredState,
    config: StartConfig,
    now_ms: u64,
    authority: Option<NativeAuthority>,
    platform: Platform,
    capabilities: PlatformCapabilities,
    probe: Option<DesktopProbe>,
    while_wanted: LifecycleStatus,
    while_unwanted: LifecycleStatus,
)
    requires
        state.is_lifecycle_status(
            Some(stored.changed(DesiredChange { desired: true, config: Some(config) }, now_ms)),
            authority,
            platform,
            capabilities,
            probe,
            while_wanted,
        ),
        state.is_lifecycle_status(
            Some(stored.changed(DesiredChange { desired: false, config: None }, now_ms)),
            authority,
            platform,
            capabilities,
            probe,
            while_unwanted,
        ),
    ensures
        ({
            let wanted = stored.changed(
                DesiredChange { desired: true, config: Some(config) },
                now_ms,
            );
            let unwanted = stored.changed(DesiredChange { desired: false, config: None }, now_ms);
            &&& state.status(Some(wanted)).desired_running == Some(true)
            &&& state.status(Some(wanted)).last_start_config == Some(config)
            &&& while_wanted.desired_running && while_wanted.recovery_enabled
            &&& while_wanted.last_start_config == Some(config)
            &&& state.status(Some(unwanted)).desired_running == Some(false)
            &&& state.status(Some(unwanted)).last_start_config is None
            &&& state.status(Some(unwanted)).restart_attempt is None
            &&& state.status(Some(unwanted)).recovery_reason is None
            &&& !while_unwanted.desired_running && !while_unwanted.recovery_enabled
            &&& while_unwanted.last_start_config is None
        }),
{
}

/// Nothing is started at boot without the user's consent, without an app, on a
/// mobile platform, or where nothing is stored.
pub proof fn boot_replay_needs_consent<C>(
    state: ManagerState<C>,
    has_boot_app: bool,
    consent: bool,
    loaded: Option<DesiredState>,
)
    requires
        !consent || !has_boot_app || loaded is None
            || state.lifecycle_mode is AndroidForegroundService
            || state.lifecycle_mode is IosBgTaskScheduler,
    ensures
        state.replayed(has_boot_app, consent, loaded) is None,
{
}

// ─── Service tasks ─────────────────────────────────────────────────────

/// A task whose run is no longer the latest changes nothing.
pub proof fn stale_tasks_change_nothing<C>(
    state: ManagerState<C>,
    generation: u64,
    task_step: TaskStep,
)
    requires
        state.generation != generation,
    ensures
        state.after_task_step(generation, task_step) == state,
{
}

/// Once a run was stopped and another started, nothing that the first run's
/// task still does touches the second run.
pub proof fn restart_is_safe_from_old_task<C>(
    state: ManagerState<C>,
    first: RunToken,
    second: RunToken,
    task_step: TaskStep,
)
    ensures
        ({
            let first_run = state.begun(first);
            let second_run = first_run.stopped().begun(second);
            second_run.after_task_step(first_run.generation, task_step) == second_run
        }),
{
}

/// Once the task of the latest run is over, no service is believed to run, a
/// stop finds nothing to stop, and an error of the run is remembered.
pub proof fn finished_run_is_over<C>(
    state: ManagerState<C>,
    error: Option<String>,
    reason: StopReason,
    after: ManagerState<C>,
    step: Step<C>,
)
    requires
        state.finished(state.generation, error).leads_to(
            ManagerCommand::StopWithReason { reason },
            after,
            step,
        ),
    ensures
        ({
            let over = state.finished(state.generation, error);
            &&& !over.is_running
            &&& !(over.lifecycle_state is Initializing) && !(over.lifecycle_state is Running)
            &&& error is Some ==> over.last_error == error
            &&& error is None ==> over.last_error == state.last_error
            &&& step == Step::<C>::Reply(Err(ServiceError::NotRunning))
            &&& after == over
        }),
{
}

/// A run that initialises and ends passes through initialising, running and
/// stopped.
pub proof fn run_passes_through_its_states<C>(
    state: ManagerState<C>,
    token: RunToken,
    error: Option<String>,
)
    ensures
        ({
            let begun = state.begun(token);
            let running = begun.initialised(begun.generation);
            let over = running.finished(begun.generation, error);
            &&& begun.lifecycle_state is Initializing && begun.is_running
            &&& running.lifecycle_state is Running && running.is_running
            &&& over.lifecycle_state is Stopped && !over.is_running
        }),
{
}

/// However a run ends, its callback fires exactly once, with success only if
/// the service ran to its end without an error; after a run it fires before
/// the manager learns that the run is over.
pub proof fn callback_fires_once(outcome: Result<(), ServiceError>)
    ensures
        forall|i: int|
            0 <= i < after_run(outcome).len() ==> (after_run(outcome)[i] is Complete <==> i == 1),
        after_run(outcome)[1] == (TaskStepView::Complete { success: outcome is Ok }),
        forall|i: int|
            0 <= i < after_run(outcome).len() ==> (after_run(outcome)[i] is Finished <==> i == 2),
        outcome is Err ==> forall|i: int|
            0 <= i < after_init(outcome).len() ==> (after_init(outcome)[i] is Complete <==> i == 2),
        outcome is Err ==> after_init(outcome)[2] == (TaskStepView::Complete { success: false }),
        outcome is Ok ==> forall|i: int|
            0 <= i < after_init(outcome).len() ==> !(after_init(outcome)[i] is Complete),
{
}

// ─── Following the native side ─────────────────────────────────────────

/// After a report of the Android service the manager believes what it says.
pub proof fn belief_follows_android<C>(state: ManagerState<C>, ns: AndroidServiceState)
    ensures
        state.reconciled(Some(NativeAuthority::Android(ns))).is_running == ns.native_running,
{
}

/// Without a report, and on iOS, the manager keeps its belief.
pub proof fn belief_stays_elsewhere<C>(state: ManagerState<C>, authority: Option<NativeAuthority>)
    requires
        !(authority is Some && authority->Some_0 is Android),
    ensures
        state.reconciled(authority) == state,
{
}

/// The manager changes on a report exactly if the report diverges from its
/// belief; once it has followed, the same report diverges no more.
pub proof fn only_a_divergence_changes_the_manager<C>(
    state: ManagerState<C>,
    authority: Option<NativeAuthority>,
)
    ensures
        state.reconciled(authority) != state <==> state.diverges_from(authority),
        !state.reconciled(authority).diverges_from(authority),
{
}

/// Following the same report again changes nothing more.
pub proof fn following_is_idempotent<C>(state: ManagerState<C>, authority: Option<NativeAuthority>)
    ensures
        state.reconciled(authority).reconciled(authority) == state.reconciled(authority),
{
}

/// Following the native side touches only the belief and the lifecycle state:
/// a run can still be stopped, and a task is still current, as before.
pub proof fn following_keeps_the_run<C>(state: ManagerState<C>, authority: Option<NativeAuthority>)
    ensures
        state.reconciled(authority) == (ManagerState {
            is_running: state.reconciled(authority).is_running,
            lifecycle_state: state.reconciled(authority).lifecycle_state,
            ..state
        }),
{
}

/// A service that stopped behind the manager's back is reported as impaired
/// once: the next status no longer says so.
pub proof fn native_stop_is_reported_once<C>(
    state: ManagerState<C>,
    authority: Option<NativeAuthority>,
)
    requires
        state.health(authority) is NativeStopped,
    ensures
        !(state.reconciled(authority).health(authority) is NativeStopped),
        !state.reconciled(authority).is_running,
{
}

/// What is left of the impairment when a service stopped behind the manager's
/// back and the manager has followed: a timeout of an earlier session, else a
/// refusal of scheduling at start, else nothing.
pub proof fn healed_belief_leaves_other_problems<C>(state: ManagerState<C>, ns: AndroidServiceState)
    requires
        state.health(Some(NativeAuthority::Android(ns))) is NativeStopped,
    ensures
        ({
            let authority = Some(NativeAuthority::Android(ns));
            state.reconciled(authority).health(authority) == (if ns.durable_state@ == "timeout"@ {
                Health::StaleTimeout
            } else if state.scheduling_degraded is Some {
                Health::SchedulingDegraded
            } else {
                Health::Healthy
            })
        }),
{
}

/// Two status queries in a row with the same answers from outside report the
/// same lifecycle state.
pub proof fn status_is_stable<C>(
    state: ManagerState<C>,
    loaded: Option<DesiredState>,
    authority: Option<NativeAuthority>,
    platform: Platform,
    capabilities: PlatformCapabilities,
    probe: Option<DesktopProbe>,
    first: LifecycleStatus,
    second: LifecycleStatus,
)
    requires
        state.is_lifecycle_status(loaded, authority, platform, capabilities, probe, first),
        state.reconciled(authority).is_lifecycle_status(
            loaded,
            authority,
            platform,
            capabilities,
            probe,
            second,
        ),
    ensures
        second.state == first.state,
        second.native_running == first.native_running,
        second.desired_running == first.desired_running,
        second.adopted != Some(true),
{
}

/// A status names a reason exactly if it says that delivery is impaired, and an
/// event announces exactly that.
pub proof fn impairment_has_a_reason<C>(
    state: ManagerState<C>,
    loaded: Option<DesiredState>,
    authority: Option<NativeAuthority>,
    platform: Platform,
    capabilities: PlatformCapabilities,
    probe: Option<DesktopProbe>,
    status: LifecycleStatus,
    event: Option<DegradedEvent>,
)
    requires
        state.is_lifecycle_status(loaded, authority, platform, capabilities, probe, status),
        state.is_status_event(authority, event),
    ensures
        status.degraded == Some(true) <==> status.degraded_reason is Some,
        event is Some <==> status.degraded == Some(true) && state.has_app,
{
}

/// A native service that waits for setup or for an unlock, and that the manager
/// does not wrongly believe to run, is healthy: waiting for the user is no
/// impairment.
pub proof fn waiting_for_the_user_is_healthy<C>(state: ManagerState<C>, ns: AndroidServiceState)
    requires
        ns.durable_state@ == "setup_idle"@ || ns.durable_state@ == "locked_idle"@,
        ns.native_running || !state.is_running,
        state.scheduling_degraded is None,
    ensures
        state.health(Some(NativeAuthority::Android(ns))) == Health::Healthy,
{
    reveal_strlit("setup_idle");
    reveal_strlit("locked_idle");
    reveal_strlit("timeout");
    assert("setup_idle"@.len() == 10 && "locked_idle"@.len() == 11 && "timeout"@.len() == 7);
}

/// A refusal of scheduling at start is reported until the run is stopped or
/// another start is accepted, unless the native side reports something worse;
/// after a stop it is gone.
pub proof fn degraded_scheduling_lasts_for_the_run<C>(
    state: ManagerState<C>,
    authority: Option<NativeAuthority>,
    token: RunToken,
)
    requires
        state.scheduling_degraded is Some,
    ensures
        state.health(authority).impaired(),
        authority is None ==> state.health(authority) is SchedulingDegraded,
        !(state.stopped().health(authority) is SchedulingDegraded),
        !(state.begun(token).health(authority) is SchedulingDegraded),
{
}

} // verus!
