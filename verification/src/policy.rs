//! What each stop reason means for the desired state, the keepalive and the
//! notifications.

use crate::desired_state::DesiredState;
use crate::models::StopReason;
use vstd::prelude::*;

verus! {

/// Whether a stop is meant to last: the service is no longer wanted after it.
pub open spec fn clears_desired(reason: StopReason) -> bool {
    reason is UserStop || reason is AppStop || reason is NativeNotificationStop
        || reason is TaskCompleted
}

/// Whether the platform itself paused the service.
pub open spec fn is_platform_pause(reason: StopReason) -> bool {
    reason is PlatformTimeout || reason is PlatformExpiration
}

/// Whether a stop takes down what keeps the process alive. It does not where
/// the OS paused or ends the process: the schedule must survive for recovery.
pub open spec fn stops_keepalive(reason: StopReason) -> bool {
    !is_platform_pause(reason) && !(reason is ProcessExit)
}

/// Whether native scheduling has to be submitted again after a stop.
pub open spec fn resubmits(reason: StopReason) -> bool {
    reason is PlatformTimeout
}

/// Whether the service is started again at boot.
pub fn should_replay_on_boot(ds: &DesiredState) -> (replay: bool)
    ensures
        replay == ds.desired_running,
{
    ds.desired_running
}

/// Whether a stop clears the desired state. Stops that the user or the app
/// asked for do, so that recovery does not fight them; platform timeouts,
/// errors and exits do not, so that recovery can restart the service.
pub fn should_clear_desired_state(reason: StopReason) -> (clear: bool)
    ensures
        clear == clears_desired(reason),
{
    match reason {
        StopReason::UserStop => true,
        StopReason::AppStop => true,
        StopReason::NativeNotificationStop => true,
        StopReason::TaskCompleted => true,
        _ => false,
    }
}

/// Whether the "paused, will resume" notification fits a stop: a platform pause
/// after which the service is still wanted.
pub fn should_notify_timeout(reason: StopReason) -> (notify: bool)
    ensures
        notify == is_platform_pause(reason),
{
    !should_clear_desired_state(reason) && match reason {
        StopReason::PlatformTimeout => true,
        StopReason::PlatformExpiration => true,
        _ => false,
    }
}

/// Whether a stop takes down what keeps the process alive.
pub fn should_stop_keepalive(reason: StopReason) -> (stop: bool)
    ensures
        stop == stops_keepalive(reason),
{
    match reason {
        StopReason::PlatformExpiration => false,
        StopReason::PlatformTimeout => false,
        StopReason::ProcessExit => false,
        _ => true,
    }
}

/// Whether native scheduling has to be submitted again after a stop.
pub fn should_reconcile_resubmit(reason: StopReason) -> (resubmit: bool)
    ensures
        resubmit == resubmits(reason),
{
    match reason {
        StopReason::PlatformTimeout => true,
        _ => false,
    }
}

/// A stop that is meant to last also takes down the keepalive.
pub proof fn lasting_stops_end_keepalive(reason: StopReason)
    requires
        clears_desired(reason),
    ensures
        stops_keepalive(reason),
{
}

/// The "paused, will resume" notification is never posted for a stop after
/// which the service does not resume or whose schedule was taken down.
pub proof fn pause_notice_promises_resumption(reason: StopReason)
    requires
        is_platform_pause(reason),
    ensures
        !clears_desired(reason),
        !stops_keepalive(reason),
{
}

/// Scheduling is submitted again only where the service is still wanted and
/// its schedule was not taken down.
pub proof fn resubmission_keeps_schedule(reason: StopReason)
    requires
        resubmits(reason),
    ensures
        !clears_desired(reason),
        !stops_keepalive(reason),
        is_platform_pause(reason),
{
}

/// What each stop reason means, reason by reason: whether the service is still
/// wanted, whether its keepalive goes, whether a pause is announced, and whether
/// scheduling is submitted again.
pub proof fn meaning_of_the_reasons(
    reason: StopReason,
    clear: bool,
    stop: bool,
    notify: bool,
    resubmit: bool,
)
    requires
        call_ensures(should_clear_desired_state, (reason,), clear),
        call_ensures(should_stop_keepalive, (reason,), stop),
        call_ensures(should_notify_timeout, (reason,), notify),
        call_ensures(should_reconcile_resubmit, (reason,), resubmit),
    ensures
        reason is UserStop ==> clear && stop && !notify && !resubmit,
        reason is AppStop ==> clear && stop && !notify && !resubmit,
        reason is NativeNotificationStop ==> clear && stop && !notify && !resubmit,
        reason is TaskCompleted ==> clear && stop && !notify && !resubmit,
        reason is PlatformTimeout ==> !clear && !stop && notify && resubmit,
        reason is PlatformExpiration ==> !clear && !stop && notify && !resubmit,
        reason is OsRestart ==> !clear && stop && !notify && !resubmit,
        reason is BootRecovery ==> !clear && stop && !notify && !resubmit,
        reason is Error ==> !clear && stop && !notify && !resubmit,
        reason is ProcessExit ==> !clear && !stop && !notify && !resubmit,
{
}

/// A service is started again at boot exactly if it was left wanted.
pub proof fn boot_follows_the_stored_intent(ds: DesiredState, replay: bool)
    requires
        call_ensures(should_replay_on_boot, (&ds,), replay),
    ensures
        replay == ds.desired_running,
{
}

} // verus!
