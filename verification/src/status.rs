//! The lifecycle status: what the manager, the stored desired state and the
//! native side say together.

use crate::desired_state::DesiredState;
use crate::manager::{DegradedEvent, ManagerState, NativeAuthority};
use crate::models::{
    AndroidServiceState, IosNativeState, LifecycleState, LifecycleStatus, Platform,
    PlatformCapabilities,
};
use crate::text::{copy_text, opt_text, str_eq};
use crate::validator::{platform_report, rated_views, DesktopProbe, SetupValidator};
use vstd::prelude::*;

verus! {

/// How background delivery fares.
#[derive(Debug, Clone, Copy, PartialEq, Eq, Structural)]
pub enum Health {
    /// No native side reports anything.
    Unknown,
    /// Nothing impairs it.
    Healthy,
    /// The Android service had stopped while the manager believed it running.
    NativeStopped,
    /// The Android service timed out in this session.
    NativeTimeout,
    /// The Android service timed out in an earlier session.
    StaleTimeout,
    /// iOS refused to schedule a background task.
    IosSchedulingError,
    /// iOS has no budget left for a service that is wanted.
    IosOutOfBudget,
    /// Background scheduling was refused at start; the service runs in the
    /// foreground only.
    SchedulingDegraded,
}

impl Health {
    /// Whether delivery is known to be impaired.
    pub open spec fn impaired(self) -> bool {
        !(self is Unknown) && !(self is Healthy)
    }

    /// Whether delivery is impaired, where anything is known of it.
    pub open spec fn flag(self) -> Option<bool> {
        if self is Unknown {
            None
        } else {
            Some(self.impaired())
        }
    }

    /// The name of what impairs delivery.
    pub open spec fn reason_text(self) -> Option<Seq<char>> {
        match self {
            Health::Unknown => None,
            Health::Healthy => None,
            Health::NativeStopped => Some("native_stopped_rust_running"@),
            Health::NativeTimeout => Some("native_timeout"@),
            Health::StaleTimeout => Some("stale_timeout"@),
            Health::IosSchedulingError => Some("ios_scheduling_error"@),
            Health::IosOutOfBudget => Some("ios_out_of_budget"@),
            Health::SchedulingDegraded => Some("scheduling_degraded_foreground_only"@),
        }
    }

    /// Whether delivery is impaired, where anything is known of it.
    pub fn degraded(self) -> (flag: Option<bool>)
        ensures
            flag == self.flag(),
    {
        match self {
            Health::Unknown => None,
            Health::Healthy => Some(false),
            _ => Some(true),
        }
    }

    /// The name of what impairs delivery.
    pub fn reason(self) -> (name: Option<String>)
        ensures
            opt_text(name) == self.reason_text(),
    {
        match self {
            Health::Unknown => None,
            Health::Healthy => None,
            Health::NativeStopped => Some("native_stopped_rust_running".to_owned()),
            Health::NativeTimeout => Some("native_timeout".to_owned()),
            Health::StaleTimeout => Some("stale_timeout".to_owned()),
            Health::IosSchedulingError => Some("ios_scheduling_error".to_owned()),
            Health::IosOutOfBudget => Some("ios_out_of_budget".to_owned()),
            Health::SchedulingDegraded => Some("scheduling_degraded_foreground_only".to_owned()),
        }
    }
}

impl AndroidServiceState {
    /// What the Android service says of delivery, to a manager that believes
    /// the service to run or not.
    pub open spec fn health(self, believed_running: bool) -> Health {
        if !self.native_running && believed_running {
            Health::NativeStopped
        } else if self.durable_state@ == "timeout"@ {
            if believed_running {
                Health::NativeTimeout
            } else {
                Health::StaleTimeout
            }
        } else {
            Health::Healthy
        }
    }

    /// Whether a manager with the given belief takes over the running service;
    /// unknown where the service had stopped behind its back.
    pub open spec fn adoption(self, believed_running: bool) -> Option<bool> {
        if self.native_running && !believed_running {
            Some(true)
        } else if !self.native_running && believed_running {
            None
        } else {
            Some(false)
        }
    }

    fn judge(&self, believed_running: bool) -> (health: Health)
        ensures
            health == self.health(believed_running),
    {
        if !self.native_running && believed_running {
            Health::NativeStopped
        } else if str_eq(self.durable_state.as_str(), "timeout") {
            if believed_running {
                Health::NativeTimeout
            } else {
                Health::StaleTimeout
            }
        } else {
            Health::Healthy
        }
    }
}

impl IosNativeState {
    /// The scheduling error to report; that of the refresh task comes first.
    pub open spec fn schedule_error(self) -> Option<String> {
        match self.last_refresh_error {
            Some(error) => Some(error),
            None => self.last_processing_error,
        }
    }

    /// What iOS says of delivery.
    pub open spec fn health(self) -> Health {
        if self.schedule_error() is Some {
            Health::IosSchedulingError
        } else if self.desired_running && !self.in_budget {
            Health::IosOutOfBudget
        } else {
            Health::Healthy
        }
    }

    /// The name of what the background tasks are at.
    pub open spec fn phase_text(self) -> Seq<char> {
        if self.active_task_kind is Some {
            "running"@
        } else if self.pending_task is Some {
            "pendingBgTask"@
        } else if self.desired_running {
            "waitingForBgTask"@
        } else {
            "stopped"@
        }
    }

    fn error_to_report(&self) -> (error: Option<String>)
        ensures
            error == self.schedule_error(),
    {
        match &self.last_refresh_error {
            Some(error) => Some(error.clone()),
            None => copy_text(&self.last_processing_error),
        }
    }

    fn judge(&self) -> (health: Health)
        ensures
            health == self.health(),
    {
        if self.last_refresh_error.is_some() || self.last_processing_error.is_some() {
            Health::IosSchedulingError
        } else if self.desired_running && !self.in_budget {
            Health::IosOutOfBudget
        } else {
            Health::Healthy
        }
    }

    fn phase(&self) -> (name: String)
        ensures
            name@ == self.phase_text(),
    {
        if self.active_task_kind.is_some() {
            "running".to_owned()
        } else if self.pending_task.is_some() {
            "pendingBgTask".to_owned()
        } else if self.desired_running {
            "waitingForBgTask".to_owned()
        } else {
            "stopped".to_owned()
        }
    }
}

/// The report of the Android service, if that is what the native side gave.
pub open spec fn android_part(authority: Option<NativeAuthority>) -> Option<AndroidServiceState> {
    match authority {
        Some(NativeAuthority::Android(ns)) => Some(ns),
        _ => None,
    }
}

/// The report of iOS, if that is what the native side gave.
pub open spec fn ios_part(authority: Option<NativeAuthority>) -> Option<IosNativeState> {
    match authority {
        Some(NativeAuthority::Ios(ios)) => Some(ios),
        _ => None,
    }
}

/// Whether the native side runs the service: on iOS, whether a background task
/// is executing.
pub open spec fn native_running_of(authority: Option<NativeAuthority>) -> Option<bool> {
    match authority {
        Some(NativeAuthority::Android(ns)) => Some(ns.native_running),
        Some(NativeAuthority::Ios(ios)) => Some(ios.active_task_kind is Some),
        None => None,
    }
}

/// Whether the native service is in the foreground; a background task of iOS
/// never is.
pub open spec fn native_foreground_of(authority: Option<NativeAuthority>) -> Option<bool> {
    match authority {
        Some(NativeAuthority::Android(ns)) => Some(ns.native_foreground),
        Some(NativeAuthority::Ios(_)) => Some(false),
        None => None,
    }
}

/// The lifecycle state to report for a state of the manager. Android may report
/// that it waits for the user; on iOS a service that is neither wanted nor
/// executing has stopped, whatever the manager still believes.
pub open spec fn reported_state(
    state: LifecycleState,
    authority: Option<NativeAuthority>,
) -> LifecycleState {
    match authority {
        Some(NativeAuthority::Android(ns)) => if ns.durable_state@ == "setup_idle"@ {
            LifecycleState::SetupIdle
        } else if ns.durable_state@ == "locked_idle"@ {
            LifecycleState::LockedIdle
        } else {
            state
        },
        Some(NativeAuthority::Ios(ios)) => if ios.active_task_kind is None && !ios.desired_running {
            LifecycleState::Stopped
        } else {
            state
        },
        None => state,
    }
}

impl<C> ManagerState<C> {
    /// How background delivery fares. What the native side reports comes first;
    /// if that is nothing bad, a refusal of scheduling at start counts.
    pub open spec fn health(self, authority: Option<NativeAuthority>) -> Health {
        let native = match authority {
            Some(NativeAuthority::Android(ns)) => ns.health(self.is_running),
            Some(NativeAuthority::Ios(ios)) => ios.health(),
            None => Health::Unknown,
        };
        if !native.impaired() && self.scheduling_degraded is Some {
            Health::SchedulingDegraded
        } else {
            native
        }
    }

    /// The platform error to report: the scheduling error of iOS, else the
    /// refusal of scheduling at start where that is what impairs delivery, else
    /// the stored one.
    pub open spec fn platform_error(
        self,
        loaded: Option<DesiredState>,
        authority: Option<NativeAuthority>,
    ) -> Option<String> {
        match self.health(authority) {
            Health::IosSchedulingError => ios_part(authority)->Some_0.schedule_error(),
            Health::SchedulingDegraded => self.scheduling_degraded,
            _ => match loaded {
                Some(ds) => ds.last_platform_error,
                None => None,
            },
        }
    }

    /// Whether a status is the one owed for this state, the stored desired
    /// state and the report of the native side. `platform`, `capabilities` and
    /// `probe` describe the system.
    pub open spec fn is_lifecycle_status(
        self,
        loaded: Option<DesiredState>,
        authority: Option<NativeAuthority>,
        platform: Platform,
        capabilities: PlatformCapabilities,
        probe: Option<DesktopProbe>,
        status: LifecycleStatus,
    ) -> bool {
        // from the manager, after it followed the native side
        &&& status.state == reported_state(
            self.reconciled(authority).lifecycle_state.to_lifecycle(),
            authority,
        )
        &&& status.last_error == self.last_error
        // from the stored desired state
        &&& status.desired_running == (loaded is Some && loaded->Some_0.desired_running)
        &&& status.recovery_enabled == status.desired_running
        &&& status.recovery_reason == (match loaded {
            Some(ds) => ds.recovery_reason,
            None => None,
        })
        &&& status.last_start_config == (match loaded {
            Some(ds) => ds.config(),
            None => None,
        })
        // from the desired state and the native side
        &&& status.recovery_pending == ((loaded is Some && loaded->Some_0.recovery_pending) || (
        android_part(authority) is Some && android_part(authority)->Some_0.recovery_pending))
        &&& opt_text(status.last_platform_state) == (match ios_part(authority) {
            Some(ios) => Some(ios.phase_text()),
            None => match loaded {
                Some(ds) => opt_text(ds.last_native_state),
                None => None,
            },
        })
        &&& status.last_platform_error == self.platform_error(loaded, authority)
        // from the native side
        &&& status.native_running == native_running_of(authority)
        &&& status.native_foreground == native_foreground_of(authority)
        &&& status.adopted == (match android_part(authority) {
            Some(ns) => ns.adoption(self.is_running),
            None => None,
        })
        &&& status.degraded == self.health(authority).flag()
        &&& opt_text(status.degraded_reason) == self.health(authority).reason_text()
        &&& status.data_dir == (match android_part(authority) {
            Some(ns) => Some(ns.data_dir),
            None => None,
        })
        // from the system
        &&& status.platform == platform
        &&& status.capabilities == capabilities
        &&& rated_views(status.issues@) == platform_report(platform, probe).issues
    }

    /// Whether an event is the one owed with a status: an impairment is
    /// announced, once an app is known to announce it on.
    pub open spec fn is_status_event(
        self,
        authority: Option<NativeAuthority>,
        event: Option<DegradedEvent>,
    ) -> bool {
        &&& event is Some <==> self.health(authority).impaired() && self.has_app
        &&& event matches Some(e) ==> {
            &&& e matches DegradedEvent::Status { reason, native_running, rust_running }
            &&& opt_text(reason) == self.health(authority).reason_text()
            &&& native_running == native_running_of(authority)
            &&& rust_running == self.is_running
        }
    }

    fn judge(&self, authority: &Option<NativeAuthority>) -> (health: Health)
        ensures
            health == self.health(*authority),
    {
        let native = match authority {
            Some(NativeAuthority::Android(ns)) => ns.judge(self.is_running),
            Some(NativeAuthority::Ios(ios)) => ios.judge(),
            None => Health::Unknown,
        };
        let impaired: bool = match native {
            Health::Unknown => false,
            Health::Healthy => false,
            _ => true,
        };
        if !impaired && self.scheduling_degraded.is_some() {
            Health::SchedulingDegraded
        } else {
            native
        }
    }

    /// Composes the lifecycle status and follows the native side where that is
    /// the authority. `loaded` is the stored desired state, `authority` the
    /// report of the native side; each is missing where it could not be had.
    ///
    /// Returned with the status is the event that announces an impairment.
    pub fn build_lifecycle_status(
        &mut self,
        loaded: &Option<DesiredState>,
        authority: &Option<NativeAuthority>,
        platform: Platform,
        capabilities: PlatformCapabilities,
        probe: Option<DesktopProbe>,
    ) -> (answer: (LifecycleStatus, Option<DegradedEvent>))
        ensures
            old(self).well_formed() ==> final(self).well_formed(),
            *final(self) == old(self).reconciled(*authority),
            old(self).is_lifecycle_status(
                *loaded,
                *authority,
                platform,
                capabilities,
                probe,
                answer.0,
            ),
            old(self).is_status_event(*authority, answer.1),
    {
        let rust_running: bool = self.is_running;
        let health = self.judge(authority);

        // what is stored
        let mut desired_running: bool = false;
        let mut recovery_pending: bool = false;
        let mut recovery_reason: Option<String> = None;
        let mut last_start_config = None;
        let mut last_platform_state: Option<String> = None;
        let mut last_platform_error: Option<String> = None;
        if let Some(ds) = loaded {
            desired_running = ds.desired_running;
            recovery_pending = ds.recovery_pending;
            recovery_reason = copy_text(&ds.recovery_reason);
            last_start_config = ds.start_config();
            last_platform_state = copy_text(&ds.last_native_state);
            last_platform_error = copy_text(&ds.last_platform_error);
        }
        // what the native side reports

        let mut native_running: Option<bool> = None;
        let mut native_foreground: Option<bool> = None;
        let mut adopted: Option<bool> = None;
        let mut data_dir: Option<String> = None;
        match authority {
            Some(NativeAuthority::Android(ns)) => {
                native_running = Some(ns.native_running);
                native_foreground = Some(ns.native_foreground);
                let diverged: bool = self.converge(ns.native_running);
                adopted = if !diverged {
                    Some(false)
                } else if ns.native_running {
                    Some(true)
                } else {
                    None
                };
                recovery_pending = recovery_pending || ns.recovery_pending;
                data_dir = Some(ns.data_dir.clone());
            },
            Some(NativeAuthority::Ios(ios)) => {
                native_running = Some(ios.active_task_kind.is_some());
                native_foreground = Some(false);
                last_platform_state = Some(ios.phase());
                if health == Health::IosSchedulingError {
                    last_platform_error = ios.error_to_report();
                }
            },
            None => {},
        }
        if health == Health::SchedulingDegraded {
            last_platform_error = copy_text(&self.scheduling_degraded);
        }
        let event = if self.has_app && health.degraded() == Some(true) {
            Some(DegradedEvent::Status { reason: health.reason(), native_running, rust_running })
        } else {
            None
        };

        // the state is read after the belief followed the native side
        let mut state: LifecycleState = LifecycleState::from(self.lifecycle_state);
        match authority {
            Some(NativeAuthority::Android(ns)) => {
                if str_eq(ns.durable_state.as_str(), "setup_idle") {
                    state = LifecycleState::SetupIdle;
                } else if str_eq(ns.durable_state.as_str(), "locked_idle") {
                    state = LifecycleState::LockedIdle;
                }
            },
            Some(NativeAuthority::Ios(ios)) => {
                if ios.active_task_kind.is_none() && !ios.desired_running {
                    state = LifecycleState::Stopped;
                }
            },
            None => {},
        }
        let report = SetupValidator::validate_with_probe(platform, probe);
        let status = LifecycleStatus {
            state,
            desired_running,
            recovery_enabled: desired_running,
            recovery_pending,
            recovery_reason,
            last_start_config,
            last_platform_state,
            last_platform_error,
            last_error: copy_text(&self.last_error),
            platform,
            capabilities,
            issues: report.issues,
            native_running,
            native_foreground,
            adopted,
            degraded: health.degraded(),
            degraded_reason: health.reason(),
            data_dir,
        };
        (status, event)
    }
}

} // verus!
