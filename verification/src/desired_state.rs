//! The desired state of the service, as kept across restarts.

use crate::config::{copy_config, StartConfig};
use crate::text::copy_text;
use vstd::prelude::*;

verus! {

/// A start configuration as it was found in storage.
#[derive(Debug, PartialEq, Eq)]
pub enum SavedConfig {
    /// A configuration.
    Config(StartConfig),
    /// A JSON document that is no start configuration.
    Unreadable(String),
}

/// What is kept of the service across restarts.
#[derive(Debug, PartialEq, Eq)]
pub struct DesiredState {
    /// Whether the service is meant to run.
    pub desired_running: bool,
    /// Configuration of the last start.
    pub last_start_config: Option<SavedConfig>,
    /// Epoch milliseconds of the last start.
    pub last_start_epoch_ms: Option<u64>,
    /// Last state that the native side reported, by its name.
    pub last_native_state: Option<String>,
    /// Last platform error message.
    pub last_platform_error: Option<String>,
    /// Epoch milliseconds of the last heartbeat.
    pub last_heartbeat_epoch_ms: Option<u64>,
    /// Restart attempts since the last clean start.
    pub restart_attempt: u32,
    /// Whether a recovery waits for platform conditions.
    pub recovery_pending: bool,
    /// Why the service is recovering.
    pub recovery_reason: Option<String>,
}

/// A change of the desired state.
#[derive(Debug, PartialEq, Eq)]
pub struct DesiredChange {
    /// Whether the service is meant to run from now on.
    pub desired: bool,
    /// The configuration to run it with.
    pub config: Option<StartConfig>,
}

impl DesiredState {
    /// Nothing is desired and nothing is known.
    pub open spec fn blank() -> DesiredState {
        DesiredState {
            desired_running: false,
            last_start_config: None,
            last_start_epoch_ms: None,
            last_native_state: None,
            last_platform_error: None,
            last_heartbeat_epoch_ms: None,
            restart_attempt: 0,
            recovery_pending: false,
            recovery_reason: None,
        }
    }

    /// The state after a change made at `now_ms`. Wanting the service records
    /// the configuration and the time; no longer wanting it forgets both, and
    /// the recovery as well. What the native side reported stays.
    pub open spec fn changed(self, change: DesiredChange, now_ms: u64) -> DesiredState {
        if change.desired {
            DesiredState {
                desired_running: true,
                last_start_config: match change.config {
                    Some(config) => Some(SavedConfig::Config(config)),
                    None => None,
                },
                last_start_epoch_ms: Some(now_ms),
                ..self
            }
        } else {
            DesiredState {
                desired_running: false,
                last_start_config: None,
                last_start_epoch_ms: None,
                recovery_pending: false,
                recovery_reason: None,
                restart_attempt: 0,
                ..self
            }
        }
    }

    /// The stored start configuration, if there is one and it can be read.
    pub open spec fn config(self) -> Option<StartConfig> {
        match self.last_start_config {
            Some(SavedConfig::Config(config)) => Some(config),
            _ => None,
        }
    }

    /// The stored start configuration, if there is one and it can be read.
    pub fn start_config(&self) -> (config: Option<StartConfig>)
        ensures
            config == self.config(),
    {
        match &self.last_start_config {
            Some(SavedConfig::Config(config)) => Some(config.clone()),
            _ => None,
        }
    }
}

impl Clone for SavedConfig {
    fn clone(&self) -> (copy: Self)
        ensures
            copy == *self,
    {
        match self {
            SavedConfig::Config(config) => SavedConfig::Config(config.clone()),
            SavedConfig::Unreadable(text) => SavedConfig::Unreadable(text.clone()),
        }
    }
}

impl Clone for DesiredState {
    fn clone(&self) -> (copy: Self)
        ensures
            copy == *self,
    {
        DesiredState {
            desired_running: self.desired_running,
            last_start_config: match &self.last_start_config {
                Some(saved) => Some(saved.clone()),
                None => None,
            },
            last_start_epoch_ms: self.last_start_epoch_ms,
            last_native_state: copy_text(&self.last_native_state),
            last_platform_error: copy_text(&self.last_platform_error),
            last_heartbeat_epoch_ms: self.last_heartbeat_epoch_ms,
            restart_attempt: self.restart_attempt,
            recovery_pending: self.recovery_pending,
            recovery_reason: copy_text(&self.recovery_reason),
        }
    }
}

impl Default for DesiredState {
    fn default() -> (state: Self)
        ensures
            state == DesiredState::blank(),
    {
        DesiredState {
            desired_running: false,
            last_start_config: None,
            last_start_epoch_ms: None,
            last_native_state: None,
            last_platform_error: None,
            last_heartbeat_epoch_ms: None,
            restart_attempt: 0,
            recovery_pending: false,
            recovery_reason: None,
        }
    }
}

/// The state to change: what was loaded, or a blank one where loading failed.
pub open spec fn or_blank(loaded: Option<DesiredState>) -> DesiredState {
    match loaded {
        Some(state) => state,
        None => DesiredState::blank(),
    }
}

/// The desired state to save after a change made at `now_ms`. `loaded` is what
/// was stored before, or nothing where it could not be read.
pub fn desired_after(loaded: Option<DesiredState>, change: &DesiredChange, now_ms: u64) -> (saved:
    DesiredState)
    ensures
        saved == or_blank(loaded).changed(*change, now_ms),
{
    let mut state = match loaded {
        Some(state) => state,
        None => DesiredState::default(),
    };
    state.desired_running = change.desired;
    if change.desired {
        state.last_start_config = match copy_config(&change.config) {
            Some(config) => Some(SavedConfig::Config(config)),
            None => None,
        };
        state.last_start_epoch_ms = Some(now_ms);
    } else {
        state.last_start_config = None;
        state.last_start_epoch_ms = None;
        state.recovery_pending = false;
        state.recovery_reason = None;
        state.restart_attempt = 0;
    }
    state
}

/// What is saved of a wanted run can be read back: the service is desired, with
/// the configuration that was given.
pub proof fn saved_config_reads_back(
    loaded: Option<DesiredState>,
    config: StartConfig,
    now_ms: u64,
)
    ensures
        ({
            let saved = or_blank(loaded).changed(
                DesiredChange { desired: true, config: Some(config) },
                now_ms,
            );
            saved.desired_running && saved.config() == Some(config)
        }),
{
}

/// Once the service is no longer wanted nothing is left of the run or of its
/// recovery, whatever was stored before.
pub proof fn unwanted_clears_recovery(loaded: Option<DesiredState>, change: DesiredChange, now_ms: u64)
    requires
        !change.desired,
    ensures
        ({
            let saved = or_blank(loaded).changed(change, now_ms);
            &&& !saved.desired_running
            &&& saved.last_start_config is None
            &&& saved.last_start_epoch_ms is None
            &&& !saved.recovery_pending
            &&& saved.recovery_reason is None
            &&& saved.restart_attempt == 0
        }),
{
}

/// A change never touches what the native side reported.
pub proof fn change_keeps_native_reports(state: DesiredState, change: DesiredChange, now_ms: u64)
    ensures
        ({
            let saved = state.changed(change, now_ms);
            &&& saved.last_native_state == state.last_native_state
            &&& saved.last_platform_error == state.last_platform_error
            &&& saved.last_heartbeat_epoch_ms == state.last_heartbeat_epoch_ms
        }),
{
}

/// Only the last of two changes counts for whether the service is wanted, with
/// which configuration, and since when.
pub proof fn last_change_wins(
    state: DesiredState,
    first: DesiredChange,
    second: DesiredChange,
    earlier_ms: u64,
    later_ms: u64,
)
    ensures
        ({
            let both = state.changed(first, earlier_ms).changed(second, later_ms);
            let one = state.changed(second, later_ms);
            &&& both.desired_running == one.desired_running
            &&& both.last_start_config == one.last_start_config
            &&& both.last_start_epoch_ms == one.last_start_epoch_ms
        }),
        !second.desired ==> state.changed(first, earlier_ms).changed(second, later_ms)
            == state.changed(second, later_ms),
{
}

/// What is saved after a change follows the change, whatever was stored: a
/// wanted service has the configuration and the time of the change and keeps
/// the record of its recovery; an unwanted one has none of these. What the
/// native side reported stays, and where nothing could be loaded there is none.
pub proof fn saved_state_follows_the_change(
    loaded: Option<DesiredState>,
    change: DesiredChange,
    now_ms: u64,
    saved: DesiredState,
)
    requires
        call_ensures(desired_after, (loaded, &change, now_ms), saved),
    ensures
        saved.desired_running == change.desired,
        change.desired ==> saved.last_start_epoch_ms == Some(now_ms),
        change.desired ==> (change.config matches Some(config) ==> saved.last_start_config == Some(
            SavedConfig::Config(config),
        )),
        change.desired && change.config is None ==> saved.last_start_config is None,
        !change.desired ==> saved.last_start_config is None && saved.last_start_epoch_ms is None,
        !change.desired ==> !saved.recovery_pending && saved.recovery_reason is None
            && saved.restart_attempt == 0,
        loaded matches Some(stored) ==> {
            &&& saved.last_native_state == stored.last_native_state
            &&& saved.last_platform_error == stored.last_platform_error
            &&& saved.last_heartbeat_epoch_ms == stored.last_heartbeat_epoch_ms
            &&& change.desired ==> saved.restart_attempt == stored.restart_attempt
                && saved.recovery_pending == stored.recovery_pending && saved.recovery_reason
                == stored.recovery_reason
        },
        loaded is None ==> {
            &&& saved.last_native_state is None && saved.last_platform_error is None
            &&& saved.last_heartbeat_epoch_ms is None && saved.restart_attempt == 0
            &&& !saved.recovery_pending && saved.recovery_reason is None
        },
{
}

/// A stored configuration is read as it is; what is no configuration is not.
pub proof fn stored_configuration_is_read_as_it_is(ds: DesiredState, config: Option<StartConfig>)
    requires
        call_ensures(DesiredState::start_config, (&ds,), config),
    ensures
        config is Some <==> ds.last_start_config is Some && ds.last_start_config->Some_0 is Config,
        config matches Some(read) ==> ds.last_start_config == Some(SavedConfig::Config(read)),
{
}

/// Where nothing was ever stored, nothing is wanted, pending or known.
pub proof fn first_state_wants_nothing(ds: DesiredState)
    requires
        call_ensures(<DesiredState as Default>::default, (), ds),
    ensures
        !ds.desired_running && !ds.recovery_pending && ds.restart_attempt == 0,
        ds.last_start_config is None && ds.last_start_epoch_ms is None,
        ds.last_native_state is None && ds.last_platform_error is None,
        ds.last_heartbeat_epoch_ms is None && ds.recovery_reason is None,
{
}

} // verus!
