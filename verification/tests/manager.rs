//! The manager, driven by a host that keeps everything in memory.

use background_service::config::{PluginConfig, StartConfig, VALID_FOREGROUND_SERVICE_TYPES};
use background_service::desired_state::{desired_after, DesiredChange, DesiredState, SavedConfig};
use background_service::double::Double;
use background_service::error::ServiceError;
use background_service::manager::{
    DegradedEvent, KeepaliveSettings, ManagerCommand, ManagerState, MobileBridge, NativeAuthority,
    NativeForward, StartKeepaliveArgs, Step, StopPlan, TargetOs,
};
use background_service::models::{
    AndroidServiceState, IosNativeState, LifecycleGuarantee, LifecycleMode, LifecycleState,
    LifecycleStatus, NativeLifecycleEvent, NativeState, PendingTaskInfo, Platform,
    PlatformCapabilities, PluginEvent, ServiceState, ServiceStatus, Severity, StopReason,
};
use background_service::notifier::{deliver, NotifierPolicy, NotifySink};
use background_service::task::{init_steps, run_steps, TaskStep};
use background_service::validator::DesktopProbe;
use std::sync::{Arc, Mutex};
use tokio_util::sync::CancellationToken;

// ─── Host ──────────────────────────────────────────────────────────────

#[derive(Clone)]
struct RecordingSink {
    calls: Arc<Mutex<Vec<(String, String, String)>>>,
}

impl RecordingSink {
    fn new() -> Self {
        RecordingSink {
            calls: Arc::new(Mutex::new(Vec::new())),
        }
    }

    fn calls(&self) -> Vec<(String, String, String)> {
        self.calls.lock().unwrap().clone()
    }
}

impl NotifySink for RecordingSink {
    fn notify(&self, id: &str, title: &str, body: &str) {
        self.calls
            .lock()
            .unwrap()
            .push((id.into(), title.into(), body.into()));
    }
}

struct Mobile {
    traits: MobileBridge,
    start_fail: bool,
    stop_fail: bool,
    starts: Vec<StartKeepaliveArgs>,
    stops: usize,
    stop_failures: usize,
    mirrors: Vec<DesiredChange>,
    forwards: Vec<NativeForward>,
    report: Option<Box<dyn Fn() -> NativeAuthority>>,
    queries: usize,
}

impl Mobile {
    fn new() -> Self {
        Mobile {
            traits: MobileBridge {
                enforces_foreground_service_type: false,
                scheduling_is_advisory: false,
            },
            start_fail: false,
            stop_fail: false,
            starts: Vec::new(),
            stops: 0,
            stop_failures: 0,
            mirrors: Vec::new(),
            forwards: Vec::new(),
            report: None,
            queries: 0,
        }
    }

    fn failing() -> Self {
        Mobile {
            start_fail: true,
            ..Mobile::new()
        }
    }

    fn enforcing() -> Self {
        let mut mobile = Mobile::new();
        mobile.traits.enforces_foreground_service_type = true;
        mobile
    }

    fn stop_keepalive(&mut self) -> Result<(), ServiceError> {
        self.stops += 1;
        if self.stop_fail {
            self.stop_failures += 1;
            Err(ServiceError::Platform("mock stop failure".into()))
        } else {
            Ok(())
        }
    }

    fn failing_advisory() -> Self {
        let mut mobile = Mobile::failing();
        mobile.traits.scheduling_is_advisory = true;
        mobile
    }
}

struct Task {
    generation: u64,
    shutdown: CancellationToken,
    on_complete: Option<u8>,
}

struct Host {
    state: ManagerState<u8>,
    mobile: Option<Mobile>,
    saves: Option<Vec<DesiredState>>,
    sink: Option<RecordingSink>,
    tasks: Vec<Task>,
    events: Vec<PluginEvent>,
    degraded: Vec<DegradedEvent>,
    completions: Vec<(u8, bool)>,
    drains: usize,
}

fn settings() -> KeepaliveSettings {
    KeepaliveSettings::from_config(&PluginConfig::default())
}

fn double(value: f64) -> Double {
    Double {
        bits: value.to_bits(),
    }
}

fn number(value: Option<Double>) -> Option<f64> {
    value.map(|d| f64::from_bits(d.bits))
}

fn config(label: &str, foreground_service_type: &str) -> StartConfig {
    StartConfig {
        service_label: label.into(),
        foreground_service_type: foreground_service_type.into(),
    }
}

fn capabilities() -> PlatformCapabilities {
    PlatformCapabilities {
        platform: Platform::Linux,
        lifecycle_mode: LifecycleMode::DesktopInProcess,
        survives_app_close: LifecycleGuarantee::Unsupported,
        survives_reboot: LifecycleGuarantee::Unsupported,
        survives_force_quit: LifecycleGuarantee::Unsupported,
        background_execution: LifecycleGuarantee::BestEffort,
        limitations: vec!["ends with the app".into()],
        required_setup: vec![],
    }
}

impl Host {
    fn with(
        settings: KeepaliveSettings,
        backend: bool,
        types: &[&str],
        validate: bool,
        policy: NotifierPolicy,
    ) -> Host {
        Host {
            state: ManagerState::new(
                settings,
                backend,
                types.iter().map(|t| t.to_string()).collect(),
                validate,
                policy,
                TargetOs::Desktop,
            ),
            mobile: None,
            saves: if backend { Some(Vec::new()) } else { None },
            sink: None,
            tasks: Vec::new(),
            events: Vec::new(),
            degraded: Vec::new(),
            completions: Vec::new(),
            drains: 0,
        }
    }

    fn new() -> Host {
        Host::with(
            settings(),
            false,
            &["remoteMessaging"],
            true,
            NotifierPolicy::default(),
        )
    }

    fn with_backend() -> Host {
        Host::with(
            settings(),
            true,
            &["remoteMessaging"],
            true,
            NotifierPolicy::default(),
        )
    }

    fn with_types(types: &[&str], validate: bool) -> Host {
        Host::with(settings(), false, types, validate, NotifierPolicy::default())
    }

    fn with_sink(policy: NotifierPolicy, sink: &RecordingSink) -> Host {
        let mut host = Host::with(settings(), false, &["remoteMessaging"], true, policy);
        host.sink = Some(sink.clone());
        host
    }

    fn set_mobile(&mut self, mobile: Mobile) {
        let traits = mobile.traits;
        self.mobile = Some(mobile);
        assert!(matches!(
            self.state.step(ManagerCommand::SetMobile { mobile: traits }),
            Step::Done
        ));
    }

    fn mobile(&self) -> &Mobile {
        self.mobile.as_ref().unwrap()
    }

    fn set_on_complete(&mut self, callback: u8) {
        assert!(matches!(
            self.state.step(ManagerCommand::SetOnComplete { callback }),
            Step::Done
        ));
    }

    fn load(&self) -> Option<DesiredState> {
        self.saves
            .as_ref()
            .map(|saves| saves.last().cloned().unwrap_or_default())
    }

    fn last_save(&self) -> &DesiredState {
        self.saves.as_ref().unwrap().last().unwrap()
    }

    fn last_save_mut(&mut self) -> &mut DesiredState {
        self.saves.as_mut().unwrap().last_mut().unwrap()
    }

    fn save_count(&self) -> usize {
        self.saves.as_ref().unwrap().len()
    }

    fn save(&mut self, change: &DesiredChange) {
        let saved = desired_after(self.load(), change, 1_700_000_000_000);
        self.saves.as_mut().unwrap().push(saved);
    }

    fn start_with(&mut self, config: StartConfig) -> Result<(), ServiceError> {
        match self.state.step(ManagerCommand::Start { config }) {
            Step::Reply(reply) => reply,
            Step::Start(mut ticket) => {
                let outcome = match (ticket.keepalive.take(), self.mobile.as_mut()) {
                    (Some(args), Some(mobile)) => {
                        mobile.starts.push(args);
                        if mobile.start_fail {
                            Err(ServiceError::Platform("mock keepalive failure".into()))
                        } else {
                            Ok(())
                        }
                    }
                    (None, None) => Ok(()),
                    _ => panic!("the keepalive is asked for exactly if there is a bridge"),
                };
                let plan = self.state.finish_start(ticket, outcome)?;
                if let Some(event) = plan.degraded {
                    self.degraded.push(event);
                }
                self.tasks.push(Task {
                    generation: plan.generation,
                    shutdown: plan.shutdown.into_token(),
                    on_complete: plan.on_complete,
                });
                if let Some(change) = plan.persist {
                    self.save(&change);
                }
                Ok(())
            }
            _ => panic!("unexpected step"),
        }
    }

    fn start(&mut self) -> Result<(), ServiceError> {
        self.start_with(config("Service running", "remoteMessaging"))
    }

    fn task_steps(&mut self, task: usize, steps: Vec<TaskStep>) {
        let generation = self.tasks[task].generation;
        for step in steps {
            match step {
                TaskStep::Emit(event) => self.events.push(event),
                TaskStep::Run => {}
                TaskStep::Complete { success } => {
                    if let Some(callback) = self.tasks[task].on_complete.take() {
                        self.completions.push((callback, success));
                    }
                }
                other => self.state.note_task_step(generation, other),
            }
        }
    }

    fn init(&mut self, task: usize, outcome: Result<(), ServiceError>) {
        self.task_steps(task, init_steps(&outcome));
    }

    fn run(&mut self, task: usize, outcome: Result<(), ServiceError>) {
        self.task_steps(task, run_steps(&outcome));
    }

    fn start_running(&mut self) {
        self.start().unwrap();
        let task = self.tasks.len() - 1;
        self.init(task, Ok(()));
    }

    fn carry_out(&mut self, plan: StopPlan) -> Result<(), ServiceError> {
        assert!(plan.cancelled.get().is_cancelled());
        if plan.stop_keepalive {
            // a failure of the native side does not fail the stop
            let _ = self.mobile.as_mut().unwrap().stop_keepalive();
        }
        if let Some(change) = plan.persist {
            self.save(&change);
        }
        if plan.resubmit {
            let loaded = self.load();
            if let Some(change) = self.state.resubmission(&loaded) {
                self.mobile.as_mut().unwrap().mirrors.push(change);
            }
        }
        deliver(&self.sink, &plan.notice);
        Ok(())
    }

    fn command(&mut self, command: ManagerCommand<u8>) -> Result<(), ServiceError> {
        match self.state.step(command) {
            Step::Reply(reply) => reply,
            Step::Stop(plan) => self.carry_out(plan),
            Step::Intent(plan) => {
                if let Some(change) = plan.persist {
                    self.save(&change);
                }
                if let Some(change) = plan.mirror {
                    self.mobile.as_mut().unwrap().mirrors.push(change);
                }
                Ok(())
            }
            Step::Notify(notice) => {
                deliver(&self.sink, &notice);
                Ok(())
            }
            Step::Forward(call) => {
                self.mobile.as_mut().unwrap().forwards.push(call);
                Ok(())
            }
            Step::Drain { shutdown } => {
                assert!(!shutdown.into_token().is_cancelled());
                self.drains += 1;
                Ok(())
            }
            _ => panic!("unexpected step"),
        }
    }

    fn stop(&mut self) -> Result<(), ServiceError> {
        self.command(ManagerCommand::Stop)
    }

    fn stop_for(&mut self, reason: StopReason) -> Result<(), ServiceError> {
        self.command(ManagerCommand::StopWithReason { reason })
    }

    fn native_event(&mut self, event: NativeLifecycleEvent) -> Result<(), ServiceError> {
        self.command(ManagerCommand::NativeLifecycleEvent { event })
    }

    fn update_type(&mut self, t: &str) -> Result<(), ServiceError> {
        self.command(ManagerCommand::UpdateForegroundServiceType {
            foreground_service_type: t.into(),
        })
    }

    fn updated_types(&self) -> Vec<String> {
        self.mobile()
            .forwards
            .iter()
            .map(|call| match call {
                NativeForward::UpdateKeepaliveType {
                    foreground_service_type,
                } => foreground_service_type.clone(),
                other => panic!("unexpected call {other:?}"),
            })
            .collect()
    }

    fn authority(&mut self, ask: bool) -> Option<NativeAuthority> {
        assert_eq!(ask, self.mobile.is_some());
        let mobile = self.mobile.as_mut()?;
        mobile.queries += 1;
        mobile.report.as_ref().map(|report| report())
    }

    fn is_running(&mut self) -> bool {
        match self.state.step(ManagerCommand::IsRunning) {
            Step::ReportRunning { ask_native } => {
                let authority = self.authority(ask_native);
                self.state.reconcile_running_with_native(&authority)
            }
            _ => panic!("unexpected step"),
        }
    }

    fn get_state(&mut self) -> ServiceStatus {
        match self.state.step(ManagerCommand::GetState) {
            Step::ReportState { load } => {
                assert_eq!(load, self.saves.is_some());
                self.state.service_status(&self.load())
            }
            _ => panic!("unexpected step"),
        }
    }

    fn get_desired_state(&mut self) -> Option<DesiredState> {
        match self.state.step(ManagerCommand::GetDesiredState) {
            Step::ReportDesired { load } => {
                assert_eq!(load, self.saves.is_some());
                self.load()
            }
            _ => panic!("unexpected step"),
        }
    }

    fn lifecycle_on(
        &mut self,
        platform: Platform,
        probe: Option<DesktopProbe>,
    ) -> LifecycleStatus {
        match self.state.step(ManagerCommand::GetLifecycleStatus { desktop_mode: None }) {
            Step::ReportLifecycle {
                load,
                ask_native,
                desktop_mode,
            } => {
                assert_eq!(load, self.saves.is_some());
                assert_eq!(desktop_mode, None);
                let authority = self.authority(ask_native);
                let (status, event) = self.state.build_lifecycle_status(
                    &self.saves
                        .as_ref()
                        .map(|saves| saves.last().cloned().unwrap_or_default()),
                    &authority,
                    platform,
                    capabilities(),
                    probe,
                );
                if let Some(event) = event {
                    self.degraded.push(event);
                }
                status
            }
            _ => panic!("unexpected step"),
        }
    }

    fn lifecycle(&mut self) -> LifecycleStatus {
        self.lifecycle_on(Platform::Linux, None)
    }

    fn report_android(&mut self, make: impl Fn() -> AndroidServiceState + 'static) {
        self.mobile.as_mut().unwrap().report =
            Some(Box::new(move || NativeAuthority::Android(make())));
    }

    fn report_ios(&mut self, make: impl Fn() -> IosNativeState + 'static) {
        self.mobile.as_mut().unwrap().report = Some(Box::new(move || NativeAuthority::Ios(make())));
    }
}

fn native_state(running: bool) -> AndroidServiceState {
    AndroidServiceState {
        native_running: running,
        native_foreground: running,
        desired_running: running,
        durable_state: if running { "running" } else { "stopped" }.into(),
        service_label: None,
        foreground_service_type: None,
        notification_id: None,
        notification_channel_id: None,
        recovery_pending: false,
        recovery_reason: None,
        last_platform_error: None,
        data_dir: "/data".into(),
    }
}

fn ios_state(desired_running: bool) -> IosNativeState {
    IosNativeState {
        desired_running,
        refresh_scheduled: false,
        processing_scheduled: false,
        active_task_kind: None,
        pending_task: None,
        last_completed_at: None,
        last_completion_reason: None,
        last_refresh_error: None,
        last_processing_error: None,
        in_budget: true,
    }
}

// ─── Starting and stopping ─────────────────────────────────────────────

#[test]
fn start_from_idle() {
    let mut host = Host::new();
    assert!(host.start().is_ok(), "start should succeed from idle");
    assert!(host.is_running(), "should be running after start");
}

#[test]
fn stop_from_running() {
    let mut host = Host::new();
    host.start().unwrap();
    assert!(host.stop().is_ok(), "stop should succeed from running");
    assert!(!host.is_running(), "should not be running after stop");
}

#[test]
fn manager_double_start_returns_already_running() {
    let mut host = Host::new();
    host.start().unwrap();
    assert!(matches!(host.start(), Err(ServiceError::AlreadyRunning)));
    assert!(host.is_running());
    assert!(!host.tasks[0].shutdown.is_cancelled());
    assert_eq!(host.state.generation, 1);
}

#[test]
fn already_running_comes_before_type_checks() {
    let mut host = Host::new();
    host.start().unwrap();
    let result = host.start_with(config("x", "specialUse"));
    assert!(matches!(result, Err(ServiceError::AlreadyRunning)));
}

#[test]
fn start_refused_as_running_changes_nothing() {
    let mut host = Host::with_backend();
    host.set_mobile(Mobile::new());
    host.start_running();
    host.set_on_complete(7);
    host.state.has_app = false;
    let result = host.start_with(config("other", "bogus"));
    assert_eq!(result, Err(ServiceError::AlreadyRunning));
    assert!(!host.state.has_app);
    assert_eq!(host.state.generation, 1);
    assert_eq!(host.state.on_complete, Some(7));
    assert_eq!(host.state.lifecycle_state, ServiceState::Running);
    assert_eq!(host.mobile().starts.len(), 1);
    assert_eq!(host.save_count(), 1);
    assert_eq!(host.tasks.len(), 1);
}

#[test]
fn start_refused_for_its_type_only_makes_an_app_known() {
    let mut host = Host::new();
    host.set_on_complete(7);
    assert!(!host.state.has_app);
    assert!(host.start_with(config("test", "specialUse")).is_err());
    assert!(host.state.has_app);
    assert_eq!(host.state.on_complete, Some(7));
    assert_eq!(host.state.generation, 0);
    assert_eq!(host.state.lifecycle_state, ServiceState::Idle);
}

#[test]
fn manager_stop_when_not_running_returns_not_running() {
    let mut host = Host::new();
    assert!(matches!(host.stop(), Err(ServiceError::NotRunning)));
}

#[test]
fn manager_start_stop_restart_cycle() {
    let mut host = Host::new();
    host.start().unwrap();
    assert!(host.is_running());
    host.stop().unwrap();
    assert!(!host.is_running());
    assert!(host.start().is_ok(), "restart should succeed after stop");
    assert!(host.is_running(), "should be running after restart");
    assert_ne!(host.tasks[0].generation, host.tasks[1].generation);
}

#[test]
fn run_numbers_wrap_around() {
    let mut host = Host::new();
    host.state.generation = u64::MAX;
    host.start().unwrap();
    assert_eq!(host.tasks[0].generation, 0);
}

#[test]
fn stop_cancels_the_token_of_the_service() {
    let mut host = Host::new();
    host.start_running();
    assert!(!host.tasks[0].shutdown.is_cancelled());
    host.stop().unwrap();
    assert!(host.tasks[0].shutdown.is_cancelled());
}

#[test]
fn restart_gets_a_token_of_its_own() {
    let mut host = Host::new();
    host.start_running();
    host.stop().unwrap();
    host.start_running();
    assert!(host.tasks[0].shutdown.is_cancelled());
    assert!(!host.tasks[1].shutdown.is_cancelled());
}

// ─── Callbacks and tasks ───────────────────────────────────────────────

#[test]
fn manager_callback_fires_on_success() {
    let mut host = Host::new();
    host.set_on_complete(1);
    host.start_running();
    host.run(0, Ok(()));
    assert_eq!(host.completions, vec![(1, true)]);
    assert!(!host.is_running());
    assert_eq!(
        host.events,
        vec![
            PluginEvent::Started,
            PluginEvent::Stopped {
                reason: StopReason::TaskCompleted
            }
        ]
    );
}

#[test]
fn manager_callback_fires_on_error() {
    let mut host = Host::new();
    host.set_on_complete(1);
    host.start_running();
    host.run(0, Err(ServiceError::Runtime("run error".into())));
    assert_eq!(host.completions, vec![(1, false)]);
    assert!(!host.is_running());
    assert_eq!(
        host.events,
        vec![
            PluginEvent::Started,
            PluginEvent::Error {
                message: "Runtime error: run error".into()
            }
        ]
    );
    assert_eq!(
        host.get_state().last_error,
        Some("Runtime error: run error".into())
    );
}

#[test]
fn callback_fires_on_init_failure() {
    let mut host = Host::new();
    host.set_on_complete(1);
    host.start().unwrap();
    host.init(0, Err(ServiceError::Init("init error".into())));
    assert_eq!(host.completions, vec![(1, false)]);
    assert!(!host.is_running(), "should not be running after init failure");
    assert_eq!(
        host.events,
        vec![PluginEvent::Error {
            message: "Initialisation failed: init error".into()
        }]
    );
}

#[test]
fn no_callback_no_panic() {
    let mut host = Host::new();
    assert!(host.start().is_ok(), "start without callback should succeed");
    host.init(0, Ok(()));
    host.run(0, Ok(()));
    assert!(host.completions.is_empty());
}

#[test]
fn is_running_false_after_natural_completion() {
    let mut host = Host::new();
    host.start_running();
    assert!(host.is_running(), "should be running immediately after start");
    host.run(0, Ok(()));
    assert!(!host.is_running());
    assert!(matches!(host.stop(), Err(ServiceError::NotRunning)));
}

#[test]
fn generation_guard_prevents_stale_cleanup() {
    let mut host = Host::new();
    host.start().unwrap();
    host.init(0, Err(ServiceError::Init("init error".into())));
    assert!(host.start().is_ok(), "second start should succeed");
    host.init(1, Ok(()));
    // whatever the first task still does, the second run is left alone
    host.run(0, Err(ServiceError::Runtime("late".into())));
    host.init(0, Err(ServiceError::Init("late".into())));
    assert!(host.is_running(), "should be running after second start");
    assert_eq!(host.get_state().state, ServiceState::Running);
    assert_eq!(host.get_state().last_error, None);
    assert!(host.stop().is_ok());
}

#[test]
fn stale_task_of_a_stopped_run_is_ignored() {
    let mut host = Host::new();
    host.start_running();
    host.stop().unwrap();
    host.start().unwrap();
    host.run(0, Ok(()));
    assert!(host.is_running());
    assert_eq!(host.get_state().state, ServiceState::Initializing);
}

#[test]
fn callback_captured_at_spawn_time() {
    let mut host = Host::new();
    host.set_on_complete(1);
    host.start_running();
    host.set_on_complete(2);
    host.stop().unwrap();
    host.run(0, Ok(()));
    assert_eq!(host.completions, vec![(1, true)], "the first callback fires");
    host.start_running();
    host.run(1, Ok(()));
    assert_eq!(host.completions, vec![(1, true), (2, true)]);
}

#[test]
fn callback_comes_before_the_end_of_the_run() {
    for outcome in [Ok(()), Err(ServiceError::Runtime("x".into()))] {
        let steps = run_steps(&outcome);
        let complete = steps
            .iter()
            .position(|s| matches!(s, TaskStep::Complete { .. }))
            .unwrap();
        let finished = steps
            .iter()
            .position(|s| matches!(s, TaskStep::Finished { .. }))
            .unwrap();
        assert!(complete < finished);
        assert_eq!(
            steps
                .iter()
                .filter(|s| matches!(s, TaskStep::Complete { .. }))
                .count(),
            1
        );
    }
}

#[test]
fn finishing_without_an_error_keeps_the_last_one() {
    let mut host = Host::new();
    host.start_running();
    host.state.last_error = Some("earlier".into());
    host.run(0, Ok(()));
    assert_eq!(host.get_state().last_error, Some("earlier".into()));
}

// ─── Keepalive ─────────────────────────────────────────────────────────

#[test]
fn start_keepalive_called_on_start() {
    let mut host = Host::new();
    host.set_mobile(Mobile::new());
    host.start().unwrap();
    assert_eq!(host.mobile().starts.len(), 1);
    assert_eq!(host.mobile().starts[0].label, "Service running");
    assert_eq!(
        host.mobile().starts[0].foreground_service_type,
        "remoteMessaging"
    );
}

#[test]
fn start_keepalive_failure_rollback() {
    let mut host = Host::with_backend();
    host.set_on_complete(1);
    host.set_mobile(Mobile::failing());
    let result = host.start();
    assert_eq!(
        result,
        Err(ServiceError::Platform("mock keepalive failure".into()))
    );
    assert!(!host.is_running(), "token should be rolled back");
    assert_eq!(host.get_state().state, ServiceState::Idle);
    assert!(host.tasks.is_empty(), "no task is spawned");
    assert_eq!(host.save_count(), 0, "a failed start saves nothing");

    // the callback is back in its slot, for the start that succeeds
    host.mobile.as_mut().unwrap().start_fail = false;
    host.start_running();
    host.run(0, Ok(()));
    assert_eq!(host.completions, vec![(1, true)]);
}

#[test]
fn advisory_scheduling_failure_starts_core_degraded() {
    let mut host = Host::new();
    host.set_mobile(Mobile::failing_advisory());
    host.start_running();
    assert_eq!(host.mobile().starts.len(), 1);
    assert!(host.is_running(), "the service starts in the foreground");
    assert_eq!(
        host.degraded,
        vec![DegradedEvent::Scheduling {
            reason: "scheduling_degraded_foreground_only".into(),
            error: "Platform error: mock keepalive failure".into(),
        }]
    );
    let status = host.lifecycle();
    assert_eq!(status.degraded, Some(true));
    assert_eq!(
        status.degraded_reason,
        Some("scheduling_degraded_foreground_only".into())
    );
    assert_eq!(
        status.last_platform_error,
        Some("Platform error: mock keepalive failure".into())
    );
    // once stopped, the degradation no longer applies
    host.stop().unwrap();
    let status = host.lifecycle();
    assert_eq!(status.degraded, None);
    assert_eq!(status.last_platform_error, None);
}

#[test]
fn advisory_degradation_is_cleared_by_the_next_start() {
    let mut host = Host::new();
    host.set_mobile(Mobile::failing_advisory());
    host.start_running();
    host.run(0, Ok(()));
    assert_eq!(host.lifecycle().degraded, Some(true));
    host.mobile.as_mut().unwrap().start_fail = false;
    host.start_running();
    assert_eq!(host.lifecycle().degraded, None);
}

#[test]
fn stop_keepalive_called_on_stop() {
    let mut host = Host::new();
    host.set_mobile(Mobile::new());
    host.start().unwrap();
    assert_eq!(host.mobile().stops, 0);
    host.stop().unwrap();
    assert_eq!(host.mobile().stops, 1);
}

#[test]
fn stop_keepalive_failure_does_not_propagate() {
    let mut host = Host::new();
    host.set_mobile(Mobile {
        stop_fail: true,
        ..Mobile::new()
    });
    host.start().unwrap();
    let result = host.stop();
    assert!(
        result.is_ok(),
        "stop should succeed even when stop_keepalive fails"
    );
    assert_eq!(host.mobile().stop_failures, 1);
    assert!(
        !host.is_running(),
        "service should not be running after stop"
    );
}

fn with_settings(settings: KeepaliveSettings) -> Host {
    let mut host = Host::with(
        settings,
        false,
        &["remoteMessaging"],
        true,
        NotifierPolicy::default(),
    );
    host.set_mobile(Mobile::new());
    host.start().unwrap();
    host
}

#[test]
fn ios_safety_timeout_passed_to_mobile() {
    let host = with_settings(KeepaliveSettings {
        ios_safety_timeout_secs: double(15.0),
        ..settings()
    });
    assert_eq!(
        number(host.mobile().starts[0].ios_safety_timeout_secs),
        Some(15.0)
    );
}

#[test]
fn ios_processing_timeout_passed_to_mobile() {
    let host = with_settings(KeepaliveSettings {
        ios_processing_safety_timeout_secs: double(60.0),
        ..settings()
    });
    assert_eq!(
        number(host.mobile().starts[0].ios_processing_safety_timeout_secs),
        Some(60.0)
    );
}

#[test]
fn ios_processing_timeout_zero_passes_as_none() {
    for value in [0.0, -0.0, -1.0, f64::NAN, f64::NEG_INFINITY] {
        let host = with_settings(KeepaliveSettings {
            ios_processing_safety_timeout_secs: double(value),
            ..settings()
        });
        assert_eq!(
            host.mobile().starts[0].ios_processing_safety_timeout_secs,
            None
        );
    }
}

#[test]
fn ios_processing_ceiling_multiplier_default_passed_to_mobile() {
    let host = with_settings(settings());
    assert_eq!(
        number(host.mobile().starts[0].ios_processing_ceiling_multiplier),
        Some(4.0)
    );
    assert_eq!(
        number(host.mobile().starts[0].ios_earliest_refresh_begin_minutes),
        Some(15.0)
    );
    assert_eq!(
        number(host.mobile().starts[0].ios_earliest_processing_begin_minutes),
        Some(15.0)
    );
    assert_eq!(
        host.mobile().starts[0].ios_requires_external_power,
        Some(false)
    );
    assert_eq!(
        host.mobile().starts[0].ios_requires_network_connectivity,
        Some(false)
    );
}

#[test]
fn ios_processing_ceiling_multiplier_override_passed_to_mobile() {
    let host = with_settings(KeepaliveSettings {
        ios_processing_ceiling_multiplier: double(6.0),
        ..settings()
    });
    assert_eq!(
        number(host.mobile().starts[0].ios_processing_ceiling_multiplier),
        Some(6.0)
    );
}

// ─── Foreground service types ──────────────────────────────────────────

#[test]
fn handle_start_accepts_invalid_foreground_service_type_on_desktop() {
    let mut host = Host::with_types(&[], false);
    let result = host.start_with(config("test", "bogusType"));
    assert!(result.is_ok(), "{result:?}");
    assert!(host.is_running());
    host.stop().unwrap();
}

#[test]
fn handle_start_accepts_all_valid_foreground_service_types() {
    for t in VALID_FOREGROUND_SERVICE_TYPES {
        let mut host = Host::with_types(&VALID_FOREGROUND_SERVICE_TYPES, true);
        host.set_mobile(Mobile::enforcing());
        let result = host.start_with(config("test", t));
        assert!(result.is_ok(), "start with valid type '{t}': {result:?}");
        assert!(host.is_running());
        host.stop().unwrap();
    }
}

#[test]
fn allowlist_rejected_type_returns_platform_error() {
    let mut host = Host::new();
    let result = host.start_with(config("test", "specialUse"));
    assert!(
        matches!(result, Err(ServiceError::Platform(ref msg)) if msg.contains("not allowed")),
        "{result:?}"
    );
    assert!(!host.is_running());
    assert_eq!(host.get_state().state, ServiceState::Idle);
    assert_eq!(host.state.generation, 0);
}

#[test]
fn default_start_passes_the_default_list_only() {
    let allowed = PluginConfig::default().android_foreground_service_types;
    let allowed: Vec<&str> = allowed.iter().map(|t| t.as_str()).collect();
    let mut host = Host::with_types(&allowed, true);
    host.set_mobile(Mobile::enforcing());
    assert_eq!(host.start_with(StartConfig::default()), Ok(()));
    assert!(host.is_running());
    assert_eq!(host.mobile().starts[0].label, "Service running");
    assert_eq!(host.mobile().starts[0].foreground_service_type, "dataSync");

    let mut host = Host::with_types(&["remoteMessaging"], true);
    host.set_mobile(Mobile::enforcing());
    assert_eq!(
        host.start_with(StartConfig::default()),
        Err(ServiceError::Platform(
            "foreground_service_type 'dataSync' is not allowed by the plugin configuration".into()
        ))
    );
    assert!(!host.is_running());
    assert!(host.mobile().starts.is_empty());
}

#[test]
fn allowlist_allowed_type_succeeds() {
    let mut host = Host::new();
    let result = host.start_with(config("test", "remoteMessaging"));
    assert!(result.is_ok(), "allowed type should succeed: {result:?}");
    assert!(host.is_running());
    host.stop().unwrap();
}

#[test]
fn update_foreground_service_type_not_running_returns_not_running() {
    let mut host = Host::with_types(&["remoteMessaging", "phoneCall"], true);
    assert!(matches!(
        host.update_type("phoneCall"),
        Err(ServiceError::NotRunning)
    ));
}

#[test]
fn update_foreground_service_type_allowlisted_phonecall_succeeds() {
    let mut host = Host::with_types(&["remoteMessaging", "phoneCall"], true);
    host.start_with(config("call", "remoteMessaging")).unwrap();
    assert!(host.update_type("phoneCall").is_ok());
    host.stop().unwrap();
}

#[test]
fn update_foreground_service_type_rejected_by_allowlist() {
    let mut host = Host::new();
    host.start_with(config("call", "remoteMessaging")).unwrap();
    let result = host.update_type("phoneCall");
    assert!(
        matches!(result, Err(ServiceError::Platform(ref msg)) if msg.contains("not allowed")),
        "{result:?}"
    );
    assert!(host.is_running(), "a rejected update leaves the run alone");
    host.stop().unwrap();
}

#[test]
fn ios_like_bridge_validates_no_fgs_type_on_start() {
    let mut host = Host::with_types(&[], false);
    host.set_mobile(Mobile::new());
    let result = host.start_with(config("call", "iosBackgroundDelivery"));
    assert!(result.is_ok(), "{result:?}");
    host.stop().unwrap();
}

#[test]
fn android_like_bridge_validates_fgs_type_on_start() {
    let mut host = Host::with_types(&[], false);
    host.set_mobile(Mobile::enforcing());
    let result = host.start_with(config("call", "notAValidType"));
    assert!(
        matches!(result, Err(ServiceError::Platform(ref m)) if m.contains("invalid foreground_service_type")),
        "{result:?}"
    );
    assert!(host.mobile().starts.is_empty());
}

#[test]
fn ios_like_bridge_emits_zero_update_foreground_service_type() {
    let mut host = Host::with_types(&[], false);
    host.set_mobile(Mobile::new());
    host.start_with(config("call", "remoteMessaging")).unwrap();
    assert!(host.update_type("phoneCall").is_ok());
    assert!(host.update_type("remoteMessaging").is_ok());
    assert!(host.updated_types().is_empty());
    host.stop().unwrap();
}

#[test]
fn android_like_bridge_swaps_fgs_type() {
    let mut host = Host::with_types(&["remoteMessaging", "phoneCall"], true);
    host.set_mobile(Mobile::enforcing());
    host.start_with(config("call", "remoteMessaging")).unwrap();
    host.update_type("phoneCall").unwrap();
    host.update_type("remoteMessaging").unwrap();
    assert_eq!(
        host.updated_types(),
        vec!["phoneCall".to_string(), "remoteMessaging".to_string()]
    );
    let result = host.update_type("bogus");
    assert!(
        matches!(result, Err(ServiceError::Platform(ref m)) if m.contains("invalid foreground_service_type")),
        "{result:?}"
    );
    host.stop().unwrap();
}

#[test]
fn allowlist_empty_type_rejected() {
    let mut host = Host::with_types(&["dataSync"], true);
    let result = host.start_with(config("test", ""));
    assert!(
        matches!(result, Err(ServiceError::Platform(ref msg)) if msg.contains("must not be empty")),
        "{result:?}"
    );
}

#[test]
fn allowlist_case_insensitive_match() {
    let mut host = Host::new();
    let result = host.start_with(config("test", "RemoteMessaging"));
    assert!(result.is_ok(), "{result:?}");
    assert!(host.is_running());
    host.stop().unwrap();
}

#[test]
fn allowlist_validation_disabled_accepts_any_type() {
    let mut host = Host::with_types(&["dataSync"], false);
    let result = host.start_with(config("test", "specialUse"));
    assert!(result.is_ok(), "{result:?}");
    assert!(host.is_running());
    host.stop().unwrap();
}

// ─── Service status ────────────────────────────────────────────────────

#[test]
fn get_state_returns_idle_initially() {
    let mut host = Host::new();
    let status = host.get_state();
    assert_eq!(status.state, ServiceState::Idle);
    assert_eq!(status.last_error, None);
}

#[test]
fn lifecycle_idle_to_running_to_stopped() {
    let mut host = Host::new();
    assert_eq!(host.get_state().state, ServiceState::Idle);
    host.start().unwrap();
    assert_eq!(host.get_state().state, ServiceState::Initializing);
    host.init(0, Ok(()));
    assert_eq!(host.get_state().state, ServiceState::Running);
    host.stop().unwrap();
    assert_eq!(host.get_state().state, ServiceState::Stopped);
    assert_eq!(host.get_state().last_error, None);
}

#[test]
fn lifecycle_init_failure_sets_stopped_with_error() {
    let mut host = Host::new();
    host.start().unwrap();
    host.init(0, Err(ServiceError::Init("init error".into())));
    let status = host.get_state();
    assert_eq!(status.state, ServiceState::Stopped);
    assert!(status.last_error.unwrap().contains("init error"));
}

#[test]
fn lifecycle_explicit_stop_sets_stopped_clears_error() {
    let mut host = Host::new();
    host.start_running();
    host.state.last_error = Some("stale".into());
    host.stop().unwrap();
    let status = host.get_state();
    assert_eq!(status.state, ServiceState::Stopped);
    assert_eq!(status.last_error, None);
}

#[test]
fn restart_clears_stale_last_error() {
    let mut host = Host::new();
    host.start().unwrap();
    host.init(0, Err(ServiceError::Init("init error".into())));
    assert!(host.get_state().last_error.is_some());
    host.start().unwrap();
    host.init(1, Ok(()));
    host.run(1, Ok(()));
    assert_eq!(host.get_state().last_error, None);
}

// ─── Boot ──────────────────────────────────────────────────────────────

fn boot(stored: Option<DesiredState>, backend: bool, app: bool, consent: bool) -> Host {
    let mut host = if backend {
        Host::with_backend()
    } else {
        Host::new()
    };
    if let (Some(saves), Some(state)) = (host.saves.as_mut(), stored) {
        saves.push(state);
    }
    if host.state.wants_boot_replay(app, consent) {
        let loaded = host.load();
        if let Some(config) = host.state.boot_replay(app, consent, &loaded) {
            let _ = host.start_with(config);
        }
    }
    host
}

fn wanted() -> DesiredState {
    DesiredState {
        desired_running: true,
        last_start_config: Some(SavedConfig::Config(config("Sila", "remoteMessaging"))),
        ..Default::default()
    }
}

#[test]
fn bgs05_replay_starts_on_boot_when_desired() {
    let mut host = boot(Some(wanted()), true, true, true);
    assert!(host.is_running());
    assert_eq!(
        host.last_save().last_start_config,
        Some(SavedConfig::Config(config("Sila", "remoteMessaging")))
    );
    host.stop().unwrap();
}

#[test]
fn bgs05_no_replay_when_desired_false() {
    let mut host = boot(
        Some(DesiredState {
            desired_running: false,
            ..wanted()
        }),
        true,
        true,
        true,
    );
    assert!(!host.is_running());
}

#[test]
fn bgs05_no_replay_without_backend() {
    assert!(!boot(Some(wanted()), false, true, true).is_running());
}

#[test]
fn bgs05_no_replay_when_consent_allows_auto_unlock_false() {
    assert!(!boot(Some(wanted()), true, true, false).is_running());
}

#[test]
fn no_replay_without_an_app_or_a_readable_config() {
    assert!(!boot(Some(wanted()), true, false, true).is_running());
    let unreadable = DesiredState {
        last_start_config: Some(SavedConfig::Unreadable("[1]".into())),
        ..wanted()
    };
    assert!(!boot(Some(unreadable), true, true, true).is_running());
    let missing = DesiredState {
        last_start_config: None,
        ..wanted()
    };
    assert!(!boot(Some(missing), true, true, true).is_running());
}

#[test]
fn no_replay_on_mobile_platforms() {
    for (target, wants) in [
        (TargetOs::Android, false),
        (TargetOs::Ios, false),
        (TargetOs::Desktop, true),
    ] {
        let state: ManagerState<u8> = ManagerState::new(
            settings(),
            true,
            vec![],
            false,
            NotifierPolicy::default(),
            target,
        );
        assert_eq!(state.wants_boot_replay(true, true), wants);
        assert_eq!(
            state.boot_replay(true, true, &Some(wanted())).is_some(),
            wants
        );
    }
}

// ─── Desired state ─────────────────────────────────────────────────────

#[test]
fn start_saves_desired_running_true() {
    let mut host = Host::with_backend();
    host.start_with(config("Syncing", "remoteMessaging")).unwrap();
    let last = host.last_save();
    assert!(last.desired_running);
    assert_eq!(
        last.last_start_config,
        Some(SavedConfig::Config(config("Syncing", "remoteMessaging")))
    );
    assert_eq!(last.last_start_epoch_ms, Some(1_700_000_000_000));
}

#[test]
fn stop_saves_desired_running_false_with_cleared_recovery() {
    let mut host = Host::with_backend();
    host.start().unwrap();
    {
        let last = host.last_save_mut();
        last.recovery_pending = true;
        last.recovery_reason = Some("boot".into());
        last.restart_attempt = 3;
    }
    host.stop().unwrap();
    let last = host.last_save();
    assert!(!last.desired_running);
    assert!(last.last_start_config.is_none());
    assert!(last.last_start_epoch_ms.is_none());
    assert!(!last.recovery_pending);
    assert_eq!(last.recovery_reason, None);
    assert_eq!(last.restart_attempt, 0);
}

#[test]
fn set_desired_running_saves_without_affecting_is_running() {
    let mut host = Host::with_backend();
    assert!(!host.is_running());
    host.command(ManagerCommand::SetDesiredRunning {
        desired: true,
        config: Some(config("AutoRestart", "dataSync")),
    })
    .unwrap();
    assert!(!host.is_running());
    assert!(host.last_save().desired_running);
    assert!(host.last_save().last_start_config.is_some());
    host.command(ManagerCommand::SetDesiredRunning {
        desired: false,
        config: None,
    })
    .unwrap();
    assert!(!host.is_running());
    assert!(!host.last_save().desired_running);
}

#[test]
fn no_backend_means_no_panic() {
    let mut host = Host::new();
    host.start().unwrap();
    host.stop().unwrap();
    host.command(ManagerCommand::SetDesiredRunning {
        desired: true,
        config: None,
    })
    .unwrap();
}

#[test]
fn start_config_serialized_in_desired_state() {
    let mut host = Host::with(
        settings(),
        true,
        &["specialUse"],
        true,
        NotifierPolicy::default(),
    );
    host.start_with(config("CustomLabel", "specialUse")).unwrap();
    assert_eq!(
        host.last_save().last_start_config,
        Some(SavedConfig::Config(config("CustomLabel", "specialUse")))
    );
}

#[test]
fn get_state_returns_desired_running_true_after_start() {
    let mut host = Host::with_backend();
    host.start().unwrap();
    assert_eq!(host.get_state().desired_running, Some(true));
}

#[test]
fn get_state_returns_desired_running_false_after_stop() {
    let mut host = Host::with_backend();
    host.start().unwrap();
    host.stop().unwrap();
    assert_eq!(host.get_state().desired_running, Some(false));
}

#[test]
fn get_state_returns_none_fields_when_no_backend() {
    let mut host = Host::new();
    host.start().unwrap();
    let status = host.get_state();
    assert_eq!(status.desired_running, None);
    assert_eq!(status.native_state, None);
    assert_eq!(status.last_start_config, None);
    assert_eq!(status.last_heartbeat_at, None);
    assert_eq!(status.restart_attempt, None);
    assert_eq!(status.recovery_reason, None);
    assert_eq!(status.platform_error, None);
}

#[test]
fn get_state_returns_last_start_config_from_backend() {
    let mut host = Host::with(
        settings(),
        true,
        &["specialUse"],
        true,
        NotifierPolicy::default(),
    );
    host.start_with(config("TestService", "specialUse")).unwrap();
    let cfg = host.get_state().last_start_config.unwrap();
    assert_eq!(cfg.service_label, "TestService");
    assert_eq!(cfg.foreground_service_type, "specialUse");
}

#[test]
fn get_state_populates_all_desired_state_fields() {
    let mut host = Host::with_backend();
    host.start().unwrap();
    {
        let last = host.last_save_mut();
        last.last_native_state = Some("timeout".into());
        last.last_platform_error = Some("FGS timed out".into());
        last.restart_attempt = 3;
        last.recovery_reason = Some("boot recovery".into());
        last.last_heartbeat_epoch_ms = Some(1700000005000);
    }
    let status = host.get_state();
    assert_eq!(status.desired_running, Some(true));
    assert_eq!(status.native_state, Some(NativeState::Timeout));
    assert_eq!(status.platform_error, Some("FGS timed out".into()));
    assert_eq!(status.restart_attempt, Some(3));
    assert_eq!(status.recovery_reason, Some("boot recovery".into()));
    assert_eq!(status.last_heartbeat_at, Some(1700000005000));
}

#[test]
fn stored_native_state_is_read_as_json() {
    let mut host = Host::with_backend();
    host.start().unwrap();
    for (stored, expected) in [
        ("idle", Some(NativeState::Idle)),
        ("recovering", Some(NativeState::Recovering)),
        ("\\u0069dle", Some(NativeState::Idle)),
        ("bogus", None),
        ("idle\"", None),
        ("\\", None),
        ("idle\n", None),
        ("Idle", None),
    ] {
        host.last_save_mut().last_native_state = Some(stored.into());
        assert_eq!(host.get_state().native_state, expected, "{stored:?}");
    }
}

#[test]
fn get_state_returns_platform_mode() {
    let mut host = Host::new();
    assert_eq!(
        host.get_state().platform_mode,
        Some(LifecycleMode::DesktopInProcess)
    );
}

#[test]
fn enable_auto_restart_saves_true_without_starting() {
    let mut host = Host::with_backend();
    host.command(ManagerCommand::EnableAutoRestart { config: None })
        .unwrap();
    assert!(!host.is_running());
    assert!(host.last_save().desired_running);
}

#[test]
fn disable_auto_restart_saves_false_without_stopping() {
    let mut host = Host::with_backend();
    host.start().unwrap();
    host.command(ManagerCommand::DisableAutoRestart).unwrap();
    assert!(host.is_running());
    assert!(!host.last_save().desired_running);
}

#[test]
fn enable_auto_restart_with_config_stores_config() {
    let mut host = Host::with_backend();
    host.command(ManagerCommand::EnableAutoRestart {
        config: Some(config("MyService", "specialUse")),
    })
    .unwrap();
    let saved = host.last_save();
    assert!(saved.desired_running);
    assert_eq!(
        saved.last_start_config,
        Some(SavedConfig::Config(config("MyService", "specialUse")))
    );
    assert!(saved.last_start_epoch_ms.is_some());
}

#[test]
fn disable_auto_restart_clears_recovery_fields() {
    let mut host = Host::with_backend();
    host.command(ManagerCommand::EnableAutoRestart { config: None })
        .unwrap();
    {
        let last = host.last_save_mut();
        last.recovery_pending = true;
        last.recovery_reason = Some("boot".into());
        last.restart_attempt = 5;
    }
    host.command(ManagerCommand::DisableAutoRestart).unwrap();
    let saved = host.last_save();
    assert!(!saved.desired_running);
    assert!(!saved.recovery_pending);
    assert_eq!(saved.recovery_reason, None);
    assert_eq!(saved.restart_attempt, 0);
}

#[test]
fn enable_auto_restart_keeps_recovery_fields() {
    let stored = DesiredState {
        recovery_pending: true,
        recovery_reason: Some("boot".into()),
        restart_attempt: 5,
        last_native_state: Some("timeout".into()),
        ..Default::default()
    };
    let change = DesiredChange {
        desired: true,
        config: None,
    };
    let saved = desired_after(Some(stored.clone()), &change, 7);
    assert_eq!(
        saved,
        DesiredState {
            desired_running: true,
            last_start_epoch_ms: Some(7),
            ..stored
        }
    );
}

#[test]
fn unreadable_store_counts_as_blank() {
    let change = DesiredChange {
        desired: true,
        config: Some(config("a", "b")),
    };
    assert_eq!(
        desired_after(None, &change, 9),
        DesiredState {
            desired_running: true,
            last_start_config: Some(SavedConfig::Config(config("a", "b"))),
            last_start_epoch_ms: Some(9),
            ..Default::default()
        }
    );
}

#[test]
fn enable_auto_restart_mirrors_desired_state_to_native() {
    let mut host = Host::with_backend();
    host.set_mobile(Mobile::new());
    host.command(ManagerCommand::EnableAutoRestart {
        config: Some(config("Mirror", "specialUse")),
    })
    .unwrap();
    assert_eq!(
        host.mobile().mirrors,
        vec![DesiredChange {
            desired: true,
            config: Some(config("Mirror", "specialUse"))
        }]
    );
}

#[test]
fn disable_auto_restart_mirrors_false_to_native() {
    let mut host = Host::with_backend();
    host.set_mobile(Mobile::new());
    host.command(ManagerCommand::DisableAutoRestart).unwrap();
    assert_eq!(
        host.mobile().mirrors,
        vec![DesiredChange {
            desired: false,
            config: None
        }]
    );
}

#[test]
fn set_desired_running_mirrors_to_native() {
    let mut host = Host::with_backend();
    host.set_mobile(Mobile::new());
    host.command(ManagerCommand::SetDesiredRunning {
        desired: true,
        config: None,
    })
    .unwrap();
    assert_eq!(host.mobile().mirrors.len(), 1);
    assert!(host.mobile().mirrors[0].desired);
}

#[test]
fn enable_auto_restart_without_mobile_does_not_panic() {
    let mut host = Host::with_backend();
    host.command(ManagerCommand::EnableAutoRestart { config: None })
        .unwrap();
    assert!(host.last_save().desired_running);
}

#[test]
fn get_desired_state_returns_current_state() {
    let mut host = Host::with_backend();
    assert!(!host.get_desired_state().unwrap().desired_running);
    host.command(ManagerCommand::EnableAutoRestart {
        config: Some(config("Test", "dataSync")),
    })
    .unwrap();
    let state = host.get_desired_state().unwrap();
    assert!(state.desired_running);
    assert!(state.last_start_config.is_some());
}

#[test]
fn get_desired_state_returns_none_without_backend() {
    assert!(Host::new().get_desired_state().is_none());
}

#[test]
fn enable_disable_no_backend_no_panic() {
    let mut host = Host::new();
    host.command(ManagerCommand::EnableAutoRestart { config: None })
        .unwrap();
    host.command(ManagerCommand::DisableAutoRestart).unwrap();
}

#[test]
fn get_state_stop_clears_start_config_and_recovery() {
    let mut host = Host::with_backend();
    host.start_with(config("Syncing", "remoteMessaging")).unwrap();
    host.stop().unwrap();
    let status = host.get_state();
    assert_eq!(status.desired_running, Some(false));
    assert_eq!(status.last_start_config, None);
    assert_eq!(status.restart_attempt, None);
    assert_eq!(status.recovery_reason, None);
}

// ─── Stop reasons ──────────────────────────────────────────────────────

fn clears(reason: StopReason) {
    let mut host = Host::with_backend();
    host.start_running();
    let before = host.save_count();
    host.stop_for(reason).unwrap();
    assert_eq!(host.save_count(), before + 1, "{reason:?} saves");
    assert!(!host.last_save().desired_running, "{reason:?} clears");
    assert!(host.last_save().last_start_config.is_none());
}

fn preserves(reason: StopReason) {
    let mut host = Host::with_backend();
    host.start_running();
    let before = host.save_count();
    host.stop_for(reason).unwrap();
    assert_eq!(host.save_count(), before, "{reason:?} saves nothing");
    assert!(host.last_save().desired_running, "{reason:?} preserves");
}

#[test]
fn stop_with_reason_user_stop_clears_desired_state() {
    clears(StopReason::UserStop);
}

#[test]
fn stop_with_reason_app_stop_clears_desired_state() {
    clears(StopReason::AppStop);
}

#[test]
fn stop_with_reason_native_notification_stop_clears_desired_state() {
    clears(StopReason::NativeNotificationStop);
}

#[test]
fn stop_with_reason_task_completed_clears_desired_state() {
    clears(StopReason::TaskCompleted);
}

#[test]
fn stop_with_reason_platform_expiration_preserves_desired_state() {
    preserves(StopReason::PlatformExpiration);
}

#[test]
fn stop_with_reason_platform_timeout_preserves_desired_state() {
    preserves(StopReason::PlatformTimeout);
}

#[test]
fn stop_with_reason_error_preserves_desired_state() {
    preserves(StopReason::Error);
    preserves(StopReason::OsRestart);
    preserves(StopReason::BootRecovery);
}

#[test]
fn stop_with_reason_not_running_returns_not_running() {
    let mut host = Host::new();
    assert!(matches!(
        host.stop_for(StopReason::UserStop),
        Err(ServiceError::NotRunning)
    ));
}

#[test]
fn stop_with_reason_cancels_service() {
    let mut host = Host::new();
    host.start().unwrap();
    assert!(host.is_running());
    host.stop_for(StopReason::UserStop).unwrap();
    assert!(!host.is_running());
    assert!(host.tasks[0].shutdown.is_cancelled());
}

#[test]
fn stop_with_reason_stops_mobile_keepalive() {
    let mut host = Host::new();
    host.set_mobile(Mobile::new());
    host.start().unwrap();
    assert_eq!(host.mobile().stops, 0);
    host.stop_for(StopReason::UserStop).unwrap();
    assert_eq!(host.mobile().stops, 1);
}

#[test]
fn stop_delegates_to_stop_with_reason_user_stop_clears_desired() {
    let mut host = Host::with_backend();
    host.start_running();
    let before = host.save_count();
    host.stop().unwrap();
    assert_eq!(host.save_count(), before + 1);
    assert!(!host.last_save().desired_running);
}

#[test]
fn stop_with_reason_idempotent_second_returns_not_running() {
    let mut host = Host::with_backend();
    host.start_running();
    host.stop_for(StopReason::UserStop).unwrap();
    let after_first = host.save_count();
    assert!(matches!(
        host.stop_for(StopReason::UserStop),
        Err(ServiceError::NotRunning)
    ));
    assert_eq!(host.save_count(), after_first);
}

#[test]
fn stop_with_reason_platform_expiration_skips_stop_keepalive() {
    let mut host = Host::with_backend();
    host.set_mobile(Mobile::new());
    host.start_running();
    let before = host.save_count();
    host.stop_for(StopReason::PlatformExpiration).unwrap();
    assert!(!host.is_running());
    assert_eq!(host.mobile().stops, 0);
    assert_eq!(host.save_count(), before);
    assert!(host.last_save().desired_running);
    assert!(host.mobile().mirrors.is_empty());
}

#[test]
fn process_exit_preserves_desired_and_keepalive() {
    let mut host = Host::with_backend();
    host.set_mobile(Mobile::new());
    host.start_running();
    let before = host.save_count();
    host.stop_for(StopReason::ProcessExit).unwrap();
    assert!(!host.is_running());
    assert_eq!(host.mobile().stops, 0);
    assert_eq!(host.save_count(), before);
    assert!(host.last_save().desired_running);
}

#[test]
fn cancel_listener_platform_timeout_preserves_desired_and_resubmits() {
    let mut host = Host::with_backend();
    host.set_mobile(Mobile::new());
    host.start_running();
    let before = host.save_count();
    host.stop_for(StopReason::PlatformTimeout).unwrap();
    assert!(!host.is_running());
    assert_eq!(host.mobile().stops, 0);
    assert_eq!(host.save_count(), before);
    assert!(host.last_save().desired_running);
    assert_eq!(
        host.mobile().mirrors,
        vec![DesiredChange {
            desired: true,
            config: Some(config("Service running", "remoteMessaging"))
        }]
    );
}

#[test]
fn timeout_resubmits_only_what_is_still_wanted() {
    let mut host = Host::with_backend();
    host.set_mobile(Mobile::new());
    host.start_running();
    host.last_save_mut().desired_running = false;
    host.stop_for(StopReason::PlatformTimeout).unwrap();
    assert!(host.mobile().mirrors.is_empty());
    assert_eq!(host.state.resubmission(&None), None);
}

#[test]
fn cancel_listener_user_stop_clears_desired_and_stops_keepalive() {
    let mut host = Host::with_backend();
    host.set_mobile(Mobile::new());
    host.start_running();
    host.stop().unwrap();
    assert!(!host.is_running());
    assert_eq!(host.mobile().stops, 1);
    assert!(!host.last_save().desired_running);
}

// ─── Notifications ─────────────────────────────────────────────────────

#[test]
fn recording_sink_records_notify_calls() {
    let sink = RecordingSink::new();
    sink.notify("bg-timeout", "title", "body");
    assert_eq!(
        sink.calls(),
        vec![("bg-timeout".into(), "title".into(), "body".into())]
    );
}

#[test]
fn timeout_stop_with_default_policy_fires_nothing() {
    let sink = RecordingSink::new();
    let mut host = Host::with_sink(NotifierPolicy::default(), &sink);
    host.start_running();
    host.stop_for(StopReason::PlatformTimeout).unwrap();
    assert!(sink.calls().is_empty());
}

#[test]
fn timeout_stop_fires_bg_timeout_when_policy_on() {
    let sink = RecordingSink::new();
    let policy = NotifierPolicy {
        on_timeout: true,
        on_recovery: false,
    };
    let mut host = Host::with_sink(policy, &sink);
    host.start_running();
    host.stop_for(StopReason::PlatformTimeout).unwrap();
    assert_eq!(
        sink.calls(),
        vec![(
            "bg-timeout".into(),
            "Sila background service paused".into(),
            "The OS paused background delivery; it will resume automatically.".into()
        )]
    );
    host.start_running();
    host.stop_for(StopReason::PlatformExpiration).unwrap();
    assert_eq!(sink.calls().len(), 2);
    assert_eq!(sink.calls()[1].0, "bg-timeout");
}

#[test]
fn user_stop_fires_nothing_even_with_timeout_policy_on() {
    let sink = RecordingSink::new();
    let policy = NotifierPolicy {
        on_timeout: true,
        on_recovery: true,
    };
    let mut host = Host::with_sink(policy, &sink);
    host.start_running();
    host.stop_for(StopReason::UserStop).unwrap();
    assert!(sink.calls().is_empty());
}

#[test]
fn recovery_acceptance_fires_bg_recovery_not_the_stop_path() {
    let sink = RecordingSink::new();
    let policy = NotifierPolicy {
        on_timeout: false,
        on_recovery: true,
    };
    let mut host = Host::with_sink(policy, &sink);
    host.start_running();
    host.stop_for(StopReason::OsRestart).unwrap();
    assert!(sink.calls().is_empty());
    host.native_event(NativeLifecycleEvent::AndroidOsRestartAccepted)
        .unwrap();
    assert_eq!(
        sink.calls(),
        vec![(
            "bg-recovery".into(),
            "Sila background service restored".into(),
            "Background delivery restored.".into()
        )]
    );
    host.native_event(NativeLifecycleEvent::AndroidBootRecoveryAccepted)
        .unwrap();
    assert_eq!(sink.calls().len(), 2);
    assert_eq!(sink.calls()[1].0, "bg-recovery");
}

#[test]
fn recovery_acceptance_leaves_the_run_alone() {
    let mut host = Host::new();
    host.start_running();
    host.native_event(NativeLifecycleEvent::AndroidOsRestartAccepted)
        .unwrap();
    assert!(host.is_running());
    assert!(!host.tasks[0].shutdown.is_cancelled());
}

#[test]
fn fire_points_with_no_sink_installed_do_not_panic() {
    let policy = NotifierPolicy {
        on_timeout: true,
        on_recovery: true,
    };
    let mut host = Host::with(settings(), false, &["remoteMessaging"], true, policy);
    host.start_running();
    host.stop_for(StopReason::PlatformTimeout).unwrap();
    host.native_event(NativeLifecycleEvent::AndroidOsRestartAccepted)
        .unwrap();
}

#[test]
fn android_derived_policy_suppresses_both_fire_points() {
    let plugin = PluginConfig {
        notify_on_timeout: true,
        notify_on_recovery: true,
        android_on_timeout: "notifyUser".into(),
        ..Default::default()
    };
    let policy = NotifierPolicy::derive(&plugin, true);
    let sink = RecordingSink::new();
    let mut host = Host::with_sink(policy, &sink);
    host.start_running();
    host.stop_for(StopReason::PlatformTimeout).unwrap();
    host.native_event(NativeLifecycleEvent::AndroidOsRestartAccepted)
        .unwrap();
    assert!(sink.calls().is_empty());
}

// ─── Native events ─────────────────────────────────────────────────────

#[test]
fn native_lifecycle_notification_stop_clears_desired_state() {
    let mut host = Host::with_backend();
    host.set_mobile(Mobile::new());
    host.start_running();
    let before = host.save_count();
    host.native_event(NativeLifecycleEvent::AndroidNotificationStop)
        .unwrap();
    assert!(!host.is_running());
    assert_eq!(host.save_count(), before + 1);
    assert!(!host.last_save().desired_running);
    assert_eq!(host.mobile().stops, 1);
}

#[test]
fn native_lifecycle_timeout_preserves_desired_state() {
    let mut host = Host::with_backend();
    host.set_mobile(Mobile::new());
    host.start_running();
    let before = host.save_count();
    host.native_event(NativeLifecycleEvent::AndroidTimeout {
        fgs_type: Some("dataSync".into()),
    })
    .unwrap();
    assert!(!host.is_running());
    assert_eq!(host.save_count(), before);
    assert!(host.last_save().desired_running);
    assert_eq!(host.mobile().stops, 0);
}

#[test]
fn native_lifecycle_event_idempotent_when_already_stopped() {
    let mut host = Host::with_backend();
    host.start_running();
    host.stop().unwrap();
    let before = host.save_count();
    assert!(matches!(
        host.native_event(NativeLifecycleEvent::AndroidNotificationStop),
        Err(ServiceError::NotRunning)
    ));
    assert_eq!(host.save_count(), before);
    assert!(matches!(
        host.native_event(NativeLifecycleEvent::AndroidTimeout { fgs_type: None }),
        Err(ServiceError::NotRunning)
    ));
}

// ─── Forwarded calls and shutdown ──────────────────────────────────────

fn forwarded_commands() -> Vec<(ManagerCommand<u8>, NativeForward)> {
    vec![
        (
            ManagerCommand::NotifyIncomingCall {
                call_id: "c1".into(),
                caller_name: "Ada".into(),
                is_video: true,
            },
            NativeForward::ShowIncomingCall {
                call_id: "c1".into(),
                caller_name: "Ada".into(),
                is_video: true,
            },
        ),
        (
            ManagerCommand::NotifyMessage {
                notification_id: -7,
                chat_id: "chat".into(),
                message_id: "message".into(),
                title: "title".into(),
                body: "body".into(),
                route_uri: "route".into(),
            },
            NativeForward::ShowMessageNotification {
                notification_id: -7,
                chat_id: "chat".into(),
                message_id: "message".into(),
                title: "title".into(),
                body: "body".into(),
                route_uri: "route".into(),
            },
        ),
        (
            ManagerCommand::CancelIncomingCall {
                call_id: "c2".into(),
            },
            NativeForward::CancelIncomingCall {
                call_id: "c2".into(),
            },
        ),
        (
            ManagerCommand::SetCallAudioRoute {
                call_id: "c3".into(),
                route: "speaker".into(),
            },
            NativeForward::SetCallAudioRoute {
                call_id: "c3".into(),
                route: "speaker".into(),
            },
        ),
        (
            ManagerCommand::OpenAppSettings,
            NativeForward::OpenAppSettings,
        ),
    ]
}

#[test]
fn native_calls_are_forwarded_to_the_bridge() {
    let mut host = Host::new();
    host.set_mobile(Mobile::new());
    for (command, call) in forwarded_commands() {
        host.command(command).unwrap();
        assert_eq!(host.mobile().forwards.last(), Some(&call));
    }
}

#[test]
fn native_calls_without_a_bridge_succeed_silently() {
    let mut host = Host::new();
    for (command, _) in forwarded_commands() {
        assert!(matches!(host.state.step(command), Step::Reply(Ok(()))));
    }
}

#[test]
fn shutdown_drains_only_once_an_app_is_known() {
    let mut host = Host::new();
    host.command(ManagerCommand::ShutdownGracefully).unwrap();
    assert_eq!(host.drains, 0);
    host.start_running();
    host.stop().unwrap();
    host.command(ManagerCommand::ShutdownGracefully).unwrap();
    assert_eq!(host.drains, 1);
}

// ─── Lifecycle status ──────────────────────────────────────────────────

#[test]
fn get_lifecycle_status_returns_idle_initially() {
    let mut host = Host::new();
    let status = host.lifecycle();
    assert_eq!(status.state, LifecycleState::Idle);
    assert!(!status.desired_running);
    assert!(!status.recovery_enabled);
    assert!(!status.recovery_pending);
    assert!(status.last_error.is_none());
    assert!(status.last_start_config.is_none());
    assert_eq!(status.degraded, None);
    assert_eq!(status.adopted, None);
    assert_eq!(status.native_running, None);
    assert_eq!(status.native_foreground, None);
    assert_eq!(status.data_dir, None);
}

#[test]
fn get_lifecycle_status_returns_running_after_start() {
    let mut host = Host::new();
    host.start_running();
    assert_eq!(host.lifecycle().state, LifecycleState::Running);
}

#[test]
fn get_lifecycle_status_reflects_desired_state() {
    let mut host = Host::with_backend();
    host.command(ManagerCommand::EnableAutoRestart {
        config: Some(config("a", "b")),
    })
    .unwrap();
    {
        let last = host.last_save_mut();
        last.recovery_pending = true;
        last.recovery_reason = Some("boot".into());
        last.last_native_state = Some("timeout".into());
        last.last_platform_error = Some("FGS timed out".into());
    }
    let status = host.lifecycle();
    assert!(status.desired_running);
    assert!(status.recovery_enabled);
    assert!(status.recovery_pending);
    assert_eq!(status.recovery_reason, Some("boot".into()));
    assert_eq!(status.last_start_config, Some(config("a", "b")));
    assert_eq!(status.last_platform_state, Some("timeout".into()));
    assert_eq!(status.last_platform_error, Some("FGS timed out".into()));
}

#[test]
fn get_lifecycle_status_clears_after_disable_recovery() {
    let mut host = Host::with_backend();
    host.command(ManagerCommand::EnableAutoRestart { config: None })
        .unwrap();
    host.command(ManagerCommand::DisableAutoRestart).unwrap();
    let status = host.lifecycle();
    assert!(!status.desired_running);
    assert!(!status.recovery_enabled);
}

#[test]
fn get_lifecycle_status_includes_platform_and_capabilities() {
    let mut host = Host::new();
    let status = host.lifecycle();
    assert_eq!(status.platform, Platform::Linux);
    assert_eq!(status.capabilities, capabilities());
    assert!(status.issues.is_empty());
    let status = host.lifecycle_on(Platform::Ios, None);
    assert_eq!(status.issues.len(), 3);
    assert_eq!(status.issues[2].code, "ios_background_refresh");
    let bare = DesktopProbe {
        systemctl_in_usr_bin: false,
        systemctl_in_bin: false,
        systemctl_on_path: false,
        linger_by_uid: false,
        linger_by_name: None,
    };
    let status = host.lifecycle_on(Platform::Linux, Some(bare));
    assert_eq!(status.issues.len(), 1);
    assert_eq!(status.issues[0].code, "desktop_systemd_missing");
    assert_eq!(status.issues[0].severity, Severity::Error);
}

#[test]
fn get_lifecycle_status_returns_stopped_after_stop() {
    let mut host = Host::new();
    host.start_running();
    host.stop().unwrap();
    assert_eq!(host.lifecycle().state, LifecycleState::Stopped);
}

#[test]
fn merge_adopt_native_when_running() {
    let mut host = Host::new();
    host.set_mobile(Mobile::new());
    host.start_running();
    host.stop().unwrap();
    host.report_android(|| native_state(true));
    let status = host.lifecycle();
    assert_eq!(status.adopted, Some(true));
    assert_eq!(status.degraded, Some(false));
    assert_eq!(status.native_running, Some(true));
    assert_eq!(status.native_foreground, Some(true));
    assert_eq!(status.state, LifecycleState::Running);
    // an adopted service is no run of the manager: there is nothing to cancel
    assert!(matches!(host.stop(), Err(ServiceError::NotRunning)));
}

#[test]
fn merge_autoheal_when_native_stopped() {
    let mut host = Host::new();
    host.set_mobile(Mobile::new());
    host.start_running();
    host.report_android(|| native_state(false));
    let status = host.lifecycle();
    assert_eq!(status.degraded, Some(true));
    assert_eq!(
        status.degraded_reason,
        Some("native_stopped_rust_running".into())
    );
    assert_eq!(status.adopted, None);
    assert_eq!(status.state, LifecycleState::Stopped);
    // the run itself can still be stopped
    assert!(host.stop().is_ok());
}

#[test]
fn actor_converges_to_native_stopped() {
    let mut host = Host::new();
    host.set_mobile(Mobile::new());
    host.start_running();
    assert!(host.is_running());
    host.report_android(|| native_state(false));
    assert!(!host.is_running());
    assert_eq!(host.get_state().state, ServiceState::Stopped);
    host.report_android(|| native_state(true));
    assert!(host.is_running());
    assert_eq!(host.get_state().state, ServiceState::Running);
}

#[test]
fn merge_normal_both_running() {
    let mut host = Host::new();
    host.set_mobile(Mobile::new());
    host.start_running();
    host.report_android(|| native_state(true));
    let status = host.lifecycle();
    assert_eq!(status.degraded, Some(false));
    assert_eq!(status.adopted, Some(false));
    assert_eq!(status.state, LifecycleState::Running);
}

#[test]
fn merge_normal_both_idle() {
    let mut host = Host::new();
    host.set_mobile(Mobile::new());
    host.report_android(|| native_state(false));
    let status = host.lifecycle();
    assert_eq!(status.degraded, Some(false));
    assert_eq!(status.adopted, Some(false));
    assert_eq!(status.state, LifecycleState::Idle);
}

#[test]
fn merge_timeout_detection() {
    let mut host = Host::new();
    host.set_mobile(Mobile::new());
    host.start_running();
    host.report_android(|| AndroidServiceState {
        durable_state: "timeout".into(),
        ..native_state(true)
    });
    let status = host.lifecycle();
    assert_eq!(status.degraded, Some(true));
    assert_eq!(status.degraded_reason, Some("native_timeout".into()));
    assert_eq!(
        host.degraded,
        vec![DegradedEvent::Status {
            reason: Some("native_timeout".into()),
            native_running: Some(true),
            rust_running: true
        }]
    );
}

#[test]
fn merge_recovery_pending_surfaces() {
    let mut host = Host::new();
    host.set_mobile(Mobile::new());
    host.report_android(|| AndroidServiceState {
        recovery_pending: true,
        recovery_reason: Some("core_start_failed".into()),
        ..native_state(false)
    });
    assert!(host.lifecycle().recovery_pending);
}

#[test]
fn merge_degraded_event_emitted() {
    let mut host = Host::new();
    host.set_mobile(Mobile::new());
    host.start_running();
    host.report_android(|| native_state(false));
    host.lifecycle();
    assert_eq!(
        host.degraded,
        vec![DegradedEvent::Status {
            reason: Some("native_stopped_rust_running".into()),
            native_running: Some(false),
            rust_running: true
        }]
    );
}

#[test]
fn merge_degraded_clears_on_convergence() {
    let mut host = Host::new();
    host.set_mobile(Mobile::new());
    host.start_running();
    host.report_android(|| native_state(false));
    assert_eq!(host.lifecycle().degraded, Some(true));
    let second = host.lifecycle();
    assert_eq!(second.degraded, Some(false));
    assert_eq!(second.degraded_reason, None);
    assert_eq!(host.degraded.len(), 1);
}

#[test]
fn ios_status_reflects_scheduling_failure() {
    let mut host = Host::new();
    host.set_mobile(Mobile::new());
    host.report_ios(|| IosNativeState {
        last_refresh_error: Some("BGTaskSchedulerErrorDomain code 1".into()),
        last_processing_error: Some("other".into()),
        ..ios_state(true)
    });
    let status = host.lifecycle();
    assert_eq!(status.degraded, Some(true));
    assert_eq!(status.degraded_reason, Some("ios_scheduling_error".into()));
    assert_eq!(
        status.last_platform_error,
        Some("BGTaskSchedulerErrorDomain code 1".into())
    );
    // no start has supplied an app to announce it on
    assert!(host.degraded.is_empty());
    host.report_ios(|| IosNativeState {
        last_processing_error: Some("other".into()),
        ..ios_state(true)
    });
    assert_eq!(host.lifecycle().last_platform_error, Some("other".into()));
}

#[test]
fn ios_status_reflects_waiting_for_next_bgtask() {
    let mut host = Host::new();
    host.set_mobile(Mobile::new());
    host.start_running();
    host.report_ios(|| ios_state(true));
    let status = host.lifecycle();
    assert_eq!(status.last_platform_state, Some("waitingForBgTask".into()));
    assert_eq!(status.native_running, Some(false));
    assert_eq!(status.native_foreground, Some(false));
    assert_eq!(status.degraded, Some(false));
    assert_eq!(status.adopted, None);
    assert_eq!(status.state, LifecycleState::Running);
}

#[test]
fn ios_phases_are_named() {
    let mut host = Host::new();
    host.set_mobile(Mobile::new());
    host.start_running();
    host.report_ios(|| IosNativeState {
        active_task_kind: Some("refresh".into()),
        ..ios_state(false)
    });
    let status = host.lifecycle();
    assert_eq!(status.last_platform_state, Some("running".into()));
    assert_eq!(status.native_running, Some(true));
    assert_eq!(status.state, LifecycleState::Running);
    host.report_ios(|| IosNativeState {
        pending_task: Some(PendingTaskInfo {
            task_kind: "refresh".into(),
            identifier: "com.example.app.bg-refresh".into(),
            received_at: double(1.5),
            consumed_at: None,
        }),
        ..ios_state(true)
    });
    assert_eq!(
        host.lifecycle().last_platform_state,
        Some("pendingBgTask".into())
    );
    // neither wanted nor executing: stopped, whatever the manager believes
    host.report_ios(|| ios_state(false));
    let status = host.lifecycle();
    assert_eq!(status.last_platform_state, Some("stopped".into()));
    assert_eq!(status.state, LifecycleState::Stopped);
    assert!(host.is_running());
}

#[test]
fn ios_status_out_of_budget_is_degraded() {
    let mut host = Host::new();
    host.set_mobile(Mobile::new());
    host.report_ios(|| IosNativeState {
        in_budget: false,
        ..ios_state(true)
    });
    let status = host.lifecycle();
    assert_eq!(status.degraded, Some(true));
    assert_eq!(status.degraded_reason, Some("ios_out_of_budget".into()));
    host.report_ios(|| IosNativeState {
        in_budget: false,
        ..ios_state(false)
    });
    assert_eq!(host.lifecycle().degraded, Some(false));
}

#[test]
fn ios_reconcile_keeps_actor_belief_without_android_call() {
    let mut host = Host::new();
    host.set_mobile(Mobile::new());
    host.start_running();
    host.report_ios(|| ios_state(true));
    assert!(host.is_running());
    assert_eq!(host.get_state().state, ServiceState::Running);
}

#[test]
fn android_status_poll_still_queries_android_state() {
    let mut host = Host::new();
    host.set_mobile(Mobile::new());
    host.report_android(|| native_state(true));
    host.lifecycle();
    assert_eq!(host.mobile().queries, 1);
}

#[test]
fn adoption_native_start_ui_attach_events() {
    let mut host = Host::new();
    host.set_mobile(Mobile::new());
    host.start_running();
    host.stop().unwrap();
    host.report_android(|| native_state(true));
    let status = host.lifecycle();
    assert_eq!(status.adopted, Some(true));
    assert_eq!(status.degraded, Some(false));
    assert_eq!(status.state, LifecycleState::Running);
    host.report_android(|| native_state(false));
    host.lifecycle();
    assert_eq!(host.degraded.len(), 1);
}

#[test]
fn adoption_data_dir_surfaces_in_status() {
    let mut host = Host::new();
    host.set_mobile(Mobile::new());
    host.report_android(|| AndroidServiceState {
        data_dir: "/data/app/com.sila".into(),
        ..native_state(false)
    });
    assert_eq!(
        host.lifecycle().data_dir,
        Some("/data/app/com.sila".to_string())
    );
}

#[test]
fn adoption_setup_idle_is_healthy() {
    let mut host = Host::new();
    host.set_mobile(Mobile::new());
    host.report_android(|| AndroidServiceState {
        durable_state: "setup_idle".into(),
        ..native_state(true)
    });
    let status = host.lifecycle();
    assert_ne!(status.degraded, Some(true));
    assert_eq!(status.state, LifecycleState::SetupIdle);
}

#[test]
fn adoption_locked_idle_is_healthy() {
    let mut host = Host::new();
    host.set_mobile(Mobile::new());
    host.report_android(|| AndroidServiceState {
        durable_state: "locked_idle".into(),
        ..native_state(true)
    });
    let status = host.lifecycle();
    assert_ne!(status.degraded, Some(true));
    assert_eq!(status.state, LifecycleState::LockedIdle);
}

#[test]
fn stale_timeout_surfaces_in_status_when_not_running() {
    let mut host = Host::new();
    host.set_mobile(Mobile::new());
    host.report_android(|| AndroidServiceState {
        durable_state: "timeout".into(),
        last_platform_error: Some("FGS timeout (type: remoteMessaging)".into()),
        ..native_state(false)
    });
    let status = host.lifecycle();
    assert_eq!(status.degraded, Some(true));
    assert_eq!(status.degraded_reason, Some("stale_timeout".into()));
    assert_eq!(status.last_platform_error, None);
}

#[test]
fn native_problem_outranks_degraded_scheduling() {
    let mut host = Host::new();
    host.set_mobile(Mobile::failing_advisory());
    host.start_running();
    host.report_ios(|| IosNativeState {
        last_refresh_error: Some("refused".into()),
        ..ios_state(true)
    });
    let status = host.lifecycle();
    assert_eq!(status.degraded_reason, Some("ios_scheduling_error".into()));
    assert_eq!(status.last_platform_error, Some("refused".into()));
    host.report_ios(|| ios_state(true));
    let status = host.lifecycle();
    assert_eq!(
        status.degraded_reason,
        Some("scheduling_degraded_foreground_only".into())
    );
}

#[test]
fn bgs31_sigterm_graceful_stop() {
    let mut host = Host::new();
    host.start_running();
    assert!(host.is_running());
    host.stop().unwrap();
    host.command(ManagerCommand::ShutdownGracefully).unwrap();
    assert!(!host.is_running());
    assert_eq!(host.drains, 1);
}

#[test]
fn update_refuses_what_start_refuses_with_the_same_message() {
    for t in ["bogus", "camera", "", "phoneCall", "PhoneCall"] {
        let mut idle = Host::with_types(&["remoteMessaging", "phoneCall"], true);
        idle.set_mobile(Mobile::enforcing());
        let started = idle.start_with(config("call", t));
        let mut running = Host::with_types(&["remoteMessaging", "phoneCall"], true);
        running.set_mobile(Mobile::enforcing());
        running.start_running();
        let updated = running.update_type(t);
        assert_eq!(
            started.map_err(|e| e.message()),
            updated.map_err(|e| e.message()),
            "{t}"
        );
    }
}

#[test]
fn both_statuses_show_the_saved_intent() {
    let mut host = Host::with_backend();
    let wanted = config("Sila", "remoteMessaging");
    host.start_with(wanted.clone()).unwrap();
    assert_eq!(host.get_state().desired_running, Some(true));
    assert_eq!(host.get_state().last_start_config, Some(wanted.clone()));
    let status = host.lifecycle();
    assert!(status.desired_running && status.recovery_enabled);
    assert_eq!(status.last_start_config, Some(wanted));
    host.last_save_mut().restart_attempt = 3;
    host.stop().unwrap();
    assert_eq!(host.get_state().desired_running, Some(false));
    assert_eq!(host.get_state().last_start_config, None);
    assert_eq!(host.get_state().restart_attempt, None);
    let status = host.lifecycle();
    assert!(!status.desired_running && !status.recovery_enabled);
    assert_eq!(status.last_start_config, None);
}

#[test]
fn native_stop_gives_way_to_the_timeout_behind_it() {
    let mut host = Host::new();
    host.set_mobile(Mobile::new());
    host.start_running();
    host.report_android(|| AndroidServiceState {
        durable_state: "timeout".into(),
        ..native_state(false)
    });
    let first = host.lifecycle();
    assert_eq!(
        first.degraded_reason,
        Some("native_stopped_rust_running".into())
    );
    let second = host.lifecycle();
    assert_eq!(second.degraded_reason, Some("stale_timeout".into()));
    assert_eq!(second.state, first.state);
}

#[test]
fn divergence_is_told_before_the_belief_follows() {
    for believed in [false, true] {
        for native in [false, true] {
            let mut host = Host::new();
            if believed {
                host.start_running();
            }
            let report = Some(NativeAuthority::Android(native_state(native)));
            assert_eq!(host.state.diverges(&report), believed != native);
            assert_eq!(host.state.reconcile_running_with_native(&report), native);
            assert!(!host.state.diverges(&report));
        }
    }
    let mut host = Host::new();
    host.start_running();
    assert!(!host.state.diverges(&None));
    assert!(!host.state.diverges(&Some(NativeAuthority::Ios(ios_state(false)))));
}
