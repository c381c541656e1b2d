//! The service task: what it does after initialising and after running, and
//! what that does to the manager.
//!
//! A run keeps the number that it was started with. Only the latest run may
//! change the manager: one that was stopped and replaced finds another number
//! there and leaves everything alone.

use crate::error::ServiceError;
use crate::manager::ManagerState;
use crate::models::{PluginEvent, ServiceState, StopReason};
use vstd::prelude::*;

verus! {

/// One thing that the service task does.
#[derive(Debug, PartialEq, Eq)]
pub enum TaskStep {
    /// Emit an event to the front end.
    Emit(PluginEvent),
    /// Tell the manager that the service initialised.
    MarkRunning,
    /// Run the service, then go on with [`run_steps`].
    Run,
    /// Tell the manager that the service failed to initialise.
    InitFailed { message: String },
    /// Fire the callback of the run, if it has one.
    Complete { success: bool },
    /// Tell the manager that the run is over.
    Finished { error: Option<String> },
}

/// What a [`TaskStep`] holds.
pub enum TaskStepView {
    EmitStarted,
    EmitStopped { reason: StopReason },
    EmitError { message: Seq<char> },
    MarkRunning,
    Run,
    InitFailed { message: Seq<char> },
    Complete { success: bool },
    Finished { error: Option<Seq<char>> },
}

impl View for TaskStep {
    type V = TaskStepView;

    open spec fn view(&self) -> TaskStepView {
        match self {
            TaskStep::Emit(PluginEvent::Started) => TaskStepView::EmitStarted,
            TaskStep::Emit(PluginEvent::Stopped { reason }) => TaskStepView::EmitStopped {
                reason: *reason,
            },
            TaskStep::Emit(PluginEvent::Error { message }) => TaskStepView::EmitError {
                message: message@,
            },
            TaskStep::MarkRunning => TaskStepView::MarkRunning,
            TaskStep::Run => TaskStepView::Run,
            TaskStep::InitFailed { message } => TaskStepView::InitFailed { message: message@ },
            TaskStep::Complete { success } => TaskStepView::Complete { success: *success },
            TaskStep::Finished { error } => TaskStepView::Finished {
                error: crate::text::opt_text(*error),
            },
        }
    }
}

/// What some steps hold, in order.
pub open spec fn step_views(steps: Seq<TaskStep>) -> Seq<TaskStepView> {
    Seq::new(steps.len(), |i: int| steps[i]@)
}

/// What the task does once the service has initialised or failed to.
pub open spec fn after_init(outcome: Result<(), ServiceError>) -> Seq<TaskStepView> {
    match outcome {
        Ok(()) => seq![TaskStepView::MarkRunning, TaskStepView::EmitStarted, TaskStepView::Run],
        Err(e) => seq![
            TaskStepView::EmitError { message: e.message_text() },
            TaskStepView::InitFailed { message: e.message_text() },
            TaskStepView::Complete { success: false },
        ],
    }
}

/// What the task does once the service has run.
pub open spec fn after_run(outcome: Result<(), ServiceError>) -> Seq<TaskStepView> {
    match outcome {
        Ok(()) => seq![
            TaskStepView::EmitStopped { reason: StopReason::TaskCompleted },
            TaskStepView::Complete { success: true },
            TaskStepView::Finished { error: None },
        ],
        Err(e) => seq![
            TaskStepView::EmitError { message: e.message_text() },
            TaskStepView::Complete { success: false },
            TaskStepView::Finished { error: Some(e.message_text()) },
        ],
    }
}

/// What the task does once the service has initialised or failed to.
pub fn init_steps(outcome: &Result<(), ServiceError>) -> (steps: Vec<TaskStep>)
    ensures
        step_views(steps@) == after_init(*outcome),
{
    let mut steps: Vec<TaskStep> = Vec::new();
    match outcome {
        Ok(()) => {
            steps.push(TaskStep::MarkRunning);
            steps.push(TaskStep::Emit(PluginEvent::Started));
            steps.push(TaskStep::Run);
        },
        Err(e) => {
            steps.push(TaskStep::Emit(PluginEvent::Error { message: e.message() }));
            steps.push(TaskStep::InitFailed { message: e.message() });
            steps.push(TaskStep::Complete { success: false });
        },
    }
    assert(step_views(steps@) =~= after_init(*outcome));
    steps
}

/// What the task does once the service has run.
///
/// The callback fires before the manager learns that the run is over, so that
/// whoever waits for the end of the run finds it fired.
pub fn run_steps(outcome: &Result<(), ServiceError>) -> (steps: Vec<TaskStep>)
    ensures
        step_views(steps@) == after_run(*outcome),
{
    let mut steps: Vec<TaskStep> = Vec::new();
    match outcome {
        Ok(()) => {
            steps.push(
                TaskStep::Emit(PluginEvent::Stopped { reason: StopReason::TaskCompleted }),
            );
            steps.push(TaskStep::Complete { success: true });
            steps.push(TaskStep::Finished { error: None });
        },
        Err(e) => {
            steps.push(TaskStep::Emit(PluginEvent::Error { message: e.message() }));
            steps.push(TaskStep::Complete { success: false });
            steps.push(TaskStep::Finished { error: Some(e.message()) });
        },
    }
    assert(step_views(steps@) =~= after_run(*outcome));
    steps
}

impl<C> ManagerState<C> {
    /// Run `generation` initialised.
    pub open spec fn initialised(self, generation: u64) -> Self {
        if self.generation == generation && self.lifecycle_state is Initializing {
            ManagerState { lifecycle_state: ServiceState::Running, ..self }
        } else {
            self
        }
    }

    /// Run `generation` failed to initialise.
    pub open spec fn init_failed(self, generation: u64, message: String) -> Self {
        if self.generation == generation {
            ManagerState {
                token: None,
                is_running: false,
                lifecycle_state: if self.lifecycle_state is Initializing {
                    ServiceState::Stopped
                } else {
                    self.lifecycle_state
                },
                last_error: Some(message),
                ..self
            }
        } else {
            self
        }
    }

    /// Run `generation` is over; `error` is there if it failed.
    pub open spec fn finished(self, generation: u64, error: Option<String>) -> Self {
        if self.generation == generation {
            ManagerState {
                token: None,
                is_running: false,
                lifecycle_state: match self.lifecycle_state {
                    ServiceState::Initializing => ServiceState::Stopped,
                    ServiceState::Running => ServiceState::Stopped,
                    other => other,
                },
                last_error: if error is Some {
                    error
                } else {
                    self.last_error
                },
                ..self
            }
        } else {
            self
        }
    }

    /// The state after a step of the task of run `generation`.
    pub open spec fn after_task_step(self, generation: u64, step: TaskStep) -> Self {
        match step {
            TaskStep::MarkRunning => self.initialised(generation),
            TaskStep::InitFailed { message } => self.init_failed(generation, message),
            TaskStep::Finished { error } => self.finished(generation, error),
            _ => self,
        }
    }

    /// Takes note of a step of the task of run `generation`.
    pub fn note_task_step(&mut self, generation: u64, step: TaskStep)
        ensures
            old(self).well_formed() ==> final(self).well_formed(),
            *final(self) == old(self).after_task_step(generation, step),
    {
        if self.generation != generation {
            return;
        }
        match step {
            TaskStep::MarkRunning => {
                if self.lifecycle_state == ServiceState::Initializing {
                    self.lifecycle_state = ServiceState::Running;
                }
            },
            TaskStep::InitFailed { message } => {
                self.token = None;
                self.is_running = false;
                if self.lifecycle_state == ServiceState::Initializing {
                    self.lifecycle_state = ServiceState::Stopped;
                }
                self.last_error = Some(message);
            },
            TaskStep::Finished { error } => {
                self.token = None;
                self.is_running = false;
                if self.lifecycle_state == ServiceState::Initializing || self.lifecycle_state
                    == ServiceState::Running {
                    self.lifecycle_state = ServiceState::Stopped;
                }
                if error.is_some() {
                    self.last_error = error;
                }
            },
            _ => {},
        }
    }
}

} // verus!
