//! The native bridge: which calls reach the native side on which system, and
//! what their replies mean.

use crate::error::ServiceError;
use crate::manager::{
    MobileBridge, NativeAuthority, NativeForward, StartKeepaliveArgs, TargetOs,
};
use crate::models::{
    AndroidServiceState, IOSDesiredStateStatus, IOSSchedulingStatus, IosNativeState,
    PendingTaskInfo,
};
use crate::text::copy_text;
use vstd::prelude::*;

verus! {

// ─── Calls ─────────────────────────────────────────────────────────────

/// A call to the native side, with its arguments.
#[derive(Debug, PartialEq, Eq)]
pub enum BridgeCall {
    /// Start the keepalive: a foreground service, or background tasks.
    StartKeepalive { args: StartKeepaliveArgs },
    /// Stop the keepalive.
    StopKeepalive,
    /// Ask the user to exempt the app from battery optimisation.
    RequestBatteryExemption,
    /// Tell that the background task is done.
    CompleteBgTask { success: bool },
    /// Wait until the native side cancels the run.
    WaitForCancel,
    /// End that wait.
    CancelCancelListener,
    /// Wait until a background task is delivered to the running app (iOS).
    WaitForBgTask,
    /// End that wait (iOS).
    CancelWarmListener,
    /// Hide the activity that an auto-start made visible.
    MoveTaskToBackground,
    /// Ask for the result of the last scheduling attempt.
    GetSchedulingStatus,
    /// Ask for the notification permission.
    GetNotificationPermissionStatus,
    /// Ask whether full-screen intents may be used.
    CanUseFullScreenIntent,
    /// Open the settings page for full-screen intents.
    OpenFullScreenIntentSettings,
    /// Request the notification permission.
    RequestNotificationPermission,
    /// Ask for the stored desired state.
    GetDesiredStateStatus,
    /// Ask for the background task that launched the app.
    GetPendingBgTask,
    /// Forget the background task that launched the app.
    ClearPendingBgTask,
    /// Record that an auto-start failed (iOS).
    RecordFailedPending,
    /// Ask for the state of the Android service (Android).
    GetAndroidServiceState,
    /// Change the type of the running foreground service (Android).
    UpdateForegroundServiceType { foreground_service_type: String },
    /// Announce an incoming call.
    ShowIncomingCall { call_id: String, caller_name: String, is_video: bool },
    /// Show a message that can be answered (Android).
    ShowMessageNotification {
        notification_id: i32,
        chat_id: String,
        message_id: String,
        title: String,
        body: String,
        route_uri: String,
    },
    /// Withdraw the announcement of a call.
    CancelIncomingCall { call_id: String },
    /// Route the audio of a call.
    SetCallAudioRoute { call_id: String, route: String },
    /// Open the settings page of the app.
    OpenAppSettings,
    /// Mirror the desired state (iOS).
    SetDesiredRunning { desired_running: bool, last_start_config: Option<String> },
}

impl BridgeCall {
    /// Whether only iOS handles the call.
    pub open spec fn is_ios_only(&self) -> bool {
        self is WaitForBgTask || self is CancelWarmListener || self is RecordFailedPending
            || self is SetDesiredRunning
    }

    /// Whether only Android handles the call.
    pub open spec fn is_android_only(&self) -> bool {
        self is GetAndroidServiceState || self is UpdateForegroundServiceType
            || self is ShowMessageNotification
    }

    /// Whether the call is made on a system; elsewhere it is without effect.
    pub open spec fn reaches(&self, target: TargetOs) -> bool {
        &&& self.is_ios_only() ==> target is Ios
        &&& self.is_android_only() ==> target is Android
    }

    /// The name of the native command.
    pub open spec fn command_text(&self) -> Seq<char> {
        match self {
            BridgeCall::StartKeepalive { .. } => "startKeepalive"@,
            BridgeCall::StopKeepalive => "stopKeepalive"@,
            BridgeCall::RequestBatteryExemption => "requestBatteryExemption"@,
            BridgeCall::CompleteBgTask { .. } => "completeBgTask"@,
            BridgeCall::WaitForCancel => "waitForCancel"@,
            BridgeCall::CancelCancelListener => "cancelCancelListener"@,
            BridgeCall::WaitForBgTask => "waitForBgTask"@,
            BridgeCall::CancelWarmListener => "cancelWarmListener"@,
            BridgeCall::MoveTaskToBackground => "moveTaskToBackground"@,
            BridgeCall::GetSchedulingStatus => "getSchedulingStatus"@,
            BridgeCall::GetNotificationPermissionStatus => "getNotificationPermissionStatus"@,
            BridgeCall::CanUseFullScreenIntent => "canUseFullScreenIntent"@,
            BridgeCall::OpenFullScreenIntentSettings => "openFullScreenIntentSettings"@,
            BridgeCall::RequestNotificationPermission => "requestNotificationPermission"@,
            BridgeCall::GetDesiredStateStatus => "getDesiredStateStatus"@,
            BridgeCall::GetPendingBgTask => "getPendingBgTask"@,
            BridgeCall::ClearPendingBgTask => "clearPendingBgTask"@,
            BridgeCall::RecordFailedPending => "recordFailedPending"@,
            BridgeCall::GetAndroidServiceState => "getAndroidServiceState"@,
            BridgeCall::UpdateForegroundServiceType { .. } => "updateForegroundServiceType"@,
            BridgeCall::ShowIncomingCall { .. } => "showIncomingCall"@,
            BridgeCall::ShowMessageNotification { .. } => "showMessageNotification"@,
            BridgeCall::CancelIncomingCall { .. } => "cancelIncomingCall"@,
            BridgeCall::SetCallAudioRoute { .. } => "setCallAudioRoute"@,
            BridgeCall::OpenAppSettings => "openAppSettings"@,
            BridgeCall::SetDesiredRunning { .. } => "setDesiredRunning"@,
        }
    }

    fn name(&self) -> (name: &'static str)
        ensures
            name@ == self.command_text(),
    {
        match self {
            BridgeCall::StartKeepalive { .. } => "startKeepalive",
            BridgeCall::StopKeepalive => "stopKeepalive",
            BridgeCall::RequestBatteryExemption => "requestBatteryExemption",
            BridgeCall::CompleteBgTask { .. } => "completeBgTask",
            BridgeCall::WaitForCancel => "waitForCancel",
            BridgeCall::CancelCancelListener => "cancelCancelListener",
            BridgeCall::WaitForBgTask => "waitForBgTask",
            BridgeCall::CancelWarmListener => "cancelWarmListener",
            BridgeCall::MoveTaskToBackground => "moveTaskToBackground",
            BridgeCall::GetSchedulingStatus => "getSchedulingStatus",
            BridgeCall::GetNotificationPermissionStatus => "getNotificationPermissionStatus",
            BridgeCall::CanUseFullScreenIntent => "canUseFullScreenIntent",
            BridgeCall::OpenFullScreenIntentSettings => "openFullScreenIntentSettings",
            BridgeCall::RequestNotificationPermission => "requestNotificationPermission",
            BridgeCall::GetDesiredStateStatus => "getDesiredStateStatus",
            BridgeCall::GetPendingBgTask => "getPendingBgTask",
            BridgeCall::ClearPendingBgTask => "clearPendingBgTask",
            BridgeCall::RecordFailedPending => "recordFailedPending",
            BridgeCall::GetAndroidServiceState => "getAndroidServiceState",
            BridgeCall::UpdateForegroundServiceType { .. } => "updateForegroundServiceType",
            BridgeCall::ShowIncomingCall { .. } => "showIncomingCall",
            BridgeCall::ShowMessageNotification { .. } => "showMessageNotification",
            BridgeCall::CancelIncomingCall { .. } => "cancelIncomingCall",
            BridgeCall::SetCallAudioRoute { .. } => "setCallAudioRoute",
            BridgeCall::OpenAppSettings => "openAppSettings",
            BridgeCall::SetDesiredRunning { .. } => "setDesiredRunning",
        }
    }

    /// The native command to run on a system; none where the call is without
    /// effect.
    pub fn command(&self, target: TargetOs) -> (command: Option<&'static str>)
        ensures
            command is Some <==> self.reaches(target),
            command matches Some(name) ==> name@ == self.command_text(),
    {
        let made: bool = match self {
            BridgeCall::WaitForBgTask => target == TargetOs::Ios,
            BridgeCall::CancelWarmListener => target == TargetOs::Ios,
            BridgeCall::RecordFailedPending => target == TargetOs::Ios,
            BridgeCall::SetDesiredRunning { .. } => target == TargetOs::Ios,
            BridgeCall::GetAndroidServiceState => target == TargetOs::Android,
            BridgeCall::UpdateForegroundServiceType { .. } => target == TargetOs::Android,
            BridgeCall::ShowMessageNotification { .. } => target == TargetOs::Android,
            _ => true,
        };
        if made {
            Some(self.name())
        } else {
            None
        }
    }
}

impl NativeForward {
    /// The bridge call that carries out a forwarded command.
    pub open spec fn bridged(self) -> BridgeCall {
        match self {
            NativeForward::UpdateKeepaliveType { foreground_service_type } => {
                BridgeCall::UpdateForegroundServiceType { foreground_service_type }
            },
            NativeForward::ShowIncomingCall { call_id, caller_name, is_video } => {
                BridgeCall::ShowIncomingCall { call_id, caller_name, is_video }
            },
            NativeForward::ShowMessageNotification {
                notification_id,
                chat_id,
                message_id,
                title,
                body,
                route_uri,
            } => BridgeCall::ShowMessageNotification {
                notification_id,
                chat_id,
                message_id,
                title,
                body,
                route_uri,
            },
            NativeForward::CancelIncomingCall { call_id } => BridgeCall::CancelIncomingCall {
                call_id,
            },
            NativeForward::SetCallAudioRoute { call_id, route } => BridgeCall::SetCallAudioRoute {
                call_id,
                route,
            },
            NativeForward::OpenAppSettings => BridgeCall::OpenAppSettings,
        }
    }

    /// The bridge call that carries out a forwarded command.
    pub fn into_call(self) -> (call: BridgeCall)
        ensures
            call == self.bridged(),
    {
        match self {
            NativeForward::UpdateKeepaliveType { foreground_service_type } => {
                BridgeCall::UpdateForegroundServiceType { foreground_service_type }
            },
            NativeForward::ShowIncomingCall { call_id, caller_name, is_video } => {
                BridgeCall::ShowIncomingCall { call_id, caller_name, is_video }
            },
            NativeForward::ShowMessageNotification {
                notification_id,
                chat_id,
                message_id,
                title,
                body,
                route_uri,
            } => BridgeCall::ShowMessageNotification {
                notification_id,
                chat_id,
                message_id,
                title,
                body,
                route_uri,
            },
            NativeForward::CancelIncomingCall { call_id } => BridgeCall::CancelIncomingCall {
                call_id,
            },
            NativeForward::SetCallAudioRoute { call_id, route } => BridgeCall::SetCallAudioRoute {
                call_id,
                route,
            },
            NativeForward::OpenAppSettings => BridgeCall::OpenAppSettings,
        }
    }
}

impl TargetOs {
    /// What the manager has to know of the bridge on a system: Android enforces
    /// foreground service types; on iOS scheduling is advisory.
    pub open spec fn bridge_traits(self) -> MobileBridge {
        MobileBridge {
            enforces_foreground_service_type: self is Android,
            scheduling_is_advisory: self is Ios,
        }
    }

    /// What the manager has to know of the bridge on a system.
    pub fn bridge(self) -> (traits: MobileBridge)
        ensures
            traits == self.bridge_traits(),
    {
        MobileBridge {
            enforces_foreground_service_type: self == TargetOs::Android,
            scheduling_is_advisory: self == TargetOs::Ios,
        }
    }
}

// ─── Replies ───────────────────────────────────────────────────────────

/// What a call that yields a structure came back with.
#[derive(Debug, PartialEq, Eq)]
pub enum BridgeReply<T> {
    /// The native side failed the call, with this message.
    Failed(String),
    /// The native side answered with nothing.
    Null,
    /// The native side answered with the structure.
    Value(T),
    /// The answer is no such structure; the message says why.
    Malformed(String),
}

/// The result of a call that yields nothing.
pub fn unit_reply(reply: Result<(), String>) -> (result: Result<(), ServiceError>)
    ensures
        result == (match reply {
            Ok(()) => Ok(()),
            Err(message) => Err(ServiceError::Platform(message)),
        }),
{
    match reply {
        Ok(()) => Ok(()),
        Err(message) => Err(ServiceError::Platform(message)),
    }
}

/// The result of starting the keepalive. iOS answers with what it scheduled;
/// any other answer counts as success without details.
pub fn start_keepalive_reply(reply: BridgeReply<IOSSchedulingStatus>) -> (result: Result<
    Option<IOSSchedulingStatus>,
    ServiceError,
>)
    ensures
        result == (match reply {
            BridgeReply::Failed(message) => Err(ServiceError::Platform(message)),
            BridgeReply::Value(status) => Ok(Some(status)),
            BridgeReply::Null => Ok(None),
            BridgeReply::Malformed(_) => Ok(None),
        }),
{
    match reply {
        BridgeReply::Failed(message) => Err(ServiceError::Platform(message)),
        BridgeReply::Value(status) => Ok(Some(status)),
        BridgeReply::Null => Ok(None),
        BridgeReply::Malformed(_) => Ok(None),
    }
}

/// The result of a query whose answer may be missing; an answer that cannot be
/// read is an error.
pub fn optional_reply<T>(reply: BridgeReply<T>) -> (result: Result<Option<T>, ServiceError>)
    ensures
        result == (match reply {
            BridgeReply::Failed(message) => Err(ServiceError::Platform(message)),
            BridgeReply::Value(value) => Ok(Some(value)),
            BridgeReply::Null => Ok(None),
            BridgeReply::Malformed(message) => Err(ServiceError::Platform(message)),
        }),
{
    match reply {
        BridgeReply::Failed(message) => Err(ServiceError::Platform(message)),
        BridgeReply::Value(value) => Ok(Some(value)),
        BridgeReply::Null => Ok(None),
        BridgeReply::Malformed(message) => Err(ServiceError::Platform(message)),
    }
}

/// The result of a query that must have an answer.
pub fn required_reply<T>(reply: Result<T, String>) -> (result: Result<T, ServiceError>)
    ensures
        result == (match reply {
            Ok(value) => Ok(value),
            Err(message) => Err(ServiceError::Platform(message)),
        }),
{
    match reply {
        Ok(value) => Ok(value),
        Err(message) => Err(ServiceError::Platform(message)),
    }
}

/// Whether full-screen intents may be used: the `canUse` member of the answer,
/// which must be there and be a truth value.
pub fn full_screen_intent_reply(reply: Result<Option<bool>, String>) -> (result: Result<
    bool,
    ServiceError,
>)
    ensures
        match reply {
            Ok(Some(can_use)) => result == Ok::<bool, ServiceError>(can_use),
            Ok(None) => result matches Err(ServiceError::Platform(text)) && text@
                == "missing canUse"@,
            Err(message) => result == Err::<bool, ServiceError>(ServiceError::Platform(message)),
        },
{
    match reply {
        Ok(Some(can_use)) => Ok(can_use),
        Ok(None) => Err(ServiceError::Platform("missing canUse".to_owned())),
        Err(message) => Err(ServiceError::Platform(message)),
    }
}

// ─── The situation on iOS ──────────────────────────────────────────────

impl IOSDesiredStateStatus {
    /// Whether a background task is executing: it started and has not completed
    /// since.
    pub open spec fn task_active(self) -> bool {
        match (self.last_task_started_at, self.last_task_completed_at) {
            (Some(started), Some(completed)) => started.exceeds(completed),
            (Some(_), None) => true,
            _ => false,
        }
    }
}

impl IOSSchedulingStatus {
    /// Whether iOS has budget left: unless an attempt failed and nothing was
    /// scheduled.
    pub open spec fn budget_left(self) -> bool {
        self.refresh_scheduled || self.processing_scheduled || (self.refresh_error is None
            && self.processing_error is None)
    }
}

impl IosNativeState {
    /// The situation that the three queries of iOS describe together.
    pub open spec fn assembled(
        desired: IOSDesiredStateStatus,
        scheduling: Option<IOSSchedulingStatus>,
        pending: Option<PendingTaskInfo>,
    ) -> IosNativeState {
        IosNativeState {
            desired_running: desired.desired_running,
            refresh_scheduled: scheduling is Some && scheduling->Some_0.refresh_scheduled,
            processing_scheduled: scheduling is Some && scheduling->Some_0.processing_scheduled,
            active_task_kind: if desired.task_active() {
                desired.last_task_kind
            } else {
                None
            },
            pending_task: pending,
            last_completed_at: desired.last_task_completed_at,
            last_completion_reason: desired.last_completion_reason,
            last_refresh_error: match scheduling {
                Some(s) => s.refresh_error,
                None => None,
            },
            last_processing_error: match scheduling {
                Some(s) => s.processing_error,
                None => None,
            },
            in_budget: scheduling is Some ==> scheduling->Some_0.budget_left(),
        }
    }

    /// The situation that the three queries of iOS describe together: the
    /// stored desired state, the last scheduling attempt, and the task that
    /// launched the app.
    pub fn assemble(
        desired: &IOSDesiredStateStatus,
        scheduling: &Option<IOSSchedulingStatus>,
        pending: Option<PendingTaskInfo>,
    ) -> (state: IosNativeState)
        ensures
            state == IosNativeState::assembled(*desired, *scheduling, pending),
    {
        let active: bool = match (desired.last_task_started_at, desired.last_task_completed_at) {
            (Some(started), Some(completed)) => started.gt(completed),
            (Some(_), None) => true,
            _ => false,
        };
        let active_task_kind = if active {
            copy_text(&desired.last_task_kind)
        } else {
            None
        };
        let mut refresh_scheduled: bool = false;
        let mut processing_scheduled: bool = false;
        let mut last_refresh_error: Option<String> = None;
        let mut last_processing_error: Option<String> = None;
        let mut in_budget: bool = true;
        if let Some(s) = scheduling {
            refresh_scheduled = s.refresh_scheduled;
            processing_scheduled = s.processing_scheduled;
            last_refresh_error = copy_text(&s.refresh_error);
            last_processing_error = copy_text(&s.processing_error);
            in_budget = s.refresh_scheduled || s.processing_scheduled || (
            s.refresh_error.is_none() && s.processing_error.is_none());
        }
        IosNativeState {
            desired_running: desired.desired_running,
            refresh_scheduled,
            processing_scheduled,
            active_task_kind,
            pending_task: pending,
            last_completed_at: desired.last_task_completed_at,
            last_completion_reason: copy_text(&desired.last_completion_reason),
            last_refresh_error,
            last_processing_error,
            in_budget,
        }
    }
}

/// The situation on iOS, from the results of its three queries; nothing on
/// another system.
///
/// Without a stored desired state there is nothing to report, whatever the
/// other queries gave: the host need not make them then. Otherwise the first
/// failed query decides.
pub fn ios_native_state(
    target: TargetOs,
    desired: Result<Option<IOSDesiredStateStatus>, ServiceError>,
    scheduling: Result<Option<IOSSchedulingStatus>, ServiceError>,
    pending: Result<Option<PendingTaskInfo>, ServiceError>,
) -> (state: Result<Option<IosNativeState>, ServiceError>)
    ensures
        state == (if !(target is Ios) {
            Ok(None)
        } else {
            match (desired, scheduling, pending) {
                (Err(e), _, _) => Err(e),
                (Ok(None), _, _) => Ok(None),
                (Ok(Some(_)), Err(e), _) => Err(e),
                (Ok(Some(_)), Ok(_), Err(e)) => Err(e),
                (Ok(Some(d)), Ok(s), Ok(p)) => Ok(Some(IosNativeState::assembled(d, s, p))),
            }
        }),
{
    if target != TargetOs::Ios {
        return Ok(None);
    }
    match desired {
        Err(e) => Err(e),
        Ok(None) => Ok(None),
        Ok(Some(d)) => match scheduling {
            Err(e) => Err(e),
            Ok(s) => match pending {
                Err(e) => Err(e),
                Ok(p) => Ok(Some(IosNativeState::assemble(&d, &s, p))),
            },
        },
    }
}

/// The report of the native side on a system: that of iOS there, that of the
/// Android service elsewhere.
pub fn native_authority(
    target: TargetOs,
    android: Option<AndroidServiceState>,
    ios: Option<IosNativeState>,
) -> (authority: Option<NativeAuthority>)
    ensures
        authority == (if target is Ios {
            match ios {
                Some(state) => Some(NativeAuthority::Ios(state)),
                None => None,
            }
        } else {
            match android {
                Some(state) => Some(NativeAuthority::Android(state)),
                None => None,
            }
        }),
{
    if target == TargetOs::Ios {
        match ios {
            Some(state) => Some(NativeAuthority::Ios(state)),
            None => None,
        }
    } else {
        match android {
            Some(state) => Some(NativeAuthority::Android(state)),
            None => None,
        }
    }
}

/// Out of budget means that scheduling failed: whenever iOS has no budget left,
/// there is a scheduling error to report.
pub proof fn no_budget_means_an_error(
    desired: IOSDesiredStateStatus,
    scheduling: Option<IOSSchedulingStatus>,
    pending: Option<PendingTaskInfo>,
)
    ensures
        ({
            let state = IosNativeState::assembled(desired, scheduling, pending);
            !state.in_budget ==> state.schedule_error() is Some
        }),
{
}

/// A call that one system alone handles never reaches another.
pub proof fn gated_calls_stay_on_their_system(call: BridgeCall, target: TargetOs)
    ensures
        call.is_ios_only() && !(target is Ios) ==> !call.reaches(target),
        call.is_android_only() && !(target is Android) ==> !call.reaches(target),
        !call.is_ios_only() && !call.is_android_only() ==> call.reaches(target),
{
}

/// Four calls are for iOS alone and three for Android alone; every other call
/// is made on every system.
pub proof fn calls_are_made_where_they_are_handled(
    call: BridgeCall,
    target: TargetOs,
    command: Option<&'static str>,
)
    requires
        call_ensures(BridgeCall::command, (&call, target), command),
    ensures
        call is WaitForBgTask || call is CancelWarmListener || call is RecordFailedPending
            || call is SetDesiredRunning ==> (command is Some <==> target is Ios),
        call is GetAndroidServiceState || call is UpdateForegroundServiceType
            || call is ShowMessageNotification ==> (command is Some <==> target is Android),
        !(call is WaitForBgTask) && !(call is CancelWarmListener) && !(call is RecordFailedPending)
            && !(call is SetDesiredRunning) && !(call is GetAndroidServiceState) && !(
        call is UpdateForegroundServiceType) && !(call is ShowMessageNotification)
            ==> command is Some,
{
}

/// A call that is made runs the native command of its name.
pub proof fn calls_run_their_command(
    call: BridgeCall,
    target: TargetOs,
    command: Option<&'static str>,
)
    requires
        call_ensures(BridgeCall::command, (&call, target), command),
    ensures
        command matches Some(name) ==> (call is StartKeepalive ==> name@ == "startKeepalive"@),
        command matches Some(name) ==> (call is StopKeepalive ==> name@ == "stopKeepalive"@),
        command matches Some(name) ==> (call is RequestBatteryExemption ==> name@ == "requestBatteryExemption"@),
        command matches Some(name) ==> (call is CompleteBgTask ==> name@ == "completeBgTask"@),
        command matches Some(name) ==> (call is WaitForCancel ==> name@ == "waitForCancel"@),
        command matches Some(name) ==> (call is CancelCancelListener ==> name@ == "cancelCancelListener"@),
        command matches Some(name) ==> (call is WaitForBgTask ==> name@ == "waitForBgTask"@),
        command matches Some(name) ==> (call is CancelWarmListener ==> name@ == "cancelWarmListener"@),
        command matches Some(name) ==> (call is MoveTaskToBackground ==> name@ == "moveTaskToBackground"@),
        command matches Some(name) ==> (call is GetSchedulingStatus ==> name@ == "getSchedulingStatus"@),
        command matches Some(name) ==> (call is GetNotificationPermissionStatus ==> name@ == "getNotificationPermissionStatus"@),
        command matches Some(name) ==> (call is CanUseFullScreenIntent ==> name@ == "canUseFullScreenIntent"@),
        command matches Some(name) ==> (call is OpenFullScreenIntentSettings ==> name@ == "openFullScreenIntentSettings"@),
        command matches Some(name) ==> (call is RequestNotificationPermission ==> name@ == "requestNotificationPermission"@),
        command matches Some(name) ==> (call is GetDesiredStateStatus ==> name@ == "getDesiredStateStatus"@),
        command matches Some(name) ==> (call is GetPendingBgTask ==> name@ == "getPendingBgTask"@),
        command matches Some(name) ==> (call is ClearPendingBgTask ==> name@ == "clearPendingBgTask"@),
        command matches Some(name) ==> (call is RecordFailedPending ==> name@ == "recordFailedPending"@),
        command matches Some(name) ==> (call is GetAndroidServiceState ==> name@ == "getAndroidServiceState"@),
        command matches Some(name) ==> (call is UpdateForegroundServiceType ==> name@ == "updateForegroundServiceType"@),
        command matches Some(name) ==> (call is ShowIncomingCall ==> name@ == "showIncomingCall"@),
        command matches Some(name) ==> (call is ShowMessageNotification ==> name@ == "showMessageNotification"@),
        command matches Some(name) ==> (call is CancelIncomingCall ==> name@ == "cancelIncomingCall"@),
        command matches Some(name) ==> (call is SetCallAudioRoute ==> name@ == "setCallAudioRoute"@),
        command matches Some(name) ==> (call is OpenAppSettings ==> name@ == "openAppSettings"@),
        command matches Some(name) ==> (call is SetDesiredRunning ==> name@ == "setDesiredRunning"@),
{
}

/// A forwarded command is carried out with what it holds, each part in its own
/// place.
pub proof fn forwarded_commands_keep_their_parts(forward: NativeForward, call: BridgeCall)
    requires
        call_ensures(NativeForward::into_call, (forward,), call),
    ensures
        match forward {
            NativeForward::UpdateKeepaliveType { foreground_service_type: t } => {
                call matches BridgeCall::UpdateForegroundServiceType { foreground_service_type }
                    && foreground_service_type == t
            },
            NativeForward::ShowIncomingCall { call_id: id, caller_name: name, is_video: video } => {
                call matches BridgeCall::ShowIncomingCall { call_id, caller_name, is_video }
                    && call_id == id && caller_name == name && is_video == video
            },
            NativeForward::ShowMessageNotification {
                notification_id: number,
                chat_id: chat,
                message_id: message,
                title: heading,
                body: text,
                route_uri: route,
            } => {
                call matches BridgeCall::ShowMessageNotification {
                    notification_id,
                    chat_id,
                    message_id,
                    title,
                    body,
                    route_uri,
                } && notification_id == number && chat_id == chat && message_id == message && title
                    == heading && body == text && route_uri == route
            },
            NativeForward::CancelIncomingCall { call_id: id } => {
                call matches BridgeCall::CancelIncomingCall { call_id } && call_id == id
            },
            NativeForward::SetCallAudioRoute { call_id: id, route: way } => {
                call matches BridgeCall::SetCallAudioRoute { call_id, route } && call_id == id
                    && route == way
            },
            NativeForward::OpenAppSettings => call is OpenAppSettings,
        },
{
}

/// Android alone enforces types; on iOS alone scheduling is advisory.
pub proof fn bridges_differ_by_system(target: TargetOs, traits: MobileBridge)
    requires
        call_ensures(TargetOs::bridge, (target,), traits),
    ensures
        traits.enforces_foreground_service_type <==> target is Android,
        traits.scheduling_is_advisory <==> target is Ios,
{
}

/// A failure of the native side is a platform error with its message, whatever
/// was asked.
pub proof fn native_failures_keep_their_message<T>(
    message: String,
    unit: Result<(), ServiceError>,
    started: Result<Option<IOSSchedulingStatus>, ServiceError>,
    optional: Result<Option<T>, ServiceError>,
    malformed: Result<Option<T>, ServiceError>,
    required: Result<T, ServiceError>,
    intent: Result<bool, ServiceError>,
)
    requires
        call_ensures(unit_reply, (Err(message),), unit),
        call_ensures(start_keepalive_reply, (BridgeReply::Failed(message),), started),
        call_ensures(optional_reply::<T>, (BridgeReply::Failed(message),), optional),
        call_ensures(optional_reply::<T>, (BridgeReply::Malformed(message),), malformed),
        call_ensures(required_reply::<T>, (Err(message),), required),
        call_ensures(full_screen_intent_reply, (Err(message),), intent),
    ensures
        unit matches Err(ServiceError::Platform(text)) && text == message,
        started matches Err(ServiceError::Platform(text)) && text == message,
        optional matches Err(ServiceError::Platform(text)) && text == message,
        malformed matches Err(ServiceError::Platform(text)) && text == message,
        required matches Err(ServiceError::Platform(text)) && text == message,
        intent matches Err(ServiceError::Platform(text)) && text == message,
{
}

/// An answer of the native side is handed on as it is.
pub proof fn native_answers_are_handed_on<T>(
    value: T,
    status: IOSSchedulingStatus,
    can_use: bool,
    unit: Result<(), ServiceError>,
    started: Result<Option<IOSSchedulingStatus>, ServiceError>,
    optional: Result<Option<T>, ServiceError>,
    required: Result<T, ServiceError>,
    intent: Result<bool, ServiceError>,
)
    requires
        call_ensures(unit_reply, (Ok(()),), unit),
        call_ensures(start_keepalive_reply, (BridgeReply::Value(status),), started),
        call_ensures(optional_reply::<T>, (BridgeReply::Value(value),), optional),
        call_ensures(required_reply::<T>, (Ok(value),), required),
        call_ensures(full_screen_intent_reply, (Ok(Some(can_use)),), intent),
    ensures
        unit is Ok,
        started matches Ok(Some(told)) && told == status,
        optional matches Ok(Some(told)) && told == value,
        required matches Ok(told) && told == value,
        intent matches Ok(told) && told == can_use,
{
}

/// A missing answer counts as none, where one may be missing. A start succeeds
/// without details if its answer is missing or cannot be read; whether
/// full-screen intents may be used must be told.
pub proof fn missing_answers<T>(
    why: String,
    silent: Result<Option<IOSSchedulingStatus>, ServiceError>,
    garbled: Result<Option<IOSSchedulingStatus>, ServiceError>,
    optional: Result<Option<T>, ServiceError>,
    intent: Result<bool, ServiceError>,
)
    requires
        call_ensures(start_keepalive_reply, (BridgeReply::Null,), silent),
        call_ensures(start_keepalive_reply, (BridgeReply::Malformed(why),), garbled),
        call_ensures(optional_reply::<T>, (BridgeReply::Null,), optional),
        call_ensures(full_screen_intent_reply, (Ok(None),), intent),
    ensures
        silent matches Ok(None),
        garbled matches Ok(None),
        optional matches Ok(None),
        intent matches Err(ServiceError::Platform(text)) && text@ == "missing canUse"@,
{
}

/// The situation on iOS tells the stored intent, what was scheduled and why not,
/// the task that waits, and how the last task completed, each as the query for
/// it gave it.
pub proof fn situation_tells_the_queries(
    desired: IOSDesiredStateStatus,
    scheduling: Option<IOSSchedulingStatus>,
    pending: Option<PendingTaskInfo>,
    state: IosNativeState,
)
    requires
        call_ensures(IosNativeState::assemble, (&desired, &scheduling, pending), state),
    ensures
        state.desired_running == desired.desired_running,
        state.pending_task == pending,
        state.last_completed_at == desired.last_task_completed_at,
        state.last_completion_reason == desired.last_completion_reason,
        scheduling is None ==> {
            &&& !state.refresh_scheduled && !state.processing_scheduled
            &&& state.last_refresh_error is None && state.last_processing_error is None
            &&& state.in_budget
        },
        scheduling matches Some(told) ==> {
            &&& state.refresh_scheduled == told.refresh_scheduled
            &&& state.processing_scheduled == told.processing_scheduled
            &&& state.last_refresh_error == told.refresh_error
            &&& state.last_processing_error == told.processing_error
        },
{
}

/// There is budget left unless an attempt failed and nothing was scheduled.
pub proof fn budget_is_spent_by_failure_alone(
    desired: IOSDesiredStateStatus,
    scheduling: Option<IOSSchedulingStatus>,
    pending: Option<PendingTaskInfo>,
    state: IosNativeState,
)
    requires
        call_ensures(IosNativeState::assemble, (&desired, &scheduling, pending), state),
    ensures
        state.refresh_scheduled || state.processing_scheduled ==> state.in_budget,
        state.last_refresh_error is None && state.last_processing_error is None ==> state.in_budget,
        !state.refresh_scheduled && !state.processing_scheduled && (state.last_refresh_error is Some
            || state.last_processing_error is Some) ==> !state.in_budget,
{
}

/// A task executes, under its kind, if it started and has not completed since.
pub proof fn task_executes_until_it_completes(
    desired: IOSDesiredStateStatus,
    scheduling: Option<IOSSchedulingStatus>,
    pending: Option<PendingTaskInfo>,
    state: IosNativeState,
    later: bool,
)
    requires
        call_ensures(IosNativeState::assemble, (&desired, &scheduling, pending), state),
        desired.last_task_started_at is Some && desired.last_task_completed_at is Some
            ==> call_ensures(
            crate::double::Double::gt,
            (desired.last_task_started_at->Some_0, desired.last_task_completed_at->Some_0),
            later,
        ),
    ensures
        desired.last_task_started_at is None ==> state.active_task_kind is None,
        desired.last_task_started_at is Some && desired.last_task_completed_at is None
            ==> state.active_task_kind == desired.last_task_kind,
        desired.last_task_started_at is Some && desired.last_task_completed_at is Some
            ==> state.active_task_kind == (if later {
            desired.last_task_kind
        } else {
            None
        }),
{
}

/// Off iOS there is no situation of iOS. On iOS it is told exactly if all three
/// queries succeeded and a desired state is stored, and tells that one's intent;
/// else the first failure is.
pub proof fn situation_needs_ios_and_its_queries(
    target: TargetOs,
    desired: Result<Option<IOSDesiredStateStatus>, ServiceError>,
    scheduling: Result<Option<IOSSchedulingStatus>, ServiceError>,
    pending: Result<Option<PendingTaskInfo>, ServiceError>,
    state: Result<Option<IosNativeState>, ServiceError>,
)
    requires
        call_ensures(ios_native_state, (target, desired, scheduling, pending), state),
    ensures
        !(target is Ios) ==> (state matches Ok(None)),
        target is Ios ==> {
            &&& desired matches Err(e) ==> state == Err::<Option<IosNativeState>, _>(e)
            &&& desired matches Ok(None) ==> (state matches Ok(None))
            &&& desired matches Ok(Some(_)) ==> (scheduling matches Err(e) ==> state == Err::<
                Option<IosNativeState>,
                _,
            >(e))
            &&& (desired matches Ok(Some(_)) && scheduling is Ok) ==> (pending matches Err(e)
                ==> state == Err::<Option<IosNativeState>, _>(e))
            &&& (desired matches Ok(Some(_)) && scheduling is Ok && pending is Ok) ==> {
                &&& state matches Ok(Some(told))
                &&& told.desired_running == desired->Ok_0->Some_0.desired_running
                &&& told.pending_task == pending->Ok_0
                &&& told.last_completed_at == desired->Ok_0->Some_0.last_task_completed_at
                &&& told.last_completion_reason == desired->Ok_0->Some_0.last_completion_reason
                &&& scheduling->Ok_0 matches Some(attempt) ==> told.refresh_scheduled
                    == attempt.refresh_scheduled && told.processing_scheduled
                    == attempt.processing_scheduled && told.last_refresh_error
                    == attempt.refresh_error && told.last_processing_error
                    == attempt.processing_error
            }
        },
{
}

/// A service that is stored as unwanted and of which no task executes is
/// reported as stopped, whatever the manager believes, and its phase is
/// "stopped" unless a task waits.
pub proof fn unwanted_service_is_reported_stopped<C>(
    desired: IOSDesiredStateStatus,
    scheduling: Option<IOSSchedulingStatus>,
    pending: Option<PendingTaskInfo>,
    state: IosNativeState,
    s: &mut crate::manager::ManagerState<C>,
    loaded: Option<crate::desired_state::DesiredState>,
    platform: crate::models::Platform,
    capabilities: crate::models::PlatformCapabilities,
    probe: Option<crate::validator::DesktopProbe>,
    answer: (crate::models::LifecycleStatus, Option<crate::manager::DegradedEvent>),
)
    requires
        call_ensures(IosNativeState::assemble, (&desired, &scheduling, pending), state),
        !desired.desired_running,
        desired.last_task_started_at is None,
        call_ensures(
            crate::manager::ManagerState::<C>::build_lifecycle_status,
            (s, &loaded, &Some(NativeAuthority::Ios(state)), platform, capabilities, probe),
            answer,
        ),
    ensures
        answer.0.state is Stopped,
        answer.0.native_running == Some(false),
        pending is None ==> (answer.0.last_platform_state matches Some(text) && text@
            == "stopped"@),
        pending is Some ==> (answer.0.last_platform_state matches Some(text) && text@
            == "pendingBgTask"@),
{
}

/// On iOS the report is that of iOS, elsewhere that of Android, unchanged; the
/// other is not looked at.
pub proof fn each_system_reports_for_itself(
    target: TargetOs,
    android: Option<AndroidServiceState>,
    ios: Option<IosNativeState>,
    authority: Option<NativeAuthority>,
)
    requires
        call_ensures(native_authority, (target, android, ios), authority),
    ensures
        target is Ios ==> (authority is Some <==> ios is Some),
        target is Ios ==> (authority matches Some(told) ==> told == NativeAuthority::Ios(
            ios->Some_0,
        )),
        !(target is Ios) ==> (authority is Some <==> android is Some),
        !(target is Ios) ==> (authority matches Some(told) ==> told == NativeAuthority::Android(
            android->Some_0,
        )),
{
}

} // verus!
