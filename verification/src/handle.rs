//! What a caller of the manager gets back, also where the manager is gone.

use crate::error::ServiceError;
use crate::models::ServiceStatus;
use vstd::prelude::*;

verus! {

/// How a command to the manager fared.
pub enum Delivery<T> {
    /// The manager no longer takes commands.
    NotSent,
    /// The manager took the command and never replied.
    NoReply,
    /// The manager replied.
    Replied(T),
}

/// The result of a command that succeeds or fails.
pub fn command_result(delivery: Delivery<Result<(), ServiceError>>) -> (result: Result<
    (),
    ServiceError,
>)
    ensures
        match delivery {
            Delivery::NotSent => result matches Err(ServiceError::Runtime(text)) && text@
                == "manager actor shut down"@,
            Delivery::NoReply => result matches Err(ServiceError::Runtime(text)) && text@
                == "manager actor dropped reply"@,
            Delivery::Replied(reply) => result == reply,
        },
{
    match delivery {
        Delivery::NotSent => Err(ServiceError::Runtime("manager actor shut down".to_owned())),
        Delivery::NoReply => Err(ServiceError::Runtime("manager actor dropped reply".to_owned())),
        Delivery::Replied(reply) => reply,
    }
}

/// Whether a service runs; a manager that is gone runs none.
pub fn running_result(delivery: Delivery<bool>) -> (running: bool)
    ensures
        running == (match delivery {
            Delivery::Replied(reply) => reply,
            _ => false,
        }),
{
    match delivery {
        Delivery::Replied(reply) => reply,
        _ => false,
    }
}

/// The service status; a manager that is gone is idle.
pub fn status_result(delivery: Delivery<ServiceStatus>) -> (status: ServiceStatus)
    ensures
        status == (match delivery {
            Delivery::Replied(reply) => reply,
            _ => ServiceStatus::blank(),
        }),
{
    match delivery {
        Delivery::Replied(reply) => reply,
        _ => ServiceStatus::default(),
    }
}

/// What the manager replied is what the caller gets.
pub proof fn replies_are_handed_on(
    outcome: Result<(), ServiceError>,
    runs: bool,
    told: ServiceStatus,
    result: Result<(), ServiceError>,
    running: bool,
    status: ServiceStatus,
)
    requires
        call_ensures(command_result, (Delivery::Replied(outcome),), result),
        call_ensures(running_result, (Delivery::Replied(runs),), running),
        call_ensures(status_result, (Delivery::Replied(told),), status),
    ensures
        result == outcome,
        running == runs,
        status == told,
{
}

/// A manager that is gone fails commands, in words that tell whether it took
/// the command; it runs nothing and is idle.
pub proof fn gone_manager_is_told(
    taken: bool,
    result: Result<(), ServiceError>,
    running: bool,
    status: ServiceStatus,
)
    requires
        call_ensures(
            command_result,
            (if taken {
                Delivery::NoReply
            } else {
                Delivery::NotSent
            },),
            result,
        ),
        call_ensures(
            running_result,
            (if taken {
                Delivery::NoReply
            } else {
                Delivery::NotSent
            },),
            running,
        ),
        call_ensures(
            status_result,
            (if taken {
                Delivery::NoReply
            } else {
                Delivery::NotSent
            },),
            status,
        ),
    ensures
        result matches Err(ServiceError::Runtime(text)) && text@ == (if taken {
            "manager actor dropped reply"@
        } else {
            "manager actor shut down"@
        }),
        !running,
        status.state is Idle && status.last_error is None && status.desired_running is None,
        status.platform_mode is None && status.last_start_config is None,
{
}

} // verus!
