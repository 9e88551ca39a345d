use vstd::prelude::*;

verus! {

/// What follows a reading of the network-management service's state.
#[derive(Clone, Copy, Debug, PartialEq, Eq, Structural)]
pub enum ServiceStep {
    /// Go on: the service runs, or its state could not be read.
    Ready,
    /// Start the service.
    Start,
}

/// Why the network-management service is not available.
#[derive(Clone, Copy, Debug, PartialEq, Eq, Structural)]
pub enum ServiceError {
    /// Starting the service failed.
    Start,
    /// The service was started but is not active.
    NotActive,
}

/// Decides from the service's state (`Some(active)`, or `None` when it could
/// not be read) whether the service has to be started.
pub fn service_step(active: Option<bool>) -> (r: ServiceStep)
    ensures
        r is Start <==> active == Some(false),
{
    match active {
        Some(false) => ServiceStep::Start,
        _ => ServiceStep::Ready,
    }
}

/// Judges the state reached by starting the service (`Some(active)`, or
/// `None` when starting failed).
pub fn service_started(active: Option<bool>) -> (r: Result<(), ServiceError>)
    ensures
        match active {
            None => r == Err::<(), ServiceError>(ServiceError::Start),
            Some(false) => r == Err::<(), ServiceError>(ServiceError::NotActive),
            Some(true) => r is Ok,
        },
{
    match active {
        None => Err(ServiceError::Start),
        Some(false) => Err(ServiceError::NotActive),
        Some(true) => Ok(()),
    }
}

} // verus!
