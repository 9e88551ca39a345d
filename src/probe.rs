use vstd::prelude::*;

verus! {

/// Connectivity as the network-management service reports it.
#[derive(Clone, Copy, Debug, PartialEq, Eq, Structural)]
pub enum ConnectivityLevel {
    Unknown,
    Disconnected,
    Portal,
    Limited,
    Full,
}

/// What a connectivity probe does after one reading.
#[derive(Clone, Copy, Debug, PartialEq, Eq, Structural)]
pub enum ProbeStep {
    /// Full or limited connectivity was reported.
    Connected,
    /// The time allowed has passed without connectivity.
    TimedOut,
    /// The reading could not be taken; the probe gives up.
    Failed,
    /// Wait one second and read again.
    Wait,
}

/// Seconds a probe waits for connectivity after a join.
pub const CONNECTIVITY_TIMEOUT: u64 = 20;

pub open spec fn probe_step(elapsed: u64, timeout: u64, reading: Option<ConnectivityLevel>) -> ProbeStep {
    match reading {
        None => ProbeStep::Failed,
        Some(level) => if level == ConnectivityLevel::Full || level == ConnectivityLevel::Limited {
            ProbeStep::Connected
        } else if elapsed >= timeout {
            ProbeStep::TimedOut
        } else {
            ProbeStep::Wait
        },
    }
}

/// Decides, from one reading taken `elapsed` seconds into a probe, whether the
/// probe is over.
pub fn connectivity_step(elapsed: u64, timeout: u64, reading: Option<ConnectivityLevel>) -> (r: ProbeStep)
    ensures
        r == probe_step(elapsed, timeout, reading),
        r is Wait ==> elapsed < timeout,
{
    match reading {
        None => ProbeStep::Failed,
        Some(level) => {
            if level == ConnectivityLevel::Full || level == ConnectivityLevel::Limited {
                ProbeStep::Connected
            } else if elapsed >= timeout {
                ProbeStep::TimedOut
            } else {
                ProbeStep::Wait
            }
        },
    }
}

} // verus!
