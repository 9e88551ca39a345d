use vstd::prelude::*;

use crate::access_point::{
    aps_view, avoids_ssid, credentials_match, filter_access_points, find_access_point,
    first_with_ssid, get_networks, has_ssid, init_access_point_credentials, lemma_filter_excludes_own,
    lemma_merge_into_empty, lemma_merge_repeated, lemma_at_most_twice_merged, distinct_names, at_most_twice, lemma_merged_avoids,
    merge_access_points, copy_access_points, merged, network_of, scan_filter, AccessPoint,
    ApModel, Credentials, Network, ScannedAccessPoint,
};
use crate::config::{Config, ConfigModel};
use crate::probe::{connectivity_step, probe_step, ConnectivityLevel, ProbeStep, CONNECTIVITY_TIMEOUT};

verus! {

/// The fatal conditions that end the command loop.
#[derive(Clone, Copy, Debug, PartialEq, Eq, Structural)]
pub enum NetworkError {
    CreateCaptivePortal,
    StartHelper,
    StopAccessPoint,
    DeviceState,
    ListConnections,
    NoAccessPoints,
    SendResponse,
    RecvNetworkCommand,
}

/// A request to the handler.
#[derive(Clone, Debug)]
pub enum NetworkCommand {
    EnableAp,
    DisableAp,
    Current,
    HasConnection,
    Activate,
    Timeout,
    Exit,
    Connect { ssid: String, identity: String, passphrase: String },
}

#[derive(Clone, Copy, Debug, PartialEq, Eq, Structural)]
pub struct CurrentStatus {
    pub apmode: bool,
    pub connected: bool,
}

#[derive(Clone, Copy, Debug, PartialEq, Eq, Structural)]
pub struct HasConnection {
    pub result: bool,
}

/// A reply to a command that asks for one.
#[derive(Clone, Debug)]
pub enum NetworkCommandResponse {
    Networks(Vec<Network>),
    Current(CurrentStatus),
    HasConnection(HasConnection),
}

/// Why the access points are scanned.
#[derive(Clone, Copy, Debug, PartialEq, Eq, Structural)]
pub enum ScanPurpose {
    Startup,
    EnableAp,
    Activate,
    Connect,
}

/// What follows once a portal is raised.
#[derive(Clone, Copy, Debug, PartialEq, Eq, Structural)]
pub enum Raise {
    Startup,
    Command,
}

/// Why a portal is torn down.
#[derive(Clone, Copy, Debug, PartialEq, Eq, Structural)]
pub enum Teardown {
    Disable,
    Connect,
}

/// The reply that the handler is about to send.
#[derive(Clone, Copy, Debug, PartialEq, Eq, Structural)]
pub enum Reply {
    Networks,
    Current(CurrentStatus),
    HasConnection(HasConnection),
}

/// How a join attempt ended.
#[derive(Clone, Copy, Debug, PartialEq, Eq, Structural)]
pub enum JoinOutcome {
    Activated,
    NotActivated,
    Failed,
}

/// The work that the handler waits on; the driver performs it and reports back.
#[derive(Clone, Copy, Debug, PartialEq, Eq, Structural)]
pub enum Action {
    /// Receive the next command (`on_command`, or `on_channel_closed`).
    AwaitCommand,
    /// Ask for a scan, and wait a settle delay if it was accepted (`on_outcome`).
    TriggerScan(ScanPurpose),
    /// Read the visible access points, after a one second pause when the
    /// attempt number is not zero (`on_access_points`).
    ReadAccessPoints(ScanPurpose, u32),
    /// Create the hotspot profile (`on_outcome`).
    CreatePortal(Raise),
    /// Start the DHCP/DNS helper (`on_outcome`).
    StartHelper(Raise),
    /// Stop the helper if one runs, then deactivate and delete the hotspot
    /// profile if there is one; the outcome is that of the profile (`on_outcome`).
    StopPortal(Teardown),
    /// Read whether the device is activated (`on_device_state`).
    ReadDeviceState,
    /// Read whether a client profile is defined (`on_connections`).
    CheckConnections,
    /// Send `response()` (`on_outcome`).
    Respond(Reply),
    /// Delete the saved profiles for the requested network (`on_outcome`).
    DeleteProfiles,
    /// Join the requested network with `join_credentials()` (`on_join`).
    Join(usize),
    /// Delete the profile of a join that did not activate (`on_outcome`).
    DiscardJoin,
    /// Read connectivity, after a one second pause when the elapsed seconds
    /// are not zero (`on_connectivity`).
    ReadConnectivity(u64),
    /// Stop what is flagged, then end the process with the result.
    Finish { stop_helper: bool, stop_profile: bool, error: Option<NetworkError> },
}

/// Attempts at reading a non-empty list of access points.
pub const SCAN_ATTEMPTS: u32 = 10;

/// Mathematical model of the handler's state.
pub struct HandlerModel {
    /// The settings the handler was made with.
    pub config: ConfigModel,
    pub portal_ssid: Seq<char>,
    /// The hotspot profile is up.
    pub profile: bool,
    /// The helper process runs.
    pub helper: bool,
    /// A client has asked for the networks; idle timeouts are ignored.
    pub activated: bool,
    /// The access points of the last scan.
    pub cache: Seq<ApModel>,
    /// The list that a `Networks` reply carries: the last scan merged with
    /// the one before it.
    pub listed: Seq<ApModel>,
    pub target: Seq<char>,
    pub identity: Seq<char>,
    pub passphrase: Seq<char>,
    pub action: Action,
}

impl HandlerModel {
    pub open spec fn wf(self) -> bool {
        &&& self.portal_ssid == self.config.ssid
        &&& self.helper ==> self.profile
        &&& avoids_ssid(self.cache, self.portal_ssid)
        &&& avoids_ssid(self.listed, self.portal_ssid)
        &&& match self.action {
            Action::AwaitCommand => self.profile == self.helper,
            Action::TriggerScan(p) => self.profile == self.helper && ((p is EnableAp || p is Connect)
                ==> !self.profile),
            Action::ReadAccessPoints(p, k) => k < SCAN_ATTEMPTS && !(p is EnableAp) && self.profile
                == self.helper && (p is Connect ==> !self.profile),
            Action::ReadDeviceState | Action::CheckConnections | Action::Respond(_) => self.profile
                == self.helper,
            Action::CreatePortal(_) => !self.profile && !self.helper,
            Action::StartHelper(_) => self.profile && !self.helper,
            Action::Join(i) => i < self.cache.len() && self.cache[i as int].ssid == self.target
                && !self.profile && !self.helper,
            Action::DiscardJoin => !self.profile && !self.helper,
            Action::ReadConnectivity(t) => t <= CONNECTIVITY_TIMEOUT && !self.profile && !self.helper,
            _ => true,
        }
    }

    /// The portal session (hotspot profile and helper) is complete.
    pub open spec fn portal_up(self) -> bool {
        self.profile && self.helper
    }
}

pub open spec fn with_action(m: HandlerModel, a: Action) -> HandlerModel {
    HandlerModel { action: a, ..m }
}

pub open spec fn finished(m: HandlerModel, error: Option<NetworkError>) -> HandlerModel {
    with_action(m, Action::Finish { stop_helper: m.helper, stop_profile: m.profile, error })
}

pub open spec fn after_command(m: HandlerModel, c: NetworkCommand) -> HandlerModel {
    if !(m.action is AwaitCommand) {
        m
    } else {
        match c {
            NetworkCommand::EnableAp => if m.profile {
                m
            } else {
                with_action(m, Action::TriggerScan(ScanPurpose::EnableAp))
            },
            NetworkCommand::DisableAp => if m.profile || m.helper {
                with_action(m, Action::StopPortal(Teardown::Disable))
            } else {
                m
            },
            NetworkCommand::Current => with_action(m, Action::ReadDeviceState),
            NetworkCommand::HasConnection => with_action(m, Action::CheckConnections),
            NetworkCommand::Activate => HandlerModel {
                activated: true,
                action: Action::TriggerScan(ScanPurpose::Activate),
                ..m
            },
            NetworkCommand::Timeout => if m.activated {
                m
            } else {
                finished(m, None)
            },
            NetworkCommand::Exit => finished(m, None),
            NetworkCommand::Connect { ssid, identity, passphrase } => HandlerModel {
                target: ssid@,
                identity: identity@,
                passphrase: passphrase@,
                action: Action::DeleteProfiles,
                ..m
            },
        }
    }
}

pub open spec fn after_outcome(m: HandlerModel, ok: bool) -> HandlerModel {
    match m.action {
        Action::TriggerScan(p) => if p is EnableAp {
            with_action(m, Action::CreatePortal(Raise::Command))
        } else {
            with_action(m, Action::ReadAccessPoints(p, 0))
        },
        Action::CreatePortal(r) => if ok {
            HandlerModel { profile: true, action: Action::StartHelper(r), ..m }
        } else {
            finished(m, Some(NetworkError::CreateCaptivePortal))
        },
        Action::StartHelper(r) => if ok {
            HandlerModel {
                helper: true,
                action: if r is Startup {
                    Action::TriggerScan(ScanPurpose::Startup)
                } else {
                    Action::AwaitCommand
                },
                ..m
            }
        } else {
            finished(m, Some(NetworkError::StartHelper))
        },
        Action::StopPortal(t) => if t is Disable {
            HandlerModel { profile: false, helper: false, action: Action::AwaitCommand, ..m }
        } else if ok {
            HandlerModel {
                profile: false,
                helper: false,
                action: Action::TriggerScan(ScanPurpose::Connect),
                ..m
            }
        } else {
            finished(HandlerModel { helper: false, ..m }, Some(NetworkError::StopAccessPoint))
        },
        Action::Respond(_) => if ok {
            with_action(m, Action::AwaitCommand)
        } else {
            finished(m, Some(NetworkError::SendResponse))
        },
        Action::DeleteProfiles => if m.profile || m.helper {
            with_action(m, Action::StopPortal(Teardown::Connect))
        } else {
            with_action(m, Action::TriggerScan(ScanPurpose::Connect))
        },
        Action::DiscardJoin => with_action(m, Action::CreatePortal(Raise::Command)),
        _ => m,
    }
}

/// The index of the first cached entry with the requested name.
pub open spec fn join_index(cache: Seq<ApModel>, ssid: Seq<char>) -> int {
    choose|i: int| first_with_ssid(cache, ssid, i)
}

pub open spec fn after_access_points(m: HandlerModel, raw: Option<Seq<ScannedAccessPoint>>) -> HandlerModel {
    match m.action {
        Action::ReadAccessPoints(p, k) => match raw {
            None => finished(m, Some(NetworkError::NoAccessPoints)),
            Some(list) => {
                let fresh = scan_filter(list, m.portal_ssid);
                if fresh.len() == 0 && k + 1 < SCAN_ATTEMPTS {
                    with_action(m, Action::ReadAccessPoints(p, (k + 1) as u32))
                } else {
                    let m2 = HandlerModel { cache: fresh, listed: merged(fresh, m.cache), ..m };
                    match p {
                        ScanPurpose::Activate => with_action(m2, Action::Respond(Reply::Networks)),
                        ScanPurpose::Connect => if has_ssid(fresh, m.target) {
                            with_action(m2, Action::Join(join_index(fresh, m.target) as usize))
                        } else {
                            with_action(m2, Action::CreatePortal(Raise::Command))
                        },
                        _ => with_action(m2, Action::AwaitCommand),
                    }
                }
            },
        },
        _ => m,
    }
}

pub open spec fn after_device_state(m: HandlerModel, activated: Option<bool>) -> HandlerModel {
    match m.action {
        Action::ReadDeviceState => match activated {
            None => finished(m, Some(NetworkError::DeviceState)),
            Some(c) => with_action(
                m,
                Action::Respond(Reply::Current(CurrentStatus { apmode: !m.profile, connected: c })),
            ),
        },
        _ => m,
    }
}

pub open spec fn after_connections(m: HandlerModel, defined: Option<bool>) -> HandlerModel {
    match m.action {
        Action::CheckConnections => match defined {
            None => finished(m, Some(NetworkError::ListConnections)),
            Some(b) => with_action(m, Action::Respond(Reply::HasConnection(HasConnection { result: b }))),
        },
        _ => m,
    }
}

pub open spec fn after_join(m: HandlerModel, o: JoinOutcome) -> HandlerModel {
    match m.action {
        Action::Join(_) => match o {
            JoinOutcome::Activated => with_action(m, Action::ReadConnectivity(0)),
            JoinOutcome::NotActivated => with_action(m, Action::DiscardJoin),
            JoinOutcome::Failed => with_action(m, Action::CreatePortal(Raise::Command)),
        },
        _ => m,
    }
}

pub open spec fn after_connectivity(m: HandlerModel, reading: Option<ConnectivityLevel>) -> HandlerModel {
    match m.action {
        Action::ReadConnectivity(t) => if probe_step(t, CONNECTIVITY_TIMEOUT, reading) is Wait {
            with_action(m, Action::ReadConnectivity((t + 1) as u64))
        } else {
            finished(m, None)
        },
        _ => m,
    }
}

pub open spec fn after_channel_closed(m: HandlerModel) -> HandlerModel {
    if m.action is AwaitCommand {
        finished(m, Some(NetworkError::RecvNetworkCommand))
    } else {
        m
    }
}


/// `r` is the reply that the model's `Respond` action stands for; the list of
/// networks is the merged list, in order.
pub open spec fn response_matches(r: NetworkCommandResponse, m: HandlerModel) -> bool {
    match m.action {
        Action::Respond(Reply::Networks) => r matches NetworkCommandResponse::Networks(v) && v@.len()
            == m.listed.len() && forall|i: int| 0 <= i < v@.len() ==> network_of(#[trigger] v@[i], m.listed[i]),
        Action::Respond(Reply::Current(s)) => r matches NetworkCommandResponse::Current(x) && x == s,
        Action::Respond(Reply::HasConnection(h)) => r matches NetworkCommandResponse::HasConnection(x) && x == h,
        _ => false,
    }
}

/// The command handler: owns the portal's state and the cache of access
/// points, and decides, one event at a time, what is done next.
pub struct NetworkCommandHandler {
    config: Config,
    profile: bool,
    helper: bool,
    activated: bool,
    access_points: Vec<AccessPoint>,
    listed: Vec<AccessPoint>,
    target: String,
    identity: String,
    passphrase: String,
    action: Action,
}

impl View for NetworkCommandHandler {
    type V = HandlerModel;

    closed spec fn view(&self) -> HandlerModel {
        HandlerModel {
            config: self.config@,
            portal_ssid: self.config.ssid@,
            profile: self.profile,
            helper: self.helper,
            activated: self.activated,
            cache: aps_view(self.access_points@),
            listed: aps_view(self.listed@),
            target: self.target@,
            identity: self.identity@,
            passphrase: self.passphrase@,
            action: self.action,
        }
    }
}

proof fn lemma_first_unique(s: Seq<ApModel>, x: Seq<char>, i: int, j: int)
    requires
        first_with_ssid(s, x, i),
        first_with_ssid(s, x, j),
    ensures
        i == j,
{
    if i < j {
        assert(s[i].ssid == x);
    } else if j < i {
        assert(s[j].ssid == x);
    }
}

impl NetworkCommandHandler {
    /// A handler at startup: it raises the portal first unless a client
    /// profile is already defined, then scans for access points.
    pub fn new(config: Config, has_connection: bool) -> (r: Self)
        ensures
            r@.wf(),
            r@.config == config@,
            r@.portal_ssid == config.ssid@,
            !r@.profile && !r@.helper && !r@.activated,
            r@.cache.len() == 0,
            r@.listed.len() == 0,
            r@.action == (if has_connection {
                Action::TriggerScan(ScanPurpose::Startup)
            } else {
                Action::CreatePortal(Raise::Startup)
            }),
    {
        let action = if has_connection {
            Action::TriggerScan(ScanPurpose::Startup)
        } else {
            Action::CreatePortal(Raise::Startup)
        };
        let r = NetworkCommandHandler {
            config,
            profile: false,
            helper: false,
            activated: false,
            access_points: Vec::new(),
            listed: Vec::new(),
            target: String::new(),
            identity: String::new(),
            passphrase: String::new(),
            action,
        };
        assert(aps_view(r.access_points@) =~= Seq::<ApModel>::empty());
        assert(aps_view(r.listed@) =~= Seq::<ApModel>::empty());
        r
    }

    /// The work the handler waits on.
    pub fn action(&self) -> (r: Action)
        ensures
            r == self@.action,
    {
        self.action
    }

    pub fn config(&self) -> (r: &Config)
        ensures
            r@ == self@.config,
            r.ssid@ == self@.portal_ssid,
    {
        &self.config
    }

    /// The name of the network that a `Connect` asked for.
    pub fn target_ssid(&self) -> (r: &String)
        ensures
            r@ == self@.target,
    {
        &self.target
    }

    /// The reply to send while the action is `Respond`.
    pub fn response(&self) -> (r: Option<NetworkCommandResponse>)
        ensures
            r is Some <==> self@.action is Respond,
            r matches Some(x) ==> response_matches(x, self@),
    {
        match self.action {
            Action::Respond(Reply::Networks) => {
                let v = get_networks(&self.listed);
                Some(NetworkCommandResponse::Networks(v))
            },
            Action::Respond(Reply::Current(s)) => Some(NetworkCommandResponse::Current(s)),
            Action::Respond(Reply::HasConnection(h)) => Some(NetworkCommandResponse::HasConnection(h)),
            _ => None,
        }
    }

    /// The credentials for the network being joined while the action is `Join`.
    pub fn join_credentials(&self) -> (r: Option<Credentials>)
        requires
            self@.wf(),
        ensures
            r is Some <==> self@.action is Join,
            r matches Some(c) ==> self@.action matches Action::Join(i) && credentials_match(
                c,
                self@.cache[i as int].security,
                self@.identity,
                self@.passphrase,
            ),
    {
        match self.action {
            Action::Join(i) => {
                let security = self.access_points[i].security;
                Some(init_access_point_credentials(security, &self.identity, &self.passphrase))
            },
            _ => None,
        }
    }

    fn finish(&mut self, error: Option<NetworkError>)
        ensures
            final(self)@ == finished(old(self)@, error),
    {
        self.action = Action::Finish { stop_helper: self.helper, stop_profile: self.profile, error };
    }

    /// Takes a command received while idle.
    pub fn on_command(&mut self, command: NetworkCommand) -> (r: Action)
        requires
            old(self)@.wf(),
        ensures
            final(self)@ == after_command(old(self)@, command),
            final(self)@.wf(),
            r == final(self)@.action,
    {
        if let Action::AwaitCommand = self.action {
            match command {
                NetworkCommand::EnableAp => {
                    if !self.profile {
                        self.action = Action::TriggerScan(ScanPurpose::EnableAp);
                    }
                },
                NetworkCommand::DisableAp => {
                    if self.profile || self.helper {
                        self.action = Action::StopPortal(Teardown::Disable);
                    }
                },
                NetworkCommand::Current => {
                    self.action = Action::ReadDeviceState;
                },
                NetworkCommand::HasConnection => {
                    self.action = Action::CheckConnections;
                },
                NetworkCommand::Activate => {
                    self.activated = true;
                    self.action = Action::TriggerScan(ScanPurpose::Activate);
                },
                NetworkCommand::Timeout => {
                    if !self.activated {
                        self.finish(None);
                    }
                },
                NetworkCommand::Exit => {
                    self.finish(None);
                },
                NetworkCommand::Connect { ssid, identity, passphrase } => {
                    self.target = ssid;
                    self.identity = identity;
                    self.passphrase = passphrase;
                    self.action = Action::DeleteProfiles;
                },
            }
        }
        self.action
    }

    /// Takes the outcome of a step that succeeds or fails.
    pub fn on_outcome(&mut self, ok: bool) -> (r: Action)
        requires
            old(self)@.wf(),
        ensures
            final(self)@ == after_outcome(old(self)@, ok),
            final(self)@.wf(),
            r == final(self)@.action,
    {
        match self.action {
            Action::TriggerScan(p) => {
                if let ScanPurpose::EnableAp = p {
                    self.action = Action::CreatePortal(Raise::Command);
                } else {
                    self.action = Action::ReadAccessPoints(p, 0);
                }
            },
            Action::CreatePortal(r) => {
                if ok {
                    self.profile = true;
                    self.action = Action::StartHelper(r);
                } else {
                    self.finish(Some(NetworkError::CreateCaptivePortal));
                }
            },
            Action::StartHelper(r) => {
                if ok {
                    self.helper = true;
                    if let Raise::Startup = r {
                        self.action = Action::TriggerScan(ScanPurpose::Startup);
                    } else {
                        self.action = Action::AwaitCommand;
                    }
                } else {
                    self.finish(Some(NetworkError::StartHelper));
                }
            },
            Action::StopPortal(t) => {
                if let Teardown::Disable = t {
                    self.profile = false;
                    self.helper = false;
                    self.action = Action::AwaitCommand;
                } else if ok {
                    self.profile = false;
                    self.helper = false;
                    self.action = Action::TriggerScan(ScanPurpose::Connect);
                } else {
                    self.helper = false;
                    self.finish(Some(NetworkError::StopAccessPoint));
                }
            },
            Action::Respond(_) => {
                if ok {
                    self.action = Action::AwaitCommand;
                } else {
                    self.finish(Some(NetworkError::SendResponse));
                }
            },
            Action::DeleteProfiles => {
                if self.profile || self.helper {
                    self.action = Action::StopPortal(Teardown::Connect);
                } else {
                    self.action = Action::TriggerScan(ScanPurpose::Connect);
                }
            },
            Action::DiscardJoin => {
                self.action = Action::CreatePortal(Raise::Command);
            },
            _ => {},
        }
        self.action
    }

    /// Takes the access points read from the device, or `None` when reading failed.
    pub fn on_access_points(&mut self, raw: Option<Vec<ScannedAccessPoint>>) -> (r: Action)
        requires
            old(self)@.wf(),
        ensures
            final(self)@ == after_access_points(old(self)@, match raw {
                Some(v) => Some(v@),
                None => None,
            }),
            final(self)@.wf(),
            r == final(self)@.action,
    {
        if let Action::ReadAccessPoints(p, k) = self.action {
            match raw {
                None => {
                    self.finish(Some(NetworkError::NoAccessPoints));
                },
                Some(list) => {
                    let fresh = filter_access_points(&list, &self.config.ssid);
                    proof {
                        lemma_filter_excludes_own(list@, self.config.ssid@);
                    }
                    if fresh.len() == 0 && k + 1 < SCAN_ATTEMPTS {
                        self.action = Action::ReadAccessPoints(p, k + 1);
                    } else {
                        let ghost old_cache = aps_view(self.access_points@);
                        let kept = copy_access_points(&fresh);
                        let listed = merge_access_points(kept, &self.access_points);
                        proof {
                            lemma_merged_avoids(scan_filter(list@, self.config.ssid@), old_cache, self.config.ssid@);
                        }
                        self.listed = listed;
                        self.access_points = fresh;
                        match p {
                            ScanPurpose::Activate => {
                                self.action = Action::Respond(Reply::Networks);
                            },
                            ScanPurpose::Connect => {
                                match find_access_point(&self.access_points, &self.target) {
                                    Some(i) => {
                                        proof {
                                            let c = aps_view(self.access_points@);
                                            lemma_first_unique(c, self.target@, i as int, join_index(c, self.target@));
                                        }
                                        self.action = Action::Join(i);
                                    },
                                    None => {
                                        self.action = Action::CreatePortal(Raise::Command);
                                    },
                                }
                            },
                            _ => {
                                self.action = Action::AwaitCommand;
                            },
                        }
                    }
                },
            }
        }
        self.action
    }

    /// Takes whether the device is activated, or `None` when reading failed.
    pub fn on_device_state(&mut self, activated: Option<bool>) -> (r: Action)
        requires
            old(self)@.wf(),
        ensures
            final(self)@ == after_device_state(old(self)@, activated),
            final(self)@.wf(),
            r == final(self)@.action,
    {
        if let Action::ReadDeviceState = self.action {
            match activated {
                None => self.finish(Some(NetworkError::DeviceState)),
                Some(c) => {
                    self.action = Action::Respond(
                        Reply::Current(CurrentStatus { apmode: !self.profile, connected: c }),
                    );
                },
            }
        }
        self.action
    }

    /// Takes whether a client profile is defined, or `None` when listing failed.
    pub fn on_connections(&mut self, defined: Option<bool>) -> (r: Action)
        requires
            old(self)@.wf(),
        ensures
            final(self)@ == after_connections(old(self)@, defined),
            final(self)@.wf(),
            r == final(self)@.action,
    {
        if let Action::CheckConnections = self.action {
            match defined {
                None => self.finish(Some(NetworkError::ListConnections)),
                Some(b) => {
                    self.action = Action::Respond(Reply::HasConnection(HasConnection { result: b }));
                },
            }
        }
        self.action
    }

    /// Takes how a join attempt ended.
    pub fn on_join(&mut self, outcome: JoinOutcome) -> (r: Action)
        requires
            old(self)@.wf(),
        ensures
            final(self)@ == after_join(old(self)@, outcome),
            final(self)@.wf(),
            r == final(self)@.action,
    {
        if let Action::Join(_) = self.action {
            match outcome {
                JoinOutcome::Activated => {
                    self.action = Action::ReadConnectivity(0);
                },
                JoinOutcome::NotActivated => {
                    self.action = Action::DiscardJoin;
                },
                JoinOutcome::Failed => {
                    self.action = Action::CreatePortal(Raise::Command);
                },
            }
        }
        self.action
    }

    /// Takes a connectivity reading, or `None` when it could not be taken.
    pub fn on_connectivity(&mut self, reading: Option<ConnectivityLevel>) -> (r: Action)
        requires
            old(self)@.wf(),
        ensures
            final(self)@ == after_connectivity(old(self)@, reading),
            final(self)@.wf(),
            r == final(self)@.action,
    {
        if let Action::ReadConnectivity(t) = self.action {
            if let ProbeStep::Wait = connectivity_step(t, CONNECTIVITY_TIMEOUT, reading) {
                self.action = Action::ReadConnectivity(t + 1);
            } else {
                self.finish(None);
            }
        }
        self.action
    }

    /// Takes the end of the command stream.
    pub fn on_channel_closed(&mut self) -> (r: Action)
        requires
            old(self)@.wf(),
        ensures
            final(self)@ == after_channel_closed(old(self)@),
            final(self)@.wf(),
            r == final(self)@.action,
    {
        if let Action::AwaitCommand = self.action {
            self.finish(Some(NetworkError::RecvNetworkCommand));
        }
        self.action
    }
}


/// A portal is created only when no session exists, and a helper is started
/// only over the profile just created: at most one portal session exists at
/// any time, in every state the handler reaches.
pub proof fn lemma_single_session(m: HandlerModel)
    requires
        m.wf(),
    ensures
        m.action is CreatePortal ==> !m.profile && !m.helper,
        m.action is StartHelper ==> m.profile && !m.helper,
        m.helper ==> m.profile,
{
}

/// Commands other than `Exit` and `Timeout`, and steps that succeed, never end
/// the loop; only a join that activated ends it besides those.
pub proof fn lemma_loop_stays_live(m: HandlerModel)
    requires
        m.wf(),
        !(m.action is Finish),
        !(m.action is ReadConnectivity),
    ensures
        forall|c: NetworkCommand| !(c is Exit) && !(c is Timeout) ==> !(#[trigger] after_command(m, c).action is Finish),
        !(after_outcome(m, true).action is Finish),
        forall|raw: Seq<ScannedAccessPoint>| !(#[trigger] after_access_points(m, Some(raw)).action is Finish),
        forall|b: bool| !(#[trigger] after_device_state(m, Some(b)).action is Finish),
        forall|b: bool| !(#[trigger] after_connections(m, Some(b)).action is Finish),
        forall|o: JoinOutcome| !(#[trigger] after_join(m, o).action is Finish),
        !(after_channel_closed(m).action is Finish) || m.action is AwaitCommand,
{
}

/// Enabling the portal twice in a row raises a single session: the second
/// request finds it up and changes nothing.
pub proof fn lemma_enable_ap_idempotent(m: HandlerModel)
    requires
        m.wf(),
        m.action is AwaitCommand,
    ensures
        m.portal_up() ==> after_command(m, NetworkCommand::EnableAp) == m,
        !m.portal_up() ==> {
            let m1 = after_command(m, NetworkCommand::EnableAp);
            let m2 = after_outcome(m1, true);
            let m3 = after_outcome(m2, true);
            let m4 = after_outcome(m3, true);
            &&& m1.action == Action::TriggerScan(ScanPurpose::EnableAp)
            &&& m2.action == Action::CreatePortal(Raise::Command)
            &&& m3.action == Action::StartHelper(Raise::Command)
            &&& m4.portal_up() && m4.action is AwaitCommand
            &&& after_command(m4, NetworkCommand::EnableAp) == m4
        },
{
}

/// Disabling the portal never ends the loop, whether or not a session is up
/// and whatever the teardown reports, and a second request changes nothing.
pub proof fn lemma_disable_ap_idempotent(m: HandlerModel, ok: bool)
    requires
        m.wf(),
        m.action is AwaitCommand,
    ensures
        ({
            let m1 = after_command(m, NetworkCommand::DisableAp);
            let m2 = if m1.action is StopPortal {
                after_outcome(m1, ok)
            } else {
                m1
            };
            &&& !(m1.action is Finish)
            &&& m2.action is AwaitCommand && !m2.profile && !m2.helper
            &&& after_command(m2, NetworkCommand::DisableAp) == m2
        }),
{
}

/// A `Connect` to a network that the final scan does not show raises the
/// portal again and returns to waiting for commands.
pub proof fn lemma_connect_unknown_ssid(m: HandlerModel, k: u32, raw: Seq<ScannedAccessPoint>)
    requires
        m.wf(),
        m.action == Action::ReadAccessPoints(ScanPurpose::Connect, k),
        scan_filter(raw, m.portal_ssid).len() > 0 || k + 1 >= SCAN_ATTEMPTS,
        !has_ssid(scan_filter(raw, m.portal_ssid), m.target),
    ensures
        ({
            let m1 = after_access_points(m, Some(raw));
            let m3 = after_outcome(after_outcome(m1, true), true);
            &&& m1.action == Action::CreatePortal(Raise::Command)
            &&& m3.portal_up() && m3.action is AwaitCommand
        }),
{
}

/// A join that activates ends the loop with success once the probe is over,
/// whatever the probe reads; the probe takes at most one reading per second
/// of its timeout, and one more.
pub proof fn lemma_join_success_ends_loop(m: HandlerModel, reading: Option<ConnectivityLevel>)
    requires
        m.wf(),
    ensures
        m.action is Join ==> after_join(m, JoinOutcome::Activated).action == Action::ReadConnectivity(0),
        m.action matches Action::ReadConnectivity(t) ==> {
            let a = after_connectivity(m, reading).action;
            ||| a == Action::ReadConnectivity((t + 1) as u64) && t < CONNECTIVITY_TIMEOUT
            ||| a matches Action::Finish { error: None, .. }
        },
{
}

/// An idle `Timeout` ends the loop until a client has asked for the networks;
/// after that it is ignored.
pub proof fn lemma_timeout(m: HandlerModel)
    requires
        m.wf(),
        m.action is AwaitCommand,
    ensures
        !m.activated ==> after_command(m, NetworkCommand::Timeout).action matches Action::Finish { error: None, .. },
        m.activated ==> after_command(m, NetworkCommand::Timeout) == m,
        after_command(m, NetworkCommand::Activate).activated,
        forall|c: NetworkCommand| #[trigger] after_command(m, c).activated == (m.activated || c is Activate),
{
}


/// `Activate` replies with the scan merged with the one before it, and
/// keeps the scan alone as the cache: on a cache with no entries the reply
/// is exactly the filtered scan.
pub proof fn lemma_activate_lists_merged_scan(m: HandlerModel, k: u32, raw: Seq<ScannedAccessPoint>)
    requires
        m.wf(),
        m.action == Action::ReadAccessPoints(ScanPurpose::Activate, k),
        scan_filter(raw, m.portal_ssid).len() > 0 || k + 1 >= SCAN_ATTEMPTS,
    ensures
        ({
            let fresh = scan_filter(raw, m.portal_ssid);
            let m1 = after_access_points(m, Some(raw));
            &&& m1.action == Action::Respond(Reply::Networks)
            &&& m1.cache == fresh
            &&& m1.listed == merged(fresh, m.cache)
            &&& m.cache.len() == 0 ==> m1.listed == fresh
        }),
{
    let fresh = scan_filter(raw, m.portal_ssid);
    if m.cache.len() == 0 {
        assert(m.cache == Seq::<ApModel>::empty());
        lemma_merge_into_empty(fresh);
    }
}

/// No list of networks that the handler replies with names the portal.
pub proof fn lemma_portal_never_listed(m: HandlerModel, r: NetworkCommandResponse)
    requires
        m.wf(),
        response_matches(r, m),
    ensures
        r matches NetworkCommandResponse::Networks(v) ==> forall|i: int| 0 <= i < v@.len()
            ==> (#[trigger] v@[i]).ssid@ != m.portal_ssid,
{
    if let NetworkCommandResponse::Networks(v) = r {
        assert forall|i: int| 0 <= i < v@.len() implies (#[trigger] v@[i]).ssid@ != m.portal_ssid by {
            assert(network_of(v@[i], m.listed[i]));
        }
    }
}


/// Two `Activate` commands in a row, each followed by a scan that shows the
/// same list: the second reply lists the scan twice, once as seen now and
/// once as kept from before, whatever the cache held before the first.
pub proof fn lemma_activate_twice(m: HandlerModel, raw: Seq<ScannedAccessPoint>)
    requires
        m.wf(),
        m.action is AwaitCommand,
        scan_filter(raw, m.portal_ssid).len() > 0,
    ensures
        ({
            let fresh = scan_filter(raw, m.portal_ssid);
            let m3 = after_access_points(
                after_outcome(after_command(m, NetworkCommand::Activate), true),
                Some(raw),
            );
            let m4 = after_outcome(m3, true);
            let m7 = after_access_points(
                after_outcome(after_command(m4, NetworkCommand::Activate), true),
                Some(raw),
            );
            &&& m3.action == Action::Respond(Reply::Networks)
            &&& m3.listed == merged(fresh, m.cache)
            &&& m4.action is AwaitCommand
            &&& m7.action == Action::Respond(Reply::Networks)
            &&& m7.listed == fresh + fresh
        }),
{
    lemma_merge_repeated(scan_filter(raw, m.portal_ssid));
}

/// When the last two scans each show every name once, a reply lists no
/// name more than twice: once as seen now, at most once as kept from before.
pub proof fn lemma_names_listed_at_most_twice(m: HandlerModel, k: u32, raw: Seq<ScannedAccessPoint>)
    requires
        m.wf(),
        m.action == Action::ReadAccessPoints(ScanPurpose::Activate, k),
        scan_filter(raw, m.portal_ssid).len() > 0 || k + 1 >= SCAN_ATTEMPTS,
        distinct_names(m.cache),
        distinct_names(scan_filter(raw, m.portal_ssid)),
    ensures
        at_most_twice(after_access_points(m, Some(raw)).listed),
{
    lemma_at_most_twice_merged(scan_filter(raw, m.portal_ssid), m.cache);
}

} // verus!
