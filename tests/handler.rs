use wifi_connect::access_point::{Credentials, ScannedAccessPoint, SecurityFlags};
use wifi_connect::config::Config;
use wifi_connect::network::{
    Action, JoinOutcome, NetworkCommand, NetworkCommandHandler, NetworkCommandResponse, NetworkError,
    Raise, Reply, ScanPurpose, Teardown, CurrentStatus, HasConnection,
};
use wifi_connect::probe::ConnectivityLevel;

const OWN: &str = "HalleyHub-0123456789ab";

fn config() -> Config {
    Config {
        interface: None,
        ssid: OWN.to_string(),
        passphrase: Some("1234____".to_string()),
        gateway: [192, 168, 42, 1],
        dhcp_range: "192.168.42.2,192.168.42.254".to_string(),
        listening_at: "0.0.0.0:80".to_string(),
        activity_timeout: 0,
    }
}

fn scanned(ssid: &str, wpa: bool) -> ScannedAccessPoint {
    ScannedAccessPoint {
        ssid: Some(ssid.to_string()),
        security: SecurityFlags { wep: false, wpa, wpa2: false, enterprise: false },
    }
}

fn ok() -> bool {
    true
}

/// A handler that started with a profile defined: no portal, empty scan.
fn idle_without_portal() -> NetworkCommandHandler {
    let mut h = NetworkCommandHandler::new(config(), true);
    assert_eq!(h.action(), Action::TriggerScan(ScanPurpose::Startup));
    assert_eq!(h.on_outcome(ok()), Action::ReadAccessPoints(ScanPurpose::Startup, 0));
    let mut k: u32 = 0;
    while k + 1 < 10 {
        assert_eq!(h.on_access_points(Some(vec![])), Action::ReadAccessPoints(ScanPurpose::Startup, k + 1));
        k += 1;
    }
    assert_eq!(h.on_access_points(Some(vec![])), Action::AwaitCommand);
    h
}

/// A handler that raised its portal at startup: no cache entries.
fn idle_with_portal() -> NetworkCommandHandler {
    let mut h = NetworkCommandHandler::new(config(), false);
    assert_eq!(h.action(), Action::CreatePortal(Raise::Startup));
    assert_eq!(h.on_outcome(true), Action::StartHelper(Raise::Startup));
    assert_eq!(h.on_outcome(true), Action::TriggerScan(ScanPurpose::Startup));
    assert_eq!(h.on_outcome(true), Action::ReadAccessPoints(ScanPurpose::Startup, 0));
    let mut k: u32 = 0;
    while k + 1 < 10 {
        h.on_access_points(Some(vec![scanned(OWN, true)]));
        k += 1;
    }
    assert_eq!(h.on_access_points(Some(vec![scanned(OWN, true)])), Action::AwaitCommand);
    h
}

fn network_names(h: &NetworkCommandHandler) -> Vec<(String, String)> {
    match h.response() {
        Some(NetworkCommandResponse::Networks(v)) => v.into_iter().map(|n| (n.ssid, n.security)).collect(),
        _ => panic!("expected a list of networks"),
    }
}

fn activate(h: &mut NetworkCommandHandler, scan: Vec<ScannedAccessPoint>) -> Vec<(String, String)> {
    assert_eq!(h.on_command(NetworkCommand::Activate), Action::TriggerScan(ScanPurpose::Activate));
    assert_eq!(h.on_outcome(true), Action::ReadAccessPoints(ScanPurpose::Activate, 0));
    assert_eq!(h.on_access_points(Some(scan)), Action::Respond(Reply::Networks));
    let names = network_names(h);
    assert_eq!(h.on_outcome(true), Action::AwaitCommand);
    names
}

fn pair(a: &str, b: &str) -> (String, String) {
    (a.to_string(), b.to_string())
}

#[test]
fn startup_with_profile_skips_portal() {
    let h = idle_without_portal();
    assert_eq!(h.action(), Action::AwaitCommand);
}

#[test]
fn enable_ap_twice_raises_one_session() {
    let mut h = idle_without_portal();
    assert_eq!(h.on_command(NetworkCommand::EnableAp), Action::TriggerScan(ScanPurpose::EnableAp));
    assert_eq!(h.on_outcome(false), Action::CreatePortal(Raise::Command));
    assert_eq!(h.on_outcome(true), Action::StartHelper(Raise::Command));
    assert_eq!(h.on_outcome(true), Action::AwaitCommand);
    assert_eq!(h.on_command(NetworkCommand::EnableAp), Action::AwaitCommand);
    assert_eq!(h.on_command(NetworkCommand::Exit), Action::Finish { stop_helper: true, stop_profile: true, error: None });
}

#[test]
fn disable_ap_without_session_is_harmless() {
    let mut h = idle_without_portal();
    assert_eq!(h.on_command(NetworkCommand::DisableAp), Action::AwaitCommand);
    assert_eq!(h.on_command(NetworkCommand::DisableAp), Action::AwaitCommand);
}

#[test]
fn disable_ap_ignores_teardown_failure() {
    let mut h = idle_with_portal();
    assert_eq!(h.on_command(NetworkCommand::DisableAp), Action::StopPortal(Teardown::Disable));
    assert_eq!(h.on_outcome(false), Action::AwaitCommand);
    assert_eq!(h.on_command(NetworkCommand::DisableAp), Action::AwaitCommand);
    assert_eq!(h.on_command(NetworkCommand::Exit), Action::Finish { stop_helper: false, stop_profile: false, error: None });
}

#[test]
fn activate_on_fresh_cache_then_again_duplicates() {
    let mut h = idle_without_portal();
    let scan = || vec![scanned("home", true), scanned(OWN, true), scanned("cafe", false)];
    let first = activate(&mut h, scan());
    assert_eq!(first, vec![pair("home", "wpa"), pair("cafe", "none")]);
    let second = activate(&mut h, scan());
    assert_eq!(second, vec![pair("home", "wpa"), pair("cafe", "none"), pair("home", "wpa"), pair("cafe", "none")]);
}

#[test]
fn own_ssid_never_listed() {
    let mut h = idle_with_portal();
    let listed = activate(&mut h, vec![scanned(OWN, false), scanned("x", false)]);
    assert_eq!(listed, vec![pair("x", "none")]);
}

#[test]
fn activate_gives_up_after_ten_empty_reads() {
    let mut h = idle_without_portal();
    assert_eq!(h.on_command(NetworkCommand::Activate), Action::TriggerScan(ScanPurpose::Activate));
    assert_eq!(h.on_outcome(true), Action::ReadAccessPoints(ScanPurpose::Activate, 0));
    for k in 1..10u32 {
        assert_eq!(h.on_access_points(Some(vec![])), Action::ReadAccessPoints(ScanPurpose::Activate, k));
    }
    assert_eq!(h.on_access_points(Some(vec![])), Action::Respond(Reply::Networks));
    assert!(network_names(&h).is_empty());
}

#[test]
fn connect_to_unknown_network_raises_portal_again() {
    let mut h = idle_with_portal();
    let cmd = NetworkCommand::Connect { ssid: "nowhere".to_string(), identity: String::new(), passphrase: String::new() };
    assert_eq!(h.on_command(cmd), Action::DeleteProfiles);
    assert_eq!(h.target_ssid(), "nowhere");
    assert_eq!(h.on_outcome(true), Action::StopPortal(Teardown::Connect));
    assert_eq!(h.on_outcome(true), Action::TriggerScan(ScanPurpose::Connect));
    assert_eq!(h.on_outcome(true), Action::ReadAccessPoints(ScanPurpose::Connect, 0));
    assert_eq!(h.on_access_points(Some(vec![scanned("home", true)])), Action::CreatePortal(Raise::Command));
    assert_eq!(h.on_outcome(true), Action::StartHelper(Raise::Command));
    assert_eq!(h.on_outcome(true), Action::AwaitCommand);
    assert_eq!(h.on_command(NetworkCommand::EnableAp), Action::AwaitCommand);
}

#[test]
fn connect_to_open_network_ends_loop_with_success() {
    let mut h = idle_with_portal();
    let cmd = NetworkCommand::Connect { ssid: "cafe".to_string(), identity: String::new(), passphrase: String::new() };
    h.on_command(cmd);
    h.on_outcome(true);
    h.on_outcome(true);
    h.on_outcome(true);
    assert_eq!(h.on_access_points(Some(vec![scanned("home", true), scanned("cafe", false)])), Action::Join(1));
    assert!(matches!(h.join_credentials(), Some(Credentials::Open)));
    assert_eq!(h.on_join(JoinOutcome::Activated), Action::ReadConnectivity(0));
    assert_eq!(h.on_connectivity(Some(ConnectivityLevel::Disconnected)), Action::ReadConnectivity(1));
    assert_eq!(h.on_connectivity(None), Action::Finish { stop_helper: false, stop_profile: false, error: None });
}

#[test]
fn connect_probe_times_out_with_success() {
    let mut h = idle_without_portal();
    let cmd = NetworkCommand::Connect { ssid: "home".to_string(), identity: String::new(), passphrase: "pw".to_string() };
    assert_eq!(h.on_command(cmd), Action::DeleteProfiles);
    assert_eq!(h.on_outcome(true), Action::TriggerScan(ScanPurpose::Connect));
    h.on_outcome(true);
    assert_eq!(h.on_access_points(Some(vec![scanned("home", true)])), Action::Join(0));
    match h.join_credentials() {
        Some(Credentials::Wpa { passphrase }) => assert_eq!(passphrase, "pw"),
        _ => panic!("expected WPA credentials"),
    }
    h.on_join(JoinOutcome::Activated);
    for t in 1..=20u64 {
        assert_eq!(h.on_connectivity(Some(ConnectivityLevel::Portal)), Action::ReadConnectivity(t));
    }
    assert_eq!(h.on_connectivity(Some(ConnectivityLevel::Portal)), Action::Finish { stop_helper: false, stop_profile: false, error: None });
}

#[test]
fn join_not_activated_discards_profile_and_raises_portal() {
    let mut h = idle_without_portal();
    let cmd = NetworkCommand::Connect { ssid: "home".to_string(), identity: String::new(), passphrase: "pw".to_string() };
    h.on_command(cmd);
    h.on_outcome(true);
    h.on_outcome(true);
    h.on_access_points(Some(vec![scanned("home", true)]));
    assert_eq!(h.on_join(JoinOutcome::NotActivated), Action::DiscardJoin);
    assert_eq!(h.on_outcome(false), Action::CreatePortal(Raise::Command));
}

#[test]
fn join_failure_raises_portal() {
    let mut h = idle_without_portal();
    let cmd = NetworkCommand::Connect { ssid: "home".to_string(), identity: String::new(), passphrase: String::new() };
    h.on_command(cmd);
    h.on_outcome(true);
    h.on_outcome(true);
    h.on_access_points(Some(vec![scanned("home", true)]));
    assert_eq!(h.on_join(JoinOutcome::Failed), Action::CreatePortal(Raise::Command));
}

#[test]
fn timeout_before_activate_ends_loop() {
    let mut h = idle_with_portal();
    assert_eq!(h.on_command(NetworkCommand::Timeout), Action::Finish { stop_helper: true, stop_profile: true, error: None });
}

#[test]
fn timeout_after_activate_is_ignored() {
    let mut h = idle_with_portal();
    activate(&mut h, vec![scanned("home", true)]);
    assert_eq!(h.on_command(NetworkCommand::Timeout), Action::AwaitCommand);
    assert_eq!(h.on_command(NetworkCommand::Exit), Action::Finish { stop_helper: true, stop_profile: true, error: None });
}

#[test]
fn current_reports_apmode_and_connection() {
    let mut h = idle_with_portal();
    assert_eq!(h.on_command(NetworkCommand::Current), Action::ReadDeviceState);
    let status = CurrentStatus { apmode: false, connected: true };
    assert_eq!(h.on_device_state(Some(true)), Action::Respond(Reply::Current(status)));
    assert!(matches!(h.response(), Some(NetworkCommandResponse::Current(s)) if s == status));
    assert_eq!(h.on_outcome(true), Action::AwaitCommand);
    let mut g = idle_without_portal();
    g.on_command(NetworkCommand::Current);
    assert_eq!(g.on_device_state(Some(false)), Action::Respond(Reply::Current(CurrentStatus { apmode: true, connected: false })));
}

#[test]
fn has_connection_replies() {
    let mut h = idle_with_portal();
    assert_eq!(h.on_command(NetworkCommand::HasConnection), Action::CheckConnections);
    let reply = HasConnection { result: true };
    assert_eq!(h.on_connections(Some(true)), Action::Respond(Reply::HasConnection(reply)));
    assert!(matches!(h.response(), Some(NetworkCommandResponse::HasConnection(r)) if r == reply));
}

#[test]
fn fatal_errors_end_the_loop() {
    let finish = |helper: bool, profile: bool, e: NetworkError| Action::Finish { stop_helper: helper, stop_profile: profile, error: Some(e) };

    let mut h = NetworkCommandHandler::new(config(), false);
    assert_eq!(h.on_outcome(false), finish(false, false, NetworkError::CreateCaptivePortal));
    assert!(h.response().is_none());

    let mut h = NetworkCommandHandler::new(config(), false);
    h.on_outcome(true);
    assert_eq!(h.on_outcome(false), finish(false, true, NetworkError::StartHelper));

    let mut h = NetworkCommandHandler::new(config(), true);
    h.on_outcome(true);
    assert_eq!(h.on_access_points(None), finish(false, false, NetworkError::NoAccessPoints));

    let mut h = idle_with_portal();
    h.on_command(NetworkCommand::Current);
    assert_eq!(h.on_device_state(None), finish(true, true, NetworkError::DeviceState));

    let mut h = idle_with_portal();
    h.on_command(NetworkCommand::HasConnection);
    assert_eq!(h.on_connections(None), finish(true, true, NetworkError::ListConnections));

    let mut h = idle_with_portal();
    h.on_command(NetworkCommand::HasConnection);
    h.on_connections(Some(false));
    assert_eq!(h.on_outcome(false), finish(true, true, NetworkError::SendResponse));

    let mut h = idle_with_portal();
    h.on_command(NetworkCommand::Connect { ssid: "x".to_string(), identity: String::new(), passphrase: String::new() });
    h.on_outcome(true);
    assert_eq!(h.on_outcome(false), finish(false, true, NetworkError::StopAccessPoint));

    let mut h = idle_with_portal();
    assert_eq!(h.on_channel_closed(), finish(true, true, NetworkError::RecvNetworkCommand));
}

#[test]
fn config_is_kept() {
    let h = NetworkCommandHandler::new(config(), true);
    assert_eq!(h.config().ssid, OWN);
    assert_eq!(h.config().gateway, [192, 168, 42, 1]);
}

#[test]
fn activate_after_startup_scan_keeps_cached_names() {
    let mut h = NetworkCommandHandler::new(config(), true);
    h.on_outcome(true);
    assert_eq!(h.on_access_points(Some(vec![scanned("home", true), scanned("gone", false)])), Action::AwaitCommand);
    let first = activate(&mut h, vec![scanned("home", true)]);
    assert_eq!(first, vec![pair("home", "wpa"), pair("home", "wpa")]);
    let second = activate(&mut h, vec![scanned("home", true)]);
    assert_eq!(second, vec![pair("home", "wpa"), pair("home", "wpa")]);
}

#[test]
fn repeated_activate_lists_a_name_at_most_twice() {
    let mut h = idle_without_portal();
    let scan = || vec![scanned("home", true), scanned("cafe", false)];
    activate(&mut h, scan());
    for _ in 0..3 {
        let listed = activate(&mut h, scan());
        assert_eq!(listed, vec![pair("home", "wpa"), pair("cafe", "none"), pair("home", "wpa"), pair("cafe", "none")]);
    }
    let changed = activate(&mut h, vec![scanned("cafe", false), scanned("new", true)]);
    assert_eq!(changed, vec![pair("cafe", "none"), pair("new", "wpa"), pair("cafe", "none")]);
}

#[test]
fn whole_config_is_kept() {
    let h = NetworkCommandHandler::new(config(), true);
    let c = h.config();
    assert_eq!(c.interface, None);
    assert_eq!(c.passphrase, Some("1234____".to_string()));
    assert_eq!(c.dhcp_range, "192.168.42.2,192.168.42.254");
    assert_eq!(c.listening_at, "0.0.0.0:80");
    assert_eq!(c.activity_timeout, 0);
}
