use wifi_connect::wifi::ConnectAction;
use wifi_connect::wifi::ConnectEvent;
use wifi_connect::wifi::ConnectFlow;
use wifi_connect::wifi::ConnectPhase;
use wifi_connect::wifi::WiFi;
use wifi_connect::wifi::WifiConnectionError;
use wifi_connect::wifi::WifiError;
use wifi_connect::wifi::connect_name_argument;
use wifi_connect::wifi::is_connected_to;
use wifi_connect::wifi::profile_filename_argument;

fn advance(w: &mut WiFi, flow: &mut ConnectFlow, event: ConnectEvent) -> ConnectAction {
    w.connect_advance(flow, event)
}

#[test]
fn command_arguments_have_the_expected_shape() {
    assert_eq!(connect_name_argument("HomeNet"), "name=HomeNet");
    assert_eq!(connect_name_argument(""), "name=");
    assert_eq!(
        profile_filename_argument("C:\\Temp\\profile.xml"),
        "filename=C:\\Temp\\profile.xml"
    );
}

#[test]
fn connect_short_circuits_when_already_present() {
    let mut w = WiFi::new();
    let (mut flow, first) = ConnectFlow::new("HomeNet", "pw");
    assert!(matches!(first, ConnectAction::QueryRadio));
    let a = advance(&mut w, &mut flow, ConnectEvent::RadioQuery(Ok(true)));
    assert!(matches!(a, ConnectAction::QueryStatus));
    let status = String::from("Name: wlan0\nSSID: HomeNet\nState: connected");
    let a = advance(&mut w, &mut flow, ConnectEvent::Status(status));
    assert!(matches!(a, ConnectAction::Finish(Ok(true))));
    assert!(flow.phase == ConnectPhase::Done);
    assert!(w.connection.is_none());
}

#[test]
fn connect_success_records_the_ssid() {
    let mut w = WiFi::new();
    let (mut flow, _) = ConnectFlow::new("HomeNet", "pw");
    let a = advance(&mut w, &mut flow, ConnectEvent::RadioQuery(Ok(true)));
    assert!(matches!(a, ConnectAction::QueryStatus));
    let a = advance(&mut w, &mut flow, ConnectEvent::Status(String::from("SSID: OtherNet")));
    match a {
        ConnectAction::AddProfile(content) => {
            assert!(content.contains("<name>HomeNet</name>"));
            assert!(content.contains("<keyMaterial>pw</keyMaterial>"));
        }
        _ => panic!("expected the add-profile request"),
    }
    let a = advance(&mut w, &mut flow, ConnectEvent::ProfileAdded);
    match a {
        ConnectAction::IssueConnect(name) => assert_eq!(name, "HomeNet"),
        _ => panic!("expected the connect request"),
    }
    let a = advance(&mut w, &mut flow, ConnectEvent::ConnectIssued);
    assert!(matches!(a, ConnectAction::QueryVerify));
    let a = advance(
        &mut w,
        &mut flow,
        ConnectEvent::VerifyStatus(String::from("SSID: HomeNet\nState: connected")),
    );
    assert!(matches!(a, ConnectAction::Finish(Ok(true))));
    let recorded = w.connection.expect("a connection should be recorded");
    assert_eq!(recorded.ssid, "HomeNet");
}

#[test]
fn connect_unverified_is_false_and_record_unchanged() {
    let mut w = WiFi::new();
    let (mut flow, _) = ConnectFlow::new("HomeNet", "pw");
    advance(&mut w, &mut flow, ConnectEvent::RadioQuery(Ok(true)));
    advance(&mut w, &mut flow, ConnectEvent::Status(String::from("no networks")));
    advance(&mut w, &mut flow, ConnectEvent::ProfileAdded);
    advance(&mut w, &mut flow, ConnectEvent::ConnectIssued);
    let a = advance(
        &mut w,
        &mut flow,
        ConnectEvent::VerifyStatus(String::from("still no networks")),
    );
    assert!(matches!(a, ConnectAction::Finish(Ok(false))));
    assert!(w.connection.is_none());
}

#[test]
fn connect_disabled_radio_stops_the_attempt() {
    let mut w = WiFi::new();
    let (mut flow, _) = ConnectFlow::new("HomeNet", "pw");
    let a = advance(&mut w, &mut flow, ConnectEvent::RadioQuery(Ok(false)));
    match a {
        ConnectAction::Finish(Err(WifiConnectionError::Other {
            kind: WifiError::WifiDisabled,
        })) => {}
        _ => panic!("expected the disabled-radio error"),
    }
    assert!(flow.phase == ConnectPhase::Done);
    assert!(w.connection.is_none());
}

#[test]
fn connect_radio_query_failure_is_wrapped() {
    let mut w = WiFi::new();
    let (mut flow, _) = ConnectFlow::new("HomeNet", "pw");
    let a = advance(
        &mut w,
        &mut flow,
        ConnectEvent::RadioQuery(Err(WifiError::IoError(String::from("query broke")))),
    );
    match a {
        ConnectAction::Finish(Err(WifiConnectionError::Other {
            kind: WifiError::IoError(detail),
        })) => assert_eq!(detail, "query broke"),
        _ => panic!("expected the wrapped query failure"),
    }
}

#[test]
fn connect_profile_write_failure_is_surfaced() {
    let mut w = WiFi::new();
    let (mut flow, _) = ConnectFlow::new("HomeNet", "pw");
    advance(&mut w, &mut flow, ConnectEvent::RadioQuery(Ok(true)));
    advance(&mut w, &mut flow, ConnectEvent::Status(String::from("")));
    let staged = WifiConnectionError::Other {
        kind: WifiError::IoError(String::from("temp file failed")),
    };
    let a = advance(&mut w, &mut flow, ConnectEvent::ProfileWriteFailed(staged));
    match a {
        ConnectAction::Finish(Err(WifiConnectionError::Other {
            kind: WifiError::IoError(detail),
        })) => assert_eq!(detail, "temp file failed"),
        _ => panic!("expected the staging error to be surfaced"),
    }
}

#[test]
fn connect_add_profile_spawn_failure() {
    let mut w = WiFi::new();
    let (mut flow, _) = ConnectFlow::new("HomeNet", "pw");
    advance(&mut w, &mut flow, ConnectEvent::RadioQuery(Ok(true)));
    advance(&mut w, &mut flow, ConnectEvent::Status(String::from("")));
    let a = advance(&mut w, &mut flow, ConnectEvent::ProfileAddSpawnFailed);
    assert!(matches!(
        a,
        ConnectAction::Finish(Err(WifiConnectionError::AddNetworkProfileFailed))
    ));
}

#[test]
fn connect_command_spawn_failure() {
    let mut w = WiFi::new();
    let (mut flow, _) = ConnectFlow::new("HomeNet", "pw");
    advance(&mut w, &mut flow, ConnectEvent::RadioQuery(Ok(true)));
    advance(&mut w, &mut flow, ConnectEvent::Status(String::from("")));
    advance(&mut w, &mut flow, ConnectEvent::ProfileAdded);
    let a = advance(
        &mut w,
        &mut flow,
        ConnectEvent::ConnectSpawnFailed(String::from("no such tool")),
    );
    match a {
        ConnectAction::Finish(Err(WifiConnectionError::FailedToConnect(detail))) => {
            assert_eq!(detail, "no such tool");
        }
        _ => panic!("expected the connect spawn failure"),
    }
    assert!(w.connection.is_none());
}

#[test]
fn disconnect_true_only_on_the_keyword() {
    let w = WiFi::new();
    let r = w.disconnect(Ok(String::from("The disconnect request completed.")));
    assert!(matches!(r, Ok(true)));
    let r = w.disconnect(Ok(String::from("There is no connection to end.")));
    assert!(matches!(r, Ok(false)));
    let r = w.disconnect(Ok(String::new()));
    assert!(matches!(r, Ok(false)));
}

#[test]
fn disconnect_spawn_failure_is_an_error() {
    let w = WiFi::new();
    let r = w.disconnect(Err(String::from("tool missing")));
    match r {
        Err(WifiConnectionError::FailedToDisconnect(detail)) => {
            assert_eq!(detail, "tool missing");
        }
        _ => panic!("expected the disconnect spawn failure"),
    }
}

#[test]
fn checker_reports_spurious_substring_match() {
    // "Shop" is a substring of another network's name, so the plain
    // substring checker counts it as present: expected behaviour.
    assert!(is_connected_to("Shop", "...SSID: CoffeeShop ..."));
    assert!(!is_connected_to("Cafe", "...SSID: CoffeeShop ..."));
}
