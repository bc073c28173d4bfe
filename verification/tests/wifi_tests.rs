use lidar_fill_state::system::SystemState;
use lidar_fill_state::wifi::{
    authentication_text, connection_error_text, to_string, wifi_begin, wifi_error_text, wifi_step,
    AuthenticationMethod, ConnectionError, DisconnectReason, WifiError, WifiEvent, WifiWait,
};

#[test]
fn reasons_have_names() {
    assert_eq!(
        to_string(DisconnectReason::AccessPointInitiatedDisassociation),
        "AccessPointInitiatedDisassociation"
    );
    assert_eq!(to_string(DisconnectReason::NoAccessPointFound), "NoAccessPointFound");
    assert_eq!(
        to_string(DisconnectReason::_802_1xAuthenticationFailed),
        "_802_1xAuthenticationFailed"
    );
    assert_eq!(to_string(DisconnectReason::Other), "Unknown");
    assert_ne!(to_string(DisconnectReason::InvalidFte), to_string(DisconnectReason::InvalidMde));
}

#[test]
fn methods_have_names() {
    assert_eq!(authentication_text(AuthenticationMethod::Open), "None");
    assert_eq!(authentication_text(AuthenticationMethod::Wpa2Personal), "Wpa2Personal");
    assert_eq!(
        authentication_text(AuthenticationMethod::Wpa3EntSuiteB192Bit),
        "Wpa3EntSuiteB192Bit"
    );
    assert_eq!(authentication_text(AuthenticationMethod::Other), "Unknown");
}

#[test]
fn failures_have_names() {
    assert_eq!(wifi_error_text(WifiError::Other), "Other");
    assert_eq!(wifi_error_text(WifiError::Unlisted), "Unknown");
    assert_eq!(
        connection_error_text(ConnectionError::Failed(DisconnectReason::BeaconTimeout)),
        "BeaconTimeout"
    );
    assert_eq!(
        connection_error_text(ConnectionError::Wifi(WifiError::InvalidPassword)),
        "InvalidPassword"
    );
    assert_eq!(connection_error_text(ConnectionError::Other), "Unknown");
}

#[test]
fn connection_is_announced_and_watched() {
    let step = wifi_step(wifi_begin(), WifiEvent::Connected);
    assert_eq!(step.wait, WifiWait::Disconnect);
    assert_eq!(step.announce, Some(SystemState::Running));
    let step = wifi_step(step.wait, WifiEvent::Disconnected);
    assert_eq!(step.wait, WifiWait::Pause(2_000_000));
    assert_eq!(step.announce, None);
    let step = wifi_step(step.wait, WifiEvent::PauseOver);
    assert_eq!(step.wait, WifiWait::Connect);
}

#[test]
fn failed_attempt_is_repeated() {
    let step = wifi_step(WifiWait::Connect, WifiEvent::ConnectFailed);
    assert_eq!(step.wait, WifiWait::Pause(5_000_000));
    assert_eq!(step.announce, Some(SystemState::WifiError));
    let step = wifi_step(step.wait, WifiEvent::PauseOver);
    assert_eq!(step.wait, WifiWait::Connect);
    assert_eq!(step.announce, None);
}

#[test]
fn unfitting_events_change_nothing() {
    let step = wifi_step(WifiWait::Connect, WifiEvent::PauseOver);
    assert_eq!(step.wait, WifiWait::Connect);
    assert_eq!(step.announce, None);
}
