use iqos_ble::device::ConnectionState;
use iqos_ble::device::IQOS;
use iqos_ble::error::IqosError;
use iqos_ble::iluma::NotIlumaError;
use iqos_ble::resolver::resolve_control_characteristic;
use iqos_ble::resolver::BleService;

fn service(ids: &[&str]) -> BleService {
    BleService { characteristic_ids: ids.iter().map(|s| s.to_string()).collect() }
}

fn iluma_device() -> IQOS {
    IQOS::new(
        "IQOS ILUMA PRIME".to_string(),
        "SN123456".to_string(),
        "1.2.3".to_string(),
        "Philip Morris Products S.A.".to_string(),
    )
}

#[test]
fn new_device_defaults() {
    let d = iluma_device();
    assert_eq!(d.model_number(), "IQOS ILUMA PRIME");
    assert_eq!(d.serial_number(), "SN123456");
    assert_eq!(d.software_revision(), "1.2.3");
    assert_eq!(d.manufacturer_name(), "Philip Morris Products S.A.");
    assert_eq!(d.battery_level(), 0);
    assert_eq!(d.control_characteristic_id(), "");
    assert_eq!(d.connection_state(), ConnectionState::Disconnected);
}

#[test]
fn is_iluma_looks_at_model_text() {
    assert!(iluma_device().is_iluma());
    let one = IQOS::new("ONE".to_string(), "s".to_string(), "v".to_string(), "m".to_string());
    assert!(!one.is_iluma());
    let lower = IQOS::new("iluma".to_string(), "s".to_string(), "v".to_string(), "m".to_string());
    assert!(!lower.is_iluma());
}

#[test]
fn lifecycle_reaches_ready_and_resolves() {
    let mut d = iluma_device();
    d.begin_connect();
    assert_eq!(d.connection_state(), ConnectionState::Connecting);
    d.on_connected();
    assert_eq!(d.connection_state(), ConnectionState::Connected);
    d.begin_discovery();
    assert_eq!(d.connection_state(), ConnectionState::Discovering);
    let tree = vec![service(&["180A", "2A29"]), service(&["FFE0", "FFE9E0F1"])];
    d.initialize(&tree);
    assert_eq!(d.connection_state(), ConnectionState::Ready);
    assert_eq!(d.control_characteristic_id(), "FFE9E0F1");
}

#[test]
fn disconnect_and_failure_collapse_state() {
    let mut d = iluma_device();
    d.begin_connect();
    d.on_connected();
    d.disconnect();
    assert_eq!(d.connection_state(), ConnectionState::Disconnected);
    d.begin_connect();
    d.on_transport_failure();
    assert_eq!(d.connection_state(), ConnectionState::Disconnected);
}

#[test]
fn resolver_picks_first_match_in_discovery_order() {
    let tree = vec![
        service(&["180A"]),
        service(&["2A29", "FFE9AAAA", "FFE9BBBB"]),
        service(&["FFE9CCCC"]),
    ];
    assert_eq!(resolve_control_characteristic(&tree), Some("FFE9AAAA".to_string()));
}

#[test]
fn resolver_needs_exact_prefix() {
    let tree = vec![service(&["ffe9aaaa", "FFE", "AFFE9000"])];
    assert_eq!(resolve_control_characteristic(&tree), None);
    let tree = vec![service(&["FFE9"])];
    assert_eq!(resolve_control_characteristic(&tree), Some("FFE9".to_string()));
}

#[test]
fn resolver_returns_none_on_empty_or_unmatched_tree() {
    assert_eq!(resolve_control_characteristic(&vec![]), None);
    let tree = vec![service(&[]), service(&["180A", "2A29"])];
    assert_eq!(resolve_control_characteristic(&tree), None);
}

#[test]
fn error_messages_name_their_kind() {
    assert_eq!(
        IqosError::TransportError("link lost".to_string()).message(),
        "transport error: link lost"
    );
    assert_eq!(
        IqosError::ConfigurationError("Invalid brightness level".to_string()).message(),
        "configuration error: Invalid brightness level"
    );
    assert_eq!(
        IqosError::IncompatibleModelError.message(),
        "this operation requires an ILUMA model"
    );
    assert_eq!(
        IqosError::NotReady.message(),
        "device not ready: control characteristic unresolved"
    );
}

#[test]
fn not_iluma_error_message() {
    assert_eq!(NotIlumaError.message(), "This device is not an IQOS ILUMA model");
}
