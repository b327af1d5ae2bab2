use orbiq_system_monitor::config::{DaemonConfig, DeviceConfig, MqttConfig};
use orbiq_system_monitor::mqtt_client::{
    connection_settings, supervise, ConnectionEvent, SupervisorAction,
};

#[test]
fn defaults() {
    let c = DaemonConfig::default();
    assert_eq!(c.mqtt.broker, "localhost");
    assert_eq!(c.mqtt.port, 1883);
    assert_eq!(c.mqtt.keep_alive_secs, 30);
    assert_eq!(c.device.name, "system-monitor");
    assert_eq!(c.update_interval_secs, 30);
    assert_eq!(c.discovery_delay_ms, 100);
    assert_eq!(MqttConfig::default().client_id, "orbiq-default");
    assert_eq!(DeviceConfig::default().hw_version.as_deref(), Some("1.0"));
}

#[test]
fn fixed_identity_and_client_id() {
    let mut c = DaemonConfig::default();
    c.device.name = "desk".to_string();
    c.device.model = "Other".to_string();
    c.device.manufacturer = "Someone".to_string();
    c.mqtt.broker = "hub.local".to_string();
    let c = c.with_fixed_identity();
    assert_eq!(c.mqtt.client_id, "orbiq-desk");
    assert_eq!(c.device.model, "OrbIQ System Monitor");
    assert_eq!(c.device.manufacturer, "OrbIQ");
    assert_eq!(c.mqtt.broker, "hub.local");
}

#[test]
fn credentials_only_when_both_are_set() {
    let mut m = MqttConfig::default();
    m.username = Some("u".to_string());
    assert!(connection_settings(&m).credentials.is_none());
    m.password = Some("p".to_string());
    let s = connection_settings(&m);
    assert_eq!(s.credentials, Some(("u".to_string(), "p".to_string())));
    assert_eq!(s.max_packet_size, 10240);
    assert!(!s.clean_session);
    assert_eq!(s.port, 1883);
}

#[test]
fn supervisor_decisions() {
    assert_eq!(supervise(ConnectionEvent::Connected), SupervisorAction::ReportConnected);
    assert_eq!(supervise(ConnectionEvent::Incoming), SupervisorAction::Continue);
    assert_eq!(supervise(ConnectionEvent::Outgoing), SupervisorAction::Continue);
    assert_eq!(supervise(ConnectionEvent::Failed), SupervisorAction::Backoff { secs: 5 });
}
