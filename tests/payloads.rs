use orbiq_system_monitor::config::{DaemonConfig, DeviceConfig};
use orbiq_system_monitor::homeassistant::{
    generate_friendly_name, generate_payloads, generate_system_friendly_name, system_discovery_config,
    system_sensor_availability, system_state, topic, DeviceInfo, Topic,
};
use orbiq_system_monitor::sensors::{Reading, SystemSensor, SystemSensorType};

fn device(name: &str) -> DeviceInfo {
    let mut c = DeviceConfig::default();
    c.name = name.to_string();
    DeviceInfo::from_config(&c)
}

fn sensor(name: &str, kind: SystemSensorType, units: i64, decimals: u32, unit: &str) -> SystemSensor {
    SystemSensor {
        name: name.to_string(),
        label: None,
        value: Reading { units, decimals },
        unit: unit.to_string(),
        sensor_type: kind,
    }
}

#[test]
fn cpu_temperature_scenario() {
    let s = sensor("k10temp_1", SystemSensorType::Temperature, 425, 1, "\u{b0}C");
    let info = device("desk");
    let d = system_discovery_config(&s, "desk", &info);
    assert_eq!(d.topic, "homeassistant/sensor/orbiq_desk/k10temp_1/config");
    assert!(d.retain);
    let expected = [
        "{\"name\":\"CPU Temperature\",\"unique_id\":\"orbiq_desk_k10temp_1\",",
        "\"object_id\":\"orbiq_desk_k10temp_1\",",
        "\"state_topic\":\"homeassistant/sensor/orbiq_desk/k10temp_1/state\",",
        "\"unit_of_measurement\":\"\u{b0}C\",\"state_class\":\"measurement\",",
        "\"value_template\":\"{{ value_json.value }}\",",
        "\"availability\":{\"topic\":\"homeassistant/sensor/orbiq_desk/k10temp_1/availability\",",
        "\"payload_available\":\"online\",\"payload_not_available\":\"offline\"},",
        "\"icon\":\"mdi:thermometer\",\"device_class\":\"temperature\",",
        "\"device\":{\"identifiers\":[\"orbiq_desk\"],\"name\":\"desk\",",
        "\"model\":\"OrbIQ System Monitor\",\"manufacturer\":\"OrbIQ\",",
        "\"sw_version\":\"0.1.0\",\"hw_version\":\"1.0\"}}",
    ]
    .concat();
    assert_eq!(d.payload, expected);
    let doc: serde_json::Value = serde_json::from_str(&d.payload).unwrap();
    assert_eq!(doc["device_class"], "temperature");
    assert_eq!(doc["name"], "CPU Temperature");
    let st = system_state(&s, "desk");
    assert_eq!(st.topic, "homeassistant/sensor/orbiq_desk/k10temp_1/state");
    assert_eq!(st.payload, "{\"value\":42.5}");
    assert!(!st.retain);
    let v: serde_json::Value = serde_json::from_str(&st.payload).unwrap();
    assert_eq!(v["value"].as_f64(), Some(42.5));
}

#[test]
fn discovery_is_deterministic() {
    let s = sensor("nvme_composite_1", SystemSensorType::Temperature, 38850, 3, "\u{b0}C");
    let info = device("desk");
    let a = system_discovery_config(&s, "desk", &info);
    let b = system_discovery_config(&s, "desk", &info);
    assert_eq!(a.topic, b.topic);
    assert_eq!(a.payload, b.payload);
}

#[test]
fn device_class_by_kind() {
    let info = device("pc");
    let used = system_discovery_config(&sensor("memory_used", SystemSensorType::MemoryUsed, 800, 2, "GB"), "pc", &info);
    let v: serde_json::Value = serde_json::from_str(&used.payload).unwrap();
    assert_eq!(v["device_class"], "data_size");
    assert_eq!(v["icon"], "mdi:memory");
    let cpu = system_discovery_config(&sensor("cpu_usage", SystemSensorType::CpuUsage, 424, 1, "%"), "pc", &info);
    let v: serde_json::Value = serde_json::from_str(&cpu.payload).unwrap();
    assert!(v.get("device_class").is_none());
    assert_eq!(v["icon"], "mdi:cpu-64-bit");
    let fan = system_discovery_config(&sensor("it87_1_fan", SystemSensorType::Fan, 900, 0, "RPM"), "pc", &info);
    let v: serde_json::Value = serde_json::from_str(&fan.payload).unwrap();
    assert!(v.get("device_class").is_none());
    assert_eq!(v["name"], "Fan it87_1_fan");
}

#[test]
fn strings_are_escaped_in_documents() {
    let s = sensor("x", SystemSensorType::Fan, 1, 0, "a\"b\\c");
    let d = system_discovery_config(&s, "pc", &device("pc"));
    assert!(d.payload.contains("\"unit_of_measurement\":\"a\\\"b\\\\c\""));
    let v: serde_json::Value = serde_json::from_str(&d.payload).unwrap();
    assert_eq!(v["unit_of_measurement"], "a\"b\\c");
    let s = sensor("x", SystemSensorType::Fan, 1, 0, "a\u{1}b\tc\u{1f}\u{8}\u{c}\n\r");
    let d = system_discovery_config(&s, "pc", &device("pc"));
    assert!(d.payload.contains("\"unit_of_measurement\":\"a\\u0001b\\tc\\u001f\\b\\f\\n\\r\""));
}

#[test]
fn availability_messages() {
    let s = sensor("cpu_usage", SystemSensorType::CpuUsage, 0, 1, "%");
    let on = system_sensor_availability(&s, "pc", true);
    assert_eq!(on.topic, "homeassistant/sensor/orbiq_pc/cpu_usage/availability");
    assert_eq!(on.payload, "online");
    assert!(on.retain);
    let off = system_sensor_availability(&s, "pc", false);
    assert_eq!(off.payload, "offline");
    assert!(off.retain);
}

#[test]
fn topic_layout() {
    let t = Topic::new("fan1".to_string(), "box".to_string(), "state".to_string());
    assert_eq!(topic(t), "homeassistant/sensor/orbiq_box/fan1/state");
}

#[test]
fn temperature_friendly_names() {
    assert_eq!(generate_friendly_name("k10temp_1"), "CPU Temperature");
    assert_eq!(generate_friendly_name("nouveau_1"), "GPU Temperature");
    assert_eq!(generate_friendly_name("nvme_composite_2"), "NVMe 2 Temperature");
    assert_eq!(generate_friendly_name("coretemp_3"), "Core 3 Temperature");
    assert_eq!(generate_friendly_name("acpitz_1"), "System Temperature");
    assert_eq!(generate_friendly_name("amdgpu_1"), "AMD GPU Temperature");
    assert_eq!(generate_friendly_name("radeon_1"), "Radeon GPU Temperature");
    assert_eq!(generate_friendly_name("asus_ec_1"), "ASUS Sensor Temperature");
    assert_eq!(generate_friendly_name("iwlwifi_1_1"), "WiFi Module Temperature");
    assert_eq!(generate_friendly_name("thermal_zone0"), "Thermal Zone Temperature");
    assert_eq!(generate_friendly_name("pch_cannonlake_1"), "pch cannonlake 1 Temperature");
}

#[test]
fn system_friendly_names() {
    let n = |name: &str, kind| generate_system_friendly_name(&sensor(name, kind, 0, 0, "%"));
    assert_eq!(n("cpu_usage", SystemSensorType::CpuUsage), "CPU Usage");
    assert_eq!(n("memory_usage", SystemSensorType::MemoryUsage), "Memory Usage");
    assert_eq!(n("memory_used", SystemSensorType::MemoryUsed), "Memory Used");
    assert_eq!(n("memory_total", SystemSensorType::MemoryTotal), "Memory Total");
    assert_eq!(n("disk_usage_root", SystemSensorType::DiskUsage), "Disk Usage (Root)");
    assert_eq!(n("disk_used_home_user", SystemSensorType::DiskUsed), "Disk Used (HOME USER)");
    assert_eq!(n("disk_total_mnt_data", SystemSensorType::DiskTotal), "Disk Total (MNT DATA)");
    assert_eq!(n("k10temp_1", SystemSensorType::Temperature), "CPU Temperature");
    let mut fan = sensor("it87_1_fan", SystemSensorType::Fan, 0, 0, "RPM");
    fan.label = Some("Chassis".to_string());
    assert_eq!(generate_system_friendly_name(&fan), "Chassis");
}

#[test]
fn payloads_for_each_sensor_in_order() {
    let mut cfg = DaemonConfig::default();
    cfg.device.name = "desk".to_string();
    let info = DeviceInfo::from_config(&cfg.device);
    let sensors = vec![
        sensor("k10temp_1", SystemSensorType::Temperature, 42500, 3, "\u{b0}C"),
        sensor("cpu_usage", SystemSensorType::CpuUsage, 73, 1, "%"),
    ];
    let p = generate_payloads(&sensors, &cfg, &info);
    assert_eq!(p.len(), 2);
    assert_eq!(p[0].name, "k10temp_1");
    assert_eq!(p[1].name, "cpu_usage");
    assert_eq!(p[1].state.payload, "{\"value\":7.3}");
    assert_eq!(p[1].availability.payload, "online");
    assert_eq!(p[0].discovery.topic, "homeassistant/sensor/orbiq_desk/k10temp_1/config");
}

#[test]
fn device_block_from_config() {
    let mut c = DeviceConfig::default();
    c.name = "desk".to_string();
    c.sw_version = None;
    c.hw_version = Some("2.1".to_string());
    let d = DeviceInfo::from_config(&c);
    assert_eq!(d.identifiers, vec!["orbiq_desk".to_string()]);
    assert_eq!(d.name, "desk");
    assert_eq!(d.model, "OrbIQ System Monitor");
    assert_eq!(d.manufacturer, "OrbIQ");
    assert_eq!(d.sw_version.as_deref(), Some("0.1.0"));
    assert_eq!(d.hw_version.as_deref(), Some("2.1"));
}
