use orbiq_system_monitor::hwmon_devices::HwmonDevice;
use orbiq_system_monitor::sensors::SystemSensorType;
use orbiq_system_monitor::temperature_sensor::{
    extract_temperature_number, is_temperature_file, label_file_name, process_temperature_file,
};

#[test]
fn test_is_temperature_file() {
    assert!(is_temperature_file("temp1_input"));
    assert!(is_temperature_file("temp2_input"));
    assert!(!is_temperature_file("temp1_max"));
    assert!(!is_temperature_file("fan1_input"));
}

#[test]
fn test_extract_temperature_number() {
    assert_eq!(
        extract_temperature_number("temp1_input"),
        Some("1".to_string())
    );
    assert_eq!(
        extract_temperature_number("temp12_input"),
        Some("12".to_string())
    );
}

#[test]
fn label_file_sits_beside_value_file() {
    assert_eq!(label_file_name("temp3_input"), "temp3_label");
}

#[test]
fn temperature_file_becomes_sensor() {
    let device = HwmonDevice::new("/sys/class/hwmon/hwmon0".to_string(), "hwmon0", Some("k10temp\n"));
    assert_eq!(device.name, "k10temp");
    let s = process_temperature_file(&device, "temp1_input", "42500\n", Some(" Tctl \n")).unwrap();
    assert_eq!(s.name, "k10temp_1");
    assert_eq!(s.label.as_deref(), Some("Tctl"));
    assert_eq!(s.value.units, 42500);
    assert_eq!(s.value.decimals, 3);
    assert_eq!(s.unit, "\u{b0}C");
    assert_eq!(s.sensor_type, SystemSensorType::Temperature);
    assert_eq!(s.value.to_json_number(), "42.5");
}

#[test]
fn temperature_without_label_keeps_no_label() {
    let device = HwmonDevice::new("/x".to_string(), "hwmon1", None);
    assert_eq!(device.name, "hwmon1");
    let s = process_temperature_file(&device, "temp2_input", "-1500", None).unwrap();
    assert_eq!(s.name, "hwmon1_2");
    assert_eq!(s.label, None);
    assert_eq!(s.value.to_json_number(), "-1.5");
}

#[test]
fn unreadable_or_foreign_files_yield_nothing() {
    let device = HwmonDevice::new("/x".to_string(), "hwmon1", None);
    assert!(process_temperature_file(&device, "temp1_max", "42500", None).is_none());
    assert!(process_temperature_file(&device, "temp1_input", "n/a", None).is_none());
    assert!(process_temperature_file(&device, "temp1_input", "4e4", None).is_none());
    assert!(process_temperature_file(&device, "temp1_input", "", None).is_none());
}

#[test]
fn temperature_with_a_fraction() {
    let device = HwmonDevice::new("/x".to_string(), "k10temp", None);
    let s = process_temperature_file(&device, "temp1_input", "42500.0\n", None).unwrap();
    assert_eq!(s.value.to_json_number(), "42.5");
    let s = process_temperature_file(&device, "temp1_input", "42125.5", None).unwrap();
    assert_eq!(s.value.to_json_number(), "42.1255");
}
