use orbiq_system_monitor::sensors::{get_all_sensors, Reading, SystemSensor, SystemSensorType};
use orbiq_system_monitor::homeassistant::system_state;
use orbiq_system_monitor::system_sensor::{
    collect_system_stats, cpu_usage_reading, f32_bits_to_tenths, gigabytes, mount_name_suffix,
    usage_percent, DiskStats, SystemStats,
};

#[test]
fn icons_by_kind() {
    assert_eq!(SystemSensorType::CpuUsage.icon(), "mdi:cpu-64-bit");
    assert_eq!(SystemSensorType::MemoryTotal.icon(), "mdi:memory");
    assert_eq!(SystemSensorType::DiskUsed.icon(), "mdi:harddisk");
    assert_eq!(SystemSensorType::Temperature.icon(), "mdi:thermometer");
    assert_eq!(SystemSensorType::Fan.icon(), "mdi:fan");
}

#[test]
fn reading_text() {
    assert_eq!(Reading { units: 800, decimals: 2 }.to_json_number(), "8.0");
    assert_eq!(Reading { units: 424, decimals: 1 }.to_json_number(), "42.4");
    assert_eq!(Reading { units: -3250, decimals: 3 }.to_json_number(), "-3.25");
    assert_eq!(Reading { units: 5, decimals: 3 }.to_json_number(), "0.005");
    assert_eq!(Reading { units: 0, decimals: 0 }.to_json_number(), "0.0");
    assert_eq!(Reading { units: 1200, decimals: 0 }.to_json_number(), "1200.0");
    assert_eq!(Reading { units: i64::MIN, decimals: 0 }.to_json_number(), "-9223372036854775808.0");
    assert_eq!(Reading { units: 1, decimals: 18 }.to_json_number(), "0.000000000000000001");
}

#[test]
fn used_memory_in_gigabytes() {
    let r = gigabytes(8589934592);
    assert_eq!(r, Reading { units: 800, decimals: 2 });
    assert_eq!(r.to_json_number(), "8.0");
    assert_eq!(gigabytes(0), Reading { units: 0, decimals: 2 });
    assert_eq!(gigabytes(5368710), Reading { units: 1, decimals: 2 });
    assert_eq!(gigabytes(5368709), Reading { units: 0, decimals: 2 });
}

#[test]
fn usage_percent_rounding() {
    assert_eq!(usage_percent(1, 3), Reading { units: 333, decimals: 1 });
    assert_eq!(usage_percent(2, 3), Reading { units: 667, decimals: 1 });
    assert_eq!(usage_percent(5, 0), Reading { units: 0, decimals: 1 });
    assert_eq!(usage_percent(9, 4), Reading { units: 1000, decimals: 1 });
    assert_eq!(usage_percent(u64::MAX, u64::MAX), Reading { units: 1000, decimals: 1 });
}

#[test]
fn mount_suffixes() {
    assert_eq!(mount_name_suffix("/"), "root");
    assert_eq!(mount_name_suffix("/home/user"), "home_user");
    assert_eq!(mount_name_suffix("/mnt/my disk/"), "mnt_my_disk");
}

#[test]
fn system_snapshot_layout() {
    let stats = SystemStats {
        cpu_usage_bits: 42.37f32.to_bits(),
        total_memory: 17179869184,
        used_memory: 8589934592,
        disks: vec![DiskStats { mount_point: "/".to_string(), total_space: 1000, available_space: 250 }],
    };
    let s = collect_system_stats(&stats);
    let names: Vec<&str> = s.iter().map(|x| x.name.as_str()).collect();
    assert_eq!(
        names,
        vec!["cpu_usage", "memory_usage", "memory_used", "memory_total", "disk_usage_root", "disk_used_root", "disk_total_root"]
    );
    assert_eq!(s[0].value.to_json_number(), "42.4");
    assert_eq!(s[1].value, Reading { units: 500, decimals: 1 });
    assert_eq!(s[2].value.to_json_number(), "8.0");
    assert_eq!(s[3].value.to_json_number(), "16.0");
    assert_eq!(s[4].value, Reading { units: 750, decimals: 1 });
    assert_eq!(s[4].unit, "%");
    assert_eq!(s[5].unit, "GB");
    assert_eq!(s[6].sensor_type, SystemSensorType::DiskTotal);
}

#[test]
fn snapshot_order_is_temperatures_system_fans() {
    let mk = |n: &str| SystemSensor {
        name: n.to_string(),
        label: None,
        value: Reading { units: 0, decimals: 0 },
        unit: String::new(),
        sensor_type: SystemSensorType::Fan,
    };
    let all = get_all_sensors(vec![mk("t")], vec![mk("s1"), mk("s2")], vec![mk("f")]);
    let names: Vec<&str> = all.iter().map(|x| x.name.as_str()).collect();
    assert_eq!(names, vec!["t", "s1", "s2", "f"]);
}

#[test]
fn cpu_usage_rounds_to_tenths() {
    let stats = SystemStats { cpu_usage_bits: 42.37f32.to_bits(), total_memory: 0, used_memory: 0, disks: vec![] };
    let s = collect_system_stats(&stats);
    assert_eq!(s[0].name, "cpu_usage");
    assert_eq!(system_state(&s[0], "pc").payload, "{\"value\":42.4}");
    assert_eq!(cpu_usage_reading(f32::NAN.to_bits()), None);
    assert_eq!(cpu_usage_reading(100.0f32.to_bits()), Some(Reading { units: 1000, decimals: 1 }));
    let stats = SystemStats { cpu_usage_bits: f32::INFINITY.to_bits(), total_memory: 0, used_memory: 0, disks: vec![] };
    let s = collect_system_stats(&stats);
    let names: Vec<&str> = s.iter().map(|x| x.name.as_str()).collect();
    assert_eq!(names, vec!["memory_usage", "memory_used", "memory_total"]);
}

#[test]
fn tenths_of_singles_match_float_rounding() {
    assert_eq!(f32_bits_to_tenths(42.37f32.to_bits()), Some(424));
    assert_eq!(f32_bits_to_tenths((-1.25f32).to_bits()), Some(-13));
    assert_eq!(f32_bits_to_tenths(0.05f32.to_bits()), Some(1));
    assert_eq!(f32_bits_to_tenths(0.0f32.to_bits()), Some(0));
    assert_eq!(f32_bits_to_tenths((-0.0f32).to_bits()), Some(0));
    assert_eq!(f32_bits_to_tenths(f32::MIN_POSITIVE.to_bits()), Some(0));
    assert_eq!(f32_bits_to_tenths(1.0e-45f32.to_bits()), Some(0));
    assert_eq!(f32_bits_to_tenths(f32::INFINITY.to_bits()), None);
    assert_eq!(f32_bits_to_tenths(f32::NAN.to_bits()), None);
    assert_eq!(f32_bits_to_tenths(1.0e30f32.to_bits()), None);
    assert_eq!(f32_bits_to_tenths(8388608.0f32.to_bits()), Some(83886080));
    let mut x: f32 = -1000.0;
    while x < 1000.0 {
        let expected = (x as f64 * 10.0).round() as i64;
        assert_eq!(f32_bits_to_tenths(x.to_bits()), Some(expected), "{}", x);
        x += 0.0137;
    }
    for bits in (0u32..=0x7F7F_FFFF).step_by(7_919_311) {
        let v = f32::from_bits(bits) as f64 * 10.0;
        let expected = if v.round() < 9.2e18 { Some(v.round() as i64) } else { None };
        assert_eq!(f32_bits_to_tenths(bits), expected, "{:#x}", bits);
    }
}
