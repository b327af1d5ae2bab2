use crate::hwmon_devices::HwmonDevice;
use crate::sensors::{parse_reading, parsed_reading, SensorModel, SystemSensor, SystemSensorType};
use crate::text::{
    concat2, ends_with, occurs_at, replace, replaced, starts_with,
    trim, trimmed,
};
use vstd::prelude::*;

verus! {

/// Unit of every fan sensor.
pub const RPM: &'static str = "RPM";

/// `fan<N>_input`: a fan speed file.
pub open spec fn is_fan_name(f: Seq<char>) -> bool {
    occurs_at(f, "fan"@, 0) && "_input"@.len() <= f.len() && occurs_at(
        f,
        "_input"@,
        f.len() - "_input"@.len(),
    )
}

/// The fan number of a fan file: its name without `fan` and `_input`.
pub open spec fn fan_id(f: Seq<char>) -> Seq<char> {
    replaced(replaced(f, "fan"@, ""@), "_input"@, ""@)
}

/// The fan sensor a speed file yields, if its name and content qualify; its
/// label is the trimmed label file, when that could be read.
pub open spec fn fan_sensor_model(
    device_name: Seq<char>,
    file_name: Seq<char>,
    raw: Seq<char>,
    label_raw: Option<Seq<char>>,
) -> Option<SensorModel> {
    if !is_fan_name(file_name) {
        None
    } else {
        match parsed_reading(raw) {
            Some(rpm) => Some(
                SensorModel {
                    name: device_name + seq!['_'] + fan_id(file_name) + "_fan"@,
                    label: match label_raw {
                        Some(l) => Some(trimmed(l)),
                        None => None,
                    },
                    value: rpm,
                    unit: RPM@,
                    kind: SystemSensorType::Fan,
                },
            ),
            None => None,
        }
    }
}

/// Whether `filename` names a fan speed file.
pub fn is_fan_file(filename: &str) -> (r: bool)
    ensures
        r == is_fan_name(filename@),
{
    starts_with(filename, "fan") && ends_with(filename, "_input")
}

/// The fan number of a fan speed file.
pub fn extract_fan_id(filename: &str) -> (r: Option<String>)
    ensures
        r matches Some(n) && n@ == fan_id(filename@),
{
    proof {
        reveal_strlit("fan");
        reveal_strlit("_input");
    }
    let a = replace(filename, "fan", "");
    Some(replace(a.as_str(), "_input", ""))
}

/// The sensor for one file of a device directory, given the file's content and
/// that of its label file, if one could be read.
pub fn process_fan_file(device: &HwmonDevice, filename: &str, raw: &str, label_raw: Option<&str>) -> (r:
    Option<SystemSensor>)
    ensures
        match r {
            Some(s) => fan_sensor_model(
                device.name@,
                filename@,
                raw@,
                match label_raw {
                    Some(l) => Some(l@),
                    None => None,
                },
            ) == Some(s@) && s.wf(),
            None => fan_sensor_model(
                device.name@,
                filename@,
                raw@,
                match label_raw {
                    Some(l) => Some(l@),
                    None => None,
                },
            ) is None,
        },
{
    if !is_fan_file(filename) {
        return None;
    }
    let rpm = match parse_reading(raw) {
        Some(v) => v,
        None => return None,
    };
    let label = match label_raw {
        Some(l) => Some(trim(l)),
        None => None,
    };
    let id = match extract_fan_id(filename) {
        Some(n) => n,
        None => return None,
    };
    let mut name = concat2(device.name.as_str(), "_");
    name.append(id.as_str());
    name.append("_fan");
    proof {
        reveal_strlit("_");
    }
    assert("_"@ =~= seq!['_']);
    Some(
        SystemSensor {
            name,
            label,
            value: rpm,
            unit: RPM.to_owned(),
            sensor_type: SystemSensorType::Fan,
        },
    )
}

} // verus!
