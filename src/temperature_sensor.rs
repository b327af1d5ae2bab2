use crate::hwmon_devices::HwmonDevice;
use crate::sensors::{
    parse_reading, parsed_reading, Reading, SensorModel, SystemSensor, SystemSensorType, MAX_DECIMALS,
};
use crate::text::{
    concat2, ends_with, occurs_at, opt_view, replace, replaced,
    starts_with, trim, trimmed,
};
use vstd::prelude::*;

verus! {

/// hwmon temperatures are reported in thousandths of a degree Celsius.
pub const MILLIDEGREE_DECIMALS: u32 = 3;

/// Unit of every temperature sensor.
pub const CELSIUS: &'static str = "\u{b0}C";

/// `temp<N>_input`: a temperature value file.
pub open spec fn is_temperature_name(f: Seq<char>) -> bool {
    occurs_at(f, "temp"@, 0) && "_input"@.len() <= f.len() && occurs_at(
        f,
        "_input"@,
        f.len() - "_input"@.len(),
    )
}

/// The sensor number of a temperature file: its name without `temp` and `_input`.
pub open spec fn temperature_number(f: Seq<char>) -> Seq<char> {
    replaced(replaced(f, "temp"@, ""@), "_input"@, ""@)
}

/// The label file beside a value file.
pub open spec fn label_file_of(f: Seq<char>) -> Seq<char> {
    replaced(f, "_input"@, "_label"@)
}

/// The temperature sensor a value file yields, if its name and content qualify:
/// the content is in thousandths of a degree.
pub open spec fn temperature_sensor_model(
    device_name: Seq<char>,
    file_name: Seq<char>,
    raw: Seq<char>,
    label_raw: Option<Seq<char>>,
) -> Option<SensorModel> {
    if !is_temperature_name(file_name) {
        None
    } else {
        match parsed_reading(raw) {
            None => None,
            Some(millis) => if millis.decimals + MILLIDEGREE_DECIMALS > MAX_DECIMALS {
                None
            } else {
                Some(
                SensorModel {
                    name: device_name + seq!['_'] + temperature_number(file_name),
                    label: match label_raw {
                        Some(l) => Some(trimmed(l)),
                        None => None,
                    },
                    value: Reading {
                        units: millis.units,
                        decimals: (millis.decimals + MILLIDEGREE_DECIMALS) as u32,
                    },
                    unit: CELSIUS@,
                    kind: SystemSensorType::Temperature,
                },
            )
            },
        }
    }
}

/// Whether `filename` names a temperature value file.
pub fn is_temperature_file(filename: &str) -> (r: bool)
    ensures
        r == is_temperature_name(filename@),
{
    starts_with(filename, "temp") && ends_with(filename, "_input")
}

/// The sensor number of a temperature value file.
pub fn extract_temperature_number(filename: &str) -> (r: Option<String>)
    ensures
        r matches Some(n) && n@ == temperature_number(filename@),
{
    proof {
        reveal_strlit("temp");
        reveal_strlit("_input");
    }
    let a = replace(filename, "temp", "");
    Some(replace(a.as_str(), "_input", ""))
}

/// The name of the label file beside a value file.
pub fn label_file_name(filename: &str) -> (r: String)
    ensures
        r@ == label_file_of(filename@),
{
    proof {
        reveal_strlit("_input");
    }
    replace(filename, "_input", "_label")
}

/// The sensor for one file of a device directory, given the file's content and
/// that of its label file, if one could be read.
pub fn process_temperature_file(
    device: &HwmonDevice,
    filename: &str,
    raw: &str,
    label_raw: Option<&str>,
) -> (r: Option<SystemSensor>)
    ensures
        match r {
            Some(s) => temperature_sensor_model(
                device.name@,
                filename@,
                raw@,
                match label_raw {
                    Some(l) => Some(l@),
                    None => None,
                },
            ) == Some(s@) && s.wf(),
            None => temperature_sensor_model(
                device.name@,
                filename@,
                raw@,
                match label_raw {
                    Some(l) => Some(l@),
                    None => None,
                },
            ) is None,
        },
{
    if !is_temperature_file(filename) {
        return None;
    }
    let millis = match parse_reading(raw) {
        Some(m) => m,
        None => return None,
    };
    if millis.decimals > MAX_DECIMALS - MILLIDEGREE_DECIMALS {
        return None;
    }
    let number = match extract_temperature_number(filename) {
        Some(n) => n,
        None => return None,
    };
    let mut name = concat2(device.name.as_str(), "_");
    name.append(number.as_str());
    proof {
        reveal_strlit("_");
    }
    assert("_"@ =~= seq!['_']);
    let label = match label_raw {
        Some(l) => Some(trim(l)),
        None => None,
    };
    let s = SystemSensor {
        name,
        label,
        value: Reading { units: millis.units, decimals: millis.decimals + MILLIDEGREE_DECIMALS },
        unit: CELSIUS.to_owned(),
        sensor_type: SystemSensorType::Temperature,
    };
    assert(opt_view(s.label) == match label_raw {
        Some(l) => Some(trimmed(l@)),
        None => None::<Seq<char>>,
    });
    Some(s)
}

} // verus!
