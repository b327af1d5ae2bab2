use crate::text::{trim, trimmed};
use vstd::prelude::*;

verus! {

/// Where the kernel lists its hardware monitoring devices.
pub const HWMON_BASE_PATH: &'static str = "/sys/class/hwmon";

/// One hardware monitoring device: its directory and its name.
#[derive(Debug)]
pub struct HwmonDevice {
    pub path: String,
    pub name: String,
}

/// A device's name: the content of its `name` file, trimmed, if it could be read;
/// else the name of its directory.
pub open spec fn device_name_of(dir_name: Seq<char>, name_file: Option<Seq<char>>) -> Seq<char> {
    match name_file {
        Some(n) => trimmed(n),
        None => dir_name,
    }
}

impl HwmonDevice {
    /// The device found in directory `path`, named `dir_name`, given the content of
    /// its `name` file, if it could be read.
    pub fn new(path: String, dir_name: &str, name_file: Option<&str>) -> (r: HwmonDevice)
        ensures
            r.path == path,
            r.name@ == device_name_of(
                dir_name@,
                match name_file {
                    Some(n) => Some(n@),
                    None => None,
                },
            ),
    {
        let name = match name_file {
            Some(n) => trim(n),
            None => dir_name.to_owned(),
        };
        HwmonDevice { path, name }
    }
}

} // verus!
