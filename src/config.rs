use crate::text::{concat2, opt_view};
use vstd::prelude::*;

verus! {

/// The agent's own version, reported as the device's software version by default.
pub const SOFTWARE_VERSION: &'static str = "0.1.0";

/// Model name every device reports, whatever the configuration says.
pub const DEVICE_MODEL: &'static str = "OrbIQ System Monitor";

/// Manufacturer every device reports, whatever the configuration says.
pub const DEVICE_MANUFACTURER: &'static str = "OrbIQ";

/// Hardware version reported when the configuration gives none.
pub const DEFAULT_HW_VERSION: &'static str = "1.0";

/// Broker connection settings.
#[derive(Debug, Clone)]
pub struct MqttConfig {
    pub broker: String,
    pub port: u16,
    pub username: Option<String>,
    pub password: Option<String>,
    pub client_id: String,
    pub keep_alive_secs: u64,
}

/// How this machine presents itself to the hub.
#[derive(Debug, Clone)]
pub struct DeviceConfig {
    pub name: String,
    pub model: String,
    pub manufacturer: String,
    pub sw_version: Option<String>,
    pub hw_version: Option<String>,
}

/// Everything the agent is configured with.
#[derive(Debug, Clone)]
pub struct DaemonConfig {
    pub mqtt: MqttConfig,
    pub device: DeviceConfig,
    pub update_interval_secs: u64,
    pub discovery_delay_ms: u64,
}

impl Default for MqttConfig {
    fn default() -> (r: Self)
        ensures
            r.broker@ == "localhost"@,
            r.port == 1883,
            r.username is None,
            r.password is None,
            r.client_id@ == "orbiq-default"@,
            r.keep_alive_secs == 30,
    {
        MqttConfig {
            broker: "localhost".to_owned(),
            port: 1883,
            username: None,
            password: None,
            client_id: "orbiq-default".to_owned(),
            keep_alive_secs: 30,
        }
    }
}

impl Default for DeviceConfig {
    fn default() -> (r: Self)
        ensures
            r.name@ == "system-monitor"@,
            r.model@ == DEVICE_MODEL@,
            r.manufacturer@ == DEVICE_MANUFACTURER@,
            opt_view(r.sw_version) == Some(SOFTWARE_VERSION@),
            opt_view(r.hw_version) == Some(DEFAULT_HW_VERSION@),
    {
        DeviceConfig {
            name: "system-monitor".to_owned(),
            model: DEVICE_MODEL.to_owned(),
            manufacturer: DEVICE_MANUFACTURER.to_owned(),
            sw_version: Some(SOFTWARE_VERSION.to_owned()),
            hw_version: Some(DEFAULT_HW_VERSION.to_owned()),
        }
    }
}

impl Default for DaemonConfig {
    fn default() -> (r: Self)
        ensures
            r.mqtt.broker@ == "localhost"@,
            r.mqtt.port == 1883,
            r.mqtt.username is None,
            r.mqtt.password is None,
            r.mqtt.client_id@ == "orbiq-default"@,
            r.mqtt.keep_alive_secs == 30,
            r.device.name@ == "system-monitor"@,
            r.device.model@ == DEVICE_MODEL@,
            r.device.manufacturer@ == DEVICE_MANUFACTURER@,
            opt_view(r.device.sw_version) == Some(SOFTWARE_VERSION@),
            opt_view(r.device.hw_version) == Some(DEFAULT_HW_VERSION@),
            r.update_interval_secs == 30,
            r.discovery_delay_ms == 100,
    {
        DaemonConfig {
            mqtt: MqttConfig::default(),
            device: DeviceConfig::default(),
            update_interval_secs: 30,
            discovery_delay_ms: 100,
        }
    }
}

/// The client identifier derived from a device name.
pub open spec fn client_id_for(device_name: Seq<char>) -> Seq<char> {
    "orbiq-"@ + device_name
}

impl DaemonConfig {
    /// The configuration with the fixed device identity and the client identifier
    /// derived from the device name; all else is kept.
    pub fn with_fixed_identity(self) -> (r: DaemonConfig)
        ensures
            r.device.model@ == DEVICE_MODEL@,
            r.device.manufacturer@ == DEVICE_MANUFACTURER@,
            r.mqtt.client_id@ == client_id_for(self.device.name@),
            r.device.name == self.device.name,
            r.device.sw_version == self.device.sw_version,
            r.device.hw_version == self.device.hw_version,
            r.mqtt.broker == self.mqtt.broker,
            r.mqtt.port == self.mqtt.port,
            r.mqtt.username == self.mqtt.username,
            r.mqtt.password == self.mqtt.password,
            r.mqtt.keep_alive_secs == self.mqtt.keep_alive_secs,
            r.update_interval_secs == self.update_interval_secs,
            r.discovery_delay_ms == self.discovery_delay_ms,
    {
        let mut config = self;
        config.device.model = DEVICE_MODEL.to_owned();
        config.device.manufacturer = DEVICE_MANUFACTURER.to_owned();
        config.mqtt.client_id = concat2("orbiq-", config.device.name.as_str());
        config
    }
}

} // verus!
