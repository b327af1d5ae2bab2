//! Telemetry agent core: sensor modelling, Home Assistant discovery payloads,
//! and the publish state machine that drives an MQTT session.

pub mod config;
pub mod fan_sensors;
pub mod homeassistant;
pub mod hwmon_devices;
pub mod mqtt_client;
pub mod orchestrator;
pub mod sensors;
pub mod system_sensor;
pub mod temperature_sensor;
pub mod text;
pub mod trace;
