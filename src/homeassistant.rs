use crate::config::{
    DaemonConfig, DeviceConfig, DEFAULT_HW_VERSION, DEVICE_MANUFACTURER, DEVICE_MODEL,
    SOFTWARE_VERSION,
};
use crate::mqtt_client::{MqttPayload, MqttSensorTopics, PayloadModel, TopicsModel};
use crate::sensors::{
    icon_of, reading_text, SensorModel, SystemSensor, SystemSensorType,
};
use crate::text::{
    after_last, clone_opt, concat2, contains, has_substring, json_string, json_string_of,
    last_segment, opt_view, replace, replaced, to_upper, upper_of,
};
use vstd::prelude::*;

verus! {

/// The device block embedded in every discovery document.
#[derive(Debug, Clone)]
pub struct DeviceInfo {
    pub identifiers: Vec<String>,
    pub name: String,
    pub model: String,
    pub manufacturer: String,
    pub sw_version: Option<String>,
    pub hw_version: Option<String>,
}

/// A device block as plain values.
pub ghost struct DeviceModel {
    pub identifiers: Seq<Seq<char>>,
    pub name: Seq<char>,
    pub model: Seq<char>,
    pub manufacturer: Seq<char>,
    pub sw_version: Option<Seq<char>>,
    pub hw_version: Option<Seq<char>>,
}

impl View for DeviceInfo {
    type V = DeviceModel;

    open spec fn view(&self) -> DeviceModel {
        DeviceModel {
            identifiers: self.identifiers@.map_values(|s: String| s@),
            name: self.name@,
            model: self.model@,
            manufacturer: self.manufacturer@,
            sw_version: opt_view(self.sw_version),
            hw_version: opt_view(self.hw_version),
        }
    }
}

/// The parts of a sensor topic.
#[derive(Debug, Clone)]
pub struct Topic {
    sensor_name: String,
    device_name: String,
    sub_topic: String,
}

impl Topic {
    pub fn new(sensor_name: String, device_name: String, sub_topic: String) -> (r: Topic)
        ensures
            r.sensor()@ == sensor_name@,
            r.device()@ == device_name@,
            r.sub()@ == sub_topic@,
    {
        Topic { sensor_name, device_name, sub_topic }
    }

    pub closed spec fn sensor(&self) -> String {
        self.sensor_name
    }

    pub closed spec fn device(&self) -> String {
        self.device_name
    }

    pub closed spec fn sub(&self) -> String {
        self.sub_topic
    }
}

/// The node that groups one device's sensors.
pub open spec fn node_of(device_name: Seq<char>) -> Seq<char> {
    "homeassistant/sensor/orbiq_"@ + device_name
}

/// `homeassistant/sensor/orbiq_<device>/<sensor>/<sub>`.
pub open spec fn topic_path(device_name: Seq<char>, sensor_name: Seq<char>, sub: Seq<char>) -> Seq<
    char,
> {
    node_of(device_name) + seq!['/'] + sensor_name + seq!['/'] + sub
}

/// The identifier the hub gives the entity of a sensor.
pub open spec fn unique_id_of(device_name: Seq<char>, sensor_name: Seq<char>) -> Seq<char> {
    "orbiq_"@ + device_name + seq!['_'] + sensor_name
}

/// Friendly name of a temperature sensor, from its name.
pub open spec fn temperature_name(n: Seq<char>) -> Seq<char> {
    if has_substring(n, "k10temp"@) {
        "CPU Temperature"@
    } else if has_substring(n, "nouveau"@) {
        "GPU Temperature"@
    } else if has_substring(n, "nvme"@) {
        "NVMe "@ + after_last(n, '_') + " Temperature"@
    } else if has_substring(n, "coretemp"@) {
        "Core "@ + after_last(n, '_') + " Temperature"@
    } else if has_substring(n, "acpi"@) {
        "System Temperature"@
    } else if has_substring(n, "amdgpu"@) {
        "AMD GPU Temperature"@
    } else if has_substring(n, "radeon"@) {
        "Radeon GPU Temperature"@
    } else if has_substring(n, "asus"@) {
        "ASUS Sensor Temperature"@
    } else if has_substring(n, "iwlwifi"@) {
        "WiFi Module Temperature"@
    } else if has_substring(n, "thermal"@) {
        "Thermal Zone Temperature"@
    } else {
        replaced(n, "_"@, " "@) + " Temperature"@
    }
}

/// Friendly name of a fan: its hardware label, else `Fan <name>`.
pub open spec fn fan_name(s: SensorModel) -> Seq<char> {
    match s.label {
        Some(label) => label,
        None => "Fan "@ + s.name,
    }
}

/// Friendly name of a disk sensor: `<title> (Root)` for the root mount, else the
/// mount part of the name, with `_` as spaces, upper-cased, in parentheses.
pub open spec fn disk_name(title: Seq<char>, prefix: Seq<char>, n: Seq<char>) -> Seq<char> {
    if has_substring(n, "root"@) {
        title + " (Root)"@
    } else {
        title + " ("@ + upper_of(replaced(replaced(n, prefix, ""@), "_"@, " "@)) + seq![')']
    }
}

/// Friendly name of any sensor, by kind.
pub open spec fn friendly_name(s: SensorModel) -> Seq<char> {
    match s.kind {
        SystemSensorType::CpuUsage => "CPU Usage"@,
        SystemSensorType::MemoryUsage => "Memory Usage"@,
        SystemSensorType::MemoryUsed => "Memory Used"@,
        SystemSensorType::MemoryTotal => "Memory Total"@,
        SystemSensorType::DiskUsage => disk_name("Disk Usage"@, "disk_usage_"@, s.name),
        SystemSensorType::DiskUsed => disk_name("Disk Used"@, "disk_used_"@, s.name),
        SystemSensorType::DiskTotal => disk_name("Disk Total"@, "disk_total_"@, s.name),
        SystemSensorType::Fan => fan_name(s),
        SystemSensorType::Temperature => temperature_name(s.name),
    }
}

/// The `device_class` member of a discovery document, if the kind has one.
pub open spec fn device_class_member(kind: SystemSensorType) -> Seq<char> {
    match kind {
        SystemSensorType::Temperature => ",\"device_class\":\"temperature\""@,
        SystemSensorType::MemoryUsed | SystemSensorType::MemoryTotal
        | SystemSensorType::DiskUsed | SystemSensorType::DiskTotal => ",\"device_class\":\"data_size\""@,
        _ => Seq::empty(),
    }
}

/// A JSON string, or `null`.
pub open spec fn json_opt_string(o: Option<Seq<char>>) -> Seq<char> {
    match o {
        Some(s) => json_string_of(s),
        None => "null"@,
    }
}

/// The JSON strings of `items`, comma separated.
pub open spec fn json_list_items(items: Seq<Seq<char>>) -> Seq<char>
    decreases items.len(),
{
    if items.len() == 0 {
        Seq::empty()
    } else if items.len() == 1 {
        json_string_of(items[0])
    } else {
        json_list_items(items.drop_last()) + seq![','] + json_string_of(items.last())
    }
}

/// The device block as a JSON object: identifiers, name, model, manufacturer,
/// software and hardware version.
pub open spec fn device_json(d: DeviceModel) -> Seq<char> {
    "{\"identifiers\":["@ + json_list_items(d.identifiers) + "],\"name\":"@ + json_string_of(d.name)
        + ",\"model\":"@ + json_string_of(d.model) + ",\"manufacturer\":"@ + json_string_of(
        d.manufacturer,
    ) + ",\"sw_version\":"@ + json_opt_string(d.sw_version) + ",\"hw_version\":"@
        + json_opt_string(d.hw_version) + seq!['}']
}

/// The discovery document of a sensor, with its members in this order: name,
/// unique and object id, state topic, unit, state class, value template,
/// availability, icon, device class where the kind has one, device block.
pub open spec fn discovery_body(s: SensorModel, device_name: Seq<char>, d: DeviceModel) -> Seq<
    char,
> {
    let id = unique_id_of(device_name, s.name);
    "{\"name\":"@ + json_string_of(friendly_name(s)) + ",\"unique_id\":"@ + json_string_of(id)
        + ",\"object_id\":"@ + json_string_of(id) + ",\"state_topic\":"@ + json_string_of(
        topic_path(device_name, s.name, "state"@),
    ) + ",\"unit_of_measurement\":"@ + json_string_of(s.unit)
        + ",\"state_class\":\"measurement\",\"value_template\":"@ + json_string_of(
        "{{ value_json.value }}"@,
    ) + ",\"availability\":{\"topic\":"@ + json_string_of(
        topic_path(device_name, s.name, "availability"@),
    ) + ",\"payload_available\":\"online\",\"payload_not_available\":\"offline\"},\"icon\":"@
        + json_string_of(icon_of(s.kind)) + device_class_member(s.kind) + ",\"device\":"@
        + device_json(d) + seq!['}']
}

/// The retained discovery message of a sensor.
pub open spec fn discovery_model(s: SensorModel, device_name: Seq<char>, d: DeviceModel) -> PayloadModel {
    PayloadModel {
        topic: topic_path(device_name, s.name, "config"@),
        body: discovery_body(s, device_name, d),
        retain: true,
    }
}

/// The state message of a sensor: its value, not retained.
pub open spec fn state_model(s: SensorModel, device_name: Seq<char>) -> PayloadModel {
    PayloadModel {
        topic: topic_path(device_name, s.name, "state"@),
        body: "{\"value\":"@ + reading_text(s.value) + seq!['}'],
        retain: false,
    }
}

/// The retained availability message of a sensor.
pub open spec fn availability_model(s: SensorModel, device_name: Seq<char>, online: bool) -> PayloadModel {
    PayloadModel {
        topic: topic_path(device_name, s.name, "availability"@),
        body: if online {
            "online"@
        } else {
            "offline"@
        },
        retain: true,
    }
}

/// The three messages of a sensor in one cycle.
pub open spec fn topics_model(s: SensorModel, device_name: Seq<char>, d: DeviceModel) -> TopicsModel {
    TopicsModel {
        name: s.name,
        state: state_model(s, device_name),
        discovery: discovery_model(s, device_name, d),
        availability: availability_model(s, device_name, true),
    }
}

/// The device block for a device configuration.
pub open spec fn device_info_model(c: DeviceConfig) -> DeviceModel {
    DeviceModel {
        identifiers: seq![unique_id_prefix() + c.name@],
        name: c.name@,
        model: DEVICE_MODEL@,
        manufacturer: DEVICE_MANUFACTURER@,
        sw_version: match opt_view(c.sw_version) {
            Some(v) => Some(v),
            None => Some(SOFTWARE_VERSION@),
        },
        hw_version: match opt_view(c.hw_version) {
            Some(v) => Some(v),
            None => Some(DEFAULT_HW_VERSION@),
        },
    }
}

pub open spec fn unique_id_prefix() -> Seq<char> {
    "orbiq_"@
}

impl DeviceInfo {
    pub fn from_config(device_config: &DeviceConfig) -> (r: Self)
        ensures
            r@ == device_info_model(*device_config),
    {
        let id = concat2("orbiq_", device_config.name.as_str());
        let mut identifiers: Vec<String> = Vec::new();
        identifiers.push(id);
        let sw_version = match clone_opt(&device_config.sw_version) {
            Some(v) => Some(v),
            None => Some(SOFTWARE_VERSION.to_owned()),
        };
        let hw_version = match clone_opt(&device_config.hw_version) {
            Some(v) => Some(v),
            None => Some(DEFAULT_HW_VERSION.to_owned()),
        };
        let r = DeviceInfo {
            identifiers,
            name: device_config.name.clone(),
            model: DEVICE_MODEL.to_owned(),
            manufacturer: DEVICE_MANUFACTURER.to_owned(),
            sw_version,
            hw_version,
        };
        assert(r@.identifiers =~= seq![unique_id_prefix() + device_config.name@]);
        r
    }
}

/// Appends the JSON string of `s`.
fn append_json(out: &mut String, s: &str)
    ensures
        final(out)@ == old(out)@ + json_string_of(s@),
{
    let q = json_string(s);
    out.append(q.as_str());
}

/// Appends a JSON string or `null`.
fn append_json_opt(out: &mut String, o: &Option<String>)
    ensures
        final(out)@ == old(out)@ + json_opt_string(opt_view(*o)),
{
    match o {
        Some(s) => append_json(out, s.as_str()),
        None => out.append("null"),
    }
}

fn device_json_text(d: &DeviceInfo) -> (r: String)
    ensures
        r@ == device_json(d@),
{
    let mut items = String::new();
    let mut i: usize = 0;
    let ghost ids = d@.identifiers;
    while i < d.identifiers.len()
        invariant
            ids == d@.identifiers,
            i <= d.identifiers.len(),
            items@ == json_list_items(ids.take(i as int)),
        decreases d.identifiers.len() - i,
    {
        let ghost before = items@;
        if i > 0 {
            items.append(",");
            proof {
                reveal_strlit(",");
            }
        }
        append_json(&mut items, d.identifiers[i].as_str());
        i = i + 1;
        assert(ids.take(i as int).drop_last() =~= ids.take(i - 1));
        if i == 1 {
            assert(ids.take(1) =~= seq![ids[0]]);
        } else {
            assert(","@ =~= seq![',']);
        }
    }
    assert(ids.take(i as int) =~= ids);
    let mut out = String::new();
    out.append("{\"identifiers\":[");
    out.append(items.as_str());
    out.append("],\"name\":");
    append_json(&mut out, d.name.as_str());
    out.append(",\"model\":");
    append_json(&mut out, d.model.as_str());
    out.append(",\"manufacturer\":");
    append_json(&mut out, d.manufacturer.as_str());
    out.append(",\"sw_version\":");
    append_json_opt(&mut out, &d.sw_version);
    out.append(",\"hw_version\":");
    append_json_opt(&mut out, &d.hw_version);
    out.append("}");
    proof {
        reveal_strlit("}");
    }
    assert("}"@ =~= seq!['}']);
    out
}

/// The topic string for its parts.
pub fn topic(data: Topic) -> (r: String)
    ensures
        r@ == topic_path(data.device()@, data.sensor()@, data.sub()@),
{
    let mut r = "homeassistant/sensor/orbiq_".to_owned();
    r.append(data.device_name.as_str());
    r.append("/");
    r.append(data.sensor_name.as_str());
    r.append("/");
    r.append(data.sub_topic.as_str());
    proof {
        reveal_strlit("/");
    }
    assert("/"@ =~= seq!['/']);
    r
}

fn sensor_topic(device_name: &str, sensor_name: &String, sub: &str) -> (r: String)
    ensures
        r@ == topic_path(device_name@, sensor_name@, sub@),
{
    topic(Topic::new(sensor_name.clone(), device_name.to_owned(), sub.to_owned()))
}

/// The friendly name of a temperature sensor.
pub fn generate_friendly_name(sensor_name: &str) -> (r: String)
    ensures
        r@ == temperature_name(sensor_name@),
{
    if contains(sensor_name, "k10temp") {
        "CPU Temperature".to_owned()
    } else if contains(sensor_name, "nouveau") {
        "GPU Temperature".to_owned()
    } else if contains(sensor_name, "nvme") {
        let part = last_segment(sensor_name, '_');
        let r = concat2("NVMe ", part.as_str());
        concat2(r.as_str(), " Temperature")
    } else if contains(sensor_name, "coretemp") {
        let part = last_segment(sensor_name, '_');
        let r = concat2("Core ", part.as_str());
        concat2(r.as_str(), " Temperature")
    } else if contains(sensor_name, "acpi") {
        "System Temperature".to_owned()
    } else if contains(sensor_name, "amdgpu") {
        "AMD GPU Temperature".to_owned()
    } else if contains(sensor_name, "radeon") {
        "Radeon GPU Temperature".to_owned()
    } else if contains(sensor_name, "asus") {
        "ASUS Sensor Temperature".to_owned()
    } else if contains(sensor_name, "iwlwifi") {
        "WiFi Module Temperature".to_owned()
    } else if contains(sensor_name, "thermal") {
        "Thermal Zone Temperature".to_owned()
    } else {
        proof {
            reveal_strlit("_");
        }
        let spaced = replace(sensor_name, "_", " ");
        concat2(spaced.as_str(), " Temperature")
    }
}

/// The friendly name of a fan sensor.
pub fn generate_friendly_name_for_fan(sensor: &SystemSensor) -> (r: String)
    ensures
        r@ == fan_name(sensor@),
{
    match &sensor.label {
        Some(label) => label.clone(),
        None => concat2("Fan ", sensor.name.as_str()),
    }
}

fn disk_friendly_name(title: &str, prefix: &str, name: &str) -> (r: String)
    requires
        prefix@.len() > 0,
    ensures
        r@ == disk_name(title@, prefix@, name@),
{
    if contains(name, "root") {
        concat2(title, " (Root)")
    } else {
        proof {
            reveal_strlit("_");
        }
        let mount = replace(name, prefix, "");
        let spaced = replace(mount.as_str(), "_", " ");
        let upper = to_upper(spaced.as_str());
        let r = concat2(title, " (");
        let r = concat2(r.as_str(), upper.as_str());
        proof {
            reveal_strlit(")");
        }
        assert(")"@ =~= seq![')']);
        concat2(r.as_str(), ")")
    }
}

/// The friendly name of any sensor.
pub fn generate_system_friendly_name(sensor: &SystemSensor) -> (r: String)
    ensures
        r@ == friendly_name(sensor@),
{
    match sensor.sensor_type {
        SystemSensorType::CpuUsage => "CPU Usage".to_owned(),
        SystemSensorType::MemoryUsage => "Memory Usage".to_owned(),
        SystemSensorType::MemoryUsed => "Memory Used".to_owned(),
        SystemSensorType::MemoryTotal => "Memory Total".to_owned(),
        SystemSensorType::DiskUsage => {
            proof {
                reveal_strlit("disk_usage_");
            }
            disk_friendly_name("Disk Usage", "disk_usage_", sensor.name.as_str())
        },
        SystemSensorType::DiskUsed => {
            proof {
                reveal_strlit("disk_used_");
            }
            disk_friendly_name("Disk Used", "disk_used_", sensor.name.as_str())
        },
        SystemSensorType::DiskTotal => {
            proof {
                reveal_strlit("disk_total_");
            }
            disk_friendly_name("Disk Total", "disk_total_", sensor.name.as_str())
        },
        SystemSensorType::Fan => generate_friendly_name_for_fan(sensor),
        SystemSensorType::Temperature => generate_friendly_name(sensor.name.as_str()),
    }
}

/// The state message of a sensor.
pub fn system_state(sensor: &SystemSensor, device_name: &str) -> (r: MqttPayload)
    requires
        sensor.wf(),
    ensures
        r@ == state_model(sensor@, device_name@),
{
    let mut body = "{\"value\":".to_owned();
    let number = sensor.value.to_json_number();
    body.append(number.as_str());
    body.append("}");
    proof {
        reveal_strlit("}");
    }
    assert("}"@ =~= seq!['}']);
    MqttPayload { topic: sensor_topic(device_name, &sensor.name, "state"), payload: body, retain: false }
}

/// The availability message of a sensor.
pub fn system_sensor_availability(sensor: &SystemSensor, device_name: &str, available: bool) -> (r:
    MqttPayload)
    ensures
        r@ == availability_model(sensor@, device_name@, available),
{
    let body = if available {
        "online".to_owned()
    } else {
        "offline".to_owned()
    };
    MqttPayload {
        topic: sensor_topic(device_name, &sensor.name, "availability"),
        payload: body,
        retain: true,
    }
}

/// The discovery message of a sensor.
pub fn system_discovery_config(sensor: &SystemSensor, device_name: &str, device_info: &DeviceInfo) -> (r:
    MqttPayload)
    ensures
        r@ == discovery_model(sensor@, device_name@, device_info@),
{
    let ghost s = sensor@;
    let mut unique_id = concat2("orbiq_", device_name);
    push_underscore(&mut unique_id);
    unique_id.append(sensor.name.as_str());
    let config_topic = sensor_topic(device_name, &sensor.name, "config");
    let state_topic = sensor_topic(device_name, &sensor.name, "state");
    let availability_topic = sensor_topic(device_name, &sensor.name, "availability");
    let friendly = generate_system_friendly_name(sensor);
    let device = device_json_text(device_info);
    let class_member: &str = match sensor.sensor_type {
        SystemSensorType::Temperature => ",\"device_class\":\"temperature\"",
        SystemSensorType::MemoryUsed
        | SystemSensorType::MemoryTotal
        | SystemSensorType::DiskUsed
        | SystemSensorType::DiskTotal => ",\"device_class\":\"data_size\"",
        _ => "",
    };
    proof {
        reveal_strlit("");
    }
    let mut b = "{\"name\":".to_owned();
    append_json(&mut b, friendly.as_str());
    b.append(",\"unique_id\":");
    append_json(&mut b, unique_id.as_str());
    b.append(",\"object_id\":");
    append_json(&mut b, unique_id.as_str());
    b.append(",\"state_topic\":");
    append_json(&mut b, state_topic.as_str());
    b.append(",\"unit_of_measurement\":");
    append_json(&mut b, sensor.unit.as_str());
    b.append(",\"state_class\":\"measurement\",\"value_template\":");
    append_json(&mut b, "{{ value_json.value }}");
    b.append(",\"availability\":{\"topic\":");
    append_json(&mut b, availability_topic.as_str());
    b.append(",\"payload_available\":\"online\",\"payload_not_available\":\"offline\"},\"icon\":");
    append_json(&mut b, sensor.sensor_type.icon());
    b.append(class_member);
    b.append(",\"device\":");
    b.append(device.as_str());
    b.append("}");
    proof {
        reveal_strlit("}");
    }
    assert("}"@ =~= seq!['}']);
    assert(class_member@ == device_class_member(s.kind));
    MqttPayload { topic: config_topic, payload: b, retain: true }
}

fn push_underscore(s: &mut String)
    ensures
        final(s)@ == old(s)@ + seq!['_'],
{
    s.append("_");
    proof {
        reveal_strlit("_");
    }
    assert("_"@ =~= seq!['_']);
}

/// The three messages of each sensor, in snapshot order.
pub fn generate_payloads(sensors: &Vec<SystemSensor>, config: &DaemonConfig, device_info: &DeviceInfo) -> (r:
    Vec<MqttSensorTopics>)
    requires
        forall|i: int| 0 <= i < sensors.len() ==> #[trigger] sensors@[i].wf(),
    ensures
        r.len() == sensors.len(),
        forall|i: int|
            0 <= i < sensors.len() ==> #[trigger] r@[i]@ == topics_model(
                sensors@[i]@,
                config.device.name@,
                device_info@,
            ),
{
    payloads_for(sensors, config.device.name.as_str(), device_info)
}

/// The three messages of each sensor of a device, in snapshot order.
pub fn payloads_for(sensors: &Vec<SystemSensor>, device_name: &str, device_info: &DeviceInfo) -> (r: Vec<
    MqttSensorTopics,
>)
    requires
        forall|i: int| 0 <= i < sensors.len() ==> #[trigger] sensors@[i].wf(),
    ensures
        r.len() == sensors.len(),
        forall|i: int|
            0 <= i < sensors.len() ==> #[trigger] r@[i]@ == topics_model(
                sensors@[i]@,
                device_name@,
                device_info@,
            ),
{
    let mut r: Vec<MqttSensorTopics> = Vec::new();
    let mut i: usize = 0;
    while i < sensors.len()
        invariant
            i <= sensors.len(),
            r.len() == i,
            forall|j: int| 0 <= j < sensors.len() ==> #[trigger] sensors@[j].wf(),
            forall|j: int|
                0 <= j < i ==> #[trigger] r@[j]@ == topics_model(
                    sensors@[j]@,
                    device_name@,
                    device_info@,
                ),
        decreases sensors.len() - i,
    {
        let sensor = &sensors[i];
        r.push(
            MqttSensorTopics {
                name: sensor.name.clone(),
                state: system_state(sensor, device_name),
                discovery: system_discovery_config(sensor, device_name, device_info),
                availability: system_sensor_availability(sensor, device_name, true),
            },
        );
        i = i + 1;
    }
    r
}

} // verus!
