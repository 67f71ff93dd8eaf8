//! Shared device traits and base types.

use vstd::prelude::*;

verus! {

/// Resource types used in Alarm.com API paths.
#[derive(Debug, Clone, Copy, PartialEq, Eq, Hash, Structural)]
pub enum ResourceType {
    Partition,
    Sensor,
    Lock,
    GarageDoor,
    Gate,
    Light,
    Thermostat,
    Camera,
    WaterSensor,
    WaterValve,
    System,
    ImageSensor,
}

impl ResourceType {
    /// The API path segment of the resource type.
    pub open spec fn path(self) -> Seq<char> {
        match self {
            ResourceType::Partition => "devices/partitions"@,
            ResourceType::Sensor => "devices/sensors"@,
            ResourceType::Lock => "devices/locks"@,
            ResourceType::GarageDoor => "devices/garageDoors"@,
            ResourceType::Gate => "devices/gates"@,
            ResourceType::Light => "devices/lights"@,
            ResourceType::Thermostat => "devices/thermostats"@,
            ResourceType::Camera => "devices/cameras"@,
            ResourceType::WaterSensor => "devices/waterSensors"@,
            ResourceType::WaterValve => "devices/waterValves"@,
            ResourceType::System => "systems/systems"@,
            ResourceType::ImageSensor => "devices/imageSensors"@,
        }
    }

    /// The JSON:API `type` string of the resource type.
    pub open spec fn json_type(self) -> Seq<char> {
        match self {
            ResourceType::Partition => "devices/partition"@,
            ResourceType::Sensor => "devices/sensor"@,
            ResourceType::Lock => "devices/lock"@,
            ResourceType::GarageDoor => "devices/garageDoor"@,
            ResourceType::Gate => "devices/gate"@,
            ResourceType::Light => "devices/light"@,
            ResourceType::Thermostat => "devices/thermostat"@,
            ResourceType::Camera => "devices/camera"@,
            ResourceType::WaterSensor => "devices/waterSensor"@,
            ResourceType::WaterValve => "devices/waterValve"@,
            ResourceType::System => "systems/system"@,
            ResourceType::ImageSensor => "devices/imageSensor"@,
        }
    }

    /// The name of the variant, as `Debug` writes it.
    pub open spec fn label(self) -> Seq<char> {
        match self {
            ResourceType::Partition => "Partition"@,
            ResourceType::Sensor => "Sensor"@,
            ResourceType::Lock => "Lock"@,
            ResourceType::GarageDoor => "GarageDoor"@,
            ResourceType::Gate => "Gate"@,
            ResourceType::Light => "Light"@,
            ResourceType::Thermostat => "Thermostat"@,
            ResourceType::Camera => "Camera"@,
            ResourceType::WaterSensor => "WaterSensor"@,
            ResourceType::WaterValve => "WaterValve"@,
            ResourceType::System => "System"@,
            ResourceType::ImageSensor => "ImageSensor"@,
        }
    }

    /// The API path segment for this resource type (camelCase, pluralized).
    pub fn api_path(&self) -> (r: &'static str)
        ensures
            r@ == self.path(),
    {
        match self {
            ResourceType::Partition => "devices/partitions",
            ResourceType::Sensor => "devices/sensors",
            ResourceType::Lock => "devices/locks",
            ResourceType::GarageDoor => "devices/garageDoors",
            ResourceType::Gate => "devices/gates",
            ResourceType::Light => "devices/lights",
            ResourceType::Thermostat => "devices/thermostats",
            ResourceType::Camera => "devices/cameras",
            ResourceType::WaterSensor => "devices/waterSensors",
            ResourceType::WaterValve => "devices/waterValves",
            ResourceType::System => "systems/systems",
            ResourceType::ImageSensor => "devices/imageSensors",
        }
    }

    /// The JSON:API `type` string this resource uses.
    pub fn type_string(&self) -> (r: &'static str)
        ensures
            r@ == self.json_type(),
    {
        match self {
            ResourceType::Partition => "devices/partition",
            ResourceType::Sensor => "devices/sensor",
            ResourceType::Lock => "devices/lock",
            ResourceType::GarageDoor => "devices/garageDoor",
            ResourceType::Gate => "devices/gate",
            ResourceType::Light => "devices/light",
            ResourceType::Thermostat => "devices/thermostat",
            ResourceType::Camera => "devices/camera",
            ResourceType::WaterSensor => "devices/waterSensor",
            ResourceType::WaterValve => "devices/waterValve",
            ResourceType::System => "systems/system",
            ResourceType::ImageSensor => "devices/imageSensor",
        }
    }

    /// The name of the resource type, as it is displayed.
    #[allow(clippy::inherent_to_string)]
    pub fn to_string(&self) -> (r: String)
        ensures
            r@ == self.label(),
    {
        let s = match self {
            ResourceType::Partition => "Partition",
            ResourceType::Sensor => "Sensor",
            ResourceType::Lock => "Lock",
            ResourceType::GarageDoor => "GarageDoor",
            ResourceType::Gate => "Gate",
            ResourceType::Light => "Light",
            ResourceType::Thermostat => "Thermostat",
            ResourceType::Camera => "Camera",
            ResourceType::WaterSensor => "WaterSensor",
            ResourceType::WaterValve => "WaterValve",
            ResourceType::System => "System",
            ResourceType::ImageSensor => "ImageSensor",
        };
        String::from_str(s)
    }
}

/// Common attributes shared by all managed devices.
#[derive(Debug, Clone, Default)]
pub struct BaseDeviceAttributes {
    pub description: Option<String>,
    pub has_permission: Option<bool>,
    pub can_be_renamed: Option<bool>,
    pub can_be_saved: Option<bool>,
    pub can_access_web_settings: Option<bool>,
    pub can_access_app_settings: Option<bool>,
    pub mac_address: Option<String>,
}

/// A trait for types that represent a device with a name and ID.
pub trait Device {
    fn id(&self) -> &str;

    fn name(&self) -> &str;

    fn resource_type() -> ResourceType;
}

/// The view of an optional string.
pub open spec fn opt_text(s: Option<String>) -> Option<Seq<char>> {
    match s {
        Some(t) => Some(t@),
        None => None,
    }
}

/// The name a device is shown under: its description when it has one,
/// else its kind, a space and its ID (`Partition 17`).
pub open spec fn display_name(description: Option<Seq<char>>, kind: Seq<char>, id: Seq<char>) -> Seq<char> {
    match description {
        Some(d) => d,
        None => kind + " "@ + id,
    }
}

/// The name a device is shown under: its description, else `{kind} {id}`.
pub fn device_name(description: &Option<String>, kind: &str, id: &str) -> (r: String)
    ensures
        r@ == display_name(opt_text(*description), kind@, id@),
{
    match description {
        Some(d) => d.clone(),
        None => String::from_str(kind).concat(" ").concat(id),
    }
}

/// An optional flag that counts as unset when absent.
pub open spec fn flag(b: Option<bool>) -> bool {
    b == Some(true)
}

/// An optional flag read as `unwrap_or(false)` reads it.
pub fn flag_value(b: Option<bool>) -> (r: bool)
    ensures
        r == flag(b),
{
    match b {
        Some(v) => v,
        None => false,
    }
}

/// Each resource type is fetched under its own API path, and no two types
/// share one.
pub proof fn law_resource_paths(a: ResourceType, b: ResourceType)
    ensures
        ResourceType::Partition.path() == "devices/partitions"@,
        ResourceType::Sensor.path() == "devices/sensors"@,
        ResourceType::Lock.path() == "devices/locks"@,
        ResourceType::GarageDoor.path() == "devices/garageDoors"@,
        ResourceType::Gate.path() == "devices/gates"@,
        ResourceType::Light.path() == "devices/lights"@,
        ResourceType::Thermostat.path() == "devices/thermostats"@,
        ResourceType::Camera.path() == "devices/cameras"@,
        ResourceType::WaterSensor.path() == "devices/waterSensors"@,
        ResourceType::WaterValve.path() == "devices/waterValves"@,
        ResourceType::System.path() == "systems/systems"@,
        ResourceType::ImageSensor.path() == "devices/imageSensors"@,
        a.path() == b.path() ==> a == b,
{
    reveal_strlit("devices/partitions");
    reveal_strlit("devices/sensors");
    reveal_strlit("devices/locks");
    reveal_strlit("devices/garageDoors");
    reveal_strlit("devices/gates");
    reveal_strlit("devices/lights");
    reveal_strlit("devices/thermostats");
    reveal_strlit("devices/cameras");
    reveal_strlit("devices/waterSensors");
    reveal_strlit("devices/waterValves");
    reveal_strlit("systems/systems");
    reveal_strlit("devices/imageSensors");
    assert("devices/partitions"@.len() == 18);
    assert("devices/sensors"@.len() == 15);
    assert("devices/locks"@.len() == 13);
    assert("devices/garageDoors"@.len() == 19);
    assert("devices/gates"@.len() == 13);
    assert("devices/lights"@.len() == 14);
    assert("devices/thermostats"@.len() == 19);
    assert("devices/cameras"@.len() == 15);
    assert("devices/waterSensors"@.len() == 20);
    assert("devices/waterValves"@.len() == 19);
    assert("systems/systems"@.len() == 15);
    assert("devices/imageSensors"@.len() == 20);
    assert("devices/sensors"@[8] != "devices/cameras"@[8]);
    assert("devices/sensors"@[0] != "systems/systems"@[0]);
    assert("devices/locks"@[8] != "devices/gates"@[8]);
    assert("devices/garageDoors"@[8] != "devices/thermostats"@[8]);
    assert("devices/garageDoors"@[8] != "devices/waterValves"@[8]);
    assert("devices/thermostats"@[8] != "devices/waterValves"@[8]);
    assert("devices/cameras"@[0] != "systems/systems"@[0]);
    assert("devices/waterSensors"@[8] != "devices/imageSensors"@[8]);
}

/// Each resource type has its own JSON:API `type` string.
pub proof fn law_resource_json_types(a: ResourceType, b: ResourceType)
    ensures
        ResourceType::Partition.json_type() == "devices/partition"@,
        ResourceType::Sensor.json_type() == "devices/sensor"@,
        ResourceType::Lock.json_type() == "devices/lock"@,
        ResourceType::GarageDoor.json_type() == "devices/garageDoor"@,
        ResourceType::Gate.json_type() == "devices/gate"@,
        ResourceType::Light.json_type() == "devices/light"@,
        ResourceType::Thermostat.json_type() == "devices/thermostat"@,
        ResourceType::Camera.json_type() == "devices/camera"@,
        ResourceType::WaterSensor.json_type() == "devices/waterSensor"@,
        ResourceType::WaterValve.json_type() == "devices/waterValve"@,
        ResourceType::System.json_type() == "systems/system"@,
        ResourceType::ImageSensor.json_type() == "devices/imageSensor"@,
        a.json_type() == b.json_type() ==> a == b,
{
    reveal_strlit("devices/partition");
    reveal_strlit("devices/sensor");
    reveal_strlit("devices/lock");
    reveal_strlit("devices/garageDoor");
    reveal_strlit("devices/gate");
    reveal_strlit("devices/light");
    reveal_strlit("devices/thermostat");
    reveal_strlit("devices/camera");
    reveal_strlit("devices/waterSensor");
    reveal_strlit("devices/waterValve");
    reveal_strlit("systems/system");
    reveal_strlit("devices/imageSensor");
    assert("devices/partition"@.len() == 17);
    assert("devices/sensor"@.len() == 14);
    assert("devices/lock"@.len() == 12);
    assert("devices/garageDoor"@.len() == 18);
    assert("devices/gate"@.len() == 12);
    assert("devices/light"@.len() == 13);
    assert("devices/thermostat"@.len() == 18);
    assert("devices/camera"@.len() == 14);
    assert("devices/waterSensor"@.len() == 19);
    assert("devices/waterValve"@.len() == 18);
    assert("systems/system"@.len() == 14);
    assert("devices/imageSensor"@.len() == 19);
    assert("devices/sensor"@[8] != "devices/camera"@[8]);
    assert("devices/sensor"@[0] != "systems/system"@[0]);
    assert("devices/lock"@[8] != "devices/gate"@[8]);
    assert("devices/garageDoor"@[8] != "devices/thermostat"@[8]);
    assert("devices/garageDoor"@[8] != "devices/waterValve"@[8]);
    assert("devices/thermostat"@[8] != "devices/waterValve"@[8]);
    assert("devices/camera"@[0] != "systems/system"@[0]);
    assert("devices/waterSensor"@[8] != "devices/imageSensor"@[8]);
}

/// Each resource type is named after its variant, and no two share a name.
pub proof fn law_resource_type_names(a: ResourceType, b: ResourceType)
    ensures
        ResourceType::Partition.label() == "Partition"@,
        ResourceType::Sensor.label() == "Sensor"@,
        ResourceType::Lock.label() == "Lock"@,
        ResourceType::GarageDoor.label() == "GarageDoor"@,
        ResourceType::Gate.label() == "Gate"@,
        ResourceType::Light.label() == "Light"@,
        ResourceType::Thermostat.label() == "Thermostat"@,
        ResourceType::Camera.label() == "Camera"@,
        ResourceType::WaterSensor.label() == "WaterSensor"@,
        ResourceType::WaterValve.label() == "WaterValve"@,
        ResourceType::System.label() == "System"@,
        ResourceType::ImageSensor.label() == "ImageSensor"@,
        a.label() == b.label() ==> a == b,
{
    reveal_strlit("Partition");
    reveal_strlit("Sensor");
    reveal_strlit("Lock");
    reveal_strlit("GarageDoor");
    reveal_strlit("Gate");
    reveal_strlit("Light");
    reveal_strlit("Thermostat");
    reveal_strlit("Camera");
    reveal_strlit("WaterSensor");
    reveal_strlit("WaterValve");
    reveal_strlit("System");
    reveal_strlit("ImageSensor");
    assert("Partition"@.len() == 9);
    assert("Sensor"@.len() == 6);
    assert("Lock"@.len() == 4);
    assert("GarageDoor"@.len() == 10);
    assert("Gate"@.len() == 4);
    assert("Light"@.len() == 5);
    assert("Thermostat"@.len() == 10);
    assert("Camera"@.len() == 6);
    assert("WaterSensor"@.len() == 11);
    assert("WaterValve"@.len() == 10);
    assert("System"@.len() == 6);
    assert("ImageSensor"@.len() == 11);
    assert("Sensor"@[0] != "Camera"@[0]);
    assert("Sensor"@[1] != "System"@[1]);
    assert("Lock"@[0] != "Gate"@[0]);
    assert("GarageDoor"@[0] != "Thermostat"@[0]);
    assert("GarageDoor"@[0] != "WaterValve"@[0]);
    assert("Thermostat"@[0] != "WaterValve"@[0]);
    assert("Camera"@[0] != "System"@[0]);
    assert("WaterSensor"@[0] != "ImageSensor"@[0]);
}

/// A device with a description is shown under it, whatever its kind and ID;
/// one without is shown as its kind, a space and its ID, so that two devices
/// of one kind with different IDs are shown differently.
pub proof fn law_display_name(
    d: Seq<char>,
    kind: Seq<char>,
    id: Seq<char>,
    other_kind: Seq<char>,
    other_id: Seq<char>,
)
    ensures
        display_name(Some(d), kind, id) == display_name(Some(d), other_kind, other_id),
        display_name(Some(d), kind, id) == d,
        display_name(None, kind, id).take(kind.len() as int) == kind,
        display_name(None, kind, id)[kind.len() as int] == ' ',
        display_name(None, kind, id).skip(kind.len() + 1int) == id,
        id != other_id ==> display_name(None, kind, id) != display_name(None, kind, other_id),
{
    reveal_strlit(" ");
    let n = display_name(None, kind, id);
    assert(n.take(kind.len() as int) =~= kind);
    assert(n.skip(kind.len() + 1int) =~= id);
    let m = display_name(None, kind, other_id);
    assert(m.skip(kind.len() + 1int) =~= other_id);
}

} // verus!
