//! Sensor model (door/window contacts, motion, glass break, smoke, CO, flood).

use vstd::prelude::*;

use super::device::{device_name, display_name, flag, flag_value, opt_text, Device, ResourceType};
use super::jsonapi::Resource;

verus! {

/// Sensor state.
#[derive(Debug, Clone, Copy, PartialEq, Eq, Structural)]
pub enum SensorState {
    Unknown,
    Closed,
    Open,
    Idle,
    Active,
    Dry,
    Wet,
}

impl SensorState {
    /// The state that a numeric code of the API stands for.
    pub open spec fn of_code(code: u32) -> SensorState {
        if code == 1 {
            SensorState::Closed
        } else if code == 2 {
            SensorState::Open
        } else if code == 3 {
            SensorState::Idle
        } else if code == 4 {
            SensorState::Active
        } else if code == 5 {
            SensorState::Dry
        } else if code == 6 {
            SensorState::Wet
        } else {
            SensorState::Unknown
        }
    }

    /// The name under which the state is displayed.
    pub open spec fn label(self) -> Seq<char> {
        match self {
            SensorState::Unknown => "Unknown"@,
            SensorState::Closed => "Closed"@,
            SensorState::Open => "Open"@,
            SensorState::Idle => "Idle"@,
            SensorState::Active => "Active"@,
            SensorState::Dry => "Dry"@,
            SensorState::Wet => "Wet"@,
        }
    }

    pub fn from_code(code: u32) -> (s: Self)
        ensures
            s == Self::of_code(code),
    {
        match code {
            0 => SensorState::Unknown,
            1 => SensorState::Closed,
            2 => SensorState::Open,
            3 => SensorState::Idle,
            4 => SensorState::Active,
            5 => SensorState::Dry,
            6 => SensorState::Wet,
            _ => SensorState::Unknown,
        }
    }

    /// The name under which the state is displayed.
    #[allow(clippy::inherent_to_string)]
    pub fn to_string(&self) -> (r: String)
        ensures
            r@ == self.label(),
    {
        let s = match self {
            SensorState::Unknown => "Unknown",
            SensorState::Closed => "Closed",
            SensorState::Open => "Open",
            SensorState::Idle => "Idle",
            SensorState::Active => "Active",
            SensorState::Dry => "Dry",
            SensorState::Wet => "Wet",
        };
        String::from_str(s)
    }
}

/// Type of sensor device.
#[derive(Debug, Clone, Copy, PartialEq, Eq, Structural)]
pub enum SensorType {
    DoorWindow,
    Motion,
    GlassBreak,
    Smoke,
    CarbonMonoxide,
    Flood,
    Temperature,
    Freeze,
    Shock,
    Tilt,
    Other,
}

impl SensorType {
    /// The sensor type that the API's device type code stands for.
    pub open spec fn of_device_type(device_type: Option<u32>) -> SensorType {
        match device_type {
            Some(1) => SensorType::DoorWindow,
            Some(2) => SensorType::Motion,
            Some(5) => SensorType::GlassBreak,
            Some(6) => SensorType::Smoke,
            Some(8) => SensorType::CarbonMonoxide,
            Some(9) => SensorType::Flood,
            Some(10) => SensorType::Temperature,
            Some(14) => SensorType::Tilt,
            Some(16) => SensorType::Shock,
            Some(19) => SensorType::Freeze,
            _ => SensorType::Other,
        }
    }

    /// The name under which the type is displayed.
    pub open spec fn label(self) -> Seq<char> {
        match self {
            SensorType::DoorWindow => "Door/Window"@,
            SensorType::Motion => "Motion"@,
            SensorType::GlassBreak => "Glass Break"@,
            SensorType::Smoke => "Smoke"@,
            SensorType::CarbonMonoxide => "CO"@,
            SensorType::Flood => "Flood"@,
            SensorType::Temperature => "Temperature"@,
            SensorType::Freeze => "Freeze"@,
            SensorType::Shock => "Shock"@,
            SensorType::Tilt => "Tilt"@,
            SensorType::Other => "Other"@,
        }
    }

    /// The name under which the type is displayed.
    #[allow(clippy::inherent_to_string)]
    pub fn to_string(&self) -> (r: String)
        ensures
            r@ == self.label(),
    {
        let s = match self {
            SensorType::DoorWindow => "Door/Window",
            SensorType::Motion => "Motion",
            SensorType::GlassBreak => "Glass Break",
            SensorType::Smoke => "Smoke",
            SensorType::CarbonMonoxide => "CO",
            SensorType::Flood => "Flood",
            SensorType::Temperature => "Temperature",
            SensorType::Freeze => "Freeze",
            SensorType::Shock => "Shock",
            SensorType::Tilt => "Tilt",
            SensorType::Other => "Other",
        };
        String::from_str(s)
    }
}

/// Sensor attributes from the API.
#[derive(Debug, Clone, Default)]
pub struct SensorAttributes {
    pub state: u32,
    pub description: Option<String>,
    pub device_type: Option<u32>,
    pub has_permission: Option<bool>,
    pub can_be_bypassed: Option<bool>,
    pub is_bypassed: Option<bool>,
    pub low_battery: Option<bool>,
    pub critical_battery: Option<bool>,
    pub malfunction: Option<bool>,
}

/// A sensor device.
#[derive(Debug, Clone)]
pub struct Sensor {
    pub id: String,
    pub name: String,
    pub state: SensorState,
    pub sensor_type: SensorType,
    pub is_bypassed: bool,
    pub low_battery: bool,
    pub malfunction: bool,
    pub attributes: SensorAttributes,
}

impl Sensor {
    /// Builds the sensor from its resource and the attributes read from it.
    pub fn from_resource(resource: &Resource, attrs: SensorAttributes) -> (s: Self)
        ensures
            s.id@ == resource.id@,
            s.name@ == display_name(opt_text(attrs.description), "Sensor"@, resource.id@),
            s.state == SensorState::of_code(attrs.state),
            s.sensor_type == SensorType::of_device_type(attrs.device_type),
            s.is_bypassed == flag(attrs.is_bypassed),
            s.low_battery == flag(attrs.low_battery),
            s.malfunction == flag(attrs.malfunction),
            s.attributes == attrs,
    {
        let name = device_name(&attrs.description, "Sensor", resource.id.as_str());
        let sensor_type = match attrs.device_type {
            Some(1) => SensorType::DoorWindow,
            Some(2) => SensorType::Motion,
            Some(5) => SensorType::GlassBreak,
            Some(6) => SensorType::Smoke,
            Some(8) => SensorType::CarbonMonoxide,
            Some(9) => SensorType::Flood,
            Some(10) => SensorType::Temperature,
            Some(14) => SensorType::Tilt,
            Some(16) => SensorType::Shock,
            Some(19) => SensorType::Freeze,
            _ => SensorType::Other,
        };
        Sensor {
            id: resource.id.clone(),
            name,
            state: SensorState::from_code(attrs.state),
            sensor_type,
            is_bypassed: flag_value(attrs.is_bypassed),
            low_battery: flag_value(attrs.low_battery),
            malfunction: flag_value(attrs.malfunction),
            attributes: attrs,
        }
    }
}

impl Device for Sensor {
    fn id(&self) -> (r: &str)
        ensures
            r@ == self.id@,
    {
        self.id.as_str()
    }

    fn name(&self) -> (r: &str)
        ensures
            r@ == self.name@,
    {
        self.name.as_str()
    }

    fn resource_type() -> (r: ResourceType)
        ensures
            r == ResourceType::Sensor,
    {
        ResourceType::Sensor
    }
}

/// A sensor displays the state that the API reports under that state's own
/// name: code 1 is "Closed", 2 "Open", 3 "Idle", 4 "Active", 5 "Dry", 6 "Wet",
/// any other "Unknown"; no two states share a name.
pub proof fn law_sensor_state_names(code: u32, a: SensorState, b: SensorState)
    ensures
        code == 1 ==> SensorState::of_code(code).label() == "Closed"@,
        code == 2 ==> SensorState::of_code(code).label() == "Open"@,
        code == 3 ==> SensorState::of_code(code).label() == "Idle"@,
        code == 4 ==> SensorState::of_code(code).label() == "Active"@,
        code == 5 ==> SensorState::of_code(code).label() == "Dry"@,
        code == 6 ==> SensorState::of_code(code).label() == "Wet"@,
        (code != 1
            && code != 2
            && code != 3
            && code != 4
            && code != 5
            && code != 6) ==> SensorState::of_code(code).label() == "Unknown"@,
        a.label() == b.label() ==> a == b,
{
    reveal_strlit("Unknown");
    reveal_strlit("Closed");
    reveal_strlit("Open");
    reveal_strlit("Idle");
    reveal_strlit("Active");
    reveal_strlit("Dry");
    reveal_strlit("Wet");
    assert("Unknown"@.len() == 7);
    assert("Closed"@.len() == 6);
    assert("Open"@.len() == 4);
    assert("Idle"@.len() == 4);
    assert("Active"@.len() == 6);
    assert("Dry"@.len() == 3);
    assert("Wet"@.len() == 3);
    assert("Closed"@[0] != "Active"@[0]);
    assert("Open"@[0] != "Idle"@[0]);
    assert("Dry"@[0] != "Wet"@[0]);
}

/// A sensor displays the type that its device type code names, each type
/// under its own name; a missing or unlisted code is "Other".
pub proof fn law_sensor_type_names(device_type: Option<u32>, a: SensorType, b: SensorType)
    ensures
        device_type == Some(1u32) ==> SensorType::of_device_type(device_type).label()
            == "Door/Window"@,
        device_type == Some(2u32) ==> SensorType::of_device_type(device_type).label() == "Motion"@,
        device_type == Some(5u32) ==> SensorType::of_device_type(device_type).label()
            == "Glass Break"@,
        device_type == Some(6u32) ==> SensorType::of_device_type(device_type).label() == "Smoke"@,
        device_type == Some(8u32) ==> SensorType::of_device_type(device_type).label() == "CO"@,
        device_type == Some(9u32) ==> SensorType::of_device_type(device_type).label() == "Flood"@,
        device_type == Some(10u32) ==> SensorType::of_device_type(device_type).label()
            == "Temperature"@,
        device_type == Some(14u32) ==> SensorType::of_device_type(device_type).label() == "Tilt"@,
        device_type == Some(16u32) ==> SensorType::of_device_type(device_type).label() == "Shock"@,
        device_type == Some(19u32) ==> SensorType::of_device_type(device_type).label() == "Freeze"@,
        (device_type != Some(1u32)
            && device_type != Some(2u32)
            && device_type != Some(5u32)
            && device_type != Some(6u32)
            && device_type != Some(8u32)
            && device_type != Some(9u32)
            && device_type != Some(10u32)
            && device_type != Some(14u32)
            && device_type != Some(16u32)
            && device_type != Some(19u32))
            ==> SensorType::of_device_type(device_type).label() == "Other"@,
        a.label() == b.label() ==> a == b,
{
    reveal_strlit("Door/Window");
    reveal_strlit("Motion");
    reveal_strlit("Glass Break");
    reveal_strlit("Smoke");
    reveal_strlit("CO");
    reveal_strlit("Flood");
    reveal_strlit("Temperature");
    reveal_strlit("Freeze");
    reveal_strlit("Shock");
    reveal_strlit("Tilt");
    reveal_strlit("Other");
    assert("Door/Window"@.len() == 11);
    assert("Motion"@.len() == 6);
    assert("Glass Break"@.len() == 11);
    assert("Smoke"@.len() == 5);
    assert("CO"@.len() == 2);
    assert("Flood"@.len() == 5);
    assert("Temperature"@.len() == 11);
    assert("Freeze"@.len() == 6);
    assert("Shock"@.len() == 5);
    assert("Tilt"@.len() == 4);
    assert("Other"@.len() == 5);
    assert("Door/Window"@[0] != "Glass Break"@[0]);
    assert("Door/Window"@[0] != "Temperature"@[0]);
    assert("Motion"@[0] != "Freeze"@[0]);
    assert("Glass Break"@[0] != "Temperature"@[0]);
    assert("Smoke"@[0] != "Flood"@[0]);
    assert("Smoke"@[1] != "Shock"@[1]);
    assert("Smoke"@[0] != "Other"@[0]);
    assert("Flood"@[0] != "Shock"@[0]);
    assert("Flood"@[0] != "Other"@[0]);
    assert("Shock"@[0] != "Other"@[0]);
}

} // verus!
