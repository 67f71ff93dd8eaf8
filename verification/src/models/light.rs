//! Light model.

use vstd::prelude::*;

use super::device::{device_name, display_name, flag, flag_value, opt_text, Device, ResourceType};
use super::jsonapi::Resource;

verus! {

/// Light state.
#[derive(Debug, Clone, Copy, PartialEq, Eq, Structural)]
pub enum LightState {
    Unknown,
    On,
    Off,
}

impl LightState {
    /// The state that a numeric code of the API stands for.
    pub open spec fn of_code(code: u32) -> LightState {
        if code == 1 {
            LightState::On
        } else if code == 2 {
            LightState::Off
        } else {
            LightState::Unknown
        }
    }

    /// The name under which the state is displayed.
    pub open spec fn label(self) -> Seq<char> {
        match self {
            LightState::Unknown => "Unknown"@,
            LightState::On => "On"@,
            LightState::Off => "Off"@,
        }
    }

    pub fn from_code(code: u32) -> (s: Self)
        ensures
            s == Self::of_code(code),
    {
        match code {
            1 => LightState::On,
            2 => LightState::Off,
            _ => LightState::Unknown,
        }
    }

    /// The name under which the state is displayed.
    #[allow(clippy::inherent_to_string)]
    pub fn to_string(&self) -> (r: String)
        ensures
            r@ == self.label(),
    {
        let s = match self {
            LightState::Unknown => "Unknown",
            LightState::On => "On",
            LightState::Off => "Off",
        };
        String::from_str(s)
    }
}

/// Light command.
#[derive(Debug, Clone, Copy, PartialEq, Eq, Structural)]
pub enum LightCommand {
    TurnOn,
    TurnOff,
}

impl LightCommand {
    /// The action of the command in the API path.
    pub open spec fn action(self) -> Seq<char> {
        match self {
            LightCommand::TurnOn => "turnOn"@,
            LightCommand::TurnOff => "turnOff"@,
        }
    }

    pub fn api_action(&self) -> (r: &'static str)
        ensures
            r@ == self.action(),
    {
        match self {
            LightCommand::TurnOn => "turnOn",
            LightCommand::TurnOff => "turnOff",
        }
    }
}

/// Light attributes from the API.
#[derive(Debug, Clone, Default)]
pub struct LightAttributes {
    pub state: u32,
    pub desired_state: u32,
    pub description: Option<String>,
    pub has_permission: Option<bool>,
    pub light_level: Option<u32>,
    pub is_dimmer: Option<bool>,
    pub malfunction: Option<bool>,
}

/// A light device.
#[derive(Debug, Clone)]
pub struct Light {
    pub id: String,
    pub name: String,
    pub state: LightState,
    pub desired_state: LightState,
    pub brightness: Option<u32>,
    pub is_dimmer: bool,
    pub malfunction: bool,
    pub attributes: LightAttributes,
}

impl Light {
    /// Builds the light from its resource and the attributes read from it.
    pub fn from_resource(resource: &Resource, attrs: LightAttributes) -> (d: Self)
        ensures
            d.id@ == resource.id@,
            d.name@ == display_name(opt_text(attrs.description), "Light"@, resource.id@),
            d.state == LightState::of_code(attrs.state),
            d.desired_state == LightState::of_code(attrs.desired_state),
            d.brightness == attrs.light_level,
            d.is_dimmer == flag(attrs.is_dimmer),
            d.malfunction == flag(attrs.malfunction),
            d.attributes == attrs,
    {
        let name = device_name(&attrs.description, "Light", resource.id.as_str());
        Light {
            id: resource.id.clone(),
            name,
            state: LightState::from_code(attrs.state),
            desired_state: LightState::from_code(attrs.desired_state),
            brightness: attrs.light_level,
            is_dimmer: flag_value(attrs.is_dimmer),
            malfunction: flag_value(attrs.malfunction),
            attributes: attrs,
        }
    }
}

impl Device for Light {
    fn id(&self) -> (r: &str)
        ensures
            r@ == self.id@,
    {
        self.id.as_str()
    }

    fn name(&self) -> (r: &str)
        ensures
            r@ == self.name@,
    {
        self.name.as_str()
    }

    fn resource_type() -> (r: ResourceType)
        ensures
            r == ResourceType::Light,
    {
        ResourceType::Light
    }
}

/// A light displays the state that the API reports under that state's own
/// name: code 1 is "On", 2 "Off", any other "Unknown"; no two states share a name.
pub proof fn law_light_state_names(code: u32, a: LightState, b: LightState)
    ensures
        code == 1 ==> LightState::of_code(code).label() == "On"@,
        code == 2 ==> LightState::of_code(code).label() == "Off"@,
        code != 1 && code != 2 ==> LightState::of_code(code).label() == "Unknown"@,
        a.label() == b.label() ==> a == b,
{
    reveal_strlit("Unknown");
    reveal_strlit("On");
    reveal_strlit("Off");
    assert("Unknown"@.len() == 7);
    assert("On"@.len() == 2);
    assert("Off"@.len() == 3);
}

/// The two light commands address different actions: "turnOn" and "turnOff".
pub proof fn law_light_command_actions(a: LightCommand, b: LightCommand)
    ensures
        LightCommand::TurnOn.action() == "turnOn"@,
        LightCommand::TurnOff.action() == "turnOff"@,
        a.action() == b.action() ==> a == b,
{
    reveal_strlit("turnOn");
    reveal_strlit("turnOff");
    assert("turnOn"@.len() == 6);
    assert("turnOff"@.len() == 7);
}

} // verus!
