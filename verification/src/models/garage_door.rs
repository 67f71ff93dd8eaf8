//! Garage door model.

use vstd::prelude::*;

use super::device::{device_name, display_name, flag, flag_value, opt_text, Device, ResourceType};
use super::jsonapi::Resource;

verus! {

/// Garage door state.
#[derive(Debug, Clone, Copy, PartialEq, Eq, Structural)]
pub enum GarageDoorState {
    Unknown,
    Open,
    Closed,
    Opening,
    Closing,
}

impl GarageDoorState {
    /// The state that a numeric code of the API stands for.
    pub open spec fn of_code(code: u32) -> GarageDoorState {
        if code == 1 {
            GarageDoorState::Open
        } else if code == 2 {
            GarageDoorState::Closed
        } else if code == 3 {
            GarageDoorState::Opening
        } else if code == 4 {
            GarageDoorState::Closing
        } else {
            GarageDoorState::Unknown
        }
    }

    /// The name under which the state is displayed.
    pub open spec fn label(self) -> Seq<char> {
        match self {
            GarageDoorState::Unknown => "Unknown"@,
            GarageDoorState::Open => "Open"@,
            GarageDoorState::Closed => "Closed"@,
            GarageDoorState::Opening => "Opening"@,
            GarageDoorState::Closing => "Closing"@,
        }
    }

    pub fn from_code(code: u32) -> (s: Self)
        ensures
            s == Self::of_code(code),
    {
        match code {
            1 => GarageDoorState::Open,
            2 => GarageDoorState::Closed,
            3 => GarageDoorState::Opening,
            4 => GarageDoorState::Closing,
            _ => GarageDoorState::Unknown,
        }
    }

    /// The name under which the state is displayed.
    #[allow(clippy::inherent_to_string)]
    pub fn to_string(&self) -> (r: String)
        ensures
            r@ == self.label(),
    {
        let s = match self {
            GarageDoorState::Unknown => "Unknown",
            GarageDoorState::Open => "Open",
            GarageDoorState::Closed => "Closed",
            GarageDoorState::Opening => "Opening",
            GarageDoorState::Closing => "Closing",
        };
        String::from_str(s)
    }
}

/// Garage door command.
#[derive(Debug, Clone, Copy, PartialEq, Eq, Structural)]
pub enum GarageDoorCommand {
    Open,
    Close,
}

impl GarageDoorCommand {
    /// The action of the command in the API path.
    pub open spec fn action(self) -> Seq<char> {
        match self {
            GarageDoorCommand::Open => "open"@,
            GarageDoorCommand::Close => "close"@,
        }
    }

    pub fn api_action(&self) -> (r: &'static str)
        ensures
            r@ == self.action(),
    {
        match self {
            GarageDoorCommand::Open => "open",
            GarageDoorCommand::Close => "close",
        }
    }
}

/// Garage door attributes from the API.
#[derive(Debug, Clone, Default)]
pub struct GarageDoorAttributes {
    pub state: u32,
    pub desired_state: u32,
    pub description: Option<String>,
    pub has_permission: Option<bool>,
    pub malfunction: Option<bool>,
}

/// A garage door device.
#[derive(Debug, Clone)]
pub struct GarageDoor {
    pub id: String,
    pub name: String,
    pub state: GarageDoorState,
    pub desired_state: GarageDoorState,
    pub malfunction: bool,
    pub attributes: GarageDoorAttributes,
}

impl GarageDoor {
    /// Builds the garage door from its resource and the attributes read from it.
    pub fn from_resource(resource: &Resource, attrs: GarageDoorAttributes) -> (d: Self)
        ensures
            d.id@ == resource.id@,
            d.name@ == display_name(opt_text(attrs.description), "Garage Door"@, resource.id@),
            d.state == GarageDoorState::of_code(attrs.state),
            d.desired_state == GarageDoorState::of_code(attrs.desired_state),
            d.malfunction == flag(attrs.malfunction),
            d.attributes == attrs,
    {
        let name = device_name(&attrs.description, "Garage Door", resource.id.as_str());
        GarageDoor {
            id: resource.id.clone(),
            name,
            state: GarageDoorState::from_code(attrs.state),
            desired_state: GarageDoorState::from_code(attrs.desired_state),
            malfunction: flag_value(attrs.malfunction),
            attributes: attrs,
        }
    }
}

impl Device for GarageDoor {
    fn id(&self) -> (r: &str)
        ensures
            r@ == self.id@,
    {
        self.id.as_str()
    }

    fn name(&self) -> (r: &str)
        ensures
            r@ == self.name@,
    {
        self.name.as_str()
    }

    fn resource_type() -> (r: ResourceType)
        ensures
            r == ResourceType::GarageDoor,
    {
        ResourceType::GarageDoor
    }
}

/// A garage door displays the state that the API reports under that state's
/// own name: code 1 is "Open", 2 "Closed", 3 "Opening", 4 "Closing", any other
/// "Unknown"; no two states share a name.
pub proof fn law_garage_door_state_names(code: u32, a: GarageDoorState, b: GarageDoorState)
    ensures
        code == 1 ==> GarageDoorState::of_code(code).label() == "Open"@,
        code == 2 ==> GarageDoorState::of_code(code).label() == "Closed"@,
        code == 3 ==> GarageDoorState::of_code(code).label() == "Opening"@,
        code == 4 ==> GarageDoorState::of_code(code).label() == "Closing"@,
        (code != 1
            && code != 2
            && code != 3
            && code != 4) ==> GarageDoorState::of_code(code).label() == "Unknown"@,
        a.label() == b.label() ==> a == b,
{
    reveal_strlit("Unknown");
    reveal_strlit("Open");
    reveal_strlit("Closed");
    reveal_strlit("Opening");
    reveal_strlit("Closing");
    assert("Unknown"@.len() == 7);
    assert("Open"@.len() == 4);
    assert("Closed"@.len() == 6);
    assert("Opening"@.len() == 7);
    assert("Closing"@.len() == 7);
    assert("Unknown"@[0] != "Opening"@[0]);
    assert("Unknown"@[0] != "Closing"@[0]);
    assert("Opening"@[0] != "Closing"@[0]);
}

/// The two garage door commands address different actions: "open" and "close".
pub proof fn law_garage_door_command_actions(a: GarageDoorCommand, b: GarageDoorCommand)
    ensures
        GarageDoorCommand::Open.action() == "open"@,
        GarageDoorCommand::Close.action() == "close"@,
        a.action() == b.action() ==> a == b,
{
    reveal_strlit("open");
    reveal_strlit("close");
    assert("open"@.len() == 4);
    assert("close"@.len() == 5);
}

} // verus!
