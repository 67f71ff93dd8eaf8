//! Lock model.

use vstd::prelude::*;

use super::device::{device_name, display_name, flag, flag_value, opt_text, Device, ResourceType};
use super::jsonapi::Resource;

verus! {

/// Lock state.
#[derive(Debug, Clone, Copy, PartialEq, Eq, Structural)]
pub enum LockState {
    Unknown,
    Locked,
    Unlocked,
}

impl LockState {
    /// The state that a numeric code of the API stands for.
    pub open spec fn of_code(code: u32) -> LockState {
        if code == 1 {
            LockState::Locked
        } else if code == 2 {
            LockState::Unlocked
        } else {
            LockState::Unknown
        }
    }

    /// The name under which the state is displayed.
    pub open spec fn label(self) -> Seq<char> {
        match self {
            LockState::Unknown => "Unknown"@,
            LockState::Locked => "Locked"@,
            LockState::Unlocked => "Unlocked"@,
        }
    }

    pub fn from_code(code: u32) -> (s: Self)
        ensures
            s == Self::of_code(code),
    {
        match code {
            1 => LockState::Locked,
            2 => LockState::Unlocked,
            _ => LockState::Unknown,
        }
    }

    /// The name under which the state is displayed.
    #[allow(clippy::inherent_to_string)]
    pub fn to_string(&self) -> (r: String)
        ensures
            r@ == self.label(),
    {
        let s = match self {
            LockState::Unknown => "Unknown",
            LockState::Locked => "Locked",
            LockState::Unlocked => "Unlocked",
        };
        String::from_str(s)
    }
}

/// Lock command.
#[derive(Debug, Clone, Copy, PartialEq, Eq, Structural)]
pub enum LockCommand {
    Lock,
    Unlock,
}

impl LockCommand {
    /// The action of the command in the API path.
    pub open spec fn action(self) -> Seq<char> {
        match self {
            LockCommand::Lock => "lock"@,
            LockCommand::Unlock => "unlock"@,
        }
    }

    pub fn api_action(&self) -> (r: &'static str)
        ensures
            r@ == self.action(),
    {
        match self {
            LockCommand::Lock => "lock",
            LockCommand::Unlock => "unlock",
        }
    }
}

/// Lock attributes from the API.
#[derive(Debug, Clone, Default)]
pub struct LockAttributes {
    pub state: u32,
    pub desired_state: u32,
    pub description: Option<String>,
    pub has_permission: Option<bool>,
    pub low_battery: Option<bool>,
    pub critical_battery: Option<bool>,
    pub malfunction: Option<bool>,
}

/// A lock device.
#[derive(Debug, Clone)]
pub struct Lock {
    pub id: String,
    pub name: String,
    pub state: LockState,
    pub desired_state: LockState,
    pub low_battery: bool,
    pub malfunction: bool,
    pub attributes: LockAttributes,
}

impl Lock {
    /// Builds the lock from its resource and the attributes read from it.
    pub fn from_resource(resource: &Resource, attrs: LockAttributes) -> (d: Self)
        ensures
            d.id@ == resource.id@,
            d.name@ == display_name(opt_text(attrs.description), "Lock"@, resource.id@),
            d.state == LockState::of_code(attrs.state),
            d.desired_state == LockState::of_code(attrs.desired_state),
            d.low_battery == flag(attrs.low_battery),
            d.malfunction == flag(attrs.malfunction),
            d.attributes == attrs,
    {
        let name = device_name(&attrs.description, "Lock", resource.id.as_str());
        Lock {
            id: resource.id.clone(),
            name,
            state: LockState::from_code(attrs.state),
            desired_state: LockState::from_code(attrs.desired_state),
            low_battery: flag_value(attrs.low_battery),
            malfunction: flag_value(attrs.malfunction),
            attributes: attrs,
        }
    }
}

impl Device for Lock {
    fn id(&self) -> (r: &str)
        ensures
            r@ == self.id@,
    {
        self.id.as_str()
    }

    fn name(&self) -> (r: &str)
        ensures
            r@ == self.name@,
    {
        self.name.as_str()
    }

    fn resource_type() -> (r: ResourceType)
        ensures
            r == ResourceType::Lock,
    {
        ResourceType::Lock
    }
}

/// A lock displays the state that the API reports, under its own name: code 1
/// is "Locked", code 2 is "Unlocked", any other code is "Unknown", and no two
/// states share a name.
pub proof fn law_lock_state_names(code: u32, a: LockState, b: LockState)
    ensures
        code == 1 ==> LockState::of_code(code).label() == "Locked"@,
        code == 2 ==> LockState::of_code(code).label() == "Unlocked"@,
        code != 1 && code != 2 ==> LockState::of_code(code).label() == "Unknown"@,
        a.label() == b.label() ==> a == b,
{
    reveal_strlit("Locked");
    reveal_strlit("Unlocked");
    reveal_strlit("Unknown");
    assert("Locked"@.len() == 6);
    assert("Unlocked"@.len() == 8);
    assert("Unknown"@.len() == 7);
}

/// The two lock commands address different actions: "lock" and "unlock".
pub proof fn law_lock_command_actions(a: LockCommand, b: LockCommand)
    ensures
        LockCommand::Lock.action() == "lock"@,
        LockCommand::Unlock.action() == "unlock"@,
        a.action() == b.action() ==> a == b,
{
    reveal_strlit("lock");
    reveal_strlit("unlock");
}

} // verus!
