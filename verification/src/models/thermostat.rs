//! Thermostat modes. The thermostat itself, whose temperatures are floating
//! point numbers, is kept by the transport layer.

use vstd::prelude::*;

verus! {

/// Thermostat mode.
#[derive(Debug, Clone, Copy, PartialEq, Eq, Structural)]
pub enum ThermostatMode {
    Unknown,
    Off,
    Heat,
    Cool,
    Auto,
    AuxHeat,
}

impl ThermostatMode {
    /// The value that a numeric code of the API stands for.
    pub open spec fn of_code(code: u32) -> ThermostatMode {
        if code == 1 {
            ThermostatMode::Off
        } else if code == 2 {
            ThermostatMode::Heat
        } else if code == 3 {
            ThermostatMode::Cool
        } else if code == 4 {
            ThermostatMode::Auto
        } else if code == 5 {
            ThermostatMode::AuxHeat
        } else {
            ThermostatMode::Unknown
        }
    }

    /// The name under which the value is displayed.
    pub open spec fn label(self) -> Seq<char> {
        match self {
            ThermostatMode::Unknown => "Unknown"@,
            ThermostatMode::Off => "Off"@,
            ThermostatMode::Heat => "Heat"@,
            ThermostatMode::Cool => "Cool"@,
            ThermostatMode::Auto => "Auto"@,
            ThermostatMode::AuxHeat => "Aux Heat"@,
        }
    }

    pub fn from_code(code: u32) -> (s: Self)
        ensures
            s == Self::of_code(code),
    {
        match code {
            1 => ThermostatMode::Off,
            2 => ThermostatMode::Heat,
            3 => ThermostatMode::Cool,
            4 => ThermostatMode::Auto,
            5 => ThermostatMode::AuxHeat,
            _ => ThermostatMode::Unknown,
        }
    }

    /// The name under which the value is displayed.
    #[allow(clippy::inherent_to_string)]
    pub fn to_string(&self) -> (r: String)
        ensures
            r@ == self.label(),
    {
        let s = match self {
            ThermostatMode::Unknown => "Unknown",
            ThermostatMode::Off => "Off",
            ThermostatMode::Heat => "Heat",
            ThermostatMode::Cool => "Cool",
            ThermostatMode::Auto => "Auto",
            ThermostatMode::AuxHeat => "Aux Heat",
        };
        String::from_str(s)
    }
}

/// Thermostat fan mode.
#[derive(Debug, Clone, Copy, PartialEq, Eq, Structural)]
pub enum FanMode {
    Unknown,
    Auto,
    On,
    Circulate,
}

impl FanMode {
    /// The value that a numeric code of the API stands for.
    pub open spec fn of_code(code: u32) -> FanMode {
        if code == 1 {
            FanMode::Auto
        } else if code == 2 {
            FanMode::On
        } else if code == 3 {
            FanMode::Circulate
        } else {
            FanMode::Unknown
        }
    }

    /// The name under which the value is displayed.
    pub open spec fn label(self) -> Seq<char> {
        match self {
            FanMode::Unknown => "Unknown"@,
            FanMode::Auto => "Auto"@,
            FanMode::On => "On"@,
            FanMode::Circulate => "Circulate"@,
        }
    }

    pub fn from_code(code: u32) -> (s: Self)
        ensures
            s == Self::of_code(code),
    {
        match code {
            1 => FanMode::Auto,
            2 => FanMode::On,
            3 => FanMode::Circulate,
            _ => FanMode::Unknown,
        }
    }

    /// The name under which the value is displayed.
    #[allow(clippy::inherent_to_string)]
    pub fn to_string(&self) -> (r: String)
        ensures
            r@ == self.label(),
    {
        let s = match self {
            FanMode::Unknown => "Unknown",
            FanMode::Auto => "Auto",
            FanMode::On => "On",
            FanMode::Circulate => "Circulate",
        };
        String::from_str(s)
    }
}

/// A thermostat displays the mode that the API reports under that mode's own
/// name: code 1 is "Off", 2 "Heat", 3 "Cool", 4 "Auto", 5 "Aux Heat", any other
/// "Unknown"; no two modes share a name.
pub proof fn law_thermostat_mode_names(code: u32, a: ThermostatMode, b: ThermostatMode)
    ensures
        code == 1 ==> ThermostatMode::of_code(code).label() == "Off"@,
        code == 2 ==> ThermostatMode::of_code(code).label() == "Heat"@,
        code == 3 ==> ThermostatMode::of_code(code).label() == "Cool"@,
        code == 4 ==> ThermostatMode::of_code(code).label() == "Auto"@,
        code == 5 ==> ThermostatMode::of_code(code).label() == "Aux Heat"@,
        (code != 1
            && code != 2
            && code != 3
            && code != 4
            && code != 5) ==> ThermostatMode::of_code(code).label() == "Unknown"@,
        a.label() == b.label() ==> a == b,
{
    reveal_strlit("Unknown");
    reveal_strlit("Off");
    reveal_strlit("Heat");
    reveal_strlit("Cool");
    reveal_strlit("Auto");
    reveal_strlit("Aux Heat");
    assert("Unknown"@.len() == 7);
    assert("Off"@.len() == 3);
    assert("Heat"@.len() == 4);
    assert("Cool"@.len() == 4);
    assert("Auto"@.len() == 4);
    assert("Aux Heat"@.len() == 8);
    assert("Heat"@[0] != "Cool"@[0]);
    assert("Heat"@[0] != "Auto"@[0]);
    assert("Cool"@[0] != "Auto"@[0]);
}

/// A thermostat displays the fan mode that the API reports under that mode's
/// own name: code 1 is "Auto", 2 "On", 3 "Circulate", any other "Unknown"; no
/// two modes share a name.
pub proof fn law_fan_mode_names(code: u32, a: FanMode, b: FanMode)
    ensures
        code == 1 ==> FanMode::of_code(code).label() == "Auto"@,
        code == 2 ==> FanMode::of_code(code).label() == "On"@,
        code == 3 ==> FanMode::of_code(code).label() == "Circulate"@,
        code != 1 && code != 2 && code != 3 ==> FanMode::of_code(code).label() == "Unknown"@,
        a.label() == b.label() ==> a == b,
{
    reveal_strlit("Unknown");
    reveal_strlit("Auto");
    reveal_strlit("On");
    reveal_strlit("Circulate");
    assert("Unknown"@.len() == 7);
    assert("Auto"@.len() == 4);
    assert("On"@.len() == 2);
    assert("Circulate"@.len() == 9);
}

} // verus!
