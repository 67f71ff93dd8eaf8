//! Thermostat operations: set the mode, fetch one. Setpoints, which are
//! floating point numbers, are sent by the transport layer.

use vstd::prelude::*;

use super::{is_not_found, not_found, single_resource, CommandRequest};
use crate::error::AlarmError;
use crate::models::body::{BodyValue, CommandBody};
use crate::models::device::ResourceType;
use crate::models::jsonapi::{ApiResponse, Resource};
use crate::models::thermostat::ThermostatMode;

verus! {

/// The resource of the thermostat `id` in the answer to its fetch.
pub fn select_thermostat<'a>(resp: &'a ApiResponse, id: &str) -> (r: Result<&'a Resource, AlarmError>)
    ensures
        resp.data_resources().len() > 0 ==> (r matches Ok(x) && *x == resp.data_resources()[0]),
        resp.data_resources().len() == 0 ==> (r matches Err(e) && is_not_found(e, "thermostat"@, id@)),
{
    single_resource(resp, not_found("thermostat", id))
}

/// The state code that sets a mode; the unknown mode has none.
pub open spec fn mode_code(mode: ThermostatMode) -> Option<u32> {
    match mode {
        ThermostatMode::Off => Some(1),
        ThermostatMode::Heat => Some(2),
        ThermostatMode::Cool => Some(3),
        ThermostatMode::Auto => Some(4),
        ThermostatMode::AuxHeat => Some(5),
        ThermostatMode::Unknown => None,
    }
}

/// Set the thermostat mode. The unknown mode cannot be set.
pub fn set_mode(id: &str, mode: ThermostatMode) -> (r: Result<CommandRequest, AlarmError>)
    ensures
        mode_code(mode) matches Some(code) ==> (r matches Ok(req) && req.is(
            ResourceType::Thermostat,
            id@,
            "setState"@,
            seq![("statePollOnly"@, BodyValue::Bool(false)), ("state"@, BodyValue::Number(code))],
        )),
        mode_code(mode) is None ==> (r matches Err(AlarmError::UnsupportedOperation(m)) && m@
            == "cannot set thermostat to unknown mode"@),
{
    let state_code: u32 = match mode {
        ThermostatMode::Off => 1,
        ThermostatMode::Heat => 2,
        ThermostatMode::Cool => 3,
        ThermostatMode::Auto => 4,
        ThermostatMode::AuxHeat => 5,
        ThermostatMode::Unknown => {
            return Err(
                AlarmError::UnsupportedOperation(
                    String::from_str("cannot set thermostat to unknown mode"),
                ),
            );
        },
    };
    let mut body = CommandBody::state_poll_only();
    body.push("state", BodyValue::Number(state_code));
    assert(body@ =~= seq![
        ("statePollOnly"@, BodyValue::Bool(false)),
        ("state"@, BodyValue::Number(state_code)),
    ]);
    Ok(CommandRequest::new(ResourceType::Thermostat, id, "setState", body))
}

/// The code that sets a mode is the code that reports it: reading back the
/// code of any settable mode gives that mode, and every code that reports a
/// known mode is the code that sets it.
pub proof fn law_mode_code_round_trip(mode: ThermostatMode, code: u32)
    ensures
        mode_code(mode) matches Some(c) ==> ThermostatMode::of_code(c) == mode,
        ThermostatMode::of_code(code) != ThermostatMode::Unknown ==> mode_code(
            ThermostatMode::of_code(code),
        ) == Some(code),
{
}

} // verus!
