//! Light operations: turn on, turn off, set brightness, fetch one.

use vstd::prelude::*;

use super::{is_not_found, not_found, poll_body, single_resource, CommandRequest};
use crate::error::AlarmError;
use crate::models::body::{BodyValue, CommandBody};
use crate::models::device::ResourceType;
use crate::models::jsonapi::{ApiResponse, Resource};
use crate::models::light::LightCommand;

verus! {

/// The highest brightness level.
pub const MAX_BRIGHTNESS: u32 = 100;

/// The resource of the light `id` in the answer to its fetch.
pub fn select_light<'a>(resp: &'a ApiResponse, id: &str) -> (r: Result<&'a Resource, AlarmError>)
    ensures
        resp.data_resources().len() > 0 ==> (r matches Ok(x) && *x == resp.data_resources()[0]),
        resp.data_resources().len() == 0 ==> (r matches Err(e) && is_not_found(e, "light"@, id@)),
{
    single_resource(resp, not_found("light", id))
}

/// Turn a light on.
pub fn turn_on(id: &str) -> (r: CommandRequest)
    ensures
        r.is(ResourceType::Light, id@, LightCommand::TurnOn.action(), poll_body()),
{
    let action = LightCommand::TurnOn.api_action();
    CommandRequest::new(ResourceType::Light, id, action, CommandBody::state_poll_only())
}

/// Turn a light off.
pub fn turn_off(id: &str) -> (r: CommandRequest)
    ensures
        r.is(ResourceType::Light, id@, LightCommand::TurnOff.action(), poll_body()),
{
    let action = LightCommand::TurnOff.api_action();
    CommandRequest::new(ResourceType::Light, id, action, CommandBody::state_poll_only())
}

/// The level a dimmer is set to: the one asked for, at most 100.
pub open spec fn clamped_level(level: u32) -> u32 {
    if level < MAX_BRIGHTNESS {
        level
    } else {
        MAX_BRIGHTNESS
    }
}

/// Set a dimmer light's brightness level (0-100).
pub fn set_brightness(id: &str, level: u32) -> (r: CommandRequest)
    ensures
        r.is(
            ResourceType::Light,
            id@,
            "setLevel"@,
            seq![
                ("statePollOnly"@, BodyValue::Bool(false)),
                ("lightLevel"@, BodyValue::Number(clamped_level(level))),
            ],
        ),
{
    let mut body = CommandBody::state_poll_only();
    let clamped = if level < MAX_BRIGHTNESS {
        level
    } else {
        MAX_BRIGHTNESS
    };
    body.push("lightLevel", BodyValue::Number(clamped));
    assert(body@ =~= seq![
        ("statePollOnly"@, BodyValue::Bool(false)),
        ("lightLevel"@, BodyValue::Number(clamped_level(level))),
    ]);
    CommandRequest::new(ResourceType::Light, id, "setLevel", body)
}

/// The level sent never exceeds 100, a level within range is sent as is,
/// and a level above it is sent as 100.
pub proof fn law_brightness_within_range(level: u32)
    ensures
        clamped_level(level) <= MAX_BRIGHTNESS,
        level <= MAX_BRIGHTNESS ==> clamped_level(level) == level,
        level >= MAX_BRIGHTNESS ==> clamped_level(level) == 100,
{
}

} // verus!
