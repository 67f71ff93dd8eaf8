//! Garage door operations: open, close, fetch one.

use vstd::prelude::*;

use super::{is_not_found, not_found, poll_body, single_resource, CommandRequest};
use crate::error::AlarmError;
use crate::models::body::CommandBody;
use crate::models::device::ResourceType;
use crate::models::garage_door::GarageDoorCommand;
use crate::models::jsonapi::{ApiResponse, Resource};

verus! {

/// The resource of the garage door `id` in the answer to its fetch.
pub fn select_garage_door<'a>(resp: &'a ApiResponse, id: &str) -> (r: Result<&'a Resource, AlarmError>)
    ensures
        resp.data_resources().len() > 0 ==> (r matches Ok(x) && *x == resp.data_resources()[0]),
        resp.data_resources().len() == 0 ==> (r matches Err(e) && is_not_found(e, "garage door"@, id@)),
{
    single_resource(resp, not_found("garage door", id))
}

/// Open a garage door.
pub fn open(id: &str) -> (r: CommandRequest)
    ensures
        r.is(ResourceType::GarageDoor, id@, GarageDoorCommand::Open.action(), poll_body()),
{
    let action = GarageDoorCommand::Open.api_action();
    CommandRequest::new(ResourceType::GarageDoor, id, action, CommandBody::state_poll_only())
}

/// Close a garage door.
pub fn close(id: &str) -> (r: CommandRequest)
    ensures
        r.is(ResourceType::GarageDoor, id@, GarageDoorCommand::Close.action(), poll_body()),
{
    let action = GarageDoorCommand::Close.api_action();
    CommandRequest::new(ResourceType::GarageDoor, id, action, CommandBody::state_poll_only())
}

} // verus!
