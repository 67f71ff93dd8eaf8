//! Lock operations: lock, unlock, fetch one.

use vstd::prelude::*;

use super::{is_not_found, not_found, poll_body, single_resource, CommandRequest};
use crate::error::AlarmError;
use crate::models::body::CommandBody;
use crate::models::device::ResourceType;
use crate::models::jsonapi::{ApiResponse, Resource};
use crate::models::lock::LockCommand;

verus! {

/// The resource of the lock `id` in the answer to its fetch.
pub fn select_lock<'a>(resp: &'a ApiResponse, id: &str) -> (r: Result<&'a Resource, AlarmError>)
    ensures
        resp.data_resources().len() > 0 ==> (r matches Ok(x) && *x == resp.data_resources()[0]),
        resp.data_resources().len() == 0 ==> (r matches Err(e) && is_not_found(e, "lock"@, id@)),
{
    single_resource(resp, not_found("lock", id))
}

/// Lock a lock device.
pub fn lock(id: &str) -> (r: CommandRequest)
    ensures
        r.is(ResourceType::Lock, id@, LockCommand::Lock.action(), poll_body()),
{
    let action = LockCommand::Lock.api_action();
    CommandRequest::new(ResourceType::Lock, id, action, CommandBody::state_poll_only())
}

/// Unlock a lock device.
pub fn unlock(id: &str) -> (r: CommandRequest)
    ensures
        r.is(ResourceType::Lock, id@, LockCommand::Unlock.action(), poll_body()),
{
    let action = LockCommand::Unlock.api_action();
    CommandRequest::new(ResourceType::Lock, id, action, CommandBody::state_poll_only())
}

} // verus!
