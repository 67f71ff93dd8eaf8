//! What the device operations send and how their answers are read.
//!
//! Each command is built here as a request (resource type, device, action,
//! body); the transport sends it. Each fetch's answer is read here.

use vstd::prelude::*;

use crate::error::AlarmError;
use crate::models::body::{BodyValue, CommandBody};
use crate::models::device::ResourceType;
use crate::models::jsonapi::{ApiResponse, Resource};

pub mod garage_doors;
pub mod lights;
pub mod locks;
pub mod partitions;
pub mod sensors;
pub mod systems;
pub mod thermostats;

verus! {

/// A command to a device: POST `{resource path}/{id}/{action}` with `body`.
#[derive(Debug, Clone)]
pub struct CommandRequest {
    pub resource_type: ResourceType,
    pub id: String,
    pub action: String,
    pub body: CommandBody,
}

impl CommandRequest {
    /// The request addresses `action` of device `id` of type `rt`, with `body`.
    pub open spec fn is(
        self,
        rt: ResourceType,
        id: Seq<char>,
        action: Seq<char>,
        body: Seq<(Seq<char>, BodyValue)>,
    ) -> bool {
        &&& self.resource_type == rt
        &&& self.id@ == id
        &&& self.action@ == action
        &&& self.body@ == body
    }

    /// Builds the request.
    pub fn new(resource_type: ResourceType, id: &str, action: &str, body: CommandBody) -> (r: Self)
        ensures
            r.is(resource_type, id@, action@, body@),
    {
        CommandRequest {
            resource_type,
            id: String::from_str(id),
            action: String::from_str(action),
            body,
        }
    }
}

/// The body `{"statePollOnly": false}` that most commands carry.
pub open spec fn poll_body() -> Seq<(Seq<char>, BodyValue)> {
    seq![("statePollOnly"@, BodyValue::Bool(false))]
}

/// The devices that a status report lists from one fetch: all that it
/// returned, or none where it failed. A failed device fetch does not fail
/// the report.
pub fn listed_or_empty<T, E>(fetched: Result<Vec<T>, E>) -> (r: Vec<T>)
    ensures
        fetched matches Ok(v) ==> r == v,
        fetched is Err ==> r@ == Seq::<T>::empty(),
{
    match fetched {
        Ok(v) => v,
        Err(_) => Vec::new(),
    }
}

/// The resource that a fetch of one device answers with: the first data
/// resource of the response, or `missing` when there is none.
pub fn single_resource<'a>(resp: &'a ApiResponse, missing: AlarmError) -> (r: Result<
    &'a Resource,
    AlarmError,
>)
    ensures
        resp.data_resources().len() > 0 ==> (r matches Ok(x) && *x == resp.data_resources()[0]),
        resp.data_resources().len() == 0 ==> (r matches Err(e) && e == missing),
{
    let resources = resp.resources();
    if resources.len() > 0 {
        Ok(resources[0])
    } else {
        Err(missing)
    }
}

/// The error of a fetch of one device that found none:
/// `UnknownDevice("{kind} {id} not found")`.
pub open spec fn is_not_found(e: AlarmError, kind: Seq<char>, id: Seq<char>) -> bool {
    e matches AlarmError::UnknownDevice(m) && m@ == kind + " "@ + id + " not found"@
}

/// Builds `UnknownDevice("{kind} {id} not found")`.
pub fn not_found(kind: &str, id: &str) -> (e: AlarmError)
    ensures
        is_not_found(e, kind@, id@),
{
    AlarmError::UnknownDevice(String::from_str(kind).concat(" ").concat(id).concat(" not found"))
}

} // verus!
