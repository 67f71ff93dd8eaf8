//! Sensor operations: fetch one.

use vstd::prelude::*;

use super::{is_not_found, not_found, single_resource};
use crate::error::AlarmError;
use crate::models::jsonapi::{ApiResponse, Resource};

verus! {

/// The resource of the sensor `id` in the answer to its fetch.
pub fn select_sensor<'a>(resp: &'a ApiResponse, id: &str) -> (r: Result<&'a Resource, AlarmError>)
    ensures
        resp.data_resources().len() > 0 ==> (r matches Ok(x) && *x == resp.data_resources()[0]),
        resp.data_resources().len() == 0 ==> (r matches Err(e) && is_not_found(e, "sensor"@, id@)),
{
    single_resource(resp, not_found("sensor", id))
}

} // verus!
