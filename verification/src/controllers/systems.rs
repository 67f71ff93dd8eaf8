//! System operations: discover the systems of the account, fetch one.

use vstd::prelude::*;

use super::single_resource;
use crate::error::AlarmError;
use crate::models::jsonapi::{ApiResponse, Resource};
use crate::text::texts;

verus! {

/// The IDs of the systems that the account may use, in the order of the
/// answer; having none refuses the account.
pub fn available_system_ids(resp: &ApiResponse) -> (r: Result<Vec<String>, AlarmError>)
    ensures
        resp.data_resources().len() == 0 ==> (r matches Err(AlarmError::AuthenticationFailed(m))
            && m@ == "no systems found for this account"@),
        resp.data_resources().len() > 0 ==> (r matches Ok(ids) && texts(ids@)
            == resp.data_resources().map_values(|x: Resource| x.id@)),
{
    let resources = resp.resources();
    let mut ids: Vec<String> = Vec::new();
    let mut i: usize = 0;
    while i < resources.len()
        invariant
            resources@.len() == resp.data_resources().len(),
            forall|j: int| 0 <= j < resources@.len() ==> *resources@[j] == resp.data_resources()[j],
            i <= resources@.len(),
            ids@.len() == i,
            forall|j: int| 0 <= j < i ==> #[trigger] ids@[j]@ == resp.data_resources()[j].id@,
        decreases resources.len() - i,
    {
        ids.push(resources[i].id.clone());
        i += 1;
    }
    if ids.len() == 0 {
        return Err(
            AlarmError::AuthenticationFailed(String::from_str("no systems found for this account")),
        );
    }
    assert(texts(ids@) =~= resp.data_resources().map_values(|x: Resource| x.id@));
    Ok(ids)
}

/// The resource of the system in the answer to its fetch.
pub fn select_system<'a>(resp: &'a ApiResponse) -> (r: Result<&'a Resource, AlarmError>)
    ensures
        resp.data_resources().len() > 0 ==> (r matches Ok(x) && *x == resp.data_resources()[0]),
        resp.data_resources().len() == 0 ==> (r matches Err(AlarmError::UnexpectedResponse(m))
            && m@ == "empty system response"@),
{
    single_resource(resp, AlarmError::UnexpectedResponse(String::from_str("empty system response")))
}

} // verus!
