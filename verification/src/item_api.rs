//! Item request and response bodies, and the mappers between them and the
//! domain entity.

use vstd::prelude::*;

use crate::item::Item;

verus! {

/// Request body for creating an item.
#[derive(Debug, Clone)]
pub struct CreateItemRequest {
    pub name: String,
}

/// Response body: one item.
#[derive(Debug, Clone, PartialEq, Eq)]
pub struct ItemResponse {
    pub id: String,
    pub name: String,
}

/// Domain entity to response body.
pub fn domain_to_response(item: &Item) -> (r: ItemResponse)
    ensures
        r.id@ == item.id@,
        r.name@ == item.name@,
{
    ItemResponse { id: item.id.clone(), name: item.name.clone() }
}

/// Request body to the name the domain validates before building the item.
pub fn request_to_name(req: &CreateItemRequest) -> (name: &str)
    ensures
        name@ == req.name@,
{
    req.name.as_str()
}

} // verus!
