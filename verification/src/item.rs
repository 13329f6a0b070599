//! The item entity.

use vstd::prelude::*;

verus! {

/// An item: identifier and name.
#[derive(Debug, Clone, PartialEq, Eq)]
pub struct Item {
    pub id: String,
    pub name: String,
}

impl Item {
    pub fn new(id: String, name: String) -> (item: Item)
        ensures
            item.id == id,
            item.name == name,
    {
        Item { id, name }
    }
}

} // verus!
