//! The storage interface of the domain, and its error.

use vstd::prelude::*;
use vstd::string::*;

use crate::item::Item;

verus! {

/// An error from a repository.
#[derive(Debug)]
pub enum RepositoryError {
    NotFound(String),
    Other(String),
}

impl RepositoryError {
    /// The message this error displays itself with.
    pub open spec fn spec_message(&self) -> Seq<char> {
        match self {
            RepositoryError::NotFound(id) => "not found: "@ + id@,
            RepositoryError::Other(msg) => msg@,
        }
    }

    /// The message, as text.
    pub fn message(&self) -> (m: String)
        ensures
            m@ == self.spec_message(),
    {
        match self {
            RepositoryError::NotFound(id) => String::from_str("not found: ").concat(id.as_str()),
            RepositoryError::Other(msg) => msg.clone(),
        }
    }
}

/// The item store's interface; implementations live with the stores.
pub trait ItemRepository {
    /// The implementation's own consistency condition, which its
    /// constructors establish and its operations preserve.
    spec fn inv(&self) -> bool;

    /// Creates an item and persists it.
    fn create(&mut self, item: Item) -> (r: Result<Item, RepositoryError>)
        requires
            old(self).inv(),
        ensures
            final(self).inv(),
    ;

    /// Fetches an item by identifier.
    fn get_by_id(&self, id: &str) -> Result<Option<Item>, RepositoryError>
        requires
            self.inv(),
    ;
}

} // verus!
