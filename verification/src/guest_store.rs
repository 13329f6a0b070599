//! The decisions of the guest store: how row counts reported by the
//! database turn into results. The statements themselves run outside the
//! library; these functions fix what their outcomes mean.

use vstd::prelude::*;

use crate::guest::GuestId;
use crate::repository::RepositoryError;

verus! {

/// An update that touched no row means the guest does not exist.
pub fn update_outcome(rows_affected: u64, id: String) -> (r: Result<(), RepositoryError>)
    ensures
        r is Ok <==> rows_affected > 0,
        match r {
            Ok(_) => true,
            Err(e) => e matches RepositoryError::NotFound(s) && s@ == id@,
        },
{
    if rows_affected == 0 {
        Err(RepositoryError::NotFound(id))
    } else {
        Ok(())
    }
}

/// A deletion returns the identifier exactly when it removed a row.
pub fn delete_outcome(rows_affected: u64, id: GuestId) -> (r: Option<GuestId>)
    ensures
        r == if rows_affected > 0 {
            Some(id)
        } else {
            None::<GuestId>
        },
{
    if rows_affected > 0 {
        Some(id)
    } else {
        None
    }
}

} // verus!
