//! Domain validation rules.

use vstd::prelude::*;
use vstd::string::*;
use vstd::utf8::encode_utf8;

verus! {

/// What `str::trim` leaves of a string. Left uninterpreted: the exact set
/// of whitespace characters belongs to the standard library.
pub uninterp spec fn spec_trim(s: Seq<char>) -> Seq<char>;

/// Relies on str::trim: the input without leading and trailing whitespace,
/// so never longer than the input, and empty input stays empty. The byte
/// length of the returned slice is a usize, as str::len gives it.
#[verifier::external_body]
pub(crate) fn trim_str(s: &str) -> (r: &str)
    ensures
        r@ == spec_trim(s@),
        r@.len() <= s@.len(),
        s@.len() == 0 ==> r@.len() == 0,
        encode_utf8(r@).len() <= usize::MAX,
{
    s.trim()
}

/// A business validation error, carrying its message.
#[derive(Debug, Clone)]
pub struct ValidationError(pub String);

impl ValidationError {
    /// The message, as the error displays itself.
    pub fn message(&self) -> (m: &str)
        ensures
            m@ == self.0@,
    {
        self.0.as_str()
    }
}

/// A trimmed item name is acceptable when it is non-empty and at most 500
/// bytes long.
pub open spec fn spec_item_name_ok(t: Seq<char>) -> bool {
    t.len() > 0 && encode_utf8(t).len() <= 500
}

/// Validates an item name: after trimming it must be non-empty and at most
/// 500 bytes. Returns the exact message for whichever rule failed first.
pub fn validate_item_name(name: &str) -> (r: Result<(), ValidationError>)
    ensures
        ({
            let t = spec_trim(name@);
            match r {
                Ok(_) => spec_item_name_ok(t),
                Err(e) => (t.len() == 0 && e.0@ == "name must be non-empty"@) || (t.len() > 0
                    && encode_utf8(t).len() > 500 && e.0@
                    == "name must be at most 500 characters"@),
            }
        }),
{
    let t = trim_str(name);
    if t.is_empty() {
        return Err(ValidationError(String::from_str("name must be non-empty")));
    }
    if t.len() > 500 {
        return Err(ValidationError(String::from_str("name must be at most 500 characters")));
    }
    Ok(())
}

} // verus!
