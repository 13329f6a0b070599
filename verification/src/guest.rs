//! The guest entity: an identifier plus structured fields, each carrying
//! its value, provenance and timestamps (Unix milliseconds).

use vstd::prelude::*;

use crate::clock::now_millis;

verus! {

/// What uuid parsing yields for a given text: the identifier's 128 bits,
/// or nothing when the text is not a UUID. A function of the text alone.
pub uninterp spec fn spec_uuid_parse(s: Seq<char>) -> Option<u128>;

/// The canonical hyphenated text of an identifier. A function of the
/// identifier alone.
pub uninterp spec fn spec_uuid_text(id: u128) -> Seq<char>;

/// Relies on uuid::Uuid::new_v4: a fresh random identifier; nothing is
/// promised of the value.
#[verifier::external_body]
fn new_uuid() -> u128 {
    uuid::Uuid::new_v4().as_u128()
}

/// Relies on uuid::Uuid::parse_str: whether and how a textual UUID parses
/// is a function of the text alone.
#[verifier::external_body]
fn parse_uuid(s: &str) -> (r: Option<u128>)
    ensures
        r == spec_uuid_parse(s@),
{
    match uuid::Uuid::parse_str(s) {
        Ok(u) => Some(u.as_u128()),
        Err(_) => None,
    }
}

/// Relies on uuid::Uuid's hyphenated rendering through to_string: 36
/// characters, a function of the identifier alone, and parse_str reads it
/// back to the same identifier.
#[verifier::external_body]
fn format_uuid(id: u128) -> (r: String)
    ensures
        r@ == spec_uuid_text(id),
        r@.len() == 36,
        spec_uuid_parse(r@) == Some(id),
{
    uuid::Uuid::from_u128(id).to_string()
}

/// A guest's identifier: the 128 bits of a UUID.
#[derive(Clone, Copy, Debug, PartialEq, Eq, Structural, Hash)]
pub struct GuestId(pub u128);

impl GuestId {
    /// A fresh random identifier.
    pub fn random() -> GuestId {
        GuestId(new_uuid())
    }

    /// Parses a textual UUID.
    pub fn parse(s: &str) -> (r: Option<GuestId>)
        ensures
            match r {
                Some(g) => spec_uuid_parse(s@) == Some(g.0),
                None => spec_uuid_parse(s@) is None,
            },
    {
        match parse_uuid(s) {
            Some(bits) => Some(GuestId(bits)),
            None => None,
        }
    }

    /// The canonical hyphenated text of this identifier.
    pub fn to_text(&self) -> (r: String)
        ensures
            r@ == spec_uuid_text(self.0),
            r@.len() == 36,
            spec_uuid_parse(r@) == Some(self.0),
    {
        format_uuid(self.0)
    }
}

/// A structured field value: the value itself, where it came from, when it
/// was last updated, and — for list fields — when it was marked preferred.
#[derive(Debug, Clone)]
pub struct StructuredValue<T> {
    pub value: T,
    pub from: Option<String>,
    pub updated_at: i64,
    pub preferred_at: Option<i64>,
}

impl<T> StructuredValue<T> {
    /// A fresh value with no provenance, stamped with the current time.
    pub fn new(value: T) -> (r: StructuredValue<T>)
        ensures
            r.value == value,
            r.from is None,
            r.preferred_at is None,
    {
        StructuredValue { value, from: None, updated_at: now_millis(), preferred_at: None }
    }

    /// A fresh value with a provenance, stamped with the current time.
    pub fn with_from(value: T, from: String) -> (r: StructuredValue<T>)
        ensures
            r.value == value,
            r.from == Some(from),
            r.preferred_at is None,
    {
        StructuredValue { value, from: Some(from), updated_at: now_millis(), preferred_at: None }
    }

    /// A value carrying a given update time and no provenance.
    pub fn with_updated_at(value: T, updated_at: i64) -> (r: StructuredValue<T>)
        ensures
            r.value == value,
            r.from is None,
            r.updated_at == updated_at,
            r.preferred_at is None,
    {
        StructuredValue { value, from: None, updated_at, preferred_at: None }
    }
}

/// A guest: identifier plus structured fields.
pub struct Guest {
    pub id: GuestId,
    pub first_name: StructuredValue<String>,
    pub last_name: StructuredValue<String>,
    pub mail: Vec<StructuredValue<String>>,
    pub phone: Vec<StructuredValue<String>>,
    pub opt_outs: Vec<StructuredValue<bool>>,
}

impl Guest {
    /// A guest with just the two names, both freshly stamped, and empty
    /// lists.
    pub fn new(id: GuestId, first_name: String, last_name: String) -> (g: Guest)
        ensures
            g.id == id,
            g.first_name.value == first_name,
            g.first_name.from is None,
            g.first_name.preferred_at is None,
            g.last_name.value == last_name,
            g.last_name.from is None,
            g.last_name.preferred_at is None,
            g.mail@ =~= Seq::<StructuredValue<String>>::empty(),
            g.phone@ =~= Seq::<StructuredValue<String>>::empty(),
            g.opt_outs@ =~= Seq::<StructuredValue<bool>>::empty(),
    {
        Guest {
            id,
            first_name: StructuredValue::new(first_name),
            last_name: StructuredValue::new(last_name),
            mail: Vec::new(),
            phone: Vec::new(),
            opt_outs: Vec::new(),
        }
    }
}

} // verus!
