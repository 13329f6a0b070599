//! Guest request and response bodies. Timestamps travel as Unix
//! milliseconds; the identifier as a [`GuestId`].

use vstd::prelude::*;

use crate::guest::{GuestId, StructuredValue};

verus! {

/// A structured string field as received: the value, optional provenance
/// and optional timestamps.
#[derive(Debug, Clone)]
pub struct StructuredValueStringInput {
    pub value: String,
    pub from: Option<String>,
    pub updated_at: Option<i64>,
    pub preferred_at: Option<i64>,
}

/// A structured boolean field as received.
#[derive(Debug, Clone)]
pub struct StructuredValueBoolInput {
    pub value: bool,
    pub from: Option<String>,
    pub updated_at: Option<i64>,
    pub preferred_at: Option<i64>,
}

/// Request body for creating a guest.
#[derive(Debug, Clone)]
pub struct CreateGuestRequest {
    pub first_name: StructuredValueStringInput,
    pub last_name: StructuredValueStringInput,
    pub mail: Option<Vec<StructuredValueStringInput>>,
    pub phone: Option<Vec<StructuredValueStringInput>>,
    pub opt_outs: Option<Vec<StructuredValueBoolInput>>,
}

/// Request body for updating a guest; absent fields stay as they are.
#[derive(Debug, Clone)]
pub struct UpdateGuestRequest {
    pub first_name: Option<StructuredValueStringInput>,
    pub last_name: Option<StructuredValueStringInput>,
    pub mail: Option<Vec<StructuredValueStringInput>>,
    pub phone: Option<Vec<StructuredValueStringInput>>,
    pub opt_outs: Option<Vec<StructuredValueBoolInput>>,
}

/// A structured string field as responded.
#[derive(Debug, Clone)]
pub struct StructuredValueStringResponse {
    pub value: String,
    pub from: Option<String>,
    pub updated_at: i64,
    pub preferred_at: Option<i64>,
}

/// A structured boolean field as responded.
#[derive(Debug, Clone)]
pub struct StructuredValueBoolResponse {
    pub value: bool,
    pub from: Option<String>,
    pub updated_at: i64,
    pub preferred_at: Option<i64>,
}

/// Response body: one guest.
#[derive(Debug, Clone)]
pub struct GuestResponse {
    pub id: GuestId,
    pub first_name: StructuredValueStringResponse,
    pub last_name: StructuredValueStringResponse,
    pub mail: Vec<StructuredValueStringResponse>,
    pub phone: Vec<StructuredValueStringResponse>,
    pub opt_outs: Vec<StructuredValueBoolResponse>,
}

/// An optional string, by its text.
pub open spec fn opt_text(o: Option<String>) -> Option<Seq<char>> {
    match o {
        Some(s) => Some(s@),
        None => None,
    }
}

/// A response field carries exactly what the domain field holds.
pub open spec fn string_resp_matches(
    r: StructuredValueStringResponse,
    s: StructuredValue<String>,
) -> bool {
    &&& r.value@ == s.value@
    &&& opt_text(r.from) == opt_text(s.from)
    &&& r.updated_at == s.updated_at
    &&& r.preferred_at == s.preferred_at
}

/// A boolean response field carries exactly what the domain field holds.
pub open spec fn bool_resp_matches(
    r: StructuredValueBoolResponse,
    s: StructuredValue<bool>,
) -> bool {
    &&& r.value == s.value
    &&& opt_text(r.from) == opt_text(s.from)
    &&& r.updated_at == s.updated_at
    &&& r.preferred_at == s.preferred_at
}

/// A domain string field built from an input: value, provenance and
/// preferred time taken over; a given update time taken over, a missing
/// one replaced by the clock.
pub open spec fn string_sv_from_input(
    s: StructuredValue<String>,
    input: StructuredValueStringInput,
) -> bool {
    &&& s.value@ == input.value@
    &&& opt_text(s.from) == opt_text(input.from)
    &&& (input.updated_at matches Some(t) ==> s.updated_at == t)
    &&& s.preferred_at == input.preferred_at
}

/// A domain boolean field built from an input; it never carries a
/// preferred time.
pub open spec fn bool_sv_from_input(
    s: StructuredValue<bool>,
    input: StructuredValueBoolInput,
) -> bool {
    &&& s.value == input.value
    &&& opt_text(s.from) == opt_text(input.from)
    &&& (input.updated_at matches Some(t) ==> s.updated_at == t)
    &&& s.preferred_at is None
}

} // verus!
