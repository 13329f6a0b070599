//! Mappers between the guest entity and its request/response bodies.

use vstd::prelude::*;

use crate::clock::now_millis;
use crate::guest::{Guest, GuestId, StructuredValue};
use crate::guest_api::{
    bool_resp_matches, bool_sv_from_input, opt_text, string_resp_matches, string_sv_from_input,
    CreateGuestRequest, GuestResponse, StructuredValueBoolInput, StructuredValueBoolResponse,
    StructuredValueStringInput, StructuredValueStringResponse, UpdateGuestRequest,
};

verus! {

fn clone_opt_string(o: &Option<String>) -> (r: Option<String>)
    ensures
        opt_text(r) == opt_text(*o),
{
    match o {
        Some(s) => Some(s.clone()),
        None => None,
    }
}

fn structured_value_string_to_response(s: &StructuredValue<String>) -> (r:
    StructuredValueStringResponse)
    ensures
        string_resp_matches(r, *s),
{
    StructuredValueStringResponse {
        value: s.value.clone(),
        from: clone_opt_string(&s.from),
        updated_at: s.updated_at,
        preferred_at: s.preferred_at,
    }
}

fn structured_value_bool_to_response(s: &StructuredValue<bool>) -> (r:
    StructuredValueBoolResponse)
    ensures
        bool_resp_matches(r, *s),
{
    StructuredValueBoolResponse {
        value: s.value,
        from: clone_opt_string(&s.from),
        updated_at: s.updated_at,
        preferred_at: s.preferred_at,
    }
}

fn structured_value_input_to_domain_string(input: &StructuredValueStringInput) -> (r:
    StructuredValue<String>)
    ensures
        string_sv_from_input(r, *input),
{
    let updated_at = match input.updated_at {
        Some(t) => t,
        None => now_millis(),
    };
    StructuredValue {
        value: input.value.clone(),
        from: clone_opt_string(&input.from),
        updated_at,
        preferred_at: input.preferred_at,
    }
}

fn structured_value_input_to_domain_bool(input: &StructuredValueBoolInput) -> (r: StructuredValue<
    bool,
>)
    ensures
        bool_sv_from_input(r, *input),
{
    let updated_at = match input.updated_at {
        Some(t) => t,
        None => now_millis(),
    };
    StructuredValue {
        value: input.value,
        from: clone_opt_string(&input.from),
        updated_at,
        preferred_at: None,
    }
}

fn string_inputs_to_domain(inputs: &Vec<StructuredValueStringInput>) -> (r: Vec<
    StructuredValue<String>,
>)
    ensures
        r@.len() == inputs@.len(),
        forall|i: int|
            0 <= i < inputs@.len() ==> string_sv_from_input(#[trigger] r@[i], inputs@[i]),
{
    let mut out: Vec<StructuredValue<String>> = Vec::new();
    let n = inputs.len();
    let mut i: usize = 0;
    while i < n
        invariant
            i <= n,
            n == inputs@.len(),
            out@.len() == i,
            forall|j: int| 0 <= j < i ==> string_sv_from_input(#[trigger] out@[j], inputs@[j]),
        decreases n - i,
    {
        out.push(structured_value_input_to_domain_string(&inputs[i]));
        i = i + 1;
    }
    out
}

fn bool_inputs_to_domain(inputs: &Vec<StructuredValueBoolInput>) -> (r: Vec<StructuredValue<bool>>)
    ensures
        r@.len() == inputs@.len(),
        forall|i: int| 0 <= i < inputs@.len() ==> bool_sv_from_input(#[trigger] r@[i], inputs@[i]),
{
    let mut out: Vec<StructuredValue<bool>> = Vec::new();
    let n = inputs.len();
    let mut i: usize = 0;
    while i < n
        invariant
            i <= n,
            n == inputs@.len(),
            out@.len() == i,
            forall|j: int| 0 <= j < i ==> bool_sv_from_input(#[trigger] out@[j], inputs@[j]),
        decreases n - i,
    {
        out.push(structured_value_input_to_domain_bool(&inputs[i]));
        i = i + 1;
    }
    out
}

/// Domain entity to response body, field for field.
pub fn guest_to_response(guest: &Guest) -> (r: GuestResponse)
    ensures
        r.id == guest.id,
        string_resp_matches(r.first_name, guest.first_name),
        string_resp_matches(r.last_name, guest.last_name),
        r.mail@.len() == guest.mail@.len(),
        forall|i: int|
            0 <= i < guest.mail@.len() ==> string_resp_matches(#[trigger] r.mail@[i], guest.mail@[i]),
        r.phone@.len() == guest.phone@.len(),
        forall|i: int|
            0 <= i < guest.phone@.len() ==> string_resp_matches(
                #[trigger] r.phone@[i],
                guest.phone@[i],
            ),
        r.opt_outs@.len() == guest.opt_outs@.len(),
        forall|i: int|
            0 <= i < guest.opt_outs@.len() ==> bool_resp_matches(
                #[trigger] r.opt_outs@[i],
                guest.opt_outs@[i],
            ),
{
    let mut mail: Vec<StructuredValueStringResponse> = Vec::new();
    let n = guest.mail.len();
    let mut i: usize = 0;
    while i < n
        invariant
            i <= n,
            n == guest.mail@.len(),
            mail@.len() == i,
            forall|j: int|
                0 <= j < i ==> string_resp_matches(#[trigger] mail@[j], guest.mail@[j]),
        decreases n - i,
    {
        mail.push(structured_value_string_to_response(&guest.mail[i]));
        i = i + 1;
    }
    let mut phone: Vec<StructuredValueStringResponse> = Vec::new();
    let n = guest.phone.len();
    let mut i: usize = 0;
    while i < n
        invariant
            i <= n,
            n == guest.phone@.len(),
            phone@.len() == i,
            forall|j: int|
                0 <= j < i ==> string_resp_matches(#[trigger] phone@[j], guest.phone@[j]),
        decreases n - i,
    {
        phone.push(structured_value_string_to_response(&guest.phone[i]));
        i = i + 1;
    }
    let mut opt_outs: Vec<StructuredValueBoolResponse> = Vec::new();
    let n = guest.opt_outs.len();
    let mut i: usize = 0;
    while i < n
        invariant
            i <= n,
            n == guest.opt_outs@.len(),
            opt_outs@.len() == i,
            forall|j: int|
                0 <= j < i ==> bool_resp_matches(#[trigger] opt_outs@[j], guest.opt_outs@[j]),
        decreases n - i,
    {
        opt_outs.push(structured_value_bool_to_response(&guest.opt_outs[i]));
        i = i + 1;
    }
    GuestResponse {
        id: guest.id,
        first_name: structured_value_string_to_response(&guest.first_name),
        last_name: structured_value_string_to_response(&guest.last_name),
        mail,
        phone,
        opt_outs,
    }
}

/// Builds a fresh guest from a creation request, under a fresh random
/// identifier. Absent lists become empty ones.
pub fn create_request_to_guest(req: &CreateGuestRequest) -> (g: Guest)
    ensures
        string_sv_from_input(g.first_name, req.first_name),
        string_sv_from_input(g.last_name, req.last_name),
        match req.mail {
            Some(v) => g.mail@.len() == v@.len() && (forall|i: int|
                0 <= i < v@.len() ==> string_sv_from_input(#[trigger] g.mail@[i], v@[i])),
            None => g.mail@.len() == 0,
        },
        match req.phone {
            Some(v) => g.phone@.len() == v@.len() && (forall|i: int|
                0 <= i < v@.len() ==> string_sv_from_input(#[trigger] g.phone@[i], v@[i])),
            None => g.phone@.len() == 0,
        },
        match req.opt_outs {
            Some(v) => g.opt_outs@.len() == v@.len() && (forall|i: int|
                0 <= i < v@.len() ==> bool_sv_from_input(#[trigger] g.opt_outs@[i], v@[i])),
            None => g.opt_outs@.len() == 0,
        },
{
    let mail = match &req.mail {
        Some(v) => string_inputs_to_domain(v),
        None => Vec::new(),
    };
    let phone = match &req.phone {
        Some(v) => string_inputs_to_domain(v),
        None => Vec::new(),
    };
    let opt_outs = match &req.opt_outs {
        Some(v) => bool_inputs_to_domain(v),
        None => Vec::new(),
    };
    Guest {
        id: GuestId::random(),
        first_name: structured_value_input_to_domain_string(&req.first_name),
        last_name: structured_value_input_to_domain_string(&req.last_name),
        mail,
        phone,
        opt_outs,
    }
}

/// Applies an update request to an existing guest: each field the request
/// carries is rebuilt from it; each absent field stays exactly as it was.
/// The identifier never changes.
pub fn apply_update_request(guest: Guest, req: &UpdateGuestRequest) -> (g: Guest)
    ensures
        g.id == guest.id,
        match req.first_name {
            Some(f) => string_sv_from_input(g.first_name, f),
            None => g.first_name == guest.first_name,
        },
        match req.last_name {
            Some(l) => string_sv_from_input(g.last_name, l),
            None => g.last_name == guest.last_name,
        },
        match req.mail {
            Some(v) => g.mail@.len() == v@.len() && (forall|i: int|
                0 <= i < v@.len() ==> string_sv_from_input(#[trigger] g.mail@[i], v@[i])),
            None => g.mail == guest.mail,
        },
        match req.phone {
            Some(v) => g.phone@.len() == v@.len() && (forall|i: int|
                0 <= i < v@.len() ==> string_sv_from_input(#[trigger] g.phone@[i], v@[i])),
            None => g.phone == guest.phone,
        },
        match req.opt_outs {
            Some(v) => g.opt_outs@.len() == v@.len() && (forall|i: int|
                0 <= i < v@.len() ==> bool_sv_from_input(#[trigger] g.opt_outs@[i], v@[i])),
            None => g.opt_outs == guest.opt_outs,
        },
{
    let Guest { id, first_name, last_name, mail, phone, opt_outs } = guest;
    let first_name = match &req.first_name {
        Some(f) => structured_value_input_to_domain_string(f),
        None => first_name,
    };
    let last_name = match &req.last_name {
        Some(l) => structured_value_input_to_domain_string(l),
        None => last_name,
    };
    let mail = match &req.mail {
        Some(v) => string_inputs_to_domain(v),
        None => mail,
    };
    let phone = match &req.phone {
        Some(v) => string_inputs_to_domain(v),
        None => phone,
    };
    let opt_outs = match &req.opt_outs {
        Some(v) => bool_inputs_to_domain(v),
        None => opt_outs,
    };
    Guest { id, first_name, last_name, mail, phone, opt_outs }
}

} // verus!
