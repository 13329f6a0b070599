//! Validation of guest requests: at most one preferred entry per list,
//! email format, required fields, and the identifier's UUID format.

use vstd::prelude::*;
use vstd::string::*;
use vstd::utf8::encode_utf8;

use crate::guest::{spec_uuid_parse, GuestId};
use crate::guest_api::{CreateGuestRequest, StructuredValueStringInput, UpdateGuestRequest};
use crate::text::{decimal_string, spec_decimal_chars};
use crate::validation::{spec_trim, trim_str, ValidationError};

verus! {

/// The position of the first `@`, or -1 when there is none.
pub open spec fn spec_first_at(t: Seq<char>) -> int
    decreases t.len(),
{
    if t.len() == 0 {
        -1
    } else if t[0] == '@' {
        0
    } else {
        let r = spec_first_at(t.drop_first());
        if r < 0 {
            -1
        } else {
            r + 1
        }
    }
}

proof fn lemma_first_at(t: Seq<char>)
    ensures
        spec_first_at(t) == -1 <==> (forall|i: int| 0 <= i < t.len() ==> t[i] != '@'),
        spec_first_at(t) >= 0 ==> 0 <= spec_first_at(t) < t.len() && t[spec_first_at(t)] == '@'
            && (forall|i: int| 0 <= i < spec_first_at(t) ==> t[i] != '@'),
    decreases t.len(),
{
    if t.len() == 0 {
    } else if t[0] == '@' {
    } else {
        lemma_first_at(t.drop_first());
        assert(forall|i: int| 1 <= i < t.len() ==> t[i] == t.drop_first()[i - 1]);
    }
}

/// A trimmed address is acceptable when it is non-empty, at most 254 bytes,
/// holds exactly one `@` that is not the first character, and a `.` stands
/// somewhere after the `@`.
pub open spec fn spec_email_ok(t: Seq<char>) -> bool {
    let i = spec_first_at(t);
    &&& t.len() > 0
    &&& encode_utf8(t).len() <= 254
    &&& 0 < i
    &&& (forall|j: int| i < j < t.len() ==> t[j] != '@')
    &&& (exists|k: int| i < k < t.len() && t[k] == '.')
}

/// Validates an email address, after trimming it.
pub fn is_valid_email_format(s: &str) -> (r: bool)
    ensures
        r == spec_email_ok(spec_trim(s@)),
{
    let t = trim_str(s);
    let ghost tv = t@;
    if t.is_empty() {
        return false;
    }
    if t.len() > 254 {
        return false;
    }
    let n = t.unicode_len();
    let mut i: usize = 0;
    while i < n && t.get_char(i) != '@'
        invariant
            i <= n,
            n == tv.len(),
            tv == t@,
            forall|j: int| 0 <= j < i ==> tv[j] != '@',
        decreases n - i,
    {
        i = i + 1;
    }
    if i == n {
        proof {
            lemma_first_at(tv);
        }
        return false;
    }
    if i == 0 {
        proof {
            lemma_first_at(tv);
            assert(spec_first_at(tv) == 0);
        }
        return false;
    }
    let mut j = i + 1;
    let mut dot = false;
    while j < n
        invariant
            0 < i < j <= n,
            n == tv.len(),
            tv == t@,
            tv == spec_trim(s@),
            tv[i as int] == '@',
            forall|p: int| 0 <= p < i ==> tv[p] != '@',
            forall|p: int| i < p < j ==> tv[p] != '@',
            dot <==> exists|k: int| i < k < j && tv[k] == '.',
        decreases n - j,
    {
        let c = t.get_char(j);
        if c == '@' {
            proof {
                lemma_first_at(tv);
                assert(spec_first_at(tv) == i);
                assert(!spec_email_ok(tv));
            }
            return false;
        }
        if c == '.' {
            dot = true;
        }
        j = j + 1;
    }
    proof {
        lemma_first_at(tv);
        assert(spec_first_at(tv) == i);
    }
    dot
}

/// At most one entry of the list carries a preferred time.
pub open spec fn spec_at_most_one_preferred(items: Seq<StructuredValueStringInput>) -> bool {
    forall|i: int, j: int|
        0 <= i < j < items.len() ==> !((#[trigger] items[i]).preferred_at is Some && (
        #[trigger] items[j]).preferred_at is Some)
}

fn at_most_one_preferred(items: &Vec<StructuredValueStringInput>) -> (r: bool)
    ensures
        r == spec_at_most_one_preferred(items@),
{
    let n = items.len();
    let mut i: usize = 0;
    while i < n && items[i].preferred_at.is_none()
        invariant
            i <= n,
            n == items@.len(),
            forall|j: int| 0 <= j < i ==> (#[trigger] items@[j]).preferred_at is None,
        decreases n - i,
    {
        i = i + 1;
    }
    if i == n {
        return true;
    }
    let mut j = i + 1;
    while j < n
        invariant
            i < j <= n,
            n == items@.len(),
            items@[i as int].preferred_at is Some,
            forall|p: int| 0 <= p < i ==> (#[trigger] items@[p]).preferred_at is None,
            forall|p: int| i < p < j ==> (#[trigger] items@[p]).preferred_at is None,
        decreases n - j,
    {
        if items[j].preferred_at.is_some() {
            return false;
        }
        j = j + 1;
    }
    proof {
        assert forall|p: int, q: int| 0 <= p < q < n implies !((#[trigger] items@[p]).preferred_at
            is Some && (#[trigger] items@[q]).preferred_at is Some) by {
            if q != i {
                assert(items@[q].preferred_at is None);
            } else {
                assert(items@[p].preferred_at is None);
            }
        }
    }
    true
}

/// Every address of the list is a valid email and at most one is
/// preferred.
pub open spec fn spec_mail_list_ok(mails: Seq<StructuredValueStringInput>) -> bool {
    &&& spec_at_most_one_preferred(mails)
    &&& forall|i: int|
        0 <= i < mails.len() ==> spec_email_ok(spec_trim((#[trigger] mails[i]).value@))
}

/// The first entry whose address is not a valid email, or -1.
pub open spec fn spec_first_bad_mail(mails: Seq<StructuredValueStringInput>) -> int
    decreases mails.len(),
{
    if mails.len() == 0 {
        -1
    } else if !spec_email_ok(spec_trim(mails[0].value@)) {
        0
    } else {
        let r = spec_first_bad_mail(mails.drop_first());
        if r < 0 {
            -1
        } else {
            r + 1
        }
    }
}

proof fn lemma_first_bad_mail(mails: Seq<StructuredValueStringInput>)
    ensures
        spec_first_bad_mail(mails) == -1 <==> (forall|i: int|
            0 <= i < mails.len() ==> spec_email_ok(spec_trim((#[trigger] mails[i]).value@))),
        spec_first_bad_mail(mails) >= 0 ==> 0 <= spec_first_bad_mail(mails) < mails.len()
            && !spec_email_ok(spec_trim(mails[spec_first_bad_mail(mails)].value@)) && (forall|i: int|
            0 <= i < spec_first_bad_mail(mails) ==> spec_email_ok(
                spec_trim((#[trigger] mails[i]).value@),
            )),
    decreases mails.len(),
{
    if mails.len() == 0 {
    } else if !spec_email_ok(spec_trim(mails[0].value@)) {
    } else {
        lemma_first_bad_mail(mails.drop_first());
        assert(forall|i: int| 1 <= i < mails.len() ==> mails[i] == mails.drop_first()[i - 1]);
    }
}

/// The message a failing mail list is refused with.
pub open spec fn spec_mail_err_msg(mails: Seq<StructuredValueStringInput>) -> Seq<char> {
    if !spec_at_most_one_preferred(mails) {
        "mail: au plus un email peut avoir preferred_at"@
    } else {
        "mail["@ + spec_decimal_chars(spec_first_bad_mail(mails) as nat)
            + "]: value doit être une adresse email valide"@
    }
}

/// Validates a mail list: at most one preferred entry, every address a
/// valid email. The error names the first failing rule.
fn validate_mail_list(mails: &Vec<StructuredValueStringInput>) -> (r: Result<(), ValidationError>)
    ensures
        match r {
            Ok(_) => spec_mail_list_ok(mails@),
            Err(e) => !spec_mail_list_ok(mails@) && e.0@ == spec_mail_err_msg(mails@),
        },
{
    if !at_most_one_preferred(mails) {
        return Err(
            ValidationError(String::from_str("mail: au plus un email peut avoir preferred_at")),
        );
    }
    let n = mails.len();
    let mut i: usize = 0;
    while i < n
        invariant
            i <= n,
            n == mails@.len(),
            spec_at_most_one_preferred(mails@),
            forall|j: int| 0 <= j < i ==> spec_email_ok(spec_trim((#[trigger] mails@[j]).value@)),
        decreases n - i,
    {
        if !is_valid_email_format(mails[i].value.as_str()) {
            proof {
                lemma_first_bad_mail(mails@);
                assert(spec_first_bad_mail(mails@) == i);
            }
            let msg = String::from_str("mail[").concat(decimal_string(i as u64).as_str()).concat(
                "]: value doit être une adresse email valide",
            );
            proof {
                assert(msg@ =~= spec_mail_err_msg(mails@));
            }
            return Err(ValidationError(msg));
        }
        i = i + 1;
    }
    Ok(())
}

/// Validates a phone list: at most one preferred entry.
fn validate_phone_list(phones: &Vec<StructuredValueStringInput>) -> (r: Result<
    (),
    ValidationError,
>)
    ensures
        match r {
            Ok(_) => spec_at_most_one_preferred(phones@),
            Err(e) => !spec_at_most_one_preferred(phones@) && e.0@
                == "phone: au plus un numéro peut avoir preferred_at"@,
        },
{
    if !at_most_one_preferred(phones) {
        return Err(
            ValidationError(String::from_str("phone: au plus un numéro peut avoir preferred_at")),
        );
    }
    Ok(())
}

/// The message a missing required field is refused with.
pub open spec fn spec_field_required_msg(field: Seq<char>) -> Seq<char> {
    field + ": value est obligatoire et ne peut pas être vide"@
}

/// Validates that a structured string value is non-empty after trimming.
fn required_value_non_empty(field: &str, input: &StructuredValueStringInput) -> (r: Result<
    (),
    ValidationError,
>)
    ensures
        match r {
            Ok(_) => spec_trim(input.value@).len() > 0,
            Err(e) => spec_trim(input.value@).len() == 0 && e.0@ == spec_field_required_msg(
                field@,
            ),
        },
{
    let t = trim_str(input.value.as_str());
    if t.is_empty() {
        let msg = String::from_str(field).concat(
            ": value est obligatoire et ne peut pas être vide",
        );
        return Err(ValidationError(msg));
    }
    Ok(())
}

/// A creation request is acceptable when both names are non-empty and the
/// optional lists pass their checks.
pub open spec fn spec_create_ok(req: CreateGuestRequest) -> bool {
    &&& spec_trim(req.first_name.value@).len() > 0
    &&& spec_trim(req.last_name.value@).len() > 0
    &&& (req.mail matches Some(m) ==> spec_mail_list_ok(m@))
    &&& (req.phone matches Some(p) ==> spec_at_most_one_preferred(p@))
}

/// Validates the body of a creation request; checks run in field order and
/// the error names the first failing rule.
pub fn validate_create_request(req: &CreateGuestRequest) -> (r: Result<(), ValidationError>)
    ensures
        r is Ok <==> spec_create_ok(*req),
        match r {
            Ok(_) => true,
            Err(e) => {
                if spec_trim(req.first_name.value@).len() == 0 {
                    e.0@ == spec_field_required_msg("first_name"@)
                } else if spec_trim(req.last_name.value@).len() == 0 {
                    e.0@ == spec_field_required_msg("last_name"@)
                } else if !(req.mail matches Some(m) ==> spec_mail_list_ok(m@)) {
                    req.mail matches Some(m) && e.0@ == spec_mail_err_msg(m@)
                } else {
                    req.phone matches Some(p) && !spec_at_most_one_preferred(p@) && e.0@
                        == "phone: au plus un numéro peut avoir preferred_at"@
                }
            },
        },
{
    match required_value_non_empty("first_name", &req.first_name) {
        Err(e) => {
            return Err(e);
        },
        Ok(_) => {},
    }
    match required_value_non_empty("last_name", &req.last_name) {
        Err(e) => {
            return Err(e);
        },
        Ok(_) => {},
    }
    match &req.mail {
        Some(mails) => {
            match validate_mail_list(mails) {
                Err(e) => {
                    return Err(e);
                },
                Ok(_) => {},
            }
        },
        None => {},
    }
    match &req.phone {
        Some(phones) => {
            match validate_phone_list(phones) {
                Err(e) => {
                    return Err(e);
                },
                Ok(_) => {},
            }
        },
        None => {},
    }
    Ok(())
}

/// An update request is acceptable when each name it carries is non-empty
/// and the optional lists pass their checks.
pub open spec fn spec_update_ok(req: UpdateGuestRequest) -> bool {
    &&& (req.first_name matches Some(f) ==> spec_trim(f.value@).len() > 0)
    &&& (req.last_name matches Some(l) ==> spec_trim(l.value@).len() > 0)
    &&& (req.mail matches Some(m) ==> spec_mail_list_ok(m@))
    &&& (req.phone matches Some(p) ==> spec_at_most_one_preferred(p@))
}

/// Validates the body of an update request; checks run in field order and
/// the error names the first failing rule.
pub fn validate_update_request(req: &UpdateGuestRequest) -> (r: Result<(), ValidationError>)
    ensures
        r is Ok <==> spec_update_ok(*req),
        match r {
            Ok(_) => true,
            Err(e) => {
                if !(req.first_name matches Some(f) ==> spec_trim(f.value@).len() > 0) {
                    e.0@ == spec_field_required_msg("first_name"@)
                } else if !(req.last_name matches Some(l) ==> spec_trim(l.value@).len() > 0) {
                    e.0@ == spec_field_required_msg("last_name"@)
                } else if !(req.mail matches Some(m) ==> spec_mail_list_ok(m@)) {
                    req.mail matches Some(m) && e.0@ == spec_mail_err_msg(m@)
                } else {
                    req.phone matches Some(p) && !spec_at_most_one_preferred(p@) && e.0@
                        == "phone: au plus un numéro peut avoir preferred_at"@
                }
            },
        },
{
    match &req.first_name {
        Some(first) => {
            match required_value_non_empty("first_name", first) {
                Err(e) => {
                    return Err(e);
                },
                Ok(_) => {},
            }
        },
        None => {},
    }
    match &req.last_name {
        Some(last) => {
            match required_value_non_empty("last_name", last) {
                Err(e) => {
                    return Err(e);
                },
                Ok(_) => {},
            }
        },
        None => {},
    }
    match &req.mail {
        Some(mails) => {
            match validate_mail_list(mails) {
                Err(e) => {
                    return Err(e);
                },
                Ok(_) => {},
            }
        },
        None => {},
    }
    match &req.phone {
        Some(phones) => {
            match validate_phone_list(phones) {
                Err(e) => {
                    return Err(e);
                },
                Ok(_) => {},
            }
        },
        None => {},
    }
    Ok(())
}

/// Parses the path identifier as a UUID; a malformed one is refused with
/// the exact message.
pub fn parse_guest_id(id: &str) -> (r: Result<GuestId, ValidationError>)
    ensures
        match r {
            Ok(g) => spec_uuid_parse(id@) == Some(g.0),
            Err(e) => spec_uuid_parse(id@) is None && e.0@ == "id invalide: '"@ + id@
                + "' n'est pas un UUID valide"@,
        },
{
    match GuestId::parse(id) {
        Some(g) => Ok(g),
        None => {
            let msg = String::from_str("id invalide: '").concat(id).concat(
                "' n'est pas un UUID valide",
            );
            proof {
                assert(msg@ =~= "id invalide: '"@ + id@ + "' n'est pas un UUID valide"@);
            }
            Err(ValidationError(msg))
        },
    }
}

} // verus!
