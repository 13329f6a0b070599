//! Hierarchical subject matching.
//!
//! A subject is a dot-separated routing key such as `stream.guest.opt-out`.
//! A stream pattern may end in the wildcard `>`, which stands for every
//! subject nested below the prefix in front of it.

use vstd::prelude::*;
use vstd::string::*;

verus! {

/// A pattern matches a subject when either the pattern is the lone wildcard
/// `>` (any non-empty subject), or the pattern ends in `.>` and the subject
/// extends the prefix up to and including that dot by at least one further
/// character, or the pattern names the subject exactly.
pub open spec fn spec_subject_matches(pattern: Seq<char>, subject: Seq<char>) -> bool {
    if pattern.len() == 1 && pattern[0] == '>' {
        subject.len() > 0
    } else if pattern.len() >= 2 && pattern[pattern.len() - 1] == '>' && pattern[pattern.len()
        - 2] == '.' {
        let prefix = pattern.subrange(0, pattern.len() - 1);
        subject.len() > prefix.len() && subject.subrange(0, prefix.len() as int) == prefix
    } else {
        subject == pattern
    }
}

/// Compares two string slices character by character.
fn chars_equal_upto(a: &str, b: &str, n: usize) -> (r: bool)
    requires
        n <= a@.len(),
        n <= b@.len(),
    ensures
        r == (a@.subrange(0, n as int) == b@.subrange(0, n as int)),
{
    let mut i: usize = 0;
    while i < n
        invariant
            i <= n,
            n <= a@.len(),
            n <= b@.len(),
            forall|j: int| 0 <= j < i ==> a@[j] == b@[j],
        decreases n - i,
    {
        if a.get_char(i) != b.get_char(i) {
            assert(a@.subrange(0, n as int)[i as int] != b@.subrange(0, n as int)[i as int]);
            return false;
        }
        i = i + 1;
    }
    assert(a@.subrange(0, n as int) =~= b@.subrange(0, n as int));
    true
}

/// Whether two string slices hold the same characters.
pub fn str_equal(a: &str, b: &str) -> (r: bool)
    ensures
        r == (a@ == b@),
{
    let alen = a.unicode_len();
    let blen = b.unicode_len();
    if alen != blen {
        return false;
    }
    let r = chars_equal_upto(a, b, alen);
    proof {
        assert(a@.subrange(0, alen as int) =~= a@);
        assert(b@.subrange(0, alen as int) =~= b@);
    }
    r
}

/// Decides whether `subject` is routed to a stream declared with `pattern`.
pub fn subject_matches(pattern: &str, subject: &str) -> (r: bool)
    ensures
        r == spec_subject_matches(pattern@, subject@),
{
    let plen = pattern.unicode_len();
    let slen = subject.unicode_len();
    if plen == 1 && pattern.get_char(0) == '>' {
        slen > 0
    } else if plen >= 2 && pattern.get_char(plen - 1) == '>' && pattern.get_char(plen - 2) == '.' {
        if slen < plen {
            assert(!(subject@.len() > pattern@.subrange(0, pattern@.len() - 1).len()));
            return false;
        }
        let r = chars_equal_upto(subject, pattern, plen - 1);
        proof {
            assert(pattern@.subrange(0, plen - 1 as int) =~= pattern@.subrange(
                0,
                pattern@.len() - 1,
            ));
        }
        r
    } else {
        if plen != slen {
            assert(subject@ != pattern@);
            return false;
        }
        let r = chars_equal_upto(subject, pattern, plen);
        proof {
            assert(subject@.subrange(0, plen as int) =~= subject@);
            assert(pattern@.subrange(0, plen as int) =~= pattern@);
        }
        r
    }
}

} // verus!
