//! The periodic publisher's state: on every tick it builds one envelope
//! carrying a monotonically increasing sequence number in its payload —
//! `hello guest #1`, `hello guest #2`, and so on. A failed publish is
//! logged and swallowed by the caller; the sequence simply advances at the
//! next tick, so no envelope is ever re-sent.

use vstd::prelude::*;
use vstd::string::*;

use crate::stream::{EnvelopeModel, PublishEnvelope, GUESTS_DEMO_SUBJECT};

verus! {

/// The decimal digits of `n`, most significant first, as the bytes
/// `'0'..'9'`.
pub open spec fn spec_decimal(n: nat) -> Seq<u8>
    decreases n,
{
    if n < 10 {
        seq![(48 + n) as u8]
    } else {
        spec_decimal(n / 10).push((48 + n % 10) as u8)
    }
}

/// Appends the decimal rendering of `n`.
pub fn push_decimal(out: &mut Vec<u8>, n: u64)
    ensures
        final(out)@ == old(out)@ + spec_decimal(n as nat),
    decreases n,
{
    if n < 10 {
        out.push(48 + (n as u8));
        proof {
            assert(final(out)@ =~= old(out)@ + spec_decimal(n as nat));
        }
    } else {
        assert(n / 10 < n);
        push_decimal(out, n / 10);
        out.push(48 + ((n % 10) as u8));
        proof {
            assert(final(out)@ =~= old(out)@ + spec_decimal(n as nat));
        }
    }
}

/// The payload of the `n`-th envelope: `hello guest #` followed by the
/// decimal sequence number.
pub open spec fn spec_hello_payload(n: nat) -> Seq<u8> {
    "hello guest #".spec_bytes() + spec_decimal(n)
}

/// Builds the payload `hello guest #<n>`.
pub fn hello_payload(n: u64) -> (payload: Vec<u8>)
    ensures
        payload@ == spec_hello_payload(n as nat),
{
    let mut payload = ("hello guest #").as_bytes_vec();
    push_decimal(&mut payload, n);
    payload
}

/// The publisher's whole state: how many envelopes have been built.
pub struct Publisher {
    published: u64,
}

impl Publisher {
    /// How many envelopes this publisher has built so far.
    pub closed spec fn published(&self) -> u64 {
        self.published
    }

    pub fn new() -> (p: Publisher)
        ensures
            p.published() == 0,
    {
        Publisher { published: 0 }
    }

    /// How many envelopes have been built.
    pub fn count(&self) -> (n: u64)
        ensures
            n == self.published(),
    {
        self.published
    }

    /// One tick: the sequence advances and the envelope for the new
    /// sequence number is built, addressed to the demo subject, with no
    /// headers. The envelope's fate — published or dropped on failure —
    /// does not touch the sequence.
    pub fn tick(&mut self) -> (env: PublishEnvelope)
        requires
            old(self).published() < u64::MAX,
        ensures
            final(self).published() == old(self).published() + 1,
            env@ == (EnvelopeModel {
                subject: GUESTS_DEMO_SUBJECT@,
                payload: spec_hello_payload((old(self).published() + 1) as nat),
                headers: Seq::empty(),
            }),
    {
        self.published = self.published + 1;
        let env = PublishEnvelope {
            subject: String::from_str(GUESTS_DEMO_SUBJECT),
            payload: hello_payload(self.published),
            headers: Vec::new(),
        };
        proof {
            assert(env@ =~= (EnvelopeModel {
                subject: GUESTS_DEMO_SUBJECT@,
                payload: spec_hello_payload((old(self).published() + 1) as nat),
                headers: Seq::empty(),
            }));
        }
        env
    }
}

} // verus!
