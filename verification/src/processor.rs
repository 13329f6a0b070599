//! Per-message processing accounting.
//!
//! Each message ends in exactly one of two ways: its acknowledgment
//! succeeded, or it failed and the message is left to the broker's own
//! redelivery policy. The ledger records both outcomes by delivery handle.
//! A success is counted at most once per handle, and a failure never touches
//! the success count, so an observer counting successful acknowledgments
//! sees each message at most once and never sees a failed one.

use vstd::prelude::*;

verus! {

/// No element of the sequence occurs twice.
pub open spec fn no_dups(s: Seq<u64>) -> bool {
    forall|i: int, j: int| 0 <= i < j < s.len() ==> s[i] != s[j]
}

/// The ledger as its mathematical model: the handles acknowledged with
/// success, and the handles whose acknowledgment failed, in record order.
#[verifier::ext_equal]
pub struct LedgerModel {
    pub acked: Seq<u64>,
    pub failed: Seq<u64>,
}

impl LedgerModel {
    pub open spec fn wf(&self) -> bool {
        no_dups(self.acked)
    }
}

/// What recording a successful acknowledgment does to the model: the handle
/// is added unless it was already counted, so double reports never inflate
/// the count.
pub open spec fn spec_record_success(m: LedgerModel, handle: u64) -> LedgerModel {
    if m.acked.contains(handle) {
        m
    } else {
        LedgerModel { acked: m.acked.push(handle), failed: m.failed }
    }
}

/// What recording a failed acknowledgment does to the model: the failure is
/// logged and the success count is left exactly as it was.
pub open spec fn spec_record_failure(m: LedgerModel, handle: u64) -> LedgerModel {
    LedgerModel { acked: m.acked, failed: m.failed.push(handle) }
}

/// Records acknowledgment outcomes per delivery handle.
pub struct AckLedger {
    acked: Vec<u64>,
    failed: Vec<u64>,
}

impl View for AckLedger {
    type V = LedgerModel;

    closed spec fn view(&self) -> LedgerModel {
        LedgerModel { acked: self.acked@, failed: self.failed@ }
    }
}

impl AckLedger {
    pub fn new() -> (ledger: AckLedger)
        ensures
            ledger@.acked =~= Seq::<u64>::empty(),
            ledger@.failed =~= Seq::<u64>::empty(),
            ledger@.wf(),
    {
        AckLedger { acked: Vec::new(), failed: Vec::new() }
    }

    /// Whether this handle has been counted as successfully acknowledged.
    pub fn was_acked(&self, handle: u64) -> (r: bool)
        ensures
            r == self@.acked.contains(handle),
    {
        let n = self.acked.len();
        let mut i: usize = 0;
        while i < n
            invariant
                i <= n,
                n == self.acked@.len(),
                forall|j: int| 0 <= j < i ==> self.acked@[j] != handle,
            decreases n - i,
        {
            if self.acked[i] == handle {
                return true;
            }
            i = i + 1;
        }
        false
    }

    /// Counts one successful acknowledgment, at most once per handle.
    pub fn record_success(&mut self, handle: u64)
        requires
            old(self)@.wf(),
        ensures
            final(self)@ == spec_record_success(old(self)@, handle),
            final(self)@.wf(),
    {
        if !self.was_acked(handle) {
            self.acked.push(handle);
        }
        proof {
            assert(final(self)@ =~= spec_record_success(old(self)@, handle));
        }
    }

    /// Logs one failed acknowledgment; the success count does not move.
    pub fn record_failure(&mut self, handle: u64)
        requires
            old(self)@.wf(),
        ensures
            final(self)@ == spec_record_failure(old(self)@, handle),
            final(self)@.wf(),
    {
        self.failed.push(handle);
        proof {
            assert(final(self)@ =~= spec_record_failure(old(self)@, handle));
        }
    }

    /// How many messages have been successfully acknowledged.
    pub fn acked_count(&self) -> (n: usize)
        ensures
            n == self@.acked.len(),
    {
        self.acked.len()
    }

    /// How many acknowledgment failures have been logged.
    pub fn failed_count(&self) -> (n: usize)
        ensures
            n == self@.failed.len(),
    {
        self.failed.len()
    }
}

/// An acknowledgment failure is never double-counted as processed: recording
/// it leaves the set of successfully acknowledged handles untouched.
pub proof fn lemma_ack_failure_not_counted(m: LedgerModel, handle: u64)
    ensures
        spec_record_failure(m, handle).acked == m.acked,
{
}

/// Acknowledgment accounting is idempotent: reporting the same successful
/// acknowledgment twice counts it exactly once.
pub proof fn lemma_ack_success_counted_once(m: LedgerModel, handle: u64)
    requires
        m.wf(),
    ensures
        spec_record_success(spec_record_success(m, handle), handle) == spec_record_success(
            m,
            handle,
        ),
{
    if !m.acked.contains(handle) {
        assert(m.acked.push(handle)[m.acked.len() as int] == handle);
        assert(m.acked.push(handle).contains(handle));
    }
}

/// Failure isolation per message: recording the outcome of one handle does
/// not change whether any other handle counts as processed.
pub proof fn lemma_ack_isolation(m: LedgerModel, handle: u64, other: u64)
    requires
        other != handle,
    ensures
        spec_record_success(m, handle).acked.contains(other) == m.acked.contains(other),
        spec_record_failure(m, handle).acked.contains(other) == m.acked.contains(other),
{
    if !m.acked.contains(handle) {
        assert(spec_record_success(m, handle).acked == m.acked.push(handle));
        if m.acked.contains(other) {
            let i = choose|i: int| 0 <= i < m.acked.len() && m.acked[i] == other;
            assert(m.acked.push(handle)[i] == other);
        }
        if m.acked.push(handle).contains(other) {
            let i = choose|i: int|
                0 <= i < m.acked.push(handle).len() && m.acked.push(handle)[i] == other;
            assert(i < m.acked.len());
            assert(m.acked[i] == other);
        }
    }
}

} // verus!
