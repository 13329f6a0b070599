//! The consumer loop's decision machine.
//!
//! The loop alternates provisioning, pulling a bounded batch and fanning the
//! batch out to per-message processing units gated by a counting permit
//! pool. Everything the loop decides — which phase comes next, whether a
//! delivered message starts processing now or waits for a permit, and how
//! acknowledgment outcomes are counted — is the pure transition function
//! [`spec_step`], implemented by [`ConsumerLoop::step`]. The caller performs
//! the returned [`ConsumerAction`] (provision, pull, start a processing
//! unit) and feeds the outcome back as the next [`ConsumerEvent`].

use vstd::prelude::*;

use crate::gate::{ConcurrencyGate, Permit};
use crate::processor::{
    no_dups, spec_record_failure, spec_record_success, AckLedger, LedgerModel,
};

verus! {

/// The loop's phase. `Failed` is terminal and is reached only from
/// `Provisioning`; every other error returns the loop to `Pulling`.
#[derive(Clone, Copy, Debug, PartialEq, Eq, Structural)]
pub enum Phase {
    Idle,
    Provisioning,
    Pulling,
    Dispatching,
    Failed,
}

/// What the surrounding task reports to the loop.
#[derive(Clone, Copy, Debug, PartialEq, Eq, Structural)]
pub enum ConsumerEvent {
    /// The loop is asked to run.
    Start,
    /// Stream and consumer were both ensured.
    Provisioned,
    /// Provisioning failed: unreachable backing store or an incompatible
    /// existing configuration. Fatal to this loop alone.
    ProvisionFailed,
    /// One message of the current batch arrived, named by its delivery
    /// handle.
    Delivered { handle: u64 },
    /// The current batch is exhausted or its wait expired.
    BatchClosed,
    /// The pull itself failed; transient, the loop retries.
    PullFailed,
    /// A processing unit completed, with its acknowledgment outcome.
    Finished { handle: u64, acked: bool },
}

/// What the surrounding task must do next.
#[derive(Clone, Copy, Debug, PartialEq, Eq, Structural)]
pub enum ConsumerAction {
    /// Ensure the stream and the durable consumer exist.
    Provision,
    /// Issue the next bounded pull.
    Pull { max_messages: usize, expiry_secs: u64 },
    /// Start one processing unit for this delivery handle; its permit is
    /// already counted.
    Process { handle: u64 },
    /// Nothing to start; wait for the next event.
    Wait,
    /// Provisioning failed: the loop exits.
    Halt,
}

/// The loop as its mathematical model.
#[verifier::ext_equal]
pub struct LoopModel {
    pub phase: Phase,
    /// The fixed concurrency bound.
    pub capacity: usize,
    pub batch_size: usize,
    pub expiry_secs: u64,
    /// Delivered handles waiting for a permit, oldest first.
    pub pending: Seq<u64>,
    /// Handles whose processing unit is running now.
    pub processing: Seq<u64>,
    /// The acknowledgment ledger.
    pub ledger: LedgerModel,
}

impl LoopModel {
    /// The invariant every reachable state keeps. In particular, at most
    /// `capacity` messages are ever processing at once.
    pub open spec fn wf(&self) -> bool {
        &&& self.capacity > 0
        &&& self.processing.len() <= self.capacity
        &&& self.ledger.wf()
    }
}

/// The position of the first occurrence of `handle`, or -1 when absent.
pub open spec fn first_index_of(s: Seq<u64>, handle: u64) -> int
    decreases s.len(),
{
    if s.len() == 0 {
        -1
    } else if s[0] == handle {
        0
    } else {
        let r = first_index_of(s.drop_first(), handle);
        if r < 0 {
            -1
        } else {
            r + 1
        }
    }
}

pub proof fn lemma_first_index_of(s: Seq<u64>, handle: u64)
    ensures
        first_index_of(s, handle) == -1 <==> (forall|i: int|
            0 <= i < s.len() ==> s[i] != handle),
        first_index_of(s, handle) >= 0 ==> 0 <= first_index_of(s, handle) < s.len() && s[
            first_index_of(s, handle)
        ] == handle && (forall|i: int| 0 <= i < first_index_of(s, handle) ==> s[i] != handle),
    decreases s.len(),
{
    if s.len() == 0 {
    } else if s[0] == handle {
    } else {
        lemma_first_index_of(s.drop_first(), handle);
        assert(forall|i: int| 1 <= i < s.len() ==> s[i] == s.drop_first()[i - 1]);
    }
}

/// How the model moves on one event. The second component is the action the
/// caller performs before reporting the next event.
pub open spec fn spec_step(m: LoopModel, event: ConsumerEvent) -> (LoopModel, ConsumerAction) {
    match event {
        ConsumerEvent::Start => {
            if m.phase is Idle {
                (LoopModel { phase: Phase::Provisioning, ..m }, ConsumerAction::Provision)
            } else {
                (m, ConsumerAction::Wait)
            }
        },
        ConsumerEvent::Provisioned => {
            if m.phase is Provisioning {
                (
                    LoopModel { phase: Phase::Pulling, ..m },
                    ConsumerAction::Pull { max_messages: m.batch_size, expiry_secs: m.expiry_secs },
                )
            } else {
                (m, ConsumerAction::Wait)
            }
        },
        ConsumerEvent::ProvisionFailed => {
            if m.phase is Provisioning {
                (LoopModel { phase: Phase::Failed, ..m }, ConsumerAction::Halt)
            } else {
                (m, ConsumerAction::Wait)
            }
        },
        ConsumerEvent::Delivered { handle } => {
            if m.phase is Pulling || m.phase is Dispatching {
                if m.processing.len() < m.capacity {
                    (
                        LoopModel {
                            phase: Phase::Dispatching,
                            processing: m.processing.push(handle),
                            ..m
                        },
                        ConsumerAction::Process { handle },
                    )
                } else {
                    (
                        LoopModel { phase: Phase::Dispatching, pending: m.pending.push(handle), ..m },
                        ConsumerAction::Wait,
                    )
                }
            } else {
                (m, ConsumerAction::Wait)
            }
        },
        ConsumerEvent::BatchClosed => {
            if m.phase is Pulling || m.phase is Dispatching {
                (
                    LoopModel { phase: Phase::Pulling, ..m },
                    ConsumerAction::Pull { max_messages: m.batch_size, expiry_secs: m.expiry_secs },
                )
            } else {
                (m, ConsumerAction::Wait)
            }
        },
        ConsumerEvent::PullFailed => {
            if m.phase is Pulling || m.phase is Dispatching {
                (
                    LoopModel { phase: Phase::Pulling, ..m },
                    ConsumerAction::Pull { max_messages: m.batch_size, expiry_secs: m.expiry_secs },
                )
            } else {
                (m, ConsumerAction::Wait)
            }
        },
        ConsumerEvent::Finished { handle, acked } => {
            let i = first_index_of(m.processing, handle);
            if i >= 0 {
                let ledger = if acked {
                    spec_record_success(m.ledger, handle)
                } else {
                    spec_record_failure(m.ledger, handle)
                };
                let done = LoopModel { processing: m.processing.remove(i), ledger, ..m };
                if done.pending.len() > 0 {
                    (
                        LoopModel {
                            pending: done.pending.drop_first(),
                            processing: done.processing.push(done.pending[0]),
                            ..done
                        },
                        ConsumerAction::Process { handle: done.pending[0] },
                    )
                } else {
                    (done, ConsumerAction::Wait)
                }
            } else {
                (m, ConsumerAction::Wait)
            }
        },
    }
}

/// The consumer loop's state: the phase, the permit gate, the queue of
/// deliveries waiting for a permit, the handles processing now, and the
/// acknowledgment ledger.
pub struct ConsumerLoop {
    phase: Phase,
    batch_size: usize,
    expiry_secs: u64,
    gate: ConcurrencyGate,
    permits: Vec<Permit>,
    pending: Vec<u64>,
    processing: Vec<u64>,
    ledger: AckLedger,
}

impl View for ConsumerLoop {
    type V = LoopModel;

    closed spec fn view(&self) -> LoopModel {
        LoopModel {
            phase: self.phase,
            capacity: self.gate.capacity(),
            batch_size: self.batch_size,
            expiry_secs: self.expiry_secs,
            pending: self.pending@,
            processing: self.processing@,
            ledger: self.ledger@,
        }
    }
}

impl ConsumerLoop {
    /// The state is consistent and the model invariant holds.
    pub closed spec fn wf(&self) -> bool {
        &&& self.gate.wf()
        &&& self.gate.outstanding() == self.processing@.len()
        &&& self.permits@.len() == self.processing@.len()
        &&& forall|i: int| 0 <= i < self.permits@.len() ==> self.permits@[i].live()
        &&& self@.wf()
    }

    pub fn new(batch_size: usize, expiry_secs: u64, max_concurrent: usize) -> (c: ConsumerLoop)
        requires
            max_concurrent > 0,
        ensures
            c.wf(),
            c@.phase is Idle,
            c@.capacity == max_concurrent,
            c@.batch_size == batch_size,
            c@.expiry_secs == expiry_secs,
            c@.pending =~= Seq::<u64>::empty(),
            c@.processing =~= Seq::<u64>::empty(),
            c@.ledger.acked =~= Seq::<u64>::empty(),
            c@.ledger.failed =~= Seq::<u64>::empty(),
    {
        ConsumerLoop {
            phase: Phase::Idle,
            batch_size,
            expiry_secs,
            gate: ConcurrencyGate::new(max_concurrent),
            permits: Vec::new(),
            pending: Vec::new(),
            processing: Vec::new(),
            ledger: AckLedger::new(),
        }
    }

    /// How many messages are processing right now; never more than the
    /// configured bound.
    pub fn in_flight(&self) -> (n: usize)
        requires
            self.wf(),
        ensures
            n == self@.processing.len(),
            n <= self@.capacity,
    {
        self.processing.len()
    }

    /// How many messages have been successfully acknowledged.
    pub fn acked_count(&self) -> (n: usize)
        ensures
            n == self@.ledger.acked.len(),
    {
        self.ledger.acked_count()
    }

    /// How many acknowledgment failures have been logged.
    pub fn ack_failure_count(&self) -> (n: usize)
        ensures
            n == self@.ledger.failed.len(),
    {
        self.ledger.failed_count()
    }

    /// Whether this delivery handle was counted as successfully
    /// acknowledged.
    pub fn was_acked(&self, handle: u64) -> (r: bool)
        ensures
            r == self@.ledger.acked.contains(handle),
    {
        self.ledger.was_acked(handle)
    }

    /// Advances the loop by one event and says what to do next, exactly as
    /// [`spec_step`] describes.
    pub fn step(&mut self, event: ConsumerEvent) -> (action: ConsumerAction)
        requires
            old(self).wf(),
        ensures
            final(self).wf(),
            final(self)@ == spec_step(old(self)@, event).0,
            action == spec_step(old(self)@, event).1,
    {
        match event {
            ConsumerEvent::Start => {
                if self.phase == Phase::Idle {
                    self.phase = Phase::Provisioning;
                    proof {
                        assert(final(self)@ =~= spec_step(old(self)@, event).0);
                    }
                    ConsumerAction::Provision
                } else {
                    ConsumerAction::Wait
                }
            },
            ConsumerEvent::Provisioned => {
                if self.phase == Phase::Provisioning {
                    self.phase = Phase::Pulling;
                    proof {
                        assert(final(self)@ =~= spec_step(old(self)@, event).0);
                    }
                    ConsumerAction::Pull {
                        max_messages: self.batch_size,
                        expiry_secs: self.expiry_secs,
                    }
                } else {
                    ConsumerAction::Wait
                }
            },
            ConsumerEvent::ProvisionFailed => {
                if self.phase == Phase::Provisioning {
                    self.phase = Phase::Failed;
                    proof {
                        assert(final(self)@ =~= spec_step(old(self)@, event).0);
                    }
                    ConsumerAction::Halt
                } else {
                    ConsumerAction::Wait
                }
            },
            ConsumerEvent::Delivered { handle } => {
                if self.phase == Phase::Pulling || self.phase == Phase::Dispatching {
                    self.phase = Phase::Dispatching;
                    match self.gate.try_acquire() {
                        Some(permit) => {
                            self.permits.push(permit);
                            self.processing.push(handle);
                            proof {
                                assert(final(self)@ =~= spec_step(old(self)@, event).0);
                            }
                            ConsumerAction::Process { handle }
                        },
                        None => {
                            self.pending.push(handle);
                            proof {
                                assert(final(self)@ =~= spec_step(old(self)@, event).0);
                            }
                            ConsumerAction::Wait
                        },
                    }
                } else {
                    ConsumerAction::Wait
                }
            },
            ConsumerEvent::BatchClosed => {
                if self.phase == Phase::Pulling || self.phase == Phase::Dispatching {
                    self.phase = Phase::Pulling;
                    proof {
                        assert(final(self)@ =~= spec_step(old(self)@, event).0);
                    }
                    ConsumerAction::Pull {
                        max_messages: self.batch_size,
                        expiry_secs: self.expiry_secs,
                    }
                } else {
                    ConsumerAction::Wait
                }
            },
            ConsumerEvent::PullFailed => {
                if self.phase == Phase::Pulling || self.phase == Phase::Dispatching {
                    self.phase = Phase::Pulling;
                    proof {
                        assert(final(self)@ =~= spec_step(old(self)@, event).0);
                    }
                    ConsumerAction::Pull {
                        max_messages: self.batch_size,
                        expiry_secs: self.expiry_secs,
                    }
                } else {
                    ConsumerAction::Wait
                }
            },
            ConsumerEvent::Finished { handle, acked } => {
                proof {
                    lemma_first_index_of(self.processing@, handle);
                }
                let n = self.processing.len();
                let mut i: usize = 0;
                let mut found = false;
                while i < n && !found
                    invariant
                        i <= n,
                        n == self.processing@.len(),
                        found ==> i < n && self.processing@[i as int] == handle && (forall|j: int|
                            0 <= j < i ==> self.processing@[j] != handle),
                        !found ==> forall|j: int| 0 <= j < i ==> self.processing@[j] != handle,
                    decreases n - i + (if found { 0int } else { 1int }),
                {
                    if self.processing[i] == handle {
                        found = true;
                    } else {
                        i = i + 1;
                    }
                }
                if found {
                    proof {
                        assert(first_index_of(self.processing@, handle) == i);
                    }
                    self.processing.remove(i);
                    let mut permit = self.permits.remove(i);
                    self.gate.release(&mut permit);
                    if acked {
                        self.ledger.record_success(handle);
                    } else {
                        self.ledger.record_failure(handle);
                    }
                    if self.pending.len() > 0 {
                        let next = self.pending.remove(0);
                        match self.gate.try_acquire() {
                            Some(next_permit) => {
                                self.permits.push(next_permit);
                                self.processing.push(next);
                                proof {
                                    assert(final(self)@ =~= spec_step(old(self)@, event).0);
                                }
                                ConsumerAction::Process { handle: next }
                            },
                            None => {
                                proof {
                                    assert(false);
                                }
                                ConsumerAction::Wait
                            },
                        }
                    } else {
                        proof {
                            assert(final(self)@ =~= spec_step(old(self)@, event).0);
                        }
                        ConsumerAction::Wait
                    }
                } else {
                    proof {
                        assert(first_index_of(self.processing@, handle) == -1);
                    }
                    ConsumerAction::Wait
                }
            },
        }
    }
}

/// Bounded concurrency, for every execution: from any consistent state, one
/// step keeps the number of concurrently processing messages within the
/// configured bound.
pub proof fn lemma_step_bounds_concurrency(m: LoopModel, event: ConsumerEvent)
    requires
        m.wf(),
    ensures
        spec_step(m, event).0.wf(),
        spec_step(m, event).0.processing.len() <= m.capacity,
        spec_step(m, event).0.capacity == m.capacity,
{
    if let ConsumerEvent::Finished { handle, acked } = event {
        let i = first_index_of(m.processing, handle);
        lemma_first_index_of(m.processing, handle);
        if i >= 0 {
            if acked && !m.ledger.acked.contains(handle) {
                assert(no_dups(m.ledger.acked.push(handle))) by {
                    let a = m.ledger.acked;
                    assert forall|p: int, q: int|
                        0 <= p < q < a.push(handle).len() implies a.push(handle)[p] != a.push(
                        handle,
                    )[q] by {
                        if q < a.len() {
                        } else {
                            assert(a.push(handle)[q] == handle);
                            assert(a.push(handle)[p] == a[p]);
                            assert(!a.contains(handle));
                            assert(a[p] != handle);
                        }
                    }
                }
            }
        }
    }
}

/// The terminal state is isolated: `Failed` is entered only from
/// `Provisioning`, and only on a provisioning failure. Every other error
/// returns the loop to `Pulling`.
pub proof fn lemma_failed_only_from_provisioning(m: LoopModel, event: ConsumerEvent)
    ensures
        spec_step(m, event).0.phase is Failed ==> (m.phase is Failed || (m.phase is Provisioning
            && event is ProvisionFailed)),
{
}

/// Empty-stream behavior: a batch that closes while the loop is pulling —
/// in particular a batch that expired empty — changes nothing and the very
/// next action is another pull, with the same bound and expiry.
pub proof fn lemma_empty_batch_repulls(m: LoopModel)
    requires
        m.phase is Pulling,
    ensures
        spec_step(m, ConsumerEvent::BatchClosed).0 == m,
        spec_step(m, ConsumerEvent::BatchClosed).1 == (ConsumerAction::Pull {
            max_messages: m.batch_size,
            expiry_secs: m.expiry_secs,
        }),
{
    assert(spec_step(m, ConsumerEvent::BatchClosed).0 =~= m);
}

} // verus!
