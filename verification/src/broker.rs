//! An exact model of the broker interaction: named streams with
//! subject-pattern routing and bounded retention, durable pull consumers
//! with a delivery cursor, publishing, bounded pulls and acknowledgment.
//!
//! Provisioning is idempotent: declaring a stream or a durable consumer
//! twice never creates a duplicate, and an identical re-declaration never
//! fails. A published message is appended exactly to the streams whose
//! pattern matches its subject.

use vstd::prelude::*;

use crate::processor::no_dups;
use crate::stream::{
    ConsumerSpec, ConsumerSpecModel, EnvelopeModel, Message, MessageModel, ProvisioningError,
    PublishEnvelope, PublishError, StreamSpec, StreamSpecModel,
};
use crate::subject::{spec_subject_matches, subject_matches};

verus! {

/// A durable consumer: its declaration, the sequence number of the next
/// message to deliver, and the handles acknowledged so far.
pub struct ConsumerState {
    spec: ConsumerSpec,
    next_deliver: u64,
    acked: Vec<u64>,
}

/// A consumer as its model.
#[verifier::ext_equal]
pub struct ConsumerStateModel {
    pub spec: ConsumerSpecModel,
    pub next_deliver: u64,
    pub acked: Seq<u64>,
}

impl View for ConsumerState {
    type V = ConsumerStateModel;

    closed spec fn view(&self) -> ConsumerStateModel {
        ConsumerStateModel {
            spec: self.spec@,
            next_deliver: self.next_deliver,
            acked: self.acked@,
        }
    }
}

/// A stream: its declaration, the next sequence number to assign, the
/// retained messages in ascending sequence order, and its consumers.
pub struct StreamState {
    spec: StreamSpec,
    next_seq: u64,
    messages: Vec<Message>,
    consumers: Vec<ConsumerState>,
}

/// A stream as its model.
#[verifier::ext_equal]
pub struct StreamStateModel {
    pub spec: StreamSpecModel,
    pub next_seq: u64,
    pub messages: Seq<MessageModel>,
    pub consumers: Seq<ConsumerStateModel>,
}

impl View for StreamState {
    type V = StreamStateModel;

    closed spec fn view(&self) -> StreamStateModel {
        StreamStateModel {
            spec: self.spec@,
            next_seq: self.next_seq,
            messages: self.messages@.map_values(|m: Message| m@),
            consumers: self.consumers@.map_values(|c: ConsumerState| c@),
        }
    }
}

/// The well-formedness of one stream: sequences start at 1, every retained
/// message has a sequence below the next to assign, retention keeps
/// messages in strictly ascending sequence order and within the declared
/// bound, and acknowledgment sets hold no duplicates.
pub open spec fn stream_wf(s: StreamStateModel) -> bool {
    &&& s.next_seq >= 1
    &&& s.spec.max_messages >= 1
    &&& s.messages.len() <= s.spec.max_messages
    &&& forall|i: int| 0 <= i < s.messages.len() ==> s.messages[i].handle < s.next_seq
    &&& forall|i: int, j: int|
        0 <= i < j < s.messages.len() ==> s.messages[i].handle < s.messages[j].handle
    &&& forall|k: int| 0 <= k < s.consumers.len() ==> no_dups(s.consumers[k].acked)
}

/// The well-formedness of the broker: every stream is well-formed and
/// stream names are unique — there are never two streams of one name.
pub open spec fn broker_wf(b: Seq<StreamStateModel>) -> bool {
    &&& forall|i: int| 0 <= i < b.len() ==> stream_wf(#[trigger] b[i])
    &&& forall|i: int, j: int| 0 <= i < j < b.len() ==> b[i].spec.name != b[j].spec.name
}

/// The position of the first stream of this name, or -1 when none exists.
pub open spec fn spec_find_stream(b: Seq<StreamStateModel>, name: Seq<char>) -> int
    decreases b.len(),
{
    if b.len() == 0 {
        -1
    } else if b[0].spec.name == name {
        0
    } else {
        let r = spec_find_stream(b.drop_first(), name);
        if r < 0 {
            -1
        } else {
            r + 1
        }
    }
}

pub proof fn lemma_find_stream(b: Seq<StreamStateModel>, name: Seq<char>)
    ensures
        spec_find_stream(b, name) == -1 <==> (forall|i: int|
            0 <= i < b.len() ==> b[i].spec.name != name),
        spec_find_stream(b, name) >= 0 ==> 0 <= spec_find_stream(b, name) < b.len() && b[
            spec_find_stream(b, name)
        ].spec.name == name && (forall|i: int|
            0 <= i < spec_find_stream(b, name) ==> b[i].spec.name != name),
    decreases b.len(),
{
    if b.len() == 0 {
    } else if b[0].spec.name == name {
    } else {
        lemma_find_stream(b.drop_first(), name);
        assert(forall|i: int| 1 <= i < b.len() ==> b[i] == b.drop_first()[i - 1]);
    }
}

/// The position of the first consumer of this durable name, or -1.
pub open spec fn spec_find_consumer(cs: Seq<ConsumerStateModel>, durable: Seq<char>) -> int
    decreases cs.len(),
{
    if cs.len() == 0 {
        -1
    } else if cs[0].spec.durable_name == durable {
        0
    } else {
        let r = spec_find_consumer(cs.drop_first(), durable);
        if r < 0 {
            -1
        } else {
            r + 1
        }
    }
}

pub proof fn lemma_find_consumer(cs: Seq<ConsumerStateModel>, durable: Seq<char>)
    ensures
        spec_find_consumer(cs, durable) == -1 <==> (forall|i: int|
            0 <= i < cs.len() ==> cs[i].spec.durable_name != durable),
        spec_find_consumer(cs, durable) >= 0 ==> 0 <= spec_find_consumer(cs, durable) < cs.len()
            && cs[spec_find_consumer(cs, durable)].spec.durable_name == durable && (forall|i: int|
            0 <= i < spec_find_consumer(cs, durable) ==> cs[i].spec.durable_name != durable),
    decreases cs.len(),
{
    if cs.len() == 0 {
    } else if cs[0].spec.durable_name == durable {
    } else {
        lemma_find_consumer(cs.drop_first(), durable);
        assert(forall|i: int| 1 <= i < cs.len() ==> cs[i] == cs.drop_first()[i - 1]);
    }
}

/// An existing stream accepts a re-declaration exactly when the subject
/// pattern and the retention bound agree.
pub open spec fn stream_compatible(have: StreamSpecModel, want: StreamSpecModel) -> bool {
    have.subject_pattern == want.subject_pattern && have.max_messages == want.max_messages
}

/// A freshly created stream: no messages, no consumers, sequence 1 next.
pub open spec fn spec_new_stream(spec: StreamSpecModel) -> StreamStateModel {
    StreamStateModel {
        spec,
        next_seq: 1,
        messages: Seq::empty(),
        consumers: Seq::empty(),
    }
}

/// What ensuring a stream does: attach to a compatible stream of the same
/// name, refuse an incompatible one without touching it, or create it.
pub open spec fn spec_ensure_stream(b: Seq<StreamStateModel>, spec: StreamSpecModel) -> (
    Seq<StreamStateModel>,
    Result<int, ProvisioningError>,
) {
    let i = spec_find_stream(b, spec.name);
    if i >= 0 {
        if stream_compatible(b[i].spec, spec) {
            (b, Ok(i))
        } else {
            (b, Err(ProvisioningError::Incompatible))
        }
    } else {
        (b.push(spec_new_stream(spec)), Ok(b.len() as int))
    }
}

/// What ensuring a durable consumer does: attach to the consumer of the
/// same durable name, or create one whose cursor starts at the earliest
/// retained message.
pub open spec fn spec_ensure_consumer(s: StreamStateModel, spec: ConsumerSpecModel) -> (
    StreamStateModel,
    int,
) {
    let i = spec_find_consumer(s.consumers, spec.durable_name);
    if i >= 0 {
        (s, i)
    } else {
        let cursor = if s.messages.len() > 0 {
            s.messages[0].handle
        } else {
            s.next_seq
        };
        (
            StreamStateModel {
                consumers: s.consumers.push(
                    ConsumerStateModel { spec, next_deliver: cursor, acked: Seq::empty() },
                ),
                ..s
            },
            s.consumers.len() as int,
        )
    }
}

/// What one publish does to one stream: when the pattern matches the
/// subject, the message is appended under the next sequence number and the
/// oldest message is dropped if the retention bound is reached; otherwise
/// the stream is untouched.
pub open spec fn spec_deliver(s: StreamStateModel, env: EnvelopeModel) -> StreamStateModel {
    if spec_subject_matches(s.spec.subject_pattern, env.subject) {
        let msg = MessageModel {
            subject: env.subject,
            payload: env.payload,
            headers: env.headers,
            handle: s.next_seq,
        };
        let retained = if s.messages.len() >= s.spec.max_messages {
            s.messages.drop_first().push(msg)
        } else {
            s.messages.push(msg)
        };
        StreamStateModel { next_seq: (s.next_seq + 1) as u64, messages: retained, ..s }
    } else {
        s
    }
}

/// What one publish does to the whole broker.
pub open spec fn spec_publish(b: Seq<StreamStateModel>, env: EnvelopeModel) -> Seq<
    StreamStateModel,
> {
    Seq::new(b.len(), |i: int| spec_deliver(b[i], env))
}

/// The first retained position whose sequence has not been delivered to
/// this cursor yet; the length when everything was delivered.
pub open spec fn spec_deliverable_start(msgs: Seq<MessageModel>, cursor: u64) -> int
    decreases msgs.len(),
{
    if msgs.len() == 0 {
        0
    } else if msgs[0].handle >= cursor {
        0
    } else {
        1 + spec_deliverable_start(msgs.drop_first(), cursor)
    }
}

pub proof fn lemma_deliverable_start(msgs: Seq<MessageModel>, cursor: u64)
    requires
        forall|i: int, j: int| 0 <= i < j < msgs.len() ==> msgs[i].handle < msgs[j].handle,
    ensures
        0 <= spec_deliverable_start(msgs, cursor) <= msgs.len(),
        forall|i: int| 0 <= i < spec_deliverable_start(msgs, cursor) ==> msgs[i].handle < cursor,
        forall|i: int|
            spec_deliverable_start(msgs, cursor) <= i < msgs.len() ==> msgs[i].handle >= cursor,
    decreases msgs.len(),
{
    if msgs.len() == 0 {
    } else if msgs[0].handle >= cursor {
        assert(forall|i: int| 0 < i < msgs.len() ==> msgs[0].handle < #[trigger] msgs[i].handle);
    } else {
        lemma_deliverable_start(msgs.drop_first(), cursor);
        assert(forall|i: int| 1 <= i < msgs.len() ==> msgs[i] == msgs.drop_first()[i - 1]);
    }
}

/// What one bounded pull does to one consumer: it takes the next
/// deliverable messages, at most `max` of them, and moves the cursor past
/// the last one taken. An empty stream gives an empty batch and moves
/// nothing.
pub open spec fn spec_pull(s: StreamStateModel, c: ConsumerStateModel, max: usize) -> (
    ConsumerStateModel,
    Seq<MessageModel>,
) {
    let start = spec_deliverable_start(s.messages, c.next_deliver);
    let count = if s.messages.len() - start <= max {
        s.messages.len() - start
    } else {
        max as int
    };
    let batch = s.messages.subrange(start, start + count);
    if batch.len() > 0 {
        (
            ConsumerStateModel { next_deliver: (batch.last().handle + 1) as u64, ..c },
            batch,
        )
    } else {
        (c, batch)
    }
}

/// What acknowledging one handle does: it is recorded at most once.
pub open spec fn spec_ack(c: ConsumerStateModel, handle: u64) -> ConsumerStateModel {
    if c.acked.contains(handle) {
        c
    } else {
        ConsumerStateModel { acked: c.acked.push(handle), ..c }
    }
}

/// The broker: the declared streams.
pub struct Broker {
    streams: Vec<StreamState>,
}

impl View for Broker {
    type V = Seq<StreamStateModel>;

    closed spec fn view(&self) -> Seq<StreamStateModel> {
        self.streams@.map_values(|s: StreamState| s@)
    }
}

impl Broker {
    pub fn new() -> (b: Broker)
        ensures
            b@ =~= Seq::<StreamStateModel>::empty(),
            broker_wf(b@),
    {
        Broker { streams: Vec::new() }
    }

    /// How many streams are declared.
    pub fn stream_count(&self) -> (n: usize)
        ensures
            n == self@.len(),
    {
        self.streams.len()
    }

    /// How many messages a stream retains.
    pub fn message_count(&self, stream_idx: usize) -> (n: usize)
        requires
            stream_idx < self@.len(),
        ensures
            n == self@[stream_idx as int].messages.len(),
    {
        self.streams[stream_idx].messages.len()
    }

    /// How many consumers a stream has.
    pub fn consumer_count(&self, stream_idx: usize) -> (n: usize)
        requires
            stream_idx < self@.len(),
        ensures
            n == self@[stream_idx as int].consumers.len(),
    {
        self.streams[stream_idx].consumers.len()
    }

    /// How many handles a consumer has acknowledged.
    pub fn acked_count(&self, stream_idx: usize, consumer_idx: usize) -> (n: usize)
        requires
            stream_idx < self@.len(),
            consumer_idx < self@[stream_idx as int].consumers.len(),
        ensures
            n == self@[stream_idx as int].consumers[consumer_idx as int].acked.len(),
    {
        self.streams[stream_idx].consumers[consumer_idx].acked.len()
    }

    /// Idempotently ensures a named stream exists with the given subject
    /// pattern and retention bound. An existing compatible stream is
    /// attached to with nothing altered; an incompatible one is refused
    /// untouched; otherwise the stream is created.
    pub fn ensure_stream(&mut self, spec: &StreamSpec) -> (r: Result<usize, ProvisioningError>)
        requires
            broker_wf(old(self)@),
            spec@.name.len() > 0,
            spec.max_messages >= 1,
        ensures
            broker_wf(final(self)@),
            final(self)@ == spec_ensure_stream(old(self)@, spec@).0,
            match r {
                Ok(i) => spec_ensure_stream(old(self)@, spec@).1 == Ok::<int, ProvisioningError>(
                    i as int,
                ),
                Err(e) => spec_ensure_stream(old(self)@, spec@).1 == Err::<int, ProvisioningError>(
                    e,
                ),
            },
    {
        let ghost b0 = self@;
        let n = self.streams.len();
        let mut i: usize = 0;
        while i < n
            invariant
                i <= n,
                b0 == old(self)@,
                self.streams@ == old(self).streams@,
                self@ == b0,
                n == self.streams@.len(),
                broker_wf(b0),
                forall|j: int| 0 <= j < i ==> b0[j].spec.name != spec@.name,
            decreases n - i,
        {
            assert(b0[i as int] == self.streams@[i as int]@);
            if self.streams[i].spec.name == spec.name {
                if self.streams[i].spec.subject_pattern == spec.subject_pattern
                    && self.streams[i].spec.max_messages == spec.max_messages {
                    proof {
                        lemma_find_stream(b0, spec@.name);
                        assert(spec_find_stream(b0, spec@.name) == i);
                    }
                    return Ok(i);
                } else {
                    proof {
                        lemma_find_stream(b0, spec@.name);
                        assert(spec_find_stream(b0, spec@.name) == i);
                    }
                    return Err(ProvisioningError::Incompatible);
                }
            }
            i = i + 1;
        }
        proof {
            lemma_find_stream(b0, spec@.name);
            assert(spec_find_stream(b0, spec@.name) == -1);
        }
        let created = StreamState {
            spec: spec.clone(),
            next_seq: 1,
            messages: Vec::new(),
            consumers: Vec::new(),
        };
        assert(created@ =~= spec_new_stream(spec@));
        self.streams.push(created);
        proof {
            assert(final(self)@ =~= spec_ensure_stream(b0, spec@).0);
            assert(stream_wf(spec_new_stream(spec@)));
            let bf = final(self)@;
            assert forall|p: int, q: int|
                0 <= p < q < bf.len() implies bf[p].spec.name != bf[q].spec.name by {
                if q < b0.len() {
                } else {
                    assert(bf[q] == spec_new_stream(spec@));
                }
            }
        }
        Ok(n)
    }

    /// Idempotently ensures a durable pull consumer on a stream. The
    /// durable name is the sole identity: asking again returns the same
    /// consumer, never a duplicate.
    pub fn ensure_consumer(&mut self, stream_idx: usize, spec: &ConsumerSpec) -> (idx: usize)
        requires
            broker_wf(old(self)@),
            stream_idx < old(self)@.len(),
        ensures
            broker_wf(final(self)@),
            final(self)@ == old(self)@.update(
                stream_idx as int,
                spec_ensure_consumer(old(self)@[stream_idx as int], spec@).0,
            ),
            idx == spec_ensure_consumer(old(self)@[stream_idx as int], spec@).1,
            idx < final(self)@[stream_idx as int].consumers.len(),
    {
        let ghost b0 = self@;
        let ghost cs0 = b0[stream_idx as int].consumers;
        proof {
            assert(b0[stream_idx as int] == self.streams@[stream_idx as int]@);
        }
        let n = self.streams[stream_idx].consumers.len();
        let mut i: usize = 0;
        while i < n
            invariant
                i <= n,
                b0 == old(self)@,
                self.streams@ == old(self).streams@,
                self@ == b0,
                stream_idx < self.streams@.len(),
                cs0 == b0[stream_idx as int].consumers,
                b0[stream_idx as int] == self.streams@[stream_idx as int]@,
                n == cs0.len(),
                broker_wf(b0),
                forall|j: int| 0 <= j < i ==> cs0[j].spec.durable_name != spec@.durable_name,
            decreases n - i,
        {
            assert(cs0[i as int] == self.streams@[stream_idx as int].consumers@[i as int]@);
            if self.streams[stream_idx].consumers[i].spec.durable_name == spec.durable_name {
                proof {
                    lemma_find_consumer(cs0, spec@.durable_name);
                    assert(spec_find_consumer(cs0, spec@.durable_name) == i);
                    assert(b0.update(
                        stream_idx as int,
                        spec_ensure_consumer(b0[stream_idx as int], spec@).0,
                    ) =~= b0);
                }
                return i;
            }
            i = i + 1;
        }
        proof {
            lemma_find_consumer(cs0, spec@.durable_name);
            assert(spec_find_consumer(cs0, spec@.durable_name) == -1);
        }
        let cursor = if self.streams[stream_idx].messages.len() > 0 {
            assert(b0[stream_idx as int].messages[0] == self.streams@[stream_idx
                as int].messages@[0]@);
            self.streams[stream_idx].messages[0].handle
        } else {
            self.streams[stream_idx].next_seq
        };
        let mut s = self.streams.remove(stream_idx);
        let consumer = ConsumerState { spec: spec.clone(), next_deliver: cursor, acked: Vec::new() };
        s.consumers.push(consumer);
        self.streams.insert(stream_idx, s);
        proof {
            assert(self.streams@ =~= old(self).streams@.update(
                stream_idx as int,
                self.streams@[stream_idx as int],
            ));
            assert(final(self)@[stream_idx as int] =~= spec_ensure_consumer(
                b0[stream_idx as int],
                spec@,
            ).0);
            assert(final(self)@ =~= b0.update(
                stream_idx as int,
                spec_ensure_consumer(b0[stream_idx as int], spec@).0,
            ));
            let su = final(self)@[stream_idx as int];
            assert(stream_wf(su)) by {
                assert forall|k: int| 0 <= k < su.consumers.len() implies no_dups(
                    su.consumers[k].acked,
                ) by {
                    if k < cs0.len() {
                        assert(su.consumers[k] == cs0[k]);
                    } else {
                        assert(su.consumers[k].acked =~= Seq::<u64>::empty());
                    }
                }
            }
            assert(broker_wf(final(self)@));
        }
        n
    }

    /// Applies one publish to one stream, as [`spec_deliver`] says.
    fn deliver(s: StreamState, env: &PublishEnvelope) -> (r: (StreamState, bool))
        requires
            stream_wf(s@),
            s@.next_seq < u64::MAX,
        ensures
            r.0@ == spec_deliver(s@, env@),
            r.1 == spec_subject_matches(s@.spec.subject_pattern, env@.subject),
            stream_wf(r.0@),
    {
        let ghost s0 = s@;
        let matched = subject_matches(s.spec.subject_pattern.as_str(), env.subject.as_str());
        if matched {
            let mut s = s;
            let msg = Message {
                subject: env.subject.clone(),
                payload: vstd::slice::slice_to_vec(env.payload.as_slice()),
                headers: crate::stream::clone_headers(&env.headers),
                handle: s.next_seq,
            };
            assert(msg@ =~= (MessageModel {
                subject: env@.subject,
                payload: env@.payload,
                headers: env@.headers,
                handle: s0.next_seq,
            }));
            if s.messages.len() >= s.spec.max_messages {
                s.messages.remove(0);
                proof {
                    assert(s.messages@.map_values(|m: Message| m@) =~= s0.messages.drop_first());
                }
            }
            s.messages.push(msg);
            s.next_seq = s.next_seq + 1;
            proof {
                assert(s@ =~= spec_deliver(s0, env@));
                let sd = spec_deliver(s0, env@);
                assert(stream_wf(sd)) by {
                    assert(forall|i: int| 0 <= i < sd.messages.len() - 1 ==> sd.messages[i]
                        == if s0.messages.len() >= s0.spec.max_messages {
                            s0.messages[i + 1]
                        } else {
                            s0.messages[i]
                        });
                    assert(sd.messages.last().handle == s0.next_seq);
                }
            }
            (s, true)
        } else {
            (s, false)
        }
    }

    /// Publishes one envelope: every stream whose pattern matches the
    /// subject receives the message; no other stream changes. Succeeds
    /// exactly when at least one stream matched.
    pub fn publish(&mut self, env: &PublishEnvelope) -> (r: Result<(), PublishError>)
        requires
            broker_wf(old(self)@),
            forall|i: int| 0 <= i < old(self)@.len() ==> #[trigger] old(self)@[i].next_seq
                < u64::MAX,
        ensures
            broker_wf(final(self)@),
            final(self)@ == spec_publish(old(self)@, env@),
            r is Ok <==> exists|i: int|
                0 <= i < old(self)@.len() && spec_subject_matches(
                    #[trigger] old(self)@[i].spec.subject_pattern,
                    env@.subject,
                ),
    {
        let ghost b0 = self@;
        let n = self.streams.len();
        let mut i: usize = 0;
        let mut matched = false;
        while i < n
            invariant
                i <= n,
                b0 == old(self)@,
                broker_wf(b0),
                forall|k: int| 0 <= k < b0.len() ==> #[trigger] b0[k].next_seq < u64::MAX,
                n == self.streams@.len(),
                self@.len() == b0.len(),
                forall|j: int| 0 <= j < i ==> self@[j] == spec_deliver(b0[j], env@),
                forall|j: int| 0 <= j < i ==> stream_wf(#[trigger] self@[j]),
                forall|j: int| i <= j < n ==> self@[j] == b0[j],
                matched <==> exists|j: int|
                    0 <= j < i && spec_subject_matches(
                        #[trigger] b0[j].spec.subject_pattern,
                        env@.subject,
                    ),
            decreases n - i,
        {
            let ghost vs_pre = self.streams@;
            let ghost m_pre = self@;
            let s = self.streams.remove(i);
            assert(s@ == b0[i as int]);
            let (s2, m) = Self::deliver(s, env);
            self.streams.insert(i, s2);
            proof {
                assert(self.streams@ =~= vs_pre.update(i as int, self.streams@[i as int]));
                assert(self@[i as int] == spec_deliver(b0[i as int], env@));
                assert(stream_wf(self@[i as int]));
                assert forall|j: int| 0 <= j <= i implies self@[j] == spec_deliver(
                    b0[j],
                    env@,
                ) && stream_wf(#[trigger] self@[j]) by {
                    if j < i {
                        assert(self.streams@[j] == vs_pre[j]);
                        assert(self@[j] == self.streams@[j]@);
                        assert(m_pre[j] == vs_pre[j]@);
                        assert(m_pre[j] == spec_deliver(b0[j], env@));
                        assert(stream_wf(m_pre[j]));
                    }
                }
                assert forall|j: int| i < j < n implies self@[j] == b0[j] by {
                    assert(self.streams@[j] == vs_pre[j]);
                    assert(self@[j] == self.streams@[j]@);
                    assert(m_pre[j] == vs_pre[j]@);
                    assert(m_pre[j] == b0[j]);
                }
            }
            if m {
                matched = true;
            }
            i = i + 1;
        }
        proof {
            assert(final(self)@ =~= spec_publish(b0, env@));
            assert(broker_wf(final(self)@)) by {
                assert(forall|p: int| 0 <= p < b0.len() ==> (#[trigger] spec_publish(
                    b0,
                    env@,
                )[p]).spec == b0[p].spec);
            }
        }
        if matched {
            Ok(())
        } else {
            Err(PublishError::NoMatchingStream)
        }
    }

    /// Pulls a bounded batch for one durable consumer: the next deliverable
    /// messages, at most `max_messages` of them; the cursor moves past the
    /// last one taken. On an empty stream the batch is empty and nothing
    /// moves, and the caller re-issues the pull at once.
    pub fn pull_batch(
        &mut self,
        stream_idx: usize,
        consumer_idx: usize,
        max_messages: usize,
    ) -> (batch: Vec<Message>)
        requires
            broker_wf(old(self)@),
            stream_idx < old(self)@.len(),
            consumer_idx < old(self)@[stream_idx as int].consumers.len(),
        ensures
            broker_wf(final(self)@),
            ({
                let s0 = old(self)@[stream_idx as int];
                let c0 = s0.consumers[consumer_idx as int];
                &&& final(self)@ == old(self)@.update(
                    stream_idx as int,
                    (StreamStateModel {
                        consumers: s0.consumers.update(
                            consumer_idx as int,
                            spec_pull(s0, c0, max_messages).0,
                        ),
                        ..s0
                    }),
                )
                &&& batch@.map_values(|m: Message| m@) == spec_pull(s0, c0, max_messages).1
            }),
    {
        let ghost b0 = self@;
        let ghost s0 = b0[stream_idx as int];
        let ghost c0 = s0.consumers[consumer_idx as int];
        proof {
            assert(s0 == self.streams@[stream_idx as int]@);
            assert(c0 == self.streams@[stream_idx as int].consumers@[consumer_idx as int]@);
            lemma_deliverable_start(s0.messages, c0.next_deliver);
        }
        let cursor = self.streams[stream_idx].consumers[consumer_idx].next_deliver;
        let mlen = self.streams[stream_idx].messages.len();
        let mut start: usize = 0;
        while start < mlen && self.streams[stream_idx].messages[start].handle < cursor
            invariant
                start <= mlen,
                b0 == old(self)@,
                self@ == b0,
                self.streams@ == old(self).streams@,
                stream_idx < self.streams@.len(),
                s0 == self.streams@[stream_idx as int]@,
                mlen == s0.messages.len(),
                cursor == c0.next_deliver,
                forall|j: int| 0 <= j < start ==> s0.messages[j].handle < cursor,
            decreases mlen - start,
        {
            assert(s0.messages[start as int] == self.streams@[stream_idx as int].messages@[start
                as int]@);
            start = start + 1;
        }
        proof {
            assert(stream_wf(s0));
            lemma_deliverable_start(s0.messages, c0.next_deliver);
            let r = spec_deliverable_start(s0.messages, c0.next_deliver);
            if start < mlen {
                assert(s0.messages[start as int] == self.streams@[stream_idx
                    as int].messages@[start as int]@);
                assert(s0.messages[start as int].handle >= cursor);
            }
            if r < start {
                assert(s0.messages[r].handle < cursor);
                assert(s0.messages[r].handle >= cursor);
            }
            if r > start {
                assert(s0.messages[start as int].handle < cursor);
            }
            assert(r == start);
        }
        let count = if mlen - start <= max_messages {
            mlen - start
        } else {
            max_messages
        };
        let mut batch: Vec<Message> = Vec::new();
        let mut k: usize = 0;
        while k < count
            invariant
                k <= count,
                b0 == old(self)@,
                self@ == b0,
                self.streams@ == old(self).streams@,
                stream_idx < self.streams@.len(),
                s0 == self.streams@[stream_idx as int]@,
                mlen == s0.messages.len(),
                start + count <= mlen,
                batch@.len() == k,
                forall|j: int| 0 <= j < k ==> batch@[j]@ == s0.messages[start + j],
            decreases count - k,
        {
            assert(s0.messages[start + k] == self.streams@[stream_idx as int].messages@[(start + k)
                as int]@);
            let msg = self.streams[stream_idx].messages[start + k].clone();
            batch.push(msg);
            k = k + 1;
        }
        proof {
            assert(batch@.map_values(|m: Message| m@) =~= spec_pull(s0, c0, max_messages).1);
        }
        if count > 0 {
            let last_handle = batch[count - 1].handle;
            proof {
                assert(batch@[count - 1]@ == s0.messages[start + count - 1]);
                assert(s0.messages[start + count - 1].handle < s0.next_seq);
            }
            let mut s = self.streams.remove(stream_idx);
            let mut c = s.consumers.remove(consumer_idx);
            c.next_deliver = last_handle + 1;
            s.consumers.insert(consumer_idx, c);
            self.streams.insert(stream_idx, s);
            proof {
                assert(spec_pull(s0, c0, max_messages).1.last() == s0.messages[start + count - 1]);
                assert(final(self)@[stream_idx as int].consumers =~= s0.consumers.update(
                    consumer_idx as int,
                    spec_pull(s0, c0, max_messages).0,
                ));
                assert(final(self)@[stream_idx as int] =~= (StreamStateModel {
                    consumers: s0.consumers.update(
                        consumer_idx as int,
                        spec_pull(s0, c0, max_messages).0,
                    ),
                    ..s0
                }));
                assert(final(self)@ =~= b0.update(
                    stream_idx as int,
                    (StreamStateModel {
                        consumers: s0.consumers.update(
                            consumer_idx as int,
                            spec_pull(s0, c0, max_messages).0,
                        ),
                        ..s0
                    }),
                ));
                assert(broker_wf(final(self)@));
            }
        } else {
            proof {
                assert(spec_pull(s0, c0, max_messages).0 =~= c0);
                assert(s0.consumers.update(consumer_idx as int, c0) =~= s0.consumers);
                assert((StreamStateModel {
                    consumers: s0.consumers.update(consumer_idx as int, c0),
                    ..s0
                }) =~= s0);
                assert(b0.update(
                    stream_idx as int,
                    (StreamStateModel {
                        consumers: s0.consumers.update(consumer_idx as int, c0),
                        ..s0
                    }),
                ) =~= b0);
            }
        }
        batch
    }

    /// Acknowledges one delivery handle for one consumer. The handle is
    /// recorded at most once: acknowledging it again changes nothing.
    pub fn ack(&mut self, stream_idx: usize, consumer_idx: usize, handle: u64)
        requires
            broker_wf(old(self)@),
            stream_idx < old(self)@.len(),
            consumer_idx < old(self)@[stream_idx as int].consumers.len(),
        ensures
            broker_wf(final(self)@),
            ({
                let s0 = old(self)@[stream_idx as int];
                let c0 = s0.consumers[consumer_idx as int];
                final(self)@ == old(self)@.update(
                    stream_idx as int,
                    (StreamStateModel {
                        consumers: s0.consumers.update(consumer_idx as int, spec_ack(c0, handle)),
                        ..s0
                    }),
                )
            }),
    {
        let ghost b0 = self@;
        let ghost s0 = b0[stream_idx as int];
        let ghost c0 = s0.consumers[consumer_idx as int];
        proof {
            assert(s0 == self.streams@[stream_idx as int]@);
            assert(c0 == self.streams@[stream_idx as int].consumers@[consumer_idx as int]@);
        }
        let n = self.streams[stream_idx].consumers[consumer_idx].acked.len();
        let mut i: usize = 0;
        while i < n
            invariant
                i <= n,
                b0 == old(self)@,
                self@ == b0,
                self.streams@ == old(self).streams@,
                stream_idx < self.streams@.len(),
                consumer_idx < self.streams@[stream_idx as int].consumers@.len(),
                s0 == self.streams@[stream_idx as int]@,
                c0 == self.streams@[stream_idx as int].consumers@[consumer_idx as int]@,
                n == c0.acked.len(),
                broker_wf(b0),
                forall|j: int| 0 <= j < i ==> c0.acked[j] != handle,
            decreases n - i,
        {
            if self.streams[stream_idx].consumers[consumer_idx].acked[i] == handle {
                proof {
                    assert(c0.acked.contains(handle));
                    assert(spec_ack(c0, handle) =~= c0);
                    assert(s0.consumers.update(consumer_idx as int, c0) =~= s0.consumers);
                    assert((StreamStateModel {
                        consumers: s0.consumers.update(consumer_idx as int, c0),
                        ..s0
                    }) =~= s0);
                    assert(b0.update(
                        stream_idx as int,
                        (StreamStateModel {
                            consumers: s0.consumers.update(consumer_idx as int, c0),
                            ..s0
                        }),
                    ) =~= b0);
                }
                return ;
            }
            i = i + 1;
        }
        proof {
            assert(!c0.acked.contains(handle));
        }
        let mut s = self.streams.remove(stream_idx);
        let mut c = s.consumers.remove(consumer_idx);
        c.acked.push(handle);
        s.consumers.insert(consumer_idx, c);
        self.streams.insert(stream_idx, s);
        proof {
            assert(final(self)@[stream_idx as int].consumers =~= s0.consumers.update(
                consumer_idx as int,
                spec_ack(c0, handle),
            ));
            assert(final(self)@[stream_idx as int] =~= (StreamStateModel {
                consumers: s0.consumers.update(consumer_idx as int, spec_ack(c0, handle)),
                ..s0
            }));
            assert(final(self)@ =~= b0.update(
                stream_idx as int,
                (StreamStateModel {
                    consumers: s0.consumers.update(consumer_idx as int, spec_ack(c0, handle)),
                    ..s0
                }),
            ));
            let su = final(self)@[stream_idx as int];
            assert(stream_wf(su)) by {
                assert forall|k: int| 0 <= k < su.consumers.len() implies no_dups(
                    su.consumers[k].acked,
                ) by {
                    if k == consumer_idx {
                        let a = c0.acked;
                        assert forall|p: int, q: int|
                            0 <= p < q < a.push(handle).len() implies a.push(handle)[p] != a.push(
                            handle,
                        )[q] by {
                            if q < a.len() {
                            } else {
                                assert(a.push(handle)[q] == handle);
                                assert(a.push(handle)[p] == a[p]);
                                assert(!a.contains(handle));
                                assert(a[p] != handle);
                            }
                        }
                    } else {
                        assert(su.consumers[k] == s0.consumers[k]);
                    }
                }
            }
            assert(broker_wf(final(self)@));
        }
    }
}

/// Provisioning a stream is idempotent: declaring the same specification a
/// second time changes nothing and answers exactly as the first call did —
/// one logical stream, no duplicate, no new error.
pub proof fn lemma_ensure_stream_idempotent(b: Seq<StreamStateModel>, spec: StreamSpecModel)
    requires
        broker_wf(b),
    ensures
        spec_ensure_stream(spec_ensure_stream(b, spec).0, spec).0 == spec_ensure_stream(b, spec).0,
        spec_ensure_stream(spec_ensure_stream(b, spec).0, spec).1 == spec_ensure_stream(b, spec).1,
        spec_find_stream(b, spec.name) == -1 ==> spec_ensure_stream(b, spec).1 == Ok::<
            int,
            ProvisioningError,
        >(b.len() as int),
{
    lemma_find_stream(b, spec.name);
    let i = spec_find_stream(b, spec.name);
    if i >= 0 {
    } else {
        let b1 = b.push(spec_new_stream(spec));
        lemma_find_stream(b1, spec.name);
        assert(b1[b.len() as int].spec.name == spec.name);
        assert(forall|j: int| 0 <= j < b.len() ==> b1[j] == b[j]);
        assert(spec_find_stream(b1, spec.name) == b.len());
        assert(stream_compatible(b1[b.len() as int].spec, spec));
    }
}

/// Provisioning a durable consumer is idempotent: asking again under the
/// same durable name returns the same consumer and changes nothing.
pub proof fn lemma_ensure_consumer_idempotent(s: StreamStateModel, spec: ConsumerSpecModel)
    ensures
        spec_ensure_consumer(spec_ensure_consumer(s, spec).0, spec).0 == spec_ensure_consumer(
            s,
            spec,
        ).0,
        spec_ensure_consumer(spec_ensure_consumer(s, spec).0, spec).1 == spec_ensure_consumer(
            s,
            spec,
        ).1,
{
    lemma_find_consumer(s.consumers, spec.durable_name);
    let i = spec_find_consumer(s.consumers, spec.durable_name);
    if i >= 0 {
    } else {
        let s1 = spec_ensure_consumer(s, spec).0;
        lemma_find_consumer(s1.consumers, spec.durable_name);
        assert(s1.consumers[s.consumers.len() as int].spec.durable_name == spec.durable_name);
        assert(forall|j: int| 0 <= j < s.consumers.len() ==> s1.consumers[j] == s.consumers[j]);
        assert(spec_find_consumer(s1.consumers, spec.durable_name) == s.consumers.len());
    }
}

/// Subject routing: one publish appends the message, under the stream's
/// next sequence number, to exactly the streams whose pattern matches the
/// subject, and leaves every other stream untouched.
pub proof fn lemma_publish_delivery(b: Seq<StreamStateModel>, env: EnvelopeModel)
    requires
        broker_wf(b),
    ensures
        spec_publish(b, env).len() == b.len(),
        forall|i: int|
            0 <= i < b.len() ==> #[trigger] spec_publish(b, env)[i] == spec_deliver(b[i], env),
        forall|i: int|
            0 <= i < b.len() && spec_subject_matches(
                (#[trigger] spec_publish(b, env)[i]).spec.subject_pattern,
                env.subject,
            ) ==> spec_publish(b, env)[i].messages.len() > 0 && spec_publish(b, env)[i].messages.last()
                == (MessageModel {
                subject: env.subject,
                payload: env.payload,
                headers: env.headers,
                handle: b[i].next_seq,
            }),
        forall|i: int|
            0 <= i < b.len() && !spec_subject_matches(
                (#[trigger] spec_publish(b, env)[i]).spec.subject_pattern,
                env.subject,
            ) ==> spec_publish(b, env)[i] == b[i],
{
    assert forall|i: int| 0 <= i < b.len() implies #[trigger] spec_publish(b, env)[i]
        == spec_deliver(b[i], env) by {}
}

/// Empty-stream behavior: a pull against a stream that retains nothing
/// returns an empty batch and moves no cursor; the loop simply pulls again.
pub proof fn lemma_pull_empty_stream(s: StreamStateModel, c: ConsumerStateModel, max: usize)
    requires
        s.messages.len() == 0,
    ensures
        spec_pull(s, c, max).0 == c,
        spec_pull(s, c, max).1 =~= Seq::<MessageModel>::empty(),
{
    assert(spec_pull(s, c, max).1.len() == 0);
}

} // verus!
