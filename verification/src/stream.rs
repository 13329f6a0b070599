//! Stream-facing data: stream and consumer specifications, messages,
//! publish envelopes, and the deployment's fixed configuration.

use vstd::prelude::*;
use vstd::string::*;

verus! {

/// Subject on which a guest opt-out event is published.
pub const OPT_OUT_SUBJECT: &'static str = "stream.guest.opt-out";

/// Payload sent on the opt-out subject.
pub const OPT_OUT_MESSAGE: &'static str = "Guest opt-out from sparkpost";

/// Header that carries the request trace identifier to the consumer.
pub const TRACE_ID_HEADER: &'static str = "trace-id";

/// Name of the opt-out stream.
pub const OPT_OUT_STREAM_NAME: &'static str = "GUEST_OPT_OUT";

/// Subject pattern of the opt-out stream: every subject under
/// `stream.guest`.
pub const OPT_OUT_STREAM_PATTERN: &'static str = "stream.guest.>";

/// Durable name of the opt-out consumer.
pub const OPT_OUT_CONSUMER_NAME: &'static str = "guest-opt-out-consumer";

/// Name of the demo guests stream.
pub const GUESTS_STREAM_NAME: &'static str = "GUESTS";

/// Subject pattern of the demo guests stream.
pub const GUESTS_STREAM_PATTERN: &'static str = "stream.guests.>";

/// Subject the periodic publisher emits on.
pub const GUESTS_DEMO_SUBJECT: &'static str = "stream.guests.demo";

/// Durable name of the demo guests consumer.
pub const GUESTS_CONSUMER_NAME: &'static str = "guests-consumer";

/// Retention bound of both streams: the maximum retained message count.
pub const STREAM_MAX_MESSAGES: usize = 10000;

/// Maximum number of messages processed at the same time.
pub const MAX_CONCURRENT_MESSAGE_PROCESSING: usize = 10;

/// Bound on one pull batch.
pub const PULL_BATCH_SIZE: usize = 10;

/// Wait-expiry of one pull batch, in seconds.
pub const PULL_EXPIRES_SECS: u64 = 30;

/// Interval of the periodic publisher, in seconds.
pub const PUBLISH_INTERVAL_SECS: u64 = 2;

/// One message header.
pub struct Header {
    pub name: String,
    pub value: String,
}

/// A header as its model.
#[verifier::ext_equal]
pub struct HeaderModel {
    pub name: Seq<char>,
    pub value: Seq<char>,
}

impl View for Header {
    type V = HeaderModel;

    open spec fn view(&self) -> HeaderModel {
        HeaderModel { name: self.name@, value: self.value@ }
    }
}

impl Header {
    pub fn new(name: String, value: String) -> (h: Header)
        ensures
            h@.name == name@,
            h@.value == value@,
    {
        Header { name, value }
    }
}

/// The headers of a message, as a sequence of models.
pub open spec fn headers_view(headers: Seq<Header>) -> Seq<HeaderModel> {
    headers.map_values(|h: Header| h@)
}

/// Copies a header list.
pub fn clone_headers(headers: &Vec<Header>) -> (r: Vec<Header>)
    ensures
        headers_view(r@) == headers_view(headers@),
{
    let mut out: Vec<Header> = Vec::new();
    let n = headers.len();
    let mut i: usize = 0;
    while i < n
        invariant
            i <= n,
            n == headers@.len(),
            out@.len() == i,
            forall|j: int| 0 <= j < i ==> out@[j]@ == headers@[j]@,
        decreases n - i,
    {
        let h = Header { name: headers[i].name.clone(), value: headers[i].value.clone() };
        out.push(h);
        i = i + 1;
    }
    proof {
        assert(headers_view(out@) =~= headers_view(headers@));
    }
    out
}

/// What a stream is declared with: a name, a subject pattern (a trailing
/// `>` takes every nested subject), and a retention bound.
pub struct StreamSpec {
    pub name: String,
    pub subject_pattern: String,
    pub max_messages: usize,
}

/// A stream specification as its model.
#[verifier::ext_equal]
pub struct StreamSpecModel {
    pub name: Seq<char>,
    pub subject_pattern: Seq<char>,
    pub max_messages: usize,
}

impl View for StreamSpec {
    type V = StreamSpecModel;

    open spec fn view(&self) -> StreamSpecModel {
        StreamSpecModel {
            name: self.name@,
            subject_pattern: self.subject_pattern@,
            max_messages: self.max_messages,
        }
    }
}

impl Clone for StreamSpec {
    fn clone(&self) -> (r: Self)
        ensures
            r@ == self@,
    {
        StreamSpec {
            name: self.name.clone(),
            subject_pattern: self.subject_pattern.clone(),
            max_messages: self.max_messages,
        }
    }
}

/// What a durable pull consumer is declared with. The durable name is its
/// sole identity: asking again under the same durable name resumes the same
/// logical consumer.
pub struct ConsumerSpec {
    pub durable_name: String,
    pub stream_name: String,
    pub batch_size: usize,
    pub expiry_secs: u64,
}

/// A consumer specification as its model.
#[verifier::ext_equal]
pub struct ConsumerSpecModel {
    pub durable_name: Seq<char>,
    pub stream_name: Seq<char>,
    pub batch_size: usize,
    pub expiry_secs: u64,
}

impl View for ConsumerSpec {
    type V = ConsumerSpecModel;

    open spec fn view(&self) -> ConsumerSpecModel {
        ConsumerSpecModel {
            durable_name: self.durable_name@,
            stream_name: self.stream_name@,
            batch_size: self.batch_size,
            expiry_secs: self.expiry_secs,
        }
    }
}

impl Clone for ConsumerSpec {
    fn clone(&self) -> (r: Self)
        ensures
            r@ == self@,
    {
        ConsumerSpec {
            durable_name: self.durable_name.clone(),
            stream_name: self.stream_name.clone(),
            batch_size: self.batch_size,
            expiry_secs: self.expiry_secs,
        }
    }
}

/// A message as retained and delivered: its subject, opaque payload,
/// headers, and the delivery handle (the broker's sequence number) that
/// acknowledgment names.
pub struct Message {
    pub subject: String,
    pub payload: Vec<u8>,
    pub headers: Vec<Header>,
    pub handle: u64,
}

/// A message as its model.
#[verifier::ext_equal]
pub struct MessageModel {
    pub subject: Seq<char>,
    pub payload: Seq<u8>,
    pub headers: Seq<HeaderModel>,
    pub handle: u64,
}

impl View for Message {
    type V = MessageModel;

    open spec fn view(&self) -> MessageModel {
        MessageModel {
            subject: self.subject@,
            payload: self.payload@,
            headers: headers_view(self.headers@),
            handle: self.handle,
        }
    }
}

impl Clone for Message {
    fn clone(&self) -> (r: Self)
        ensures
            r@ == self@,
    {
        let r = Message {
            subject: self.subject.clone(),
            payload: vstd::slice::slice_to_vec(self.payload.as_slice()),
            headers: clone_headers(&self.headers),
            handle: self.handle,
        };
        proof {
            assert(r@ =~= self@);
        }
        r
    }
}

/// What one publish call carries: a subject, an opaque payload, and
/// optional headers.
pub struct PublishEnvelope {
    pub subject: String,
    pub payload: Vec<u8>,
    pub headers: Vec<Header>,
}

/// An envelope as its model.
#[verifier::ext_equal]
pub struct EnvelopeModel {
    pub subject: Seq<char>,
    pub payload: Seq<u8>,
    pub headers: Seq<HeaderModel>,
}

impl View for PublishEnvelope {
    type V = EnvelopeModel;

    open spec fn view(&self) -> EnvelopeModel {
        EnvelopeModel {
            subject: self.subject@,
            payload: self.payload@,
            headers: headers_view(self.headers@),
        }
    }
}

/// The envelope published when a guest opts out: the fixed subject and
/// message, carrying the request's trace identifier as a header so the
/// consumer can correlate it.
pub fn opt_out_envelope(trace_id: &str) -> (env: PublishEnvelope)
    ensures
        env@.subject == OPT_OUT_SUBJECT@,
        env@.payload == OPT_OUT_MESSAGE.spec_bytes(),
        env@.headers == seq![(HeaderModel { name: TRACE_ID_HEADER@, value: trace_id@ })],
{
    let mut headers: Vec<Header> = Vec::new();
    headers.push(Header::new(String::from_str(TRACE_ID_HEADER), String::from_str(trace_id)));
    let env = PublishEnvelope {
        subject: String::from_str(OPT_OUT_SUBJECT),
        payload: OPT_OUT_MESSAGE.as_bytes_vec(),
        headers,
    };
    proof {
        assert(env@.headers =~= seq![(HeaderModel { name: TRACE_ID_HEADER@, value: trace_id@ })]);
    }
    env
}

/// Errors of stream or consumer provisioning. Fatal to the loop that asked,
/// never to the host process.
#[derive(Clone, Copy, Debug, PartialEq, Eq, Structural)]
pub enum ProvisioningError {
    /// The backing store could not be reached.
    Unreachable,
    /// A stream of that name exists with a different configuration.
    Incompatible,
}

/// Error of one publish call: no stream's pattern takes the subject. The
/// publisher logs it and moves to the next tick.
#[derive(Clone, Copy, Debug, PartialEq, Eq, Structural)]
pub enum PublishError {
    NoMatchingStream,
}

} // verus!
