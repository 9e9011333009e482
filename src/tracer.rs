//! The lifecycle of one traced request, as a state machine that the code
//! driving the real client steps through:
//! start the span, write propagation headers, dispatch, record the outcome.
use crate::headers::{header_name_of, header_written, is_header_value_text, HeaderError, HeaderList};
use crate::request::{
    describes_request, is_int_attribute, request_attributes, request_span_name, span_name,
    status_attribute, copy_attribute, copy_attributes, Attribute, PendingRequest,
};
use vstd::prelude::*;

verus! {

/// Where a traced request stands.
#[derive(Debug, Clone, Copy, PartialEq, Eq, Structural)]
pub enum Phase {
    /// Not started: no span exists yet.
    Built,
    /// The span is open and propagation headers are being written.
    Injecting,
    /// The request went to the client; the outcome is awaited.
    Sent,
    /// The span has ended: the outcome is recorded, or the request was given
    /// up while the client worked on it.
    Closed,
}

/// One observable step of the lifecycle, in the order it happened.
#[derive(Debug, Clone, Copy, PartialEq, Eq, Structural)]
pub enum TraceStep {
    SpanStarted,
    HeaderSet,
    RequestSent,
    SpanEnded,
}

/// The kind of span a traced request opens.
#[derive(Debug, Clone, Copy, PartialEq, Eq, Structural)]
pub enum SpanKind {
    Client,
}

/// Status of the request's span.
#[derive(Debug, Clone, PartialEq, Eq)]
pub enum SpanStatus {
    Unset,
    Error(String),
}

/// What the tracing backend is asked to start.
#[derive(Debug)]
pub struct SpanStart {
    pub name: String,
    pub kind: SpanKind,
    pub attributes: Vec<Attribute>,
}

/// `n` header writes in a row.
pub open spec fn header_steps(n: nat) -> Seq<TraceStep> {
    Seq::new(n, |i: int| TraceStep::HeaderSet)
}

/// The steps taken by the time a request reaches `phase`, after `n` header
/// writes.
pub open spec fn steps_until(phase: Phase, n: nat) -> Seq<TraceStep> {
    match phase {
        Phase::Built => Seq::<TraceStep>::empty(),
        Phase::Injecting => seq![TraceStep::SpanStarted] + header_steps(n),
        Phase::Sent => seq![TraceStep::SpanStarted] + header_steps(n) + seq![TraceStep::RequestSent],
        Phase::Closed => seq![TraceStep::SpanStarted] + header_steps(n) + seq![
            TraceStep::RequestSent,
            TraceStep::SpanEnded,
        ],
    }
}

/// One request under tracing.
pub struct RequestTrace {
    phase: Phase,
    request: PendingRequest,
    headers: HeaderList,
    attributes: Vec<Attribute>,
    status: SpanStatus,
    steps: Vec<TraceStep>,
    written: Ghost<nat>,
}

impl RequestTrace {
    pub closed spec fn phase_spec(&self) -> Phase {
        self.phase
    }

    pub closed spec fn request_spec(&self) -> PendingRequest {
        self.request
    }

    /// Propagation headers written so far.
    pub closed spec fn headers_spec(&self) -> Seq<(Seq<char>, Seq<char>)> {
        self.headers@
    }

    /// Attributes the span carries: those it started with, then those recorded.
    pub closed spec fn attributes_spec(&self) -> Seq<Attribute> {
        self.attributes@
    }

    pub closed spec fn status_spec(&self) -> SpanStatus {
        self.status
    }

    pub closed spec fn steps_spec(&self) -> Seq<TraceStep> {
        self.steps@
    }

    /// Number of header writes that the carrier accepted.
    pub closed spec fn written_spec(&self) -> nat {
        self.written@
    }

    pub closed spec fn wf(&self) -> bool {
        &&& self.headers.wf()
        &&& self.steps@ == steps_until(self.phase, self.written@)
        &&& (self.phase == Phase::Built ==> self.attributes@.len() == 0 && self.written@ == 0)
        &&& (self.phase != Phase::Closed ==> self.status is Unset)
    }

    /// Takes a request into tracing; no span exists yet.
    pub fn new(request: PendingRequest) -> (r: RequestTrace)
        ensures
            r.wf(),
            r.phase_spec() == Phase::Built,
            r.request_spec() == request,
            r.headers_spec().len() == 0,
            r.steps_spec().len() == 0,
            r.attributes_spec().len() == 0,
            r.written_spec() == 0,
            r.status_spec() is Unset,
    {
        RequestTrace {
            phase: Phase::Built,
            request,
            headers: HeaderList::new(),
            attributes: Vec::new(),
            status: SpanStatus::Unset,
            steps: Vec::new(),
            written: Ghost(0),
        }
    }

    /// Opens the request's span: a client span named after the request and
    /// carrying the attributes that describe it.
    pub fn start(&mut self) -> (r: SpanStart)
        requires
            old(self).wf(),
            old(self).phase_spec() == Phase::Built,
        ensures
            final(self).wf(),
            final(self).phase_spec() == Phase::Injecting,
            r.name@ == request_span_name(old(self).request_spec()),
            r.kind == SpanKind::Client,
            describes_request(r.attributes@, old(self).request_spec()),
            final(self).attributes_spec() == r.attributes@,
            final(self).request_spec() == old(self).request_spec(),
            final(self).headers_spec() == old(self).headers_spec(),
            final(self).status_spec() == old(self).status_spec(),
            final(self).written_spec() == old(self).written_spec(),
            final(self).steps_spec() == old(self).steps_spec().push(TraceStep::SpanStarted),
    {
        let name = span_name(self.request.method.as_str(), &self.request.uri);
        let attributes = request_attributes(&self.request);
        let recorded = copy_attributes(&attributes);
        self.attributes = recorded;
        self.phase = Phase::Injecting;
        self.steps.push(TraceStep::SpanStarted);
        assert(header_steps(0) =~= Seq::<TraceStep>::empty());
        assert(self.steps@ =~= steps_until(Phase::Injecting, self.written@));
        SpanStart { name, kind: SpanKind::Client, attributes }
    }

    /// The carrier's write: places a propagation header on the request. Only
    /// an accepted header counts as written.
    pub fn set_header(&mut self, key: &str, value: &str) -> (r: Result<(), HeaderError>)
        requires
            old(self).wf(),
            old(self).phase_spec() == Phase::Injecting,
        ensures
            final(self).wf(),
            final(self).phase_spec() == Phase::Injecting,
            header_name_of(key@) is None ==> r == Err::<(), HeaderError>(HeaderError::InvalidName),
            header_name_of(key@) is Some && !is_header_value_text(value@) ==> r == Err::<(), HeaderError>(HeaderError::InvalidValue),
            header_name_of(key@) is Some && is_header_value_text(value@) ==> r is Ok,
            r is Ok ==> final(self).headers_spec() == header_written(old(self).headers_spec(), header_name_of(key@)->0, value@),
            r is Ok ==> final(self).steps_spec() == old(self).steps_spec().push(TraceStep::HeaderSet),
            r is Ok ==> final(self).written_spec() == old(self).written_spec() + 1,
            r is Err ==> final(self).headers_spec() == old(self).headers_spec(),
            r is Err ==> final(self).steps_spec() == old(self).steps_spec(),
            r is Err ==> final(self).written_spec() == old(self).written_spec(),
            final(self).request_spec() == old(self).request_spec(),
            final(self).attributes_spec() == old(self).attributes_spec(),
            final(self).status_spec() == old(self).status_spec(),
    {
        let r = self.headers.set(key, value);
        if r.is_ok() {
            self.steps.push(TraceStep::HeaderSet);
            proof {
                let n = self.written@;
                self.written = Ghost(n + 1);
                assert(header_steps(n).push(TraceStep::HeaderSet) =~= header_steps(n + 1));
                assert(self.steps@ =~= steps_until(Phase::Injecting, n + 1));
            }
        }
        r
    }

    /// Hands the request to the client. No header can be written after this.
    pub fn dispatch(&mut self)
        requires
            old(self).wf(),
            old(self).phase_spec() == Phase::Injecting,
        ensures
            final(self).wf(),
            final(self).phase_spec() == Phase::Sent,
            final(self).steps_spec() == old(self).steps_spec().push(TraceStep::RequestSent),
            final(self).request_spec() == old(self).request_spec(),
            final(self).headers_spec() == old(self).headers_spec(),
            final(self).attributes_spec() == old(self).attributes_spec(),
            final(self).status_spec() == old(self).status_spec(),
            final(self).written_spec() == old(self).written_spec(),
    {
        self.phase = Phase::Sent;
        self.steps.push(TraceStep::RequestSent);
        assert(self.steps@ =~= steps_until(Phase::Sent, self.written@));
    }

    /// Records a response: the status code is added to the span's
    /// attributes, the status stays unset, and the span ends. The attribute
    /// added is returned.
    pub fn record_response(&mut self, status: u16) -> (r: Attribute)
        requires
            old(self).wf(),
            old(self).phase_spec() == Phase::Sent,
        ensures
            final(self).wf(),
            final(self).phase_spec() == Phase::Closed,
            is_int_attribute(r, "http.status_code"@, status as int),
            final(self).attributes_spec() == old(self).attributes_spec().push(r),
            final(self).status_spec() is Unset,
            final(self).steps_spec() == old(self).steps_spec().push(TraceStep::SpanEnded),
            final(self).request_spec() == old(self).request_spec(),
            final(self).headers_spec() == old(self).headers_spec(),
            final(self).written_spec() == old(self).written_spec(),
    {
        let attr = status_attribute(status);
        self.attributes.push(copy_attribute(&attr));
        self.phase = Phase::Closed;
        self.steps.push(TraceStep::SpanEnded);
        assert(self.steps@ =~= steps_until(Phase::Closed, self.written@));
        attr
    }

    /// Records a failed send: the span's status becomes an error with
    /// `description`, and the span ends. Its attributes stay as they were.
    pub fn record_err(&mut self, description: String)
        requires
            old(self).wf(),
            old(self).phase_spec() == Phase::Sent,
        ensures
            final(self).wf(),
            final(self).phase_spec() == Phase::Closed,
            final(self).status_spec() == SpanStatus::Error(description),
            final(self).attributes_spec() == old(self).attributes_spec(),
            final(self).steps_spec() == old(self).steps_spec().push(TraceStep::SpanEnded),
            final(self).request_spec() == old(self).request_spec(),
            final(self).headers_spec() == old(self).headers_spec(),
            final(self).written_spec() == old(self).written_spec(),
    {
        self.status = SpanStatus::Error(description);
        self.phase = Phase::Closed;
        self.steps.push(TraceStep::SpanEnded);
        assert(self.steps@ =~= steps_until(Phase::Closed, self.written@));
    }
    /// Ends the span of a request that was given up while the client was
    /// still working on it, and says whether it did so. In any other phase
    /// nothing changes: before dispatch no await has happened, and a closed
    /// span has ended already.
    pub fn abandon(&mut self) -> (r: bool)
        requires
            old(self).wf(),
        ensures
            final(self).wf(),
            r == (old(self).phase_spec() == Phase::Sent),
            r ==> final(self).phase_spec() == Phase::Closed,
            r ==> final(self).steps_spec() == old(self).steps_spec().push(TraceStep::SpanEnded),
            !r ==> final(self).phase_spec() == old(self).phase_spec(),
            !r ==> final(self).steps_spec() == old(self).steps_spec(),
            final(self).status_spec() == old(self).status_spec(),
            final(self).attributes_spec() == old(self).attributes_spec(),
            final(self).request_spec() == old(self).request_spec(),
            final(self).headers_spec() == old(self).headers_spec(),
            final(self).written_spec() == old(self).written_spec(),
    {
        if self.phase == Phase::Sent {
            self.phase = Phase::Closed;
            self.steps.push(TraceStep::SpanEnded);
            assert(self.steps@ =~= steps_until(Phase::Closed, self.written@));
            true
        } else {
            false
        }
    }

    pub fn phase(&self) -> (r: Phase)
        ensures
            r == self.phase_spec(),
    {
        self.phase
    }

    pub fn request(&self) -> (r: &PendingRequest)
        ensures
            *r == self.request_spec(),
    {
        &self.request
    }

    /// Propagation headers written so far, for the client to put on the
    /// outgoing request.
    pub fn headers(&self) -> (r: &HeaderList)
        requires
            self.wf(),
        ensures
            r@ == self.headers_spec(),
            r.wf(),
    {
        &self.headers
    }

    pub fn attributes(&self) -> (r: &Vec<Attribute>)
        ensures
            r@ == self.attributes_spec(),
    {
        &self.attributes
    }

    pub fn status(&self) -> (r: &SpanStatus)
        ensures
            *r == self.status_spec(),
    {
        &self.status
    }

    pub fn steps(&self) -> (r: &Vec<TraceStep>)
        ensures
            r@ == self.steps_spec(),
    {
        &self.steps
    }
}



/// Of every state that a traced request can be in: the span is started at
/// most once, as the first step, and exactly when the request has left
/// `Built`; it is ended at most once, as the last step, and exactly when the
/// request is closed. A closed request, whether it ended in a response, an
/// error or was given up, has therefore started exactly one span and ended
/// exactly that one.
pub proof fn lemma_one_span_per_request(t: &RequestTrace)
    requires
        t.wf(),
    ensures
        forall|i: int|
            0 <= i < t.steps_spec().len() && t.steps_spec()[i] == TraceStep::SpanStarted ==> i == 0,
        (t.phase_spec() != Phase::Built) == (t.steps_spec().len() > 0 && t.steps_spec()[0]
            == TraceStep::SpanStarted),
        forall|i: int|
            0 <= i < t.steps_spec().len() && t.steps_spec()[i] == TraceStep::SpanEnded ==> i
                == t.steps_spec().len() - 1,
        (t.phase_spec() == Phase::Closed) == (t.steps_spec().len() > 0 && t.steps_spec().last()
            == TraceStep::SpanEnded),
{
    let s = t.steps_spec();
    let n = t.written_spec();
    let hs = header_steps(n);
    match t.phase_spec() {
        Phase::Built => {},
        Phase::Injecting => {
            assert(s == seq![TraceStep::SpanStarted] + hs);
            assert forall|i: int| 0 < i < s.len() implies s[i] == TraceStep::HeaderSet by {
                assert(s[i] == hs[i - 1]);
            }
        },
        Phase::Sent => {
            assert(s == seq![TraceStep::SpanStarted] + hs + seq![TraceStep::RequestSent]);
            assert forall|i: int| 0 < i < s.len() - 1 implies s[i] == TraceStep::HeaderSet by {
                assert(s[i] == hs[i - 1]);
            }
        },
        Phase::Closed => {
            assert(s == seq![TraceStep::SpanStarted] + hs + seq![
                TraceStep::RequestSent,
                TraceStep::SpanEnded,
            ]);
            assert forall|i: int| 0 < i < s.len() - 2 implies s[i] == TraceStep::HeaderSet by {
                assert(s[i] == hs[i - 1]);
            }
        },
    }
}

/// Of every state that a traced request can be in: each propagation header
/// is written before the request is handed to the client, and the request is
/// handed over exactly once, when it has been sent or closed.
pub proof fn lemma_headers_before_send(t: &RequestTrace)
    requires
        t.wf(),
    ensures
        forall|i: int, j: int|
            0 <= i < t.steps_spec().len() && 0 <= j < t.steps_spec().len()
                && t.steps_spec()[i] == TraceStep::HeaderSet && t.steps_spec()[j]
                == TraceStep::RequestSent ==> i < j,
        forall|i: int, j: int|
            0 <= i < t.steps_spec().len() && 0 <= j < t.steps_spec().len()
                && t.steps_spec()[i] == TraceStep::RequestSent && t.steps_spec()[j]
                == TraceStep::RequestSent ==> i == j,
        (t.phase_spec() == Phase::Sent || t.phase_spec() == Phase::Closed) == (exists|j: int|
            0 <= j < t.steps_spec().len() && t.steps_spec()[j] == TraceStep::RequestSent),
{
    let s = t.steps_spec();
    let n = t.written_spec();
    let hs = header_steps(n);
    match t.phase_spec() {
        Phase::Built => {},
        Phase::Injecting => {
            assert(s == seq![TraceStep::SpanStarted] + hs);
            assert forall|i: int| 0 < i < s.len() implies s[i] == TraceStep::HeaderSet by {
                assert(s[i] == hs[i - 1]);
            }
        },
        Phase::Sent => {
            assert(s == seq![TraceStep::SpanStarted] + hs + seq![TraceStep::RequestSent]);
            assert forall|i: int| 0 < i < s.len() - 1 implies s[i] == TraceStep::HeaderSet by {
                assert(s[i] == hs[i - 1]);
            }
            assert(s[s.len() - 1] == TraceStep::RequestSent);
        },
        Phase::Closed => {
            assert(s == seq![TraceStep::SpanStarted] + hs + seq![
                TraceStep::RequestSent,
                TraceStep::SpanEnded,
            ]);
            assert forall|i: int| 0 < i < s.len() - 2 implies s[i] == TraceStep::HeaderSet by {
                assert(s[i] == hs[i - 1]);
            }
            assert(s[s.len() - 2] == TraceStep::RequestSent);
        },
    }
}

} // verus!
