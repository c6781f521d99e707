//! Decoding of the generation service's streamed reply into fragments.
//!
//! The worker that reads the HTTP response is a state machine: it is handed
//! the response status, then each chunk of the body (decoded here) or a
//! transport error, and answers each event with at most one fragment.
use vstd::prelude::*;

verus! {

/// What a chunk holds when read as JSON: `None` when the bytes are not one
/// JSON value; otherwise the value's "response" member when it is a string.
pub uninterp spec fn json_response(b: Seq<u8>) -> Option<Option<Seq<char>>>;

/// The text that lossy UTF-8 decoding makes of the bytes.
pub uninterp spec fn lossy_text(b: Seq<u8>) -> Seq<char>;

pub open spec fn response_view(r: Option<Option<String>>) -> Option<Option<Seq<char>>> {
    match r {
        None => None,
        Some(None) => Some(None),
        Some(Some(t)) => Some(Some(t@)),
    }
}

/// Relies on serde_json::from_slice, which parses the whole slice as one JSON
/// value, and on Value::get and Value::as_str, which give the value's
/// "response" member when the value is an object holding a string there. The
/// outcome depends on the bytes alone.
#[verifier::external_body]
fn parse_response(bytes: &[u8]) -> (r: Option<Option<String>>)
    ensures
        response_view(r) == json_response(bytes@),
{
    match serde_json::from_slice::<serde_json::Value>(bytes) {
        Ok(v) => Some(v.get("response").and_then(|m| m.as_str()).map(|t| t.to_string())),
        Err(_) => None,
    }
}

/// Relies on String::from_utf8_lossy: the text depends on the bytes alone.
#[verifier::external_body]
fn lossy_string(bytes: &[u8]) -> (r: String)
    ensures
        r@ == lossy_text(bytes@),
{
    String::from_utf8_lossy(bytes).into_owned()
}

/// What a fragment is: generated text, or a visible diagnostic.
#[derive(Clone, Copy, PartialEq, Eq, Debug, Structural)]
pub enum FragmentKind {
    Content,
    Diagnostic,
}

/// One unit of text handed from the ingestion worker to the transcript.
pub struct Fragment {
    pub kind: FragmentKind,
    pub text: String,
}

impl View for Fragment {
    type V = (FragmentKind, Seq<char>);

    open spec fn view(&self) -> (FragmentKind, Seq<char>) {
        (self.kind, self.text@)
    }
}

/// A body chunk after decoding.
pub enum Decoded {
    /// The chunk is one JSON value whose "response" member is this string.
    Token(String),
    /// The chunk is one JSON value without a "response" string; its bytes as
    /// lossily decoded text.
    MissingResponse(String),
    /// The chunk is not JSON; its bytes as lossily decoded text.
    Malformed(String),
}

/// One event of the response: its status, a decoded body chunk, or a
/// transport error with its message.
pub enum IngestEvent {
    Status { success: bool, text: String },
    Chunk(Decoded),
    TransportError(String),
}

/// Where the worker stands in one response.
#[derive(Clone, Copy, PartialEq, Eq, Debug, Structural)]
pub enum StreamPhase {
    AwaitingStatus,
    Streaming,
    Finished,
}

/// The diagnostic text for a non-success status.
pub open spec fn status_error_text(status: Seq<char>) -> Seq<char> {
    "HTTP Error: "@ + status
}

/// The diagnostic text for a chunk that is not JSON.
pub open spec fn parse_error_text(raw: Seq<char>) -> Seq<char> {
    "\n[Parse Error on: "@ + raw + "]\n"@
}

/// The diagnostic text for a transport error.
pub open spec fn stream_error_text(message: Seq<char>) -> Seq<char> {
    "\n[Stream Error: "@ + message + "]\n"@
}

/// One step of the worker: the next phase and the fragment emitted, if any.
pub open spec fn step(phase: StreamPhase, ev: IngestEvent) -> (StreamPhase, Option<
    (FragmentKind, Seq<char>),
>) {
    match phase {
        StreamPhase::Finished => (StreamPhase::Finished, None),
        StreamPhase::AwaitingStatus => match ev {
            IngestEvent::Status { success, text } => if success {
                (StreamPhase::Streaming, None)
            } else {
                (
                    StreamPhase::Finished,
                    Some((FragmentKind::Diagnostic, status_error_text(text@))),
                )
            },
            IngestEvent::TransportError(m) => (
                StreamPhase::Finished,
                Some((FragmentKind::Diagnostic, stream_error_text(m@))),
            ),
            IngestEvent::Chunk(_) => (StreamPhase::AwaitingStatus, None),
        },
        StreamPhase::Streaming => match ev {
            IngestEvent::Status { .. } => (StreamPhase::Streaming, None),
            IngestEvent::TransportError(m) => (
                StreamPhase::Finished,
                Some((FragmentKind::Diagnostic, stream_error_text(m@))),
            ),
            IngestEvent::Chunk(Decoded::Token(t)) => (
                StreamPhase::Streaming,
                Some((FragmentKind::Content, t@)),
            ),
            IngestEvent::Chunk(Decoded::MissingResponse(raw)) => (
                StreamPhase::Streaming,
                Some((FragmentKind::Diagnostic, parse_error_text(raw@))),
            ),
            IngestEvent::Chunk(Decoded::Malformed(raw)) => (
                StreamPhase::Streaming,
                Some((FragmentKind::Diagnostic, parse_error_text(raw@))),
            ),
        },
    }
}

/// The fragments that a run of events yields from `phase`, in order.
pub open spec fn run(phase: StreamPhase, evs: Seq<IngestEvent>) -> Seq<(FragmentKind, Seq<char>)>
    decreases evs.len(),
{
    if evs.len() == 0 {
        Seq::empty()
    } else {
        let (next, out) = step(phase, evs[0]);
        let rest = run(next, evs.drop_first());
        match out {
            Some(f) => seq![f] + rest,
            None => rest,
        }
    }
}

/// Once the worker has finished, no further event yields a fragment.
pub proof fn lemma_finished_is_silent(evs: Seq<IngestEvent>)
    ensures
        run(StreamPhase::Finished, evs) == Seq::<(FragmentKind, Seq<char>)>::empty(),
    decreases evs.len(),
{
    if evs.len() > 0 {
        lemma_finished_is_silent(evs.drop_first());
    }
}

/// A non-success status yields exactly one fragment, a diagnostic naming the
/// status, and no content, whatever the response would go on to deliver.
pub proof fn lemma_failed_status_single_diagnostic(text: String, rest: Seq<IngestEvent>)
    ensures
        run(
            StreamPhase::AwaitingStatus,
            seq![IngestEvent::Status { success: false, text }] + rest,
        ) == seq![(FragmentKind::Diagnostic, status_error_text(text@))],
{
    let evs = seq![IngestEvent::Status { success: false, text }] + rest;
    assert(evs.drop_first() =~= rest);
    lemma_finished_is_silent(rest);
    assert(seq![(FragmentKind::Diagnostic, status_error_text(text@))] + Seq::<
        (FragmentKind, Seq<char>),
    >::empty() =~= seq![(FragmentKind::Diagnostic, status_error_text(text@))]);
}

/// A chunk that is not JSON yields exactly one diagnostic, which holds the
/// chunk's text, and the worker goes on with the chunks that follow.
pub proof fn lemma_malformed_chunk_continues(raw: String, rest: Seq<IngestEvent>)
    ensures
        run(StreamPhase::Streaming, seq![IngestEvent::Chunk(Decoded::Malformed(raw))] + rest)
            == seq![(FragmentKind::Diagnostic, parse_error_text(raw@))] + run(
            StreamPhase::Streaming,
            rest,
        ),
        parse_error_text(raw@).subrange(
            "\n[Parse Error on: "@.len() as int,
            ("\n[Parse Error on: "@.len() + raw@.len()) as int,
        ) == raw@,
{
    let evs = seq![IngestEvent::Chunk(Decoded::Malformed(raw))] + rest;
    assert(evs.drop_first() =~= rest);
    assert(parse_error_text(raw@).subrange(
        "\n[Parse Error on: "@.len() as int,
        ("\n[Parse Error on: "@.len() + raw@.len()) as int,
    ) =~= raw@);
}

pub open spec fn fragment_view(f: Option<Fragment>) -> Option<(FragmentKind, Seq<char>)> {
    match f {
        Some(x) => Some(x@),
        None => None,
    }
}

/// Decodes one body chunk: the "response" string of a JSON chunk, or else
/// the chunk's bytes as text, telling a chunk that is not JSON from one that
/// lacks the member.
pub fn decode_chunk(bytes: &[u8]) -> (r: Decoded)
    ensures
        json_response(bytes@) matches Some(Some(t)) ==> (r matches Decoded::Token(x) && x@ == t),
        json_response(bytes@) == Some(None::<Seq<char>>) ==> (r matches Decoded::MissingResponse(
            raw,
        ) && raw@ == lossy_text(bytes@)),
        json_response(bytes@) is None ==> (r matches Decoded::Malformed(raw) && raw@ == lossy_text(
            bytes@,
        )),
{
    match parse_response(bytes) {
        Some(Some(t)) => Decoded::Token(t),
        Some(None) => Decoded::MissingResponse(lossy_string(bytes)),
        None => Decoded::Malformed(lossy_string(bytes)),
    }
}

/// The fragment that a chunk yields while streaming: its "response" string,
/// or else a diagnostic that holds the chunk's text.
pub open spec fn chunk_fragment(b: Seq<u8>) -> (FragmentKind, Seq<char>) {
    match json_response(b) {
        Some(Some(t)) => (FragmentKind::Content, t),
        _ => (FragmentKind::Diagnostic, parse_error_text(lossy_text(b))),
    }
}

/// One step of the worker on a raw chunk.
pub open spec fn chunk_step(phase: StreamPhase, b: Seq<u8>) -> (StreamPhase, Option<
    (FragmentKind, Seq<char>),
>) {
    match phase {
        StreamPhase::Streaming => (StreamPhase::Streaming, Some(chunk_fragment(b))),
        _ => (phase, None),
    }
}

fn diagnostic(prefix: &str, body: &str, suffix: &str) -> (r: Fragment)
    ensures
        r@ == (FragmentKind::Diagnostic, prefix@ + body@ + suffix@),
{
    let mut text = String::from_str(prefix);
    text.append(body);
    text.append(suffix);
    Fragment { kind: FragmentKind::Diagnostic, text }
}

/// The ingestion worker of one request.
pub struct Ingestion {
    pub phase: StreamPhase,
}

impl Ingestion {
    /// A worker whose request has been sent and whose status is awaited.
    pub fn new() -> (r: Ingestion)
        ensures
            r.phase == StreamPhase::AwaitingStatus,
    {
        Ingestion { phase: StreamPhase::AwaitingStatus }
    }

    /// Whether the worker will read no more of the response.
    pub fn is_finished(&self) -> (r: bool)
        ensures
            r == (self.phase == StreamPhase::Finished),
    {
        self.phase == StreamPhase::Finished
    }

    /// Takes one event of the response and returns the fragment it yields.
    pub fn on_event(&mut self, ev: IngestEvent) -> (r: Option<Fragment>)
        ensures
            (final(self).phase, fragment_view(r)) == step(old(self).phase, ev),
    {
        let phase = self.phase;
        match phase {
            StreamPhase::Finished => None,
            StreamPhase::AwaitingStatus => match ev {
                IngestEvent::Status { success, text } => {
                    if success {
                        self.phase = StreamPhase::Streaming;
                        None
                    } else {
                        self.phase = StreamPhase::Finished;
                        let mut msg = String::from_str("HTTP Error: ");
                        msg.append(text.as_str());
                        Some(Fragment { kind: FragmentKind::Diagnostic, text: msg })
                    }
                },
                IngestEvent::TransportError(m) => {
                    self.phase = StreamPhase::Finished;
                    Some(diagnostic("\n[Stream Error: ", m.as_str(), "]\n"))
                },
                IngestEvent::Chunk(_) => None,
            },
            StreamPhase::Streaming => match ev {
                IngestEvent::Status { .. } => None,
                IngestEvent::TransportError(m) => {
                    self.phase = StreamPhase::Finished;
                    Some(diagnostic("\n[Stream Error: ", m.as_str(), "]\n"))
                },
                IngestEvent::Chunk(Decoded::Token(t)) => Some(
                    Fragment { kind: FragmentKind::Content, text: t },
                ),
                IngestEvent::Chunk(Decoded::MissingResponse(raw)) => Some(
                    diagnostic("\n[Parse Error on: ", raw.as_str(), "]\n"),
                ),
                IngestEvent::Chunk(Decoded::Malformed(raw)) => Some(
                    diagnostic("\n[Parse Error on: ", raw.as_str(), "]\n"),
                ),
            },
        }
    }

    /// Takes the response status, with its text as shown to the user.
    pub fn on_status(&mut self, success: bool, text: String) -> (r: Option<Fragment>)
        ensures
            (final(self).phase, fragment_view(r)) == step(
                old(self).phase,
                IngestEvent::Status { success, text },
            ),
    {
        self.on_event(IngestEvent::Status { success, text })
    }

    /// Takes one raw chunk of the response body.
    pub fn on_chunk(&mut self, bytes: &[u8]) -> (r: Option<Fragment>)
        ensures
            (final(self).phase, fragment_view(r)) == chunk_step(old(self).phase, bytes@),
    {
        let d = decode_chunk(bytes);
        self.on_event(IngestEvent::Chunk(d))
    }

    /// Takes a transport error, with its message.
    pub fn on_transport_error(&mut self, message: String) -> (r: Option<Fragment>)
        ensures
            (final(self).phase, fragment_view(r)) == step(
                old(self).phase,
                IngestEvent::TransportError(message),
            ),
    {
        self.on_event(IngestEvent::TransportError(message))
    }
}

} // verus!
