//! Server-sent events: frame splitting and the decoding of streamed
//! JSON-RPC payloads into stream events.

use vstd::prelude::*;
use crate::error::A2AError;
use crate::json::{JsonValue, JsonView, spec_obj_get, spec_obj_has_key};
use crate::jsontext::{parse_json, spec_parse_json, push_char};

verus! {

broadcast use vstd::std_specs::vec::group_vec_axioms, vstd::seq::group_seq_axioms;

/// Mathematical model of an [`SseEvent`].
pub struct SseEventView {
    pub kind: Seq<char>,
    pub payload: JsonView,
    pub final_event: bool,
}

/// One streamed event: its kind, its payload, and whether the stream ends
/// with it.
#[derive(Debug, Clone, PartialEq)]
pub struct SseEvent {
    /// Event kind, for example `status-update` or `artifact-update`.
    pub kind: String,
    /// Event payload.
    pub payload: JsonValue,
    /// Whether this is the final event in the stream.
    pub final_event: bool,
}

impl View for SseEvent {
    type V = SseEventView;

    open spec fn view(&self) -> SseEventView {
        SseEventView { kind: self.kind@, payload: self.payload@, final_event: self.final_event }
    }
}

/// The `state` member of an event payload, when it is a string.
pub open spec fn spec_payload_state(p: JsonView) -> Option<Seq<char>> {
    match p {
        JsonView::Obj(ms) => if spec_obj_has_key(ms, "state"@) {
            match spec_obj_get(ms, "state"@) {
                JsonView::Str(s) => Some(s),
                _ => None,
            }
        } else {
            None
        },
        _ => None,
    }
}

/// Whether a state spelling names a terminal task state.
pub open spec fn spec_state_terminal(s: Seq<char>) -> bool {
    s == "completed"@ || s == "failed"@ || s == "cancelled"@ || s == "rejected"@
}

/// Whether a state spelling names an error state.
pub open spec fn spec_state_error(s: Seq<char>) -> bool {
    s == "failed"@ || s == "cancelled"@ || s == "rejected"@
}

/// Whether an event is terminal: its final flag is set, or its payload's
/// state is a terminal task state.
pub open spec fn spec_event_terminal(e: SseEventView) -> bool {
    e.final_event || (spec_payload_state(e.payload) matches Some(s) && spec_state_terminal(s))
}

/// Whether an event reports an error state.
pub open spec fn spec_event_error(e: SseEventView) -> bool {
    spec_payload_state(e.payload) matches Some(s) && spec_state_error(s)
}

fn payload_state<'a>(p: &'a JsonValue) -> (r: Option<&'a String>)
    ensures
        (match r {
            Some(s) => spec_payload_state(p@) == Some(s@),
            None => spec_payload_state(p@) is None,
        }),
{
    let is_obj = match p {
        JsonValue::Obj(_) => true,
        _ => false,
    };
    if !is_obj {
        return None;
    }
    match p.get("state") {
        Some(field) => field.as_str(),
        None => None,
    }
}

impl SseEvent {
    /// Whether this event is terminal: its final flag is set, or its
    /// payload's state is `completed`, `failed`, `cancelled` or `rejected`.
    pub fn is_terminal(&self) -> (r: bool)
        ensures
            r == spec_event_terminal(self@),
    {
        if self.final_event {
            return true;
        }
        match payload_state(&self.payload) {
            Some(state) => {
                crate::codec::str_eq(state.as_str(), "completed")
                    || crate::codec::str_eq(state.as_str(), "failed")
                    || crate::codec::str_eq(state.as_str(), "cancelled")
                    || crate::codec::str_eq(state.as_str(), "rejected")
            },
            None => false,
        }
    }

    /// Whether this event reports an error state: its payload's state is
    /// `failed`, `cancelled` or `rejected`.
    pub fn is_error(&self) -> (r: bool)
        ensures
            r == spec_event_error(self@),
    {
        match payload_state(&self.payload) {
            Some(state) => {
                crate::codec::str_eq(state.as_str(), "failed")
                    || crate::codec::str_eq(state.as_str(), "cancelled")
                    || crate::codec::str_eq(state.as_str(), "rejected")
            },
            None => false,
        }
    }
}

/// What decoding one streamed payload yields.
pub enum SseDecodeView {
    Event(SseEventView),
    Failed(crate::error::A2AErrorView),
}

/// The decoding of one event's data text: parse, then read the envelope.
pub open spec fn spec_sse_decode(data: Seq<char>) -> SseDecodeView {
    match spec_parse_json(data) {
        Some(jv) => spec_decode_event(jv),
        None => SseDecodeView::Failed(crate::error::A2AErrorView::Protocol(
            "failed to parse SSE event data"@,
        )),
    }
}

/// The decoding of one streamed envelope: an error member ends the stream
/// with a protocol error, and the result becomes the event; `kind`
/// defaults to `event`, `final` to false.
pub open spec fn spec_decode_event(v: JsonView) -> SseDecodeView {
    match v {
        JsonView::Obj(ms) => {
            if spec_obj_has_key(ms, "error"@) {
                SseDecodeView::Failed(crate::error::A2AErrorView::Protocol(
                    "SSE stream error: "@ + spec_sse_error_message(spec_obj_get(ms, "error"@)),
                ))
            } else if spec_obj_has_key(ms, "result"@) {
                let result = spec_obj_get(ms, "result"@);
                SseDecodeView::Event(SseEventView {
                    kind: spec_event_kind(result),
                    payload: result,
                    final_event: spec_event_final(result),
                })
            } else {
                SseDecodeView::Failed(crate::error::A2AErrorView::Protocol(
                    "SSE event missing 'result' field"@,
                ))
            }
        },
        _ => SseDecodeView::Failed(crate::error::A2AErrorView::Protocol(
            "SSE event missing 'result' field"@,
        )),
    }
}

/// The message of a stream-level error member; `Unknown error` when the
/// member carries no string message.
pub open spec fn spec_sse_error_message(e: JsonView) -> Seq<char> {
    match e {
        JsonView::Obj(ms) => if spec_obj_has_key(ms, "message"@) {
            match spec_obj_get(ms, "message"@) {
                JsonView::Str(s) => s,
                _ => "Unknown error"@,
            }
        } else {
            "Unknown error"@
        },
        _ => "Unknown error"@,
    }
}

/// The kind of an event result; `event` when absent or not a string.
pub open spec fn spec_event_kind(result: JsonView) -> Seq<char> {
    match result {
        JsonView::Obj(ms) => if spec_obj_has_key(ms, "kind"@) {
            match spec_obj_get(ms, "kind"@) {
                JsonView::Str(s) => s,
                _ => "event"@,
            }
        } else {
            "event"@
        },
        _ => "event"@,
    }
}

/// The final flag of an event result; false when absent or not a boolean.
pub open spec fn spec_event_final(result: JsonView) -> bool {
    match result {
        JsonView::Obj(ms) => if spec_obj_has_key(ms, "final"@) {
            match spec_obj_get(ms, "final"@) {
                JsonView::Bool(b) => b,
                _ => false,
            }
        } else {
            false
        },
        _ => false,
    }
}

/// The server-sent-events binding: frames of `data: <json>` lines ended by
/// a blank line, each carrying one JSON-RPC response.
#[derive(Debug, Clone)]
pub struct SseCodec;

impl SseCodec {
    /// An SSE codec.
    pub fn new() -> (r: Self)
        ensures
            r == (SseCodec {}),
    {
        SseCodec {}
    }

    /// Decode one event's data text: exactly `spec_sse_decode` of the
    /// text. Text that is not one JSON document is a `Protocol` error; so
    /// is an envelope carrying an error member or missing its result.
    pub fn decode_event_data(&self, data: &str) -> (r: Result<SseEvent, A2AError>)
        ensures
            (match r {
                Ok(event) => spec_sse_decode(data@) == SseDecodeView::Event(event@),
                Err(e) => spec_sse_decode(data@) == SseDecodeView::Failed(e@),
            }),
    {
        let v = match parse_json(data) {
            Some(v) => v,
            None => {
                return Err(A2AError::Protocol(String::from_str(
                    "failed to parse SSE event data",
                )));
            },
        };
        self.decode_event_value(&v)
    }

    /// Decode one parsed streamed envelope.
    pub fn decode_event_value(&self, v: &JsonValue) -> (r: Result<SseEvent, A2AError>)
        ensures
            (match r {
                Ok(event) => spec_decode_event(v@) == SseDecodeView::Event(event@),
                Err(e) => spec_decode_event(v@) == SseDecodeView::Failed(e@) && e@ is Protocol,
            }),
    {
        let is_obj = match v {
            JsonValue::Obj(_) => true,
            _ => false,
        };
        if !is_obj {
            return Err(A2AError::Protocol(String::from_str(
                "SSE event missing 'result' field",
            )));
        }
        match v.get("error") {
            Some(err_val) => {
                let mut text = String::from_str("SSE stream error: ");
                match err_val.get("message") {
                    Some(m) => match m.as_str() {
                        Some(s) => {
                            text.append(s.as_str());
                        },
                        None => {
                            text.append("Unknown error");
                        },
                    },
                    None => {
                        text.append("Unknown error");
                    },
                }
                Err(A2AError::Protocol(text))
            },
            None => match v.get("result") {
                Some(result) => {
                    let kind = match result.get("kind") {
                        Some(k) => match k.as_str() {
                            Some(s) => s.clone(),
                            None => String::from_str("event"),
                        },
                        None => String::from_str("event"),
                    };
                    let final_event = match result.get("final") {
                        Some(f) => match f.as_bool() {
                            Some(b) => b,
                            None => false,
                        },
                        None => false,
                    };
                    Ok(SseEvent { kind, payload: result.clone(), final_event })
                },
                None => Err(A2AError::Protocol(String::from_str(
                    "SSE event missing 'result' field",
                ))),
            },
        }
    }
}


/// The stream event one response value denotes: the value is the payload;
/// its `kind` and `final` members, when present, name the event kind and
/// mark the last event.
pub fn event_from_result(result: &JsonValue) -> (r: SseEvent)
    ensures
        r@.kind == spec_event_kind(result@),
        r@.payload == result@,
        r@.final_event == spec_event_final(result@),
{
    let kind = match result.get("kind") {
        Some(k) => match k.as_str() {
            Some(s) => s.clone(),
            None => String::from_str("event"),
        },
        None => String::from_str("event"),
    };
    let final_event = match result.get("final") {
        Some(f) => match f.as_bool() {
            Some(b) => b,
            None => false,
        },
        None => false,
    };
    SseEvent { kind, payload: result.clone(), final_event }
}

/// The data text after a `data:` prefix, one leading space removed;
/// `None` when the line carries no data.
pub open spec fn spec_strip_data(line: Seq<char>) -> Option<Seq<char>> {
    if line.len() < 5 {
        None
    } else if line[0] == 'd' && line[1] == 'a' && line[2] == 't' && line[3] == 'a'
        && line[4] == ':' {
        if line.len() > 5 && line[5] == ' ' {
            Some(line.subrange(6, line.len() as int))
        } else {
            Some(line.subrange(5, line.len() as int))
        }
    } else {
        None
    }
}

/// Walk the lines of a buffered event, `line` the one being read, `data`
/// the payload so far, `saw` whether any line carried data: the payloads
/// of `data:` lines joined with a newline, other lines ignored.
pub open spec fn spec_event_lines(
    buf: Seq<char>,
    line: Seq<char>,
    data: Seq<char>,
    saw: bool,
) -> Option<Seq<char>>
    decreases buf.len(),
{
    if buf.len() == 0 {
        match spec_strip_data(line) {
            Some(rest) => Some(
                if saw {
                    data + seq!['\n'] + rest
                } else {
                    rest
                },
            ),
            None => if saw {
                Some(data)
            } else {
                None
            },
        }
    } else if buf[0] == '\n' {
        match spec_strip_data(line) {
            Some(rest) => spec_event_lines(
                buf.drop_first(),
                Seq::empty(),
                if saw {
                    data + seq!['\n'] + rest
                } else {
                    rest
                },
                true,
            ),
            None => spec_event_lines(buf.drop_first(), Seq::empty(), data, saw),
        }
    } else {
        spec_event_lines(buf.drop_first(), line.push(buf[0]), data, saw)
    }
}

/// The data payload of one buffered event; `None` when no line carries
/// data.
pub open spec fn spec_take_event(buf: Seq<char>) -> Option<Seq<char>> {
    spec_event_lines(buf, Seq::empty(), Seq::empty(), false)
}

/// Walk one chunk: a newline after a line break or into an empty buffer
/// closes an event, carriage returns are dropped, everything else is
/// buffered.
pub open spec fn spec_feed(buf: Seq<char>, chunk: Seq<char>, events: Seq<Seq<char>>) -> (
    Seq<Seq<char>>,
    Seq<char>,
)
    decreases chunk.len(),
{
    if chunk.len() == 0 {
        (events, buf)
    } else {
        let c = chunk[0];
        if c == '\n' {
            if buf.len() == 0 || buf[buf.len() - 1] == '\n' {
                match spec_take_event(buf) {
                    Some(d) => spec_feed(Seq::empty(), chunk.drop_first(), events.push(d)),
                    None => spec_feed(Seq::empty(), chunk.drop_first(), events),
                }
            } else {
                spec_feed(buf.push('\n'), chunk.drop_first(), events)
            }
        } else if c == '\r' {
            spec_feed(buf, chunk.drop_first(), events)
        } else {
            spec_feed(buf.push(c), chunk.drop_first(), events)
        }
    }
}

/// An incremental splitter of an SSE byte stream into event data payloads.
///
/// Feed it decoded text chunks as they arrive; it returns the data text of
/// each event completed by a blank line, joining multiple `data:` lines
/// with a newline and ignoring other lines.
#[derive(Debug)]
pub struct SseParser {
    /// Text received but not yet part of a complete event.
    pub buffer: Vec<char>,
}

impl SseParser {
    /// A splitter with an empty buffer.
    pub fn new() -> (r: Self)
        ensures
            r.buffer@ == Seq::<char>::empty(),
    {
        let r = SseParser { buffer: Vec::new() };
        r
    }

    /// Feed one chunk; the complete events it closes come back in order,
    /// exactly as `spec_feed` walks the buffered and fed text.
    #[verifier::loop_isolation(false)]
    pub fn feed(&mut self, chunk: &str) -> (events: Vec<String>)
        ensures
            events.deep_view() == spec_feed(old(self).buffer@, chunk@, Seq::empty()).0,
            final(self).buffer@ == spec_feed(old(self).buffer@, chunk@, Seq::empty()).1,
    {
        let n = chunk.unicode_len();
        let mut i: usize = 0;
        let mut out: Vec<String> = Vec::new();
        proof {
            assert(out.deep_view() =~= Seq::<Seq<char>>::empty());
            assert(chunk@.skip(0) =~= chunk@);
        }
        while i < n
            invariant
                n == chunk@.len(),
                i <= n,
                spec_feed(self.buffer@, chunk@.skip(i as int), out.deep_view()) == spec_feed(
                    old(self).buffer@,
                    chunk@,
                    Seq::empty(),
                ),
            decreases n - i,
        {
            let ghost pre_out = out.deep_view();
            proof {
                assert(chunk@.skip(i as int).drop_first() =~= chunk@.skip(i + 1));
                assert(chunk@.skip(i as int)[0] == chunk@[i as int]);
            }
            let c = chunk.get_char(i);
            if c == '\n' {
                let blank_line = self.buffer.len() == 0 || self.ends_with_newline();
                if blank_line {
                    match self.take_event() {
                        Some(data) => {
                            out.push(data);
                            proof {
                                assert(out.deep_view() =~= pre_out.push(
                                    out@[out@.len() - 1]@,
                                ));
                            }
                        },
                        None => {},
                    }
                } else {
                    let ghost pre_buf = self.buffer@;
                    self.buffer.push('\n');
                    proof {
                        assert(self.buffer@ =~= pre_buf.push('\n'));
                    }
                }
            } else if c == '\r' {
                // Normalised away: the wire format ends lines with \n.
            } else {
                let ghost pre_buf = self.buffer@;
                self.buffer.push(c);
                proof {
                    assert(self.buffer@ =~= pre_buf.push(c));
                }
            }
            i += 1;
        }
        proof {
            assert(chunk@.skip(n as int) =~= Seq::<char>::empty());
        }
        out
    }

    /// Whether the buffer ends with a line break.
    fn ends_with_newline(&self) -> (r: bool)
        ensures
            r == (self.buffer@.len() > 0 && self.buffer@[self.buffer@.len() - 1] == '\n'),
    {
        let len = self.buffer.len();
        if len == 0 {
            false
        } else {
            self.buffer[len - 1] == '\n'
        }
    }

    /// Extract the event in the buffer, joining its `data:` lines; `None`
    /// when no line carries data. The buffer is left empty.
    #[verifier::loop_isolation(false)]
    fn take_event(&mut self) -> (r: Option<String>)
        ensures
            final(self).buffer@ == Seq::<char>::empty(),
            (match r {
                Some(d) => spec_take_event(old(self).buffer@) == Some(d@),
                None => spec_take_event(old(self).buffer@) is None,
            }),
    {
        let mut data = String::new();
        let mut saw_data = false;
        let mut line = String::new();
        let n = self.buffer.len();
        let mut i: usize = 0;
        proof {
            assert(self.buffer@.skip(0) =~= self.buffer@);
        }
        while i < n
            invariant
                n == self.buffer@.len(),
                self.buffer@ == old(self).buffer@,
                i <= n,
                !saw_data ==> data@ == Seq::<char>::empty(),
                spec_event_lines(self.buffer@.skip(i as int), line@, data@, saw_data)
                    == spec_take_event(old(self).buffer@),
            decreases n - i,
        {
            proof {
                assert(self.buffer@.skip(i as int).drop_first() =~= self.buffer@.skip(i + 1));
                assert(self.buffer@.skip(i as int)[0] == self.buffer@[i as int]);
            }
            let c = self.buffer[i];
            if c == '\n' {
                match strip_data_prefix(&line) {
                    Some(rest) => {
                        let ghost pre_data = data@;
                        let ghost pre_saw = saw_data;
                        if saw_data {
                            push_char(&mut data, '\n');
                        }
                        data.append(rest.as_str());
                        proof {
                            if pre_saw {
                                assert(data@ =~= pre_data + seq!['\n'] + rest@);
                            } else {
                                assert(data@ =~= rest@);
                            }
                        }
                        saw_data = true;
                    },
                    None => {},
                }
                line = String::new();
            } else {
                push_char(&mut line, c);
            }
            i += 1;
        }
        proof {
            assert(self.buffer@.skip(n as int) =~= Seq::<char>::empty());
        }
        match strip_data_prefix(&line) {
            Some(rest) => {
                let ghost pre_data = data@;
                let ghost pre_saw = saw_data;
                if saw_data {
                    push_char(&mut data, '\n');
                }
                data.append(rest.as_str());
                proof {
                    if pre_saw {
                        assert(data@ =~= pre_data + seq!['\n'] + rest@);
                    } else {
                        assert(data@ =~= rest@);
                    }
                }
                saw_data = true;
            },
            None => {},
        }
        self.buffer.clear();
        if saw_data {
            Some(data)
        } else {
            None
        }
    }
}

/// The text after a `data:` prefix, with one leading space removed; `None`
/// when the line carries no data.
#[verifier::loop_isolation(false)]
fn strip_data_prefix(line: &String) -> (r: Option<String>)
    ensures
        (match r {
            Some(rest) => spec_strip_data(line@) == Some(rest@),
            None => spec_strip_data(line@) is None,
        }),
{
    let n = line.as_str().unicode_len();
    if n < 5 {
        return None;
    }
    let s = line.as_str();
    if s.get_char(0) != 'd' || s.get_char(1) != 'a' || s.get_char(2) != 't'
        || s.get_char(3) != 'a' || s.get_char(4) != ':' {
        return None;
    }
    let start: usize = if n > 5 && s.get_char(5) == ' ' {
        6
    } else {
        5
    };
    let mut out = String::new();
    let mut i: usize = start;
    while i < n
        invariant
            n == s@.len(),
            start <= i <= n,
            out@ == s@.subrange(start as int, i as int),
        decreases n - i,
    {
        push_char(&mut out, s.get_char(i));
        proof {
            assert(out@ =~= s@.subrange(start as int, i + 1));
        }
        i += 1;
    }
    Some(out)
}

} // verus!
