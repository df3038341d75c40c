//! Decoding of the model's streamed reply: server-sent-event lines, the JSON
//! deltas they carry and the tool calls that accumulate across them.

use crate::text::{chars_of, decimal, decimal_string, has_prefix, same_text, string_of, trim_seq, trim_text};
use crate::fields::{
    get_in, json_array, json_at, json_get, json_parse, json_u64, parse_json, str_in, str_member,
    value_as_array, value_as_u64, value_at, value_get,
};
use crate::types::{opt_text, FinishReason, LlmStreamChunk};
use vstd::prelude::*;

verus! {

broadcast use vstd::string::group_string_axioms;

/// Position of the first occurrence of `c`.
pub open spec fn find_char(s: Seq<char>, c: char) -> Option<nat>
    decreases s.len(),
{
    if s.len() == 0 {
        None
    } else if s[0] == c {
        Some(0)
    } else {
        match find_char(s.drop_first(), c) {
            Some(i) => Some(i + 1),
            None => None,
        }
    }
}

proof fn lemma_find_char(s: Seq<char>, c: char, i: int)
    requires
        0 <= i <= s.len(),
        forall|k: int| 0 <= k < i ==> s[k] != c,
    ensures
        find_char(s, c) == match find_char(s.skip(i), c) {
            Some(j) => Some((j + i) as nat),
            None => None::<nat>,
        },
    decreases i,
{
    if i > 0 {
        assert(s.skip(1).skip(i - 1) == s.skip(i));
        lemma_find_char(s.drop_first(), c, i - 1);
    } else {
        assert(s.skip(0) == s);
    }
}

/// Where `find_char` points: at the first occurrence of the character.
proof fn lemma_find_char_found(s: Seq<char>, c: char)
    ensures
        find_char(s, c) matches Some(p) ==> p < s.len() && s[p as int] == c && forall|k: int|
            0 <= k < p ==> s[k] != c,
        find_char(s, c) is None ==> forall|k: int| 0 <= k < s.len() ==> s[k] != c,
    decreases s.len(),
{
    if s.len() > 0 && s[0] != c {
        lemma_find_char_found(s.drop_first(), c);
        assert forall|k: int| 1 <= k < s.len() implies s[k] == s.drop_first()[k - 1] by {}
    }
}

/// Cutting a line off the received text loses nothing: the line, its
/// newline and the rest are the text, and the line holds no newline.
pub proof fn lemma_line_cut_lossless(pending: Seq<char>)
    ensures
        find_char(pending, '\n') matches Some(p) ==> {
            &&& pending == pending.take(p as int) + seq!['\n'] + pending.skip(p as int + 1)
            &&& forall|k: int| 0 <= k < p ==> pending.take(p as int)[k] != '\n'
        },
{
    lemma_find_char_found(pending, '\n');
    if let Some(p) = find_char(pending, '\n') {
        assert(pending =~= pending.take(p as int) + seq!['\n'] + pending.skip(p as int + 1));
    }
}

/// Text received but not yet cut into lines.
#[derive(Debug)]
pub struct SseBuffer {
    pending: Vec<char>,
}

impl SseBuffer {
    /// The text not yet cut into lines.
    pub closed spec fn spec_pending(&self) -> Seq<char> {
        self.pending@
    }

    /// An empty buffer.
    pub fn new() -> (b: Self)
        ensures
            b.spec_pending() == Seq::<char>::empty(),
    {
        SseBuffer { pending: Vec::new() }
    }

    /// Appends received text.
    pub fn push_text(&mut self, s: &str)
        ensures
            final(self).spec_pending() == old(self).spec_pending() + s@,
    {
        let cs = chars_of(s);
        let mut i: usize = 0;
        let ghost p0 = self.pending@;
        while i < cs.len()
            invariant
                i <= cs@.len(),
                cs@ == s@,
                self.pending@ == p0 + s@.take(i as int),
            decreases cs.len() - i,
        {
            self.pending.push(cs[i]);
            assert(s@.take(i + 1) == s@.take(i as int).push(s@[i as int]));
            i = i + 1;
        }
        assert(s@.take(s@.len() as int) == s@);
    }

    /// Cuts off the first complete line, without its newline; `None` while no
    /// newline has arrived.
    pub fn next_line(&mut self) -> (r: Option<String>)
        ensures
            match find_char(old(self).spec_pending(), '\n') {
                Some(p) => r matches Some(line) && line@ == old(self).spec_pending().take(p as int)
                    && final(self).spec_pending() == old(self).spec_pending().skip(p as int + 1),
                None => r is None && final(self).spec_pending() == old(self).spec_pending(),
            },
    {
        let mut i: usize = 0;
        while i < self.pending.len()
            invariant
                i <= self.pending@.len(),
                self.pending@ == old(self).pending@,
                forall|k: int| 0 <= k < i ==> self.pending@[k] != '\n',
            decreases self.pending.len() - i,
        {
            if self.pending[i] == '\n' {
                proof {
                    lemma_find_char(self.pending@, '\n', i as int);
                    assert(self.pending@.skip(i as int)[0] == '\n');
                }
                let ghost before = self.pending@;
                let mut line: Vec<char> = Vec::new();
                let mut j: usize = 0;
                while j < i
                    invariant
                        j <= i,
                        i < self.pending@.len(),
                        self.pending@ == before,
                        line@ == before.take(j as int),
                    decreases i - j,
                {
                    line.push(self.pending[j]);
                    assert(before.take(j + 1) == before.take(j as int).push(before[j as int]));
                    j = j + 1;
                }
                let mut rest: Vec<char> = Vec::new();
                let mut k: usize = i + 1;
                while k < self.pending.len()
                    invariant
                        i + 1 <= k <= self.pending@.len(),
                        self.pending@ == before,
                        rest@ == before.subrange(i + 1, k as int),
                    decreases self.pending.len() - k,
                {
                    rest.push(self.pending[k]);
                    assert(before.subrange(i + 1, k + 1) == before.subrange(i + 1, k as int).push(
                        before[k as int],
                    ));
                    k = k + 1;
                }
                self.pending = rest;
                assert(before.skip(i + 1) == before.subrange(i + 1, before.len() as int));
                return Some(string_of(line.as_slice()));
            }
            i = i + 1;
        }
        proof {
            lemma_find_char(self.pending@, '\n', self.pending@.len() as int);
            assert(self.pending@.skip(self.pending@.len() as int).len() == 0);
        }
        None
    }
}

/// What a line of the event stream says.
#[derive(Debug)]
pub enum SseLine {
    /// Nothing (blank line, comment, or another field).
    Skip,
    /// The end-of-stream marker `[DONE]`.
    Done,
    /// A data payload.
    Data(String),
}

/// Abstract value of a classified line.
pub enum SseLineView {
    Skip,
    Done,
    Data(Seq<char>),
}

/// Abstract value of a classified line.
pub open spec fn sse_line_view(l: SseLine) -> SseLineView {
    match l {
        SseLine::Skip => SseLineView::Skip,
        SseLine::Done => SseLineView::Done,
        SseLine::Data(d) => SseLineView::Data(d@),
    }
}

/// The data prefix of an event line.
pub open spec fn data_prefix() -> Seq<char> {
    "data: "@
}

/// A line read the tools' way: trimmed; blank lines and comments skipped;
/// a `data: ` field's payload trimmed again, `[DONE]` ending the stream;
/// other fields skipped.
pub open spec fn classify_line_spec(raw: Seq<char>) -> SseLineView {
    let line = trim_seq(raw);
    if line.len() == 0 || line[0] == ':' {
        SseLineView::Skip
    } else if has_prefix(line, data_prefix()) {
        let d = trim_seq(line.skip(6));
        if d == "[DONE]"@ {
            SseLineView::Done
        } else {
            SseLineView::Data(d)
        }
    } else {
        SseLineView::Skip
    }
}

/// A line read the server's way: trimmed; lines that are not `data: `
/// fields skipped; the payload taken as it stands, `[DONE]` ending the
/// stream.
pub open spec fn classify_server_line_spec(raw: Seq<char>) -> SseLineView {
    let line = trim_seq(raw);
    if line.len() == 0 || !has_prefix(line, data_prefix()) {
        SseLineView::Skip
    } else {
        let d = line.skip(6);
        if d == "[DONE]"@ {
            SseLineView::Done
        } else {
            SseLineView::Data(d)
        }
    }
}

/// The characters from position `from` on, as a string.
fn tail_string(cs: &Vec<char>, from: usize) -> (r: String)
    requires
        from <= cs@.len(),
    ensures
        r@ == cs@.skip(from as int),
{
    let mut out: Vec<char> = Vec::new();
    let mut k: usize = from;
    while k < cs.len()
        invariant
            from <= k <= cs@.len(),
            out@ == cs@.subrange(from as int, k as int),
        decreases cs.len() - k,
    {
        out.push(cs[k]);
        assert(cs@.subrange(from as int, k + 1) == cs@.subrange(from as int, k as int).push(
            cs@[k as int],
        ));
        k = k + 1;
    }
    assert(cs@.skip(from as int) == cs@.subrange(from as int, cs@.len() as int));
    string_of(out.as_slice())
}

/// Classifies a line the tools' way.
pub fn classify_line(raw: &str) -> (r: SseLine)
    ensures
        sse_line_view(r) == classify_line_spec(raw@),
{
    proof {
        reveal_strlit("data: ");
    }
    let trimmed = trim_text(raw);
    let line = trimmed.as_str();
    let cs = chars_of(line);
    if cs.len() == 0 || cs[0] == ':' {
        return SseLine::Skip;
    }
    if crate::text::starts_with(line, "data: ") {
        let payload = tail_string(&cs, 6);
        let d = trim_text(payload.as_str());
        if same_text(d.as_str(), "[DONE]") {
            SseLine::Done
        } else {
            SseLine::Data(d)
        }
    } else {
        SseLine::Skip
    }
}

/// Classifies a line the server's way.
pub fn classify_server_line(raw: &str) -> (r: SseLine)
    ensures
        sse_line_view(r) == classify_server_line_spec(raw@),
{
    proof {
        reveal_strlit("data: ");
    }
    let trimmed = trim_text(raw);
    let line = trimmed.as_str();
    let cs = chars_of(line);
    if cs.len() == 0 || !crate::text::starts_with(line, "data: ") {
        return SseLine::Skip;
    }
    let d = tail_string(&cs, 6);
    if same_text(d.as_str(), "[DONE]") {
        SseLine::Done
    } else {
        SseLine::Data(d)
    }
}

// ---------------------------------------------------------------------------
// Stream chunks as values
// ---------------------------------------------------------------------------

/// Abstract value of a stream chunk.
pub enum ChunkView {
    Content(Seq<char>),
    ToolCallStart { id: Seq<char>, name: Seq<char> },
    ToolCallDelta { arguments: Seq<char> },
    Done { finish_reason: FinishReason },
    Error(Seq<char>),
}

/// Abstract value of a stream chunk.
pub open spec fn chunk_view(c: LlmStreamChunk) -> ChunkView {
    match c {
        LlmStreamChunk::Content(t) => ChunkView::Content(t@),
        LlmStreamChunk::ToolCallStart { id, name } => ChunkView::ToolCallStart {
            id: id@,
            name: name@,
        },
        LlmStreamChunk::ToolCallDelta { arguments } => ChunkView::ToolCallDelta {
            arguments: arguments@,
        },
        LlmStreamChunk::Done { finish_reason } => ChunkView::Done { finish_reason },
        LlmStreamChunk::Error(e) => ChunkView::Error(e@),
    }
}

/// Abstract value of a list of chunks.
pub open spec fn chunks_view(v: Seq<LlmStreamChunk>) -> Seq<ChunkView> {
    v.map_values(|c: LlmStreamChunk| chunk_view(c))
}

/// The finish reason a `finish_reason` field names; unknown names count as a
/// normal stop.
pub open spec fn finish_reason_of(s: Seq<char>) -> FinishReason {
    if s == "stop"@ {
        FinishReason::Stop
    } else if s == "length"@ {
        FinishReason::Length
    } else if s == "tool_calls"@ {
        FinishReason::ToolCalls
    } else {
        FinishReason::Stop
    }
}

/// Maps a `finish_reason` field to a finish reason.
pub fn parse_finish_reason(s: &str) -> (r: FinishReason)
    ensures
        r == finish_reason_of(s@),
{
    if same_text(s, "stop") {
        FinishReason::Stop
    } else if same_text(s, "length") {
        FinishReason::Length
    } else if same_text(s, "tool_calls") {
        FinishReason::ToolCalls
    } else {
        FinishReason::Stop
    }
}

// ---------------------------------------------------------------------------
// Deltas, the tools' way
// ---------------------------------------------------------------------------

/// A tool-call fragment of a delta.
#[derive(Debug)]
pub struct ToolCallPiece {
    /// Position of the call among the reply's calls.
    pub index: Option<u64>,
    /// Whether the fragment has a `function` object.
    pub has_function: bool,
    /// Function name.
    pub name: Option<String>,
    /// Argument text.
    pub arguments: Option<String>,
}

/// One decoded event payload: the first choice's delta (if any) and its
/// finish reason (if any).
#[derive(Debug)]
pub struct StreamDelta {
    /// Whether the first choice has a `delta` object.
    pub has_delta: bool,
    /// Text of the delta.
    pub content: Option<String>,
    /// Tool-call fragments of the delta.
    pub tool_calls: Vec<ToolCallPiece>,
    /// Finish reason of the first choice.
    pub finish_reason: Option<String>,
}

/// The id the tools give a streamed call: `call_{index}`.
pub open spec fn call_id_text(index: nat) -> Seq<char> {
    "call_"@ + decimal(index)
}

/// The chunks of one tool-call fragment: a start when it names a function,
/// then its argument text when it has some.
pub open spec fn piece_chunks(p: ToolCallPiece) -> Seq<ChunkView> {
    if !p.has_function {
        Seq::empty()
    } else {
        let idx: nat = match p.index {
            Some(i) => i as nat,
            None => 0,
        };
        (match p.name {
            Some(n) => seq![ChunkView::ToolCallStart { id: call_id_text(idx), name: n@ }],
            None => Seq::empty(),
        }) + (match p.arguments {
            Some(a) => seq![ChunkView::ToolCallDelta { arguments: a@ }],
            None => Seq::empty(),
        })
    }
}

/// The chunks of the fragments, in order.
pub open spec fn pieces_chunks(ps: Seq<ToolCallPiece>) -> Seq<ChunkView>
    decreases ps.len(),
{
    if ps.len() == 0 {
        Seq::empty()
    } else {
        pieces_chunks(ps.drop_last()) + piece_chunks(ps.last())
    }
}

/// The chunks of a payload: non-empty text, then the tool-call fragments,
/// then the end of the reply when a finish reason is given.
pub open spec fn delta_chunks_spec(d: StreamDelta) -> Seq<ChunkView> {
    (if d.has_delta {
        (match d.content {
            Some(c) => if c@.len() > 0 {
                seq![ChunkView::Content(c@)]
            } else {
                Seq::empty()
            },
            None => Seq::empty(),
        }) + pieces_chunks(d.tool_calls@)
    } else {
        Seq::empty()
    }) + match d.finish_reason {
        Some(f) => seq![ChunkView::Done { finish_reason: finish_reason_of(f@) }],
        None => Seq::empty(),
    }
}

/// The first choice of a payload.
pub open spec fn first_choice(p: serde_json::Value) -> Option<serde_json::Value> {
    match json_get(p, "choices"@) {
        Some(c) => json_at(c, 0),
        None => None,
    }
}

/// Whether a decoded fragment holds what a `tool_calls` element says: its
/// `index` when it is an integer, whether it has a `function`, and that
/// function's `name` and `arguments` texts.
pub open spec fn piece_of(p: ToolCallPiece, tc: serde_json::Value) -> bool {
    let f = json_get(tc, "function"@);
    &&& p.index == match json_get(tc, "index"@) {
        Some(i) => json_u64(i),
        None => None,
    }
    &&& p.has_function == f is Some
    &&& opt_text(p.name) == str_in(get_in(f, "name"@))
    &&& opt_text(p.arguments) == str_in(get_in(f, "arguments"@))
}

/// The `tool_calls` elements of a delta: none unless it is an array.
pub open spec fn delta_tool_calls(delta: Option<serde_json::Value>) -> Seq<serde_json::Value> {
    match get_in(delta, "tool_calls"@) {
        Some(a) => match json_array(a) {
            Some(es) => es,
            None => Seq::empty(),
        },
        None => Seq::empty(),
    }
}

/// Whether a decoded payload holds what the JSON payload says of its first
/// choice: whether it has a `delta`, the delta's `content` text and
/// `tool_calls` fragments, and the choice's `finish_reason` text.
pub open spec fn delta_of(d: StreamDelta, p: serde_json::Value) -> bool {
    let choice = first_choice(p);
    let delta = get_in(choice, "delta"@);
    let tcs = delta_tool_calls(delta);
    &&& d.has_delta == delta is Some
    &&& opt_text(d.content) == if delta is Some {
        str_in(get_in(delta, "content"@))
    } else {
        None
    }
    &&& d.tool_calls@.len() == if delta is Some {
        tcs.len()
    } else {
        0
    }
    &&& delta is Some ==> forall|i: int|
        0 <= i < tcs.len() ==> piece_of(#[trigger] d.tool_calls@[i], tcs[i])
    &&& opt_text(d.finish_reason) == str_in(get_in(choice, "finish_reason"@))
}

fn decode_piece(tc: &serde_json::Value) -> (p: ToolCallPiece)
    ensures
        piece_of(p, *tc),
{
    let index = match value_get(tc, "index") {
        Some(i) => value_as_u64(i),
        None => None,
    };
    match value_get(tc, "function") {
        Some(f) => ToolCallPiece {
            index,
            has_function: true,
            name: str_member(f, "name"),
            arguments: str_member(f, "arguments"),
        },
        None => ToolCallPiece { index, has_function: false, name: None, arguments: None },
    }
}

/// Decodes the JSON text of an event payload, the tools' way; text that is
/// not JSON gives nothing (the payload is skipped).
pub fn decode_payload(data: &str) -> (r: Option<StreamDelta>)
    ensures
        match json_parse(data@) {
            Ok(v) => r matches Some(d) && delta_of(d, v),
            Err(_) => r is None,
        },
{
    let v = match parse_json(data) {
        Ok(v) => v,
        Err(_) => return None,
    };
    let choice = match value_get(&v, "choices") {
        Some(c) => value_at(c, 0),
        None => None,
    };
    let mut has_delta = false;
    let mut content: Option<String> = None;
    let mut tool_calls: Vec<ToolCallPiece> = Vec::new();
    let mut finish_reason: Option<String> = None;
    match choice {
        Some(c) => {
            match value_get(c, "delta") {
                Some(delta) => {
                    has_delta = true;
                    content = str_member(delta, "content");
                    let arr = match value_get(delta, "tool_calls") {
                        Some(t) => value_as_array(t),
                        None => None,
                    };
                    match arr {
                        Some(es) => {
                            let mut i: usize = 0;
                            while i < es.len()
                                invariant
                                    i <= es@.len(),
                                    tool_calls@.len() == i,
                                    forall|k: int|
                                        0 <= k < i ==> piece_of(#[trigger] tool_calls@[k], es@[k]),
                                decreases es.len() - i,
                            {
                                tool_calls.push(decode_piece(&es[i]));
                                i = i + 1;
                            }
                        },
                        None => {},
                    }
                },
                None => {},
            }
            finish_reason = str_member(c, "finish_reason");
        },
        None => {},
    }
    Some(StreamDelta { has_delta, content, tool_calls, finish_reason })
}

/// Turns a payload into chunks; the flag tells whether the reply has ended.
pub fn delta_chunks(d: &StreamDelta) -> (r: (Vec<LlmStreamChunk>, bool))
    ensures
        chunks_view(r.0@) == delta_chunks_spec(*d),
        r.1 == d.finish_reason is Some,
{
    let mut out: Vec<LlmStreamChunk> = Vec::new();
    if d.has_delta {
        match &d.content {
            Some(c) => {
                if !c.as_str().is_empty() {
                    out.push(LlmStreamChunk::Content(c.clone()));
                }
            },
            None => {},
        }
        let ghost head = chunks_view(out@);
        assert(head =~= match d.content {
            Some(c) => if c@.len() > 0 {
                seq![ChunkView::Content(c@)]
            } else {
                Seq::empty()
            },
            None => Seq::empty(),
        });
        let mut i: usize = 0;
        while i < d.tool_calls.len()
            invariant
                i <= d.tool_calls@.len(),
                chunks_view(out@) == head + pieces_chunks(d.tool_calls@.take(i as int)),
            decreases d.tool_calls.len() - i,
        {
            let p = &d.tool_calls[i];
            let ghost before = out@;
            if p.has_function {
                match &p.name {
                    Some(n) => {
                        let idx: u64 = match p.index {
                            Some(x) => x,
                            None => 0,
                        };
                        let num = decimal_string(idx);
                        let mut id = String::from_str("call_");
                        id.append(num.as_str());
                        out.push(LlmStreamChunk::ToolCallStart { id, name: n.clone() });
                    },
                    None => {},
                }
                match &p.arguments {
                    Some(a) => out.push(LlmStreamChunk::ToolCallDelta { arguments: a.clone() }),
                    None => {},
                }
            }
            proof {
                assert(d.tool_calls@.take(i + 1).drop_last() == d.tool_calls@.take(i as int));
                assert(d.tool_calls@.take(i + 1).last() == d.tool_calls@[i as int]);
                assert(chunks_view(out@) =~= chunks_view(before) + piece_chunks(d.tool_calls@[i as int]));
            }
            i = i + 1;
        }
        assert(d.tool_calls@.take(d.tool_calls@.len() as int) == d.tool_calls@);
    }
    let ghost mid = chunks_view(out@);
    let finished = match &d.finish_reason {
        Some(f) => {
            out.push(LlmStreamChunk::Done { finish_reason: parse_finish_reason(f.as_str()) });
            true
        },
        None => false,
    };
    assert(chunks_view(out@) =~= mid + match d.finish_reason {
        Some(f) => seq![ChunkView::Done { finish_reason: finish_reason_of(f@) }],
        None => Seq::empty(),
    });
    (out, finished)
}

// ---------------------------------------------------------------------------
// Deltas, the server's way: tool calls accumulate until the stream ends
// ---------------------------------------------------------------------------

/// Function part of a tool-call fragment.
#[derive(Debug)]
pub struct FunctionDelta {
    pub name: Option<String>,
    pub arguments: Option<String>,
}

/// A tool-call fragment as the server decodes it.
#[derive(Debug)]
pub struct ServerToolCallDelta {
    /// Position of the call among the reply's calls.
    pub index: usize,
    pub id: Option<String>,
    pub function: Option<FunctionDelta>,
}

/// One choice of a decoded payload.
#[derive(Debug)]
pub struct ServerChoice {
    pub content: Option<String>,
    pub tool_calls: Option<Vec<ServerToolCallDelta>>,
    pub finish_reason: Option<String>,
}

/// A tool call being accumulated: the latest id and name seen for its
/// position, and all its argument fragments joined in arrival order.
#[derive(Debug)]
pub struct ToolCallSlot {
    pub id: Option<String>,
    pub name: Option<String>,
    pub arguments: Option<String>,
}

/// Abstract value of a slot.
pub struct SlotView {
    pub id: Option<Seq<char>>,
    pub name: Option<Seq<char>>,
    pub arguments: Option<Seq<char>>,
}

/// Abstract value of a slot.
pub open spec fn slot_view(s: ToolCallSlot) -> SlotView {
    SlotView {
        id: crate::types::opt_text(s.id),
        name: crate::types::opt_text(s.name),
        arguments: crate::types::opt_text(s.arguments),
    }
}

/// Abstract value of a list of slots.
pub open spec fn slots_view(v: Seq<ToolCallSlot>) -> Seq<SlotView> {
    v.map_values(|s: ToolCallSlot| slot_view(s))
}

/// An empty slot.
pub open spec fn empty_slot() -> SlotView {
    SlotView { id: None, name: None, arguments: None }
}

/// The slots grown with empty ones until position `index` exists.
pub open spec fn grow_slots(s: Seq<SlotView>, index: nat) -> Seq<SlotView> {
    if index < s.len() {
        s
    } else {
        s + Seq::new((index + 1 - s.len()) as nat, |_i: int| empty_slot())
    }
}

/// A field after a fragment: replaced when the fragment carries it.
pub open spec fn replace_field(old: Option<Seq<char>>, new: Option<String>) -> Option<Seq<char>> {
    match new {
        Some(v) => Some(v@),
        None => old,
    }
}

/// Arguments after a fragment: the fragment's text is appended to the text
/// so far (empty when there is none yet).
pub open spec fn join_field(old: Option<Seq<char>>, new: Option<String>) -> Option<Seq<char>> {
    match new {
        Some(v) => Some(
            match old {
                Some(o) => o,
                None => Seq::<char>::empty(),
            } + v@,
        ),
        None => old,
    }
}

/// The slots after one fragment: the slot at its position (created if
/// needed) takes the id and name that the fragment carries, and the
/// fragment's argument text is appended to the call's arguments.
pub open spec fn apply_fragment(s: Seq<SlotView>, d: ServerToolCallDelta) -> Seq<SlotView> {
    let g = grow_slots(s, d.index as nat);
    let old = g[d.index as int];
    g.update(
        d.index as int,
        SlotView {
            id: replace_field(old.id, d.id),
            name: match d.function {
                Some(f) => replace_field(old.name, f.name),
                None => old.name,
            },
            arguments: match d.function {
                Some(f) => join_field(old.arguments, f.arguments),
                None => old.arguments,
            },
        },
    )
}

/// The slots after a list of fragments.
pub open spec fn apply_fragments(s: Seq<SlotView>, ds: Seq<ServerToolCallDelta>) -> Seq<SlotView>
    decreases ds.len(),
{
    if ds.len() == 0 {
        s
    } else {
        apply_fragment(apply_fragments(s, ds.drop_last()), ds.last())
    }
}

/// The chunks a choice yields at once: its text (even empty), and the end
/// of the reply when it finished for length.
pub open spec fn choice_chunks(c: ServerChoice) -> Seq<ChunkView> {
    (match c.content {
        Some(t) => seq![ChunkView::Content(t@)],
        None => Seq::empty(),
    }) + match c.finish_reason {
        Some(f) => if f@ == "length"@ {
            seq![ChunkView::Done { finish_reason: FinishReason::Length }]
        } else {
            Seq::empty()
        },
        None => Seq::empty(),
    }
}

/// The chunks of one accumulated call: its start and its arguments.
pub open spec fn slot_chunks(s: SlotView) -> Seq<ChunkView> {
    let or_empty = |o: Option<Seq<char>>| match o {
        Some(v) => v,
        None => Seq::<char>::empty(),
    };
    seq![
        ChunkView::ToolCallStart { id: or_empty(s.id), name: or_empty(s.name) },
        ChunkView::ToolCallDelta { arguments: or_empty(s.arguments) },
    ]
}

/// The chunks of all accumulated calls, in position order.
pub open spec fn slots_chunks(s: Seq<SlotView>) -> Seq<ChunkView>
    decreases s.len(),
{
    if s.len() == 0 {
        Seq::empty()
    } else {
        slots_chunks(s.drop_last()) + slot_chunks(s.last())
    }
}

/// Tool calls accumulated over a streamed reply.
#[derive(Debug)]
pub struct ToolCallSlots {
    pub slots: Vec<ToolCallSlot>,
}

fn take_text(o: &Option<String>) -> (r: String)
    ensures
        r@ == match crate::types::opt_text(*o) {
            Some(v) => v,
            None => Seq::<char>::empty(),
        },
{
    match o {
        Some(v) => v.clone(),
        None => String::new(),
    }
}

fn replaced(old: &Option<String>, new: &Option<String>) -> (r: Option<String>)
    ensures
        crate::types::opt_text(r) == replace_field(crate::types::opt_text(*old), *new),
{
    match new {
        Some(v) => Some(v.clone()),
        None => match old {
            Some(o) => Some(o.clone()),
            None => None,
        },
    }
}

fn joined(old: &Option<String>, new: &Option<String>) -> (r: Option<String>)
    ensures
        crate::types::opt_text(r) == join_field(crate::types::opt_text(*old), *new),
{
    match new {
        Some(v) => {
            let mut out = match old {
                Some(o) => o.clone(),
                None => String::new(),
            };
            out.append(v.as_str());
            Some(out)
        },
        None => match old {
            Some(o) => Some(o.clone()),
            None => None,
        },
    }
}

impl ToolCallSlots {
    /// No calls yet.
    pub fn new() -> (s: Self)
        ensures
            slots_view(s.slots@) == Seq::<SlotView>::empty(),
    {
        let s = ToolCallSlots { slots: Vec::new() };
        assert(slots_view(s.slots@) =~= Seq::<SlotView>::empty());
        s
    }

    /// Takes one tool-call fragment.
    pub fn apply(&mut self, d: &ServerToolCallDelta)
        requires
            d.index < usize::MAX,
        ensures
            slots_view(final(self).slots@) == apply_fragment(slots_view(old(self).slots@), *d),
    {
        let ghost s0 = slots_view(self.slots@);
        while self.slots.len() <= d.index
            invariant
                d.index < usize::MAX,
                s0 == slots_view(old(self).slots@),
                self.slots@.len() >= s0.len(),
                s0.len() <= d.index ==> self.slots@.len() <= d.index + 1,
                s0.len() > d.index ==> self.slots@.len() == s0.len(),
                forall|k: int| 0 <= k < s0.len() ==> slot_view(#[trigger] self.slots@[k]) == s0[k],
                forall|k: int|
                    s0.len() <= k < self.slots@.len() ==> slot_view(#[trigger] self.slots@[k])
                        == empty_slot(),
            decreases d.index + 1 - self.slots@.len(),
        {
            self.slots.push(ToolCallSlot { id: None, name: None, arguments: None });
        }
        let ghost g = slots_view(self.slots@);
        assert(g =~= grow_slots(s0, d.index as nat));
        let i = d.index;
        let cur = &self.slots[i];
        let id = replaced(&cur.id, &d.id);
        let (name, arguments) = match &d.function {
            Some(f) => (replaced(&cur.name, &f.name), joined(&cur.arguments, &f.arguments)),
            None => (clone_opt(&cur.name), clone_opt(&cur.arguments)),
        };
        self.slots.set(i, ToolCallSlot { id, name, arguments });
        assert(slots_view(self.slots@) =~= apply_fragment(s0, *d));
    }

    /// Takes one choice of a payload; returns the chunks it yields at once.
    pub fn on_choice(&mut self, c: &ServerChoice) -> (r: Vec<LlmStreamChunk>)
        requires
            c.tool_calls matches Some(v) ==> forall|i: int| 0 <= i < v@.len() ==> (#[trigger] v@[i]).index < usize::MAX,
        ensures
            chunks_view(r@) == choice_chunks(*c),
            slots_view(final(self).slots@) == match c.tool_calls {
                Some(v) => apply_fragments(slots_view(old(self).slots@), v@),
                None => slots_view(old(self).slots@),
            },
    {
        let mut out: Vec<LlmStreamChunk> = Vec::new();
        match &c.content {
            Some(t) => out.push(LlmStreamChunk::Content(t.clone())),
            None => {},
        }
        match &c.tool_calls {
            Some(v) => {
                let ghost s0 = slots_view(self.slots@);
                let mut i: usize = 0;
                while i < v.len()
                    invariant
                        i <= v@.len(),
                        forall|k: int| 0 <= k < v@.len() ==> (#[trigger] v@[k]).index < usize::MAX,
                        s0 == slots_view(old(self).slots@),
                        slots_view(self.slots@) == apply_fragments(s0, v@.take(i as int)),
                    decreases v.len() - i,
                {
                    proof {
                        assert(v@.take(i + 1).drop_last() == v@.take(i as int));
                        assert(v@.take(i + 1).last() == v@[i as int]);
                    }
                    self.apply(&v[i]);
                    i = i + 1;
                }
                assert(v@.take(v@.len() as int) == v@);
            },
            None => {},
        }
        let ghost mid = chunks_view(out@);
        match &c.finish_reason {
            Some(f) => {
                if same_text(f.as_str(), "length") {
                    out.push(LlmStreamChunk::Done { finish_reason: FinishReason::Length });
                }
            },
            None => {},
        }
        assert(chunks_view(out@) =~= choice_chunks(*c));
        out
    }

    /// The chunks sent when the stream ends: every accumulated call, in
    /// position order, as a start and its arguments (missing parts empty),
    /// then the end of the reply.
    pub fn finish_chunks(&self) -> (r: Vec<LlmStreamChunk>)
        ensures
            chunks_view(r@) == slots_chunks(slots_view(self.slots@)) + seq![
                ChunkView::Done { finish_reason: FinishReason::Stop },
            ],
    {
        let ghost sv = slots_view(self.slots@);
        let mut out: Vec<LlmStreamChunk> = Vec::new();
        let mut i: usize = 0;
        while i < self.slots.len()
            invariant
                i <= self.slots@.len(),
                sv == slots_view(self.slots@),
                chunks_view(out@) == slots_chunks(sv.take(i as int)),
            decreases self.slots.len() - i,
        {
            let s = &self.slots[i];
            let ghost before = out@;
            out.push(LlmStreamChunk::ToolCallStart { id: take_text(&s.id), name: take_text(&s.name) });
            out.push(LlmStreamChunk::ToolCallDelta { arguments: take_text(&s.arguments) });
            proof {
                assert(sv.take(i + 1).drop_last() == sv.take(i as int));
                assert(sv.take(i + 1).last() == sv[i as int]);
                assert(chunks_view(out@) =~= chunks_view(before) + slot_chunks(sv[i as int]));
            }
            i = i + 1;
        }
        assert(sv.take(sv.len() as int) == sv);
        let ghost mid = chunks_view(out@);
        out.push(LlmStreamChunk::Done { finish_reason: FinishReason::Stop });
        assert(chunks_view(out@) =~= mid.push(ChunkView::Done { finish_reason: FinishReason::Stop }));
        out
    }
}

fn clone_opt(o: &Option<String>) -> (r: Option<String>)
    ensures
        crate::types::opt_text(r) == crate::types::opt_text(*o),
{
    match o {
        Some(v) => Some(v.clone()),
        None => None,
    }
}

} // verus!
