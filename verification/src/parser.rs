//! The agent's output, line by line.
//!
//! Each line is a JSON object with a `type`:
//! - `thinking` with the subtype `delta` carries a piece of the reasoning in `text`;
//! - `thinking` with the subtype `completed` ends the reasoning;
//! - `assistant` carries a piece of the answer in the text parts of `message.content`; the
//!   last such line repeats the whole answer, and is not passed on;
//! - `tool_call` with the subtype `completed` reports, among others, a file that was written;
//! - `result` with the subtype `success` ends the output and reports the token counts.
//!
//! Which `assistant` line is the last one shows only when no other follows. So a line whose text
//! is all the answer before it, once more, is held back. Where another `assistant` line does
//! follow, the text was a piece of its own after all: it is passed on then, in front of the text
//! of that line.
use vstd::prelude::*;
use vstd::string::*;
use crate::json;
use crate::json::{parse_json, Json, JsonTree};
use crate::text;
use crate::text::{byte_len, same_text};

verus! {

/// Token counts as the agent reports them.
#[derive(Debug, Clone, Copy, PartialEq, Eq, Structural)]
pub struct CliUsageInfo {
    pub input_tokens: u32,
    pub output_tokens: u32,
    pub cache_read_tokens: u32,
    pub cache_write_tokens: u32,
}

impl CliUsageInfo {
    /// No tokens at all.
    pub open spec fn zero() -> CliUsageInfo {
        CliUsageInfo {
            input_tokens: 0,
            output_tokens: 0,
            cache_read_tokens: 0,
            cache_write_tokens: 0,
        }
    }
}

impl Default for CliUsageInfo {
    fn default() -> (r: CliUsageInfo)
        ensures
            r == CliUsageInfo::zero(),
    {
        CliUsageInfo {
            input_tokens: 0,
            output_tokens: 0,
            cache_read_tokens: 0,
            cache_write_tokens: 0,
        }
    }
}

/// A token count: a whole number that fits in 32 bits.
pub open spec fn count(v: JsonTree) -> Option<u32> {
    match v {
        JsonTree::Number(Some(n)) if n <= u32::MAX => Some(n as u32),
        _ => None,
    }
}

/// The count under `key`, which is 0 where there is no such member.
pub open spec fn count_under(v: JsonTree, key: Seq<char>) -> Option<u32> {
    match v.member(key) {
        Some(n) => count(n),
        None => Some(0),
    }
}

/// The count at position `i`, which is 0 past the end.
pub open spec fn count_at(items: Seq<JsonTree>, i: int) -> Option<u32> {
    if i < items.len() {
        count(items[i])
    } else {
        Some(0)
    }
}

/// The four counts, where all of them are there.
pub open spec fn all_counts(
    a: Option<u32>,
    b: Option<u32>,
    c: Option<u32>,
    d: Option<u32>,
) -> Option<CliUsageInfo> {
    match (a, b, c, d) {
        (
            Some(input_tokens),
            Some(output_tokens),
            Some(cache_read_tokens),
            Some(cache_write_tokens),
        ) => Some(
            CliUsageInfo { input_tokens, output_tokens, cache_read_tokens, cache_write_tokens },
        ),
        _ => None,
    }
}

/// Token counts out of an object, by name, or out of an array of at most four, by position.
/// A count that is left out is 0; one that is there and is no count spoils the whole.
pub open spec fn usage(v: JsonTree) -> Option<CliUsageInfo> {
    match v {
        JsonTree::Object(_) => all_counts(
            count_under(v, "inputTokens"@),
            count_under(v, "outputTokens"@),
            count_under(v, "cacheReadTokens"@),
            count_under(v, "cacheWriteTokens"@),
        ),
        JsonTree::Array(items) if items.len() <= 4 => all_counts(
            count_at(items, 0),
            count_at(items, 1),
            count_at(items, 2),
            count_at(items, 3),
        ),
        _ => None,
    }
}

fn read_count(v: &Json) -> (r: Option<u32>)
    ensures
        r == count(v@),
{
    match v {
        Json::Number(Some(n)) => if *n <= 0xffff_ffff {
            Some(*n as u32)
        } else {
            None
        },
        _ => None,
    }
}

fn read_count_under(v: &Json, key: &str) -> (r: Option<u32>)
    ensures
        r == count_under(v@, key@),
{
    match v.get(key) {
        Some(n) => read_count(n),
        None => Some(0),
    }
}

fn read_count_at(items: &Vec<Json>, i: usize) -> (r: Option<u32>)
    ensures
        r == count_at(json::json_trees(items@), i as int),
{
    if i < items.len() {
        read_count(&items[i])
    } else {
        Some(0)
    }
}

fn gather_counts(a: Option<u32>, b: Option<u32>, c: Option<u32>, d: Option<u32>) -> (r: Option<
    CliUsageInfo,
>)
    ensures
        r == all_counts(a, b, c, d),
{
    match (a, b, c, d) {
        (
            Some(input_tokens),
            Some(output_tokens),
            Some(cache_read_tokens),
            Some(cache_write_tokens),
        ) => Some(
            CliUsageInfo { input_tokens, output_tokens, cache_read_tokens, cache_write_tokens },
        ),
        _ => None,
    }
}

impl CliUsageInfo {
    /// Reads token counts out of a JSON value.
    pub fn from_json(v: &Json) -> (r: Option<CliUsageInfo>)
        ensures
            r == usage(v@),
    {
        match v {
            Json::Object(_) => gather_counts(
                read_count_under(v, "inputTokens"),
                read_count_under(v, "outputTokens"),
                read_count_under(v, "cacheReadTokens"),
                read_count_under(v, "cacheWriteTokens"),
            ),
            Json::Array(items) => {
                assert(v@->Array_0 =~= json::json_trees(items@));
                if items.len() <= 4 {
                    gather_counts(
                        read_count_at(items, 0),
                        read_count_at(items, 1),
                        read_count_at(items, 2),
                        read_count_at(items, 3),
                    )
                } else {
                    None
                }
            },
            _ => None,
        }
    }
}

/// What one line of output says.
pub enum LineMeaning {
    /// Nothing that is passed on.
    Nothing,
    /// A piece of the reasoning.
    Thinking(Seq<char>),
    /// The reasoning is complete.
    ThinkingDone,
    /// A piece of the answer, or the whole answer once more.
    Answer(Seq<char>),
    /// A file was written.
    File { path: Seq<char>, content: Seq<char> },
    /// The output is complete.
    Done(CliUsageInfo),
}

/// The member of a value that may not be there.
pub open spec fn member_of(v: Option<JsonTree>, key: Seq<char>) -> Option<JsonTree> {
    match v {
        Some(v) => v.member(key),
        None => None,
    }
}

/// The texts of the text parts among `items`, in order.
pub open spec fn text_parts(items: Seq<JsonTree>) -> Seq<Seq<char>>
    decreases items.len(),
{
    if items.len() == 0 {
        Seq::empty()
    } else {
        let before = text_parts(items.drop_last());
        let last = items.last();
        if last.member_text("type"@) == Some("text"@) && last.member_text("text"@) is Some {
            before.push(last.member_text("text"@)->Some_0)
        } else {
            before
        }
    }
}

/// The answer text that an `assistant` line carries.
pub open spec fn answer(line: JsonTree) -> Option<Seq<char>> {
    match member_of(line.member("message"@), "content"@) {
        Some(JsonTree::Array(items)) => Some(text::concatenated(text_parts(items))),
        _ => None,
    }
}

/// The arguments of the edit that a `tool_call` line reports.
pub open spec fn edit_args(line: JsonTree) -> Option<JsonTree> {
    member_of(member_of(line.member("tool_call"@), "editToolCall"@), "args"@)
}

/// The file content among the arguments of an edit: `streamContent`, or `content` where there
/// is no `streamContent` at all.
pub open spec fn written_content(args: JsonTree) -> Option<Seq<char>> {
    match args.member("streamContent"@) {
        Some(v) => v.text(),
        None => args.member_text("content"@),
    }
}

/// The text, or no characters where there is none.
pub open spec fn or_empty(s: Option<Seq<char>>) -> Seq<char> {
    match s {
        Some(s) => s,
        None => Seq::empty(),
    }
}

/// The token counts that a `result` line reports, all 0 where it reports none that can be read.
pub open spec fn reported_usage(line: JsonTree) -> CliUsageInfo {
    match line.member("usage"@) {
        Some(v) => match usage(v) {
            Some(u) => u,
            None => CliUsageInfo::zero(),
        },
        None => CliUsageInfo::zero(),
    }
}

/// What a line says. A text without characters says nothing.
pub open spec fn meaning(line: JsonTree) -> LineMeaning {
    let kind = line.member_text("type"@);
    let subtype = line.member_text("subtype"@);
    if kind == Some("thinking"@) && subtype == Some("delta"@) {
        match line.member_text("text"@) {
            Some(s) if s.len() > 0 => LineMeaning::Thinking(s),
            _ => LineMeaning::Nothing,
        }
    } else if kind == Some("thinking"@) && subtype == Some("completed"@) {
        LineMeaning::ThinkingDone
    } else if kind == Some("tool_call"@) && subtype == Some("completed"@) {
        match edit_args(line) {
            Some(args) => match written_content(args) {
                Some(content) if content.len() > 0 => LineMeaning::File {
                    path: or_empty(args.member_text("path"@)),
                    content,
                },
                _ => LineMeaning::Nothing,
            },
            None => LineMeaning::Nothing,
        }
    } else if kind == Some("assistant"@) {
        match answer(line) {
            Some(s) if s.len() > 0 => LineMeaning::Answer(s),
            _ => LineMeaning::Nothing,
        }
    } else if kind == Some("result"@) && subtype == Some("success"@) {
        LineMeaning::Done(reported_usage(line))
    } else {
        LineMeaning::Nothing
    }
}

/// What is passed on of a line.
#[derive(Debug)]
pub enum StreamParseResult {
    /// A piece of the reasoning.
    ThinkingDelta(String),
    /// The reasoning is complete.
    ThinkingDone,
    /// A piece of the answer.
    ContentDelta(String),
    /// A file that the agent wrote.
    FileContent { path: String, content: String },
    /// The output is complete.
    Done(CliUsageInfo),
}

/// What a [`StreamParseResult`] says.
pub enum StreamItem {
    Thinking(Seq<char>),
    ThinkingDone,
    Content(Seq<char>),
    File { path: Seq<char>, content: Seq<char> },
    Done(CliUsageInfo),
}

impl View for StreamParseResult {
    type V = StreamItem;

    open spec fn view(&self) -> StreamItem {
        match self {
            StreamParseResult::ThinkingDelta(s) => StreamItem::Thinking(s@),
            StreamParseResult::ThinkingDone => StreamItem::ThinkingDone,
            StreamParseResult::ContentDelta(s) => StreamItem::Content(s@),
            StreamParseResult::FileContent { path, content } => StreamItem::File {
                path: path@,
                content: content@,
            },
            StreamParseResult::Done(u) => StreamItem::Done(*u),
        }
    }
}

/// What a result that may not be there says.
pub open spec fn item(r: Option<StreamParseResult>) -> Option<StreamItem> {
    match r {
        Some(r) => Some(r@),
        None => None,
    }
}

/// Reads the output of one run of the agent.
#[derive(Debug, Clone)]
pub struct StreamParser {
    /// The bytes of answer and file content passed on so far. The count wraps round where it
    /// would not fit.
    pub assistant_len: usize,
    /// Whether the reasoning is complete.
    pub thinking_done: bool,
    /// The answer passed on so far, by which the line that repeats it is known.
    pub answer: String,
    /// Whether the last answer line is held back, because it was all the answer before it once
    /// more.
    pub held: bool,
}

/// What a [`StreamParser`] holds.
#[verifier::ext_equal]
pub struct ParserState {
    pub assistant_len: usize,
    pub thinking_done: bool,
    pub answer: Seq<char>,
    pub held: bool,
}

impl View for StreamParser {
    type V = ParserState;

    open spec fn view(&self) -> ParserState {
        ParserState {
            assistant_len: self.assistant_len,
            thinking_done: self.thinking_done,
            answer: self.answer@,
            held: self.held,
        }
    }
}

/// `len` and `more` together, modulo one more than `usize::MAX`.
pub open spec fn counted(len: usize, more: nat) -> usize {
    if len + more <= usize::MAX {
        (len + more) as usize
    } else {
        (len + more - usize::MAX - 1) as usize
    }
}

impl ParserState {
    /// Before the first line.
    pub open spec fn initial() -> ParserState {
        ParserState { assistant_len: 0, thinking_done: false, answer: Seq::empty(), held: false }
    }

    /// The text that is held back: all the answer passed on, where there is such a text.
    pub open spec fn held_text(self) -> Seq<char> {
        if self.held {
            self.answer
        } else {
            Seq::empty()
        }
    }

    /// Whether an answer text is all the answer before it, once more.
    pub open spec fn repeats(self, s: Seq<char>) -> bool {
        s.len() > 0 && s == self.answer + self.held_text()
    }

    /// What an answer text adds to the answer passed on: what was held back, and the text itself
    /// but where it is held back in turn.
    pub open spec fn piece(self, s: Seq<char>) -> Seq<char> {
        if self.repeats(s) {
            self.held_text()
        } else {
            self.held_text() + s
        }
    }

    /// The state after a line.
    pub open spec fn after(self, m: LineMeaning) -> ParserState {
        match m {
            LineMeaning::ThinkingDone => ParserState { thinking_done: true, ..self },
            LineMeaning::File { content, .. } => ParserState {
                assistant_len: counted(self.assistant_len, text::utf8_len(content)),
                ..self
            },
            LineMeaning::Answer(s) => ParserState {
                assistant_len: counted(self.assistant_len, text::utf8_len(self.piece(s))),
                answer: self.answer + self.piece(s),
                held: self.repeats(s),
                ..self
            },
            _ => self,
        }
    }

    /// What is passed on of a line: all that it says, with what was held back before it, but the
    /// whole answer once more.
    pub open spec fn passed_on(self, m: LineMeaning) -> Option<StreamItem> {
        match m {
            LineMeaning::Nothing => None,
            LineMeaning::Thinking(s) => Some(StreamItem::Thinking(s)),
            LineMeaning::ThinkingDone => Some(StreamItem::ThinkingDone),
            LineMeaning::Answer(s) => if self.piece(s).len() == 0 {
                None
            } else {
                Some(StreamItem::Content(self.piece(s)))
            },
            LineMeaning::File { path, content } => Some(StreamItem::File { path, content }),
            LineMeaning::Done(u) => Some(StreamItem::Done(u)),
        }
    }
}

/// What a line of output says; one that is no JSON says nothing.
pub open spec fn line_meaning(line: Seq<char>) -> LineMeaning {
    match json::parsed_json(line) {
        Some(v) => meaning(v),
        None => LineMeaning::Nothing,
    }
}

/// The text parts among `items`, one after the other.
fn read_text_parts(items: &Vec<Json>) -> (r: String)
    ensures
        r@ == text::concatenated(text_parts(json::json_trees(items@))),
{
    let ghost trees = json::json_trees(items@);
    let mut out = String::new();
    let mut i: usize = 0;
    while i < items.len()
        invariant
            i <= items.len(),
            trees == json::json_trees(items@),
            out@ == text::concatenated(text_parts(trees.take(i as int))),
        decreases items.len() - i,
    {
        assert(trees.take(i + 1).drop_last() =~= trees.take(i as int));
        assert(trees.take(i + 1).last() == items@[i as int]@);
        if let Some(kind) = items[i].get_str("type") {
            if same_text(kind, "text") {
                if let Some(s) = items[i].get_str("text") {
                    proof {
                        text::concatenated_push(text_parts(trees.take(i as int)), s@);
                    }
                    out.append(s);
                }
            }
        }
        i += 1;
    }
    assert(trees.take(i as int) =~= trees);
    out
}

/// The answer text that an `assistant` line carries.
fn read_answer(line: &Json) -> (r: Option<String>)
    ensures
        match r {
            Some(s) => answer(line@) == Some(s@),
            None => answer(line@) is None,
        },
{
    let message = match line.get("message") {
        Some(v) => v,
        None => return None,
    };
    let content = match message.get("content") {
        Some(v) => v,
        None => return None,
    };
    match content.as_array() {
        Some(items) => Some(read_text_parts(items)),
        None => None,
    }
}

/// The path and the content of the file that a `tool_call` line reports as written.
fn read_file(line: &Json) -> (r: Option<(String, String)>)
    ensures
        match r {
            Some(file) => {
                &&& edit_args(line@) is Some
                &&& written_content(edit_args(line@)->Some_0) == Some(file.1@)
                &&& or_empty(edit_args(line@)->Some_0.member_text("path"@)) == file.0@
            },
            None => edit_args(line@) is None || written_content(edit_args(line@)->Some_0) is None,
        },
{
    let tool_call = match line.get("tool_call") {
        Some(v) => v,
        None => return None,
    };
    let edit = match tool_call.get("editToolCall") {
        Some(v) => v,
        None => return None,
    };
    let args = match edit.get("args") {
        Some(v) => v,
        None => return None,
    };
    let written = match args.get("streamContent") {
        Some(v) => v.as_str(),
        None => args.get_str("content"),
    };
    let content = match written {
        Some(s) => s.to_owned(),
        None => return None,
    };
    let path = match args.get_str("path") {
        Some(s) => s.to_owned(),
        None => String::new(),
    };
    Some((path, content))
}

/// The token counts that a `result` line reports.
fn read_usage(line: &Json) -> (r: CliUsageInfo)
    ensures
        r == reported_usage(line@),
{
    match line.get("usage") {
        Some(v) => match CliUsageInfo::from_json(v) {
            Some(u) => u,
            None => CliUsageInfo::default(),
        },
        None => CliUsageInfo::default(),
    }
}

impl StreamParser {
    /// A parser that has read nothing.
    pub fn new() -> (r: StreamParser)
        ensures
            r@ == ParserState::initial(),
    {
        StreamParser { assistant_len: 0, thinking_done: false, answer: String::new(), held: false }
    }

    /// Reads one line of output, which is already JSON.
    pub fn parse_value(&mut self, line: &Json) -> (r: Option<StreamParseResult>)
        ensures
            final(self)@ == old(self)@.after(meaning(line@)),
            item(r) == old(self)@.passed_on(meaning(line@)),
    {
        let kind = match line.get_str("type") {
            Some(s) => s,
            None => return None,
        };
        let subtype = line.get_str("subtype");
        let completed = match subtype {
            Some(s) => same_text(s, "completed"),
            None => false,
        };
        if same_text(kind, "thinking") {
            proof {
                distinct_kinds();
            }
            let delta = match subtype {
                Some(s) => same_text(s, "delta"),
                None => false,
            };
            if delta {
                match line.get_str("text") {
                    Some(s) => if s.is_empty() {
                        None
                    } else {
                        Some(StreamParseResult::ThinkingDelta(s.to_owned()))
                    },
                    None => None,
                }
            } else if completed {
                self.thinking_done = true;
                Some(StreamParseResult::ThinkingDone)
            } else {
                None
            }
        } else if same_text(kind, "tool_call") {
            proof {
                distinct_kinds();
            }
            if !completed {
                return None;
            }
            match read_file(line) {
                Some((path, content)) => if content.as_str().is_empty() {
                    None
                } else {
                    self.assistant_len = self.assistant_len.wrapping_add(byte_len(content.as_str()));
                    Some(StreamParseResult::FileContent { path, content })
                },
                None => None,
            }
        } else if same_text(kind, "assistant") {
            proof {
                distinct_kinds();
            }
            let answer = match read_answer(line) {
                Some(s) => s,
                None => return None,
            };
            if answer.as_str().is_empty() {
                return None;
            }
            let ghost before = self@;
            let mut piece = String::new();
            let repeats = if self.held {
                piece.append(self.answer.as_str());
                let all = self.answer.clone().concat(self.answer.as_str());
                same_text(answer.as_str(), all.as_str())
            } else {
                assert(before.answer + before.held_text() =~= before.answer);
                same_text(answer.as_str(), self.answer.as_str())
            };
            if !repeats {
                piece.append(answer.as_str());
            }
            assert(piece@ =~= before.piece(answer@));
            self.held = repeats;
            self.assistant_len = self.assistant_len.wrapping_add(byte_len(piece.as_str()));
            self.answer.append(piece.as_str());
            if piece.as_str().is_empty() {
                None
            } else {
                Some(StreamParseResult::ContentDelta(piece))
            }
        } else if same_text(kind, "result") {
            proof {
                distinct_kinds();
            }
            let success = match subtype {
                Some(s) => same_text(s, "success"),
                None => false,
            };
            if success {
                Some(StreamParseResult::Done(read_usage(line)))
            } else {
                None
            }
        } else {
            None
        }
    }

    /// Reads one line of output. A line that is no JSON is passed over.
    pub fn parse_line(&mut self, line: &str) -> (r: Option<StreamParseResult>)
        ensures
            final(self)@ == old(self)@.after(line_meaning(line@)),
            item(r) == old(self)@.passed_on(line_meaning(line@)),
    {
        match parse_json(line) {
            Some(v) => self.parse_value(&v),
            None => None,
        }
    }
}

/// No two kinds of line have the same name, nor have two subtypes.
proof fn distinct_kinds()
    ensures
        "thinking"@ != "tool_call"@,
        "thinking"@ != "assistant"@,
        "thinking"@ != "result"@,
        "tool_call"@ != "assistant"@,
        "tool_call"@ != "result"@,
        "assistant"@ != "result"@,
        "delta"@ != "completed"@,
{
    reveal_strlit("thinking");
    reveal_strlit("tool_call");
    reveal_strlit("assistant");
    reveal_strlit("result");
    reveal_strlit("delta");
    reveal_strlit("completed");
    assert("thinking"@[1] != "tool_call"@[1]);
    assert("thinking"@.len() == 8 && "tool_call"@.len() == 9 && "assistant"@.len() == 9);
    assert("tool_call"@[0] != "assistant"@[0]);
    assert("result"@.len() == 6);
    assert("delta"@.len() == 5 && "completed"@.len() == 9);
}

} // verus!
