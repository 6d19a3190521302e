//! What holds of single lines of output: what is read in them, and what is passed on.
use vstd::prelude::*;
use crate::json;
use crate::json::{Json, JsonTree};
use crate::output;
use crate::parser;
use crate::parser::{
    CliUsageInfo, LineMeaning, ParserState, StreamItem, StreamParseResult, StreamParser,
};
use crate::text;

verus! {

// JSON values.

/// Whether a value is an object that holds `value` under `key`.
pub open spec fn holds(tree: JsonTree, key: Seq<char>, value: JsonTree) -> bool {
    tree matches JsonTree::Object(members) && members.contains_key(key) && members[key] == value
}

/// Whether a value is an object that holds anything under `key`.
pub open spec fn holds_any(tree: JsonTree, key: Seq<char>) -> bool {
    tree matches JsonTree::Object(members) && members.contains_key(key)
}

/// A plain value says what it holds, and an array says what its items say, each at its place.
pub proof fn law_plain_values(v: Json, i: int)
    ensures
        match v {
            Json::Null => v@ == JsonTree::Null,
            Json::Bool(b) => v@ == JsonTree::Bool(b),
            Json::Number(n) => v@ == JsonTree::Number(n),
            Json::Text(s) => v@ == JsonTree::Text(s@),
            Json::Array(items) => {
                &&& v@ is Array
                &&& v@->Array_0.len() == items@.len()
                &&& 0 <= i < items@.len() ==> v@->Array_0[i] == items@[i]@
            },
            Json::Object(_) => v@ is Object,
        },
{
}

/// An object holds under a key what the last member with that key says.
pub proof fn law_last_member_counts(members: Vec<(String, Json)>, i: int)
    requires
        0 <= i < members@.len(),
        forall|j: int| i < j < members@.len() ==> (#[trigger] members@[j]).0@ != members@[i].0@,
    ensures
        holds(Json::Object(members)@, members@[i].0@, members@[i].1@),
{
    last_member_counts(members@, i);
}

proof fn last_member_counts(members: Seq<(String, Json)>, i: int)
    requires
        0 <= i < members.len(),
        forall|j: int| i < j < members.len() ==> (#[trigger] members[j]).0@ != members[i].0@,
    ensures
        json::member_map(members).contains_key(members[i].0@),
        json::member_map(members)[members[i].0@] == members[i].1@,
    decreases members.len(),
{
    let last = members.len() - 1;
    if i < last {
        let init = members.drop_last();
        assert(init[i] == members[i]);
        assert(members.last().0@ == members[last].0@);
        assert forall|j: int| i < j < init.len() implies (#[trigger] init[j]).0@ != init[i].0@ by {
            assert(init[j] == members[j]);
        }
        last_member_counts(init, i);
    }
}

/// An object holds nothing under a key that no member has.
pub proof fn law_no_such_member(members: Vec<(String, Json)>, key: Seq<char>)
    requires
        forall|i: int| 0 <= i < members@.len() ==> (#[trigger] members@[i]).0@ != key,
    ensures
        !holds_any(Json::Object(members)@, key),
{
    no_such_member(members@, key);
}

proof fn no_such_member(members: Seq<(String, Json)>, key: Seq<char>)
    requires
        forall|i: int| 0 <= i < members.len() ==> (#[trigger] members[i]).0@ != key,
    ensures
        !json::member_map(members).contains_key(key),
    decreases members.len(),
{
    if members.len() > 0 {
        let init = members.drop_last();
        assert forall|i: int| 0 <= i < init.len() implies (#[trigger] init[i]).0@ != key by {
            assert(init[i] == members[i]);
        }
        assert(members.last().0@ == members[members.len() - 1].0@);
        no_such_member(init, key);
    }
}

/// What is looked up in a value is what the value holds: a member under its key and nothing
/// else, a text only where there is one, and items only where there is an array.
pub proof fn law_looking_up(tree: JsonTree, key: Seq<char>, value: JsonTree, s: Seq<char>)
    ensures
        tree.member(key) == Some(value) <==> holds(tree, key, value),
        tree.member(key) is None <==> !holds_any(tree, key),
        tree.text() == Some(s) <==> tree == JsonTree::Text(s),
        tree.member_text(key) == Some(s) <==> holds(tree, key, JsonTree::Text(s)),
        tree matches JsonTree::Array(items) ==> tree.items() == Some(items),
        tree.items() is Some ==> tree is Array,
{
}

/// Two values that hold the same under a key are looked up alike there, whatever else they hold.
pub proof fn law_other_members(
    members: Map<Seq<char>, JsonTree>,
    key: Seq<char>,
    other: Seq<char>,
    value: JsonTree,
)
    requires
        key != other,
    ensures
        JsonTree::Object(members.insert(other, value)).member(key) == JsonTree::Object(
            members,
        ).member(key),
        JsonTree::Object(members.insert(key, value)).member(key) == Some(value),
        JsonTree::Object(members.remove(key)).member(key) is None,
{
}

// Token counts.

/// Whether `n` is the count that an object gives under a name: the number there, or 0 where
/// there is no such member.
pub open spec fn given(members: Map<Seq<char>, JsonTree>, name: Seq<char>, n: u32) -> bool {
    if members.contains_key(name) {
        members[name] == JsonTree::Number(Some(n as u64))
    } else {
        n == 0
    }
}

/// Whether an object gives a count under a name: it has no such member, or a whole number that
/// fits in 32 bits.
pub open spec fn gives_count(members: Map<Seq<char>, JsonTree>, name: Seq<char>) -> bool {
    !members.contains_key(name) || (members[name] matches JsonTree::Number(Some(n)) && n
        <= 0xffff_ffff)
}

/// Each of the four counts is the number under its own name, or 0 where there is none, whatever
/// the others are. Counts are read exactly where each of the four is a count or is not there.
pub proof fn law_each_count_is_its_own(members: Map<Seq<char>, JsonTree>)
    ensures
        parser::usage(JsonTree::Object(members)) is Some <==> {
            &&& gives_count(members, "inputTokens"@)
            &&& gives_count(members, "outputTokens"@)
            &&& gives_count(members, "cacheReadTokens"@)
            &&& gives_count(members, "cacheWriteTokens"@)
        },
        parser::usage(JsonTree::Object(members)) matches Some(u) ==> {
            &&& given(members, "inputTokens"@, u.input_tokens)
            &&& given(members, "outputTokens"@, u.output_tokens)
            &&& given(members, "cacheReadTokens"@, u.cache_read_tokens)
            &&& given(members, "cacheWriteTokens"@, u.cache_write_tokens)
        },
{
}

/// A change of one count changes no other: with another number under one of the names, that
/// count is the new number, and the other three are what they were.
pub proof fn law_counts_are_independent(
    members: Map<Seq<char>, JsonTree>,
    u: CliUsageInfo,
    n: u32,
)
    requires
        parser::usage(JsonTree::Object(members)) == Some(u),
    ensures
        ({
            let number = JsonTree::Number(Some(n as u64));
            &&& parser::usage(JsonTree::Object(members.insert("inputTokens"@, number))) == Some(
                CliUsageInfo { input_tokens: n, ..u },
            )
            &&& parser::usage(JsonTree::Object(members.insert("outputTokens"@, number))) == Some(
                CliUsageInfo { output_tokens: n, ..u },
            )
            &&& parser::usage(JsonTree::Object(members.insert("cacheReadTokens"@, number)))
                == Some(CliUsageInfo { cache_read_tokens: n, ..u })
            &&& parser::usage(JsonTree::Object(members.insert("cacheWriteTokens"@, number)))
                == Some(CliUsageInfo { cache_write_tokens: n, ..u })
        }),
{
    distinct_counts();
}

/// No two counts have the same name.
proof fn distinct_counts()
    ensures
        "inputTokens"@ != "outputTokens"@,
        "inputTokens"@ != "cacheReadTokens"@,
        "inputTokens"@ != "cacheWriteTokens"@,
        "outputTokens"@ != "cacheReadTokens"@,
        "outputTokens"@ != "cacheWriteTokens"@,
        "cacheReadTokens"@ != "cacheWriteTokens"@,
{
    reveal_strlit("inputTokens");
    reveal_strlit("outputTokens");
    reveal_strlit("cacheReadTokens");
    reveal_strlit("cacheWriteTokens");
    assert("inputTokens"@.len() == 11 && "outputTokens"@.len() == 12);
    assert("cacheReadTokens"@.len() == 15 && "cacheWriteTokens"@.len() == 16);
}

/// Out of an array the counts are taken by position, each by its own and 0 past the end; an array
/// of more than four, or with an item that is no count, gives none.
pub proof fn law_counts_by_position(items: Seq<JsonTree>)
    ensures
        parser::usage(JsonTree::Array(items)) is Some <==> {
            &&& items.len() <= 4
            &&& forall|i: int|
                0 <= i < items.len() ==> (#[trigger] items[i] matches JsonTree::Number(Some(n))
                    && n <= 0xffff_ffff)
        },
        parser::usage(JsonTree::Array(items)) matches Some(u) ==> {
            let counts = seq![
                u.input_tokens,
                u.output_tokens,
                u.cache_read_tokens,
                u.cache_write_tokens,
            ];
            forall|i: int|
                0 <= i < 4 ==> if i < items.len() {
                    items[i] == JsonTree::Number(Some(#[trigger] counts[i] as u64))
                } else {
                    counts[i] == 0
                }
        },
{
    if items.len() <= 4 && (forall|i: int|
        0 <= i < items.len() ==> (#[trigger] items[i] matches JsonTree::Number(Some(n)) && n
            <= 0xffff_ffff)) {
        assert(0 < items.len() ==> items[0] is Number);
        assert(1 < items.len() ==> items[1] is Number);
        assert(2 < items.len() ==> items[2] is Number);
        assert(3 < items.len() ==> items[3] is Number);
    }
}

/// Counts come out of objects and arrays alone.
pub proof fn law_no_counts_elsewhere(v: JsonTree)
    requires
        !(v is Object),
        !(v is Array),
    ensures
        parser::usage(v) is None,
{
}

/// No tokens at all are 0 of each.
pub proof fn law_no_tokens()
    ensures
        CliUsageInfo::zero().input_tokens == 0,
        CliUsageInfo::zero().output_tokens == 0,
        CliUsageInfo::zero().cache_read_tokens == 0,
        CliUsageInfo::zero().cache_write_tokens == 0,
{
}

// What a line says.

/// A line is read as a piece of reasoning exactly where its type is `thinking`, its subtype is
/// `delta`, and its text has a character, whatever character that is; the piece is that text.
pub proof fn law_reasoning_lines(line: JsonTree, s: Seq<char>)
    ensures
        parser::meaning(line) == LineMeaning::Thinking(s) <==> {
            &&& holds(line, "type"@, JsonTree::Text("thinking"@))
            &&& holds(line, "subtype"@, JsonTree::Text("delta"@))
            &&& holds(line, "text"@, JsonTree::Text(s))
            &&& s.len() > 0
        },
{
}

/// A line is read as the end of the reasoning exactly where its type is `thinking` and its
/// subtype is `completed`.
pub proof fn law_end_of_reasoning_lines(line: JsonTree)
    ensures
        parser::meaning(line) is ThinkingDone <==> {
            &&& holds(line, "type"@, JsonTree::Text("thinking"@))
            &&& holds(line, "subtype"@, JsonTree::Text("completed"@))
        },
{
    distinct_kinds();
}

/// A line is read as the end of the output exactly where its type is `result` and its subtype is
/// `success`; the counts are those under `usage`, and all 0 where none can be read there.
pub proof fn law_end_of_output_lines(line: JsonTree)
    ensures
        parser::meaning(line) is Done <==> {
            &&& holds(line, "type"@, JsonTree::Text("result"@))
            &&& holds(line, "subtype"@, JsonTree::Text("success"@))
        },
        parser::meaning(line) matches LineMeaning::Done(u) ==> {
            ||| exists|v: JsonTree| #[trigger]
                holds(line, "usage"@, v) && parser::usage(v) == Some(u)
            ||| {
                &&& u == CliUsageInfo::zero()
                &&& forall|v: JsonTree| #[trigger]
                    holds(line, "usage"@, v) ==> parser::usage(v) is None
            }
        },
{
    distinct_kinds();
    if let LineMeaning::Done(u) = parser::meaning(line) {
        if let JsonTree::Object(members) = line {
            if members.contains_key("usage"@) {
                assert(holds(line, "usage"@, members["usage"@]));
            }
        }
    }
}

/// The items of the content that a line carries in its message.
pub open spec fn carries(line: JsonTree, items: Seq<JsonTree>) -> bool {
    exists|message: JsonTree|
        #![trigger holds(line, "message"@, message)]
        {
            &&& holds(line, "message"@, message)
            &&& holds(message, "content"@, JsonTree::Array(items))
        }
}

/// The text parts of a content are told by their type and their text alone. One more item adds
/// its text at the end, where it is a text part and has one, and nothing otherwise.
pub proof fn law_text_parts(items: Seq<JsonTree>, item: JsonTree)
    ensures
        text::concatenated(parser::text_parts(Seq::empty())) == Seq::<char>::empty(),
        forall|s: Seq<char>| #[trigger]
            holds(item, "text"@, JsonTree::Text(s)) && holds(
                item,
                "type"@,
                JsonTree::Text("text"@),
            ) ==> {
                &&& parser::text_parts(items.push(item)) == parser::text_parts(items).push(s)
                &&& text::concatenated(parser::text_parts(items.push(item))) == text::concatenated(
                    parser::text_parts(items),
                ) + s
            },
        !holds(item, "type"@, JsonTree::Text("text"@)) || (forall|s: Seq<char>|
            !#[trigger] holds(item, "text"@, JsonTree::Text(s))) ==> parser::text_parts(
            items.push(item),
        ) == parser::text_parts(items),
{
    assert(items.push(item).drop_last() =~= items);
    assert forall|s: Seq<char>| #[trigger]
        holds(item, "text"@, JsonTree::Text(s)) && holds(
            item,
            "type"@,
            JsonTree::Text("text"@),
        ) implies {
        &&& parser::text_parts(items.push(item)) == parser::text_parts(items).push(s)
        &&& text::concatenated(parser::text_parts(items.push(item))) == text::concatenated(
            parser::text_parts(items),
        ) + s
    } by {
        text::concatenated_push(parser::text_parts(items), s);
    }
    if item.member_text("text"@) is Some {
        assert(holds(item, "text"@, JsonTree::Text(item.member_text("text"@)->Some_0)));
    }
}

/// A line is read as an answer exactly where its type is `assistant` and the text parts of its
/// message have a character between them, whatever character that is. The answer is all those
/// texts, one after the other and unchanged.
pub proof fn law_answer_lines(line: JsonTree, items: Seq<JsonTree>)
    requires
        holds(line, "type"@, JsonTree::Text("assistant"@)),
        carries(line, items),
    ensures
        ({
            let said = text::concatenated(parser::text_parts(items));
            &&& said.len() > 0 ==> parser::meaning(line) == LineMeaning::Answer(said)
            &&& said.len() == 0 ==> parser::meaning(line) is Nothing
        }),
{
    distinct_kinds();
}

/// A line of one text part with at least one character is read as just that text, be it white
/// space or anything else.
pub proof fn law_line_of_one_part(line: JsonTree, part: JsonTree, s: Seq<char>)
    requires
        holds(line, "type"@, JsonTree::Text("assistant"@)),
        carries(line, seq![part]),
        holds(part, "type"@, JsonTree::Text("text"@)),
        holds(part, "text"@, JsonTree::Text(s)),
        s.len() > 0,
    ensures
        parser::meaning(line) == LineMeaning::Answer(s),
{
    law_text_parts(Seq::empty(), part);
    assert(Seq::<JsonTree>::empty().push(part) =~= seq![part]);
    assert(text::concatenated(parser::text_parts(seq![part])) =~= s);
    law_answer_lines(line, seq![part]);
}

/// Nothing else is read as an answer: neither a line of another type, nor one without a message
/// whose content is an array.
pub proof fn law_no_other_answer_lines(line: JsonTree)
    requires
        parser::meaning(line) is Answer,
    ensures
        holds(line, "type"@, JsonTree::Text("assistant"@)),
        exists|items: Seq<JsonTree>| #[trigger] carries(line, items),
{
    let message = line.member("message"@)->Some_0;
    assert(holds(line, "message"@, message));
    let items = message.member("content"@)->Some_0->Array_0;
    assert(carries(line, items));
}

/// Whether a line reports an edit with these arguments.
pub open spec fn reports_edit(line: JsonTree, args: JsonTree) -> bool {
    exists|call: JsonTree, edit: JsonTree|
        #![trigger holds(line, "tool_call"@, call), holds(call, "editToolCall"@, edit)]
        {
            &&& holds(line, "tool_call"@, call)
            &&& holds(call, "editToolCall"@, edit)
            &&& holds(edit, "args"@, args)
        }
}

/// Whether an edit with these arguments writes this content: what stands under `streamContent`,
/// and under `content` only where there is no `streamContent` at all.
pub open spec fn writes(args: JsonTree, content: Seq<char>) -> bool {
    ||| holds(args, "streamContent"@, JsonTree::Text(content))
    ||| !holds_any(args, "streamContent"@) && holds(args, "content"@, JsonTree::Text(content))
}

/// Whether this is the path among the arguments of an edit, which is empty where there is none.
pub open spec fn at_path(args: JsonTree, path: Seq<char>) -> bool {
    ||| holds(args, "path"@, JsonTree::Text(path))
    ||| {
        &&& path.len() == 0
        &&& forall|p: Seq<char>| !#[trigger] holds(args, "path"@, JsonTree::Text(p))
    }
}

/// A line is read as a file exactly where its type is `tool_call`, its subtype is `completed`, and
/// it reports an edit that writes at least one character; path and content are those among the
/// arguments of the edit.
pub proof fn law_file_lines(line: JsonTree, path: Seq<char>, content: Seq<char>)
    ensures
        parser::meaning(line) == (LineMeaning::File { path, content }) <==> {
            &&& holds(line, "type"@, JsonTree::Text("tool_call"@))
            &&& holds(line, "subtype"@, JsonTree::Text("completed"@))
            &&& content.len() > 0
            &&& exists|args: JsonTree| #[trigger]
                reports_edit(line, args) && writes(args, content) && at_path(args, path)
        },
{
    distinct_kinds();
    let call = line.member("tool_call"@)->Some_0;
    let edit = call.member("editToolCall"@)->Some_0;
    let args = edit.member("args"@)->Some_0;
    if parser::meaning(line) == (LineMeaning::File { path, content }) {
        assert(holds(line, "tool_call"@, call));
        assert(holds(call, "editToolCall"@, edit));
        assert(holds(edit, "args"@, args));
        assert(reports_edit(line, args));
        assert(writes(args, content));
        assert(at_path(args, path));
    }
    if exists|args: JsonTree| #[trigger]
        reports_edit(line, args) && writes(args, content) && at_path(args, path) {
        let a = choose|args: JsonTree| #[trigger]
            reports_edit(line, args) && writes(args, content) && at_path(args, path);
        assert(a == args);
        assert(parser::edit_args(line) == Some(args));
        assert(parser::written_content(args) == Some(content));
        if args.member_text("path"@) is Some {
            assert(holds(args, "path"@, JsonTree::Text(args.member_text("path"@)->Some_0)));
        } else {
            assert(path =~= Seq::empty());
        }
        assert(parser::or_empty(args.member_text("path"@)) == path);
    }
}

/// A line without a `type` that is a text says nothing.
pub proof fn law_lines_without_type(line: JsonTree)
    requires
        forall|s: Seq<char>| !#[trigger] holds(line, "type"@, JsonTree::Text(s)),
    ensures
        parser::meaning(line) is Nothing,
{
    if line.member_text("type"@) is Some {
        assert(holds(line, "type"@, JsonTree::Text(line.member_text("type"@)->Some_0)));
    }
}

/// No two kinds of line have the same name, nor have two subtypes.
proof fn distinct_kinds()
    ensures
        "thinking"@ != "tool_call"@,
        "thinking"@ != "assistant"@,
        "thinking"@ != "result"@,
        "tool_call"@ != "assistant"@,
        "tool_call"@ != "result"@,
        "assistant"@ != "result"@,
        "delta"@ != "completed"@,
{
    reveal_strlit("thinking");
    reveal_strlit("tool_call");
    reveal_strlit("assistant");
    reveal_strlit("result");
    reveal_strlit("delta");
    reveal_strlit("completed");
    assert("thinking"@.len() == 8 && "tool_call"@.len() == 9 && "assistant"@.len() == 9);
    assert("tool_call"@[0] == 't' && "assistant"@[0] == 'a');
    assert("result"@.len() == 6);
    assert("delta"@.len() == 5 && "completed"@.len() == 9);
}

/// A line of output says what the JSON in it says; white space round it makes no difference, and
/// a line that is blank or no JSON says nothing.
pub proof fn law_json_in_a_line(line: Seq<char>, other: Seq<char>)
    ensures
        text::trimmed(line).len() == 0 ==> output::output_meaning(line) is Nothing,
        json::parsed_json(text::trimmed(line)) is None ==> output::output_meaning(line) is Nothing,
        text::trimmed(line).len() > 0 ==> (json::parsed_json(text::trimmed(line)) matches Some(v)
            ==> output::output_meaning(line) == parser::meaning(v)),
        json::parsed_json(line) is None ==> parser::line_meaning(line) is Nothing,
        json::parsed_json(line) matches Some(v) ==> parser::line_meaning(line) == parser::meaning(
            v,
        ),
        text::trimmed(line) == text::trimmed(other) ==> output::output_meaning(line)
            == output::output_meaning(other),
{
}

// What is passed on.

/// Reasoning, its end, files and the end of the output are passed on as they are, whatever came
/// before, and a line that says nothing is not.
pub proof fn law_passed_on_as_it_is(
    parser: ParserState,
    s: Seq<char>,
    content: Seq<char>,
    u: CliUsageInfo,
)
    ensures
        parser.passed_on(LineMeaning::Nothing) is None,
        parser.passed_on(LineMeaning::Thinking(s)) == Some(StreamItem::Thinking(s)),
        parser.passed_on(LineMeaning::ThinkingDone) == Some(StreamItem::ThinkingDone),
        parser.passed_on((LineMeaning::File { path: s, content })) == Some(
            (StreamItem::File { path: s, content }),
        ),
        parser.passed_on(LineMeaning::Done(u)) == Some(StreamItem::Done(u)),
{
}

/// Whether a count of bytes is what it was and so many more, modulo one more than `usize::MAX`.
pub open spec fn adds_up(len: usize, more: nat, sum: usize) -> bool {
    &&& len + more <= usize::MAX ==> sum == len + more
    &&& usize::MAX < len + more <= 2 * usize::MAX + 1 ==> sum + usize::MAX + 1 == len + more
}

/// The parser keeps of a line just what it needs: the end of the reasoning, the bytes of a file,
/// and the answer passed on with its bytes. All else leaves it as it was.
pub proof fn law_what_the_parser_keeps(
    parser: ParserState,
    s: Seq<char>,
    content: Seq<char>,
    u: CliUsageInfo,
)
    ensures
        parser.after(LineMeaning::Nothing) == parser,
        parser.after(LineMeaning::Thinking(s)) == parser,
        parser.after(LineMeaning::Done(u)) == parser,
        parser.after(LineMeaning::ThinkingDone) == (ParserState { thinking_done: true, ..parser }),
        ({
            let next = parser.after((LineMeaning::File { path: s, content }));
            &&& next == (ParserState { assistant_len: next.assistant_len, ..parser })
            &&& adds_up(parser.assistant_len, text::utf8_len(content), next.assistant_len)
        }),
        ({
            let next = parser.after(LineMeaning::Answer(s));
            let passed = match parser.passed_on(LineMeaning::Answer(s)) {
                Some(StreamItem::Content(t)) => t,
                _ => Seq::empty(),
            };
            &&& next.thinking_done == parser.thinking_done
            &&& next.answer == parser.answer + passed
            &&& adds_up(parser.assistant_len, text::utf8_len(passed), next.assistant_len)
        }),
{
    assert(parser.after(LineMeaning::ThinkingDone) =~= (ParserState {
        thinking_done: true,
        ..parser
    }));
    if parser.piece(s).len() == 0 {
        assert(parser.piece(s) =~= Seq::empty());
    }
}

/// A parser holds what its fields hold, and a new one nothing.
pub proof fn law_what_a_parser_holds(parser: StreamParser)
    ensures
        parser@.assistant_len == parser.assistant_len,
        parser@.thinking_done == parser.thinking_done,
        parser@.answer == parser.answer@,
        parser@.held == parser.held,
        ParserState::initial().assistant_len == 0,
        !ParserState::initial().thinking_done,
        ParserState::initial().answer.len() == 0,
        !ParserState::initial().held,
{
}

/// A result says what it holds.
pub proof fn law_what_a_result_says(r: StreamParseResult)
    ensures
        parser::item(None) is None,
        parser::item(Some(r)) == Some(r@),
        match r {
            StreamParseResult::ThinkingDelta(s) => r@ == StreamItem::Thinking(s@),
            StreamParseResult::ThinkingDone => r@ == StreamItem::ThinkingDone,
            StreamParseResult::ContentDelta(s) => r@ == StreamItem::Content(s@),
            StreamParseResult::FileContent { path, content } => {
                r@ == (StreamItem::File { path: path@, content: content@ })
            },
            StreamParseResult::Done(u) => r@ == StreamItem::Done(u),
        },
{
}

} // verus!
