//! What holds of the backend as a whole.
use vstd::prelude::*;
use crate::config::CliConfig;
use crate::json::JsonTree;
use crate::message;
use crate::message::{CliChatRequest, CliContent, CliContentPart, CliMessage};
use crate::output;
use crate::parser;
use crate::parser::{CliUsageInfo, LineMeaning, ParserState, StreamItem};
use crate::reply;
use crate::reply::Plan;
use crate::stream;
use crate::stream::{
    Action, Chunk, Header, StreamEvent, StreamPhase, StreamSession, StreamState,
};
use crate::text;

verus! {

// Text.

/// Trimming leaves a run of the text with no white space at its ends, and takes nothing but
/// white space away.
pub proof fn law_trimmed(s: Seq<char>)
    ensures
        exists|i: int, j: int|
            #![trigger s.subrange(i, j)]
            {
                &&& 0 <= i <= j <= s.len()
                &&& text::trimmed(s) == s.subrange(i, j)
                &&& forall|k: int| 0 <= k < i ==> text::white_space(#[trigger] s[k])
                &&& forall|k: int| j <= k < s.len() ==> text::white_space(#[trigger] s[k])
            },
        text::trimmed(s).len() > 0 ==> {
            &&& !text::white_space(text::trimmed(s)[0])
            &&& !text::white_space(text::trimmed(s).last())
        },
        text::trimmed(text::trimmed(s)) == text::trimmed(s),
{
    let i = leading(s);
    let rest = text::without_leading(s);
    let j = i + trailing(rest);
    assert(text::trimmed(s) =~= s.subrange(i, j));
    assert forall|k: int| j <= k < s.len() implies text::white_space(#[trigger] s[k]) by {
        assert(s[k] == rest[k - i]);
    }
    let t = text::trimmed(s);
    if t.len() > 0 {
        assert(t[0] == rest[0]);
        assert(text::without_leading(t) == t);
        assert(text::without_trailing(t) == t);
    }
}

/// Where the text without its leading white space begins.
proof fn leading(s: Seq<char>) -> (i: int)
    ensures
        0 <= i <= s.len(),
        text::without_leading(s) == s.skip(i),
        forall|k: int| 0 <= k < i ==> text::white_space(#[trigger] s[k]),
        i < s.len() ==> !text::white_space(s[i]),
    decreases s.len(),
{
    if s.len() > 0 && text::white_space(s[0]) {
        let i = leading(s.drop_first());
        assert(s.drop_first().skip(i) =~= s.skip(i + 1));
        assert forall|k: int| 0 <= k < i + 1 implies text::white_space(#[trigger] s[k]) by {
            if k > 0 {
                assert(s[k] == s.drop_first()[k - 1]);
            }
        }
        i + 1
    } else {
        assert(s.skip(0) =~= s);
        0
    }
}

/// Where the text without its trailing white space ends.
proof fn trailing(s: Seq<char>) -> (j: int)
    ensures
        0 <= j <= s.len(),
        text::without_trailing(s) == s.take(j),
        forall|k: int| j <= k < s.len() ==> text::white_space(#[trigger] s[k]),
        j > 0 ==> !text::white_space(s[j - 1]),
    decreases s.len(),
{
    if s.len() > 0 && text::white_space(s.last()) {
        let j = trailing(s.drop_last());
        assert(s.drop_last().take(j) =~= s.take(j));
        assert forall|k: int| j <= k < s.len() implies text::white_space(#[trigger] s[k]) by {
            if k < s.len() - 1 {
                assert(s[k] == s.drop_last()[k]);
            }
        }
        j
    } else {
        assert(s.take(s.len() as int) =~= s);
        s.len() as int
    }
}

// Prompts.

/// A message with one text part says what a message of just that text says.
pub proof fn law_single_part(s: String, part: CliContentPart, parts: Vec<CliContentPart>)
    requires
        part.contribution() == Some(s@),
        parts@ == seq![part],
    ensures
        CliContent::Parts(parts).text() == CliContent::Text(s).text(),
{
    assert(parts@.drop_last() =~= Seq::empty());
    assert(message::contributions(parts@.drop_last()) =~= Seq::empty());
    assert(message::contributions(parts@) =~= seq![s@]);
}

/// What the parts of a message add stays the same, whatever comes before or after them.
pub proof fn law_parts_add_up(a: Seq<CliContentPart>, b: Seq<CliContentPart>)
    ensures
        message::contributions(a + b) == message::contributions(a) + message::contributions(b),
    decreases b.len(),
{
    if b.len() == 0 {
        assert(a + b =~= a);
        assert(message::contributions(a) + message::contributions(b) =~= message::contributions(a));
    } else {
        law_parts_add_up(a, b.drop_last());
        assert((a + b).drop_last() =~= a + b.drop_last());
        assert((a + b).last() == b.last());
        assert(message::contributions(a + b) =~= message::contributions(a)
            + message::contributions(b));
    }
}

/// The prompt for a longer conversation is the prompt for its beginning, an empty line, and the
/// prompt for the rest.
pub proof fn law_prompt_of_parts(a: Seq<CliMessage>, b: Seq<CliMessage>)
    requires
        a.len() > 0,
        b.len() > 0,
    ensures
        message::prompt(a + b) == message::prompt(a) + "\n\n"@ + message::prompt(b),
    decreases b.len(),
{
    let sep = "\n\n"@;
    let all = message::blocks(a + b);
    let tail = message::blocks(b);
    assert(all.last() == tail.last());
    assert(all.drop_last() =~= message::blocks(a + b.drop_last()));
    if b.len() == 1 {
        assert(a + b.drop_last() =~= a);
        assert(message::prompt(a + b) =~= message::prompt(a) + sep + message::prompt(b));
    } else {
        law_prompt_of_parts(a, b.drop_last());
        assert(tail.drop_last() =~= message::blocks(b.drop_last()));
        assert(message::prompt(a + b) =~= message::prompt(a) + sep + message::prompt(b));
    }
}

// Requests.

/// A request is refused exactly where the backend is not enabled, and then with the status 503;
/// one that is not refused is answered piece by piece exactly where it asks for that.
pub proof fn law_refused_iff_disabled(config: CliConfig, request: CliChatRequest)
    ensures
        reply::plan(config, request) is Refuse <==> !config.enabled,
        reply::plan(config, request) matches Plan::Refuse { status, .. } ==> status == 503,
        reply::plan(config, request) is Stream <==> config.enabled && request.stream,
        reply::plan(config, request) is Sync <==> config.enabled && !request.stream,
{
}

/// Frames can be told apart: where the data of two frames has no line breaks, what follows one
/// frame is not taken for a part of it.
pub proof fn law_frames_are_told_apart(
    a: Seq<char>,
    b: Seq<char>,
    after_a: Seq<char>,
    after_b: Seq<char>,
)
    requires
        !a.contains('\n'),
        !b.contains('\n'),
        reply::event_frame(a) + after_a == reply::event_frame(b) + after_b,
    ensures
        a == b,
        after_a == after_b,
{
    reveal_strlit("data: ");
    reveal_strlit("\n\n");
    let x = reply::event_frame(a) + after_a;
    let y = reply::event_frame(b) + after_b;
    assert(x[6 + a.len() as int] == '\n');
    assert(y[6 + b.len() as int] == '\n');
    if a.len() < b.len() {
        assert(y[6 + a.len() as int] == b[a.len() as int]);
        assert(b.contains(b[a.len() as int]));
    }
    if b.len() < a.len() {
        assert(x[6 + b.len() as int] == a[b.len() as int]);
        assert(a.contains(a[b.len() as int]));
    }
    assert forall|i: int| 0 <= i < a.len() implies a[i] == b[i] by {
        assert(x[6 + i] == a[i]);
        assert(y[6 + i] == b[i]);
    }
    assert(a =~= b);
    assert(x.len() == 8 + a.len() + after_a.len());
    assert(y.len() == 8 + b.len() + after_b.len());
    assert forall|i: int| 0 <= i < after_a.len() implies after_a[i] == after_b[i] by {
        assert(x[8 + a.len() + i] == after_a[i]);
        assert(y[8 + b.len() + i] == after_b[i]);
    }
    assert(after_a =~= after_b);
}

// Lines of output.

/// Nothing empty is passed on: no piece of reasoning or answer, and no file without content.
pub proof fn law_nothing_empty_is_passed_on(parser: ParserState, line: JsonTree)
    ensures
        match parser.passed_on(parser::meaning(line)) {
            Some(StreamItem::Thinking(s)) => s.len() > 0,
            Some(StreamItem::Content(s)) => s.len() > 0,
            Some(StreamItem::File { content, .. }) => content.len() > 0,
            _ => true,
        },
{
}

/// A file is passed on only once the edit that writes it is completed, so that the line that
/// reports its start does not pass it on a second time.
pub proof fn law_file_only_when_completed(parser: ParserState, line: JsonTree)
    ensures
        parser.passed_on(parser::meaning(line)) is Some
            && parser.passed_on(parser::meaning(line))->Some_0 is File ==> {
            &&& line.member_text("type"@) == Some("tool_call"@)
            &&& line.member_text("subtype"@) == Some("completed"@)
        },
{
}

/// Members of a usage report with other names change nothing.
pub proof fn law_other_members_of_usage(
    members: Map<Seq<char>, JsonTree>,
    key: Seq<char>,
    value: JsonTree,
)
    requires
        key != "inputTokens"@,
        key != "outputTokens"@,
        key != "cacheReadTokens"@,
        key != "cacheWriteTokens"@,
    ensures
        parser::usage(JsonTree::Object(members.insert(key, value))) == parser::usage(
            JsonTree::Object(members),
        ),
{
}

/// Of the answer nothing is held back but a text that is all the answer before it, once more.
/// Every other text is passed on, and the first one always is. What is held back is passed on in
/// front of the text of the next answer line.
pub proof fn law_what_is_held_back(parser: ParserState, s: Seq<char>)
    requires
        s.len() > 0,
    ensures
        !parser.held ==> {
            &&& parser.passed_on(LineMeaning::Answer(s)) == if s == parser.answer {
                None
            } else {
                Some(StreamItem::Content(s))
            }
            &&& parser.after(LineMeaning::Answer(s)).held == (s == parser.answer)
        },
        parser.held && parser.answer.len() > 0 ==> {
            let all = parser.answer + parser.answer;
            &&& parser.passed_on(LineMeaning::Answer(s)) == Some(
                StreamItem::Content(
                    if s == all {
                        parser.answer
                    } else {
                        parser.answer + s
                    },
                ),
            )
            &&& parser.after(LineMeaning::Answer(s)).held == (s == all)
        },
        ParserState::initial().passed_on(LineMeaning::Answer(s)) == Some(StreamItem::Content(s)),
{
    assert(Seq::<char>::empty() + s =~= s);
    assert(parser.answer + Seq::<char>::empty() =~= parser.answer);
    assert(Seq::<char>::empty() + Seq::<char>::empty() =~= Seq::<char>::empty());
}

// Runs.

/// The bytes of answer and file content among the items.
pub open spec fn bytes_passed_on(items: Seq<StreamItem>) -> nat
    decreases items.len(),
{
    if items.len() == 0 {
        0
    } else {
        bytes_passed_on(items.drop_last()) + match items.last() {
            StreamItem::Content(s) => text::utf8_len(s),
            StreamItem::File { content, .. } => text::utf8_len(content),
            _ => 0,
        }
    }
}

/// The parser's count is the number of bytes of answer and file content passed on, as long as
/// that can be counted.
pub proof fn law_count_of_bytes(meanings: Seq<LineMeaning>)
    requires
        bytes_passed_on(output::progress(meanings).items) <= usize::MAX,
    ensures
        output::progress(meanings).parser.assistant_len == bytes_passed_on(
            output::progress(meanings).items,
        ),
    decreases meanings.len(),
{
    if meanings.len() > 0 {
        let before = output::progress(meanings.drop_last());
        let now = output::progress(meanings);
        if !output::ended(before.items) {
            match before.parser.passed_on(meanings.last()) {
                Some(item) => {
                    assert(now.items.drop_last() =~= before.items);
                    assert(now.items.last() == item);
                },
                None => {},
            }
        }
        law_count_of_bytes(meanings.drop_last());
    }
}

/// The parser takes the reasoning for complete exactly once that was passed on.
pub proof fn law_thinking_done(meanings: Seq<LineMeaning>)
    ensures
        output::progress(meanings).parser.thinking_done == output::progress(meanings).items.contains(
            StreamItem::ThinkingDone,
        ),
    decreases meanings.len(),
{
    if meanings.len() > 0 {
        law_thinking_done(meanings.drop_last());
        let before = output::progress(meanings.drop_last());
        let now = output::progress(meanings);
        if !output::ended(before.items) {
            match before.parser.passed_on(meanings.last()) {
                Some(item) => {
                    assert(now.items == before.items.push(item));
                    if before.items.contains(StreamItem::ThinkingDone) {
                        let k = choose|k: int|
                            0 <= k < before.items.len() && before.items[k]
                                == StreamItem::ThinkingDone;
                        assert(now.items[k] == StreamItem::ThinkingDone);
                    }
                    if item == StreamItem::ThinkingDone {
                        assert(now.items[before.items.len() as int] == StreamItem::ThinkingDone);
                    }
                },
                None => {},
            }
        }
    }
}

/// Once the output is reported complete, nothing that follows counts.
pub proof fn law_nothing_counts_after_the_end(before: Seq<LineMeaning>, after: Seq<LineMeaning>)
    requires
        output::ended(output::progress(before).items),
    ensures
        output::progress(before + after) == output::progress(before),
    decreases after.len(),
{
    if after.len() == 0 {
        assert(before + after =~= before);
    } else {
        law_nothing_counts_after_the_end(before, after.drop_last());
        assert((before + after).drop_last() =~= before + after.drop_last());
    }
}

/// The output is reported complete at most once, and nothing is passed on after that.
pub proof fn law_end_comes_last(meanings: Seq<LineMeaning>, i: int)
    requires
        0 <= i < output::progress(meanings).items.len(),
        output::progress(meanings).items[i] is Done,
    ensures
        i == output::progress(meanings).items.len() - 1,
    decreases meanings.len(),
{
    if meanings.len() > 0 {
        let before = output::progress(meanings.drop_last());
        if i < before.items.len() {
            law_end_comes_last(meanings.drop_last(), i);
        }
    }
}

/// A line that says nothing, such as a blank one, can be left away.
pub proof fn law_empty_lines_do_not_matter(before: Seq<LineMeaning>, after: Seq<LineMeaning>)
    ensures
        output::progress(before + seq![LineMeaning::Nothing] + after) == output::progress(
            before + after,
        ),
    decreases after.len(),
{
    let with = before + seq![LineMeaning::Nothing] + after;
    if after.len() == 0 {
        assert(with.drop_last() =~= before);
        assert(before + after =~= before);
    } else {
        law_empty_lines_do_not_matter(before, after.drop_last());
        assert(with.drop_last() =~= before + seq![LineMeaning::Nothing] + after.drop_last());
        assert((before + after).drop_last() =~= before + after.drop_last());
    }
}

/// The answer texts among the items, in order, without the files.
pub open spec fn answer_texts(items: Seq<StreamItem>) -> Seq<Seq<char>>
    decreases items.len(),
{
    if items.len() == 0 {
        Seq::empty()
    } else {
        match items.last() {
            StreamItem::Content(s) => answer_texts(items.drop_last()).push(s),
            _ => answer_texts(items.drop_last()),
        }
    }
}

/// The parser holds the answer that was passed on, without the files.
pub proof fn law_answer_is_remembered(meanings: Seq<LineMeaning>)
    ensures
        output::progress(meanings).parser.answer == text::concatenated(
            answer_texts(output::progress(meanings).items),
        ),
    decreases meanings.len(),
{
    if meanings.len() > 0 {
        law_answer_is_remembered(meanings.drop_last());
        let before = output::progress(meanings.drop_last());
        if !output::ended(before.items) {
            match before.parser.passed_on(meanings.last()) {
                Some(item) => {
                    assert(before.items.push(item).drop_last() =~= before.items);
                    if let StreamItem::Content(s) = item {
                        text::concatenated_push(answer_texts(before.items), s);
                    }
                },
                None => {
                    if let LineMeaning::Answer(s) = meanings.last() {
                        assert(before.parser.answer + before.parser.piece(s)
                            =~= before.parser.answer);
                    }
                },
            }
        }
    }
}

/// The answer texts that the agent sent, in order, up to the end of the output.
pub open spec fn texts_sent(meanings: Seq<LineMeaning>) -> Seq<Seq<char>>
    decreases meanings.len(),
{
    if meanings.len() == 0 {
        Seq::empty()
    } else {
        match meanings.last() {
            LineMeaning::Answer(s) if !output::ended(
                output::progress(meanings.drop_last()).items,
            ) => texts_sent(meanings.drop_last()).push(s),
            _ => texts_sent(meanings.drop_last()),
        }
    }
}

/// Whether no answer line is without characters. So it is with all output: see
/// [`output_has_no_empty_answers`].
pub open spec fn no_empty_answers(meanings: Seq<LineMeaning>) -> bool {
    forall|i: int|
        0 <= i < meanings.len() ==> (#[trigger] meanings[i] matches LineMeaning::Answer(s)
            ==> s.len() > 0)
}

/// Whether the last of the texts is all the others, one after the other.
pub open spec fn closed_by_repeat(texts: Seq<Seq<char>>) -> bool {
    texts.len() > 0 && texts.last() == text::concatenated(texts.drop_last())
}

/// The answer that the texts make up: all of them, one after the other, but for a last one that
/// repeats the others.
pub open spec fn answer_made_up_of(texts: Seq<Seq<char>>) -> Seq<char> {
    if closed_by_repeat(texts) {
        text::concatenated(texts.drop_last())
    } else {
        text::concatenated(texts)
    }
}

/// What was passed on and what is held back are together what the agent sent.
proof fn sent_is_passed_on_or_held(meanings: Seq<LineMeaning>)
    requires
        no_empty_answers(meanings),
    ensures
        ({
            let parser = output::progress(meanings).parser;
            &&& text::concatenated(texts_sent(meanings)) == parser.answer + parser.held_text()
            &&& parser.held == closed_by_repeat(texts_sent(meanings))
        }),
    decreases meanings.len(),
{
    let now = output::progress(meanings).parser;
    if meanings.len() == 0 {
        assert(now.answer + now.held_text() =~= Seq::empty());
    } else {
        let init = meanings.drop_last();
        assert forall|i: int| 0 <= i < init.len() implies (
        #[trigger] init[i] matches LineMeaning::Answer(s) ==> s.len() > 0) by {
            assert(init[i] == meanings[i]);
        }
        sent_is_passed_on_or_held(init);
        let before = output::progress(init);
        if !output::ended(before.items) {
            if let LineMeaning::Answer(s) = meanings[meanings.len() - 1] {
                let texts = texts_sent(init);
                text::concatenated_push(texts, s);
                assert(texts.push(s).drop_last() =~= texts);
                assert(now.answer + now.held_text() =~= before.parser.answer
                    + before.parser.held_text() + s);
            }
        }
    }
}

/// No line of output is read as an answer without characters.
pub proof fn output_has_no_empty_answers(lines: Seq<Seq<char>>)
    ensures
        no_empty_answers(output::meanings(lines)),
{
}

/// Whatever the agent writes, the answer passed on is what the agent sent, each text once and in
/// order: all the answer texts, but for a last one that repeats all the others.
pub proof fn law_answer_of_a_run(lines: Seq<Seq<char>>)
    ensures
        text::concatenated(answer_texts(output::passed_on(lines))) == answer_made_up_of(
            texts_sent(output::meanings(lines)),
        ),
{
    output_has_no_empty_answers(lines);
    answer_of_a_run(output::meanings(lines));
}

proof fn answer_of_a_run(meanings: Seq<LineMeaning>)
    requires
        no_empty_answers(meanings),
    ensures
        text::concatenated(answer_texts(output::progress(meanings).items)) == answer_made_up_of(
            texts_sent(meanings),
        ),
{
    let parser = output::progress(meanings).parser;
    let texts = texts_sent(meanings);
    law_answer_is_remembered(meanings);
    sent_is_passed_on_or_held(meanings);
    if closed_by_repeat(texts) {
        assert(texts =~= texts.drop_last().push(texts.last()));
        text::concatenated_push(texts.drop_last(), texts.last());
        let whole = text::concatenated(texts.drop_last());
        assert(whole + whole == parser.answer + parser.answer);
        assert(whole.len() == parser.answer.len());
        assert forall|i: int| 0 <= i < whole.len() implies whole[i] == parser.answer[i] by {
            assert((whole + whole)[i] == whole[i]);
            assert((parser.answer + parser.answer)[i] == parser.answer[i]);
        }
        assert(whole =~= parser.answer);
    } else {
        assert(parser.answer + parser.held_text() =~= parser.answer);
    }
}

/// The line that repeats the whole answer adds nothing: after it the answer is what the agent
/// sent before it, however short or long that is, whatever files were written meanwhile and
/// whatever the pieces are.
pub proof fn law_whole_answer_is_not_repeated(meanings: Seq<LineMeaning>, whole: Seq<char>)
    requires
        no_empty_answers(meanings),
        !output::ended(output::progress(meanings).items),
        whole == text::concatenated(texts_sent(meanings)),
        whole.len() > 0,
    ensures
        text::concatenated(
            answer_texts(output::progress(meanings.push(LineMeaning::Answer(whole))).items),
        ) == whole,
        !output::progress(meanings).parser.held ==> output::progress(
            meanings.push(LineMeaning::Answer(whole)),
        ).items == output::progress(meanings).items,
{
    let all = meanings.push(LineMeaning::Answer(whole));
    let texts = texts_sent(meanings);
    let parser = output::progress(meanings).parser;
    assert(all.drop_last() =~= meanings);
    assert(texts.push(whole).drop_last() =~= texts);
    assert forall|i: int| 0 <= i < all.len() implies (
    #[trigger] all[i] matches LineMeaning::Answer(s) ==> s.len() > 0) by {
        if i < meanings.len() {
            assert(all[i] == meanings[i]);
        }
    }
    answer_of_a_run(all);
    sent_is_passed_on_or_held(meanings);
}

/// Whether none of the texts is empty, nor all those before it once more.
pub open spec fn plain_pieces(texts: Seq<Seq<char>>) -> bool {
    forall|i: int|
        0 <= i < texts.len() ==> (#[trigger] texts[i]).len() > 0 && texts[i] != text::concatenated(
            texts.take(i),
        )
}

/// Where no piece of the answer is all those before it once more, each piece is passed on by
/// itself, whatever other lines stand between them, and the line that repeats the whole answer
/// at the end is not passed on.
pub proof fn law_pieces_are_passed_on_one_by_one(meanings: Seq<LineMeaning>)
    requires
        plain_pieces(texts_sent(meanings)),
    ensures
        answer_texts(output::progress(meanings).items) == texts_sent(meanings),
        output::progress(
            meanings.push(LineMeaning::Answer(text::concatenated(texts_sent(meanings)))),
        ).items == output::progress(meanings).items,
{
    plain_pieces_are_passed_on(meanings);
    law_answer_is_remembered(meanings);
    let now = output::progress(meanings);
    let whole = text::concatenated(texts_sent(meanings));
    assert(meanings.push(LineMeaning::Answer(whole)).drop_last() =~= meanings);
    assert(now.parser.answer + now.parser.held_text() =~= now.parser.answer);
    assert(now.parser.piece(whole) =~= Seq::empty());
}

proof fn plain_pieces_are_passed_on(meanings: Seq<LineMeaning>)
    requires
        plain_pieces(texts_sent(meanings)),
    ensures
        answer_texts(output::progress(meanings).items) == texts_sent(meanings),
        !output::progress(meanings).parser.held,
    decreases meanings.len(),
{
    if meanings.len() > 0 {
        let init = meanings.drop_last();
        let texts = texts_sent(meanings);
        let earlier = texts_sent(init);
        assert forall|i: int| 0 <= i < earlier.len() implies (#[trigger] earlier[i]).len() > 0
            && earlier[i] != text::concatenated(earlier.take(i)) by {
            assert(texts[i] == earlier[i]);
            assert(texts.take(i) =~= earlier.take(i));
        }
        plain_pieces_are_passed_on(init);
        law_answer_is_remembered(init);
        let before = output::progress(init);
        if !output::ended(before.items) {
            if let LineMeaning::Answer(s) = meanings.last() {
                assert(texts[earlier.len() as int] == s);
                assert(texts.take(earlier.len() as int) =~= earlier);
                assert(before.parser.answer + before.parser.held_text() =~= before.parser.answer);
                assert(before.parser.piece(s) =~= s);
            }
            match before.parser.passed_on(meanings.last()) {
                Some(item) => {
                    assert(before.items.push(item).drop_last() =~= before.items);
                },
                None => {},
            }
        }
    }
}

/// What lines say that carry these texts as answers, one each.
pub open spec fn answer_lines(texts: Seq<Seq<char>>) -> Seq<LineMeaning> {
    texts.map_values(|s: Seq<char>| LineMeaning::Answer(s))
}

/// A whole run of nothing but an answer: where no piece is all those before it once more, the
/// pieces are passed on, each by itself and in order, and the closing line is not.
pub proof fn law_whole_run(texts: Seq<Seq<char>>)
    requires
        plain_pieces(texts),
    ensures
        output::progress(
            answer_lines(texts).push(LineMeaning::Answer(text::concatenated(texts))),
        ).items == texts.map_values(|s: Seq<char>| StreamItem::Content(s)),
{
    run_of_answers(texts);
    law_pieces_are_passed_on_one_by_one(answer_lines(texts));
}

proof fn run_of_answers(texts: Seq<Seq<char>>)
    requires
        plain_pieces(texts),
    ensures
        texts_sent(answer_lines(texts)) == texts,
        output::progress(answer_lines(texts)).items == texts.map_values(
            |s: Seq<char>| StreamItem::Content(s),
        ),
    decreases texts.len(),
{
    let lines = answer_lines(texts);
    if texts.len() == 0 {
        assert(texts_sent(lines) =~= texts);
        assert(output::progress(lines).items =~= texts.map_values(
            |s: Seq<char>| StreamItem::Content(s),
        ));
    } else {
        let init = texts.drop_last();
        assert forall|i: int| 0 <= i < init.len() implies (#[trigger] init[i]).len() > 0 && init[i]
            != text::concatenated(init.take(i)) by {
            assert(texts[i] == init[i]);
            assert(texts.take(i) =~= init.take(i));
        }
        run_of_answers(init);
        assert(lines.drop_last() =~= answer_lines(init));
        let before = output::progress(answer_lines(init));
        let s = texts[texts.len() - 1];
        assert(lines.last() == LineMeaning::Answer(s));
        assert(texts.take(texts.len() - 1) =~= init);
        plain_pieces_are_passed_on(answer_lines(init));
        law_answer_is_remembered(answer_lines(init));
        assert(before.parser.answer + before.parser.held_text() =~= before.parser.answer);
        assert(before.parser.piece(s) =~= s);
        assert(texts_sent(lines) =~= texts);
        assert(output::progress(lines).items =~= texts.map_values(
            |s: Seq<char>| StreamItem::Content(s),
        ));
    }
}

// Whole answers and streams.

/// What the chunks add to the answer, in order.
pub open spec fn chunk_contents(chunks: Seq<Chunk>) -> Seq<Seq<char>>
    decreases chunks.len(),
{
    if chunks.len() == 0 {
        Seq::empty()
    } else {
        match chunks.last().choices[0].content {
            Some(s) => chunk_contents(chunks.drop_last()).push(s),
            None => chunk_contents(chunks.drop_last()),
        }
    }
}

/// What the chunks add to the reasoning, in order.
pub open spec fn chunk_reasoning(chunks: Seq<Chunk>) -> Seq<Seq<char>>
    decreases chunks.len(),
{
    if chunks.len() == 0 {
        Seq::empty()
    } else {
        match chunks.last().choices[0].reasoning_content {
            Some(s) => chunk_reasoning(chunks.drop_last()).push(s),
            None => chunk_reasoning(chunks.drop_last()),
        }
    }
}

/// All the chunks of a stream: who speaks, one chunk for each item that is sent, and the end.
pub open spec fn stream_chunks(header: Header, items: Seq<StreamItem>) -> Seq<Chunk> {
    (seq![stream::role_chunk(header)] + stream::item_chunks(header, items)).push(
        stream::stop_chunk(header),
    )
}

proof fn head_chunks_agree(header: Header, items: Seq<StreamItem>)
    ensures
        ({
            let head = seq![stream::role_chunk(header)] + stream::item_chunks(header, items);
            &&& chunk_contents(head) == output::answer_pieces(items)
            &&& chunk_reasoning(head) == output::reasoning_pieces(items)
        }),
    decreases items.len(),
{
    let head = seq![stream::role_chunk(header)] + stream::item_chunks(header, items);
    if items.len() == 0 {
        assert(head =~= seq![stream::role_chunk(header)]);
        assert(head.drop_last() =~= Seq::empty());
        assert(head.last() == stream::role_chunk(header));
        assert(chunk_contents(head.drop_last()) =~= Seq::empty());
        assert(chunk_reasoning(head.drop_last()) =~= Seq::empty());
    } else {
        let before = seq![stream::role_chunk(header)] + stream::item_chunks(
            header,
            items.drop_last(),
        );
        head_chunks_agree(header, items.drop_last());
        match stream::item_chunk(header, items.last()) {
            Some(c) => {
                assert(head =~= before.push(c));
                assert(head.drop_last() =~= before);
            },
            None => {
                assert(head =~= before);
            },
        }
    }
}

/// A stream carries the same answer and the same reasoning as one whole answer to the same
/// output: the pieces are the same, in the same order.
pub proof fn law_stream_and_sync_agree(header: Header, items: Seq<StreamItem>)
    ensures
        chunk_contents(stream_chunks(header, items)) == output::answer_pieces(items),
        chunk_reasoning(stream_chunks(header, items)) == output::reasoning_pieces(items),
{
    let head = seq![stream::role_chunk(header)] + stream::item_chunks(header, items);
    head_chunks_agree(header, items);
    assert(stream_chunks(header, items).drop_last() =~= head);
    assert(stream_chunks(header, items).last() == stream::stop_chunk(header));
}

/// A stream that is over, or has come to its end mark, has handed out all its chunks, for the
/// lines that it has read; put together, they carry the answer that one whole answer to those
/// lines has. A stream that was given up at once has handed out the first chunk alone.
pub proof fn law_stream_is_whole(session: StreamSession)
    requires
        session.wf(),
        session.state().phase is SendingStop || session.state().phase is SendingEnd
            || session.state().phase is Closed,
    ensures
        session.sent() == seq![stream::role_chunk(session.header())] || {
            let items = output::passed_on(session.lines());
            &&& session.sent() == stream_chunks(session.header(), items)
            &&& text::concatenated(chunk_contents(session.sent())) == text::concatenated(
                output::answer_pieces(items),
            )
            &&& text::concatenated(chunk_reasoning(session.sent())) == text::concatenated(
                output::reasoning_pieces(items),
            )
        },
        !(session.state().phase is Closed) ==> session.sent().len() > 1,
{
    let items = output::passed_on(session.lines());
    law_stream_and_sync_agree(session.header(), items);
    if session.lines().len() == 0 {
        assert(output::meanings(session.lines()) =~= Seq::empty());
        assert(seq![stream::role_chunk(session.header())] + stream::item_chunks(
            session.header(),
            items,
        ) =~= seq![stream::role_chunk(session.header())]);
    }
}

/// In every chunk of a stream one thing is said of one answer, and all chunks carry the same
/// number, time and model; only the first names the speaker, and only the last says `stop`.
pub proof fn law_chunks_of_a_stream(header: Header, items: Seq<StreamItem>, i: int)
    requires
        0 <= i < stream_chunks(header, items).len(),
    ensures
        ({
            let chunks = stream_chunks(header, items);
            let c = chunks[i];
            &&& c.id == header.id && c.created == header.created && c.model == header.model
            &&& c.object == "chat.completion.chunk"@
            &&& c.choices.len() == 1 && c.choices[0].index == 0
            &&& c.choices[0].role == (if i == 0 {
                Some("assistant"@)
            } else {
                None
            })
            &&& c.choices[0].finish_reason == (if i == chunks.len() - 1 {
                Some("stop"@)
            } else {
                None
            })
            &&& 0 < i < chunks.len() - 1 ==> (c.choices[0].content is Some)
                != (c.choices[0].reasoning_content is Some)
            &&& i == 0 || i == chunks.len() - 1 ==> c.choices[0].content is None
                && c.choices[0].reasoning_content is None
        }),
{
    let pieces = stream::item_chunks(header, items);
    if 0 < i < stream_chunks(header, items).len() - 1 {
        assert(stream_chunks(header, items)[i] == pieces[i - 1]);
        piece_of_a_stream(header, items, i - 1);
    }
}

proof fn piece_of_a_stream(header: Header, items: Seq<StreamItem>, i: int)
    requires
        0 <= i < stream::item_chunks(header, items).len(),
    ensures
        exists|s: Seq<char>|
            #![trigger stream::content_chunk(header, s)]
            #![trigger stream::reasoning_chunk(header, s)]
            stream::item_chunks(header, items)[i] == stream::content_chunk(header, s)
                || stream::item_chunks(header, items)[i] == stream::reasoning_chunk(header, s),
    decreases items.len(),
{
    if items.len() > 0 {
        let before = stream::item_chunks(header, items.drop_last());
        if i < before.len() {
            piece_of_a_stream(header, items.drop_last(), i);
        }
    }
}

/// The action after an event tells which events can happen next: after one that sends, the news
/// whether it was sent; after one that reads, a line or the end of the output; after the others,
/// nothing.
pub proof fn law_action_fits_phase(state: StreamState, header: Header, event: StreamEvent)
    requires
        state.phase.allows(event),
    ensures
        ({
            let (next, action) = state.after(header, event);
            &&& next.phase.allows(StreamEvent::Sent) == (action is Send || action is SendEnd)
            &&& next.phase.allows(StreamEvent::Disconnected) == (action is Send
                || action is SendEnd)
            &&& next.phase.allows(StreamEvent::EndOfOutput) == (action is Read)
            &&& forall|line: &str|
                #[trigger] next.phase.allows(StreamEvent::Line(line)) == (action is Read)
            &&& next.phase is Closed == (action is Wait || action is Abandon)
        }),
{
}

/// However a stream that has begun to read comes to its end, by the end of the output, by the
/// line that reports it, or by a client that is gone, the last chunk, the end mark and the wait
/// for the agent follow, and whether the client still listens makes no difference.
pub proof fn law_streams_end_in_order(
    state: StreamState,
    header: Header,
    first: StreamEvent,
    second: StreamEvent,
)
    requires
        state.phase is SendingStop,
        first is Sent || first is Disconnected,
        second is Sent || second is Disconnected,
    ensures
        state.after(header, first).1 is SendEnd,
        state.after(header, first).0.after(header, second).1 is Wait,
        state.after(header, first).0.after(header, second).0.phase is Closed,
        ({
            let reading = StreamState { phase: StreamPhase::Reading, ..state };
            let sending = StreamState { phase: StreamPhase::SendingPiece, ..state };
            &&& reading.after(header, StreamEvent::EndOfOutput) == (
                state,
                Action::Send(stream::stop_chunk(header)),
            )
            &&& sending.after(header, StreamEvent::Disconnected) == (
                state,
                Action::Send(stream::stop_chunk(header)),
            )
            &&& forall|u: CliUsageInfo|
                #[trigger] reading.after_line(header, LineMeaning::Done(u)) == (
                    state,
                    Action::Send(stream::stop_chunk(header)),
                )
        }),
{
}

/// Where not even the first chunk reaches the client, the stream is given up at once.
pub proof fn law_no_stream_without_a_client(state: StreamState, header: Header)
    requires
        state.phase is SendingRole,
    ensures
        state.after(header, StreamEvent::Disconnected).1 is Abandon,
        state.after(header, StreamEvent::Disconnected).0.phase is Closed,
{
}

} // verus!
