//! What holds of whole runs of the agent: what is passed on of all its lines, and how that is put
//! together.
use vstd::prelude::*;
use crate::collect;
use crate::collect::{AnswerParts, Pieces};
use crate::json;
use crate::json::JsonTree;
use crate::laws;
use crate::laws_of_lines;
use crate::output;
use crate::parser;
use crate::parser::{CliUsageInfo, LineMeaning, StreamItem};
use crate::text;

verus! {

// Lines one after the other.

/// Before the first line nothing is passed on. One more line adds what is passed on of it at the
/// end and changes nothing of what was passed on before; once the end of the output was passed
/// on, it adds nothing.
pub proof fn law_one_more_line(lines: Seq<Seq<char>>, line: Seq<char>)
    ensures
        output::passed_on(Seq::empty()) == Seq::<StreamItem>::empty(),
        ({
            let before = output::passed_on(lines);
            let after = output::passed_on(lines.push(line));
            let parser = output::progress(output::meanings(lines)).parser;
            let m = output::output_meaning(line);
            if before.len() > 0 && before[before.len() - 1] is Done {
                &&& after == before
                &&& output::progress(output::meanings(lines.push(line))).parser == parser
            } else {
                &&& after == match parser.passed_on(m) {
                    Some(item) => before.push(item),
                    None => before,
                }
                &&& output::progress(output::meanings(lines.push(line))).parser == parser.after(m)
            }
        }),
{
    assert(output::meanings(Seq::empty()) =~= Seq::empty());
    assert(output::meanings(lines.push(line)).drop_last() =~= output::meanings(lines));
    assert(output::meanings(lines.push(line)).last() == output::output_meaning(line));
}

/// What was passed on of some lines stays as it is, whatever lines follow.
pub proof fn law_passed_on_stays(lines: Seq<Seq<char>>, more: Seq<Seq<char>>)
    ensures
        output::passed_on(lines).len() <= output::passed_on(lines + more).len(),
        output::passed_on(lines + more).take(output::passed_on(lines).len() as int)
            == output::passed_on(lines),
    decreases more.len(),
{
    let before = output::passed_on(lines);
    if more.len() == 0 {
        assert(lines + more =~= lines);
        assert(before.take(before.len() as int) =~= before);
    } else {
        let init = lines + more.drop_last();
        law_passed_on_stays(lines, more.drop_last());
        law_one_more_line(init, more.last());
        assert(lines + more =~= init.push(more.last()));
        assert(output::passed_on(lines + more).take(before.len() as int) =~= output::passed_on(
            init,
        ).take(before.len() as int));
    }
}

// The JSON in the lines.

/// The JSON in a line of output, with the white space at its ends left away.
pub open spec fn json_in(line: Seq<char>) -> Option<JsonTree> {
    if text::trimmed(line).len() == 0 {
        None
    } else {
        json::parsed_json(text::trimmed(line))
    }
}

/// The text that an object holds under a key, and no characters where it holds none.
pub open spec fn text_under(tree: JsonTree, key: Seq<char>) -> Seq<char> {
    match tree {
        JsonTree::Object(members) if members.contains_key(key) => match members[key] {
            JsonTree::Text(s) => s,
            _ => Seq::empty(),
        },
        _ => Seq::empty(),
    }
}

/// Whether a line reports the output complete.
pub open spec fn reports_end(line: Seq<char>) -> bool {
    json_in(line) matches Some(tree) && laws_of_lines::holds(
        tree,
        "type"@,
        JsonTree::Text("result"@),
    ) && laws_of_lines::holds(tree, "subtype"@, JsonTree::Text("success"@))
}

/// Whether one of the lines reports the output complete.
pub open spec fn over(lines: Seq<Seq<char>>) -> bool {
    exists|i: int| 0 <= i < lines.len() && reports_end(#[trigger] lines[i])
}

/// The end of the output is passed on exactly where one of the lines reports it.
pub proof fn law_end_of_a_run(lines: Seq<Seq<char>>)
    ensures
        output::ended(output::passed_on(lines)) <==> over(lines),
        output::ended(output::passed_on(lines)) <==> exists|i: int|
            0 <= i < output::passed_on(lines).len() && #[trigger] output::passed_on(lines)[i] is Done,
    decreases lines.len(),
{
    let items = output::passed_on(lines);
    if lines.len() == 0 {
        law_one_more_line(lines, Seq::empty());
        assert(lines =~= Seq::empty());
    } else {
        let init = lines.drop_last();
        let last = lines.last();
        law_end_of_a_run(init);
        law_one_more_line(init, last);
        assert(lines =~= init.push(last));
        assert(last == lines[lines.len() - 1]);
        if over(init) {
            let i = choose|i: int| 0 <= i < init.len() && reports_end(#[trigger] init[i]);
            assert(reports_end(lines[i]));
        }
        if json_in(last) is Some {
            laws_of_lines::law_end_of_output_lines(json_in(last)->Some_0);
        }
        if over(lines) && !over(init) {
            let i = choose|i: int| 0 <= i < lines.len() && reports_end(#[trigger] lines[i]);
            if i < init.len() {
                assert(init[i] == lines[i]);
            }
            assert(reports_end(last));
        }
    }
    if output::ended(items) {
        assert(items[items.len() - 1] is Done);
    }
    if exists|i: int| 0 <= i < items.len() && #[trigger] items[i] is Done {
        let i = choose|i: int| 0 <= i < items.len() && #[trigger] items[i] is Done;
        laws::law_end_comes_last(output::meanings(lines), i);
    }
}

/// What one item of a content says: its text, where it is a text part.
pub open spec fn said_by(item: JsonTree) -> Seq<char> {
    if laws_of_lines::holds(item, "type"@, JsonTree::Text("text"@)) {
        text_under(item, "text"@)
    } else {
        Seq::empty()
    }
}

/// What the items of a content say, one after the other.
pub open spec fn said_by_all(items: Seq<JsonTree>) -> Seq<char>
    decreases items.len(),
{
    if items.len() == 0 {
        Seq::empty()
    } else {
        said_by_all(items.drop_last()) + said_by(items[items.len() - 1])
    }
}

/// The answer text that a line carries: what the content of its message says, where the line is
/// one of the type `assistant`.
pub open spec fn answer_in(line: Seq<char>) -> Seq<char> {
    match json_in(line) {
        Some(JsonTree::Object(members)) if members.contains_key("type"@) && members["type"@]
            == JsonTree::Text("assistant"@) && members.contains_key("message"@) => {
            match members["message"@] {
                JsonTree::Object(message) if message.contains_key("content"@) => {
                    match message["content"@] {
                        JsonTree::Array(items) => said_by_all(items),
                        _ => Seq::empty(),
                    }
                },
                _ => Seq::empty(),
            }
        },
        _ => Seq::empty(),
    }
}

/// The piece of reasoning that a line carries: its text, where the line is one of the type
/// `thinking` and the subtype `delta`.
pub open spec fn reasoning_in(line: Seq<char>) -> Seq<char> {
    match json_in(line) {
        Some(tree) if laws_of_lines::holds(tree, "type"@, JsonTree::Text("thinking"@))
            && laws_of_lines::holds(tree, "subtype"@, JsonTree::Text("delta"@)) => text_under(
            tree,
            "text"@,
        ),
        _ => Seq::empty(),
    }
}

/// The answer texts in the JSON of the lines, in order, up to the line that reports the output
/// complete. Every text with at least one character counts, whatever the character.
pub open spec fn answers_in(lines: Seq<Seq<char>>) -> Seq<Seq<char>>
    decreases lines.len(),
{
    if lines.len() == 0 {
        Seq::empty()
    } else {
        let init = lines.drop_last();
        let s = answer_in(lines[lines.len() - 1]);
        if s.len() == 0 || over(init) {
            answers_in(init)
        } else {
            answers_in(init).push(s)
        }
    }
}

/// The reasoning in the JSON of the lines, one piece after the other, up to the line that reports
/// the output complete.
pub open spec fn all_reasoning_in(lines: Seq<Seq<char>>) -> Seq<char>
    decreases lines.len(),
{
    if lines.len() == 0 {
        Seq::empty()
    } else {
        let init = lines.drop_last();
        if over(init) {
            all_reasoning_in(init)
        } else {
            all_reasoning_in(init) + reasoning_in(lines[lines.len() - 1])
        }
    }
}

/// The text parts of a content are put together to what its items say, one after the other.
pub proof fn law_content_is_put_together(items: Seq<JsonTree>)
    ensures
        text::concatenated(parser::text_parts(items)) == said_by_all(items),
    decreases items.len(),
{
    if items.len() == 0 {
        laws_of_lines::law_text_parts(items, JsonTree::Null);
        assert(items =~= Seq::empty());
    } else {
        let init = items.drop_last();
        let last = items[items.len() - 1];
        law_content_is_put_together(init);
        laws_of_lines::law_text_parts(init, last);
        assert(items =~= init.push(last));
        if last.member_text("text"@) is Some {
            let s = last.member_text("text"@)->Some_0;
            assert(laws_of_lines::holds(last, "text"@, JsonTree::Text(s)));
        }
        assert(text::concatenated(parser::text_parts(items)) =~= said_by_all(init) + said_by(last));
    }
}

/// A line is read as an answer exactly where its JSON carries an answer text with a character, and
/// then as just that text.
pub proof fn law_answer_in_a_line(line: Seq<char>)
    ensures
        answer_in(line).len() > 0 ==> output::output_meaning(line) == LineMeaning::Answer(
            answer_in(line),
        ),
        answer_in(line).len() == 0 ==> !(output::output_meaning(line) is Answer),
{
    match json_in(line) {
        Some(tree) => {
            if let JsonTree::Object(members) = tree {
                if members.contains_key("message"@) {
                    let message = members["message"@];
                    assert(laws_of_lines::holds(tree, "message"@, message));
                    if let JsonTree::Object(inner) = message {
                        if inner.contains_key("content"@) {
                            if let JsonTree::Array(items) = inner["content"@] {
                                assert(laws_of_lines::holds(
                                    message,
                                    "content"@,
                                    JsonTree::Array(items),
                                ));
                                law_content_is_put_together(items);
                                if laws_of_lines::holds(
                                    tree,
                                    "type"@,
                                    JsonTree::Text("assistant"@),
                                ) {
                                    assert(laws_of_lines::carries(tree, items));
                                    laws_of_lines::law_answer_lines(tree, items);
                                }
                            }
                        }
                    }
                }
            }
            if parser::meaning(tree) is Answer {
                laws_of_lines::law_no_other_answer_lines(tree);
            }
        },
        None => {},
    }
}

/// A line is read as a piece of reasoning exactly where its JSON carries one with a character, and
/// then as just that piece.
pub proof fn law_reasoning_in_a_line(line: Seq<char>)
    ensures
        reasoning_in(line).len() > 0 ==> output::output_meaning(line) == LineMeaning::Thinking(
            reasoning_in(line),
        ),
        reasoning_in(line).len() == 0 ==> !(output::output_meaning(line) is Thinking),
{
    match json_in(line) {
        Some(tree) => {
            laws_of_lines::law_reasoning_lines(tree, reasoning_in(line));
            if let LineMeaning::Thinking(s) = parser::meaning(tree) {
                laws_of_lines::law_reasoning_lines(tree, s);
            }
        },
        None => {},
    }
}

/// The answer passed on of a run is made up of the answer texts in the JSON of its lines: each of
/// them once and in order, whatever characters it consists of, but for a last one that repeats all
/// the others.
pub proof fn law_answer_of_the_json(lines: Seq<Seq<char>>)
    ensures
        text::concatenated(laws::answer_texts(output::passed_on(lines)))
            == laws::answer_made_up_of(answers_in(lines)),
{
    texts_sent_are_in_the_json(lines);
    laws::law_answer_of_a_run(lines);
}

proof fn texts_sent_are_in_the_json(lines: Seq<Seq<char>>)
    ensures
        laws::texts_sent(output::meanings(lines)) == answers_in(lines),
    decreases lines.len(),
{
    if lines.len() > 0 {
        let init = lines.drop_last();
        let last = lines[lines.len() - 1];
        texts_sent_are_in_the_json(init);
        law_end_of_a_run(init);
        law_answer_in_a_line(last);
        assert(output::meanings(lines).drop_last() =~= output::meanings(init));
        assert(output::meanings(lines).last() == output::output_meaning(last));
    }
}

/// Where no answer text is all those before it once more, the answer texts in the JSON of the
/// lines are passed on each by itself, in order and unchanged.
pub proof fn law_answer_pieces_of_the_json(lines: Seq<Seq<char>>)
    requires
        laws::plain_pieces(answers_in(lines)),
    ensures
        laws::answer_texts(output::passed_on(lines)) == answers_in(lines),
{
    texts_sent_are_in_the_json(lines);
    laws::law_pieces_are_passed_on_one_by_one(output::meanings(lines));
}

/// The reasoning passed on of a run is all the reasoning in the JSON of its lines, in order and
/// unchanged.
pub proof fn law_reasoning_of_the_json(lines: Seq<Seq<char>>)
    ensures
        text::concatenated(output::reasoning_pieces(output::passed_on(lines)))
            == all_reasoning_in(lines),
    decreases lines.len(),
{
    if lines.len() == 0 {
        law_one_more_line(lines, Seq::empty());
        assert(lines =~= Seq::empty());
    } else {
        let init = lines.drop_last();
        let last = lines[lines.len() - 1];
        let before = output::passed_on(init);
        law_reasoning_of_the_json(init);
        law_end_of_a_run(init);
        law_one_more_line(init, last);
        law_reasoning_in_a_line(last);
        assert(lines =~= init.push(last));
        if !over(init) {
            let parser = output::progress(output::meanings(init)).parser;
            match parser.passed_on(output::output_meaning(last)) {
                Some(item) => {
                    law_reasoning_pieces(before, item);
                    if let StreamItem::Thinking(s) = item {
                        text::concatenated_push(output::reasoning_pieces(before), s);
                    }
                },
                None => {},
            }
            if reasoning_in(last).len() == 0 {
                assert(all_reasoning_in(init) + reasoning_in(last) =~= all_reasoning_in(init));
            }
        }
    }
}

/// Apart from the answer, every line before the end of the output is passed on: each piece of
/// reasoning, the end of the reasoning, each file and the end of the output, in order.
pub proof fn law_nothing_else_is_lost(lines: Seq<Seq<char>>)
    ensures
        without_answers(output::passed_on(lines)) == told(lines),
    decreases lines.len(),
{
    if lines.len() == 0 {
        law_one_more_line(lines, Seq::empty());
        assert(lines =~= Seq::empty());
    } else {
        let init = lines.drop_last();
        let last = lines[lines.len() - 1];
        let before = output::passed_on(init);
        law_nothing_else_is_lost(init);
        law_end_of_a_run(init);
        law_one_more_line(init, last);
        assert(lines =~= init.push(last));
        if !over(init) {
            let parser = output::progress(output::meanings(init)).parser;
            match parser.passed_on(output::output_meaning(last)) {
                Some(item) => {
                    assert(before.push(item).drop_last() =~= before);
                },
                None => {},
            }
        }
    }
}

/// The items but for the pieces of the answer.
pub open spec fn without_answers(items: Seq<StreamItem>) -> Seq<StreamItem>
    decreases items.len(),
{
    if items.len() == 0 {
        Seq::empty()
    } else {
        match items.last() {
            StreamItem::Content(_) => without_answers(items.drop_last()),
            item => without_answers(items.drop_last()).push(item),
        }
    }
}

/// What the lines tell apart from the answer, up to the end of the output.
pub open spec fn told(lines: Seq<Seq<char>>) -> Seq<StreamItem>
    decreases lines.len(),
{
    if lines.len() == 0 {
        Seq::empty()
    } else {
        let before = told(lines.drop_last());
        if over(lines.drop_last()) {
            before
        } else {
            match output::output_meaning(lines[lines.len() - 1]) {
                LineMeaning::Thinking(s) => before.push(StreamItem::Thinking(s)),
                LineMeaning::ThinkingDone => before.push(StreamItem::ThinkingDone),
                LineMeaning::File { path, content } => before.push(
                    StreamItem::File { path, content },
                ),
                LineMeaning::Done(u) => before.push(StreamItem::Done(u)),
                _ => before,
            }
        }
    }
}

/// The token counts of a run are those of the first line that reports the output complete, and
/// all 0 where none does.
pub proof fn law_counts_of_a_run(lines: Seq<Seq<char>>, i: int)
    ensures
        !over(lines) ==> collect::final_usage(output::passed_on(lines)) == CliUsageInfo::zero(),
        0 <= i < lines.len() && reports_end(lines[i]) && !over(lines.take(i)) ==> {
            &&& output::output_meaning(lines[i]) is Done
            &&& collect::final_usage(output::passed_on(lines)) == output::output_meaning(
                lines[i],
            )->Done_0
        },
{
    law_end_of_a_run(lines);
    if 0 <= i < lines.len() && reports_end(lines[i]) && !over(lines.take(i)) {
        let head = lines.take(i);
        let rest = lines.skip(i + 1);
        law_end_of_a_run(head);
        law_one_more_line(head, lines[i]);
        laws_of_lines::law_end_of_output_lines(json_in(lines[i])->Some_0);
        let all = output::meanings(head.push(lines[i]));
        assert(lines =~= head.push(lines[i]) + rest);
        assert(output::meanings(lines) =~= all + output::meanings(rest));
        laws::law_nothing_counts_after_the_end(all, output::meanings(rest));
    }
}

// Putting an answer together.

/// A file in the answer begins and ends with a fence of its own, and path and content stand
/// between them unchanged.
pub proof fn law_file_text(path: Seq<char>, content: Seq<char>)
    ensures
        output::file_text(path, content) == "\n```\n// File: "@ + path + "\n"@ + content
            + "\n```\n"@,
        output::file_text(path, content).len() == path.len() + content.len() + 20,
        output::file_text(path, content).subrange(14, 14int + path.len()) == path,
        output::file_text(path, content).subrange(
            15int + path.len(),
            15int + path.len() + content.len(),
        ) == content,
{
    reveal_strlit("\n```\n// File: ");
    reveal_strlit("\n");
    reveal_strlit("\n```\n");
    assert(output::file_text(path, content).subrange(14, 14int + path.len()) =~= path);
    assert(output::file_text(path, content).subrange(
        15int + path.len(),
        15int + path.len() + content.len(),
    ) =~= content);
}

/// To the answer a piece of it adds itself, a file adds its text, and nothing else adds anything.
/// Each is added at the end.
pub proof fn law_answer_pieces(items: Seq<StreamItem>, item: StreamItem)
    ensures
        output::answer_pieces(Seq::empty()) == Seq::<Seq<char>>::empty(),
        output::answer_pieces(items.push(item)) == match item {
            StreamItem::Content(s) => output::answer_pieces(items).push(s),
            StreamItem::File { path, content } => output::answer_pieces(items).push(
                "\n```\n// File: "@ + path + "\n"@ + content + "\n```\n"@,
            ),
            _ => output::answer_pieces(items),
        },
{
    assert(items.push(item).drop_last() =~= items);
}

/// To the reasoning a piece of it adds itself at the end, and nothing else adds anything.
pub proof fn law_reasoning_pieces(items: Seq<StreamItem>, item: StreamItem)
    ensures
        output::reasoning_pieces(Seq::empty()) == Seq::<Seq<char>>::empty(),
        output::reasoning_pieces(items.push(item)) == match item {
            StreamItem::Thinking(s) => output::reasoning_pieces(items).push(s),
            _ => output::reasoning_pieces(items),
        },
{
    assert(items.push(item).drop_last() =~= items);
}

/// The token counts are those that the items end with, and all 0 where they do not end the output.
pub proof fn law_final_counts(items: Seq<StreamItem>, item: StreamItem)
    ensures
        collect::final_usage(Seq::empty()) == CliUsageInfo::zero(),
        collect::final_usage(items.push(item)) == match item {
            StreamItem::Done(u) => u,
            _ => CliUsageInfo::zero(),
        },
        output::ended(items.push(item)) <==> item is Done,
        !output::ended(Seq::empty()),
{
}

/// One more item changes of the pieces just what it adds to, and leaves the others as they are.
pub proof fn law_one_more_piece(pieces: Pieces, item: StreamItem)
    ensures
        ({
            let next = pieces.with(item);
            match item {
                StreamItem::Thinking(s) => {
                    next == (Pieces { thinking: pieces.thinking.push(s), ..pieces })
                },
                StreamItem::Content(s) => {
                    next == (Pieces { content: pieces.content.push(s), ..pieces })
                },
                StreamItem::File { path, content } => {
                    next == (Pieces {
                        content: pieces.content.push(
                            "\n```\n// File: "@ + path + "\n"@ + content + "\n```\n"@,
                        ),
                        ..pieces
                    })
                },
                StreamItem::ThinkingDone => next == pieces,
                StreamItem::Done(u) => next == (Pieces { usage: u, ..pieces }),
            }
        }),
        Pieces::none().thinking.len() == 0,
        Pieces::none().content.len() == 0,
        Pieces::none().usage == CliUsageInfo::zero(),
{
}

/// The pieces of an answer are what its strings hold, each at its place.
pub proof fn law_what_pieces_hold(parts: AnswerParts, i: int)
    ensures
        parts@.thinking.len() == parts.thinking_parts@.len(),
        parts@.content.len() == parts.content_parts@.len(),
        parts@.usage == parts.usage,
        0 <= i < parts.thinking_parts@.len() ==> parts@.thinking[i] == parts.thinking_parts@[i]@,
        0 <= i < parts.content_parts@.len() ==> parts@.content[i] == parts.content_parts@[i]@,
{
}

} // verus!
