//! What holds of replies: of streams, step by step and as a whole, and of whole answers.
use vstd::prelude::*;
use crate::collect::CliSyncResult;
use crate::laws;
use crate::output;
use crate::parser;
use crate::parser::{LineMeaning, ParserState, StreamItem};
use crate::reply;
use crate::reply::{CliChatResponse, CliErrorResponse, HeaderField};
use crate::stream;
use crate::stream::{
    Action, Choice, Chunk, CliStreamChoice, CliStreamChunk, Header, StreamAction, StreamEvent,
    StreamPhase, StreamSender, StreamState,
};

verus! {

// Chunks.

/// Whether a chunk belongs to the answer with this header, and says just this of it.
pub open spec fn says_of(c: Chunk, header: Header, choice: Choice) -> bool {
    &&& c.id == header.id
    &&& c.object == "chat.completion.chunk"@
    &&& c.created == header.created
    &&& c.model == header.model
    &&& c.choices == seq![choice]
}

/// A choice that says nothing of the one answer.
pub open spec fn silent() -> Choice {
    Choice { index: 0, role: None, content: None, reasoning_content: None, finish_reason: None }
}

/// The first chunk says who speaks, the last one that the answer is complete, and a chunk between
/// them carries a piece of the answer or of the reasoning. None says anything else.
pub proof fn law_what_chunks_say(header: Header, s: Seq<char>)
    ensures
        says_of(
            stream::role_chunk(header),
            header,
            (Choice { role: Some("assistant"@), ..silent() }),
        ),
        says_of(
            stream::stop_chunk(header),
            header,
            (Choice { finish_reason: Some("stop"@), ..silent() }),
        ),
        says_of(stream::content_chunk(header, s), header, (Choice { content: Some(s), ..silent() })),
        says_of(
            stream::reasoning_chunk(header, s),
            header,
            (Choice { reasoning_content: Some(s), ..silent() }),
        ),
{
}

/// A piece of the reasoning, a piece of the answer and a file are each sent as one chunk, with
/// nothing left away; the end of the reasoning and the end of the output are not sent as pieces.
pub proof fn law_what_is_sent_of_an_item(header: Header, item: StreamItem)
    ensures
        match item {
            StreamItem::Thinking(s) => {
                &&& stream::item_chunk(header, item) matches Some(c)
                &&& says_of(c, header, (Choice { reasoning_content: Some(s), ..silent() }))
            },
            StreamItem::Content(s) => {
                &&& stream::item_chunk(header, item) matches Some(c)
                &&& says_of(c, header, (Choice { content: Some(s), ..silent() }))
            },
            StreamItem::File { path, content } => {
                &&& stream::item_chunk(header, item) matches Some(c)
                &&& says_of(
                    c,
                    header,
                    (Choice {
                        content: Some(
                            "\n```\n// File: "@ + path + "\n"@ + content + "\n```\n"@,
                        ),
                        ..silent()
                    }),
                )
            },
            StreamItem::ThinkingDone => stream::item_chunk(header, item) is None,
            StreamItem::Done(_) => stream::item_chunk(header, item) is None,
        },
{
}

/// One more item adds its chunk at the end.
pub proof fn law_chunks_of_one_more_item(header: Header, items: Seq<StreamItem>, item: StreamItem)
    ensures
        stream::item_chunks(header, Seq::empty()) == Seq::<Chunk>::empty(),
        stream::item_chunks(header, items.push(item)) == match stream::item_chunk(header, item) {
            Some(c) => stream::item_chunks(header, items).push(c),
            None => stream::item_chunks(header, items),
        },
{
    assert(items.push(item).drop_last() =~= items);
}

/// A chunk says what its fields hold.
pub proof fn law_what_a_chunk_holds(c: CliStreamChunk, i: int)
    ensures
        c@.id == c.id@,
        c@.object == c.object@,
        c@.created == c.created,
        c@.model == c.model@,
        c@.choices.len() == c.choices@.len(),
        0 <= i < c.choices@.len() ==> c@.choices[i] == c.choices@[i]@,
{
}

/// A choice says what its fields hold, and nothing of a field that is not there.
pub proof fn law_what_a_choice_holds(choice: CliStreamChoice)
    ensures
        choice@.index == choice.index,
        choice@.role is Some <==> choice.delta.role is Some,
        choice.delta.role matches Some(s) ==> choice@.role == Some(s@),
        choice@.content is Some <==> choice.delta.content is Some,
        choice.delta.content matches Some(s) ==> choice@.content == Some(s@),
        choice@.reasoning_content is Some <==> choice.delta.reasoning_content is Some,
        choice.delta.reasoning_content matches Some(s) ==> choice@.reasoning_content == Some(s@),
        choice@.finish_reason is Some <==> choice.finish_reason is Some,
        choice.finish_reason matches Some(s) ==> choice@.finish_reason == Some(s@),
{
}

/// An action says what it is, and an action that sends a chunk says which.
pub proof fn law_what_an_action_says(action: StreamAction, sender: StreamSender)
    ensures
        action@ is Send <==> action is Send,
        action matches StreamAction::Send(c) ==> action@ == Action::Send(c@),
        action@ is SendEnd <==> action is SendEnd,
        action@ is Read <==> action is Read,
        action@ is Wait <==> action is Wait,
        action@ is Abandon <==> action is Abandon,
        sender.header().id == sender.id@,
        sender.header().created == sender.created,
        sender.header().model == sender.model@,
{
}

// Streams, step by step.

/// Which events can happen in which phase.
pub proof fn law_events_of_a_phase(phase: StreamPhase, line: &str)
    ensures
        phase.allows(StreamEvent::Opened) <==> phase is Idle,
        phase.allows(StreamEvent::Line(line)) <==> phase is Reading,
        phase.allows(StreamEvent::EndOfOutput) <==> phase is Reading,
        phase.allows(StreamEvent::Sent) <==> !(phase is Idle || phase is Reading
            || phase is Closed),
        phase.allows(StreamEvent::Disconnected) <==> phase.allows(StreamEvent::Sent),
{
}

/// A stream begins with the first chunk.
pub proof fn law_a_stream_begins(state: StreamState, header: Header)
    ensures
        state.after(header, StreamEvent::Opened).0 == (StreamState {
            phase: StreamPhase::SendingRole,
            parser: state.parser,
        }),
        state.after(header, StreamEvent::Opened).1 == Action::Send(stream::role_chunk(header)),
{
}

/// As long as what is sent reaches the client, reading goes on: after the first chunk, and after
/// every piece, whatever was read so far.
pub proof fn law_reading_goes_on(state: StreamState, header: Header)
    requires
        state.phase is SendingRole || state.phase is SendingPiece,
    ensures
        state.after(header, StreamEvent::Sent).0 == (StreamState {
            phase: StreamPhase::Reading,
            parser: state.parser,
        }),
        state.after(header, StreamEvent::Sent).1 is Read,
{
}

/// The last chunk is handed out only at the end: when there is no more output, when a line reports
/// the output complete, or when a piece could not be sent. Then it is always handed out.
pub proof fn law_stop_only_at_the_end(state: StreamState, header: Header, event: StreamEvent)
    requires
        state.phase.allows(event),
    ensures
        ({
            let (next, action) = state.after(header, event);
            let at_end = match event {
                StreamEvent::EndOfOutput => true,
                StreamEvent::Line(line) => output::output_meaning(line@) is Done,
                StreamEvent::Disconnected => state.phase is SendingPiece,
                _ => false,
            };
            &&& next.phase is SendingStop <==> at_end
            &&& (action matches Action::Send(c) && c.choices[0].finish_reason is Some) <==> at_end
            &&& at_end ==> action == Action::Send(stream::stop_chunk(header))
        }),
{
}

/// What is sent of a line is what is passed on of it, as one chunk, and before the output is
/// reported complete nothing is sent but that. A line of which nothing is sent is followed by the
/// next.
pub proof fn law_a_line_of_a_stream(state: StreamState, header: Header, m: LineMeaning)
    requires
        state.phase is Reading,
    ensures
        ({
            let (next, action) = state.after_line(header, m);
            &&& next.parser == state.parser.after(m)
            &&& match state.parser.passed_on(m) {
                None => next.phase is Reading && action is Read,
                Some(StreamItem::ThinkingDone) => next.phase is Reading && action is Read,
                Some(StreamItem::Done(_)) => {
                    &&& next.phase is SendingStop
                    &&& action matches Action::Send(c)
                    &&& says_of(c, header, (Choice { finish_reason: Some("stop"@), ..silent() }))
                },
                Some(StreamItem::Thinking(s)) => {
                    &&& next.phase is SendingPiece
                    &&& action matches Action::Send(c)
                    &&& says_of(c, header, (Choice { reasoning_content: Some(s), ..silent() }))
                },
                Some(StreamItem::Content(s)) => {
                    &&& next.phase is SendingPiece
                    &&& action matches Action::Send(c)
                    &&& says_of(c, header, (Choice { content: Some(s), ..silent() }))
                },
                Some(StreamItem::File { path, content }) => {
                    &&& next.phase is SendingPiece
                    &&& action matches Action::Send(c)
                    &&& says_of(
                        c,
                        header,
                        (Choice {
                            content: Some(
                                "\n```\n// File: "@ + path + "\n"@ + content + "\n```\n"@,
                            ),
                            ..silent()
                        }),
                    )
                },
            }
        }),
{
}

/// A line of a stream is read as it would be for a whole answer, and only lines change what the
/// parser holds.
pub proof fn law_only_lines_are_read(
    state: StreamState,
    header: Header,
    event: StreamEvent,
    line: &str,
)
    ensures
        state.after(header, StreamEvent::Line(line)) == state.after_line(
            header,
            output::output_meaning(line@),
        ),
        !(event is Line) ==> state.after(header, event).0.parser == state.parser,
{
}

// Streams as a whole.

/// The chunks that are handed out from here on, where every one of them reaches the client and
/// the lines that are still to come say this.
pub open spec fn sent_from(
    header: Header,
    state: StreamState,
    action: Action,
    meanings: Seq<LineMeaning>,
    steps: nat,
) -> Seq<Chunk>
    decreases steps,
{
    if steps == 0 {
        Seq::empty()
    } else {
        match action {
            Action::Send(c) => {
                let (next, follow) = state.after(header, StreamEvent::Sent);
                seq![c] + sent_from(header, next, follow, meanings, (steps - 1) as nat)
            },
            Action::SendEnd => {
                let (next, follow) = state.after(header, StreamEvent::Sent);
                sent_from(header, next, follow, meanings, (steps - 1) as nat)
            },
            Action::Read => if meanings.len() == 0 {
                let (next, follow) = state.after(header, StreamEvent::EndOfOutput);
                sent_from(header, next, follow, meanings, (steps - 1) as nat)
            } else {
                let (next, follow) = state.after_line(header, meanings[0]);
                sent_from(header, next, follow, meanings.drop_first(), (steps - 1) as nat)
            },
            _ => Seq::empty(),
        }
    }
}

/// A stream whose client listens to the end hands out the first chunk, one chunk for every item
/// that is passed on of all the lines up to the end of the output, and the last chunk; nothing is
/// left out and nothing comes early, however many lines there are and whatever they say.
pub proof fn law_whole_stream(header: Header, meanings: Seq<LineMeaning>, steps: nat)
    requires
        steps >= 2 * meanings.len() + 5,
    ensures
        ({
            let idle = StreamState { phase: StreamPhase::Idle, parser: ParserState::initial() };
            let (first, action) = idle.after(header, StreamEvent::Opened);
            sent_from(header, first, action, meanings, steps) == seq![stream::role_chunk(header)]
                + stream::item_chunks(header, output::progress(meanings).items) + seq![
                stream::stop_chunk(header),
            ]
        }),
{
    let idle = StreamState { phase: StreamPhase::Idle, parser: ParserState::initial() };
    let (first, action) = idle.after(header, StreamEvent::Opened);
    let reading = StreamState { phase: StreamPhase::Reading, parser: ParserState::initial() };
    let none = Seq::<LineMeaning>::empty();
    law_a_stream_begins(idle, header);
    law_reading_goes_on(first, header);
    assert(none + meanings =~= meanings);
    assert(output::progress(none).items =~= Seq::empty());
    rest_of_a_stream(header, none, meanings, (steps - 1) as nat);
    let rest = sent_from(header, reading, Action::Read, meanings, (steps - 1) as nat);
    assert(stream::item_chunks(header, output::progress(none).items) + rest =~= rest);
    assert(sent_from(header, first, action, meanings, steps) =~= seq![stream::role_chunk(header)]
        + rest);
    assert(seq![stream::role_chunk(header)] + rest =~= seq![stream::role_chunk(header)]
        + stream::item_chunks(header, output::progress(meanings).items) + seq![
        stream::stop_chunk(header),
    ]);
}

proof fn last_chunk(header: Header, parser: ParserState, meanings: Seq<LineMeaning>, steps: nat)
    requires
        steps >= 3,
    ensures
        ({
            let stopping = StreamState { phase: StreamPhase::SendingStop, parser };
            sent_from(
                header,
                stopping,
                Action::Send(stream::stop_chunk(header)),
                meanings,
                steps,
            ) == seq![stream::stop_chunk(header)]
        }),
{
    reveal_with_fuel(sent_from, 4);
    let stopping = StreamState { phase: StreamPhase::SendingStop, parser };
    assert(sent_from(header, stopping, Action::Send(stream::stop_chunk(header)), meanings, steps)
        =~= seq![stream::stop_chunk(header)]);
}

proof fn rest_of_a_stream(
    header: Header,
    read: Seq<LineMeaning>,
    rest: Seq<LineMeaning>,
    steps: nat,
)
    requires
        !output::ended(output::progress(read).items),
        steps >= 2 * rest.len() + 4,
    ensures
        ({
            let now = output::progress(read);
            let reading = StreamState { phase: StreamPhase::Reading, parser: now.parser };
            stream::item_chunks(header, now.items) + sent_from(
                header,
                reading,
                Action::Read,
                rest,
                steps,
            ) == stream::item_chunks(header, output::progress(read + rest).items) + seq![
                stream::stop_chunk(header),
            ]
        }),
    decreases rest.len(),
{
    let now = output::progress(read);
    let reading = StreamState { phase: StreamPhase::Reading, parser: now.parser };
    let less = (steps - 1) as nat;
    if rest.len() == 0 {
        assert(read + rest =~= read);
        last_chunk(header, now.parser, rest, less);
    } else {
        let m = rest[0];
        let later = rest.drop_first();
        let next = output::progress(read.push(m));
        assert(read.push(m).drop_last() =~= read);
        assert(read.push(m) + later =~= read + rest);
        law_a_line_of_a_stream(reading, header, m);
        match now.parser.passed_on(m) {
            Some(item) => {
                law_chunks_of_one_more_item(header, now.items, item);
                if item is Done {
                    laws::law_nothing_counts_after_the_end(read.push(m), later);
                    last_chunk(header, next.parser, later, less);
                } else {
                    match stream::item_chunk(header, item) {
                        Some(c) => {
                            let sending = StreamState {
                                phase: StreamPhase::SendingPiece,
                                parser: next.parser,
                            };
                            law_reading_goes_on(sending, header);
                            rest_of_a_stream(header, read.push(m), later, (less - 1) as nat);
                            let after = StreamState {
                                phase: StreamPhase::Reading,
                                parser: next.parser,
                            };
                            let tail = sent_from(
                                header,
                                after,
                                Action::Read,
                                later,
                                (less - 1) as nat,
                            );
                            assert(sent_from(header, sending, Action::Send(c), later, less)
                                =~= seq![c] + tail);
                            assert(stream::item_chunks(header, now.items) + (seq![c] + tail)
                                =~= stream::item_chunks(header, now.items).push(c) + tail);
                        },
                        None => {
                            rest_of_a_stream(header, read.push(m), later, less);
                        },
                    }
                }
            },
            None => {
                rest_of_a_stream(header, read.push(m), later, less);
            },
        }
    }
}

// Whole answers.

/// A whole answer carries the number, the time and the model that it was asked for, and the
/// result unchanged: the answer, the reasoning where there is any, and the counts. What the prompt
/// and the answer cost is the total.
pub proof fn law_whole_answer(
    response: CliChatResponse,
    id: Seq<char>,
    created: u64,
    model: Seq<char>,
    result: CliSyncResult,
)
    requires
        response.answers(id, created, model, result),
    ensures
        response.id@ == id,
        response.object@ == "chat.completion"@,
        response.created == created,
        response.model@ == model,
        response.choices@.len() == 1,
        response.choices@[0].index == 0,
        response.choices@[0].message.role@ == "assistant"@,
        response.choices@[0].message.content@ == result.content@,
        response.choices@[0].message.reasoning_content == result.thinking,
        response.choices@[0].finish_reason@ == "stop"@,
        response.usage.prompt_tokens == result.usage.input_tokens,
        response.usage.completion_tokens == result.usage.output_tokens,
        response.usage.total_tokens == response.usage.prompt_tokens
            + response.usage.completion_tokens,
        reply::countable(result.usage),
{
}

/// What was read from or written to a cache makes no difference to what an answer cost.
pub proof fn law_cache_does_not_count(
    response: CliChatResponse,
    id: Seq<char>,
    created: u64,
    model: Seq<char>,
    a: CliSyncResult,
    b: CliSyncResult,
)
    requires
        response.answers(id, created, model, a),
        b.content == a.content,
        b.thinking == a.thinking,
        b.usage.input_tokens == a.usage.input_tokens,
        b.usage.output_tokens == a.usage.output_tokens,
    ensures
        response.answers(id, created, model, b),
{
}

/// The tokens can be counted exactly where those of the prompt and of the answer together fit in
/// 32 bits.
pub proof fn law_countable(usage: parser::CliUsageInfo)
    ensures
        reply::countable(usage) <==> usage.input_tokens + usage.output_tokens <= 0xffff_ffff,
{
}

/// An error reply says its words, that the backend failed, and no code.
pub proof fn law_what_an_error_says(response: CliErrorResponse, message: Seq<char>)
    ensures
        response.says(message) <==> {
            &&& response.error.message@ == message
            &&& response.error.kind@ == "cli_backend_error"@
            &&& response.error.code is None
        },
{
}

/// The fields of a head are names and values, each at its place.
pub proof fn law_fields(head: Seq<HeaderField>, i: int)
    requires
        0 <= i < head.len(),
    ensures
        reply::fields(head).len() == head.len(),
        reply::fields(head)[i].0 == head[i].name@,
        reply::fields(head)[i].1 == head[i].value@,
{
}

/// A frame is its data unchanged, after the word that says so and before an empty line.
pub proof fn law_frame(data: Seq<char>)
    ensures
        reply::event_frame(data) == "data: "@ + data + "\n\n"@,
        reply::event_frame(data).len() == data.len() + 8,
        reply::event_frame(data).subrange(6, 6int + data.len()) == data,
{
    reveal_strlit("data: ");
    reveal_strlit("\n\n");
    assert(reply::event_frame(data).subrange(6, 6int + data.len()) =~= data);
}

/// The number of an answer is `chatcmpl-cli-` and then a random UUID: 32 digits in base 16, in
/// lower case.
pub proof fn law_number_of_an_answer(s: Seq<char>, i: int)
    requires
        reply::completion_id_text(s),
    ensures
        s.len() == 45,
        s.take(13) == "chatcmpl-cli-"@,
        13 <= i < 45 ==> '0' <= s[i] <= '9' || 'a' <= s[i] <= 'f',
        s[25] == '4',
        s[29] == '8' || s[29] == '9' || s[29] == 'a' || s[29] == 'b',
{
    reveal_strlit("chatcmpl-cli-");
    let uuid = choose|uuid: Seq<char>| #[trigger]
        reply::random_uuid_text(uuid) && s == "chatcmpl-cli-"@ + uuid;
    assert(s.take(13) =~= "chatcmpl-cli-"@);
    if 13 <= i < 45 {
        assert(s[i] == uuid[i - 13]);
    }
}

} // verus!
