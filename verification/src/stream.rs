//! An answer sent piece by piece.
use vstd::prelude::*;
use vstd::string::*;
use crate::output;
use crate::output::file_block;
use crate::parser;
use crate::parser::{LineMeaning, ParserState, StreamItem, StreamParseResult, StreamParser};
use crate::text::trim;

verus! {

/// One piece of an answer, as it is sent.
pub struct CliStreamChunk {
    pub id: String,
    pub object: &'static str,
    pub created: u64,
    pub model: String,
    pub choices: Vec<CliStreamChoice>,
}

/// What a chunk says of one of the answers. There is only one, at index 0.
pub struct CliStreamChoice {
    pub index: u32,
    pub delta: CliStreamDelta,
    pub finish_reason: Option<&'static str>,
}

/// What a chunk adds to an answer.
pub struct CliStreamDelta {
    pub role: Option<&'static str>,
    pub content: Option<String>,
    /// A piece of the reasoning.
    pub reasoning_content: Option<String>,
}

/// What a [`CliStreamChunk`] says.
#[verifier::ext_equal]
pub struct Chunk {
    pub id: Seq<char>,
    pub object: Seq<char>,
    pub created: u64,
    pub model: Seq<char>,
    pub choices: Seq<Choice>,
}

/// What a [`CliStreamChoice`] says.
#[verifier::ext_equal]
pub struct Choice {
    pub index: u32,
    pub role: Option<Seq<char>>,
    pub content: Option<Seq<char>>,
    pub reasoning_content: Option<Seq<char>>,
    pub finish_reason: Option<Seq<char>>,
}

/// The characters of a fixed text that may not be there.
pub open spec fn fixed_text(s: Option<&'static str>) -> Option<Seq<char>> {
    match s {
        Some(s) => Some(s@),
        None => None,
    }
}

/// The characters of a text that may not be there.
pub open spec fn owned_text(s: Option<String>) -> Option<Seq<char>> {
    match s {
        Some(s) => Some(s@),
        None => None,
    }
}

impl View for CliStreamChoice {
    type V = Choice;

    open spec fn view(&self) -> Choice {
        Choice {
            index: self.index,
            role: fixed_text(self.delta.role),
            content: owned_text(self.delta.content),
            reasoning_content: owned_text(self.delta.reasoning_content),
            finish_reason: fixed_text(self.finish_reason),
        }
    }
}

impl View for CliStreamChunk {
    type V = Chunk;

    open spec fn view(&self) -> Chunk {
        Chunk {
            id: self.id@,
            object: self.object@,
            created: self.created,
            model: self.model@,
            choices: self.choices@.map_values(|choice: CliStreamChoice| choice@),
        }
    }
}

/// What the chunks of one answer have in common.
pub struct Header {
    pub id: Seq<char>,
    pub created: u64,
    pub model: Seq<char>,
}

/// The chunk that says this of the one answer.
pub open spec fn chunk(
    header: Header,
    role: Option<Seq<char>>,
    content: Option<Seq<char>>,
    reasoning_content: Option<Seq<char>>,
    finish_reason: Option<Seq<char>>,
) -> Chunk {
    Chunk {
        id: header.id,
        object: "chat.completion.chunk"@,
        created: header.created,
        model: header.model,
        choices: seq![Choice { index: 0, role, content, reasoning_content, finish_reason }],
    }
}

/// The first chunk: who speaks.
pub open spec fn role_chunk(header: Header) -> Chunk {
    chunk(header, Some("assistant"@), None, None, None)
}

/// A chunk with a piece of the answer.
pub open spec fn content_chunk(header: Header, s: Seq<char>) -> Chunk {
    chunk(header, None, Some(s), None, None)
}

/// A chunk with a piece of the reasoning.
pub open spec fn reasoning_chunk(header: Header, s: Seq<char>) -> Chunk {
    chunk(header, None, None, Some(s), None)
}

/// The last chunk: the answer is complete.
pub open spec fn stop_chunk(header: Header) -> Chunk {
    chunk(header, None, None, None, Some("stop"@))
}

/// The chunk that an item is sent as, where it is sent.
pub open spec fn item_chunk(header: Header, item: StreamItem) -> Option<Chunk> {
    match item {
        StreamItem::Thinking(s) => Some(reasoning_chunk(header, s)),
        StreamItem::Content(s) => Some(content_chunk(header, s)),
        StreamItem::File { path, content } => Some(
            content_chunk(header, output::file_text(path, content)),
        ),
        StreamItem::ThinkingDone => None,
        StreamItem::Done(_) => None,
    }
}

/// The chunks that the items are sent as, in order.
pub open spec fn item_chunks(header: Header, items: Seq<StreamItem>) -> Seq<Chunk>
    decreases items.len(),
{
    if items.len() == 0 {
        Seq::empty()
    } else {
        match item_chunk(header, items.last()) {
            Some(c) => item_chunks(header, items.drop_last()).push(c),
            None => item_chunks(header, items.drop_last()),
        }
    }
}

/// Where the sending of an answer stands.
#[derive(Debug, Clone, Copy, PartialEq, Eq, Structural)]
pub enum StreamPhase {
    /// Nothing was sent.
    Idle,
    /// The first chunk is on its way.
    SendingRole,
    /// The agent's output is being read.
    Reading,
    /// A piece of the answer or the reasoning is on its way.
    SendingPiece,
    /// The last chunk is on its way.
    SendingStop,
    /// The end mark is on its way.
    SendingEnd,
    /// All is done.
    Closed,
}

/// What happens to a stream.
pub enum StreamEvent<'a> {
    /// The agent runs, and its output can be read.
    Opened,
    /// What was to be sent is sent.
    Sent,
    /// What was to be sent could not be: the client is gone.
    Disconnected,
    /// A line of the agent's output.
    Line(&'a str),
    /// There is no more output, or it cannot be read.
    EndOfOutput,
}

/// What is to be done for a stream.
pub enum StreamAction {
    /// Send a chunk, in a frame of its own.
    Send(CliStreamChunk),
    /// Send the end mark.
    SendEnd,
    /// Read a line of the agent's output.
    Read,
    /// Wait until the agent has exited; then there is nothing more to do.
    Wait,
    /// There is nothing more to do, though the agent may still run.
    Abandon,
}

/// What a [`StreamAction`] says.
pub enum Action {
    Send(Chunk),
    SendEnd,
    Read,
    Wait,
    Abandon,
}

impl View for StreamAction {
    type V = Action;

    open spec fn view(&self) -> Action {
        match self {
            StreamAction::Send(c) => Action::Send(c@),
            StreamAction::SendEnd => Action::SendEnd,
            StreamAction::Read => Action::Read,
            StreamAction::Wait => Action::Wait,
            StreamAction::Abandon => Action::Abandon,
        }
    }
}

impl StreamPhase {
    /// Whether an event can happen in this phase.
    pub open spec fn allows(self, event: StreamEvent) -> bool {
        match event {
            StreamEvent::Opened => self is Idle,
            StreamEvent::Line(_) | StreamEvent::EndOfOutput => self is Reading,
            StreamEvent::Sent | StreamEvent::Disconnected => {
                self is SendingRole || self is SendingPiece || self is SendingStop
                    || self is SendingEnd
            },
        }
    }
}

impl StreamPhase {
    /// The phase and the action after a line, of which this is passed on.
    pub open spec fn after_item(self, header: Header, item: Option<StreamItem>) -> (
        StreamPhase,
        Action,
    ) {
        match item {
            Some(StreamItem::Done(_)) => (
                StreamPhase::SendingStop,
                Action::Send(stop_chunk(header)),
            ),
            Some(item) => match item_chunk(header, item) {
                Some(c) => (StreamPhase::SendingPiece, Action::Send(c)),
                None => (self, Action::Read),
            },
            None => (self, Action::Read),
        }
    }

    /// The phase and the action after something was to be sent.
    pub open spec fn after_sending(self, header: Header, sent: bool) -> (StreamPhase, Action) {
        match self {
            StreamPhase::SendingRole if !sent => (StreamPhase::Closed, Action::Abandon),
            StreamPhase::SendingPiece if !sent => (
                StreamPhase::SendingStop,
                Action::Send(stop_chunk(header)),
            ),
            StreamPhase::SendingStop => (StreamPhase::SendingEnd, Action::SendEnd),
            StreamPhase::SendingEnd => (StreamPhase::Closed, Action::Wait),
            _ => (StreamPhase::Reading, Action::Read),
        }
    }
}

/// Where a stream stands.
pub struct StreamState {
    pub phase: StreamPhase,
    pub parser: ParserState,
}

impl StreamState {
    /// The state and the action after a line that says this.
    pub open spec fn after_line(self, header: Header, m: LineMeaning) -> (StreamState, Action) {
        let (phase, action) = self.phase.after_item(header, self.parser.passed_on(m));
        (StreamState { phase, parser: self.parser.after(m) }, action)
    }

    /// The state and the action after an event.
    pub open spec fn after(self, header: Header, event: StreamEvent) -> (StreamState, Action) {
        match event {
            StreamEvent::Opened => (
                StreamState { phase: StreamPhase::SendingRole, ..self },
                Action::Send(role_chunk(header)),
            ),
            StreamEvent::Line(line) => self.after_line(header, output::output_meaning(line@)),
            StreamEvent::EndOfOutput => (
                StreamState { phase: StreamPhase::SendingStop, ..self },
                Action::Send(stop_chunk(header)),
            ),
            StreamEvent::Sent => {
                let (phase, action) = self.phase.after_sending(header, true);
                (StreamState { phase, ..self }, action)
            },
            StreamEvent::Disconnected => {
                let (phase, action) = self.phase.after_sending(header, false);
                (StreamState { phase, ..self }, action)
            },
        }
    }
}

/// Decides what to send of an answer, and when.
pub struct StreamSender {
    pub id: String,
    pub created: u64,
    pub model: String,
    pub phase: StreamPhase,
}

impl StreamSender {
    /// What the chunks of the answer have in common.
    pub open spec fn header(&self) -> Header {
        Header { id: self.id@, created: self.created, model: self.model@ }
    }

    /// A sender that has sent nothing.
    pub fn new(id: String, created: u64, model: String) -> (r: StreamSender)
        ensures
            r.header() == (Header { id: id@, created, model: model@ }),
            r.phase is Idle,
    {
        StreamSender { id, created, model, phase: StreamPhase::Idle }
    }

    /// A chunk of this answer.
    fn chunk(
        &self,
        role: Option<&'static str>,
        content: Option<String>,
        reasoning_content: Option<String>,
        finish_reason: Option<&'static str>,
    ) -> (r: CliStreamChunk)
        ensures
            r@ == chunk(
                self.header(),
                fixed_text(role),
                owned_text(content),
                owned_text(reasoning_content),
                fixed_text(finish_reason),
            ),
    {
        let mut choices: Vec<CliStreamChoice> = Vec::new();
        choices.push(
            CliStreamChoice {
                index: 0,
                delta: CliStreamDelta { role, content, reasoning_content },
                finish_reason,
            },
        );
        let r = CliStreamChunk {
            id: self.id.clone(),
            object: "chat.completion.chunk",
            created: self.created,
            model: self.model.clone(),
            choices,
        };
        assert(r@.choices =~= chunk(
            self.header(),
            fixed_text(role),
            owned_text(content),
            owned_text(reasoning_content),
            fixed_text(finish_reason),
        ).choices);
        r
    }

    /// The chunk that is sent of a result, where one is sent.
    pub fn result_chunk(&self, result: StreamParseResult) -> (r: Option<CliStreamChunk>)
        ensures
            match r {
                Some(c) => item_chunk(self.header(), result@) == Some(c@),
                None => item_chunk(self.header(), result@) is None,
            },
    {
        match result {
            StreamParseResult::ThinkingDelta(s) => Some(self.chunk(None, None, Some(s), None)),
            StreamParseResult::ContentDelta(s) => Some(self.chunk(None, Some(s), None, None)),
            StreamParseResult::FileContent { path, content } => {
                let s = file_block(path.as_str(), content.as_str());
                Some(self.chunk(None, Some(s), None, None))
            },
            StreamParseResult::ThinkingDone => None,
            StreamParseResult::Done(_) => None,
        }
    }

    /// Hands out the first chunk.
    pub fn start(&mut self) -> (r: StreamAction)
        requires
            old(self).phase is Idle,
        ensures
            final(self).header() == old(self).header(),
            final(self).phase is SendingRole,
            r@ == Action::Send(role_chunk(old(self).header())),
    {
        self.phase = StreamPhase::SendingRole;
        StreamAction::Send(self.chunk(Some("assistant"), None, None, None))
    }

    /// Hands out the last chunk.
    pub fn stop(&mut self) -> (r: StreamAction)
        requires
            old(self).phase is Reading || old(self).phase is SendingPiece,
        ensures
            final(self).header() == old(self).header(),
            final(self).phase is SendingStop,
            r@ == Action::Send(stop_chunk(old(self).header())),
    {
        self.phase = StreamPhase::SendingStop;
        StreamAction::Send(self.chunk(None, None, None, Some("stop")))
    }

    /// What to do after a line, of which this is passed on.
    pub fn act_on(&mut self, result: Option<StreamParseResult>) -> (r: StreamAction)
        requires
            old(self).phase is Reading,
        ensures
            final(self).header() == old(self).header(),
            (final(self).phase, r@) == old(self).phase.after_item(
                old(self).header(),
                parser::item(result),
            ),
    {
        match result {
            Some(StreamParseResult::Done(_)) => self.stop(),
            Some(result) => match self.result_chunk(result) {
                Some(c) => {
                    self.phase = StreamPhase::SendingPiece;
                    StreamAction::Send(c)
                },
                None => StreamAction::Read,
            },
            None => StreamAction::Read,
        }
    }

    /// What to do after something was to be sent, and was or was not.
    pub fn after_sending(&mut self, sent: bool) -> (r: StreamAction)
        requires
            old(self).phase.allows(StreamEvent::Sent),
        ensures
            final(self).header() == old(self).header(),
            (final(self).phase, r@) == old(self).phase.after_sending(old(self).header(), sent),
    {
        match self.phase {
            StreamPhase::SendingRole if !sent => {
                self.phase = StreamPhase::Closed;
                StreamAction::Abandon
            },
            StreamPhase::SendingPiece if !sent => self.stop(),
            StreamPhase::SendingStop => {
                self.phase = StreamPhase::SendingEnd;
                StreamAction::SendEnd
            },
            StreamPhase::SendingEnd => {
                self.phase = StreamPhase::Closed;
                StreamAction::Wait
            },
            _ => {
                self.phase = StreamPhase::Reading;
                StreamAction::Read
            },
        }
    }
}

/// Sends one answer piece by piece.
pub struct StreamSession {
    sender: StreamSender,
    parser: StreamParser,
    lines: Ghost<Seq<Seq<char>>>,
    sent: Ghost<Seq<Chunk>>,
}

impl StreamSession {
    /// What the chunks of the answer have in common.
    pub closed spec fn header(&self) -> Header {
        self.sender.header()
    }

    /// Where the stream stands.
    pub closed spec fn state(&self) -> StreamState {
        StreamState { phase: self.sender.phase, parser: self.parser@ }
    }

    /// The lines read so far.
    pub closed spec fn lines(&self) -> Seq<Seq<char>> {
        self.lines@
    }

    /// The chunks handed out to be sent so far.
    pub closed spec fn sent(&self) -> Seq<Chunk> {
        self.sent@
    }

    /// The parser has read the lines. Until it is over, a stream reads no further than to the
    /// line that reports the output complete. The chunks handed out are the first one, one for
    /// each item that is sent at all, and the last one, as far as the stream has come.
    pub open spec fn wf(&self) -> bool {
        let progress = output::progress(output::meanings(self.lines()));
        let pieces = seq![role_chunk(self.header())] + item_chunks(self.header(), progress.items);
        &&& self.state().parser == progress.parser
        &&& match self.state().phase {
            StreamPhase::Idle => self.lines().len() == 0 && self.sent().len() == 0,
            StreamPhase::SendingRole => self.lines().len() == 0 && self.sent() == pieces,
            StreamPhase::Reading | StreamPhase::SendingPiece => {
                !output::ended(progress.items) && self.sent() == pieces
            },
            StreamPhase::SendingStop | StreamPhase::SendingEnd => {
                self.sent() == pieces.push(stop_chunk(self.header()))
            },
            StreamPhase::Closed => {
                ||| self.sent() == pieces.push(stop_chunk(self.header()))
                ||| self.lines().len() == 0 && self.sent() == pieces
            },
        }
    }

    /// A stream of which nothing was sent.
    pub fn new(id: String, created: u64, model: String) -> (r: StreamSession)
        ensures
            r.wf(),
            r.header() == (Header { id: id@, created, model: model@ }),
            r.state() == (StreamState {
                phase: StreamPhase::Idle,
                parser: ParserState::initial(),
            }),
            r.lines() == Seq::<Seq<char>>::empty(),
            r.sent() == Seq::<Chunk>::empty(),
    {
        StreamSession {
            sender: StreamSender::new(id, created, model),
            parser: StreamParser::new(),
            lines: Ghost(Seq::empty()),
            sent: Ghost(Seq::empty()),
        }
    }

    /// Whether an event can happen now.
    pub fn allows(&self, event: &StreamEvent) -> (r: bool)
        ensures
            r == self.state().phase.allows(*event),
    {
        let phase = self.sender.phase;
        match event {
            StreamEvent::Opened => phase == StreamPhase::Idle,
            StreamEvent::Line(_) | StreamEvent::EndOfOutput => phase == StreamPhase::Reading,
            StreamEvent::Sent | StreamEvent::Disconnected => {
                phase == StreamPhase::SendingRole || phase == StreamPhase::SendingPiece || phase
                    == StreamPhase::SendingStop || phase == StreamPhase::SendingEnd
            },
        }
    }

    /// Reads a line.
    fn line(&mut self, line: &str) -> (r: StreamAction)
        requires
            old(self).wf(),
            old(self).state().phase is Reading,
        ensures
            final(self).wf(),
            final(self).header() == old(self).header(),
            final(self).lines() == old(self).lines().push(line@),
            (final(self).state(), r@) == old(self).state().after_line(
                old(self).header(),
                output::output_meaning(line@),
            ),
            final(self).sent() == match r@ {
                Action::Send(c) => old(self).sent().push(c),
                _ => old(self).sent(),
            },
    {
        let ghost before = output::meanings(self.lines@);
        let ghost items = output::progress(before).items;
        let ghost header = self.header();
        proof {
            self.lines@ = self.lines@.push(line@);
            assert(output::meanings(self.lines@).drop_last() =~= before);
            assert(output::meanings(self.lines@).last() == output::output_meaning(line@));
        }
        let line = trim(line);
        if line.is_empty() {
            return StreamAction::Read;
        }
        let result = self.parser.parse_line(line);
        let ghost item = parser::item(result);
        let action = self.sender.act_on(result);
        proof {
            if let Action::Send(c) = action@ {
                self.sent@ = self.sent@.push(c);
                assert(seq![role_chunk(header)] + item_chunks(header, items).push(c) =~= (
                seq![role_chunk(header)] + item_chunks(header, items)).push(c));
            }
            if let Some(item) = item {
                assert(items.push(item).drop_last() =~= items);
            }
        }
        action
    }

    /// What to do next, after an event.
    pub fn next(&mut self, event: StreamEvent) -> (r: StreamAction)
        requires
            old(self).wf(),
            old(self).state().phase.allows(event),
        ensures
            final(self).wf(),
            final(self).header() == old(self).header(),
            (final(self).state(), r@) == old(self).state().after(old(self).header(), event),
            event is Sent && (old(self).state().phase is SendingRole
                || old(self).state().phase is SendingPiece) ==> {
                &&& r@ is Read
                &&& final(self).state().phase is Reading
            },
            final(self).lines() == match event {
                StreamEvent::Line(line) => old(self).lines().push(line@),
                _ => old(self).lines(),
            },
            final(self).sent() == match r@ {
                Action::Send(c) => old(self).sent().push(c),
                _ => old(self).sent(),
            },
    {
        if let StreamEvent::Line(line) = event {
            return self.line(line);
        }
        let action = match event {
            StreamEvent::Opened => self.sender.start(),
            StreamEvent::Sent => self.sender.after_sending(true),
            StreamEvent::Disconnected => self.sender.after_sending(false),
            _ => self.sender.stop(),
        };
        proof {
            if let Action::Send(c) = action@ {
                self.sent@ = self.sent@.push(c);
            }
            if event is Opened {
                assert(self.sent@ =~= seq![role_chunk(self.header())] + item_chunks(
                    self.header(),
                    Seq::empty(),
                ));
            }
        }
        action
    }
}

} // verus!
