//! One whole answer out of the agent's output.
use vstd::prelude::*;
use vstd::string::*;
use crate::output;
use crate::output::file_block;
use crate::parser::{CliUsageInfo, StreamItem, StreamParseResult, StreamParser};
use crate::text;
use crate::text::{concat_all, trim};

verus! {

/// One whole answer.
pub struct CliSyncResult {
    /// The answer, with the files that were written.
    pub content: String,
    /// The reasoning, where there was any.
    pub thinking: Option<String>,
    /// What the answer cost.
    pub usage: CliUsageInfo,
}

/// The pieces of an answer, as far as they have come.
pub struct AnswerParts {
    pub thinking_parts: Vec<String>,
    pub content_parts: Vec<String>,
    pub usage: CliUsageInfo,
}

/// What the pieces of an answer are.
pub struct Pieces {
    pub thinking: Seq<Seq<char>>,
    pub content: Seq<Seq<char>>,
    pub usage: CliUsageInfo,
}

impl Pieces {
    /// No pieces.
    pub open spec fn none() -> Pieces {
        Pieces { thinking: Seq::empty(), content: Seq::empty(), usage: CliUsageInfo::zero() }
    }

    /// The pieces with one more item.
    pub open spec fn with(self, item: StreamItem) -> Pieces {
        Pieces {
            thinking: match output::reasoning_piece(item) {
                Some(s) => self.thinking.push(s),
                None => self.thinking,
            },
            content: match output::answer_piece(item) {
                Some(s) => self.content.push(s),
                None => self.content,
            },
            usage: match item {
                StreamItem::Done(u) => u,
                _ => self.usage,
            },
        }
    }
}

/// The token counts among the items: those that the output ended with, else 0.
pub open spec fn final_usage(items: Seq<StreamItem>) -> CliUsageInfo {
    if output::ended(items) {
        items.last()->Done_0
    } else {
        CliUsageInfo::zero()
    }
}

impl View for AnswerParts {
    type V = Pieces;

    open spec fn view(&self) -> Pieces {
        Pieces {
            thinking: text::views(self.thinking_parts@),
            content: text::views(self.content_parts@),
            usage: self.usage,
        }
    }
}

impl AnswerParts {
    /// No pieces.
    pub fn new() -> (r: AnswerParts)
        ensures
            r@ == Pieces::none(),
    {
        let r = AnswerParts {
            thinking_parts: Vec::new(),
            content_parts: Vec::new(),
            usage: CliUsageInfo::default(),
        };
        assert(r@.thinking =~= Seq::empty());
        assert(r@.content =~= Seq::empty());
        r
    }

    /// Adds what was passed on of a line.
    pub fn take(&mut self, result: StreamParseResult)
        ensures
            final(self)@ == old(self)@.with(result@),
    {
        match result {
            StreamParseResult::ThinkingDelta(s) => {
                self.thinking_parts.push(s);
            },
            StreamParseResult::ContentDelta(s) => {
                self.content_parts.push(s);
            },
            StreamParseResult::FileContent { path, content } => {
                self.content_parts.push(file_block(path.as_str(), content.as_str()));
            },
            StreamParseResult::Done(u) => {
                self.usage = u;
            },
            StreamParseResult::ThinkingDone => {},
        }
        assert(self@.thinking =~= old(self)@.with(result@).thinking);
        assert(self@.content =~= old(self)@.with(result@).content);
    }

    /// The whole answer. Where no reasoning came, there is none, not an empty one.
    pub fn finish(self) -> (r: CliSyncResult)
        ensures
            r.content@ == text::concatenated(self@.content),
            match r.thinking {
                Some(s) => self@.thinking.len() > 0 && s@ == text::concatenated(self@.thinking),
                None => self@.thinking.len() == 0,
            },
            r.usage == self@.usage,
    {
        let thinking = if self.thinking_parts.len() == 0 {
            None
        } else {
            Some(concat_all(&self.thinking_parts))
        };
        CliSyncResult { content: concat_all(&self.content_parts), thinking, usage: self.usage }
    }
}

/// Reads the output of a run for one whole answer.
pub struct SyncCollector {
    parser: StreamParser,
    parts: AnswerParts,
    done: bool,
    lines: Ghost<Seq<Seq<char>>>,
}

impl SyncCollector {
    /// The lines read so far.
    pub closed spec fn lines(&self) -> Seq<Seq<char>> {
        self.lines@
    }

    /// What it holds is what the lines read so far give.
    pub closed spec fn wf(&self) -> bool {
        let progress = output::progress(output::meanings(self.lines@));
        &&& self.parser@ == progress.parser
        &&& self.done == output::ended(progress.items)
        &&& self.parts@ == Pieces {
            thinking: output::reasoning_pieces(progress.items),
            content: output::answer_pieces(progress.items),
            usage: final_usage(progress.items),
        }
    }

    /// Before the first line.
    pub fn new() -> (r: SyncCollector)
        ensures
            r.wf(),
            r.lines() == Seq::<Seq<char>>::empty(),
    {
        SyncCollector {
            parser: StreamParser::new(),
            parts: AnswerParts::new(),
            done: false,
            lines: Ghost(Seq::empty()),
        }
    }

    /// Reads one more line, and says whether to read on: not once the output was reported
    /// complete.
    pub fn push_line(&mut self, line: &str) -> (r: bool)
        requires
            old(self).wf(),
        ensures
            final(self).wf(),
            final(self).lines() == old(self).lines().push(line@),
            r == !output::ended(output::passed_on(final(self).lines())),
    {
        let ghost before = output::meanings(self.lines@);
        proof {
            self.lines@ = self.lines@.push(line@);
            assert(output::meanings(self.lines@).drop_last() =~= before);
            assert(output::meanings(self.lines@).last() == output::output_meaning(line@));
        }
        if self.done {
            return false;
        }
        let line = trim(line);
        if line.is_empty() {
            return true;
        }
        match self.parser.parse_line(line) {
            Some(result) => {
                let ghost items = output::progress(before).items;
                assert(items.push(result@).drop_last() =~= items);
                self.done = match &result {
                    StreamParseResult::Done(_) => true,
                    _ => false,
                };
                self.parts.take(result);
            },
            None => {},
        }
        !self.done
    }

    /// The whole answer.
    pub fn finish(self) -> (r: CliSyncResult)
        requires
            self.wf(),
        ensures
            r.content@ == text::concatenated(
                output::answer_pieces(output::passed_on(self.lines())),
            ),
            match r.thinking {
                Some(s) => {
                    &&& output::reasoning_pieces(output::passed_on(self.lines())).len() > 0
                    &&& s@ == text::concatenated(
                        output::reasoning_pieces(output::passed_on(self.lines())),
                    )
                },
                None => output::reasoning_pieces(output::passed_on(self.lines())).len() == 0,
            },
            r.usage == final_usage(output::passed_on(self.lines())),
    {
        self.parts.finish()
    }
}

} // verus!
