//! What a run of the agent passes on, line after line.
use vstd::prelude::*;
use vstd::string::*;
use crate::parser;
use crate::parser::{LineMeaning, ParserState, StreamItem};
use crate::text;

verus! {

/// What a line of output says, with the white space at its ends left away. A line of nothing
/// but white space says nothing.
pub open spec fn output_meaning(line: Seq<char>) -> LineMeaning {
    let line = text::trimmed(line);
    if line.len() == 0 {
        LineMeaning::Nothing
    } else {
        parser::line_meaning(line)
    }
}

/// Where a run stands: the parser, and what was passed on so far.
pub struct Progress {
    pub parser: ParserState,
    pub items: Seq<StreamItem>,
}

/// Whether the output was reported complete.
pub open spec fn ended(items: Seq<StreamItem>) -> bool {
    items.len() > 0 && items.last() is Done
}

impl Progress {
    /// Before the first line.
    pub open spec fn start() -> Progress {
        Progress { parser: ParserState::initial(), items: Seq::empty() }
    }

    /// After one more line that says this. Nothing counts once the output was reported complete.
    pub open spec fn with(self, m: LineMeaning) -> Progress {
        if ended(self.items) {
            self
        } else {
            Progress {
                parser: self.parser.after(m),
                items: match self.parser.passed_on(m) {
                    Some(item) => self.items.push(item),
                    None => self.items,
                },
            }
        }
    }
}

/// Where a run stands after lines that say this.
pub open spec fn progress(meanings: Seq<LineMeaning>) -> Progress
    decreases meanings.len(),
{
    if meanings.len() == 0 {
        Progress::start()
    } else {
        progress(meanings.drop_last()).with(meanings.last())
    }
}

/// What each of the lines says.
pub open spec fn meanings(lines: Seq<Seq<char>>) -> Seq<LineMeaning> {
    lines.map_values(|line: Seq<char>| output_meaning(line))
}

/// What a run passes on of these lines of output.
pub open spec fn passed_on(lines: Seq<Seq<char>>) -> Seq<StreamItem> {
    progress(meanings(lines)).items
}

/// A file in the answer: its path in a comment, then its content, between two fences.
pub open spec fn file_text(path: Seq<char>, content: Seq<char>) -> Seq<char> {
    "\n```\n// File: "@ + path + "\n"@ + content + "\n```\n"@
}

/// Writes a file into the answer.
pub fn file_block(path: &str, content: &str) -> (r: String)
    ensures
        r@ == file_text(path@, content@),
{
    let mut out = "\n```\n// File: ".to_owned();
    out.append(path);
    out.append("\n");
    out.append(content);
    out.append("\n```\n");
    out
}

/// What an item adds to the answer.
pub open spec fn answer_piece(item: StreamItem) -> Option<Seq<char>> {
    match item {
        StreamItem::Content(s) => Some(s),
        StreamItem::File { path, content } => Some(file_text(path, content)),
        _ => None,
    }
}

/// What an item adds to the reasoning.
pub open spec fn reasoning_piece(item: StreamItem) -> Option<Seq<char>> {
    match item {
        StreamItem::Thinking(s) => Some(s),
        _ => None,
    }
}

/// What the items add to the answer, in order.
pub open spec fn answer_pieces(items: Seq<StreamItem>) -> Seq<Seq<char>>
    decreases items.len(),
{
    if items.len() == 0 {
        Seq::empty()
    } else {
        match answer_piece(items.last()) {
            Some(s) => answer_pieces(items.drop_last()).push(s),
            None => answer_pieces(items.drop_last()),
        }
    }
}

/// What the items add to the reasoning, in order.
pub open spec fn reasoning_pieces(items: Seq<StreamItem>) -> Seq<Seq<char>>
    decreases items.len(),
{
    if items.len() == 0 {
        Seq::empty()
    } else {
        match reasoning_piece(items.last()) {
            Some(s) => reasoning_pieces(items.drop_last()).push(s),
            None => reasoning_pieces(items.drop_last()),
        }
    }
}

} // verus!
