//! Chat requests, and the prompt that they become.
use vstd::prelude::*;
use vstd::string::*;
use crate::text;
use crate::text::same_text;

verus! {

/// A chat completion request.
pub struct CliChatRequest {
    pub model: Option<String>,
    pub messages: Vec<CliMessage>,
    pub stream: bool,
}

/// One message of a conversation.
pub struct CliMessage {
    pub role: String,
    pub content: CliContent,
}

/// What a message says: one text, or parts of several kinds.
pub enum CliContent {
    Text(String),
    Parts(Vec<CliContentPart>),
}

/// One part of a message. The wire name of `kind` is `type`.
pub struct CliContentPart {
    pub kind: Option<String>,
    pub text: Option<String>,
}

impl CliContentPart {
    /// What the part adds to its message: its text, where it is a text part that has one.
    pub open spec fn contribution(self) -> Option<Seq<char>> {
        match (self.kind, self.text) {
            (Some(kind), Some(text)) if kind@ == "text"@ => Some(text@),
            _ => None,
        }
    }
}

/// What the parts add to their message, in order.
pub open spec fn contributions(parts: Seq<CliContentPart>) -> Seq<Seq<char>>
    decreases parts.len(),
{
    if parts.len() == 0 {
        Seq::empty()
    } else {
        match parts.last().contribution() {
            Some(text) => contributions(parts.drop_last()).push(text),
            None => contributions(parts.drop_last()),
        }
    }
}

impl CliContent {
    /// The text of a message: the one text, or the text parts one after the other.
    pub open spec fn text(self) -> Seq<char> {
        match self {
            CliContent::Text(s) => s@,
            CliContent::Parts(parts) => text::concatenated(contributions(parts@)),
        }
    }

    /// The text of the message. Parts of another kind, and text parts without a text, add
    /// nothing to it.
    pub fn as_text(&self) -> (r: String)
        ensures
            r@ == self.text(),
    {
        match self {
            CliContent::Text(s) => s.clone(),
            CliContent::Parts(parts) => {
                let mut out = String::new();
                let mut i: usize = 0;
                assert(parts@.take(0) =~= Seq::empty());
                while i < parts.len()
                    invariant
                        i <= parts.len(),
                        out@ == text::concatenated(contributions(parts@.take(i as int))),
                    decreases parts.len() - i,
                {
                    let ghost done = parts@.take(i as int);
                    assert(parts@.take(i + 1).drop_last() =~= done);
                    assert(parts@.take(i + 1).last() == parts@[i as int]);
                    if let (Some(kind), Some(text)) = (&parts[i].kind, &parts[i].text) {
                        if same_text(kind.as_str(), "text") {
                            proof {
                                text::concatenated_push(contributions(done), text@);
                            }
                            out.append(text.as_str());
                        }
                    }
                    i += 1;
                }
                assert(parts@.take(i as int) =~= parts@);
                out
            },
        }
    }
}

impl CliMessage {
    /// The line that introduces a message in the prompt.
    pub open spec fn heading(self) -> Seq<char> {
        if self.role@ == "system"@ || self.role@ == "developer"@ {
            "[System]\n"@
        } else if self.role@ == "assistant"@ {
            "[Assistant]\n"@
        } else {
            "[User]\n"@
        }
    }

    /// What a message adds to the prompt.
    pub open spec fn block(self) -> Seq<char> {
        self.heading() + self.content.text()
    }
}

/// What each message adds to the prompt.
pub open spec fn blocks(messages: Seq<CliMessage>) -> Seq<Seq<char>> {
    messages.map_values(|message: CliMessage| message.block())
}

/// The prompt for a conversation: one block for each message, with an empty line between.
pub open spec fn prompt(messages: Seq<CliMessage>) -> Seq<char> {
    text::joined(blocks(messages), "\n\n"@)
}

/// Writes a conversation as one prompt.
pub fn build_prompt(messages: &[CliMessage]) -> (r: String)
    ensures
        r@ == prompt(messages@),
{
    let mut out = String::new();
    let mut i: usize = 0;
    while i < messages.len()
        invariant
            i <= messages.len(),
            out@ == prompt(messages@.take(i as int)),
        decreases messages.len() - i,
    {
        let ghost done = blocks(messages@.take(i as int));
        let ghost next = blocks(messages@.take(i + 1));
        assert(next.drop_last() =~= done);
        assert(next.last() == messages@[i as int].block());
        let ghost before = out@;
        if i > 0 {
            out.append("\n\n");
        }
        let role = messages[i].role.as_str();
        if same_text(role, "system") || same_text(role, "developer") {
            out.append("[System]\n");
        } else if same_text(role, "assistant") {
            out.append("[Assistant]\n");
        } else {
            out.append("[User]\n");
        }
        let text = messages[i].content.as_text();
        out.append(text.as_str());
        assert(out@ =~= text::joined(next, "\n\n"@));
        i += 1;
    }
    assert(messages@.take(i as int) =~= messages@);
    out
}

} // verus!
