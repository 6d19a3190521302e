//! What holds of requests, prompts, commands and settings.
use vstd::prelude::*;
use crate::agent;
use crate::agent::AgentError;
use crate::config;
use crate::config::CliConfig;
use crate::message;
use crate::message::{CliChatRequest, CliContent, CliContentPart, CliMessage};
use crate::platform;
use crate::platform::{Platform, PlatformType};
use crate::reply;
use crate::reply::{ChatPlan, Plan};
use crate::text;

verus! {

// Text.

/// The length of a text in bytes: none for no text, from one to four for one character, by the
/// size of its code point, and for two texts one after the other the two lengths together.
pub proof fn law_bytes_of_text(a: Seq<char>, b: Seq<char>, c: char)
    ensures
        text::utf8_len(Seq::empty()) == 0,
        0 <= c as int <= 0x7f ==> text::utf8_len(seq![c]) == 1,
        0x80 <= c as int <= 0x7ff ==> text::utf8_len(seq![c]) == 2,
        0x800 <= c as int <= 0xffff ==> text::utf8_len(seq![c]) == 3,
        0x10000 <= c as int ==> text::utf8_len(seq![c]) == 4,
        text::utf8_len(a + b) == text::utf8_len(a) + text::utf8_len(b),
    decreases a.len(),
{
    assert(seq![c].drop_first() =~= Seq::empty());
    reveal_with_fuel(vstd::utf8::encode_utf8, 2);
    if a.len() == 0 {
        assert(a + b =~= b);
    } else {
        assert((a + b).drop_first() =~= a.drop_first() + b);
        law_bytes_of_text(a.drop_first(), b, c);
        assert((a + b)[0] == a[0]);
    }
}

/// Joining: no parts make no text, one part makes just itself, and one more part comes after the
/// separator.
pub proof fn law_joining(parts: Seq<Seq<char>>, part: Seq<char>, sep: Seq<char>)
    ensures
        text::joined(Seq::empty(), sep) == Seq::<char>::empty(),
        text::joined(seq![part], sep) == part,
        parts.len() > 0 ==> text::joined(parts.push(part), sep) == text::joined(parts, sep) + sep
            + part,
{
    assert(parts.push(part).drop_last() =~= parts);
    assert(text::joined(parts, sep) + (sep + part) =~= text::joined(parts, sep) + sep + part);
}

/// Putting parts together: no parts make no text, and one more part comes right after the others.
pub proof fn law_putting_together(parts: Seq<Seq<char>>, part: Seq<char>)
    ensures
        text::concatenated(Seq::empty()) == Seq::<char>::empty(),
        text::concatenated(seq![part]) == part,
        text::concatenated(parts.push(part)) == text::concatenated(parts) + part,
{
    text::concatenated_push(parts, part);
}

/// White space among the characters of ASCII is the space and the five controls from the tab to
/// the carriage return; beyond ASCII it is these, by code point.
pub proof fn law_white_space(c: char)
    ensures
        ({
            let n = c as int;
            text::white_space(c) <==> if n < 0x80 {
                n == 0x20 || 9 <= n <= 13
            } else {
                n == 0x85 || n == 0xa0 || n == 0x1680 || 0x2000 <= n <= 0x200a || n == 0x2028 || n
                    == 0x2029 || n == 0x202f || n == 0x205f || n == 0x3000
            }
        }),
{
}

/// Strings are taken for the characters that they hold, each at its place.
pub proof fn law_strings_as_texts(parts: Seq<String>, i: int)
    requires
        0 <= i < parts.len(),
    ensures
        text::views(parts).len() == parts.len(),
        text::views(parts)[i] == parts[i]@,
{
}

// Messages.

/// A plain text is the text of its message.
pub proof fn law_plain_text(s: String)
    ensures
        CliContent::Text(s).text() == s@,
{
}

/// No parts say nothing. One more part adds its text at the end, where it is of the kind `text`
/// and has one, and nothing otherwise.
pub proof fn law_text_of_parts(
    parts: Vec<CliContentPart>,
    part: CliContentPart,
    more: Vec<CliContentPart>,
)
    requires
        more@ == parts@.push(part),
    ensures
        parts@.len() == 0 ==> CliContent::Parts(parts).text() == Seq::<char>::empty(),
        match (part.kind, part.text) {
            (Some(kind), Some(s)) if kind@ == "text"@ => CliContent::Parts(more).text()
                == CliContent::Parts(parts).text() + s@,
            _ => CliContent::Parts(more).text() == CliContent::Parts(parts).text(),
        },
{
    assert(more@.drop_last() =~= parts@);
    assert(more@.last() == part);
    if let (Some(kind), Some(s)) = (part.kind, part.text) {
        text::concatenated_push(message::contributions(parts@), s@);
    }
}

/// The prompt for no messages is empty. The prompt for one message is the heading for its role
/// and then its text, whether that is plain or in parts: `system` and `developer` have the same
/// heading, `assistant` has its own, and every other role is headed as a user.
pub proof fn law_prompt_of_one_message(message: CliMessage)
    ensures
        message::prompt(Seq::empty()) == Seq::<char>::empty(),
        message::prompt(seq![message]) == (if message.role@ == "system"@ || message.role@
            == "developer"@ {
            "[System]\n"@
        } else if message.role@ == "assistant"@ {
            "[Assistant]\n"@
        } else {
            "[User]\n"@
        }) + match message.content {
            CliContent::Text(s) => s@,
            CliContent::Parts(parts) => CliContent::Parts(parts).text(),
        },
{
    assert(message::blocks(Seq::empty()) =~= Seq::empty());
    assert(message::blocks(seq![message]) =~= seq![message.block()]);
}

/// Two messages of the same role that say the same have the same prompt, though one says it as a
/// plain text and the other in parts.
pub proof fn law_same_text_same_prompt(a: CliMessage, b: CliMessage)
    requires
        a.role@ == b.role@,
        a.content.text() == b.content.text(),
    ensures
        message::prompt(seq![a]) == message::prompt(seq![b]),
{
    law_prompt_of_one_message(a);
    law_prompt_of_one_message(b);
}

/// A message of one text part has the same prompt as one of just that text.
pub proof fn law_single_part_same_prompt(
    a: CliMessage,
    b: CliMessage,
    parts: Vec<CliContentPart>,
    kind: String,
    s: String,
)
    requires
        a.role@ == b.role@,
        a.content == CliContent::Text(s),
        b.content == CliContent::Parts(parts),
        parts@ == seq![CliContentPart { kind: Some(kind), text: Some(s) }],
        kind@ == "text"@,
    ensures
        message::prompt(seq![a]) == message::prompt(seq![b]),
        exists|heading: Seq<char>| message::prompt(seq![b]) == #[trigger] (heading + s@),
{
    let part = CliContentPart { kind: Some(kind), text: Some(s) };
    assert(parts@.drop_last() =~= Seq::empty());
    assert(parts@.last() == part);
    assert(message::contributions(parts@.drop_last()) =~= Seq::empty());
    assert(message::contributions(parts@) =~= seq![s@]);
    law_prompt_of_one_message(a);
    law_prompt_of_one_message(b);
    assert(message::prompt(seq![b]) == a.heading() + s@);
}

/// One more message adds its own prompt at the end, after an empty line, and leaves all that
/// stands before it as it was.
pub proof fn law_prompt_of_one_more(messages: Seq<CliMessage>, message: CliMessage)
    requires
        messages.len() > 0,
    ensures
        message::prompt(messages.push(message)) == message::prompt(messages) + "\n\n"@
            + message::prompt(seq![message]),
{
    let all = message::blocks(messages.push(message));
    assert(all.drop_last() =~= message::blocks(messages));
    assert(message::blocks(seq![message]) =~= seq![message.block()]);
    assert(message::prompt(messages.push(message)) =~= message::prompt(messages) + "\n\n"@
        + message::prompt(seq![message]));
}

// Plans.

/// The model and the prompt that a plan runs the agent with.
pub open spec fn run_of(plan: Plan) -> Option<(Seq<char>, Seq<char>)> {
    match plan {
        Plan::Refuse { .. } => None,
        Plan::Stream { model, prompt } => Some((model, prompt)),
        Plan::Sync { model, prompt } => Some((model, prompt)),
    }
}

/// Every request that is not refused is run with the model that it names, with `auto` only where
/// it names none, and with the prompt for its messages.
pub proof fn law_requested_model_is_run(config: CliConfig, request: CliChatRequest)
    requires
        config.enabled,
    ensures
        run_of(reply::plan(config, request)) is Some,
        request.model is None ==> run_of(reply::plan(config, request))->Some_0.0 == "auto"@,
        request.model matches Some(model) ==> run_of(reply::plan(config, request))->Some_0.0
            == model@,
        run_of(reply::plan(config, request))->Some_0.1 == message::prompt(request.messages@),
{
}

/// The model and the prompt do not depend on whether an answer is asked for piece by piece, nor on
/// any other setting than the one that turns the backend on.
pub proof fn law_run_does_not_depend_on_stream(
    a: CliConfig,
    b: CliConfig,
    one: CliChatRequest,
    other: CliChatRequest,
)
    requires
        a.enabled == b.enabled,
        one.model == other.model,
        one.messages@ == other.messages@,
    ensures
        run_of(reply::plan(a, one)) == run_of(reply::plan(b, other)),
        one.stream == other.stream ==> reply::plan(a, one) == reply::plan(b, other),
{
}

/// A refusal names the setting that turns the backend on, whatever was asked.
pub proof fn law_words_of_refusal(config: CliConfig, request: CliChatRequest)
    requires
        !config.enabled,
    ensures
        reply::plan(config, request) == (Plan::Refuse {
            status: 503,
            message: "CLI backend is not enabled. Set CLI_BACKEND_ENABLED=true"@,
        }),
{
}

/// A plan says what it holds.
pub proof fn law_what_a_plan_says(plan: ChatPlan)
    ensures
        match plan {
            ChatPlan::Stream { model, prompt } => {
                &&& plan@ is Stream
                &&& run_of(plan@) == Some((model@, prompt@))
            },
            ChatPlan::Sync { model, prompt } => {
                &&& plan@ is Sync
                &&& run_of(plan@) == Some((model@, prompt@))
            },
            ChatPlan::Refuse { status, message } => {
                plan@ == (Plan::Refuse { status, message: message@ })
            },
        },
{
}

// Commands and settings.

/// All the arguments of a run, in order.
pub proof fn law_arguments_of_a_run(config: CliConfig, model: Seq<char>, prompt: Seq<char>)
    ensures
        !config.use_ask_mode ==> agent::run_args(config, model, prompt) == seq![
            "--print"@,
            "--model"@,
            model,
            "--workspace"@,
            config.workspace@,
            "--trust"@,
            "--stream-partial-output"@,
            "--output-format"@,
            "stream-json"@,
            prompt,
        ],
        config.use_ask_mode ==> agent::run_args(config, model, prompt) == seq![
            "--print"@,
            "--mode"@,
            "ask"@,
            "--model"@,
            model,
            "--workspace"@,
            config.workspace@,
            "--trust"@,
            "--stream-partial-output"@,
            "--output-format"@,
            "stream-json"@,
            prompt,
        ],
{
    if config.use_ask_mode {
        assert(agent::run_args(config, model, prompt) =~= seq![
            "--print"@,
            "--mode"@,
            "ask"@,
            "--model"@,
            model,
            "--workspace"@,
            config.workspace@,
            "--trust"@,
            "--stream-partial-output"@,
            "--output-format"@,
            "stream-json"@,
            prompt,
        ]);
    } else {
        assert(agent::run_args(config, model, prompt) =~= seq![
            "--print"@,
            "--model"@,
            model,
            "--workspace"@,
            config.workspace@,
            "--trust"@,
            "--stream-partial-output"@,
            "--output-format"@,
            "stream-json"@,
            prompt,
        ]);
    }
}

/// The words for an error: fixed ones, with the reason after them where there is one.
pub proof fn law_words_of_errors(e: String)
    ensures
        AgentError::NotExecuted(e).words() == "Failed to execute agent CLI: "@ + e@,
        AgentError::NoStdout.words() == "Failed to capture stdout"@,
        AgentError::TimedOut.words() == "CLI request timed out"@,
        AgentError::NotJoined(e).words() == "Task join error: "@ + e@,
        AgentError::NotStarted(e).words() == "Failed to start agent CLI: "@ + e@,
        AgentError::NoAgentStdout.words() == "Failed to capture agent stdout"@,
{
}

/// A setting that the environment gives is taken as it is; one that it does not give has its
/// default.
pub proof fn law_settings<T>(value: T, default: T, s: String, fixed: &str)
    ensures
        config::or_default(Some(value), default) == value,
        config::or_default(None, default) == default,
        config::text_or(Some(s), fixed) == s@,
        config::text_or(None, fixed) == fixed@,
{
}

/// The names of the variables that the settings are read from, and the statuses of replies.
pub proof fn law_fixed_values()
    ensures
        config::ENABLED_VAR@ == "CLI_BACKEND_ENABLED"@,
        config::AGENT_BIN_VAR@ == "CLI_AGENT_BIN"@,
        config::TIMEOUT_VAR@ == "CLI_TIMEOUT_MS"@,
        config::WORKSPACE_VAR@ == "CLI_WORKSPACE"@,
        config::ASK_MODE_VAR@ == "CLI_USE_ASK_MODE"@,
        reply::OK == 200,
        reply::INTERNAL_SERVER_ERROR == 500,
        reply::SERVICE_UNAVAILABLE == 503,
{
}

// Platforms.

/// A header value may be made of a text exactly where every character of it prints, or is a space
/// or a tab.
pub proof fn law_visible_text(s: Seq<char>, platform: Platform)
    ensures
        platform::visible_text(s) <==> forall|i: int|
            0 <= i < s.len() ==> (0x20 <= #[trigger] s[i] as int <= 0x7e || s[i] as int == 9),
        platform.presentable() <==> platform::visible_text(platform.web_ua@)
            && platform::visible_text(platform.string@),
{
}

/// The names of the three systems, and no others.
pub proof fn law_names(s: Seq<char>)
    ensures
        PlatformType::Windows.name() == "Windows"@,
        PlatformType::macOS.name() == "macOS"@,
        PlatformType::Linux.name() == "Linux"@,
        platform::named(s) is Some <==> s == "Windows"@ || s == "macOS"@ || s == "Linux"@,
        platform::named(s) matches Some(p) ==> p.name() == s,
{
}

/// A user agent is the platform's start, the version as it is, and the end that all have in
/// common; so two versions give the same user agent only where they are the same.
pub proof fn law_user_agent(platform: Platform, version: Seq<char>, other: Seq<char>)
    ensures
        platform.user_agent(version) == platform.ua_prefix@ + version
            + " Chrome/140.0.7339.41 Electron/38.0.0 Safari/537.36"@,
        platform.user_agent(version) == platform.user_agent(other) ==> version == other,
{
    let a = platform.user_agent(version);
    let b = platform.user_agent(other);
    let n = platform.ua_prefix@.len() as int;
    if a == b {
        assert(a.len() == n + version.len() + platform::UA_SUFFIX@.len());
        assert(b.len() == n + other.len() + platform::UA_SUFFIX@.len());
        assert(a.subrange(n, n + version.len()) =~= version);
        assert(b.subrange(n, n + other.len()) =~= other);
    }
}

/// The client's user agent and the browser's start with the same words on every platform, up to
/// the name of the product.
pub proof fn law_same_system_in_user_agents(p: PlatformType)
    ensures
        exists|n: int|
            {
                &&& 0 < n <= p.platform().web_ua@.len()
                &&& n <= p.platform().ua_prefix@.len()
                &&& #[trigger] p.platform().web_ua@.take(n) == p.platform().ua_prefix@.take(n)
                &&& p.platform().ua_prefix@.skip(n) == "Cursor/"@
                &&& p.platform().web_ua@.skip(n) == "Chrome/145.0.0.0 Safari/537.36"@
            },
{
    reveal_strlit("Cursor/");
    reveal_strlit("Chrome/145.0.0.0 Safari/537.36");
    match p {
        PlatformType::Windows => {
            reveal_strlit("Mozilla/5.0 (Windows NT 10.0; Win64; x64) AppleWebKit/537.36 (KHTML, like Gecko) Chrome/145.0.0.0 Safari/537.36");
            reveal_strlit("Mozilla/5.0 (Windows NT 10.0; Win64; x64) AppleWebKit/537.36 (KHTML, like Gecko) Cursor/");
            assert(p.platform().web_ua@.take(81) =~= p.platform().ua_prefix@.take(81));
            assert(p.platform().ua_prefix@.skip(81) =~= "Cursor/"@);
            assert(p.platform().web_ua@.skip(81) =~= "Chrome/145.0.0.0 Safari/537.36"@);
        },
        PlatformType::macOS => {
            reveal_strlit("Mozilla/5.0 (Macintosh; Intel Mac OS X 10_15_7) AppleWebKit/537.36 (KHTML, like Gecko) Chrome/145.0.0.0 Safari/537.36");
            reveal_strlit("Mozilla/5.0 (Macintosh; Intel Mac OS X 10_15_7) AppleWebKit/537.36 (KHTML, like Gecko) Cursor/");
            assert(p.platform().web_ua@.take(87) =~= p.platform().ua_prefix@.take(87));
            assert(p.platform().ua_prefix@.skip(87) =~= "Cursor/"@);
            assert(p.platform().web_ua@.skip(87) =~= "Chrome/145.0.0.0 Safari/537.36"@);
        },
        PlatformType::Linux => {
            reveal_strlit("Mozilla/5.0 (X11; Linux x86_64) AppleWebKit/537.36 (KHTML, like Gecko) Chrome/145.0.0.0 Safari/537.36");
            reveal_strlit("Mozilla/5.0 (X11; Linux x86_64) AppleWebKit/537.36 (KHTML, like Gecko) Cursor/");
            assert(p.platform().web_ua@.take(71) =~= p.platform().ua_prefix@.take(71));
            assert(p.platform().ua_prefix@.skip(71) =~= "Cursor/"@);
            assert(p.platform().web_ua@.skip(71) =~= "Chrome/145.0.0.0 Safari/537.36"@);
        },
    }
}

} // verus!
