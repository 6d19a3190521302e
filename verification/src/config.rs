//! The settings of the backend.
use vstd::prelude::*;
use vstd::string::*;
use std::borrow::Cow;

verus! {

/// Turns the backend on.
pub const ENABLED_VAR: &'static str = "CLI_BACKEND_ENABLED";

/// The program to run.
pub const AGENT_BIN_VAR: &'static str = "CLI_AGENT_BIN";

/// How long a request may take, in milliseconds.
pub const TIMEOUT_VAR: &'static str = "CLI_TIMEOUT_MS";

/// The directory that the agent works in.
pub const WORKSPACE_VAR: &'static str = "CLI_WORKSPACE";

/// Keeps the agent from using its tools.
pub const ASK_MODE_VAR: &'static str = "CLI_USE_ASK_MODE";

/// How the backend runs the agent.
pub struct CliConfig {
    /// Whether requests are served at all.
    pub enabled: bool,
    /// The program to run.
    pub agent_bin: Cow<'static, str>,
    /// How long a request may take, in milliseconds.
    pub timeout_ms: u64,
    /// The directory that the agent works in.
    pub workspace: Cow<'static, str>,
    /// Whether the agent is run with `--mode ask`. That is safe, but a thinking model may then
    /// write files in place of an answer. Otherwise the agent has all its tools.
    pub use_ask_mode: bool,
}

/// What the environment says of the settings: nothing of a variable that is not set, or whose
/// value cannot be read.
pub struct CliEnv {
    pub enabled: Option<bool>,
    pub agent_bin: Option<String>,
    pub timeout_ms: Option<u64>,
    pub workspace: Option<String>,
    pub use_ask_mode: Option<bool>,
}

/// The value, or `default` where there is none.
pub open spec fn or_default<T>(value: Option<T>, default: T) -> T {
    match value {
        Some(v) => v,
        None => default,
    }
}

/// The characters of a text, or those of `default` where there is none.
pub open spec fn text_or(value: Option<String>, default: &str) -> Seq<char> {
    match value {
        Some(v) => v@,
        None => default@,
    }
}

fn cow_or(value: Option<String>, default: &'static str) -> (r: Cow<'static, str>)
    ensures
        r@ == text_or(value, default),
{
    match value {
        Some(v) => Cow::Owned(v),
        None => Cow::Borrowed(default),
    }
}

impl CliConfig {
    /// The settings out of the environment. Left to itself the backend is off, runs `agent` in
    /// `/tmp` for up to five minutes, and lets it use its tools.
    pub fn from_env(env: CliEnv) -> (r: CliConfig)
        ensures
            r.enabled == or_default(env.enabled, false),
            r.agent_bin@ == text_or(env.agent_bin, "agent"),
            r.timeout_ms == or_default(env.timeout_ms, 300_000),
            r.workspace@ == text_or(env.workspace, "/tmp"),
            r.use_ask_mode == or_default(env.use_ask_mode, false),
    {
        CliConfig {
            enabled: env.enabled.unwrap_or(false),
            agent_bin: cow_or(env.agent_bin, "agent"),
            timeout_ms: env.timeout_ms.unwrap_or(300_000),
            workspace: cow_or(env.workspace, "/tmp"),
            use_ask_mode: env.use_ask_mode.unwrap_or(false),
        }
    }
}

/// Whether the backend serves requests.
pub fn is_enabled(config: &CliConfig) -> (r: bool)
    ensures
        r == config.enabled,
{
    config.enabled
}

/// The text that a setting holds.
pub(crate) fn setting<'a>(value: &'a Cow<'static, str>) -> (r: &'a str)
    ensures
        r@ == value@,
{
    match value {
        Cow::Borrowed(s) => s,
        Cow::Owned(s) => s.as_str(),
    }
}

} // verus!
