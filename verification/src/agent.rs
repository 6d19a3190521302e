//! How the agent is run, and what can go wrong with it.
use vstd::prelude::*;
use vstd::string::*;
use crate::collect::CliSyncResult;
use crate::config::{setting, CliConfig};
use crate::text;

verus! {

/// A program to run, with its arguments in order.
pub struct AgentCommand {
    pub program: String,
    pub args: Vec<String>,
}

/// The arguments of every run.
pub open spec fn common_args(
    model: Seq<char>,
    workspace: Seq<char>,
    use_ask_mode: bool,
) -> Seq<Seq<char>> {
    let mode = if use_ask_mode {
        seq!["--mode"@, "ask"@]
    } else {
        Seq::empty()
    };
    seq!["--print"@] + mode + seq!["--model"@, model, "--workspace"@, workspace, "--trust"@]
}

/// The arguments that ask for the output line by line, and the prompt.
pub open spec fn output_args(prompt: Seq<char>) -> Seq<Seq<char>> {
    seq!["--stream-partial-output"@, "--output-format"@, "stream-json"@, prompt]
}

/// The arguments of a run with these settings.
pub open spec fn run_args(config: CliConfig, model: Seq<char>, prompt: Seq<char>) -> Seq<Seq<char>> {
    common_args(model, config.workspace@, config.use_ask_mode) + output_args(prompt)
}

impl AgentCommand {
    /// One more argument at the end.
    fn arg(&mut self, arg: &str)
        ensures
            final(self).program == old(self).program,
            text::views(final(self).args@) == text::views(old(self).args@).push(arg@),
    {
        self.args.push(arg.to_owned());
        assert(text::views(self.args@) =~= text::views(old(self).args@).push(arg@));
    }
}

/// The command for the agent, with the arguments of every run.
pub fn build_agent_command(
    agent_bin: &str,
    model: &str,
    workspace: &str,
    use_ask_mode: bool,
) -> (r: AgentCommand)
    ensures
        r.program@ == agent_bin@,
        text::views(r.args@) == common_args(model@, workspace@, use_ask_mode),
{
    let mut cmd = AgentCommand { program: agent_bin.to_owned(), args: Vec::new() };
    assert(text::views(cmd.args@) =~= Seq::empty());
    cmd.arg("--print");
    if use_ask_mode {
        cmd.arg("--mode");
        cmd.arg("ask");
    }
    cmd.arg("--model");
    cmd.arg(model);
    cmd.arg("--workspace");
    cmd.arg(workspace);
    cmd.arg("--trust");
    assert(text::views(cmd.args@) =~= common_args(model@, workspace@, use_ask_mode));
    cmd
}

/// The command that answers a prompt.
pub fn run_command(config: &CliConfig, model: &str, prompt: &str) -> (r: AgentCommand)
    ensures
        r.program@ == config.agent_bin@,
        text::views(r.args@) == run_args(*config, model@, prompt@),
{
    let mut cmd = build_agent_command(
        setting(&config.agent_bin),
        model,
        setting(&config.workspace),
        config.use_ask_mode,
    );
    cmd.arg("--stream-partial-output");
    cmd.arg("--output-format");
    cmd.arg("stream-json");
    cmd.arg(prompt);
    assert(text::views(cmd.args@) =~= run_args(*config, model@, prompt@));
    cmd
}

/// What can go wrong with a run.
#[derive(Debug)]
pub enum AgentError {
    /// The program could not be run for one whole answer: the reason.
    NotExecuted(String),
    /// There is no output to read one whole answer from.
    NoStdout,
    /// The answer took too long.
    TimedOut,
    /// The task that reads the answer failed: the reason.
    NotJoined(String),
    /// The program could not be started for an answer piece by piece: the reason.
    NotStarted(String),
    /// There is no output to read an answer from piece by piece.
    NoAgentStdout,
}

impl AgentError {
    /// The words for the error.
    pub open spec fn words(self) -> Seq<char> {
        match self {
            AgentError::NotExecuted(e) => "Failed to execute agent CLI: "@ + e@,
            AgentError::NoStdout => "Failed to capture stdout"@,
            AgentError::TimedOut => "CLI request timed out"@,
            AgentError::NotJoined(e) => "Task join error: "@ + e@,
            AgentError::NotStarted(e) => "Failed to start agent CLI: "@ + e@,
            AgentError::NoAgentStdout => "Failed to capture agent stdout"@,
        }
    }

    /// The words for the error.
    pub fn message(&self) -> (r: String)
        ensures
            r@ == self.words(),
    {
        match self {
            AgentError::NotExecuted(e) => "Failed to execute agent CLI: ".to_owned().concat(
                e.as_str(),
            ),
            AgentError::NoStdout => "Failed to capture stdout".to_owned(),
            AgentError::TimedOut => "CLI request timed out".to_owned(),
            AgentError::NotJoined(e) => "Task join error: ".to_owned().concat(e.as_str()),
            AgentError::NotStarted(e) => "Failed to start agent CLI: ".to_owned().concat(
                e.as_str(),
            ),
            AgentError::NoAgentStdout => "Failed to capture agent stdout".to_owned(),
        }
    }
}

/// The outcome of a run that was given a limited time: nothing where the time ran out, else
/// the end of the task that read the answer, which may have failed in itself.
pub fn settle(finished: Option<Result<Result<CliSyncResult, AgentError>, String>>) -> (r: Result<
    CliSyncResult,
    AgentError,
>)
    ensures
        r == match finished {
            None => Err(AgentError::TimedOut),
            Some(Err(e)) => Err(AgentError::NotJoined(e)),
            Some(Ok(outcome)) => outcome,
        },
{
    match finished {
        None => Err(AgentError::TimedOut),
        Some(Err(e)) => Err(AgentError::NotJoined(e)),
        Some(Ok(outcome)) => outcome,
    }
}

/// Whatever the prompt, the model and the workspace are, each of them reaches the agent as one
/// argument: the prompt comes last, the others right after their flags.
pub proof fn law_arguments_stay_whole(config: CliConfig, model: Seq<char>, prompt: Seq<char>)
    ensures
        run_args(config, model, prompt).last() == prompt,
        ({
            let args = run_args(config, model, prompt);
            let n = args.len();
            &&& n == (if config.use_ask_mode { 12int } else { 10 })
            &&& args[n - 9] == "--model"@ && args[n - 8] == model
            &&& args[n - 7] == "--workspace"@ && args[n - 6] == config.workspace@
        }),
{
}

/// The agent is told a mode, and that is `ask`, exactly where the settings ask for it: without
/// it the arguments are the same but for the two that set the mode.
pub proof fn law_mode_only_on_request(model: Seq<char>, workspace: Seq<char>)
    ensures
        common_args(model, workspace, true) == common_args(model, workspace, false).insert(
            1,
            "--mode"@,
        ).insert(2, "ask"@),
        common_args(model, workspace, false) == seq![
            "--print"@,
            "--model"@,
            model,
            "--workspace"@,
            workspace,
            "--trust"@,
        ],
{
    assert(common_args(model, workspace, true) =~= common_args(model, workspace, false).insert(
        1,
        "--mode"@,
    ).insert(2, "ask"@));
}

} // verus!
