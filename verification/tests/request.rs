use cli_backend::agent::{build_agent_command, run_command, settle, AgentError};
use cli_backend::collect::CliSyncResult;
use cli_backend::config::{is_enabled, CliConfig, CliEnv};
use cli_backend::message::{build_prompt, CliChatRequest, CliContent, CliContentPart, CliMessage};
use cli_backend::parser::CliUsageInfo;
use cli_backend::reply::{plan_chat_completion, ChatPlan};

fn no_env() -> CliEnv {
    CliEnv { enabled: None, agent_bin: None, timeout_ms: None, workspace: None, use_ask_mode: None }
}

fn message(role: &str, text: &str) -> CliMessage {
    CliMessage { role: role.to_string(), content: CliContent::Text(text.to_string()) }
}

fn part(kind: Option<&str>, text: Option<&str>) -> CliContentPart {
    CliContentPart { kind: kind.map(|s| s.to_string()), text: text.map(|s| s.to_string()) }
}

#[test]
fn settings_left_to_themselves() {
    let config = CliConfig::from_env(no_env());
    assert!(!config.enabled);
    assert!(!is_enabled(&config));
    assert_eq!(config.agent_bin, "agent");
    assert_eq!(config.timeout_ms, 300_000);
    assert_eq!(config.workspace, "/tmp");
    assert!(!config.use_ask_mode);
}

#[test]
fn settings_from_the_environment() {
    let config = CliConfig::from_env(CliEnv {
        enabled: Some(true),
        agent_bin: Some("/opt/agent".to_string()),
        timeout_ms: Some(7),
        workspace: Some("/work".to_string()),
        use_ask_mode: Some(true),
    });
    assert!(is_enabled(&config));
    assert_eq!(config.agent_bin, "/opt/agent");
    assert_eq!(config.timeout_ms, 7);
    assert_eq!(config.workspace, "/work");
    assert!(config.use_ask_mode);
}

#[test]
fn text_of_a_message() {
    assert_eq!(CliContent::Text("a\u{4f60}".to_string()).as_text(), "a\u{4f60}");
    let parts = CliContent::Parts(vec![
        part(Some("text"), Some("one")),
        part(Some("image_url"), Some("no")),
        part(None, Some("no")),
        part(Some("text"), None),
        part(Some("Text"), Some("no")),
        part(Some("text"), Some("")),
        part(Some("text"), Some(" two")),
    ]);
    assert_eq!(parts.as_text(), "one two");
    assert_eq!(CliContent::Parts(vec![]).as_text(), "");
}

#[test]
fn a_single_part_is_like_a_text() {
    let parts = CliContent::Parts(vec![part(Some("text"), Some("hi"))]);
    assert_eq!(parts.as_text(), CliContent::Text("hi".to_string()).as_text());
}

#[test]
fn parts_add_up() {
    let parts = |kinds: &[&str]| {
        CliContent::Parts(kinds.iter().map(|k| part(Some(k), Some("x"))).collect()).as_text()
    };
    let (a, b) = (["text", "image"], ["file", "text", "text"]);
    let both: Vec<&str> = a.iter().chain(b.iter()).copied().collect();
    assert_eq!(parts(&both), parts(&a) + &parts(&b));
    assert_eq!(parts(&both), "xxx");
}

#[test]
fn prompt_of_a_conversation() {
    let messages = vec![
        message("system", "be brief"),
        message("developer", "and kind"),
        message("user", "hello"),
        message("assistant", "hi"),
        message("tool", "42"),
    ];
    assert_eq!(
        build_prompt(&messages),
        "[System]\nbe brief\n\n[System]\nand kind\n\n[User]\nhello\n\n[Assistant]\nhi\n\n[User]\n42"
    );
    assert_eq!(build_prompt(&[]), "");
    assert_eq!(build_prompt(&messages[2..3]), "[User]\nhello");
}

#[test]
fn prompt_of_two_halves() {
    let messages = vec![message("user", "a"), message("assistant", "b"), message("user", "")];
    let halves = format!("{}\n\n{}", build_prompt(&messages[..1]), build_prompt(&messages[1..]));
    assert_eq!(build_prompt(&messages), halves);
}

#[test]
fn common_arguments() {
    let cmd = build_agent_command("agent", "auto", "/tmp", false);
    assert_eq!(cmd.program, "agent");
    assert_eq!(cmd.args, ["--print", "--model", "auto", "--workspace", "/tmp", "--trust"]);
    let cmd = build_agent_command("/bin/a b", "m", "", true);
    assert_eq!(cmd.program, "/bin/a b");
    assert_eq!(
        cmd.args,
        ["--print", "--mode", "ask", "--model", "m", "--workspace", "", "--trust"]
    );
}

#[test]
fn arguments_of_a_run() {
    let mut env = no_env();
    env.workspace = Some("/work".to_string());
    let cmd = run_command(&CliConfig::from_env(env), "gpt", "--mode \"x\"\n\nhi");
    assert_eq!(cmd.program, "agent");
    assert_eq!(
        cmd.args,
        [
            "--print",
            "--model",
            "gpt",
            "--workspace",
            "/work",
            "--trust",
            "--stream-partial-output",
            "--output-format",
            "stream-json",
            "--mode \"x\"\n\nhi",
        ]
    );
}

#[test]
fn words_of_errors() {
    assert_eq!(
        AgentError::NotExecuted("gone".to_string()).message(),
        "Failed to execute agent CLI: gone"
    );
    assert_eq!(AgentError::NoStdout.message(), "Failed to capture stdout");
    assert_eq!(AgentError::TimedOut.message(), "CLI request timed out");
    assert_eq!(AgentError::NotJoined("panic".to_string()).message(), "Task join error: panic");
    assert_eq!(
        AgentError::NotStarted("gone".to_string()).message(),
        "Failed to start agent CLI: gone"
    );
    assert_eq!(AgentError::NoAgentStdout.message(), "Failed to capture agent stdout");
}

#[test]
fn outcome_of_a_run() {
    assert!(matches!(settle(None), Err(AgentError::TimedOut)));
    assert_eq!(settle(Some(Err("e".to_string()))).err().unwrap().message(), "Task join error: e");
    assert!(matches!(settle(Some(Ok(Err(AgentError::NoStdout)))), Err(AgentError::NoStdout)));
    let result = CliSyncResult {
        content: "c".to_string(),
        thinking: None,
        usage: CliUsageInfo::default(),
    };
    assert_eq!(settle(Some(Ok(Ok(result)))).ok().unwrap().content, "c");
}

#[test]
fn plans_for_requests() {
    let request = |model: Option<&str>, stream: bool| CliChatRequest {
        model: model.map(|s| s.to_string()),
        messages: vec![message("user", "hello")],
        stream,
    };
    let off = CliConfig::from_env(no_env());
    let mut env = no_env();
    env.enabled = Some(true);
    let on = CliConfig::from_env(env);
    for stream in [false, true] {
        match plan_chat_completion(&off, &request(None, stream)) {
            ChatPlan::Refuse { status, message } => {
                assert_eq!(status, 503);
                assert_eq!(message, "CLI backend is not enabled. Set CLI_BACKEND_ENABLED=true");
            }
            _ => panic!("not refused"),
        }
    }
    match plan_chat_completion(&on, &request(None, false)) {
        ChatPlan::Sync { model, prompt } => {
            assert_eq!(model, "auto");
            assert_eq!(prompt, "[User]\nhello");
        }
        _ => panic!("not in one whole"),
    }
    match plan_chat_completion(&on, &request(Some("m"), true)) {
        ChatPlan::Stream { model, prompt } => {
            assert_eq!(model, "m");
            assert_eq!(prompt, "[User]\nhello");
        }
        _ => panic!("not piece by piece"),
    }
}
