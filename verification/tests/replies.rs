use cli_backend::agent::AgentError;
use cli_backend::collect::{CliSyncResult, SyncCollector};
use cli_backend::parser::{CliUsageInfo, StreamParseResult};
use cli_backend::reply::{
    chat_response, completion_id, end_frame, error_body, json_head, new_completion_id, sse_frame,
    stream_head, stream_refusal, stream_reply, sync_reply, ChatReply, CliChatResponse, CliUsage, HeaderField,
    INTERNAL_ERROR_BODY,
};
use cli_backend::stream::{CliStreamChunk, StreamAction, StreamEvent, StreamPhase, StreamSender, StreamSession};

fn result(content: &str, thinking: Option<&str>, input: u32, output: u32) -> CliSyncResult {
    CliSyncResult {
        content: content.to_string(),
        thinking: thinking.map(|s| s.to_string()),
        usage: CliUsageInfo {
            input_tokens: input,
            output_tokens: output,
            cache_read_tokens: 5,
            cache_write_tokens: 6,
        },
    }
}

fn check_answer(answer: &CliChatResponse) {
    assert_eq!(answer.object, "chat.completion");
    assert_eq!(answer.created, 12);
    assert_eq!(answer.model, "m");
    assert_eq!(answer.choices.len(), 1);
    let choice = &answer.choices[0];
    assert_eq!(choice.index, 0);
    assert_eq!(choice.finish_reason, "stop");
    assert_eq!(choice.message.role, "assistant");
    assert_eq!(choice.message.content, "c");
    assert_eq!(choice.message.reasoning_content, Some("t".to_string()));
    assert_eq!(
        answer.usage,
        CliUsage { prompt_tokens: 3, completion_tokens: 4, total_tokens: 7 }
    );
}

fn pairs(head: Vec<HeaderField>) -> Vec<(&'static str, &'static str)> {
    head.iter().map(|field| (field.name, field.value)).collect()
}

/// What a chunk says: the role, the content, the reasoning and the reason to stop.
fn said(chunk: &CliStreamChunk) -> [Option<String>; 4] {
    assert_eq!(chunk.id, "chatcmpl-cli-x");
    assert_eq!(chunk.object, "chat.completion.chunk");
    assert_eq!(chunk.created, 12);
    assert_eq!(chunk.model, "m");
    assert_eq!(chunk.choices.len(), 1);
    let choice = &chunk.choices[0];
    assert_eq!(choice.index, 0);
    [
        choice.delta.role.map(|s| s.to_string()),
        choice.delta.content.clone(),
        choice.delta.reasoning_content.clone(),
        choice.finish_reason.map(|s| s.to_string()),
    ]
}

fn role() -> [Option<String>; 4] {
    [Some("assistant".to_string()), None, None, None]
}

fn content(s: &str) -> [Option<String>; 4] {
    [None, Some(s.to_string()), None, None]
}

fn reasoning(s: &str) -> [Option<String>; 4] {
    [None, None, Some(s.to_string()), None]
}

fn stop() -> [Option<String>; 4] {
    [None, None, None, Some("stop".to_string())]
}

fn session() -> StreamSession {
    StreamSession::new("chatcmpl-cli-x".to_string(), 12, "m".to_string())
}

/// Runs a stream over the lines; the sends from number `gone` on fail. Gives what was to be sent
/// (the end mark as nothing), and whether the agent was waited for.
fn run(lines: &[&str], gone: usize) -> (Vec<Option<[Option<String>; 4]>>, bool) {
    let mut session = session();
    let mut sent = Vec::new();
    let mut rest = lines.iter();
    let mut event = StreamEvent::Opened;
    loop {
        assert!(session.allows(&event));
        let action = session.next(event);
        match action {
            StreamAction::Send(chunk) => sent.push(Some(said(&chunk))),
            StreamAction::SendEnd => sent.push(None),
            StreamAction::Read => {
                event = match rest.next() {
                    Some(line) => StreamEvent::Line(line),
                    None => StreamEvent::EndOfOutput,
                };
                continue;
            }
            StreamAction::Wait => return (sent, true),
            StreamAction::Abandon => return (sent, false),
        }
        event = if sent.len() > gone { StreamEvent::Disconnected } else { StreamEvent::Sent };
    }
}

const LINES: [&str; 7] = [
    "{\"type\":\"thinking\",\"subtype\":\"delta\",\"text\":\"hm\"}",
    "{\"type\":\"thinking\",\"subtype\":\"completed\"}",
    "  ",
    "{\"type\":\"assistant\",\"message\":{\"content\":[{\"type\":\"text\",\"text\":\"one\"}]}}",
    "{\"type\":\"tool_call\",\"subtype\":\"completed\",\"tool_call\":{\"editToolCall\":{\"args\":{\"path\":\"p\",\"content\":\"c\"}}}}",
    "{\"type\":\"result\",\"subtype\":\"success\"}",
    "{\"type\":\"assistant\",\"message\":{\"content\":[{\"type\":\"text\",\"text\":\"late\"}]}}",
];

#[test]
fn answer_for_a_result() {
    let answer = chat_response("n".to_string(), 12, "m", result("c", Some("t"), 3, 4));
    assert_eq!(answer.id, "n");
    check_answer(&answer);
}

#[test]
fn all_tokens_are_counted() {
    let answer = chat_response("n".to_string(), 0, "", result("", None, u32::MAX - 1, 1));
    assert_eq!(answer.usage.total_tokens, u32::MAX);
    assert_eq!(answer.choices[0].message.reasoning_content, None);
}

#[test]
fn reply_to_a_run() {
    match sync_reply(Ok(result("c", Some("t"), 3, 4)), 12, "m") {
        ChatReply::Answer(answer) => {
            assert!(answer.id.starts_with("chatcmpl-cli-"));
            check_answer(&answer);
        }
        _ => panic!("no answer"),
    }
    match sync_reply(Err(AgentError::TimedOut), 12, "m") {
        ChatReply::Error { status, body } => {
            assert_eq!(status, 500);
            assert_eq!(body.error.message, "CLI request timed out");
            assert_eq!(body.error.kind, "cli_backend_error");
            assert_eq!(body.error.code, None);
        }
        _ => panic!("no error"),
    }
}

#[test]
fn reply_where_a_stream_cannot_start() {
    let check = |reply: ChatReply, message: &str| match reply {
        ChatReply::Error { status, body } => {
            assert_eq!(status, 500);
            assert_eq!(body.error.message, message);
            assert_eq!(body.error.kind, "cli_backend_error");
            assert_eq!(body.error.code, None);
        }
        _ => panic!("no error"),
    };
    let gone = || AgentError::NotStarted("gone".to_string());
    check(stream_refusal(gone()), "Failed to start agent CLI: gone");
    check(stream_refusal(AgentError::NoAgentStdout), "Failed to capture agent stdout");
    match stream_reply(Err(gone()), 12, "m".to_string()) {
        Err(reply) => check(reply, "Failed to start agent CLI: gone"),
        Ok(_) => panic!("a stream"),
    }
}

#[test]
fn reply_where_a_stream_starts() {
    match stream_reply(Ok(()), 12, "m".to_string()) {
        Ok(mut session) => match session.next(StreamEvent::Opened) {
            StreamAction::Send(chunk) => {
                assert!(chunk.id.starts_with("chatcmpl-cli-"));
                assert_eq!(chunk.created, 12);
                assert_eq!(chunk.model, "m");
            }
            _ => panic!("nothing sent"),
        },
        Err(_) => panic!("no stream"),
    }
}

#[test]
fn error_replies() {
    let body = error_body("so".to_string());
    assert_eq!(body.error.message, "so");
    assert_eq!(body.error.kind, "cli_backend_error");
    assert_eq!(body.error.code, None);
    assert_eq!(
        INTERNAL_ERROR_BODY,
        r#"{"error":{"message":"internal error","type":"cli_backend_error"}}"#
    );
}

#[test]
fn numbers_of_answers() {
    assert_eq!(completion_id("0a"), "chatcmpl-cli-0a");
    let (a, b) = (new_completion_id(), new_completion_id());
    assert_ne!(a, b);
    for id in [a, b] {
        let uuid: Vec<char> = id.strip_prefix("chatcmpl-cli-").unwrap().chars().collect();
        assert_eq!(uuid.len(), 32);
        assert!(uuid.iter().all(|c| matches!(c, '0'..='9' | 'a'..='f')));
        assert_eq!(uuid[12], '4');
        assert!(matches!(uuid[16], '8' | '9' | 'a' | 'b'));
    }
}

#[test]
fn heads_of_replies() {
    assert_eq!(pairs(json_head()), [("content-type", "application/json")]);
    assert_eq!(
        pairs(stream_head()),
        [
            ("content-type", "text/event-stream"),
            ("cache-control", "no-cache, must-revalidate"),
            ("connection", "keep-alive"),
            ("transfer-encoding", "chunked"),
        ]
    );
}

#[test]
fn frames() {
    assert_eq!(sse_frame("{}"), "data: {}\n\n");
    assert_eq!(end_frame(), "data: [DONE]\n\n");
}

#[test]
fn frames_are_told_apart() {
    let sent = sse_frame("{\"a\":\"x\\n\\ny\"}") + &sse_frame("") + &end_frame();
    let data: Vec<&str> =
        sent.split_terminator("\n\n").map(|frame| frame.strip_prefix("data: ").unwrap()).collect();
    assert_eq!(data, ["{\"a\":\"x\\n\\ny\"}", "", "[DONE]"]);
}

#[test]
fn a_whole_stream() {
    let (sent, waited) = run(&LINES, usize::MAX);
    let expected = vec![
        Some(role()),
        Some(reasoning("hm")),
        Some(content("one")),
        Some(content("\n```\n// File: p\nc\n```\n")),
        Some(stop()),
        None,
    ];
    assert_eq!(sent, expected);
    assert!(waited);
}

#[test]
fn a_stream_of_broken_off_output() {
    let (sent, waited) = run(&LINES[..1], usize::MAX);
    assert_eq!(sent, vec![Some(role()), Some(reasoning("hm")), Some(stop()), None]);
    assert!(waited);
    let (sent, waited) = run(&[], usize::MAX);
    assert_eq!(sent, vec![Some(role()), Some(stop()), None]);
    assert!(waited);
}

#[test]
fn a_client_that_goes_away() {
    let (sent, waited) = run(&LINES, 2);
    let expected =
        vec![Some(role()), Some(reasoning("hm")), Some(content("one")), Some(stop()), None];
    assert_eq!(sent, expected);
    assert!(waited);
}

#[test]
fn a_client_that_was_never_there() {
    let (sent, waited) = run(&LINES, 0);
    assert_eq!(sent, vec![Some(role())]);
    assert!(!waited);
}

#[test]
fn events_that_can_happen() {
    let mut session = session();
    assert!(session.allows(&StreamEvent::Opened));
    assert!(!session.allows(&StreamEvent::Sent));
    assert!(!session.allows(&StreamEvent::Line("")));
    session.next(StreamEvent::Opened);
    assert!(!session.allows(&StreamEvent::Opened));
    assert!(session.allows(&StreamEvent::Disconnected));
    session.next(StreamEvent::Sent);
    assert!(session.allows(&StreamEvent::Line("")));
    assert!(session.allows(&StreamEvent::EndOfOutput));
    assert!(!session.allows(&StreamEvent::Sent));
}

#[test]
fn chunks_for_results() {
    let sender = StreamSender::new("chatcmpl-cli-x".to_string(), 12, "m".to_string());
    let chunk = |result: StreamParseResult| sender.result_chunk(result).map(|c| said(&c));
    let text = |s: &str| s.to_string();
    assert_eq!(chunk(StreamParseResult::ThinkingDelta(text("t"))), Some(reasoning("t")));
    assert_eq!(chunk(StreamParseResult::ContentDelta(text("c"))), Some(content("c")));
    assert_eq!(chunk(StreamParseResult::ThinkingDone), None);
    assert_eq!(chunk(StreamParseResult::Done(CliUsageInfo::default())), None);
}

#[test]
fn actions_for_results() {
    let mut sender = StreamSender::new("chatcmpl-cli-x".to_string(), 12, "m".to_string());
    sender.phase = StreamPhase::Reading;
    assert!(matches!(sender.act_on(None), StreamAction::Read));
    assert!(matches!(sender.act_on(Some(StreamParseResult::ThinkingDone)), StreamAction::Read));
    assert_eq!(sender.phase, StreamPhase::Reading);
    match sender.act_on(Some(StreamParseResult::ContentDelta("c".to_string()))) {
        StreamAction::Send(c) => assert_eq!(said(&c), content("c")),
        _ => panic!("nothing sent"),
    }
    assert_eq!(sender.phase, StreamPhase::SendingPiece);
    assert!(matches!(sender.after_sending(true), StreamAction::Read));
    match sender.act_on(Some(StreamParseResult::Done(CliUsageInfo::default()))) {
        StreamAction::Send(c) => assert_eq!(said(&c), stop()),
        _ => panic!("nothing sent"),
    }
    assert_eq!(sender.phase, StreamPhase::SendingStop);
    assert!(matches!(sender.after_sending(false), StreamAction::SendEnd));
    assert!(matches!(sender.after_sending(false), StreamAction::Wait));
    assert_eq!(sender.phase, StreamPhase::Closed);
}

#[test]
fn stream_and_whole_answer_agree() {
    let (sent, _) = run(&LINES, usize::MAX);
    let mut collector = SyncCollector::new();
    for line in LINES {
        collector.push_line(line);
    }
    let whole = collector.finish();
    let mut streamed = String::new();
    let mut thought = String::new();
    for [_, content, reasoning, _] in sent.into_iter().flatten() {
        streamed.push_str(&content.unwrap_or_default());
        thought.push_str(&reasoning.unwrap_or_default());
    }
    assert_eq!(streamed, whole.content);
    assert_eq!(Some(thought), whole.thinking);
}
