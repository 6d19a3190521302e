use cli_backend::collect::{AnswerParts, CliSyncResult, SyncCollector};
use cli_backend::json::{parse_json, Json};
use cli_backend::output::file_block;
use cli_backend::parser::{CliUsageInfo, StreamParseResult, StreamParser};
use cli_backend::text::{byte_len, concat_all, is_white_space, same_text, trim};

fn json(text: &str) -> Json {
    parse_json(text).unwrap()
}

fn is_fresh(parser: &StreamParser) -> bool {
    parser.assistant_len == 0 && !parser.thinking_done && parser.answer.is_empty()
        && !parser.held
}

fn thinking(line: &str) -> Option<String> {
    match StreamParser::new().parse_line(line) {
        Some(StreamParseResult::ThinkingDelta(s)) => Some(s),
        None => None,
        _ => panic!("something else"),
    }
}

fn answer_line(text: &str) -> String {
    format!("{{\"type\":\"assistant\",\"message\":{{\"content\":[{{\"type\":\"text\",\"text\":\"{text}\"}}]}}}}")
}

fn content(parser: &mut StreamParser, line: &str) -> Option<String> {
    match parser.parse_line(line) {
        Some(StreamParseResult::ContentDelta(s)) => Some(s),
        None => None,
        _ => panic!("something else"),
    }
}

fn file(parser: &mut StreamParser, line: &str) -> Option<(String, String)> {
    match parser.parse_line(line) {
        Some(StreamParseResult::FileContent { path, content }) => Some((path, content)),
        None => None,
        _ => panic!("something else"),
    }
}

fn done(line: &str) -> Option<CliUsageInfo> {
    match StreamParser::new().parse_line(line) {
        Some(StreamParseResult::Done(u)) => Some(u),
        None => None,
        _ => panic!("something else"),
    }
}

fn counts(a: u32, b: u32, c: u32, d: u32) -> CliUsageInfo {
    CliUsageInfo {
        input_tokens: a,
        output_tokens: b,
        cache_read_tokens: c,
        cache_write_tokens: d,
    }
}

fn collect(lines: &[&str]) -> CliSyncResult {
    let mut collector = SyncCollector::new();
    for line in lines {
        if !collector.push_line(line) {
            break;
        }
    }
    collector.finish()
}

#[test]
fn texts_are_compared() {
    assert!(same_text("", ""));
    assert!(same_text("\u{4f60}b", "\u{4f60}b"));
    assert!(!same_text("a", "ab"));
    assert!(!same_text("ab", "ac"));
}

#[test]
fn texts_are_measured_and_put_together() {
    assert_eq!(byte_len(""), 0);
    assert_eq!(byte_len("a\u{4f60}"), 4);
    assert_eq!(concat_all(&vec![]), "");
    assert_eq!(concat_all(&vec!["a".to_string(), "".to_string(), "bc".to_string()]), "abc");
}

#[test]
fn white_space_is_that_of_unicode() {
    for c in '\0'..=char::MAX {
        assert_eq!(is_white_space(c), c.is_whitespace());
    }
}

#[test]
fn white_space_is_trimmed() {
    for s in ["", " ", "\t\n ", "a", " a", "a ", "\u{a0}a\u{2003}", " a b\r\n", "\u{4f60} "] {
        assert_eq!(trim(s), s.trim());
        assert_eq!(trim(trim(s)), trim(s));
    }
    assert_eq!(trim(" \u{3000}a b\t"), "a b");
}

#[test]
fn json_is_read() {
    assert!(matches!(json(" null "), Json::Null));
    assert!(matches!(json("true"), Json::Bool(true)));
    assert!(matches!(json("18446744073709551615"), Json::Number(Some(u64::MAX))));
    assert!(matches!(json("18446744073709551616"), Json::Number(None)));
    assert!(matches!(json("-1"), Json::Number(None)));
    assert!(matches!(json("1.0"), Json::Number(None)));
    assert_eq!(json("\"a\\n\\u4f60\"").as_str(), Some("a\n\u{4f60}"));
    assert!(json("1").as_str().is_none());
    for s in ["", "{", "x", "{} {}", "{\"a\":}", "'a'"] {
        assert!(parse_json(s).is_none());
    }
}

#[test]
fn json_is_looked_up() {
    let v = json("{\"b\":[1,{\"c\":\"d\"},[]],\"a\":\"first\",\"a\":\"second\"}");
    assert_eq!(v.get_str("a"), Some("second"));
    assert!(v.get("x").is_none());
    assert!(v.get_str("b").is_none());
    let items = v.get("b").unwrap().as_array().unwrap();
    assert_eq!(items.len(), 3);
    assert!(matches!(items[0], Json::Number(Some(1))));
    assert_eq!(items[1].get_str("c"), Some("d"));
    assert_eq!(items[2].as_array().unwrap().len(), 0);
    assert!(items[2].get("0").is_none());
    assert!(v.as_array().is_none());
}

#[test]
fn later_members_count() {
    let v = Json::Object(vec![
        ("a".to_string(), Json::Number(Some(1))),
        ("a".to_string(), Json::Number(Some(2))),
    ]);
    assert!(matches!(v.get("a"), Some(Json::Number(Some(2)))));
}

#[test]
fn reasoning_is_passed_on() {
    assert_eq!(
        thinking("{\"type\":\"thinking\",\"subtype\":\"delta\",\"text\":\"hm\"}"),
        Some("hm".to_string())
    );
    assert_eq!(thinking("{\"type\":\"thinking\",\"subtype\":\"delta\",\"text\":\"\"}"), None);
    assert_eq!(thinking("{\"type\":\"thinking\",\"subtype\":\"delta\",\"text\":3}"), None);
    assert_eq!(thinking("{\"type\":\"thinking\",\"subtype\":\"delta\"}"), None);
    assert_eq!(thinking("{\"type\":\"thinking\",\"subtype\":\"other\",\"text\":\"hm\"}"), None);
    assert_eq!(thinking("{\"type\":\"thinking\",\"text\":\"hm\"}"), None);
}

#[test]
fn reasoning_is_completed() {
    let mut parser = StreamParser::new();
    assert!(is_fresh(&parser));
    let r = parser.parse_line("{\"type\":\"thinking\",\"subtype\":\"completed\"}");
    assert!(matches!(r, Some(StreamParseResult::ThinkingDone)));
    assert!(parser.thinking_done);
    assert_eq!(parser.assistant_len, 0);
    assert_eq!(parser.answer, "");
}

#[test]
fn other_lines_are_passed_over() {
    let mut parser = StreamParser::new();
    for line in [
        "",
        "not json",
        "[]",
        "{}",
        "{\"type\":1}",
        "{\"type\":\"system\",\"subtype\":\"init\"}",
        "{\"type\":\"result\",\"subtype\":\"error\"}",
        "{\"type\":\"result\"}",
        "{\"type\":\"assistant\"}",
        "{\"type\":\"assistant\",\"message\":{\"content\":\"text\"}}",
        "{\"type\":\"assistant\",\"message\":{\"content\":[]}}",
    ] {
        assert!(parser.parse_line(line).is_none());
    }
    assert!(is_fresh(&parser));
}

#[test]
fn answer_parts_are_put_together() {
    let mut parser = StreamParser::new();
    let line = "{\"type\":\"assistant\",\"message\":{\"content\":[{\"type\":\"text\",\"text\":\"a\"},{\"type\":\"image\",\"text\":\"no\"},{\"text\":\"no\"},{\"type\":\"text\"},{\"type\":\"text\",\"text\":\"\u{4f60}\"}]}}";
    assert_eq!(content(&mut parser, line), Some("a\u{4f60}".to_string()));
    assert_eq!(parser.assistant_len, 4);
}

#[test]
fn values_built_by_hand_are_read() {
    let text = |s: &str| Json::Text(s.to_string());
    let line = Json::Object(vec![
        ("type".to_string(), text("thinking")),
        ("subtype".to_string(), text("delta")),
        ("text".to_string(), text("hm")),
    ]);
    let mut parser = StreamParser::new();
    match parser.parse_value(&line) {
        Some(StreamParseResult::ThinkingDelta(s)) => assert_eq!(s, "hm"),
        _ => panic!("something else"),
    }
}

#[test]
fn whole_answer_is_not_repeated() {
    let mut parser = StreamParser::new();
    let (a, b) = ("a".repeat(60), "b".repeat(50));
    assert_eq!(content(&mut parser, &answer_line(&a)), Some(a.clone()));
    assert_eq!(content(&mut parser, &answer_line(&b)), Some(b.clone()));
    assert_eq!(parser.assistant_len, 110);
    assert_eq!(content(&mut parser, &answer_line(&format!("{a}{b}"))), None);
    assert_eq!(parser.assistant_len, 110);
    assert_eq!(parser.answer, format!("{a}{b}"));
}

#[test]
fn short_answer_is_not_repeated() {
    let mut parser = StreamParser::new();
    assert_eq!(content(&mut parser, &answer_line("Hello")), Some("Hello".to_string()));
    assert_eq!(content(&mut parser, &answer_line(" world")), Some(" world".to_string()));
    assert_eq!(content(&mut parser, &answer_line("Hello world")), None);
    assert_eq!(parser.assistant_len, 11);
    assert!(parser.held);
    let mut parser = StreamParser::new();
    assert_eq!(content(&mut parser, &answer_line("a")), Some("a".to_string()));
    assert_eq!(content(&mut parser, &answer_line("a")), None);
}

#[test]
fn doubled_pieces_are_not_lost() {
    let run = |texts: &[&str]| -> Vec<Option<String>> {
        let mut parser = StreamParser::new();
        texts.iter().map(|s| content(&mut parser, &answer_line(s))).collect()
    };
    let piece = |s: &str| Some(s.to_string());
    assert_eq!(run(&["a", "a", "aa"]), [piece("a"), None, piece("a")]);
    assert_eq!(run(&["ha", "ha", "!", "haha!"]), [piece("ha"), None, piece("ha!"), None]);
    assert_eq!(run(&["a", "a", "aa", "b", "aaaab"]), [
        piece("a"),
        None,
        piece("a"),
        piece("aab"),
        None,
    ]);
    assert_eq!(run(&["a", "a", "a"]), [piece("a"), None, piece("aa")]);
    let long = "x".repeat(60);
    let whole = format!("{long}{long}{long}y");
    assert_eq!(run(&[&long, &long, &format!("{long}y"), &whole]), [
        piece(&long),
        None,
        piece(&format!("{long}{long}y")),
        None,
    ]);
}

#[test]
fn answer_is_what_was_sent() {
    let answer = |texts: &[&str]| -> String {
        let lines: Vec<String> = texts.iter().map(|s| answer_line(s)).collect();
        let mut collector = SyncCollector::new();
        for line in &lines {
            collector.push_line(line);
        }
        collector.finish().content
    };
    assert_eq!(answer(&["a", "a", "aa"]), "aa");
    assert_eq!(answer(&["Hello", " world", "Hello world"]), "Hello world");
    assert_eq!(answer(&["Hello", " world"]), "Hello world");
    assert_eq!(answer(&["ha", "ha", "ha", "hahaha"]), "hahaha");
    assert_eq!(answer(&["one"]), "one");
    assert_eq!(answer(&["one", "one"]), "one");
}

#[test]
fn new_pieces_are_passed_on() {
    let mut parser = StreamParser::new();
    let long = "x".repeat(101);
    assert_eq!(content(&mut parser, &answer_line("a")), Some("a".to_string()));
    assert_eq!(content(&mut parser, &answer_line(&long)), Some(long.clone()));
    let other = "y".repeat(102);
    assert_eq!(content(&mut parser, &answer_line(&other)), Some(other.clone()));
    assert_eq!(content(&mut parser, &answer_line("a")), Some("a".to_string()));
    assert_eq!(parser.assistant_len, 205);
    assert_eq!(parser.answer, format!("a{long}{other}a"));
}

#[test]
fn whole_answer_is_not_repeated_after_a_file() {
    let mut parser = StreamParser::new();
    let line = "{\"type\":\"tool_call\",\"subtype\":\"completed\",\"tool_call\":{\"editToolCall\":{\"args\":{\"path\":\"p\",\"content\":\"fn main\"}}}}";
    assert_eq!(content(&mut parser, &answer_line("See ")), Some("See ".to_string()));
    assert_eq!(file(&mut parser, line), Some(("p".to_string(), "fn main".to_string())));
    assert_eq!(content(&mut parser, &answer_line("above.")), Some("above.".to_string()));
    assert_eq!(parser.assistant_len, 17);
    assert_eq!(parser.answer, "See above.");
    assert_eq!(content(&mut parser, &answer_line("See above.")), None);
    assert_eq!(parser.assistant_len, 17);
}

#[test]
fn file_is_passed_on_when_completed() {
    let line = |subtype: &str| format!("{{\"type\":\"tool_call\",\"subtype\":\"{subtype}\",\"tool_call\":{{\"editToolCall\":{{\"args\":{{\"path\":\"a.rs\",\"streamContent\":\"fn\"}}}}}}}}");
    let mut parser = StreamParser::new();
    assert_eq!(file(&mut parser, &line("started")), None);
    assert_eq!(parser.assistant_len, 0);
    let expected = Some(("a.rs".to_string(), "fn".to_string()));
    assert_eq!(file(&mut parser, &line("completed")), expected);
    assert_eq!(parser.assistant_len, 2);
}

#[test]
fn file_content_is_found() {
    let read = |args: &str| {
        let line = format!("{{\"type\":\"tool_call\",\"subtype\":\"completed\",\"tool_call\":{{\"editToolCall\":{{\"args\":{args}}}}}}}");
        file(&mut StreamParser::new(), &line)
    };
    let found = |path: &str, content: &str| Some((path.to_string(), content.to_string()));
    assert_eq!(read("{\"content\":\"c\"}"), found("", "c"));
    assert_eq!(read("{\"streamContent\":\"s\",\"content\":\"c\",\"path\":\"p\"}"), found("p", "s"));
    assert_eq!(read("{\"streamContent\":null,\"content\":\"c\"}"), None);
    assert_eq!(read("{\"content\":\"\"}"), None);
    assert_eq!(read("{\"content\":\"c\",\"path\":7}"), found("", "c"));
    assert_eq!(read("{}"), None);
    assert_eq!(read("[]"), None);
    let other = "{\"type\":\"tool_call\",\"subtype\":\"completed\",\"tool_call\":{\"readToolCall\":{}}}";
    assert_eq!(file(&mut StreamParser::new(), other), None);
}

#[test]
fn token_counts_are_reported() {
    let read = |usage: &str| {
        done(&format!("{{\"type\":\"result\",\"subtype\":\"success\",\"usage\":{usage}}}")).unwrap()
    };
    assert_eq!(
        read("{\"inputTokens\":1,\"outputTokens\":2,\"cacheReadTokens\":3,\"cacheWriteTokens\":4}"),
        counts(1, 2, 3, 4)
    );
    assert_eq!(read("{\"outputTokens\":4294967295,\"other\":\"x\"}"), counts(0, u32::MAX, 0, 0));
    assert_eq!(read("{}"), counts(0, 0, 0, 0));
    assert_eq!(read("{\"inputTokens\":5,\"outputTokens\":4294967296}"), counts(0, 0, 0, 0));
    assert_eq!(read("{\"inputTokens\":5,\"outputTokens\":-1}"), counts(0, 0, 0, 0));
    assert_eq!(read("{\"inputTokens\":5,\"outputTokens\":2.0}"), counts(0, 0, 0, 0));
    assert_eq!(read("{\"inputTokens\":5,\"cacheReadTokens\":null}"), counts(0, 0, 0, 0));
    assert_eq!(read("[5,6]"), counts(5, 6, 0, 0));
    assert_eq!(read("[1,2,3,4]"), counts(1, 2, 3, 4));
    assert_eq!(read("[1,2,3,4,5]"), counts(0, 0, 0, 0));
    assert_eq!(read("[1,\"2\"]"), counts(0, 0, 0, 0));
    assert_eq!(read("7"), counts(0, 0, 0, 0));
    assert_eq!(done("{\"type\":\"result\",\"subtype\":\"success\"}"), Some(counts(0, 0, 0, 0)));
}

#[test]
fn file_in_the_answer() {
    assert_eq!(file_block("a.rs", "fn\n"), "\n```\n// File: a.rs\nfn\n\n```\n");
    assert_eq!(file_block("", ""), "\n```\n// File: \n\n```\n");
}

#[test]
fn pieces_are_taken() {
    let mut parts = AnswerParts::new();
    parts.take(StreamParseResult::ContentDelta("a".to_string()));
    parts.take(StreamParseResult::ThinkingDone);
    parts.take(StreamParseResult::FileContent { path: "p".to_string(), content: "c".to_string() });
    parts.take(StreamParseResult::ThinkingDelta("t".to_string()));
    parts.take(StreamParseResult::Done(counts(1, 2, 3, 4)));
    let result = parts.finish();
    assert_eq!(result.content, "a\n```\n// File: p\nc\n```\n");
    assert_eq!(result.thinking, Some("t".to_string()));
    assert_eq!(result.usage, counts(1, 2, 3, 4));
}

#[test]
fn one_whole_answer() {
    let result = collect(&[
        "{\"type\":\"system\"}",
        "",
        "  {\"type\":\"thinking\",\"subtype\":\"delta\",\"text\":\"let \"}\r",
        "{\"type\":\"thinking\",\"subtype\":\"delta\",\"text\":\"me\"}",
        "{\"type\":\"thinking\",\"subtype\":\"completed\"}",
        &answer_line("one"),
        "{\"type\":\"tool_call\",\"subtype\":\"completed\",\"tool_call\":{\"editToolCall\":{\"args\":{\"path\":\"p\",\"content\":\"c\"}}}}",
        &answer_line(" two"),
        &answer_line("one two"),
        "{\"type\":\"result\",\"subtype\":\"success\",\"usage\":{\"inputTokens\":9,\"outputTokens\":8}}",
        &answer_line("late"),
    ]);
    assert_eq!(result.content, "one\n```\n// File: p\nc\n```\n two");
    assert_eq!(result.thinking, Some("let me".to_string()));
    assert_eq!(result.usage, counts(9, 8, 0, 0));
}

#[test]
fn an_answer_without_reasoning() {
    let result = collect(&[]);
    assert_eq!(result.content, "");
    assert_eq!(result.thinking, None);
    assert_eq!(result.usage, counts(0, 0, 0, 0));
    assert_eq!(collect(&[&answer_line("a"), "broken"]).content, "a");
}

#[test]
fn nothing_counts_after_the_end() {
    let mut collector = SyncCollector::new();
    assert!(collector.push_line(" \t"));
    assert!(collector.push_line(&answer_line("a")));
    assert!(!collector.push_line("{\"type\":\"result\",\"subtype\":\"success\",\"usage\":[1]}"));
    assert!(!collector.push_line(&answer_line("b")));
    assert!(!collector.push_line("{\"type\":\"result\",\"subtype\":\"success\",\"usage\":[2]}"));
    let result = collector.finish();
    assert_eq!(result.content, "a");
    assert_eq!(result.usage, counts(1, 0, 0, 0));
}
