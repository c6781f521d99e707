use ollama_chat::app::{App, Key};
use ollama_chat::config::{request_body, Config};
use ollama_chat::ingest::{Fragment, FragmentKind, Ingestion, StreamPhase};
use ollama_chat::layout::{
    chars_of, content_height, display_lines, parse_simple_markdown, split_lines, text_height,
    DisplayLine, SpanStyle,
};
use ollama_chat::transcript::{append_to_open_message, ChatMessage, Role};

fn app_with_input(text: &str) -> App {
    let mut app = App::new("llama3".to_string());
    app.input = text.to_string();
    app
}

fn content(text: &str) -> Fragment {
    Fragment { kind: FragmentKind::Content, text: text.to_string() }
}

fn spans(line: &DisplayLine) -> Vec<(SpanStyle, String)> {
    line.spans.iter().map(|s| (s.style, s.text.clone())).collect()
}

#[test]
fn submit_hello_appends_two_turns() {
    let mut app = app_with_input("Hello");
    let sent = app.ask_ollama();
    assert_eq!(sent, Some("Hello".to_string()));
    assert_eq!(app.history.len(), 2);
    assert_eq!(app.history[0].role, Role::User);
    assert_eq!(app.history[0].content, "Hello");
    assert_eq!(app.history[1].role, Role::Assistant);
    assert_eq!(app.history[1].content, "");
    assert_eq!(app.input, "");
    assert!(app.is_loading);
}

#[test]
fn submit_while_loading_is_noop() {
    let mut app = app_with_input("Hello");
    app.ask_ollama();
    app.input = "again".to_string();
    let sent = app.ask_ollama();
    assert_eq!(sent, None);
    assert_eq!(app.history.len(), 2);
    assert_eq!(app.input, "again");
}

#[test]
fn submit_empty_prompt_is_noop() {
    let mut app = app_with_input("");
    assert_eq!(app.ask_ollama(), None);
    assert!(app.history.is_empty());
    assert!(!app.is_loading);
}

#[test]
fn fragments_append_in_order() {
    let mut app = app_with_input("Hi");
    app.ask_ollama();
    let arrived = app.update(&vec![content("Hel"), content("lo"), content(", world")]);
    assert!(arrived);
    assert_eq!(app.history[1].content, "Hello, world");
    assert!(!app.is_loading);
    assert_eq!(app.token_count, 3);
    let arrived = app.update(&vec![content("!")]);
    assert!(arrived);
    assert_eq!(app.history[1].content, "Hello, world!");
    assert!(!app.update(&Vec::new()));
}

#[test]
fn no_fragments_keeps_loading() {
    let mut app = app_with_input("Hi");
    app.ask_ollama();
    assert!(!app.update(&Vec::new()));
    assert!(app.is_loading);
}

#[test]
fn fragments_after_user_turn_are_counted() {
    let mut app = App::new("m".to_string());
    app.history.push(ChatMessage { role: Role::User, content: "q".to_string() });
    assert!(app.update(&vec![content("a"), content("b")]));
    assert_eq!(app.history[0].content, "q");
    assert_eq!(app.token_count, 2);
    let mut empty = App::new("m".to_string());
    empty.update(&vec![content("a")]);
    assert_eq!(empty.token_count, 0);
    assert!(empty.history.is_empty());
}

#[test]
fn open_turn_follows_loading() {
    let mut app = app_with_input("Hi");
    assert!(!app.is_open());
    app.ask_ollama();
    assert!(app.is_open());
    app.update(&vec![content("x")]);
    assert!(!app.is_open());
}

#[test]
fn refused_enter_changes_nothing() {
    let mut app = app_with_input("Hi");
    app.on_key(Key::Enter);
    app.input = "more".to_string();
    assert_eq!(app.on_key(Key::Enter), None);
    assert_eq!(app.input, "more");
    assert_eq!(app.history.len(), 2);
}

#[test]
fn append_to_user_turn_is_noop() {
    let mut history = vec![ChatMessage { role: Role::User, content: "q".to_string() }];
    assert!(!append_to_open_message(&mut history, "x"));
    assert_eq!(history[0].content, "q");
}

#[test]
fn reconcile_follows_bottom_and_is_idempotent() {
    let mut app = App::new("m".to_string());
    app.enforce_auto_scroll(30, 10);
    assert_eq!(app.scroll_offset, 20);
    app.reconcile();
    assert_eq!(app.scroll_offset, 20);
    app.reconcile();
    assert_eq!(app.scroll_offset, 20);
    app.enforce_auto_scroll(5, 10);
    assert_eq!(app.scroll_offset, 0);
}

#[test]
fn reconcile_saturates_at_largest_offset() {
    let mut app = App::new("m".to_string());
    app.enforce_auto_scroll(100_000, 10);
    assert_eq!(app.scroll_offset, u16::MAX);
}

#[test]
fn upward_scroll_stops_following() {
    let mut app = App::new("m".to_string());
    app.content_height = 15;
    app.terminal_height = 10;
    app.scroll_offset = 5;
    app.on_key(Key::Up);
    assert_eq!(app.scroll_offset, 4);
    assert!(!app.auto_scroll);
    app.enforce_auto_scroll(40, 10);
    assert_eq!(app.scroll_offset, 4);
    assert_eq!(app.content_height, 40);
}

#[test]
fn upward_scroll_floors_at_zero() {
    let mut app = App::new("m".to_string());
    app.on_manual_scroll(-1);
    assert_eq!(app.scroll_offset, 0);
    assert!(!app.auto_scroll);
}

#[test]
fn downward_scroll_moves_past_bottom() {
    let mut app = App::new("m".to_string());
    app.content_height = 12;
    app.terminal_height = 10;
    app.scroll_offset = 1;
    app.auto_scroll = false;
    app.on_key(Key::Down);
    assert_eq!(app.scroll_offset, 2);
    app.on_key(Key::Down);
    assert_eq!(app.scroll_offset, 3);
    assert!(!app.auto_scroll);
    app.enforce_auto_scroll(12, 10);
    assert_eq!(app.scroll_offset, 3);
    app.scroll_offset = u16::MAX;
    app.on_manual_scroll(5);
    assert_eq!(app.scroll_offset, u16::MAX);
}

#[test]
fn jump_to_bottom_resumes_following() {
    let mut app = App::new("m".to_string());
    app.on_manual_scroll(-3);
    app.content_height = 25;
    app.terminal_height = 10;
    app.scroll_to_bottom();
    assert!(app.auto_scroll);
    assert_eq!(app.scroll_offset, 15);
}

#[test]
fn keys_edit_input_and_quit() {
    let mut app = App::new("m".to_string());
    app.on_key(Key::Char('h'));
    app.on_key(Key::Char('é'));
    assert_eq!(app.input, "hé");
    app.on_key(Key::Backspace);
    assert_eq!(app.input, "h");
    app.on_key(Key::Backspace);
    app.on_key(Key::Backspace);
    assert_eq!(app.input, "");
    app.on_key(Key::Char('x'));
    assert_eq!(app.on_key(Key::Enter), Some("x".to_string()));
    assert!(!app.exit);
    app.on_key(Key::Quit);
    assert!(app.exit);
}

#[test]
fn failed_status_yields_one_diagnostic() {
    let mut w = Ingestion::new();
    let f = w.on_status(false, "500 Internal Server Error".to_string()).unwrap();
    assert_eq!(f.kind, FragmentKind::Diagnostic);
    assert_eq!(f.text, "HTTP Error: 500 Internal Server Error");
    assert!(w.is_finished());
    assert!(w.on_chunk(br#"{"response":"late"}"#).is_none());
    assert!(w.on_transport_error("reset".to_string()).is_none());
}

#[test]
fn malformed_chunk_yields_diagnostic_and_stream_continues() {
    let mut w = Ingestion::new();
    assert!(w.on_status(true, "200 OK".to_string()).is_none());
    let bad = br#"{"response":"a"}{"response":"b"}"#;
    let f = w.on_chunk(bad).unwrap();
    assert_eq!(f.kind, FragmentKind::Diagnostic);
    assert_eq!(f.text, "\n[Parse Error on: {\"response\":\"a\"}{\"response\":\"b\"}]\n");
    assert_eq!(w.phase, StreamPhase::Streaming);
    let g = w.on_chunk(br#"{"response":"next"}"#).unwrap();
    assert_eq!(g.kind, FragmentKind::Content);
    assert_eq!(g.text, "next");
}

#[test]
fn chunk_without_response_yields_diagnostic() {
    let mut w = Ingestion::new();
    w.on_status(true, "200 OK".to_string());
    let f = w.on_chunk(br#"{"done":true}"#).unwrap();
    assert_eq!(f.kind, FragmentKind::Diagnostic);
    assert_eq!(f.text, "\n[Parse Error on: {\"done\":true}]\n");
    let g = w.on_chunk(br#"{"response":7}"#).unwrap();
    assert_eq!(g.kind, FragmentKind::Diagnostic);
    assert_eq!(g.text, "\n[Parse Error on: {\"response\":7}]\n");
    assert_eq!(w.phase, StreamPhase::Streaming);
    let h = w.on_chunk(br#"{"response":"ok"}"#).unwrap();
    assert_eq!(h.kind, FragmentKind::Content);
    assert_eq!(h.text, "ok");
}

#[test]
fn chunk_before_status_yields_nothing() {
    let mut w = Ingestion::new();
    assert!(w.on_chunk(br#"{"response":"x"}"#).is_none());
    assert_eq!(w.phase, StreamPhase::AwaitingStatus);
}

#[test]
fn invalid_utf8_chunk_is_shown_lossily() {
    let mut w = Ingestion::new();
    w.on_status(true, "200 OK".to_string());
    let f = w.on_chunk(&[b'a', 0xff, b'b']).unwrap();
    assert_eq!(f.text, "\n[Parse Error on: a\u{fffd}b]\n");
}

#[test]
fn transport_error_ends_stream() {
    let mut w = Ingestion::new();
    w.on_status(true, "200 OK".to_string());
    let f = w.on_transport_error("connection reset".to_string()).unwrap();
    assert_eq!(f.kind, FragmentKind::Diagnostic);
    assert_eq!(f.text, "\n[Stream Error: connection reset]\n");
    assert!(w.is_finished());
    assert!(w.on_chunk(br#"{"response":"x"}"#).is_none());
}

#[test]
fn lines_follow_newlines() {
    let lines: Vec<String> = split_lines(&chars_of("a\r\n\nbc\n"))
        .iter()
        .map(|l| l.iter().collect())
        .collect();
    assert_eq!(lines, vec!["a".to_string(), "".to_string(), "bc".to_string()]);
    assert!(split_lines(&chars_of("")).is_empty());
    assert_eq!(split_lines(&chars_of("x\ny")).len(), 2);
}

#[test]
fn height_estimate_wraps_long_lines() {
    assert_eq!(text_height(""), 0);
    assert_eq!(text_height("short\n\nline"), 3);
    let long = "x".repeat(120);
    assert_eq!(text_height(&long), 2);
    let history = vec![
        ChatMessage { role: Role::User, content: "hi".to_string() },
        ChatMessage { role: Role::Assistant, content: long },
    ];
    assert_eq!(content_height(&history), 3 + 4);
}

#[test]
fn recalculate_scroll_measures_transcript() {
    let mut app = App::new("m".to_string());
    for _ in 0..6 {
        app.history.push(ChatMessage { role: Role::User, content: "q".to_string() });
    }
    app.recalculate_scroll();
    assert_eq!(app.content_height, 18);
    assert_eq!(app.scroll_offset, 8);
}

#[test]
fn markdown_marks_bold_pieces() {
    let lines = parse_simple_markdown("plain **bold** tail\nno marks");
    assert_eq!(lines.len(), 2);
    assert_eq!(
        spans(&lines[0]),
        vec![
            (SpanStyle::Plain, "plain ".to_string()),
            (SpanStyle::Bold, "bold".to_string()),
            (SpanStyle::Plain, " tail".to_string()),
        ]
    );
    assert_eq!(spans(&lines[1]), vec![(SpanStyle::Plain, "no marks".to_string())]);
    let odd = parse_simple_markdown("***");
    assert_eq!(
        spans(&odd[0]),
        vec![(SpanStyle::Plain, "".to_string()), (SpanStyle::Bold, "*".to_string())]
    );
}

#[test]
fn display_lines_tag_each_turn() {
    let history = vec![
        ChatMessage { role: Role::User, content: "Hello".to_string() },
        ChatMessage { role: Role::Assistant, content: "a **b**".to_string() },
    ];
    let lines = display_lines(&history);
    assert_eq!(lines.len(), 5);
    assert_eq!(
        spans(&lines[0]),
        vec![
            (SpanStyle::UserLabel, " You: ".to_string()),
            (SpanStyle::UserText, "Hello".to_string()),
        ]
    );
    assert!(lines[1].spans.is_empty());
    assert_eq!(spans(&lines[2]), vec![(SpanStyle::AssistantLabel, " Ollama: ".to_string())]);
    assert_eq!(
        spans(&lines[3]),
        vec![
            (SpanStyle::Plain, "a ".to_string()),
            (SpanStyle::Bold, "b".to_string()),
            (SpanStyle::Plain, "".to_string()),
        ]
    );
    assert!(lines[4].spans.is_empty());
}

#[test]
fn config_defaults_and_overrides() {
    let c = Config::from_values(None, None, None);
    assert_eq!(c.ollama_url, "http://127.0.0.1:11434/api/generate");
    assert_eq!(c.model_name, "llama3");
    let c = Config::from_values(Some("10.0.0.2".to_string()), Some("8080".to_string()), Some("gemma".to_string()));
    assert_eq!(c.ollama_url, "http://10.0.0.2:8080/api/generate");
    assert_eq!(c.model_name, "gemma");
}

#[test]
fn request_body_escapes_prompt() {
    let body = request_body("llama3", "say \"hi\"\n");
    assert_eq!(body, "{\"model\":\"llama3\",\"prompt\":\"say \\\"hi\\\"\\n\",\"stream\":true}");
    let ctl = request_body("m", "a\u{1}\u{1f}\\\t\u{8}\u{c}\r");
    assert_eq!(ctl, "{\"model\":\"m\",\"prompt\":\"a\\u0001\\u001f\\\\\\t\\b\\f\\r\",\"stream\":true}");
}
