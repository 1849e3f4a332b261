use ov_chat::command::{ChatAuth, ChatCommand};
use ov_chat::error::Error;
use ov_chat::exchange::{Action, Event, Exchange, Phase, Step};
use ov_chat::json::JsonValue;
use ov_chat::protocol::{ChatResponse, ChatStreamEvent};
use ov_chat::render::Output;

fn command(stream: bool, no_format: bool) -> ChatCommand {
    ChatCommand::new(
        "http://e".to_string(),
        None,
        Some("cli-session".to_string()),
        "user".to_string(),
        None,
        stream,
        no_format,
        false,
    )
}

fn auth() -> ChatAuth {
    ChatAuth {
        api_key: Some("key".to_string()),
        account: None,
        user: None,
    }
}

fn text(s: &str) -> JsonValue {
    JsonValue::Text(s.to_string())
}

fn object(members: &[(&str, &str)]) -> JsonValue {
    JsonValue::Object(members.iter().map(|(k, v)| (k.to_string(), text(v))).collect())
}

fn event(kind: &str, data: JsonValue) -> Option<ChatStreamEvent> {
    Some(ChatStreamEvent { event: kind.to_string(), data, timestamp: None })
}

fn line(s: &str) -> Output {
    Output::Line(s.to_string())
}

fn advance(cmd: &ChatCommand, exchange: &mut Exchange, event: Event) -> Step {
    assert!(exchange.awaits(&event));
    cmd.advance(exchange, event)
}

fn streaming(cmd: &ChatCommand, session: Option<&str>) -> Exchange {
    let session_id = session.map(|s| s.to_string());
    let (mut exchange, step) = cmd.send_interactive_message("hi", &session_id, &auth());
    assert!(matches!(step.action, Action::Send(_)));
    let step = advance(cmd, &mut exchange, Event::Responded(200));
    assert!(matches!(step.action, Action::ReadChunk));
    assert_eq!(exchange.phase, Phase::Streaming);
    exchange
}

/// Reads a payload `kind|data` as an event, and any other as none.
fn parse(payload: &String) -> Option<ChatStreamEvent> {
    payload.split_once('|').and_then(|(kind, data)| event(kind, text(data)))
}

fn read(cmd: &ChatCommand, exchange: &mut Exchange, bytes: &[u8]) -> Vec<Output> {
    let step = advance(cmd, exchange, Event::Chunk(bytes.to_vec()));
    assert!(step.outputs.is_empty());
    let events = match step.action {
        Action::ParseEvents(payloads) => payloads.iter().map(parse).collect(),
        _ => panic!("payloads are parsed next"),
    };
    let step = advance(cmd, exchange, Event::Parsed(events));
    assert!(matches!(step.action, Action::ReadChunk));
    step.outputs
}

#[test]
fn a_single_message_is_sent_in_the_session_of_the_command() {
    let cmd = command(true, false);
    let (exchange, step) = cmd.send_message("hello", &auth());
    assert!(!exchange.interactive && exchange.stream);
    assert_eq!(exchange.session_id.as_deref(), Some("cli-session"));
    assert_eq!(exchange.phase, Phase::Sending);
    assert!(step.outputs.is_empty());
    match step.action {
        Action::Send(post) => {
            assert_eq!(post.url, "http://e/chat/stream");
            assert_eq!(post.body.message, "hello");
            assert_eq!(post.body.session_id.as_deref(), Some("cli-session"));
            assert_eq!(post.body.user_id.as_deref(), Some("user"));
            assert!(post.body.stream && post.body.context.is_none());
            assert_eq!(post.headers, [("X-API-Key".to_string(), "key".to_string())]);
        }
        _ => panic!("the message is sent"),
    }
}

#[test]
fn overrides_are_told_of_when_a_message_is_sent() {
    let mut cmd = command(false, false);
    cmd.model = Some("m".to_string());
    let (_, step) = cmd.send_message("hello", &auth());
    assert_eq!(
        step.outputs,
        [Output::Error("[ov chat] request-scoped LLM override enabled: provider=(auto), model=m, api_base=(default), api_key=unset".to_string())]
    );
}

#[test]
fn a_request_that_is_not_sent_fails() {
    let cmd = command(true, false);
    let (mut exchange, _) = cmd.send_message("hello", &auth());
    let step = advance(&cmd, &mut exchange, Event::SendFailed("no route".to_string()));
    assert!(step.outputs.is_empty());
    match step.action {
        Action::Fail(e) => {
            assert_eq!(e, Error::Network("Failed to send request: no route".to_string()));
            assert_eq!(e.describe(), "Network error: Failed to send request: no route");
        }
        _ => panic!("the exchange fails"),
    }
    assert_eq!(exchange.phase, Phase::Done);
}

#[test]
fn a_refused_request_fails_with_its_status() {
    for stream in [false, true] {
        let cmd = command(stream, false);
        for (code, said, expected) in [
            (401, Some("Missing API Key"), "Request failed (401 Unauthorized): Missing API Key"),
            (500, None, "Request failed (500 Internal Server Error): "),
            (199, Some("x"), "Request failed (199 <unknown status code>): x"),
            (300, Some("x"), "Request failed (300 Multiple Choices): x"),
            (999, Some(""), "Request failed (999 <unknown status code>): "),
        ] {
            let (mut exchange, _) = cmd.send_message("hello", &auth());
            let step = advance(&cmd, &mut exchange, Event::Responded(code));
            assert!(step.outputs.is_empty());
            assert!(matches!(step.action, Action::ReadErrorText));
            assert_eq!(exchange.phase, Phase::Refused(code));
            let said = said.map(|s: &str| s.to_string());
            let step = advance(&cmd, &mut exchange, Event::ErrorText(said));
            assert!(step.outputs.is_empty());
            match step.action {
                Action::Fail(e) => assert_eq!(e, Error::Api(expected.to_string())),
                _ => panic!("the exchange fails"),
            }
        }
    }
}

#[test]
fn statuses_from_200_to_299_are_successes() {
    let cmd = command(true, false);
    for code in 100..1000 {
        let (mut exchange, _) = cmd.send_message("hello", &auth());
        let step = advance(&cmd, &mut exchange, Event::Responded(code));
        let read = matches!(step.action, Action::ReadChunk);
        assert_eq!(read, (200..300).contains(&code));
    }
}

#[test]
fn an_exchange_awaits_only_what_comes_of_its_action() {
    let cmd = command(true, false);
    let (exchange, _) = cmd.send_message("hello", &auth());
    assert!(exchange.awaits(&Event::Responded(100)));
    assert!(exchange.awaits(&Event::SendFailed(String::new())));
    assert!(!exchange.awaits(&Event::Responded(99)));
    assert!(!exchange.awaits(&Event::Responded(1000)));
    assert!(!exchange.awaits(&Event::StreamEnded));
    let exchange = streaming(&cmd, None);
    assert!(exchange.awaits(&Event::StreamEnded));
    assert!(!exchange.awaits(&Event::Responded(200)));
    assert!(!exchange.awaits(&Event::Parsed(vec![])));
}

fn whole_answer() -> ChatResponse {
    ChatResponse {
        session_id: "new-session".to_string(),
        message: "hi".to_string(),
        events: Some(vec![object(&[("type", "tool_call"), ("data", "f")])]),
    }
}

#[test]
fn a_whole_answer_is_shown_after_its_events() {
    let cmd = command(false, false);
    let (mut exchange, _) = cmd.send_message("hello", &auth());
    let step = advance(&cmd, &mut exchange, Event::Responded(201));
    assert!(matches!(step.action, Action::ReadBody));
    let step = advance(&cmd, &mut exchange, Event::Body(whole_answer()));
    assert!(matches!(step.action, Action::Succeed));
    assert_eq!(
        step.outputs,
        [
            line("  \x1b[2m├─ Calling: f\x1b[0m"),
            line("\x1b[1;31mBot:\x1b[0m"),
            Output::Markdown("hi".to_string()),
        ]
    );
    assert_eq!(exchange.session_id.as_deref(), Some("cli-session"));
}

#[test]
fn a_whole_answer_of_a_chat_brings_the_session() {
    let cmd = command(false, true);
    for (before, after) in [(None, "new-session"), (Some("known"), "known")] {
        let before = before.map(|s: &str| s.to_string());
        let (mut exchange, _) = cmd.send_interactive_message("hello", &before, &auth());
        advance(&cmd, &mut exchange, Event::Responded(200));
        let step = advance(&cmd, &mut exchange, Event::Body(whole_answer()));
        assert_eq!(step.outputs, [line(""), line("hi"), line("")]);
        assert_eq!(exchange.session_id.as_deref(), Some(after));
    }
}

#[test]
fn an_answer_that_cannot_be_read_fails() {
    let cmd = command(false, false);
    let (mut exchange, _) = cmd.send_interactive_message("hello", &None, &auth());
    advance(&cmd, &mut exchange, Event::Responded(200));
    let step = advance(&cmd, &mut exchange, Event::BodyFailed("eof".to_string()));
    match step.action {
        Action::Fail(e) => {
            assert_eq!(e, Error::Parse("Failed to parse response: eof".to_string()));
            assert_eq!(e.describe(), "Parse error: Failed to parse response: eof");
        }
        _ => panic!("the exchange fails"),
    }
    assert!(exchange.session_id.is_none());
}

#[test]
fn a_stream_that_breaks_fails_and_keeps_the_session() {
    let cmd = command(true, false);
    let mut exchange = streaming(&cmd, None);
    advance(&cmd, &mut exchange, Event::Chunk(b"data: x\n".to_vec()));
    advance(
        &cmd,
        &mut exchange,
        Event::Parsed(vec![event("start", object(&[("session_id", "s9")]))]),
    );
    let step = advance(&cmd, &mut exchange, Event::ChunkFailed("reset".to_string()));
    assert!(step.outputs.is_empty());
    match step.action {
        Action::Fail(e) => assert_eq!(e, Error::Network("Stream error: reset".to_string())),
        _ => panic!("the exchange fails"),
    }
    assert_eq!(exchange.session_id.as_deref(), Some("s9"));
}

#[test]
fn the_first_session_and_the_last_message_win() {
    let cmd = command(true, false);
    let events = || {
        vec![
            event("reasoning", text("hmm")),
            None,
            event("response", object(&[("message", "one"), ("session_id", "s1")])),
            event("response", object(&[("error", "bad")])),
            event("iteration", object(&[("session_id", "s2"), ("message", "no")])),
            event("response", text("two")),
            event("response", JsonValue::Null),
        ]
    };
    let mut exchange = streaming(&cmd, None);
    advance(&cmd, &mut exchange, Event::Chunk(vec![]));
    let step = advance(&cmd, &mut exchange, Event::Parsed(events()));
    assert_eq!(
        step.outputs,
        [
            line("  \x1b[2mThink: hmm...\x1b[0m"),
            Output::Error("\x1b[1;31mError: bad\x1b[0m".to_string()),
        ]
    );
    assert_eq!(exchange.session_id.as_deref(), Some("s1"));
    assert_eq!(exchange.final_message, "two");
    let step = advance(&cmd, &mut exchange, Event::StreamEnded);
    assert!(matches!(step.action, Action::Succeed));
    assert_eq!(
        step.outputs,
        [
            line(""),
            line("\x1b[1;31mBot:\x1b[0m"),
            Output::Markdown("two".to_string()),
            line(""),
        ]
    );

    let mut exchange = streaming(&cmd, Some("known"));
    advance(&cmd, &mut exchange, Event::Chunk(vec![]));
    advance(&cmd, &mut exchange, Event::Parsed(events()));
    assert_eq!(exchange.session_id.as_deref(), Some("known"));
}

#[test]
fn a_single_streamed_message_keeps_its_session() {
    let mut cmd = command(true, true);
    cmd.session = None;
    let (mut exchange, _) = cmd.send_message("hello", &auth());
    advance(&cmd, &mut exchange, Event::Responded(200));
    advance(&cmd, &mut exchange, Event::Chunk(vec![]));
    let step = advance(
        &cmd,
        &mut exchange,
        Event::Parsed(vec![
            event("reasoning", text("hmm")),
            event("response", object(&[("session_id", "s"), ("error", "bad")])),
            event("response", text("plain")),
        ]),
    );
    assert_eq!(step.outputs, [Output::Error("\x1b[1;31mError: bad\x1b[0m".to_string())]);
    assert!(exchange.session_id.is_none());
    let step = advance(&cmd, &mut exchange, Event::StreamEnded);
    assert_eq!(step.outputs, [line(""), line("plain")]);
}

#[test]
fn a_stream_without_a_message_shows_none() {
    let cmd = command(true, false);
    let mut exchange = streaming(&cmd, None);
    let step = advance(&cmd, &mut exchange, Event::StreamEnded);
    assert_eq!(step.outputs, [line("")]);
    let (mut exchange, _) = cmd.send_message("hello", &auth());
    advance(&cmd, &mut exchange, Event::Responded(200));
    let step = advance(&cmd, &mut exchange, Event::StreamEnded);
    assert!(step.outputs.is_empty());
}

#[test]
fn an_empty_chunk_is_like_no_chunk() {
    let cmd = command(true, false);
    let mut exchange = streaming(&cmd, None);
    assert!(read(&cmd, &mut exchange, b"").is_empty());
    assert_eq!(exchange.phase, Phase::Streaming);
    assert_eq!((exchange.buffer.as_str(), exchange.final_message.as_str()), ("", ""));
    read(&cmd, &mut exchange, b"data: response|a\ndata: resp");
    assert!(read(&cmd, &mut exchange, b"").is_empty());
    assert_eq!(exchange.buffer, "data: resp");
    assert_eq!(exchange.final_message, "a");
}

#[test]
fn where_chunks_are_cut_does_not_matter() {
    let cmd = command(true, false);
    let answer = "data: reasoning|één\n: note\n\ndata: nonsense\ndata: tool_call|f(水)\r\ndata: response|done\ndata: response|lost";
    let mut whole = streaming(&cmd, None);
    let expected = read(&cmd, &mut whole, answer.as_bytes());
    assert_eq!(expected.len(), 2);
    assert_eq!(whole.final_message, "done");
    assert_eq!(whole.buffer, "data: response|lost");
    for cut in 0..=answer.len() {
        if answer.is_char_boundary(cut) {
            let mut exchange = streaming(&cmd, None);
            let mut shown = read(&cmd, &mut exchange, &answer.as_bytes()[..cut]);
            assert!(!exchange.buffer.contains('\n'));
            shown.extend(read(&cmd, &mut exchange, &answer.as_bytes()[cut..]));
            assert_eq!(shown, expected);
            assert_eq!(exchange.final_message, whole.final_message);
            assert_eq!(exchange.buffer, whole.buffer);
        }
    }
    let mut bytewise = streaming(&cmd, None);
    for byte in b"data: response|abc\n" {
        read(&cmd, &mut bytewise, &[*byte]);
    }
    assert_eq!(bytewise.final_message, "abc");
}

#[test]
fn a_stream_that_cuts_a_character_is_read_as_the_texts_of_its_chunks() {
    let cmd = command(true, false);
    let mut exchange = streaming(&cmd, None);
    let answer = "data: reasoning|a水b\ndata: response|é!\nrest é".as_bytes();
    let inside = |c: &str| {
        let text = std::str::from_utf8(answer).unwrap();
        text.find(c).unwrap() + 1
    };
    let (first, second) = (inside("水"), inside("é"));
    let mut shown = read(&cmd, &mut exchange, &answer[..first]);
    shown.extend(read(&cmd, &mut exchange, &answer[first..second]));
    shown.extend(read(&cmd, &mut exchange, &answer[second..]));
    assert_eq!(
        shown,
        [line("  \x1b[2mThink: a\u{fffd}\u{fffd}\u{fffd}b...\x1b[0m")]
    );
    assert_eq!(exchange.final_message, "\u{fffd}\u{fffd}!");
    assert_eq!(exchange.buffer, "rest é");
}
