use ov_chat::command::ChatCommand;
use ov_chat::json::JsonValue;
use ov_chat::protocol::ChatStreamEvent;
use ov_chat::render::Output;

fn command(no_format: bool) -> ChatCommand {
    ChatCommand::new(
        "http://localhost:1933/bot/v1".to_string(),
        None,
        None,
        "user".to_string(),
        None,
        true,
        no_format,
        false,
    )
}

fn text(s: &str) -> JsonValue {
    JsonValue::Text(s.to_string())
}

fn event(kind: &str, data: JsonValue) -> ChatStreamEvent {
    ChatStreamEvent { event: kind.to_string(), data, timestamp: None }
}

fn recorded(members: &[(&str, JsonValue)]) -> JsonValue {
    let mut out = Vec::new();
    for (key, value) in members {
        let copy = match value {
            JsonValue::Text(s) => JsonValue::Text(s.clone()),
            JsonValue::Bool(b) => JsonValue::Bool(*b),
            _ => JsonValue::Null,
        };
        out.push((key.to_string(), copy));
    }
    JsonValue::Object(out)
}

fn line(s: &str) -> Output {
    Output::Line(s.to_string())
}

#[test]
fn shows_a_thought_cut_short() {
    let cmd = command(false);
    assert_eq!(
        cmd.render_stream_event(&event("reasoning", text("hmm"))),
        [line("  \x1b[2mThink: hmm...\x1b[0m")]
    );
    let long = "x".repeat(199) + "é";
    assert_eq!(
        cmd.render_stream_event(&event("reasoning", text(&long))),
        [line(&format!("  \x1b[2mThink: {}...\x1b[0m", "x".repeat(199)))]
    );
}

#[test]
fn shows_the_call_of_a_tool() {
    let cmd = command(false);
    assert_eq!(
        cmd.render_stream_event(&event("tool_call", text("search(q=(1))"))),
        [line("  \x1b[2m├─ Calling: \x1b[0m\x1b[1msearch\x1b[0m\x1b[2m(q=(1))\x1b[0m")]
    );
    assert_eq!(
        cmd.render_stream_event(&event("tool_call", text("search"))),
        [line("  \x1b[2m├─ Calling: search\x1b[0m")]
    );
}

#[test]
fn shows_the_result_of_a_tool_cut_short_only_when_long() {
    let cmd = command(false);
    let fits = "y".repeat(300);
    assert_eq!(
        cmd.render_stream_event(&event("tool_result", text(&fits))),
        [line(&format!("  \x1b[2m└─ Result: {}\x1b[0m", fits))]
    );
    let long = "y".repeat(299) + "水z";
    assert_eq!(
        cmd.render_stream_event(&event("tool_result", text(&long))),
        [line(&format!("  \x1b[2m└─ Result: {}...\x1b[0m", "y".repeat(299)))]
    );
}

#[test]
fn shows_nothing_of_other_events() {
    let cmd = command(false);
    assert!(cmd.render_stream_event(&event("iteration", text("1"))).is_empty());
    assert!(cmd.render_stream_event(&event("response", text("hi"))).is_empty());
    assert!(cmd.render_stream_event(&event("", text("hi"))).is_empty());
    assert!(cmd.render_stream_event(&event("reasoning", JsonValue::Null)).is_empty());
    assert!(command(true).render_stream_event(&event("reasoning", text("hmm"))).is_empty());
}

#[test]
fn shows_recorded_events_in_their_order() {
    let cmd = command(false);
    let events = Some(vec![
        recorded(&[("type", text("tool_call")), ("data", text("f(x)"))]),
        recorded(&[("type", text("reasoning")), ("data", JsonValue::Null)]),
        recorded(&[("type", text("reasoning"))]),
        recorded(&[("data", text("lost"))]),
        recorded(&[("type", JsonValue::Bool(true)), ("data", text("lost"))]),
        recorded(&[("type", text("response")), ("data", text("lost"))]),
        text("lost"),
        recorded(&[("type", text("tool_result")), ("data", text("ok"))]),
    ]);
    assert_eq!(
        cmd.render_events(&events),
        [
            line("  \x1b[2m├─ Calling: \x1b[0m\x1b[1mf\x1b[0m\x1b[2m(x)\x1b[0m"),
            line("  \x1b[2mThink: ...\x1b[0m"),
            line("  \x1b[2m└─ Result: ok\x1b[0m"),
        ]
    );
    assert!(cmd.render_events(&None).is_empty());
    assert!(command(true).render_events(&events).is_empty());
}

#[test]
fn shows_a_response_as_markdown_or_plain() {
    assert_eq!(
        command(false).render_response("**hi**"),
        [line("\x1b[1;31mBot:\x1b[0m"), Output::Markdown("**hi**".to_string())]
    );
    assert_eq!(command(true).render_response("**hi**"), [line("**hi**")]);
}
