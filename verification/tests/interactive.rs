use ov_chat::command::{ChatAuth, ChatCommand, Config, DEFAULT_ENDPOINT};
use ov_chat::error::Error;
use ov_chat::exchange::{Action, Event, Exchange};
use ov_chat::interactive::{Conversation, Launch, Next, TurnEvent, PROMPT};
use ov_chat::protocol::ChatResponse;
use ov_chat::render::Output;

fn command() -> ChatCommand {
    ChatCommand::new(
        DEFAULT_ENDPOINT.to_string(),
        None,
        None,
        "user".to_string(),
        None,
        false,
        false,
        false,
    )
}

fn config() -> Config {
    Config {
        api_key: Some("root".to_string()),
        account: Some("default".to_string()),
        user: Some("user1".to_string()),
    }
}

fn auth() -> ChatAuth {
    ChatAuth { api_key: None, account: None, user: None }
}

fn conversation(session: Option<&str>) -> Conversation {
    Conversation { session_id: session.map(|s| s.to_string()) }
}

fn line(s: &str) -> Output {
    Output::Line(s.to_string())
}

fn typed(s: &str) -> TurnEvent {
    TurnEvent::Line(s.to_string())
}

/// Types a line that is sent, and returns what was sent in which session.
fn sent(cmd: &ChatCommand, c: &mut Conversation, s: &str) -> (Exchange, String, Option<String>) {
    let turn = cmd.converse(c, typed(s), &auth());
    match turn.next {
        Next::Exchange(exchange, step) => match step.action {
            Action::Send(post) => (exchange, post.body.message, post.body.session_id),
            _ => panic!("the message is sent"),
        },
        _ => panic!("the line is sent"),
    }
}

#[test]
fn a_message_is_sent_at_once_with_the_configured_credentials() {
    let mut cmd = command();
    cmd.message = Some(" hello ".to_string());
    for launch in [cmd.execute(&config()), cmd.run(&config())] {
        match launch {
            Launch::Single(exchange, step) => {
                assert!(!exchange.interactive);
                match step.action {
                    Action::Send(post) => {
                        assert_eq!(post.body.message, " hello ");
                        assert_eq!(post.url, "http://localhost:1933/bot/v1/chat");
                        let values: Vec<&str> =
                            post.headers.iter().map(|(_, v)| v.as_str()).collect();
                        assert_eq!(values, ["root", "default", "user1"]);
                    }
                    _ => panic!("the message is sent"),
                }
            }
            _ => panic!("there is a message"),
        }
    }
}

#[test]
fn without_a_message_a_chat_begins_with_a_banner() {
    let mut cmd = command();
    cmd.api_key = Some("cli".to_string());
    match cmd.execute(&config()) {
        Launch::Interactive { banner, conversation, auth } => {
            assert_eq!(
                banner,
                [
                    line("Vikingbot Chat - Interactive Mode"),
                    line("Endpoint: http://localhost:1933/bot/v1"),
                    line("Sender: user"),
                    line("Type 'exit', 'quit', or press Ctrl+C to exit"),
                    line("----------------------------------------\n"),
                ]
            );
            assert!(conversation.session_id.is_none());
            assert_eq!(auth.api_key.as_deref(), Some("cli"));
            assert_eq!(auth.account.as_deref(), Some("default"));
            assert_eq!(auth.user.as_deref(), Some("user1"));
        }
        _ => panic!("there is no message"),
    }
    cmd.session = Some("s1".to_string());
    match cmd.run_interactive(auth()) {
        Launch::Interactive { banner, conversation, .. } => {
            assert_eq!(banner.len(), 6);
            assert_eq!(banner[2], line("Session: s1"));
            assert_eq!(conversation.session_id.as_deref(), Some("s1"));
        }
        _ => panic!("a chat begins"),
    }
    assert_eq!(cmd.render_banner().len(), 6);
    assert_eq!(PROMPT, "\x1b[1;32mYou:\x1b[0m ");
}

#[test]
fn blank_lines_are_passed_over() {
    let cmd = command();
    for s in ["", " ", "\t \u{3000}"] {
        let turn = cmd.converse(&mut conversation(None), typed(s), &auth());
        assert!(turn.history.is_none() && turn.outputs.is_empty());
        assert!(matches!(turn.next, Next::ReadLine));
    }
}

#[test]
fn exit_words_leave_the_chat_in_any_case() {
    let cmd = command();
    for s in ["exit", "quit", "EXIT", " Quit \n", "eXiT"] {
        let turn = cmd.converse(&mut conversation(None), typed(s), &auth());
        assert_eq!(turn.history.as_deref(), Some(s.trim()));
        assert_eq!(turn.outputs, [line("\nGoodbye!")]);
        assert!(matches!(turn.next, Next::Quit));
    }
    let (_, message, _) = sent(&cmd, &mut conversation(None), "exit now");
    assert_eq!(message, "exit now");
}

#[test]
fn a_line_is_sent_and_remembered_without_white_space_around_it() {
    let mut cmd = command();
    let turn = cmd.converse(&mut conversation(None), typed("  hi there \n"), &auth());
    assert_eq!(turn.history.as_deref(), Some("hi there"));
    assert!(turn.outputs.is_empty());
    let (exchange, message, session) = sent(&cmd, &mut conversation(Some("s")), " hi there");
    assert!(exchange.interactive);
    assert_eq!(message, "hi there");
    assert_eq!(session.as_deref(), Some("s"));
    cmd.no_history = true;
    let turn = cmd.converse(&mut conversation(None), typed("hi"), &auth());
    assert!(turn.history.is_none());
    assert!(matches!(turn.next, Next::Exchange(_, _)));
}

#[test]
fn the_history_is_kept_unless_it_is_not_wanted() {
    let mut cmd = command();
    assert_eq!(cmd.history_file(), Some(".ov_chat_history"));
    cmd.no_history = true;
    assert_eq!(cmd.history_file(), None);
}

#[test]
fn control_keys_leave_the_chat() {
    let cmd = command();
    for event in [TurnEvent::Interrupted, TurnEvent::EndOfInput] {
        let turn = cmd.converse(&mut conversation(None), event, &auth());
        assert!(turn.history.is_none());
        assert_eq!(turn.outputs, [line("\nGoodbye!")]);
        assert!(matches!(turn.next, Next::Quit));
    }
}

#[test]
fn a_line_that_cannot_be_read_ends_the_chat() {
    let cmd = command();
    let event = TurnEvent::ReadFailed("tty".to_string());
    let turn = cmd.converse(&mut conversation(None), event, &auth());
    assert_eq!(
        turn.outputs,
        [Output::Error("\x1b[1;31mError reading input: tty\x1b[0m".to_string())]
    );
    assert!(matches!(turn.next, Next::Quit));
}

#[test]
fn a_failed_exchange_is_told_of_and_the_chat_goes_on() {
    let cmd = command();
    let mut c = conversation(None);
    let (mut exchange, _, _) = sent(&cmd, &mut c, "hi");
    cmd.advance(&mut exchange, Event::Responded(401));
    let step = cmd.advance(&mut exchange, Event::ErrorText(Some("no key".to_string())));
    let error = match step.action {
        Action::Fail(error) => error,
        _ => panic!("the exchange fails"),
    };
    let turn = cmd.converse(&mut c, TurnEvent::Exchanged(exchange, Some(error)), &auth());
    assert_eq!(
        turn.outputs,
        [Output::Error(
            "\x1b[1;31mError: API error: Request failed (401 Unauthorized): no key\x1b[0m"
                .to_string()
        )]
    );
    assert!(matches!(turn.next, Next::ReadLine));
    assert!(c.session_id.is_none());
}

#[test]
fn the_session_of_the_first_answer_goes_with_every_later_message() {
    let cmd = command();
    let mut c = conversation(None);
    for (before, named) in [(None, "s1"), (Some("s1"), "s2"), (Some("s1"), "s3")] {
        let (mut exchange, _, session) = sent(&cmd, &mut c, "hi");
        assert_eq!(session.as_deref(), before);
        cmd.advance(&mut exchange, Event::Responded(200));
        let response = ChatResponse {
            session_id: named.to_string(),
            message: "ok".to_string(),
            events: None,
        };
        let step = cmd.advance(&mut exchange, Event::Body(response));
        assert!(matches!(step.action, Action::Succeed));
        let turn = cmd.converse(&mut c, TurnEvent::Exchanged(exchange, None), &auth());
        assert!(turn.outputs.is_empty());
        assert!(matches!(turn.next, Next::ReadLine));
        assert_eq!(c.session_id.as_deref(), Some("s1"));
    }
}

#[test]
fn errors_tell_what_went_wrong() {
    assert_eq!(
        Error::no_http_client("tls").describe(),
        "Network error: Failed to create HTTP client: tls"
    );
    assert_eq!(
        Error::no_editor("tty").describe(),
        "Client error: Failed to initialize editor: tty"
    );
    assert_eq!(
        Error::refused_as("418 teapot", "no (coffee)"),
        Error::Api("Request failed (418 teapot): no (coffee)".to_string())
    );
    assert_eq!(
        Error::refused(404, "gone"),
        Error::Api("Request failed (404 Not Found): gone".to_string())
    );
}
