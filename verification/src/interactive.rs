//! The interactive chat, and how a command starts.

use crate::command::{AuthView, ChatAuth, ChatCommand, Config, HISTORY_FILE};
use crate::error::{Error, ErrorView};
use crate::exchange::{error_line, render_error, Exchange, ExchangeView, Step, StepView};
use crate::render::{Output, OutputView};
use crate::text::{eq_ignore_ascii_case, same_ignoring_ascii_case, trim, trim_spec};
use vstd::prelude::*;
use vstd::string::*;

verus! {

/// What the user is asked with.
pub const PROMPT: &'static str = "\x1b[1;32mYou:\x1b[0m ";

/// What an interactive chat remembers from one message to the next.
#[derive(Debug)]
pub struct Conversation {
    /// The session of the chat, as far as it is known.
    pub session_id: Option<String>,
}

/// What came of a turn of an interactive chat.
#[derive(Debug)]
pub enum TurnEvent {
    /// The user typed a line.
    Line(String),
    /// The user pressed Ctrl+C.
    Interrupted,
    /// The user pressed Ctrl+D.
    EndOfInput,
    /// No line could be read.
    ReadFailed(String),
    /// An exchange is over, with an error or without one.
    Exchanged(Exchange, Option<Error>),
}

/// What an interactive chat does next.
#[derive(Debug)]
pub enum Next {
    ReadLine,
    /// Carry out this exchange, which begins with this step.
    Exchange(Exchange, Step),
    Quit,
}

/// A line for the history, then what to show, and then what to do.
#[derive(Debug)]
pub struct Turn {
    pub history: Option<String>,
    pub outputs: Vec<Output>,
    pub next: Next,
}

/// How a command starts.
#[derive(Debug)]
pub enum Launch {
    /// Carry out this exchange, which begins with this step, and end.
    Single(Exchange, Step),
    /// Show a banner and chat, with these credentials.
    Interactive { banner: Vec<Output>, conversation: Conversation, auth: ChatAuth },
}

/// The model of a [`TurnEvent`].
pub enum TurnEventView {
    Line(Seq<char>),
    Interrupted,
    EndOfInput,
    ReadFailed(Seq<char>),
    Exchanged(ExchangeView, Option<ErrorView>),
}

/// The model of a [`Next`].
pub enum NextView {
    ReadLine,
    Exchange(ExchangeView, StepView),
    Quit,
}

/// The model of a [`Turn`].
pub struct TurnView {
    pub history: Option<Seq<char>>,
    pub outputs: Seq<OutputView>,
    pub next: NextView,
}

/// The model of a [`Launch`]. Of a conversation it holds the session.
pub enum LaunchView {
    Single(ExchangeView, StepView),
    Interactive { banner: Seq<OutputView>, session_id: Option<Seq<char>>, auth: AuthView },
}

impl View for Conversation {
    type V = Option<Seq<char>>;

    open spec fn view(&self) -> Option<Seq<char>> {
        self.session_id.deep_view()
    }
}

impl View for TurnEvent {
    type V = TurnEventView;

    open spec fn view(&self) -> TurnEventView {
        match self {
            TurnEvent::Line(line) => TurnEventView::Line(line@),
            TurnEvent::Interrupted => TurnEventView::Interrupted,
            TurnEvent::EndOfInput => TurnEventView::EndOfInput,
            TurnEvent::ReadFailed(detail) => TurnEventView::ReadFailed(detail@),
            TurnEvent::Exchanged(exchange, error) => TurnEventView::Exchanged(
                exchange@,
                error.deep_view(),
            ),
        }
    }
}

impl View for Next {
    type V = NextView;

    open spec fn view(&self) -> NextView {
        match self {
            Next::ReadLine => NextView::ReadLine,
            Next::Exchange(exchange, step) => NextView::Exchange(exchange@, step@),
            Next::Quit => NextView::Quit,
        }
    }
}

impl View for Turn {
    type V = TurnView;

    open spec fn view(&self) -> TurnView {
        TurnView {
            history: self.history.deep_view(),
            outputs: self.outputs.deep_view(),
            next: self.next@,
        }
    }
}

impl View for Launch {
    type V = LaunchView;

    open spec fn view(&self) -> LaunchView {
        match self {
            Launch::Single(exchange, step) => LaunchView::Single(exchange@, step@),
            Launch::Interactive { banner, conversation, auth } => LaunchView::Interactive {
                banner: banner.deep_view(),
                session_id: conversation@,
                auth: auth@,
            },
        }
    }
}

/// Whether an input asks to leave the chat.
pub open spec fn is_exit(input: Seq<char>) -> bool {
    same_ignoring_ascii_case(input, "exit"@) || same_ignoring_ascii_case(input, "quit"@)
}

/// How a chat says goodbye.
pub open spec fn goodbye() -> Seq<OutputView> {
    seq![OutputView::Line("\nGoodbye!"@)]
}

impl ChatCommand {
    /// What is shown at the start of an interactive chat.
    pub open spec fn banner(self) -> Seq<OutputView> {
        seq![
            OutputView::Line("Vikingbot Chat - Interactive Mode"@),
            OutputView::Line("Endpoint: "@ + self.endpoint@),
        ] + (match self.session {
            Some(session) => seq![OutputView::Line("Session: "@ + session@)],
            None => seq![],
        }) + seq![
            OutputView::Line("Sender: "@ + self.sender@),
            OutputView::Line("Type 'exit', 'quit', or press Ctrl+C to exit"@),
            OutputView::Line("----------------------------------------\n"@),
        ]
    }

    /// What an interactive chat in the session `session_id` does about a line of input: an empty
    /// one is passed over, and any other goes into the history, unless there is to be none, before
    /// it ends the chat or is sent.
    pub open spec fn line_turn(
        self,
        session_id: Option<Seq<char>>,
        line: Seq<char>,
        auth: AuthView,
    ) -> TurnView {
        let input = trim_spec(line);
        if input.len() == 0 {
            TurnView { history: None, outputs: seq![], next: NextView::ReadLine }
        } else {
            let history = if self.no_history {
                None
            } else {
                Some(input)
            };
            if is_exit(input) {
                TurnView { history, outputs: goodbye(), next: NextView::Quit }
            } else {
                TurnView {
                    history,
                    outputs: seq![],
                    next: NextView::Exchange(
                        self.new_exchange(true, session_id),
                        self.first_step(input, session_id, auth),
                    ),
                }
            }
        }
    }

    /// How an interactive chat in the session `session_id` goes on after an event: the session
    /// that it is in then, and the turn that it takes.
    pub open spec fn turn(
        self,
        session_id: Option<Seq<char>>,
        event: TurnEventView,
        auth: AuthView,
    ) -> (Option<Seq<char>>, TurnView) {
        match event {
            TurnEventView::Line(line) => (session_id, self.line_turn(session_id, line, auth)),
            TurnEventView::Interrupted => (
                session_id,
                TurnView { history: None, outputs: goodbye(), next: NextView::Quit },
            ),
            TurnEventView::EndOfInput => (
                session_id,
                TurnView { history: None, outputs: goodbye(), next: NextView::Quit },
            ),
            TurnEventView::ReadFailed(detail) => (
                session_id,
                TurnView {
                    history: None,
                    outputs: seq![
                        OutputView::Error(
                            "\x1b[1;31mError reading input: "@ + detail + "\x1b[0m"@,
                        ),
                    ],
                    next: NextView::Quit,
                },
            ),
            TurnEventView::Exchanged(exchange, error) => (
                exchange.session_id,
                TurnView {
                    history: None,
                    outputs: match error {
                        Some(error) => seq![error_line(error.description())],
                        None => seq![],
                    },
                    next: NextView::ReadLine,
                },
            ),
        }
    }

    /// How this command starts: with the one message that it has, or else with a chat.
    pub open spec fn launch(self, config: Config) -> LaunchView {
        let auth = self.auth_with(config);
        match self.message {
            Some(message) => LaunchView::Single(
                self.new_exchange(false, self.session.deep_view()),
                self.first_step(message@, self.session.deep_view(), auth),
            ),
            None => LaunchView::Interactive {
                banner: self.banner(),
                session_id: self.session.deep_view(),
                auth,
            },
        }
    }
}

/// How a chat says goodbye.
fn say_goodbye() -> (r: Vec<Output>)
    ensures
        r.deep_view() == goodbye(),
{
    let mut outputs: Vec<Output> = Vec::new();
    outputs.push(Output::Line("\nGoodbye!".to_owned()));
    assert(outputs.deep_view() =~= goodbye());
    outputs
}

/// Nothing to show.
fn no_outputs() -> (r: Vec<Output>)
    ensures
        r.deep_view() == Seq::<OutputView>::empty(),
{
    let outputs: Vec<Output> = Vec::new();
    assert(outputs.deep_view() =~= seq![]);
    outputs
}

impl ChatCommand {
    /// What is shown at the start of an interactive chat.
    pub fn render_banner(&self) -> (r: Vec<Output>)
        ensures
            r.deep_view() == self.banner(),
    {
        let mut outputs: Vec<Output> = Vec::new();
        outputs.push(Output::Line("Vikingbot Chat - Interactive Mode".to_owned()));
        outputs.push(Output::Line("Endpoint: ".to_owned().concat(self.endpoint.as_str())));
        if let Some(session) = &self.session {
            outputs.push(Output::Line("Session: ".to_owned().concat(session.as_str())));
        }
        outputs.push(Output::Line("Sender: ".to_owned().concat(self.sender.as_str())));
        outputs.push(Output::Line("Type 'exit', 'quit', or press Ctrl+C to exit".to_owned()));
        outputs.push(Output::Line("----------------------------------------\n".to_owned()));
        assert(outputs.deep_view() =~= self.banner());
        outputs
    }

    /// The name of the file in the home directory that keeps the history, if one is kept.
    pub fn history_file(&self) -> (r: Option<&'static str>)
        ensures
            r == (if self.no_history {
                None
            } else {
                Some(HISTORY_FILE)
            }),
    {
        if self.no_history {
            None
        } else {
            Some(HISTORY_FILE)
        }
    }

    /// What an interactive chat does about a line of input.
    fn take_line(&self, conversation: &Conversation, line: &str, auth: &ChatAuth) -> (r: Turn)
        ensures
            r@ == self.line_turn(conversation@, line@, auth@),
    {
        let input = trim(line);
        if input.is_empty() {
            return Turn { history: None, outputs: no_outputs(), next: Next::ReadLine };
        }
        let history = if self.no_history {
            None
        } else {
            Some(input.to_owned())
        };
        if eq_ignore_ascii_case(input, "exit") || eq_ignore_ascii_case(input, "quit") {
            Turn { history, outputs: say_goodbye(), next: Next::Quit }
        } else {
            let (exchange, step) = self.send_interactive_message(
                input,
                &conversation.session_id,
                auth,
            );
            Turn { history, outputs: no_outputs(), next: Next::Exchange(exchange, step) }
        }
    }

    /// Takes an interactive chat on after an event.
    pub fn converse(
        &self,
        conversation: &mut Conversation,
        event: TurnEvent,
        auth: &ChatAuth,
    ) -> (r: Turn)
        ensures
            (final(conversation)@, r@) == self.turn(old(conversation)@, event@, auth@),
    {
        match event {
            TurnEvent::Line(line) => self.take_line(conversation, line.as_str(), auth),
            TurnEvent::Interrupted => Turn {
                history: None,
                outputs: say_goodbye(),
                next: Next::Quit,
            },
            TurnEvent::EndOfInput => Turn {
                history: None,
                outputs: say_goodbye(),
                next: Next::Quit,
            },
            TurnEvent::ReadFailed(detail) => {
                let mut line = "\x1b[1;31mError reading input: ".to_owned();
                line.append(detail.as_str());
                line.append("\x1b[0m");
                let mut outputs = no_outputs();
                outputs.push(Output::Error(line));
                let turn = Turn { history: None, outputs, next: Next::Quit };
                assert(turn@.outputs =~= self.turn(conversation@, event@, auth@).1.outputs);
                turn
            },
            TurnEvent::Exchanged(exchange, error) => {
                let mut outputs = no_outputs();
                if let Some(error) = &error {
                    outputs.push(render_error(error.describe().as_str()));
                }
                conversation.session_id = exchange.session_id;
                let turn = Turn { history: None, outputs, next: Next::ReadLine };
                assert(turn@.outputs =~= self.turn(conversation@, event@, auth@).1.outputs);
                turn
            },
        }
    }

    /// Begins an interactive chat, in the session that the command names.
    pub fn run_interactive(&self, auth: ChatAuth) -> (r: Launch)
        ensures
            r@ == (LaunchView::Interactive {
                banner: self.banner(),
                session_id: self.session.deep_view(),
                auth: auth@,
            }),
    {
        Launch::Interactive {
            banner: self.render_banner(),
            conversation: Conversation { session_id: self.session.clone() },
            auth,
        }
    }

    /// Starts this command, with the credentials of `config` where it has none of its own.
    pub fn execute(&self, config: &Config) -> (r: Launch)
        ensures
            r@ == self.launch(*config),
    {
        let auth = self.resolve_auth(config);
        match &self.message {
            Some(message) => {
                let (exchange, step) = self.send_message(message.as_str(), &auth);
                Launch::Single(exchange, step)
            },
            None => self.run_interactive(auth),
        }
    }

    /// Starts this command.
    pub fn run(&self, config: &Config) -> (r: Launch)
        ensures
            r@ == self.launch(*config),
    {
        self.execute(config)
    }
}

} // verus!
