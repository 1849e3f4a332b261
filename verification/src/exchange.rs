//! One message to the bot and the bot's answer, as a state machine.
//!
//! An exchange tells with every step what to show and what to do next. What came of the latter is
//! the next event.

use crate::command::{AuthView, ChatAuth, ChatCommand, PostRequest, PostView};
use crate::error::{is_status, is_success, is_success_status, refusal, Error, ErrorView};
use crate::json::JsonValue;
use crate::laws::law_well_formed_is_kept;
use crate::protocol::{ChatResponse, ChatStreamEvent, ResponseView, StreamEventView};
use crate::render::{Output, OutputView};
use crate::sse::{chunk_text, decode_chunk, lines_of, payloads_of, rest_of, take_payloads};
use crate::text::same_text;
use vstd::prelude::*;
use vstd::string::*;

verus! {

/// What an exchange waits for.
#[derive(Debug, Clone, Copy, PartialEq, Eq)]
pub enum Phase {
    /// The request is on its way.
    Sending,
    /// The request was refused with this status; what the bot says of it is being read.
    Refused(u16),
    /// The answer is being read as a whole.
    ReadingBody,
    /// The next chunk of the answer is being read.
    Streaming,
    /// Payloads of a streamed answer are being parsed.
    Parsing,
    /// The exchange is over.
    Done,
}

/// One message to the bot and its answer.
#[derive(Debug)]
pub struct Exchange {
    /// Whether the message belongs to an interactive chat.
    pub interactive: bool,
    /// Whether the answer is streamed.
    pub stream: bool,
    /// The session of the chat, as far as it is known.
    pub session_id: Option<String>,
    /// The line of the stream that has not ended yet.
    pub buffer: String,
    /// The last message that the stream brought.
    pub final_message: String,
    pub phase: Phase,
}

/// What came of an action.
#[derive(Debug)]
pub enum Event {
    /// The request could not be sent.
    SendFailed(String),
    /// The bot answered with this status.
    Responded(u16),
    /// What the bot says of a refusal, if it could be read.
    ErrorText(Option<String>),
    /// The answer.
    Body(ChatResponse),
    /// The answer could not be read.
    BodyFailed(String),
    /// The next chunk of the answer.
    Chunk(Vec<u8>),
    /// The next chunk could not be read.
    ChunkFailed(String),
    /// There is no next chunk.
    StreamEnded,
    /// The payloads in their order, each as the event that it is, if it is one.
    Parsed(Vec<Option<ChatStreamEvent>>),
}

/// What to do next.
#[derive(Debug)]
pub enum Action {
    Send(PostRequest),
    ReadErrorText,
    ReadBody,
    ReadChunk,
    ParseEvents(Vec<String>),
    /// The exchange is over.
    Succeed,
    /// The exchange is over.
    Fail(Error),
}

/// What to show, and then what to do.
#[derive(Debug)]
pub struct Step {
    pub outputs: Vec<Output>,
    pub action: Action,
}

/// The model of an [`Exchange`].
pub struct ExchangeView {
    pub interactive: bool,
    pub stream: bool,
    pub session_id: Option<Seq<char>>,
    pub buffer: Seq<char>,
    pub final_message: Seq<char>,
    pub phase: Phase,
}

/// The model of an [`Event`].
pub enum EventView {
    SendFailed(Seq<char>),
    Responded(u16),
    ErrorText(Option<Seq<char>>),
    Body(ResponseView),
    BodyFailed(Seq<char>),
    Chunk(Seq<u8>),
    ChunkFailed(Seq<char>),
    StreamEnded,
    Parsed(Seq<Option<StreamEventView>>),
}

/// The model of an [`Action`].
pub enum ActionView {
    Send(PostView),
    ReadErrorText,
    ReadBody,
    ReadChunk,
    ParseEvents(Seq<Seq<char>>),
    Succeed,
    Fail(ErrorView),
}

/// The model of a [`Step`].
pub struct StepView {
    pub outputs: Seq<OutputView>,
    pub action: ActionView,
}

impl View for Exchange {
    type V = ExchangeView;

    open spec fn view(&self) -> ExchangeView {
        ExchangeView {
            interactive: self.interactive,
            stream: self.stream,
            session_id: self.session_id.deep_view(),
            buffer: self.buffer@,
            final_message: self.final_message@,
            phase: self.phase,
        }
    }
}

impl View for Event {
    type V = EventView;

    open spec fn view(&self) -> EventView {
        match self {
            Event::SendFailed(detail) => EventView::SendFailed(detail@),
            Event::Responded(code) => EventView::Responded(*code),
            Event::ErrorText(said) => EventView::ErrorText(said.deep_view()),
            Event::Body(response) => EventView::Body(response@),
            Event::BodyFailed(detail) => EventView::BodyFailed(detail@),
            Event::Chunk(bytes) => EventView::Chunk(bytes@),
            Event::ChunkFailed(detail) => EventView::ChunkFailed(detail@),
            Event::StreamEnded => EventView::StreamEnded,
            Event::Parsed(events) => EventView::Parsed(events.deep_view()),
        }
    }
}

impl View for Action {
    type V = ActionView;

    open spec fn view(&self) -> ActionView {
        match self {
            Action::Send(post) => ActionView::Send(post@),
            Action::ReadErrorText => ActionView::ReadErrorText,
            Action::ReadBody => ActionView::ReadBody,
            Action::ReadChunk => ActionView::ReadChunk,
            Action::ParseEvents(payloads) => ActionView::ParseEvents(payloads.deep_view()),
            Action::Succeed => ActionView::Succeed,
            Action::Fail(error) => ActionView::Fail(error@),
        }
    }
}

impl View for Step {
    type V = StepView;

    open spec fn view(&self) -> StepView {
        StepView { outputs: self.outputs.deep_view(), action: self.action@ }
    }
}

/// An empty line.
pub open spec fn blank_line() -> Seq<OutputView> {
    seq![OutputView::Line(Seq::empty())]
}

/// An error as it is shown.
pub open spec fn error_line(text: Seq<char>) -> OutputView {
    OutputView::Error("\x1b[1;31mError: "@ + text + "\x1b[0m"@)
}

/// The message that an event brings: a response is one, or has one.
pub open spec fn event_message(event: StreamEventView) -> Option<Seq<char>> {
    if event.event == "response"@ {
        match event.data.text() {
            Some(message) => Some(message),
            None => event.data.text_member("message"@),
        }
    } else {
        None
    }
}

/// The error that an event brings: a response without a message can have one.
pub open spec fn event_error(event: StreamEventView) -> Option<Seq<char>> {
    if event.event == "response"@ && event_message(event) is None {
        event.data.text_member("error"@)
    } else {
        None
    }
}

/// The session that an event names, whatever its kind.
pub open spec fn event_session(event: StreamEventView) -> Option<Seq<char>> {
    event.data.text_member("session_id"@)
}

impl ExchangeView {
    /// Whether `event` can come of what this exchange waits for.
    pub open spec fn awaits(self, event: EventView) -> bool {
        match (self.phase, event) {
            (Phase::Sending, EventView::SendFailed(_)) => true,
            (Phase::Sending, EventView::Responded(code)) => is_status(code),
            (Phase::Refused(code), EventView::ErrorText(_)) => is_status(code),
            (Phase::ReadingBody, EventView::Body(_)) => true,
            (Phase::ReadingBody, EventView::BodyFailed(_)) => true,
            (Phase::Streaming, EventView::Chunk(_)) => true,
            (Phase::Streaming, EventView::ChunkFailed(_)) => true,
            (Phase::Streaming, EventView::StreamEnded) => true,
            (Phase::Parsing, EventView::Parsed(_)) => true,
            _ => false,
        }
    }

    /// What holds of every exchange: the line that has not ended yet holds no line end, a
    /// refusal has a status that says so, and only a streamed answer comes in chunks.
    pub open spec fn well_formed(self) -> bool {
        &&& forall|i: int| 0 <= i < self.buffer.len() ==> self.buffer[i] != '\n'
        &&& match self.phase {
            Phase::Refused(code) => is_status(code) && !is_success_status(code),
            Phase::ReadingBody => !self.stream,
            Phase::Streaming => self.stream,
            Phase::Parsing => self.stream,
            _ => true,
        }
    }

    /// This exchange in another phase.
    pub open spec fn in_phase(self, phase: Phase) -> ExchangeView {
        ExchangeView { phase, ..self }
    }

    /// This exchange once `session_id` was heard of: an interactive chat keeps the first one.
    pub open spec fn hearing_of(self, session_id: Option<Seq<char>>) -> ExchangeView {
        if self.interactive && self.session_id is None {
            ExchangeView { session_id, ..self }
        } else {
            self
        }
    }

    /// This exchange after an event of the stream.
    pub open spec fn after_event(self, event: StreamEventView) -> ExchangeView {
        let heard = self.hearing_of(event_session(event));
        match event_message(event) {
            Some(message) => ExchangeView { final_message: message, ..heard },
            None => heard,
        }
    }

    /// This exchange after several events of the stream. What is no event changes nothing.
    pub open spec fn after_events(self, events: Seq<Option<StreamEventView>>) -> ExchangeView
        decreases events.len(),
    {
        if events.len() == 0 {
            self
        } else {
            let before = self.after_events(events.drop_last());
            match events.last() {
                Some(event) => before.after_event(event),
                None => before,
            }
        }
    }
}

impl ChatCommand {
    /// What this command shows of an event of the stream, an error of the bot included.
    pub open spec fn event_outputs(self, event: StreamEventView) -> Seq<OutputView> {
        self.shown_event(event) + (match event_error(event) {
            Some(text) => seq![error_line(text)],
            None => seq![],
        })
    }

    /// What this command shows of several events of the stream.
    pub open spec fn events_outputs(self, events: Seq<Option<StreamEventView>>) -> Seq<OutputView>
        decreases events.len(),
    {
        if events.len() == 0 {
            seq![]
        } else {
            self.events_outputs(events.drop_last()) + (match events.last() {
                Some(event) => self.event_outputs(event),
                None => seq![],
            })
        }
    }

    /// What this command shows of an answer that came as a whole.
    pub open spec fn answer_outputs(
        self,
        interactive: bool,
        response: ResponseView,
    ) -> Seq<OutputView> {
        if interactive {
            self.shown_events(response.events) + blank_line() + self.shown_response(
                response.message,
            ) + blank_line()
        } else {
            self.shown_events(response.events) + self.shown_response(response.message)
        }
    }

    /// What this command shows at the end of a streamed answer: its message, if it had one.
    pub open spec fn stream_end_outputs(
        self,
        interactive: bool,
        final_message: Seq<char>,
    ) -> Seq<OutputView> {
        (if final_message.len() > 0 {
            blank_line() + self.shown_response(final_message)
        } else {
            seq![]
        }) + (if interactive {
            blank_line()
        } else {
            seq![]
        })
    }

    /// The exchange that begins when a message is sent.
    pub open spec fn new_exchange(
        self,
        interactive: bool,
        session_id: Option<Seq<char>>,
    ) -> ExchangeView {
        ExchangeView {
            interactive,
            stream: self.stream,
            session_id,
            buffer: Seq::empty(),
            final_message: Seq::empty(),
            phase: Phase::Sending,
        }
    }

    /// How an exchange begins: the overrides are told of, and the request is sent.
    pub open spec fn first_step(
        self,
        message: Seq<char>,
        session_id: Option<Seq<char>>,
        auth: AuthView,
    ) -> StepView {
        let post = self.post(message, session_id, self.stream, auth);
        StepView {
            outputs: match post.body.override_notice() {
                Some(notice) => seq![OutputView::Error(notice)],
                None => seq![],
            },
            action: ActionView::Send(post),
        }
    }

    /// How an exchange goes on after an event: what it is then, what is shown, and what is next.
    pub open spec fn step(self, exchange: ExchangeView, event: EventView) -> (
        ExchangeView,
        StepView,
    ) {
        let done = exchange.in_phase(Phase::Done);
        match event {
            EventView::SendFailed(detail) => (
                done,
                failing(ErrorView::Network("Failed to send request: "@ + detail)),
            ),
            EventView::Responded(code) => if !is_success_status(code) {
                (exchange.in_phase(Phase::Refused(code)), silently(ActionView::ReadErrorText))
            } else if exchange.stream {
                (exchange.in_phase(Phase::Streaming), silently(ActionView::ReadChunk))
            } else {
                (exchange.in_phase(Phase::ReadingBody), silently(ActionView::ReadBody))
            },
            EventView::ErrorText(said) => (
                done,
                failing(
                    refusal(
                        exchange.phase->Refused_0,
                        match said {
                            Some(text) => text,
                            None => Seq::empty(),
                        },
                    ),
                ),
            ),
            EventView::Body(response) => (
                done.hearing_of(Some(response.session_id)),
                StepView {
                    outputs: self.answer_outputs(exchange.interactive, response),
                    action: ActionView::Succeed,
                },
            ),
            EventView::BodyFailed(detail) => (
                done,
                failing(ErrorView::Parse("Failed to parse response: "@ + detail)),
            ),
            EventView::Chunk(bytes) => {
                let text = exchange.buffer + chunk_text(bytes);
                (
                    ExchangeView { buffer: rest_of(text), phase: Phase::Parsing, ..exchange },
                    silently(ActionView::ParseEvents(payloads_of(lines_of(text)))),
                )
            },
            EventView::ChunkFailed(detail) => (
                done,
                failing(ErrorView::Network("Stream error: "@ + detail)),
            ),
            EventView::StreamEnded => (
                done,
                StepView {
                    outputs: self.stream_end_outputs(exchange.interactive, exchange.final_message),
                    action: ActionView::Succeed,
                },
            ),
            EventView::Parsed(events) => (
                exchange.after_events(events).in_phase(Phase::Streaming),
                StepView {
                    outputs: self.events_outputs(events),
                    action: ActionView::ReadChunk,
                },
            ),
        }
    }
}

/// A step that shows nothing.
pub open spec fn silently(action: ActionView) -> StepView {
    StepView { outputs: seq![], action }
}

/// A step that ends an exchange with an error.
pub open spec fn failing(error: ErrorView) -> StepView {
    silently(ActionView::Fail(error))
}

/// Adds outputs at the end of others.
fn extend(outputs: &mut Vec<Output>, more: Vec<Output>)
    ensures
        final(outputs).deep_view() == old(outputs).deep_view() + more.deep_view(),
{
    let mut more = more;
    let ghost added = more.deep_view();
    outputs.append(&mut more);
    assert(outputs.deep_view() =~= old(outputs).deep_view() + added);
}

/// Adds an empty line at the end of outputs.
fn push_blank_line(outputs: &mut Vec<Output>)
    ensures
        final(outputs).deep_view() == old(outputs).deep_view() + blank_line(),
{
    outputs.push(Output::Line(String::new()));
    assert(outputs.deep_view() =~= old(outputs).deep_view() + blank_line());
}

/// An error as it is shown.
pub fn render_error(text: &str) -> (r: Output)
    ensures
        r@ == error_line(text@),
{
    let mut line = "\x1b[1;31mError: ".to_owned();
    line.append(text);
    line.append("\x1b[0m");
    Output::Error(line)
}

/// A step that shows nothing.
fn silent(action: Action) -> (r: Step)
    ensures
        r@ == silently(action@),
{
    let outputs: Vec<Output> = Vec::new();
    assert(outputs.deep_view() =~= seq![]);
    Step { outputs, action }
}

/// The text member `key` of a JSON object.
fn text_member<'a>(value: &'a JsonValue, key: &str) -> (r: Option<&'a str>)
    ensures
        r.deep_view() == value@.text_member(key@),
{
    match value.get(key) {
        Some(member) => member.as_str(),
        None => None,
    }
}

impl Exchange {
    /// Whether `event` can come of what this exchange waits for.
    pub fn awaits(&self, event: &Event) -> (r: bool)
        ensures
            r == self@.awaits(event@),
    {
        match (self.phase, event) {
            (Phase::Sending, Event::SendFailed(_)) => true,
            (Phase::Sending, Event::Responded(code)) => 100 <= *code && *code <= 999,
            (Phase::Refused(code), Event::ErrorText(_)) => 100 <= code && code <= 999,
            (Phase::ReadingBody, Event::Body(_)) => true,
            (Phase::ReadingBody, Event::BodyFailed(_)) => true,
            (Phase::Streaming, Event::Chunk(_)) => true,
            (Phase::Streaming, Event::ChunkFailed(_)) => true,
            (Phase::Streaming, Event::StreamEnded) => true,
            (Phase::Parsing, Event::Parsed(_)) => true,
            _ => false,
        }
    }

    /// Takes note of an event of the stream.
    fn take_event(&mut self, event: &ChatStreamEvent)
        ensures
            final(self)@ == old(self)@.after_event(event@),
    {
        if self.interactive && self.session_id.is_none() {
            if let Some(session_id) = text_member(&event.data, "session_id") {
                self.session_id = Some(session_id.to_owned());
            }
        }
        if same_text(event.event.as_str(), "response") {
            if let Some(message) = event.data.as_str() {
                self.final_message = message.to_owned();
            } else if let Some(message) = text_member(&event.data, "message") {
                self.final_message = message.to_owned();
            }
        }
    }
}

impl ChatCommand {
    /// What is shown of an event of the stream, an error of the bot included.
    fn render_event(&self, event: &ChatStreamEvent) -> (r: Vec<Output>)
        ensures
            r.deep_view() == self.event_outputs(event@),
    {
        let mut outputs = self.render_stream_event(event);
        if same_text(event.event.as_str(), "response") && event.data.as_str().is_none()
            && text_member(&event.data, "message").is_none() {
            if let Some(text) = text_member(&event.data, "error") {
                outputs.push(render_error(text));
            }
        }
        assert(outputs.deep_view() =~= self.event_outputs(event@));
        outputs
    }

    /// Takes note of several events of the stream, and tells what is shown of them.
    fn take_events(
        &self,
        exchange: &mut Exchange,
        events: &Vec<Option<ChatStreamEvent>>,
    ) -> (r: Vec<Output>)
        ensures
            final(exchange)@ == old(exchange)@.after_events(events.deep_view()),
            r.deep_view() == self.events_outputs(events.deep_view()),
    {
        let mut outputs: Vec<Output> = Vec::new();
        let mut i: usize = 0;
        let ghost all = events.deep_view();
        assert(outputs.deep_view() =~= seq![]);
        while i < events.len()
            invariant
                i <= events@.len(),
                all == events.deep_view(),
                exchange@ == old(exchange)@.after_events(all.take(i as int)),
                outputs.deep_view() == self.events_outputs(all.take(i as int)),
            decreases events@.len() - i,
        {
            assert(all.take(i + 1).drop_last() =~= all.take(i as int));
            let ghost shown = outputs.deep_view();
            match &events[i] {
                Some(event) => {
                    exchange.take_event(event);
                    extend(&mut outputs, self.render_event(event));
                },
                None => {
                    assert(shown + seq![] =~= shown);
                },
            }
            i = i + 1;
        }
        assert(all.take(i as int) =~= all);
        outputs
    }

    /// What is shown of an answer that came as a whole.
    fn render_answer(&self, interactive: bool, response: &ChatResponse) -> (r: Vec<Output>)
        ensures
            r.deep_view() == self.answer_outputs(interactive, response@),
    {
        let mut outputs = self.render_events(&response.events);
        if interactive {
            push_blank_line(&mut outputs);
        }
        extend(&mut outputs, self.render_response(response.message.as_str()));
        if interactive {
            push_blank_line(&mut outputs);
        }
        outputs
    }

    /// What is shown at the end of a streamed answer.
    fn render_stream_end(&self, interactive: bool, final_message: &str) -> (r: Vec<Output>)
        ensures
            r.deep_view() == self.stream_end_outputs(interactive, final_message@),
    {
        let mut outputs: Vec<Output> = Vec::new();
        if !final_message.is_empty() {
            push_blank_line(&mut outputs);
            extend(&mut outputs, self.render_response(final_message));
        }
        if interactive {
            push_blank_line(&mut outputs);
        }
        assert(outputs.deep_view() =~= self.stream_end_outputs(interactive, final_message@));
        outputs
    }

    /// Begins an exchange.
    fn begin(
        &self,
        message: String,
        interactive: bool,
        session_id: Option<String>,
        auth: &ChatAuth,
    ) -> (r: (Exchange, Step))
        ensures
            r.0@ == self.new_exchange(interactive, session_id.deep_view()),
            r.1@ == self.first_step(message@, session_id.deep_view(), auth@),
    {
        let post = self.build_post(message, session_id.clone(), self.stream, auth);
        let mut outputs: Vec<Output> = Vec::new();
        if let Some(notice) = post.body.override_notice() {
            outputs.push(Output::Error(notice));
        }
        let exchange = Exchange {
            interactive,
            stream: self.stream,
            session_id,
            buffer: String::new(),
            final_message: String::new(),
            phase: Phase::Sending,
        };
        let step = Step { outputs, action: Action::Send(post) };
        assert(step@.outputs =~= self.first_step(
            message@,
            session_id.deep_view(),
            auth@,
        ).outputs);
        (exchange, step)
    }

    /// Begins to send a single message, in the session that the command names.
    pub fn send_message(&self, message: &str, auth: &ChatAuth) -> (r: (Exchange, Step))
        ensures
            r.0@ == self.new_exchange(false, self.session.deep_view()),
            r.0@.well_formed(),
            r.1@ == self.first_step(message@, self.session.deep_view(), auth@),
    {
        self.begin(message.to_owned(), false, self.session.clone(), auth)
    }

    /// Begins to send a message of an interactive chat, in the session of that chat.
    pub fn send_interactive_message(
        &self,
        input: &str,
        session_id: &Option<String>,
        auth: &ChatAuth,
    ) -> (r: (Exchange, Step))
        ensures
            r.0@ == self.new_exchange(true, session_id.deep_view()),
            r.0@.well_formed(),
            r.1@ == self.first_step(input@, session_id.deep_view(), auth@),
    {
        self.begin(input.to_owned(), true, session_id.clone(), auth)
    }

    /// Takes an exchange on after an event that it waits for.
    pub fn advance(&self, exchange: &mut Exchange, event: Event) -> (r: Step)
        requires
            old(exchange)@.awaits(event@),
        ensures
            (final(exchange)@, r@) == self.step(old(exchange)@, event@),
            old(exchange)@.well_formed() ==> final(exchange)@.well_formed(),
    {
        proof {
            if exchange@.well_formed() {
                law_well_formed_is_kept(*self, exchange@, event@);
            }
        }
        match event {
            Event::SendFailed(detail) => {
                exchange.phase = Phase::Done;
                silent(Action::Fail(Error::not_sent(detail.as_str())))
            },
            Event::Responded(code) => {
                if !is_success(code) {
                    exchange.phase = Phase::Refused(code);
                    silent(Action::ReadErrorText)
                } else if exchange.stream {
                    exchange.phase = Phase::Streaming;
                    silent(Action::ReadChunk)
                } else {
                    exchange.phase = Phase::ReadingBody;
                    silent(Action::ReadBody)
                }
            },
            Event::ErrorText(said) => {
                let code: u16 = match exchange.phase {
                    Phase::Refused(code) => code,
                    _ => 0,
                };
                let text = match said {
                    Some(text) => text,
                    None => String::new(),
                };
                exchange.phase = Phase::Done;
                silent(Action::Fail(Error::refused(code, text.as_str())))
            },
            Event::Body(response) => {
                let outputs = self.render_answer(exchange.interactive, &response);
                if exchange.interactive && exchange.session_id.is_none() {
                    exchange.session_id = Some(response.session_id);
                }
                exchange.phase = Phase::Done;
                Step { outputs, action: Action::Succeed }
            },
            Event::BodyFailed(detail) => {
                exchange.phase = Phase::Done;
                silent(Action::Fail(Error::not_parsed(detail.as_str())))
            },
            Event::Chunk(bytes) => {
                let text = decode_chunk(bytes.as_slice());
                let payloads = take_payloads(&mut exchange.buffer, text.as_str());
                exchange.phase = Phase::Parsing;
                silent(Action::ParseEvents(payloads))
            },
            Event::ChunkFailed(detail) => {
                exchange.phase = Phase::Done;
                silent(Action::Fail(Error::stream_broke(detail.as_str())))
            },
            Event::StreamEnded => {
                let outputs = self.render_stream_end(
                    exchange.interactive,
                    exchange.final_message.as_str(),
                );
                exchange.phase = Phase::Done;
                Step { outputs, action: Action::Succeed }
            },
            Event::Parsed(events) => {
                let outputs = self.take_events(exchange, &events);
                exchange.phase = Phase::Streaming;
                Step { outputs, action: Action::ReadChunk }
            },
        }
    }
}

} // verus!
