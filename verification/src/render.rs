//! What the user sees of an answer.

use crate::command::ChatCommand;
use crate::json::{Json, JsonValue};
use crate::protocol::{ChatStreamEvent, StreamEventView};
use crate::text::{find_char, find_spec, law_truncate, same_text, truncate_spec, truncate_utf8, utf8_len};
use vstd::prelude::*;
use vstd::string::*;

verus! {

/// Something to show.
#[derive(Debug, PartialEq, Eq)]
pub enum Output {
    /// A line on standard output.
    Line(String),
    /// A line on standard error.
    Error(String),
    /// Markdown, rendered to standard output.
    Markdown(String),
}

/// The model of an [`Output`].
pub enum OutputView {
    Line(Seq<char>),
    Error(Seq<char>),
    Markdown(Seq<char>),
}

impl View for Output {
    type V = OutputView;

    open spec fn view(&self) -> OutputView {
        match self {
            Output::Line(s) => OutputView::Line(s@),
            Output::Error(s) => OutputView::Error(s@),
            Output::Markdown(s) => OutputView::Markdown(s@),
        }
    }
}

impl DeepView for Output {
    type V = OutputView;

    open spec fn deep_view(&self) -> OutputView {
        self@
    }
}

/// How much of a thought is shown, in bytes.
pub const THOUGHT_LIMIT: usize = 200;

/// How much of the result of a tool is shown, in bytes.
pub const RESULT_LIMIT: usize = 300;

/// The line for a thought.
pub open spec fn thought_line(content: Seq<char>) -> Seq<char> {
    "  \x1b[2mThink: "@ + truncate_spec(content, THOUGHT_LIMIT as nat) + "...\x1b[0m"@
}

/// The line for the call of a tool: its name in bold and its arguments dimmed, where a
/// parenthesis tells them apart.
pub open spec fn tool_call_line(content: Seq<char>) -> Seq<char> {
    match find_spec(content, '(') {
        Some(i) => "  \x1b[2m├─ Calling: \x1b[0m\x1b[1m"@ + content.take(i) + "\x1b[0m\x1b[2m"@
            + content.skip(i) + "\x1b[0m"@,
        None => "  \x1b[2m├─ Calling: "@ + content + "\x1b[0m"@,
    }
}

/// The line for the result of a tool.
pub open spec fn tool_result_line(content: Seq<char>) -> Seq<char> {
    "  \x1b[2m└─ Result: "@ + content + "\x1b[0m"@
}

/// The result of a tool, cut short where it is too long.
pub open spec fn shortened_result(content: Seq<char>) -> Seq<char> {
    if utf8_len(content) > RESULT_LIMIT {
        truncate_spec(content, RESULT_LIMIT as nat) + "..."@
    } else {
        content
    }
}

/// What is shown of a step of the bot's work: a thought, the call of a tool or its result, and
/// nothing of any other kind.
pub open spec fn step_output(kind: Seq<char>, content: Seq<char>) -> Seq<OutputView> {
    if kind == "reasoning"@ {
        seq![OutputView::Line(thought_line(content))]
    } else if kind == "tool_call"@ {
        seq![OutputView::Line(tool_call_line(content))]
    } else if kind == "tool_result"@ {
        seq![OutputView::Line(tool_result_line(shortened_result(content)))]
    } else {
        seq![]
    }
}

/// What is shown of an event of a streamed answer: only what comes as a text.
pub open spec fn stream_event_output(event: StreamEventView) -> Seq<OutputView> {
    match event.data.text() {
        Some(content) => step_output(event.event, content),
        None => seq![],
    }
}

/// What is shown of a recorded event: one without a kind or without data is passed over, and data
/// that is no text counts as an empty one.
pub open spec fn recorded_event_output(event: Json) -> Seq<OutputView> {
    match (event.text_member("type"@), event.member("data"@)) {
        (Some(kind), Some(data)) => step_output(
            kind,
            match data.text() {
                Some(content) => content,
                None => Seq::empty(),
            },
        ),
        _ => seq![],
    }
}

/// What is shown of recorded events, one after the other.
pub open spec fn recorded_events_output(events: Seq<Json>) -> Seq<OutputView>
    decreases events.len(),
{
    if events.len() == 0 {
        seq![]
    } else {
        recorded_events_output(events.drop_last()) + recorded_event_output(events.last())
    }
}

impl ChatCommand {
    /// What this command shows of an event of a streamed answer.
    pub open spec fn shown_event(self, event: StreamEventView) -> Seq<OutputView> {
        if self.no_format {
            seq![]
        } else {
            stream_event_output(event)
        }
    }

    /// What this command shows of the events that come with an answer.
    pub open spec fn shown_events(self, events: Option<Seq<Json>>) -> Seq<OutputView> {
        match events {
            Some(list) if !self.no_format => recorded_events_output(list),
            _ => seq![],
        }
    }

    /// What this command shows of the final message of an answer.
    pub open spec fn shown_response(self, message: Seq<char>) -> Seq<OutputView> {
        if self.no_format {
            seq![OutputView::Line(message)]
        } else {
            seq![OutputView::Line("\x1b[1;31mBot:\x1b[0m"@), OutputView::Markdown(message)]
        }
    }
}

/// The line for the call of a tool.
fn render_tool_call(content: &str) -> (r: String)
    ensures
        r@ == tool_call_line(content@),
{
    match find_char(content, '(') {
        Some(i) => {
            let n: usize = content.unicode_len();
            let name = content.substring_char(0, i);
            let args = content.substring_char(i, n);
            assert(name@ =~= content@.take(i as int));
            assert(args@ =~= content@.skip(i as int));
            let mut line = "  \x1b[2m├─ Calling: \x1b[0m\x1b[1m".to_owned();
            line.append(name);
            line.append("\x1b[0m\x1b[2m");
            line.append(args);
            line.append("\x1b[0m");
            line
        },
        None => {
            let mut line = "  \x1b[2m├─ Calling: ".to_owned();
            line.append(content);
            line.append("\x1b[0m");
            line
        },
    }
}

/// The line for the result of a tool.
fn render_tool_result(content: &str) -> (r: String)
    ensures
        r@ == tool_result_line(content@),
{
    let mut line = "  \x1b[2m└─ Result: ".to_owned();
    line.append(content);
    line.append("\x1b[0m");
    line
}

/// The line for a thought.
fn render_thought(content: &str) -> (r: String)
    ensures
        r@ == thought_line(content@),
{
    let mut line = "  \x1b[2mThink: ".to_owned();
    line.append(truncate_utf8(content, THOUGHT_LIMIT));
    line.append("...\x1b[0m");
    line
}

/// The result of a tool, cut short where it is too long.
fn shorten_result(content: &str) -> (r: String)
    ensures
        r@ == shortened_result(content@),
{
    let kept = truncate_utf8(content, RESULT_LIMIT);
    proof {
        law_truncate(content@, RESULT_LIMIT as nat);
        assert(content@.take(content@.len() as int) =~= content@);
    }
    if kept.unicode_len() < content.unicode_len() {
        kept.to_owned().concat("...")
    } else {
        content.to_owned()
    }
}

/// Adds what is shown of a step of the bot's work to `shown`.
fn render_step(kind: &str, content: &str, shown: &mut Vec<Output>)
    ensures
        final(shown).deep_view() == old(shown).deep_view() + step_output(kind@, content@),
{
    if same_text(kind, "reasoning") {
        shown.push(Output::Line(render_thought(content)));
    } else if same_text(kind, "tool_call") {
        shown.push(Output::Line(render_tool_call(content)));
    } else if same_text(kind, "tool_result") {
        shown.push(Output::Line(render_tool_result(shorten_result(content).as_str())));
    }
    assert(shown.deep_view() =~= old(shown).deep_view() + step_output(kind@, content@));
}

/// Adds what is shown of a recorded event to `shown`.
fn render_recorded_event(event: &JsonValue, shown: &mut Vec<Output>)
    ensures
        final(shown).deep_view() == old(shown).deep_view() + recorded_event_output(event@),
{
    if let (Some(kind), Some(data)) = (event.get("type"), event.get("data")) {
        if let Some(kind) = kind.as_str() {
            match data.as_str() {
                Some(content) => render_step(kind, content, shown),
                None => {
                    let nothing = String::new();
                    render_step(kind, nothing.as_str(), shown)
                },
            }
        }
    }
    assert(shown.deep_view() =~= old(shown).deep_view() + recorded_event_output(event@));
}

impl ChatCommand {
    /// What is shown of an event of a streamed answer as it arrives.
    pub fn render_stream_event(&self, event: &ChatStreamEvent) -> (r: Vec<Output>)
        ensures
            r.deep_view() == self.shown_event(event@),
    {
        let mut shown: Vec<Output> = Vec::new();
        if !self.no_format {
            if let Some(content) = event.data.as_str() {
                render_step(event.event.as_str(), content, &mut shown);
            }
        }
        assert(shown.deep_view() =~= self.shown_event(event@));
        shown
    }

    /// What is shown of the events that come with an answer that was not streamed.
    pub fn render_events(&self, events: &Option<Vec<JsonValue>>) -> (r: Vec<Output>)
        ensures
            r.deep_view() == self.shown_events(events.deep_view()),
    {
        let mut shown: Vec<Output> = Vec::new();
        if self.no_format {
            assert(shown.deep_view() =~= self.shown_events(events.deep_view()));
            return shown;
        }
        if let Some(list) = events {
            let mut i: usize = 0;
            assert(shown.deep_view() =~= recorded_events_output(list.deep_view().take(0)));
            while i < list.len()
                invariant
                    i <= list@.len(),
                    shown.deep_view() == recorded_events_output(list.deep_view().take(i as int)),
                decreases list@.len() - i,
            {
                render_recorded_event(&list[i], &mut shown);
                assert(list.deep_view().take(i + 1).drop_last() =~= list.deep_view().take(
                    i as int,
                ));
                i = i + 1;
            }
            assert(list.deep_view().take(i as int) =~= list.deep_view());
        }
        assert(shown.deep_view() =~= self.shown_events(events.deep_view()));
        shown
    }

    /// What is shown of the final message of an answer.
    pub fn render_response(&self, message: &str) -> (r: Vec<Output>)
        ensures
            r.deep_view() == self.shown_response(message@),
    {
        let mut shown: Vec<Output> = Vec::new();
        if self.no_format {
            shown.push(Output::Line(message.to_owned()));
        } else {
            shown.push(Output::Line("\x1b[1;31mBot:\x1b[0m".to_owned()));
            shown.push(Output::Markdown(message.to_owned()));
        }
        assert(shown.deep_view() =~= self.shown_response(message@));
        shown
    }
}

} // verus!
