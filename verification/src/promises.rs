//! What each operation does for its user, told of what goes in and what comes out.

use crate::command::{
    auth_headers, nonblank, AuthView, ChatCommand, ChatMessageView, ChatRequestView, Config,
    RuntimeLlmView,
};
use crate::error::{status_text, ErrorView};
use crate::exchange::{ActionView, EventView, ExchangeView, Phase};
use crate::interactive::{is_exit, LaunchView, NextView, TurnEventView, TurnView};
use crate::json::{holds_text, law_member, law_text_member, Json};
use crate::laws::{law_overrides_read_back, law_request_reads_back};
use crate::protocol::{ResponseView, StreamEventView};
use crate::render::{recorded_events_output, OutputView};
use crate::sse::{
    carries, chunk_text, law_first_line, law_payload, law_payloads_in_parts, law_unfinished_text,
    lines_of, payload_of, payloads_of,
};
use crate::text::{
    all_white, is_core, law_core_or_white, law_find, law_ignoring_ascii_case,
    law_trim_around, law_truncate_between,
};
use vstd::prelude::*;
use vstd::utf8::*;

verus! {

// Credentials.

/// Each credential comes from the command line where it is given there, whatever the
/// configuration says, and from the configuration otherwise. Each is settled by itself.
pub proof fn law_command_line_first(cmd: ChatCommand, config: Config)
    ensures
        ({
            let auth = cmd.auth_with(config);
            &&& cmd.api_key is Some ==> auth.api_key == Some(cmd.api_key->0@)
            &&& cmd.api_key is None && config.api_key is Some ==> auth.api_key == Some(
                config.api_key->0@,
            )
            &&& cmd.api_key is None && config.api_key is None ==> auth.api_key is None
            &&& cmd.account is Some ==> auth.account == Some(cmd.account->0@)
            &&& cmd.account is None && config.account is Some ==> auth.account == Some(
                config.account->0@,
            )
            &&& cmd.account is None && config.account is None ==> auth.account is None
            &&& cmd.user is Some ==> auth.user == Some(cmd.user->0@)
            &&& cmd.user is None && config.user is Some ==> auth.user == Some(config.user->0@)
            &&& cmd.user is None && config.user is None ==> auth.user is None
        }),
{
}

/// How many of three are given.
pub open spec fn given(auth: AuthView) -> int {
    (if auth.api_key is Some {
        1int
    } else {
        0
    }) + (if auth.account is Some {
        1int
    } else {
        0
    }) + (if auth.user is Some {
        1int
    } else {
        0
    })
}

/// Whether headers carry credentials: every one that is known under its own name, the key first
/// and the user last, and nothing else.
pub open spec fn carry_credentials(headers: Seq<(Seq<char>, Seq<char>)>, auth: AuthView) -> bool {
    &&& headers.len() == given(auth)
    &&& auth.api_key is Some ==> headers[0] == ("X-API-Key"@, auth.api_key->0)
    &&& auth.account is Some ==> headers.contains(("X-OpenViking-Account"@, auth.account->0))
    &&& auth.user is Some ==> headers[headers.len() - 1] == ("X-OpenViking-User"@, auth.user->0)
}

/// The headers of every request carry its credentials.
pub proof fn law_headers_carry_credentials(
    cmd: ChatCommand,
    message: Seq<char>,
    session_id: Option<Seq<char>>,
    stream: bool,
    auth: AuthView,
)
    ensures
        carry_credentials(auth_headers(auth), auth),
        carry_credentials(cmd.post(message, session_id, stream, auth).headers, auth),
{
    let headers = auth_headers(auth);
    if auth.account is Some {
        let i: int = if auth.api_key is Some {
            1
        } else {
            0
        };
        assert(headers[i] == ("X-OpenViking-Account"@, auth.account->0));
    }
}

// Requests.

/// Whether `result` is what an optional text gives: the text without the white space around it,
/// or nothing where there is no text or nothing but white space in it.
pub open spec fn is_given_as(field: Option<Seq<char>>, result: Option<Seq<char>>) -> bool {
    match result {
        Some(core) => {
            &&& is_core(core)
            &&& field is Some
            &&& exists|before: Seq<char>, after: Seq<char>|
                #![trigger all_white(before), all_white(after)]
                all_white(before) && all_white(after) && field->0 == before + core + after
        },
        None => field is None || all_white(field->0),
    }
}

proof fn lemma_nonblank(field: Option<Seq<char>>)
    ensures
        is_given_as(field, nonblank(field)),
{
    if field is Some {
        let (before, core, after) = law_core_or_white(field->0);
        if !all_white(field->0) {
            law_trim_around(before, core, after);
            assert(all_white(before) && all_white(after));
        }
    }
}

/// A request carries what the command was given: the message, the session and the way of
/// answering as they are asked for, the sender as the user, and no context. It carries overrides
/// exactly when the command names a model, and then the model, the provider, the address and the
/// key, each from its own option, without the white space around it, and independently of the
/// others.
pub proof fn law_request_carries_what_was_given(
    cmd: ChatCommand,
    message: Seq<char>,
    session_id: Option<Seq<char>>,
    stream: bool,
)
    ensures
        ({
            let body = cmd.request(message, session_id, stream);
            &&& body.message == message
            &&& body.session_id == session_id
            &&& body.user_id == Some(cmd.sender@)
            &&& body.stream == stream
            &&& body.context is None
            &&& match body.runtime_llm {
                Some(overrides) => {
                    &&& is_given_as(cmd.model.deep_view(), Some(overrides.model))
                    &&& is_given_as(cmd.provider.deep_view(), overrides.provider)
                    &&& is_given_as(cmd.api_base.deep_view(), overrides.api_base)
                    &&& is_given_as(cmd.model_api_key.deep_view(), overrides.api_key)
                },
                None => is_given_as(cmd.model.deep_view(), None),
            }
            &&& cmd.runtime_llm() == body.runtime_llm
        }),
{
    lemma_nonblank(cmd.model.deep_view());
    lemma_nonblank(cmd.provider.deep_view());
    lemma_nonblank(cmd.api_base.deep_view());
    lemma_nonblank(cmd.model_api_key.deep_view());
}

/// A post carries the request that belongs to it, to the address for its way of answering.
pub proof fn law_post(
    cmd: ChatCommand,
    message: Seq<char>,
    session_id: Option<Seq<char>>,
    stream: bool,
    auth: AuthView,
)
    ensures
        ({
            let post = cmd.post(message, session_id, stream, auth);
            &&& post.body == cmd.request(message, session_id, stream)
            &&& post.url == cmd.url(stream)
            &&& stream ==> post.url == cmd.endpoint@ + "/chat/stream"@
            &&& !stream ==> post.url == cmd.endpoint@ + "/chat"@
        }),
{
}

/// The JSON form of a request that a command makes reads back as what the command was given: the
/// message, the session, the sender as the user, the way of answering, and the overrides.
pub proof fn law_request_json_reads_back(
    cmd: ChatCommand,
    message: Seq<char>,
    session_id: Option<Seq<char>>,
    stream: bool,
)
    ensures
        ({
            let json = cmd.request(message, session_id, stream).json();
            &&& holds_text(json, "message"@, message)
            &&& holds_text(json, "user_id"@, cmd.sender@)
            &&& session_id is Some ==> holds_text(json, "session_id"@, session_id->0)
            &&& session_id is None ==> json.member("session_id"@) is None
            &&& json.member("stream"@) == Some(Json::Bool(stream))
            &&& json.member("context"@) is None
            &&& cmd.runtime_llm() matches Some(overrides) ==> json.member("runtime_llm"@) == Some(
                overrides.json(),
            )
            &&& cmd.runtime_llm() is None ==> json.member("runtime_llm"@) is None
        }),
{
    let request = cmd.request(message, session_id, stream);
    law_request_reads_back(request);
    law_text_member(request.json(), "message"@);
    law_text_member(request.json(), "user_id"@);
    law_text_member(request.json(), "session_id"@);
}

/// The JSON form of a request holds a member for each part that is given, and no further one.
pub proof fn law_json_holds_nothing_else(request: ChatRequestView, overrides: RuntimeLlmView)
    ensures
        request.json() matches Json::Object(members) && members.len() == 2 + (
        if request.session_id is Some {
            1int
        } else {
            0
        }) + (if request.user_id is Some {
            1int
        } else {
            0
        }) + (if request.context is Some {
            1int
        } else {
            0
        }) + (if request.runtime_llm is Some {
            1int
        } else {
            0
        }),
        overrides.json() matches Json::Object(members) && members.len() == 1 + (
        if overrides.provider is Some {
            1int
        } else {
            0
        }) + (if overrides.api_base is Some {
            1int
        } else {
            0
        }) + (if overrides.api_key is Some {
            1int
        } else {
            0
        }),
{
}

/// The JSON form of overrides holds each under its own name, in the words of the members.
pub proof fn law_overrides_json_reads_back(overrides: RuntimeLlmView)
    ensures
        holds_text(overrides.json(), "model"@, overrides.model),
        overrides.provider is Some ==> holds_text(
            overrides.json(),
            "provider"@,
            overrides.provider->0,
        ),
        overrides.api_base is Some ==> holds_text(
            overrides.json(),
            "api_base"@,
            overrides.api_base->0,
        ),
        overrides.api_key is Some ==> holds_text(
            overrides.json(),
            "api_key"@,
            overrides.api_key->0,
        ),
{
    law_overrides_read_back(overrides);
    law_text_member(overrides.json(), "model"@);
    law_text_member(overrides.json(), "provider"@);
    law_text_member(overrides.json(), "api_base"@);
    law_text_member(overrides.json(), "api_key"@);
}

/// The JSON form of a message of the context is its role and its content.
pub proof fn law_message_json(message: ChatMessageView)
    ensures
        message.json() == Json::Object(
            seq![
                ("role"@, Json::Text(message.role)),
                ("content"@, Json::Text(message.content)),
            ],
        ),
{
}

/// The notice names the model, the provider and the address as the request carries them, with a
/// word in the place of one that it does not carry, and of the key it tells only whether there is
/// one. A request without overrides has no notice.
pub proof fn law_notice(request: ChatRequestView)
    ensures
        request.runtime_llm is None ==> request.override_notice() is None,
        request.runtime_llm matches Some(o) ==> exists|
            provider: Seq<char>,
            api_base: Seq<char>,
            api_key: Seq<char>,
        |
            request.override_notice() == Some(
                "[ov chat] request-scoped LLM override enabled: provider="@ + provider
                    + ", model="@ + o.model + ", api_base="@ + api_base + ", api_key="@ + api_key,
            ) && #[trigger] notice_words(o, provider, api_base, api_key),
{
    if let Some(o) = request.runtime_llm {
        let provider = if o.provider is Some {
            o.provider->0
        } else {
            "(auto)"@
        };
        let api_base = if o.api_base is Some {
            o.api_base->0
        } else {
            "(default)"@
        };
        let api_key = if o.api_key is Some {
            "set"@
        } else {
            "unset"@
        };
        assert(notice_words(o, provider, api_base, api_key));
    }
}

/// Whether these are the words that a notice has for overrides.
pub open spec fn notice_words(
    o: RuntimeLlmView,
    provider: Seq<char>,
    api_base: Seq<char>,
    api_key: Seq<char>,
) -> bool {
    &&& o.provider is Some ==> provider == o.provider->0
    &&& o.provider is None ==> provider == "(auto)"@
    &&& o.api_base is Some ==> api_base == o.api_base->0
    &&& o.api_base is None ==> api_base == "(default)"@
    &&& o.api_key is Some ==> api_key == "set"@
    &&& o.api_key is None ==> api_key == "unset"@
}

/// An exchange begins with nothing read and nothing said, in the session and the mode that it is
/// begun for. Its first step posts the message with that session, in the way of answering that the
/// command asks for, and shows the notice of the overrides that are posted, if any are.
pub proof fn law_exchange_begins(
    cmd: ChatCommand,
    interactive: bool,
    message: Seq<char>,
    session_id: Option<Seq<char>>,
    auth: AuthView,
)
    ensures
        cmd.new_exchange(interactive, session_id) == (ExchangeView {
            interactive,
            stream: cmd.stream,
            session_id,
            buffer: seq![],
            final_message: seq![],
            phase: Phase::Sending,
        }),
        cmd.first_step(message, session_id, auth).action == ActionView::Send(
            cmd.post(message, session_id, cmd.stream, auth),
        ),
        ({
            let step = cmd.first_step(message, session_id, auth);
            match step.action->Send_0.body.override_notice() {
                Some(notice) => step.outputs == seq![OutputView::Error(notice)],
                None => step.outputs.len() == 0,
            }
        }),
{
    assert(cmd.new_exchange(interactive, session_id).buffer =~= seq![]);
    assert(cmd.new_exchange(interactive, session_id).final_message =~= seq![]);
}

// What is shown.

/// An event of the stream.
pub open spec fn event_of(
    kind: Seq<char>,
    data: Json,
    timestamp: Option<Seq<char>>,
) -> StreamEventView {
    StreamEventView { event: kind, data, timestamp }
}

/// The kinds of events that are shown are all different.
proof fn lemma_kinds_differ()
    ensures
        "reasoning"@ != "tool_call"@,
        "reasoning"@ != "tool_result"@,
        "reasoning"@ != "response"@,
        "tool_call"@ != "tool_result"@,
        "tool_call"@ != "response"@,
        "tool_result"@ != "response"@,
{
    reveal_strlit("reasoning");
    reveal_strlit("tool_call");
    reveal_strlit("tool_result");
    reveal_strlit("response");
    assert("reasoning"@.len() == 9);
    assert("tool_call"@.len() == 9);
    assert("tool_result"@.len() == 11);
    assert("response"@.len() == 8);
    assert("reasoning"@[0] == 'r');
    assert("tool_call"@[0] == 't');
}

/// A thought is shown in one line, with as much of its beginning as fits.
pub proof fn law_thought_is_shown(
    cmd: ChatCommand,
    kept: Seq<char>,
    dropped: Seq<char>,
    timestamp: Option<Seq<char>>,
)
    requires
        !cmd.no_format,
        encode_utf8(kept).len() <= 200,
        dropped.len() > 0 ==> encode_utf8(kept.push(dropped[0])).len() > 200,
    ensures
        cmd.shown_event(event_of("reasoning"@, Json::Text(kept + dropped), timestamp)) == seq![
            OutputView::Line("  \x1b[2mThink: "@ + kept + "...\x1b[0m"@),
        ],
{
    law_truncate_between(kept, dropped, 200);
}

/// The call of a tool is shown in one line: up to the first parenthesis in bold, and from there on
/// dimmed. Without a parenthesis the whole is dimmed.
pub proof fn law_tool_call_is_shown(
    cmd: ChatCommand,
    name: Seq<char>,
    args: Seq<char>,
    timestamp: Option<Seq<char>>,
)
    requires
        !cmd.no_format,
        forall|i: int| 0 <= i < name.len() ==> name[i] != '(',
    ensures
        args.len() > 0 && args[0] == '(' ==> cmd.shown_event(
            event_of("tool_call"@, Json::Text(name + args), timestamp),
        ) == seq![
            OutputView::Line(
                "  \x1b[2m├─ Calling: \x1b[0m\x1b[1m"@ + name + "\x1b[0m\x1b[2m"@ + args
                    + "\x1b[0m"@,
            ),
        ],
        cmd.shown_event(event_of("tool_call"@, Json::Text(name), timestamp)) == seq![
            OutputView::Line("  \x1b[2m├─ Calling: "@ + name + "\x1b[0m"@),
        ],
{
    lemma_kinds_differ();
    law_find(name, '(');
    if args.len() > 0 && args[0] == '(' {
        let content = name + args;
        law_find(content, '(');
        let n = name.len() as int;
        assert(content[n] == '(');
        assert(forall|i: int| 0 <= i < n ==> content[i] == name[i]);
        assert(content.take(n) =~= name);
        assert(content.skip(n) =~= args);
    }
}

/// The result of a tool is shown in one line: whole where it fits, and otherwise as much of its
/// beginning as fits and three dots.
pub proof fn law_tool_result_is_shown(
    cmd: ChatCommand,
    kept: Seq<char>,
    dropped: Seq<char>,
    timestamp: Option<Seq<char>>,
)
    requires
        !cmd.no_format,
        encode_utf8(kept).len() <= 300,
        dropped.len() > 0 ==> encode_utf8(kept.push(dropped[0])).len() > 300,
    ensures
        dropped.len() > 0 ==> cmd.shown_event(
            event_of("tool_result"@, Json::Text(kept + dropped), timestamp),
        ) == seq![OutputView::Line("  \x1b[2m└─ Result: "@ + (kept + "..."@) + "\x1b[0m"@)],
        cmd.shown_event(event_of("tool_result"@, Json::Text(kept), timestamp)) == seq![
            OutputView::Line("  \x1b[2m└─ Result: "@ + kept + "\x1b[0m"@),
        ],
{
    lemma_kinds_differ();
    law_truncate_between(kept, dropped, 300);
}

/// Nothing is shown of an event of another kind, of one whose data is no text, or of any event
/// without formatting.
pub proof fn law_other_events_are_not_shown(cmd: ChatCommand, event: StreamEventView)
    ensures
        cmd.no_format || !(event.data is Text) || (event.event != "reasoning"@ && event.event
            != "tool_call"@ && event.event != "tool_result"@) ==> cmd.shown_event(event).len() == 0,
{
}

/// A recorded event is shown like an event of the stream of the same kind and data, where data
/// that is no text counts as an empty one. One without a kind or without data is not shown.
/// Recorded events are shown one after the other.
pub proof fn law_recorded_events_are_shown(cmd: ChatCommand, events: Seq<Json>, event: Json)
    ensures
        ({
            let before = cmd.shown_events(Some(events));
            let after = cmd.shown_events(Some(events.push(event)));
            &&& forall|kind: Seq<char>, content: Seq<char>|
                #[trigger] holds_text(event, "type"@, kind) && #[trigger] holds_text(
                    event,
                    "data"@,
                    content,
                ) ==> after == before + cmd.shown_event(
                    event_of(kind, Json::Text(content), None),
                )
            &&& forall|kind: Seq<char>|
                #[trigger] holds_text(event, "type"@, kind) && event.member("data"@) is Some
                    && (forall|content: Seq<char>| !holds_text(event, "data"@, content)) ==> after
                    == before + cmd.shown_event(event_of(kind, Json::Text(seq![]), None))
            &&& (forall|kind: Seq<char>| !holds_text(event, "type"@, kind)) || event.member(
                "data"@,
            ) is None ==> after == before
        }),
        cmd.shown_events(Some(seq![])).len() == 0,
        cmd.shown_events(None).len() == 0,
        cmd.no_format ==> cmd.shown_events(Some(events)).len() == 0,
{
    law_text_member(event, "type"@);
    law_text_member(event, "data"@);
    law_member(event, "data"@);
    let before = cmd.shown_events(Some(events));
    let after = cmd.shown_events(Some(events.push(event)));
    assert(events.push(event).drop_last() =~= events);
    assert(before + seq![] =~= before);
    if !cmd.no_format {
        assert(after == recorded_events_output(events.push(event)));
        assert(seq![] =~= Seq::<char>::empty());
    }
}

/// The message of an answer is shown as Markdown under the name of the bot, and without formatting
/// as it stands.
pub proof fn law_response_is_shown(cmd: ChatCommand, message: Seq<char>)
    ensures
        !cmd.no_format ==> cmd.shown_response(message) == seq![
            OutputView::Line("\x1b[1;31mBot:\x1b[0m"@),
            OutputView::Markdown(message),
        ],
        cmd.no_format ==> cmd.shown_response(message) == seq![OutputView::Line(message)],
{
}

/// Whether outputs show the message of an answer.
pub open spec fn show_message(
    cmd: ChatCommand,
    outputs: Seq<OutputView>,
    message: Seq<char>,
) -> bool {
    if cmd.no_format {
        outputs == seq![OutputView::Line(message)]
    } else {
        outputs == seq![
            OutputView::Line("\x1b[1;31mBot:\x1b[0m"@),
            OutputView::Markdown(message),
        ]
    }
}

/// Whether an output is an empty line.
pub open spec fn is_blank(output: OutputView) -> bool {
    output matches OutputView::Line(line) && line.len() == 0
}

// Exchanges.

/// A whole answer shows its events first and its message after all of them, whatever the mode. In
/// a chat the message stands between two empty lines. The exchange is over, and a chat that knew
/// no session is in that of the answer from then on; nothing else changes.
pub proof fn law_whole_answer(cmd: ChatCommand, exchange: ExchangeView, response: ResponseView)
    ensures
        ({
            let (after, step) = cmd.step(exchange, EventView::Body(response));
            let events = cmd.shown_events(response.events);
            let n = events.len() as int;
            let shown = step.outputs.skip(n);
            let last = shown.len() - 1;
            &&& step.action == ActionView::Succeed
            &&& n <= step.outputs.len()
            &&& step.outputs.take(n) == events
            &&& !exchange.interactive ==> show_message(cmd, shown, response.message)
            &&& exchange.interactive ==> shown.len() > 2 && is_blank(shown[0]) && is_blank(
                shown[last],
            ) && show_message(cmd, shown.subrange(1, last), response.message)
            &&& after == (ExchangeView {
                phase: Phase::Done,
                session_id: after.session_id,
                ..exchange
            })
            &&& exchange.interactive && exchange.session_id is None ==> after.session_id == Some(
                response.session_id,
            )
            &&& !exchange.interactive || exchange.session_id is Some ==> after.session_id
                == exchange.session_id
        }),
{
    let outputs = cmd.step(exchange, EventView::Body(response)).1.outputs;
    let n = cmd.shown_events(response.events).len() as int;
    let shown = outputs.skip(n);
    let message = cmd.shown_response(response.message);
    law_response_is_shown(cmd, response.message);
    assert(outputs.take(n) =~= cmd.shown_events(response.events));
    if exchange.interactive {
        assert(shown.len() == message.len() + 2);
        assert(shown[0] == outputs[n]);
        assert(shown.subrange(1, shown.len() - 1) =~= message);
    } else {
        assert(shown =~= message);
    }
}

/// At the end of a stream its message is shown after an empty line, whatever the mode, unless it
/// is empty; a chat shows an empty line after that. The exchange is over, and nothing else changes.
pub proof fn law_end_of_stream(cmd: ChatCommand, exchange: ExchangeView)
    ensures
        ({
            let (after, step) = cmd.step(exchange, EventView::StreamEnded);
            let message = exchange.final_message;
            let n = step.outputs.len() as int;
            let end = if exchange.interactive {
                n - 1
            } else {
                n
            };
            &&& step.action == ActionView::Succeed
            &&& exchange.interactive ==> n > 0 && is_blank(step.outputs[n - 1])
            &&& message.len() == 0 ==> end == 0
            &&& message.len() > 0 ==> end > 1 && is_blank(step.outputs[0]) && show_message(
                cmd,
                step.outputs.subrange(1, end),
                message,
            )
            &&& after == (ExchangeView { phase: Phase::Done, ..exchange })
        }),
{
    let outputs = cmd.step(exchange, EventView::StreamEnded).1.outputs;
    let message = cmd.shown_response(exchange.final_message);
    law_response_is_shown(cmd, exchange.final_message);
    if exchange.final_message.len() > 0 {
        assert(outputs.subrange(1, 1 + message.len() as int) =~= message);
    }
}

/// Whether an event brings the message `message`: it is a response whose data is that text, or an
/// object that holds it.
pub open spec fn brings(event: StreamEventView, message: Seq<char>) -> bool {
    event.event == "response"@ && (event.data == Json::Text(message) || holds_text(
        event.data,
        "message"@,
        message,
    ))
}

/// Whether an event brings the error `text`: it is a response whose data is an object that holds
/// it, and no message.
pub open spec fn complains(event: StreamEventView, text: Seq<char>) -> bool {
    &&& event.event == "response"@
    &&& holds_text(event.data, "error"@, text)
    &&& forall|message: Seq<char>| !holds_text(event.data, "message"@, message)
}

/// What parsing adds event by event: a further event shows what it shows by itself and changes the
/// exchange as it does by itself, and what is no event shows and changes nothing.
///
/// A response sets the message of the answer to the text that it is or holds; any other event
/// leaves it. An interactive chat without a session takes the one that the event holds, of
/// whatever kind it is; otherwise the session stays. An error of the bot is shown.
pub proof fn law_event_by_event(
    cmd: ChatCommand,
    exchange: ExchangeView,
    events: Seq<Option<StreamEventView>>,
    event: StreamEventView,
)
    ensures
        ({
            let (a, sa) = cmd.step(exchange, EventView::Parsed(events));
            let (b, sb) = cmd.step(exchange, EventView::Parsed(events.push(Some(event))));
            let added = sb.outputs.skip(sa.outputs.len() as int);
            let shown = cmd.shown_event(event);
            &&& b == (ExchangeView {
                final_message: b.final_message,
                session_id: b.session_id,
                ..a
            })
            &&& forall|message: Seq<char>| #[trigger]
                brings(event, message) ==> b.final_message == message
            &&& (forall|message: Seq<char>| !brings(event, message)) ==> b.final_message
                == a.final_message
            &&& forall|session: Seq<char>| #[trigger]
                holds_text(event.data, "session_id"@, session) && a.interactive && a.session_id
                    is None ==> b.session_id == Some(session)
            &&& !a.interactive || a.session_id is Some || (forall|session: Seq<char>|
                !holds_text(event.data, "session_id"@, session)) ==> b.session_id == a.session_id
            &&& sa.outputs.len() <= sb.outputs.len()
            &&& sb.outputs.take(sa.outputs.len() as int) == sa.outputs
            &&& forall|text: Seq<char>| #[trigger]
                complains(event, text) ==> added == shown.push(
                    OutputView::Error("\x1b[1;31mError: "@ + text + "\x1b[0m"@),
                )
            &&& (forall|text: Seq<char>| !complains(event, text)) ==> added == shown
            &&& sb.action == ActionView::ReadChunk
        }),
        cmd.step(exchange, EventView::Parsed(events.push(None))) == cmd.step(
            exchange,
            EventView::Parsed(events),
        ),
        cmd.step(exchange, EventView::Parsed(seq![])).0 == (ExchangeView {
            phase: Phase::Streaming,
            ..exchange
        }),
        cmd.step(exchange, EventView::Parsed(seq![])).1.outputs.len() == 0,
        cmd.step(exchange, EventView::Parsed(seq![])).1.action == ActionView::ReadChunk,
{
    let one = events.push(Some(event));
    let none = events.push(None);
    assert(one.drop_last() =~= events);
    assert(none.drop_last() =~= events);
    law_text_member(event.data, "message"@);
    law_text_member(event.data, "error"@);
    law_text_member(event.data, "session_id"@);
    let sa = cmd.step(exchange, EventView::Parsed(events)).1.outputs;
    let sb = cmd.step(exchange, EventView::Parsed(one)).1.outputs;
    let n = sa.len() as int;
    assert(sa + seq![] =~= sa);
    assert(sb.take(n) =~= sa);
    assert(sb.skip(n) =~= cmd.event_outputs(event));
    let shown = cmd.shown_event(event);
    assert(shown + seq![] =~= shown);
    assert forall|text: Seq<char>| #[trigger] complains(event, text) implies sb.skip(n)
        == shown.push(OutputView::Error("\x1b[1;31mError: "@ + text + "\x1b[0m"@)) by {
        assert(cmd.event_outputs(event) =~= shown.push(
            OutputView::Error("\x1b[1;31mError: "@ + text + "\x1b[0m"@),
        ));
    }
    if event.data.text_member("error"@) is Some && event.data.text_member("message"@) is None
        && event.event == "response"@ {
        assert(complains(event, event.data.text_member("error"@)->0));
    }
    if event.event == "response"@ {
        if event.data is Text {
            assert(brings(event, event.data->Text_0));
        } else if event.data.text_member("message"@) is Some {
            assert(brings(event, event.data.text_member("message"@)->0));
        }
    }
}

/// What a chunk yields line by line: the first line that has ended is cut off, its payload is
/// parsed first, and the rest yields what it would by itself. Text without a line end yields
/// nothing and waits for its end. Nothing is shown, and the message and the session stay.
pub proof fn law_chunk_line_by_line(
    cmd: ChatCommand,
    exchange: ExchangeView,
    bytes: Seq<u8>,
    line: Seq<char>,
    more: Seq<char>,
)
    requires
        forall|i: int| 0 <= i < line.len() ==> line[i] != '\n',
    ensures
        ({
            let text = exchange.buffer + chunk_text(bytes);
            let (after, step) = cmd.step(exchange, EventView::Chunk(bytes));
            let later = cmd.step(
                ExchangeView { buffer: more, ..exchange },
                EventView::Chunk(seq![]),
            );
            &&& step.outputs.len() == 0
            &&& after == (ExchangeView { buffer: after.buffer, phase: Phase::Parsing, ..exchange })
            &&& step.action is ParseEvents
            &&& text == line ==> after.buffer == line && step.action->ParseEvents_0.len() == 0
            &&& text == line.push('\n') + more ==> {
                &&& after.buffer == later.0.buffer
                &&& forall|payload: Seq<char>| #[trigger]
                    carries(line, payload) ==> step.action->ParseEvents_0 == seq![payload]
                        + later.1.action->ParseEvents_0
                &&& (forall|payload: Seq<char>| !carries(line, payload))
                    ==> step.action->ParseEvents_0 == later.1.action->ParseEvents_0
            }
        }),
{
    let text = exchange.buffer + chunk_text(bytes);
    let none = Seq::<u8>::empty();
    assert(valid_utf8(none));
    assert(more + chunk_text(none) =~= more);
    if text == line {
        law_unfinished_text(line);
        assert(payloads_of(seq![]).len() == 0);
    }
    if text == line.push('\n') + more {
        law_first_line(line, more);
        law_payload(line);
        law_payloads_in_parts(seq![line], lines_of(more));
        assert(seq![line].drop_last() =~= Seq::empty());
        assert(payloads_of(Seq::empty()) =~= Seq::empty());
        let rest = payloads_of(lines_of(more));
        assert(seq![] + rest =~= rest);
        assert(seq![line].last() == line);
        match payload_of(line) {
            Some(payload) => {
                assert(payloads_of(seq![line]) =~= seq![payload]);
            },
            None => {
                assert(payloads_of(seq![line]) =~= seq![]);
            },
        }
    }
}

/// A request that the bot accepts is read on, in chunks if the answer is streamed and as a whole if
/// not, and any other is asked for its reason. What is said then ends the error, behind the status
/// that the bot answered with, and nothing stands there if nothing could be read. Neither shows
/// anything or changes more than the phase.
pub proof fn law_answered_request(
    cmd: ChatCommand,
    exchange: ExchangeView,
    code: u16,
    said: Option<Seq<char>>,
)
    ensures
        ({
            let (after, step) = cmd.step(exchange, EventView::Responded(code));
            let accepted = 200 <= code && code < 300;
            &&& step.outputs.len() == 0
            &&& after == (ExchangeView { phase: after.phase, ..exchange })
            &&& accepted && exchange.stream ==> after.phase == Phase::Streaming && step.action
                == ActionView::ReadChunk
            &&& accepted && !exchange.stream ==> after.phase == Phase::ReadingBody && step.action
                == ActionView::ReadBody
            &&& !accepted ==> after.phase == Phase::Refused(code) && step.action
                == ActionView::ReadErrorText
            &&& !accepted ==> {
                let (end, told) = cmd.step(after, EventView::ErrorText(said));
                let prefix = "Request failed ("@ + status_text(code) + "): "@;
                &&& end == (ExchangeView { phase: Phase::Done, ..exchange })
                &&& told.outputs.len() == 0
                &&& said matches Some(text) ==> told.action == ActionView::Fail(
                    ErrorView::Api(prefix + text),
                )
                &&& said is None ==> told.action == ActionView::Fail(ErrorView::Api(prefix))
            }
        }),
{
    let prefix = "Request failed ("@ + status_text(code) + "): "@;
    assert(prefix + Seq::<char>::empty() =~= prefix);
}

/// What cannot be sent or read ends the exchange with an error that says so, and why. Nothing is
/// shown, and nothing but the phase changes.
pub proof fn law_broken_exchange(cmd: ChatCommand, exchange: ExchangeView, detail: Seq<char>)
    ensures
        ({
            let done = ExchangeView { phase: Phase::Done, ..exchange };
            let sending = cmd.step(exchange, EventView::SendFailed(detail));
            let reading = cmd.step(exchange, EventView::BodyFailed(detail));
            let streaming = cmd.step(exchange, EventView::ChunkFailed(detail));
            &&& sending.0 == done && reading.0 == done && streaming.0 == done
            &&& sending.1.outputs.len() == 0 && reading.1.outputs.len() == 0
                && streaming.1.outputs.len() == 0
            &&& sending.1.action == ActionView::Fail(
                ErrorView::Network("Failed to send request: "@ + detail),
            )
            &&& reading.1.action == ActionView::Fail(
                ErrorView::Parse("Failed to parse response: "@ + detail),
            )
            &&& streaming.1.action == ActionView::Fail(
                ErrorView::Network("Stream error: "@ + detail),
            )
        }),
{
}

/// An exchange waits for what can come of its phase: the fate of the request, the reason of a
/// refusal, the answer, its next chunk or its end, or the events of a chunk. Once it is over it
/// waits for nothing.
pub proof fn law_what_is_awaited(exchange: ExchangeView, event: EventView)
    ensures
        event is SendFailed ==> exchange.awaits(event) == (exchange.phase == Phase::Sending),
        event is Responded ==> exchange.awaits(event) == (exchange.phase == Phase::Sending && 100
            <= event->Responded_0 && event->Responded_0 < 1000),
        event is ErrorText ==> exchange.awaits(event) == (exchange.phase is Refused && 100
            <= exchange.phase->Refused_0 && exchange.phase->Refused_0 < 1000),
        event is Body || event is BodyFailed ==> exchange.awaits(event) == (exchange.phase
            == Phase::ReadingBody),
        event is Chunk || event is ChunkFailed || event is StreamEnded ==> exchange.awaits(event)
            == (exchange.phase == Phase::Streaming),
        event is Parsed ==> exchange.awaits(event) == (exchange.phase == Phase::Parsing),
        exchange.phase == Phase::Done ==> !exchange.awaits(event),
{
}

// Chats.

/// Whether a character is a letter, small or capital.
pub open spec fn is_letter(c: char, small: char, capital: char) -> bool {
    c == small || c == capital
}

/// Whether an input asks to leave: it is `exit` or `quit`, in any mixture of small letters and
/// capitals.
pub open spec fn leaves(input: Seq<char>) -> bool {
    &&& input.len() == 4
    &&& is_letter(input[2], 'i', 'I')
    &&& is_letter(input[3], 't', 'T')
    &&& (is_letter(input[0], 'e', 'E') && is_letter(input[1], 'x', 'X')) || (is_letter(
        input[0],
        'q',
        'Q',
    ) && is_letter(input[1], 'u', 'U'))
}

proof fn lemma_leaves(input: Seq<char>)
    ensures
        is_exit(input) == leaves(input),
{
    reveal_strlit("exit");
    reveal_strlit("quit");
    law_ignoring_ascii_case(input, "exit"@);
    law_ignoring_ascii_case(input, "quit"@);
    let e = "exit"@;
    let q = "quit"@;
    assert(e.len() == 4 && e[0] == 'e' && e[1] == 'x' && e[2] == 'i' && e[3] == 't');
    assert(q.len() == 4 && q[0] == 'q' && q[1] == 'u' && q[2] == 'i' && q[3] == 't');
}

/// A line that holds more than white space goes into the history without the white space around
/// it, unless there is to be none. If it asks to leave, the chat says goodbye and ends; otherwise
/// exactly that is sent, in the session of the chat, and nothing is shown. The session stays.
pub proof fn law_typed_line(
    cmd: ChatCommand,
    session_id: Option<Seq<char>>,
    before: Seq<char>,
    input: Seq<char>,
    after: Seq<char>,
    auth: AuthView,
)
    requires
        all_white(before),
        is_core(input),
        all_white(after),
    ensures
        ({
            let (session, turn) = cmd.turn(
                session_id,
                TurnEventView::Line(before + input + after),
                auth,
            );
            &&& session == session_id
            &&& cmd.no_history ==> turn.history is None
            &&& !cmd.no_history ==> turn.history == Some(input)
            &&& leaves(input) ==> turn.outputs == seq![OutputView::Line("\nGoodbye!"@)]
                && turn.next == NextView::Quit
            &&& !leaves(input) ==> turn.outputs.len() == 0 && turn.next == NextView::Exchange(
                cmd.new_exchange(true, session_id),
                cmd.first_step(input, session_id, auth),
            )
        }),
{
    law_trim_around(before, input, after);
    lemma_leaves(input);
}

/// A line of nothing but white space is passed over: nothing is kept, shown or sent, and the next
/// line is read.
pub proof fn law_blank_line(
    cmd: ChatCommand,
    session_id: Option<Seq<char>>,
    line: Seq<char>,
    auth: AuthView,
)
    requires
        all_white(line),
    ensures
        cmd.turn(session_id, TurnEventView::Line(line), auth) == (
            session_id,
            TurnView { history: None, outputs: seq![], next: NextView::ReadLine },
        ),
{
    let _ = law_core_or_white(line);
}

/// A chat whose user presses Ctrl+C or Ctrl+D says goodbye and ends, and one that cannot read its
/// user's input says so and ends. Neither keeps anything in the history or changes the session.
pub proof fn law_left_chat(
    cmd: ChatCommand,
    session_id: Option<Seq<char>>,
    detail: Seq<char>,
    auth: AuthView,
)
    ensures
        ({
            let interrupted = cmd.turn(session_id, TurnEventView::Interrupted, auth);
            let ended = cmd.turn(session_id, TurnEventView::EndOfInput, auth);
            let failed = cmd.turn(session_id, TurnEventView::ReadFailed(detail), auth);
            &&& interrupted == ended
            &&& ended.1.outputs == seq![OutputView::Line("\nGoodbye!"@)]
            &&& failed.1.outputs == seq![
                OutputView::Error("\x1b[1;31mError reading input: "@ + detail + "\x1b[0m"@),
            ]
            &&& ended.0 == session_id && failed.0 == session_id
            &&& ended.1.history is None && failed.1.history is None
            &&& ended.1.next == NextView::Quit && failed.1.next == NextView::Quit
        }),
{
}

/// After an exchange the chat is in the session that the exchange ended in, and reads the next
/// line, whether or not the exchange failed. An error is shown with what it is, and otherwise
/// nothing is.
pub proof fn law_chat_goes_on(
    cmd: ChatCommand,
    session_id: Option<Seq<char>>,
    exchange: ExchangeView,
    detail: Seq<char>,
    auth: AuthView,
)
    ensures
        ({
            let fine = cmd.turn(session_id, TurnEventView::Exchanged(exchange, None), auth);
            let network = cmd.turn(
                session_id,
                TurnEventView::Exchanged(exchange, Some(ErrorView::Network(detail))),
                auth,
            );
            let api = cmd.turn(
                session_id,
                TurnEventView::Exchanged(exchange, Some(ErrorView::Api(detail))),
                auth,
            );
            let client = cmd.turn(
                session_id,
                TurnEventView::Exchanged(exchange, Some(ErrorView::Client(detail))),
                auth,
            );
            let parse = cmd.turn(
                session_id,
                TurnEventView::Exchanged(exchange, Some(ErrorView::Parse(detail))),
                auth,
            );
            &&& goes_on(fine, exchange, seq![])
            &&& goes_on(network, exchange, seq![shown_error("Network error: "@ + detail)])
            &&& goes_on(api, exchange, seq![shown_error("API error: "@ + detail)])
            &&& goes_on(client, exchange, seq![shown_error("Client error: "@ + detail)])
            &&& goes_on(parse, exchange, seq![shown_error("Parse error: "@ + detail)])
        }),
{
}

/// Whether a chat that takes this turn goes on after an exchange and shows these outputs.
pub open spec fn goes_on(
    turn: (Option<Seq<char>>, TurnView),
    exchange: ExchangeView,
    outputs: Seq<OutputView>,
) -> bool {
    &&& turn.0 == exchange.session_id
    &&& turn.1.history is None
    &&& turn.1.outputs == outputs
    &&& turn.1.next == NextView::ReadLine
}

/// The line that tells the user of an error.
pub open spec fn shown_error(text: Seq<char>) -> OutputView {
    OutputView::Error("\x1b[1;31mError: "@ + text + "\x1b[0m"@)
}

/// An error is told with a word for what failed and its own text behind that.
pub proof fn law_errors_are_described(detail: Seq<char>)
    ensures
        ErrorView::Network(detail).description() == "Network error: "@ + detail,
        ErrorView::Api(detail).description() == "API error: "@ + detail,
        ErrorView::Client(detail).description() == "Client error: "@ + detail,
        ErrorView::Parse(detail).description() == "Parse error: "@ + detail,
{
}

/// A command with a message sends that one message in the session that it names, and a command
/// without one begins a chat in that session. Both use the credentials that the command and the
/// configuration give.
pub proof fn law_launch(cmd: ChatCommand, config: Config)
    ensures
        cmd.message matches Some(message) ==> cmd.launch(config) == LaunchView::Single(
            cmd.new_exchange(false, cmd.session.deep_view()),
            cmd.first_step(message@, cmd.session.deep_view(), cmd.auth_with(config)),
        ),
        cmd.message is None ==> cmd.launch(config) == (LaunchView::Interactive {
            banner: cmd.banner(),
            session_id: cmd.session.deep_view(),
            auth: cmd.auth_with(config),
        }),
{
}

/// The banner names the endpoint and the sender, and between them the session where the command
/// names one. It begins with the name of the program and ends with the way to leave.
pub proof fn law_banner(cmd: ChatCommand)
    ensures
        ({
            let banner = cmd.banner();
            let n = banner.len() as int;
            &&& cmd.session is None ==> n == 5
            &&& cmd.session matches Some(session) ==> n == 6 && banner[2] == OutputView::Line(
                "Session: "@ + session@,
            )
            &&& banner[0] == OutputView::Line("Vikingbot Chat - Interactive Mode"@)
            &&& banner[1] == OutputView::Line("Endpoint: "@ + cmd.endpoint@)
            &&& banner[n - 3] == OutputView::Line("Sender: "@ + cmd.sender@)
            &&& banner[n - 2] == OutputView::Line(
                "Type 'exit', 'quit', or press Ctrl+C to exit"@,
            )
            &&& banner[n - 1] == OutputView::Line(
                "----------------------------------------\n"@,
            )
        }),
{
}

} // verus!
