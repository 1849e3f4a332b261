//! What holds of every exchange and of every chat.

use crate::command::{
    first_given, header_of, text_member_of, AuthView, ChatCommand, ChatMessageView, ChatRequestView,
    Config, RuntimeLlmView,
};
use crate::error::{is_status, is_success_status, refusal, ErrorView};
use crate::exchange::{
    event_message, event_session, failing, silently, ActionView, EventView, ExchangeView, Phase,
};
use crate::interactive::{is_exit, NextView, TurnEventView};
use crate::json::{first_member, Json};
use crate::protocol::StreamEventView;
use crate::render::OutputView;
use crate::sse::{
    chunk_text, law_chunk_text_in_parts, law_lines_in_parts, law_payloads_in_parts,
    law_rest_has_no_line_end, law_unfinished_text, lines_of, payloads_of, rest_of,
};
use crate::text::{law_trim_twice, trim_spec};
use vstd::prelude::*;
use vstd::utf8::*;

verus! {

/// An exchange after a sequence of events.
pub open spec fn exchange_after(
    cmd: ChatCommand,
    exchange: ExchangeView,
    events: Seq<EventView>,
) -> ExchangeView
    decreases events.len(),
{
    if events.len() == 0 {
        exchange
    } else {
        cmd.step(exchange_after(cmd, exchange, events.drop_last()), events.last()).0
    }
}

/// Events never turn a single message into an interactive one, nor the other way round.
proof fn lemma_after_events_keeps_mode(
    exchange: ExchangeView,
    events: Seq<Option<StreamEventView>>,
)
    ensures
        exchange.after_events(events).interactive == exchange.interactive,
        exchange.after_events(events).stream == exchange.stream,
        exchange.after_events(events).buffer == exchange.buffer,
        exchange.after_events(events).phase == exchange.phase,
        !exchange.interactive ==> exchange.after_events(events).session_id == exchange.session_id,
        exchange.session_id is Some ==> exchange.after_events(events).session_id
            == exchange.session_id,
    decreases events.len(),
{
    if events.len() > 0 {
        lemma_after_events_keeps_mode(exchange, events.drop_last());
    }
}

/// Once the session of a chat is known, no event of an exchange changes it. An exchange for a
/// single message never changes it.
pub proof fn law_session_is_kept(
    cmd: ChatCommand,
    exchange: ExchangeView,
    events: Seq<EventView>,
)
    requires
        exchange.session_id is Some || !exchange.interactive,
    ensures
        exchange_after(cmd, exchange, events).session_id == exchange.session_id,
        exchange_after(cmd, exchange, events).interactive == exchange.interactive,
    decreases events.len(),
{
    if events.len() > 0 {
        law_session_is_kept(cmd, exchange, events.drop_last());
        let before = exchange_after(cmd, exchange, events.drop_last());
        if let EventView::Parsed(parsed) = events.last() {
            lemma_after_events_keeps_mode(before, parsed);
        }
    }
}

/// Whether an element of a parsed stream is an event that names a session.
pub open spec fn names_session(element: Option<StreamEventView>) -> bool {
    element is Some && event_session(element->0) is Some
}

/// Whether an element of a parsed stream is an event that brings a message.
pub open spec fn brings_message(element: Option<StreamEventView>) -> bool {
    element is Some && event_message(element->0) is Some
}

/// An interactive chat whose session is not known takes the first one that an event names, and
/// knows none as long as no event names one.
pub proof fn law_first_session_wins(
    exchange: ExchangeView,
    events: Seq<Option<StreamEventView>>,
)
    requires
        exchange.interactive,
        exchange.session_id is None,
    ensures
        forall|i: int|
            0 <= i < events.len() && #[trigger] names_session(events[i]) && (forall|j: int|
                0 <= j < i ==> !names_session(events[j]))
                ==> exchange.after_events(events).session_id == event_session(events[i]->0),
        (forall|i: int| 0 <= i < events.len() ==> !names_session(events[i]))
            ==> exchange.after_events(events).session_id is None,
    decreases events.len(),
{
    if events.len() > 0 {
        let init = events.drop_last();
        let last = events.len() - 1;
        law_first_session_wins(exchange, init);
        lemma_after_events_keeps_mode(exchange, init);
        if forall|i: int| 0 <= i < init.len() ==> !names_session(init[i]) {
            assert(forall|j: int| 0 <= j < last ==> events[j] == init[j]);
        } else {
            assert forall|i: int|
                0 <= i < events.len() && #[trigger] names_session(events[i]) && (forall|j: int|
                    0 <= j < i ==> !names_session(
                        events[j],
                    )) implies exchange.after_events(events).session_id == event_session(
                events[i]->0,
            ) by {
                if i == last {
                    let k = choose|k: int| 0 <= k < init.len() && names_session(init[k]);
                    assert(events[k] == init[k]);
                } else {
                    assert(init[i] == events[i]);
                    assert(forall|j: int| 0 <= j < i ==> init[j] == events[j]);
                }
            }
            let k = choose|k: int| 0 <= k < init.len() && names_session(init[k]);
            assert(events[k] == init[k]);
        }
    }
}

/// The message of a streamed answer is the last one that an event brings, and stays what it was
/// as long as no event brings one.
pub proof fn law_last_message_wins(exchange: ExchangeView, events: Seq<Option<StreamEventView>>)
    ensures
        forall|i: int|
            0 <= i < events.len() && #[trigger] brings_message(events[i]) && (forall|j: int|
                i < j < events.len() ==> !brings_message(events[j])) ==> Some(
                exchange.after_events(events).final_message,
            ) == event_message(events[i]->0),
        (forall|i: int| 0 <= i < events.len() ==> !brings_message(events[i]))
            ==> exchange.after_events(events).final_message == exchange.final_message,
    decreases events.len(),
{
    if events.len() > 0 {
        let init = events.drop_last();
        let last = events.len() - 1;
        law_last_message_wins(exchange, init);
        assert forall|i: int|
            0 <= i < events.len() && #[trigger] brings_message(events[i]) && (forall|j: int|
                i < j < events.len() ==> !brings_message(events[j])) implies Some(
            exchange.after_events(events).final_message,
        ) == event_message(events[i]->0) by {
            if i < last {
                assert(!brings_message(events[last]));
                assert(init[i] == events[i]);
                assert(forall|j: int| i < j < init.len() ==> init[j] == events[j]);
            }
        }
        if forall|i: int| 0 <= i < events.len() ==> !brings_message(events[i]) {
            assert(forall|j: int| 0 <= j < init.len() ==> init[j] == events[j]);
            assert(!brings_message(events[last]));
        }
    }
}

/// Events in two parts change an exchange as they do together.
proof fn lemma_after_events_in_parts(
    exchange: ExchangeView,
    first: Seq<Option<StreamEventView>>,
    second: Seq<Option<StreamEventView>>,
)
    ensures
        exchange.after_events(first + second) == exchange.after_events(first).after_events(second),
    decreases second.len(),
{
    if second.len() == 0 {
        assert(first + second =~= first);
    } else {
        lemma_after_events_in_parts(exchange, first, second.drop_last());
        assert((first + second).drop_last() =~= first + second.drop_last());
    }
}

/// Events in two parts show what they show together.
proof fn lemma_events_outputs_in_parts(
    cmd: ChatCommand,
    first: Seq<Option<StreamEventView>>,
    second: Seq<Option<StreamEventView>>,
)
    ensures
        cmd.events_outputs(first + second) == cmd.events_outputs(first) + cmd.events_outputs(
            second,
        ),
    decreases second.len(),
{
    if second.len() == 0 {
        assert(first + second =~= first);
        assert(cmd.events_outputs(first) + seq![] =~= cmd.events_outputs(first));
    } else {
        lemma_events_outputs_in_parts(cmd, first, second.drop_last());
        assert((first + second).drop_last() =~= first + second.drop_last());
        assert(cmd.events_outputs(first + second) =~= cmd.events_outputs(first)
            + cmd.events_outputs(second));
    }
}

/// What a chunk of a stream does to an exchange, and what is shown of it, when `parse` tells which
/// event a payload is.
pub open spec fn read_chunk(
    cmd: ChatCommand,
    exchange: ExchangeView,
    parse: spec_fn(Seq<char>) -> Option<StreamEventView>,
    chunk: Seq<u8>,
) -> (ExchangeView, Seq<OutputView>) {
    let (parsing, asked) = cmd.step(exchange, EventView::Chunk(chunk));
    let (after, step) = cmd.step(
        parsing,
        EventView::Parsed(asked.action->ParseEvents_0.map_values(parse)),
    );
    (after, asked.outputs + step.outputs)
}

/// What a sequence of chunks does to an exchange, and what is shown of it.
pub open spec fn read_chunks(
    cmd: ChatCommand,
    exchange: ExchangeView,
    parse: spec_fn(Seq<char>) -> Option<StreamEventView>,
    chunks: Seq<Seq<u8>>,
) -> (ExchangeView, Seq<OutputView>)
    decreases chunks.len(),
{
    if chunks.len() == 0 {
        (exchange, seq![])
    } else {
        let (before, shown) = read_chunks(cmd, exchange, parse, chunks.drop_last());
        let (after, more) = read_chunk(cmd, before, parse, chunks.last());
        (after, shown + more)
    }
}

/// The bytes of chunks, one after the other.
pub open spec fn joined(chunks: Seq<Seq<u8>>) -> Seq<u8>
    decreases chunks.len(),
{
    if chunks.len() == 0 {
        seq![]
    } else {
        joined(chunks.drop_last()) + chunks.last()
    }
}

/// Two chunks of valid UTF-8 do to an exchange what they do as one chunk.
proof fn lemma_read_two_chunks(
    cmd: ChatCommand,
    exchange: ExchangeView,
    parse: spec_fn(Seq<char>) -> Option<StreamEventView>,
    first: Seq<u8>,
    second: Seq<u8>,
)
    requires
        valid_utf8(first),
        valid_utf8(second),
    ensures
        ({
            let (between, shown) = read_chunk(cmd, exchange, parse, first);
            let (after, more) = read_chunk(cmd, between, parse, second);
            (after, shown + more) == read_chunk(cmd, exchange, parse, first + second)
        }),
{
    let text = exchange.buffer + chunk_text(first);
    let rest = rest_of(text) + chunk_text(second);
    let whole = exchange.buffer + chunk_text(first + second);
    law_chunk_text_in_parts(first, second);
    assert(whole =~= text + chunk_text(second));
    law_lines_in_parts(text, chunk_text(second));
    law_payloads_in_parts(lines_of(text), lines_of(rest));
    let p1 = payloads_of(lines_of(text));
    let p2 = payloads_of(lines_of(rest));
    let e1 = p1.map_values(parse);
    let e2 = p2.map_values(parse);
    assert((p1 + p2).map_values(parse) =~= e1 + e2);
    let start = ExchangeView { buffer: rest_of(text), phase: Phase::Parsing, ..exchange };
    let whole_start = ExchangeView { buffer: rest_of(whole), phase: Phase::Parsing, ..exchange };
    let between = start.after_events(e1).in_phase(Phase::Streaming);
    let start2 = ExchangeView { buffer: rest_of(rest), phase: Phase::Parsing, ..between };
    lemma_after_events_keeps_mode(start, e1);
    lemma_after_events_only_reads_session_and_message(start, whole_start, e1);
    lemma_after_events_keeps_mode(whole_start, e1);
    lemma_after_events_only_reads_session_and_message(start2, whole_start.after_events(e1), e2);
    lemma_after_events_in_parts(whole_start, e1, e2);
    lemma_events_outputs_in_parts(cmd, e1, e2);
    lemma_after_events_keeps_mode(whole_start.after_events(e1), e2);
    lemma_after_events_keeps_mode(start2, e2);
    let none = Seq::<OutputView>::empty();
    assert((none + cmd.events_outputs(e1)) + (none + cmd.events_outputs(e2)) =~= none
        + cmd.events_outputs(e1 + e2));
}

/// What events do to the session and to the message depends on neither buffer nor phase.
proof fn lemma_after_events_only_reads_session_and_message(
    a: ExchangeView,
    b: ExchangeView,
    events: Seq<Option<StreamEventView>>,
)
    requires
        a.interactive == b.interactive,
        a.session_id == b.session_id,
        a.final_message == b.final_message,
    ensures
        a.after_events(events).session_id == b.after_events(events).session_id,
        a.after_events(events).final_message == b.after_events(events).final_message,
    decreases events.len(),
{
    if events.len() > 0 {
        lemma_after_events_only_reads_session_and_message(a, b, events.drop_last());
        lemma_after_events_keeps_mode(a, events.drop_last());
        lemma_after_events_keeps_mode(b, events.drop_last());
    }
}

/// A chunk without a byte changes nothing about an exchange that waits for one, and shows nothing.
proof fn lemma_read_empty_chunk(
    cmd: ChatCommand,
    exchange: ExchangeView,
    parse: spec_fn(Seq<char>) -> Option<StreamEventView>,
)
    requires
        exchange.well_formed(),
        exchange.phase == Phase::Streaming,
    ensures
        read_chunk(cmd, exchange, parse, seq![]) == (exchange, Seq::<OutputView>::empty()),
{
    let none = Seq::<u8>::empty();
    assert(valid_utf8(none));
    assert(exchange.buffer + chunk_text(none) =~= exchange.buffer);
    law_unfinished_text(exchange.buffer);
    let events = payloads_of(lines_of(exchange.buffer)).map_values(parse);
    assert(events =~= seq![]);
    assert(seq![] + cmd.events_outputs(events) =~= Seq::<OutputView>::empty());
}

/// How a streamed answer is cut into chunks does not matter, as long as no character is cut in
/// two: the exchange ends up the same, and the same is shown, as if it had come in one chunk. An
/// answer without a chunk is like one of an empty chunk to an exchange that waits for one.
pub proof fn law_chunk_boundaries_do_not_matter(
    cmd: ChatCommand,
    exchange: ExchangeView,
    parse: spec_fn(Seq<char>) -> Option<StreamEventView>,
    chunks: Seq<Seq<u8>>,
)
    requires
        chunks.len() > 0 || (exchange.well_formed() && exchange.phase == Phase::Streaming),
        forall|i: int| 0 <= i < chunks.len() ==> valid_utf8(#[trigger] chunks[i]),
    ensures
        valid_utf8(joined(chunks)),
        read_chunks(cmd, exchange, parse, chunks) == read_chunk(
            cmd,
            exchange,
            parse,
            joined(chunks),
        ),
    decreases chunks.len(),
{
    let init = chunks.drop_last();
    let last = chunks.last();
    if chunks.len() == 0 {
        lemma_read_empty_chunk(cmd, exchange, parse);
    } else if init.len() == 0 {
        assert(valid_utf8(chunks[chunks.len() - 1]));
        reveal_with_fuel(read_chunks, 2);
        reveal_with_fuel(joined, 2);
        assert(joined(chunks) =~= last);
        let shown = read_chunk(cmd, exchange, parse, last).1;
        assert(seq![] + shown =~= shown);
    } else {
        assert(valid_utf8(chunks[chunks.len() - 1]));
        assert forall|i: int| 0 <= i < init.len() implies valid_utf8(#[trigger] init[i]) by {
            assert(init[i] == chunks[i]);
        }
        law_chunk_boundaries_do_not_matter(cmd, exchange, parse, init);
        lemma_read_two_chunks(cmd, exchange, parse, joined(init), last);
        law_chunk_text_in_parts(joined(init), last);
    }
}

/// The texts of chunks, one after the other.
pub open spec fn joined_text(chunks: Seq<Seq<u8>>) -> Seq<char>
    decreases chunks.len(),
{
    if chunks.len() == 0 {
        seq![]
    } else {
        joined_text(chunks.drop_last()) + chunk_text(chunks.last())
    }
}

/// The text of chunks that cut no character in two is the text of their bytes.
pub proof fn law_joined_text(chunks: Seq<Seq<u8>>)
    requires
        forall|i: int| 0 <= i < chunks.len() ==> valid_utf8(#[trigger] chunks[i]),
    ensures
        valid_utf8(joined(chunks)),
        joined_text(chunks) == decode_utf8(joined(chunks)),
    decreases chunks.len(),
{
    if chunks.len() == 0 {
        assert(valid_utf8(joined(chunks)));
        assert(joined_text(chunks) =~= decode_utf8(joined(chunks)));
    } else {
        let init = chunks.drop_last();
        assert forall|i: int| 0 <= i < init.len() implies valid_utf8(#[trigger] init[i]) by {
            assert(init[i] == chunks[i]);
        }
        assert(valid_utf8(chunks[chunks.len() - 1]));
        law_joined_text(init);
        law_chunk_text_in_parts(joined(init), chunks.last());
    }
}

/// The events in the text of a stream.
pub open spec fn events_in(
    parse: spec_fn(Seq<char>) -> Option<StreamEventView>,
    text: Seq<char>,
) -> Seq<Option<StreamEventView>> {
    payloads_of(lines_of(text)).map_values(parse)
}

/// Whatever chunks come, also those that cut a character in two, an exchange takes from them the
/// events in its unfinished line followed by the texts of the chunks: it shows these events, ends
/// up as they change it, and keeps what follows the last line end.
pub proof fn law_stream_is_read_as_its_text(
    cmd: ChatCommand,
    exchange: ExchangeView,
    parse: spec_fn(Seq<char>) -> Option<StreamEventView>,
    chunks: Seq<Seq<u8>>,
)
    requires
        exchange.well_formed(),
        exchange.phase == Phase::Streaming,
    ensures
        ({
            let text = exchange.buffer + joined_text(chunks);
            let events = events_in(parse, text);
            read_chunks(cmd, exchange, parse, chunks) == (
                ExchangeView { buffer: rest_of(text), ..exchange.after_events(events) },
                cmd.events_outputs(events),
            )
        }),
    decreases chunks.len(),
{
    let text = exchange.buffer + joined_text(chunks);
    if chunks.len() == 0 {
        assert(text =~= exchange.buffer);
        law_unfinished_text(text);
        assert(events_in(parse, text) =~= seq![]);
    } else {
        let init = chunks.drop_last();
        law_stream_is_read_as_its_text(cmd, exchange, parse, init);
        let before = exchange.buffer + joined_text(init);
        let more = chunk_text(chunks.last());
        let rest = rest_of(before) + more;
        assert(text =~= before + more);
        law_lines_in_parts(before, more);
        law_payloads_in_parts(lines_of(before), lines_of(rest));
        let e1 = events_in(parse, before);
        let e2 = events_in(parse, rest);
        assert(events_in(parse, text) =~= e1 + e2);
        let read = exchange.after_events(e1);
        let parsing = ExchangeView { buffer: rest_of(rest), phase: Phase::Parsing, ..read };
        lemma_after_events_keeps_mode(exchange, e1);
        lemma_after_events_keeps_mode(read, e2);
        lemma_after_events_keeps_mode(parsing, e2);
        lemma_after_events_only_reads_session_and_message(parsing, read, e2);
        lemma_after_events_in_parts(exchange, e1, e2);
        lemma_events_outputs_in_parts(cmd, e1, e2);
        let shown = cmd.events_outputs(e1);
        assert(shown + (seq![] + cmd.events_outputs(e2)) =~= shown + cmd.events_outputs(e2));
    }
}

/// A streamed answer is shown as the texts of its chunks tell: the events in them in their order,
/// and at the end the last message among these. There may be no chunk at all. Of chunks that cut
/// no character in two these texts are the text of the answer, wherever it is cut.
pub proof fn law_streamed_answer(
    cmd: ChatCommand,
    interactive: bool,
    session_id: Option<Seq<char>>,
    code: u16,
    parse: spec_fn(Seq<char>) -> Option<StreamEventView>,
    chunks: Seq<Seq<u8>>,
)
    requires
        cmd.stream,
        is_success_status(code),
    ensures
        ({
            let start = cmd.new_exchange(interactive, session_id);
            let events = events_in(parse, joined_text(chunks));
            let (streaming, asked) = cmd.step(start, EventView::Responded(code));
            let (read, shown) = read_chunks(cmd, streaming, parse, chunks);
            let (over, end) = cmd.step(read, EventView::StreamEnded);
            &&& asked == silently(ActionView::ReadChunk)
            &&& shown == cmd.events_outputs(events)
            &&& end.action == ActionView::Succeed
            &&& end.outputs == cmd.stream_end_outputs(
                interactive,
                start.after_events(events).final_message,
            )
            &&& over.session_id == start.after_events(events).session_id
            &&& over.buffer == rest_of(joined_text(chunks))
        }),
        (forall|i: int| 0 <= i < chunks.len() ==> valid_utf8(#[trigger] chunks[i]))
            ==> joined_text(chunks) == decode_utf8(joined(chunks)),
{
    let start = cmd.new_exchange(interactive, session_id);
    let streaming = cmd.step(start, EventView::Responded(code)).0;
    let events = events_in(parse, joined_text(chunks));
    assert(streaming.buffer + joined_text(chunks) =~= joined_text(chunks));
    law_stream_is_read_as_its_text(cmd, streaming, parse, chunks);
    lemma_after_events_only_reads_session_and_message(start, streaming, events);
    lemma_after_events_keeps_mode(streaming, events);
    if forall|i: int| 0 <= i < chunks.len() ==> valid_utf8(#[trigger] chunks[i]) {
        law_joined_text(chunks);
    }
}

/// A refused request fails with its status and what the bot said of it, whatever that is. Nothing
/// is shown of it, and the exchange ends without having read an answer.
pub proof fn law_refused_request_fails(
    cmd: ChatCommand,
    exchange: ExchangeView,
    code: u16,
    said: Option<Seq<char>>,
)
    requires
        exchange.phase == Phase::Sending,
        is_status(code),
        !is_success_status(code),
    ensures
        exchange.awaits(EventView::Responded(code)),
        ({
            let (refused, asked) = cmd.step(exchange, EventView::Responded(code));
            let (after, step) = cmd.step(refused, EventView::ErrorText(said));
            &&& asked == silently(ActionView::ReadErrorText)
            &&& refused.awaits(EventView::ErrorText(said))
            &&& after == exchange.in_phase(Phase::Done)
            &&& step == failing(
                refusal(
                    code,
                    match said {
                        Some(text) => text,
                        None => Seq::empty(),
                    },
                ),
            )
        }),
{
}

/// Whether `event` is what comes of `action`.
pub open spec fn answers(action: ActionView, event: EventView) -> bool {
    match (action, event) {
        (ActionView::Send(_), EventView::SendFailed(_)) => true,
        (ActionView::Send(_), EventView::Responded(code)) => is_status(code),
        (ActionView::ReadErrorText, EventView::ErrorText(_)) => true,
        (ActionView::ReadBody, EventView::Body(_)) => true,
        (ActionView::ReadBody, EventView::BodyFailed(_)) => true,
        (ActionView::ReadChunk, EventView::Chunk(_)) => true,
        (ActionView::ReadChunk, EventView::ChunkFailed(_)) => true,
        (ActionView::ReadChunk, EventView::StreamEnded) => true,
        (ActionView::ParseEvents(_), EventView::Parsed(_)) => true,
        _ => false,
    }
}

/// A message is sent before anything else, and the exchange waits for what comes of that.
pub proof fn law_first_action_is_awaited(
    cmd: ChatCommand,
    interactive: bool,
    session_id: Option<Seq<char>>,
    message: Seq<char>,
    auth: AuthView,
    answer: EventView,
)
    ensures
        cmd.first_step(message, session_id, auth).action is Send,
        answers(cmd.first_step(message, session_id, auth).action, answer)
            ==> cmd.new_exchange(interactive, session_id).awaits(answer),
        cmd.new_exchange(interactive, session_id).well_formed(),
{
}

/// Whatever comes of the action of a step is an event that the exchange waits for, so that an
/// exchange which is taken on from action to event never gets stuck. It is over exactly when the
/// action says so, and it never sends a second request.
pub proof fn law_every_action_is_awaited(
    cmd: ChatCommand,
    exchange: ExchangeView,
    event: EventView,
    answer: EventView,
)
    requires
        exchange.awaits(event),
    ensures
        ({
            let (after, step) = cmd.step(exchange, event);
            &&& answers(step.action, answer) == after.awaits(answer)
            &&& (after.phase == Phase::Done) == (step.action is Succeed || step.action is Fail)
            &&& !(step.action is Send)
        }),
{
}

/// An exchange keeps what makes it well formed.
pub proof fn law_well_formed_is_kept(cmd: ChatCommand, exchange: ExchangeView, event: EventView)
    requires
        exchange.well_formed(),
        exchange.awaits(event),
    ensures
        cmd.step(exchange, event).0.well_formed(),
{
    match event {
        EventView::Chunk(bytes) => {
            law_rest_has_no_line_end(exchange.buffer + chunk_text(bytes));
        },
        EventView::Parsed(events) => {
            lemma_after_events_keeps_mode(exchange, events);
        },
        _ => {},
    }
}

/// An exchange that fails shows nothing in the step in which it does.
pub proof fn law_failure_shows_nothing(cmd: ChatCommand, exchange: ExchangeView, event: EventView)
    requires
        exchange.awaits(event),
        cmd.step(exchange, event).1.action is Fail,
    ensures
        cmd.step(exchange, event).1.outputs.len() == 0,
{
}

/// Whether an output is plain: an error, an empty line, or the line `message`.
pub open spec fn is_plain(output: OutputView, message: Seq<char>) -> bool {
    match output {
        OutputView::Error(_) => true,
        OutputView::Line(line) => line.len() == 0 || line == message,
        OutputView::Markdown(_) => false,
    }
}

proof fn lemma_plain_events(cmd: ChatCommand, events: Seq<Option<StreamEventView>>)
    requires
        cmd.no_format,
    ensures
        forall|i: int|
            0 <= i < cmd.events_outputs(events).len()
                ==> #[trigger] cmd.events_outputs(events)[i] is Error,
    decreases events.len(),
{
    if events.len() > 0 {
        lemma_plain_events(cmd, events.drop_last());
    }
}

/// Without formatting, the steps of the bot's work are not shown and nothing is rendered: an
/// exchange shows errors, empty lines and the message of the answer as it stands.
pub proof fn law_no_format_is_plain(cmd: ChatCommand, exchange: ExchangeView, event: EventView)
    requires
        cmd.no_format,
        exchange.awaits(event),
    ensures
        forall|i: int|
            0 <= i < cmd.step(exchange, event).1.outputs.len() ==> is_plain(
                #[trigger] cmd.step(exchange, event).1.outputs[i],
                match event {
                    EventView::Body(response) => response.message,
                    _ => exchange.final_message,
                },
            ),
{
    if let EventView::Parsed(events) = event {
        lemma_plain_events(cmd, events);
    }
}

/// The credentials of every request are those of the command line, and from the configuration
/// those that the command line lacks. Each of the three that is known travels in a header of its
/// own, and nothing else does.
pub proof fn law_credentials_reach_every_request(
    cmd: ChatCommand,
    config: Config,
    message: Seq<char>,
    session_id: Option<Seq<char>>,
)
    ensures
        ({
            let step = cmd.first_step(message, session_id, cmd.auth_with(config));
            step.action->Send_0.headers == header_of(
                "X-API-Key"@,
                first_given(cmd.api_key.deep_view(), config.api_key.deep_view()),
            ) + header_of(
                "X-OpenViking-Account"@,
                first_given(cmd.account.deep_view(), config.account.deep_view()),
            ) + header_of(
                "X-OpenViking-User"@,
                first_given(cmd.user.deep_view(), config.user.deep_view()),
            )
        }),
        cmd.message is Some ==> cmd.launch(config)->Single_1 == cmd.first_step(
            cmd.message->0@,
            cmd.session.deep_view(),
            cmd.auth_with(config),
        ),
        cmd.message is None ==> cmd.launch(config)->Interactive_auth == cmd.auth_with(config),
{
}

proof fn lemma_first_member_in_parts(
    first: Seq<(Seq<char>, Json)>,
    second: Seq<(Seq<char>, Json)>,
    key: Seq<char>,
)
    ensures
        first_member(first + second, key) == (match first_member(first, key) {
            Some(value) => Some(value),
            None => first_member(second, key),
        }),
    decreases first.len(),
{
    if first.len() == 0 {
        assert(first + second =~= second);
    } else {
        lemma_first_member_in_parts(first.drop_first(), second, key);
        assert((first + second).drop_first() =~= first.drop_first() + second);
    }
}

proof fn lemma_first_member_of_one(member: (Seq<char>, Json), key: Seq<char>)
    ensures
        first_member(seq![member], key) == (if member.0 == key {
            Some(member.1)
        } else {
            None
        }),
{
    assert(seq![member].drop_first() =~= seq![]);
    assert(first_member(seq![], key) is None);
}

/// The names of the members of a request are all different.
proof fn lemma_request_keys_differ()
    ensures
        "message"@ != "session_id"@,
        "message"@ != "user_id"@,
        "message"@ != "stream"@,
        "message"@ != "context"@,
        "message"@ != "runtime_llm"@,
        "session_id"@ != "user_id"@,
        "session_id"@ != "stream"@,
        "session_id"@ != "context"@,
        "session_id"@ != "runtime_llm"@,
        "user_id"@ != "stream"@,
        "user_id"@ != "context"@,
        "user_id"@ != "runtime_llm"@,
        "stream"@ != "context"@,
        "stream"@ != "runtime_llm"@,
        "context"@ != "runtime_llm"@,
{
    reveal_strlit("message");
    reveal_strlit("session_id");
    reveal_strlit("user_id");
    reveal_strlit("stream");
    reveal_strlit("context");
    reveal_strlit("runtime_llm");
    assert("message"@[0] == 'm');
    assert("session_id"@[1] == 'e');
    assert("user_id"@[0] == 'u');
    assert("stream"@[1] == 't');
    assert("context"@[0] == 'c');
    assert("runtime_llm"@[0] == 'r');
}

/// The names of the members of overrides are all different.
proof fn lemma_override_keys_differ()
    ensures
        "provider"@ != "model"@,
        "provider"@ != "api_base"@,
        "provider"@ != "api_key"@,
        "model"@ != "api_base"@,
        "model"@ != "api_key"@,
        "api_base"@ != "api_key"@,
{
    reveal_strlit("provider");
    reveal_strlit("model");
    reveal_strlit("api_base");
    reveal_strlit("api_key");
    assert("provider"@[0] == 'p');
    assert("model"@[0] == 'm');
    assert("api_base"@[0] == 'a');
    assert("api_base"@[4] == 'b');
    assert("api_key"@[4] == 'k');
}

proof fn lemma_first_member_of_text(name: Seq<char>, value: Option<Seq<char>>, key: Seq<char>)
    ensures
        first_member(text_member_of(name, value), key) == (match value {
            Some(text) if name == key => Some(Json::Text(text)),
            _ => None,
        }),
{
    match value {
        Some(text) => lemma_first_member_of_one((name, Json::Text(text)), key),
        None => {},
    }
}

/// The JSON form of overrides holds each of them under its own name, and has no member for one
/// that is not given.
pub proof fn law_overrides_read_back(overrides: RuntimeLlmView)
    ensures
        overrides.json().text_member("provider"@) == overrides.provider,
        overrides.json().text_member("model"@) == Some(overrides.model),
        overrides.json().text_member("api_base"@) == overrides.api_base,
        overrides.json().text_member("api_key"@) == overrides.api_key,
        overrides.json().member("provider"@) is Some == overrides.provider is Some,
        overrides.json().member("api_base"@) is Some == overrides.api_base is Some,
        overrides.json().member("api_key"@) is Some == overrides.api_key is Some,
{
    lemma_override_keys_differ();
    let a = text_member_of("provider"@, overrides.provider);
    let b = seq![("model"@, Json::Text(overrides.model))];
    let c = text_member_of("api_base"@, overrides.api_base);
    let d = text_member_of("api_key"@, overrides.api_key);
    assert forall|key: Seq<char>| #[trigger]
        overrides.json().member(key) == (match (
            first_member(a, key),
            first_member(b, key),
            first_member(c, key),
        ) {
            (Some(v), _, _) => Some(v),
            (None, Some(v), _) => Some(v),
            (None, None, Some(v)) => Some(v),
            (None, None, None) => first_member(d, key),
        }) by {
        lemma_first_member_in_parts(a, b, key);
        lemma_first_member_in_parts(a + b, c, key);
        lemma_first_member_in_parts(a + b + c, d, key);
    }
    assert forall|key: Seq<char>|
        #![trigger overrides.json().member(key)]
        first_member(a, key) == (match overrides.provider {
            Some(text) if "provider"@ == key => Some(Json::Text(text)),
            _ => None,
        }) && first_member(b, key) == (if "model"@ == key {
            Some(Json::Text(overrides.model))
        } else {
            None
        }) && first_member(c, key) == (match overrides.api_base {
            Some(text) if "api_base"@ == key => Some(Json::Text(text)),
            _ => None,
        }) && first_member(d, key) == (match overrides.api_key {
            Some(text) if "api_key"@ == key => Some(Json::Text(text)),
            _ => None,
        }) by {
        lemma_first_member_of_text("provider"@, overrides.provider, key);
        lemma_first_member_of_one(("model"@, Json::Text(overrides.model)), key);
        lemma_first_member_of_text("api_base"@, overrides.api_base, key);
        lemma_first_member_of_text("api_key"@, overrides.api_key, key);
    }
}

/// The JSON form of a request holds each part of it under its own name, and has no member for a
/// part that is not given: overrides without a model leave no trace.
pub proof fn law_request_reads_back(request: ChatRequestView)
    ensures
        request.json().text_member("message"@) == Some(request.message),
        request.json().text_member("session_id"@) == request.session_id,
        request.json().member("session_id"@) is Some == request.session_id is Some,
        request.json().text_member("user_id"@) == request.user_id,
        request.json().member("user_id"@) is Some == request.user_id is Some,
        request.json().member("stream"@) == Some(Json::Bool(request.stream)),
        request.json().member("context"@) == (match request.context {
            Some(messages) => Some(
                Json::Array(messages.map_values(|m: ChatMessageView| m.json())),
            ),
            None => None,
        }),
        request.json().member("runtime_llm"@) == (match request.runtime_llm {
            Some(overrides) => Some(overrides.json()),
            None => None,
        }),
{
    lemma_request_keys_differ();
    let a = seq![("message"@, Json::Text(request.message))];
    let b = text_member_of("session_id"@, request.session_id);
    let c = text_member_of("user_id"@, request.user_id);
    let d = seq![("stream"@, Json::Bool(request.stream))];
    let e = match request.context {
        Some(messages) => seq![
            ("context"@, Json::Array(messages.map_values(|m: ChatMessageView| m.json()))),
        ],
        None => seq![],
    };
    let f = match request.runtime_llm {
        Some(overrides) => seq![("runtime_llm"@, overrides.json())],
        None => seq![],
    };
    assert forall|key: Seq<char>| #[trigger]
        request.json().member(key) == (if "message"@ == key {
            Some(Json::Text(request.message))
        } else if "session_id"@ == key && request.session_id is Some {
            Some(Json::Text(request.session_id->0))
        } else if "user_id"@ == key && request.user_id is Some {
            Some(Json::Text(request.user_id->0))
        } else if "stream"@ == key {
            Some(Json::Bool(request.stream))
        } else if first_member(e, key) is Some {
            first_member(e, key)
        } else {
            first_member(f, key)
        }) by {
        lemma_first_member_in_parts(a, b, key);
        lemma_first_member_in_parts(a + b, c, key);
        lemma_first_member_in_parts(a + b + c, d, key);
        lemma_first_member_in_parts(a + b + c + d, e, key);
        lemma_first_member_in_parts(a + b + c + d + e, f, key);
        lemma_first_member_of_one(a[0], key);
        lemma_first_member_of_text("session_id"@, request.session_id, key);
        lemma_first_member_of_text("user_id"@, request.user_id, key);
        lemma_first_member_of_one(d[0], key);
    }
    if request.context is Some {
        lemma_first_member_of_one(e[0], "message"@);
        lemma_first_member_of_one(e[0], "session_id"@);
        lemma_first_member_of_one(e[0], "user_id"@);
        lemma_first_member_of_one(e[0], "context"@);
        lemma_first_member_of_one(e[0], "runtime_llm"@);
    }
    if request.runtime_llm is Some {
        lemma_first_member_of_one(f[0], "message"@);
        lemma_first_member_of_one(f[0], "session_id"@);
        lemma_first_member_of_one(f[0], "user_id"@);
        lemma_first_member_of_one(f[0], "context"@);
        lemma_first_member_of_one(f[0], "runtime_llm"@);
    }
}

/// A request carries overrides exactly when the command names a model that is more than white
/// space; without one, what it says of provider, address and key changes nothing.
pub proof fn law_overrides_need_a_model(
    cmd: ChatCommand,
    message: Seq<char>,
    session_id: Option<Seq<char>>,
    stream: bool,
)
    ensures
        (cmd.request(message, session_id, stream).json().member("runtime_llm"@) is Some) == (
        cmd.model is Some && trim_spec(cmd.model->0@).len() > 0),
        cmd.request(message, session_id, stream).runtime_llm is Some ==> {
            let overrides = cmd.request(message, session_id, stream).runtime_llm->0;
            &&& overrides.model == trim_spec(cmd.model->0@)
            &&& overrides.model.len() > 0
            &&& overrides.provider is Some ==> overrides.provider->0.len() > 0
            &&& overrides.api_base is Some ==> overrides.api_base->0.len() > 0
            &&& overrides.api_key is Some ==> overrides.api_key->0.len() > 0
        },
{
    law_request_reads_back(cmd.request(message, session_id, stream));
}

/// The notice of overrides does not give their API key away: it is the same for any two keys.
pub proof fn law_notice_hides_the_key(
    request: ChatRequestView,
    overrides: RuntimeLlmView,
    key: Seq<char>,
    other: Seq<char>,
)
    ensures
        (ChatRequestView {
            runtime_llm: Some(RuntimeLlmView { api_key: Some(key), ..overrides }),
            ..request
        }).override_notice() == (ChatRequestView {
            runtime_llm: Some(RuntimeLlmView { api_key: Some(other), ..overrides }),
            ..request
        }).override_notice(),
{
}

/// A chat in a known session sends every message in that session, and is still in it after the
/// exchange, whatever comes of it.
pub proof fn law_chat_stays_in_its_session(
    cmd: ChatCommand,
    session: Seq<char>,
    line: Seq<char>,
    auth: AuthView,
    events: Seq<EventView>,
    error: Option<ErrorView>,
)
    ensures
        ({
            let (session_id, turn) = cmd.turn(Some(session), TurnEventView::Line(line), auth);
            &&& session_id == Some(session)
            &&& turn.next matches NextView::Exchange(exchange, step) ==> {
                let over = exchange_after(cmd, exchange, events);
                &&& step.action matches ActionView::Send(post)
                &&& post.body.session_id == Some(session)
                &&& cmd.turn(session_id, TurnEventView::Exchanged(over, error), auth).0 == Some(
                    session,
                )
            }
        }),
{
    let turn = cmd.line_turn(Some(session), line, auth);
    if let NextView::Exchange(exchange, step) = turn.next {
        law_session_is_kept(cmd, exchange, events);
    }
}

/// A session that an exchange has brought goes with the next message of the chat.
pub proof fn law_new_session_is_used(
    cmd: ChatCommand,
    before: Option<Seq<char>>,
    exchange: ExchangeView,
    error: Option<ErrorView>,
    line: Seq<char>,
    auth: AuthView,
)
    ensures
        ({
            let session_id = cmd.turn(before, TurnEventView::Exchanged(exchange, error), auth).0;
            let turn = cmd.turn(session_id, TurnEventView::Line(line), auth).1;
            turn.next matches NextView::Exchange(_, step) ==> {
                &&& step.action matches ActionView::Send(post)
                &&& post.body.session_id == exchange.session_id
            }
        }),
{
}

/// What a chat sends is never empty, never asks to leave, and neither begins nor ends with white
/// space.
pub proof fn law_sent_input(
    cmd: ChatCommand,
    session_id: Option<Seq<char>>,
    line: Seq<char>,
    auth: AuthView,
)
    ensures
        cmd.line_turn(session_id, line, auth).next matches NextView::Exchange(_, step) ==> {
            &&& step.action matches ActionView::Send(post)
            &&& post.body.message == trim_spec(line)
            &&& post.body.message.len() > 0
            &&& !is_exit(post.body.message)
            &&& trim_spec(post.body.message) == post.body.message
        },
{
    law_trim_twice(line);
}

/// White space around a line makes no difference to a chat.
pub proof fn law_white_space_around_a_line(
    cmd: ChatCommand,
    session_id: Option<Seq<char>>,
    line: Seq<char>,
    auth: AuthView,
)
    ensures
        cmd.line_turn(session_id, line, auth) == cmd.line_turn(session_id, trim_spec(line), auth),
{
    law_trim_twice(line);
}

/// Without history, no line goes into it. With it, exactly the lines do that are more than white
/// space, those that leave the chat included.
pub proof fn law_history(
    cmd: ChatCommand,
    session_id: Option<Seq<char>>,
    event: TurnEventView,
    auth: AuthView,
)
    ensures
        cmd.no_history ==> cmd.turn(session_id, event, auth).1.history is None,
        !cmd.no_history ==> cmd.turn(session_id, event, auth).1.history == (match event {
            TurnEventView::Line(line) if trim_spec(line).len() > 0 => Some(trim_spec(line)),
            _ => None,
        }),
{
}

/// A chat goes on until the user leaves or no line can be read: an exchange that failed does not
/// end it.
pub proof fn law_chat_ends_only_when_left(
    cmd: ChatCommand,
    session_id: Option<Seq<char>>,
    event: TurnEventView,
    auth: AuthView,
)
    ensures
        (cmd.turn(session_id, event, auth).1.next is Quit) == (match event {
            TurnEventView::Line(line) => is_exit(trim_spec(line)),
            TurnEventView::Exchanged(_, _) => false,
            _ => true,
        }),
{
    reveal_strlit("exit");
    reveal_strlit("quit");
}

} // verus!
