//! Server-sent events: from the bytes of a stream to the payloads of its events.

use crate::text::{
    after_prefix, all_white, is_white_space, law_after_prefix, law_trim_end_around,
    lemma_trim_end_splits, strip_prefix,
    trim_end, trim_end_spec,
};
use vstd::prelude::*;
use vstd::string::*;
use vstd::utf8::*;

verus! {

/// What `String::from_utf8_lossy` makes of bytes that are no valid UTF-8.
pub uninterp spec fn lossy_text(bytes: Seq<u8>) -> Seq<char>;

/// `String::from_utf8_lossy` of the standard library. Valid UTF-8 is decoded as it stands.
/// Of other bytes the result is only said to depend on them alone; the library function puts
/// U+FFFD in place of every invalid sequence.
#[verifier::external_body]
fn from_utf8_lossy(bytes: &[u8]) -> (r: String)
    ensures
        valid_utf8(bytes@) ==> r@ == decode_utf8(bytes@),
        !valid_utf8(bytes@) ==> r@ == lossy_text(bytes@),
{
    String::from_utf8_lossy(bytes).into_owned()
}

/// The text of a chunk of a stream. Every chunk is decoded by itself.
pub open spec fn chunk_text(bytes: Seq<u8>) -> Seq<char> {
    if valid_utf8(bytes) {
        decode_utf8(bytes)
    } else {
        lossy_text(bytes)
    }
}

/// What follows the last line end of `text`: the beginning of a line that has not ended yet.
pub open spec fn rest_of(text: Seq<char>) -> Seq<char>
    decreases text.len(),
{
    if text.len() == 0 || text.last() == '\n' {
        Seq::empty()
    } else {
        rest_of(text.drop_last()).push(text.last())
    }
}

/// The lines of `text` that have ended, without their line ends.
pub open spec fn lines_of(text: Seq<char>) -> Seq<Seq<char>>
    decreases text.len(),
{
    if text.len() == 0 {
        Seq::empty()
    } else if text.last() == '\n' {
        lines_of(text.drop_last()).push(rest_of(text.drop_last()))
    } else {
        lines_of(text.drop_last())
    }
}

/// The payload of a line: what follows `data: `, without white space at the end. Any other line
/// has none.
pub open spec fn payload_of(line: Seq<char>) -> Option<Seq<char>> {
    after_prefix(trim_end_spec(line), "data: "@)
}

/// The payloads of those among `lines` that have one.
pub open spec fn payloads_of(lines: Seq<Seq<char>>) -> Seq<Seq<char>>
    decreases lines.len(),
{
    if lines.len() == 0 {
        Seq::empty()
    } else {
        match payload_of(lines.last()) {
            Some(payload) => payloads_of(lines.drop_last()).push(payload),
            None => payloads_of(lines.drop_last()),
        }
    }
}

/// The text of a chunk of a stream.
pub fn decode_chunk(bytes: &[u8]) -> (r: String)
    ensures
        r@ == chunk_text(bytes@),
{
    from_utf8_lossy(bytes)
}

/// The payload of a line.
fn line_payload(line: &str) -> (r: Option<String>)
    ensures
        r.deep_view() == payload_of(line@),
{
    match strip_prefix(trim_end(line), "data: ") {
        Some(payload) => Some(payload.to_owned()),
        None => None,
    }
}

/// Adds `text` to what `buffer` holds, takes out every line that has ended, and returns the
/// payloads of those lines in their order.
pub fn take_payloads(buffer: &mut String, text: &str) -> (r: Vec<String>)
    ensures
        final(buffer)@ == rest_of(old(buffer)@ + text@),
        r.deep_view() == payloads_of(lines_of(old(buffer)@ + text@)),
{
    buffer.append(text);
    let all: &str = buffer.as_str();
    let n: usize = all.unicode_len();
    let mut payloads: Vec<String> = Vec::new();
    let mut start: usize = 0;
    let mut i: usize = 0;
    assert(payloads.deep_view() =~= Seq::empty());
    for c in it: all.chars()
        invariant
            it.seq() == all@,
            n == all@.len(),
            i == it.index(),
            start <= i,
            rest_of(all@.take(i as int)) == all@.subrange(start as int, i as int),
            payloads.deep_view() == payloads_of(lines_of(all@.take(i as int))),
    {
        let ghost before = all@.take(i as int);
        let ghost after = all@.take(i + 1);
        assert(after.drop_last() =~= before);
        if c == '\n' {
            let line = all.substring_char(start, i);
            let ghost lines = lines_of(before);
            assert(lines.push(line@).drop_last() =~= lines);
            let ghost shown = payloads.deep_view();
            if let Some(payload) = line_payload(line) {
                payloads.push(payload);
                assert(payloads.deep_view() =~= shown.push(payload@));
            }
            start = i + 1;
            assert(all@.subrange(start as int, i + 1) =~= Seq::empty());
        } else {
            assert(all@.subrange(start as int, i + 1) =~= all@.subrange(
                start as int,
                i as int,
            ).push(c));
        }
        i = i + 1;
    }
    assert(all@.take(i as int) =~= all@);
    let rest = all.substring_char(start, n).to_owned();
    *buffer = rest;
    payloads
}

/// Text that comes in two parts has the same lines as text that comes at once, and leaves the
/// same unfinished line behind.
pub proof fn law_lines_in_parts(first: Seq<char>, second: Seq<char>)
    ensures
        lines_of(first + second) == lines_of(first) + lines_of(rest_of(first) + second),
        rest_of(first + second) == rest_of(rest_of(first) + second),
    decreases second.len(),
{
    let rest = rest_of(first);
    if second.len() == 0 {
        assert(first + second =~= first);
        assert(rest + second =~= rest);
        law_rest_has_no_line_end(first);
        law_unfinished_text(rest);
        assert(lines_of(first) + Seq::empty() =~= lines_of(first));
    } else {
        let shorter = second.drop_last();
        law_lines_in_parts(first, shorter);
        assert((first + second).drop_last() =~= first + shorter);
        assert((rest + second).drop_last() =~= rest + shorter);
        if second.last() == '\n' {
            assert(lines_of(first + second) =~= lines_of(first) + lines_of(rest + second));
        }
    }
}

/// The payloads of lines are those of the first of them and then those of the others.
pub proof fn law_payloads_in_parts(first: Seq<Seq<char>>, second: Seq<Seq<char>>)
    ensures
        payloads_of(first + second) == payloads_of(first) + payloads_of(second),
    decreases second.len(),
{
    if second.len() == 0 {
        assert(first + second =~= first);
        assert(payloads_of(first) + Seq::empty() =~= payloads_of(first));
    } else {
        law_payloads_in_parts(first, second.drop_last());
        assert((first + second).drop_last() =~= first + second.drop_last());
        assert(payloads_of(first + second) =~= payloads_of(first) + payloads_of(second));
    }
}

/// Two chunks of valid UTF-8 hold the text that they hold when they come as one.
pub proof fn law_chunk_text_in_parts(first: Seq<u8>, second: Seq<u8>)
    requires
        valid_utf8(first),
        valid_utf8(second),
    ensures
        valid_utf8(first + second),
        chunk_text(first + second) == chunk_text(first) + chunk_text(second),
    decreases first.len(),
{
    valid_utf8_concat(first, second);
    if first.len() == 0 {
        assert(first + second =~= second);
        assert(Seq::<char>::empty() + decode_utf8(second) =~= decode_utf8(second));
    } else {
        law_chunk_text_in_parts(pop_first_scalar(first), second);
        assert(pop_first_scalar(first + second) =~= pop_first_scalar(first) + second);
        assert(decode_utf8(first + second) =~= decode_utf8(first) + decode_utf8(second));
    }
}

/// An unfinished line holds no line end.
pub proof fn law_rest_has_no_line_end(text: Seq<char>)
    ensures
        forall|i: int| 0 <= i < rest_of(text).len() ==> rest_of(text)[i] != '\n',
    decreases text.len(),
{
    if text.len() > 0 && text.last() != '\n' {
        law_rest_has_no_line_end(text.drop_last());
        let shorter = rest_of(text.drop_last());
        assert forall|i: int| 0 <= i < rest_of(text).len() implies rest_of(text)[i] != '\n' by {
            if i < shorter.len() {
                assert(rest_of(text)[i] == shorter[i]);
            }
        }
    }
}

/// Lines, each with a line end, one after the other.
pub open spec fn text_of(lines: Seq<Seq<char>>) -> Seq<char>
    decreases lines.len(),
{
    if lines.len() == 0 {
        Seq::empty()
    } else {
        text_of(lines.drop_last()) + lines.last().push('\n')
    }
}

/// Cutting text into lines loses nothing: the lines with their ends, and then the unfinished
/// line, are the text. No line holds a line end.
pub proof fn law_lines_are_the_text(text: Seq<char>)
    ensures
        text == text_of(lines_of(text)) + rest_of(text),
        forall|i: int, j: int|
            0 <= i < lines_of(text).len() && 0 <= j < lines_of(text)[i].len()
                ==> #[trigger] lines_of(text)[i][j] != '\n',
    decreases text.len(),
{
    if text.len() == 0 {
        assert(text =~= text_of(lines_of(text)) + rest_of(text));
    } else {
        let shorter = text.drop_last();
        law_lines_are_the_text(shorter);
        law_rest_has_no_line_end(shorter);
        assert(text =~= shorter.push(text.last()));
        if text.last() == '\n' {
            assert(lines_of(text).drop_last() =~= lines_of(shorter));
        }
        assert(text =~= text_of(lines_of(text)) + rest_of(text));
    }
}

/// A line that has not ended yields no payload: text without a line end adds nothing to what
/// the text before it yields.
pub proof fn law_unfinished_line_yields_nothing(text: Seq<char>, tail: Seq<char>)
    requires
        forall|i: int| 0 <= i < tail.len() ==> tail[i] != '\n',
    ensures
        payloads_of(lines_of(text + tail)) == payloads_of(lines_of(text)),
    decreases tail.len(),
{
    if tail.len() == 0 {
        assert(text + tail =~= text);
    } else {
        law_unfinished_line_yields_nothing(text, tail.drop_last());
        assert((text + tail).drop_last() =~= text + tail.drop_last());
        assert(tail[tail.len() - 1] != '\n');
    }
}

/// Text without a line end holds no line that has ended, and is its own rest.
pub proof fn law_unfinished_text(text: Seq<char>)
    requires
        forall|i: int| 0 <= i < text.len() ==> text[i] != '\n',
    ensures
        lines_of(text) == Seq::<Seq<char>>::empty(),
        rest_of(text) == text,
    decreases text.len(),
{
    if text.len() > 0 {
        law_unfinished_text(text.drop_last());
        assert(text[text.len() - 1] != '\n');
        assert(text.drop_last().push(text.last()) =~= text);
    }
}

/// Whether a line carries `payload`: it is `data: `, the payload and white space. A payload does
/// not end with white space.
pub open spec fn carries(line: Seq<char>, payload: Seq<char>) -> bool {
    &&& payload.len() > 0
    &&& !is_white_space(payload[payload.len() - 1])
    &&& exists|white: Seq<char>| all_white(white) && line == "data: "@ + payload + white
}

/// The payload of a line is what it carries, and a line that carries nothing has none.
pub proof fn law_payload(line: Seq<char>)
    ensures
        match payload_of(line) {
            Some(payload) => carries(line, payload),
            None => forall|payload: Seq<char>| !carries(line, payload),
        },
        forall|payload: Seq<char>| #[trigger]
            carries(line, payload) ==> payload_of(line) == Some(payload),
{
    reveal_strlit("data: ");
    assert(is_white_space("data: "@[5]));
    assert forall|payload: Seq<char>| #[trigger] carries(line, payload) implies payload_of(line)
        == Some(payload) by {
        let white = choose|white: Seq<char>|
            all_white(white) && line == "data: "@ + payload + white;
        let kept = "data: "@ + payload;
        assert(kept[kept.len() - 1] == payload[payload.len() - 1]);
        law_trim_end_around(kept, white);
        law_after_prefix(kept, "data: "@, payload);
    }
    if let Some(payload) = payload_of(line) {
        let kept = trim_end_spec(line);
        law_after_prefix(kept, "data: "@, payload);
        let n = lemma_trim_end_splits(line);
        let white = line.skip(n);
        assert forall|i: int| 0 <= i < white.len() implies is_white_space(#[trigger] white[i]) by {
            assert(white[i] == line[n + i]);
        }
        assert(line =~= kept + white);
        if payload.len() == 0 {
            assert(kept =~= "data: "@);
            assert(kept[n - 1] == "data: "@[5]);
        }
        assert(kept[n - 1] == payload[payload.len() - 1]);
        assert(kept[n - 1] == line[n - 1]);
        assert(all_white(white) && line == "data: "@ + payload + white);
        assert(carries(line, payload));
    }
}

/// Lines yield their payloads one by one: a further line adds what it carries and changes nothing
/// of what the lines before it yield.
pub proof fn law_payloads_line_by_line(lines: Seq<Seq<char>>, line: Seq<char>)
    ensures
        payloads_of(seq![]) == Seq::<Seq<char>>::empty(),
        forall|payload: Seq<char>| #[trigger]
            carries(line, payload) ==> payloads_of(lines.push(line)) == payloads_of(lines).push(
                payload,
            ),
        (forall|payload: Seq<char>| !carries(line, payload)) ==> payloads_of(lines.push(line))
            == payloads_of(lines),
{
    law_payload(line);
    assert(lines.push(line).drop_last() =~= lines);
}

/// A line that has ended is cut off from what follows it.
pub proof fn law_first_line(line: Seq<char>, more: Seq<char>)
    requires
        forall|i: int| 0 <= i < line.len() ==> line[i] != '\n',
    ensures
        lines_of(line.push('\n') + more) == seq![line] + lines_of(more),
        rest_of(line.push('\n') + more) == rest_of(more),
{
    let ended = line.push('\n');
    assert(ended.drop_last() =~= line);
    law_unfinished_text(line);
    assert(lines_of(ended) =~= seq![line]);
    law_lines_in_parts(ended, more);
    assert(rest_of(ended) + more =~= more);
}

/// A chunk of valid UTF-8 is decoded as such, and any other as the lossy decoding has it.
pub proof fn law_chunk_text(bytes: Seq<u8>)
    ensures
        valid_utf8(bytes) ==> encode_utf8(chunk_text(bytes)) == bytes,
        !valid_utf8(bytes) ==> chunk_text(bytes) == lossy_text(bytes),
{
    if valid_utf8(bytes) {
        decode_utf8_encode_utf8(bytes);
    }
}

} // verus!
