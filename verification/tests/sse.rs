use ov_chat::sse::{decode_chunk, take_payloads as payloads};

#[test]
fn takes_the_payloads_of_complete_lines() {
    let mut buffer = String::new();
    assert_eq!(payloads(&mut buffer, "data: {\"a\":1}\n\ndata: b \t\r\n: note\ndata:c\nda"), [
        "{\"a\":1}",
        "b"
    ]);
    assert_eq!(buffer, "da");
    assert_eq!(payloads(&mut buffer, "ta: d"), Vec::<String>::new());
    assert_eq!(buffer, "data: d");
    assert_eq!(payloads(&mut buffer, "\n"), ["d"]);
    assert_eq!(buffer, "");
}

#[test]
fn a_payload_is_not_trimmed_at_its_start() {
    let mut buffer = String::new();
    assert_eq!(payloads(&mut buffer, "data:   x\n data: y\ndata: \nevent: z\n"), ["  x"]);
    assert_eq!(buffer, "");
}

#[test]
fn parts_of_a_text_yield_what_the_whole_yields() {
    let text = "data: één\r\ndata: two\n\nnope\ndata: 三\ndata: unfinished";
    let mut whole = String::new();
    let expected = payloads(&mut whole, text);
    assert_eq!(expected, ["één", "two", "三"]);
    assert_eq!(whole, "data: unfinished");
    let chars: Vec<char> = text.chars().collect();
    for cut in 0..=chars.len() {
        let first: String = chars[..cut].iter().collect();
        let second: String = chars[cut..].iter().collect();
        let mut buffer = String::new();
        let mut got = payloads(&mut buffer, &first);
        assert!(!buffer.contains('\n'));
        got.extend(payloads(&mut buffer, &second));
        assert_eq!(got, expected);
        assert_eq!(buffer, whole);
    }
}

#[test]
fn decodes_valid_bytes_as_they_stand() {
    assert_eq!(decode_chunk("data: é水😀".as_bytes()), "data: é水😀");
    assert_eq!(decode_chunk(b""), "");
}

#[test]
fn replaces_invalid_bytes() {
    assert_eq!(decode_chunk(b"a\xffb"), "a\u{fffd}b");
    assert_eq!(decode_chunk(&[0xe6, 0xb0]), "\u{fffd}");
}

#[test]
fn chunks_of_whole_characters_hold_their_texts() {
    let (a, b) = ("é水".as_bytes(), "😀z".as_bytes());
    let mut both = a.to_vec();
    both.extend_from_slice(b);
    assert_eq!(decode_chunk(&both), decode_chunk(a) + &decode_chunk(b));
}

#[test]
fn a_character_that_is_cut_in_two_is_lost() {
    let bytes = "水".as_bytes();
    assert_eq!(decode_chunk(&bytes[..1]) + &decode_chunk(&bytes[1..]), "\u{fffd}\u{fffd}\u{fffd}");
}
