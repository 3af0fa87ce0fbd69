use imdb_bot::frame::{
    decode, encode, split_once, split_verb_and_argument, ChatCommandFrame, ChatEvent, FrameKind,
    RawFrame,
};

fn frame_of(verb: &str, argument: &str) -> ChatCommandFrame {
    ChatCommandFrame { verb: verb.to_string(), argument: argument.to_string() }
}

#[test]
fn test_split_once() {
    let in_msg: &str = "MSG {\"nick\":\"jbpratt\",\"features\":[],\"timestamp\":1568160987374,\"data\":\"test\"}";
    let out = vec![
        "MSG",
        "{\"nick\":\"jbpratt\",\"features\":[],\"timestamp\":1568160987374,\"data\":\"test\"}",
    ];
    assert_eq!(split_once(in_msg), out)
}

#[test]
fn split_once_keeps_later_spaces() {
    assert_eq!(split_once("VERB rest of line with spaces"), vec!["VERB", "rest of line with spaces"]);
}

#[test]
fn split_once_without_space_gives_an_empty_argument() {
    assert_eq!(split_once("JOIN"), vec!["JOIN", ""]);
    assert_eq!(split_once("QUIT"), vec!["QUIT", ""]);
    assert_eq!(split_once(""), vec!["", ""]);
    assert_eq!(split_once("MSG\t{}"), vec!["MSG\t{}", ""]);
}

#[test]
fn split_once_always_gives_two_pieces() {
    for line in ["", " ", "a", "a ", " a", "a b", "a b c", "\u{2603}"].iter() {
        assert_eq!(split_once(line).len(), 2);
    }
}

#[test]
fn split_once_agrees_with_split_verb_and_argument() {
    for line in ["", " ", "JOIN", "MSG {}", "MSG  a  b ", "x\ty z"].iter() {
        let parts = split_once(line);
        let frame = split_verb_and_argument(line);
        assert_eq!(parts, vec![frame.verb.as_str(), frame.argument.as_str()]);
    }
}

#[test]
fn split_once_at_the_edges() {
    assert_eq!(split_once(" lead"), vec!["", "lead"]);
    assert_eq!(split_once("trail "), vec!["trail", ""]);
    assert_eq!(split_once("a  b"), vec!["a", " b"]);
    assert_eq!(split_once(" "), vec!["", ""]);
}

#[test]
fn split_once_counts_characters_not_bytes() {
    assert_eq!(split_once("h\u{e9}llo w\u{f6}rld \u{2603}"), vec!["h\u{e9}llo", "w\u{f6}rld \u{2603}"]);
    assert_eq!(split_once("\u{1f600}\u{1f600} x"), vec!["\u{1f600}\u{1f600}", "x"]);
}

#[test]
fn split_once_pads_what_splitn_gives() {
    let lines = [
        "",
        " ",
        "  ",
        "MSG",
        "MSG ",
        " MSG",
        "MSG {\"data\": \"a b c\"}",
        "JOIN {\"nick\":\"x\"}",
        "a\tb c",
        "\u{a0}a b",
        "one two three four",
    ];
    for line in lines.iter() {
        let mut expected: Vec<&str> = line.splitn(2, ' ').collect();
        if expected.len() == 1 {
            expected.push("");
        }
        assert_eq!(split_once(line), expected);
    }
}

#[test]
fn split_verb_and_argument_is_verbatim() {
    assert_eq!(
        split_verb_and_argument("VERB rest of line with spaces"),
        frame_of("VERB", "rest of line with spaces")
    );
    assert_eq!(split_verb_and_argument("MSG  two  spaces "), frame_of("MSG", " two  spaces "));
}

#[test]
fn split_verb_and_argument_without_space() {
    assert_eq!(split_verb_and_argument("QUIT"), frame_of("QUIT", ""));
    assert_eq!(split_verb_and_argument(""), frame_of("", ""));
}

#[test]
fn split_verb_and_argument_only_splits_on_the_space_character() {
    assert_eq!(split_verb_and_argument("MSG\t{}"), frame_of("MSG\t{}", ""));
    assert_eq!(split_verb_and_argument("MSG\n{} x"), frame_of("MSG\n{}", "x"));
}

#[test]
fn splitting_a_verb_again_changes_nothing() {
    let first = split_verb_and_argument("MSG a b c");
    let again = split_verb_and_argument(&first.verb);
    assert_eq!(again, frame_of("MSG", ""));
}

#[test]
fn split_is_lossless() {
    for line in ["MSG a b", "x ", " y", "a  b  c", "JOIN {\"nick\": \"n\"}"].iter() {
        let frame = split_verb_and_argument(line);
        assert_eq!(format!("{} {}", frame.verb, frame.argument), *line);
    }
}

#[test]
fn decode_text_frame() {
    let frame = RawFrame { kind: FrameKind::Text, payload: b"MSG {}".to_vec() };
    assert_eq!(decode(frame), ChatEvent::TextMessage { raw: "MSG {}".to_string() });
}

#[test]
fn decode_text_frame_with_many_byte_characters() {
    let text = "sn\u{f6} \u{2603} \u{1f600}";
    let frame = RawFrame { kind: FrameKind::Text, payload: text.as_bytes().to_vec() };
    assert_eq!(decode(frame), ChatEvent::TextMessage { raw: text.to_string() });
}

#[test]
fn decode_binary_frame() {
    let frame = RawFrame { kind: FrameKind::Binary, payload: vec![0, 159, 146, 150] };
    assert_eq!(decode(frame), ChatEvent::BinaryMessage { bytes: vec![0, 159, 146, 150] });
}

#[test]
fn decode_binary_frame_never_reads_content() {
    let frame = RawFrame { kind: FrameKind::Binary, payload: b"MSG {\"nick\":\"a\",\"data\":\"!imdb x\"}".to_vec() };
    assert!(matches!(decode(frame), ChatEvent::BinaryMessage { .. }));
}

#[test]
fn decode_text_frame_that_is_not_utf8() {
    let frame = RawFrame { kind: FrameKind::Text, payload: vec![0x4d, 0xff, 0x47] };
    assert_eq!(
        decode(frame),
        ChatEvent::ConnectionError { detail: "text frame is not valid UTF-8".to_string() }
    );
    let cut_short = RawFrame { kind: FrameKind::Text, payload: vec![0xe2, 0x98] };
    assert!(matches!(decode(cut_short), ChatEvent::ConnectionError { .. }));
}

#[test]
fn decode_empty_frames() {
    let text = RawFrame { kind: FrameKind::Text, payload: vec![] };
    assert_eq!(decode(text), ChatEvent::TextMessage { raw: String::new() });
    let binary = RawFrame { kind: FrameKind::Binary, payload: vec![] };
    assert_eq!(decode(binary), ChatEvent::BinaryMessage { bytes: vec![] });
}

#[test]
fn encode_adds_nothing() {
    let frame = encode("MSG {\"data\": \"hi\"}");
    assert_eq!(frame.kind, FrameKind::Text);
    assert_eq!(frame.payload, b"MSG {\"data\": \"hi\"}".to_vec());
    assert_eq!(encode("").payload, Vec::<u8>::new());
}

#[test]
fn decode_gives_back_what_encode_wrapped() {
    for text in ["", "plain", "sn\u{f6} \u{2603}", "MSG {\"data\": \"x\"}"].iter() {
        assert_eq!(decode(encode(text)), ChatEvent::TextMessage { raw: text.to_string() });
    }
}
