use imdb_bot::frame::split_once;
use imdb_bot::payload::{parse, parse_payload, payload_from_members, Msg, PayloadError};

fn msg(nick: &str, data: &str) -> Msg {
    Msg { nick: nick.to_string(), data: data.to_string() }
}

#[test]
fn test_parse() {
    let out = Msg {
        nick: String::from("jbpratt"),
        data: String::from("test"),
    };
    let in_msg = vec![
        "MSG",
        "{\"nick\":\"jbpratt\",\"features\":[],\"timestamp\":1568160987374,\"data\":\"test\"}",
    ];
    assert_eq!(parse(in_msg).unwrap(), out)
}

#[test]
fn parse_reads_the_second_piece_only() {
    let in_msg = vec!["not json at all", "{\"nick\":\"a\",\"data\":\"b\"}", "ignored"];
    assert_eq!(parse(in_msg), Ok(msg("a", "b")));
}

#[test]
fn parse_takes_every_split_line() {
    assert_eq!(parse(split_once("MSG {\"nick\":\"a\",\"data\":\"b\"}")), Ok(msg("a", "b")));
    assert_eq!(parse(split_once("MSG")), Err(PayloadError::NotJson));
    assert_eq!(parse(split_once("")), Err(PayloadError::NotJson));
    assert_eq!(parse(split_once("MSG {\"nick\":\"a\"}")), Err(PayloadError::MissingData));
}

#[test]
fn payload_with_both_members() {
    assert_eq!(parse_payload("{\"nick\":\"alice\",\"data\":\"!imdb dune\"}"), Ok(msg("alice", "!imdb dune")));
    assert_eq!(parse_payload("{\"data\":\"d\",\"nick\":\"n\"}"), Ok(msg("n", "d")));
    assert_eq!(parse_payload("  { \"nick\" : \"n\" , \"data\" : \"\" }  "), Ok(msg("n", "")));
}

#[test]
fn payload_ignores_other_members() {
    let plain = parse_payload("{\"nick\":\"n\",\"data\":\"d\"}");
    let extra = parse_payload(
        "{\"features\":[\"a\"],\"nick\":\"n\",\"timestamp\":1,\"data\":\"d\",\"nested\":{\"nick\":\"other\"}}",
    );
    assert_eq!(plain, Ok(msg("n", "d")));
    assert_eq!(extra, plain);
}

#[test]
fn payload_unescapes_strings() {
    assert_eq!(
        parse_payload("{\"nick\":\"a\\\"b\",\"data\":\"line\\nbreak \\u00e9 \\\\\"}"),
        Ok(msg("a\"b", "line\nbreak \u{e9} \\"))
    );
}

#[test]
fn payload_without_nick() {
    assert_eq!(parse_payload("{\"data\":\"d\"}"), Err(PayloadError::MissingNick));
    assert_eq!(parse_payload("{}"), Err(PayloadError::MissingNick));
}

#[test]
fn payload_without_data() {
    assert_eq!(parse_payload("{\"nick\":\"n\"}"), Err(PayloadError::MissingData));
    assert_eq!(parse_payload("{\"nick\":\"n\",\"Data\":\"d\"}"), Err(PayloadError::MissingData));
}

#[test]
fn payload_with_a_member_of_the_wrong_type() {
    assert_eq!(parse_payload("{\"nick\":5,\"data\":\"d\"}"), Err(PayloadError::MissingNick));
    assert_eq!(parse_payload("{\"nick\":null,\"data\":\"d\"}"), Err(PayloadError::MissingNick));
    assert_eq!(parse_payload("{\"nick\":\"n\",\"data\":[\"d\"]}"), Err(PayloadError::MissingData));
    assert_eq!(parse_payload("{\"nick\":\"n\",\"data\":{\"text\":\"d\"}}"), Err(PayloadError::MissingData));
    assert_eq!(parse_payload("{\"nick\":\"n\",\"data\":true}"), Err(PayloadError::MissingData));
}

#[test]
fn payload_that_is_no_object() {
    assert_eq!(parse_payload("[\"n\",\"d\"]"), Err(PayloadError::MissingNick));
    assert_eq!(parse_payload("\"nick\""), Err(PayloadError::MissingNick));
    assert_eq!(parse_payload("12"), Err(PayloadError::MissingNick));
    assert_eq!(parse_payload("null"), Err(PayloadError::MissingNick));
}

#[test]
fn payload_that_is_not_json() {
    assert_eq!(parse_payload(""), Err(PayloadError::NotJson));
    assert_eq!(parse_payload("hello"), Err(PayloadError::NotJson));
    assert_eq!(parse_payload("{\"nick\":\"n\",\"data\":\"d\""), Err(PayloadError::NotJson));
    assert_eq!(parse_payload("{\"nick\":\"n\",\"data\":\"d\"} trailing"), Err(PayloadError::NotJson));
    assert_eq!(parse_payload("{nick:\"n\"}"), Err(PayloadError::NotJson));
}

#[test]
fn payload_does_not_hand_the_argument_back() {
    let argument = "{\"nick\":\"n\",\"data\":\"d\"}";
    let parsed = parse_payload(argument).unwrap();
    assert_ne!(parsed.nick, argument);
    assert_ne!(parsed.data, argument);
    assert_eq!(parsed.nick, "n");
    assert_eq!(parsed.data, "d");
}

#[test]
fn members_make_a_payload() {
    assert_eq!(
        payload_from_members(Some("n".to_string()), Some("d".to_string())),
        Ok(msg("n", "d"))
    );
}

#[test]
fn missing_members_are_reported_nick_first() {
    assert_eq!(payload_from_members(None, Some("d".to_string())), Err(PayloadError::MissingNick));
    assert_eq!(payload_from_members(Some("n".to_string()), None), Err(PayloadError::MissingData));
    assert_eq!(payload_from_members(None, None), Err(PayloadError::MissingNick));
}
