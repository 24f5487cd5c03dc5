use asyncslackbot::{DecodeFailure, Event, MessageEvent};

fn message(user: &str, text: &str, ts: &str, channel: &str, subtype: Option<&str>) -> Event {
    Event::Message {
        data: MessageEvent {
            user: user.to_string(),
            text: text.to_string(),
            ts: ts.to_string(),
            channel: channel.to_string(),
            subtype: subtype.map(|s| s.to_string()),
        },
    }
}

#[test]
fn hello_frame_decodes_to_hello() {
    assert_eq!(Event::decode("{\"type\":\"hello\"}"), Ok(Event::Hello));
}

#[test]
fn message_frame_decodes_with_exact_fields() {
    let frame = "{\"type\":\"message\",\"user\":\"U2\",\"text\":\"hi\",\"ts\":\"123.4\",\"channel\":\"C1\"}";
    assert_eq!(Event::decode(frame), Ok(message("U2", "hi", "123.4", "C1", None)));
}

#[test]
fn message_frame_keeps_subtype() {
    let frame = "{\"type\":\"message\",\"subtype\":\"message_changed\",\"user\":\"U2\",\"text\":\"hi\",\"ts\":\"1\",\"channel\":\"C1\"}";
    assert_eq!(Event::decode(frame), Ok(message("U2", "hi", "1", "C1", Some("message_changed"))));
}

#[test]
fn null_subtype_counts_as_absent() {
    let frame = "{\"type\":\"message\",\"subtype\":null,\"user\":\"U2\",\"text\":\"hi\",\"ts\":\"1\",\"channel\":\"C1\"}";
    assert_eq!(Event::decode(frame), Ok(message("U2", "hi", "1", "C1", None)));
}

#[test]
fn escapes_in_text_are_decoded() {
    let frame = "{\"type\":\"message\",\"user\":\"U2\",\"text\":\"a\\n\\\"b\\\" \\u00e9\",\"ts\":\"1\",\"channel\":\"C1\"}";
    assert_eq!(Event::decode(frame), Ok(message("U2", "a\n\"b\" \u{e9}", "1", "C1", None)));
}

#[test]
fn unknown_members_are_ignored() {
    let frame = "{\"type\":\"message\",\"user\":\"U2\",\"text\":\"hi\",\"ts\":\"1\",\"channel\":\"C1\",\"team\":\"T1\",\"blocks\":[{\"a\":1.5}],\"n\":-3}";
    assert_eq!(Event::decode(frame), Ok(message("U2", "hi", "1", "C1", None)));
}

#[test]
fn decoding_twice_gives_identical_events() {
    let frame = "{\"type\":\"message\",\"user\":\"U2\",\"text\":\"hi\",\"ts\":\"123.4\",\"channel\":\"C1\"}";
    assert_eq!(Event::decode(frame), Event::decode(frame));
}

#[test]
fn text_that_is_not_json_is_not_an_object() {
    assert_eq!(Event::decode("not json"), Err(DecodeFailure::NotAnObject));
    assert_eq!(Event::decode(""), Err(DecodeFailure::NotAnObject));
    assert_eq!(Event::decode("{\"type\":\"hello\""), Err(DecodeFailure::NotAnObject));
}

#[test]
fn json_that_is_no_object_is_not_an_object() {
    assert_eq!(Event::decode("[1,2]"), Err(DecodeFailure::NotAnObject));
    assert_eq!(Event::decode("\"hello\""), Err(DecodeFailure::NotAnObject));
    assert_eq!(Event::decode("null"), Err(DecodeFailure::NotAnObject));
}

#[test]
fn frame_without_type_misses_its_tag() {
    assert_eq!(Event::decode("{}"), Err(DecodeFailure::MissingTag));
    assert_eq!(Event::decode("{\"user\":\"U2\"}"), Err(DecodeFailure::MissingTag));
    assert_eq!(Event::decode("{\"type\":7}"), Err(DecodeFailure::MissingTag));
    assert_eq!(Event::decode("{\"type\":null}"), Err(DecodeFailure::MissingTag));
}

#[test]
fn frame_of_another_type_has_an_unknown_tag() {
    assert_eq!(Event::decode("{\"type\":\"user_typing\",\"user\":\"U2\"}"), Err(DecodeFailure::UnknownTag));
    assert_eq!(Event::decode("{\"type\":\"Hello\"}"), Err(DecodeFailure::UnknownTag));
    assert_eq!(Event::decode("{\"type\":\"\"}"), Err(DecodeFailure::UnknownTag));
}

#[test]
fn message_without_a_required_member_misses_a_field() {
    let no_user = "{\"type\":\"message\",\"text\":\"hi\",\"ts\":\"1\",\"channel\":\"C1\"}";
    let no_text = "{\"type\":\"message\",\"user\":\"U2\",\"ts\":\"1\",\"channel\":\"C1\"}";
    let no_ts = "{\"type\":\"message\",\"user\":\"U2\",\"text\":\"hi\",\"channel\":\"C1\"}";
    let no_channel = "{\"type\":\"message\",\"user\":\"U2\",\"text\":\"hi\",\"ts\":\"1\"}";
    assert_eq!(Event::decode(no_user), Err(DecodeFailure::MissingField));
    assert_eq!(Event::decode(no_text), Err(DecodeFailure::MissingField));
    assert_eq!(Event::decode(no_ts), Err(DecodeFailure::MissingField));
    assert_eq!(Event::decode(no_channel), Err(DecodeFailure::MissingField));
}

#[test]
fn message_with_a_member_of_the_wrong_kind_misses_a_field() {
    let numeric_ts = "{\"type\":\"message\",\"user\":\"U2\",\"text\":\"hi\",\"ts\":123.4,\"channel\":\"C1\"}";
    let numeric_subtype = "{\"type\":\"message\",\"subtype\":1,\"user\":\"U2\",\"text\":\"hi\",\"ts\":\"1\",\"channel\":\"C1\"}";
    assert_eq!(Event::decode(numeric_ts), Err(DecodeFailure::MissingField));
    assert_eq!(Event::decode(numeric_subtype), Err(DecodeFailure::MissingField));
}
