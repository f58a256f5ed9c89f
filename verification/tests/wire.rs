use chat_client::wire::{
    decode, decode_payload, encode, envelope_from_value, envelope_value, payload_from_value,
};
use chat_client::{ChatMessage, DecodeError, Envelope, MsgTypes};

fn names(list: &[&str]) -> Vec<String> {
    list.iter().map(|name| name.to_string()).collect()
}

fn object(members: &[(&str, serde_json::Value)]) -> serde_json::Value {
    let mut map = serde_json::Map::new();
    for (key, value) in members {
        map.insert(key.to_string(), value.clone());
    }
    serde_json::Value::Object(map)
}

fn text(value: &str) -> serde_json::Value {
    serde_json::Value::String(value.to_string())
}

#[test]
fn register_frame_is_the_wire_text() {
    let frame = encode(&Envelope::Register { username: "alice".to_string() });
    assert_eq!(frame, r#"{"messageType":"register","data":"alice"}"#);
}

#[test]
fn users_frame_is_the_wire_text() {
    let frame = encode(&Envelope::Users { names: names(&["alice", "bob"]) });
    assert_eq!(frame, r#"{"messageType":"users","dataArray":["alice","bob"]}"#);
}

#[test]
fn empty_users_frame_keeps_its_array() {
    let frame = encode(&Envelope::Users { names: Vec::new() });
    assert_eq!(frame, r#"{"messageType":"users","dataArray":[]}"#);
}

#[test]
fn message_frame_escapes_the_nested_text() {
    let data = r#"{"from":"bob","message":"hi"}"#.to_string();
    let frame = encode(&Envelope::Message { data });
    assert_eq!(
        frame,
        r#"{"messageType":"message","data":"{\"from\":\"bob\",\"message\":\"hi\"}"}"#
    );
}

#[test]
fn frame_escapes_quotes_backslashes_and_control_characters() {
    let frame = encode(&Envelope::Register { username: "a\"b\\c\nd\te\u{1}".to_string() });
    assert_eq!(frame, "{\"messageType\":\"register\",\"data\":\"a\\\"b\\\\c\\nd\\te\\u0001\"}");
}

#[test]
fn frame_keeps_text_beyond_ascii() {
    let frame = encode(&Envelope::Register { username: "zoë 日本 🙂".to_string() });
    assert_eq!(frame, "{\"messageType\":\"register\",\"data\":\"zoë 日本 🙂\"}");
}

#[test]
fn register_round_trip() {
    for username in ["alice", "", "a\"b\\c\nd", "zoë 日本 🙂", "{\"from\":1}"] {
        let envelope = Envelope::Register { username: username.to_string() };
        assert_eq!(decode(&encode(&envelope)), Ok(envelope));
    }
}

#[test]
fn users_round_trip() {
    for list in [&[][..], &["alice"][..], &["alice", "bob", "alice"][..], &["", "\u{0}", "é"][..]]
    {
        let envelope = Envelope::Users { names: names(list) };
        assert_eq!(decode(&encode(&envelope)), Ok(envelope));
    }
}

#[test]
fn message_round_trip() {
    for data in [
        r#"{"from":"bob","message":"hello.gif"}"#,
        r#"{"message":"x","from":"y","extra":[1,2,{"a":null}]}"#,
        " { \"from\" : \"\" , \"message\" : \"\" } ",
        "{\"from\":\"\\u00e9\\n\",\"message\":\"\\\"quoted\\\"\"}",
    ] {
        let envelope = Envelope::Message { data: data.to_string() };
        assert_eq!(decode(&encode(&envelope)), Ok(envelope));
    }
}

#[test]
fn message_with_raw_text_does_not_come_back() {
    for data in ["hi", "", "{}", r#"{"from":"bob"}"#, r#"["bob","hi"]"#] {
        let envelope = Envelope::Message { data: data.to_string() };
        assert_eq!(decode(&encode(&envelope)), Err(DecodeError::Payload));
    }
}

#[test]
fn decode_reads_the_three_shapes() {
    assert_eq!(
        decode(r#"{ "messageType": "register", "data": "alice" }"#),
        Ok(Envelope::Register { username: "alice".to_string() })
    );
    assert_eq!(
        decode(r#"{ "messageType": "users",    "dataArray": ["alice", "bob"] }"#),
        Ok(Envelope::Users { names: names(&["alice", "bob"]) })
    );
    assert_eq!(
        decode(r#"{ "messageType": "message",  "data": "{\"from\":\"bob\",\"message\":\"yo\"}" }"#),
        Ok(Envelope::Message { data: r#"{"from":"bob","message":"yo"}"#.to_string() })
    );
}

#[test]
fn decode_takes_members_in_any_order_and_skips_unknown_ones() {
    assert_eq!(
        decode(r#"{"extra":{"deep":[1,2.5,true]},"dataArray":["a"],"messageType":"users"}"#),
        Ok(Envelope::Users { names: names(&["a"]) })
    );
}

#[test]
fn decode_does_not_look_at_the_member_of_another_kind() {
    assert_eq!(
        decode(r#"{"messageType":"users","dataArray":["a"],"data":7}"#),
        Ok(Envelope::Users { names: names(&["a"]) })
    );
    assert_eq!(
        decode(r#"{"messageType":"register","data":"a","dataArray":"no list"}"#),
        Ok(Envelope::Register { username: "a".to_string() })
    );
}

#[test]
fn users_without_names_is_the_empty_roster() {
    let empty = Ok(Envelope::Users { names: Vec::new() });
    assert_eq!(decode(r#"{"messageType":"users"}"#), empty);
    assert_eq!(decode(r#"{"messageType":"users","dataArray":null}"#), empty);
    assert_eq!(decode(r#"{"messageType":"users","dataArray":[]}"#), empty);
}

#[test]
fn register_without_data_names_the_empty_user() {
    let empty = Ok(Envelope::Register { username: String::new() });
    assert_eq!(decode(r#"{"messageType":"register"}"#), empty);
    assert_eq!(decode(r#"{"messageType":"register","data":null}"#), empty);
    assert_eq!(decode(r#"{"messageType":"register","data":""}"#), empty);
}

#[test]
fn text_that_is_not_json_is_a_syntax_error() {
    for frame in [
        "",
        "hello",
        "{",
        "{\"messageType\":\"users\"",
        "{\"messageType\":\"users\"} trailing",
        "{'messageType':'users'}",
        "{\"messageType\":\"users\",}",
    ] {
        assert_eq!(decode(frame), Err(DecodeError::Syntax), "{frame}");
    }
}

#[test]
fn json_that_is_no_envelope_is_a_shape_error() {
    for frame in [
        "null",
        "7",
        "\"users\"",
        "[]",
        "[\"users\",[\"a\"],null]",
        "{}",
        "{\"data\":\"alice\"}",
        "{\"messageType\":null}",
        "{\"messageType\":7}",
        "{\"messageType\":\"Users\"}",
        "{\"messageType\":\"bogus\"}",
        "{\"messageType\":{\"users\":null}}",
        "{\"messagetype\":\"users\"}",
        "{\"messageType\":\"users\",\"dataArray\":\"alice\"}",
        "{\"messageType\":\"users\",\"dataArray\":{\"0\":\"alice\"}}",
        "{\"messageType\":\"users\",\"dataArray\":[\"alice\",7]}",
        "{\"messageType\":\"users\",\"dataArray\":[null]}",
        "{\"messageType\":\"register\",\"data\":7}",
        "{\"messageType\":\"register\",\"data\":[\"alice\"]}",
        "{\"messageType\":\"message\",\"data\":{\"from\":\"a\",\"message\":\"b\"}}",
    ] {
        assert_eq!(decode(frame), Err(DecodeError::Shape), "{frame}");
    }
}

#[test]
fn message_without_a_pair_is_a_payload_error() {
    for frame in [
        r#"{"messageType":"message"}"#,
        r#"{"messageType":"message","data":null}"#,
        r#"{"messageType":"message","data":""}"#,
        r#"{"messageType":"message","data":"hello"}"#,
        r#"{"messageType":"message","data":"{\"from\":\"bob\"}"}"#,
        r#"{"messageType":"message","data":"{\"message\":\"hi\"}"}"#,
        r#"{"messageType":"message","data":"{\"from\":7,\"message\":\"hi\"}"}"#,
        r#"{"messageType":"message","data":"{\"from\":\"bob\",\"message\":null}"}"#,
        r#"{"messageType":"message","data":"[\"bob\",\"hi\"]"}"#,
    ] {
        assert_eq!(decode(frame), Err(DecodeError::Payload), "{frame}");
    }
}

#[test]
fn a_repeated_member_counts_with_its_last_value() {
    assert_eq!(
        decode(r#"{"messageType":"users","messageType":"register","data":"a"}"#),
        Ok(Envelope::Register { username: "a".to_string() })
    );
}

#[test]
fn decode_payload_reads_the_pair() {
    assert_eq!(
        decode_payload(r#"{"from":"bob","message":"hello.gif"}"#),
        Ok(ChatMessage { from: "bob".to_string(), message: "hello.gif".to_string() })
    );
    assert_eq!(
        decode_payload(r#"{"message":"a\nb","from":"\u00e9","seen":true}"#),
        Ok(ChatMessage { from: "é".to_string(), message: "a\nb".to_string() })
    );
}

#[test]
fn decode_payload_refuses_everything_else() {
    for data in ["", "bob", "{", "{}", "null", r#"{"from":"bob"}"#, r#"{"from":"a","message":1}"#]
    {
        assert_eq!(decode_payload(data), Err(DecodeError::Payload), "{data}");
    }
}

#[test]
fn envelope_from_value_reads_a_built_value() {
    let value = object(&[
        ("messageType", text("users")),
        ("dataArray", serde_json::Value::Array(vec![text("alice"), text("bob")])),
    ]);
    assert_eq!(
        envelope_from_value(&value),
        Ok(Envelope::Users { names: names(&["alice", "bob"]) })
    );
    let value = object(&[("messageType", text("register")), ("data", text("carol"))]);
    assert_eq!(
        envelope_from_value(&value),
        Ok(Envelope::Register { username: "carol".to_string() })
    );
    let value = object(&[("messageType", text("message")), ("data", text("{\"from\":\"a\",\"message\":\"b\"}"))]);
    assert_eq!(
        envelope_from_value(&value),
        Ok(Envelope::Message { data: "{\"from\":\"a\",\"message\":\"b\"}".to_string() })
    );
}

#[test]
fn envelope_from_value_refuses_what_is_no_envelope() {
    assert_eq!(envelope_from_value(&serde_json::Value::Null), Err(DecodeError::Shape));
    assert_eq!(envelope_from_value(&text("users")), Err(DecodeError::Shape));
    assert_eq!(envelope_from_value(&object(&[])), Err(DecodeError::Shape));
    let value = object(&[("messageType", text("users")), ("dataArray", serde_json::Value::Bool(true))]);
    assert_eq!(envelope_from_value(&value), Err(DecodeError::Shape));
    let value = object(&[("messageType", text("message")), ("data", text("no pair"))]);
    assert_eq!(envelope_from_value(&value), Err(DecodeError::Payload));
    let value = object(&[("messageType", text("message"))]);
    assert_eq!(envelope_from_value(&value), Err(DecodeError::Payload));
}

#[test]
fn payload_from_value_reads_a_built_value() {
    let value = object(&[("from", text("bob")), ("message", text("yo"))]);
    assert_eq!(
        payload_from_value(&value),
        Ok(ChatMessage { from: "bob".to_string(), message: "yo".to_string() })
    );
    let value = object(&[("from", text("bob")), ("message", serde_json::Value::Null)]);
    assert_eq!(payload_from_value(&value), Err(DecodeError::Payload));
    assert_eq!(payload_from_value(&text("bob")), Err(DecodeError::Payload));
}

#[test]
fn envelope_value_builds_the_object() {
    let value = envelope_value(&Envelope::Users { names: names(&["alice"]) });
    let expected = object(&[
        ("messageType", text("users")),
        ("dataArray", serde_json::Value::Array(vec![text("alice")])),
    ]);
    assert_eq!(value, expected);
    let keys: Vec<&String> = value.as_object().unwrap().keys().collect();
    assert_eq!(keys, ["messageType", "dataArray"]);
    assert_eq!(envelope_from_value(&value), Ok(Envelope::Users { names: names(&["alice"]) }));
}

#[test]
fn kinds_and_tags() {
    for (kind, tag) in
        [(MsgTypes::Users, "users"), (MsgTypes::Register, "register"), (MsgTypes::Message, "message")]
    {
        assert_eq!(kind.tag(), tag);
        assert_eq!(MsgTypes::from_tag(tag), Some(kind));
    }
    for tag in ["", "Users", "user", "users ", "MESSAGE", "registers"] {
        assert_eq!(MsgTypes::from_tag(tag), None);
    }
}

#[test]
fn envelope_knows_its_kind() {
    assert_eq!(Envelope::Users { names: Vec::new() }.message_type(), MsgTypes::Users);
    assert_eq!(Envelope::Register { username: String::new() }.message_type(), MsgTypes::Register);
    assert_eq!(Envelope::Message { data: String::new() }.message_type(), MsgTypes::Message);
}

#[test]
fn nesting_beyond_the_parsers_depth_is_a_syntax_error() {
    let deep = format!("{}{}", "[".repeat(200), "]".repeat(200));
    let frame = format!("{{\"messageType\":\"users\",\"extra\":{deep}}}");
    assert_eq!(decode(&frame), Err(DecodeError::Syntax));
    let shallow = format!("{}{}", "[".repeat(100), "]".repeat(100));
    let frame = format!("{{\"messageType\":\"users\",\"extra\":{shallow}}}");
    assert_eq!(decode(&frame), Ok(Envelope::Users { names: Vec::new() }));
}

#[test]
fn every_character_comes_back() {
    let mut all = String::new();
    for code in 0u32..0x300 {
        if let Some(character) = char::from_u32(code) {
            all.push(character);
        }
    }
    all.push_str("\u{2028}\u{2029}\u{fffd}\u{10ffff}\u{1f600}");
    let envelope = Envelope::Register { username: all.clone() };
    assert_eq!(decode(&encode(&envelope)), Ok(envelope));
    let envelope = Envelope::Users { names: vec![all.clone(), String::new(), all] };
    assert_eq!(decode(&encode(&envelope)), Ok(envelope));
}

#[test]
fn a_long_roster_comes_back() {
    let list: Vec<String> = (0..2000).map(|i| format!("user{i}")).collect();
    let envelope = Envelope::Users { names: list };
    assert_eq!(decode(&encode(&envelope)), Ok(envelope));
}

#[test]
fn decode_keeps_the_names_as_they_were_sent() {
    assert_eq!(
        decode(r#"{"messageType":"users","dataArray":["b","a","b",""]}"#),
        Ok(Envelope::Users { names: names(&["b", "a", "b", ""]) })
    );
}

#[test]
fn decode_unescapes_what_the_text_escapes() {
    assert_eq!(
        decode(r#"{"messageType":"register","data":"aA\n\"\\\/😀"}"#),
        Ok(Envelope::Register { username: "aA\n\"\\/\u{1f600}".to_string() })
    );
}
