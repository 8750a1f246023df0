use roomchat::message::Message;
use roomchat::wire::{
    find_member, frame_new_message, frame_your_name, ProtocolError, SocketMessage,
    SocketUpdateMessage,
};

fn member(name: &str, text: Option<&str>) -> (String, Option<String>) {
    (name.to_string(), text.map(|t| t.to_string()))
}

#[test]
fn a_posted_message_is_decoded() {
    assert_eq!(
        SocketMessage::from_json(r#"{"type":"new_message","value":"hi"}"#),
        Ok(SocketMessage::NewMessage("hi".to_string()))
    );
}

#[test]
fn a_rename_is_decoded() {
    assert_eq!(
        SocketMessage::from_json(r#"{"type":"update_name","value":"Ann"}"#),
        Ok(SocketMessage::UpdateName("Ann".to_string()))
    );
}

#[test]
fn the_order_of_members_and_whitespace_do_not_matter() {
    assert_eq!(
        SocketMessage::from_json("  { \"value\" : \"hi\" ,\n \"type\" : \"new_message\" }\n"),
        Ok(SocketMessage::NewMessage("hi".to_string()))
    );
}

#[test]
fn escapes_in_the_payload_are_resolved() {
    assert_eq!(
        SocketMessage::from_json(r#"{"type":"new_message","value":"a\"b\\c\ndA"}"#),
        Ok(SocketMessage::NewMessage("a\"b\\c\ndA".to_string()))
    );
}

#[test]
fn an_empty_payload_is_a_payload() {
    assert_eq!(
        SocketMessage::from_json(r#"{"type":"update_name","value":""}"#),
        Ok(SocketMessage::UpdateName(String::new()))
    );
}

#[test]
fn members_that_are_not_asked_for_are_ignored() {
    assert_eq!(
        SocketMessage::from_json(r#"{"type":"new_message","value":"hi","seq":12,"tags":["a"]}"#),
        Ok(SocketMessage::NewMessage("hi".to_string()))
    );
}

#[test]
fn text_that_is_not_an_object_is_malformed() {
    for text in ["", "hello", "42", "\"new_message\"", "null", "[\"new_message\",\"hi\"]", "{", "{\"type\":}"] {
        assert_eq!(SocketMessage::from_json(text), Err(ProtocolError::Malformed));
    }
}

#[test]
fn text_after_the_object_is_malformed() {
    assert_eq!(
        SocketMessage::from_json(r#"{"type":"new_message","value":"hi"} x"#),
        Err(ProtocolError::Malformed)
    );
}

#[test]
fn an_object_without_a_type_is_refused() {
    assert_eq!(SocketMessage::from_json("{}"), Err(ProtocolError::MissingType));
    assert_eq!(SocketMessage::from_json(r#"{"value":"hi"}"#), Err(ProtocolError::MissingType));
    assert_eq!(
        SocketMessage::from_json(r#"{"type":1,"value":"hi"}"#),
        Err(ProtocolError::MissingType)
    );
    assert_eq!(
        SocketMessage::from_json(r#"{"Type":"new_message","value":"hi"}"#),
        Err(ProtocolError::MissingType)
    );
}

#[test]
fn an_unknown_type_is_refused() {
    for kind in ["", "your_name", "NEW_MESSAGE", "new_message ", "delete"] {
        let text = format!("{{\"type\":\"{}\",\"value\":\"hi\"}}", kind);
        assert_eq!(SocketMessage::from_json(text.as_str()), Err(ProtocolError::UnknownType));
    }
    // the type is looked at before the payload
    assert_eq!(SocketMessage::from_json(r#"{"type":"delete"}"#), Err(ProtocolError::UnknownType));
}

#[test]
fn a_known_type_without_a_text_payload_is_refused() {
    assert_eq!(
        SocketMessage::from_json(r#"{"type":"new_message"}"#),
        Err(ProtocolError::MissingValue)
    );
    assert_eq!(
        SocketMessage::from_json(r#"{"type":"update_name","value":null}"#),
        Err(ProtocolError::MissingValue)
    );
    assert_eq!(
        SocketMessage::from_json(r#"{"type":"new_message","value":{"content":"hi"}}"#),
        Err(ProtocolError::MissingValue)
    );
    assert_eq!(
        SocketMessage::from_json(r#"{"type":"new_message","value":7}"#),
        Err(ProtocolError::MissingValue)
    );
}

#[test]
fn members_are_read_by_name() {
    let members = vec![member("type", Some("update_name")), member("value", Some("Ann"))];
    assert_eq!(SocketMessage::from_members(&members), Ok(SocketMessage::UpdateName("Ann".to_string())));
    let members = vec![member("value", Some("hi")), member("type", Some("new_message"))];
    assert_eq!(SocketMessage::from_members(&members), Ok(SocketMessage::NewMessage("hi".to_string())));
    assert_eq!(SocketMessage::from_members(&Vec::new()), Err(ProtocolError::MissingType));
    let members = vec![member("type", None), member("value", Some("hi"))];
    assert_eq!(SocketMessage::from_members(&members), Err(ProtocolError::MissingType));
    let members = vec![member("type", Some("other")), member("value", Some("hi"))];
    assert_eq!(SocketMessage::from_members(&members), Err(ProtocolError::UnknownType));
    let members = vec![member("type", Some("new_message")), member("value", None)];
    assert_eq!(SocketMessage::from_members(&members), Err(ProtocolError::MissingValue));
}

#[test]
fn the_first_member_of_a_name_counts() {
    let members = vec![
        member("a", Some("1")),
        member("b", None),
        member("a", Some("2")),
        member("b", Some("3")),
    ];
    assert_eq!(find_member(&members, "a"), Some("1".to_string()));
    assert_eq!(find_member(&members, "b"), None);
    assert_eq!(find_member(&members, "c"), None);
    assert_eq!(find_member(&Vec::new(), "a"), None);
}

#[test]
fn a_name_notice_is_encoded() {
    assert_eq!(
        SocketUpdateMessage::YourName("Ann".to_string()).to_json(),
        r#"{"type":"your_name","value":"Ann"}"#
    );
}

#[test]
fn a_log_entry_without_a_name_is_encoded_with_null() {
    let m = Message { content: "hello".to_string(), user_id: 17, user_name: None };
    assert_eq!(
        SocketUpdateMessage::NewMessage(m).to_json(),
        r#"{"type":"new_message","value":{"content":"hello","user_id":17,"user_name":null}}"#
    );
}

#[test]
fn a_log_entry_with_a_name_is_encoded_with_the_name() {
    let m = Message {
        content: "hi".to_string(),
        user_id: 4_294_967_295,
        user_name: Some("Ann".to_string()),
    };
    assert_eq!(
        SocketUpdateMessage::NewMessage(m).to_json(),
        r#"{"type":"new_message","value":{"content":"hi","user_id":4294967295,"user_name":"Ann"}}"#
    );
}

#[test]
fn special_characters_are_escaped_when_encoding() {
    assert_eq!(
        SocketUpdateMessage::YourName("a\"b\\c\nd\te\u{1}é".to_string()).to_json(),
        "{\"type\":\"your_name\",\"value\":\"a\\\"b\\\\c\\nd\\te\\u0001é\"}"
    );
}

#[test]
fn what_is_encoded_is_json_with_the_same_values() {
    let m = Message {
        content: "x \"quoted\" \\ y".to_string(),
        user_id: 12,
        user_name: Some("né\n".to_string()),
    };
    let text = SocketUpdateMessage::NewMessage(m).to_json();
    let value: serde_json::Value = serde_json::from_str(text.as_str()).unwrap();
    assert_eq!(value["type"].as_str(), Some("new_message"));
    assert_eq!(value["value"]["content"].as_str(), Some("x \"quoted\" \\ y"));
    assert_eq!(value["value"]["user_id"].as_u64(), Some(12));
    assert_eq!(value["value"]["user_name"].as_str(), Some("né\n"));
}

#[test]
fn frames_are_built_around_the_texts_they_are_given() {
    assert_eq!(frame_your_name("\"Ann\""), r#"{"type":"your_name","value":"Ann"}"#);
    assert_eq!(frame_your_name(""), r#"{"type":"your_name","value":}"#);
    assert_eq!(
        frame_new_message("\"hello\"", 7, "null"),
        r#"{"type":"new_message","value":{"content":"hello","user_id":7,"user_name":null}}"#
    );
    assert_eq!(
        frame_new_message("C", 0, "N"),
        r#"{"type":"new_message","value":{"content":C,"user_id":0,"user_name":N}}"#
    );
}
