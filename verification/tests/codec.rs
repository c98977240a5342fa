use retro_chat::codec::{encode, frame, seal, EncodeError};
use retro_chat::envelope::{ChatMessage, MessageType};

fn message(username: &str, content: &str, timestamp: &str, kind: MessageType) -> ChatMessage {
    ChatMessage::new(username.to_string(), content.to_string(), timestamp.to_string(), kind)
}

fn refusal() -> serde_json::Error {
    serde_json::from_str::<u8>("not a number").unwrap_err()
}

#[test]
fn new_keeps_the_four_members() {
    let m = message("Alice", "hello", "12:34:56", MessageType::UserMessage);
    assert_eq!(m.username, "Alice");
    assert_eq!(m.content, "hello");
    assert_eq!(m.timestamp, "12:34:56");
    assert_eq!(m.message_type, MessageType::UserMessage);
}

#[test]
fn user_message_on_the_wire() {
    let m = message("Alice", "hi there", "09:05:00", MessageType::UserMessage);
    assert_eq!(
        encode(&m).unwrap(),
        "{\"username\":\"Alice\",\"content\":\"hi there\",\"timestamp\":\"09:05:00\",\"message_type\":\"UserMessage\"}"
    );
}

#[test]
fn notification_on_the_wire() {
    let m = message("Bob", "joined the chat", "23:59:59", MessageType::SystemNotification);
    assert_eq!(
        encode(&m).unwrap(),
        "{\"username\":\"Bob\",\"content\":\"joined the chat\",\"timestamp\":\"23:59:59\",\"message_type\":\"SystemNotification\"}"
    );
}

#[test]
fn empty_members_on_the_wire() {
    let m = message("", "", "", MessageType::UserMessage);
    assert_eq!(
        encode(&m).unwrap(),
        "{\"username\":\"\",\"content\":\"\",\"timestamp\":\"\",\"message_type\":\"UserMessage\"}"
    );
}

#[test]
fn quotes_and_backslashes_are_escaped() {
    let m = message("a\"b", "c\\d", "t", MessageType::UserMessage);
    assert_eq!(
        encode(&m).unwrap(),
        "{\"username\":\"a\\\"b\",\"content\":\"c\\\\d\",\"timestamp\":\"t\",\"message_type\":\"UserMessage\"}"
    );
}

#[test]
fn control_characters_are_escaped() {
    let m = message("n", "\u{8}\t\n\u{c}\r", "t", MessageType::UserMessage);
    assert_eq!(
        encode(&m).unwrap(),
        "{\"username\":\"n\",\"content\":\"\\b\\t\\n\\f\\r\",\"timestamp\":\"t\",\"message_type\":\"UserMessage\"}"
    );
    let m = message("n", "\u{0}\u{1}\u{b}\u{e}\u{1a}\u{1f}", "t", MessageType::UserMessage);
    assert_eq!(
        encode(&m).unwrap(),
        "{\"username\":\"n\",\"content\":\"\\u0000\\u0001\\u000b\\u000e\\u001a\\u001f\",\"timestamp\":\"t\",\"message_type\":\"UserMessage\"}"
    );
}

#[test]
fn other_characters_pass_as_they_are() {
    let m = message("Zo\u{eb}", " /\u{7f}\u{80}\u{2028}\u{1f600}'", "t", MessageType::UserMessage);
    assert_eq!(
        encode(&m).unwrap(),
        "{\"username\":\"Zo\u{eb}\",\"content\":\" /\u{7f}\u{80}\u{2028}\u{1f600}'\",\"timestamp\":\"t\",\"message_type\":\"UserMessage\"}"
    );
}

#[test]
fn every_character_below_space_is_escaped() {
    let mut n: u32 = 0;
    while n < 0x20 {
        let c = char::from_u32(n).unwrap();
        let m = message("n", &c.to_string(), "t", MessageType::UserMessage);
        let text = encode(&m).unwrap();
        assert!(text.chars().all(|x| x >= ' '), "U+{:04X}", n);
        n += 1;
    }
}

#[test]
fn the_wire_form_is_one_line() {
    let m = message("two\nlines", "a\r\nb\n", "\n", MessageType::SystemNotification);
    let text = encode(&m).unwrap();
    assert!(!text.contains('\n'));
    assert!(!text.contains('\r'));
}

#[test]
fn the_wire_form_parses_back_to_the_members() {
    let m = message("A \"quoted\" name", "line\\one\nline two\t\u{1}\u{e9}", "07:08:09", MessageType::UserMessage);
    let text = encode(&m).unwrap();
    let value: serde_json::Value = serde_json::from_str(&text).unwrap();
    let object = value.as_object().unwrap();
    assert_eq!(object.len(), 4);
    assert_eq!(object["username"].as_str(), Some("A \"quoted\" name"));
    assert_eq!(object["content"].as_str(), Some("line\\one\nline two\t\u{1}\u{e9}"));
    assert_eq!(object["timestamp"].as_str(), Some("07:08:09"));
    assert_eq!(object["message_type"].as_str(), Some("UserMessage"));
}

#[test]
fn the_members_stand_in_wire_order() {
    let m = message("u", "c", "t", MessageType::SystemNotification);
    let text = encode(&m).unwrap();
    let username = text.find("\"username\"").unwrap();
    let content = text.find("\"content\"").unwrap();
    let timestamp = text.find("\"timestamp\"").unwrap();
    let kind = text.find("\"message_type\"").unwrap();
    assert!(username < content && content < timestamp && timestamp < kind);
}

#[test]
fn frame_joins_the_members() {
    assert_eq!(
        frame("\"a\"", "\"b\"", "\"c\"", MessageType::UserMessage),
        "{\"username\":\"a\",\"content\":\"b\",\"timestamp\":\"c\",\"message_type\":\"UserMessage\"}"
    );
    assert_eq!(
        frame("1", "2", "3", MessageType::SystemNotification),
        "{\"username\":1,\"content\":2,\"timestamp\":3,\"message_type\":\"SystemNotification\"}"
    );
}

#[test]
fn seal_frames_what_the_encoder_returned() {
    let sealed = seal(
        Ok("\"a\"".to_string()),
        Ok("\"b\"".to_string()),
        Ok("\"c\"".to_string()),
        MessageType::UserMessage,
    );
    assert_eq!(
        sealed,
        Ok("{\"username\":\"a\",\"content\":\"b\",\"timestamp\":\"c\",\"message_type\":\"UserMessage\"}".to_string())
    );
}

#[test]
fn seal_reports_a_refused_username() {
    let sealed = seal(Err(refusal()), Ok("b".to_string()), Ok("c".to_string()), MessageType::UserMessage);
    assert_eq!(sealed, Err(EncodeError::Username));
}

#[test]
fn seal_reports_a_refused_content() {
    let sealed = seal(Ok("a".to_string()), Err(refusal()), Ok("c".to_string()), MessageType::UserMessage);
    assert_eq!(sealed, Err(EncodeError::Content));
}

#[test]
fn seal_reports_a_refused_timestamp() {
    let sealed = seal(Ok("a".to_string()), Ok("b".to_string()), Err(refusal()), MessageType::UserMessage);
    assert_eq!(sealed, Err(EncodeError::Timestamp));
}

#[test]
fn seal_reports_the_first_refusal_in_wire_order() {
    let sealed = seal(Err(refusal()), Err(refusal()), Err(refusal()), MessageType::UserMessage);
    assert_eq!(sealed, Err(EncodeError::Username));
    let sealed = seal(Ok("a".to_string()), Err(refusal()), Err(refusal()), MessageType::UserMessage);
    assert_eq!(sealed, Err(EncodeError::Content));
}

#[test]
fn encode_differs_from_its_input() {
    let m = message("Alice", "hello", "12:00:00", MessageType::UserMessage);
    let text = encode(&m).unwrap();
    assert_ne!(text, "hello");
    assert!(text.contains("\"hello\""));
}

fn escaped(c: char) -> String {
    match c {
        '"' => "\\\"".to_string(),
        '\\' => "\\\\".to_string(),
        '\u{8}' => "\\b".to_string(),
        '\t' => "\\t".to_string(),
        '\n' => "\\n".to_string(),
        '\u{c}' => "\\f".to_string(),
        '\r' => "\\r".to_string(),
        c if (c as u32) < 0x20 => format!("\\u00{:02x}", c as u32),
        c => c.to_string(),
    }
}

#[test]
fn every_character_stands_on_the_wire_as_json_writes_it() {
    let mut n: u32 = 0;
    while n <= 0x10FFFF {
        if let Some(c) = char::from_u32(n) {
            let m = message(&c.to_string(), "", "", MessageType::UserMessage);
            let expected = format!(
                "{{\"username\":\"{}\",\"content\":\"\",\"timestamp\":\"\",\"message_type\":\"UserMessage\"}}",
                escaped(c)
            );
            assert_eq!(encode(&m).unwrap(), expected, "U+{:04X}", n);
        }
        n += 1;
    }
}

#[test]
fn escapes_follow_one_another_in_order() {
    let m = message("x", "a\"b\\c\nd\u{1}e\u{e9}", "t", MessageType::UserMessage);
    let expected: String = "a\"b\\c\nd\u{1}e\u{e9}".chars().map(escaped).collect();
    assert_eq!(expected, "a\\\"b\\\\c\\nd\\u0001e\u{e9}");
    assert_eq!(
        encode(&m).unwrap(),
        format!(
            "{{\"username\":\"x\",\"content\":\"{}\",\"timestamp\":\"t\",\"message_type\":\"UserMessage\"}}",
            expected
        )
    );
}

#[test]
fn members_that_look_like_framing_do_not_collide() {
    let plain = message("a", "b", "t", MessageType::UserMessage);
    let sly = message("a\",\"content\":\"b", "", "t", MessageType::UserMessage);
    let one = encode(&plain).unwrap();
    let other = encode(&sly).unwrap();
    assert_ne!(one, other);
    let value: serde_json::Value = serde_json::from_str(&other).unwrap();
    assert_eq!(value["username"].as_str(), Some("a\",\"content\":\"b"));
    assert_eq!(value["content"].as_str(), Some(""));
}

#[test]
fn envelopes_that_differ_in_one_member_differ_on_the_wire() {
    let base = message("a", "b", "c", MessageType::UserMessage);
    let others = [
        message("a ", "b", "c", MessageType::UserMessage),
        message("a", "b\\", "c", MessageType::UserMessage),
        message("a", "b", "", MessageType::UserMessage),
        message("a", "b", "c", MessageType::SystemNotification),
        message("ab", "", "c", MessageType::UserMessage),
        message("a", "\u{1}b", "c", MessageType::UserMessage),
        message("a", "\\u0001b", "c", MessageType::UserMessage),
    ];
    let wire = encode(&base).unwrap();
    for (i, other) in others.iter().enumerate() {
        assert_ne!(encode(other).unwrap(), wire);
        for later in others.iter().skip(i + 1) {
            assert_ne!(encode(other).unwrap(), encode(later).unwrap());
        }
    }
}
