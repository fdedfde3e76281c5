use witchcraft_notifications::json::{parse, Json, JsonNumber};
use witchcraft_notifications::protocol::{
    ProtocolError, Severity, WitchcraftMessage, WitchcraftNotification, WitchcraftOutgoingMessage,
};

fn sample(id: &str) -> WitchcraftNotification {
    WitchcraftNotification {
        id: id.to_string(),
        title: "Build".to_string(),
        message: "finished".to_string(),
        notification_type: "success".to_string(),
        priority: 3,
        action_url: None,
        action_label: None,
        created_at: "2024-01-01T00:00:00Z".to_string(),
    }
}

const ITEM: &str = "{\"id\":\"abc\",\"title\":\"Build\",\"message\":\"finished\",\"type\":\"success\",\"priority\":3,\"createdAt\":\"2024-01-01T00:00:00Z\"}";

#[test]
fn connected_frame_decodes_to_connected_with_user_id() {
    let text = "{\"type\":\"connected\",\"userId\":\"u1\",\"timestamp\":\"t\",\"method\":\"realtime\"}";
    let message = WitchcraftMessage::decode(text);
    assert_eq!(
        message,
        Ok(WitchcraftMessage::Connected {
            user_id: "u1".to_string(),
            timestamp: "t".to_string(),
            method: Some("realtime".to_string()),
        })
    );
}

#[test]
fn connected_method_may_be_left_out_or_null() {
    let without = WitchcraftMessage::decode("{\"type\":\"connected\",\"userId\":\"u\",\"timestamp\":\"t\"}");
    let null = WitchcraftMessage::decode(
        "{\"type\":\"connected\",\"userId\":\"u\",\"timestamp\":\"t\",\"method\":null}",
    );
    let expected = Ok(WitchcraftMessage::Connected {
        user_id: "u".to_string(),
        timestamp: "t".to_string(),
        method: None,
    });
    assert_eq!(without, expected);
    assert_eq!(null, expected);
}

#[test]
fn notification_frame_decodes_with_wire_names() {
    let text = format!("{{\"type\":\"notification\",\"event\":\"e\",\"data\":{}}}", ITEM);
    assert_eq!(
        WitchcraftMessage::decode(&text),
        Ok(WitchcraftMessage::Notification { event: "e".to_string(), data: sample("abc") })
    );
}

#[test]
fn notification_action_members_use_camel_case() {
    let text = "{\"id\":\"n\",\"title\":\"T\",\"message\":\"M\",\"type\":\"info\",\"priority\":255,\"actionUrl\":\"https://example.org\",\"actionLabel\":\"Open\",\"createdAt\":\"c\"}";
    let json = parse(text).expect("a document");
    let item = WitchcraftNotification::from_json(&json).expect("a notification");
    assert_eq!(item.action_url, Some("https://example.org".to_string()));
    assert_eq!(item.action_label, Some("Open".to_string()));
    assert_eq!(item.priority, 255);
    assert_eq!(item.created_at, "c");
    assert_eq!(item.notification_type, "info");
}

#[test]
fn snake_case_action_members_are_not_read() {
    let text = "{\"id\":\"n\",\"title\":\"T\",\"message\":\"M\",\"type\":\"info\",\"priority\":0,\"action_url\":\"x\",\"createdAt\":\"c\"}";
    let json = parse(text).expect("a document");
    let item = WitchcraftNotification::from_json(&json).expect("a notification");
    assert_eq!(item.action_url, None);
}

#[test]
fn unread_frame_decodes_with_its_items_in_order() {
    let second = ITEM.replace("abc", "def");
    let text = format!(
        "{{\"type\":\"unread_notifications\",\"count\":2,\"notifications\":[{},{}]}}",
        ITEM, second
    );
    assert_eq!(
        WitchcraftMessage::decode(&text),
        Ok(WitchcraftMessage::UnreadNotifications {
            count: 2,
            notifications: vec![sample("abc"), sample("def")],
        })
    );
}

#[test]
fn unread_count_is_taken_as_sent() {
    let text = "{\"type\":\"unread_notifications\",\"count\":7,\"notifications\":[]}";
    assert_eq!(
        WitchcraftMessage::decode(text),
        Ok(WitchcraftMessage::UnreadNotifications { count: 7, notifications: vec![] })
    );
}

#[test]
fn pong_frame_decodes() {
    assert_eq!(WitchcraftMessage::decode("{\"type\":\"pong\"}"), Ok(WitchcraftMessage::Pong));
}

#[test]
fn members_that_are_not_known_are_ignored() {
    let text = "{\"type\":\"pong\",\"later\":[1,2,{\"x\":null}]}";
    assert_eq!(WitchcraftMessage::decode(text), Ok(WitchcraftMessage::Pong));
}

#[test]
fn text_that_is_no_json_is_malformed() {
    assert_eq!(WitchcraftMessage::decode("{\"type\":"), Err(ProtocolError::Malformed));
    assert_eq!(WitchcraftMessage::decode(""), Err(ProtocolError::Malformed));
    assert_eq!(WitchcraftMessage::decode("pong"), Err(ProtocolError::Malformed));
}

#[test]
fn document_without_a_string_type_has_no_discriminator() {
    assert_eq!(WitchcraftMessage::decode("[\"pong\"]"), Err(ProtocolError::NoDiscriminator));
    assert_eq!(WitchcraftMessage::decode("\"pong\""), Err(ProtocolError::NoDiscriminator));
    assert_eq!(WitchcraftMessage::decode("{}"), Err(ProtocolError::NoDiscriminator));
    assert_eq!(WitchcraftMessage::decode("{\"type\":5}"), Err(ProtocolError::NoDiscriminator));
    assert_eq!(WitchcraftMessage::decode("{\"Type\":\"pong\"}"), Err(ProtocolError::NoDiscriminator));
}

#[test]
fn type_of_a_later_protocol_is_unknown() {
    assert_eq!(
        WitchcraftMessage::decode("{\"type\":\"presence\",\"userId\":\"u\"}"),
        Err(ProtocolError::UnknownDiscriminator)
    );
    assert_eq!(WitchcraftMessage::decode("{\"type\":\"Pong\"}"), Err(ProtocolError::UnknownDiscriminator));
    assert_eq!(WitchcraftMessage::decode("{\"type\":\"ping\"}"), Err(ProtocolError::UnknownDiscriminator));
}

#[test]
fn missing_or_wrong_members_are_an_invalid_payload() {
    let cases = [
        "{\"type\":\"connected\",\"timestamp\":\"t\"}",
        "{\"type\":\"connected\",\"userId\":1,\"timestamp\":\"t\"}",
        "{\"type\":\"connected\",\"userId\":\"u\",\"timestamp\":\"t\",\"method\":3}",
        "{\"type\":\"unread_notifications\",\"notifications\":[]}",
        "{\"type\":\"unread_notifications\",\"count\":-1,\"notifications\":[]}",
        "{\"type\":\"unread_notifications\",\"count\":1.5,\"notifications\":[]}",
        "{\"type\":\"unread_notifications\",\"count\":1}",
        "{\"type\":\"unread_notifications\",\"count\":1,\"notifications\":{}}",
        "{\"type\":\"unread_notifications\",\"count\":1,\"notifications\":[{}]}",
        "{\"type\":\"notification\",\"data\":{}}",
        "{\"type\":\"notification\",\"event\":\"e\"}",
        "{\"type\":\"notification\",\"event\":\"e\",\"data\":null}",
    ];
    for text in cases {
        assert_eq!(WitchcraftMessage::decode(text), Err(ProtocolError::InvalidPayload), "{}", text);
    }
}

#[test]
fn priority_is_an_integer_from_0_to_255() {
    let with = |priority: &str| {
        let text = ITEM.replace("\"priority\":3", &format!("\"priority\":{}", priority));
        WitchcraftNotification::from_json(&parse(&text).expect("a document")).map(|n| n.priority)
    };
    assert_eq!(with("0"), Some(0));
    assert_eq!(with("255"), Some(255));
    assert_eq!(with("256"), None);
    assert_eq!(with("-1"), None);
    assert_eq!(with("3.0"), None);
    assert_eq!(with("\"3\""), None);
    assert_eq!(with("null"), None);
}

#[test]
fn each_required_member_of_a_notification_is_required() {
    for key in ["id", "title", "message", "type", "priority", "createdAt"] {
        let text = ITEM.replace(&format!("\"{}\"", key), "\"other\"");
        let json = parse(&text).expect("a document");
        assert_eq!(WitchcraftNotification::from_json(&json), None, "{}", key);
    }
    let json = parse(ITEM).expect("a document");
    assert_eq!(WitchcraftNotification::from_json(&json), Some(sample("abc")));
}

#[test]
fn a_hand_made_value_decodes_like_a_parsed_one() {
    let value = Json::Object(vec![
        ("type".to_string(), Json::Text("connected".to_string())),
        ("userId".to_string(), Json::Text("u9".to_string())),
        ("timestamp".to_string(), Json::Text("now".to_string())),
    ]);
    assert_eq!(
        WitchcraftMessage::from_json(&value),
        Ok(WitchcraftMessage::Connected {
            user_id: "u9".to_string(),
            timestamp: "now".to_string(),
            method: None,
        })
    );
}

#[test]
fn the_first_member_of_a_name_is_the_one_read() {
    let value = Json::Object(vec![
        ("type".to_string(), Json::Text("pong".to_string())),
        ("type".to_string(), Json::Text("connected".to_string())),
    ]);
    assert_eq!(WitchcraftMessage::from_json(&value), Ok(WitchcraftMessage::Pong));
}

#[test]
fn a_signed_number_that_is_not_negative_counts_as_an_integer() {
    let value = Json::Object(vec![
        ("type".to_string(), Json::Text("unread_notifications".to_string())),
        ("count".to_string(), Json::Number(JsonNumber::NegInt(4))),
        ("notifications".to_string(), Json::Array(vec![])),
    ]);
    assert_eq!(
        WitchcraftMessage::from_json(&value),
        Ok(WitchcraftMessage::UnreadNotifications { count: 4, notifications: vec![] })
    );
}

#[test]
fn parse_copies_every_kind_of_value() {
    let json = parse("{\"a\":1,\"b\":-2,\"c\":1.5,\"d\":[true,null,\"x\"],\"e\":{}}").expect("a document");
    assert_eq!(json.get("a"), Some(&Json::Number(JsonNumber::PosInt(1))));
    assert_eq!(json.get("b"), Some(&Json::Number(JsonNumber::NegInt(-2))));
    assert_eq!(json.get("c"), Some(&Json::Number(JsonNumber::Float("1.5".to_string()))));
    assert_eq!(
        json.get("d"),
        Some(&Json::Array(vec![Json::Bool(true), Json::Null, Json::Text("x".to_string())]))
    );
    assert_eq!(json.get("e"), Some(&Json::Object(vec![])));
    assert_eq!(json.get("f"), None);
    assert_eq!(Json::Null.get("a"), None);
}

#[test]
fn parse_reads_escapes_in_strings() {
    assert_eq!(parse("\"a\\n\\u0041\\\"\""), Some(Json::Text("a\nA\"".to_string())));
    assert_eq!(parse("  [ ]  "), Some(Json::Array(vec![])));
    assert_eq!(parse("[1,]"), None);
    assert_eq!(parse("{} {}"), None);
}

#[test]
fn parse_keeps_the_last_of_two_members_with_one_name() {
    let json = parse("{\"a\":1,\"a\":2}").expect("a document");
    assert_eq!(json, Json::Object(vec![("a".to_string(), Json::Number(JsonNumber::PosInt(2)))]));
}

#[test]
fn large_integers_keep_their_value() {
    assert_eq!(parse("18446744073709551615"), Some(Json::Number(JsonNumber::PosInt(u64::MAX))));
    assert_eq!(parse("-9223372036854775808"), Some(Json::Number(JsonNumber::NegInt(i64::MIN))));
}

#[test]
fn ping_encodes_to_the_ping_frame() {
    assert_eq!(WitchcraftOutgoingMessage::Ping.encode(), Ok("{\"type\":\"ping\"}".to_string()));
}

#[test]
fn mark_read_encodes_with_the_wire_name() {
    let message = WitchcraftOutgoingMessage::MarkRead { notification_id: "abc".to_string() };
    assert_eq!(
        message.encode(),
        Ok("{\"type\":\"mark_read\",\"notificationId\":\"abc\"}".to_string())
    );
}

#[test]
fn mark_read_escapes_the_identifier() {
    let message = WitchcraftOutgoingMessage::MarkRead {
        notification_id: "a\"b\\c\nd\te\u{1}f\u{1f}g\u{8}h\u{c}i\rj/k\u{7f}l\u{e9}".to_string(),
    };
    assert_eq!(
        message.encode(),
        Ok("{\"type\":\"mark_read\",\"notificationId\":\"a\\\"b\\\\c\\nd\\te\\u0001f\\u001fg\\bh\\fi\\rj/k\u{7f}l\u{e9}\"}".to_string())
    );
}

#[test]
fn quote_puts_an_empty_string_between_quotes() {
    assert_eq!(Json::quote(""), Ok("\"\"".to_string()));
    assert_eq!(Json::quote("plain"), Ok("\"plain\"".to_string()));
}

#[test]
fn an_encoded_identifier_reads_back() {
    let id = "quote \" slash \\ line \n end";
    let message = WitchcraftOutgoingMessage::MarkRead { notification_id: id.to_string() };
    let text = message.encode().expect("a frame");
    let json = parse(&text).expect("a document");
    assert_eq!(json.get("type"), Some(&Json::Text("mark_read".to_string())));
    assert_eq!(json.get("notificationId"), Some(&Json::Text(id.to_string())));
}

#[test]
fn severity_goes_by_the_type_name() {
    let of = |name: &str| {
        let mut n = sample("s");
        n.notification_type = name.to_string();
        n.severity()
    };
    assert_eq!(of("info"), Severity::Info);
    assert_eq!(of("success"), Severity::Success);
    assert_eq!(of("warning"), Severity::Warning);
    assert_eq!(of("error"), Severity::Error);
    assert_eq!(of("Error"), Severity::Info);
    assert_eq!(of(""), Severity::Info);
}

#[test]
fn toast_text_joins_title_and_message() {
    assert_eq!(sample("t").toast_text(), "Build: finished");
}

#[test]
fn action_text_needs_an_address() {
    let mut n = sample("a");
    n.action_label = Some("Open".to_string());
    assert_eq!(n.action_text(), None);
    n.action_url = Some("https://example.org".to_string());
    assert_eq!(n.action_text(), Some("Open".to_string()));
    n.action_label = None;
    assert_eq!(n.action_text(), Some("View".to_string()));
}

#[test]
fn duplicate_copies_every_field() {
    let mut n = sample("d");
    n.action_url = Some("u".to_string());
    n.action_label = Some("l".to_string());
    assert_eq!(n.duplicate(), n);
}
