use jacobian::decode::{
    decode_event, decode_events, decode_message_content, decode_unsigned,
};
use jacobian::event::{Event, GuestAccess, RoomMessageOptionType, RoomMessageTypes};
use jacobian::json::JsonValue;

fn s(text: &str) -> JsonValue {
    JsonValue::Str(String::from(text))
}

fn field(name: &str, value: JsonValue) -> (String, JsonValue) {
    (String::from(name), value)
}

fn event_obj(kind: &str, content: JsonValue) -> JsonValue {
    JsonValue::Obj(vec![
        field("type", s(kind)),
        field("sender", s("@alice:example.org")),
        field("origin_server_ts", JsonValue::Int(1234)),
        field("content", content),
    ])
}

#[test]
fn topic_event_decodes() {
    let v = event_obj("m.room.topic", JsonValue::Obj(vec![field("topic", s("hello world"))]));
    match decode_event(&v) {
        Event::RoomTopic(c) => {
            assert_eq!(c.content.topic, "hello world");
            assert_eq!(c.sender.as_deref(), Some("@alice:example.org"));
            assert_eq!(c.origin_server_ts, Some(1234));
            assert!(c.unsigned.is_none());
            assert!(c.state_key.is_none());
        },
        other => panic!("expected a topic event, got {:?}", other),
    }
}

#[test]
fn unknown_type_decodes_to_unknown_in_place() {
    let a = vec![
        event_obj("m.room.topic", JsonValue::Obj(vec![field("topic", s("t"))])),
        event_obj("org.example.custom", JsonValue::Obj(vec![])),
        event_obj("m.room.name", JsonValue::Obj(vec![field("name", s("n"))])),
    ];
    let out = decode_events(&a);
    assert_eq!(out.len(), 3);
    assert!(matches!(out[0], Event::RoomTopic(_)));
    assert!(matches!(out[1], Event::Unknown));
    assert!(matches!(out[2], Event::RoomName(_)));
}

#[test]
fn malformed_event_degrades_without_failing_siblings() {
    let a = vec![
        JsonValue::Int(7),
        event_obj("m.room.name", JsonValue::Obj(vec![field("name", s("room"))])),
        event_obj("m.room.topic", JsonValue::Obj(vec![field("topic", JsonValue::Int(3))])),
    ];
    let out = decode_events(&a);
    assert_eq!(out.len(), 3);
    assert!(matches!(out[0], Event::Unknown));
    assert!(matches!(out[1], Event::RoomName(_)));
    assert!(matches!(out[2], Event::Unknown));
}

#[test]
fn event_without_content_is_unknown() {
    let v = JsonValue::Obj(vec![field("type", s("m.room.topic"))]);
    assert!(matches!(decode_event(&v), Event::Unknown));
}

#[test]
fn missing_body_decodes_as_redacted() {
    let c = JsonValue::Obj(vec![field("msgtype", s("m.text"))]);
    match decode_message_content(&c) {
        Some(RoomMessageOptionType::Redacted(_)) => {},
        other => panic!("expected the redacted shape, got {:?}", other),
    }
    let v = event_obj("m.room.message", c);
    match decode_event(&v) {
        Event::RoomMessage(m) => {
            assert!(matches!(m.content, RoomMessageOptionType::Redacted(_)));
        },
        other => panic!("expected a message event, got {:?}", other),
    }
}

#[test]
fn unrecognized_msgtype_decodes_as_redacted() {
    let c = JsonValue::Obj(vec![field("msgtype", s("m.sticker")), field("body", s("hi"))]);
    assert!(matches!(decode_message_content(&c), Some(RoomMessageOptionType::Redacted(_))));
}

#[test]
fn missing_msgtype_decodes_as_redacted() {
    let c = JsonValue::Obj(vec![field("body", s("hi"))]);
    assert!(matches!(decode_message_content(&c), Some(RoomMessageOptionType::Redacted(_))));
}

#[test]
fn non_object_message_content_fails_the_event() {
    let v = event_obj("m.room.message", s("not an object"));
    assert!(matches!(decode_event(&v), Event::Unknown));
}

#[test]
fn text_message_decodes_with_body() {
    let c = JsonValue::Obj(vec![field("msgtype", s("m.text")), field("body", s("bot: say hi"))]);
    match decode_message_content(&c) {
        Some(RoomMessageOptionType::Message(RoomMessageTypes::TextMessage(t))) => {
            assert_eq!(t.body, "bot: say hi");
        },
        other => panic!("expected a text message, got {:?}", other),
    }
}

#[test]
fn emote_and_notice_messages_decode() {
    let e = JsonValue::Obj(vec![field("msgtype", s("m.emote")), field("body", s("waves"))]);
    assert!(matches!(
        decode_message_content(&e),
        Some(RoomMessageOptionType::Message(RoomMessageTypes::EmoteMessage(_)))
    ));
    let n = JsonValue::Obj(vec![field("msgtype", s("m.notice")), field("body", s("fyi"))]);
    assert!(matches!(
        decode_message_content(&n),
        Some(RoomMessageOptionType::Message(RoomMessageTypes::NoticeMessage(_)))
    ));
}

#[test]
fn image_message_decodes_with_info() {
    let c = JsonValue::Obj(vec![
        field("msgtype", s("m.image")),
        field("body", s("cat.png")),
        field("url", s("mxc://example/abc")),
        field(
            "info",
            JsonValue::Obj(vec![
                field("mimetype", s("image/png")),
                field("h", JsonValue::Int(480)),
                field("w", JsonValue::Int(640)),
                field("size", JsonValue::Int(12345)),
            ]),
        ),
    ]);
    match decode_message_content(&c) {
        Some(RoomMessageOptionType::Message(RoomMessageTypes::ImageMessage(i))) => {
            assert_eq!(i.body, "cat.png");
            assert_eq!(i.url, "mxc://example/abc");
            let info = i.info.expect("info should decode");
            assert_eq!(info.mimetype.as_deref(), Some("image/png"));
            assert_eq!(info.h, Some(480));
            assert_eq!(info.w, Some(640));
            assert_eq!(info.size, Some(12345));
            assert!(i.thumbnail_info.is_none());
            assert!(i.thumbnail_url.is_none());
        },
        other => panic!("expected an image message, got {:?}", other),
    }
}

#[test]
fn audio_message_with_malformed_info_is_redacted() {
    let c = JsonValue::Obj(vec![
        field("msgtype", s("m.audio")),
        field("body", s("clip")),
        field("url", s("mxc://example/a")),
        field("info", JsonValue::Int(5)),
    ]);
    assert!(matches!(decode_message_content(&c), Some(RoomMessageOptionType::Redacted(_))));
}

#[test]
fn guest_access_values_decode() {
    let v = event_obj(
        "m.room.guest_access",
        JsonValue::Obj(vec![field("guest_access", s("can_join"))]),
    );
    match decode_event(&v) {
        Event::RoomGuestAccess(c) => assert_eq!(c.content.guest_access, GuestAccess::CanJoin),
        other => panic!("expected a guest-access event, got {:?}", other),
    }
    let v = event_obj(
        "m.room.guest_access",
        JsonValue::Obj(vec![field("guest_access", s("forbidden"))]),
    );
    match decode_event(&v) {
        Event::RoomGuestAccess(c) => assert_eq!(c.content.guest_access, GuestAccess::Forbidden),
        other => panic!("expected a guest-access event, got {:?}", other),
    }
    let v = event_obj(
        "m.room.guest_access",
        JsonValue::Obj(vec![field("guest_access", s("whatever"))]),
    );
    assert!(matches!(decode_event(&v), Event::Unknown));
}

#[test]
fn typing_event_decodes_user_ids() {
    let v = event_obj(
        "m.typing",
        JsonValue::Obj(vec![field(
            "user_ids",
            JsonValue::Arr(vec![s("@a:x"), s("@b:y")]),
        )]),
    );
    match decode_event(&v) {
        Event::Typing(c) => assert_eq!(c.content.user_ids, vec!["@a:x", "@b:y"]),
        other => panic!("expected a typing event, got {:?}", other),
    }
}

#[test]
fn power_levels_decode_with_maps() {
    let v = event_obj(
        "m.room.power_levels",
        JsonValue::Obj(vec![
            field("ban", JsonValue::Int(50)),
            field(
                "events",
                JsonValue::Obj(vec![field("m.room.name", JsonValue::Int(100))]),
            ),
            field("users", JsonValue::Obj(vec![field("@a:x", JsonValue::Int(100))])),
        ]),
    );
    match decode_event(&v) {
        Event::RoomPowerLevels(c) => {
            assert_eq!(c.content.ban, Some(50));
            assert_eq!(c.content.kick, None);
            assert_eq!(c.content.events, vec![(String::from("m.room.name"), 100)]);
            assert_eq!(c.content.users, vec![(String::from("@a:x"), 100)]);
        },
        other => panic!("expected a power-levels event, got {:?}", other),
    }
}

#[test]
fn power_levels_without_users_map_is_unknown() {
    let v = event_obj(
        "m.room.power_levels",
        JsonValue::Obj(vec![field(
            "events",
            JsonValue::Obj(vec![]),
        )]),
    );
    assert!(matches!(decode_event(&v), Event::Unknown));
}

#[test]
fn receipt_event_decodes_nested_maps() {
    let v = event_obj(
        "m.receipt",
        JsonValue::Obj(vec![field(
            "$event1:x",
            JsonValue::Obj(vec![field(
                "m.read",
                JsonValue::Obj(vec![field(
                    "@a:x",
                    JsonValue::Obj(vec![field("ts", JsonValue::Int(99))]),
                )]),
            )]),
        )]),
    );
    match decode_event(&v) {
        Event::Receipt(c) => {
            assert_eq!(c.content.len(), 1);
            assert_eq!(c.content[0].0, "$event1:x");
            assert_eq!(c.content[0].1.read.len(), 1);
            assert_eq!(c.content[0].1.read[0].0, "@a:x");
            assert_eq!(c.content[0].1.read[0].1.ts, 99);
        },
        other => panic!("expected a receipt event, got {:?}", other),
    }
}

#[test]
fn unsigned_metadata_decodes() {
    let u = JsonValue::Obj(vec![
        field("age", JsonValue::Int(1000)),
        field("transaction_id", s("txn9")),
        field("redacted_by", s("$redaction:x")),
        field(
            "redacted_because",
            JsonValue::Obj(vec![
                field("type", s("m.room.redaction")),
                field("content", JsonValue::Obj(vec![field("reason", s("spam"))])),
            ]),
        ),
    ]);
    let d = decode_unsigned(&u).expect("unsigned should decode");
    assert_eq!(d.age, 1000);
    assert_eq!(d.transaction_id.as_deref(), Some("txn9"));
    assert_eq!(d.redacted_by.as_deref(), Some("$redaction:x"));
    assert_eq!(d.redacted_because.unwrap().reason.as_deref(), Some("spam"));
}

#[test]
fn unsigned_without_age_fails_the_event() {
    let v = JsonValue::Obj(vec![
        field("type", s("m.room.topic")),
        field("content", JsonValue::Obj(vec![field("topic", s("t"))])),
        field("unsigned", JsonValue::Obj(vec![field("transaction_id", s("t1"))])),
    ]);
    assert!(matches!(decode_event(&v), Event::Unknown));
}

#[test]
fn fractional_timestamp_fails_the_event() {
    let v = JsonValue::Obj(vec![
        field("type", s("m.room.topic")),
        field("origin_server_ts", JsonValue::NonInt),
        field("content", JsonValue::Obj(vec![field("topic", s("t"))])),
    ]);
    assert!(matches!(decode_event(&v), Event::Unknown));
}

#[test]
fn null_optional_field_means_absent() {
    let v = JsonValue::Obj(vec![
        field("type", s("m.room.topic")),
        field("sender", JsonValue::Null),
        field("content", JsonValue::Obj(vec![field("topic", s("t"))])),
    ]);
    match decode_event(&v) {
        Event::RoomTopic(c) => assert!(c.sender.is_none()),
        other => panic!("expected a topic event, got {:?}", other),
    }
}

#[test]
fn redaction_event_decodes_reason() {
    let v = event_obj(
        "m.room.redaction",
        JsonValue::Obj(vec![field("reason", s("because"))]),
    );
    match decode_event(&v) {
        Event::RoomRedaction(c) => assert_eq!(c.content.reason.as_deref(), Some("because")),
        other => panic!("expected a redaction event, got {:?}", other),
    }
}

#[test]
fn default_event_and_message_are_the_catch_all() {
    assert!(matches!(Event::default(), Event::Unknown));
    assert!(matches!(RoomMessageTypes::default(), RoomMessageTypes::Unknown));
}
