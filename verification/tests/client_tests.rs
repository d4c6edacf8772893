use jacobian::client::{
    get_supported_versions_response, join_room_response, list_public_rooms_response,
    send_room_message_response, sync_response, HttpMethod, MatrixClient,
};
use jacobian::encode::message_json;
use jacobian::error::MatrixClientError;
use jacobian::event::{Event, RoomMessageOptionType, RoomMessageTypes, TextMessageType};

const HS: &str = "https://hs.example";

fn logged_in_client() -> MatrixClient {
    let mut c = MatrixClient::new(HS, None);
    let body = "{\"access_token\":\"tok123\",\"home_server\":\"hs.example\",\"user_id\":\"@bot:hs.example\"}";
    c.login_response(200, body).expect("login should apply");
    c
}

#[test]
fn versions_request_is_unauthenticated() {
    let c = MatrixClient::new(HS, None);
    let r = c.get_supported_versions_request();
    assert!(matches!(r.method, HttpMethod::Get));
    assert_eq!(r.url, "https://hs.example/_matrix/client/versions");
    assert!(r.body.is_none());
    assert!(r.bearer.is_none());
    assert!(r.wait_ms.is_none());
}

#[test]
fn versions_response_decodes() {
    let r = get_supported_versions_response(200, "{\"versions\":[\"r0.2.0\",\"r0.6.1\"]}")
        .expect("should decode");
    assert_eq!(r.versions, vec!["r0.2.0", "r0.6.1"]);
}

#[test]
fn non_2xx_is_bad_status_with_body() {
    match get_supported_versions_response(404, "gone") {
        Err(MatrixClientError::BadStatus(status, body)) => {
            assert_eq!(status, 404);
            assert_eq!(body, "gone");
        },
        other => panic!("expected a status rejection, got {:?}", other),
    }
}

#[test]
fn malformed_body_is_a_decode_failure() {
    assert!(matches!(
        get_supported_versions_response(200, "not json at all"),
        Err(MatrixClientError::Json)
    ));
    assert!(matches!(
        get_supported_versions_response(200, "{\"other\":1}"),
        Err(MatrixClientError::Json)
    ));
}

#[test]
fn login_request_body_is_exact() {
    let c = MatrixClient::new(HS, Some(String::from("dev1")));
    let r = c.login_request("bot", "pw");
    assert!(matches!(r.method, HttpMethod::Post));
    assert_eq!(r.url, "https://hs.example/_matrix/client/r0/login");
    assert_eq!(
        r.body.as_deref(),
        Some(
            "{\"password\":\"pw\",\"type\":\"m.login.password\",\"user\":\"bot\",\"device_id\":\"dev1\"}"
        )
    );
    assert!(r.bearer.is_none());
}

#[test]
fn login_request_without_device_id_omits_the_field() {
    let c = MatrixClient::new(HS, None);
    let r = c.login_request("bot", "pw");
    assert_eq!(
        r.body.as_deref(),
        Some("{\"password\":\"pw\",\"type\":\"m.login.password\",\"user\":\"bot\"}")
    );
}

#[test]
fn login_establishes_the_session() {
    let c = logged_in_client();
    let r = c.logout_request().expect("authenticated after login");
    assert_eq!(r.bearer.as_deref(), Some("tok123"));
    assert_eq!(r.url, "https://hs.example/_matrix/client/r0/logout");
    assert!(matches!(r.method, HttpMethod::Post));
}

#[test]
fn login_failure_leaves_no_session() {
    let mut c = MatrixClient::new(HS, None);
    assert!(c.login_response(403, "{}").is_err());
    assert!(matches!(c.logout_request(), Err(MatrixClientError::NotLoggedIn)));
}

#[test]
fn authenticated_calls_fail_locally_without_login() {
    let c = MatrixClient::new(HS, None);
    assert!(matches!(c.logout_request(), Err(MatrixClientError::NotLoggedIn)));
    assert!(matches!(c.logout_all_request(), Err(MatrixClientError::NotLoggedIn)));
    assert!(matches!(c.list_public_rooms_request(), Err(MatrixClientError::NotLoggedIn)));
    assert!(matches!(
        c.sync_request(None, None, None, None),
        Err(MatrixClientError::NotLoggedIn)
    ));
    let room = String::from("!r:x");
    assert!(matches!(c.join_room_request(&room), Err(MatrixClientError::NotLoggedIn)));
}

#[test]
fn logout_clears_the_session() {
    let mut c = logged_in_client();
    c.logout_response(200, "{}").expect("logout should apply");
    assert!(matches!(c.logout_request(), Err(MatrixClientError::NotLoggedIn)));
}

#[test]
fn failed_logout_keeps_the_session() {
    let mut c = logged_in_client();
    assert!(c.logout_response(500, "boom").is_err());
    assert!(c.logout_request().is_ok());
}

#[test]
fn logout_all_has_its_own_path() {
    let c = logged_in_client();
    let r = c.logout_all_request().expect("authenticated");
    assert_eq!(r.url, "https://hs.example/_matrix/client/r0/logout/all");
}

#[test]
fn join_room_empty_is_rejected_locally() {
    let c = logged_in_client();
    let empty = String::new();
    match c.join_room_request(&empty) {
        Err(MatrixClientError::BadRoomId(msg)) => {
            assert_eq!(msg, "Room ID or Alias cannot be empty!");
        },
        other => panic!("expected a bad-room-id rejection, got {:?}", other),
    }
    // The same rejection comes before the session is even consulted.
    let fresh = MatrixClient::new(HS, None);
    assert!(matches!(fresh.join_room_request(&empty), Err(MatrixClientError::BadRoomId(_))));
}

#[test]
fn join_room_request_appends_the_identifier() {
    let c = logged_in_client();
    let room = String::from("#room:hs.example");
    let r = c.join_room_request(&room).expect("should build");
    assert_eq!(r.url, "https://hs.example/_matrix/client/r0/join/#room:hs.example");
    assert_eq!(r.bearer.as_deref(), Some("tok123"));
}

#[test]
fn join_response_decodes() {
    let r = join_room_response(200, "{\"room_id\":\"!r:x\"}").expect("should decode");
    assert_eq!(r.room_id, "!r:x");
}

#[test]
fn public_rooms_response_decodes() {
    let body = "{\"chunk\":[{\"world_readable\":true,\"num_joined_members\":3,\
                \"avatar_url\":\"\",\"room_id\":\"!a:x\",\"guest_can_join\":false,\
                \"name\":\"general\",\"aliases\":[\"#g:x\"]}],\"start\":\"p1\"}";
    let r = list_public_rooms_response(200, body).expect("should decode");
    assert_eq!(r.start.as_deref(), Some("p1"));
    assert!(r.end.is_none());
    assert_eq!(r.chunk.len(), 1);
    assert_eq!(r.chunk[0].room_id, "!a:x");
    assert_eq!(r.chunk[0].num_joined_members, 3);
    assert!(r.chunk[0].world_readable);
    assert_eq!(r.chunk[0].aliases.as_ref().unwrap(), &vec![String::from("#g:x")]);
}

#[test]
fn sync_request_builds_the_exact_query() {
    let c = logged_in_client();
    let since = String::from("tok:1 a");
    let r = c
        .sync_request(Some("f f"), Some(&since), Some(true), Some(30000))
        .expect("should build");
    assert_eq!(
        r.url,
        "https://hs.example/_matrix/client/r0/sync?filter=f+f&since=tok%3A1+a&full_state=true&timeout=30000"
    );
    assert_eq!(r.wait_ms, Some(40000));
    assert_eq!(r.bearer.as_deref(), Some("tok123"));
    assert!(matches!(r.method, HttpMethod::Get));
}

#[test]
fn sync_request_without_parameters_has_no_query() {
    let c = logged_in_client();
    let r = c.sync_request(None, None, None, None).expect("should build");
    assert_eq!(r.url, "https://hs.example/_matrix/client/r0/sync");
    assert_eq!(r.wait_ms, Some(10000));
}

#[test]
fn sync_response_decodes_a_window() {
    let body = "{\"next_batch\":\"s2\",\"presence\":{\"events\":[]},\"rooms\":{\
                \"join\":{\"!r:x\":{\"timeline\":{\"limited\":true,\"prev_batch\":\"p0\",\
                \"events\":[{\"type\":\"m.room.message\",\"sender\":\"@a:x\",\
                \"content\":{\"msgtype\":\"m.text\",\"body\":\"hi\"}}]}}},\
                \"invite\":{},\"leave\":{}}}";
    let r = sync_response(200, body).expect("should decode");
    assert_eq!(r.next_batch.as_deref(), Some("s2"));
    assert_eq!(r.rooms.join.len(), 1);
    assert_eq!(r.rooms.join[0].0, "!r:x");
    let timeline = r.rooms.join[0].1.timeline.as_ref().expect("timeline present");
    assert!(timeline.limited);
    assert_eq!(timeline.prev_batch.as_deref(), Some("p0"));
    assert_eq!(timeline.events.len(), 1);
    match &timeline.events[0] {
        Event::RoomMessage(m) => match &m.content {
            RoomMessageOptionType::Message(RoomMessageTypes::TextMessage(t)) => {
                assert_eq!(t.body, "hi");
            },
            other => panic!("expected a text message, got {:?}", other),
        },
        other => panic!("expected a message event, got {:?}", other),
    }
    assert!(r.rooms.invite.is_empty());
    assert!(r.rooms.leave.is_empty());
}

#[test]
fn sync_without_next_batch_decodes_as_absent() {
    let body = "{\"presence\":{\"events\":[]},\"rooms\":{\"join\":{},\"invite\":{},\"leave\":{}}}";
    let r = sync_response(200, body).expect("should decode");
    assert!(r.next_batch.is_none());
}

#[test]
fn structurally_malformed_sync_is_a_hard_failure() {
    // No rooms object at all.
    assert!(matches!(
        sync_response(200, "{\"next_batch\":\"s\",\"presence\":{\"events\":[]}}"),
        Err(MatrixClientError::Json)
    ));
    // A timeline without its required fields.
    let body = "{\"presence\":{\"events\":[]},\"rooms\":{\"join\":{\"!r:x\":{\
                \"timeline\":{\"events\":[]}}},\"invite\":{},\"leave\":{}}}";
    assert!(matches!(sync_response(200, body), Err(MatrixClientError::Json)));
    // A rejected poll carries status and body, untouched.
    match sync_response(502, "bad gateway") {
        Err(MatrixClientError::BadStatus(status, body)) => {
            assert_eq!(status, 502);
            assert_eq!(body, "bad gateway");
        },
        other => panic!("expected a status rejection, got {:?}", other),
    }
}

#[test]
fn send_request_encodes_path_and_frames_the_body() {
    let c = logged_in_client();
    let msg = RoomMessageTypes::TextMessage(TextMessageType { body: String::from("hi") });
    let r = c
        .send_room_message_request_at("!r:x", &msg, 12, 345)
        .expect("should build");
    assert!(matches!(r.method, HttpMethod::Put));
    assert_eq!(
        r.url,
        "https://hs.example/_matrix/client/r0/rooms/!r%3Ax/send/m.room.message/12.345"
    );
    assert_eq!(r.body.as_deref(), Some("{\"msgtype\":\"m.text\",\"body\":\"hi\"}"));
    assert_eq!(r.bearer.as_deref(), Some("tok123"));
}

#[test]
fn send_request_pads_and_wraps_the_milliseconds() {
    let c = logged_in_client();
    let msg = RoomMessageTypes::TextMessage(TextMessageType { body: String::from("x") });
    let r = c.send_room_message_request_at("!r:x", &msg, -5, 1007).expect("should build");
    assert_eq!(
        r.url,
        "https://hs.example/_matrix/client/r0/rooms/!r%3Ax/send/m.room.message/-5.007"
    );
}

#[test]
fn message_json_escapes_the_body() {
    let msg = RoomMessageTypes::TextMessage(TextMessageType {
        body: String::from("a\"b\\c\nd\u{1}"),
    });
    assert_eq!(
        message_json(&msg),
        "{\"msgtype\":\"m.text\",\"body\":\"a\\\"b\\\\c\\nd\\u0001\"}"
    );
}

#[test]
fn message_json_writes_absent_options_as_null() {
    let msg = RoomMessageTypes::AudioMessage(jacobian::event::AudioMessageType {
        body: String::from("clip"),
        info: None,
        url: String::from("mxc://x/y"),
    });
    assert_eq!(
        message_json(&msg),
        "{\"msgtype\":\"m.audio\",\"body\":\"clip\",\"info\":null,\"url\":\"mxc://x/y\"}"
    );
}

#[test]
fn send_event_response_decodes() {
    let r = send_room_message_response(200, "{\"event_id\":\"$e:x\"}").expect("should decode");
    assert_eq!(r.event_id, "$e:x");
}
