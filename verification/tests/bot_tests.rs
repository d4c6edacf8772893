use jacobian::bot::{BotPhase, MatrixBot};
use jacobian::event::{
    Event, EventContainer, RoomMessageOptionType, RoomMessageTypes, TextMessageType,
};
use jacobian::sync::{JoinedRoom, Presence, Rooms, SyncResponse, Timeline};

const HS: &str = "https://hs.example";

fn text_event(body: &str) -> Event {
    Event::RoomMessage(EventContainer {
        content: RoomMessageOptionType::Message(RoomMessageTypes::TextMessage(TextMessageType {
            body: String::from(body),
        })),
        origin_server_ts: Some(1),
        sender: Some(String::from("@alice:hs.example")),
        unsigned: None,
        state_key: None,
    })
}

fn room_window(room: &str, bodies: &[&str]) -> (String, JoinedRoom) {
    (
        String::from(room),
        JoinedRoom {
            unread_notifications: None,
            timeline: Some(Timeline {
                limited: false,
                prev_batch: None,
                events: bodies.iter().map(|b| text_event(b)).collect(),
            }),
            state: None,
            account_data: None,
            ephemeral: None,
        },
    )
}

fn window(join: Vec<(String, JoinedRoom)>, next_batch: Option<&str>) -> SyncResponse {
    SyncResponse {
        next_batch: next_batch.map(String::from),
        rooms: Rooms { leave: Vec::new(), join, invite: Vec::new() },
        presence: Presence { events: Vec::new() },
    }
}

/// A bot named "bot", logged in, already past its initial sync.
fn polling_bot() -> MatrixBot {
    let mut bot = MatrixBot::new(String::from(HS), String::from("bot"), String::from("pw"));
    assert!(matches!(bot.phase(), BotPhase::AwaitingLogin));
    let body = "{\"access_token\":\"tok123\",\"home_server\":\"hs.example\",\"user_id\":\"@bot:hs.example\"}";
    bot.login_response(200, body).expect("login should apply");
    assert!(matches!(bot.phase(), BotPhase::InitialSync));
    let replies = bot.on_poll_success(&window(Vec::new(), Some("s0")));
    assert!(replies.is_empty());
    assert!(matches!(bot.phase(), BotPhase::Polling));
    bot
}

#[test]
fn say_command_echoes_to_the_same_room() {
    let mut bot = polling_bot();
    let sync = window(
        vec![room_window("!r:x", &["alice: hi", "bot: say hello"])],
        Some("s1"),
    );
    let out = bot.on_poll_success(&sync);
    assert_eq!(out.len(), 1);
    assert_eq!(out[0].room, "!r:x");
    assert_eq!(out[0].body, "hello");
    assert!(matches!(bot.phase(), BotPhase::Polling));
}

#[test]
fn empty_say_gets_the_fixed_fallback() {
    let mut bot = polling_bot();
    let sync = window(vec![room_window("!r:x", &["bot: say "])], Some("s1"));
    let out = bot.on_poll_success(&sync);
    assert_eq!(out.len(), 1);
    assert_eq!(out[0].body, "I can't say nothing. That would be weird!");
}

#[test]
fn quit_finishes_the_batch_then_stops_polling() {
    let mut bot = polling_bot();
    let sync = window(
        vec![room_window("!r:x", &["bot: say a", "bot: quit", "bot: say b"])],
        Some("s1"),
    );
    let out = bot.on_poll_success(&sync);
    // The whole batch is processed, even past the quit command.
    assert_eq!(out.len(), 2);
    assert_eq!(out[0].body, "a");
    assert_eq!(out[1].body, "b");
    // No further poll; a single logout attempt ends the machine.
    assert!(matches!(bot.phase(), BotPhase::Quitting));
    assert!(!bot.polling_active());
    assert!(bot.logout_request().is_ok());
    bot.logout_response(200, "{}").expect("logout should apply");
    bot.on_logout_attempted();
    assert!(matches!(bot.phase(), BotPhase::LoggedOut));
}

#[test]
fn quit_in_the_initial_replay_is_ignored() {
    let mut bot = MatrixBot::new(String::from(HS), String::from("bot"), String::from("pw"));
    let body = "{\"access_token\":\"tok123\",\"home_server\":\"hs.example\",\"user_id\":\"@bot:hs.example\"}";
    bot.login_response(200, body).expect("login should apply");
    assert!(matches!(bot.phase(), BotPhase::InitialSync));
    // The first poll replays old state, including an old quit command.
    let replay = window(
        vec![room_window("!r:x", &["bot: quit", "bot: say hello"])],
        Some("s1"),
    );
    let out = bot.on_poll_success(&replay);
    assert!(out.is_empty());
    assert!(matches!(bot.phase(), BotPhase::Polling));
    assert!(bot.polling_active());
    // New activity in the next window is processed normally.
    let fresh = window(vec![room_window("!r:x", &["bot: say again"])], Some("s2"));
    let out = bot.on_poll_success(&fresh);
    assert_eq!(out.len(), 1);
    assert_eq!(out[0].body, "again");
}

#[test]
fn since_is_the_previous_next_batch() {
    let mut bot = polling_bot();
    // polling_bot's one poll returned "s0".
    let req = bot.sync_request().expect("logged in");
    assert_eq!(
        req.url,
        "https://hs.example/_matrix/client/r0/sync?since=s0&full_state=false&timeout=30000"
    );
    assert_eq!(req.wait_ms, Some(40000));
    // The cursor is replaced wholesale by each poll's next_batch.
    bot.on_poll_success(&window(Vec::new(), Some("tok one:1")));
    let req = bot.sync_request().expect("logged in");
    assert_eq!(
        req.url,
        "https://hs.example/_matrix/client/r0/sync?since=tok+one%3A1&full_state=false&timeout=30000"
    );
}

#[test]
fn first_poll_has_no_since() {
    let mut bot = MatrixBot::new(String::from(HS), String::from("bot"), String::from("pw"));
    let body = "{\"access_token\":\"tok123\",\"home_server\":\"hs.example\",\"user_id\":\"@bot:hs.example\"}";
    bot.login_response(200, body).expect("login should apply");
    let req = bot.sync_request().expect("logged in");
    assert_eq!(
        req.url,
        "https://hs.example/_matrix/client/r0/sync?full_state=false&timeout=30000"
    );
}

#[test]
fn absent_next_batch_stops_polling() {
    let mut bot = polling_bot();
    let out = bot.on_poll_success(&window(Vec::new(), None));
    assert!(out.is_empty());
    assert!(matches!(bot.phase(), BotPhase::Quitting));
}

#[test]
fn poll_failure_stops_polling_and_keeps_the_cursor() {
    let mut bot = polling_bot();
    bot.on_poll_failure();
    assert!(matches!(bot.phase(), BotPhase::Quitting));
    assert!(!bot.polling_active());
    // The cursor is untouched: a retry would present the same window.
    let req = bot.sync_request().expect("still logged in");
    assert_eq!(
        req.url,
        "https://hs.example/_matrix/client/r0/sync?since=s0&full_state=false&timeout=30000"
    );
}

#[test]
fn unaddressed_and_unrecognized_messages_are_ignored() {
    let mut bot = polling_bot();
    let sync = window(
        vec![room_window(
            "!r:x",
            &["alice: hello", "bot:say x", "bot: frobnicate", "otherbot: say y"],
        )],
        Some("s1"),
    );
    let out = bot.on_poll_success(&sync);
    assert!(out.is_empty());
    assert!(matches!(bot.phase(), BotPhase::Polling));
}

#[test]
fn say_keeps_the_remainder_verbatim() {
    let mut bot = polling_bot();
    let sync = window(vec![room_window("!r:x", &["bot: say a: b say c "])], Some("s1"));
    let out = bot.on_poll_success(&sync);
    assert_eq!(out.len(), 1);
    assert_eq!(out[0].body, "a: b say c ");
}

#[test]
fn replies_follow_room_and_timeline_order() {
    let mut bot = polling_bot();
    let sync = window(
        vec![
            room_window("!a:x", &["bot: say one", "bot: say two"]),
            room_window("!b:x", &["bot: say three"]),
        ],
        Some("s1"),
    );
    let out = bot.on_poll_success(&sync);
    assert_eq!(out.len(), 3);
    assert_eq!((out[0].room.as_str(), out[0].body.as_str()), ("!a:x", "one"));
    assert_eq!((out[1].room.as_str(), out[1].body.as_str()), ("!a:x", "two"));
    assert_eq!((out[2].room.as_str(), out[2].body.as_str()), ("!b:x", "three"));
}

#[test]
fn rooms_without_timelines_produce_nothing() {
    let mut bot = polling_bot();
    let room = (
        String::from("!a:x"),
        JoinedRoom {
            unread_notifications: None,
            timeline: None,
            state: None,
            account_data: None,
            ephemeral: None,
        },
    );
    let out = bot.on_poll_success(&window(vec![room], Some("s1")));
    assert!(out.is_empty());
    assert!(matches!(bot.phase(), BotPhase::Polling));
}

#[test]
fn send_request_carries_the_reply() {
    let mut bot = polling_bot();
    let sync = window(vec![room_window("!r:x", &["bot: say hello"])], Some("s1"));
    let out = bot.on_poll_success(&sync);
    let req = bot.send_request(&out[0]).expect("logged in");
    assert_eq!(req.body.as_deref(), Some("{\"msgtype\":\"m.text\",\"body\":\"hello\"}"));
    assert!(req.url.starts_with("https://hs.example/_matrix/client/r0/rooms/!r%3Ax/send/m.room.message/"));
    assert_eq!(req.bearer.as_deref(), Some("tok123"));
}

#[test]
fn login_request_uses_the_bot_identity() {
    let bot = MatrixBot::new(String::from(HS), String::from("bot"), String::from("pw"));
    let req = bot.login_request();
    assert_eq!(req.url, "https://hs.example/_matrix/client/r0/login");
    assert_eq!(
        req.body.as_deref(),
        Some("{\"password\":\"pw\",\"type\":\"m.login.password\",\"user\":\"bot\"}")
    );
}

#[test]
fn failed_login_stays_awaiting() {
    let mut bot = MatrixBot::new(String::from(HS), String::from("bot"), String::from("pw"));
    assert!(bot.login_response(403, "{\"errcode\":\"M_FORBIDDEN\"}").is_err());
    assert!(matches!(bot.phase(), BotPhase::AwaitingLogin));
    assert!(bot.sync_request().is_err());
}
