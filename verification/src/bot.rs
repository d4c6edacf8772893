//! The bot: a command dispatcher driven by the incremental-sync engine.
//!
//! The dispatcher is an explicit state machine:
//!
//! `AwaitingLogin → InitialSync → Polling ⇄ Polling → Quitting → LoggedOut`
//!
//! A successful login starts the initial sync. The first poll of a session
//! (cursor absent) is a full state replay and is never processed for
//! commands. Every later poll's joined-room timelines are scanned for
//! commands addressed to the bot by name; a `quit` command or an exhausted
//! cursor ends polling after the current batch, a failed poll ends it at
//! once, and a logout attempt — whatever its outcome — is terminal.
//!
//! After every successful poll the cursor is replaced wholesale by the
//! returned `next_batch`; a failed poll leaves it untouched.

use vstd::prelude::*;

use crate::client::{HttpMethod, HttpRequest, HttpRequestView, MatrixClient};
use crate::error::MatrixClientError;
use crate::event::{
    Event, EventView, RoomMessageOptionType, RoomMessageOptionTypeView, RoomMessageTypes,
    RoomMessageTypesView, TextMessageType,
};
use crate::sync::{JoinedRoom, JoinedRoomView, SyncResponse, SyncResponseView};
use crate::text::{spec_starts_with, starts_with, str_eq};

verus! {

/// The reply sent when a `say` command carries nothing to say.
pub open spec fn spec_empty_say_reply() -> Seq<char> {
    "I can't say nothing. That would be weird!"@
}

/// The dispatcher's phases.
#[derive(Debug, Clone, Copy, PartialEq, Eq, Structural)]
pub enum BotPhase {
    AwaitingLogin,
    InitialSync,
    Polling,
    Quitting,
    LoggedOut,
}

/// One message the dispatcher wants sent: a text body to a room.
#[derive(Debug, PartialEq)]
pub struct OutgoingMessage {
    pub room: String,
    pub body: String,
}

#[verifier::ext_equal]
pub struct OutgoingMessageView {
    pub room: Seq<char>,
    pub body: Seq<char>,
}

impl DeepView for OutgoingMessage {
    type V = OutgoingMessageView;

    open spec fn deep_view(&self) -> OutgoingMessageView {
        OutgoingMessageView { room: self.room@, body: self.body@ }
    }
}

/// The dispatcher's mathematical state: its phase, the sync cursor, and the
/// quit flag.
#[verifier::ext_equal]
pub struct DispatchState {
    pub phase: BotPhase,
    pub cursor: Option<Seq<char>>,
    pub should_quit: bool,
}

// ---------------------------------------------------------------------------
// Command recognition, over one message body
// ---------------------------------------------------------------------------

/// What a command body answers, given the bot's name. The exact `quit`
/// command answers nothing (it only sets the flag); a `say ` command echoes
/// its remainder, or the fixed fallback when the remainder is empty;
/// anything else is ignored.
pub open spec fn spec_command_reply(name: Seq<char>, body: Seq<char>) -> Option<Seq<char>> {
    if body == name + ": quit"@ {
        None
    } else if spec_starts_with(body, name + ": say "@) {
        let rest = body.skip((name + ": say "@).len() as int);
        if rest.len() > 0 {
            Some(rest)
        } else {
            Some(spec_empty_say_reply())
        }
    } else {
        None
    }
}

/// Whether one decoded event is the exact `quit` command in a text message.
pub open spec fn spec_event_quit(name: Seq<char>, e: EventView) -> bool {
    match e {
        EventView::RoomMessage(c) => match c.content {
            RoomMessageOptionTypeView::Message(RoomMessageTypesView::TextMessage(t)) => t.body
                == name + ": quit"@,
            _ => false,
        },
        _ => false,
    }
}

/// What one decoded event answers: only a text message addressed to the bot
/// by name is considered at all.
pub open spec fn spec_event_reply(name: Seq<char>, e: EventView) -> Option<Seq<char>> {
    match e {
        EventView::RoomMessage(c) => match c.content {
            RoomMessageOptionTypeView::Message(RoomMessageTypesView::TextMessage(t)) => if
            spec_starts_with(t.body, name + ": "@) {
                spec_command_reply(name, t.body)
            } else {
                None
            },
            _ => None,
        },
        _ => None,
    }
}

// ---------------------------------------------------------------------------
// Batch processing, over one decoded sync window
// ---------------------------------------------------------------------------

/// The replies one timeline produces, in timeline order.
pub open spec fn spec_events_outgoing(name: Seq<char>, room: Seq<char>, events: Seq<EventView>)
    -> Seq<OutgoingMessageView>
    decreases events.len(),
{
    if events.len() == 0 {
        Seq::empty()
    } else {
        (match spec_event_reply(name, events[0]) {
            Some(b) => seq![OutgoingMessageView { room, body: b }],
            None => Seq::empty(),
        }) + spec_events_outgoing(name, room, events.drop_first())
    }
}

/// Whether one timeline contains the `quit` command.
pub open spec fn spec_events_quit(name: Seq<char>, events: Seq<EventView>) -> bool
    decreases events.len(),
{
    if events.len() == 0 {
        false
    } else {
        spec_event_quit(name, events[0]) || spec_events_quit(name, events.drop_first())
    }
}

/// The replies one joined room produces: its timeline's, or none when no
/// timeline block came.
pub open spec fn spec_room_outgoing(name: Seq<char>, room: Seq<char>, r: JoinedRoomView) -> Seq<
    OutgoingMessageView,
> {
    match r.timeline {
        Some(t) => spec_events_outgoing(name, room, t.events),
        None => Seq::empty(),
    }
}

/// Whether one joined room's timeline contains the `quit` command.
pub open spec fn spec_room_quit(name: Seq<char>, r: JoinedRoomView) -> bool {
    match r.timeline {
        Some(t) => spec_events_quit(name, t.events),
        None => false,
    }
}

/// The replies a whole batch produces, joined rooms in bucket order.
pub open spec fn spec_rooms_outgoing(
    name: Seq<char>,
    rooms: Seq<(Seq<char>, JoinedRoomView)>,
) -> Seq<OutgoingMessageView>
    decreases rooms.len(),
{
    if rooms.len() == 0 {
        Seq::empty()
    } else {
        spec_room_outgoing(name, rooms[0].0, rooms[0].1) + spec_rooms_outgoing(
            name,
            rooms.drop_first(),
        )
    }
}

/// Whether any joined room of a batch carries the `quit` command.
pub open spec fn spec_rooms_quit(name: Seq<char>, rooms: Seq<(Seq<char>, JoinedRoomView)>) -> bool
    decreases rooms.len(),
{
    if rooms.len() == 0 {
        false
    } else {
        spec_room_quit(name, rooms[0].1) || spec_rooms_quit(name, rooms.drop_first())
    }
}

pub open spec fn spec_batch_outgoing(name: Seq<char>, sync: SyncResponseView) -> Seq<
    OutgoingMessageView,
> {
    spec_rooms_outgoing(name, sync.rooms.join)
}

pub open spec fn spec_batch_quit(name: Seq<char>, sync: SyncResponseView) -> bool {
    spec_rooms_quit(name, sync.rooms.join)
}

// ---------------------------------------------------------------------------
// The state machine's transitions, as functions
// ---------------------------------------------------------------------------

/// What a successful poll does to the dispatcher: the cursor is replaced
/// wholesale by the returned `next_batch`; the batch is processed for
/// commands only when the machine was already past its initial sync; and
/// polling goes on exactly when no quit was requested and a cursor came
/// back.
pub open spec fn spec_on_poll_success(
    st: DispatchState,
    name: Seq<char>,
    sync: SyncResponseView,
) -> (DispatchState, Seq<OutgoingMessageView>) {
    let process = st.phase is Polling;
    let outgoing = if process {
        spec_batch_outgoing(name, sync)
    } else {
        Seq::empty()
    };
    let quit = st.should_quit || (process && spec_batch_quit(name, sync));
    let phase = if quit || sync.next_batch is None {
        BotPhase::Quitting
    } else {
        BotPhase::Polling
    };
    (DispatchState { phase, cursor: sync.next_batch, should_quit: quit }, outgoing)
}

/// What a failed poll does: polling stops, and the cursor is left untouched
/// (a retry with the same `since` stays possible).
pub open spec fn spec_on_poll_failure(st: DispatchState) -> DispatchState {
    DispatchState { phase: BotPhase::Quitting, ..st }
}

/// The bot: the protocol client it drives, its login identity, and the
/// dispatcher state.
pub struct MatrixBot {
    client: MatrixClient,
    username: String,
    password: String,
    should_quit: bool,
    phase: BotPhase,
    cursor: Option<String>,
}

impl MatrixBot {
    pub closed spec fn spec_username(self) -> Seq<char> {
        self.username@
    }

    pub closed spec fn spec_password(self) -> Seq<char> {
        self.password@
    }

    pub closed spec fn spec_client(self) -> MatrixClient {
        self.client
    }

    /// The dispatcher state this bot is in.
    pub closed spec fn dispatch(self) -> DispatchState {
        DispatchState {
            phase: self.phase,
            cursor: self.cursor.deep_view(),
            should_quit: self.should_quit,
        }
    }

    /// A fresh bot: a fresh client for the homeserver, the given identity,
    /// and the dispatcher awaiting login with no cursor and no quit.
    pub fn new(homeserver: String, username: String, password: String) -> (r: MatrixBot)
        ensures
            r.spec_client().session_absent(),
            r.spec_client().spec_homeserver() == homeserver@,
            r.spec_client().spec_local_device_id() is None,
            r.spec_username() == username@,
            r.spec_password() == password@,
            r.dispatch() == (DispatchState {
                phase: BotPhase::AwaitingLogin,
                cursor: None,
                should_quit: false,
            }),
    {
        MatrixBot {
            client: MatrixClient::new(homeserver.as_str(), None),
            username,
            password,
            should_quit: false,
            phase: BotPhase::AwaitingLogin,
            cursor: None,
        }
    }

    /// The dispatcher's phase, for the loop that drives the bot.
    pub fn phase(&self) -> (r: BotPhase)
        ensures
            r == self.dispatch().phase,
    {
        self.phase
    }

    /// Whether another poll should be issued.
    pub fn polling_active(&self) -> (r: bool)
        ensures
            r == (self.dispatch().phase is InitialSync || self.dispatch().phase is Polling),
    {
        match self.phase {
            BotPhase::InitialSync => true,
            BotPhase::Polling => true,
            _ => false,
        }
    }

    // -- command processing ------------------------------------------------

    /// Handles one message body already known to address the bot: an exact
    /// `quit` sets the quit flag and answers nothing; a `say ` command
    /// answers its remainder, or the fixed fallback when the remainder is
    /// empty; anything else is ignored.
    pub fn process_command(&mut self, room_name: &str, message: &str) -> (r: Option<
        OutgoingMessage,
    >)
        ensures
            r.deep_view() == match spec_command_reply(old(self).spec_username(), message@) {
                Some(b) => Some(OutgoingMessageView { room: room_name@, body: b }),
                None => None,
            },
            final(self).should_quit_flag() == (old(self).should_quit_flag() || message@ == old(self).spec_username() + ": quit"@),
            final(self).dispatch().phase == old(self).dispatch().phase,
            final(self).dispatch().cursor == old(self).dispatch().cursor,
            final(self).spec_username() == old(self).spec_username(),
            final(self).spec_password() == old(self).spec_password(),
            final(self).spec_client() == old(self).spec_client(),
    {
        let mut quit_cmd = self.username.clone();
        quit_cmd.append(": quit");
        if str_eq(message, quit_cmd.as_str()) {
            self.should_quit = true;
            return None;
        }
        let mut say_prefix = self.username.clone();
        say_prefix.append(": say ");
        if starts_with(message, say_prefix.as_str()) {
            let plen = say_prefix.unicode_len();
            let mlen = message.unicode_len();
            let rest = message.substring_char(plen, mlen);
            let body = if !rest.is_empty() {
                String::from_str(rest)
            } else {
                String::from_str("I can't say nothing. That would be weird!")
            };
            proof {
                assert(message@.skip(plen as int) =~= message@.subrange(
                    plen as int,
                    mlen as int,
                ));
            }
            return Some(OutgoingMessage { room: String::from_str(room_name), body });
        }
        None
    }

    /// The quit flag.
    pub closed spec fn should_quit_flag(self) -> bool {
        self.should_quit
    }

    /// Scans one joined room's timeline, in order: every text message that
    /// addresses the bot by name is handled as a command, and the replies
    /// are collected in order.
    #[verifier::loop_isolation(false)]
    pub fn process_joined_room(&mut self, room_name: &str, room_data: &JoinedRoom) -> (r: Vec<
        OutgoingMessage,
    >)
        ensures
            r.deep_view() == spec_room_outgoing(
                old(self).spec_username(),
                room_name@,
                room_data.deep_view(),
            ),
            final(self).should_quit_flag() == (old(self).should_quit_flag() || spec_room_quit(
                old(self).spec_username(),
                room_data.deep_view(),
            )),
            final(self).dispatch().phase == old(self).dispatch().phase,
            final(self).dispatch().cursor == old(self).dispatch().cursor,
            final(self).spec_username() == old(self).spec_username(),
            final(self).spec_password() == old(self).spec_password(),
            final(self).spec_client() == old(self).spec_client(),
    {
        let ghost name = self.spec_username();
        let mut out: Vec<OutgoingMessage> = Vec::new();
        let timeline = match &room_data.timeline {
            Some(t) => t,
            None => {
                return out;
            },
        };
        let ghost events = timeline.events.deep_view();
        let n = timeline.events.len();
        let mut i: usize = 0;
        proof {
            assert(events.skip(0) =~= events);
        }
        while i < n
            invariant
                i <= n,
                n == events.len(),
                events == timeline.events.deep_view(),
                out.deep_view() + spec_events_outgoing(name, room_name@, events.skip(i as int))
                    =~= spec_events_outgoing(name, room_name@, events),
                (self.should_quit_flag() || spec_events_quit(name, events.skip(i as int))) == (old(self).should_quit_flag() || spec_events_quit(name, events)),
                self.dispatch().phase == old(self).dispatch().phase,
                self.dispatch().cursor == old(self).dispatch().cursor,
                self.spec_username() == old(self).spec_username(),
                self.spec_password() == old(self).spec_password(),
                self.spec_client() == old(self).spec_client(),
            decreases n - i,
        {
            proof {
                assert(events.skip(i as int)[0] == events[i as int]);
                assert(events.skip(i as int).drop_first() =~= events.skip(i + 1));
                assert(events[i as int] == timeline.events@[i as int].deep_view());
            }
            match &timeline.events[i] {
                Event::RoomMessage(container) => match &container.content {
                    RoomMessageOptionType::Message(RoomMessageTypes::TextMessage(txt)) => {
                        let mut prefix = self.username.clone();
                        prefix.append(": ");
                        if starts_with(txt.body.as_str(), prefix.as_str()) {
                            match self.process_command(room_name, txt.body.as_str()) {
                                Some(m) => out.push(m),
                                None => {},
                            }
                        } else {
                            proof {
                                lemma_quit_needs_prefix(name, txt.body@);
                            }
                        }
                    },
                    _ => {},
                },
                _ => {},
            }
            proof {
                assert(out.deep_view() + spec_events_outgoing(
                    name,
                    room_name@,
                    events.skip(i + 1),
                ) =~= spec_events_outgoing(name, room_name@, events));
            }
            i = i + 1;
        }
        proof {
            assert(events.skip(n as int) =~= Seq::<EventView>::empty());
            assert(out.deep_view() =~= spec_events_outgoing(name, room_name@, events));
        }
        out
    }

    /// Scans every joined room of one decoded batch, in bucket order,
    /// collecting the replies of all rooms in order. The whole batch is
    /// always finished, even after a `quit` is seen.
    #[verifier::loop_isolation(false)]
    pub fn process_sync(&mut self, sync: &SyncResponse) -> (r: Vec<OutgoingMessage>)
        ensures
            r.deep_view() == spec_batch_outgoing(old(self).spec_username(), sync.deep_view()),
            final(self).should_quit_flag() == (old(self).should_quit_flag() || spec_batch_quit(
                old(self).spec_username(),
                sync.deep_view(),
            )),
            final(self).dispatch().phase == old(self).dispatch().phase,
            final(self).dispatch().cursor == old(self).dispatch().cursor,
            final(self).spec_username() == old(self).spec_username(),
            final(self).spec_password() == old(self).spec_password(),
            final(self).spec_client() == old(self).spec_client(),
    {
        let ghost name = self.spec_username();
        let ghost rooms = sync.rooms.join.deep_view();
        let mut out: Vec<OutgoingMessage> = Vec::new();
        let n = sync.rooms.join.len();
        let mut i: usize = 0;
        proof {
            assert(rooms.skip(0) =~= rooms);
        }
        while i < n
            invariant
                i <= n,
                n == rooms.len(),
                rooms == sync.rooms.join.deep_view(),
                out.deep_view() + spec_rooms_outgoing(name, rooms.skip(i as int))
                    =~= spec_rooms_outgoing(name, rooms),
                (self.should_quit_flag() || spec_rooms_quit(name, rooms.skip(i as int))) == (old(self).should_quit_flag() || spec_rooms_quit(name, rooms)),
                self.dispatch().phase == old(self).dispatch().phase,
                self.dispatch().cursor == old(self).dispatch().cursor,
                self.spec_username() == old(self).spec_username(),
                self.spec_password() == old(self).spec_password(),
                self.spec_client() == old(self).spec_client(),
            decreases n - i,
        {
            proof {
                assert(rooms.skip(i as int)[0] == rooms[i as int]);
                assert(rooms.skip(i as int).drop_first() =~= rooms.skip(i + 1));
                assert(rooms[i as int] == (
                    sync.rooms.join@[i as int].0@,
                    sync.rooms.join@[i as int].1.deep_view(),
                ));
            }
            let entry = &sync.rooms.join[i];
            let ghost out_before = out.deep_view();
            let mut replies = self.process_joined_room(entry.0.as_str(), &entry.1);
            let ghost replies_view = replies.deep_view();
            out.append(&mut replies);
            proof {
                assert(out.deep_view() =~= out_before + replies_view);
                assert(out.deep_view() + spec_rooms_outgoing(name, rooms.skip(i + 1))
                    =~= spec_rooms_outgoing(name, rooms));
            }
            i = i + 1;
        }
        proof {
            assert(rooms.skip(n as int) =~= Seq::<(Seq<char>, JoinedRoomView)>::empty());
            assert(out.deep_view() =~= spec_rooms_outgoing(name, rooms));
        }
        out
    }

    // -- the machine's steps -----------------------------------------------

    /// Takes one successful poll: processes the batch when past the initial
    /// sync, replaces the cursor wholesale by the returned `next_batch`, and
    /// decides whether polling goes on. The replies to send are returned in
    /// order.
    pub fn on_poll_success(&mut self, sync: &SyncResponse) -> (r: Vec<OutgoingMessage>)
        requires
            old(self).dispatch().phase is InitialSync || old(self).dispatch().phase is Polling,
        ensures
            final(self).dispatch() == spec_on_poll_success(
                old(self).dispatch(),
                old(self).spec_username(),
                sync.deep_view(),
            ).0,
            r.deep_view() == spec_on_poll_success(
                old(self).dispatch(),
                old(self).spec_username(),
                sync.deep_view(),
            ).1,
            final(self).spec_username() == old(self).spec_username(),
            final(self).spec_password() == old(self).spec_password(),
            final(self).spec_client() == old(self).spec_client(),
    {
        let process = match self.phase {
            BotPhase::Polling => true,
            _ => false,
        };
        let out = if process {
            self.process_sync(sync)
        } else {
            Vec::new()
        };
        let next = match &sync.next_batch {
            Some(s) => Some(s.clone()),
            None => None,
        };
        let stop = match &next {
            Some(_) => self.should_quit,
            None => true,
        };
        self.cursor = next;
        self.phase = if stop {
            BotPhase::Quitting
        } else {
            BotPhase::Polling
        };
        proof {
            assert(final(self).dispatch() =~= spec_on_poll_success(
                old(self).dispatch(),
                old(self).spec_username(),
                sync.deep_view(),
            ).0);
        }
        out
    }

    /// Takes one failed poll: polling stops at once, and the cursor stays
    /// untouched, so a later session could retry the same window.
    pub fn on_poll_failure(&mut self)
        requires
            old(self).dispatch().phase is InitialSync || old(self).dispatch().phase is Polling,
        ensures
            final(self).dispatch() == spec_on_poll_failure(old(self).dispatch()),
            final(self).spec_username() == old(self).spec_username(),
            final(self).spec_password() == old(self).spec_password(),
            final(self).spec_client() == old(self).spec_client(),
    {
        self.phase = BotPhase::Quitting;
    }

    /// Notes that a logout was attempted, whatever its outcome: the machine
    /// is done.
    pub fn on_logout_attempted(&mut self)
        requires
            old(self).dispatch().phase is Quitting,
        ensures
            final(self).dispatch() == (DispatchState {
                phase: BotPhase::LoggedOut,
                ..old(self).dispatch()
            }),
            final(self).spec_username() == old(self).spec_username(),
            final(self).spec_password() == old(self).spec_password(),
            final(self).spec_client() == old(self).spec_client(),
    {
        self.phase = BotPhase::LoggedOut;
        proof {
            assert(final(self).dispatch() =~= (DispatchState {
                phase: BotPhase::LoggedOut,
                ..old(self).dispatch()
            }));
        }
    }

    // -- the requests the loop needs, and the responses it hands back ------

    /// The login request for this bot's identity.
    pub fn login_request(&self) -> (r: HttpRequest)
        ensures
            r.deep_view() == (HttpRequestView {
                method: HttpMethod::Post,
                url: self.spec_client().spec_homeserver() + "/_matrix/client/r0/login"@,
                body: Some(
                    crate::api::spec_login_request_json(
                        crate::api::LoginRequestView {
                            password: self.spec_password(),
                            medium: None,
                            login_type: "m.login.password"@,
                            user: Some(self.spec_username()),
                            address: None,
                            device_id: self.spec_client().spec_local_device_id(),
                        },
                    ),
                ),
                bearer: None,
                wait_ms: None,
            }),
    {
        self.client.login_request(self.username.as_str(), self.password.as_str())
    }

    /// Applies a login response. On success the session is established and
    /// the machine enters its initial sync; on failure it stays awaiting
    /// login and nothing else changes.
    pub fn login_response(&mut self, status: u16, body: &str) -> (r: Result<
        crate::api::LoginResponse,
        MatrixClientError,
    >)
        requires
            old(self).dispatch().phase is AwaitingLogin,
        ensures
            crate::error::res_view(r) == crate::client::spec_response(
                status,
                body@,
                |v: crate::json::JsonValue| crate::api::spec_decode_login(v),
            ),
            match r {
                Ok(x) => {
                    &&& final(self).spec_client().logged_in()
                    &&& final(self).spec_client().spec_access_token() == Some(x.access_token@)
                    &&& final(self).dispatch() == (DispatchState {
                        phase: BotPhase::InitialSync,
                        ..old(self).dispatch()
                    })
                },
                Err(_) => final(self).spec_client() == old(self).spec_client() && final(self).dispatch() == old(self).dispatch(),
            },
            final(self).spec_username() == old(self).spec_username(),
            final(self).spec_password() == old(self).spec_password(),
    {
        let r = self.client.login_response(status, body);
        if r.is_ok() {
            self.phase = BotPhase::InitialSync;
            proof {
                assert(final(self).dispatch() =~= (DispatchState {
                    phase: BotPhase::InitialSync,
                    ..old(self).dispatch()
                }));
            }
        }
        r
    }

    /// The next poll's request: the held cursor as `since` (absent on the
    /// initial sync), no filter, no full state, and the fixed thirty-second
    /// long-poll timeout.
    pub fn sync_request(&self) -> (r: Result<HttpRequest, MatrixClientError>)
        ensures
            match r {
                Ok(req) => self.spec_client().logged_in() && req.deep_view() == (HttpRequestView {
                    method: HttpMethod::Get,
                    url: self.spec_client().spec_homeserver() + "/_matrix/client/r0/sync"@
                        + crate::encode::spec_query(
                        crate::client::spec_sync_pairs(
                            None,
                            self.dispatch().cursor,
                            Some(false),
                            Some(30000),
                        ),
                    ),
                    body: None,
                    bearer: self.spec_client().spec_access_token(),
                    wait_ms: Some(40000),
                }),
                Err(e) => !self.spec_client().logged_in() && e is NotLoggedIn,
            },
    {
        let since = match &self.cursor {
            Some(c) => Some(c),
            None => None,
        };
        self.client.sync_request(None, since, Some(false), Some(30000))
    }

    /// The send request for one reply the dispatcher produced, stamped with
    /// the current time.
    pub fn send_request(&self, msg: &OutgoingMessage) -> (r: Result<
        HttpRequest,
        MatrixClientError,
    >)
        ensures
            match r {
                Ok(req) => self.spec_client().logged_in() && exists|secs: int, millis: int|
                    0 <= millis < 1000 && req.deep_view() == crate::client::spec_send_request(
                        self.spec_client(),
                        msg.room@,
                        RoomMessageTypesView::TextMessage(
                            crate::event::TextMessageTypeView { body: msg.body@ },
                        ),
                        secs,
                        millis,
                    ),
                Err(e) => !self.spec_client().logged_in() && e is NotLoggedIn,
            },
    {
        let content = RoomMessageTypes::TextMessage(TextMessageType { body: msg.body.clone() });
        let r = self.client.send_room_message_request(msg.room.as_str(), &content);
        proof {
            let cv = RoomMessageTypesView::TextMessage(
                crate::event::TextMessageTypeView { body: msg.body@ },
            );
            assert(content.deep_view() == cv);
            if r is Ok {
                let req = r->Ok_0;
                let (secs, millis) = choose|secs: int, millis: int|
                    0 <= millis < 1000 && req.deep_view() == crate::client::spec_send_request(
                        self.spec_client(),
                        msg.room@,
                        content.deep_view(),
                        secs,
                        millis,
                    );
                assert(0 <= millis < 1000 && req.deep_view() == crate::client::spec_send_request(
                    self.spec_client(),
                    msg.room@,
                    cv,
                    secs,
                    millis,
                ));
            }
        }
        r
    }

    /// The logout request for the held session.
    pub fn logout_request(&self) -> (r: Result<HttpRequest, MatrixClientError>)
        ensures
            match r {
                Ok(req) => self.spec_client().logged_in() && req.deep_view() == (HttpRequestView {
                    method: HttpMethod::Post,
                    url: self.spec_client().spec_homeserver() + "/_matrix/client/r0/logout"@,
                    body: None,
                    bearer: self.spec_client().spec_access_token(),
                    wait_ms: None,
                }),
                Err(e) => !self.spec_client().logged_in() && e is NotLoggedIn,
            },
    {
        self.client.logout_request()
    }

    /// Applies a logout response to the held session; the machine's own
    /// step is [`Self::on_logout_attempted`], taken whatever happened here.
    pub fn logout_response(&mut self, status: u16, body: &str) -> (r: Result<
        (),
        MatrixClientError,
    >)
        ensures
            match r {
                Ok(_) => crate::client::spec_ok_status(status) && final(self).spec_client().session_absent(),
                Err(e) => !crate::client::spec_ok_status(status) && e.deep_view()
                    == crate::error::MatrixClientErrorView::BadStatus(status, body@) && final(self).spec_client() == old(self).spec_client(),
            },
            final(self).dispatch() == old(self).dispatch(),
            final(self).spec_username() == old(self).spec_username(),
            final(self).spec_password() == old(self).spec_password(),
    {
        self.client.logout_response(status, body)
    }
}

// ---------------------------------------------------------------------------
// Laws of the machine
// ---------------------------------------------------------------------------

/// The dispatcher state after a run of successful polls, first to last.
pub open spec fn spec_polls_state(
    st: DispatchState,
    name: Seq<char>,
    syncs: Seq<SyncResponseView>,
) -> DispatchState
    decreases syncs.len(),
{
    if syncs.len() == 0 {
        st
    } else {
        spec_polls_state(
            spec_on_poll_success(st, name, syncs[0]).0,
            name,
            syncs.drop_first(),
        )
    }
}

/// Law: after any run of successful polls, the cursor the dispatcher holds
/// is exactly the `next_batch` the last poll returned — never merged, never
/// invented, never rolled back.
pub proof fn lemma_cursor_is_last_next_batch(
    st: DispatchState,
    name: Seq<char>,
    syncs: Seq<SyncResponseView>,
)
    requires
        syncs.len() > 0,
    ensures
        spec_polls_state(st, name, syncs).cursor == syncs.last().next_batch,
    decreases syncs.len(),
{
    let st2 = spec_on_poll_success(st, name, syncs[0]).0;
    if syncs.len() == 1 {
        assert(syncs.drop_first().len() == 0);
        assert(spec_polls_state(st2, name, syncs.drop_first()) == st2);
    } else {
        lemma_cursor_is_last_next_batch(st2, name, syncs.drop_first());
        assert(syncs.drop_first().last() == syncs.last());
    }
}

/// Law (cursor discipline): in any run of successful polls, the cursor
/// presented as `since` by poll N+1 — the dispatcher's cursor after the
/// first N+1 polls' predecessor — equals poll N's returned `next_batch`,
/// byte for byte.
pub proof fn lemma_since_equals_prev_next_batch(
    st: DispatchState,
    name: Seq<char>,
    syncs: Seq<SyncResponseView>,
    n: int,
)
    requires
        0 <= n < syncs.len(),
    ensures
        spec_polls_state(st, name, syncs.take(n + 1)).cursor == syncs[n].next_batch,
{
    let run = syncs.take(n + 1);
    assert(run.len() == n + 1);
    assert(run.last() == syncs[n]);
    lemma_cursor_is_last_next_batch(st, name, run);
}

/// Law: a `quit` command observed while polling ends polling after that
/// batch — the machine leaves the polling phase, and the batch's replies
/// are still produced in full.
pub proof fn lemma_quit_stops_polling(st: DispatchState, name: Seq<char>, sync: SyncResponseView)
    requires
        st.phase is Polling,
        spec_batch_quit(name, sync),
    ensures
        spec_on_poll_success(st, name, sync).0.phase is Quitting,
        spec_on_poll_success(st, name, sync).0.should_quit,
        spec_on_poll_success(st, name, sync).1 == spec_batch_outgoing(name, sync),
{
}

/// Law: the first poll of a session — the full state replay taken while
/// the machine is still in its initial sync — is never processed for
/// commands: it produces no replies and cannot set the quit flag, whatever
/// its timelines replay.
pub proof fn lemma_initial_sync_not_processed(
    st: DispatchState,
    name: Seq<char>,
    sync: SyncResponseView,
)
    requires
        st.phase is InitialSync,
    ensures
        spec_on_poll_success(st, name, sync).1 == Seq::<OutgoingMessageView>::empty(),
        spec_on_poll_success(st, name, sync).0.should_quit == st.should_quit,
{
}

/// The exact `quit` command starts with the bot's address prefix; so a body
/// that lacks the prefix is not the `quit` command.
pub proof fn lemma_quit_needs_prefix(name: Seq<char>, body: Seq<char>)
    ensures
        !spec_starts_with(body, name + ": "@) ==> body != name + ": quit"@,
{
    reveal_strlit(": ");
    reveal_strlit(": quit");
    if body == name + ": quit"@ {
        assert((name + ": quit"@).subrange(0, (name + ": "@).len() as int) =~= name + ": "@);
    }
}

} // verus!
