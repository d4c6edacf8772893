//! The incremental-sync payload: the room buckets, their optional blocks,
//! and the decode of one whole sync response.
//!
//! The top-level payload is structural: a malformed container shape (a
//! missing bucket object, a timeline without its event array) is a hard
//! decode failure for the whole poll, while each event inside an event array
//! degrades on its own (see [`crate::decode`]). A block that is absent from
//! a room record means "no change since the last cursor", never "empty".

use vstd::prelude::*;

use crate::decode::{
    decode_events, get_opt_i64, get_opt_str, get_req_bool, spec_decode_events, spec_opt_i64,
    spec_opt_str, spec_req_bool,
};
use crate::event::{Event, EventView};
use crate::json::{spec_field, JsonValue};

verus! {

// ---------------------------------------------------------------------------
// Container types and their views
// ---------------------------------------------------------------------------

/// Unread counters for one joined room.
#[derive(Debug, Clone, Copy, PartialEq, Eq, Structural)]
pub struct UnreadNotificationCounts {
    pub highlight_count: Option<i64>,
    pub notification_count: Option<i64>,
}

impl DeepView for UnreadNotificationCounts {
    type V = UnreadNotificationCounts;

    open spec fn deep_view(&self) -> UnreadNotificationCounts {
        *self
    }
}

/// An ordered window of events, with the server's truncation flag and an
/// optional backfill token (stored, never consumed here).
#[derive(Debug, PartialEq)]
pub struct Timeline {
    pub limited: bool,
    pub prev_batch: Option<String>,
    pub events: Vec<Event>,
}

#[verifier::ext_equal]
pub struct TimelineView {
    pub limited: bool,
    pub prev_batch: Option<Seq<char>>,
    pub events: Seq<EventView>,
}

impl DeepView for Timeline {
    type V = TimelineView;

    open spec fn deep_view(&self) -> TimelineView {
        TimelineView {
            limited: self.limited,
            prev_batch: self.prev_batch.deep_view(),
            events: self.events.deep_view(),
        }
    }
}

#[derive(Debug, PartialEq)]
pub struct State {
    pub events: Vec<Event>,
}

#[verifier::ext_equal]
pub struct StateView {
    pub events: Seq<EventView>,
}

impl DeepView for State {
    type V = StateView;

    open spec fn deep_view(&self) -> StateView {
        StateView { events: self.events.deep_view() }
    }
}

#[derive(Debug, PartialEq)]
pub struct Presence {
    pub events: Vec<Event>,
}

#[verifier::ext_equal]
pub struct PresenceView {
    pub events: Seq<EventView>,
}

impl DeepView for Presence {
    type V = PresenceView;

    open spec fn deep_view(&self) -> PresenceView {
        PresenceView { events: self.events.deep_view() }
    }
}

#[derive(Debug, PartialEq)]
pub struct InviteState {
    pub events: Vec<Event>,
}

#[verifier::ext_equal]
pub struct InviteStateView {
    pub events: Seq<EventView>,
}

impl DeepView for InviteState {
    type V = InviteStateView;

    open spec fn deep_view(&self) -> InviteStateView {
        InviteStateView { events: self.events.deep_view() }
    }
}

#[derive(Debug, PartialEq)]
pub struct AccountData {
    pub events: Vec<Event>,
}

#[verifier::ext_equal]
pub struct AccountDataView {
    pub events: Seq<EventView>,
}

impl DeepView for AccountData {
    type V = AccountDataView;

    open spec fn deep_view(&self) -> AccountDataView {
        AccountDataView { events: self.events.deep_view() }
    }
}

#[derive(Debug, PartialEq)]
pub struct Ephemeral {
    pub events: Vec<Event>,
}

#[verifier::ext_equal]
pub struct EphemeralView {
    pub events: Seq<EventView>,
}

impl DeepView for Ephemeral {
    type V = EphemeralView;

    open spec fn deep_view(&self) -> EphemeralView {
        EphemeralView { events: self.events.deep_view() }
    }
}

#[derive(Debug, PartialEq)]
pub struct InvitedState {
    pub events: Vec<Event>,
}

#[verifier::ext_equal]
pub struct InvitedStateView {
    pub events: Seq<EventView>,
}

impl DeepView for InvitedState {
    type V = InvitedStateView;

    open spec fn deep_view(&self) -> InvitedStateView {
        InvitedStateView { events: self.events.deep_view() }
    }
}

/// One joined room's window: every block optional and independent.
#[derive(Debug, PartialEq)]
pub struct JoinedRoom {
    pub unread_notifications: Option<UnreadNotificationCounts>,
    pub timeline: Option<Timeline>,
    pub state: Option<State>,
    pub account_data: Option<AccountData>,
    pub ephemeral: Option<Ephemeral>,
}

#[verifier::ext_equal]
pub struct JoinedRoomView {
    pub unread_notifications: Option<UnreadNotificationCounts>,
    pub timeline: Option<TimelineView>,
    pub state: Option<StateView>,
    pub account_data: Option<AccountDataView>,
    pub ephemeral: Option<EphemeralView>,
}

impl DeepView for JoinedRoom {
    type V = JoinedRoomView;

    open spec fn deep_view(&self) -> JoinedRoomView {
        JoinedRoomView {
            unread_notifications: self.unread_notifications.deep_view(),
            timeline: self.timeline.deep_view(),
            state: self.state.deep_view(),
            account_data: self.account_data.deep_view(),
            ephemeral: self.ephemeral.deep_view(),
        }
    }
}

#[derive(Debug, PartialEq)]
pub struct LeftRoom {
    pub timeline: Option<Timeline>,
    pub state: Option<State>,
}

#[verifier::ext_equal]
pub struct LeftRoomView {
    pub timeline: Option<TimelineView>,
    pub state: Option<StateView>,
}

impl DeepView for LeftRoom {
    type V = LeftRoomView;

    open spec fn deep_view(&self) -> LeftRoomView {
        LeftRoomView { timeline: self.timeline.deep_view(), state: self.state.deep_view() }
    }
}

#[derive(Debug, PartialEq)]
pub struct InvitedRoom {
    pub invite_state: Option<InviteState>,
}

#[verifier::ext_equal]
pub struct InvitedRoomView {
    pub invite_state: Option<InviteStateView>,
}

impl DeepView for InvitedRoom {
    type V = InvitedRoomView;

    open spec fn deep_view(&self) -> InvitedRoomView {
        InvitedRoomView { invite_state: self.invite_state.deep_view() }
    }
}

/// The three disjoint room buckets of one sync window, keyed by room id.
#[derive(Debug, PartialEq)]
pub struct Rooms {
    pub leave: Vec<(String, LeftRoom)>,
    pub join: Vec<(String, JoinedRoom)>,
    pub invite: Vec<(String, InvitedRoom)>,
}

#[verifier::ext_equal]
pub struct RoomsView {
    pub leave: Seq<(Seq<char>, LeftRoomView)>,
    pub join: Seq<(Seq<char>, JoinedRoomView)>,
    pub invite: Seq<(Seq<char>, InvitedRoomView)>,
}

impl DeepView for Rooms {
    type V = RoomsView;

    open spec fn deep_view(&self) -> RoomsView {
        RoomsView {
            leave: self.leave.deep_view(),
            join: self.join.deep_view(),
            invite: self.invite.deep_view(),
        }
    }
}

/// One decoded sync window. An absent `next_batch` means the session should
/// stop polling.
#[derive(Debug, PartialEq)]
pub struct SyncResponse {
    pub next_batch: Option<String>,
    pub rooms: Rooms,
    pub presence: Presence,
}

#[verifier::ext_equal]
pub struct SyncResponseView {
    pub next_batch: Option<Seq<char>>,
    pub rooms: RoomsView,
    pub presence: PresenceView,
}

impl DeepView for SyncResponse {
    type V = SyncResponseView;

    open spec fn deep_view(&self) -> SyncResponseView {
        SyncResponseView {
            next_batch: self.next_batch.deep_view(),
            rooms: self.rooms.deep_view(),
            presence: self.presence.deep_view(),
        }
    }
}

// ---------------------------------------------------------------------------
// Decoding the containers
// ---------------------------------------------------------------------------

/// A block that is just an array of events under `events`.
pub open spec fn spec_events_block(v: JsonValue) -> Option<Seq<EventView>> {
    if !(v is Obj) {
        None
    } else {
        match spec_field(v, "events"@) {
            Some(JsonValue::Arr(a)) => Some(spec_decode_events(a@)),
            _ => None,
        }
    }
}

pub fn decode_events_block(v: &JsonValue) -> (r: Option<Vec<Event>>)
    ensures
        r.deep_view() == spec_events_block(*v),
{
    if v.as_obj().is_none() {
        return None;
    }
    match v.get("events") {
        Some(f) => match f.as_arr() {
            Some(a) => Some(decode_events(a)),
            None => None,
        },
        None => None,
    }
}

pub open spec fn spec_decode_timeline(v: JsonValue) -> Option<TimelineView> {
    if !(v is Obj) {
        None
    } else {
        match (
            spec_req_bool(v, "limited"@),
            spec_opt_str(v, "prev_batch"@),
            spec_field(v, "events"@),
        ) {
            (Some(limited), Some(prev_batch), Some(JsonValue::Arr(a))) => Some(
                TimelineView { limited, prev_batch, events: spec_decode_events(a@) },
            ),
            _ => None,
        }
    }
}

pub fn decode_timeline(v: &JsonValue) -> (r: Option<Timeline>)
    ensures
        r.deep_view() == spec_decode_timeline(*v),
{
    if v.as_obj().is_none() {
        return None;
    }
    let limited = match get_req_bool(v, "limited") {
        Some(x) => x,
        None => {
            return None;
        },
    };
    let prev_batch = match get_opt_str(v, "prev_batch") {
        Some(x) => x,
        None => {
            return None;
        },
    };
    let events = match v.get("events") {
        Some(f) => match f.as_arr() {
            Some(a) => decode_events(a),
            None => {
                return None;
            },
        },
        None => {
            return None;
        },
    };
    Some(Timeline { limited, prev_batch, events })
}

/// An optional timeline field of a room record.
pub open spec fn spec_opt_timeline(v: JsonValue, key: Seq<char>) -> Option<Option<TimelineView>> {
    match spec_field(v, key) {
        None => Some(None),
        Some(JsonValue::Null) => Some(None),
        Some(f) => match spec_decode_timeline(f) {
            Some(x) => Some(Some(x)),
            None => None,
        },
    }
}

pub fn get_opt_timeline(v: &JsonValue, key: &str) -> (r: Option<Option<Timeline>>)
    ensures
        r.deep_view() == spec_opt_timeline(*v, key@),
{
    match v.get(key) {
        None => Some(None),
        Some(f) => {
            if f.is_null() {
                return Some(None);
            }
            match decode_timeline(f) {
                Some(x) => Some(Some(x)),
                None => None,
            }
        },
    }
}

/// An optional events block of a room record.
pub open spec fn spec_opt_events_block(v: JsonValue, key: Seq<char>) -> Option<
    Option<Seq<EventView>>,
> {
    match spec_field(v, key) {
        None => Some(None),
        Some(JsonValue::Null) => Some(None),
        Some(f) => match spec_events_block(f) {
            Some(x) => Some(Some(x)),
            None => None,
        },
    }
}

pub fn get_opt_events_block(v: &JsonValue, key: &str) -> (r: Option<Option<Vec<Event>>>)
    ensures
        r.deep_view() == spec_opt_events_block(*v, key@),
{
    match v.get(key) {
        None => Some(None),
        Some(f) => {
            if f.is_null() {
                return Some(None);
            }
            match decode_events_block(f) {
                Some(x) => Some(Some(x)),
                None => None,
            }
        },
    }
}

pub open spec fn spec_unread_counts(v: JsonValue) -> Option<UnreadNotificationCounts> {
    if !(v is Obj) {
        None
    } else {
        match (spec_opt_i64(v, "highlight_count"@), spec_opt_i64(v, "notification_count"@)) {
            (Some(highlight_count), Some(notification_count)) => Some(
                UnreadNotificationCounts { highlight_count, notification_count },
            ),
            _ => None,
        }
    }
}

pub open spec fn spec_opt_unread_counts(v: JsonValue, key: Seq<char>) -> Option<
    Option<UnreadNotificationCounts>,
> {
    match spec_field(v, key) {
        None => Some(None),
        Some(JsonValue::Null) => Some(None),
        Some(f) => match spec_unread_counts(f) {
            Some(x) => Some(Some(x)),
            None => None,
        },
    }
}

pub fn decode_unread_counts(v: &JsonValue) -> (r: Option<UnreadNotificationCounts>)
    ensures
        r.deep_view() == spec_unread_counts(*v),
{
    if v.as_obj().is_none() {
        return None;
    }
    let highlight_count = match get_opt_i64(v, "highlight_count") {
        Some(x) => x,
        None => {
            return None;
        },
    };
    let notification_count = match get_opt_i64(v, "notification_count") {
        Some(x) => x,
        None => {
            return None;
        },
    };
    Some(UnreadNotificationCounts { highlight_count, notification_count })
}

pub fn get_opt_unread_counts(v: &JsonValue, key: &str) -> (r: Option<
    Option<UnreadNotificationCounts>,
>)
    ensures
        r.deep_view() == spec_opt_unread_counts(*v, key@),
{
    match v.get(key) {
        None => Some(None),
        Some(f) => {
            if f.is_null() {
                return Some(None);
            }
            match decode_unread_counts(f) {
                Some(x) => Some(Some(x)),
                None => None,
            }
        },
    }
}

// ---------------------------------------------------------------------------
// Room records and the three buckets
// ---------------------------------------------------------------------------

pub open spec fn spec_decode_joined_room(v: JsonValue) -> Option<JoinedRoomView> {
    if !(v is Obj) {
        None
    } else {
        match (
            spec_opt_unread_counts(v, "unread_notifications"@),
            spec_opt_timeline(v, "timeline"@),
            spec_opt_events_block(v, "state"@),
            spec_opt_events_block(v, "account_data"@),
            spec_opt_events_block(v, "ephemeral"@),
        ) {
            (
                Some(unread_notifications),
                Some(timeline),
                Some(state),
                Some(account_data),
                Some(ephemeral),
            ) => Some(
                JoinedRoomView {
                    unread_notifications,
                    timeline,
                    state: match state {
                        Some(events) => Some(StateView { events }),
                        None => None,
                    },
                    account_data: match account_data {
                        Some(events) => Some(AccountDataView { events }),
                        None => None,
                    },
                    ephemeral: match ephemeral {
                        Some(events) => Some(EphemeralView { events }),
                        None => None,
                    },
                },
            ),
            _ => None,
        }
    }
}

pub fn decode_joined_room(v: &JsonValue) -> (r: Option<JoinedRoom>)
    ensures
        r.deep_view() == spec_decode_joined_room(*v),
{
    if v.as_obj().is_none() {
        return None;
    }
    let unread_notifications = match get_opt_unread_counts(v, "unread_notifications") {
        Some(x) => x,
        None => {
            return None;
        },
    };
    let timeline = match get_opt_timeline(v, "timeline") {
        Some(x) => x,
        None => {
            return None;
        },
    };
    let state = match get_opt_events_block(v, "state") {
        Some(x) => x,
        None => {
            return None;
        },
    };
    let account_data = match get_opt_events_block(v, "account_data") {
        Some(x) => x,
        None => {
            return None;
        },
    };
    let ephemeral = match get_opt_events_block(v, "ephemeral") {
        Some(x) => x,
        None => {
            return None;
        },
    };
    Some(
        JoinedRoom {
            unread_notifications,
            timeline,
            state: match state {
                Some(events) => Some(State { events }),
                None => None,
            },
            account_data: match account_data {
                Some(events) => Some(AccountData { events }),
                None => None,
            },
            ephemeral: match ephemeral {
                Some(events) => Some(Ephemeral { events }),
                None => None,
            },
        },
    )
}

pub open spec fn spec_decode_left_room(v: JsonValue) -> Option<LeftRoomView> {
    if !(v is Obj) {
        None
    } else {
        match (spec_opt_timeline(v, "timeline"@), spec_opt_events_block(v, "state"@)) {
            (Some(timeline), Some(state)) => Some(
                LeftRoomView {
                    timeline,
                    state: match state {
                        Some(events) => Some(StateView { events }),
                        None => None,
                    },
                },
            ),
            _ => None,
        }
    }
}

pub fn decode_left_room(v: &JsonValue) -> (r: Option<LeftRoom>)
    ensures
        r.deep_view() == spec_decode_left_room(*v),
{
    if v.as_obj().is_none() {
        return None;
    }
    let timeline = match get_opt_timeline(v, "timeline") {
        Some(x) => x,
        None => {
            return None;
        },
    };
    let state = match get_opt_events_block(v, "state") {
        Some(x) => x,
        None => {
            return None;
        },
    };
    Some(
        LeftRoom {
            timeline,
            state: match state {
                Some(events) => Some(State { events }),
                None => None,
            },
        },
    )
}

pub open spec fn spec_decode_invited_room(v: JsonValue) -> Option<InvitedRoomView> {
    if !(v is Obj) {
        None
    } else {
        match spec_opt_events_block(v, "invite_state"@) {
            Some(invite_state) => Some(
                InvitedRoomView {
                    invite_state: match invite_state {
                        Some(events) => Some(InviteStateView { events }),
                        None => None,
                    },
                },
            ),
            None => None,
        }
    }
}

pub fn decode_invited_room(v: &JsonValue) -> (r: Option<InvitedRoom>)
    ensures
        r.deep_view() == spec_decode_invited_room(*v),
{
    if v.as_obj().is_none() {
        return None;
    }
    match get_opt_events_block(v, "invite_state") {
        Some(invite_state) => Some(
            InvitedRoom {
                invite_state: match invite_state {
                    Some(events) => Some(InviteState { events }),
                    None => None,
                },
            },
        ),
        None => None,
    }
}

pub open spec fn spec_joined_entries(m: Seq<(String, JsonValue)>) -> Option<
    Seq<(Seq<char>, JoinedRoomView)>,
> {
    if forall|i: int| 0 <= i < m.len() ==> spec_decode_joined_room((#[trigger] m[i]).1) is Some {
        Some(m.map_values(|p: (String, JsonValue)| (p.0@, spec_decode_joined_room(p.1)->Some_0)))
    } else {
        None
    }
}

#[verifier::loop_isolation(false)]
pub fn decode_joined_entries(m: &Vec<(String, JsonValue)>) -> (r: Option<
    Vec<(String, JoinedRoom)>,
>)
    ensures
        r.deep_view() == spec_joined_entries(m@),
{
    let n = m.len();
    let mut out: Vec<(String, JoinedRoom)> = Vec::new();
    let mut i: usize = 0;
    while i < n
        invariant
            i <= n,
            out@.len() == i,
            forall|j: int| 0 <= j < i ==> spec_decode_joined_room((#[trigger] m@[j]).1) is Some,
            forall|j: int| 0 <= j < i ==> (#[trigger] out@[j]).0@ == m@[j].0@,
            forall|j: int|
                0 <= j < i ==> (#[trigger] out@[j]).1.deep_view() == spec_decode_joined_room(
                    m@[j].1,
                )->Some_0,
        decreases n - i,
    {
        let entry = &m[i];
        match decode_joined_room(&entry.1) {
            Some(x) => out.push((entry.0.clone(), x)),
            None => {
                return None;
            },
        }
        i = i + 1;
    }
    proof {
        let entries = spec_joined_entries(m@);
        assert(forall|j: int|
            0 <= j < n ==> out.deep_view()[j] == ((#[trigger] out@[j]).0@, out@[j].1.deep_view()));
        assert(entries matches Some(e) && out.deep_view() =~= e);
    }
    Some(out)
}

pub open spec fn spec_left_entries(m: Seq<(String, JsonValue)>) -> Option<
    Seq<(Seq<char>, LeftRoomView)>,
> {
    if forall|i: int| 0 <= i < m.len() ==> spec_decode_left_room((#[trigger] m[i]).1) is Some {
        Some(m.map_values(|p: (String, JsonValue)| (p.0@, spec_decode_left_room(p.1)->Some_0)))
    } else {
        None
    }
}

#[verifier::loop_isolation(false)]
pub fn decode_left_entries(m: &Vec<(String, JsonValue)>) -> (r: Option<Vec<(String, LeftRoom)>>)
    ensures
        r.deep_view() == spec_left_entries(m@),
{
    let n = m.len();
    let mut out: Vec<(String, LeftRoom)> = Vec::new();
    let mut i: usize = 0;
    while i < n
        invariant
            i <= n,
            out@.len() == i,
            forall|j: int| 0 <= j < i ==> spec_decode_left_room((#[trigger] m@[j]).1) is Some,
            forall|j: int| 0 <= j < i ==> (#[trigger] out@[j]).0@ == m@[j].0@,
            forall|j: int|
                0 <= j < i ==> (#[trigger] out@[j]).1.deep_view() == spec_decode_left_room(
                    m@[j].1,
                )->Some_0,
        decreases n - i,
    {
        let entry = &m[i];
        match decode_left_room(&entry.1) {
            Some(x) => out.push((entry.0.clone(), x)),
            None => {
                return None;
            },
        }
        i = i + 1;
    }
    proof {
        let entries = spec_left_entries(m@);
        assert(forall|j: int|
            0 <= j < n ==> out.deep_view()[j] == ((#[trigger] out@[j]).0@, out@[j].1.deep_view()));
        assert(entries matches Some(e) && out.deep_view() =~= e);
    }
    Some(out)
}

pub open spec fn spec_invited_entries(m: Seq<(String, JsonValue)>) -> Option<
    Seq<(Seq<char>, InvitedRoomView)>,
> {
    if forall|i: int| 0 <= i < m.len() ==> spec_decode_invited_room((#[trigger] m[i]).1) is Some {
        Some(m.map_values(|p: (String, JsonValue)| (p.0@, spec_decode_invited_room(p.1)->Some_0)))
    } else {
        None
    }
}

#[verifier::loop_isolation(false)]
pub fn decode_invited_entries(m: &Vec<(String, JsonValue)>) -> (r: Option<
    Vec<(String, InvitedRoom)>,
>)
    ensures
        r.deep_view() == spec_invited_entries(m@),
{
    let n = m.len();
    let mut out: Vec<(String, InvitedRoom)> = Vec::new();
    let mut i: usize = 0;
    while i < n
        invariant
            i <= n,
            out@.len() == i,
            forall|j: int| 0 <= j < i ==> spec_decode_invited_room((#[trigger] m@[j]).1) is Some,
            forall|j: int| 0 <= j < i ==> (#[trigger] out@[j]).0@ == m@[j].0@,
            forall|j: int|
                0 <= j < i ==> (#[trigger] out@[j]).1.deep_view() == spec_decode_invited_room(
                    m@[j].1,
                )->Some_0,
        decreases n - i,
    {
        let entry = &m[i];
        match decode_invited_room(&entry.1) {
            Some(x) => out.push((entry.0.clone(), x)),
            None => {
                return None;
            },
        }
        i = i + 1;
    }
    proof {
        let entries = spec_invited_entries(m@);
        assert(forall|j: int|
            0 <= j < n ==> out.deep_view()[j] == ((#[trigger] out@[j]).0@, out@[j].1.deep_view()));
        assert(entries matches Some(e) && out.deep_view() =~= e);
    }
    Some(out)
}

// ---------------------------------------------------------------------------
// The whole sync payload
// ---------------------------------------------------------------------------

/// The `rooms` object: all three buckets required, each an object keyed by
/// room id.
pub open spec fn spec_decode_rooms(v: JsonValue) -> Option<RoomsView> {
    match (spec_field(v, "leave"@), spec_field(v, "join"@), spec_field(v, "invite"@)) {
        (Some(JsonValue::Obj(l)), Some(JsonValue::Obj(j)), Some(JsonValue::Obj(i))) => {
            match (spec_left_entries(l@), spec_joined_entries(j@), spec_invited_entries(i@)) {
                (Some(leave), Some(join), Some(invite)) => Some(RoomsView { leave, join, invite }),
                _ => None,
            }
        },
        _ => None,
    }
}

pub fn decode_rooms(v: &JsonValue) -> (r: Option<Rooms>)
    ensures
        r.deep_view() == spec_decode_rooms(*v),
{
    let leave = match v.get("leave") {
        Some(f) => match f.as_obj() {
            Some(m) => match decode_left_entries(m) {
                Some(x) => x,
                None => {
                    return None;
                },
            },
            None => {
                return None;
            },
        },
        None => {
            return None;
        },
    };
    let join = match v.get("join") {
        Some(f) => match f.as_obj() {
            Some(m) => match decode_joined_entries(m) {
                Some(x) => x,
                None => {
                    return None;
                },
            },
            None => {
                return None;
            },
        },
        None => {
            return None;
        },
    };
    let invite = match v.get("invite") {
        Some(f) => match f.as_obj() {
            Some(m) => match decode_invited_entries(m) {
                Some(x) => x,
                None => {
                    return None;
                },
            },
            None => {
                return None;
            },
        },
        None => {
            return None;
        },
    };
    Some(Rooms { leave, join, invite })
}

/// One whole sync payload: an object with an optional `next_batch` string, a
/// required `rooms` object of three buckets, and a required `presence`
/// events block.
pub open spec fn spec_decode_sync(v: JsonValue) -> Option<SyncResponseView> {
    if !(v is Obj) {
        None
    } else {
        match (spec_opt_str(v, "next_batch"@), spec_field(v, "rooms"@), spec_field(v, "presence"@)) {
            (Some(next_batch), Some(rv), Some(pv)) => {
                match (spec_decode_rooms(rv), spec_events_block(pv)) {
                    (Some(rooms), Some(events)) => Some(
                        SyncResponseView { next_batch, rooms, presence: PresenceView { events } },
                    ),
                    _ => None,
                }
            },
            _ => None,
        }
    }
}

/// Decodes one whole sync payload; `None` is a hard decode failure for the
/// poll.
pub fn decode_sync(v: &JsonValue) -> (r: Option<SyncResponse>)
    ensures
        r.deep_view() == spec_decode_sync(*v),
{
    if v.as_obj().is_none() {
        return None;
    }
    let next_batch = match get_opt_str(v, "next_batch") {
        Some(x) => x,
        None => {
            return None;
        },
    };
    let rooms = match v.get("rooms") {
        Some(rv) => match decode_rooms(rv) {
            Some(x) => x,
            None => {
                return None;
            },
        },
        None => {
            return None;
        },
    };
    let presence = match v.get("presence") {
        Some(pv) => match decode_events_block(pv) {
            Some(events) => Presence { events },
            None => {
                return None;
            },
        },
        None => {
            return None;
        },
    };
    Some(SyncResponse { next_batch, rooms, presence })
}

} // verus!
