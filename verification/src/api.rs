//! The one-shot operations' payloads: what the stateless calls send and what
//! their responses decode to.

use vstd::prelude::*;

use crate::decode::{
    get_opt_str, get_opt_str_arr, get_req_bool, get_req_i64, get_req_str, get_req_str_arr,
    spec_opt_str, spec_opt_str_arr, spec_req_bool, spec_req_i64, spec_req_str, spec_req_str_arr,
};
use crate::encode::{push_quoted, spec_quoted};
use crate::json::JsonValue;

verus! {

// ---------------------------------------------------------------------------
// Version discovery
// ---------------------------------------------------------------------------

#[derive(Debug, PartialEq)]
pub struct VersionResponse {
    pub versions: Vec<String>,
}

#[verifier::ext_equal]
pub struct VersionResponseView {
    pub versions: Seq<Seq<char>>,
}

impl DeepView for VersionResponse {
    type V = VersionResponseView;

    open spec fn deep_view(&self) -> VersionResponseView {
        VersionResponseView { versions: self.versions.deep_view() }
    }
}

pub open spec fn spec_decode_versions(v: JsonValue) -> Option<VersionResponseView> {
    match spec_req_str_arr(v, "versions"@) {
        Some(versions) => Some(VersionResponseView { versions }),
        None => None,
    }
}

pub fn decode_versions(v: &JsonValue) -> (r: Option<VersionResponse>)
    ensures
        r.deep_view() == spec_decode_versions(*v),
{
    match get_req_str_arr(v, "versions") {
        Some(versions) => Some(VersionResponse { versions }),
        None => None,
    }
}

// ---------------------------------------------------------------------------
// Login
// ---------------------------------------------------------------------------

/// What the login endpoint is sent. Only the password flow is spoken here,
/// so `login_type` is always the password-login discriminator and the
/// other optional identifiers stay absent.
#[derive(Debug, PartialEq)]
pub struct LoginRequest {
    pub password: String,
    pub medium: Option<String>,
    pub login_type: String,
    pub user: Option<String>,
    pub address: Option<String>,
    pub device_id: Option<String>,
}

#[verifier::ext_equal]
pub struct LoginRequestView {
    pub password: Seq<char>,
    pub medium: Option<Seq<char>>,
    pub login_type: Seq<char>,
    pub user: Option<Seq<char>>,
    pub address: Option<Seq<char>>,
    pub device_id: Option<Seq<char>>,
}

impl DeepView for LoginRequest {
    type V = LoginRequestView;

    open spec fn deep_view(&self) -> LoginRequestView {
        LoginRequestView {
            password: self.password@,
            medium: self.medium.deep_view(),
            login_type: self.login_type@,
            user: self.user.deep_view(),
            address: self.address.deep_view(),
            device_id: self.device_id.deep_view(),
        }
    }
}

/// The JSON a login request is sent as: an absent optional field is left
/// out entirely, and the discriminator field is written as `type`.
pub open spec fn spec_login_request_json(l: LoginRequestView) -> Seq<char> {
    "{\"password\":"@ + spec_quoted(l.password) + (match l.medium {
        Some(m) => ",\"medium\":"@ + spec_quoted(m),
        None => Seq::empty(),
    }) + ",\"type\":"@ + spec_quoted(l.login_type) + (match l.user {
        Some(u) => ",\"user\":"@ + spec_quoted(u),
        None => Seq::empty(),
    }) + (match l.address {
        Some(a) => ",\"address\":"@ + spec_quoted(a),
        None => Seq::empty(),
    }) + (match l.device_id {
        Some(d) => ",\"device_id\":"@ + spec_quoted(d),
        None => Seq::empty(),
    }) + "}"@
}

/// Writes a login request as the JSON the login endpoint takes.
#[verifier::rlimit(50)]
pub fn login_request_json(l: &LoginRequest) -> (r: String)
    ensures
        r@ == spec_login_request_json(l.deep_view()),
{
    let mut out = String::new();
    out.append("{\"password\":");
    push_quoted(&mut out, l.password.as_str());
    if let Some(m) = &l.medium {
        out.append(",\"medium\":");
        push_quoted(&mut out, m.as_str());
    }
    out.append(",\"type\":");
    push_quoted(&mut out, l.login_type.as_str());
    if let Some(u) = &l.user {
        out.append(",\"user\":");
        push_quoted(&mut out, u.as_str());
    }
    if let Some(a) = &l.address {
        out.append(",\"address\":");
        push_quoted(&mut out, a.as_str());
    }
    if let Some(d) = &l.device_id {
        out.append(",\"device_id\":");
        push_quoted(&mut out, d.as_str());
    }
    out.append("}");
    proof {
        assert(out@ =~= spec_login_request_json(l.deep_view()));
    }
    out
}

/// What a successful login returns.
#[derive(Debug, PartialEq)]
pub struct LoginResponse {
    pub access_token: String,
    pub home_server: String,
    pub user_id: String,
    pub refresh_token: Option<String>,
    pub device_id: Option<String>,
}

#[verifier::ext_equal]
pub struct LoginResponseView {
    pub access_token: Seq<char>,
    pub home_server: Seq<char>,
    pub user_id: Seq<char>,
    pub refresh_token: Option<Seq<char>>,
    pub device_id: Option<Seq<char>>,
}

impl DeepView for LoginResponse {
    type V = LoginResponseView;

    open spec fn deep_view(&self) -> LoginResponseView {
        LoginResponseView {
            access_token: self.access_token@,
            home_server: self.home_server@,
            user_id: self.user_id@,
            refresh_token: self.refresh_token.deep_view(),
            device_id: self.device_id.deep_view(),
        }
    }
}

pub open spec fn spec_decode_login(v: JsonValue) -> Option<LoginResponseView> {
    match (
        spec_req_str(v, "access_token"@),
        spec_req_str(v, "home_server"@),
        spec_req_str(v, "user_id"@),
        spec_opt_str(v, "refresh_token"@),
        spec_opt_str(v, "device_id"@),
    ) {
        (Some(access_token), Some(home_server), Some(user_id), Some(refresh_token), Some(
            device_id,
        )) => Some(
            LoginResponseView { access_token, home_server, user_id, refresh_token, device_id },
        ),
        _ => None,
    }
}

pub fn decode_login(v: &JsonValue) -> (r: Option<LoginResponse>)
    ensures
        r.deep_view() == spec_decode_login(*v),
{
    let access_token = match get_req_str(v, "access_token") {
        Some(x) => x,
        None => {
            return None;
        },
    };
    let home_server = match get_req_str(v, "home_server") {
        Some(x) => x,
        None => {
            return None;
        },
    };
    let user_id = match get_req_str(v, "user_id") {
        Some(x) => x,
        None => {
            return None;
        },
    };
    let refresh_token = match get_opt_str(v, "refresh_token") {
        Some(x) => x,
        None => {
            return None;
        },
    };
    let device_id = match get_opt_str(v, "device_id") {
        Some(x) => x,
        None => {
            return None;
        },
    };
    Some(LoginResponse { access_token, home_server, user_id, refresh_token, device_id })
}

// ---------------------------------------------------------------------------
// Public rooms
// ---------------------------------------------------------------------------

#[derive(Debug, PartialEq)]
pub struct PublicRoomsChunk {
    pub world_readable: bool,
    pub topic: Option<String>,
    pub num_joined_members: i64,
    pub avatar_url: String,
    pub room_id: String,
    pub guest_can_join: bool,
    pub aliases: Option<Vec<String>>,
    pub name: String,
}

#[verifier::ext_equal]
pub struct PublicRoomsChunkView {
    pub world_readable: bool,
    pub topic: Option<Seq<char>>,
    pub num_joined_members: i64,
    pub avatar_url: Seq<char>,
    pub room_id: Seq<char>,
    pub guest_can_join: bool,
    pub aliases: Option<Seq<Seq<char>>>,
    pub name: Seq<char>,
}

impl DeepView for PublicRoomsChunk {
    type V = PublicRoomsChunkView;

    open spec fn deep_view(&self) -> PublicRoomsChunkView {
        PublicRoomsChunkView {
            world_readable: self.world_readable,
            topic: self.topic.deep_view(),
            num_joined_members: self.num_joined_members,
            avatar_url: self.avatar_url@,
            room_id: self.room_id@,
            guest_can_join: self.guest_can_join,
            aliases: self.aliases.deep_view(),
            name: self.name@,
        }
    }
}

pub open spec fn spec_decode_chunk(v: JsonValue) -> Option<PublicRoomsChunkView> {
    match (
        spec_req_bool(v, "world_readable"@),
        spec_opt_str(v, "topic"@),
        spec_req_i64(v, "num_joined_members"@),
        spec_req_str(v, "avatar_url"@),
        spec_req_str(v, "room_id"@),
        spec_req_bool(v, "guest_can_join"@),
        spec_opt_str_arr(v, "aliases"@),
        spec_req_str(v, "name"@),
    ) {
        (
            Some(world_readable),
            Some(topic),
            Some(num_joined_members),
            Some(avatar_url),
            Some(room_id),
            Some(guest_can_join),
            Some(aliases),
            Some(name),
        ) => Some(
            PublicRoomsChunkView {
                world_readable,
                topic,
                num_joined_members,
                avatar_url,
                room_id,
                guest_can_join,
                aliases,
                name,
            },
        ),
        _ => None,
    }
}

pub fn decode_chunk(v: &JsonValue) -> (r: Option<PublicRoomsChunk>)
    ensures
        r.deep_view() == spec_decode_chunk(*v),
{
    let world_readable = match get_req_bool(v, "world_readable") {
        Some(x) => x,
        None => {
            return None;
        },
    };
    let topic = match get_opt_str(v, "topic") {
        Some(x) => x,
        None => {
            return None;
        },
    };
    let num_joined_members = match get_req_i64(v, "num_joined_members") {
        Some(x) => x,
        None => {
            return None;
        },
    };
    let avatar_url = match get_req_str(v, "avatar_url") {
        Some(x) => x,
        None => {
            return None;
        },
    };
    let room_id = match get_req_str(v, "room_id") {
        Some(x) => x,
        None => {
            return None;
        },
    };
    let guest_can_join = match get_req_bool(v, "guest_can_join") {
        Some(x) => x,
        None => {
            return None;
        },
    };
    let aliases = match get_opt_str_arr(v, "aliases") {
        Some(x) => x,
        None => {
            return None;
        },
    };
    let name = match get_req_str(v, "name") {
        Some(x) => x,
        None => {
            return None;
        },
    };
    Some(
        PublicRoomsChunk {
            world_readable,
            topic,
            num_joined_members,
            avatar_url,
            room_id,
            guest_can_join,
            aliases,
            name,
        },
    )
}

#[derive(Debug, PartialEq)]
pub struct PublicRoomsResponse {
    pub start: Option<String>,
    pub chunk: Vec<PublicRoomsChunk>,
    pub end: Option<String>,
}

#[verifier::ext_equal]
pub struct PublicRoomsResponseView {
    pub start: Option<Seq<char>>,
    pub chunk: Seq<PublicRoomsChunkView>,
    pub end: Option<Seq<char>>,
}

impl DeepView for PublicRoomsResponse {
    type V = PublicRoomsResponseView;

    open spec fn deep_view(&self) -> PublicRoomsResponseView {
        PublicRoomsResponseView {
            start: self.start.deep_view(),
            chunk: self.chunk.deep_view(),
            end: self.end.deep_view(),
        }
    }
}

pub open spec fn spec_chunk_elems(a: Seq<JsonValue>) -> Option<Seq<PublicRoomsChunkView>> {
    if forall|i: int| 0 <= i < a.len() ==> spec_decode_chunk(#[trigger] a[i]) is Some {
        Some(a.map_values(|e: JsonValue| spec_decode_chunk(e)->Some_0))
    } else {
        None
    }
}

pub open spec fn spec_decode_public_rooms(v: JsonValue) -> Option<PublicRoomsResponseView> {
    match (spec_opt_str(v, "start"@), crate::json::spec_field(v, "chunk"@), spec_opt_str(v, "end"@)) {
        (Some(start), Some(JsonValue::Arr(a)), Some(end)) => match spec_chunk_elems(a@) {
            Some(chunk) => Some(PublicRoomsResponseView { start, chunk, end }),
            None => None,
        },
        _ => None,
    }
}

#[verifier::loop_isolation(false)]
pub fn decode_public_rooms(v: &JsonValue) -> (r: Option<PublicRoomsResponse>)
    ensures
        r.deep_view() == spec_decode_public_rooms(*v),
{
    let start = match get_opt_str(v, "start") {
        Some(x) => x,
        None => {
            return None;
        },
    };
    let end = match get_opt_str(v, "end") {
        Some(x) => x,
        None => {
            return None;
        },
    };
    let a = match v.get("chunk") {
        Some(f) => match f.as_arr() {
            Some(a) => a,
            None => {
                return None;
            },
        },
        None => {
            return None;
        },
    };
    let n = a.len();
    let mut chunk: Vec<PublicRoomsChunk> = Vec::new();
    let mut i: usize = 0;
    while i < n
        invariant
            i <= n,
            chunk@.len() == i,
            forall|j: int| 0 <= j < i ==> spec_decode_chunk(#[trigger] a@[j]) is Some,
            forall|j: int|
                0 <= j < i ==> (#[trigger] chunk@[j]).deep_view() == spec_decode_chunk(
                    a@[j],
                )->Some_0,
        decreases n - i,
    {
        match decode_chunk(&a[i]) {
            Some(x) => chunk.push(x),
            None => {
                return None;
            },
        }
        i = i + 1;
    }
    proof {
        let elems = spec_chunk_elems(a@);
        assert(elems matches Some(e) && chunk.deep_view() =~= e);
    }
    Some(PublicRoomsResponse { start, chunk, end })
}

// ---------------------------------------------------------------------------
// Join, and sending a message
// ---------------------------------------------------------------------------

#[derive(Debug, PartialEq)]
pub struct JoinResponse {
    pub room_id: String,
}

#[verifier::ext_equal]
pub struct JoinResponseView {
    pub room_id: Seq<char>,
}

impl DeepView for JoinResponse {
    type V = JoinResponseView;

    open spec fn deep_view(&self) -> JoinResponseView {
        JoinResponseView { room_id: self.room_id@ }
    }
}

pub open spec fn spec_decode_join(v: JsonValue) -> Option<JoinResponseView> {
    match spec_req_str(v, "room_id"@) {
        Some(room_id) => Some(JoinResponseView { room_id }),
        None => None,
    }
}

pub fn decode_join(v: &JsonValue) -> (r: Option<JoinResponse>)
    ensures
        r.deep_view() == spec_decode_join(*v),
{
    match get_req_str(v, "room_id") {
        Some(room_id) => Some(JoinResponse { room_id }),
        None => None,
    }
}

#[derive(Debug, PartialEq)]
pub struct SendEventResponse {
    pub event_id: String,
}

#[verifier::ext_equal]
pub struct SendEventResponseView {
    pub event_id: Seq<char>,
}

impl DeepView for SendEventResponse {
    type V = SendEventResponseView;

    open spec fn deep_view(&self) -> SendEventResponseView {
        SendEventResponseView { event_id: self.event_id@ }
    }
}

pub open spec fn spec_decode_send_event(v: JsonValue) -> Option<SendEventResponseView> {
    match spec_req_str(v, "event_id"@) {
        Some(event_id) => Some(SendEventResponseView { event_id }),
        None => None,
    }
}

pub fn decode_send_event(v: &JsonValue) -> (r: Option<SendEventResponse>)
    ensures
        r.deep_view() == spec_decode_send_event(*v),
{
    match get_req_str(v, "event_id") {
        Some(event_id) => Some(SendEventResponse { event_id }),
        None => None,
    }
}

} // verus!
