//! The protocol client, without its transport: session state, the exact
//! request each operation sends, and the exact meaning of each response.
//!
//! Every operation is split in two. The `*_request` half builds an
//! [`HttpRequest`] value describing method, URL, body and bearer token — an
//! authenticated call fails locally with `NotLoggedIn` when no token is
//! held, and an empty room id fails locally with `BadRoomId`, both before
//! any network traffic. The `*_response` half takes the raw status and body
//! the transport returned and decides the outcome: a non-2xx status is
//! `BadStatus` carrying both, a malformed body is `Json`, and a well-formed
//! body decodes to the operation's typed response.

use vstd::prelude::*;

use crate::api::{
    decode_join, decode_login, decode_public_rooms, decode_send_event, decode_versions,
    spec_decode_join, spec_decode_login, spec_decode_public_rooms, spec_decode_send_event,
    spec_decode_versions, spec_login_request_json, JoinResponse, LoginRequest, LoginRequestView,
    LoginResponse, PublicRoomsResponse, SendEventResponse, VersionResponse,
};
use crate::encode::{
    message_json, push_colon_encoded, push_query, spec_colon_encode, spec_message_json, spec_query,
};
use crate::error::{res_view, MatrixClientError, MatrixClientErrorView};
use crate::event::RoomMessageTypes;
use crate::json::{parse_json, spec_json_parse, JsonValue};
use crate::sync::{decode_sync, spec_decode_sync, SyncResponse};
use crate::text::{push_char, push_i64_dec, push_u64_dec, spec_dec_digits, spec_digit_char, spec_i64_dec};

verus! {

/// The slack added to a requested long-poll timeout, so the client's own
/// wait budget always exceeds the server's.
pub const TIMEOUT_DEFAULT_MS: u64 = 10000;

#[derive(Debug, Clone, Copy, PartialEq, Eq, Structural)]
pub enum HttpMethod {
    Get,
    Post,
    Put,
}

impl DeepView for HttpMethod {
    type V = HttpMethod;

    open spec fn deep_view(&self) -> HttpMethod {
        *self
    }
}

/// One request, fully described: what the transport must perform. `wait_ms`
/// is the client's own wait budget for a long poll, absent for the one-shot
/// calls.
#[derive(Debug, PartialEq)]
pub struct HttpRequest {
    pub method: HttpMethod,
    pub url: String,
    pub body: Option<String>,
    pub bearer: Option<String>,
    pub wait_ms: Option<u64>,
}

#[verifier::ext_equal]
pub struct HttpRequestView {
    pub method: HttpMethod,
    pub url: Seq<char>,
    pub body: Option<Seq<char>>,
    pub bearer: Option<Seq<char>>,
    pub wait_ms: Option<u64>,
}

impl DeepView for HttpRequest {
    type V = HttpRequestView;

    open spec fn deep_view(&self) -> HttpRequestView {
        HttpRequestView {
            method: self.method,
            url: self.url@,
            body: self.body.deep_view(),
            bearer: self.bearer.deep_view(),
            wait_ms: self.wait_ms,
        }
    }
}

/// Whether a response status means success.
pub open spec fn spec_ok_status(status: u16) -> bool {
    200 <= status < 300
}

/// What a response means, given the decode of its payload kind: a non-2xx
/// status is rejected with status and body, a body that does not parse or
/// decode is a decode failure, and otherwise the decoded value.
pub open spec fn spec_response<TV>(
    status: u16,
    body: Seq<char>,
    dec: spec_fn(JsonValue) -> Option<TV>,
) -> Result<TV, MatrixClientErrorView> {
    if !spec_ok_status(status) {
        Err(MatrixClientErrorView::BadStatus(status, body))
    } else {
        match spec_json_parse(body) {
            Some(v) => match dec(v) {
                Some(x) => Ok(x),
                None => Err(MatrixClientErrorView::Json),
            },
            None => Err(MatrixClientErrorView::Json),
        }
    }
}

/// Relies on `chrono::Utc::now`: the current time, as whole seconds since
/// the epoch and milliseconds past the second boundary. `chrono` documents
/// the milliseconds as under 1000, or 1000–1999 during a leap second;
/// nothing else is assumed of the clock.
#[verifier::external_body]
fn now_unix() -> (r: (i64, u32))
    ensures
        r.1 < 2000,
{
    let now = chrono::Utc::now();
    (now.timestamp(), now.timestamp_subsec_millis())
}

/// The session and its homeserver. The session fields are absent until a
/// login succeeds, and never partially valid: the access token and the user
/// id are held together or not at all.
pub struct MatrixClient {
    access_token: Option<String>,
    refresh_token: Option<String>,
    local_device_id: Option<String>,
    server_device_id: Option<String>,
    user_id: Option<String>,
    homeserver: String,
}

impl MatrixClient {
    pub closed spec fn spec_access_token(self) -> Option<Seq<char>> {
        self.access_token.deep_view()
    }

    pub closed spec fn spec_refresh_token(self) -> Option<Seq<char>> {
        self.refresh_token.deep_view()
    }

    pub closed spec fn spec_local_device_id(self) -> Option<Seq<char>> {
        self.local_device_id.deep_view()
    }

    pub closed spec fn spec_server_device_id(self) -> Option<Seq<char>> {
        self.server_device_id.deep_view()
    }

    pub closed spec fn spec_user_id(self) -> Option<Seq<char>> {
        self.user_id.deep_view()
    }

    pub closed spec fn spec_homeserver(self) -> Seq<char> {
        self.homeserver@
    }

    /// A session is held exactly when an access token is.
    pub open spec fn logged_in(self) -> bool {
        self.spec_access_token() is Some
    }

    /// The session fields a login fills and a logout clears, all absent.
    pub open spec fn session_absent(self) -> bool {
        &&& self.spec_access_token() is None
        &&& self.spec_refresh_token() is None
        &&& self.spec_server_device_id() is None
        &&& self.spec_user_id() is None
    }

    /// A fresh client: no session, the given homeserver, and an optional
    /// locally chosen device id to present at login.
    pub fn new(homeserver: &str, device_id: Option<String>) -> (r: MatrixClient)
        ensures
            r.session_absent(),
            !r.logged_in(),
            r.spec_local_device_id() == device_id.deep_view(),
            r.spec_homeserver() == homeserver@,
    {
        MatrixClient {
            access_token: None,
            refresh_token: None,
            local_device_id: device_id,
            server_device_id: None,
            user_id: None,
            homeserver: String::from_str(homeserver),
        }
    }

    /// The bearer token for an authenticated call, or the local
    /// `NotLoggedIn` failure.
    fn auth_token(&self) -> (r: Result<String, MatrixClientError>)
        ensures
            match r {
                Ok(t) => self.logged_in() && Some(t@) == self.spec_access_token(),
                Err(e) => !self.logged_in() && e is NotLoggedIn,
            },
    {
        match &self.access_token {
            Some(t) => Ok(t.clone()),
            None => Err(MatrixClientError::NotLoggedIn),
        }
    }

    /// The homeserver with a path appended.
    fn url_with_path(&self, path: &str) -> (r: String)
        ensures
            r@ == self.spec_homeserver() + path@,
    {
        let mut u = self.homeserver.clone();
        u.append(path);
        u
    }

    /// The unauthenticated version-discovery request.
    pub fn get_supported_versions_request(&self) -> (r: HttpRequest)
        ensures
            r.deep_view() == (HttpRequestView {
                method: HttpMethod::Get,
                url: self.spec_homeserver() + "/_matrix/client/versions"@,
                body: None,
                bearer: None,
                wait_ms: None,
            }),
    {
        HttpRequest {
            method: HttpMethod::Get,
            url: self.url_with_path("/_matrix/client/versions"),
            body: None,
            bearer: None,
            wait_ms: None,
        }
    }

    /// The password-login request: the user name and password, and the
    /// locally chosen device id if one was given.
    pub fn login_request(&self, user: &str, password: &str) -> (r: HttpRequest)
        ensures
            r.deep_view() == (HttpRequestView {
                method: HttpMethod::Post,
                url: self.spec_homeserver() + "/_matrix/client/r0/login"@,
                body: Some(
                    spec_login_request_json(
                        LoginRequestView {
                            password: password@,
                            medium: None,
                            login_type: "m.login.password"@,
                            user: Some(user@),
                            address: None,
                            device_id: self.spec_local_device_id(),
                        },
                    ),
                ),
                bearer: None,
                wait_ms: None,
            }),
    {
        let device_id = match &self.local_device_id {
            Some(d) => Some(d.clone()),
            None => None,
        };
        let req = LoginRequest {
            password: String::from_str(password),
            medium: None,
            login_type: String::from_str("m.login.password"),
            user: Some(String::from_str(user)),
            address: None,
            device_id,
        };
        HttpRequest {
            method: HttpMethod::Post,
            url: self.url_with_path("/_matrix/client/r0/login"),
            body: Some(crate::api::login_request_json(&req)),
            bearer: None,
            wait_ms: None,
        }
    }

    /// Applies a login response. On success the whole session is replaced by
    /// what the server returned; on any failure the client is untouched.
    pub fn login_response(&mut self, status: u16, body: &str) -> (r: Result<
        LoginResponse,
        MatrixClientError,
    >)
        ensures
            res_view(r) == spec_response(status, body@, |v: JsonValue| spec_decode_login(v)),
            match r {
                Ok(x) => {
                    &&& final(self).spec_access_token() == Some(x.access_token@)
                    &&& final(self).spec_refresh_token() == x.refresh_token.deep_view()
                    &&& final(self).spec_server_device_id() == x.device_id.deep_view()
                    &&& final(self).spec_user_id() == Some(x.user_id@)
                    &&& final(self).logged_in()
                },
                Err(_) => *final(self) == *old(self),
            },
            final(self).spec_homeserver() == old(self).spec_homeserver(),
            final(self).spec_local_device_id() == old(self).spec_local_device_id(),
    {
        if !(200 <= status && status < 300) {
            return Err(MatrixClientError::BadStatus(status, String::from_str(body)));
        }
        let v = match parse_json(body) {
            Some(v) => v,
            None => {
                return Err(MatrixClientError::Json);
            },
        };
        let resp = match decode_login(&v) {
            Some(x) => x,
            None => {
                return Err(MatrixClientError::Json);
            },
        };
        self.access_token = Some(resp.access_token.clone());
        self.refresh_token = match &resp.refresh_token {
            Some(t) => Some(t.clone()),
            None => None,
        };
        self.server_device_id = match &resp.device_id {
            Some(d) => Some(d.clone()),
            None => None,
        };
        self.user_id = Some(resp.user_id.clone());
        Ok(resp)
    }

    /// The logout request for this session.
    pub fn logout_request(&self) -> (r: Result<HttpRequest, MatrixClientError>)
        ensures
            match r {
                Ok(req) => self.logged_in() && req.deep_view() == (HttpRequestView {
                    method: HttpMethod::Post,
                    url: self.spec_homeserver() + "/_matrix/client/r0/logout"@,
                    body: None,
                    bearer: self.spec_access_token(),
                    wait_ms: None,
                }),
                Err(e) => !self.logged_in() && e is NotLoggedIn,
            },
    {
        let token = self.auth_token()?;
        Ok(
            HttpRequest {
                method: HttpMethod::Post,
                url: self.url_with_path("/_matrix/client/r0/logout"),
                body: None,
                bearer: Some(token),
                wait_ms: None,
            },
        )
    }

    /// Applies a logout response: on success the session is cleared whole;
    /// on failure nothing changes.
    pub fn logout_response(&mut self, status: u16, body: &str) -> (r: Result<
        (),
        MatrixClientError,
    >)
        ensures
            match r {
                Ok(_) => spec_ok_status(status) && final(self).session_absent() && !final(self).logged_in(),
                Err(e) => !spec_ok_status(status) && e.deep_view()
                    == MatrixClientErrorView::BadStatus(status, body@) && *final(self) == *old(self),
            },
            final(self).spec_homeserver() == old(self).spec_homeserver(),
            final(self).spec_local_device_id() == old(self).spec_local_device_id(),
    {
        if !(200 <= status && status < 300) {
            return Err(MatrixClientError::BadStatus(status, String::from_str(body)));
        }
        self.access_token = None;
        self.refresh_token = None;
        self.server_device_id = None;
        self.user_id = None;
        Ok(())
    }

    /// The logout-everywhere request for this session.
    pub fn logout_all_request(&self) -> (r: Result<HttpRequest, MatrixClientError>)
        ensures
            match r {
                Ok(req) => self.logged_in() && req.deep_view() == (HttpRequestView {
                    method: HttpMethod::Post,
                    url: self.spec_homeserver() + "/_matrix/client/r0/logout/all"@,
                    body: None,
                    bearer: self.spec_access_token(),
                    wait_ms: None,
                }),
                Err(e) => !self.logged_in() && e is NotLoggedIn,
            },
    {
        let token = self.auth_token()?;
        Ok(
            HttpRequest {
                method: HttpMethod::Post,
                url: self.url_with_path("/_matrix/client/r0/logout/all"),
                body: None,
                bearer: Some(token),
                wait_ms: None,
            },
        )
    }

    /// Applies a logout-everywhere response, exactly as [`Self::logout_response`].
    pub fn logout_all_response(&mut self, status: u16, body: &str) -> (r: Result<
        (),
        MatrixClientError,
    >)
        ensures
            match r {
                Ok(_) => spec_ok_status(status) && final(self).session_absent() && !final(self).logged_in(),
                Err(e) => !spec_ok_status(status) && e.deep_view()
                    == MatrixClientErrorView::BadStatus(status, body@) && *final(self) == *old(self),
            },
            final(self).spec_homeserver() == old(self).spec_homeserver(),
            final(self).spec_local_device_id() == old(self).spec_local_device_id(),
    {
        if !(200 <= status && status < 300) {
            return Err(MatrixClientError::BadStatus(status, String::from_str(body)));
        }
        self.access_token = None;
        self.refresh_token = None;
        self.server_device_id = None;
        self.user_id = None;
        Ok(())
    }

    /// The public-rooms listing request.
    pub fn list_public_rooms_request(&self) -> (r: Result<HttpRequest, MatrixClientError>)
        ensures
            match r {
                Ok(req) => self.logged_in() && req.deep_view() == (HttpRequestView {
                    method: HttpMethod::Get,
                    url: self.spec_homeserver() + "/_matrix/client/r0/publicRooms"@,
                    body: None,
                    bearer: self.spec_access_token(),
                    wait_ms: None,
                }),
                Err(e) => !self.logged_in() && e is NotLoggedIn,
            },
    {
        let token = self.auth_token()?;
        Ok(
            HttpRequest {
                method: HttpMethod::Get,
                url: self.url_with_path("/_matrix/client/r0/publicRooms"),
                body: None,
                bearer: Some(token),
                wait_ms: None,
            },
        )
    }

    /// The join request for a room id or alias. An empty identifier is
    /// rejected locally, before the session is even consulted.
    pub fn join_room_request(&self, room_id_or_alias: &String) -> (r: Result<
        HttpRequest,
        MatrixClientError,
    >)
        ensures
            match r {
                Ok(req) => {
                    &&& room_id_or_alias@.len() > 0
                    &&& self.logged_in()
                    &&& req.deep_view() == (HttpRequestView {
                        method: HttpMethod::Post,
                        url: self.spec_homeserver() + "/_matrix/client/r0/join/"@
                            + room_id_or_alias@,
                        body: None,
                        bearer: self.spec_access_token(),
                        wait_ms: None,
                    })
                },
                Err(e) => if room_id_or_alias@.len() == 0 {
                    e.deep_view() == MatrixClientErrorView::BadRoomId(
                        "Room ID or Alias cannot be empty!"@,
                    )
                } else {
                    !self.logged_in() && e is NotLoggedIn
                },
            },
    {
        if room_id_or_alias.as_str().is_empty() {
            return Err(
                MatrixClientError::BadRoomId(String::from_str("Room ID or Alias cannot be empty!")),
            );
        }
        let token = self.auth_token()?;
        let mut url = self.url_with_path("/_matrix/client/r0/join/");
        url.append(room_id_or_alias.as_str());
        Ok(HttpRequest { method: HttpMethod::Post, url, body: None, bearer: Some(token), wait_ms: None })
    }

    /// The long-poll request. The query carries, in this order and only when
    /// given: the filter, the cursor as `since`, the full-state flag, and
    /// the requested server timeout; values are form-encoded. The client's
    /// own wait budget exceeds the requested timeout by the fixed slack.
    pub fn sync_request(
        &self,
        filter: Option<&str>,
        since: Option<&String>,
        full_state: Option<bool>,
        timeout_ms: Option<u64>,
    ) -> (r: Result<HttpRequest, MatrixClientError>)
        requires
            timeout_ms matches Some(t) ==> t <= u64::MAX - 10000,
        ensures
            match r {
                Ok(req) => self.logged_in() && req.deep_view() == (HttpRequestView {
                    method: HttpMethod::Get,
                    url: self.spec_homeserver() + "/_matrix/client/r0/sync"@ + spec_query(
                        spec_sync_pairs(
                            filter.deep_view(),
                            since.deep_view(),
                            full_state,
                            timeout_ms,
                        ),
                    ),
                    body: None,
                    bearer: self.spec_access_token(),
                    wait_ms: Some(
                        match timeout_ms {
                            Some(t) => (t + TIMEOUT_DEFAULT_MS) as u64,
                            None => TIMEOUT_DEFAULT_MS,
                        },
                    ),
                }),
                Err(e) => !self.logged_in() && e is NotLoggedIn,
            },
    {
        let token = self.auth_token()?;
        let mut pairs: Vec<(String, String)> = Vec::new();
        if let Some(f) = filter {
            pairs.push((String::from_str("filter"), String::from_str(f)));
        }
        if let Some(s) = since {
            pairs.push((String::from_str("since"), s.clone()));
        }
        if let Some(b) = full_state {
            let value = if b {
                String::from_str("true")
            } else {
                String::from_str("false")
            };
            pairs.push((String::from_str("full_state"), value));
        }
        let wait_ms: u64 = match timeout_ms {
            Some(t) => {
                let mut value = String::new();
                push_u64_dec(&mut value, t);
                pairs.push((String::from_str("timeout"), value));
                t + TIMEOUT_DEFAULT_MS
            },
            None => TIMEOUT_DEFAULT_MS,
        };
        proof {
            assert(pairs.deep_view() =~= spec_sync_pairs(
                filter.deep_view(),
                since.deep_view(),
                full_state,
                timeout_ms,
            ));
        }
        let mut url = self.url_with_path("/_matrix/client/r0/sync");
        push_query(&mut url, &pairs);
        Ok(
            HttpRequest {
                method: HttpMethod::Get,
                url,
                body: None,
                bearer: Some(token),
                wait_ms: Some(wait_ms),
            },
        )
    }

    /// The send request for a room message, stamped with the given time: the
    /// transaction id is the whole seconds, a dot, and three millisecond
    /// digits, and every colon of the path (room ids contain them) is
    /// percent-escaped.
    pub fn send_room_message_request_at(
        &self,
        room: &str,
        message: &RoomMessageTypes,
        secs: i64,
        millis: u32,
    ) -> (r: Result<HttpRequest, MatrixClientError>)
        ensures
            match r {
                Ok(req) => self.logged_in() && req.deep_view() == spec_send_request(
                    *self,
                    room@,
                    message.deep_view(),
                    secs as int,
                    (millis as int) % 1000,
                ),
                Err(e) => !self.logged_in() && e is NotLoggedIn,
            },
    {
        let token = self.auth_token()?;
        let mut path = String::from_str("/_matrix/client/r0/rooms/");
        path.append(room);
        path.append("/send/m.room.message/");
        push_i64_dec(&mut path, secs);
        push_char(&mut path, '.');
        let m = (millis % 1000) as u64;
        push_char(&mut path, crate::text::digit_char(m / 100));
        push_char(&mut path, crate::text::digit_char((m / 10) % 10));
        push_char(&mut path, crate::text::digit_char(m % 10));
        let mut url = self.homeserver.clone();
        push_colon_encoded(&mut url, path.as_str());
        proof {
            assert(path@ =~= "/_matrix/client/r0/rooms/"@ + room@ + "/send/m.room.message/"@
                + spec_txn_id(secs as int, (millis as int) % 1000));
        }
        Ok(
            HttpRequest {
                method: HttpMethod::Put,
                url,
                body: Some(message_json(message)),
                bearer: Some(token),
                wait_ms: None,
            },
        )
    }

    /// The send request for a room message, stamped with the current time.
    /// The time is the one thing here the clock decides, so the contract
    /// promises only that the request is the stamped request for some
    /// instant.
    pub fn send_room_message_request(&self, room: &str, message: &RoomMessageTypes) -> (r: Result<
        HttpRequest,
        MatrixClientError,
    >)
        ensures
            match r {
                Ok(req) => self.logged_in() && exists|secs: int, millis: int|
                    0 <= millis < 1000 && req.deep_view() == spec_send_request(
                        *self,
                        room@,
                        message.deep_view(),
                        secs,
                        millis,
                    ),
                Err(e) => !self.logged_in() && e is NotLoggedIn,
            },
    {
        let (secs, millis) = now_unix();
        let r = self.send_room_message_request_at(room, message, secs, millis);
        proof {
            if r is Ok {
                assert(0 <= (millis as int) % 1000 < 1000);
            }
        }
        r
    }
}

/// The query pairs of one long-poll request, in wire order.
pub open spec fn spec_sync_pairs(
    filter: Option<Seq<char>>,
    since: Option<Seq<char>>,
    full_state: Option<bool>,
    timeout_ms: Option<u64>,
) -> Seq<(Seq<char>, Seq<char>)> {
    (match filter {
        Some(f) => seq![("filter"@, f)],
        None => Seq::empty(),
    }) + (match since {
        Some(s) => seq![("since"@, s)],
        None => Seq::empty(),
    }) + (match full_state {
        Some(b) => seq![
            ("full_state"@, if b {
                "true"@
            } else {
                "false"@
            }),
        ],
        None => Seq::empty(),
    }) + (match timeout_ms {
        Some(t) => seq![("timeout"@, spec_dec_digits(t as nat))],
        None => Seq::empty(),
    })
}

/// A transaction id: whole seconds, a dot, three millisecond digits.
pub open spec fn spec_txn_id(secs: int, millis: int) -> Seq<char> {
    spec_i64_dec(secs) + seq!['.'] + seq![
        spec_digit_char((millis / 100) as nat),
        spec_digit_char(((millis / 10) % 10) as nat),
        spec_digit_char((millis % 10) as nat),
    ]
}

/// The send request for a room message at one instant.
pub open spec fn spec_send_request(
    c: MatrixClient,
    room: Seq<char>,
    message: crate::event::RoomMessageTypesView,
    secs: int,
    millis: int,
) -> HttpRequestView {
    HttpRequestView {
        method: HttpMethod::Put,
        url: c.spec_homeserver() + spec_colon_encode(
            "/_matrix/client/r0/rooms/"@ + room + "/send/m.room.message/"@ + spec_txn_id(
                secs,
                millis,
            ),
        ),
        body: Some(spec_message_json(message)),
        bearer: c.spec_access_token(),
        wait_ms: None,
    }
}

// ---------------------------------------------------------------------------
// Response deciders for the operations that do not touch the session
// ---------------------------------------------------------------------------

/// Decides a version-discovery response.
pub fn get_supported_versions_response(status: u16, body: &str) -> (r: Result<
    VersionResponse,
    MatrixClientError,
>)
    ensures
        res_view(r) == spec_response(status, body@, |v: JsonValue| spec_decode_versions(v)),
{
    if !(200 <= status && status < 300) {
        return Err(MatrixClientError::BadStatus(status, String::from_str(body)));
    }
    match parse_json(body) {
        Some(v) => match decode_versions(&v) {
            Some(x) => Ok(x),
            None => Err(MatrixClientError::Json),
        },
        None => Err(MatrixClientError::Json),
    }
}

/// Decides a public-rooms response.
pub fn list_public_rooms_response(status: u16, body: &str) -> (r: Result<
    PublicRoomsResponse,
    MatrixClientError,
>)
    ensures
        res_view(r) == spec_response(status, body@, |v: JsonValue| spec_decode_public_rooms(v)),
{
    if !(200 <= status && status < 300) {
        return Err(MatrixClientError::BadStatus(status, String::from_str(body)));
    }
    match parse_json(body) {
        Some(v) => match decode_public_rooms(&v) {
            Some(x) => Ok(x),
            None => Err(MatrixClientError::Json),
        },
        None => Err(MatrixClientError::Json),
    }
}

/// Decides a join response.
pub fn join_room_response(status: u16, body: &str) -> (r: Result<JoinResponse, MatrixClientError>)
    ensures
        res_view(r) == spec_response(status, body@, |v: JsonValue| spec_decode_join(v)),
{
    if !(200 <= status && status < 300) {
        return Err(MatrixClientError::BadStatus(status, String::from_str(body)));
    }
    match parse_json(body) {
        Some(v) => match decode_join(&v) {
            Some(x) => Ok(x),
            None => Err(MatrixClientError::Json),
        },
        None => Err(MatrixClientError::Json),
    }
}

/// Decides a sync response: a rejected status and a malformed body are the
/// errors, and neither touches any cursor; a well-formed body is the decoded
/// window.
pub fn sync_response(status: u16, body: &str) -> (r: Result<SyncResponse, MatrixClientError>)
    ensures
        res_view(r) == spec_response(status, body@, |v: JsonValue| spec_decode_sync(v)),
{
    if !(200 <= status && status < 300) {
        return Err(MatrixClientError::BadStatus(status, String::from_str(body)));
    }
    match parse_json(body) {
        Some(v) => match decode_sync(&v) {
            Some(x) => Ok(x),
            None => Err(MatrixClientError::Json),
        },
        None => Err(MatrixClientError::Json),
    }
}

/// Decides a send-message response.
pub fn send_room_message_response(status: u16, body: &str) -> (r: Result<
    SendEventResponse,
    MatrixClientError,
>)
    ensures
        res_view(r) == spec_response(status, body@, |v: JsonValue| spec_decode_send_event(v)),
{
    if !(200 <= status && status < 300) {
        return Err(MatrixClientError::BadStatus(status, String::from_str(body)));
    }
    match parse_json(body) {
        Some(v) => match decode_send_event(&v) {
            Some(x) => Ok(x),
            None => Err(MatrixClientError::Json),
        },
        None => Err(MatrixClientError::Json),
    }
}

} // verus!
