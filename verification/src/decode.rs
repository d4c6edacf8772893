//! The event decoder: from a [`JsonValue`] tree to the typed [`Event`]
//! taxonomy.
//!
//! Decoding is per-event: a malformed or unrecognized event degrades to
//! [`Event::Unknown`] in its own slot and never disturbs its siblings. Inside
//! one event, decoding is strict: a required field that is missing or of the
//! wrong type fails that event's decode. Every exec decoder is specified
//! exactly: its result's deep view equals a spec-level decode of the input
//! tree, with `None` standing for a failed decode.
//!
//! An optional field may be absent or `null`, both meaning "absent"; a
//! present field of the wrong type is malformed, never a default.

use vstd::prelude::*;

use crate::event::{
    AudioInfo, AudioInfoView, AudioMessageType, AudioMessageTypeView, EmoteMessageType,
    EmoteMessageTypeView, Event, EventContainer, EventContainerView, EventView, FileInfo,
    FileInfoView, FileMessageType, FileMessageTypeView, GuestAccess, GuestAccessEvent,
    ImageInfo, ImageInfoView, ImageMessageType, ImageMessageTypeView, LocationMessageType,
    LocationMessageTypeView, NoticeMessageType, NoticeMessageTypeView, PresenceEvent,
    PresenceEventView, Receipt, ReceiptEvent, ReceiptEventView, RedactedMessageContent,
    RoomAliasEvent, RoomAliasEventView, RoomAvatarEvent, RoomAvatarEventView,
    RoomCanonicalAliasEvent, RoomCanonicalAliasEventView, RoomCreateEvent, RoomCreateEventView,
    RoomHistoryVisibilityEvent, RoomHistoryVisibilityEventView, RoomJoinRulesEvent,
    RoomJoinRulesEventView, RoomMemberEvent, RoomMemberEventView, RoomMessageOptionType,
    RoomMessageOptionTypeView, RoomMessageTypes, RoomMessageTypesView, RoomNameEvent,
    RoomNameEventView, RoomPowerLevelsEvent, RoomPowerLevelsEventView, RoomRedactionEvent,
    RoomRedactionEventView, RoomTopicEvent, RoomTopicEventView, TextMessageType,
    TextMessageTypeView, TypingEvent, TypingEventView, Unsigned, UnsignedView, VideoInfo,
    VideoInfoView, VideoMessageType, VideoMessageTypeView,
};
use crate::json::{spec_field, JsonValue};
use crate::text::str_eq;

verus! {

// ---------------------------------------------------------------------------
// Field access: spec level
// ---------------------------------------------------------------------------

/// A required string field: its characters, or `None` when it is missing or
/// not a string.
pub open spec fn spec_req_str(v: JsonValue, key: Seq<char>) -> Option<Seq<char>> {
    match spec_field(v, key) {
        Some(JsonValue::Str(s)) => Some(s@),
        _ => None,
    }
}

/// An optional string field: outer `None` when present but not a string.
pub open spec fn spec_opt_str(v: JsonValue, key: Seq<char>) -> Option<Option<Seq<char>>> {
    match spec_field(v, key) {
        None => Some(None),
        Some(JsonValue::Null) => Some(None),
        Some(JsonValue::Str(s)) => Some(Some(s@)),
        Some(_) => None,
    }
}

/// A required signed 64-bit integer field.
pub open spec fn spec_req_i64(v: JsonValue, key: Seq<char>) -> Option<i64> {
    match spec_field(v, key) {
        Some(JsonValue::Int(i)) => Some(i),
        _ => None,
    }
}

/// An optional signed 64-bit integer field.
pub open spec fn spec_opt_i64(v: JsonValue, key: Seq<char>) -> Option<Option<i64>> {
    match spec_field(v, key) {
        None => Some(None),
        Some(JsonValue::Null) => Some(None),
        Some(JsonValue::Int(i)) => Some(Some(i)),
        Some(_) => None,
    }
}

/// A required boolean field.
pub open spec fn spec_req_bool(v: JsonValue, key: Seq<char>) -> Option<bool> {
    match spec_field(v, key) {
        Some(JsonValue::Bool(b)) => Some(b),
        _ => None,
    }
}

/// An optional boolean field.
pub open spec fn spec_opt_bool(v: JsonValue, key: Seq<char>) -> Option<Option<bool>> {
    match spec_field(v, key) {
        None => Some(None),
        Some(JsonValue::Null) => Some(None),
        Some(JsonValue::Bool(b)) => Some(Some(b)),
        Some(_) => None,
    }
}

/// The elements of an all-string array, or `None` if any element is not a
/// string.
pub open spec fn spec_str_elems(a: Seq<JsonValue>) -> Option<Seq<Seq<char>>> {
    if forall|i: int| 0 <= i < a.len() ==> a[i] is Str {
        Some(a.map_values(|e: JsonValue| e->Str_0@))
    } else {
        None
    }
}

/// A required array-of-strings field.
pub open spec fn spec_req_str_arr(v: JsonValue, key: Seq<char>) -> Option<Seq<Seq<char>>> {
    match spec_field(v, key) {
        Some(JsonValue::Arr(a)) => spec_str_elems(a@),
        _ => None,
    }
}

/// An optional array-of-strings field.
pub open spec fn spec_opt_str_arr(v: JsonValue, key: Seq<char>) -> Option<
    Option<Seq<Seq<char>>>,
> {
    match spec_field(v, key) {
        None => Some(None),
        Some(JsonValue::Null) => Some(None),
        Some(JsonValue::Arr(a)) => match spec_str_elems(a@) {
            Some(e) => Some(Some(e)),
            None => None,
        },
        Some(_) => None,
    }
}

/// The members of an all-integer object, or `None` if any value is not an
/// integer.
pub open spec fn spec_int_entries(m: Seq<(String, JsonValue)>) -> Option<
    Seq<(Seq<char>, i64)>,
> {
    if forall|i: int| 0 <= i < m.len() ==> m[i].1 is Int {
        Some(m.map_values(|p: (String, JsonValue)| (p.0@, p.1->Int_0)))
    } else {
        None
    }
}

/// A required object field whose member values are all integers.
pub open spec fn spec_req_int_map(v: JsonValue, key: Seq<char>) -> Option<Seq<(Seq<char>, i64)>> {
    match spec_field(v, key) {
        Some(JsonValue::Obj(m)) => spec_int_entries(m@),
        _ => None,
    }
}

// ---------------------------------------------------------------------------
// Field access: exec level
// ---------------------------------------------------------------------------

pub fn get_req_str(v: &JsonValue, key: &str) -> (r: Option<String>)
    ensures
        r.deep_view() == spec_req_str(*v, key@),
{
    match v.get(key) {
        Some(f) => match f.as_str() {
            Some(s) => Some(s.clone()),
            None => None,
        },
        None => None,
    }
}

pub fn get_opt_str(v: &JsonValue, key: &str) -> (r: Option<Option<String>>)
    ensures
        r.deep_view() == spec_opt_str(*v, key@),
{
    match v.get(key) {
        Some(f) => match f.as_str() {
            Some(s) => Some(Some(s.clone())),
            None => if f.is_null() {
                Some(None)
            } else {
                None
            },
        },
        None => Some(None),
    }
}

pub fn get_req_i64(v: &JsonValue, key: &str) -> (r: Option<i64>)
    ensures
        r.deep_view() == spec_req_i64(*v, key@),
{
    match v.get(key) {
        Some(f) => f.as_i64(),
        None => None,
    }
}

pub fn get_opt_i64(v: &JsonValue, key: &str) -> (r: Option<Option<i64>>)
    ensures
        r.deep_view() == spec_opt_i64(*v, key@),
{
    match v.get(key) {
        Some(f) => match f.as_i64() {
            Some(i) => Some(Some(i)),
            None => if f.is_null() {
                Some(None)
            } else {
                None
            },
        },
        None => Some(None),
    }
}

pub fn get_req_bool(v: &JsonValue, key: &str) -> (r: Option<bool>)
    ensures
        r.deep_view() == spec_req_bool(*v, key@),
{
    match v.get(key) {
        Some(f) => f.as_bool(),
        None => None,
    }
}

pub fn get_opt_bool(v: &JsonValue, key: &str) -> (r: Option<Option<bool>>)
    ensures
        r.deep_view() == spec_opt_bool(*v, key@),
{
    match v.get(key) {
        Some(f) => match f.as_bool() {
            Some(b) => Some(Some(b)),
            None => if f.is_null() {
                Some(None)
            } else {
                None
            },
        },
        None => Some(None),
    }
}

#[verifier::loop_isolation(false)]
pub fn get_req_str_arr(v: &JsonValue, key: &str) -> (r: Option<Vec<String>>)
    ensures
        r.deep_view() == spec_req_str_arr(*v, key@),
{
    let f = match v.get(key) {
        Some(f) => f,
        None => {
            return None;
        },
    };
    let a = match f.as_arr() {
        Some(a) => a,
        None => {
            return None;
        },
    };
    let n = a.len();
    let mut out: Vec<String> = Vec::new();
    let mut i: usize = 0;
    while i < n
        invariant
            i <= n,
            out@.len() == i,
            forall|j: int| 0 <= j < i ==> a@[j] is Str && out@[j]@ == a@[j]->Str_0@,
        decreases n - i,
    {
        match a[i].as_str() {
            Some(s) => out.push(s.clone()),
            None => {
                return None;
            },
        }
        i = i + 1;
    }
    proof {
        let elems = spec_str_elems(a@);
        assert(forall|j: int| 0 <= j < n ==> out.deep_view()[j] == out@[j]@);
        assert(elems matches Some(e) && out.deep_view() =~= e);
    }
    Some(out)
}

#[verifier::loop_isolation(false)]
pub fn get_opt_str_arr(v: &JsonValue, key: &str) -> (r: Option<Option<Vec<String>>>)
    ensures
        r.deep_view() == spec_opt_str_arr(*v, key@),
{
    let f = match v.get(key) {
        Some(f) => f,
        None => {
            return Some(None);
        },
    };
    if f.is_null() {
        return Some(None);
    }
    let a = match f.as_arr() {
        Some(a) => a,
        None => {
            return None;
        },
    };
    let n = a.len();
    let mut out: Vec<String> = Vec::new();
    let mut i: usize = 0;
    while i < n
        invariant
            i <= n,
            out@.len() == i,
            forall|j: int| 0 <= j < i ==> a@[j] is Str && out@[j]@ == a@[j]->Str_0@,
        decreases n - i,
    {
        match a[i].as_str() {
            Some(s) => out.push(s.clone()),
            None => {
                return None;
            },
        }
        i = i + 1;
    }
    proof {
        let elems = spec_str_elems(a@);
        assert(forall|j: int| 0 <= j < n ==> out.deep_view()[j] == out@[j]@);
        assert(elems matches Some(e) && out.deep_view() =~= e);
    }
    Some(Some(out))
}

#[verifier::loop_isolation(false)]
pub fn get_req_int_map(v: &JsonValue, key: &str) -> (r: Option<Vec<(String, i64)>>)
    ensures
        r.deep_view() == spec_req_int_map(*v, key@),
{
    let f = match v.get(key) {
        Some(f) => f,
        None => {
            return None;
        },
    };
    let m = match f.as_obj() {
        Some(m) => m,
        None => {
            return None;
        },
    };
    let n = m.len();
    let mut out: Vec<(String, i64)> = Vec::new();
    let mut i: usize = 0;
    while i < n
        invariant
            i <= n,
            out@.len() == i,
            forall|j: int| 0 <= j < i ==> (#[trigger] m@[j]).1 is Int,
            forall|j: int| 0 <= j < i ==> (#[trigger] out@[j]).0@ == m@[j].0@,
            forall|j: int| 0 <= j < i ==> (#[trigger] out@[j]).1 == m@[j].1->Int_0,
        decreases n - i,
    {
        let entry = &m[i];
        match entry.1.as_i64() {
            Some(x) => out.push((entry.0.clone(), x)),
            None => {
                return None;
            },
        }
        i = i + 1;
    }
    proof {
        let entries = spec_int_entries(m@);
        assert(forall|j: int|
            0 <= j < n ==> out.deep_view()[j] == (out@[j].0@, out@[j].1));
        assert(entries matches Some(e) && out.deep_view() =~= e);
    }
    Some(out)
}

// ---------------------------------------------------------------------------
// Nested info payloads
// ---------------------------------------------------------------------------

/// An image-info payload: an object of optional fields.
pub open spec fn spec_image_info(v: JsonValue) -> Option<ImageInfoView> {
    if !(v is Obj) {
        None
    } else {
        match (
            spec_opt_str(v, "mimetype"@),
            spec_opt_i64(v, "h"@),
            spec_opt_i64(v, "w"@),
            spec_opt_i64(v, "size"@),
        ) {
            (Some(mimetype), Some(h), Some(w), Some(size)) => Some(
                ImageInfoView { mimetype, h, w, size },
            ),
            _ => None,
        }
    }
}

/// An optional image-info field: absent or `null` means absent; anything
/// present must decode.
pub open spec fn spec_opt_image_info(v: JsonValue, key: Seq<char>) -> Option<
    Option<ImageInfoView>,
> {
    match spec_field(v, key) {
        None => Some(None),
        Some(JsonValue::Null) => Some(None),
        Some(f) => match spec_image_info(f) {
            Some(x) => Some(Some(x)),
            None => None,
        },
    }
}

pub fn decode_image_info(v: &JsonValue) -> (r: Option<ImageInfo>)
    ensures
        r.deep_view() == spec_image_info(*v),
{
    if v.as_obj().is_none() {
        return None;
    }
    let mimetype = match get_opt_str(v, "mimetype") {
        Some(x) => x,
        None => {
            return None;
        },
    };
    let h = match get_opt_i64(v, "h") {
        Some(x) => x,
        None => {
            return None;
        },
    };
    let w = match get_opt_i64(v, "w") {
        Some(x) => x,
        None => {
            return None;
        },
    };
    let size = match get_opt_i64(v, "size") {
        Some(x) => x,
        None => {
            return None;
        },
    };
    Some(ImageInfo { mimetype, h, w, size })
}

pub fn get_opt_image_info(v: &JsonValue, key: &str) -> (r: Option<Option<ImageInfo>>)
    ensures
        r.deep_view() == spec_opt_image_info(*v, key@),
{
    match v.get(key) {
        None => Some(None),
        Some(f) => {
            if f.is_null() {
                return Some(None);
            }
            match decode_image_info(f) {
                Some(x) => Some(Some(x)),
                None => None,
            }
        },
    }
}

/// An audio-info payload.
pub open spec fn spec_audio_info(v: JsonValue) -> Option<AudioInfoView> {
    if !(v is Obj) {
        None
    } else {
        match (
            spec_opt_str(v, "mimetype"@),
            spec_opt_i64(v, "duration"@),
            spec_opt_i64(v, "size"@),
        ) {
            (Some(mimetype), Some(duration), Some(size)) => Some(
                AudioInfoView { mimetype, duration, size },
            ),
            _ => None,
        }
    }
}

pub open spec fn spec_opt_audio_info(v: JsonValue, key: Seq<char>) -> Option<
    Option<AudioInfoView>,
> {
    match spec_field(v, key) {
        None => Some(None),
        Some(JsonValue::Null) => Some(None),
        Some(f) => match spec_audio_info(f) {
            Some(x) => Some(Some(x)),
            None => None,
        },
    }
}

pub fn decode_audio_info(v: &JsonValue) -> (r: Option<AudioInfo>)
    ensures
        r.deep_view() == spec_audio_info(*v),
{
    if v.as_obj().is_none() {
        return None;
    }
    let mimetype = match get_opt_str(v, "mimetype") {
        Some(x) => x,
        None => {
            return None;
        },
    };
    let duration = match get_opt_i64(v, "duration") {
        Some(x) => x,
        None => {
            return None;
        },
    };
    let size = match get_opt_i64(v, "size") {
        Some(x) => x,
        None => {
            return None;
        },
    };
    Some(AudioInfo { mimetype, duration, size })
}

pub fn get_opt_audio_info(v: &JsonValue, key: &str) -> (r: Option<Option<AudioInfo>>)
    ensures
        r.deep_view() == spec_opt_audio_info(*v, key@),
{
    match v.get(key) {
        None => Some(None),
        Some(f) => {
            if f.is_null() {
                return Some(None);
            }
            match decode_audio_info(f) {
                Some(x) => Some(Some(x)),
                None => None,
            }
        },
    }
}

/// A video-info payload.
pub open spec fn spec_video_info(v: JsonValue) -> Option<VideoInfoView> {
    if !(v is Obj) {
        None
    } else {
        match (
            spec_opt_str(v, "mimetype"@),
            spec_opt_image_info(v, "thumbnail_info"@),
            spec_opt_i64(v, "h"@),
            spec_opt_str(v, "thumbnail_url"@),
            spec_opt_i64(v, "w"@),
            spec_opt_i64(v, "duration"@),
            spec_opt_i64(v, "size"@),
        ) {
            (
                Some(mimetype),
                Some(thumbnail_info),
                Some(h),
                Some(thumbnail_url),
                Some(w),
                Some(duration),
                Some(size),
            ) => Some(
                VideoInfoView { mimetype, thumbnail_info, h, thumbnail_url, w, duration, size },
            ),
            _ => None,
        }
    }
}

pub open spec fn spec_opt_video_info(v: JsonValue, key: Seq<char>) -> Option<
    Option<VideoInfoView>,
> {
    match spec_field(v, key) {
        None => Some(None),
        Some(JsonValue::Null) => Some(None),
        Some(f) => match spec_video_info(f) {
            Some(x) => Some(Some(x)),
            None => None,
        },
    }
}

pub fn decode_video_info(v: &JsonValue) -> (r: Option<VideoInfo>)
    ensures
        r.deep_view() == spec_video_info(*v),
{
    if v.as_obj().is_none() {
        return None;
    }
    let mimetype = match get_opt_str(v, "mimetype") {
        Some(x) => x,
        None => {
            return None;
        },
    };
    let thumbnail_info = match get_opt_image_info(v, "thumbnail_info") {
        Some(x) => x,
        None => {
            return None;
        },
    };
    let h = match get_opt_i64(v, "h") {
        Some(x) => x,
        None => {
            return None;
        },
    };
    let thumbnail_url = match get_opt_str(v, "thumbnail_url") {
        Some(x) => x,
        None => {
            return None;
        },
    };
    let w = match get_opt_i64(v, "w") {
        Some(x) => x,
        None => {
            return None;
        },
    };
    let duration = match get_opt_i64(v, "duration") {
        Some(x) => x,
        None => {
            return None;
        },
    };
    let size = match get_opt_i64(v, "size") {
        Some(x) => x,
        None => {
            return None;
        },
    };
    Some(VideoInfo { mimetype, thumbnail_info, h, thumbnail_url, w, duration, size })
}

pub fn get_opt_video_info(v: &JsonValue, key: &str) -> (r: Option<Option<VideoInfo>>)
    ensures
        r.deep_view() == spec_opt_video_info(*v, key@),
{
    match v.get(key) {
        None => Some(None),
        Some(f) => {
            if f.is_null() {
                return Some(None);
            }
            match decode_video_info(f) {
                Some(x) => Some(Some(x)),
                None => None,
            }
        },
    }
}

/// A file-info payload.
pub open spec fn spec_file_info(v: JsonValue) -> Option<FileInfoView> {
    if !(v is Obj) {
        None
    } else {
        match (spec_opt_str(v, "mimetype"@), spec_opt_i64(v, "size"@)) {
            (Some(mimetype), Some(size)) => Some(FileInfoView { mimetype, size }),
            _ => None,
        }
    }
}

pub open spec fn spec_opt_file_info(v: JsonValue, key: Seq<char>) -> Option<Option<FileInfoView>> {
    match spec_field(v, key) {
        None => Some(None),
        Some(JsonValue::Null) => Some(None),
        Some(f) => match spec_file_info(f) {
            Some(x) => Some(Some(x)),
            None => None,
        },
    }
}

pub fn decode_file_info(v: &JsonValue) -> (r: Option<FileInfo>)
    ensures
        r.deep_view() == spec_file_info(*v),
{
    if v.as_obj().is_none() {
        return None;
    }
    let mimetype = match get_opt_str(v, "mimetype") {
        Some(x) => x,
        None => {
            return None;
        },
    };
    let size = match get_opt_i64(v, "size") {
        Some(x) => x,
        None => {
            return None;
        },
    };
    Some(FileInfo { mimetype, size })
}

pub fn get_opt_file_info(v: &JsonValue, key: &str) -> (r: Option<Option<FileInfo>>)
    ensures
        r.deep_view() == spec_opt_file_info(*v, key@),
{
    match v.get(key) {
        None => Some(None),
        Some(f) => {
            if f.is_null() {
                return Some(None);
            }
            match decode_file_info(f) {
                Some(x) => Some(Some(x)),
                None => None,
            }
        },
    }
}

// ---------------------------------------------------------------------------
// Unsigned metadata and the common envelope fields
// ---------------------------------------------------------------------------

/// The content of a redacting event: only an optional reason.
pub open spec fn spec_redaction_content(c: JsonValue) -> Option<RoomRedactionEventView> {
    if !(c is Obj) {
        None
    } else {
        match spec_opt_str(c, "reason"@) {
            Some(reason) => Some(RoomRedactionEventView { reason }),
            None => None,
        }
    }
}

pub fn decode_redaction_content(c: &JsonValue) -> (r: Option<RoomRedactionEvent>)
    ensures
        r.deep_view() == spec_redaction_content(*c),
{
    if c.as_obj().is_none() {
        return None;
    }
    match get_opt_str(c, "reason") {
        Some(reason) => Some(RoomRedactionEvent { reason }),
        None => None,
    }
}

/// A whole redacting event, of which only the content's reason is kept: the
/// back-reference to it is the surrounding `redacted_by` id.
pub open spec fn spec_redaction_because(v: JsonValue) -> Option<RoomRedactionEventView> {
    if !(v is Obj) {
        None
    } else {
        match spec_field(v, "content"@) {
            Some(c) => spec_redaction_content(c),
            None => None,
        }
    }
}

pub open spec fn spec_opt_redaction_because(v: JsonValue, key: Seq<char>) -> Option<
    Option<RoomRedactionEventView>,
> {
    match spec_field(v, key) {
        None => Some(None),
        Some(JsonValue::Null) => Some(None),
        Some(f) => match spec_redaction_because(f) {
            Some(x) => Some(Some(x)),
            None => None,
        },
    }
}

pub fn decode_redaction_because(v: &JsonValue) -> (r: Option<RoomRedactionEvent>)
    ensures
        r.deep_view() == spec_redaction_because(*v),
{
    if v.as_obj().is_none() {
        return None;
    }
    match v.get("content") {
        Some(c) => decode_redaction_content(c),
        None => None,
    }
}

pub fn get_opt_redaction_because(v: &JsonValue, key: &str) -> (r: Option<
    Option<RoomRedactionEvent>,
>)
    ensures
        r.deep_view() == spec_opt_redaction_because(*v, key@),
{
    match v.get(key) {
        None => Some(None),
        Some(f) => {
            if f.is_null() {
                return Some(None);
            }
            match decode_redaction_because(f) {
                Some(x) => Some(Some(x)),
                None => None,
            }
        },
    }
}

/// The unsigned metadata block: the age is required, the rest optional.
pub open spec fn spec_decode_unsigned(v: JsonValue) -> Option<UnsignedView> {
    if !(v is Obj) {
        None
    } else {
        match (
            spec_req_i64(v, "age"@),
            spec_opt_str(v, "transaction_id"@),
            spec_opt_str(v, "redacted_by"@),
            spec_opt_redaction_because(v, "redacted_because"@),
        ) {
            (Some(age), Some(transaction_id), Some(redacted_by), Some(redacted_because)) => Some(
                UnsignedView { age, transaction_id, redacted_by, redacted_because },
            ),
            _ => None,
        }
    }
}

pub fn decode_unsigned(v: &JsonValue) -> (r: Option<Unsigned>)
    ensures
        r.deep_view() == spec_decode_unsigned(*v),
{
    if v.as_obj().is_none() {
        return None;
    }
    let age = match get_req_i64(v, "age") {
        Some(x) => x,
        None => {
            return None;
        },
    };
    let transaction_id = match get_opt_str(v, "transaction_id") {
        Some(x) => x,
        None => {
            return None;
        },
    };
    let redacted_by = match get_opt_str(v, "redacted_by") {
        Some(x) => x,
        None => {
            return None;
        },
    };
    let redacted_because = match get_opt_redaction_because(v, "redacted_because") {
        Some(x) => x,
        None => {
            return None;
        },
    };
    Some(Unsigned { age, transaction_id, redacted_by, redacted_because })
}

pub open spec fn spec_opt_unsigned(v: JsonValue) -> Option<Option<UnsignedView>> {
    match spec_field(v, "unsigned"@) {
        None => Some(None),
        Some(JsonValue::Null) => Some(None),
        Some(u) => match spec_decode_unsigned(u) {
            Some(x) => Some(Some(x)),
            None => None,
        },
    }
}

pub fn get_opt_unsigned(v: &JsonValue) -> (r: Option<Option<Unsigned>>)
    ensures
        r.deep_view() == spec_opt_unsigned(*v),
{
    match v.get("unsigned") {
        None => Some(None),
        Some(u) => {
            if u.is_null() {
                return Some(None);
            }
            match decode_unsigned(u) {
                Some(x) => Some(Some(x)),
                None => None,
            }
        },
    }
}

/// The envelope fields shared by every known event kind.
#[derive(Debug, PartialEq)]
pub struct EnvelopeParts {
    pub origin_server_ts: Option<i64>,
    pub sender: Option<String>,
    pub unsigned: Option<Unsigned>,
    pub state_key: Option<String>,
}

#[verifier::ext_equal]
pub struct EnvelopePartsView {
    pub origin_server_ts: Option<i64>,
    pub sender: Option<Seq<char>>,
    pub unsigned: Option<UnsignedView>,
    pub state_key: Option<Seq<char>>,
}

impl DeepView for EnvelopeParts {
    type V = EnvelopePartsView;

    open spec fn deep_view(&self) -> EnvelopePartsView {
        EnvelopePartsView {
            origin_server_ts: self.origin_server_ts.deep_view(),
            sender: self.sender.deep_view(),
            unsigned: self.unsigned.deep_view(),
            state_key: self.state_key.deep_view(),
        }
    }
}

pub open spec fn spec_envelope_parts(v: JsonValue) -> Option<EnvelopePartsView> {
    match (
        spec_opt_i64(v, "origin_server_ts"@),
        spec_opt_str(v, "sender"@),
        spec_opt_unsigned(v),
        spec_opt_str(v, "state_key"@),
    ) {
        (Some(origin_server_ts), Some(sender), Some(unsigned), Some(state_key)) => Some(
            EnvelopePartsView { origin_server_ts, sender, unsigned, state_key },
        ),
        _ => None,
    }
}

pub fn decode_envelope_parts(v: &JsonValue) -> (r: Option<EnvelopeParts>)
    ensures
        r.deep_view() == spec_envelope_parts(*v),
{
    let origin_server_ts = match get_opt_i64(v, "origin_server_ts") {
        Some(x) => x,
        None => {
            return None;
        },
    };
    let sender = match get_opt_str(v, "sender") {
        Some(x) => x,
        None => {
            return None;
        },
    };
    let unsigned = match get_opt_unsigned(v) {
        Some(x) => x,
        None => {
            return None;
        },
    };
    let state_key = match get_opt_str(v, "state_key") {
        Some(x) => x,
        None => {
            return None;
        },
    };
    Some(EnvelopeParts { origin_server_ts, sender, unsigned, state_key })
}

// ---------------------------------------------------------------------------
// Content payloads of the state-event kinds
// ---------------------------------------------------------------------------

pub open spec fn spec_typing_content(c: JsonValue) -> Option<TypingEventView> {
    match spec_req_str_arr(c, "user_ids"@) {
        Some(user_ids) => Some(TypingEventView { user_ids }),
        None => None,
    }
}

pub fn decode_typing_content(c: &JsonValue) -> (r: Option<TypingEvent>)
    ensures
        r.deep_view() == spec_typing_content(*c),
{
    match get_req_str_arr(c, "user_ids") {
        Some(user_ids) => Some(TypingEvent { user_ids }),
        None => None,
    }
}

pub open spec fn spec_power_levels_content(c: JsonValue) -> Option<RoomPowerLevelsEventView> {
    match (
        spec_opt_i64(c, "events_default"@),
        spec_opt_i64(c, "invite"@),
        spec_opt_i64(c, "state_default"@),
        spec_opt_i64(c, "redact"@),
        spec_opt_i64(c, "ban"@),
        spec_opt_i64(c, "users_default"@),
        spec_req_int_map(c, "events"@),
        spec_opt_i64(c, "kick"@),
        spec_req_int_map(c, "users"@),
    ) {
        (
            Some(events_default),
            Some(invite),
            Some(state_default),
            Some(redact),
            Some(ban),
            Some(users_default),
            Some(events),
            Some(kick),
            Some(users),
        ) => Some(
            RoomPowerLevelsEventView {
                events_default,
                invite,
                state_default,
                redact,
                ban,
                users_default,
                events,
                kick,
                users,
            },
        ),
        _ => None,
    }
}

pub fn decode_power_levels_content(c: &JsonValue) -> (r: Option<RoomPowerLevelsEvent>)
    ensures
        r.deep_view() == spec_power_levels_content(*c),
{
    let events_default = match get_opt_i64(c, "events_default") {
        Some(x) => x,
        None => {
            return None;
        },
    };
    let invite = match get_opt_i64(c, "invite") {
        Some(x) => x,
        None => {
            return None;
        },
    };
    let state_default = match get_opt_i64(c, "state_default") {
        Some(x) => x,
        None => {
            return None;
        },
    };
    let redact = match get_opt_i64(c, "redact") {
        Some(x) => x,
        None => {
            return None;
        },
    };
    let ban = match get_opt_i64(c, "ban") {
        Some(x) => x,
        None => {
            return None;
        },
    };
    let users_default = match get_opt_i64(c, "users_default") {
        Some(x) => x,
        None => {
            return None;
        },
    };
    let events = match get_req_int_map(c, "events") {
        Some(x) => x,
        None => {
            return None;
        },
    };
    let kick = match get_opt_i64(c, "kick") {
        Some(x) => x,
        None => {
            return None;
        },
    };
    let users = match get_req_int_map(c, "users") {
        Some(x) => x,
        None => {
            return None;
        },
    };
    Some(
        RoomPowerLevelsEvent {
            events_default,
            invite,
            state_default,
            redact,
            ban,
            users_default,
            events,
            kick,
            users,
        },
    )
}

pub open spec fn spec_history_visibility_content(c: JsonValue) -> Option<
    RoomHistoryVisibilityEventView,
> {
    match spec_req_str(c, "history_visibility"@) {
        Some(history_visibility) => Some(RoomHistoryVisibilityEventView { history_visibility }),
        None => None,
    }
}

pub fn decode_history_visibility_content(c: &JsonValue) -> (r: Option<RoomHistoryVisibilityEvent>)
    ensures
        r.deep_view() == spec_history_visibility_content(*c),
{
    match get_req_str(c, "history_visibility") {
        Some(history_visibility) => Some(RoomHistoryVisibilityEvent { history_visibility }),
        None => None,
    }
}

pub open spec fn spec_topic_content(c: JsonValue) -> Option<RoomTopicEventView> {
    match spec_req_str(c, "topic"@) {
        Some(topic) => Some(RoomTopicEventView { topic }),
        None => None,
    }
}

pub fn decode_topic_content(c: &JsonValue) -> (r: Option<RoomTopicEvent>)
    ensures
        r.deep_view() == spec_topic_content(*c),
{
    match get_req_str(c, "topic") {
        Some(topic) => Some(RoomTopicEvent { topic }),
        None => None,
    }
}

// ---------------------------------------------------------------------------
// Receipts: two levels of keyed maps
// ---------------------------------------------------------------------------

pub open spec fn spec_receipt(v: JsonValue) -> Option<Receipt> {
    if !(v is Obj) {
        None
    } else {
        match spec_req_i64(v, "ts"@) {
            Some(ts) => Some(Receipt { ts }),
            None => None,
        }
    }
}

pub fn decode_receipt(v: &JsonValue) -> (r: Option<Receipt>)
    ensures
        r.deep_view() == spec_receipt(*v),
{
    if v.as_obj().is_none() {
        return None;
    }
    match get_req_i64(v, "ts") {
        Some(ts) => Some(Receipt { ts }),
        None => None,
    }
}

pub open spec fn spec_read_entries(m: Seq<(String, JsonValue)>) -> Option<
    Seq<(Seq<char>, Receipt)>,
> {
    if forall|i: int| 0 <= i < m.len() ==> spec_receipt((#[trigger] m[i]).1) is Some {
        Some(m.map_values(|p: (String, JsonValue)| (p.0@, spec_receipt(p.1)->Some_0)))
    } else {
        None
    }
}

/// The `m.read` block of one receipt entry: user id to receipt.
pub open spec fn spec_receipt_event(v: JsonValue) -> Option<ReceiptEventView> {
    match spec_field(v, "m.read"@) {
        Some(JsonValue::Obj(m)) => match spec_read_entries(m@) {
            Some(read) => Some(ReceiptEventView { read }),
            None => None,
        },
        _ => None,
    }
}

#[verifier::loop_isolation(false)]
pub fn decode_receipt_event(v: &JsonValue) -> (r: Option<ReceiptEvent>)
    ensures
        r.deep_view() == spec_receipt_event(*v),
{
    let f = match v.get("m.read") {
        Some(f) => f,
        None => {
            return None;
        },
    };
    let m = match f.as_obj() {
        Some(m) => m,
        None => {
            return None;
        },
    };
    let n = m.len();
    let mut out: Vec<(String, Receipt)> = Vec::new();
    let mut i: usize = 0;
    while i < n
        invariant
            i <= n,
            out@.len() == i,
            forall|j: int| 0 <= j < i ==> spec_receipt((#[trigger] m@[j]).1) is Some,
            forall|j: int| 0 <= j < i ==> (#[trigger] out@[j]).0@ == m@[j].0@,
            forall|j: int| 0 <= j < i ==> (#[trigger] out@[j]).1 == spec_receipt(m@[j].1)->Some_0,
        decreases n - i,
    {
        let entry = &m[i];
        match decode_receipt(&entry.1) {
            Some(x) => out.push((entry.0.clone(), x)),
            None => {
                return None;
            },
        }
        i = i + 1;
    }
    proof {
        let entries = spec_read_entries(m@);
        assert(forall|j: int|
            0 <= j < n ==> out.deep_view()[j] == ((#[trigger] out@[j]).0@, out@[j].1));
        assert(entries matches Some(e) && out.deep_view() =~= e);
    }
    Some(ReceiptEvent { read: out })
}

pub open spec fn spec_receipt_entries(m: Seq<(String, JsonValue)>) -> Option<
    Seq<(Seq<char>, ReceiptEventView)>,
> {
    if forall|i: int| 0 <= i < m.len() ==> spec_receipt_event((#[trigger] m[i]).1) is Some {
        Some(m.map_values(|p: (String, JsonValue)| (p.0@, spec_receipt_event(p.1)->Some_0)))
    } else {
        None
    }
}

/// A receipt event's content: event id to its `m.read` block.
pub open spec fn spec_receipt_content(c: JsonValue) -> Option<Seq<(Seq<char>, ReceiptEventView)>> {
    match c {
        JsonValue::Obj(m) => spec_receipt_entries(m@),
        _ => None,
    }
}

#[verifier::loop_isolation(false)]
pub fn decode_receipt_content(c: &JsonValue) -> (r: Option<Vec<(String, ReceiptEvent)>>)
    ensures
        r.deep_view() == spec_receipt_content(*c),
{
    let m = match c.as_obj() {
        Some(m) => m,
        None => {
            return None;
        },
    };
    let n = m.len();
    let mut out: Vec<(String, ReceiptEvent)> = Vec::new();
    let mut i: usize = 0;
    while i < n
        invariant
            i <= n,
            out@.len() == i,
            forall|j: int| 0 <= j < i ==> spec_receipt_event((#[trigger] m@[j]).1) is Some,
            forall|j: int| 0 <= j < i ==> (#[trigger] out@[j]).0@ == m@[j].0@,
            forall|j: int|
                0 <= j < i ==> (#[trigger] out@[j]).1.deep_view() == spec_receipt_event(
                    m@[j].1,
                )->Some_0,
        decreases n - i,
    {
        let entry = &m[i];
        match decode_receipt_event(&entry.1) {
            Some(x) => out.push((entry.0.clone(), x)),
            None => {
                return None;
            },
        }
        i = i + 1;
    }
    proof {
        let entries = spec_receipt_entries(m@);
        assert(forall|j: int|
            0 <= j < n ==> out.deep_view()[j] == ((#[trigger] out@[j]).0@, out@[j].1.deep_view()));
        assert(entries matches Some(e) && out.deep_view() =~= e);
    }
    Some(out)
}

// ---------------------------------------------------------------------------
// Remaining state-event content payloads
// ---------------------------------------------------------------------------

pub open spec fn spec_presence_content(c: JsonValue) -> Option<PresenceEventView> {
    match (
        spec_opt_str(c, "user_id"@),
        spec_req_str(c, "presence"@),
        spec_opt_str(c, "avatar_url"@),
        spec_opt_i64(c, "last_active_ago"@),
        spec_opt_bool(c, "currently_active"@),
        spec_opt_str(c, "displayname"@),
    ) {
        (
            Some(user_id),
            Some(presence),
            Some(avatar_url),
            Some(last_active_ago),
            Some(currently_active),
            Some(displayname),
        ) => Some(
            PresenceEventView {
                user_id,
                presence,
                avatar_url,
                last_active_ago,
                currently_active,
                displayname,
            },
        ),
        _ => None,
    }
}

pub fn decode_presence_content(c: &JsonValue) -> (r: Option<PresenceEvent>)
    ensures
        r.deep_view() == spec_presence_content(*c),
{
    let user_id = match get_opt_str(c, "user_id") {
        Some(x) => x,
        None => {
            return None;
        },
    };
    let presence = match get_req_str(c, "presence") {
        Some(x) => x,
        None => {
            return None;
        },
    };
    let avatar_url = match get_opt_str(c, "avatar_url") {
        Some(x) => x,
        None => {
            return None;
        },
    };
    let last_active_ago = match get_opt_i64(c, "last_active_ago") {
        Some(x) => x,
        None => {
            return None;
        },
    };
    let currently_active = match get_opt_bool(c, "currently_active") {
        Some(x) => x,
        None => {
            return None;
        },
    };
    let displayname = match get_opt_str(c, "displayname") {
        Some(x) => x,
        None => {
            return None;
        },
    };
    Some(
        PresenceEvent {
            user_id,
            presence,
            avatar_url,
            last_active_ago,
            currently_active,
            displayname,
        },
    )
}

pub open spec fn spec_member_content(c: JsonValue) -> Option<RoomMemberEventView> {
    match (
        spec_req_str(c, "membership"@),
        spec_opt_str(c, "avatar_url"@),
        spec_opt_str(c, "displayname"@),
    ) {
        (Some(membership), Some(avatar_url), Some(displayname)) => Some(
            RoomMemberEventView { membership, avatar_url, displayname },
        ),
        _ => None,
    }
}

pub fn decode_member_content(c: &JsonValue) -> (r: Option<RoomMemberEvent>)
    ensures
        r.deep_view() == spec_member_content(*c),
{
    let membership = match get_req_str(c, "membership") {
        Some(x) => x,
        None => {
            return None;
        },
    };
    let avatar_url = match get_opt_str(c, "avatar_url") {
        Some(x) => x,
        None => {
            return None;
        },
    };
    let displayname = match get_opt_str(c, "displayname") {
        Some(x) => x,
        None => {
            return None;
        },
    };
    Some(RoomMemberEvent { membership, avatar_url, displayname })
}

pub open spec fn spec_alias_content(c: JsonValue) -> Option<RoomAliasEventView> {
    match spec_req_str_arr(c, "aliases"@) {
        Some(aliases) => Some(RoomAliasEventView { aliases }),
        None => None,
    }
}

pub fn decode_alias_content(c: &JsonValue) -> (r: Option<RoomAliasEvent>)
    ensures
        r.deep_view() == spec_alias_content(*c),
{
    match get_req_str_arr(c, "aliases") {
        Some(aliases) => Some(RoomAliasEvent { aliases }),
        None => None,
    }
}

pub open spec fn spec_canonical_alias_content(c: JsonValue) -> Option<
    RoomCanonicalAliasEventView,
> {
    match spec_req_str(c, "alias"@) {
        Some(alias) => Some(RoomCanonicalAliasEventView { alias }),
        None => None,
    }
}

pub fn decode_canonical_alias_content(c: &JsonValue) -> (r: Option<RoomCanonicalAliasEvent>)
    ensures
        r.deep_view() == spec_canonical_alias_content(*c),
{
    match get_req_str(c, "alias") {
        Some(alias) => Some(RoomCanonicalAliasEvent { alias }),
        None => None,
    }
}

pub open spec fn spec_create_content(c: JsonValue) -> Option<RoomCreateEventView> {
    match (spec_req_str(c, "creator"@), spec_opt_bool(c, "m.federate"@)) {
        (Some(creator), Some(federate)) => Some(RoomCreateEventView { creator, federate }),
        _ => None,
    }
}

pub fn decode_create_content(c: &JsonValue) -> (r: Option<RoomCreateEvent>)
    ensures
        r.deep_view() == spec_create_content(*c),
{
    let creator = match get_req_str(c, "creator") {
        Some(x) => x,
        None => {
            return None;
        },
    };
    let federate = match get_opt_bool(c, "m.federate") {
        Some(x) => x,
        None => {
            return None;
        },
    };
    Some(RoomCreateEvent { creator, federate })
}

pub open spec fn spec_avatar_content(c: JsonValue) -> Option<RoomAvatarEventView> {
    match (
        spec_req_str(c, "url"@),
        spec_opt_image_info(c, "info"@),
        spec_opt_str(c, "thumbnail_url"@),
        spec_opt_image_info(c, "thumbnail_info"@),
    ) {
        (Some(url), Some(info), Some(thumbnail_url), Some(thumbnail_info)) => Some(
            RoomAvatarEventView { url, info, thumbnail_url, thumbnail_info },
        ),
        _ => None,
    }
}

pub fn decode_avatar_content(c: &JsonValue) -> (r: Option<RoomAvatarEvent>)
    ensures
        r.deep_view() == spec_avatar_content(*c),
{
    let url = match get_req_str(c, "url") {
        Some(x) => x,
        None => {
            return None;
        },
    };
    let info = match get_opt_image_info(c, "info") {
        Some(x) => x,
        None => {
            return None;
        },
    };
    let thumbnail_url = match get_opt_str(c, "thumbnail_url") {
        Some(x) => x,
        None => {
            return None;
        },
    };
    let thumbnail_info = match get_opt_image_info(c, "thumbnail_info") {
        Some(x) => x,
        None => {
            return None;
        },
    };
    Some(RoomAvatarEvent { url, info, thumbnail_url, thumbnail_info })
}

pub open spec fn spec_join_rules_content(c: JsonValue) -> Option<RoomJoinRulesEventView> {
    match spec_req_str(c, "join_rule"@) {
        Some(join_rule) => Some(RoomJoinRulesEventView { join_rule }),
        None => None,
    }
}

pub fn decode_join_rules_content(c: &JsonValue) -> (r: Option<RoomJoinRulesEvent>)
    ensures
        r.deep_view() == spec_join_rules_content(*c),
{
    match get_req_str(c, "join_rule") {
        Some(join_rule) => Some(RoomJoinRulesEvent { join_rule }),
        None => None,
    }
}

pub open spec fn spec_name_content(c: JsonValue) -> Option<RoomNameEventView> {
    match spec_req_str(c, "name"@) {
        Some(name) => Some(RoomNameEventView { name }),
        None => None,
    }
}

pub fn decode_name_content(c: &JsonValue) -> (r: Option<RoomNameEvent>)
    ensures
        r.deep_view() == spec_name_content(*c),
{
    match get_req_str(c, "name") {
        Some(name) => Some(RoomNameEvent { name }),
        None => None,
    }
}

/// The guest-access value: one of the two protocol strings, or the variant
/// name of the catch-all itself; anything else fails the content decode.
pub open spec fn spec_guest_access_content(c: JsonValue) -> Option<GuestAccessEvent> {
    match spec_req_str(c, "guest_access"@) {
        Some(g) => if g == "can_join"@ {
            Some(GuestAccessEvent { guest_access: GuestAccess::CanJoin })
        } else if g == "forbidden"@ {
            Some(GuestAccessEvent { guest_access: GuestAccess::Forbidden })
        } else if g == "Unknown"@ {
            Some(GuestAccessEvent { guest_access: GuestAccess::Unknown })
        } else {
            None
        },
        None => None,
    }
}

pub fn decode_guest_access_content(c: &JsonValue) -> (r: Option<GuestAccessEvent>)
    ensures
        r.deep_view() == spec_guest_access_content(*c),
{
    let g = match get_req_str(c, "guest_access") {
        Some(x) => x,
        None => {
            return None;
        },
    };
    if str_eq(g.as_str(), "can_join") {
        Some(GuestAccessEvent { guest_access: GuestAccess::CanJoin })
    } else if str_eq(g.as_str(), "forbidden") {
        Some(GuestAccessEvent { guest_access: GuestAccess::Forbidden })
    } else if str_eq(g.as_str(), "Unknown") {
        Some(GuestAccessEvent { guest_access: GuestAccess::Unknown })
    } else {
        None
    }
}

// ---------------------------------------------------------------------------
// Room-message content: the nested tagged union, with the redacted fallback
// ---------------------------------------------------------------------------

pub open spec fn spec_text_message(c: JsonValue) -> Option<TextMessageTypeView> {
    match spec_req_str(c, "body"@) {
        Some(body) => Some(TextMessageTypeView { body }),
        None => None,
    }
}

pub fn decode_text_message(c: &JsonValue) -> (r: Option<TextMessageType>)
    ensures
        r.deep_view() == spec_text_message(*c),
{
    match get_req_str(c, "body") {
        Some(body) => Some(TextMessageType { body }),
        None => None,
    }
}

pub open spec fn spec_emote_message(c: JsonValue) -> Option<EmoteMessageTypeView> {
    match spec_req_str(c, "body"@) {
        Some(body) => Some(EmoteMessageTypeView { body }),
        None => None,
    }
}

pub fn decode_emote_message(c: &JsonValue) -> (r: Option<EmoteMessageType>)
    ensures
        r.deep_view() == spec_emote_message(*c),
{
    match get_req_str(c, "body") {
        Some(body) => Some(EmoteMessageType { body }),
        None => None,
    }
}

pub open spec fn spec_notice_message(c: JsonValue) -> Option<NoticeMessageTypeView> {
    match spec_req_str(c, "body"@) {
        Some(body) => Some(NoticeMessageTypeView { body }),
        None => None,
    }
}

pub fn decode_notice_message(c: &JsonValue) -> (r: Option<NoticeMessageType>)
    ensures
        r.deep_view() == spec_notice_message(*c),
{
    match get_req_str(c, "body") {
        Some(body) => Some(NoticeMessageType { body }),
        None => None,
    }
}

pub open spec fn spec_audio_message(c: JsonValue) -> Option<AudioMessageTypeView> {
    match (
        spec_req_str(c, "body"@),
        spec_opt_audio_info(c, "info"@),
        spec_req_str(c, "url"@),
    ) {
        (Some(body), Some(info), Some(url)) => Some(AudioMessageTypeView { body, info, url }),
        _ => None,
    }
}

pub fn decode_audio_message(c: &JsonValue) -> (r: Option<AudioMessageType>)
    ensures
        r.deep_view() == spec_audio_message(*c),
{
    let body = match get_req_str(c, "body") {
        Some(x) => x,
        None => {
            return None;
        },
    };
    let info = match get_opt_audio_info(c, "info") {
        Some(x) => x,
        None => {
            return None;
        },
    };
    let url = match get_req_str(c, "url") {
        Some(x) => x,
        None => {
            return None;
        },
    };
    Some(AudioMessageType { body, info, url })
}

pub open spec fn spec_video_message(c: JsonValue) -> Option<VideoMessageTypeView> {
    match (
        spec_req_str(c, "body"@),
        spec_opt_video_info(c, "info"@),
        spec_req_str(c, "url"@),
    ) {
        (Some(body), Some(info), Some(url)) => Some(VideoMessageTypeView { body, info, url }),
        _ => None,
    }
}

pub fn decode_video_message(c: &JsonValue) -> (r: Option<VideoMessageType>)
    ensures
        r.deep_view() == spec_video_message(*c),
{
    let body = match get_req_str(c, "body") {
        Some(x) => x,
        None => {
            return None;
        },
    };
    let info = match get_opt_video_info(c, "info") {
        Some(x) => x,
        None => {
            return None;
        },
    };
    let url = match get_req_str(c, "url") {
        Some(x) => x,
        None => {
            return None;
        },
    };
    Some(VideoMessageType { body, info, url })
}

pub open spec fn spec_location_message(c: JsonValue) -> Option<LocationMessageTypeView> {
    match (
        spec_req_str(c, "body"@),
        spec_opt_image_info(c, "thumbnail_info"@),
        spec_req_str(c, "geo_uri"@),
        spec_opt_str(c, "thumbnail_url"@),
    ) {
        (Some(body), Some(thumbnail_info), Some(geo_uri), Some(thumbnail_url)) => Some(
            LocationMessageTypeView { body, thumbnail_info, geo_uri, thumbnail_url },
        ),
        _ => None,
    }
}

pub fn decode_location_message(c: &JsonValue) -> (r: Option<LocationMessageType>)
    ensures
        r.deep_view() == spec_location_message(*c),
{
    let body = match get_req_str(c, "body") {
        Some(x) => x,
        None => {
            return None;
        },
    };
    let thumbnail_info = match get_opt_image_info(c, "thumbnail_info") {
        Some(x) => x,
        None => {
            return None;
        },
    };
    let geo_uri = match get_req_str(c, "geo_uri") {
        Some(x) => x,
        None => {
            return None;
        },
    };
    let thumbnail_url = match get_opt_str(c, "thumbnail_url") {
        Some(x) => x,
        None => {
            return None;
        },
    };
    Some(LocationMessageType { body, thumbnail_info, geo_uri, thumbnail_url })
}

pub open spec fn spec_file_message(c: JsonValue) -> Option<FileMessageTypeView> {
    match (
        spec_req_str(c, "body"@),
        spec_opt_file_info(c, "info"@),
        spec_opt_image_info(c, "thumbnail_info"@),
        spec_req_str(c, "url"@),
        spec_req_str(c, "filename"@),
        spec_opt_str(c, "thumbnail_url"@),
    ) {
        (
            Some(body),
            Some(info),
            Some(thumbnail_info),
            Some(url),
            Some(filename),
            Some(thumbnail_url),
        ) => Some(
            FileMessageTypeView { body, info, thumbnail_info, url, filename, thumbnail_url },
        ),
        _ => None,
    }
}

pub fn decode_file_message(c: &JsonValue) -> (r: Option<FileMessageType>)
    ensures
        r.deep_view() == spec_file_message(*c),
{
    let body = match get_req_str(c, "body") {
        Some(x) => x,
        None => {
            return None;
        },
    };
    let info = match get_opt_file_info(c, "info") {
        Some(x) => x,
        None => {
            return None;
        },
    };
    let thumbnail_info = match get_opt_image_info(c, "thumbnail_info") {
        Some(x) => x,
        None => {
            return None;
        },
    };
    let url = match get_req_str(c, "url") {
        Some(x) => x,
        None => {
            return None;
        },
    };
    let filename = match get_req_str(c, "filename") {
        Some(x) => x,
        None => {
            return None;
        },
    };
    let thumbnail_url = match get_opt_str(c, "thumbnail_url") {
        Some(x) => x,
        None => {
            return None;
        },
    };
    Some(FileMessageType { body, info, thumbnail_info, url, filename, thumbnail_url })
}

pub open spec fn spec_image_message(c: JsonValue) -> Option<ImageMessageTypeView> {
    match (
        spec_req_str(c, "body"@),
        spec_opt_image_info(c, "info"@),
        spec_opt_image_info(c, "thumbnail_info"@),
        spec_req_str(c, "url"@),
        spec_opt_str(c, "thumbnail_url"@),
    ) {
        (Some(body), Some(info), Some(thumbnail_info), Some(url), Some(thumbnail_url)) => Some(
            ImageMessageTypeView { body, info, thumbnail_info, url, thumbnail_url },
        ),
        _ => None,
    }
}

pub fn decode_image_message(c: &JsonValue) -> (r: Option<ImageMessageType>)
    ensures
        r.deep_view() == spec_image_message(*c),
{
    let body = match get_req_str(c, "body") {
        Some(x) => x,
        None => {
            return None;
        },
    };
    let info = match get_opt_image_info(c, "info") {
        Some(x) => x,
        None => {
            return None;
        },
    };
    let thumbnail_info = match get_opt_image_info(c, "thumbnail_info") {
        Some(x) => x,
        None => {
            return None;
        },
    };
    let url = match get_req_str(c, "url") {
        Some(x) => x,
        None => {
            return None;
        },
    };
    let thumbnail_url = match get_opt_str(c, "thumbnail_url") {
        Some(x) => x,
        None => {
            return None;
        },
    };
    Some(ImageMessageType { body, info, thumbnail_info, url, thumbnail_url })
}

/// The tagged decode of a message content: selected by `msgtype`. `None`
/// when the tag is unrecognized or the selected shape's fields fail.
pub open spec fn spec_tagged_message(c: JsonValue, mt: Seq<char>) -> Option<RoomMessageTypesView> {
    if mt == "m.audio"@ {
        match spec_audio_message(c) {
            Some(m) => Some(RoomMessageTypesView::AudioMessage(m)),
            None => None,
        }
    } else if mt == "m.video"@ {
        match spec_video_message(c) {
            Some(m) => Some(RoomMessageTypesView::VideoMessage(m)),
            None => None,
        }
    } else if mt == "m.location"@ {
        match spec_location_message(c) {
            Some(m) => Some(RoomMessageTypesView::LocationMessage(m)),
            None => None,
        }
    } else if mt == "m.file"@ {
        match spec_file_message(c) {
            Some(m) => Some(RoomMessageTypesView::FileMessage(m)),
            None => None,
        }
    } else if mt == "m.image"@ {
        match spec_image_message(c) {
            Some(m) => Some(RoomMessageTypesView::ImageMessage(m)),
            None => None,
        }
    } else if mt == "m.notice"@ {
        match spec_notice_message(c) {
            Some(m) => Some(RoomMessageTypesView::NoticeMessage(m)),
            None => None,
        }
    } else if mt == "m.emote"@ {
        match spec_emote_message(c) {
            Some(m) => Some(RoomMessageTypesView::EmoteMessage(m)),
            None => None,
        }
    } else if mt == "m.text"@ {
        match spec_text_message(c) {
            Some(m) => Some(RoomMessageTypesView::TextMessage(m)),
            None => None,
        }
    } else if mt == "Unknown"@ {
        Some(RoomMessageTypesView::Unknown)
    } else {
        None
    }
}

pub fn decode_tagged_message(c: &JsonValue, mt: &str) -> (r: Option<RoomMessageTypes>)
    ensures
        r.deep_view() == spec_tagged_message(*c, mt@),
{
    if str_eq(mt, "m.audio") {
        match decode_audio_message(c) {
            Some(m) => Some(RoomMessageTypes::AudioMessage(m)),
            None => None,
        }
    } else if str_eq(mt, "m.video") {
        match decode_video_message(c) {
            Some(m) => Some(RoomMessageTypes::VideoMessage(m)),
            None => None,
        }
    } else if str_eq(mt, "m.location") {
        match decode_location_message(c) {
            Some(m) => Some(RoomMessageTypes::LocationMessage(m)),
            None => None,
        }
    } else if str_eq(mt, "m.file") {
        match decode_file_message(c) {
            Some(m) => Some(RoomMessageTypes::FileMessage(m)),
            None => None,
        }
    } else if str_eq(mt, "m.image") {
        match decode_image_message(c) {
            Some(m) => Some(RoomMessageTypes::ImageMessage(m)),
            None => None,
        }
    } else if str_eq(mt, "m.notice") {
        match decode_notice_message(c) {
            Some(m) => Some(RoomMessageTypes::NoticeMessage(m)),
            None => None,
        }
    } else if str_eq(mt, "m.emote") {
        match decode_emote_message(c) {
            Some(m) => Some(RoomMessageTypes::EmoteMessage(m)),
            None => None,
        }
    } else if str_eq(mt, "m.text") {
        match decode_text_message(c) {
            Some(m) => Some(RoomMessageTypes::TextMessage(m)),
            None => None,
        }
    } else if str_eq(mt, "Unknown") {
        Some(RoomMessageTypes::Unknown)
    } else {
        None
    }
}

/// A message's content: the ordered two-arm decode. The tagged decode is
/// attempted first; on any failure of it the redacted shape is taken. Only a
/// content that is not an object at all fails outright.
pub open spec fn spec_message_content(c: JsonValue) -> Option<RoomMessageOptionTypeView> {
    if !(c is Obj) {
        None
    } else {
        match spec_req_str(c, "msgtype"@) {
            Some(mt) => match spec_tagged_message(c, mt) {
                Some(m) => Some(RoomMessageOptionTypeView::Message(m)),
                None => Some(RoomMessageOptionTypeView::Redacted),
            },
            None => Some(RoomMessageOptionTypeView::Redacted),
        }
    }
}

pub fn decode_message_content(c: &JsonValue) -> (r: Option<RoomMessageOptionType>)
    ensures
        r.deep_view() == spec_message_content(*c),
{
    if c.as_obj().is_none() {
        return None;
    }
    let mt = match get_req_str(c, "msgtype") {
        Some(x) => x,
        None => {
            return Some(RoomMessageOptionType::Redacted(RedactedMessageContent {}));
        },
    };
    match decode_tagged_message(c, mt.as_str()) {
        Some(m) => Some(RoomMessageOptionType::Message(m)),
        None => Some(RoomMessageOptionType::Redacted(RedactedMessageContent {})),
    }
}

// ---------------------------------------------------------------------------
// The event decoder
// ---------------------------------------------------------------------------

/// Assembles a decoded envelope around a decoded content payload.
pub open spec fn spec_container<TV>(p: EnvelopePartsView, c: TV) -> EventContainerView<TV> {
    EventContainerView {
        content: c,
        origin_server_ts: p.origin_server_ts,
        sender: p.sender,
        unsigned: p.unsigned,
        state_key: p.state_key,
    }
}

fn into_container<T: DeepView>(parts: EnvelopeParts, content: T) -> (r: EventContainer<T>)
    ensures
        r.deep_view() == spec_container(parts.deep_view(), content.deep_view()),
{
    EventContainer {
        content,
        origin_server_ts: parts.origin_server_ts,
        sender: parts.sender,
        unsigned: parts.unsigned,
        state_key: parts.state_key,
    }
}

/// The envelope of a known kind: the common fields plus the `content` field
/// put through the kind's own content decode.
pub open spec fn spec_event_of<TV>(v: JsonValue, dec: spec_fn(JsonValue) -> Option<TV>) -> Option<
    EventContainerView<TV>,
> {
    match (spec_envelope_parts(v), spec_field(v, "content"@)) {
        (Some(p), Some(cf)) => match dec(cf) {
            Some(c) => Some(spec_container(p, c)),
            None => None,
        },
        _ => None,
    }
}

/// What one raw event decodes to. A recognized `type` whose envelope and
/// content decode gives that kind; everything else — no `type` string, an
/// unrecognized discriminator, or any failure inside the event — degrades to
/// the catch-all kind.
pub open spec fn spec_decode_event(v: JsonValue) -> EventView {
    match spec_req_str(v, "type"@) {
        Some(t) => {
            if t == "m.typing"@ {
                match spec_event_of(v, |c: JsonValue| spec_typing_content(c)) {
                    Some(x) => EventView::Typing(x),
                    None => EventView::Unknown,
                }
            } else if t == "m.room.power_levels"@ {
                match spec_event_of(v, |c: JsonValue| spec_power_levels_content(c)) {
                    Some(x) => EventView::RoomPowerLevels(x),
                    None => EventView::Unknown,
                }
            } else if t == "m.room.history_visibility"@ {
                match spec_event_of(v, |c: JsonValue| spec_history_visibility_content(c)) {
                    Some(x) => EventView::RoomHistoryVisibility(x),
                    None => EventView::Unknown,
                }
            } else if t == "m.room.topic"@ {
                match spec_event_of(v, |c: JsonValue| spec_topic_content(c)) {
                    Some(x) => EventView::RoomTopic(x),
                    None => EventView::Unknown,
                }
            } else if t == "m.receipt"@ {
                match spec_event_of(v, |c: JsonValue| spec_receipt_content(c)) {
                    Some(x) => EventView::Receipt(x),
                    None => EventView::Unknown,
                }
            } else if t == "m.presence"@ {
                match spec_event_of(v, |c: JsonValue| spec_presence_content(c)) {
                    Some(x) => EventView::Presence(x),
                    None => EventView::Unknown,
                }
            } else if t == "m.room.member"@ {
                match spec_event_of(v, |c: JsonValue| spec_member_content(c)) {
                    Some(x) => EventView::RoomMember(x),
                    None => EventView::Unknown,
                }
            } else if t == "m.room.aliases"@ {
                match spec_event_of(v, |c: JsonValue| spec_alias_content(c)) {
                    Some(x) => EventView::RoomAlias(x),
                    None => EventView::Unknown,
                }
            } else if t == "m.room.canonical_alias"@ {
                match spec_event_of(v, |c: JsonValue| spec_canonical_alias_content(c)) {
                    Some(x) => EventView::RoomCanonicalAlias(x),
                    None => EventView::Unknown,
                }
            } else if t == "m.room.create"@ {
                match spec_event_of(v, |c: JsonValue| spec_create_content(c)) {
                    Some(x) => EventView::RoomCreate(x),
                    None => EventView::Unknown,
                }
            } else if t == "m.room.avatar"@ {
                match spec_event_of(v, |c: JsonValue| spec_avatar_content(c)) {
                    Some(x) => EventView::RoomAvatar(x),
                    None => EventView::Unknown,
                }
            } else if t == "m.room.join_rules"@ {
                match spec_event_of(v, |c: JsonValue| spec_join_rules_content(c)) {
                    Some(x) => EventView::RoomJoinRules(x),
                    None => EventView::Unknown,
                }
            } else if t == "m.room.message"@ {
                match spec_event_of(v, |c: JsonValue| spec_message_content(c)) {
                    Some(x) => EventView::RoomMessage(x),
                    None => EventView::Unknown,
                }
            } else if t == "m.room.name"@ {
                match spec_event_of(v, |c: JsonValue| spec_name_content(c)) {
                    Some(x) => EventView::RoomName(x),
                    None => EventView::Unknown,
                }
            } else if t == "m.room.guest_access"@ {
                match spec_event_of(v, |c: JsonValue| spec_guest_access_content(c)) {
                    Some(x) => EventView::RoomGuestAccess(x),
                    None => EventView::Unknown,
                }
            } else if t == "m.room.redaction"@ {
                match spec_event_of(v, |c: JsonValue| spec_redaction_content(c)) {
                    Some(x) => EventView::RoomRedaction(x),
                    None => EventView::Unknown,
                }
            } else {
                EventView::Unknown
            }
        },
        None => EventView::Unknown,
    }
}

/// Decodes one raw event, degrading to [`Event::Unknown`] on any failure.
pub fn decode_event(v: &JsonValue) -> (r: Event)
    ensures
        r.deep_view() == spec_decode_event(*v),
{
    let t = match v.get("type") {
        Some(f) => match f.as_str() {
            Some(s) => s,
            None => {
                return Event::Unknown;
            },
        },
        None => {
            return Event::Unknown;
        },
    };
    let parts = match decode_envelope_parts(v) {
        Some(p) => p,
        None => {
            return Event::Unknown;
        },
    };
    let cf = match v.get("content") {
        Some(c) => c,
        None => {
            return Event::Unknown;
        },
    };
    let ts = t.as_str();
    if str_eq(ts, "m.typing") {
        match decode_typing_content(cf) {
            Some(c) => Event::Typing(into_container(parts, c)),
            None => Event::Unknown,
        }
    } else if str_eq(ts, "m.room.power_levels") {
        match decode_power_levels_content(cf) {
            Some(c) => Event::RoomPowerLevels(into_container(parts, c)),
            None => Event::Unknown,
        }
    } else if str_eq(ts, "m.room.history_visibility") {
        match decode_history_visibility_content(cf) {
            Some(c) => Event::RoomHistoryVisibility(into_container(parts, c)),
            None => Event::Unknown,
        }
    } else if str_eq(ts, "m.room.topic") {
        match decode_topic_content(cf) {
            Some(c) => Event::RoomTopic(into_container(parts, c)),
            None => Event::Unknown,
        }
    } else if str_eq(ts, "m.receipt") {
        match decode_receipt_content(cf) {
            Some(c) => Event::Receipt(into_container(parts, c)),
            None => Event::Unknown,
        }
    } else if str_eq(ts, "m.presence") {
        match decode_presence_content(cf) {
            Some(c) => Event::Presence(into_container(parts, c)),
            None => Event::Unknown,
        }
    } else if str_eq(ts, "m.room.member") {
        match decode_member_content(cf) {
            Some(c) => Event::RoomMember(into_container(parts, c)),
            None => Event::Unknown,
        }
    } else if str_eq(ts, "m.room.aliases") {
        match decode_alias_content(cf) {
            Some(c) => Event::RoomAlias(into_container(parts, c)),
            None => Event::Unknown,
        }
    } else if str_eq(ts, "m.room.canonical_alias") {
        match decode_canonical_alias_content(cf) {
            Some(c) => Event::RoomCanonicalAlias(into_container(parts, c)),
            None => Event::Unknown,
        }
    } else if str_eq(ts, "m.room.create") {
        match decode_create_content(cf) {
            Some(c) => Event::RoomCreate(into_container(parts, c)),
            None => Event::Unknown,
        }
    } else if str_eq(ts, "m.room.avatar") {
        match decode_avatar_content(cf) {
            Some(c) => Event::RoomAvatar(into_container(parts, c)),
            None => Event::Unknown,
        }
    } else if str_eq(ts, "m.room.join_rules") {
        match decode_join_rules_content(cf) {
            Some(c) => Event::RoomJoinRules(into_container(parts, c)),
            None => Event::Unknown,
        }
    } else if str_eq(ts, "m.room.message") {
        match decode_message_content(cf) {
            Some(c) => Event::RoomMessage(into_container(parts, c)),
            None => Event::Unknown,
        }
    } else if str_eq(ts, "m.room.name") {
        match decode_name_content(cf) {
            Some(c) => Event::RoomName(into_container(parts, c)),
            None => Event::Unknown,
        }
    } else if str_eq(ts, "m.room.guest_access") {
        match decode_guest_access_content(cf) {
            Some(c) => Event::RoomGuestAccess(into_container(parts, c)),
            None => Event::Unknown,
        }
    } else if str_eq(ts, "m.room.redaction") {
        match decode_redaction_content(cf) {
            Some(c) => Event::RoomRedaction(into_container(parts, c)),
            None => Event::Unknown,
        }
    } else {
        Event::Unknown
    }
}

/// What a collection of raw events decodes to, slot for slot.
pub open spec fn spec_decode_events(a: Seq<JsonValue>) -> Seq<EventView> {
    a.map_values(|e: JsonValue| spec_decode_event(e))
}

/// Decodes a collection of raw events. Each slot decodes on its own: a
/// malformed or unrecognized event occupies its original position as
/// [`Event::Unknown`] and its siblings decode normally.
#[verifier::loop_isolation(false)]
pub fn decode_events(a: &Vec<JsonValue>) -> (r: Vec<Event>)
    ensures
        r.deep_view() == spec_decode_events(a@),
{
    let n = a.len();
    let mut out: Vec<Event> = Vec::new();
    let mut i: usize = 0;
    while i < n
        invariant
            i <= n,
            out@.len() == i,
            forall|j: int|
                0 <= j < i ==> (#[trigger] out@[j]).deep_view() == spec_decode_event(a@[j]),
        decreases n - i,
    {
        let e = decode_event(&a[i]);
        out.push(e);
        i = i + 1;
    }
    proof {
        assert(out.deep_view() =~= spec_decode_events(a@));
    }
    out
}

// ---------------------------------------------------------------------------
// Laws of the decoder
// ---------------------------------------------------------------------------

/// Law (forward compatibility): an event whose `type` discriminator is a
/// string outside the known set decodes to the catch-all kind; it never
/// fails.
pub proof fn lemma_unknown_type_degrades(v: JsonValue, t: Seq<char>)
    requires
        spec_req_str(v, "type"@) == Some(t),
        t != "m.typing"@,
        t != "m.room.power_levels"@,
        t != "m.room.history_visibility"@,
        t != "m.room.topic"@,
        t != "m.receipt"@,
        t != "m.presence"@,
        t != "m.room.member"@,
        t != "m.room.aliases"@,
        t != "m.room.canonical_alias"@,
        t != "m.room.create"@,
        t != "m.room.avatar"@,
        t != "m.room.join_rules"@,
        t != "m.room.message"@,
        t != "m.room.name"@,
        t != "m.room.guest_access"@,
        t != "m.room.redaction"@,
    ensures
        spec_decode_event(v) is Unknown,
{
}

/// Law: a collection of events decodes slot by slot — each slot's decode is
/// a function of that slot alone, and every slot keeps its position. With
/// the law above: one unrecognized event occupies its own position as the
/// catch-all kind, and its siblings decode normally.
pub proof fn lemma_events_decode_slotwise(a: Seq<JsonValue>, i: int)
    requires
        0 <= i < a.len(),
    ensures
        spec_decode_events(a).len() == a.len(),
        spec_decode_events(a)[i] == spec_decode_event(a[i]),
{
}

/// Law (redacted fallback): a message content that names any message shape
/// but lacks the `body` field decodes as the redacted variant, not a decode
/// failure. (The one discriminator without a body of its own, the catch-all
/// tag, is excepted: it decodes to the catch-all shape.)
pub proof fn lemma_missing_body_is_redacted(c: JsonValue, mt: Seq<char>)
    requires
        c is Obj,
        spec_req_str(c, "msgtype"@) == Some(mt),
        mt != "Unknown"@,
        spec_req_str(c, "body"@) is None,
    ensures
        spec_message_content(c) == Some(RoomMessageOptionTypeView::Redacted),
{
}

} // verus!
