//! Framing for the wire: JSON text the library sends, query-string
//! encoding, and the path encoding the send endpoint needs.
//!
//! Every builder appends to a `String` and is specified exactly: the
//! characters appended equal a spec-level rendering of the value.

use vstd::prelude::*;

use crate::event::{
    AudioInfo, AudioInfoView, AudioMessageTypeView, EmoteMessageTypeView, FileInfo, FileInfoView,
    FileMessageTypeView, ImageInfo, ImageInfoView, ImageMessageTypeView, LocationMessageTypeView,
    NoticeMessageTypeView, RoomMessageTypes, RoomMessageTypesView, TextMessageTypeView, VideoInfo,
    VideoInfoView, VideoMessageTypeView,
};
use crate::text::{push_char, push_hex_byte, push_i64_dec, spec_hex_byte, spec_i64_dec};
use vstd::string::StringSliceAdditionalSpecFns;

verus! {

// ---------------------------------------------------------------------------
// JSON string escaping
// ---------------------------------------------------------------------------

/// How one character is written inside a JSON string literal.
pub open spec fn spec_escape_char(c: char) -> Seq<char> {
    if c == '"' {
        seq!['\\', '"']
    } else if c == '\\' {
        seq!['\\', '\\']
    } else if c == '\n' {
        seq!['\\', 'n']
    } else if c == '\r' {
        seq!['\\', 'r']
    } else if c == '\t' {
        seq!['\\', 't']
    } else if (c as u32) < 0x20 {
        seq!['\\', 'u', '0', '0'] + spec_hex_byte(c as u8)
    } else {
        seq![c]
    }
}

/// A character sequence escaped for a JSON string literal.
pub open spec fn spec_escape(s: Seq<char>) -> Seq<char>
    decreases s.len(),
{
    if s.len() == 0 {
        Seq::empty()
    } else {
        spec_escape_char(s[0]) + spec_escape(s.drop_first())
    }
}

/// Appends `s` escaped for the inside of a JSON string literal.
#[verifier::loop_isolation(false)]
pub fn push_escaped(out: &mut String, s: &str)
    ensures
        final(out)@ == old(out)@ + spec_escape(s@),
{
    let n = s.unicode_len();
    let mut i: usize = 0;
    proof {
        assert(s@.skip(0) =~= s@);
    }
    while i < n
        invariant
            n == s@.len(),
            i <= n,
            old(out)@ + spec_escape(s@) =~= out@ + spec_escape(s@.skip(i as int)),
        decreases n - i,
    {
        proof {
            assert(s@.skip(i as int)[0] == s@[i as int]);
            assert(s@.skip(i as int).drop_first() =~= s@.skip(i + 1));
        }
        let c = s.get_char(i);
        if c == '"' {
            push_char(out, '\\');
            push_char(out, '"');
        } else if c == '\\' {
            push_char(out, '\\');
            push_char(out, '\\');
        } else if c == '\n' {
            push_char(out, '\\');
            push_char(out, 'n');
        } else if c == '\r' {
            push_char(out, '\\');
            push_char(out, 'r');
        } else if c == '\t' {
            push_char(out, '\\');
            push_char(out, 't');
        } else if (c as u32) < 0x20 {
            push_char(out, '\\');
            push_char(out, 'u');
            push_char(out, '0');
            push_char(out, '0');
            push_hex_byte(out, c as u8);
        } else {
            push_char(out, c);
        }
        proof {
            assert(old(out)@ + spec_escape(s@) =~= out@ + spec_escape(s@.skip(i + 1)));
        }
        i = i + 1;
    }
    proof {
        assert(spec_escape(s@.skip(n as int)) =~= Seq::<char>::empty());
        assert(final(out)@ =~= old(out)@ + spec_escape(s@));
    }
}

/// A whole JSON string literal: quote, escaped characters, quote.
pub open spec fn spec_quoted(s: Seq<char>) -> Seq<char> {
    seq!['"'] + spec_escape(s) + seq!['"']
}

/// Appends a whole JSON string literal.
pub fn push_quoted(out: &mut String, s: &str)
    ensures
        final(out)@ == old(out)@ + spec_quoted(s@),
{
    push_char(out, '"');
    push_escaped(out, s);
    push_char(out, '"');
    proof {
        assert(final(out)@ =~= old(out)@ + spec_quoted(s@));
    }
}

/// An optional string value: a string literal, or `null`.
pub open spec fn spec_opt_str_json(o: Option<Seq<char>>) -> Seq<char> {
    match o {
        Some(s) => spec_quoted(s),
        None => "null"@,
    }
}

pub fn push_opt_str_json(out: &mut String, o: &Option<String>)
    ensures
        final(out)@ == old(out)@ + spec_opt_str_json(o.deep_view()),
{
    match o {
        Some(s) => push_quoted(out, s.as_str()),
        None => out.append("null"),
    }
}

/// An optional number value: decimal digits, or `null`.
pub open spec fn spec_opt_i64_json(o: Option<i64>) -> Seq<char> {
    match o {
        Some(n) => spec_i64_dec(n as int),
        None => "null"@,
    }
}

pub fn push_opt_i64_json(out: &mut String, o: &Option<i64>)
    ensures
        final(out)@ == old(out)@ + spec_opt_i64_json(*o),
{
    match o {
        Some(n) => push_i64_dec(out, *n),
        None => out.append("null"),
    }
}

// ---------------------------------------------------------------------------
// Message content, written back out
// ---------------------------------------------------------------------------

pub open spec fn spec_image_info_json(i: ImageInfoView) -> Seq<char> {
    "{\"mimetype\":"@ + spec_opt_str_json(i.mimetype) + ",\"h\":"@ + spec_opt_i64_json(i.h)
        + ",\"w\":"@ + spec_opt_i64_json(i.w) + ",\"size\":"@ + spec_opt_i64_json(i.size) + "}"@
}

pub open spec fn spec_opt_image_info_json(o: Option<ImageInfoView>) -> Seq<char> {
    match o {
        Some(i) => spec_image_info_json(i),
        None => "null"@,
    }
}

fn push_image_info_json(out: &mut String, i: &ImageInfo)
    ensures
        final(out)@ == old(out)@ + spec_image_info_json(i.deep_view()),
{
    out.append("{\"mimetype\":");
    push_opt_str_json(out, &i.mimetype);
    out.append(",\"h\":");
    push_opt_i64_json(out, &i.h);
    out.append(",\"w\":");
    push_opt_i64_json(out, &i.w);
    out.append(",\"size\":");
    push_opt_i64_json(out, &i.size);
    out.append("}");
    proof {
        assert(final(out)@ =~= old(out)@ + spec_image_info_json(i.deep_view()));
    }
}

fn push_opt_image_info_json(out: &mut String, o: &Option<ImageInfo>)
    ensures
        final(out)@ == old(out)@ + spec_opt_image_info_json(o.deep_view()),
{
    match o {
        Some(i) => push_image_info_json(out, i),
        None => out.append("null"),
    }
}

pub open spec fn spec_audio_info_json(i: AudioInfoView) -> Seq<char> {
    "{\"mimetype\":"@ + spec_opt_str_json(i.mimetype) + ",\"duration\":"@ + spec_opt_i64_json(
        i.duration,
    ) + ",\"size\":"@ + spec_opt_i64_json(i.size) + "}"@
}

pub open spec fn spec_opt_audio_info_json(o: Option<AudioInfoView>) -> Seq<char> {
    match o {
        Some(i) => spec_audio_info_json(i),
        None => "null"@,
    }
}

fn push_opt_audio_info_json(out: &mut String, o: &Option<AudioInfo>)
    ensures
        final(out)@ == old(out)@ + spec_opt_audio_info_json(o.deep_view()),
{
    match o {
        Some(i) => {
            out.append("{\"mimetype\":");
            push_opt_str_json(out, &i.mimetype);
            out.append(",\"duration\":");
            push_opt_i64_json(out, &i.duration);
            out.append(",\"size\":");
            push_opt_i64_json(out, &i.size);
            out.append("}");
            proof {
                assert(final(out)@ =~= old(out)@ + spec_opt_audio_info_json(o.deep_view()));
            }
        },
        None => out.append("null"),
    }
}

pub open spec fn spec_video_info_json(i: VideoInfoView) -> Seq<char> {
    "{\"mimetype\":"@ + spec_opt_str_json(i.mimetype) + ",\"thumbnail_info\":"@
        + spec_opt_image_info_json(i.thumbnail_info) + ",\"h\":"@ + spec_opt_i64_json(i.h)
        + ",\"thumbnail_url\":"@ + spec_opt_str_json(i.thumbnail_url) + ",\"w\":"@
        + spec_opt_i64_json(i.w) + ",\"duration\":"@ + spec_opt_i64_json(i.duration) + ",\"size\":"@
        + spec_opt_i64_json(i.size) + "}"@
}

pub open spec fn spec_opt_video_info_json(o: Option<VideoInfoView>) -> Seq<char> {
    match o {
        Some(i) => spec_video_info_json(i),
        None => "null"@,
    }
}

#[verifier::rlimit(50)]
fn push_opt_video_info_json(out: &mut String, o: &Option<VideoInfo>)
    ensures
        final(out)@ == old(out)@ + spec_opt_video_info_json(o.deep_view()),
{
    match o {
        Some(i) => {
            out.append("{\"mimetype\":");
            push_opt_str_json(out, &i.mimetype);
            out.append(",\"thumbnail_info\":");
            push_opt_image_info_json(out, &i.thumbnail_info);
            out.append(",\"h\":");
            push_opt_i64_json(out, &i.h);
            out.append(",\"thumbnail_url\":");
            push_opt_str_json(out, &i.thumbnail_url);
            out.append(",\"w\":");
            push_opt_i64_json(out, &i.w);
            out.append(",\"duration\":");
            push_opt_i64_json(out, &i.duration);
            out.append(",\"size\":");
            push_opt_i64_json(out, &i.size);
            out.append("}");
            proof {
                assert(final(out)@ =~= old(out)@ + spec_opt_video_info_json(o.deep_view()));
            }
        },
        None => out.append("null"),
    }
}

pub open spec fn spec_file_info_json(i: FileInfoView) -> Seq<char> {
    "{\"mimetype\":"@ + spec_opt_str_json(i.mimetype) + ",\"size\":"@ + spec_opt_i64_json(i.size)
        + "}"@
}

pub open spec fn spec_opt_file_info_json(o: Option<FileInfoView>) -> Seq<char> {
    match o {
        Some(i) => spec_file_info_json(i),
        None => "null"@,
    }
}

fn push_opt_file_info_json(out: &mut String, o: &Option<FileInfo>)
    ensures
        final(out)@ == old(out)@ + spec_opt_file_info_json(o.deep_view()),
{
    match o {
        Some(i) => {
            out.append("{\"mimetype\":");
            push_opt_str_json(out, &i.mimetype);
            out.append(",\"size\":");
            push_opt_i64_json(out, &i.size);
            out.append("}");
            proof {
                assert(final(out)@ =~= old(out)@ + spec_opt_file_info_json(o.deep_view()));
            }
        },
        None => out.append("null"),
    }
}

/// The JSON a message content is sent as, tag first, every field written out
/// (an absent option is written as `null`).
pub open spec fn spec_message_json(m: RoomMessageTypesView) -> Seq<char> {
    match m {
        RoomMessageTypesView::Unknown => "{\"msgtype\":\"Unknown\"}"@,
        RoomMessageTypesView::AudioMessage(a) => "{\"msgtype\":\"m.audio\",\"body\":"@
            + spec_quoted(a.body) + ",\"info\":"@ + spec_opt_audio_info_json(a.info) + ",\"url\":"@
            + spec_quoted(a.url) + "}"@,
        RoomMessageTypesView::VideoMessage(v) => "{\"msgtype\":\"m.video\",\"body\":"@
            + spec_quoted(v.body) + ",\"info\":"@ + spec_opt_video_info_json(v.info) + ",\"url\":"@
            + spec_quoted(v.url) + "}"@,
        RoomMessageTypesView::LocationMessage(l) => "{\"msgtype\":\"m.location\",\"body\":"@
            + spec_quoted(l.body) + ",\"thumbnail_info\":"@ + spec_opt_image_info_json(
            l.thumbnail_info,
        ) + ",\"geo_uri\":"@ + spec_quoted(l.geo_uri) + ",\"thumbnail_url\":"@ + spec_opt_str_json(
            l.thumbnail_url,
        ) + "}"@,
        RoomMessageTypesView::FileMessage(f) => "{\"msgtype\":\"m.file\",\"body\":"@
            + spec_quoted(f.body) + ",\"info\":"@ + spec_opt_file_info_json(f.info)
            + ",\"thumbnail_info\":"@ + spec_opt_image_info_json(f.thumbnail_info) + ",\"url\":"@
            + spec_quoted(f.url) + ",\"filename\":"@ + spec_quoted(f.filename)
            + ",\"thumbnail_url\":"@ + spec_opt_str_json(f.thumbnail_url) + "}"@,
        RoomMessageTypesView::ImageMessage(i) => "{\"msgtype\":\"m.image\",\"body\":"@
            + spec_quoted(i.body) + ",\"info\":"@ + spec_opt_image_info_json(i.info)
            + ",\"thumbnail_info\":"@ + spec_opt_image_info_json(i.thumbnail_info) + ",\"url\":"@
            + spec_quoted(i.url) + ",\"thumbnail_url\":"@ + spec_opt_str_json(i.thumbnail_url)
            + "}"@,
        RoomMessageTypesView::NoticeMessage(n) => "{\"msgtype\":\"m.notice\",\"body\":"@
            + spec_quoted(n.body) + "}"@,
        RoomMessageTypesView::EmoteMessage(e) => "{\"msgtype\":\"m.emote\",\"body\":"@
            + spec_quoted(e.body) + "}"@,
        RoomMessageTypesView::TextMessage(t) => "{\"msgtype\":\"m.text\",\"body\":"@ + spec_quoted(
            t.body,
        ) + "}"@,
    }
}

/// Writes a message content as the JSON the send endpoint takes.
pub fn message_json(m: &RoomMessageTypes) -> (r: String)
    ensures
        r@ == spec_message_json(m.deep_view()),
{
    let mut out = String::new();
    match m {
        RoomMessageTypes::Unknown => {
            out.append("{\"msgtype\":\"Unknown\"}");
        },
        RoomMessageTypes::AudioMessage(a) => {
            out.append("{\"msgtype\":\"m.audio\",\"body\":");
            push_quoted(&mut out, a.body.as_str());
            out.append(",\"info\":");
            push_opt_audio_info_json(&mut out, &a.info);
            out.append(",\"url\":");
            push_quoted(&mut out, a.url.as_str());
            out.append("}");
        },
        RoomMessageTypes::VideoMessage(v) => {
            out.append("{\"msgtype\":\"m.video\",\"body\":");
            push_quoted(&mut out, v.body.as_str());
            out.append(",\"info\":");
            push_opt_video_info_json(&mut out, &v.info);
            out.append(",\"url\":");
            push_quoted(&mut out, v.url.as_str());
            out.append("}");
        },
        RoomMessageTypes::LocationMessage(l) => {
            out.append("{\"msgtype\":\"m.location\",\"body\":");
            push_quoted(&mut out, l.body.as_str());
            out.append(",\"thumbnail_info\":");
            push_opt_image_info_json(&mut out, &l.thumbnail_info);
            out.append(",\"geo_uri\":");
            push_quoted(&mut out, l.geo_uri.as_str());
            out.append(",\"thumbnail_url\":");
            push_opt_str_json(&mut out, &l.thumbnail_url);
            out.append("}");
        },
        RoomMessageTypes::FileMessage(f) => {
            out.append("{\"msgtype\":\"m.file\",\"body\":");
            push_quoted(&mut out, f.body.as_str());
            out.append(",\"info\":");
            push_opt_file_info_json(&mut out, &f.info);
            out.append(",\"thumbnail_info\":");
            push_opt_image_info_json(&mut out, &f.thumbnail_info);
            out.append(",\"url\":");
            push_quoted(&mut out, f.url.as_str());
            out.append(",\"filename\":");
            push_quoted(&mut out, f.filename.as_str());
            out.append(",\"thumbnail_url\":");
            push_opt_str_json(&mut out, &f.thumbnail_url);
            out.append("}");
        },
        RoomMessageTypes::ImageMessage(i) => {
            out.append("{\"msgtype\":\"m.image\",\"body\":");
            push_quoted(&mut out, i.body.as_str());
            out.append(",\"info\":");
            push_opt_image_info_json(&mut out, &i.info);
            out.append(",\"thumbnail_info\":");
            push_opt_image_info_json(&mut out, &i.thumbnail_info);
            out.append(",\"url\":");
            push_quoted(&mut out, i.url.as_str());
            out.append(",\"thumbnail_url\":");
            push_opt_str_json(&mut out, &i.thumbnail_url);
            out.append("}");
        },
        RoomMessageTypes::NoticeMessage(n) => {
            out.append("{\"msgtype\":\"m.notice\",\"body\":");
            push_quoted(&mut out, n.body.as_str());
            out.append("}");
        },
        RoomMessageTypes::EmoteMessage(e) => {
            out.append("{\"msgtype\":\"m.emote\",\"body\":");
            push_quoted(&mut out, e.body.as_str());
            out.append("}");
        },
        RoomMessageTypes::TextMessage(t) => {
            out.append("{\"msgtype\":\"m.text\",\"body\":");
            push_quoted(&mut out, t.body.as_str());
            out.append("}");
        },
    }
    proof {
        assert(out@ =~= spec_message_json(m.deep_view()));
    }
    out
}

// ---------------------------------------------------------------------------
// Query-string and path encoding
// ---------------------------------------------------------------------------

/// Whether a byte passes through a form-encoded query unchanged: ASCII
/// letters and digits, and `*`, `-`, `.`, `_`.
pub open spec fn spec_form_plain(b: u8) -> bool {
    (48 <= b && b <= 57) || (65 <= b && b <= 90) || (97 <= b && b <= 122) || b == 42 || b == 45
        || b == 46 || b == 95
}

/// How one byte is written in a form-encoded query value: plain bytes as
/// themselves, space as `+`, everything else percent-escaped.
pub open spec fn spec_form_byte(b: u8) -> Seq<char> {
    if b == 32 {
        seq!['+']
    } else if spec_form_plain(b) {
        seq![b as char]
    } else {
        seq!['%'] + spec_hex_byte(b)
    }
}

/// A byte sequence written as a form-encoded query value.
pub open spec fn spec_form_bytes(bs: Seq<u8>) -> Seq<char>
    decreases bs.len(),
{
    if bs.len() == 0 {
        Seq::empty()
    } else {
        spec_form_byte(bs[0]) + spec_form_bytes(bs.drop_first())
    }
}

/// A character sequence's UTF-8 bytes written as a form-encoded query
/// value.
pub open spec fn spec_form_chars(cs: Seq<char>) -> Seq<char> {
    spec_form_bytes(vstd::utf8::encode_utf8(cs))
}

/// Appends `s` form-encoded, byte by byte over its UTF-8 encoding.
#[verifier::loop_isolation(false)]
pub fn push_form_encoded(out: &mut String, s: &str)
    ensures
        final(out)@ == old(out)@ + spec_form_chars(s@),
{
    let bytes = s.as_bytes_vec();
    let n = bytes.len();
    let mut i: usize = 0;
    proof {
        assert(bytes@.skip(0) =~= bytes@);
    }
    while i < n
        invariant
            n == bytes@.len(),
            i <= n,
            bytes@ == s.spec_bytes(),
            old(out)@ + spec_form_bytes(bytes@) =~= out@ + spec_form_bytes(bytes@.skip(i as int)),
        decreases n - i,
    {
        proof {
            assert(bytes@.skip(i as int)[0] == bytes@[i as int]);
            assert(bytes@.skip(i as int).drop_first() =~= bytes@.skip(i + 1));
        }
        let b = bytes[i];
        if b == 32 {
            push_char(out, '+');
        } else if (48 <= b && b <= 57) || (65 <= b && b <= 90) || (97 <= b && b <= 122) || b == 42
            || b == 45 || b == 46 || b == 95 {
            push_char(out, b as char);
        } else {
            push_char(out, '%');
            push_hex_byte(out, b);
        }
        proof {
            assert(old(out)@ + spec_form_bytes(bytes@) =~= out@ + spec_form_bytes(
                bytes@.skip(i + 1),
            ));
        }
        i = i + 1;
    }
    proof {
        assert(spec_form_bytes(bytes@.skip(n as int)) =~= Seq::<char>::empty());
        assert(final(out)@ =~= old(out)@ + spec_form_chars(s@));
    }
}

/// One query pair rendered: the key (taken as already plain), `=`, and the
/// form-encoded value.
pub open spec fn spec_query_pair(p: (Seq<char>, Seq<char>)) -> Seq<char> {
    p.0 + seq!['='] + spec_form_chars(p.1)
}

/// Query pairs rendered and joined by `&`.
pub open spec fn spec_query_parts(pairs: Seq<(Seq<char>, Seq<char>)>) -> Seq<char>
    decreases pairs.len(),
{
    if pairs.len() == 0 {
        Seq::empty()
    } else {
        spec_query_pair(pairs[0]) + if pairs.len() == 1 {
            Seq::empty()
        } else {
            seq!['&'] + spec_query_parts(pairs.drop_first())
        }
    }
}

/// A whole query string: empty for no pairs, else `?` and the joined pairs.
pub open spec fn spec_query(pairs: Seq<(Seq<char>, Seq<char>)>) -> Seq<char> {
    if pairs.len() == 0 {
        Seq::empty()
    } else {
        seq!['?'] + spec_query_parts(pairs)
    }
}

/// Appends the query string for the given pairs, values form-encoded.
#[verifier::loop_isolation(false)]
pub fn push_query(out: &mut String, pairs: &Vec<(String, String)>)
    ensures
        final(out)@ == old(out)@ + spec_query(pairs.deep_view()),
{
    let n = pairs.len();
    if n == 0 {
        proof {
            assert(final(out)@ =~= old(out)@ + spec_query(pairs.deep_view()));
        }
        return ;
    }
    push_char(out, '?');
    let ghost pv = pairs.deep_view();
    let mut i: usize = 0;
    proof {
        assert(pv.skip(0) =~= pv);
        assert(pv.len() == n);
    }
    while i < n
        invariant
            i < n,
            n == pv.len(),
            pv == pairs.deep_view(),
            old(out)@ + spec_query(pv) =~= out@ + spec_query_parts(pv.skip(i as int)),
        decreases n - i,
    {
        proof {
            assert(pv.skip(i as int)[0] == pv[i as int]);
            assert(pv[i as int] == (pairs@[i as int].0@, pairs@[i as int].1@));
            assert(pv.skip(i as int).drop_first() =~= pv.skip(i + 1));
        }
        let entry = &pairs[i];
        out.append(entry.0.as_str());
        push_char(out, '=');
        push_form_encoded(out, entry.1.as_str());
        if i + 1 < n {
            push_char(out, '&');
            proof {
                assert(old(out)@ + spec_query(pv) =~= out@ + spec_query_parts(pv.skip(i + 1)));
            }
        } else {
            proof {
                assert(spec_query_parts(pv.skip(i as int)) =~= spec_query_pair(pv[i as int]));
                assert(final(out)@ =~= old(out)@ + spec_query(pv));
            }
            return ;
        }
        i = i + 1;
    }
}

/// How one character of a request path is written: a colon is
/// percent-escaped, everything else passes through.
pub open spec fn spec_colon_char(c: char) -> Seq<char> {
    if c == ':' {
        seq!['%', '3', 'A']
    } else {
        seq![c]
    }
}

/// A character sequence with every colon percent-escaped.
pub open spec fn spec_colon_encode(s: Seq<char>) -> Seq<char>
    decreases s.len(),
{
    if s.len() == 0 {
        Seq::empty()
    } else {
        spec_colon_char(s[0]) + spec_colon_encode(s.drop_first())
    }
}

/// Appends `s` with every colon percent-escaped.
#[verifier::loop_isolation(false)]
pub fn push_colon_encoded(out: &mut String, s: &str)
    ensures
        final(out)@ == old(out)@ + spec_colon_encode(s@),
{
    let n = s.unicode_len();
    let mut i: usize = 0;
    proof {
        assert(s@.skip(0) =~= s@);
    }
    while i < n
        invariant
            n == s@.len(),
            i <= n,
            old(out)@ + spec_colon_encode(s@) =~= out@ + spec_colon_encode(s@.skip(i as int)),
        decreases n - i,
    {
        proof {
            assert(s@.skip(i as int)[0] == s@[i as int]);
            assert(s@.skip(i as int).drop_first() =~= s@.skip(i + 1));
        }
        let c = s.get_char(i);
        if c == ':' {
            push_char(out, '%');
            push_char(out, '3');
            push_char(out, 'A');
        } else {
            push_char(out, c);
        }
        proof {
            assert(old(out)@ + spec_colon_encode(s@) =~= out@ + spec_colon_encode(s@.skip(i + 1)));
        }
        i = i + 1;
    }
    proof {
        assert(spec_colon_encode(s@.skip(n as int)) =~= Seq::<char>::empty());
        assert(final(out)@ =~= old(out)@ + spec_colon_encode(s@));
    }
}

} // verus!
