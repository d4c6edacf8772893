//! The event taxonomy: one polymorphic [`Event`] over a closed set of known
//! kinds plus an explicit [`Event::Unknown`] catch-all, each known kind an
//! [`EventContainer`] envelope around a kind-specific content payload.
//!
//! Every type here has a mathematical view (`...View`) over `Seq`, `int` and
//! plain values, reached through `DeepView`; the decoder's contracts are
//! stated over those views.

use vstd::prelude::*;

verus! {

// ---------------------------------------------------------------------------
// Envelope metadata
// ---------------------------------------------------------------------------

/// Optional metadata attached to an event by the server. The back-reference
/// to a redacting event is kept by id (`redacted_by`) together with that
/// event's reason payload (`redacted_because`); it is a lookup relation, not
/// an owned copy of the redacting event.
#[derive(Debug, PartialEq)]
pub struct Unsigned {
    pub age: i64,
    pub transaction_id: Option<String>,
    pub redacted_by: Option<String>,
    pub redacted_because: Option<RoomRedactionEvent>,
}

#[verifier::ext_equal]
pub struct UnsignedView {
    pub age: i64,
    pub transaction_id: Option<Seq<char>>,
    pub redacted_by: Option<Seq<char>>,
    pub redacted_because: Option<RoomRedactionEventView>,
}

impl DeepView for Unsigned {
    type V = UnsignedView;

    open spec fn deep_view(&self) -> UnsignedView {
        UnsignedView {
            age: self.age,
            transaction_id: self.transaction_id.deep_view(),
            redacted_by: self.redacted_by.deep_view(),
            redacted_because: self.redacted_because.deep_view(),
        }
    }
}

/// The envelope common to every known event kind: a content payload plus
/// sender, origin timestamp and optional metadata.
#[derive(Debug, PartialEq)]
pub struct EventContainer<T> {
    pub content: T,
    pub origin_server_ts: Option<i64>,
    pub sender: Option<String>,
    pub unsigned: Option<Unsigned>,
    pub state_key: Option<String>,
}

#[verifier::ext_equal]
pub struct EventContainerView<TV> {
    pub content: TV,
    pub origin_server_ts: Option<i64>,
    pub sender: Option<Seq<char>>,
    pub unsigned: Option<UnsignedView>,
    pub state_key: Option<Seq<char>>,
}

impl<T: DeepView> DeepView for EventContainer<T> {
    type V = EventContainerView<T::V>;

    open spec fn deep_view(&self) -> EventContainerView<T::V> {
        EventContainerView {
            content: self.content.deep_view(),
            origin_server_ts: self.origin_server_ts.deep_view(),
            sender: self.sender.deep_view(),
            unsigned: self.unsigned.deep_view(),
            state_key: self.state_key.deep_view(),
        }
    }
}

// ---------------------------------------------------------------------------
// State-event content payloads
// ---------------------------------------------------------------------------

#[derive(Debug, PartialEq)]
pub struct RoomRedactionEvent {
    pub reason: Option<String>,
}

#[verifier::ext_equal]
pub struct RoomRedactionEventView {
    pub reason: Option<Seq<char>>,
}

impl DeepView for RoomRedactionEvent {
    type V = RoomRedactionEventView;

    open spec fn deep_view(&self) -> RoomRedactionEventView {
        RoomRedactionEventView { reason: self.reason.deep_view() }
    }
}

#[derive(Debug, Clone, Copy, PartialEq, Eq, Structural)]
pub enum GuestAccess {
    Unknown,
    CanJoin,
    Forbidden,
}

impl DeepView for GuestAccess {
    type V = GuestAccess;

    open spec fn deep_view(&self) -> GuestAccess {
        *self
    }
}

#[derive(Debug, PartialEq)]
pub struct GuestAccessEvent {
    pub guest_access: GuestAccess,
}

impl DeepView for GuestAccessEvent {
    type V = GuestAccessEvent;

    open spec fn deep_view(&self) -> GuestAccessEvent {
        *self
    }
}

#[derive(Debug, PartialEq)]
pub struct TypingEvent {
    pub user_ids: Vec<String>,
}

#[verifier::ext_equal]
pub struct TypingEventView {
    pub user_ids: Seq<Seq<char>>,
}

impl DeepView for TypingEvent {
    type V = TypingEventView;

    open spec fn deep_view(&self) -> TypingEventView {
        TypingEventView { user_ids: self.user_ids.deep_view() }
    }
}

#[derive(Debug, PartialEq)]
pub struct RoomPowerLevelsEvent {
    pub events_default: Option<i64>,
    pub invite: Option<i64>,
    pub state_default: Option<i64>,
    pub redact: Option<i64>,
    pub ban: Option<i64>,
    pub users_default: Option<i64>,
    pub events: Vec<(String, i64)>,
    pub kick: Option<i64>,
    pub users: Vec<(String, i64)>,
}

#[verifier::ext_equal]
pub struct RoomPowerLevelsEventView {
    pub events_default: Option<i64>,
    pub invite: Option<i64>,
    pub state_default: Option<i64>,
    pub redact: Option<i64>,
    pub ban: Option<i64>,
    pub users_default: Option<i64>,
    pub events: Seq<(Seq<char>, i64)>,
    pub kick: Option<i64>,
    pub users: Seq<(Seq<char>, i64)>,
}

impl DeepView for RoomPowerLevelsEvent {
    type V = RoomPowerLevelsEventView;

    open spec fn deep_view(&self) -> RoomPowerLevelsEventView {
        RoomPowerLevelsEventView {
            events_default: self.events_default,
            invite: self.invite,
            state_default: self.state_default,
            redact: self.redact,
            ban: self.ban,
            users_default: self.users_default,
            events: self.events.deep_view(),
            kick: self.kick,
            users: self.users.deep_view(),
        }
    }
}

#[derive(Debug, PartialEq)]
pub struct RoomHistoryVisibilityEvent {
    pub history_visibility: String,
}

#[verifier::ext_equal]
pub struct RoomHistoryVisibilityEventView {
    pub history_visibility: Seq<char>,
}

impl DeepView for RoomHistoryVisibilityEvent {
    type V = RoomHistoryVisibilityEventView;

    open spec fn deep_view(&self) -> RoomHistoryVisibilityEventView {
        RoomHistoryVisibilityEventView { history_visibility: self.history_visibility@ }
    }
}

#[derive(Debug, PartialEq)]
pub struct RoomTopicEvent {
    pub topic: String,
}

#[verifier::ext_equal]
pub struct RoomTopicEventView {
    pub topic: Seq<char>,
}

impl DeepView for RoomTopicEvent {
    type V = RoomTopicEventView;

    open spec fn deep_view(&self) -> RoomTopicEventView {
        RoomTopicEventView { topic: self.topic@ }
    }
}

#[derive(Debug, Clone, Copy, PartialEq, Eq, Structural)]
pub struct Receipt {
    pub ts: i64,
}

impl DeepView for Receipt {
    type V = Receipt;

    open spec fn deep_view(&self) -> Receipt {
        *self
    }
}

/// Read receipts for one event id: which user read it, and when.
#[derive(Debug, PartialEq)]
pub struct ReceiptEvent {
    pub read: Vec<(String, Receipt)>,
}

#[verifier::ext_equal]
pub struct ReceiptEventView {
    pub read: Seq<(Seq<char>, Receipt)>,
}

impl DeepView for ReceiptEvent {
    type V = ReceiptEventView;

    open spec fn deep_view(&self) -> ReceiptEventView {
        ReceiptEventView { read: self.read.deep_view() }
    }
}

#[derive(Debug, PartialEq)]
pub struct PresenceEvent {
    pub user_id: Option<String>,
    pub presence: String,
    pub avatar_url: Option<String>,
    pub last_active_ago: Option<i64>,
    pub currently_active: Option<bool>,
    pub displayname: Option<String>,
}

#[verifier::ext_equal]
pub struct PresenceEventView {
    pub user_id: Option<Seq<char>>,
    pub presence: Seq<char>,
    pub avatar_url: Option<Seq<char>>,
    pub last_active_ago: Option<i64>,
    pub currently_active: Option<bool>,
    pub displayname: Option<Seq<char>>,
}

impl DeepView for PresenceEvent {
    type V = PresenceEventView;

    open spec fn deep_view(&self) -> PresenceEventView {
        PresenceEventView {
            user_id: self.user_id.deep_view(),
            presence: self.presence@,
            avatar_url: self.avatar_url.deep_view(),
            last_active_ago: self.last_active_ago,
            currently_active: self.currently_active,
            displayname: self.displayname.deep_view(),
        }
    }
}

#[derive(Debug, PartialEq)]
pub struct RoomMemberEvent {
    pub membership: String,
    pub avatar_url: Option<String>,
    pub displayname: Option<String>,
}

#[verifier::ext_equal]
pub struct RoomMemberEventView {
    pub membership: Seq<char>,
    pub avatar_url: Option<Seq<char>>,
    pub displayname: Option<Seq<char>>,
}

impl DeepView for RoomMemberEvent {
    type V = RoomMemberEventView;

    open spec fn deep_view(&self) -> RoomMemberEventView {
        RoomMemberEventView {
            membership: self.membership@,
            avatar_url: self.avatar_url.deep_view(),
            displayname: self.displayname.deep_view(),
        }
    }
}

#[derive(Debug, PartialEq)]
pub struct RoomAliasEvent {
    pub aliases: Vec<String>,
}

#[verifier::ext_equal]
pub struct RoomAliasEventView {
    pub aliases: Seq<Seq<char>>,
}

impl DeepView for RoomAliasEvent {
    type V = RoomAliasEventView;

    open spec fn deep_view(&self) -> RoomAliasEventView {
        RoomAliasEventView { aliases: self.aliases.deep_view() }
    }
}

#[derive(Debug, PartialEq)]
pub struct RoomCanonicalAliasEvent {
    pub alias: String,
}

#[verifier::ext_equal]
pub struct RoomCanonicalAliasEventView {
    pub alias: Seq<char>,
}

impl DeepView for RoomCanonicalAliasEvent {
    type V = RoomCanonicalAliasEventView;

    open spec fn deep_view(&self) -> RoomCanonicalAliasEventView {
        RoomCanonicalAliasEventView { alias: self.alias@ }
    }
}

#[derive(Debug, PartialEq)]
pub struct RoomCreateEvent {
    pub creator: String,
    pub federate: Option<bool>,
}

#[verifier::ext_equal]
pub struct RoomCreateEventView {
    pub creator: Seq<char>,
    pub federate: Option<bool>,
}

impl DeepView for RoomCreateEvent {
    type V = RoomCreateEventView;

    open spec fn deep_view(&self) -> RoomCreateEventView {
        RoomCreateEventView { creator: self.creator@, federate: self.federate }
    }
}

#[derive(Debug, PartialEq)]
pub struct ImageInfo {
    pub mimetype: Option<String>,
    pub h: Option<i64>,
    pub w: Option<i64>,
    pub size: Option<i64>,
}

#[verifier::ext_equal]
pub struct ImageInfoView {
    pub mimetype: Option<Seq<char>>,
    pub h: Option<i64>,
    pub w: Option<i64>,
    pub size: Option<i64>,
}

impl DeepView for ImageInfo {
    type V = ImageInfoView;

    open spec fn deep_view(&self) -> ImageInfoView {
        ImageInfoView {
            mimetype: self.mimetype.deep_view(),
            h: self.h,
            w: self.w,
            size: self.size,
        }
    }
}

#[derive(Debug, PartialEq)]
pub struct RoomAvatarEvent {
    pub url: String,
    pub info: Option<ImageInfo>,
    pub thumbnail_url: Option<String>,
    pub thumbnail_info: Option<ImageInfo>,
}

#[verifier::ext_equal]
pub struct RoomAvatarEventView {
    pub url: Seq<char>,
    pub info: Option<ImageInfoView>,
    pub thumbnail_url: Option<Seq<char>>,
    pub thumbnail_info: Option<ImageInfoView>,
}

impl DeepView for RoomAvatarEvent {
    type V = RoomAvatarEventView;

    open spec fn deep_view(&self) -> RoomAvatarEventView {
        RoomAvatarEventView {
            url: self.url@,
            info: self.info.deep_view(),
            thumbnail_url: self.thumbnail_url.deep_view(),
            thumbnail_info: self.thumbnail_info.deep_view(),
        }
    }
}

#[derive(Debug, PartialEq)]
pub struct RoomJoinRulesEvent {
    pub join_rule: String,
}

#[verifier::ext_equal]
pub struct RoomJoinRulesEventView {
    pub join_rule: Seq<char>,
}

impl DeepView for RoomJoinRulesEvent {
    type V = RoomJoinRulesEventView;

    open spec fn deep_view(&self) -> RoomJoinRulesEventView {
        RoomJoinRulesEventView { join_rule: self.join_rule@ }
    }
}

#[derive(Debug, PartialEq)]
pub struct RoomNameEvent {
    pub name: String,
}

#[verifier::ext_equal]
pub struct RoomNameEventView {
    pub name: Seq<char>,
}

impl DeepView for RoomNameEvent {
    type V = RoomNameEventView;

    open spec fn deep_view(&self) -> RoomNameEventView {
        RoomNameEventView { name: self.name@ }
    }
}

// ---------------------------------------------------------------------------
// Room-message content: a nested tagged union, or the redacted shape
// ---------------------------------------------------------------------------

#[derive(Debug, PartialEq)]
pub struct AudioInfo {
    pub mimetype: Option<String>,
    pub duration: Option<i64>,
    pub size: Option<i64>,
}

#[verifier::ext_equal]
pub struct AudioInfoView {
    pub mimetype: Option<Seq<char>>,
    pub duration: Option<i64>,
    pub size: Option<i64>,
}

impl DeepView for AudioInfo {
    type V = AudioInfoView;

    open spec fn deep_view(&self) -> AudioInfoView {
        AudioInfoView {
            mimetype: self.mimetype.deep_view(),
            duration: self.duration,
            size: self.size,
        }
    }
}

#[derive(Debug, PartialEq)]
pub struct AudioMessageType {
    pub body: String,
    pub info: Option<AudioInfo>,
    pub url: String,
}

#[verifier::ext_equal]
pub struct AudioMessageTypeView {
    pub body: Seq<char>,
    pub info: Option<AudioInfoView>,
    pub url: Seq<char>,
}

impl DeepView for AudioMessageType {
    type V = AudioMessageTypeView;

    open spec fn deep_view(&self) -> AudioMessageTypeView {
        AudioMessageTypeView { body: self.body@, info: self.info.deep_view(), url: self.url@ }
    }
}

#[derive(Debug, PartialEq)]
pub struct VideoInfo {
    pub mimetype: Option<String>,
    pub thumbnail_info: Option<ImageInfo>,
    pub h: Option<i64>,
    pub thumbnail_url: Option<String>,
    pub w: Option<i64>,
    pub duration: Option<i64>,
    pub size: Option<i64>,
}

#[verifier::ext_equal]
pub struct VideoInfoView {
    pub mimetype: Option<Seq<char>>,
    pub thumbnail_info: Option<ImageInfoView>,
    pub h: Option<i64>,
    pub thumbnail_url: Option<Seq<char>>,
    pub w: Option<i64>,
    pub duration: Option<i64>,
    pub size: Option<i64>,
}

impl DeepView for VideoInfo {
    type V = VideoInfoView;

    open spec fn deep_view(&self) -> VideoInfoView {
        VideoInfoView {
            mimetype: self.mimetype.deep_view(),
            thumbnail_info: self.thumbnail_info.deep_view(),
            h: self.h,
            thumbnail_url: self.thumbnail_url.deep_view(),
            w: self.w,
            duration: self.duration,
            size: self.size,
        }
    }
}

#[derive(Debug, PartialEq)]
pub struct VideoMessageType {
    pub body: String,
    pub info: Option<VideoInfo>,
    pub url: String,
}

#[verifier::ext_equal]
pub struct VideoMessageTypeView {
    pub body: Seq<char>,
    pub info: Option<VideoInfoView>,
    pub url: Seq<char>,
}

impl DeepView for VideoMessageType {
    type V = VideoMessageTypeView;

    open spec fn deep_view(&self) -> VideoMessageTypeView {
        VideoMessageTypeView { body: self.body@, info: self.info.deep_view(), url: self.url@ }
    }
}

#[derive(Debug, PartialEq)]
pub struct LocationMessageType {
    pub body: String,
    pub thumbnail_info: Option<ImageInfo>,
    pub geo_uri: String,
    pub thumbnail_url: Option<String>,
}

#[verifier::ext_equal]
pub struct LocationMessageTypeView {
    pub body: Seq<char>,
    pub thumbnail_info: Option<ImageInfoView>,
    pub geo_uri: Seq<char>,
    pub thumbnail_url: Option<Seq<char>>,
}

impl DeepView for LocationMessageType {
    type V = LocationMessageTypeView;

    open spec fn deep_view(&self) -> LocationMessageTypeView {
        LocationMessageTypeView {
            body: self.body@,
            thumbnail_info: self.thumbnail_info.deep_view(),
            geo_uri: self.geo_uri@,
            thumbnail_url: self.thumbnail_url.deep_view(),
        }
    }
}

#[derive(Debug, PartialEq)]
pub struct FileInfo {
    pub mimetype: Option<String>,
    pub size: Option<i64>,
}

#[verifier::ext_equal]
pub struct FileInfoView {
    pub mimetype: Option<Seq<char>>,
    pub size: Option<i64>,
}

impl DeepView for FileInfo {
    type V = FileInfoView;

    open spec fn deep_view(&self) -> FileInfoView {
        FileInfoView { mimetype: self.mimetype.deep_view(), size: self.size }
    }
}

#[derive(Debug, PartialEq)]
pub struct FileMessageType {
    pub body: String,
    pub info: Option<FileInfo>,
    pub thumbnail_info: Option<ImageInfo>,
    pub url: String,
    pub filename: String,
    pub thumbnail_url: Option<String>,
}

#[verifier::ext_equal]
pub struct FileMessageTypeView {
    pub body: Seq<char>,
    pub info: Option<FileInfoView>,
    pub thumbnail_info: Option<ImageInfoView>,
    pub url: Seq<char>,
    pub filename: Seq<char>,
    pub thumbnail_url: Option<Seq<char>>,
}

impl DeepView for FileMessageType {
    type V = FileMessageTypeView;

    open spec fn deep_view(&self) -> FileMessageTypeView {
        FileMessageTypeView {
            body: self.body@,
            info: self.info.deep_view(),
            thumbnail_info: self.thumbnail_info.deep_view(),
            url: self.url@,
            filename: self.filename@,
            thumbnail_url: self.thumbnail_url.deep_view(),
        }
    }
}

#[derive(Debug, PartialEq)]
pub struct ImageMessageType {
    pub body: String,
    pub info: Option<ImageInfo>,
    pub thumbnail_info: Option<ImageInfo>,
    pub url: String,
    pub thumbnail_url: Option<String>,
}

#[verifier::ext_equal]
pub struct ImageMessageTypeView {
    pub body: Seq<char>,
    pub info: Option<ImageInfoView>,
    pub thumbnail_info: Option<ImageInfoView>,
    pub url: Seq<char>,
    pub thumbnail_url: Option<Seq<char>>,
}

impl DeepView for ImageMessageType {
    type V = ImageMessageTypeView;

    open spec fn deep_view(&self) -> ImageMessageTypeView {
        ImageMessageTypeView {
            body: self.body@,
            info: self.info.deep_view(),
            thumbnail_info: self.thumbnail_info.deep_view(),
            url: self.url@,
            thumbnail_url: self.thumbnail_url.deep_view(),
        }
    }
}

#[derive(Debug, PartialEq)]
pub struct TextMessageType {
    pub body: String,
}

#[verifier::ext_equal]
pub struct TextMessageTypeView {
    pub body: Seq<char>,
}

impl DeepView for TextMessageType {
    type V = TextMessageTypeView;

    open spec fn deep_view(&self) -> TextMessageTypeView {
        TextMessageTypeView { body: self.body@ }
    }
}

#[derive(Debug, PartialEq)]
pub struct EmoteMessageType {
    pub body: String,
}

#[verifier::ext_equal]
pub struct EmoteMessageTypeView {
    pub body: Seq<char>,
}

impl DeepView for EmoteMessageType {
    type V = EmoteMessageTypeView;

    open spec fn deep_view(&self) -> EmoteMessageTypeView {
        EmoteMessageTypeView { body: self.body@ }
    }
}

#[derive(Debug, PartialEq)]
pub struct NoticeMessageType {
    pub body: String,
}

#[verifier::ext_equal]
pub struct NoticeMessageTypeView {
    pub body: Seq<char>,
}

impl DeepView for NoticeMessageType {
    type V = NoticeMessageTypeView;

    open spec fn deep_view(&self) -> NoticeMessageTypeView {
        NoticeMessageTypeView { body: self.body@ }
    }
}

/// The nested tagged union over the known message shapes.
#[derive(Debug, PartialEq)]
pub enum RoomMessageTypes {
    Unknown,
    AudioMessage(AudioMessageType),
    VideoMessage(VideoMessageType),
    LocationMessage(LocationMessageType),
    FileMessage(FileMessageType),
    ImageMessage(ImageMessageType),
    NoticeMessage(NoticeMessageType),
    EmoteMessage(EmoteMessageType),
    TextMessage(TextMessageType),
}

#[verifier::ext_equal]
pub enum RoomMessageTypesView {
    Unknown,
    AudioMessage(AudioMessageTypeView),
    VideoMessage(VideoMessageTypeView),
    LocationMessage(LocationMessageTypeView),
    FileMessage(FileMessageTypeView),
    ImageMessage(ImageMessageTypeView),
    NoticeMessage(NoticeMessageTypeView),
    EmoteMessage(EmoteMessageTypeView),
    TextMessage(TextMessageTypeView),
}

impl DeepView for RoomMessageTypes {
    type V = RoomMessageTypesView;

    open spec fn deep_view(&self) -> RoomMessageTypesView {
        match self {
            RoomMessageTypes::Unknown => RoomMessageTypesView::Unknown,
            RoomMessageTypes::AudioMessage(m) => RoomMessageTypesView::AudioMessage(m.deep_view()),
            RoomMessageTypes::VideoMessage(m) => RoomMessageTypesView::VideoMessage(m.deep_view()),
            RoomMessageTypes::LocationMessage(m) => RoomMessageTypesView::LocationMessage(
                m.deep_view(),
            ),
            RoomMessageTypes::FileMessage(m) => RoomMessageTypesView::FileMessage(m.deep_view()),
            RoomMessageTypes::ImageMessage(m) => RoomMessageTypesView::ImageMessage(m.deep_view()),
            RoomMessageTypes::NoticeMessage(m) => RoomMessageTypesView::NoticeMessage(
                m.deep_view(),
            ),
            RoomMessageTypes::EmoteMessage(m) => RoomMessageTypesView::EmoteMessage(m.deep_view()),
            RoomMessageTypes::TextMessage(m) => RoomMessageTypesView::TextMessage(m.deep_view()),
        }
    }
}

impl Default for RoomMessageTypes {
    /// The default message content is the catch-all shape.
    fn default() -> (r: RoomMessageTypes)
        ensures
            r is Unknown,
    {
        RoomMessageTypes::Unknown
    }
}

/// The shape a redacted message's content is left with: no fields at all.
#[derive(Debug, Clone, Copy, PartialEq, Eq, Structural)]
pub struct RedactedMessageContent {}

impl DeepView for RedactedMessageContent {
    type V = RedactedMessageContent;

    open spec fn deep_view(&self) -> RedactedMessageContent {
        *self
    }
}

/// A message's content: the tagged decode is attempted first, and on failure
/// the redacted shape is taken instead.
#[derive(Debug, PartialEq)]
pub enum RoomMessageOptionType {
    Message(RoomMessageTypes),
    Redacted(RedactedMessageContent),
}

#[verifier::ext_equal]
pub enum RoomMessageOptionTypeView {
    Message(RoomMessageTypesView),
    Redacted,
}

impl DeepView for RoomMessageOptionType {
    type V = RoomMessageOptionTypeView;

    open spec fn deep_view(&self) -> RoomMessageOptionTypeView {
        match self {
            RoomMessageOptionType::Message(m) => RoomMessageOptionTypeView::Message(m.deep_view()),
            RoomMessageOptionType::Redacted(_) => RoomMessageOptionTypeView::Redacted,
        }
    }
}

// ---------------------------------------------------------------------------
// The event union
// ---------------------------------------------------------------------------

/// One decoded event: a known kind selected by the wire `type` discriminator,
/// or `Unknown` for anything the decoder does not recognize.
#[derive(Debug, PartialEq)]
pub enum Event {
    Unknown,
    Typing(EventContainer<TypingEvent>),
    RoomPowerLevels(EventContainer<RoomPowerLevelsEvent>),
    RoomHistoryVisibility(EventContainer<RoomHistoryVisibilityEvent>),
    RoomTopic(EventContainer<RoomTopicEvent>),
    Receipt(EventContainer<Vec<(String, ReceiptEvent)>>),
    Presence(EventContainer<PresenceEvent>),
    RoomMember(EventContainer<RoomMemberEvent>),
    RoomAlias(EventContainer<RoomAliasEvent>),
    RoomCanonicalAlias(EventContainer<RoomCanonicalAliasEvent>),
    RoomCreate(EventContainer<RoomCreateEvent>),
    RoomAvatar(EventContainer<RoomAvatarEvent>),
    RoomJoinRules(EventContainer<RoomJoinRulesEvent>),
    RoomMessage(EventContainer<RoomMessageOptionType>),
    RoomName(EventContainer<RoomNameEvent>),
    RoomGuestAccess(EventContainer<GuestAccessEvent>),
    RoomRedaction(EventContainer<RoomRedactionEvent>),
}

#[verifier::ext_equal]
pub enum EventView {
    Unknown,
    Typing(EventContainerView<TypingEventView>),
    RoomPowerLevels(EventContainerView<RoomPowerLevelsEventView>),
    RoomHistoryVisibility(EventContainerView<RoomHistoryVisibilityEventView>),
    RoomTopic(EventContainerView<RoomTopicEventView>),
    Receipt(EventContainerView<Seq<(Seq<char>, ReceiptEventView)>>),
    Presence(EventContainerView<PresenceEventView>),
    RoomMember(EventContainerView<RoomMemberEventView>),
    RoomAlias(EventContainerView<RoomAliasEventView>),
    RoomCanonicalAlias(EventContainerView<RoomCanonicalAliasEventView>),
    RoomCreate(EventContainerView<RoomCreateEventView>),
    RoomAvatar(EventContainerView<RoomAvatarEventView>),
    RoomJoinRules(EventContainerView<RoomJoinRulesEventView>),
    RoomMessage(EventContainerView<RoomMessageOptionTypeView>),
    RoomName(EventContainerView<RoomNameEventView>),
    RoomGuestAccess(EventContainerView<GuestAccessEvent>),
    RoomRedaction(EventContainerView<RoomRedactionEventView>),
}

impl DeepView for Event {
    type V = EventView;

    open spec fn deep_view(&self) -> EventView {
        match self {
            Event::Unknown => EventView::Unknown,
            Event::Typing(c) => EventView::Typing(c.deep_view()),
            Event::RoomPowerLevels(c) => EventView::RoomPowerLevels(c.deep_view()),
            Event::RoomHistoryVisibility(c) => EventView::RoomHistoryVisibility(c.deep_view()),
            Event::RoomTopic(c) => EventView::RoomTopic(c.deep_view()),
            Event::Receipt(c) => EventView::Receipt(c.deep_view()),
            Event::Presence(c) => EventView::Presence(c.deep_view()),
            Event::RoomMember(c) => EventView::RoomMember(c.deep_view()),
            Event::RoomAlias(c) => EventView::RoomAlias(c.deep_view()),
            Event::RoomCanonicalAlias(c) => EventView::RoomCanonicalAlias(c.deep_view()),
            Event::RoomCreate(c) => EventView::RoomCreate(c.deep_view()),
            Event::RoomAvatar(c) => EventView::RoomAvatar(c.deep_view()),
            Event::RoomJoinRules(c) => EventView::RoomJoinRules(c.deep_view()),
            Event::RoomMessage(c) => EventView::RoomMessage(c.deep_view()),
            Event::RoomName(c) => EventView::RoomName(c.deep_view()),
            Event::RoomGuestAccess(c) => EventView::RoomGuestAccess(c.deep_view()),
            Event::RoomRedaction(c) => EventView::RoomRedaction(c.deep_view()),
        }
    }
}

impl Default for Event {
    /// The default event is the catch-all kind.
    fn default() -> (r: Event)
        ensures
            r is Unknown,
    {
        Event::Unknown
    }
}

} // verus!
