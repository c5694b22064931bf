//! Frames of the pipeline and their decoding.
//!
//! A frame is the JSON text of an envelope, `{"type": .., "content": ..}`. The
//! type names the kind of event, the content carries its record, as it is or
//! as a JSON string with the record's document inside. A type that this
//! library does not know is no error: the frame decodes as
//! [`WebSocketMessage::Unknown`].

use vstd::prelude::*;
use crate::json::{json_document, parse_json, Json, JsonValue};
use crate::text::str_eq;
use super::decode::{
    agrees, decode_value, spec_decode_value, DecodeFault, DecodeFaultView, Decoded, Payload,
};
use super::types::{

    ContentRefreshContent, ContentRefreshContentView, FriendActiveContent, FriendActiveContentView,
    FriendAddContent, FriendAddContentView, FriendDeleteContent, FriendDeleteContentView,
    FriendLocationContent, FriendLocationContentView, FriendOfflineContent,
    FriendOfflineContentView, FriendOnlineContent, FriendOnlineContentView, FriendUpdateContent,
    FriendUpdateContentView, GroupChangedContent, GroupChangedContentView,
    GroupMemberUpdatedContent, GroupMemberUpdatedContentView, GroupRoleUpdatedContent,
    GroupRoleUpdatedContentView, InstanceQueueJoinedContent, InstanceQueueJoinedContentView,
    InstanceQueueReadyContent, InstanceQueueReadyContentView, ModifiedImageUpdateContent,
    ModifiedImageUpdateContentView, NotificationPayload, NotificationPayloadView,
    NotificationV2DeletePayload, NotificationV2DeletePayloadView, NotificationV2Payload,
    NotificationV2PayloadView, NotificationV2UpdatePayload, NotificationV2UpdatePayloadView,
    ResponseNotificationContent, ResponseNotificationContentView, UserBadgeAssignedContent,
    UserBadgeAssignedContentView, UserBadgeUnassignedContent, UserBadgeUnassignedContentView,
    UserLocationContent, UserLocationContentView, UserUpdateContent, UserUpdateContentView,
};

verus! {

/// A record that arrived in a content, read as it was or out of the JSON
/// string that held it.
#[derive(Debug, Clone)]
pub struct DoubleEncoded<T> {
    inner: T,
}

impl<T: View> View for DoubleEncoded<T> {
    type V = T::V;

    closed spec fn view(&self) -> T::V {
        self.inner@
    }
}

impl<T: View> DoubleEncoded<T> {
    /// Wraps a record.
    pub fn new(inner: T) -> (r: Self)
        ensures
            r@ == inner@,
    {
        DoubleEncoded { inner }
    }

    /// The record.
    pub fn into_inner(self) -> (r: T)
        ensures
            r@ == self@,
    {
        self.inner
    }

    /// The record, borrowed.
    pub fn as_inner(&self) -> (r: &T)
        ensures
            r@ == self@,
    {
        &self.inner
    }
}

/// The kinds of event that this library knows.
#[derive(Debug, Clone, Copy, PartialEq, Eq, Structural)]
pub enum EventKind {
    /// `notification`
    Notification,
    /// `response-notification`
    ResponseNotification,
    /// `see-notification`
    SeeNotification,
    /// `hide-notification`
    HideNotification,
    /// `clear-notification`
    ClearNotification,
    /// `notification-v2`
    NotificationV2,
    /// `notification-v2-update`
    NotificationV2Update,
    /// `notification-v2-delete`
    NotificationV2Delete,
    /// `friend-add`
    FriendAdd,
    /// `friend-delete`
    FriendDelete,
    /// `friend-update`
    FriendUpdate,
    /// `friend-online`
    FriendOnline,
    /// `friend-active`
    FriendActive,
    /// `friend-offline`
    FriendOffline,
    /// `friend-location`
    FriendLocation,
    /// `user-update`
    UserUpdate,
    /// `user-location`
    UserLocation,
    /// `user-badge-assigned`
    UserBadgeAssigned,
    /// `user-badge-unassigned`
    UserBadgeUnassigned,
    /// `content-refresh`
    ContentRefresh,
    /// `modified-image-update`
    ModifiedImageUpdate,
    /// `instance-queue-joined`
    InstanceQueueJoined,
    /// `instance-queue-ready`
    InstanceQueueReady,
    /// `group-joined`
    GroupJoined,
    /// `group-left`
    GroupLeft,
    /// `group-member-updated`
    GroupMemberUpdated,
    /// `group-role-updated`
    GroupRoleUpdated,
}

impl EventKind {
    /// The name of the kind in the `type` of an envelope.
    pub open spec fn tag(self) -> Seq<char> {
        match self {
            EventKind::Notification => "notification"@,
            EventKind::ResponseNotification => "response-notification"@,
            EventKind::SeeNotification => "see-notification"@,
            EventKind::HideNotification => "hide-notification"@,
            EventKind::ClearNotification => "clear-notification"@,
            EventKind::NotificationV2 => "notification-v2"@,
            EventKind::NotificationV2Update => "notification-v2-update"@,
            EventKind::NotificationV2Delete => "notification-v2-delete"@,
            EventKind::FriendAdd => "friend-add"@,
            EventKind::FriendDelete => "friend-delete"@,
            EventKind::FriendUpdate => "friend-update"@,
            EventKind::FriendOnline => "friend-online"@,
            EventKind::FriendActive => "friend-active"@,
            EventKind::FriendOffline => "friend-offline"@,
            EventKind::FriendLocation => "friend-location"@,
            EventKind::UserUpdate => "user-update"@,
            EventKind::UserLocation => "user-location"@,
            EventKind::UserBadgeAssigned => "user-badge-assigned"@,
            EventKind::UserBadgeUnassigned => "user-badge-unassigned"@,
            EventKind::ContentRefresh => "content-refresh"@,
            EventKind::ModifiedImageUpdate => "modified-image-update"@,
            EventKind::InstanceQueueJoined => "instance-queue-joined"@,
            EventKind::InstanceQueueReady => "instance-queue-ready"@,
            EventKind::GroupJoined => "group-joined"@,
            EventKind::GroupLeft => "group-left"@,
            EventKind::GroupMemberUpdated => "group-member-updated"@,
            EventKind::GroupRoleUpdated => "group-role-updated"@,
        }
    }

    /// The kind that a `type` names; `None` for a type that is not known.
    pub open spec fn tagged(tag: Seq<char>) -> Option<EventKind> {
        if tag == "notification"@ {
            Some(EventKind::Notification)
        } else if tag == "response-notification"@ {
            Some(EventKind::ResponseNotification)
        } else if tag == "see-notification"@ {
            Some(EventKind::SeeNotification)
        } else if tag == "hide-notification"@ {
            Some(EventKind::HideNotification)
        } else if tag == "clear-notification"@ {
            Some(EventKind::ClearNotification)
        } else if tag == "notification-v2"@ {
            Some(EventKind::NotificationV2)
        } else if tag == "notification-v2-update"@ {
            Some(EventKind::NotificationV2Update)
        } else if tag == "notification-v2-delete"@ {
            Some(EventKind::NotificationV2Delete)
        } else if tag == "friend-add"@ {
            Some(EventKind::FriendAdd)
        } else if tag == "friend-delete"@ {
            Some(EventKind::FriendDelete)
        } else if tag == "friend-update"@ {
            Some(EventKind::FriendUpdate)
        } else if tag == "friend-online"@ {
            Some(EventKind::FriendOnline)
        } else if tag == "friend-active"@ {
            Some(EventKind::FriendActive)
        } else if tag == "friend-offline"@ {
            Some(EventKind::FriendOffline)
        } else if tag == "friend-location"@ {
            Some(EventKind::FriendLocation)
        } else if tag == "user-update"@ {
            Some(EventKind::UserUpdate)
        } else if tag == "user-location"@ {
            Some(EventKind::UserLocation)
        } else if tag == "user-badge-assigned"@ {
            Some(EventKind::UserBadgeAssigned)
        } else if tag == "user-badge-unassigned"@ {
            Some(EventKind::UserBadgeUnassigned)
        } else if tag == "content-refresh"@ {
            Some(EventKind::ContentRefresh)
        } else if tag == "modified-image-update"@ {
            Some(EventKind::ModifiedImageUpdate)
        } else if tag == "instance-queue-joined"@ {
            Some(EventKind::InstanceQueueJoined)
        } else if tag == "instance-queue-ready"@ {
            Some(EventKind::InstanceQueueReady)
        } else if tag == "group-joined"@ {
            Some(EventKind::GroupJoined)
        } else if tag == "group-left"@ {
            Some(EventKind::GroupLeft)
        } else if tag == "group-member-updated"@ {
            Some(EventKind::GroupMemberUpdated)
        } else if tag == "group-role-updated"@ {
            Some(EventKind::GroupRoleUpdated)
        } else {
            None
        }
    }

    /// Whether the content of the kind is a record with members, so that a
    /// JSON string can only be its wrapping: every kind but the two whose
    /// content is a string itself and the one without content.
    pub open spec fn carries_record(self) -> bool {
        self != EventKind::SeeNotification && self != EventKind::HideNotification && self
            != EventKind::ClearNotification
    }

    /// Reads the `type` of an envelope.
    pub fn from_tag(tag: &str) -> (r: Option<EventKind>)
        ensures
            r == EventKind::tagged(tag@),
    {
        if str_eq(tag, "notification") {
            Some(EventKind::Notification)
        } else if str_eq(tag, "response-notification") {
            Some(EventKind::ResponseNotification)
        } else if str_eq(tag, "see-notification") {
            Some(EventKind::SeeNotification)
        } else if str_eq(tag, "hide-notification") {
            Some(EventKind::HideNotification)
        } else if str_eq(tag, "clear-notification") {
            Some(EventKind::ClearNotification)
        } else if str_eq(tag, "notification-v2") {
            Some(EventKind::NotificationV2)
        } else if str_eq(tag, "notification-v2-update") {
            Some(EventKind::NotificationV2Update)
        } else if str_eq(tag, "notification-v2-delete") {
            Some(EventKind::NotificationV2Delete)
        } else if str_eq(tag, "friend-add") {
            Some(EventKind::FriendAdd)
        } else if str_eq(tag, "friend-delete") {
            Some(EventKind::FriendDelete)
        } else if str_eq(tag, "friend-update") {
            Some(EventKind::FriendUpdate)
        } else if str_eq(tag, "friend-online") {
            Some(EventKind::FriendOnline)
        } else if str_eq(tag, "friend-active") {
            Some(EventKind::FriendActive)
        } else if str_eq(tag, "friend-offline") {
            Some(EventKind::FriendOffline)
        } else if str_eq(tag, "friend-location") {
            Some(EventKind::FriendLocation)
        } else if str_eq(tag, "user-update") {
            Some(EventKind::UserUpdate)
        } else if str_eq(tag, "user-location") {
            Some(EventKind::UserLocation)
        } else if str_eq(tag, "user-badge-assigned") {
            Some(EventKind::UserBadgeAssigned)
        } else if str_eq(tag, "user-badge-unassigned") {
            Some(EventKind::UserBadgeUnassigned)
        } else if str_eq(tag, "content-refresh") {
            Some(EventKind::ContentRefresh)
        } else if str_eq(tag, "modified-image-update") {
            Some(EventKind::ModifiedImageUpdate)
        } else if str_eq(tag, "instance-queue-joined") {
            Some(EventKind::InstanceQueueJoined)
        } else if str_eq(tag, "instance-queue-ready") {
            Some(EventKind::InstanceQueueReady)
        } else if str_eq(tag, "group-joined") {
            Some(EventKind::GroupJoined)
        } else if str_eq(tag, "group-left") {
            Some(EventKind::GroupLeft)
        } else if str_eq(tag, "group-member-updated") {
            Some(EventKind::GroupMemberUpdated)
        } else if str_eq(tag, "group-role-updated") {
            Some(EventKind::GroupRoleUpdated)
        } else {
            None
        }
    }
}

/// An event of the pipeline.
#[derive(Debug, Clone)]
pub enum WebSocketMessage {
    /// A notification of the first generation came in.
    Notification(DoubleEncoded<NotificationPayload>),
    /// A notification was answered.
    ResponseNotification(DoubleEncoded<ResponseNotificationContent>),
    /// The notification with this id was seen.
    SeeNotification(DoubleEncoded<String>),
    /// The notification with this id is to be hidden.
    HideNotification(DoubleEncoded<String>),
    /// All notifications are to be cleared.
    ClearNotification,
    /// A notification of the second generation came in.
    NotificationV2(DoubleEncoded<NotificationV2Payload>),
    /// A notification of the second generation changed.
    NotificationV2Update(DoubleEncoded<NotificationV2UpdatePayload>),
    /// Notifications of the second generation are to be dropped.
    NotificationV2Delete(DoubleEncoded<NotificationV2DeletePayload>),
    /// A user became a friend.
    FriendAdd(DoubleEncoded<FriendAddContent>),
    /// A user is a friend no longer.
    FriendDelete(DoubleEncoded<FriendDeleteContent>),
    /// A friend changed their record.
    FriendUpdate(DoubleEncoded<FriendUpdateContent>),
    /// A friend came online.
    FriendOnline(DoubleEncoded<FriendOnlineContent>),
    /// A friend became active outside the game.
    FriendActive(DoubleEncoded<FriendActiveContent>),
    /// A friend went offline.
    FriendOffline(DoubleEncoded<FriendOfflineContent>),
    /// A friend moved.
    FriendLocation(DoubleEncoded<FriendLocationContent>),
    /// The authenticated user changed their record.
    UserUpdate(DoubleEncoded<UserUpdateContent>),
    /// The authenticated user moved.
    UserLocation(DoubleEncoded<UserLocationContent>),
    /// The authenticated user got a badge.
    UserBadgeAssigned(DoubleEncoded<UserBadgeAssignedContent>),
    /// The authenticated user lost a badge.
    UserBadgeUnassigned(DoubleEncoded<UserBadgeUnassignedContent>),
    /// Content of the authenticated user changed.
    ContentRefresh(DoubleEncoded<ContentRefreshContent>),
    /// An image was processed anew.
    ModifiedImageUpdate(DoubleEncoded<ModifiedImageUpdateContent>),
    /// The authenticated user joined a queue.
    InstanceQueueJoined(DoubleEncoded<InstanceQueueJoinedContent>),
    /// The authenticated user's turn in a queue came.
    InstanceQueueReady(DoubleEncoded<InstanceQueueReadyContent>),
    /// The authenticated user joined a group.
    GroupJoined(DoubleEncoded<GroupChangedContent>),
    /// The authenticated user left a group.
    GroupLeft(DoubleEncoded<GroupChangedContent>),
    /// A membership of a group changed.
    GroupMemberUpdated(DoubleEncoded<GroupMemberUpdatedContent>),
    /// A role of a group changed.
    GroupRoleUpdated(DoubleEncoded<GroupRoleUpdatedContent>),
    /// An event of a kind that this library does not know.
    Unknown,
}

/// The mathematical value of a [`WebSocketMessage`].
pub enum WebSocketMessageView {
    Notification(NotificationPayloadView),
    ResponseNotification(ResponseNotificationContentView),
    SeeNotification(Seq<char>),
    HideNotification(Seq<char>),
    ClearNotification,
    NotificationV2(NotificationV2PayloadView),
    NotificationV2Update(NotificationV2UpdatePayloadView),
    NotificationV2Delete(NotificationV2DeletePayloadView),
    FriendAdd(FriendAddContentView),
    FriendDelete(FriendDeleteContentView),
    FriendUpdate(FriendUpdateContentView),
    FriendOnline(FriendOnlineContentView),
    FriendActive(FriendActiveContentView),
    FriendOffline(FriendOfflineContentView),
    FriendLocation(FriendLocationContentView),
    UserUpdate(UserUpdateContentView),
    UserLocation(UserLocationContentView),
    UserBadgeAssigned(UserBadgeAssignedContentView),
    UserBadgeUnassigned(UserBadgeUnassignedContentView),
    ContentRefresh(ContentRefreshContentView),
    ModifiedImageUpdate(ModifiedImageUpdateContentView),
    InstanceQueueJoined(InstanceQueueJoinedContentView),
    InstanceQueueReady(InstanceQueueReadyContentView),
    GroupJoined(GroupChangedContentView),
    GroupLeft(GroupChangedContentView),
    GroupMemberUpdated(GroupMemberUpdatedContentView),
    GroupRoleUpdated(GroupRoleUpdatedContentView),
    Unknown,
}

impl View for WebSocketMessage {
    type V = WebSocketMessageView;

    open spec fn view(&self) -> WebSocketMessageView {
        match self {
            WebSocketMessage::Notification(p) => WebSocketMessageView::Notification(p@),
            WebSocketMessage::ResponseNotification(p) => WebSocketMessageView::ResponseNotification(
                p@,
            ),
            WebSocketMessage::SeeNotification(p) => WebSocketMessageView::SeeNotification(p@),
            WebSocketMessage::HideNotification(p) => WebSocketMessageView::HideNotification(p@),
            WebSocketMessage::ClearNotification => WebSocketMessageView::ClearNotification,
            WebSocketMessage::NotificationV2(p) => WebSocketMessageView::NotificationV2(p@),
            WebSocketMessage::NotificationV2Update(p) => WebSocketMessageView::NotificationV2Update(
                p@,
            ),
            WebSocketMessage::NotificationV2Delete(p) => WebSocketMessageView::NotificationV2Delete(
                p@,
            ),
            WebSocketMessage::FriendAdd(p) => WebSocketMessageView::FriendAdd(p@),
            WebSocketMessage::FriendDelete(p) => WebSocketMessageView::FriendDelete(p@),
            WebSocketMessage::FriendUpdate(p) => WebSocketMessageView::FriendUpdate(p@),
            WebSocketMessage::FriendOnline(p) => WebSocketMessageView::FriendOnline(p@),
            WebSocketMessage::FriendActive(p) => WebSocketMessageView::FriendActive(p@),
            WebSocketMessage::FriendOffline(p) => WebSocketMessageView::FriendOffline(p@),
            WebSocketMessage::FriendLocation(p) => WebSocketMessageView::FriendLocation(p@),
            WebSocketMessage::UserUpdate(p) => WebSocketMessageView::UserUpdate(p@),
            WebSocketMessage::UserLocation(p) => WebSocketMessageView::UserLocation(p@),
            WebSocketMessage::UserBadgeAssigned(p) => WebSocketMessageView::UserBadgeAssigned(p@),
            WebSocketMessage::UserBadgeUnassigned(p) => WebSocketMessageView::UserBadgeUnassigned(
                p@,
            ),
            WebSocketMessage::ContentRefresh(p) => WebSocketMessageView::ContentRefresh(p@),
            WebSocketMessage::ModifiedImageUpdate(p) => WebSocketMessageView::ModifiedImageUpdate(
                p@,
            ),
            WebSocketMessage::InstanceQueueJoined(p) => WebSocketMessageView::InstanceQueueJoined(
                p@,
            ),
            WebSocketMessage::InstanceQueueReady(p) => WebSocketMessageView::InstanceQueueReady(p@),
            WebSocketMessage::GroupJoined(p) => WebSocketMessageView::GroupJoined(p@),
            WebSocketMessage::GroupLeft(p) => WebSocketMessageView::GroupLeft(p@),
            WebSocketMessage::GroupMemberUpdated(p) => WebSocketMessageView::GroupMemberUpdated(p@),
            WebSocketMessage::GroupRoleUpdated(p) => WebSocketMessageView::GroupRoleUpdated(p@),
            WebSocketMessage::Unknown => WebSocketMessageView::Unknown,
        }
    }
}

impl WebSocketMessageView {
    /// The kind of the event; `None` for one of a kind that is not known.
    pub open spec fn kind(self) -> Option<EventKind> {
        match self {
            WebSocketMessageView::Notification(_) => Some(EventKind::Notification),
            WebSocketMessageView::ResponseNotification(_) => Some(EventKind::ResponseNotification),
            WebSocketMessageView::SeeNotification(_) => Some(EventKind::SeeNotification),
            WebSocketMessageView::HideNotification(_) => Some(EventKind::HideNotification),
            WebSocketMessageView::ClearNotification => Some(EventKind::ClearNotification),
            WebSocketMessageView::NotificationV2(_) => Some(EventKind::NotificationV2),
            WebSocketMessageView::NotificationV2Update(_) => Some(EventKind::NotificationV2Update),
            WebSocketMessageView::NotificationV2Delete(_) => Some(EventKind::NotificationV2Delete),
            WebSocketMessageView::FriendAdd(_) => Some(EventKind::FriendAdd),
            WebSocketMessageView::FriendDelete(_) => Some(EventKind::FriendDelete),
            WebSocketMessageView::FriendUpdate(_) => Some(EventKind::FriendUpdate),
            WebSocketMessageView::FriendOnline(_) => Some(EventKind::FriendOnline),
            WebSocketMessageView::FriendActive(_) => Some(EventKind::FriendActive),
            WebSocketMessageView::FriendOffline(_) => Some(EventKind::FriendOffline),
            WebSocketMessageView::FriendLocation(_) => Some(EventKind::FriendLocation),
            WebSocketMessageView::UserUpdate(_) => Some(EventKind::UserUpdate),
            WebSocketMessageView::UserLocation(_) => Some(EventKind::UserLocation),
            WebSocketMessageView::UserBadgeAssigned(_) => Some(EventKind::UserBadgeAssigned),
            WebSocketMessageView::UserBadgeUnassigned(_) => Some(EventKind::UserBadgeUnassigned),
            WebSocketMessageView::ContentRefresh(_) => Some(EventKind::ContentRefresh),
            WebSocketMessageView::ModifiedImageUpdate(_) => Some(EventKind::ModifiedImageUpdate),
            WebSocketMessageView::InstanceQueueJoined(_) => Some(EventKind::InstanceQueueJoined),
            WebSocketMessageView::InstanceQueueReady(_) => Some(EventKind::InstanceQueueReady),
            WebSocketMessageView::GroupJoined(_) => Some(EventKind::GroupJoined),
            WebSocketMessageView::GroupLeft(_) => Some(EventKind::GroupLeft),
            WebSocketMessageView::GroupMemberUpdated(_) => Some(EventKind::GroupMemberUpdated),
            WebSocketMessageView::GroupRoleUpdated(_) => Some(EventKind::GroupRoleUpdated),
            WebSocketMessageView::Unknown => None,
        }
    }
}

/// The record in a content that must be there.
pub open spec fn spec_payload<T: Payload>(content: Option<JsonValue>) -> Decoded<T::V> {
    match content {
        None => Err(DecodeFaultView::MissingField("content"@)),
        Some(c) => spec_decode_value::<T>(c),
    }
}

/// Reads the record in a content that must be there.
pub fn payload<T: Payload>(content: Option<&Json>) -> (r: Result<DoubleEncoded<T>, DecodeFault>)
    ensures
        agrees(r, spec_payload::<T>(view_content(content))),
{
    match content {
        None => Err(DecodeFault::MissingField("content")),
        Some(c) => match decode_value::<T>(c) {
            Ok(record) => Ok(DoubleEncoded::new(record)),
            Err(f) => Err(f),
        },
    }
}

/// The view of a content that may be missing.
pub open spec fn view_content(content: Option<&Json>) -> Option<JsonValue> {
    match content {
        Some(c) => Some(c@),
        None => None,
    }
}

/// The event of a kind that a content stands for.
pub open spec fn spec_decode_content(kind: EventKind, content: Option<JsonValue>) -> Decoded<
    WebSocketMessageView,
> {
    match kind {
        EventKind::Notification => match spec_payload::<NotificationPayload>(content) {
            Ok(p) => Ok(WebSocketMessageView::Notification(p)),
            Err(f) => Err(f),
        },
        EventKind::ResponseNotification => match spec_payload::<ResponseNotificationContent>(
            content,
        ) {
            Ok(p) => Ok(WebSocketMessageView::ResponseNotification(p)),
            Err(f) => Err(f),
        },
        EventKind::SeeNotification => match spec_payload::<String>(content) {
            Ok(p) => Ok(WebSocketMessageView::SeeNotification(p)),
            Err(f) => Err(f),
        },
        EventKind::HideNotification => match spec_payload::<String>(content) {
            Ok(p) => Ok(WebSocketMessageView::HideNotification(p)),
            Err(f) => Err(f),
        },
        EventKind::ClearNotification => match content {
            None => Ok(WebSocketMessageView::ClearNotification),
            Some(JsonValue::Null) => Ok(WebSocketMessageView::ClearNotification),
            Some(_) => Err(DecodeFaultView::NotEmpty),
        },
        EventKind::NotificationV2 => match spec_payload::<NotificationV2Payload>(content) {
            Ok(p) => Ok(WebSocketMessageView::NotificationV2(p)),
            Err(f) => Err(f),
        },
        EventKind::NotificationV2Update => match spec_payload::<NotificationV2UpdatePayload>(
            content,
        ) {
            Ok(p) => Ok(WebSocketMessageView::NotificationV2Update(p)),
            Err(f) => Err(f),
        },
        EventKind::NotificationV2Delete => match spec_payload::<NotificationV2DeletePayload>(
            content,
        ) {
            Ok(p) => Ok(WebSocketMessageView::NotificationV2Delete(p)),
            Err(f) => Err(f),
        },
        EventKind::FriendAdd => match spec_payload::<FriendAddContent>(content) {
            Ok(p) => Ok(WebSocketMessageView::FriendAdd(p)),
            Err(f) => Err(f),
        },
        EventKind::FriendDelete => match spec_payload::<FriendDeleteContent>(content) {
            Ok(p) => Ok(WebSocketMessageView::FriendDelete(p)),
            Err(f) => Err(f),
        },
        EventKind::FriendUpdate => match spec_payload::<FriendUpdateContent>(content) {
            Ok(p) => Ok(WebSocketMessageView::FriendUpdate(p)),
            Err(f) => Err(f),
        },
        EventKind::FriendOnline => match spec_payload::<FriendOnlineContent>(content) {
            Ok(p) => Ok(WebSocketMessageView::FriendOnline(p)),
            Err(f) => Err(f),
        },
        EventKind::FriendActive => match spec_payload::<FriendActiveContent>(content) {
            Ok(p) => Ok(WebSocketMessageView::FriendActive(p)),
            Err(f) => Err(f),
        },
        EventKind::FriendOffline => match spec_payload::<FriendOfflineContent>(content) {
            Ok(p) => Ok(WebSocketMessageView::FriendOffline(p)),
            Err(f) => Err(f),
        },
        EventKind::FriendLocation => match spec_payload::<FriendLocationContent>(content) {
            Ok(p) => Ok(WebSocketMessageView::FriendLocation(p)),
            Err(f) => Err(f),
        },
        EventKind::UserUpdate => match spec_payload::<UserUpdateContent>(content) {
            Ok(p) => Ok(WebSocketMessageView::UserUpdate(p)),
            Err(f) => Err(f),
        },
        EventKind::UserLocation => match spec_payload::<UserLocationContent>(content) {
            Ok(p) => Ok(WebSocketMessageView::UserLocation(p)),
            Err(f) => Err(f),
        },
        EventKind::UserBadgeAssigned => match spec_payload::<UserBadgeAssignedContent>(content) {
            Ok(p) => Ok(WebSocketMessageView::UserBadgeAssigned(p)),
            Err(f) => Err(f),
        },
        EventKind::UserBadgeUnassigned => match spec_payload::<UserBadgeUnassignedContent>(
            content,
        ) {
            Ok(p) => Ok(WebSocketMessageView::UserBadgeUnassigned(p)),
            Err(f) => Err(f),
        },
        EventKind::ContentRefresh => match spec_payload::<ContentRefreshContent>(content) {
            Ok(p) => Ok(WebSocketMessageView::ContentRefresh(p)),
            Err(f) => Err(f),
        },
        EventKind::ModifiedImageUpdate => match spec_payload::<ModifiedImageUpdateContent>(
            content,
        ) {
            Ok(p) => Ok(WebSocketMessageView::ModifiedImageUpdate(p)),
            Err(f) => Err(f),
        },
        EventKind::InstanceQueueJoined => match spec_payload::<InstanceQueueJoinedContent>(
            content,
        ) {
            Ok(p) => Ok(WebSocketMessageView::InstanceQueueJoined(p)),
            Err(f) => Err(f),
        },
        EventKind::InstanceQueueReady => match spec_payload::<InstanceQueueReadyContent>(content) {
            Ok(p) => Ok(WebSocketMessageView::InstanceQueueReady(p)),
            Err(f) => Err(f),
        },
        EventKind::GroupJoined => match spec_payload::<GroupChangedContent>(content) {
            Ok(p) => Ok(WebSocketMessageView::GroupJoined(p)),
            Err(f) => Err(f),
        },
        EventKind::GroupLeft => match spec_payload::<GroupChangedContent>(content) {
            Ok(p) => Ok(WebSocketMessageView::GroupLeft(p)),
            Err(f) => Err(f),
        },
        EventKind::GroupMemberUpdated => match spec_payload::<GroupMemberUpdatedContent>(content) {
            Ok(p) => Ok(WebSocketMessageView::GroupMemberUpdated(p)),
            Err(f) => Err(f),
        },
        EventKind::GroupRoleUpdated => match spec_payload::<GroupRoleUpdatedContent>(content) {
            Ok(p) => Ok(WebSocketMessageView::GroupRoleUpdated(p)),
            Err(f) => Err(f),
        },
    }
}

/// Reads the event of a kind from a content.
///
/// A kind with a record needs its content; the kind without one takes a
/// missing content or `null`.
pub fn decode_content(kind: EventKind, content: Option<&Json>) -> (r: Result<
    WebSocketMessage,
    DecodeFault,
>)
    ensures
        agrees(r, spec_decode_content(kind, view_content(content))),
{
    match kind {
        EventKind::Notification => match payload::<NotificationPayload>(content) {
            Ok(p) => Ok(WebSocketMessage::Notification(p)),
            Err(f) => Err(f),
        },
        EventKind::ResponseNotification => match payload::<ResponseNotificationContent>(content) {
            Ok(p) => Ok(WebSocketMessage::ResponseNotification(p)),
            Err(f) => Err(f),
        },
        EventKind::SeeNotification => match payload::<String>(content) {
            Ok(p) => Ok(WebSocketMessage::SeeNotification(p)),
            Err(f) => Err(f),
        },
        EventKind::HideNotification => match payload::<String>(content) {
            Ok(p) => Ok(WebSocketMessage::HideNotification(p)),
            Err(f) => Err(f),
        },
        EventKind::ClearNotification => match content {
            None => Ok(WebSocketMessage::ClearNotification),
            Some(Json::Null) => Ok(WebSocketMessage::ClearNotification),
            Some(_) => Err(DecodeFault::NotEmpty),
        },
        EventKind::NotificationV2 => match payload::<NotificationV2Payload>(content) {
            Ok(p) => Ok(WebSocketMessage::NotificationV2(p)),
            Err(f) => Err(f),
        },
        EventKind::NotificationV2Update => match payload::<NotificationV2UpdatePayload>(content) {
            Ok(p) => Ok(WebSocketMessage::NotificationV2Update(p)),
            Err(f) => Err(f),
        },
        EventKind::NotificationV2Delete => match payload::<NotificationV2DeletePayload>(content) {
            Ok(p) => Ok(WebSocketMessage::NotificationV2Delete(p)),
            Err(f) => Err(f),
        },
        EventKind::FriendAdd => match payload::<FriendAddContent>(content) {
            Ok(p) => Ok(WebSocketMessage::FriendAdd(p)),
            Err(f) => Err(f),
        },
        EventKind::FriendDelete => match payload::<FriendDeleteContent>(content) {
            Ok(p) => Ok(WebSocketMessage::FriendDelete(p)),
            Err(f) => Err(f),
        },
        EventKind::FriendUpdate => match payload::<FriendUpdateContent>(content) {
            Ok(p) => Ok(WebSocketMessage::FriendUpdate(p)),
            Err(f) => Err(f),
        },
        EventKind::FriendOnline => match payload::<FriendOnlineContent>(content) {
            Ok(p) => Ok(WebSocketMessage::FriendOnline(p)),
            Err(f) => Err(f),
        },
        EventKind::FriendActive => match payload::<FriendActiveContent>(content) {
            Ok(p) => Ok(WebSocketMessage::FriendActive(p)),
            Err(f) => Err(f),
        },
        EventKind::FriendOffline => match payload::<FriendOfflineContent>(content) {
            Ok(p) => Ok(WebSocketMessage::FriendOffline(p)),
            Err(f) => Err(f),
        },
        EventKind::FriendLocation => match payload::<FriendLocationContent>(content) {
            Ok(p) => Ok(WebSocketMessage::FriendLocation(p)),
            Err(f) => Err(f),
        },
        EventKind::UserUpdate => match payload::<UserUpdateContent>(content) {
            Ok(p) => Ok(WebSocketMessage::UserUpdate(p)),
            Err(f) => Err(f),
        },
        EventKind::UserLocation => match payload::<UserLocationContent>(content) {
            Ok(p) => Ok(WebSocketMessage::UserLocation(p)),
            Err(f) => Err(f),
        },
        EventKind::UserBadgeAssigned => match payload::<UserBadgeAssignedContent>(content) {
            Ok(p) => Ok(WebSocketMessage::UserBadgeAssigned(p)),
            Err(f) => Err(f),
        },
        EventKind::UserBadgeUnassigned => match payload::<UserBadgeUnassignedContent>(content) {
            Ok(p) => Ok(WebSocketMessage::UserBadgeUnassigned(p)),
            Err(f) => Err(f),
        },
        EventKind::ContentRefresh => match payload::<ContentRefreshContent>(content) {
            Ok(p) => Ok(WebSocketMessage::ContentRefresh(p)),
            Err(f) => Err(f),
        },
        EventKind::ModifiedImageUpdate => match payload::<ModifiedImageUpdateContent>(content) {
            Ok(p) => Ok(WebSocketMessage::ModifiedImageUpdate(p)),
            Err(f) => Err(f),
        },
        EventKind::InstanceQueueJoined => match payload::<InstanceQueueJoinedContent>(content) {
            Ok(p) => Ok(WebSocketMessage::InstanceQueueJoined(p)),
            Err(f) => Err(f),
        },
        EventKind::InstanceQueueReady => match payload::<InstanceQueueReadyContent>(content) {
            Ok(p) => Ok(WebSocketMessage::InstanceQueueReady(p)),
            Err(f) => Err(f),
        },
        EventKind::GroupJoined => match payload::<GroupChangedContent>(content) {
            Ok(p) => Ok(WebSocketMessage::GroupJoined(p)),
            Err(f) => Err(f),
        },
        EventKind::GroupLeft => match payload::<GroupChangedContent>(content) {
            Ok(p) => Ok(WebSocketMessage::GroupLeft(p)),
            Err(f) => Err(f),
        },
        EventKind::GroupMemberUpdated => match payload::<GroupMemberUpdatedContent>(content) {
            Ok(p) => Ok(WebSocketMessage::GroupMemberUpdated(p)),
            Err(f) => Err(f),
        },
        EventKind::GroupRoleUpdated => match payload::<GroupRoleUpdatedContent>(content) {
            Ok(p) => Ok(WebSocketMessage::GroupRoleUpdated(p)),
            Err(f) => Err(f),
        },
    }
}

/// Why a frame does not decode.
#[derive(Debug, Clone, PartialEq, Eq)]
pub enum DecodeError {
    /// The frame is no JSON text; the parser's message.
    Syntax(String),
    /// The frame is no envelope: no object, or without a `type` that is a
    /// string.
    Envelope(DecodeFault),
    /// The content is not what the kind of the frame carries.
    Payload { kind: EventKind, fault: DecodeFault },
}

/// The mathematical value of a [`DecodeError`].
pub enum DecodeErrorView {
    Syntax(Seq<char>),
    Envelope(DecodeFaultView),
    Payload { kind: EventKind, fault: DecodeFaultView },
}

impl View for DecodeError {
    type V = DecodeErrorView;

    open spec fn view(&self) -> DecodeErrorView {
        match self {
            DecodeError::Syntax(message) => DecodeErrorView::Syntax(message@),
            DecodeError::Envelope(fault) => DecodeErrorView::Envelope(fault@),
            DecodeError::Payload { kind, fault } => DecodeErrorView::Payload {
                kind: *kind,
                fault: fault@,
            },
        }
    }
}

/// Whether the outcome of the decoding of a frame is a given one in value:
/// the same event, or the same error.
pub open spec fn decoded(
    r: Result<WebSocketMessage, DecodeError>,
    s: Result<WebSocketMessageView, DecodeErrorView>,
) -> bool {
    match r {
        Ok(m) => s == Ok::<WebSocketMessageView, DecodeErrorView>(m@),
        Err(e) => s == Err::<WebSocketMessageView, DecodeErrorView>(e@),
    }
}

/// The event that an envelope stands for.
///
/// The envelope is an object whose `type` is a string. A type that is not
/// known gives [`WebSocketMessageView::Unknown`], whatever else the envelope
/// holds; a known one gives what the `content` stands for under that kind.
pub open spec fn spec_decode_envelope(envelope: JsonValue) -> Result<
    WebSocketMessageView,
    DecodeErrorView,
> {
    if !(envelope is Object) {
        Err(DecodeErrorView::Envelope(DecodeFaultView::NotAnObject))
    } else {
        match envelope.member("type"@) {
            None => Err(DecodeErrorView::Envelope(DecodeFaultView::MissingField("type"@))),
            Some(JsonValue::Str(tag)) => match EventKind::tagged(tag) {
                None => Ok(WebSocketMessageView::Unknown),
                Some(kind) => match spec_decode_content(kind, envelope.member("content"@)) {
                    Ok(m) => Ok(m),
                    Err(fault) => Err(DecodeErrorView::Payload { kind, fault }),
                },
            },
            Some(_) => Err(DecodeErrorView::Envelope(DecodeFaultView::InvalidField("type"@))),
        }
    }
}

/// The event that the text of a frame stands for.
pub open spec fn spec_decode_message(text: Seq<char>) -> Result<
    WebSocketMessageView,
    DecodeErrorView,
> {
    match json_document(text) {
        Err(message) => Err(DecodeErrorView::Syntax(message)),
        Ok(envelope) => spec_decode_envelope(envelope),
    }
}

/// Reads the event from an envelope.
pub fn decode_envelope(envelope: &Json) -> (r: Result<WebSocketMessage, DecodeError>)
    ensures
        decoded(r, spec_decode_envelope(envelope@)),
{
    match envelope {
        Json::Object(_) => {},
        _ => {
            return Err(DecodeError::Envelope(DecodeFault::NotAnObject));
        },
    }
    match envelope.get("type") {
        None => Err(DecodeError::Envelope(DecodeFault::MissingField("type"))),
        Some(Json::Str(tag)) => match EventKind::from_tag(tag.as_str()) {
            None => Ok(WebSocketMessage::Unknown),
            Some(kind) => match decode_content(kind, envelope.get("content")) {
                Ok(m) => Ok(m),
                Err(fault) => Err(DecodeError::Payload { kind, fault }),
            },
        },
        Some(_) => Err(DecodeError::Envelope(DecodeFault::InvalidField("type"))),
    }
}

/// Reads the event from the text of a frame.
///
/// Fails where the text is no JSON, where it is no envelope, and where the
/// content is not what the kind carries; a type that is not known is no
/// failure. Nothing but the text decides the outcome.
pub fn decode_message(text: &str) -> (r: Result<WebSocketMessage, DecodeError>)
    ensures
        decoded(r, spec_decode_message(text@)),
{
    match parse_json(text) {
        Err(message) => Err(DecodeError::Syntax(message)),
        Ok(envelope) => decode_envelope(&envelope),
    }
}

} // verus!
