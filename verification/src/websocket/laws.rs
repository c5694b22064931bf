//! What holds of the decoding of frames and of the connection manager.

use vstd::prelude::*;
use crate::json::{json_document, JsonValue};
use super::client::{
    auth_token, spec_connect_request, ActionView, EventView, Phase, VRChatWebSocketView,
};
use super::decode::{spec_decode_value, spec_inner_document, DecodeFaultView, Payload};
use crate::store::laws::lemma_upsert_friend_befriends;
use crate::store::user_store::{location_is_online, CachedUserView, UserStoreView};
use super::dispatch::NotificationView;
use super::types::{FriendLocationContentView, FriendOfflineContentView, FriendOnlineContentView};
use super::message::{
    spec_decode_content, spec_decode_envelope, spec_decode_message, DecodeErrorView, EventKind,
    WebSocketMessageView,
};

verus! {

/// A record that is wrapped in a JSON string decodes as the record itself
/// does: where `text` is the JSON text of `content`, and no record of the
/// kind can be read from a string as such, the string with `text` and
/// `content` have the same outcome, the same record or the same fault.
pub proof fn lemma_double_encoding<T: Payload>(content: JsonValue, text: Seq<char>)
    requires
        json_document(text) == Ok::<JsonValue, Seq<char>>(content),
        T::spec_decode(JsonValue::Str(text)) is Err,
        !(content is Str),
    ensures
        spec_decode_value::<T>(JsonValue::Str(text)) == spec_decode_value::<T>(content),
        spec_decode_value::<T>(content) == T::spec_decode(content),
{
    assert(spec_inner_document(JsonValue::Str(text)) == Some(content));
    assert(spec_inner_document(content) is None);
}

/// Under every kind that carries a record, a content that holds the record
/// and a content that holds it as JSON text in a string give the same event,
/// or fail with the same fault.
pub proof fn lemma_double_encoded_content(kind: EventKind, content: JsonValue, text: Seq<char>)
    requires
        kind.carries_record(),
        json_document(text) == Ok::<JsonValue, Seq<char>>(content),
        content is Object,
    ensures
        spec_decode_content(kind, Some(JsonValue::Str(text))) == spec_decode_content(
            kind,
            Some(content),
        ),
{
    assert(spec_inner_document(JsonValue::Str(text)) == Some(content));
    assert(spec_inner_document(content) is None);
}

/// Two envelopes of one type, the content of the one a record and the content
/// of the other the JSON text of that record in a string, decode alike,
/// unless the type is one whose content is a string itself or one without
/// content.
pub proof fn lemma_double_encoded_envelope(
    single: JsonValue,
    double: JsonValue,
    content: JsonValue,
    text: Seq<char>,
)
    requires
        single is Object,
        double is Object,
        single.member("type"@) == double.member("type"@),
        single.member("content"@) == Some(content),
        double.member("content"@) == Some(JsonValue::Str(text)),
        json_document(text) == Ok::<JsonValue, Seq<char>>(content),
        content is Object,
        single.member("type"@) matches Some(JsonValue::Str(tag)) ==> (EventKind::tagged(
            tag,
        ) matches Some(kind) ==> kind.carries_record()),
    ensures
        spec_decode_envelope(double) == spec_decode_envelope(single),
{
    match single.member("type"@) {
        Some(JsonValue::Str(tag)) => {
            match EventKind::tagged(tag) {
                Some(kind) => {
                    lemma_double_encoded_content(kind, content, text);
                },
                None => {},
            }
        },
        _ => {},
    }
}

/// An envelope whose type is not known decodes as the unknown event,
/// whatever its content.
pub proof fn lemma_unknown_type(envelope: JsonValue, tag: Seq<char>)
    requires
        envelope is Object,
        envelope.member("type"@) == Some(JsonValue::Str(tag)),
        EventKind::tagged(tag) is None,
    ensures
        spec_decode_envelope(envelope) == Ok::<WebSocketMessageView, DecodeErrorView>(
            WebSocketMessageView::Unknown,
        ),
{
}

/// A frame that is the JSON text of an envelope whose type is not known
/// decodes as the unknown event.
pub proof fn lemma_unknown_frame(text: Seq<char>, envelope: JsonValue, tag: Seq<char>)
    requires
        json_document(text) == Ok::<JsonValue, Seq<char>>(envelope),
        envelope is Object,
        envelope.member("type"@) == Some(JsonValue::Str(tag)),
        EventKind::tagged(tag) is None,
    ensures
        spec_decode_message(text) == Ok::<WebSocketMessageView, DecodeErrorView>(
            WebSocketMessageView::Unknown,
        ),
{
}

/// A frame fails to decode only as no JSON, as no envelope, or with the fault
/// of the content under the kind that its type names.
pub proof fn lemma_failure_names_kind(envelope: JsonValue)
    ensures
        spec_decode_envelope(envelope) matches Err(DecodeErrorView::Payload { kind, fault })
            ==> envelope.member("type"@) == Some(JsonValue::Str(kind.tag()))
            && spec_decode_content(kind, envelope.member("content"@)) == Err::<
            WebSocketMessageView,
            DecodeFaultView,
        >(fault),
        spec_decode_envelope(envelope) matches Ok(event) ==> (event.kind() matches Some(kind)
            ==> envelope.member("type"@) == Some(JsonValue::Str(kind.tag()))),
{
    if envelope is Object {
        match envelope.member("type"@) {
            Some(JsonValue::Str(tag)) => {
                match EventKind::tagged(tag) {
                    Some(kind) => {
                        assert(kind.tag() == tag);
                    },
                    None => {},
                }
            },
            _ => {},
        }
    }
}

/// The smaller of `times` times `d` and `max`.
pub open spec fn capped(times: int, d: u64, max: u64) -> int {
    if times * d >= max {
        max as int
    } else {
        times * d
    }
}

/// Enabling a manager that is enabled changes nothing, and asks for no second
/// loop: only a manager without loop asks for one.
pub proof fn lemma_start_once(m: VRChatWebSocketView)
    ensures
        m.started().started() == m.started(),
        m.started().phase != Phase::Idle,
        m.started().running,
        m.phase != Phase::Idle ==> m.started().phase == m.phase,
{
}

/// A step keeps the manager well-formed, and changes neither the credentials
/// nor whether it is enabled nor its policy.
pub proof fn lemma_step_keeps(m: VRChatWebSocketView, event: EventView, now: u64)
    requires
        m.wf(),
    ensures
        m.step(event, now).0.policy == m.policy,
        m.step(event, now).0.running == m.running,
        m.step(event, now).0.auth_cookie == m.auth_cookie,
        m.step(event, now).0.two_factor_cookie == m.two_factor_cookie,
        m.policy.initial_delay <= m.step(event, now).0.reconnect_delay <= m.policy.max_delay,
{
}

/// A manager connects only while it is enabled and holds a session cookie
/// with a token, and only at the top of its loop: without credentials no
/// event makes it attempt a connection.
pub proof fn lemma_connect_needs_credentials(m: VRChatWebSocketView, event: EventView, now: u64)
    ensures
        m.step(event, now).1.action is Connect ==> (event is Wake && m.running
            && m.auth_cookie is Some && auth_token(m.auth_cookie->Some_0) is Some),
        m.auth_cookie is None ==> !(m.step(event, now).1.action is Connect),
{
}

/// An enabled manager without credentials answers the top of its loop by
/// waiting for the poll interval; once it holds a session cookie with a
/// token, the next top of the loop is a connection attempt with the request
/// that the credentials make.
pub proof fn lemma_connects_once_credentials_are_set(
    m: VRChatWebSocketView,
    auth: Seq<char>,
    second: Option<Seq<char>>,
    now: u64,
)
    requires
        m.running,
        m.auth_cookie is None,
        auth_token(auth) is Some,
    ensures
        m.step(EventView::Wake, now).1.action == ActionView::Sleep(m.policy.idle_poll),
        m.step(EventView::Wake, now).0.phase == Phase::AwaitingCredentials,
        (VRChatWebSocketView {
            auth_cookie: Some(auth),
            two_factor_cookie: second,
            ..m.step(EventView::Wake, now).0
        }).step(EventView::Wake, now).1.action == ActionView::Connect(
            spec_connect_request(auth, second)->Ok_0,
        ),
        (VRChatWebSocketView {
            auth_cookie: Some(auth),
            two_factor_cookie: second,
            ..m.step(EventView::Wake, now).0
        }).step(EventView::Wake, now).0.phase == Phase::Connecting,
{
}

/// Three failed connection attempts in a row, the first after a delay of `d`
/// was due, are answered by waits of `d`, twice `d` and four times `d`, none
/// longer than the policy's longest wait. A connection that opens after them
/// sets the delay back: when it ends, the wait is the policy's first again.
pub proof fn lemma_backoff_doubles_and_resets(m: VRChatWebSocketView, now: u64)
    requires
        m.wf(),
        m.running,
    ensures
        ({
            let d = m.reconnect_delay;
            let max = m.policy.max_delay;
            let first = m.step(EventView::ConnectFailed, now);
            let second = first.0.step(EventView::ConnectFailed, now);
            let third = second.0.step(EventView::ConnectFailed, now);
            let opened = third.0.step(EventView::Connected, now);
            let ended = opened.0.step(EventView::Close, now);
            &&& first.1.action == ActionView::Sleep(d)
            &&& second.1.action matches ActionView::Sleep(w) && w == capped(2, d, max)
            &&& third.1.action matches ActionView::Sleep(w) && w == capped(4, d, max)
            &&& opened.1.action == ActionView::Read
            &&& opened.1.notifications == seq![NotificationView::Connected]
            &&& ended.1.action == ActionView::Sleep(m.policy.initial_delay)
            &&& ended.1.notifications == seq![NotificationView::Disconnected]
        }),
{
}

/// Once the manager is disabled, the next event ends the loop, be it the top
/// of the loop, a failed attempt or a read that returned, and leaves the cache
/// as it is. An attempt that succeeds all the same is read from once.
pub proof fn lemma_stop_ends_the_loop(m: VRChatWebSocketView, event: EventView, now: u64)
    requires
        !m.running,
        !(event is Connected),
    ensures
        m.step(event, now).1.action == ActionView::Exit,
        m.step(event, now).0.phase == Phase::Idle,
        m.step(event, now).0.user_store == m.user_store,
{
}

/// The last event decides: whatever a user's entry held, after an event that
/// moves them the entry and its friend record are at the event's location,
/// and the user counts as online exactly when that location is one to be
/// online at.
pub proof fn lemma_location_is_last_write(
    store: UserStoreView,
    moved: FriendLocationContentView,
    now: u64,
)
    requires
        store.wf(),
        store.get(moved.user_id) is Some,
        moved.user is None,
    ensures
        ({
            let after = store.after(WebSocketMessageView::FriendLocation(moved), now);
            &&& after.wf()
            &&& after.get(moved.user_id) matches Some(e) && e.location == Some(moved.location)
            &&& store.get(moved.user_id)->Some_0.friend_data is Some ==> (after.friend_data(
                moved.user_id,
            ) matches Some(f) && f.location == Some(moved.location))
            &&& after.is_user_online(moved.user_id) == location_is_online(Some(moved.location))
        }),
{
    store.lemma_change(
        moved.user_id,
        |e: CachedUserView| e.moved(moved.location, None, now),
    );
}

/// A friend who comes online at one place, goes offline and is then seen at
/// another place is at that other place, and online if it is a place to be
/// online at: the events count in the order of their arrival.
pub proof fn lemma_events_apply_in_order(
    store: UserStoreView,
    online: FriendOnlineContentView,
    offline: FriendOfflineContentView,
    moved: FriendLocationContentView,
    first: u64,
    second: u64,
    third: u64,
)
    requires
        store.wf(),
        online.user.id == online.user_id,
        offline.user_id == online.user_id,
        moved.user_id == online.user_id,
        moved.user is None,
        online.location is Some,
        store.current_user_id != Some(online.user_id),
    ensures
        ({
            let id = online.user_id;
            let s1 = store.after(WebSocketMessageView::FriendOnline(online), first);
            let s2 = s1.after(WebSocketMessageView::FriendOffline(offline), second);
            let s3 = s2.after(WebSocketMessageView::FriendLocation(moved), third);
            &&& s1.friend_data(id) matches Some(f) && f.location == online.location
            &&& s2.friend_data(id) matches Some(f) && f.location == Some("offline"@)
            &&& !s2.is_user_online(id)
            &&& s3.friend_data(id) matches Some(f) && f.location == Some(moved.location)
            &&& s3.is_user_online(id) == location_is_online(Some(moved.location))
            &&& s3.is_friend(id)
        }),
{
    let id = online.user_id;
    let merged = store.upsert_friend(online.user, first);
    lemma_upsert_friend_befriends(store, online.user, first);
    store.lemma_upsert_friend_wf(online.user, first);
    merged.lemma_change(
        id,
        |e: CachedUserView| e.moved(online.location->Some_0, online.platform, first),
    );
    let s1 = store.after(WebSocketMessageView::FriendOnline(online), first);
    s1.lemma_change(id, |e: CachedUserView| e.gone_offline(second));
    let s2 = s1.after(WebSocketMessageView::FriendOffline(offline), second);
    s2.lemma_change(id, |e: CachedUserView| e.moved(moved.location, None, third));
}

} // verus!
