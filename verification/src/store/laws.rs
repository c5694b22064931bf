//! What holds of the relationship cache across its operations.

use vstd::prelude::*;
use crate::vrchat_api::types::user::LimitedUserFriendView;
use crate::vrchat_api::types::user::UserView;
use super::user_store::{CachedUserView, UserRelationship, UserStoreView};

verus! {

/// A user counts as online exactly when the cache holds an entry of them whose
/// location is a text other than `"offline"`, `"private"` and the empty one.
/// A user without entry, and one without location, is not online.
pub proof fn lemma_online_iff_located(store: UserStoreView, id: Seq<char>)
    ensures
        store.is_user_online(id) <==> (store.get(id) matches Some(e) && e.location matches Some(l)
            && l != ""@ && l != "offline"@ && l != "private"@),
        store.get(id) is None ==> !store.is_user_online(id),
{
    reveal_strlit("");
    match store.get(id) {
        Some(e) => {
            match e.location {
                Some(l) => {
                    assert(l.len() == 0 <==> l =~= ""@);
                },
                None => {},
            }
        },
        None => {},
    }
}

/// Merging a friend record leaves the authenticated user as they are, and
/// every entry but the record's user's.
pub proof fn lemma_upsert_friend_elsewhere(
    store: UserStoreView,
    friend: LimitedUserFriendView,
    now: u64,
    other: Seq<char>,
)
    requires
        store.wf(),
        other != friend.id,
    ensures
        store.upsert_friend(friend, now).current_user_id == store.current_user_id,
        store.upsert_friend(friend, now).get(other) == store.get(other),
{
    match store.get(friend.id) {
        Some(e) => {
            store.lemma_put(e.merge_self(friend, now));
            store.lemma_put(e.befriended(friend, now));
        },
        None => {
            store.lemma_put(CachedUserView::from_friend(friend, now));
        },
    }
}

/// A friend record of the authenticated user themselves changes neither
/// username nor bio nor relationship, in the entry or in the full profile it
/// holds, and makes no entry where there was none. It does set the status, and
/// the location where it carries one.
pub proof fn lemma_upsert_friend_self(
    store: UserStoreView,
    friend: LimitedUserFriendView,
    now: u64,
)
    requires
        store.wf(),
        store.current_user_id == Some(friend.id),
    ensures
        store.get(friend.id) is None ==> store.upsert_friend(friend, now) == store,
        store.get(friend.id) matches Some(before) ==> (store.upsert_friend(friend, now).get(
            friend.id,
        ) matches Some(after) && after.username == before.username && after.bio == before.bio
            && after.relationship == before.relationship && after.status == Some(friend.status)
            && (friend.location is Some ==> after.location == friend.location) && (
        friend.location is None ==> after.location == before.location) && (
        before.full_user matches Some(profile) ==> after.full_user matches Some(merged)
            && merged.username == profile.username && merged.bio == profile.bio && merged.status
            == friend.status)),
{
    match store.get(friend.id) {
        Some(e) => {
            store.lemma_put(e.merge_self(friend, now));
        },
        None => {},
    }
}

/// A friend record of anyone but the authenticated user makes its user a
/// friend, with the record as friend record.
pub proof fn lemma_upsert_friend_befriends(
    store: UserStoreView,
    friend: LimitedUserFriendView,
    now: u64,
)
    requires
        store.wf(),
        store.current_user_id != Some(friend.id),
    ensures
        store.upsert_friend(friend, now).get(friend.id) matches Some(e) && e.relationship
            == UserRelationship::Friend && e.friend_data == Some(friend) && e.location
            == friend.location,
{
    match store.get(friend.id) {
        Some(e) => {
            store.lemma_put(e.befriended(friend, now));
        },
        None => {
            store.lemma_put(CachedUserView::from_friend(friend, now));
        },
    }
}

/// Merging friend records one after the other leaves the authenticated user
/// as they are, and every entry of a user that none of the records is about.
pub proof fn lemma_absorb_elsewhere(
    store: UserStoreView,
    friends: Seq<LimitedUserFriendView>,
    now: u64,
    other: Seq<char>,
)
    requires
        store.wf(),
        forall|i: int| 0 <= i < friends.len() ==> friends[i].id != other,
    ensures
        store.absorb(friends, now).current_user_id == store.current_user_id,
        store.absorb(friends, now).get(other) == store.get(other),
    decreases friends.len(),
{
    if friends.len() > 0 {
        lemma_absorb_elsewhere(store, friends.drop_last(), now, other);
        store.lemma_absorb_wf(friends.drop_last(), now);
        lemma_upsert_friend_elsewhere(
            store.absorb(friends.drop_last(), now),
            friends.last(),
            now,
            other,
        );
    }
}

/// Loading a friend list demotes whoever is not on it: their entry stays, a
/// friend's as a known user's, any other as it was.
pub proof fn lemma_set_friends_demotes_absent(
    store: UserStoreView,
    friends: Seq<LimitedUserFriendView>,
    now: u64,
    id: Seq<char>,
)
    requires
        store.wf(),
        forall|i: int| 0 <= i < friends.len() ==> friends[i].id != id,
    ensures
        store.set_friends(friends, now).wf(),
        store.set_friends(friends, now).current_user_id == store.current_user_id,
        store.set_friends(friends, now).get(id) == match store.get(id) {
            Some(e) => Some(e.demoted()),
            None => None,
        },
{
    store.lemma_demote_friends();
    store.demote_friends().lemma_absorb_wf(friends, now);
    lemma_absorb_elsewhere(store.demote_friends(), friends, now, id);
}

/// Loading a friend list makes the user of its last record a friend, unless
/// they are the authenticated user.
pub proof fn lemma_set_friends_befriends_last(
    store: UserStoreView,
    friends: Seq<LimitedUserFriendView>,
    now: u64,
)
    requires
        store.wf(),
        friends.len() > 0,
        store.current_user_id != Some(friends.last().id),
    ensures
        store.set_friends(friends, now).get(friends.last().id) matches Some(e) && e.relationship
            == UserRelationship::Friend,
{
    let demoted = store.demote_friends();
    store.lemma_demote_friends();
    demoted.lemma_absorb_wf(friends.drop_last(), now);
    lemma_absorb_current(demoted, friends.drop_last(), now);
    lemma_upsert_friend_befriends(demoted.absorb(friends.drop_last(), now), friends.last(), now);
}

/// Merging friend records one after the other leaves the authenticated user
/// as they are.
pub proof fn lemma_absorb_current(
    store: UserStoreView,
    friends: Seq<LimitedUserFriendView>,
    now: u64,
)
    requires
        store.wf(),
    ensures
        store.absorb(friends, now).current_user_id == store.current_user_id,
    decreases friends.len(),
{
    if friends.len() > 0 {
        lemma_absorb_current(store, friends.drop_last(), now);
        store.lemma_absorb_wf(friends.drop_last(), now);
        let before = store.absorb(friends.drop_last(), now);
        match before.get(friends.last().id) {
            Some(e) => {
                before.lemma_put(e.merge_self(friends.last(), now));
                before.lemma_put(e.befriended(friends.last(), now));
            },
            None => {
                before.lemma_put(CachedUserView::from_friend(friends.last(), now));
            },
        }
    }
}

/// A friend who is on one load of the friend list and not on the next is
/// cached as a known user after it: neither dropped nor a friend still.
///
/// Loading no friends, then `a` and `b`, then `a` alone, leaves `b` a known
/// user, where `b` is neither `a` nor the authenticated user.
pub proof fn lemma_left_friend_is_known(
    store: UserStoreView,
    a: LimitedUserFriendView,
    b: LimitedUserFriendView,
    first: u64,
    second: u64,
    third: u64,
)
    requires
        store.wf(),
        a.id != b.id,
        store.current_user_id != Some(b.id),
    ensures
        store.set_friends(Seq::empty(), first).set_friends(seq![a, b], second).set_friends(
            seq![a],
            third,
        ).get(b.id) matches Some(e) && e.relationship == UserRelationship::Known,
{
    let s1 = store.set_friends(Seq::empty(), first);
    lemma_set_friends_demotes_absent(store, Seq::empty(), first, b.id);
    let s2 = s1.set_friends(seq![a, b], second);
    assert(seq![a, b].last() == b);
    lemma_set_friends_befriends_last(s1, seq![a, b], second);
    s1.lemma_demote_friends();
    s1.demote_friends().lemma_absorb_wf(seq![a, b], second);
    lemma_absorb_current(s1.demote_friends(), seq![a, b], second);
    lemma_set_friends_demotes_absent(s2, seq![a], third, b.id);
}

/// A fetched profile without username leaves the username of the entry it is
/// merged into as it was; and a fetched profile never changes the relationship
/// or the friend record of that entry.
pub proof fn lemma_cache_full_user_keeps(store: UserStoreView, user: UserView, now: u64)
    requires
        store.wf(),
        store.get(user.id) is Some,
    ensures
        store.cache_full_user(user, now).get(user.id) matches Some(after) && after.relationship
            == store.get(user.id)->Some_0.relationship && after.friend_data == store.get(
            user.id,
        )->Some_0.friend_data && (user.username.len() == 0 ==> after.username == store.get(
            user.id,
        )->Some_0.username) && (user.username.len() != 0 ==> after.username == Some(
            user.username,
        )),
{
    store.lemma_put(store.get(user.id)->Some_0.with_profile(user, now));
}

/// A fetched profile of a user the cache has not seen makes an entry of a
/// known user.
pub proof fn lemma_cache_full_user_new(store: UserStoreView, user: UserView, now: u64)
    requires
        store.wf(),
        store.get(user.id) is None,
    ensures
        store.cache_full_user(user, now).get(user.id) matches Some(e) && e.relationship
            == UserRelationship::Known && e.full_user == Some(user),
{
    store.lemma_put(CachedUserView::from_user(user, UserRelationship::Known, now));
}

/// Whether one of the records is about user `id`.
pub open spec fn mentions(friends: Seq<LimitedUserFriendView>, id: Seq<char>) -> bool {
    exists|i: int| 0 <= i < friends.len() && friends[i].id == id
}

/// The last of the records that is about user `id`.
pub open spec fn last_about(
    friends: Seq<LimitedUserFriendView>,
    id: Seq<char>,
) -> LimitedUserFriendView
    decreases friends.len(),
{
    if friends.len() == 0 {
        arbitrary()
    } else if friends.last().id == id {
        friends.last()
    } else {
        last_about(friends.drop_last(), id)
    }
}

/// The entry of a friend after their record was merged into what the cache
/// held of them, or into nothing.
pub open spec fn merged_into(
    prior: Option<CachedUserView>,
    friend: LimitedUserFriendView,
    now: u64,
) -> CachedUserView {
    match prior {
        Some(e) => e.befriended(friend, now),
        None => CachedUserView::from_friend(friend, now),
    }
}

/// Of several records of one friend that are merged at one reading of the
/// clock, the last one counts: merging it into what an earlier one left gives
/// what merging it alone gives. So does merging it again after a demotion.
pub proof fn lemma_last_record_counts(
    prior: Option<CachedUserView>,
    earlier: LimitedUserFriendView,
    last: LimitedUserFriendView,
    now: u64,
)
    requires
        earlier.id == last.id,
        prior matches Some(e) ==> e.id == last.id,
    ensures
        merged_into(Some(merged_into(prior, earlier, now)), last, now) == merged_into(
            prior,
            last,
            now,
        ),
        merged_into(Some(merged_into(prior, last, now).demoted()), last, now) == merged_into(
            prior,
            last,
            now,
        ),
{
}

/// What merging friend records one after the other at one reading of the
/// clock leaves of a user, where none of the records is about the
/// authenticated user: the last record about them, merged into what the cache
/// held of them; and what the cache held, where no record is about them.
pub proof fn lemma_absorb_entry(
    store: UserStoreView,
    friends: Seq<LimitedUserFriendView>,
    now: u64,
    id: Seq<char>,
)
    requires
        store.wf(),
        forall|i: int| 0 <= i < friends.len() ==> store.current_user_id != Some(friends[i].id),
        forall|e: CachedUserView| store.get(id) == Some(e) ==> e.id == id,
    ensures
        store.absorb(friends, now).get(id) == if mentions(friends, id) {
            Some(merged_into(store.get(id), last_about(friends, id), now))
        } else {
            store.get(id)
        },
    decreases friends.len(),
{
    if friends.len() > 0 {
        let front = friends.drop_last();
        let last = friends.last();
        let before = store.absorb(front, now);
        lemma_absorb_entry(store, front, now, id);
        store.lemma_absorb_wf(front, now);
        lemma_absorb_current(store, front, now);
        if last.id == id {
            assert(friends[friends.len() - 1].id == id);
            match before.get(id) {
                Some(e) => {
                    before.lemma_put(e.befriended(last, now));
                },
                None => {
                    before.lemma_put(CachedUserView::from_friend(last, now));
                },
            }
            if mentions(front, id) {
                lemma_last_about_is_about(front, id);
                lemma_last_record_counts(store.get(id), last_about(front, id), last, now);
            }
        } else {
            lemma_upsert_friend_elsewhere(before, last, now, id);
            if mentions(friends, id) {
                let k = choose|k: int| 0 <= k < friends.len() && friends[k].id == id;
                assert(front[k].id == id);
            }
            if mentions(front, id) {
                let k = choose|k: int| 0 <= k < front.len() && front[k].id == id;
                assert(friends[k].id == id);
            }
        }
    }
}

/// The last record about a user is about that user.
pub proof fn lemma_last_about_is_about(friends: Seq<LimitedUserFriendView>, id: Seq<char>)
    requires
        mentions(friends, id),
    ensures
        last_about(friends, id).id == id,
    decreases friends.len(),
{
    if friends.len() > 0 && friends.last().id != id {
        let k = choose|k: int| 0 <= k < friends.len() && friends[k].id == id;
        assert(friends.drop_last()[k].id == id);
        lemma_last_about_is_about(friends.drop_last(), id);
    }
}

/// In a cache that came about through its operations, an entry is filed
/// under its own id.
pub proof fn lemma_entry_under_own_id(store: UserStoreView, id: Seq<char>)
    ensures
        forall|e: CachedUserView| store.get(id) == Some(e) ==> e.id == id,
{
    if store.position(id) is Some {
        let i = choose|i: int| store.holds(i, id);
        assert(store.holds(i, id));
    }
}

/// Loading a friend list is idempotent: loaded a second time at the same
/// reading of the clock, the list leaves every user's entry, and the
/// authenticated user, as the first load left them. This is stated for lists
/// without a record of the authenticated user.
pub proof fn lemma_set_friends_idempotent(
    store: UserStoreView,
    friends: Seq<LimitedUserFriendView>,
    now: u64,
    id: Seq<char>,
)
    requires
        store.wf(),
        forall|i: int| 0 <= i < friends.len() ==> store.current_user_id != Some(friends[i].id),
    ensures
        store.set_friends(friends, now).set_friends(friends, now).get(id) == store.set_friends(
            friends,
            now,
        ).get(id),
        store.set_friends(friends, now).set_friends(friends, now).current_user_id
            == store.set_friends(friends, now).current_user_id,
{
    let demoted = store.demote_friends();
    store.lemma_demote_friends();
    let once = demoted.absorb(friends, now);
    demoted.lemma_absorb_wf(friends, now);
    lemma_absorb_current(demoted, friends, now);
    let again = once.demote_friends();
    once.lemma_demote_friends();
    again.lemma_absorb_wf(friends, now);
    lemma_absorb_current(again, friends, now);
    lemma_entry_under_own_id(demoted, id);
    lemma_entry_under_own_id(again, id);
    lemma_absorb_entry(demoted, friends, now, id);
    lemma_absorb_entry(again, friends, now, id);
    if mentions(friends, id) {
        lemma_last_about_is_about(friends, id);
        let last = last_about(friends, id);
        lemma_last_record_counts(demoted.get(id), last, last, now);
    } else {
        match store.get(id) {
            Some(e) => {
                assert(e.demoted().demoted() == e.demoted());
            },
            None => {},
        }
    }
}

} // verus!
