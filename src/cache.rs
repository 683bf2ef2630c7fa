//! Time-bounded caches for entity snapshots.
use lru_time_cache::LruCache;
use vstd::prelude::*;

use crate::model::{FriendList, Group, Member};

verus! {

/// Seconds for which a fetched value stays fresh.
pub const CACHE_DURATION_SECS: u64 = 600;

/// A value fetched at `fetched_at` is still fresh at `now`.
pub open spec fn is_fresh(fetched_at: u64, now: u64) -> bool {
    now <= fetched_at + CACHE_DURATION_SECS
}

/// Executable freshness test, free of overflow.
pub fn fresh(fetched_at: u64, now: u64) -> (r: bool)
    ensures
        r == is_fresh(fetched_at, now),
{
    now <= fetched_at || now - fetched_at <= CACHE_DURATION_SECS
}

/// What a single-slot cache serves at `now`: its value while fresh.
pub open spec fn served<T>(entry: Option<(u64, T)>, now: u64) -> Option<T> {
    match entry {
        Some((t, v)) => if is_fresh(t, now) {
            Some(v)
        } else {
            None
        },
        None => None,
    }
}

/// What a single-slot cache keeps after a read at `now`: a stale entry is dropped.
pub open spec fn retained<T>(entry: Option<(u64, T)>, now: u64) -> Option<(u64, T)> {
    if served(entry, now) is Some {
        entry
    } else {
        None
    }
}

/// What a keyed cache serves for `key` at `now`: the value stored under it while fresh.
pub open spec fn served_from<K, V>(entries: Map<K, (u64, V)>, key: K, now: u64) -> Option<V> {
    if entries.contains_key(key) && is_fresh(entries[key].0, now) {
        Some(entries[key].1)
    } else {
        None
    }
}

/// What a keyed cache keeps after a read of `key` at `now`: a stale or absent entry is gone.
pub open spec fn retained_in<K, V>(entries: Map<K, (u64, V)>, key: K, now: u64) -> Map<
    K,
    (u64, V),
> {
    if served_from(entries, key, now) is Some {
        entries
    } else {
        entries.remove(key)
    }
}

/// A single optional value together with the time it was stored.
pub struct VarCache<T> {
    val: Option<(u64, T)>,
}

impl<T: Clone> VarCache<T> {
    /// The stored entry: the time it was set and the value.
    pub closed spec fn entry(&self) -> Option<(u64, T)> {
        self.val
    }

    pub fn new() -> (r: Self)
        ensures
            r.entry() is None,
    {
        VarCache { val: None }
    }

    /// Returns a copy of the stored value while it is fresh; a stale entry is dropped.
    pub fn get(&mut self, now: u64) -> (r: Option<T>)
        ensures
            final(self).entry() == retained(old(self).entry(), now),
            match served(old(self).entry(), now) {
                Some(v) => r matches Some(x) && cloned::<T>(v, x),
                None => r is None,
            },
    {
        let stale = match &self.val {
            Some(entry) => !fresh(entry.0, now),
            None => return None,
        };
        if stale {
            self.val = None;
            None
        } else {
            match &self.val {
                Some(entry) => Some(entry.1.clone()),
                None => None,
            }
        }
    }

    /// A copy of the stored value while it is fresh, leaving the cache as it is.
    pub fn peek(&self, now: u64) -> (r: Option<T>)
        ensures
            match served(self.entry(), now) {
                Some(v) => r matches Some(x) && cloned::<T>(v, x),
                None => r is None,
            },
    {
        match &self.val {
            Some(entry) => if fresh(entry.0, now) {
                Some(entry.1.clone())
            } else {
                None
            },
            None => None,
        }
    }

    /// Stores `val` as fetched at `now` and hands a copy of it back.
    pub fn set(&mut self, val: T, now: u64) -> (r: T)
        ensures
            final(self).entry() == Some((now, val)),
            cloned::<T>(val, r),
    {
        let r = val.clone();
        self.val = Some((now, val));
        r
    }

    /// Drops the stored value.
    pub fn clear(&mut self)
        ensures
            final(self).entry() is None,
    {
        self.val = None;
    }
}

/// Most entries that a map cache keeps; the least recently used one leaves first.
pub const CACHE_CAPACITY: usize = 1024;

#[verifier::external_type_specification]
#[verifier::external_body]
#[verifier::reject_recursive_types(K)]
#[verifier::reject_recursive_types(V)]
pub struct ExLruCache<K, V>(LruCache<K, V>);

/// What an LRU cache of groups holds: group uin to (fetch time, group).
pub uninterp spec fn group_slots(c: LruCache<i64, (u64, Group)>) -> Map<i64, (u64, Group)>;

/// The capacity that an LRU cache of groups was made with.
pub uninterp spec fn group_slot_capacity(c: LruCache<i64, (u64, Group)>) -> nat;

/// What an LRU cache of members holds: (group uin, member uin) to (fetch time, member).
pub uninterp spec fn member_slots(c: LruCache<(i64, i64), (u64, Member)>) -> Map<
    (i64, i64),
    (u64, Member),
>;

/// The capacity that an LRU cache of members was made with.
pub uninterp spec fn member_slot_capacity(c: LruCache<(i64, i64), (u64, Member)>) -> nat;

/// Relies on LruCache::with_capacity: a new cache is empty and keeps its capacity.
#[verifier::external_body]
fn group_slots_new(capacity: usize) -> (r: LruCache<i64, (u64, Group)>)
    ensures
        group_slots(r).dom().is_empty(),
        group_slot_capacity(r) == capacity,
{
    LruCache::with_capacity(capacity)
}

/// Relies on LruCache::get: without a time to live it returns the entry under the key and
/// changes only the recency order.
#[verifier::external_body]
fn group_slots_get(c: &mut LruCache<i64, (u64, Group)>, key: i64) -> (r: Option<(u64, Group)>)
    ensures
        group_slots(*final(c)) == group_slots(*old(c)),
        group_slot_capacity(*final(c)) == group_slot_capacity(*old(c)),
        group_slots(*old(c)).contains_key(key) ==> r == Some(group_slots(*old(c))[key]),
        !group_slots(*old(c)).contains_key(key) ==> r is None,
{
    c.get(&key).cloned()
}

/// Relies on LruCache::peek: without a time to live it returns the entry under the key.
#[verifier::external_body]
fn group_slots_peek(c: &LruCache<i64, (u64, Group)>, key: i64) -> (r: Option<(u64, Group)>)
    ensures
        group_slots(*c).contains_key(key) ==> r == Some(group_slots(*c)[key]),
        !group_slots(*c).contains_key(key) ==> r is None,
{
    c.peek(&key).cloned()
}

/// Relies on LruCache::insert: the entry is stored; when the key is new and the cache is full,
/// least recently used entries leave, and no other entry changes.
#[verifier::external_body]
fn group_slots_insert(c: &mut LruCache<i64, (u64, Group)>, key: i64, value: (u64, Group))
    requires
        group_slot_capacity(*old(c)) > 0,
    ensures
        group_slot_capacity(*final(c)) == group_slot_capacity(*old(c)),
        group_slots(*final(c)).contains_key(key),
        group_slots(*final(c))[key] == value,
        forall|k: i64|
            #[trigger] group_slots(*final(c)).contains_key(k) && k != key ==> group_slots(
                *old(c),
            ).contains_key(k) && group_slots(*final(c))[k] == group_slots(*old(c))[k],
        group_slots(*old(c)).contains_key(key) || group_slots(*old(c)).len()
            < group_slot_capacity(*old(c)) ==> group_slots(*final(c)) == group_slots(
            *old(c),
        ).insert(key, value),
{
    c.insert(key, value);
}

/// Relies on LruCache::remove: the entry under the key leaves and no other.
#[verifier::external_body]
fn group_slots_remove(c: &mut LruCache<i64, (u64, Group)>, key: i64)
    ensures
        group_slot_capacity(*final(c)) == group_slot_capacity(*old(c)),
        group_slots(*final(c)) == group_slots(*old(c)).remove(key),
{
    c.remove(&key);
}

/// Relies on LruCache::with_capacity: a new cache is empty and keeps its capacity.
#[verifier::external_body]
fn member_slots_new(capacity: usize) -> (r: LruCache<(i64, i64), (u64, Member)>)
    ensures
        member_slots(r).dom().is_empty(),
        member_slot_capacity(r) == capacity,
{
    LruCache::with_capacity(capacity)
}

/// Relies on LruCache::get: without a time to live it returns the entry under the key and
/// changes only the recency order.
#[verifier::external_body]
fn member_slots_get(c: &mut LruCache<(i64, i64), (u64, Member)>, key: (i64, i64)) -> (r: Option<
    (u64, Member),
>)
    ensures
        member_slots(*final(c)) == member_slots(*old(c)),
        member_slot_capacity(*final(c)) == member_slot_capacity(*old(c)),
        member_slots(*old(c)).contains_key(key) ==> r == Some(member_slots(*old(c))[key]),
        !member_slots(*old(c)).contains_key(key) ==> r is None,
{
    c.get(&key).cloned()
}

/// Relies on LruCache::peek: without a time to live it returns the entry under the key.
#[verifier::external_body]
fn member_slots_peek(c: &LruCache<(i64, i64), (u64, Member)>, key: (i64, i64)) -> (r: Option<
    (u64, Member),
>)
    ensures
        member_slots(*c).contains_key(key) ==> r == Some(member_slots(*c)[key]),
        !member_slots(*c).contains_key(key) ==> r is None,
{
    c.peek(&key).cloned()
}

/// Relies on LruCache::insert: the entry is stored; when the key is new and the cache is full,
/// least recently used entries leave, and no other entry changes.
#[verifier::external_body]
fn member_slots_insert(
    c: &mut LruCache<(i64, i64), (u64, Member)>,
    key: (i64, i64),
    value: (u64, Member),
)
    requires
        member_slot_capacity(*old(c)) > 0,
    ensures
        member_slot_capacity(*final(c)) == member_slot_capacity(*old(c)),
        member_slots(*final(c)).contains_key(key),
        member_slots(*final(c))[key] == value,
        forall|k: (i64, i64)|
            #[trigger] member_slots(*final(c)).contains_key(k) && k != key ==> member_slots(
                *old(c),
            ).contains_key(k) && member_slots(*final(c))[k] == member_slots(*old(c))[k],
        member_slots(*old(c)).contains_key(key) || member_slots(*old(c)).len()
            < member_slot_capacity(*old(c)) ==> member_slots(*final(c)) == member_slots(
            *old(c),
        ).insert(key, value),
{
    c.insert(key, value);
}

/// Relies on LruCache::remove: the entry under the key leaves and no other.
#[verifier::external_body]
fn member_slots_remove(c: &mut LruCache<(i64, i64), (u64, Member)>, key: (i64, i64))
    ensures
        member_slot_capacity(*final(c)) == member_slot_capacity(*old(c)),
        member_slots(*final(c)) == member_slots(*old(c)).remove(key),
{
    c.remove(&key);
}

/// Groups by uin, bounded in size, each entry fresh for [`CACHE_DURATION_SECS`].
pub struct GroupCache {
    map: LruCache<i64, (u64, Group)>,
}

impl GroupCache {
    /// Entries by key, with the time they were stored.
    pub closed spec fn entries(&self) -> Map<i64, (u64, Group)> {
        group_slots(self.map)
    }

    pub closed spec fn wf(&self) -> bool {
        group_slot_capacity(self.map) == CACHE_CAPACITY
    }

    pub fn new() -> (r: Self)
        ensures
            r.wf(),
            r.entries().dom().is_empty(),
    {
        GroupCache { map: group_slots_new(CACHE_CAPACITY) }
    }

    /// The group stored under `uin` while it is fresh; a stale entry is dropped.
    pub fn get(&mut self, uin: i64, now: u64) -> (r: Option<Group>)
        requires
            old(self).wf(),
        ensures
            final(self).wf(),
            final(self).entries() == retained_in(old(self).entries(), uin, now),
            r == served_from(old(self).entries(), uin, now),
    {
        match group_slots_get(&mut self.map, uin) {
            Some(entry) => {
                if fresh(entry.0, now) {
                    Some(entry.1)
                } else {
                    group_slots_remove(&mut self.map, uin);
                    None
                }
            },
            None => {
                proof {
                    assert(self.entries() =~= old(self).entries().remove(uin));
                }
                None
            },
        }
    }

    /// The group stored under `uin` while it is fresh, leaving the cache as it is.
    pub fn peek(&self, uin: i64, now: u64) -> (r: Option<Group>)
        ensures
            r == served_from(self.entries(), uin, now),
    {
        match group_slots_peek(&self.map, uin) {
            Some(entry) => if fresh(entry.0, now) {
                Some(entry.1)
            } else {
                None
            },
            None => None,
        }
    }

    /// Stores `group` under `uin` as fetched at `now` and hands a copy back.
    pub fn set(&mut self, uin: i64, group: Group, now: u64) -> (r: Group)
        requires
            old(self).wf(),
        ensures
            final(self).wf(),
            r == group,
            final(self).entries().contains_key(uin),
            final(self).entries()[uin] == (now, group),
            forall|k: i64|
                #[trigger] final(self).entries().contains_key(k) && k != uin ==> old(
                    self,
                ).entries().contains_key(k) && final(self).entries()[k] == old(self).entries()[k],
    {
        let r = group.clone();
        group_slots_insert(&mut self.map, uin, (now, group));
        r
    }

    /// Drops the entry under `uin`.
    pub fn remove(&mut self, uin: i64)
        requires
            old(self).wf(),
        ensures
            final(self).wf(),
            final(self).entries() == old(self).entries().remove(uin),
    {
        group_slots_remove(&mut self.map, uin);
    }
}

/// Members by (group uin, member uin), bounded in size, each entry fresh for
/// [`CACHE_DURATION_SECS`].
pub struct MemberCache {
    map: LruCache<(i64, i64), (u64, Member)>,
}

impl MemberCache {
    /// Entries by key, with the time they were stored.
    pub closed spec fn entries(&self) -> Map<(i64, i64), (u64, Member)> {
        member_slots(self.map)
    }

    pub closed spec fn wf(&self) -> bool {
        member_slot_capacity(self.map) == CACHE_CAPACITY
    }

    pub fn new() -> (r: Self)
        ensures
            r.wf(),
            r.entries().dom().is_empty(),
    {
        MemberCache { map: member_slots_new(CACHE_CAPACITY) }
    }

    /// The member stored under `key` while it is fresh; a stale entry is dropped.
    pub fn get(&mut self, key: (i64, i64), now: u64) -> (r: Option<Member>)
        requires
            old(self).wf(),
        ensures
            final(self).wf(),
            final(self).entries() == retained_in(old(self).entries(), key, now),
            r == served_from(old(self).entries(), key, now),
    {
        match member_slots_get(&mut self.map, key) {
            Some(entry) => {
                if fresh(entry.0, now) {
                    Some(entry.1)
                } else {
                    member_slots_remove(&mut self.map, key);
                    None
                }
            },
            None => {
                proof {
                    assert(self.entries() =~= old(self).entries().remove(key));
                }
                None
            },
        }
    }

    /// The member stored under `key` while it is fresh, leaving the cache as it is.
    pub fn peek(&self, key: (i64, i64), now: u64) -> (r: Option<Member>)
        ensures
            r == served_from(self.entries(), key, now),
    {
        match member_slots_peek(&self.map, key) {
            Some(entry) => if fresh(entry.0, now) {
                Some(entry.1)
            } else {
                None
            },
            None => None,
        }
    }

    /// Stores `member` under `key` as fetched at `now` and hands a copy back.
    pub fn set(&mut self, key: (i64, i64), member: Member, now: u64) -> (r: Member)
        requires
            old(self).wf(),
        ensures
            final(self).wf(),
            r == member,
            final(self).entries().contains_key(key),
            final(self).entries()[key] == (now, member),
            forall|k: (i64, i64)|
                #[trigger] final(self).entries().contains_key(k) && k != key ==> old(
                    self,
                ).entries().contains_key(k) && final(self).entries()[k] == old(self).entries()[k],
    {
        let r = member.clone();
        member_slots_insert(&mut self.map, key, (now, member));
        r
    }

    /// Drops the entry under `key`.
    pub fn remove(&mut self, key: (i64, i64))
        requires
            old(self).wf(),
        ensures
            final(self).wf(),
            final(self).entries() == old(self).entries().remove(key),
    {
        member_slots_remove(&mut self.map, key);
    }
}

/// A cache entry to drop because an event changed what it describes.
#[derive(Debug, PartialEq, Eq, Clone, Copy)]
pub enum Invalidation {
    FriendList,
    Group(i64),
    Member(i64, i64),
}

/// The caches of one connection: the friend list, groups and members.
pub struct ClientCache {
    friends: VarCache<FriendList>,
    groups: GroupCache,
    members: MemberCache,
}

impl ClientCache {
    pub closed spec fn friend_entry(&self) -> Option<(u64, FriendList)> {
        self.friends.entry()
    }

    pub closed spec fn group_entries(&self) -> Map<i64, (u64, Group)> {
        self.groups.entries()
    }

    pub closed spec fn member_entries(&self) -> Map<(i64, i64), (u64, Member)> {
        self.members.entries()
    }

    pub closed spec fn wf(&self) -> bool {
        self.groups.wf() && self.members.wf()
    }

    pub fn new() -> (r: Self)
        ensures
            r.wf(),
            r.friend_entry() is None,
            r.group_entries().dom().is_empty(),
            r.member_entries().dom().is_empty(),
    {
        ClientCache { friends: VarCache::new(), groups: GroupCache::new(), members: MemberCache::new() }
    }

    /// The cached friend list while fresh; `None` means it must be fetched.
    pub fn fetch_friend_list(&mut self, now: u64) -> (r: Option<FriendList>)
        requires
            old(self).wf(),
        ensures
            final(self).wf(),
            final(self).friend_entry() == retained(old(self).friend_entry(), now),
            final(self).group_entries() == old(self).group_entries(),
            final(self).member_entries() == old(self).member_entries(),
            match served(old(self).friend_entry(), now) {
                Some(v) => r matches Some(x) && x@ == v@,
                None => r is None,
            },
    {
        self.friends.get(now)
    }

    /// The cached friend list while fresh, leaving the cache as it is.
    pub fn peek_friend_list(&self, now: u64) -> (r: Option<FriendList>)
        ensures
            match served(self.friend_entry(), now) {
                Some(v) => r matches Some(x) && x@ == v@,
                None => r is None,
            },
    {
        self.friends.peek(now)
    }

    /// The cached group while fresh, leaving the cache as it is.
    pub fn peek_group(&self, uin: i64, now: u64) -> (r: Option<Group>)
        ensures
            r == served_from(self.group_entries(), uin, now),
    {
        self.groups.peek(uin, now)
    }

    /// The cached member while fresh, leaving the cache as it is.
    pub fn peek_member(&self, group_uin: i64, uin: i64, now: u64) -> (r: Option<Member>)
        ensures
            r == served_from(self.member_entries(), (group_uin, uin), now),
    {
        self.members.peek((group_uin, uin), now)
    }

    /// Stores a freshly fetched friend list and hands a copy back.
    pub fn store_friend_list(&mut self, list: FriendList, now: u64) -> (r: FriendList)
        requires
            old(self).wf(),
        ensures
            final(self).wf(),
            final(self).friend_entry() == Some((now, list)),
            final(self).group_entries() == old(self).group_entries(),
            final(self).member_entries() == old(self).member_entries(),
            r@ == list@,
    {
        self.friends.set(list, now)
    }

    pub fn flush_friend_list(&mut self)
        requires
            old(self).wf(),
        ensures
            final(self).wf(),
            final(self).friend_entry() is None,
            final(self).group_entries() == old(self).group_entries(),
            final(self).member_entries() == old(self).member_entries(),
    {
        self.friends.clear()
    }

    /// The cached group while fresh; `None` means it must be fetched.
    pub fn fetch_group(&mut self, uin: i64, now: u64) -> (r: Option<Group>)
        requires
            old(self).wf(),
        ensures
            final(self).wf(),
            final(self).friend_entry() == old(self).friend_entry(),
            final(self).group_entries() == retained_in(old(self).group_entries(), uin, now),
            final(self).member_entries() == old(self).member_entries(),
            r == served_from(old(self).group_entries(), uin, now),
    {
        self.groups.get(uin, now)
    }

    /// Stores a freshly fetched group and hands a copy back.
    pub fn store_group(&mut self, uin: i64, group: Group, now: u64) -> (r: Group)
        requires
            old(self).wf(),
        ensures
            final(self).wf(),
            r == group,
            final(self).friend_entry() == old(self).friend_entry(),
            final(self).group_entries().contains_key(uin),
            final(self).group_entries()[uin] == (now, group),
            forall|k: i64|
                #[trigger] final(self).group_entries().contains_key(k) && k != uin ==> old(
                    self,
                ).group_entries().contains_key(k)
                    && final(self).group_entries()[k] == old(self).group_entries()[k],
            final(self).member_entries() == old(self).member_entries(),
    {
        self.groups.set(uin, group, now)
    }

    pub fn flush_group(&mut self, uin: i64)
        requires
            old(self).wf(),
        ensures
            final(self).wf(),
            final(self).friend_entry() == old(self).friend_entry(),
            final(self).group_entries() == old(self).group_entries().remove(uin),
            final(self).member_entries() == old(self).member_entries(),
    {
        self.groups.remove(uin)
    }

    /// The cached member while fresh; `None` means it must be fetched.
    pub fn fetch_member(&mut self, group_uin: i64, uin: i64, now: u64) -> (r: Option<Member>)
        requires
            old(self).wf(),
        ensures
            final(self).wf(),
            final(self).friend_entry() == old(self).friend_entry(),
            final(self).group_entries() == old(self).group_entries(),
            final(self).member_entries() == retained_in(
                old(self).member_entries(),
                (group_uin, uin),
                now,
            ),
            r == served_from(old(self).member_entries(), (group_uin, uin), now),
    {
        self.members.get((group_uin, uin), now)
    }

    /// Stores a freshly fetched member and hands a copy back.
    pub fn store_member(&mut self, group_uin: i64, uin: i64, member: Member, now: u64) -> (r:
        Member)
        requires
            old(self).wf(),
        ensures
            final(self).wf(),
            r == member,
            final(self).friend_entry() == old(self).friend_entry(),
            final(self).group_entries() == old(self).group_entries(),
            final(self).member_entries().contains_key((group_uin, uin)),
            final(self).member_entries()[(group_uin, uin)] == (now, member),
            forall|k: (i64, i64)|
                #[trigger] final(self).member_entries().contains_key(k) && k != (group_uin, uin)
                    ==> old(self).member_entries().contains_key(k)
                    && final(self).member_entries()[k] == old(self).member_entries()[k],
    {
        self.members.set((group_uin, uin), member, now)
    }

    pub fn flush_member(&mut self, group_uin: i64, uin: i64)
        requires
            old(self).wf(),
        ensures
            final(self).wf(),
            final(self).friend_entry() == old(self).friend_entry(),
            final(self).group_entries() == old(self).group_entries(),
            final(self).member_entries() == old(self).member_entries().remove((group_uin, uin)),
    {
        self.members.remove((group_uin, uin))
    }

    /// Drops the entry that `inv` names.
    pub fn invalidate(&mut self, inv: Invalidation)
        requires
            old(self).wf(),
        ensures
            final(self).wf(),
            final(self).friend_entry() == (match inv {
                Invalidation::FriendList => None,
                _ => old(self).friend_entry(),
            }),
            final(self).group_entries() == (match inv {
                Invalidation::Group(g) => old(self).group_entries().remove(g),
                _ => old(self).group_entries(),
            }),
            final(self).member_entries() == (match inv {
                Invalidation::Member(g, m) => old(self).member_entries().remove((g, m)),
                _ => old(self).member_entries(),
            }),
    {
        match inv {
            Invalidation::FriendList => self.flush_friend_list(),
            Invalidation::Group(g) => self.flush_group(g),
            Invalidation::Member(g, m) => self.flush_member(g, m),
        }
    }
}

/// Time-to-live law of a single-slot cache: a value stored at `set_at` is served unchanged
/// while at most [`CACHE_DURATION_SECS`] seconds have passed, and not at all afterwards.
pub proof fn lemma_var_cache_ttl<T>(val: T, set_at: u64, now: u64)
    ensures
        now > set_at + CACHE_DURATION_SECS ==> served(Some((set_at, val)), now) is None,
        now <= set_at + CACHE_DURATION_SECS ==> served(Some((set_at, val)), now) == Some(val),
        now > set_at + CACHE_DURATION_SECS ==> retained(Some((set_at, val)), now) is None,
{
}

/// Time-to-live law of a keyed cache: whatever else the cache holds, a value stored under `key`
/// at `set_at` is served unchanged while at most [`CACHE_DURATION_SECS`] seconds have passed;
/// afterwards it is not served and a read drops it.
pub proof fn lemma_map_cache_ttl<K, V>(entries: Map<K, (u64, V)>, key: K, val: V, set_at: u64, now: u64)
    requires
        entries.contains_key(key),
        entries[key] == (set_at, val),
    ensures
        now > set_at + CACHE_DURATION_SECS ==> served_from(entries, key, now) is None,
        now > set_at + CACHE_DURATION_SECS ==> !retained_in(entries, key, now).contains_key(key),
        now <= set_at + CACHE_DURATION_SECS ==> served_from(entries, key, now) == Some(val),
{
}

} // verus!
