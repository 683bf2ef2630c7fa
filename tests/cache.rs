use ichika::cache::{ClientCache, Invalidation, VarCache, CACHE_CAPACITY, CACHE_DURATION_SECS};
use ichika::model::{Friend, FriendGroup, FriendList, Gender, Group, Member, Permission};

fn group(uin: i64, name: &str) -> Group {
    Group {
        uin,
        name: name.to_string(),
        memo: String::new(),
        owner_uin: 1,
        create_time: 0,
        level: 1,
        member_count: 2,
        max_member_count: 200,
        global_mute_timestamp: 0,
        mute_timestamp: 0,
        last_msg_seq: 0,
    }
}

fn member(group_uin: i64, uin: i64, card: &str) -> Member {
    Member {
        group_uin,
        uin,
        gender: Gender::Unknown,
        nickname: "nick".to_string(),
        raw_card_name: card.to_string(),
        level: 1,
        join_time: 0,
        last_speak_time: 0,
        special_title: String::new(),
        special_title_expire_time: 0,
        mute_timestamp: 0,
        permission: Permission::Member,
    }
}

fn friend_list() -> FriendList {
    let friends = vec![
        Friend { uin: 7, nick: "a".to_string(), remark: String::new(), face_id: 0, group_id: 0 },
        Friend { uin: 8, nick: "b".to_string(), remark: String::new(), face_id: 0, group_id: 1 },
    ];
    let groups = vec![FriendGroup {
        group_id: 0,
        name: "default".to_string(),
        total_count: 2,
        online_count: 1,
        seq_id: 0,
    }];
    FriendList::new(friends, groups, 2, 1)
}

#[test]
fn var_cache_serves_until_ttl() {
    let mut c: VarCache<u32> = VarCache::new();
    assert_eq!(c.get(0), None);
    assert_eq!(c.set(5, 100), 5);
    assert_eq!(c.get(100), Some(5));
    assert_eq!(c.get(100 + CACHE_DURATION_SECS), Some(5));
    assert_eq!(c.get(101 + CACHE_DURATION_SECS), None);
    // a stale read drops the entry for good
    assert_eq!(c.get(100), None);
}

#[test]
fn var_cache_clear() {
    let mut c: VarCache<u32> = VarCache::new();
    c.set(9, 10);
    c.clear();
    assert_eq!(c.get(10), None);
}

#[test]
fn group_fetch_scenario() {
    let mut cache = ClientCache::new();
    let t = 1_000;
    // miss: the caller fetches remotely and stores the result
    assert_eq!(cache.fetch_group(1001, t), None);
    let stored = cache.store_group(1001, group(1001, "Test"), t);
    assert_eq!(stored, group(1001, "Test"));
    // hit: same value, no remote call needed
    assert_eq!(cache.fetch_group(1001, t + 1), Some(group(1001, "Test")));
    // after the time to live it misses again
    assert_eq!(cache.fetch_group(1001, t + CACHE_DURATION_SECS + 1), None);
}

#[test]
fn member_flush_forces_refetch() {
    let mut cache = ClientCache::new();
    cache.store_member(10, 20, member(10, 20, "card"), 0);
    assert_eq!(cache.fetch_member(10, 20, 1), Some(member(10, 20, "card")));
    cache.flush_member(10, 20);
    assert_eq!(cache.fetch_member(10, 20, 1), None);
}

#[test]
fn invalidate_only_drops_named_entry() {
    let mut cache = ClientCache::new();
    cache.store_group(1, group(1, "one"), 0);
    cache.store_group(2, group(2, "two"), 0);
    cache.invalidate(Invalidation::Group(1));
    assert_eq!(cache.peek_group(1, 0), None);
    assert_eq!(cache.peek_group(2, 0), Some(group(2, "two")));
    cache.store_friend_list(friend_list(), 0);
    cache.invalidate(Invalidation::FriendList);
    assert_eq!(cache.fetch_friend_list(0), None);
}

#[test]
fn friend_list_cache_round_trip() {
    let mut cache = ClientCache::new();
    assert_eq!(cache.fetch_friend_list(0), None);
    cache.store_friend_list(friend_list(), 0);
    assert_eq!(cache.fetch_friend_list(CACHE_DURATION_SECS), Some(friend_list()));
    assert_eq!(cache.fetch_friend_list(CACHE_DURATION_SECS + 1), None);
}

#[test]
fn capacity_bounds_group_cache() {
    let mut cache = ClientCache::new();
    for i in 0..(CACHE_CAPACITY as i64 + 1) {
        cache.store_group(i, group(i, "g"), 0);
    }
    // the least recently used entry left to make room
    assert_eq!(cache.peek_group(0, 0), None);
    assert_eq!(cache.peek_group(CACHE_CAPACITY as i64, 0), Some(group(CACHE_CAPACITY as i64, "g")));
}

#[test]
fn friend_list_lookups() {
    let list = friend_list();
    assert_eq!(list.find_friend(8).map(|f| f.nick), Some("b".to_string()));
    assert_eq!(list.find_friend(9), None);
    assert_eq!(list.friends().len(), 2);
    assert_eq!(list.find_friend_group(0).map(|g| g.name), Some("default".to_string()));
    assert_eq!(list.find_friend_group(3), None);
    assert_eq!(list.friend_groups().len(), 1);
}

#[test]
fn member_card_name_falls_back_to_nickname() {
    assert_eq!(member(1, 2, "").card_name(), "nick");
    assert_eq!(member(1, 2, "card").card_name(), "card");
}

#[test]
fn gender_and_permission_names() {
    assert_eq!(ichika::model::to_gender(0), Gender::Male);
    assert_eq!(ichika::model::to_gender(1), Gender::Female);
    assert_eq!(ichika::model::to_gender(7), Gender::Unknown);
    assert_eq!(Gender::Female.name(), "Female");
    assert_eq!(Permission::Administrator.name(), "Admin");
}
