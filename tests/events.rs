use ichika::cache::ClientCache;
use ichika::delivery::{delivery_failures, HandlerAction, PyHandler};
use ichika::element::{Elem, Record, Value};
use ichika::events::{
    convert, ConvertError, DisconnectReason, Event, Lookup, MessageSource, NetworkStatus, RawEvent,
    Step,
};
use ichika::model::{Friend, FriendList, Gender, Group, Member, Permission};

fn group(uin: i64) -> Group {
    Group {
        uin,
        name: "Test".to_string(),
        memo: String::new(),
        owner_uin: 1,
        create_time: 0,
        level: 1,
        member_count: 2,
        max_member_count: 200,
        global_mute_timestamp: 0,
        mute_timestamp: 0,
        last_msg_seq: 0,
    }
}

fn member(group_uin: i64, uin: i64) -> Member {
    Member {
        group_uin,
        uin,
        gender: Gender::Male,
        nickname: format!("m{uin}"),
        raw_card_name: String::new(),
        level: 1,
        join_time: 0,
        last_speak_time: 0,
        special_title: String::new(),
        special_title_expire_time: 0,
        mute_timestamp: 0,
        permission: Permission::Member,
    }
}

fn friend(uin: i64) -> Friend {
    Friend { uin, nick: "f".to_string(), remark: String::new(), face_id: 0, group_id: 0 }
}

#[test]
fn group_message_needs_group_then_member() {
    let mut cache = ClientCache::new();
    let ev = RawEvent::GroupMessage {
        seqs: vec![42],
        rands: vec![99],
        time: 5,
        group_code: 1001,
        from_uin: 7,
        elements: vec![Elem::Text { content: "hi".to_string() }],
    };
    assert_eq!(convert(&mut cache, &ev, 1, 0), Step::Fetch(Lookup::Group(1001)));
    cache.store_group(1001, group(1001), 0);
    assert_eq!(convert(&mut cache, &ev, 1, 0), Step::Fetch(Lookup::Member(1001, 7)));
    cache.store_member(1001, 7, member(1001, 7), 0);
    let step = convert(&mut cache, &ev, 1, 0);
    let expected = Event::GroupMessage {
        source: MessageSource { seq: 42, rand: 99, raw_seqs: vec![42], raw_rands: vec![99], time: 5 },
        content: vec![Record {
            fields: vec![
                ("type".to_string(), Value::Str("Text".to_string())),
                ("text".to_string(), Value::Str("hi".to_string())),
            ],
        }],
        group: group(1001),
        sender: member(1001, 7),
    };
    assert_eq!(step, Step::Deliver(expected));
}

#[test]
fn empty_source_fails() {
    let mut cache = ClientCache::new();
    cache.store_group(1, group(1), 0);
    cache.store_member(1, 2, member(1, 2), 0);
    let ev = RawEvent::GroupTempMessage {
        seqs: vec![],
        rands: vec![1],
        time: 0,
        group_code: 1,
        from_uin: 2,
        elements: vec![],
    };
    assert_eq!(convert(&mut cache, &ev, 9, 0), Step::Fail(ConvertError::EmptySource));
    assert!(MessageSource::new(&vec![1], &vec![], 0).is_err());
}

#[test]
fn self_nudge_is_not_delivered() {
    let mut cache = ClientCache::new();
    let ev = RawEvent::FriendPoke { sender: 5, receiver: 6 };
    assert_eq!(convert(&mut cache, &ev, 5, 0), Step::Skip);
    let gev = RawEvent::GroupPoke { group_code: 1, sender: 5, receiver: 6 };
    assert_eq!(convert(&mut cache, &gev, 5, 0), Step::Skip);
    // a nudge from someone else is delivered with the friend's snapshot
    cache.store_friend_list(FriendList::new(vec![friend(6)], vec![], 1, 1), 0);
    let other = RawEvent::FriendPoke { sender: 6, receiver: 5 };
    assert_eq!(convert(&mut cache, &other, 5, 0), Step::Deliver(Event::FriendNudge { sender: friend(6) }));
}

#[test]
fn unknown_event_survives() {
    let mut cache = ClientCache::new();
    let ev = RawEvent::Unknown { debug: "Strange { x: 1 }".to_string() };
    assert_eq!(
        convert(&mut cache, &ev, 1, 0),
        Step::Deliver(Event::UnknownEvent { internal_repr: "Strange { x: 1 }".to_string() })
    );
    let handler = PyHandler::new(3, 1);
    match handler.handle(&mut cache, &ev, 0) {
        HandlerAction::Deliver { event, subscribers } => {
            assert_eq!(subscribers, 3);
            assert_eq!(event, Event::UnknownEvent { internal_repr: "Strange { x: 1 }".to_string() });
        }
        other => panic!("unexpected {other:?}"),
    }
}

#[test]
fn leave_invalidates_member_before_next_read() {
    let mut cache = ClientCache::new();
    cache.store_member(10, 20, member(10, 20), 0);
    let ev = RawEvent::GroupLeave { group_code: 10, member_uin: 20 };
    assert_eq!(
        convert(&mut cache, &ev, 1, 0),
        Step::Deliver(Event::MemberLeaveGroup { group_uin: 10, member_uin: 20 })
    );
    assert_eq!(cache.fetch_member(10, 20, 0), None);
}

#[test]
fn member_mute_reads_then_invalidates() {
    let mut cache = ClientCache::new();
    cache.store_group(1, group(1), 0);
    cache.store_member(1, 2, member(1, 2), 0);
    cache.store_member(1, 3, member(1, 3), 0);
    let ev = RawEvent::GroupMute { group_code: 1, operator_uin: 2, target_uin: 3, duration_secs: 60 };
    assert_eq!(
        convert(&mut cache, &ev, 9, 0),
        Step::Deliver(Event::MemberMute {
            group: group(1),
            operator: member(1, 2),
            target: member(1, 3),
            duration: Some(60),
        })
    );
    assert_eq!(cache.peek_member(1, 3, 0), None);
    assert_eq!(cache.peek_member(1, 2, 0), Some(member(1, 2)));
}

#[test]
fn whole_group_unmute() {
    let mut cache = ClientCache::new();
    cache.store_group(1, group(1), 0);
    cache.store_member(1, 2, member(1, 2), 0);
    let ev = RawEvent::GroupMute { group_code: 1, operator_uin: 2, target_uin: 0, duration_secs: 0 };
    assert_eq!(
        convert(&mut cache, &ev, 9, 0),
        Step::Deliver(Event::GroupMute { group: group(1), operator: member(1, 2), status: true })
    );
    assert_eq!(cache.peek_group(1, 0), None);
}

#[test]
fn friend_message_from_stranger_fails() {
    let mut cache = ClientCache::new();
    let ev = RawEvent::FriendMessage { seqs: vec![1], rands: vec![2], time: 0, from_uin: 77, elements: vec![] };
    assert_eq!(convert(&mut cache, &ev, 1, 0), Step::Fetch(Lookup::FriendList));
    cache.store_friend_list(FriendList::new(vec![friend(6)], vec![], 1, 1), 0);
    assert_eq!(convert(&mut cache, &ev, 1, 0), Step::Fail(ConvertError::FriendNotFound(77)));
}

#[test]
fn delete_friend_flushes_friend_list() {
    let mut cache = ClientCache::new();
    cache.store_friend_list(FriendList::new(vec![friend(6)], vec![], 1, 1), 0);
    let ev = RawEvent::DeleteFriend { uin: 6 };
    assert_eq!(convert(&mut cache, &ev, 1, 0), Step::Deliver(Event::FriendDeleted { friend_uin: 6 }));
    assert_eq!(cache.fetch_friend_list(0), None);
}

#[test]
fn login_notice_and_disconnects() {
    let mut cache = ClientCache::new();
    let handler = PyHandler::new(1, 1);
    assert_eq!(handler.handle(&mut cache, &RawEvent::Login(1), 0), HandlerAction::Ignore);
    assert_eq!(
        handler.handle(&mut cache, &RawEvent::ClientDisconnect(DisconnectReason::Network), 0),
        HandlerAction::Disconnected { reason: DisconnectReason::Network, reconnect: true }
    );
    let kicked = DisconnectReason::Actively(NetworkStatus::KickedOffline);
    assert_eq!(
        handler.handle(&mut cache, &RawEvent::ClientDisconnect(kicked), 0),
        HandlerAction::Disconnected { reason: kicked, reconnect: false }
    );
}

#[test]
fn delivery_failures_are_listed_independently() {
    assert_eq!(delivery_failures(&vec![true, false, true, false]), vec![1, 3]);
    assert_eq!(delivery_failures(&vec![]), Vec::<usize>::new());
}
