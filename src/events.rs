//! Conversion of raw protocol events into records that carry resolved entity snapshots.
use vstd::prelude::*;

use crate::cache::{served, served_from, ClientCache, Invalidation};
use crate::element::{
    chain_view, field, records_of, records_view, serialize_message_chain, tag, Elem, Handle, Record,
    RecordV, Value, ValueV,
};
use crate::model::{first_friend, Friend, Group, Member, Permission};

verus! {

/// Why a connection went down.
#[derive(Debug, PartialEq, Eq, Clone, Copy)]
pub enum DisconnectReason {
    /// The network failed.
    Network,
    /// The client went offline on purpose; the status says why.
    Actively(NetworkStatus),
}

/// Connection status as the protocol engine reports it.
#[derive(Debug, PartialEq, Eq, Clone, Copy)]
pub enum NetworkStatus {
    Unknown,
    Running,
    Stop,
    Drop,
    NetworkOffline,
    KickedOffline,
    MsfOffline,
}

/// Sequence numbers, nonces and time of a received message.
#[derive(Debug, PartialEq, Eq, Clone)]
pub struct MessageSource {
    pub seq: i32,
    pub rand: i32,
    pub raw_seqs: Vec<i32>,
    pub raw_rands: Vec<i32>,
    pub time: i32,
}

/// Why an event could not be converted.
#[derive(Debug, PartialEq, Eq, Clone, Copy)]
pub enum ConvertError {
    /// A message came without sequence numbers or without nonces.
    EmptySource,
    /// The sender is not in the friend list.
    FriendNotFound(i64),
}

impl MessageSource {
    /// The source of a message: its first sequence number and nonce, and all of both.
    pub fn new(seqs: &Vec<i32>, rands: &Vec<i32>, time: i32) -> (r: Result<Self, ConvertError>)
        ensures
            seqs@.len() == 0 || rands@.len() == 0 <==> r is Err,
            r is Err ==> r == Err::<MessageSource, ConvertError>(ConvertError::EmptySource),
            r matches Ok(s) ==> s.seq == seqs@[0] && s.rand == rands@[0] && s.raw_seqs@ == seqs@
                && s.raw_rands@ == rands@ && s.time == time,
    {
        if seqs.len() == 0 || rands.len() == 0 {
            return Err(ConvertError::EmptySource);
        }
        let raw_seqs = seqs.clone();
        let raw_rands = rands.clone();
        assert(raw_seqs@ =~= seqs@);
        assert(raw_rands@ =~= rands@);
        Ok(MessageSource { seq: seqs[0], rand: rands[0], raw_seqs, raw_rands, time })
    }
}

/// A protocol event, as the engine reports it.
#[derive(Debug, PartialEq, Eq)]
pub enum RawEvent {
    Login(i64),
    GroupMessage {
        seqs: Vec<i32>,
        rands: Vec<i32>,
        time: i32,
        group_code: i64,
        from_uin: i64,
        elements: Vec<Elem>,
    },
    GroupAudioMessage {
        seqs: Vec<i32>,
        rands: Vec<i32>,
        time: i32,
        group_code: i64,
        from_uin: i64,
        url: String,
        audio: u64,
    },
    FriendMessage { seqs: Vec<i32>, rands: Vec<i32>, time: i32, from_uin: i64, elements: Vec<Elem> },
    FriendAudioMessage {
        seqs: Vec<i32>,
        rands: Vec<i32>,
        time: i32,
        from_uin: i64,
        url: String,
        audio: u64,
    },
    GroupTempMessage {
        seqs: Vec<i32>,
        rands: Vec<i32>,
        time: i32,
        group_code: i64,
        from_uin: i64,
        elements: Vec<Elem>,
    },
    GroupMessageRecall { time: i32, group_code: i64, author_uin: i64, operator_uin: i64, msg_seq: i32 },
    FriendMessageRecall { time: i32, friend_uin: i64, msg_seq: i32 },
    GroupPoke { group_code: i64, sender: i64, receiver: i64 },
    FriendPoke { sender: i64, receiver: i64 },
    NewFriend(Friend),
    NewMember { group_code: i64, member_uin: i64 },
    GroupLeave { group_code: i64, member_uin: i64 },
    GroupDisband { group_code: i64, operator_uin: i64 },
    DeleteFriend { uin: i64 },
    /// A mute; target `0` mutes the whole group, a duration of `0` lifts the mute.
    GroupMute { group_code: i64, operator_uin: i64, target_uin: i64, duration_secs: u64 },
    MemberPermissionChange { group_code: i64, member_uin: i64, new_permission: Permission },
    GroupNameUpdate { group_code: i64, operator_uin: i64, group_name: String },
    GroupRequest {
        msg_seq: i64,
        msg_time: i64,
        group_code: i64,
        group_name: String,
        req_uin: i64,
        req_nick: String,
        suspicious: bool,
        invitor_uin: Option<i64>,
        invitor_nick: Option<String>,
    },
    SelfInvited {
        msg_seq: i64,
        msg_time: i64,
        group_code: i64,
        group_name: String,
        invitor_uin: i64,
        invitor_nick: String,
    },
    NewFriendRequest { msg_seq: i64, req_uin: i64, req_nick: String, message: String },
    ClientDisconnect(DisconnectReason),
    /// Any other kind of event, kept as its debug text.
    Unknown { debug: String },
}

/// An event record handed to subscribers.
#[derive(Debug, PartialEq, Eq)]
pub enum Event {
    GroupMessage { source: MessageSource, content: Vec<Record>, group: Group, sender: Member },
    FriendMessage { source: MessageSource, content: Vec<Record>, sender: Friend },
    TempMessage { source: MessageSource, content: Vec<Record>, group: Group, sender: Member },
    GroupRecallMessage { time: i32, group: Group, author: Member, operator: Member, seq: i32 },
    FriendRecallMessage { time: i32, author: Friend, seq: i32 },
    GroupNudge { group: Group, sender: Member, receiver: Member },
    FriendNudge { sender: Friend },
    NewFriend { friend: Friend },
    NewMember { group: Group, member: Member },
    MemberLeaveGroup { group_uin: i64, member_uin: i64 },
    GroupDisband { group_uin: i64, operator_uin: i64 },
    FriendDeleted { friend_uin: i64 },
    /// The whole group was muted (`status` true) or unmuted.
    GroupMute { group: Group, operator: Member, status: bool },
    /// A member was muted for `duration` seconds, or unmuted (`None`).
    MemberMute { group: Group, operator: Member, target: Member, duration: Option<u64> },
    MemberPermissionChange { group: Group, target: Member, permission: Permission },
    GroupInfoUpdate { group: Group, operator: Member, name: String },
    JoinGroupRequest {
        seq: i64,
        time: i64,
        group_uin: i64,
        group_name: String,
        request_uin: i64,
        request_nickname: String,
        suspicious: bool,
        invitor_uin: Option<i64>,
        invitor_nickname: Option<String>,
    },
    JoinGroupInvitation {
        seq: i64,
        time: i64,
        group_uin: i64,
        group_name: String,
        invitor_uin: i64,
        invitor_nickname: String,
    },
    NewFriendRequest { seq: i64, uin: i64, nickname: String, message: String },
    UnknownEvent { internal_repr: String },
}

/// An entity that must be in the cache before an event can be converted.
#[derive(Debug, PartialEq, Eq, Clone, Copy)]
pub enum Lookup {
    FriendList,
    Group(i64),
    Member(i64, i64),
}

/// What the converter decided for one event.
#[derive(Debug, PartialEq, Eq)]
pub enum Step {
    /// Fetch this entity into the cache and convert the event again.
    Fetch(Lookup),
    /// Hand this record to every subscriber.
    Deliver(Event),
    /// Nothing is delivered for this event.
    Skip,
    /// The event cannot be converted; the stream goes on.
    Fail(ConvertError),
}

pub open spec fn available(c: ClientCache, l: Lookup, now: u64) -> bool {
    match l {
        Lookup::FriendList => served(c.friend_entry(), now) is Some,
        Lookup::Group(g) => served_from(c.group_entries(), g, now) is Some,
        Lookup::Member(g, m) => served_from(c.member_entries(), (g, m), now) is Some,
    }
}

/// The first entity of `ls` that the cache cannot serve.
pub open spec fn first_missing(c: ClientCache, ls: Seq<Lookup>, now: u64) -> Option<Lookup>
    decreases ls.len(),
{
    if ls.len() == 0 {
        None
    } else if !available(c, ls[0], now) {
        Some(ls[0])
    } else {
        first_missing(c, ls.drop_first(), now)
    }
}

/// The entities that converting `ev` reads, in the order they are read.
pub open spec fn lookups_of(ev: RawEvent, self_uin: i64) -> Seq<Lookup> {
    match ev {
        RawEvent::GroupMessage { group_code, from_uin, .. } => seq![
            Lookup::Group(group_code),
            Lookup::Member(group_code, from_uin),
        ],
        RawEvent::GroupAudioMessage { group_code, from_uin, .. } => seq![
            Lookup::Group(group_code),
            Lookup::Member(group_code, from_uin),
        ],
        RawEvent::GroupTempMessage { group_code, from_uin, .. } => seq![
            Lookup::Group(group_code),
            Lookup::Member(group_code, from_uin),
        ],
        RawEvent::FriendMessage { .. } => seq![Lookup::FriendList],
        RawEvent::FriendAudioMessage { .. } => seq![Lookup::FriendList],
        RawEvent::FriendMessageRecall { .. } => seq![Lookup::FriendList],
        RawEvent::FriendPoke { sender, .. } => if sender == self_uin {
            Seq::empty()
        } else {
            seq![Lookup::FriendList]
        },
        RawEvent::GroupMessageRecall { group_code, author_uin, operator_uin, .. } => seq![
            Lookup::Group(group_code),
            Lookup::Member(group_code, author_uin),
            Lookup::Member(group_code, operator_uin),
        ],
        RawEvent::GroupPoke { group_code, sender, receiver } => if sender == self_uin {
            Seq::empty()
        } else {
            seq![
                Lookup::Group(group_code),
                Lookup::Member(group_code, sender),
                Lookup::Member(group_code, receiver),
            ]
        },
        RawEvent::NewMember { group_code, member_uin } => seq![
            Lookup::Group(group_code),
            Lookup::Member(group_code, member_uin),
        ],
        RawEvent::GroupMute { group_code, operator_uin, target_uin, .. } => if target_uin == 0 {
            seq![Lookup::Group(group_code), Lookup::Member(group_code, operator_uin)]
        } else {
            seq![
                Lookup::Group(group_code),
                Lookup::Member(group_code, operator_uin),
                Lookup::Member(group_code, target_uin),
            ]
        },
        RawEvent::MemberPermissionChange { group_code, member_uin, .. } => seq![
            Lookup::Group(group_code),
            Lookup::Member(group_code, member_uin),
        ],
        RawEvent::GroupNameUpdate { group_code, operator_uin, .. } => seq![
            Lookup::Group(group_code),
            Lookup::Member(group_code, operator_uin),
        ],
        _ => Seq::empty(),
    }
}

/// The cache entry that `ev` makes stale.
pub open spec fn invalidation_of(ev: RawEvent) -> Option<Invalidation> {
    match ev {
        RawEvent::GroupLeave { group_code, member_uin } => Some(
            Invalidation::Member(group_code, member_uin),
        ),
        RawEvent::GroupDisband { group_code, .. } => Some(Invalidation::Group(group_code)),
        RawEvent::DeleteFriend { .. } => Some(Invalidation::FriendList),
        RawEvent::GroupMute { group_code, target_uin, .. } => if target_uin == 0 {
            Some(Invalidation::Group(group_code))
        } else {
            Some(Invalidation::Member(group_code, target_uin))
        },
        RawEvent::MemberPermissionChange { group_code, member_uin, .. } => Some(
            Invalidation::Member(group_code, member_uin),
        ),
        RawEvent::GroupNameUpdate { group_code, .. } => Some(Invalidation::Group(group_code)),
        _ => None,
    }
}

/// Events for which nothing is delivered: the login notice, a disconnect, and a nudge that the
/// account itself sent.
pub open spec fn skipped(ev: RawEvent, self_uin: i64) -> bool {
    match ev {
        RawEvent::Login(_) => true,
        RawEvent::ClientDisconnect(_) => true,
        RawEvent::FriendPoke { sender, .. } => sender == self_uin,
        RawEvent::GroupPoke { sender, .. } => sender == self_uin,
        _ => false,
    }
}

pub open spec fn group_at(c: ClientCache, g: i64, now: u64) -> Group {
    served_from(c.group_entries(), g, now)->Some_0
}

pub open spec fn member_at(c: ClientCache, g: i64, m: i64, now: u64) -> Member {
    served_from(c.member_entries(), (g, m), now)->Some_0
}

pub open spec fn friend_at(c: ClientCache, uin: i64, now: u64) -> Option<Friend> {
    first_friend(served(c.friend_entry(), now)->Some_0@.0, uin)
}

pub open spec fn empty_source(seqs: Vec<i32>, rands: Vec<i32>) -> bool {
    seqs@.len() == 0 || rands@.len() == 0
}

/// Why converting `ev` fails once every entity it reads is cached.
pub open spec fn failure_of(ev: RawEvent, c: ClientCache, now: u64) -> Option<ConvertError> {
    match ev {
        RawEvent::GroupMessage { seqs, rands, .. } => if empty_source(seqs, rands) {
            Some(ConvertError::EmptySource)
        } else {
            None
        },
        RawEvent::GroupAudioMessage { seqs, rands, .. } => if empty_source(seqs, rands) {
            Some(ConvertError::EmptySource)
        } else {
            None
        },
        RawEvent::GroupTempMessage { seqs, rands, .. } => if empty_source(seqs, rands) {
            Some(ConvertError::EmptySource)
        } else {
            None
        },
        RawEvent::FriendMessage { seqs, rands, from_uin, .. } => if empty_source(seqs, rands) {
            Some(ConvertError::EmptySource)
        } else if friend_at(c, from_uin, now) is None {
            Some(ConvertError::FriendNotFound(from_uin))
        } else {
            None
        },
        RawEvent::FriendAudioMessage { seqs, rands, from_uin, .. } => if empty_source(
            seqs,
            rands,
        ) {
            Some(ConvertError::EmptySource)
        } else if friend_at(c, from_uin, now) is None {
            Some(ConvertError::FriendNotFound(from_uin))
        } else {
            None
        },
        RawEvent::FriendMessageRecall { friend_uin, .. } => if friend_at(c, friend_uin, now) is None {
            Some(ConvertError::FriendNotFound(friend_uin))
        } else {
            None
        },
        RawEvent::FriendPoke { sender, .. } => if friend_at(c, sender, now) is None {
            Some(ConvertError::FriendNotFound(sender))
        } else {
            None
        },
        _ => None,
    }
}

/// `s` is the source of a message with these sequence numbers, nonces and time.
pub open spec fn source_of(s: MessageSource, seqs: Vec<i32>, rands: Vec<i32>, time: i32) -> bool {
    s.seq == seqs@[0] && s.rand == rands@[0] && s.raw_seqs@ == seqs@ && s.raw_rands@ == rands@
        && s.time == time
}

/// The record of a voice message.
pub open spec fn audio_record(url: Seq<char>, audio: u64) -> RecordV {
    seq![
        ("type"@, ValueV::Str("Audio"@)),
        ("url"@, ValueV::Str(url)),
        ("raw"@, ValueV::Handle(Handle::Audio(audio))),
    ]
}

/// `e` is the record of `ev`, with the entities that the cache `c` serves at `now`.
pub open spec fn delivered(ev: RawEvent, e: Event, c: ClientCache, now: u64) -> bool {
    match ev {
        RawEvent::GroupMessage { seqs, rands, time, group_code, from_uin, elements } => e matches Event::GroupMessage { source, content, group, sender } && source_of(source, seqs, rands, time)
            && records_view(content@) == records_of(chain_view(elements@)) && group == group_at(c, group_code, now)
            && sender == member_at(c, group_code, from_uin, now),
        RawEvent::GroupAudioMessage { seqs, rands, time, group_code, from_uin, url, audio } => e matches Event::GroupMessage { source, content, group, sender } && source_of(source, seqs, rands, time)
            && records_view(content@) == seq![audio_record(url@, audio)] && group == group_at(c, group_code, now)
            && sender == member_at(c, group_code, from_uin, now),
        RawEvent::GroupTempMessage { seqs, rands, time, group_code, from_uin, elements } => e matches Event::TempMessage { source, content, group, sender } && source_of(source, seqs, rands, time)
            && records_view(content@) == records_of(chain_view(elements@)) && group == group_at(c, group_code, now)
            && sender == member_at(c, group_code, from_uin, now),
        RawEvent::FriendMessage { seqs, rands, time, from_uin, elements } => e matches Event::FriendMessage { source, content, sender } && source_of(source, seqs, rands, time)
            && records_view(content@) == records_of(chain_view(elements@)) && Some(sender) == friend_at(c, from_uin, now),
        RawEvent::FriendAudioMessage { seqs, rands, time, from_uin, url, audio } => e matches Event::FriendMessage { source, content, sender } && source_of(source, seqs, rands, time)
            && records_view(content@) == seq![audio_record(url@, audio)] && Some(sender) == friend_at(c, from_uin, now),
        RawEvent::GroupMessageRecall { time, group_code, author_uin, operator_uin, msg_seq } => e == Event::GroupRecallMessage {
            time,
            group: group_at(c, group_code, now),
            author: member_at(c, group_code, author_uin, now),
            operator: member_at(c, group_code, operator_uin, now),
            seq: msg_seq,
        },
        RawEvent::FriendMessageRecall { time, friend_uin, msg_seq } => friend_at(c, friend_uin, now) matches Some(f) && e == Event::FriendRecallMessage { time, author: f, seq: msg_seq },
        RawEvent::GroupPoke { group_code, sender, receiver } => e == Event::GroupNudge {
            group: group_at(c, group_code, now),
            sender: member_at(c, group_code, sender, now),
            receiver: member_at(c, group_code, receiver, now),
        },
        RawEvent::FriendPoke { sender, .. } => friend_at(c, sender, now) matches Some(f) && e == Event::FriendNudge { sender: f },
        RawEvent::NewFriend(f) => e == Event::NewFriend { friend: f },
        RawEvent::NewMember { group_code, member_uin } => e == Event::NewMember {
            group: group_at(c, group_code, now),
            member: member_at(c, group_code, member_uin, now),
        },
        RawEvent::GroupLeave { group_code, member_uin } => e == Event::MemberLeaveGroup {
            group_uin: group_code,
            member_uin,
        },
        RawEvent::GroupDisband { group_code, operator_uin } => e == Event::GroupDisband {
            group_uin: group_code,
            operator_uin,
        },
        RawEvent::DeleteFriend { uin } => e == Event::FriendDeleted { friend_uin: uin },
        RawEvent::GroupMute { group_code, operator_uin, target_uin, duration_secs } => if target_uin == 0 {
            e == Event::GroupMute {
                group: group_at(c, group_code, now),
                operator: member_at(c, group_code, operator_uin, now),
                status: duration_secs == 0,
            }
        } else {
            e == Event::MemberMute {
                group: group_at(c, group_code, now),
                operator: member_at(c, group_code, operator_uin, now),
                target: member_at(c, group_code, target_uin, now),
                duration: if duration_secs == 0 {
                    None
                } else {
                    Some(duration_secs)
                },
            }
        },
        RawEvent::MemberPermissionChange { group_code, member_uin, new_permission } => e == Event::MemberPermissionChange {
            group: group_at(c, group_code, now),
            target: member_at(c, group_code, member_uin, now),
            permission: new_permission,
        },
        RawEvent::GroupNameUpdate { group_code, operator_uin, group_name } => e == Event::GroupInfoUpdate {
            group: group_at(c, group_code, now),
            operator: member_at(c, group_code, operator_uin, now),
            name: group_name,
        },
        RawEvent::GroupRequest { msg_seq, msg_time, group_code, group_name, req_uin, req_nick, suspicious, invitor_uin, invitor_nick } => e == Event::JoinGroupRequest {
            seq: msg_seq,
            time: msg_time,
            group_uin: group_code,
            group_name,
            request_uin: req_uin,
            request_nickname: req_nick,
            suspicious,
            invitor_uin,
            invitor_nickname: invitor_nick,
        },
        RawEvent::SelfInvited { msg_seq, msg_time, group_code, group_name, invitor_uin, invitor_nick } => e == Event::JoinGroupInvitation {
            seq: msg_seq,
            time: msg_time,
            group_uin: group_code,
            group_name,
            invitor_uin,
            invitor_nickname: invitor_nick,
        },
        RawEvent::NewFriendRequest { msg_seq, req_uin, req_nick, message } => e == Event::NewFriendRequest {
            seq: msg_seq,
            uin: req_uin,
            nickname: req_nick,
            message,
        },
        RawEvent::Unknown { debug } => e == Event::UnknownEvent { internal_repr: debug },
        _ => false,
    }
}

/// The cache after `inv` is applied, as entries.
pub open spec fn invalidated(c: ClientCache, after: ClientCache, inv: Option<Invalidation>) -> bool {
    &&& after.friend_entry() == (match inv {
        Some(Invalidation::FriendList) => None,
        _ => c.friend_entry(),
    })
    &&& after.group_entries() == (match inv {
        Some(Invalidation::Group(g)) => c.group_entries().remove(g),
        _ => c.group_entries(),
    })
    &&& after.member_entries() == (match inv {
        Some(Invalidation::Member(g, m)) => c.member_entries().remove((g, m)),
        _ => c.member_entries(),
    })
}

/// The records of a voice message.
fn audio_content(url: &String, audio: u64) -> (r: Vec<Record>)
    ensures
        records_view(r@) == seq![audio_record(url@, audio)],
{
    let mut fields: Vec<(String, Value)> = Vec::new();
    fields.push(tag("Audio"));
    fields.push(field("url", Value::Str(url.clone())));
    fields.push(field("raw", Value::Handle(Handle::Audio(audio))));
    let rec = Record { fields };
    assert(rec@ =~= audio_record(url@, audio));
    let mut r: Vec<Record> = Vec::new();
    r.push(rec);
    assert(records_view(r@) =~= seq![audio_record(url@, audio)]);
    r
}

/// The cache entry that `event` makes stale.
pub fn invalidation(event: &RawEvent) -> (r: Option<Invalidation>)
    ensures
        r == invalidation_of(*event),
{
    match event {
        RawEvent::GroupLeave { group_code, member_uin } => Some(
            Invalidation::Member(*group_code, *member_uin),
        ),
        RawEvent::GroupDisband { group_code, .. } => Some(Invalidation::Group(*group_code)),
        RawEvent::DeleteFriend { .. } => Some(Invalidation::FriendList),
        RawEvent::GroupMute { group_code, target_uin, .. } => if *target_uin == 0 {
            Some(Invalidation::Group(*group_code))
        } else {
            Some(Invalidation::Member(*group_code, *target_uin))
        },
        RawEvent::MemberPermissionChange { group_code, member_uin, .. } => Some(
            Invalidation::Member(*group_code, *member_uin),
        ),
        RawEvent::GroupNameUpdate { group_code, .. } => Some(Invalidation::Group(*group_code)),
        _ => None,
    }
}

/// Converts `event` with what the cache holds, reading nothing and changing nothing.
fn resolve(cache: &ClientCache, event: &RawEvent, self_uin: i64, now: u64) -> (r: Step)
    ensures
        r matches Step::Fetch(l) ==> first_missing(*cache, lookups_of(*event, self_uin), now)
            == Some(l),
        !(r is Fetch) ==> first_missing(*cache, lookups_of(*event, self_uin), now) is None,
        r is Skip <==> skipped(*event, self_uin),
        r matches Step::Fail(err) ==> failure_of(*event, *cache, now) == Some(err),
        r matches Step::Deliver(e) ==> failure_of(*event, *cache, now) is None && delivered(
            *event,
            e,
            *cache,
            now,
        ),
{
    proof {
        reveal_with_fuel(first_missing, 4);
    }
    match event {
        RawEvent::Login(_) => Step::Skip,
        RawEvent::ClientDisconnect(_) => Step::Skip,
        RawEvent::GroupMessage { seqs, rands, time, group_code, from_uin, elements } => {
            let group = match cache.peek_group(*group_code, now) {
                Some(g) => g,
                None => return Step::Fetch(Lookup::Group(*group_code)),
            };
            let sender = match cache.peek_member(*group_code, *from_uin, now) {
                Some(m) => m,
                None => return Step::Fetch(Lookup::Member(*group_code, *from_uin)),
            };
            let source = match MessageSource::new(seqs, rands, *time) {
                Ok(s) => s,
                Err(e) => return Step::Fail(e),
            };
            let content = serialize_message_chain(elements);
            Step::Deliver(Event::GroupMessage { source, content, group, sender })
        },
        RawEvent::GroupAudioMessage { seqs, rands, time, group_code, from_uin, url, audio } => {
            let group = match cache.peek_group(*group_code, now) {
                Some(g) => g,
                None => return Step::Fetch(Lookup::Group(*group_code)),
            };
            let sender = match cache.peek_member(*group_code, *from_uin, now) {
                Some(m) => m,
                None => return Step::Fetch(Lookup::Member(*group_code, *from_uin)),
            };
            let source = match MessageSource::new(seqs, rands, *time) {
                Ok(s) => s,
                Err(e) => return Step::Fail(e),
            };
            let content = audio_content(url, *audio);
            Step::Deliver(Event::GroupMessage { source, content, group, sender })
        },
        RawEvent::GroupTempMessage { seqs, rands, time, group_code, from_uin, elements } => {
            let group = match cache.peek_group(*group_code, now) {
                Some(g) => g,
                None => return Step::Fetch(Lookup::Group(*group_code)),
            };
            let sender = match cache.peek_member(*group_code, *from_uin, now) {
                Some(m) => m,
                None => return Step::Fetch(Lookup::Member(*group_code, *from_uin)),
            };
            let source = match MessageSource::new(seqs, rands, *time) {
                Ok(s) => s,
                Err(e) => return Step::Fail(e),
            };
            let content = serialize_message_chain(elements);
            Step::Deliver(Event::TempMessage { source, content, group, sender })
        },
        RawEvent::FriendMessage { seqs, rands, time, from_uin, elements } => {
            let list = match cache.peek_friend_list(now) {
                Some(l) => l,
                None => return Step::Fetch(Lookup::FriendList),
            };
            let source = match MessageSource::new(seqs, rands, *time) {
                Ok(s) => s,
                Err(e) => return Step::Fail(e),
            };
            let sender = match list.find_friend(*from_uin) {
                Some(f) => f,
                None => return Step::Fail(ConvertError::FriendNotFound(*from_uin)),
            };
            let content = serialize_message_chain(elements);
            Step::Deliver(Event::FriendMessage { source, content, sender })
        },
        RawEvent::FriendAudioMessage { seqs, rands, time, from_uin, url, audio } => {
            let list = match cache.peek_friend_list(now) {
                Some(l) => l,
                None => return Step::Fetch(Lookup::FriendList),
            };
            let source = match MessageSource::new(seqs, rands, *time) {
                Ok(s) => s,
                Err(e) => return Step::Fail(e),
            };
            let sender = match list.find_friend(*from_uin) {
                Some(f) => f,
                None => return Step::Fail(ConvertError::FriendNotFound(*from_uin)),
            };
            let content = audio_content(url, *audio);
            Step::Deliver(Event::FriendMessage { source, content, sender })
        },
        RawEvent::GroupMessageRecall { time, group_code, author_uin, operator_uin, msg_seq } => {
            let group = match cache.peek_group(*group_code, now) {
                Some(g) => g,
                None => return Step::Fetch(Lookup::Group(*group_code)),
            };
            let author = match cache.peek_member(*group_code, *author_uin, now) {
                Some(m) => m,
                None => return Step::Fetch(Lookup::Member(*group_code, *author_uin)),
            };
            let operator = match cache.peek_member(*group_code, *operator_uin, now) {
                Some(m) => m,
                None => return Step::Fetch(Lookup::Member(*group_code, *operator_uin)),
            };
            Step::Deliver(
                Event::GroupRecallMessage { time: *time, group, author, operator, seq: *msg_seq },
            )
        },
        RawEvent::FriendMessageRecall { time, friend_uin, msg_seq } => {
            let list = match cache.peek_friend_list(now) {
                Some(l) => l,
                None => return Step::Fetch(Lookup::FriendList),
            };
            let author = match list.find_friend(*friend_uin) {
                Some(f) => f,
                None => return Step::Fail(ConvertError::FriendNotFound(*friend_uin)),
            };
            Step::Deliver(Event::FriendRecallMessage { time: *time, author, seq: *msg_seq })
        },
        RawEvent::GroupPoke { group_code, sender, receiver } => {
            if *sender == self_uin {
                return Step::Skip;
            }
            let group = match cache.peek_group(*group_code, now) {
                Some(g) => g,
                None => return Step::Fetch(Lookup::Group(*group_code)),
            };
            let s = match cache.peek_member(*group_code, *sender, now) {
                Some(m) => m,
                None => return Step::Fetch(Lookup::Member(*group_code, *sender)),
            };
            let rc = match cache.peek_member(*group_code, *receiver, now) {
                Some(m) => m,
                None => return Step::Fetch(Lookup::Member(*group_code, *receiver)),
            };
            Step::Deliver(Event::GroupNudge { group, sender: s, receiver: rc })
        },
        RawEvent::FriendPoke { sender, .. } => {
            if *sender == self_uin {
                return Step::Skip;
            }
            let list = match cache.peek_friend_list(now) {
                Some(l) => l,
                None => return Step::Fetch(Lookup::FriendList),
            };
            let f = match list.find_friend(*sender) {
                Some(f) => f,
                None => return Step::Fail(ConvertError::FriendNotFound(*sender)),
            };
            Step::Deliver(Event::FriendNudge { sender: f })
        },
        RawEvent::NewFriend(f) => Step::Deliver(Event::NewFriend { friend: f.clone() }),
        RawEvent::NewMember { group_code, member_uin } => {
            let group = match cache.peek_group(*group_code, now) {
                Some(g) => g,
                None => return Step::Fetch(Lookup::Group(*group_code)),
            };
            let member = match cache.peek_member(*group_code, *member_uin, now) {
                Some(m) => m,
                None => return Step::Fetch(Lookup::Member(*group_code, *member_uin)),
            };
            Step::Deliver(Event::NewMember { group, member })
        },
        RawEvent::GroupLeave { group_code, member_uin } => Step::Deliver(
            Event::MemberLeaveGroup { group_uin: *group_code, member_uin: *member_uin },
        ),
        RawEvent::GroupDisband { group_code, operator_uin } => Step::Deliver(
            Event::GroupDisband { group_uin: *group_code, operator_uin: *operator_uin },
        ),
        RawEvent::DeleteFriend { uin } => Step::Deliver(Event::FriendDeleted { friend_uin: *uin }),
        RawEvent::GroupMute { group_code, operator_uin, target_uin, duration_secs } => {
            let group = match cache.peek_group(*group_code, now) {
                Some(g) => g,
                None => return Step::Fetch(Lookup::Group(*group_code)),
            };
            let operator = match cache.peek_member(*group_code, *operator_uin, now) {
                Some(m) => m,
                None => return Step::Fetch(Lookup::Member(*group_code, *operator_uin)),
            };
            if *target_uin == 0 {
                return Step::Deliver(
                    Event::GroupMute { group, operator, status: *duration_secs == 0 },
                );
            }
            let target = match cache.peek_member(*group_code, *target_uin, now) {
                Some(m) => m,
                None => return Step::Fetch(Lookup::Member(*group_code, *target_uin)),
            };
            let duration = if *duration_secs == 0 {
                None
            } else {
                Some(*duration_secs)
            };
            Step::Deliver(Event::MemberMute { group, operator, target, duration })
        },
        RawEvent::MemberPermissionChange { group_code, member_uin, new_permission } => {
            let group = match cache.peek_group(*group_code, now) {
                Some(g) => g,
                None => return Step::Fetch(Lookup::Group(*group_code)),
            };
            let target = match cache.peek_member(*group_code, *member_uin, now) {
                Some(m) => m,
                None => return Step::Fetch(Lookup::Member(*group_code, *member_uin)),
            };
            Step::Deliver(
                Event::MemberPermissionChange { group, target, permission: *new_permission },
            )
        },
        RawEvent::GroupNameUpdate { group_code, operator_uin, group_name } => {
            let group = match cache.peek_group(*group_code, now) {
                Some(g) => g,
                None => return Step::Fetch(Lookup::Group(*group_code)),
            };
            let operator = match cache.peek_member(*group_code, *operator_uin, now) {
                Some(m) => m,
                None => return Step::Fetch(Lookup::Member(*group_code, *operator_uin)),
            };
            Step::Deliver(Event::GroupInfoUpdate { group, operator, name: group_name.clone() })
        },
        RawEvent::GroupRequest {
            msg_seq,
            msg_time,
            group_code,
            group_name,
            req_uin,
            req_nick,
            suspicious,
            invitor_uin,
            invitor_nick,
        } => Step::Deliver(
            Event::JoinGroupRequest {
                seq: *msg_seq,
                time: *msg_time,
                group_uin: *group_code,
                group_name: group_name.clone(),
                request_uin: *req_uin,
                request_nickname: req_nick.clone(),
                suspicious: *suspicious,
                invitor_uin: *invitor_uin,
                invitor_nickname: match invitor_nick {
                    Some(n) => Some(n.clone()),
                    None => None,
                },
            },
        ),
        RawEvent::SelfInvited {
            msg_seq,
            msg_time,
            group_code,
            group_name,
            invitor_uin,
            invitor_nick,
        } => Step::Deliver(
            Event::JoinGroupInvitation {
                seq: *msg_seq,
                time: *msg_time,
                group_uin: *group_code,
                group_name: group_name.clone(),
                invitor_uin: *invitor_uin,
                invitor_nickname: invitor_nick.clone(),
            },
        ),
        RawEvent::NewFriendRequest { msg_seq, req_uin, req_nick, message } => Step::Deliver(
            Event::NewFriendRequest {
                seq: *msg_seq,
                uin: *req_uin,
                nickname: req_nick.clone(),
                message: message.clone(),
            },
        ),
        RawEvent::Unknown { debug } => Step::Deliver(
            Event::UnknownEvent { internal_repr: debug.clone() },
        ),
    }
}

/// Converts one event with the entities that `cache` holds at `now`.
///
/// When an entity that the event reads is not cached, the result names it and the cache is
/// unchanged: fetch it, store it and convert again. Otherwise the cache entry that the event
/// makes stale is dropped after the entities were read, so the record shows them as they were
/// and the next read fetches them anew.
pub fn convert(cache: &mut ClientCache, event: &RawEvent, self_uin: i64, now: u64) -> (r: Step)
    requires
        old(cache).wf(),
    ensures
        final(cache).wf(),
        r matches Step::Fetch(l) ==> first_missing(*old(cache), lookups_of(*event, self_uin), now)
            == Some(l) && invalidated(*old(cache), *final(cache), None),
        !(r is Fetch) ==> first_missing(*old(cache), lookups_of(*event, self_uin), now) is None
            && invalidated(*old(cache), *final(cache), invalidation_of(*event)),
        r is Skip <==> skipped(*event, self_uin),
        r matches Step::Fail(err) ==> failure_of(*event, *old(cache), now) == Some(err),
        r matches Step::Deliver(e) ==> failure_of(*event, *old(cache), now) is None && delivered(
            *event,
            e,
            *old(cache),
            now,
        ),
{
    let step = resolve(cache, event, self_uin, now);
    if let Step::Fetch(_) = step {
        return step;
    }
    if let Some(inv) = invalidation(event) {
        cache.invalidate(inv);
    }
    step
}

/// A nudge sent by the account itself is never delivered and reads nothing from the cache.
pub proof fn lemma_self_nudge_suppressed(self_uin: i64, receiver: i64, group_code: i64)
    ensures
        skipped(RawEvent::FriendPoke { sender: self_uin, receiver }, self_uin),
        lookups_of(RawEvent::FriendPoke { sender: self_uin, receiver }, self_uin).len() == 0,
        skipped(RawEvent::GroupPoke { group_code, sender: self_uin, receiver }, self_uin),
        lookups_of(RawEvent::GroupPoke { group_code, sender: self_uin, receiver }, self_uin).len()
            == 0,
{
}

/// An event of a kind without a record of its own is delivered as exactly one unknown-event
/// record carrying its debug text, whatever the cache holds.
pub proof fn lemma_unknown_event_survives(c: ClientCache, debug: String, self_uin: i64, now: u64)
    ensures
        !skipped(RawEvent::Unknown { debug }, self_uin),
        first_missing(c, lookups_of(RawEvent::Unknown { debug }, self_uin), now) is None,
        failure_of(RawEvent::Unknown { debug }, c, now) is None,
        forall|e: Event|
            delivered(RawEvent::Unknown { debug }, e, c, now) <==> e == (Event::UnknownEvent {
                internal_repr: debug,
            }),
{
}

/// After a member leaves a group, the next read of that member misses the cache, so it is
/// fetched anew instead of served from before the change.
pub proof fn lemma_leave_invalidates_member(
    before: ClientCache,
    after: ClientCache,
    group_code: i64,
    member_uin: i64,
    now: u64,
)
    requires
        invalidated(before, after, invalidation_of(RawEvent::GroupLeave { group_code, member_uin })),
    ensures
        served_from(after.member_entries(), (group_code, member_uin), now) is None,
{
}

} // verus!
