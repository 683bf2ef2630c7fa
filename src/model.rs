//! Entity snapshots produced from protocol responses.
use vstd::prelude::*;

verus! {

/// Gender as reported by the protocol (`0` male, `1` female, anything else unknown).
#[derive(Debug, PartialEq, Eq, Clone, Copy)]
pub enum Gender {
    Male,
    Female,
    Unknown,
}

/// Role of a member inside a group.
#[derive(Debug, PartialEq, Eq, Clone, Copy)]
pub enum Permission {
    Owner,
    Administrator,
    Member,
}

pub open spec fn gender_of(code: u8) -> Gender {
    if code == 0 {
        Gender::Male
    } else if code == 1 {
        Gender::Female
    } else {
        Gender::Unknown
    }
}

/// Maps the protocol's gender code to a [`Gender`].
pub fn to_gender(code: u8) -> (r: Gender)
    ensures
        r == gender_of(code),
{
    match code {
        0 => Gender::Male,
        1 => Gender::Female,
        _ => Gender::Unknown,
    }
}

impl Gender {
    /// The name under which the gender is exposed to consumers.
    pub fn name(&self) -> (r: &'static str)
        ensures
            r@ == (match self {
                Gender::Male => "Male"@,
                Gender::Female => "Female"@,
                Gender::Unknown => "Unknown"@,
            }),
    {
        proof {
            reveal_strlit("Male");
            reveal_strlit("Female");
            reveal_strlit("Unknown");
        }
        match self {
            Gender::Male => "Male",
            Gender::Female => "Female",
            Gender::Unknown => "Unknown",
        }
    }
}

impl Permission {
    /// The name under which the permission is exposed to consumers.
    pub fn name(&self) -> (r: &'static str)
        ensures
            r@ == (match self {
                Permission::Owner => "Owner"@,
                Permission::Administrator => "Admin"@,
                Permission::Member => "Member"@,
            }),
    {
        proof {
            reveal_strlit("Owner");
            reveal_strlit("Admin");
            reveal_strlit("Member");
        }
        match self {
            Permission::Owner => "Owner",
            Permission::Administrator => "Admin",
            Permission::Member => "Member",
        }
    }
}

/// A friend entry.
#[derive(Debug, PartialEq, Eq)]
pub struct Friend {
    pub uin: i64,
    pub nick: String,
    pub remark: String,
    pub face_id: i16,
    pub group_id: u8,
}

impl Clone for Friend {
    fn clone(&self) -> (r: Self)
        ensures
            r == *self,
    {
        Friend {
            uin: self.uin,
            nick: self.nick.clone(),
            remark: self.remark.clone(),
            face_id: self.face_id,
            group_id: self.group_id,
        }
    }
}

/// A group of friends, as the friend list arranges them.
#[derive(Debug, PartialEq, Eq)]
pub struct FriendGroup {
    pub group_id: u8,
    pub name: String,
    pub total_count: i32,
    pub online_count: i32,
    pub seq_id: u8,
}

impl Clone for FriendGroup {
    fn clone(&self) -> (r: Self)
        ensures
            r == *self,
    {
        FriendGroup {
            group_id: self.group_id,
            name: self.name.clone(),
            total_count: self.total_count,
            online_count: self.online_count,
            seq_id: self.seq_id,
        }
    }
}

impl FriendGroup {
    pub fn id(&self) -> (r: u8)
        ensures
            r == self.group_id,
    {
        self.group_id
    }

    pub fn name(&self) -> (r: String)
        ensures
            r@ == self.name@,
    {
        self.name.clone()
    }

    pub fn friend_count(&self) -> (r: i32)
        ensures
            r == self.total_count,
    {
        self.total_count
    }

    pub fn online_count(&self) -> (r: i32)
        ensures
            r == self.online_count,
    {
        self.online_count
    }

    pub fn seq_id(&self) -> (r: u8)
        ensures
            r == self.seq_id,
    {
        self.seq_id
    }
}

/// The first friend in `s` whose uin is `uin`.
pub open spec fn first_friend(s: Seq<Friend>, uin: i64) -> Option<Friend>
    decreases s.len(),
{
    if s.len() == 0 {
        None
    } else if s[0].uin == uin {
        Some(s[0])
    } else {
        first_friend(s.drop_first(), uin)
    }
}

/// No two friend groups share an id.
pub open spec fn unique_group_ids(groups: Seq<FriendGroup>) -> bool {
    forall|i: int, j: int|
        0 <= i < groups.len() && 0 <= j < groups.len() && i != j ==> #[trigger] groups[i].group_id
            != #[trigger] groups[j].group_id
}

/// The friends of the account in the order of the latest fetch, with their groups.
#[derive(Debug, PartialEq, Eq)]
pub struct FriendList {
    entries: Vec<Friend>,
    friend_groups: Vec<FriendGroup>,
    pub total_count: i16,
    pub online_count: i16,
}

impl View for FriendList {
    type V = (Seq<Friend>, Seq<FriendGroup>, i16, i16);

    closed spec fn view(&self) -> Self::V {
        (self.entries@, self.friend_groups@, self.total_count, self.online_count)
    }
}

impl Clone for FriendList {
    fn clone(&self) -> (r: Self)
        ensures
            r@ == self@,
    {
        let entries = self.entries.clone();
        let friend_groups = self.friend_groups.clone();
        assert(entries@ =~= self.entries@);
        assert(friend_groups@ =~= self.friend_groups@);
        FriendList {
            entries,
            friend_groups,
            total_count: self.total_count,
            online_count: self.online_count,
        }
    }
}

impl FriendList {
    pub closed spec fn wf(&self) -> bool {
        unique_group_ids(self.friend_groups@)
    }

    pub fn new(
        entries: Vec<Friend>,
        friend_groups: Vec<FriendGroup>,
        total_count: i16,
        online_count: i16,
    ) -> (r: Self)
        requires
            unique_group_ids(friend_groups@),
        ensures
            r@ == (entries@, friend_groups@, total_count, online_count),
            r.wf(),
    {
        FriendList { entries, friend_groups, total_count, online_count }
    }

    /// All friends, in list order.
    pub fn friends(&self) -> (r: Vec<Friend>)
        ensures
            r@ == self@.0,
    {
        let r = self.entries.clone();
        assert(r@ =~= self.entries@);
        r
    }

    /// The first friend whose uin is `uin`.
    pub fn find_friend(&self, uin: i64) -> (r: Option<Friend>)
        ensures
            r == first_friend(self@.0, uin),
    {
        let n = self.entries.len();
        let mut i: usize = 0;
        assert(self.entries@.subrange(0, n as int) =~= self.entries@);
        while i < n
            invariant
                n == self.entries@.len(),
                0 <= i <= n,
                first_friend(self.entries@, uin) == first_friend(
                    self.entries@.subrange(i as int, n as int),
                    uin,
                ),
            decreases n - i,
        {
            let ghost rest = self.entries@.subrange(i as int, n as int);
            assert(rest[0] == self.entries@[i as int]);
            if self.entries[i].uin == uin {
                let f = self.entries[i].clone();
                return Some(f);
            }
            assert(rest.drop_first() =~= self.entries@.subrange(i + 1, n as int));
            i = i + 1;
        }
        None
    }

    /// All friend groups.
    pub fn friend_groups(&self) -> (r: Vec<FriendGroup>)
        ensures
            r@ == self@.1,
    {
        let r = self.friend_groups.clone();
        assert(r@ =~= self.friend_groups@);
        r
    }

    /// The friend group with id `group_id`.
    pub fn find_friend_group(&self, group_id: u8) -> (r: Option<FriendGroup>)
        ensures
            match r {
                Some(g) => exists|i: int|
                    0 <= i < self@.1.len() && #[trigger] self@.1[i] == g && g.group_id == group_id,
                None => forall|i: int|
                    0 <= i < self@.1.len() ==> (#[trigger] self@.1[i]).group_id != group_id,
            },
    {
        let mut i: usize = 0;
        while i < self.friend_groups.len()
            invariant
                0 <= i <= self.friend_groups@.len(),
                forall|j: int| 0 <= j < i ==> (#[trigger] self.friend_groups@[j]).group_id != group_id,
            decreases self.friend_groups@.len() - i,
        {
            if self.friend_groups[i].group_id == group_id {
                let g = self.friend_groups[i].clone();
                assert(self@.1[i as int] == g);
                return Some(g);
            }
            i = i + 1;
        }
        None
    }
}

/// A group snapshot. `last_msg_seq` is only known when the group was fetched on its own.
#[derive(Debug, PartialEq, Eq)]
pub struct Group {
    pub uin: i64,
    pub name: String,
    pub memo: String,
    pub owner_uin: i64,
    pub create_time: u32,
    pub level: u32,
    pub member_count: u16,
    pub max_member_count: u16,
    pub global_mute_timestamp: i64,
    pub mute_timestamp: i64,
    pub last_msg_seq: i64,
}

impl Clone for Group {
    fn clone(&self) -> (r: Self)
        ensures
            r == *self,
    {
        Group {
            uin: self.uin,
            name: self.name.clone(),
            memo: self.memo.clone(),
            owner_uin: self.owner_uin,
            create_time: self.create_time,
            level: self.level,
            member_count: self.member_count,
            max_member_count: self.max_member_count,
            global_mute_timestamp: self.global_mute_timestamp,
            mute_timestamp: self.mute_timestamp,
            last_msg_seq: self.last_msg_seq,
        }
    }
}

/// A group member snapshot.
#[derive(Debug, PartialEq, Eq)]
pub struct Member {
    pub group_uin: i64,
    pub uin: i64,
    pub gender: Gender,
    pub nickname: String,
    pub raw_card_name: String,
    pub level: u16,
    pub join_time: i64,
    pub last_speak_time: i64,
    pub special_title: String,
    pub special_title_expire_time: i64,
    pub mute_timestamp: i64,
    pub permission: Permission,
}

impl Clone for Member {
    fn clone(&self) -> (r: Self)
        ensures
            r == *self,
    {
        Member {
            group_uin: self.group_uin,
            uin: self.uin,
            gender: self.gender,
            nickname: self.nickname.clone(),
            raw_card_name: self.raw_card_name.clone(),
            level: self.level,
            join_time: self.join_time,
            last_speak_time: self.last_speak_time,
            special_title: self.special_title.clone(),
            special_title_expire_time: self.special_title_expire_time,
            mute_timestamp: self.mute_timestamp,
            permission: self.permission,
        }
    }
}

impl Member {
    /// The card name, falling back to the nickname when no card name is set.
    pub fn card_name(&self) -> (r: String)
        ensures
            r@ == (if self.raw_card_name@.len() == 0 {
                self.nickname@
            } else {
                self.raw_card_name@
            }),
    {
        if self.raw_card_name.as_str().is_empty() {
            self.nickname.clone()
        } else {
            self.raw_card_name.clone()
        }
    }
}

} // verus!
