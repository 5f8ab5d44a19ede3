//! The identity directory: two tables of records and one fixed current
//! identity, together with the spec functions that its contracts and the
//! [`crate::interface::Users`] trait speak of.

use vstd::prelude::*;

use crate::interface::Users;
use crate::record::Group;
use crate::record::GroupView;
use crate::record::User;
use crate::record::UserView;
use crate::table::group_ids_distinct;
use crate::table::group_map;
use crate::table::group_table_find_by_gid;
use crate::table::group_table_find_by_name;
use crate::table::group_table_insert;
use crate::table::user_ids_distinct;
use crate::table::user_map;
use crate::table::user_table_find_by_name;
use crate::table::user_table_find_by_uid;
use crate::table::user_table_insert;

verus! {

/// The mathematical view of a directory: the two tables as maps from key to
/// record view, and the stored current identity.
#[verifier::ext_equal]
pub ghost struct DirectoryView {
    pub users: Map<u32, UserView>,
    pub groups: Map<u32, GroupView>,
    pub current_uid: u32,
}

/// The directory after a user record is added: the user table gains (or
/// replaces) the entry under the record's id; nothing else moves.
pub open spec fn spec_add_user(d: DirectoryView, u: UserView) -> DirectoryView {
    DirectoryView { users: d.users.insert(u.uid, u), ..d }
}

/// The directory after a group record is added, symmetric to
/// [`spec_add_user`].
pub open spec fn spec_add_group(d: DirectoryView, g: GroupView) -> DirectoryView {
    DirectoryView { groups: d.groups.insert(g.gid, g), ..d }
}

/// What an exact user-id lookup answers.
pub open spec fn spec_lookup_user(d: DirectoryView, uid: u32) -> Option<UserView> {
    if d.users.contains_key(uid) {
        Some(d.users[uid])
    } else {
        None
    }
}

/// What an exact group-id lookup answers.
pub open spec fn spec_lookup_group(d: DirectoryView, gid: u32) -> Option<GroupView> {
    if d.groups.contains_key(gid) {
        Some(d.groups[gid])
    } else {
        None
    }
}

/// The current user id: the stored identity, verbatim.
pub open spec fn spec_current_uid(d: DirectoryView) -> u32 {
    d.current_uid
}

/// The current group id: the same stored identity, verbatim. The directory
/// keeps no separate group identity; this conflation is part of the design.
pub open spec fn spec_current_gid(d: DirectoryView) -> u32 {
    d.current_uid
}

/// The current user name: the name of the user record keyed by the stored
/// identity, if the user table holds one.
pub open spec fn spec_current_username(d: DirectoryView) -> Option<Seq<char>> {
    match spec_lookup_user(d, d.current_uid) {
        Some(u) => Some(u.name),
        None => None,
    }
}

/// The current group name: the name of the group record keyed by the stored
/// identity — the same value that answers the user queries — if the group
/// table holds one.
pub open spec fn spec_current_groupname(d: DirectoryView) -> Option<Seq<char>> {
    match spec_lookup_group(d, d.current_uid) {
        Some(g) => Some(g.name),
        None => None,
    }
}

/// The effective user id: the directory draws no distinction between real
/// and effective identity, so this is [`spec_current_uid`].
pub open spec fn spec_effective_uid(d: DirectoryView) -> u32 {
    spec_current_uid(d)
}

/// The effective group id, equal to [`spec_current_gid`].
pub open spec fn spec_effective_gid(d: DirectoryView) -> u32 {
    spec_current_gid(d)
}

/// The effective user name, equal to [`spec_current_username`].
pub open spec fn spec_effective_username(d: DirectoryView) -> Option<Seq<char>> {
    spec_current_username(d)
}

/// The effective group name, equal to [`spec_current_groupname`].
pub open spec fn spec_effective_groupname(d: DirectoryView) -> Option<Seq<char>> {
    spec_current_groupname(d)
}

/// An in-memory directory of users and groups with a fixed current identity,
/// to stand in for the operating system's databases under test.
pub struct MockUsers {
    users: Vec<User>,
    groups: Vec<Group>,
    uid: u32,
}

impl View for MockUsers {
    type V = DirectoryView;

    closed spec fn view(&self) -> DirectoryView {
        DirectoryView {
            users: user_map(self.users@),
            groups: group_map(self.groups@),
            current_uid: self.uid,
        }
    }
}

impl MockUsers {
    #[verifier::type_invariant]
    spec fn keys_distinct(self) -> bool {
        user_ids_distinct(self.users@) && group_ids_distinct(self.groups@)
    }

    /// Create an empty directory whose stored current identity is the given
    /// value. Any value is accepted, whether or not a record under it is
    /// ever added.
    pub fn with_current_uid(current_uid: u32) -> (users: MockUsers)
        ensures
            users@.users == Map::<u32, UserView>::empty(),
            users@.groups == Map::<u32, GroupView>::empty(),
            users@.current_uid == current_uid,
    {
        MockUsers { users: Vec::new(), groups: Vec::new(), uid: current_uid }
    }

    /// Add a user record under its id, replacing and handing back the record
    /// previously stored under that id, if any.
    pub fn add_user(&mut self, user: User) -> (previous: Option<User>)
        ensures
            final(self)@ == spec_add_user(old(self)@, user@),
            previous.deep_view() == spec_lookup_user(old(self)@, user.uid),
    {
        proof {
            use_type_invariant(&*self);
        }
        let mut users: Vec<User> = Vec::new();
        std::mem::swap(&mut users, &mut self.users);
        let previous = user_table_insert(&mut users, user);
        self.users = users;
        previous
    }

    /// Add a group record under its id, replacing and handing back the
    /// record previously stored under that id, if any.
    pub fn add_group(&mut self, group: Group) -> (previous: Option<Group>)
        ensures
            final(self)@ == spec_add_group(old(self)@, group@),
            previous.deep_view() == spec_lookup_group(old(self)@, group.gid),
    {
        proof {
            use_type_invariant(&*self);
        }
        let mut groups: Vec<Group> = Vec::new();
        std::mem::swap(&mut groups, &mut self.groups);
        let previous = group_table_insert(&mut groups, group);
        self.groups = groups;
        previous
    }
}

impl Users for MockUsers {
    open spec fn directory(&self) -> DirectoryView {
        self@
    }

    fn get_user_by_uid(&mut self, uid: u32) -> (r: Option<User>) {
        proof {
            use_type_invariant(&*self);
        }
        user_table_find_by_uid(&self.users, uid)
    }

    fn get_user_by_name(&mut self, username: &str) -> (r: Option<User>) {
        proof {
            use_type_invariant(&*self);
        }
        user_table_find_by_name(&self.users, username)
    }

    fn get_group_by_gid(&mut self, gid: u32) -> (r: Option<Group>) {
        proof {
            use_type_invariant(&*self);
        }
        group_table_find_by_gid(&self.groups, gid)
    }

    fn get_group_by_name(&mut self, group_name: &str) -> (r: Option<Group>) {
        proof {
            use_type_invariant(&*self);
        }
        group_table_find_by_name(&self.groups, group_name)
    }

    fn get_current_uid(&mut self) -> (r: u32) {
        self.uid
    }

    fn get_current_username(&mut self) -> (r: Option<String>) {
        proof {
            use_type_invariant(&*self);
        }
        let uid = self.uid;
        match user_table_find_by_uid(&self.users, uid) {
            Some(user) => Some(user.name),
            None => None,
        }
    }

    fn get_current_gid(&mut self) -> (r: u32) {
        self.uid
    }

    fn get_current_groupname(&mut self) -> (r: Option<String>) {
        proof {
            use_type_invariant(&*self);
        }
        let gid = self.uid;
        match group_table_find_by_gid(&self.groups, gid) {
            Some(group) => Some(group.name),
            None => None,
        }
    }

    fn get_effective_uid(&mut self) -> (r: u32) {
        self.uid
    }

    fn get_effective_username(&mut self) -> (r: Option<String>) {
        proof {
            use_type_invariant(&*self);
        }
        let uid = self.uid;
        match user_table_find_by_uid(&self.users, uid) {
            Some(user) => Some(user.name),
            None => None,
        }
    }

    fn get_effective_gid(&mut self) -> (r: u32) {
        self.uid
    }

    fn get_effective_groupname(&mut self) -> (r: Option<String>) {
        proof {
            use_type_invariant(&*self);
        }
        let gid = self.uid;
        match group_table_find_by_gid(&self.groups, gid) {
            Some(group) => Some(group.name),
            None => None,
        }
    }
}

} // verus!

