//! The two record types a directory stores: a user account and a group.
//!
//! Each record is immutable once constructed and is replaced wholesale when a
//! record with the same key is inserted again. A record's mathematical view
//! carries the same fields with every string read as a `Seq<char>`.

use vstd::prelude::*;

verus! {

/// A user account: a numeric id (the table key), a display name, the id of
/// its primary group (not validated against the group table), and the home
/// directory and login shell paths.
pub struct User {
    pub uid: u32,
    pub name: String,
    pub primary_group: u32,
    pub home_dir: String,
    pub shell: String,
}

/// The mathematical view of a [`User`].
#[verifier::ext_equal]
pub ghost struct UserView {
    pub uid: u32,
    pub name: Seq<char>,
    pub primary_group: u32,
    pub home_dir: Seq<char>,
    pub shell: Seq<char>,
}

impl View for User {
    type V = UserView;

    open spec fn view(&self) -> UserView {
        UserView {
            uid: self.uid,
            name: self.name@,
            primary_group: self.primary_group,
            home_dir: self.home_dir@,
            shell: self.shell@,
        }
    }
}

impl DeepView for User {
    type V = UserView;

    open spec fn deep_view(&self) -> UserView {
        self@
    }
}

impl Clone for User {
    fn clone(&self) -> (r: Self)
        ensures
            r@ == self@,
    {
        User {
            uid: self.uid,
            name: self.name.clone(),
            primary_group: self.primary_group,
            home_dir: self.home_dir.clone(),
            shell: self.shell.clone(),
        }
    }
}

/// A group: a numeric id (the table key), a display name, and the list of
/// member account names (informational only, not validated against the user
/// table).
pub struct Group {
    pub gid: u32,
    pub name: String,
    pub members: Vec<String>,
}

/// The mathematical view of a [`Group`].
#[verifier::ext_equal]
pub ghost struct GroupView {
    pub gid: u32,
    pub name: Seq<char>,
    pub members: Seq<Seq<char>>,
}

impl View for Group {
    type V = GroupView;

    open spec fn view(&self) -> GroupView {
        GroupView { gid: self.gid, name: self.name@, members: self.members.deep_view() }
    }
}

impl DeepView for Group {
    type V = GroupView;

    open spec fn deep_view(&self) -> GroupView {
        self@
    }
}

impl Clone for Group {
    fn clone(&self) -> (r: Self)
        ensures
            r@ == self@,
    {
        Group { gid: self.gid, name: self.name.clone(), members: self.members.clone() }
    }
}

} // verus!
