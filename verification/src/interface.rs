//! The capability interface of a directory of identities.
//!
//! Calling code is written against this trait alone, so that an in-memory
//! directory and a real provider are interchangeable. Each method's contract
//! is stated over the implementor's abstract [`DirectoryView`]; every query
//! leaves that view unchanged, and absence is always an empty result, never
//! an error. Every method takes a mutable receiver — a design choice kept so
//! that a caching, OS-backed implementor can fill its cache during lookups.

use vstd::prelude::*;

use crate::directory::DirectoryView;
use crate::directory::spec_current_gid;
use crate::directory::spec_current_groupname;
use crate::directory::spec_current_uid;
use crate::directory::spec_current_username;
use crate::directory::spec_effective_gid;
use crate::directory::spec_effective_groupname;
use crate::directory::spec_effective_uid;
use crate::directory::spec_effective_username;
use crate::directory::spec_lookup_group;
use crate::directory::spec_lookup_user;
use crate::record::Group;
use crate::record::User;

verus! {

/// A directory of identities: users and groups looked up by id or by name,
/// and a current identity answered verbatim or resolved to a name.
pub trait Users {
    /// The abstract directory this implementor answers queries from.
    spec fn directory(&self) -> DirectoryView;

    /// Exact lookup in the user table by id.
    fn get_user_by_uid(&mut self, uid: u32) -> (r: Option<User>)
        ensures
            final(self).directory() == old(self).directory(),
            r.deep_view() == spec_lookup_user(old(self).directory(), uid),
    ;

    /// Scan of the user table for a record whose name matches exactly
    /// (case-sensitive). When several records share the name, which one is
    /// answered is left open.
    fn get_user_by_name(&mut self, username: &str) -> (r: Option<User>)
        ensures
            final(self).directory() == old(self).directory(),
            (match r {
                Some(u) => spec_lookup_user(old(self).directory(), u.uid) == Some(u@)
                    && u@.name == username@,
                None => forall|id: u32|
                    #[trigger] spec_lookup_user(old(self).directory(), id) matches Some(u)
                        ==> u.name != username@,
            }),
    ;

    /// Exact lookup in the group table by id.
    fn get_group_by_gid(&mut self, gid: u32) -> (r: Option<Group>)
        ensures
            final(self).directory() == old(self).directory(),
            r.deep_view() == spec_lookup_group(old(self).directory(), gid),
    ;

    /// Scan of the group table for a record whose name matches exactly,
    /// with the same open tie-break as [`Users::get_user_by_name`].
    fn get_group_by_name(&mut self, group_name: &str) -> (r: Option<Group>)
        ensures
            final(self).directory() == old(self).directory(),
            (match r {
                Some(g) => spec_lookup_group(old(self).directory(), g.gid) == Some(g@)
                    && g@.name == group_name@,
                None => forall|id: u32|
                    #[trigger] spec_lookup_group(old(self).directory(), id) matches Some(g)
                        ==> g.name != group_name@,
            }),
    ;

    /// The stored current identity, verbatim.
    fn get_current_uid(&mut self) -> (r: u32)
        ensures
            final(self).directory() == old(self).directory(),
            r == spec_current_uid(old(self).directory()),
    ;

    /// The name of the user record keyed by the current identity, if any.
    fn get_current_username(&mut self) -> (r: Option<String>)
        ensures
            final(self).directory() == old(self).directory(),
            r.deep_view() == spec_current_username(old(self).directory()),
    ;

    /// The stored current identity read as a group id: the same value that
    /// [`Users::get_current_uid`] answers.
    fn get_current_gid(&mut self) -> (r: u32)
        ensures
            final(self).directory() == old(self).directory(),
            r == spec_current_gid(old(self).directory()),
    ;

    /// The name of the group record keyed by the current identity, if any.
    fn get_current_groupname(&mut self) -> (r: Option<String>)
        ensures
            final(self).directory() == old(self).directory(),
            r.deep_view() == spec_current_groupname(old(self).directory()),
    ;

    /// The effective user id; the directory draws no distinction between
    /// real and effective identity.
    fn get_effective_uid(&mut self) -> (r: u32)
        ensures
            final(self).directory() == old(self).directory(),
            r == spec_effective_uid(old(self).directory()),
    ;

    /// The effective user name, answered as [`Users::get_current_username`]
    /// answers.
    fn get_effective_username(&mut self) -> (r: Option<String>)
        ensures
            final(self).directory() == old(self).directory(),
            r.deep_view() == spec_effective_username(old(self).directory()),
    ;

    /// The effective group id, answered as [`Users::get_current_gid`]
    /// answers.
    fn get_effective_gid(&mut self) -> (r: u32)
        ensures
            final(self).directory() == old(self).directory(),
            r == spec_effective_gid(old(self).directory()),
    ;

    /// The effective group name, answered as
    /// [`Users::get_current_groupname`] answers.
    fn get_effective_groupname(&mut self) -> (r: Option<String>)
        ensures
            final(self).directory() == old(self).directory(),
            r.deep_view() == spec_effective_groupname(old(self).directory()),
    ;
}

} // verus!
