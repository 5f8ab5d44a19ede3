//! Laws of the identity directory, stated over [`DirectoryView`] — the
//! model every method contract is written against — and proved once for all
//! directories and records.

use vstd::prelude::*;

use crate::directory::DirectoryView;
use crate::directory::spec_add_group;
use crate::directory::spec_add_user;
use crate::directory::spec_current_gid;
use crate::directory::spec_current_groupname;
use crate::directory::spec_current_uid;
use crate::directory::spec_current_username;
use crate::directory::spec_effective_gid;
use crate::directory::spec_effective_groupname;
use crate::directory::spec_effective_uid;
use crate::directory::spec_effective_username;
use crate::directory::spec_lookup_group;
use crate::directory::spec_lookup_user;
use crate::record::GroupView;
use crate::record::UserView;

verus! {

/// Law: a user just added is found under its id, whatever the directory
/// held before — in particular, of several records added under one id the
/// last one added is the one found.
pub proof fn lemma_add_then_lookup_user(d: DirectoryView, u: UserView)
    ensures
        spec_lookup_user(spec_add_user(d, u), u.uid) == Some(u),
{
}

/// Law: a group just added is found under its id, under the same
/// last-write-wins rule as [`lemma_add_then_lookup_user`].
pub proof fn lemma_add_then_lookup_group(d: DirectoryView, g: GroupView)
    ensures
        spec_lookup_group(spec_add_group(d, g), g.gid) == Some(g),
{
}

/// Law: an addition touches nothing but its own key in its own table: every
/// other user or group lookup answers afterwards exactly as before. With
/// [`lemma_add_then_lookup_user`] this is why a record once added stays
/// found, however many records are added after it under other keys.
pub proof fn lemma_add_is_local(d: DirectoryView, u: UserView, g: GroupView, k: u32)
    ensures
        u.uid != k ==> spec_lookup_user(spec_add_user(d, u), k) == spec_lookup_user(d, k),
        spec_lookup_group(spec_add_user(d, u), k) == spec_lookup_group(d, k),
        g.gid != k ==> spec_lookup_group(spec_add_group(d, g), k) == spec_lookup_group(d, k),
        spec_lookup_user(spec_add_group(d, g), k) == spec_lookup_user(d, k),
{
}

/// Law: adding two user records under one id hands the first back as the
/// "previous" answer of the second addition, and thereafter only the second
/// is found.
pub proof fn lemma_readd_user_replaces(d: DirectoryView, first: UserView, second: UserView)
    requires
        first.uid == second.uid,
    ensures
        spec_lookup_user(spec_add_user(d, first), second.uid) == Some(first),
        spec_lookup_user(spec_add_user(spec_add_user(d, first), second), first.uid)
            == Some(second),
{
}

/// Law: [`lemma_readd_user_replaces`], for the group table.
pub proof fn lemma_readd_group_replaces(d: DirectoryView, first: GroupView, second: GroupView)
    requires
        first.gid == second.gid,
    ensures
        spec_lookup_group(spec_add_group(d, first), second.gid) == Some(first),
        spec_lookup_group(spec_add_group(spec_add_group(d, first), second), first.gid)
            == Some(second),
{
}

/// Law: the stored current identity — the answer of both the user-id and
/// the group-id queries — is fixed at construction and survives every
/// insertion into either table.
pub proof fn lemma_current_identity_stable(d: DirectoryView, u: UserView, g: GroupView)
    ensures
        spec_current_uid(spec_add_user(d, u)) == spec_current_uid(d),
        spec_current_uid(spec_add_group(d, g)) == spec_current_uid(d),
        spec_current_gid(spec_add_user(d, u)) == spec_current_gid(d),
        spec_current_gid(spec_add_group(d, g)) == spec_current_gid(d),
        spec_current_gid(d) == spec_current_uid(d),
{
}

/// Law: the current user name is empty exactly while the user table holds
/// no record under the stored identity, and becomes that record's name the
/// moment one is added.
pub proof fn lemma_current_username_tracks_users(d: DirectoryView, u: UserView)
    ensures
        !d.users.contains_key(d.current_uid) ==> spec_current_username(d) is None,
        u.uid == d.current_uid ==> spec_current_username(spec_add_user(d, u)) == Some(u.name),
{
}

/// Law: [`lemma_current_username_tracks_users`], for the group table and
/// the current group name.
pub proof fn lemma_current_groupname_tracks_groups(d: DirectoryView, g: GroupView)
    ensures
        !d.groups.contains_key(d.current_uid) ==> spec_current_groupname(d) is None,
        g.gid == d.current_uid ==> spec_current_groupname(spec_add_group(d, g)) == Some(g.name),
{
}

/// Law: every effective-identity query answers exactly as its current
/// counterpart, on every directory — the design keeps no separate effective
/// identity.
pub proof fn lemma_effective_equals_current(d: DirectoryView)
    ensures
        spec_effective_uid(d) == spec_current_uid(d),
        spec_effective_username(d) == spec_current_username(d),
        spec_effective_gid(d) == spec_current_gid(d),
        spec_effective_groupname(d) == spec_current_groupname(d),
{
}

} // verus!
