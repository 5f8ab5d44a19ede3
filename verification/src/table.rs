//! The backing store of one directory table: a vector of records whose keys
//! are pairwise distinct, abstracted as a `Map` from key to record view.
//!
//! `user_map` and `group_map` read the vector back to front, so on a vector
//! with a repeated key the later record would win; the insertion routines
//! keep keys distinct, which makes the abstraction exact.

use vstd::prelude::*;
use vstd::pervasive::VecAdditionalExecFns;

use crate::record::Group;
use crate::record::GroupView;
use crate::record::User;
use crate::record::UserView;

verus! {

pub open spec fn user_ids_distinct(s: Seq<User>) -> bool {
    forall|i: int, j: int| 0 <= i < j < s.len() ==> s[i].uid != s[j].uid
}

pub open spec fn group_ids_distinct(s: Seq<Group>) -> bool {
    forall|i: int, j: int| 0 <= i < j < s.len() ==> s[i].gid != s[j].gid
}

pub open spec fn user_map(s: Seq<User>) -> Map<u32, UserView>
    decreases s.len(),
{
    if s.len() == 0 {
        Map::empty()
    } else {
        user_map(s.drop_last()).insert(s.last().uid, s.last()@)
    }
}

pub open spec fn group_map(s: Seq<Group>) -> Map<u32, GroupView>
    decreases s.len(),
{
    if s.len() == 0 {
        Map::empty()
    } else {
        group_map(s.drop_last()).insert(s.last().gid, s.last()@)
    }
}

/// The record at any position of a duplicate-free vector is what the map
/// abstraction stores under that record's key.
pub proof fn lemma_user_map_at(s: Seq<User>, i: int)
    requires
        user_ids_distinct(s),
        0 <= i < s.len(),
    ensures
        user_map(s).contains_key(s[i].uid),
        user_map(s)[s[i].uid] == s[i]@,
    decreases s.len(),
{
    if i < s.len() - 1 {
        assert(user_ids_distinct(s.drop_last()));
        lemma_user_map_at(s.drop_last(), i);
    }
}

/// A key held by no record of the vector is outside the map abstraction.
pub proof fn lemma_user_map_absent(s: Seq<User>, k: u32)
    requires
        forall|i: int| 0 <= i < s.len() ==> s[i].uid != k,
    ensures
        !user_map(s).contains_key(k),
    decreases s.len(),
{
    if s.len() > 0 {
        assert(forall|i: int| 0 <= i < s.drop_last().len() ==> s.drop_last()[i].uid != k);
        lemma_user_map_absent(s.drop_last(), k);
    }
}

/// Every key of the map abstraction is held by some record of the vector.
pub proof fn lemma_user_map_covered(s: Seq<User>, k: u32)
    requires
        user_map(s).contains_key(k),
    ensures
        exists|i: int| 0 <= i < s.len() && s[i].uid == k,
    decreases s.len(),
{
    if s.len() > 0 && s.last().uid != k {
        lemma_user_map_covered(s.drop_last(), k);
        let i = choose|i: int| 0 <= i < s.drop_last().len() && s.drop_last()[i].uid == k;
        assert(s[i].uid == k);
    }
}

/// Replacing the one record that holds a key is, under the abstraction, a
/// map insertion at that key.
pub proof fn lemma_user_map_update(s: Seq<User>, i: int, u: User)
    requires
        user_ids_distinct(s),
        0 <= i < s.len(),
        s[i].uid == u.uid,
    ensures
        user_map(s.update(i, u)) == user_map(s).insert(u.uid, u@),
    decreases s.len(),
{
    let t = s.update(i, u);
    if i == s.len() - 1 {
        assert(t.drop_last() =~= s.drop_last());
        assert(user_map(t) =~= user_map(s).insert(u.uid, u@));
    } else {
        assert(user_ids_distinct(s.drop_last()));
        assert(t.drop_last() =~= s.drop_last().update(i, u));
        lemma_user_map_update(s.drop_last(), i, u);
        assert(s.last().uid != u.uid);
        assert(user_map(t) =~= user_map(s).insert(u.uid, u@));
    }
}

/// Insert a user record, replacing the record with the same key if one is
/// present and handing that record back.
pub fn user_table_insert(table: &mut Vec<User>, user: User) -> (previous: Option<User>)
    requires
        user_ids_distinct(old(table)@),
    ensures
        user_ids_distinct(final(table)@),
        user_map(final(table)@) == user_map(old(table)@).insert(user.uid, user@),
        previous.deep_view() == (if user_map(old(table)@).contains_key(user.uid) {
            Some(user_map(old(table)@)[user.uid])
        } else {
            None::<UserView>
        }),
{
    let ghost s0 = table@;
    let uid = user.uid;
    let mut i: usize = 0;
    while i < table.len()
        invariant
            user_ids_distinct(table@),
            table@ == s0,
            s0 == old(table)@,
            uid == user.uid,
            i <= table.len(),
            forall|j: int| 0 <= j < i ==> table@[j].uid != uid,
        decreases table@.len() - i,
    {
        if table[i].uid == uid {
            let previous = table[i].clone();
            proof {
                lemma_user_map_at(s0, i as int);
            }
            table.set(i, user);
            proof {
                lemma_user_map_update(s0, i as int, user);
            }
            return Some(previous);
        }
        i += 1;
    }
    proof {
        lemma_user_map_absent(s0, uid);
    }
    table.push(user);
    proof {
        assert(table@.drop_last() =~= s0);
    }
    None
}

/// Find the user record with the given key, handing back a copy.
pub fn user_table_find_by_uid(table: &Vec<User>, uid: u32) -> (r: Option<User>)
    requires
        user_ids_distinct(table@),
    ensures
        r.deep_view() == (if user_map(table@).contains_key(uid) {
            Some(user_map(table@)[uid])
        } else {
            None::<UserView>
        }),
{
    let mut i: usize = 0;
    while i < table.len()
        invariant
            user_ids_distinct(table@),
            i <= table.len(),
            forall|j: int| 0 <= j < i ==> table@[j].uid != uid,
        decreases table@.len() - i,
    {
        if table[i].uid == uid {
            proof {
                lemma_user_map_at(table@, i as int);
            }
            return Some(table[i].clone());
        }
        i += 1;
    }
    proof {
        lemma_user_map_absent(table@, uid);
    }
    None
}

/// Find some user record whose name matches exactly, handing back a copy.
/// When several records share the name, which one is found is left open.
pub fn user_table_find_by_name(table: &Vec<User>, username: &str) -> (r: Option<User>)
    requires
        user_ids_distinct(table@),
    ensures
        (match r {
            Some(u) => user_map(table@).contains_key(u.uid) && user_map(table@)[u.uid] == u@
                && u@.name == username@,
            None => forall|id: u32|
                user_map(table@).contains_key(id) ==> user_map(table@)[id].name != username@,
        }),
{
    let target: String = username.to_owned();
    let mut i: usize = 0;
    while i < table.len()
        invariant
            user_ids_distinct(table@),
            target@ == username@,
            i <= table.len(),
            forall|j: int| 0 <= j < i ==> table@[j]@.name != username@,
        decreases table@.len() - i,
    {
        if table[i].name == target {
            proof {
                lemma_user_map_at(table@, i as int);
            }
            return Some(table[i].clone());
        }
        i += 1;
    }
    proof {
        assert forall|id: u32|
            user_map(table@).contains_key(id) implies user_map(table@)[id].name != username@ by {
            lemma_user_map_covered(table@, id);
            let j = choose|j: int| 0 <= j < table@.len() && table@[j].uid == id;
            lemma_user_map_at(table@, j);
        }
    }
    None
}

/// `user_table_insert`, for the group table.
pub fn group_table_insert(table: &mut Vec<Group>, group: Group) -> (previous: Option<Group>)
    requires
        group_ids_distinct(old(table)@),
    ensures
        group_ids_distinct(final(table)@),
        group_map(final(table)@) == group_map(old(table)@).insert(group.gid, group@),
        previous.deep_view() == (if group_map(old(table)@).contains_key(group.gid) {
            Some(group_map(old(table)@)[group.gid])
        } else {
            None::<GroupView>
        }),
{
    let ghost s0 = table@;
    let gid = group.gid;
    let mut i: usize = 0;
    while i < table.len()
        invariant
            group_ids_distinct(table@),
            table@ == s0,
            s0 == old(table)@,
            gid == group.gid,
            i <= table.len(),
            forall|j: int| 0 <= j < i ==> table@[j].gid != gid,
        decreases table@.len() - i,
    {
        if table[i].gid == gid {
            let previous = table[i].clone();
            proof {
                lemma_group_map_at(s0, i as int);
            }
            table.set(i, group);
            proof {
                lemma_group_map_update(s0, i as int, group);
            }
            return Some(previous);
        }
        i += 1;
    }
    proof {
        lemma_group_map_absent(s0, gid);
    }
    table.push(group);
    proof {
        assert(table@.drop_last() =~= s0);
    }
    None
}

/// `user_table_find_by_uid`, for the group table.
pub fn group_table_find_by_gid(table: &Vec<Group>, gid: u32) -> (r: Option<Group>)
    requires
        group_ids_distinct(table@),
    ensures
        r.deep_view() == (if group_map(table@).contains_key(gid) {
            Some(group_map(table@)[gid])
        } else {
            None::<GroupView>
        }),
{
    let mut i: usize = 0;
    while i < table.len()
        invariant
            group_ids_distinct(table@),
            i <= table.len(),
            forall|j: int| 0 <= j < i ==> table@[j].gid != gid,
        decreases table@.len() - i,
    {
        if table[i].gid == gid {
            proof {
                lemma_group_map_at(table@, i as int);
            }
            return Some(table[i].clone());
        }
        i += 1;
    }
    proof {
        lemma_group_map_absent(table@, gid);
    }
    None
}

/// `user_table_find_by_name`, for the group table.
pub fn group_table_find_by_name(table: &Vec<Group>, group_name: &str) -> (r: Option<Group>)
    requires
        group_ids_distinct(table@),
    ensures
        (match r {
            Some(g) => group_map(table@).contains_key(g.gid) && group_map(table@)[g.gid] == g@
                && g@.name == group_name@,
            None => forall|id: u32|
                group_map(table@).contains_key(id) ==> group_map(table@)[id].name != group_name@,
        }),
{
    let target: String = group_name.to_owned();
    let mut i: usize = 0;
    while i < table.len()
        invariant
            group_ids_distinct(table@),
            target@ == group_name@,
            i <= table.len(),
            forall|j: int| 0 <= j < i ==> table@[j]@.name != group_name@,
        decreases table@.len() - i,
    {
        if table[i].name == target {
            proof {
                lemma_group_map_at(table@, i as int);
            }
            return Some(table[i].clone());
        }
        i += 1;
    }
    proof {
        assert forall|id: u32|
            group_map(table@).contains_key(id) implies group_map(table@)[id].name != group_name@ by {
            lemma_group_map_covered(table@, id);
            let j = choose|j: int| 0 <= j < table@.len() && table@[j].gid == id;
            lemma_group_map_at(table@, j);
        }
    }
    None
}

/// `lemma_user_map_at`, stated for the group table.
pub proof fn lemma_group_map_at(s: Seq<Group>, i: int)
    requires
        group_ids_distinct(s),
        0 <= i < s.len(),
    ensures
        group_map(s).contains_key(s[i].gid),
        group_map(s)[s[i].gid] == s[i]@,
    decreases s.len(),
{
    if i < s.len() - 1 {
        assert(group_ids_distinct(s.drop_last()));
        lemma_group_map_at(s.drop_last(), i);
    }
}

/// `lemma_user_map_absent`, stated for the group table.
pub proof fn lemma_group_map_absent(s: Seq<Group>, k: u32)
    requires
        forall|i: int| 0 <= i < s.len() ==> s[i].gid != k,
    ensures
        !group_map(s).contains_key(k),
    decreases s.len(),
{
    if s.len() > 0 {
        assert(forall|i: int| 0 <= i < s.drop_last().len() ==> s.drop_last()[i].gid != k);
        lemma_group_map_absent(s.drop_last(), k);
    }
}

/// `lemma_user_map_covered`, stated for the group table.
pub proof fn lemma_group_map_covered(s: Seq<Group>, k: u32)
    requires
        group_map(s).contains_key(k),
    ensures
        exists|i: int| 0 <= i < s.len() && s[i].gid == k,
    decreases s.len(),
{
    if s.len() > 0 && s.last().gid != k {
        lemma_group_map_covered(s.drop_last(), k);
        let i = choose|i: int| 0 <= i < s.drop_last().len() && s.drop_last()[i].gid == k;
        assert(s[i].gid == k);
    }
}

/// `lemma_user_map_update`, stated for the group table.
pub proof fn lemma_group_map_update(s: Seq<Group>, i: int, g: Group)
    requires
        group_ids_distinct(s),
        0 <= i < s.len(),
        s[i].gid == g.gid,
    ensures
        group_map(s.update(i, g)) == group_map(s).insert(g.gid, g@),
    decreases s.len(),
{
    let t = s.update(i, g);
    if i == s.len() - 1 {
        assert(t.drop_last() =~= s.drop_last());
        assert(group_map(t) =~= group_map(s).insert(g.gid, g@));
    } else {
        assert(group_ids_distinct(s.drop_last()));
        assert(t.drop_last() =~= s.drop_last().update(i, g));
        lemma_group_map_update(s.drop_last(), i, g);
        assert(s.last().gid != g.gid);
        assert(group_map(t) =~= group_map(s).insert(g.gid, g@));
    }
}

} // verus!
