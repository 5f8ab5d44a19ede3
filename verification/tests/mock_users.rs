use mock_users::{Group, MockUsers, User, Users};

fn fred(uid: u32) -> User {
    User {
        uid,
        name: "fred".to_string(),
        primary_group: 101,
        home_dir: "/home/fred".to_string(),
        shell: "/bin/bash".to_string(),
    }
}

#[test]
fn current_username() {
    let mut users = MockUsers::with_current_uid(1337);
    users.add_user(fred(1337));
    assert_eq!(Some("fred".to_string()), users.get_current_username())
}

#[test]
fn no_current_username() {
    let mut users = MockUsers::with_current_uid(1337);
    assert_eq!(None, users.get_current_username())
}

#[test]
fn uid() {
    let mut users = MockUsers::with_current_uid(0);
    users.add_user(fred(1337));
    assert_eq!(
        Some("fred".to_string()),
        users.get_user_by_uid(1337).map(|u| u.name)
    )
}

#[test]
fn username() {
    let mut users = MockUsers::with_current_uid(1337);
    users.add_user(fred(1440));
    assert_eq!(Some(1440), users.get_user_by_name("fred").map(|u| u.uid))
}

#[test]
fn no_username() {
    let mut users = MockUsers::with_current_uid(1337);
    users.add_user(fred(1440));
    assert_eq!(None, users.get_user_by_name("criminy").map(|u| u.uid))
}

#[test]
fn no_uid() {
    let mut users = MockUsers::with_current_uid(0);
    assert_eq!(None, users.get_user_by_uid(1337).map(|u| u.name))
}

#[test]
fn gid() {
    let mut users = MockUsers::with_current_uid(0);
    users.add_group(Group {
        gid: 1337,
        name: "fred".to_string(),
        members: vec![],
    });
    assert_eq!(
        Some("fred".to_string()),
        users.get_group_by_gid(1337).map(|g| g.name)
    )
}

#[test]
fn group_name() {
    let mut users = MockUsers::with_current_uid(0);
    users.add_group(Group {
        gid: 1337,
        name: "fred".to_string(),
        members: vec![],
    });
    assert_eq!(Some(1337), users.get_group_by_name("fred").map(|g| g.gid))
}

#[test]
fn no_group_name() {
    let mut users = MockUsers::with_current_uid(0);
    users.add_group(Group {
        gid: 1337,
        name: "fred".to_string(),
        members: vec![],
    });
    assert_eq!(None, users.get_group_by_name("santa").map(|g| g.gid))
}

#[test]
fn no_gid() {
    let mut users = MockUsers::with_current_uid(0);
    assert_eq!(None, users.get_group_by_gid(1337).map(|g| g.name))
}

#[test]
fn added_user_found_whole() {
    let mut users = MockUsers::with_current_uid(0);
    users.add_user(fred(1337));
    let found = users.get_user_by_uid(1337).unwrap();
    assert_eq!(1337, found.uid);
    assert_eq!("fred", found.name);
    assert_eq!(101, found.primary_group);
    assert_eq!("/home/fred", found.home_dir);
    assert_eq!("/bin/bash", found.shell);
}

#[test]
fn added_group_found_whole() {
    let mut users = MockUsers::with_current_uid(0);
    users.add_group(Group {
        gid: 200,
        name: "funkyppl".to_string(),
        members: vec!["fred".to_string(), "bobbins".to_string()],
    });
    let found = users.get_group_by_gid(200).unwrap();
    assert_eq!(200, found.gid);
    assert_eq!("funkyppl", found.name);
    assert_eq!(
        vec!["fred".to_string(), "bobbins".to_string()],
        found.members
    );
}

#[test]
fn readd_user_returns_first_and_keeps_second() {
    let mut users = MockUsers::with_current_uid(0);
    let mut second = fred(1337);
    second.name = "frederick".to_string();
    assert!(users.add_user(fred(1337)).is_none());
    let previous = users.add_user(second).unwrap();
    assert_eq!("fred", previous.name);
    assert_eq!(
        Some("frederick".to_string()),
        users.get_user_by_uid(1337).map(|u| u.name)
    );
    assert_eq!(None, users.get_user_by_name("fred").map(|u| u.uid));
}

#[test]
fn readd_group_returns_first_and_keeps_second() {
    let mut users = MockUsers::with_current_uid(0);
    assert!(users
        .add_group(Group {
            gid: 7,
            name: "first".to_string(),
            members: vec![],
        })
        .is_none());
    let previous = users
        .add_group(Group {
            gid: 7,
            name: "second".to_string(),
            members: vec!["someone".to_string()],
        })
        .unwrap();
    assert_eq!("first", previous.name);
    assert!(previous.members.is_empty());
    assert_eq!(Some("second".to_string()), users.get_group_by_gid(7).map(|g| g.name));
}

#[test]
fn earlier_entries_survive_later_additions() {
    let mut users = MockUsers::with_current_uid(0);
    users.add_user(fred(1337));
    let mut other = fred(1440);
    other.name = "bobbins".to_string();
    users.add_user(other);
    users.add_group(Group {
        gid: 1337,
        name: "fredsgroup".to_string(),
        members: vec![],
    });
    assert_eq!(
        Some("fred".to_string()),
        users.get_user_by_uid(1337).map(|u| u.name)
    );
    assert_eq!(
        Some("bobbins".to_string()),
        users.get_user_by_uid(1440).map(|u| u.name)
    );
}

#[test]
fn duplicate_names_answer_some_match() {
    let mut users = MockUsers::with_current_uid(0);
    users.add_user(fred(1));
    users.add_user(fred(2));
    let found = users.get_user_by_name("fred").unwrap();
    assert_eq!("fred", found.name);
    assert!(found.uid == 1 || found.uid == 2);
}

#[test]
fn current_uid_fixed_at_construction() {
    let mut users = MockUsers::with_current_uid(1337);
    assert_eq!(1337, users.get_current_uid());
    users.add_user(fred(1440));
    users.add_group(Group {
        gid: 9,
        name: "g".to_string(),
        members: vec![],
    });
    assert_eq!(1337, users.get_current_uid());
    assert_eq!(1337, users.get_current_gid());
}

#[test]
fn current_username_appears_once_added() {
    let mut users = MockUsers::with_current_uid(1337);
    assert_eq!(None, users.get_current_username());
    users.add_user(fred(1337));
    assert_eq!(Some("fred".to_string()), users.get_current_username());
}

#[test]
fn current_groupname_appears_once_added() {
    let mut users = MockUsers::with_current_uid(42);
    assert_eq!(None, users.get_current_groupname());
    users.add_group(Group {
        gid: 42,
        name: "answerers".to_string(),
        members: vec![],
    });
    assert_eq!(Some("answerers".to_string()), users.get_current_groupname());
}

#[test]
fn effective_matches_current_everywhere() {
    let mut users = MockUsers::with_current_uid(1337);
    assert_eq!(users.get_current_uid(), users.get_effective_uid());
    assert_eq!(users.get_current_gid(), users.get_effective_gid());
    assert_eq!(users.get_current_username(), users.get_effective_username());
    assert_eq!(users.get_current_groupname(), users.get_effective_groupname());
    users.add_user(fred(1337));
    users.add_group(Group {
        gid: 1337,
        name: "fredsgroup".to_string(),
        members: vec!["fred".to_string()],
    });
    assert_eq!(users.get_current_uid(), users.get_effective_uid());
    assert_eq!(users.get_current_gid(), users.get_effective_gid());
    assert_eq!(users.get_current_username(), users.get_effective_username());
    assert_eq!(users.get_current_groupname(), users.get_effective_groupname());
    assert_eq!(Some("fred".to_string()), users.get_effective_username());
    assert_eq!(Some("fredsgroup".to_string()), users.get_effective_groupname());
}

#[test]
fn group_id_queries_use_the_one_identity() {
    let mut users = MockUsers::with_current_uid(500);
    assert_eq!(500, users.get_current_gid());
    assert_eq!(500, users.get_effective_gid());
    assert_eq!(users.get_current_uid(), users.get_current_gid());
}
