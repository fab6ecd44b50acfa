use pjdfstest::config::auth::{AuthLookup, DummyAuthConfig, DummyAuthEntry, Group, User};
use pjdfstest::pool::{PoolExhausted, PrincipalPool};

fn entry(name: &str, id: u32) -> DummyAuthEntry {
    DummyAuthEntry {
        user: User { name: name.to_string(), uid: id, gid: id },
        group: Group { name: name.to_string(), gid: id },
    }
}

fn roster() -> Vec<DummyAuthEntry> {
    vec![entry("nobody", 65534), entry("pjdfstest", 1001), entry("tests", 1002)]
}

#[test]
fn principals_come_in_roster_order() {
    let mut pool = PrincipalPool::new(roster());
    assert_eq!(pool.principals_left(), 3);
    assert_eq!(pool.new_principal(), Ok(entry("nobody", 65534)));
    assert_eq!(pool.new_principal(), Ok(entry("pjdfstest", 1001)));
    assert_eq!(pool.principals_left(), 1);
    assert_eq!(pool.new_principal(), Ok(entry("tests", 1002)));
    assert_eq!(pool.principals_left(), 0);
}

#[test]
fn an_exhausted_pool_fails_and_stays_exhausted() {
    let mut pool = PrincipalPool::new(roster());
    for _ in 0..3 {
        assert!(pool.new_principal().is_ok());
    }
    assert_eq!(pool.new_principal(), Err(PoolExhausted {}));
    assert_eq!(pool.new_principal(), Err(PoolExhausted {}));
    assert_eq!(pool.principals_left(), 0);
}

#[test]
fn an_empty_roster_is_exhausted_from_the_start() {
    let mut pool = PrincipalPool::new(Vec::new());
    assert_eq!(pool.new_principal(), Err(PoolExhausted {}));
    assert_eq!(pool.new_group(), Err(PoolExhausted {}));
}

#[test]
fn no_principal_is_handed_out_twice() {
    let mut pool = PrincipalPool::new(roster());
    let mut seen: Vec<u32> = Vec::new();
    while let Ok(principal) = pool.new_principal() {
        assert!(!seen.contains(&principal.user.uid));
        seen.push(principal.user.uid);
    }
    assert_eq!(seen, vec![65534, 1001, 1002]);
}

#[test]
fn groups_are_counted_apart_from_principals() {
    let mut pool = PrincipalPool::new(roster());
    assert_eq!(pool.new_principal().unwrap().user.name, "nobody");
    assert_eq!(pool.new_group(), Ok(Group { name: "nobody".to_string(), gid: 65534 }));
    assert_eq!(pool.new_group().unwrap().gid, 1001);
    assert_eq!(pool.groups_left(), 1);
    assert_eq!(pool.principals_left(), 2);
    assert_eq!(pool.new_group().unwrap().gid, 1002);
    assert_eq!(pool.new_group(), Err(PoolExhausted {}));
    assert_eq!(pool.new_principal().unwrap().user.uid, 1001);
}

#[test]
fn a_pool_from_a_config_holds_its_three_entries() {
    let lookups = roster()
        .into_iter()
        .map(|e| AuthLookup {
            user_name: e.user.name.clone(),
            group_name: e.group.name.clone(),
            user: Some(e.user),
            group: Some(e.group),
        })
        .collect();
    let config = DummyAuthConfig::load(lookups).unwrap();
    let mut pool = PrincipalPool::from_config(&config);
    assert_eq!(pool.principals_left(), 3);
    assert_eq!(pool.groups_left(), 3);
    assert_eq!(pool.new_principal(), Ok(entry("nobody", 65534)));
    assert_eq!(pool.new_principal(), Ok(entry("pjdfstest", 1001)));
    assert_eq!(pool.new_principal(), Ok(entry("tests", 1002)));
    assert!(pool.new_principal().is_err());
}

#[test]
fn a_roster_that_names_a_user_twice_hands_it_out_twice() {
    // The pool hands out positions of the roster, each once. It does not look
    // at what they hold.
    let mut pool = PrincipalPool::new(vec![entry("a", 1), entry("a", 1), entry("b", 2)]);
    assert_eq!(pool.new_principal(), Ok(entry("a", 1)));
    assert_eq!(pool.new_principal(), Ok(entry("a", 1)));
    assert_eq!(pool.new_principal(), Ok(entry("b", 2)));
    assert_eq!(pool.new_principal(), Err(PoolExhausted {}));
}
