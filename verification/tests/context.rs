use pjdfstest::config::auth::{DummyAuthEntry, Group, User};
use pjdfstest::context::{CreateRequest, FileBuilder, SerializedTestContext, Teardown, TestContext};
use pjdfstest::file_type::FileType;
use pjdfstest::identity::{Identity, IdentityStep};
use pjdfstest::lanes::{Lane, LaneTicket, SerializationController};
use pjdfstest::names::{fit, join, name_for, to_decimal};
use pjdfstest::pool::{PoolExhausted, PrincipalPool};

fn ticket(lane: Lane) -> LaneTicket {
    SerializationController::new().try_acquire(lane).unwrap()
}

fn plain(base: &str) -> TestContext {
    TestContext::new(base.to_string(), &ticket(Lane::Concurrent), 1_000_000_000)
}

fn serialized(base: &str) -> SerializedTestContext {
    SerializedTestContext::new(base.to_string(), &ticket(Lane::Exclusive), 1_000_000_000).unwrap()
}

fn entry(name: &str, id: u32) -> DummyAuthEntry {
    DummyAuthEntry {
        user: User { name: name.to_string(), uid: id, gid: id },
        group: Group { name: name.to_string(), gid: id },
    }
}

#[test]
fn decimal_has_no_leading_zeros() {
    assert_eq!(to_decimal(0), "0");
    assert_eq!(to_decimal(7), "7");
    assert_eq!(to_decimal(10), "10");
    assert_eq!(to_decimal(1234567890), "1234567890");
    assert_eq!(to_decimal(u64::MAX), "18446744073709551615");
}

#[test]
fn generated_names_carry_the_count() {
    assert_eq!(name_for(0), "pjdfstest_0");
    assert_eq!(name_for(42), "pjdfstest_42");
    assert_eq!(join("/tmp/box", "a"), "/tmp/box/a");
    assert_eq!(join("", ""), "/");
}

#[test]
fn fit_cuts_or_fills_to_the_length() {
    assert_eq!(fit("abc", 0), "");
    assert_eq!(fit("abc", 2), "ab");
    assert_eq!(fit("abc", 3), "abc");
    assert_eq!(fit("abc", 6), "abcxxx");
    assert_eq!(fit("", 4), "xxxx");
    assert_eq!(fit("héllo", 3), "hél");
    assert_eq!(fit("hé", 4).chars().count(), 4);
}

#[test]
fn a_fresh_context_has_nothing() {
    let ctx = plain("/tmp/box");
    assert_eq!(ctx.base_path(), "/tmp/box");
    assert_eq!(ctx.file_counter(), 0);
    assert!(!ctx.is_serialized());
    assert!(ctx.allocated_principals().is_empty());
}

#[test]
fn gen_path_never_repeats() {
    let mut ctx = plain("/tmp/box");
    let mut seen = std::collections::HashSet::new();
    for count in 0..500u64 {
        let path = ctx.gen_path();
        assert!(path.starts_with("/tmp/box/"));
        assert!(seen.insert(path));
        assert_eq!(ctx.file_counter(), count + 1);
    }
}

#[test]
fn gen_path_names_the_count() {
    let mut ctx = plain("/tmp/box");
    assert_eq!(ctx.gen_path(), "/tmp/box/pjdfstest_0");
    assert_eq!(ctx.gen_path(), "/tmp/box/pjdfstest_1");
}

#[test]
fn create_uses_the_default_mode_of_the_kind() {
    let mut ctx = plain("/tmp/box");
    assert_eq!(
        ctx.create(FileType::Regular),
        CreateRequest {
            path: "/tmp/box/pjdfstest_0".to_string(),
            file_type: FileType::Regular,
            mode: Some(0o644)
        }
    );
    assert_eq!(
        ctx.create(FileType::Dir),
        CreateRequest {
            path: "/tmp/box/pjdfstest_1".to_string(),
            file_type: FileType::Dir,
            mode: Some(0o755)
        }
    );
    let link = ctx.create(FileType::Symlink(Some("/tmp/box/pjdfstest_0".to_string())));
    assert_eq!(link.path, "/tmp/box/pjdfstest_2");
    assert_eq!(link.mode, None);
    assert_eq!(link.file_type, FileType::Symlink(Some("/tmp/box/pjdfstest_0".to_string())));
    assert_eq!(ctx.create(FileType::Socket).mode, None);
    assert_eq!(ctx.create(FileType::Fifo).mode, Some(0o644));
    assert_eq!(ctx.create(FileType::Block(8, 1)).mode, Some(0o644));
    assert_eq!(ctx.create(FileType::Char(1, 3)).mode, Some(0o644));
}

#[test]
fn create_named_does_not_use_up_a_name() {
    let mut ctx = plain("/tmp/box");
    let request = ctx.create_named(FileType::Dir, "new");
    assert_eq!(
        request,
        CreateRequest { path: "/tmp/box/new".to_string(), file_type: FileType::Dir, mode: Some(0o755) }
    );
    assert_eq!(ctx.file_counter(), 0);
    assert_eq!(ctx.gen_path(), "/tmp/box/pjdfstest_0");
}

#[test]
fn the_builder_takes_mode_and_name() {
    let mut ctx = plain("/tmp/box");
    let request = ctx.new_file(FileType::Regular).mode(0o600).create(&mut ctx);
    assert_eq!(
        request,
        CreateRequest {
            path: "/tmp/box/pjdfstest_0".to_string(),
            file_type: FileType::Regular,
            mode: Some(0o600)
        }
    );
    let request = ctx.new_file(FileType::Dir).name("sub").mode(0o777).create(&mut ctx);
    assert_eq!(
        request,
        CreateRequest { path: "/tmp/box/sub".to_string(), file_type: FileType::Dir, mode: Some(0o777) }
    );
    assert_eq!(ctx.file_counter(), 1);
    let request = FileBuilder::new(FileType::Socket).create(&mut ctx);
    assert_eq!(request.mode, None);
    assert_eq!(request.path, "/tmp/box/pjdfstest_1");
    let request = FileBuilder::new(FileType::Fifo).name("pipe").create(&mut ctx);
    assert_eq!(request.mode, Some(0o644));
    assert_eq!(request.path, "/tmp/box/pipe");
}

#[test]
fn the_builder_works_in_a_serialized_context() {
    let mut ctx = serialized("/tmp/box");
    let request = FileBuilder::new(FileType::Regular).mode(0o600).create_serialized(&mut ctx);
    assert_eq!(request.path, "/tmp/box/pjdfstest_0");
    assert_eq!(request.mode, Some(0o600));
    assert_eq!(ctx.gen_path(), "/tmp/box/pjdfstest_1");
    assert_eq!(ctx.create(FileType::Dir).path, "/tmp/box/pjdfstest_2");
}

#[test]
fn create_name_max_has_exactly_the_length() {
    let mut ctx = plain("/tmp/box");
    let request = ctx.create_name_max(FileType::Regular, 255);
    let name = request.path.strip_prefix("/tmp/box/").unwrap();
    assert_eq!(name.chars().count(), 255);
    assert!(name.starts_with("pjdfstest_0x"));
    assert!(name.ends_with("xxx"));
    assert_eq!(request.mode, Some(0o644));
    let second = ctx.create_name_max(FileType::Dir, 255);
    assert_ne!(second.path, request.path);
    assert_eq!(second.path.chars().count(), "/tmp/box/".len() + 255);
    let short = ctx.create_name_max(FileType::Regular, 4);
    assert_eq!(short.path, "/tmp/box/pjdf");
    let none = serialized("/s").create_name_max(FileType::Regular, 0);
    assert_eq!(none.path, "/s/");
}

#[test]
fn only_an_exclusive_ticket_makes_a_serialized_context() {
    assert!(SerializedTestContext::new("/tmp/box".to_string(), &ticket(Lane::Concurrent), 1_000_000_000).is_none());
    assert!(SerializedTestContext::new("/tmp/box".to_string(), &ticket(Lane::Exclusive), 1_000_000_000).is_some());
    assert!(plain("/tmp/box").into_serialized().is_err());
    let exclusive = TestContext::new("/tmp/box".to_string(), &ticket(Lane::Exclusive), 1_000_000_000);
    assert!(exclusive.is_serialized());
    let ctx = exclusive.into_serialized().unwrap();
    assert!(ctx.as_plain().is_serialized());
    assert_eq!(ctx.base_path(), "/tmp/box");
}

#[test]
fn a_context_remembers_the_principals_it_borrowed() {
    let mut pool = PrincipalPool::new(vec![entry("a", 1), entry("b", 2)]);
    let mut ctx = plain("/tmp/box");
    assert_eq!(ctx.new_principal(&mut pool), Ok(entry("a", 1)));
    assert_eq!(ctx.new_group(&mut pool), Ok(Group { name: "a".to_string(), gid: 1 }));
    assert_eq!(ctx.new_principal(&mut pool), Ok(entry("b", 2)));
    assert_eq!(ctx.new_principal(&mut pool), Err(PoolExhausted {}));
    assert_eq!(*ctx.allocated_principals(), vec![entry("a", 1), entry("b", 2)]);
    let mut other = serialized("/tmp/other");
    assert_eq!(other.new_principal(&mut pool), Err(PoolExhausted {}));
    assert!(other.as_plain().allocated_principals().is_empty());
}

#[test]
fn teardown_names_the_sandbox_and_lets_go_of_the_principals() {
    let mut pool = PrincipalPool::new(vec![entry("a", 1), entry("b", 2), entry("c", 3)]);
    let mut ctx = serialized("/tmp/box");
    assert_eq!(ctx.new_principal(&mut pool), Ok(entry("a", 1)));
    let teardown = ctx.teardown();
    assert_eq!(
        teardown,
        Teardown { sandbox: "/tmp/box".to_string(), released: vec![entry("a", 1)] }
    );
    // The next test case starts with nothing borrowed, and the pool goes on
    // where it was.
    let mut next = plain("/tmp/next");
    assert!(next.allocated_principals().is_empty());
    assert_eq!(next.new_principal(&mut pool), Ok(entry("b", 2)));
    assert_eq!(next.teardown().released, vec![entry("b", 2)]);
}

#[test]
fn as_user_plans_the_way_in_and_the_way_back() {
    let ctx = serialized("/tmp/box");
    let current = Identity { euid: 0, egid: 0, groups: vec![0] };
    let switch = ctx.as_user(current.clone(), &entry("tests", 1002), None);
    assert_eq!(
        switch.enter_steps(),
        vec![
            IdentityStep::SetGroups(vec![1002]),
            IdentityStep::SetEgid(1002),
            IdentityStep::SetEuid(1002),
        ]
    );
    assert_eq!(
        switch.restore_steps(),
        vec![
            IdentityStep::SetEuid(0),
            IdentityStep::SetEgid(0),
            IdentityStep::SetGroups(vec![0]),
        ]
    );
    assert_eq!(*switch.saved_identity(), current);
}

#[test]
fn with_umask_names_the_mask_to_install() {
    let ctx = serialized("/tmp/box");
    assert_eq!(ctx.with_umask(0o077).enter_mask(), 0o077);
    assert_eq!(ctx.with_umask(0o1345).enter_mask(), 0o345);
}

#[test]
fn file_types_know_their_privilege_and_label() {
    assert!(FileType::Block(1, 2).privileged());
    assert!(FileType::Char(1, 2).privileged());
    for unprivileged in [
        FileType::Regular,
        FileType::Dir,
        FileType::Fifo,
        FileType::Socket,
        FileType::Symlink(None),
    ] {
        assert!(!unprivileged.privileged());
        assert_eq!(unprivileged.device(), None);
    }
    assert_eq!(FileType::Block(8, 1).device(), Some((8, 1)));
    assert_eq!(FileType::Char(1, 3).device(), Some((1, 3)));
    assert_eq!(FileType::Regular.label(), "regular");
    assert_eq!(FileType::Dir.label(), "dir");
    assert_eq!(FileType::Fifo.label(), "fifo");
    assert_eq!(FileType::Block(0, 0).label(), "block");
    assert_eq!(FileType::Char(0, 0).label(), "char");
    assert_eq!(FileType::Socket.label(), "socket");
    assert_eq!(FileType::Symlink(None).label(), "symlink");
    let link = FileType::Symlink(Some("target".to_string()));
    assert_eq!(link.clone(), link);
}

#[test]
fn a_nap_takes_the_configured_time() {
    let plain = TestContext::new("/tmp/box".to_string(), &ticket(Lane::Concurrent), 250_000_000);
    assert_eq!(plain.nap(), 250_000_000);
    let serialized =
        SerializedTestContext::new("/tmp/box".to_string(), &ticket(Lane::Exclusive), 0).unwrap();
    assert_eq!(serialized.nap(), 0);
    assert_eq!(serialized.as_plain().nap(), 0);
}
