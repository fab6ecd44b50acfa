use pjdfstest::config::auth::{AuthLookup, DummyAuthConfig};
use pjdfstest::config::{CommonFeatureConfig, Config, FeaturesConfig, SettingsConfig};
use pjdfstest::context::TestContext;
use pjdfstest::config::auth::{DummyAuthEntry, Group, User};
use pjdfstest::features::FileSystemFeature;
use pjdfstest::flags::FileFlags;
use pjdfstest::lanes::{Lane, SerializationController};
use pjdfstest::pool::PrincipalPool;
use pjdfstest::runner::machine::{Action, CaseStatus, Failure, Outcome, Phase, Runner};
use pjdfstest::runner::{
    decide, missing_features, missing_flags, write_skip_message, write_skip_report, Decision,
};
use pjdfstest::test::{Registry, RegistryBuilder, TestCase, TestFn};

fn case(name: &str, features: Vec<FileSystemFeature>, flags: Vec<FileFlags>, serialized: bool) -> TestCase {
    TestCase {
        name: name.to_string(),
        description: String::new(),
        require_root: false,
        fun: if serialized { TestFn::Serialized(0) } else { TestFn::NonSerialized(0) },
        file_type: None,
        required_features: features,
        required_file_flags: flags,
    }
}

fn config(features: Vec<FileSystemFeature>, flags: Vec<FileFlags>) -> FeaturesConfig {
    FeaturesConfig {
        file_flags: flags,
        secondary_fs: None,
        fs_features: features.into_iter().map(|f| (f, CommonFeatureConfig {})).collect(),
    }
}

fn whole(features: FeaturesConfig) -> Config {
    let lookups = ["nobody", "pjdfstest", "tests"]
        .iter()
        .zip(1u32..)
        .map(|(name, id)| AuthLookup {
            user_name: name.to_string(),
            user: Some(User { name: name.to_string(), uid: id, gid: id }),
            group_name: name.to_string(),
            group: Some(Group { name: name.to_string(), gid: id }),
        })
        .collect();
    Config {
        features,
        settings: SettingsConfig::default(),
        dummy_auth: DummyAuthConfig::load(lookups).unwrap(),
    }
}

fn runner(cases: Vec<TestCase>, features: FeaturesConfig, flags_supported: bool) -> Runner {
    Runner::new(registry(cases), whole(features), flags_supported)
}

fn registry(cases: Vec<TestCase>) -> Registry {
    let mut builder = RegistryBuilder::new();
    for case in cases {
        builder.register(case);
    }
    builder.build()
}

fn failure() -> Outcome {
    Outcome::Failed(Failure {
        message: "assertion `left == right` failed\n  left: 1\n right: 2".to_string(),
        file: "src/tests/chmod.rs".to_string(),
        line: 17,
        column: 5,
    })
}

const A: FileSystemFeature = FileSystemFeature::RenameCtime;
const B: FileSystemFeature = FileSystemFeature::Nfsv4Acls;

#[test]
fn missing_is_required_minus_enabled() {
    assert_eq!(missing_features(&vec![A, B], &vec![A]), vec![B]);
    assert_eq!(missing_features(&vec![A], &vec![A]), vec![]);
    assert_eq!(missing_features(&vec![], &vec![A]), vec![]);
    assert_eq!(missing_features(&vec![B, A], &vec![]), vec![B, A]);
    assert_eq!(
        missing_flags(&vec![FileFlags::SfAppend, FileFlags::UfAppend], &vec![FileFlags::UfAppend]),
        vec![FileFlags::SfAppend]
    );
}

#[test]
fn missing_names_each_item_once_in_order_of_first_mention() {
    assert_eq!(
        missing_features(
            &vec![B, FileSystemFeature::Chflags, B, A, FileSystemFeature::Chflags],
            &vec![A]
        ),
        vec![B, FileSystemFeature::Chflags]
    );
}

#[test]
fn skip_correctness_names_exactly_what_is_missing() {
    let config = config(vec![A], vec![]);
    let needs_both = case("tests::both", vec![A, B], vec![], false);
    match decide(&needs_both, &config, false) {
        Decision::Skip { missing_features, missing_flags, report } => {
            assert_eq!(missing_features, vec![B]);
            assert!(missing_flags.is_empty());
            assert_eq!(
                report,
                "skipped 'tests::both'\nplease add the following features to your configuration:\n\t[features.nfsv4_acls]\n"
            );
            assert!(!report.contains("rename_ctime"));
        }
        Decision::Run(_) => panic!("a case that lacks a feature must be skipped"),
    }
    let needs_one = case("tests::one", vec![A], vec![], false);
    assert_eq!(decide(&needs_one, &config, false), Decision::Run(Lane::Concurrent));
}

#[test]
fn a_case_runs_in_the_lane_it_declares() {
    let config = config(vec![], vec![]);
    assert_eq!(decide(&case("a", vec![], vec![], true), &config, true), Decision::Run(Lane::Exclusive));
    assert_eq!(decide(&case("a", vec![], vec![], false), &config, true), Decision::Run(Lane::Concurrent));
}

#[test]
fn file_flags_count_only_where_the_platform_has_them() {
    let config = config(vec![], vec![FileFlags::UfAppend]);
    let needs_flags = case("tests::flags", vec![], vec![FileFlags::UfImmutable, FileFlags::UfAppend, FileFlags::SfImmutable], true);
    assert_eq!(decide(&needs_flags, &config, false), Decision::Run(Lane::Exclusive));
    match decide(&needs_flags, &config, true) {
        Decision::Skip { missing_features, missing_flags, report } => {
            assert!(missing_features.is_empty());
            assert_eq!(missing_flags, vec![FileFlags::UfImmutable, FileFlags::SfImmutable]);
            assert_eq!(
                report,
                "skipped 'tests::flags'\nplease add the following flags to your configuration:\n\tfile_flags = [\"UF_IMMUTABLE\", \"SF_IMMUTABLE\"]\n"
            );
        }
        Decision::Run(_) => panic!("a case that lacks a flag must be skipped"),
    }
}

#[test]
fn the_skip_message_lists_features_then_flags() {
    assert_eq!(write_skip_message(&vec![], &vec![]), "");
    assert_eq!(
        write_skip_message(&vec![A, B], &vec![]),
        "please add the following features to your configuration:\n\t[features.rename_ctime]\n\t[features.nfsv4_acls]\n"
    );
    assert_eq!(
        write_skip_message(&vec![], &vec![FileFlags::SfSnapshot]),
        "please add the following flags to your configuration:\n\tfile_flags = [\"SF_SNAPSHOT\"]\n"
    );
    assert_eq!(
        write_skip_message(&vec![B], &vec![FileFlags::UfNodump, FileFlags::UfOpaque]),
        "please add the following features to your configuration:\n\t[features.nfsv4_acls]\nplease add the following flags to your configuration:\n\tfile_flags = [\"UF_NODUMP\", \"UF_OPAQUE\"]\n"
    );
    assert_eq!(write_skip_report("n", "m"), "skipped 'n'\nm");
}

#[test]
fn a_run_goes_through_the_registry_in_order() {
    let mut runner = runner(
        vec![
            case("first", vec![], vec![], false),
            case("second", vec![B], vec![], false),
            case("third", vec![], vec![], true),
        ],
        config(vec![A], vec![]),
        false,
    );
    assert_eq!(runner.len(), 3);
    assert_eq!(runner.phase(), Phase::Idle);
    assert_eq!(runner.status(0), Some(CaseStatus::Pending));

    assert_eq!(
        runner.next(),
        Action::Start { index: 0, lane: Lane::Concurrent, announcement: "first\t".to_string() }
    );
    assert_eq!(runner.phase(), Phase::Running);
    assert_eq!(runner.status(0), Some(CaseStatus::Running));
    assert_eq!(runner.finish_case(&Outcome::Passed), "success");
    assert_eq!(runner.phase(), Phase::TearingDown);
    assert_eq!(runner.status(0), Some(CaseStatus::Passed));
    runner.torn_down();
    assert_eq!(runner.cursor(), 1);

    assert_eq!(
        runner.next(),
        Action::Skip {
            index: 1,
            report: "skipped 'second'\nplease add the following features to your configuration:\n\t[features.nfsv4_acls]\n".to_string()
        }
    );
    assert_eq!(runner.phase(), Phase::Idle);
    assert_eq!(runner.status(1), Some(CaseStatus::Skipped));

    assert_eq!(
        runner.next(),
        Action::Start { index: 2, lane: Lane::Exclusive, announcement: "third\t".to_string() }
    );
    assert_eq!(runner.finish_case(&Outcome::Passed), "success");
    runner.torn_down();

    assert_eq!(
        runner.next(),
        Action::Finish { exit_code: 0, summary: "2 passed, 0 failed, 1 skipped".to_string() }
    );
    assert_eq!(runner.phase(), Phase::Finished);
    assert_eq!(runner.status(3), None);
    assert_eq!(runner.exit_code(), 0);
}

#[test]
fn a_failing_case_is_reported_and_the_next_still_runs() {
    let mut runner = runner(
        vec![
            case("tests::fails", vec![], vec![], false),
            case("tests::passes", vec![], vec![], false),
        ],
        config(vec![], vec![]),
        false,
    );
    assert!(matches!(runner.next(), Action::Start { index: 0, .. }));
    assert_eq!(
        runner.finish_case(&failure()),
        "assertion `left == right` failed\n  left: 1\n right: 2\nLocated in file src/tests/chmod.rs at 17:5"
    );
    assert_eq!(runner.status(0), Some(CaseStatus::Failed));
    runner.torn_down();
    assert_eq!(
        runner.next(),
        Action::Start { index: 1, lane: Lane::Concurrent, announcement: "tests::passes\t".to_string() }
    );
    assert_eq!(runner.finish_case(&Outcome::Passed), "success");
    assert_eq!(runner.status(1), Some(CaseStatus::Passed));
    runner.torn_down();
    assert_eq!(
        runner.next(),
        Action::Finish { exit_code: 1, summary: "1 passed, 1 failed, 0 skipped".to_string() }
    );
    assert_eq!(runner.count(CaseStatus::Failed), 1);
    assert_eq!(runner.count(CaseStatus::Passed), 1);
    assert_eq!(runner.count(CaseStatus::Pending), 0);
}

#[test]
fn teardown_comes_after_a_failure_as_after_a_success() {
    let entry = |name: &str, id: u32| DummyAuthEntry {
        user: User { name: name.to_string(), uid: id, gid: id },
        group: Group { name: name.to_string(), gid: id },
    };
    let mut pool = PrincipalPool::new(vec![entry("a", 1), entry("b", 2), entry("c", 3)]);
    let mut controller = SerializationController::new();
    let mut runner = runner(
        vec![
            case("tests::fails", vec![], vec![], true),
            case("tests::next", vec![], vec![], true),
        ],
        config(vec![], vec![]),
        false,
    );

    let lane = match runner.next() {
        Action::Start { lane, .. } => lane,
        other => panic!("unexpected {:?}", other),
    };
    let ticket = controller.try_acquire(lane).unwrap();
    let mut ctx = TestContext::new("/tmp/sandbox-0".to_string(), &ticket, 1_000_000_000);
    assert_eq!(ctx.new_principal(&mut pool), Ok(entry("a", 1)));
    // The body fails partway through.
    runner.finish_case(&failure());
    assert_eq!(runner.phase(), Phase::TearingDown);
    let teardown = ctx.teardown();
    assert_eq!(teardown.sandbox, "/tmp/sandbox-0");
    assert_eq!(teardown.released, vec![entry("a", 1)]);
    assert!(controller.release(ticket));
    runner.torn_down();
    assert_eq!(runner.phase(), Phase::Idle);

    let lane = match runner.next() {
        Action::Start { index: 1, lane, .. } => lane,
        other => panic!("unexpected {:?}", other),
    };
    let ticket = controller.try_acquire(lane).unwrap();
    let mut ctx = TestContext::new("/tmp/sandbox-1".to_string(), &ticket, 1_000_000_000);
    assert!(ctx.allocated_principals().is_empty());
    // Nothing is handed out twice: the failed case's principal stays taken.
    assert_eq!(ctx.new_principal(&mut pool), Ok(entry("b", 2)));
    assert_eq!(pool.principals_left(), 1);
}

#[test]
fn an_exhausted_pool_ends_the_run() {
    let mut runner = runner(
        vec![
            case("tests::greedy", vec![], vec![], true),
            case("tests::never", vec![], vec![], false),
        ],
        config(vec![], vec![]),
        false,
    );
    assert!(matches!(runner.next(), Action::Start { index: 0, .. }));
    assert_eq!(runner.finish_case(&Outcome::Exhausted), "the pool of principals is exhausted");
    assert_eq!(runner.status(0), Some(CaseStatus::Failed));
    runner.torn_down();
    assert_eq!(
        runner.next(),
        Action::Finish { exit_code: 1, summary: "0 passed, 1 failed, 0 skipped".to_string() }
    );
    assert_eq!(runner.status(1), Some(CaseStatus::Pending));
}

#[test]
fn skips_do_not_count_against_success() {
    let mut runner = runner(
        vec![
            case("tests::a", vec![A], vec![], false),
            case("tests::b", vec![B], vec![], false),
        ],
        config(vec![], vec![]),
        false,
    );
    assert!(matches!(runner.next(), Action::Skip { index: 0, .. }));
    assert!(matches!(runner.next(), Action::Skip { index: 1, .. }));
    assert_eq!(
        runner.next(),
        Action::Finish { exit_code: 0, summary: "0 passed, 0 failed, 2 skipped".to_string() }
    );
}

#[test]
fn an_empty_run_succeeds_at_once() {
    let mut runner = runner(vec![], config(vec![], vec![]), true);
    assert_eq!(
        runner.next(),
        Action::Finish { exit_code: 0, summary: "0 passed, 0 failed, 0 skipped".to_string() }
    );
    assert_eq!(runner.exit_code(), 0);
    assert_eq!(runner.summary(), "0 passed, 0 failed, 0 skipped");
}

#[test]
fn a_runner_keeps_its_registry_and_configuration() {
    let runner = runner(
        vec![case("only", vec![A], vec![], false)],
        config(vec![A, B], vec![FileFlags::UfAppend]),
        true,
    );
    assert_eq!(runner.registry().len(), 1);
    assert_eq!(runner.registry().get(0).unwrap().name, "only");
    assert_eq!(runner.config().features.enabled_features(), vec![A, B]);
    assert_eq!(runner.config().features.file_flags, vec![FileFlags::UfAppend]);
    assert_eq!(runner.config().settings, SettingsConfig::default());
    assert_eq!(runner.config().dummy_auth.entries[0].user.name, "nobody");
}
