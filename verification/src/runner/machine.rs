//! The run as a state machine: one test case after the other, each from
//! pending to skipped, or to running and then to passed or failed.

use crate::config::Config;
use crate::features::FileSystemFeature;
use crate::flags::FileFlags;
use crate::lanes::Lane;
use crate::names::{decimal, to_decimal};
use crate::runner::{decide, spec_decide, Decision, DecisionView};
use crate::test::{Registry, TestCaseView};
use vstd::prelude::*;
use vstd::string::*;

verus! {

/// How far a test case has come.
#[derive(Clone, Copy, Debug, PartialEq, Eq, Structural)]
pub enum CaseStatus {
    /// Not looked at yet.
    Pending,
    /// Left out, because something it requires is not enabled.
    Skipped,
    /// Its body is running.
    Running,
    /// Its body ran and found nothing wrong.
    Passed,
    /// Its body ran and found something wrong.
    Failed,
}

impl CaseStatus {
    /// Whether a test case can go from `self` to `next`: from pending to
    /// skipped or running, from running to passed or failed, and nowhere
    /// else.
    pub open spec fn may_become(self, next: CaseStatus) -> bool {
        ||| self == CaseStatus::Pending && (next == CaseStatus::Skipped || next
            == CaseStatus::Running)
        ||| self == CaseStatus::Running && (next == CaseStatus::Passed || next
            == CaseStatus::Failed)
    }

    /// Whether a test case in this state is done.
    pub open spec fn settled(self) -> bool {
        self == CaseStatus::Skipped || self == CaseStatus::Passed || self == CaseStatus::Failed
    }
}

/// What the runner is waiting for.
#[derive(Clone, Copy, Debug, PartialEq, Eq, Structural)]
pub enum Phase {
    /// To be asked what comes next.
    Idle,
    /// To be told how the body of the current test case went.
    Running,
    /// To be told that the context of the current test case is torn down.
    TearingDown,
    /// Nothing: the run is over.
    Finished,
}

/// Where a body found something wrong, and what.
#[derive(Debug, PartialEq, Eq)]
pub struct Failure {
    /// What was wrong.
    pub message: String,
    /// The source file in which it was found.
    pub file: String,
    /// The line in that file.
    pub line: u32,
    /// The column in that line.
    pub column: u32,
}

/// How the body of a test case went.
#[derive(Debug, PartialEq, Eq)]
pub enum Outcome {
    /// It found nothing wrong.
    Passed,
    /// It found something wrong.
    Failed(Failure),
    /// It asked for a principal or a group when the pool had none left. This
    /// is a fault of the configuration, and ends the run.
    Exhausted,
}

/// `Outcome` with its strings as character sequences.
pub enum OutcomeView {
    Passed,
    Failed { message: Seq<char>, file: Seq<char>, line: u32, column: u32 },
    Exhausted,
}

impl View for Outcome {
    type V = OutcomeView;

    open spec fn view(&self) -> OutcomeView {
        match self {
            Outcome::Passed => OutcomeView::Passed,
            Outcome::Failed(failure) => OutcomeView::Failed {
                message: failure.message@,
                file: failure.file@,
                line: failure.line,
                column: failure.column,
            },
            Outcome::Exhausted => OutcomeView::Exhausted,
        }
    }
}

impl OutcomeView {
    /// The state of a test case whose body went like this.
    pub open spec fn status(self) -> CaseStatus {
        match self {
            OutcomeView::Passed => CaseStatus::Passed,
            _ => CaseStatus::Failed,
        }
    }

    /// What is printed about a body that went like this.
    pub open spec fn report(self) -> Seq<char> {
        match self {
            OutcomeView::Passed => "success"@,
            OutcomeView::Failed { message, file, line, column } => message
                + "\nLocated in file "@ + file + " at "@ + decimal(line as nat) + ":"@ + decimal(
                column as nat,
            ),
            OutcomeView::Exhausted => "the pool of principals is exhausted"@,
        }
    }
}

/// What the caller is to do next.
#[derive(Debug, PartialEq, Eq)]
pub enum Action {
    /// Print `report`: the test case at `index` is skipped.
    Skip { index: usize, report: String },
    /// Print `announcement`, enter `lane`, make a context and run the body of
    /// the test case at `index`.
    Start { index: usize, lane: Lane, announcement: String },
    /// Print `summary` and leave with `exit_code`: the run is over.
    Finish { exit_code: i32, summary: String },
}

/// `Action` with its strings as character sequences.
pub enum ActionView {
    Skip { index: usize, report: Seq<char> },
    Start { index: usize, lane: Lane, announcement: Seq<char> },
    Finish { exit_code: i32, summary: Seq<char> },
}

impl View for Action {
    type V = ActionView;

    open spec fn view(&self) -> ActionView {
        match self {
            Action::Skip { index, report } => ActionView::Skip { index: *index, report: report@ },
            Action::Start { index, lane, announcement } => ActionView::Start {
                index: *index,
                lane: *lane,
                announcement: announcement@,
            },
            Action::Finish { exit_code, summary } => ActionView::Finish {
                exit_code: *exit_code,
                summary: summary@,
            },
        }
    }
}

/// How many items of `statuses` are `status`.
pub open spec fn count(statuses: Seq<CaseStatus>, status: CaseStatus) -> nat
    decreases statuses.len(),
{
    if statuses.len() == 0 {
        0
    } else {
        count(statuses.drop_last(), status) + if statuses.last() == status {
            1nat
        } else {
            0nat
        }
    }
}

/// The state of a run.
pub struct RunnerView {
    /// The test cases of the run, in order.
    pub registry: Seq<TestCaseView>,
    /// The features that the configuration enables.
    pub enabled_features: Seq<FileSystemFeature>,
    /// The file flags that the configuration enables.
    pub enabled_flags: Seq<FileFlags>,
    /// Whether the platform has file flags at all.
    pub flags_supported: bool,
    /// How far each test case has come, in registry order.
    pub statuses: Seq<CaseStatus>,
    /// The position of the current test case: all before it are done.
    pub cursor: nat,
    /// What the runner is waiting for.
    pub phase: Phase,
    /// Whether the pool ran out, so that no further test case is started.
    pub aborted: bool,
}

impl RunnerView {
    /// Every test case has a state, the cursor is in range, every test case
    /// before it is done, every one after it is pending, and the current one
    /// is where the phase says.
    pub open spec fn wf(self) -> bool {
        &&& self.statuses.len() == self.registry.len()
        &&& self.cursor <= self.statuses.len()
        &&& forall|i: int| 0 <= i < self.cursor ==> (#[trigger] self.statuses[i]).settled()
        &&& forall|i: int|
            self.cursor < i < self.statuses.len() ==> #[trigger] self.statuses[i]
                == CaseStatus::Pending
        &&& match self.phase {
            Phase::Idle | Phase::Finished => self.cursor < self.statuses.len()
                ==> self.statuses[self.cursor as int] == CaseStatus::Pending,
            Phase::Running => self.cursor < self.statuses.len() && self.statuses[self.cursor as int]
                == CaseStatus::Running,
            Phase::TearingDown => self.cursor < self.statuses.len() && (
            self.statuses[self.cursor as int] == CaseStatus::Passed
                || self.statuses[self.cursor as int] == CaseStatus::Failed),
        }
    }

    /// The state before anything has happened to the test cases of
    /// `registry`.
    pub open spec fn start(
        registry: Seq<TestCaseView>,
        enabled_features: Seq<FileSystemFeature>,
        enabled_flags: Seq<FileFlags>,
        flags_supported: bool,
    ) -> RunnerView {
        RunnerView {
            registry,
            enabled_features,
            enabled_flags,
            flags_supported,
            statuses: Seq::new(registry.len(), |i: int| CaseStatus::Pending),
            cursor: 0,
            phase: Phase::Idle,
            aborted: false,
        }
    }

    /// Whether the run has come to its end: every test case is done, or the
    /// pool ran out.
    pub open spec fn at_end(self) -> bool {
        self.aborted || self.cursor == self.statuses.len()
    }

    /// The exit status of the process: zero when no test case has failed
    /// and the pool has not run out, one otherwise. Skipped test cases do not
    /// count against success.
    pub open spec fn exit_code(self) -> i32 {
        if self.aborted || self.statuses.contains(CaseStatus::Failed) {
            1
        } else {
            0
        }
    }

    /// The last line of the run: how many test cases passed, failed and were
    /// skipped.
    pub open spec fn summary(self) -> Seq<char> {
        decimal(count(self.statuses, CaseStatus::Passed)) + " passed, "@ + decimal(
            count(self.statuses, CaseStatus::Failed),
        ) + " failed, "@ + decimal(count(self.statuses, CaseStatus::Skipped)) + " skipped"@
    }

    /// The state after the current test case was skipped.
    pub open spec fn after_skip(self) -> RunnerView {
        RunnerView {
            statuses: self.statuses.update(self.cursor as int, CaseStatus::Skipped),
            cursor: self.cursor + 1,
            ..self
        }
    }

    /// The state after the current test case was started.
    pub open spec fn after_start(self) -> RunnerView {
        RunnerView {
            statuses: self.statuses.update(self.cursor as int, CaseStatus::Running),
            phase: Phase::Running,
            ..self
        }
    }

    /// The state after the body of the current test case went as `outcome`
    /// says.
    pub open spec fn after_outcome(self, outcome: OutcomeView) -> RunnerView {
        RunnerView {
            statuses: self.statuses.update(self.cursor as int, outcome.status()),
            phase: Phase::TearingDown,
            aborted: self.aborted || outcome is Exhausted,
            ..self
        }
    }

    /// The state after the context of the current test case was torn down.
    pub open spec fn after_teardown(self) -> RunnerView {
        RunnerView { cursor: self.cursor + 1, phase: Phase::Idle, ..self }
    }

    /// The state after the run was declared over.
    pub open spec fn after_finish(self) -> RunnerView {
        RunnerView { phase: Phase::Finished, ..self }
    }

    /// What `Runner::next` answers in this state, and the state it leaves.
    pub open spec fn next(self) -> (ActionView, RunnerView) {
        if self.at_end() {
            (
                ActionView::Finish { exit_code: self.exit_code(), summary: self.summary() },
                self.after_finish(),
            )
        } else {
            match spec_decide(
                self.registry[self.cursor as int],
                self.enabled_features,
                self.enabled_flags,
                self.flags_supported,
            ) {
                DecisionView::Skip { report, .. } => (
                    ActionView::Skip { index: self.cursor as usize, report },
                    self.after_skip(),
                ),
                DecisionView::Run(lane) => (
                    ActionView::Start {
                        index: self.cursor as usize,
                        lane,
                        announcement: self.registry[self.cursor as int].name + "\t"@,
                    },
                    self.after_start(),
                ),
            }
        }
    }
}

/// Drives a run: owns the registry and the configuration, says what to do
/// next, and keeps the state of every test case.
#[derive(Debug)]
pub struct Runner {
    registry: Registry,
    config: Config,
    flags_supported: bool,
    statuses: Vec<CaseStatus>,
    cursor: usize,
    phase: Phase,
    aborted: bool,
}

impl View for Runner {
    type V = RunnerView;

    closed spec fn view(&self) -> RunnerView {
        RunnerView {
            registry: self.registry@,
            enabled_features: self.config.features.spec_enabled_features(),
            enabled_flags: self.config.features.file_flags@,
            flags_supported: self.flags_supported,
            statuses: self.statuses@,
            cursor: self.cursor as nat,
            phase: self.phase,
            aborted: self.aborted,
        }
    }
}

impl Runner {
    /// A runner for the test cases of `registry` under `config`, all
    /// pending. `flags_supported` says whether the platform has file flags at
    /// all.
    pub fn new(registry: Registry, config: Config, flags_supported: bool) -> (runner: Runner)
        ensures
            runner@ == RunnerView::start(
                registry@,
                config.features.spec_enabled_features(),
                config.features.file_flags@,
                flags_supported,
            ),
            runner@.wf(),
            runner.spec_config() == config,
    {
        let cases: usize = registry.len();
        let mut statuses: Vec<CaseStatus> = Vec::new();
        let mut i: usize = 0;
        while i < cases
            invariant
                i <= cases,
                statuses@.len() == i,
                forall|j: int| 0 <= j < i ==> statuses@[j] == CaseStatus::Pending,
            decreases cases - i,
        {
            statuses.push(CaseStatus::Pending);
            i += 1;
        }
        assert(statuses@ =~= Seq::new(registry@.len(), |i: int| CaseStatus::Pending));
        Runner {
            registry,
            config,
            flags_supported,
            statuses,
            cursor: 0,
            phase: Phase::Idle,
            aborted: false,
        }
    }

    /// The configuration that the run was started with.
    pub closed spec fn spec_config(&self) -> Config {
        self.config
    }

    /// The configuration that the run was started with.
    pub fn config(&self) -> (config: &Config)
        ensures
            *config == self.spec_config(),
    {
        &self.config
    }

    /// The test cases of the run.
    pub fn registry(&self) -> (registry: &Registry)
        ensures
            registry@ == self@.registry,
    {
        &self.registry
    }

    /// What the runner is waiting for.
    pub fn phase(&self) -> (phase: Phase)
        ensures
            phase == self@.phase,
    {
        self.phase
    }

    /// How many test cases the run has.
    pub fn len(&self) -> (len: usize)
        ensures
            len == self@.statuses.len(),
    {
        self.statuses.len()
    }

    /// The position of the current test case.
    pub fn cursor(&self) -> (cursor: usize)
        ensures
            cursor == self@.cursor,
    {
        self.cursor
    }

    /// How far the test case at `index` has come.
    pub fn status(&self, index: usize) -> (status: Option<CaseStatus>)
        ensures
            index < self@.statuses.len() ==> status == Some(self@.statuses[index as int]),
            index >= self@.statuses.len() ==> status is None,
    {
        if index < self.statuses.len() {
            Some(self.statuses[index])
        } else {
            None
        }
    }

    /// How many test cases are in state `status`.
    pub fn count(&self, status: CaseStatus) -> (n: usize)
        ensures
            n == count(self@.statuses, status),
    {
        let mut n: usize = 0;
        let mut i: usize = 0;
        while i < self.statuses.len()
            invariant
                i <= self.statuses.len(),
                n <= i,
                n == count(self.statuses@.take(i as int), status),
            decreases self.statuses.len() - i,
        {
            assert(self.statuses@.take(i + 1).drop_last() =~= self.statuses@.take(i as int));
            if self.statuses[i] == status {
                n += 1;
            }
            i += 1;
        }
        assert(self.statuses@.take(i as int) =~= self.statuses@);
        n
    }

    /// The exit status that the process is to end with, as things stand.
    pub fn exit_code(&self) -> (code: i32)
        ensures
            code == self@.exit_code(),
    {
        if self.aborted {
            return 1;
        }
        let mut i: usize = 0;
        while i < self.statuses.len()
            invariant
                i <= self.statuses.len(),
                forall|j: int| 0 <= j < i ==> self.statuses@[j] != CaseStatus::Failed,
            decreases self.statuses.len() - i,
        {
            if self.statuses[i] == CaseStatus::Failed {
                return 1;
            }
            i += 1;
        }
        0
    }

    /// The last line of the run.
    pub fn summary(&self) -> (text: String)
        ensures
            text@ == self@.summary(),
    {
        let mut text: String = to_decimal(self.count(CaseStatus::Passed) as u64);
        text.append(" passed, ");
        text.append(to_decimal(self.count(CaseStatus::Failed) as u64).as_str());
        text.append(" failed, ");
        text.append(to_decimal(self.count(CaseStatus::Skipped) as u64).as_str());
        text.append(" skipped");
        text
    }

    /// Says what to do next.
    ///
    /// At the end of the registry, or once the pool has run out, the run is
    /// over. Else the current test case is decided: skipped, and the runner
    /// moves on to the one after it; or started, and the runner waits to be
    /// told how its body went. What went before has no part in the decision:
    /// a test case that failed does not keep the next from running.
    pub fn next(&mut self) -> (action: Action)
        requires
            old(self)@.wf(),
            old(self)@.phase == Phase::Idle,
        ensures
            final(self)@.wf(),
            final(self).spec_config() == old(self).spec_config(),
            (action@, final(self)@) == old(self)@.next(),
    {
        if self.aborted || self.cursor == self.statuses.len() {
            let exit_code: i32 = self.exit_code();
            let summary: String = self.summary();
            self.phase = Phase::Finished;
            return Action::Finish { exit_code, summary };
        }
        let index: usize = self.cursor;
        let case = self.registry.get(index).unwrap();
        match decide(case, &self.config.features, self.flags_supported) {
            Decision::Skip { missing_features: _, missing_flags: _, report } => {
                self.statuses.set(index, CaseStatus::Skipped);
                self.cursor = index + 1;
                Action::Skip { index, report }
            },
            Decision::Run(lane) => {
                self.statuses.set(index, CaseStatus::Running);
                self.phase = Phase::Running;
                let mut announcement: String = case.name.clone();
                announcement.append("\t");
                Action::Start { index, lane, announcement }
            },
        }
    }

    /// Records how the body of the current test case went, and hands back
    /// what is to be printed about it.
    ///
    /// Whatever the outcome, the runner then waits for the context of the
    /// test case to be torn down, and starts nothing before that.
    pub fn finish_case(&mut self, outcome: &Outcome) -> (report: String)
        requires
            old(self)@.wf(),
            old(self)@.phase == Phase::Running,
        ensures
            final(self)@.wf(),
            final(self).spec_config() == old(self).spec_config(),
            final(self)@ == old(self)@.after_outcome(outcome@),
            final(self)@.phase == Phase::TearingDown,
            report@ == outcome@.report(),
    {
        let index: usize = self.cursor;
        match outcome {
            Outcome::Passed => {
                self.statuses.set(index, CaseStatus::Passed);
                self.phase = Phase::TearingDown;
                "success".to_owned()
            },
            Outcome::Failed(failure) => {
                self.statuses.set(index, CaseStatus::Failed);
                self.phase = Phase::TearingDown;
                let mut report: String = failure.message.clone();
                report.append("\nLocated in file ");
                report.append(failure.file.as_str());
                report.append(" at ");
                report.append(to_decimal(failure.line as u64).as_str());
                report.append(":");
                report.append(to_decimal(failure.column as u64).as_str());
                report
            },
            Outcome::Exhausted => {
                self.statuses.set(index, CaseStatus::Failed);
                self.phase = Phase::TearingDown;
                self.aborted = true;
                "the pool of principals is exhausted".to_owned()
            },
        }
    }

    /// Records that the context of the current test case is torn down: the
    /// runner moves on to the next test case.
    pub fn torn_down(&mut self)
        requires
            old(self)@.wf(),
            old(self)@.phase == Phase::TearingDown,
        ensures
            final(self)@.wf(),
            final(self).spec_config() == old(self).spec_config(),
            final(self)@ == old(self)@.after_teardown(),
    {
        assert(self.cursor < self.statuses.len());
        self.cursor = self.cursor + 1;
        self.phase = Phase::Idle;
    }
}

/// Whether `after` differs from `before` in the state of at most the test
/// case at `at`, and there only along an edge that `may_become` allows.
pub open spec fn moved_only(before: RunnerView, after: RunnerView, at: nat) -> bool {
    &&& after.statuses.len() == before.statuses.len()
    &&& forall|i: int|
        0 <= i < before.statuses.len() && i != at ==> #[trigger] after.statuses[i]
            == before.statuses[i]
    &&& at < before.statuses.len() ==> after.statuses[at as int] == before.statuses[at as int]
        || before.statuses[at as int].may_become(after.statuses[at as int])
}

/// Every step of a run keeps the state well formed and moves at most the
/// current test case, along one of the four edges: pending to skipped,
/// pending to running, running to passed, running to failed.
pub proof fn lemma_steps_follow_edges(run: RunnerView, outcome: OutcomeView)
    requires
        run.wf(),
    ensures
        run.phase == Phase::Idle ==> run.next().1.wf() && moved_only(run, run.next().1, run.cursor),
        run.phase == Phase::Running ==> run.after_outcome(outcome).wf() && moved_only(
            run,
            run.after_outcome(outcome),
            run.cursor,
        ),
        run.phase == Phase::TearingDown ==> run.after_teardown().wf() && run.after_teardown().statuses
            == run.statuses,
{
}

/// An upper bound on the number of steps that a run in state `run` still
/// takes: three for every test case that is not done, less what the
/// current one has behind it, and one for the end.
pub open spec fn steps_left(run: RunnerView) -> nat {
    let cases = (3 * (run.statuses.len() - run.cursor)) as nat;
    match run.phase {
        Phase::Idle => cases + 1,
        Phase::Running => cases,
        Phase::TearingDown => (cases - 1) as nat,
        Phase::Finished => 0,
    }
}

/// A run comes to its end: every step takes it closer, by the measure of
/// `steps_left`, and when the runner is idle with no test case left, or with
/// the pool run dry, the next step is the last.
pub proof fn lemma_run_ends(run: RunnerView, outcome: OutcomeView)
    requires
        run.wf(),
    ensures
        run.phase == Phase::Idle ==> steps_left(run.next().1) < steps_left(run),
        run.phase == Phase::Running ==> steps_left(run.after_outcome(outcome)) < steps_left(run),
        run.phase == Phase::TearingDown ==> steps_left(run.after_teardown()) < steps_left(run),
        run.phase == Phase::Idle ==> (run.next().0 is Finish <==> run.at_end()),
        run.phase == Phase::Idle && run.next().0 is Finish ==> run.next().1.phase
            == Phase::Finished,
        run.phase == Phase::Idle && run.cursor == run.statuses.len() ==> forall|i: int|
            0 <= i < run.statuses.len() ==> (#[trigger] run.statuses[i]).settled(),
{
}

/// A test case that fails does not end the run: once its context is torn
/// down the runner is idle again, at the next test case, and what it decides
/// about that one is what it would have decided had the failed one passed.
/// Only the exit status remembers the failure.
pub proof fn lemma_failure_is_isolated(
    run: RunnerView,
    message: Seq<char>,
    file: Seq<char>,
    line: u32,
    column: u32,
)
    requires
        run.wf(),
        run.phase == Phase::Running,
        !run.aborted,
        run.cursor + 1 < run.statuses.len(),
    ensures
        ({
            let failed = run.after_outcome(
                OutcomeView::Failed { message, file, line, column },
            ).after_teardown();
            let passed = run.after_outcome(OutcomeView::Passed).after_teardown();
            &&& failed.wf()
            &&& failed.phase == Phase::Idle
            &&& failed.cursor == run.cursor + 1
            &&& !failed.at_end()
            &&& failed.statuses[run.cursor as int] == CaseStatus::Failed
            &&& failed.exit_code() == 1
            &&& failed.next().0 == passed.next().0
            &&& !(failed.next().0 is Finish)
        }),
{
    let failed = run.after_outcome(OutcomeView::Failed { message, file, line, column }).after_teardown();
    assert(failed.statuses[run.cursor as int] == CaseStatus::Failed);
    assert(failed.statuses.contains(CaseStatus::Failed));
}

/// However the body of a test case went, the next thing is the tearing down
/// of its context, and the state that the teardown leaves differs between
/// outcomes only in the verdict on that test case and, where the pool ran
/// out, in the end of the run.
pub proof fn lemma_teardown_follows_every_outcome(run: RunnerView, outcome: OutcomeView)
    requires
        run.wf(),
        run.phase == Phase::Running,
    ensures
        run.after_outcome(outcome).phase == Phase::TearingDown,
        run.after_outcome(outcome).cursor == run.cursor,
        run.after_outcome(outcome).after_teardown().phase == Phase::Idle,
        run.after_outcome(outcome).after_teardown().cursor == run.cursor + 1,
        run.after_outcome(outcome).after_teardown().statuses == run.statuses.update(
            run.cursor as int,
            outcome.status(),
        ),
{
}

/// The process ends with status zero exactly when no test case has failed
/// and the pool has not run out; a skipped test case changes nothing in
/// that.
pub proof fn lemma_exit_code(run: RunnerView)
    requires
        run.wf(),
    ensures
        run.exit_code() == 0 <==> !run.aborted && forall|i: int|
            0 <= i < run.statuses.len() ==> #[trigger] run.statuses[i] != CaseStatus::Failed,
        run.exit_code() == 0 || run.exit_code() == 1,
        run.phase == Phase::Idle && !run.at_end() ==> run.after_skip().exit_code()
            == run.exit_code(),
{
    if run.phase == Phase::Idle && !run.at_end() {
        let skipped = run.after_skip();
        if run.statuses.contains(CaseStatus::Failed) {
            let i = choose|i: int| 0 <= i < run.statuses.len() && run.statuses[i] == CaseStatus::Failed;
            assert(skipped.statuses[i] == CaseStatus::Failed);
        }
        if skipped.statuses.contains(CaseStatus::Failed) {
            let i = choose|i: int|
                0 <= i < skipped.statuses.len() && skipped.statuses[i] == CaseStatus::Failed;
            assert(run.statuses[i] == CaseStatus::Failed);
        }
    }
}

} // verus!
