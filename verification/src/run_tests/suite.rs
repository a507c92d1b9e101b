//! The tests of a configuration, run one after another.

use crate::run_tests::coordinator::{
    RunAction, RunActionView, RunEvent, RunEventView, TestRun, TestRunView,
};
use crate::run_tests::coordinator_laws::law_step_keeps_invariant;
use crate::run_tests::types::{Config, ConfigView};
use crate::run_tests::verdict::{
    all_passed, exit_code, exit_code_of, verdict_views, Verdict, VerdictView,
};
use vstd::prelude::*;

verus! {

/// What becomes of the tests that follow a test that did not pass. The choice
/// is made by whoever starts the run; there is no default.
#[derive(Debug, Clone, Copy, PartialEq, Eq, Structural)]
pub enum FailurePolicy {
    /// They run all the same.
    Continue,
    /// They are left out.
    StopAtFirstFailure,
}

/// What the caller is to do next.
#[derive(Debug, PartialEq, Eq)]
pub enum SuiteAction {
    /// Take `action` for the test at `index` of the configuration.
    Test { index: usize, action: RunAction },
    /// Nothing is left to run: leave with `code`.
    Exit { code: i32 },
}

pub enum SuiteActionView {
    Test { index: nat, action: RunActionView },
    Exit { code: i32 },
}

impl View for SuiteAction {
    type V = SuiteActionView;

    open spec fn view(&self) -> SuiteActionView {
        match *self {
            SuiteAction::Test { index, action } => SuiteActionView::Test {
                index: index as nat,
                action: action@,
            },
            SuiteAction::Exit { code } => SuiteActionView::Exit { code },
        }
    }
}

/// What a run of a configuration stands for: the verdicts of the tests that
/// are done, in the order of the tests, and the run of the test that follows
/// them, once it has begun.
pub struct SuiteRunView {
    pub config: ConfigView,
    pub policy: FailurePolicy,
    pub verdicts: Seq<VerdictView>,
    pub active: Option<TestRunView>,
}

impl SuiteRunView {
    /// The run of `config` before anything has happened.
    pub open spec fn fresh(config: ConfigView, policy: FailurePolicy) -> SuiteRunView {
        SuiteRunView { config, policy, verdicts: Seq::empty(), active: None }
    }

    /// What holds of every run of a configuration: the tests that are done
    /// are the first of the configuration, and the run that is under way is
    /// a sound run of the test that follows them, and is not done.
    pub open spec fn inv(self) -> bool {
        &&& self.verdicts.len() <= self.config.tests.len()
        &&& self.active matches Some(run) ==> {
            &&& self.verdicts.len() < self.config.tests.len()
            &&& run.inv()
            &&& run.test == self.config.tests[self.verdicts.len() as int]
            &&& !(run.state is Done)
        }
    }

    /// No further test is begun, because one did not pass.
    pub open spec fn halted(self) -> bool {
        self.policy == FailurePolicy::StopAtFirstFailure && !all_passed(self.verdicts)
    }

    /// No test is running and none is left to begin.
    pub open spec fn finished(self) -> bool {
        self.active is None && (self.verdicts.len() >= self.config.tests.len() || self.halted())
    }

    /// Begins the test that follows those that are done, with `event` as the
    /// first that its run takes in.
    pub open spec fn begin(self, event: RunEventView) -> (SuiteRunView, SuiteActionView) {
        let index = self.verdicts.len();
        let (run, action) = TestRunView::fresh(self.config.tests[index as int]).step(event);
        (
            SuiteRunView {
                config: self.config,
                policy: self.policy,
                verdicts: self.verdicts,
                active: Some(run),
            },
            SuiteActionView::Test { index, action },
        )
    }

    /// Records the verdict of the test that has just ended, and begins the
    /// next test or ends the run.
    pub open spec fn conclude_test(self, verdict: VerdictView) -> (SuiteRunView, SuiteActionView) {
        let done = SuiteRunView {
            config: self.config,
            policy: self.policy,
            verdicts: self.verdicts.push(verdict),
            active: None,
        };
        if done.finished() {
            (done, SuiteActionView::Exit { code: exit_code_of(done.verdicts) })
        } else {
            done.begin(RunEventView::Start)
        }
    }

    /// The run after `event`, and the action that the caller is to take.
    ///
    /// The event goes to the test that is running. When that test is done its
    /// verdict is recorded and the next test begins at once; the caller never
    /// sees a test's last action. When no test is left the caller is told to
    /// leave, with a code that is zero when every test passed.
    pub open spec fn step(self, event: RunEventView) -> (SuiteRunView, SuiteActionView) {
        match self.active {
            Some(run) => {
                let (next, action) = run.step(event);
                match action {
                    RunActionView::Finish { verdict } => self.conclude_test(verdict),
                    _ => (
                        SuiteRunView {
                            config: self.config,
                            policy: self.policy,
                            verdicts: self.verdicts,
                            active: Some(next),
                        },
                        SuiteActionView::Test { index: self.verdicts.len(), action },
                    ),
                }
            },
            None => if self.finished() {
                (self, SuiteActionView::Exit { code: exit_code_of(self.verdicts) })
            } else {
                self.begin(event)
            },
        }
    }
}

/// The run of the tests of a configuration.
#[derive(Debug)]
pub struct SuiteRun {
    config: Config,
    policy: FailurePolicy,
    verdicts: Vec<Verdict>,
    active: Option<TestRun>,
}

impl View for SuiteRun {
    type V = SuiteRunView;

    closed spec fn view(&self) -> SuiteRunView {
        SuiteRunView {
            config: self.config@,
            policy: self.policy,
            verdicts: verdict_views(self.verdicts@),
            active: match self.active {
                Some(run) => Some(run@),
                None => None,
            },
        }
    }
}

impl SuiteRun {
    #[verifier::type_invariant]
    spec fn well_formed(self) -> bool {
        self@.inv()
    }

    /// A run of `config` in which nothing has happened yet.
    pub fn new(config: Config, policy: FailurePolicy) -> (run: SuiteRun)
        ensures
            run@ == SuiteRunView::fresh(config@, policy),
            run@.inv(),
    {
        let verdicts: Vec<Verdict> = Vec::new();
        assert(verdict_views(verdicts@) =~= Seq::empty());
        SuiteRun { config, policy, verdicts, active: None }
    }

    /// The configuration that is run.
    pub fn config(&self) -> (config: &Config)
        ensures
            config@ == self@.config,
    {
        &self.config
    }

    /// The verdicts of the tests that are done, in the order of the tests.
    pub fn verdicts(&self) -> (verdicts: &Vec<Verdict>)
        ensures
            verdict_views(verdicts@) == self@.verdicts,
    {
        &self.verdicts
    }

    /// Whether no test is running and none is left to begin.
    pub fn finished(&self) -> (finished: bool)
        ensures
            finished == self@.finished(),
    {
        match &self.active {
            Some(_) => false,
            None => self.verdicts.len() >= self.config.tests.len() || (match self.policy {
                FailurePolicy::StopAtFirstFailure => exit_code(&self.verdicts) != 0,
                FailurePolicy::Continue => false,
            }),
        }
    }

    fn begin(
        config: Config,
        policy: FailurePolicy,
        verdicts: Vec<Verdict>,
        event: RunEvent,
        Ghost(suite): Ghost<SuiteRunView>,
    ) -> (result: (SuiteRun, SuiteAction))
        requires
            suite.config == config@,
            suite.policy == policy,
            suite.verdicts == verdict_views(verdicts@),
            verdicts@.len() < config.tests@.len(),
        ensures
            (result.0@, result.1@) == suite.begin(event@),
    {
        let index = verdicts.len();
        let test = config.tests[index].clone();
        proof {
            law_step_keeps_invariant(TestRunView::fresh(test@), event@);
        }
        let (run, action) = TestRun::new(test).step(event);
        (SuiteRun { config, policy, verdicts, active: Some(run) }, SuiteAction::Test {
            index,
            action,
        })
    }

    /// Takes `event` in and says what the caller is to do next.
    ///
    /// The run after the call and the action are those of the model,
    /// [`SuiteRunView::step`].
    pub fn step(self, event: RunEvent) -> (result: (SuiteRun, SuiteAction))
        ensures
            (result.0@, result.1@) == self@.step(event@),
            result.0@.inv(),
    {
        proof {
            use_type_invariant(&self);
        }
        let ghost suite = self@;
        let finished = self.finished();
        let SuiteRun { config, policy, verdicts, active } = self;
        let result = match active {
            Some(run) => {
                proof {
                    law_step_keeps_invariant(run@, event@);
                }
                let (next, action) = run.step(event);
                match action {
                    RunAction::Finish { verdict } => {
                        let mut verdicts = verdicts;
                        let ghost before = verdict_views(verdicts@);
                        verdicts.push(verdict);
                        assert(verdict_views(verdicts@) =~= before.push(verdict@));
                        let done = SuiteRun { config, policy, verdicts, active: None };
                        if done.finished() {
                            let code = exit_code(&done.verdicts);
                            (done, SuiteAction::Exit { code })
                        } else {
                            let ghost held = done@;
                            let SuiteRun { config, policy, verdicts, active: _ } = done;
                            Self::begin(config, policy, verdicts, RunEvent::Start, Ghost(held))
                        }
                    },
                    action => {
                        let index = verdicts.len();
                        (
                            SuiteRun { config, policy, verdicts, active: Some(next) },
                            SuiteAction::Test { index, action },
                        )
                    },
                }
            },
            None => {
                if finished {
                    let code = exit_code(&verdicts);
                    (SuiteRun { config, policy, verdicts, active: None }, SuiteAction::Exit {
                        code,
                    })
                } else {
                    Self::begin(config, policy, verdicts, event, Ghost(suite))
                }
            },
        };
        proof {
            use_type_invariant(&result.0);
        }
        result
    }
}

/// A run of a configuration in which nothing has happened meets the
/// invariant, and no event leads a run out of it.
pub proof fn law_suite_keeps_invariant(suite: SuiteRunView, event: RunEventView)
    requires
        suite.inv(),
    ensures
        SuiteRunView::fresh(suite.config, suite.policy).inv(),
        suite.step(event).0.inv(),
        suite.step(event).0.config == suite.config,
        suite.verdicts.is_prefix_of(suite.step(event).0.verdicts),
{
    if let Some(run) = suite.active {
        law_step_keeps_invariant(run, event);
    }
    if suite.verdicts.len() < suite.config.tests.len() {
        let test = suite.config.tests[suite.verdicts.len() as int];
        law_step_keeps_invariant(TestRunView::fresh(test), event);
        law_step_keeps_invariant(TestRunView::fresh(test), RunEventView::Start);
    }
    if suite.verdicts.len() + 1 < suite.config.tests.len() {
        let test = suite.config.tests[suite.verdicts.len() as int + 1];
        law_step_keeps_invariant(TestRunView::fresh(test), RunEventView::Start);
    }
    assert(suite.verdicts.is_prefix_of(suite.verdicts));
    assert(forall|verdict: VerdictView| suite.verdicts.is_prefix_of(suite.verdicts.push(verdict)));
}

/// The run is told to leave with code zero exactly when every test that has
/// a verdict passed.
pub proof fn law_exit_code_tells_failure(suite: SuiteRunView, event: RunEventView)
    ensures
        suite.step(event).1 matches SuiteActionView::Exit { code } ==> (code == 0 <==> all_passed(
            suite.step(event).0.verdicts,
        )) && (code == 0 || code == 1),
{
}

/// Where the tests that follow a failure run all the same, the run ends only
/// when every test of the configuration has a verdict.
pub proof fn law_every_test_gets_a_verdict(suite: SuiteRunView, event: RunEventView)
    requires
        suite.inv(),
        suite.policy == FailurePolicy::Continue,
    ensures
        suite.step(event).1 is Exit ==> suite.step(event).0.verdicts.len()
            == suite.config.tests.len(),
{
}

/// A test begins, and the run ends, only when the test before is done: its
/// verdict stands and teardown has handed out its last step.
pub proof fn law_next_test_waits_for_teardown(
    suite: SuiteRunView,
    run: TestRunView,
    event: RunEventView,
)
    requires
        suite.inv(),
        suite.active == Some(run),
        suite.step(event).0.verdicts.len() > suite.verdicts.len() || suite.step(event).1 is Exit,
    ensures
        run.cleanup.finished(),
        run.state.verdict() is Some,
        suite.step(event).0.verdicts == suite.verdicts.push(run.state.verdict().unwrap()),
{
}

} // verus!
