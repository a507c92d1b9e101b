//! The run of one test, from the build of its packages to teardown.
//!
//! The run is a state machine. It hands the caller one action at a time; the
//! caller performs it and reports what happened as an event, which yields the
//! next action. Whatever is reported, the run ends the same way: a verdict is
//! shown, every node that was launched is torn down, the router is told to
//! shut down, and only then is the run done.

use crate::run_tests::cleanup::{
    release_len, CleanupContext, CleanupContextView, CleanupStep, CleanupStepView,
};
use crate::run_tests::tester_types::{
    TesterError, TesterErrorView, TesterRequest, TesterRequestView, TesterResponse,
    TesterResponseView,
};
use crate::run_tests::types::{
    node_views, texts_of, NetworkRouter, Node, NodeInfo, NodeInfoView, NodeView, Test, TestView,
};
use crate::run_tests::verdict::{
    BuildError, BuildErrorView, FleetError, LaunchError, RunError, RunErrorView, Verdict,
    VerdictError, VerdictView,
};
use vstd::prelude::*;

verus! {

/// The two lists of packages of a test. The setup packages are built first.
#[derive(Debug, Clone, Copy, PartialEq, Eq, Structural)]
pub enum PackageGroup {
    Setup,
    Test,
}

/// Where a run stands.
#[derive(Debug, PartialEq, Eq)]
pub enum RunState {
    /// Nothing has been asked for yet.
    Idle,
    /// The package at `index` of `group` is being built.
    BuildingPackages { group: PackageGroup, index: usize },
    /// The router is being started.
    RouterUp,
    /// The nodes are being brought up: `launched` of them have been launched;
    /// once all are, `ready` of them have answered on their port.
    FleetUp { launched: usize, ready: usize },
    /// The tests were started and their answer is awaited.
    AwaitingVerdict,
    Passed,
    Failed(RunError),
    TimedOut,
    /// The nodes are being torn down. The verdict stands.
    CleaningUp(Verdict),
    Done(Verdict),
}

pub enum RunStateView {
    Idle,
    BuildingPackages { group: PackageGroup, index: nat },
    RouterUp,
    FleetUp { launched: nat, ready: nat },
    AwaitingVerdict,
    Passed,
    Failed(RunErrorView),
    TimedOut,
    CleaningUp(VerdictView),
    Done(VerdictView),
}

impl View for RunState {
    type V = RunStateView;

    open spec fn view(&self) -> RunStateView {
        match *self {
            RunState::Idle => RunStateView::Idle,
            RunState::BuildingPackages { group, index } => RunStateView::BuildingPackages {
                group,
                index: index as nat,
            },
            RunState::RouterUp => RunStateView::RouterUp,
            RunState::FleetUp { launched, ready } => RunStateView::FleetUp {
                launched: launched as nat,
                ready: ready as nat,
            },
            RunState::AwaitingVerdict => RunStateView::AwaitingVerdict,
            RunState::Passed => RunStateView::Passed,
            RunState::Failed(error) => RunStateView::Failed(error@),
            RunState::TimedOut => RunStateView::TimedOut,
            RunState::CleaningUp(verdict) => RunStateView::CleaningUp(verdict@),
            RunState::Done(verdict) => RunStateView::Done(verdict@),
        }
    }
}

impl RunStateView {
    /// Teardown has not been entered.
    pub open spec fn before_teardown(self) -> bool {
        !(self is CleaningUp) && !(self is Done)
    }

    /// No verdict has been reached.
    pub open spec fn before_verdict(self) -> bool {
        self is Idle || self is BuildingPackages || self is RouterUp || self is FleetUp
            || self is AwaitingVerdict
    }

    /// The verdict that the state holds, if one has been reached.
    pub open spec fn verdict(self) -> Option<VerdictView> {
        match self {
            RunStateView::Passed => Some(VerdictView::Passed),
            RunStateView::Failed(error) => Some(VerdictView::Failed(error)),
            RunStateView::TimedOut => Some(VerdictView::TimedOut),
            RunStateView::CleaningUp(verdict) => Some(verdict),
            RunStateView::Done(verdict) => Some(verdict),
            _ => None,
        }
    }

    /// The state in which a verdict is shown.
    pub open spec fn showing(verdict: VerdictView) -> RunStateView {
        match verdict {
            VerdictView::Passed => RunStateView::Passed,
            VerdictView::Failed(error) => RunStateView::Failed(error),
            VerdictView::TimedOut => RunStateView::TimedOut,
        }
    }
}

/// What the caller reports of the action it was handed.
#[derive(Debug, PartialEq, Eq)]
pub enum RunEvent {
    /// The run is to begin.
    Start,
    /// The action was carried out.
    Completed,
    BuildFailed(BuildError),
    /// The router or a node could not be launched.
    LaunchFailed(LaunchError),
    /// A node process is running.
    NodeLaunched(NodeInfo),
    /// The node did not answer on its port in time.
    StartupTimedOut,
    /// The tester answered.
    Responded(TesterResponse),
    /// The tester's side of the protocol reported an error.
    Rejected(TesterError),
    /// The time allowed for the test ran out first.
    TimedOut,
}

pub enum RunEventView {
    Start,
    Completed,
    BuildFailed(BuildErrorView),
    LaunchFailed(LaunchError),
    NodeLaunched(NodeInfoView),
    StartupTimedOut,
    Responded(TesterResponseView),
    Rejected(TesterErrorView),
    TimedOut,
}

impl View for RunEvent {
    type V = RunEventView;

    open spec fn view(&self) -> RunEventView {
        match *self {
            RunEvent::Start => RunEventView::Start,
            RunEvent::Completed => RunEventView::Completed,
            RunEvent::BuildFailed(error) => RunEventView::BuildFailed(error@),
            RunEvent::LaunchFailed(error) => RunEventView::LaunchFailed(error),
            RunEvent::NodeLaunched(info) => RunEventView::NodeLaunched(info@),
            RunEvent::StartupTimedOut => RunEventView::StartupTimedOut,
            RunEvent::Responded(response) => RunEventView::Responded(response@),
            RunEvent::Rejected(error) => RunEventView::Rejected(error@),
            RunEvent::TimedOut => RunEventView::TimedOut,
        }
    }
}

impl RunEventView {
    /// The error that an event stands for where the run's state does not
    /// provide for it.
    pub open spec fn failure(self) -> RunErrorView {
        match self {
            RunEventView::BuildFailed(error) => RunErrorView::Build(error),
            RunEventView::LaunchFailed(error) => RunErrorView::Launch(error),
            _ => RunErrorView::Aborted,
        }
    }
}

/// What the caller is to do next.
#[derive(Debug, PartialEq, Eq)]
pub enum RunAction {
    /// Build the package at `path`.
    BuildPackage { path: String, verbose: bool },
    /// Start the router process.
    StartRouter { router: NetworkRouter },
    /// Launch the node on a pseudo-terminal of its own and report its handles.
    LaunchNode { node: Node },
    /// Wait until the node that listens on `port` answers.
    AwaitReady { port: u16 },
    /// Send `request` to the node that listens on `port`, and wait for its
    /// answer for at most `timeout_secs` seconds.
    RunTests { port: u16, request: TesterRequest, timeout_secs: u64 },
    /// Show the verdict.
    Report { verdict: Verdict },
    /// Perform a step of teardown. A step that fails is reported like one
    /// that succeeds: teardown goes on.
    Cleanup(CleanupStep),
    /// Nothing is left to do: the test ended with `verdict`.
    Finish { verdict: Verdict },
}

pub enum RunActionView {
    BuildPackage { path: Seq<char>, verbose: bool },
    StartRouter { router: NetworkRouter },
    LaunchNode { node: NodeView },
    AwaitReady { port: u16 },
    RunTests { port: u16, request: TesterRequestView, timeout_secs: u64 },
    Report { verdict: VerdictView },
    Cleanup(CleanupStepView),
    Finish { verdict: VerdictView },
}

impl View for RunAction {
    type V = RunActionView;

    open spec fn view(&self) -> RunActionView {
        match *self {
            RunAction::BuildPackage { path, verbose } => RunActionView::BuildPackage {
                path: path@,
                verbose,
            },
            RunAction::StartRouter { router } => RunActionView::StartRouter { router },
            RunAction::LaunchNode { node } => RunActionView::LaunchNode { node: node@ },
            RunAction::AwaitReady { port } => RunActionView::AwaitReady { port },
            RunAction::RunTests { port, request, timeout_secs } => RunActionView::RunTests {
                port,
                request: request@,
                timeout_secs,
            },
            RunAction::Report { verdict } => RunActionView::Report { verdict: verdict@ },
            RunAction::Cleanup(step) => RunActionView::Cleanup(step@),
            RunAction::Finish { verdict } => RunActionView::Finish { verdict: verdict@ },
        }
    }
}

/// The names under which the nodes of a test are known to the tests: the fake
/// name of each node that has one, in the order of the nodes.
pub open spec fn fake_names_of(nodes: Seq<NodeView>) -> Seq<Seq<char>>
    decreases nodes.len(),
{
    if nodes.len() == 0 {
        Seq::empty()
    } else {
        let before = fake_names_of(nodes.drop_last());
        match nodes.last().fake_node_name {
            Some(name) => before.push(name),
            None => before,
        }
    }
}

impl TestView {
    /// The packages of one group, in the order in which they are built.
    pub open spec fn packages(self, group: PackageGroup) -> Seq<Seq<char>> {
        match group {
            PackageGroup::Setup => self.setup_package_paths,
            PackageGroup::Test => self.test_package_paths,
        }
    }

    /// The request that starts the tests.
    pub open spec fn run_request(self) -> TesterRequestView {
        TesterRequestView::Run {
            input_node_names: fake_names_of(self.nodes),
            test_timeout: self.timeout_secs,
        }
    }
}

/// What a run stands for: the test it runs, where it stands, and the nodes
/// launched for it with the state of their teardown.
pub struct TestRunView {
    pub test: TestView,
    pub state: RunStateView,
    pub cleanup: CleanupContextView,
}

impl TestRunView {
    /// The run in another state.
    pub open spec fn at(self, state: RunStateView) -> TestRunView {
        TestRunView { test: self.test, state, cleanup: self.cleanup }
    }

    /// What holds of every run: its counters are in range; no step of
    /// teardown is handed out before teardown is entered; a run that is done
    /// has handed out every step; and running out of time is never recorded
    /// as a failure.
    pub open spec fn inv(self) -> bool {
        &&& self.cleanup.issued <= release_len(self.cleanup.nodes)
        &&& self.state.before_teardown() ==> !self.cleanup.begun()
        &&& self.state is CleaningUp ==> self.cleanup.begun()
        &&& self.state is Done ==> self.cleanup.finished()
        &&& self.state.verdict() != Some(
            VerdictView::Failed(RunErrorView::Verdict(VerdictError::TimedOut)),
        )
        &&& self.state matches RunStateView::BuildingPackages { group, index } ==> index
            < self.test.packages(group).len()
        &&& self.state matches RunStateView::FleetUp { launched, ready } ==> {
            &&& launched <= self.test.nodes.len()
            &&& ready < self.test.nodes.len()
            &&& launched < self.test.nodes.len() ==> ready == 0
        }
    }

    /// The run of `test` before anything has happened.
    pub open spec fn fresh(test: TestView) -> TestRunView {
        TestRunView {
            test,
            state: RunStateView::Idle,
            cleanup: CleanupContextView { nodes: Seq::empty(), issued: 0 },
        }
    }

    /// The run after the node that `event` reports, if it reports one, was
    /// taken in for teardown. This comes before anything else is decided, so
    /// that no launched node escapes teardown.
    pub open spec fn enrolled(self, event: RunEventView) -> TestRunView {
        match event {
            RunEventView::NodeLaunched(info) if self.state.before_teardown() => TestRunView {
                test: self.test,
                state: self.state,
                cleanup: self.cleanup.registered(info),
            },
            _ => self,
        }
    }

    /// The run ends with `error`: the verdict is shown.
    pub open spec fn conclude(self, error: RunErrorView) -> (TestRunView, RunActionView) {
        let verdict = VerdictView::of_error(error);
        (self.at(RunStateView::showing(verdict)), RunActionView::Report { verdict })
    }

    /// The tests passed: the verdict is shown.
    pub open spec fn pass(self) -> (TestRunView, RunActionView) {
        (self.at(RunStateView::Passed), RunActionView::Report { verdict: VerdictView::Passed })
    }

    /// Builds the package at `index` of `group`, or goes on to what follows
    /// the group: the test packages after the setup packages, the router
    /// after the test packages.
    pub open spec fn build_next(self, group: PackageGroup, index: nat) -> (
        TestRunView,
        RunActionView,
    ) {
        if index < self.test.packages(group).len() {
            self.build(group, index)
        } else if group == PackageGroup::Setup && self.test.test_package_paths.len() > 0 {
            self.build(PackageGroup::Test, 0)
        } else {
            (
                self.at(RunStateView::RouterUp),
                RunActionView::StartRouter { router: self.test.network_router },
            )
        }
    }

    /// Builds the package at `index` of `group`.
    pub open spec fn build(self, group: PackageGroup, index: nat) -> (TestRunView, RunActionView) {
        (
            self.at(RunStateView::BuildingPackages { group, index }),
            RunActionView::BuildPackage {
                path: self.test.packages(group)[index as int],
                verbose: self.test.package_build_verbose,
            },
        )
    }

    /// Launches the node at `launched`, or, when all are launched, waits for
    /// the first of them to become ready.
    pub open spec fn launch_next(self, launched: nat) -> (TestRunView, RunActionView) {
        if launched < self.test.nodes.len() {
            (
                self.at(RunStateView::FleetUp { launched, ready: 0 }),
                RunActionView::LaunchNode { node: self.test.nodes[launched as int] },
            )
        } else {
            self.poll_next(0)
        }
    }

    /// Waits for the node at `ready` to answer, or, when all have answered,
    /// starts the tests.
    pub open spec fn poll_next(self, ready: nat) -> (TestRunView, RunActionView) {
        if ready < self.test.nodes.len() {
            (
                self.at(RunStateView::FleetUp { launched: self.test.nodes.len(), ready }),
                RunActionView::AwaitReady { port: self.test.nodes[ready as int].port },
            )
        } else {
            self.request_run()
        }
    }

    /// Starts the tests on the first node of the test. A test without nodes
    /// fails here.
    pub open spec fn request_run(self) -> (TestRunView, RunActionView) {
        if self.test.nodes.len() == 0 {
            self.conclude(RunErrorView::Fleet(FleetError::NoNodes))
        } else {
            (
                self.at(RunStateView::AwaitingVerdict),
                RunActionView::RunTests {
                    port: self.test.nodes[0].port,
                    request: self.test.run_request(),
                    timeout_secs: self.test.timeout_secs,
                },
            )
        }
    }

    /// Hands out the next step of teardown, or, when none is left, ends the run.
    pub open spec fn teardown(self, verdict: VerdictView) -> (TestRunView, RunActionView) {
        match self.cleanup.pending() {
            Some(step) => (
                TestRunView {
                    test: self.test,
                    state: RunStateView::CleaningUp(verdict),
                    cleanup: self.cleanup.advanced(),
                },
                RunActionView::Cleanup(step),
            ),
            None => (self.at(RunStateView::Done(verdict)), RunActionView::Finish { verdict }),
        }
    }

    /// The run after `event`, and the action that the caller is to take.
    ///
    /// Each state provides for the events that answer its action. Any other
    /// event ends the run with a failure. Once a verdict is reached, every
    /// event moves teardown on, and a run that is done stays done.
    pub open spec fn step(self, event: RunEventView) -> (TestRunView, RunActionView) {
        let run = self.enrolled(event);
        match run.state {
            RunStateView::Idle => match event {
                RunEventView::Start => run.build_next(PackageGroup::Setup, 0),
                _ => run.conclude(event.failure()),
            },
            RunStateView::BuildingPackages { group, index } => match event {
                RunEventView::Completed => run.build_next(group, index + 1),
                _ => run.conclude(event.failure()),
            },
            RunStateView::RouterUp => match event {
                RunEventView::Completed => run.launch_next(0),
                _ => run.conclude(event.failure()),
            },
            RunStateView::FleetUp { launched, ready } => if launched < run.test.nodes.len() {
                match event {
                    RunEventView::NodeLaunched(_) => run.launch_next(launched + 1),
                    _ => run.conclude(event.failure()),
                }
            } else if ready < run.test.nodes.len() {
                match event {
                    RunEventView::Completed => run.poll_next(ready + 1),
                    RunEventView::StartupTimedOut => run.conclude(
                        RunErrorView::Fleet(
                            FleetError::StartupTimeout {
                                node: run.test.nodes[ready as int].port,
                            },
                        ),
                    ),
                    _ => run.conclude(event.failure()),
                }
            } else {
                run.conclude(event.failure())
            },
            RunStateView::AwaitingVerdict => match event {
                RunEventView::Responded(response) => match RunErrorView::of_response(response) {
                    None => run.pass(),
                    Some(error) => run.conclude(error),
                },
                RunEventView::Rejected(error) => run.conclude(
                    RunErrorView::of_tester_error(error),
                ),
                RunEventView::TimedOut => run.conclude(
                    RunErrorView::Verdict(VerdictError::TimedOut),
                ),
                _ => run.conclude(event.failure()),
            },
            RunStateView::Passed => run.teardown(VerdictView::Passed),
            RunStateView::Failed(error) => run.teardown(VerdictView::Failed(error)),
            RunStateView::TimedOut => run.teardown(VerdictView::TimedOut),
            RunStateView::CleaningUp(verdict) => run.teardown(verdict),
            RunStateView::Done(verdict) => (run, RunActionView::Finish { verdict }),
        }
    }
}

/// The names under which the nodes of a test are known to the tests.
pub fn fake_names(nodes: &Vec<Node>) -> (names: Vec<String>)
    ensures
        texts_of(names@) == fake_names_of(node_views(nodes@)),
{
    let mut names: Vec<String> = Vec::new();
    let mut i: usize = 0;
    while i < nodes.len()
        invariant
            i <= nodes.len(),
            texts_of(names@) == fake_names_of(node_views(nodes@).take(i as int)),
        decreases nodes.len() - i,
    {
        proof {
            let prefix = node_views(nodes@).take(i + 1);
            assert(prefix.drop_last() =~= node_views(nodes@).take(i as int));
        }
        match &nodes[i].fake_node_name {
            Some(name) => {
                names.push(name.clone());
            },
            None => {},
        }
        i = i + 1;
    }
    assert(node_views(nodes@).take(nodes@.len() as int) =~= node_views(nodes@));
    names
}

/// The error that an event stands for where the run's state does not provide
/// for it.
fn failure(event: RunEvent) -> (error: RunError)
    ensures
        error@ == event@.failure(),
{
    match event {
        RunEvent::BuildFailed(error) => RunError::Build(error),
        RunEvent::LaunchFailed(error) => RunError::Launch(error),
        _ => RunError::Aborted,
    }
}

/// The run of one test.
#[derive(Debug)]
pub struct TestRun {
    test: Test,
    state: RunState,
    cleanup: CleanupContext,
}

impl View for TestRun {
    type V = TestRunView;

    closed spec fn view(&self) -> TestRunView {
        TestRunView { test: self.test@, state: self.state@, cleanup: self.cleanup@ }
    }
}

impl TestRun {
    #[verifier::type_invariant]
    spec fn well_formed(self) -> bool {
        self@.inv()
    }

    /// A run of `test` in which nothing has happened yet.
    pub fn new(test: Test) -> (run: TestRun)
        ensures
            run@ == TestRunView::fresh(test@),
            run@.inv(),
    {
        let cleanup = CleanupContext::new(Vec::new());
        assert(cleanup@.nodes =~= Seq::empty());
        TestRun { test, state: RunState::Idle, cleanup }
    }

    /// The test that is run.
    pub fn test(&self) -> (test: &Test)
        ensures
            test@ == self@.test,
    {
        &self.test
    }

    /// Where the run stands.
    pub fn state(&self) -> (state: &RunState)
        ensures
            state@ == self@.state,
    {
        &self.state
    }

    /// The nodes launched for the run, and how far their teardown has come.
    pub fn cleanup(&self) -> (cleanup: &CleanupContext)
        ensures
            cleanup@ == self@.cleanup,
    {
        &self.cleanup
    }

    /// The verdict, once one is reached.
    pub fn verdict(&self) -> (verdict: Option<Verdict>)
        ensures
            verdict.is_some() == self@.state.verdict().is_some(),
            verdict matches Some(v) ==> self@.state.verdict() == Some(v@),
    {
        match &self.state {
            RunState::Passed => Some(Verdict::Passed),
            RunState::Failed(error) => Some(Verdict::Failed(error.clone())),
            RunState::TimedOut => Some(Verdict::TimedOut),
            RunState::CleaningUp(verdict) => Some(verdict.clone()),
            RunState::Done(verdict) => Some(verdict.clone()),
            _ => None,
        }
    }

    /// Whether the run is done: the verdict stands and teardown is complete.
    pub fn is_done(&self) -> (done: bool)
        ensures
            done == (self@.state is Done),
    {
        match &self.state {
            RunState::Done(_) => true,
            _ => false,
        }
    }

    fn conclude(test: Test, cleanup: CleanupContext, error: RunError, Ghost(run): Ghost<
        TestRunView,
    >) -> (result: (TestRun, RunAction))
        requires
            run.test == test@,
            run.cleanup == cleanup@,
            !cleanup@.begun(),
        ensures
            (result.0@, result.1@) == run.conclude(error@),
    {
        let verdict = Verdict::of_error(error);
        let shown = verdict.clone();
        let state = match verdict {
            Verdict::Passed => RunState::Passed,
            Verdict::Failed(error) => RunState::Failed(error),
            Verdict::TimedOut => RunState::TimedOut,
        };
        (TestRun { test, state, cleanup }, RunAction::Report { verdict: shown })
    }

    fn build(
        test: Test,
        cleanup: CleanupContext,
        group: PackageGroup,
        index: usize,
        Ghost(run): Ghost<TestRunView>,
    ) -> (result: (TestRun, RunAction))
        requires
            run.test == test@,
            run.cleanup == cleanup@,
            !cleanup@.begun(),
            index < test@.packages(group).len(),
        ensures
            (result.0@, result.1@) == run.build(group, index as nat),
    {
        let path = match group {
            PackageGroup::Setup => test.setup_package_paths[index].clone(),
            PackageGroup::Test => test.test_package_paths[index].clone(),
        };
        let verbose = test.package_build_verbose;
        (
            TestRun { test, state: RunState::BuildingPackages { group, index }, cleanup },
            RunAction::BuildPackage { path, verbose },
        )
    }

    fn build_next(
        test: Test,
        cleanup: CleanupContext,
        group: PackageGroup,
        index: usize,
        Ghost(run): Ghost<TestRunView>,
    ) -> (result: (TestRun, RunAction))
        requires
            run.test == test@,
            run.cleanup == cleanup@,
            !cleanup@.begun(),
        ensures
            (result.0@, result.1@) == run.build_next(group, index as nat),
    {
        let in_group = match group {
            PackageGroup::Setup => index < test.setup_package_paths.len(),
            PackageGroup::Test => index < test.test_package_paths.len(),
        };
        if in_group {
            Self::build(test, cleanup, group, index, Ghost(run))
        } else {
            let more = match group {
                PackageGroup::Setup => test.test_package_paths.len() > 0,
                PackageGroup::Test => false,
            };
            if more {
                Self::build(test, cleanup, PackageGroup::Test, 0, Ghost(run))
            } else {
                let router = test.network_router;
                (
                    TestRun { test, state: RunState::RouterUp, cleanup },
                    RunAction::StartRouter { router },
                )
            }
        }
    }

    fn request_run(test: Test, cleanup: CleanupContext, Ghost(run): Ghost<TestRunView>) -> (result:
        (TestRun, RunAction))
        requires
            run.test == test@,
            run.cleanup == cleanup@,
            !cleanup@.begun(),
        ensures
            (result.0@, result.1@) == run.request_run(),
    {
        if test.nodes.len() == 0 {
            Self::conclude(test, cleanup, RunError::Fleet(FleetError::NoNodes), Ghost(run))
        } else {
            let port = test.nodes[0].port;
            let request = TesterRequest::Run {
                input_node_names: fake_names(&test.nodes),
                test_timeout: test.timeout_secs,
            };
            let timeout_secs = test.timeout_secs;
            (
                TestRun { test, state: RunState::AwaitingVerdict, cleanup },
                RunAction::RunTests { port, request, timeout_secs },
            )
        }
    }

    fn poll_next(test: Test, cleanup: CleanupContext, ready: usize, Ghost(run): Ghost<
        TestRunView,
    >) -> (result: (TestRun, RunAction))
        requires
            run.test == test@,
            run.cleanup == cleanup@,
            !cleanup@.begun(),
        ensures
            (result.0@, result.1@) == run.poll_next(ready as nat),
    {
        if ready < test.nodes.len() {
            let port = test.nodes[ready].port;
            let launched = test.nodes.len();
            (
                TestRun { test, state: RunState::FleetUp { launched, ready }, cleanup },
                RunAction::AwaitReady { port },
            )
        } else {
            Self::request_run(test, cleanup, Ghost(run))
        }
    }

    fn launch_next(test: Test, cleanup: CleanupContext, launched: usize, Ghost(run): Ghost<
        TestRunView,
    >) -> (result: (TestRun, RunAction))
        requires
            run.test == test@,
            run.cleanup == cleanup@,
            !cleanup@.begun(),
        ensures
            (result.0@, result.1@) == run.launch_next(launched as nat),
    {
        if launched < test.nodes.len() {
            let node = test.nodes[launched].clone();
            (
                TestRun { test, state: RunState::FleetUp { launched, ready: 0 }, cleanup },
                RunAction::LaunchNode { node },
            )
        } else {
            Self::poll_next(test, cleanup, 0, Ghost(run))
        }
    }

    fn teardown(test: Test, cleanup: CleanupContext, verdict: Verdict, Ghost(run): Ghost<
        TestRunView,
    >) -> (result: (TestRun, RunAction))
        requires
            run.test == test@,
            run.cleanup == cleanup@,
            cleanup@.issued <= release_len(cleanup@.nodes),
            verdict@ != VerdictView::Failed(RunErrorView::Verdict(VerdictError::TimedOut)),
        ensures
            (result.0@, result.1@) == run.teardown(verdict@),
    {
        let mut cleanup = cleanup;
        match cleanup.next_step() {
            Some(step) => (
                TestRun { test, state: RunState::CleaningUp(verdict), cleanup },
                RunAction::Cleanup(step),
            ),
            None => {
                let shown = verdict.clone();
                (TestRun { test, state: RunState::Done(verdict), cleanup }, RunAction::Finish {
                    verdict: shown,
                })
            },
        }
    }

    /// A launch was reported that the run's state does not provide for: the
    /// node is taken in for teardown and the run ends.
    fn abort_launched(
        test: Test,
        cleanup: CleanupContext,
        info: NodeInfo,
        Ghost(run): Ghost<TestRunView>,
    ) -> (result: (TestRun, RunAction))
        requires
            run.test == test@,
            run.cleanup == cleanup@.registered(info@),
            !cleanup@.begun(),
        ensures
            (result.0@, result.1@) == run.conclude(RunErrorView::Aborted),
    {
        let cleanup = cleanup.register(info).0;
        Self::conclude(test, cleanup, RunError::Aborted, Ghost(run))
    }

    /// Takes the node that `event` reports, if it reports one, in for teardown.
    fn enroll(cleanup: CleanupContext, event: RunEvent) -> (result: CleanupContext)
        requires
            !cleanup@.begun(),
        ensures
            result@ == match event@ {
                RunEventView::NodeLaunched(info) => cleanup@.registered(info),
                _ => cleanup@,
            },
            !result@.begun(),
    {
        match event {
            RunEvent::NodeLaunched(info) => cleanup.register(info).0,
            _ => cleanup,
        }
    }

    /// Takes `event` in and says what the caller is to do next.
    ///
    /// The run after the call and the action are those of the model,
    /// [`TestRunView::step`].
    pub fn step(self, event: RunEvent) -> (result: (TestRun, RunAction))
        ensures
            (result.0@, result.1@) == self@.step(event@),
            result.0@.inv(),
    {
        proof {
            use_type_invariant(&self);
        }
        let ghost run = self@.enrolled(event@);
        let TestRun { test, state, cleanup } = self;
        let result = match state {
            RunState::CleaningUp(verdict) => Self::teardown(test, cleanup, verdict, Ghost(run)),
            RunState::Done(verdict) => {
                let shown = verdict.clone();
                (TestRun { test, state: RunState::Done(verdict), cleanup }, RunAction::Finish {
                    verdict: shown,
                })
            },
            RunState::Passed => {
                let cleanup = Self::enroll(cleanup, event);
                Self::teardown(test, cleanup, Verdict::Passed, Ghost(run))
            },
            RunState::Failed(error) => {
                let cleanup = Self::enroll(cleanup, event);
                Self::teardown(test, cleanup, Verdict::Failed(error), Ghost(run))
            },
            RunState::TimedOut => {
                let cleanup = Self::enroll(cleanup, event);
                Self::teardown(test, cleanup, Verdict::TimedOut, Ghost(run))
            },
            RunState::Idle => match event {
                RunEvent::Start => Self::build_next(
                    test,
                    cleanup,
                    PackageGroup::Setup,
                    0,
                    Ghost(run),
                ),
                RunEvent::NodeLaunched(info) => Self::abort_launched(test, cleanup, info, Ghost(run)),
                other => Self::conclude(test, cleanup, failure(other), Ghost(run)),
            },
            RunState::BuildingPackages { group, index } => match event {
                RunEvent::Completed => {
                    let count = match group {
                        PackageGroup::Setup => test.setup_package_paths.len(),
                        PackageGroup::Test => test.test_package_paths.len(),
                    };
                    assert(index < count);
                    Self::build_next(test, cleanup, group, index + 1, Ghost(run))
                },
                RunEvent::NodeLaunched(info) => Self::abort_launched(test, cleanup, info, Ghost(run)),
                other => Self::conclude(test, cleanup, failure(other), Ghost(run)),
            },
            RunState::RouterUp => match event {
                RunEvent::Completed => Self::launch_next(test, cleanup, 0, Ghost(run)),
                RunEvent::NodeLaunched(info) => Self::abort_launched(test, cleanup, info, Ghost(run)),
                other => Self::conclude(test, cleanup, failure(other), Ghost(run)),
            },
            RunState::FleetUp { launched, ready } => {
                if launched < test.nodes.len() {
                    match event {
                        RunEvent::NodeLaunched(info) => {
                            let cleanup = cleanup.register(info).0;
                            Self::launch_next(test, cleanup, launched + 1, Ghost(run))
                        },
                        other => Self::conclude(test, cleanup, failure(other), Ghost(run)),
                    }
                } else {
                    match event {
                        RunEvent::Completed => Self::poll_next(
                            test,
                            cleanup,
                            ready + 1,
                            Ghost(run),
                        ),
                        RunEvent::StartupTimedOut => {
                            let node = test.nodes[ready].port;
                            Self::conclude(
                                test,
                                cleanup,
                                RunError::Fleet(FleetError::StartupTimeout { node }),
                                Ghost(run),
                            )
                        },
                        RunEvent::NodeLaunched(info) => Self::abort_launched(
                            test,
                            cleanup,
                            info,
                            Ghost(run),
                        ),
                        other => Self::conclude(test, cleanup, failure(other), Ghost(run)),
                    }
                }
            },
            RunState::AwaitingVerdict => match event {
                RunEvent::Responded(response) => match RunError::of_response(response) {
                    None => (
                        TestRun { test, state: RunState::Passed, cleanup },
                        RunAction::Report { verdict: Verdict::Passed },
                    ),
                    Some(error) => Self::conclude(test, cleanup, error, Ghost(run)),
                },
                RunEvent::Rejected(error) => Self::conclude(
                    test,
                    cleanup,
                    RunError::of_tester_error(error),
                    Ghost(run),
                ),
                RunEvent::TimedOut => Self::conclude(
                    test,
                    cleanup,
                    RunError::Verdict(VerdictError::TimedOut),
                    Ghost(run),
                ),
                RunEvent::NodeLaunched(info) => Self::abort_launched(test, cleanup, info, Ghost(run)),
                other => Self::conclude(test, cleanup, failure(other), Ghost(run)),
            },
        };
        proof {
            use_type_invariant(&result.0);
        }
        result
    }
}

} // verus!
