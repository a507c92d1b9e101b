//! What holds of every run of a test.

use crate::run_tests::cleanup::{
    release_len, release_sequence, CleanupStepView, StateDir, STEPS_PER_NODE,
};
use crate::run_tests::cleanup_laws::{
    effects, law_release_leaves_nothing, law_router_shutdown_once_and_last, World,
};
use crate::run_tests::coordinator::{
    PackageGroup, RunActionView, RunEventView, RunStateView, TestRunView,
};
use crate::run_tests::tester_types::TesterResponseView;
use crate::run_tests::types::{NodeInfoView, TestView};
use crate::run_tests::verdict::{RunErrorView, VerdictView};
use vstd::prelude::*;

verus! {

/// A run in which nothing has happened meets the invariant of runs.
pub proof fn law_fresh_run_meets_invariant(test: TestView)
    ensures
        TestRunView::fresh(test).inv(),
{
}

/// No event leads a run out of the invariant of runs.
pub proof fn law_step_keeps_invariant(run: TestRunView, event: RunEventView)
    requires
        run.inv(),
    ensures
        run.step(event).0.inv(),
        run.step(event).0.test == run.test,
{
}

/// A node whose launch is reported before teardown is entered is taken in for
/// teardown by that very event, whatever the run decides next.
pub proof fn law_launched_node_is_registered(run: TestRunView, info: NodeInfoView)
    requires
        run.inv(),
        run.state.before_teardown(),
    ensures
        run.step(RunEventView::NodeLaunched(info)).0.cleanup.nodes == run.cleanup.nodes.push(info),
{
}

/// No event takes a node out of teardown's hands, or changes the order of the
/// nodes it holds.
pub proof fn law_registered_nodes_stay(run: TestRunView, event: RunEventView)
    requires
        run.inv(),
    ensures
        run.cleanup.nodes.is_prefix_of(run.step(event).0.cleanup.nodes),
{
    assert(run.cleanup.nodes.is_prefix_of(run.cleanup.nodes));
    if let RunEventView::NodeLaunched(info) = event {
        assert(run.cleanup.nodes.is_prefix_of(run.cleanup.nodes.push(info)));
    }
}

/// When the time allowed runs out while the answer is awaited, the verdict is
/// that the test timed out.
pub proof fn law_timeout_gives_timed_out(run: TestRunView)
    requires
        run.inv(),
        run.state is AwaitingVerdict,
    ensures
        run.step(RunEventView::TimedOut).0.state == RunStateView::TimedOut,
        run.step(RunEventView::TimedOut).1 == (RunActionView::Report {
            verdict: VerdictView::TimedOut,
        }),
{
}

/// A run passes only where the tester answers with a pass while its answer is
/// awaited: nothing else, and no silence, makes a test pass.
pub proof fn law_pass_needs_pass_response(run: TestRunView, event: RunEventView)
    requires
        run.inv(),
        run.state.before_verdict(),
        run.step(event).0.state.verdict() == Some(VerdictView::Passed),
    ensures
        run.state is AwaitingVerdict,
        event == RunEventView::Responded(TesterResponseView::Pass),
{
}

/// A failure that the tester reports becomes the verdict with the name of the
/// test, the file, the line and the column that it was reported with.
pub proof fn law_failure_keeps_provenance(
    run: TestRunView,
    test: Seq<char>,
    file: Seq<char>,
    line: u32,
    column: u32,
)
    requires
        run.inv(),
        run.state is AwaitingVerdict,
    ensures
        ({
            let response = TesterResponseView::Fail { test, file, line, column };
            let error = RunErrorView::Fail { test, file, line, column, message: Seq::empty() };
            let (next, action) = run.step(RunEventView::Responded(response));
            &&& next.state == RunStateView::Failed(error)
            &&& action == RunActionView::Report { verdict: VerdictView::Failed(error) }
        }),
{
}

/// A verdict, once reached, stands: no later event changes it.
pub proof fn law_verdict_is_final(run: TestRunView, event: RunEventView)
    requires
        run.inv(),
        run.state.verdict() is Some,
    ensures
        run.step(event).0.state.verdict() == run.state.verdict(),
{
}

/// The verdict that the last action of a run names is the verdict reached.
pub proof fn law_finish_names_the_verdict(run: TestRunView, event: RunEventView)
    requires
        run.inv(),
    ensures
        run.step(event).1 matches RunActionView::Finish { verdict } ==> run.state.verdict()
            == Some(verdict) && run.step(event).0.state == RunStateView::Done(verdict),
{
}

/// Every verdict is followed by teardown: the event after a verdict hands out
/// the first step of teardown.
pub proof fn law_verdict_enters_teardown(run: TestRunView, event: RunEventView)
    requires
        run.inv(),
        run.state is Passed || run.state is Failed || run.state is TimedOut,
    ensures
        run.step(event).0.state is CleaningUp,
        run.step(event).1 is Cleanup,
{
}

/// A run is done only when teardown has handed out its last step: no event
/// leads to the end of a run past teardown.
pub proof fn law_done_only_after_teardown(run: TestRunView, event: RunEventView)
    requires
        run.inv(),
        run.step(event).0.state is Done,
    ensures
        run.state is CleaningUp || run.state is Done,
        run.cleanup.finished(),
        run.step(event).0.cleanup == run.cleanup,
{
}

/// The run after the events were taken in, one after another.
pub open spec fn run_after(start: TestRunView, events: Seq<RunEventView>) -> TestRunView
    decreases events.len(),
{
    if events.len() == 0 {
        start
    } else {
        run_after(start, events.drop_last()).step(events.last()).0
    }
}

/// The steps of teardown that were handed out in answer to the events, in
/// the order in which they were handed out.
pub open spec fn teardown_steps(start: TestRunView, events: Seq<RunEventView>) -> Seq<
    CleanupStepView,
>
    decreases events.len(),
{
    if events.len() == 0 {
        Seq::empty()
    } else {
        let before = teardown_steps(start, events.drop_last());
        match run_after(start, events.drop_last()).step(events.last()).1 {
            RunActionView::Cleanup(step) => before.push(step),
            _ => before,
        }
    }
}

/// The steps of the release sequence of a run's nodes that the run has
/// handed out.
pub open spec fn released(run: TestRunView) -> Seq<CleanupStepView> {
    release_sequence(run.cleanup.nodes).take(run.cleanup.issued as int)
}

/// An event adds to what a run has handed out of its release sequence the
/// step that it hands out, if it hands one out, and nothing else.
proof fn lemma_step_releases_in_order(run: TestRunView, event: RunEventView)
    requires
        run.inv(),
    ensures
        released(run.step(event).0) == match run.step(event).1 {
            RunActionView::Cleanup(step) => released(run).push(step),
            _ => released(run),
        },
{
    let (next, action) = run.step(event);
    law_step_keeps_invariant(run, event);
    match action {
        RunActionView::Cleanup(step) => {
            assert(released(next) =~= released(run).push(step));
        },
        _ => {
            assert(released(next) =~= released(run));
        },
    }
}

/// Every run that starts from a fresh one meets the invariant of runs.
pub proof fn law_runs_meet_invariant(test: TestView, events: Seq<RunEventView>)
    ensures
        run_after(TestRunView::fresh(test), events).inv(),
        run_after(TestRunView::fresh(test), events).test == test,
    decreases events.len(),
{
    if events.len() > 0 {
        law_runs_meet_invariant(test, events.drop_last());
        law_step_keeps_invariant(
            run_after(TestRunView::fresh(test), events.drop_last()),
            events.last(),
        );
    }
}

/// What a run hands out of teardown is the release sequence of its nodes,
/// from the first step on and without a gap; a run that is done has handed
/// out all of it.
pub proof fn law_teardown_follows_release_sequence(test: TestView, events: Seq<RunEventView>)
    ensures
        teardown_steps(TestRunView::fresh(test), events) == released(
            run_after(TestRunView::fresh(test), events),
        ),
        run_after(TestRunView::fresh(test), events).state is Done ==> teardown_steps(
            TestRunView::fresh(test),
            events,
        ) == release_sequence(run_after(TestRunView::fresh(test), events).cleanup.nodes),
    decreases events.len(),
{
    let start = TestRunView::fresh(test);
    let end = run_after(start, events);
    if events.len() == 0 {
        assert(released(start) =~= Seq::empty());
    } else {
        law_teardown_follows_release_sequence(test, events.drop_last());
        law_runs_meet_invariant(test, events.drop_last());
        lemma_step_releases_in_order(run_after(start, events.drop_last()), events.last());
    }
    law_runs_meet_invariant(test, events);
    if end.state is Done {
        assert(released(end) =~= release_sequence(end.cleanup.nodes));
    }
}

/// In a run that is done the router was told to shut down exactly once, and
/// after every step of every node had been handed out.
pub proof fn law_router_shutdown_once_per_run(test: TestView, events: Seq<RunEventView>)
    requires
        run_after(TestRunView::fresh(test), events).state is Done,
    ensures
        ({
            let steps = teardown_steps(TestRunView::fresh(test), events);
            &&& steps.len() > 0
            &&& steps.last() == CleanupStepView::ShutdownRouter
            &&& forall|k: int|
                0 <= k < steps.len() ==> (steps[k] is ShutdownRouter <==> k == steps.len() - 1)
        }),
{
    law_teardown_follows_release_sequence(test, events);
    law_router_shutdown_once_and_last(run_after(TestRunView::fresh(test), events).cleanup.nodes);
}

/// However a run has gone so far, the router was told to shut down at most
/// once, and not before every step of every node had been handed out.
pub proof fn law_router_shutdown_never_early(
    test: TestView,
    events: Seq<RunEventView>,
    k: int,
)
    requires
        0 <= k < teardown_steps(TestRunView::fresh(test), events).len(),
        teardown_steps(TestRunView::fresh(test), events)[k] is ShutdownRouter,
    ensures
        k == STEPS_PER_NODE * run_after(TestRunView::fresh(test), events).cleanup.nodes.len(),
        k == teardown_steps(TestRunView::fresh(test), events).len() - 1,
{
    let end = run_after(TestRunView::fresh(test), events);
    law_teardown_follows_release_sequence(test, events);
    law_runs_meet_invariant(test, events);
    law_router_shutdown_once_and_last(end.cleanup.nodes);
    assert(released(end)[k] == release_sequence(end.cleanup.nodes)[k]);
}

/// A node whose launch was reported before teardown was entered is among the
/// nodes that the run holds for teardown, whatever happened afterwards.
pub proof fn law_launched_nodes_are_held(test: TestView, events: Seq<RunEventView>, i: int)
    requires
        0 <= i < events.len(),
        events[i] is NodeLaunched,
        run_after(TestRunView::fresh(test), events.take(i)).state.before_teardown(),
    ensures
        run_after(TestRunView::fresh(test), events).cleanup.nodes.contains(
            events[i]->NodeLaunched_0,
        ),
    decreases events.len(),
{
    let start = TestRunView::fresh(test);
    let before = run_after(start, events.drop_last());
    let info = events[i]->NodeLaunched_0;
    law_runs_meet_invariant(test, events.drop_last());
    if i == events.len() - 1 {
        assert(events.take(i) =~= events.drop_last());
        law_launched_node_is_registered(before, info);
        assert(before.cleanup.nodes.push(info)[before.cleanup.nodes.len() as int] == info);
    } else {
        assert(events.drop_last().take(i) =~= events.take(i));
        law_launched_nodes_are_held(test, events.drop_last(), i);
        law_registered_nodes_stay(before, events.last());
        let at = choose|j: int| 0 <= j < before.cleanup.nodes.len() && before.cleanup.nodes[j] == info;
        assert(run_after(start, events).cleanup.nodes[at] == info);
    }
}

/// When a run is done and every step it handed out has taken effect, the
/// process of each node whose launch was reported before teardown is gone,
/// none of the four state directories exists under its home, and the router
/// was told to shut down once.
pub proof fn law_run_leaves_nothing(
    test: TestView,
    events: Seq<RunEventView>,
    i: int,
    dir: StateDir,
    world: World,
)
    requires
        0 <= i < events.len(),
        events[i] is NodeLaunched,
        run_after(TestRunView::fresh(test), events.take(i)).state.before_teardown(),
        run_after(TestRunView::fresh(test), events).state is Done,
    ensures
        ({
            let after = effects(world, teardown_steps(TestRunView::fresh(test), events));
            let info = events[i]->NodeLaunched_0;
            &&& !after.alive.contains(info.process_handle)
            &&& !after.state_dirs.contains((info.home, dir))
            &&& after.router_signals == world.router_signals + 1
        }),
{
    let end = run_after(TestRunView::fresh(test), events);
    let info = events[i]->NodeLaunched_0;
    law_launched_nodes_are_held(test, events, i);
    law_teardown_follows_release_sequence(test, events);
    let at = choose|j: int| 0 <= j < end.cleanup.nodes.len() && end.cleanup.nodes[j] == info;
    law_release_leaves_nothing(world, end.cleanup.nodes, at, dir);
}

/// How far a state is along the course of a run.
pub open spec fn rank(state: RunStateView) -> nat {
    match state {
        RunStateView::Idle => 0,
        RunStateView::BuildingPackages { .. } => 1,
        RunStateView::RouterUp => 2,
        RunStateView::FleetUp { .. } => 3,
        RunStateView::AwaitingVerdict => 4,
        RunStateView::Passed | RunStateView::Failed(_) | RunStateView::TimedOut => 5,
        RunStateView::CleaningUp(_) => 6,
        RunStateView::Done(_) => 7,
    }
}

/// A run never goes back: packages are built before the router is started,
/// the router before the nodes, the nodes before the tests, and the verdict
/// comes before teardown. Before its verdict a run leaves a state out only
/// where it fails, or where it has no package to build.
pub proof fn law_states_advance(run: TestRunView, event: RunEventView)
    requires
        run.inv(),
    ensures
        rank(run.step(event).0.state) >= rank(run.state),
        run.state.before_verdict() && rank(run.step(event).0.state) > rank(run.state) + 1 ==> {
            ||| run.step(event).0.state is Failed
            ||| run.state is Idle && run.step(event).0.state is RouterUp
        },
{
}

/// Each action is handed out in the state that it belongs to.
pub proof fn law_actions_belong_to_states(run: TestRunView, event: RunEventView)
    requires
        run.inv(),
    ensures
        ({
            let (next, action) = run.step(event);
            &&& action is BuildPackage ==> next.state is BuildingPackages
            &&& action is StartRouter ==> next.state is RouterUp
            &&& action is LaunchNode ==> next.state is FleetUp
            &&& action is AwaitReady ==> next.state is FleetUp
            &&& action is RunTests ==> next.state is AwaitingVerdict
            &&& action matches RunActionView::Report { verdict } ==> next.state
                == RunStateView::showing(verdict)
            &&& action is Cleanup ==> next.state is CleaningUp
            &&& action is Finish ==> next.state is Done
        }),
{
}

/// An upper bound on the events that a run still takes in before it enters
/// teardown.
pub open spec fn events_before_teardown(run: TestRunView) -> nat {
    let setup = run.test.setup_package_paths.len();
    let tests = run.test.test_package_paths.len();
    let nodes = run.test.nodes.len();
    match run.state {
        RunStateView::Idle => 4 + setup + tests + 2 * nodes,
        RunStateView::BuildingPackages { group: PackageGroup::Setup, index } => (3 + (setup
            - index) + tests + 2 * nodes) as nat,
        RunStateView::BuildingPackages { group: PackageGroup::Test, index } => (3 + (tests
            - index) + 2 * nodes) as nat,
        RunStateView::RouterUp => 3 + 2 * nodes,
        RunStateView::FleetUp { launched, ready } => (2 + (nodes - launched) + (nodes
            - ready)) as nat,
        RunStateView::AwaitingVerdict => 2,
        RunStateView::Passed | RunStateView::Failed(_) | RunStateView::TimedOut => 1,
        RunStateView::CleaningUp(_) | RunStateView::Done(_) => 0,
    }
}

/// Whatever is reported, a run that has not entered teardown comes nearer to
/// it with every event: no event keeps a run from its teardown.
pub proof fn law_teardown_comes_nearer(run: TestRunView, event: RunEventView)
    requires
        run.inv(),
        run.state.before_teardown(),
    ensures
        events_before_teardown(run.step(event).0) < events_before_teardown(run),
{
}

/// The steps of teardown that a run has still to hand out.
pub open spec fn steps_left(run: TestRunView) -> int {
    release_len(run.cleanup.nodes) - run.cleanup.issued
}

/// Whatever is reported during teardown, the next step is handed out: no
/// failure of a step holds teardown up. When no step is left the run is done.
pub proof fn law_teardown_goes_on(run: TestRunView, event: RunEventView)
    requires
        run.inv(),
        run.state is CleaningUp,
    ensures
        steps_left(run) >= 0,
        steps_left(run) > 0 ==> run.step(event).0.state is CleaningUp && run.step(event).1
            is Cleanup && steps_left(run.step(event).0) == steps_left(run) - 1,
        steps_left(run) == 0 ==> run.step(event).0.state is Done,
{
}

/// A verdict that was reached after some of the events is the verdict after
/// all of them.
proof fn lemma_verdict_stands(test: TestView, events: Seq<RunEventView>, count: int)
    requires
        0 <= count <= events.len(),
        run_after(TestRunView::fresh(test), events.take(count)).state.verdict() is Some,
    ensures
        run_after(TestRunView::fresh(test), events).state.verdict() == run_after(
            TestRunView::fresh(test),
            events.take(count),
        ).state.verdict(),
    decreases events.len() - count,
{
    let start = TestRunView::fresh(test);
    if count == events.len() {
        assert(events.take(count) =~= events);
    } else {
        let before = run_after(start, events.take(count));
        law_runs_meet_invariant(test, events.take(count));
        law_verdict_is_final(before, events[count]);
        assert(events.take(count + 1).drop_last() =~= events.take(count));
        assert(events.take(count + 1).last() == events[count]);
        lemma_verdict_stands(test, events, count + 1);
    }
}

/// When the time allowed runs out while the answer is awaited, the run ends
/// with the verdict that the test timed out, whatever is reported afterwards.
pub proof fn law_timeout_is_the_final_verdict(test: TestView, events: Seq<RunEventView>, i: int)
    requires
        0 <= i < events.len(),
        run_after(TestRunView::fresh(test), events.take(i)).state is AwaitingVerdict,
        events[i] == RunEventView::TimedOut,
    ensures
        run_after(TestRunView::fresh(test), events).state.verdict() == Some(VerdictView::TimedOut),
{
    let before = run_after(TestRunView::fresh(test), events.take(i));
    law_runs_meet_invariant(test, events.take(i));
    law_timeout_gives_timed_out(before);
    assert(events.take(i + 1).drop_last() =~= events.take(i));
    assert(events.take(i + 1).last() == events[i]);
    lemma_verdict_stands(test, events, i + 1);
}

/// A failure that the tester reports while its answer is awaited is the
/// verdict that the run ends with, with the name of the test, the file, the
/// line and the column unchanged, whatever is reported afterwards.
pub proof fn law_reported_failure_is_the_final_verdict(
    test: TestView,
    events: Seq<RunEventView>,
    i: int,
    name: Seq<char>,
    file: Seq<char>,
    line: u32,
    column: u32,
)
    requires
        0 <= i < events.len(),
        run_after(TestRunView::fresh(test), events.take(i)).state is AwaitingVerdict,
        events[i] == RunEventView::Responded(
            TesterResponseView::Fail { test: name, file, line, column },
        ),
    ensures
        run_after(TestRunView::fresh(test), events).state.verdict() == Some(
            VerdictView::Failed(
                RunErrorView::Fail { test: name, file, line, column, message: Seq::empty() },
            ),
        ),
{
    let before = run_after(TestRunView::fresh(test), events.take(i));
    law_runs_meet_invariant(test, events.take(i));
    law_failure_keeps_provenance(before, name, file, line, column);
    assert(events.take(i + 1).drop_last() =~= events.take(i));
    assert(events.take(i + 1).last() == events[i]);
    lemma_verdict_stands(test, events, i + 1);
}

/// A run in which the tester never answers with a pass does not pass,
/// however it goes.
pub proof fn law_no_pass_without_pass_response(test: TestView, events: Seq<RunEventView>)
    requires
        forall|i: int|
            0 <= i < events.len() ==> events[i] != RunEventView::Responded(
                TesterResponseView::Pass,
            ),
    ensures
        run_after(TestRunView::fresh(test), events).state.verdict() != Some(VerdictView::Passed),
    decreases events.len(),
{
    if events.len() > 0 {
        let before = run_after(TestRunView::fresh(test), events.drop_last());
        law_no_pass_without_pass_response(test, events.drop_last());
        law_runs_meet_invariant(test, events.drop_last());
        if before.state.verdict() is Some {
            law_verdict_is_final(before, events.last());
        } else if before.step(events.last()).0.state.verdict() == Some(VerdictView::Passed) {
            law_pass_needs_pass_response(before, events.last());
        }
    }
}

} // verus!
