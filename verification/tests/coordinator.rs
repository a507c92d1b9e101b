use uqdev::run_tests::cleanup::{CleanupStep, StateDir};
use uqdev::run_tests::coordinator::{
    fake_names, PackageGroup, RunAction, RunEvent, RunState, TestRun,
};
use uqdev::run_tests::tester_types::{fail, TesterError, TesterRequest, TesterResponse};
use uqdev::run_tests::types::{NetworkRouter, NetworkRouterDefects, Node, NodeInfo, Test};
use uqdev::run_tests::verdict::{
    BuildError, FleetError, LaunchError, RunError, Verdict, VerdictError,
};

fn node(port: u16, home: &str, name: Option<&str>) -> Node {
    Node {
        port,
        home: home.to_string(),
        fake_node_name: name.map(|n| n.to_string()),
        password: None,
        rpc: None,
        runtime_verbose: false,
    }
}

fn router() -> NetworkRouter {
    NetworkRouter { port: 9001, defects: NetworkRouterDefects::NoDefects }
}

fn test_with(setup: &[&str], tests: &[&str], nodes: Vec<Node>) -> Test {
    Test {
        setup_package_paths: setup.iter().map(|p| p.to_string()).collect(),
        test_package_paths: tests.iter().map(|p| p.to_string()).collect(),
        package_build_verbose: true,
        timeout_secs: 10,
        network_router: router(),
        nodes,
    }
}

fn info(process_handle: u32, master_fd: i32, port: u16, home: &str) -> NodeInfo {
    NodeInfo { process_handle, master_fd, port, home: home.to_string() }
}

fn node_steps(process_handle: u32, master_fd: i32, home: &str) -> Vec<RunAction> {
    vec![
        RunAction::Cleanup(CleanupStep::Interrupt { master_fd, byte: 3 }),
        RunAction::Cleanup(CleanupStep::AwaitExit { process_handle }),
        RunAction::Cleanup(CleanupStep::RemoveStateDir {
            home: home.to_string(),
            dir: StateDir::Kernel,
        }),
        RunAction::Cleanup(CleanupStep::RemoveStateDir { home: home.to_string(), dir: StateDir::Kv }),
        RunAction::Cleanup(CleanupStep::RemoveStateDir {
            home: home.to_string(),
            dir: StateDir::Sqlite,
        }),
        RunAction::Cleanup(CleanupStep::RemoveStateDir {
            home: home.to_string(),
            dir: StateDir::Vfs,
        }),
    ]
}

/// Feeds the events to the run and returns the run with the actions it handed out.
fn drive(mut run: TestRun, events: Vec<RunEvent>) -> (TestRun, Vec<RunAction>) {
    let mut actions = Vec::new();
    for event in events {
        let (next, action) = run.step(event);
        run = next;
        actions.push(action);
    }
    (run, actions)
}

/// Reports every further action as completed until the run is done.
fn finish(mut run: TestRun) -> (TestRun, Vec<RunAction>) {
    let mut actions = Vec::new();
    while !run.is_done() {
        let (next, action) = run.step(RunEvent::Completed);
        run = next;
        actions.push(action);
        assert!(actions.len() < 1000);
    }
    (run, actions)
}

/// A run of a test with one package and two nodes, up to the point where the
/// answer of the tester is awaited.
fn awaiting_run() -> TestRun {
    let nodes = vec![node(8080, "/tmp/first", Some("first.uq")), node(8081, "/tmp/second", None)];
    let run = TestRun::new(test_with(&[], &["tests/pkg"], nodes));
    let (run, _) = drive(
        run,
        vec![
            RunEvent::Start,
            RunEvent::Completed,
            RunEvent::Completed,
            RunEvent::NodeLaunched(info(41, 7, 8080, "/tmp/first")),
            RunEvent::NodeLaunched(info(42, 9, 8081, "/tmp/second")),
            RunEvent::Completed,
            RunEvent::Completed,
        ],
    );
    assert_eq!(run.state(), &RunState::AwaitingVerdict);
    run
}

fn teardown_of_both_nodes() -> Vec<RunAction> {
    let mut expected = node_steps(41, 7, "/tmp/first");
    expected.extend(node_steps(42, 9, "/tmp/second"));
    expected.push(RunAction::Cleanup(CleanupStep::ShutdownRouter));
    expected
}

#[test]
fn fake_names_skips_nodes_without_a_name() {
    let nodes = vec![
        node(1, "a", Some("first.uq")),
        node(2, "b", None),
        node(3, "c", Some("third.uq")),
    ];
    assert_eq!(fake_names(&nodes), vec!["first.uq".to_string(), "third.uq".to_string()]);
    assert_eq!(fake_names(&Vec::new()), Vec::<String>::new());
}

#[test]
fn fresh_run_is_idle() {
    let run = TestRun::new(test_with(&[], &[], vec![]));
    assert_eq!(run.state(), &RunState::Idle);
    assert_eq!(run.verdict(), None);
    assert!(!run.is_done());
    assert_eq!(run.cleanup().node_count(), 0);
    assert_eq!(run.test().timeout_secs, 10);
}

#[test]
fn run_goes_through_every_state_in_order() {
    let nodes = vec![node(8080, "/tmp/first", Some("first.uq")), node(8081, "/tmp/second", None)];
    let run = TestRun::new(test_with(&["setup/a", "setup/b"], &["tests/pkg"], nodes.clone()));

    let (run, action) = run.step(RunEvent::Start);
    assert_eq!(action, RunAction::BuildPackage { path: "setup/a".to_string(), verbose: true });
    assert_eq!(run.state(), &RunState::BuildingPackages { group: PackageGroup::Setup, index: 0 });

    let (run, action) = run.step(RunEvent::Completed);
    assert_eq!(action, RunAction::BuildPackage { path: "setup/b".to_string(), verbose: true });
    assert_eq!(run.state(), &RunState::BuildingPackages { group: PackageGroup::Setup, index: 1 });

    let (run, action) = run.step(RunEvent::Completed);
    assert_eq!(action, RunAction::BuildPackage { path: "tests/pkg".to_string(), verbose: true });
    assert_eq!(run.state(), &RunState::BuildingPackages { group: PackageGroup::Test, index: 0 });

    let (run, action) = run.step(RunEvent::Completed);
    assert_eq!(action, RunAction::StartRouter { router: router() });
    assert_eq!(run.state(), &RunState::RouterUp);

    let (run, action) = run.step(RunEvent::Completed);
    assert_eq!(action, RunAction::LaunchNode { node: nodes[0].clone() });
    assert_eq!(run.state(), &RunState::FleetUp { launched: 0, ready: 0 });

    let (run, action) = run.step(RunEvent::NodeLaunched(info(41, 7, 8080, "/tmp/first")));
    assert_eq!(action, RunAction::LaunchNode { node: nodes[1].clone() });
    assert_eq!(run.state(), &RunState::FleetUp { launched: 1, ready: 0 });
    assert_eq!(run.cleanup().node_count(), 1);

    let (run, action) = run.step(RunEvent::NodeLaunched(info(42, 9, 8081, "/tmp/second")));
    assert_eq!(action, RunAction::AwaitReady { port: 8080 });
    assert_eq!(run.state(), &RunState::FleetUp { launched: 2, ready: 0 });
    assert_eq!(run.cleanup().node_count(), 2);

    let (run, action) = run.step(RunEvent::Completed);
    assert_eq!(action, RunAction::AwaitReady { port: 8081 });
    assert_eq!(run.state(), &RunState::FleetUp { launched: 2, ready: 1 });

    let (run, action) = run.step(RunEvent::Completed);
    assert_eq!(
        action,
        RunAction::RunTests {
            port: 8080,
            request: TesterRequest::Run {
                input_node_names: vec!["first.uq".to_string()],
                test_timeout: 10,
            },
            timeout_secs: 10,
        }
    );
    assert_eq!(run.state(), &RunState::AwaitingVerdict);
    assert_eq!(run.verdict(), None);

    let (run, action) = run.step(RunEvent::Responded(TesterResponse::Pass));
    assert_eq!(action, RunAction::Report { verdict: Verdict::Passed });
    assert_eq!(run.state(), &RunState::Passed);
    assert_eq!(run.verdict(), Some(Verdict::Passed));
    assert!(!run.cleanup().begun());

    let (run, actions) = finish(run);
    let mut expected = teardown_of_both_nodes();
    expected.push(RunAction::Finish { verdict: Verdict::Passed });
    assert_eq!(actions, expected);
    assert_eq!(run.state(), &RunState::Done(Verdict::Passed));
    assert!(run.cleanup().finished());
}

#[test]
fn test_without_packages_starts_with_the_router() {
    let run = TestRun::new(test_with(&[], &[], vec![node(8080, "h", None)]));
    let (_, action) = run.step(RunEvent::Start);
    assert_eq!(action, RunAction::StartRouter { router: router() });
}

#[test]
fn test_with_setup_packages_only_builds_them_then_starts_the_router() {
    let run = TestRun::new(test_with(&["setup/a"], &[], vec![node(8080, "h", None)]));
    let (run, action) = run.step(RunEvent::Start);
    assert_eq!(action, RunAction::BuildPackage { path: "setup/a".to_string(), verbose: true });
    let (_, action) = run.step(RunEvent::Completed);
    assert_eq!(action, RunAction::StartRouter { router: router() });
}

#[test]
fn test_without_nodes_fails() {
    let run = TestRun::new(test_with(&[], &[], vec![]));
    let (run, actions) = drive(run, vec![RunEvent::Start, RunEvent::Completed]);
    let verdict = Verdict::Failed(RunError::Fleet(FleetError::NoNodes));
    assert_eq!(actions[1], RunAction::Report { verdict: verdict.clone() });
    let (run, actions) = finish(run);
    assert_eq!(
        actions,
        vec![
            RunAction::Cleanup(CleanupStep::ShutdownRouter),
            RunAction::Finish { verdict: verdict.clone() },
        ]
    );
    assert_eq!(run.state(), &RunState::Done(verdict));
}

#[test]
fn build_failure_ends_the_run_with_the_diagnostic() {
    let run = TestRun::new(test_with(&["setup/a"], &["tests/pkg"], vec![node(8080, "h", None)]));
    let (run, _) = run.step(RunEvent::Start);
    let error = BuildError { diagnostic: "error[E0308]: mismatched types".to_string() };
    let (run, action) = run.step(RunEvent::BuildFailed(error));
    let verdict = Verdict::Failed(RunError::Build(BuildError {
        diagnostic: "error[E0308]: mismatched types".to_string(),
    }));
    assert_eq!(action, RunAction::Report { verdict: verdict.clone() });
    assert_eq!(run.verdict(), Some(verdict.clone()));
    let (run, actions) = finish(run);
    assert_eq!(
        actions,
        vec![
            RunAction::Cleanup(CleanupStep::ShutdownRouter),
            RunAction::Finish { verdict: verdict.clone() },
        ]
    );
    assert!(run.is_done());
}

#[test]
fn router_launch_failure_ends_the_run() {
    let run = TestRun::new(test_with(&[], &[], vec![node(8080, "h", None)]));
    let (run, _) = run.step(RunEvent::Start);
    let (run, action) = run.step(RunEvent::LaunchFailed(LaunchError::PortInUse));
    let verdict = Verdict::Failed(RunError::Launch(LaunchError::PortInUse));
    assert_eq!(action, RunAction::Report { verdict: verdict.clone() });
    assert_eq!(run.state(), &RunState::Failed(RunError::Launch(LaunchError::PortInUse)));
}

#[test]
fn node_launch_failure_tears_down_the_nodes_already_launched() {
    let nodes = vec![node(8080, "/tmp/first", None), node(8081, "/tmp/second", None)];
    let run = TestRun::new(test_with(&[], &[], nodes));
    let (run, actions) = drive(
        run,
        vec![
            RunEvent::Start,
            RunEvent::Completed,
            RunEvent::NodeLaunched(info(41, 7, 8080, "/tmp/first")),
            RunEvent::LaunchFailed(LaunchError::TerminalUnavailable),
        ],
    );
    let verdict = Verdict::Failed(RunError::Launch(LaunchError::TerminalUnavailable));
    assert_eq!(actions[3], RunAction::Report { verdict: verdict.clone() });
    let (_, actions) = finish(run);
    let mut expected = node_steps(41, 7, "/tmp/first");
    expected.push(RunAction::Cleanup(CleanupStep::ShutdownRouter));
    expected.push(RunAction::Finish { verdict });
    assert_eq!(actions, expected);
}

#[test]
fn startup_timeout_names_the_node_and_tears_down_the_whole_fleet() {
    let nodes = vec![node(8080, "/tmp/first", None), node(8081, "/tmp/second", None)];
    let run = TestRun::new(test_with(&[], &[], nodes));
    let (run, actions) = drive(
        run,
        vec![
            RunEvent::Start,
            RunEvent::Completed,
            RunEvent::NodeLaunched(info(41, 7, 8080, "/tmp/first")),
            RunEvent::NodeLaunched(info(42, 9, 8081, "/tmp/second")),
            RunEvent::Completed,
            RunEvent::StartupTimedOut,
        ],
    );
    let verdict = Verdict::Failed(RunError::Fleet(FleetError::StartupTimeout { node: 8081 }));
    assert_eq!(actions[5], RunAction::Report { verdict: verdict.clone() });
    let (_, actions) = finish(run);
    let mut expected = teardown_of_both_nodes();
    expected.push(RunAction::Finish { verdict });
    assert_eq!(actions, expected);
}

#[test]
fn timeout_gives_timed_out_and_never_passed() {
    let (run, action) = awaiting_run().step(RunEvent::TimedOut);
    assert_eq!(action, RunAction::Report { verdict: Verdict::TimedOut });
    assert_eq!(run.state(), &RunState::TimedOut);
    assert_eq!(run.verdict(), Some(Verdict::TimedOut));
    let (run, actions) = finish(run);
    let mut expected = teardown_of_both_nodes();
    expected.push(RunAction::Finish { verdict: Verdict::TimedOut });
    assert_eq!(actions, expected);
    assert_eq!(run.state(), &RunState::Done(Verdict::TimedOut));
}

#[test]
fn late_pass_does_not_change_a_timeout() {
    let (run, _) = awaiting_run().step(RunEvent::TimedOut);
    let (run, action) = run.step(RunEvent::Responded(TesterResponse::Pass));
    assert_eq!(action, RunAction::Cleanup(CleanupStep::Interrupt { master_fd: 7, byte: 3 }));
    assert_eq!(run.verdict(), Some(Verdict::TimedOut));
    let (run, _) = finish(run);
    assert_eq!(run.verdict(), Some(Verdict::TimedOut));
}

#[test]
fn fail_response_surfaces_unchanged() {
    let (run, action) =
        awaiting_run().step(RunEvent::Responded(fail("foo", "foo_test", 42, 5)));
    let error = RunError::Fail {
        test: "foo".to_string(),
        file: "foo_test".to_string(),
        line: 42,
        column: 5,
        message: String::new(),
    };
    assert_eq!(action, RunAction::Report { verdict: Verdict::Failed(error.clone()) });
    assert_eq!(run.state(), &RunState::Failed(error.clone()));
    let (run, actions) = finish(run);
    assert_eq!(actions.last(), Some(&RunAction::Finish { verdict: Verdict::Failed(error.clone()) }));
    assert_eq!(run.state(), &RunState::Done(Verdict::Failed(error)));
}

#[test]
fn fail_is_final_and_not_retried() {
    let (run, _) = awaiting_run().step(RunEvent::Responded(fail("foo", "foo_test", 42, 5)));
    let before = run.verdict();
    let (run, action) = run.step(RunEvent::Responded(TesterResponse::Pass));
    assert_eq!(action, RunAction::Cleanup(CleanupStep::Interrupt { master_fd: 7, byte: 3 }));
    assert_eq!(run.verdict(), before);
}

#[test]
fn unexpected_tester_traffic_fails_the_test() {
    let (run, action) =
        awaiting_run().step(RunEvent::Responded(TesterResponse::GetFullMessage(None)));
    let verdict = Verdict::Failed(RunError::Verdict(VerdictError::UnexpectedResponse));
    assert_eq!(action, RunAction::Report { verdict: verdict.clone() });
    assert_eq!(run.verdict(), Some(verdict));

    let (_, action) = awaiting_run().step(RunEvent::Rejected(TesterError::RejectForeign));
    assert_eq!(
        action,
        RunAction::Report {
            verdict: Verdict::Failed(RunError::Verdict(VerdictError::RejectForeign)),
        }
    );

    let (_, action) = awaiting_run().step(RunEvent::Rejected(TesterError::UnexpectedResponse));
    assert_eq!(
        action,
        RunAction::Report {
            verdict: Verdict::Failed(RunError::Verdict(VerdictError::UnexpectedResponse)),
        }
    );

    let error = TesterError::Fail { test: "foo".to_string(), message: "panicked".to_string() };
    let (_, action) = awaiting_run().step(RunEvent::Rejected(error));
    assert_eq!(
        action,
        RunAction::Report {
            verdict: Verdict::Failed(RunError::Fail {
                test: "foo".to_string(),
                file: String::new(),
                line: 0,
                column: 0,
                message: "panicked".to_string(),
            }),
        }
    );
}

#[test]
fn event_out_of_turn_aborts_the_run_and_still_tears_down() {
    let (run, action) = awaiting_run().step(RunEvent::Start);
    let verdict = Verdict::Failed(RunError::Aborted);
    assert_eq!(action, RunAction::Report { verdict: verdict.clone() });
    let (run, actions) = finish(run);
    let mut expected = teardown_of_both_nodes();
    expected.push(RunAction::Finish { verdict: verdict.clone() });
    assert_eq!(actions, expected);
    assert_eq!(run.state(), &RunState::Done(verdict));
}

#[test]
fn pass_before_the_tests_were_started_is_no_pass() {
    let run = TestRun::new(test_with(&[], &["tests/pkg"], vec![node(8080, "h", None)]));
    let (run, _) = run.step(RunEvent::Start);
    let (run, action) = run.step(RunEvent::Responded(TesterResponse::Pass));
    assert_eq!(action, RunAction::Report { verdict: Verdict::Failed(RunError::Aborted) });
    assert_eq!(run.verdict(), Some(Verdict::Failed(RunError::Aborted)));
}

#[test]
fn idle_run_takes_nothing_but_start() {
    let run = TestRun::new(test_with(&[], &[], vec![node(8080, "h", None)]));
    let (run, action) = run.step(RunEvent::Completed);
    assert_eq!(action, RunAction::Report { verdict: Verdict::Failed(RunError::Aborted) });
    assert_eq!(run.state(), &RunState::Failed(RunError::Aborted));
}

#[test]
fn node_launched_out_of_turn_is_still_torn_down() {
    let run = TestRun::new(test_with(&[], &["tests/pkg"], vec![node(8080, "/tmp/first", None)]));
    let (run, _) = run.step(RunEvent::Start);
    let (run, action) = run.step(RunEvent::NodeLaunched(info(41, 7, 8080, "/tmp/first")));
    let verdict = Verdict::Failed(RunError::Aborted);
    assert_eq!(action, RunAction::Report { verdict: verdict.clone() });
    assert_eq!(run.cleanup().node_count(), 1);
    let (_, actions) = finish(run);
    let mut expected = node_steps(41, 7, "/tmp/first");
    expected.push(RunAction::Cleanup(CleanupStep::ShutdownRouter));
    expected.push(RunAction::Finish { verdict });
    assert_eq!(actions, expected);
}

#[test]
fn node_launched_while_the_verdict_is_shown_is_still_torn_down() {
    let (run, _) = awaiting_run().step(RunEvent::Responded(TesterResponse::Pass));
    let (run, action) = run.step(RunEvent::NodeLaunched(info(43, 11, 8082, "/tmp/third")));
    assert_eq!(action, RunAction::Cleanup(CleanupStep::Interrupt { master_fd: 7, byte: 3 }));
    assert_eq!(run.cleanup().node_count(), 3);
    let (_, actions) = finish(run);
    let mut expected: Vec<RunAction> = node_steps(41, 7, "/tmp/first").split_off(1);
    expected.extend(node_steps(42, 9, "/tmp/second"));
    expected.extend(node_steps(43, 11, "/tmp/third"));
    expected.push(RunAction::Cleanup(CleanupStep::ShutdownRouter));
    expected.push(RunAction::Finish { verdict: Verdict::Passed });
    assert_eq!(actions, expected);
}

#[test]
fn node_launched_during_teardown_is_not_taken_in() {
    let (run, _) = awaiting_run().step(RunEvent::Responded(TesterResponse::Pass));
    let (run, _) = run.step(RunEvent::Completed);
    let (run, action) = run.step(RunEvent::NodeLaunched(info(43, 11, 8082, "/tmp/third")));
    assert_eq!(action, RunAction::Cleanup(CleanupStep::AwaitExit { process_handle: 41 }));
    assert_eq!(run.cleanup().node_count(), 2);
}

#[test]
fn failed_teardown_step_does_not_stop_teardown() {
    let (run, _) = awaiting_run().step(RunEvent::Responded(TesterResponse::Pass));
    let (run, actions) = drive(
        run,
        vec![
            RunEvent::Completed,
            RunEvent::LaunchFailed(LaunchError::BinaryMissing),
            RunEvent::TimedOut,
            RunEvent::BuildFailed(BuildError { diagnostic: "late".to_string() }),
        ],
    );
    let mut expected = node_steps(41, 7, "/tmp/first");
    expected.truncate(4);
    assert_eq!(actions, expected);
    assert_eq!(run.verdict(), Some(Verdict::Passed));
}

#[test]
fn done_run_stays_done() {
    let (run, _) = awaiting_run().step(RunEvent::Responded(TesterResponse::Pass));
    let (run, _) = finish(run);
    let (run, action) = run.step(RunEvent::Start);
    assert_eq!(action, RunAction::Finish { verdict: Verdict::Passed });
    assert_eq!(run.state(), &RunState::Done(Verdict::Passed));
    let (run, action) = run.step(RunEvent::TimedOut);
    assert_eq!(action, RunAction::Finish { verdict: Verdict::Passed });
    assert!(run.is_done());
}

#[test]
fn router_shutdown_is_the_last_step_of_every_teardown() {
    let endings = vec![
        RunEvent::Responded(TesterResponse::Pass),
        RunEvent::Responded(fail("foo", "foo_test", 42, 5)),
        RunEvent::TimedOut,
        RunEvent::Rejected(TesterError::RejectForeign),
        RunEvent::Completed,
    ];
    for ending in endings {
        let (run, _) = awaiting_run().step(ending);
        let (_, actions) = finish(run);
        let shutdowns: Vec<usize> = actions
            .iter()
            .enumerate()
            .filter(|(_, action)| **action == RunAction::Cleanup(CleanupStep::ShutdownRouter))
            .map(|(at, _)| at)
            .collect();
        assert_eq!(shutdowns, vec![12]);
        assert_eq!(actions.len(), 14);
    }
}
