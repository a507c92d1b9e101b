use uqdev::run_tests::cleanup::{CleanupStep, StateDir};
use uqdev::run_tests::coordinator::{RunAction, RunEvent};
use uqdev::run_tests::suite::{FailurePolicy, SuiteAction, SuiteRun};
use uqdev::run_tests::tester_types::{fail, TesterRequest, TesterResponse};
use uqdev::run_tests::types::{
    Config, NetworkRouter, NetworkRouterDefects, Node, NodeInfo, Runtime, Test,
};
use uqdev::run_tests::verdict::{BuildError, RunError, Verdict};

fn one_node_test(package: &str, port: u16, home: &str) -> Test {
    Test {
        setup_package_paths: Vec::new(),
        test_package_paths: vec![package.to_string()],
        package_build_verbose: false,
        timeout_secs: 10,
        network_router: NetworkRouter { port: 9001, defects: NetworkRouterDefects::NoDefects },
        nodes: vec![Node {
            port,
            home: home.to_string(),
            fake_node_name: Some("first.uq".to_string()),
            password: None,
            rpc: None,
            runtime_verbose: false,
        }],
    }
}

fn config(tests: Vec<Test>) -> Config {
    Config {
        runtime: Runtime::FetchVersion("0.4.0".to_string()),
        runtime_build_verbose: false,
        tests,
    }
}

fn info(process_handle: u32, master_fd: i32, port: u16, home: &str) -> NodeInfo {
    NodeInfo { process_handle, master_fd, port, home: home.to_string() }
}

fn teardown(index: usize, process_handle: u32, master_fd: i32, home: &str) -> Vec<SuiteAction> {
    let steps = vec![
        CleanupStep::Interrupt { master_fd, byte: 3 },
        CleanupStep::AwaitExit { process_handle },
        CleanupStep::RemoveStateDir { home: home.to_string(), dir: StateDir::Kernel },
        CleanupStep::RemoveStateDir { home: home.to_string(), dir: StateDir::Kv },
        CleanupStep::RemoveStateDir { home: home.to_string(), dir: StateDir::Sqlite },
        CleanupStep::RemoveStateDir { home: home.to_string(), dir: StateDir::Vfs },
        CleanupStep::ShutdownRouter,
    ];
    steps
        .into_iter()
        .map(|step| SuiteAction::Test { index, action: RunAction::Cleanup(step) })
        .collect()
}

fn drive(mut suite: SuiteRun, events: Vec<RunEvent>) -> (SuiteRun, Vec<SuiteAction>) {
    let mut actions = Vec::new();
    for event in events {
        let (next, action) = suite.step(event);
        suite = next;
        actions.push(action);
    }
    (suite, actions)
}

/// The events that bring a one-node test up to the point where the tester's
/// answer is awaited, from the event that begins it.
fn bring_up(first: RunEvent, process_handle: u32, master_fd: i32, port: u16, home: &str) -> Vec<RunEvent> {
    vec![
        first,
        RunEvent::Completed,
        RunEvent::Completed,
        RunEvent::NodeLaunched(info(process_handle, master_fd, port, home)),
        RunEvent::Completed,
    ]
}

fn completed(count: usize) -> Vec<RunEvent> {
    (0..count).map(|_| RunEvent::Completed).collect()
}

#[test]
fn scenario_pass_within_the_time_allowed() {
    let suite = SuiteRun::new(config(vec![one_node_test("tests/pkg", 8080, "/tmp/first")]), FailurePolicy::Continue);
    let (suite, actions) = drive(suite, bring_up(RunEvent::Start, 41, 7, 8080, "/tmp/first"));
    assert_eq!(
        actions[4],
        SuiteAction::Test {
            index: 0,
            action: RunAction::RunTests {
                port: 8080,
                request: TesterRequest::Run {
                    input_node_names: vec!["first.uq".to_string()],
                    test_timeout: 10,
                },
                timeout_secs: 10,
            },
        }
    );
    let (suite, action) = suite.step(RunEvent::Responded(TesterResponse::Pass));
    match &action {
        SuiteAction::Test { index: 0, action: RunAction::Report { verdict } } => {
            assert_eq!(verdict.to_string(), "pass");
        }
        other => panic!("unexpected action {:?}", other),
    }
    let (suite, actions) = drive(suite, completed(8));
    let mut expected = teardown(0, 41, 7, "/tmp/first");
    expected.push(SuiteAction::Exit { code: 0 });
    assert_eq!(actions, expected);
    assert!(suite.finished());
    assert_eq!(suite.verdicts(), &vec![Verdict::Passed]);
}

#[test]
fn scenario_node_never_responds() {
    let suite = SuiteRun::new(config(vec![one_node_test("tests/pkg", 8080, "/tmp/first")]), FailurePolicy::Continue);
    let (suite, _) = drive(suite, bring_up(RunEvent::Start, 41, 7, 8080, "/tmp/first"));
    let (suite, action) = suite.step(RunEvent::TimedOut);
    assert_eq!(
        action,
        SuiteAction::Test { index: 0, action: RunAction::Report { verdict: Verdict::TimedOut } }
    );
    let (suite, actions) = drive(suite, completed(8));
    let mut expected = teardown(0, 41, 7, "/tmp/first");
    expected.push(SuiteAction::Exit { code: 1 });
    assert_eq!(actions, expected);
    assert_eq!(suite.verdicts(), &vec![Verdict::TimedOut]);
}

#[test]
fn scenario_failure_report_is_shown_verbatim() {
    let suite = SuiteRun::new(config(vec![one_node_test("tests/pkg", 8080, "/tmp/first")]), FailurePolicy::Continue);
    let (suite, _) = drive(suite, bring_up(RunEvent::Start, 41, 7, 8080, "/tmp/first"));
    let (suite, action) = suite.step(RunEvent::Responded(fail("foo", "foo_test", 42, 5)));
    let error = RunError::Fail {
        test: "foo".to_string(),
        file: "foo_test".to_string(),
        line: 42,
        column: 5,
        message: String::new(),
    };
    assert_eq!(
        action,
        SuiteAction::Test {
            index: 0,
            action: RunAction::Report { verdict: Verdict::Failed(error.clone()) },
        }
    );
    assert_eq!(Verdict::Failed(error.clone()).to_string(), "fail: foo foo_test:42:5");
    let (suite, actions) = drive(suite, completed(8));
    assert_eq!(actions.last(), Some(&SuiteAction::Exit { code: 1 }));
    assert_eq!(suite.verdicts(), &vec![Verdict::Failed(error)]);
}

#[test]
fn scenario_abort_in_the_second_test_still_tears_its_nodes_down() {
    let tests = vec![
        one_node_test("tests/one", 8080, "/tmp/first"),
        one_node_test("tests/two", 8090, "/tmp/second"),
    ];
    let suite = SuiteRun::new(config(tests), FailurePolicy::Continue);
    let (suite, _) = drive(suite, bring_up(RunEvent::Start, 41, 7, 8080, "/tmp/first"));
    let (suite, _) = suite.step(RunEvent::Responded(TesterResponse::Pass));
    let (suite, actions) = drive(suite, completed(8));
    let mut expected = teardown(0, 41, 7, "/tmp/first");
    expected.push(SuiteAction::Test {
        index: 1,
        action: RunAction::BuildPackage { path: "tests/two".to_string(), verbose: false },
    });
    assert_eq!(actions, expected);

    let (suite, actions) = drive(
        suite,
        vec![
            RunEvent::Completed,
            RunEvent::Completed,
            RunEvent::NodeLaunched(info(51, 8, 8090, "/tmp/second")),
            RunEvent::BuildFailed(BuildError { diagnostic: "late failure".to_string() }),
        ],
    );
    let verdict = Verdict::Failed(RunError::Build(BuildError {
        diagnostic: "late failure".to_string(),
    }));
    assert_eq!(
        actions[3],
        SuiteAction::Test { index: 1, action: RunAction::Report { verdict: verdict.clone() } }
    );
    let (suite, actions) = drive(suite, completed(8));
    let mut expected = teardown(1, 51, 8, "/tmp/second");
    expected.push(SuiteAction::Exit { code: 1 });
    assert_eq!(actions, expected);
    assert_eq!(suite.verdicts(), &vec![Verdict::Passed, verdict]);
}

#[test]
fn build_failure_of_the_second_test_ends_with_its_teardown() {
    let tests = vec![
        one_node_test("tests/one", 8080, "/tmp/first"),
        one_node_test("tests/two", 8090, "/tmp/second"),
    ];
    let suite = SuiteRun::new(config(tests), FailurePolicy::Continue);
    let (suite, _) = drive(suite, bring_up(RunEvent::Start, 41, 7, 8080, "/tmp/first"));
    let (suite, _) = suite.step(RunEvent::Responded(TesterResponse::Pass));
    let (suite, _) = drive(suite, completed(8));
    let (suite, action) =
        suite.step(RunEvent::BuildFailed(BuildError { diagnostic: "no such crate".to_string() }));
    let verdict = Verdict::Failed(RunError::Build(BuildError {
        diagnostic: "no such crate".to_string(),
    }));
    assert_eq!(
        action,
        SuiteAction::Test { index: 1, action: RunAction::Report { verdict: verdict.clone() } }
    );
    let (suite, actions) = drive(suite, completed(2));
    assert_eq!(
        actions,
        vec![
            SuiteAction::Test { index: 1, action: RunAction::Cleanup(CleanupStep::ShutdownRouter) },
            SuiteAction::Exit { code: 1 },
        ]
    );
    assert!(suite.finished());
}

#[test]
fn failure_does_not_stop_later_tests_under_continue() {
    let tests = vec![
        one_node_test("tests/one", 8080, "/tmp/first"),
        one_node_test("tests/two", 8090, "/tmp/second"),
    ];
    let suite = SuiteRun::new(config(tests), FailurePolicy::Continue);
    let (suite, _) = drive(suite, vec![RunEvent::Start]);
    let (suite, _) =
        suite.step(RunEvent::BuildFailed(BuildError { diagnostic: "broken".to_string() }));
    let (suite, actions) = drive(suite, completed(2));
    assert_eq!(
        actions[1],
        SuiteAction::Test {
            index: 1,
            action: RunAction::BuildPackage { path: "tests/two".to_string(), verbose: false },
        }
    );
    assert!(!suite.finished());
    assert_eq!(suite.verdicts().len(), 1);
}

#[test]
fn failure_stops_later_tests_under_stop_at_first_failure() {
    let tests = vec![
        one_node_test("tests/one", 8080, "/tmp/first"),
        one_node_test("tests/two", 8090, "/tmp/second"),
    ];
    let suite = SuiteRun::new(config(tests), FailurePolicy::StopAtFirstFailure);
    let (suite, _) = drive(suite, vec![RunEvent::Start]);
    let (suite, _) =
        suite.step(RunEvent::BuildFailed(BuildError { diagnostic: "broken".to_string() }));
    let (suite, actions) = drive(suite, completed(2));
    assert_eq!(actions[1], SuiteAction::Exit { code: 1 });
    assert!(suite.finished());
    assert_eq!(suite.verdicts().len(), 1);
}

#[test]
fn pass_goes_on_under_stop_at_first_failure() {
    let tests = vec![
        one_node_test("tests/one", 8080, "/tmp/first"),
        one_node_test("tests/two", 8090, "/tmp/second"),
    ];
    let suite = SuiteRun::new(config(tests), FailurePolicy::StopAtFirstFailure);
    let (suite, _) = drive(suite, bring_up(RunEvent::Start, 41, 7, 8080, "/tmp/first"));
    let (suite, _) = suite.step(RunEvent::Responded(TesterResponse::Pass));
    let (_, actions) = drive(suite, completed(8));
    assert_eq!(
        actions[7],
        SuiteAction::Test {
            index: 1,
            action: RunAction::BuildPackage { path: "tests/two".to_string(), verbose: false },
        }
    );
}

#[test]
fn empty_configuration_exits_with_zero() {
    let suite = SuiteRun::new(config(Vec::new()), FailurePolicy::Continue);
    assert!(suite.finished());
    assert_eq!(suite.config().tests.len(), 0);
    let (suite, action) = suite.step(RunEvent::Start);
    assert_eq!(action, SuiteAction::Exit { code: 0 });
    let (_, action) = suite.step(RunEvent::Completed);
    assert_eq!(action, SuiteAction::Exit { code: 0 });
}

#[test]
fn finished_suite_keeps_its_exit_code() {
    let suite = SuiteRun::new(config(vec![one_node_test("tests/pkg", 8080, "/tmp/first")]), FailurePolicy::Continue);
    let (suite, _) = drive(suite, bring_up(RunEvent::Start, 41, 7, 8080, "/tmp/first"));
    let (suite, _) = suite.step(RunEvent::TimedOut);
    let (suite, _) = drive(suite, completed(8));
    let (suite, action) = suite.step(RunEvent::Start);
    assert_eq!(action, SuiteAction::Exit { code: 1 });
    assert_eq!(suite.verdicts(), &vec![Verdict::TimedOut]);
}

#[test]
fn config_clone_is_equal() {
    let first = config(vec![one_node_test("tests/pkg", 8080, "/tmp/first")]);
    assert_eq!(first.clone(), first);
    let repo = Runtime::RepoPath("/src/runtime".to_string());
    assert_eq!(repo.clone(), repo);
}
