//! How a test can end, and what is shown of it.

use crate::run_tests::tester_types::{
    TesterError, TesterErrorView, TesterResponse, TesterResponseView,
};
use crate::text::{decimal, decimal_text};
use vstd::prelude::*;

verus! {

/// A package did not build.
#[derive(Debug, PartialEq, Eq)]
pub struct BuildError {
    /// What the build printed.
    pub diagnostic: String,
}

pub struct BuildErrorView {
    pub diagnostic: Seq<char>,
}

impl View for BuildError {
    type V = BuildErrorView;

    open spec fn view(&self) -> BuildErrorView {
        BuildErrorView { diagnostic: self.diagnostic@ }
    }
}

/// A process could not be launched.
#[derive(Debug, Clone, Copy, PartialEq, Eq, Structural)]
pub enum LaunchError {
    BinaryMissing,
    PortInUse,
    TerminalUnavailable,
}

/// The fleet of nodes did not come up.
#[derive(Debug, Clone, Copy, PartialEq, Eq, Structural)]
pub enum FleetError {
    /// The node that listens on port `node` never became ready.
    StartupTimeout { node: u16 },
    /// The test names no node, so there is none to run the tests on.
    NoNodes,
}

/// No usable verdict came from the node under test.
#[derive(Debug, Clone, Copy, PartialEq, Eq, Structural)]
pub enum VerdictError {
    /// The time allowed for the test ran out before an answer came.
    TimedOut,
    RejectForeign,
    UnexpectedResponse,
}

/// Why a test did not pass.
#[derive(Debug, PartialEq, Eq)]
pub enum RunError {
    Build(BuildError),
    Launch(LaunchError),
    Fleet(FleetError),
    Verdict(VerdictError),
    /// An assertion of the test failed.
    Fail { test: String, file: String, line: u32, column: u32, message: String },
    /// The run was cut short by something that its current state does not
    /// provide for.
    Aborted,
}

pub enum RunErrorView {
    Build(BuildErrorView),
    Launch(LaunchError),
    Fleet(FleetError),
    Verdict(VerdictError),
    Fail { test: Seq<char>, file: Seq<char>, line: u32, column: u32, message: Seq<char> },
    Aborted,
}

impl View for RunError {
    type V = RunErrorView;

    open spec fn view(&self) -> RunErrorView {
        match *self {
            RunError::Build(error) => RunErrorView::Build(error@),
            RunError::Launch(error) => RunErrorView::Launch(error),
            RunError::Fleet(error) => RunErrorView::Fleet(error),
            RunError::Verdict(error) => RunErrorView::Verdict(error),
            RunError::Fail { test, file, line, column, message } => RunErrorView::Fail {
                test: test@,
                file: file@,
                line,
                column,
                message: message@,
            },
            RunError::Aborted => RunErrorView::Aborted,
        }
    }
}

impl RunErrorView {
    /// The error that a response of the tester stands for, if it is not a pass.
    /// A failure keeps the test's name and the place of the assertion.
    pub open spec fn of_response(response: TesterResponseView) -> Option<RunErrorView> {
        match response {
            TesterResponseView::Pass => None,
            TesterResponseView::Fail { test, file, line, column } => Some(
                RunErrorView::Fail { test, file, line, column, message: Seq::empty() },
            ),
            TesterResponseView::GetFullMessage(_) => Some(
                RunErrorView::Verdict(VerdictError::UnexpectedResponse),
            ),
        }
    }

    /// The error that an error of the tester stands for.
    pub open spec fn of_tester_error(error: TesterErrorView) -> RunErrorView {
        match error {
            TesterErrorView::RejectForeign => RunErrorView::Verdict(VerdictError::RejectForeign),
            TesterErrorView::UnexpectedResponse => RunErrorView::Verdict(
                VerdictError::UnexpectedResponse,
            ),
            TesterErrorView::Fail { test, message } => RunErrorView::Fail {
                test,
                file: Seq::empty(),
                line: 0,
                column: 0,
                message,
            },
        }
    }

    /// The error as it is shown to the user.
    pub open spec fn text(self) -> Seq<char> {
        match self {
            RunErrorView::Build(error) => "build failed: "@ + error.diagnostic,
            RunErrorView::Launch(LaunchError::BinaryMissing) => "launch failed: node binary is missing"@,
            RunErrorView::Launch(LaunchError::PortInUse) => "launch failed: port is already bound"@,
            RunErrorView::Launch(LaunchError::TerminalUnavailable) => "launch failed: no pseudo-terminal"@,
            RunErrorView::Fleet(FleetError::StartupTimeout { node }) => "node on port "@
                + decimal_text(node as nat) + " did not become ready"@,
            RunErrorView::Fleet(FleetError::NoNodes) => "no node to run the tests on"@,
            RunErrorView::Verdict(VerdictError::TimedOut) => "timeout"@,
            RunErrorView::Verdict(VerdictError::RejectForeign) => "RejectForeign"@,
            RunErrorView::Verdict(VerdictError::UnexpectedResponse) => "UnexpectedResponse"@,
            RunErrorView::Fail { test, file, line, column, message } => {
                let place = test + " "@ + file + ":"@ + decimal_text(line as nat) + ":"@
                    + decimal_text(column as nat);
                if message.len() == 0 {
                    place
                } else {
                    place + ": "@ + message
                }
            },
            RunErrorView::Aborted => "aborted"@,
        }
    }
}

impl Clone for RunError {
    fn clone(&self) -> (copy: RunError)
        ensures
            copy@ == self@,
    {
        match self {
            RunError::Build(error) => RunError::Build(
                BuildError { diagnostic: error.diagnostic.clone() },
            ),
            RunError::Launch(error) => RunError::Launch(*error),
            RunError::Fleet(error) => RunError::Fleet(*error),
            RunError::Verdict(error) => RunError::Verdict(*error),
            RunError::Fail { test, file, line, column, message } => RunError::Fail {
                test: test.clone(),
                file: file.clone(),
                line: *line,
                column: *column,
                message: message.clone(),
            },
            RunError::Aborted => RunError::Aborted,
        }
    }
}

impl RunError {
    /// Reads a response of the tester: `None` for a pass, else the error that
    /// the response stands for.
    pub fn of_response(response: TesterResponse) -> (error: Option<RunError>)
        ensures
            error.is_some() == RunErrorView::of_response(response@).is_some(),
            error matches Some(e) ==> RunErrorView::of_response(response@) == Some(e@),
    {
        match response {
            TesterResponse::Pass => None,
            TesterResponse::Fail { test, file, line, column } => Some(
                RunError::Fail { test, file, line, column, message: String::new() },
            ),
            TesterResponse::GetFullMessage(_) => Some(
                RunError::Verdict(VerdictError::UnexpectedResponse),
            ),
        }
    }

    /// The error that an error of the tester stands for.
    pub fn of_tester_error(error: TesterError) -> (result: RunError)
        ensures
            result@ == RunErrorView::of_tester_error(error@),
    {
        match error {
            TesterError::RejectForeign => RunError::Verdict(VerdictError::RejectForeign),
            TesterError::UnexpectedResponse => RunError::Verdict(VerdictError::UnexpectedResponse),
            TesterError::Fail { test, message } => RunError::Fail {
                test,
                file: String::new(),
                line: 0,
                column: 0,
                message,
            },
        }
    }

    /// The error as it is shown to the user.
    pub fn to_string(&self) -> (text: String)
        ensures
            text@ == self@.text(),
    {
        match self {
            RunError::Build(error) => {
                let mut text = String::from_str("build failed: ");
                text.append(error.diagnostic.as_str());
                text
            },
            RunError::Launch(LaunchError::BinaryMissing) => String::from_str(
                "launch failed: node binary is missing",
            ),
            RunError::Launch(LaunchError::PortInUse) => String::from_str(
                "launch failed: port is already bound",
            ),
            RunError::Launch(LaunchError::TerminalUnavailable) => String::from_str(
                "launch failed: no pseudo-terminal",
            ),
            RunError::Fleet(FleetError::StartupTimeout { node }) => {
                let mut text = String::from_str("node on port ");
                let number = decimal(*node as u64);
                text.append(number.as_str());
                text.append(" did not become ready");
                text
            },
            RunError::Fleet(FleetError::NoNodes) => String::from_str("no node to run the tests on"),
            RunError::Verdict(VerdictError::TimedOut) => String::from_str("timeout"),
            RunError::Verdict(VerdictError::RejectForeign) => String::from_str("RejectForeign"),
            RunError::Verdict(VerdictError::UnexpectedResponse) => String::from_str(
                "UnexpectedResponse",
            ),
            RunError::Fail { test, file, line, column, message } => {
                let mut text = test.clone();
                text.append(" ");
                text.append(file.as_str());
                text.append(":");
                let line_text = decimal(*line as u64);
                text.append(line_text.as_str());
                text.append(":");
                let column_text = decimal(*column as u64);
                text.append(column_text.as_str());
                if !message.as_str().is_empty() {
                    text.append(": ");
                    text.append(message.as_str());
                }
                text
            },
            RunError::Aborted => String::from_str("aborted"),
        }
    }
}

/// The outcome of one test.
#[derive(Debug, PartialEq, Eq)]
pub enum Verdict {
    Passed,
    Failed(RunError),
    TimedOut,
}

pub enum VerdictView {
    Passed,
    Failed(RunErrorView),
    TimedOut,
}

impl View for Verdict {
    type V = VerdictView;

    open spec fn view(&self) -> VerdictView {
        match *self {
            Verdict::Passed => VerdictView::Passed,
            Verdict::Failed(error) => VerdictView::Failed(error@),
            Verdict::TimedOut => VerdictView::TimedOut,
        }
    }
}

impl VerdictView {
    /// The verdict that an error leads to: running out of time is a verdict
    /// of its own, every other error is a failure.
    pub open spec fn of_error(error: RunErrorView) -> VerdictView {
        if error == RunErrorView::Verdict(VerdictError::TimedOut) {
            VerdictView::TimedOut
        } else {
            VerdictView::Failed(error)
        }
    }

    /// The verdict as it is shown to the user.
    pub open spec fn text(self) -> Seq<char> {
        match self {
            VerdictView::Passed => "pass"@,
            VerdictView::Failed(error) => "fail: "@ + error.text(),
            VerdictView::TimedOut => "timeout"@,
        }
    }
}

impl Clone for Verdict {
    fn clone(&self) -> (copy: Verdict)
        ensures
            copy@ == self@,
    {
        match self {
            Verdict::Passed => Verdict::Passed,
            Verdict::Failed(error) => Verdict::Failed(error.clone()),
            Verdict::TimedOut => Verdict::TimedOut,
        }
    }
}

impl Verdict {
    /// The verdict that an error leads to.
    pub fn of_error(error: RunError) -> (verdict: Verdict)
        ensures
            verdict@ == VerdictView::of_error(error@),
    {
        match error {
            RunError::Verdict(VerdictError::TimedOut) => Verdict::TimedOut,
            other => Verdict::Failed(other),
        }
    }

    /// Whether the test passed.
    pub fn is_pass(&self) -> (pass: bool)
        ensures
            pass == (self@ is Passed),
    {
        match self {
            Verdict::Passed => true,
            _ => false,
        }
    }

    /// The verdict as it is shown to the user.
    pub fn to_string(&self) -> (text: String)
        ensures
            text@ == self@.text(),
    {
        match self {
            Verdict::Passed => String::from_str("pass"),
            Verdict::Failed(error) => {
                let mut text = String::from_str("fail: ");
                let reason = error.to_string();
                text.append(reason.as_str());
                text
            },
            Verdict::TimedOut => String::from_str("timeout"),
        }
    }
}

/// The views of a list of verdicts, in order.
pub open spec fn verdict_views(verdicts: Seq<Verdict>) -> Seq<VerdictView> {
    Seq::new(verdicts.len(), |i: int| verdicts[i]@)
}

/// Whether every verdict is a pass.
pub open spec fn all_passed(verdicts: Seq<VerdictView>) -> bool {
    forall|i: int| 0 <= i < verdicts.len() ==> verdicts[i] is Passed
}

/// The exit code of a run with these verdicts: zero when every test passed.
pub open spec fn exit_code_of(verdicts: Seq<VerdictView>) -> i32 {
    if all_passed(verdicts) {
        0
    } else {
        1
    }
}

/// The exit code of a run with these verdicts: zero when every test passed,
/// one when any failed or ran out of time.
pub fn exit_code(verdicts: &Vec<Verdict>) -> (code: i32)
    ensures
        code == exit_code_of(verdict_views(verdicts@)),
{
    let mut i: usize = 0;
    while i < verdicts.len()
        invariant
            i <= verdicts.len(),
            forall|j: int| 0 <= j < i ==> verdict_views(verdicts@)[j] is Passed,
        decreases verdicts.len() - i,
    {
        if !verdicts[i].is_pass() {
            assert(!(verdict_views(verdicts@)[i as int] is Passed));
            return 1;
        }
        i = i + 1;
    }
    0
}

} // verus!
