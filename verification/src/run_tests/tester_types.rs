//! The protocol between the harness and the node under test.

use crate::run_tests::kernel_types::{Address, Message, Payload, SignedCapability};
use crate::run_tests::types::texts_of;
use vstd::prelude::*;

verus! {

/// The process on a node that takes the harness's requests and runs the tests.
pub fn tester_process() -> (name: &'static str)
    ensures
        name@ == "tester:tester:uqbar"@,
{
    "tester:tester:uqbar"
}

/// The envelope of all traffic on the message bus.
#[derive(Debug, Clone, PartialEq, Eq)]
pub struct KernelMessage {
    pub id: u64,
    pub source: Address,
    pub target: Address,
    /// Where the answer goes, if not to the source.
    pub rsvp: Option<Address>,
    pub message: Message,
    pub payload: Option<Payload>,
    pub signed_capabilities: Option<Vec<SignedCapability>>,
}

/// What the harness asks of the tester process.
#[derive(Debug, PartialEq, Eq)]
pub enum TesterRequest {
    Run { input_node_names: Vec<String>, test_timeout: u64 },
    KernelMessage(KernelMessage),
    GetFullMessage(Message),
}

pub enum TesterRequestView {
    Run { input_node_names: Seq<Seq<char>>, test_timeout: u64 },
    KernelMessage(KernelMessage),
    GetFullMessage(Message),
}

impl View for TesterRequest {
    type V = TesterRequestView;

    open spec fn view(&self) -> TesterRequestView {
        match *self {
            TesterRequest::Run { input_node_names, test_timeout } => TesterRequestView::Run {
                input_node_names: texts_of(input_node_names@),
                test_timeout,
            },
            TesterRequest::KernelMessage(message) => TesterRequestView::KernelMessage(message),
            TesterRequest::GetFullMessage(message) => TesterRequestView::GetFullMessage(message),
        }
    }
}

/// Where an assertion of a test failed.
#[derive(Debug, PartialEq, Eq)]
pub struct TesterFail {
    pub test: String,
    pub file: String,
    pub line: u32,
    pub column: u32,
}

pub struct TesterFailView {
    pub test: Seq<char>,
    pub file: Seq<char>,
    pub line: u32,
    pub column: u32,
}

impl View for TesterFail {
    type V = TesterFailView;

    open spec fn view(&self) -> TesterFailView {
        TesterFailView { test: self.test@, file: self.file@, line: self.line, column: self.column }
    }
}

/// What the tester process answers.
#[derive(Debug, PartialEq, Eq)]
pub enum TesterResponse {
    Pass,
    Fail { test: String, file: String, line: u32, column: u32 },
    GetFullMessage(Option<KernelMessage>),
}

pub enum TesterResponseView {
    Pass,
    Fail { test: Seq<char>, file: Seq<char>, line: u32, column: u32 },
    GetFullMessage(Option<KernelMessage>),
}

impl View for TesterResponse {
    type V = TesterResponseView;

    open spec fn view(&self) -> TesterResponseView {
        match *self {
            TesterResponse::Pass => TesterResponseView::Pass,
            TesterResponse::Fail { test, file, line, column } => TesterResponseView::Fail {
                test: test@,
                file: file@,
                line,
                column,
            },
            TesterResponse::GetFullMessage(message) => TesterResponseView::GetFullMessage(message),
        }
    }
}

/// What can go wrong on the tester's side of the protocol.
#[derive(Debug, PartialEq, Eq)]
pub enum TesterError {
    /// The message came from another node.
    RejectForeign,
    /// A response arrived that answers no request.
    UnexpectedResponse,
    Fail { test: String, message: String },
}

pub enum TesterErrorView {
    RejectForeign,
    UnexpectedResponse,
    Fail { test: Seq<char>, message: Seq<char> },
}

impl TesterErrorView {
    /// The error as it is shown to the user.
    pub open spec fn text(self) -> Seq<char> {
        match self {
            TesterErrorView::RejectForeign => "RejectForeign"@,
            TesterErrorView::UnexpectedResponse => "UnexpectedResponse"@,
            TesterErrorView::Fail { test, message } => "FAIL "@ + test + " "@ + message,
        }
    }
}

impl View for TesterError {
    type V = TesterErrorView;

    open spec fn view(&self) -> TesterErrorView {
        match *self {
            TesterError::RejectForeign => TesterErrorView::RejectForeign,
            TesterError::UnexpectedResponse => TesterErrorView::UnexpectedResponse,
            TesterError::Fail { test, message } => TesterErrorView::Fail {
                test: test@,
                message: message@,
            },
        }
    }
}

impl TesterError {
    /// The error as it is shown to the user.
    pub fn to_string(&self) -> (text: String)
        ensures
            text@ == self@.text(),
    {
        match self {
            TesterError::RejectForeign => String::from_str("RejectForeign"),
            TesterError::UnexpectedResponse => String::from_str("UnexpectedResponse"),
            TesterError::Fail { test, message } => {
                let mut text = String::from_str("FAIL ");
                text.append(test.as_str());
                text.append(" ");
                text.append(message.as_str());
                text
            },
        }
    }
}

/// The response by which a test reports that the assertion at the given place
/// failed. The harness treats it as final for the test.
pub fn fail(test: &str, file: &str, line: u32, column: u32) -> (report: TesterResponse)
    ensures
        report@ == (TesterResponseView::Fail { test: test@, file: file@, line, column }),
{
    TesterResponse::Fail {
        test: String::from_str(test),
        file: String::from_str(file),
        line,
        column,
    }
}

} // verus!
