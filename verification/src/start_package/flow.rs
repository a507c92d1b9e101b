//! The steps of an installation, one decision at a time.

use crate::start_package::{
    install_package, install_request, metadata_in, new_package, new_package_request,
    optional_str_text, optional_text, read_metadata, InjectRequest, InjectRequestView,
    MetadataError, PackageMetadata, PackageMetadataView, EXIT_REJECTED, STATUS_OK,
};
use vstd::prelude::*;

verus! {

/// Where an installation stands.
#[derive(Debug, PartialEq, Eq)]
pub enum InstallState {
    Idle,
    /// The metadata file is being read.
    ReadingMetadata,
    /// The package directory is being packed.
    Archiving(PackageMetadata),
    /// The archive was handed to the app store and its answer is awaited.
    Publishing(PackageMetadata),
    /// The install request was sent and its answer is awaited.
    Installing(PackageMetadata),
    Installed,
    Failed,
}

pub enum InstallStateView {
    Idle,
    ReadingMetadata,
    Archiving(PackageMetadataView),
    Publishing(PackageMetadataView),
    Installing(PackageMetadataView),
    Installed,
    Failed,
}

impl View for InstallState {
    type V = InstallStateView;

    open spec fn view(&self) -> InstallStateView {
        match *self {
            InstallState::Idle => InstallStateView::Idle,
            InstallState::ReadingMetadata => InstallStateView::ReadingMetadata,
            InstallState::Archiving(metadata) => InstallStateView::Archiving(metadata@),
            InstallState::Publishing(metadata) => InstallStateView::Publishing(metadata@),
            InstallState::Installing(metadata) => InstallStateView::Installing(metadata@),
            InstallState::Installed => InstallStateView::Installed,
            InstallState::Failed => InstallStateView::Failed,
        }
    }
}

/// What the caller reports of the action it was handed.
#[derive(Debug, PartialEq, Eq)]
pub enum InstallEvent {
    /// The installation is to begin.
    Start,
    /// The bytes of the metadata file.
    MetadataRead(Vec<u8>),
    /// The archive was written to the file at `zip_path`.
    Archived { zip_path: String },
    /// The node answered the request with `status`.
    Responded { status: u16 },
}

pub enum InstallEventView {
    Start,
    MetadataRead(Seq<u8>),
    Archived { zip_path: Seq<char> },
    Responded { status: u16 },
}

impl View for InstallEvent {
    type V = InstallEventView;

    open spec fn view(&self) -> InstallEventView {
        match *self {
            InstallEvent::Start => InstallEventView::Start,
            InstallEvent::MetadataRead(document) => InstallEventView::MetadataRead(document@),
            InstallEvent::Archived { zip_path } => InstallEventView::Archived {
                zip_path: zip_path@,
            },
            InstallEvent::Responded { status } => InstallEventView::Responded { status },
        }
    }
}

/// Why an installation was given up.
#[derive(Debug, Clone, Copy, PartialEq, Eq, Structural)]
pub enum InstallError {
    Metadata(MetadataError),
    /// An event came that the installation's state does not provide for.
    OutOfTurn,
}

/// What the caller is to do next.
#[derive(Debug, PartialEq, Eq)]
pub enum InstallAction {
    /// Read the file `file` in the directory `directory` of the project.
    ReadMetadata { directory: String, file: String },
    /// Show `name`, then pack the directory `directory` of the project into
    /// the file `name` with the extension `extension` in the directory
    /// `target` beside it.
    Archive { name: String, directory: String, target: String, extension: String },
    /// Inject the request into the node.
    Send { request: InjectRequest },
    /// Show the message: the package is installed.
    Announce { message: String },
    /// Leave with `code`: the node turned a request down.
    Exit { code: i32 },
    /// Give up with `error`.
    Fail { error: InstallError },
    /// Nothing: the installation has ended.
    Nothing,
}

pub enum InstallActionView {
    ReadMetadata { directory: Seq<char>, file: Seq<char> },
    Archive { name: Seq<char>, directory: Seq<char>, target: Seq<char>, extension: Seq<char> },
    Send { request: InjectRequestView },
    Announce { message: Seq<char> },
    Exit { code: i32 },
    Fail { error: InstallError },
    Nothing,
}

impl View for InstallAction {
    type V = InstallActionView;

    open spec fn view(&self) -> InstallActionView {
        match *self {
            InstallAction::ReadMetadata { directory, file } => InstallActionView::ReadMetadata {
                directory: directory@,
                file: file@,
            },
            InstallAction::Archive { name, directory, target, extension } => {
                InstallActionView::Archive {
                    name: name@,
                    directory: directory@,
                    target: target@,
                    extension: extension@,
                }
            },
            InstallAction::Send { request } => InstallActionView::Send { request: request@ },
            InstallAction::Announce { message } => InstallActionView::Announce {
                message: message@,
            },
            InstallAction::Exit { code } => InstallActionView::Exit { code },
            InstallAction::Fail { error } => InstallActionView::Fail { error },
            InstallAction::Nothing => InstallActionView::Nothing,
        }
    }
}

/// An installation: the node it is meant for, and where it stands.
#[derive(Debug, PartialEq, Eq)]
pub struct InstallFlow {
    pub node: Option<String>,
    pub state: InstallState,
}

pub struct InstallFlowView {
    pub node: Option<Seq<char>>,
    pub state: InstallStateView,
}

impl View for InstallFlow {
    type V = InstallFlowView;

    open spec fn view(&self) -> InstallFlowView {
        InstallFlowView { node: optional_text(self.node), state: self.state@ }
    }
}

impl InstallFlowView {
    /// The installation in another state.
    pub open spec fn at(self, state: InstallStateView) -> InstallFlowView {
        InstallFlowView { node: self.node, state }
    }

    /// The installation is given up.
    pub open spec fn fail(self, error: InstallError) -> (InstallFlowView, InstallActionView) {
        (self.at(InstallStateView::Failed), InstallActionView::Fail { error })
    }

    /// The installation after `event`, and the action that the caller is to
    /// take.
    ///
    /// The metadata is read, the package directory is packed under the name
    /// that the metadata gives, the archive is handed to the app store, and
    /// the package is installed. A request that the node answers with another
    /// status than success ends the installation with an exit. Once the
    /// installation has ended nothing more is done.
    pub open spec fn step(self, event: InstallEventView) -> (InstallFlowView, InstallActionView) {
        match self.state {
            InstallStateView::Installed | InstallStateView::Failed => (
                self,
                InstallActionView::Nothing,
            ),
            InstallStateView::Idle => match event {
                InstallEventView::Start => (
                    self.at(InstallStateView::ReadingMetadata),
                    InstallActionView::ReadMetadata {
                        directory: "pkg"@,
                        file: "metadata.json"@,
                    },
                ),
                _ => self.fail(InstallError::OutOfTurn),
            },
            InstallStateView::ReadingMetadata => match event {
                InstallEventView::MetadataRead(document) => match metadata_in(document) {
                    Ok(metadata) => (
                        self.at(InstallStateView::Archiving(metadata)),
                        InstallActionView::Archive {
                            name: metadata.pkg_publisher(),
                            directory: "pkg"@,
                            target: "target"@,
                            extension: "zip"@,
                        },
                    ),
                    Err(error) => self.fail(InstallError::Metadata(error)),
                },
                _ => self.fail(InstallError::OutOfTurn),
            },
            InstallStateView::Archiving(metadata) => match event {
                InstallEventView::Archived { zip_path } => (
                    self.at(InstallStateView::Publishing(metadata)),
                    InstallActionView::Send {
                        request: new_package_request(
                            self.node,
                            metadata.package,
                            metadata.publisher,
                            zip_path,
                        ),
                    },
                ),
                _ => self.fail(InstallError::OutOfTurn),
            },
            InstallStateView::Publishing(metadata) => match event {
                InstallEventView::Responded { status } => if status == STATUS_OK {
                    (
                        self.at(InstallStateView::Installing(metadata)),
                        InstallActionView::Send {
                            request: install_request(
                                self.node,
                                metadata.package,
                                metadata.publisher,
                            ),
                        },
                    )
                } else {
                    (self.at(InstallStateView::Failed), InstallActionView::Exit {
                        code: EXIT_REJECTED,
                    })
                },
                _ => self.fail(InstallError::OutOfTurn),
            },
            InstallStateView::Installing(metadata) => match event {
                InstallEventView::Responded { status } => if status == STATUS_OK {
                    (
                        self.at(InstallStateView::Installed),
                        InstallActionView::Announce {
                            message: "Successfully installed package: "@
                                + metadata.pkg_publisher(),
                        },
                    )
                } else {
                    (self.at(InstallStateView::Failed), InstallActionView::Exit {
                        code: EXIT_REJECTED,
                    })
                },
                _ => self.fail(InstallError::OutOfTurn),
            },
        }
    }
}

fn borrowed(value: &Option<String>) -> (text: Option<&str>)
    ensures
        optional_str_text(text) == optional_text(*value),
{
    match value {
        Some(text) => Some(text.as_str()),
        None => None,
    }
}

impl InstallFlow {
    /// An installation on `node` that has not begun.
    pub fn new(node: Option<&str>) -> (flow: InstallFlow)
        ensures
            flow@ == (InstallFlowView {
                node: optional_str_text(node),
                state: InstallStateView::Idle,
            }),
    {
        let node = match node {
            Some(name) => Some(String::from_str(name)),
            None => None,
        };
        InstallFlow { node, state: InstallState::Idle }
    }
}

fn give_up(node: Option<String>, error: InstallError) -> (result: (InstallFlow, InstallAction))
    ensures
        result.0@ == (InstallFlowView { node: optional_text(node), state: InstallStateView::Failed }),
        result.1@ == (InstallActionView::Fail { error }),
{
    (InstallFlow { node, state: InstallState::Failed }, InstallAction::Fail { error })
}

fn turned_down(node: Option<String>) -> (result: (InstallFlow, InstallAction))
    ensures
        result.0@ == (InstallFlowView { node: optional_text(node), state: InstallStateView::Failed }),
        result.1@ == (InstallActionView::Exit { code: EXIT_REJECTED }),
{
    (InstallFlow { node, state: InstallState::Failed }, InstallAction::Exit { code: EXIT_REJECTED })
}

/// Takes `event` in and says what the caller is to do next to install the
/// package.
///
/// The installation after the call and the action are those of the model,
/// [`InstallFlowView::step`].
pub fn execute(flow: InstallFlow, event: InstallEvent) -> (result: (InstallFlow, InstallAction))
    ensures
        (result.0@, result.1@) == flow@.step(event@),
{
    let InstallFlow { node, state } = flow;
    match state {
        InstallState::Installed => (
            InstallFlow { node, state: InstallState::Installed },
            InstallAction::Nothing,
        ),
        InstallState::Failed => (
            InstallFlow { node, state: InstallState::Failed },
            InstallAction::Nothing,
        ),
        InstallState::Idle => match event {
            InstallEvent::Start => (
                InstallFlow { node, state: InstallState::ReadingMetadata },
                InstallAction::ReadMetadata {
                    directory: String::from_str("pkg"),
                    file: String::from_str("metadata.json"),
                },
            ),
            _ => give_up(node, InstallError::OutOfTurn),
        },
        InstallState::ReadingMetadata => match event {
            InstallEvent::MetadataRead(document) => match read_metadata(document.as_slice()) {
                Ok(metadata) => {
                    let name = metadata.pkg_publisher();
                    (
                        InstallFlow { node, state: InstallState::Archiving(metadata) },
                        InstallAction::Archive {
                            name,
                            directory: String::from_str("pkg"),
                            target: String::from_str("target"),
                            extension: String::from_str("zip"),
                        },
                    )
                },
                Err(error) => give_up(node, InstallError::Metadata(error)),
            },
            _ => give_up(node, InstallError::OutOfTurn),
        },
        InstallState::Archiving(metadata) => match event {
            InstallEvent::Archived { zip_path } => {
                let request = new_package(
                    borrowed(&node),
                    metadata.package.as_str(),
                    metadata.publisher.as_str(),
                    zip_path.as_str(),
                );
                (
                    InstallFlow { node, state: InstallState::Publishing(metadata) },
                    InstallAction::Send { request },
                )
            },
            _ => give_up(node, InstallError::OutOfTurn),
        },
        InstallState::Publishing(metadata) => match event {
            InstallEvent::Responded { status } => {
                if status == STATUS_OK {
                    let request = install_package(
                        borrowed(&node),
                        metadata.package.as_str(),
                        metadata.publisher.as_str(),
                    );
                    (
                        InstallFlow { node, state: InstallState::Installing(metadata) },
                        InstallAction::Send { request },
                    )
                } else {
                    turned_down(node)
                }
            },
            _ => give_up(node, InstallError::OutOfTurn),
        },
        InstallState::Installing(metadata) => match event {
            InstallEvent::Responded { status } => {
                if status == STATUS_OK {
                    let mut message = String::from_str("Successfully installed package: ");
                    let name = metadata.pkg_publisher();
                    message.append(name.as_str());
                    (
                        InstallFlow { node, state: InstallState::Installed },
                        InstallAction::Announce { message },
                    )
                } else {
                    turned_down(node)
                }
            },
            _ => give_up(node, InstallError::OutOfTurn),
        },
    }
}

/// A request is sent only in answer to what it needs: the archive's path for
/// the new-package request, the node's acceptance of that request for the
/// install request. The package is announced as installed only when the node
/// has accepted the install request.
pub proof fn law_requests_in_order(flow: InstallFlowView, event: InstallEventView)
    ensures
        flow.step(event).1 is Announce ==> flow.state is Installing && event
            == (InstallEventView::Responded { status: STATUS_OK }),
        flow.step(event).0.state is Installing ==> flow.state is Publishing && event
            == (InstallEventView::Responded { status: STATUS_OK }),
        flow.step(event).0.state is Publishing ==> flow.state is Archiving && event is Archived,
        flow.step(event).1 is Exit ==> (flow.state is Publishing || flow.state is Installing)
            && event is Responded && event->status != STATUS_OK,
{
}

} // verus!
