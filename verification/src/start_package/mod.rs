//! Installing a built package on a running node.
//!
//! The package directory is packed into an archive, the archive is handed to
//! the node's app store as a new package, and the package is installed. This
//! module decides what is read, packed and sent; the caller reads, packs and
//! sends.

pub mod flow;
pub mod json;

pub use crate::start_package::flow::execute;

use crate::start_package::json::{
    document_text_members, json_string, json_string_text, parse_document, text_member,
};
use vstd::prelude::*;

verus! {

/// The permissions of every entry of an archive.
pub const ARCHIVE_PERMISSIONS: u32 = 0o755;

/// The status with which the node accepts a request.
pub const STATUS_OK: u16 = 200;

/// The code with which the tool leaves when the node turns a request down.
pub const EXIT_REJECTED: i32 = 1;

/// The process that takes requests about packages.
pub open spec fn app_store_text() -> Seq<char> {
    "main:app_store:uqbar"@
}

/// A message to inject into a node: the process it goes to, its body, the
/// node it is meant for, and the file whose bytes go with it.
#[derive(Debug, PartialEq, Eq)]
pub struct InjectRequest {
    pub process: String,
    pub ipc: String,
    pub node: Option<String>,
    pub bytes_path: Option<String>,
}

pub struct InjectRequestView {
    pub process: Seq<char>,
    pub ipc: Seq<char>,
    pub node: Option<Seq<char>>,
    pub bytes_path: Option<Seq<char>>,
}

/// The text that an optional string holds, if any.
pub open spec fn optional_text(value: Option<String>) -> Option<Seq<char>> {
    match value {
        Some(text) => Some(text@),
        None => None,
    }
}

/// The text that an optional string slice holds, if any.
pub open spec fn optional_str_text(value: Option<&str>) -> Option<Seq<char>> {
    match value {
        Some(text) => Some(text@),
        None => None,
    }
}

impl View for InjectRequest {
    type V = InjectRequestView;

    open spec fn view(&self) -> InjectRequestView {
        InjectRequestView {
            process: self.process@,
            ipc: self.ipc@,
            node: optional_text(self.node),
            bytes_path: optional_text(self.bytes_path),
        }
    }
}

/// The body of the request that hands a package to the app store, for the
/// package name and the publisher as JSON strings.
pub open spec fn new_package_text(package_json: Seq<char>, publisher_json: Seq<char>) -> Seq<char> {
    "{\"NewPackage\":{\"mirror\":true,\"package\":{\"package_name\":"@ + package_json
        + ",\"publisher_node\":"@ + publisher_json + "}}}"@
}

/// The body of the request that installs a package, for the package name and
/// the publisher as JSON strings.
pub open spec fn install_text(package_json: Seq<char>, publisher_json: Seq<char>) -> Seq<char> {
    "{\"Install\":{\"package_name\":"@ + package_json + ",\"publisher_node\":"@ + publisher_json
        + "}}"@
}

/// The request that hands the package in the file at `bytes_path` to the app
/// store of `node`.
pub open spec fn new_package_request(
    node: Option<Seq<char>>,
    package_name: Seq<char>,
    publisher_node: Seq<char>,
    bytes_path: Seq<char>,
) -> InjectRequestView {
    InjectRequestView {
        process: app_store_text(),
        ipc: new_package_text(json_string_text(package_name), json_string_text(publisher_node)),
        node,
        bytes_path: Some(bytes_path),
    }
}

/// The request that installs a package on `node`.
pub open spec fn install_request(
    node: Option<Seq<char>>,
    package_name: Seq<char>,
    publisher_node: Seq<char>,
) -> InjectRequestView {
    InjectRequestView {
        process: app_store_text(),
        ipc: install_text(json_string_text(package_name), json_string_text(publisher_node)),
        node,
        bytes_path: None,
    }
}

/// Puts the body of a new-package request together from the package name and
/// the publisher, both already written as JSON strings.
pub fn new_package_message(package_json: &str, publisher_json: &str) -> (body: String)
    ensures
        body@ == new_package_text(package_json@, publisher_json@),
{
    let mut body = String::from_str("{\"NewPackage\":{\"mirror\":true,\"package\":{\"package_name\":");
    body.append(package_json);
    body.append(",\"publisher_node\":");
    body.append(publisher_json);
    body.append("}}}");
    body
}

/// Puts the body of an install request together from the package name and
/// the publisher, both already written as JSON strings.
pub fn install_message(package_json: &str, publisher_json: &str) -> (body: String)
    ensures
        body@ == install_text(package_json@, publisher_json@),
{
    let mut body = String::from_str("{\"Install\":{\"package_name\":");
    body.append(package_json);
    body.append(",\"publisher_node\":");
    body.append(publisher_json);
    body.append("}}");
    body
}

fn owned(value: Option<&str>) -> (copy: Option<String>)
    ensures
        optional_text(copy) == optional_str_text(value),
{
    match value {
        Some(text) => Some(String::from_str(text)),
        None => None,
    }
}

/// The request that hands the package in the file at `bytes_path` to the app
/// store of `node`, to be mirrored there.
pub fn new_package(
    node: Option<&str>,
    package_name: &str,
    publisher_node: &str,
    bytes_path: &str,
) -> (request: InjectRequest)
    ensures
        request@ == new_package_request(
            optional_str_text(node),
            package_name@,
            publisher_node@,
            bytes_path@,
        ),
{
    let package_json = json_string(package_name);
    let publisher_json = json_string(publisher_node);
    InjectRequest {
        process: String::from_str("main:app_store:uqbar"),
        ipc: new_package_message(package_json.as_str(), publisher_json.as_str()),
        node: owned(node),
        bytes_path: Some(String::from_str(bytes_path)),
    }
}

/// The request that installs a package on `node`.
pub fn install_package(node: Option<&str>, package_name: &str, publisher_node: &str) -> (request:
    InjectRequest)
    ensures
        request@ == install_request(optional_str_text(node), package_name@, publisher_node@),
{
    let package_json = json_string(package_name);
    let publisher_json = json_string(publisher_node);
    InjectRequest {
        process: String::from_str("main:app_store:uqbar"),
        ipc: install_message(package_json.as_str(), publisher_json.as_str()),
        node: owned(node),
        bytes_path: None,
    }
}

/// Something found below the directory that is packed.
#[derive(Debug, PartialEq, Eq)]
pub struct WalkEntry {
    /// Its path from the directory. The directory itself has the empty path.
    pub relative: String,
    pub is_file: bool,
}

pub struct WalkEntryView {
    pub relative: Seq<char>,
    pub is_file: bool,
}

impl View for WalkEntry {
    type V = WalkEntryView;

    open spec fn view(&self) -> WalkEntryView {
        WalkEntryView { relative: self.relative@, is_file: self.is_file }
    }
}

/// The views of a list of entries, in order.
pub open spec fn walk_entry_views(entries: Seq<WalkEntry>) -> Seq<WalkEntryView> {
    Seq::new(entries.len(), |i: int| entries[i]@)
}

/// One entry of an archive. Entries are stored as they are, not compressed.
#[derive(Debug, PartialEq, Eq)]
pub enum ArchiveStep {
    /// Store the file under `name`, with its bytes.
    AddFile { name: String, permissions: u32 },
    /// Store a directory under `name`.
    AddDirectory { name: String, permissions: u32 },
}

pub enum ArchiveStepView {
    AddFile { name: Seq<char>, permissions: u32 },
    AddDirectory { name: Seq<char>, permissions: u32 },
}

impl View for ArchiveStep {
    type V = ArchiveStepView;

    open spec fn view(&self) -> ArchiveStepView {
        match *self {
            ArchiveStep::AddFile { name, permissions } => ArchiveStepView::AddFile {
                name: name@,
                permissions,
            },
            ArchiveStep::AddDirectory { name, permissions } => ArchiveStepView::AddDirectory {
                name: name@,
                permissions,
            },
        }
    }
}

/// The views of a list of archive entries, in order.
pub open spec fn archive_step_views(steps: Seq<ArchiveStep>) -> Seq<ArchiveStepView> {
    Seq::new(steps.len(), |i: int| steps[i]@)
}

/// What the archive holds for one entry: a file is stored under its path, a
/// directory too, but for the directory that is packed, which is left out.
pub open spec fn archive_step(entry: WalkEntryView) -> Option<ArchiveStepView> {
    if entry.is_file {
        Some(ArchiveStepView::AddFile { name: entry.relative, permissions: ARCHIVE_PERMISSIONS })
    } else if entry.relative.len() != 0 {
        Some(
            ArchiveStepView::AddDirectory {
                name: entry.relative,
                permissions: ARCHIVE_PERMISSIONS,
            },
        )
    } else {
        None
    }
}

/// What the archive of a directory holds: the entry of each thing found, in
/// the order in which they were found.
pub open spec fn archive_steps(entries: Seq<WalkEntryView>) -> Seq<ArchiveStepView>
    decreases entries.len(),
{
    if entries.len() == 0 {
        Seq::empty()
    } else {
        let before = archive_steps(entries.drop_last());
        match archive_step(entries.last()) {
            Some(step) => before.push(step),
            None => before,
        }
    }
}

/// The entries of the archive of a directory, given what was found below it.
pub fn zip_directory(entries: &Vec<WalkEntry>) -> (steps: Vec<ArchiveStep>)
    ensures
        archive_step_views(steps@) == archive_steps(walk_entry_views(entries@)),
{
    let mut steps: Vec<ArchiveStep> = Vec::new();
    let mut i: usize = 0;
    while i < entries.len()
        invariant
            i <= entries.len(),
            archive_step_views(steps@) == archive_steps(walk_entry_views(entries@).take(i as int)),
        decreases entries.len() - i,
    {
        proof {
            let prefix = walk_entry_views(entries@).take(i + 1);
            assert(prefix.drop_last() =~= walk_entry_views(entries@).take(i as int));
        }
        let entry = &entries[i];
        if entry.is_file {
            steps.push(
                ArchiveStep::AddFile {
                    name: entry.relative.clone(),
                    permissions: ARCHIVE_PERMISSIONS,
                },
            );
        } else if !entry.relative.as_str().is_empty() {
            steps.push(
                ArchiveStep::AddDirectory {
                    name: entry.relative.clone(),
                    permissions: ARCHIVE_PERMISSIONS,
                },
            );
        }
        i = i + 1;
    }
    assert(walk_entry_views(entries@).take(entries@.len() as int) =~= walk_entry_views(entries@));
    steps
}

/// What a package says of itself.
#[derive(Debug, PartialEq, Eq)]
pub struct PackageMetadata {
    pub package: String,
    pub publisher: String,
}

pub struct PackageMetadataView {
    pub package: Seq<char>,
    pub publisher: Seq<char>,
}

impl View for PackageMetadata {
    type V = PackageMetadataView;

    open spec fn view(&self) -> PackageMetadataView {
        PackageMetadataView { package: self.package@, publisher: self.publisher@ }
    }
}

impl PackageMetadataView {
    /// The name under which the package is announced and archived.
    pub open spec fn pkg_publisher(self) -> Seq<char> {
        self.package + ":"@ + self.publisher
    }
}

impl Clone for PackageMetadata {
    fn clone(&self) -> (copy: PackageMetadata)
        ensures
            copy@ == self@,
    {
        PackageMetadata { package: self.package.clone(), publisher: self.publisher.clone() }
    }
}

impl PackageMetadata {
    /// The name under which the package is announced and archived: the
    /// package's name, a colon, and the publisher.
    pub fn pkg_publisher(&self) -> (name: String)
        ensures
            name@ == self@.pkg_publisher(),
    {
        let mut name = self.package.clone();
        name.append(":");
        name.append(self.publisher.as_str());
        name
    }
}

/// Why the metadata of a package cannot be used.
#[derive(Debug, Clone, Copy, PartialEq, Eq, Structural)]
pub enum MetadataError {
    /// The document is not JSON.
    Malformed,
    /// The document names no package.
    MissingPackage,
    /// The document names no publisher.
    MissingPublisher,
}

/// The metadata that the two members of a document give. The package is
/// looked for first.
pub open spec fn metadata_of(package: Option<Seq<char>>, publisher: Option<Seq<char>>) -> Result<
    PackageMetadataView,
    MetadataError,
> {
    match (package, publisher) {
        (None, _) => Err(MetadataError::MissingPackage),
        (Some(_), None) => Err(MetadataError::MissingPublisher),
        (Some(package), Some(publisher)) => Ok(PackageMetadataView { package, publisher }),
    }
}

/// The text under `key`, if the members hold one there.
pub open spec fn member(members: Map<Seq<char>, Seq<char>>, key: Seq<char>) -> Option<Seq<char>> {
    if members.contains_key(key) {
        Some(members[key])
    } else {
        None
    }
}

/// The metadata that a document holds.
pub open spec fn metadata_in(document: Seq<u8>) -> Result<PackageMetadataView, MetadataError> {
    match document_text_members(document) {
        None => Err(MetadataError::Malformed),
        Some(members) => metadata_of(member(members, "package"@), member(members, "publisher"@)),
    }
}

/// The view of what reading metadata gave.
pub open spec fn metadata_result_view(result: Result<PackageMetadata, MetadataError>) -> Result<
    PackageMetadataView,
    MetadataError,
> {
    match result {
        Ok(metadata) => Ok(metadata@),
        Err(error) => Err(error),
    }
}

/// The metadata that the two members of a document give: both must be there.
pub fn metadata_from_members(package: Option<&str>, publisher: Option<&str>) -> (result: Result<
    PackageMetadata,
    MetadataError,
>)
    ensures
        metadata_result_view(result) == metadata_of(
            optional_str_text(package),
            optional_str_text(publisher),
        ),
{
    match package {
        None => Err(MetadataError::MissingPackage),
        Some(package) => match publisher {
            None => Err(MetadataError::MissingPublisher),
            Some(publisher) => Ok(
                PackageMetadata {
                    package: String::from_str(package),
                    publisher: String::from_str(publisher),
                },
            ),
        },
    }
}

/// Reads the metadata of a package from the bytes of its metadata file: a
/// JSON object that names the package under `package` and its publisher under
/// `publisher`, both as strings.
pub fn read_metadata(document: &[u8]) -> (result: Result<PackageMetadata, MetadataError>)
    ensures
        metadata_result_view(result) == metadata_in(document@),
{
    match parse_document(document) {
        Err(_) => Err(MetadataError::Malformed),
        Ok(value) => {
            let package = text_member(&value, "package");
            let publisher = text_member(&value, "publisher");
            metadata_from_members(package, publisher)
        },
    }
}

} // verus!
