//! The declarative description of a test run.

use vstd::prelude::*;

verus! {

/// Where the node binary comes from.
#[derive(Debug, PartialEq, Eq)]
pub enum Runtime {
    /// A released binary, named by its version tag.
    FetchVersion(String),
    /// A local checkout of the runtime, to be built.
    RepoPath(String),
}

pub enum RuntimeView {
    FetchVersion(Seq<char>),
    RepoPath(Seq<char>),
}

impl View for Runtime {
    type V = RuntimeView;

    open spec fn view(&self) -> RuntimeView {
        match *self {
            Runtime::FetchVersion(version) => RuntimeView::FetchVersion(version@),
            Runtime::RepoPath(path) => RuntimeView::RepoPath(path@),
        }
    }
}

impl Clone for Runtime {
    fn clone(&self) -> (copy: Runtime)
        ensures
            copy@ == self@,
    {
        match self {
            Runtime::FetchVersion(version) => Runtime::FetchVersion(version.clone()),
            Runtime::RepoPath(path) => Runtime::RepoPath(path.clone()),
        }
    }
}

/// The defects that the network router injects into the traffic between nodes.
#[derive(Debug, Clone, Copy, PartialEq, Eq, Structural)]
pub enum NetworkRouterDefects {
    /// The router passes all traffic on unharmed.
    NoDefects,
}

/// The router process of one test: where it listens and how it misbehaves.
#[derive(Debug, Clone, Copy, PartialEq, Eq, Structural)]
pub struct NetworkRouter {
    pub port: u16,
    pub defects: NetworkRouterDefects,
}

/// The launch parameters of one node.
#[derive(Debug, PartialEq, Eq)]
pub struct Node {
    pub port: u16,
    /// Root of the node's state on disk.
    pub home: String,
    pub fake_node_name: Option<String>,
    pub password: Option<String>,
    pub rpc: Option<String>,
    pub runtime_verbose: bool,
}

pub struct NodeView {
    pub port: u16,
    pub home: Seq<char>,
    pub fake_node_name: Option<Seq<char>>,
    pub password: Option<Seq<char>>,
    pub rpc: Option<Seq<char>>,
    pub runtime_verbose: bool,
}

/// The text that an optional string holds, if any.
pub open spec fn text_of(value: Option<String>) -> Option<Seq<char>> {
    match value {
        Some(text) => Some(text@),
        None => None,
    }
}

/// The texts of a list of strings, in order.
pub open spec fn texts_of(values: Seq<String>) -> Seq<Seq<char>> {
    Seq::new(values.len(), |i: int| values[i]@)
}

/// Copies an optional string.
pub fn clone_text(value: &Option<String>) -> (copy: Option<String>)
    ensures
        text_of(copy) == text_of(*value),
{
    match value {
        Some(text) => Some(text.clone()),
        None => None,
    }
}

/// Copies a list of strings.
pub fn clone_texts(values: &Vec<String>) -> (copy: Vec<String>)
    ensures
        texts_of(copy@) == texts_of(values@),
{
    let mut copy: Vec<String> = Vec::new();
    let mut i: usize = 0;
    while i < values.len()
        invariant
            i <= values.len(),
            copy@.len() == i,
            forall|j: int| 0 <= j < i ==> copy@[j]@ == values@[j]@,
        decreases values.len() - i,
    {
        copy.push(values[i].clone());
        i = i + 1;
    }
    copy
}

impl View for Node {
    type V = NodeView;

    open spec fn view(&self) -> NodeView {
        NodeView {
            port: self.port,
            home: self.home@,
            fake_node_name: text_of(self.fake_node_name),
            password: text_of(self.password),
            rpc: text_of(self.rpc),
            runtime_verbose: self.runtime_verbose,
        }
    }
}

impl Clone for Node {
    fn clone(&self) -> (copy: Node)
        ensures
            copy@ == self@,
    {
        Node {
            port: self.port,
            home: self.home.clone(),
            fake_node_name: clone_text(&self.fake_node_name),
            password: clone_text(&self.password),
            rpc: clone_text(&self.rpc),
            runtime_verbose: self.runtime_verbose,
        }
    }
}

/// The views of a list of nodes, in order.
pub open spec fn node_views(nodes: Seq<Node>) -> Seq<NodeView> {
    Seq::new(nodes.len(), |i: int| nodes[i]@)
}

/// One test scenario: the packages to build, the time allowed, the router and
/// the nodes. A verdict is given per test.
#[derive(Debug, PartialEq, Eq)]
pub struct Test {
    /// Packages that are installed before the run and not asserted on.
    pub setup_package_paths: Vec<String>,
    /// Packages that drive the assertions.
    pub test_package_paths: Vec<String>,
    pub package_build_verbose: bool,
    pub timeout_secs: u64,
    pub network_router: NetworkRouter,
    pub nodes: Vec<Node>,
}

pub struct TestView {
    pub setup_package_paths: Seq<Seq<char>>,
    pub test_package_paths: Seq<Seq<char>>,
    pub package_build_verbose: bool,
    pub timeout_secs: u64,
    pub network_router: NetworkRouter,
    pub nodes: Seq<NodeView>,
}

impl View for Test {
    type V = TestView;

    open spec fn view(&self) -> TestView {
        TestView {
            setup_package_paths: texts_of(self.setup_package_paths@),
            test_package_paths: texts_of(self.test_package_paths@),
            package_build_verbose: self.package_build_verbose,
            timeout_secs: self.timeout_secs,
            network_router: self.network_router,
            nodes: node_views(self.nodes@),
        }
    }
}

/// Copies a list of nodes.
pub fn clone_nodes(nodes: &Vec<Node>) -> (copy: Vec<Node>)
    ensures
        node_views(copy@) == node_views(nodes@),
{
    let mut copy: Vec<Node> = Vec::new();
    let mut i: usize = 0;
    while i < nodes.len()
        invariant
            i <= nodes.len(),
            copy@.len() == i,
            forall|j: int| 0 <= j < i ==> copy@[j]@ == nodes@[j]@,
        decreases nodes.len() - i,
    {
        copy.push(nodes[i].clone());
        i = i + 1;
    }
    copy
}

impl Clone for Test {
    fn clone(&self) -> (copy: Test)
        ensures
            copy@ == self@,
    {
        Test {
            setup_package_paths: clone_texts(&self.setup_package_paths),
            test_package_paths: clone_texts(&self.test_package_paths),
            package_build_verbose: self.package_build_verbose,
            timeout_secs: self.timeout_secs,
            network_router: self.network_router,
            nodes: clone_nodes(&self.nodes),
        }
    }
}

/// A whole run: the runtime to use and the tests, which run one after another.
#[derive(Debug, PartialEq, Eq)]
pub struct Config {
    pub runtime: Runtime,
    pub runtime_build_verbose: bool,
    pub tests: Vec<Test>,
}

pub struct ConfigView {
    pub runtime: RuntimeView,
    pub runtime_build_verbose: bool,
    pub tests: Seq<TestView>,
}

impl View for Config {
    type V = ConfigView;

    open spec fn view(&self) -> ConfigView {
        ConfigView {
            runtime: self.runtime@,
            runtime_build_verbose: self.runtime_build_verbose,
            tests: test_views(self.tests@),
        }
    }
}

/// The views of a list of tests, in order.
pub open spec fn test_views(tests: Seq<Test>) -> Seq<TestView> {
    Seq::new(tests.len(), |i: int| tests[i]@)
}

/// Copies a list of tests.
pub fn clone_tests(tests: &Vec<Test>) -> (copy: Vec<Test>)
    ensures
        test_views(copy@) == test_views(tests@),
{
    let mut copy: Vec<Test> = Vec::new();
    let mut i: usize = 0;
    while i < tests.len()
        invariant
            i <= tests.len(),
            copy@.len() == i,
            forall|j: int| 0 <= j < i ==> copy@[j]@ == tests@[j]@,
        decreases tests.len() - i,
    {
        copy.push(tests[i].clone());
        i = i + 1;
    }
    copy
}

impl Clone for Config {
    fn clone(&self) -> (copy: Config)
        ensures
            copy@ == self@,
    {
        Config {
            runtime: self.runtime.clone(),
            runtime_build_verbose: self.runtime_build_verbose,
            tests: clone_tests(&self.tests),
        }
    }
}

/// A node that was launched: the handles that teardown needs.
#[derive(Debug, PartialEq, Eq)]
pub struct NodeInfo {
    /// Identifies the child process to the caller, who owns the process.
    pub process_handle: u32,
    /// The master side of the node's pseudo-terminal.
    pub master_fd: i32,
    pub port: u16,
    pub home: String,
}

pub struct NodeInfoView {
    pub process_handle: u32,
    pub master_fd: i32,
    pub port: u16,
    pub home: Seq<char>,
}

impl View for NodeInfo {
    type V = NodeInfoView;

    open spec fn view(&self) -> NodeInfoView {
        NodeInfoView {
            process_handle: self.process_handle,
            master_fd: self.master_fd,
            port: self.port,
            home: self.home@,
        }
    }
}

impl NodeInfo {
    /// The handles of a node that was launched from `node`: the process, the
    /// master side of its terminal, and the port and home that identify it.
    pub fn new(node: &Node, process_handle: u32, master_fd: i32) -> (info: NodeInfo)
        ensures
            info@ == (NodeInfoView {
                process_handle,
                master_fd,
                port: node.port,
                home: node.home@,
            }),
    {
        NodeInfo { process_handle, master_fd, port: node.port, home: node.home.clone() }
    }
}

/// The views of a list of launched nodes, in order.
pub open spec fn node_info_views(nodes: Seq<NodeInfo>) -> Seq<NodeInfoView> {
    Seq::new(nodes.len(), |i: int| nodes[i]@)
}

} // verus!
