//! Teardown of the nodes of one test.
//!
//! Whatever way a test ends, every node that was launched for it is stopped
//! and its state on disk is removed, and only then is the router told to shut
//! down. This module decides the steps and their order; the caller performs
//! them.

use crate::run_tests::types::{node_info_views, NodeInfo, NodeInfoView};
use vstd::prelude::*;

verus! {

/// The byte that asks a node to shut down when written to its terminal.
pub const INTERRUPT_BYTE: u8 = 0x03;

/// Number of teardown steps that each node takes.
pub const STEPS_PER_NODE: u8 = 6;

/// A directory of mutable state under a node's home.
#[derive(Debug, Clone, Copy, PartialEq, Eq, Structural)]
pub enum StateDir {
    Kernel,
    Kv,
    Sqlite,
    Vfs,
}

impl StateDir {
    /// The directory's name under the node's home.
    pub open spec fn name_text(self) -> Seq<char> {
        match self {
            StateDir::Kernel => "kernel"@,
            StateDir::Kv => "kv"@,
            StateDir::Sqlite => "sqlite"@,
            StateDir::Vfs => "vfs"@,
        }
    }

    /// The directory's name under the node's home.
    pub fn name(&self) -> (name: &'static str)
        ensures
            name@ == self.name_text(),
    {
        match self {
            StateDir::Kernel => "kernel",
            StateDir::Kv => "kv",
            StateDir::Sqlite => "sqlite",
            StateDir::Vfs => "vfs",
        }
    }
}

/// One step of teardown, for the caller to perform.
#[derive(Debug, PartialEq, Eq)]
pub enum CleanupStep {
    /// Write `byte` to the terminal `master_fd`.
    Interrupt { master_fd: i32, byte: u8 },
    /// Block until the process has exited.
    AwaitExit { process_handle: u32 },
    /// Delete the directory `dir` under `home` with all it holds, if it is there.
    RemoveStateDir { home: String, dir: StateDir },
    /// Tell the router to shut down.
    ShutdownRouter,
}

pub enum CleanupStepView {
    Interrupt { master_fd: i32, byte: u8 },
    AwaitExit { process_handle: u32 },
    RemoveStateDir { home: Seq<char>, dir: StateDir },
    ShutdownRouter,
}

impl View for CleanupStep {
    type V = CleanupStepView;

    open spec fn view(&self) -> CleanupStepView {
        match *self {
            CleanupStep::Interrupt { master_fd, byte } => CleanupStepView::Interrupt {
                master_fd,
                byte,
            },
            CleanupStep::AwaitExit { process_handle } => CleanupStepView::AwaitExit {
                process_handle,
            },
            CleanupStep::RemoveStateDir { home, dir } => CleanupStepView::RemoveStateDir {
                home: home@,
                dir,
            },
            CleanupStep::ShutdownRouter => CleanupStepView::ShutdownRouter,
        }
    }
}

/// The views of a list of steps, in order.
pub open spec fn step_views(steps: Seq<CleanupStep>) -> Seq<CleanupStepView> {
    Seq::new(steps.len(), |i: int| steps[i]@)
}

/// The steps that stop one node and clear its state, in the order in which
/// they are taken: interrupt, wait for the exit, then remove each state
/// directory.
pub open spec fn node_steps(node: NodeInfoView) -> Seq<CleanupStepView> {
    seq![
        CleanupStepView::Interrupt { master_fd: node.master_fd, byte: INTERRUPT_BYTE },
        CleanupStepView::AwaitExit { process_handle: node.process_handle },
        CleanupStepView::RemoveStateDir { home: node.home, dir: StateDir::Kernel },
        CleanupStepView::RemoveStateDir { home: node.home, dir: StateDir::Kv },
        CleanupStepView::RemoveStateDir { home: node.home, dir: StateDir::Sqlite },
        CleanupStepView::RemoveStateDir { home: node.home, dir: StateDir::Vfs },
    ]
}

/// Number of steps in the release sequence of `nodes`.
pub open spec fn release_len(nodes: Seq<NodeInfoView>) -> int {
    STEPS_PER_NODE * nodes.len() + 1
}

/// The step at position `k` of the release sequence of `nodes`.
pub open spec fn release_step(nodes: Seq<NodeInfoView>, k: int) -> CleanupStepView {
    if 0 <= k < STEPS_PER_NODE * nodes.len() {
        node_steps(nodes[k / (STEPS_PER_NODE as int)])[k % (STEPS_PER_NODE as int)]
    } else {
        CleanupStepView::ShutdownRouter
    }
}

/// The whole teardown of a test: the steps of each node, the nodes in the
/// order in which they were registered, and last the router's shutdown.
pub open spec fn release_sequence(nodes: Seq<NodeInfoView>) -> Seq<CleanupStepView> {
    Seq::new(release_len(nodes) as nat, |k: int| release_step(nodes, k))
}

/// The steps that stop one node and clear its state.
pub fn cleanup_node(node: &NodeInfo) -> (steps: Vec<CleanupStep>)
    ensures
        step_views(steps@) == node_steps(node@),
{
    let mut steps: Vec<CleanupStep> = Vec::new();
    steps.push(CleanupStep::Interrupt { master_fd: node.master_fd, byte: INTERRUPT_BYTE });
    steps.push(CleanupStep::AwaitExit { process_handle: node.process_handle });
    steps.push(CleanupStep::RemoveStateDir { home: node.home.clone(), dir: StateDir::Kernel });
    steps.push(CleanupStep::RemoveStateDir { home: node.home.clone(), dir: StateDir::Kv });
    steps.push(CleanupStep::RemoveStateDir { home: node.home.clone(), dir: StateDir::Sqlite });
    steps.push(CleanupStep::RemoveStateDir { home: node.home.clone(), dir: StateDir::Vfs });
    steps
}

/// What a cleanup context stands for: the nodes it tracks, in the order of
/// their registration, and how many steps of their release sequence it has
/// handed out.
pub struct CleanupContextView {
    pub nodes: Seq<NodeInfoView>,
    pub issued: nat,
}

impl CleanupContextView {
    /// Teardown has handed out its first step.
    pub open spec fn begun(self) -> bool {
        self.issued > 0
    }

    /// Teardown has handed out every step, the router's shutdown included.
    pub open spec fn finished(self) -> bool {
        self.issued >= release_len(self.nodes)
    }

    /// The step that comes next, if any is left.
    pub open spec fn pending(self) -> Option<CleanupStepView> {
        if self.finished() {
            None
        } else {
            Some(release_step(self.nodes, self.issued as int))
        }
    }

    /// The context after its next step was handed out.
    pub open spec fn advanced(self) -> CleanupContextView {
        if self.finished() {
            self
        } else {
            CleanupContextView { nodes: self.nodes, issued: self.issued + 1 }
        }
    }

    /// The context after `node` was offered for tracking: it is taken unless
    /// teardown has begun.
    pub open spec fn registered(self, node: NodeInfoView) -> CleanupContextView {
        if self.begun() {
            self
        } else {
            CleanupContextView { nodes: self.nodes.push(node), issued: self.issued }
        }
    }
}

/// The nodes launched for one test, and how far their teardown has come.
#[derive(Debug)]
pub struct CleanupContext {
    nodes: Vec<NodeInfo>,
    /// First node whose teardown is not complete.
    node: usize,
    /// Steps already handed out for that node.
    stage: u8,
    router_signalled: bool,
}

impl View for CleanupContext {
    type V = CleanupContextView;

    closed spec fn view(&self) -> CleanupContextView {
        CleanupContextView {
            nodes: node_info_views(self.nodes@),
            issued: (STEPS_PER_NODE * self.node + self.stage + if self.router_signalled {
                1int
            } else {
                0int
            }) as nat,
        }
    }
}

impl CleanupContext {
    #[verifier::type_invariant]
    spec fn well_formed(self) -> bool {
        &&& self.node <= self.nodes@.len()
        &&& self.stage < STEPS_PER_NODE
        &&& self.node == self.nodes@.len() ==> self.stage == 0
        &&& self.router_signalled ==> self.node == self.nodes@.len()
    }

    /// A context that tracks `nodes`, with teardown not begun.
    pub fn new(nodes: Vec<NodeInfo>) -> (context: CleanupContext)
        ensures
            context@.nodes == node_info_views(nodes@),
            context@.issued == 0,
    {
        CleanupContext { nodes, node: 0, stage: 0, router_signalled: false }
    }

    /// Number of nodes held for teardown.
    pub fn node_count(&self) -> (count: usize)
        ensures
            count == self@.nodes.len(),
    {
        self.nodes.len()
    }

    /// Whether teardown has handed out its first step.
    pub fn begun(&self) -> (begun: bool)
        ensures
            begun == self@.begun(),
    {
        self.node > 0 || self.stage > 0 || self.router_signalled
    }

    /// Whether teardown has handed out every step.
    pub fn finished(&self) -> (finished: bool)
        ensures
            finished == self@.finished(),
    {
        proof {
            use_type_invariant(self);
        }
        self.router_signalled
    }

    /// Takes `node` in for teardown. Once teardown has begun the set of nodes
    /// is closed: the node is then handed back and nothing changes.
    pub fn register(self, node: NodeInfo) -> (result: (CleanupContext, Option<NodeInfo>))
        ensures
            result.0@ == self@.registered(node@),
            match result.1 {
                Some(back) => self@.begun() && back@ == node@,
                None => !self@.begun(),
            },
    {
        proof {
            use_type_invariant(&self);
        }
        if self.node > 0 || self.stage > 0 || self.router_signalled {
            (self, Some(node))
        } else {
            let CleanupContext { nodes, node: at, stage, router_signalled } = self;
            let mut nodes = nodes;
            let ghost before = node_info_views(nodes@);
            nodes.push(node);
            assert(node_info_views(nodes@) =~= before.push(node@));
            (CleanupContext { nodes, node: at, stage, router_signalled }, None)
        }
    }

    /// Hands out the next step of teardown, or `None` when none is left.
    /// Called until it returns `None`, it hands out the release sequence of
    /// the nodes it holds, each step once.
    pub fn next_step(&mut self) -> (step: Option<CleanupStep>)
        ensures
            final(self)@ == old(self)@.advanced(),
            match step {
                Some(s) => old(self)@.pending() == Some(s@),
                None => old(self)@.pending() is None,
            },
    {
        proof {
            use_type_invariant(&*self);
        }
        if self.node < self.nodes.len() {
            let node = &self.nodes[self.node];
            let step = if self.stage == 0 {
                CleanupStep::Interrupt { master_fd: node.master_fd, byte: INTERRUPT_BYTE }
            } else if self.stage == 1 {
                CleanupStep::AwaitExit { process_handle: node.process_handle }
            } else if self.stage == 2 {
                CleanupStep::RemoveStateDir { home: node.home.clone(), dir: StateDir::Kernel }
            } else if self.stage == 3 {
                CleanupStep::RemoveStateDir { home: node.home.clone(), dir: StateDir::Kv }
            } else if self.stage == 4 {
                CleanupStep::RemoveStateDir { home: node.home.clone(), dir: StateDir::Sqlite }
            } else {
                CleanupStep::RemoveStateDir { home: node.home.clone(), dir: StateDir::Vfs }
            };
            if self.stage + 1 < STEPS_PER_NODE {
                self.stage = self.stage + 1;
            } else {
                self.stage = 0;
                self.node = self.node + 1;
            }
            Some(step)
        } else if !self.router_signalled {
            self.router_signalled = true;
            Some(CleanupStep::ShutdownRouter)
        } else {
            None
        }
    }
}

} // verus!
