//! What holds of every teardown.

use crate::run_tests::cleanup::{
    node_steps, release_len, release_sequence, release_step, CleanupStepView, StateDir,
    STEPS_PER_NODE,
};
use crate::run_tests::types::NodeInfoView;
use vstd::prelude::*;

verus! {

/// The release sequence holds the steps of each node in one piece, the nodes
/// in the order of their registration.
pub proof fn law_nodes_in_registration_order(nodes: Seq<NodeInfoView>, i: int)
    requires
        0 <= i < nodes.len(),
    ensures
        release_sequence(nodes).subrange(STEPS_PER_NODE * i, STEPS_PER_NODE * i + STEPS_PER_NODE)
            == node_steps(nodes[i]),
{
    let piece = release_sequence(nodes).subrange(
        STEPS_PER_NODE * i,
        STEPS_PER_NODE * i + STEPS_PER_NODE,
    );
    assert forall|k: int| 0 <= k < STEPS_PER_NODE implies piece[k] == node_steps(nodes[i])[k] by {
        let at = STEPS_PER_NODE * i + k;
        assert(at / (STEPS_PER_NODE as int) == i);
        assert(at % (STEPS_PER_NODE as int) == k);
        assert(piece[k] == release_step(nodes, at));
    }
    assert(piece =~= node_steps(nodes[i]));
}

/// The router is told to shut down exactly once in a release sequence, and
/// that is its last step: every step of every node comes before it.
pub proof fn law_router_shutdown_once_and_last(nodes: Seq<NodeInfoView>)
    ensures
        release_sequence(nodes).len() == release_len(nodes),
        release_sequence(nodes).last() == CleanupStepView::ShutdownRouter,
        forall|k: int|
            0 <= k < release_sequence(nodes).len() ==> (release_sequence(nodes)[k]
                is ShutdownRouter <==> k == release_sequence(nodes).len() - 1),
{
    assert forall|k: int| 0 <= k < release_sequence(nodes).len() implies (release_sequence(
        nodes,
    )[k] is ShutdownRouter <==> k == release_sequence(nodes).len() - 1) by {
        if k < STEPS_PER_NODE * nodes.len() {
            let node = nodes[k / (STEPS_PER_NODE as int)];
            let stage = k % (STEPS_PER_NODE as int);
            assert(release_sequence(nodes)[k] == node_steps(node)[stage]);
            assert(0 <= stage < 6);
        }
    }
}

/// What teardown acts on, as far as its outcome goes: the node processes that
/// are alive, the state directories that exist, each named by the home it
/// lies under, and how often the router was told to shut down.
pub struct World {
    pub alive: Set<u32>,
    pub state_dirs: Set<(Seq<char>, StateDir)>,
    pub router_signals: nat,
}

/// The world after one step of teardown has taken effect. An interrupt only
/// asks; the wait that follows it returns once the process is gone.
pub open spec fn effect(world: World, step: CleanupStepView) -> World {
    match step {
        CleanupStepView::Interrupt { .. } => world,
        CleanupStepView::AwaitExit { process_handle } => World {
            alive: world.alive.remove(process_handle),
            state_dirs: world.state_dirs,
            router_signals: world.router_signals,
        },
        CleanupStepView::RemoveStateDir { home, dir } => World {
            alive: world.alive,
            state_dirs: world.state_dirs.remove((home, dir)),
            router_signals: world.router_signals,
        },
        CleanupStepView::ShutdownRouter => World {
            alive: world.alive,
            state_dirs: world.state_dirs,
            router_signals: world.router_signals + 1,
        },
    }
}

/// The world after a sequence of steps has taken effect, one after another.
pub open spec fn effects(world: World, steps: Seq<CleanupStepView>) -> World
    decreases steps.len(),
{
    if steps.len() == 0 {
        world
    } else {
        effect(effects(world, steps.drop_last()), steps.last())
    }
}

/// Once a step has waited for a process or removed a directory, the process
/// is gone and the directory absent after all the steps.
proof fn lemma_effects_remove(world: World, steps: Seq<CleanupStepView>, k: int)
    requires
        0 <= k < steps.len(),
    ensures
        steps[k] matches CleanupStepView::AwaitExit { process_handle } ==> !effects(
            world,
            steps,
        ).alive.contains(process_handle),
        steps[k] matches CleanupStepView::RemoveStateDir { home, dir } ==> !effects(
            world,
            steps,
        ).state_dirs.contains((home, dir)),
    decreases steps.len(),
{
    if k < steps.len() - 1 {
        lemma_effects_remove(world, steps.drop_last(), k);
    }
}

/// The router is told to shut down as often as the steps say so.
proof fn lemma_effects_signals(world: World, steps: Seq<CleanupStepView>)
    requires
        forall|k: int| 0 <= k < steps.len() ==> !(steps[k] is ShutdownRouter),
    ensures
        effects(world, steps).router_signals == world.router_signals,
    decreases steps.len(),
{
    if steps.len() > 0 {
        lemma_effects_signals(world, steps.drop_last());
    }
}

/// After a release sequence whose steps have all taken effect, the process of
/// each registered node is gone, none of the four state directories exists
/// under its home, and the router was told to shut down once.
pub proof fn law_release_leaves_nothing(
    world: World,
    nodes: Seq<NodeInfoView>,
    i: int,
    dir: StateDir,
)
    requires
        0 <= i < nodes.len(),
    ensures
        !effects(world, release_sequence(nodes)).alive.contains(nodes[i].process_handle),
        !effects(world, release_sequence(nodes)).state_dirs.contains((nodes[i].home, dir)),
        effects(world, release_sequence(nodes)).router_signals == world.router_signals + 1,
{
    let steps = release_sequence(nodes);
    law_nodes_in_registration_order(nodes, i);
    let piece = steps.subrange(STEPS_PER_NODE * i, STEPS_PER_NODE * i + STEPS_PER_NODE);
    let offset: int = match dir {
        StateDir::Kernel => 2,
        StateDir::Kv => 3,
        StateDir::Sqlite => 4,
        StateDir::Vfs => 5,
    };
    assert(steps[STEPS_PER_NODE * i + 1] == piece[1]);
    assert(steps[STEPS_PER_NODE * i + offset] == piece[offset]);
    lemma_effects_remove(world, steps, STEPS_PER_NODE * i + 1);
    lemma_effects_remove(world, steps, STEPS_PER_NODE * i + offset);
    law_router_shutdown_once_and_last(nodes);
    lemma_effects_signals(world, steps.drop_last());
}

} // verus!
