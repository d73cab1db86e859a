//! What the plugin registers with the app and its renderer.

use vstd::prelude::*;

use crate::extract::Phase;
use crate::graph::Node3d;

verus! {

/// The types that are registered for reflection.
#[derive(Clone, Copy, Debug, PartialEq, Eq, Structural)]
pub enum ReflectedType {
    Camera3d,
    ScreenSpaceTransmissionQuality,
}

/// The plugins that the plugin adds.
#[derive(Clone, Copy, Debug, PartialEq, Eq, Structural)]
pub enum SubPlugin {
    Skybox,
    /// Extracts the 3D cameras to the renderer.
    ExtractCamera3d,
}

/// The schedules that systems are added to.
#[derive(Clone, Copy, Debug, PartialEq, Eq, Structural)]
pub enum Schedule {
    PostUpdate,
    Extract,
    Render,
}

/// The systems that are added.
#[derive(Clone, Copy, Debug, PartialEq, Eq, Structural)]
pub enum System {
    CheckMsaa,
    ExtractCore3dCameraPhases,
    ExtractCameraPrepassPhase,
    /// Sorts the items of the phase.
    SortPhase(Phase),
    PrepareCore3dDepthTextures,
    PrepareCore3dTransmissionTextures,
    PreparePrepassTextures,
}

/// The sets of systems that a system of the renderer is put in.
#[derive(Clone, Copy, Debug, PartialEq, Eq, Structural)]
pub enum RenderSet {
    PhaseSort,
    PrepareResources,
}

/// What a node of the render graph runs.
#[derive(Clone, Copy, Debug, PartialEq, Eq, Structural)]
pub enum NodeRunner {
    /// Nothing: the node only orders others.
    Empty,
    Prepass,
    DeferredGBufferPrepass,
    CopyDeferredLightingId,
    MainOpaquePass3d,
    MainTransmissivePass3d,
    MainTransparentPass3d,
    DepthOfField,
    Tonemapping,
    Upscaling,
}

/// A step of setting up the pipeline.
#[derive(Clone, Copy, Debug, PartialEq, Eq, Structural)]
pub enum BuildStep {
    RegisterType(ReflectedType),
    AddPlugin(SubPlugin),
    AddSystem { schedule: Schedule, system: System, set: Option<RenderSet> },
    /// Gives the renderer a place for the functions that draw the items of the phase.
    InitDrawFunctions(Phase),
    /// Gives the renderer a place for the phase of each view.
    InitPhases(Phase),
    /// Adds the sub graph of the pipeline.
    AddSubGraph,
    /// Adds a node to the sub graph.
    AddNode { label: Node3d, runner: NodeRunner },
    /// Makes a node of the sub graph run after another.
    AddEdge { from: Node3d, to: Node3d },
}

/// The steps for the app itself.
pub open spec fn app_steps() -> Seq<BuildStep> {
    seq![
        BuildStep::RegisterType(ReflectedType::Camera3d),
        BuildStep::RegisterType(ReflectedType::ScreenSpaceTransmissionQuality),
        BuildStep::AddPlugin(SubPlugin::Skybox),
        BuildStep::AddPlugin(SubPlugin::ExtractCamera3d),
        BuildStep::AddSystem {
            schedule: Schedule::PostUpdate,
            system: System::CheckMsaa,
            set: None,
        },
    ]
}

/// The steps that make places in the renderer: draw functions and phases of every kind.
pub open spec fn resource_steps() -> Seq<BuildStep> {
    seq![
        BuildStep::InitDrawFunctions(Phase::Opaque3d),
        BuildStep::InitDrawFunctions(Phase::AlphaMask3d),
        BuildStep::InitDrawFunctions(Phase::Transmissive3d),
        BuildStep::InitDrawFunctions(Phase::Transparent3d),
        BuildStep::InitDrawFunctions(Phase::Opaque3dPrepass),
        BuildStep::InitDrawFunctions(Phase::AlphaMask3dPrepass),
        BuildStep::InitDrawFunctions(Phase::Opaque3dDeferred),
        BuildStep::InitDrawFunctions(Phase::AlphaMask3dDeferred),
        BuildStep::InitPhases(Phase::Opaque3d),
        BuildStep::InitPhases(Phase::AlphaMask3d),
        BuildStep::InitPhases(Phase::Opaque3dPrepass),
        BuildStep::InitPhases(Phase::AlphaMask3dPrepass),
        BuildStep::InitPhases(Phase::Opaque3dDeferred),
        BuildStep::InitPhases(Phase::AlphaMask3dDeferred),
        BuildStep::InitPhases(Phase::Transmissive3d),
        BuildStep::InitPhases(Phase::Transparent3d),
    ]
}

/// The steps that add the systems of the renderer.
pub open spec fn system_steps() -> Seq<BuildStep> {
    seq![
        BuildStep::AddSystem {
            schedule: Schedule::Extract,
            system: System::ExtractCore3dCameraPhases,
            set: None,
        },
        BuildStep::AddSystem {
            schedule: Schedule::Extract,
            system: System::ExtractCameraPrepassPhase,
            set: None,
        },
        BuildStep::AddSystem {
            schedule: Schedule::Render,
            system: System::SortPhase(Phase::Transmissive3d),
            set: Some(RenderSet::PhaseSort),
        },
        BuildStep::AddSystem {
            schedule: Schedule::Render,
            system: System::SortPhase(Phase::Transparent3d),
            set: Some(RenderSet::PhaseSort),
        },
        BuildStep::AddSystem {
            schedule: Schedule::Render,
            system: System::PrepareCore3dDepthTextures,
            set: Some(RenderSet::PrepareResources),
        },
        BuildStep::AddSystem {
            schedule: Schedule::Render,
            system: System::PrepareCore3dTransmissionTextures,
            set: Some(RenderSet::PrepareResources),
        },
        BuildStep::AddSystem {
            schedule: Schedule::Render,
            system: System::PreparePrepassTextures,
            set: Some(RenderSet::PrepareResources),
        },
    ]
}

/// The steps that add the nodes of the sub graph.
pub open spec fn node_steps() -> Seq<BuildStep> {
    seq![
        BuildStep::AddNode { label: Node3d::Prepass, runner: NodeRunner::Prepass },
        BuildStep::AddNode {
            label: Node3d::DeferredPrepass,
            runner: NodeRunner::DeferredGBufferPrepass,
        },
        BuildStep::AddNode {
            label: Node3d::CopyDeferredLightingId,
            runner: NodeRunner::CopyDeferredLightingId,
        },
        BuildStep::AddNode { label: Node3d::EndPrepasses, runner: NodeRunner::Empty },
        BuildStep::AddNode { label: Node3d::StartMainPass, runner: NodeRunner::Empty },
        BuildStep::AddNode { label: Node3d::MainOpaquePass, runner: NodeRunner::MainOpaquePass3d },
        BuildStep::AddNode {
            label: Node3d::MainTransmissivePass,
            runner: NodeRunner::MainTransmissivePass3d,
        },
        BuildStep::AddNode {
            label: Node3d::MainTransparentPass,
            runner: NodeRunner::MainTransparentPass3d,
        },
        BuildStep::AddNode { label: Node3d::EndMainPass, runner: NodeRunner::Empty },
        BuildStep::AddNode { label: Node3d::DepthOfField, runner: NodeRunner::DepthOfField },
        BuildStep::AddNode { label: Node3d::Tonemapping, runner: NodeRunner::Tonemapping },
        BuildStep::AddNode { label: Node3d::EndMainPassPostProcessing, runner: NodeRunner::Empty },
        BuildStep::AddNode { label: Node3d::Upscaling, runner: NodeRunner::Upscaling },
    ]
}

/// The nodes that run one after the other.
pub open spec fn node_chain() -> Seq<Node3d> {
    seq![
        Node3d::Prepass,
        Node3d::DeferredPrepass,
        Node3d::CopyDeferredLightingId,
        Node3d::EndPrepasses,
        Node3d::StartMainPass,
        Node3d::MainOpaquePass,
        Node3d::MainTransmissivePass,
        Node3d::MainTransparentPass,
        Node3d::EndMainPass,
        Node3d::Tonemapping,
        Node3d::EndMainPassPostProcessing,
        Node3d::Upscaling,
    ]
}

/// The steps that make each node of a chain run after the one before it.
pub open spec fn edge_steps(chain: Seq<Node3d>) -> Seq<BuildStep>
    recommends
        chain.len() > 0,
{
    Seq::new(
        (chain.len() - 1) as nat,
        |i: int| BuildStep::AddEdge { from: chain[i], to: chain[i + 1] },
    )
}

/// The steps for the renderer.
pub open spec fn render_steps() -> Seq<BuildStep> {
    resource_steps() + system_steps() + seq![BuildStep::AddSubGraph] + node_steps() + edge_steps(
        node_chain(),
    )
}

/// The steps for the app itself.
fn list_app_steps() -> (all: Vec<BuildStep>)
    ensures
        all@ == app_steps(),
{
    vec![
        BuildStep::RegisterType(ReflectedType::Camera3d),
        BuildStep::RegisterType(ReflectedType::ScreenSpaceTransmissionQuality),
        BuildStep::AddPlugin(SubPlugin::Skybox),
        BuildStep::AddPlugin(SubPlugin::ExtractCamera3d),
        BuildStep::AddSystem {
            schedule: Schedule::PostUpdate,
            system: System::CheckMsaa,
            set: None,
        },
    ]
}

/// The steps that make places in the renderer.
fn list_resource_steps() -> (all: Vec<BuildStep>)
    ensures
        all@ == resource_steps(),
{
    vec![
        BuildStep::InitDrawFunctions(Phase::Opaque3d),
        BuildStep::InitDrawFunctions(Phase::AlphaMask3d),
        BuildStep::InitDrawFunctions(Phase::Transmissive3d),
        BuildStep::InitDrawFunctions(Phase::Transparent3d),
        BuildStep::InitDrawFunctions(Phase::Opaque3dPrepass),
        BuildStep::InitDrawFunctions(Phase::AlphaMask3dPrepass),
        BuildStep::InitDrawFunctions(Phase::Opaque3dDeferred),
        BuildStep::InitDrawFunctions(Phase::AlphaMask3dDeferred),
        BuildStep::InitPhases(Phase::Opaque3d),
        BuildStep::InitPhases(Phase::AlphaMask3d),
        BuildStep::InitPhases(Phase::Opaque3dPrepass),
        BuildStep::InitPhases(Phase::AlphaMask3dPrepass),
        BuildStep::InitPhases(Phase::Opaque3dDeferred),
        BuildStep::InitPhases(Phase::AlphaMask3dDeferred),
        BuildStep::InitPhases(Phase::Transmissive3d),
        BuildStep::InitPhases(Phase::Transparent3d),
    ]
}

/// The steps that add the systems of the renderer.
fn list_system_steps() -> (all: Vec<BuildStep>)
    ensures
        all@ == system_steps(),
{
    vec![
        BuildStep::AddSystem {
            schedule: Schedule::Extract,
            system: System::ExtractCore3dCameraPhases,
            set: None,
        },
        BuildStep::AddSystem {
            schedule: Schedule::Extract,
            system: System::ExtractCameraPrepassPhase,
            set: None,
        },
        BuildStep::AddSystem {
            schedule: Schedule::Render,
            system: System::SortPhase(Phase::Transmissive3d),
            set: Some(RenderSet::PhaseSort),
        },
        BuildStep::AddSystem {
            schedule: Schedule::Render,
            system: System::SortPhase(Phase::Transparent3d),
            set: Some(RenderSet::PhaseSort),
        },
        BuildStep::AddSystem {
            schedule: Schedule::Render,
            system: System::PrepareCore3dDepthTextures,
            set: Some(RenderSet::PrepareResources),
        },
        BuildStep::AddSystem {
            schedule: Schedule::Render,
            system: System::PrepareCore3dTransmissionTextures,
            set: Some(RenderSet::PrepareResources),
        },
        BuildStep::AddSystem {
            schedule: Schedule::Render,
            system: System::PreparePrepassTextures,
            set: Some(RenderSet::PrepareResources),
        },
    ]
}

/// The steps that add the nodes of the sub graph.
fn list_node_steps() -> (all: Vec<BuildStep>)
    ensures
        all@ == node_steps(),
{
    vec![
        BuildStep::AddNode { label: Node3d::Prepass, runner: NodeRunner::Prepass },
        BuildStep::AddNode {
            label: Node3d::DeferredPrepass,
            runner: NodeRunner::DeferredGBufferPrepass,
        },
        BuildStep::AddNode {
            label: Node3d::CopyDeferredLightingId,
            runner: NodeRunner::CopyDeferredLightingId,
        },
        BuildStep::AddNode { label: Node3d::EndPrepasses, runner: NodeRunner::Empty },
        BuildStep::AddNode { label: Node3d::StartMainPass, runner: NodeRunner::Empty },
        BuildStep::AddNode { label: Node3d::MainOpaquePass, runner: NodeRunner::MainOpaquePass3d },
        BuildStep::AddNode {
            label: Node3d::MainTransmissivePass,
            runner: NodeRunner::MainTransmissivePass3d,
        },
        BuildStep::AddNode {
            label: Node3d::MainTransparentPass,
            runner: NodeRunner::MainTransparentPass3d,
        },
        BuildStep::AddNode { label: Node3d::EndMainPass, runner: NodeRunner::Empty },
        BuildStep::AddNode { label: Node3d::DepthOfField, runner: NodeRunner::DepthOfField },
        BuildStep::AddNode { label: Node3d::Tonemapping, runner: NodeRunner::Tonemapping },
        BuildStep::AddNode { label: Node3d::EndMainPassPostProcessing, runner: NodeRunner::Empty },
        BuildStep::AddNode { label: Node3d::Upscaling, runner: NodeRunner::Upscaling },
    ]
}

/// The nodes that run one after the other.
fn list_node_chain() -> (all: Vec<Node3d>)
    ensures
        all@ == node_chain(),
{
    vec![
        Node3d::Prepass,
        Node3d::DeferredPrepass,
        Node3d::CopyDeferredLightingId,
        Node3d::EndPrepasses,
        Node3d::StartMainPass,
        Node3d::MainOpaquePass,
        Node3d::MainTransmissivePass,
        Node3d::MainTransparentPass,
        Node3d::EndMainPass,
        Node3d::Tonemapping,
        Node3d::EndMainPassPostProcessing,
        Node3d::Upscaling,
    ]
}

/// The steps that make each node of a chain run after the one before it.
fn list_edge_steps(chain: &Vec<Node3d>) -> (all: Vec<BuildStep>)
    requires
        chain@.len() > 0,
    ensures
        all@ == edge_steps(chain@),
{
    let mut all: Vec<BuildStep> = Vec::new();
    for i in 1..chain.len()
        invariant
            chain@.len() > 0,
            all@ == edge_steps(chain@.take(i as int)),
    {
        all.push(BuildStep::AddEdge { from: chain[i - 1], to: chain[i] });
        assert(all@ =~= edge_steps(chain@.take(i + 1)));
    }
    assert(chain@.take(chain@.len() as int) =~= chain@);
    all
}

/// The plugin that sets up the pipeline.
#[derive(Clone, Copy, Debug, PartialEq, Eq, Structural)]
pub struct Core3dPlugin;

impl Core3dPlugin {
    /// The steps that set up the pipeline, in order. Without a renderer there are only those
    /// for the app itself.
    pub fn build(&self, has_render_app: bool) -> (steps: Vec<BuildStep>)
        ensures
            steps@ == if has_render_app {
                app_steps() + render_steps()
            } else {
                app_steps()
            },
    {
        let mut steps = list_app_steps();
        if !has_render_app {
            return steps;
        }
        let mut resources = list_resource_steps();
        steps.append(&mut resources);
        let mut systems = list_system_steps();
        steps.append(&mut systems);
        steps.push(BuildStep::AddSubGraph);
        let mut nodes = list_node_steps();
        steps.append(&mut nodes);
        let mut edges = list_edge_steps(&list_node_chain());
        steps.append(&mut edges);
        assert(steps@ =~= app_steps() + render_steps());
        steps
    }
}

/// Every kind of phase has a place for its draw functions and one for the phases of the views,
/// and those whose items are sorted have a system that sorts them.
pub proof fn every_phase_is_set_up(phase: Phase)
    ensures
        render_steps().contains(BuildStep::InitDrawFunctions(phase)),
        render_steps().contains(BuildStep::InitPhases(phase)),
        phase is Transmissive3d || phase is Transparent3d ==> render_steps().contains(
            BuildStep::AddSystem {
                schedule: Schedule::Render,
                system: System::SortPhase(phase),
                set: Some(RenderSet::PhaseSort),
            },
        ),
{
    let (draw_functions, phases) = match phase {
        Phase::Opaque3d => (0int, 8int),
        Phase::AlphaMask3d => (1int, 9int),
        Phase::Transmissive3d => (2int, 14int),
        Phase::Transparent3d => (3int, 15int),
        Phase::Opaque3dPrepass => (4int, 10int),
        Phase::AlphaMask3dPrepass => (5int, 11int),
        Phase::Opaque3dDeferred => (6int, 12int),
        Phase::AlphaMask3dDeferred => (7int, 13int),
    };
    let steps = render_steps();
    assert(steps[draw_functions] == BuildStep::InitDrawFunctions(phase));
    assert(steps[phases] == BuildStep::InitPhases(phase));
    if phase is Transmissive3d {
        assert(steps[18] == system_steps()[2]);
    }
    if phase is Transparent3d {
        assert(steps[19] == system_steps()[3]);
    }
}

/// Every edge joins two nodes that are added before it, the first of which comes right before
/// the second in the chain.
pub proof fn edges_join_added_nodes(i: int, from: Node3d, to: Node3d)
    requires
        0 <= i < render_steps().len(),
        render_steps()[i] == (BuildStep::AddEdge { from, to }),
    ensures
        exists|k: int| 0 <= k < i && (#[trigger] render_steps()[k] matches BuildStep::AddNode {
            label,
            ..
        } && label == from),
        exists|k: int| 0 <= k < i && (#[trigger] render_steps()[k] matches BuildStep::AddNode {
            label,
            ..
        } && label == to),
        exists|k: int|
            0 <= k < node_chain().len() - 1 && #[trigger] node_chain()[k] == from && node_chain()[k
                + 1] == to,
{
    let steps = render_steps();
    let first_node = resource_steps().len() + system_steps().len() + 1;
    let first_edge = first_node + node_steps().len();
    assert(i >= first_edge) by {
        if i < first_edge {
            if i >= first_node {
                assert(steps[i] == node_steps()[i - first_node]);
            }
        }
    }
    let k = i - first_edge;
    assert(steps[i] == edge_steps(node_chain())[k]);
    assert(node_chain()[k] == from && node_chain()[k + 1] == to);
    let from_place = first_node + node_place(k);
    let to_place = first_node + node_place(k + 1);
    assert(steps[from_place] == node_steps()[node_place(k)]);
    assert(steps[to_place] == node_steps()[node_place(k + 1)]);
}

/// The place among the nodes of each node in the chain: all are in the chain, in order, but
/// depth of field.
spec fn node_place(k: int) -> int {
    if k < 9 {
        k
    } else {
        k + 1
    }
}

/// The chain has no node twice, so the edges make no cycle.
pub proof fn node_chain_has_no_cycle()
    ensures
        node_chain().no_duplicates(),
{
}

/// The steps that are taken, and no others. The app gets both types, both plugins and the check of
/// the multisampling. The renderer, if there is one, gets the draw functions and the phases of
/// every kind, systems that extract both sets of phases, sort the sorted ones and prepare the three
/// sets of textures, and a sub graph in which every node runs its own pass, one after the other:
/// the opaque pass before the transmissive one, and that before the transparent one.
pub proof fn build_takes_these_steps(has_render_app: bool, steps: Seq<BuildStep>, step: BuildStep)
    requires
        steps == if has_render_app {
            app_steps() + render_steps()
        } else {
            app_steps()
        },
    ensures
        steps.contains(step) <==> match step {
            BuildStep::RegisterType(_) => true,
            BuildStep::AddPlugin(_) => true,
            BuildStep::AddSystem { schedule, system, set } => match system {
                System::CheckMsaa => schedule == Schedule::PostUpdate && set is None,
                System::ExtractCore3dCameraPhases => has_render_app && schedule
                    == Schedule::Extract && set is None,
                System::ExtractCameraPrepassPhase => has_render_app && schedule
                    == Schedule::Extract && set is None,
                System::SortPhase(phase) => has_render_app && schedule == Schedule::Render && set
                    == Some(RenderSet::PhaseSort) && (phase == Phase::Transmissive3d || phase
                    == Phase::Transparent3d),
                System::PrepareCore3dDepthTextures => has_render_app && schedule
                    == Schedule::Render && set == Some(RenderSet::PrepareResources),
                System::PrepareCore3dTransmissionTextures => has_render_app && schedule
                    == Schedule::Render && set == Some(RenderSet::PrepareResources),
                System::PreparePrepassTextures => has_render_app && schedule == Schedule::Render
                    && set == Some(RenderSet::PrepareResources),
            },
            BuildStep::InitDrawFunctions(_) => has_render_app,
            BuildStep::InitPhases(_) => has_render_app,
            BuildStep::AddSubGraph => has_render_app,
            BuildStep::AddNode { label, runner } => has_render_app && match label {
                Node3d::Prepass => runner == NodeRunner::Prepass,
                Node3d::DeferredPrepass => runner == NodeRunner::DeferredGBufferPrepass,
                Node3d::CopyDeferredLightingId => runner == NodeRunner::CopyDeferredLightingId,
                Node3d::EndPrepasses => runner == NodeRunner::Empty,
                Node3d::StartMainPass => runner == NodeRunner::Empty,
                Node3d::MainOpaquePass => runner == NodeRunner::MainOpaquePass3d,
                Node3d::MainTransmissivePass => runner == NodeRunner::MainTransmissivePass3d,
                Node3d::MainTransparentPass => runner == NodeRunner::MainTransparentPass3d,
                Node3d::EndMainPass => runner == NodeRunner::Empty,
                Node3d::DepthOfField => runner == NodeRunner::DepthOfField,
                Node3d::Tonemapping => runner == NodeRunner::Tonemapping,
                Node3d::EndMainPassPostProcessing => runner == NodeRunner::Empty,
                Node3d::Upscaling => runner == NodeRunner::Upscaling,
                _ => false,
            },
            BuildStep::AddEdge { from, to } => has_render_app && match from {
                Node3d::Prepass => to == Node3d::DeferredPrepass,
                Node3d::DeferredPrepass => to == Node3d::CopyDeferredLightingId,
                Node3d::CopyDeferredLightingId => to == Node3d::EndPrepasses,
                Node3d::EndPrepasses => to == Node3d::StartMainPass,
                Node3d::StartMainPass => to == Node3d::MainOpaquePass,
                Node3d::MainOpaquePass => to == Node3d::MainTransmissivePass,
                Node3d::MainTransmissivePass => to == Node3d::MainTransparentPass,
                Node3d::MainTransparentPass => to == Node3d::EndMainPass,
                Node3d::EndMainPass => to == Node3d::Tonemapping,
                Node3d::Tonemapping => to == Node3d::EndMainPassPostProcessing,
                Node3d::EndMainPassPostProcessing => to == Node3d::Upscaling,
                _ => false,
            },
        },
{
    if steps.contains(step) {
        let i = steps.index_of(step);
        assert(steps[i] == step);
        step_at(has_render_app, steps, i);
    }
    let place = step_place(step);
    if 0 <= place < steps.len() {
        step_at(has_render_app, steps, place);
        assert(steps.contains(steps[place]));
    }
}

/// No step is taken twice.
pub proof fn build_takes_no_step_twice(has_render_app: bool, steps: Seq<BuildStep>)
    requires
        steps == if has_render_app {
            app_steps() + render_steps()
        } else {
            app_steps()
        },
    ensures
        steps.no_duplicates(),
{
    assert forall|i: int, j: int| 0 <= i < steps.len() && 0 <= j < steps.len() && i
        != j implies steps[i] != steps[j] by {
        step_at(has_render_app, steps, i);
        step_at(has_render_app, steps, j);
    }
}

/// The sub graph is added before its nodes, and all nodes before the edges between them.
pub proof fn build_adds_the_graph_in_order(
    has_render_app: bool,
    steps: Seq<BuildStep>,
    i: int,
    j: int,
)
    requires
        steps == if has_render_app {
            app_steps() + render_steps()
        } else {
            app_steps()
        },
        0 <= i < steps.len(),
        0 <= j < steps.len(),
    ensures
        steps[i] is AddSubGraph && steps[j] is AddNode ==> i < j,
        steps[i] is AddNode && steps[j] is AddEdge ==> i < j,
{
    step_at(has_render_app, steps, i);
    step_at(has_render_app, steps, j);
}

/// Each node has one runner, whichever step adds it.
pub proof fn nodes_have_one_runner(
    has_render_app: bool,
    steps: Seq<BuildStep>,
    i: int,
    j: int,
    label: Node3d,
    first: NodeRunner,
    second: NodeRunner,
)
    requires
        steps == if has_render_app {
            app_steps() + render_steps()
        } else {
            app_steps()
        },
        0 <= i < steps.len(),
        0 <= j < steps.len(),
        steps[i] == (BuildStep::AddNode { label, runner: first }),
        steps[j] == (BuildStep::AddNode { label, runner: second }),
    ensures
        i == j,
        first == second,
{
    step_at(has_render_app, steps, i);
    step_at(has_render_app, steps, j);
}

/// The node that runs the opaque pass comes right before the one that runs the transmissive pass,
/// and that right before the one that runs the transparent pass.
pub proof fn opaque_items_are_drawn_before_transparent_ones(
    steps: Seq<BuildStep>,
    opaque: Node3d,
    transmissive: Node3d,
    transparent: Node3d,
)
    requires
        steps == app_steps() + render_steps(),
        steps.contains(
            BuildStep::AddNode { label: opaque, runner: NodeRunner::MainOpaquePass3d },
        ),
        steps.contains(
            BuildStep::AddNode { label: transmissive, runner: NodeRunner::MainTransmissivePass3d },
        ),
        steps.contains(
            BuildStep::AddNode { label: transparent, runner: NodeRunner::MainTransparentPass3d },
        ),
    ensures
        steps.contains(BuildStep::AddEdge { from: opaque, to: transmissive }),
        steps.contains(BuildStep::AddEdge { from: transmissive, to: transparent }),
{
    build_takes_these_steps(
        true,
        steps,
        BuildStep::AddNode { label: opaque, runner: NodeRunner::MainOpaquePass3d },
    );
    build_takes_these_steps(
        true,
        steps,
        BuildStep::AddNode { label: transmissive, runner: NodeRunner::MainTransmissivePass3d },
    );
    build_takes_these_steps(
        true,
        steps,
        BuildStep::AddNode { label: transparent, runner: NodeRunner::MainTransparentPass3d },
    );
    build_takes_these_steps(true, steps, BuildStep::AddEdge { from: opaque, to: transmissive });
    build_takes_these_steps(
        true,
        steps,
        BuildStep::AddEdge { from: transmissive, to: transparent },
    );
}

/// The place of a step among all, going by its kind.
spec fn step_place(step: BuildStep) -> int {
    match step {
        BuildStep::RegisterType(ReflectedType::Camera3d) => 0,
        BuildStep::RegisterType(ReflectedType::ScreenSpaceTransmissionQuality) => 1,
        BuildStep::AddPlugin(SubPlugin::Skybox) => 2,
        BuildStep::AddPlugin(SubPlugin::ExtractCamera3d) => 3,
        BuildStep::InitDrawFunctions(phase) => match phase {
            Phase::Opaque3d => 5,
            Phase::AlphaMask3d => 6,
            Phase::Transmissive3d => 7,
            Phase::Transparent3d => 8,
            Phase::Opaque3dPrepass => 9,
            Phase::AlphaMask3dPrepass => 10,
            Phase::Opaque3dDeferred => 11,
            Phase::AlphaMask3dDeferred => 12,
        },
        BuildStep::InitPhases(phase) => match phase {
            Phase::Opaque3d => 13,
            Phase::AlphaMask3d => 14,
            Phase::Opaque3dPrepass => 15,
            Phase::AlphaMask3dPrepass => 16,
            Phase::Opaque3dDeferred => 17,
            Phase::AlphaMask3dDeferred => 18,
            Phase::Transmissive3d => 19,
            Phase::Transparent3d => 20,
        },
        BuildStep::AddSystem { system, .. } => match system {
            System::CheckMsaa => 4,
            System::ExtractCore3dCameraPhases => 21,
            System::ExtractCameraPrepassPhase => 22,
            System::SortPhase(phase) => if phase is Transmissive3d {
                23
            } else {
                24
            },
            System::PrepareCore3dDepthTextures => 25,
            System::PrepareCore3dTransmissionTextures => 26,
            System::PreparePrepassTextures => 27,
        },
        BuildStep::AddSubGraph => 28,
        BuildStep::AddNode { label, .. } => match label {
            Node3d::Prepass => 29,
            Node3d::DeferredPrepass => 30,
            Node3d::CopyDeferredLightingId => 31,
            Node3d::EndPrepasses => 32,
            Node3d::StartMainPass => 33,
            Node3d::MainOpaquePass => 34,
            Node3d::MainTransmissivePass => 35,
            Node3d::MainTransparentPass => 36,
            Node3d::EndMainPass => 37,
            Node3d::DepthOfField => 38,
            Node3d::Tonemapping => 39,
            Node3d::EndMainPassPostProcessing => 40,
            Node3d::Upscaling => 41,
            _ => -1,
        },
        BuildStep::AddEdge { from, .. } => match from {
            Node3d::Prepass => 42,
            Node3d::DeferredPrepass => 43,
            Node3d::CopyDeferredLightingId => 44,
            Node3d::EndPrepasses => 45,
            Node3d::StartMainPass => 46,
            Node3d::MainOpaquePass => 47,
            Node3d::MainTransmissivePass => 48,
            Node3d::MainTransparentPass => 49,
            Node3d::EndMainPass => 50,
            Node3d::Tonemapping => 51,
            Node3d::EndMainPassPostProcessing => 52,
            _ => -1,
        },
    }
}

/// Every step is at its place.
proof fn step_at(has_render_app: bool, steps: Seq<BuildStep>, i: int)
    requires
        steps == if has_render_app {
            app_steps() + render_steps()
        } else {
            app_steps()
        },
        0 <= i < steps.len(),
    ensures
        step_place(steps[i]) == i,
        steps.len() == if has_render_app {
            53int
        } else {
            5int
        },
        i < 5 ==> steps[i] == app_steps()[i],
        5 <= i < 21 ==> steps[i] == resource_steps()[i - 5],
        21 <= i < 28 ==> steps[i] == system_steps()[i - 21],
        i == 28 ==> steps[i] == BuildStep::AddSubGraph,
        29 <= i < 42 ==> steps[i] == node_steps()[i - 29],
        42 <= i ==> steps[i] == (BuildStep::AddEdge {
            from: node_chain()[i - 42],
            to: node_chain()[i - 41],
        }),
{
    if i < 5 {
        assert(steps[i] == app_steps()[i]);
    } else if i < 21 {
        assert(steps[i] == resource_steps()[i - 5]);
    } else if i < 28 {
        assert(steps[i] == system_steps()[i - 21]);
    } else if i == 28 {
        assert(steps[i] == BuildStep::AddSubGraph);
    } else if i < 42 {
        assert(steps[i] == node_steps()[i - 29]);
    } else {
        assert(steps[i] == edge_steps(node_chain())[i - 42]);
    }
}

} // verus!
