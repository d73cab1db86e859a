use core_3d::extract::Phase;
use core_3d::graph::input::VIEW_ENTITY;
use core_3d::graph::Node3d;
use core_3d::plugin::{
    BuildStep, Core3dPlugin, NodeRunner, ReflectedType, RenderSet, Schedule, SubPlugin, System,
};

fn app_steps() -> Vec<BuildStep> {
    vec![
        BuildStep::RegisterType(ReflectedType::Camera3d),
        BuildStep::RegisterType(ReflectedType::ScreenSpaceTransmissionQuality),
        BuildStep::AddPlugin(SubPlugin::Skybox),
        BuildStep::AddPlugin(SubPlugin::ExtractCamera3d),
        BuildStep::AddSystem {
            schedule: Schedule::PostUpdate,
            system: System::CheckMsaa,
            set: None,
        },
    ]
}

#[test]
fn without_a_renderer_only_the_app_is_set_up() {
    assert_eq!(Core3dPlugin.build(false), app_steps());
}

#[test]
fn with_a_renderer_the_app_is_set_up_first() {
    let steps = Core3dPlugin.build(true);
    assert_eq!(steps.len(), 5 + 16 + 7 + 1 + 13 + 11);
    assert_eq!(steps[..5], app_steps());
}

#[test]
fn every_phase_has_its_resources_once() {
    let steps = Core3dPlugin.build(true);
    for phase in [
        Phase::Opaque3d,
        Phase::AlphaMask3d,
        Phase::Transmissive3d,
        Phase::Transparent3d,
        Phase::Opaque3dPrepass,
        Phase::AlphaMask3dPrepass,
        Phase::Opaque3dDeferred,
        Phase::AlphaMask3dDeferred,
    ] {
        let count = |step: BuildStep| steps.iter().filter(|s| **s == step).count();
        assert_eq!(count(BuildStep::InitDrawFunctions(phase)), 1);
        assert_eq!(count(BuildStep::InitPhases(phase)), 1);
        let sorted = matches!(phase, Phase::Transmissive3d | Phase::Transparent3d);
        let sorting = BuildStep::AddSystem {
            schedule: Schedule::Render,
            system: System::SortPhase(phase),
            set: Some(RenderSet::PhaseSort),
        };
        assert_eq!(count(sorting), if sorted { 1 } else { 0 });
    }
}

#[test]
fn textures_are_prepared_with_the_other_resources() {
    let steps = Core3dPlugin.build(true);
    for system in [
        System::PrepareCore3dDepthTextures,
        System::PrepareCore3dTransmissionTextures,
        System::PreparePrepassTextures,
    ] {
        assert!(steps.contains(&BuildStep::AddSystem {
            schedule: Schedule::Render,
            system,
            set: Some(RenderSet::PrepareResources),
        }));
    }
    for system in [System::ExtractCore3dCameraPhases, System::ExtractCameraPrepassPhase] {
        assert!(steps.contains(&BuildStep::AddSystem {
            schedule: Schedule::Extract,
            system,
            set: None,
        }));
    }
}

#[test]
fn nodes_run_one_after_the_other() {
    let steps = Core3dPlugin.build(true);
    let edges: Vec<(Node3d, Node3d)> = steps
        .iter()
        .filter_map(|step| match step {
            BuildStep::AddEdge { from, to } => Some((*from, *to)),
            _ => None,
        })
        .collect();
    let chain = [
        Node3d::Prepass,
        Node3d::DeferredPrepass,
        Node3d::CopyDeferredLightingId,
        Node3d::EndPrepasses,
        Node3d::StartMainPass,
        Node3d::MainOpaquePass,
        Node3d::MainTransmissivePass,
        Node3d::MainTransparentPass,
        Node3d::EndMainPass,
        Node3d::Tonemapping,
        Node3d::EndMainPassPostProcessing,
        Node3d::Upscaling,
    ];
    let expected: Vec<(Node3d, Node3d)> =
        chain.windows(2).map(|pair| (pair[0], pair[1])).collect();
    assert_eq!(edges, expected);
    assert!(steps.contains(&BuildStep::AddNode {
        label: Node3d::DepthOfField,
        runner: NodeRunner::DepthOfField,
    }));
    for label in chain {
        assert!(steps
            .iter()
            .any(|step| matches!(step, BuildStep::AddNode { label: l, .. } if *l == label)));
    }
    assert_eq!(VIEW_ENTITY, "view_entity");
}
