use bevy_ecs::entity::{Entity, EntityHashSet};
use core_3d::depth_textures::{depth_usages_known, Camera3dDepthLoadOp, DepthView};
use core_3d::extract::{
    extract_core_3d_camera_phases, CameraView, Phase, PhaseCommand, Prepasses,
};
use core_3d::extract_prepass::{extract_camera_prepass_phase, PrepassCameraView};
use core_3d::prepass_textures::{prepare_prepass_textures, PrepassView};
use core_3d::texture::{RenderTargetId, TextureUsages, UVec2};
use core_3d::view::{GpuPreprocessingMode, GpuPreprocessingSupport, Msaa, ViewEntity};

fn view(index: u32) -> ViewEntity {
    ViewEntity::try_from_bits(Entity::from_raw(index).to_bits()).unwrap()
}

fn camera(index: u32, is_active: bool, no_indirect_drawing: bool) -> CameraView {
    CameraView { entity: view(index), is_active, no_indirect_drawing }
}

const FULL: GpuPreprocessingSupport =
    GpuPreprocessingSupport { max_supported_mode: GpuPreprocessingMode::Culling };

fn insert(phase: Phase, index: u32, mode: Option<GpuPreprocessingMode>) -> PhaseCommand {
    PhaseCommand::InsertOrClear { phase, view: view(index), mode }
}

fn remove(phase: Phase, index: u32) -> PhaseCommand {
    PhaseCommand::Remove { phase, view: view(index) }
}

fn retain(phase: Phase) -> PhaseCommand {
    PhaseCommand::RetainLive { phase }
}

fn prepasses(depth: bool, normal: bool, motion_vector: bool, deferred: bool) -> Prepasses {
    Prepasses {
        depth_prepass: depth,
        normal_prepass: normal,
        motion_vector_prepass: motion_vector,
        deferred_prepass: deferred,
    }
}

#[test]
fn active_cameras_get_empty_phases() {
    let mut live = EntityHashSet::default();
    live.insert(Entity::from_raw(9));
    let cameras = vec![camera(1, true, false), camera(2, false, false), camera(3, true, true)];
    let commands = extract_core_3d_camera_phases(&cameras, &mut live, &FULL);
    let culling = Some(GpuPreprocessingMode::Culling);
    let preprocessing = Some(GpuPreprocessingMode::PreprocessingOnly);
    assert_eq!(
        commands,
        vec![
            insert(Phase::Opaque3d, 1, culling),
            insert(Phase::AlphaMask3d, 1, culling),
            insert(Phase::Transmissive3d, 1, None),
            insert(Phase::Transparent3d, 1, None),
            insert(Phase::Opaque3d, 3, preprocessing),
            insert(Phase::AlphaMask3d, 3, preprocessing),
            insert(Phase::Transmissive3d, 3, None),
            insert(Phase::Transparent3d, 3, None),
            retain(Phase::Opaque3d),
            retain(Phase::AlphaMask3d),
            retain(Phase::Transmissive3d),
            retain(Phase::Transparent3d),
        ]
    );
    assert_eq!(live.len(), 2);
    assert!(live.contains(&Entity::from_raw(1)));
    assert!(live.contains(&Entity::from_raw(3)));
}

#[test]
fn without_cameras_nothing_stays_live() {
    let mut live = EntityHashSet::default();
    live.insert(Entity::from_raw(4));
    let commands = extract_core_3d_camera_phases(&Vec::new(), &mut live, &FULL);
    assert_eq!(commands.len(), 4);
    assert!(commands.iter().all(|c| matches!(c, PhaseCommand::RetainLive { .. })));
    assert!(live.is_empty());
}

#[test]
fn prepasses_decide_the_prepass_phases() {
    let mut live = EntityHashSet::default();
    live.insert(Entity::from_raw(9));
    let support = GpuPreprocessingSupport {
        max_supported_mode: GpuPreprocessingMode::PreprocessingOnly,
    };
    let cameras = vec![
        PrepassCameraView {
            entity: view(1),
            is_active: true,
            no_indirect_drawing: false,
            prepasses: prepasses(false, true, false, false),
        },
        PrepassCameraView {
            entity: view(2),
            is_active: false,
            no_indirect_drawing: false,
            prepasses: prepasses(true, true, true, true),
        },
        PrepassCameraView {
            entity: view(3),
            is_active: true,
            no_indirect_drawing: false,
            prepasses: prepasses(false, false, false, true),
        },
    ];
    let commands = extract_camera_prepass_phase(&cameras, &mut live, &support);
    let mode = Some(GpuPreprocessingMode::PreprocessingOnly);
    assert_eq!(
        commands,
        vec![
            insert(Phase::Opaque3dPrepass, 1, mode),
            insert(Phase::AlphaMask3dPrepass, 1, mode),
            remove(Phase::Opaque3dDeferred, 1),
            remove(Phase::AlphaMask3dDeferred, 1),
            PhaseCommand::InsertPrepasses {
                view: view(1),
                prepasses: prepasses(false, true, false, false),
            },
            remove(Phase::Opaque3dPrepass, 3),
            remove(Phase::AlphaMask3dPrepass, 3),
            insert(Phase::Opaque3dDeferred, 3, mode),
            insert(Phase::AlphaMask3dDeferred, 3, mode),
            PhaseCommand::InsertPrepasses {
                view: view(3),
                prepasses: prepasses(false, false, false, true),
            },
            retain(Phase::Opaque3dPrepass),
            retain(Phase::AlphaMask3dPrepass),
            retain(Phase::Opaque3dDeferred),
            retain(Phase::AlphaMask3dDeferred),
        ]
    );
    assert_eq!(live.len(), 2);
    assert!(live.contains(&Entity::from_raw(1)));
    assert!(live.contains(&Entity::from_raw(3)));
}

#[test]
fn each_forward_prepass_alone_is_enough() {
    for flags in [
        prepasses(true, false, false, false),
        prepasses(false, true, false, false),
        prepasses(false, false, true, false),
    ] {
        let mut live = EntityHashSet::default();
        let cameras = vec![PrepassCameraView {
            entity: view(5),
            is_active: true,
            no_indirect_drawing: true,
            prepasses: flags,
        }];
        let commands = extract_camera_prepass_phase(&cameras, &mut live, &FULL);
        let mode = Some(GpuPreprocessingMode::PreprocessingOnly);
        assert_eq!(commands[0], insert(Phase::Opaque3dPrepass, 5, mode));
        assert_eq!(commands[1], insert(Phase::AlphaMask3dPrepass, 5, mode));
        assert_eq!(commands[2], remove(Phase::Opaque3dDeferred, 5));
    }
    let mut live = EntityHashSet::default();
    let cameras = vec![PrepassCameraView {
        entity: view(5),
        is_active: true,
        no_indirect_drawing: true,
        prepasses: prepasses(false, false, false, false),
    }];
    let commands = extract_camera_prepass_phase(&cameras, &mut live, &FULL);
    assert_eq!(commands[0], remove(Phase::Opaque3dPrepass, 5));
    assert_eq!(commands[3], remove(Phase::AlphaMask3dDeferred, 5));
    assert!(live.contains(&Entity::from_raw(5)));
}

/// Performs the commands on phases that are known only by their kind and view.
fn perform(commands: &[PhaseCommand], live: &EntityHashSet, phases: &mut Vec<(Phase, ViewEntity)>) {
    for command in commands {
        match *command {
            PhaseCommand::InsertOrClear { phase, view, .. } => {
                if !phases.contains(&(phase, view)) {
                    phases.push((phase, view));
                }
            }
            PhaseCommand::Remove { phase, view } => phases.retain(|p| *p != (phase, view)),
            PhaseCommand::RetainLive { phase } => phases.retain(|p| {
                p.0 != phase || live.contains(&Entity::from_bits(p.1.to_bits()))
            }),
            PhaseCommand::InsertPrepasses { .. } => (),
        }
    }
}

fn depth_view(phases: &[(Phase, ViewEntity)], index: u32, target: u64, sized: bool) -> DepthView {
    let entity = view(index);
    DepthView {
        entity,
        target: RenderTargetId { id: target },
        physical_target_size: if sized { Some(UVec2 { x: 8, y: 8 }) } else { None },
        depth_prepass: false,
        depth_texture_usages: TextureUsages { bits: TextureUsages::RENDER_ATTACHMENT },
        depth_load_op: Camera3dDepthLoadOp::Load,
        msaa: Msaa::Off,
        has_opaque_3d_phase: phases.contains(&(Phase::Opaque3d, entity)),
        has_alpha_mask_3d_phase: phases.contains(&(Phase::AlphaMask3d, entity)),
        has_transmissive_3d_phase: phases.contains(&(Phase::Transmissive3d, entity)),
        has_transparent_3d_phase: phases.contains(&(Phase::Transparent3d, entity)),
    }
}

#[test]
fn extraction_comes_before_depth_textures() {
    let mut live = EntityHashSet::default();
    let mut phases = vec![(Phase::Opaque3d, view(7)), (Phase::Opaque3dPrepass, view(7))];
    let cameras = vec![camera(1, true, false), camera(2, false, false), camera(3, true, false)];
    let commands = extract_core_3d_camera_phases(&cameras, &mut live, &FULL);
    perform(&commands, &live, &mut phases);
    // Four phases for each of two views, and the prepass phase that was there.
    assert_eq!(phases.len(), 9);
    assert!(phases.contains(&(Phase::Opaque3dPrepass, view(7))));
    assert!(!phases.contains(&(Phase::Opaque3d, view(7))));
    let views = vec![
        depth_view(&phases, 1, 100, true),
        depth_view(&phases, 2, 200, false),
        depth_view(&phases, 3, 300, true),
    ];
    assert!(depth_usages_known(&views));
    let views = vec![depth_view(&phases, 1, 100, true), depth_view(&phases, 2, 200, true)];
    assert!(!depth_usages_known(&views));
}

#[test]
fn extraction_comes_before_prepass_textures() {
    let mut live = EntityHashSet::default();
    let mut phases = vec![
        (Phase::Opaque3dDeferred, view(1)),
        (Phase::AlphaMask3dPrepass, view(2)),
        (Phase::AlphaMask3dPrepass, view(9)),
        (Phase::Transparent3d, view(9)),
    ];
    let all_prepasses = [
        prepasses(true, false, false, false),
        prepasses(false, false, false, false),
        prepasses(false, false, false, true),
    ];
    let cameras: Vec<PrepassCameraView> = all_prepasses
        .iter()
        .enumerate()
        .map(|(i, prepasses)| PrepassCameraView {
            entity: view(i as u32 + 1),
            is_active: true,
            no_indirect_drawing: false,
            prepasses: *prepasses,
        })
        .collect();
    let commands = extract_camera_prepass_phase(&cameras, &mut live, &FULL);
    perform(&commands, &live, &mut phases);
    let has = |phase: Phase, index: u32| phases.contains(&(phase, view(index)));
    assert_eq!(phases.len(), 5);
    assert!(has(Phase::Opaque3dPrepass, 1) && has(Phase::AlphaMask3dPrepass, 1));
    assert!(has(Phase::Opaque3dDeferred, 3) && has(Phase::AlphaMask3dDeferred, 3));
    assert!(has(Phase::Transparent3d, 9));
    let views: Vec<PrepassView> = all_prepasses
        .iter()
        .zip([1u32, 2, 3])
        .map(|(prepasses, index)| PrepassView {
            entity: view(index),
            target: RenderTargetId { id: 5 },
            physical_target_size: Some(UVec2 { x: 8, y: 8 }),
            msaa: Msaa::Off,
            depth_prepass: prepasses.depth_prepass,
            normal_prepass: prepasses.normal_prepass,
            motion_vector_prepass: prepasses.motion_vector_prepass,
            deferred_prepass: prepasses.deferred_prepass,
            has_opaque_3d_prepass_phase: has(Phase::Opaque3dPrepass, index),
            has_alpha_mask_3d_prepass_phase: has(Phase::AlphaMask3dPrepass, index),
            has_opaque_3d_deferred_phase: has(Phase::Opaque3dDeferred, index),
            has_alpha_mask_3d_deferred_phase: has(Phase::AlphaMask3dDeferred, index),
        })
        .collect();
    let plan = prepare_prepass_textures(&views);
    let served: Vec<ViewEntity> = plan.views.iter().map(|v| v.entity).collect();
    assert_eq!(served, vec![view(1), view(3)]);
    assert_eq!(plan.textures.len(), 3);
}
