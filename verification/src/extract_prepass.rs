//! Which views have which render phases of the prepass, from the cameras of a frame.

use bevy_ecs::entity::EntityHashSet;
use vstd::prelude::*;

use crate::extract::{
    gpu_preprocessing_mode, run, run_add, view_mode, Phase, PhaseCommand, Phases, Prepasses,
};
use crate::view::{
    clear_entities, entity_bits, insert_entity, GpuPreprocessingMode, GpuPreprocessingSupport,
    ViewEntity,
};

verus! {

/// A camera, as far as the phases of the prepass depend on it.
#[derive(Clone, Copy, Debug, PartialEq, Eq, Structural)]
pub struct PrepassCameraView {
    pub entity: ViewEntity,
    pub is_active: bool,
    /// Whether indirect drawing is switched off for the camera.
    pub no_indirect_drawing: bool,
    pub prepasses: Prepasses,
}

/// Whether the view is that of an active camera.
pub open spec fn is_active_prepass_view(cameras: Seq<PrepassCameraView>, view: u64) -> bool {
    exists|i: int|
        0 <= i < cameras.len() && (#[trigger] cameras[i]).is_active && cameras[i].entity@ == view
}

/// The bits of the views of the active cameras.
pub open spec fn active_prepass_views(cameras: Seq<PrepassCameraView>) -> Set<u64> {
    Set::new(|view: u64| is_active_prepass_view(cameras, view))
}

/// A phase starts empty where it is wanted; elsewhere it is dropped.
pub open spec fn spec_phase_command(
    phase: Phase,
    wanted: bool,
    view: ViewEntity,
    mode: GpuPreprocessingMode,
) -> PhaseCommand {
    if wanted {
        PhaseCommand::InsertOrClear { phase, view, mode: Some(mode) }
    } else {
        PhaseCommand::Remove { phase, view }
    }
}

/// A phase starts empty where it is wanted; elsewhere it is dropped.
fn phase_command(
    phase: Phase,
    wanted: bool,
    view: ViewEntity,
    mode: GpuPreprocessingMode,
) -> (command: PhaseCommand)
    ensures
        command == spec_phase_command(phase, wanted, view, mode),
{
    if wanted {
        PhaseCommand::InsertOrClear { phase, view, mode: Some(mode) }
    } else {
        PhaseCommand::Remove { phase, view }
    }
}

/// The commands for an active camera: the prepass phases for a prepass besides the deferred
/// one, the deferred phases for the deferred one, and the marks on the view.
pub open spec fn prepass_camera_commands(
    camera: PrepassCameraView,
    support: GpuPreprocessingSupport,
) -> Seq<PhaseCommand> {
    let view = camera.entity;
    let mode = view_mode(support, camera.no_indirect_drawing);
    let forward = camera.prepasses.forward();
    let deferred = camera.prepasses.deferred_prepass;
    seq![
        spec_phase_command(Phase::Opaque3dPrepass, forward, view, mode),
        spec_phase_command(Phase::AlphaMask3dPrepass, forward, view, mode),
        spec_phase_command(Phase::Opaque3dDeferred, deferred, view, mode),
        spec_phase_command(Phase::AlphaMask3dDeferred, deferred, view, mode),
        PhaseCommand::InsertPrepasses { view, prepasses: camera.prepasses },
    ]
}

/// The commands for the cameras, one camera after the other. Inactive cameras have none.
pub open spec fn prepass_cameras_commands(
    cameras: Seq<PrepassCameraView>,
    support: GpuPreprocessingSupport,
) -> Seq<PhaseCommand>
    decreases cameras.len(),
{
    if cameras.len() == 0 {
        Seq::empty()
    } else {
        let before = prepass_cameras_commands(cameras.drop_last(), support);
        if cameras.last().is_active {
            before + prepass_camera_commands(cameras.last(), support)
        } else {
            before
        }
    }
}

/// The commands that drop the phases of the prepass of views that are not live.
pub open spec fn prepass_retain_commands() -> Seq<PhaseCommand> {
    seq![
        PhaseCommand::RetainLive { phase: Phase::Opaque3dPrepass },
        PhaseCommand::RetainLive { phase: Phase::AlphaMask3dPrepass },
        PhaseCommand::RetainLive { phase: Phase::Opaque3dDeferred },
        PhaseCommand::RetainLive { phase: Phase::AlphaMask3dDeferred },
    ]
}

/// Gives each view of an active camera empty phases for its prepasses, marks the view with
/// them, and drops all other phases of the prepass. The live views are then those of the active
/// cameras.
pub fn extract_camera_prepass_phase(
    cameras_3d: &Vec<PrepassCameraView>,
    live_entities: &mut EntityHashSet,
    gpu_preprocessing_support: &GpuPreprocessingSupport,
) -> (commands: Vec<PhaseCommand>)
    ensures
        commands@ == prepass_cameras_commands(cameras_3d@, *gpu_preprocessing_support)
            + prepass_retain_commands(),
        entity_bits(*final(live_entities)) == active_prepass_views(cameras_3d@),
        forall|view: u64| #[trigger]
            entity_bits(*final(live_entities)).contains(view) <==> exists|i: int|
                0 <= i < cameras_3d@.len() && (#[trigger] cameras_3d@[i]).is_active
                    && cameras_3d@[i].entity@ == view,
{
    clear_entities(live_entities);
    let mut commands: Vec<PhaseCommand> = Vec::new();
    assert(entity_bits(*live_entities) =~= active_prepass_views(cameras_3d@.take(0)));
    for i in 0..cameras_3d.len()
        invariant
            commands@ == prepass_cameras_commands(
                cameras_3d@.take(i as int),
                *gpu_preprocessing_support,
            ),
            entity_bits(*live_entities) == active_prepass_views(cameras_3d@.take(i as int)),
    {
        let camera = cameras_3d[i];
        let ghost before = cameras_3d@.take(i as int);
        let ghost now = cameras_3d@.take(i + 1);
        assert(now.drop_last() =~= before);
        let ghost done = commands@;
        if camera.is_active {
            let view = camera.entity;
            let mode = gpu_preprocessing_mode(
                gpu_preprocessing_support,
                camera.no_indirect_drawing,
            );
            let prepasses = camera.prepasses;
            let forward = prepasses.depth_prepass || prepasses.normal_prepass
                || prepasses.motion_vector_prepass;
            let deferred = prepasses.deferred_prepass;
            commands.push(phase_command(Phase::Opaque3dPrepass, forward, view, mode));
            commands.push(phase_command(Phase::AlphaMask3dPrepass, forward, view, mode));
            commands.push(phase_command(Phase::Opaque3dDeferred, deferred, view, mode));
            commands.push(phase_command(Phase::AlphaMask3dDeferred, deferred, view, mode));
            insert_entity(live_entities, view.to_bits());
            commands.push(PhaseCommand::InsertPrepasses { view, prepasses });
            assert(commands@ =~= done + prepass_camera_commands(
                camera,
                *gpu_preprocessing_support,
            ));
        }
        assert(entity_bits(*live_entities) =~= active_prepass_views(now)) by {
            active_prepass_views_push(before, camera);
            assert(before.push(camera) =~= now);
        }
    }
    assert(cameras_3d@.take(cameras_3d@.len() as int) =~= cameras_3d@);
    let ghost done = commands@;
    commands.push(PhaseCommand::RetainLive { phase: Phase::Opaque3dPrepass });
    commands.push(PhaseCommand::RetainLive { phase: Phase::AlphaMask3dPrepass });
    commands.push(PhaseCommand::RetainLive { phase: Phase::Opaque3dDeferred });
    commands.push(PhaseCommand::RetainLive { phase: Phase::AlphaMask3dDeferred });
    assert(commands@ =~= done + prepass_retain_commands());
    commands
}

/// One more camera.
proof fn active_prepass_views_push(cameras: Seq<PrepassCameraView>, camera: PrepassCameraView)
    ensures
        active_prepass_views(cameras.push(camera)) == if camera.is_active {
            active_prepass_views(cameras).insert(camera.entity@)
        } else {
            active_prepass_views(cameras)
        },
{
    let now = cameras.push(camera);
    assert forall|view: u64|
        is_active_prepass_view(now, view) <==> is_active_prepass_view(cameras, view)
            || camera.is_active && camera.entity@ == view by {
        if is_active_prepass_view(cameras, view) {
            let i = choose|i: int|
                0 <= i < cameras.len() && (#[trigger] cameras[i]).is_active
                    && cameras[i].entity@ == view;
            assert(now[i] == cameras[i]);
        }
        if camera.is_active && camera.entity@ == view {
            assert(now[cameras.len() as int] == camera);
        }
        if is_active_prepass_view(now, view) {
            let i = choose|i: int|
                0 <= i < now.len() && (#[trigger] now[i]).is_active && now[i].entity@ == view;
            if i < cameras.len() {
                assert(now[i] == cameras[i]);
            }
        }
    }
    assert(active_prepass_views(now) =~= if camera.is_active {
        active_prepass_views(cameras).insert(camera.entity@)
    } else {
        active_prepass_views(cameras)
    });
}

/// The commands of the active cameras come first, in the order of the cameras, five for each: the
/// prepass phases of its view start empty if it has a depth, normal or motion vector prepass, the
/// deferred ones if it has a deferred prepass, and are dropped otherwise; then the view is marked
/// with the camera's own prepasses. After them come those that drop the phases of views that are
/// not live. There are no other commands.
pub proof fn prepass_extraction_commands_follow_the_cameras(
    cameras: Seq<PrepassCameraView>,
    support: GpuPreprocessingSupport,
    commands: Seq<PhaseCommand>,
)
    requires
        commands == prepass_cameras_commands(cameras, support) + prepass_retain_commands(),
    ensures
        ({
            let active = cameras.filter(|camera: PrepassCameraView| camera.is_active);
            let n = active.len() as int;
            let mode = |camera: PrepassCameraView|
                match support.max_supported_mode {
                    GpuPreprocessingMode::Disabled => Some(GpuPreprocessingMode::Disabled),
                    GpuPreprocessingMode::PreprocessingOnly => Some(
                        GpuPreprocessingMode::PreprocessingOnly,
                    ),
                    GpuPreprocessingMode::Culling => if camera.no_indirect_drawing {
                        Some(GpuPreprocessingMode::PreprocessingOnly)
                    } else {
                        Some(GpuPreprocessingMode::Culling)
                    },
                };
            &&& commands.len() == 5 * n + 4
            &&& forall|k: int|
                #![trigger active[k]]
                0 <= k < n ==> {
                    let view = active[k].entity;
                    let flags = active[k].prepasses;
                    let binned = mode(active[k]);
                    &&& commands[5 * k] == if flags.depth_prepass || flags.normal_prepass
                        || flags.motion_vector_prepass {
                        PhaseCommand::InsertOrClear { phase: Phase::Opaque3dPrepass, view, mode: binned }
                    } else {
                        PhaseCommand::Remove { phase: Phase::Opaque3dPrepass, view }
                    }
                    &&& commands[5 * k + 1] == if flags.depth_prepass || flags.normal_prepass
                        || flags.motion_vector_prepass {
                        PhaseCommand::InsertOrClear { phase: Phase::AlphaMask3dPrepass, view, mode: binned }
                    } else {
                        PhaseCommand::Remove { phase: Phase::AlphaMask3dPrepass, view }
                    }
                    &&& commands[5 * k + 2] == if flags.deferred_prepass {
                        PhaseCommand::InsertOrClear { phase: Phase::Opaque3dDeferred, view, mode: binned }
                    } else {
                        PhaseCommand::Remove { phase: Phase::Opaque3dDeferred, view }
                    }
                    &&& commands[5 * k + 3] == if flags.deferred_prepass {
                        PhaseCommand::InsertOrClear { phase: Phase::AlphaMask3dDeferred, view, mode: binned }
                    } else {
                        PhaseCommand::Remove { phase: Phase::AlphaMask3dDeferred, view }
                    }
                    &&& commands[5 * k + 4] == PhaseCommand::InsertPrepasses {
                        view,
                        prepasses: flags,
                    }
                }
            &&& commands[5 * n] == PhaseCommand::RetainLive { phase: Phase::Opaque3dPrepass }
            &&& commands[5 * n + 1] == PhaseCommand::RetainLive {
                phase: Phase::AlphaMask3dPrepass,
            }
            &&& commands[5 * n + 2] == PhaseCommand::RetainLive { phase: Phase::Opaque3dDeferred }
            &&& commands[5 * n + 3] == PhaseCommand::RetainLive {
                phase: Phase::AlphaMask3dDeferred,
            }
        }),
    decreases cameras.len(),
{
    reveal(Seq::filter);
    let active = cameras.filter(|camera: PrepassCameraView| camera.is_active);
    if cameras.len() > 0 {
        let earlier = cameras.drop_last();
        let before = earlier.filter(|camera: PrepassCameraView| camera.is_active);
        let done = prepass_cameras_commands(earlier, support) + prepass_retain_commands();
        prepass_extraction_commands_follow_the_cameras(earlier, support, done);
        assert forall|k: int| #![trigger active[k]] 0 <= k < before.len() implies {
            &&& commands[5 * k] == done[5 * k]
            &&& commands[5 * k + 1] == done[5 * k + 1]
            &&& commands[5 * k + 2] == done[5 * k + 2]
            &&& commands[5 * k + 3] == done[5 * k + 3]
            &&& commands[5 * k + 4] == done[5 * k + 4]
            &&& active[k] == before[k]
        } by {}
    }
}

/// The view of every active camera is marked with the camera's own prepasses, each as the camera's
/// flag of that name says.
pub proof fn active_cameras_mark_their_views(
    cameras: Seq<PrepassCameraView>,
    support: GpuPreprocessingSupport,
    commands: Seq<PhaseCommand>,
    i: int,
) -> (place: int)
    requires
        commands == prepass_cameras_commands(cameras, support) + prepass_retain_commands(),
        0 <= i < cameras.len(),
        cameras[i].is_active,
    ensures
        0 <= place < commands.len(),
        commands[place] matches PhaseCommand::InsertPrepasses { view, prepasses } && view
            == cameras[i].entity && prepasses.depth_prepass == cameras[i].prepasses.depth_prepass
            && prepasses.normal_prepass == cameras[i].prepasses.normal_prepass
            && prepasses.motion_vector_prepass == cameras[i].prepasses.motion_vector_prepass
            && prepasses.deferred_prepass == cameras[i].prepasses.deferred_prepass,
{
    let is_active = |camera: PrepassCameraView| camera.is_active;
    let active = cameras.filter(is_active);
    prepass_extraction_commands_follow_the_cameras(cameras, support, commands);
    cameras.lemma_filter_contains(is_active, i);
    let k = active.index_of(cameras[i]);
    assert(active[k] == cameras[i]);
    5 * k + 4
}

/// A view is marked only by an active camera of that view, and with that camera's own prepasses.
pub proof fn marks_come_from_active_cameras(
    cameras: Seq<PrepassCameraView>,
    support: GpuPreprocessingSupport,
    commands: Seq<PhaseCommand>,
    place: int,
    view: ViewEntity,
    prepasses: Prepasses,
) -> (i: int)
    requires
        commands == prepass_cameras_commands(cameras, support) + prepass_retain_commands(),
        0 <= place < commands.len(),
        commands[place] == (PhaseCommand::InsertPrepasses { view, prepasses }),
    ensures
        0 <= i < cameras.len(),
        cameras[i].is_active,
        cameras[i].entity == view,
        cameras[i].prepasses.depth_prepass == prepasses.depth_prepass,
        cameras[i].prepasses.normal_prepass == prepasses.normal_prepass,
        cameras[i].prepasses.motion_vector_prepass == prepasses.motion_vector_prepass,
        cameras[i].prepasses.deferred_prepass == prepasses.deferred_prepass,
{
    let is_active = |camera: PrepassCameraView| camera.is_active;
    let active = cameras.filter(is_active);
    prepass_extraction_commands_follow_the_cameras(cameras, support, commands);
    let k = place / 5;
    let n = active.len() as int;
    if place >= 5 * n {
        assert(place == 5 * n || place == 5 * n + 1 || place == 5 * n + 2 || place == 5 * n + 3);
    }
    assert(0 <= k < n);
    let camera = active[k];
    assert(place == 5 * k || place == 5 * k + 1 || place == 5 * k + 2 || place == 5 * k + 3
        || place == 5 * k + 4);
    cameras.lemma_filter_pred(is_active, k);
    cameras.lemma_filter_contains_rev(is_active, camera);
    cameras.index_of(camera)
}

/// Whether the phase is one of the prepass, the deferred one or another.
pub open spec fn is_prepass(phase: Phase) -> bool {
    is_forward_prepass(phase) || is_deferred_prepass(phase)
}

/// Whether the phase is one of a prepass besides the deferred one.
pub open spec fn is_forward_prepass(phase: Phase) -> bool {
    phase is Opaque3dPrepass || phase is AlphaMask3dPrepass
}

/// Whether the phase is one of the deferred prepass.
pub open spec fn is_deferred_prepass(phase: Phase) -> bool {
    phase is Opaque3dDeferred || phase is AlphaMask3dDeferred
}

/// Whether the camera wants the phase of the prepass.
pub open spec fn wants_phase(camera: PrepassCameraView, phase: Phase) -> bool {
    if is_forward_prepass(phase) {
        camera.prepasses.forward()
    } else {
        camera.prepasses.deferred_prepass
    }
}

/// Whether the camera is active, and no active camera after it has its view.
pub open spec fn is_last_of_view(cameras: Seq<PrepassCameraView>, i: int) -> bool {
    &&& 0 <= i < cameras.len()
    &&& cameras[i].is_active
    &&& forall|j: int|
        i < j < cameras.len() && (#[trigger] cameras[j]).is_active ==> cameras[j].entity@
            != cameras[i].entity@
}

/// What the commands for one camera do.
proof fn run_prepass_camera_commands(
    camera: PrepassCameraView,
    support: GpuPreprocessingSupport,
    phases: Phases,
    live: Set<u64>,
    phase: Phase,
)
    ensures
        ({
            let after = run(prepass_camera_commands(camera, support), phases, live)[phase];
            let mode = view_mode(support, camera.no_indirect_drawing);
            after == if is_prepass(phase) {
                spec_phase_command(phase, wants_phase(camera, phase), camera.entity, mode).apply(
                    phases,
                    live,
                )[phase]
            } else {
                phases[phase]
            }
        }),
{
    let commands = prepass_camera_commands(camera, support);
    reveal_with_fuel(run, 6);
    assert(commands.drop_last() =~= seq![commands[0], commands[1], commands[2], commands[3]]);
    assert(commands.drop_last().drop_last() =~= seq![commands[0], commands[1], commands[2]]);
    assert(commands.drop_last().drop_last().drop_last() =~= seq![commands[0], commands[1]]);
    assert(commands.drop_last().drop_last().drop_last().drop_last() =~= seq![commands[0]]);
    assert(commands.drop_last().drop_last().drop_last().drop_last().drop_last() =~= Seq::empty());
}

/// What the last commands do.
proof fn run_prepass_retain_commands(phases: Phases, live: Set<u64>, phase: Phase)
    ensures
        run(prepass_retain_commands(), phases, live)[phase] == if is_prepass(phase) {
            phases[phase].restrict(live)
        } else {
            phases[phase]
        },
{
    let commands = prepass_retain_commands();
    reveal_with_fuel(run, 5);
    assert(commands.drop_last() =~= seq![commands[0], commands[1], commands[2]]);
    assert(commands.drop_last().drop_last() =~= seq![commands[0], commands[1]]);
    assert(commands.drop_last().drop_last().drop_last() =~= seq![commands[0]]);
    assert(commands.drop_last().drop_last().drop_last().drop_last() =~= Seq::empty());
}

/// What the commands for the cameras do to the view of a camera that is the last of its view.
proof fn run_prepass_cameras_commands(
    cameras: Seq<PrepassCameraView>,
    support: GpuPreprocessingSupport,
    phases: Phases,
    live: Set<u64>,
    phase: Phase,
    i: int,
)
    requires
        is_prepass(phase),
        is_last_of_view(cameras, i),
    ensures
        ({
            let after = run(prepass_cameras_commands(cameras, support), phases, live)[phase];
            let view = cameras[i].entity@;
            &&& after.contains_key(view) <==> wants_phase(cameras[i], phase)
            &&& wants_phase(cameras[i], phase) ==> after[view].is_empty
        }),
    decreases cameras.len(),
{
    let before = cameras.drop_last();
    let camera = cameras.last();
    let mid = run(prepass_cameras_commands(before, support), phases, live);
    if camera.is_active {
        run_add(
            prepass_cameras_commands(before, support),
            prepass_camera_commands(camera, support),
            phases,
            live,
        );
        run_prepass_camera_commands(camera, support, mid, live, phase);
    }
    if i < before.len() {
        assert(before[i] == cameras[i]);
        assert forall|j: int|
            i < j < before.len() && (#[trigger] before[j]).is_active implies before[j].entity@
            != before[i].entity@ by {
            assert(cameras[j] == before[j]);
        }
        assert(is_last_of_view(before, i));
        run_prepass_cameras_commands(before, support, phases, live, phase, i);
        assert(cameras[cameras.len() - 1] == camera);
    }
}

/// The commands for the cameras leave the phases of the main pass alone.
proof fn run_prepass_cameras_commands_elsewhere(
    cameras: Seq<PrepassCameraView>,
    support: GpuPreprocessingSupport,
    phases: Phases,
    live: Set<u64>,
    phase: Phase,
)
    requires
        !is_prepass(phase),
    ensures
        run(prepass_cameras_commands(cameras, support), phases, live)[phase] == phases[phase],
    decreases cameras.len(),
{
    if cameras.len() > 0 {
        let before = cameras.drop_last();
        let camera = cameras.last();
        run_prepass_cameras_commands_elsewhere(before, support, phases, live, phase);
        if camera.is_active {
            let mid = run(prepass_cameras_commands(before, support), phases, live);
            run_add(
                prepass_cameras_commands(before, support),
                prepass_camera_commands(camera, support),
                phases,
                live,
            );
            run_prepass_camera_commands(camera, support, mid, live, phase);
        }
    }
}

/// After extraction, whatever the phases were before, a view with an active camera has a phase
/// of the prepass exactly when the last such camera wants it, and the phase is empty.
pub proof fn prepass_extraction_leaves_empty_phases_for_wanted_views(
    cameras: Seq<PrepassCameraView>,
    support: GpuPreprocessingSupport,
    phases: Phases,
    phase: Phase,
    i: int,
)
    requires
        is_prepass(phase),
        is_last_of_view(cameras, i),
    ensures
        ({
            let commands = prepass_cameras_commands(cameras, support) + prepass_retain_commands();
            let after = run(commands, phases, active_prepass_views(cameras))[phase];
            &&& after.contains_key(cameras[i].entity@) <==> wants_phase(cameras[i], phase)
            &&& wants_phase(cameras[i], phase) ==> after[cameras[i].entity@].is_empty
        }),
{
    let live = active_prepass_views(cameras);
    let mid = run(prepass_cameras_commands(cameras, support), phases, live);
    run_add(prepass_cameras_commands(cameras, support), prepass_retain_commands(), phases, live);
    run_prepass_cameras_commands(cameras, support, phases, live, phase, i);
    run_prepass_retain_commands(mid, live, phase);
    assert(is_active_prepass_view(cameras, cameras[i].entity@));
    assert(live.contains(cameras[i].entity@));
}

/// The commands for the cameras leave a view without an active camera alone.
proof fn run_prepass_cameras_commands_untouched(
    cameras: Seq<PrepassCameraView>,
    support: GpuPreprocessingSupport,
    phases: Phases,
    live: Set<u64>,
    phase: Phase,
    view: u64,
)
    requires
        is_prepass(phase),
        !is_active_prepass_view(cameras, view),
    ensures
        ({
            let after = run(prepass_cameras_commands(cameras, support), phases, live)[phase];
            &&& after.contains_key(view) <==> phases[phase].contains_key(view)
            &&& after[view] == phases[phase][view]
        }),
    decreases cameras.len(),
{
    if cameras.len() > 0 {
        let before = cameras.drop_last();
        let camera = cameras.last();
        assert(before.push(camera) =~= cameras);
        active_prepass_views_push(before, camera);
        assert(!active_prepass_views(cameras).contains(view));
        assert(!active_prepass_views(before).contains(view));
        run_prepass_cameras_commands_untouched(before, support, phases, live, phase, view);
        if camera.is_active {
            let mid = run(prepass_cameras_commands(before, support), phases, live);
            run_add(
                prepass_cameras_commands(before, support),
                prepass_camera_commands(camera, support),
                phases,
                live,
            );
            run_prepass_camera_commands(camera, support, mid, live, phase);
        }
    }
}

/// The mode of the phase of a view with a single active camera, after the commands for the
/// cameras.
proof fn run_prepass_cameras_commands_mode(
    cameras: Seq<PrepassCameraView>,
    support: GpuPreprocessingSupport,
    phases: Phases,
    live: Set<u64>,
    phase: Phase,
    i: int,
)
    requires
        is_prepass(phase),
        is_last_of_view(cameras, i),
        !is_active_prepass_view(cameras.take(i), cameras[i].entity@),
        wants_phase(cameras[i], phase),
    ensures
        ({
            let after = run(prepass_cameras_commands(cameras, support), phases, live)[phase];
            let view = cameras[i].entity@;
            after[view].mode == if phases[phase].contains_key(view) {
                phases[phase][view].mode
            } else {
                Some(view_mode(support, cameras[i].no_indirect_drawing))
            }
        }),
    decreases cameras.len(),
{
    let before = cameras.drop_last();
    let camera = cameras.last();
    let mid = run(prepass_cameras_commands(before, support), phases, live);
    if camera.is_active {
        run_add(
            prepass_cameras_commands(before, support),
            prepass_camera_commands(camera, support),
            phases,
            live,
        );
        run_prepass_camera_commands(camera, support, mid, live, phase);
    }
    if i < before.len() {
        assert(before[i] == cameras[i]);
        assert(before.take(i) =~= cameras.take(i));
        assert forall|j: int|
            i < j < before.len() && (#[trigger] before[j]).is_active implies before[j].entity@
            != before[i].entity@ by {
            assert(cameras[j] == before[j]);
        }
        assert(is_last_of_view(before, i));
        run_prepass_cameras_commands_mode(before, support, phases, live, phase, i);
        assert(cameras[cameras.len() - 1] == camera);
    } else {
        assert(before =~= cameras.take(i));
        run_prepass_cameras_commands_untouched(
            before,
            support,
            phases,
            live,
            phase,
            camera.entity@,
        );
    }
}

/// After extraction, a wanted phase of a view with a single active camera keeps the mode that
/// it was made with, and a new one has the mode of the camera.
pub proof fn prepass_extraction_keeps_or_sets_the_mode(
    cameras: Seq<PrepassCameraView>,
    support: GpuPreprocessingSupport,
    phases: Phases,
    phase: Phase,
    i: int,
)
    requires
        is_prepass(phase),
        is_last_of_view(cameras, i),
        !is_active_prepass_view(cameras.take(i), cameras[i].entity@),
        wants_phase(cameras[i], phase),
    ensures
        ({
            let commands = prepass_cameras_commands(cameras, support) + prepass_retain_commands();
            let after = run(commands, phases, active_prepass_views(cameras))[phase];
            let view = cameras[i].entity@;
            after[view].mode == if phases[phase].contains_key(view) {
                phases[phase][view].mode
            } else {
                Some(view_mode(support, cameras[i].no_indirect_drawing))
            }
        }),
{
    let live = active_prepass_views(cameras);
    let mid = run(prepass_cameras_commands(cameras, support), phases, live);
    run_add(prepass_cameras_commands(cameras, support), prepass_retain_commands(), phases, live);
    run_prepass_cameras_commands(cameras, support, phases, live, phase, i);
    run_prepass_cameras_commands_mode(cameras, support, phases, live, phase, i);
    run_prepass_retain_commands(mid, live, phase);
    assert(is_active_prepass_view(cameras, cameras[i].entity@));
    assert(live.contains(cameras[i].entity@));
}

/// After extraction, no view without an active camera has a phase of the prepass.
pub proof fn prepass_extraction_drops_other_views(
    cameras: Seq<PrepassCameraView>,
    support: GpuPreprocessingSupport,
    phases: Phases,
    phase: Phase,
    view: u64,
)
    requires
        is_prepass(phase),
        !is_active_prepass_view(cameras, view),
    ensures
        ({
            let commands = prepass_cameras_commands(cameras, support) + prepass_retain_commands();
            !run(commands, phases, active_prepass_views(cameras))[phase].contains_key(view)
        }),
{
    let live = active_prepass_views(cameras);
    let mid = run(prepass_cameras_commands(cameras, support), phases, live);
    run_add(prepass_cameras_commands(cameras, support), prepass_retain_commands(), phases, live);
    run_prepass_retain_commands(mid, live, phase);
}

/// Extraction for the prepass leaves the phases of the main pass alone.
pub proof fn prepass_extraction_keeps_main_pass_phases(
    cameras: Seq<PrepassCameraView>,
    support: GpuPreprocessingSupport,
    phases: Phases,
    live: Set<u64>,
    phase: Phase,
)
    requires
        !is_prepass(phase),
    ensures
        run(
            prepass_cameras_commands(cameras, support) + prepass_retain_commands(),
            phases,
            live,
        )[phase] == phases[phase],
{
    let mid = run(prepass_cameras_commands(cameras, support), phases, live);
    run_add(prepass_cameras_commands(cameras, support), prepass_retain_commands(), phases, live);
    run_prepass_cameras_commands_elsewhere(cameras, support, phases, live, phase);
    run_prepass_retain_commands(mid, live, phase);
}

} // verus!
