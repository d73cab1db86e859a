//! Which views have which render phases, from the cameras of a frame.
//!
//! The phases themselves are collections of the renderer, one for each kind of item, and each
//! generic over what the renderer asks of such an item. So what is to happen to them is a list
//! of commands, each a single call on one of the collections, and [`run`] says what they do.

use bevy_ecs::entity::EntityHashSet;
use vstd::prelude::*;

use crate::view::{
    clear_entities, entity_bits, insert_entity, GpuPreprocessingMode, GpuPreprocessingSupport,
    ViewEntity,
};

verus! {

/// The kinds of render phase that a view can have.
#[derive(Clone, Copy, Debug, PartialEq, Eq, Structural)]
pub enum Phase {
    Opaque3d,
    AlphaMask3d,
    Transmissive3d,
    Transparent3d,
    Opaque3dPrepass,
    AlphaMask3dPrepass,
    Opaque3dDeferred,
    AlphaMask3dDeferred,
}

/// The prepasses of a view.
#[derive(Clone, Copy, Debug, PartialEq, Eq, Structural)]
pub struct Prepasses {
    pub depth_prepass: bool,
    pub normal_prepass: bool,
    pub motion_vector_prepass: bool,
    pub deferred_prepass: bool,
}

impl Prepasses {
    /// Whether there is a prepass besides the deferred one.
    pub open spec fn forward(self) -> bool {
        self.depth_prepass || self.normal_prepass || self.motion_vector_prepass
    }
}

/// A change to the render phases of the views, or to the views themselves.
#[derive(Clone, Copy, Debug, PartialEq, Eq, Structural)]
pub enum PhaseCommand {
    /// Empties the view's phase; makes an empty one if there is none. A phase whose items are
    /// binned is made with the mode; the mode is `None` for one whose items are sorted.
    InsertOrClear { phase: Phase, view: ViewEntity, mode: Option<GpuPreprocessingMode> },
    /// Drops the view's phase if there is one.
    Remove { phase: Phase, view: ViewEntity },
    /// Drops the phases of all views that are not live.
    RetainLive { phase: Phase },
    /// Marks the view with each of the prepasses.
    InsertPrepasses { view: ViewEntity, prepasses: Prepasses },
}

/// A render phase of a view: the mode that it was made with, and whether it has no items.
pub struct ViewPhase {
    pub mode: Option<GpuPreprocessingMode>,
    pub is_empty: bool,
}

/// The render phases: for each kind, those of the views, by the bits of the view.
pub type Phases = Map<Phase, Map<u64, ViewPhase>>;

impl PhaseCommand {
    /// The render phases after the command, where `live` has the bits of the live views.
    pub open spec fn apply(self, phases: Phases, live: Set<u64>) -> Phases {
        match self {
            PhaseCommand::InsertOrClear { phase, view, mode } => phases.insert(
                phase,
                phases[phase].insert(
                    view@,
                    if phases[phase].contains_key(view@) {
                        ViewPhase { mode: phases[phase][view@].mode, is_empty: true }
                    } else {
                        ViewPhase { mode, is_empty: true }
                    },
                ),
            ),
            PhaseCommand::Remove { phase, view } => phases.insert(
                phase,
                phases[phase].remove(view@),
            ),
            PhaseCommand::RetainLive { phase } => phases.insert(
                phase,
                phases[phase].restrict(live),
            ),
            PhaseCommand::InsertPrepasses { .. } => phases,
        }
    }
}

/// The render phases after the commands, one after the other.
pub open spec fn run(commands: Seq<PhaseCommand>, phases: Phases, live: Set<u64>) -> Phases
    decreases commands.len(),
{
    if commands.len() == 0 {
        phases
    } else {
        commands.last().apply(run(commands.drop_last(), phases, live), live)
    }
}

/// Commands after commands.
pub proof fn run_add(
    first: Seq<PhaseCommand>,
    second: Seq<PhaseCommand>,
    phases: Phases,
    live: Set<u64>,
)
    ensures
        run(first + second, phases, live) == run(second, run(first, phases, live), live),
    decreases second.len(),
{
    if second.len() == 0 {
        assert(first + second =~= first);
    } else {
        assert((first + second).drop_last() =~= first + second.drop_last());
        run_add(first, second.drop_last(), phases, live);
    }
}

/// A camera, as far as the phases of the main pass depend on it.
#[derive(Clone, Copy, Debug, PartialEq, Eq, Structural)]
pub struct CameraView {
    pub entity: ViewEntity,
    pub is_active: bool,
    /// Whether indirect drawing is switched off for the camera.
    pub no_indirect_drawing: bool,
}

/// The mode of a view: GPU culling (and indirect mode), or just preprocessing of the meshes
/// where indirect drawing is switched off, as far as the GPU supports it.
pub open spec fn view_mode(support: GpuPreprocessingSupport, no_indirect_drawing: bool) ->
    GpuPreprocessingMode {
    support.spec_min(
        if no_indirect_drawing {
            GpuPreprocessingMode::PreprocessingOnly
        } else {
            GpuPreprocessingMode::Culling
        },
    )
}

/// The mode of a view.
pub fn gpu_preprocessing_mode(
    support: &GpuPreprocessingSupport,
    no_indirect_drawing: bool,
) -> (mode: GpuPreprocessingMode)
    ensures
        mode == view_mode(*support, no_indirect_drawing),
        mode == match support.max_supported_mode {
            GpuPreprocessingMode::Disabled => GpuPreprocessingMode::Disabled,
            GpuPreprocessingMode::PreprocessingOnly => GpuPreprocessingMode::PreprocessingOnly,
            GpuPreprocessingMode::Culling => if no_indirect_drawing {
                GpuPreprocessingMode::PreprocessingOnly
            } else {
                GpuPreprocessingMode::Culling
            },
        },
{
    // If GPU culling is in use, use it (and indirect mode); otherwise, just
    // preprocess the meshes.
    support.min(
        if !no_indirect_drawing {
            GpuPreprocessingMode::Culling
        } else {
            GpuPreprocessingMode::PreprocessingOnly
        },
    )
}

/// The mode of a view is never more than the GPU supports, nor does it cull where indirect
/// drawing is switched off.
pub proof fn view_mode_is_within_limits(support: GpuPreprocessingSupport, no_indirect_drawing: bool)
    ensures
        view_mode(support, no_indirect_drawing).level() <= support.max_supported_mode.level(),
        no_indirect_drawing ==> view_mode(support, no_indirect_drawing) !is Culling,
{
}

/// Whether the view is that of an active camera.
pub open spec fn is_active_view(cameras: Seq<CameraView>, view: u64) -> bool {
    exists|i: int|
        0 <= i < cameras.len() && (#[trigger] cameras[i]).is_active && cameras[i].entity@ == view
}

/// The bits of the views of the active cameras.
pub open spec fn active_views(cameras: Seq<CameraView>) -> Set<u64> {
    Set::new(|view: u64| is_active_view(cameras, view))
}

/// The commands for an active camera: every phase of the main pass starts empty.
pub open spec fn camera_commands(camera: CameraView, support: GpuPreprocessingSupport) -> Seq<
    PhaseCommand,
> {
    let view = camera.entity;
    let mode = Some(view_mode(support, camera.no_indirect_drawing));
    seq![
        PhaseCommand::InsertOrClear { phase: Phase::Opaque3d, view, mode },
        PhaseCommand::InsertOrClear { phase: Phase::AlphaMask3d, view, mode },
        PhaseCommand::InsertOrClear { phase: Phase::Transmissive3d, view, mode: None },
        PhaseCommand::InsertOrClear { phase: Phase::Transparent3d, view, mode: None },
    ]
}

/// The commands for the cameras, one camera after the other. Inactive cameras have none.
pub open spec fn cameras_commands(
    cameras: Seq<CameraView>,
    support: GpuPreprocessingSupport,
) -> Seq<PhaseCommand>
    decreases cameras.len(),
{
    if cameras.len() == 0 {
        Seq::empty()
    } else {
        let before = cameras_commands(cameras.drop_last(), support);
        if cameras.last().is_active {
            before + camera_commands(cameras.last(), support)
        } else {
            before
        }
    }
}

/// The commands that drop the phases of the main pass of views that are not live.
pub open spec fn retain_commands() -> Seq<PhaseCommand> {
    seq![
        PhaseCommand::RetainLive { phase: Phase::Opaque3d },
        PhaseCommand::RetainLive { phase: Phase::AlphaMask3d },
        PhaseCommand::RetainLive { phase: Phase::Transmissive3d },
        PhaseCommand::RetainLive { phase: Phase::Transparent3d },
    ]
}

/// Gives each view of an active camera empty phases for the main pass, and drops those of all
/// other views. The live views are then those of the active cameras.
pub fn extract_core_3d_camera_phases(
    cameras_3d: &Vec<CameraView>,
    live_entities: &mut EntityHashSet,
    gpu_preprocessing_support: &GpuPreprocessingSupport,
) -> (commands: Vec<PhaseCommand>)
    ensures
        commands@ == cameras_commands(cameras_3d@, *gpu_preprocessing_support)
            + retain_commands(),
        entity_bits(*final(live_entities)) == active_views(cameras_3d@),
        forall|view: u64| #[trigger]
            entity_bits(*final(live_entities)).contains(view) <==> exists|i: int|
                0 <= i < cameras_3d@.len() && (#[trigger] cameras_3d@[i]).is_active
                    && cameras_3d@[i].entity@ == view,
{
    clear_entities(live_entities);
    let mut commands: Vec<PhaseCommand> = Vec::new();
    assert(entity_bits(*live_entities) =~= active_views(cameras_3d@.take(0)));
    for i in 0..cameras_3d.len()
        invariant
            commands@ == cameras_commands(
                cameras_3d@.take(i as int),
                *gpu_preprocessing_support,
            ),
            entity_bits(*live_entities) == active_views(cameras_3d@.take(i as int)),
    {
        let camera = cameras_3d[i];
        let ghost before = cameras_3d@.take(i as int);
        let ghost now = cameras_3d@.take(i + 1);
        assert(now.drop_last() =~= before);
        let ghost done = commands@;
        if camera.is_active {
            let view = camera.entity;
            let mode = Some(
                gpu_preprocessing_mode(gpu_preprocessing_support, camera.no_indirect_drawing),
            );
            commands.push(PhaseCommand::InsertOrClear { phase: Phase::Opaque3d, view, mode });
            commands.push(PhaseCommand::InsertOrClear { phase: Phase::AlphaMask3d, view, mode });
            commands.push(
                PhaseCommand::InsertOrClear { phase: Phase::Transmissive3d, view, mode: None },
            );
            commands.push(
                PhaseCommand::InsertOrClear { phase: Phase::Transparent3d, view, mode: None },
            );
            insert_entity(live_entities, view.to_bits());
            assert(commands@ =~= done + camera_commands(camera, *gpu_preprocessing_support));
        }
        assert(entity_bits(*live_entities) =~= active_views(now)) by {
            active_views_push(before, camera);
            assert(before.push(camera) =~= now);
        }
    }
    assert(cameras_3d@.take(cameras_3d@.len() as int) =~= cameras_3d@);
    let ghost done = commands@;
    commands.push(PhaseCommand::RetainLive { phase: Phase::Opaque3d });
    commands.push(PhaseCommand::RetainLive { phase: Phase::AlphaMask3d });
    commands.push(PhaseCommand::RetainLive { phase: Phase::Transmissive3d });
    commands.push(PhaseCommand::RetainLive { phase: Phase::Transparent3d });
    assert(commands@ =~= done + retain_commands());
    commands
}

/// One more camera.
proof fn active_views_push(cameras: Seq<CameraView>, camera: CameraView)
    ensures
        active_views(cameras.push(camera)) == if camera.is_active {
            active_views(cameras).insert(camera.entity@)
        } else {
            active_views(cameras)
        },
{
    let now = cameras.push(camera);
    assert forall|view: u64|
        is_active_view(now, view) <==> is_active_view(cameras, view) || camera.is_active
            && camera.entity@ == view by {
        if is_active_view(cameras, view) {
            let i = choose|i: int|
                0 <= i < cameras.len() && (#[trigger] cameras[i]).is_active
                    && cameras[i].entity@ == view;
            assert(now[i] == cameras[i]);
        }
        if camera.is_active && camera.entity@ == view {
            assert(now[cameras.len() as int] == camera);
        }
        if is_active_view(now, view) {
            let i = choose|i: int|
                0 <= i < now.len() && (#[trigger] now[i]).is_active && now[i].entity@ == view;
            if i < cameras.len() {
                assert(now[i] == cameras[i]);
            }
        }
    }
    assert(active_views(now) =~= if camera.is_active {
        active_views(cameras).insert(camera.entity@)
    } else {
        active_views(cameras)
    });
}

/// The commands of the active cameras come first, in the order of the cameras, four for each: its
/// view's phases of the main pass start empty, those whose items are binned with the mode that the
/// GPU supports, which culls unless indirect drawing is off. After them come those that drop the
/// phases of views that are not live. There are no other commands.
pub proof fn extraction_commands_follow_the_cameras(
    cameras: Seq<CameraView>,
    support: GpuPreprocessingSupport,
    commands: Seq<PhaseCommand>,
)
    requires
        commands == cameras_commands(cameras, support) + retain_commands(),
    ensures
        ({
            let active = cameras.filter(|camera: CameraView| camera.is_active);
            let n = active.len() as int;
            let mode = |camera: CameraView|
                match support.max_supported_mode {
                    GpuPreprocessingMode::Disabled => Some(GpuPreprocessingMode::Disabled),
                    GpuPreprocessingMode::PreprocessingOnly => Some(
                        GpuPreprocessingMode::PreprocessingOnly,
                    ),
                    GpuPreprocessingMode::Culling => if camera.no_indirect_drawing {
                        Some(GpuPreprocessingMode::PreprocessingOnly)
                    } else {
                        Some(GpuPreprocessingMode::Culling)
                    },
                };
            &&& commands.len() == 4 * n + 4
            &&& forall|k: int|
                #![trigger active[k]]
                0 <= k < n ==> {
                    let view = active[k].entity;
                    let binned = mode(active[k]);
                    &&& commands[4 * k] == PhaseCommand::InsertOrClear {
                        phase: Phase::Opaque3d,
                        view,
                        mode: binned,
                    }
                    &&& commands[4 * k + 1] == PhaseCommand::InsertOrClear {
                        phase: Phase::AlphaMask3d,
                        view,
                        mode: binned,
                    }
                    &&& commands[4 * k + 2] == PhaseCommand::InsertOrClear {
                        phase: Phase::Transmissive3d,
                        view,
                        mode: None,
                    }
                    &&& commands[4 * k + 3] == PhaseCommand::InsertOrClear {
                        phase: Phase::Transparent3d,
                        view,
                        mode: None,
                    }
                }
            &&& commands[4 * n] == PhaseCommand::RetainLive { phase: Phase::Opaque3d }
            &&& commands[4 * n + 1] == PhaseCommand::RetainLive { phase: Phase::AlphaMask3d }
            &&& commands[4 * n + 2] == PhaseCommand::RetainLive { phase: Phase::Transmissive3d }
            &&& commands[4 * n + 3] == PhaseCommand::RetainLive { phase: Phase::Transparent3d }
        }),
    decreases cameras.len(),
{
    reveal(Seq::filter);
    let active = cameras.filter(|camera: CameraView| camera.is_active);
    if cameras.len() > 0 {
        let earlier = cameras.drop_last();
        let before = earlier.filter(|camera: CameraView| camera.is_active);
        let done = cameras_commands(earlier, support) + retain_commands();
        extraction_commands_follow_the_cameras(earlier, support, done);
        assert forall|k: int| 0 <= k < before.len() implies active[k] == before[k] by {}
        assert forall|c: int| 0 <= c < 4 * before.len() implies commands[c] == done[c] by {}
        assert forall|k: int| #![trigger active[k]] 0 <= k < before.len() implies {
            &&& commands[4 * k] == done[4 * k]
            &&& commands[4 * k + 1] == done[4 * k + 1]
            &&& commands[4 * k + 2] == done[4 * k + 2]
            &&& commands[4 * k + 3] == done[4 * k + 3]
            &&& active[k] == before[k]
        } by {}
    }
}

/// Whether the phase is one of the main pass.
pub open spec fn is_main_pass(phase: Phase) -> bool {
    phase is Opaque3d || phase is AlphaMask3d || phase is Transmissive3d || phase is Transparent3d
}

/// The mode that a phase of the main pass is made with: none if its items are sorted.
pub open spec fn main_pass_mode(
    phase: Phase,
    camera: CameraView,
    support: GpuPreprocessingSupport,
) -> Option<GpuPreprocessingMode> {
    if phase is Opaque3d || phase is AlphaMask3d {
        Some(view_mode(support, camera.no_indirect_drawing))
    } else {
        None
    }
}

/// The view's phases after it has been emptied or made.
spec fn inserted_or_cleared(
    views: Map<u64, ViewPhase>,
    view: u64,
    mode: Option<GpuPreprocessingMode>,
) -> Map<u64, ViewPhase> {
    views.insert(
        view,
        ViewPhase {
            mode: if views.contains_key(view) {
                views[view].mode
            } else {
                mode
            },
            is_empty: true,
        },
    )
}

/// What the commands for one camera do.
proof fn run_camera_commands(
    camera: CameraView,
    support: GpuPreprocessingSupport,
    phases: Phases,
    live: Set<u64>,
    phase: Phase,
)
    ensures
        run(camera_commands(camera, support), phases, live)[phase] == if is_main_pass(phase) {
            inserted_or_cleared(
                phases[phase],
                camera.entity@,
                main_pass_mode(phase, camera, support),
            )
        } else {
            phases[phase]
        },
{
    let commands = camera_commands(camera, support);
    reveal_with_fuel(run, 5);
    assert(commands.drop_last() =~= seq![commands[0], commands[1], commands[2]]);
    assert(commands.drop_last().drop_last() =~= seq![commands[0], commands[1]]);
    assert(commands.drop_last().drop_last().drop_last() =~= seq![commands[0]]);
    assert(commands.drop_last().drop_last().drop_last().drop_last() =~= Seq::empty());
}

/// What the last commands do.
proof fn run_retain_commands(phases: Phases, live: Set<u64>, phase: Phase)
    ensures
        run(retain_commands(), phases, live)[phase] == if is_main_pass(phase) {
            phases[phase].restrict(live)
        } else {
            phases[phase]
        },
{
    let commands = retain_commands();
    reveal_with_fuel(run, 5);
    assert(commands.drop_last() =~= seq![commands[0], commands[1], commands[2]]);
    assert(commands.drop_last().drop_last() =~= seq![commands[0], commands[1]]);
    assert(commands.drop_last().drop_last().drop_last() =~= seq![commands[0]]);
    assert(commands.drop_last().drop_last().drop_last().drop_last() =~= Seq::empty());
}

/// What the commands for the cameras do.
proof fn run_cameras_commands(
    cameras: Seq<CameraView>,
    support: GpuPreprocessingSupport,
    phases: Phases,
    live: Set<u64>,
    phase: Phase,
)
    ensures
        ({
            let after = run(cameras_commands(cameras, support), phases, live)[phase];
            if is_main_pass(phase) {
                &&& after.dom() == phases[phase].dom().union(active_views(cameras))
                &&& forall|view: u64| #[trigger]
                    is_active_view(cameras, view) ==> after[view].is_empty
                &&& forall|view: u64| #[trigger]
                    phases[phase].contains_key(view) ==> after[view].mode
                        == phases[phase][view].mode
                &&& forall|i: int|
                    #![trigger cameras[i]]
                    is_first_of_view(cameras, i) && !phases[phase].contains_key(
                        cameras[i].entity@,
                    ) ==> after[cameras[i].entity@].mode == main_pass_mode(
                        phase,
                        cameras[i],
                        support,
                    )
            } else {
                after == phases[phase]
            }
        }),
    decreases cameras.len(),
{
    if cameras.len() == 0 {
        assert(active_views(cameras) =~= Set::empty());
        assert(phases[phase].dom().union(active_views(cameras)) =~= phases[phase].dom());
    } else {
        let before = cameras.drop_last();
        let camera = cameras.last();
        run_cameras_commands(before, support, phases, live, phase);
        assert(before.push(camera) =~= cameras);
        active_views_push(before, camera);
        let mid = run(cameras_commands(before, support), phases, live);
        let after = run(cameras_commands(cameras, support), phases, live);
        if camera.is_active {
            run_add(
                cameras_commands(before, support),
                camera_commands(camera, support),
                phases,
                live,
            );
            run_camera_commands(camera, support, mid, live, phase);
        }
        if is_main_pass(phase) {
            assert(after[phase].dom() =~= phases[phase].dom().union(active_views(cameras)));
            assert forall|view: u64| #[trigger] is_active_view(
                cameras,
                view,
            ) implies after[phase][view].is_empty by {
                assert(active_views(cameras).contains(view));
                if !(camera.is_active && camera.entity@ == view) {
                    assert(active_views(before).contains(view));
                }
            }
            assert forall|i: int|
                #![trigger cameras[i]]
                is_first_of_view(cameras, i) && !phases[phase].contains_key(
                    cameras[i].entity@,
                ) implies after[phase][cameras[i].entity@].mode == main_pass_mode(
                phase,
                cameras[i],
                support,
            ) by {
                if i < before.len() {
                    assert(before[i] == cameras[i]);
                    assert forall|j: int| 0 <= j < i && (#[trigger] before[j]).is_active implies before[j].entity@
                        != before[i].entity@ by {
                        assert(cameras[j] == before[j]);
                    }
                    assert(is_first_of_view(before, i));
                    assert(is_active_view(before, before[i].entity@));
                    assert(active_views(before).contains(before[i].entity@));
                    assert(mid[phase].contains_key(before[i].entity@));
                } else {
                    if active_views(before).contains(camera.entity@) {
                        let j = choose|j: int|
                            0 <= j < before.len() && (#[trigger] before[j]).is_active
                                && before[j].entity@ == camera.entity@;
                        assert(cameras[j] == before[j]);
                    }
                }
            }
        }
    }
}

/// Whether the camera is active, and no active camera before it has its view.
pub open spec fn is_first_of_view(cameras: Seq<CameraView>, i: int) -> bool {
    &&& 0 <= i < cameras.len()
    &&& cameras[i].is_active
    &&& forall|j: int|
        0 <= j < i && (#[trigger] cameras[j]).is_active ==> cameras[j].entity@
            != cameras[i].entity@
}

/// After extraction, whatever the phases were before, exactly the views of the active cameras
/// have phases of the main pass, and all of them are empty.
pub proof fn extraction_leaves_empty_phases_for_active_views(
    cameras: Seq<CameraView>,
    support: GpuPreprocessingSupport,
    phases: Phases,
    phase: Phase,
)
    requires
        is_main_pass(phase),
    ensures
        ({
            let commands = cameras_commands(cameras, support) + retain_commands();
            let after = run(commands, phases, active_views(cameras))[phase];
            &&& after.dom() == active_views(cameras)
            &&& forall|view: u64| #[trigger] after.contains_key(view) ==> after[view].is_empty
        }),
{
    let live = active_views(cameras);
    let mid = run(cameras_commands(cameras, support), phases, live);
    run_add(cameras_commands(cameras, support), retain_commands(), phases, live);
    run_cameras_commands(cameras, support, phases, live, phase);
    run_retain_commands(mid, live, phase);
    let after = run(cameras_commands(cameras, support) + retain_commands(), phases, live)[phase];
    assert(after.dom() =~= live);
    assert forall|view: u64| #[trigger] after.contains_key(view) implies after[view].is_empty by {
        assert(live.contains(view));
        assert(is_active_view(cameras, view));
    }
}

/// After extraction, a phase that a view had before keeps the mode that it was made with, and a
/// new one has the mode of the view's camera.
pub proof fn extraction_keeps_or_sets_the_mode(
    cameras: Seq<CameraView>,
    support: GpuPreprocessingSupport,
    phases: Phases,
    phase: Phase,
    i: int,
)
    requires
        is_main_pass(phase),
        is_first_of_view(cameras, i),
    ensures
        ({
            let commands = cameras_commands(cameras, support) + retain_commands();
            let after = run(commands, phases, active_views(cameras))[phase];
            let view = cameras[i].entity@;
            after[view].mode == if phases[phase].contains_key(view) {
                phases[phase][view].mode
            } else {
                main_pass_mode(phase, cameras[i], support)
            }
        }),
{
    let live = active_views(cameras);
    let mid = run(cameras_commands(cameras, support), phases, live);
    run_add(cameras_commands(cameras, support), retain_commands(), phases, live);
    run_cameras_commands(cameras, support, phases, live, phase);
    run_retain_commands(mid, live, phase);
    assert(is_active_view(cameras, cameras[i].entity@));
    assert(live.contains(cameras[i].entity@));
}

/// Extraction for the main pass leaves the phases of the prepass alone.
pub proof fn extraction_keeps_prepass_phases(
    cameras: Seq<CameraView>,
    support: GpuPreprocessingSupport,
    phases: Phases,
    live: Set<u64>,
    phase: Phase,
)
    requires
        !is_main_pass(phase),
    ensures
        run(cameras_commands(cameras, support) + retain_commands(), phases, live)[phase]
            == phases[phase],
{
    let mid = run(cameras_commands(cameras, support), phases, live);
    run_add(cameras_commands(cameras, support), retain_commands(), phases, live);
    run_cameras_commands(cameras, support, phases, live, phase);
    run_retain_commands(mid, live, phase);
}

} // verus!
