//! The depth texture of each view.

use vstd::prelude::*;

use crate::distance::Distance;
use crate::extract::{
    active_views, cameras_commands, extraction_leaves_empty_phases_for_active_views,
    is_active_view, retain_commands, run, CameraView, Phase, Phases,
};
use crate::texture::{
    allocate, allocate_one_per_key, allocate_push, every_texture_is_requested, first_request,
    request_keeps_textures, target_map_entries, union_includes, Allocation, Extent3d,
    RenderTargetId, TargetMap, TextureDescriptor, TextureDimension, TextureFormat, TextureKey,
    TextureRequest, TextureTable, TextureUsages, UVec2, CORE_3D_DEPTH_FORMAT,
};
use crate::view::{GpuPreprocessingSupport, Msaa, ViewEntity};

verus! {

/// Whether multisampled depth textures can be sampled on the platform: everywhere but in a
/// browser without WebGPU.
///
/// In theory, depth textures work on WebGL 2. In practice the shader compiler assumes that all
/// of them are `sampler2DShadow`, and generates invalid code for any other use of such a
/// sampler. So depth of field and screen space reflections are left out there.
pub fn depth_texture_sampling_supported(webgpu: bool, wasm32: bool) -> (supported: bool)
    ensures
        supported == (webgpu || !wasm32),
{
    webgpu || !wasm32
}

/// What happens to the depth texture at the start of the main pass.
#[derive(Clone, Copy, Debug, PartialEq, Eq, Structural)]
pub enum Camera3dDepthLoadOp {
    /// It is cleared to the value.
    Clear(Distance),
    /// It keeps what it holds.
    Load,
}

/// A view, as far as its depth texture depends on it.
#[derive(Clone, Copy, Debug, PartialEq, Eq, Structural)]
pub struct DepthView {
    pub entity: ViewEntity,
    /// What the camera renders to.
    pub target: RenderTargetId,
    /// The size of what the camera renders to, where it is known.
    pub physical_target_size: Option<UVec2>,
    pub depth_prepass: bool,
    /// The usages that the camera asks of its depth texture.
    pub depth_texture_usages: TextureUsages,
    pub depth_load_op: Camera3dDepthLoadOp,
    pub msaa: Msaa,
    /// Whether there is an opaque phase for the view.
    pub has_opaque_3d_phase: bool,
    /// Whether there is an alpha mask phase for the view.
    pub has_alpha_mask_3d_phase: bool,
    /// Whether there is a transmissive phase for the view.
    pub has_transmissive_3d_phase: bool,
    /// Whether there is a transparent phase for the view.
    pub has_transparent_3d_phase: bool,
}

impl DepthView {
    /// Whether the view has all four phases of the main pass.
    pub open spec fn has_all_phases(self) -> bool {
        &&& self.has_opaque_3d_phase
        &&& self.has_alpha_mask_3d_phase
        &&& self.has_transmissive_3d_phase
        &&& self.has_transparent_3d_phase
    }

    /// Whether what is said of the view's phases is true of `phases`.
    pub open spec fn agrees_with(self, phases: Phases) -> bool {
        &&& self.has_opaque_3d_phase == phases[Phase::Opaque3d].contains_key(self.entity@)
        &&& self.has_alpha_mask_3d_phase == phases[Phase::AlphaMask3d].contains_key(self.entity@)
        &&& self.has_transmissive_3d_phase == phases[Phase::Transmissive3d].contains_key(
            self.entity@,
        )
        &&& self.has_transparent_3d_phase == phases[Phase::Transparent3d].contains_key(
            self.entity@,
        )
    }

    /// The usages that the view needs of its depth texture: those that the camera asks for,
    /// and copying out of it, to read the output of the prepass.
    pub open spec fn usage(self) -> TextureUsages {
        if self.depth_prepass {
            self.depth_texture_usages.spec_union(TextureUsages { bits: TextureUsages::COPY_SRC })
        } else {
            self.depth_texture_usages
        }
    }

    /// Whether the size of the view's target is known.
    pub open spec fn sized(self) -> bool {
        self.physical_target_size is Some
    }

    /// The key of the view's depth texture: its target and its number of samples.
    pub open spec fn key(self) -> TextureKey {
        (self.target.id, self.msaa.spec_samples())
    }

    /// The value that the view's depth texture is cleared to, if it is cleared.
    pub open spec fn clear_value(self) -> Option<Distance> {
        match self.depth_load_op {
            Camera3dDepthLoadOp::Clear(value) => Some(value),
            Camera3dDepthLoadOp::Load => None,
        }
    }
}

/// The usages that the views need of the depth textures of a target, taken together; `None`
/// where no view with all its phases renders to the target.
pub open spec fn target_usage(views: Seq<DepthView>, target: RenderTargetId) -> Option<
    TextureUsages,
>
    decreases views.len(),
{
    if views.len() == 0 {
        None
    } else {
        let before = target_usage(views.drop_last(), target);
        let view = views.last();
        if view.has_all_phases() && view.target == target {
            match before {
                Some(usage) => Some(usage.spec_union(view.usage())),
                None => Some(view.usage()),
            }
        } else {
            before
        }
    }
}

/// Whether the usages of every depth texture that is needed are known: each target of a view
/// whose size is known is also the target of a view with all its phases.
pub open spec fn usages_known(views: Seq<DepthView>) -> bool {
    forall|i: int|
        0 <= i < views.len() && (#[trigger] views[i]).sized() ==> target_usage(
            views,
            views[i].target,
        ) is Some
}

/// The views that get a depth texture.
pub open spec fn depth_views(views: Seq<DepthView>) -> Seq<DepthView> {
    views.filter(|view: DepthView| view.sized())
}

/// What the depth texture of a view is created with, if it is the first of its key.
pub open spec fn depth_descriptor(views: Seq<DepthView>, view: DepthView) -> TextureDescriptor {
    TextureDescriptor {
        label: "view_depth_texture",
        size: Extent3d::spec_single_layer(view.physical_target_size->0),
        mip_level_count: 1,
        sample_count: view.msaa.spec_samples(),
        dimension: TextureDimension::D2,
        format: CORE_3D_DEPTH_FORMAT,
        usage: target_usage(views, view.target)->0,
    }
}

/// The request of each view that gets a depth texture.
pub open spec fn depth_requests(views: Seq<DepthView>) -> Seq<TextureRequest> {
    depth_views(views).map_values(
        |view: DepthView|
            TextureRequest { key: view.key(), descriptor: depth_descriptor(views, view) },
    )
}

/// A view's depth texture: its place among the created textures, and what it is cleared to.
#[derive(Clone, Copy, Debug, PartialEq, Eq, Structural)]
pub struct ViewDepthTexture {
    pub entity: ViewEntity,
    pub texture: usize,
    pub clear_value: Option<Distance>,
}

/// The depth textures to create, in order, and the views to hand them to, in order.
#[derive(Debug, PartialEq, Eq)]
pub struct DepthTextures {
    pub textures: Vec<TextureDescriptor>,
    pub views: Vec<ViewDepthTexture>,
}

/// What a view gets: the texture of its key.
pub open spec fn view_depth_texture(allocation: Allocation, view: DepthView) -> ViewDepthTexture {
    ViewDepthTexture {
        entity: view.entity,
        texture: allocation.index[view.key()] as usize,
        clear_value: view.clear_value(),
    }
}

/// Usages as an entry of a map.
spec fn usage_entry(usage: Option<TextureUsages>) -> Option<u64> {
    match usage {
        Some(usage) => Some(usage.bits as u64),
        None => None,
    }
}

/// Whether the map holds the usages of every target.
spec fn holds_usages(map: TargetMap, views: Seq<DepthView>) -> bool {
    forall|id: u64| #[trigger]
        target_map_entries(map).get((id, 0u32)) == usage_entry(
            target_usage(views, RenderTargetId { id }),
        )
}

/// The usages of every target.
fn render_target_usage(views: &Vec<DepthView>) -> (usages: TargetMap)
    ensures
        holds_usages(usages, views@),
{
    let mut usages = TargetMap::new();
    for i in 0..views.len()
        invariant
            holds_usages(usages, views@.take(i as int)),
    {
        let view = views[i];
        let ghost before = usages;
        assert(views@.take(i + 1).drop_last() =~= views@.take(i as int));
        if view.has_opaque_3d_phase && view.has_alpha_mask_3d_phase
            && view.has_transmissive_3d_phase && view.has_transparent_3d_phase {
            // Required to write to the depth texture
            let mut usage = view.depth_texture_usages;
            if view.depth_prepass {
                // Required to read the output of the prepass
                usage = usage.union(TextureUsages { bits: TextureUsages::COPY_SRC });
            }
            let total = match usages.get((view.target.id, 0)) {
                Some(bits) => TextureUsages { bits: bits as u32 }.union(usage),
                None => usage,
            };
            usages.insert((view.target.id, 0), total.bits as u64);
        }
        assert forall|id: u64| #[trigger]
            target_map_entries(usages).get((id, 0u32)) == usage_entry(
                target_usage(views@.take(i + 1), RenderTargetId { id }),
            ) by {
            assert(target_map_entries(before).get((id, 0u32)) == usage_entry(
                target_usage(views@.take(i as int), RenderTargetId { id }),
            ));
        }
    }
    assert(views@.take(views@.len() as int) =~= views@);
    usages
}

/// Whether the usages of every depth texture that is needed are known.
pub fn depth_usages_known(views: &Vec<DepthView>) -> (known: bool)
    ensures
        known == usages_known(views@),
{
    let usages = render_target_usage(views);
    for i in 0..views.len()
        invariant
            holds_usages(usages, views@),
            forall|j: int|
                0 <= j < i && (#[trigger] views@[j]).sized() ==> target_usage(
                    views@,
                    views@[j].target,
                ) is Some,
    {
        let view = views[i];
        if view.physical_target_size.is_some() {
            if usages.get((view.target.id, 0)).is_none() {
                assert(views@[i as int].sized());
                return false;
            }
        }
    }
    true
}

/// Plans the depth textures: each view whose target has a known size gets one, and views with
/// the same target and number of samples share one. It is created for the first of them, with
/// the usages that all the views of the target need.
pub fn prepare_core_3d_depth_textures(views_3d: &Vec<DepthView>) -> (plan: DepthTextures)
    requires
        usages_known(views_3d@),
    ensures
        plan.textures@ == allocate(depth_requests(views_3d@)).textures,
        plan.views@ == depth_views(views_3d@).map_values(
            |view: DepthView| view_depth_texture(allocate(depth_requests(views_3d@)), view),
        ),
{
    let usages = render_target_usage(views_3d);
    let ghost all = views_3d@;
    let mut table = TextureTable::new();
    let mut views: Vec<ViewDepthTexture> = Vec::new();
    let ghost mut requests: Seq<TextureRequest> = Seq::empty();
    for i in 0..views_3d.len()
        invariant
            all == views_3d@,
            usages_known(all),
            holds_usages(usages, all),
            table.wf(),
            requests == depth_views(all.take(i as int)).map_values(
                |view: DepthView|
                    TextureRequest { key: view.key(), descriptor: depth_descriptor(all, view) },
            ),
            table.view() == allocate(requests),
            views@ == depth_views(all.take(i as int)).map_values(
                |view: DepthView| view_depth_texture(allocate(requests), view),
            ),
    {
        let view = views_3d[i];
        proof {
            reveal(Seq::filter);
            assert(all.take(i + 1).drop_last() =~= all.take(i as int));
        }
        if let Some(physical_target_size) = view.physical_target_size {
            assert(all[i as int].sized());
            let usage = TextureUsages { bits: usages.get((view.target.id, 0)).unwrap() as u32 };
            let samples = view.msaa.samples();
            let descriptor = TextureDescriptor {
                label: "view_depth_texture",
                size: Extent3d::single_layer(physical_target_size),
                mip_level_count: 1,
                sample_count: samples,
                dimension: TextureDimension::D2,
                format: CORE_3D_DEPTH_FORMAT,
                usage,
            };
            let ghost done = requests;
            let texture = table.request((view.target.id, samples), descriptor);
            proof {
                let request = TextureRequest { key: view.key(), descriptor };
                assert(descriptor == depth_descriptor(all, view));
                requests = requests.push(request);
                allocate_push(done, request);
                request_keeps_textures(allocate(done), request);
                allocate_one_per_key(done);
                let before = depth_views(all.take(i as int));
                assert forall|j: int| 0 <= j < before.len() implies view_depth_texture(
                    allocate(done),
                    #[trigger] before[j],
                ) == view_depth_texture(allocate(requests), before[j]) by {
                    assert(done[j].key == before[j].key());
                }
            }
            views.push(
                ViewDepthTexture {
                    entity: view.entity,
                    texture,
                    clear_value: match view.depth_load_op {
                        Camera3dDepthLoadOp::Clear(value) => Some(value),
                        Camera3dDepthLoadOp::Load => None,
                    },
                },
            );
        }
    }
    assert(all.take(all.len() as int) =~= all);
    assert(requests =~= depth_requests(all));
    DepthTextures { textures: table.into_textures(), views }
}

/// Two views get the same depth texture exactly when they have the same target and the same
/// number of samples, and each gets one of the textures that are created.
pub proof fn depth_textures_are_shared_by_target_and_samples(
    views: Seq<DepthView>,
    a: DepthView,
    b: DepthView,
)
    requires
        depth_views(views).contains(a),
        depth_views(views).contains(b),
    ensures
        ({
            let allocation = allocate(depth_requests(views));
            &&& 0 <= allocation.index[a.key()] < allocation.textures.len()
            &&& allocation.index[a.key()] == allocation.index[b.key()] <==> a.target == b.target
                && a.msaa == b.msaa
        }),
{
    let requests = depth_requests(views);
    allocate_one_per_key(requests);
    let i = depth_views(views).index_of(a);
    let j = depth_views(views).index_of(b);
    assert(requests[i].key == a.key());
    assert(requests[j].key == b.key());
}

/// What each view needs of the depth textures of its target, they have, whoever they were
/// created for.
pub proof fn depth_textures_have_the_usages_of_all_views(
    views: Seq<DepthView>,
    user: DepthView,
    view: DepthView,
)
    requires
        views.contains(user),
        user.has_all_phases(),
        depth_views(views).contains(view),
        user.target == view.target,
    ensures
        ({
            let allocation = allocate(depth_requests(views));
            allocation.textures[allocation.index[view.key()]].usage.includes(user.usage())
        }),
{
    let requests = depth_requests(views);
    let i = depth_views(views).index_of(view);
    assert(requests[i].key == view.key());
    let first = first_request(requests, i);
    assert(requests[first].key == depth_views(views)[first].key());
    assert(depth_views(views)[first].target == view.target);
    target_usage_includes(views, user);
}

/// The usages of a target include those of each view with all its phases.
proof fn target_usage_includes(views: Seq<DepthView>, user: DepthView)
    requires
        views.contains(user),
        user.has_all_phases(),
    ensures
        target_usage(views, user.target) matches Some(usage) && usage.includes(user.usage()),
    decreases views.len(),
{
    let before = views.drop_last();
    let last = views.last();
    let i = views.index_of(user);
    if i < before.len() {
        assert(before[i] == user);
        target_usage_includes(before, user);
        let usage = target_usage(before, user.target)->0;
        union_includes(usage, last.usage(), user.usage());
    } else {
        match target_usage(before, user.target) {
            Some(usage) => union_includes(usage, user.usage(), user.usage()),
            None => {
                let bits = user.usage().bits;
                assert(bits & bits == bits) by (bit_vector);
            },
        }
    }
}

/// A depth texture has the number of samples of every view that gets it, and the size of the
/// target of the first of them.
pub proof fn depth_textures_fit_their_views(views: Seq<DepthView>, i: int) -> (first: int)
    requires
        0 <= i < depth_views(views).len(),
    ensures
        ({
            let allocation = allocate(depth_requests(views));
            let view = depth_views(views)[i];
            let texture = allocation.textures[allocation.index[view.key()]];
            &&& texture.sample_count == view.msaa.spec_samples()
            &&& 0 <= first <= i
            &&& depth_views(views)[first].key() == view.key()
            &&& forall|j: int|
                0 <= j < first ==> (#[trigger] depth_views(views)[j]).key() != view.key()
            &&& texture.size == Extent3d::spec_single_layer(
                depth_views(views)[first].physical_target_size->0,
            )
        }),
{
    let requests = depth_requests(views);
    let first = first_request(requests, i);
    assert(requests[i].key == depth_views(views)[i].key());
    assert(requests[first].key == depth_views(views)[first].key());
    assert forall|j: int| 0 <= j < first implies (#[trigger] depth_views(views)[j]).key()
        != depth_views(views)[i].key() by {
        assert(requests[j].key == depth_views(views)[j].key());
    }
    first
}

/// The views whose target has a known size are served, in order and no others: each gets one of
/// the textures that are created, cleared to its camera's value if the camera clears.
pub proof fn depth_textures_go_to_sized_views(views: Seq<DepthView>, plan: DepthTextures)
    requires
        plan.textures@ == allocate(depth_requests(views)).textures,
        plan.views@ == depth_views(views).map_values(
            |view: DepthView| view_depth_texture(allocate(depth_requests(views)), view),
        ),
    ensures
        ({
            let served = views.filter(|view: DepthView| view.physical_target_size is Some);
            &&& plan.views@.len() == served.len()
            &&& forall|k: int|
                #![trigger plan.views@[k]]
                0 <= k < served.len() ==> {
                    &&& plan.views@[k].entity == served[k].entity
                    &&& plan.views@[k].texture < plan.textures@.len()
                    &&& plan.views@[k].clear_value == match served[k].depth_load_op {
                        Camera3dDepthLoadOp::Clear(value) => Some(value),
                        Camera3dDepthLoadOp::Load => None,
                    }
                }
        }),
{
    served_depth_views(views);
    let served = depth_views(views);
    let requests = depth_requests(views);
    allocate_one_per_key(requests);
    assert forall|k: int| #![trigger plan.views@[k]] 0 <= k < served.len() implies {
        &&& plan.views@[k].entity == served[k].entity
        &&& plan.views@[k].texture < plan.textures@.len()
        &&& plan.views@[k].clear_value == served[k].clear_value()
    } by {
        depth_texture_place(views, plan, k);
    }
}

/// Two views that are served get the same texture exactly when they have the same target and the
/// same multisampling.
pub proof fn depth_textures_tell_targets_and_msaa_apart(
    views: Seq<DepthView>,
    plan: DepthTextures,
)
    requires
        plan.textures@ == allocate(depth_requests(views)).textures,
        plan.views@ == depth_views(views).map_values(
            |view: DepthView| view_depth_texture(allocate(depth_requests(views)), view),
        ),
    ensures
        ({
            let served = views.filter(|view: DepthView| view.physical_target_size is Some);
            forall|j: int, k: int|
                #![trigger plan.views@[j], plan.views@[k]]
                0 <= j < served.len() && 0 <= k < served.len() ==> (plan.views@[j].texture
                    == plan.views@[k].texture <==> served[j].target.id == served[k].target.id
                    && served[j].msaa == served[k].msaa)
        }),
{
    served_depth_views(views);
    let served = depth_views(views);
    let requests = depth_requests(views);
    allocate_one_per_key(requests);
    assert forall|j: int, k: int|
        #![trigger plan.views@[j], plan.views@[k]]
        0 <= j < served.len() && 0 <= k < served.len() implies (plan.views@[j].texture
        == plan.views@[k].texture <==> served[j].target.id == served[k].target.id && served[j].msaa
        == served[k].msaa) by {
        depth_texture_place(views, plan, j);
        depth_texture_place(views, plan, k);
    }
}

/// Every depth texture that is created goes to some view.
pub proof fn no_depth_texture_is_spare(
    views: Seq<DepthView>,
    plan: DepthTextures,
    place: int,
) -> (k: int)
    requires
        plan.textures@ == allocate(depth_requests(views)).textures,
        plan.views@ == depth_views(views).map_values(
            |view: DepthView| view_depth_texture(allocate(depth_requests(views)), view),
        ),
        0 <= place < plan.textures@.len(),
    ensures
        0 <= k < plan.views@.len(),
        plan.views@[k].texture == place,
{
    let k = every_texture_is_requested(depth_requests(views), place);
    depth_texture_place(views, plan, k);
    k
}

/// A depth texture is a flat one of 32-bit floating-point depth, with one layer and one mip level.
/// It has the size of the target of the first view that gets it, and as many samples as the
/// multisampling of each view that gets it says.
pub proof fn depth_textures_suit_the_first_view(
    views: Seq<DepthView>,
    plan: DepthTextures,
    k: int,
)
    requires
        plan.textures@ == allocate(depth_requests(views)).textures,
        plan.views@ == depth_views(views).map_values(
            |view: DepthView| view_depth_texture(allocate(depth_requests(views)), view),
        ),
        0 <= k < plan.views@.len(),
        forall|j: int|
            0 <= j < k ==> (#[trigger] plan.views@[j]).texture != plan.views@[k].texture,
    ensures
        ({
            let served = views.filter(|view: DepthView| view.physical_target_size is Some);
            let texture = plan.textures@[plan.views@[k].texture as int];
            &&& texture.label == "view_depth_texture"
            &&& served[k].physical_target_size == Some(
                UVec2 { x: texture.size.width, y: texture.size.height },
            )
            &&& texture.size.depth_or_array_layers == 1
            &&& texture.mip_level_count == 1
            &&& texture.sample_count == match served[k].msaa {
                Msaa::Off => 1u32,
                Msaa::Sample2 => 2u32,
                Msaa::Sample4 => 4u32,
                Msaa::Sample8 => 8u32,
            }
            &&& texture.dimension == TextureDimension::D2
            &&& texture.format == TextureFormat::Depth32Float
        }),
{
    served_depth_views(views);
    let served = depth_views(views);
    let requests = depth_requests(views);
    allocate_one_per_key(requests);
    depth_texture_place(views, plan, k);
    let first = first_request(requests, k);
    depth_texture_place(views, plan, first);
    assert(plan.views@[first].texture == plan.views@[k].texture);
    assert(first == k);
    depth_views_are_sized(views, k);
}

/// The depth textures of a target may be used for all that a view of the target with all four
/// phases of the main pass asks of them, and as the source of a copy if such a view has a depth
/// prepass, and for nothing else.
pub proof fn depth_textures_allow_what_is_asked(
    views: Seq<DepthView>,
    plan: DepthTextures,
    k: int,
)
    requires
        usages_known(views),
        plan.textures@ == allocate(depth_requests(views)).textures,
        plan.views@ == depth_views(views).map_values(
            |view: DepthView| view_depth_texture(allocate(depth_requests(views)), view),
        ),
        0 <= k < plan.views@.len(),
    ensures
        ({
            let served = views.filter(|view: DepthView| view.physical_target_size is Some);
            let usage = plan.textures@[plan.views@[k].texture as int].usage.bits;
            &&& forall|i: int|
                #![trigger views[i]]
                0 <= i < views.len() && views[i].has_opaque_3d_phase
                    && views[i].has_alpha_mask_3d_phase && views[i].has_transmissive_3d_phase
                    && views[i].has_transparent_3d_phase && views[i].target.id
                    == served[k].target.id ==> {
                    &&& usage & views[i].depth_texture_usages.bits
                        == views[i].depth_texture_usages.bits
                    &&& views[i].depth_prepass ==> usage & 1 == 1
                }
            &&& forall|bit: u32|
                bit < 32 && #[trigger] (usage >> bit) & 1 == 1 ==> exists|i: int|
                    #![trigger views[i]]
                    0 <= i < views.len() && views[i].has_opaque_3d_phase
                        && views[i].has_alpha_mask_3d_phase && views[i].has_transmissive_3d_phase
                        && views[i].has_transparent_3d_phase && views[i].target.id
                        == served[k].target.id && ((views[i].depth_texture_usages.bits >> bit) & 1
                        == 1 || bit == 0 && views[i].depth_prepass)
        }),
{
    served_depth_views(views);
    let served = depth_views(views);
    let requests = depth_requests(views);
    depth_texture_place(views, plan, k);
    let first = first_request(requests, k);
    depth_texture_place(views, plan, first);
    let target = served[k].target;
    assert(requests[k].key == served[k].key());
    assert(requests[first].key == served[first].key());
    assert(served[first].target == target);
    depth_views_are_sized(views, k);
    let usage = target_usage(views, target)->0.bits;
    assert(plan.textures@[plan.views@[k].texture as int].usage.bits == usage);
    assert forall|i: int|
        #![trigger views[i]]
        0 <= i < views.len() && views[i].has_opaque_3d_phase && views[i].has_alpha_mask_3d_phase
            && views[i].has_transmissive_3d_phase && views[i].has_transparent_3d_phase
            && views[i].target.id == target.id implies {
        &&& usage & views[i].depth_texture_usages.bits == views[i].depth_texture_usages.bits
        &&& views[i].depth_prepass ==> usage & 1 == 1
    } by {
        target_usage_includes(views, views[i]);
        let bits = views[i].depth_texture_usages.bits;
        assert(usage & (bits | 1) == bits | 1 ==> usage & bits == bits && usage & 1 == 1)
            by (bit_vector);
    }
    assert forall|bit: u32| bit < 32 && #[trigger] (usage >> bit) & 1 == 1 implies exists|i: int|
        #![trigger views[i]]
        0 <= i < views.len() && views[i].has_opaque_3d_phase && views[i].has_alpha_mask_3d_phase
            && views[i].has_transmissive_3d_phase && views[i].has_transparent_3d_phase
            && views[i].target.id == target.id && ((views[i].depth_texture_usages.bits >> bit) & 1
            == 1 || bit == 0 && views[i].depth_prepass) by {
        let i = target_usage_is_asked(views, target, bit);
        assert(views[i].has_all_phases());
    }
}

/// The depth textures that are needed have known usages exactly when each target of known size is
/// also that of a view with all four phases of the main pass.
pub proof fn depth_usages_come_from_views_with_all_phases(views: Seq<DepthView>)
    ensures
        usages_known(views) <==> (forall|i: int|
            #![trigger views[i]]
            0 <= i < views.len() && views[i].physical_target_size is Some ==> exists|j: int|
                #![trigger views[j]]
                0 <= j < views.len() && views[j].target.id == views[i].target.id
                    && views[j].has_opaque_3d_phase && views[j].has_alpha_mask_3d_phase
                    && views[j].has_transmissive_3d_phase && views[j].has_transparent_3d_phase),
{
    assert forall|i: int| #![trigger views[i]] 0 <= i < views.len() implies (target_usage(
        views,
        views[i].target,
    ) is Some <==> exists|j: int|
        #![trigger views[j]]
        0 <= j < views.len() && views[j].target.id == views[i].target.id
            && views[j].has_opaque_3d_phase && views[j].has_alpha_mask_3d_phase
            && views[j].has_transmissive_3d_phase && views[j].has_transparent_3d_phase) by {
        if target_usage(views, views[i].target) is Some {
            let j = target_usage_has_a_view(views, views[i].target);
            assert(views[j].has_all_phases());
        }
        if exists|j: int|
            #![trigger views[j]]
            0 <= j < views.len() && views[j].target.id == views[i].target.id
                && views[j].has_opaque_3d_phase && views[j].has_alpha_mask_3d_phase
                && views[j].has_transmissive_3d_phase && views[j].has_transparent_3d_phase {
            let j = choose|j: int|
                #![trigger views[j]]
                0 <= j < views.len() && views[j].target.id == views[i].target.id
                    && views[j].has_opaque_3d_phase && views[j].has_alpha_mask_3d_phase
                    && views[j].has_transmissive_3d_phase && views[j].has_transparent_3d_phase;
            assert(views[j].target == views[i].target);
            target_usage_includes(views, views[j]);
        }
    }
    if usages_known(views) {
        assert forall|i: int|
            #![trigger views[i]]
            0 <= i < views.len() && views[i].physical_target_size is Some implies exists|j: int|
            #![trigger views[j]]
            0 <= j < views.len() && views[j].target.id == views[i].target.id
                && views[j].has_opaque_3d_phase && views[j].has_alpha_mask_3d_phase
                && views[j].has_transmissive_3d_phase && views[j].has_transparent_3d_phase by {
            assert(views[i].sized());
        }
    }
}

/// The views that get a depth texture are those whose target has a known size.
proof fn served_depth_views(views: Seq<DepthView>)
    ensures
        depth_views(views) == views.filter(
            |view: DepthView| view.physical_target_size is Some,
        ),
{
    let sized = |view: DepthView| view.sized();
    let has_size = |view: DepthView| view.physical_target_size is Some;
    assert(sized =~= has_size);
}

/// A view that gets a depth texture is one of the views, and its target has a known size.
proof fn depth_views_are_sized(views: Seq<DepthView>, k: int)
    requires
        0 <= k < depth_views(views).len(),
    ensures
        depth_views(views)[k].sized(),
        views.contains(depth_views(views)[k]),
{
    let sized = |view: DepthView| view.sized();
    views.lemma_filter_pred(sized, k);
    views.lemma_filter_contains_rev(sized, depth_views(views)[k]);
}

/// A view's texture is the one of its target and number of samples.
proof fn depth_texture_place(views: Seq<DepthView>, plan: DepthTextures, k: int)
    requires
        plan.textures@ == allocate(depth_requests(views)).textures,
        plan.views@ == depth_views(views).map_values(
            |view: DepthView| view_depth_texture(allocate(depth_requests(views)), view),
        ),
        0 <= k < depth_views(views).len(),
    ensures
        plan.views@.len() == depth_views(views).len(),
        depth_requests(views)[k].key == depth_views(views)[k].key(),
        plan.views@[k] == view_depth_texture(
            allocate(depth_requests(views)),
            depth_views(views)[k],
        ),
        plan.views@[k].texture == allocate(depth_requests(views)).index[depth_views(
            views,
        )[k].key()],
        allocate(depth_requests(views)).index.contains_key(depth_views(views)[k].key()),
        plan.views@[k].texture < plan.textures@.len(),
{
    let requests = depth_requests(views);
    allocate_one_per_key(requests);
    assert(requests[k].key == depth_views(views)[k].key());
    assert(plan.textures.len() <= usize::MAX);
}

/// A usage of a target is one that some view with all its phases asks for.
proof fn target_usage_is_asked(views: Seq<DepthView>, target: RenderTargetId, bit: u32) -> (i: int)
    requires
        target_usage(views, target) is Some,
        bit < 32,
        (target_usage(views, target)->0.bits >> bit) & 1 == 1,
    ensures
        0 <= i < views.len(),
        views[i].has_all_phases(),
        views[i].target == target,
        (views[i].depth_texture_usages.bits >> bit) & 1 == 1 || bit == 0 && views[i].depth_prepass,
    decreases views.len(),
{
    let before = views.drop_last();
    let last = views.last();
    let bits = last.depth_texture_usages.bits;
    assert(((bits | 1) >> bit) & 1 == 1 ==> (bits >> bit) & 1 == 1 || bit == 0) by (bit_vector)
        requires
            bit < 32,
    ;
    if last.has_all_phases() && last.target == target {
        if (last.usage().bits >> bit) & 1 == 1 {
            views.len() - 1
        } else {
            let (x, y) = (target_usage(before, target)->0.bits, last.usage().bits);
            assert(((x | y) >> bit) & 1 == 1 ==> (x >> bit) & 1 == 1 || (y >> bit) & 1 == 1)
                by (bit_vector);
            target_usage_is_asked(before, target, bit)
        }
    } else {
        target_usage_is_asked(before, target, bit)
    }
}

/// Where a target has usages, a view with all its phases renders to it.
proof fn target_usage_has_a_view(views: Seq<DepthView>, target: RenderTargetId) -> (i: int)
    requires
        target_usage(views, target) is Some,
    ensures
        0 <= i < views.len(),
        views[i].has_all_phases(),
        views[i].target == target,
    decreases views.len(),
{
    if views.last().has_all_phases() && views.last().target == target {
        views.len() - 1
    } else {
        target_usage_has_a_view(views.drop_last(), target)
    }
}

/// After extraction the usages of every depth texture that is needed are known, as long as only
/// the views of active cameras have targets of known size.
pub proof fn extraction_makes_depth_usages_known(
    cameras: Seq<CameraView>,
    support: GpuPreprocessingSupport,
    phases: Phases,
    views: Seq<DepthView>,
)
    requires
        forall|i: int|
            0 <= i < views.len() && (#[trigger] views[i]).sized() ==> is_active_view(
                cameras,
                views[i].entity@,
            ),
        forall|i: int|
            0 <= i < views.len() ==> (#[trigger] views[i]).agrees_with(
                run(
                    cameras_commands(cameras, support) + retain_commands(),
                    phases,
                    active_views(cameras),
                ),
            ),
    ensures
        usages_known(views),
{
    extraction_leaves_empty_phases_for_active_views(cameras, support, phases, Phase::Opaque3d);
    extraction_leaves_empty_phases_for_active_views(cameras, support, phases, Phase::AlphaMask3d);
    extraction_leaves_empty_phases_for_active_views(
        cameras,
        support,
        phases,
        Phase::Transmissive3d,
    );
    extraction_leaves_empty_phases_for_active_views(cameras, support, phases, Phase::Transparent3d);
    assert forall|i: int| 0 <= i < views.len() && (#[trigger] views[i]).sized() implies target_usage(
        views,
        views[i].target,
    ) is Some by {
        assert(active_views(cameras).contains(views[i].entity@));
        assert(views[i].agrees_with(
            run(
                cameras_commands(cameras, support) + retain_commands(),
                phases,
                active_views(cameras),
            ),
        ));
        target_usage_includes(views, views[i]);
    }
}

} // verus!
