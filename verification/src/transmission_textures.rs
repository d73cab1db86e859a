//! The texture that transmissive items of each view read the scene behind them from.

use vstd::prelude::*;

use crate::texture::{
    allocate, allocate_one_per_key, allocate_push, every_texture_is_requested, first_request,
    request_keeps_textures, Allocation, Extent3d, RenderTargetId, TextureDescriptor,
    TextureDimension, TextureFormat, TextureKey, TextureRequest, TextureTable, TextureUsages,
    UVec2,
};
use crate::view::ViewEntity;

verus! {

/// A view, as far as its transmission texture depends on it.
#[derive(Clone, Copy, Debug, PartialEq, Eq, Structural)]
pub struct TransmissionView {
    pub entity: ViewEntity,
    /// What the camera renders to.
    pub target: RenderTargetId,
    /// The size of what the camera renders to, where it is known.
    pub physical_target_size: Option<UVec2>,
    /// Whether the view renders in high dynamic range.
    pub hdr: bool,
    /// How many times the camera copies the scene for transmissive items to read.
    pub screen_space_specular_transmission_steps: usize,
    /// Whether there is an opaque phase for the view.
    pub has_opaque_3d_phase: bool,
    /// Whether there is an alpha mask phase for the view.
    pub has_alpha_mask_3d_phase: bool,
    /// The number of items in the transmissive phase for the view, if there is one.
    pub transmissive_3d_items: Option<usize>,
    /// Whether there is a transparent phase for the view.
    pub has_transparent_3d_phase: bool,
}

impl TransmissionView {
    /// Whether the view needs a transmission texture: it has all four phases of the main pass
    /// and a target of known size, takes at least one step, and has something transmissive to
    /// render.
    pub open spec fn needs_texture(self) -> bool {
        &&& self.has_opaque_3d_phase
        &&& self.has_alpha_mask_3d_phase
        &&& self.has_transparent_3d_phase
        &&& self.physical_target_size is Some
        &&& self.screen_space_specular_transmission_steps != 0
        &&& self.transmissive_3d_items matches Some(items) && items != 0
    }

    /// The key of the view's transmission texture: its target.
    pub open spec fn key(self) -> TextureKey {
        (self.target.id, 0)
    }

    /// What the view's transmission texture is created with, if the view is the first of its
    /// target. The main texture is copied into it after it is resolved, so it has one sample.
    pub open spec fn descriptor(self) -> TextureDescriptor {
        TextureDescriptor {
            label: "view_transmission_texture",
            size: Extent3d::spec_single_layer(self.physical_target_size->0),
            mip_level_count: 1,
            sample_count: 1,
            dimension: TextureDimension::D2,
            format: if self.hdr {
                TextureFormat::ViewTargetHdr
            } else {
                TextureFormat::BevyDefault
            },
            usage: TextureUsages {
                bits: TextureUsages::TEXTURE_BINDING | TextureUsages::COPY_DST,
            },
        }
    }
}

/// How a texture is filtered when it is sampled between texels.
#[derive(Clone, Copy, Debug, PartialEq, Eq, Structural)]
pub enum FilterMode {
    Nearest,
    Linear,
}

/// What to create a sampler with. Everything else is the renderer's default.
#[derive(Clone, Copy, Debug, PartialEq, Eq)]
pub struct SamplerDescriptor {
    pub label: &'static str,
    pub mag_filter: FilterMode,
    pub min_filter: FilterMode,
}

/// What every transmission texture is sampled with.
pub open spec fn transmission_sampler() -> SamplerDescriptor {
    SamplerDescriptor {
        label: "view_transmission_sampler",
        mag_filter: FilterMode::Linear,
        min_filter: FilterMode::Linear,
    }
}

/// A view's transmission texture: its place among the created textures, and the sampler to
/// create for it.
#[derive(Clone, Copy, Debug, PartialEq, Eq)]
pub struct ViewTransmissionTexture {
    pub entity: ViewEntity,
    pub texture: usize,
    pub sampler: SamplerDescriptor,
}

/// The transmission textures to create, in order, and the views to hand them to, in order.
#[derive(Debug, PartialEq, Eq)]
pub struct TransmissionTextures {
    pub textures: Vec<TextureDescriptor>,
    pub views: Vec<ViewTransmissionTexture>,
}

/// The views that get a transmission texture.
pub open spec fn transmission_views(views: Seq<TransmissionView>) -> Seq<TransmissionView> {
    views.filter(|view: TransmissionView| view.needs_texture())
}

/// The request of each view that gets a transmission texture.
pub open spec fn transmission_requests(views: Seq<TransmissionView>) -> Seq<TextureRequest> {
    transmission_views(views).map_values(
        |view: TransmissionView|
            TextureRequest { key: view.key(), descriptor: view.descriptor() },
    )
}

/// What a view gets: the texture of its target, and a sampler of its own.
pub open spec fn view_transmission_texture(
    allocation: Allocation,
    view: TransmissionView,
) -> ViewTransmissionTexture {
    ViewTransmissionTexture {
        entity: view.entity,
        texture: allocation.index[view.key()] as usize,
        sampler: transmission_sampler(),
    }
}

/// Plans the transmission textures: each view that needs one gets one, and views with the same
/// target share one, which is created for the first of them.
pub fn prepare_core_3d_transmission_textures(views_3d: &Vec<TransmissionView>) -> (plan:
    TransmissionTextures)
    ensures
        plan.textures@ == allocate(transmission_requests(views_3d@)).textures,
        plan.views@ == transmission_views(views_3d@).map_values(
            |view: TransmissionView|
                view_transmission_texture(allocate(transmission_requests(views_3d@)), view),
        ),
{
    let ghost all = views_3d@;
    let mut table = TextureTable::new();
    let mut views: Vec<ViewTransmissionTexture> = Vec::new();
    for i in 0..views_3d.len()
        invariant
            all == views_3d@,
            table.wf(),
            table.view() == allocate(transmission_requests(all.take(i as int))),
            views@ == transmission_views(all.take(i as int)).map_values(
                |view: TransmissionView|
                    view_transmission_texture(
                        allocate(transmission_requests(all.take(i as int))),
                        view,
                    ),
            ),
    {
        let view = views_3d[i];
        proof {
            reveal(Seq::filter);
            assert(all.take(i + 1).drop_last() =~= all.take(i as int));
        }
        if let (Some(items), Some(physical_target_size)) = (
            view.transmissive_3d_items,
            view.physical_target_size,
        ) {
            // No transmission texture if the number of steps is set to 0, nor if there are no
            // transmissive items to render
            if view.has_opaque_3d_phase && view.has_alpha_mask_3d_phase
                && view.has_transparent_3d_phase
                && view.screen_space_specular_transmission_steps != 0 && items != 0 {
                let descriptor = TextureDescriptor {
                    label: "view_transmission_texture",
                    size: Extent3d::single_layer(physical_target_size),
                    mip_level_count: 1,
                    sample_count: 1,  // No need for MSAA, as only the main texture is copied here
                    dimension: TextureDimension::D2,
                    format: if view.hdr {
                        TextureFormat::ViewTargetHdr
                    } else {
                        TextureFormat::BevyDefault
                    },
                    usage: TextureUsages {
                        bits: TextureUsages::TEXTURE_BINDING | TextureUsages::COPY_DST,
                    },
                };
                let texture = table.request((view.target.id, 0), descriptor);
                proof {
                    let before = transmission_views(all.take(i as int));
                    let done = transmission_requests(all.take(i as int));
                    let request = TextureRequest { key: view.key(), descriptor };
                    assert(transmission_requests(all.take(i + 1)) =~= done.push(request));
                    allocate_push(done, request);
                    request_keeps_textures(allocate(done), request);
                    allocate_one_per_key(done);
                    assert forall|j: int| 0 <= j < before.len() implies view_transmission_texture(
                        allocate(done),
                        #[trigger] before[j],
                    ) == view_transmission_texture(allocate(done.push(request)), before[j]) by {
                        assert(done[j].key == before[j].key());
                    }
                }
                views.push(
                    ViewTransmissionTexture {
                        entity: view.entity,
                        texture,
                        sampler: SamplerDescriptor {
                            label: "view_transmission_sampler",
                            mag_filter: FilterMode::Linear,
                            min_filter: FilterMode::Linear,
                        },
                    },
                );
            }
        }
    }
    assert(all.take(all.len() as int) =~= all);
    TransmissionTextures { textures: table.into_textures(), views }
}

/// Two views get the same transmission texture exactly when they have the same target, and each
/// gets one of the textures that are created.
pub proof fn transmission_textures_are_shared_by_target(
    views: Seq<TransmissionView>,
    a: TransmissionView,
    b: TransmissionView,
)
    requires
        transmission_views(views).contains(a),
        transmission_views(views).contains(b),
    ensures
        ({
            let allocation = allocate(transmission_requests(views));
            &&& 0 <= allocation.index[a.key()] < allocation.textures.len()
            &&& allocation.index[a.key()] == allocation.index[b.key()] <==> a.target == b.target
        }),
{
    let requests = transmission_requests(views);
    allocate_one_per_key(requests);
    let i = transmission_views(views).index_of(a);
    let j = transmission_views(views).index_of(b);
    assert(requests[i].key == a.key());
    assert(requests[j].key == b.key());
}

/// A transmission texture is created for the first view of its target that needs one.
pub proof fn transmission_textures_fit_the_first_view(views: Seq<TransmissionView>, i: int) -> (
first: int)
    requires
        0 <= i < transmission_views(views).len(),
    ensures
        ({
            let allocation = allocate(transmission_requests(views));
            let view = transmission_views(views)[i];
            &&& 0 <= first <= i
            &&& transmission_views(views)[first].target == view.target
            &&& forall|j: int|
                0 <= j < first ==> (#[trigger] transmission_views(views)[j]).target != view.target
            &&& allocation.textures[allocation.index[view.key()]]
                == transmission_views(views)[first].descriptor()
        }),
{
    let requests = transmission_requests(views);
    let first = first_request(requests, i);
    assert(requests[i].key == transmission_views(views)[i].key());
    assert(requests[first].key == transmission_views(views)[first].key());
    assert forall|j: int| 0 <= j < first implies (#[trigger] transmission_views(views)[j]).target
        != transmission_views(views)[i].target by {
        assert(requests[j].key == transmission_views(views)[j].key());
    }
    first
}

/// The views with all phases of the main pass, a target of known size, at least one step and at
/// least one transmissive item are served, in order and no others: each gets one of the textures
/// that are created, and a sampler that filters linearly.
pub proof fn transmission_textures_go_to_views_with_items(
    views: Seq<TransmissionView>,
    plan: TransmissionTextures,
)
    requires
        plan.textures@ == allocate(transmission_requests(views)).textures,
        plan.views@ == transmission_views(views).map_values(
            |view: TransmissionView|
                view_transmission_texture(allocate(transmission_requests(views)), view),
        ),
    ensures
        ({
            let served = views.filter(
                |view: TransmissionView|
                    view.has_opaque_3d_phase && view.has_alpha_mask_3d_phase
                        && view.has_transparent_3d_phase && view.physical_target_size is Some
                        && view.screen_space_specular_transmission_steps >= 1 && (
                    view.transmissive_3d_items matches Some(items) && items >= 1),
            );
            &&& plan.views@.len() == served.len()
            &&& forall|k: int|
                #![trigger plan.views@[k]]
                0 <= k < served.len() ==> {
                    &&& plan.views@[k].entity == served[k].entity
                    &&& plan.views@[k].texture < plan.textures@.len()
                    &&& plan.views@[k].sampler.label == "view_transmission_sampler"
                    &&& plan.views@[k].sampler.mag_filter == FilterMode::Linear
                    &&& plan.views@[k].sampler.min_filter == FilterMode::Linear
                }
        }),
{
    served_transmission_views(views);
    let served = transmission_views(views);
    assert forall|k: int| #![trigger plan.views@[k]] 0 <= k < served.len() implies {
        &&& plan.views@[k].entity == served[k].entity
        &&& plan.views@[k].texture < plan.textures@.len()
        &&& plan.views@[k].sampler == transmission_sampler()
    } by {
        transmission_texture_place(views, plan, k);
    }
}

/// A view whose fields say that it has something transmissive to render gets a transmission
/// texture, and a view that gets one is such a view.
pub proof fn transmissive_items_decide_who_is_served(
    views: Seq<TransmissionView>,
    plan: TransmissionTextures,
    i: int,
)
    requires
        plan.textures@ == allocate(transmission_requests(views)).textures,
        plan.views@ == transmission_views(views).map_values(
            |view: TransmissionView|
                view_transmission_texture(allocate(transmission_requests(views)), view),
        ),
        0 <= i < views.len(),
        forall|j: int|
            0 <= j < views.len() && j != i ==> (#[trigger] views[j]).entity != views[i].entity,
    ensures
        (exists|k: int|
            0 <= k < plan.views@.len() && (#[trigger] plan.views@[k]).entity == views[i].entity)
            <==> (views[i].transmissive_3d_items matches Some(items) && items > 0)
            && views[i].screen_space_specular_transmission_steps > 0
            && views[i].physical_target_size is Some && views[i].has_opaque_3d_phase
            && views[i].has_alpha_mask_3d_phase && views[i].has_transparent_3d_phase,
{
    let needs = |view: TransmissionView| view.needs_texture();
    let served = transmission_views(views);
    if views[i].needs_texture() {
        views.lemma_filter_contains(needs, i);
        let k = served.index_of(views[i]);
        assert(served[k] == views[i]);
        transmission_texture_place(views, plan, k);
        assert(plan.views@[k].entity == views[i].entity);
    }
    if exists|k: int|
        0 <= k < plan.views@.len() && (#[trigger] plan.views@[k]).entity == views[i].entity {
        let k = choose|k: int|
            0 <= k < plan.views@.len() && (#[trigger] plan.views@[k]).entity == views[i].entity;
        transmission_texture_place(views, plan, k);
        views.lemma_filter_pred(needs, k);
        views.lemma_filter_contains_rev(needs, served[k]);
        let j = views.index_of(served[k]);
        assert(views[j] == served[k]);
    }
}

/// Two views that are served get the same texture exactly when they have the same target.
pub proof fn transmission_textures_tell_targets_apart(
    views: Seq<TransmissionView>,
    plan: TransmissionTextures,
)
    requires
        plan.textures@ == allocate(transmission_requests(views)).textures,
        plan.views@ == transmission_views(views).map_values(
            |view: TransmissionView|
                view_transmission_texture(allocate(transmission_requests(views)), view),
        ),
    ensures
        ({
            let served = views.filter(
                |view: TransmissionView|
                    view.has_opaque_3d_phase && view.has_alpha_mask_3d_phase
                        && view.has_transparent_3d_phase && view.physical_target_size is Some
                        && view.screen_space_specular_transmission_steps >= 1 && (
                    view.transmissive_3d_items matches Some(items) && items >= 1),
            );
            forall|j: int, k: int|
                #![trigger plan.views@[j], plan.views@[k]]
                0 <= j < served.len() && 0 <= k < served.len() ==> (plan.views@[j].texture
                    == plan.views@[k].texture <==> served[j].target.id == served[k].target.id)
        }),
{
    served_transmission_views(views);
    let served = transmission_views(views);
    allocate_one_per_key(transmission_requests(views));
    assert forall|j: int, k: int|
        #![trigger plan.views@[j], plan.views@[k]]
        0 <= j < served.len() && 0 <= k < served.len() implies (plan.views@[j].texture
        == plan.views@[k].texture <==> served[j].target.id == served[k].target.id) by {
        transmission_texture_place(views, plan, j);
        transmission_texture_place(views, plan, k);
    }
}

/// Every transmission texture that is created goes to some view.
pub proof fn no_transmission_texture_is_spare(
    views: Seq<TransmissionView>,
    plan: TransmissionTextures,
    place: int,
) -> (k: int)
    requires
        plan.textures@ == allocate(transmission_requests(views)).textures,
        plan.views@ == transmission_views(views).map_values(
            |view: TransmissionView|
                view_transmission_texture(allocate(transmission_requests(views)), view),
        ),
        0 <= place < plan.textures@.len(),
    ensures
        0 <= k < plan.views@.len(),
        plan.views@[k].texture == place,
{
    let k = every_texture_is_requested(transmission_requests(views), place);
    transmission_texture_place(views, plan, k);
    k
}

/// A transmission texture is a flat one that can be copied into and sampled, with one layer, one
/// mip level and one sample. It has the size of the target of the first view that gets it, and
/// that view's format.
pub proof fn transmission_textures_suit_the_first_view(
    views: Seq<TransmissionView>,
    plan: TransmissionTextures,
    k: int,
)
    requires
        plan.textures@ == allocate(transmission_requests(views)).textures,
        plan.views@ == transmission_views(views).map_values(
            |view: TransmissionView|
                view_transmission_texture(allocate(transmission_requests(views)), view),
        ),
        0 <= k < plan.views@.len(),
        forall|j: int|
            0 <= j < k ==> (#[trigger] plan.views@[j]).texture != plan.views@[k].texture,
    ensures
        ({
            let served = views.filter(
                |view: TransmissionView|
                    view.has_opaque_3d_phase && view.has_alpha_mask_3d_phase
                        && view.has_transparent_3d_phase && view.physical_target_size is Some
                        && view.screen_space_specular_transmission_steps >= 1 && (
                    view.transmissive_3d_items matches Some(items) && items >= 1),
            );
            let texture = plan.textures@[plan.views@[k].texture as int];
            &&& texture.label == "view_transmission_texture"
            &&& served[k].physical_target_size == Some(
                UVec2 { x: texture.size.width, y: texture.size.height },
            )
            &&& texture.size.depth_or_array_layers == 1
            &&& texture.mip_level_count == 1
            &&& texture.sample_count == 1
            &&& texture.dimension == TextureDimension::D2
            &&& served[k].hdr <==> texture.format == TextureFormat::ViewTargetHdr
            &&& !served[k].hdr <==> texture.format == TextureFormat::BevyDefault
            &&& texture.usage.bits == 6
        }),
{
    served_transmission_views(views);
    let requests = transmission_requests(views);
    transmission_texture_place(views, plan, k);
    let first = first_request(requests, k);
    transmission_texture_place(views, plan, first);
    assert(plan.views@[first].texture == plan.views@[k].texture);
    assert(first == k);
    views.lemma_filter_pred(|view: TransmissionView| view.needs_texture(), k);
    assert(4u32 | 2u32 == 6) by (bit_vector);
}

/// The views that get a transmission texture, by their fields.
proof fn served_transmission_views(views: Seq<TransmissionView>)
    ensures
        transmission_views(views) == views.filter(
            |view: TransmissionView|
                view.has_opaque_3d_phase && view.has_alpha_mask_3d_phase
                    && view.has_transparent_3d_phase && view.physical_target_size is Some
                    && view.screen_space_specular_transmission_steps >= 1 && (
                view.transmissive_3d_items matches Some(items) && items >= 1),
        ),
{
    let needs = |view: TransmissionView| view.needs_texture();
    let fields = |view: TransmissionView|
        view.has_opaque_3d_phase && view.has_alpha_mask_3d_phase && view.has_transparent_3d_phase
            && view.physical_target_size is Some && view.screen_space_specular_transmission_steps
            >= 1 && (view.transmissive_3d_items matches Some(items) && items >= 1);
    assert(needs =~= fields);
}

/// A view's texture is the one of its target.
proof fn transmission_texture_place(
    views: Seq<TransmissionView>,
    plan: TransmissionTextures,
    k: int,
)
    requires
        plan.textures@ == allocate(transmission_requests(views)).textures,
        plan.views@ == transmission_views(views).map_values(
            |view: TransmissionView|
                view_transmission_texture(allocate(transmission_requests(views)), view),
        ),
        0 <= k < transmission_views(views).len(),
    ensures
        plan.views@.len() == transmission_views(views).len(),
        transmission_requests(views)[k].key == transmission_views(views)[k].key(),
        plan.views@[k] == view_transmission_texture(
            allocate(transmission_requests(views)),
            transmission_views(views)[k],
        ),
        plan.views@[k].texture == allocate(transmission_requests(views)).index[transmission_views(
            views,
        )[k].key()],
        allocate(transmission_requests(views)).index.contains_key(
            transmission_views(views)[k].key(),
        ),
        plan.views@[k].texture < plan.textures@.len(),
{
    let requests = transmission_requests(views);
    allocate_one_per_key(requests);
    assert(requests[k].key == transmission_views(views)[k].key());
    assert(plan.textures.len() <= usize::MAX);
}

} // verus!
