//! The textures that the prepass of each view renders to.

use vstd::prelude::*;

use crate::extract::{run, Phase, Phases};
use crate::extract_prepass::{
    active_prepass_views, is_last_of_view, prepass_cameras_commands,
    prepass_extraction_leaves_empty_phases_for_wanted_views, prepass_retain_commands,
    PrepassCameraView,
};
use crate::texture::{
    allocate, allocate_keeps_textures, allocate_one_per_key, allocate_push,
    every_texture_is_requested, first_request,
    Allocation, Extent3d, RenderTargetId, TextureDescriptor, TextureDimension, TextureFormat,
    TextureKey, TextureRequest, TextureTable, TextureUsages, UVec2, CORE_3D_DEPTH_FORMAT,
};
use crate::view::{GpuPreprocessingSupport, Msaa, ViewEntity};

verus! {

/// A view, as far as its prepass textures depend on it.
#[derive(Clone, Copy, Debug, PartialEq, Eq, Structural)]
pub struct PrepassView {
    pub entity: ViewEntity,
    /// What the camera renders to.
    pub target: RenderTargetId,
    /// The size of what the camera renders to, where it is known.
    pub physical_target_size: Option<UVec2>,
    pub msaa: Msaa,
    pub depth_prepass: bool,
    pub normal_prepass: bool,
    pub motion_vector_prepass: bool,
    pub deferred_prepass: bool,
    /// Whether there is an opaque prepass phase for the view.
    pub has_opaque_3d_prepass_phase: bool,
    /// Whether there is an alpha mask prepass phase for the view.
    pub has_alpha_mask_3d_prepass_phase: bool,
    /// Whether there is an opaque deferred phase for the view.
    pub has_opaque_3d_deferred_phase: bool,
    /// Whether there is an alpha mask deferred phase for the view.
    pub has_alpha_mask_3d_deferred_phase: bool,
}

/// What a texture of the prepass holds.
#[derive(Clone, Copy, Debug, PartialEq, Eq, Structural)]
pub enum PrepassTexture {
    Depth,
    Normal,
    MotionVectors,
    Deferred,
    DeferredLightingPassId,
}

impl PrepassTexture {
    /// The number that tells the textures of one target apart.
    pub open spec fn spec_number(self) -> u32 {
        match self {
            PrepassTexture::Depth => 0,
            PrepassTexture::Normal => 1,
            PrepassTexture::MotionVectors => 2,
            PrepassTexture::Deferred => 3,
            PrepassTexture::DeferredLightingPassId => 4,
        }
    }

    /// The number that tells the textures of one target apart.
    fn number(self) -> (number: u32)
        ensures
            number == self.spec_number(),
    {
        match self {
            PrepassTexture::Depth => 0,
            PrepassTexture::Normal => 1,
            PrepassTexture::MotionVectors => 2,
            PrepassTexture::Deferred => 3,
            PrepassTexture::DeferredLightingPassId => 4,
        }
    }

    /// The name of the texture for debugging.
    pub open spec fn spec_label(self) -> &'static str {
        match self {
            PrepassTexture::Depth => "prepass_depth_texture",
            PrepassTexture::Normal => "prepass_normal_texture",
            PrepassTexture::MotionVectors => "prepass_motion_vectors_textures",
            PrepassTexture::Deferred => "prepass_deferred_texture",
            PrepassTexture::DeferredLightingPassId => "deferred_lighting_pass_id_texture",
        }
    }

    /// The name of the texture for debugging.
    fn label(self) -> (label: &'static str)
        ensures
            label == self.spec_label(),
    {
        match self {
            PrepassTexture::Depth => "prepass_depth_texture",
            PrepassTexture::Normal => "prepass_normal_texture",
            PrepassTexture::MotionVectors => "prepass_motion_vectors_textures",
            PrepassTexture::Deferred => "prepass_deferred_texture",
            PrepassTexture::DeferredLightingPassId => "deferred_lighting_pass_id_texture",
        }
    }

    /// The texel format of the texture.
    pub open spec fn spec_format(self) -> TextureFormat {
        match self {
            PrepassTexture::Depth => CORE_3D_DEPTH_FORMAT,
            PrepassTexture::Normal => TextureFormat::NormalPrepass,
            PrepassTexture::MotionVectors => TextureFormat::MotionVectorPrepass,
            PrepassTexture::Deferred => TextureFormat::DeferredPrepass,
            PrepassTexture::DeferredLightingPassId => TextureFormat::DeferredLightingPassId,
        }
    }

    /// The texel format of the texture.
    fn format(self) -> (format: TextureFormat)
        ensures
            format == self.spec_format(),
    {
        match self {
            PrepassTexture::Depth => CORE_3D_DEPTH_FORMAT,
            PrepassTexture::Normal => TextureFormat::NormalPrepass,
            PrepassTexture::MotionVectors => TextureFormat::MotionVectorPrepass,
            PrepassTexture::Deferred => TextureFormat::DeferredPrepass,
            PrepassTexture::DeferredLightingPassId => TextureFormat::DeferredLightingPassId,
        }
    }

    /// Whether the texture belongs to the deferred prepass. Such a texture has one sample.
    pub open spec fn is_deferred(self) -> bool {
        self is Deferred || self is DeferredLightingPassId
    }

    /// What the texture is used for. Depth is also copied into the texture.
    pub open spec fn spec_usage(self) -> TextureUsages {
        TextureUsages {
            bits: if self is Depth {
                TextureUsages::COPY_DST | TextureUsages::RENDER_ATTACHMENT
                    | TextureUsages::TEXTURE_BINDING
            } else {
                TextureUsages::RENDER_ATTACHMENT | TextureUsages::TEXTURE_BINDING
            },
        }
    }

    /// What the texture is used for.
    fn usage(self) -> (usage: TextureUsages)
        ensures
            usage == self.spec_usage(),
    {
        match self {
            PrepassTexture::Depth => TextureUsages {
                bits: TextureUsages::COPY_DST | TextureUsages::RENDER_ATTACHMENT
                    | TextureUsages::TEXTURE_BINDING,
            },
            _ => TextureUsages {
                bits: TextureUsages::RENDER_ATTACHMENT | TextureUsages::TEXTURE_BINDING,
            },
        }
    }
}

impl PrepassView {
    /// Whether the view gets prepass textures: it has one of the four phases of the prepass,
    /// and a target of known size.
    pub open spec fn needs_textures(self) -> bool {
        &&& {
            ||| self.has_opaque_3d_prepass_phase
            ||| self.has_alpha_mask_3d_prepass_phase
            ||| self.has_opaque_3d_deferred_phase
            ||| self.has_alpha_mask_3d_deferred_phase
        }
        &&& self.physical_target_size is Some
    }

    /// Whether what is said of the view's phases is true of `phases`.
    pub open spec fn agrees_with(self, phases: Phases) -> bool {
        let view = self.entity@;
        &&& self.has_opaque_3d_prepass_phase == phases[Phase::Opaque3dPrepass].contains_key(view)
        &&& self.has_alpha_mask_3d_prepass_phase == phases[Phase::AlphaMask3dPrepass].contains_key(
            view,
        )
        &&& self.has_opaque_3d_deferred_phase == phases[Phase::Opaque3dDeferred].contains_key(view)
        &&& self.has_alpha_mask_3d_deferred_phase
            == phases[Phase::AlphaMask3dDeferred].contains_key(view)
    }

    /// Whether the view's prepass renders to the texture.
    pub open spec fn has(self, texture: PrepassTexture) -> bool {
        match texture {
            PrepassTexture::Depth => self.depth_prepass,
            PrepassTexture::Normal => self.normal_prepass,
            PrepassTexture::MotionVectors => self.motion_vector_prepass,
            PrepassTexture::Deferred => self.deferred_prepass,
            PrepassTexture::DeferredLightingPassId => self.deferred_prepass,
        }
    }

    /// The key of a texture of the view: its target, and what the texture holds.
    pub open spec fn key(self, texture: PrepassTexture) -> TextureKey {
        (self.target.id, texture.spec_number())
    }

    /// The size of the view's textures.
    pub open spec fn size(self) -> Extent3d {
        Extent3d::spec_single_layer(self.physical_target_size->0)
    }

    /// What a texture of the view is created with, if the view is the first of its target that
    /// renders to it.
    pub open spec fn descriptor(self, texture: PrepassTexture) -> TextureDescriptor {
        TextureDescriptor {
            label: texture.spec_label(),
            size: self.size(),
            mip_level_count: 1,
            sample_count: if texture.is_deferred() {
                1
            } else {
                self.msaa.spec_samples()
            },
            dimension: TextureDimension::D2,
            format: texture.spec_format(),
            usage: texture.spec_usage(),
        }
    }

    /// The request for a texture, if the view's prepass renders to it.
    pub open spec fn request(self, texture: PrepassTexture) -> Seq<TextureRequest> {
        if self.has(texture) {
            seq![TextureRequest { key: self.key(texture), descriptor: self.descriptor(texture) }]
        } else {
            Seq::empty()
        }
    }

    /// The requests of the view, in order.
    pub open spec fn requests(self) -> Seq<TextureRequest> {
        self.request(PrepassTexture::Depth) + self.request(PrepassTexture::Normal) + self.request(
            PrepassTexture::MotionVectors,
        ) + self.request(PrepassTexture::Deferred) + self.request(
            PrepassTexture::DeferredLightingPassId,
        )
    }

    /// The place of a texture of the view among the created ones, if the view's prepass renders
    /// to it.
    pub open spec fn place(self, allocation: Allocation, texture: PrepassTexture) -> Option<
        usize,
    > {
        if self.has(texture) {
            Some(allocation.index[self.key(texture)] as usize)
        } else {
            None
        }
    }
}

/// The color that an attachment is cleared to.
#[derive(Clone, Copy, Debug, PartialEq, Eq, Structural)]
pub enum ClearColor {
    /// Opaque black.
    Black,
}

/// A texture that a pass renders to, without a texture to resolve it to: its place among the
/// created textures, and what it is cleared to before its first use.
#[derive(Clone, Copy, Debug, PartialEq, Eq, Structural)]
pub struct ColorAttachment {
    pub texture: usize,
    pub clear_color: ClearColor,
}

/// A view's prepass textures.
#[derive(Clone, Copy, Debug, PartialEq, Eq, Structural)]
pub struct ViewPrepassTextures {
    pub entity: ViewEntity,
    pub depth: Option<ColorAttachment>,
    pub normal: Option<ColorAttachment>,
    pub motion_vectors: Option<ColorAttachment>,
    pub deferred: Option<ColorAttachment>,
    pub deferred_lighting_pass_id: Option<ColorAttachment>,
    pub size: Extent3d,
}

/// The prepass textures to create, in order, and the views to hand them to, in order.
#[derive(Debug, PartialEq, Eq)]
pub struct PrepassTextures {
    pub textures: Vec<TextureDescriptor>,
    pub views: Vec<ViewPrepassTextures>,
}

/// The views that get prepass textures.
pub open spec fn prepass_views(views: Seq<PrepassView>) -> Seq<PrepassView> {
    views.filter(|view: PrepassView| view.needs_textures())
}

/// The requests of the views, one view after the other.
pub open spec fn prepass_requests(views: Seq<PrepassView>) -> Seq<TextureRequest>
    decreases views.len(),
{
    if views.len() == 0 {
        Seq::empty()
    } else {
        prepass_requests(views.drop_last()) + views.last().requests()
    }
}

/// The attachment of a created texture, cleared to black.
pub open spec fn black_attachment(texture: Option<usize>) -> Option<ColorAttachment> {
    match texture {
        Some(texture) => Some(ColorAttachment { texture, clear_color: ClearColor::Black }),
        None => None,
    }
}

/// What a view gets: for each kind of texture that its prepass renders to, the one of its
/// target.
pub open spec fn view_prepass_textures(allocation: Allocation, view: PrepassView) ->
    ViewPrepassTextures {
    ViewPrepassTextures {
        entity: view.entity,
        depth: black_attachment(view.place(allocation, PrepassTexture::Depth)),
        normal: black_attachment(view.place(allocation, PrepassTexture::Normal)),
        motion_vectors: black_attachment(view.place(allocation, PrepassTexture::MotionVectors)),
        deferred: black_attachment(view.place(allocation, PrepassTexture::Deferred)),
        deferred_lighting_pass_id: black_attachment(
            view.place(allocation, PrepassTexture::DeferredLightingPassId),
        ),
        size: view.size(),
    }
}

/// The textures after the view has requested one, if its prepass renders to it.
spec fn after_request(
    allocation: Allocation,
    view: PrepassView,
    texture: PrepassTexture,
) -> Allocation {
    if view.has(texture) {
        allocation.request(
            TextureRequest { key: view.key(texture), descriptor: view.descriptor(texture) },
        )
    } else {
        allocation
    }
}

/// Requests a texture of the view, if its prepass renders to it.
fn request_texture(
    table: &mut TextureTable,
    view: &PrepassView,
    texture: PrepassTexture,
    wanted: bool,
    size: Extent3d,
    sample_count: u32,
) -> (attachment: Option<ColorAttachment>)
    requires
        old(table).wf(),
        wanted == view.has(texture),
        size == view.size(),
        sample_count == view.descriptor(texture).sample_count,
    ensures
        final(table).wf(),
        final(table).view() == after_request(old(table).view(), *view, texture),
        wanted ==> final(table).view().index.contains_key(view.key(texture)),
        attachment == black_attachment(view.place(final(table).view(), texture)),
{
    if wanted {
        let descriptor = TextureDescriptor {
            label: texture.label(),
            size,
            mip_level_count: 1,
            sample_count,
            dimension: TextureDimension::D2,
            format: texture.format(),
            usage: texture.usage(),
        };
        let texture = table.request((view.target.id, texture.number()), descriptor);
        Some(ColorAttachment { texture, clear_color: ClearColor::Black })
    } else {
        None
    }
}

/// The request for a texture, after others.
proof fn request_one(requests: Seq<TextureRequest>, view: PrepassView, texture: PrepassTexture)
    ensures
        allocate(requests + view.request(texture)) == after_request(
            allocate(requests),
            view,
            texture,
        ),
{
    if view.has(texture) {
        let request = TextureRequest {
            key: view.key(texture),
            descriptor: view.descriptor(texture),
        };
        assert(requests + view.request(texture) =~= requests.push(request));
        allocate_push(requests, request);
    } else {
        assert(requests + view.request(texture) =~= requests);
    }
}

/// The requests of a view, after others.
proof fn request_all(requests: Seq<TextureRequest>, view: PrepassView)
    ensures
        allocate(requests + view.requests()) == ({
            let a = after_request(allocate(requests), view, PrepassTexture::Depth);
            let a = after_request(a, view, PrepassTexture::Normal);
            let a = after_request(a, view, PrepassTexture::MotionVectors);
            let a = after_request(a, view, PrepassTexture::Deferred);
            after_request(a, view, PrepassTexture::DeferredLightingPassId)
        }),
{
    let r1 = requests + view.request(PrepassTexture::Depth);
    let r2 = r1 + view.request(PrepassTexture::Normal);
    let r3 = r2 + view.request(PrepassTexture::MotionVectors);
    let r4 = r3 + view.request(PrepassTexture::Deferred);
    let r5 = r4 + view.request(PrepassTexture::DeferredLightingPassId);
    request_one(requests, view, PrepassTexture::Depth);
    request_one(r1, view, PrepassTexture::Normal);
    request_one(r2, view, PrepassTexture::MotionVectors);
    request_one(r3, view, PrepassTexture::Deferred);
    request_one(r4, view, PrepassTexture::DeferredLightingPassId);
    assert(requests + view.requests() =~= r5);
}

/// The request of a view for a texture that its prepass renders to, among the requests of all
/// the views.
proof fn find_request(views: Seq<PrepassView>, i: int, texture: PrepassTexture) -> (place: int)
    requires
        0 <= i < views.len(),
        views[i].has(texture),
    ensures
        0 <= place < prepass_requests(views).len(),
        prepass_requests(views.take(i)).len() <= place < prepass_requests(views.take(i + 1)).len(),
        prepass_requests(views)[place] == (TextureRequest {
            key: views[i].key(texture),
            descriptor: views[i].descriptor(texture),
        }),
    decreases views.len(),
{
    let before = prepass_requests(views.drop_last());
    if i < views.len() - 1 {
        assert(views.drop_last().take(i) =~= views.take(i));
        assert(views.drop_last().take(i + 1) =~= views.take(i + 1));
        find_request(views.drop_last(), i, texture)
    } else {
        assert(views.take(i) =~= views.drop_last());
        assert(views.take(i + 1) =~= views);
        let view = views[i];
        let n = before.len() as int;
        let depth = view.request(PrepassTexture::Depth).len() as int;
        let normal = view.request(PrepassTexture::Normal).len() as int;
        let motion_vectors = view.request(PrepassTexture::MotionVectors).len() as int;
        let deferred = view.request(PrepassTexture::Deferred).len() as int;
        match texture {
            PrepassTexture::Depth => n,
            PrepassTexture::Normal => n + depth,
            PrepassTexture::MotionVectors => n + depth + normal,
            PrepassTexture::Deferred => n + depth + normal + motion_vectors,
            PrepassTexture::DeferredLightingPassId => {
                n + depth + normal + motion_vectors + deferred
            },
        }
    }
}

/// Every texture that the prepass of a view renders to is created.
proof fn textures_exist(views: Seq<PrepassView>, i: int)
    requires
        0 <= i < views.len(),
    ensures
        forall|texture: PrepassTexture| #[trigger]
            views[i].has(texture) ==> allocate(prepass_requests(views)).index.contains_key(
                views[i].key(texture),
            ),
{
    assert forall|texture: PrepassTexture| #[trigger]
        views[i].has(texture) implies allocate(prepass_requests(views)).index.contains_key(
        views[i].key(texture),
    ) by {
        let place = find_request(views, i, texture);
        allocate_one_per_key(prepass_requests(views));
    }
}

/// Plans the prepass textures: each view that has a phase of the prepass and a target of known
/// size gets one of each kind that its prepass renders to, and views with the same target share
/// them. Each is created for the first of the views that render to it.
pub fn prepare_prepass_textures(views_3d: &Vec<PrepassView>) -> (plan: PrepassTextures)
    ensures
        plan.textures@ == allocate(prepass_requests(prepass_views(views_3d@))).textures,
        plan.views@ == prepass_views(views_3d@).map_values(
            |view: PrepassView|
                view_prepass_textures(
                    allocate(prepass_requests(prepass_views(views_3d@))),
                    view,
                ),
        ),
{
    let ghost all = views_3d@;
    let mut table = TextureTable::new();
    let mut views: Vec<ViewPrepassTextures> = Vec::new();
    for i in 0..views_3d.len()
        invariant
            all == views_3d@,
            table.wf(),
            table.view() == allocate(prepass_requests(prepass_views(all.take(i as int)))),
            views@ == prepass_views(all.take(i as int)).map_values(
                |view: PrepassView|
                    view_prepass_textures(
                        allocate(prepass_requests(prepass_views(all.take(i as int)))),
                        view,
                    ),
            ),
    {
        let view = views_3d[i];
        proof {
            reveal(Seq::filter);
            assert(all.take(i + 1).drop_last() =~= all.take(i as int));
        }
        if let Some(physical_target_size) = view.physical_target_size {
            if view.has_opaque_3d_prepass_phase || view.has_alpha_mask_3d_prepass_phase
                || view.has_opaque_3d_deferred_phase || view.has_alpha_mask_3d_deferred_phase {
                let size = Extent3d::single_layer(physical_target_size);
                let samples = view.msaa.samples();
                let depth = request_texture(
                    &mut table,
                    &view,
                    PrepassTexture::Depth,
                    view.depth_prepass,
                    size,
                    samples,
                );
                let normal = request_texture(
                    &mut table,
                    &view,
                    PrepassTexture::Normal,
                    view.normal_prepass,
                    size,
                    samples,
                );
                let motion_vectors = request_texture(
                    &mut table,
                    &view,
                    PrepassTexture::MotionVectors,
                    view.motion_vector_prepass,
                    size,
                    samples,
                );
                let deferred = request_texture(
                    &mut table,
                    &view,
                    PrepassTexture::Deferred,
                    view.deferred_prepass,
                    size,
                    1,
                );
                let deferred_lighting_pass_id = request_texture(
                    &mut table,
                    &view,
                    PrepassTexture::DeferredLightingPassId,
                    view.deferred_prepass,
                    size,
                    1,
                );
                proof {
                    let before = prepass_views(all.take(i as int));
                    let now = prepass_views(all.take(i + 1));
                    assert(now =~= before.push(view));
                    assert(now.drop_last() =~= before);
                    let done = prepass_requests(before);
                    request_all(done, view);
                    allocate_keeps_textures(done, view.requests());
                    assert forall|j: int| 0 <= j < before.len() implies view_prepass_textures(
                        allocate(done),
                        #[trigger] before[j],
                    ) == view_prepass_textures(table.view(), before[j]) by {
                        textures_exist(before, j);
                    }
                }
                views.push(
                    ViewPrepassTextures {
                        entity: view.entity,
                        depth,
                        normal,
                        // Red and Green channels are X and Y components of the motion vectors
                        // Blue channel doesn't matter
                        motion_vectors,
                        deferred,
                        deferred_lighting_pass_id,
                        size,
                    },
                );
            }
        }
    }
    assert(all.take(all.len() as int) =~= all);
    PrepassTextures { textures: table.into_textures(), views }
}

/// Two prepass textures of views are the same exactly when the views have the same target and
/// the textures hold the same, and each is one of those that are created.
pub proof fn prepass_textures_are_shared_by_target(
    views: Seq<PrepassView>,
    a: PrepassView,
    a_texture: PrepassTexture,
    b: PrepassView,
    b_texture: PrepassTexture,
)
    requires
        prepass_views(views).contains(a),
        a.has(a_texture),
        prepass_views(views).contains(b),
        b.has(b_texture),
    ensures
        ({
            let allocation = allocate(prepass_requests(prepass_views(views)));
            &&& 0 <= allocation.index[a.key(a_texture)] < allocation.textures.len()
            &&& allocation.index[a.key(a_texture)] == allocation.index[b.key(b_texture)]
                <==> a.target == b.target && a_texture == b_texture
        }),
{
    let selected = prepass_views(views);
    let requests = prepass_requests(selected);
    allocate_one_per_key(requests);
    let i = find_request(selected, selected.index_of(a), a_texture);
    let j = find_request(selected, selected.index_of(b), b_texture);
    assert(requests[i].key == a.key(a_texture));
    assert(requests[j].key == b.key(b_texture));
}

/// The view that made a request, and the texture that it is for.
proof fn find_view(views: Seq<PrepassView>, place: int) -> (source: (int, PrepassTexture))
    requires
        0 <= place < prepass_requests(views).len(),
    ensures
        0 <= source.0 < views.len(),
        prepass_requests(views.take(source.0)).len() <= place,
        views[source.0].has(source.1),
        prepass_requests(views)[place] == (TextureRequest {
            key: views[source.0].key(source.1),
            descriptor: views[source.0].descriptor(source.1),
        }),
    decreases views.len(),
{
    let before = prepass_requests(views.drop_last());
    if place < before.len() {
        let source = find_view(views.drop_last(), place);
        assert(views.drop_last().take(source.0) =~= views.take(source.0));
        source
    } else {
        assert(views.take(views.len() - 1) =~= views.drop_last());
        let view = views.last();
        let n = place - before.len();
        let depth = view.request(PrepassTexture::Depth).len() as int;
        let normal = view.request(PrepassTexture::Normal).len() as int;
        let motion_vectors = view.request(PrepassTexture::MotionVectors).len() as int;
        let deferred = view.request(PrepassTexture::Deferred).len() as int;
        let texture = if n < depth {
            PrepassTexture::Depth
        } else if n < depth + normal {
            PrepassTexture::Normal
        } else if n < depth + normal + motion_vectors {
            PrepassTexture::MotionVectors
        } else if n < depth + normal + motion_vectors + deferred {
            PrepassTexture::Deferred
        } else {
            PrepassTexture::DeferredLightingPassId
        };
        (views.len() - 1, texture)
    }
}

/// More views make more requests.
proof fn requests_grow(views: Seq<PrepassView>, m: int, n: int)
    requires
        0 <= m <= n <= views.len(),
    ensures
        prepass_requests(views.take(m)).len() <= prepass_requests(views.take(n)).len(),
    decreases n,
{
    if m < n {
        assert(views.take(n).drop_last() =~= views.take(n - 1));
        requests_grow(views, m, n - 1);
    }
}

/// A prepass texture is created for the first view of its target that renders to it.
pub proof fn prepass_textures_fit_the_first_view(
    views: Seq<PrepassView>,
    i: int,
    texture: PrepassTexture,
) -> (first: int)
    requires
        0 <= i < prepass_views(views).len(),
        prepass_views(views)[i].has(texture),
    ensures
        ({
            let allocation = allocate(prepass_requests(prepass_views(views)));
            let view = prepass_views(views)[i];
            &&& 0 <= first <= i
            &&& prepass_views(views)[first].target == view.target
            &&& prepass_views(views)[first].has(texture)
            &&& forall|j: int|
                0 <= j < first && (#[trigger] prepass_views(views)[j]).has(texture)
                    ==> prepass_views(views)[j].target != view.target
            &&& allocation.textures[allocation.index[view.key(texture)]] == prepass_views(
                views,
            )[first].descriptor(texture)
        }),
{
    let selected = prepass_views(views);
    let requests = prepass_requests(selected);
    let own = find_request(selected, i, texture);
    let place = first_request(requests, own);
    let (first, first_texture) = find_view(selected, place);
    assert(first_texture == texture);
    if first > i {
        requests_grow(selected, i + 1, first);
    }
    assert forall|j: int| 0 <= j < first && (#[trigger] selected[j]).has(
        texture,
    ) implies selected[j].target != selected[i].target by {
        let earlier = find_request(selected, j, texture);
        requests_grow(selected, j + 1, first);
        assert(requests[earlier].key == selected[j].key(texture));
    }
    first
}

/// The views with a phase of the prepass and a target of known size are served, in order and no
/// others. Each gets a texture for each of its prepasses, and two for the deferred one, cleared to
/// black, and none for a prepass that it does not have.
pub proof fn prepass_textures_go_to_the_prepasses(views: Seq<PrepassView>, plan: PrepassTextures)
    requires
        plan.textures@ == allocate(prepass_requests(prepass_views(views))).textures,
        plan.views@ == prepass_views(views).map_values(
            |view: PrepassView|
                view_prepass_textures(allocate(prepass_requests(prepass_views(views))), view),
        ),
    ensures
        ({
            let served = views.filter(
                |view: PrepassView|
                    (view.has_opaque_3d_prepass_phase || view.has_alpha_mask_3d_prepass_phase
                        || view.has_opaque_3d_deferred_phase
                        || view.has_alpha_mask_3d_deferred_phase) && view.physical_target_size
                        is Some,
            );
            &&& plan.views@.len() == served.len()
            &&& forall|k: int|
                #![trigger plan.views@[k]]
                0 <= k < served.len() ==> {
                    &&& plan.views@[k].entity == served[k].entity
                    &&& served[k].physical_target_size == Some(
                        UVec2 { x: plan.views@[k].size.width, y: plan.views@[k].size.height },
                    )
                    &&& plan.views@[k].size.depth_or_array_layers == 1
                    &&& plan.views@[k].depth is Some <==> served[k].depth_prepass
                    &&& plan.views@[k].normal is Some <==> served[k].normal_prepass
                    &&& plan.views@[k].motion_vectors is Some <==> served[k].motion_vector_prepass
                    &&& plan.views@[k].deferred is Some <==> served[k].deferred_prepass
                    &&& plan.views@[k].deferred_lighting_pass_id is Some
                        <==> served[k].deferred_prepass
                    &&& plan.views@[k].depth matches Some(attachment) ==> attachment.clear_color
                        == ClearColor::Black && attachment.texture < plan.textures@.len()
                    &&& plan.views@[k].normal matches Some(attachment) ==> attachment.clear_color
                        == ClearColor::Black && attachment.texture < plan.textures@.len()
                    &&& plan.views@[k].motion_vectors matches Some(attachment)
                        ==> attachment.clear_color == ClearColor::Black && attachment.texture
                        < plan.textures@.len()
                    &&& plan.views@[k].deferred matches Some(attachment)
                        ==> attachment.clear_color == ClearColor::Black && attachment.texture
                        < plan.textures@.len()
                    &&& plan.views@[k].deferred_lighting_pass_id matches Some(attachment)
                        ==> attachment.clear_color == ClearColor::Black && attachment.texture
                        < plan.textures@.len()
                }
        }),
{
    served_prepass_views(views);
    let served = prepass_views(views);
    assert forall|k: int| #![trigger plan.views@[k]] 0 <= k < served.len() implies {
        &&& plan.views@[k] == view_prepass_textures(
            allocate(prepass_requests(served)),
            served[k],
        )
        &&& served[k].physical_target_size is Some
        &&& forall|texture: PrepassTexture| #[trigger]
            attachment_of(plan.views@[k], texture) matches Some(attachment) ==> attachment.texture
                < plan.textures@.len()
    } by {
        views.lemma_filter_pred(|view: PrepassView| view.needs_textures(), k);
        assert forall|texture: PrepassTexture| #[trigger]
            attachment_of(plan.views@[k], texture) matches Some(attachment) implies (
        attachment_of(plan.views@[k], texture)->0).texture < plan.textures@.len() by {
            prepass_texture_place(views, plan, k, texture);
        }
    }
    assert forall|k: int| #![trigger plan.views@[k]] 0 <= k < served.len() implies {
        &&& plan.views@[k].depth matches Some(attachment) ==> attachment.texture
            < plan.textures@.len()
        &&& plan.views@[k].normal matches Some(attachment) ==> attachment.texture
            < plan.textures@.len()
        &&& plan.views@[k].motion_vectors matches Some(attachment) ==> attachment.texture
            < plan.textures@.len()
        &&& plan.views@[k].deferred matches Some(attachment) ==> attachment.texture
            < plan.textures@.len()
        &&& plan.views@[k].deferred_lighting_pass_id matches Some(attachment)
            ==> attachment.texture < plan.textures@.len()
    } by {
        let view = plan.views@[k];
        assert(attachment_of(view, PrepassTexture::Depth) == view.depth);
        assert(attachment_of(view, PrepassTexture::Normal) == view.normal);
        assert(attachment_of(view, PrepassTexture::MotionVectors) == view.motion_vectors);
        assert(attachment_of(view, PrepassTexture::Deferred) == view.deferred);
        assert(attachment_of(view, PrepassTexture::DeferredLightingPassId)
            == view.deferred_lighting_pass_id);
    }
}

/// Two attachments are of the same texture exactly when they are of the same kind and their views
/// have the same target.
pub proof fn prepass_textures_tell_targets_and_kinds_apart(
    views: Seq<PrepassView>,
    plan: PrepassTextures,
    j: int,
    j_kind: PrepassTexture,
    k: int,
    k_kind: PrepassTexture,
)
    requires
        plan.textures@ == allocate(prepass_requests(prepass_views(views))).textures,
        plan.views@ == prepass_views(views).map_values(
            |view: PrepassView|
                view_prepass_textures(allocate(prepass_requests(prepass_views(views))), view),
        ),
        0 <= j < plan.views@.len(),
        0 <= k < plan.views@.len(),
    ensures
        ({
            let served = views.filter(
                |view: PrepassView|
                    (view.has_opaque_3d_prepass_phase || view.has_alpha_mask_3d_prepass_phase
                        || view.has_opaque_3d_deferred_phase
                        || view.has_alpha_mask_3d_deferred_phase) && view.physical_target_size
                        is Some,
            );
            let a = match j_kind {
                PrepassTexture::Depth => plan.views@[j].depth,
                PrepassTexture::Normal => plan.views@[j].normal,
                PrepassTexture::MotionVectors => plan.views@[j].motion_vectors,
                PrepassTexture::Deferred => plan.views@[j].deferred,
                PrepassTexture::DeferredLightingPassId => plan.views@[j].deferred_lighting_pass_id,
            };
            let b = match k_kind {
                PrepassTexture::Depth => plan.views@[k].depth,
                PrepassTexture::Normal => plan.views@[k].normal,
                PrepassTexture::MotionVectors => plan.views@[k].motion_vectors,
                PrepassTexture::Deferred => plan.views@[k].deferred,
                PrepassTexture::DeferredLightingPassId => plan.views@[k].deferred_lighting_pass_id,
            };
            a is Some && b is Some ==> (a->0.texture == b->0.texture <==> j_kind == k_kind
                && served[j].target.id == served[k].target.id)
        }),
{
    served_prepass_views(views);
    let served = prepass_views(views);
    if attachment_of(plan.views@[j], j_kind) is Some && attachment_of(plan.views@[k], k_kind)
        is Some {
        prepass_texture_place(views, plan, j, j_kind);
        prepass_texture_place(views, plan, k, k_kind);
        allocate_one_per_key(prepass_requests(served));
    }
}

/// A prepass texture is a flat one with one layer and one mip level, that can be rendered to and
/// sampled, and copied into if it holds depth. It has the size of the target of the first view
/// that gets it, and as many samples as that view's multisampling says, but one if it belongs to
/// the deferred prepass. Its format and its label are those of what it holds.
pub proof fn prepass_textures_suit_the_first_view(
    views: Seq<PrepassView>,
    plan: PrepassTextures,
    k: int,
    kind: PrepassTexture,
)
    requires
        plan.textures@ == allocate(prepass_requests(prepass_views(views))).textures,
        plan.views@ == prepass_views(views).map_values(
            |view: PrepassView|
                view_prepass_textures(allocate(prepass_requests(prepass_views(views))), view),
        ),
        0 <= k < plan.views@.len(),
        ({
            let got = match kind {
                PrepassTexture::Depth => plan.views@[k].depth,
                PrepassTexture::Normal => plan.views@[k].normal,
                PrepassTexture::MotionVectors => plan.views@[k].motion_vectors,
                PrepassTexture::Deferred => plan.views@[k].deferred,
                PrepassTexture::DeferredLightingPassId => plan.views@[k].deferred_lighting_pass_id,
            };
            &&& got is Some
            &&& forall|j: int|
                #![trigger plan.views@[j]]
                0 <= j < k ==> (match kind {
                    PrepassTexture::Depth => plan.views@[j].depth,
                    PrepassTexture::Normal => plan.views@[j].normal,
                    PrepassTexture::MotionVectors => plan.views@[j].motion_vectors,
                    PrepassTexture::Deferred => plan.views@[j].deferred,
                    PrepassTexture::DeferredLightingPassId => plan.views@[j].deferred_lighting_pass_id,
                }) != got
        }),
    ensures
        ({
            let served = views.filter(
                |view: PrepassView|
                    (view.has_opaque_3d_prepass_phase || view.has_alpha_mask_3d_prepass_phase
                        || view.has_opaque_3d_deferred_phase
                        || view.has_alpha_mask_3d_deferred_phase) && view.physical_target_size
                        is Some,
            );
            let got = match kind {
                PrepassTexture::Depth => plan.views@[k].depth,
                PrepassTexture::Normal => plan.views@[k].normal,
                PrepassTexture::MotionVectors => plan.views@[k].motion_vectors,
                PrepassTexture::Deferred => plan.views@[k].deferred,
                PrepassTexture::DeferredLightingPassId => plan.views@[k].deferred_lighting_pass_id,
            };
            let texture = plan.textures@[got->0.texture as int];
            let samples: u32 = match served[k].msaa {
                Msaa::Off => 1,
                Msaa::Sample2 => 2,
                Msaa::Sample4 => 4,
                Msaa::Sample8 => 8,
            };
            &&& served[k].physical_target_size == Some(
                UVec2 { x: texture.size.width, y: texture.size.height },
            )
            &&& texture.size.depth_or_array_layers == 1
            &&& texture.mip_level_count == 1
            &&& texture.dimension == TextureDimension::D2
            &&& match kind {
                PrepassTexture::Depth => {
                    &&& texture.label == "prepass_depth_texture"
                    &&& texture.sample_count == samples
                    &&& texture.format == TextureFormat::Depth32Float
                    &&& texture.usage.bits == 22
                },
                PrepassTexture::Normal => {
                    &&& texture.label == "prepass_normal_texture"
                    &&& texture.sample_count == samples
                    &&& texture.format == TextureFormat::NormalPrepass
                    &&& texture.usage.bits == 20
                },
                PrepassTexture::MotionVectors => {
                    &&& texture.label == "prepass_motion_vectors_textures"
                    &&& texture.sample_count == samples
                    &&& texture.format == TextureFormat::MotionVectorPrepass
                    &&& texture.usage.bits == 20
                },
                PrepassTexture::Deferred => {
                    &&& texture.label == "prepass_deferred_texture"
                    &&& texture.sample_count == 1
                    &&& texture.format == TextureFormat::DeferredPrepass
                    &&& texture.usage.bits == 20
                },
                PrepassTexture::DeferredLightingPassId => {
                    &&& texture.label == "deferred_lighting_pass_id_texture"
                    &&& texture.sample_count == 1
                    &&& texture.format == TextureFormat::DeferredLightingPassId
                    &&& texture.usage.bits == 20
                },
            }
        }),
{
    served_prepass_views(views);
    let served = prepass_views(views);
    prepass_texture_place(views, plan, k, kind);
    views.lemma_filter_pred(|view: PrepassView| view.needs_textures(), k);
    let first = prepass_textures_fit_the_first_view(views, k, kind);
    assert(attachment_of(plan.views@[first], kind) is Some);
    prepass_texture_place(views, plan, first, kind);
    assert(attachment_of(plan.views@[first], kind) == attachment_of(plan.views@[k], kind));
    assert(first == k);
    assert(2u32 | 16u32 | 4u32 == 22) by (bit_vector);
    assert(16u32 | 4u32 == 20) by (bit_vector);
}

/// Every prepass texture that is created goes to some view.
pub proof fn no_prepass_texture_is_spare(
    views: Seq<PrepassView>,
    plan: PrepassTextures,
    place: int,
) -> (source: (int, PrepassTexture))
    requires
        plan.textures@ == allocate(prepass_requests(prepass_views(views))).textures,
        plan.views@ == prepass_views(views).map_values(
            |view: PrepassView|
                view_prepass_textures(allocate(prepass_requests(prepass_views(views))), view),
        ),
        0 <= place < plan.textures@.len(),
    ensures
        0 <= source.0 < plan.views@.len(),
        ({
            let got = match source.1 {
                PrepassTexture::Depth => plan.views@[source.0].depth,
                PrepassTexture::Normal => plan.views@[source.0].normal,
                PrepassTexture::MotionVectors => plan.views@[source.0].motion_vectors,
                PrepassTexture::Deferred => plan.views@[source.0].deferred,
                PrepassTexture::DeferredLightingPassId => plan.views@[source.0].deferred_lighting_pass_id,
            };
            got matches Some(attachment) && attachment.texture == place
        }),
{
    let served = prepass_views(views);
    let request = every_texture_is_requested(prepass_requests(served), place);
    let source = find_view(served, request);
    assert(attachment_of(plan.views@[source.0], source.1) is Some);
    prepass_texture_place(views, plan, source.0, source.1);
    source
}

/// A view's attachment of a kind.
spec fn attachment_of(view: ViewPrepassTextures, kind: PrepassTexture) -> Option<ColorAttachment> {
    match kind {
        PrepassTexture::Depth => view.depth,
        PrepassTexture::Normal => view.normal,
        PrepassTexture::MotionVectors => view.motion_vectors,
        PrepassTexture::Deferred => view.deferred,
        PrepassTexture::DeferredLightingPassId => view.deferred_lighting_pass_id,
    }
}

/// The views that get prepass textures, by their fields.
proof fn served_prepass_views(views: Seq<PrepassView>)
    ensures
        prepass_views(views) == views.filter(
            |view: PrepassView|
                (view.has_opaque_3d_prepass_phase || view.has_alpha_mask_3d_prepass_phase
                    || view.has_opaque_3d_deferred_phase || view.has_alpha_mask_3d_deferred_phase)
                    && view.physical_target_size is Some,
        ),
{
    let needs = |view: PrepassView| view.needs_textures();
    let fields = |view: PrepassView|
        (view.has_opaque_3d_prepass_phase || view.has_alpha_mask_3d_prepass_phase
            || view.has_opaque_3d_deferred_phase || view.has_alpha_mask_3d_deferred_phase)
            && view.physical_target_size is Some;
    assert(needs =~= fields);
}

/// A view's attachment of a kind is the texture of that kind of its target.
proof fn prepass_texture_place(
    views: Seq<PrepassView>,
    plan: PrepassTextures,
    k: int,
    kind: PrepassTexture,
)
    requires
        plan.textures@ == allocate(prepass_requests(prepass_views(views))).textures,
        plan.views@ == prepass_views(views).map_values(
            |view: PrepassView|
                view_prepass_textures(allocate(prepass_requests(prepass_views(views))), view),
        ),
        0 <= k < prepass_views(views).len(),
        attachment_of(plan.views@[k], kind) is Some,
    ensures
        plan.views@.len() == prepass_views(views).len(),
        prepass_views(views)[k].has(kind),
        attachment_of(plan.views@[k], kind)->0.clear_color == ClearColor::Black,
        attachment_of(plan.views@[k], kind)->0.texture == allocate(
            prepass_requests(prepass_views(views)),
        ).index[prepass_views(views)[k].key(kind)],
        attachment_of(plan.views@[k], kind)->0.texture < plan.textures@.len(),
        allocate(prepass_requests(prepass_views(views))).index.contains_key(
            prepass_views(views)[k].key(kind),
        ),
{
    let served = prepass_views(views);
    let allocation = allocate(prepass_requests(served));
    assert(attachment_of(plan.views@[k], kind) == black_attachment(
        served[k].place(allocation, kind),
    ));
    textures_exist(served, k);
    allocate_one_per_key(prepass_requests(served));
    assert(plan.textures.len() <= usize::MAX);
}

/// After extraction, a view of an active camera, with a target of known size, gets prepass
/// textures exactly when the camera has a prepass.
pub proof fn extraction_decides_who_gets_prepass_textures(
    cameras: Seq<PrepassCameraView>,
    support: GpuPreprocessingSupport,
    phases: Phases,
    i: int,
    view: PrepassView,
)
    requires
        is_last_of_view(cameras, i),
        view.entity@ == cameras[i].entity@,
        view.physical_target_size is Some,
        view.agrees_with(
            run(
                prepass_cameras_commands(cameras, support) + prepass_retain_commands(),
                phases,
                active_prepass_views(cameras),
            ),
        ),
    ensures
        view.needs_textures() <==> cameras[i].prepasses.forward()
            || cameras[i].prepasses.deferred_prepass,
{
    prepass_extraction_leaves_empty_phases_for_wanted_views(
        cameras,
        support,
        phases,
        Phase::Opaque3dPrepass,
        i,
    );
    prepass_extraction_leaves_empty_phases_for_wanted_views(
        cameras,
        support,
        phases,
        Phase::AlphaMask3dPrepass,
        i,
    );
    prepass_extraction_leaves_empty_phases_for_wanted_views(
        cameras,
        support,
        phases,
        Phase::Opaque3dDeferred,
        i,
    );
    prepass_extraction_leaves_empty_phases_for_wanted_views(
        cameras,
        support,
        phases,
        Phase::AlphaMask3dDeferred,
        i,
    );
}

} // verus!
