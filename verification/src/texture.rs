//! Textures as the pipeline asks for them: descriptors, and the table that hands out one
//! texture per key.

use vstd::prelude::*;

verus! {

/// A size in physical pixels.
#[derive(Clone, Copy, Debug, PartialEq, Eq, Structural)]
pub struct UVec2 {
    pub x: u32,
    pub y: u32,
}

/// The size of a texture in texels.
#[derive(Clone, Copy, Debug, PartialEq, Eq, Structural)]
pub struct Extent3d {
    pub width: u32,
    pub height: u32,
    pub depth_or_array_layers: u32,
}

impl Extent3d {
    /// The extent of a single layer of `size`.
    pub open spec fn spec_single_layer(size: UVec2) -> Extent3d {
        Extent3d { width: size.x, height: size.y, depth_or_array_layers: 1 }
    }

    /// The extent of a single layer of `size`.
    pub fn single_layer(size: UVec2) -> (extent: Extent3d)
        ensures
            extent == Extent3d::spec_single_layer(size),
            extent.width == size.x,
            extent.height == size.y,
            extent.depth_or_array_layers == 1,
    {
        Extent3d { depth_or_array_layers: 1, width: size.x, height: size.y }
    }
}

/// The number of dimensions of a texture.
#[derive(Clone, Copy, Debug, PartialEq, Eq, Structural)]
pub enum TextureDimension {
    D1,
    D2,
    D3,
}

/// The texel format of a texture.
///
/// Most formats here are named for the part they play: which texel layout that is, the
/// renderer's own constants say.
#[derive(Clone, Copy, Debug, PartialEq, Eq, Structural)]
pub enum TextureFormat {
    /// 32-bit floating-point depth.
    Depth32Float,
    /// The main texture of a view that renders in high dynamic range.
    ViewTargetHdr,
    /// The main texture of any other view.
    BevyDefault,
    /// World-space normals of the prepass.
    NormalPrepass,
    /// Motion vectors of the prepass.
    MotionVectorPrepass,
    /// The packed G-buffer of the deferred prepass.
    DeferredPrepass,
    /// The lighting pass of each texel of the deferred prepass.
    DeferredLightingPassId,
}

/// The format of every depth texture of the pipeline.
// PERF: 24 bit depth would be faster on some devices
pub const CORE_3D_DEPTH_FORMAT: TextureFormat = TextureFormat::Depth32Float;

/// A set of ways in which a texture may be used, one bit for each way.
#[derive(Clone, Copy, Debug, PartialEq, Eq, Structural)]
pub struct TextureUsages {
    pub bits: u32,
}

impl TextureUsages {
    /// The texture may be the source of a copy.
    pub const COPY_SRC: u32 = 1;

    /// The texture may be the destination of a copy.
    pub const COPY_DST: u32 = 2;

    /// The texture may be bound in a bind group.
    pub const TEXTURE_BINDING: u32 = 4;

    /// The texture may be an attachment of a render pass.
    pub const RENDER_ATTACHMENT: u32 = 16;

    /// The usages that are in either set.
    pub open spec fn spec_union(self, other: TextureUsages) -> TextureUsages {
        TextureUsages { bits: self.bits | other.bits }
    }

    /// The usages that are in either set.
    pub fn union(self, other: TextureUsages) -> (r: TextureUsages)
        ensures
            r == self.spec_union(other),
            r.bits == self.bits | other.bits,
    {
        TextureUsages { bits: self.bits | other.bits }
    }

    /// Whether every usage of `other` is also one of `self`.
    pub open spec fn includes(self, other: TextureUsages) -> bool {
        self.bits & other.bits == other.bits
    }
}

/// A union includes both its sides, and what either side includes.
pub proof fn union_includes(a: TextureUsages, b: TextureUsages, c: TextureUsages)
    ensures
        a.spec_union(b).includes(a),
        a.spec_union(b).includes(b),
        a.includes(c) ==> a.spec_union(b).includes(c),
{
    let (x, y, z) = (a.bits, b.bits, c.bits);
    assert((x | y) & x == x) by (bit_vector);
    assert((x | y) & y == y) by (bit_vector);
    assert(x & z == z ==> (x | y) & z == z) by (bit_vector);
}

/// What to create a texture with. No texture has additional view formats.
#[derive(Clone, Copy, Debug, PartialEq, Eq)]
pub struct TextureDescriptor {
    pub label: &'static str,
    pub size: Extent3d,
    pub mip_level_count: u32,
    pub sample_count: u32,
    pub dimension: TextureDimension,
    pub format: TextureFormat,
    pub usage: TextureUsages,
}

/// What a camera renders to: two cameras have the same id exactly when they have the same
/// target.
#[derive(Clone, Copy, Debug, PartialEq, Eq, Structural)]
pub struct RenderTargetId {
    pub id: u64,
}

/// What tells textures apart: the target that they belong to, and a number that tells the
/// textures of one target apart.
pub type TextureKey = (u64, u32);

/// A hash map from texture keys to numbers.
#[verifier::external_body]
pub struct TargetMap {
    inner: bevy_utils::HashMap<(u64, u32), u64>,
}

/// The entries of a map.
pub uninterp spec fn target_map_entries(map: TargetMap) -> Map<(u64, u32), u64>;

impl TargetMap {
    /// Calls `default` of `bevy_utils::HashMap`, which makes a map without entries.
    #[verifier::external_body]
    pub(crate) fn new() -> (map: TargetMap)
        ensures
            target_map_entries(map).dom() == (Set::<(u64, u32)>::empty()),
    {
        TargetMap { inner: bevy_utils::HashMap::default() }
    }

    /// Calls `get` of `bevy_utils::HashMap`, which gives the value of the key's entry, or
    /// nothing where the key has no entry. The entry is looked up by the hash and the equality
    /// of a pair of integers.
    #[verifier::external_body]
    pub(crate) fn get(&self, key: (u64, u32)) -> (value: Option<u64>)
        ensures
            value == target_map_entries(*self).get(key),
    {
        self.inner.get(&key).copied()
    }

    /// Calls `insert` of `bevy_utils::HashMap`, which gives the key an entry with the value, in
    /// place of any that it had, and leaves the other entries alone.
    #[verifier::external_body]
    pub(crate) fn insert(&mut self, key: (u64, u32), value: u64)
        ensures
            target_map_entries(*final(self)) == target_map_entries(*old(self)).insert(key, value),
    {
        self.inner.insert(key, value);
    }
}

/// A request for the texture of a key, with the descriptor to create it with.
pub struct TextureRequest {
    pub key: TextureKey,
    pub descriptor: TextureDescriptor,
}

/// The textures that some requests led to: what each was created with, and which one each key
/// got.
#[verifier::ext_equal]
pub struct Allocation {
    pub index: Map<TextureKey, int>,
    pub textures: Seq<TextureDescriptor>,
}

impl Allocation {
    /// No textures.
    pub open spec fn empty() -> Allocation {
        Allocation { index: Map::empty(), textures: Seq::empty() }
    }

    /// The first request for a key creates its texture; a later one gets the same texture,
    /// whatever its own descriptor.
    pub open spec fn request(self, request: TextureRequest) -> Allocation {
        if self.index.contains_key(request.key) {
            self
        } else {
            Allocation {
                index: self.index.insert(request.key, self.textures.len() as int),
                textures: self.textures.push(request.descriptor),
            }
        }
    }
}

/// The textures that the requests lead to, one request after the other.
pub open spec fn allocate(requests: Seq<TextureRequest>) -> Allocation
    decreases requests.len(),
{
    if requests.len() == 0 {
        Allocation::empty()
    } else {
        allocate(requests.drop_last()).request(requests.last())
    }
}

/// One more request.
pub proof fn allocate_push(requests: Seq<TextureRequest>, request: TextureRequest)
    ensures
        allocate(requests.push(request)) == allocate(requests).request(request),
{
    assert(requests.push(request).drop_last() =~= requests);
}

/// Every requested key has a texture, every texture has a key, and no two keys share one.
pub proof fn allocate_one_per_key(requests: Seq<TextureRequest>)
    ensures
        forall|i: int|
            0 <= i < requests.len() ==> allocate(requests).index.contains_key(
                (#[trigger] requests[i]).key,
            ),
        forall|k: TextureKey| #[trigger]
            allocate(requests).index.contains_key(k) ==> {
                &&& 0 <= allocate(requests).index[k] < allocate(requests).textures.len()
                &&& exists|i: int| 0 <= i < requests.len() && (#[trigger] requests[i]).key == k
            },
        forall|j: TextureKey, k: TextureKey|
            allocate(requests).index.contains_key(j) && allocate(requests).index.contains_key(k)
                && #[trigger] allocate(requests).index[j] == #[trigger] allocate(requests).index[k]
                ==> j == k,
    decreases requests.len(),
{
    if requests.len() > 0 {
        let prefix = requests.drop_last();
        allocate_one_per_key(prefix);
        let a = allocate(requests);
        let p = allocate(prefix);
        assert forall|i: int| 0 <= i < requests.len() implies a.index.contains_key(
            (#[trigger] requests[i]).key,
        ) by {
            if i < prefix.len() {
                assert(prefix[i] == requests[i]);
            }
        }
        assert forall|k: TextureKey| #[trigger] a.index.contains_key(k) implies {
            &&& 0 <= a.index[k] < a.textures.len()
            &&& exists|i: int| 0 <= i < requests.len() && (#[trigger] requests[i]).key == k
        } by {
            if p.index.contains_key(k) {
                let i = choose|i: int| 0 <= i < prefix.len() && (#[trigger] prefix[i]).key == k;
                assert(requests[i].key == k);
            } else {
                assert(requests[requests.len() - 1].key == k);
            }
        }
        assert forall|j: TextureKey, k: TextureKey|
            a.index.contains_key(j) && a.index.contains_key(k) && #[trigger] a.index[j]
                == #[trigger] a.index[k] implies j == k by {
            assert(p.index.contains_key(j) ==> p.index[j] < p.textures.len());
            assert(p.index.contains_key(k) ==> p.index[k] < p.textures.len());
        }
    }
}

/// A texture is created with the descriptor of the first request for its key.
pub proof fn allocate_first_decides(requests: Seq<TextureRequest>, first: int)
    requires
        0 <= first < requests.len(),
        forall|i: int| 0 <= i < first ==> (#[trigger] requests[i]).key != requests[first].key,
    ensures
        allocate(requests).textures[allocate(requests).index[requests[first].key]]
            == requests[first].descriptor,
    decreases requests.len(),
{
    let prefix = requests.drop_last();
    allocate_one_per_key(prefix);
    if first < prefix.len() {
        assert forall|i: int| 0 <= i < first implies (#[trigger] prefix[i]).key
            != prefix[first].key by {
            assert(prefix[i] == requests[i]);
        }
        allocate_first_decides(prefix, first);
        assert(prefix[first] == requests[first]);
        assert(allocate(prefix).index.contains_key(prefix[first].key));
    } else {
        assert(first == prefix.len());
        if allocate(prefix).index.contains_key(requests[first].key) {
            let i = choose|i: int|
                0 <= i < prefix.len() && (#[trigger] prefix[i]).key == requests[first].key;
            assert(prefix[i] == requests[i]);
        }
    }
}

/// The first request for the key of a request, which decides what the texture is created with.
pub proof fn first_request(requests: Seq<TextureRequest>, i: int) -> (first: int)
    requires
        0 <= i < requests.len(),
    ensures
        0 <= first <= i,
        requests[first].key == requests[i].key,
        forall|j: int| 0 <= j < first ==> (#[trigger] requests[j]).key != requests[i].key,
        allocate(requests).textures[allocate(requests).index[requests[i].key]]
            == requests[first].descriptor,
    decreases i,
{
    if exists|j: int| 0 <= j < i && (#[trigger] requests[j]).key == requests[i].key {
        let j = choose|j: int| 0 <= j < i && (#[trigger] requests[j]).key == requests[i].key;
        first_request(requests, j)
    } else {
        allocate_first_decides(requests, i);
        i
    }
}

/// Later requests change no texture that an earlier one got.
pub proof fn request_keeps_textures(a: Allocation, request: TextureRequest)
    ensures
        forall|k: TextureKey| #[trigger]
            a.index.contains_key(k) ==> a.request(request).index.contains_key(k)
                && a.request(request).index[k] == a.index[k],
{
}

/// More requests change no texture that an earlier one got.
pub proof fn allocate_keeps_textures(requests: Seq<TextureRequest>, more: Seq<TextureRequest>)
    ensures
        forall|k: TextureKey| #[trigger]
            allocate(requests).index.contains_key(k) ==> allocate(requests + more).index.contains_key(k)
                && allocate(requests + more).index[k] == allocate(requests).index[k],
    decreases more.len(),
{
    if more.len() == 0 {
        assert(requests + more =~= requests);
    } else {
        allocate_keeps_textures(requests, more.drop_last());
        assert((requests + more).drop_last() =~= requests + more.drop_last());
    }
}

/// No texture is created that no request is for.
pub proof fn every_texture_is_requested(requests: Seq<TextureRequest>, place: int) -> (i: int)
    requires
        0 <= place < allocate(requests).textures.len(),
    ensures
        0 <= i < requests.len(),
        allocate(requests).index[requests[i].key] == place,
    decreases requests.len(),
{
    let prefix = requests.drop_last();
    if place < allocate(prefix).textures.len() {
        let i = every_texture_is_requested(prefix, place);
        allocate_one_per_key(prefix);
        assert(prefix[i] == requests[i]);
        assert(allocate(prefix).index.contains_key(prefix[i].key));
        i
    } else {
        requests.len() - 1
    }
}

/// The textures that have been requested so far.
pub(crate) struct TextureTable {
    map: TargetMap,
    textures: Vec<TextureDescriptor>,
}

impl TextureTable {
    /// The textures so far, and which key has which.
    pub(crate) closed spec fn view(&self) -> Allocation {
        Allocation {
            index: Map::new(
                |k: TextureKey| target_map_entries(self.map).contains_key(k),
                |k: TextureKey| target_map_entries(self.map)[k] as int,
            ),
            textures: self.textures@,
        }
    }

    /// Every key that has a texture has one of those in the table.
    pub(crate) closed spec fn wf(&self) -> bool {
        forall|k: TextureKey| #[trigger]
            target_map_entries(self.map).contains_key(k) ==> target_map_entries(self.map)[k]
                < self.textures@.len()
    }

    /// A table without textures.
    pub(crate) fn new() -> (table: TextureTable)
        ensures
            table.wf(),
            table.view() == Allocation::empty(),
    {
        let table = TextureTable { map: TargetMap::new(), textures: Vec::new() };
        assert(table.view() =~= Allocation::empty());
        table
    }

    /// The place of the key's texture in the table; the texture is added if it is missing.
    pub(crate) fn request(&mut self, key: TextureKey, descriptor: TextureDescriptor) -> (place:
        usize)
        requires
            old(self).wf(),
        ensures
            final(self).wf(),
            final(self).view() == old(self).view().request((TextureRequest { key, descriptor })),
            final(self).view().index.contains_key(key),
            place == final(self).view().index[key],
    {
        match self.map.get(key) {
            Some(place) => {
                assert(target_map_entries(self.map).contains_key(key));
                assert(place < self.textures.len());
                place as usize
            },
            None => {
                let place = self.textures.len();
                self.map.insert(key, place as u64);
                self.textures.push(descriptor);
                assert(self.view() =~= old(self).view().request(
                    TextureRequest { key, descriptor },
                ));
                place
            },
        }
    }

    /// The textures, in the order in which they were first requested.
    pub(crate) fn into_textures(self) -> (textures: Vec<TextureDescriptor>)
        ensures
            textures@ == self.view().textures,
    {
        self.textures
    }
}

} // verus!
