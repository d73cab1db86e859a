//! What identifies a view, and the settings of a view that the pipeline reads.

use bevy_ecs::entity::EntityHashSet;
use bevy_render::batching::gpu_preprocessing;
use vstd::prelude::*;

verus! {

/// Whether the bits are those of an entity: its generation, in the upper half, is from 1 to
/// 2^31 - 1.
pub open spec fn valid_entity_bits(bits: u64) -> bool {
    0x1_0000_0000 <= bits < 0x8000_0000_0000_0000
}

/// The entity of a view, held as its bits.
#[derive(Clone, Copy, Debug, PartialEq, Eq, Structural)]
pub struct ViewEntity {
    bits: u64,
}

impl View for ViewEntity {
    type V = u64;

    closed spec fn view(&self) -> u64 {
        self.bits
    }
}

impl ViewEntity {
    #[verifier::type_invariant]
    spec fn wf(self) -> bool {
        valid_entity_bits(self.bits)
    }

    /// The entity with the given bits, if there is one.
    pub fn try_from_bits(bits: u64) -> (entity: Option<ViewEntity>)
        ensures
            entity is Some <==> valid_entity_bits(bits),
            entity is Some <==> 1 <= bits / 0x1_0000_0000 < 0x8000_0000,
            entity matches Some(e) ==> e@ == bits,
    {
        if 0x1_0000_0000 <= bits && bits < 0x8000_0000_0000_0000 {
            Some(ViewEntity { bits })
        } else {
            None
        }
    }

    /// The bits of the entity.
    pub fn to_bits(self) -> (bits: u64)
        ensures
            bits == self@,
            valid_entity_bits(bits),
    {
        proof {
            use_type_invariant(&self);
        }
        self.bits
    }
}

/// An entity is its bits: two entities with the same bits are one.
pub proof fn entity_is_its_bits(a: ViewEntity, b: ViewEntity)
    ensures
        a@ == b@ <==> a == b,
{
}

/// A set of entities of `bevy_ecs`. What it holds is [`entity_bits`].
#[verifier::external_type_specification]
#[verifier::external_body]
pub struct ExEntityHashSet(EntityHashSet);

/// The bits of the entities in a set.
pub uninterp spec fn entity_bits(set: EntityHashSet) -> Set<u64>;

/// Calls `clear` of `EntityHashSet`, which removes every entity.
#[verifier::external_body]
pub(crate) fn clear_entities(set: &mut EntityHashSet)
    ensures
        entity_bits(*final(set)) == (Set::<u64>::empty()),
{
    set.clear();
}

/// Calls `insert` of `EntityHashSet`, which adds the entity and leaves the others alone; one
/// that is there already stays. The entity is made from its bits by `Entity::from_bits`, which
/// panics on bits that no entity has.
#[verifier::external_body]
pub(crate) fn insert_entity(set: &mut EntityHashSet, bits: u64)
    requires
        valid_entity_bits(bits),
    ensures
        entity_bits(*final(set)) == entity_bits(*old(set)).insert(bits),
{
    set.insert(bevy_ecs::entity::Entity::from_bits(bits));
}

/// How many samples a view takes of each pixel.
#[derive(Clone, Copy, Debug, PartialEq, Eq, Structural)]
pub enum Msaa {
    Off,
    Sample2,
    Sample4,
    Sample8,
}

impl Msaa {
    /// The number of samples of each pixel.
    pub open spec fn spec_samples(self) -> u32 {
        match self {
            Msaa::Off => 1,
            Msaa::Sample2 => 2,
            Msaa::Sample4 => 4,
            Msaa::Sample8 => 8,
        }
    }

    /// The number of samples of each pixel.
    pub fn samples(&self) -> (samples: u32)
        ensures
            samples == self.spec_samples(),
            *self == Msaa::Off ==> samples == 1,
            *self == Msaa::Sample2 ==> samples == 2,
            *self == Msaa::Sample4 ==> samples == 4,
            *self == Msaa::Sample8 ==> samples == 8,
    {
        msaa_samples(*self)
    }
}

/// Calls `Msaa::samples` of `bevy_render`, which gives the number in the variant's name, and 1
/// for `Off`.
#[verifier::external_body]
fn msaa_samples(msaa: Msaa) -> (samples: u32)
    ensures
        samples == msaa.spec_samples(),
{
    let msaa = match msaa {
        Msaa::Off => bevy_render::view::Msaa::Off,
        Msaa::Sample2 => bevy_render::view::Msaa::Sample2,
        Msaa::Sample4 => bevy_render::view::Msaa::Sample4,
        Msaa::Sample8 => bevy_render::view::Msaa::Sample8,
    };
    msaa.samples()
}

/// How much of the work on meshes is done on the GPU.
#[derive(Clone, Copy, Debug, PartialEq, Eq, Structural)]
pub enum GpuPreprocessingMode {
    /// None of it.
    Disabled,
    /// Preprocessing, but no culling.
    PreprocessingOnly,
    /// Preprocessing and culling, with indirect drawing.
    Culling,
}

impl GpuPreprocessingMode {
    /// The place of the mode in the order from less work on the GPU to more.
    pub open spec fn level(self) -> int {
        match self {
            GpuPreprocessingMode::Disabled => 0,
            GpuPreprocessingMode::PreprocessingOnly => 1,
            GpuPreprocessingMode::Culling => 2,
        }
    }
}

/// How much of the work on meshes the GPU can do.
#[derive(Clone, Copy, Debug, PartialEq, Eq, Structural)]
pub struct GpuPreprocessingSupport {
    pub max_supported_mode: GpuPreprocessingMode,
}

impl GpuPreprocessingSupport {
    /// The mode, or the most that is supported where that is less.
    pub open spec fn spec_min(self, mode: GpuPreprocessingMode) -> GpuPreprocessingMode {
        if self.max_supported_mode.level() <= mode.level() {
            self.max_supported_mode
        } else {
            mode
        }
    }

    /// The mode, or the most that is supported where that is less.
    pub fn min(&self, mode: GpuPreprocessingMode) -> (capped: GpuPreprocessingMode)
        ensures
            capped == self.spec_min(mode),
            capped == match (self.max_supported_mode, mode) {
                (GpuPreprocessingMode::Disabled, _) => GpuPreprocessingMode::Disabled,
                (_, GpuPreprocessingMode::Disabled) => GpuPreprocessingMode::Disabled,
                (GpuPreprocessingMode::Culling, GpuPreprocessingMode::Culling) => {
                    GpuPreprocessingMode::Culling
                },
                _ => GpuPreprocessingMode::PreprocessingOnly,
            },
    {
        cap_mode(*self, mode)
    }
}

/// Calls `GpuPreprocessingSupport::min` of `bevy_render`, which gives the lesser of the mode and
/// the supported one.
#[verifier::external_body]
fn cap_mode(support: GpuPreprocessingSupport, mode: GpuPreprocessingMode) -> (capped:
    GpuPreprocessingMode)
    ensures
        capped == support.spec_min(mode),
{
    let outside = |mode: GpuPreprocessingMode| match mode {
        GpuPreprocessingMode::Disabled => gpu_preprocessing::GpuPreprocessingMode::None,
        GpuPreprocessingMode::PreprocessingOnly => {
            gpu_preprocessing::GpuPreprocessingMode::PreprocessingOnly
        },
        GpuPreprocessingMode::Culling => gpu_preprocessing::GpuPreprocessingMode::Culling,
    };
    let max_supported_mode = outside(support.max_supported_mode);
    match (gpu_preprocessing::GpuPreprocessingSupport { max_supported_mode }).min(outside(mode)) {
        gpu_preprocessing::GpuPreprocessingMode::None => GpuPreprocessingMode::Disabled,
        gpu_preprocessing::GpuPreprocessingMode::PreprocessingOnly => {
            GpuPreprocessingMode::PreprocessingOnly
        },
        gpu_preprocessing::GpuPreprocessingMode::Culling => GpuPreprocessingMode::Culling,
    }
}

} // verus!
