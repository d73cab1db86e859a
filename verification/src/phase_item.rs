//! The items of the render phases of the main pass.

use bevy_asset::UntypedAssetId;
use bevy_ecs::entity::Entity;
use bevy_render::mesh::allocator::SlabId;
use bevy_render::render_phase::{DrawFunctionId, PhaseItemExtraIndex};
use bevy_render::render_resource::CachedRenderPipelineId;
use bevy_render::sync_world::MainEntity;
use core::ops::Range;
use vstd::prelude::*;

use crate::distance::{
    is_stable_sort, sort_by_distance, sorting_goes_by_sign_and_bits, Distance, DistanceSorted,
    FloatOrd,
};

verus! {

/// An entity of `bevy_ecs`, as a value that is only passed on.
#[verifier::external_type_specification]
#[verifier::external_body]
pub struct ExEntity(Entity);

/// An entity of the main world, of `bevy_render`, as a value that is only passed on.
#[verifier::external_type_specification]
#[verifier::external_body]
pub struct ExMainEntity(MainEntity);

/// The id of a draw function of `bevy_render`, as a value that is only passed on.
#[verifier::external_type_specification]
#[verifier::external_body]
pub struct ExDrawFunctionId(DrawFunctionId);

/// The id of a pipeline of `bevy_render`, as a value that is only passed on.
#[verifier::external_type_specification]
#[verifier::external_body]
pub struct ExCachedRenderPipelineId(CachedRenderPipelineId);

/// The id of a slab of GPU memory of `bevy_render`, as a value that is only passed on.
#[verifier::external_type_specification]
#[verifier::external_body]
pub struct ExSlabId(SlabId);

/// The id of an asset of `bevy_asset`, as a value that is only passed on.
#[verifier::external_type_specification]
#[verifier::external_body]
pub struct ExUntypedAssetId(UntypedAssetId);

/// The extra index of a phase item of `bevy_render`, as a value that is only passed on.
#[verifier::external_type_specification]
#[verifier::external_body]
pub struct ExPhaseItemExtraIndex(PhaseItemExtraIndex);

/// The `Clone` that `PhaseItemExtraIndex` derives gives an equal index.
pub assume_specification[ <PhaseItemExtraIndex as Clone>::clone ](
    index: &PhaseItemExtraIndex,
) -> (copy: PhaseItemExtraIndex)
    ensures
        copy == *index,
;

/// Information that must be identical in order to place opaque meshes in the
/// same *batch set*.
///
/// A batch set is a set of batches that can be multi-drawn together, if
/// multi-draw is in use.
#[derive(PartialEq, Eq, PartialOrd, Ord, Hash)]
pub struct Opaque3dBatchSetKey {
    /// The identifier of the render pipeline.
    pub pipeline: CachedRenderPipelineId,
    /// The function used to draw.
    pub draw_function: DrawFunctionId,
    /// The ID of a bind group specific to the material instance.
    pub material_bind_group_index: Option<u32>,
    /// The ID of the slab of GPU memory that contains vertex data.
    ///
    /// For non-mesh items, you can fill this with 0 if your items can be
    /// multi-drawn, or with a unique value if they can't.
    pub vertex_slab: SlabId,
    /// The ID of the slab of GPU memory that contains index data, if present.
    ///
    /// For non-mesh items, you can safely fill this with `None`.
    pub index_slab: Option<SlabId>,
    /// The image of the lightmap, if present.
    pub lightmap_image: Option<UntypedAssetId>,
}

impl Clone for Opaque3dBatchSetKey {
    fn clone(&self) -> (key: Opaque3dBatchSetKey)
        ensures
            key == *self,
    {
        Opaque3dBatchSetKey {
            pipeline: self.pipeline,
            draw_function: self.draw_function,
            material_bind_group_index: self.material_bind_group_index,
            vertex_slab: self.vertex_slab,
            index_slab: self.index_slab,
            lightmap_image: self.lightmap_image,
        }
    }
}

/// Data that must be identical in order to *batch* phase items together.
///
/// Note that a *batch set* (if multi-draw is in use) contains multiple batches.
#[derive(PartialEq, Eq, PartialOrd, Ord, Hash)]
pub struct Opaque3dBinKey {
    /// The key of the *batch set*.
    ///
    /// As batches belong to a batch set, meshes in a batch must obviously be
    /// able to be placed in a single batch set.
    pub batch_set_key: Opaque3dBatchSetKey,
    /// The asset that this phase item is associated with.
    ///
    /// Normally, this is the ID of the mesh, but for non-mesh items it might be
    /// the ID of another type of asset.
    pub asset_id: UntypedAssetId,
}

impl Clone for Opaque3dBinKey {
    fn clone(&self) -> (key: Opaque3dBinKey)
        ensures
            key == *self,
    {
        Opaque3dBinKey { batch_set_key: self.batch_set_key.clone(), asset_id: self.asset_id }
    }
}

impl Opaque3dBinKey {
    /// The key of the batch set. Every batch belongs to one.
    pub fn get_batch_set_key(&self) -> (key: Option<Opaque3dBatchSetKey>)
        ensures
            key == Some(self.batch_set_key),
    {
        Some(self.batch_set_key.clone())
    }
}

/// Information that must be identical in order to place opaque meshes without
/// lightmaps in the same *batch set*.
#[derive(PartialEq, Eq, PartialOrd, Ord, Hash)]
pub struct OpaqueNoLightmap3dBatchSetKey {
    /// The identifier of the render pipeline.
    pub pipeline: CachedRenderPipelineId,
    /// The function used to draw.
    pub draw_function: DrawFunctionId,
    /// The ID of a bind group specific to the material instance.
    pub material_bind_group_index: Option<u32>,
    /// The ID of the slab of GPU memory that contains vertex data.
    pub vertex_slab: SlabId,
    /// The ID of the slab of GPU memory that contains index data, if present.
    pub index_slab: Option<SlabId>,
}

impl Clone for OpaqueNoLightmap3dBatchSetKey {
    fn clone(&self) -> (key: OpaqueNoLightmap3dBatchSetKey)
        ensures
            key == *self,
    {
        OpaqueNoLightmap3dBatchSetKey {
            pipeline: self.pipeline,
            draw_function: self.draw_function,
            material_bind_group_index: self.material_bind_group_index,
            vertex_slab: self.vertex_slab,
            index_slab: self.index_slab,
        }
    }
}

/// Data that must be identical in order to *batch* phase items without lightmaps together.
#[derive(PartialEq, Eq, PartialOrd, Ord, Hash)]
pub struct OpaqueNoLightmap3dBinKey {
    /// The key of the *batch set*.
    pub batch_set_key: OpaqueNoLightmap3dBatchSetKey,
    /// The asset that this phase item is associated with.
    pub asset_id: UntypedAssetId,
}

impl Clone for OpaqueNoLightmap3dBinKey {
    fn clone(&self) -> (key: OpaqueNoLightmap3dBinKey)
        ensures
            key == *self,
    {
        OpaqueNoLightmap3dBinKey {
            batch_set_key: self.batch_set_key.clone(),
            asset_id: self.asset_id,
        }
    }
}

/// An opaque item. Such items are binned.
pub struct Opaque3d {
    /// The key, which determines which can be batched.
    pub key: Opaque3dBinKey,
    /// An entity from which data will be fetched, including the mesh if
    /// applicable.
    pub representative_entity: (Entity, MainEntity),
    /// The ranges of instances.
    pub batch_range: Range<u32>,
    /// An extra index, which is either a dynamic offset or an index in the
    /// indirect parameters list.
    pub extra_index: PhaseItemExtraIndex,
}

impl Opaque3d {
    /// The entity to fetch the data of the item from.
    pub fn entity(&self) -> (entity: Entity)
        ensures
            entity == self.representative_entity.0,
    {
        self.representative_entity.0
    }

    /// The entity of the main world that the item stands for.
    pub fn main_entity(&self) -> (main_entity: MainEntity)
        ensures
            main_entity == self.representative_entity.1,
    {
        self.representative_entity.1
    }

    /// The function that draws the item.
    pub fn draw_function(&self) -> (draw_function: DrawFunctionId)
        ensures
            draw_function == self.key.batch_set_key.draw_function,
    {
        self.key.batch_set_key.draw_function
    }

    /// The range of instances that the item's batch covers.
    pub fn batch_range(&self) -> (batch_range: &Range<u32>)
        ensures
            *batch_range == self.batch_range,
    {
        &self.batch_range
    }

    /// The range of instances, to change it. Nothing else about the item changes with it.
    pub fn batch_range_mut(&mut self) -> (batch_range: &mut Range<u32>)
        ensures
            *batch_range == old(self).batch_range,
            *final(self) == (Opaque3d { batch_range: *final(batch_range), ..*old(self) }),
    {
        &mut self.batch_range
    }

    /// The extra index.
    pub fn extra_index(&self) -> (extra_index: PhaseItemExtraIndex)
        ensures
            extra_index == self.extra_index,
    {
        self.extra_index.clone()
    }

    /// The range of instances and the extra index, to change them. Nothing else about the item
    /// changes with them.
    pub fn batch_range_and_extra_index_mut(&mut self) -> (both: (
        &mut Range<u32>,
        &mut PhaseItemExtraIndex,
    ))
        ensures
            *both.0 == old(self).batch_range,
            *both.1 == old(self).extra_index,
            *final(self) == (Opaque3d {
                batch_range: *final(both.0),
                extra_index: *final(both.1),
                ..*old(self)
            }),
    {
        (&mut self.batch_range, &mut self.extra_index)
    }

    /// The render pipeline that the item is drawn with.
    pub fn cached_pipeline(&self) -> (pipeline: CachedRenderPipelineId)
        ensures
            pipeline == self.key.batch_set_key.pipeline,
    {
        self.key.batch_set_key.pipeline
    }

    /// The item with the given key, entity, range of instances and extra index.
    pub fn new(
        key: Opaque3dBinKey,
        representative_entity: (Entity, MainEntity),
        batch_range: Range<u32>,
        extra_index: PhaseItemExtraIndex,
    ) -> (item: Opaque3d)
        ensures
            item == (Opaque3d { key, representative_entity, batch_range, extra_index }),
    {
        Opaque3d { key, representative_entity, batch_range, extra_index }
    }
}

/// An item whose texels are either opaque or left out. Such items are binned.
pub struct AlphaMask3d {
    pub key: OpaqueNoLightmap3dBinKey,
    pub representative_entity: (Entity, MainEntity),
    pub batch_range: Range<u32>,
    pub extra_index: PhaseItemExtraIndex,
}

impl AlphaMask3d {
    /// The entity to fetch the data of the item from.
    pub fn entity(&self) -> (entity: Entity)
        ensures
            entity == self.representative_entity.0,
    {
        self.representative_entity.0
    }

    /// The entity of the main world that the item stands for.
    pub fn main_entity(&self) -> (main_entity: MainEntity)
        ensures
            main_entity == self.representative_entity.1,
    {
        self.representative_entity.1
    }

    /// The function that draws the item.
    pub fn draw_function(&self) -> (draw_function: DrawFunctionId)
        ensures
            draw_function == self.key.batch_set_key.draw_function,
    {
        self.key.batch_set_key.draw_function
    }

    /// The range of instances that the item's batch covers.
    pub fn batch_range(&self) -> (batch_range: &Range<u32>)
        ensures
            *batch_range == self.batch_range,
    {
        &self.batch_range
    }

    /// The range of instances, to change it. Nothing else about the item changes with it.
    pub fn batch_range_mut(&mut self) -> (batch_range: &mut Range<u32>)
        ensures
            *batch_range == old(self).batch_range,
            *final(self) == (AlphaMask3d { batch_range: *final(batch_range), ..*old(self) }),
    {
        &mut self.batch_range
    }

    /// The extra index.
    pub fn extra_index(&self) -> (extra_index: PhaseItemExtraIndex)
        ensures
            extra_index == self.extra_index,
    {
        self.extra_index.clone()
    }

    /// The range of instances and the extra index, to change them. Nothing else about the item
    /// changes with them.
    pub fn batch_range_and_extra_index_mut(&mut self) -> (both: (
        &mut Range<u32>,
        &mut PhaseItemExtraIndex,
    ))
        ensures
            *both.0 == old(self).batch_range,
            *both.1 == old(self).extra_index,
            *final(self) == (AlphaMask3d {
                batch_range: *final(both.0),
                extra_index: *final(both.1),
                ..*old(self)
            }),
    {
        (&mut self.batch_range, &mut self.extra_index)
    }

    /// The render pipeline that the item is drawn with.
    pub fn cached_pipeline(&self) -> (pipeline: CachedRenderPipelineId)
        ensures
            pipeline == self.key.batch_set_key.pipeline,
    {
        self.key.batch_set_key.pipeline
    }

    /// The item with the given key, entity, range of instances and extra index.
    pub fn new(
        key: OpaqueNoLightmap3dBinKey,
        representative_entity: (Entity, MainEntity),
        batch_range: Range<u32>,
        extra_index: PhaseItemExtraIndex,
    ) -> (item: AlphaMask3d)
        ensures
            item == (AlphaMask3d { key, representative_entity, batch_range, extra_index }),
    {
        AlphaMask3d { key, representative_entity, batch_range, extra_index }
    }
}

/// An item that light passes through, bent by it. Such items are sorted.
pub struct Transmissive3d {
    pub distance: Distance,
    pub pipeline: CachedRenderPipelineId,
    pub entity: (Entity, MainEntity),
    pub draw_function: DrawFunctionId,
    pub batch_range: Range<u32>,
    pub extra_index: PhaseItemExtraIndex,
}

impl Transmissive3d {
    /// For now, automatic batching is disabled for transmissive items because their rendering is
    /// split into multiple steps depending on the camera, which the batching system doesn't
    /// currently know about.
    ///
    /// Having batching enabled would cause the same item to be drawn multiple times across
    /// different steps, whenever the batching range crossed a step boundary.
    pub const AUTOMATIC_BATCHING: bool = false;

    /// The entity to fetch the data of the item from.
    pub fn entity(&self) -> (entity: Entity)
        ensures
            entity == self.entity.0,
    {
        self.entity.0
    }

    /// The entity of the main world that the item stands for.
    pub fn main_entity(&self) -> (main_entity: MainEntity)
        ensures
            main_entity == self.entity.1,
    {
        self.entity.1
    }

    /// The function that draws the item.
    pub fn draw_function(&self) -> (draw_function: DrawFunctionId)
        ensures
            draw_function == self.draw_function,
    {
        self.draw_function
    }

    /// The range of instances that the item's batch covers.
    pub fn batch_range(&self) -> (batch_range: &Range<u32>)
        ensures
            *batch_range == self.batch_range,
    {
        &self.batch_range
    }

    /// The range of instances, to change it. Nothing else about the item changes with it.
    pub fn batch_range_mut(&mut self) -> (batch_range: &mut Range<u32>)
        ensures
            *batch_range == old(self).batch_range,
            *final(self) == (Transmissive3d { batch_range: *final(batch_range), ..*old(self) }),
    {
        &mut self.batch_range
    }

    /// The extra index.
    pub fn extra_index(&self) -> (extra_index: PhaseItemExtraIndex)
        ensures
            extra_index == self.extra_index,
    {
        self.extra_index.clone()
    }

    /// The range of instances and the extra index, to change them. Nothing else about the item
    /// changes with them.
    pub fn batch_range_and_extra_index_mut(&mut self) -> (both: (
        &mut Range<u32>,
        &mut PhaseItemExtraIndex,
    ))
        ensures
            *both.0 == old(self).batch_range,
            *both.1 == old(self).extra_index,
            *final(self) == (Transmissive3d {
                batch_range: *final(both.0),
                extra_index: *final(both.1),
                ..*old(self)
            }),
    {
        (&mut self.batch_range, &mut self.extra_index)
    }

    /// The render pipeline that the item is drawn with.
    pub fn cached_pipeline(&self) -> (pipeline: CachedRenderPipelineId)
        ensures
            pipeline == self.pipeline,
    {
        self.pipeline
    }

    /// The key that orders the items: values increase towards the camera, so back-to-front
    /// order means ascending keys.
    pub fn sort_key(&self) -> (key: FloatOrd)
        ensures
            key == FloatOrd::spec_new(self.distance),
    {
        FloatOrd::new(self.distance)
    }

    /// Sorts the items by their distance, back to front; items at the same distance keep their
    /// order.
    pub fn sort(items: &mut [Transmissive3d])
        ensures
            is_stable_sort(old(items)@, final(items)@),
            final(items)@.to_multiset() == old(items)@.to_multiset(),
            forall|i: int, j: int|
                #![trigger final(items)@[i], final(items)@[j]]
                0 <= i <= j < final(items)@.len() ==> {
                    let (a, b) = (final(items)@[i].distance.bits, final(items)@[j].distance.bits);
                    &&& a >= 0x8000_0000 || b < 0x8000_0000
                    &&& a < 0x8000_0000 && b < 0x8000_0000 ==> a <= b
                    &&& a >= 0x8000_0000 && b >= 0x8000_0000 ==> a >= b
                },
    {
        sort_by_distance(items);
        proof {
            sorting_goes_by_sign_and_bits(old(items)@, items@, 0);
        }
    }
}

impl DistanceSorted for Transmissive3d {
    open spec fn spec_distance(&self) -> Distance {
        self.distance
    }

    fn get_distance(&self) -> (distance: Distance) {
        self.distance
    }
}

/// An item that what is behind it shows through. Such items are sorted.
pub struct Transparent3d {
    pub distance: Distance,
    pub pipeline: CachedRenderPipelineId,
    pub entity: (Entity, MainEntity),
    pub draw_function: DrawFunctionId,
    pub batch_range: Range<u32>,
    pub extra_index: PhaseItemExtraIndex,
}

impl Transparent3d {
    /// The entity to fetch the data of the item from.
    pub fn entity(&self) -> (entity: Entity)
        ensures
            entity == self.entity.0,
    {
        self.entity.0
    }

    /// The entity of the main world that the item stands for.
    pub fn main_entity(&self) -> (main_entity: MainEntity)
        ensures
            main_entity == self.entity.1,
    {
        self.entity.1
    }

    /// The function that draws the item.
    pub fn draw_function(&self) -> (draw_function: DrawFunctionId)
        ensures
            draw_function == self.draw_function,
    {
        self.draw_function
    }

    /// The range of instances that the item's batch covers.
    pub fn batch_range(&self) -> (batch_range: &Range<u32>)
        ensures
            *batch_range == self.batch_range,
    {
        &self.batch_range
    }

    /// The range of instances, to change it. Nothing else about the item changes with it.
    pub fn batch_range_mut(&mut self) -> (batch_range: &mut Range<u32>)
        ensures
            *batch_range == old(self).batch_range,
            *final(self) == (Transparent3d { batch_range: *final(batch_range), ..*old(self) }),
    {
        &mut self.batch_range
    }

    /// The extra index.
    pub fn extra_index(&self) -> (extra_index: PhaseItemExtraIndex)
        ensures
            extra_index == self.extra_index,
    {
        self.extra_index.clone()
    }

    /// The range of instances and the extra index, to change them. Nothing else about the item
    /// changes with them.
    pub fn batch_range_and_extra_index_mut(&mut self) -> (both: (
        &mut Range<u32>,
        &mut PhaseItemExtraIndex,
    ))
        ensures
            *both.0 == old(self).batch_range,
            *both.1 == old(self).extra_index,
            *final(self) == (Transparent3d {
                batch_range: *final(both.0),
                extra_index: *final(both.1),
                ..*old(self)
            }),
    {
        (&mut self.batch_range, &mut self.extra_index)
    }

    /// The render pipeline that the item is drawn with.
    pub fn cached_pipeline(&self) -> (pipeline: CachedRenderPipelineId)
        ensures
            pipeline == self.pipeline,
    {
        self.pipeline
    }

    /// The key that orders the items: values increase towards the camera, so back-to-front
    /// order means ascending keys.
    pub fn sort_key(&self) -> (key: FloatOrd)
        ensures
            key == FloatOrd::spec_new(self.distance),
    {
        FloatOrd::new(self.distance)
    }

    /// Sorts the items by their distance, back to front; items at the same distance keep their
    /// order.
    pub fn sort(items: &mut [Transparent3d])
        ensures
            is_stable_sort(old(items)@, final(items)@),
            final(items)@.to_multiset() == old(items)@.to_multiset(),
            forall|i: int, j: int|
                #![trigger final(items)@[i], final(items)@[j]]
                0 <= i <= j < final(items)@.len() ==> {
                    let (a, b) = (final(items)@[i].distance.bits, final(items)@[j].distance.bits);
                    &&& a >= 0x8000_0000 || b < 0x8000_0000
                    &&& a < 0x8000_0000 && b < 0x8000_0000 ==> a <= b
                    &&& a >= 0x8000_0000 && b >= 0x8000_0000 ==> a >= b
                },
    {
        sort_by_distance(items);
        proof {
            sorting_goes_by_sign_and_bits(old(items)@, items@, 0);
        }
    }
}

impl DistanceSorted for Transparent3d {
    open spec fn spec_distance(&self) -> Distance {
        self.distance
    }

    fn get_distance(&self) -> (distance: Distance) {
        self.distance
    }
}

} // verus!
