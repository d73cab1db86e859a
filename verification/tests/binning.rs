use bevy_asset::{AssetId, UntypedAssetId};
use bevy_ecs::entity::Entity;
use bevy_ecs::world::World;
use bevy_image::Image;
use bevy_render::mesh::allocator::SlabId;
use bevy_render::render_phase::{
    Draw, DrawError, DrawFunctionId, DrawFunctions, PhaseItem, PhaseItemExtraIndex,
    TrackedRenderPass,
};
use bevy_render::render_resource::CachedRenderPipelineId;
use bevy_render::sync_world::MainEntity;
use core::ops::Range;
use core_3d::phase_item::{
    AlphaMask3d, Opaque3d, Opaque3dBatchSetKey, Opaque3dBinKey, OpaqueNoLightmap3dBatchSetKey,
    OpaqueNoLightmap3dBinKey,
};

struct Nothing;

impl PhaseItem for Nothing {
    fn entity(&self) -> Entity {
        Entity::PLACEHOLDER
    }
    fn main_entity(&self) -> MainEntity {
        MainEntity::from(Entity::PLACEHOLDER)
    }
    fn draw_function(&self) -> DrawFunctionId {
        unreachable!()
    }
    fn batch_range(&self) -> &Range<u32> {
        unreachable!()
    }
    fn batch_range_mut(&mut self) -> &mut Range<u32> {
        unreachable!()
    }
    fn extra_index(&self) -> PhaseItemExtraIndex {
        PhaseItemExtraIndex::None
    }
    fn batch_range_and_extra_index_mut(&mut self) -> (&mut Range<u32>, &mut PhaseItemExtraIndex) {
        unreachable!()
    }
}

struct DrawNothing;

impl Draw<Nothing> for DrawNothing {
    fn draw<'w>(
        &mut self,
        _world: &'w World,
        _pass: &mut TrackedRenderPass<'w>,
        _view: Entity,
        _item: &Nothing,
    ) -> Result<(), DrawError> {
        Ok(())
    }
}

fn draw_functions() -> (DrawFunctionId, DrawFunctionId) {
    let functions = DrawFunctions::<Nothing>::default();
    let first = functions.write().add(DrawNothing);
    let second = functions.write().add(DrawNothing);
    (first, second)
}

fn mesh() -> UntypedAssetId {
    AssetId::<Image>::invalid().untyped()
}

fn lightmap() -> UntypedAssetId {
    AssetId::<Image>::default().untyped()
}

fn batch_set(draw_function: DrawFunctionId) -> Opaque3dBatchSetKey {
    Opaque3dBatchSetKey {
        pipeline: CachedRenderPipelineId::INVALID,
        draw_function,
        material_bind_group_index: Some(4),
        vertex_slab: SlabId(5u32.try_into().unwrap()),
        index_slab: Some(SlabId::default()),
        lightmap_image: Some(lightmap()),
    }
}

#[test]
fn every_bin_belongs_to_its_batch_set() {
    let (first, second) = draw_functions();
    let key = Opaque3dBinKey { batch_set_key: batch_set(second), asset_id: mesh() };
    assert!(key.get_batch_set_key() == Some(batch_set(second)));
    assert!(key.get_batch_set_key() != Some(batch_set(first)));
    assert!(key.clone() == key);
    let unlit = Opaque3dBatchSetKey { lightmap_image: None, ..batch_set(second) };
    assert!(unlit.clone() != batch_set(second));
    assert!(unlit < batch_set(second));
}

#[test]
fn opaque_items_give_out_their_parts() {
    let (_, second) = draw_functions();
    let entities = (Entity::from_raw(3), MainEntity::from(Entity::from_raw(30)));
    let key = Opaque3dBinKey { batch_set_key: batch_set(second), asset_id: mesh() };
    let mut item =
        Opaque3d::new(key.clone(), entities, 2..5, PhaseItemExtraIndex::DynamicOffset(8));
    assert!(item.key == key);
    assert_eq!(item.entity(), entities.0);
    assert_eq!(item.main_entity(), entities.1);
    assert_eq!(item.draw_function(), second);
    assert_eq!(item.cached_pipeline(), CachedRenderPipelineId::INVALID);
    assert_eq!(item.batch_range(), &(2..5));
    assert_eq!(item.extra_index(), PhaseItemExtraIndex::DynamicOffset(8));
    item.batch_range_mut().start = 1;
    let (range, index) = item.batch_range_and_extra_index_mut();
    range.end = 7;
    *index = PhaseItemExtraIndex::None;
    assert_eq!(item.batch_range(), &(1..7));
    assert_eq!(item.extra_index(), PhaseItemExtraIndex::None);
    assert!(item.key == key);
    assert_eq!(item.representative_entity, entities);
}

#[test]
fn alpha_mask_items_give_out_their_parts() {
    let (_, second) = draw_functions();
    let entities = (Entity::from_raw(4), MainEntity::from(Entity::from_raw(40)));
    let key = OpaqueNoLightmap3dBinKey {
        batch_set_key: OpaqueNoLightmap3dBatchSetKey {
            pipeline: CachedRenderPipelineId::INVALID,
            draw_function: second,
            material_bind_group_index: None,
            vertex_slab: SlabId::default(),
            index_slab: None,
        },
        asset_id: mesh(),
    };
    let mut item = AlphaMask3d::new(key, entities, 0..9, PhaseItemExtraIndex::None);
    assert_eq!(item.entity(), entities.0);
    assert_eq!(item.main_entity(), entities.1);
    assert_eq!(item.draw_function(), second);
    assert_eq!(item.cached_pipeline(), CachedRenderPipelineId::INVALID);
    *item.batch_range_mut() = 3..4;
    assert_eq!(item.batch_range(), &(3..4));
    let (range, index) = item.batch_range_and_extra_index_mut();
    range.start = 2;
    *index = PhaseItemExtraIndex::DynamicOffset(1);
    assert_eq!(item.batch_range(), &(2..4));
    assert_eq!(item.extra_index(), PhaseItemExtraIndex::DynamicOffset(1));
    assert!(item.key.asset_id == mesh());
}
