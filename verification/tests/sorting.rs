use bevy_ecs::entity::Entity;
use bevy_ecs::world::World;
use bevy_render::render_phase::{
    Draw, DrawError, DrawFunctionId, DrawFunctions, PhaseItem, PhaseItemExtraIndex,
    TrackedRenderPass,
};
use bevy_render::render_resource::CachedRenderPipelineId;
use bevy_render::sync_world::MainEntity;
use core::ops::Range;
use core_3d::distance::{Distance, FloatOrd};
use core_3d::phase_item::{Transmissive3d, Transparent3d};

struct Nothing;

impl PhaseItem for Nothing {
    fn entity(&self) -> Entity {
        Entity::PLACEHOLDER
    }
    fn main_entity(&self) -> MainEntity {
        MainEntity::from(Entity::PLACEHOLDER)
    }
    fn draw_function(&self) -> DrawFunctionId {
        unreachable!()
    }
    fn batch_range(&self) -> &Range<u32> {
        unreachable!()
    }
    fn batch_range_mut(&mut self) -> &mut Range<u32> {
        unreachable!()
    }
    fn extra_index(&self) -> PhaseItemExtraIndex {
        PhaseItemExtraIndex::None
    }
    fn batch_range_and_extra_index_mut(&mut self) -> (&mut Range<u32>, &mut PhaseItemExtraIndex) {
        unreachable!()
    }
}

struct DrawNothing;

impl Draw<Nothing> for DrawNothing {
    fn draw<'w>(
        &mut self,
        _world: &'w World,
        _pass: &mut TrackedRenderPass<'w>,
        _view: Entity,
        _item: &Nothing,
    ) -> Result<(), DrawError> {
        Ok(())
    }
}

fn draw_function() -> DrawFunctionId {
    DrawFunctions::<Nothing>::default().write().add(DrawNothing)
}

fn transparent(distance: f32, index: u32) -> Transparent3d {
    Transparent3d {
        distance: Distance { bits: distance.to_bits() },
        pipeline: CachedRenderPipelineId::INVALID,
        entity: (Entity::from_raw(index), MainEntity::from(Entity::from_raw(index))),
        draw_function: draw_function(),
        batch_range: 0..1,
        extra_index: PhaseItemExtraIndex::None,
    }
}

fn transmissive(distance: f32, index: u32) -> Transmissive3d {
    Transmissive3d {
        distance: Distance { bits: distance.to_bits() },
        pipeline: CachedRenderPipelineId::INVALID,
        entity: (Entity::from_raw(index), MainEntity::from(Entity::from_raw(index))),
        draw_function: draw_function(),
        batch_range: 0..1,
        extra_index: PhaseItemExtraIndex::None,
    }
}

const NUMBERS: [f32; 12] = [
    3.5,
    -1.0,
    0.0,
    f32::INFINITY,
    -0.0,
    f32::NEG_INFINITY,
    3.5,
    f32::MIN_POSITIVE,
    -1.0,
    f32::MAX,
    f32::MIN,
    1.0e-45,
];

fn negative_nan() -> f32 {
    f32::from_bits(0xffc0_0001)
}

fn positive_nan() -> f32 {
    f32::from_bits(0x7fc0_0001)
}

#[test]
fn float_ord_has_the_order_of_bevy_math() {
    let mut all = NUMBERS.to_vec();
    all.push(negative_nan());
    all.push(positive_nan());
    for a in &all {
        for b in &all {
            let ours = FloatOrd::new(Distance { bits: a.to_bits() })
                .cmp(&FloatOrd::new(Distance { bits: b.to_bits() }));
            let theirs = bevy_math::FloatOrd(*a).cmp(&bevy_math::FloatOrd(*b));
            assert_eq!(ours, theirs, "{a} {b}");
        }
    }
}

#[test]
fn radix_keys_of_some_distances() {
    let key = |x: f32| Distance { bits: x.to_bits() }.radix_key();
    assert_eq!(key(0.0), 0x8000_0000);
    assert_eq!(key(-0.0), 0x7fff_ffff);
    assert_eq!(key(1.0), 0xbf80_0000);
    assert_eq!(key(-1.0), 0x407f_ffff);
    assert_eq!(FloatOrd::new(Distance { bits: 1.0f32.to_bits() }).rank, 0xbf80_0000);
    assert_eq!(FloatOrd::new(Distance { bits: (-1.0f32).to_bits() }).rank, 0x4080_0000);
    assert_eq!(FloatOrd::new(Distance { bits: positive_nan().to_bits() }).rank, 0);
}

#[test]
fn items_sort_as_their_distances_do() {
    // Few items and many, with and without NaNs.
    let mut many: Vec<f32> = Vec::new();
    for i in 0..400u32 {
        many.push(f32::from_bits(i.wrapping_mul(2_654_435_769) % 97 * 44_000_000));
    }
    let mut with_nans = NUMBERS.to_vec();
    with_nans.insert(2, positive_nan());
    with_nans.push(negative_nan());
    for distances in [NUMBERS.to_vec(), many, with_nans, Vec::new(), vec![1.0]] {
        let mut expected: Vec<(f32, u32)> =
            distances.iter().enumerate().map(|(i, d)| (*d, i as u32)).collect();
        radsort::sort_by_key(&mut expected, |item| item.0);
        let mut transparents: Vec<Transparent3d> =
            distances.iter().enumerate().map(|(i, d)| transparent(*d, i as u32)).collect();
        Transparent3d::sort(&mut transparents);
        let mut transmissives: Vec<Transmissive3d> =
            distances.iter().enumerate().map(|(i, d)| transmissive(*d, i as u32)).collect();
        Transmissive3d::sort(&mut transmissives);
        assert_eq!(transparents.len(), expected.len());
        assert_eq!(transmissives.len(), expected.len());
        for (i, (distance, index)) in expected.iter().enumerate() {
            assert_eq!(transparents[i].distance.bits, distance.to_bits());
            assert_eq!(transparents[i].entity().index(), *index);
            assert_eq!(transmissives[i].distance.bits, distance.to_bits());
            assert_eq!(transmissives[i].entity().index(), *index);
        }
    }
}

#[test]
fn equal_distances_keep_their_order() {
    let mut items = vec![
        transparent(2.0, 0),
        transparent(1.0, 1),
        transparent(2.0, 2),
        transparent(-5.0, 3),
        transparent(1.0, 4),
    ];
    Transparent3d::sort(&mut items);
    let order: Vec<u32> = items.iter().map(|item| item.entity().index()).collect();
    assert_eq!(order, vec![3, 1, 4, 0, 2]);
    // Sorting again changes nothing.
    Transparent3d::sort(&mut items);
    let again: Vec<u32> = items.iter().map(|item| item.entity().index()).collect();
    assert_eq!(again, order);
    for pair in items.windows(2) {
        assert!(pair[0].sort_key() <= pair[1].sort_key());
    }
}

#[test]
fn a_positive_nan_sorts_last_though_its_key_is_least() {
    let mut items = vec![transmissive(positive_nan(), 0), transmissive(1.0, 1)];
    assert!(items[0].sort_key() < items[1].sort_key());
    Transmissive3d::sort(&mut items);
    assert_eq!(items[0].entity().index(), 1);
    let mut items = vec![transmissive(1.0, 0), transmissive(negative_nan(), 1)];
    Transmissive3d::sort(&mut items);
    assert_eq!(items[0].entity().index(), 1);
}

#[test]
fn sorted_items_give_out_their_parts() {
    let mut item = transparent(2.5, 6);
    let entity = Entity::from_raw(6);
    assert_eq!(item.entity(), entity);
    assert_eq!(item.main_entity(), MainEntity::from(entity));
    assert_eq!(item.draw_function(), draw_function());
    assert_eq!(item.cached_pipeline(), CachedRenderPipelineId::INVALID);
    assert_eq!(item.batch_range(), &(0..1));
    *item.batch_range_mut() = 4..9;
    assert_eq!(item.batch_range(), &(4..9));
    let (range, index) = item.batch_range_and_extra_index_mut();
    range.end = 10;
    *index = PhaseItemExtraIndex::DynamicOffset(3);
    assert_eq!(item.batch_range(), &(4..10));
    assert_eq!(item.extra_index(), PhaseItemExtraIndex::DynamicOffset(3));
    assert_eq!(item.distance.bits, 2.5f32.to_bits());
    assert!(!Transmissive3d::AUTOMATIC_BATCHING);

    let mut item = transmissive(-2.5, 7);
    let entity = Entity::from_raw(7);
    assert_eq!(item.entity(), entity);
    assert_eq!(item.main_entity(), MainEntity::from(entity));
    assert_eq!(item.draw_function(), draw_function());
    assert_eq!(item.cached_pipeline(), CachedRenderPipelineId::INVALID);
    *item.batch_range_mut() = 2..3;
    let (range, index) = item.batch_range_and_extra_index_mut();
    range.end = 5;
    *index = PhaseItemExtraIndex::IndirectParametersIndex {
        range: 1..2,
        batch_set_index: None,
    };
    assert_eq!(item.batch_range(), &(2..5));
    assert_eq!(
        item.extra_index(),
        PhaseItemExtraIndex::IndirectParametersIndex { range: 1..2, batch_set_index: None }
    );
}
