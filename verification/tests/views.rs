use bevy_ecs::entity::Entity;
use bevy_render::batching::gpu_preprocessing as outside;
use core_3d::extract::gpu_preprocessing_mode;
use core_3d::msaa::check_msaa;
use core_3d::view::{GpuPreprocessingMode, GpuPreprocessingSupport, Msaa, ViewEntity};

#[test]
fn samples_are_the_number_in_the_name() {
    assert_eq!(Msaa::Off.samples(), 1);
    assert_eq!(Msaa::Sample2.samples(), 2);
    assert_eq!(Msaa::Sample4.samples(), 4);
    assert_eq!(Msaa::Sample8.samples(), 8);
}

#[test]
fn view_entities_have_the_bits_of_entities() {
    let entity = Entity::from_raw(7);
    let view = ViewEntity::try_from_bits(entity.to_bits()).unwrap();
    assert_eq!(view.to_bits(), entity.to_bits());
    for bits in [
        0,
        5,
        0xffff_ffff,
        0x1_0000_0000,
        0x1_0000_0005,
        0x7fff_ffff_ffff_ffff,
        0x8000_0000_0000_0000,
        u64::MAX,
    ] {
        assert_eq!(
            ViewEntity::try_from_bits(bits).is_some(),
            Entity::try_from_bits(bits).is_ok(),
            "{bits:#x}"
        );
    }
}

fn modes() -> [(GpuPreprocessingMode, outside::GpuPreprocessingMode); 3] {
    [
        (GpuPreprocessingMode::Disabled, outside::GpuPreprocessingMode::None),
        (
            GpuPreprocessingMode::PreprocessingOnly,
            outside::GpuPreprocessingMode::PreprocessingOnly,
        ),
        (GpuPreprocessingMode::Culling, outside::GpuPreprocessingMode::Culling),
    ]
}

#[test]
fn modes_are_capped_to_the_supported_one() {
    for (i, (supported, outside_supported)) in modes().into_iter().enumerate() {
        for (j, (mode, outside_mode)) in modes().into_iter().enumerate() {
            let support = GpuPreprocessingSupport { max_supported_mode: supported };
            let capped = support.min(mode);
            assert_eq!(capped, modes()[i.min(j)].0);
            let outside_support = outside::GpuPreprocessingSupport {
                max_supported_mode: outside_supported,
            };
            assert!(outside_support.min(outside_mode) == modes()[i.min(j)].1);
        }
    }
}

#[test]
fn views_cull_unless_indirect_drawing_is_off() {
    let full = GpuPreprocessingSupport { max_supported_mode: GpuPreprocessingMode::Culling };
    assert_eq!(gpu_preprocessing_mode(&full, false), GpuPreprocessingMode::Culling);
    assert_eq!(gpu_preprocessing_mode(&full, true), GpuPreprocessingMode::PreprocessingOnly);
    let some = GpuPreprocessingSupport {
        max_supported_mode: GpuPreprocessingMode::PreprocessingOnly,
    };
    assert_eq!(gpu_preprocessing_mode(&some, false), GpuPreprocessingMode::PreprocessingOnly);
    assert_eq!(gpu_preprocessing_mode(&some, true), GpuPreprocessingMode::PreprocessingOnly);
    let none = GpuPreprocessingSupport { max_supported_mode: GpuPreprocessingMode::Disabled };
    assert_eq!(gpu_preprocessing_mode(&none, false), GpuPreprocessingMode::Disabled);
    assert_eq!(gpu_preprocessing_mode(&none, true), GpuPreprocessingMode::Disabled);
}

#[test]
fn deferred_views_lose_multisampling() {
    let mut views = vec![Msaa::Sample4, Msaa::Off, Msaa::Sample2, Msaa::Sample8, Msaa::Off];
    assert_eq!(check_msaa(&mut views), vec![0, 2, 3]);
    assert_eq!(views, vec![Msaa::Off; 5]);
    assert_eq!(check_msaa(&mut views), Vec::<usize>::new());
    assert_eq!(views, vec![Msaa::Off; 5]);
}

#[test]
fn no_deferred_views_no_warnings() {
    let mut views = Vec::new();
    assert!(check_msaa(&mut views).is_empty());
    assert!(views.is_empty());
}
