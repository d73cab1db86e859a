use bevy_ecs::entity::Entity;
use bevy_render::render_resource::TextureUsages as Outside;
use core_3d::depth_textures::{
    depth_texture_sampling_supported, depth_usages_known, prepare_core_3d_depth_textures,
    Camera3dDepthLoadOp, DepthView, ViewDepthTexture,
};
use core_3d::distance::Distance;
use core_3d::prepass_textures::{
    prepare_prepass_textures, ClearColor, ColorAttachment, PrepassView, ViewPrepassTextures,
};
use core_3d::texture::{
    Extent3d, RenderTargetId, TextureDescriptor, TextureDimension, TextureFormat, TextureUsages,
    UVec2, CORE_3D_DEPTH_FORMAT,
};
use core_3d::transmission_textures::{
    prepare_core_3d_transmission_textures, FilterMode, SamplerDescriptor, TransmissionView,
    ViewTransmissionTexture,
};
use core_3d::view::{Msaa, ViewEntity};

fn view(index: u32) -> ViewEntity {
    ViewEntity::try_from_bits(Entity::from_raw(index).to_bits()).unwrap()
}

fn extent(width: u32, height: u32) -> Extent3d {
    Extent3d { width, height, depth_or_array_layers: 1 }
}

fn usages(bits: u32) -> TextureUsages {
    TextureUsages { bits }
}

#[test]
fn usages_have_the_bits_of_the_renderer() {
    assert_eq!(TextureUsages::COPY_SRC, Outside::COPY_SRC.bits());
    assert_eq!(TextureUsages::COPY_DST, Outside::COPY_DST.bits());
    assert_eq!(TextureUsages::TEXTURE_BINDING, Outside::TEXTURE_BINDING.bits());
    assert_eq!(TextureUsages::RENDER_ATTACHMENT, Outside::RENDER_ATTACHMENT.bits());
    let both = Outside::COPY_SRC | Outside::RENDER_ATTACHMENT;
    assert_eq!(usages(1).union(usages(16)).bits, both.bits());
    assert_eq!(usages(17).union(usages(5)).bits, 21);
}

#[test]
fn depth_textures_cannot_be_sampled_on_webgl() {
    assert!(depth_texture_sampling_supported(false, false));
    assert!(depth_texture_sampling_supported(true, false));
    assert!(depth_texture_sampling_supported(true, true));
    assert!(!depth_texture_sampling_supported(false, true));
}

fn depth_view(index: u32, target: u64, msaa: Msaa) -> DepthView {
    DepthView {
        entity: view(index),
        target: RenderTargetId { id: target },
        physical_target_size: Some(UVec2 { x: 800, y: 600 }),
        depth_prepass: false,
        depth_texture_usages: usages(TextureUsages::RENDER_ATTACHMENT),
        depth_load_op: Camera3dDepthLoadOp::Load,
        msaa,
        has_opaque_3d_phase: true,
        has_alpha_mask_3d_phase: true,
        has_transmissive_3d_phase: true,
        has_transparent_3d_phase: true,
    }
}

fn depth_texture(width: u32, height: u32, sample_count: u32, bits: u32) -> TextureDescriptor {
    TextureDescriptor {
        label: "view_depth_texture",
        size: extent(width, height),
        mip_level_count: 1,
        sample_count,
        dimension: TextureDimension::D2,
        format: CORE_3D_DEPTH_FORMAT,
        usage: usages(bits),
    }
}

#[test]
fn views_share_depth_textures_by_target_and_samples() {
    let clear = Distance { bits: 0.0f32.to_bits() };
    let mut prepassed = depth_view(2, 70, Msaa::Sample4);
    prepassed.depth_prepass = true;
    prepassed.physical_target_size = Some(UVec2 { x: 1, y: 2 });
    prepassed.depth_load_op = Camera3dDepthLoadOp::Clear(clear);
    let mut unsized_view = depth_view(5, 70, Msaa::Sample8);
    unsized_view.physical_target_size = None;
    unsized_view.depth_texture_usages = usages(TextureUsages::TEXTURE_BINDING);
    let views = vec![
        depth_view(1, 70, Msaa::Sample4),
        prepassed,
        depth_view(3, 70, Msaa::Off),
        depth_view(4, 71, Msaa::Sample4),
        unsized_view,
    ];
    assert!(depth_usages_known(&views));
    let plan = prepare_core_3d_depth_textures(&views);
    // RENDER_ATTACHMENT of all, COPY_SRC of the second, TEXTURE_BINDING of the last
    let bits = 16 | 1 | 4;
    assert_eq!(
        plan.textures,
        vec![
            depth_texture(800, 600, 4, bits),
            depth_texture(800, 600, 1, bits),
            depth_texture(800, 600, 4, 16),
        ]
    );
    assert_eq!(
        plan.views,
        vec![
            ViewDepthTexture { entity: view(1), texture: 0, clear_value: None },
            ViewDepthTexture { entity: view(2), texture: 0, clear_value: Some(clear) },
            ViewDepthTexture { entity: view(3), texture: 1, clear_value: None },
            ViewDepthTexture { entity: view(4), texture: 2, clear_value: None },
        ]
    );
}

#[test]
fn views_without_phases_ask_for_no_usages() {
    let mut incomplete = depth_view(1, 7, Msaa::Off);
    incomplete.has_transmissive_3d_phase = false;
    incomplete.depth_texture_usages = usages(TextureUsages::COPY_DST);
    assert!(!depth_usages_known(&vec![incomplete]));
    let views = vec![incomplete, depth_view(2, 7, Msaa::Off)];
    assert!(depth_usages_known(&views));
    let plan = prepare_core_3d_depth_textures(&views);
    assert_eq!(plan.textures, vec![depth_texture(800, 600, 1, 16)]);
    assert_eq!(plan.views.len(), 2);
    assert_eq!(plan.views[0].texture, 0);
    assert_eq!(plan.views[1].texture, 0);
}

#[test]
fn each_missing_phase_leaves_the_usages_unknown() {
    for missing in 0..4 {
        let mut v = depth_view(1, 7, Msaa::Off);
        v.has_opaque_3d_phase = missing != 0;
        v.has_alpha_mask_3d_phase = missing != 1;
        v.has_transmissive_3d_phase = missing != 2;
        v.has_transparent_3d_phase = missing != 3;
        assert!(!depth_usages_known(&vec![v]));
        v.physical_target_size = None;
        assert!(depth_usages_known(&vec![v]));
        let plan = prepare_core_3d_depth_textures(&vec![v]);
        assert!(plan.textures.is_empty());
        assert!(plan.views.is_empty());
    }
}

fn transmission_view(index: u32, target: u64) -> TransmissionView {
    TransmissionView {
        entity: view(index),
        target: RenderTargetId { id: target },
        physical_target_size: Some(UVec2 { x: 320, y: 200 }),
        hdr: false,
        screen_space_specular_transmission_steps: 1,
        has_opaque_3d_phase: true,
        has_alpha_mask_3d_phase: true,
        transmissive_3d_items: Some(3),
        has_transparent_3d_phase: true,
    }
}

fn transmission_texture(width: u32, height: u32, format: TextureFormat) -> TextureDescriptor {
    TextureDescriptor {
        label: "view_transmission_texture",
        size: extent(width, height),
        mip_level_count: 1,
        sample_count: 1,
        dimension: TextureDimension::D2,
        format,
        usage: usages(4 | 2),
    }
}

#[test]
fn views_share_transmission_textures_by_target() {
    let mut hdr = transmission_view(2, 8);
    hdr.hdr = true;
    hdr.physical_target_size = Some(UVec2 { x: 5, y: 6 });
    let mut second = transmission_view(3, 8);
    second.physical_target_size = Some(UVec2 { x: 9, y: 9 });
    let views = vec![transmission_view(1, 7), hdr, second, transmission_view(4, 7)];
    let plan = prepare_core_3d_transmission_textures(&views);
    assert_eq!(
        plan.textures,
        vec![
            transmission_texture(320, 200, TextureFormat::BevyDefault),
            transmission_texture(5, 6, TextureFormat::ViewTargetHdr),
        ]
    );
    let sampler = SamplerDescriptor {
        label: "view_transmission_sampler",
        mag_filter: FilterMode::Linear,
        min_filter: FilterMode::Linear,
    };
    let expected: Vec<ViewTransmissionTexture> = [(1, 0), (2, 1), (3, 1), (4, 0)]
        .into_iter()
        .map(|(index, texture)| ViewTransmissionTexture { entity: view(index), texture, sampler })
        .collect();
    assert_eq!(plan.views, expected);
}

#[test]
fn views_with_nothing_transmissive_get_no_texture() {
    let full = transmission_view(1, 7);
    let none = vec![
        TransmissionView { has_opaque_3d_phase: false, ..full },
        TransmissionView { has_alpha_mask_3d_phase: false, ..full },
        TransmissionView { has_transparent_3d_phase: false, ..full },
        TransmissionView { transmissive_3d_items: None, ..full },
        TransmissionView { transmissive_3d_items: Some(0), ..full },
        TransmissionView { physical_target_size: None, ..full },
        TransmissionView { screen_space_specular_transmission_steps: 0, ..full },
    ];
    let plan = prepare_core_3d_transmission_textures(&none);
    assert!(plan.textures.is_empty());
    assert!(plan.views.is_empty());
    assert_eq!(prepare_core_3d_transmission_textures(&vec![full]).views.len(), 1);
}

fn prepass_view(index: u32, target: u64) -> PrepassView {
    PrepassView {
        entity: view(index),
        target: RenderTargetId { id: target },
        physical_target_size: Some(UVec2 { x: 64, y: 32 }),
        msaa: Msaa::Sample4,
        depth_prepass: false,
        normal_prepass: false,
        motion_vector_prepass: false,
        deferred_prepass: false,
        has_opaque_3d_prepass_phase: true,
        has_alpha_mask_3d_prepass_phase: false,
        has_opaque_3d_deferred_phase: false,
        has_alpha_mask_3d_deferred_phase: false,
    }
}

fn prepass_texture(
    label: &'static str,
    sample_count: u32,
    format: TextureFormat,
    bits: u32,
) -> TextureDescriptor {
    TextureDescriptor {
        label,
        size: extent(64, 32),
        mip_level_count: 1,
        sample_count,
        dimension: TextureDimension::D2,
        format,
        usage: usages(bits),
    }
}

fn black(texture: usize) -> Option<ColorAttachment> {
    Some(ColorAttachment { texture, clear_color: ClearColor::Black })
}

#[test]
fn prepasses_get_one_texture_each_per_target() {
    let all = PrepassView {
        depth_prepass: true,
        normal_prepass: true,
        motion_vector_prepass: true,
        deferred_prepass: true,
        ..prepass_view(1, 7)
    };
    let other = PrepassView {
        normal_prepass: true,
        msaa: Msaa::Off,
        physical_target_size: Some(UVec2 { x: 3, y: 3 }),
        ..prepass_view(2, 7)
    };
    let elsewhere = PrepassView { deferred_prepass: true, ..prepass_view(3, 8) };
    let plan = prepare_prepass_textures(&vec![all, other, elsewhere]);
    let (copied, plain) = (2 | 16 | 4, 16 | 4);
    assert_eq!(
        plan.textures,
        vec![
            prepass_texture("prepass_depth_texture", 4, TextureFormat::Depth32Float, copied),
            prepass_texture("prepass_normal_texture", 4, TextureFormat::NormalPrepass, plain),
            prepass_texture(
                "prepass_motion_vectors_textures",
                4,
                TextureFormat::MotionVectorPrepass,
                plain
            ),
            prepass_texture("prepass_deferred_texture", 1, TextureFormat::DeferredPrepass, plain),
            prepass_texture(
                "deferred_lighting_pass_id_texture",
                1,
                TextureFormat::DeferredLightingPassId,
                plain
            ),
            prepass_texture("prepass_deferred_texture", 1, TextureFormat::DeferredPrepass, plain),
            prepass_texture(
                "deferred_lighting_pass_id_texture",
                1,
                TextureFormat::DeferredLightingPassId,
                plain
            ),
        ]
    );
    assert_eq!(
        plan.views,
        vec![
            ViewPrepassTextures {
                entity: view(1),
                depth: black(0),
                normal: black(1),
                motion_vectors: black(2),
                deferred: black(3),
                deferred_lighting_pass_id: black(4),
                size: extent(64, 32),
            },
            ViewPrepassTextures {
                entity: view(2),
                depth: None,
                normal: black(1),
                motion_vectors: None,
                deferred: None,
                deferred_lighting_pass_id: None,
                size: extent(3, 3),
            },
            ViewPrepassTextures {
                entity: view(3),
                depth: None,
                normal: None,
                motion_vectors: None,
                deferred: black(5),
                deferred_lighting_pass_id: black(6),
                size: extent(64, 32),
            },
        ]
    );
}

#[test]
fn any_prepass_phase_is_enough_for_prepass_textures() {
    for phase in 0..5 {
        let v = PrepassView {
            depth_prepass: true,
            has_opaque_3d_prepass_phase: phase == 0,
            has_alpha_mask_3d_prepass_phase: phase == 1,
            has_opaque_3d_deferred_phase: phase == 2,
            has_alpha_mask_3d_deferred_phase: phase == 3,
            ..prepass_view(1, 7)
        };
        let plan = prepare_prepass_textures(&vec![v]);
        let expected = if phase < 4 { 1 } else { 0 };
        assert_eq!(plan.textures.len(), expected);
        assert_eq!(plan.views.len(), expected);
        let plan = prepare_prepass_textures(&vec![PrepassView { physical_target_size: None, ..v }]);
        assert!(plan.textures.is_empty());
        assert!(plan.views.is_empty());
    }
    // A view may have a phase and yet nothing to render to.
    let plan = prepare_prepass_textures(&vec![prepass_view(1, 7)]);
    assert!(plan.textures.is_empty());
    assert_eq!(plan.views.len(), 1);
    assert_eq!(plan.views[0].depth, None);
}
