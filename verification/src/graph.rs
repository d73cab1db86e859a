//! The labels of the render graph of the 3D pipeline.

use vstd::prelude::*;

pub mod input;

verus! {

/// The label of the sub graph.
#[derive(Debug, Hash, PartialEq, Eq, Clone, Copy, Structural)]
pub struct Core3d;

/// The labels of the nodes of the sub graph.
#[derive(Debug, Hash, PartialEq, Eq, Clone, Copy, Structural)]
pub enum Node3d {
    MsaaWriteback,
    Prepass,
    DeferredPrepass,
    CopyDeferredLightingId,
    EndPrepasses,
    StartMainPass,
    MainOpaquePass,
    MainTransmissivePass,
    MainTransparentPass,
    EndMainPass,
    Taa,
    MotionBlur,
    Bloom,
    AutoExposure,
    DepthOfField,
    PostProcessing,
    Tonemapping,
    Fxaa,
    Smaa,
    Upscaling,
    ContrastAdaptiveSharpening,
    EndMainPassPostProcessing,
}

} // verus!
