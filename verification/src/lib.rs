//! The decisions of a 3D render pipeline, verified.
//!
//! Each frame the pipeline finds out from the cameras which views have which render phases
//! ([`extract`], [`extract_prepass`]), which textures the passes of each view render to and read
//! from ([`depth_textures`], [`transmission_textures`], [`prepass_textures`]), and in which order
//! the items of a phase are drawn ([`phase_item`], [`distance`]). Views with deferred rendering
//! are not multisampled ([`msaa`]). The systems and the render graph that all this runs in are
//! set up once ([`plugin`], [`graph`]).
//!
//! The functions here take plain values, and say what is to be done with the app and its
//! renderer.

pub mod depth_textures;
pub mod distance;
pub mod extract;
pub mod extract_prepass;
pub mod graph;
pub mod msaa;
pub mod phase_item;
pub mod plugin;
pub mod prepass_textures;
pub mod texture;
pub mod transmission_textures;
pub mod view;
