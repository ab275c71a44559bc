//! Two-pass lit rendering core: offscreen target bookkeeping, a fixed set of
//! sixteen lights and the packing of their projections for the lighting pass.
//!
//! The scene is drawn into an offscreen image; a second pass draws a quad as
//! large as the output surface with a lighting shader that samples that
//! image and reads sixteen packed lights. This crate holds the state of that
//! pipeline and the rules that keep it consistent. Drawing, windows and
//! projection matrices belong to the engine around it.

pub mod camera;
pub mod frame;
pub mod layers;
pub mod light;
pub mod player;
pub mod resize;
pub mod scalar;
pub mod surface;
pub mod uniform;
