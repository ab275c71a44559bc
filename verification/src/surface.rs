//! The output surface, the offscreen render target and the full-screen quad.

use vstd::prelude::*;
use bevy::render::view::RenderLayers;
use crate::camera::{H_RESOLUTION, V_RESOLUTION};
use crate::layers::{layers_of, post_processing_layer};
use crate::scalar::{Scalar, THREE_HALVES_BITS, lemma_halves};

verus! {

/// Width of the window at start-up, in pixels: six pixels to the world unit.
pub const H_WIN_SIZE: u32 = H_RESOLUTION * 6;

/// Height of the window at start-up, in pixels: six pixels to the world
/// unit.
pub const V_WIN_SIZE: u32 = V_RESOLUTION * 6;

/// A size in physical pixels.
#[derive(Clone, Copy, Debug, PartialEq, Eq, Structural)]
pub struct SurfaceSize {
    pub width: u32,
    pub height: u32,
}

/// Identifies an output surface. The primary surface has its own id; every
/// other id belongs to a surface that the pipeline does not draw to.
#[derive(Clone, Copy, Debug, PartialEq, Eq, Structural)]
pub struct SurfaceId {
    pub raw: u128,
}

/// A stable, opaque name for the offscreen image. It stays the same when the
/// storage behind it is replaced.
#[derive(Clone, Copy, Debug, PartialEq, Eq, Structural)]
pub struct ImageHandle {
    pub id: u64,
}

/// Pixel format of the offscreen image.
#[derive(Clone, Copy, Debug, PartialEq, Eq, Structural)]
pub enum PixelFormat {
    /// Four bytes per pixel: blue, green, red, alpha, sRGB encoded.
    Bgra8UnormSrgb,
}

/// What an image may be used for.
#[derive(Clone, Copy, Debug, PartialEq, Eq, Structural)]
pub struct TextureUsage {
    /// It can be sampled by a shader.
    pub texture_binding: bool,
    /// Data can be copied into it.
    pub copy_dst: bool,
    /// A camera can draw into it.
    pub render_attachment: bool,
}

/// The mathematical content of a [`MainRenderTarget`].
pub ghost struct RenderTargetView {
    pub handle: ImageHandle,
    pub size: SurfaceSize,
    pub format: PixelFormat,
    pub usage: TextureUsage,
}

/// The offscreen color buffer that the scene camera draws into and that the
/// lighting pass samples.
#[derive(Clone, Copy, Debug, PartialEq, Eq)]
pub struct MainRenderTarget {
    handle: ImageHandle,
    size: SurfaceSize,
    format: PixelFormat,
    usage: TextureUsage,
}

impl View for MainRenderTarget {
    type V = RenderTargetView;

    closed spec fn view(&self) -> RenderTargetView {
        RenderTargetView {
            handle: self.handle,
            size: self.size,
            format: self.format,
            usage: self.usage,
        }
    }
}

/// The usage that a render target needs: drawn into, sampled, and filled by
/// a copy.
pub open spec fn target_usage() -> TextureUsage {
    TextureUsage { texture_binding: true, copy_dst: true, render_attachment: true }
}

impl MainRenderTarget {
    /// A render target is well formed when it can be both drawn into and
    /// sampled, in the one format the pipeline uses.
    pub open spec fn wf(&self) -> bool {
        &&& self@.usage == target_usage()
        &&& self@.format == PixelFormat::Bgra8UnormSrgb
    }

    /// Describes a new render target of `width` by `height` pixels under the
    /// name `handle`.
    pub fn create(handle: ImageHandle, width: u32, height: u32) -> (target: MainRenderTarget)
        ensures
            target.wf(),
            target@.handle == handle,
            target@.size == (SurfaceSize { width, height }),
    {
        MainRenderTarget {
            handle,
            size: SurfaceSize { width, height },
            format: PixelFormat::Bgra8UnormSrgb,
            usage: TextureUsage { texture_binding: true, copy_dst: true, render_attachment: true },
        }
    }

    /// Replaces the storage by one of `width` by `height` pixels. The handle,
    /// the format and the usage stay as they were.
    pub fn recreate(&mut self, width: u32, height: u32)
        ensures
            final(self)@ == (RenderTargetView {
                size: SurfaceSize { width, height },
                ..old(self)@
            }),
    {
        self.size = SurfaceSize { width, height };
    }

    /// The stable handle.
    pub fn handle(&self) -> (handle: ImageHandle)
        ensures
            handle == self@.handle,
    {
        self.handle
    }

    /// The current size in pixels.
    pub fn size(&self) -> (size: SurfaceSize)
        ensures
            size == self@.size,
    {
        self.size
    }

    /// The pixel format.
    pub fn format(&self) -> (format: PixelFormat)
        ensures
            format == self@.format,
    {
        self.format
    }

    /// The usage flags.
    pub fn usage(&self) -> (usage: TextureUsage)
        ensures
            usage == self@.usage,
    {
        self.usage
    }
}

/// The rectangle that the lighting pass draws: as large as the render
/// target, centered at the origin, on the compositing layer.
#[derive(Clone, Copy, Debug, PartialEq, Eq)]
pub struct FullScreenQuad {
    /// Full width and height of the rectangle, in pixels.
    pub size: SurfaceSize,
    /// Distance along the view axis at which the rectangle is placed.
    pub depth: Scalar,
    /// The layers on which the rectangle is drawn.
    pub layers: RenderLayers,
}

impl FullScreenQuad {
    /// The placement that every full-screen quad has: at a depth of one and
    /// a half, on the last render layer and on no other.
    pub open spec fn placed(&self) -> bool {
        &&& self.depth.is_dyadic(3, 1)
        &&& self.depth.bits == THREE_HALVES_BITS
        &&& layers_of(self.layers) == set![31u8]
    }
}

/// Builds the full-screen quad for a window of the given physical size.
pub fn create_window_quad(window: SurfaceSize) -> (quad: FullScreenQuad)
    ensures
        quad.size == window,
        quad.placed(),
{
    let depth = Scalar::dyadic(3, 1);
    proof {
        lemma_halves(depth);
    }
    FullScreenQuad { size: window, depth, layers: post_processing_layer() }
}

} // verus!
