//! The state of the pipeline and the stages that a frame runs on it.
//!
//! A frame applies the stages in this order: the light writes of the
//! gameplay code, resize handling, then the lighting pass. The cameras then
//! draw by priority, scene first.

use vstd::prelude::*;
use crate::camera::{CameraRig, create_cameras};
use crate::layers::{layers_of, lemma_passes_are_disjoint};
use crate::light::{
    LightDescriptor, LightingMaterial, Lights, NdcPoint, WorldPosition, MAX_LIGHTS, all_resolved,
    blank_entry, block_after_pass, init_lighting_shader, is_placeholder, projected_by,
    update_lighting_shader,
};
use crate::resize::{
    Extents, ResizeAction, ResizeEvent, action_for, coordinate_resize, extents_after, latest_size,
};
use crate::scalar::{Scalar, INFINITY_BITS, lemma_order_follows_bits};
use crate::surface::{
    FullScreenQuad, ImageHandle, MainRenderTarget, RenderTargetView, SurfaceId, SurfaceSize,
};

verus! {

/// Whether a scalar can be a reading of elapsed time: finite and without a
/// sign.
pub open spec fn is_elapsed_time(s: Scalar) -> bool {
    !s.sign_bit() && s.is_finite()
}

/// The later of the previous reading and a new one. A new reading that
/// lies before the previous one, or that is no time at all, is passed over.
pub open spec fn later_of(previous: Scalar, now: Scalar) -> Scalar {
    if is_elapsed_time(now) && now.bits >= previous.bits {
        now
    } else {
        previous
    }
}

/// Advances the clock of the lighting pass to `now`, never backwards.
pub fn advance_clock(previous: Scalar, now: Scalar) -> (elapsed: Scalar)
    ensures
        elapsed == later_of(previous, now),
        is_elapsed_time(previous) ==> is_elapsed_time(elapsed) && elapsed.scaled_value()
            >= previous.scaled_value(),
{
    if now.bits < INFINITY_BITS && now.bits >= previous.bits {
        proof {
            if is_elapsed_time(previous) && now.bits > previous.bits {
                lemma_order_follows_bits(previous, now);
            }
        }
        now
    } else {
        previous
    }
}

/// Everything that the stages of a frame read and write.
#[derive(Clone, Copy, Debug, PartialEq, Eq)]
pub struct FrameContext {
    /// The offscreen image that the scene is drawn into.
    pub render_target: MainRenderTarget,
    /// The quad that the lighting pass draws.
    pub quad: FullScreenQuad,
    /// The light registry, written by gameplay code.
    pub lights: Lights,
    /// The material of the lighting pass, with the uniform block.
    pub material: LightingMaterial,
    /// The scene camera and the post-process camera.
    pub cameras: CameraRig,
    /// Seconds elapsed at the latest lighting pass.
    pub elapsed: Scalar,
}

impl FrameContext {
    /// The context is well formed when its parts fit together: the quad is
    /// as large as the render target, the material samples the image that
    /// the scene camera draws into, the scene pass draws before the
    /// post-process pass, which sees the quad and nothing of the world, no
    /// screen coordinate in the uniform block is a NaN, and the clock shows
    /// a time.
    pub open spec fn wf(&self) -> bool {
        &&& self.render_target.wf()
        &&& self.quad.size == self.render_target@.size
        &&& self.quad.placed()
        &&& self.material.source_image == self.render_target@.handle
        &&& self.material.wf()
        &&& self.cameras.wf()
        &&& self.cameras.scene.target == self.render_target@.handle
        &&& layers_of(self.quad.layers) == layers_of(self.cameras.post_process.layers)
        &&& is_elapsed_time(self.elapsed)
    }

    /// The sizes of the render target and of the quad.
    pub open spec fn extents(&self) -> Extents {
        Extents { target: self.render_target@.size, quad: self.quad.size }
    }

    /// Sets the pipeline up for an output surface of the given physical
    /// size: render target and quad as large as the surface, both cameras,
    /// the placeholder lights, an all-zero uniform block and a clock at
    /// zero.
    pub fn startup(image: ImageHandle, surface: SurfaceSize) -> (context: FrameContext)
        ensures
            context.wf(),
            context.render_target@.handle == image,
            context.render_target@.size == surface,
            context.quad.size == surface,
            forall|i: int| 0 <= i < MAX_LIGHTS ==> is_placeholder(#[trigger] context.lights@[i], i),
            forall|i: int| 0 <= i < MAX_LIGHTS ==> context.material.lights@[i] == blank_entry(),
            context.elapsed.bits == 0,
    {
        let (render_target, scene) = create_cameras(image, surface);
        let pass = init_lighting_shader(surface, &render_target);
        let cameras = CameraRig::new(scene, pass.camera);
        proof {
            lemma_passes_are_disjoint(scene.layers, pass.camera.layers);
        }
        FrameContext {
            render_target,
            quad: pass.quad,
            lights: Lights::placeholder(),
            material: pass.material,
            cameras,
            elapsed: Scalar::zero(),
        }
    }

    /// Stage of the gameplay code: sets the light at `index`.
    pub fn set_light(&mut self, index: usize, light: LightDescriptor)
        requires
            index < MAX_LIGHTS,
        ensures
            final(self).lights@ == old(self).lights@.update(index as int, light),
            *final(self) == (FrameContext { lights: final(self).lights, ..*old(self) }),
            old(self).wf() ==> final(self).wf(),
    {
        self.lights.set(index, light);
    }

    /// Stage of resize handling: serves the resize events of this frame.
    ///
    /// The last event for the surface `primary` decides. Render target and
    /// quad are brought to its size together, so that after this stage they
    /// are equally large whatever they were before. The returned action
    /// tells what storage has to be allocated anew.
    pub fn handle_resize(&mut self, events: &[ResizeEvent], primary: SurfaceId) -> (action:
        ResizeAction)
        ensures
            action == action_for(old(self).extents(), latest_size(events@, primary)),
            final(self).extents() == extents_after(
                old(self).extents(),
                latest_size(events@, primary),
            ),
            latest_size(events@, primary) matches Some(size) ==> final(self).render_target@.size
                == size && final(self).quad.size == size,
            final(self).render_target@ == (RenderTargetView {
                size: final(self).render_target@.size,
                ..old(self).render_target@
            }),
            *final(self) == (FrameContext {
                render_target: final(self).render_target,
                quad: final(self).quad,
                ..*old(self)
            }),
            action is Keep ==> *final(self) == *old(self),
            old(self).wf() ==> final(self).wf(),
    {
        coordinate_resize(&mut self.render_target, &mut self.quad, events, primary)
    }

    /// Stage of the lighting pass: advances the clock to `now`, projects
    /// every light with `project`, which stands for the scene camera, and
    /// packs the uniform block.
    ///
    /// When the camera cannot resolve one of the sixteen positions the
    /// block is left as the previous pass wrote it.
    pub fn composite<F: Fn(WorldPosition) -> Option<NdcPoint>>(&mut self, project: F, now: Scalar) -> (updated:
        bool)
        requires
            forall|i: int|
                0 <= i < MAX_LIGHTS ==> call_requires(project, (old(self).lights@[i].position,)),
        ensures
            final(self).elapsed == later_of(old(self).elapsed, now),
            exists|projections: Seq<Option<NdcPoint>>|
                {
                    &&& #[trigger] projected_by(project, old(self).lights@, projections)
                    &&& updated == all_resolved(projections)
                    &&& final(self).material.lights@ == block_after_pass(
                        old(self).material.lights@,
                        old(self).lights@,
                        projections,
                        final(self).elapsed,
                    )
                },
            *final(self) == (FrameContext {
                material: final(self).material,
                elapsed: final(self).elapsed,
                ..*old(self)
            }),
            final(self).material.source_image == old(self).material.source_image,
            !updated ==> final(self).material == old(self).material,
            old(self).wf() ==> final(self).wf(),
            is_elapsed_time(old(self).elapsed) ==> final(self).elapsed.scaled_value() >= old(
                self,
            ).elapsed.scaled_value(),
    {
        self.elapsed = advance_clock(self.elapsed, now);
        update_lighting_shader(&mut self.material, &self.lights, project, self.elapsed)
    }
}

} // verus!
