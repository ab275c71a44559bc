//! The light registry and the uniform block of the lighting pass.

use vstd::prelude::*;
use crate::camera::{PostProcessCamera, create_post_process_camera, POST_PROCESS_PRIORITY};
use crate::layers::layers_of;
use crate::scalar::{Scalar, lemma_negation_is_exact};
use crate::surface::{FullScreenQuad, ImageHandle, MainRenderTarget, SurfaceSize, create_window_quad};

verus! {

/// Number of light slots. The registry and the uniform block always hold
/// exactly this many entries.
pub const MAX_LIGHTS: usize = 16;

/// A point in world space.
#[derive(Clone, Copy, Debug, PartialEq, Eq, Structural)]
pub struct WorldPosition {
    pub x: Scalar,
    pub y: Scalar,
    pub z: Scalar,
}

/// A point in normalized device coordinates, as a camera projects it.
#[derive(Clone, Copy, Debug, PartialEq, Eq, Structural)]
pub struct NdcPoint {
    pub x: Scalar,
    pub y: Scalar,
    pub z: Scalar,
}

/// One light: where it is in the world and how strong it is.
#[derive(Clone, Copy, Debug, PartialEq, Eq, Structural)]
pub struct LightDescriptor {
    pub position: WorldPosition,
    pub strength: Scalar,
}

/// One entry of the uniform block that the fragment shader reads.
#[derive(Clone, Copy, Debug, PartialEq, Eq, Structural)]
pub struct PackedLight {
    /// Horizontal screen coordinate of the light.
    pub x: Scalar,
    /// Vertical screen coordinate of the light, pointing down.
    pub y: Scalar,
    /// Seconds elapsed when the block was packed.
    pub time: Scalar,
    /// Strength of the light.
    pub strength: Scalar,
}

/// The sixteen light slots, in a fixed order. Slots are overwritten, never
/// removed.
#[derive(Clone, Copy, Debug, PartialEq, Eq)]
pub struct Lights(pub [LightDescriptor; 16]);

impl View for Lights {
    type V = Seq<LightDescriptor>;

    open spec fn view(&self) -> Seq<LightDescriptor> {
        self.0@
    }
}

/// The light whose position and strength are all zero. It adds no light.
pub open spec fn dark_light() -> LightDescriptor {
    LightDescriptor {
        position: WorldPosition {
            x: Scalar { bits: 0 },
            y: Scalar { bits: 0 },
            z: Scalar { bits: 0 },
        },
        strength: Scalar { bits: 0 },
    }
}

/// Whether `light` is the placeholder of slot `index`: strength
/// `index / 16`, at `(64 * index, 128, 0)`.
pub open spec fn is_placeholder(light: LightDescriptor, index: int) -> bool {
    &&& light.strength.is_dyadic(index, 4)
    &&& light.position.x.is_dyadic(64 * index, 0)
    &&& light.position.y.is_dyadic(128, 0)
    &&& light.position.z.bits == 0
}

impl Lights {
    /// A registry in which every slot is dark.
    pub fn zeroed() -> (lights: Lights)
        ensures
            lights@.len() == MAX_LIGHTS,
            forall|i: int| 0 <= i < MAX_LIGHTS ==> lights@[i] == dark_light(),
    {
        let zero = Scalar::zero();
        let dark = LightDescriptor {
            position: WorldPosition { x: zero, y: zero, z: zero },
            strength: zero,
        };
        Lights([dark;16])
    }

    /// The registry as it is before anything has set a light: slot `i`
    /// holds the placeholder of strength `i / 16` at `(64 * i, 128, 0)`.
    pub fn placeholder() -> (lights: Lights)
        ensures
            lights@.len() == MAX_LIGHTS,
            forall|i: int| 0 <= i < MAX_LIGHTS ==> is_placeholder(#[trigger] lights@[i], i),
    {
        let mut lights = Lights::zeroed();
        let mut i: usize = 0;
        while i < MAX_LIGHTS
            invariant
                i <= MAX_LIGHTS,
                lights@.len() == MAX_LIGHTS,
                forall|j: int| 0 <= j < i ==> is_placeholder(#[trigger] lights@[j], j),
            decreases MAX_LIGHTS - i,
        {
            let index: u32 = i as u32;
            let light = LightDescriptor {
                position: WorldPosition {
                    x: Scalar::dyadic(index * 64, 0),
                    y: Scalar::dyadic(128, 0),
                    z: Scalar::zero(),
                },
                strength: Scalar::dyadic(index, 4),
            };
            lights.0[i] = light;
            i = i + 1;
        }
        lights
    }

    /// Overwrites the slot at `index`. An index of 16 or more names no slot.
    pub fn set(&mut self, index: usize, light: LightDescriptor)
        requires
            index < MAX_LIGHTS,
        ensures
            final(self)@ == old(self)@.update(index as int, light),
    {
        self.0[index] = light;
    }

    /// Sets the light at `index` to a world position and a strength.
    pub fn set_light(&mut self, index: usize, position: WorldPosition, strength: Scalar)
        requires
            index < MAX_LIGHTS,
        ensures
            final(self)@ == old(self)@.update(
                index as int,
                LightDescriptor { position, strength },
            ),
    {
        self.set(index, LightDescriptor { position, strength });
    }

    /// The light in the slot at `index`.
    pub fn get(&self, index: usize) -> (light: LightDescriptor)
        requires
            index < MAX_LIGHTS,
        ensures
            light == self@[index as int],
    {
        self.0[index]
    }
}

/// The material of the lighting pass: the image that the scene was drawn
/// into, and the uniform block with one packed entry per light slot.
#[derive(Clone, Copy, Debug, PartialEq, Eq)]
pub struct LightingMaterial {
    /// The offscreen image that the pass samples. The material reads it and
    /// never owns it.
    pub source_image: ImageHandle,
    /// The uniform block, in the order of the light registry.
    pub lights: [PackedLight; 16],
}

/// The entry with which the uniform block starts out: all zero.
pub open spec fn blank_entry() -> PackedLight {
    PackedLight {
        x: Scalar { bits: 0 },
        y: Scalar { bits: 0 },
        time: Scalar { bits: 0 },
        strength: Scalar { bits: 0 },
    }
}

/// A projection is resolved when the camera gave a point and none of its
/// coordinates is a NaN.
pub open spec fn resolved(projection: Option<NdcPoint>) -> bool {
    &&& projection is Some
    &&& !projection->0.x.spec_is_nan()
    &&& !projection->0.y.spec_is_nan()
    &&& !projection->0.z.spec_is_nan()
}

/// Whether each of the sixteen projections is resolved.
pub open spec fn all_resolved(projections: Seq<Option<NdcPoint>>) -> bool {
    forall|i: int| 0 <= i < MAX_LIGHTS ==> resolved(#[trigger] projections[i])
}

/// The packed entry of one light: its projected position with the vertical
/// axis flipped, the elapsed time, and its strength.
pub open spec fn packed_entry(light: LightDescriptor, point: NdcPoint, elapsed: Scalar)
    -> PackedLight {
    PackedLight {
        x: point.x,
        y: point.y.spec_negated(),
        time: elapsed,
        strength: light.strength,
    }
}

/// The whole uniform block for a registry and the projections of its slots.
pub open spec fn packed_block(
    lights: Seq<LightDescriptor>,
    projections: Seq<Option<NdcPoint>>,
    elapsed: Scalar,
) -> Seq<PackedLight> {
    Seq::new(MAX_LIGHTS as nat, |i: int| packed_entry(lights[i], projections[i]->0, elapsed))
}

/// The uniform block after one pass: packed anew when every projection is
/// resolved, and otherwise left as the previous pass wrote it.
pub open spec fn block_after_pass(
    before: Seq<PackedLight>,
    lights: Seq<LightDescriptor>,
    projections: Seq<Option<NdcPoint>>,
    elapsed: Scalar,
) -> Seq<PackedLight> {
    if all_resolved(projections) {
        packed_block(lights, projections, elapsed)
    } else {
        before
    }
}

impl LightingMaterial {
    /// The material is well formed when no screen coordinate in the uniform
    /// block is a NaN.
    pub open spec fn wf(&self) -> bool {
        forall|i: int|
            0 <= i < MAX_LIGHTS ==> !(#[trigger] self.lights@[i]).x.spec_is_nan()
                && !self.lights@[i].y.spec_is_nan()
    }

    /// A material that samples `source_image` and whose uniform block is
    /// all zero.
    pub fn new(source_image: ImageHandle) -> (material: LightingMaterial)
        ensures
            material.source_image == source_image,
            material.lights@.len() == MAX_LIGHTS,
            forall|i: int| 0 <= i < MAX_LIGHTS ==> material.lights@[i] == blank_entry(),
            material.wf(),
    {
        let zero = Scalar::zero();
        let blank = PackedLight { x: zero, y: zero, time: zero, strength: zero };
        LightingMaterial { source_image, lights: [blank;16] }
    }
}

/// Packs the uniform block from the registry and the projection of each
/// slot's position.
///
/// When every projection is resolved the whole block is written anew. When
/// any one is not, nothing is written: the block keeps what the previous
/// pass left.
pub fn pack_lights(
    material: &mut LightingMaterial,
    lights: &Lights,
    projections: &[Option<NdcPoint>; 16],
    elapsed: Scalar,
) -> (updated: bool)
    ensures
        updated == all_resolved(projections@),
        final(material).lights@ == block_after_pass(
            old(material).lights@,
            lights@,
            projections@,
            elapsed,
        ),
        final(material).source_image == old(material).source_image,
        !updated ==> *final(material) == *old(material),
        old(material).wf() ==> final(material).wf(),
{
    let zero = Scalar::zero();
    let mut block = [PackedLight { x: zero, y: zero, time: zero, strength: zero };16];
    let mut i: usize = 0;
    while i < MAX_LIGHTS
        invariant
            i <= MAX_LIGHTS,
            block@.len() == MAX_LIGHTS,
            forall|j: int| 0 <= j < i ==> resolved(#[trigger] projections@[j]),
            forall|j: int|
                0 <= j < i ==> #[trigger] block@[j] == packed_entry(
                    lights@[j],
                    projections@[j]->0,
                    elapsed,
                ),
        decreases MAX_LIGHTS - i,
    {
        match projections[i] {
            Some(point) => {
                if point.x.is_nan() || point.y.is_nan() || point.z.is_nan() {
                    return false;
                }
                block[i] = PackedLight {
                    x: point.x,
                    y: point.y.negated(),
                    time: elapsed,
                    strength: lights.0[i].strength,
                };
            },
            None => return false,
        }
        i = i + 1;
    }
    material.lights = block;
    proof {
        assert forall|j: int| 0 <= j < MAX_LIGHTS implies !(#[trigger] material.lights@[j]).x.spec_is_nan()
            && !material.lights@[j].y.spec_is_nan() by {
            lemma_negation_is_exact(projections@[j]->0.y);
        }
    }
    true
}

/// What a projection function returned for the position of each slot.
pub open spec fn projected_by<F: Fn(WorldPosition) -> Option<NdcPoint>>(
    project: F,
    lights: Seq<LightDescriptor>,
    projections: Seq<Option<NdcPoint>>,
) -> bool {
    &&& projections.len() == MAX_LIGHTS
    &&& forall|i: int|
        0 <= i < MAX_LIGHTS ==> call_ensures(project, (lights[i].position,), #[trigger] projections[i])
}

/// Runs one lighting pass: projects the position of every slot with
/// `project` and packs the results into the uniform block of `material`.
///
/// `project` stands for the scene camera. It is called once per slot, in
/// slot order. If the camera cannot resolve any one of the sixteen
/// positions, the pass writes nothing and the block keeps its previous
/// contents.
pub fn update_lighting_shader<F: Fn(WorldPosition) -> Option<NdcPoint>>(
    material: &mut LightingMaterial,
    lights: &Lights,
    project: F,
    elapsed: Scalar,
) -> (updated: bool)
    requires
        forall|i: int| 0 <= i < MAX_LIGHTS ==> call_requires(project, (lights@[i].position,)),
    ensures
        exists|projections: Seq<Option<NdcPoint>>|
            {
                &&& #[trigger] projected_by(project, lights@, projections)
                &&& updated == all_resolved(projections)
                &&& final(material).lights@ == block_after_pass(
                    old(material).lights@,
                    lights@,
                    projections,
                    elapsed,
                )
            },
        final(material).source_image == old(material).source_image,
        !updated ==> *final(material) == *old(material),
        old(material).wf() ==> final(material).wf(),
{
    let mut projections: [Option<NdcPoint>; 16] = [None;16];
    let mut i: usize = 0;
    while i < MAX_LIGHTS
        invariant
            i <= MAX_LIGHTS,
            projections@.len() == MAX_LIGHTS,
            lights@.len() == MAX_LIGHTS,
            forall|j: int| 0 <= j < MAX_LIGHTS ==> call_requires(project, (lights@[j].position,)),
            forall|j: int|
                0 <= j < i ==> call_ensures(
                    project,
                    (lights@[j].position,),
                    #[trigger] projections@[j],
                ),
        decreases MAX_LIGHTS - i,
    {
        let point = project(lights.0[i].position);
        projections[i] = point;
        i = i + 1;
    }
    let updated = pack_lights(material, lights, &projections, elapsed);
    proof {
        assert(projected_by(project, lights@, projections@));
    }
    updated
}

/// What start-up creates for the lighting pass.
#[derive(Clone, Copy, Debug, PartialEq, Eq)]
pub struct LightingPass {
    /// The quad that the pass draws.
    pub quad: FullScreenQuad,
    /// The material that the quad is drawn with.
    pub material: LightingMaterial,
    /// The camera that draws the quad to the visible surface.
    pub camera: PostProcessCamera,
}

/// Sets up the lighting pass for a window of the given physical size: a
/// quad as large as the window, a material that samples the render target
/// and starts with an all-zero uniform block, and the post-process camera.
pub fn init_lighting_shader(window: SurfaceSize, render_target: &MainRenderTarget) -> (pass:
    LightingPass)
    ensures
        pass.quad.size == window,
        pass.quad.placed(),
        pass.material.source_image == render_target@.handle,
        pass.material.lights@.len() == MAX_LIGHTS,
        forall|i: int| 0 <= i < MAX_LIGHTS ==> pass.material.lights@[i] == blank_entry(),
        pass.material.wf(),
        pass.camera.priority == POST_PROCESS_PRIORITY,
        layers_of(pass.camera.layers) == set![31u8],
        layers_of(pass.camera.layers) == layers_of(pass.quad.layers),
{
    let quad = create_window_quad(window);
    let material = LightingMaterial::new(render_target.handle());
    let camera = create_post_process_camera();
    LightingPass { quad, material, camera }
}

/// The projection of every slot's position by a camera that is a function
/// of the position alone.
pub open spec fn projections_of(
    camera: spec_fn(WorldPosition) -> Option<NdcPoint>,
    lights: Seq<LightDescriptor>,
) -> Seq<Option<NdcPoint>> {
    Seq::new(MAX_LIGHTS as nat, |i: int| camera(lights[i].position))
}

/// After the light at `index` has been set to a position, the next pass
/// that the camera resolves puts the camera's projection of that position
/// into entry `index`: the horizontal coordinate as projected, the vertical
/// one with its sign inverted, beside the light's strength and the time of
/// the pass.
pub proof fn lemma_set_light_reaches_screen(
    before: Seq<PackedLight>,
    lights: Seq<LightDescriptor>,
    index: int,
    position: WorldPosition,
    strength: Scalar,
    camera: spec_fn(WorldPosition) -> Option<NdcPoint>,
    elapsed: Scalar,
)
    requires
        lights.len() == MAX_LIGHTS,
        0 <= index < MAX_LIGHTS,
        all_resolved(
            projections_of(camera, lights.update(index, LightDescriptor { position, strength })),
        ),
    ensures
        ({
            let set = lights.update(index, LightDescriptor { position, strength });
            let after = block_after_pass(before, set, projections_of(camera, set), elapsed);
            let projected = camera(position)->0;
            &&& camera(position) is Some
            &&& after[index].x == projected.x
            &&& after[index].y == projected.y.spec_negated()
            &&& after[index].y.sign_bit() != projected.y.sign_bit()
            &&& after[index].y.scaled_value() == -projected.y.scaled_value()
            &&& after[index].strength == strength
            &&& after[index].time == elapsed
        }),
{
    let set = lights.update(index, LightDescriptor { position, strength });
    let projections = projections_of(camera, set);
    assert(resolved(projections[index]));
    lemma_negation_is_exact(camera(position)->0.y);
}

/// A pass writes all sixteen entries from one registry and one time, or
/// none at all: the block is never a mixture of two passes.
pub proof fn lemma_pass_is_all_or_nothing(
    before: Seq<PackedLight>,
    lights: Seq<LightDescriptor>,
    projections: Seq<Option<NdcPoint>>,
    elapsed: Scalar,
)
    requires
        before.len() == MAX_LIGHTS,
    ensures
        ({
            let after = block_after_pass(before, lights, projections, elapsed);
            &&& after.len() == MAX_LIGHTS
            &&& (forall|i: int|
                0 <= i < MAX_LIGHTS ==> #[trigger] after[i] == packed_entry(
                    lights[i],
                    projections[i]->0,
                    elapsed,
                )) || after == before
        }),
{
}

/// Whether every entry of the block has screen coordinates that are
/// numbers, and a strength that is either zero, as at start-up, or the
/// strength of its slot in the registry.
pub open spec fn at_defaults(block: Seq<PackedLight>, lights: Seq<LightDescriptor>) -> bool {
    forall|i: int|
        0 <= i < MAX_LIGHTS ==> {
            &&& !(#[trigger] block[i]).x.spec_is_nan()
            &&& !block[i].y.spec_is_nan()
            &&& (block[i].strength.bits == 0 || block[i].strength == lights[i].strength)
        }
}

/// The all-zero block of start-up is at its defaults, whatever the
/// registry holds.
pub proof fn lemma_start_up_block_is_at_defaults(
    block: Seq<PackedLight>,
    lights: Seq<LightDescriptor>,
)
    requires
        forall|i: int| 0 <= i < MAX_LIGHTS ==> block[i] == blank_entry(),
    ensures
        at_defaults(block, lights),
{
}

/// While no light is set, no pass moves a strength away from its default
/// or writes a screen coordinate that is not a number, whatever the camera
/// returns, be it nothing at all. Where the camera cannot resolve a slot
/// the block stays exactly as it was.
pub proof fn lemma_untouched_slots_keep_defaults(
    before: Seq<PackedLight>,
    lights: Seq<LightDescriptor>,
    projections: Seq<Option<NdcPoint>>,
    elapsed: Scalar,
)
    requires
        at_defaults(before, lights),
    ensures
        at_defaults(block_after_pass(before, lights, projections, elapsed), lights),
        !all_resolved(projections) ==> block_after_pass(before, lights, projections, elapsed)
            == before,
        forall|i: int|
            0 <= i < MAX_LIGHTS && is_placeholder(lights[i], i) ==> {
                let strength = (#[trigger] block_after_pass(
                    before,
                    lights,
                    projections,
                    elapsed,
                )[i]).strength;
                strength.bits == 0 || strength.is_dyadic(i, 4)
            },
        forall|i: int|
            0 <= i < MAX_LIGHTS && lights[i] == dark_light() ==> (#[trigger] block_after_pass(
                before,
                lights,
                projections,
                elapsed,
            )[i]).strength.bits == 0,
{
    let after = block_after_pass(before, lights, projections, elapsed);
    if all_resolved(projections) {
        assert forall|i: int| 0 <= i < MAX_LIGHTS implies {
            &&& !(#[trigger] after[i]).x.spec_is_nan()
            &&& !after[i].y.spec_is_nan()
            &&& (after[i].strength.bits == 0 || after[i].strength == lights[i].strength)
        } by {
            lemma_negation_is_exact(projections[i]->0.y);
        }
    }
}

} // verus!
