//! Render layers: which cameras draw which entities.
//!
//! The layer sets are bevy's own [`RenderLayers`]; the items in this file
//! state, without proof, what its constructors return.

use vstd::prelude::*;
use bevy::render::view::RenderLayers;

verus! {

/// Makes bevy's `RenderLayers` known to the verifier as an opaque type.
#[verifier::external_type_specification]
#[verifier::external_body]
pub struct ExRenderLayers(RenderLayers);

/// The layers that a `RenderLayers` value contains.
pub uninterp spec fn layers_of(layers: RenderLayers) -> Set<u8>;

/// Number of layers that a `RenderLayers` value can tell apart.
pub const LAYER_COUNT: usize = 32;

/// Calls `RenderLayers::layer`: the set that holds exactly layer `n`.
///
/// The outside function panics for a layer of 32 or more, which the
/// precondition leaves out.
#[verifier::external_body]
pub(crate) fn single_layer(n: u8) -> (layers: RenderLayers)
    requires
        n < LAYER_COUNT,
    ensures
        layers_of(layers) == set![n],
{
    RenderLayers::layer(n)
}

/// Calls `RenderLayers::default`: the set that holds layer 0 alone, which
/// is also where an entity without the component belongs.
#[verifier::external_body]
pub(crate) fn default_layers() -> (layers: RenderLayers)
    ensures
        layers_of(layers) == set![0u8],
{
    RenderLayers::default()
}

/// Reads `RenderLayers::TOTAL_LAYERS`, the width in bits of the layer mask.
#[verifier::external_body]
pub(crate) fn total_layers() -> (count: usize)
    ensures
        count == LAYER_COUNT,
{
    RenderLayers::TOTAL_LAYERS
}

/// The layer reserved for the compositing pass: the last one there is.
pub fn post_processing_layer() -> (layers: RenderLayers)
    ensures
        layers_of(layers) == set![31u8],
{
    let last: usize = total_layers() - 1;
    single_layer(last as u8)
}

/// The layer of world geometry and of the camera that draws it.
pub fn world_layer() -> (layers: RenderLayers)
    ensures
        layers_of(layers) == set![0u8],
{
    default_layers()
}

/// The compositing layer and the world layer have no layer in common, so
/// neither camera draws what belongs to the other.
pub proof fn lemma_passes_are_disjoint(world: RenderLayers, post: RenderLayers)
    requires
        layers_of(world) == set![0u8],
        layers_of(post) == set![31u8],
    ensures
        layers_of(world).disjoint(layers_of(post)),
{
}

} // verus!
