//! The two cameras of the pipeline and the order in which they draw.

use vstd::prelude::*;
use bevy::render::view::RenderLayers;
use crate::layers::{layers_of, post_processing_layer, world_layer};
use crate::surface::{ImageHandle, MainRenderTarget, SurfaceSize};

verus! {

/// World units that the scene camera shows from bottom to top.
pub const V_RESOLUTION: u32 = 144;

/// World units that the scene camera shows from left to right on a square
/// surface.
pub const H_RESOLUTION: u32 = 144;

/// Draw priority of the scene camera. Lower priorities draw first.
pub const SCENE_PRIORITY: isize = 0;

/// Draw priority of the post-process camera.
pub const POST_PROCESS_PRIORITY: isize = 1;

/// The camera that draws world geometry into the offscreen image.
#[derive(Clone, Copy, Debug, PartialEq, Eq)]
pub struct SceneCamera {
    /// Cameras with a lower priority draw before those with a higher one.
    pub priority: isize,
    /// The offscreen image that this camera draws into.
    pub target: ImageHandle,
    /// The layers whose entities this camera draws.
    pub layers: RenderLayers,
    /// Height of the orthographic view volume in world units.
    pub visible_height: u32,
}

/// The camera that draws the full-screen quad to the visible surface.
#[derive(Clone, Copy, Debug, PartialEq, Eq)]
pub struct PostProcessCamera {
    /// Cameras with a lower priority draw before those with a higher one.
    pub priority: isize,
    /// The layers whose entities this camera draws.
    pub layers: RenderLayers,
}

/// The scene camera together with the post-process camera.
#[derive(Clone, Copy, Debug, PartialEq, Eq)]
pub struct CameraRig {
    pub scene: SceneCamera,
    pub post_process: PostProcessCamera,
}

impl CameraRig {
    /// The rig is well formed when the scene pass draws strictly before the
    /// post-process pass and the two cameras share no layer, so that the
    /// post-process camera sees the compositing layer alone and the scene
    /// camera never sees it.
    pub open spec fn wf(&self) -> bool {
        &&& self.scene.priority < self.post_process.priority
        &&& layers_of(self.scene.layers) == set![0u8]
        &&& layers_of(self.post_process.layers) == set![31u8]
        &&& layers_of(self.scene.layers).disjoint(layers_of(self.post_process.layers))
    }

    /// Joins the two cameras into a rig.
    pub fn new(scene: SceneCamera, post_process: PostProcessCamera) -> (rig: CameraRig)
        ensures
            rig.scene == scene,
            rig.post_process == post_process,
    {
        CameraRig { scene, post_process }
    }

    /// Whether the scene pass is drawn before the post-process pass.
    pub fn scene_draws_first(&self) -> (first: bool)
        ensures
            first == (self.scene.priority < self.post_process.priority),
            self.wf() ==> first,
    {
        self.scene.priority < self.post_process.priority
    }
}

/// What start-up creates for the scene pass.
pub open spec fn scene_camera_for(image: ImageHandle, camera: SceneCamera) -> bool {
    &&& camera.priority == SCENE_PRIORITY
    &&& camera.target == image
    &&& layers_of(camera.layers) == set![0u8]
    &&& camera.visible_height == V_RESOLUTION
}

/// Creates the offscreen render target, as large as the output surface and
/// named `image`, and the scene camera that draws into it.
pub fn create_cameras(image: ImageHandle, surface: SurfaceSize) -> (created: (
    MainRenderTarget,
    SceneCamera,
))
    ensures
        created.0.wf(),
        created.0@.handle == image,
        created.0@.size == surface,
        scene_camera_for(image, created.1),
{
    let target = MainRenderTarget::create(image, surface.width, surface.height);
    let camera = SceneCamera {
        priority: SCENE_PRIORITY,
        target: image,
        layers: world_layer(),
        visible_height: V_RESOLUTION,
    };
    (target, camera)
}

/// Creates the camera of the lighting pass: it draws after the scene camera
/// and sees the compositing layer alone.
pub fn create_post_process_camera() -> (camera: PostProcessCamera)
    ensures
        camera.priority == POST_PROCESS_PRIORITY,
        layers_of(camera.layers) == set![31u8],
{
    PostProcessCamera { priority: POST_PROCESS_PRIORITY, layers: post_processing_layer() }
}

} // verus!
