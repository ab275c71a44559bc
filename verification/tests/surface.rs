use bevy::render::view::RenderLayers;
use gamejam::camera::{
    create_cameras, create_post_process_camera, CameraRig, H_RESOLUTION, POST_PROCESS_PRIORITY,
    SCENE_PRIORITY, V_RESOLUTION,
};
use gamejam::layers::{post_processing_layer, world_layer, LAYER_COUNT};
use gamejam::scalar::Scalar;
use gamejam::surface::{
    create_window_quad, ImageHandle, MainRenderTarget, PixelFormat, SurfaceSize, TextureUsage,
    H_WIN_SIZE, V_WIN_SIZE,
};

#[test]
fn post_processing_layer_is_the_last_layer() {
    assert_eq!(post_processing_layer(), RenderLayers::layer(31));
    assert_eq!(post_processing_layer().iter().collect::<Vec<u8>>(), vec![31u8]);
    assert_eq!(LAYER_COUNT, RenderLayers::TOTAL_LAYERS);
}

#[test]
fn world_layer_is_layer_zero() {
    assert_eq!(world_layer(), RenderLayers::layer(0));
    assert_eq!(world_layer(), RenderLayers::default());
    assert_eq!(world_layer().iter().collect::<Vec<u8>>(), vec![0u8]);
}

#[test]
fn world_and_compositing_layers_do_not_intersect() {
    assert!(!world_layer().intersects(&post_processing_layer()));
    assert!(post_processing_layer().intersects(&post_processing_layer()));
}

#[test]
fn start_up_window_is_six_times_the_resolution() {
    assert_eq!(H_WIN_SIZE, 864);
    assert_eq!(V_WIN_SIZE, 864);
    assert_eq!(H_WIN_SIZE, H_RESOLUTION * 6);
    assert_eq!(V_WIN_SIZE, V_RESOLUTION * 6);
}

#[test]
fn render_target_is_created_at_the_given_size() {
    let target = MainRenderTarget::create(ImageHandle { id: 9 }, 864, 864);
    assert_eq!(target.handle(), ImageHandle { id: 9 });
    assert_eq!(target.size(), SurfaceSize { width: 864, height: 864 });
    assert_eq!(target.format(), PixelFormat::Bgra8UnormSrgb);
    assert_eq!(
        target.usage(),
        TextureUsage { texture_binding: true, copy_dst: true, render_attachment: true }
    );
}

#[test]
fn recreate_swaps_the_size_and_keeps_the_handle() {
    let mut target = MainRenderTarget::create(ImageHandle { id: 9 }, 864, 864);
    let usage = target.usage();
    target.recreate(1024, 768);
    assert_eq!(target.handle(), ImageHandle { id: 9 });
    assert_eq!(target.size(), SurfaceSize { width: 1024, height: 768 });
    assert_eq!(target.format(), PixelFormat::Bgra8UnormSrgb);
    assert_eq!(target.usage(), usage);
}

#[test]
fn recreate_accepts_every_size() {
    let mut target = MainRenderTarget::create(ImageHandle { id: 0 }, 1, 1);
    target.recreate(0, 0);
    assert_eq!(target.size(), SurfaceSize { width: 0, height: 0 });
    target.recreate(u32::MAX, u32::MAX);
    assert_eq!(target.size(), SurfaceSize { width: u32::MAX, height: u32::MAX });
}

#[test]
fn window_quad_matches_the_window() {
    let quad = create_window_quad(SurfaceSize { width: 1024, height: 768 });
    assert_eq!(quad.size, SurfaceSize { width: 1024, height: 768 });
    assert_eq!(quad.layers, RenderLayers::layer(31));
    assert_eq!(f32::from_bits(quad.depth.to_bits()), 1.5);
    assert_eq!(quad.depth, Scalar::dyadic(3, 1));
}

#[test]
fn create_cameras_binds_the_scene_camera_to_the_target() {
    let (target, camera) =
        create_cameras(ImageHandle { id: 4 }, SurfaceSize { width: 864, height: 864 });
    assert_eq!(target.handle(), ImageHandle { id: 4 });
    assert_eq!(target.size(), SurfaceSize { width: 864, height: 864 });
    assert_eq!(camera.target, target.handle());
    assert_eq!(camera.priority, SCENE_PRIORITY);
    assert_eq!(camera.priority, 0);
    assert_eq!(camera.layers, RenderLayers::default());
    assert_eq!(camera.visible_height, 144);
}

#[test]
fn post_process_camera_draws_after_the_scene_camera() {
    let (_, scene) = create_cameras(ImageHandle { id: 4 }, SurfaceSize { width: 8, height: 8 });
    let post = create_post_process_camera();
    assert_eq!(post.priority, POST_PROCESS_PRIORITY);
    assert_eq!(post.priority, 1);
    assert!(scene.priority < post.priority);
    assert_eq!(post.layers, RenderLayers::layer(31));
    let rig = CameraRig::new(scene, post);
    assert!(rig.scene_draws_first());
    assert!(!rig.scene.layers.intersects(&rig.post_process.layers));
}

#[test]
fn scene_draws_first_goes_by_priority() {
    let (_, scene) = create_cameras(ImageHandle { id: 4 }, SurfaceSize { width: 8, height: 8 });
    let mut post = create_post_process_camera();
    post.priority = 0;
    assert!(!CameraRig::new(scene, post).scene_draws_first());
    post.priority = -1;
    assert!(!CameraRig::new(scene, post).scene_draws_first());
    post.priority = isize::MAX;
    assert!(CameraRig::new(scene, post).scene_draws_first());
}
