use camera_view::camera::{changed_window_ids, camera_system, Camera, ProjectionQueryItem};
use camera_view::registry::{ImageInfo, Images, WindowInfo, Windows};
use camera_view::target::{DepthCalculation, Entity, ImageHandle, RenderTarget, WindowId};

fn wid(id: u128) -> WindowId {
    WindowId { id }
}

fn ent(index: u32) -> Entity {
    Entity { index, generation: 0 }
}

fn window(id: u128, w: u32, h: u32, scale: f32) -> WindowInfo<(f32, f32)> {
    WindowInfo {
        id: wid(id),
        physical_width: w,
        physical_height: h,
        logical_size: (w as f32 / scale, h as f32 / scale),
    }
}

fn image(id: u64, w: u32, h: u32) -> ImageInfo<(f32, f32)> {
    ImageInfo { handle: ImageHandle { id }, width: w, height: h, logical_size: (w as f32, h as f32) }
}

fn camera(target: RenderTarget) -> Camera<[[f32; 4]; 4], f32> {
    Camera {
        projection_matrix: [[0.0; 4]; 4],
        name: Some("main".to_string()),
        target,
        depth_calculation: DepthCalculation::Distance,
        near: 0.1,
        far: 1000.0,
    }
}

fn item(index: u32, target: RenderTarget, projection_changed: bool) -> ProjectionQueryItem {
    ProjectionQueryItem { entity: ent(index), target, projection_changed }
}

#[test]
fn defaults() {
    assert_eq!(RenderTarget::default(), RenderTarget::Window(WindowId::primary()));
    assert_eq!(WindowId::default().id, 0);
    assert_eq!(DepthCalculation::default(), DepthCalculation::Distance);
}

#[test]
fn window_registry_replaces_entries() {
    let mut windows = Windows::new();
    assert!(windows.get(wid(1)).is_none());
    windows.insert(window(1, 800, 600, 1.0));
    windows.insert(window(2, 100, 100, 1.0));
    windows.insert(window(1, 1600, 1200, 2.0));
    let w1 = windows.get(wid(1)).unwrap();
    assert_eq!((w1.physical_width, w1.physical_height), (1600, 1200));
    assert_eq!(w1.logical_size, (800.0, 600.0));
    assert_eq!(windows.get(wid(2)).unwrap().physical_width, 100);
    assert!(windows.get(wid(3)).is_none());
}

#[test]
fn image_registry_replaces_entries() {
    let mut images = Images::new();
    images.insert(image(7, 64, 32));
    images.insert(image(7, 128, 16));
    let i = images.get(ImageHandle { id: 7 }).unwrap();
    assert_eq!((i.width, i.height), (128, 16));
    assert!(images.get(ImageHandle { id: 8 }).is_none());
}

#[test]
fn get_window_of_targets() {
    assert_eq!(camera(RenderTarget::Window(wid(4))).get_window(), Some(wid(4)));
    assert_eq!(camera(RenderTarget::Image(ImageHandle { id: 4 })).get_window(), None);
}

#[test]
fn sizes_of_targets() {
    let mut windows = Windows::new();
    windows.insert(window(1, 1600, 1200, 2.0));
    let mut images = Images::new();
    images.insert(image(9, 512, 256));
    let on_window = camera(RenderTarget::Window(wid(1)));
    assert_eq!(on_window.get_physical_size(&windows, &images), Some((1600, 1200)));
    assert_eq!(on_window.get_logical_size(&windows, &images), Some((800.0, 600.0)));
    let on_image = camera(RenderTarget::Image(ImageHandle { id: 9 }));
    assert_eq!(on_image.get_physical_size(&windows, &images), Some((512, 256)));
    assert_eq!(on_image.get_logical_size(&windows, &images), Some((512.0, 256.0)));
    let lost = camera(RenderTarget::Window(wid(2)));
    assert_eq!(lost.get_physical_size(&windows, &images), None);
    assert_eq!(lost.get_logical_size(&windows, &images), None);
    let lost_image = camera(RenderTarget::Image(ImageHandle { id: 10 }));
    assert_eq!(lost_image.get_logical_size(&windows, &images), None);
}

#[test]
fn set_projection_keeps_other_fields() {
    let mut c = camera(RenderTarget::Window(wid(1)));
    let mut m = [[0.0f32; 4]; 4];
    m[0][0] = 2.0;
    c.set_projection(m, DepthCalculation::ZDifference);
    assert_eq!(c.projection_matrix[0][0], 2.0);
    assert_eq!(c.depth_calculation, DepthCalculation::ZDifference);
    assert_eq!(c.name.as_deref(), Some("main"));
    assert_eq!(c.target, RenderTarget::Window(wid(1)));
    assert_eq!((c.near, c.far), (0.1, 1000.0));
}

#[test]
fn changed_windows_latest_first_without_repeats() {
    let resized = vec![wid(1), wid(2), wid(1), wid(3)];
    let created = vec![wid(3), wid(4)];
    assert_eq!(changed_window_ids(&resized, &created), vec![wid(3), wid(1), wid(2), wid(4)]);
    assert_eq!(changed_window_ids(&vec![], &vec![]), vec![]);
}

#[test]
fn many_resizes_of_one_window_count_once() {
    let resized = vec![wid(5); 10];
    assert_eq!(changed_window_ids(&resized, &vec![]), vec![wid(5)]);
    let mut windows = Windows::new();
    windows.insert(window(5, 300, 200, 1.0));
    let images = Images::new();
    let cams = vec![item(0, RenderTarget::Window(wid(5)), false)];
    let updates = camera_system(&resized, &vec![], &windows, &images, &cams, &vec![]);
    assert_eq!(updates, vec![Some((300.0, 200.0))]);
}

#[test]
fn resize_hands_out_the_new_size() {
    let mut windows = Windows::new();
    windows.insert(window(1, 800, 600, 1.0));
    let images = Images::new();
    let cams = vec![item(0, RenderTarget::Window(wid(1)), false)];
    let first = camera_system(&vec![], &vec![], &windows, &images, &cams, &vec![ent(0)]);
    assert_eq!(first, vec![Some((800.0, 600.0))]);
    windows.insert(window(1, 1600, 1200, 1.0));
    let second = camera_system(&vec![wid(1)], &vec![], &windows, &images, &cams, &vec![]);
    let (w, h) = second[0].unwrap();
    assert_eq!((w, h), (1600.0, 1200.0));
    assert!((w / h - 4.0 / 3.0).abs() < 1e-6);
}

#[test]
fn window_resize_skips_image_camera() {
    let mut windows = Windows::new();
    windows.insert(window(1, 800, 600, 1.0));
    let mut images = Images::new();
    images.insert(image(2, 256, 256));
    let cams = vec![
        item(0, RenderTarget::Window(wid(1)), false),
        item(1, RenderTarget::Image(ImageHandle { id: 2 }), false),
    ];
    let updates = camera_system(&vec![wid(1)], &vec![], &windows, &images, &cams, &vec![]);
    assert_eq!(updates, vec![Some((800.0, 600.0)), None]);
}

#[test]
fn added_changed_and_created_trigger_updates() {
    let mut windows = Windows::new();
    windows.insert(window(1, 800, 600, 1.0));
    windows.insert(window(2, 640, 480, 1.0));
    let mut images = Images::new();
    images.insert(image(3, 32, 16));
    let cams = vec![
        item(0, RenderTarget::Window(wid(1)), false),
        item(1, RenderTarget::Image(ImageHandle { id: 3 }), true),
        item(2, RenderTarget::Image(ImageHandle { id: 3 }), false),
        item(3, RenderTarget::Window(wid(2)), false),
        item(4, RenderTarget::Window(wid(1)), false),
    ];
    let updates = camera_system(&vec![], &vec![wid(2)], &windows, &images, &cams, &vec![ent(2)]);
    assert_eq!(updates, vec![None, Some((32.0, 16.0)), Some((32.0, 16.0)), Some((640.0, 480.0)), None]);
}

#[test]
fn unavailable_size_defers_update() {
    let windows: Windows<(f32, f32)> = Windows::new();
    let images = Images::new();
    let cams = vec![
        item(0, RenderTarget::Window(wid(1)), true),
        item(1, RenderTarget::Image(ImageHandle { id: 1 }), true),
    ];
    let updates = camera_system(&vec![wid(1)], &vec![wid(1)], &windows, &images, &cams, &vec![ent(0), ent(1)]);
    assert_eq!(updates, vec![None, None]);
}
