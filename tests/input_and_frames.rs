use wgpu_ray::camera::Lens;
use wgpu_ray::host::FrameSync;
use wgpu_ray::input::{key_from_scancode, CameraAction, InputEvent, Key, SimpleCamera};
use wgpu_ray::uniform::CameraUniform;

fn camera_at(x: f32) -> CameraUniform {
    CameraUniform {
        rotation: [0; 9],
        position: [x.to_bits(), 0, 0],
        lens: Lens::new(1.0f32.to_bits(), 0.5f32.to_bits()).unwrap(),
    }
}

#[test]
fn mouse_yaw_only() {
    let mut content = SimpleCamera::new();
    let action = content.update_camera(&InputEvent::PointerMotion {
        dx: 10.0f64.to_bits(),
        dy: 0.0f64.to_bits(),
    });
    assert_eq!(
        action,
        CameraAction::Rotate { pitch_degrees: 0.0f64.to_bits(), yaw_degrees: 10.0f64.to_bits() }
    );
    assert!(action.changes_camera());
}

#[test]
fn pointer_vertical_delta_is_pitch() {
    let mut content = SimpleCamera::new();
    let action = content.update_camera(&InputEvent::PointerMotion {
        dx: 1.5f64.to_bits(),
        dy: (-4.0f64).to_bits(),
    });
    assert_eq!(
        action,
        CameraAction::Rotate { pitch_degrees: (-4.0f64).to_bits(), yaw_degrees: 1.5f64.to_bits() }
    );
}

#[test]
fn movement_keys_translate() {
    let mut content = SimpleCamera::new();
    let cases = [
        (Key::Forward, (1, 0, 0)),
        (Key::Backward, (-1, 0, 0)),
        (Key::Left, (0, 1, 0)),
        (Key::Right, (0, -1, 0)),
        (Key::Up, (0, 0, 1)),
        (Key::Down, (0, 0, -1)),
    ];
    for (key, (forward, left, up)) in cases {
        assert_eq!(
            content.update_camera(&InputEvent::KeyPressed { key }),
            CameraAction::Translate { forward, left, up }
        );
    }
    let other = content.update_camera(&InputEvent::KeyPressed { key: Key::Other });
    assert_eq!(other, CameraAction::Unchanged);
    assert!(!other.changes_camera());
}

#[test]
fn released_keys_and_other_events_change_nothing() {
    let mut content = SimpleCamera::new();
    assert_eq!(
        content.update_camera(&InputEvent::KeyReleased { key: Key::Forward }),
        CameraAction::Unchanged
    );
    assert_eq!(content.update_camera(&InputEvent::Other), CameraAction::Unchanged);
}

#[test]
fn resize_sets_aspect() {
    let mut content = SimpleCamera::new();
    assert_eq!(
        content.update_camera(&InputEvent::Resized { width: 1920, height: 1080 }),
        CameraAction::SetAspect { width: 1920, height: 1080 }
    );
    assert_eq!(
        content.update_camera(&InputEvent::Resized { width: 800, height: 0 }),
        CameraAction::Unchanged
    );
    assert_eq!(
        content.update_camera(&InputEvent::Resized { width: 0, height: 600 }),
        CameraAction::Unchanged
    );
}

#[test]
fn scancodes_of_the_default_layout() {
    assert_eq!(key_from_scancode(13), Key::Forward);
    assert_eq!(key_from_scancode(1), Key::Backward);
    assert_eq!(key_from_scancode(0), Key::Left);
    assert_eq!(key_from_scancode(2), Key::Right);
    assert_eq!(key_from_scancode(49), Key::Up);
    assert_eq!(key_from_scancode(56), Key::Down);
    assert_eq!(key_from_scancode(12), Key::Other);
}

#[test]
fn first_frame_uploads_then_only_changes_do() {
    let mut sync = FrameSync::new();
    let camera = camera_at(0.0);
    let plan = sync.plan_frame(&camera, true);
    assert_eq!(plan.upload, Some(camera.pack()));
    assert!(plan.draw);
    let plan = sync.plan_frame(&camera, true);
    assert_eq!(plan.upload, None);
    sync.note_change(false);
    assert_eq!(sync.plan_frame(&camera, true).upload, None);
    let moved = camera_at(0.1);
    sync.note_change(true);
    sync.note_change(false);
    assert_eq!(sync.plan_frame(&moved, true).upload, Some(moved.pack()));
    assert!(!sync.dirty);
}

#[test]
fn resize_always_uploads() {
    let mut sync = FrameSync::new();
    let camera = camera_at(1.0);
    sync.plan_frame(&camera, true);
    sync.note_resize();
    assert!(sync.dirty);
    assert_eq!(sync.plan_frame(&camera, true).upload, Some(camera.pack()));
}

#[test]
fn missing_output_image_skips_the_draw() {
    let mut sync = FrameSync::new();
    let camera = camera_at(2.0);
    let plan = sync.plan_frame(&camera, false);
    assert!(!plan.draw);
    assert_eq!(plan.upload, Some(camera.pack()));
}
