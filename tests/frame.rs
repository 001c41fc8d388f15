use orbit_view::frame::{accepts_size, react, recover, Key, Reaction, Recovery, SurfaceFault, WindowInput};

#[test]
fn space_flips_the_pipeline() {
    assert_eq!(react(WindowInput::KeyPressed(Key::Space)), Reaction::FlipPipeline);
}

#[test]
fn movement_keys_pan_the_camera() {
    assert_eq!(react(WindowInput::KeyPressed(Key::W)), Reaction::Pan { x: 0, y: 0, z: -1 });
    assert_eq!(react(WindowInput::KeyPressed(Key::S)), Reaction::Pan { x: 0, y: 0, z: 1 });
    assert_eq!(react(WindowInput::KeyPressed(Key::A)), Reaction::Pan { x: -1, y: 0, z: 0 });
    assert_eq!(react(WindowInput::KeyPressed(Key::D)), Reaction::Pan { x: 1, y: 0, z: 0 });
    assert_eq!(react(WindowInput::KeyPressed(Key::PageUp)), Reaction::Pan { x: 0, y: 1, z: 0 });
    assert_eq!(react(WindowInput::KeyPressed(Key::PageDown)), Reaction::Pan { x: 0, y: -1, z: 0 });
}

#[test]
fn turning_keys_rotate_the_camera() {
    assert_eq!(react(WindowInput::KeyPressed(Key::Q)), Reaction::RotateH(-1));
    assert_eq!(react(WindowInput::KeyPressed(Key::E)), Reaction::RotateH(1));
    assert_eq!(react(WindowInput::KeyPressed(Key::Up)), Reaction::RotateV(1));
    assert_eq!(react(WindowInput::KeyPressed(Key::Down)), Reaction::RotateV(-1));
}

#[test]
fn escape_and_close_leave_the_loop() {
    assert_eq!(react(WindowInput::KeyPressed(Key::Escape)), Reaction::Exit);
    assert_eq!(react(WindowInput::CloseRequested), Reaction::Exit);
}

#[test]
fn other_input_is_ignored() {
    assert_eq!(react(WindowInput::KeyPressed(Key::Other)), Reaction::Ignore);
    assert_eq!(react(WindowInput::KeyReleased), Reaction::Ignore);
    assert_eq!(react(WindowInput::Other), Reaction::Ignore);
    assert_eq!(react(WindowInput::CursorMoved), Reaction::Recolor);
}

#[test]
fn resize_needs_both_sides() {
    assert!(accepts_size(800, 600));
    assert!(!accepts_size(0, 600));
    assert!(!accepts_size(800, 0));
    assert_eq!(react(WindowInput::Resized { width: 640, height: 480 }), Reaction::Resize { width: 640, height: 480 });
    assert_eq!(react(WindowInput::Resized { width: 0, height: 0 }), Reaction::Ignore);
    assert_eq!(react(WindowInput::Resized { width: u32::MAX, height: 1 }), Reaction::Resize { width: u32::MAX, height: 1 });
}

#[test]
fn surface_faults_recover_by_kind() {
    assert_eq!(recover(SurfaceFault::Lost), Recovery::Reconfigure);
    assert_eq!(recover(SurfaceFault::OutOfMemory), Recovery::Exit);
    assert_eq!(recover(SurfaceFault::Timeout), Recovery::Report);
    assert_eq!(recover(SurfaceFault::Outdated), Recovery::Report);
}
