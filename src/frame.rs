use vstd::prelude::*;

verus! {

/// The keys that the viewer tells apart; every other key, and a key press
/// that names no key, is `Other`.
#[derive(Clone, Copy, Debug, PartialEq, Eq)]
pub enum Key {
    Space,
    W,
    A,
    S,
    D,
    PageUp,
    PageDown,
    Q,
    E,
    Up,
    Down,
    Escape,
    Other,
}

/// A window event, reduced to what the frame loop decides on. A change of
/// scale factor arrives as `Resized` with the new inner size.
#[derive(Clone, Copy, Debug, PartialEq, Eq)]
pub enum WindowInput {
    CursorMoved,
    KeyPressed(Key),
    KeyReleased,
    CloseRequested,
    Resized { width: u32, height: u32 },
    Other,
}

/// What the frame loop does in answer to one event. Camera moves are counted
/// in steps; the loop scales them to distances and angles.
#[derive(Clone, Copy, Debug, PartialEq, Eq)]
pub enum Reaction {
    /// Blend the background colour from the pointer's horizontal position.
    Recolor,
    /// Swap the active render pipeline.
    FlipPipeline,
    /// Pan the camera: `x` to the right, `y` up, `z` backwards (away from
    /// the target).
    Pan { x: i8, y: i8, z: i8 },
    /// Turn the gaze about the vertical axis.
    RotateH(i8),
    /// Tilt by moving the eye down.
    RotateV(i8),
    /// Reconfigure the surface to a new size.
    Resize { width: u32, height: u32 },
    /// Leave the loop.
    Exit,
    /// Nothing to do.
    Ignore,
}

/// Why a frame could not get a surface texture to draw on.
#[derive(Clone, Copy, Debug, PartialEq, Eq)]
pub enum SurfaceFault {
    Timeout,
    Outdated,
    Lost,
    OutOfMemory,
}

/// What the frame loop does after a surface fault.
#[derive(Clone, Copy, Debug, PartialEq, Eq)]
pub enum Recovery {
    /// Configure the surface again at its current size and draw next frame.
    Reconfigure,
    /// Leave the loop.
    Exit,
    /// Report the fault and draw next frame.
    Report,
}

/// A surface can be configured only with both sides non-zero.
pub open spec fn size_accepted(width: u32, height: u32) -> bool {
    width > 0 && height > 0
}

/// The key bindings of a pressed key.
pub open spec fn key_reaction(key: Key) -> Reaction {
    match key {
        Key::Space => Reaction::FlipPipeline,
        Key::W => Reaction::Pan { x: 0, y: 0, z: -1i8 },
        Key::S => Reaction::Pan { x: 0, y: 0, z: 1 },
        Key::A => Reaction::Pan { x: -1i8, y: 0, z: 0 },
        Key::D => Reaction::Pan { x: 1, y: 0, z: 0 },
        Key::PageUp => Reaction::Pan { x: 0, y: 1, z: 0 },
        Key::PageDown => Reaction::Pan { x: 0, y: -1i8, z: 0 },
        Key::Q => Reaction::RotateH(-1i8),
        Key::E => Reaction::RotateH(1),
        Key::Up => Reaction::RotateV(1),
        Key::Down => Reaction::RotateV(-1i8),
        Key::Escape => Reaction::Exit,
        Key::Other => Reaction::Ignore,
    }
}

/// The reaction to one window event.
pub open spec fn input_reaction(input: WindowInput) -> Reaction {
    match input {
        WindowInput::CursorMoved => Reaction::Recolor,
        WindowInput::KeyPressed(key) => key_reaction(key),
        WindowInput::CloseRequested => Reaction::Exit,
        WindowInput::Resized { width, height } => if size_accepted(width, height) {
            Reaction::Resize { width, height }
        } else {
            Reaction::Ignore
        },
        WindowInput::KeyReleased => Reaction::Ignore,
        WindowInput::Other => Reaction::Ignore,
    }
}

/// The recovery from one surface fault: a lost surface is configured again,
/// running out of memory ends the loop, and the rest are reported.
pub open spec fn fault_recovery(fault: SurfaceFault) -> Recovery {
    match fault {
        SurfaceFault::Lost => Recovery::Reconfigure,
        SurfaceFault::OutOfMemory => Recovery::Exit,
        SurfaceFault::Timeout => Recovery::Report,
        SurfaceFault::Outdated => Recovery::Report,
    }
}

/// Whether a surface may be configured to `width` by `height`.
pub fn accepts_size(width: u32, height: u32) -> (r: bool)
    ensures
        r == size_accepted(width, height),
{
    width > 0 && height > 0
}

/// What the frame loop does in answer to `input`.
pub fn react(input: WindowInput) -> (r: Reaction)
    ensures
        r == input_reaction(input),
{
    match input {
        WindowInput::CursorMoved => Reaction::Recolor,
        WindowInput::KeyPressed(key) => match key {
            Key::Space => Reaction::FlipPipeline,
            Key::W => Reaction::Pan { x: 0, y: 0, z: -1 },
            Key::S => Reaction::Pan { x: 0, y: 0, z: 1 },
            Key::A => Reaction::Pan { x: -1, y: 0, z: 0 },
            Key::D => Reaction::Pan { x: 1, y: 0, z: 0 },
            Key::PageUp => Reaction::Pan { x: 0, y: 1, z: 0 },
            Key::PageDown => Reaction::Pan { x: 0, y: -1, z: 0 },
            Key::Q => Reaction::RotateH(-1),
            Key::E => Reaction::RotateH(1),
            Key::Up => Reaction::RotateV(1),
            Key::Down => Reaction::RotateV(-1),
            Key::Escape => Reaction::Exit,
            Key::Other => Reaction::Ignore,
        },
        WindowInput::CloseRequested => Reaction::Exit,
        WindowInput::Resized { width, height } => {
            if accepts_size(width, height) {
                Reaction::Resize { width, height }
            } else {
                Reaction::Ignore
            }
        },
        WindowInput::KeyReleased => Reaction::Ignore,
        WindowInput::Other => Reaction::Ignore,
    }
}

/// What the frame loop does after `fault`.
pub fn recover(fault: SurfaceFault) -> (r: Recovery)
    ensures
        r == fault_recovery(fault),
{
    match fault {
        SurfaceFault::Lost => Recovery::Reconfigure,
        SurfaceFault::OutOfMemory => Recovery::Exit,
        SurfaceFault::Timeout => Recovery::Report,
        SurfaceFault::Outdated => Recovery::Report,
    }
}

} // verus!
