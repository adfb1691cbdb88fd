use vstd::prelude::*;

verus! {

/// Keys the camera and the frame loop react to. Every other key code the
/// host windowing layer can report maps to `Other`, which nothing acts on.
#[derive(Clone, Copy, PartialEq, Eq, Structural, Debug)]
pub enum Key {
    W,
    A,
    S,
    D,
    Escape,
    Other,
}

/// One discrete input-device event, as the host event loop hands it over.
///
/// Mouse-motion deltas are whole device counts; the host layer rounds the
/// raw deltas it receives before constructing a `MouseMoved`. `Other` stands
/// for every host event that neither the camera nor the frame loop acts on;
/// such events still drive the frame-rate gate.
#[derive(Clone, Copy, PartialEq, Eq, Structural, Debug)]
pub enum InputEvent {
    KeyChanged { key: Key, pressed: bool },
    MouseMoved { dx: i32, dy: i32 },
    WindowCloseRequested,
    Other,
}

} // verus!
