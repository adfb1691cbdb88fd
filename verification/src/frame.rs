use vstd::prelude::*;

use crate::camera::{event_step, Camera};
use crate::input::{InputEvent, Key};

verus! {

/// Nanoseconds in one second; timestamps and intervals are whole
/// nanoseconds of the host's monotonic clock.
pub const NANOS_PER_SECOND: u64 = 1_000_000_000;

/// The fixed target frame rate, in frames per second.
pub const DEFAULT_FPS: u64 = 60;

/// The control state of the fixed-timestep frame loop: the monotonic
/// timestamp of the last rendered frame, the target interval between
/// frames, and whether a shutdown request has been seen.
pub struct FrameLoop {
    /// Monotonic timestamp (nanoseconds) at which the last frame was
    /// rendered; the frame-rate gate measures elapsed time against it.
    pub prev_frame_ns: u64,
    /// Minimum nanoseconds between successive rendered frames.
    pub frame_interval_ns: u64,
    /// A close request or an Escape press has been seen; no further frame
    /// is rendered.
    pub terminated: bool,
}

/// What the host must do after one step of the loop: stop the event loop,
/// keep polling, or update the camera by `dt_ns` nanoseconds and draw one
/// frame.
#[derive(Clone, Copy, PartialEq, Eq, Structural, Debug)]
pub enum LoopAction {
    Exit,
    Idle,
    Render { dt_ns: u64 },
}

/// The events that shut the loop down: a window-close request, or a press
/// of the Escape key.
pub open spec fn is_exit_event(e: InputEvent) -> bool {
    ||| e is WindowCloseRequested
    ||| (e matches InputEvent::KeyChanged { key, pressed } && key is Escape && pressed)
}

impl FrameLoop {
    /// A fresh loop that has just rendered at `now_ns` and will render
    /// again once a full frame interval of the given target rate has
    /// elapsed.
    pub fn new(now_ns: u64, fps: u64) -> (fl: FrameLoop)
        requires
            fps > 0,
        ensures
            fl.prev_frame_ns == now_ns,
            fl.frame_interval_ns == NANOS_PER_SECOND / fps,
            !fl.terminated,
    {
        FrameLoop {
            prev_frame_ns: now_ns,
            frame_interval_ns: NANOS_PER_SECOND / fps,
            terminated: false,
        }
    }

    /// One step of the loop, for one host event observed at monotonic time
    /// `now_ns`:
    ///
    /// - a close request or an Escape press terminates the loop at once —
    ///   the step answers `Exit`, draws nothing, and leaves the camera
    ///   untouched; so does every step after termination;
    /// - every other event is dispatched to the camera immediately,
    ///   independent of the frame-rate gate;
    /// - then, if at least one frame interval has elapsed since the last
    ///   rendered frame, the step answers `Render` with the elapsed
    ///   nanoseconds as the timestep and resets the frame timestamp;
    ///   otherwise it answers `Idle`.
    pub fn step(&mut self, camera: &mut Camera, event: &InputEvent, now_ns: u64) -> (a:
        LoopAction)
        requires
            old(camera).wf(),
            now_ns >= old(self).prev_frame_ns,
        ensures
            final(camera).wf(),
            final(self).frame_interval_ns == old(self).frame_interval_ns,
            final(self).terminated == (old(self).terminated || is_exit_event(*event)),
            (a is Render) == (!old(self).terminated && !is_exit_event(*event) && now_ns - old(
                self,
            ).prev_frame_ns >= old(self).frame_interval_ns),
            old(self).terminated ==> *final(self) == *old(self) && *final(camera) == *old(camera)
                && a is Exit,
            !old(self).terminated && is_exit_event(*event) ==> a is Exit && *final(camera) == *old(
                camera,
            ) && final(self).prev_frame_ns == old(self).prev_frame_ns,
            !old(self).terminated && !is_exit_event(*event) ==> final(camera)@ == event_step(
                old(camera)@,
                *event,
            ),
            a matches LoopAction::Render { dt_ns } ==> dt_ns == now_ns - old(self).prev_frame_ns
                && final(self).prev_frame_ns == now_ns,
            !old(self).terminated && !is_exit_event(*event) && now_ns - old(self).prev_frame_ns
                < old(self).frame_interval_ns ==> a is Idle && final(self).prev_frame_ns == old(
                self,
            ).prev_frame_ns,
    {
        if self.terminated {
            return LoopAction::Exit;
        }
        let exit: bool = match *event {
            InputEvent::WindowCloseRequested => true,
            InputEvent::KeyChanged { key, pressed } => match key {
                Key::Escape => pressed,
                _ => false,
            },
            _ => false,
        };
        if exit {
            self.terminated = true;
            return LoopAction::Exit;
        }
        camera.process_device_event(event);
        let elapsed: u64 = now_ns - self.prev_frame_ns;
        if elapsed >= self.frame_interval_ns {
            self.prev_frame_ns = now_ns;
            LoopAction::Render { dt_ns: elapsed }
        } else {
            LoopAction::Idle
        }
    }
}

} // verus!
