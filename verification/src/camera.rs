use vstd::prelude::*;

use crate::input::{InputEvent, Key};

verus! {

use vstd::arithmetic::div_mod::lemma_fundamental_div_mod;

/// Millidegrees in a full turn; yaw is kept reduced modulo this period.
pub const YAW_PERIOD_MDEG: i64 = 360_000;

/// Pitch is clamped to ±89° (in millidegrees) to prevent gimbal flip.
pub const PITCH_LIMIT_MDEG: i64 = 89_000;

/// Default rotation sensitivity: 0.1° (100 millidegrees) of rotation per
/// raw mouse-delta count.
pub const DEFAULT_ROTATION_SENSITIVITY_MDEG: i64 = 100;

/// Largest admitted rotation sensitivity (1000° per count), so that one
/// mouse event can never overflow the angle arithmetic.
pub const MAX_ROTATION_SENSITIVITY_MDEG: i64 = 1_000_000;

/// Default movement speed: 1.0 world units per second, in thousandths.
pub const DEFAULT_MOVE_SPEED_MILLI: u64 = 1000;

/// The camera's discrete state: orientation in exact millidegrees, latched
/// movement-key flags, and the fixed configuration set at construction.
///
/// Angles are whole millidegrees so that wrapping and clamping are exact.
/// The host application derives the floating-point facing direction and
/// world position from this state each frame.
pub struct Camera {
    /// Accumulated yaw in millidegrees, reduced modulo one turn; carries
    /// the sign of the accumulated value, so it lies strictly between
    /// -360000 and 360000.
    pub yaw_mdeg: i64,
    /// Accumulated pitch in millidegrees, clamped to ±89000.
    pub pitch_mdeg: i64,
    /// Millidegrees of rotation per raw mouse-delta count.
    pub rotation_sensitivity_mdeg: i64,
    /// Movement speed in thousandths of a world unit per second.
    pub move_speed_milli: u64,
    /// "The forward key (W) is currently held."
    pub moving_forward: bool,
    /// "The backward key (S) is currently held."
    pub moving_backward: bool,
    /// "The strafe-left key (A) is currently held."
    pub moving_left: bool,
    /// "The strafe-right key (D) is currently held."
    pub moving_right: bool,
}

/// The mathematical model of a camera state: the same fields over
/// unbounded integers.
pub struct CameraView {
    pub yaw: int,
    pub pitch: int,
    pub sensitivity: int,
    pub move_speed: int,
    pub forward: bool,
    pub backward: bool,
    pub left: bool,
    pub right: bool,
}

impl View for Camera {
    type V = CameraView;

    open spec fn view(&self) -> CameraView {
        CameraView {
            yaw: self.yaw_mdeg as int,
            pitch: self.pitch_mdeg as int,
            sensitivity: self.rotation_sensitivity_mdeg as int,
            move_speed: self.move_speed_milli as int,
            forward: self.moving_forward,
            backward: self.moving_backward,
            left: self.moving_left,
            right: self.moving_right,
        }
    }
}

impl CameraView {
    /// Well-formedness: yaw reduced to one turn, pitch within the clamp,
    /// configuration within the admitted ranges.
    pub open spec fn wf(self) -> bool {
        &&& -(YAW_PERIOD_MDEG as int) < self.yaw < YAW_PERIOD_MDEG as int
        &&& -(PITCH_LIMIT_MDEG as int) <= self.pitch <= PITCH_LIMIT_MDEG as int
        &&& 0 <= self.sensitivity <= MAX_ROTATION_SENSITIVITY_MDEG as int
        &&& 0 <= self.move_speed
    }

    /// The state a fresh camera starts in: at the origin facing -Z, which
    /// is yaw 0 and pitch 0, no movement key held, default configuration.
    pub open spec fn initial() -> CameraView {
        CameraView {
            yaw: 0,
            pitch: 0,
            sensitivity: DEFAULT_ROTATION_SENSITIVITY_MDEG as int,
            move_speed: DEFAULT_MOVE_SPEED_MILLI as int,
            forward: false,
            backward: false,
            left: false,
            right: false,
        }
    }
}

/// Reduction of an accumulated yaw angle modulo one turn, keeping the sign
/// of the accumulated value (the convention of a truncating remainder).
pub open spec fn wrap_yaw(t: int) -> int {
    if t >= 0 {
        t % (YAW_PERIOD_MDEG as int)
    } else {
        -((-t) % (YAW_PERIOD_MDEG as int))
    }
}

/// Wrapping yaw keeps the represented angle: the reduced value differs
/// from the accumulated one by a whole number of turns.
pub proof fn lemma_wrap_yaw_congruent(t: int)
    ensures
        exists|k: int| wrap_yaw(t) == t - #[trigger] (k * (YAW_PERIOD_MDEG as int)),
{
    let m = YAW_PERIOD_MDEG as int;
    if t >= 0 {
        lemma_fundamental_div_mod(t, m);
        assert(wrap_yaw(t) == t - (t / m) * m);
    } else {
        lemma_fundamental_div_mod(-t, m);
        assert(wrap_yaw(t) == t - (-((-t) / m)) * m);
    }
}

/// Clamping of an accumulated pitch angle to ±89°.
pub open spec fn clamp_pitch(t: int) -> int {
    if t > PITCH_LIMIT_MDEG as int {
        PITCH_LIMIT_MDEG as int
    } else if t < -(PITCH_LIMIT_MDEG as int) {
        -(PITCH_LIMIT_MDEG as int)
    } else {
        t
    }
}

/// What one input event does to a camera state: press or release of W, A,
/// S or D latches the matching flag; a mouse motion turns yaw by dx counts
/// and pitch by -dy counts at the configured sensitivity, then wraps yaw
/// and clamps pitch; every other event leaves the state unchanged.
pub open spec fn event_step(c: CameraView, e: InputEvent) -> CameraView {
    match e {
        InputEvent::KeyChanged { key, pressed } => match key {
            Key::W => CameraView { forward: pressed, ..c },
            Key::S => CameraView { backward: pressed, ..c },
            Key::D => CameraView { right: pressed, ..c },
            Key::A => CameraView { left: pressed, ..c },
            Key::Escape => c,
            Key::Other => c,
        },
        InputEvent::MouseMoved { dx, dy } => CameraView {
            yaw: wrap_yaw(c.yaw + (dx as int) * c.sensitivity),
            pitch: clamp_pitch(c.pitch - (dy as int) * c.sensitivity),
            ..c
        },
        InputEvent::WindowCloseRequested => c,
        InputEvent::Other => c,
    }
}

/// The camera state after a whole sequence of input events, applied in
/// order.
pub open spec fn apply_events(c: CameraView, events: Seq<InputEvent>) -> CameraView
    decreases events.len(),
{
    if events.len() == 0 {
        c
    } else {
        apply_events(event_step(c, events[0]), events.drop_first())
    }
}

/// One event preserves well-formedness: in particular the wrapped yaw
/// stays within one turn and the clamped pitch within ±89°.
pub proof fn lemma_event_step_preserves_wf(c: CameraView, e: InputEvent)
    requires
        c.wf(),
    ensures
        event_step(c, e).wf(),
{
}

/// Orientation-clamp law: starting from any well-formed camera state,
/// after every event of any sequence of input events the pitch lies within
/// ±89° exactly (and the state stays well-formed).
pub proof fn lemma_pitch_clamped_after_events(c: CameraView, events: Seq<InputEvent>)
    requires
        c.wf(),
    ensures
        apply_events(c, events).wf(),
        -(PITCH_LIMIT_MDEG as int) <= apply_events(c, events).pitch <= PITCH_LIMIT_MDEG as int,
    decreases events.len(),
{
    if events.len() > 0 {
        lemma_event_step_preserves_wf(c, events[0]);
        lemma_pitch_clamped_after_events(event_step(c, events[0]), events.drop_first());
    }
}

/// Signed factor of the forward displacement for one update: -1 when only
/// the forward key is held, +1 when only the backward key is held, 0 when
/// both or neither is held (they cancel out). The factor multiplies the
/// per-frame distance; the forward direction itself carries the negative
/// convention, so -1 moves the camera forward.
pub open spec fn forward_sign(c: CameraView) -> int {
    if c.forward && !c.backward {
        -1
    } else if c.backward && !c.forward {
        1
    } else {
        0
    }
}

/// Signed factor of the strafe displacement for one update: +1 when only
/// the right key is held, -1 when only the left key is held, 0 when both
/// or neither is held.
pub open spec fn strafe_sign(c: CameraView) -> int {
    if c.right && !c.left {
        1
    } else if c.left && !c.right {
        -1
    } else {
        0
    }
}

/// Whether an update moves diagonally: both an exclusive forward/backward
/// state and an exclusive left/right state are active, so the host must
/// divide both displacement magnitudes by √2 to keep diagonal speed equal
/// to axial speed.
pub open spec fn is_diagonal(c: CameraView) -> bool {
    forward_sign(c) != 0 && strafe_sign(c) != 0
}

/// Cancel-out law: whenever both forward and backward keys are held the
/// forward displacement factor is zero, and whenever both left and right
/// keys are held the strafe displacement factor is zero — so the update
/// produces no displacement along that axis, whatever the timestep.
pub proof fn lemma_cancel_out(c: CameraView)
    ensures
        c.forward && c.backward ==> forward_sign(c) == 0,
        c.left && c.right ==> strafe_sign(c) == 0,
{
}

/// Diagonal-movement law: with only-forward and only-right active, the
/// update is diagonal — both factors are nonzero, so both displacement
/// magnitudes get the √2 reduction — and the factors are -1 forward and
/// +1 strafe. The floating-point magnitude itself is the host's to
/// compute.
pub proof fn lemma_diagonal_flag(c: CameraView)
    requires
        c.forward,
        !c.backward,
        c.right,
        !c.left,
    ensures
        is_diagonal(c),
        forward_sign(c) == -1,
        strafe_sign(c) == 1,
{
}

/// The movement decision for one update tick: the signed factor of each
/// displacement axis and whether the diagonal √2 reduction applies. The
/// host multiplies the factors by the frame's distance (move speed times
/// timestep) and applies the result along the horizontal facing and right
/// directions.
pub struct MoveIntent {
    /// -1 moves forward, +1 backward, 0 neither.
    pub forward_sign: i8,
    /// +1 strafes right, -1 left, 0 neither.
    pub strafe_sign: i8,
    /// Both axes are active: divide both magnitudes by √2.
    pub diagonal: bool,
}

impl Camera {
    /// Well-formedness of the executable state, via its model.
    pub open spec fn wf(self) -> bool {
        self@.wf()
    }

    /// A fresh camera: at the origin facing -Z (yaw 0, pitch 0), all
    /// movement flags clear, with the default movement speed of 1.0 world
    /// units per second and rotation sensitivity of 0.1° per mouse count.
    pub fn new() -> (c: Camera)
        ensures
            c@ == CameraView::initial(),
            c.wf(),
    {
        Camera {
            yaw_mdeg: 0,
            pitch_mdeg: 0,
            rotation_sensitivity_mdeg: DEFAULT_ROTATION_SENSITIVITY_MDEG,
            move_speed_milli: DEFAULT_MOVE_SPEED_MILLI,
            moving_forward: false,
            moving_backward: false,
            moving_left: false,
            moving_right: false,
        }
    }

    /// Consumes one discrete input event, mutating the camera state
    /// exactly as `event_step` describes: W/A/S/D latch the movement
    /// flags, mouse motion turns and then wraps/clamps the orientation,
    /// and every other event is ignored.
    pub fn process_device_event(&mut self, event: &InputEvent)
        requires
            old(self).wf(),
        ensures
            final(self)@ == event_step(old(self)@, *event),
            final(self).wf(),
    {
        proof {
            lemma_event_step_preserves_wf(old(self)@, *event);
        }
        match *event {
            InputEvent::KeyChanged { key, pressed } => {
                match key {
                    Key::W => {
                        self.moving_forward = pressed;
                    },
                    Key::S => {
                        self.moving_backward = pressed;
                    },
                    Key::D => {
                        self.moving_right = pressed;
                    },
                    Key::A => {
                        self.moving_left = pressed;
                    },
                    Key::Escape => {},
                    Key::Other => {},
                }
            },
            InputEvent::MouseMoved { dx, dy } => {
                let sens: i64 = self.rotation_sensitivity_mdeg;
                proof {
                    assert((dx as int) * (sens as int) <= 2147483648 * 1000000 && (dx as int)
                        * (sens as int) >= -2147483648 * 1000000) by (nonlinear_arith)
                        requires
                            -2147483648 <= dx as int <= 2147483647,
                            0 <= sens as int <= 1000000,
                    ;
                    assert((dy as int) * (sens as int) <= 2147483648 * 1000000 && (dy as int)
                        * (sens as int) >= -2147483648 * 1000000) by (nonlinear_arith)
                        requires
                            -2147483648 <= dy as int <= 2147483647,
                            0 <= sens as int <= 1000000,
                    ;
                }
                let turn: i64 = (dx as i64) * sens;
                let total_yaw: i64 = self.yaw_mdeg + turn;
                self.yaw_mdeg = wrap_yaw_mdeg(total_yaw);
                let tilt: i64 = (dy as i64) * sens;
                let total_pitch: i64 = self.pitch_mdeg - tilt;
                self.pitch_mdeg = clamp_pitch_mdeg(total_pitch);
            },
            InputEvent::WindowCloseRequested => {},
            InputEvent::Other => {},
        }
    }

    /// Decides the movement for one update tick from the current flags:
    /// the signed factor per axis with the cancel-out policy, and the
    /// diagonal flag that calls for the √2 reduction.
    pub fn update(&self) -> (m: MoveIntent)
        ensures
            m.forward_sign as int == forward_sign(self@),
            m.strafe_sign as int == strafe_sign(self@),
            m.diagonal == is_diagonal(self@),
    {
        let f: i8 = if self.moving_forward && !self.moving_backward {
            -1
        } else if self.moving_backward && !self.moving_forward {
            1
        } else {
            0
        };
        let s: i8 = if self.moving_right && !self.moving_left {
            1
        } else if self.moving_left && !self.moving_right {
            -1
        } else {
            0
        };
        MoveIntent { forward_sign: f, strafe_sign: s, diagonal: f != 0 && s != 0 }
    }
}

/// Reduces an accumulated yaw (millidegrees) modulo one turn, keeping the
/// sign of the accumulated value.
fn wrap_yaw_mdeg(t: i64) -> (r: i64)
    requires
        t > i64::MIN,
    ensures
        r as int == wrap_yaw(t as int),
{
    if t >= 0 {
        ((t as u64) % (YAW_PERIOD_MDEG as u64)) as i64
    } else {
        let m: u64 = ((-t) as u64) % (YAW_PERIOD_MDEG as u64);
        -(m as i64)
    }
}

/// Clamps an accumulated pitch (millidegrees) to ±89°.
fn clamp_pitch_mdeg(t: i64) -> (r: i64)
    ensures
        r as int == clamp_pitch(t as int),
{
    if t > PITCH_LIMIT_MDEG {
        PITCH_LIMIT_MDEG
    } else if t < -PITCH_LIMIT_MDEG {
        -PITCH_LIMIT_MDEG
    } else {
        t
    }
}

} // verus!
