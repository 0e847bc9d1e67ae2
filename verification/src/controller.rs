//! First-person input controller: motion flags, accumulated pointer
//! deltas, and the screen center the pointer is re-centered on. Input
//! events from the windowing collaborator update this state synchronously;
//! each frame the flags and deltas drive the camera, and the caller asks
//! the window to snap the pointer back to the stored center.

use vstd::prelude::*;
use crate::fixed::{Fx, FX_ONE, fx_mul};
use crate::camera::lemma_fx_mul_le;

verus! {

/// The four movement keys the controller reacts to.
#[derive(Clone, Copy, PartialEq, Eq, Structural, Debug)]
pub enum Key {
    Comma,
    O,
    A,
    E,
}

/// The input events the controller consumes; a key outside the four
/// movement keys arrives as `KeyboardInput(_, None)`.
#[derive(Clone, Copy, PartialEq, Eq, Structural, Debug)]
pub enum InputEvent {
    Resized(u32, u32),
    MouseMoved(i32, i32),
    KeyboardInput(bool, Option<Key>),
    Closed,
}

/// Screen coordinates stay within this many pixels of the origin; far
/// beyond any real display, and small enough that pointer deltas embed
/// exactly into fixed point.
pub const SCREEN_BOUND: i32 = 0x10_0000;

/// Input state: pointer deltas, motion flags, speeds, and the stored
/// screen center.
#[derive(Clone, Copy, PartialEq, Eq, Structural, Debug)]
pub struct Controller {
    pub rx: Fx,
    pub ry: Fx,
    pub front: bool,
    pub back: bool,
    pub left: bool,
    pub right: bool,
    pub move_speed: Fx,
    pub rot_speed: Fx,
    pub center_x: i32,
    pub center_y: i32,
}

/// What one event does to the controller state: a resize recomputes the
/// stored screen center; a pointer move away from the center records the
/// delta (with the y axis flipped), a move onto the center clears both
/// deltas; a key event toggles its motion flag; a close event changes
/// nothing here.
pub open spec fn controller_after(c: Controller, e: InputEvent) -> Controller {
    match e {
        InputEvent::Resized(w, h) => Controller {
            center_x: (w / 2) as i32,
            center_y: (h / 2) as i32,
            ..c
        },
        InputEvent::MouseMoved(x, y) => if !(x == c.center_x && y == c.center_y) {
            Controller {
                rx: Fx { raw: ((x - c.center_x) * (FX_ONE as int)) as i64 },
                ry: Fx { raw: ((c.center_y - y) * (FX_ONE as int)) as i64 },
                ..c
            }
        } else {
            Controller { rx: Fx { raw: 0 }, ry: Fx { raw: 0 }, ..c }
        },
        InputEvent::KeyboardInput(pressed, key) => match key {
            Some(Key::Comma) => Controller { front: pressed, ..c },
            Some(Key::O) => Controller { back: pressed, ..c },
            Some(Key::A) => Controller { left: pressed, ..c },
            Some(Key::E) => Controller { right: pressed, ..c },
            None => c,
        },
        InputEvent::Closed => c,
    }
}

/// The event values the controller accepts: coordinates within the screen
/// bound (a machine limit, so pointer deltas embed exactly).
pub open spec fn event_in_bounds(e: InputEvent) -> bool {
    match e {
        InputEvent::Resized(w, h) => w <= 2 * SCREEN_BOUND && h <= 2 * SCREEN_BOUND,
        InputEvent::MouseMoved(x, y) => -SCREEN_BOUND <= x <= SCREEN_BOUND && -SCREEN_BOUND <= y
            <= SCREEN_BOUND,
        InputEvent::KeyboardInput(_, _) => true,
        InputEvent::Closed => true,
    }
}

impl Controller {
    /// The stored center stays within the screen bound.
    pub open spec fn wf(self) -> bool {
        &&& 0 <= self.center_x <= SCREEN_BOUND
        &&& 0 <= self.center_y <= SCREEN_BOUND
    }

    /// A controller at rest: no deltas, no motion, unit speeds, center at
    /// the origin.
    pub fn new() -> (c: Controller)
        ensures
            c.wf(),
            c == (Controller {
                rx: Fx { raw: 0 },
                ry: Fx { raw: 0 },
                front: false,
                back: false,
                left: false,
                right: false,
                move_speed: Fx { raw: FX_ONE },
                rot_speed: Fx { raw: FX_ONE },
                center_x: 0,
                center_y: 0,
            }),
    {
        Controller {
            rx: Fx { raw: 0 },
            ry: Fx { raw: 0 },
            front: false,
            back: false,
            left: false,
            right: false,
            move_speed: Fx { raw: FX_ONE },
            rot_speed: Fx { raw: FX_ONE },
            center_x: 0,
            center_y: 0,
        }
    }

    /// Folds one input event into the state, exactly as
    /// [`controller_after`] describes.
    pub fn process_event(&mut self, event: &InputEvent)
        requires
            old(self).wf(),
            event_in_bounds(*event),
        ensures
            *final(self) == controller_after(*old(self), *event),
            final(self).wf(),
    {
        match *event {
            InputEvent::Resized(w, h) => {
                self.center_x = (w / 2) as i32;
                self.center_y = (h / 2) as i32;
            },
            InputEvent::MouseMoved(x, y) => {
                if !(x == self.center_x && y == self.center_y) {
                    let dx: i64 = (x as i64) - (self.center_x as i64);
                    let dy: i64 = (self.center_y as i64) - (y as i64);
                    self.rx = Fx { raw: dx * FX_ONE };
                    self.ry = Fx { raw: dy * FX_ONE };
                } else {
                    self.rx = Fx { raw: 0 };
                    self.ry = Fx { raw: 0 };
                }
            },
            InputEvent::KeyboardInput(pressed, key) => {
                match key {
                    Some(Key::Comma) => self.front = pressed,
                    Some(Key::O) => self.back = pressed,
                    Some(Key::A) => self.left = pressed,
                    Some(Key::E) => self.right = pressed,
                    None => (),
                }
            },
            InputEvent::Closed => (),
        }
    }
}

/// What one frame of input asks of the camera: net movement along look
/// and right, the two rotation angles, and where to re-center the pointer.
#[derive(Clone, Copy, PartialEq, Eq, Structural, Debug)]
pub struct FrameMotion {
    pub advance: Fx,
    pub strafe: Fx,
    pub rot_up: Fx,
    pub rot_left: Fx,
    pub recenter_x: i32,
    pub recenter_y: i32,
}

/// Largest pointer delta the per-frame policy accepts, in raw fixed-point
/// units: the screen bound in whole pixels.
pub const DELTA_BOUND: i64 = 0x20_0000_0000_0000;

/// Largest speed the per-frame policy accepts (about 16 units or degrees
/// per frame and pixel).
pub const SPEED_BOUND: i64 = 0x10_0000_0000;

/// The per-frame input-to-motion policy: move forward/backward along the
/// look axis and right/left along the right axis at the move speed when
/// the corresponding flags are held; pitch by `ry * rot_speed` and yaw by
/// `-rx * rot_speed`; then re-center the pointer at the stored screen
/// center.
pub open spec fn frame_motion_spec(c: Controller) -> FrameMotion {
    let ms = c.move_speed.raw as int;
    FrameMotion {
        advance: Fx {
            raw: ((if c.front {
                ms
            } else {
                0
            }) - (if c.back {
                ms
            } else {
                0
            })) as i64,
        },
        strafe: Fx {
            raw: ((if c.right {
                ms
            } else {
                0
            }) - (if c.left {
                ms
            } else {
                0
            })) as i64,
        },
        rot_up: Fx { raw: fx_mul(c.ry.raw as int, c.rot_speed.raw as int) as i64 },
        rot_left: Fx { raw: (-fx_mul(c.rx.raw as int, c.rot_speed.raw as int)) as i64 },
        recenter_x: c.center_x,
        recenter_y: c.center_y,
    }
}

impl Controller {
    /// Computes this frame's camera motion from the input state, exactly
    /// as [`frame_motion_spec`] states; the caller applies the movements
    /// and rotations to the camera and performs the pointer re-centering
    /// on the windowing collaborator.
    pub fn frame_motion(&self) -> (m: FrameMotion)
        requires
            -DELTA_BOUND <= self.rx.raw <= DELTA_BOUND,
            -DELTA_BOUND <= self.ry.raw <= DELTA_BOUND,
            -SPEED_BOUND <= self.move_speed.raw <= SPEED_BOUND,
            -SPEED_BOUND <= self.rot_speed.raw <= SPEED_BOUND,
        ensures
            m == frame_motion_spec(*self),
    {
        proof {
            assert((DELTA_BOUND as int) * (SPEED_BOUND as int) <= 0x200_0000_0000_0000 * (
            FX_ONE as int)) by (nonlinear_arith)
                requires
                    DELTA_BOUND == 0x20_0000_0000_0000i64,
                    SPEED_BOUND == 0x10_0000_0000i64,
                    FX_ONE == 0x1_0000_0000i64,
            ;
            lemma_fx_mul_le(
                self.ry.raw as int,
                self.rot_speed.raw as int,
                DELTA_BOUND as int,
                SPEED_BOUND as int,
                0x200_0000_0000_0000,
            );
            lemma_fx_mul_le(
                self.rx.raw as int,
                self.rot_speed.raw as int,
                DELTA_BOUND as int,
                SPEED_BOUND as int,
                0x200_0000_0000_0000,
            );
        }
        let adv: i64 = (if self.front {
            self.move_speed.raw
        } else {
            0
        }) - (if self.back {
            self.move_speed.raw
        } else {
            0
        });
        let str_: i64 = (if self.right {
            self.move_speed.raw
        } else {
            0
        }) - (if self.left {
            self.move_speed.raw
        } else {
            0
        });
        let ru = self.ry.mul(self.rot_speed);
        let rl = self.rx.mul(self.rot_speed).neg();
        FrameMotion {
            advance: Fx { raw: adv },
            strafe: Fx { raw: str_ },
            rot_up: ru,
            rot_left: rl,
            recenter_x: self.center_x,
            recenter_y: self.center_y,
        }
    }
}

} // verus!
