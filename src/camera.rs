//! The free-fly camera's controller: movement intent from keys, drag from
//! the mouse, and the camera's orientation in whole microradians, with its
//! pitch kept short of straight up or down.
use vstd::prelude::*;
use vstd::arithmetic::div_mod::{lemma_fundamental_div_mod, lemma_fundamental_div_mod_converse_mod, lemma_mod_division_less_than_divisor};

verus! {

/// A full turn in microradians, to the nearest microradian.
pub const FULL_TURN: i64 = 6_283_185;

/// Largest pitch magnitude in microradians: a tenth of a milliradian short of
/// a quarter turn (1_570_796.3).
pub const SAFE_PITCH: i64 = 1_570_696;

/// Microseconds in a second.
pub const MICROS: u64 = 1_000_000;

/// Keys the viewer reacts to.
#[derive(Copy, Clone, PartialEq, Eq, Structural, Debug)]
pub enum Key {
    W,
    A,
    S,
    D,
    Up,
    Down,
    Left,
    Right,
    Space,
    LShift,
    Escape,
    Other,
}

/// Direction of movement a key asks for.
#[derive(Copy, Clone, PartialEq, Eq, Structural, Debug)]
pub enum Move {
    Forward,
    Backward,
    Leftward,
    Rightward,
    Upward,
    Downward,
}

/// The movement a key controls, if any: W or Up forward, S or Down back,
/// A or Left left, D or Right right, Space up, left Shift down.
pub open spec fn move_of(key: Key) -> Option<Move> {
    match key {
        Key::W | Key::Up => Some(Move::Forward),
        Key::S | Key::Down => Some(Move::Backward),
        Key::A | Key::Left => Some(Move::Leftward),
        Key::D | Key::Right => Some(Move::Rightward),
        Key::Space => Some(Move::Upward),
        Key::LShift => Some(Move::Downward),
        _ => None,
    }
}

/// Movement flags held while keys are down, and mouse drag not yet applied.
#[derive(Copy, Clone, PartialEq, Eq, Structural, Debug)]
pub struct Controller {
    pub forward: bool,
    pub backward: bool,
    pub left: bool,
    pub right: bool,
    pub up: bool,
    pub down: bool,
    /// Horizontal drag in pixels since the last update.
    pub drag_x: i32,
    /// Vertical drag in pixels since the last update.
    pub drag_y: i32,
    /// Turn rate in microradians per pixel of drag per second.
    pub sensitivity: u32,
}

/// Camera orientation in microradians.
#[derive(Copy, Clone, PartialEq, Eq, Structural, Debug)]
pub struct Orientation {
    pub yaw: i64,
    pub pitch: i64,
}

/// `x` clamped to `[-SAFE_PITCH, SAFE_PITCH]`.
pub open spec fn clamp_pitch(x: int) -> int {
    if x < -SAFE_PITCH {
        -SAFE_PITCH as int
    } else if x > SAFE_PITCH {
        SAFE_PITCH as int
    } else {
        x
    }
}

/// Turn from `drag` pixels at `sensitivity` over `dt` microseconds, in
/// microradians, rounded toward zero.
pub open spec fn turn(drag: int, sensitivity: int, dt: int) -> int {
    if drag >= 0 {
        drag * sensitivity * dt / MICROS as int
    } else {
        -((-drag) * sensitivity * dt / MICROS as int)
    }
}

/// `a + b` saturated to the range of `i32`.
pub open spec fn sat_add(a: int, b: int) -> int {
    if a + b > i32::MAX {
        i32::MAX as int
    } else if a + b < i32::MIN {
        i32::MIN as int
    } else {
        a + b
    }
}

impl Orientation {
    /// Yaw lies in one turn and pitch is clamped.
    pub open spec fn wf(self) -> bool {
        &&& 0 <= self.yaw < FULL_TURN
        &&& -SAFE_PITCH <= self.pitch <= SAFE_PITCH
    }

    /// The orientation after one update with drag `(dx, dy)` over `dt`
    /// microseconds.
    pub open spec fn step(self, sensitivity: int, dx: int, dy: int, dt: int) -> Orientation {
        Orientation {
            yaw: ((self.yaw as int + turn(dx, sensitivity, dt)) % (FULL_TURN as int)) as i64,
            pitch: clamp_pitch(self.pitch as int - turn(dy, sensitivity, dt)) as i64,
        }
    }

    /// The orientation after one update for each `(dx, dy, dt)` of `steps`,
    /// in order.
    pub open spec fn replay(self, sensitivity: int, steps: Seq<(i32, i32, u64)>) -> Orientation
        decreases steps.len(),
    {
        if steps.len() == 0 {
            self
        } else {
            let (dx, dy, dt) = steps.last();
            self.replay(sensitivity, steps.drop_last()).step(sensitivity, dx as int, dy as int, dt as int)
        }
    }

    /// The orientation with yaw `yaw` taken modulo a full turn and pitch
    /// `pitch` clamped.
    pub fn new(yaw: i64, pitch: i64) -> (r: Orientation)
        ensures
            r.wf(),
            r.yaw == (yaw as int) % (FULL_TURN as int),
            r.pitch == clamp_pitch(pitch as int),
    {
        Orientation { yaw: wrap_yaw(0, yaw as i128), pitch: clamp(pitch as i128) }
    }
}

fn saturating(a: i32, b: i32) -> (r: i32)
    ensures
        r == sat_add(a as int, b as int),
{
    let s = a as i64 + b as i64;
    if s > i32::MAX as i64 {
        i32::MAX
    } else if s < i32::MIN as i64 {
        i32::MIN
    } else {
        s as i32
    }
}

fn clamp(x: i128) -> (r: i64)
    ensures
        r == clamp_pitch(x as int),
{
    if x < -(SAFE_PITCH as i128) {
        -SAFE_PITCH
    } else if x > SAFE_PITCH as i128 {
        SAFE_PITCH
    } else {
        x as i64
    }
}

/// `yaw + delta` taken modulo a full turn.
fn wrap_yaw(yaw: i64, delta: i128) -> (r: i64)
    requires
        0 <= yaw < FULL_TURN,
        delta > i128::MIN,
    ensures
        r == (yaw as int + delta as int) % (FULL_TURN as int),
        0 <= r < FULL_TURN,
{
    let t: i128 = FULL_TURN as i128;
    if delta >= 0 {
        let m = delta % t;
        proof {
            lemma_fundamental_div_mod(delta as int, t as int);
            lemma_mod_division_less_than_divisor(delta as int, t as int);
        }
        let s = yaw as i128 + m;
        if s >= t {
            proof {
                lemma_fundamental_div_mod_converse_mod(yaw + delta, t as int, delta / t + 1, s - t);
            }
            (s - t) as i64
        } else {
            proof {
                lemma_fundamental_div_mod_converse_mod(yaw + delta, t as int, delta / t, s as int);
            }
            s as i64
        }
    } else {
        let neg = -delta;
        let m = neg % t;
        proof {
            lemma_fundamental_div_mod(neg as int, t as int);
            lemma_mod_division_less_than_divisor(neg as int, t as int);
        }
        if yaw as i128 >= m {
            proof {
                lemma_fundamental_div_mod_converse_mod(yaw + delta, t as int, -(neg / t), yaw - m);
            }
            (yaw as i128 - m) as i64
        } else {
            proof {
                lemma_fundamental_div_mod_converse_mod(
                    yaw + delta,
                    t as int,
                    -(neg / t) - 1,
                    yaw + t - m,
                );
            }
            (yaw as i128 + t - m) as i64
        }
    }
}

/// Whatever drags and time steps the updates apply, and however many, the
/// pitch stays strictly within a quarter turn (1_570_796.3 microradians)
/// up or down.
pub proof fn lemma_pitch_stays_bounded(o: Orientation, sensitivity: int, steps: Seq<(i32, i32, u64)>)
    requires
        o.wf(),
    ensures
        o.replay(sensitivity, steps).wf(),
        -1_570_796 < o.replay(sensitivity, steps).pitch < 1_570_796,
    decreases steps.len(),
{
    if steps.len() > 0 {
        lemma_pitch_stays_bounded(o, sensitivity, steps.drop_last());
        let prev = o.replay(sensitivity, steps.drop_last());
        let (dx, dy, dt) = steps.last();
        let t = FULL_TURN as int;
        lemma_mod_division_less_than_divisor(prev.yaw as int + turn(dx as int, sensitivity, dt as int), t);
    }
}

proof fn lemma_turn_bound(drag: int, sensitivity: int, dt: int)
    requires
        -0x8000_0000 <= drag < 0x8000_0000,
        0 <= sensitivity < 0x1_0000_0000,
        0 <= dt < 0x1_0000_0000_0000_0000,
    ensures
        0 <= (if drag >= 0 { drag } else { -drag }) * sensitivity < 0x1_0000_0000_0000_0000,
        0 <= (if drag >= 0 { drag } else { -drag }) * sensitivity * dt < 0x8000_0000_0000_0000_0000_0000_0000_0000,
        -0x8000_0000_0000_0000_0000_0000_0000 < turn(drag, sensitivity, dt) < 0x8000_0000_0000_0000_0000_0000_0000,
{
    let a = if drag >= 0 { drag } else { -drag };
    assert(0 <= a * sensitivity < 0x1_0000_0000_0000_0000) by (nonlinear_arith)
        requires
            0 <= a <= 0x8000_0000,
            0 <= sensitivity < 0x1_0000_0000,
    ;
    assert(0 <= a * sensitivity * dt < 0x8000_0000_0000_0000_0000_0000_0000_0000) by (nonlinear_arith)
        requires
            0 <= a <= 0x8000_0000,
            0 <= sensitivity < 0x1_0000_0000,
            0 <= dt < 0x1_0000_0000_0000_0000,
    ;
}

/// Turn from `drag` pixels at `sensitivity` over `dt` microseconds.
fn turn_by(drag: i32, sensitivity: u32, dt: u64) -> (r: i128)
    ensures
        r == turn(drag as int, sensitivity as int, dt as int),
{
    proof {
        lemma_turn_bound(drag as int, sensitivity as int, dt as int);
    }
    if drag >= 0 {
        (drag as u128 * sensitivity as u128 * dt as u128 / MICROS as u128) as i128
    } else {
        let mag = (-(drag as i64)) as u128;
        -((mag * sensitivity as u128 * dt as u128 / MICROS as u128) as i128)
    }
}

impl Controller {
    /// A controller at rest.
    pub fn new(sensitivity: u32) -> (r: Controller)
        ensures
            r == Controller::new_spec(sensitivity),
    {
        Controller {
            forward: false,
            backward: false,
            left: false,
            right: false,
            up: false,
            down: false,
            drag_x: 0,
            drag_y: 0,
            sensitivity,
        }
    }

    pub open spec fn new_spec(sensitivity: u32) -> Controller {
        Controller {
            forward: false,
            backward: false,
            left: false,
            right: false,
            up: false,
            down: false,
            drag_x: 0,
            drag_y: 0,
            sensitivity,
        }
    }

    /// The controller with the flag of movement `m` set to `on`.
    pub open spec fn with_move(self, m: Move, on: bool) -> Controller {
        match m {
            Move::Forward => Controller { forward: on, ..self },
            Move::Backward => Controller { backward: on, ..self },
            Move::Leftward => Controller { left: on, ..self },
            Move::Rightward => Controller { right: on, ..self },
            Move::Upward => Controller { up: on, ..self },
            Move::Downward => Controller { down: on, ..self },
        }
    }

    /// Records a key going down (`pressed`) or up. Returns whether the key
    /// controls movement; other keys leave the controller as it was.
    pub fn process_keyboard(&mut self, key: Key, pressed: bool) -> (r: bool)
        ensures
            r == move_of(key) is Some,
            r ==> *final(self) == old(self).with_move(move_of(key)->Some_0, pressed),
            !r ==> *final(self) == *old(self),
    {
        match key {
            Key::W | Key::Up => {
                self.forward = pressed;
                true
            },
            Key::S | Key::Down => {
                self.backward = pressed;
                true
            },
            Key::A | Key::Left => {
                self.left = pressed;
                true
            },
            Key::D | Key::Right => {
                self.right = pressed;
                true
            },
            Key::Space => {
                self.up = pressed;
                true
            },
            Key::LShift => {
                self.down = pressed;
                true
            },
            _ => false,
        }
    }

    /// Adds a mouse drag of `(dx, dy)` pixels to what the next update applies.
    pub fn process_mouse(&mut self, dx: i32, dy: i32)
        ensures
            final(self).drag_x == sat_add(old(self).drag_x as int, dx as int),
            final(self).drag_y == sat_add(old(self).drag_y as int, dy as int),
            *final(self) == (Controller { drag_x: final(self).drag_x, drag_y: final(self).drag_y, ..*old(self) }),
    {
        self.drag_x = saturating(self.drag_x, dx);
        self.drag_y = saturating(self.drag_y, dy);
    }

    /// Movement intent along the camera's forward, right and up axes, each
    /// -1, 0 or 1.
    pub fn intent(&self) -> (r: (i32, i32, i32))
        ensures
            r.0 == (self.forward as int) - (self.backward as int),
            r.1 == (self.right as int) - (self.left as int),
            r.2 == (self.up as int) - (self.down as int),
    {
        (
            self.forward as i32 - self.backward as i32,
            self.right as i32 - self.left as i32,
            self.up as i32 - self.down as i32,
        )
    }

    /// Applies the pending drag over `dt` microseconds: yaw turns with the
    /// horizontal drag, pitch against the vertical one and is clamped; the
    /// drag is then spent. Movement flags stay as they are.
    pub fn update(&mut self, orientation: &mut Orientation, dt: u64)
        requires
            old(orientation).wf(),
        ensures
            final(orientation).wf(),
            *final(orientation) == old(orientation).step(
                old(self).sensitivity as int,
                old(self).drag_x as int,
                old(self).drag_y as int,
                dt as int,
            ),
            *final(self) == (Controller { drag_x: 0, drag_y: 0, ..*old(self) }),
    {
        let yaw_turn = turn_by(self.drag_x, self.sensitivity, dt);
        let pitch_turn = turn_by(self.drag_y, self.sensitivity, dt);
        proof {
            lemma_turn_bound(self.drag_x as int, self.sensitivity as int, dt as int);
            lemma_turn_bound(self.drag_y as int, self.sensitivity as int, dt as int);
        }
        orientation.yaw = wrap_yaw(orientation.yaw, yaw_turn);
        orientation.pitch = clamp(orientation.pitch as i128 - pitch_turn);
        self.drag_x = 0;
        self.drag_y = 0;
    }
}

} // verus!
