//! The decisions of a viewing session: which window events the camera
//! takes, when to resize, rebuild or stop, and how the camera state
//! advances each frame. The host performs what is decided.
use vstd::prelude::*;
use crate::camera::{Controller, Key, Orientation, move_of, clamp_pitch};
use crate::frac::Ratio;

verus! {

/// Turn rate of a new session: 0.4 radians per pixel of drag per second.
pub const SENSITIVITY: u32 = 400_000;

/// Initial yaw of a new session: a quarter turn clockwise, looking down -z.
pub const START_YAW: i64 = -1_570_796;

#[derive(Copy, Clone, PartialEq, Eq, Structural, Debug)]
pub enum MouseButton {
    Left,
    Right,
    Middle,
    Other,
}

/// A window event, as the session sees it.
#[derive(Copy, Clone, PartialEq, Eq, Structural, Debug)]
pub enum WindowEvent {
    Keyboard { key: Key, pressed: bool },
    MouseWheel,
    MouseInput { button: MouseButton, pressed: bool },
    CloseRequested,
    Resized { width: u32, height: u32 },
    ScaleFactorChanged { width: u32, height: u32 },
    Other,
}

/// Why the surface could not give a frame.
#[derive(Copy, Clone, PartialEq, Eq, Structural, Debug)]
pub enum SurfaceFault {
    Lost,
    Outdated,
    OutOfMemory,
    Timeout,
}

/// What the host does next.
#[derive(Copy, Clone, PartialEq, Eq, Structural, Debug)]
pub enum Action {
    /// Go on.
    Nothing,
    /// End the session.
    Exit,
    /// Reconfigure the surface, and recreate the depth attachment and the
    /// projection, at the viewport's size; skip this frame.
    Reconfigure,
    /// Report a benign fault and go on.
    Warn,
}

/// Size of the drawing surface in physical pixels.
#[derive(Copy, Clone, PartialEq, Eq, Structural, Debug)]
pub struct Viewport {
    pub width: u32,
    pub height: u32,
}

impl Viewport {
    pub fn new(width: u32, height: u32) -> (r: Viewport)
        ensures
            r.width == width,
            r.height == height,
    {
        Viewport { width, height }
    }

    /// Takes the new size unless either side is zero. Returns whether it was
    /// taken, and so whether the surface, depth attachment and projection are
    /// to be rebuilt at it.
    pub fn resize(&mut self, width: u32, height: u32) -> (r: bool)
        ensures
            r == (width > 0 && height > 0),
            r ==> *final(self) == (Viewport { width, height }),
            !r ==> *final(self) == *old(self),
    {
        if width > 0 && height > 0 {
            self.width = width;
            self.height = height;
            true
        } else {
            false
        }
    }

    /// Aspect ratio of the projection: width over height.
    pub fn aspect(&self) -> (r: Ratio)
        requires
            self.height > 0,
        ensures
            r.wf(),
            r.num == self.width,
            r.den == self.height,
    {
        Ratio { num: self.width as i128, den: self.height as u64 }
    }
}

/// The event is one the camera takes: a key that moves it, the wheel, or the
/// left button.
pub open spec fn consumed(event: WindowEvent) -> bool {
    match event {
        WindowEvent::Keyboard { key, .. } => move_of(key) is Some,
        WindowEvent::MouseWheel => true,
        WindowEvent::MouseInput { button, .. } => button == MouseButton::Left,
        _ => false,
    }
}

/// The action for a surface fault: rebuild on a lost or outdated surface,
/// stop when out of memory, warn on a timeout.
pub open spec fn fault_action(fault: SurfaceFault) -> Action {
    match fault {
        SurfaceFault::Lost | SurfaceFault::Outdated => Action::Reconfigure,
        SurfaceFault::OutOfMemory => Action::Exit,
        SurfaceFault::Timeout => Action::Warn,
    }
}

/// Camera controller, orientation and surface size of a session.
#[derive(Copy, Clone, PartialEq, Eq, Structural, Debug)]
pub struct Session {
    pub controller: Controller,
    pub orientation: Orientation,
    pub viewport: Viewport,
    /// The left button is down, so mouse motion drags the view.
    pub mouse_pressed: bool,
}

impl Session {
    pub open spec fn wf(self) -> bool {
        self.orientation.wf()
    }

    /// A session on a surface of `width` by `height`, the camera level and
    /// at rest.
    pub fn new(width: u32, height: u32) -> (r: Session)
        ensures
            r.wf(),
            r.controller == Controller::new_spec(SENSITIVITY),
            r.orientation.yaw == (START_YAW as int) % (crate::camera::FULL_TURN as int),
            r.orientation.pitch == 0,
            r.viewport == (Viewport { width, height }),
            !r.mouse_pressed,
    {
        proof {
            assert(clamp_pitch(0) == 0);
        }
        Session {
            controller: Controller::new(SENSITIVITY),
            orientation: Orientation::new(START_YAW, 0),
            viewport: Viewport::new(width, height),
            mouse_pressed: false,
        }
    }

    /// The session after the camera takes `event`: a key that moves the
    /// camera sets its flag, the left button sets whether motion drags;
    /// anything else changes nothing.
    pub open spec fn take(self, event: WindowEvent) -> Session {
        match event {
            WindowEvent::Keyboard { key, pressed } => match move_of(key) {
                Some(m) => Session { controller: self.controller.with_move(m, pressed), ..self },
                None => self,
            },
            WindowEvent::MouseInput { button: MouseButton::Left, pressed } => Session {
                mouse_pressed: pressed,
                ..self
            },
            _ => self,
        }
    }

    /// Hands the event to the camera. Returns whether it took it.
    pub fn input(&mut self, event: &WindowEvent) -> (r: bool)
        ensures
            r == consumed(*event),
            *final(self) == old(self).take(*event),
    {
        match event {
            WindowEvent::Keyboard { key, pressed } => self.controller.process_keyboard(*key, *pressed),
            WindowEvent::MouseWheel => true,
            WindowEvent::MouseInput { button: MouseButton::Left, pressed } => {
                self.mouse_pressed = *pressed;
                true
            },
            _ => false,
        }
    }

    /// Handles a window event: the camera's first, then closing (window close
    /// or Escape pressed) and resizing.
    pub fn handle_window_event(&mut self, event: &WindowEvent) -> (r: Action)
        ensures
            consumed(*event) ==> r == Action::Nothing && *final(self) == old(self).take(*event),
            !consumed(*event) ==> *final(self) == (Session { viewport: final(self).viewport, ..*old(self) }),
            !consumed(*event) ==> match *event {
                WindowEvent::CloseRequested => r == Action::Exit,
                WindowEvent::Keyboard { key: Key::Escape, pressed: true } => r == Action::Exit,
                WindowEvent::Resized { width, height }
                | WindowEvent::ScaleFactorChanged { width, height } => {
                    &&& (width > 0 && height > 0) ==> r == Action::Reconfigure
                        && final(self).viewport == (Viewport { width, height })
                    &&& !(width > 0 && height > 0) ==> r == Action::Nothing
                        && final(self).viewport == old(self).viewport
                },
                _ => r == Action::Nothing && final(self).viewport == old(self).viewport,
            },
            final(self).wf() == old(self).wf(),
    {
        if self.input(event) {
            return Action::Nothing;
        }
        match event {
            WindowEvent::CloseRequested => Action::Exit,
            WindowEvent::Keyboard { key: Key::Escape, pressed: true } => Action::Exit,
            WindowEvent::Resized { width, height }
            | WindowEvent::ScaleFactorChanged { width, height } => {
                if self.viewport.resize(*width, *height) {
                    Action::Reconfigure
                } else {
                    Action::Nothing
                }
            },
            _ => Action::Nothing,
        }
    }

    /// Mouse motion of `(dx, dy)` pixels: a drag while the left button is
    /// down, else nothing.
    pub fn mouse_motion(&mut self, dx: i32, dy: i32)
        ensures
            old(self).mouse_pressed ==> ({
                let c = old(self).controller;
                &&& final(self).controller.drag_x == crate::camera::sat_add(c.drag_x as int, dx as int)
                &&& final(self).controller.drag_y == crate::camera::sat_add(c.drag_y as int, dy as int)
                &&& *final(self) == (Session {
                    controller: Controller {
                        drag_x: final(self).controller.drag_x,
                        drag_y: final(self).controller.drag_y,
                        ..c
                    },
                    ..*old(self)
                })
            }),
            !old(self).mouse_pressed ==> *final(self) == *old(self),
    {
        if self.mouse_pressed {
            self.controller.process_mouse(dx, dy);
        }
    }

    /// Advances the camera by `dt` microseconds: applies and spends the
    /// pending drag.
    pub fn update(&mut self, dt: u64)
        requires
            old(self).wf(),
        ensures
            final(self).wf(),
            final(self).orientation == old(self).orientation.step(
                old(self).controller.sensitivity as int,
                old(self).controller.drag_x as int,
                old(self).controller.drag_y as int,
                dt as int,
            ),
            final(self).controller == (Controller { drag_x: 0, drag_y: 0, ..old(self).controller }),
            final(self).viewport == old(self).viewport,
            final(self).mouse_pressed == old(self).mouse_pressed,
    {
        self.controller.update(&mut self.orientation, dt);
    }
}

/// The action for a frame the surface could not give.
pub fn render_fault(fault: SurfaceFault) -> (r: Action)
    ensures
        r == fault_action(fault),
{
    match fault {
        SurfaceFault::Lost | SurfaceFault::Outdated => Action::Reconfigure,
        SurfaceFault::OutOfMemory => Action::Exit,
        SurfaceFault::Timeout => Action::Warn,
    }
}

} // verus!
