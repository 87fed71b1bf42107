//! Key presses and what they do to the camera: one key per frame moves or
//! turns the player, or ends the session.

use vstd::prelude::*;
use crate::camera::PlayerCamera;
use crate::fixed::{saturate, saturated, toward_zero};
use crate::params::{MICROS_PER_SECOND, MOVE_SPEED, TURN_INCREMENT, UNITS_PER_CELL};
use crate::ray::Ray;

verus! {

/// A key press, as far as the renderer tells keys apart.
#[derive(Clone, Copy, Debug, PartialEq, Eq, Structural)]
pub enum Key {
    /// A key that types a character.
    Char(char),
    /// The left arrow.
    Left,
    /// The right arrow.
    Right,
    /// Any other key.
    Other,
}

/// What a key press asks for.
#[derive(Clone, Copy, Debug, PartialEq, Eq, Structural)]
pub enum Command {
    Quit,
    Forward,
    Back,
    StrafeLeft,
    StrafeRight,
    TurnLeft,
    TurnRight,
    /// Nothing: the key is not bound.
    Stay,
}

/// How far one frame of movement carries the player along each axis, in
/// position units.
#[derive(Clone, Copy, Debug, PartialEq, Eq, Structural)]
pub struct Stride {
    pub dx: i64,
    pub dy: i64,
}

/// The command that a key is bound to: `q` quits; `,`, `o`, `a` and `e`
/// move forward, back, left and right; the arrows turn.
pub open spec fn command_of(key: Key) -> Command {
    match key {
        Key::Char(c) => if c == 'q' {
            Command::Quit
        } else if c == ',' {
            Command::Forward
        } else if c == 'o' {
            Command::Back
        } else if c == 'a' {
            Command::StrafeLeft
        } else if c == 'e' {
            Command::StrafeRight
        } else {
            Command::Stay
        },
        Key::Left => Command::TurnLeft,
        Key::Right => Command::TurnRight,
        Key::Other => Command::Stay,
    }
}

/// One component of a frame's movement: the heading's component `eye`
/// times the speed times the time, `eye / UNITS_PER_CELL * MOVE_SPEED *
/// elapsed_micros / MICROS_PER_SECOND`, rounded toward zero and narrowed to
/// an `i64`.
pub open spec fn stride_component(eye: int, elapsed_micros: int) -> int {
    saturated(
        toward_zero(eye * elapsed_micros * MOVE_SPEED, UNITS_PER_CELL * MICROS_PER_SECOND),
    )
}

/// The movement of one frame that took `elapsed_micros` microseconds, for a
/// player who looks in the direction `heading`.
pub open spec fn stride_of(heading: Ray, elapsed_micros: int) -> Stride {
    Stride {
        dx: stride_component(heading.eye_x as int, elapsed_micros) as i64,
        dy: stride_component(heading.eye_y as int, elapsed_micros) as i64,
    }
}

/// Looks up the command that a key is bound to.
pub fn command_for(key: Key) -> (command: Command)
    ensures
        command == command_of(key),
{
    match key {
        Key::Char('q') => Command::Quit,
        Key::Char(',') => Command::Forward,
        Key::Char('o') => Command::Back,
        Key::Char('a') => Command::StrafeLeft,
        Key::Char('e') => Command::StrafeRight,
        Key::Left => Command::TurnLeft,
        Key::Right => Command::TurnRight,
        _ => Command::Stay,
    }
}

fn scale_by_time(eye: i64, elapsed_micros: u32) -> (d: i64)
    ensures
        d == stride_component(eye as int, elapsed_micros as int),
{
    assert(-0x8000_0000_0000_0000 * 0x1_0000_0000 <= eye * elapsed_micros
        <= 0x8000_0000_0000_0000 * 0x1_0000_0000) by (nonlinear_arith)
        requires
            -0x8000_0000_0000_0000 <= eye < 0x8000_0000_0000_0000,
            0 <= elapsed_micros < 0x1_0000_0000,
    ;
    assert(eye * elapsed_micros * MOVE_SPEED == eye * elapsed_micros * 1_000_000);
    assert(UNITS_PER_CELL * MICROS_PER_SECOND == 1_000_000_000_000);
    let product: i128 = (eye as i128) * (elapsed_micros as i128) * (MOVE_SPEED as i128);
    saturate(product / ((UNITS_PER_CELL as i128) * (MICROS_PER_SECOND as i128)))
}

/// Computes the movement of one frame from the player's heading and the
/// time that the frame took.
pub fn stride(heading: &Ray, elapsed_micros: u32) -> (s: Stride)
    ensures
        s == stride_of(*heading, elapsed_micros as int),
{
    Stride {
        dx: scale_by_time(heading.eye_x, elapsed_micros),
        dy: scale_by_time(heading.eye_y, elapsed_micros),
    }
}

impl PlayerCamera {
    /// The camera after a command. Moving forward adds the stride to the
    /// position and moving back takes it away; moving left adds it along
    /// `x` and takes it away along `y`, and moving right does the reverse.
    /// Turning changes the heading by `TURN_INCREMENT`. Sums saturate.
    pub open spec fn moved(self, command: Command, stride: Stride) -> PlayerCamera {
        match command {
            Command::Forward => PlayerCamera {
                x: saturated(self.x + stride.dx) as i64,
                y: saturated(self.y + stride.dy) as i64,
                angle: self.angle,
            },
            Command::StrafeLeft => PlayerCamera {
                x: saturated(self.x + stride.dx) as i64,
                y: saturated(self.y - stride.dy) as i64,
                angle: self.angle,
            },
            Command::Back => PlayerCamera {
                x: saturated(self.x - stride.dx) as i64,
                y: saturated(self.y - stride.dy) as i64,
                angle: self.angle,
            },
            Command::StrafeRight => PlayerCamera {
                x: saturated(self.x - stride.dx) as i64,
                y: saturated(self.y + stride.dy) as i64,
                angle: self.angle,
            },
            Command::TurnLeft => PlayerCamera {
                x: self.x,
                y: self.y,
                angle: saturated(self.angle - TURN_INCREMENT) as i64,
            },
            Command::TurnRight => PlayerCamera {
                x: self.x,
                y: self.y,
                angle: saturated(self.angle + TURN_INCREMENT) as i64,
            },
            Command::Quit => self,
            Command::Stay => self,
        }
    }

    /// Carries out a command.
    pub fn apply(&mut self, command: Command, stride: Stride)
        ensures
            *final(self) == old(self).moved(command, stride),
    {
        match command {
            Command::Forward => {
                self.x = saturate((self.x as i128) + (stride.dx as i128));
                self.y = saturate((self.y as i128) + (stride.dy as i128));
            },
            Command::StrafeLeft => {
                self.x = saturate((self.x as i128) + (stride.dx as i128));
                self.y = saturate((self.y as i128) - (stride.dy as i128));
            },
            Command::Back => {
                self.x = saturate((self.x as i128) - (stride.dx as i128));
                self.y = saturate((self.y as i128) - (stride.dy as i128));
            },
            Command::StrafeRight => {
                self.x = saturate((self.x as i128) - (stride.dx as i128));
                self.y = saturate((self.y as i128) + (stride.dy as i128));
            },
            Command::TurnLeft => {
                self.angle = saturate((self.angle as i128) - (TURN_INCREMENT as i128));
            },
            Command::TurnRight => {
                self.angle = saturate((self.angle as i128) + (TURN_INCREMENT as i128));
            },
            Command::Quit => {},
            Command::Stay => {},
        }
    }

    /// Handles the key of one frame: the camera moves or turns as the key
    /// asks, by the stride of a frame that took `elapsed_micros`
    /// microseconds, and the result tells whether the session goes on. A
    /// key that is not bound changes nothing.
    pub fn step(&mut self, key: Key, heading: &Ray, elapsed_micros: u32) -> (running: bool)
        ensures
            running == (command_of(key) != Command::Quit),
            *final(self) == old(self).moved(
                command_of(key),
                stride_of(*heading, elapsed_micros as int),
            ),
    {
        let command = command_for(key);
        self.apply(command, stride(heading, elapsed_micros));
        match command {
            Command::Quit => false,
            _ => true,
        }
    }
}

} // verus!
