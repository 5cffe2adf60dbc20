//! The runner itself: speed, jump power, gravity and the lane it stands on.
//! Each physics tick the host engine reports the input edges and whether the
//! body is grounded; `physics_step` decides every change of state and hands
//! back the impulses the engine should apply, in whole units. The engine
//! scales them by the frame delta and resolves collisions.

use crate::main_scene::PlatformDirection;
use vstd::prelude::*;

verus! {

/// Gravity restored whenever the runner is grounded, in units per second squared.
pub const GRAVITY_DEFAULT: u32 = 30;

/// Extra gravity a mid-air roll adds, cancelling the jump, in units per second squared.
pub const ROLL_GRAVITY_BOOST: u32 = 200;

/// The input edges and ground contact the engine reports for one physics tick.
pub struct FrameInput {
    /// The body rests on the floor this tick.
    pub on_floor: bool,
    /// The jump action was just pressed.
    pub jump: bool,
    /// The roll action was just pressed.
    pub roll: bool,
    /// The left strafe action was just pressed.
    pub left: bool,
    /// The right strafe action was just pressed.
    pub right: bool,
}

/// What the engine should apply to the body's velocity after one tick:
/// a downward pull and an upward impulse in units per second, scaled and
/// signed by the engine, and the forward speed the velocity is set to.
pub struct PhysicsAction {
    /// Gravity to pull the body down by this tick; zero when grounded.
    pub fall_gravity: u32,
    /// Upward impulse from a jump; zero unless one starts this tick.
    pub jump_impulse: u32,
    /// The forward speed the body runs at.
    pub forward_speed: u32,
}

/// The runner's gameplay state. The engine-side body, its velocity and its
/// visual position live with the host; everything the game rules read or
/// write is here.
pub struct Player {
    /// Forward running speed, in units per second.
    pub speed: u32,
    /// Upward impulse a jump grants, in units per second.
    pub jump_power: u32,
    /// Current downward pull, in units per second squared.
    pub gravity: u32,
    /// The runner has died; the engine pauses and shows the death screen.
    pub dead: bool,
    /// The lane the runner is steering toward.
    pub platform_standing: PlatformDirection,
}

impl Player {
    /// Where the lane ends up after this tick's strafe edges: a left shift,
    /// then a right shift, each clamped at its edge.
    pub open spec fn strafed(d: PlatformDirection, left: bool, right: bool) -> PlatformDirection {
        let after_left = if left {
            d.shifted_left()
        } else {
            d
        };
        if right {
            after_left.shifted_right()
        } else {
            after_left
        }
    }

    /// A fresh runner: grounded constants, alive, in the center lane.
    pub fn new() -> (p: Player)
        ensures
            p.speed == 20,
            p.jump_power == 10,
            p.gravity == GRAVITY_DEFAULT,
            !p.dead,
            p.platform_standing == PlatformDirection::Center,
    {
        Player {
            speed: 20,
            jump_power: 10,
            gravity: GRAVITY_DEFAULT,
            dead: false,
            platform_standing: PlatformDirection::Center,
        }
    }

    /// One physics tick. Airborne, the current gravity pulls the body down
    /// and a roll boosts gravity to cancel the jump; grounded, gravity is
    /// restored and a jump grants its impulse. Strafe edges shift the lane,
    /// clamped at the extremes, and the body always runs forward at its
    /// current speed.
    pub fn physics_step(&mut self, input: &FrameInput) -> (a: PhysicsAction)
        requires
            old(self).gravity <= u32::MAX - ROLL_GRAVITY_BOOST,
        ensures
            a.fall_gravity == if input.on_floor {
                0u32
            } else {
                old(self).gravity
            },
            a.jump_impulse == if input.jump && input.on_floor {
                old(self).jump_power
            } else {
                0u32
            },
            a.forward_speed == old(self).speed,
            final(self).gravity == if input.on_floor {
                GRAVITY_DEFAULT
            } else if input.roll {
                (old(self).gravity + ROLL_GRAVITY_BOOST) as u32
            } else {
                old(self).gravity
            },
            final(self).platform_standing == Self::strafed(
                old(self).platform_standing,
                input.left,
                input.right,
            ),
            final(self).speed == old(self).speed,
            final(self).jump_power == old(self).jump_power,
            final(self).dead == old(self).dead,
    {
        let mut fall_gravity: u32 = 0;
        let mut jump_impulse: u32 = 0;

        if !input.on_floor {
            fall_gravity = self.gravity;
        } else {
            self.gravity = GRAVITY_DEFAULT;
        }

        if input.jump && input.on_floor {
            jump_impulse = self.jump_power;
        }

        if input.roll && !input.on_floor {
            self.gravity = self.gravity + ROLL_GRAVITY_BOOST;
        }

        if input.left {
            self.platform_standing = match self.platform_standing {
                PlatformDirection::Center => PlatformDirection::Left,
                PlatformDirection::Right => PlatformDirection::Center,
                PlatformDirection::Left => PlatformDirection::Left,
            };
        }

        if input.right {
            self.platform_standing = match self.platform_standing {
                PlatformDirection::Center => PlatformDirection::Right,
                PlatformDirection::Left => PlatformDirection::Center,
                PlatformDirection::Right => PlatformDirection::Right,
            };
        }

        PhysicsAction { fall_gravity, jump_impulse, forward_speed: self.speed }
    }
}

} // verus!
