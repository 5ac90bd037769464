//! The player entity and its per-frame movement update.
//!
//! Position and velocity are signed integers; the camera bounds the player to
//! `[0, CAM_W - 4 * TILE_SIZE]` by `[0, CAM_H - 4 * TILE_SIZE]` (the sprite is
//! a tile scaled 4x). Each update first zeroes the velocity on an axis where
//! the next position would leave bounds, then clamps the new position as a
//! hard safety net.

use vstd::prelude::*;
use crate::gfx::CAM_H;
use crate::gfx::CAM_W;
use crate::gfx::TILE_SIZE;
use crate::texture_manager::TextureHandle;

verus! {

/// `v` clamped into `[lo, hi]`.
pub open spec fn clamp_int(v: int, lo: int, hi: int) -> int {
    if v < lo {
        lo
    } else if v > hi {
        hi
    } else {
        v
    }
}

/// Largest x position the player may occupy.
pub open spec fn player_max_x() -> int {
    CAM_W - 4 * TILE_SIZE
}

/// Largest y position the player may occupy.
pub open spec fn player_max_y() -> int {
    CAM_H - 4 * TILE_SIZE
}

/// The velocity one axis keeps for this update: zero the instant the next
/// position would leave `[0, bound]`, unchanged otherwise.
pub open spec fn vel_step(pos: int, vel: int, bound: int) -> int {
    if pos + vel > bound || pos + vel < 0 {
        0
    } else {
        vel
    }
}

/// The position one axis ends the update at: the kept velocity applied, then
/// clamped into `[0, bound]`.
pub open spec fn pos_step(pos: int, vel: int, bound: int) -> int {
    clamp_int(pos + vel_step(pos, vel, bound), 0, bound)
}

/// `v` clamped into `[lo, hi]`.
pub fn clamp_i64(v: i64, lo: i64, hi: i64) -> (r: i64)
    requires
        lo <= hi,
    ensures
        r == clamp_int(v as int, lo as int, hi as int),
{
    if v < lo {
        lo
    } else if v > hi {
        hi
    } else {
        v
    }
}

/// The player: a camera-bounded position, a velocity on each axis, and the
/// sprite drawn at the position.
#[derive(Clone, Copy, Debug, PartialEq, Eq, Structural)]
pub struct Player {
    pub x_pos: i32,
    pub y_pos: i32,
    pub x_vel: i32,
    pub y_vel: i32,
    pub sprite: TextureHandle,
}

impl Player {
    /// Advance the position by the velocity, bounded by the camera. On each
    /// axis independently: if the next position would leave the bounds, the
    /// velocity is zeroed for this update (next frame's input may set it
    /// again); the position then moves by the kept velocity and is clamped
    /// into bounds, never beyond them.
    pub fn update_movement(&mut self)
        ensures
            final(self).x_vel == vel_step(old(self).x_pos as int, old(self).x_vel as int, player_max_x()),
            final(self).y_vel == vel_step(old(self).y_pos as int, old(self).y_vel as int, player_max_y()),
            final(self).x_pos == pos_step(old(self).x_pos as int, old(self).x_vel as int, player_max_x()),
            final(self).y_pos == pos_step(old(self).y_pos as int, old(self).y_vel as int, player_max_y()),
            0 <= final(self).x_pos <= player_max_x(),
            0 <= final(self).y_pos <= player_max_y(),
            old(self).x_pos + old(self).x_vel > player_max_x() || old(self).x_pos + old(self).x_vel
                < 0 ==> final(self).x_vel == 0,
            old(self).y_pos + old(self).y_vel > player_max_y() || old(self).y_pos + old(self).y_vel
                < 0 ==> final(self).y_vel == 0,
            final(self).sprite == old(self).sprite,
    {
        let max_x: i64 = CAM_W as i64 - TILE_SIZE as i64 * 4;
        let max_y: i64 = CAM_H as i64 - TILE_SIZE as i64 * 4;
        // Check whether the player would go beyond the bounds of the camera;
        // if so, zero the velocity on that axis.
        let next_x: i64 = self.x_pos as i64 + self.x_vel as i64;
        if next_x > max_x || next_x < 0 {
            self.x_vel = 0;
        }
        let next_y: i64 = self.y_pos as i64 + self.y_vel as i64;
        if next_y > max_y || next_y < 0 {
            self.y_vel = 0;
        }
        // Add velocity to position, clamped so the bounds are never exceeded.
        // 4 * TILE_SIZE because the sprite is a tile scaled 4x.
        self.x_pos = clamp_i64(self.x_pos as i64 + self.x_vel as i64, 0, max_x) as i32;
        self.y_pos = clamp_i64(self.y_pos as i64 + self.y_vel as i64, 0, max_y) as i32;
    }
}

} // verus!
