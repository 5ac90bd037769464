//! The scene abstraction and the one scene implemented so far: the overworld,
//! which owns a tile map, a tile-sheet handle and the player, accumulates
//! velocity from key presses, and turns each frame into a draw-command list.

use vstd::prelude::*;
use crate::gfx::Color;
use crate::gfx::DrawCmd;
use crate::gfx::TILE_SIZE;
use crate::gfx::draw_sprite;
use crate::gfx::fill_screen;
use crate::gfx::sheet_tile_cmd;
use crate::gfx::tile_sprite_from_sheet;
use crate::player::Player;
use crate::player::clamp_i64;
use crate::player::clamp_int;
use crate::player::player_max_x;
use crate::player::player_max_y;
use crate::player::pos_step;
use crate::player::vel_step;
use crate::texture_manager::TextureHandle;

verus! {

/// Maximum per-axis velocity.
pub const SPEED_LIMIT: i32 = 3;

/// Velocity increment per key press.
pub const ACCEL_RATE: i32 = 1;

/// A key on the keyboard, as far as this core tells them apart: the four
/// movement keys, and everything else.
#[derive(Clone, Copy, Debug, PartialEq, Eq, Structural)]
pub enum Keycode {
    W,
    A,
    S,
    D,
    Other,
}

/// A discrete event handed in by the driver's event loop. Only key presses
/// are meaningful to a scene; every other event is a no-op.
#[derive(Clone, Copy, Debug, PartialEq, Eq, Structural)]
pub enum GameEvent {
    KeyPress(Keycode),
    Other,
}

/// The velocity delta a key press contributes on the x axis.
pub open spec fn key_delta_x(k: Keycode) -> int {
    match k {
        Keycode::A => -ACCEL_RATE,
        Keycode::D => ACCEL_RATE as int,
        _ => 0,
    }
}

/// The velocity delta a key press contributes on the y axis.
pub open spec fn key_delta_y(k: Keycode) -> int {
    match k {
        Keycode::W => -ACCEL_RATE,
        Keycode::S => ACCEL_RATE as int,
        _ => 0,
    }
}

/// One axis's velocity after a key press: the delta added, then clamped into
/// `[-SPEED_LIMIT, SPEED_LIMIT]`.
pub open spec fn vel_after_delta(vel: int, delta: int) -> int {
    clamp_int(vel + delta, -SPEED_LIMIT, SPEED_LIMIT as int)
}

/// One axis's velocity after a whole sequence of deltas, accumulated
/// press by press.
pub open spec fn vel_after_deltas(vel: int, deltas: Seq<int>) -> int
    decreases deltas.len(),
{
    if deltas.len() == 0 {
        vel
    } else {
        vel_after_deltas(vel_after_delta(vel, deltas[0]), deltas.drop_first())
    }
}

/// Law: whatever sequence of velocity deltas the key presses contribute, a
/// velocity that starts within `[-SPEED_LIMIT, SPEED_LIMIT]` stays within
/// that range, on either axis.
pub proof fn lemma_velocity_stays_bounded(vel: int, deltas: Seq<int>)
    requires
        -SPEED_LIMIT <= vel <= SPEED_LIMIT as int,
    ensures
        -SPEED_LIMIT <= vel_after_deltas(vel, deltas) <= SPEED_LIMIT as int,
    decreases deltas.len(),
{
    if deltas.len() > 0 {
        lemma_velocity_stays_bounded(vel_after_delta(vel, deltas[0]), deltas.drop_first());
    }
}

/// A scene: it consumes the driver's input events and turns each frame into
/// the draw commands the driver replays against the render target.
pub trait Scene {
    fn handle_input(&mut self, event: GameEvent);

    fn render(&mut self) -> Vec<DrawCmd>;
}

/// The overworld scene: a tile map, the handle of the tile sheet it is drawn
/// from, and the player.
pub struct Overworld {
    pub tile_map: [u8; 144],
    pub tile_set: TextureHandle,
    pub player: Player,
}

impl Overworld {
    /// A fresh overworld: an all-zero tile map and the player at the origin,
    /// standing still. The two handles come from the texture cache, where the
    /// driver has already loaded the tile sheet and the player sprite.
    pub fn init(tile_set: TextureHandle, player_sprite: TextureHandle) -> (s: Overworld)
        ensures
            s.tile_set == tile_set,
            s.tile_map@ == Seq::new(144, |k: int| 0u8),
            s.player == (Player { x_pos: 0, y_pos: 0, x_vel: 0, y_vel: 0, sprite: player_sprite }),
    {
        let tile_map = [0u8; 144];
        let player = Player { x_pos: 0, y_pos: 0, x_vel: 0, y_vel: 0, sprite: player_sprite };
        proof {
            assert(tile_map@ =~= Seq::new(144, |k: int| 0u8));
        }
        Overworld { tile_map, tile_set, player }
    }

    /// Accumulate a key press into the player's velocity: W/A/S/D contribute
    /// `ACCEL_RATE` toward up/left/down/right, and the velocity on each axis
    /// is clamped into `[-SPEED_LIMIT, SPEED_LIMIT]`. Any other key, and any
    /// event that is not a key press, changes nothing; position and the rest
    /// of the scene are never touched here.
    pub fn handle_input(&mut self, event: GameEvent)
        ensures
            match event {
                GameEvent::KeyPress(k) => {
                    &&& final(self).player.x_vel == vel_after_delta(
                        old(self).player.x_vel as int,
                        key_delta_x(k),
                    )
                    &&& final(self).player.y_vel == vel_after_delta(
                        old(self).player.y_vel as int,
                        key_delta_y(k),
                    )
                    &&& -SPEED_LIMIT <= final(self).player.x_vel <= SPEED_LIMIT
                    &&& -SPEED_LIMIT <= final(self).player.y_vel <= SPEED_LIMIT
                    &&& final(self).player.x_pos == old(self).player.x_pos
                    &&& final(self).player.y_pos == old(self).player.y_pos
                    &&& final(self).player.sprite == old(self).player.sprite
                    &&& final(self).tile_map == old(self).tile_map
                    &&& final(self).tile_set == old(self).tile_set
                },
                _ => *final(self) == *old(self),
            },
    {
        match event {
            GameEvent::KeyPress(k) => {
                let mut delta_x: i32 = 0;
                let mut delta_y: i32 = 0;
                if k == Keycode::W {
                    delta_y = delta_y - ACCEL_RATE;
                }
                if k == Keycode::A {
                    delta_x = delta_x - ACCEL_RATE;
                }
                if k == Keycode::S {
                    delta_y = delta_y + ACCEL_RATE;
                }
                if k == Keycode::D {
                    delta_x = delta_x + ACCEL_RATE;
                }
                self.player.x_vel = clamp_i64(
                    self.player.x_vel as i64 + delta_x as i64,
                    -(SPEED_LIMIT as i64),
                    SPEED_LIMIT as i64,
                ) as i32;
                self.player.y_vel = clamp_i64(
                    self.player.y_vel as i64 + delta_y as i64,
                    -(SPEED_LIMIT as i64),
                    SPEED_LIMIT as i64,
                ) as i32;
            },
            _ => {},
        }
    }

    /// One frame: advance the player by the movement update, then build the
    /// frame's commands in order — clear to teal, the 4x18 grid of sea tiles
    /// blitted from the top-left corner of the tile sheet, the player sprite
    /// at its new position, and the present.
    pub fn render(&mut self) -> (cmds: Vec<DrawCmd>)
        ensures
            final(self).tile_map == old(self).tile_map,
            final(self).tile_set == old(self).tile_set,
            final(self).player.sprite == old(self).player.sprite,
            final(self).player.x_vel == vel_step(
                old(self).player.x_pos as int,
                old(self).player.x_vel as int,
                player_max_x(),
            ),
            final(self).player.y_vel == vel_step(
                old(self).player.y_pos as int,
                old(self).player.y_vel as int,
                player_max_y(),
            ),
            final(self).player.x_pos == pos_step(
                old(self).player.x_pos as int,
                old(self).player.x_vel as int,
                player_max_x(),
            ),
            final(self).player.y_pos == pos_step(
                old(self).player.y_pos as int,
                old(self).player.y_vel as int,
                player_max_y(),
            ),
            0 <= final(self).player.x_pos <= player_max_x(),
            0 <= final(self).player.y_pos <= player_max_y(),
            cmds@.len() == 75,
            cmds@[0] == (DrawCmd::FillScreen { color: Color { r: 0, g: 128, b: 128 } }),
            forall|i: int, j: int|
                0 <= i < 4 && 0 <= j < 18 ==> cmds@[1 + j * 4 + i] == sheet_tile_cmd(
                    old(self).tile_set,
                    (0i32, 0i32),
                    (200u32, 40u32),
                    (0i32, 0i32),
                    i,
                    j,
                ),
            cmds@[73] == (DrawCmd::DrawSprite {
                texture: old(self).player.sprite,
                x: final(self).player.x_pos,
                y: final(self).player.y_pos,
            }),
            cmds@[74] == DrawCmd::Present,
    {
        self.player.update_movement();
        let mut cmds: Vec<DrawCmd> = Vec::new();
        // Draw background
        cmds.push(fill_screen(Color::rgb(0, 128, 128)));
        // Draw sea tiles
        let mut tiles = tile_sprite_from_sheet(
            self.tile_set,
            (0, 0),
            (TILE_SIZE * 5, TILE_SIZE),
            (0, 0),
            (4, 18),
        );
        cmds.append(&mut tiles);
        // Draw player
        cmds.push(draw_sprite(self.player.sprite, (self.player.x_pos, self.player.y_pos)));
        cmds.push(DrawCmd::Present);
        cmds
    }
}

impl Scene for Overworld {
    fn handle_input(&mut self, event: GameEvent) {
        Overworld::handle_input(self, event)
    }

    fn render(&mut self) -> Vec<DrawCmd> {
        Overworld::render(self)
    }
}

} // verus!
