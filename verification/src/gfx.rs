//! Graphics primitives as data: each primitive builds the draw command it
//! stands for, and a driver replays the commands against a real render
//! target. The camera constants that bound the visible area live here too.

use vstd::prelude::*;
use vstd::arithmetic::mul::lemma_mul_inequality;
use vstd::arithmetic::mul::lemma_mul_nonnegative;
use crate::texture_manager::TextureHandle;

verus! {

/// Camera viewport width in pixels.
pub const CAM_W: u32 = 1280;

/// Camera viewport height in pixels.
pub const CAM_H: u32 = 720;

/// Base pixel dimension of one tile before 4x scaling.
pub const TILE_SIZE: u32 = 40;

/// A solid color, as red/green/blue channels.
#[derive(Clone, Copy, Debug, PartialEq, Eq, Structural)]
pub struct Color {
    pub r: u8,
    pub g: u8,
    pub b: u8,
}

impl Color {
    pub fn rgb(r: u8, g: u8, b: u8) -> (c: Color)
        ensures
            c == (Color { r, g, b }),
    {
        Color { r, g, b }
    }
}

/// A pixel rectangle: top-left corner, width and height.
#[derive(Clone, Copy, Debug, PartialEq, Eq, Structural)]
pub struct Rect {
    pub x: i32,
    pub y: i32,
    pub w: u32,
    pub h: u32,
}

/// One command against the render target. A frame is a sequence of these,
/// replayed in order by the driver that owns the target.
#[derive(Clone, Copy, Debug, PartialEq, Eq, Structural)]
pub enum DrawCmd {
    /// Clear the whole drawable area to a solid color.
    FillScreen { color: Color },
    /// Copy the `src` rectangle of a texture to the `dst` rectangle.
    Blit { texture: TextureHandle, src: Rect, dst: Rect },
    /// Copy a full texture, unscaled, with its top-left corner at (x, y).
    DrawSprite { texture: TextureHandle, x: i32, y: i32 },
    /// Present the completed frame to the display.
    Present,
}

/// Raised when the render target rejects a draw or present operation.
#[derive(Clone, Debug, PartialEq, Eq)]
pub struct RenderError {
    pub message: String,
}

/// Clear the drawable area to `color`.
pub fn fill_screen(color: Color) -> (c: DrawCmd)
    ensures
        c == (DrawCmd::FillScreen { color }),
{
    DrawCmd::FillScreen { color }
}

/// Blit the full `texture` at the top-left screen coordinate `pos`, unscaled.
pub fn draw_sprite(texture: TextureHandle, pos: (i32, i32)) -> (c: DrawCmd)
    ensures
        c == (DrawCmd::DrawSprite { texture, x: pos.0, y: pos.1 }),
{
    DrawCmd::DrawSprite { texture, x: pos.0, y: pos.1 }
}

/// The blit for grid cell (column `i`, row `j`) of a sheet tiling: it always
/// reads the same source rectangle of the sheet, `tile_size` at
/// `sheet_origin`, and writes the cell of the screen grid that starts at
/// `screen_origin`.
pub open spec fn sheet_tile_cmd(
    texture: TextureHandle,
    sheet_origin: (i32, i32),
    tile_size: (u32, u32),
    screen_origin: (i32, i32),
    i: int,
    j: int,
) -> DrawCmd {
    DrawCmd::Blit {
        texture,
        src: Rect { x: sheet_origin.0, y: sheet_origin.1, w: tile_size.0, h: tile_size.1 },
        dst: Rect {
            x: (screen_origin.0 + i * tile_size.0) as i32,
            y: (screen_origin.1 + j * tile_size.1) as i32,
            w: tile_size.0,
            h: tile_size.1,
        },
    }
}

/// An `i64` that holds an `i32`-ranged value casts to `i32` exactly as the
/// value itself does.
proof fn lemma_i64_cast_i32(a: i64, v: int)
    requires
        a == v,
        i32::MIN <= v <= i32::MAX,
    ensures
        a as i32 == v as i32,
{
}

/// In a row-major grid of `nx` columns, every cell of an earlier row comes
/// before the first cell of row `j`.
proof fn lemma_row_index_lt(i2: int, j2: int, nx: int, j: int)
    requires
        0 <= i2 < nx,
        0 <= j2 < j,
    ensures
        j2 * nx + i2 < j * nx,
{
    assert(j2 * nx + i2 < j * nx) by (nonlinear_arith)
        requires
            0 <= i2 < nx,
            0 <= j2 < j,
    ;
}

/// Repeat the `tile_size` sub-rectangle of a sprite sheet found at
/// `sheet_origin` across a grid of `tile_counts.0 x tile_counts.1` screen
/// cells starting at `screen_origin`: one blit per cell, row-major, every
/// blit reading the same source rectangle, with no regard to how much of the
/// grid the target can show.
pub fn tile_sprite_from_sheet(
    texture: TextureHandle,
    sheet_origin: (i32, i32),
    tile_size: (u32, u32),
    screen_origin: (i32, i32),
    tile_counts: (u32, u32),
) -> (cmds: Vec<DrawCmd>)
    requires
        screen_origin.0 + tile_counts.0 * tile_size.0 <= i32::MAX,
        screen_origin.1 + tile_counts.1 * tile_size.1 <= i32::MAX,
    ensures
        cmds@.len() == tile_counts.0 * tile_counts.1,
        forall|i: int, j: int|
            0 <= i < tile_counts.0 && 0 <= j < tile_counts.1 ==> cmds@[j * tile_counts.0 + i]
                == sheet_tile_cmd(texture, sheet_origin, tile_size, screen_origin, i, j),
{
    let nx: u32 = tile_counts.0;
    let ny: u32 = tile_counts.1;
    let w: u32 = tile_size.0;
    let h: u32 = tile_size.1;
    let mut cmds: Vec<DrawCmd> = Vec::new();
    let mut j: u32 = 0;
    while j < ny
        invariant
            nx == tile_counts.0,
            ny == tile_counts.1,
            w == tile_size.0,
            h == tile_size.1,
            j <= ny,
            cmds@.len() == j * nx,
            forall|i2: int, j2: int|
                0 <= i2 < nx && 0 <= j2 < j ==> cmds@[j2 * nx + i2] == sheet_tile_cmd(
                    texture,
                    sheet_origin,
                    tile_size,
                    screen_origin,
                    i2,
                    j2,
                ),
            screen_origin.0 + nx * w <= i32::MAX,
            screen_origin.1 + ny * h <= i32::MAX,
        decreases ny - j,
    {
        let mut i: u32 = 0;
        while i < nx
            invariant
                nx == tile_counts.0,
                ny == tile_counts.1,
                w == tile_size.0,
                h == tile_size.1,
                i <= nx,
                j < ny,
                cmds@.len() == j * nx + i,
                forall|i2: int, j2: int|
                    0 <= i2 < nx && 0 <= j2 < j ==> cmds@[j2 * nx + i2] == sheet_tile_cmd(
                        texture,
                        sheet_origin,
                        tile_size,
                        screen_origin,
                        i2,
                        j2,
                    ),
                forall|i2: int|
                    0 <= i2 < i ==> cmds@[j * nx + i2] == sheet_tile_cmd(
                        texture,
                        sheet_origin,
                        tile_size,
                        screen_origin,
                        i2,
                        j as int,
                    ),
                screen_origin.0 + nx * w <= i32::MAX,
                screen_origin.1 + ny * h <= i32::MAX,
            decreases nx - i,
        {
            proof {
                // The cell's corner stays within i32: its offsets are between
                // 0 and the whole grid's extent, which the caller bounds.
                lemma_mul_nonnegative(i as int, w as int);
                lemma_mul_nonnegative(j as int, h as int);
                lemma_mul_inequality(i as int, nx as int, w as int);
                lemma_mul_inequality(j as int, ny as int, h as int);
            }
            let dst_x: i64 = screen_origin.0 as i64 + i as i64 * w as i64;
            let dst_y: i64 = screen_origin.1 as i64 + j as i64 * h as i64;
            let cmd = DrawCmd::Blit {
                texture,
                src: Rect { x: sheet_origin.0, y: sheet_origin.1, w, h },
                dst: Rect { x: dst_x as i32, y: dst_y as i32, w, h },
            };
            cmds.push(cmd);
            proof {
                // The new command sits at index j * nx + i and is exactly the
                // cell's blit; the casts to i32 lose nothing in range.
                lemma_i64_cast_i32(dst_x, screen_origin.0 + i * tile_size.0);
                lemma_i64_cast_i32(dst_y, screen_origin.1 + j * tile_size.1);
                assert(cmd == sheet_tile_cmd(
                    texture,
                    sheet_origin,
                    tile_size,
                    screen_origin,
                    i as int,
                    j as int,
                ));
                assert forall|i2: int, j2: int| 0 <= i2 < nx && 0 <= j2 < j implies cmds@[j2 * nx
                    + i2] == sheet_tile_cmd(
                    texture,
                    sheet_origin,
                    tile_size,
                    screen_origin,
                    i2,
                    j2,
                ) by {
                    lemma_row_index_lt(i2, j2, nx as int, j as int);
                }
            }
            i += 1;
        }
        proof {
            assert((j + 1) * (nx as int) == j * nx + nx) by (nonlinear_arith);
        }
        j += 1;
    }
    proof {
        assert(ny * (nx as int) == nx * ny) by (nonlinear_arith);
    }
    cmds
}

} // verus!
