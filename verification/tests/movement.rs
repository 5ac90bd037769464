use card_rpg::player::Player;
use card_rpg::texture_manager::TextureHandle;

fn player_at(x: i32, y: i32, vx: i32, vy: i32) -> Player {
    Player { x_pos: x, y_pos: y, x_vel: vx, y_vel: vy, sprite: TextureHandle { id: 0 } }
}

#[test]
fn plain_move_adds_velocity() {
    let mut p = player_at(100, 200, 3, -2);
    p.update_movement();
    assert_eq!(p.x_pos, 103);
    assert_eq!(p.y_pos, 198);
    assert_eq!(p.x_vel, 3);
    assert_eq!(p.y_vel, -2);
}

#[test]
fn wall_zeroes_velocity_and_clamps() {
    // x axis would pass the right bound CAM_W - 4 * TILE_SIZE = 1120.
    let mut p = player_at(1119, 50, 3, 1);
    p.update_movement();
    assert_eq!(p.x_vel, 0);
    assert_eq!(p.x_pos, 1119);
    // The y axis is untouched by the x wall.
    assert_eq!(p.y_vel, 1);
    assert_eq!(p.y_pos, 51);
}

#[test]
fn wall_stop_is_per_axis() {
    // y axis would fall below 0; x moves on.
    let mut p = player_at(10, 0, 2, -1);
    p.update_movement();
    assert_eq!(p.x_vel, 2);
    assert_eq!(p.x_pos, 12);
    assert_eq!(p.y_vel, 0);
    assert_eq!(p.y_pos, 0);
}

#[test]
fn at_bound_with_velocity_stays_put() {
    let mut p = player_at(1120, 560, 1, 1);
    p.update_movement();
    assert_eq!(p.x_vel, 0);
    assert_eq!(p.y_vel, 0);
    assert_eq!(p.x_pos, 1120);
    assert_eq!(p.y_pos, 560);
}

#[test]
fn out_of_bounds_start_is_clamped_back() {
    // Even a position already outside the camera ends inside it.
    let mut p = player_at(-50, 9999, 0, 0);
    p.update_movement();
    assert!(p.x_pos >= 0 && p.x_pos <= 1120);
    assert!(p.y_pos >= 0 && p.y_pos <= 560);
    assert_eq!(p.x_pos, 0);
    assert_eq!(p.y_pos, 560);
}

#[test]
fn position_stays_in_bounds_for_many_starts() {
    let starts = [-10_000, -1, 0, 1, 559, 560, 561, 1119, 1120, 1121, 10_000];
    let vels = [-5, -3, 0, 3, 5];
    for &x in &starts {
        for &y in &starts {
            for &vx in &vels {
                for &vy in &vels {
                    let mut p = player_at(x, y, vx, vy);
                    p.update_movement();
                    assert!(p.x_pos >= 0 && p.x_pos <= 1120);
                    assert!(p.y_pos >= 0 && p.y_pos <= 560);
                }
            }
        }
    }
}

#[test]
fn sprite_handle_survives_update() {
    let mut p = Player { x_pos: 5, y_pos: 5, x_vel: 1, y_vel: 1, sprite: TextureHandle { id: 7 } };
    p.update_movement();
    assert_eq!(p.sprite, TextureHandle { id: 7 });
}
