use card_rpg::gfx::{Color, DrawCmd, Rect};
use card_rpg::player::Player;
use card_rpg::scenes::{GameEvent, Keycode, Overworld, Scene};
use card_rpg::texture_manager::TextureHandle;

fn fresh_overworld() -> Overworld {
    Overworld::init(TextureHandle { id: 0 }, TextureHandle { id: 1 })
}

#[test]
fn init_starts_at_origin_with_zero_tile_map() {
    let ow = fresh_overworld();
    assert_eq!(ow.player.x_pos, 0);
    assert_eq!(ow.player.y_pos, 0);
    assert_eq!(ow.player.x_vel, 0);
    assert_eq!(ow.player.y_vel, 0);
    assert_eq!(ow.tile_set, TextureHandle { id: 0 });
    assert_eq!(ow.player.sprite, TextureHandle { id: 1 });
    assert_eq!(ow.tile_map.len(), 144);
    assert!(ow.tile_map.iter().all(|&t| t == 0));
}

#[test]
fn key_press_d_then_render_tick() {
    // Player at (0,0) with velocity (0,0); KeyPress(D) then one render tick.
    let mut ow = fresh_overworld();
    ow.handle_input(GameEvent::KeyPress(Keycode::D));
    assert_eq!(ow.player.x_vel, 1);
    assert_eq!(ow.player.y_vel, 0);
    let cmds = ow.render();
    assert_eq!(ow.player.x_pos, 1);
    assert_eq!(ow.player.y_pos, 0);
    // The sprite is drawn at the new position.
    assert_eq!(
        cmds[73],
        DrawCmd::DrawSprite { texture: TextureHandle { id: 1 }, x: 1, y: 0 }
    );
}

#[test]
fn render_tick_at_right_bound_stops_the_player() {
    // Player at (CAM_W - 4 * TILE_SIZE, 0) = (1120, 0) with velocity (3, 0);
    // one render tick with no new input.
    let mut ow = fresh_overworld();
    ow.player = Player { x_pos: 1120, y_pos: 0, x_vel: 3, y_vel: 0, sprite: ow.player.sprite };
    ow.render();
    assert_eq!(ow.player.x_vel, 0);
    assert_eq!(ow.player.y_vel, 0);
    assert_eq!(ow.player.x_pos, 1120);
    assert_eq!(ow.player.y_pos, 0);
}

#[test]
fn each_movement_key_accumulates_its_axis() {
    let mut ow = fresh_overworld();
    ow.handle_input(GameEvent::KeyPress(Keycode::S));
    assert_eq!((ow.player.x_vel, ow.player.y_vel), (0, 1));
    ow.handle_input(GameEvent::KeyPress(Keycode::W));
    assert_eq!((ow.player.x_vel, ow.player.y_vel), (0, 0));
    ow.handle_input(GameEvent::KeyPress(Keycode::A));
    assert_eq!((ow.player.x_vel, ow.player.y_vel), (-1, 0));
    ow.handle_input(GameEvent::KeyPress(Keycode::D));
    assert_eq!((ow.player.x_vel, ow.player.y_vel), (0, 0));
}

#[test]
fn velocity_is_clamped_at_speed_limit() {
    let mut ow = fresh_overworld();
    for _ in 0..10 {
        ow.handle_input(GameEvent::KeyPress(Keycode::D));
    }
    assert_eq!(ow.player.x_vel, 3);
    for _ in 0..10 {
        ow.handle_input(GameEvent::KeyPress(Keycode::A));
    }
    assert_eq!(ow.player.x_vel, -3);
    for _ in 0..20 {
        ow.handle_input(GameEvent::KeyPress(Keycode::W));
    }
    assert_eq!(ow.player.y_vel, -3);
    assert_eq!(ow.player.x_pos, 0);
    assert_eq!(ow.player.y_pos, 0);
}

#[test]
fn unrecognized_key_and_other_events_are_no_ops() {
    let mut ow = fresh_overworld();
    ow.handle_input(GameEvent::KeyPress(Keycode::D));
    ow.handle_input(GameEvent::KeyPress(Keycode::Other));
    assert_eq!((ow.player.x_vel, ow.player.y_vel), (1, 0));
    ow.handle_input(GameEvent::Other);
    assert_eq!((ow.player.x_vel, ow.player.y_vel), (1, 0));
    assert_eq!((ow.player.x_pos, ow.player.y_pos), (0, 0));
}

#[test]
fn frame_is_fill_tiles_sprite_present() {
    let mut ow = fresh_overworld();
    let cmds = ow.render();
    assert_eq!(cmds.len(), 75);
    assert_eq!(cmds[0], DrawCmd::FillScreen { color: Color { r: 0, g: 128, b: 128 } });
    for k in 1..73 {
        match cmds[k] {
            DrawCmd::Blit { texture, src, .. } => {
                assert_eq!(texture, TextureHandle { id: 0 });
                assert_eq!(src, Rect { x: 0, y: 0, w: 200, h: 40 });
            }
            ref other => panic!("expected a tile blit, got {:?}", other),
        }
    }
    assert_eq!(
        cmds[73],
        DrawCmd::DrawSprite { texture: TextureHandle { id: 1 }, x: 0, y: 0 }
    );
    assert_eq!(cmds[74], DrawCmd::Present);
}

#[test]
fn scene_trait_drives_the_overworld() {
    let mut ow = fresh_overworld();
    let scene: &mut dyn Scene = &mut ow;
    scene.handle_input(GameEvent::KeyPress(Keycode::S));
    let cmds = scene.render();
    assert_eq!(cmds.len(), 75);
    assert_eq!(ow.player.y_pos, 1);
}
