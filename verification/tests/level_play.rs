//! Tests of the level scene: validity, movement, locking, clearing, scoring.

use tetris_core::GridPos;
use tetris_core::Scene;
use tetris_core::draw::Canvas;
use tetris_core::input::Key;
use tetris_core::level_scene::{LevelScene, Player};
use tetris_core::piece::{Offset, Tetramino, template_piece};

/// The straight piece lying flat: at position `(px, py)` its blocks cover
/// the cells `(px, py + 1)` through `(px + 3, py + 1)`.
fn flat_i() -> Tetramino {
    template_piece(4)
}

/// The straight piece upright: at position `(px, py)` its blocks cover the
/// cells `(px + 1, py - 1)` through `(px + 1, py + 2)`.
fn upright_i() -> Tetramino {
    template_piece(4).rotated()
}

fn place(scene: &mut LevelScene, piece: Tetramino, x: i16, y: i16) {
    scene.set_player(Player::new(piece, GridPos::new(x, y)));
}

/// Stages a piece at rest and locks it with a hard drop (zero cells fall).
fn drop_at(scene: &mut LevelScene, piece: Tetramino, x: i16, y: i16) {
    place(scene, piece, x, y);
    scene.key_down(Key::Space);
}

#[test]
fn validity_false_exactly_outside_walls_floor_or_occupied() {
    let mut scene = LevelScene::new();
    assert!(scene.is_valid_player_position(GridPos::new(0, 0)));
    assert!(scene.is_valid_player_position(GridPos::new(9, 0)));
    assert!(!scene.is_valid_player_position(GridPos::new(-1, 0)));
    assert!(!scene.is_valid_player_position(GridPos::new(10, 0)));
    assert!(!scene.is_valid_player_position(GridPos::new(0, -1)));
    // No upper bound on y: the board grows upward as needed.
    assert!(scene.is_valid_player_position(GridPos::new(0, 1000)));
    // Occupy the cells (0..4, 0); they become invalid, their neighbors not.
    drop_at(&mut scene, flat_i(), 0, -1);
    assert!(!scene.is_valid_player_position(GridPos::new(0, 0)));
    assert!(!scene.is_valid_player_position(GridPos::new(3, 0)));
    assert!(scene.is_valid_player_position(GridPos::new(4, 0)));
    assert!(scene.is_valid_player_position(GridPos::new(0, 1)));
}

#[test]
fn offsets_floor_toward_negative_infinity() {
    // The upright piece's lowest block sits a quarter cell below its
    // origin row: at py = 0 that block floors to row -1, so the position
    // is invalid.  Truncation toward zero would wrongly allow it.
    let mut scene = LevelScene::new();
    place(&mut scene, upright_i(), 0, 1);
    assert!(!scene.translate_player(GridPos::new(0, -1)));
    let py = scene.player().position.y;
    assert_eq!(py, 1);
}

#[test]
fn translate_fails_exactly_at_rest() {
    let mut scene = LevelScene::new();
    place(&mut scene, flat_i(), 0, 1);
    assert!(scene.translate_player(GridPos::new(0, -1)));
    assert!(scene.translate_player(GridPos::new(0, -1)));
    // Now at py = -1, blocks on row 0: resting on the floor.
    assert!(!scene.translate_player(GridPos::new(0, -1)));
    assert_eq!(scene.player().position.y, -1);
    // Sideways stays possible on the floor.
    assert!(scene.translate_player(GridPos::new(1, 0)));
    assert!(scene.translate_player(GridPos::new(-1, 0)));
    // Against the left wall the piece refuses to move further left.
    while scene.translate_player(GridPos::new(-1, 0)) {}
    assert_eq!(scene.player().position.x, 0);
    assert!(!scene.translate_player(GridPos::new(-1, 0)));
}

#[test]
fn update_locks_exactly_when_the_piece_rests() {
    let mut scene = LevelScene::new();
    let mut canvas = Canvas::new();
    place(&mut scene, flat_i(), 0, 0);
    // One full drop interval: the piece can still fall, so it only moves.
    let s = scene.update(&mut canvas, 1_000_000);
    assert_eq!(s, Scene::LevelScene);
    assert_eq!(scene.player().position.y, -1);
    assert_eq!(scene.board().row_count(), 0);
    // Next interval: it rests on the floor, so update locks it.
    place(&mut scene, flat_i(), 0, -1);
    scene.update(&mut canvas, 1_000_000);
    assert_eq!(scene.board().row_count(), 1);
    assert!(!scene.lost());
}

#[test]
fn update_accumulates_time_before_a_gravity_step() {
    let mut scene = LevelScene::new();
    let mut canvas = Canvas::new();
    place(&mut scene, flat_i(), 0, 5);
    scene.update(&mut canvas, 999_999);
    assert_eq!(scene.player().position.y, 5);
    // The surplus is kept, not reset: one more microsecond triggers a step.
    scene.update(&mut canvas, 1);
    assert_eq!(scene.player().position.y, 4);
}

#[test]
fn a_long_stall_runs_one_gravity_step_per_interval() {
    let mut scene = LevelScene::new();
    let mut canvas = Canvas::new();
    place(&mut scene, flat_i(), 0, 5);
    // One tick covering two and a half drop intervals: two single-cell
    // steps, each validated at its own moment, and the surplus kept.
    scene.update(&mut canvas, 2_500_000);
    assert_eq!(scene.player().position.y, 3);
    assert_eq!(scene.board().row_count(), 0);
    // A stalled tick cannot let a piece skip through the floor: from rest
    // height 2 it falls twice, rests, locks, and the next piece takes over.
    place(&mut scene, flat_i(), 0, 1);
    scene.update(&mut canvas, 3_500_000);
    assert_eq!(scene.board().row_count(), 1);
}

#[test]
fn locking_below_the_height_never_raises_the_loss_flag() {
    let mut scene = LevelScene::new();
    place(&mut scene, flat_i(), 0, 18);
    // Blocks on row 19: the tallest row still inside the playable height.
    scene.add_player_to_stack();
    assert!(!scene.lost());
    assert_eq!(scene.board().row_count(), 20);
}

#[test]
fn locking_at_the_height_always_raises_the_loss_flag() {
    let mut scene = LevelScene::new();
    place(&mut scene, flat_i(), 0, 19);
    // Blocks on row 20: at the playable height, a loss.
    scene.add_player_to_stack();
    assert!(scene.lost());
    assert_eq!(scene.board().row_count(), 0);
    assert_eq!(scene.score(), 0);
}

#[test]
fn consumed_loss_switches_to_the_home_scene_once() {
    let mut scene = LevelScene::new();
    let mut canvas = Canvas::new();
    place(&mut scene, flat_i(), 0, 19);
    scene.add_player_to_stack();
    assert!(scene.lost());
    let s = scene.update(&mut canvas, 0);
    assert_eq!(s, Scene::HomeScene);
    assert!(!scene.lost());
    assert_eq!(canvas.len(), 0);
    let s2 = scene.update(&mut canvas, 0);
    assert_eq!(s2, Scene::LevelScene);
}

#[test]
fn hard_drop_scores_two_points_per_cell_fallen() {
    let mut scene = LevelScene::new();
    place(&mut scene, flat_i(), 0, 9);
    // Rest position is py = -1: ten cells fall, twenty points.
    scene.key_down(Key::Space);
    assert_eq!(scene.score(), 20);
    assert_eq!(scene.board().row_count(), 1);
}

#[test]
fn ten_staged_drops_fill_exactly_one_row_and_clear_it() {
    let mut scene = LevelScene::new();
    // Row 0: columns 0..8.
    drop_at(&mut scene, flat_i(), 0, -1);
    drop_at(&mut scene, flat_i(), 4, -1);
    // Row 1: columns 6..10, then 2..6.
    drop_at(&mut scene, flat_i(), 6, 0);
    drop_at(&mut scene, flat_i(), 2, 0);
    // Column 0, rows 1..5.
    drop_at(&mut scene, upright_i(), -1, 2);
    // Column 9 and column 8, rows 2..6.
    drop_at(&mut scene, upright_i(), 8, 3);
    drop_at(&mut scene, upright_i(), 7, 3);
    // Row 2: columns 4..8.
    drop_at(&mut scene, flat_i(), 4, 1);
    // Column 9, rows 6..10.
    drop_at(&mut scene, upright_i(), 8, 7);
    assert_eq!(scene.board().row_count(), 10);
    assert_eq!(scene.score(), 0);
    // Column 1, rows 1..5: completes row 1 and nothing else.
    drop_at(&mut scene, upright_i(), 0, 2);
    assert_eq!(scene.score(), 100);
    assert_eq!(scene.board().row_count(), 9);
    assert!(!scene.lost());
    // The rows above the cleared one shifted down by one index: the old
    // row 2 (columns 0, 1, 4..10) is the new row 1, and row 0 is untouched.
    assert!(scene.board().cell(GridPos::new(0, 0)).is_some());
    assert!(scene.board().cell(GridPos::new(8, 0)).is_none());
    assert!(scene.board().cell(GridPos::new(0, 1)).is_some());
    assert!(scene.board().cell(GridPos::new(4, 1)).is_some());
    assert!(scene.board().cell(GridPos::new(2, 1)).is_none());
    assert!(scene.board().cell(GridPos::new(3, 1)).is_none());
}

#[test]
fn restart_key_clears_board_and_score_without_a_loss() {
    let mut scene = LevelScene::new();
    drop_at(&mut scene, flat_i(), 0, 9);
    assert!(scene.board().row_count() > 0);
    scene.key_down(Key::R);
    assert_eq!(scene.board().row_count(), 0);
    assert_eq!(scene.score(), 0);
    assert!(!scene.lost());
    assert_eq!(scene.player().position, GridPos::new(3, 19));
}

#[test]
fn arrow_keys_shift_and_free_rise_lifts() {
    let mut scene = LevelScene::new();
    place(&mut scene, flat_i(), 3, 5);
    scene.key_down(Key::Right);
    assert_eq!(scene.player().position, GridPos::new(4, 5));
    scene.key_down(Key::Left);
    assert_eq!(scene.player().position, GridPos::new(3, 5));
    scene.key_down(Key::Down);
    assert_eq!(scene.player().position, GridPos::new(3, 4));
    scene.key_down(Key::W);
    assert_eq!(scene.player().position, GridPos::new(3, 5));
    scene.key_down(Key::Escape);
    assert_eq!(scene.player().position, GridPos::new(3, 5));
}

#[test]
fn rotation_key_is_all_or_nothing_and_cycles_in_four() {
    let mut scene = LevelScene::new();
    place(&mut scene, flat_i(), 3, 10);
    let before = scene.player().tetramino.block_positions;
    scene.key_down(Key::Up);
    let once = scene.player().tetramino.block_positions;
    assert_ne!(before, once);
    scene.key_down(Key::Up);
    scene.key_down(Key::Up);
    scene.key_down(Key::Up);
    assert_eq!(scene.player().tetramino.block_positions, before);
    // Against the left wall the upright piece still fits, but flat at
    // x = -1 a rotation back would leave the walls: stage the flat piece
    // partly outside instead and watch the rotation being refused.
    place(&mut scene, upright_i(), -1, 2);
    let pinned = scene.player().tetramino.block_positions;
    scene.key_down(Key::Up);
    // Rotating the upright piece at x = -1 would need cells at column -1.
    assert_eq!(scene.player().tetramino.block_positions, pinned);
}

#[test]
fn blocked_rotation_leaves_offsets_unchanged() {
    let mut scene = LevelScene::new();
    // Fill rows 0 and 1 at columns 0..4 to pin a flat piece at (0, 1).
    drop_at(&mut scene, flat_i(), 0, -1);
    drop_at(&mut scene, flat_i(), 4, -1);
    drop_at(&mut scene, flat_i(), 6, 0);
    place(&mut scene, flat_i(), 5, 1);
    let before = scene.player().tetramino.block_positions;
    // Rotating would put blocks into occupied cells of row 1.
    scene.rotate_player();
    assert_eq!(scene.player().tetramino.block_positions, before);
}

#[test]
fn lock_replaces_the_player_with_a_spawned_piece() {
    let mut scene = LevelScene::new();
    place(&mut scene, flat_i(), 0, -1);
    scene.add_player_to_stack();
    assert_eq!(scene.player().position, GridPos::new(3, 19));
}

#[test]
fn first_update_draws_the_whole_scene() {
    let mut scene = LevelScene::new();
    let mut canvas = Canvas::new();
    scene.update(&mut canvas, 0);
    // 200 background squares, no stack blocks, 2 text lines, 3 previewed
    // pieces of 4 squares, 4 squares of the falling piece.
    assert_eq!(canvas.len(), 218);
    let requests = canvas.take_requests();
    assert_eq!(requests.len(), 218);
    assert_eq!(canvas.len(), 0);
}

#[test]
fn rotation_example_matches_the_fixed_center_formula() {
    // The flat straight piece has centroid (1.75, 1.25) in cells; rotating
    // b = (0.25, 1.25) about it gives (1.75, -0.25), which floors to cell
    // (1, -1).
    let r = upright_i();
    assert_eq!(r.block_positions.0, Offset { x: 7, y: -1 });
}
