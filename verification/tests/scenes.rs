//! Tests of the scene manager and the home screen.

use tetris_core::Scene;
use tetris_core::draw::{Canvas, DrawRequest, TextContent};
use tetris_core::home_scene::HomeScene;
use tetris_core::input::Key;
use tetris_core::scene::GameState;
use tetris_core::vector2::Vector2;

#[test]
fn game_starts_on_the_home_scene() {
    let game = GameState::new();
    assert_eq!(game.scene(), Scene::HomeScene);
    assert_eq!(game.level().score(), 0);
}

#[test]
fn click_inside_the_button_enters_the_level() {
    let mut game = GameState::new();
    game.on_click(Vector2::new(0, 0));
    assert_eq!(game.scene(), Scene::LevelScene);
}

#[test]
fn click_outside_the_button_stays_home() {
    let mut game = GameState::new();
    game.on_click(Vector2::new(200, 0));
    assert_eq!(game.scene(), Scene::HomeScene);
    game.on_click(Vector2::new(0, -100));
    assert_eq!(game.scene(), Scene::HomeScene);
}

#[test]
fn click_on_the_button_edge_stays_home() {
    // Containment is strict: the edges x = 20 and y = 7.5 world units
    // (80 and 30 quarters) do not count as inside.
    let mut game = GameState::new();
    game.on_click(Vector2::new(80, 0));
    assert_eq!(game.scene(), Scene::HomeScene);
    game.on_click(Vector2::new(0, 30));
    assert_eq!(game.scene(), Scene::HomeScene);
    game.on_click(Vector2::new(79, 29));
    assert_eq!(game.scene(), Scene::LevelScene);
}

#[test]
fn clicks_inside_the_level_do_nothing() {
    let mut game = GameState::new();
    game.key_down(Key::Key2);
    assert_eq!(game.scene(), Scene::LevelScene);
    game.on_click(Vector2::new(0, 0));
    assert_eq!(game.scene(), Scene::LevelScene);
}

#[test]
fn digit_keys_select_a_scene_directly() {
    let mut game = GameState::new();
    game.key_down(Key::Key2);
    assert_eq!(game.scene(), Scene::LevelScene);
    game.key_down(Key::Key1);
    assert_eq!(game.scene(), Scene::HomeScene);
    game.key_down(Key::Escape);
    assert_eq!(game.scene(), Scene::HomeScene);
}

#[test]
fn level_state_survives_a_visit_to_the_home_scene() {
    let mut game = GameState::new();
    game.key_down(Key::Key2);
    game.key_down(Key::Space);
    let score = game.level().score();
    assert!(score > 0);
    game.key_down(Key::Key1);
    assert_eq!(game.scene(), Scene::HomeScene);
    game.key_down(Key::Key2);
    assert_eq!(game.level().score(), score);
}

#[test]
fn home_update_draws_title_button_and_label() {
    let mut game = GameState::new();
    let mut canvas = Canvas::new();
    game.update(&mut canvas, 16_000);
    assert_eq!(game.scene(), Scene::HomeScene);
    assert_eq!(canvas.len(), 3);
    match canvas.get(0) {
        DrawRequest::Text { content, font_size, .. } => {
            assert_eq!(content, TextContent::Title);
            assert_eq!(font_size, 80);
        }
        other => panic!("expected the title text, got {:?}", other),
    }
    match canvas.get(1) {
        DrawRequest::SolidRect { region, .. } => {
            assert_eq!(region.center, Vector2::new(0, 0));
            assert_eq!(region.size, Vector2::new(160, 60));
        }
        other => panic!("expected the button rectangle, got {:?}", other),
    }
    match canvas.get(2) {
        DrawRequest::Text { content, .. } => {
            assert_eq!(content, TextContent::StartLabel);
        }
        other => panic!("expected the button label, got {:?}", other),
    }
}

#[test]
fn level_update_draws_the_playfield() {
    let mut game = GameState::new();
    let mut canvas = Canvas::new();
    game.key_down(Key::Key2);
    game.update(&mut canvas, 0);
    assert_eq!(canvas.len(), 218);
    // A score line for zero points is among the requests.
    let mut found_score = false;
    for r in canvas.take_requests() {
        if let DrawRequest::Text { content: TextContent::Score(n), .. } = r {
            assert_eq!(n, 0);
            found_score = true;
        }
    }
    assert!(found_score);
}

#[test]
fn world_region_follows_the_live_scene() {
    let mut game = GameState::new();
    let home_region = game.world_region();
    assert_eq!(home_region.center, Vector2::new(0, 0));
    assert_eq!(home_region.size, Vector2::new(400, 400));
    game.key_down(Key::Key2);
    // The level frames the board itself: 10 x 20 cells of 5 world units.
    let level_region = game.world_region();
    assert_eq!(level_region.center, Vector2::new(100, 200));
    assert_eq!(level_region.size, Vector2::new(200, 400));
}

#[test]
fn home_keys_do_nothing() {
    let mut hs = HomeScene::new();
    assert_eq!(hs.key_down(Key::Space), Scene::HomeScene);
    assert_eq!(hs.key_down(Key::Up), Scene::HomeScene);
}

#[test]
fn button_region_matches_the_click_test() {
    let region = HomeScene::button_region();
    assert_eq!(region.left(), -80);
    assert_eq!(region.right(), 80);
    assert_eq!(region.bottom(), -30);
    assert_eq!(region.top(), 30);
    assert!(region.contains(Vector2::new(0, 0)));
    assert!(!region.contains(Vector2::new(80, 0)));
}
