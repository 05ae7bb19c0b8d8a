//! The scene manager: a two-state machine between home screen and play.
//!
//! Every event entry point dispatches to the active scene's handler, which
//! returns the scene that should be active afterwards; the manager applies
//! the transition.  The digit keys select a scene directly.  The level keeps
//! its board, bag and score across a visit to the home screen; a loss resets
//! them through the level's own loss handling.

use vstd::prelude::*;
use crate::Scene;
use crate::draw::Canvas;
use crate::home_scene::{HomeScene, home_draws};
use crate::input::Key;
use crate::level_scene::{LevelScene, level_key_rel, level_update_rel};
use crate::rect::Rect;
use crate::vector2::Vector2;

verus! {

/// The state of all game logic: both scenes and the tag saying which one is
/// live.
pub struct GameState {
    /// Which scene is live.
    actual_scene: Scene,
    /// Active play, kept across visits to the home screen.
    level_scene: LevelScene,
    /// The menu screen.
    home_scene: HomeScene,
}

impl GameState {
    /// Which scene is live.
    pub closed spec fn spec_scene(self) -> Scene {
        self.actual_scene
    }

    /// The level scene's state.
    pub closed spec fn spec_level(self) -> LevelScene {
        self.level_scene
    }

    /// Well-formedness of the whole game state.
    pub open spec fn wf(self) -> bool {
        self.spec_level().wf()
    }

    /// A fresh game: the home screen is live and a fresh level waits behind
    /// it.
    pub fn new() -> (g: GameState)
        ensures
            g.wf(),
            g.spec_scene() == Scene::HomeScene,
            g.spec_level().spec_board().grid() == Seq::<Seq<Option<crate::board::Block>>>::empty(),
            g.spec_level().spec_score() == 0,
            g.spec_level().spec_time() == 0,
            g.spec_level().spec_loss() == false,
    {
        GameState {
            actual_scene: Scene::HomeScene,
            level_scene: LevelScene::new(),
            home_scene: HomeScene::new(),
        }
    }

    /// Which scene is live.
    pub fn scene(&self) -> (s: Scene)
        ensures
            s == self.spec_scene(),
    {
        self.actual_scene
    }

    /// The level scene, for reading.
    pub fn level(&self) -> (l: &LevelScene)
        ensures
            l == self.spec_level(),
    {
        &self.level_scene
    }

    /// Applies a transition: the given scene becomes live.
    fn update_scene(&mut self, new_scene: Scene)
        ensures
            final(self).spec_scene() == new_scene,
            final(self).spec_level() == old(self).spec_level(),
    {
        if self.actual_scene == new_scene {
            return;
        }
        self.actual_scene = new_scene;
    }

    /// The region of the world the live scene wants framed.
    pub fn world_region(&self) -> (r: Rect)
        requires
            self.wf(),
        ensures
            r == (if self.spec_scene() == Scene::HomeScene {
                Rect { center: Vector2 { x: 0, y: 0 }, size: Vector2 { x: 400, y: 400 } }
            } else {
                Rect { center: Vector2 { x: 100, y: 200 }, size: Vector2 { x: 200, y: 400 } }
            }),
    {
        match self.actual_scene {
            Scene::HomeScene => self.home_scene.world_region(),
            Scene::LevelScene => self.level_scene.world_region(),
        }
    }

    /// Routes a key press to the live scene, then lets the digit keys
    /// select a scene directly.
    pub fn key_down(&mut self, key: Key)
        requires
            old(self).wf(),
        ensures
            final(self).wf(),
            final(self).spec_scene() == (if key == Key::Key1 {
                Scene::HomeScene
            } else if key == Key::Key2 {
                Scene::LevelScene
            } else {
                old(self).spec_scene()
            }),
            old(self).spec_scene() == Scene::HomeScene ==> final(self).spec_level() == old(
                self,
            ).spec_level(),
            old(self).spec_scene() == Scene::LevelScene ==> level_key_rel(
                old(self).spec_level(),
                final(self).spec_level(),
                key,
            ),
    {
        let new_scene = match self.actual_scene {
            Scene::HomeScene => self.home_scene.key_down(key),
            Scene::LevelScene => self.level_scene.key_down(key),
        };
        self.update_scene(new_scene);
        match key {
            Key::Key1 => self.actual_scene = Scene::HomeScene,
            Key::Key2 => self.actual_scene = Scene::LevelScene,
            _ => (),
        }
    }

    /// Routes a mouse click to the live scene: on the home screen a click
    /// strictly inside the start button switches to the level; the level
    /// ignores clicks.
    pub fn on_click(&mut self, position: Vector2)
        requires
            old(self).wf(),
        ensures
            final(self).wf(),
            final(self).spec_level() == old(self).spec_level(),
            final(self).spec_scene() == (if old(self).spec_scene() == Scene::HomeScene && -80
                < position.x < 80 && -30 < position.y < 30 {
                Scene::LevelScene
            } else {
                old(self).spec_scene()
            }),
    {
        let new_scene = match self.actual_scene {
            Scene::HomeScene => self.home_scene.on_click(position),
            Scene::LevelScene => self.level_scene.on_click(position),
        };
        self.update_scene(new_scene);
    }

    /// Advances the live scene by `delta_t` microseconds, draws it, and
    /// applies the transition it asks for (the level asks for the home
    /// screen exactly when it consumes a pending loss).
    pub fn update(&mut self, canvas: &mut Canvas, delta_t: u128)
        requires
            old(self).wf(),
        ensures
            final(self).wf(),
            old(self).spec_scene() == Scene::HomeScene ==> {
                &&& final(self).spec_scene() == Scene::HomeScene
                &&& final(self).spec_level() == old(self).spec_level()
                &&& final(canvas).log() == old(canvas).log() + home_draws()
            },
            old(self).spec_scene() == Scene::LevelScene ==> {
                &&& level_update_rel(
                    old(self).spec_level(),
                    final(self).spec_level(),
                    old(canvas).log(),
                    final(canvas).log(),
                    delta_t,
                    final(self).spec_scene(),
                )
            },
    {
        let new_scene = match self.actual_scene {
            Scene::HomeScene => self.home_scene.update(canvas, delta_t),
            Scene::LevelScene => self.level_scene.update(canvas, delta_t),
        };
        self.update_scene(new_scene);
    }
}

} // verus!
