//! The home scene: the title and a start button.
//!
//! A click strictly inside the button rectangle asks for the switch to the
//! level scene; everything else leaves the home screen as it is.

use vstd::prelude::*;
use crate::Scene;
use crate::draw::{Canvas, DrawRequest, TextContent};
use crate::input::Key;
use crate::rect::Rect;
use crate::rgb::Rgb;
use crate::vector2::Vector2;

verus! {

/// The start button: a 40 x 15 world-unit rectangle centered on the origin.
pub open spec fn spec_button_region() -> Rect {
    Rect { center: Vector2 { x: 0, y: 0 }, size: Vector2 { x: 160, y: 60 } }
}

/// Everything the home screen draws, in order: the title, the button, and
/// the button label.
pub open spec fn home_draws() -> Seq<DrawRequest> {
    seq![
        DrawRequest::Text {
            position: Vector2 { x: -120i32, y: 320 },
            color: Rgb { r: 255, g: 255, b: 255 },
            font_size: 80,
            content: TextContent::Title,
        },
        DrawRequest::SolidRect {
            region: spec_button_region(),
            color: Rgb { r: 255, g: 255, b: 255 },
        },
        DrawRequest::Text {
            position: Vector2 { x: -70i32, y: 20 },
            color: Rgb { r: 0, g: 0, b: 0 },
            font_size: 40,
            content: TextContent::StartLabel,
        },
    ]
}

/// The menu screen shown before and after play.
#[derive(Debug)]
pub struct HomeScene {}

impl HomeScene {
    /// A fresh home screen.
    pub fn new() -> (h: HomeScene) {
        HomeScene {  }
    }

    /// The start button rectangle.
    pub fn button_region() -> (r: Rect)
        ensures
            r == spec_button_region(),
    {
        Rect { center: Vector2 { x: 0, y: 0 }, size: Vector2 { x: 160, y: 60 } }
    }

    /// Keys do nothing on the home screen.
    pub fn key_down(&mut self, key: Key) -> (s: Scene)
        ensures
            s == Scene::HomeScene,
            *final(self) == *old(self),
    {
        let _ = key;
        Scene::HomeScene
    }

    /// A click strictly inside the start button asks for the level scene;
    /// any other click leaves the home screen active.
    pub fn on_click(&mut self, position: Vector2) -> (s: Scene)
        ensures
            *final(self) == *old(self),
            s == (if -80 < position.x < 80 && -30 < position.y < 30 {
                Scene::LevelScene
            } else {
                Scene::HomeScene
            }),
    {
        let region = Self::button_region();
        if region.contains(position) {
            Scene::LevelScene
        } else {
            Scene::HomeScene
        }
    }

    /// Draws the home screen; nothing else changes and the home screen
    /// stays active.
    pub fn update(&mut self, canvas: &mut Canvas, delta_t: u128) -> (s: Scene)
        ensures
            s == Scene::HomeScene,
            *final(self) == *old(self),
            final(canvas).log() == old(canvas).log() + home_draws(),
    {
        let _ = delta_t;
        canvas.draw(
            DrawRequest::Text {
                position: Vector2 { x: -120, y: 320 },
                color: Rgb { r: 255, g: 255, b: 255 },
                font_size: 80,
                content: TextContent::Title,
            },
        );
        canvas.draw(
            DrawRequest::SolidRect {
                region: Self::button_region(),
                color: Rgb { r: 255, g: 255, b: 255 },
            },
        );
        canvas.draw(
            DrawRequest::Text {
                position: Vector2 { x: -70, y: 20 },
                color: Rgb { r: 0, g: 0, b: 0 },
                font_size: 40,
                content: TextContent::StartLabel,
            },
        );
        proof {
            assert(canvas.log() =~= old(canvas).log() + home_draws());
        }
        Scene::HomeScene
    }

    /// The region of the world the home screen wants framed: a fixed
    /// 100 x 100 square around the origin.
    pub fn world_region(&self) -> (r: Rect)
        ensures
            r == (Rect { center: Vector2 { x: 0, y: 0 }, size: Vector2 { x: 400, y: 400 } }),
    {
        Rect { center: Vector2 { x: 0, y: 0 }, size: Vector2 { x: 400, y: 400 } }
    }
}

} // verus!
