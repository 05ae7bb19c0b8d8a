//! Abstract draw requests and the canvas that collects them.
//!
//! The engine never issues raw graphics calls: during an update each scene
//! appends requests (filled rectangle, textured rectangle, text) to a canvas,
//! and the caller drains them right after the call.  No request is buffered
//! past the update that produced it.

use vstd::prelude::*;
use crate::rect::Rect;
use crate::rgb::Rgb;
use crate::vector2::Vector2;

verus! {

/// A handle naming a texture the renderer has loaded; the engine only
/// passes it through.
#[derive(Clone, Copy, Debug, PartialEq, Eq, Structural)]
pub struct TextureId(pub u32);

/// A handle naming a font the renderer has loaded.
#[derive(Clone, Copy, Debug, PartialEq, Eq, Structural)]
pub struct FontID(pub i32);

/// What a text request says; the renderer turns it into characters.
#[derive(Clone, Copy, Debug, PartialEq, Eq, Structural)]
pub enum TextContent {
    /// The title of the game.
    Title,
    /// The label on the start button.
    StartLabel,
    /// The heading above the upcoming-piece preview.
    NextHeader,
    /// The current score.
    Score(u64),
}

/// One abstract request to the renderer.
#[derive(Clone, Copy, Debug, PartialEq, Eq, Structural)]
pub enum DrawRequest {
    /// A rectangle filled with one color.
    SolidRect {
        /// Where to draw, in world coordinates.
        region: Rect,
        /// The fill color.
        color: Rgb,
    },
    /// A rectangle showing a texture.
    TexturedRect {
        /// Where to draw, in world coordinates.
        region: Rect,
        /// Which texture to show.
        texture: TextureId,
    },
    /// A line of text.
    Text {
        /// The anchor of the text, in world coordinates.
        position: Vector2,
        /// The text color.
        color: Rgb,
        /// The font size, in quarters of a world unit.
        font_size: i32,
        /// What the text says.
        content: TextContent,
    },
}

/// Collects the draw requests of one update, in order; the caller drains
/// them right after the call.
#[derive(Debug)]
pub struct Canvas {
    requests: Vec<DrawRequest>,
}

impl Canvas {
    /// The requests collected so far, oldest first.
    pub closed spec fn log(self) -> Seq<DrawRequest> {
        self.requests@
    }

    /// An empty canvas.
    pub fn new() -> (c: Canvas)
        ensures
            c.log() == Seq::<DrawRequest>::empty(),
    {
        Canvas { requests: Vec::new() }
    }

    /// How many requests are waiting.
    pub fn len(&self) -> (n: usize)
        ensures
            n == self.log().len(),
    {
        self.requests.len()
    }

    /// Appends one request.
    pub fn draw(&mut self, req: DrawRequest)
        ensures
            final(self).log() == old(self).log().push(req),
    {
        self.requests.push(req);
    }

    /// The request at index `i`, oldest first.
    pub fn get(&self, i: usize) -> (r: DrawRequest)
        requires
            i < self.log().len(),
        ensures
            r == self.log()[i as int],
    {
        self.requests[i]
    }

    /// Hands every collected request to the caller and empties the canvas.
    pub fn take_requests(&mut self) -> (r: Vec<DrawRequest>)
        ensures
            r@ == old(self).log(),
            final(self).log() == Seq::<DrawRequest>::empty(),
    {
        let mut out: Vec<DrawRequest> = Vec::new();
        core::mem::swap(&mut out, &mut self.requests);
        out
    }
}

} // verus!
