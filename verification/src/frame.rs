//! What a frame puts on screen, as a list for the renderer to draw.

use vstd::prelude::*;
use crate::asset::{AssetData, AssetDataView};
use crate::depth::is_depth_order;
use crate::entity::{project, EntityView};
use crate::screen::{WidgetDrawing, WidgetDrawingView};

verus! {

/// An entity's appearance at the place of the screen where it is drawn.
#[derive(Debug)]
pub struct Sprite {
    pub x: i64,
    pub y: i64,
    pub asset: AssetData,
}

/// A sprite as mathematical values.
pub struct SpriteView {
    pub x: i64,
    pub y: i64,
    pub asset: AssetDataView,
}

impl View for Sprite {
    type V = SpriteView;

    open spec fn view(&self) -> SpriteView {
        SpriteView { x: self.x, y: self.y, asset: self.asset@ }
    }
}

/// The views of a list of sprites, in order.
pub open spec fn sprite_views(sprites: Seq<Sprite>) -> Seq<SpriteView> {
    Seq::new(sprites.len(), |i: int| sprites[i]@)
}

/// How the pointer is drawn.
#[derive(Clone, Copy, Debug, PartialEq, Eq, Structural)]
pub enum Pointer {
    /// Over something that can be picked.
    Finger,
    /// Anywhere else.
    Cursor,
}

/// Everything a frame shows, in the order in which it is drawn: the
/// level behind the entities, the entities back to front, the widgets,
/// the pointer.
#[derive(Debug)]
pub struct Frame {
    /// The position the level is seen from; `None` when there is nothing
    /// on the board.
    pub camera: Option<(i32, i32)>,
    pub entities: Vec<Sprite>,
    pub widgets: Vec<WidgetDrawing>,
    /// The pointer's icon; `None` when the pointer is not drawn.
    pub pointer: Option<Pointer>,
}

/// A frame as mathematical values.
pub struct FrameView {
    pub camera: Option<(i32, i32)>,
    pub entities: Seq<SpriteView>,
    pub widgets: Seq<WidgetDrawingView>,
    pub pointer: Option<Pointer>,
}

impl View for Frame {
    type V = FrameView;

    open spec fn view(&self) -> FrameView {
        FrameView {
            camera: self.camera,
            entities: sprite_views(self.entities@),
            widgets: crate::screen::drawing_views(self.widgets@),
            pointer: self.pointer,
        }
    }
}

/// The draw order of a collection of entities.
pub open spec fn depth_order(entities: Seq<EntityView>) -> Seq<(i32, usize)> {
    choose|order: Seq<(i32, usize)>| is_depth_order(entities, order)
}

/// The sprite of an entity seen from `camera`.
pub open spec fn sprite_of(e: EntityView, camera: (i32, i32)) -> SpriteView {
    SpriteView {
        x: project(e.coords(), camera).0 as i64,
        y: project(e.coords(), camera).1 as i64,
        asset: e.appearance(),
    }
}

/// The sprites of the entities seen from `camera`, back to front.
pub open spec fn entity_sprites(entities: Seq<EntityView>, camera: (i32, i32)) -> Seq<SpriteView> {
    Seq::new(
        entities.len(),
        |i: int| sprite_of(entities[depth_order(entities)[i].1 as int], camera),
    )
}

} // verus!
