//! The button that stops the game once a match is over.

use vstd::prelude::*;
use crate::asset::{invisible, sprite, AssetData, AssetDataView};
use crate::resource_location::{ResourceLocation, ResourceLocationView};
use crate::widget::{Alignment, Standing, WidgetAction};

verus! {

/// The button that stops the game. It shows, and works, only once the
/// match is over.
#[derive(Debug)]
pub struct EndQuitWidget {
    selected: bool,
    asset_data: AssetData,
    asset_data_selected: AssetData,
    alignment: Alignment,
    coords: (i32, i32),
}

/// The widget as mathematical values.
pub struct EndQuitWidgetView {
    /// Whether the pointer is over the widget.
    pub selected: bool,
    /// What the widget shows while the pointer is elsewhere.
    pub asset_data: AssetDataView,
    /// What the widget shows while the pointer is over it.
    pub asset_data_selected: AssetDataView,
    pub alignment: Alignment,
    pub coords: (i32, i32),
}

impl EndQuitWidgetView {
    /// The widget as it is made: at offset `(x, y)` from the edge
    /// `alignment`, with the pointer elsewhere.
    pub open spec fn fresh(alignment: Alignment, x: i32, y: i32) -> EndQuitWidgetView {
        EndQuitWidgetView {
            selected: false,
            asset_data: sprite(0, 0, 38, 24, (0i32, 0i32), "gui/quit_endscreen.png"@),
            asset_data_selected: sprite(0, 24, 38, 24, (0i32, 0i32), "gui/quit_endscreen.png"@),
            alignment,
            coords: (x, y),
        }
    }

    /// What the widget shows: nothing until the match is over.
    pub open spec fn appearance(self, standing: Standing) -> AssetDataView {
        if standing.over() {
            if self.selected {
                self.asset_data_selected
            } else {
                self.asset_data
            }
        } else {
            invisible()
        }
    }

    /// Whether the widget takes the finger from the pointer: the pointer is
    /// over it, and the match is not over.
    pub open spec fn hides_finger(self, standing: Standing) -> bool {
        !standing.over() && self.selected
    }
}

impl View for EndQuitWidget {
    type V = EndQuitWidgetView;

    closed spec fn view(&self) -> EndQuitWidgetView {
        EndQuitWidgetView {
            selected: self.selected,
            asset_data: self.asset_data@,
            asset_data_selected: self.asset_data_selected@,
            alignment: self.alignment,
            coords: self.coords,
        }
    }
}

impl EndQuitWidget {
    /// The widget at offset `(x, y)` from the edge `alignment`, with the
    /// pointer elsewhere.
    pub fn create(alignment: Alignment, x: i32, y: i32) -> (r: EndQuitWidget)
        ensures
            r@ == EndQuitWidgetView::fresh(alignment, x, y),
    {
        EndQuitWidget {
            selected: false,
            asset_data: AssetData::sprite(0, 0, 38, 24, (0, 0), "gui/quit_endscreen.png"),
            asset_data_selected: AssetData::sprite(0, 24, 38, 24, (0, 0), "gui/quit_endscreen.png"),
            alignment,
            coords: (x, y),
        }
    }

    /// A click stops the game, once the match is over.
    pub fn on_click(&self, standing: &Standing) -> (r: WidgetAction)
        ensures
            r == if standing.over() {
                WidgetAction::Quit
            } else {
                WidgetAction::Nothing
            },
    {
        if standing.is_over() {
            WidgetAction::Quit
        } else {
            WidgetAction::Nothing
        }
    }

    pub fn get_selected(&self) -> (r: bool)
        ensures
            r == self@.selected,
    {
        self.selected
    }

    pub fn set_selected(&mut self, tf: bool)
        ensures
            final(self)@ == (EndQuitWidgetView { selected: tf, ..old(self)@ }),
    {
        self.selected = tf;
    }

    pub fn get_screen_coordinates(&self) -> (r: (i32, i32))
        ensures
            r == self@.coords,
    {
        self.coords
    }

    pub fn set_screen_coordinates(&mut self, x: i32, y: i32)
        ensures
            final(self)@ == (EndQuitWidgetView { coords: (x, y), ..old(self)@ }),
    {
        self.coords = (x, y)
    }

    /// What the widget shows. While the match is not over the widget is
    /// invisible, and the pointer over it is not drawn as a finger.
    pub fn get_asset_data(&self, standing: &Standing, use_finger: &mut bool) -> (r: AssetData)
        ensures
            r@ == self@.appearance(*standing),
            *final(use_finger) == (*old(use_finger) && !self@.hides_finger(*standing)),
    {
        let over = standing.is_over();
        if !over && self.selected {
            *use_finger = false;
        }
        if over {
            if self.selected {
                self.asset_data_selected.clone()
            } else {
                self.asset_data.clone()
            }
        } else {
            AssetData::invisible()
        }
    }

    /// Replaces what the widget shows while the pointer is elsewhere.
    pub fn set_asset_data(&mut self, ass: AssetData)
        ensures
            final(self)@ == (EndQuitWidgetView { asset_data: ass@, ..old(self)@ }),
    {
        self.asset_data = ass
    }

    /// The key of this kind of widget.
    pub fn get_resource_location(&self) -> (r: ResourceLocation)
        ensures
            r@ == (ResourceLocationView { namespace: "game"@, path: "widgets/quit"@ }),
    {
        ResourceLocation::new("game", "widgets/quit")
    }

    pub fn get_allignment(&self) -> (r: Alignment)
        ensures
            r == self@.alignment,
    {
        self.alignment
    }

    pub fn set_allignment(&mut self, alignment: Alignment)
        ensures
            final(self)@ == (EndQuitWidgetView { alignment, ..old(self)@ }),
    {
        self.alignment = alignment;
    }
}

} // verus!
