//! The button of the main menu that stops the game.

use vstd::prelude::*;
use crate::asset::{sprite, AssetData, AssetDataView};
use crate::resource_location::{ResourceLocation, ResourceLocationView};
use crate::widget::{Alignment, WidgetAction};

verus! {

/// The button that stops the game.
#[derive(Debug)]
pub struct QuitWidget {
    selected: bool,
    asset_data: AssetData,
    asset_data_selected: AssetData,
    alignment: Alignment,
    coords: (i32, i32),
}

/// The widget as mathematical values.
pub struct QuitWidgetView {
    /// Whether the pointer is over the widget.
    pub selected: bool,
    /// What the widget shows while the pointer is elsewhere.
    pub asset_data: AssetDataView,
    /// What the widget shows while the pointer is over it.
    pub asset_data_selected: AssetDataView,
    pub alignment: Alignment,
    pub coords: (i32, i32),
}

impl QuitWidgetView {
    /// The widget as it is made: at offset `(x, y)` from the edge
    /// `alignment`, with the pointer elsewhere.
    pub open spec fn fresh(alignment: Alignment, x: i32, y: i32) -> QuitWidgetView {
        QuitWidgetView {
            selected: false,
            asset_data: sprite(0, 0, 39, 23, (0i32, 0i32), "gui/play_quit.png"@),
            asset_data_selected: sprite(0, 23, 39, 23, (0i32, 0i32), "gui/play_quit.png"@),
            alignment,
            coords: (x, y),
        }
    }

    /// What the widget shows.
    pub open spec fn appearance(self) -> AssetDataView {
        if self.selected {
            self.asset_data_selected
        } else {
            self.asset_data
        }
    }
}

impl View for QuitWidget {
    type V = QuitWidgetView;

    closed spec fn view(&self) -> QuitWidgetView {
        QuitWidgetView {
            selected: self.selected,
            asset_data: self.asset_data@,
            asset_data_selected: self.asset_data_selected@,
            alignment: self.alignment,
            coords: self.coords,
        }
    }
}

impl QuitWidget {
    /// The widget at offset `(x, y)` from the edge `alignment`, with the
    /// pointer elsewhere.
    pub fn create(alignment: Alignment, x: i32, y: i32) -> (r: QuitWidget)
        ensures
            r@ == QuitWidgetView::fresh(alignment, x, y),
    {
        QuitWidget {
            selected: false,
            asset_data: AssetData::sprite(0, 0, 39, 23, (0, 0), "gui/play_quit.png"),
            asset_data_selected: AssetData::sprite(0, 23, 39, 23, (0, 0), "gui/play_quit.png"),
            alignment,
            coords: (x, y),
        }
    }

    /// A click stops the game.
    pub fn on_click(&self) -> (r: WidgetAction)
        ensures
            r == WidgetAction::Quit,
    {
        WidgetAction::Quit
    }

    pub fn get_selected(&self) -> (r: bool)
        ensures
            r == self@.selected,
    {
        self.selected
    }

    pub fn set_selected(&mut self, tf: bool)
        ensures
            final(self)@ == (QuitWidgetView { selected: tf, ..old(self)@ }),
    {
        self.selected = tf;
    }

    pub fn get_screen_coordinates(&self) -> (r: (i32, i32))
        ensures
            r == self@.coords,
    {
        self.coords
    }

    pub fn set_screen_coordinates(&mut self, x: i32, y: i32)
        ensures
            final(self)@ == (QuitWidgetView { coords: (x, y), ..old(self)@ }),
    {
        self.coords = (x, y)
    }

    /// What the widget shows.
    pub fn get_asset_data(&self) -> (r: AssetData)
        ensures
            r@ == self@.appearance(),
    {
        if self.selected {
            self.asset_data_selected.clone()
        } else {
            self.asset_data.clone()
        }
    }

    /// Replaces what the widget shows while the pointer is elsewhere.
    pub fn set_asset_data(&mut self, ass: AssetData)
        ensures
            final(self)@ == (QuitWidgetView { asset_data: ass@, ..old(self)@ }),
    {
        self.asset_data = ass
    }

    /// The key of this kind of widget.
    pub fn get_resource_location(&self) -> (r: ResourceLocation)
        ensures
            r@ == (ResourceLocationView { namespace: "game"@, path: "widgets/quit"@ }),
    {
        ResourceLocation::new("game", "widgets/quit")
    }

    pub fn get_allignment(&self) -> (r: Alignment)
        ensures
            r == self@.alignment,
    {
        self.alignment
    }

    pub fn set_allignment(&mut self, alignment: Alignment)
        ensures
            final(self)@ == (QuitWidgetView { alignment, ..old(self)@ }),
    {
        self.alignment = alignment;
    }
}

} // verus!
