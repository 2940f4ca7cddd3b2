//! The crown that marks the winner.

use vstd::prelude::*;
use crate::asset::{invisible, sprite, AssetData, AssetDataView};
use crate::resource_location::{ResourceLocation, ResourceLocationView};
use crate::turn::Turn;
use crate::widget::{Alignment, Standing, WidgetAction};

verus! {

/// A crown over one player's banner. It shows once that player has won.
#[derive(Debug)]
pub struct CrownWidget {
    asset_data: AssetData,
    alignment: Alignment,
    coords: (i32, i32),
    player: Turn,
    selected: bool,
}

/// The widget as mathematical values.
pub struct CrownWidgetView {
    /// The crown.
    pub asset_data: AssetDataView,
    pub alignment: Alignment,
    pub coords: (i32, i32),
    /// The player the crown is for.
    pub player: Turn,
    /// Whether the pointer is over the widget.
    pub selected: bool,
}

impl CrownWidgetView {
    /// The crown as it is made.
    pub open spec fn fresh(alignment: Alignment, x: i32, y: i32, player: Turn) -> CrownWidgetView {
        CrownWidgetView {
            asset_data: sprite(0, 0, 22, 20, (11i32, 10i32), "gui/crown.png"@),
            alignment,
            coords: (x, y),
            player,
            selected: false,
        }
    }

    /// What the widget shows: the crown once its player has won, nothing
    /// before that, and nothing when the match ends level.
    pub open spec fn appearance(self, standing: Standing) -> AssetDataView {
        if standing.won_by(self.player) {
            self.asset_data
        } else {
            invisible()
        }
    }
}

impl View for CrownWidget {
    type V = CrownWidgetView;

    closed spec fn view(&self) -> CrownWidgetView {
        CrownWidgetView {
            asset_data: self.asset_data@,
            alignment: self.alignment,
            coords: self.coords,
            player: self.player,
            selected: self.selected,
        }
    }
}

impl CrownWidget {
    /// The crown of `player` at offset `(x, y)` from the edge `alignment`.
    pub fn create(alignment: Alignment, x: i32, y: i32, player: Turn) -> (r: CrownWidget)
        ensures
            r@ == CrownWidgetView::fresh(alignment, x, y, player),
    {
        CrownWidget {
            asset_data: AssetData::sprite(0, 0, 22, 20, (11, 10), "gui/crown.png"),
            alignment,
            coords: (x, y),
            player,
            selected: false,
        }
    }

    /// A click on the crown does nothing.
    pub fn on_click(&self) -> (r: WidgetAction)
        ensures
            r == WidgetAction::Nothing,
    {
        WidgetAction::Nothing
    }

    pub fn get_selected(&self) -> (r: bool)
        ensures
            r == self@.selected,
    {
        self.selected
    }

    pub fn set_selected(&mut self, tf: bool)
        ensures
            final(self)@ == (CrownWidgetView { selected: tf, ..old(self)@ }),
    {
        self.selected = tf
    }

    pub fn get_screen_coordinates(&self) -> (r: (i32, i32))
        ensures
            r == self@.coords,
    {
        self.coords
    }

    pub fn set_screen_coordinates(&mut self, x: i32, y: i32)
        ensures
            final(self)@ == (CrownWidgetView { coords: (x, y), ..old(self)@ }),
    {
        self.coords = (x, y)
    }

    /// What the widget shows. The pointer over a crown is not drawn as a
    /// finger.
    pub fn get_asset_data(&self, standing: &Standing, use_finger: &mut bool) -> (r: AssetData)
        ensures
            r@ == self@.appearance(*standing),
            *final(use_finger) == (*old(use_finger) && !self@.selected),
    {
        if self.selected {
            *use_finger = false;
        }
        if standing.is_won_by(self.player) {
            self.asset_data.clone()
        } else {
            AssetData::invisible()
        }
    }

    /// Replaces the crown.
    pub fn set_asset_data(&mut self, ass: AssetData)
        ensures
            final(self)@ == (CrownWidgetView { asset_data: ass@, ..old(self)@ }),
    {
        self.asset_data = ass
    }

    /// The key of this kind of widget.
    pub fn get_resource_location(&self) -> (r: ResourceLocation)
        ensures
            r@ == (ResourceLocationView { namespace: "game"@, path: "widgets/crown"@ }),
    {
        ResourceLocation::new("game", "widgets/crown")
    }

    pub fn get_allignment(&self) -> (r: Alignment)
        ensures
            r == self@.alignment,
    {
        self.alignment
    }

    pub fn set_allignment(&mut self, alignment: Alignment)
        ensures
            final(self)@ == (CrownWidgetView { alignment, ..old(self)@ }),
    {
        self.alignment = alignment;
    }
}

} // verus!
