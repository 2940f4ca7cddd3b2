//! What every control of the user interface has in common.

use vstd::prelude::*;
use crate::asset::{AssetData, AssetDataView};
use crate::turn::Turn;
use crate::widgets::crown_widget::{CrownWidget, CrownWidgetView};
use crate::widgets::end_screen_quit_widget::{EndQuitWidget, EndQuitWidgetView};
use crate::widgets::play_again_widget::{PlayAgainWidget, PlayAgainWidgetView};
use crate::widgets::play_widget::{PlayWidget, PlayWidgetView};
use crate::widgets::player_widget::{PlayerWidget, PlayerWidgetView};
use crate::widgets::quit_widget::{QuitWidget, QuitWidgetView};

verus! {

/// How many pairs a match has: it is over when this many are found.
pub const PAIRS: u64 = 9;

/// The edge of the viewport that a widget's offset is counted from.
#[allow(non_camel_case_types)]
#[derive(Clone, Copy, Debug, PartialEq, Eq, Structural)]
pub enum Alignment {
    LEFT,
    RIGHT,
    TOP,
    BOTTOM,
    CENTER,
}

/// What a widget may know of the match.
#[derive(Clone, Copy, Debug)]
pub struct Standing {
    pub player_1_score: u32,
    pub player_2_score: u32,
    pub current_turn: Turn,
    /// Microseconds of the pause after a round that are left; negative
    /// when no pause is under way.
    pub wait_timer: i64,
    /// Whether a matched round is still to be carried out.
    pub prev_success: bool,
}

impl Standing {
    /// Whether every pair has been found.
    pub open spec fn over(self) -> bool {
        self.player_1_score + self.player_2_score == PAIRS
    }

    /// Whether `player` has won: the match is over and the player holds
    /// strictly more pairs than the other.
    pub open spec fn won_by(self, player: Turn) -> bool {
        self.over() && match player {
            Turn::Player1 => self.player_1_score > self.player_2_score,
            Turn::Player2 => self.player_2_score > self.player_1_score,
        }
    }

    /// Whether every pair has been found.
    pub fn is_over(&self) -> (r: bool)
        ensures
            r == self.over(),
    {
        self.player_1_score as u64 + self.player_2_score as u64 == PAIRS
    }

    /// Whether `player` has won.
    pub fn is_won_by(&self, player: Turn) -> (r: bool)
        ensures
            r == self.won_by(player),
    {
        self.is_over() && match player {
            Turn::Player1 => self.player_1_score > self.player_2_score,
            Turn::Player2 => self.player_2_score > self.player_1_score,
        }
    }
}

/// A piece of a widget's drawing: an appearance, and where it goes from the
/// widget's place.
#[derive(Debug)]
pub struct PlacedAsset {
    pub offset: (i64, i64),
    pub asset: AssetData,
}

/// A piece of a drawing as mathematical values.
pub struct PlacedAssetView {
    pub offset: (i64, i64),
    pub asset: AssetDataView,
}

impl View for PlacedAsset {
    type V = PlacedAssetView;

    open spec fn view(&self) -> PlacedAssetView {
        PlacedAssetView { offset: self.offset, asset: self.asset@ }
    }
}

/// The views of a drawing's pieces, in order.
pub open spec fn placed_views(pieces: Seq<PlacedAsset>) -> Seq<PlacedAssetView> {
    Seq::new(pieces.len(), |i: int| pieces[i]@)
}

/// What a click on a widget asks the game to do.
#[derive(Clone, Copy, Debug, PartialEq, Eq, Structural)]
pub enum WidgetAction {
    /// Nothing.
    Nothing,
    /// Deal a new match and show the match's screen.
    StartMatch,
    /// Stop the game.
    Quit,
}

/// A control of the user interface.
#[derive(Debug)]
pub enum Widget {
    Play(PlayWidget),
    PlayAgain(PlayAgainWidget),
    EndQuit(EndQuitWidget),
    Quit(QuitWidget),
    Crown(CrownWidget),
    Player(PlayerWidget),
}

/// A control as mathematical values.
pub enum WidgetView {
    Play(PlayWidgetView),
    PlayAgain(PlayAgainWidgetView),
    EndQuit(EndQuitWidgetView),
    Quit(QuitWidgetView),
    Crown(CrownWidgetView),
    Player(PlayerWidgetView),
}

impl WidgetView {
    /// Whether the pointer is over the widget.
    pub open spec fn selected(self) -> bool {
        match self {
            WidgetView::Play(w) => w.selected,
            WidgetView::PlayAgain(w) => w.selected,
            WidgetView::EndQuit(w) => w.selected,
            WidgetView::Quit(w) => w.selected,
            WidgetView::Crown(w) => w.selected,
            WidgetView::Player(w) => w.selected,
        }
    }

    /// The widget with its `selected` flag set to `tf`.
    pub open spec fn with_selected(self, tf: bool) -> WidgetView {
        match self {
            WidgetView::Play(w) => WidgetView::Play(PlayWidgetView { selected: tf, ..w }),
            WidgetView::PlayAgain(w) => WidgetView::PlayAgain(
                PlayAgainWidgetView { selected: tf, ..w },
            ),
            WidgetView::EndQuit(w) => WidgetView::EndQuit(EndQuitWidgetView { selected: tf, ..w }),
            WidgetView::Quit(w) => WidgetView::Quit(QuitWidgetView { selected: tf, ..w }),
            WidgetView::Crown(w) => WidgetView::Crown(CrownWidgetView { selected: tf, ..w }),
            WidgetView::Player(w) => WidgetView::Player(PlayerWidgetView { selected: tf, ..w }),
        }
    }

    /// The widget's offset from the edge it is aligned to.
    pub open spec fn coords(self) -> (i32, i32) {
        match self {
            WidgetView::Play(w) => w.coords,
            WidgetView::PlayAgain(w) => w.coords,
            WidgetView::EndQuit(w) => w.coords,
            WidgetView::Quit(w) => w.coords,
            WidgetView::Crown(w) => w.coords,
            WidgetView::Player(w) => w.coords,
        }
    }

    /// The edge the widget is aligned to.
    pub open spec fn alignment(self) -> Alignment {
        match self {
            WidgetView::Play(w) => w.alignment,
            WidgetView::PlayAgain(w) => w.alignment,
            WidgetView::EndQuit(w) => w.alignment,
            WidgetView::Quit(w) => w.alignment,
            WidgetView::Crown(w) => w.alignment,
            WidgetView::Player(w) => w.alignment,
        }
    }

    /// What a click on the widget asks for, the match standing as given.
    pub open spec fn on_click(self, standing: Standing) -> WidgetAction {
        match self {
            WidgetView::Play(_) => WidgetAction::StartMatch,
            WidgetView::PlayAgain(_) => if standing.over() {
                WidgetAction::StartMatch
            } else {
                WidgetAction::Nothing
            },
            WidgetView::EndQuit(_) => if standing.over() {
                WidgetAction::Quit
            } else {
                WidgetAction::Nothing
            },
            WidgetView::Quit(_) => WidgetAction::Quit,
            WidgetView::Crown(_) => WidgetAction::Nothing,
            WidgetView::Player(_) => WidgetAction::Nothing,
        }
    }

    /// What asking the widget for its appearance does: the appearance, the
    /// widget afterwards, and whether the pointer may still be a finger.
    pub open spec fn get_asset_data(self, standing: Standing, use_finger: bool) -> (
        AssetDataView,
        WidgetView,
        bool,
    ) {
        match self {
            WidgetView::Play(w) => (w.appearance(), self, use_finger),
            WidgetView::PlayAgain(w) => (
                w.appearance(standing),
                self,
                use_finger && !w.hides_finger(standing),
            ),
            WidgetView::EndQuit(w) => (
                w.appearance(standing),
                self,
                use_finger && !w.hides_finger(standing),
            ),
            WidgetView::Quit(w) => (w.appearance(), self, use_finger),
            WidgetView::Crown(w) => (w.appearance(standing), self, use_finger && !w.selected),
            WidgetView::Player(w) => (
                w.refreshed(standing).asset_data,
                WidgetView::Player(w.refreshed(standing)),
                use_finger,
            ),
        }
    }
}

impl WidgetView {
    /// What drawing the widget does: the pieces it puts on screen, the
    /// widget afterwards, and whether the pointer may still be a finger.
    /// Every widget but a player's banner draws its appearance at its
    /// place.
    pub open spec fn render(self, standing: Standing, use_finger: bool) -> (
        Seq<PlacedAssetView>,
        WidgetView,
        bool,
    ) {
        match self {
            WidgetView::Player(w) => (
                w.drawing(standing),
                WidgetView::Player(w.synced(standing).refreshed(standing)),
                use_finger && !w.selected,
            ),
            _ => (
                seq![
                    PlacedAssetView {
                        offset: (0i64, 0i64),
                        asset: self.get_asset_data(standing, use_finger).0,
                    },
                ],
                self.get_asset_data(standing, use_finger).1,
                self.get_asset_data(standing, use_finger).2,
            ),
        }
    }
}

impl View for Widget {
    type V = WidgetView;

    open spec fn view(&self) -> WidgetView {
        match self {
            Widget::Play(w) => WidgetView::Play(w@),
            Widget::PlayAgain(w) => WidgetView::PlayAgain(w@),
            Widget::EndQuit(w) => WidgetView::EndQuit(w@),
            Widget::Quit(w) => WidgetView::Quit(w@),
            Widget::Crown(w) => WidgetView::Crown(w@),
            Widget::Player(w) => WidgetView::Player(w@),
        }
    }
}

impl Widget {
    /// What a click on the widget asks the game to do.
    pub fn on_click(&self, standing: &Standing) -> (r: WidgetAction)
        ensures
            r == self@.on_click(*standing),
    {
        match self {
            Widget::Play(w) => w.on_click(),
            Widget::PlayAgain(w) => w.on_click(standing),
            Widget::EndQuit(w) => w.on_click(standing),
            Widget::Quit(w) => w.on_click(),
            Widget::Crown(w) => w.on_click(),
            Widget::Player(w) => w.on_click(),
        }
    }

    /// Whether the pointer is over the widget.
    pub fn get_selected(&self) -> (r: bool)
        ensures
            r == self@.selected(),
    {
        match self {
            Widget::Play(w) => w.get_selected(),
            Widget::PlayAgain(w) => w.get_selected(),
            Widget::EndQuit(w) => w.get_selected(),
            Widget::Quit(w) => w.get_selected(),
            Widget::Crown(w) => w.get_selected(),
            Widget::Player(w) => w.get_selected(),
        }
    }

    /// Records whether the pointer is over the widget.
    pub fn set_selected(&mut self, tf: bool)
        ensures
            final(self)@ == old(self)@.with_selected(tf),
    {
        match self {
            Widget::Play(w) => w.set_selected(tf),
            Widget::PlayAgain(w) => w.set_selected(tf),
            Widget::EndQuit(w) => w.set_selected(tf),
            Widget::Quit(w) => w.set_selected(tf),
            Widget::Crown(w) => w.set_selected(tf),
            Widget::Player(w) => w.set_selected(tf),
        }
    }

    /// The widget's offset from the edge it is aligned to.
    pub fn get_screen_coordinates(&self) -> (r: (i32, i32))
        ensures
            r == self@.coords(),
    {
        match self {
            Widget::Play(w) => w.get_screen_coordinates(),
            Widget::PlayAgain(w) => w.get_screen_coordinates(),
            Widget::EndQuit(w) => w.get_screen_coordinates(),
            Widget::Quit(w) => w.get_screen_coordinates(),
            Widget::Crown(w) => w.get_screen_coordinates(),
            Widget::Player(w) => w.get_screen_coordinates(),
        }
    }

    /// The edge the widget is aligned to.
    pub fn get_allignment(&self) -> (r: Alignment)
        ensures
            r == self@.alignment(),
    {
        match self {
            Widget::Play(w) => w.get_allignment(),
            Widget::PlayAgain(w) => w.get_allignment(),
            Widget::EndQuit(w) => w.get_allignment(),
            Widget::Quit(w) => w.get_allignment(),
            Widget::Crown(w) => w.get_allignment(),
            Widget::Player(w) => w.get_allignment(),
        }
    }

    /// The widget's appearance, the match standing as given. A widget that
    /// does not invite a click while the pointer is over it clears
    /// `use_finger`.
    pub fn get_asset_data(&mut self, standing: &Standing, use_finger: &mut bool) -> (r: AssetData)
        ensures
            (r@, final(self)@, *final(use_finger)) == old(self)@.get_asset_data(
                *standing,
                *old(use_finger),
            ),
    {
        match self {
            Widget::Play(w) => w.get_asset_data(),
            Widget::PlayAgain(w) => w.get_asset_data(standing, use_finger),
            Widget::EndQuit(w) => w.get_asset_data(standing, use_finger),
            Widget::Quit(w) => w.get_asset_data(),
            Widget::Crown(w) => w.get_asset_data(standing, use_finger),
            Widget::Player(w) => w.get_asset_data(standing),
        }
    }

    /// Draws the widget: the pieces to put on screen, from the widget's
    /// place.
    pub fn render(&mut self, standing: &Standing, use_finger: &mut bool) -> (r: Vec<PlacedAsset>)
        ensures
            (placed_views(r@), final(self)@, *final(use_finger)) == old(self)@.render(
                *standing,
                *old(use_finger),
            ),
    {
        match self {
            Widget::Player(w) => w.render(standing, use_finger),
            _ => {
                let asset = self.get_asset_data(standing, use_finger);
                let mut out: Vec<PlacedAsset> = Vec::new();
                out.push(PlacedAsset { offset: (0, 0), asset });
                assert(placed_views(out@) =~= seq![
                    PlacedAssetView { offset: (0i64, 0i64), asset: asset@ },
                ]);
                out
            },
        }
    }
}

} // verus!
