//! The banner of a player, with one mark for each pair the player holds.

use vstd::prelude::*;
use crate::asset::{blank, sprite, AssetData, AssetDataView};
use crate::turn::Turn;
use crate::widget::{placed_views, Alignment, PlacedAsset, PlacedAssetView, Standing, WidgetAction};

verus! {

/// The banner of one player. It is lit while the move is the player's, and
/// through the pause that follows the player's round.
#[derive(Debug)]
pub struct PlayerWidget {
    active: bool,
    selected: bool,
    asset_data: AssetData,
    asset_data_score: AssetData,
    alignment: Alignment,
    coords: (i32, i32),
    player: Turn,
    score: u32,
}

/// The widget as mathematical values.
pub struct PlayerWidgetView {
    /// Whether the move was the player's when the widget was last drawn.
    pub active: bool,
    /// Whether the pointer is over the widget.
    pub selected: bool,
    /// The banner as it was last shown.
    pub asset_data: AssetDataView,
    /// The mark for one pair.
    pub asset_data_score: AssetDataView,
    pub alignment: Alignment,
    pub coords: (i32, i32),
    /// The player the banner is for.
    pub player: Turn,
    /// The pairs the player held when the widget was last drawn.
    pub score: u32,
}

/// The banner image of a player.
pub open spec fn banner_image(player: Turn) -> Seq<char> {
    match player {
        Turn::Player1 => "gui/player_1.png"@,
        Turn::Player2 => "gui/player_2.png"@,
    }
}

/// The banner of a player, lit or dim.
pub open spec fn banner(player: Turn, lit: bool) -> AssetDataView {
    sprite(
        0,
        if lit {
            0i32
        } else {
            21i32
        },
        68,
        21,
        (0i32, 0i32),
        banner_image(player),
    )
}

/// Where the mark for the pair number `i` is drawn, from the banner's place.
pub open spec fn mark_offset(i: int) -> (i64, i64) {
    (26i64, (16 * i + 30) as i64)
}

impl PlayerWidgetView {
    /// The banner as it is made: it shows nothing yet and counts no pair.
    pub open spec fn fresh(alignment: Alignment, x: i32, y: i32, player: Turn) -> PlayerWidgetView {
        PlayerWidgetView {
            active: false,
            selected: false,
            asset_data: blank(),
            asset_data_score: sprite(0, 0, 16, 16, (0i32, 0i32), "gui/score_indicator.png"@),
            alignment,
            coords: (x, y),
            player,
            score: 0,
        }
    }

    /// Whether the banner is lit: no pause is under way and the move was
    /// the player's, or a pause is under way and the move has passed to
    /// the other player.
    pub open spec fn lit(self, standing: Standing) -> bool {
        (self.active && standing.wait_timer < 0) || (standing.wait_timer > 0
            && standing.current_turn == self.player.other())
    }

    /// The widget after it has been asked for its appearance: while a
    /// matched round is being carried out the banner stays as it was, else
    /// it is lit or dimmed.
    pub open spec fn refreshed(self, standing: Standing) -> PlayerWidgetView {
        if standing.prev_success {
            self
        } else {
            PlayerWidgetView { asset_data: banner(self.player, self.lit(standing)), ..self }
        }
    }

    /// The widget after it has taken in the standing: the player's pairs,
    /// and whether the move is the player's.
    pub open spec fn synced(self, standing: Standing) -> PlayerWidgetView {
        PlayerWidgetView {
            score: match self.player {
                Turn::Player1 => standing.player_1_score,
                Turn::Player2 => standing.player_2_score,
            },
            active: standing.current_turn == self.player,
            ..self
        }
    }

    /// What drawing the widget puts on screen, from the widget's place:
    /// the banner, then one mark for each pair, 16 apart, downwards.
    pub open spec fn drawing(self, standing: Standing) -> Seq<PlacedAssetView> {
        let w = self.synced(standing).refreshed(standing);
        seq![PlacedAssetView { offset: (0i64, 0i64), asset: w.asset_data }] + Seq::new(
            w.score as nat,
            |i: int| PlacedAssetView { offset: mark_offset(i), asset: w.asset_data_score },
        )
    }
}

impl View for PlayerWidget {
    type V = PlayerWidgetView;

    closed spec fn view(&self) -> PlayerWidgetView {
        PlayerWidgetView {
            active: self.active,
            selected: self.selected,
            asset_data: self.asset_data@,
            asset_data_score: self.asset_data_score@,
            alignment: self.alignment,
            coords: self.coords,
            player: self.player,
            score: self.score,
        }
    }
}

impl PlayerWidget {
    /// The banner of `player` at offset `(x, y)` from the edge `alignment`.
    /// Until it is first drawn it shows nothing and counts no pair.
    pub fn create(alignment: Alignment, x: i32, y: i32, player: Turn) -> (r: PlayerWidget)
        ensures
            r@ == PlayerWidgetView::fresh(alignment, x, y, player),
    {
        PlayerWidget {
            active: false,
            selected: false,
            asset_data: AssetData::empty(),
            asset_data_score: AssetData::sprite(0, 0, 16, 16, (0, 0), "gui/score_indicator.png"),
            alignment,
            coords: (x, y),
            player,
            score: 0,
        }
    }

    /// A click on the banner does nothing.
    pub fn on_click(&self) -> (r: WidgetAction)
        ensures
            r == WidgetAction::Nothing,
    {
        WidgetAction::Nothing
    }

    pub fn get_selected(&self) -> (r: bool)
        ensures
            r == self@.selected,
    {
        self.selected
    }

    pub fn set_selected(&mut self, tf: bool)
        ensures
            final(self)@ == (PlayerWidgetView { selected: tf, ..old(self)@ }),
    {
        self.selected = tf
    }

    pub fn get_screen_coordinates(&self) -> (r: (i32, i32))
        ensures
            r == self@.coords,
    {
        self.coords
    }

    pub fn set_screen_coordinates(&mut self, x: i32, y: i32)
        ensures
            final(self)@ == (PlayerWidgetView { coords: (x, y), ..old(self)@ }),
    {
        self.coords = (x, y)
    }

    /// The banner, lit or dim as the standing has it. The widget remembers
    /// what it showed.
    pub fn get_asset_data(&mut self, standing: &Standing) -> (r: AssetData)
        ensures
            final(self)@ == old(self)@.refreshed(*standing),
            r@ == final(self)@.asset_data,
    {
        if !standing.prev_success {
            let passed = match self.player {
                Turn::Player1 => standing.current_turn == Turn::Player2,
                Turn::Player2 => standing.current_turn == Turn::Player1,
            };
            let lit = (self.active && standing.wait_timer < 0) || (standing.wait_timer > 0
                && passed);
            let row: i32 = if lit {
                0
            } else {
                21
            };
            self.asset_data = match self.player {
                Turn::Player1 => AssetData::sprite(0, row, 68, 21, (0, 0), "gui/player_1.png"),
                Turn::Player2 => AssetData::sprite(0, row, 68, 21, (0, 0), "gui/player_2.png"),
            };
        }
        self.asset_data.clone()
    }

    pub fn get_allignment(&self) -> (r: Alignment)
        ensures
            r == self@.alignment,
    {
        self.alignment
    }

    pub fn set_allignment(&mut self, alignment: Alignment)
        ensures
            final(self)@ == (PlayerWidgetView { alignment, ..old(self)@ }),
    {
        self.alignment = alignment
    }

    /// Draws the widget: takes in the standing, then hands out the banner
    /// and one mark for each pair the player holds. The pointer over a
    /// banner is not drawn as a finger.
    pub fn render(&mut self, standing: &Standing, use_finger: &mut bool) -> (r: Vec<PlacedAsset>)
        ensures
            final(self)@ == old(self)@.synced(*standing).refreshed(*standing),
            placed_views(r@) == old(self)@.drawing(*standing),
            *final(use_finger) == (*old(use_finger) && !old(self)@.selected),
    {
        if self.selected {
            *use_finger = false;
        }
        match self.player {
            Turn::Player1 => {
                self.score = standing.player_1_score;
                self.active = standing.current_turn == Turn::Player1;
            },
            Turn::Player2 => {
                self.score = standing.player_2_score;
                self.active = standing.current_turn == Turn::Player2;
            },
        }
        let mut out: Vec<PlacedAsset> = Vec::new();
        let banner = self.get_asset_data(standing);
        out.push(PlacedAsset { offset: (0, 0), asset: banner });
        let ghost want = old(self)@.drawing(*standing);
        let mut i: u32 = 0;
        while i < self.score
            invariant
                i <= self.score,
                self@ == old(self)@.synced(*standing).refreshed(*standing),
                want == old(self)@.drawing(*standing),
                out.len() == i + 1,
                forall|j: int| 0 <= j < out.len() ==> (#[trigger] out@[j])@ == want[j],
            decreases self.score - i,
        {
            let y: i64 = 16 * (i as i64) + 30;
            out.push(PlacedAsset { offset: (26, y), asset: self.asset_data_score.clone() });
            i += 1;
        }
        assert(placed_views(out@) =~= want);
        out
    }
}

} // verus!
