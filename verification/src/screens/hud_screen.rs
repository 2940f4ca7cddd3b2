//! The screen of a match.

use vstd::prelude::*;
use crate::screen::{
    drawing_views, render_rows, render_widgets, row_views, rows_views, select_in_rows, Rendering,
    WidgetDrawing,
};
use crate::turn::Turn;
use crate::widget::{Alignment, Standing, Widget, WidgetView};
use crate::widgets::crown_widget::{CrownWidget, CrownWidgetView};
use crate::widgets::end_screen_quit_widget::{EndQuitWidget, EndQuitWidgetView};
use crate::widgets::play_again_widget::{PlayAgainWidget, PlayAgainWidgetView};
use crate::widgets::player_widget::{PlayerWidget, PlayerWidgetView};

verus! {

/// The screen that is shown during a match: the two players' banners, the
/// two buttons that appear once the match is over, and the two crowns.
#[derive(Debug)]
pub struct HudScreen {
    widgets: Vec<Vec<Widget>>,
}

/// The widgets of a match's screen as it is made: one row.
pub open spec fn hud_widgets() -> Seq<Seq<WidgetView>> {
    seq![
        seq![
            WidgetView::Player(PlayerWidgetView::fresh(Alignment::LEFT, 20, 80, Turn::Player1)),
            WidgetView::Player(PlayerWidgetView::fresh(Alignment::RIGHT, -88i32, 80, Turn::Player2)),
            WidgetView::PlayAgain(PlayAgainWidgetView::fresh(Alignment::LEFT, 20, -110i32)),
            WidgetView::EndQuit(EndQuitWidgetView::fresh(Alignment::RIGHT, -75i32, -110i32)),
            WidgetView::Crown(CrownWidgetView::fresh(Alignment::LEFT, 54, 90, Turn::Player1)),
            WidgetView::Crown(CrownWidgetView::fresh(Alignment::RIGHT, -54i32, 90, Turn::Player2)),
        ],
    ]
}

impl View for HudScreen {
    type V = Seq<Seq<WidgetView>>;

    closed spec fn view(&self) -> Seq<Seq<WidgetView>> {
        rows_views(self.widgets@)
    }
}

impl HudScreen {
    /// The screen of a match, with the pointer over none of its widgets.
    pub fn create() -> (r: HudScreen)
        ensures
            r@ == hud_widgets(),
    {
        let mut row: Vec<Widget> = Vec::new();
        row.push(Widget::Player(PlayerWidget::create(Alignment::LEFT, 20, 80, Turn::Player1)));
        row.push(Widget::Player(PlayerWidget::create(Alignment::RIGHT, -88, 80, Turn::Player2)));
        row.push(Widget::PlayAgain(PlayAgainWidget::create(Alignment::LEFT, 20, -110)));
        row.push(Widget::EndQuit(EndQuitWidget::create(Alignment::RIGHT, -75, -110)));
        row.push(Widget::Crown(CrownWidget::create(Alignment::LEFT, 54, 90, Turn::Player1)));
        row.push(Widget::Crown(CrownWidget::create(Alignment::RIGHT, -54, 90, Turn::Player2)));
        let mut widgets: Vec<Vec<Widget>> = Vec::new();
        widgets.push(row);
        proof {
            assert(row_views(widgets@[0]@) =~= hud_widgets()[0]);
            assert(rows_views(widgets@) =~= hud_widgets());
        }
        HudScreen { widgets }
    }

    /// The screen's widgets, row by row.
    pub fn get_widgets(&self) -> (r: &Vec<Vec<Widget>>)
        ensures
            rows_views(r@) == self@,
    {
        &self.widgets
    }

    /// Draws the screen: every widget, row by row.
    pub fn render(&mut self, standing: &Standing, use_finger: &mut bool) -> (out: Vec<
        WidgetDrawing,
    >)
        ensures
            (Rendering {
                drawings: drawing_views(out@),
                rows: final(self)@,
                use_finger: *final(use_finger),
            }) == render_rows(
                Rendering { drawings: Seq::empty(), rows: old(self)@, use_finger: *old(use_finger) },
                *standing,
                old(self)@.len(),
            ),
    {
        render_widgets(&mut self.widgets, standing, use_finger)
    }

    /// Tells the widget at `(row, col)` whether the pointer is over it.
    pub fn set_selected(&mut self, row: usize, col: usize, tf: bool)
        requires
            row < old(self)@.len(),
            col < old(self)@[row as int].len(),
        ensures
            final(self)@ == old(self)@.update(
                row as int,
                old(self)@[row as int].update(
                    col as int,
                    old(self)@[row as int][col as int].with_selected(tf),
                ),
            ),
    {
        select_in_rows(&mut self.widgets, row, col, tf);
    }
}

} // verus!
