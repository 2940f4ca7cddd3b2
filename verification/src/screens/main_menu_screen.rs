//! The screen the game opens with.

use vstd::prelude::*;
use crate::screen::{
    drawing_views, render_rows, render_widgets, row_views, rows_views, select_in_rows, Rendering,
    WidgetDrawing,
};
use crate::widget::{Alignment, Standing, Widget, WidgetView};
use crate::widgets::play_widget::{PlayWidget, PlayWidgetView};
use crate::widgets::quit_widget::{QuitWidget, QuitWidgetView};

verus! {

/// The main menu: a button that starts a match and one that stops the
/// game.
#[derive(Debug)]
pub struct MainMenuScreen {
    widgets: Vec<Vec<Widget>>,
}

/// The widgets of the main menu as it is made: one row.
pub open spec fn main_menu_widgets() -> Seq<Seq<WidgetView>> {
    seq![
        seq![
            WidgetView::Play(PlayWidgetView::fresh(Alignment::LEFT, 60, 0)),
            WidgetView::Quit(QuitWidgetView::fresh(Alignment::LEFT, 60, -40i32)),
        ],
    ]
}

impl View for MainMenuScreen {
    type V = Seq<Seq<WidgetView>>;

    closed spec fn view(&self) -> Seq<Seq<WidgetView>> {
        rows_views(self.widgets@)
    }
}

impl MainMenuScreen {
    /// The main menu, with the pointer over none of its widgets.
    pub fn create() -> (r: MainMenuScreen)
        ensures
            r@ == main_menu_widgets(),
    {
        let mut row: Vec<Widget> = Vec::new();
        row.push(Widget::Play(PlayWidget::create(Alignment::LEFT, 60, 0)));
        row.push(Widget::Quit(QuitWidget::create(Alignment::LEFT, 60, -40)));
        let mut widgets: Vec<Vec<Widget>> = Vec::new();
        widgets.push(row);
        proof {
            assert(row_views(widgets@[0]@) =~= main_menu_widgets()[0]);
            assert(rows_views(widgets@) =~= main_menu_widgets());
        }
        MainMenuScreen { widgets }
    }

    /// The screen's widgets, row by row.
    pub fn get_widgets(&self) -> (r: &Vec<Vec<Widget>>)
        ensures
            rows_views(r@) == self@,
    {
        &self.widgets
    }

    /// Draws the screen: every widget, row by row.
    pub fn render(&mut self, standing: &Standing, use_finger: &mut bool) -> (out: Vec<
        WidgetDrawing,
    >)
        ensures
            (Rendering {
                drawings: drawing_views(out@),
                rows: final(self)@,
                use_finger: *final(use_finger),
            }) == render_rows(
                Rendering { drawings: Seq::empty(), rows: old(self)@, use_finger: *old(use_finger) },
                *standing,
                old(self)@.len(),
            ),
    {
        render_widgets(&mut self.widgets, standing, use_finger)
    }

    /// Tells the widget at `(row, col)` whether the pointer is over it.
    pub fn set_selected(&mut self, row: usize, col: usize, tf: bool)
        requires
            row < old(self)@.len(),
            col < old(self)@[row as int].len(),
        ensures
            final(self)@ == old(self)@.update(
                row as int,
                old(self)@[row as int].update(
                    col as int,
                    old(self)@[row as int][col as int].with_selected(tf),
                ),
            ),
    {
        select_in_rows(&mut self.widgets, row, col, tf);
    }
}

} // verus!
