//! The screens of the user interface: rows of widgets.

use vstd::prelude::*;
use crate::screens::hud_screen::HudScreen;
use crate::screens::main_menu_screen::MainMenuScreen;
use crate::widget::{
    placed_views, Alignment, PlacedAsset, PlacedAssetView, Standing, Widget, WidgetView,
};

verus! {

/// The views of a row's widgets, in order.
pub open spec fn row_views(row: Seq<Widget>) -> Seq<WidgetView> {
    Seq::new(row.len(), |i: int| row[i]@)
}

/// The views of a screen's rows, in order.
pub open spec fn rows_views(rows: Seq<Vec<Widget>>) -> Seq<Seq<WidgetView>> {
    Seq::new(rows.len(), |i: int| row_views(rows[i]@))
}

/// What one widget puts on screen: its pieces, and the placement they are
/// drawn from, which the layout resolves against the viewport.
#[derive(Debug)]
pub struct WidgetDrawing {
    pub alignment: Alignment,
    pub coords: (i32, i32),
    pub pieces: Vec<PlacedAsset>,
}

/// A widget's drawing as mathematical values.
pub struct WidgetDrawingView {
    pub alignment: Alignment,
    pub coords: (i32, i32),
    pub pieces: Seq<PlacedAssetView>,
}

impl View for WidgetDrawing {
    type V = WidgetDrawingView;

    open spec fn view(&self) -> WidgetDrawingView {
        WidgetDrawingView {
            alignment: self.alignment,
            coords: self.coords,
            pieces: placed_views(self.pieces@),
        }
    }
}

/// The views of a list of drawings, in order.
pub open spec fn drawing_views(drawings: Seq<WidgetDrawing>) -> Seq<WidgetDrawingView> {
    Seq::new(drawings.len(), |i: int| drawings[i]@)
}

/// What drawing a screen comes to: the drawings, the rows of widgets
/// afterwards, and whether the pointer may still be a finger.
pub struct Rendering {
    pub drawings: Seq<WidgetDrawingView>,
    pub rows: Seq<Seq<WidgetView>>,
    pub use_finger: bool,
}

/// Draws the first `n` widgets of the row `r`, in order, after what
/// `before` has drawn.
pub open spec fn render_row(before: Rendering, r: int, standing: Standing, n: nat) -> Rendering
    decreases n,
{
    if n == 0 || r < 0 || r >= before.rows.len() || n > before.rows[r].len() {
        before
    } else {
        let prev = render_row(before, r, standing, (n - 1) as nat);
        let widget = prev.rows[r][n - 1];
        let step = widget.render(standing, prev.use_finger);
        Rendering {
            drawings: prev.drawings.push(
                WidgetDrawingView {
                    alignment: widget.alignment(),
                    coords: widget.coords(),
                    pieces: step.0,
                },
            ),
            rows: prev.rows.update(r, prev.rows[r].update(n - 1, step.1)),
            use_finger: step.2,
        }
    }
}

/// Draws the first `n` rows, in order, after what `before` has drawn.
pub open spec fn render_rows(before: Rendering, standing: Standing, n: nat) -> Rendering
    decreases n,
{
    if n == 0 || n > before.rows.len() {
        before
    } else {
        let prev = render_rows(before, standing, (n - 1) as nat);
        render_row(prev, n - 1, standing, prev.rows[n - 1].len())
    }
}

/// Drawing widgets changes neither the number of rows nor the length of
/// any row.
pub proof fn lemma_render_row_shape(before: Rendering, r: int, standing: Standing, n: nat)
    ensures
        render_row(before, r, standing, n).rows.len() == before.rows.len(),
        forall|i: int|
            0 <= i < before.rows.len() ==> (#[trigger] render_row(before, r, standing, n).rows[i]).len()
                == before.rows[i].len(),
        forall|i: int|
            0 <= i < before.rows.len() && i != r ==> #[trigger] render_row(
                before,
                r,
                standing,
                n,
            ).rows[i] == before.rows[i],
    decreases n,
{
    if !(n == 0 || r < 0 || r >= before.rows.len() || n > before.rows[r].len()) {
        lemma_render_row_shape(before, r, standing, (n - 1) as nat);
    }
}

/// Drawing rows changes neither the number of rows nor the length of any
/// row, and leaves the rows that are not yet drawn as they were.
pub proof fn lemma_render_rows_shape(before: Rendering, standing: Standing, n: nat)
    ensures
        render_rows(before, standing, n).rows.len() == before.rows.len(),
        forall|i: int|
            0 <= i < before.rows.len() ==> (#[trigger] render_rows(before, standing, n).rows[i]).len()
                == before.rows[i].len(),
        forall|i: int|
            n <= i < before.rows.len() ==> #[trigger] render_rows(before, standing, n).rows[i]
                == before.rows[i],
    decreases n,
{
    if !(n == 0 || n > before.rows.len()) {
        lemma_render_rows_shape(before, standing, (n - 1) as nat);
        let prev = render_rows(before, standing, (n - 1) as nat);
        lemma_render_row_shape(prev, n - 1, standing, prev.rows[n - 1].len());
    }
}

/// Which screen it is.
#[derive(Clone, Copy, Debug, PartialEq, Eq, Structural)]
pub enum ScreenKind {
    MainMenu,
    Hud,
}

/// A screen of the user interface.
#[derive(Debug)]
pub enum Screen {
    MainMenu(MainMenuScreen),
    Hud(HudScreen),
}

/// A screen as mathematical values.
pub struct ScreenView {
    pub kind: ScreenKind,
    pub widgets: Seq<Seq<WidgetView>>,
}

impl ScreenView {
    /// What drawing the screen comes to, the pointer being a finger or not
    /// as `use_finger` says: every widget is drawn, row by row.
    pub open spec fn render(self, standing: Standing, use_finger: bool) -> Rendering {
        render_rows(
            Rendering { drawings: Seq::empty(), rows: self.widgets, use_finger },
            standing,
            self.widgets.len(),
        )
    }

    /// The screen with the widget at `(row, col)` told whether the pointer
    /// is over it.
    pub open spec fn with_selected(self, row: int, col: int, tf: bool) -> ScreenView {
        ScreenView {
            widgets: self.widgets.update(
                row,
                self.widgets[row].update(col, self.widgets[row][col].with_selected(tf)),
            ),
            ..self
        }
    }
}

impl View for Screen {
    type V = ScreenView;

    open spec fn view(&self) -> ScreenView {
        match self {
            Screen::MainMenu(s) => ScreenView { kind: ScreenKind::MainMenu, widgets: s@ },
            Screen::Hud(s) => ScreenView { kind: ScreenKind::Hud, widgets: s@ },
        }
    }
}

impl Screen {
    /// The screen's widgets, row by row.
    pub fn get_widgets(&self) -> (r: &Vec<Vec<Widget>>)
        ensures
            rows_views(r@) == self@.widgets,
    {
        match self {
            Screen::MainMenu(s) => s.get_widgets(),
            Screen::Hud(s) => s.get_widgets(),
        }
    }

    /// Draws the screen: every widget, row by row. `use_finger` says
    /// whether the pointer is a finger, and a widget may take that away.
    pub fn render(&mut self, standing: &Standing, use_finger: &mut bool) -> (out: Vec<
        WidgetDrawing,
    >)
        ensures
            final(self)@.kind == old(self)@.kind,
            (Rendering {
                drawings: drawing_views(out@),
                rows: final(self)@.widgets,
                use_finger: *final(use_finger),
            }) == old(self)@.render(*standing, *old(use_finger)),
    {
        match self {
            Screen::MainMenu(s) => s.render(standing, use_finger),
            Screen::Hud(s) => s.render(standing, use_finger),
        }
    }

    /// Tells the widget at `(row, col)` whether the pointer is over it.
    pub fn set_selected(&mut self, row: usize, col: usize, tf: bool)
        requires
            row < old(self)@.widgets.len(),
            col < old(self)@.widgets[row as int].len(),
        ensures
            final(self)@ == old(self)@.with_selected(row as int, col as int, tf),
    {
        match self {
            Screen::MainMenu(s) => s.set_selected(row, col, tf),
            Screen::Hud(s) => s.set_selected(row, col, tf),
        }
    }
}

/// Draws every widget of `rows`, row by row.
pub fn render_widgets(rows: &mut Vec<Vec<Widget>>, standing: &Standing, use_finger: &mut bool) -> (out:
    Vec<WidgetDrawing>)
    ensures
        (Rendering {
            drawings: drawing_views(out@),
            rows: rows_views(final(rows)@),
            use_finger: *final(use_finger),
        }) == render_rows(
            Rendering {
                drawings: Seq::empty(),
                rows: rows_views(old(rows)@),
                use_finger: *old(use_finger),
            },
            *standing,
            old(rows).len() as nat,
        ),
{
    let ghost start = Rendering {
        drawings: Seq::empty(),
        rows: rows_views(rows@),
        use_finger: *use_finger,
    };
    let mut out: Vec<WidgetDrawing> = Vec::new();
    let mut r: usize = 0;
    assert(drawing_views(out@) =~= Seq::empty());
    while r < rows.len()
        invariant
            r <= rows.len(),
            rows.len() == start.rows.len(),
            (Rendering {
                drawings: drawing_views(out@),
                rows: rows_views(rows@),
                use_finger: *use_finger,
            }) == render_rows(start, *standing, r as nat),
        decreases rows.len() - r,
    {
        let ghost row_start = render_rows(start, *standing, r as nat);
        let mut w: usize = 0;
        while w < rows[r].len()
            invariant
                r < rows.len(),
                w <= rows@[r as int].len(),
                rows.len() == start.rows.len(),
                row_start == render_rows(start, *standing, r as nat),
                row_start.rows.len() == rows.len(),
                row_start.rows[r as int].len() == rows@[r as int].len(),
                (Rendering {
                    drawings: drawing_views(out@),
                    rows: rows_views(rows@),
                    use_finger: *use_finger,
                }) == render_row(row_start, r as int, *standing, w as nat),
            decreases rows@[r as int].len() - w,
        {
            let ghost prev = render_row(row_start, r as int, *standing, w as nat);
            let ghost out_before = out@;
            let ghost rows_before = rows@;
            assert(prev.rows[r as int][w as int] == rows@[r as int]@[w as int]@);
            let alignment = rows[r][w].get_allignment();
            let coords = rows[r][w].get_screen_coordinates();
            let pieces = rows[r][w].render(standing, use_finger);
            out.push(WidgetDrawing { alignment, coords, pieces });
            proof {
                let widget = prev.rows[r as int][w as int];
                let step = widget.render(*standing, prev.use_finger);
                let next = render_row(row_start, r as int, *standing, (w + 1) as nat);
                lemma_render_row_shape(row_start, r as int, *standing, w as nat);
                assert(drawing_views(out@) =~= next.drawings);
                assert(rows_views(rows@).len() == next.rows.len());
                assert forall|i: int| 0 <= i < next.rows.len() implies rows_views(rows@)[i]
                    == next.rows[i] by {
                    if i == r {
                        assert(rows_views(rows@)[i] =~= next.rows[i]);
                    } else {
                        assert(rows@[i] == rows_before[i]);
                        assert(rows_views(rows@)[i] == rows_views(rows_before)[i]);
                    }
                }
                assert(rows_views(rows@) =~= next.rows);
            }
            w += 1;
        }
        r += 1;
        proof {
            lemma_render_rows_shape(start, *standing, r as nat);
        }
    }
    out
}

/// Tells the widget at `(row, col)` of `rows` whether the pointer is over
/// it.
pub fn select_in_rows(rows: &mut Vec<Vec<Widget>>, row: usize, col: usize, tf: bool)
    requires
        row < old(rows).len(),
        col < old(rows)@[row as int].len(),
    ensures
        rows_views(final(rows)@) == rows_views(old(rows)@).update(
            row as int,
            rows_views(old(rows)@)[row as int].update(
                col as int,
                rows_views(old(rows)@)[row as int][col as int].with_selected(tf),
            ),
        ),
{
    rows[row][col].set_selected(tf);
    proof {
        let want = rows_views(old(rows)@).update(
            row as int,
            rows_views(old(rows)@)[row as int].update(
                col as int,
                rows_views(old(rows)@)[row as int][col as int].with_selected(tf),
            ),
        );
        assert(rows_views(rows@).len() == want.len());
        assert forall|i: int| 0 <= i < want.len() implies rows_views(rows@)[i] == want[i] by {
            assert(rows_views(rows@)[i] =~= want[i]);
        }
        assert(rows_views(rows@) =~= want);
    }
}

} // verus!
