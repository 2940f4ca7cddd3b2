//! The game: the entities, the round that is being played, the scores, and
//! what happens in a frame.

use vstd::prelude::*;
use crate::asset::{invisible, AssetData, AssetDataView, Region};
use crate::board::{
    board, deal_positions, dealt_position, draw_indices, lemma_dealt_positions_distinct,
    valid_draws,
};
use crate::card::{empty_card, Card, CardView};
use crate::depth::{is_depth_order, lemma_depth_order_unique, order_sort};
use crate::frame::{depth_order, entity_sprites, sprite_views, Frame, FrameView, Pointer, Sprite};
use crate::entity::{
    entity_views, lemma_selection_cap, tick_all, tick_entities, CameraEntity, CameraEntityView,
    CardEntity, CardEntityView, Entity, EntityView,
};
use crate::input::{InputEvent, Key};
use crate::laws::lemma_deck_dealing;
use crate::pairs::{
    in_step, lemma_advance_keeps_step, lemma_handle_input_keeps_step, lemma_scene_in_step,
    verdict_arrives,
};
use crate::resource_location::ResourceLocation;
use crate::screen::{
    drawing_views, row_views, rows_views, Rendering, Screen, ScreenKind, ScreenView,
    WidgetDrawing,
};
use crate::screens::hud_screen::{hud_widgets, HudScreen};
use crate::session::{Session, SessionView};
use crate::sound::{request_views, Sound, SoundRequest};
use crate::turn::Turn;
use crate::widget::{Standing, Widget, WidgetAction, WidgetView, PAIRS};

verus! {

/// How long the board stays frozen after a round, in microseconds.
pub const PAUSE: i64 = 2_000_000;

/// The value of the pause timer while no pause is under way.
pub const IDLE: i64 = -1_000_000;

/// How many different cards a deck may hold: one for every two places of
/// the board.
pub const DECK_LIMIT: usize = 9;

/// A game.
#[derive(Debug)]
pub struct Game {
    entities: Vec<Entity>,
    player: Option<usize>,
    session: Session,
    running: bool,
    current_screen: Option<Screen>,
    draw_mouse: bool,
    sf: i32,
    dims: (u32, u32),
    score: u64,
    debug: bool,
    exclusive_clicks: bool,
    cards: Vec<Card>,
    wait_timer: i64,
    player_1_score: u32,
    player_2_score: u32,
}

/// A game as mathematical values.
pub struct GameView {
    /// The entities, in the order in which they are updated.
    pub entities: Seq<EntityView>,
    /// The place in `entities` of the entity the board is seen from.
    pub player: Option<usize>,
    /// The frame's input, the round's picks, whose move it is, and the
    /// sounds.
    pub session: SessionView,
    /// Whether the game goes on.
    pub running: bool,
    /// The screen that is shown, if any.
    pub current_screen: Option<ScreenView>,
    /// Whether the pointer is drawn.
    pub draw_mouse: bool,
    /// The scale at which everything is drawn.
    pub sf: i32,
    /// The size of the viewport.
    pub dims: (u32, u32),
    /// For how long a match has been on the board, in microseconds.
    pub score: u64,
    /// Whether the debug overlay is shown.
    pub debug: bool,
    /// Whether a click goes to the first widget under the pointer only,
    /// and not to every widget under it.
    pub exclusive_clicks: bool,
    /// The deck: the cards that a match is dealt from.
    pub cards: Seq<CardView>,
    /// Microseconds of the pause that are left; negative when no pause is
    /// under way.
    pub wait_timer: i64,
    pub player_1_score: u32,
    pub player_2_score: u32,
}

/// The views of a deck's cards, in order.
pub open spec fn card_views(cards: Seq<Card>) -> Seq<CardView> {
    Seq::new(cards.len(), |i: int| cards[i]@)
}

/// Whether a deck holds a card of the given name.
pub open spec fn has_name(cards: Seq<CardView>, name: Seq<char>) -> bool {
    exists|i: int| 0 <= i < cards.len() && (#[trigger] cards[i]).name == name
}

/// The place in a deck of a card of the given name, if it holds one.
pub open spec fn name_index(cards: Seq<CardView>, name: Seq<char>) -> Option<int> {
    if has_name(cards, name) {
        Some(choose|i: int| 0 <= i < cards.len() && (#[trigger] cards[i]).name == name)
    } else {
        None
    }
}

/// Whether no two cards of a deck bear the same name.
pub open spec fn distinct_names(cards: Seq<CardView>) -> bool {
    forall|i: int, j: int| 0 <= i < j < cards.len() ==> cards[i].name != cards[j].name
}

/// The face of a dealt card: the card-sized region of its texture.
pub open spec fn card_face(card: CardView) -> AssetDataView {
    AssetDataView {
        uv: Some(Region { x: 0, y: 0, w: 45, h: 68 }),
        origin: (23i32, 34i32),
        resource_location: card.texture,
    }
}

/// Which card of a deck of `n` the dealt card number `k` shows: the deck
/// is dealt through twice.
pub open spec fn deck_index(n: int, k: int) -> int {
    if k < n {
        k
    } else {
        k - n
    }
}

/// The entities of a match dealt from `cards`: a camera, then two cards
/// for every card of the deck, the whole deck once and then once more,
/// each at the place its draw deals. `ids` are the entities' identities.
pub open spec fn scene_entities(cards: Seq<CardView>, draws: Seq<usize>, ids: Seq<u128>) -> Seq<
    EntityView,
> {
    Seq::new(
        1 + 2 * cards.len(),
        |i: int|
            if i == 0 {
                EntityView::Camera(CameraEntityView::fresh(invisible(), ids[0]))
            } else {
                EntityView::Card(
                    CardEntityView::fresh(
                        card_face(cards[deck_index(cards.len() as int, i - 1)]),
                        dealt_position(draws, i - 1),
                        cards[deck_index(cards.len() as int, i - 1)],
                        ids[i],
                    ),
                )
            },
    )
}

/// Whether `entities` are a match dealt from `cards`: a camera at the
/// origin, then two cards for every card of the deck, every card face down
/// at a place of the board and no two at the same place; the card of the
/// deck at `k` is shown by the dealt cards at `1 + k` and `1 + n + k`, and,
/// the deck's names being different, by no other.
pub open spec fn well_dealt(entities: Seq<EntityView>, cards: Seq<CardView>) -> bool {
    let n = cards.len() as int;
    &&& entities.len() == 2 * n + 1
    &&& entities[0] is Camera
    &&& entities[0].coords() == (0i32, 0i32)
    &&& forall|i: int|
        1 <= i <= 2 * n ==> {
            let e = #[trigger] entities[i];
            &&& e.is_card()
            &&& board().contains(e.card().base)
            &&& e.card().coords == e.card().base
            &&& !e.card().selected && !e.card().success && !e.card().hover
        }
    &&& forall|i: int, j: int|
        1 <= i < j <= 2 * n ==> (#[trigger] entities[i]).card().base != (
        #[trigger] entities[j]).card().base
    &&& forall|k: int|
        0 <= k < n ==> entities[1 + k].card().card == #[trigger] cards[k] && entities[1 + n
            + k].card().card == cards[k]
    &&& distinct_names(cards) ==> forall|k: int, i: int|
        0 <= k < n && 1 <= i <= 2 * n ==> ((#[trigger] entities[i]).card().card.name == (
        #[trigger] cards[k]).name <==> (i == 1 + k || i == 1 + n + k))
}

/// Whether `draws` and `ids` can deal a match from a deck of `n` cards:
/// a valid draw for each of the `2 n` cards, and an identity for each of
/// them and for the camera.
pub open spec fn is_deal(n: nat, draws: Seq<usize>, ids: Seq<u128>) -> bool {
    valid_draws(draws, 2 * n) && ids.len() == 2 * n + 1
}

impl GameView {
    /// What holds of every game: the entities are well formed, a game with
    /// entities has one of them to see the board from, no more than two
    /// cards are picked, and the cards of the deck differ in name.
    pub open spec fn wf(self) -> bool {
        &&& forall|i: int| 0 <= i < self.entities.len() ==> (#[trigger] self.entities[i]).wf()
        &&& self.entities.len() > 0 ==> self.camera().is_some()
        &&& self.session.selected_count <= 2
        &&& distinct_names(self.cards)
    }

    /// The position the board is seen from, if the game has an entity for
    /// it.
    pub open spec fn camera(self) -> Option<(i32, i32)> {
        match self.player {
            Some(p) => if p < self.entities.len() {
                Some(self.entities[p as int].coords())
            } else {
                None
            },
            None => None,
        }
    }

    /// What widgets may know of the match.
    pub open spec fn standing(self) -> Standing {
        Standing {
            player_1_score: self.player_1_score,
            player_2_score: self.player_2_score,
            current_turn: self.session.current_turn,
            wait_timer: self.wait_timer,
            prev_success: self.session.prev_success,
        }
    }

    /// Whether the two picks of the round match.
    pub open spec fn picks_match(self) -> bool {
        self.session.selected_cards.0.name == self.session.selected_cards.1.name
    }

    /// The game after the round has been evaluated, if two cards are
    /// picked: the picks are cleared, the verdict is noted, the pause
    /// begins, and the move passes to the other player unless the picks
    /// match.
    pub open spec fn evaluate(self) -> GameView {
        if self.session.selected_count == 2 {
            GameView {
                session: SessionView {
                    selected_count: 0,
                    selected_cards: (empty_card(), empty_card()),
                    prev_success: self.picks_match(),
                    current_turn: if self.picks_match() {
                        self.session.current_turn
                    } else {
                        self.session.current_turn.other()
                    },
                    ..self.session
                },
                wait_timer: PAUSE,
                ..self
            }
        } else {
            self
        }
    }

    /// The game after `delta` microseconds have been added to the time a
    /// match has been on the board. The time stops at the largest value
    /// the machine can hold.
    pub open spec fn clocked(self, delta: u32) -> GameView {
        if self.entities.len() > 0 {
            GameView {
                score: if self.score + delta <= u64::MAX {
                    (self.score + delta) as u64
                } else {
                    u64::MAX
                },
                ..self
            }
        } else {
            self
        }
    }

    /// The game after a frame in which no pause is under way: every
    /// entity is updated, a match that was found is scored for the player
    /// whose move it is, and the verdict is spent.
    pub open spec fn play(self) -> GameView {
        let ticked = tick_all(
            self.entities,
            self.camera(),
            self.session,
            self.entities.len(),
        );
        let scored = ticked.1.prev_success;
        GameView {
            entities: ticked.0,
            session: SessionView { prev_success: false, ..ticked.1 },
            player_1_score: if scored && ticked.1.current_turn == Turn::Player1 {
                (self.player_1_score + 1) as u32
            } else {
                self.player_1_score
            },
            player_2_score: if scored && ticked.1.current_turn == Turn::Player2 {
                (self.player_2_score + 1) as u32
            } else {
                self.player_2_score
            },
            ..self
        }
    }

    /// The game after the first half of a frame that lasted `delta`
    /// microseconds: the round is evaluated if two cards are picked; then,
    /// while a pause is under way, the pause runs down and nothing else
    /// moves; else the entities are updated and a match is scored.
    pub open spec fn advance(self, delta: u32) -> GameView {
        let g = self.evaluate().clocked(delta);
        if g.wait_timer < 0 {
            g.play()
        } else {
            GameView { wait_timer: (g.wait_timer - delta) as i64, ..g }
        }
    }

    /// Whether a match is scored in the frame that begins: two cards are
    /// not waiting to be evaluated, no pause is under way, and a match is
    /// still to be carried out.
    pub open spec fn scores_now(self) -> bool {
        self.session.selected_count != 2 && self.wait_timer < 0 && self.session.prev_success
    }

    /// Who has won, if the match is over: the first player with strictly
    /// more pairs than the second, else the second.
    pub open spec fn winner(self) -> Option<Turn> {
        if self.player_1_score + self.player_2_score == PAIRS {
            if self.player_1_score > self.player_2_score {
                Some(Turn::Player1)
            } else {
                Some(Turn::Player2)
            }
        } else {
            None
        }
    }

    /// The game after a match has been dealt from its deck: the round and
    /// the scores start over, and the entities are replaced by a camera
    /// and the dealt cards. Input, sounds, screen and settings stay.
    pub open spec fn scene(self, draws: Seq<usize>, ids: Seq<u128>) -> GameView {
        GameView {
            entities: scene_entities(self.cards, draws, ids),
            player: Some(0usize),
            session: SessionView {
                current_turn: Turn::Player1,
                selected_count: 0,
                selected_cards: (empty_card(), empty_card()),
                prev_success: false,
                ..self.session
            },
            wait_timer: IDLE,
            player_1_score: 0,
            player_2_score: 0,
            ..self
        }
    }

    /// Whether a match can be dealt: the board has two places for every
    /// card of the deck.
    pub open spec fn can_deal(self) -> bool {
        self.cards.len() <= DECK_LIMIT
    }

    /// What drawing the frame comes to: the frame, and the game
    /// afterwards. The entities are drawn back to front as seen from the
    /// camera, then the screen's widgets; a widget may take the finger
    /// from the pointer, and a banner takes in the standing.
    pub open spec fn render(self) -> (FrameView, GameView) {
        let populated = self.entities.len() > 0;
        let drawn = match self.current_screen {
            Some(s) => s.render(self.standing(), self.session.use_finger),
            None => Rendering {
                drawings: Seq::empty(),
                rows: Seq::empty(),
                use_finger: self.session.use_finger,
            },
        };
        (
            FrameView {
                camera: if populated {
                    self.camera()
                } else {
                    None
                },
                entities: if populated {
                    entity_sprites(self.entities, self.camera().unwrap())
                } else {
                    Seq::empty()
                },
                widgets: drawn.drawings,
                pointer: if self.draw_mouse {
                    Some(
                        if drawn.use_finger {
                            Pointer::Finger
                        } else {
                            Pointer::Cursor
                        },
                    )
                } else {
                    None
                },
            },
            GameView {
                current_screen: match self.current_screen {
                    Some(s) => Some(ScreenView { widgets: drawn.rows, ..s }),
                    None => None,
                },
                session: SessionView { use_finger: drawn.use_finger, ..self.session },
                ..self
            },
        )
    }

    /// A game in which nothing has happened yet.
    pub open spec fn fresh() -> GameView {
        GameView {
            entities: Seq::empty(),
            player: None,
            session: SessionView::fresh(),
            running: true,
            current_screen: None,
            draw_mouse: true,
            sf: 6,
            dims: (0u32, 0u32),
            score: 0,
            debug: false,
            exclusive_clicks: false,
            cards: Seq::empty(),
            wait_timer: IDLE,
            player_1_score: 0,
            player_2_score: 0,
        }
    }
}

/// What a frame's input has come to so far: whether the game goes on,
/// whether the debug overlay is shown, whether a new match was dealt, and
/// whether a widget has taken the click that is being handled.
pub struct Control {
    pub running: bool,
    pub debug: bool,
    pub restarted: bool,
    pub clicked: bool,
}

/// The standing of a match that has just been dealt.
pub open spec fn fresh_standing() -> Standing {
    Standing {
        player_1_score: 0,
        player_2_score: 0,
        current_turn: Turn::Player1,
        wait_timer: IDLE,
        prev_success: false,
    }
}

/// The standing that a widget sees when it is clicked: that of the new
/// match once one was dealt in this frame, else that of the frame's start.
pub open spec fn standing_now(c: Control, standing: Standing) -> Standing {
    if c.restarted {
        fresh_standing()
    } else {
        standing
    }
}

/// What an action of a widget does.
pub open spec fn apply_action(c: Control, action: WidgetAction) -> Control {
    match action {
        WidgetAction::Nothing => c,
        WidgetAction::StartMatch => Control { restarted: true, ..c },
        WidgetAction::Quit => Control { running: false, ..c },
    }
}

/// What a left click does to one widget: a widget that has the pointer
/// over it is clicked, every other is passed over. Where clicks are
/// exclusive, a widget is passed over too once another has taken the
/// click.
pub open spec fn click_widget(c: Control, w: WidgetView, standing: Standing, exclusive: bool)
    -> Control {
    if w.selected() && !(exclusive && c.clicked) {
        Control { clicked: true, ..apply_action(c, w.on_click(standing_now(c, standing))) }
    } else {
        c
    }
}

/// What a left click does to the first `n` widgets of a row, in order.
pub open spec fn click_row(
    c: Control,
    row: Seq<WidgetView>,
    standing: Standing,
    exclusive: bool,
    n: nat,
) -> Control
    decreases n,
{
    if n == 0 || n > row.len() {
        c
    } else {
        click_widget(
            click_row(c, row, standing, exclusive, (n - 1) as nat),
            row[n - 1],
            standing,
            exclusive,
        )
    }
}

/// What a left click does to the first `n` rows of a screen, in order.
/// Unless clicks are exclusive, every widget that has the pointer over it
/// is clicked, not only the first.
pub open spec fn click_rows(
    c: Control,
    rows: Seq<Seq<WidgetView>>,
    standing: Standing,
    exclusive: bool,
    n: nat,
) -> Control
    decreases n,
{
    if n == 0 || n > rows.len() {
        c
    } else {
        click_row(
            click_rows(c, rows, standing, exclusive, (n - 1) as nat),
            rows[n - 1],
            standing,
            exclusive,
            rows[n - 1].len(),
        )
    }
}

/// What one event does. A quit request or Escape stops the game, the
/// debug key toggles the overlay, and a left click goes to the widgets of
/// the screen that was shown at the frame's start, unless a new match has
/// been dealt since: the new screen has the pointer over none of its
/// widgets.
pub open spec fn handle_event(
    c: Control,
    event: InputEvent,
    screen: Option<ScreenView>,
    standing: Standing,
    exclusive: bool,
) -> Control {
    if event.is_quit() {
        Control { running: false, ..c }
    } else if event.is_debug_toggle() {
        Control { debug: !c.debug, ..c }
    } else if event.is_left_click() && !c.restarted {
        match screen {
            Some(s) => click_rows(
                Control { clicked: false, ..c },
                s.widgets,
                standing,
                exclusive,
                s.widgets.len(),
            ),
            None => c,
        }
    } else {
        c
    }
}

/// What the first `n` events of a frame do, in order.
pub open spec fn handle_events(
    c: Control,
    events: Seq<InputEvent>,
    screen: Option<ScreenView>,
    standing: Standing,
    exclusive: bool,
    n: nat,
) -> Control
    decreases n,
{
    if n == 0 || n > events.len() {
        c
    } else {
        handle_event(
            handle_events(c, events, screen, standing, exclusive, (n - 1) as nat),
            events[n - 1],
            screen,
            standing,
            exclusive,
        )
    }
}

/// The screen of a match as it is made.
pub open spec fn hud_screen() -> ScreenView {
    ScreenView { kind: ScreenKind::Hud, widgets: hud_widgets() }
}

/// Draws and identities that deal a match from a deck of `n` cards: every
/// draw takes the first free place.
pub open spec fn first_deal(n: nat) -> (Seq<usize>, Seq<u128>) {
    (Seq::new(2 * n, |i: int| 0usize), Seq::new(2 * n + 1, |i: int| 0u128))
}

impl GameView {
    /// What the frame's input comes to.
    pub open spec fn control(self) -> Control {
        handle_events(
            Control {
                running: self.running,
                debug: self.debug,
                restarted: false,
                clicked: false,
            },
            self.session.events,
            self.current_screen,
            self.standing(),
            self.exclusive_clicks,
            self.session.events.len(),
        )
    }

    /// The game while the frame's input is being handled and has come to
    /// `c`, a match that was dealt having been dealt with `draws` and
    /// `ids`. The screen is set aside meanwhile.
    pub open spec fn mid_input(self, c: Control, draws: Seq<usize>, ids: Seq<u128>) -> GameView {
        let g = if c.restarted {
            self.scene(draws, ids)
        } else {
            self
        };
        GameView { running: c.running, debug: c.debug, current_screen: None, ..g }
    }

    /// The game after the second half of a frame, in which the frame's
    /// events are handled in order. Where a click starts a match, the
    /// match is dealt with `draws` and `ids` and its screen is shown.
    pub open spec fn handle_input(self, draws: Seq<usize>, ids: Seq<u128>) -> GameView {
        let c = self.control();
        GameView {
            current_screen: if c.restarted {
                Some(hud_screen())
            } else {
                self.current_screen
            },
            ..self.mid_input(c, draws, ids)
        }
    }
}

/// The view of a screen that may be missing.
pub open spec fn screen_view(screen: Option<Screen>) -> Option<ScreenView> {
    match screen {
        Some(s) => Some(s@),
        None => None,
    }
}

/// Whether `now` is the game `start` in the middle of its frame's input,
/// which has come to `c`, a match that was dealt having been dealt with
/// `deal`.
pub open spec fn in_mid(
    now: GameView,
    start: GameView,
    c: Control,
    deal: (Seq<usize>, Seq<u128>),
) -> bool {
    &&& start.wf()
    &&& start.can_deal()
    &&& is_deal(start.cards.len(), deal.0, deal.1)
    &&& now == start.mid_input(c, deal.0, deal.1)
    &&& now.wf()
}

impl View for Game {
    type V = GameView;

    closed spec fn view(&self) -> GameView {
        GameView {
            entities: entity_views(self.entities@),
            player: self.player,
            session: self.session@,
            running: self.running,
            current_screen: match self.current_screen {
                Some(s) => Some(s@),
                None => None,
            },
            draw_mouse: self.draw_mouse,
            sf: self.sf,
            dims: self.dims,
            score: self.score,
            debug: self.debug,
            exclusive_clicks: self.exclusive_clicks,
            cards: card_views(self.cards@),
            wait_timer: self.wait_timer,
            player_1_score: self.player_1_score,
            player_2_score: self.player_2_score,
        }
    }
}

impl Game {
    /// A game with no entities, no screen and an empty deck, in which the
    /// first player is to move.
    pub fn initiate() -> (r: Game)
        ensures
            r@ == GameView::fresh(),
            r@.wf(),
            in_step(r@),
    {
        let r = Game {
            entities: Vec::new(),
            player: None,
            session: Session::new(),
            running: true,
            current_screen: None,
            draw_mouse: true,
            sf: 6,
            dims: (0, 0),
            score: 0,
            debug: false,
            exclusive_clicks: false,
            cards: Vec::new(),
            wait_timer: IDLE,
            player_1_score: 0,
            player_2_score: 0,
        };
        assert(r@.entities =~= Seq::empty());
        assert(r@.cards =~= Seq::empty());
        assert(crate::pairs::resolved_pairs(r@.entities, 0, 0) == 0);
        r
    }

    /// The entity the board is seen from, if the game has one.
    pub fn get_player(&self) -> (r: Option<&Entity>)
        ensures
            match r {
                Some(e) => self@.camera() == Some(e@.coords()) && self@.player.is_some() && e@
                    == self@.entities[self@.player.unwrap() as int],
                None => self@.camera().is_none(),
            },
    {
        match self.player {
            Some(p) => if p < self.entities.len() {
                Some(&self.entities[p])
            } else {
                None
            },
            None => None,
        }
    }

    /// The position the board is seen from, if the game has an entity for
    /// it.
    pub fn camera(&self) -> (r: Option<(i32, i32)>)
        ensures
            r == self@.camera(),
    {
        match self.get_player() {
            Some(e) => Some(e.get_coords()),
            None => None,
        }
    }

    pub fn get_player_1_score(&self) -> (r: u32)
        ensures
            r == self@.player_1_score,
    {
        self.player_1_score
    }

    pub fn get_player_2_score(&self) -> (r: u32)
        ensures
            r == self@.player_2_score,
    {
        self.player_2_score
    }

    /// Whose move it is.
    pub fn get_turn(&self) -> (r: Turn)
        ensures
            r == self@.session.current_turn,
    {
        self.session.current_turn.clone()
    }

    /// What widgets may know of the match.
    pub fn standing(&self) -> (r: Standing)
        ensures
            r == self@.standing(),
    {
        Standing {
            player_1_score: self.player_1_score,
            player_2_score: self.player_2_score,
            current_turn: self.session.current_turn,
            wait_timer: self.wait_timer,
            prev_success: self.session.prev_success,
        }
    }

    /// Who has won, if the match is over. A match that ends level goes to
    /// the second player.
    pub fn winner(&self) -> (r: Option<Turn>)
        ensures
            r == self@.winner(),
    {
        if self.player_1_score as u64 + self.player_2_score as u64 == PAIRS {
            if self.player_1_score > self.player_2_score {
                Some(Turn::Player1)
            } else {
                Some(Turn::Player2)
            }
        } else {
            None
        }
    }

    /// Asks for the sound `resource_location` to be played. The request
    /// joins the queue as the file to play, or as a note that no sound is
    /// known under that key.
    pub fn play_sound(&mut self, resource_location: ResourceLocation)
        ensures
            final(self)@ == (GameView {
                session: old(self)@.session.play(resource_location@),
                ..old(self)@
            }),
    {
        self.session.play_sound(&resource_location);
    }

    /// Adds `card` to the deck. A card of the same name that the deck
    /// already holds is replaced, in its place.
    pub fn register_card(&mut self, card: Card)
        requires
            old(self)@.wf(),
        ensures
            final(self)@.wf(),
            final(self)@ == (GameView {
                cards: match name_index(old(self)@.cards, card@.name) {
                    Some(i) => old(self)@.cards.update(i, card@),
                    None => old(self)@.cards.push(card@),
                },
                ..old(self)@
            }),
    {
        let ghost before = self@.cards;
        let mut found: Option<usize> = None;
        let mut i: usize = 0;
        while i < self.cards.len() && found.is_none()
            invariant
                i <= self.cards.len(),
                self@ == old(self)@,
                before == self@.cards,
                forall|j: int| 0 <= j < i ==> (#[trigger] before[j]).name != card@.name,
                match found {
                    Some(at) => at == i && i < self.cards.len() && before[at as int].name
                        == card@.name,
                    None => true,
                },
            decreases self.cards.len() - i + if found.is_none() { 1int } else { 0int },
        {
            if self.cards[i].matches(&card) {
                assert(before[i as int] == self.cards@[i as int]@);
                found = Some(i);
            } else {
                assert(before[i as int] == self.cards@[i as int]@);
                i += 1;
            }
        }
        match found {
            Some(at) => {
                proof {
                    assert(has_name(before, card@.name));
                    let w = name_index(before, card@.name).unwrap();
                    assert(before[w].name == before[at as int].name);
                    assert(w == at);
                }
                self.cards.set(at, card);
                assert(self@.cards =~= before.update(at as int, card@));
            },
            None => {
                self.cards.push(card);
                assert(self@.cards =~= before.push(card@));
            },
        }
    }

    /// Deals a match with the given draws: the round and the scores start
    /// over, and the entities are replaced by a camera and two cards for
    /// every card of the deck, each at the place its draw deals.
    pub fn create_scene_from_draws(&mut self, draws: &Vec<usize>)
        requires
            old(self)@.wf(),
            valid_draws(draws@, 2 * old(self)@.cards.len()),
        ensures
            final(self)@.wf(),
            exists|ids: Seq<u128>| #[trigger]
                is_deal(old(self)@.cards.len(), draws@, ids) && final(self)@ == old(self)@.scene(
                    draws@,
                    ids,
                ),
            well_dealt(final(self)@.entities, old(self)@.cards),
            in_step(final(self)@),
    {
        self.session.current_turn = Turn::Player1;
        self.session.selected_count = 0;
        self.session.selected_cards = (Card::empty(), Card::empty());
        self.session.prev_success = false;
        self.wait_timer = IDLE;
        self.player_1_score = 0;
        self.player_2_score = 0;
        let places = deal_positions(draws);
        let n = self.cards.len();
        let ghost cards = old(self)@.cards;
        let mut entities: Vec<Entity> = Vec::new();
        let camera = CameraEntity::create(AssetData::invisible());
        let ghost mut ids: Seq<u128> = seq![camera@.uuid];
        entities.push(Entity::Camera(camera));
        proof {
            lemma_dealt_positions_distinct(draws@, (2 * n) as nat);
            crate::board::lemma_board_places();
        }
        let mut k: usize = 0;
        while k < 2 * n
            invariant
                k <= 2 * n,
                n == self.cards.len(),
                n <= DECK_LIMIT,
                cards == card_views(self.cards@),
                places.len() == 2 * n,
                valid_draws(draws@, (2 * n) as nat),
                forall|j: int| 0 <= j < places.len() ==> #[trigger] places@[j] == dealt_position(draws@, j),
                forall|j: int|
                    0 <= j < 2 * n ==> board().contains(#[trigger] dealt_position(draws@, j)),
                forall|i: int| 0 <= i < board().len() ==> (#[trigger] board()[i]).1 >= -70,
                entities.len() == k + 1,
                ids.len() == k + 1,
                forall|i: int|
                    0 <= i < entities.len() ==> (#[trigger] entities@[i])@ == scene_entities(
                        cards,
                        draws@,
                        ids,
                    )[i],
                forall|i: int| 0 <= i < entities.len() ==> (#[trigger] entities@[i])@.wf(),
            decreases 2 * n - k,
        {
            let card = if k < n {
                &self.cards[k]
            } else {
                &self.cards[k - n]
            };
            let place = places[k];
            proof {
                assert(board().contains(dealt_position(draws@, k as int)));
                let w = choose|w: int| 0 <= w < board().len() && board()[w] == place;
                assert(board()[w].1 >= -70);
            }
            let face = AssetData {
                uv: Some(Region { x: 0, y: 0, w: 45, h: 68 }),
                origin: (23, 34),
                resource_location: card.get_texture_location(),
            };
            let dealt = CardEntity::create(face, place.0, place.1, card.clone());
            let ghost ids_before = ids;
            proof {
                ids = ids.push(dealt@.uuid);
                assert forall|i: int| 0 <= i < entities.len() implies (#[trigger] entities@[i])@
                    == scene_entities(cards, draws@, ids)[i] by {
                    assert(entities@[i]@ == scene_entities(cards, draws@, ids_before)[i]);
                    assert(ids[i] == ids_before[i]);
                }
            }
            entities.push(Entity::Card(dealt));
            k += 1;
        }
        self.entities = entities;
        self.player = Some(0);
        proof {
            assert(self@.entities =~= scene_entities(cards, draws@, ids));
            assert(is_deal(old(self)@.cards.len(), draws@, ids));
            assert(self@ == old(self)@.scene(draws@, ids));
            lemma_deck_dealing(old(self)@, draws@, ids);
            lemma_scene_in_step(old(self)@, draws@, ids);
            assert forall|i: int| 0 <= i < self@.entities.len() implies (
            #[trigger] self@.entities[i]).wf() by {
                assert(self.entities@[i]@.wf());
            }
        }
    }

    /// Deals a match at random: the round and the scores start over, and
    /// the entities are replaced by a camera and two cards for every card
    /// of the deck, each at a place of its own, drawn at random from the
    /// places that are still free.
    pub fn create_memory_game_scene(&mut self)
        requires
            old(self)@.wf(),
            old(self)@.can_deal(),
        ensures
            final(self)@.wf(),
            exists|draws: Seq<usize>, ids: Seq<u128>| #[trigger]
                is_deal(old(self)@.cards.len(), draws, ids) && final(self)@ == old(self)@.scene(
                    draws,
                    ids,
                ),
            well_dealt(final(self)@.entities, old(self)@.cards),
            in_step(final(self)@),
    {
        let draws = draw_indices(2 * self.cards.len());
        self.create_scene_from_draws(&draws);
    }

    /// Evaluates the round, if two cards are picked: the picks are
    /// cleared, the verdict is noted, the pause begins, and the move passes
    /// to the other player unless the picks match.
    fn evaluate(&mut self)
        requires
            old(self)@.wf(),
        ensures
            final(self)@ == old(self)@.evaluate(),
            final(self)@.wf(),
    {
        if self.session.selected_count == 2 {
            self.session.current_turn = self.session.current_turn.swith();
            self.session.selected_count = 0;
            self.session.prev_success = self.session.selected_cards.0.matches(
                &self.session.selected_cards.1,
            );
            self.session.selected_cards = (Card::empty(), Card::empty());
            self.wait_timer = PAUSE;
            if self.session.prev_success {
                self.session.current_turn = self.session.current_turn.swith();
            }
        }
    }

    /// Adds `delta` microseconds to the time a match has been on the
    /// board.
    fn clock(&mut self, delta: u32)
        requires
            old(self)@.wf(),
        ensures
            final(self)@ == old(self)@.clocked(delta),
            final(self)@.wf(),
    {
        if !self.entities.is_empty() {
            self.score = if self.score <= u64::MAX - delta as u64 {
                self.score + delta as u64
            } else {
                u64::MAX
            };
        }
    }

    /// Plays a frame in which no pause is under way: every entity is
    /// updated, a match that was found is scored, and the verdict is
    /// spent.
    fn play(&mut self, delta: u32)
        requires
            old(self)@.wf(),
            old(self)@.player_1_score < u32::MAX,
            old(self)@.player_2_score < u32::MAX,
        ensures
            final(self)@ == old(self)@.play(),
            final(self)@.wf(),
    {
        let camera = self.camera();
        let ghost before = self@;
        proof {
            assert forall|i: int| 0 <= i < self.entities.len() implies (
            #[trigger] self.entities@[i])@.wf() by {
                assert(before.entities[i].wf());
            }
        }
        tick_entities(&mut self.entities, delta, camera, &mut self.session);
        proof {
            lemma_tick_all_wf(before.entities, camera, before.session, before.entities.len());
            assert forall|i: int| 0 <= i < self@.entities.len() implies (
            #[trigger] self@.entities[i]).wf() by {
                assert(self.entities@[i]@.wf());
            }
        }
        if self.session.prev_success {
            match self.session.current_turn {
                Turn::Player1 => {
                    self.player_1_score += 1;
                },
                Turn::Player2 => {
                    self.player_2_score += 1;
                },
            }
        }
        self.session.prev_success = false;
    }

    /// The first half of a frame that lasted `delta` microseconds: the
    /// round's evaluation, the pause, and the entities' updates.
    ///
    /// A game that is in step stays in step, and so its scores stay within
    /// the number of pairs, unless a card is picked in the frame that
    /// scores a match before the verdict has reached a card that awaits
    /// it.
    pub fn advance_round(&mut self, delta: u32)
        requires
            old(self)@.wf(),
            old(self)@.player_1_score < u32::MAX,
            old(self)@.player_2_score < u32::MAX,
        ensures
            final(self)@ == old(self)@.advance(delta),
            final(self)@.wf(),
            in_step(old(self)@) && (old(self)@.scores_now() ==> verdict_arrives(old(self)@))
                ==> in_step(final(self)@),
    {
        proof {
            if in_step(old(self)@) && (old(self)@.scores_now() ==> verdict_arrives(old(self)@)) {
                lemma_advance_keeps_step(old(self)@, delta);
            }
        }
        self.evaluate();
        self.clock(delta);
        if self.wait_timer < 0 {
            self.play(delta);
        } else {
            self.wait_timer -= delta as i64;
        }
    }

    /// Draws the frame: everything it shows, in the order in which it is
    /// to be drawn. The order of the entities in the game is not changed.
    pub fn render(&mut self) -> (frame: Frame)
        requires
            old(self)@.wf(),
        ensures
            (frame@, final(self)@) == old(self)@.render(),
            final(self)@.wf(),
    {
        let mut sprites: Vec<Sprite> = Vec::new();
        let mut seen_from: Option<(i32, i32)> = None;
        if !self.entities.is_empty() {
            let order = order_sort(&self.entities);
            let camera = match self.camera() {
                Some(c) => c,
                None => (0, 0),
            };
            seen_from = Some(camera);
            let ghost views = self@.entities;
            proof {
                lemma_depth_order_unique(views, order@, depth_order(views));
            }
            let mut i: usize = 0;
            while i < order.len()
                invariant
                    i <= order.len(),
                    views == entity_views(self.entities@),
                    is_depth_order(views, order@),
                    order@ == depth_order(views),
                    sprites.len() == i,
                    forall|j: int|
                        0 <= j < i ==> (#[trigger] sprites@[j])@ == entity_sprites(views, camera)[j],
                decreases order.len() - i,
            {
                let at = order[i].1;
                let entity = &self.entities[at];
                assert(entity@ == views[at as int]);
                let place = entity.screen(camera);
                sprites.push(Sprite { x: place.0, y: place.1, asset: entity.get_asset_data() });
                i += 1;
            }
            assert(sprite_views(sprites@) =~= entity_sprites(views, camera));
        } else {
            assert(sprite_views(sprites@) =~= Seq::empty());
        }
        let standing = self.standing();
        let mut widgets: Vec<WidgetDrawing> = Vec::new();
        match &mut self.current_screen {
            Some(screen) => {
                widgets = screen.render(&standing, &mut self.session.use_finger);
            },
            None => {
                assert(drawing_views(widgets@) =~= Seq::empty());
            },
        }
        let pointer = if self.draw_mouse {
            Some(
                if self.session.use_finger {
                    Pointer::Finger
                } else {
                    Pointer::Cursor
                },
            )
        } else {
            None
        };
        Frame { camera: seen_from, entities: sprites, widgets, pointer }
    }

    /// Hands the game the input of the frame that is about to be played.
    pub fn set_input(&mut self, events: Vec<InputEvent>, held_keys: Vec<Key>, mouse: (i32, i32))
        requires
            old(self)@.wf(),
        ensures
            final(self)@.wf(),
            final(self)@ == (GameView {
                session: SessionView {
                    events: events@,
                    held_keys: held_keys@,
                    mouse,
                    ..old(self)@.session
                },
                ..old(self)@
            }),
    {
        self.session.events = events;
        self.session.held_keys = held_keys;
        self.session.mouse = mouse;
    }

    /// Shows `screen`, or none.
    pub fn set_screen(&mut self, screen: Option<Screen>)
        requires
            old(self)@.wf(),
        ensures
            final(self)@.wf(),
            final(self)@ == (GameView {
                current_screen: match screen {
                    Some(s) => Some(s@),
                    None => None,
                },
                ..old(self)@
            }),
    {
        self.current_screen = screen;
    }

    /// The screen that is shown, if any.
    pub fn get_screen(&self) -> (r: Option<&Screen>)
        ensures
            match r {
                Some(s) => self@.current_screen == Some(s@),
                None => self@.current_screen.is_none(),
            },
    {
        self.current_screen.as_ref()
    }

    /// Tells the widget at `(row, col)` of the screen whether the pointer
    /// is over it. Without a screen, or without such a widget, nothing
    /// happens and the answer is `false`.
    pub fn set_widget_selected(&mut self, row: usize, col: usize, tf: bool) -> (done: bool)
        requires
            old(self)@.wf(),
        ensures
            final(self)@.wf(),
            done == match old(self)@.current_screen {
                Some(s) => row < s.widgets.len() && col < s.widgets[row as int].len(),
                None => false,
            },
            final(self)@ == if done {
                GameView {
                    current_screen: Some(
                        old(self)@.current_screen.unwrap().with_selected(
                            row as int,
                            col as int,
                            tf,
                        ),
                    ),
                    ..old(self)@
                }
            } else {
                old(self)@
            },
    {
        match &mut self.current_screen {
            Some(screen) => {
                let rows = screen.get_widgets();
                if row < rows.len() && col < rows[row].len() {
                    assert(rows_views(rows@)[row as int].len() == rows@[row as int].len());
                    screen.set_selected(row, col, tf);
                    true
                } else {
                    assert(row < rows.len() ==> rows_views(rows@)[row as int].len()
                        == rows@[row as int].len());
                    false
                }
            },
            None => false,
        }
    }

    /// Makes `sound` known under its key's string form. A sound that was
    /// known under the same form is replaced, in its place.
    pub fn register_sound(&mut self, sound: Sound)
        requires
            old(self)@.wf(),
        ensures
            final(self)@.wf(),
            final(self)@ == (GameView {
                session: old(self)@.session.with_sound(sound@),
                ..old(self)@
            }),
    {
        self.session.register_sound(sound);
    }

    /// Hands over what the audio output was asked to do, oldest first, and
    /// empties the queue.
    pub fn take_playback(&mut self) -> (r: Vec<SoundRequest>)
        requires
            old(self)@.wf(),
        ensures
            final(self)@.wf(),
            request_views(r@) == old(self)@.session.playback,
            final(self)@ == (GameView {
                session: SessionView { playback: Seq::empty(), ..old(self)@.session },
                ..old(self)@
            }),
    {
        self.session.take_playback()
    }

    /// Says whether the pointer is to be drawn as a finger. The platform
    /// clears this before a frame is played; a hovered card sets it.
    pub fn set_use_finger(&mut self, tf: bool)
        requires
            old(self)@.wf(),
        ensures
            final(self)@.wf(),
            final(self)@ == (GameView {
                session: SessionView { use_finger: tf, ..old(self)@.session },
                ..old(self)@
            }),
    {
        self.session.use_finger = tf;
    }

    /// Says whether a click goes to the first widget under the pointer
    /// only. As a game is made, a click goes to every widget under the
    /// pointer.
    pub fn set_exclusive_clicks(&mut self, tf: bool)
        requires
            old(self)@.wf(),
        ensures
            final(self)@.wf(),
            final(self)@ == (GameView { exclusive_clicks: tf, ..old(self)@ }),
    {
        self.exclusive_clicks = tf;
    }

    /// Whether a click goes to the first widget under the pointer only.
    pub fn is_exclusive_clicks(&self) -> (r: bool)
        ensures
            r == self@.exclusive_clicks,
    {
        self.exclusive_clicks
    }

    /// Says whether the pointer is drawn at all.
    pub fn set_draw_mouse(&mut self, tf: bool)
        requires
            old(self)@.wf(),
        ensures
            final(self)@.wf(),
            final(self)@ == (GameView { draw_mouse: tf, ..old(self)@ }),
    {
        self.draw_mouse = tf;
    }

    /// Records the size of the viewport.
    pub fn set_dims(&mut self, dims: (u32, u32))
        requires
            old(self)@.wf(),
        ensures
            final(self)@.wf(),
            final(self)@ == (GameView { dims, ..old(self)@ }),
    {
        self.dims = dims;
    }

    /// The state the game shares with its entities.
    pub fn get_session(&self) -> (r: &Session)
        ensures
            r@ == self@.session,
    {
        &self.session
    }

    /// The entities, in the order in which they are updated.
    pub fn get_entities(&self) -> (r: &Vec<Entity>)
        ensures
            entity_views(r@) == self@.entities,
    {
        &self.entities
    }

    /// The deck.
    pub fn get_cards(&self) -> (r: &Vec<Card>)
        ensures
            card_views(r@) == self@.cards,
    {
        &self.cards
    }

    /// Whether the game goes on.
    pub fn is_running(&self) -> (r: bool)
        ensures
            r == self@.running,
    {
        self.running
    }

    /// Whether the debug overlay is shown.
    pub fn is_debug(&self) -> (r: bool)
        ensures
            r == self@.debug,
    {
        self.debug
    }

    /// Microseconds of the pause that are left; negative when no pause is
    /// under way.
    pub fn get_wait_timer(&self) -> (r: i64)
        ensures
            r == self@.wait_timer,
    {
        self.wait_timer
    }

    /// For how long a match has been on the board, in microseconds.
    pub fn get_score(&self) -> (r: u64)
        ensures
            r == self@.score,
    {
        self.score
    }

    /// The scale at which everything is drawn.
    pub fn get_sf(&self) -> (r: i32)
        ensures
            r == self@.sf,
    {
        self.sf
    }

    /// The size of the viewport.
    pub fn get_dims(&self) -> (r: (u32, u32))
        ensures
            r == self@.dims,
    {
        self.dims
    }

    /// Gives a click to one widget of the screen that was set aside: the
    /// widget is clicked if the pointer is over it and, where clicks are
    /// exclusive, no widget has taken the click before.
    fn click_one(
        &mut self,
        widget: &Widget,
        standing: &Standing,
        exclusive: bool,
        clicked: &mut bool,
        restarted: &mut bool,
        Ghost(start): Ghost<GameView>,
        Ghost(c): Ghost<Control>,
        Ghost(deal): Ghost<(Seq<usize>, Seq<u128>)>,
    ) -> (out: Ghost<(Seq<usize>, Seq<u128>)>)
        requires
            in_mid(old(self)@, start, c, deal),
            *standing == start.standing(),
            *old(clicked) == c.clicked,
            *old(restarted) == c.restarted,
        ensures
            in_mid(final(self)@, start, click_widget(c, widget@, *standing, exclusive), out@),
            *final(clicked) == click_widget(c, widget@, *standing, exclusive).clicked,
            *final(restarted) == click_widget(c, widget@, *standing, exclusive).restarted,
    {
        let ghost mut dealt = deal;
        if widget.get_selected() && !(exclusive && *clicked) {
            let now = self.standing();
            assert(now == standing_now(c, *standing));
            match widget.on_click(&now) {
                WidgetAction::Nothing => {},
                WidgetAction::StartMatch => {
                    let ghost before = self@;
                    self.create_memory_game_scene();
                    *restarted = true;
                    proof {
                        assert(before.cards.len() == start.cards.len());
                        let pair = choose|d: Seq<usize>, u: Seq<u128>| #[trigger]
                            is_deal(before.cards.len(), d, u) && self@ == before.scene(d, u);
                        dealt = pair;
                        assert(before.scene(dealt.0, dealt.1).entities == start.scene(
                            dealt.0,
                            dealt.1,
                        ).entities);
                    }
                },
                WidgetAction::Quit => {
                    self.running = false;
                },
            }
            *clicked = true;
        }
        Ghost(dealt)
    }

    /// Gives a click to the widgets of the screen that was set aside, row
    /// by row.
    fn click_screen(
        &mut self,
        rows: &Vec<Vec<Widget>>,
        standing: &Standing,
        exclusive: bool,
        clicked: &mut bool,
        restarted: &mut bool,
        Ghost(start): Ghost<GameView>,
        Ghost(c): Ghost<Control>,
        Ghost(deal): Ghost<(Seq<usize>, Seq<u128>)>,
    ) -> (out: Ghost<(Seq<usize>, Seq<u128>)>)
        requires
            in_mid(old(self)@, start, c, deal),
            *standing == start.standing(),
            *old(clicked) == c.clicked,
            *old(restarted) == c.restarted,
        ensures
            in_mid(
                final(self)@,
                start,
                click_rows(c, rows_views(rows@), *standing, exclusive, rows.len() as nat),
                out@,
            ),
            *final(clicked) == click_rows(
                c,
                rows_views(rows@),
                *standing,
                exclusive,
                rows.len() as nat,
            ).clicked,
            *final(restarted) == click_rows(
                c,
                rows_views(rows@),
                *standing,
                exclusive,
                rows.len() as nat,
            ).restarted,
    {
        let ghost rows_view = rows_views(rows@);
        let ghost mut now = c;
        let ghost mut dealt = deal;
        let mut r: usize = 0;
        while r < rows.len()
            invariant
                r <= rows.len(),
                rows_view == rows_views(rows@),
                *standing == start.standing(),
                now == click_rows(c, rows_view, *standing, exclusive, r as nat),
                in_mid(self@, start, now, dealt),
                *clicked == now.clicked,
                *restarted == now.restarted,
            decreases rows.len() - r,
        {
            let row = &rows[r];
            let ghost row_start = now;
            let ghost row_view = rows_view[r as int];
            let mut w: usize = 0;
            while w < row.len()
                invariant
                    w <= row.len(),
                    row_view == row_views(row@),
                    *standing == start.standing(),
                    now == click_row(row_start, row_view, *standing, exclusive, w as nat),
                    in_mid(self@, start, now, dealt),
                    *clicked == now.clicked,
                    *restarted == now.restarted,
                decreases row.len() - w,
            {
                let widget = &row[w];
                assert(row_view[w as int] == widget@);
                let next = self.click_one(
                    widget,
                    standing,
                    exclusive,
                    clicked,
                    restarted,
                    Ghost(start),
                    Ghost(now),
                    Ghost(dealt),
                );
                proof {
                    now = click_widget(now, widget@, *standing, exclusive);
                    dealt = next@;
                }
                w += 1;
            }
            r += 1;
        }
        Ghost(dealt)
    }

    /// Handles one event of the frame, the screen having been set aside.
    fn handle_one(
        &mut self,
        event: InputEvent,
        screen: &Option<Screen>,
        standing: &Standing,
        exclusive: bool,
        clicked: &mut bool,
        restarted: &mut bool,
        Ghost(start): Ghost<GameView>,
        Ghost(c): Ghost<Control>,
        Ghost(deal): Ghost<(Seq<usize>, Seq<u128>)>,
    ) -> (out: Ghost<(Seq<usize>, Seq<u128>)>)
        requires
            in_mid(old(self)@, start, c, deal),
            *standing == start.standing(),
            *old(clicked) == c.clicked,
            *old(restarted) == c.restarted,
        ensures
            in_mid(
                final(self)@,
                start,
                handle_event(c, event, screen_view(*screen), *standing, exclusive),
                out@,
            ),
            *final(clicked) == handle_event(
                c,
                event,
                screen_view(*screen),
                *standing,
                exclusive,
            ).clicked,
            *final(restarted) == handle_event(
                c,
                event,
                screen_view(*screen),
                *standing,
                exclusive,
            ).restarted,
    {
        if event.quit() {
            self.running = false;
            Ghost(deal)
        } else if event.debug_toggle() {
            self.debug = !self.debug;
            Ghost(deal)
        } else if event.left_click() && !*restarted {
            match screen {
                Some(s) => {
                    *clicked = false;
                    self.click_screen(
                        s.get_widgets(),
                        standing,
                        exclusive,
                        clicked,
                        restarted,
                        Ghost(start),
                        Ghost(Control { clicked: false, ..c }),
                        Ghost(deal),
                    )
                },
                None => Ghost(deal),
            }
        } else {
            Ghost(deal)
        }
    }

    /// The second half of a frame: the frame's events are handled in order.
    /// A quit request or Escape stops the game; the debug key toggles the
    /// overlay; a left click is given to the widgets of the screen that
    /// have the pointer over them: to all of them, or, where clicks are
    /// exclusive, to the first.
    pub fn handle_input(&mut self)
        requires
            old(self)@.wf(),
            old(self)@.can_deal(),
        ensures
            final(self)@.wf(),
            exists|draws: Seq<usize>, ids: Seq<u128>| #[trigger]
                is_deal(old(self)@.cards.len(), draws, ids) && final(self)@
                    == old(self)@.handle_input(draws, ids),
            in_step(old(self)@) ==> in_step(final(self)@),
    {
        let ghost start = self@;
        let standing = self.standing();
        let exclusive = self.exclusive_clicks;
        let mut screen: Option<Screen> = None;
        std::mem::swap(&mut screen, &mut self.current_screen);
        let ghost shown: Option<ScreenView> = start.current_screen;
        let ghost c0 = Control {
            running: start.running,
            debug: start.debug,
            restarted: false,
            clicked: false,
        };
        let ghost mut c = c0;
        let ghost mut deal = first_deal(start.cards.len());
        let mut clicked = false;
        let mut restarted = false;
        let mut i: usize = 0;
        assert(is_deal(start.cards.len(), deal.0, deal.1));
        while i < self.session.events.len()
            invariant
                i <= self.session.events.len(),
                standing == start.standing(),
                exclusive == start.exclusive_clicks,
                shown == start.current_screen,
                shown == screen_view(screen),
                c == handle_events(c0, start.session.events, shown, standing, exclusive, i as nat),
                in_mid(self@, start, c, deal),
                clicked == c.clicked,
                restarted == c.restarted,
            decreases self.session.events.len() - i,
        {
            let event = self.session.events[i];
            let next = self.handle_one(
                event,
                &screen,
                &standing,
                exclusive,
                &mut clicked,
                &mut restarted,
                Ghost(start),
                Ghost(c),
                Ghost(deal),
            );
            proof {
                c = handle_event(c, event, shown, standing, exclusive);
                deal = next@;
            }
            i += 1;
        }
        if restarted {
            self.current_screen = Some(Screen::Hud(HudScreen::create()));
        } else {
            self.current_screen = screen;
        }
        assert(self@ == start.handle_input(deal.0, deal.1));
        proof {
            if in_step(start) {
                lemma_handle_input_keeps_step(start, deal.0, deal.1);
            }
        }
    }

    /// One frame that lasted `delta` microseconds: its first half, then
    /// its second. A game that is in step stays in step, on the same
    /// condition as in the first half.
    pub fn cycle(&mut self, delta: u32)
        requires
            old(self)@.wf(),
            old(self)@.can_deal(),
            old(self)@.player_1_score < u32::MAX,
            old(self)@.player_2_score < u32::MAX,
        ensures
            final(self)@.wf(),
            exists|draws: Seq<usize>, ids: Seq<u128>| #[trigger]
                is_deal(old(self)@.cards.len(), draws, ids) && final(self)@ == old(self)@.advance(
                    delta,
                ).handle_input(draws, ids),
            in_step(old(self)@) && (old(self)@.scores_now() ==> verdict_arrives(old(self)@))
                ==> in_step(final(self)@),
    {
        self.advance_round(delta);
        self.handle_input();
    }
}

/// Updating the entities keeps what the camera sees from, never picks more
/// than two cards, and keeps the entities well formed.
pub proof fn lemma_tick_all_wf(
    entities: Seq<EntityView>,
    camera: Option<(i32, i32)>,
    session: SessionView,
    n: nat,
)
    requires
        n <= entities.len(),
        session.selected_count <= 2,
    ensures
        tick_all(entities, camera, session, n).1.selected_count <= 2,
        tick_all(entities, camera, session, n).0.len() == entities.len(),
        forall|i: int|
            0 <= i < entities.len() ==> (#[trigger] tick_all(entities, camera, session, n).0[i])
                is Camera == entities[i] is Camera,
        forall|i: int|
            0 <= i < entities.len() && entities[i] is Camera ==> #[trigger] tick_all(
                entities,
                camera,
                session,
                n,
            ).0[i] == entities[i],
        forall|i: int|
            0 <= i < entities.len() && entities[i].wf() ==> (#[trigger] tick_all(
                entities,
                camera,
                session,
                n,
            ).0[i]).wf(),
    decreases n,
{
    if n > 0 {
        lemma_tick_all_wf(entities, camera, session, (n - 1) as nat);
        let before = tick_all(entities, camera, session, (n - 1) as nat);
        match before.0[n - 1] {
            EntityView::Card(c) => {
                lemma_selection_cap(c, camera, before.1);
            },
            EntityView::Camera(_) => {},
        }
    }
}

/// The first half of a frame keeps a game well formed.
pub proof fn lemma_advance_keeps_wf(g: GameView, delta: u32)
    requires
        g.wf(),
    ensures
        g.advance(delta).wf(),
        g.advance(delta).cards == g.cards,
        g.advance(delta).current_screen == g.current_screen,
        g.advance(delta).running == g.running,
        g.advance(delta).debug == g.debug,
{
    let e = g.evaluate().clocked(delta);
    lemma_tick_all_wf(e.entities, e.camera(), e.session, e.entities.len());
}

} // verus!
