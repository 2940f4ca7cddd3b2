use memory_game::asset::AssetData;
use memory_game::turn::Turn;
use memory_game::widget::{Alignment, Standing, Widget, WidgetAction};
use memory_game::widgets::crown_widget::CrownWidget;
use memory_game::widgets::end_screen_quit_widget::EndQuitWidget;
use memory_game::widgets::play_again_widget::PlayAgainWidget;
use memory_game::widgets::play_widget::PlayWidget;
use memory_game::widgets::player_widget::PlayerWidget;
use memory_game::widgets::quit_widget::QuitWidget;

fn standing(first: u32, second: u32) -> Standing {
    Standing { player_1_score: first, player_2_score: second, current_turn: Turn::Player1, wait_timer: -1, prev_success: false }
}

fn region(a: &AssetData) -> (i32, i32, u32, u32) {
    let uv = a.uv.unwrap();
    (uv.x, uv.y, uv.w, uv.h)
}

fn is_invisible(a: &AssetData) -> bool {
    a.uv.is_none() && a.origin == (0, 0) && a.resource_location.to_string() == "memory_game:empty.png"
}

#[test]
fn standing_is_over_at_nine_pairs() {
    assert!(!standing(0, 0).is_over());
    assert!(!standing(4, 4).is_over());
    assert!(standing(5, 4).is_over());
    assert!(standing(0, 9).is_over());
    assert!(!standing(5, 5).is_over());
    assert!(!standing(u32::MAX, 10).is_over());
    assert!(!standing(u32::MAX, u32::MAX).is_over());
}

#[test]
fn winner_needs_strictly_more_pairs() {
    assert!(standing(5, 4).is_won_by(Turn::Player1));
    assert!(!standing(5, 4).is_won_by(Turn::Player2));
    assert!(standing(2, 7).is_won_by(Turn::Player2));
    assert!(!standing(2, 7).is_won_by(Turn::Player1));
    assert!(!standing(5, 3).is_won_by(Turn::Player1));
    assert!(!standing(9, 9).is_won_by(Turn::Player1));
}

#[test]
fn play_widget_always_starts_a_match() {
    let mut w = PlayWidget::create(Alignment::LEFT, 60, 0);
    assert_eq!(w.on_click(), WidgetAction::StartMatch);
    assert!(!w.get_selected());
    assert_eq!(w.get_screen_coordinates(), (60, 0));
    assert_eq!(w.get_allignment(), Alignment::LEFT);
    assert_eq!(region(&w.get_asset_data()), (0, 0, 39, 23));
    assert_eq!(w.get_asset_data().resource_location.to_string(), "memory_game:gui/play_play.png");
    w.set_selected(true);
    assert!(w.get_selected());
    assert_eq!(region(&w.get_asset_data()), (0, 23, 39, 23));
    assert_eq!(w.get_resource_location().to_string(), "game:widgets/play");
    w.set_screen_coordinates(1, -2);
    assert_eq!(w.get_screen_coordinates(), (1, -2));
    w.set_allignment(Alignment::TOP);
    assert_eq!(w.get_allignment(), Alignment::TOP);
    w.set_selected(false);
    w.set_asset_data(AssetData::sprite(9, 9, 9, 9, (1, 1), "x.png"));
    assert_eq!(region(&w.get_asset_data()), (9, 9, 9, 9));
}

#[test]
fn quit_widget_always_quits() {
    let w = QuitWidget::create(Alignment::LEFT, 60, -40);
    assert_eq!(w.on_click(), WidgetAction::Quit);
    assert_eq!(w.get_screen_coordinates(), (60, -40));
    assert_eq!(w.get_resource_location().to_string(), "game:widgets/quit");
}

#[test]
fn play_again_works_only_once_the_match_is_over() {
    let mut w = PlayAgainWidget::create(Alignment::LEFT, 20, -110);
    assert_eq!(w.on_click(&standing(3, 2)), WidgetAction::Nothing);
    assert_eq!(w.on_click(&standing(3, 6)), WidgetAction::StartMatch);
    let mut finger = true;
    assert!(is_invisible(&w.get_asset_data(&standing(3, 2), &mut finger)));
    assert!(finger);
    assert_eq!(region(&w.get_asset_data(&standing(3, 6), &mut finger)), (0, 0, 93, 23));
    w.set_selected(true);
    assert_eq!(region(&w.get_asset_data(&standing(3, 6), &mut finger)), (0, 23, 93, 23));
    assert!(finger);
    // hovered while hidden: the pointer is no finger
    assert!(is_invisible(&w.get_asset_data(&standing(3, 2), &mut finger)));
    assert!(!finger);
    assert_eq!(w.get_asset_data(&standing(3, 6), &mut finger).resource_location.to_string(), "memory_game:gui/play_again.png");
    assert!(!finger);
}

#[test]
fn end_quit_works_only_once_the_match_is_over() {
    let mut w = EndQuitWidget::create(Alignment::RIGHT, -75, -110);
    assert_eq!(w.on_click(&standing(0, 0)), WidgetAction::Nothing);
    assert_eq!(w.on_click(&standing(9, 0)), WidgetAction::Quit);
    let mut finger = true;
    assert!(is_invisible(&w.get_asset_data(&standing(0, 8), &mut finger)));
    assert_eq!(region(&w.get_asset_data(&standing(1, 8), &mut finger)), (0, 0, 38, 24));
    w.set_selected(true);
    assert_eq!(region(&w.get_asset_data(&standing(1, 8), &mut finger)), (0, 24, 38, 24));
    assert!(finger);
    w.get_asset_data(&standing(0, 8), &mut finger);
    assert!(!finger);
    assert_eq!(w.get_resource_location().to_string(), "game:widgets/quit");
}

#[test]
fn crown_shows_for_the_winner_only() {
    let mut first = CrownWidget::create(Alignment::LEFT, 54, 90, Turn::Player1);
    let second = CrownWidget::create(Alignment::RIGHT, -54, 90, Turn::Player2);
    let mut finger = true;
    assert!(is_invisible(&first.get_asset_data(&standing(5, 3), &mut finger)));
    assert!(is_invisible(&second.get_asset_data(&standing(5, 3), &mut finger)));
    let crown = first.get_asset_data(&standing(5, 4), &mut finger);
    assert_eq!(region(&crown), (0, 0, 22, 20));
    assert_eq!(crown.origin, (11, 10));
    assert_eq!(crown.resource_location.to_string(), "memory_game:gui/crown.png");
    assert!(is_invisible(&second.get_asset_data(&standing(5, 4), &mut finger)));
    assert!(is_invisible(&first.get_asset_data(&standing(4, 5), &mut finger)));
    assert_eq!(region(&second.get_asset_data(&standing(4, 5), &mut finger)), (0, 0, 22, 20));
    assert!(finger);
    assert_eq!(first.on_click(), WidgetAction::Nothing);
    first.set_selected(true);
    first.get_asset_data(&standing(5, 4), &mut finger);
    assert!(!finger);
    assert_eq!(first.get_resource_location().to_string(), "game:widgets/crown");
}

fn at(turn: Turn, wait_timer: i64, prev_success: bool) -> Standing {
    Standing { player_1_score: 2, player_2_score: 3, current_turn: turn, wait_timer, prev_success }
}

#[test]
fn banner_is_lit_for_the_player_to_move() {
    let mut finger = true;
    let mut first = PlayerWidget::create(Alignment::LEFT, 20, 80, Turn::Player1);
    let mut second = PlayerWidget::create(Alignment::RIGHT, -88, 80, Turn::Player2);
    let d1 = first.render(&at(Turn::Player1, -1, false), &mut finger);
    let d2 = second.render(&at(Turn::Player1, -1, false), &mut finger);
    assert_eq!(region(&d1[0].asset), (0, 0, 68, 21));
    assert_eq!(d1[0].asset.resource_location.to_string(), "memory_game:gui/player_1.png");
    assert_eq!(region(&d2[0].asset), (0, 21, 68, 21));
    assert_eq!(d2[0].asset.resource_location.to_string(), "memory_game:gui/player_2.png");
    let d1 = first.render(&at(Turn::Player2, -1, false), &mut finger);
    let d2 = second.render(&at(Turn::Player2, -1, false), &mut finger);
    assert_eq!(region(&d1[0].asset), (0, 21, 68, 21));
    assert_eq!(region(&d2[0].asset), (0, 0, 68, 21));
    assert!(finger);
}

#[test]
fn banner_stays_lit_through_the_pause_after_a_miss() {
    let mut finger = true;
    let mut first = PlayerWidget::create(Alignment::LEFT, 20, 80, Turn::Player1);
    let mut second = PlayerWidget::create(Alignment::RIGHT, -88, 80, Turn::Player2);
    // player 1 missed: the move has passed to player 2, the pause runs
    let d1 = first.render(&at(Turn::Player2, 1_500_000, false), &mut finger);
    let d2 = second.render(&at(Turn::Player2, 1_500_000, false), &mut finger);
    assert_eq!(region(&d1[0].asset), (0, 0, 68, 21));
    assert_eq!(region(&d2[0].asset), (0, 21, 68, 21));
    // at exactly zero neither rule lights a banner
    let d1 = first.render(&at(Turn::Player2, 0, false), &mut finger);
    let d2 = second.render(&at(Turn::Player2, 0, false), &mut finger);
    assert_eq!(region(&d1[0].asset), (0, 21, 68, 21));
    assert_eq!(region(&d2[0].asset), (0, 21, 68, 21));
}

#[test]
fn banner_keeps_its_look_while_a_match_is_carried_out() {
    let mut finger = true;
    let mut first = PlayerWidget::create(Alignment::LEFT, 20, 80, Turn::Player1);
    let lit = first.render(&at(Turn::Player1, -1, false), &mut finger);
    assert_eq!(region(&lit[0].asset), (0, 0, 68, 21));
    let kept = first.render(&at(Turn::Player2, 1_000_000, true), &mut finger);
    assert_eq!(region(&kept[0].asset), (0, 0, 68, 21));
    let fresh = PlayerWidget::create(Alignment::LEFT, 20, 80, Turn::Player1).get_asset_data(&at(Turn::Player1, -1, true));
    assert!(fresh.uv.is_none());
    assert_eq!(fresh.resource_location.to_string(), ":");
}

#[test]
fn banner_draws_one_mark_per_pair() {
    let mut finger = true;
    let mut first = PlayerWidget::create(Alignment::LEFT, 20, 80, Turn::Player1);
    let mut second = PlayerWidget::create(Alignment::RIGHT, -88, 80, Turn::Player2);
    let d1 = first.render(&at(Turn::Player1, -1, false), &mut finger);
    let d2 = second.render(&at(Turn::Player1, -1, false), &mut finger);
    assert_eq!(d1.len(), 3);
    assert_eq!(d2.len(), 4);
    assert_eq!(d1[0].offset, (0, 0));
    assert_eq!(d2[1].offset, (26, 30));
    assert_eq!(d2[2].offset, (26, 46));
    assert_eq!(d2[3].offset, (26, 62));
    for piece in &d2[1..] {
        assert_eq!(region(&piece.asset), (0, 0, 16, 16));
        assert_eq!(piece.asset.resource_location.to_string(), "memory_game:gui/score_indicator.png");
    }
    let none = PlayerWidget::create(Alignment::LEFT, 0, 0, Turn::Player1).render(&standing(0, 5), &mut finger);
    assert_eq!(none.len(), 1);
    assert!(finger);
}

#[test]
fn hovered_banner_takes_the_finger() {
    let mut finger = true;
    let mut first = PlayerWidget::create(Alignment::LEFT, 20, 80, Turn::Player1);
    assert_eq!(first.on_click(), WidgetAction::Nothing);
    first.set_selected(true);
    assert!(first.get_selected());
    first.render(&standing(0, 0), &mut finger);
    assert!(!finger);
    first.set_screen_coordinates(3, 4);
    assert_eq!(first.get_screen_coordinates(), (3, 4));
    first.set_allignment(Alignment::BOTTOM);
    assert_eq!(first.get_allignment(), Alignment::BOTTOM);
}

#[test]
fn widget_dispatches_to_its_kind() {
    let over = standing(9, 0);
    let early = standing(1, 0);
    let mut widgets = vec![
        Widget::Play(PlayWidget::create(Alignment::LEFT, 1, 2)),
        Widget::PlayAgain(PlayAgainWidget::create(Alignment::RIGHT, 3, 4)),
        Widget::EndQuit(EndQuitWidget::create(Alignment::TOP, 5, 6)),
        Widget::Quit(QuitWidget::create(Alignment::BOTTOM, 7, 8)),
        Widget::Crown(CrownWidget::create(Alignment::CENTER, 9, 10, Turn::Player1)),
        Widget::Player(PlayerWidget::create(Alignment::LEFT, 11, 12, Turn::Player2)),
    ];
    let early_actions: Vec<WidgetAction> = widgets.iter().map(|w| w.on_click(&early)).collect();
    assert_eq!(
        early_actions,
        vec![WidgetAction::StartMatch, WidgetAction::Nothing, WidgetAction::Nothing, WidgetAction::Quit, WidgetAction::Nothing, WidgetAction::Nothing]
    );
    let over_actions: Vec<WidgetAction> = widgets.iter().map(|w| w.on_click(&over)).collect();
    assert_eq!(
        over_actions,
        vec![WidgetAction::StartMatch, WidgetAction::StartMatch, WidgetAction::Quit, WidgetAction::Quit, WidgetAction::Nothing, WidgetAction::Nothing]
    );
    let coords: Vec<(i32, i32)> = widgets.iter().map(|w| w.get_screen_coordinates()).collect();
    assert_eq!(coords, vec![(1, 2), (3, 4), (5, 6), (7, 8), (9, 10), (11, 12)]);
    assert_eq!(widgets[2].get_allignment(), Alignment::TOP);
    for w in widgets.iter_mut() {
        assert!(!w.get_selected());
        w.set_selected(true);
        assert!(w.get_selected());
    }
    let mut finger = true;
    for w in widgets.iter_mut() {
        let drawing = w.render(&over, &mut finger);
        assert!(!drawing.is_empty());
        assert_eq!(drawing[0].offset, (0, 0));
    }
    assert!(!finger);
    let mut finger = true;
    let shown = widgets[0].get_asset_data(&over, &mut finger);
    assert_eq!(region(&shown), (0, 23, 39, 23));
    assert!(finger);
}
