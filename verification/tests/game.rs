use memory_game::board::board_positions;
use memory_game::card::Card;
use memory_game::entity::{CardEntity, Entity};
use memory_game::game::{Game, DECK_LIMIT, IDLE, PAUSE};
use memory_game::input::{InputEvent, Key, MouseButton};
use memory_game::resource_location::ResourceLocation;
use memory_game::screen::{Screen, ScreenKind};
use memory_game::screens::hud_screen::HudScreen;
use memory_game::screens::main_menu_screen::MainMenuScreen;
use memory_game::sound::{Sound, SoundRequest};
use memory_game::turn::Turn;
use memory_game::widget::Widget;

const FRAME: u32 = 16_000;
const AWAY: (i32, i32) = (5000, 5000);

fn card(name: &str) -> Card {
    Card::create(
        name.to_string(),
        ResourceLocation::new("memory_game", "cards/data"),
        ResourceLocation::new("memory_game", name),
    )
}

fn left_click() -> InputEvent {
    InputEvent::MouseButtonDown { button: MouseButton::Left, x: 0, y: 0 }
}

/// A game with the deck A, B, C dealt in board order: the entities are the
/// camera, then A, B, C, A, B, C at the first six places of the board.
fn abc() -> Game {
    let mut game = Game::initiate();
    game.register_card(card("A"));
    game.register_card(card("B"));
    game.register_card(card("C"));
    game.create_scene_from_draws(&vec![0, 0, 0, 0, 0, 0]);
    game
}

const A1: usize = 1;
const B1: usize = 2;
const C1: usize = 3;
const A2: usize = 4;
const B2: usize = 5;
const C2: usize = 6;

fn card_entity(game: &Game, i: usize) -> &CardEntity {
    match &game.get_entities()[i] {
        Entity::Card(c) => c,
        Entity::Camera(_) => panic!("entity {} is the camera", i),
    }
}

fn click_on(game: &mut Game, i: usize) {
    let at = card_entity(game, i).get_base();
    game.set_input(vec![left_click()], vec![], at);
    game.cycle(FRAME);
}

fn idle_frame(game: &mut Game, delta: u32) {
    game.set_input(vec![], vec![], AWAY);
    game.cycle(delta);
}

fn state(game: &Game, i: usize) -> (bool, bool, bool) {
    let c = card_entity(game, i);
    (c.is_hovered(), c.is_selected(), c.is_resolved())
}

#[test]
fn initiate_gives_an_idle_game() {
    let game = Game::initiate();
    assert!(game.get_entities().is_empty());
    assert!(game.get_player().is_none());
    assert!(game.camera().is_none());
    assert!(game.is_running());
    assert!(!game.is_debug());
    assert!(game.get_screen().is_none());
    assert_eq!(game.get_sf(), 6);
    assert_eq!(game.get_dims(), (0, 0));
    assert_eq!(game.get_score(), 0);
    assert_eq!(game.get_wait_timer(), IDLE);
    assert_eq!(game.get_wait_timer(), -1_000_000);
    assert_eq!(game.get_player_1_score(), 0);
    assert_eq!(game.get_player_2_score(), 0);
    assert_eq!(game.get_turn(), Turn::Player1);
    assert_eq!(game.get_session().selected_count, 0);
    assert!(game.get_cards().is_empty());
    assert!(game.winner().is_none());
    assert_eq!(PAUSE, 2_000_000);
    assert_eq!(DECK_LIMIT, 9);
}

#[test]
fn register_card_replaces_a_card_of_the_same_name() {
    let mut game = Game::initiate();
    game.register_card(card("A"));
    game.register_card(card("B"));
    game.register_card(Card::create(
        "A".to_string(),
        ResourceLocation::empty(),
        ResourceLocation::new("memory_game", "new"),
    ));
    assert_eq!(game.get_cards().len(), 2);
    assert_eq!(game.get_cards()[0].get_name(), "A");
    assert_eq!(game.get_cards()[0].get_texture_location().path, "new");
    assert_eq!(game.get_cards()[1].get_name(), "B");
}

#[test]
fn scene_from_draws_deals_each_card_twice_in_deck_order() {
    let game = abc();
    assert_eq!(game.get_entities().len(), 7);
    assert!(matches!(game.get_entities()[0], Entity::Camera(_)));
    assert_eq!(game.camera(), Some((0, 0)));
    assert!(matches!(game.get_player(), Some(Entity::Camera(_))));
    let names: Vec<String> = (1..7).map(|i| card_entity(&game, i).get_card().get_name()).collect();
    assert_eq!(names, vec!["A", "B", "C", "A", "B", "C"]);
    let board = board_positions();
    for i in 1..7 {
        let c = card_entity(&game, i);
        assert_eq!(c.get_base(), board[i - 1]);
        assert_eq!(c.get_coords(), board[i - 1]);
        assert_eq!(state(&game, i), (false, false, false));
        assert_eq!(c.get_asset_data().resource_location.to_string(), "memory_game:cards/card_reverse.png");
    }
}

#[test]
fn scene_from_draws_places_cards_where_the_draws_say() {
    let mut game = Game::initiate();
    game.register_card(card("A"));
    game.register_card(card("B"));
    game.create_scene_from_draws(&vec![17, 0, 15, 3]);
    // 17 -> (136, 70); 0 -> (-104, -70); list now 1..16: index 15 -> place 16 (136, 0); index 3 -> place 4 (-56, 0)
    assert_eq!(card_entity(&game, 1).get_base(), (136, 70));
    assert_eq!(card_entity(&game, 2).get_base(), (-104, -70));
    assert_eq!(card_entity(&game, 3).get_base(), (136, 0));
    assert_eq!(card_entity(&game, 4).get_base(), (-56, 0));
    assert_eq!(card_entity(&game, 3).get_card().get_name(), "A");
    assert_eq!(card_entity(&game, 4).get_card().get_name(), "B");
}

#[test]
fn dealt_card_shows_its_texture_once_picked() {
    let mut game = abc();
    click_on(&mut game, B1);
    let shown = card_entity(&game, B1).get_asset_data();
    assert_eq!(shown.resource_location.to_string(), "memory_game:B");
    assert_eq!(shown.origin, (23, 34));
    let uv = shown.uv.unwrap();
    assert_eq!((uv.x, uv.y, uv.w, uv.h), (0, 0, 45, 68));
}

#[test]
fn random_scene_deals_two_of_each_card_at_distinct_places() {
    let names = ["a", "b", "c", "d", "e", "f", "g", "h", "i"];
    for n in [0usize, 1, 3, 9] {
        let mut game = Game::initiate();
        for name in &names[..n] {
            game.register_card(card(name));
        }
        for _ in 0..20 {
            game.create_memory_game_scene();
            assert_eq!(game.get_entities().len(), 2 * n + 1);
            assert!(matches!(game.get_entities()[0], Entity::Camera(_)));
            let board = board_positions();
            let mut places = vec![];
            for i in 1..=2 * n {
                let c = card_entity(&game, i);
                assert!(board.contains(&c.get_base()));
                assert!(!places.contains(&c.get_base()));
                places.push(c.get_base());
                assert_eq!(c.get_card().get_name(), names[(i - 1) % n]);
            }
            for name in &names[..n] {
                let count = (1..=2 * n).filter(|i| card_entity(&game, *i).get_card().get_name() == *name).count();
                assert_eq!(count, 2);
            }
            if n == 9 {
                let mut sorted = places.clone();
                sorted.sort();
                let mut all = board.clone();
                all.sort();
                assert_eq!(sorted, all);
            }
        }
    }
}

#[test]
fn scene_resets_the_round_and_the_scores() {
    let mut game = abc();
    click_on(&mut game, A1);
    click_on(&mut game, A2);
    idle_frame(&mut game, FRAME);
    idle_frame(&mut game, 3_000_000);
    idle_frame(&mut game, FRAME);
    assert_eq!(game.get_player_1_score(), 1);
    click_on(&mut game, B1);
    assert_eq!(game.get_session().selected_count, 1);
    game.create_scene_from_draws(&vec![0, 0, 0, 0, 0, 0]);
    assert_eq!(game.get_player_1_score(), 0);
    assert_eq!(game.get_player_2_score(), 0);
    assert_eq!(game.get_turn(), Turn::Player1);
    assert_eq!(game.get_session().selected_count, 0);
    assert_eq!(game.get_session().selected_cards.0.get_name(), "Blank Card");
    assert_eq!(game.get_session().selected_cards.1.get_name(), "Blank Card");
    assert!(!game.get_session().prev_success);
    assert_eq!(game.get_wait_timer(), IDLE);
    assert_eq!(game.get_entities().len(), 7);
    for i in 1..7 {
        assert_eq!(state(&game, i), (false, false, false));
    }
}

#[test]
fn scenario_miss() {
    let mut game = abc();
    click_on(&mut game, A1);
    assert_eq!(game.get_session().selected_count, 1);
    assert_eq!(game.get_session().selected_cards.0.get_name(), "A");
    click_on(&mut game, B1);
    assert_eq!(game.get_session().selected_count, 2);
    assert_eq!(game.get_session().selected_cards.0.get_name(), "A");
    assert_eq!(game.get_session().selected_cards.1.get_name(), "B");
    assert_eq!(game.get_turn(), Turn::Player1);
    // the next frame evaluates the round
    game.set_input(vec![], vec![], AWAY);
    game.advance_round(0);
    assert_eq!(game.get_turn(), Turn::Player2);
    assert_eq!(game.get_session().selected_count, 0);
    assert!(!game.get_session().prev_success);
    assert_eq!(game.get_wait_timer(), 2_000_000);
    assert_eq!(game.get_session().selected_cards.0.get_name(), "Blank Card");
    assert_eq!(game.get_session().selected_cards.1.get_name(), "Blank Card");
    // through the pause the cards stay face up
    idle_frame(&mut game, 1_000_000);
    assert_eq!(state(&game, A1), (true, true, false));
    assert_eq!(state(&game, B1), (true, true, false));
    idle_frame(&mut game, 1_000_000);
    assert_eq!(game.get_wait_timer(), 0);
    idle_frame(&mut game, 1);
    assert_eq!(game.get_wait_timer(), -1);
    assert_eq!(state(&game, A1), (true, true, false));
    // the first frame after the pause turns them back
    idle_frame(&mut game, FRAME);
    assert_eq!(state(&game, A1), (false, false, false));
    assert_eq!(state(&game, B1), (false, false, false));
    assert_eq!(card_entity(&game, A1).get_coords(), card_entity(&game, A1).get_base());
    assert_eq!(card_entity(&game, B1).get_coords(), card_entity(&game, B1).get_base());
    assert_eq!(game.get_player_1_score(), 0);
    assert_eq!(game.get_player_2_score(), 0);
    assert_eq!(game.get_turn(), Turn::Player2);
}

#[test]
fn scenario_match() {
    let mut game = abc();
    click_on(&mut game, A1);
    click_on(&mut game, A2);
    assert_eq!(game.get_session().selected_count, 2);
    game.set_input(vec![], vec![], AWAY);
    game.advance_round(0);
    assert!(game.get_session().prev_success);
    assert_eq!(game.get_turn(), Turn::Player1);
    assert_eq!(game.get_wait_timer(), 2_000_000);
    assert_eq!(game.get_session().selected_count, 0);
    assert_eq!(game.get_player_1_score(), 0);
    idle_frame(&mut game, 2_000_000);
    assert_eq!(game.get_wait_timer(), 0);
    assert_eq!(game.get_player_1_score(), 0);
    idle_frame(&mut game, FRAME);
    assert_eq!(game.get_wait_timer(), -16_000);
    assert_eq!(game.get_player_1_score(), 0);
    assert!(game.get_session().prev_success);
    // the first frame after the pause carries the match out
    idle_frame(&mut game, FRAME);
    assert_eq!(game.get_player_1_score(), 1);
    assert_eq!(game.get_player_2_score(), 0);
    assert!(!game.get_session().prev_success);
    assert_eq!(state(&game, A1), (false, false, true));
    assert_eq!(state(&game, A2), (false, false, true));
    assert_eq!(game.get_turn(), Turn::Player1);
    // for good: clicking a resolved card does nothing
    for _ in 0..3 {
        click_on(&mut game, A1);
        click_on(&mut game, A2);
        idle_frame(&mut game, 5_000_000);
    }
    assert_eq!(state(&game, A1), (false, false, true));
    assert_eq!(state(&game, A2), (false, false, true));
    assert_eq!(card_entity(&game, A1).get_coords(), card_entity(&game, A1).get_base());
    assert_eq!(game.get_session().selected_count, 0);
    assert_eq!(game.get_player_1_score(), 1);
    assert_eq!(game.get_player_2_score(), 0);
    assert_eq!(card_entity(&game, A1).get_asset_data().resource_location.to_string(), "memory_game:A");
}

fn play_round(game: &mut Game, first: usize, second: usize) {
    click_on(game, first);
    click_on(game, second);
    idle_frame(game, FRAME);
    idle_frame(game, 2_000_000);
    idle_frame(game, FRAME);
    idle_frame(game, FRAME);
}

#[test]
fn a_miss_passes_the_move_and_a_match_keeps_it() {
    let mut game = abc();
    assert_eq!(game.get_turn(), Turn::Player1);
    play_round(&mut game, A1, B1);
    assert_eq!(game.get_turn(), Turn::Player2);
    play_round(&mut game, B1, B2);
    assert_eq!(game.get_turn(), Turn::Player2);
    assert_eq!((game.get_player_1_score(), game.get_player_2_score()), (0, 1));
    play_round(&mut game, C1, A2);
    assert_eq!(game.get_turn(), Turn::Player1);
    assert_eq!((game.get_player_1_score(), game.get_player_2_score()), (0, 1));
    play_round(&mut game, C1, C2);
    assert_eq!(game.get_turn(), Turn::Player1);
    assert_eq!((game.get_player_1_score(), game.get_player_2_score()), (1, 1));
    play_round(&mut game, A2, A1);
    assert_eq!((game.get_player_1_score(), game.get_player_2_score()), (2, 1));
    for i in 1..7 {
        assert!(card_entity(&game, i).is_resolved());
    }
}

#[test]
fn third_click_in_a_round_changes_nothing() {
    let mut game = abc();
    click_on(&mut game, A1);
    click_on(&mut game, B1);
    // the third click comes in the frame that evaluates the round: the board is frozen
    click_on(&mut game, C1);
    assert_eq!(game.get_session().selected_count, 0);
    assert_eq!(state(&game, C1), (false, false, false));
    // and through the pause
    click_on(&mut game, C1);
    assert_eq!(state(&game, C1), (false, false, false));
    assert_eq!(game.get_session().selected_count, 0);
}

#[test]
fn clicking_a_picked_card_again_does_not_pick_it_twice() {
    let mut game = abc();
    click_on(&mut game, A1);
    click_on(&mut game, A1);
    click_on(&mut game, A1);
    assert_eq!(game.get_session().selected_count, 1);
    assert_eq!(game.get_session().selected_cards.1.get_name(), "Blank Card");
}

#[test]
fn score_goes_up_by_one_per_match_and_only_once() {
    let mut game = abc();
    click_on(&mut game, A1);
    click_on(&mut game, A2);
    let mut last = 0;
    for _ in 0..400 {
        idle_frame(&mut game, FRAME);
        let sum = game.get_player_1_score() + game.get_player_2_score();
        assert!(sum == last || sum == last + 1);
        last = sum;
    }
    assert_eq!(last, 1);
}

#[test]
fn pause_freezes_the_board() {
    let mut game = abc();
    click_on(&mut game, A1);
    click_on(&mut game, B1);
    idle_frame(&mut game, FRAME);
    assert!(game.get_wait_timer() > 0);
    // a hover during the pause goes unnoticed
    let at = card_entity(&game, C1).get_base();
    game.set_input(vec![], vec![], at);
    game.cycle(FRAME);
    assert_eq!(state(&game, C1), (false, false, false));
    assert_eq!(card_entity(&game, C1).get_coords(), at);
}

#[test]
fn pause_runs_down_by_delta() {
    let mut game = abc();
    click_on(&mut game, A1);
    click_on(&mut game, B1);
    idle_frame(&mut game, 250_000);
    assert_eq!(game.get_wait_timer(), 1_750_000);
    idle_frame(&mut game, 250_000);
    assert_eq!(game.get_wait_timer(), 1_500_000);
    idle_frame(&mut game, u32::MAX);
    assert_eq!(game.get_wait_timer(), 1_500_000 - u32::MAX as i64);
    idle_frame(&mut game, 7);
    assert_eq!(game.get_wait_timer(), 1_500_000 - u32::MAX as i64);
}

#[test]
fn play_time_counts_only_with_entities() {
    let mut game = Game::initiate();
    game.cycle(FRAME);
    assert_eq!(game.get_score(), 0);
    let mut game = abc();
    game.cycle(FRAME);
    game.cycle(4);
    assert_eq!(game.get_score(), 16_004);
}

#[test]
fn hover_sets_the_finger_and_the_pop_is_queued() {
    let mut game = abc();
    game.register_sound(Sound {
        path: "assets/pop.ogg".to_string(),
        resource_location: ResourceLocation::new("memory_game", "sounds/pop.ogg"),
    });
    let at = card_entity(&game, C2).get_base();
    game.set_input(vec![], vec![], at);
    game.cycle(FRAME);
    assert_eq!(state(&game, C2), (true, false, false));
    assert_eq!(card_entity(&game, C2).get_coords(), (at.0, at.1 - 8));
    assert!(game.get_session().use_finger);
    let taken = game.take_playback();
    assert_eq!(taken.len(), 1);
    assert!(matches!(&taken[0], SoundRequest::Play(p) if p == "assets/pop.ogg"));
    assert!(game.take_playback().is_empty());
}

#[test]
fn play_sound_queues_what_the_catalog_says() {
    let mut game = Game::initiate();
    game.register_sound(Sound {
        path: "assets/flip.ogg".to_string(),
        resource_location: ResourceLocation::new("memory_game", "sounds/flip.ogg"),
    });
    game.play_sound(ResourceLocation::new("memory_game", "sounds/flip.ogg"));
    game.play_sound(ResourceLocation::new("memory_game", "sounds/other.ogg"));
    let taken = game.take_playback();
    assert!(matches!(&taken[0], SoundRequest::Play(p) if p == "assets/flip.ogg"));
    assert!(matches!(&taken[1], SoundRequest::Missing(k) if k == "memory_game:sounds/other.ogg"));
}

#[test]
fn quit_and_escape_stop_the_game() {
    for event in [InputEvent::Quit, InputEvent::KeyDown { key: Key::Escape }] {
        let mut game = abc();
        game.set_input(vec![InputEvent::Other, event], vec![], AWAY);
        game.cycle(FRAME);
        assert!(!game.is_running());
    }
    let mut game = abc();
    game.set_input(vec![InputEvent::KeyDown { key: Key::Other(27) }, left_click()], vec![], AWAY);
    game.cycle(FRAME);
    assert!(game.is_running());
}

#[test]
fn debug_key_toggles_once_per_event() {
    let mut game = abc();
    let f3 = InputEvent::KeyDown { key: Key::F3 };
    game.set_input(vec![f3], vec![], AWAY);
    game.cycle(FRAME);
    assert!(game.is_debug());
    game.set_input(vec![f3, f3], vec![], AWAY);
    game.cycle(FRAME);
    assert!(game.is_debug());
    game.set_input(vec![f3, f3, f3], vec![], AWAY);
    game.cycle(FRAME);
    assert!(!game.is_debug());
}

#[test]
fn click_on_play_deals_a_match_and_shows_its_screen() {
    let mut game = Game::initiate();
    game.register_card(card("A"));
    game.register_card(card("B"));
    game.set_screen(Some(Screen::MainMenu(MainMenuScreen::create())));
    assert!(game.set_widget_selected(0, 0, true));
    game.set_input(vec![left_click()], vec![], AWAY);
    game.cycle(FRAME);
    assert!(game.is_running());
    assert_eq!(game.get_entities().len(), 5);
    match game.get_screen() {
        Some(Screen::Hud(hud)) => {
            assert_eq!(hud.get_widgets().len(), 1);
            assert_eq!(hud.get_widgets()[0].len(), 6);
            assert!(hud.get_widgets()[0].iter().all(|w| !w.get_selected()));
        },
        _ => panic!("the match's screen is shown"),
    }
}

#[test]
fn click_without_hovered_widget_does_nothing() {
    let mut game = Game::initiate();
    game.set_screen(Some(Screen::MainMenu(MainMenuScreen::create())));
    game.set_input(vec![left_click()], vec![], AWAY);
    game.cycle(FRAME);
    assert!(game.is_running());
    assert!(game.get_entities().is_empty());
    assert!(matches!(game.get_screen(), Some(Screen::MainMenu(_))));
}

#[test]
fn hovered_widget_without_click_does_nothing() {
    let mut game = Game::initiate();
    game.set_screen(Some(Screen::MainMenu(MainMenuScreen::create())));
    game.set_widget_selected(0, 1, true);
    game.set_input(vec![InputEvent::MouseButtonDown { button: MouseButton::Right, x: 0, y: 0 }], vec![], AWAY);
    game.cycle(FRAME);
    assert!(game.is_running());
}

#[test]
fn click_on_quit_stops_the_game() {
    let mut game = Game::initiate();
    game.set_screen(Some(Screen::MainMenu(MainMenuScreen::create())));
    assert!(game.set_widget_selected(0, 1, true));
    game.set_input(vec![left_click()], vec![], AWAY);
    game.cycle(FRAME);
    assert!(!game.is_running());
    assert!(game.get_entities().is_empty());
}

#[test]
fn every_hovered_widget_is_clicked() {
    let mut game = Game::initiate();
    game.register_card(card("A"));
    game.set_screen(Some(Screen::MainMenu(MainMenuScreen::create())));
    game.set_widget_selected(0, 0, true);
    game.set_widget_selected(0, 1, true);
    game.set_input(vec![left_click()], vec![], AWAY);
    game.cycle(FRAME);
    assert!(!game.is_running());
    assert_eq!(game.get_entities().len(), 3);
    assert!(matches!(game.get_screen(), Some(Screen::Hud(_))));
}

#[test]
fn end_buttons_do_nothing_before_the_match_is_over() {
    let mut game = abc();
    game.set_screen(Some(Screen::Hud(HudScreen::create())));
    click_on(&mut game, A1);
    game.set_widget_selected(0, 2, true);
    game.set_widget_selected(0, 3, true);
    game.set_input(vec![left_click()], vec![], AWAY);
    game.cycle(FRAME);
    assert!(game.is_running());
    assert_eq!(game.get_session().selected_count, 1);
    assert_eq!(state(&game, A1), (true, true, false));
}

#[test]
fn set_widget_selected_reports_missing_widgets() {
    let mut game = Game::initiate();
    assert!(!game.set_widget_selected(0, 0, true));
    game.set_screen(Some(Screen::MainMenu(MainMenuScreen::create())));
    assert!(game.set_widget_selected(0, 1, true));
    assert!(!game.set_widget_selected(0, 2, true));
    assert!(!game.set_widget_selected(1, 0, true));
    match game.get_screen() {
        Some(screen) => {
            assert_eq!(screen.get_widgets()[0][0].get_selected(), false);
            assert_eq!(screen.get_widgets()[0][1].get_selected(), true);
            assert!(matches!(screen.get_widgets()[0][1], Widget::Quit(_)));
        },
        None => panic!("a screen is shown"),
    }
}

fn nine_card_game() -> Game {
    let mut game = Game::initiate();
    for name in ["a", "b", "c", "d", "e", "f", "g", "h", "i"] {
        game.register_card(card(name));
    }
    game.create_scene_from_draws(&vec![0; 18]);
    game
}

#[test]
fn full_match_ends_at_nine_pairs_with_the_winner() {
    let mut game = nine_card_game();
    game.set_screen(Some(Screen::Hud(HudScreen::create())));
    assert!(game.winner().is_none());
    // player 1 finds every pair
    for k in 1..=9 {
        assert!(game.winner().is_none());
        play_round(&mut game, k, k + 9);
        assert_eq!(game.get_player_1_score() as usize, k);
    }
    assert_eq!(game.get_player_1_score() + game.get_player_2_score(), 9);
    assert_eq!(game.winner(), Some(Turn::Player1));
    // nothing is left to pick
    for k in 1..=18 {
        click_on(&mut game, k);
    }
    idle_frame(&mut game, 5_000_000);
    idle_frame(&mut game, FRAME);
    assert_eq!(game.get_player_1_score() + game.get_player_2_score(), 9);
    // once the match is over, play again deals a new one
    game.set_widget_selected(0, 2, true);
    game.set_input(vec![left_click()], vec![], AWAY);
    game.cycle(FRAME);
    assert!(game.is_running());
    assert_eq!(game.get_player_1_score() + game.get_player_2_score(), 0);
    assert_eq!(game.get_entities().len(), 19);
    assert!((1..=18).all(|k| !card_entity(&game, k).is_resolved()));
    assert!(game.winner().is_none());
}

#[test]
fn end_quit_stops_the_game_once_the_match_is_over() {
    let mut game = nine_card_game();
    game.set_screen(Some(Screen::Hud(HudScreen::create())));
    play_round(&mut game, 1, 2);
    for k in 1..=9 {
        play_round(&mut game, k, k + 9);
    }
    assert_eq!((game.get_player_1_score(), game.get_player_2_score()), (0, 9));
    assert_eq!(game.winner(), Some(Turn::Player2));
    game.set_widget_selected(0, 3, true);
    game.set_input(vec![left_click()], vec![], AWAY);
    game.cycle(FRAME);
    assert!(!game.is_running());
    assert_eq!(game.get_entities().len(), 19);
}

#[test]
fn screen_kinds() {
    let menu = Screen::MainMenu(MainMenuScreen::create());
    let hud = Screen::Hud(HudScreen::create());
    assert_eq!(menu.get_widgets()[0].len(), 2);
    assert_eq!(hud.get_widgets()[0].len(), 6);
    assert_ne!(ScreenKind::MainMenu, ScreenKind::Hud);
}

#[test]
fn click_in_the_frame_that_scores_a_match_delays_its_verdict() {
    let mut game = abc();
    click_on(&mut game, C1);
    click_on(&mut game, C2);
    idle_frame(&mut game, FRAME);
    idle_frame(&mut game, 2_000_000);
    assert!(game.get_session().prev_success);
    // the pause is over; in the frame that scores the match, a card that is
    // updated before the matched ones is clicked
    click_on(&mut game, A1);
    assert_eq!((game.get_player_1_score(), game.get_player_2_score()), (1, 0));
    assert!(!game.get_session().prev_success);
    assert_eq!(game.get_session().selected_count, 1);
    assert_eq!(game.get_session().selected_cards.0.get_name(), "A");
    assert_eq!(state(&game, A1), (true, true, false));
    // the matched cards have not seen the count at zero: they wait, still picked
    assert_eq!(state(&game, C1), (true, true, false));
    assert_eq!(state(&game, C2), (true, true, false));
    // the round that follows is a miss, and releases them with its own cards
    click_on(&mut game, B1);
    idle_frame(&mut game, FRAME);
    idle_frame(&mut game, 2_000_000);
    idle_frame(&mut game, FRAME);
    for i in [A1, B1, C1, C2] {
        assert_eq!(state(&game, i), (false, false, false));
    }
    assert_eq!(game.get_turn(), Turn::Player2);
    // so the same pair can be found once more
    play_round(&mut game, C1, C2);
    assert_eq!((game.get_player_1_score(), game.get_player_2_score()), (1, 1));
    assert_eq!(state(&game, C1), (false, false, true));
    assert_eq!(state(&game, C2), (false, false, true));
}

#[test]
fn a_click_later_in_the_scoring_frame_does_not_delay_the_verdict() {
    let mut game = abc();
    click_on(&mut game, A1);
    click_on(&mut game, A2);
    idle_frame(&mut game, FRAME);
    idle_frame(&mut game, 2_000_000);
    // C2 is updated after both matched cards
    click_on(&mut game, C2);
    assert_eq!((game.get_player_1_score(), game.get_player_2_score()), (1, 0));
    assert_eq!(state(&game, A1), (false, false, true));
    // the second matched card is updated after the click is not: it is resolved too
    assert_eq!(state(&game, A2), (false, false, true));
    assert_eq!(state(&game, C2), (true, true, false));
    assert_eq!(game.get_session().selected_count, 1);
}

#[test]
fn two_cards_picked_in_one_frame_leave_the_first_picked_after_a_match() {
    // two cards whose hit boxes overlap once the lower one is raised
    let mut game = Game::initiate();
    game.register_card(card("A"));
    game.create_scene_from_draws(&vec![0, 0]);
    // A at (-104, -70) and A at (-104, 0): hover the lower one, then move up into the band they share
    game.set_input(vec![], vec![], (-104, -30));
    game.cycle(FRAME);
    assert_eq!(state(&game, 2), (true, false, false));
    assert_eq!(state(&game, 1), (false, false, false));
    game.set_input(vec![left_click()], vec![], (-104, -40));
    game.cycle(FRAME);
    assert_eq!(state(&game, 1), (true, true, false));
    assert_eq!(state(&game, 2), (true, true, false));
    assert_eq!(game.get_session().selected_count, 2);
    idle_frame(&mut game, FRAME);
    idle_frame(&mut game, 2_000_000);
    idle_frame(&mut game, FRAME);
    assert_eq!(game.get_player_1_score(), 1);
    // the second pick had seen the count at one and is resolved; the first had not
    assert_eq!(state(&game, 2), (false, false, true));
    assert_eq!(state(&game, 1), (true, true, false));
}

#[test]
fn clicks_go_to_every_hovered_widget_unless_exclusive() {
    let game = Game::initiate();
    assert!(!game.is_exclusive_clicks());
}

#[test]
fn exclusive_click_goes_to_the_first_hovered_widget_only() {
    let mut game = Game::initiate();
    game.register_card(card("A"));
    game.set_exclusive_clicks(true);
    assert!(game.is_exclusive_clicks());
    game.set_screen(Some(Screen::MainMenu(MainMenuScreen::create())));
    game.set_widget_selected(0, 0, true);
    game.set_widget_selected(0, 1, true);
    game.set_input(vec![left_click()], vec![], AWAY);
    game.cycle(FRAME);
    // play took the click; quit did not get it
    assert!(game.is_running());
    assert_eq!(game.get_entities().len(), 3);
    assert!(matches!(game.get_screen(), Some(Screen::Hud(_))));
}

#[test]
fn exclusive_click_skips_widgets_the_pointer_is_not_over() {
    let mut game = Game::initiate();
    game.set_exclusive_clicks(true);
    game.set_screen(Some(Screen::MainMenu(MainMenuScreen::create())));
    game.set_widget_selected(0, 1, true);
    game.set_input(vec![left_click()], vec![], AWAY);
    game.cycle(FRAME);
    assert!(!game.is_running());
    assert!(game.get_entities().is_empty());
}

#[test]
fn each_click_of_a_frame_is_handled() {
    let mut game = Game::initiate();
    game.set_exclusive_clicks(true);
    game.set_screen(Some(Screen::MainMenu(MainMenuScreen::create())));
    game.set_widget_selected(0, 1, true);
    game.set_input(vec![InputEvent::KeyDown { key: Key::F3 }, left_click(), left_click()], vec![], AWAY);
    game.cycle(FRAME);
    assert!(!game.is_running());
    assert!(game.is_debug());
}

#[test]
fn clicks_after_a_new_match_find_no_hovered_widget() {
    let mut game = Game::initiate();
    game.register_card(card("A"));
    game.set_screen(Some(Screen::MainMenu(MainMenuScreen::create())));
    game.set_widget_selected(0, 0, true);
    // the second click of the frame meets the new screen, on which nothing is hovered
    game.set_input(vec![left_click(), left_click()], vec![], AWAY);
    game.cycle(FRAME);
    assert!(game.is_running());
    assert_eq!(game.get_entities().len(), 3);
    // a quit request later in the frame still stops the game
    let mut game = Game::initiate();
    game.set_screen(Some(Screen::MainMenu(MainMenuScreen::create())));
    game.set_widget_selected(0, 0, true);
    game.set_input(vec![left_click(), InputEvent::Quit], vec![], AWAY);
    game.cycle(FRAME);
    assert!(!game.is_running());
    assert!(matches!(game.get_screen(), Some(Screen::Hud(_))));
}
