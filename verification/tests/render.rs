use memory_game::card::Card;
use memory_game::frame::Pointer;
use memory_game::game::Game;
use memory_game::input::{InputEvent, MouseButton};
use memory_game::resource_location::ResourceLocation;
use memory_game::screen::Screen;
use memory_game::screens::hud_screen::HudScreen;
use memory_game::screens::main_menu_screen::MainMenuScreen;
use memory_game::widget::Alignment;

fn card(name: &str) -> Card {
    Card::create(name.to_string(), ResourceLocation::empty(), ResourceLocation::new("memory_game", name))
}

fn abc() -> Game {
    let mut game = Game::initiate();
    game.register_card(card("A"));
    game.register_card(card("B"));
    game.register_card(card("C"));
    game.create_scene_from_draws(&vec![0, 0, 0, 0, 0, 0]);
    game
}

#[test]
fn empty_game_draws_only_the_pointer() {
    let mut game = Game::initiate();
    let frame = game.render();
    assert!(frame.camera.is_none());
    assert!(frame.entities.is_empty());
    assert!(frame.widgets.is_empty());
    assert_eq!(frame.pointer, Some(Pointer::Cursor));
    game.set_draw_mouse(false);
    assert_eq!(game.render().pointer, None);
}

#[test]
fn entities_are_drawn_back_to_front() {
    let mut game = abc();
    let frame = game.render();
    assert_eq!(frame.camera, Some((0, 0)));
    // places: A(-104,-70) B(-104,0) C(-104,70) A(-56,-70) B(-56,0) C(-56,70); the camera at (0,0)
    let places: Vec<(i64, i64)> = frame.entities.iter().map(|s| (s.x, s.y)).collect();
    assert_eq!(places, vec![(-104, -70), (-56, -70), (0, 0), (-104, 0), (-56, 0), (-104, 70), (-56, 70)]);
    assert_eq!(frame.entities[2].asset.resource_location.to_string(), "memory_game:empty.png");
    for (i, s) in frame.entities.iter().enumerate() {
        if i != 2 {
            assert_eq!(s.asset.resource_location.to_string(), "memory_game:cards/card_reverse.png");
        }
    }
    // the game's own order is untouched
    assert_eq!(game.get_entities()[1].get_coords(), (-104, -70));
    assert_eq!(game.get_entities()[6].get_coords(), (-56, 70));
}

#[test]
fn raised_card_is_drawn_earlier_and_face_up() {
    let mut game = abc();
    // pick the B at (-104, 0): it is raised to (-104, -8)
    game.set_input(vec![InputEvent::MouseButtonDown { button: MouseButton::Left, x: 0, y: 0 }], vec![], (-104, 0));
    game.cycle(16_000);
    let frame = game.render();
    let places: Vec<(i64, i64)> = frame.entities.iter().map(|s| (s.x, s.y)).collect();
    assert_eq!(places, vec![(-104, -70), (-56, -70), (-104, -8), (0, 0), (-56, 0), (-104, 70), (-56, 70)]);
    assert_eq!(frame.entities[2].asset.resource_location.to_string(), "memory_game:B");
    assert_eq!(frame.pointer, Some(Pointer::Cursor));
}

#[test]
fn hovering_a_card_shows_the_finger() {
    let mut game = abc();
    game.set_input(vec![], vec![], (-56, 70));
    game.cycle(16_000);
    assert_eq!(game.render().pointer, Some(Pointer::Finger));
    game.set_use_finger(false);
    assert_eq!(game.render().pointer, Some(Pointer::Cursor));
}

#[test]
fn hud_is_drawn_widget_by_widget() {
    let mut game = abc();
    game.set_screen(Some(Screen::Hud(HudScreen::create())));
    let frame = game.render();
    assert_eq!(frame.widgets.len(), 6);
    let placements: Vec<(Alignment, (i32, i32))> = frame.widgets.iter().map(|w| (w.alignment, w.coords)).collect();
    assert_eq!(
        placements,
        vec![
            (Alignment::LEFT, (20, 80)),
            (Alignment::RIGHT, (-88, 80)),
            (Alignment::LEFT, (20, -110)),
            (Alignment::RIGHT, (-75, -110)),
            (Alignment::LEFT, (54, 90)),
            (Alignment::RIGHT, (-54, 90)),
        ]
    );
    // player 1 is to move: its banner is lit, the other dim; the end buttons and crowns are hidden
    let uv = frame.widgets[0].pieces[0].asset.uv.unwrap();
    assert_eq!((uv.x, uv.y, uv.w, uv.h), (0, 0, 68, 21));
    let uv = frame.widgets[1].pieces[0].asset.uv.unwrap();
    assert_eq!((uv.x, uv.y, uv.w, uv.h), (0, 21, 68, 21));
    for w in &frame.widgets[2..] {
        assert_eq!(w.pieces.len(), 1);
        assert_eq!(w.pieces[0].asset.resource_location.to_string(), "memory_game:empty.png");
    }
}

#[test]
fn hovered_hidden_button_takes_the_finger_from_a_hovered_card() {
    let mut game = abc();
    game.set_screen(Some(Screen::Hud(HudScreen::create())));
    game.set_input(vec![], vec![], (-56, 70));
    game.cycle(16_000);
    assert!(game.get_session().use_finger);
    game.set_widget_selected(0, 2, true);
    assert_eq!(game.render().pointer, Some(Pointer::Cursor));
    assert!(!game.get_session().use_finger);
}

#[test]
fn main_menu_is_drawn() {
    let mut game = Game::initiate();
    game.set_screen(Some(Screen::MainMenu(MainMenuScreen::create())));
    game.set_widget_selected(0, 0, true);
    game.set_use_finger(true);
    let frame = game.render();
    assert_eq!(frame.widgets.len(), 2);
    let uv = frame.widgets[0].pieces[0].asset.uv.unwrap();
    assert_eq!((uv.x, uv.y, uv.w, uv.h), (0, 23, 39, 23));
    let uv = frame.widgets[1].pieces[0].asset.uv.unwrap();
    assert_eq!((uv.x, uv.y, uv.w, uv.h), (0, 0, 39, 23));
    assert_eq!(frame.pointer, Some(Pointer::Finger));
}

#[test]
fn settings_are_kept() {
    let mut game = Game::initiate();
    game.set_dims((640, 480));
    assert_eq!(game.get_dims(), (640, 480));
    game.set_use_finger(true);
    assert!(game.get_session().use_finger);
}
