use memory_game::turn::Turn;

#[test]
fn swith_gives_other_player() {
    assert_eq!(Turn::Player1.swith(), Turn::Player2);
    assert_eq!(Turn::Player2.swith(), Turn::Player1);
}

#[test]
fn swith_twice_is_identity() {
    assert_eq!(Turn::Player1.swith().swith(), Turn::Player1);
    assert_eq!(Turn::Player2.swith().swith(), Turn::Player2);
}

#[test]
fn turn_equality_is_structural() {
    assert!(Turn::Player1 == Turn::Player1);
    assert!(Turn::Player2 == Turn::Player2);
    assert!(Turn::Player1 != Turn::Player2);
    assert!(Turn::Player2 != Turn::Player1);
}

#[test]
fn turn_clone_keeps_variant() {
    assert_eq!(Turn::Player1.clone(), Turn::Player1);
    assert_eq!(Turn::Player2.clone(), Turn::Player2);
}
