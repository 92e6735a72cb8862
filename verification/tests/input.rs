use what_you_shouldnt_care_about_in_2026::input::{
    parse_floor_input, parse_yes_no_input, InputCommand, KeyCode, KeyEvent, KeyEventKind,
};

#[test]
fn maps_terminal_keys_to_game_commands() {
    assert_eq!(
        InputCommand::from(KeyEvent::from(KeyCode::Enter)),
        InputCommand::Confirm
    );
    assert_eq!(
        InputCommand::from(KeyEvent::from(KeyCode::Esc)),
        InputCommand::Cancel
    );
    assert_eq!(
        InputCommand::from(KeyEvent::from(KeyCode::Char('q'))),
        InputCommand::Quit
    );
}

#[test]
fn parses_floor_input_and_clamps_to_valid_range() {
    assert_eq!(parse_floor_input("33"), Ok(Some(33)));
    assert_eq!(parse_floor_input("0"), Ok(Some(1)));
    assert_eq!(parse_floor_input("101"), Ok(Some(100)));
    assert_eq!(parse_floor_input("q"), Ok(None));
    assert!(parse_floor_input("thirteen").is_err());
}

#[test]
fn parses_yes_no_input_and_treats_enter_as_default_no() {
    assert_eq!(parse_yes_no_input("y"), Ok(Some(true)));
    assert_eq!(parse_yes_no_input("yes"), Ok(Some(true)));
    assert_eq!(parse_yes_no_input("n"), Ok(Some(false)));
    assert_eq!(parse_yes_no_input(""), Ok(Some(false)));
    assert_eq!(parse_yes_no_input("q"), Ok(None));
    assert!(parse_yes_no_input("maybe").is_err());
}

#[test]
fn floor_input_edge_cases() {
    assert_eq!(parse_floor_input("  42\t\n"), Ok(Some(42)));
    assert_eq!(parse_floor_input("Q"), Ok(None));
    assert_eq!(parse_floor_input(" q "), Ok(None));
    assert_eq!(parse_floor_input("+7"), Ok(Some(7)));
    assert_eq!(parse_floor_input("4294967295"), Ok(Some(100)));
    assert_eq!(
        parse_floor_input("4294967296"),
        Err("floor must be a number from 1 to 100")
    );
    assert_eq!(parse_floor_input(""), Err("floor must be a number from 1 to 100"));
    assert_eq!(parse_floor_input("+"), Err("floor must be a number from 1 to 100"));
    assert_eq!(parse_floor_input("-5"), Err("floor must be a number from 1 to 100"));
    assert_eq!(parse_floor_input("1 2"), Err("floor must be a number from 1 to 100"));
    assert_eq!(parse_floor_input("\u{3000}88\u{a0}"), Ok(Some(88)));
}

#[test]
fn yes_no_input_edge_cases() {
    assert_eq!(parse_yes_no_input(" YES "), Ok(Some(true)));
    assert_eq!(parse_yes_no_input("No"), Ok(Some(false)));
    assert_eq!(parse_yes_no_input("   "), Ok(Some(false)));
    assert_eq!(parse_yes_no_input("Q"), Ok(None));
    assert_eq!(parse_yes_no_input("yess"), Err("answer must be y, n, or q"));
}

#[test]
fn key_mapping_covers_every_key() {
    let press = |code| InputCommand::from(KeyEvent::from(code));
    assert_eq!(press(KeyCode::Up), InputCommand::Up);
    assert_eq!(press(KeyCode::Down), InputCommand::Down);
    assert_eq!(press(KeyCode::Left), InputCommand::Left);
    assert_eq!(press(KeyCode::Right), InputCommand::Right);
    assert_eq!(press(KeyCode::Backspace), InputCommand::Backspace);
    assert_eq!(press(KeyCode::Char('Q')), InputCommand::Quit);
    assert_eq!(press(KeyCode::Char('y')), InputCommand::Character('y'));
    assert_eq!(press(KeyCode::Other), InputCommand::Unknown);
    let repeat = KeyEvent {
        code: KeyCode::Enter,
        kind: KeyEventKind::Repeat,
    };
    assert_eq!(InputCommand::from(repeat), InputCommand::Confirm);
}
