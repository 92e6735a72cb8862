//! Tests for the scripted input source and command mapping.

use what_you_shouldnt_care_about_in_2026::input::{
    InputCommand, InputError, InputSource, KeyCode, KeyEvent, KeyEventKind,
};

#[test]
fn scripted_source_yields_commands_in_order() {
    let mut source = InputSource::new(&[
        InputCommand::Character('5'),
        InputCommand::Confirm,
        InputCommand::Cancel,
    ]);

    assert_eq!(source.read_command().unwrap(), InputCommand::Character('5'));
    assert_eq!(source.read_command().unwrap(), InputCommand::Confirm);
    assert_eq!(source.read_command().unwrap(), InputCommand::Cancel);
}

#[test]
fn esc_maps_to_cancel_not_unknown() {
    let mut event = KeyEvent::from(KeyCode::Esc);
    event.kind = KeyEventKind::Press;
    assert_eq!(InputCommand::from(event), InputCommand::Cancel);
}

#[test]
fn key_release_events_are_ignored_as_unknown() {
    let mut release = KeyEvent::from(KeyCode::Enter);
    release.kind = KeyEventKind::Release;
    assert_eq!(InputCommand::from(release), InputCommand::Unknown);
}

#[test]
fn exhausted_source_reports_error_and_stays_exhausted() {
    let mut source = InputSource::new(&[InputCommand::Up]);
    assert_eq!(source.read_command(), Ok(InputCommand::Up));
    assert_eq!(source.read_command(), Err(InputError::Exhausted));
    assert_eq!(source.read_command(), Err(InputError::Exhausted));
}
