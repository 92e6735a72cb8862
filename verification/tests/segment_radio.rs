//! Tests for the radio segment.

use what_you_shouldnt_care_about_in_2026::input::{InputCommand, InputSource};
use what_you_shouldnt_care_about_in_2026::segments::radio::RadioSegment;
use what_you_shouldnt_care_about_in_2026::segments::{Segment, SegmentOutcome};
use what_you_shouldnt_care_about_in_2026::state::GameState;

#[test]
fn radio_listen_captures_keyword() {
    let mut segment = RadioSegment;
    let mut state = GameState::default();
    let mut src = InputSource::new(&[InputCommand::Character('y'), InputCommand::Confirm]);

    let outcome = segment.run(&mut state, &mut src).unwrap();

    assert_eq!(outcome, SegmentOutcome::Completed);
    assert!(state.profile.keywords.iter().any(|k| k == "broadcast"));
    assert!(state.completed_segments() >= 1);
}

#[test]
fn radio_skip_does_not_capture_keyword() {
    let mut segment = RadioSegment;
    let mut state = GameState::default();
    let mut src = InputSource::new(&[InputCommand::Character('n'), InputCommand::Confirm]);

    let outcome = segment.run(&mut state, &mut src).unwrap();

    assert_eq!(outcome, SegmentOutcome::Completed);
    assert!(state.profile.keywords.is_empty());
}

#[test]
fn radio_cancel_preserves_progress() {
    let mut segment = RadioSegment;
    let mut state = GameState::default();
    state.complete_segment("elevator");
    let mut src = InputSource::new(&[InputCommand::Cancel]);

    let outcome = segment.run(&mut state, &mut src).unwrap();

    assert_eq!(outcome, SegmentOutcome::Cancelled);
    assert_eq!(state.completed_segments(), 1);
}

#[test]
fn radio_replay_does_not_award_again() {
    let mut segment = RadioSegment;
    let mut state = GameState::default();
    let mut src = InputSource::new(&[InputCommand::Character('y'), InputCommand::Confirm]);
    segment.run(&mut state, &mut src).unwrap();
    let after_first = state.profile.clone();
    let mut again = InputSource::new(&[InputCommand::Character('y'), InputCommand::Confirm]);
    assert_eq!(
        segment.run(&mut state, &mut again).unwrap(),
        SegmentOutcome::Completed
    );
    assert_eq!(state.profile, after_first);
    assert_eq!(state.profile.geopolitical_awareness, 56);
    assert_eq!(state.profile.baseline_anxiety, 24);
    assert_eq!(again.read_command().unwrap(), InputCommand::Character('y'));
}

#[test]
fn radio_quit_quits_the_game() {
    let mut segment = RadioSegment;
    let mut state = GameState::default();
    let mut src = InputSource::new(&[InputCommand::Character('y'), InputCommand::Quit]);
    assert_eq!(
        segment.run(&mut state, &mut src).unwrap(),
        SegmentOutcome::Quit
    );
    assert_eq!(state.completed_segments(), 0);
}
