//! Tests for the mirror segment.

use what_you_shouldnt_care_about_in_2026::input::{InputCommand, InputSource};
use what_you_shouldnt_care_about_in_2026::segments::mirror::MirrorSegment;
use what_you_shouldnt_care_about_in_2026::segments::{Segment, SegmentOutcome};
use what_you_shouldnt_care_about_in_2026::state::GameState;

#[test]
fn mirror_look_completes() {
    let mut segment = MirrorSegment;
    let mut state = GameState::default();
    let mut src = InputSource::new(&[InputCommand::Character('y'), InputCommand::Confirm]);

    let outcome = segment.run(&mut state, &mut src).unwrap();

    assert_eq!(outcome, SegmentOutcome::Completed);
    assert!(state.completed_segments() >= 1);
}

#[test]
fn mirror_cancel_preserves_progress() {
    let mut segment = MirrorSegment;
    let mut state = GameState::default();
    state.complete_segment("elevator");
    state.complete_segment("radio");
    let mut src = InputSource::new(&[InputCommand::Cancel]);

    let outcome = segment.run(&mut state, &mut src).unwrap();

    assert_eq!(outcome, SegmentOutcome::Cancelled);
    assert_eq!(state.completed_segments(), 2);
}

#[test]
fn mirror_avoid_exact_profile() {
    let mut segment = MirrorSegment;
    let mut state = GameState::default();
    let mut src = InputSource::new(&[InputCommand::Confirm]);
    assert_eq!(
        segment.run(&mut state, &mut src).unwrap(),
        SegmentOutcome::Completed
    );
    assert_eq!(state.profile.locus_of_control, 55);
    assert_eq!(state.profile.baseline_anxiety, 16);
    assert!(state.is_segment_completed("mirror"));
}

#[test]
fn mirror_out_of_input_is_an_error() {
    let mut segment = MirrorSegment;
    let mut state = GameState::default();
    let mut src = InputSource::new(&[InputCommand::Character('y')]);
    assert!(segment.run(&mut state, &mut src).is_err());
    assert_eq!(state.completed_segments(), 0);
}

#[test]
fn mirror_quit_quits_the_game() {
    let mut segment = MirrorSegment;
    let mut state = GameState::default();
    let before = state.profile.clone();
    let mut src = InputSource::new(&[InputCommand::Quit]);
    assert_eq!(
        segment.run(&mut state, &mut src).unwrap(),
        SegmentOutcome::Quit
    );
    assert_eq!(state.profile, before);
    assert_eq!(state.completed_segments(), 0);
}
