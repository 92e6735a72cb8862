//! Tests for the elevator segment.

use what_you_shouldnt_care_about_in_2026::input::{InputCommand, InputSource};
use what_you_shouldnt_care_about_in_2026::segments::elevator::ElevatorSegment;
use what_you_shouldnt_care_about_in_2026::segments::{Segment, SegmentOutcome};
use what_you_shouldnt_care_about_in_2026::state::{
    ElevatorEventCategory, GameState, PlayerAspects,
};

fn yes() -> InputCommand {
    InputCommand::Character('y')
}
fn no() -> InputCommand {
    InputCommand::Character('n')
}

#[test]
fn elevator_completes_and_records_progress() {
    let mut segment = ElevatorSegment;
    let mut state = GameState::default();
    // floor 90 -> Global event; panic -> yes; engage -> yes.
    let mut src = InputSource::new(&[
        InputCommand::Character('9'),
        InputCommand::Character('0'),
        InputCommand::Confirm,
        yes(),
        InputCommand::Confirm,
        yes(),
        InputCommand::Confirm,
    ]);

    let outcome = segment.run(&mut state, &mut src).unwrap();

    assert_eq!(outcome, SegmentOutcome::Completed);
    assert!(state.completed_segments() >= 1);
    // floor>=70 -> +geopolitical (8) and +social (8); global event engage -> +geopolitical (6)
    assert!(state.profile.geopolitical_awareness >= 50 + 8 + 6);
}

#[test]
fn low_floor_selects_mystical_event() {
    assert_eq!(ElevatorEventCategory::from_floor(10), ElevatorEventCategory::Mystical);
    assert_eq!(ElevatorEventCategory::from_floor(50), ElevatorEventCategory::Social);
    assert_eq!(ElevatorEventCategory::from_floor(90), ElevatorEventCategory::Global);
}

#[test]
fn elevator_cancel_preserves_progress() {
    let mut segment = ElevatorSegment;
    let mut state = GameState::default();
    state.complete_segment("radio");
    // Quit right at the floor prompt.
    let mut src = InputSource::new(&[InputCommand::Quit]);

    let outcome = segment.run(&mut state, &mut src).unwrap();

    assert_eq!(outcome, SegmentOutcome::Cancelled);
    assert_eq!(state.completed_segments(), 1);
}

#[test]
fn elevator_engage_no_event_does_not_boost_axis() {
    let mut state = GameState::default();
    let before = state.profile.baseline_anxiety;
    let feedback = state.apply_elevator_event(ElevatorEventCategory::Global, false);
    assert!(feedback.contains("ignore"));
    assert_eq!(state.profile.baseline_anxiety, before);
}

#[test]
fn default_profile_within_range() {
    let profile = PlayerAspects::default();
    assert!(profile.social_engagement <= 100);
}

#[test]
fn elevator_cancel_at_engage_undoes_the_decision() {
    let mut segment = ElevatorSegment;
    let mut state = GameState::default();
    let before = state.profile.clone();
    let mut src = InputSource::new(&[
        InputCommand::Character('8'),
        InputCommand::Confirm,
        yes(),
        InputCommand::Confirm,
        InputCommand::Cancel,
    ]);
    assert_eq!(
        segment.run(&mut state, &mut src).unwrap(),
        SegmentOutcome::Cancelled
    );
    assert_eq!(state.profile, before);
    assert_eq!(state.completed_segments(), 0);
}

#[test]
fn elevator_quit_at_panic_prompt_quits() {
    let mut segment = ElevatorSegment;
    let mut state = GameState::default();
    let mut src = InputSource::new(&[
        InputCommand::Character('3'),
        InputCommand::Confirm,
        no(),
        InputCommand::Quit,
    ]);
    assert_eq!(segment.run(&mut state, &mut src).unwrap(), SegmentOutcome::Quit);
    assert_eq!(state.profile, PlayerAspects::default());
}

#[test]
fn elevator_exact_profile_for_low_floor_without_panic() {
    let mut segment = ElevatorSegment;
    let mut state = GameState::default();
    let mut src = InputSource::new(&[
        InputCommand::Character('1'),
        InputCommand::Character('2'),
        InputCommand::Confirm,
        no(),
        InputCommand::Confirm,
        yes(),
        InputCommand::Confirm,
    ]);
    assert_eq!(
        segment.run(&mut state, &mut src).unwrap(),
        SegmentOutcome::Completed
    );
    // low floor: esoteric +8; composure: anxiety -5, esoteric +3; mystical
    // event engaged: esoteric +6.
    assert_eq!(state.profile.esoteric_attunement, 67);
    assert_eq!(state.profile.baseline_anxiety, 15);
    assert!(state.is_segment_completed("elevator"));
}

#[test]
fn elevator_event_labels_and_feedback() {
    assert_eq!(ElevatorEventCategory::Mystical.label(), "mystical");
    assert_eq!(ElevatorEventCategory::Social.label(), "social");
    assert_eq!(ElevatorEventCategory::Global.label(), "global");
    assert_eq!(ElevatorEventCategory::from_floor(69), ElevatorEventCategory::Social);
    assert_eq!(ElevatorEventCategory::from_floor(70), ElevatorEventCategory::Global);
    assert_eq!(ElevatorEventCategory::from_floor(39), ElevatorEventCategory::Mystical);
    assert_eq!(ElevatorEventCategory::from_floor(40), ElevatorEventCategory::Social);
    let mut state = GameState::default();
    let feedback = state.apply_elevator_event(ElevatorEventCategory::Social, true);
    assert!(feedback.starts_with("A social event unfolds"));
    assert_eq!(state.profile.social_engagement, 56);
}
