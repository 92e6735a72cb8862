//! Tests for the play-through decisions of the terminal front end.

use what_you_shouldnt_care_about_in_2026::input::{InputCommand, NumberStep, ReadOutcome};
use what_you_shouldnt_care_about_in_2026::session::{
    demo_transcript, replay_decision, session_verdict, start_decision, ReplayOutcome, Session,
    SessionOutcome, SessionPhase, SessionStep, StartOutcome,
};
use what_you_shouldnt_care_about_in_2026::state::GameState;

#[test]
fn start_and_replay_screens() {
    assert_eq!(start_decision(InputCommand::Confirm), Some(StartOutcome::Start));
    assert_eq!(start_decision(InputCommand::Cancel), Some(StartOutcome::Quit));
    assert_eq!(start_decision(InputCommand::Quit), Some(StartOutcome::Quit));
    assert_eq!(start_decision(InputCommand::Up), None);
    assert_eq!(
        replay_decision(InputCommand::Character('R')),
        Some(ReplayOutcome::Replay)
    );
    assert_eq!(replay_decision(InputCommand::Confirm), Some(ReplayOutcome::Quit));
    assert_eq!(replay_decision(InputCommand::Character('x')), None);
}

#[test]
fn session_plays_through_to_the_verdict() {
    let mut state = GameState::default();
    let mut session = Session::new();
    assert_eq!(
        session.step(&mut state, InputCommand::Character('9')),
        SessionStep::Floor(NumberStep::Echo('9'))
    );
    assert_eq!(
        session.step(&mut state, InputCommand::Character('0')),
        SessionStep::Floor(NumberStep::Echo('0'))
    );
    assert_eq!(
        session.step(&mut state, InputCommand::Confirm),
        SessionStep::Floor(NumberStep::Done(ReadOutcome::Value(90)))
    );
    assert_eq!(session.current_phase(), SessionPhase::Panic(90));
    assert_eq!(session.step(&mut state, InputCommand::Character('n')), SessionStep::Pending);
    assert_eq!(
        session.step(&mut state, InputCommand::Confirm),
        SessionStep::Decided(
            "The elevator arrives. The building has noticed your composure.".to_owned()
        )
    );
    assert_eq!(
        session.step(&mut state, InputCommand::Confirm),
        SessionStep::Decided(
            "You turn off the radio. The silence has its own editorial position.".to_owned()
        )
    );
    session.step(&mut state, InputCommand::Character('y'));
    match session.step(&mut state, InputCommand::Confirm) {
        SessionStep::Concluded(feedback, verdict) => {
            assert_eq!(
                feedback,
                "The mirror confirms your presence and declines to elaborate."
            );
            assert!(verdict.starts_with("ORACLE VERDICT\n\nYour dominant aura is"));
        }
        other => panic!("unexpected step {:?}", other),
    }
    assert_eq!(state.completed_segments(), 3);
    assert_eq!(session.current_phase(), SessionPhase::Over);
    assert_eq!(session.step(&mut state, InputCommand::Confirm), SessionStep::Pending);
}

#[test]
fn session_esc_and_q_end_the_play_through() {
    let mut state = GameState::default();
    let mut session = Session::new();
    assert_eq!(
        session.step(&mut state, InputCommand::Cancel),
        SessionStep::Ended(SessionOutcome::Replay)
    );
    let mut other = Session::new();
    other.step(&mut state, InputCommand::Character('5'));
    other.step(&mut state, InputCommand::Confirm);
    assert_eq!(
        other.step(&mut state, InputCommand::Quit),
        SessionStep::Ended(SessionOutcome::Quit)
    );
    assert_eq!(state.completed_segments(), 0);
}

#[test]
fn locked_verdict_before_three_segments() {
    let mut state = GameState::default();
    state.complete_segment("elevator");
    assert_eq!(
        session_verdict(&state),
        "ORACLE VERDICT LOCKED\n\nComplete at least two more segments to unlock the Oracle verdict."
    );
}

#[test]
fn demo_transcript_matches_the_fixed_play_through() {
    let transcript = demo_transcript();
    assert!(transcript.starts_with(
        "The elevator arrives. The building has noticed your composure.\n\nYou turn off the radio."
    ));
    assert!(transcript.contains(
        "The mirror confirms your presence and declines to elaborate.\n\nORACLE VERDICT"
    ));
    assert!(transcript.contains("Your dominant aura is esoteric (59/100)."));
    assert!(transcript.ends_with("especially your certainty.\n"));
}
