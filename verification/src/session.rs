//! The decisions of one play-through on the terminal: the start and replay
//! screens, the sequence of prompts (floor, panic, radio, mirror) and the
//! verdict shown at its end. The terminal front end reads one command at a
//! time, feeds it to `Session::step`, and shows what the step returns.
use crate::input::{
    choice_step, number_step, ChoicePrompt, Choice, InputCommand, NumberPrompt, NumberStep,
    ReadOutcome,
};
use crate::oracle::{generate, verdict_text};
use crate::state::{
    elevator_decision_feedback, elevator_decision_profile, mirror_decision_feedback,
    mirror_decision_profile, radio_decision_feedback, radio_decision_profile, GameState,
    PlayerAspects, VERDICT_SEGMENT_THRESHOLD,
};
use vstd::prelude::*;
use vstd::string::*;

verus! {

/// What the title screen does with a command.
#[derive(Debug, Clone, Copy, PartialEq, Eq, Structural)]
pub enum StartOutcome {
    Start,
    Quit,
}

/// The title screen: Enter starts, `q` or Esc quit (there is no progress to
/// keep yet); other commands are ignored.
pub fn start_decision(command: InputCommand) -> (outcome: Option<StartOutcome>)
    ensures
        outcome == (match command {
            InputCommand::Confirm => Some(StartOutcome::Start),
            InputCommand::Quit | InputCommand::Cancel => Some(StartOutcome::Quit),
            _ => None,
        }),
{
    match command {
        InputCommand::Confirm => Some(StartOutcome::Start),
        InputCommand::Quit => Some(StartOutcome::Quit),
        InputCommand::Cancel => Some(StartOutcome::Quit),
        _ => None,
    }
}

/// What the screen after the verdict does with a command.
#[derive(Debug, Clone, Copy, PartialEq, Eq, Structural)]
pub enum ReplayOutcome {
    Replay,
    Quit,
}

/// Decide on the closing screen: a new game on the letter r in either case,
/// leaving on Enter, `q` or Esc; other commands are ignored.
pub fn replay_decision(command: InputCommand) -> (outcome: Option<ReplayOutcome>)
    ensures
        outcome == (match command {
            InputCommand::Character(c) => if c == 'r' || c == 'R' {
                Some(ReplayOutcome::Replay)
            } else {
                None
            },
            InputCommand::Confirm | InputCommand::Quit | InputCommand::Cancel => Some(
                ReplayOutcome::Quit,
            ),
            _ => None,
        }),
{
    match command {
        InputCommand::Character(c) => {
            if c == 'r' || c == 'R' {
                Some(ReplayOutcome::Replay)
            } else {
                None
            }
        },
        InputCommand::Confirm => Some(ReplayOutcome::Quit),
        InputCommand::Quit => Some(ReplayOutcome::Quit),
        InputCommand::Cancel => Some(ReplayOutcome::Quit),
        _ => None,
    }
}

/// The text shown when too few segments are complete.
pub open spec fn locked_verdict_text() -> Seq<char> {
    "ORACLE VERDICT LOCKED\n\nComplete at least two more segments to unlock the Oracle verdict."@
}

/// The verdict shown at the end of a play-through: the Oracle's verdict once
/// enough segments are complete, else a notice that it is locked.
pub fn session_verdict(state: &GameState) -> (verdict: String)
    ensures
        verdict@ == (if state.completed_ids().len() >= VERDICT_SEGMENT_THRESHOLD {
            verdict_text(state.profile)
        } else {
            locked_verdict_text()
        }),
{
    if state.can_show_verdict() {
        generate(&state.profile)
    } else {
        "ORACLE VERDICT LOCKED\n\nComplete at least two more segments to unlock the Oracle verdict.".to_owned()
    }
}

/// How a play-through ends.
#[derive(Debug, Clone, Copy, PartialEq, Eq, Structural)]
pub enum SessionOutcome {
    /// Go on to the replay screen.
    Replay,
    /// Leave the game.
    Quit,
}

/// Where a play-through stands.
#[derive(Debug, Clone, Copy, PartialEq, Eq, Structural)]
pub enum SessionPhase {
    /// Typing the elevator floor.
    Floor,
    /// Answering whether to panic on the chosen floor.
    Panic(u32),
    /// Answering whether to listen to the radio.
    Radio,
    /// Answering whether to look into the mirror.
    Mirror,
    /// The play-through has ended.
    Over,
}

/// What the front end shows after a step.
#[derive(Debug, Clone, PartialEq, Eq)]
pub enum SessionStep {
    /// Nothing to show; keep reading.
    Pending,
    /// What the floor prompt did (echo, erase, ask again, or the floor read).
    Floor(NumberStep),
    /// A decision was applied: show its feedback, then the next prompt.
    Decided(String),
    /// The last decision was applied: show its feedback and then the verdict.
    Concluded(String, String),
    /// The play-through ended early.
    Ended(SessionOutcome),
}

/// One play-through: the elevator floor and panic, the radio and the mirror,
/// then the verdict. Esc at any prompt ends it (back to the replay screen),
/// `q` quits the game.
#[derive(Debug, Clone)]
pub struct Session {
    phase: SessionPhase,
    number: NumberPrompt,
    choice: ChoicePrompt,
}

impl Session {
    /// The current phase.
    pub closed spec fn phase(&self) -> SessionPhase {
        self.phase
    }

    /// The digits typed at the floor prompt.
    pub closed spec fn floor_buffer(&self) -> Seq<char> {
        self.number.buffer()
    }

    /// The pending answer of the current yes/no prompt.
    pub closed spec fn pending(&self) -> Option<bool> {
        self.choice.pending
    }

    /// A play-through at its first prompt.
    pub fn new() -> (session: Self)
        ensures
            session.phase() == SessionPhase::Floor,
            session.floor_buffer() == Seq::<char>::empty(),
            session.pending() is None,
    {
        Session { phase: SessionPhase::Floor, number: NumberPrompt::new(), choice: ChoicePrompt::new() }
    }

    /// The current phase.
    pub fn current_phase(&self) -> (phase: SessionPhase)
        ensures
            phase == self.phase(),
    {
        self.phase
    }

    /// Feed one command to the play-through.
    pub fn step(&mut self, state: &mut GameState, command: InputCommand) -> (step: SessionStep)
        ensures
            match old(self).phase() {
                SessionPhase::Floor => {
                    let (buffer, number) = number_step(old(self).floor_buffer(), command);
                    &&& *final(state) == *old(state)
                    &&& match number {
                        NumberStep::Done(ReadOutcome::Value(floor)) => {
                            &&& final(self).phase() == SessionPhase::Panic(floor)
                            &&& final(self).pending() is None
                            &&& step == SessionStep::Floor(number)
                        },
                        NumberStep::Done(ReadOutcome::Cancel) => {
                            &&& final(self).phase() == SessionPhase::Over
                            &&& step == SessionStep::Ended(SessionOutcome::Replay)
                        },
                        NumberStep::Done(ReadOutcome::Quit) => {
                            &&& final(self).phase() == SessionPhase::Over
                            &&& step == SessionStep::Ended(SessionOutcome::Quit)
                        },
                        _ => {
                            &&& final(self).phase() == SessionPhase::Floor
                            &&& final(self).floor_buffer() == buffer
                            &&& step == SessionStep::Floor(number)
                        },
                    }
                },
                SessionPhase::Over => {
                    &&& *final(state) == *old(state)
                    &&& final(self).phase() == SessionPhase::Over
                    &&& step == SessionStep::Pending
                },
                phase => {
                    let (pending, outcome) = choice_step(old(self).pending(), command);
                    match outcome {
                        None => {
                            &&& *final(state) == *old(state)
                            &&& final(self).phase() == phase
                            &&& final(self).pending() == pending
                            &&& step == SessionStep::Pending
                        },
                        Some(Choice::Cancelled) => {
                            &&& *final(state) == *old(state)
                            &&& final(self).phase() == SessionPhase::Over
                            &&& step == SessionStep::Ended(SessionOutcome::Replay)
                        },
                        Some(Choice::Quit) => {
                            &&& *final(state) == *old(state)
                            &&& final(self).phase() == SessionPhase::Over
                            &&& step == SessionStep::Ended(SessionOutcome::Quit)
                        },
                        Some(Choice::Selected(answer)) => {
                            &&& final(state).seed == old(state).seed
                            &&& final(self).pending() is None
                            &&& match phase {
                                SessionPhase::Panic(floor) => {
                                    &&& final(state).profile == elevator_decision_profile(
                                        old(state).profile,
                                        floor,
                                        answer,
                                    )
                                    &&& final(state).completed_ids() == old(
                                        state,
                                    ).completed_ids().insert("elevator"@)
                                    &&& final(self).phase() == SessionPhase::Radio
                                    &&& step matches SessionStep::Decided(feedback) && feedback@
                                        == elevator_decision_feedback(answer)
                                },
                                SessionPhase::Radio => {
                                    &&& final(state).profile == radio_decision_profile(
                                        old(state).profile,
                                        answer,
                                    )
                                    &&& final(state).completed_ids() == old(
                                        state,
                                    ).completed_ids().insert("radio"@)
                                    &&& final(self).phase() == SessionPhase::Mirror
                                    &&& step matches SessionStep::Decided(feedback) && feedback@
                                        == radio_decision_feedback(answer)
                                },
                                _ => {
                                    &&& final(state).profile == mirror_decision_profile(
                                        old(state).profile,
                                        answer,
                                    )
                                    &&& final(state).completed_ids() == old(
                                        state,
                                    ).completed_ids().insert("mirror"@)
                                    &&& final(self).phase() == SessionPhase::Over
                                    &&& step matches SessionStep::Concluded(feedback, verdict)
                                        && feedback@ == mirror_decision_feedback(answer)
                                        && verdict@ == (if final(state).completed_ids().len()
                                        >= VERDICT_SEGMENT_THRESHOLD {
                                        verdict_text(final(state).profile)
                                    } else {
                                        locked_verdict_text()
                                    })
                                },
                            }
                        },
                    }
                },
            },
    {
        match self.phase {
            SessionPhase::Over => SessionStep::Pending,
            SessionPhase::Floor => {
                let number = self.number.step(command);
                match number {
                    NumberStep::Done(ReadOutcome::Value(floor)) => {
                        self.phase = SessionPhase::Panic(floor);
                        self.choice = ChoicePrompt::new();
                        SessionStep::Floor(number)
                    },
                    NumberStep::Done(ReadOutcome::Cancel) => {
                        self.phase = SessionPhase::Over;
                        SessionStep::Ended(SessionOutcome::Replay)
                    },
                    NumberStep::Done(ReadOutcome::Quit) => {
                        self.phase = SessionPhase::Over;
                        SessionStep::Ended(SessionOutcome::Quit)
                    },
                    _ => SessionStep::Floor(number),
                }
            },
            phase => {
                match self.choice.step(command) {
                    None => SessionStep::Pending,
                    Some(Choice::Cancelled) => {
                        self.phase = SessionPhase::Over;
                        SessionStep::Ended(SessionOutcome::Replay)
                    },
                    Some(Choice::Quit) => {
                        self.phase = SessionPhase::Over;
                        SessionStep::Ended(SessionOutcome::Quit)
                    },
                    Some(Choice::Selected(answer)) => {
                        self.choice = ChoicePrompt::new();
                        match phase {
                            SessionPhase::Panic(floor) => {
                                let feedback = state.apply_elevator_decision(floor, answer);
                                state.complete_segment("elevator");
                                self.phase = SessionPhase::Radio;
                                SessionStep::Decided(feedback)
                            },
                            SessionPhase::Radio => {
                                let feedback = state.apply_radio_decision(answer);
                                state.complete_segment("radio");
                                self.phase = SessionPhase::Mirror;
                                SessionStep::Decided(feedback)
                            },
                            _ => {
                                let feedback = state.apply_mirror_decision(answer);
                                state.complete_segment("mirror");
                                self.phase = SessionPhase::Over;
                                let verdict = session_verdict(state);
                                SessionStep::Concluded(feedback, verdict)
                            },
                        }
                    },
                }
            },
        }
    }
}

/// The profile the non-interactive demo ends with: floor 90 without panic,
/// the radio turned off, the mirror looked into.
pub open spec fn demo_profile(initial: PlayerAspects) -> PlayerAspects {
    mirror_decision_profile(
        radio_decision_profile(elevator_decision_profile(initial, 90, false), false),
        true,
    )
}

/// What the non-interactive demo prints.
pub open spec fn demo_text(initial: PlayerAspects) -> Seq<char> {
    elevator_decision_feedback(false) + "\n"@ + "\n"@ + radio_decision_feedback(false) + "\n"@
        + "\n"@ + mirror_decision_feedback(true) + "\n\n"@ + verdict_text(demo_profile(initial))
        + "\n"@
}

/// The play-through shown when the output is not a terminal: floor 90
/// without panic, the radio turned off, the mirror looked into, and the
/// verdict, each line as the demo prints it.
pub fn demo_transcript() -> (transcript: String)
    ensures
        exists|initial: PlayerAspects| initial.is_initial() && transcript@ == demo_text(initial),
{
    let mut state = GameState::default();
    let ghost initial = state.profile;
    let mut out = String::new();
    let feedback = state.apply_elevator_decision(90, false);
    state.complete_segment("elevator");
    out.append(feedback.as_str());
    out.append("\n");
    let feedback = state.apply_radio_decision(false);
    state.complete_segment("radio");
    out.append("\n");
    out.append(feedback.as_str());
    out.append("\n");
    let feedback = state.apply_mirror_decision(true);
    state.complete_segment("mirror");
    let verdict = generate(&state.profile);
    out.append("\n");
    out.append(feedback.as_str());
    out.append("\n\n");
    out.append(verdict.as_str());
    out.append("\n");
    proof {
        assert(out@ =~= demo_text(initial));
    }
    out
}

} // verus!
