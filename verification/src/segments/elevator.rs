//! The elevator segment.
use crate::input::{
    choice_run, lemma_choice_run_reads_within, lemma_number_run_reads_within, number_run, Choice,
    InputCommand, InputError, InputSource, ReadOutcome,
};
use crate::segments::{
    read_numeric, read_yes_no, segment_ran, unchanged_effect, Segment, SegmentEffect,
    SegmentOutcome,
};
use crate::state::{
    elevator_decision_profile, elevator_event_profile, floor_category, ElevatorEventCategory,
    GameState, PlayerAspects,
};
use vstd::prelude::*;

verus! {

/// Onboarding segment: choose a floor, decide whether to panic, and engage
/// with the floor's event. Demonstrates the decision -> feedback -> profile
/// loop.
#[derive(Debug, Clone, Copy, PartialEq, Eq, Structural)]
pub struct ElevatorSegment;

impl Default for ElevatorSegment {
    fn default() -> (segment: Self) {
        ElevatorSegment
    }
}

/// What the elevator does with a profile and commands. The player types a
/// floor (Esc or `q` there cancel), answers whether to panic (Esc cancels,
/// `q` quits), which applies the elevator decision, and answers whether to
/// engage with the floor's event; Esc or `q` at that last prompt undo the
/// decision, a confirmed answer applies the event and records completion.
pub open spec fn elevator_effect(p: PlayerAspects, commands: Seq<InputCommand>) -> SegmentEffect {
    let (floor_read, n1) = number_run(commands, Seq::empty());
    match floor_read {
        None => unchanged_effect(Err(InputError::Exhausted), p, n1),
        Some(ReadOutcome::Value(floor)) => {
            let after_floor = commands.skip(n1 as int);
            let (panic_read, n2) = choice_run(after_floor, None);
            match panic_read {
                None => unchanged_effect(Err(InputError::Exhausted), p, n1 + n2),
                Some(Choice::Selected(panic)) => {
                    let decided = elevator_decision_profile(p, floor, panic);
                    let after_panic = after_floor.skip(n2 as int);
                    let (engage_read, n3) = choice_run(after_panic, None);
                    let consumed = n1 + n2 + n3;
                    match engage_read {
                        None => SegmentEffect {
                            result: Err(InputError::Exhausted),
                            profile: decided,
                            keywords: p.keyword_views(),
                            completes: false,
                            consumed,
                        },
                        Some(Choice::Selected(engage)) => SegmentEffect {
                            result: Ok(SegmentOutcome::Completed),
                            profile: elevator_event_profile(decided, floor_category(floor), engage),
                            keywords: p.keyword_views(),
                            completes: true,
                            consumed,
                        },
                        Some(Choice::Cancelled) => unchanged_effect(
                            Ok(SegmentOutcome::Cancelled),
                            p,
                            consumed,
                        ),
                        Some(Choice::Quit) => unchanged_effect(
                            Ok(SegmentOutcome::Quit),
                            p,
                            consumed,
                        ),
                    }
                },
                Some(Choice::Cancelled) => unchanged_effect(
                    Ok(SegmentOutcome::Cancelled),
                    p,
                    n1 + n2,
                ),
                Some(Choice::Quit) => unchanged_effect(Ok(SegmentOutcome::Quit), p, n1 + n2),
            }
        },
        Some(_) => unchanged_effect(Ok(SegmentOutcome::Cancelled), p, n1),
    }
}

/// A completed elevator run acts on what the player entered: the floor read
/// from the typed number, then the confirmed panic answer, then the
/// confirmed answer on the floor's event; its profile is the elevator
/// decision for that floor and panic answer followed by the event of that
/// floor's category. The keywords are never touched.
pub proof fn lemma_elevator_acts_on_entered_answers(p: PlayerAspects, commands: Seq<InputCommand>)
    ensures
        ({
            let effect = elevator_effect(p, commands);
            &&& effect.keywords == p.keyword_views()
            &&& effect.completes <==> effect.result == Ok::<SegmentOutcome, InputError>(
                SegmentOutcome::Completed,
            )
            &&& effect.completes ==> {
                let (floor_read, n1) = number_run(commands, Seq::empty());
                let after_floor = commands.skip(n1 as int);
                let (panic_read, n2) = choice_run(after_floor, None);
                let (engage_read, n3) = choice_run(after_floor.skip(n2 as int), None);
                &&& floor_read matches Some(ReadOutcome::Value(floor))
                &&& panic_read matches Some(Choice::Selected(panic))
                &&& engage_read matches Some(Choice::Selected(engage))
                &&& effect.consumed == n1 + n2 + n3
                &&& effect.profile == elevator_event_profile(
                    elevator_decision_profile(p, floor, panic),
                    floor_category(floor),
                    engage,
                )
            }
        }),
{
}

/// Skipping `a` and then `b` elements skips `a + b`.
proof fn lemma_skip_twice(s: Seq<InputCommand>, a: int, b: int)
    requires
        0 <= a,
        0 <= b,
        a + b <= s.len(),
    ensures
        s.skip(a).skip(b) == s.skip(a + b),
{
    assert(s.skip(a).skip(b) =~= s.skip(a + b));
}

impl Segment for ElevatorSegment {
    fn id(&self) -> (id: &'static str)
        ensures
            id@ == "elevator"@,
    {
        "elevator"
    }

    fn title(&self) -> (title: &'static str)
        ensures
            title@ == "Elevator in the Skyscraper"@,
    {
        "Elevator in the Skyscraper"
    }

    fn run(&mut self, state: &mut GameState, input: &mut InputSource) -> (r: Result<
        SegmentOutcome,
        InputError,
    >)
        ensures
            segment_ran(
                "elevator"@,
                elevator_effect(old(state).profile, old(input).remaining()),
                *old(state),
                *final(state),
                old(input).remaining(),
                final(input).remaining(),
                r,
            ),
    {
        if state.is_segment_completed("elevator") {
            return Ok(SegmentOutcome::Completed);
        }
        let ghost commands = input.remaining();
        let ghost n1 = number_run(commands, Seq::empty()).1;
        let floor = match read_numeric(input, "Elevator is waiting. Type a floor (1-100): ") {
            Ok(ReadOutcome::Value(floor)) => floor,
            Ok(_) => {
                return Ok(SegmentOutcome::Cancelled);
            },
            Err(e) => {
                return Err(e);
            },
        };
        let ghost after_floor = input.remaining();
        let ghost n2 = choice_run(after_floor, None).1;
        proof {
            lemma_number_run_reads_within(commands, Seq::empty());
            lemma_choice_run_reads_within(after_floor, None);
            lemma_skip_twice(commands, n1 as int, n2 as int);
        }
        let panic = match read_yes_no(input) {
            Ok(ReadOutcome::Value(panic)) => panic,
            Ok(ReadOutcome::Cancel) => {
                return Ok(SegmentOutcome::Cancelled);
            },
            Ok(ReadOutcome::Quit) => {
                return Ok(SegmentOutcome::Quit);
            },
            Err(e) => {
                return Err(e);
            },
        };
        let ghost after_panic = input.remaining();
        let ghost n3 = choice_run(after_panic, None).1;
        proof {
            lemma_choice_run_reads_within(after_panic, None);
            lemma_skip_twice(commands, (n1 + n2) as int, n3 as int);
        }
        let social = state.profile.social_engagement;
        let esoteric = state.profile.esoteric_attunement;
        let geopolitical = state.profile.geopolitical_awareness;
        let locus = state.profile.locus_of_control;
        let anxiety = state.profile.baseline_anxiety;
        let _feedback = state.apply_elevator_decision(floor, panic);
        let category = ElevatorEventCategory::from_floor(floor);
        let engage = match read_yes_no(input) {
            Ok(ReadOutcome::Value(engage)) => engage,
            Ok(outcome) => {
                state.profile.social_engagement = social;
                state.profile.esoteric_attunement = esoteric;
                state.profile.geopolitical_awareness = geopolitical;
                state.profile.locus_of_control = locus;
                state.profile.baseline_anxiety = anxiety;
                return match outcome {
                    ReadOutcome::Quit => Ok(SegmentOutcome::Quit),
                    _ => Ok(SegmentOutcome::Cancelled),
                };
            },
            Err(e) => {
                return Err(e);
            },
        };
        let _event_feedback = state.apply_elevator_event(category, engage);
        state.complete_segment("elevator");
        Ok(SegmentOutcome::Completed)
    }
}

} // verus!
