//! The radio segment.
use crate::input::{choice_run, Choice, InputCommand, InputError, InputSource, ReadOutcome};
use crate::segments::{
    read_yes_no, segment_ran, unchanged_effect, Segment, SegmentEffect, SegmentOutcome,
};
use crate::state::{radio_decision_profile, with_keyword, GameState, PlayerAspects};
use vstd::prelude::*;

verus! {

/// Basic radio segment: decide whether to listen, and if so, catch a
/// keyword for the player profile.
///
/// The full frequency-tuning mini-game (0..=100, capture 3 words) is deferred;
/// here a single caught keyword is recorded when the player listens.
#[derive(Debug, Clone, Copy, PartialEq, Eq, Structural)]
pub struct RadioSegment;

impl Default for RadioSegment {
    fn default() -> (segment: Self) {
        RadioSegment
    }
}

/// What the radio does with a profile and commands: a confirmed answer
/// applies the radio decision, records completion and, when the player
/// listens, catches the keyword "broadcast"; Esc cancels and `q` quits.
pub open spec fn radio_effect(p: PlayerAspects, commands: Seq<InputCommand>) -> SegmentEffect {
    let (choice, count) = choice_run(commands, None);
    match choice {
        None => unchanged_effect(Err(InputError::Exhausted), p, count),
        Some(Choice::Selected(listen)) => SegmentEffect {
            result: Ok(SegmentOutcome::Completed),
            profile: radio_decision_profile(p, listen),
            keywords: if listen {
                with_keyword(p.keyword_views(), "broadcast"@)
            } else {
                p.keyword_views()
            },
            completes: true,
            consumed: count,
        },
        Some(Choice::Cancelled) => unchanged_effect(Ok(SegmentOutcome::Cancelled), p, count),
        Some(Choice::Quit) => unchanged_effect(Ok(SegmentOutcome::Quit), p, count),
    }
}

/// The radio acts on the answer the player confirmed: a confirmed answer
/// completes the segment with the radio decision for that answer, and the
/// keyword "broadcast" is caught exactly when the answer is to listen; Esc
/// cancels, `q` quits, and both leave the profile as it was.
pub proof fn lemma_radio_acts_on_confirmed_answer(p: PlayerAspects, commands: Seq<InputCommand>)
    ensures
        ({
            let effect = radio_effect(p, commands);
            let (read, count) = choice_run(commands, None);
            &&& effect.consumed == count
            &&& match read {
                Some(Choice::Selected(listen)) => {
                    &&& effect.result == Ok::<SegmentOutcome, InputError>(SegmentOutcome::Completed)
                    &&& effect.completes
                    &&& effect.profile == radio_decision_profile(p, listen)
                    &&& effect.keywords == if listen {
                        with_keyword(p.keyword_views(), "broadcast"@)
                    } else {
                        p.keyword_views()
                    }
                },
                Some(Choice::Cancelled) => {
                    &&& effect.result == Ok::<SegmentOutcome, InputError>(SegmentOutcome::Cancelled)
                    &&& effect.profile == p
                    &&& !effect.completes
                },
                Some(Choice::Quit) => {
                    &&& effect.result == Ok::<SegmentOutcome, InputError>(SegmentOutcome::Quit)
                    &&& effect.profile == p
                    &&& !effect.completes
                },
                None => {
                    &&& effect.result == Err::<SegmentOutcome, InputError>(InputError::Exhausted)
                    &&& effect.profile == p
                    &&& !effect.completes
                },
            }
        }),
{
}

impl Segment for RadioSegment {
    fn id(&self) -> (id: &'static str)
        ensures
            id@ == "radio"@,
    {
        "radio"
    }

    fn title(&self) -> (title: &'static str)
        ensures
            title@ == "Radio Receiver"@,
    {
        "Radio Receiver"
    }

    fn run(&mut self, state: &mut GameState, input: &mut InputSource) -> (r: Result<
        SegmentOutcome,
        InputError,
    >)
        ensures
            segment_ran(
                "radio"@,
                radio_effect(old(state).profile, old(input).remaining()),
                *old(state),
                *final(state),
                old(input).remaining(),
                final(input).remaining(),
                r,
            ),
    {
        if state.is_segment_completed("radio") {
            return Ok(SegmentOutcome::Completed);
        }
        let listen = match read_yes_no(input) {
            Ok(ReadOutcome::Value(listen)) => listen,
            Ok(ReadOutcome::Cancel) => {
                return Ok(SegmentOutcome::Cancelled);
            },
            Ok(ReadOutcome::Quit) => {
                return Ok(SegmentOutcome::Quit);
            },
            Err(e) => {
                return Err(e);
            },
        };
        let _feedback = state.apply_radio_decision(listen);
        state.complete_segment("radio");
        if listen {
            state.profile.add_keyword("broadcast");
        }
        Ok(SegmentOutcome::Completed)
    }
}

} // verus!
