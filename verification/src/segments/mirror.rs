//! The mirror segment.
use crate::input::{choice_run, Choice, InputCommand, InputError, InputSource, ReadOutcome};
use crate::segments::{
    read_yes_no, segment_ran, unchanged_effect, Segment, SegmentEffect, SegmentOutcome,
};
use crate::state::{mirror_decision_profile, GameState, PlayerAspects};
use vstd::prelude::*;

verus! {

/// Basic mirror segment: decide whether to look into the mirror.
///
/// The full grid/reflection mini-game is deferred; here the choice nudges the
/// profile (look -> esoteric/anxiety, avoid -> locus).
#[derive(Debug, Clone, Copy, PartialEq, Eq, Structural)]
pub struct MirrorSegment;

impl Default for MirrorSegment {
    fn default() -> (segment: Self) {
        MirrorSegment
    }
}

/// What the mirror does with a profile and commands: a confirmed answer
/// applies the mirror decision and records completion; Esc cancels and `q`
/// quits.
pub open spec fn mirror_effect(p: PlayerAspects, commands: Seq<InputCommand>) -> SegmentEffect {
    let (choice, count) = choice_run(commands, None);
    match choice {
        None => unchanged_effect(Err(InputError::Exhausted), p, count),
        Some(Choice::Selected(look)) => SegmentEffect {
            result: Ok(SegmentOutcome::Completed),
            profile: mirror_decision_profile(p, look),
            keywords: p.keyword_views(),
            completes: true,
            consumed: count,
        },
        Some(Choice::Cancelled) => unchanged_effect(Ok(SegmentOutcome::Cancelled), p, count),
        Some(Choice::Quit) => unchanged_effect(Ok(SegmentOutcome::Quit), p, count),
    }
}

/// The mirror acts on the answer the player confirmed: a confirmed answer
/// completes the segment with the mirror decision for that answer; Esc
/// cancels, `q` quits, and both leave the profile as it was.
pub proof fn lemma_mirror_acts_on_confirmed_answer(p: PlayerAspects, commands: Seq<InputCommand>)
    ensures
        ({
            let effect = mirror_effect(p, commands);
            let (read, count) = choice_run(commands, None);
            &&& effect.consumed == count
            &&& effect.keywords == p.keyword_views()
            &&& match read {
                Some(Choice::Selected(look)) => {
                    &&& effect.result == Ok::<SegmentOutcome, InputError>(SegmentOutcome::Completed)
                    &&& effect.completes
                    &&& effect.profile == mirror_decision_profile(p, look)
                },
                Some(Choice::Cancelled) => {
                    &&& effect.result == Ok::<SegmentOutcome, InputError>(SegmentOutcome::Cancelled)
                    &&& effect.profile == p
                    &&& !effect.completes
                },
                Some(Choice::Quit) => {
                    &&& effect.result == Ok::<SegmentOutcome, InputError>(SegmentOutcome::Quit)
                    &&& effect.profile == p
                    &&& !effect.completes
                },
                None => {
                    &&& effect.result == Err::<SegmentOutcome, InputError>(InputError::Exhausted)
                    &&& effect.profile == p
                    &&& !effect.completes
                },
            }
        }),
{
}

impl Segment for MirrorSegment {
    fn id(&self) -> (id: &'static str)
        ensures
            id@ == "mirror"@,
    {
        "mirror"
    }

    fn title(&self) -> (title: &'static str)
        ensures
            title@ == "Mirror Corridor"@,
    {
        "Mirror Corridor"
    }

    fn run(&mut self, state: &mut GameState, input: &mut InputSource) -> (r: Result<
        SegmentOutcome,
        InputError,
    >)
        ensures
            segment_ran(
                "mirror"@,
                mirror_effect(old(state).profile, old(input).remaining()),
                *old(state),
                *final(state),
                old(input).remaining(),
                final(input).remaining(),
                r,
            ),
    {
        if state.is_segment_completed("mirror") {
            return Ok(SegmentOutcome::Completed);
        }
        let look = match read_yes_no(input) {
            Ok(ReadOutcome::Value(look)) => look,
            Ok(ReadOutcome::Cancel) => {
                return Ok(SegmentOutcome::Cancelled);
            },
            Ok(ReadOutcome::Quit) => {
                return Ok(SegmentOutcome::Quit);
            },
            Err(e) => {
                return Err(e);
            },
        };
        let _feedback = state.apply_mirror_decision(look);
        state.complete_segment("mirror");
        Ok(SegmentOutcome::Completed)
    }
}

} // verus!
