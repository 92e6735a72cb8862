//! The segments: mini-games that read commands from an input source and
//! nudge the shared game state.
use crate::input::{
    choice_run, number_run, prompt_choice, read_number, Choice, InputCommand, InputError,
    InputSource, ReadOutcome,
};
use crate::segments::elevator::{elevator_effect, ElevatorSegment};
use crate::segments::mirror::{mirror_effect, MirrorSegment};
use crate::segments::radio::{radio_effect, RadioSegment};
use crate::state::{GameState, PlayerAspects};
use vstd::prelude::*;

pub mod elevator;
pub mod mirror;
pub mod radio;

verus! {

/// Result of running a segment.
#[derive(Debug, Clone, Copy, PartialEq, Eq, Structural)]
pub enum SegmentOutcome {
    /// The segment completed and recorded its progress.
    Completed,
    /// The player cancelled (Esc) and returned to the menu; progress is kept.
    Cancelled,
    /// The player quit the game from inside the segment.
    Quit,
}

/// What running a segment on a profile and a list of commands does, when the
/// segment was not completed before: its result, the profile it leaves (the
/// keywords apart), the keywords it leaves, whether it records completion,
/// and how many commands it reads.
pub struct SegmentEffect {
    pub result: Result<SegmentOutcome, InputError>,
    pub profile: PlayerAspects,
    pub keywords: Seq<Seq<char>>,
    pub completes: bool,
    pub consumed: nat,
}

/// A run that reads `consumed` commands and leaves the state as it was.
pub open spec fn unchanged_effect(
    result: Result<SegmentOutcome, InputError>,
    p: PlayerAspects,
    consumed: nat,
) -> SegmentEffect {
    SegmentEffect { result, profile: p, keywords: p.keyword_views(), completes: false, consumed }
}

/// The segment `id` ran from `before` to `after` as `effect` says, reading
/// from `commands` and leaving `left`. A segment that was already completed
/// reads nothing, changes nothing and reports `Completed`, so replaying it
/// does not award its profile changes again.
pub open spec fn segment_ran(
    id: Seq<char>,
    effect: SegmentEffect,
    before: GameState,
    after: GameState,
    commands: Seq<InputCommand>,
    left: Seq<InputCommand>,
    result: Result<SegmentOutcome, InputError>,
) -> bool {
    if before.completed_ids().contains(id) {
        &&& result == Ok::<SegmentOutcome, InputError>(SegmentOutcome::Completed)
        &&& after == before
        &&& left == commands
    } else {
        &&& result == effect.result
        &&& left == commands.skip(effect.consumed as int)
        &&& after.profile.same_but_keywords(&effect.profile)
        &&& after.profile.keyword_views() == effect.keywords
        &&& after.seed == before.seed
        &&& if effect.completes {
            after.completed_ids() == before.completed_ids().insert(id)
        } else {
            after.completed == before.completed
        }
    }
}

/// A mini-game that mutates the shared `GameState` through abstract input.
///
/// Segments never read terminal events directly; they receive an
/// `InputSource`, so the same logic can be driven by a scripted source.
/// A segment records completion only on success.
pub trait Segment {
    /// Stable, unique segment identifier (used for progress tracking).
    fn id(&self) -> &'static str;

    /// Human-readable title shown in menus and on screen.
    fn title(&self) -> &'static str;

    /// Run the segment, mutating `state`. Returns `Cancelled` when the player
    /// backs out so the caller can preserve progress and return to the menu.
    fn run(&mut self, state: &mut GameState, input: &mut InputSource) -> Result<
        SegmentOutcome,
        InputError,
    >;
}

/// A yes/no prompt's outcome as a read outcome.
pub open spec fn yes_no_outcome(choice: Choice) -> ReadOutcome<bool> {
    match choice {
        Choice::Selected(answer) => ReadOutcome::Value(answer),
        Choice::Cancelled => ReadOutcome::Cancel,
        Choice::Quit => ReadOutcome::Quit,
    }
}

/// Convenience helper for segments: read a yes/no decision with Enter confirm.
///
/// Returns a distinct cancel or quit outcome so callers can preserve atomic
/// segment behavior and terminate the session when requested.
pub fn read_yes_no(input: &mut InputSource) -> (r: Result<ReadOutcome<bool>, InputError>)
    ensures
        ({
            let (outcome, count) = choice_run(old(input).remaining(), None);
            &&& final(input).remaining() == old(input).remaining().skip(count as int)
            &&& match outcome {
                Some(choice) => r == Ok::<ReadOutcome<bool>, InputError>(yes_no_outcome(choice)),
                None => r == Err::<ReadOutcome<bool>, InputError>(InputError::Exhausted),
            }
        }),
{
    match prompt_choice(input) {
        Ok(Choice::Selected(value)) => Ok(ReadOutcome::Value(value)),
        Ok(Choice::Cancelled) => Ok(ReadOutcome::Cancel),
        Ok(Choice::Quit) => Ok(ReadOutcome::Quit),
        Err(e) => Err(e),
    }
}

/// Convenience helper for segments: read a numeric choice (e.g. floor).
///
/// Returns a distinct cancel or quit outcome.
pub fn read_numeric(input: &mut InputSource, prompt: &str) -> (r: Result<
    ReadOutcome<u32>,
    InputError,
>)
    ensures
        ({
            let (outcome, count) = number_run(old(input).remaining(), Seq::empty());
            &&& final(input).remaining() == old(input).remaining().skip(count as int)
            &&& match outcome {
                Some(o) => r == Ok::<ReadOutcome<u32>, InputError>(o),
                None => r == Err::<ReadOutcome<u32>, InputError>(InputError::Exhausted),
            }
        }),
{
    match read_number(input, prompt) {
        Ok(ReadOutcome::Value(value)) => Ok(ReadOutcome::Value(value)),
        Ok(ReadOutcome::Cancel) => Ok(ReadOutcome::Cancel),
        Ok(ReadOutcome::Quit) => Ok(ReadOutcome::Quit),
        Err(e) => Err(e),
    }
}

/// The menu position a key moves to: Up goes to the last of `count` entries
/// (wrapping below zero), Down to the second, Enter to the first.
pub open spec fn menu_index(key: InputCommand, count: usize) -> Option<usize> {
    match key {
        InputCommand::Up => Some(
            if count == 0 {
                usize::MAX
            } else {
                (count - 1) as usize
            },
        ),
        InputCommand::Down => Some(1),
        InputCommand::Confirm => Some(0),
        _ => None,
    }
}

/// Map a keyboard command to a menu navigation intent.
///
/// Used by the segment menu so individual segments stay input-agnostic.
pub fn menu_key_to_index(key: InputCommand, count: usize) -> (index: Option<usize>)
    ensures
        index == menu_index(key, count),
{
    match key {
        InputCommand::Up => Some(
            if count == 0 {
                usize::MAX
            } else {
                count - 1
            },
        ),
        InputCommand::Down => Some(1),
        InputCommand::Confirm => Some(0),
        _ => None,
    }
}

/// One of the built-in segments.
#[derive(Debug, Clone, Copy, PartialEq, Eq, Structural)]
pub enum AnySegment {
    Elevator(ElevatorSegment),
    Radio(RadioSegment),
    Mirror(MirrorSegment),
}

/// The id of a built-in segment.
pub open spec fn segment_id(segment: AnySegment) -> Seq<char> {
    match segment {
        AnySegment::Elevator(_) => "elevator"@,
        AnySegment::Radio(_) => "radio"@,
        AnySegment::Mirror(_) => "mirror"@,
    }
}

/// The title of a built-in segment.
pub open spec fn segment_title(segment: AnySegment) -> Seq<char> {
    match segment {
        AnySegment::Elevator(_) => "Elevator in the Skyscraper"@,
        AnySegment::Radio(_) => "Radio Receiver"@,
        AnySegment::Mirror(_) => "Mirror Corridor"@,
    }
}

/// What a built-in segment does with a profile and commands.
pub open spec fn segment_effect(
    segment: AnySegment,
    p: PlayerAspects,
    commands: Seq<InputCommand>,
) -> SegmentEffect {
    match segment {
        AnySegment::Elevator(_) => elevator_effect(p, commands),
        AnySegment::Radio(_) => radio_effect(p, commands),
        AnySegment::Mirror(_) => mirror_effect(p, commands),
    }
}

impl Segment for AnySegment {
    fn id(&self) -> (id: &'static str)
        ensures
            id@ == segment_id(*self),
    {
        match self {
            AnySegment::Elevator(segment) => segment.id(),
            AnySegment::Radio(segment) => segment.id(),
            AnySegment::Mirror(segment) => segment.id(),
        }
    }

    fn title(&self) -> (title: &'static str)
        ensures
            title@ == segment_title(*self),
    {
        match self {
            AnySegment::Elevator(segment) => segment.title(),
            AnySegment::Radio(segment) => segment.title(),
            AnySegment::Mirror(segment) => segment.title(),
        }
    }

    fn run(&mut self, state: &mut GameState, input: &mut InputSource) -> (r: Result<
        SegmentOutcome,
        InputError,
    >)
        ensures
            segment_ran(
                segment_id(*old(self)),
                segment_effect(*old(self), old(state).profile, old(input).remaining()),
                *old(state),
                *final(state),
                old(input).remaining(),
                final(input).remaining(),
                r,
            ),
    {
        match self {
            AnySegment::Elevator(segment) => segment.run(state, input),
            AnySegment::Radio(segment) => segment.run(state, input),
            AnySegment::Mirror(segment) => segment.run(state, input),
        }
    }
}

/// A built-in segment records completion exactly when it reports
/// `Completed`.
pub proof fn lemma_completes_only_on_success(
    segment: AnySegment,
    p: PlayerAspects,
    commands: Seq<InputCommand>,
)
    ensures
        segment_effect(segment, p, commands).completes <==> segment_effect(
            segment,
            p,
            commands,
        ).result == Ok::<SegmentOutcome, InputError>(SegmentOutcome::Completed),
{
}

/// Backing out of a built-in segment (Esc or `q`) leaves the profile, the
/// keywords and the progress as they were.
pub proof fn lemma_backing_out_changes_nothing(
    segment: AnySegment,
    p: PlayerAspects,
    commands: Seq<InputCommand>,
)
    ensures
        ({
            let effect = segment_effect(segment, p, commands);
            (effect.result == Ok::<SegmentOutcome, InputError>(SegmentOutcome::Cancelled)
                || effect.result == Ok::<SegmentOutcome, InputError>(SegmentOutcome::Quit)) ==> {
                &&& effect.profile == p
                &&& effect.keywords == p.keyword_views()
                &&& !effect.completes
            }
        }),
{
}

/// Two runs of a built-in segment from the same state on the same commands
/// agree: the same result, the same commands left, and the same profile,
/// keywords, completed segments and seed.
pub proof fn lemma_runs_are_reproducible(
    segment: AnySegment,
    before: GameState,
    commands: Seq<InputCommand>,
    first: GameState,
    first_left: Seq<InputCommand>,
    first_result: Result<SegmentOutcome, InputError>,
    second: GameState,
    second_left: Seq<InputCommand>,
    second_result: Result<SegmentOutcome, InputError>,
)
    requires
        segment_ran(
            segment_id(segment),
            segment_effect(segment, before.profile, commands),
            before,
            first,
            commands,
            first_left,
            first_result,
        ),
        segment_ran(
            segment_id(segment),
            segment_effect(segment, before.profile, commands),
            before,
            second,
            commands,
            second_left,
            second_result,
        ),
    ensures
        first_result == second_result,
        first_left == second_left,
        first.profile.same_but_keywords(&second.profile),
        first.profile.keyword_views() == second.profile.keyword_views(),
        first.completed_ids() == second.completed_ids(),
        first.seed == second.seed,
{
}

/// The built-in segments in menu display order.
pub open spec fn segment_order() -> Seq<AnySegment> {
    seq![
        AnySegment::Elevator(ElevatorSegment),
        AnySegment::Radio(RadioSegment),
        AnySegment::Mirror(MirrorSegment),
    ]
}

/// Build the segment registry in menu display order.
pub fn all_segments() -> (segments: Vec<AnySegment>)
    ensures
        segments@ == segment_order(),
{
    let mut segments: Vec<AnySegment> = Vec::new();
    segments.push(AnySegment::Elevator(ElevatorSegment));
    segments.push(AnySegment::Radio(RadioSegment));
    segments.push(AnySegment::Mirror(MirrorSegment));
    proof {
        assert(segments@ =~= segment_order());
    }
    segments
}

/// Segment id/title pairs for menu rendering.
pub fn segment_entries() -> (entries: Vec<(&'static str, &'static str)>)
    ensures
        entries@.len() == segment_order().len(),
        forall|i: int|
            0 <= i < entries@.len() ==> (#[trigger] entries@[i]).0@ == segment_id(segment_order()[i])
                && entries@[i].1@ == segment_title(segment_order()[i]),
{
    let segments = all_segments();
    let n = segments.len();
    let mut entries: Vec<(&'static str, &'static str)> = Vec::new();
    let mut i: usize = 0;
    while i < n
        invariant
            segments@ == segment_order(),
            n == segments.len(),
            i <= n,
            entries@.len() == i,
            forall|j: int|
                0 <= j < i ==> (#[trigger] entries@[j]).0@ == segment_id(segment_order()[j])
                    && entries@[j].1@ == segment_title(segment_order()[j]),
        decreases n - i,
    {
        let segment = &segments[i];
        entries.push((segment.id(), segment.title()));
        i = i + 1;
    }
    entries
}

} // verus!
