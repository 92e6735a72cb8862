//! Tests for the `Segment` trait and the segment helpers.

use what_you_shouldnt_care_about_in_2026::input::{
    InputCommand, InputError, InputSource, ReadOutcome,
};
use what_you_shouldnt_care_about_in_2026::segments::{
    menu_key_to_index, read_numeric, read_yes_no, segment_entries, Segment, SegmentOutcome,
};
use what_you_shouldnt_care_about_in_2026::state::GameState;

/// A fake segment that records whether it ran and can be told to cancel.
struct FakeSegment {
    id: &'static str,
    title: &'static str,
    cancel: bool,
    ran: bool,
}

impl FakeSegment {
    fn new(id: &'static str, title: &'static str, cancel: bool) -> Self {
        Self {
            id,
            title,
            cancel,
            ran: false,
        }
    }
}

impl Segment for FakeSegment {
    fn id(&self) -> &'static str {
        self.id
    }

    fn title(&self) -> &'static str {
        self.title
    }

    fn run(
        &mut self,
        state: &mut GameState,
        _input: &mut InputSource,
    ) -> Result<SegmentOutcome, InputError> {
        self.ran = true;
        if self.cancel {
            return Ok(SegmentOutcome::Cancelled);
        }
        state.complete_segment(self.id);
        Ok(SegmentOutcome::Completed)
    }
}

#[test]
fn fake_segment_marks_ran_and_completes() {
    let mut segment = FakeSegment::new("fake", "Fake", false);
    let mut state = GameState::default();
    let mut source = InputSource::new(&[]);

    let outcome = segment.run(&mut state, &mut source).unwrap();

    assert!(segment.ran);
    assert_eq!(outcome, SegmentOutcome::Completed);
    assert_eq!(state.completed_segments(), 1);
}

#[test]
fn cancelling_segment_preserves_progress() {
    let mut segment = FakeSegment::new("fake", "Fake", true);
    let mut state = GameState::default();
    state.complete_segment("other");
    let mut source = InputSource::new(&[]);

    let outcome = segment.run(&mut state, &mut source).unwrap();

    // The segment reports cancel but the previously completed progress remains.
    assert_eq!(outcome, SegmentOutcome::Cancelled);
    assert_eq!(state.completed_segments(), 1);
    assert!(state.completed_segments() >= 1);
}

#[test]
fn segment_ids_and_titles_are_stable() {
    let a = FakeSegment::new("alpha", "Alpha", false);
    let b = FakeSegment::new("beta", "Beta", false);
    assert_eq!(a.id(), "alpha");
    assert_eq!(a.title(), "Alpha");
    assert_eq!(b.id(), "beta");
    assert_ne!(a.id(), b.id());
}

#[test]
fn read_yes_no_requires_confirm_to_resolve() {
    let mut yes = InputSource::new(&[InputCommand::Character('y'), InputCommand::Confirm]);
    assert_eq!(read_yes_no(&mut yes).unwrap(), ReadOutcome::Value(true));

    let mut no = InputSource::new(&[InputCommand::Character('n'), InputCommand::Confirm]);
    assert_eq!(read_yes_no(&mut no).unwrap(), ReadOutcome::Value(false));

    let mut quit = InputSource::new(&[InputCommand::Quit]);
    assert_eq!(read_yes_no(&mut quit).unwrap(), ReadOutcome::Quit);
}

#[test]
fn read_numeric_returns_value_or_cancel() {
    let mut src = InputSource::new(&[InputCommand::Character('5'), InputCommand::Confirm]);
    assert_eq!(
        read_numeric(&mut src, "Floor: ").unwrap(),
        ReadOutcome::Value(5)
    );

    let mut cancel = InputSource::new(&[InputCommand::Cancel]);
    assert_eq!(
        read_numeric(&mut cancel, "Floor: ").unwrap(),
        ReadOutcome::Cancel
    );
}

#[test]
fn yes_no_selection_is_only_applied_on_confirm() {
    // Re-selecting changes the pending answer; Enter alone means no.
    let mut changed = InputSource::new(&[
        InputCommand::Character('y'),
        InputCommand::Character('N'),
        InputCommand::Character('Y'),
        InputCommand::Confirm,
    ]);
    assert_eq!(read_yes_no(&mut changed).unwrap(), ReadOutcome::Value(true));
    let mut plain = InputSource::new(&[InputCommand::Up, InputCommand::Confirm]);
    assert_eq!(read_yes_no(&mut plain).unwrap(), ReadOutcome::Value(false));
    let mut cancel = InputSource::new(&[InputCommand::Character('y'), InputCommand::Cancel]);
    assert_eq!(read_yes_no(&mut cancel).unwrap(), ReadOutcome::Cancel);
    // Without Enter the prompt never resolves.
    let mut unfinished = InputSource::new(&[InputCommand::Character('y')]);
    assert_eq!(read_yes_no(&mut unfinished), Err(InputError::Exhausted));
}

#[test]
fn read_numeric_edits_and_retries() {
    // Backspace erases, an empty confirm asks again, letters are ignored.
    let mut src = InputSource::new(&[
        InputCommand::Confirm,
        InputCommand::Character('7'),
        InputCommand::Character('x'),
        InputCommand::Character('9'),
        InputCommand::Backspace,
        InputCommand::Character('2'),
        InputCommand::Confirm,
        InputCommand::Up,
    ]);
    assert_eq!(read_numeric(&mut src, "Floor: "), Ok(ReadOutcome::Value(72)));
    assert_eq!(src.read_command(), Ok(InputCommand::Up));

    let mut big = InputSource::new(&[
        InputCommand::Character('0'),
        InputCommand::Character('0'),
        InputCommand::Character('5'),
        InputCommand::Character('0'),
        InputCommand::Character('0'),
        InputCommand::Confirm,
    ]);
    assert_eq!(read_numeric(&mut big, "Floor: "), Ok(ReadOutcome::Value(100)));

    let mut quit = InputSource::new(&[InputCommand::Character('3'), InputCommand::Quit]);
    assert_eq!(read_numeric(&mut quit, "Floor: "), Ok(ReadOutcome::Quit));
}

#[test]
fn menu_keys_map_to_indices() {
    assert_eq!(menu_key_to_index(InputCommand::Up, 3), Some(2));
    assert_eq!(menu_key_to_index(InputCommand::Up, 0), Some(usize::MAX));
    assert_eq!(menu_key_to_index(InputCommand::Down, 3), Some(1));
    assert_eq!(menu_key_to_index(InputCommand::Confirm, 3), Some(0));
    assert_eq!(menu_key_to_index(InputCommand::Cancel, 3), None);
}

#[test]
fn segment_entries_in_menu_order() {
    assert_eq!(
        segment_entries(),
        vec![
            ("elevator", "Elevator in the Skyscraper"),
            ("radio", "Radio Receiver"),
            ("mirror", "Mirror Corridor"),
        ]
    );
}
