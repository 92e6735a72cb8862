//! Game commands, the parsing of typed answers, and the two interactive
//! prompts (a yes/no choice and a typed number) as state machines that are
//! fed one command at a time.
use crate::text::{
    ascii_lowercase, chars_of, eq_ignore_ascii_case, eq_ignore_ascii_case_spec, trim_chars, trimmed,
};
use vstd::prelude::*;

verus! {

/// A game command. Game logic depends on `InputCommand`, never on raw
/// terminal events, so the same logic can be driven by a scripted source.
#[derive(Debug, Clone, Copy, PartialEq, Eq, Structural)]
pub enum InputCommand {
    Up,
    Down,
    Left,
    Right,
    Confirm,
    Cancel,
    Backspace,
    Quit,
    Character(char),
    Unknown,
}

/// The key of a keyboard event, as far as the game tells keys apart.
#[derive(Debug, Clone, Copy, PartialEq, Eq, Structural)]
pub enum KeyCode {
    Up,
    Down,
    Left,
    Right,
    Enter,
    Esc,
    Backspace,
    Char(char),
    Other,
}

/// Whether a keyboard event is a press, a repeat or a release.
#[derive(Debug, Clone, Copy, PartialEq, Eq, Structural)]
pub enum KeyEventKind {
    Press,
    Repeat,
    Release,
}

/// A keyboard event: its key and its kind.
#[derive(Debug, Clone, Copy, PartialEq, Eq, Structural)]
pub struct KeyEvent {
    pub code: KeyCode,
    pub kind: KeyEventKind,
}

/// The command a keyboard event stands for: a release is ignored, `q` and
/// `Q` quit, Enter confirms, Esc cancels.
pub open spec fn command_for_key(event: KeyEvent) -> InputCommand {
    if event.kind == KeyEventKind::Release {
        InputCommand::Unknown
    } else {
        match event.code {
            KeyCode::Up => InputCommand::Up,
            KeyCode::Down => InputCommand::Down,
            KeyCode::Left => InputCommand::Left,
            KeyCode::Right => InputCommand::Right,
            KeyCode::Enter => InputCommand::Confirm,
            KeyCode::Esc => InputCommand::Cancel,
            KeyCode::Backspace => InputCommand::Backspace,
            KeyCode::Char(c) => if c == 'q' || c == 'Q' {
                InputCommand::Quit
            } else {
                InputCommand::Character(c)
            },
            KeyCode::Other => InputCommand::Unknown,
        }
    }
}

impl From<KeyEvent> for InputCommand {
    fn from(event: KeyEvent) -> (command: Self) {
        // Ignore key-release events so a held key does not double-fire.
        if event.kind == KeyEventKind::Release {
            return InputCommand::Unknown;
        }
        match event.code {
            KeyCode::Up => InputCommand::Up,
            KeyCode::Down => InputCommand::Down,
            KeyCode::Left => InputCommand::Left,
            KeyCode::Right => InputCommand::Right,
            KeyCode::Enter => InputCommand::Confirm,
            KeyCode::Esc => InputCommand::Cancel,
            KeyCode::Backspace => InputCommand::Backspace,
            KeyCode::Char(c) => if c == 'q' || c == 'Q' {
                InputCommand::Quit
            } else {
                InputCommand::Character(c)
            },
            KeyCode::Other => InputCommand::Unknown,
        }
    }
}

impl vstd::std_specs::convert::FromSpecImpl<KeyEvent> for InputCommand {
    open spec fn obeys_from_spec() -> bool {
        true
    }

    open spec fn from_spec(event: KeyEvent) -> Self {
        command_for_key(event)
    }
}

impl From<KeyCode> for KeyEvent {
    /// A key press of `code`.
    fn from(code: KeyCode) -> (event: Self) {
        KeyEvent { code, kind: KeyEventKind::Press }
    }
}

impl vstd::std_specs::convert::FromSpecImpl<KeyCode> for KeyEvent {
    open spec fn obeys_from_spec() -> bool {
        true
    }

    open spec fn from_spec(code: KeyCode) -> Self {
        KeyEvent { code, kind: KeyEventKind::Press }
    }
}

/// `c` is one of the ASCII digits `0` to `9`.
pub open spec fn is_ascii_digit(c: char) -> bool {
    48 <= c as u32 <= 57
}

/// The value of a decimal digit character.
pub open spec fn digit_value(c: char) -> nat {
    (c as u32 - 48) as nat
}

/// The value of a sequence of decimal digits.
pub open spec fn digits_value(d: Seq<char>) -> nat
    decreases d.len(),
{
    if d.len() == 0 {
        0
    } else {
        digits_value(d.drop_last()) * 10 + digit_value(d.last())
    }
}

/// The digits of a number text: what follows an optional leading `+`.
pub open spec fn unsigned_digits(t: Seq<char>) -> Seq<char> {
    if t.len() > 0 && t[0] == '+' {
        t.drop_first()
    } else {
        t
    }
}

/// What `u32::from_str` gives for `t`: the value of a non-empty run of
/// ASCII digits (after an optional `+`) that fits in a `u32`, else nothing.
pub open spec fn parse_u32_spec(t: Seq<char>) -> Option<u32> {
    let d = unsigned_digits(t);
    if d.len() > 0 && (forall|i: int| 0 <= i < d.len() ==> is_ascii_digit(#[trigger] d[i]))
        && digits_value(d) <= u32::MAX {
        Some(digits_value(d) as u32)
    } else {
        None
    }
}

/// A floor held to `1..=100`.
pub open spec fn clamp_floor(n: u32) -> u32 {
    if n < 1 {
        1
    } else if n > 100 {
        100
    } else {
        n
    }
}

/// What a typed floor answer means: `Some(None)` for `q` (in either case),
/// `Some(Some(floor))` for a number, held to `1..=100`, and `None` for
/// anything else. Surrounding whitespace is ignored.
pub open spec fn floor_input_result(s: Seq<char>) -> Option<Option<u32>> {
    let t = trimmed(s);
    if eq_ignore_ascii_case_spec(t, seq!['q']) {
        Some(None)
    } else {
        match parse_u32_spec(t) {
            Some(n) => Some(Some(clamp_floor(n))),
            None => None,
        }
    }
}

/// The error message for a floor answer that is neither a number nor `q`.
pub open spec fn floor_error_message() -> Seq<char> {
    "floor must be a number from 1 to 100"@
}

/// `min(value, 2^32)`: a digit value that is exact below `2^32`.
spec fn capped(n: nat) -> nat {
    if n > 0x1_0000_0000 {
        0x1_0000_0000
    } else {
        n
    }
}

/// The value of the digits in `t`, if it is a number that fits in a `u32`.
fn parse_u32_chars(t: &Vec<char>) -> (r: Option<u32>)
    ensures
        r == parse_u32_spec(t@),
{
    let n = t.len();
    let mut start: usize = 0;
    if n > 0 && t[0] == '+' {
        start = 1;
    }
    proof {
        assert(unsigned_digits(t@) =~= t@.subrange(start as int, n as int));
    }
    if start == n {
        return None;
    }
    let ghost d = t@.subrange(start as int, n as int);
    let mut value: u64 = 0;
    let mut i = start;
    while i < n
        invariant
            n == t.len(),
            start <= i <= n,
            d == t@.subrange(start as int, n as int),
            d == unsigned_digits(t@),
            forall|j: int| start <= j < i ==> is_ascii_digit(#[trigger] t@[j]),
            value == capped(digits_value(t@.subrange(start as int, i as int))),
        decreases n - i,
    {
        let c = t[i];
        let code = c as u32;
        if code < 48 || code > 57 {
            proof {
                assert(d[i - start] == c);
                assert(!is_ascii_digit(d[i - start]));
            }
            return None;
        }
        let digit = (code - 48) as u64;
        proof {
            let prefix = t@.subrange(start as int, i + 1);
            assert(prefix.drop_last() =~= t@.subrange(start as int, i as int));
            assert(prefix.last() == c);
        }
        let next = value * 10 + digit;
        if next > 0x1_0000_0000 {
            value = 0x1_0000_0000;
        } else {
            value = next;
        }
        i = i + 1;
    }
    proof {
        assert(t@.subrange(start as int, n as int) == d);
        assert forall|k: int| 0 <= k < d.len() implies is_ascii_digit(#[trigger] d[k]) by {
            assert(d[k] == t@[start + k]);
        }
    }
    if value > 0xFFFF_FFFF {
        None
    } else {
        Some(value as u32)
    }
}

/// The meaning of a typed floor answer, given as characters.
fn floor_answer(s: &Vec<char>) -> (r: Option<Option<u32>>)
    ensures
        r == floor_input_result(s@),
{
    let t = trim_chars(s);
    let mut q: Vec<char> = Vec::new();
    q.push('q');
    if eq_ignore_ascii_case(&t, &q) {
        proof {
            assert(q@ =~= seq!['q']);
        }
        return Some(None);
    }
    proof {
        assert(q@ =~= seq!['q']);
    }
    match parse_u32_chars(&t) {
        Some(n) => {
            let floor = if n < 1 {
                1
            } else if n > 100 {
                100
            } else {
                n
            };
            Some(Some(floor))
        },
        None => None,
    }
}

/// Parse a typed floor: `q` (in either case) gives `Ok(None)`, a number
/// gives the floor held to `1..=100`, anything else is an error.
pub fn parse_floor_input(input: &str) -> (r: Result<Option<u32>, &'static str>)
    ensures
        match floor_input_result(input@) {
            Some(answer) => r == Ok::<Option<u32>, &'static str>(answer),
            None => r matches Err(message) && message@ == floor_error_message(),
        },
{
    let chars = chars_of(input);
    match floor_answer(&chars) {
        Some(answer) => Ok(answer),
        None => Err("floor must be a number from 1 to 100"),
    }
}

/// What a typed yes/no answer means: `y`/`yes` is yes, an empty answer or
/// `n`/`no` is no, `q` quits (`Some(None)`), anything else is `None`. Case
/// and surrounding whitespace are ignored.
pub open spec fn yes_no_input_result(s: Seq<char>) -> Option<Option<bool>> {
    let l = ascii_lowercase(trimmed(s));
    if l == seq!['y'] || l == seq!['y', 'e', 's'] {
        Some(Some(true))
    } else if l.len() == 0 || l == seq!['n'] || l == seq!['n', 'o'] {
        Some(Some(false))
    } else if l == seq!['q'] {
        Some(None)
    } else {
        None
    }
}

/// The error message for a yes/no answer that is not understood.
pub open spec fn yes_no_error_message() -> Seq<char> {
    "answer must be y, n, or q"@
}

/// Whether the characters of `t`, folded to lower case, are `word`.
fn lower_is(t: &Vec<char>, word: &str) -> (r: bool)
    requires
        ascii_lowercase(word@) == word@,
    ensures
        r == (ascii_lowercase(t@) == word@),
{
    let w = chars_of(word);
    eq_ignore_ascii_case(t, &w)
}

/// Parse a typed yes/no answer.
pub fn parse_yes_no_input(input: &str) -> (r: Result<Option<bool>, &'static str>)
    ensures
        match yes_no_input_result(input@) {
            Some(answer) => r == Ok::<Option<bool>, &'static str>(answer),
            None => r matches Err(message) && message@ == yes_no_error_message(),
        },
{
    proof {
        reveal_strlit("y");
        reveal_strlit("yes");
        reveal_strlit("n");
        reveal_strlit("no");
        reveal_strlit("q");
        assert(ascii_lowercase("y"@) =~= "y"@);
        assert(ascii_lowercase("yes"@) =~= "yes"@);
        assert(ascii_lowercase("n"@) =~= "n"@);
        assert(ascii_lowercase("no"@) =~= "no"@);
        assert(ascii_lowercase("q"@) =~= "q"@);
        assert("y"@ =~= seq!['y']);
        assert("yes"@ =~= seq!['y', 'e', 's']);
        assert("n"@ =~= seq!['n']);
        assert("no"@ =~= seq!['n', 'o']);
        assert("q"@ =~= seq!['q']);
    }
    let chars = chars_of(input);
    let t = trim_chars(&chars);
    if lower_is(&t, "y") || lower_is(&t, "yes") {
        Ok(Some(true))
    } else if t.len() == 0 || lower_is(&t, "n") || lower_is(&t, "no") {
        Ok(Some(false))
    } else if lower_is(&t, "q") {
        Ok(None)
    } else {
        Err("answer must be y, n, or q")
    }
}

/// Outcome of an interactive prompt.
///
/// `Value` carries the parsed result; `Cancel` means the player pressed Esc and
/// wants to return to the menu without losing progress; `Quit` means the player
/// asked to leave the game entirely.
#[derive(Debug, Clone, Copy, PartialEq, Eq)]
pub enum ReadOutcome<T> {
    Value(T),
    Cancel,
    Quit,
}

/// Outcome of a confirm/cancel prompt.
#[derive(Debug, Clone, Copy, PartialEq, Eq, Structural)]
pub enum Choice {
    Selected(bool),
    Cancelled,
    Quit,
}

/// One step of the yes/no prompt: the new pending answer and, when the
/// command ends the prompt, its outcome. `y`/`Y` and `n`/`N` set the pending
/// answer, Enter confirms it (no when none was chosen), Esc cancels and `q`
/// quits; anything else is ignored.
pub open spec fn choice_step(pending: Option<bool>, command: InputCommand) -> (Option<bool>, Option<Choice>) {
    match command {
        InputCommand::Character(c) => if c == 'y' || c == 'Y' {
            (Some(true), None)
        } else if c == 'n' || c == 'N' {
            (Some(false), None)
        } else {
            (pending, None)
        },
        InputCommand::Confirm => (
            pending,
            Some(
                Choice::Selected(
                    match pending {
                        Some(answer) => answer,
                        None => false,
                    },
                ),
            ),
        ),
        InputCommand::Cancel => (pending, Some(Choice::Cancelled)),
        InputCommand::Quit => (pending, Some(Choice::Quit)),
        _ => (pending, None),
    }
}

/// The yes/no prompt fed with `commands`: its outcome (none if the commands
/// run out first) and how many commands it reads.
pub open spec fn choice_run(commands: Seq<InputCommand>, pending: Option<bool>) -> (Option<Choice>, nat)
    decreases commands.len(),
{
    if commands.len() == 0 {
        (None, 0)
    } else {
        let (next, outcome) = choice_step(pending, commands[0]);
        match outcome {
            Some(choice) => (Some(choice), 1),
            None => {
                let (rest, count) = choice_run(commands.drop_first(), next);
                (rest, count + 1)
            },
        }
    }
}

/// Enter, Esc and `q` end a prompt; every other command leaves it open.
pub open spec fn ends_prompt(command: InputCommand) -> bool {
    ||| command == InputCommand::Confirm
    ||| command == InputCommand::Cancel
    ||| command == InputCommand::Quit
}

/// The yes/no prompt resolves exactly at the first Enter, Esc or `q`: the
/// selections before it are never taken as an answer on their own, and when
/// no such command comes the prompt does not resolve.
pub proof fn lemma_choice_resolves_at_first_end(commands: Seq<InputCommand>, pending: Option<bool>)
    ensures
        ({
            let (outcome, count) = choice_run(commands, pending);
            &&& outcome is Some ==> {
                &&& 1 <= count <= commands.len()
                &&& ends_prompt(commands[count - 1])
                &&& forall|j: int| 0 <= j < count - 1 ==> !ends_prompt(#[trigger] commands[j])
            }
            &&& outcome is None ==> forall|j: int|
                0 <= j < commands.len() ==> !ends_prompt(#[trigger] commands[j])
        }),
    decreases commands.len(),
{
    if commands.len() > 0 {
        let (next, outcome) = choice_step(pending, commands[0]);
        if outcome is None {
            let rest = commands.drop_first();
            lemma_choice_resolves_at_first_end(rest, next);
            let (r, count) = choice_run(rest, next);
            assert forall|j: int| 0 < j < commands.len() implies commands[j] == rest[j - 1] by {}
            if r is Some {
                assert(commands[count as int] == rest[count - 1]);
            }
        }
    }
}

/// A yes/no answer confirmed with Enter is the last `y`/`n` selected before
/// it, and no when none was.
pub open spec fn last_selection(commands: Seq<InputCommand>, pending: Option<bool>) -> Option<bool>
    decreases commands.len(),
{
    if commands.len() == 0 {
        pending
    } else {
        last_selection(commands.drop_first(), choice_step(pending, commands[0]).0)
    }
}

/// The answer of a confirmed yes/no prompt is the last selection before the
/// Enter that confirmed it (no when there was none).
pub proof fn lemma_confirmed_answer_is_last_selection(
    commands: Seq<InputCommand>,
    pending: Option<bool>,
)
    ensures
        ({
            let (outcome, count) = choice_run(commands, pending);
            outcome matches Some(Choice::Selected(answer)) ==> answer == match last_selection(
                commands.take(count - 1),
                pending,
            ) {
                Some(b) => b,
                None => false,
            }
        }),
    decreases commands.len(),
{
    if commands.len() > 0 {
        let (next, outcome) = choice_step(pending, commands[0]);
        if outcome is None {
            let rest = commands.drop_first();
            lemma_confirmed_answer_is_last_selection(rest, next);
            lemma_choice_run_reads_within(rest, next);
            let (r, count) = choice_run(rest, next);
            if r is Some {
                assert(commands.take(count as int).drop_first() =~= rest.take(count - 1));
            }
        } else {
            assert(commands.take(0) =~= Seq::<InputCommand>::empty());
        }
    }
}

/// The yes/no prompt reads at most the commands it is given.
pub proof fn lemma_choice_run_reads_within(commands: Seq<InputCommand>, pending: Option<bool>)
    ensures
        choice_run(commands, pending).1 <= commands.len(),
    decreases commands.len(),
{
    if commands.len() > 0 {
        let (next, _) = choice_step(pending, commands[0]);
        lemma_choice_run_reads_within(commands.drop_first(), next);
    }
}

/// The keys of the yes/no prompt, one by one: `y`/`Y` select yes and `n`/`N`
/// select no (a new selection replaces the pending one), Enter confirms the
/// pending answer (no when none was chosen), Esc cancels, `q` quits, and any
/// other command leaves the prompt as it was.
pub proof fn lemma_choice_keys(pending: Option<bool>, command: InputCommand)
    ensures
        command == InputCommand::Character('y') || command == InputCommand::Character('Y')
            ==> choice_step(pending, command) == (Some(true), None::<Choice>),
        command == InputCommand::Character('n') || command == InputCommand::Character('N')
            ==> choice_step(pending, command) == (Some(false), None::<Choice>),
        command == InputCommand::Confirm ==> choice_step(pending, command).1 == Some(
            Choice::Selected(pending == Some(true)),
        ),
        command == InputCommand::Cancel ==> choice_step(pending, command).1 == Some(
            Choice::Cancelled,
        ),
        command == InputCommand::Quit ==> choice_step(pending, command).1 == Some(Choice::Quit),
        !ends_prompt(command) ==> choice_step(pending, command).1 is None,
        !ends_prompt(command) && command != InputCommand::Character('y') && command
            != InputCommand::Character('Y') && command != InputCommand::Character('n') && command
            != InputCommand::Character('N') ==> choice_step(pending, command).0 == pending,
{
}

/// A yes/no prompt answered by pressing `y`/`Y` or `n`/`N` and then Enter,
/// after any commands that do not end it, resolves to yes or no by that last
/// key and reads exactly up to the Enter.
pub proof fn lemma_answer_follows_last_key(
    before: Seq<InputCommand>,
    key: char,
    pending: Option<bool>,
)
    requires
        forall|j: int| 0 <= j < before.len() ==> !ends_prompt(#[trigger] before[j]),
        key == 'y' || key == 'Y' || key == 'n' || key == 'N',
    ensures
        choice_run(before + seq![InputCommand::Character(key), InputCommand::Confirm], pending)
            == (Some(Choice::Selected(key == 'y' || key == 'Y')), before.len() + 2),
    decreases before.len(),
{
    let tail = seq![InputCommand::Character(key), InputCommand::Confirm];
    let all = before + tail;
    if before.len() == 0 {
        assert(all =~= tail);
        assert(all.drop_first() =~= seq![InputCommand::Confirm]);
        let b = key == 'y' || key == 'Y';
        assert(choice_step(pending, all[0]) == (Some(b), None::<Choice>));
        assert(choice_run(all.drop_first(), Some(b)) == (Some(Choice::Selected(b)), 1nat));
    } else {
        assert(all[0] == before[0]);
        assert(!ends_prompt(before[0]));
        assert(choice_step(pending, before[0]).1 is None);
        assert(all.drop_first() =~= before.drop_first() + tail);
        lemma_answer_follows_last_key(
            before.drop_first(),
            key,
            choice_step(pending, before[0]).0,
        );
    }
}

/// The yes/no prompt: a two-step selection where `y`/`n` set the pending
/// answer and Enter confirms it.
#[derive(Debug, Clone, Copy, PartialEq, Eq, Structural)]
pub struct ChoicePrompt {
    pub pending: Option<bool>,
}

impl ChoicePrompt {
    /// A prompt with no answer selected yet.
    pub fn new() -> (prompt: Self)
        ensures
            prompt.pending is None,
    {
        ChoicePrompt { pending: None }
    }

    /// Feed one command; returns the outcome once the prompt ends.
    pub fn step(&mut self, command: InputCommand) -> (outcome: Option<Choice>)
        ensures
            (final(self).pending, outcome) == choice_step(old(self).pending, command),
    {
        match command {
            InputCommand::Character(c) => {
                if c == 'y' || c == 'Y' {
                    self.pending = Some(true);
                } else if c == 'n' || c == 'N' {
                    self.pending = Some(false);
                }
                None
            },
            InputCommand::Confirm => {
                let answer = match self.pending {
                    Some(answer) => answer,
                    None => false,
                };
                Some(Choice::Selected(answer))
            },
            InputCommand::Cancel => Some(Choice::Cancelled),
            InputCommand::Quit => Some(Choice::Quit),
            _ => None,
        }
    }
}

/// What the number prompt does after a command.
#[derive(Debug, Clone, Copy, PartialEq, Eq)]
pub enum NumberStep {
    /// Nothing to show; keep reading.
    Pending,
    /// A digit was typed; show it.
    Echo(char),
    /// The last digit was erased; erase it on screen.
    Erase,
    /// The typed text was not a floor; the buffer was cleared, ask again.
    Retry,
    /// The prompt ended.
    Done(ReadOutcome<u32>),
}

/// One step of the number prompt: the new buffer and what to do. Digits are
/// appended, Backspace erases the last digit, Enter confirms the buffered
/// number (an invalid or empty one clears the buffer and asks again), Esc
/// cancels and `q` quits.
pub open spec fn number_step(buffer: Seq<char>, command: InputCommand) -> (Seq<char>, NumberStep) {
    match command {
        InputCommand::Character(c) => if is_ascii_digit(c) {
            (buffer.push(c), NumberStep::Echo(c))
        } else {
            (buffer, NumberStep::Pending)
        },
        InputCommand::Backspace => if buffer.len() > 0 {
            (buffer.drop_last(), NumberStep::Erase)
        } else {
            (buffer, NumberStep::Pending)
        },
        InputCommand::Confirm => match floor_input_result(buffer) {
            Some(Some(floor)) => (buffer, NumberStep::Done(ReadOutcome::Value(floor))),
            Some(None) => (buffer, NumberStep::Done(ReadOutcome::Quit)),
            None => (Seq::empty(), NumberStep::Retry),
        },
        InputCommand::Cancel => (buffer, NumberStep::Done(ReadOutcome::Cancel)),
        InputCommand::Quit => (buffer, NumberStep::Done(ReadOutcome::Quit)),
        _ => (buffer, NumberStep::Pending),
    }
}

/// The number prompt fed with `commands`: its outcome (none if the commands
/// run out first) and how many commands it reads.
pub open spec fn number_run(commands: Seq<InputCommand>, buffer: Seq<char>) -> (Option<ReadOutcome<u32>>, nat)
    decreases commands.len(),
{
    if commands.len() == 0 {
        (None, 0)
    } else {
        let (next, step) = number_step(buffer, commands[0]);
        match step {
            NumberStep::Done(outcome) => (Some(outcome), 1),
            _ => {
                let (rest, count) = number_run(commands.drop_first(), next);
                (rest, count + 1)
            },
        }
    }
}

/// A floor read from typed text always lies in `1..=100`.
pub proof fn lemma_floor_answer_in_range(s: Seq<char>)
    ensures
        floor_input_result(s) matches Some(Some(floor)) ==> 1 <= floor <= 100,
{
}

/// Every character of `buffer` is an ASCII digit.
pub open spec fn all_digits(buffer: Seq<char>) -> bool {
    forall|i: int| 0 <= i < buffer.len() ==> is_ascii_digit(#[trigger] buffer[i])
}

/// The number prompt only ever buffers digits.
pub proof fn lemma_number_buffer_holds_digits(buffer: Seq<char>, command: InputCommand)
    requires
        all_digits(buffer),
    ensures
        all_digits(number_step(buffer, command).0),
{
    let next = number_step(buffer, command).0;
    if let InputCommand::Character(c) = command {
        if is_ascii_digit(c) {
            assert forall|i: int| 0 <= i < next.len() implies is_ascii_digit(#[trigger] next[i]) by {
                if i < buffer.len() {
                    assert(next[i] == buffer[i]);
                }
            }
        }
    }
    if let InputCommand::Backspace = command {
        if buffer.len() > 0 {
            assert forall|i: int| 0 <= i < next.len() implies is_ascii_digit(#[trigger] next[i]) by {
                assert(next[i] == buffer[i]);
            }
        }
    }
}

/// The number prompt reads at most the commands it is given.
pub proof fn lemma_number_run_reads_within(commands: Seq<InputCommand>, buffer: Seq<char>)
    ensures
        number_run(commands, buffer).1 <= commands.len(),
    decreases commands.len(),
{
    if commands.len() > 0 {
        let (next, _) = number_step(buffer, commands[0]);
        lemma_number_run_reads_within(commands.drop_first(), next);
    }
}

/// The number prompt: digits are buffered until Enter.
#[derive(Debug, Clone)]
pub struct NumberPrompt {
    buffer: Vec<char>,
}

impl NumberPrompt {
    /// The digits typed so far.
    pub closed spec fn buffer(&self) -> Seq<char> {
        self.buffer@
    }

    /// A prompt with nothing typed yet.
    pub fn new() -> (prompt: Self)
        ensures
            prompt.buffer() == Seq::<char>::empty(),
    {
        NumberPrompt { buffer: Vec::new() }
    }

    /// Feed one command; says what to show and whether the prompt ended.
    pub fn step(&mut self, command: InputCommand) -> (step: NumberStep)
        ensures
            (final(self).buffer(), step) == number_step(old(self).buffer(), command),
    {
        match command {
            InputCommand::Character(c) => {
                let code = c as u32;
                if 48 <= code && code <= 57 {
                    self.buffer.push(c);
                    NumberStep::Echo(c)
                } else {
                    NumberStep::Pending
                }
            },
            InputCommand::Backspace => {
                if self.buffer.len() > 0 {
                    self.buffer.pop();
                    proof {
                        assert(self.buffer@ =~= old(self).buffer@.drop_last());
                    }
                    NumberStep::Erase
                } else {
                    NumberStep::Pending
                }
            },
            InputCommand::Confirm => match floor_answer(&self.buffer) {
                Some(Some(floor)) => NumberStep::Done(ReadOutcome::Value(floor)),
                Some(None) => NumberStep::Done(ReadOutcome::Quit),
                None => {
                    self.buffer = Vec::new();
                    proof {
                        assert(self.buffer@ =~= Seq::<char>::empty());
                    }
                    NumberStep::Retry
                },
            },
            InputCommand::Cancel => NumberStep::Done(ReadOutcome::Cancel),
            InputCommand::Quit => NumberStep::Done(ReadOutcome::Quit),
            _ => NumberStep::Pending,
        }
    }
}

/// A source that ran out of commands.
#[derive(Debug, Clone, Copy, PartialEq, Eq, Structural)]
pub enum InputError {
    Exhausted,
}

/// A scripted source of game commands, decoupled from the terminal: it
/// yields its commands in order and then reports that it is exhausted.
#[derive(Debug)]
pub struct InputSource {
    commands: Vec<InputCommand>,
    next: usize,
}

impl InputSource {
    #[verifier::type_invariant]
    spec fn next_in_bounds(&self) -> bool {
        self.next <= self.commands.len()
    }

    /// The commands still to come.
    pub closed spec fn remaining(&self) -> Seq<InputCommand> {
        self.commands@.skip(self.next as int)
    }

    /// A source that yields `commands` in order.
    pub fn new(commands: &[InputCommand]) -> (source: Self)
        ensures
            source.remaining() == commands@,
    {
        let mut copied: Vec<InputCommand> = Vec::new();
        let n = commands.len();
        let mut i: usize = 0;
        while i < n
            invariant
                n == commands@.len(),
                i <= n,
                copied@ =~= commands@.subrange(0, i as int),
            decreases n - i,
        {
            copied.push(commands[i]);
            i = i + 1;
        }
        proof {
            assert(copied@.skip(0) =~= commands@);
        }
        InputSource { commands: copied, next: 0 }
    }

    /// The next command, or `Exhausted` once all were read.
    pub fn read_command(&mut self) -> (r: Result<InputCommand, InputError>)
        ensures
            old(self).remaining().len() == 0 ==> r == Err::<InputCommand, InputError>(
                InputError::Exhausted,
            ) && final(self).remaining() == old(self).remaining(),
            old(self).remaining().len() > 0 ==> r == Ok::<InputCommand, InputError>(
                old(self).remaining()[0],
            ) && final(self).remaining() == old(self).remaining().drop_first(),
    {
        proof {
            use_type_invariant(&*self);
        }
        if self.next >= self.commands.len() {
            return Err(InputError::Exhausted);
        }
        let command = self.commands[self.next];
        self.next = self.next + 1;
        proof {
            assert(self.remaining() =~= old(self).remaining().drop_first());
        }
        Ok(command)
    }
}

/// Run the yes/no prompt on `source`: `y`/`n` select, Enter confirms the
/// selection (no when none was made), Esc cancels, `q` quits.
pub fn prompt_choice(source: &mut InputSource) -> (r: Result<Choice, InputError>)
    ensures
        ({
            let (outcome, count) = choice_run(old(source).remaining(), None);
            &&& final(source).remaining() == old(source).remaining().skip(count as int)
            &&& match outcome {
                Some(choice) => r == Ok::<Choice, InputError>(choice),
                None => r == Err::<Choice, InputError>(InputError::Exhausted),
            }
        }),
{
    let ghost start = source.remaining();
    let ghost mut consumed: nat = 0;
    let mut prompt = ChoicePrompt::new();
    proof {
        assert(start.skip(0) =~= start);
    }
    loop
        invariant
            start == old(source).remaining(),
            source.remaining() == start.skip(consumed as int),
            consumed <= start.len(),
            choice_run(start, None).0 == choice_run(source.remaining(), prompt.pending).0,
            choice_run(start, None).1 == choice_run(source.remaining(), prompt.pending).1
                + consumed,
        decreases source.remaining().len(),
    {
        let ghost rem = source.remaining();
        let ghost pending = prompt.pending;
        match source.read_command() {
            Err(e) => {
                proof {
                    assert(rem.len() == 0);
                    assert(choice_run(rem, pending) == (None::<Choice>, 0nat));
                }
                return Err(e);
            },
            Ok(command) => {
                proof {
                    assert(start.skip(consumed + 1 as int) =~= rem.drop_first());
                    consumed = consumed + 1;
                }
                match prompt.step(command) {
                    Some(choice) => {
                        proof {
                            assert(choice_run(rem, pending) == (Some(choice), 1nat));
                        }
                        return Ok(choice);
                    },
                    None => {
                        proof {
                            assert(choice_run(rem, pending) == (
                                choice_run(rem.drop_first(), prompt.pending).0,
                                choice_run(rem.drop_first(), prompt.pending).1 + 1,
                            ));
                        }
                    },
                }
            },
        }
    }
}

/// Run the number prompt on `source`. Accepts ASCII digits, Enter confirms
/// the buffered number (held to `1..=100`), Backspace erases the last digit,
/// Esc cancels and `q` quits. Empty or invalid input clears the buffer and
/// the prompt goes on. `prompt` is the text a terminal shows; a scripted
/// source has no screen to show it on.
pub fn read_number(source: &mut InputSource, prompt: &str) -> (r: Result<
    ReadOutcome<u32>,
    InputError,
>)
    ensures
        ({
            let (outcome, count) = number_run(old(source).remaining(), Seq::empty());
            &&& final(source).remaining() == old(source).remaining().skip(count as int)
            &&& match outcome {
                Some(o) => r == Ok::<ReadOutcome<u32>, InputError>(o),
                None => r == Err::<ReadOutcome<u32>, InputError>(InputError::Exhausted),
            }
        }),
{
    let ghost start = source.remaining();
    let ghost mut consumed: nat = 0;
    let mut number = NumberPrompt::new();
    proof {
        assert(start.skip(0) =~= start);
    }
    loop
        invariant
            start == old(source).remaining(),
            source.remaining() == start.skip(consumed as int),
            consumed <= start.len(),
            number_run(start, Seq::empty()).0 == number_run(
                source.remaining(),
                number.buffer(),
            ).0,
            number_run(start, Seq::empty()).1 == number_run(
                source.remaining(),
                number.buffer(),
            ).1 + consumed,
        decreases source.remaining().len(),
    {
        let ghost rem = source.remaining();
        let ghost buffer = number.buffer();
        match source.read_command() {
            Err(e) => {
                proof {
                    assert(rem.len() == 0);
                    assert(number_run(rem, buffer) == (None::<ReadOutcome<u32>>, 0nat));
                }
                return Err(e);
            },
            Ok(command) => {
                proof {
                    assert(start.skip(consumed + 1 as int) =~= rem.drop_first());
                    consumed = consumed + 1;
                }
                match number.step(command) {
                    NumberStep::Done(outcome) => {
                        proof {
                            assert(number_run(rem, buffer) == (Some(outcome), 1nat));
                        }
                        return Ok(outcome);
                    },
                    _ => {
                        proof {
                            assert(number_run(rem, buffer) == (
                                number_run(rem.drop_first(), number.buffer()).0,
                                number_run(rem.drop_first(), number.buffer()).1 + 1,
                            ));
                        }
                    },
                }
            },
        }
    }
}

} // verus!
