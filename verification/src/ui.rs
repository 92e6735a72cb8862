//! Text shown around the gameplay: the onboarding screen, the segment menu
//! and the line-ending fix for raw-mode terminals.
use crate::text::{decimal, push_decimal, replace_all, replaced};
use vstd::prelude::*;
use vstd::string::*;

verus! {

/// The onboarding copy: controls, Esc behaviour, progress and the verdict
/// threshold.
pub const ONBOARDING: &'static str = "\
ONBOARDING \u{2014} AURA 2026 BROADCAST
================================
You are a viewer-patient on the show. Each segment is a mini-game that quietly
measures your profile. There is no losing: every choice changes the verdict.

CONTROLS
- Arrow keys / number keys: move and choose in menus.
- Enter: confirm a choice or a typed value.
- y / n then Enter: answer yes / no prompts.
- Esc: return to the menu without losing progress.
- q: quit the game.

PROGRESS
- Your profile and completed segments are kept while you play.
- The Oracle verdict unlocks after you complete three segments.
- Replaying a segment does not re-award its profile changes.

Press Enter to enter the broadcast.\r\n";

/// The onboarding copy, returned as a string.
pub fn onboarding_text() -> (text: String)
    ensures
        text@ == ONBOARDING@,
{
    ONBOARDING.to_owned()
}

/// The first line of the segment menu.
pub open spec fn menu_header() -> Seq<char> {
    "SEGMENT MENU\r\nChoose a segment (press the number or arrow + Enter):\r\n"@
}

/// The last line of the segment menu.
pub open spec fn menu_footer() -> Seq<char> {
    "Press Enter to start the highlighted segment. Esc returns to the menu.\r\n"@
}

/// The cursor column of row `index`: empty when no cursor is shown, else
/// "> " on the selected row and two spaces on the others.
pub open spec fn cursor_mark(index: int, selected: usize, show_cursor: bool) -> Seq<char> {
    if !show_cursor {
        Seq::empty()
    } else if index == selected {
        "> "@
    } else {
        "  "@
    }
}

/// The row of segment `index`: its number (counting from 1), title and id,
/// and " [done]" when the id is among the completed ones.
pub open spec fn menu_row(
    index: int,
    id: Seq<char>,
    title: Seq<char>,
    done: bool,
    selected: usize,
    show_cursor: bool,
) -> Seq<char> {
    cursor_mark(index, selected, show_cursor) + decimal((index + 1) as nat) + ". "@ + title
        + " ("@ + id + ")"@ + (if done {
        " [done]"@
    } else {
        Seq::empty()
    }) + "\r\n"@
}

/// The rows of the first `n` segments.
pub open spec fn menu_rows(
    segments: Seq<(&str, &str)>,
    completed: Seq<Seq<char>>,
    selected: usize,
    show_cursor: bool,
    n: nat,
) -> Seq<char>
    decreases n,
{
    if n == 0 {
        Seq::empty()
    } else {
        let i = n - 1;
        menu_rows(segments, completed, selected, show_cursor, (n - 1) as nat) + menu_row(
            i,
            segments[i].0@,
            segments[i].1@,
            completed.contains(segments[i].0@),
            selected,
            show_cursor,
        )
    }
}

/// The whole segment menu.
pub open spec fn menu_text(
    segments: Seq<(&str, &str)>,
    completed: Seq<Seq<char>>,
    selected: usize,
    show_cursor: bool,
) -> Seq<char> {
    menu_header() + menu_rows(segments, completed, selected, show_cursor, segments.len())
        + menu_footer()
}

/// Whether `id` is among `completed`.
fn holds_id(completed: &[String], id: &str) -> (found: bool)
    ensures
        found == completed@.map_values(|s: String| s@).contains(id@),
{
    let n = completed.len();
    let mut i: usize = 0;
    let target = id.to_owned();
    while i < n
        invariant
            n == completed@.len(),
            i <= n,
            target@ == id@,
            forall|j: int| 0 <= j < i ==> completed@[j]@ != id@,
        decreases n - i,
    {
        if completed[i] == target {
            proof {
                assert(completed@.map_values(|s: String| s@)[i as int] == id@);
            }
            return true;
        }
        i = i + 1;
    }
    proof {
        let views = completed@.map_values(|s: String| s@);
        if views.contains(id@) {
            let k = views.index_of(id@);
            assert(completed@[k]@ == id@);
        }
    }
    false
}

/// Format the segment menu for display.
///
/// `completed` holds the ids of segments already finished; they are marked.
/// When `show_cursor` is set, the row at `selected` carries the "> " cursor.
pub fn format_menu(
    segments: &[(&str, &str)],
    completed: &[String],
    selected: usize,
    show_cursor: bool,
) -> (menu: String)
    ensures
        menu@ == menu_text(
            segments@,
            completed@.map_values(|s: String| s@),
            selected,
            show_cursor,
        ),
{
    let ghost done = completed@.map_values(|s: String| s@);
    let mut out = String::new();
    out.append("SEGMENT MENU\r\nChoose a segment (press the number or arrow + Enter):\r\n");
    let n = segments.len();
    let mut index: usize = 0;
    while index < n
        invariant
            n == segments@.len(),
            index <= n,
            done == completed@.map_values(|s: String| s@),
            out@ == menu_header() + menu_rows(segments@, done, selected, show_cursor, index as nat),
        decreases n - index,
    {
        let (id, title) = segments[index];
        let ghost before = out@;
        if show_cursor {
            if index == selected {
                out.append("> ");
            } else {
                out.append("  ");
            }
        }
        push_decimal(&mut out, (index as u64) + 1);
        out.append(". ");
        out.append(title);
        out.append(" (");
        out.append(id);
        out.append(")");
        if holds_id(completed, id) {
            out.append(" [done]");
        }
        out.append("\r\n");
        proof {
            assert(out@ =~= before + menu_row(
                index as int,
                id@,
                title@,
                done.contains(id@),
                selected,
                show_cursor,
            ));
            assert(out@ =~= menu_header() + menu_rows(
                segments@,
                done,
                selected,
                show_cursor,
                (index + 1) as nat,
            ));
        }
        index = index + 1;
    }
    out.append("Press Enter to start the highlighted segment. Esc returns to the menu.\r\n");
    out
}

/// A text with every line ending written as CR LF: carriage returns are
/// dropped, then each line feed becomes CR LF.
pub open spec fn terminal_text(text: Seq<char>) -> Seq<char> {
    replaced(replaced(text, seq!['\r'], Seq::empty()), seq!['\n'], seq!['\r', '\n'])
}

/// Rewrite line endings for a terminal in raw mode, where a line feed alone
/// does not return the cursor to the first column.
pub fn normalize_terminal_text(text: &str) -> (normalized: String)
    ensures
        normalized@ == terminal_text(text@),
{
    proof {
        reveal_strlit("\r");
        reveal_strlit("");
        reveal_strlit("\n");
        reveal_strlit("\r\n");
        assert("\r"@ =~= seq!['\r']);
        assert(""@ =~= Seq::<char>::empty());
        assert("\n"@ =~= seq!['\n']);
        assert("\r\n"@ =~= seq!['\r', '\n']);
    }
    let without_cr = replace_all(text, "\r", "");
    replace_all(without_cr.as_str(), "\n", "\r\n")
}

/// `t` holds no carriage return.
pub open spec fn has_no_cr(t: Seq<char>) -> bool {
    forall|i: int| 0 <= i < t.len() ==> #[trigger] t[i] != '\r'
}

/// Every carriage return in `t` is followed by a line feed and every line
/// feed is preceded by a carriage return.
pub open spec fn crlf_only(t: Seq<char>) -> bool {
    &&& forall|i: int| 0 <= i < t.len() && #[trigger] t[i] == '\n' ==> i > 0 && t[i - 1] == '\r'
    &&& forall|i: int|
        0 <= i < t.len() && #[trigger] t[i] == '\r' ==> i + 1 < t.len() && t[i + 1] == '\n'
}

proof fn lemma_without_cr(s: Seq<char>)
    ensures
        has_no_cr(replaced(s, seq!['\r'], Seq::empty())),
    decreases s.len(),
{
    if s.len() > 0 {
        lemma_without_cr(s.skip(1));
        let rest = replaced(s.skip(1), seq!['\r'], Seq::empty());
        if s.subrange(0, 1) == seq!['\r'] {
            assert(Seq::<char>::empty() + rest =~= rest);
        } else {
            assert(s[0] != '\r') by {
                if s[0] == '\r' {
                    assert(s.subrange(0, 1) =~= seq!['\r']);
                }
            }
            let r = seq![s[0]] + rest;
            assert forall|i: int| 0 <= i < r.len() implies #[trigger] r[i] != '\r' by {
                if i > 0 {
                    assert(r[i] == rest[i - 1]);
                }
            }
        }
    }
}

proof fn lemma_crlf_concat(a: Seq<char>, b: Seq<char>)
    requires
        crlf_only(a),
        crlf_only(b),
    ensures
        crlf_only(a + b),
{
    let t = a + b;
    assert forall|i: int| 0 <= i < t.len() && #[trigger] t[i] == '\n' implies i > 0 && t[i - 1]
        == '\r' by {
        if i < a.len() {
            assert(a[i] == '\n');
        } else {
            assert(b[i - a.len()] == '\n');
        }
    }
    assert forall|i: int| 0 <= i < t.len() && #[trigger] t[i] == '\r' implies i + 1 < t.len()
        && t[i + 1] == '\n' by {
        if i < a.len() {
            assert(a[i] == '\r');
        } else {
            assert(b[i - a.len()] == '\r');
        }
    }
}

proof fn lemma_lf_to_crlf(u: Seq<char>)
    requires
        has_no_cr(u),
    ensures
        crlf_only(replaced(u, seq!['\n'], seq!['\r', '\n'])),
    decreases u.len(),
{
    if u.len() > 0 {
        assert(has_no_cr(u.skip(1))) by {
            assert forall|i: int| 0 <= i < u.skip(1).len() implies #[trigger] u.skip(1)[i]
                != '\r' by {
                assert(u.skip(1)[i] == u[i + 1]);
            }
        }
        lemma_lf_to_crlf(u.skip(1));
        let rest = replaced(u.skip(1), seq!['\n'], seq!['\r', '\n']);
        if u.subrange(0, 1) == seq!['\n'] {
            let head = seq!['\r', '\n'];
            assert(crlf_only(head));
            lemma_crlf_concat(head, rest);
        } else {
            assert(u[0] != '\n') by {
                if u[0] == '\n' {
                    assert(u.subrange(0, 1) =~= seq!['\n']);
                }
            }
            assert(u[0] != '\r');
            let head = seq![u[0]];
            assert(crlf_only(head));
            lemma_crlf_concat(head, rest);
        }
    }
}

/// Text rewritten for the terminal has CR LF line endings only: every line
/// feed comes right after a carriage return, and every carriage return right
/// before a line feed.
pub proof fn lemma_terminal_text_uses_crlf(text: Seq<char>)
    ensures
        crlf_only(terminal_text(text)),
{
    lemma_without_cr(text);
    lemma_lf_to_crlf(replaced(text, seq!['\r'], Seq::empty()));
}

} // verus!
