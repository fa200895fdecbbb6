use vstd::prelude::*;

use crate::cursor::{spec_back_one, Cursor};
use crate::editor_mode::CommandError;
use crate::text::{find_from, lemma_find_from, lemma_rfind_before, rfind_before, vec_find_from,
    vec_rfind_before};

verus! {

/// Buffer after a character is inserted at the cursor: the character lands at
/// offset `c` and the cursor advances past it.
pub open spec fn spec_update_edit(s: Seq<char>, c: int, ch: char) -> (Seq<char>, int) {
    (s.insert(c, ch), c + 1)
}

/// Buffer after a backspace: a no-op at offset 0, otherwise the unit to the
/// left of the cursor disappears and the cursor follows it.
pub open spec fn spec_remove_from_edit(s: Seq<char>, c: int) -> (Seq<char>, int) {
    if c == 0 {
        (s, c)
    } else {
        (s.remove(c - 1), c - 1)
    }
}

/// Cursor after one step right, clamped at the end of the buffer.
pub open spec fn spec_move_right(s: Seq<char>, c: int) -> int {
    if c >= s.len() {
        c
    } else {
        c + 1
    }
}

/// Buffer after the cursor's line is deleted: the line and the newline
/// closing it are removed, so exactly one line separator disappears, and the
/// cursor lands on the line start (just after the previous newline, or 0).
/// On the unterminated last line the newline opening it is consumed instead
/// and the cursor lands at the new buffer end.
pub open spec fn spec_delete_line(s: Seq<char>, c: int) -> (Seq<char>, int) {
    match (rfind_before(s, c, '\n'), find_from(s, c, '\n')) {
        (Some(p), Some(q)) => (s.subrange(0, p + 1) + s.subrange(q + 1, s.len() as int), p + 1),
        (Some(p), None) => (s.subrange(0, p), p),
        (None, Some(q)) => (s.subrange(q + 1, s.len() as int), 0),
        (None, None) => (s.subrange(0, 0), 0),
    }
}

/// Buffer after an empty line is opened below the cursor's line: a newline is
/// inserted at the newline closing the line (or appended when the cursor sits
/// on the last line), and the cursor lands on the new empty line.
pub open spec fn spec_next_line_insert(s: Seq<char>, c: int) -> (Seq<char>, int) {
    if s.len() == 0 {
        (seq!['\n'], 1)
    } else {
        match find_from(s, c, '\n') {
            Some(q) => (s.insert(q, '\n'), q + 1),
            None => (s.push('\n'), s.len() as int + 1),
        }
    }
}

/// Buffer after an empty line is opened above the cursor's line: a newline is
/// inserted at the newline closing the previous line, with the cursor landing
/// just past it; on the first line a newline is prepended and the cursor
/// moves to the buffer start. On an empty buffer a newline is appended and
/// the cursor stays.
pub open spec fn spec_above_line_insert(s: Seq<char>, c: int) -> (Seq<char>, int) {
    if s.len() == 0 {
        (seq!['\n'], c)
    } else {
        match rfind_before(s, c, '\n') {
            Some(p) => (s.insert(p, '\n'), p + 1),
            None => (s.insert(0, '\n'), 0),
        }
    }
}

/// Cursor after one step up: its distance `fc` from the newline closing the
/// previous line is kept on the line above where that line is long enough;
/// a shorter line above clamps the cursor to its last character, or to its
/// own (newline) position when it is empty. On the first line the move is a
/// no-op.
pub open spec fn spec_move_up(s: Seq<char>, c: int) -> int {
    match rfind_before(s, c, '\n') {
        Some(loc) => {
            let fc = c - loc;
            match rfind_before(s, loc, '\n') {
                Some(ln) => {
                    let ll = loc - ln - 1;
                    if fc <= ll {
                        ln + fc
                    } else if ll >= 1 {
                        loc - 1
                    } else {
                        loc
                    }
                },
                None => {
                    if fc <= loc {
                        fc - 1
                    } else if loc >= 1 {
                        loc - 1
                    } else {
                        loc
                    }
                },
            }
        },
        None => c,
    }
}

/// Cursor after one step down: its distance `fc` from the newline closing
/// the previous line (or the buffer start) is kept on the line below where
/// that line is long enough; a shorter newline-terminated line below clamps
/// the cursor to its last character, or to its own (newline) position when
/// it is empty; on the unterminated last line a target past the buffer end
/// clamps to the end. With no newline after the cursor the move is a no-op.
pub open spec fn spec_move_down(s: Seq<char>, c: int) -> int {
    let loc1 = match rfind_before(s, c, '\n') {
        Some(l) => l,
        None => 0,
    };
    let fc = c - loc1;
    match find_from(s, c, '\n') {
        Some(q) => match find_from(s, q + 1, '\n') {
            Some(a) => {
                let ll = a - (q + 1);
                if fc <= ll {
                    q + fc
                } else if ll >= 1 {
                    q + ll
                } else {
                    q + 1
                }
            },
            None => if q + fc < s.len() {
                q + fc
            } else {
                s.len() as int
            },
        },
        None => c,
    }
}

/// The nearer of two candidate delimiter positions, when either exists.
pub open spec fn nearer_delim(a: Option<int>, b: Option<int>) -> Option<int> {
    match (a, b) {
        (Some(x), Some(y)) => if x < y {
            Some(x)
        } else {
            Some(y)
        },
        (Some(x), None) => Some(x),
        (None, Some(y)) => Some(y),
        (None, None) => None,
    }
}

/// Cursor after a word jump: to the nearer of the next space and the next
/// newline — one unit further when the cursor already sits on it — or, with
/// no delimiter left, to one unit short of the buffer end. At the buffer end
/// the jump is a no-op.
pub open spec fn spec_move_word(s: Seq<char>, c: int) -> int {
    if c == s.len() {
        c
    } else {
        match nearer_delim(find_from(s, c, ' '), find_from(s, c, '\n')) {
            Some(i) => if i == c {
                c + 1
            } else {
                i
            },
            None => s.len() - 1,
        }
    }
}

/// How the optional backing file answered when the session was loaded: its
/// content was read, the path named no file, or the file could not be read.
pub enum ReadOutcome {
    Read(Vec<char>),
    Missing,
    Unreadable,
}

/// The editing session: the text as a flat sequence of units, the cursor
/// owned by the buffer, the optionally bound file path, and the lifecycle
/// flag read by the outer loop.
pub struct State {
    pub running: bool,
    pub file: Option<String>,
    pub content: Vec<char>,
    pub cursor: Cursor,
    pub stacked_command: Option<String>,
}

impl State {
    /// The buffer invariant: the cursor stays within `[0, content.len()]`.
    pub open spec fn wf(&self) -> bool {
        self.cursor.location <= self.content@.len()
    }

    /// The state stepped from `pre` by replacing the buffer and cursor with
    /// `t`, leaving the session fields untouched.
    pub open spec fn buffer_stepped(&self, pre: &State, t: (Seq<char>, int)) -> bool {
        &&& self.content@ == t.0
        &&& self.cursor.location as int == t.1
        &&& self.running == pre.running
        &&& self.file == pre.file
        &&& self.stacked_command == pre.stacked_command
    }

    /// Build the starting session from what loading the optional backing
    /// file yielded: a read file keeps its path and content; a missing file
    /// keeps the path over an empty buffer (new-file semantics); an
    /// unreadable one degrades to an untitled empty buffer, as does starting
    /// with no path at all. The read itself is I/O the caller performs first.
    pub fn session_from_load(path: Option<String>, read: ReadOutcome) -> (s: State)
        ensures
            s.wf(),
            s.running,
            s.cursor.location == 0,
            s.stacked_command is None,
            match read {
                ReadOutcome::Read(content) => s.file == path && s.content == content,
                ReadOutcome::Missing => s.file == path && s.content@ == Seq::<char>::empty(),
                ReadOutcome::Unreadable => s.file is None && s.content@ == Seq::<char>::empty(),
            },
    {
        let (file, content) = match read {
            ReadOutcome::Read(content) => (path, content),
            ReadOutcome::Missing => (path, Vec::new()),
            ReadOutcome::Unreadable => (None, Vec::new()),
        };
        State { running: true, file, content, cursor: Cursor::new(), stacked_command: None }
    }

    /// The save target: the bound path, or the not-found error that a save
    /// without one earns. The write itself is I/O left to the caller.
    pub fn write_target(&self) -> (r: Result<&String, CommandError>)
        ensures
            match self.file {
                Some(_) => r matches Ok(p) && self.file == Some(*p),
                None => r matches Err(e) && e matches CommandError::WriteFailed(m) && m@
                    == "No file in buffer"@,
            },
    {
        match &self.file {
            Some(p) => Ok(p),
            None => Err(CommandError::WriteFailed("No file in buffer".to_owned())),
        }
    }

    /// Insert `ch` at the cursor and advance the cursor past it.
    pub fn update_edit(&mut self, ch: char)
        requires
            old(self).wf(),
            old(self).content@.len() < usize::MAX,
        ensures
            final(self).wf(),
            final(self).buffer_stepped(
                old(self),
                spec_update_edit(old(self).content@, old(self).cursor.location as int, ch),
            ),
    {
        self.content.insert(self.cursor.location, ch);
        self.cursor.move_char();
    }

    /// Insert a line break at the cursor and advance the cursor past it.
    pub fn add_newline_edit(&mut self)
        requires
            old(self).wf(),
            old(self).content@.len() < usize::MAX,
        ensures
            final(self).wf(),
            final(self).buffer_stepped(
                old(self),
                spec_update_edit(old(self).content@, old(self).cursor.location as int, '\n'),
            ),
    {
        self.update_edit('\n');
    }

    /// Backspace: remove the unit to the left of the cursor and move the
    /// cursor back onto its place; a no-op at the buffer start.
    pub fn remove_from_edit(&mut self)
        requires
            old(self).wf(),
        ensures
            final(self).wf(),
            final(self).buffer_stepped(
                old(self),
                spec_remove_from_edit(old(self).content@, old(self).cursor.location as int),
            ),
    {
        if self.cursor.location == 0 {
            return;
        }
        self.content.remove(self.cursor.location - 1);
        self.cursor.back_char();
    }

    /// Step the cursor one unit right, clamped at the buffer end.
    pub fn move_cursor_ahead(&mut self)
        requires
            old(self).wf(),
        ensures
            final(self).wf(),
            final(self).buffer_stepped(
                old(self),
                (
                    old(self).content@,
                    spec_move_right(old(self).content@, old(self).cursor.location as int),
                ),
            ),
    {
        if self.cursor.location >= self.content.len() {
            return;
        }
        self.cursor.move_char();
    }

    /// Step the cursor one unit left, saturating at the buffer start.
    pub fn move_cursor_behind(&mut self)
        requires
            old(self).wf(),
        ensures
            final(self).wf(),
            final(self).buffer_stepped(
                old(self),
                (old(self).content@, spec_back_one(old(self).cursor.location as int)),
            ),
    {
        self.cursor.back_char();
    }

    /// Jump the cursor to the buffer end.
    pub fn move_to_end(&mut self)
        ensures
            final(self).wf(),
            final(self).buffer_stepped(
                old(self),
                (old(self).content@, old(self).content@.len() as int),
            ),
    {
        self.cursor.location = self.content.len();
    }

    /// Delete the cursor's line together with the newline closing it, so
    /// exactly one line separator disappears, and land the cursor on the
    /// line start; on the unterminated last line the newline opening it is
    /// consumed instead and the cursor lands at the new buffer end.
    pub fn delete_line(&mut self)
        requires
            old(self).wf(),
        ensures
            final(self).wf(),
            final(self).buffer_stepped(
                old(self),
                spec_delete_line(old(self).content@, old(self).cursor.location as int),
            ),
    {
        let c = self.cursor.location;
        proof {
            lemma_rfind_before(self.content@, c as int, '\n');
            lemma_find_from(self.content@, c as int, '\n');
        }
        let prev = vec_rfind_before(&self.content, c, '\n');
        let next = vec_find_from(&self.content, c, '\n');
        match (prev, next) {
            (Some(p), Some(q)) => {
                remove_range(&mut self.content, p + 1, q + 1);
                self.cursor.location = p + 1;
            },
            (Some(p), None) => {
                self.content.truncate(p);
                self.cursor.location = p;
            },
            (None, Some(q)) => {
                proof {
                    assert(q < self.content@.len());
                }
                remove_range(&mut self.content, 0, q + 1);
                self.cursor.location = 0;
            },
            (None, None) => {
                self.content.clear();
                self.cursor.location = 0;
            },
        }
        proof {
            assert(self.content@ =~= spec_delete_line(
                old(self).content@,
                old(self).cursor.location as int,
            ).0);
        }
    }

    /// Open an empty line below the cursor's line and put the cursor on it;
    /// on the last line (or an empty buffer) a newline is appended instead
    /// and the cursor moves to the new end.
    pub fn next_line_insert(&mut self)
        requires
            old(self).wf(),
            old(self).content@.len() < usize::MAX,
        ensures
            final(self).wf(),
            final(self).buffer_stepped(
                old(self),
                spec_next_line_insert(old(self).content@, old(self).cursor.location as int),
            ),
    {
        if self.content.len() == 0 {
            self.content.push('\n');
            self.cursor.location = 1;
            proof {
                assert(self.content@ =~= seq!['\n']);
            }
            return;
        }
        proof {
            lemma_find_from(self.content@, self.cursor.location as int, '\n');
        }
        match vec_find_from(&self.content, self.cursor.location, '\n') {
            Some(q) => {
                self.content.insert(q, '\n');
                self.cursor.location = q + 1;
            },
            None => {
                self.content.push('\n');
                self.cursor.location = self.content.len();
            },
        }
    }

    /// Open an empty line above the cursor's line: a newline is inserted at
    /// the newline closing the previous line, with the cursor landing just
    /// past it; on the first line a newline is prepended and the cursor moves
    /// to the buffer start; on an empty buffer a newline is appended and the
    /// cursor stays.
    pub fn above_line_insert(&mut self)
        requires
            old(self).wf(),
            old(self).content@.len() < usize::MAX,
        ensures
            final(self).wf(),
            final(self).buffer_stepped(
                old(self),
                spec_above_line_insert(old(self).content@, old(self).cursor.location as int),
            ),
    {
        if self.content.len() == 0 {
            self.content.push('\n');
            proof {
                assert(self.content@ =~= seq!['\n']);
            }
            return;
        }
        proof {
            lemma_rfind_before(self.content@, self.cursor.location as int, '\n');
        }
        match vec_rfind_before(&self.content, self.cursor.location, '\n') {
            Some(p) => {
                self.content.insert(p, '\n');
                self.cursor.location = p + 1;
            },
            None => {
                self.content.insert(0, '\n');
                self.cursor.location = 0;
            },
        }
    }

    /// Step the cursor one line up, keeping its distance from the line
    /// boundary where the line above is long enough and clamping to that
    /// line's last character (or its position, when it is empty) where it is
    /// not; a no-op on the first line.
    pub fn move_cursor_up(&mut self)
        requires
            old(self).wf(),
        ensures
            final(self).wf(),
            final(self).buffer_stepped(
                old(self),
                (
                    old(self).content@,
                    spec_move_up(old(self).content@, old(self).cursor.location as int),
                ),
            ),
    {
        let c = self.cursor.location;
        proof {
            lemma_rfind_before(self.content@, c as int, '\n');
        }
        match vec_rfind_before(&self.content, c, '\n') {
            Some(loc) => {
                let fc = c - loc;
                proof {
                    lemma_rfind_before(self.content@, loc as int, '\n');
                }
                match vec_rfind_before(&self.content, loc, '\n') {
                    Some(ln) => {
                        let ll = loc - ln - 1;
                        if fc <= ll {
                            self.cursor.location = ln + fc;
                        } else if ll >= 1 {
                            self.cursor.location = loc - 1;
                        } else {
                            self.cursor.location = loc;
                        }
                    },
                    None => {
                        if fc <= loc {
                            self.cursor.location = fc - 1;
                        } else if loc >= 1 {
                            self.cursor.location = loc - 1;
                        } else {
                            self.cursor.location = 0;
                        }
                    },
                }
            },
            None => {},
        }
    }

    /// Step the cursor one line down, keeping its distance from the line
    /// boundary where the line below is long enough, clamping to that line's
    /// last character (or its position, when it is empty) where it is not,
    /// and to the buffer end on an unterminated last line; a no-op with no
    /// newline after the cursor.
    pub fn move_cursor_down(&mut self)
        requires
            old(self).wf(),
        ensures
            final(self).wf(),
            final(self).buffer_stepped(
                old(self),
                (
                    old(self).content@,
                    spec_move_down(old(self).content@, old(self).cursor.location as int),
                ),
            ),
    {
        let c = self.cursor.location;
        let n = self.content.len();
        proof {
            lemma_rfind_before(self.content@, c as int, '\n');
            lemma_find_from(self.content@, c as int, '\n');
        }
        let loc1 = match vec_rfind_before(&self.content, c, '\n') {
            Some(l) => l,
            None => 0,
        };
        let fc = c - loc1;
        match vec_find_from(&self.content, c, '\n') {
            Some(q) => {
                proof {
                    lemma_find_from(self.content@, q as int + 1, '\n');
                }
                match vec_find_from(&self.content, q + 1, '\n') {
                    Some(a) => {
                        let ll = a - (q + 1);
                        if fc <= ll {
                            self.cursor.location = q + fc;
                        } else if ll >= 1 {
                            self.cursor.location = q + ll;
                        } else {
                            self.cursor.location = q + 1;
                        }
                    },
                    None => {
                        if fc < n - q {
                            self.cursor.location = q + fc;
                        } else {
                            self.move_to_end();
                        }
                    },
                }
            },
            None => {},
        }
    }

    /// Jump the cursor to the nearer of the next space and the next newline,
    /// stepping one unit further when it already sits on one; with no
    /// delimiter left it lands one unit short of the buffer end, and at the
    /// buffer end the jump is a no-op.
    pub fn move_by_a_word(&mut self)
        requires
            old(self).wf(),
        ensures
            final(self).wf(),
            final(self).buffer_stepped(
                old(self),
                (
                    old(self).content@,
                    spec_move_word(old(self).content@, old(self).cursor.location as int),
                ),
            ),
    {
        let c = self.cursor.location;
        if c == self.content.len() {
            return;
        }
        proof {
            lemma_find_from(self.content@, c as int, ' ');
            lemma_find_from(self.content@, c as int, '\n');
        }
        let sp = vec_find_from(&self.content, c, ' ');
        let nl = vec_find_from(&self.content, c, '\n');
        let target = match (sp, nl) {
            (Some(x), Some(y)) => if x < y {
                Some(x)
            } else {
                Some(y)
            },
            (Some(x), None) => Some(x),
            (None, Some(y)) => Some(y),
            (None, None) => None,
        };
        match target {
            Some(i) => {
                if i == c {
                    self.cursor.location = c + 1;
                } else {
                    self.cursor.location = i;
                }
            },
            None => {
                self.cursor.location = self.content.len() - 1;
            },
        }
    }

    /// Mark the session as finished; the outer loop reads this flag and
    /// stops.
    pub fn end_program(&mut self)
        ensures
            final(self).running == false,
            final(self).file == old(self).file,
            final(self).content == old(self).content,
            final(self).cursor == old(self).cursor,
            final(self).stacked_command == old(self).stacked_command,
    {
        self.running = false;
    }
}

/// Remove the units in `[a, b)` from `v`, shifting the tail left.
fn remove_range(v: &mut Vec<char>, a: usize, b: usize)
    requires
        a <= b <= old(v).len(),
    ensures
        final(v)@ == old(v)@.subrange(0, a as int) + old(v)@.subrange(
            b as int,
            old(v)@.len() as int,
        ),
{
    let ghost orig = v@;
    let mut k: usize = 0;
    proof {
        assert(v@ =~= orig.subrange(0, a as int) + orig.subrange(a + k, orig.len() as int));
    }
    while k < b - a
        invariant
            a <= b <= orig.len(),
            k <= b - a,
            v@ == orig.subrange(0, a as int) + orig.subrange(a + k, orig.len() as int),
        decreases b - a - k,
    {
        v.remove(a);
        k += 1;
        proof {
            assert(v@ =~= orig.subrange(0, a as int) + orig.subrange(a + k, orig.len() as int));
        }
    }
    proof {
        assert(v@ =~= orig.subrange(0, a as int) + orig.subrange(b as int, orig.len() as int));
    }
}

} // verus!
