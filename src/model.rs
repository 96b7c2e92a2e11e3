//! The mathematical model of the editing buffer and of each operation on it.

use crate::keys::{Input, Key};
use vstd::prelude::*;

verus! {

/// The state of a buffer: its rows (each ending in the sentinel space), the
/// cursor as a character-indexed (row, column) pair, and the indentation width.
pub struct EditorState {
    pub rows: Seq<Seq<char>>,
    pub row: nat,
    pub col: nat,
    pub tab: nat,
}

/// The character that ends every row so that the cursor can address the
/// position after the last real character.
pub open spec fn sentinel() -> char {
    ' '
}

/// A row as stored: the text followed by the sentinel.
pub open spec fn is_row(r: Seq<char>) -> bool {
    r.len() > 0 && r.last() == sentinel()
}

/// `n` spaces.
pub open spec fn spaces(n: nat) -> Seq<char> {
    Seq::new(n, |i: int| ' ')
}

impl EditorState {
    /// At least one row, every row ends with the sentinel, and the cursor
    /// addresses an existing character.
    pub open spec fn wf(self) -> bool {
        &&& self.rows.len() > 0
        &&& forall|i: int| 0 <= i < self.rows.len() ==> #[trigger] is_row(self.rows[i])
        &&& self.row < self.rows.len()
        &&& self.col < self.rows[self.row as int].len()
    }

    /// The row under the cursor.
    pub open spec fn cur(self) -> Seq<char> {
        self.rows[self.row as int]
    }

    /// The logical text: every row without its sentinel.
    pub open spec fn lines(self) -> Seq<Seq<char>> {
        self.rows.map_values(|r: Seq<char>| r.drop_last())
    }

    /// The same rows with the cursor at (`row`, `col`).
    pub open spec fn with_cursor(self, row: nat, col: nat) -> EditorState {
        EditorState { row, col, ..self }
    }

    /// `s` placed before the character under the cursor; the cursor stays on
    /// that character.
    pub open spec fn insert_str(self, s: Seq<char>) -> EditorState {
        let line = self.cur();
        EditorState {
            rows: self.rows.update(
                self.row as int,
                line.take(self.col as int) + s + line.skip(self.col as int),
            ),
            col: self.col + s.len(),
            ..self
        }
    }

    pub open spec fn insert_char(self, c: char) -> EditorState {
        self.insert_str(seq![c])
    }

    /// How many spaces reach the next indentation stop.
    pub open spec fn tab_fill(self) -> nat {
        (self.tab - self.col % self.tab) as nat
    }

    pub open spec fn insert_tab(self) -> EditorState {
        if self.tab == 0 {
            self
        } else {
            self.insert_str(spaces(self.tab_fill()))
        }
    }

    /// The row split at the cursor: the head gets a fresh sentinel, the rest
    /// (sentinel included) becomes the next row, and the cursor starts it.
    pub open spec fn insert_newline(self) -> EditorState {
        let line = self.cur();
        let r = self.row as int;
        EditorState {
            rows: self.rows.take(r).push(line.take(self.col as int).push(sentinel())).push(
                line.skip(self.col as int),
            ) + self.rows.skip(r + 1),
            row: self.row + 1,
            col: 0,
            ..self
        }
    }

    /// Backspace: removes the character before the cursor; at the start of a
    /// row, joins it to the previous row with the cursor on the join point.
    pub open spec fn delete_char(self) -> EditorState {
        let r = self.row as int;
        if self.col > 0 {
            EditorState {
                rows: self.rows.update(r, self.cur().remove(self.col - 1)),
                col: (self.col - 1) as nat,
                ..self
            }
        } else if self.row > 0 {
            let prev = self.rows[r - 1];
            let merged = prev.drop_last() + self.cur();
            EditorState {
                rows: self.rows.take(r - 1).push(merged) + self.rows.skip(r + 1),
                row: (self.row - 1) as nat,
                col: (prev.len() - 1) as nat,
                ..self
            }
        } else {
            self
        }
    }

    pub open spec fn cursor_forward(self) -> EditorState {
        if self.col + 1 < self.cur().len() {
            self.with_cursor(self.row, self.col + 1)
        } else if self.row + 1 < self.rows.len() {
            self.with_cursor(self.row + 1, 0)
        } else {
            self
        }
    }

    pub open spec fn cursor_back(self) -> EditorState {
        if self.col > 0 {
            self.with_cursor(self.row, (self.col - 1) as nat)
        } else if self.row > 0 {
            self.with_cursor((self.row - 1) as nat, (self.rows[self.row - 1].len() - 1) as nat)
        } else {
            self
        }
    }

    /// Moves to row `r`, keeping the column unless the row is shorter.
    pub open spec fn move_to_row(self, r: nat) -> EditorState {
        let len = self.rows[r as int].len();
        if len <= self.col {
            self.with_cursor(r, (len - 1) as nat)
        } else {
            self.with_cursor(r, self.col)
        }
    }

    pub open spec fn cursor_down(self) -> EditorState {
        if self.row + 1 < self.rows.len() {
            self.move_to_row(self.row + 1)
        } else {
            self
        }
    }

    pub open spec fn cursor_up(self) -> EditorState {
        if self.row > 0 {
            self.move_to_row((self.row - 1) as nat)
        } else {
            self
        }
    }

    pub open spec fn cursor_start(self) -> EditorState {
        self.with_cursor(self.row, 0)
    }

    pub open spec fn cursor_end(self) -> EditorState {
        self.with_cursor(self.row, (self.cur().len() - 1) as nat)
    }

    /// The operation that a key input stands for; unbound inputs change nothing.
    pub open spec fn apply(self, input: Input) -> EditorState {
        if input.ctrl {
            match input.key {
                Key::Char('h') => self.delete_char(),
                Key::Char('m') => self.insert_newline(),
                Key::Char('p') => self.cursor_up(),
                Key::Char('f') => self.cursor_forward(),
                Key::Char('n') => self.cursor_down(),
                Key::Char('b') => self.cursor_back(),
                Key::Char('a') => self.cursor_start(),
                Key::Char('e') => self.cursor_end(),
                _ => self,
            }
        } else {
            match input.key {
                Key::Char(c) => self.insert_char(c),
                Key::Backspace => self.delete_char(),
                Key::Tab => self.insert_tab(),
                Key::Enter => self.insert_newline(),
                Key::Up => self.cursor_up(),
                Key::Right => self.cursor_forward(),
                Key::Down => self.cursor_down(),
                Key::Left => self.cursor_back(),
                Key::Home => self.cursor_start(),
                Key::End => self.cursor_end(),
                _ => self,
            }
        }
    }

    /// The state after a sequence of inputs, applied in order.
    pub open spec fn run(self, inputs: Seq<Input>) -> EditorState
        decreases inputs.len(),
    {
        if inputs.len() == 0 {
            self
        } else {
            self.apply(inputs[0]).run(inputs.drop_first())
        }
    }
}

impl EditorState {
    /// Inserting text keeps the buffer well formed.
    pub proof fn lemma_insert_str_wf(self, s: Seq<char>)
        requires
            self.wf(),
        ensures
            self.insert_str(s).wf(),
    {
        let t = self.insert_str(s);
        let line = self.cur();
        let c = self.col as int;
        assert(t.cur() == line.take(c) + s + line.skip(c));
        assert(t.cur().last() == line.last());
        assert forall|i: int| 0 <= i < t.rows.len() implies #[trigger] is_row(t.rows[i]) by {
            if i != self.row {
                assert(is_row(self.rows[i]));
            }
        }
    }

    /// Splitting a row keeps the buffer well formed.
    pub proof fn lemma_insert_newline_wf(self)
        requires
            self.wf(),
        ensures
            self.insert_newline().wf(),
    {
        let t = self.insert_newline();
        let r = self.row as int;
        let line = self.cur();
        assert(is_row(line));
        assert forall|i: int| 0 <= i < t.rows.len() implies #[trigger] is_row(t.rows[i]) by {
            if i < r {
                assert(t.rows[i] == self.rows[i]);
                assert(is_row(self.rows[i]));
            } else if i == r {
                assert(t.rows[i] == line.take(self.col as int).push(sentinel()));
            } else if i == r + 1 {
                assert(t.rows[i] == line.skip(self.col as int));
            } else {
                assert(t.rows[i] == self.rows[i - 1]);
                assert(is_row(self.rows[i - 1]));
            }
        }
    }

    /// Deleting backwards keeps the buffer well formed.
    pub proof fn lemma_delete_char_wf(self)
        requires
            self.wf(),
        ensures
            self.delete_char().wf(),
    {
        let t = self.delete_char();
        let r = self.row as int;
        assert(is_row(self.cur()));
        if self.col > 0 {
            assert(t.cur() == self.cur().remove(self.col - 1));
            assert(t.cur().last() == self.cur().last());
            assert forall|i: int| 0 <= i < t.rows.len() implies #[trigger] is_row(t.rows[i]) by {
                if i != r {
                    assert(is_row(self.rows[i]));
                }
            }
        } else if self.row > 0 {
            let prev = self.rows[r - 1];
            assert(is_row(prev));
            let merged = prev.drop_last() + self.cur();
            assert(t.rows[r - 1] == merged);
            assert(merged.last() == self.cur().last());
            assert forall|i: int| 0 <= i < t.rows.len() implies #[trigger] is_row(t.rows[i]) by {
                if i < r - 1 {
                    assert(t.rows[i] == self.rows[i]);
                    assert(is_row(self.rows[i]));
                } else if i > r - 1 {
                    assert(t.rows[i] == self.rows[i + 1]);
                    assert(is_row(self.rows[i + 1]));
                }
            }
        }
    }
}

} // verus!
