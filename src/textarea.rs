//! The editing buffer: rows of characters, a cursor, and the edit and
//! navigation operations that keep every row sentinel-terminated.

use crate::keys::{Input, Key};
use crate::model::{is_row, sentinel, spaces, EditorState};
use crate::render::{
    clone_block, paragraph, paragraph_framed, paragraph_styled, raw_span, reversed, spans_of,
    styled_span,
};
use tui::style::Style;
use tui::text::{Span, Spans};
use tui::widgets::{Block, Paragraph};
use vstd::prelude::*;

verus! {

#[verifier::external_type_specification]
#[verifier::external_body]
pub struct ExStyle(tui::style::Style);

#[verifier::external_type_specification]
#[verifier::external_body]
pub struct ExBlock<'a>(tui::widgets::Block<'a>);

/// Relies on tui's `Style::default`: a style with no colours or modifiers.
pub assume_specification[ <tui::style::Style as core::default::Default>::default ]() -> tui::style::Style;

/// A multi-line text area with one cursor.
pub struct TextArea<'a> {
    lines: Vec<Vec<char>>,
    block: Option<Block<'a>>,
    style: Style,
    cursor: (usize, usize),
    tab: usize,
}

impl<'a> View for TextArea<'a> {
    type V = EditorState;

    closed spec fn view(&self) -> EditorState {
        EditorState {
            rows: self.lines@.map_values(|l: Vec<char>| l@),
            row: self.cursor.0 as nat,
            col: self.cursor.1 as nat,
            tab: self.tab as nat,
        }
    }
}

/// How one row is drawn: a row without the cursor as plain text (sentinel
/// included), the cursor's row as the text before the cursor, the highlighted
/// character under it, and the text after it.
pub enum RowView {
    Plain(String),
    Cursor { before: String, under: char, after: String },
}

/// `v` is how row `i` of `s` is drawn.
pub open spec fn shows_row(s: EditorState, i: int, v: RowView) -> bool {
    match v {
        RowView::Plain(t) => i != s.row && t@ == s.rows[i],
        RowView::Cursor { before, under, after } => {
            &&& i == s.row
            &&& before@ == s.cur().take(s.col as int)
            &&& under == s.cur()[s.col as int]
            &&& after@ == s.cur().skip(s.col + 1int)
        },
    }
}

/// The characters `v[lo..hi]` as a string.
fn text_range(v: &Vec<char>, lo: usize, hi: usize) -> (r: String)
    requires
        lo <= hi <= v@.len(),
    ensures
        r@ == v@.subrange(lo as int, hi as int),
{
    let mut r = String::new();
    let mut i: usize = lo;
    while i < hi
        invariant
            lo <= i <= hi <= v@.len(),
            r@ == v@.subrange(lo as int, i as int),
        decreases hi - i,
    {
        push_char(&mut r, v[i]);
        i = i + 1;
        assert(r@ =~= v@.subrange(lo as int, i as int));
    }
    r
}

/// Copies `v[lo..hi]` into a new vector.
fn copy_range(v: &Vec<char>, lo: usize, hi: usize) -> (r: Vec<char>)
    requires
        lo <= hi <= v@.len(),
    ensures
        r@ == v@.subrange(lo as int, hi as int),
{
    let mut r: Vec<char> = Vec::new();
    let mut i: usize = lo;
    while i < hi
        invariant
            lo <= i <= hi <= v@.len(),
            r@ == v@.subrange(lo as int, i as int),
        decreases hi - i,
    {
        r.push(v[i]);
        i = i + 1;
    }
    r
}

/// Appends the characters of `src` to `dst`.
fn extend_chars(dst: &mut Vec<char>, src: &Vec<char>)
    ensures
        final(dst)@ == old(dst)@ + src@,
{
    let mut i: usize = 0;
    while i < src.len()
        invariant
            i <= src@.len(),
            dst@ == old(dst)@ + src@.take(i as int),
        decreases src@.len() - i,
    {
        dst.push(src[i]);
        i = i + 1;
    }
    assert(src@.take(src@.len() as int) =~= src@);
}

impl<'a> Default for TextArea<'a> {
    fn default() -> (r: TextArea<'a>)
        ensures
            r@ == (EditorState { rows: seq![seq![sentinel()]], row: 0, col: 0, tab: 4 }),
            r.frame() is None,
    {
        let r = TextArea {
            lines: vec![vec![' ']],
            block: None,
            style: Style::default(),
            cursor: (0, 0),
            tab: 4,
        };
        assert(r.lines@[0]@ =~= seq![sentinel()]);
        assert(r@.rows =~= seq![seq![sentinel()]]);
        r
    }
}

impl<'a> TextArea<'a> {
    /// The decorative frame, if one is set.
    pub closed spec fn frame(&self) -> Option<Block<'a>> {
        self.block
    }

    /// The visual style.
    pub closed spec fn visual(&self) -> Style {
        self.style
    }

    proof fn lemma_view_rows(&self)
        ensures
            self@.rows.len() == self.lines@.len(),
            forall|i: int| 0 <= i < self.lines@.len() ==> #[trigger] self@.rows[i] == self.lines@[i]@,
            self@.wf() ==> forall|i: int|
                0 <= i < self.lines@.len() ==> is_row(#[trigger] self.lines@[i]@),
    {
        if self@.wf() {
            assert forall|i: int| 0 <= i < self.lines@.len() implies is_row(
                #[trigger] self.lines@[i]@,
            ) by {
                assert(is_row(self@.rows[i]));
            }
        }
    }

    /// Inserts the characters of `s` at the cursor and moves the cursor past them.
    fn insert_chars(&mut self, s: &Vec<char>)
        requires
            old(self)@.wf(),
            old(self)@.cur().len() + s@.len() <= usize::MAX,
        ensures
            final(self)@ == old(self)@.insert_str(s@),
            final(self).frame() == old(self).frame(),
            final(self).visual() == old(self).visual(),
    {
        let (row, col) = self.cursor;
        proof {
            self.lemma_view_rows();
        }
        let line = &self.lines[row];
        let mut next = copy_range(line, 0, col);
        extend_chars(&mut next, s);
        let rest = copy_range(line, col, line.len());
        extend_chars(&mut next, &rest);
        self.lines.set(row, next);
        self.cursor = (row, col + s.len());
        proof {
            self.lemma_view_rows();
            assert(self@.rows =~= old(self)@.insert_str(s@).rows);
        }
    }

    /// Inserts `c` before the character under the cursor; the cursor moves one
    /// character to the right, whatever the width of `c`.
    pub fn insert_char(&mut self, c: char)
        requires
            old(self)@.wf(),
            old(self)@.cur().len() < usize::MAX,
        ensures
            final(self)@ == old(self)@.insert_char(c),
            final(self)@.wf(),
            final(self).frame() == old(self).frame(),
            final(self).visual() == old(self).visual(),
    {
        let s = vec![c];
        assert(s@ =~= seq![c]);
        self.insert_chars(&s);
        proof {
            old(self)@.lemma_insert_str_wf(seq![c]);
        }
    }

    /// Inserts the characters of `s`, which holds no line break, at the cursor.
    pub fn insert_str(&mut self, s: &str)
        requires
            old(self)@.wf(),
            old(self)@.cur().len() + s@.len() <= usize::MAX,
            forall|i: int| 0 <= i < s@.len() ==> s@[i] != '\n',
        ensures
            final(self)@ == old(self)@.insert_str(s@),
            final(self)@.wf(),
            final(self).frame() == old(self).frame(),
            final(self).visual() == old(self).visual(),
    {
        let n = s.unicode_len();
        let mut chars: Vec<char> = Vec::new();
        let mut i: usize = 0;
        while i < n
            invariant
                n == s@.len(),
                i <= n,
                chars@ == s@.take(i as int),
            decreases n - i,
        {
            chars.push(s.get_char(i));
            i = i + 1;
        }
        assert(chars@ =~= s@);
        self.insert_chars(&chars);
        proof {
            old(self)@.lemma_insert_str_wf(s@);
        }
    }

    /// Inserts spaces up to the next indentation stop; nothing when the
    /// indentation is empty.
    pub fn insert_tab(&mut self)
        requires
            old(self)@.wf(),
            old(self)@.cur().len() + old(self)@.tab <= usize::MAX,
        ensures
            final(self)@ == old(self)@.insert_tab(),
            final(self)@.wf(),
            final(self).frame() == old(self).frame(),
            final(self).visual() == old(self).visual(),
    {
        if self.tab > 0 {
            let n = self.tab - self.cursor.1 % self.tab;
            let mut fill: Vec<char> = Vec::new();
            let mut i: usize = 0;
            while i < n
                invariant
                    i <= n,
                    fill@ == spaces(i as nat),
                decreases n - i,
            {
                fill.push(' ');
                i = i + 1;
                assert(fill@ =~= spaces(i as nat));
            }
            self.insert_chars(&fill);
            proof {
                old(self)@.lemma_insert_str_wf(spaces(n as nat));
            }
        }
    }

    /// Splits the row at the cursor; the cursor moves to the start of the new row.
    pub fn insert_newline(&mut self)
        requires
            old(self)@.wf(),
        ensures
            final(self)@ == old(self)@.insert_newline(),
            final(self)@.wf(),
            final(self).frame() == old(self).frame(),
            final(self).visual() == old(self).visual(),
    {
        let (row, col) = self.cursor;
        proof {
            self.lemma_view_rows();
        }
        let n = self.lines.len();
        let line = &self.lines[row];
        let next_line = copy_range(line, col, line.len());
        let mut head = copy_range(line, 0, col);
        head.push(' ');
        self.lines.set(row, head);
        self.lines.insert(row + 1, next_line);
        self.cursor = (row + 1, 0);
        proof {
            self.lemma_view_rows();
            let want = old(self)@.insert_newline();
            assert(self@.rows =~= want.rows);
            old(self)@.lemma_insert_newline_wf();
        }
    }

    /// Deletes the character before the cursor; at the start of a row, joins
    /// the row to the previous one; at the very start, does nothing.
    pub fn delete_char(&mut self)
        requires
            old(self)@.wf(),
        ensures
            final(self)@ == old(self)@.delete_char(),
            final(self)@.wf(),
            final(self).frame() == old(self).frame(),
            final(self).visual() == old(self).visual(),
    {
        let (row, col) = self.cursor;
        proof {
            self.lemma_view_rows();
            old(self)@.lemma_delete_char_wf();
        }
        if col == 0 {
            if row > 0 {
                let line = self.lines.remove(row);
                let prev = &self.lines[row - 1];
                let join = prev.len() - 1;
                let mut merged = copy_range(prev, 0, join);
                extend_chars(&mut merged, &line);
                self.lines.set(row - 1, merged);
                self.cursor = (row - 1, join);
                proof {
                    self.lemma_view_rows();
                    assert(self@.rows =~= old(self)@.delete_char().rows);
                }
            }
        } else {
            let mut line = copy_range(&self.lines[row], 0, self.lines[row].len());
            assert(line@ =~= old(self)@.cur());
            line.remove(col - 1);
            self.lines.set(row, line);
            self.cursor = (row, col - 1);
            proof {
                self.lemma_view_rows();
                assert(self@.rows =~= old(self)@.delete_char().rows);
            }
        }
    }

    /// Moves one character right, or to the start of the next row.
    pub fn cursor_forward(&mut self)
        requires
            old(self)@.wf(),
        ensures
            final(self)@ == old(self)@.cursor_forward(),
            final(self)@.wf(),
            final(self).frame() == old(self).frame(),
            final(self).visual() == old(self).visual(),
    {
        proof {
            self.lemma_view_rows();
        }
        let (r, c) = self.cursor;
        let n = self.lines.len();
        let len = self.lines[r].len();
        if c + 1 >= len {
            if r + 1 < n {
                self.cursor = (r + 1, 0);
            }
        } else {
            self.cursor = (r, c + 1);
        }
        proof {
            self.lemma_view_rows();
            assert(self@.rows =~= old(self)@.rows);
        }
    }

    /// Moves one character left, or to the end of the previous row.
    pub fn cursor_back(&mut self)
        requires
            old(self)@.wf(),
        ensures
            final(self)@ == old(self)@.cursor_back(),
            final(self)@.wf(),
            final(self).frame() == old(self).frame(),
            final(self).visual() == old(self).visual(),
    {
        proof {
            self.lemma_view_rows();
        }
        let (r, c) = self.cursor;
        if c == 0 {
            if r > 0 {
                self.cursor = (r - 1, self.lines[r - 1].len() - 1);
            }
        } else {
            self.cursor = (r, c - 1);
        }
        proof {
            self.lemma_view_rows();
            assert(self@.rows =~= old(self)@.rows);
        }
    }

    /// Moves to row `r`, clamping the column to the row's last character.
    fn move_to_row(&mut self, r: usize)
        requires
            old(self)@.wf(),
            r < old(self)@.rows.len(),
        ensures
            final(self)@ == old(self)@.move_to_row(r as nat),
            final(self)@.wf(),
            final(self).frame() == old(self).frame(),
            final(self).visual() == old(self).visual(),
    {
        proof {
            self.lemma_view_rows();
        }
        let c = self.cursor.1;
        let len = self.lines[r].len();
        if len <= c {
            self.cursor = (r, len - 1);
        } else {
            self.cursor = (r, c);
        }
        proof {
            self.lemma_view_rows();
            assert(self@.rows =~= old(self)@.rows);
        }
    }

    /// Moves one row down, if there is one.
    pub fn cursor_down(&mut self)
        requires
            old(self)@.wf(),
        ensures
            final(self)@ == old(self)@.cursor_down(),
            final(self)@.wf(),
            final(self).frame() == old(self).frame(),
            final(self).visual() == old(self).visual(),
    {
        proof {
            self.lemma_view_rows();
        }
        let r = self.cursor.0;
        let n = self.lines.len();
        if r + 1 < n {
            self.move_to_row(r + 1);
        }
    }

    /// Moves one row up, if there is one.
    pub fn cursor_up(&mut self)
        requires
            old(self)@.wf(),
        ensures
            final(self)@ == old(self)@.cursor_up(),
            final(self)@.wf(),
            final(self).frame() == old(self).frame(),
            final(self).visual() == old(self).visual(),
    {
        let r = self.cursor.0;
        if r > 0 {
            self.move_to_row(r - 1);
        }
    }

    /// Moves to the first character of the row.
    pub fn cursor_start(&mut self)
        requires
            old(self)@.wf(),
        ensures
            final(self)@ == old(self)@.cursor_start(),
            final(self)@.wf(),
            final(self).frame() == old(self).frame(),
            final(self).visual() == old(self).visual(),
    {
        self.cursor = (self.cursor.0, 0);
        proof {
            self.lemma_view_rows();
            assert(self@.rows =~= old(self)@.rows);
        }
    }

    /// Moves to the last character of the row (the sentinel).
    pub fn cursor_end(&mut self)
        requires
            old(self)@.wf(),
        ensures
            final(self)@ == old(self)@.cursor_end(),
            final(self)@.wf(),
            final(self).frame() == old(self).frame(),
            final(self).visual() == old(self).visual(),
    {
        proof {
            self.lemma_view_rows();
        }
        let r = self.cursor.0;
        self.cursor = (r, self.lines[r].len() - 1);
        proof {
            self.lemma_view_rows();
            assert(self@.rows =~= old(self)@.rows);
        }
    }

    /// Applies the operation bound to `input`: the control table when the
    /// control modifier is held, the plain table otherwise.
    pub fn input(&mut self, input: Input)
        requires
            old(self)@.wf(),
            old(self)@.cur().len() + old(self)@.tab < usize::MAX,
        ensures
            final(self)@ == old(self)@.apply(input),
            final(self)@.wf(),
            final(self).frame() == old(self).frame(),
            final(self).visual() == old(self).visual(),
    {
        if input.ctrl {
            match input.key {
                Key::Char('h') => self.delete_char(),
                Key::Char('m') => self.insert_newline(),
                Key::Char('p') => self.cursor_up(),
                Key::Char('f') => self.cursor_forward(),
                Key::Char('n') => self.cursor_down(),
                Key::Char('b') => self.cursor_back(),
                Key::Char('a') => self.cursor_start(),
                Key::Char('e') => self.cursor_end(),
                _ => {},
            }
        } else {
            match input.key {
                Key::Char(c) => self.insert_char(c),
                Key::Backspace => self.delete_char(),
                Key::Tab => self.insert_tab(),
                Key::Enter => self.insert_newline(),
                Key::Up => self.cursor_up(),
                Key::Right => self.cursor_forward(),
                Key::Down => self.cursor_down(),
                Key::Left => self.cursor_back(),
                Key::Home => self.cursor_start(),
                Key::End => self.cursor_end(),
                _ => {},
            }
        }
    }

    /// The logical rows, each without its sentinel.
    pub fn lines(&self) -> (r: Vec<String>)
        requires
            self@.wf(),
        ensures
            r@.len() == self@.lines().len(),
            forall|i: int| 0 <= i < r@.len() ==> #[trigger] r@[i]@ == self@.lines()[i],
    {
        proof {
            self.lemma_view_rows();
        }
        let mut r: Vec<String> = Vec::new();
        let mut i: usize = 0;
        while i < self.lines.len()
            invariant
                self@.wf(),
                i <= self.lines@.len(),
                r@.len() == i,
                forall|k: int| 0 <= k < i ==> #[trigger] r@[k]@ == self@.lines()[k],
            decreases self.lines@.len() - i,
        {
            proof {
                self.lemma_view_rows();
            }
            let line = &self.lines[i];
            assert(is_row(line@));
            let n = line.len();
            let mut text = String::new();
            let mut j: usize = 0;
            while j + 1 < n
                invariant
                    n == line@.len(),
                    n > 0,
                    j < line@.len(),
                    text@ == line@.take(j as int),
                decreases line@.len() - j,
            {
                push_char(&mut text, line[j]);
                j = j + 1;
            }
            assert(text@ =~= self@.lines()[i as int]);
            r.push(text);
            i = i + 1;
        }
        r
    }

    /// The cursor as a 0-based, character-indexed (row, column) pair.
    pub fn cursor(&self) -> (r: (usize, usize))
        ensures
            r.0 == self@.row,
            r.1 == self@.col,
    {
        self.cursor
    }

    /// Sets the visual style.
    pub fn style(&mut self, style: Style)
        ensures
            final(self)@ == old(self)@,
            final(self).visual() == style,
            final(self).frame() == old(self).frame(),
    {
        self.style = style;
    }

    /// Sets the decorative frame.
    pub fn block(&mut self, block: Block<'a>)
        ensures
            final(self)@ == old(self)@,
            final(self).visual() == old(self).visual(),
            final(self).frame() == Some(block),
    {
        self.block = Some(block);
    }

    /// Removes the decorative frame.
    pub fn remove_block(&mut self)
        ensures
            final(self)@ == old(self)@,
            final(self).visual() == old(self).visual(),
            final(self).frame() is None,
    {
        self.block = None;
    }

    /// Sets the indentation string, which must consist of spaces only.
    pub fn tab(&mut self, tab: &str)
        requires
            forall|i: int| 0 <= i < tab@.len() ==> tab@[i] == ' ',
        ensures
            final(self)@ == (EditorState { tab: tab@.len(), ..old(self)@ }),
            final(self).visual() == old(self).visual(),
            final(self).frame() == old(self).frame(),
    {
        self.tab = tab.unicode_len();
        proof {
            assert(self@.rows =~= old(self)@.rows);
        }
    }

    /// How row `i` is drawn.
    pub fn row_view(&self, i: usize) -> (r: RowView)
        requires
            self@.wf(),
            i < self@.rows.len(),
        ensures
            shows_row(self@, i as int, r),
    {
        proof {
            self.lemma_view_rows();
        }
        let line = &self.lines[i];
        if i == self.cursor.0 {
            let col = self.cursor.1;
            let len = line.len();
            let before = text_range(line, 0, col);
            let after = text_range(line, col + 1, len);
            assert(before@ =~= self@.cur().take(col as int));
            assert(after@ =~= self@.cur().skip(col + 1int));
            RowView::Cursor { before, under: line[col], after }
        } else {
            let text = text_range(line, 0, line.len());
            assert(text@ =~= self@.rows[i as int]);
            RowView::Plain(text)
        }
    }

    /// The widget that draws the text area: one screen line per row, with the
    /// character under the cursor in reverse video, in the configured style and
    /// frame.
    pub fn widget(&self) -> Paragraph<'a>
        requires
            self@.wf(),
    {
        let mut rows: Vec<Spans<'a>> = Vec::new();
        let mut i: usize = 0;
        while i < self.lines.len()
            invariant
                self@.wf(),
                self@.rows.len() == self.lines@.len(),
            decreases self.lines@.len() - i,
        {
            let spans: Vec<Span<'a>> = match self.row_view(i) {
                RowView::Plain(text) => vec![raw_span(text)],
                RowView::Cursor { before, under, after } => {
                    let mut cell = String::new();
                    push_char(&mut cell, under);
                    vec![
                        raw_span(before),
                        styled_span(cell, reversed(Style::default())),
                        raw_span(after),
                    ]
                },
            };
            rows.push(spans_of(spans));
            i = i + 1;
        }
        let p = paragraph_styled(paragraph(rows), self.style);
        match &self.block {
            Some(b) => paragraph_framed(p, clone_block(b)),
            None => p,
        }
    }
}

/// Relies on `String::push`: appends one character.
#[verifier::external_body]
fn push_char(s: &mut String, c: char)
    ensures
        final(s)@ == old(s)@.push(c),
{
    s.push(c);
}

} // verus!
