//! Properties that hold of every buffer state and every sequence of inputs.

use crate::keys::Input;
use crate::model::{is_row, sentinel, EditorState};
use vstd::prelude::*;

verus! {

/// Every operation bound to a key keeps the buffer well formed: at least one
/// row, every row ending with the sentinel, and the cursor on an existing
/// character.
pub proof fn lemma_input_keeps_invariant(s: EditorState, input: Input)
    requires
        s.wf(),
    ensures
        s.apply(input).wf(),
{
    s.lemma_insert_str_wf(seq![' ']);
    s.lemma_insert_newline_wf();
    s.lemma_delete_char_wf();
    if s.tab > 0 {
        s.lemma_insert_str_wf(crate::model::spaces(s.tab_fill()));
    }
    if let crate::keys::Key::Char(c) = input.key {
        s.lemma_insert_str_wf(seq![c]);
    }
    if s.row + 1 < s.rows.len() {
        assert(is_row(s.rows[s.row + 1int]));
    }
    if s.row > 0 {
        assert(is_row(s.rows[s.row - 1int]));
    }
}

/// The buffer stays well formed after any sequence of inputs.
pub proof fn lemma_inputs_keep_invariant(s: EditorState, inputs: Seq<Input>)
    requires
        s.wf(),
    ensures
        s.run(inputs).wf(),
    decreases inputs.len(),
{
    if inputs.len() > 0 {
        lemma_input_keeps_invariant(s, inputs[0]);
        lemma_inputs_keep_invariant(s.apply(inputs[0]), inputs.drop_first());
    }
}

/// The logical lines are the rows with their trailing sentinel taken off:
/// the sentinel is never part of the text handed out.
pub proof fn lemma_lines_omit_sentinel(s: EditorState)
    requires
        s.wf(),
    ensures
        s.lines().len() == s.rows.len(),
        forall|i: int|
            0 <= i < s.rows.len() ==> (#[trigger] s.lines()[i]).push(sentinel()) == s.rows[i],
{
    assert forall|i: int| 0 <= i < s.rows.len() implies (#[trigger] s.lines()[i]).push(sentinel())
        == s.rows[i] by {
        assert(is_row(s.rows[i]));
        assert(s.rows[i].drop_last().push(sentinel()) =~= s.rows[i]);
    }
}

/// Splitting a row at the cursor and then deleting backwards restores the
/// buffer and the cursor.
pub proof fn lemma_newline_then_delete(s: EditorState)
    requires
        s.wf(),
    ensures
        s.insert_newline().delete_char() == s,
{
    let t = s.insert_newline();
    let u = t.delete_char();
    let r = s.row as int;
    let line = s.cur();
    let c = s.col as int;
    assert(t.rows[r] == line.take(c).push(sentinel()));
    assert(t.rows[r + 1] == line.skip(c));
    assert(line.take(c).push(sentinel()).drop_last() + line.skip(c) =~= line);
    assert(u.rows =~= s.rows);
}

/// A character of any width takes one column: inserting it moves the cursor
/// one column right, and one step back and one step forward pass over it.
pub proof fn lemma_char_is_one_column(s: EditorState, c: char)
    requires
        s.wf(),
    ensures
        s.insert_char(c).row == s.row,
        s.insert_char(c).col == s.col + 1,
        s.insert_char(c).cursor_back() == s.insert_char(c).with_cursor(s.row, s.col),
        s.insert_char(c).cursor_back().cursor_forward() == s.insert_char(c),
{
    let t = s.insert_char(c);
    assert(t.cur().len() == s.cur().len() + 1);
}

} // verus!
