//! The edited line: a line buffer of the `rustyline` crate, with what this
//! library relies on of each of its operations.
//!
//! The buffer is described by two values, its text and the byte offset of its
//! cursor. Every operation keeps the cursor on a character boundary of the
//! text, and needs it there.

use vstd::prelude::*;
use vstd::utf8::*;
use rustyline::line_buffer::LineBuffer;

verus! {

#[verifier::external_type_specification]
#[verifier::external_body]
pub struct ExLineBuffer(rustyline::line_buffer::LineBuffer);

/// The text that the buffer holds.
pub uninterp spec fn line_text(line: LineBuffer) -> Seq<char>;

/// The byte offset of the buffer's cursor in its text.
pub uninterp spec fn line_pos(line: LineBuffer) -> nat;

/// Text and cursor once the grapheme left of the cursor is deleted.
pub uninterp spec fn after_backspace(text: Seq<char>, pos: nat) -> (Seq<char>, nat);

/// The text once the grapheme at the cursor is deleted.
pub uninterp spec fn after_delete(text: Seq<char>, pos: nat) -> Seq<char>;

/// The cursor once it has moved one grapheme to the left.
pub uninterp spec fn pos_after_left(text: Seq<char>, pos: nat) -> nat;

/// The cursor once it has moved one grapheme to the right.
pub uninterp spec fn pos_after_right(text: Seq<char>, pos: nat) -> nat;

/// The cursor once it has moved to the start of its line.
pub uninterp spec fn pos_after_home(text: Seq<char>, pos: nat) -> nat;

/// The cursor once it has moved to the end of its line.
pub uninterp spec fn pos_after_end(text: Seq<char>, pos: nat) -> nat;

/// The text once the bytes from `start` to the cursor are replaced by `with`.
pub uninterp spec fn after_replace(text: Seq<char>, pos: nat, start: nat, with: Seq<char>) -> Seq<
    char,
>;

/// Whether byte offset `pos` lies on a character boundary of `text`.
pub open spec fn on_boundary(text: Seq<char>, pos: nat) -> bool {
    is_char_boundary(encode_utf8(text), pos as int)
}

/// Where one text ends and the next begins is a character boundary of the
/// two put together.
pub proof fn joint_on_boundary(head: Seq<char>, tail: Seq<char>)
    ensures
        on_boundary(head + tail, encode_utf8(head).len()),
        encode_utf8(head).len() <= encode_utf8(head + tail).len(),
    decreases head.len(),
{
    let whole = head + tail;
    let bytes = encode_utf8(whole);
    encode_utf8_valid_utf8(whole);
    if head.len() == 0 {
        assert(encode_utf8(head).len() == 0);
    } else {
        encode_utf8_first_scalar(whole);
        encode_utf8_first_scalar(head);
        assert(whole[0] == head[0]);
        assert(whole.drop_first() =~= head.drop_first() + tail);
        assert(pop_first_scalar(bytes) =~= encode_utf8(whole.drop_first()));
        joint_on_boundary(head.drop_first(), tail);
        let first = length_of_first_scalar(bytes);
        assert(encode_utf8(head).len() == first + encode_utf8(head.drop_first()).len());
        assert(bytes.len() == first + encode_utf8(whole.drop_first()).len());
        assert(first >= 1);
    }
}

/// Whether the buffer's cursor lies on a character boundary of its text.
pub open spec fn cursor_ok(line: LineBuffer) -> bool {
    on_boundary(line_text(line), line_pos(line))
}

/// `LineBuffer::with_capacity`: an empty buffer with the cursor at its start.
#[verifier::external_body]
pub(crate) fn line_with_capacity(capacity: usize) -> (line: LineBuffer)
    ensures
        line_text(line) == Seq::<char>::empty(),
        line_pos(line) == 0,
        cursor_ok(line),
{
    LineBuffer::with_capacity(capacity)
}

/// `LineBuffer::insert_str` at offset 0, on a buffer whose cursor is at the
/// start: the string is put in front of the text and the cursor stays.
#[verifier::external_body]
pub(crate) fn line_prepend(line: &mut LineBuffer, s: &str)
    requires
        line_pos(*old(line)) == 0,
    ensures
        line_text(*final(line)) == s@ + line_text(*old(line)),
        line_pos(*final(line)) == 0,
        cursor_ok(*final(line)),
{
    line.insert_str(0, s);
}

/// `LineBuffer::set_pos`: moves the cursor to a byte offset, which has to lie
/// on a character boundary of the text.
#[verifier::external_body]
pub(crate) fn line_set_pos(line: &mut LineBuffer, pos: usize)
    requires
        on_boundary(line_text(*old(line)), pos as nat),
    ensures
        line_text(*final(line)) == line_text(*old(line)),
        line_pos(*final(line)) == pos,
        cursor_ok(*final(line)),
{
    line.set_pos(pos);
}

/// `LineBuffer::as_str`: the text, copied into a string.
#[verifier::external_body]
pub(crate) fn line_string(line: &LineBuffer) -> (text: String)
    ensures
        text@ == line_text(*line),
{
    line.as_str().to_string()
}

/// `LineBuffer::pos`: the byte offset of the cursor.
#[verifier::external_body]
pub(crate) fn line_cursor(line: &LineBuffer) -> (pos: usize)
    ensures
        pos == line_pos(*line),
{
    line.pos()
}

/// `LineBuffer::backspace` by one: deletes the grapheme left of the cursor
/// and says whether there was one.
#[verifier::external_body]
pub(crate) fn line_backspace(line: &mut LineBuffer) -> (changed: bool)
    requires
        cursor_ok(*old(line)),
    ensures
        (line_text(*final(line)), line_pos(*final(line))) == after_backspace(
            line_text(*old(line)),
            line_pos(*old(line)),
        ),
        changed == (line_text(*final(line)) != line_text(*old(line))),
        changed == (line_pos(*old(line)) != 0),
        !changed ==> line_pos(*final(line)) == line_pos(*old(line)),
        cursor_ok(*final(line)),
{
    line.backspace(1)
}

/// `LineBuffer::delete` by one: deletes the grapheme at the cursor, which
/// stays where it is, and says whether there was one.
#[verifier::external_body]
pub(crate) fn line_delete(line: &mut LineBuffer) -> (changed: bool)
    requires
        cursor_ok(*old(line)),
    ensures
        line_text(*final(line)) == after_delete(line_text(*old(line)), line_pos(*old(line))),
        line_pos(*final(line)) == line_pos(*old(line)),
        changed == (line_text(*final(line)) != line_text(*old(line))),
        cursor_ok(*final(line)),
{
    line.delete(1).is_some()
}

/// `LineBuffer::move_backward` by one: moves the cursor one grapheme to the
/// left and says whether it moved.
#[verifier::external_body]
pub(crate) fn line_move_backward(line: &mut LineBuffer) -> (moved: bool)
    requires
        cursor_ok(*old(line)),
    ensures
        line_text(*final(line)) == line_text(*old(line)),
        line_pos(*final(line)) == pos_after_left(line_text(*old(line)), line_pos(*old(line))),
        moved == (line_pos(*final(line)) != line_pos(*old(line))),
        moved == (line_pos(*old(line)) != 0),
        cursor_ok(*final(line)),
{
    line.move_backward(1)
}

/// `LineBuffer::move_forward` by one: moves the cursor one grapheme to the
/// right and says whether it moved.
#[verifier::external_body]
pub(crate) fn line_move_forward(line: &mut LineBuffer) -> (moved: bool)
    requires
        cursor_ok(*old(line)),
    ensures
        line_text(*final(line)) == line_text(*old(line)),
        line_pos(*final(line)) == pos_after_right(line_text(*old(line)), line_pos(*old(line))),
        moved == (line_pos(*final(line)) != line_pos(*old(line))),
        cursor_ok(*final(line)),
{
    line.move_forward(1)
}

/// `LineBuffer::move_home`: moves the cursor to the start of its line and
/// says whether it moved.
#[verifier::external_body]
pub(crate) fn line_move_home(line: &mut LineBuffer) -> (moved: bool)
    requires
        cursor_ok(*old(line)),
    ensures
        line_text(*final(line)) == line_text(*old(line)),
        line_pos(*final(line)) == pos_after_home(line_text(*old(line)), line_pos(*old(line))),
        moved == (line_pos(*final(line)) != line_pos(*old(line))),
        cursor_ok(*final(line)),
{
    line.move_home()
}

/// `LineBuffer::move_end`: moves the cursor to the end of its line and says
/// whether it moved.
#[verifier::external_body]
pub(crate) fn line_move_end(line: &mut LineBuffer) -> (moved: bool)
    requires
        cursor_ok(*old(line)),
    ensures
        line_text(*final(line)) == line_text(*old(line)),
        line_pos(*final(line)) == pos_after_end(line_text(*old(line)), line_pos(*old(line))),
        moved == (line_pos(*final(line)) != line_pos(*old(line))),
        cursor_ok(*final(line)),
{
    line.move_end()
}

/// `LineBuffer::insert` of one character at the cursor. The buffer refuses
/// it when its capacity is used up, and is then unchanged; otherwise the text
/// has the character at one more place and the cursor stands behind it.
#[verifier::external_body]
pub(crate) fn line_insert(line: &mut LineBuffer, ch: char) -> (inserted: bool)
    requires
        cursor_ok(*old(line)),
    ensures
        !inserted ==> line_text(*final(line)) == line_text(*old(line)) && line_pos(*final(line))
            == line_pos(*old(line)),
        inserted ==> line_pos(*final(line)) > line_pos(*old(line)) && exists|k: int|
            0 <= k <= line_text(*old(line)).len() && line_text(*final(line)) == line_text(
                *old(line),
            ).insert(k, ch),
        cursor_ok(*final(line)),
{
    line.insert(ch, 1).is_some()
}

/// `Completer::update` as `FilenameCompleter` has it: replaces the bytes from
/// `start` to the cursor by `elected` and puts the cursor behind them.
#[verifier::external_body]
pub(crate) fn line_elect(line: &mut LineBuffer, start: usize, elected: &str)
    requires
        cursor_ok(*old(line)),
        start <= line_pos(*old(line)),
        on_boundary(line_text(*old(line)), start as nat),
    ensures
        line_text(*final(line)) == after_replace(
            line_text(*old(line)),
            line_pos(*old(line)),
            start as nat,
            elected@,
        ),
        line_pos(*final(line)) == start + encode_utf8(elected@).len(),
        cursor_ok(*final(line)),
{
    let completer = rustyline::completion::FilenameCompleter::new();
    rustyline::completion::Completer::update(&completer, line, start, elected);
}

} // verus!
