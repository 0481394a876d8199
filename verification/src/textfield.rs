//! The one-line text field at the bottom of the screen: its settings, where
//! it and its menu are drawn, and what each key does to the edited line.

use vstd::prelude::*;
use vstd::string::*;
use vstd::utf8::*;
use rustyline::line_buffer::LineBuffer;
use crate::line::{
    after_backspace, after_delete, after_replace, cursor_ok, joint_on_boundary, line_backspace,
    line_cursor, line_delete, line_elect, line_insert, line_move_backward, line_move_end,
    line_move_forward, line_move_home, line_pos, line_prepend, line_set_pos, line_string,
    line_text, line_with_capacity, on_boundary, pos_after_end, pos_after_home, pos_after_left,
    pos_after_right,
};
use crate::text::{sort_texts, texts_ordered};

verus! {

/// A rectangle of the screen, in cells.
#[derive(Clone, Copy, Debug, PartialEq, Eq, Structural)]
pub struct Rect {
    pub x: u16,
    pub y: u16,
    pub width: u16,
    pub height: u16,
}

/// The menu shown above the text field: one line for each option.
#[derive(Clone, Copy, Debug)]
pub struct TuiMenu<'a> {
    options: &'a Vec<String>,
}

impl<'a> TuiMenu<'a> {
    /// The options of the menu.
    pub closed spec fn options(&self) -> Seq<String> {
        self.options@
    }

    /// A menu of `options`.
    pub fn new(options: &'a Vec<String>) -> (menu: Self)
        ensures
            menu.options() == options@,
    {
        TuiMenu { options }
    }

    /// The number of lines of the menu.
    pub fn len(&self) -> (n: usize)
        ensures
            n == self.options().len(),
    {
        self.options.len()
    }
}

/// The settings of a text field.
pub struct TuiTextField<'a> {
    _prompt: &'a str,
    _prefix: &'a str,
    _suffix: &'a str,
    _menu: Option<TuiMenu<'a>>,
}

impl<'a> TuiTextField<'a> {
    /// The text shown in front of the line.
    pub closed spec fn prompt_text(&self) -> Seq<char> {
        self._prompt@
    }

    /// The text that the line starts with, left of the cursor.
    pub closed spec fn prefix_text(&self) -> Seq<char> {
        self._prefix@
    }

    /// The text that the line starts with, right of the cursor.
    pub closed spec fn suffix_text(&self) -> Seq<char> {
        self._suffix@
    }

    /// The menu shown with the field.
    pub closed spec fn menu_shown(&self) -> Option<TuiMenu<'a>> {
        self._menu
    }

    /// Shows `menu` with the field.
    pub fn menu(self, menu: TuiMenu<'a>) -> (field: Self)
        ensures
            field.menu_shown() == Some(menu),
            field.prompt_text() == self.prompt_text(),
            field.prefix_text() == self.prefix_text(),
            field.suffix_text() == self.suffix_text(),
    {
        TuiTextField {
            _prompt: self._prompt,
            _prefix: self._prefix,
            _suffix: self._suffix,
            _menu: Some(menu),
        }
    }

    /// Sets the text shown in front of the line.
    pub fn prompt(self, prompt: &'a str) -> (field: Self)
        ensures
            field.prompt_text() == prompt@,
            field.prefix_text() == self.prefix_text(),
            field.suffix_text() == self.suffix_text(),
            field.menu_shown() == self.menu_shown(),
    {
        TuiTextField {
            _prompt: prompt,
            _prefix: self._prefix,
            _suffix: self._suffix,
            _menu: self._menu,
        }
    }

    /// Sets the text left of the cursor.
    pub fn prefix(self, prefix: &'a str) -> (field: Self)
        ensures
            field.prefix_text() == prefix@,
            field.prompt_text() == self.prompt_text(),
            field.suffix_text() == self.suffix_text(),
            field.menu_shown() == self.menu_shown(),
    {
        TuiTextField {
            _prompt: self._prompt,
            _prefix: prefix,
            _suffix: self._suffix,
            _menu: self._menu,
        }
    }

    /// Sets the text right of the cursor.
    pub fn suffix(self, suffix: &'a str) -> (field: Self)
        ensures
            field.suffix_text() == suffix@,
            field.prompt_text() == self.prompt_text(),
            field.prefix_text() == self.prefix_text(),
            field.menu_shown() == self.menu_shown(),
    {
        TuiTextField {
            _prompt: self._prompt,
            _prefix: self._prefix,
            _suffix: suffix,
            _menu: self._menu,
        }
    }

    /// The prompt.
    pub fn prompt_str(&self) -> (prompt: &'a str)
        ensures
            prompt@ == self.prompt_text(),
    {
        self._prompt
    }

    /// Takes the menu out of the field: it is drawn once.
    pub fn take_menu(&mut self) -> (menu: Option<TuiMenu<'a>>)
        ensures
            menu == old(self).menu_shown(),
            final(self).menu_shown() is None,
            final(self).prompt_text() == old(self).prompt_text(),
            final(self).prefix_text() == old(self).prefix_text(),
            final(self).suffix_text() == old(self).suffix_text(),
    {
        self._menu.take()
    }

    /// The line that the field starts with: prefix and suffix, the cursor
    /// between them.
    pub fn start_input(&self) -> (input: TextInput)
        ensures
            input.wf(),
            input.text() == self.prefix_text() + self.suffix_text(),
            input.tracker() is None,
            input.cursor() == encode_utf8(self.prefix_text()).len(),
    {
        TextInput::new(self._prefix, self._suffix)
    }
}

impl<'a> Default for TuiTextField<'a> {
    fn default() -> (field: Self)
        ensures
            field.prompt_text() == ""@,
            field.prefix_text() == ""@,
            field.suffix_text() == ""@,
            field.menu_shown() is None,
    {
        Self { _prompt: "", _prefix: "", _suffix: "", _menu: None }
    }
}

/// Where a menu of `menu_len` lines is drawn on a screen of the given size:
/// two rows above the bottom where it fits, else from the top.
pub open spec fn menu_area(menu_len: nat, width: u16, height: u16) -> Rect {
    Rect {
        x: 0,
        y: if menu_len + 2 > height {
            0u16
        } else {
            (height - menu_len - 2) as u16
        },
        width: width,
        height: (menu_len % 0x10000) as u16,
    }
}

/// Where a menu of `menu_len` lines is drawn.
pub fn menu_rect(menu_len: usize, width: u16, height: u16) -> (rect: Rect)
    ensures
        rect == menu_area(menu_len as nat, width, height),
{
    let rows: usize = height as usize;
    let y: u16 = if rows < 2 || menu_len > rows - 2 {
        0
    } else {
        (rows - menu_len - 2) as u16
    };
    Rect { x: 0, y, width, height: (menu_len % 0x10000) as u16 }
}

/// Where the edited line is drawn: the bottom row. A screen without rows
/// shows nothing.
pub fn field_rect(width: u16, height: u16) -> (rect: Option<Rect>)
    ensures
        rect == (if height == 0 {
            None::<Rect>
        } else {
            Some(Rect { x: 0, y: (height - 1) as u16, width: width, height: 1 })
        }),
{
    if height == 0 {
        None
    } else {
        Some(Rect { x: 0, y: height - 1, width, height: 1 })
    }
}

/// A key as the text field sees it.
#[derive(Clone, Copy, Debug, PartialEq, Eq, Structural)]
pub enum Key {
    Backspace,
    Left,
    Right,
    Delete,
    Home,
    End,
    Up,
    Down,
    Esc,
    Char(char),
    Other,
}

/// What the caller does after a key.
#[derive(Clone, Copy, Debug, PartialEq, Eq, Structural)]
pub enum KeyVerdict {
    /// Draw again and read the next key.
    Continue,
    /// The input was given up.
    Cancelled,
    /// The line is complete.
    Submitted,
    /// Look up the completions of the line and offer them.
    WantsCandidates,
}

/// The completions of one lookup, and which of them comes next.
pub struct CompletionTracker {
    pub index: usize,
    pub pos: usize,
    pub original: String,
    pub candidates: Vec<String>,
}

impl CompletionTracker {
    /// A tracker on the first of `candidates`, which replace the line from
    /// byte offset `pos`; `original` is the line as it was looked up.
    pub fn new(pos: usize, candidates: Vec<String>, original: String) -> (tracker: Self)
        ensures
            tracker.index == 0,
            tracker.pos == pos,
            tracker.original == original,
            tracker.candidates == candidates,
    {
        CompletionTracker { index: 0, pos, original, candidates }
    }
}

/// The verdict on `key`, given whether completions are being cycled.
pub open spec fn verdict_of(key: Key, cycling: bool) -> KeyVerdict {
    match key {
        Key::Esc => KeyVerdict::Cancelled,
        Key::Char(c) => if c == '\n' {
            KeyVerdict::Submitted
        } else if c == '\t' && !cycling {
            KeyVerdict::WantsCandidates
        } else {
            KeyVerdict::Continue
        },
        _ => KeyVerdict::Continue,
    }
}

/// Text and cursor after an editing key that always applies.
pub open spec fn after_edit(key: Key, text: Seq<char>, pos: nat) -> (Seq<char>, nat) {
    match key {
        Key::Backspace => after_backspace(text, pos),
        Key::Delete => (after_delete(text, pos), pos),
        Key::Left => (text, pos_after_left(text, pos)),
        Key::Right => (text, pos_after_right(text, pos)),
        Key::Home => (text, pos_after_home(text, pos)),
        Key::End => (text, pos_after_end(text, pos)),
        _ => (text, pos),
    }
}

/// Whether `key` edits the line or moves the cursor in every state.
pub open spec fn is_edit(key: Key) -> bool {
    key is Backspace || key is Delete || key is Left || key is Right || key is Home || key is End
}

/// Whether a candidate can replace the line from byte offset `start`.
pub open spec fn can_elect(text: Seq<char>, pos: nat, start: nat) -> bool {
    start <= pos && on_boundary(text, start)
}

/// The line being edited, and the completions being cycled through.
pub struct TextInput {
    line: LineBuffer,
    tracker: Option<CompletionTracker>,
}

impl TextInput {
    /// The text of the line.
    pub closed spec fn text(&self) -> Seq<char> {
        line_text(self.line)
    }

    /// The byte offset of the cursor.
    pub closed spec fn cursor(&self) -> nat {
        line_pos(self.line)
    }

    /// The completions being cycled through.
    pub closed spec fn tracker(&self) -> Option<CompletionTracker> {
        self.tracker
    }

    /// The cursor stands on a character boundary of the text.
    pub closed spec fn wf(&self) -> bool {
        cursor_ok(self.line)
    }

    /// The line `prefix` + `suffix` with the cursor between the two: its
    /// offset is the length of `prefix` in bytes.
    pub fn new(prefix: &str, suffix: &str) -> (input: Self)
        ensures
            input.wf(),
            input.text() == prefix@ + suffix@,
            input.tracker() is None,
            input.cursor() == encode_utf8(prefix@).len(),
    {
        let mut line = line_with_capacity(255);
        line_prepend(&mut line, suffix);
        line_prepend(&mut line, prefix);
        assert(line_text(line) =~= prefix@ + suffix@) by {
            assert(suffix@ + Seq::<char>::empty() =~= suffix@);
        }
        let at: usize = prefix.as_bytes().len();
        proof {
            joint_on_boundary(prefix@, suffix@);
        }
        line_set_pos(&mut line, at);
        TextInput { line, tracker: None }
    }

    /// The text of the line.
    pub fn line(&self) -> (text: String)
        ensures
            text@ == self.text(),
    {
        line_string(&self.line)
    }

    /// The byte offset of the cursor.
    pub fn position(&self) -> (pos: usize)
        ensures
            pos == self.cursor(),
    {
        line_cursor(&self.line)
    }

    /// Whether completions are being cycled through.
    pub fn is_cycling(&self) -> (cycling: bool)
        ensures
            cycling == (self.tracker() is Some),
    {
        self.tracker.is_some()
    }

    /// Puts the next completion into the line, if one is left and the line
    /// can take it from the tracker's offset.
    fn cycle(&mut self)
        requires
            old(self).wf(),
        ensures
            final(self).wf(),
            cycled(*old(self), *final(self)),
    {
        let tracker = self.tracker.take();
        match tracker {
            Some(mut t) => {
                if t.index < t.candidates.len() {
                    let text = line_string(&self.line);
                    let pos = line_cursor(&self.line);
                    if t.pos <= pos && text.as_str().is_char_boundary(t.pos) {
                        line_elect(&mut self.line, t.pos, t.candidates[t.index].as_str());
                    }
                    t.index = t.index + 1;
                }
                self.tracker = Some(t);
            },
            None => {},
        }
    }

    /// Applies one key to the line. The keys that edit or move reset the
    /// completions when they changed anything, Home and End always; a
    /// character is inserted where the buffer has room for it; Tab cycles
    /// through the completions, or asks for them where there are none.
    pub fn handle_key(&mut self, key: Key) -> (verdict: KeyVerdict)
        requires
            old(self).wf(),
        ensures
            final(self).wf(),
            verdict == verdict_of(key, old(self).tracker() is Some),
            is_edit(key) ==> {
                &&& (final(self).text(), final(self).cursor()) == after_edit(
                    key,
                    old(self).text(),
                    old(self).cursor(),
                )
                &&& final(self).tracker() == (if key is Home || key is End || final(self).text()
                    != old(self).text() || final(self).cursor() != old(self).cursor() {
                    None
                } else {
                    old(self).tracker()
                })
            },
            key is Up || key is Down || key is Esc || key is Other || key == Key::Char('\n')
                ==> *final(self) == *old(self),
            key == Key::Char('\t') ==> cycled(*old(self), *final(self)),
            key is Char && key != Key::Char('\t') && key != Key::Char('\n') ==> typed(
                *old(self),
                *final(self),
                key->Char_0,
            ),
    {
        match key {
            Key::Backspace => {
                if line_backspace(&mut self.line) {
                    self.tracker = None;
                }
                KeyVerdict::Continue
            },
            Key::Left => {
                if line_move_backward(&mut self.line) {
                    self.tracker = None;
                }
                KeyVerdict::Continue
            },
            Key::Right => {
                if line_move_forward(&mut self.line) {
                    self.tracker = None;
                }
                KeyVerdict::Continue
            },
            Key::Delete => {
                if line_delete(&mut self.line) {
                    self.tracker = None;
                }
                KeyVerdict::Continue
            },
            Key::Home => {
                line_move_home(&mut self.line);
                self.tracker = None;
                KeyVerdict::Continue
            },
            Key::End => {
                line_move_end(&mut self.line);
                self.tracker = None;
                KeyVerdict::Continue
            },
            Key::Up => KeyVerdict::Continue,
            Key::Down => KeyVerdict::Continue,
            Key::Other => KeyVerdict::Continue,
            Key::Esc => KeyVerdict::Cancelled,
            Key::Char(c) => {
                if c == '\n' {
                    KeyVerdict::Submitted
                } else if c == '\t' {
                    if self.tracker.is_none() {
                        KeyVerdict::WantsCandidates
                    } else {
                        self.cycle();
                        KeyVerdict::Continue
                    }
                } else {
                    if line_insert(&mut self.line, c) {
                        self.tracker = None;
                    }
                    KeyVerdict::Continue
                }
            },
        }
    }

    /// Takes the completions that a lookup found for the line, in the order
    /// of their code points, and puts the first into the line. A lookup that
    /// failed (`None`) changes nothing.
    pub fn offer_candidates(&mut self, found: Option<(usize, Vec<String>)>)
        requires
            old(self).wf(),
        ensures
            final(self).wf(),
            found is None ==> *final(self) == *old(self),
            found is Some ==> exists|sorted: Vec<String>|
                {
                    &&& sorted@.to_multiset() == found.unwrap().1@.to_multiset()
                    &&& texts_ordered(sorted@)
                    &&& #[trigger] elected_first(*old(self), *final(self), found.unwrap().0, sorted)
                },
    {
        match found {
            Some((pos, candidates)) => {
                let candidates = sort_texts(candidates);
                let original = line_string(&self.line);
                let ghost sorted = candidates;
                let ghost before = *self;
                self.tracker = Some(CompletionTracker::new(pos, candidates, original));
                self.cycle();
                assert(elected_first(before, *self, pos, sorted));
            },
            None => {},
        }
    }

    /// Ends the input: the line, or nothing where it is empty.
    pub fn finish(self) -> (input: Option<String>)
        ensures
            match input {
                Some(text) => text@ == self.text() && text@.len() > 0,
                None => self.text().len() == 0,
            },
    {
        let text = line_string(&self.line);
        if text.as_str().is_empty() {
            None
        } else {
            Some(text)
        }
    }
}

/// Whether two inputs hold the same text, cursor and completions.
pub open spec fn same_input(before: TextInput, after: TextInput) -> bool {
    &&& after.text() == before.text()
    &&& after.cursor() == before.cursor()
    &&& after.tracker() == before.tracker()
}

/// How a Tab that finds completions changes the input: the next candidate
/// replaces the line from the tracker's offset to the cursor, where the line
/// can take it there, and the tracker moves on; with no candidate left, or
/// with no tracker, nothing changes.
pub open spec fn cycled(before: TextInput, after: TextInput) -> bool {
    match before.tracker() {
        None => same_input(before, after),
        Some(t) => if t.index < t.candidates@.len() {
            &&& after.tracker() is Some
            &&& after.tracker().unwrap().index == t.index + 1
            &&& after.tracker().unwrap().pos == t.pos
            &&& after.tracker().unwrap().original == t.original
            &&& after.tracker().unwrap().candidates == t.candidates
            &&& if can_elect(before.text(), before.cursor(), t.pos as nat) {
                &&& after.text() == after_replace(
                    before.text(),
                    before.cursor(),
                    t.pos as nat,
                    t.candidates@[t.index as int]@,
                )
                &&& after.cursor() == t.pos + encode_utf8(t.candidates@[t.index as int]@).len()
            } else {
                &&& after.text() == before.text()
                &&& after.cursor() == before.cursor()
            }
        } else {
            &&& after.text() == before.text()
            &&& after.cursor() == before.cursor()
            &&& after.tracker() == before.tracker()
        },
    }
}

/// How typing `c` changes the input: where the buffer has room, `c` stands
/// at one more place of the text, the cursor is further right and the
/// completions are reset; where it has none, nothing changes.
pub open spec fn typed(before: TextInput, after: TextInput, c: char) -> bool {
    ||| same_input(before, after)
    ||| {
        &&& after.tracker() is None
        &&& after.cursor() > before.cursor()
        &&& exists|k: int|
            0 <= k <= before.text().len() && after.text() == before.text().insert(k, c)
    }
}

/// How offered completions change the input: a tracker on them, made from
/// the line as it was, then one step of cycling.
pub open spec fn elected_first(
    before: TextInput,
    after: TextInput,
    pos: usize,
    sorted: Vec<String>,
) -> bool {
    exists|mid: TextInput|
        {
            &&& mid.text() == before.text()
            &&& mid.cursor() == before.cursor()
            &&& mid.tracker() is Some
            &&& mid.tracker().unwrap().index == 0
            &&& mid.tracker().unwrap().pos == pos
            &&& mid.tracker().unwrap().original@ == before.text()
            &&& mid.tracker().unwrap().candidates == sorted
            &&& #[trigger] cycled(mid, after)
        }
}

} // verus!
