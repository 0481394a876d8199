//! The status line under the listing: what it says of the entry under the
//! cursor.

use vstd::prelude::*;
use vstd::string::*;
use crate::fs::{DirEntryInfo, FileKind};

verus! {

/// One run of text of the status line.
#[derive(Clone, Debug, PartialEq, Eq)]
pub struct FooterSpan {
    pub text: String,
    /// Whether the run is drawn in the accent colour.
    pub highlighted: bool,
}

/// The footer of one entry.
pub struct TuiFooter<'a> {
    entry: &'a DirEntryInfo,
}

/// The content type shown for an entry: empty where none is known.
pub open spec fn mimetype_text(entry: DirEntryInfo) -> Seq<char> {
    match entry.mimetype {
        Some(s) => s@,
        None => Seq::<char>::empty(),
    }
}

/// Whether the footer ends in an arrow and the link's target.
pub open spec fn shows_target(entry: DirEntryInfo) -> bool {
    entry.kind == FileKind::Symlink && entry.link_target is Some
}

/// The runs of the status line, with the accent flag of each: permissions,
/// modification time, size and content type, two blanks between them, and for
/// a link an arrow and its target.
pub open spec fn footer_runs(
    entry: DirEntryInfo,
    mode: Seq<char>,
    mtime: Seq<char>,
    size: Seq<char>,
) -> Seq<(Seq<char>, bool)> {
    let base = seq![
        (mode, true),
        ("  "@, false),
        (mtime, false),
        ("  "@, false),
        (size, false),
        ("  "@, false),
        (mimetype_text(entry), false),
    ];
    if shows_target(entry) {
        base.push((" -> "@, true)).push((entry.link_target.unwrap()@, true))
    } else {
        base
    }
}

impl<'a> TuiFooter<'a> {
    /// The entry that the footer describes.
    pub closed spec fn entry(&self) -> DirEntryInfo {
        *self.entry
    }

    /// The footer of `entry`.
    pub fn new(entry: &'a DirEntryInfo) -> (footer: Self)
        ensures
            footer.entry() == *entry,
    {
        Self { entry }
    }

    /// The runs of the status line, given the entry's permissions,
    /// modification time and size as text.
    pub fn spans(&self, mode: String, mtime: String, size: String) -> (spans: Vec<FooterSpan>)
        ensures
            spans@.len() == footer_runs(self.entry(), mode@, mtime@, size@).len(),
            forall|i: int|
                0 <= i < spans@.len() ==> (#[trigger] spans@[i]).text@ == footer_runs(
                    self.entry(),
                    mode@,
                    mtime@,
                    size@,
                )[i].0 && spans@[i].highlighted == footer_runs(
                    self.entry(),
                    mode@,
                    mtime@,
                    size@,
                )[i].1,
    {
        let mimetype = match &self.entry.mimetype {
            Some(s) => s.clone(),
            None => String::new(),
        };
        let mut spans: Vec<FooterSpan> = Vec::new();
        spans.push(FooterSpan { text: mode, highlighted: true });
        spans.push(FooterSpan { text: String::from_str("  "), highlighted: false });
        spans.push(FooterSpan { text: mtime, highlighted: false });
        spans.push(FooterSpan { text: String::from_str("  "), highlighted: false });
        spans.push(FooterSpan { text: size, highlighted: false });
        spans.push(FooterSpan { text: String::from_str("  "), highlighted: false });
        spans.push(FooterSpan { text: mimetype, highlighted: false });
        match self.entry.kind {
            FileKind::Symlink => match &self.entry.link_target {
                Some(target) => {
                    spans.push(FooterSpan { text: String::from_str(" -> "), highlighted: true });
                    spans.push(FooterSpan { text: target.clone(), highlighted: true });
                },
                None => {},
            },
            _ => {},
        }
        spans
    }
}

} // verus!
