//! Dialogs and full-screen frames drawn over the panels: what they hold and
//! where they stand.
use vstd::prelude::*;

use crate::text::{chars_of, lines, lines_of, push_char};

verus! {

#[derive(Debug, Clone, Copy, PartialEq, Eq, Structural)]
pub enum OverlayButton {
    Yes,
    No,
    Okay,
    Cancel,
}

#[derive(Debug)]
pub enum OverlayDialogKind {
    Confirm,
    Input { password: bool, placeholder: Option<String> },
    Message,
}

/// A dialog: a title, a message, its kind, what has been typed, and whether
/// the primary button (Yes or OK) is selected.
#[derive(Debug)]
pub struct OverlayDialog {
    pub title: String,
    pub message: String,
    pub kind: OverlayDialogKind,
    pub input: String,
    pub selected_is_primary: bool,
}

/// A scrollable frame of rows `(key, action, is_header)`.
#[derive(Debug)]
pub struct OverlayFrame {
    pub title: String,
    pub lines: Vec<(String, String, bool)>,
    pub scroll: u16,
}

impl OverlayFrame {
    pub fn copy(&self) -> (r: OverlayFrame)
        ensures
            r.title == self.title,
            r.lines@ == self.lines@,
            r.scroll == self.scroll,
    {
        let mut lines: Vec<(String, String, bool)> = Vec::new();
        let mut i: usize = 0;
        while i < self.lines.len()
            invariant
                i <= self.lines@.len(),
                lines@ == self.lines@.take(i as int),
            decreases self.lines@.len() - i,
        {
            let l = &self.lines[i];
            let a = l.0.clone();
            let b = l.1.clone();
            assert(a == l.0 && b == l.1);
            lines.push((a, b, l.2));
            i += 1;
            assert(lines@ =~= self.lines@.take(i as int));
        }
        assert(self.lines@.take(self.lines@.len() as int) =~= self.lines@);
        OverlayFrame { title: self.title.clone(), lines, scroll: self.scroll }
    }
}

/// A rectangle of terminal cells.
#[derive(Debug, Clone, Copy, PartialEq, Eq, Structural)]
pub struct Area {
    pub x: u16,
    pub y: u16,
    pub width: u16,
    pub height: u16,
}

/// A rectangle of the given size centred in `r`, cut to fit it.
pub fn centered_rect_exact(width: u16, height: u16, r: Area) -> (out: Area)
    requires
        r.x + r.width <= u16::MAX,
        r.y + r.height <= u16::MAX,
    ensures
        out.x == r.x + (if r.width > width { r.width - width } else { 0 }) / 2,
        out.y == r.y + (if r.height > height { r.height - height } else { 0 }) / 2,
        out.width == if width < r.width { width } else { r.width },
        out.height == if height < r.height { height } else { r.height },
        out.x + out.width <= r.x + r.width,
        out.y + out.height <= r.y + r.height,
{
    let x = r.x + r.width.saturating_sub(width) / 2;
    let y = r.y + r.height.saturating_sub(height) / 2;
    Area { x, y, width: if width < r.width { width } else { r.width }, height: if height < r.height { height } else { r.height } }
}

/// The widest line of a text in characters, cut to 16 bits as the layout
/// counts it; `18` for a text without lines.
pub open spec fn widest_line(ls: Seq<Seq<char>>) -> int
    decreases ls.len(),
{
    if ls.len() == 0 {
        18
    } else if ls.len() == 1 {
        ls[0].len() as u16 as int
    } else {
        let rest = widest_line(ls.drop_last());
        let w = ls.last().len() as u16 as int;
        if w > rest { w } else { rest }
    }
}

/// The rectangle of a dialog with the text `text` in `area`: wide enough for
/// the widest line and a margin, at most 60% of the area but at least 28
/// cells; high enough for the lines and ten more, at most the area's height
/// less two but at least 10 rows; centred.
pub fn fit_centered_dialog(area: Area, text: &str) -> (r: Area)
    requires
        area.x + area.width <= u16::MAX,
        area.y + area.height <= u16::MAX,
        widest_line(lines_of(text@)) + 16 <= u16::MAX,
        lines_of(text@).len() as u16 + 10 <= u16::MAX,
    ensures
        ({
            let max_w = {
                let m = (if area.width as int * 60 > u16::MAX { u16::MAX as int } else { area.width as int * 60 }) / 100;
                if m > 28 { m } else { 28 }
            };
            let line_w = widest_line(lines_of(text@));
            let w0 = if line_w + 16 < max_w { line_w + 16 } else { max_w };
            let w = if w0 > 28 { w0 } else { 28 };
            let avail = if area.height > 2 { area.height - 2 } else { 0 };
            let h0 = (lines_of(text@).len() as u16 as int) + 10;
            let h1 = if h0 < avail { h0 } else { avail as int };
            let h = if h1 > 10 { h1 } else { 10 };
            r == centered_rect_exact_spec(w as u16, h as u16, area)
        }),
{
    let ls = lines(text);
    let prod: u32 = area.width as u32 * 60;
    let capped: u16 = if prod > 65535 { 65535 } else { prod as u16 };
    let scaled: u16 = capped / 100;
    let max_w: u16 = if scaled > 28 { scaled } else { 28 };
    let mut line_w: u16 = 18;
    if ls.len() > 0 {
        let mut i: usize = 0;
        line_w = 0;
        while i < ls.len()
            invariant
                0 < ls@.len(),
                i <= ls@.len(),
                ls@.len() == lines_of(text@).len(),
                forall|k: int| 0 <= k < ls@.len() ==> (#[trigger] ls@[k])@ == lines_of(text@)[k],
                i == 0 ==> line_w == 0,
                i > 0 ==> line_w as int == widest_line(lines_of(text@).take(i as int)),
            decreases ls@.len() - i,
        {
            let n: usize = chars_of(ls[i].as_str()).len();
            let w: u16 = n as u16;
            let ghost t = lines_of(text@).take(i + 1);
            assert(t.drop_last() =~= lines_of(text@).take(i as int));
            if i == 0 || w > line_w {
                line_w = w;
            }
            i += 1;
        }
        assert(lines_of(text@).take(ls@.len() as int) =~= lines_of(text@));
    }
    let grown: u16 = line_w + 16;
    let w0: u16 = if grown < max_w { grown } else { max_w };
    let w: u16 = if w0 > 28 { w0 } else { 28 };
    let count: u16 = ls.len() as u16;
    let h0: u16 = count + 10;
    let avail: u16 = area.height.saturating_sub(2);
    let h1: u16 = if h0 < avail { h0 } else { avail };
    let h: u16 = if h1 > 10 { h1 } else { 10 };
    centered_rect_exact(w, h, area)
}

pub open spec fn centered_rect_exact_spec(width: u16, height: u16, r: Area) -> Area {
    Area {
        x: (r.x + (if r.width > width { r.width - width } else { 0 }) / 2) as u16,
        y: (r.y + (if r.height > height { r.height - height } else { 0 }) / 2) as u16,
        width: if width < r.width { width } else { r.width },
        height: if height < r.height { height } else { r.height },
    }
}

/// The text shown in an input field: the placeholder (or nothing) while
/// nothing is typed, one `*` per character for a password, else the input.
pub open spec fn shown_input_of(input: Seq<char>, password: bool, placeholder: Option<Seq<char>>) -> Seq<char> {
    if input.len() == 0 {
        match placeholder {
            Some(p) => p,
            None => Seq::empty(),
        }
    } else if password {
        Seq::new(input.len(), |i: int| '*')
    } else {
        input
    }
}

pub fn shown_input(input: &str, password: bool, placeholder: &Option<String>) -> (r: String)
    ensures
        r@ == shown_input_of(input@, password, match placeholder { Some(p) => Some(p@), None => None }),
{
    let cs = chars_of(input);
    if cs.len() == 0 {
        match placeholder {
            Some(p) => p.clone(),
            None => String::new(),
        }
    } else if password {
        let mut out = String::new();
        let mut i: usize = 0;
        while i < cs.len()
            invariant
                i <= cs@.len(),
                out@ == Seq::new(i as nat, |k: int| '*'),
            decreases cs@.len() - i,
        {
            push_char(&mut out, '*');
            i += 1;
            assert(out@ =~= Seq::new(i as nat, |k: int| '*'));
        }
        out
    } else {
        input.to_owned()
    }
}

/// The buttons of a dialog, left to right, each with whether it is
/// selected: OK alone for a message, Yes and No for a confirmation, OK and
/// Cancel for an input.
pub fn dialog_buttons(kind: &OverlayDialogKind, selected_is_primary: bool) -> (r: Vec<(OverlayButton, bool)>)
    ensures
        r@ == match kind {
            OverlayDialogKind::Message => seq![(OverlayButton::Okay, true)],
            OverlayDialogKind::Confirm => seq![(OverlayButton::Yes, selected_is_primary), (OverlayButton::No, !selected_is_primary)],
            OverlayDialogKind::Input { .. } => seq![(OverlayButton::Okay, selected_is_primary), (OverlayButton::Cancel, !selected_is_primary)],
        },
{
    match kind {
        OverlayDialogKind::Message => vec![(OverlayButton::Okay, true)],
        OverlayDialogKind::Confirm => vec![(OverlayButton::Yes, selected_is_primary), (OverlayButton::No, !selected_is_primary)],
        OverlayDialogKind::Input { .. } => vec![(OverlayButton::Okay, selected_is_primary), (OverlayButton::Cancel, !selected_is_primary)],
    }
}

/// The label of a button.
pub fn button_label(b: OverlayButton) -> (r: &'static str)
    ensures
        r@ == match b {
            OverlayButton::Yes => "▐ Yes ▌"@,
            OverlayButton::No => "▐ No ▌"@,
            OverlayButton::Okay => "▐ OK ▌"@,
            OverlayButton::Cancel => "▐ Cancel ▌"@,
        },
{
    match b {
        OverlayButton::Yes => "▐ Yes ▌",
        OverlayButton::No => "▐ No ▌",
        OverlayButton::Okay => "▐ OK ▌",
        OverlayButton::Cancel => "▐ Cancel ▌",
    }
}

/// How far a frame of `rows` rows scrolls in a window of `height` rows: as
/// asked, but never past the last full window (the row count cut to 16 bits
/// as the layout counts it).
pub fn frame_scroll(rows: usize, height: u16, scroll: u16) -> (r: u16)
    ensures
        r == ({
            let max_scroll = (if rows > height { rows - height } else { 0 }) as u16;
            if scroll < max_scroll { scroll } else { max_scroll }
        }),
{
    let over: usize = rows.saturating_sub(height as usize);
    let max_scroll: u16 = over as u16;
    if scroll < max_scroll { scroll } else { max_scroll }
}

} // verus!
