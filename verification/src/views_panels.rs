//! What the preview column, the global results, the sidebar and the
//! details panel show.
use vstd::prelude::*;

use crate::app_session::{in_slot, slot_index, find_slot, bookmark_matches_slot};
use crate::app_state::{App, SearchMode};
use crate::entries::{scroll_start, DirColumn};
use crate::paths::{home_relative, image_extension, last_segment, path_extension, opt_str_view};
use crate::preview::{ImageProtocol, PreviewImageConfig};
use crate::text::{concat, decimal, with_char, with_number};
use crate::views::Paint;
use crate::views_columns::{row_text, scroll_start_spec, ColumnBody, ColumnView, RowView};

verus! {

pub open spec fn named(s: String) -> Paint {
    Paint::Named(s)
}

impl App {
    /// The last column, which previews the directory under the cursor
    /// (`preview`, as read): blank with a single column or without a
    /// directory under the cursor; the no-permission mascot where it cannot
    /// be read; the empty directory mascot where it is empty; else its
    /// entries in plain text, titled by its name.
    pub fn preview_column_view(&self, preview: &DirColumn) -> (r: ColumnView)
        ensures
            r.border == named(self.effective.theme_colors.vars.defult_panel_border),
            r.scrollbar is None,
            (self.columns@.len() <= 1 || self.selected_dir_spec() is None) ==> r.body is Blank && r.title is None,
            (self.columns@.len() > 1 && self.selected_dir_spec() is Some) ==> {
                if preview.permission_denied {
                    r.body matches ColumnBody::NoPerms(p) && p == preview.path
                } else if preview.entries@.len() == 0 {
                    r.body is EmptyDir
                } else {
                    &&& r.title matches Some(t) && t@ == "/"@ + last_segment(self.selected_dir_spec()->0@)
                    &&& r.body matches ColumnBody::Rows(v) && v@.len() == preview.entries@.len()
                        && forall|k: int| 0 <= k < v@.len() ==> (#[trigger] v@[k]).text@ == row_text(preview.entries@[k])
                            && v@[k].fg == named(self.effective.theme_colors.vars.defult_text) && v@[k].bg is None
                }
            },
    {
        let border = Paint::Named(self.effective.theme_colors.vars.defult_panel_border.clone());
        if self.columns.len() <= 1 {
            return ColumnView { title: None, title_paint: None, border, body: ColumnBody::Blank, scrollbar: None };
        }
        let dir = match self.selected_dir_path() {
            Some(d) => d,
            None => return ColumnView { title: None, title_paint: None, border, body: ColumnBody::Blank, scrollbar: None },
        };
        if preview.permission_denied {
            return ColumnView { title: None, title_paint: None, border, body: ColumnBody::NoPerms(preview.path.clone()), scrollbar: None };
        }
        if preview.entries.len() == 0 {
            return ColumnView { title: None, title_paint: None, border, body: ColumnBody::EmptyDir, scrollbar: None };
        }
        let mut rows: Vec<RowView> = Vec::new();
        let mut i: usize = 0;
        while i < preview.entries.len()
            invariant
                i <= preview.entries@.len(),
                rows@.len() == i,
                forall|k: int| 0 <= k < i ==> (#[trigger] rows@[k]).text@ == row_text(preview.entries@[k])
                    && rows@[k].fg == named(self.effective.theme_colors.vars.defult_text) && rows@[k].bg is None,
            decreases preview.entries@.len() - i,
        {
            let e = &preview.entries[i];
            let a = concat(" ", e.name.as_str());
            let text = if e.is_dir {
                concat(a.as_str(), "/")
            } else {
                proof {
                    reveal_strlit("");
                }
                assert(a@ =~= " "@ + e.name@ + ""@);
                a
            };
            rows.push(RowView { text, fg: Paint::Named(self.effective.theme_colors.vars.defult_text.clone()), bg: None });
            i += 1;
        }
        let seg = crate::paths::path_last_segment(dir.as_str());
        ColumnView {
            title: Some(concat("/", seg.as_str())),
            title_paint: None,
            border,
            body: ColumnBody::Rows(rows),
            scrollbar: None,
        }
    }

    /// The global search results in a window of `viewport` rows: titled with
    /// their number, framed in the first column's border colour; the rows
    /// from `scroll_start` on, written from `~` under `home`, the selected
    /// one in the first column's selection colours; `No matches` when there
    /// are none. A window of two rows or fewer shows nothing.
    pub fn global_results_view(&self, viewport: usize, home: Option<&str>) -> (r: (String, Paint, Vec<RowView>))
        ensures
            r.0@ == "Global Search ("@ + decimal(self.global_results@.len() as nat) + ")"@,
            r.1 == named(self.effective.theme_colors.col_1.border),
            viewport <= 2 ==> r.2@.len() == 0,
            (viewport > 2 && self.global_results@.len() == 0) ==> r.2@.len() == 1 && r.2@[0].text@ == "No matches"@ && r.2@[0].fg == Paint::Plain,
            (viewport > 2 && self.global_results@.len() > 0) ==> {
                let n = self.global_results@.len() as int;
                let start = scroll_start_spec(n, viewport as int, self.global_selected as int);
                let end = if start + viewport < n { start + viewport } else { n };
                &&& r.2@.len() == end - start
                &&& forall|k: int| 0 <= k < end - start ==> {
                    &&& (#[trigger] r.2@[k]).text@ == home_relative(self.global_results@[start + k]@, opt_str_view(home))
                    &&& if start + k == self.global_selected as int {
                        r.2@[k].fg == named(self.effective.theme_colors.col_1.selected_fg)
                            && r.2@[k].bg == Some(named(self.effective.theme_colors.col_1.selected_bg))
                    } else {
                        r.2@[k].fg == Paint::Plain && r.2@[k].bg is None
                    }
                }
            },
    {
        let title = with_number("Global Search (", self.global_results.len() as u64, ")");
        let border = Paint::Named(self.effective.theme_colors.col_1.border.clone());
        let mut rows: Vec<RowView> = Vec::new();
        if viewport <= 2 {
            return (title, border, rows);
        }
        let n = self.global_results.len();
        if n == 0 {
            rows.push(RowView { text: "No matches".to_owned(), fg: Paint::Plain, bg: None });
            return (title, border, rows);
        }
        let start = scroll_start(n, viewport, self.global_selected);
        let end: usize = if start < n && viewport < n - start { start + viewport } else { n };
        let mut i: usize = start;
        while i < end
            invariant
                start <= i <= end <= n,
                n == self.global_results@.len(),
                rows@.len() == i - start,
                forall|k: int| 0 <= k < i - start ==> {
                    &&& (#[trigger] rows@[k]).text@ == home_relative(self.global_results@[start + k]@, opt_str_view(home))
                    &&& if start + k == self.global_selected as int {
                        rows@[k].fg == named(self.effective.theme_colors.col_1.selected_fg)
                            && rows@[k].bg == Some(named(self.effective.theme_colors.col_1.selected_bg))
                    } else {
                        rows@[k].fg == Paint::Plain && rows@[k].bg is None
                    }
                },
            decreases end - i,
        {
            let text = crate::paths::display_home_relative_in(self.global_results[i].as_str(), home);
            if i == self.global_selected {
                rows.push(RowView {
                    text,
                    fg: Paint::Named(self.effective.theme_colors.col_1.selected_fg.clone()),
                    bg: Some(Paint::Named(self.effective.theme_colors.col_1.selected_bg.clone())),
                });
            } else {
                rows.push(RowView { text, fg: Paint::Plain, bg: None });
            }
            i += 1;
        }
        (title, border, rows)
    }

    /// The frame of the Miller columns: in the sudo colour in sudo mode,
    /// else in the default panel border colour.
    pub fn miller_border(&self) -> (r: Paint)
        ensures
            r == if self.sudo_mode { Paint::Sudo } else { named(self.effective.theme_colors.vars.defult_panel_border) },
    {
        if self.sudo_mode { Paint::Sudo } else { Paint::Named(self.effective.theme_colors.vars.defult_panel_border.clone()) }
    }

    /// The colours of the sidebar's title and frame: the title in the mode
    /// colour while waiting for a bookmark slot, the frame while any mode is
    /// in force; else the panel label and border colours.
    pub fn sidebar_frame(&self) -> (r: (Paint, Paint))
        ensures
            r.0 == if self.awaiting_bookmark_slot { Paint::Mode } else { named(self.effective.theme_colors.vars.defult_panel_label) },
            r.1 == if self.mode_active() { Paint::Mode } else { named(self.effective.theme_colors.vars.defult_panel_border) },
    {
        let v = &self.effective.theme_colors.vars;
        let active = self.sudo_mode || self.awaiting_bookmark_slot || self.selection_mode || self.search_mode != SearchMode::Idle;
        let title = if self.awaiting_bookmark_slot { Paint::Mode } else { Paint::Named(v.defult_panel_label.clone()) };
        let border = if active { Paint::Mode } else { Paint::Named(v.defult_panel_border.clone()) };
        (title, border)
    }

    /// The colour of the rule above the status line: the mode colour while a
    /// mode is in force, else the border colour.
    pub fn status_border(&self) -> (r: Paint)
        ensures
            r == if self.mode_active() { Paint::Mode } else { named(self.effective.theme_colors.vars.defult_panel_border) },
    {
        let active = self.sudo_mode || self.awaiting_bookmark_slot || self.selection_mode || self.search_mode != SearchMode::Idle;
        if active { Paint::Mode } else { Paint::Named(self.effective.theme_colors.vars.defult_panel_border.clone()) }
    }
}

/// A row of the sidebar: its text, its colour, and whether it is bold.
#[derive(Debug)]
pub struct SidebarRow {
    pub text: String,
    pub paint: Paint,
    pub bold: bool,
}

/// A bookmark slot as the sidebar lists it: its digit, whether a bookmark
/// is in it, and that bookmark's name.
pub open spec fn slot_entry(a: App, d: int) -> (char, bool, Seq<char>) {
    let c = crate::text::digit_char(d as nat);
    match slot_index(a.config.sidebar.bookmarks@, c) {
        Some(k) => (c, true, a.config.sidebar.bookmarks@[k].name@),
        None => (c, false, Seq::empty()),
    }
}

/// The slots the sidebar lists: 1 to 3 always, 4 to 9 where a bookmark is
/// in them.
pub open spec fn listed_slots(a: App, upto: int) -> Seq<(char, bool, Seq<char>)>
    decreases upto,
{
    if upto <= 0 {
        Seq::empty()
    } else {
        let rest = listed_slots(a, upto - 1);
        let e = slot_entry(a, upto);
        if upto > 3 && !e.1 { rest } else { rest.push(e) }
    }
}

impl App {
    fn slot_of(&self, d: u32) -> (r: (char, bool, String))
        requires
            1 <= d <= 9,
        ensures
            (r.0, r.1, r.2@) == slot_entry(*self, d as int),
    {
        let c = crate::text::chars_of(crate::text::decimal_text(d as u64).as_str())[0];
        match find_slot(&self.config.sidebar.bookmarks, c) {
            Some(k) => (c, true, self.config.sidebar.bookmarks[k].name.clone()),
            None => (c, false, String::new()),
        }
    }

    fn bookmark_slots(&self) -> (r: Vec<(char, bool, String)>)
        ensures
            r@.len() == listed_slots(*self, 9).len(),
            forall|k: int| 0 <= k < r@.len() ==> ((#[trigger] r@[k]).0, r@[k].1, r@[k].2@) == listed_slots(*self, 9)[k],
    {
        let mut out: Vec<(char, bool, String)> = Vec::new();
        let mut d: u32 = 1;
        while d <= 9
            invariant
                1 <= d <= 10,
                out@.len() == listed_slots(*self, d - 1).len(),
                forall|k: int| 0 <= k < out@.len() ==> ((#[trigger] out@[k]).0, out@[k].1, out@[k].2@) == listed_slots(*self, d - 1)[k],
            decreases 10 - d,
        {
            let e = self.slot_of(d);
            if d > 3 && !e.1 {
            } else {
                out.push(e);
            }
            d += 1;
        }
        out
    }

    /// The rows of the sidebar in a window `inner_height` rows high: the
    /// bookmarks heading and slots (as many as leave four rows), a blank,
    /// the drives heading and drives (up to the limit, at least one), a
    /// blank, the recent directories heading and directories (likewise).
    /// While waiting for a slot key, the bookmark rows take the mode colour.
    pub fn sidebar_rows(&self, inner_height: usize) -> (r: Vec<SidebarRow>)
        ensures
            ({
                let slots = listed_slots(*self, 9);
                let room = if inner_height > 4 { inner_height - 4 } else { 0 };
                let nb = if slots.len() < room { slots.len() as int } else { room as int };
                let dl = if self.config.sidebar.drives_limit > 1 { self.config.sidebar.drives_limit as int } else { 1 };
                let nd = if self.drives@.len() < dl { self.drives@.len() as int } else { dl };
                let rl = if self.config.sidebar.recent_dirs_limit > 1 { self.config.sidebar.recent_dirs_limit as int } else { 1 };
                let nr = if self.recents@.len() < rl { self.recents@.len() as int } else { rl };
                let v = self.effective.theme_colors.vars;
                let panel = named(v.defult_panel_label);
                &&& r@.len() == 1 + nb + 2 + nd + 2 + nr
                &&& r@[0].text@ == "Bookmarks"@ && r@[0].bold && r@[0].paint == if self.awaiting_bookmark_slot { Paint::Mode } else { panel }
                &&& forall|k: int| 0 <= k < nb ==> {
                    let (c, exists_, name) = slots[k];
                    &&& (#[trigger] r@[1 + k]).text@ == if exists_ { "  "@ + name } else if self.awaiting_bookmark_slot { "  "@ + seq![c] } else { "  ctrl+b+"@ + seq![c] }
                    &&& r@[1 + k].paint == if exists_ {
                        if self.awaiting_bookmark_slot { Paint::Mode } else { named(v.primary_fg) }
                    } else if self.awaiting_bookmark_slot {
                        Paint::Mode
                    } else {
                        named(v.secondary_fg)
                    }
                    &&& !r@[1 + k].bold
                }
                &&& r@[1 + nb].text@.len() == 0
                &&& r@[2 + nb].text@ == "Drives"@ && r@[2 + nb].bold && r@[2 + nb].paint == panel
                &&& forall|k: int| 0 <= k < nd ==> (#[trigger] r@[3 + nb + k]).text@ == "  "@ + self.drives@[k]@ && r@[3 + nb + k].paint == panel
                &&& r@[3 + nb + nd].text@.len() == 0
                &&& r@[4 + nb + nd].text@ == "Recent Dirs"@ && r@[4 + nb + nd].bold && r@[4 + nb + nd].paint == panel
                &&& forall|k: int| 0 <= k < nr ==> (#[trigger] r@[5 + nb + nd + k]).text@ == "  "@ + self.recents@[k]@ && r@[5 + nb + nd + k].paint == panel
            }),
    {
        let v = &self.effective.theme_colors.vars;
        let mut rows: Vec<SidebarRow> = Vec::new();
        rows.push(SidebarRow {
            text: "Bookmarks".to_owned(),
            paint: if self.awaiting_bookmark_slot { Paint::Mode } else { Paint::Named(v.defult_panel_label.clone()) },
            bold: true,
        });
        let slots = self.bookmark_slots();
        let room: usize = if inner_height > 4 { inner_height - 4 } else { 0 };
        let nb: usize = if slots.len() < room { slots.len() } else { room };
        let ghost ss = listed_slots(*self, 9);
        let mut i: usize = 0;
        while i < nb
            invariant
                i <= nb <= slots@.len(),
                slots@.len() == ss.len(),
                forall|k: int| 0 <= k < slots@.len() ==> ((#[trigger] slots@[k]).0, slots@[k].1, slots@[k].2@) == ss[k],
                rows@.len() == 1 + i,
                rows@[0].text@ == "Bookmarks"@ && rows@[0].bold && rows@[0].paint == if self.awaiting_bookmark_slot { Paint::Mode } else { named(v.defult_panel_label) },
                forall|k: int| 0 <= k < i ==> {
                    let (c, exists_, name) = ss[k];
                    &&& (#[trigger] rows@[1 + k]).text@ == if exists_ { "  "@ + name } else if self.awaiting_bookmark_slot { "  "@ + seq![c] } else { "  ctrl+b+"@ + seq![c] }
                    &&& rows@[1 + k].paint == if exists_ {
                        if self.awaiting_bookmark_slot { Paint::Mode } else { named(v.primary_fg) }
                    } else if self.awaiting_bookmark_slot {
                        Paint::Mode
                    } else {
                        named(v.secondary_fg)
                    }
                    &&& !rows@[1 + k].bold
                },
            decreases nb - i,
        {
            let (c, exists_, name) = (slots[i].0, slots[i].1, &slots[i].2);
            let row = if exists_ {
                SidebarRow {
                    text: concat("  ", name.as_str()),
                    paint: if self.awaiting_bookmark_slot { Paint::Mode } else { Paint::Named(v.primary_fg.clone()) },
                    bold: false,
                }
            } else if self.awaiting_bookmark_slot {
                let t = with_char("  ", c, "");
                proof {
                    reveal_strlit("");
                }
                assert(t@ =~= "  "@ + seq![c]);
                SidebarRow { text: t, paint: Paint::Mode, bold: false }
            } else {
                let t = with_char("  ctrl+b+", c, "");
                proof {
                    reveal_strlit("");
                }
                assert(t@ =~= "  ctrl+b+"@ + seq![c]);
                SidebarRow { text: t, paint: Paint::Named(v.secondary_fg.clone()), bold: false }
            };
            rows.push(row);
            i += 1;
        }
        self.push_list(&mut rows, "Drives", &self.drives, self.config.sidebar.drives_limit);
        self.push_list(&mut rows, "Recent Dirs", &self.recents, self.config.sidebar.recent_dirs_limit);
        rows
    }

    fn push_list(&self, rows: &mut Vec<SidebarRow>, heading: &str, items: &Vec<String>, limit: usize)
        ensures
            ({
                let l = if limit > 1 { limit as int } else { 1 };
                let n = if items@.len() < l { items@.len() as int } else { l };
                let panel = named(self.effective.theme_colors.vars.defult_panel_label);
                &&& final(rows)@.len() == old(rows)@.len() + 2 + n
                &&& forall|k: int| 0 <= k < old(rows)@.len() ==> #[trigger] final(rows)@[k] == old(rows)@[k]
                &&& final(rows)@[old(rows)@.len() as int].text@.len() == 0
                &&& final(rows)@[old(rows)@.len() as int + 1].text@ == heading@ && final(rows)@[old(rows)@.len() as int + 1].bold
                    && final(rows)@[old(rows)@.len() as int + 1].paint == panel
                &&& forall|k: int| 0 <= k < n ==> (#[trigger] final(rows)@[old(rows)@.len() + 2 + k]).text@ == "  "@ + items@[k]@
                    && final(rows)@[old(rows)@.len() + 2 + k].paint == panel
            }),
    {
        let panel = &self.effective.theme_colors.vars.defult_panel_label;
        let base = rows.len();
        rows.push(SidebarRow { text: String::new(), paint: Paint::Plain, bold: false });
        rows.push(SidebarRow { text: heading.to_owned(), paint: Paint::Named(panel.clone()), bold: true });
        let l: usize = if limit > 1 { limit } else { 1 };
        let n: usize = if items.len() < l { items.len() } else { l };
        let mut i: usize = 0;
        while i < n
            invariant
                i <= n <= items@.len(),
                base == old(rows)@.len(),
                rows@.len() == base + 2 + i,
                forall|k: int| 0 <= k < base ==> #[trigger] rows@[k] == old(rows)@[k],
                rows@[base as int].text@.len() == 0,
                rows@[base + 1].text@ == heading@ && rows@[base + 1].bold && rows@[base + 1].paint == named(*panel),
                forall|k: int| 0 <= k < i ==> (#[trigger] rows@[base + 2 + k]).text@ == "  "@ + items@[k]@ && rows@[base + 2 + k].paint == named(*panel),
            decreases n - i,
        {
            rows.push(SidebarRow { text: concat("  ", items[i].as_str()), paint: Paint::Named(panel.clone()), bold: false });
            i += 1;
        }
    }
}

} // verus!
