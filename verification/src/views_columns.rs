//! What the Miller columns show: for each column its title, frame colour,
//! rows and their colours, and scroll bar.
use vstd::prelude::*;

use crate::app_state::{
    filtered_indices, index_in, lemma_filtered_indices, local_filtered_indices_with_query, position_in,
    lemma_index_in, App, SearchMode,
};
use crate::entries::{find_path, position_of, scroll_start, DirColumn, DirEntry};
use crate::pathset::holds_path;
use crate::paths::last_segment;
use crate::theme::ColumnTheme;
use crate::views::Paint;

verus! {

/// One row of a list: its text and colours (foreground, and background
/// where it has one).
#[derive(Debug)]
pub struct RowView {
    pub text: String,
    pub fg: Paint,
    pub bg: Option<Paint>,
}

/// What fills a column.
#[derive(Debug)]
pub enum ColumnBody {
    /// Nothing.
    Blank,
    /// The directory cannot be read: the mascot for a refused permission,
    /// with the directory's path.
    NoPerms(String),
    /// The directory is empty: the empty directory mascot.
    EmptyDir,
    /// The rows.
    Rows(Vec<RowView>),
}

/// A column: its title and the title's colour, its frame colour, what fills
/// it, and its scroll bar (rows in all, first row shown, colour).
#[derive(Debug)]
pub struct ColumnView {
    pub title: Option<String>,
    pub title_paint: Option<Paint>,
    pub border: Paint,
    pub body: ColumnBody,
    pub scrollbar: Option<(usize, usize, Paint)>,
}

/// The text of an entry's row: a space, the name, and `/` for a
/// directory.
pub open spec fn row_text(e: DirEntry) -> Seq<char> {
    " "@ + e.name@ + if e.is_dir { "/"@ } else { Seq::empty() }
}

fn entry_row_text(e: &DirEntry) -> (r: String)
    ensures
        r@ == row_text(*e),
{
    let a = crate::text::concat(" ", e.name.as_str());
    if e.is_dir {
        crate::text::concat(a.as_str(), "/")
    } else {
        proof {
            reveal_strlit("");
        }
        assert(a@ =~= " "@ + e.name@ + ""@);
        a
    }
}

pub open spec fn named(s: String) -> Paint {
    Paint::Named(s)
}

/// The colour of an entry by its kind: plain text in the first, second and
/// fourth columns; in the others by whether it is a directory, a link, an
/// executable, or another file.
pub open spec fn entry_fg(a: App, idx: int, t: ColumnTheme, e: DirEntry) -> Paint {
    if idx == 0 || idx == 1 || idx == 3 {
        named(a.effective.theme_colors.vars.defult_text)
    } else if e.is_dir {
        named(t.dir)
    } else if e.is_symlink {
        named(t.symlink)
    } else if e.is_executable {
        named(t.executable)
    } else {
        named(t.file)
    }
}

/// The colours of a row: the cursor's row (in the focused column) and the
/// row of the directory shown next are highlighted, in the mode colour
/// while a mode is in force; marked rows take the selection colours; in
/// selection mode the columns other than the locked one are dimmed; the
/// focused column takes the mode colour while a mode is in force.
pub open spec fn row_paint(a: App, idx: int, focused: bool, t: ColumnTheme, e: DirEntry, is_cursor: bool, is_next: bool, marked: bool, dimmed: bool) -> (Paint, Option<Paint>) {
    let v = a.effective.theme_colors.vars;
    let hl = a.mode_active();
    if (focused && is_cursor) || is_next {
        if hl {
            (named(v.primary_bg), Some(Paint::Mode))
        } else if focused && is_cursor {
            (named(t.focused_fg), Some(named(v.focused_dir_bg)))
        } else {
            (named(t.focused_fg), Some(named(v.active_dir_bg)))
        }
    } else if marked {
        (if focused { if hl { Paint::Mode } else { named(t.selected_fg) } } else { named(v.defult_text) }, Some(named(t.selected_bg)))
    } else if dimmed {
        (named(v.defult_text), None)
    } else {
        (if focused && hl { Paint::Mode } else { entry_fg(a, idx, t, e) }, None)
    }
}

pub open spec fn column_theme_spec(a: App, idx: int) -> ColumnTheme {
    if idx == 0 {
        a.effective.theme_colors.col_1
    } else if idx == 1 {
        a.effective.theme_colors.col_2
    } else if idx == 2 {
        a.effective.theme_colors.col_3
    } else {
        a.effective.theme_colors.col_4
    }
}

/// `0, 1, .., n - 1`.
pub open spec fn all_indices(n: int) -> Seq<int> {
    Seq::new(n as nat, |i: int| i)
}

/// The rows a column lists: the matches of a local search in the focused
/// column, else all.
pub open spec fn listed_rows(a: App, focused: bool, c: DirColumn) -> Seq<int> {
    if focused && a.search_mode == SearchMode::Local {
        filtered_indices(a.search_query@, c.entries@)
    } else {
        all_indices(c.entries@.len() as int)
    }
}

/// The entry at `p` is the directory shown in the next column (paths
/// compared as std compares them).
pub open spec fn names_next(next: Option<Seq<char>>, p: Seq<char>) -> bool {
    match next {
        Some(n) => crate::paths::same_path_spec(n, p),
        None => false,
    }
}

/// The row a column scrolls to: the cursor in the focused column; in the
/// others the entry of the directory shown next; the first row where that
/// is not listed.
pub open spec fn anchor_row(focused: bool, c: DirColumn, rows: Seq<int>, next: Option<Seq<char>>) -> int {
    if focused {
        match index_in(rows, c.selected as int) { Some(p) => p, None => 0 }
    } else {
        match next {
            Some(p) => match position_of(c.entries@, p) {
                Some(abs) => match index_in(rows, abs) { Some(q) => q, None => 0 },
                None => 0,
            },
            None => 0,
        }
    }
}

fn anchor_of(focused: bool, c: &DirColumn, rows: &Vec<usize>, next: &Option<String>, Ghost(rs): Ghost<Seq<int>>) -> (r: usize)
    requires
        rows@.len() == rs.len(),
        forall|k: int| 0 <= k < rows@.len() ==> (#[trigger] rows@[k]) as int == rs[k],
        forall|k: int, l: int| 0 <= k < l < rows@.len() ==> rows@[k] < rows@[l],
    ensures
        r as int == anchor_row(focused, *c, rs, match next { Some(p) => Some(p@), None => None::<Seq<char>> }),
{
    proof {
        assert forall|k: int, l: int| 0 <= k < l < rs.len() implies rs[k] < rs[l] by {
            assert(rows@[k] as int == rs[k] && rows@[l] as int == rs[l]);
        }
    }
    if focused {
        match position_in(rows, c.selected) {
            Some(p) => {
                proof { lemma_index_in(rs, c.selected as int, p as int); }
                p
            },
            None => {
                proof { assert(index_in(rs, c.selected as int) is None) by {
                    if exists|p: int| 0 <= p < rs.len() && rs[p] == c.selected as int {
                        let p = choose|p: int| 0 <= p < rs.len() && rs[p] == c.selected as int;
                        assert(rows@[p] as int == rs[p]);
                    }
                } }
                0
            },
        }
    } else {
        match next {
            Some(p) => match find_path(&c.entries, p.as_str()) {
                Some(abs) => match position_in(rows, abs) {
                    Some(q) => {
                        proof { lemma_index_in(rs, abs as int, q as int); }
                        q
                    },
                    None => {
                        proof { assert(index_in(rs, abs as int) is None) by {
                            if exists|q: int| 0 <= q < rs.len() && rs[q] == abs as int {
                                let q = choose|q: int| 0 <= q < rs.len() && rs[q] == abs as int;
                                assert(rows@[q] as int == rs[q]);
                            }
                        } }
                        0
                    },
                },
                None => 0,
            },
            None => 0,
        }
    }
}

impl App {
    /// Whether a path is in the selection in force.
    pub fn is_marked(&self, path: &str) -> (r: bool)
        ensures
            r == holds_path(if self.selection_mode { self.mode_selected_paths@ } else { self.simple_selected_paths@ }, path@),
    {
        crate::pathset::has_path(self.selection_set(), path)
    }

    fn row_colors(&self, idx: usize, focused: bool, t: &ColumnTheme, e: &DirEntry, is_cursor: bool, is_next: bool, marked: bool, dimmed: bool) -> (r: (Paint, Option<Paint>))
        ensures
            r == row_paint(*self, idx as int, focused, *t, *e, is_cursor, is_next, marked, dimmed),
    {
        let v = &self.effective.theme_colors.vars;
        let hl = self.sudo_mode || self.awaiting_bookmark_slot || self.selection_mode || self.search_mode != SearchMode::Idle;
        if (focused && is_cursor) || is_next {
            if hl {
                (Paint::Named(v.primary_bg.clone()), Some(Paint::Mode))
            } else if focused && is_cursor {
                (Paint::Named(t.focused_fg.clone()), Some(Paint::Named(v.focused_dir_bg.clone())))
            } else {
                (Paint::Named(t.focused_fg.clone()), Some(Paint::Named(v.active_dir_bg.clone())))
            }
        } else if marked {
            (if focused { if hl { Paint::Mode } else { Paint::Named(t.selected_fg.clone()) } } else { Paint::Named(v.defult_text.clone()) },
                Some(Paint::Named(t.selected_bg.clone())))
        } else if dimmed {
            (Paint::Named(v.defult_text.clone()), None)
        } else {
            let fg = if focused && hl {
                Paint::Mode
            } else if idx == 0 || idx == 1 || idx == 3 {
                Paint::Named(v.defult_text.clone())
            } else if e.is_dir {
                Paint::Named(t.dir.clone())
            } else if e.is_symlink {
                Paint::Named(t.symlink.clone())
            } else if e.is_executable {
                Paint::Named(t.executable.clone())
            } else {
                Paint::Named(t.file.clone())
            };
            (fg, None)
        }
    }

    fn listed_rows_of(&self, focused: bool, c: &DirColumn) -> (r: Vec<usize>)
        ensures
            r@.len() == listed_rows(*self, focused, *c).len(),
            forall|k: int| 0 <= k < r@.len() ==> (#[trigger] r@[k]) as int == listed_rows(*self, focused, *c)[k],
            forall|k: int| 0 <= k < r@.len() ==> (#[trigger] r@[k]) < c.entries@.len(),
            forall|k: int, l: int| 0 <= k < l < r@.len() ==> r@[k] < r@[l],
    {
        if focused && self.search_mode == SearchMode::Local {
            let f = local_filtered_indices_with_query(self.search_query.as_str(), c);
            proof {
                lemma_filtered_indices(self.search_query@, c.entries@);
                let g = filtered_indices(self.search_query@, c.entries@);
                assert forall|k: int| 0 <= k < f@.len() implies (#[trigger] f@[k]) < c.entries@.len() by {
                    assert(f@[k] as int == g[k]);
                }
                assert forall|k: int, l: int| 0 <= k < l < f@.len() implies f@[k] < f@[l] by {
                    assert(f@[k] as int == g[k] && f@[l] as int == g[l]);
                }
            }
            f
        } else {
            let n = c.entries.len();
            let mut out: Vec<usize> = Vec::new();
            let mut i: usize = 0;
            while i < n
                invariant
                    i <= n,
                    n == c.entries@.len(),
                    out@.len() == i,
                    forall|k: int| 0 <= k < i ==> (#[trigger] out@[k]) as int == k,
                decreases n - i,
            {
                out.push(i);
                i += 1;
            }
            out
        }
    }

    fn build_rows(&self, idx: usize, focused: bool, t: &ColumnTheme, c: &DirColumn, rows: &Vec<usize>, start: usize, end: usize, next: &Option<String>, dimmed: bool) -> (out: Vec<RowView>)
        requires
            start <= end <= rows@.len(),
            forall|k: int| 0 <= k < rows@.len() ==> (#[trigger] rows@[k]) < c.entries@.len(),
        ensures
            out@.len() == end - start,
            forall|k: int| 0 <= k < end - start ==> {
                let abs = rows@[start + k] as int;
                let e = c.entries@[abs];
                &&& (#[trigger] out@[k]).text@ == row_text(e)
                &&& (out@[k].fg, out@[k].bg) == row_paint(*self, idx as int, focused, *t, e,
                    abs == c.selected as int, names_next(match next { Some(p) => Some(p@), None => None::<Seq<char>> }, e.path@),
                    holds_path(if self.selection_mode { self.mode_selected_paths@ } else { self.simple_selected_paths@ }, e.path@), dimmed)
            },
    {
        let ghost next_v: Option<Seq<char>> = match next { Some(p) => Some(p@), None => None };
        let mut out: Vec<RowView> = Vec::new();
        let mut r: usize = start;
        while r < end
            invariant
                start <= r <= end <= rows@.len(),
                next_v == match next { Some(p) => Some(p@), None => None::<Seq<char>> },
                forall|k: int| 0 <= k < rows@.len() ==> (#[trigger] rows@[k]) < c.entries@.len(),
                out@.len() == r - start,
                forall|k: int| 0 <= k < r - start ==> {
                    let abs = rows@[start + k] as int;
                    let e = c.entries@[abs];
                    &&& (#[trigger] out@[k]).text@ == row_text(e)
                    &&& (out@[k].fg, out@[k].bg) == row_paint(*self, idx as int, focused, *t, e,
                        abs == c.selected as int, names_next(next_v, e.path@),
                        holds_path(if self.selection_mode { self.mode_selected_paths@ } else { self.simple_selected_paths@ }, e.path@), dimmed)
                },
            decreases end - r,
        {
            let abs = rows[r];
            let e = &c.entries[abs];
            let is_next = match next {
                Some(p) => crate::paths::same_path(p.as_str(), e.path.as_str()),
                None => false,
            };
            assert(is_next == names_next(next_v, e.path@));
            let marked = self.is_marked(e.path.as_str());
            let (fg, bg) = self.row_colors(idx, focused, t, e, abs == c.selected, is_next, marked, dimmed);
            out.push(RowView { text: entry_row_text(e), fg, bg });
            r += 1;
        }
        out
    }

    fn next_shown(&self, idx: usize, path_cols: &Vec<Option<usize>>) -> (r: Option<String>)
        requires
            idx < path_cols@.len(),
            forall|k: int| 0 <= k < path_cols@.len() ==> (#[trigger] path_cols@[k] matches Some(c) ==> c < self.columns@.len()),
        ensures
            (match r { Some(p) => Some(p@), None => None::<Seq<char>> }) == if idx + 1 < path_cols@.len() {
                match path_cols@[idx + 1] { Some(n) => Some(self.columns@[n as int].path@), None => None }
            } else {
                match self.selected_dir_spec() { Some(p) => Some(p@), None => None }
            },
    {
        if idx < path_cols.len() - 1 {
            match path_cols[idx + 1] {
                Some(n) => Some(self.columns[n].path.clone()),
                None => None,
            }
        } else {
            match self.selected_dir_path() {
                Some(p) => Some(p.clone()),
                None => None,
            }
        }
    }

    /// One column of paths (`idx` below the last) as shown, the window
    /// being `viewport` rows high; `path_cols` are the shown columns (see
    /// `visible_path_columns_fixed`) and `focus` the focused one. A blank
    /// slot shows a frame titled `/`; an unreadable directory the
    /// no-permission mascot; an empty listing the empty directory mascot;
    /// else the rows from `scroll_start` on, coloured by `row_paint`, with a
    /// scroll bar in the focused column when they do not fit.
    #[verifier::spinoff_prover]
    #[verifier::rlimit(80)]
    pub fn path_column_view(&self, idx: usize, focus: usize, path_cols: &Vec<Option<usize>>, viewport: usize) -> (r: ColumnView)
        requires
            idx < path_cols@.len(),
            forall|k: int| 0 <= k < path_cols@.len() ==> (#[trigger] path_cols@[k] matches Some(c) ==> c < self.columns@.len()),
        ensures
            match path_cols@[idx as int] {
                None => r.title matches Some(t) && t@ == "/"@ && r.body is Blank && r.scrollbar is None
                    && r.border == named(self.effective.theme_colors.vars.defult_panel_border),
                Some(ci) => {
                    let c = self.columns@[ci as int];
                    let focused = idx == focus;
                    let t = column_theme_spec(*self, idx as int);
                    let hl = self.mode_active();
                    let title = "/"@ + last_segment(c.path@);
                    if c.permission_denied {
                        &&& r.title matches Some(x) && x@ == title
                        &&& r.body matches crate::views_columns::ColumnBody::NoPerms(p) && p == c.path
                        &&& r.scrollbar is None
                    } else {
                        let rows = listed_rows(*self, focused, c);
                        let next: Option<Seq<char>> = if idx + 1 < path_cols@.len() {
                            match path_cols@[idx + 1] { Some(n) => Some(self.columns@[n as int].path@), None => None }
                        } else {
                            match self.selected_dir_spec() { Some(p) => Some(p@), None => None }
                        };
                        let start = scroll_start_spec(rows.len() as int, viewport as int, anchor_row(focused, c, rows, next));
                        let end = if start + viewport < rows.len() { start + viewport } else { rows.len() as int };
                        let locked = match self.locked_column_path { Some(p) => crate::paths::same_path_spec(p@, c.path@), None => true };
                        let dimmed = self.selection_mode && !locked;
                        let set = if self.selection_mode { self.mode_selected_paths@ } else { self.simple_selected_paths@ };
                        &&& r.title matches Some(x) && x@ == title
                        &&& r.title_paint == Some(if focused && hl { Paint::Mode } else if focused { named(t.header) } else { named(self.effective.theme_colors.vars.defult_panel_label) })
                        &&& r.border == if focused { if hl { Paint::Mode } else { named(t.border) } } else { named(self.effective.theme_colors.vars.defult_panel_border) }
                        &&& rows.len() == 0 ==> r.body is EmptyDir
                        &&& rows.len() > 0 ==> (r.body matches crate::views_columns::ColumnBody::Rows(v) && v@.len() == end - start
                            && forall|k: int| 0 <= k < end - start ==> {
                                let abs = rows[start + k];
                                let e = c.entries@[abs];
                                &&& (#[trigger] v@[k]).text@ == row_text(e)
                                &&& (v@[k].fg, v@[k].bg) == row_paint(*self, idx as int, focused, t, e,
                                    abs == c.selected as int, names_next(next, e.path@), holds_path(set, e.path@), dimmed)
                            })
                        &&& r.scrollbar == if focused && rows.len() > viewport && viewport > 0 && rows.len() > 0 {
                            Some((rows.len() as usize, start as usize, named(t.scrollbar)))
                        } else {
                            None
                        }
                    }
                },
            },
    {
        let v = &self.effective.theme_colors.vars;
        let ci = match path_cols[idx] {
            None => {
                return ColumnView {
                    title: Some("/".to_owned()),
                    title_paint: None,
                    border: Paint::Named(v.defult_panel_border.clone()),
                    body: ColumnBody::Blank,
                    scrollbar: None,
                };
            },
            Some(ci) => ci,
        };
        let c = &self.columns[ci];
        let seg = crate::paths::path_last_segment(c.path.as_str());
        let title = crate::text::concat("/", seg.as_str());
        if c.permission_denied {
            return ColumnView {
                title: Some(title),
                title_paint: Some(Paint::Named(v.defult_panel_label.clone())),
                border: Paint::Named(v.defult_panel_border.clone()),
                body: ColumnBody::NoPerms(c.path.clone()),
                scrollbar: None,
            };
        }
        let focused = idx == focus;
        let t = self.effective.column_theme_for(idx);
        let hl = self.sudo_mode || self.awaiting_bookmark_slot || self.selection_mode || self.search_mode != SearchMode::Idle;
        let rows = self.listed_rows_of(focused, c);
        let next = self.next_shown(idx, path_cols);
        let ghost next_v: Option<Seq<char>> = match &next { Some(p) => Some(p@), None => None };
        let anchor = anchor_of(focused, c, &rows, &next, Ghost(listed_rows(*self, focused, *c)));
        let start = scroll_start(rows.len(), viewport, anchor);
        let end: usize = if start < rows.len() && viewport < rows.len() - start { start + viewport } else { rows.len() };
        let locked = match &self.locked_column_path {
            Some(p) => crate::paths::same_path(p.as_str(), c.path.as_str()),
            None => true,
        };
        let dimmed = self.selection_mode && !locked;
        let title_paint = if focused && hl { Paint::Mode } else if focused { Paint::Named(t.header.clone()) } else { Paint::Named(v.defult_panel_label.clone()) };
        let border = if focused { if hl { Paint::Mode } else { Paint::Named(t.border.clone()) } } else { Paint::Named(v.defult_panel_border.clone()) };
        if rows.len() == 0 {
            return ColumnView { title: Some(title), title_paint: Some(title_paint), border, body: ColumnBody::EmptyDir, scrollbar: None };
        }
        let out = self.build_rows(idx, focused, t, c, &rows, start, end, &next, dimmed);
        let scrollbar = if focused && rows.len() > viewport && viewport > 0 {
            Some((rows.len(), start, Paint::Named(t.scrollbar.clone())))
        } else {
            None
        };
        ColumnView { title: Some(title), title_paint: Some(title_paint), border, body: ColumnBody::Rows(out), scrollbar }
    }
}

/// `scroll_start` as a formula.
pub open spec fn scroll_start_spec(total: int, viewport: int, anchor: int) -> int {
    if viewport == 0 || total <= viewport {
        0
    } else {
        let centered = if anchor >= viewport / 2 { anchor - viewport / 2 } else { 0 };
        if centered < total - viewport { centered } else { total - viewport }
    }
}

} // verus!
