//! The state of the file explorer and what each action does to it.
//!
//! The explorer reads directories, walks the file system and touches files;
//! none of that happens here. An action that needs the outside world returns
//! an `Effect` that names what to do, and the caller hands the outcome back
//! to the matching method.
use vstd::prelude::*;

use crate::entries::{DirColumn, DirEntry, DirReadOutcome};
use crate::keymap::KeymapConfig;
use crate::layout::{effective_matches, AppConfig, EffectiveSettings, Profile, RuntimePlan};
use crate::overlay::OverlayFrame;
use crate::pathset::{holds_path, no_path_repeats};
use crate::paths::path_components;
use crate::keys::{KeyCode, KeyPress};
use crate::layout::Bookmark;
use crate::paths::{last_segment, path_joined, path_parent, path_file_name, tilde_expanded};
use crate::text::{decimal, fuzzy_contains, is_subsequence, ascii_lower_seq, to_ascii_lowercase, with_char, with_number};
use crate::theme::Theme;

verus! {

/// Which search is running.
#[derive(Debug, Clone, Copy, PartialEq, Eq, Structural)]
pub enum SearchMode {
    Idle,
    Local,
    Global,
}

/// Which name is being typed.
#[derive(Debug, Clone, Copy, PartialEq, Eq, Structural)]
pub enum InputMode {
    Idle,
    NewFile,
    NewDir,
    Rename,
}

/// The modes that change how the panels are coloured.
#[derive(Debug, Clone, Copy, PartialEq, Eq, Structural)]
pub struct UiModeState {
    pub sudo: bool,
    pub select: bool,
    pub bookmark: bool,
    pub search: bool,
}

/// The mode whose colour the panels take, by precedence: search, then
/// bookmark, then selection, then sudo, else none.
#[derive(Debug, Clone, Copy, PartialEq, Eq, Structural)]
pub enum ModeHighlight {
    Search,
    Bookmark,
    Selection,
    Sudo,
    Normal,
}

/// Paths copied or cut, waiting to be pasted.
#[derive(Debug)]
pub struct ClipboardItem {
    pub paths: Vec<String>,
    pub cut: bool,
}

/// The dialog on screen.
#[derive(Debug)]
pub enum DialogState {
    ConfirmDelete { paths: Vec<String>, yes_selected: bool },
    ConfirmBookmarkOverwrite { slot: char, existing_path: String, new_path: String, yes_selected: bool },
    Message { title: String, text: String },
}

/// The whole state of the explorer.
#[derive(Debug)]
pub struct App {
    pub config: AppConfig,
    pub fallback_theme: Theme,
    pub active_profile: usize,
    pub effective: EffectiveSettings,
    pub runtime_plan: RuntimePlan,
    pub recents: Vec<String>,
    pub drives: Vec<String>,
    pub current_dir: String,
    pub columns: Vec<DirColumn>,
    pub search_mode: SearchMode,
    pub search_query: String,
    pub global_results: Vec<String>,
    pub global_selected: usize,
    pub input_mode: InputMode,
    pub input_buffer: String,
    pub rename_target: Option<String>,
    pub clipboard: Option<ClipboardItem>,
    pub status_message: String,
    pub selection_mode: bool,
    pub mode_selected_paths: Vec<String>,
    pub mode_range_anchor: Option<usize>,
    pub mode_last_range: Vec<String>,
    pub locked_column_path: Option<String>,
    pub simple_selected_paths: Vec<String>,
    pub simple_range_anchor: Option<usize>,
    pub simple_last_range: Vec<String>,
    pub simple_column_path: Option<String>,
    pub dialog: Option<DialogState>,
    pub keymap: KeymapConfig,
    pub awaiting_bookmark_slot: bool,
    pub user_name: String,
    pub device_name: String,
    pub image_protocol: Option<crate::preview::ImageProtocol>,
    pub sudo_mode: bool,
    pub sudo_password_prompt: bool,
    pub sudo_password_input: String,
    pub keybinds_overlay: Option<OverlayFrame>,
    pub keybinds_overlay_cache: Option<OverlayFrame>,
}

/// The key bindings frame of a key map, scrolled to the top.
pub open spec fn frame_of_keymap(f: OverlayFrame, k: KeymapConfig) -> bool {
    f.title@ == "KEYBINDS"@ && crate::keymap::row_texts(f.lines@) == crate::keymap::keybind_rows(k) && f.scroll == 0
}

/// The cursor of a column is on an entry, or at the top of an empty column.
pub open spec fn cursor_ok(c: DirColumn) -> bool {
    c.selected == 0 || c.selected < c.entries@.len()
}

pub open spec fn columns_ok(cols: Seq<DirColumn>) -> bool {
    forall|k: int| 0 <= k < cols.len() ==> cursor_ok(#[trigger] cols[k])
}

/// The indices of the entries whose lower-cased name holds the lower-cased
/// query as a subsequence; all indices for an empty query.
pub open spec fn matches_query(query: Seq<char>, e: DirEntry) -> bool {
    query.len() == 0 || is_subsequence(ascii_lower_seq(query), ascii_lower_seq(e.name@))
}

proof fn lemma_subsequence_of_itself(s: Seq<char>)
    ensures
        crate::text::is_subsequence(s, s),
    decreases s.len(),
{
    if s.len() > 0 {
        lemma_subsequence_of_itself(s.drop_first());
    }
}

/// Local search ignores ASCII case: an entry is shown for a query exactly
/// when it is shown for the query and the name in any other casing, and a
/// query that spells the whole name, in whatever case, shows it.
pub proof fn lemma_local_search_ignores_case(q1: Seq<char>, q2: Seq<char>, e1: DirEntry, e2: DirEntry)
    ensures
        (crate::text::ascii_lower_seq(q1) == crate::text::ascii_lower_seq(q2)
            && crate::text::ascii_lower_seq(e1.name@) == crate::text::ascii_lower_seq(e2.name@))
            ==> matches_query(q1, e1) == matches_query(q2, e2),
        crate::text::ascii_lower_seq(q1) == crate::text::ascii_lower_seq(e1.name@) ==> matches_query(q1, e1),
{
    assert(crate::text::ascii_lower_seq(q1).len() == q1.len());
    assert(crate::text::ascii_lower_seq(q2).len() == q2.len());
    lemma_subsequence_of_itself(crate::text::ascii_lower_seq(q1));
}

pub open spec fn filtered_indices(query: Seq<char>, es: Seq<DirEntry>) -> Seq<int>
    decreases es.len(),
{
    if es.len() == 0 {
        Seq::empty()
    } else {
        let rest = filtered_indices(query, es.drop_last());
        if matches_query(query, es.last()) {
            rest.push(es.len() - 1)
        } else {
            rest
        }
    }
}

pub proof fn lemma_filtered_indices(query: Seq<char>, es: Seq<DirEntry>)
    ensures
        forall|k: int| 0 <= k < filtered_indices(query, es).len() ==> 0 <= #[trigger] filtered_indices(query, es)[k] < es.len(),
        forall|k: int, l: int| 0 <= k < l < filtered_indices(query, es).len() ==> #[trigger] filtered_indices(query, es)[k] < #[trigger] filtered_indices(query, es)[l],
        forall|k: int| 0 <= k < filtered_indices(query, es).len() ==> matches_query(query, es[#[trigger] filtered_indices(query, es)[k]]),
        forall|i: int| 0 <= i < es.len() && matches_query(query, #[trigger] es[i]) ==> filtered_indices(query, es).contains(i),
    decreases es.len(),
{
    if es.len() > 0 {
        lemma_filtered_indices(query, es.drop_last());
        let rest = filtered_indices(query, es.drop_last());
        assert forall|i: int| 0 <= i < es.len() && matches_query(query, #[trigger] es[i]) implies filtered_indices(query, es).contains(i) by {
            if i < es.len() - 1 {
                assert(es.drop_last()[i] == es[i]);
                let k = choose|k: int| 0 <= k < rest.len() && rest[k] == i;
                assert(filtered_indices(query, es)[k] == i);
            } else {
                assert(filtered_indices(query, es)[rest.len() as int] == i);
            }
        }
        assert forall|k: int| 0 <= k < filtered_indices(query, es).len() implies matches_query(query, es[#[trigger] filtered_indices(query, es)[k]]) by {
            if k < rest.len() {
                assert(es.drop_last()[rest[k]] == es[rest[k]]);
            }
        }
    }
}

/// The entries of a column that a local search shows (`fuzzy_contains` on
/// ASCII-lower-cased names); all of them for an empty query.
pub fn local_filtered_indices_with_query(query: &str, col: &DirColumn) -> (r: Vec<usize>)
    ensures
        r@.len() == filtered_indices(query@, col.entries@).len(),
        forall|k: int| 0 <= k < r@.len() ==> (#[trigger] r@[k]) as int == filtered_indices(query@, col.entries@)[k],
{
    let q = to_ascii_lowercase(query);
    let mut out: Vec<usize> = Vec::new();
    let mut i: usize = 0;
    let qempty = q.as_str().is_empty();
    while i < col.entries.len()
        invariant
            i <= col.entries@.len(),
            q@ == ascii_lower_seq(query@),
            qempty == (query@.len() == 0),
            out@.len() == filtered_indices(query@, col.entries@.take(i as int)).len(),
            forall|k: int| 0 <= k < out@.len() ==> (#[trigger] out@[k]) as int == filtered_indices(query@, col.entries@.take(i as int))[k],
        decreases col.entries@.len() - i,
    {
        let ghost t = col.entries@.take(i + 1);
        assert(t.drop_last() =~= col.entries@.take(i as int));
        let keep = qempty || {
            let name = to_ascii_lowercase(col.entries[i].name.as_str());
            fuzzy_contains(name.as_str(), q.as_str())
        };
        if keep {
            out.push(i);
        }
        i += 1;
    }
    assert(col.entries@.take(col.entries@.len() as int) =~= col.entries@);
    out
}

/// The state of the key handling modes.
pub open spec fn mode_state(a: App) -> UiModeState {
    UiModeState {
        sudo: a.sudo_mode,
        select: a.selection_mode,
        bookmark: a.awaiting_bookmark_slot,
        search: a.search_mode != SearchMode::Idle,
    }
}

pub open spec fn highlight_of(m: UiModeState) -> ModeHighlight {
    if m.search {
        ModeHighlight::Search
    } else if m.bookmark {
        ModeHighlight::Bookmark
    } else if m.select {
        ModeHighlight::Selection
    } else if m.sudo {
        ModeHighlight::Sudo
    } else {
        ModeHighlight::Normal
    }
}

impl App {
    /// The invariant of the state: the global cursor on a result, the active
    /// profile one of the profiles, and no path twice in a selection. (A
    /// column's cursor may lie past the end of its entries after they were
    /// read again.)
    pub open spec fn wf(self) -> bool {
        &&& (self.global_selected == 0 || self.global_selected < self.global_results@.len())
        &&& (self.active_profile == 0 || self.active_profile < self.config.profiles@.len())
        &&& no_path_repeats(self.mode_selected_paths@)
        &&& no_path_repeats(self.mode_last_range@)
        &&& no_path_repeats(self.simple_selected_paths@)
        &&& no_path_repeats(self.simple_last_range@)
        &&& (self.keybinds_overlay_cache matches Some(f) ==> frame_of_keymap(f, self.keymap))
    }

    /// A fresh explorer on the first profile: the settings it implies, no
    /// columns yet (see `set_columns`), no sidebar lists yet (see
    /// `set_sidebar_lists`), nothing selected or searched.
    pub fn new(config: AppConfig, fallback_theme: Theme, keymap: KeymapConfig, user_name: String, device_name: String) -> (r: App)
        ensures
            r.wf(),
            r.active_profile == 0,
            effective_matches(&r.config, if config.profiles@.len() > 0 { Some(&config.profiles@[0]) } else { None }, &fallback_theme, &r.effective),
            r.config == config,
            r.fallback_theme == fallback_theme,
            r.current_dir == r.effective.start_dir,
            r.columns@.len() == 0,
            r.search_mode == SearchMode::Idle,
            r.input_mode == InputMode::Idle,
            !r.selection_mode,
            r.dialog is None,
            r.keymap == keymap,
            r.user_name == user_name,
            r.device_name == device_name,
            !r.sudo_mode,
            r.keybinds_overlay is None,
    {
        let effective = config.effective_for_profile(
            if config.profiles.len() > 0 { Some(&config.profiles[0]) } else { None },
            &fallback_theme,
        );
        let runtime_plan = RuntimePlan::from_effective(&effective);
        let current_dir = effective.start_dir.clone();
        App {
            config,
            fallback_theme,
            active_profile: 0,
            effective,
            runtime_plan,
            recents: Vec::new(),
            drives: Vec::new(),
            current_dir,
            columns: Vec::new(),
            search_mode: SearchMode::Idle,
            search_query: String::new(),
            global_results: Vec::new(),
            global_selected: 0,
            input_mode: InputMode::Idle,
            input_buffer: String::new(),
            rename_target: None,
            clipboard: None,
            status_message: String::new(),
            selection_mode: false,
            mode_selected_paths: Vec::new(),
            mode_range_anchor: None,
            mode_last_range: Vec::new(),
            locked_column_path: None,
            simple_selected_paths: Vec::new(),
            simple_range_anchor: None,
            simple_last_range: Vec::new(),
            simple_column_path: None,
            dialog: None,
            keymap,
            awaiting_bookmark_slot: false,
            user_name,
            device_name,
            image_protocol: None,
            sudo_mode: false,
            sudo_password_prompt: false,
            sudo_password_input: String::new(),
            keybinds_overlay: None,
            keybinds_overlay_cache: None,
        }
    }

    /// The modes in force.
    pub fn ui_mode_state(&self) -> (r: UiModeState)
        ensures
            r == mode_state(*self),
    {
        UiModeState {
            sudo: self.sudo_mode,
            select: self.selection_mode,
            bookmark: self.awaiting_bookmark_slot,
            search: self.search_mode != SearchMode::Idle,
        }
    }

    /// The mode whose colour the panels take.
    pub fn ui_mode_highlight(&self) -> (r: ModeHighlight)
        ensures
            r == highlight_of(mode_state(*self)),
    {
        let mode = self.ui_mode_state();
        if mode.search {
            ModeHighlight::Search
        } else if mode.bookmark {
            ModeHighlight::Bookmark
        } else if mode.select {
            ModeHighlight::Selection
        } else if mode.sudo {
            ModeHighlight::Sudo
        } else {
            ModeHighlight::Normal
        }
    }

    /// The theme colour of the mode in force: the search, bookmark or
    /// selection colour, or the default panel label colour. The theme holds
    /// no colour for sudo mode: `None` then.
    pub fn ui_mode_color_name(&self) -> (r: Option<&String>)
        ensures
            r == match highlight_of(mode_state(*self)) {
                ModeHighlight::Search => Some(&self.effective.theme_colors.vars.search_mode),
                ModeHighlight::Bookmark => Some(&self.effective.theme_colors.vars.bookmark_mode),
                ModeHighlight::Selection => Some(&self.effective.theme_colors.vars.selection_mode),
                ModeHighlight::Sudo => None,
                ModeHighlight::Normal => Some(&self.effective.theme_colors.vars.defult_panel_label),
            },
    {
        match self.ui_mode_highlight() {
            ModeHighlight::Search => Some(&self.effective.theme_colors.vars.search_mode),
            ModeHighlight::Bookmark => Some(&self.effective.theme_colors.vars.bookmark_mode),
            ModeHighlight::Selection => Some(&self.effective.theme_colors.vars.selection_mode),
            ModeHighlight::Sudo => None,
            ModeHighlight::Normal => Some(&self.effective.theme_colors.vars.defult_panel_label),
        }
    }

    /// Some mode is in force that colours the panels.
    pub open spec fn mode_active(self) -> bool {
        self.sudo_mode || self.awaiting_bookmark_slot || self.selection_mode || self.search_mode != SearchMode::Idle
    }

    /// The number of entries in the last column.
    pub fn current_file_count(&self) -> (r: usize)
        ensures
            r == if self.columns@.len() > 0 { self.columns@.last().entries@.len() } else { 0 },
    {
        let n = self.columns.len();
        if n > 0 { self.columns[n - 1].entries.len() } else { 0 }
    }

    /// The entry under the cursor of the last column, outside a global
    /// search.
    pub fn selected_entry(&self) -> (r: Option<&DirEntry>)
        ensures
            r == if self.search_mode != SearchMode::Global && self.columns@.len() > 0
                && self.columns@.last().selected < self.columns@.last().entries@.len() {
                Some(&self.columns@.last().entries@[self.columns@.last().selected as int])
            } else {
                None
            },
    {
        if self.search_mode == SearchMode::Global {
            return None;
        }
        let n = self.columns.len();
        if n == 0 {
            return None;
        }
        let c = &self.columns[n - 1];
        if c.selected < c.entries.len() { Some(&c.entries[c.selected]) } else { None }
    }

    pub open spec fn selected_entry_spec(self) -> Option<DirEntry> {
        if self.search_mode != SearchMode::Global && self.columns@.len() > 0
            && self.columns@.last().selected < self.columns@.last().entries@.len() {
            Some(self.columns@.last().entries@[self.columns@.last().selected as int])
        } else {
            None
        }
    }

    /// The path of the entry under the cursor.
    pub fn selected_entry_path(&self) -> (r: Option<String>)
        ensures
            r == match self.selected_entry_spec() { Some(e) => Some(e.path), None => None },
    {
        match self.selected_entry() {
            Some(e) => Some(e.path.clone()),
            None => None,
        }
    }

    pub open spec fn selected_dir_spec(self) -> Option<String> {
        if self.columns@.len() > 0 && self.columns@.last().selected < self.columns@.last().entries@.len()
            && self.columns@.last().entries@[self.columns@.last().selected as int].is_dir {
            Some(self.columns@.last().entries@[self.columns@.last().selected as int].path)
        } else {
            None
        }
    }

    /// The path of the entry under the cursor of the last column, where it is
    /// a directory.
    pub fn selected_dir_path(&self) -> (r: Option<&String>)
        ensures
            match r { Some(p) => self.selected_dir_spec() == Some(*p), None => self.selected_dir_spec() is None },
    {
        let n = self.columns.len();
        if n == 0 {
            return None;
        }
        let c = &self.columns[n - 1];
        if c.selected < c.entries.len() && c.entries[c.selected].is_dir {
            Some(&c.entries[c.selected].path)
        } else {
            None
        }
    }

    /// The name of what is under the cursor: the file name of the selected
    /// global result, or the name of the entry under the cursor; `-` where
    /// there is none.
    pub open spec fn selected_name_spec(self) -> Seq<char> {
        if self.search_mode == SearchMode::Global {
            if self.global_selected < self.global_results@.len() {
                match crate::paths::path_file_name(self.global_results@[self.global_selected as int]@) {
                    Some(n) => n,
                    None => "-"@,
                }
            } else {
                "-"@
            }
        } else {
            match self.selected_entry_spec() {
                Some(e) => e.name@,
                None => "-"@,
            }
        }
    }

    /// The name of the entry under the cursor (the file name of the global
    /// result in a global search), or `-`.
    pub fn selected_name(&self) -> (r: String)
        ensures
            r@ == self.selected_name_spec(),
    {
        if self.search_mode == SearchMode::Global {
            if self.global_selected < self.global_results.len() {
                return match crate::paths::file_name(self.global_results[self.global_selected].as_str()) {
                    Some(n) => n,
                    None => "-".to_owned(),
                };
            }
            return "-".to_owned();
        }
        match self.selected_entry() {
            Some(e) => e.name.clone(),
            None => "-".to_owned(),
        }
    }
}


/// The first position of `x` in `f`.
pub open spec fn index_in(f: Seq<int>, x: int) -> Option<int> {
    if exists|p: int| 0 <= p < f.len() && f[p] == x {
        Some(choose|p: int| 0 <= p < f.len() && f[p] == x)
    } else {
        None
    }
}

/// Where the cursor goes on "up" in a filtered list `f`: to the previous
/// shown entry, or to the first shown one when it is on none.
pub open spec fn local_prev(f: Seq<int>, sel: int) -> int {
    if f.len() == 0 {
        sel
    } else {
        match index_in(f, sel) {
            Some(p) => if p > 0 { f[p - 1] } else { sel },
            None => f[0],
        }
    }
}

/// Where the cursor goes on "down" in a filtered list `f`.
pub open spec fn local_next(f: Seq<int>, sel: int) -> int {
    if f.len() == 0 {
        sel
    } else {
        match index_in(f, sel) {
            Some(p) => if p + 1 < f.len() { f[p + 1] } else { sel },
            None => f[0],
        }
    }
}

pub(crate) fn position_in(f: &Vec<usize>, x: usize) -> (r: Option<usize>)
    requires
        forall|k: int, l: int| 0 <= k < l < f@.len() ==> f@[k] < f@[l],
    ensures
        match r {
            Some(p) => p < f@.len() && f@[p as int] == x,
            None => forall|k: int| 0 <= k < f@.len() ==> f@[k] != x,
        },
{
    let mut i: usize = 0;
    while i < f.len()
        invariant
            i <= f@.len(),
            forall|k: int| 0 <= k < i ==> f@[k] != x,
        decreases f@.len() - i,
    {
        if f[i] == x {
            return Some(i);
        }
        i += 1;
    }
    None
}

pub proof fn lemma_index_in(f: Seq<int>, x: int, p: int)
    requires
        forall|k: int, l: int| 0 <= k < l < f.len() ==> f[k] < f[l],
        0 <= p < f.len(),
        f[p] == x,
    ensures
        index_in(f, x) == Some(p),
{
    let q = choose|q: int| 0 <= q < f.len() && f[q] == x;
    if q < p {
        assert(f[q] < f[p]);
    } else if q > p {
        assert(f[p] < f[q]);
    }
}

/// The column with its cursor moved to `sel`.
pub open spec fn with_cursor(c: DirColumn, sel: int) -> DirColumn {
    DirColumn { selected: sel as usize, ..c }
}

/// The columns with the cursor of the last one moved to `sel`.
pub open spec fn with_last_cursor(cols: Seq<DirColumn>, sel: int) -> Seq<DirColumn> {
    cols.update(cols.len() - 1, with_cursor(cols.last(), sel))
}

/// The sequence of entry indices that the last column shows under the
/// query in force.
pub open spec fn shown_indices(a: App) -> Seq<int> {
    filtered_indices(a.search_query@, a.columns@.last().entries@)
}

impl App {
    fn set_last_cursor(&mut self, sel: usize)
        requires
            old(self).columns@.len() > 0,
        ensures
            *final(self) == (App { columns: final(self).columns, ..*old(self) }),
            final(self).columns@ == with_last_cursor(old(self).columns@, sel as int),
    {
        let mut col = self.columns.pop().unwrap();
        col.selected = sel;
        self.columns.push(col);
        assert(self.columns@ =~= with_last_cursor(old(self).columns@, sel as int));
    }

    /// Moves the cursor up: in a global search to the previous result; in a
    /// local search to the previous entry that matches; else to the previous
    /// entry. A range of the plain selection starts anew.
    pub fn select_prev(&mut self)
        requires
            old(self).wf(),
        ensures
            final(self).wf(),
            after_select_prev(*old(self), *final(self)),
    {
        self.simple_range_anchor = None;
        if self.search_mode == SearchMode::Global {
            if self.global_selected > 0 {
                self.global_selected = self.global_selected - 1;
            }
            return;
        }
        let n = self.columns.len();
        if n == 0 {
            return;
        }
        let sel = self.columns[n - 1].selected;
        if self.search_mode == SearchMode::Local {
            let filtered = local_filtered_indices_with_query(self.search_query.as_str(), &self.columns[n - 1]);
            let ghost f = shown_indices(*old(self));
            proof {
                lemma_filtered_indices(self.search_query@, self.columns@[n - 1].entries@);
                assert forall|k: int, l: int| 0 <= k < l < filtered@.len() implies filtered@[k] < filtered@[l] by {
                    assert(filtered@[k] as int == f[k] && filtered@[l] as int == f[l]);
                }
            }
            if filtered.len() == 0 {
                proof {
                    assert(self.columns@ =~= with_last_cursor(old(self).columns@, sel as int));
                }
                return;
            }
            match position_in(&filtered, sel) {
                Some(pos) => {
                    proof {
                        assert forall|k: int, l: int| 0 <= k < l < f.len() implies f[k] < f[l] by {
                            assert(filtered@[k] as int == f[k] && filtered@[l] as int == f[l]);
                        }
                        lemma_index_in(f, sel as int, pos as int);
                    }
                    if pos > 0 {
                        let to = filtered[pos - 1];
                        self.set_last_cursor(to);
                    } else {
                        proof {
                            assert(self.columns@ =~= with_last_cursor(old(self).columns@, sel as int));
                        }
                    }
                },
                None => {
                    proof {
                        assert(index_in(f, sel as int) is None) by {
                            if exists|p: int| 0 <= p < f.len() && f[p] == sel as int {
                                let p = choose|p: int| 0 <= p < f.len() && f[p] == sel as int;
                                assert(filtered@[p] as int == f[p]);
                            }
                        }
                    }
                    let to = filtered[0];
                    self.set_last_cursor(to);
                },
            }
            return;
        }
        if sel > 0 {
            self.set_last_cursor(sel - 1);
        } else {
            proof {
                assert(self.columns@ =~= with_last_cursor(old(self).columns@, 0));
            }
        }
    }

    /// Moves the cursor down, as `select_prev` moves it up.
    pub fn select_next(&mut self)
        requires
            old(self).wf(),
        ensures
            final(self).wf(),
            after_select_next(*old(self), *final(self)),
    {
        self.simple_range_anchor = None;
        if self.search_mode == SearchMode::Global {
            if self.global_selected < self.global_results.len() && self.global_selected + 1 < self.global_results.len() {
                self.global_selected = self.global_selected + 1;
            }
            return;
        }
        let n = self.columns.len();
        if n == 0 {
            return;
        }
        let sel = self.columns[n - 1].selected;
        let len = self.columns[n - 1].entries.len();
        if self.search_mode == SearchMode::Local {
            let filtered = local_filtered_indices_with_query(self.search_query.as_str(), &self.columns[n - 1]);
            let ghost f = shown_indices(*old(self));
            proof {
                lemma_filtered_indices(self.search_query@, self.columns@[n - 1].entries@);
                assert forall|k: int, l: int| 0 <= k < l < filtered@.len() implies filtered@[k] < filtered@[l] by {
                    assert(filtered@[k] as int == f[k] && filtered@[l] as int == f[l]);
                }
            }
            if filtered.len() == 0 {
                proof {
                    assert(self.columns@ =~= with_last_cursor(old(self).columns@, sel as int));
                }
                return;
            }
            match position_in(&filtered, sel) {
                Some(pos) => {
                    proof {
                        assert forall|k: int, l: int| 0 <= k < l < f.len() implies f[k] < f[l] by {
                            assert(filtered@[k] as int == f[k] && filtered@[l] as int == f[l]);
                        }
                        lemma_index_in(f, sel as int, pos as int);
                    }
                    if pos + 1 < filtered.len() {
                        let to = filtered[pos + 1];
                        self.set_last_cursor(to);
                    } else {
                        proof {
                            assert(self.columns@ =~= with_last_cursor(old(self).columns@, sel as int));
                        }
                    }
                },
                None => {
                    proof {
                        assert(index_in(f, sel as int) is None) by {
                            if exists|p: int| 0 <= p < f.len() && f[p] == sel as int {
                                let p = choose|p: int| 0 <= p < f.len() && f[p] == sel as int;
                                assert(filtered@[p] as int == f[p]);
                            }
                        }
                    }
                    let to = filtered[0];
                    self.set_last_cursor(to);
                },
            }
            return;
        }
        if sel < len && sel + 1 < len {
            self.set_last_cursor(sel + 1);
        } else {
            proof {
                assert(self.columns@ =~= with_last_cursor(old(self).columns@, sel as int));
            }
        }
    }
}


/// What the caller does next, outside: read, walk, touch files, or
/// nothing. Each is answered by one method of `App`.
#[derive(Debug)]
pub enum Effect {
    Nothing,
    /// Check whether the current directory is a directory, then
    /// `track_recent_dir`.
    TrackRecent,
    /// Read this directory, then `push_column`.
    ReadColumn(String),
    /// Read the last column's directory again, then
    /// `refresh_active_column`.
    RefreshActive,
    /// Read every column's directory again, then `refresh_all_columns`.
    RefreshAll,
    /// Walk from the current directory for the query, then
    /// `set_global_results`.
    GlobalSearch,
    /// Check whether this result is a directory, then
    /// `open_global_target`.
    OpenGlobal(String),
    /// Check whether the bookmark's target is a directory, then
    /// `open_bookmark_target`.
    OpenBookmark(char, String),
    /// Check whether this is a directory, then `set_bookmark_slot`.
    CheckBookmarkTarget(char, String),
    /// Load the sidebar lists and image support the new plan needs
    /// (`set_sidebar_lists`, `set_image_protocol`), then rebuild the columns
    /// at `reinit_target` (`set_columns`).
    ProfileChanged,
    /// Create this empty file, then `finish_input`.
    CreateFile(String),
    /// Create this directory and its parents, then `finish_input`.
    CreateDir(String),
    /// Rename the first path to the second, then `finish_input`.
    RenamePath(String, String),
    /// Move these paths to the trash, then `finish_trash`.
    Trash(Vec<String>),
    /// Copy (or move, when the flag is set) each source to its destination,
    /// then `finish_paste`.
    Paste(Vec<PasteStep>, bool),
    /// Write the default configuration file, then `set_status`.
    InitConfig,
    /// Write the default layout file, then `set_status`.
    InitLayout,
    /// Write the default theme file, then `set_status`.
    InitTheme,
    /// Write the default key map file and load the key map, then
    /// `set_keymap`.
    InitKeymap,
    /// Build the chain of columns down to this directory (see
    /// `entries::ancestor_dirs` and `entries::link_columns`), then
    /// `set_columns`.
    BuildColumns(String, ColumnsFor),
}

/// One item to paste: where it comes from, and where it goes (`None` when
/// the source has no file name, which fails).
#[derive(Debug)]
pub struct PasteStep {
    pub source: String,
    pub destination: Option<String>,
}

/// The recent directories after visiting `cur`: `cur` first, then the
/// others in their order, at most `keep` in all.
pub open spec fn differs_from(x: Seq<char>) -> spec_fn(Seq<char>) -> bool {
    |p: Seq<char>| path_components(p) != path_components(x)
}

pub open spec fn without(v: Seq<Seq<char>>, x: Seq<char>) -> Seq<Seq<char>> {
    v.filter(differs_from(x))
}

pub open spec fn recents_after(old: Seq<Seq<char>>, cur: Seq<char>, keep: int) -> Seq<Seq<char>> {
    let l = seq![cur] + without(old, cur);
    if l.len() > keep { l.take(keep) } else { l }
}

/// Keeping the recent directories: the directory just visited heads the
/// list, no path appears twice (in whatever spelling), and the list never
/// grows past its limit.
pub proof fn lemma_recents_after(old: Seq<Seq<char>>, cur: Seq<char>, keep: int)
    requires
        keep >= 1,
        forall|k: int, l: int| 0 <= k < l < old.len() ==> path_components(old[k]) != path_components(old[l]),
    ensures
        recents_after(old, cur, keep).len() >= 1,
        recents_after(old, cur, keep)[0] == cur,
        recents_after(old, cur, keep).len() <= keep,
        forall|k: int, l: int| 0 <= k < l < recents_after(old, cur, keep).len() ==> path_components(recents_after(old, cur, keep)[k]) != path_components(recents_after(old, cur, keep)[l]),
        forall|k: int| 0 <= k < recents_after(old, cur, keep).len() ==> #[trigger] recents_after(old, cur, keep)[k] == cur || old.contains(recents_after(old, cur, keep)[k]),
{
    let f = differs_from(cur);
    let rest = without(old, cur);
    let l = seq![cur] + rest;
    lemma_filter_distinct(old, cur);
    assert forall|k: int| 0 <= k < rest.len() implies path_components(#[trigger] rest[k]) != path_components(cur) && old.contains(rest[k]) by {
        old.lemma_filter_pred(f, k);
        assert(rest.contains(rest[k]));
        old.lemma_filter_contains_rev(f, rest[k]);
    }
    assert forall|k: int, m: int| 0 <= k < m < l.len() implies path_components(l[k]) != path_components(l[m]) by {
        if k == 0 {
            assert(l[m] == rest[m - 1]);
        } else {
            assert(l[k] == rest[k - 1] && l[m] == rest[m - 1]);
        }
    }
    assert forall|k: int| 0 <= k < l.len() implies #[trigger] l[k] == cur || old.contains(l[k]) by {
        if k > 0 {
            assert(l[k] == rest[k - 1]);
        }
    }
}

proof fn lemma_filter_distinct(old: Seq<Seq<char>>, cur: Seq<char>)
    requires
        forall|k: int, l: int| 0 <= k < l < old.len() ==> path_components(old[k]) != path_components(old[l]),
    ensures
        forall|k: int, l: int| 0 <= k < l < without(old, cur).len() ==> path_components(#[trigger] without(old, cur)[k]) != path_components(#[trigger] without(old, cur)[l]),
    decreases old.len(),
{
    reveal(Seq::filter);
    let f = differs_from(cur);
    if old.len() > 0 {
        lemma_filter_distinct(old.drop_last(), cur);
        let r0 = without(old.drop_last(), cur);
        assert forall|k: int| 0 <= k < r0.len() implies path_components(#[trigger] r0[k]) != path_components(old.last()) by {
            assert(r0.contains(r0[k]));
            old.drop_last().lemma_filter_contains_rev(f, r0[k]);
            let j = choose|j: int| 0 <= j < old.drop_last().len() && old.drop_last()[j] == r0[k];
            assert(path_components(old[j]) != path_components(old[old.len() - 1]));
        }
    }
}

impl App {
    /// Records a visit to the current directory, where it is a directory:
    /// it heads the recent list (see `recents_after`), the limit being the
    /// configured one, at least one. Returns whether the list changed and is
    /// to be saved.
    pub fn track_recent_dir(&mut self, current_is_dir: bool) -> (saved: bool)
        ensures
            saved == current_is_dir,
            *final(self) == (App { recents: final(self).recents, ..*old(self) }),
            !current_is_dir ==> final(self).recents == old(self).recents,
            current_is_dir ==> crate::keymap::texts(final(self).recents@) == recents_after(
                crate::keymap::texts(old(self).recents@),
                old(self).current_dir@,
                if old(self).config.sidebar.recent_dirs_limit > 1 { old(self).config.sidebar.recent_dirs_limit as int } else { 1 },
            ),
    {
        if !current_is_dir {
            return false;
        }
        let keep: usize = if self.config.sidebar.recent_dirs_limit > 1 { self.config.sidebar.recent_dirs_limit } else { 1 };
        let ghost old_v = crate::keymap::texts(self.recents@);
        let ghost cur = self.current_dir@;
        let mut out: Vec<String> = Vec::new();
        out.push(self.current_dir.clone());
        let mut i: usize = 0;
        while i < self.recents.len()
            invariant
                i <= self.recents@.len(),
                old_v == crate::keymap::texts(self.recents@),
                cur == self.current_dir@,
                crate::keymap::texts(out@) == seq![cur] + without(old_v.take(i as int), cur),
            decreases self.recents@.len() - i,
        {
            let ghost t = old_v.take(i + 1);
            let ghost prev = crate::keymap::texts(out@);
            assert(t.drop_last() =~= old_v.take(i as int));
            assert(t.last() == self.recents@[i as int]@);
            proof {
                reveal(Seq::filter);
                assert(without(t, cur) == if path_components(t.last()) != path_components(cur) { without(t.drop_last(), cur).push(t.last()) } else { without(t.drop_last(), cur) });
            }
            if !crate::paths::same_path(self.recents[i].as_str(), self.current_dir.as_str()) {
                out.push(self.recents[i].clone());
                assert(crate::keymap::texts(out@) =~= prev.push(t.last()));
            }
            i += 1;
            assert(crate::keymap::texts(out@) =~= seq![cur] + without(old_v.take(i as int), cur));
        }
        assert(old_v.take(self.recents@.len() as int) =~= old_v);
        if out.len() > keep {
            out.truncate(keep);
        }
        assert(crate::keymap::texts(out@) =~= recents_after(old_v, cur, keep as int));
        self.recents = out;
        true
    }

    /// Clears the plain selection and forgets which column it belongs to.
    pub fn clear_simple_selection(&mut self)
        requires
            old(self).wf(),
        ensures
            final(self).wf(),
            *final(self) == (App {
                simple_selected_paths: final(self).simple_selected_paths,
                simple_range_anchor: None,
                simple_last_range: final(self).simple_last_range,
                simple_column_path: None,
                ..*old(self)
            }),
            final(self).simple_selected_paths@.len() == 0,
            final(self).simple_last_range@.len() == 0,
    {
        self.simple_selected_paths = Vec::new();
        self.simple_range_anchor = None;
        self.simple_last_range = Vec::new();
        self.simple_column_path = None;
    }

    /// Clears both selections and leaves selection mode.
    pub fn clear_all_selection(&mut self)
        requires
            old(self).wf(),
        ensures
            final(self).wf(),
            *final(self) == (App {
                simple_selected_paths: final(self).simple_selected_paths,
                simple_range_anchor: None,
                simple_last_range: final(self).simple_last_range,
                simple_column_path: None,
                mode_selected_paths: final(self).mode_selected_paths,
                mode_range_anchor: None,
                mode_last_range: final(self).mode_last_range,
                locked_column_path: None,
                selection_mode: false,
                ..*old(self)
            }),
            final(self).simple_selected_paths@.len() == 0,
            final(self).simple_last_range@.len() == 0,
            final(self).mode_selected_paths@.len() == 0,
            final(self).mode_last_range@.len() == 0,
    {
        self.clear_simple_selection();
        self.mode_selected_paths = Vec::new();
        self.mode_range_anchor = None;
        self.mode_last_range = Vec::new();
        self.locked_column_path = None;
        self.selection_mode = false;
    }

    /// Ties the plain selection to the column at `path`: a selection made in
    /// another column (another path, compared as std compares paths) is
    /// dropped first.
    pub fn ensure_simple_column(&mut self, path: String)
        requires
            old(self).wf(),
        ensures
            final(self).wf(),
            (old(self).simple_column_path matches Some(p) && path_components(p@) == path_components(path@)) ==> *final(self) == *old(self),
            !(old(self).simple_column_path matches Some(p) && path_components(p@) == path_components(path@)) ==> {
                &&& *final(self) == (App {
                    simple_selected_paths: final(self).simple_selected_paths,
                    simple_range_anchor: None,
                    simple_last_range: final(self).simple_last_range,
                    simple_column_path: Some(path),
                    ..*old(self)
                })
                &&& final(self).simple_selected_paths@.len() == 0
                &&& final(self).simple_last_range@.len() == 0
            },
    {
        let same = match &self.simple_column_path {
            Some(p) => crate::paths::same_path(p.as_str(), path.as_str()),
            None => false,
        };
        if !same {
            self.simple_selected_paths = Vec::new();
            self.simple_range_anchor = None;
            self.simple_last_range = Vec::new();
            self.simple_column_path = Some(path);
        }
    }

    /// Enters selection mode with nothing selected, locked to the last
    /// column; the plain selection is cleared. Nothing changes when already
    /// in selection mode.
    pub fn enter_selection_mode(&mut self)
        requires
            old(self).wf(),
        ensures
            final(self).wf(),
            after_enter_selection_mode(*old(self), *final(self)),
    {
        if self.selection_mode {
            return;
        }
        self.selection_mode = true;
        self.mode_selected_paths = Vec::new();
        self.mode_range_anchor = None;
        self.mode_last_range = Vec::new();
        let n = self.columns.len();
        self.locked_column_path = if n > 0 { Some(self.columns[n - 1].path.clone()) } else { None };
        self.clear_simple_selection();
    }

    /// Leaves selection mode, dropping its selection.
    pub fn exit_selection_mode(&mut self)
        requires
            old(self).wf(),
        ensures
            final(self).wf(),
            after_exit_selection_mode(*old(self), *final(self)),
    {
        self.selection_mode = false;
        self.mode_selected_paths = Vec::new();
        self.mode_range_anchor = None;
        self.mode_last_range = Vec::new();
        self.locked_column_path = None;
    }

    /// Marks or unmarks the entry under the cursor in selection mode; a
    /// range starts anew.
    pub fn toggle_focused_selection(&mut self)
        requires
            old(self).wf(),
        ensures
            final(self).wf(),
            after_toggle_focused_selection(*old(self), *final(self)),
    {
        let path = match self.selected_entry_path() {
            Some(p) => p,
            None => return,
        };
        self.mode_range_anchor = None;
        self.mode_last_range = Vec::new();
        crate::pathset::toggle_path(&mut self.mode_selected_paths, path.as_str());
    }

    /// The selection that operations act on: selection mode's, else the
    /// plain one.
    pub fn selection_set(&self) -> (r: &Vec<String>)
        ensures
            r == if self.selection_mode { &self.mode_selected_paths } else { &self.simple_selected_paths },
    {
        if self.selection_mode { &self.mode_selected_paths } else { &self.simple_selected_paths }
    }

    /// The paths an operation acts on: the selection where it is not empty,
    /// else the entry under the cursor, else none.
    pub fn operation_paths(&self) -> (r: Vec<String>)
        ensures
            ({
                let set = if self.selection_mode { self.mode_selected_paths } else { self.simple_selected_paths };
                if set@.len() > 0 {
                    r@ == set@
                } else {
                    match self.selected_entry_spec() {
                        Some(e) => r@ == seq![e.path],
                        None => r@.len() == 0,
                    }
                }
            }),
    {
        let set = self.selection_set();
        if set.len() > 0 {
            let r = set.clone();
            assert(r@ =~= set@);
            return r;
        }
        match self.selected_entry_path() {
            Some(p) => vec![p],
            None => Vec::new(),
        }
    }
}


/// Some entry of `es` between positions `a` and `b` (either way round) is at
/// `q`.
pub open spec fn in_span(es: Seq<DirEntry>, a: int, b: int, q: Seq<char>) -> bool {
    exists|i: int|
        (if a < b { a } else { b }) <= i <= (if a < b { b } else { a }) && 0 <= i < es.len() && path_components((#[trigger] es[i]).path@) == path_components(q)
}

/// Where a range step moves the cursor of a column: one down or one up, or
/// nowhere at either end or in an empty column.
pub open spec fn step_target(c: DirColumn, down: bool) -> Option<int> {
    if c.entries@.len() == 0 {
        None
    } else if down {
        if c.selected + 1 < c.entries@.len() { Some(c.selected + 1) } else { None }
    } else {
        if c.selected > 0 { Some(c.selected - 1) } else { None }
    }
}

fn apply_range(entries: &Vec<DirEntry>, anchor: usize, cursor: usize, sel: &mut Vec<String>, last: &mut Vec<String>)
    requires
        anchor < entries@.len(),
        cursor < entries@.len(),
        no_path_repeats(old(sel)@),
        no_path_repeats(old(last)@),
    ensures
        no_path_repeats(final(sel)@),
        no_path_repeats(final(last)@),
        forall|q: Seq<char>| #[trigger] holds_path(final(last)@, q) == in_span(entries@, anchor as int, cursor as int, q),
        forall|q: Seq<char>| #[trigger] holds_path(final(sel)@, q) == (holds_path(old(sel)@, q) != (in_span(entries@, anchor as int, cursor as int, q) != holds_path(old(last)@, q))),
{
    let lo = if anchor < cursor { anchor } else { cursor };
    let hi = if anchor < cursor { cursor } else { anchor };
    let fresh = crate::pathset::range_paths(entries, lo, hi);
    crate::pathset::toggle_difference(sel, &fresh, last);
    *last = fresh;
}

impl App {
    /// The cursor of the last column is on an entry, and the range anchor of
    /// the plain selection is one of its rows whenever the selection belongs
    /// to it (a stale cursor or anchor past the end of a shorter listing
    /// would index out of bounds).
    pub open spec fn simple_anchor_ok(self) -> bool {
        &&& (self.columns@.len() > 0 ==> cursor_ok(self.columns@.last()))
        &&& (self.columns@.len() > 0 && (self.simple_column_path matches Some(p) && path_components(p@) == path_components(self.columns@.last().path@)))
            ==> (self.simple_range_anchor matches Some(x) ==> x < self.columns@.last().entries@.len())
    }

    /// The cursor of the last column is on an entry, and the range anchor of
    /// selection mode is one of its rows.
    pub open spec fn mode_anchor_ok(self) -> bool {
        &&& (self.columns@.len() > 0 ==> cursor_ok(self.columns@.last()))
        &&& (self.columns@.len() > 0 ==> (self.mode_range_anchor matches Some(x) ==> x < self.columns@.last().entries@.len()))
    }

    /// Extends the plain range selection one row down (`down`) or up, in the
    /// last column: the cursor moves, the range runs from the anchor (set on
    /// the first step) to the cursor, and the paths that enter or leave the
    /// range flip in the selection. A selection made in another column is
    /// dropped first. The selection taken apart from the range stays what it
    /// was.
    #[verifier::spinoff_prover]
    #[verifier::rlimit(40)]
    pub fn select_range_step_simple(&mut self, down: bool)
        requires
            old(self).wf(),
            old(self).simple_anchor_ok(),
        ensures
            final(self).wf(),
            old(self).columns@.len() == 0 ==> *final(self) == *old(self),
            old(self).columns@.len() > 0 ==> ({
                let c = old(self).columns@.last();
                let same = (old(self).simple_column_path matches Some(p) && path_components(p@) == path_components(c.path@));
                let base_anchor = if same { old(self).simple_range_anchor } else { None };
                &&& *final(self) == (App {
                    columns: final(self).columns,
                    simple_selected_paths: final(self).simple_selected_paths,
                    simple_range_anchor: final(self).simple_range_anchor,
                    simple_last_range: final(self).simple_last_range,
                    simple_column_path: final(self).simple_column_path,
                    ..*old(self)
                })
                &&& final(self).simple_column_path matches Some(p) && path_components(p@) == path_components(c.path@)
                &&& match step_target(c, down) {
                    None => {
                        &&& final(self).columns == old(self).columns
                        &&& final(self).simple_range_anchor == base_anchor
                        &&& forall|q: Seq<char>| #[trigger] holds_path(final(self).simple_selected_paths@, q) == (same && holds_path(old(self).simple_selected_paths@, q))
                        &&& forall|q: Seq<char>| #[trigger] holds_path(final(self).simple_last_range@, q) == (same && holds_path(old(self).simple_last_range@, q))
                    },
                    Some(t) => {
                        let anchor = match base_anchor { Some(a) => a as int, None => c.selected as int };
                        &&& final(self).columns@ == with_last_cursor(old(self).columns@, t)
                        &&& final(self).simple_range_anchor == Some(anchor as usize)
                        &&& forall|q: Seq<char>| #[trigger] holds_path(final(self).simple_last_range@, q) == in_span(c.entries@, anchor, t, q)
                        &&& forall|q: Seq<char>| #[trigger] holds_path(final(self).simple_selected_paths@, q)
                            == ((same && holds_path(old(self).simple_selected_paths@, q)) != (in_span(c.entries@, anchor, t, q) != (same && holds_path(old(self).simple_last_range@, q))))
                        &&& forall|q: Seq<char>| (#[trigger] holds_path(final(self).simple_selected_paths@, q) != holds_path(final(self).simple_last_range@, q))
                            == ((same && holds_path(old(self).simple_selected_paths@, q)) != (same && holds_path(old(self).simple_last_range@, q)))
                    },
                }
            }),
    {
        let n = self.columns.len();
        if n == 0 {
            return;
        }
        let path = self.columns[n - 1].path.clone();
        self.ensure_simple_column(path);
        let len = self.columns[n - 1].entries.len();
        if len == 0 {
            return;
        }
        let prev = self.columns[n - 1].selected;
        proof {
            assert(cursor_ok(self.columns@[n - 1]));
        }
        let target: usize = if down {
            if prev + 1 < len { prev + 1 } else { return }
        } else {
            if prev == 0 { return }
            prev - 1
        };
        self.set_last_cursor(target);
        let anchor = match self.simple_range_anchor {
            Some(a) => a,
            None => prev,
        };
        self.simple_range_anchor = Some(anchor);
        let ghost es = self.columns@[n - 1].entries@;
        apply_range(&self.columns[n - 1].entries, anchor, target, &mut self.simple_selected_paths, &mut self.simple_last_range);
    }

    /// Extends the range selection of selection mode one row down (`down`)
    /// or up, as `select_range_step_simple` does for the plain selection
    /// (without the column check).
    #[verifier::spinoff_prover]
    #[verifier::rlimit(40)]
    pub fn select_range_step_mode(&mut self, down: bool)
        requires
            old(self).wf(),
            old(self).mode_anchor_ok(),
        ensures
            final(self).wf(),
            after_select_range_step_mode(*old(self), *final(self), down),
    {
        let n = self.columns.len();
        if n == 0 {
            return;
        }
        let len = self.columns[n - 1].entries.len();
        if len == 0 {
            return;
        }
        let prev = self.columns[n - 1].selected;
        proof {
            assert(cursor_ok(self.columns@[n - 1]));
        }
        let target: usize = if down {
            if prev + 1 < len { prev + 1 } else { return }
        } else {
            if prev == 0 { return }
            prev - 1
        };
        self.set_last_cursor(target);
        let anchor = match self.mode_range_anchor {
            Some(a) => a,
            None => prev,
        };
        self.mode_range_anchor = Some(anchor);
        apply_range(&self.columns[n - 1].entries, anchor, target, &mut self.mode_selected_paths, &mut self.mode_last_range);
    }

    /// Moves the cursor up in selection mode; a range starts anew.
    pub fn select_prev_mode(&mut self)
        requires
            old(self).wf(),
        ensures
            final(self).wf(),
            after_select_prev_mode(*old(self), *final(self)),
    {
        self.mode_range_anchor = None;
        self.mode_last_range = Vec::new();
        self.select_prev();
    }

    /// Moves the cursor down in selection mode; a range starts anew.
    pub fn select_next_mode(&mut self)
        requires
            old(self).wf(),
        ensures
            final(self).wf(),
            after_select_next_mode(*old(self), *final(self)),
    {
        self.mode_range_anchor = None;
        self.mode_last_range = Vec::new();
        self.select_next();
    }
}


/// What a column chain is rebuilt for.
#[derive(Debug, Clone, Copy, PartialEq, Eq, Structural)]
pub enum ColumnsFor {
    /// The settings changed: the columns are rebuilt where they were.
    Reinit,
    /// A bookmark was opened.
    Bookmark(char),
    /// A global search result was opened.
    GlobalResult,
}

/// What `select_prev` does (see there).
pub open spec fn after_select_prev(pre: App, post: App) -> bool {
    &&& (post == (App {
            simple_range_anchor: None,
            global_selected: post.global_selected,
            columns: post.columns,
            ..pre
        }))
    &&& (pre.search_mode == SearchMode::Global ==> {
            &&& post.global_selected == if pre.global_selected > 0 { (pre.global_selected - 1) as usize } else { pre.global_selected }
            &&& post.columns == pre.columns
        })
    &&& (pre.search_mode != SearchMode::Global ==> post.global_selected == pre.global_selected)
    &&& (pre.search_mode != SearchMode::Global && pre.columns@.len() == 0 ==> post.columns == pre.columns)
    &&& (pre.search_mode == SearchMode::Local && pre.columns@.len() > 0 ==>
            post.columns@ == with_last_cursor(pre.columns@, local_prev(shown_indices(pre), pre.columns@.last().selected as int)))
    &&& (pre.search_mode == SearchMode::Idle && pre.columns@.len() > 0 ==>
            post.columns@ == with_last_cursor(pre.columns@, if pre.columns@.last().selected > 0 { pre.columns@.last().selected - 1 } else { 0 }))
}

/// What `select_next` does (see there).
pub open spec fn after_select_next(pre: App, post: App) -> bool {
    &&& (post == (App {
            simple_range_anchor: None,
            global_selected: post.global_selected,
            columns: post.columns,
            ..pre
        }))
    &&& (pre.search_mode == SearchMode::Global ==> {
            &&& post.global_selected == if pre.global_selected + 1 < pre.global_results@.len() { (pre.global_selected + 1) as usize } else { pre.global_selected }
            &&& post.columns == pre.columns
        })
    &&& (pre.search_mode != SearchMode::Global ==> post.global_selected == pre.global_selected)
    &&& (pre.search_mode != SearchMode::Global && pre.columns@.len() == 0 ==> post.columns == pre.columns)
    &&& (pre.search_mode == SearchMode::Local && pre.columns@.len() > 0 ==>
            post.columns@ == with_last_cursor(pre.columns@, local_next(shown_indices(pre), pre.columns@.last().selected as int)))
    &&& (pre.search_mode == SearchMode::Idle && pre.columns@.len() > 0 ==>
            post.columns@ == with_last_cursor(pre.columns@,
                if pre.columns@.last().selected + 1 < pre.columns@.last().entries@.len() { pre.columns@.last().selected + 1 } else { pre.columns@.last().selected as int }))
}

/// What `enter_selection_mode` does (see there).
pub open spec fn after_enter_selection_mode(pre: App, post: App) -> bool {
    &&& (pre.selection_mode ==> post == pre)
    &&& (!pre.selection_mode ==> {
            &&& post == (App {
                selection_mode: true,
                mode_selected_paths: post.mode_selected_paths,
                mode_range_anchor: None,
                mode_last_range: post.mode_last_range,
                locked_column_path: post.locked_column_path,
                simple_selected_paths: post.simple_selected_paths,
                simple_range_anchor: None,
                simple_last_range: post.simple_last_range,
                simple_column_path: None,
                ..pre
            })
            &&& post.mode_selected_paths@.len() == 0
            &&& post.mode_last_range@.len() == 0
            &&& post.simple_selected_paths@.len() == 0
            &&& post.simple_last_range@.len() == 0
            &&& post.locked_column_path == if pre.columns@.len() > 0 { Some(pre.columns@.last().path) } else { None }
        })
}

/// What `exit_selection_mode` does (see there).
pub open spec fn after_exit_selection_mode(pre: App, post: App) -> bool {
    &&& (post == (App {
            selection_mode: false,
            mode_selected_paths: post.mode_selected_paths,
            mode_range_anchor: None,
            mode_last_range: post.mode_last_range,
            locked_column_path: None,
            ..pre
        }))
    &&& (post.mode_selected_paths@.len() == 0)
    &&& (post.mode_last_range@.len() == 0)
}

/// What `toggle_focused_selection` does (see there).
pub open spec fn after_toggle_focused_selection(pre: App, post: App) -> bool {
    &&& (pre.selected_entry_spec() is None ==> post == pre)
    &&& (pre.selected_entry_spec() matches Some(e) ==> {
            &&& post == (App {
                mode_range_anchor: None,
                mode_last_range: post.mode_last_range,
                mode_selected_paths: post.mode_selected_paths,
                ..pre
            })
            &&& post.mode_last_range@.len() == 0
            &&& forall|q: Seq<char>| #[trigger] holds_path(post.mode_selected_paths@, q)
                == (if path_components(q) == path_components(e.path@) { !holds_path(pre.mode_selected_paths@, q) } else { holds_path(pre.mode_selected_paths@, q) })
        })
}

/// Marking the entry under the cursor twice leaves selection mode's set
/// holding the same paths as before (paths compared as std compares them).
pub proof fn lemma_toggle_twice(a0: App, a1: App, a2: App)
    requires
        after_toggle_focused_selection(a0, a1),
        after_toggle_focused_selection(a1, a2),
    ensures
        forall|q: Seq<char>| #[trigger] holds_path(a2.mode_selected_paths@, q) == holds_path(a0.mode_selected_paths@, q),
{
    if a0.selected_entry_spec() is Some {
        assert(a1.selected_entry_spec() == a0.selected_entry_spec());
    }
}

/// What `select_range_step_mode` does (see there).
pub open spec fn after_select_range_step_mode(pre: App, post: App, down: bool) -> bool {
    &&& (pre.columns@.len() == 0 ==> post == pre)
    &&& (pre.columns@.len() > 0 ==> ({
            let c = pre.columns@.last();
            &&& post == (App {
                columns: post.columns,
                mode_selected_paths: post.mode_selected_paths,
                mode_range_anchor: post.mode_range_anchor,
                mode_last_range: post.mode_last_range,
                ..pre
            })
            &&& match step_target(c, down) {
                None => post == pre,
                Some(t) => {
                    let anchor = match pre.mode_range_anchor { Some(a) => a as int, None => c.selected as int };
                    &&& post.columns@ == with_last_cursor(pre.columns@, t)
                    &&& post.mode_range_anchor == Some(anchor as usize)
                    &&& forall|q: Seq<char>| #[trigger] holds_path(post.mode_last_range@, q) == in_span(c.entries@, anchor, t, q)
                    &&& forall|q: Seq<char>| #[trigger] holds_path(post.mode_selected_paths@, q)
                        == (holds_path(pre.mode_selected_paths@, q) != (in_span(c.entries@, anchor, t, q) != holds_path(pre.mode_last_range@, q)))
                    &&& forall|q: Seq<char>| (#[trigger] holds_path(post.mode_selected_paths@, q) != holds_path(post.mode_last_range@, q))
                        == (holds_path(pre.mode_selected_paths@, q) != holds_path(pre.mode_last_range@, q))
                },
            }
        }))
}

/// What `select_range_step_simple` does (see there).
pub open spec fn after_select_range_step_simple(pre: App, post: App, down: bool) -> bool {
    &&& (pre.columns@.len() == 0 ==> post == pre)
    &&& (pre.columns@.len() > 0 ==> ({
            let c = pre.columns@.last();
            let same = (pre.simple_column_path matches Some(p) && path_components(p@) == path_components(c.path@));
            let base_anchor = if same { pre.simple_range_anchor } else { None };
            &&& post == (App {
                columns: post.columns,
                simple_selected_paths: post.simple_selected_paths,
                simple_range_anchor: post.simple_range_anchor,
                simple_last_range: post.simple_last_range,
                simple_column_path: post.simple_column_path,
                ..pre
            })
            &&& post.simple_column_path matches Some(p) && path_components(p@) == path_components(c.path@)
            &&& match step_target(c, down) {
                None => {
                    &&& post.columns == pre.columns
                    &&& post.simple_range_anchor == base_anchor
                    &&& forall|q: Seq<char>| #[trigger] holds_path(post.simple_selected_paths@, q) == (same && holds_path(pre.simple_selected_paths@, q))
                    &&& forall|q: Seq<char>| #[trigger] holds_path(post.simple_last_range@, q) == (same && holds_path(pre.simple_last_range@, q))
                },
                Some(t) => {
                    let anchor = match base_anchor { Some(a) => a as int, None => c.selected as int };
                    &&& post.columns@ == with_last_cursor(pre.columns@, t)
                    &&& post.simple_range_anchor == Some(anchor as usize)
                    &&& forall|q: Seq<char>| #[trigger] holds_path(post.simple_last_range@, q) == in_span(c.entries@, anchor, t, q)
                    &&& forall|q: Seq<char>| #[trigger] holds_path(post.simple_selected_paths@, q)
                        == ((same && holds_path(pre.simple_selected_paths@, q)) != (in_span(c.entries@, anchor, t, q) != (same && holds_path(pre.simple_last_range@, q))))
                    &&& forall|q: Seq<char>| (#[trigger] holds_path(post.simple_selected_paths@, q) != holds_path(post.simple_last_range@, q))
                        == ((same && holds_path(pre.simple_selected_paths@, q)) != (same && holds_path(pre.simple_last_range@, q)))
                },
            }
        }))
}

/// What `select_prev_mode` does (see there).
pub open spec fn after_select_prev_mode(pre: App, post: App) -> bool {
    &&& (post == (App {
            mode_range_anchor: None,
            mode_last_range: post.mode_last_range,
            simple_range_anchor: None,
            global_selected: post.global_selected,
            columns: post.columns,
            ..pre
        }))
    &&& (post.mode_last_range@.len() == 0)
    &&& (pre.search_mode == SearchMode::Global ==> {
            &&& post.global_selected == if pre.global_selected > 0 { (pre.global_selected - 1) as usize } else { pre.global_selected }
            &&& post.columns == pre.columns
        })
    &&& (pre.search_mode != SearchMode::Global ==> post.global_selected == pre.global_selected)
    &&& (pre.search_mode != SearchMode::Global && pre.columns@.len() == 0 ==> post.columns == pre.columns)
    &&& (pre.search_mode == SearchMode::Local && pre.columns@.len() > 0 ==>
            post.columns@ == with_last_cursor(pre.columns@, local_prev(shown_indices(pre), pre.columns@.last().selected as int)))
    &&& (pre.search_mode == SearchMode::Idle && pre.columns@.len() > 0 ==>
            post.columns@ == with_last_cursor(pre.columns@, if pre.columns@.last().selected > 0 { pre.columns@.last().selected - 1 } else { 0 }))
}

/// What `select_next_mode` does (see there).
pub open spec fn after_select_next_mode(pre: App, post: App) -> bool {
    &&& (post == (App {
            mode_range_anchor: None,
            mode_last_range: post.mode_last_range,
            simple_range_anchor: None,
            global_selected: post.global_selected,
            columns: post.columns,
            ..pre
        }))
    &&& (post.mode_last_range@.len() == 0)
    &&& (pre.search_mode == SearchMode::Global ==> {
            &&& post.global_selected == if pre.global_selected + 1 < pre.global_results@.len() { (pre.global_selected + 1) as usize } else { pre.global_selected }
            &&& post.columns == pre.columns
        })
    &&& (pre.search_mode != SearchMode::Global ==> post.global_selected == pre.global_selected)
    &&& (pre.search_mode != SearchMode::Global && pre.columns@.len() == 0 ==> post.columns == pre.columns)
    &&& (pre.search_mode == SearchMode::Local && pre.columns@.len() > 0 ==>
            post.columns@ == with_last_cursor(pre.columns@, local_next(shown_indices(pre), pre.columns@.last().selected as int)))
    &&& (pre.search_mode == SearchMode::Idle && pre.columns@.len() > 0 ==>
            post.columns@ == with_last_cursor(pre.columns@,
                if pre.columns@.last().selected + 1 < pre.columns@.last().entries@.len() { pre.columns@.last().selected + 1 } else { pre.columns@.last().selected as int }))
}

} // verus!
