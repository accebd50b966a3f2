//! Searching, sudo mode, the key bindings frame, and taking in what was
//! read outside.
use vstd::prelude::*;

use crate::app_state::{
    filtered_indices, lemma_filtered_indices,
    local_filtered_indices_with_query, with_last_cursor, App, Effect, SearchMode,
};
use crate::entries::{DirColumn, DirReadOutcome};
use crate::keymap::{build_keybinds_overlay, keybind_rows, row_texts, KeymapConfig};
use crate::keys::{KeyCode, KeyPress};
use crate::overlay::OverlayFrame;
use crate::preview::ImageProtocol;
use crate::searchbar::{command_named, parse_command, SearchbarCommand};
use crate::text::{push_char, trimmed};

verus! {

/// The text with its last character taken off, if any (`String::pop`).
pub open spec fn popped(s: Seq<char>) -> Seq<char> {
    if s.len() > 0 { s.drop_last() } else { s }
}

/// Takes the last character off a string (`String::pop`).
#[verifier::external_body]
pub(crate) fn pop_char(s: &mut String)
    ensures
        final(s)@ == popped(old(s)@),
{
    s.pop();
}

/// The queries a local search leaves the cursor alone for, since they name
/// commands.
pub open spec fn is_command_query(q: Seq<char>) -> bool {
    let t = trimmed(q);
    t == "/sudo"@ || t == "sudo"@ || t == "/keybinds"@ || t == "keybinds"@
}

fn command_query(q: &str) -> (r: bool)
    ensures
        r == is_command_query(q@),
{
    let t = crate::text::trim(q);
    crate::text::str_eq(t.as_str(), "/sudo") || crate::text::str_eq(t.as_str(), "sudo")
        || crate::text::str_eq(t.as_str(), "/keybinds") || crate::text::str_eq(t.as_str(), "keybinds")
}

/// The last column after it was read again: its entries and flags are the
/// new ones, its cursor pulled back onto the last entry where it fell off.
pub open spec fn refreshed(c: DirColumn, read: DirReadOutcome) -> DirColumn {
    DirColumn {
        entries: read.entries,
        permission_denied: read.permission_denied,
        sudo_password_required: read.sudo_password_required,
        selected: if c.selected >= read.entries@.len() && read.entries@.len() > 0 {
            (read.entries@.len() - 1) as usize
        } else {
            c.selected
        },
        ..c
    }
}

impl App {
    /// Shows a message in the status bar.
    pub fn set_status(&mut self, msg: String)
        ensures
            *final(self) == (App { status_message: msg, ..*old(self) }),
    {
        self.status_message = msg;
    }

    /// Takes in a freshly loaded key map with the message of its loading;
    /// the key bindings frame is built anew.
    pub fn set_keymap(&mut self, keymap: KeymapConfig, msg: String)
        ensures
            *final(self) == (App { keymap, status_message: msg, keybinds_overlay_cache: None, ..*old(self) }),
    {
        self.keymap = keymap;
        self.status_message = msg;
        self.keybinds_overlay_cache = None;
    }

    /// Takes in the recent directories and drives that were loaded.
    pub fn set_sidebar_lists(&mut self, recents: Vec<String>, drives: Vec<String>)
        ensures
            *final(self) == (App { recents, drives, ..*old(self) }),
    {
        self.recents = recents;
        self.drives = drives;
    }

    /// Takes in the image protocol that was detected.
    pub fn set_image_protocol(&mut self, protocol: Option<ImageProtocol>)
        ensures
            *final(self) == (App { image_protocol: protocol, ..*old(self) }),
    {
        self.image_protocol = protocol;
    }

    /// Takes in the results of a global search, the cursor on the first.
    pub fn set_global_results(&mut self, results: Vec<String>)
        requires
            old(self).wf(),
        ensures
            final(self).wf(),
            *final(self) == (App { global_results: results, global_selected: 0, ..*old(self) }),
    {
        self.global_results = results;
        self.global_selected = 0;
    }

    /// Takes in the last column read again (see `refreshed`).
    pub fn refresh_active_column(&mut self, read: DirReadOutcome)
        requires
            old(self).wf(),
        ensures
            final(self).wf(),
            old(self).columns@.len() == 0 ==> *final(self) == *old(self),
            old(self).columns@.len() > 0 ==> {
                &&& *final(self) == (App { columns: final(self).columns, ..*old(self) })
                &&& final(self).columns@ == old(self).columns@.update(old(self).columns@.len() - 1, refreshed(old(self).columns@.last(), read))
            },
    {
        let n = self.columns.len();
        if n == 0 {
            return;
        }
        let mut col = self.columns.pop().unwrap();
        let len = read.entries.len();
        col.entries = read.entries;
        col.permission_denied = read.permission_denied;
        col.sudo_password_required = read.sudo_password_required;
        if col.selected >= len && len > 0 {
            col.selected = len - 1;
        }
        self.columns.push(col);
        assert(self.columns@ =~= old(self).columns@.update(old(self).columns@.len() - 1, refreshed(old(self).columns@.last(), read)));
    }

    /// Takes in every column read again, one outcome per column in order:
    /// entries and flags are the new ones, cursors stay; the sudo prompt
    /// shows when some column waits for a password in sudo mode.
    pub fn refresh_all_columns(&mut self, reads: Vec<DirReadOutcome>)
        requires
            old(self).wf(),
            reads@.len() == old(self).columns@.len(),
        ensures
            final(self).wf(),
            *final(self) == (App { columns: final(self).columns, sudo_password_prompt: final(self).sudo_password_prompt, ..*old(self) }),
            final(self).columns@.len() == old(self).columns@.len(),
            forall|k: int| 0 <= k < reads@.len() ==> #[trigger] final(self).columns@[k] == (DirColumn {
                entries: reads@[k].entries,
                permission_denied: reads@[k].permission_denied,
                sudo_password_required: reads@[k].sudo_password_required,
                ..old(self).columns@[k]
            }),
            final(self).sudo_password_prompt == (old(self).sudo_mode && exists|k: int| 0 <= k < reads@.len() && (#[trigger] reads@[k]).sudo_password_required),
    {
        let mut cols: Vec<DirColumn> = Vec::new();
        let mut any = false;
        let mut reads = reads;
        let ghost rs = reads@;
        let n = self.columns.len();
        let mut old_cols: Vec<DirColumn> = Vec::new();
        std::mem::swap(&mut old_cols, &mut self.columns);
        let ghost oc = old_cols@;
        let mut i: usize = n;
        // Walk from the end so that each column and its outcome can be moved.
        while i > 0
            invariant
                i <= n,
                n == oc.len(),
                rs.len() == n,
                old_cols@ == oc.take(i as int),
                reads@ == rs.take(i as int),
                cols@.len() == n - i,
                forall|k: int| 0 <= k < n - i ==> #[trigger] cols@[k] == (DirColumn {
                    entries: rs[n - 1 - k].entries,
                    permission_denied: rs[n - 1 - k].permission_denied,
                    sudo_password_required: rs[n - 1 - k].sudo_password_required,
                    ..oc[n - 1 - k]
                }),
                any == exists|k: int| i <= k < n && (#[trigger] rs[k]).sudo_password_required,
            decreases i,
        {
            let ghost prev_any = any;
            let mut c = old_cols.pop().unwrap();
            let r = reads.pop().unwrap();
            i -= 1;
            c.entries = r.entries;
            c.permission_denied = r.permission_denied;
            c.sudo_password_required = r.sudo_password_required;
            any = any || r.sudo_password_required;
            cols.push(c);
            assert(old_cols@ =~= oc.take(i as int));
            assert(reads@ =~= rs.take(i as int));
            proof {
                if prev_any {
                    let k = choose|k: int| i + 1 <= k < n && (#[trigger] rs[k]).sudo_password_required;
                    assert(i <= k < n && rs[k].sudo_password_required);
                }
                if any && !prev_any {
                    assert(rs[i as int].sudo_password_required);
                }
            }
        }
        let mut out: Vec<DirColumn> = Vec::new();
        let mut j: usize = n;
        while j > 0
            invariant
                j <= n,
                cols@.len() == j,
                out@.len() == n - j,
                forall|k: int| 0 <= k < j ==> #[trigger] cols@[k] == (DirColumn {
                    entries: rs[n - 1 - k].entries,
                    permission_denied: rs[n - 1 - k].permission_denied,
                    sudo_password_required: rs[n - 1 - k].sudo_password_required,
                    ..oc[n - 1 - k]
                }),
                forall|k: int| 0 <= k < n - j ==> #[trigger] out@[k] == (DirColumn {
                    entries: rs[k].entries,
                    permission_denied: rs[k].permission_denied,
                    sudo_password_required: rs[k].sudo_password_required,
                    ..oc[k]
                }),
            decreases j,
        {
            let c = cols.pop().unwrap();
            j -= 1;
            out.push(c);
        }
        self.columns = out;
        self.sudo_password_prompt = self.sudo_mode && any;
    }

    /// Turns sudo mode on or off: any typed password is dropped, the change
    /// is reported, and every column is to be read again.
    pub fn toggle_sudo_mode(&mut self) -> (e: Effect)
        ensures
            e == Effect::RefreshAll,
            *final(self) == (App {
                sudo_mode: !old(self).sudo_mode,
                sudo_password_prompt: false,
                sudo_password_input: final(self).sudo_password_input,
                status_message: final(self).status_message,
                ..*old(self)
            }),
            final(self).sudo_password_input@.len() == 0,
            final(self).status_message@ == if final(self).sudo_mode { "sudo mode enabled"@ } else { "sudo mode disabled"@ },
    {
        self.sudo_mode = !self.sudo_mode;
        self.sudo_password_prompt = false;
        self.sudo_password_input = String::new();
        self.status_message = if self.sudo_mode { "sudo mode enabled".to_owned() } else { "sudo mode disabled".to_owned() };
        Effect::RefreshAll
    }

    /// A key while the sudo password is asked for: Esc gives up and leaves
    /// sudo mode, Backspace deletes, Enter sends the password (every column
    /// is read again), and other characters typed without Control are added.
    pub fn handle_sudo_password_input(&mut self, key: KeyPress) -> (e: Effect)
        ensures
            after_handle_sudo_password_input(*old(self), *final(self), e, key),
    {
        match key.code {
            KeyCode::Esc => {
                self.sudo_password_prompt = false;
                self.sudo_password_input = String::new();
                self.status_message = "sudo mode disabled".to_owned();
                self.sudo_mode = false;
                Effect::RefreshAll
            },
            KeyCode::Backspace => {
                pop_char(&mut self.sudo_password_input);
                Effect::Nothing
            },
            KeyCode::Enter => {
                self.sudo_password_prompt = false;
                Effect::RefreshAll
            },
            KeyCode::Char(c) => {
                if !key.modifiers.control {
                    push_char(&mut self.sudo_password_input, c);
                }
                Effect::Nothing
            },
            _ => Effect::Nothing,
        }
    }

    /// Starts a local search with an empty query.
    pub fn start_local_search(&mut self)
        ensures
            after_start_local_search(*old(self), *final(self)),
    {
        self.search_mode = SearchMode::Local;
        self.search_query = String::new();
    }

    /// Starts a global search with an empty query, which lists everything.
    pub fn start_global_search(&mut self) -> (e: Effect)
        ensures
            after_start_global_search(*old(self), *final(self), e),
    {
        self.search_mode = SearchMode::Global;
        self.search_query = String::new();
        Effect::GlobalSearch
    }

    /// After the query changed: a local search puts the cursor on the first
    /// matching entry (unless the query names a command); a global search
    /// runs again.
    pub fn on_search_query_changed(&mut self) -> (e: Effect)
        requires
            old(self).wf(),
        ensures
            final(self).wf(),
            after_on_search_query_changed(*old(self), *final(self), e),
    {
        match self.search_mode {
            SearchMode::Global => Effect::GlobalSearch,
            SearchMode::Idle => Effect::Nothing,
            SearchMode::Local => {
                if command_query(self.search_query.as_str()) {
                    return Effect::Nothing;
                }
                let n = self.columns.len();
                if n == 0 {
                    return Effect::Nothing;
                }
                let filtered = local_filtered_indices_with_query(self.search_query.as_str(), &self.columns[n - 1]);
                if filtered.len() > 0 {
                    let first = filtered[0];
                    let mut col = self.columns.pop().unwrap();
                    col.selected = first;
                    self.columns.push(col);
                    assert(self.columns@ =~= with_last_cursor(old(self).columns@, first as int));
                }
                Effect::Nothing
            },
        }
    }
}


impl App {
    /// The key bindings frame, built once per key map and kept.
    pub fn keybinds_overlay_cached(&mut self) -> (r: OverlayFrame)
        requires
            old(self).wf(),
        ensures
            final(self).wf(),
            *final(self) == (App { keybinds_overlay_cache: final(self).keybinds_overlay_cache, ..*old(self) }),
            crate::app_state::frame_of_keymap(r, old(self).keymap),
    {
        match &self.keybinds_overlay_cache {
            Some(cached) => {
                return cached.copy();
            },
            None => {},
        }
        let overlay = build_keybinds_overlay(&self.keymap);
        self.keybinds_overlay_cache = Some(overlay.copy());
        overlay
    }

    /// Opens the key bindings frame.
    pub fn open_keybinds_overlay(&mut self)
        requires
            old(self).wf(),
        ensures
            final(self).wf(),
            *final(self) == (App {
                keybinds_overlay: final(self).keybinds_overlay,
                keybinds_overlay_cache: final(self).keybinds_overlay_cache,
                ..*old(self)
            }),
            final(self).keybinds_overlay matches Some(f) && crate::app_state::frame_of_keymap(f, old(self).keymap),
    {
        let f = self.keybinds_overlay_cached();
        self.keybinds_overlay = Some(f);
    }

    /// A key while the key bindings frame is open: Esc or Enter closes it,
    /// Up or `k` scrolls up, Down or `j` scrolls down (stopping at the ends
    /// of the 16-bit scroll offset).
    pub fn handle_keybinds_overlay_key(&mut self, key: KeyPress)
        ensures
            after_handle_keybinds_overlay_key(*old(self), *final(self), key),
    {
        let mut overlay = match self.keybinds_overlay.take() {
            Some(f) => f,
            None => return,
        };
        match key.code {
            KeyCode::Esc | KeyCode::Enter => {
                return;
            },
            KeyCode::Up | KeyCode::Char('k') => {
                overlay.scroll = overlay.scroll.saturating_sub(1);
            },
            KeyCode::Down | KeyCode::Char('j') => {
                overlay.scroll = overlay.scroll.saturating_add(1);
            },
            _ => {},
        }
        self.keybinds_overlay = Some(overlay);
    }

    /// Leaves the search: the query and the global results are dropped.
    pub fn end_search(&mut self)
        requires
            old(self).wf(),
        ensures
            final(self).wf(),
            after_end_search(*old(self), *final(self)),
    {
        self.search_mode = SearchMode::Idle;
        self.search_query = String::new();
        self.global_results = Vec::new();
        self.global_selected = 0;
    }

    /// Runs a command typed in the search bar: toggles sudo mode, asks for a
    /// default file to be written, or opens the key bindings frame.
    pub fn run_search_command(&mut self, cmd: SearchbarCommand) -> (e: Effect)
        requires
            old(self).wf(),
        ensures
            final(self).wf(),
            after_run_search_command(*old(self), *final(self), e, cmd),
    {
        match cmd {
            SearchbarCommand::ToggleSudo => self.toggle_sudo_mode(),
            SearchbarCommand::ConfigInit => Effect::InitConfig,
            SearchbarCommand::ConfigLayoutInit => Effect::InitLayout,
            SearchbarCommand::ConfigThemeInit => Effect::InitTheme,
            SearchbarCommand::KeymapInit => Effect::InitKeymap,
            SearchbarCommand::Keybinds => {
                self.open_keybinds_overlay();
                Effect::Nothing
            },
        }
    }

    /// Enter in a local search: runs the command the query names, if any,
    /// and leaves the search.
    pub fn submit_local_search(&mut self) -> (e: Effect)
        requires
            old(self).wf(),
        ensures
            final(self).wf(),
            after_submit_local_search(*old(self), *final(self), e),
    {
        let ghost pre = *self;
        let e = match parse_command(self.search_query.as_str()) {
            Some(cmd) => {
                let e = self.run_search_command(cmd);
                let ghost mid = *self;
                self.search_mode = SearchMode::Idle;
                self.search_query = String::new();
                assert(after_run_search_command(pre, mid, e, cmd));
                e
            },
            None => {
                self.search_mode = SearchMode::Idle;
                self.search_query = String::new();
                Effect::Nothing
            },
        };
        e
    }

    /// A key during a search: Esc leaves it; Backspace deletes and, like
    /// typing a character (without Control), updates the search; Enter opens
    /// the selected global result, or runs a local search's command; Up and
    /// Down move the cursor.
    pub fn handle_search_input(&mut self, key: KeyPress) -> (e: Effect)
        requires
            old(self).wf(),
        ensures
            final(self).wf(),
            after_handle_search_input(*old(self), *final(self), e, key),
    {
        let ghost pre = *self;
        match key.code {
            KeyCode::Esc => {
                self.end_search();
                Effect::Nothing
            },
            KeyCode::Backspace => {
                pop_char(&mut self.search_query);
                let ghost mid = *self;
                let e = self.on_search_query_changed();
                assert(query_then_changed(pre, mid, *self, e, popped(pre.search_query@)));
                e
            },
            KeyCode::Enter => {
                if self.search_mode == SearchMode::Global {
                    self.open_global_selected()
                } else {
                    self.submit_local_search()
                }
            },
            KeyCode::Up => {
                self.select_prev();
                Effect::Nothing
            },
            KeyCode::Down => {
                self.select_next();
                Effect::Nothing
            },
            KeyCode::Char(c) => {
                if !key.modifiers.control {
                    push_char(&mut self.search_query, c);
                    let ghost mid = *self;
                    let e = self.on_search_query_changed();
                    assert(query_then_changed(pre, mid, *self, e, pre.search_query@.push(c)));
                    e
                } else {
                    Effect::Nothing
                }
            },
            _ => Effect::Nothing,
        }
    }
}

/// What `start_local_search` does (see there).
pub open spec fn after_start_local_search(pre: App, post: App) -> bool {
    &&& (post == (App { search_mode: SearchMode::Local, search_query: post.search_query, ..pre }))
    &&& (post.search_query@.len() == 0)
}

/// What `start_global_search` does (see there).
pub open spec fn after_start_global_search(pre: App, post: App, e: Effect) -> bool {
    &&& (e == Effect::GlobalSearch)
    &&& (post == (App { search_mode: SearchMode::Global, search_query: post.search_query, ..pre }))
    &&& (post.search_query@.len() == 0)
}

/// What `handle_sudo_password_input` does (see there).
pub open spec fn after_handle_sudo_password_input(pre: App, post: App, e: Effect, key: KeyPress) -> bool {
    &&& (key.code == KeyCode::Esc ==> {
            &&& e == Effect::RefreshAll
            &&& post == (App {
                sudo_password_prompt: false,
                sudo_password_input: post.sudo_password_input,
                status_message: post.status_message,
                sudo_mode: false,
                ..pre
            })
            &&& post.sudo_password_input@.len() == 0
            &&& post.status_message@ == "sudo mode disabled"@
        })
    &&& (key.code == KeyCode::Backspace ==> e == Effect::Nothing && post == (App { sudo_password_input: post.sudo_password_input, ..pre })
            && post.sudo_password_input@ == popped(pre.sudo_password_input@))
    &&& (key.code == KeyCode::Enter ==> e == Effect::RefreshAll && post == (App { sudo_password_prompt: false, ..pre }))
    &&& ((key.code matches KeyCode::Char(c) && !key.modifiers.control) ==> e == Effect::Nothing
            && post == (App { sudo_password_input: post.sudo_password_input, ..pre })
            && post.sudo_password_input@ == pre.sudo_password_input@.push(key.code->Char_0))
    &&& ((key.code != KeyCode::Esc && key.code != KeyCode::Backspace && key.code != KeyCode::Enter
            && !(key.code matches KeyCode::Char(c) && !key.modifiers.control)) ==> e == Effect::Nothing && post == pre)
}

/// What `handle_search_input` does (see there).
pub open spec fn after_handle_search_input(pre: App, post: App, e: Effect, key: KeyPress) -> bool {
    match key.code {
        KeyCode::Esc => e == Effect::Nothing && after_end_search(pre, post),
        KeyCode::Backspace => exists|mid: App| query_then_changed(pre, mid, post, e, popped(pre.search_query@)),
        KeyCode::Enter => if pre.search_mode == SearchMode::Global {
            post == pre && e == pre.open_global_selected_spec()
        } else {
            after_submit_local_search(pre, post, e)
        },
        KeyCode::Up => e == Effect::Nothing && crate::app_state::after_select_prev(pre, post),
        KeyCode::Down => e == Effect::Nothing && crate::app_state::after_select_next(pre, post),
        KeyCode::Char(c) => if !key.modifiers.control {
            exists|mid: App| query_then_changed(pre, mid, post, e, pre.search_query@.push(c))
        } else {
            post == pre && e == Effect::Nothing
        },
        _ => post == pre && e == Effect::Nothing,
    }
}

/// The query becomes `q` (the state `mid`), then the search follows it (see
/// `on_search_query_changed`).
pub open spec fn query_then_changed(pre: App, mid: App, post: App, e: Effect, q: Seq<char>) -> bool {
    &&& mid == (App { search_query: mid.search_query, ..pre })
    &&& mid.search_query@ == q
    &&& after_on_search_query_changed(mid, post, e)
}

/// What `submit_local_search` does: the command that the query names runs
/// (see `run_search_command`), then the search ends with an empty query.
pub open spec fn after_submit_local_search(pre: App, post: App, e: Effect) -> bool {
    &&& post.search_mode == SearchMode::Idle
    &&& post.search_query@.len() == 0
    &&& match command_named(trimmed(pre.search_query@)) {
        None => e == Effect::Nothing && post == (App { search_mode: SearchMode::Idle, search_query: post.search_query, ..pre }),
        Some(cmd) => exists|mid: App| after_run_search_command(pre, mid, e, cmd)
            && post == (App { search_mode: SearchMode::Idle, search_query: post.search_query, ..mid }),
    }
}

/// What `handle_keybinds_overlay_key` does (see there).
pub open spec fn after_handle_keybinds_overlay_key(pre: App, post: App, key: KeyPress) -> bool {
    &&& (post == (App { keybinds_overlay: post.keybinds_overlay, ..pre }))
    &&& (match pre.keybinds_overlay {
            None => post.keybinds_overlay is None,
            Some(f) => if key.code == KeyCode::Esc || key.code == KeyCode::Enter {
                post.keybinds_overlay is None
            } else if key.code == KeyCode::Up || key.code == KeyCode::Char('k') {
                post.keybinds_overlay == Some(OverlayFrame { scroll: if f.scroll > 0 { (f.scroll - 1) as u16 } else { 0 }, ..f })
            } else if key.code == KeyCode::Down || key.code == KeyCode::Char('j') {
                post.keybinds_overlay == Some(OverlayFrame { scroll: if f.scroll < u16::MAX { (f.scroll + 1) as u16 } else { u16::MAX }, ..f })
            } else {
                post.keybinds_overlay == Some(f)
            },
        })
}

/// What `run_search_command` does (see there).
pub open spec fn after_run_search_command(pre: App, post: App, e: Effect, cmd: SearchbarCommand) -> bool {
    &&& (cmd == SearchbarCommand::ToggleSudo ==> e == Effect::RefreshAll && post.sudo_mode == !pre.sudo_mode
            && post == (App {
                sudo_mode: !pre.sudo_mode,
                sudo_password_prompt: false,
                sudo_password_input: post.sudo_password_input,
                status_message: post.status_message,
                ..pre
            }))
    &&& (cmd == SearchbarCommand::ConfigInit ==> e == Effect::InitConfig && post == pre)
    &&& (cmd == SearchbarCommand::ConfigLayoutInit ==> e == Effect::InitLayout && post == pre)
    &&& (cmd == SearchbarCommand::ConfigThemeInit ==> e == Effect::InitTheme && post == pre)
    &&& (cmd == SearchbarCommand::KeymapInit ==> e == Effect::InitKeymap && post == pre)
    &&& (cmd == SearchbarCommand::Keybinds ==> e == Effect::Nothing
            && post == (App {
                keybinds_overlay: post.keybinds_overlay,
                keybinds_overlay_cache: post.keybinds_overlay_cache,
                ..pre
            })
            && (post.keybinds_overlay matches Some(f) && crate::app_state::frame_of_keymap(f, pre.keymap)))
}

/// What `on_search_query_changed` does (see there).
pub open spec fn after_on_search_query_changed(pre: App, post: App, e: Effect) -> bool {
    &&& (pre.search_mode == SearchMode::Global ==> e == Effect::GlobalSearch && post == pre)
    &&& (pre.search_mode == SearchMode::Idle ==> e == Effect::Nothing && post == pre)
    &&& (pre.search_mode == SearchMode::Local ==> e == Effect::Nothing && ({
            let f = filtered_indices(pre.search_query@, pre.columns@.last().entries@);
            if is_command_query(pre.search_query@) || pre.columns@.len() == 0 || f.len() == 0 {
                post == pre
            } else {
                &&& post == (App { columns: post.columns, ..pre })
                &&& post.columns@ == with_last_cursor(pre.columns@, f[0])
            }
        }))
}

/// What `end_search` does (see there).
pub open spec fn after_end_search(pre: App, post: App) -> bool {
    &&& (post == (App {
            search_mode: SearchMode::Idle,
            search_query: post.search_query,
            global_results: post.global_results,
            global_selected: 0,
            ..pre
        }))
    &&& (post.search_query@.len() == 0)
    &&& (post.global_results@.len() == 0)
}

} // verus!
