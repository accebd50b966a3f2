//! Moving between directories, bookmarks and profiles.
use vstd::prelude::*;

use crate::app_state::{
    App, ColumnsFor, DialogState, Effect, SearchMode,
};
use crate::entries::DirColumn;
use crate::keys::{KeyCode, KeyPress};
use crate::layout::{effective_matches, AppConfig, Bookmark, RuntimePlan};
use crate::paths::{last_segment, path_parent, tilde_expanded};
use crate::text::with_char;

verus! {

/// Some column waits for a sudo password.
pub open spec fn any_password_required(cols: Seq<DirColumn>) -> bool {
    exists|k: int| 0 <= k < cols.len() && (#[trigger] cols[k]).sudo_password_required
}

fn password_required(cols: &Vec<DirColumn>) -> (r: bool)
    ensures
        r == any_password_required(cols@),
{
    let mut i: usize = 0;
    while i < cols.len()
        invariant
            i <= cols@.len(),
            forall|k: int| 0 <= k < i ==> !(#[trigger] cols@[k]).sudo_password_required,
        decreases cols@.len() - i,
    {
        if cols[i].sudo_password_required {
            return true;
        }
        i += 1;
    }
    false
}

/// The bookmark slot a key names: a digit from 1 to 9, or the symbol that
/// some terminals send for Shift and that digit.
pub open spec fn slot_of_key(k: KeyPress) -> Option<char> {
    match k.code {
        KeyCode::Char(c) => if '1' <= c <= '9' {
            Some(c)
        } else if c == '!' {
            Some('1')
        } else if c == '@' {
            Some('2')
        } else if c == '#' {
            Some('3')
        } else if c == '$' {
            Some('4')
        } else if c == '%' {
            Some('5')
        } else if c == '^' {
            Some('6')
        } else if c == '&' {
            Some('7')
        } else if c == '*' {
            Some('8')
        } else if c == '(' {
            Some('9')
        } else {
            None
        },
        _ => None,
    }
}

pub fn bookmark_slot_from_key(key: KeyPress) -> (r: Option<char>)
    ensures
        r == slot_of_key(key),
{
    match key.code {
        KeyCode::Char(c) => if '1' <= c && c <= '9' {
            Some(c)
        } else if c == '!' {
            Some('1')
        } else if c == '@' {
            Some('2')
        } else if c == '#' {
            Some('3')
        } else if c == '$' {
            Some('4')
        } else if c == '%' {
            Some('5')
        } else if c == '^' {
            Some('6')
        } else if c == '&' {
            Some('7')
        } else if c == '*' {
            Some('8')
        } else if c == '(' {
            Some('9')
        } else {
            None
        },
        _ => None,
    }
}

/// A bookmark is in a slot: by its slot number where it has one below ten,
/// else by the name `slot-N`.
pub open spec fn in_slot(b: Bookmark, slot: char) -> bool {
    match b.slot {
        Some(s) if s < 10 => digit_of(s as nat) == slot,
        _ => b.name@ == "slot-"@ + seq![slot],
    }
}

pub open spec fn digit_of(d: nat) -> char {
    crate::text::digit_char(d)
}

pub fn bookmark_matches_slot(bookmark: &Bookmark, slot: char) -> (r: bool)
    ensures
        r == in_slot(*bookmark, slot),
{
    match bookmark.slot {
        Some(s) => if s < 10 {
            let d = crate::text::decimal_text(s as u64);
            let cs = crate::text::chars_of(d.as_str());
            assert(cs@ == seq![crate::text::digit_char(s as nat)]);
            return cs[0] == slot;
        },
        None => {},
    }
    let expected = with_char("slot-", slot, "");
    proof {
        reveal_strlit("");
    }
    assert(expected@ =~= "slot-"@ + seq![slot]);
    crate::text::str_eq(bookmark.name.as_str(), expected.as_str())
}

/// The first bookmark in a slot.
#[verifier::opaque]
pub open spec fn slot_index(bs: Seq<Bookmark>, slot: char) -> Option<int> {
    if exists|k: int| 0 <= k < bs.len() && in_slot(#[trigger] bs[k], slot) {
        Some(choose|k: int| 0 <= k < bs.len() && in_slot(#[trigger] bs[k], slot) && forall|m: int| 0 <= m < k ==> !in_slot(bs[m], slot))
    } else {
        None
    }
}

pub(crate) fn find_slot(bs: &Vec<Bookmark>, slot: char) -> (r: Option<usize>)
    ensures
        match r {
            Some(k) => k < bs@.len() && in_slot(bs@[k as int], slot) && slot_index(bs@, slot) == Some(k as int),
            None => slot_index(bs@, slot) is None,
        },
{
    let mut i: usize = 0;
    proof {
        reveal(slot_index);
    }
    while i < bs.len()
        invariant
            i <= bs@.len(),
            forall|m: int| 0 <= m < i ==> !in_slot(#[trigger] bs@[m], slot),
        decreases bs@.len() - i,
    {
        if bookmark_matches_slot(&bs[i], slot) {
            proof {
                reveal(slot_index);
                let k = choose|k: int| 0 <= k < bs@.len() && in_slot(#[trigger] bs@[k], slot) && forall|m: int| 0 <= m < k ==> !in_slot(bs@[m], slot);
                if k < i {
                } else if k > i {
                    assert(!in_slot(bs@[i as int], slot));
                }
            }
            return Some(i);
        }
        i += 1;
    }
    None
}

/// The position after `a` among `n` profiles, wrapping round.
pub open spec fn next_profile_index(a: int, n: int) -> int {
    (a + 1) % n
}

/// The position before `a` among `n` profiles, wrapping round.
pub open spec fn prev_profile_index(a: int, n: int) -> int {
    if a == 0 { n - 1 } else { a - 1 }
}

/// Stepping to the next profile and back, or back and on, returns to the
/// profile one started from.
pub proof fn lemma_profile_round_trip(a: int, n: int)
    requires
        0 <= a < n,
    ensures
        prev_profile_index(next_profile_index(a, n), n) == a,
        next_profile_index(prev_profile_index(a, n), n) == a,
        0 <= next_profile_index(a, n) < n,
        0 <= prev_profile_index(a, n) < n,
{
    if a + 1 < n {
        vstd::arithmetic::div_mod::lemma_small_mod((a + 1) as nat, n as nat);
    } else {
        vstd::arithmetic::div_mod::lemma_mod_self_0(n);
    }
    if a == 0 {
        vstd::arithmetic::div_mod::lemma_mod_self_0(n);
    } else {
        vstd::arithmetic::div_mod::lemma_small_mod(a as nat, n as nat);
    }
}

impl App {
    /// Where to open the directory under the cursor: a global search opens
    /// its selected result (see `open_global_selected`); else the entry
    /// under the cursor is read as a new column where it is a directory.
    /// Nothing changes here.
    pub fn enter_selected_dir(&self) -> (e: Effect)
        ensures
            self.search_mode == SearchMode::Global ==> e == self.open_global_selected_spec(),
            self.search_mode != SearchMode::Global ==> e == match self.selected_dir_spec() {
                Some(p) => Effect::ReadColumn(p),
                None => Effect::Nothing,
            },
    {
        if self.search_mode == SearchMode::Global {
            return self.open_global_selected();
        }
        match self.selected_dir_path() {
            Some(p) => Effect::ReadColumn(p.clone()),
            None => Effect::Nothing,
        }
    }

    pub open spec fn open_global_selected_spec(self) -> Effect {
        if self.global_selected < self.global_results@.len() {
            Effect::OpenGlobal(self.global_results@[self.global_selected as int])
        } else {
            Effect::Nothing
        }
    }

    /// Opens the selected global result: asks whether it is a directory.
    pub fn open_global_selected(&self) -> (e: Effect)
        ensures
            e == self.open_global_selected_spec(),
    {
        if self.global_selected < self.global_results.len() {
            Effect::OpenGlobal(self.global_results[self.global_selected].clone())
        } else {
            Effect::Nothing
        }
    }

    /// The directory a global result opens: itself when it is one, else its
    /// parent, else the current directory.
    pub fn open_global_target(&self, path: &str, path_is_dir: bool) -> (r: String)
        ensures
            r@ == if path_is_dir {
                path@
            } else {
                match path_parent(path@) {
                    Some(q) => q,
                    None => self.current_dir@,
                }
            },
    {
        if path_is_dir {
            path.to_owned()
        } else {
            match crate::paths::parent(path) {
                Some(q) => q,
                None => self.current_dir.clone(),
            }
        }
    }

    /// Adds the column read for the directory that was entered: it becomes
    /// the current directory, the sudo prompt shows when some column waits
    /// for a password in sudo mode, and the plain selection is cleared.
    pub fn push_column(&mut self, col: DirColumn) -> (e: Effect)
        requires
            old(self).wf(),
        ensures
            final(self).wf(),
            e == Effect::TrackRecent,
            *final(self) == (App {
                columns: final(self).columns,
                current_dir: col.path,
                sudo_password_prompt: old(self).sudo_mode && any_password_required(old(self).columns@.push(col)),
                simple_selected_paths: final(self).simple_selected_paths,
                simple_range_anchor: None,
                simple_last_range: final(self).simple_last_range,
                simple_column_path: None,
                ..*old(self)
            }),
            final(self).columns@ == old(self).columns@.push(col),
            final(self).simple_selected_paths@.len() == 0,
            final(self).simple_last_range@.len() == 0,
    {
        let path = col.path.clone();
        self.columns.push(col);
        self.sudo_password_prompt = self.sudo_mode && password_required(&self.columns);
        self.current_dir = path;
        self.clear_simple_selection();
        Effect::TrackRecent
    }

    /// Goes up one column: the last column is dropped and the one before
    /// becomes current; the plain selection is cleared. Nothing happens with
    /// a single column.
    pub fn go_parent(&mut self) -> (e: Effect)
        requires
            old(self).wf(),
        ensures
            final(self).wf(),
            after_go_parent(*old(self), *final(self), e),
    {
        if self.columns.len() <= 1 {
            return Effect::Nothing;
        }
        self.columns.pop();
        let n = self.columns.len();
        self.current_dir = self.columns[n - 1].path.clone();
        self.clear_simple_selection();
        assert(self.columns@ =~= old(self).columns@.drop_last());
        Effect::TrackRecent
    }

    /// Where the columns are rebuilt when the settings change: the current
    /// directory where it still is one, else the start directory.
    pub fn reinit_target(&self, current_is_dir: bool) -> (r: String)
        ensures
            r == if current_is_dir { self.current_dir } else { self.effective.start_dir },
    {
        if current_is_dir { self.current_dir.clone() } else { self.effective.start_dir.clone() }
    }

    /// Puts in place a chain of columns built for `target`: it becomes the
    /// current directory and the sudo prompt shows when some column waits
    /// for a password in sudo mode. Opening a bookmark or a global result
    /// also ends any search and clears the plain selection; opening a
    /// bookmark reports it.
    pub fn set_columns(&mut self, target: String, cols: Vec<DirColumn>, purpose: ColumnsFor) -> (e: Effect)
        requires
            old(self).wf(),
        ensures
            final(self).wf(),
            e == Effect::TrackRecent,
            final(self).columns == cols,
            final(self).current_dir == target,
            final(self).sudo_password_prompt == (old(self).sudo_mode && any_password_required(cols@)),
            purpose == ColumnsFor::Reinit ==> *final(self) == (App {
                columns: cols,
                current_dir: target,
                sudo_password_prompt: final(self).sudo_password_prompt,
                ..*old(self)
            }),
            purpose != ColumnsFor::Reinit ==> {
                &&& *final(self) == (App {
                    columns: cols,
                    current_dir: target,
                    sudo_password_prompt: final(self).sudo_password_prompt,
                    search_mode: SearchMode::Idle,
                    search_query: final(self).search_query,
                    global_results: final(self).global_results,
                    global_selected: 0,
                    simple_selected_paths: final(self).simple_selected_paths,
                    simple_range_anchor: None,
                    simple_last_range: final(self).simple_last_range,
                    simple_column_path: None,
                    status_message: final(self).status_message,
                    ..*old(self)
                })
                &&& final(self).search_query@.len() == 0
                &&& final(self).global_results@.len() == 0
                &&& final(self).simple_selected_paths@.len() == 0
                &&& final(self).simple_last_range@.len() == 0
                &&& purpose == ColumnsFor::GlobalResult ==> final(self).status_message == old(self).status_message
                &&& purpose matches ColumnsFor::Bookmark(slot) ==> final(self).status_message@ == "opened bookmark "@ + seq![slot]
            },
    {
        let required = password_required(&cols);
        self.columns = cols;
        self.sudo_password_prompt = self.sudo_mode && required;
        self.current_dir = target;
        match purpose {
            ColumnsFor::Reinit => {},
            _ => {
                self.search_mode = SearchMode::Idle;
                self.search_query = String::new();
                self.global_results = Vec::new();
                self.global_selected = 0;
                self.clear_simple_selection();
                match purpose {
                    ColumnsFor::Bookmark(slot) => {
                        self.status_message = with_char("opened bookmark ", slot, "");
                        proof {
                            reveal_strlit("");
                        }
                        assert(self.status_message@ =~= "opened bookmark "@ + seq![slot]);
                    },
                    _ => {},
                }
            },
        }
        Effect::TrackRecent
    }

    /// The directory a bookmark would be set to: the directory under the
    /// cursor, else the current directory; asks whether it is one.
    pub fn bookmark_target(&self, slot: char) -> (e: Effect)
        ensures
            e == Effect::CheckBookmarkTarget(slot, match self.selected_dir_spec() {
                Some(p) => p,
                None => self.current_dir,
            }),
    {
        let target = match self.selected_dir_path() {
            Some(p) => p.clone(),
            None => self.current_dir.clone(),
        };
        Effect::CheckBookmarkTarget(slot, target)
    }

    /// Opens the bookmark in a slot: its path, with a leading `~` expanded,
    /// is checked to be a directory. An empty slot is reported.
    pub fn open_bookmark_slot(&mut self, slot: char) -> (e: Effect)
        requires
            old(self).wf(),
        ensures
            final(self).wf(),
            after_open_bookmark_slot(*old(self), *final(self), e, slot),
    {
        match find_slot(&self.config.sidebar.bookmarks, slot) {
            None => {
                self.status_message = with_char("bookmark ", slot, " is empty");
                Effect::Nothing
            },
            Some(k) => {
                let target = crate::paths::expand_tilde(self.config.sidebar.bookmarks[k].path.as_str());
                Effect::OpenBookmark(slot, target)
            },
        }
    }

    /// Goes on with opening a bookmark once its target was checked: a target
    /// that is not a directory is reported invalid; else the columns are
    /// built there.
    pub fn open_bookmark_target(&mut self, slot: char, target: String, target_is_dir: bool) -> (e: Effect)
        requires
            old(self).wf(),
        ensures
            final(self).wf(),
            !target_is_dir ==> {
                &&& e == Effect::Nothing
                &&& *final(self) == (App { status_message: final(self).status_message, ..*old(self) })
                &&& final(self).status_message@ == "bookmark "@ + seq![slot] + " is invalid"@
            },
            target_is_dir ==> *final(self) == *old(self) && e == Effect::BuildColumns(target, ColumnsFor::Bookmark(slot)),
    {
        if !target_is_dir {
            self.status_message = with_char("bookmark ", slot, " is invalid");
            return Effect::Nothing;
        }
        Effect::BuildColumns(target, ColumnsFor::Bookmark(slot))
    }

}

/// What `go_parent` does (see there).
pub open spec fn after_go_parent(pre: App, post: App, e: Effect) -> bool {
    &&& (pre.columns@.len() <= 1 ==> post == pre && e == Effect::Nothing)
    &&& (pre.columns@.len() > 1 ==> {
            &&& e == Effect::TrackRecent
            &&& post == (App {
                columns: post.columns,
                current_dir: pre.columns@[pre.columns@.len() - 2].path,
                simple_selected_paths: post.simple_selected_paths,
                simple_range_anchor: None,
                simple_last_range: post.simple_last_range,
                simple_column_path: None,
                ..pre
            })
            &&& post.columns@ == pre.columns@.drop_last()
            &&& post.simple_selected_paths@.len() == 0
            &&& post.simple_last_range@.len() == 0
        })
}

/// What `open_bookmark_slot` does (see there).
pub open spec fn after_open_bookmark_slot(pre: App, post: App, e: Effect, slot: char) -> bool {
    &&& (match slot_index(pre.config.sidebar.bookmarks@, slot) {
            None => {
                &&& e == Effect::Nothing
                &&& post == (App { status_message: post.status_message, ..pre })
                &&& post.status_message@ == "bookmark "@ + seq![slot] + " is empty"@
            },
            Some(k) => {
                &&& post == pre
                &&& e matches Effect::OpenBookmark(s, t) && s == slot
                    && exists|home: Option<Seq<char>>| t@ == tilde_expanded(pre.config.sidebar.bookmarks@[k].path@, home)
            },
        })
}

} // verus!
