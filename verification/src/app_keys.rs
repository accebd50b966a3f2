//! Where each key press goes, and the dialogs' keys.
use vstd::prelude::*;

use crate::app_session::{find_slot, in_slot, slot_index, slot_of_key, bookmark_slot_from_key};
use crate::app_edit::{
    after_copy_selected, after_cut_selected, after_handle_input_mode, after_paste_clipboard, after_request_delete_to_trash,
    after_start_new_dir, after_start_new_file, after_start_rename,
};
use crate::app_profile::{after_next_profile, after_prev_profile};
use crate::app_search::{
    after_handle_keybinds_overlay_key, after_handle_search_input, after_handle_sudo_password_input, after_start_global_search,
    after_start_local_search,
};
use crate::app_session::{after_go_parent, after_open_bookmark_slot};
use crate::app_state::{
    after_enter_selection_mode, after_exit_selection_mode, after_select_next, after_select_next_mode, after_select_prev,
    after_select_prev_mode, after_select_range_step_mode, after_select_range_step_simple, after_toggle_focused_selection,
    App, DialogState, Effect, InputMode, SearchMode,
};
use crate::keys::{KeyCode, KeyPress, Modifiers};
use crate::layout::{AppConfig, Bookmark};
use crate::paths::last_segment;
use crate::text::with_char;

verus! {

/// What a key does outside the modes that take every key.
#[derive(Debug, Clone, Copy, PartialEq, Eq, Structural)]
pub enum KeyAction {
    NextProfile,
    PrevProfile,
    Up,
    Down,
    Open,
    Parent,
    LocalSearch,
    GlobalSearch,
    SelectionMode,
    NewDir,
    NewFile,
    Rename,
    Copy,
    Cut,
    Paste,
    Trash,
    BookmarkMode,
    OpenBookmark(char),
    Ignore,
}

/// Which handler a key goes to.
#[derive(Debug, Clone, Copy, PartialEq, Eq, Structural)]
pub enum KeyRoute {
    /// The key bindings frame is open.
    Overlay,
    /// A dialog is open.
    Dialog,
    /// A name is being typed.
    Input,
    /// The sudo password is being typed.
    SudoPassword,
    /// A search is running.
    Search,
    /// Esc leaves the wait for a bookmark slot.
    BookmarkModeOff,
    /// A slot key while waiting for a bookmark slot.
    SetBookmark(char),
    /// Selection mode takes the key.
    Selection,
    /// Shift+Up or Shift+Down extends the plain selection.
    RangeUp,
    RangeDown,
    /// An action of the plain mode.
    Action(KeyAction),
}

pub open spec fn is_digit_1_9(c: char) -> bool {
    '1' <= c <= '9'
}

/// Ctrl+Shift+N, whether the terminal reports the letter in lower case
/// with both modifiers or in upper case.
pub open spec fn is_new_dir_key(c: char, m: Modifiers) -> bool {
    ||| c == 'n' && m.control && m.shift && !m.alt && !m.other
    ||| c == 'N' && m.control && !m.alt && !m.other
}

fn new_dir_key(c: char, m: Modifiers) -> (r: bool)
    ensures
        r == is_new_dir_key(c, m),
{
    (c == 'n' && m.is_control_shift()) || (c == 'N' && m.control && !m.alt && !m.other)
}

/// The action of a key in the plain mode.
pub open spec fn action_of(k: KeyPress) -> KeyAction {
    let m = k.modifiers;
    match k.code {
        KeyCode::Char(c) => if c == 'p' {
            KeyAction::NextProfile
        } else if c == 'P' {
            KeyAction::PrevProfile
        } else if c == 'k' {
            KeyAction::Up
        } else if c == 'j' {
            KeyAction::Down
        } else if c == 'l' {
            KeyAction::Open
        } else if c == 'h' {
            KeyAction::Parent
        } else if c == '/' {
            KeyAction::LocalSearch
        } else if c == 'f' && m.control {
            KeyAction::GlobalSearch
        } else if (c == 's' || c == 'e') && m.control {
            KeyAction::SelectionMode
        } else if is_new_dir_key(c, m) {
            KeyAction::NewDir
        } else if c == 'n' && m.control {
            KeyAction::NewFile
        } else if c == 'c' && m.control {
            KeyAction::Copy
        } else if c == 'x' && m.control {
            KeyAction::Cut
        } else if c == 'v' && m.control {
            KeyAction::Paste
        } else if c == 'd' && m.control {
            KeyAction::Trash
        } else if c == 'b' && m.control {
            KeyAction::BookmarkMode
        } else if is_digit_1_9(c) && (m.control || m.none()) {
            KeyAction::OpenBookmark(c)
        } else {
            KeyAction::Ignore
        },
        KeyCode::Up => KeyAction::Up,
        KeyCode::Down => KeyAction::Down,
        KeyCode::Right | KeyCode::Enter => KeyAction::Open,
        KeyCode::Left | KeyCode::Backspace => KeyAction::Parent,
        KeyCode::F(n) => if n == 2 { KeyAction::Rename } else { KeyAction::Ignore },
        _ => KeyAction::Ignore,
    }
}

/// The key with code `c` and modifiers `m`.
pub open spec fn press(c: KeyCode, m: Modifiers) -> KeyPress {
    KeyPress { code: c, modifiers: m }
}

/// The plain-mode key table: with Control held, `c` copies, `x` cuts, `v`
/// pastes, `d` sends to the trash, `f` searches everywhere, `b` waits for a
/// bookmark slot and `s` enters selection mode; Control alone with `n`
/// makes a file and Control with Shift a folder. Whatever else is held,
/// `k`/`j` and the arrows move, `h`, Left and Backspace go to the parent,
/// `l`, Right and Enter open, `/` searches the column, `p`/`P` change the
/// profile and F2 renames; a digit with nothing held, or with Control,
/// opens its bookmark.
pub proof fn lemma_plain_key_table(m: Modifiers)
    ensures
        m.control ==> action_of(press(KeyCode::Char('c'), m)) == KeyAction::Copy,
        m.control ==> action_of(press(KeyCode::Char('x'), m)) == KeyAction::Cut,
        m.control ==> action_of(press(KeyCode::Char('v'), m)) == KeyAction::Paste,
        m.control ==> action_of(press(KeyCode::Char('d'), m)) == KeyAction::Trash,
        m.control ==> action_of(press(KeyCode::Char('f'), m)) == KeyAction::GlobalSearch,
        m.control ==> action_of(press(KeyCode::Char('b'), m)) == KeyAction::BookmarkMode,
        m.control ==> action_of(press(KeyCode::Char('s'), m)) == KeyAction::SelectionMode,
        (m.control && !m.shift && !m.alt && !m.other) ==> action_of(press(KeyCode::Char('n'), m)) == KeyAction::NewFile,
        (m.control && m.shift && !m.alt && !m.other) ==> action_of(press(KeyCode::Char('n'), m)) == KeyAction::NewDir,
        (m.control && !m.alt && !m.other) ==> action_of(press(KeyCode::Char('N'), m)) == KeyAction::NewDir,
        !m.control ==> action_of(press(KeyCode::Char('c'), m)) == KeyAction::Ignore,
        !m.control ==> action_of(press(KeyCode::Char('x'), m)) == KeyAction::Ignore,
        action_of(press(KeyCode::Char('k'), m)) == KeyAction::Up,
        action_of(press(KeyCode::Char('j'), m)) == KeyAction::Down,
        action_of(press(KeyCode::Up, m)) == KeyAction::Up,
        action_of(press(KeyCode::Down, m)) == KeyAction::Down,
        action_of(press(KeyCode::Char('h'), m)) == KeyAction::Parent,
        action_of(press(KeyCode::Left, m)) == KeyAction::Parent,
        action_of(press(KeyCode::Backspace, m)) == KeyAction::Parent,
        action_of(press(KeyCode::Char('l'), m)) == KeyAction::Open,
        action_of(press(KeyCode::Right, m)) == KeyAction::Open,
        action_of(press(KeyCode::Enter, m)) == KeyAction::Open,
        action_of(press(KeyCode::Char('/'), m)) == KeyAction::LocalSearch,
        action_of(press(KeyCode::Char('p'), m)) == KeyAction::NextProfile,
        action_of(press(KeyCode::Char('P'), m)) == KeyAction::PrevProfile,
        action_of(press(KeyCode::F(2), m)) == KeyAction::Rename,
        forall|c: char| '1' <= c <= '9' && (m.control || m.none()) ==> action_of(#[trigger] press(KeyCode::Char(c), m)) == KeyAction::OpenBookmark(c),
{
}

/// In the plain mode (nothing open, no wait for a bookmark slot, not in
/// selection mode) a key other than a Shift+Up or Shift+Down range step
/// runs the action of the key table; in selection mode Control with `c`,
/// `x`, `v` and `d` copy, cut, paste and trash as well, and Control with
/// `s` leaves the mode.
pub proof fn lemma_plain_keys_run_their_action(a: App, k: KeyPress)
    ensures
        ({
            &&& modal_route(a) is None
            &&& !a.awaiting_bookmark_slot
            &&& !a.selection_mode
            &&& !(k.modifiers.shift && (k.code == KeyCode::Up || k.code == KeyCode::Down))
        }) ==> route_of(a, k) == KeyRoute::Action(action_of(k)),
        (!a.awaiting_bookmark_slot && k.modifiers.control) ==> {
            &&& (k.code == KeyCode::Char('c') ==> selection_action_of(a, k) == SelectionAction::Copy)
            &&& (k.code == KeyCode::Char('x') ==> selection_action_of(a, k) == SelectionAction::Cut)
            &&& (k.code == KeyCode::Char('v') ==> selection_action_of(a, k) == SelectionAction::Paste)
            &&& (k.code == KeyCode::Char('d') ==> selection_action_of(a, k) == SelectionAction::Trash)
            &&& (k.code == KeyCode::Char('s') ==> selection_action_of(a, k) == SelectionAction::Exit)
        },
{
}

/// Where a key goes: the key bindings frame, a dialog, the name being
/// typed, the sudo password, a running search, the wait for a bookmark
/// slot, selection mode, a range step, or an action of the plain mode, in
/// that order of precedence.
pub open spec fn route_of(a: App, k: KeyPress) -> KeyRoute {
    if a.keybinds_overlay is Some {
        KeyRoute::Overlay
    } else if a.dialog is Some {
        KeyRoute::Dialog
    } else if a.input_mode != InputMode::Idle {
        KeyRoute::Input
    } else if a.sudo_password_prompt {
        KeyRoute::SudoPassword
    } else if a.search_mode != SearchMode::Idle {
        KeyRoute::Search
    } else if k.code == KeyCode::Esc && a.awaiting_bookmark_slot {
        KeyRoute::BookmarkModeOff
    } else if a.awaiting_bookmark_slot && slot_of_key(k) is Some {
        KeyRoute::SetBookmark(slot_of_key(k)->0)
    } else if a.selection_mode {
        KeyRoute::Selection
    } else if k.modifiers.shift && k.code == KeyCode::Up {
        KeyRoute::RangeUp
    } else if k.modifiers.shift && k.code == KeyCode::Down {
        KeyRoute::RangeDown
    } else {
        KeyRoute::Action(action_of(k))
    }
}

/// The key that ends the program: `q`, whatever else is held and whatever
/// mode is on.
pub fn is_quit_key(key: KeyPress) -> (r: bool)
    ensures
        r == (key.code == KeyCode::Char('q')),
{
    match key.code {
        KeyCode::Char(c) => c == 'q',
        _ => false,
    }
}

pub fn action_of_key(key: KeyPress) -> (r: KeyAction)
    ensures
        r == action_of(key),
{
    let m = key.modifiers;
    match key.code {
        KeyCode::Char(c) => if c == 'p' {
            KeyAction::NextProfile
        } else if c == 'P' {
            KeyAction::PrevProfile
        } else if c == 'k' {
            KeyAction::Up
        } else if c == 'j' {
            KeyAction::Down
        } else if c == 'l' {
            KeyAction::Open
        } else if c == 'h' {
            KeyAction::Parent
        } else if c == '/' {
            KeyAction::LocalSearch
        } else if c == 'f' && m.control {
            KeyAction::GlobalSearch
        } else if (c == 's' || c == 'e') && m.control {
            KeyAction::SelectionMode
        } else if new_dir_key(c, m) {
            KeyAction::NewDir
        } else if c == 'n' && m.control {
            KeyAction::NewFile
        } else if c == 'c' && m.control {
            KeyAction::Copy
        } else if c == 'x' && m.control {
            KeyAction::Cut
        } else if c == 'v' && m.control {
            KeyAction::Paste
        } else if c == 'd' && m.control {
            KeyAction::Trash
        } else if c == 'b' && m.control {
            KeyAction::BookmarkMode
        } else if '1' <= c && c <= '9' && (m.control || m.is_empty()) {
            KeyAction::OpenBookmark(c)
        } else {
            KeyAction::Ignore
        },
        KeyCode::Up => KeyAction::Up,
        KeyCode::Down => KeyAction::Down,
        KeyCode::Right | KeyCode::Enter => KeyAction::Open,
        KeyCode::Left | KeyCode::Backspace => KeyAction::Parent,
        KeyCode::F(n) => if n == 2 { KeyAction::Rename } else { KeyAction::Ignore },
        _ => KeyAction::Ignore,
    }
}

impl App {
    /// Where a key goes (see `route_of`).
    pub fn key_route(&self, key: KeyPress) -> (r: KeyRoute)
        ensures
            r == route_of(*self, key),
    {
        if self.keybinds_overlay.is_some() {
            KeyRoute::Overlay
        } else if self.dialog.is_some() {
            KeyRoute::Dialog
        } else if self.input_mode != InputMode::Idle {
            KeyRoute::Input
        } else if self.sudo_password_prompt {
            KeyRoute::SudoPassword
        } else if self.search_mode != SearchMode::Idle {
            KeyRoute::Search
        } else if key.code == KeyCode::Esc && self.awaiting_bookmark_slot {
            KeyRoute::BookmarkModeOff
        } else if self.awaiting_bookmark_slot && bookmark_slot_from_key(key).is_some() {
            KeyRoute::SetBookmark(bookmark_slot_from_key(key).unwrap())
        } else if self.selection_mode {
            KeyRoute::Selection
        } else if key.modifiers.shift && key.code == KeyCode::Up {
            KeyRoute::RangeUp
        } else if key.modifiers.shift && key.code == KeyCode::Down {
            KeyRoute::RangeDown
        } else {
            KeyRoute::Action(action_of_key(key))
        }
    }

    /// Confirms the open dialog: a confirmed delete sends the paths to the
    /// trash; a confirmed overwrite puts the new directory in the bookmark's
    /// slot; a declined one is reported; a message just closes.
    pub fn confirm_dialog(&mut self) -> (e: Effect)
        requires
            old(self).wf(),
        ensures
            final(self).wf(),
            after_confirm_dialog(*old(self), *final(self), e),
    {
        let dialog = match self.dialog.take() {
            Some(d) => d,
            None => return Effect::Nothing,
        };
        match dialog {
            DialogState::ConfirmDelete { paths, yes_selected } => {
                if !yes_selected {
                    self.status_message = "delete canceled".to_owned();
                    return Effect::Nothing;
                }
                Effect::Trash(paths)
            },
            DialogState::ConfirmBookmarkOverwrite { slot, new_path, yes_selected, .. } => {
                if !yes_selected {
                    self.status_message = "bookmark overwrite canceled".to_owned();
                    return Effect::Nothing;
                }
                self.overwrite_bookmark(slot, new_path);
                Effect::Nothing
            },
            DialogState::Message { .. } => Effect::Nothing,
        }
    }

    fn overwrite_bookmark(&mut self, slot: char, new_path: String)
        ensures
            match slot_index(old(self).config.sidebar.bookmarks@, slot) {
                None => {
                    &&& *final(self) == (App { status_message: final(self).status_message, ..*old(self) })
                    &&& final(self).status_message@ == "bookmark "@ + seq![slot] + " not found"@
                },
                Some(k) => {
                    &&& *final(self) == (App {
                        status_message: final(self).status_message,
                        config: AppConfig {
                            sidebar: crate::layout::SidebarConfig { bookmarks: final(self).config.sidebar.bookmarks, ..old(self).config.sidebar },
                            ..old(self).config
                        },
                        ..*old(self)
                    })
                    &&& final(self).config.sidebar.bookmarks@ == old(self).config.sidebar.bookmarks@.update(k, final(self).config.sidebar.bookmarks@[k])
                    &&& final(self).config.sidebar.bookmarks@[k].path == new_path
                    &&& final(self).config.sidebar.bookmarks@[k].name@ == last_segment(new_path@)
                    &&& final(self).config.sidebar.bookmarks@[k].slot == if '0' <= slot <= '9' { Some(((slot as u32) - ('0' as u32)) as u8) } else { None }
                    &&& final(self).status_message@ == "updated bookmark "@ + seq![slot]
                },
            },
    {
        match find_slot(&self.config.sidebar.bookmarks, slot) {
            None => {
                self.status_message = with_char("bookmark ", slot, " not found");
            },
            Some(k) => {
                let slot_num: Option<u8> = if '0' <= slot && slot <= '9' { Some((slot as u32 - '0' as u32) as u8) } else { None };
                let label = crate::paths::path_last_segment(new_path.as_str());
                self.replace_bookmark(k, Bookmark { slot: slot_num, name: label, path: new_path });
                self.status_message = with_char("updated bookmark ", slot, "");
                proof {
                    reveal_strlit("");
                }
                assert(self.status_message@ =~= "updated bookmark "@ + seq![slot]);
            },
        }
    }

    fn replace_bookmark(&mut self, k: usize, b: Bookmark)
        requires
            k < old(self).config.sidebar.bookmarks@.len(),
        ensures
            final(self).config.sidebar.bookmarks@ == old(self).config.sidebar.bookmarks@.update(k as int, b),
            *final(self) == (App {
                config: AppConfig {
                    sidebar: crate::layout::SidebarConfig { bookmarks: final(self).config.sidebar.bookmarks, ..old(self).config.sidebar },
                    ..old(self).config
                },
                ..*old(self)
            }),
    {
        self.config.sidebar.bookmarks.remove(k);
        self.config.sidebar.bookmarks.insert(k, b);
        assert(self.config.sidebar.bookmarks@ =~= old(self).config.sidebar.bookmarks@.update(k as int, b));
    }

    fn set_dialog_choice(&mut self, yes: bool)
        ensures
            *final(self) == with_choice(*old(self), yes),
    {
        let d = self.dialog.take();
        self.dialog = match d {
            Some(DialogState::ConfirmDelete { paths, .. }) => Some(DialogState::ConfirmDelete { paths, yes_selected: yes }),
            Some(DialogState::ConfirmBookmarkOverwrite { slot, existing_path, new_path, .. }) =>
                Some(DialogState::ConfirmBookmarkOverwrite { slot, existing_path, new_path, yes_selected: yes }),
            other => other,
        };
    }

    /// A key while a dialog is open. In a confirmation: Left or `h` chooses
    /// Yes, Right, `l` or Tab chooses No, `y` chooses Yes and confirms, `n`
    /// or Esc cancels (and says so), Enter confirms the choice. In a
    /// message: Esc or Enter closes it.
    pub fn handle_dialog_key(&mut self, key: KeyPress) -> (e: Effect)
        requires
            old(self).wf(),
        ensures
            final(self).wf(),
            after_handle_dialog_key(*old(self), *final(self), e, key),
    {
        let kind = match &self.dialog {
            None => 0u8,
            Some(DialogState::Message { .. }) => 1u8,
            Some(DialogState::ConfirmDelete { .. }) => 2u8,
            Some(DialogState::ConfirmBookmarkOverwrite { .. }) => 3u8,
        };
        if kind == 0 {
            Effect::Nothing
        } else if kind == 1 {
            if key.code == KeyCode::Esc || key.code == KeyCode::Enter {
                self.dialog = None;
            }
            Effect::Nothing
        } else {
            self.handle_confirm_key(key, kind == 2)
        }
    }

    fn handle_confirm_key(&mut self, key: KeyPress, deleting: bool) -> (e: Effect)
        requires
            old(self).wf(),
            deleting ==> old(self).dialog matches Some(DialogState::ConfirmDelete { .. }),
            !deleting ==> old(self).dialog matches Some(DialogState::ConfirmBookmarkOverwrite { .. }),
        ensures
            final(self).wf(),
            after_confirm_key(*old(self), *final(self), e, key, deleting),
    {
        match key.code {
            KeyCode::Left | KeyCode::Char('h') => {
                self.set_dialog_choice(true);
                Effect::Nothing
            },
            KeyCode::Right | KeyCode::Char('l') | KeyCode::Tab => {
                self.set_dialog_choice(false);
                Effect::Nothing
            },
            KeyCode::Char('y') | KeyCode::Char('Y') => {
                self.set_dialog_choice(true);
                self.confirm_dialog()
            },
            KeyCode::Char('n') | KeyCode::Char('N') | KeyCode::Esc => {
                self.cancel_dialog(deleting);
                Effect::Nothing
            },
            KeyCode::Enter => self.confirm_dialog(),
            _ => Effect::Nothing,
        }
    }

    fn cancel_dialog(&mut self, deleting: bool)
        ensures
            *final(self) == (App { dialog: None, status_message: final(self).status_message, ..*old(self) }),
            final(self).status_message@ == if deleting { "delete canceled"@ } else { "bookmark overwrite canceled"@ },
    {
        self.dialog = None;
        self.status_message = if deleting { "delete canceled".to_owned() } else { "bookmark overwrite canceled".to_owned() };
    }
}


/// What a key does in selection mode.
#[derive(Debug, Clone, Copy, PartialEq, Eq, Structural)]
pub enum SelectionAction {
    SetBookmark(char),
    Exit,
    Toggle,
    LocalSearch,
    GlobalSearch,
    RangeUp,
    RangeDown,
    Up,
    Down,
    Copy,
    Cut,
    Paste,
    Trash,
    BookmarkMode,
    OpenBookmark(char),
    NewDir,
    NewFile,
    Rename,
    Ignore,
}

/// The action of a key in selection mode.
pub open spec fn selection_action_of(a: App, k: KeyPress) -> SelectionAction {
    let m = k.modifiers;
    if a.awaiting_bookmark_slot && slot_of_key(k) is Some {
        SelectionAction::SetBookmark(slot_of_key(k)->0)
    } else {
        match k.code {
            KeyCode::Esc => SelectionAction::Exit,
            KeyCode::Up => if m.shift { SelectionAction::RangeUp } else { SelectionAction::Up },
            KeyCode::Down => if m.shift { SelectionAction::RangeDown } else { SelectionAction::Down },
            KeyCode::F(n) => if n == 2 { SelectionAction::Rename } else { SelectionAction::Ignore },
            KeyCode::Char(c) => if c == ' ' && m.none() {
                SelectionAction::Toggle
            } else if c == '/' && m.none() {
                SelectionAction::LocalSearch
            } else if c == 'f' && m.control {
                SelectionAction::GlobalSearch
            } else if c == 'k' {
                SelectionAction::Up
            } else if c == 'j' {
                SelectionAction::Down
            } else if c == 's' && m.control {
                SelectionAction::Exit
            } else if c == 'e' && m.control {
                SelectionAction::Ignore
            } else if c == 'c' && m.control {
                SelectionAction::Copy
            } else if c == 'x' && m.control {
                SelectionAction::Cut
            } else if c == 'v' && m.control {
                SelectionAction::Paste
            } else if c == 'd' && m.control {
                SelectionAction::Trash
            } else if c == 'b' && m.control {
                SelectionAction::BookmarkMode
            } else if is_digit_1_9(c) && (m.control || m.none()) {
                SelectionAction::OpenBookmark(c)
            } else if is_new_dir_key(c, m) {
                SelectionAction::NewDir
            } else if c == 'n' && m.control {
                SelectionAction::NewFile
            } else {
                SelectionAction::Ignore
            },
            _ => SelectionAction::Ignore,
        }
    }
}

/// The key does not run into a stale cursor or range anchor, which would
/// index past the end of a column: a range step needs the last column's
/// cursor and the anchor to be rows of it.
pub open spec fn key_safe(a: App, k: KeyPress) -> bool {
    &&& (route_of(a, k) == KeyRoute::RangeUp || route_of(a, k) == KeyRoute::RangeDown) ==> a.simple_anchor_ok()
    &&& (route_of(a, k) == KeyRoute::Selection && (selection_action_of(a, k) == SelectionAction::RangeUp
        || selection_action_of(a, k) == SelectionAction::RangeDown)) ==> a.mode_anchor_ok()
}

impl App {
    /// Whether the plain range anchor and cursor allow a range step (see
    /// `simple_anchor_ok`).
    fn simple_anchor_holds(&self) -> (r: bool)
        ensures
            r == self.simple_anchor_ok(),
    {
        let n = self.columns.len();
        if n == 0 {
            return true;
        }
        let last = &self.columns[n - 1];
        let cursor = last.selected == 0 || last.selected < last.entries.len();
        let same_column = match &self.simple_column_path {
            Some(p) => crate::paths::same_path(p.as_str(), last.path.as_str()),
            None => false,
        };
        let anchor = match self.simple_range_anchor {
            Some(x) => x < last.entries.len(),
            None => true,
        };
        cursor && (!same_column || anchor)
    }

    /// Whether the range anchor of selection mode and the cursor allow a
    /// range step (see `mode_anchor_ok`).
    fn mode_anchor_holds(&self) -> (r: bool)
        ensures
            r == self.mode_anchor_ok(),
    {
        let n = self.columns.len();
        if n == 0 {
            return true;
        }
        let last = &self.columns[n - 1];
        let cursor = last.selected == 0 || last.selected < last.entries.len();
        let anchor = match self.mode_range_anchor {
            Some(x) => x < last.entries.len(),
            None => true,
        };
        cursor && anchor
    }

    /// Whether `handle_key` can take the key (see `key_safe`).
    pub fn key_is_safe(&self, key: KeyPress) -> (r: bool)
        ensures
            r == key_safe(*self, key),
    {
        match self.key_route(key) {
            KeyRoute::RangeUp | KeyRoute::RangeDown => self.simple_anchor_holds(),
            KeyRoute::Selection => match self.selection_action(key) {
                SelectionAction::RangeUp | SelectionAction::RangeDown => self.mode_anchor_holds(),
                _ => true,
            },
            _ => true,
        }
    }
}

impl App {
    /// What a key does in selection mode (see `selection_action_of`).
    pub fn selection_action(&self, key: KeyPress) -> (r: SelectionAction)
        ensures
            r == selection_action_of(*self, key),
    {
        let m = key.modifiers;
        if self.awaiting_bookmark_slot && bookmark_slot_from_key(key).is_some() {
            return SelectionAction::SetBookmark(bookmark_slot_from_key(key).unwrap());
        }
        match key.code {
            KeyCode::Esc => SelectionAction::Exit,
            KeyCode::Up => if m.shift { SelectionAction::RangeUp } else { SelectionAction::Up },
            KeyCode::Down => if m.shift { SelectionAction::RangeDown } else { SelectionAction::Down },
            KeyCode::F(n) => if n == 2 { SelectionAction::Rename } else { SelectionAction::Ignore },
            KeyCode::Char(c) => if c == ' ' && m.is_empty() {
                SelectionAction::Toggle
            } else if c == '/' && m.is_empty() {
                SelectionAction::LocalSearch
            } else if c == 'f' && m.control {
                SelectionAction::GlobalSearch
            } else if c == 'k' {
                SelectionAction::Up
            } else if c == 'j' {
                SelectionAction::Down
            } else if c == 's' && m.control {
                SelectionAction::Exit
            } else if c == 'e' && m.control {
                SelectionAction::Ignore
            } else if c == 'c' && m.control {
                SelectionAction::Copy
            } else if c == 'x' && m.control {
                SelectionAction::Cut
            } else if c == 'v' && m.control {
                SelectionAction::Paste
            } else if c == 'd' && m.control {
                SelectionAction::Trash
            } else if c == 'b' && m.control {
                SelectionAction::BookmarkMode
            } else if '1' <= c && c <= '9' && (m.control || m.is_empty()) {
                SelectionAction::OpenBookmark(c)
            } else if new_dir_key(c, m) {
                SelectionAction::NewDir
            } else if c == 'n' && m.control {
                SelectionAction::NewFile
            } else {
                SelectionAction::Ignore
            },
            _ => SelectionAction::Ignore,
        }
    }

    /// Waits for a bookmark slot key.
    pub fn start_bookmark_mode(&mut self)
        ensures
            after_start_bookmark_mode(*old(self), *final(self)),
    {
        self.awaiting_bookmark_slot = true;
        self.status_message = "bookmark set mode: press 1-9".to_owned();
    }

    /// Stops waiting for a bookmark slot key.
    pub fn stop_bookmark_mode(&mut self)
        ensures
            after_stop_bookmark_mode(*old(self), *final(self)),
    {
        self.awaiting_bookmark_slot = false;
        self.status_message = "bookmark mode off".to_owned();
    }

    /// A key in selection mode (see `selection_action_of`).
    pub fn handle_selection_mode_key(&mut self, key: KeyPress) -> (e: Effect)
        requires
            old(self).wf(),
            (selection_action_of(*old(self), key) == SelectionAction::RangeUp || selection_action_of(*old(self), key) == SelectionAction::RangeDown)
                ==> old(self).mode_anchor_ok(),
        ensures
            final(self).wf(),
            after_selection_action(*old(self), *final(self), e, selection_action_of(*old(self), key)),
    {
        match self.selection_action(key) {
            SelectionAction::SetBookmark(slot) => self.bookmark_target(slot),
            SelectionAction::Exit => {
                self.exit_selection_mode();
                Effect::Nothing
            },
            SelectionAction::Toggle => {
                self.toggle_focused_selection();
                Effect::Nothing
            },
            SelectionAction::LocalSearch => {
                self.start_local_search();
                Effect::Nothing
            },
            SelectionAction::GlobalSearch => self.start_global_search(),
            SelectionAction::RangeUp => {
                self.select_range_step_mode(false);
                Effect::Nothing
            },
            SelectionAction::RangeDown => {
                self.select_range_step_mode(true);
                Effect::Nothing
            },
            SelectionAction::Up => {
                self.select_prev_mode();
                Effect::Nothing
            },
            SelectionAction::Down => {
                self.select_next_mode();
                Effect::Nothing
            },
            SelectionAction::Copy => {
                self.copy_selected();
                Effect::Nothing
            },
            SelectionAction::Cut => {
                self.cut_selected();
                Effect::Nothing
            },
            SelectionAction::Paste => self.paste_clipboard(),
            SelectionAction::Trash => {
                self.request_delete_to_trash();
                Effect::Nothing
            },
            SelectionAction::BookmarkMode => {
                self.start_bookmark_mode();
                Effect::Nothing
            },
            SelectionAction::OpenBookmark(c) => self.open_bookmark_slot(c),
            SelectionAction::NewDir => {
                self.start_new_dir();
                Effect::Nothing
            },
            SelectionAction::NewFile => {
                self.start_new_file();
                Effect::Nothing
            },
            SelectionAction::Rename => {
                self.start_rename();
                Effect::Nothing
            },
            SelectionAction::Ignore => Effect::Nothing,
        }
    }

    /// Runs an action of the plain mode.
    pub fn perform_action(&mut self, action: KeyAction) -> (e: Effect)
        requires
            old(self).wf(),
        ensures
            final(self).wf(),
            after_action(*old(self), *final(self), e, action),
    {
        match action {
            KeyAction::NextProfile => self.next_profile(),
            KeyAction::PrevProfile => self.prev_profile(),
            KeyAction::Up => {
                self.select_prev();
                Effect::Nothing
            },
            KeyAction::Down => {
                self.select_next();
                Effect::Nothing
            },
            KeyAction::Open => self.enter_selected_dir(),
            KeyAction::Parent => self.go_parent(),
            KeyAction::LocalSearch => {
                self.start_local_search();
                Effect::Nothing
            },
            KeyAction::GlobalSearch => self.start_global_search(),
            KeyAction::SelectionMode => {
                self.enter_selection_mode();
                Effect::Nothing
            },
            KeyAction::NewDir => {
                self.start_new_dir();
                Effect::Nothing
            },
            KeyAction::NewFile => {
                self.start_new_file();
                Effect::Nothing
            },
            KeyAction::Rename => {
                self.start_rename();
                Effect::Nothing
            },
            KeyAction::Copy => {
                self.copy_selected();
                Effect::Nothing
            },
            KeyAction::Cut => {
                self.cut_selected();
                Effect::Nothing
            },
            KeyAction::Paste => self.paste_clipboard(),
            KeyAction::Trash => {
                self.request_delete_to_trash();
                Effect::Nothing
            },
            KeyAction::BookmarkMode => {
                self.start_bookmark_mode();
                Effect::Nothing
            },
            KeyAction::OpenBookmark(c) => self.open_bookmark_slot(c),
            KeyAction::Ignore => Effect::Nothing,
        }
    }

    /// Handles a key press: it goes where `route_of` says, and the result
    /// names what is to be done outside.
    pub fn handle_key(&mut self, key: KeyPress) -> (e: Effect)
        requires
            old(self).wf(),
            key_safe(*old(self), key),
        ensures
            final(self).wf(),
            after_key(*old(self), *final(self), e, key),
    {
        match self.key_route(key) {
            KeyRoute::Overlay => {
                self.handle_keybinds_overlay_key(key);
                Effect::Nothing
            },
            KeyRoute::Dialog => self.handle_dialog_key(key),
            KeyRoute::Input => self.handle_input_mode(key),
            KeyRoute::SudoPassword => self.handle_sudo_password_input(key),
            KeyRoute::Search => self.handle_search_input(key),
            KeyRoute::BookmarkModeOff => {
                self.stop_bookmark_mode();
                Effect::Nothing
            },
            KeyRoute::SetBookmark(slot) => self.bookmark_target(slot),
            KeyRoute::Selection => self.handle_selection_mode_key(key),
            KeyRoute::RangeUp => {
                self.select_range_step_simple(false);
                Effect::Nothing
            },
            KeyRoute::RangeDown => {
                self.select_range_step_simple(true);
                Effect::Nothing
            },
            KeyRoute::Action(a) => self.perform_action(a),
        }
    }
}

/// What `start_bookmark_mode` does (see there).
pub open spec fn after_start_bookmark_mode(pre: App, post: App) -> bool {
    &&& (post == (App { awaiting_bookmark_slot: true, status_message: post.status_message, ..pre }))
    &&& (post.status_message@ == "bookmark set mode: press 1-9"@)
}

/// What `stop_bookmark_mode` does (see there).
pub open spec fn after_stop_bookmark_mode(pre: App, post: App) -> bool {
    &&& (post == (App { awaiting_bookmark_slot: false, status_message: post.status_message, ..pre }))
    &&& (post.status_message@ == "bookmark mode off"@)
}

/// What `handle_dialog_key` does (see there).
pub open spec fn after_handle_dialog_key(pre: App, post: App, e: Effect, key: KeyPress) -> bool {
    match pre.dialog {
        None => post == pre && e == Effect::Nothing,
        Some(DialogState::Message { .. }) => e == Effect::Nothing && if key.code == KeyCode::Esc || key.code == KeyCode::Enter {
            post == (App { dialog: None, ..pre })
        } else {
            post == pre
        },
        Some(DialogState::ConfirmDelete { .. }) => after_confirm_key(pre, post, e, key, true),
        Some(DialogState::ConfirmBookmarkOverwrite { .. }) => after_confirm_key(pre, post, e, key, false),
    }
}

/// The state with Yes (`yes`) or No chosen in the open confirmation.
pub open spec fn with_choice(a: App, yes: bool) -> App {
    match a.dialog {
        Some(DialogState::ConfirmDelete { paths, .. }) =>
            App { dialog: Some(DialogState::ConfirmDelete { paths, yes_selected: yes }), ..a },
        Some(DialogState::ConfirmBookmarkOverwrite { slot, existing_path, new_path, .. }) =>
            App { dialog: Some(DialogState::ConfirmBookmarkOverwrite { slot, existing_path, new_path, yes_selected: yes }), ..a },
        _ => a,
    }
}

/// What a key does in a confirmation (deleting, or overwriting a
/// bookmark): Left or `h` chooses Yes, Right, `l` or Tab chooses No, `y`
/// chooses Yes and confirms, Enter confirms the choice, `n` or Esc cancels
/// and says so; other keys do nothing.
pub open spec fn after_confirm_key(pre: App, post: App, e: Effect, key: KeyPress, deleting: bool) -> bool {
    match key.code {
        KeyCode::Left | KeyCode::Char('h') => e == Effect::Nothing && post == with_choice(pre, true),
        KeyCode::Right | KeyCode::Char('l') | KeyCode::Tab => e == Effect::Nothing && post == with_choice(pre, false),
        KeyCode::Char('y') | KeyCode::Char('Y') => after_confirm_dialog(with_choice(pre, true), post, e),
        KeyCode::Enter => after_confirm_dialog(pre, post, e),
        KeyCode::Char('n') | KeyCode::Char('N') | KeyCode::Esc => {
            &&& e == Effect::Nothing
            &&& post == (App { dialog: None, status_message: post.status_message, ..pre })
            &&& post.status_message@ == if deleting { "delete canceled"@ } else { "bookmark overwrite canceled"@ }
        },
        _ => post == pre && e == Effect::Nothing,
    }
}

/// Where a slot key sets a bookmark: the directory under the cursor, else
/// the current directory (see `bookmark_target`).
pub open spec fn bookmark_check(a: App, slot: char) -> Effect {
    Effect::CheckBookmarkTarget(slot, match a.selected_dir_spec() {
        Some(p) => p,
        None => a.current_dir,
    })
}

/// What opening the entry under the cursor asks for (see
/// `enter_selected_dir`).
pub open spec fn enter_effect(a: App) -> Effect {
    if a.search_mode == SearchMode::Global {
        a.open_global_selected_spec()
    } else {
        match a.selected_dir_spec() {
            Some(p) => Effect::ReadColumn(p),
            None => Effect::Nothing,
        }
    }
}

/// What an action of the plain mode does (see `perform_action` and the
/// method it runs).
pub open spec fn after_action(pre: App, post: App, e: Effect, a: KeyAction) -> bool {
    match a {
        KeyAction::NextProfile => after_next_profile(pre, post, e),
        KeyAction::PrevProfile => after_prev_profile(pre, post, e),
        KeyAction::Up => e == Effect::Nothing && after_select_prev(pre, post),
        KeyAction::Down => e == Effect::Nothing && after_select_next(pre, post),
        KeyAction::Open => post == pre && e == enter_effect(pre),
        KeyAction::Parent => after_go_parent(pre, post, e),
        KeyAction::LocalSearch => e == Effect::Nothing && after_start_local_search(pre, post),
        KeyAction::GlobalSearch => after_start_global_search(pre, post, e),
        KeyAction::SelectionMode => e == Effect::Nothing && after_enter_selection_mode(pre, post),
        KeyAction::NewDir => e == Effect::Nothing && after_start_new_dir(pre, post),
        KeyAction::NewFile => e == Effect::Nothing && after_start_new_file(pre, post),
        KeyAction::Rename => e == Effect::Nothing && after_start_rename(pre, post),
        KeyAction::Copy => e == Effect::Nothing && after_copy_selected(pre, post),
        KeyAction::Cut => e == Effect::Nothing && after_cut_selected(pre, post),
        KeyAction::Paste => after_paste_clipboard(pre, post, e),
        KeyAction::Trash => e == Effect::Nothing && after_request_delete_to_trash(pre, post),
        KeyAction::BookmarkMode => e == Effect::Nothing && after_start_bookmark_mode(pre, post),
        KeyAction::OpenBookmark(c) => after_open_bookmark_slot(pre, post, e, c),
        KeyAction::Ignore => post == pre && e == Effect::Nothing,
    }
}

/// What a key does in selection mode (see `handle_selection_mode_key` and
/// the method it runs).
pub open spec fn after_selection_action(pre: App, post: App, e: Effect, a: SelectionAction) -> bool {
    match a {
        SelectionAction::SetBookmark(slot) => post == pre && e == bookmark_check(pre, slot),
        SelectionAction::Exit => e == Effect::Nothing && after_exit_selection_mode(pre, post),
        SelectionAction::Toggle => e == Effect::Nothing && after_toggle_focused_selection(pre, post),
        SelectionAction::LocalSearch => e == Effect::Nothing && after_start_local_search(pre, post),
        SelectionAction::GlobalSearch => after_start_global_search(pre, post, e),
        SelectionAction::RangeUp => e == Effect::Nothing && after_select_range_step_mode(pre, post, false),
        SelectionAction::RangeDown => e == Effect::Nothing && after_select_range_step_mode(pre, post, true),
        SelectionAction::Up => e == Effect::Nothing && after_select_prev_mode(pre, post),
        SelectionAction::Down => e == Effect::Nothing && after_select_next_mode(pre, post),
        SelectionAction::Copy => e == Effect::Nothing && after_copy_selected(pre, post),
        SelectionAction::Cut => e == Effect::Nothing && after_cut_selected(pre, post),
        SelectionAction::Paste => after_paste_clipboard(pre, post, e),
        SelectionAction::Trash => e == Effect::Nothing && after_request_delete_to_trash(pre, post),
        SelectionAction::BookmarkMode => e == Effect::Nothing && after_start_bookmark_mode(pre, post),
        SelectionAction::OpenBookmark(c) => after_open_bookmark_slot(pre, post, e, c),
        SelectionAction::NewDir => e == Effect::Nothing && after_start_new_dir(pre, post),
        SelectionAction::NewFile => e == Effect::Nothing && after_start_new_file(pre, post),
        SelectionAction::Rename => e == Effect::Nothing && after_start_rename(pre, post),
        SelectionAction::Ignore => post == pre && e == Effect::Nothing,
    }
}

/// What a key press does: the handler that `route_of` names does its part.
pub open spec fn after_key(pre: App, post: App, e: Effect, key: KeyPress) -> bool {
    match route_of(pre, key) {
        KeyRoute::Overlay => e == Effect::Nothing && after_handle_keybinds_overlay_key(pre, post, key),
        KeyRoute::Dialog => after_handle_dialog_key(pre, post, e, key),
        KeyRoute::Input => after_handle_input_mode(pre, post, e, key),
        KeyRoute::SudoPassword => after_handle_sudo_password_input(pre, post, e, key),
        KeyRoute::Search => after_handle_search_input(pre, post, e, key),
        KeyRoute::BookmarkModeOff => e == Effect::Nothing && after_stop_bookmark_mode(pre, post),
        KeyRoute::SetBookmark(slot) => post == pre && e == bookmark_check(pre, slot),
        KeyRoute::Selection => after_selection_action(pre, post, e, selection_action_of(pre, key)),
        KeyRoute::RangeUp => e == Effect::Nothing && after_select_range_step_simple(pre, post, false),
        KeyRoute::RangeDown => e == Effect::Nothing && after_select_range_step_simple(pre, post, true),
        KeyRoute::Action(a) => after_action(pre, post, e, a),
    }
}

/// The key bindings frame, a dialog, the name being typed, the sudo
/// password and a running search each take every key while open, in that
/// order of precedence.
pub open spec fn modal_route(a: App) -> Option<KeyRoute> {
    if a.keybinds_overlay is Some {
        Some(KeyRoute::Overlay)
    } else if a.dialog is Some {
        Some(KeyRoute::Dialog)
    } else if a.input_mode != InputMode::Idle {
        Some(KeyRoute::Input)
    } else if a.sudo_password_prompt {
        Some(KeyRoute::SudoPassword)
    } else if a.search_mode != SearchMode::Idle {
        Some(KeyRoute::Search)
    } else {
        None
    }
}

/// Exactly one handler sees a key: where the key bindings frame, a dialog,
/// the name being typed, the sudo password or a search is open, the first
/// of them takes the key, whatever it is, and `handle_key` may be given
/// any key then. With the frame or a dialog open, the key changes neither
/// the active profile nor the search or input mode.
pub proof fn lemma_key_precedence(pre: App, post: App, e: Effect, k: KeyPress)
    ensures
        modal_route(pre) matches Some(r) ==> route_of(pre, k) == r && key_safe(pre, k),
        (pre.keybinds_overlay is Some || pre.dialog is Some) && after_key(pre, post, e, k) ==> {
            &&& post.active_profile == pre.active_profile
            &&& post.search_mode == pre.search_mode
            &&& post.input_mode == pre.input_mode
        },
{
    if (pre.keybinds_overlay is Some || pre.dialog is Some) && after_key(pre, post, e, k) {
        if pre.keybinds_overlay is None {
            assert(route_of(pre, k) == KeyRoute::Dialog);
            lemma_dialog_key_keeps_modes(pre, post, e, k);
        }
    }
}

/// The modes that a dialog's keys leave alone.
pub open spec fn same_modes(pre: App, post: App) -> bool {
    &&& post.active_profile == pre.active_profile
    &&& post.search_mode == pre.search_mode
    &&& post.input_mode == pre.input_mode
}

proof fn lemma_confirm_keeps_modes(pre: App, post: App, e: Effect)
    requires
        after_confirm_dialog(pre, post, e),
    ensures
        same_modes(pre, post),
{
}

proof fn lemma_dialog_key_keeps_modes(pre: App, post: App, e: Effect, k: KeyPress)
    requires
        pre.dialog is Some,
        after_handle_dialog_key(pre, post, e, k),
    ensures
        same_modes(pre, post),
{
    match pre.dialog {
        Some(DialogState::Message { .. }) => {},
        Some(DialogState::ConfirmDelete { .. }) | Some(DialogState::ConfirmBookmarkOverwrite { .. }) => {
            let deleting = pre.dialog matches Some(DialogState::ConfirmDelete { .. });
            assert(after_confirm_key(pre, post, e, k, deleting));
            match k.code {
                KeyCode::Char('y') | KeyCode::Char('Y') => {
                    lemma_confirm_keeps_modes(with_choice(pre, true), post, e);
                },
                KeyCode::Enter => {
                    lemma_confirm_keeps_modes(pre, post, e);
                },
                _ => {},
            }
        },
        None => {},
    }
}

/// What `confirm_dialog` does (see there).
pub open spec fn after_confirm_dialog(pre: App, post: App, e: Effect) -> bool {
    &&& (post.dialog is None)
    &&& (match pre.dialog {
            None => e == Effect::Nothing && post == pre,
            Some(DialogState::ConfirmDelete { paths, yes_selected }) => if yes_selected {
                e == Effect::Trash(paths) && post == (App { dialog: None, ..pre })
            } else {
                &&& e == Effect::Nothing
                &&& post == (App { dialog: None, status_message: post.status_message, ..pre })
                &&& post.status_message@ == "delete canceled"@
            },
            Some(DialogState::ConfirmBookmarkOverwrite { slot, new_path, yes_selected, .. }) => {
                &&& e == Effect::Nothing
                &&& if !yes_selected {
                    &&& post == (App { dialog: None, status_message: post.status_message, ..pre })
                    &&& post.status_message@ == "bookmark overwrite canceled"@
                } else {
                    match slot_index(pre.config.sidebar.bookmarks@, slot) {
                        None => {
                            &&& post == (App { dialog: None, status_message: post.status_message, ..pre })
                            &&& post.status_message@ == "bookmark "@ + seq![slot] + " not found"@
                        },
                        Some(k) => {
                            &&& post == (App {
                                dialog: None,
                                status_message: post.status_message,
                                config: AppConfig {
                                    sidebar: crate::layout::SidebarConfig { bookmarks: post.config.sidebar.bookmarks, ..pre.config.sidebar },
                                    ..pre.config
                                },
                                ..pre
                            })
                            &&& post.config.sidebar.bookmarks@ == pre.config.sidebar.bookmarks@.update(k, post.config.sidebar.bookmarks@[k])
                            &&& post.config.sidebar.bookmarks@[k].path == new_path
                            &&& post.config.sidebar.bookmarks@[k].name@ == last_segment(new_path@)
                            &&& post.config.sidebar.bookmarks@[k].slot == if '0' <= slot <= '9' { Some(((slot as u32) - ('0' as u32)) as u8) } else { None }
                            &&& post.status_message@ == "updated bookmark "@ + seq![slot]
                        },
                    }
                }
            },
            Some(DialogState::Message { .. }) => e == Effect::Nothing && post == (App { dialog: None, ..pre }),
        })
}

} // verus!
