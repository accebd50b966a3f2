//! What the panels show: their texts and which colours they take. Drawing
//! them is left to the terminal front end.
use vstd::prelude::*;

use crate::app_state::{App, DialogState, InputMode, SearchMode};
use crate::keymap::{slash_joined, texts};
use crate::overlay::{OverlayDialog, OverlayDialogKind};
use crate::paths::{home_relative, last_segment, path_file_name, path_parent};
use crate::text::{concat, decimal, with_number};

verus! {

/// A colour: the colour of the mode in force, the colour of sudo mode
/// (which the theme does not name), a colour of the theme by its name, or
/// none of its own.
#[derive(Debug)]
pub enum Paint {
    Mode,
    Sudo,
    Named(String),
    /// The colour of what surrounds it.
    Plain,
}

/// The three parts of the top bar, each where its panel is shown: the
/// title (a bold and a plain part), the search or input line, and who is
/// logged in where.
#[derive(Debug)]
pub struct TopBarView {
    pub fg: Paint,
    pub title: Option<(String, String)>,
    pub search: Option<(String, Paint)>,
    pub host: Option<String>,
}

/// How a key name is shown in the key bar: the arrow keys as arrows.
pub open spec fn key_glyph(name: Seq<char>) -> Seq<char> {
    if name == "Up"@ {
        "\u{2191}"@
    } else if name == "Down"@ {
        "\u{2193}"@
    } else if name == "Left"@ {
        "\u{2190}"@
    } else if name == "Right"@ {
        "\u{2192}"@
    } else {
        name
    }
}

/// The first key bound to an action, as the key bar shows it; nothing
/// where none is bound.
pub open spec fn first_glyph(keys: Seq<String>) -> Seq<char> {
    if keys.len() == 0 { Seq::empty() } else { key_glyph(keys[0]@) }
}

/// The keys of the navigation hint: the first key of up, down, parent and
/// open, one after the other (`\u{2191}\u{2193}\u{2190}\u{2192}` with the built-in keys).
pub open spec fn navigation_glyphs(k: crate::keymap::KeymapConfig) -> Seq<char> {
    first_glyph(k.navigation.up@) + first_glyph(k.navigation.down@) + first_glyph(k.navigation.parent@)
        + first_glyph(k.navigation.open@)
}

fn first_key_glyph(keys: &Vec<String>) -> (r: String)
    ensures
        r@ == first_glyph(keys@),
{
    if keys.len() == 0 {
        return String::new();
    }
    let name = keys[0].as_str();
    if crate::text::str_eq(name, "Up") {
        "\u{2191}".to_owned()
    } else if crate::text::str_eq(name, "Down") {
        "\u{2193}".to_owned()
    } else if crate::text::str_eq(name, "Left") {
        "\u{2190}".to_owned()
    } else if crate::text::str_eq(name, "Right") {
        "\u{2192}".to_owned()
    } else {
        keys[0].clone()
    }
}

impl App {
    /// The name of the active profile, or `default` without one.
    pub open spec fn profile_name_spec(self) -> Seq<char> {
        if self.active_profile < self.config.profiles@.len() {
            self.config.profiles@[self.active_profile as int].name@
        } else {
            "default"@
        }
    }

    pub fn profile_name(&self) -> (r: String)
        ensures
            r@ == self.profile_name_spec(),
    {
        if self.active_profile < self.config.profiles.len() {
            self.config.profiles[self.active_profile].name.clone()
        } else {
            "default".to_owned()
        }
    }

    /// The text of the search bar: the password prompt (one `*` per byte
    /// typed), else the search, else a hint; while a name is typed, that
    /// name with what it is for.
    pub open spec fn search_label_spec(self) -> Seq<char> {
        if self.input_mode == InputMode::NewFile {
            "new file: "@ + self.input_buffer@
        } else if self.input_mode == InputMode::NewDir {
            "new dir: "@ + self.input_buffer@
        } else if self.input_mode == InputMode::Rename {
            "rename: "@ + self.input_buffer@
        } else if self.sudo_password_prompt {
            "[sudo] password: "@ + Seq::new((vstd::utf8::encode_utf8(self.sudo_password_input@).len() as usize) as nat, |i: int| '*')
        } else if self.search_mode == SearchMode::Local {
            "/ "@ + self.search_query@
        } else if self.search_mode == SearchMode::Global {
            "Ctrl+F "@ + self.search_query@
        } else {
            "/ to search"@
        }
    }

    pub fn search_label(&self) -> (r: String)
        ensures
            r@ == self.search_label_spec(),
    {
        match self.input_mode {
            InputMode::NewFile => concat("new file: ", self.input_buffer.as_str()),
            InputMode::NewDir => concat("new dir: ", self.input_buffer.as_str()),
            InputMode::Rename => concat("rename: ", self.input_buffer.as_str()),
            InputMode::Idle => {
                if self.sudo_password_prompt {
                    let n = self.sudo_password_input.as_str().len();
                    let mut stars = String::new();
                    let mut i: usize = 0;
                    while i < n
                        invariant
                            i <= n,
                            stars@ == Seq::new(i as nat, |k: int| '*'),
                        decreases n - i,
                    {
                        crate::text::push_char(&mut stars, '*');
                        i += 1;
                        assert(stars@ =~= Seq::new(i as nat, |k: int| '*'));
                    }
                    concat("[sudo] password: ", stars.as_str())
                } else {
                    match self.search_mode {
                        SearchMode::Local => concat("/ ", self.search_query.as_str()),
                        SearchMode::Global => concat("Ctrl+F ", self.search_query.as_str()),
                        SearchMode::Idle => "/ to search".to_owned(),
                    }
                }
            },
        }
    }

    /// The top bar: in the mode colour while a mode is in force, else the
    /// primary text colour. The title names the mode (search, bookmark or
    /// selection) or the active profile; the search part shows
    /// `search_label`; the last part shows the user (or `SUDO`) at the
    /// device.
    pub fn top_bar_view(&self) -> (r: TopBarView)
        ensures
            r.fg == if self.mode_active() { Paint::Mode } else { Paint::Named(self.effective.theme_colors.vars.primary_fg) },
            match r.title {
                None => !self.runtime_plan.panels.sidebar,
                Some((l, rr)) => self.runtime_plan.panels.sidebar && if self.search_mode != SearchMode::Idle {
                    l@ == "DIRT::"@ && rr@ == "search"@
                } else if self.awaiting_bookmark_slot {
                    l@ == "DIRT::"@ && rr@ == "bookmark"@
                } else if self.selection_mode {
                    l@ == "DIRT::"@ && rr@ == "selection"@
                } else {
                    l@ == "DIRT // "@ && rr@ == self.profile_name_spec()
                },
            },
            match r.search {
                None => !self.runtime_plan.panels.columns,
                Some((t, p)) => self.runtime_plan.panels.columns && t@ == self.search_label_spec()
                    && p == if self.search_mode != SearchMode::Idle {
                        Paint::Mode
                    } else if self.selection_mode {
                        Paint::Named(self.effective.theme_colors.vars.secondary_fg)
                    } else if self.mode_active() {
                        Paint::Mode
                    } else {
                        Paint::Named(self.effective.theme_colors.vars.primary_fg)
                    },
            },
            match r.host {
                None => !self.runtime_plan.panels.preview,
                Some(h) => self.runtime_plan.panels.preview && h@ == if self.sudo_mode {
                    "SUDO @ "@ + self.device_name@
                } else {
                    self.user_name@ + " @ "@ + self.device_name@
                },
            },
    {
        let mode_active = self.sudo_mode || self.awaiting_bookmark_slot || self.selection_mode || self.search_mode != SearchMode::Idle;
        let fg = if mode_active { Paint::Mode } else { Paint::Named(self.effective.theme_colors.vars.primary_fg.clone()) };
        let title = if self.runtime_plan.panels.sidebar {
            Some(if self.search_mode != SearchMode::Idle {
                ("DIRT::".to_owned(), "search".to_owned())
            } else if self.awaiting_bookmark_slot {
                ("DIRT::".to_owned(), "bookmark".to_owned())
            } else if self.selection_mode {
                ("DIRT::".to_owned(), "selection".to_owned())
            } else {
                ("DIRT // ".to_owned(), self.profile_name())
            })
        } else {
            None
        };
        let search = if self.runtime_plan.panels.columns {
            let p = if self.search_mode != SearchMode::Idle {
                Paint::Mode
            } else if self.selection_mode {
                Paint::Named(self.effective.theme_colors.vars.secondary_fg.clone())
            } else if mode_active {
                Paint::Mode
            } else {
                Paint::Named(self.effective.theme_colors.vars.primary_fg.clone())
            };
            Some((self.search_label(), p))
        } else {
            None
        };
        let host = if self.runtime_plan.panels.preview {
            Some(if self.sudo_mode {
                concat("SUDO @ ", self.device_name.as_str())
            } else {
                let a = concat(self.user_name.as_str(), " @ ");
                concat(a.as_str(), self.device_name.as_str())
            })
        } else {
            None
        };
        TopBarView { fg, title, search, host }
    }

    /// The dialog on screen: the key bindings frame goes first (no dialog);
    /// then the sudo password prompt, the name being typed, or the open
    /// dialog: a delete names its item or counts them, an overwrite shows
    /// both directories, a message shows itself.
    pub fn dialog_view(&self) -> (r: Option<OverlayDialog>)
        ensures
            self.keybinds_overlay is Some ==> r is None,
            (self.keybinds_overlay is None && self.sudo_password_prompt) ==> (r matches Some(d)
                && d.title@ == "SUDO PASSWORD"@ && d.message@ == "[sudo] password:"@
                && (d.kind matches OverlayDialogKind::Input { password, placeholder } && password && placeholder is None)
                && d.input == self.sudo_password_input && d.selected_is_primary),
            (self.keybinds_overlay is None && !self.sudo_password_prompt && self.input_mode != InputMode::Idle) ==> (r matches Some(d)
                && d.title@ == if self.input_mode == InputMode::NewFile { "NEW FILE"@ } else if self.input_mode == InputMode::NewDir { "NEW FOLDER"@ } else { "RENAME"@ }
                && d.message@.len() == 0
                && (d.kind matches OverlayDialogKind::Input { password, placeholder } && !password && placeholder is None)
                && d.input == self.input_buffer && d.selected_is_primary),
            (self.keybinds_overlay is None && !self.sudo_password_prompt && self.input_mode == InputMode::Idle) ==> match self.dialog {
                None => r is None,
                Some(DialogState::ConfirmDelete { paths, yes_selected }) => r matches Some(d)
                    && d.title@ == "CONFIRM"@ && (d.kind matches OverlayDialogKind::Confirm) && d.selected_is_primary == yes_selected
                    && d.input@.len() == 0
                    && d.message@ == if paths@.len() == 1 {
                        "Delete "@ + match path_file_name(paths@[0]@) { Some(n) => n, None => "item"@ } + "?"@
                    } else {
                        "Delete "@ + decimal(paths@.len() as nat) + " items?"@
                    },
                Some(DialogState::ConfirmBookmarkOverwrite { slot, existing_path, new_path, yes_selected }) => r matches Some(d)
                    && d.title@ == "CONFIRM"@ && (d.kind matches OverlayDialogKind::Confirm) && d.selected_is_primary == yes_selected
                    && d.input@.len() == 0
                    && d.message@ == "Overwrite bookmark "@ + seq![slot] + "?\nold: "@ + existing_path@ + "\nnew: "@ + new_path@,
                Some(DialogState::Message { title, text }) => r matches Some(d)
                    && d.title == title && d.message == text && (d.kind matches OverlayDialogKind::Message)
                    && d.input@.len() == 0 && d.selected_is_primary,
            },
    {
        if self.keybinds_overlay.is_some() {
            return None;
        }
        if self.sudo_password_prompt {
            return Some(OverlayDialog {
                title: "SUDO PASSWORD".to_owned(),
                message: "[sudo] password:".to_owned(),
                kind: OverlayDialogKind::Input { password: true, placeholder: None },
                input: self.sudo_password_input.clone(),
                selected_is_primary: true,
            });
        }
        if self.input_mode != InputMode::Idle {
            let title = match self.input_mode {
                InputMode::NewFile => "NEW FILE",
                InputMode::NewDir => "NEW FOLDER",
                _ => "RENAME",
            };
            return Some(OverlayDialog {
                title: title.to_owned(),
                message: String::new(),
                kind: OverlayDialogKind::Input { password: false, placeholder: None },
                input: self.input_buffer.clone(),
                selected_is_primary: true,
            });
        }
        match &self.dialog {
            None => None,
            Some(DialogState::ConfirmDelete { paths, yes_selected }) => {
                let msg = if paths.len() == 1 {
                    let name = match crate::paths::file_name(paths[0].as_str()) {
                        Some(n) => n,
                        None => "item".to_owned(),
                    };
                    let a = concat("Delete ", name.as_str());
                    concat(a.as_str(), "?")
                } else {
                    with_number("Delete ", paths.len() as u64, " items?")
                };
                Some(OverlayDialog {
                    title: "CONFIRM".to_owned(),
                    message: msg,
                    kind: OverlayDialogKind::Confirm,
                    input: String::new(),
                    selected_is_primary: *yes_selected,
                })
            },
            Some(DialogState::ConfirmBookmarkOverwrite { slot, existing_path, new_path, yes_selected }) => {
                let a = crate::text::with_char("Overwrite bookmark ", *slot, "?\nold: ");
                let b = concat(a.as_str(), existing_path.as_str());
                let c = concat(b.as_str(), "\nnew: ");
                let msg = concat(c.as_str(), new_path.as_str());
                Some(OverlayDialog {
                    title: "CONFIRM".to_owned(),
                    message: msg,
                    kind: OverlayDialogKind::Confirm,
                    input: String::new(),
                    selected_is_primary: *yes_selected,
                })
            },
            Some(DialogState::Message { title, text }) => Some(OverlayDialog {
                title: title.clone(),
                message: text.clone(),
                kind: OverlayDialogKind::Message,
                input: String::new(),
                selected_is_primary: true,
            }),
        }
    }

    /// The key hints of the bottom bar as (keys, what they do): selection
    /// mode's own (the range hint names the range-up keys, then the
    /// range-down ones), else one navigation hint (the first key of up,
    /// down, parent and open, arrows drawn as arrows), the selection mode
    /// key and the quit key.
    pub fn keymap_bar_items(&self) -> (r: Vec<(String, String)>)
        ensures
            ({
                let k = self.keymap;
                let items = if self.selection_mode {
                    seq![
                        (k.selection.toggle@, " select/deselect"@),
                        (slash_joined(texts(k.selection.range_up@) + texts(k.selection.range_down@)), " range"@),
                        (k.selection.exit@, " exit"@),
                        (k.file_ops.copy@, " copy"@),
                        (k.file_ops.cut@, " cut"@),
                        (k.file_ops.paste@, " paste"@),
                        (k.file_ops.trash@, " trash"@),
                    ]
                } else {
                    seq![
                        (navigation_glyphs(k), " navigate"@),
                        (k.selection.mode@, " select mode"@),
                        (k.app.quit@, " quit"@),
                    ]
                };
                &&& r@.len() == items.len()
                &&& forall|i: int| 0 <= i < items.len() ==> (#[trigger] r@[i]).0@ == items[i].0 && r@[i].1@ == items[i].1
            }),
    {
        let k = &self.keymap;
        if self.selection_mode {
            let mut range_keys = k.selection.range_up.clone();
            let mut down = k.selection.range_down.clone();
            range_keys.append(&mut down);
            assert(texts(range_keys@) =~= texts(k.selection.range_up@) + texts(k.selection.range_down@));
            vec![
                (k.selection.toggle.clone(), " select/deselect".to_owned()),
                (crate::keymap::join_keys(&range_keys), " range".to_owned()),
                (k.selection.exit.clone(), " exit".to_owned()),
                (k.file_ops.copy.clone(), " copy".to_owned()),
                (k.file_ops.cut.clone(), " cut".to_owned()),
                (k.file_ops.paste.clone(), " paste".to_owned()),
                (k.file_ops.trash.clone(), " trash".to_owned()),
            ]
        } else {
            let up = first_key_glyph(&k.navigation.up);
            let down = first_key_glyph(&k.navigation.down);
            let parent = first_key_glyph(&k.navigation.parent);
            let open = first_key_glyph(&k.navigation.open);
            let a = concat(up.as_str(), down.as_str());
            let b = concat(a.as_str(), parent.as_str());
            let nav = concat(b.as_str(), open.as_str());
            vec![
                (nav, " navigate".to_owned()),
                (k.selection.mode.clone(), " select mode".to_owned()),
                (k.app.quit.clone(), " quit".to_owned()),
            ]
        }
    }

    /// The parts of the status bar, in order: the current directory, the
    /// file count, the selected name, the selection mode, the git state, the
    /// profile, and the status message (or `ready`).
    pub fn status_items(&self, git: &str) -> (r: Vec<String>)
        ensures
            r@.len() == 7,
            r@[0]@ == self.current_dir@,
            r@[1]@ == "files: "@ + decimal((if self.columns@.len() > 0 { self.columns@.last().entries@.len() } else { 0 }) as nat),
            r@[2]@ == "selected: "@ + self.selected_name_spec(),
            r@[3]@ == if self.selection_mode { "SELECTION MODE"@ } else { "select_mode: off"@ },
            r@[4]@ == "git: "@ + git@,
            r@[5]@ == "profile: "@ + self.profile_name_spec(),
            r@[6]@ == if self.status_message@.len() == 0 { "ready"@ } else { self.status_message@ },
    {
        let count = self.current_file_count();
        let name = self.selected_name();
        let mut out: Vec<String> = Vec::new();
        out.push(self.current_dir.clone());
        out.push(with_number("files: ", count as u64, ""));
        proof {
            reveal_strlit("");
        }
        assert(out@[1]@ =~= "files: "@ + decimal(count as nat));
        out.push(concat("selected: ", name.as_str()));
        out.push(if self.selection_mode { "SELECTION MODE".to_owned() } else { "select_mode: off".to_owned() });
        out.push(concat("git: ", git));
        let p = self.profile_name();
        out.push(concat("profile: ", p.as_str()));
        out.push(if self.status_message.as_str().is_empty() { "ready".to_owned() } else { self.status_message.clone() });
        out
    }

    /// The columns of paths to show left of the preview column, `max - 1`
    /// of them: the deepest columns, padded in front with blanks (`None`),
    /// as positions into `columns`; and the label of the frame: the
    /// parent of the first shown column (or that column itself without
    /// one), else the current directory, written from `~` under `home`.
    pub fn visible_path_columns_fixed(&self, max_columns: usize, home: Option<&str>) -> (r: (Vec<Option<usize>>, String))
        ensures
            ({
                let slots: int = if max_columns > 0 { max_columns - 1 } else { 0 };
                let depth: int = self.columns@.len() as int;
                let shown = if depth < slots { depth } else { slots };
                let start = depth - shown;
                let pad = slots - shown;
                &&& r.0@.len() == slots
                &&& forall|k: int| 0 <= k < pad ==> (#[trigger] r.0@[k]) is None
                &&& forall|k: int| pad <= k < slots ==> (#[trigger] r.0@[k]) == Some((start + k - pad) as usize)
                &&& r.1@ == if start < depth {
                    match path_parent(self.columns@[start].path@) {
                        Some(p) => home_relative(p, crate::paths::opt_str_view(home)),
                        None => home_relative(self.columns@[start].path@, crate::paths::opt_str_view(home)),
                    }
                } else {
                    home_relative(self.current_dir@, crate::paths::opt_str_view(home))
                }
            }),
    {
        let slots: usize = if max_columns > 0 { max_columns - 1 } else { 0 };
        let depth = self.columns.len();
        let shown = if depth < slots { depth } else { slots };
        let start = depth - shown;
        let pad = slots - shown;
        let mut cols: Vec<Option<usize>> = Vec::new();
        let mut i: usize = 0;
        while i < slots
            invariant
                i <= slots,
                pad <= slots,
                start + shown == depth,
                pad + shown == slots,
                cols@.len() == i,
                forall|k: int| 0 <= k < i && k < pad ==> (#[trigger] cols@[k]) is None,
                forall|k: int| pad <= k < i ==> (#[trigger] cols@[k]) == Some((start + k - pad) as usize),
            decreases slots - i,
        {
            if i < pad {
                cols.push(None);
            } else {
                cols.push(Some(start + (i - pad)));
            }
            i += 1;
        }
        let label = if start < depth {
            let first = &self.columns[start];
            match crate::paths::parent(first.path.as_str()) {
                Some(p) => crate::paths::display_home_relative_in(p.as_str(), home),
                None => crate::paths::display_home_relative_in(first.path.as_str(), home),
            }
        } else {
            crate::paths::display_home_relative_in(self.current_dir.as_str(), home)
        };
        (cols, label)
    }
}

/// The git part of the status bar: `-` outside a repository; else the
/// branch (`detached` without one), with `*` when there are changes.
pub open spec fn git_label_of(in_repo: bool, branch: Option<Seq<char>>, dirty: bool) -> Seq<char> {
    if !in_repo {
        "-"@
    } else {
        let b = match branch { Some(b) => b, None => "detached"@ };
        if dirty { b + "*"@ } else { b }
    }
}

pub fn git_label(in_repo: bool, branch: Option<String>, dirty: bool) -> (r: String)
    ensures
        r@ == git_label_of(in_repo, match branch { Some(b) => Some(b@), None => None }, dirty),
{
    if !in_repo {
        return "-".to_owned();
    }
    let b = match branch {
        Some(b) => b,
        None => "detached".to_owned(),
    };
    if dirty { concat(b.as_str(), "*") } else { b }
}

} // verus!
