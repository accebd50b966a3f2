//! Creating, renaming, copying, moving and trashing files, and the dialogs
//! that confirm it.
use vstd::prelude::*;

use crate::app_search::{pop_char, popped};
use crate::app_state::{App, ClipboardItem, DialogState, Effect, InputMode, PasteStep, SearchMode};
use crate::app_session::{find_slot, slot_index};
use crate::keys::{KeyCode, KeyPress};
use crate::layout::{AppConfig, Bookmark};
use crate::paths::{last_segment, path_file_name, path_joined, path_parent};
use crate::text::{concat, decimal, push_char, trimmed, with_char, with_number};

verus! {

/// The path a typed name stands for: the name in the current directory.
pub open spec fn input_target(a: App) -> Seq<char> {
    path_joined(a.current_dir@, trimmed(a.input_buffer@))
}

/// Where a paste puts a source: its file name in `dir`, or the file name
/// with `_copy` added where that names the same path as the source (paths
/// compared as std compares them, see `same_path`); nowhere when the
/// source has no file name.
pub open spec fn paste_destination(source: Seq<char>, dir: Seq<char>) -> Option<Seq<char>> {
    match path_file_name(source) {
        None => None,
        Some(name) => {
            let d = path_joined(dir, name);
            if crate::paths::same_path_spec(d, source) { Some(path_joined(dir, name + "_copy"@)) } else { Some(d) }
        },
    }
}

/// Putting the operation paths on the clipboard, cut or copied: with
/// nothing to act on the clipboard stays and "nothing selected" is shown;
/// else the clipboard holds the paths, and the verb and their number are
/// shown.
pub open spec fn clipboard_set(old: App, new: App, cut: bool, verb: Seq<char>) -> bool {
    let set = if old.selection_mode { old.mode_selected_paths } else { old.simple_selected_paths };
    &&& new == (App { status_message: new.status_message, clipboard: new.clipboard, ..old })
    &&& if set@.len() == 0 && old.selected_entry_spec() is None {
        &&& new.clipboard == old.clipboard
        &&& new.status_message@ == "nothing selected"@
    } else {
        &&& new.clipboard matches Some(c) && c.cut == cut
            && (if set@.len() > 0 { c.paths@ == set@ } else { c.paths@ == seq![old.selected_entry_spec()->0.path] })
        &&& new.status_message@ == verb + decimal(new.clipboard->0.paths@.len() as nat) + " item(s)"@
    }
}

/// The dialog that reports a refused permission on `target`.
fn permission_dialog(target: &str) -> (r: DialogState)
    ensures
        r matches DialogState::Message { title, text } && title@ == "PERMISSION ERROR"@ && text@ == "Permission denied:\n"@ + target@,
{
    DialogState::Message {
        title: "PERMISSION ERROR".to_owned(),
        text: concat("Permission denied:\n", target),
    }
}

impl App {
    /// Starts typing the name of a new file.
    pub fn start_new_file(&mut self)
        ensures
            after_start_new_file(*old(self), *final(self)),
    {
        self.input_mode = InputMode::NewFile;
        self.input_buffer = String::new();
        self.rename_target = None;
    }

    /// Starts typing the name of a new directory.
    pub fn start_new_dir(&mut self)
        ensures
            after_start_new_dir(*old(self), *final(self)),
    {
        self.input_mode = InputMode::NewDir;
        self.input_buffer = String::new();
        self.rename_target = None;
    }

    /// Starts renaming the entry under the cursor, its name typed in
    /// already. Nothing happens without an entry.
    pub fn start_rename(&mut self)
        ensures
            after_start_rename(*old(self), *final(self)),
    {
        let path = match self.selected_entry_path() {
            Some(p) => p,
            None => return,
        };
        let name = match crate::paths::file_name(path.as_str()) {
            Some(n) => n,
            None => String::new(),
        };
        self.input_mode = InputMode::Rename;
        self.input_buffer = name;
        self.rename_target = Some(path);
    }

    fn end_input(&mut self)
        ensures
            *final(self) == (App { input_mode: InputMode::Idle, input_buffer: final(self).input_buffer, rename_target: None, ..*old(self) }),
            final(self).input_buffer@.len() == 0,
    {
        self.input_mode = InputMode::Idle;
        self.input_buffer = String::new();
        self.rename_target = None;
    }

    /// Enter while typing a name: an empty name (once trimmed) is refused;
    /// else the file or directory is to be created, or the rename done, at
    /// the name in the current directory (a rename keeps the entry's own
    /// directory). Without a rename source the rename fails at once.
    pub fn commit_input_mode(&mut self) -> (e: Effect)
        requires
            old(self).wf(),
        ensures
            final(self).wf(),
            after_commit_input_mode(*old(self), *final(self), e),
    {
        let name = crate::text::trim(self.input_buffer.as_str());
        if name.as_str().is_empty() {
            self.status_message = "name cannot be empty".to_owned();
            self.input_mode = InputMode::Idle;
            self.input_buffer = String::new();
            return Effect::Nothing;
        }
        let target = crate::paths::join(self.current_dir.as_str(), name.as_str());
        match self.input_mode {
            InputMode::NewFile => Effect::CreateFile(target),
            InputMode::NewDir => Effect::CreateDir(target),
            InputMode::Rename => match &self.rename_target {
                Some(src) => {
                    let dest = match crate::paths::parent(src.as_str()) {
                        Some(p) => crate::paths::join(p.as_str(), name.as_str()),
                        None => target,
                    };
                    Effect::RenamePath(src.clone(), dest)
                },
                None => {
                    proof {
                        reveal_strlit("create failed: ");
                        reveal_strlit("missing rename source");
                        reveal_strlit("create failed: missing rename source");
                    }
                    let e = self.finish_input(Err((false, "missing rename source".to_owned())));
                    assert(self.status_message@ =~= "create failed: missing rename source"@);
                    e
                },
            },
            InputMode::Idle => self.finish_input(Ok(())),
        }
    }

    /// Takes in how creating or renaming went: reported, with a dialog where
    /// permission was denied; the typing ends and the column is read again.
    /// The error is its permission flag and text.
    pub fn finish_input(&mut self, outcome: Result<(), (bool, String)>) -> (e: Effect)
        requires
            old(self).wf(),
        ensures
            final(self).wf(),
            e == Effect::RefreshActive,
            final(self).input_mode == InputMode::Idle,
            final(self).input_buffer@.len() == 0,
            final(self).rename_target is None,
            match outcome {
                Ok(_) => {
                    &&& final(self).status_message@ == "created "@ + input_target(*old(self))
                    &&& *final(self) == (App {
                        status_message: final(self).status_message,
                        input_mode: InputMode::Idle,
                        input_buffer: final(self).input_buffer,
                        rename_target: None,
                        ..*old(self)
                    })
                },
                Err((denied, msg)) => {
                    &&& final(self).status_message@ == "create failed: "@ + msg@
                    &&& *final(self) == (App {
                        status_message: final(self).status_message,
                        input_mode: InputMode::Idle,
                        input_buffer: final(self).input_buffer,
                        rename_target: None,
                        dialog: final(self).dialog,
                        ..*old(self)
                    })
                    &&& denied ==> (final(self).dialog matches Some(DialogState::Message { title, text })
                        && title@ == "PERMISSION ERROR"@ && text@ == "Permission denied:\n"@ + input_target(*old(self)))
                    &&& !denied ==> final(self).dialog == old(self).dialog
                },
            },
    {
        let name = crate::text::trim(self.input_buffer.as_str());
        let target = crate::paths::join(self.current_dir.as_str(), name.as_str());
        match outcome {
            Ok(_) => self.note_created(target.as_str()),
            Err((denied, msg)) => self.note_failed(target.as_str(), denied, msg.as_str()),
        }
        self.end_input();
        Effect::RefreshActive
    }

    fn note_created(&mut self, target: &str)
        ensures
            final(self).status_message@ == "created "@ + target@,
            *final(self) == (App { status_message: final(self).status_message, ..*old(self) }),
    {
        self.status_message = concat("created ", target);
    }

    fn note_failed(&mut self, target: &str, denied: bool, msg: &str)
        ensures
            final(self).status_message@ == "create failed: "@ + msg@,
            *final(self) == (App { status_message: final(self).status_message, dialog: final(self).dialog, ..*old(self) }),
            denied ==> (final(self).dialog matches Some(DialogState::Message { title, text })
                && title@ == "PERMISSION ERROR"@ && text@ == "Permission denied:\n"@ + target@),
            !denied ==> final(self).dialog == old(self).dialog,
    {
        if denied {
            self.dialog = Some(permission_dialog(target));
        }
        self.status_message = concat("create failed: ", msg);
    }

    /// A key while typing a name: Esc gives up, Backspace deletes, Enter
    /// commits, and characters typed without Control are added.
    pub fn handle_input_mode(&mut self, key: KeyPress) -> (e: Effect)
        requires
            old(self).wf(),
        ensures
            final(self).wf(),
            after_handle_input_mode(*old(self), *final(self), e, key),
    {
        match key.code {
            KeyCode::Esc => {
                self.end_input();
                Effect::Nothing
            },
            KeyCode::Backspace => {
                pop_char(&mut self.input_buffer);
                Effect::Nothing
            },
            KeyCode::Enter => self.commit_input_mode(),
            KeyCode::Char(c) => {
                if !key.modifiers.control {
                    push_char(&mut self.input_buffer, c);
                }
                Effect::Nothing
            },
            _ => Effect::Nothing,
        }
    }

    /// Asks to confirm moving the operation paths to the trash, Yes chosen;
    /// with nothing to act on, says so.
    pub fn request_delete_to_trash(&mut self)
        requires
            old(self).wf(),
        ensures
            final(self).wf(),
            after_request_delete_to_trash(*old(self), *final(self)),
    {
        let paths = self.operation_paths();
        if paths.len() == 0 {
            self.status_message = "nothing selected".to_owned();
            return;
        }
        self.dialog = Some(DialogState::ConfirmDelete { paths, yes_selected: true });
    }

    /// Takes in how many paths went to the trash and how many did not: both
    /// selections are cleared, the outcome reported, and the column read
    /// again.
    pub fn finish_trash(&mut self, ok: u64, failed: u64) -> (e: Effect)
        requires
            old(self).wf(),
        ensures
            final(self).wf(),
            e == Effect::RefreshActive,
            final(self).status_message@ == if failed == 0 {
                "trashed "@ + decimal(ok as nat) + " item(s)"@
            } else {
                "trash: "@ + decimal(ok as nat) + " ok, "@ + decimal(failed as nat) + " failed"@
            },
            !final(self).selection_mode,
            final(self).mode_selected_paths@.len() == 0,
            final(self).simple_selected_paths@.len() == 0,
            final(self).columns == old(self).columns,
            final(self).current_dir == old(self).current_dir,
    {
        self.clear_all_selection();
        self.status_message = if failed == 0 {
            with_number("trashed ", ok, " item(s)")
        } else {
            let a = with_number("trash: ", ok, " ok, ");
            let b = with_number("", failed, " failed");
            proof {
                reveal_strlit("");
            }
            assert(b@ =~= decimal(failed as nat) + " failed"@);
            let r = concat(a.as_str(), b.as_str());
            assert(r@ =~= "trash: "@ + decimal(ok as nat) + " ok, "@ + decimal(failed as nat) + " failed"@);
            r
        };
        Effect::RefreshActive
    }

    /// Copies the operation paths to the clipboard; with nothing to act on,
    /// says so (see `clipboard_set`).
    pub fn copy_selected(&mut self)
        requires
            old(self).wf(),
        ensures
            final(self).wf(),
            after_copy_selected(*old(self), *final(self)),
    {
        self.set_clipboard(false, "copied ");
    }

    /// Cuts the operation paths to the clipboard; with nothing to act on,
    /// says so (see `clipboard_set`).
    pub fn cut_selected(&mut self)
        requires
            old(self).wf(),
        ensures
            final(self).wf(),
            after_cut_selected(*old(self), *final(self)),
    {
        self.set_clipboard(true, "cut ");
    }

    fn set_clipboard(&mut self, cut: bool, verb: &str)
        requires
            old(self).wf(),
        ensures
            final(self).wf(),
            clipboard_set(*old(self), *final(self), cut, verb@),
    {
        let paths = self.operation_paths();
        if paths.len() == 0 {
            self.status_message = "nothing selected".to_owned();
            return;
        }
        let n = paths.len() as u64;
        self.clipboard = Some(ClipboardItem { paths, cut });
        self.status_message = with_number(verb, n, " item(s)");
    }

    /// Plans a paste of the clipboard into the current directory (see
    /// `paste_destination`); an empty clipboard is reported.
    pub fn paste_clipboard(&mut self) -> (e: Effect)
        requires
            old(self).wf(),
        ensures
            final(self).wf(),
            after_paste_clipboard(*old(self), *final(self), e),
    {
        let item = match &self.clipboard {
            Some(c) => c,
            None => {
                self.status_message = "clipboard empty".to_owned();
                return Effect::Nothing;
            },
        };
        let mut steps: Vec<PasteStep> = Vec::new();
        let mut i: usize = 0;
        while i < item.paths.len()
            invariant
                i <= item.paths@.len(),
                steps@.len() == i,
                forall|k: int| 0 <= k < i ==> {
                    &&& (#[trigger] steps@[k]).source == item.paths@[k]
                    &&& match steps@[k].destination {
                        Some(d) => paste_destination(item.paths@[k]@, self.current_dir@) == Some(d@),
                        None => paste_destination(item.paths@[k]@, self.current_dir@) is None,
                    }
                },
            decreases item.paths@.len() - i,
        {
            let source = &item.paths[i];
            let destination = match crate::paths::file_name(source.as_str()) {
                None => None,
                Some(name) => {
                    let d = crate::paths::join(self.current_dir.as_str(), name.as_str());
                    if crate::paths::same_path(d.as_str(), source.as_str()) {
                        let copy_name = concat(name.as_str(), "_copy");
                        Some(crate::paths::join(self.current_dir.as_str(), copy_name.as_str()))
                    } else {
                        Some(d)
                    }
                },
            };
            steps.push(PasteStep { source: source.clone(), destination });
            i += 1;
        }
        Effect::Paste(steps, item.cut)
    }

    /// Takes in how many pasted items went through and how many failed: a
    /// cut that fully succeeded empties the clipboard and clears both
    /// selections; the outcome is reported and the column read again.
    pub fn finish_paste(&mut self, ok: u64, failed: u64) -> (e: Effect)
        requires
            old(self).wf(),
        ensures
            final(self).wf(),
            e == Effect::RefreshActive,
            ({
                let cut = old(self).clipboard matches Some(c) && c.cut;
                &&& final(self).status_message@ == if failed == 0 {
                    if cut { "moved "@ + decimal(ok as nat) + " item(s)"@ } else { "copied "@ + decimal(ok as nat) + " item(s)"@ }
                } else {
                    "paste: "@ + decimal(ok as nat) + " ok, "@ + decimal(failed as nat) + " failed"@
                }
                &&& (cut && failed == 0) ==> final(self).clipboard is None && !final(self).selection_mode
                    && final(self).mode_selected_paths@.len() == 0 && final(self).simple_selected_paths@.len() == 0
                &&& !(cut && failed == 0) ==> *final(self) == (App { status_message: final(self).status_message, ..*old(self) })
            }),
            final(self).columns == old(self).columns,
            final(self).current_dir == old(self).current_dir,
    {
        let cut = match &self.clipboard {
            Some(c) => c.cut,
            None => false,
        };
        if cut && failed == 0 {
            self.clipboard = None;
            self.clear_all_selection();
        }
        self.status_message = if failed == 0 {
            if cut { with_number("moved ", ok, " item(s)") } else { with_number("copied ", ok, " item(s)") }
        } else {
            let a = with_number("paste: ", ok, " ok, ");
            let b = with_number("", failed, " failed");
            proof {
                reveal_strlit("");
            }
            assert(b@ =~= decimal(failed as nat) + " failed"@);
            let r = concat(a.as_str(), b.as_str());
            assert(r@ =~= "paste: "@ + decimal(ok as nat) + " ok, "@ + decimal(failed as nat) + " failed"@);
            r
        };
        Effect::RefreshActive
    }
}

/// What `start_new_dir` does (see there).
pub open spec fn after_start_new_dir(pre: App, post: App) -> bool {
    &&& (post == (App { input_mode: InputMode::NewDir, input_buffer: post.input_buffer, rename_target: None, ..pre }))
    &&& (post.input_buffer@.len() == 0)
}

/// What `start_new_file` does (see there).
pub open spec fn after_start_new_file(pre: App, post: App) -> bool {
    &&& (post == (App { input_mode: InputMode::NewFile, input_buffer: post.input_buffer, rename_target: None, ..pre }))
    &&& (post.input_buffer@.len() == 0)
}

/// What `start_rename` does (see there).
pub open spec fn after_start_rename(pre: App, post: App) -> bool {
    &&& (pre.selected_entry_spec() is None ==> post == pre)
    &&& (pre.selected_entry_spec() matches Some(e) ==> {
            &&& post == (App {
                input_mode: InputMode::Rename,
                input_buffer: post.input_buffer,
                rename_target: Some(e.path),
                ..pre
            })
            &&& post.input_buffer@ == match path_file_name(e.path@) { Some(n) => n, None => Seq::empty() }
        })
}

/// What `copy_selected` does (see there).
pub open spec fn after_copy_selected(pre: App, post: App) -> bool {
    &&& (clipboard_set(pre, post, false, "copied "@))
}

/// What `cut_selected` does (see there).
pub open spec fn after_cut_selected(pre: App, post: App) -> bool {
    &&& (clipboard_set(pre, post, true, "cut "@))
}

/// What `paste_clipboard` does (see there).
pub open spec fn after_paste_clipboard(pre: App, post: App, e: Effect) -> bool {
    &&& (pre.clipboard is None ==> e == Effect::Nothing
            && post == (App { status_message: post.status_message, ..pre })
            && post.status_message@ == "clipboard empty"@)
    &&& (pre.clipboard matches Some(c) ==> post == pre && (e matches Effect::Paste(steps, cut)
            && cut == c.cut
            && steps@.len() == c.paths@.len()
            && forall|k: int| 0 <= k < steps@.len() ==> {
                &&& (#[trigger] steps@[k]).source == c.paths@[k]
                &&& match steps@[k].destination {
                    Some(d) => paste_destination(c.paths@[k]@, pre.current_dir@) == Some(d@),
                    None => paste_destination(c.paths@[k]@, pre.current_dir@) is None,
                }
            }))
}

/// What `request_delete_to_trash` does (see there).
pub open spec fn after_request_delete_to_trash(pre: App, post: App) -> bool {
    &&& (({
            let set = if pre.selection_mode { pre.mode_selected_paths } else { pre.simple_selected_paths };
            if set@.len() == 0 && pre.selected_entry_spec() is None {
                &&& post == (App { status_message: post.status_message, ..pre })
                &&& post.status_message@ == "nothing selected"@
            } else {
                &&& post == (App { dialog: post.dialog, ..pre })
                &&& post.dialog matches Some(DialogState::ConfirmDelete { paths, yes_selected })
                    && yes_selected && (if set@.len() > 0 { paths@ == set@ } else { paths@ == seq![pre.selected_entry_spec()->0.path] })
            }
        }))
}

/// What `handle_input_mode` does (see there).
pub open spec fn after_handle_input_mode(pre: App, post: App, e: Effect, key: KeyPress) -> bool {
    &&& (key.code == KeyCode::Esc ==> e == Effect::Nothing && post == (App {
            input_mode: InputMode::Idle,
            input_buffer: post.input_buffer,
            rename_target: None,
            ..pre
        }) && post.input_buffer@.len() == 0)
    &&& (key.code == KeyCode::Backspace ==> e == Effect::Nothing && post == (App { input_buffer: post.input_buffer, ..pre })
            && post.input_buffer@ == popped(pre.input_buffer@))
    &&& ((key.code matches KeyCode::Char(c) && !key.modifiers.control) ==> e == Effect::Nothing
            && post == (App { input_buffer: post.input_buffer, ..pre })
            && post.input_buffer@ == pre.input_buffer@.push(key.code->Char_0))
    &&& (key.code == KeyCode::Enter ==> after_commit_input_mode(pre, post, e))
    &&& ((key.code != KeyCode::Esc && key.code != KeyCode::Backspace && key.code != KeyCode::Enter
            && !(key.code matches KeyCode::Char(c) && !key.modifiers.control)) ==> e == Effect::Nothing && post == pre)
}

/// What `commit_input_mode` does (see there).
pub open spec fn after_commit_input_mode(pre: App, post: App, e: Effect) -> bool {
    &&& (trimmed(pre.input_buffer@).len() == 0 ==> {
            &&& e == Effect::Nothing
            &&& post == (App { status_message: post.status_message, input_mode: InputMode::Idle, input_buffer: post.input_buffer, ..pre })
            &&& post.status_message@ == "name cannot be empty"@
            &&& post.input_buffer@.len() == 0
        })
    &&& (trimmed(pre.input_buffer@).len() > 0 ==> match pre.input_mode {
            InputMode::NewFile => post == pre && (e matches Effect::CreateFile(t) && t@ == input_target(pre)),
            InputMode::NewDir => post == pre && (e matches Effect::CreateDir(t) && t@ == input_target(pre)),
            InputMode::Rename => match pre.rename_target {
                Some(src) => post == pre && (e matches Effect::RenamePath(a, b) && a == src
                    && b@ == match path_parent(src@) {
                        Some(p) => path_joined(p, trimmed(pre.input_buffer@)),
                        None => input_target(pre),
                    }),
                None => e == Effect::RefreshActive && post.input_mode == InputMode::Idle
                    && post.status_message@ == "create failed: missing rename source"@,
            },
            InputMode::Idle => e == Effect::RefreshActive && post.input_mode == InputMode::Idle
                && post.status_message@ == "created "@ + input_target(pre),
        })
}

} // verus!
