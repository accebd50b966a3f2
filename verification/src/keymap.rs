//! The key bindings as the user names them, and the frame that lists them.
use vstd::prelude::*;

use crate::overlay::OverlayFrame;

verus! {

#[derive(Debug)]
pub struct KeymapNavigation {
    pub up: Vec<String>,
    pub down: Vec<String>,
    pub open: Vec<String>,
    pub parent: Vec<String>,
}

#[derive(Debug)]
pub struct KeymapSelection {
    pub range_up: Vec<String>,
    pub range_down: Vec<String>,
    pub mode: String,
    pub toggle: String,
    pub exit: String,
}

#[derive(Debug)]
pub struct KeymapSearch {
    pub local: String,
    pub global: String,
}

#[derive(Debug)]
pub struct KeymapFileOps {
    pub new_file: String,
    pub new_dir: String,
    pub copy: String,
    pub cut: String,
    pub paste: String,
    pub trash: String,
}

#[derive(Debug)]
pub struct KeymapApp {
    pub quit: String,
    pub next_profile: String,
    pub prev_profile: String,
}

/// The names of the keys bound to each action.
#[derive(Debug)]
pub struct KeymapConfig {
    pub navigation: KeymapNavigation,
    pub selection: KeymapSelection,
    pub search: KeymapSearch,
    pub file_ops: KeymapFileOps,
    pub app: KeymapApp,
}

pub open spec fn texts(v: Seq<String>) -> Seq<Seq<char>> {
    Seq::new(v.len(), |i: int| v[i]@)
}

/// The built-in key bindings, field by field.
pub open spec fn is_fallback_keymap(r: KeymapConfig) -> bool {
    &&& texts(r.navigation.up@) == seq!["Up"@, "k"@]
    &&& texts(r.navigation.down@) == seq!["Down"@, "j"@]
    &&& texts(r.navigation.open@) == seq!["Right"@, "l"@, "Enter"@]
    &&& texts(r.navigation.parent@) == seq!["Left"@, "h"@, "Backspace"@]
    &&& texts(r.selection.range_up@) == seq!["Shift+Up"@]
    &&& texts(r.selection.range_down@) == seq!["Shift+Down"@]
    &&& r.selection.mode@ == "Ctrl+S"@
    &&& r.selection.toggle@ == "Space"@
    &&& r.selection.exit@ == "Esc"@
    &&& r.search.local@ == "/"@
    &&& r.search.global@ == "Ctrl+F"@
    &&& r.file_ops.new_file@ == "Ctrl+N"@
    &&& r.file_ops.new_dir@ == "Ctrl+Shift+N"@
    &&& r.file_ops.copy@ == "Ctrl+C"@
    &&& r.file_ops.cut@ == "Ctrl+X"@
    &&& r.file_ops.paste@ == "Ctrl+V"@
    &&& r.file_ops.trash@ == "Ctrl+D"@
    &&& r.app.quit@ == "q"@
    &&& r.app.next_profile@ == "p"@
    &&& r.app.prev_profile@ == "P"@
}

/// The key bindings used when neither the user's key map nor the bundled
/// one can be read.
pub fn fallback_keymap() -> (r: KeymapConfig)
    ensures
        is_fallback_keymap(r),
{
    let r = KeymapConfig {
        navigation: KeymapNavigation {
            up: vec!["Up".to_owned(), "k".to_owned()],
            down: vec!["Down".to_owned(), "j".to_owned()],
            open: vec!["Right".to_owned(), "l".to_owned(), "Enter".to_owned()],
            parent: vec!["Left".to_owned(), "h".to_owned(), "Backspace".to_owned()],
        },
        selection: KeymapSelection {
            range_up: vec!["Shift+Up".to_owned()],
            range_down: vec!["Shift+Down".to_owned()],
            mode: "Ctrl+S".to_owned(),
            toggle: "Space".to_owned(),
            exit: "Esc".to_owned(),
        },
        search: KeymapSearch { local: "/".to_owned(), global: "Ctrl+F".to_owned() },
        file_ops: KeymapFileOps {
            new_file: "Ctrl+N".to_owned(),
            new_dir: "Ctrl+Shift+N".to_owned(),
            copy: "Ctrl+C".to_owned(),
            cut: "Ctrl+X".to_owned(),
            paste: "Ctrl+V".to_owned(),
            trash: "Ctrl+D".to_owned(),
        },
        app: KeymapApp { quit: "q".to_owned(), next_profile: "p".to_owned(), prev_profile: "P".to_owned() },
    };
    assert(texts(r.navigation.up@) =~= seq!["Up"@, "k"@]);
    assert(texts(r.navigation.down@) =~= seq!["Down"@, "j"@]);
    assert(texts(r.navigation.open@) =~= seq!["Right"@, "l"@, "Enter"@]);
    assert(texts(r.navigation.parent@) =~= seq!["Left"@, "h"@, "Backspace"@]);
    assert(texts(r.selection.range_up@) =~= seq!["Shift+Up"@]);
    assert(texts(r.selection.range_down@) =~= seq!["Shift+Down"@]);
    r
}

/// The key map in force: the user's where it could be read, else the
/// bundled one where it could be read, else the built-in fallback.
pub fn choose_keymap(user: Option<KeymapConfig>, bundled: Option<KeymapConfig>) -> (r: KeymapConfig)
    ensures
        match user {
            Some(u) => r == u,
            None => match bundled {
                Some(b) => r == b,
                None => is_fallback_keymap(r),
            },
        },
{
    match user {
        Some(u) => u,
        None => match bundled {
            Some(b) => b,
            None => fallback_keymap(),
        },
    }
}

/// Key names joined by `/`.
pub open spec fn slash_joined(v: Seq<Seq<char>>) -> Seq<char>
    decreases v.len(),
{
    if v.len() == 0 {
        Seq::empty()
    } else if v.len() == 1 {
        v[0]
    } else {
        slash_joined(v.drop_last()) + seq!['/'] + v.last()
    }
}

pub fn join_keys(v: &Vec<String>) -> (r: String)
    ensures
        r@ == slash_joined(texts(v@)),
{
    let mut out: Vec<char> = Vec::new();
    let mut i: usize = 0;
    while i < v.len()
        invariant
            i <= v@.len(),
            out@ == slash_joined(texts(v@).take(i as int)),
        decreases v@.len() - i,
    {
        let ghost prev = out@;
        if i > 0 {
            out.push('/');
        }
        let w = crate::text::chars_of(v[i].as_str());
        let mut k: usize = 0;
        while k < w.len()
            invariant
                k <= w@.len(),
                out@ == (if i > 0 { prev + seq!['/'] } else { prev }) + w@.take(k as int),
            decreases w@.len() - k,
        {
            out.push(w[k]);
            k += 1;
            assert(out@ =~= (if i > 0 { prev + seq!['/'] } else { prev }) + w@.take(k as int));
        }
        proof {
            let t = texts(v@).take(i + 1);
            assert(t.drop_last() =~= texts(v@).take(i as int));
            assert(w@.take(w@.len() as int) =~= w@);
            if i == 0 {
                assert(prev.len() == 0);
                assert(out@ =~= t[0]);
            } else {
                assert(out@ =~= slash_joined(t));
            }
        }
        i += 1;
    }
    assert(texts(v@).take(v@.len() as int) =~= texts(v@));
    crate::text::string_from_chars(out.as_slice())
}

/// The rows of the key bindings frame: a header row per group, then each
/// binding with what it does, groups parted by a blank row.
#[verifier::opaque]
pub open spec fn keybind_rows(k: KeymapConfig) -> Seq<(Seq<char>, Seq<char>, bool)> {
    seq![
        ("NAVIGATION"@, Seq::empty(), true),
        (slash_joined(texts(k.navigation.up@)), "Move up"@, false),
        (slash_joined(texts(k.navigation.down@)), "Move down"@, false),
        (slash_joined(texts(k.navigation.open@)), "Open"@, false),
        (slash_joined(texts(k.navigation.parent@)), "Parent"@, false),
        (Seq::empty(), Seq::empty(), false),
        ("SELECTION"@, Seq::empty(), true),
        (k.selection.mode@, "Toggle selection mode"@, false),
        (k.selection.toggle@, "Toggle selected"@, false),
        (slash_joined(texts(k.selection.range_up@)), "Range up"@, false),
        (slash_joined(texts(k.selection.range_down@)), "Range down"@, false),
        (k.selection.exit@, "Exit selection mode"@, false),
        (Seq::empty(), Seq::empty(), false),
        ("SEARCH"@, Seq::empty(), true),
        (k.search.local@, "Local search"@, false),
        (k.search.global@, "Global search"@, false),
        (Seq::empty(), Seq::empty(), false),
        ("MODES"@, Seq::empty(), true),
        (k.selection.mode@, "Toggle select mode"@, false),
        ("Ctrl+B"@, "Bookmark set mode"@, false),
        ("Ctrl+1..9"@, "Open bookmark slot"@, false),
        ("/sudo"@, "Toggle sudo mode"@, false),
        (k.search.local@, "Enter search mode"@, false),
        (k.search.global@, "Enter global search mode"@, false),
        ("Esc"@, "Exit active mode"@, false),
        (Seq::empty(), Seq::empty(), false),
        ("FILE OPS"@, Seq::empty(), true),
        (k.file_ops.new_file@, "New file"@, false),
        (k.file_ops.new_dir@, "New folder"@, false),
        (k.file_ops.copy@, "Copy"@, false),
        (k.file_ops.cut@, "Cut"@, false),
        (k.file_ops.paste@, "Paste"@, false),
        (k.file_ops.trash@, "Delete to trash"@, false),
        (Seq::empty(), Seq::empty(), false),
        ("APP"@, Seq::empty(), true),
        (k.app.quit@, "Quit"@, false),
        (k.app.next_profile@, "Next profile"@, false),
        (k.app.prev_profile@, "Previous profile"@, false),
    ]
}

pub open spec fn row_texts(v: Seq<(String, String, bool)>) -> Seq<(Seq<char>, Seq<char>, bool)> {
    Seq::new(v.len(), |i: int| (v[i].0@, v[i].1@, v[i].2))
}

fn row(out: &mut Vec<(String, String, bool)>, key: String, action: &str, header: bool)
    ensures
        row_texts(final(out)@) == row_texts(old(out)@).push((key@, action@, header)),
{
    let ghost prev = row_texts(out@);
    out.push((key, action.to_owned(), header));
    assert(row_texts(out@) =~= prev.push((key@, action@, header)));
}

/// The frame that lists the key bindings, scrolled to the top.
pub fn build_keybinds_overlay(k: &KeymapConfig) -> (r: OverlayFrame)
    ensures
        r.title@ == "KEYBINDS"@,
        row_texts(r.lines@) == keybind_rows(*k),
        r.scroll == 0,
{
    let mut lines: Vec<(String, String, bool)> = Vec::new();
    row(&mut lines, "NAVIGATION".to_owned(), "", true);
    row(&mut lines, join_keys(&k.navigation.up), "Move up", false);
    row(&mut lines, join_keys(&k.navigation.down), "Move down", false);
    row(&mut lines, join_keys(&k.navigation.open), "Open", false);
    row(&mut lines, join_keys(&k.navigation.parent), "Parent", false);
    row(&mut lines, String::new(), "", false);
    row(&mut lines, "SELECTION".to_owned(), "", true);
    row(&mut lines, k.selection.mode.clone(), "Toggle selection mode", false);
    row(&mut lines, k.selection.toggle.clone(), "Toggle selected", false);
    row(&mut lines, join_keys(&k.selection.range_up), "Range up", false);
    row(&mut lines, join_keys(&k.selection.range_down), "Range down", false);
    row(&mut lines, k.selection.exit.clone(), "Exit selection mode", false);
    row(&mut lines, String::new(), "", false);
    row(&mut lines, "SEARCH".to_owned(), "", true);
    row(&mut lines, k.search.local.clone(), "Local search", false);
    row(&mut lines, k.search.global.clone(), "Global search", false);
    row(&mut lines, String::new(), "", false);
    row(&mut lines, "MODES".to_owned(), "", true);
    row(&mut lines, k.selection.mode.clone(), "Toggle select mode", false);
    row(&mut lines, "Ctrl+B".to_owned(), "Bookmark set mode", false);
    row(&mut lines, "Ctrl+1..9".to_owned(), "Open bookmark slot", false);
    row(&mut lines, "/sudo".to_owned(), "Toggle sudo mode", false);
    row(&mut lines, k.search.local.clone(), "Enter search mode", false);
    row(&mut lines, k.search.global.clone(), "Enter global search mode", false);
    row(&mut lines, "Esc".to_owned(), "Exit active mode", false);
    row(&mut lines, String::new(), "", false);
    row(&mut lines, "FILE OPS".to_owned(), "", true);
    row(&mut lines, k.file_ops.new_file.clone(), "New file", false);
    row(&mut lines, k.file_ops.new_dir.clone(), "New folder", false);
    row(&mut lines, k.file_ops.copy.clone(), "Copy", false);
    row(&mut lines, k.file_ops.cut.clone(), "Cut", false);
    row(&mut lines, k.file_ops.paste.clone(), "Paste", false);
    row(&mut lines, k.file_ops.trash.clone(), "Delete to trash", false);
    row(&mut lines, String::new(), "", false);
    row(&mut lines, "APP".to_owned(), "", true);
    row(&mut lines, k.app.quit.clone(), "Quit", false);
    row(&mut lines, k.app.next_profile.clone(), "Next profile", false);
    row(&mut lines, k.app.prev_profile.clone(), "Previous profile", false);
    proof {
        reveal_strlit("");
        reveal(keybind_rows);
        let a = row_texts(lines@);
        let b = keybind_rows(*k);
        assert(a.len() == b.len());
        assert(a[0] == b[0]);
        assert(a[1] == b[1]);
        assert(a[5] == b[5]);
        assert(a[37] == b[37]);
    }
    assert(row_texts(lines@) =~= keybind_rows(*k));
    OverlayFrame { title: "KEYBINDS".to_owned(), lines, scroll: 0 }
}

} // verus!
