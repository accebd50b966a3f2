use vstd::prelude::*;

use crate::text::{chars_of, str_eq, string_from_range};

verus! {

/// `Path::join` of `base` and `seg`, as text.
pub uninterp spec fn path_joined(base: Seq<char>, seg: Seq<char>) -> Seq<char>;

/// `Path::file_name` of `p`, as text (lossily decoded).
pub uninterp spec fn path_file_name(p: Seq<char>) -> Option<Seq<char>>;

/// `Path::parent` of `p`, as text.
pub uninterp spec fn path_parent(p: Seq<char>) -> Option<Seq<char>>;

/// `Path::extension` of `p`, as text (lossily decoded).
pub uninterp spec fn path_extension(p: Seq<char>) -> Option<Seq<char>>;

/// `Path::file_stem` of `p`, as text (lossily decoded).
pub uninterp spec fn path_file_stem(p: Seq<char>) -> Option<Seq<char>>;

/// `Path::strip_prefix(p, base)`, as text.
pub uninterp spec fn path_stripped(p: Seq<char>, base: Seq<char>) -> Option<Seq<char>>;

pub open spec fn opt_view(o: Option<String>) -> Option<Seq<char>> {
    match o {
        Some(s) => Some(s@),
        None => None,
    }
}

/// `Path::new(base).join(seg)`; the result is the named join of the two texts.
#[verifier::external_body]
pub(crate) fn join(base: &str, seg: &str) -> (r: String)
    ensures
        r@ == path_joined(base@, seg@),
{
    std::path::Path::new(base).join(seg).to_string_lossy().to_string()
}

/// `Path::file_name`; the result is the named file name of the text.
#[verifier::external_body]
pub(crate) fn file_name(p: &str) -> (r: Option<String>)
    ensures
        opt_view(r) == path_file_name(p@),
{
    std::path::Path::new(p).file_name().map(|x| x.to_string_lossy().to_string())
}

/// `Path::parent`; the result is the named parent of the text.
#[verifier::external_body]
pub(crate) fn parent(p: &str) -> (r: Option<String>)
    ensures
        opt_view(r) == path_parent(p@),
{
    std::path::Path::new(p).parent().map(|x| x.to_string_lossy().to_string())
}

/// `Path::extension`; the result is the named extension of the text. As
/// std documents it, it is taken from the file name: none without a file
/// name, none where the name has no `.` or only one at its start, else
/// what follows the last `.` (see `name_extension`).
#[verifier::external_body]
pub(crate) fn extension(p: &str) -> (r: Option<String>)
    ensures
        opt_view(r) == path_extension(p@),
        opt_view(r) == match path_file_name(p@) {
            Some(n) => name_extension(n),
            None => None,
        },
{
    std::path::Path::new(p).extension().map(|x| x.to_string_lossy().to_string())
}

/// `Path::file_stem`; the result is the named stem of the text.
#[verifier::external_body]
pub(crate) fn file_stem(p: &str) -> (r: Option<String>)
    ensures
        opt_view(r) == path_file_stem(p@),
{
    std::path::Path::new(p).file_stem().map(|x| x.to_string_lossy().to_string())
}

/// `Path::strip_prefix`; the result is the named remainder of `p` after `base`.
#[verifier::external_body]
pub(crate) fn strip_prefix(p: &str, base: &str) -> (r: Option<String>)
    ensures
        opt_view(r) == path_stripped(p@, base@),
{
    std::path::Path::new(p).strip_prefix(base).ok().map(|x| x.to_string_lossy().to_string())
}

/// `dirs::home_dir`. It reads the environment, so nothing is promised of it.
#[verifier::external_body]
pub(crate) fn home_dir() -> Option<String> {
    dirs::home_dir().map(|p| p.to_string_lossy().to_string())
}

/// `dirs::data_local_dir`. It reads the environment, so nothing is promised of it.
#[verifier::external_body]
pub(crate) fn data_local_dir() -> Option<String> {
    dirs::data_local_dir().map(|p| p.to_string_lossy().to_string())
}

/// `dirs::cache_dir`. It reads the environment, so nothing is promised of it.
#[verifier::external_body]
pub(crate) fn cache_dir() -> Option<String> {
    dirs::cache_dir().map(|p| p.to_string_lossy().to_string())
}

pub open spec fn tilde_expanded(input: Seq<char>, home: Option<Seq<char>>) -> Seq<char> {
    if input == "~"@ {
        match home {
            Some(h) => h,
            None => "."@,
        }
    } else if input.len() >= 2 && input[0] == '~' && input[1] == '/' && home is Some {
        path_joined(home->0, input.skip(2))
    } else {
        input
    }
}

/// Expands a leading `~` with the given home directory: `~` alone becomes the
/// home directory (or `.` without one), `~/rest` becomes the home directory
/// joined with `rest` when there is one; anything else is kept.
pub fn expand_tilde_in(input: &str, home: Option<&str>) -> (r: String)
    ensures
        r@ == tilde_expanded(input@, match home { Some(h) => Some(h@), None => None }),
{
    if str_eq(input, "~") {
        return match home {
            Some(h) => h.to_owned(),
            None => {
                proof { reveal_strlit("."); }
                ".".to_owned()
            }
        };
    }
    let cs = chars_of(input);
    if cs.len() >= 2 && cs[0] == '~' && cs[1] == '/' {
        if let Some(h) = home {
            let rest = string_from_range(cs.as_slice(), 2, cs.len());
            assert(rest@ =~= input@.skip(2));
            return join(h, rest.as_str());
        }
    }
    input.to_owned()
}

pub open spec fn opt_str_view(o: Option<&str>) -> Option<Seq<char>> {
    match o {
        Some(s) => Some(s@),
        None => None,
    }
}

/// Expands a leading `~` with the home directory that `dirs::home_dir`
/// reports (see `expand_tilde_in`).
pub fn expand_tilde(input: &str) -> (r: String)
    ensures
        exists|home: Option<Seq<char>>| r@ == tilde_expanded(input@, home),
{
    let home = home_dir();
    let r = match &home {
        Some(h) => expand_tilde_in(input, Some(h.as_str())),
        None => expand_tilde_in(input, None),
    };
    assert(r@ == tilde_expanded(input@, opt_view(home)));
    r
}

pub open spec fn start_dir_of(input: Seq<char>, home: Option<Seq<char>>) -> Seq<char> {
    let p = tilde_expanded(input, home);
    if p.len() == 0 {
        match home {
            Some(h) => h,
            None => "."@,
        }
    } else {
        p
    }
}

/// With a home directory `h`, the start directory is expanded with it: `~`
/// and the empty text give `h`, `~/rest` gives `h` joined with `rest`, and a
/// text that does not start with `~` is kept, whatever the home.
pub proof fn lemma_start_dir_uses_the_home(h: Seq<char>, rest: Seq<char>, other: Seq<char>, home: Option<Seq<char>>)
    requires
        h.len() > 0,
    ensures
        start_dir_of("~"@, Some(h)) == h,
        start_dir_of(Seq::empty(), Some(h)) == h,
        path_joined(h, rest).len() > 0 ==> start_dir_of("~/"@ + rest, Some(h)) == path_joined(h, rest),
        (other.len() > 0 && other[0] != '~') ==> start_dir_of(other, home) == other,
{
    reveal_strlit("~");
    reveal_strlit("~/");
    let t = "~/"@ + rest;
    assert(t.skip(2) =~= rest);
    assert(t.len() >= 2 && t[0] == '~' && t[1] == '/');
    assert(t != "~"@);
    if other.len() > 0 && other[0] != '~' {
        assert(other != "~"@);
    }
}

/// The start directory for a configured text: `~` expanded, and the home
/// directory (or `.`) when the text is empty.
pub fn normalize_start_dir_in(input: &str, home: Option<&str>) -> (r: String)
    ensures
        r@ == start_dir_of(input@, opt_str_view(home)),
{
    let p = expand_tilde_in(input, home);
    if p.as_str().is_empty() {
        match home {
            Some(h) => h.to_owned(),
            None => ".".to_owned(),
        }
    } else {
        p
    }
}

/// `normalize_start_dir_in` with the home directory that `dirs::home_dir` reports.
pub fn normalize_start_dir(input: &str) -> (r: String)
    ensures
        exists|home: Option<Seq<char>>| r@ == start_dir_of(input@, home),
{
    let home = home_dir();
    let r = match &home {
        Some(h) => normalize_start_dir_in(input, Some(h.as_str())),
        None => normalize_start_dir_in(input, None),
    };
    assert(r@ == start_dir_of(input@, opt_view(home)));
    r
}

pub open spec fn last_segment(p: Seq<char>) -> Seq<char> {
    match path_file_name(p) {
        Some(n) => n,
        None => p,
    }
}

/// The last component of a path, or the whole path when it has none.
pub fn path_last_segment(path: &str) -> (r: String)
    ensures
        r@ == last_segment(path@),
{
    match file_name(path) {
        Some(n) => n,
        None => path.to_owned(),
    }
}

pub open spec fn home_relative(p: Seq<char>, home: Option<Seq<char>>) -> Seq<char> {
    match home {
        Some(h) => match path_stripped(p, h) {
            Some(st) => if st.len() == 0 {
                "~"@
            } else {
                "~/"@ + st
            },
            None => p,
        },
        None => p,
    }
}

/// A path for display: under the home directory it is written from `~`.
pub fn display_home_relative_in(path: &str, home: Option<&str>) -> (r: String)
    ensures
        r@ == home_relative(path@, opt_str_view(home)),
{
    if let Some(h) = home {
        if let Some(st) = strip_prefix(path, h) {
            if st.as_str().is_empty() {
                return "~".to_owned();
            }
            return "~/".to_owned().concat(st.as_str());
        }
    }
    path.to_owned()
}

/// `display_home_relative_in` with the home directory that `dirs::home_dir` reports.
pub fn display_home_relative(path: &str) -> (r: String)
    ensures
        exists|home: Option<Seq<char>>| r@ == home_relative(path@, home),
{
    let home = home_dir();
    let r = match &home {
        Some(h) => display_home_relative_in(path, Some(h.as_str())),
        None => display_home_relative_in(path, None),
    };
    assert(r@ == home_relative(path@, opt_view(home)));
    r
}

/// `base/dirt/name`, where `base` is the given directory or `.`.
pub open spec fn dirt_file(base: Option<Seq<char>>, name: Seq<char>) -> Seq<char> {
    let b = match base {
        Some(d) => d,
        None => "."@,
    };
    path_joined(path_joined(b, "dirt"@), name)
}

/// The path of a file of the application under a base directory.
pub fn dirt_file_in(base: Option<&str>, name: &str) -> (r: String)
    ensures
        r@ == dirt_file(opt_str_view(base), name@),
{
    let b = match base {
        Some(d) => d.to_owned(),
        None => ".".to_owned(),
    };
    let dir = join(b.as_str(), "dirt");
    join(dir.as_str(), name)
}

/// The configuration directory's parent: `~/.config`, none where the home
/// directory is unknown.
pub open spec fn config_base(home: Option<Seq<char>>) -> Option<Seq<char>> {
    match home {
        Some(h) => Some(path_joined(h, ".config"@)),
        None => None,
    }
}

/// A file of the application under `~/.config/dirt` (under `./dirt` where
/// the home directory is unknown).
fn config_file(name: &str) -> (r: String)
    ensures
        exists|home: Option<Seq<char>>| r@ == dirt_file(config_base(home), name@),
{
    let home = home_dir();
    let r = match &home {
        Some(h) => {
            let base = join(h.as_str(), ".config");
            dirt_file_in(Some(base.as_str()), name)
        },
        None => dirt_file_in(None, name),
    };
    assert(r@ == dirt_file(config_base(opt_view(home)), name@));
    r
}

/// `~/.config/dirt/dirt.toml`.
pub fn config_path() -> (r: String)
    ensures
        exists|home: Option<Seq<char>>| r@ == dirt_file(config_base(home), "dirt.toml"@),
{
    config_file("dirt.toml")
}

/// `~/.config/dirt/layout.toml`.
pub fn layout_config_path() -> (r: String)
    ensures
        exists|home: Option<Seq<char>>| r@ == dirt_file(config_base(home), "layout.toml"@),
{
    config_file("layout.toml")
}

/// `~/.config/dirt/theme.toml`.
pub fn theme_config_path() -> (r: String)
    ensures
        exists|home: Option<Seq<char>>| r@ == dirt_file(config_base(home), "theme.toml"@),
{
    config_file("theme.toml")
}

/// `~/.config/dirt/keymap.toml`.
pub fn keymap_path() -> (r: String)
    ensures
        exists|home: Option<Seq<char>>| r@ == dirt_file(config_base(home), "keymap.toml"@),
{
    config_file("keymap.toml")
}

/// `~/.config/dirt/themes`, the directory of theme files.
pub fn themes_dir() -> (r: String)
    ensures
        exists|home: Option<Seq<char>>| r@ == dirt_file(config_base(home), "themes"@),
{
    config_file("themes")
}

pub open spec fn state_dir_of(base: Option<Seq<char>>) -> Seq<char> {
    let b = match base {
        Some(d) => d,
        None => "."@,
    };
    path_joined(b, "dirt"@)
}

/// The directory where the application keeps its state, under
/// `dirs::data_local_dir` (or `.`).
pub fn state_dir() -> (r: String)
    ensures
        exists|base: Option<Seq<char>>| r@ == state_dir_of(base),
{
    let base = data_local_dir();
    let b = match &base {
        Some(d) => d.clone(),
        None => ".".to_owned(),
    };
    let r = join(b.as_str(), "dirt");
    assert(r@ == state_dir_of(opt_view(base)));
    r
}

/// The file that holds the recent directories, in the state directory.
pub fn recents_path() -> (r: String)
    ensures
        exists|base: Option<Seq<char>>| r@ == path_joined(state_dir_of(base), "recents.toml"@),
{
    let dir = state_dir();
    join(dir.as_str(), "recents.toml")
}

/// `dirt/thumbs` under a cache directory; none without one.
pub open spec fn thumbs_dir_of(base: Option<Seq<char>>) -> Option<Seq<char>> {
    match base {
        Some(d) => Some(path_joined(path_joined(d, "dirt"@), "thumbs"@)),
        None => None,
    }
}

/// The directory of cached thumbnails under the cache directory `base`:
/// `base/dirt/thumbs`, and `None` where there is no cache directory.
pub fn thumbs_dir_under(base: Option<String>) -> (r: Option<String>)
    ensures
        opt_view(r) == thumbs_dir_of(opt_view(base)),
{
    match base {
        Some(d) => {
            let a = join(d.as_str(), "dirt");
            Some(join(a.as_str(), "thumbs"))
        },
        None => None,
    }
}

/// The directory of cached thumbnails: `dirt/thumbs` under
/// `dirs::cache_dir`; `None` where there is no cache directory. Which of
/// the two comes depends on the environment alone.
pub fn thumbs_dir() -> (r: Option<String>)
    ensures
        exists|base: Option<Seq<char>>| opt_view(r) == thumbs_dir_of(base),
{
    let base = cache_dir();
    let ghost b = opt_view(base);
    let r = thumbs_dir_under(base);
    assert(opt_view(r) == thumbs_dir_of(b));
    r
}

pub open spec fn image_extension(e: Seq<char>) -> bool {
    e == "jpg"@ || e == "jpeg"@ || e == "png"@ || e == "gif"@ || e == "webp"@ || e == "bmp"@
}

/// Whether the path names an image that the preview can show: its extension,
/// in ASCII lower case, is one of jpg, jpeg, png, gif, webp, bmp.
pub fn is_supported_image(path: &str) -> (r: bool)
    ensures
        r == match path_extension(path@) {
            Some(e) => image_extension(crate::text::ascii_lower_seq(e)),
            None => false,
        },
{
    match extension(path) {
        Some(e) => {
            let l = crate::text::to_ascii_lowercase(e.as_str());
            str_eq(l.as_str(), "jpg") || str_eq(l.as_str(), "jpeg") || str_eq(l.as_str(), "png")
                || str_eq(l.as_str(), "gif") || str_eq(l.as_str(), "webp") || str_eq(l.as_str(), "bmp")
        },
        None => false,
    }
}

/// The name of a theme file: the stem of a path whose extension is `toml`.
pub fn theme_name_of(path: &str) -> (r: Option<String>)
    ensures
        r matches Some(n) ==> path_extension(path@) == Some("toml"@) && path_file_stem(path@) == Some(n@),
        r is None ==> path_extension(path@) != Some("toml"@) || path_file_stem(path@) is None,
{
    match extension(path) {
        Some(e) => {
            if !str_eq(e.as_str(), "toml") {
                return None;
            }
            file_stem(path)
        },
        None => None,
    }
}

/// The position of the last `.` in `s`.
/// The extension of a file name as `Path::extension` documents it: none
/// where the name has no `.` or its only `.` starts it, else what follows
/// the last `.` (empty after a trailing `.`).
pub open spec fn name_extension(n: Seq<char>) -> Option<Seq<char>> {
    match last_dot(n) {
        Some(i) => if i == 0 { None } else { Some(n.skip(i + 1)) },
        None => None,
    }
}

pub open spec fn last_dot(s: Seq<char>) -> Option<int>
    decreases s.len(),
{
    if s.len() == 0 {
        None
    } else if s.last() == '.' {
        Some(s.len() - 1)
    } else {
        last_dot(s.drop_last())
    }
}

/// The extension of a file name as the sort order reads it: the text after
/// the last `.`, lower-cased; empty when there is no `.`.
pub fn extension_of(name: &str) -> (r: String)
    ensures
        r@ == match last_dot(name@) {
            Some(i) => crate::text::unicode_lowercase(name@.skip(i + 1)),
            None => Seq::empty(),
        },
{
    let cs = chars_of(name);
    let mut i: usize = cs.len();
    assert(name@.take(cs@.len() as int) =~= name@);
    while i > 0 && cs[i - 1] != '.'
        invariant
            cs@ == name@,
            i <= cs@.len(),
            last_dot(name@) == last_dot(name@.take(i as int)),
        decreases i,
    {
        assert(name@.take(i as int).drop_last() =~= name@.take(i - 1));
        i -= 1;
    }
    if i == 0 {
        assert(name@.take(0).len() == 0);
        String::new()
    } else {
        assert(name@.take(i as int).last() == '.');
        let ext = crate::text::string_from_range(cs.as_slice(), i, cs.len());
        assert(ext@ =~= name@.skip(i as int));
        crate::text::to_lowercase(ext.as_str())
    }
}

/// The pieces of a text between `/`s (an empty piece where two `/` meet,
/// or at either end).
pub open spec fn slash_pieces(p: Seq<char>) -> Seq<Seq<char>>
    decreases p.len(),
{
    if p.len() == 0 {
        seq![Seq::empty()]
    } else {
        let parts = slash_pieces(p.drop_last());
        if p.last() == '/' {
            parts.push(Seq::empty())
        } else {
            parts.update(parts.len() - 1, parts.last().push(p.last()))
        }
    }
}

/// The pieces that name something: not empty and not `.`.
pub open spec fn named_pieces(parts: Seq<Seq<char>>) -> Seq<Seq<char>>
    decreases parts.len(),
{
    if parts.len() == 0 {
        Seq::empty()
    } else {
        let rest = named_pieces(parts.drop_last());
        let x = parts.last();
        if x.len() == 0 || x == seq!['.'] {
            rest
        } else {
            rest.push(x)
        }
    }
}

/// The components of a path as `Path::components` gives them on Unix: the
/// root (`/`) where the path starts with `/`, else a leading `.` where the
/// path is `.` or starts with `./`; then each piece between `/`s that is
/// neither empty nor `.`. Repeated `/`, a trailing `/` and a `.` elsewhere
/// leave the components as they are.
pub open spec fn path_components(p: Seq<char>) -> Seq<Seq<char>> {
    let lead: Seq<Seq<char>> = if p.len() > 0 && p[0] == '/' {
        seq![seq!['/']]
    } else if p.len() > 0 && p[0] == '.' && (p.len() == 1 || p[1] == '/') {
        seq![seq!['.']]
    } else {
        Seq::empty()
    };
    lead + named_pieces(slash_pieces(p))
}

/// Two texts name the same path as std compares paths (`Path`'s `==`
/// compares the components).
pub open spec fn same_path_spec(a: Seq<char>, b: Seq<char>) -> bool {
    path_components(a) == path_components(b)
}

pub open spec fn char_vecs(v: Seq<Vec<char>>) -> Seq<Seq<char>> {
    Seq::new(v.len(), |i: int| v[i]@)
}

fn chars_equal(a: &Vec<char>, b: &Vec<char>) -> (r: bool)
    ensures
        r == (a@ == b@),
{
    if a.len() != b.len() {
        return false;
    }
    let mut i: usize = 0;
    while i < a.len()
        invariant
            a@.len() == b@.len(),
            i <= a@.len(),
            forall|k: int| 0 <= k < i ==> a@[k] == b@[k],
        decreases a@.len() - i,
    {
        if a[i] != b[i] {
            return false;
        }
        i += 1;
    }
    assert(a@ =~= b@);
    true
}

/// The components of a path (see `path_components`).
fn components_of(p: &str) -> (r: Vec<Vec<char>>)
    ensures
        char_vecs(r@) == path_components(p@),
{
    let cs = chars_of(p);
    let mut done: Vec<Vec<char>> = Vec::new();
    if cs.len() > 0 && cs[0] == '/' {
        let mut root: Vec<char> = Vec::new();
        root.push('/');
        done.push(root);
        assert(char_vecs(done@) =~= seq![seq!['/']]);
    } else if cs.len() > 0 && cs[0] == '.' && (cs.len() == 1 || cs[1] == '/') {
        let mut here: Vec<char> = Vec::new();
        here.push('.');
        done.push(here);
        assert(char_vecs(done@) =~= seq![seq!['.']]);
    } else {
        assert(char_vecs(done@) =~= Seq::<Seq<char>>::empty());
    }
    let ghost lead = char_vecs(done@);
    assert(lead =~= (if p@.len() > 0 && p@[0] == '/' {
        seq![seq!['/']]
    } else if p@.len() > 0 && p@[0] == '.' && (p@.len() == 1 || p@[1] == '/') {
        seq![seq!['.']]
    } else {
        Seq::<Seq<char>>::empty()
    }));
    let mut cur: Vec<char> = Vec::new();
    let ghost mut parts: Seq<Seq<char>> = Seq::empty();
    let mut i: usize = 0;
    assert(p@.take(0) =~= Seq::<char>::empty());
    assert(slash_pieces(p@.take(0)) =~= parts.push(cur@));
    assert(char_vecs(done@) =~= lead + named_pieces(parts));
    while i < cs.len()
        invariant
            cs@ == p@,
            i <= cs@.len(),
            slash_pieces(p@.take(i as int)) == parts.push(cur@),
            char_vecs(done@) == lead + named_pieces(parts),
        decreases cs@.len() - i,
    {
        let c = cs[i];
        assert(p@.take(i + 1).drop_last() =~= p@.take(i as int));
        if c == '/' {
            let ghost prev = parts;
            let named = cur.len() > 0 && !(cur.len() == 1 && cur[0] == '.');
            assert(named == !(cur@.len() == 0 || cur@ == seq!['.'])) by {
                if cur@.len() == 1 && cur@[0] == '.' {
                    assert(cur@ =~= seq!['.']);
                }
            }
            proof {
                parts = parts.push(cur@);
                assert(parts.drop_last() =~= prev);
            }
            if named {
                let ghost before = char_vecs(done@);
                done.push(cur);
                assert(char_vecs(done@) =~= before.push(parts.last()));
            }
            cur = Vec::new();
            assert(slash_pieces(p@.take(i + 1)) =~= parts.push(cur@));
        } else {
            let ghost before = slash_pieces(p@.take(i as int));
            let ghost old_cur = cur@;
            cur.push(c);
            assert(before == parts.push(old_cur));
            assert(slash_pieces(p@.take(i + 1)) =~= parts.push(cur@)) by {
                assert(p@.take(i + 1).last() == c);
                assert(before.update(before.len() - 1, before.last().push(c)) =~= parts.push(old_cur.push(c)));
                assert(cur@ =~= old_cur.push(c));
            }
        }
        i += 1;
    }
    assert(p@.take(cs@.len() as int) =~= p@);
    let ghost all = parts.push(cur@);
    assert(all.drop_last() =~= parts);
    if cur.len() > 0 && !(cur.len() == 1 && cur[0] == '.') {
        let ghost before = char_vecs(done@);
        done.push(cur);
        assert(char_vecs(done@) =~= before.push(all.last()));
    } else {
        assert(cur@.len() == 0 || cur@ =~= seq!['.']);
    }
    assert(slash_pieces(p@) == all);
    done
}

/// Whether `a` and `b` name the same path as std compares paths: component
/// by component, so that `/a/./b`, `/a//b` and `/a/b/` are all `/a/b`.
pub fn same_path(a: &str, b: &str) -> (r: bool)
    ensures
        r == same_path_spec(a@, b@),
{
    let ca = components_of(a);
    let cb = components_of(b);
    if ca.len() != cb.len() {
        assert(char_vecs(ca@).len() != char_vecs(cb@).len());
        return false;
    }
    let mut i: usize = 0;
    while i < ca.len()
        invariant
            ca@.len() == cb@.len(),
            char_vecs(ca@) == path_components(a@),
            char_vecs(cb@) == path_components(b@),
            i <= ca@.len(),
            forall|k: int| 0 <= k < i ==> ca@[k]@ == cb@[k]@,
        decreases ca@.len() - i,
    {
        if !chars_equal(&ca[i], &cb[i]) {
            let ghost va = char_vecs(ca@);
            let ghost vb = char_vecs(cb@);
            assert(va[i as int] != vb[i as int]);
            assert(va != vb);
            return false;
        }
        i += 1;
    }
    assert(char_vecs(ca@) =~= char_vecs(cb@));
    true
}

} // verus!
