//! Directory entries and columns: which entries are shown, and in what
//! order.
use vstd::prelude::*;

use crate::paths::{extension_of, path_components, join, last_dot, parent, path_joined, path_parent, opt_view};
use crate::text::{
    chars_of, is_white, lines, lines_of, split_whitespace, str_eq, string_from_chars,
    to_ascii_lowercase, ascii_lower_seq, to_lowercase, unicode_lowercase, words_of,
};

verus! {

/// One entry of a directory listing. `size` and `modified` are what the
/// file system reported when the directory was read (`0` and `None` where it
/// could not say); `modified` is seconds and nanoseconds from the Unix epoch.
#[derive(Debug)]
pub struct DirEntry {
    pub name: String,
    pub path: String,
    pub is_dir: bool,
    pub is_symlink: bool,
    pub is_executable: bool,
    pub size: u64,
    pub modified: Option<(i64, u32)>,
}

impl DirEntry {
    pub fn copy(&self) -> (r: DirEntry)
        ensures
            r == *self,
    {
        DirEntry {
            name: self.name.clone(),
            path: self.path.clone(),
            is_dir: self.is_dir,
            is_symlink: self.is_symlink,
            is_executable: self.is_executable,
            size: self.size,
            modified: self.modified,
        }
    }
}

/// Orders two sequences of integers lexicographically: `-1`, `0` or `1`.
pub open spec fn lex_order(a: Seq<int>, b: Seq<int>) -> int
    decreases a.len(),
{
    if a.len() == 0 {
        if b.len() == 0 { 0 } else { -1 }
    } else if b.len() == 0 {
        1
    } else if a[0] < b[0] {
        -1
    } else if a[0] > b[0] {
        1
    } else {
        lex_order(a.drop_first(), b.drop_first())
    }
}

pub proof fn lemma_lex_antisym(a: Seq<int>, b: Seq<int>)
    ensures
        lex_order(a, b) == -lex_order(b, a),
        -1 <= lex_order(a, b) <= 1,
        lex_order(a, b) == 0 ==> a == b,
    decreases a.len(),
{
    if a.len() > 0 && b.len() > 0 && a[0] == b[0] {
        lemma_lex_antisym(a.drop_first(), b.drop_first());
        if lex_order(a, b) == 0 {
            assert(a =~= seq![a[0]] + a.drop_first());
            assert(b =~= seq![b[0]] + b.drop_first());
        }
    }
}

pub proof fn lemma_lex_trans(a: Seq<int>, b: Seq<int>, c: Seq<int>)
    requires
        lex_order(a, b) <= 0,
        lex_order(b, c) <= 0,
    ensures
        lex_order(a, c) <= 0,
        lex_order(a, b) < 0 || lex_order(b, c) < 0 ==> lex_order(a, c) < 0,
    decreases a.len(),
{
    if a.len() > 0 && b.len() > 0 && c.len() > 0 && a[0] == b[0] && b[0] == c[0] {
        lemma_lex_trans(a.drop_first(), b.drop_first(), c.drop_first());
    }
}

/// A text as a sort key: each character one above its code, then `0`, which
/// sorts below every character. The keys of two texts compare as the texts
/// do, and a key is never a proper prefix of another, so keys can be put one
/// after the other and still compare part by part.
pub open spec fn text_key(s: Seq<char>) -> Seq<int> {
    Seq::new(s.len(), |i: int| (s[i] as u32) as int + 1).push(0)
}

/// The text after the last `.` of a name, lower-cased (`extension_of`).
pub open spec fn ext_of(name: Seq<char>) -> Seq<char> {
    match last_dot(name) {
        Some(i) => unicode_lowercase(name.skip(i + 1)),
        None => Seq::empty(),
    }
}

/// The key that orders a listing: directories first; then, by `mode`, the
/// extension (`type`), the size, largest first (`size`), the time of the
/// last change, latest first and unknown last (`modified`), or nothing; and
/// last the lower-cased name. With any other mode than those three, only
/// the directories and the names count.
pub open spec fn sort_key(e: DirEntry, mode: Seq<char>) -> Seq<int> {
    let dir_rank: Seq<int> = if e.is_dir { seq![0int] } else { seq![1int] };
    let middle: Seq<int> = if mode == "type"@ {
        text_key(ext_of(e.name@))
    } else if mode == "size"@ {
        seq![-(e.size as int)]
    } else if mode == "modified"@ {
        match e.modified {
            Some(t) => seq![-1int, -(t.0 as int), -(t.1 as int)],
            None => seq![0int],
        }
    } else {
        Seq::empty()
    };
    dir_rank + middle + text_key(unicode_lowercase(e.name@))
}

/// `i` comes before `j` among `keys`: by key, and by position between equal
/// keys (the order is stable).
pub open spec fn ranks_before(keys: Seq<Seq<int>>, i: int, j: int) -> bool {
    lex_order(keys[i], keys[j]) < 0 || (lex_order(keys[i], keys[j]) == 0 && i < j)
}

/// `perm` holds each of `0..n` once.
pub open spec fn is_permutation(perm: Seq<int>, n: int) -> bool {
    &&& perm.len() == n
    &&& forall|k: int| 0 <= k < n ==> 0 <= #[trigger] perm[k] < n
    &&& forall|k: int, l: int| 0 <= k < l < n ==> perm[k] != perm[l]
}

pub open spec fn keys_of(es: Seq<DirEntry>, mode: Seq<char>) -> Seq<Seq<int>> {
    Seq::new(es.len(), |i: int| sort_key(es[i], mode))
}

/// `r` is `es` in the order of `sort_key`, entries with equal keys in their
/// first order (what a stable sort gives).
pub open spec fn stably_sorted(es: Seq<DirEntry>, mode: Seq<char>, r: Seq<DirEntry>) -> bool {
    exists|perm: Seq<int>|
        {
            &&& is_permutation(perm, es.len() as int)
            &&& r.len() == es.len()
            &&& forall|k: int| 0 <= k < r.len() ==> #[trigger] r[k] == es[perm[k]]
            &&& forall|k: int, l: int|
                0 <= k < l < r.len() ==> ranks_before(keys_of(es, mode), #[trigger] perm[k], #[trigger] perm[l])
        }
}

/// In a sorted listing every directory comes before every other entry,
/// whatever the sort mode.
pub proof fn lemma_dirs_first(es: Seq<DirEntry>, mode: Seq<char>, r: Seq<DirEntry>)
    requires
        stably_sorted(es, mode, r),
    ensures
        forall|k: int, l: int| 0 <= k < l < r.len() && (#[trigger] r[l]).is_dir ==> (#[trigger] r[k]).is_dir,
{
    let perm = choose|perm: Seq<int>|
        {
            &&& is_permutation(perm, es.len() as int)
            &&& r.len() == es.len()
            &&& forall|k: int| 0 <= k < r.len() ==> #[trigger] r[k] == es[perm[k]]
            &&& forall|k: int, l: int|
                0 <= k < l < r.len() ==> ranks_before(keys_of(es, mode), #[trigger] perm[k], #[trigger] perm[l])
        };
    assert forall|k: int, l: int| 0 <= k < l < r.len() && (#[trigger] r[l]).is_dir implies (#[trigger] r[k]).is_dir by {
        let a = sort_key(es[perm[k]], mode);
        let b = sort_key(es[perm[l]], mode);
        assert(ranks_before(keys_of(es, mode), perm[k], perm[l]));
        assert(keys_of(es, mode)[perm[k]] == a);
        assert(keys_of(es, mode)[perm[l]] == b);
        assert(a[0] == if r[k].is_dir { 0int } else { 1int });
        assert(b[0] == 0int);
    }
}

fn text_key_of(cs: &Vec<char>, out: &mut Vec<i128>)
    ensures
        final(out)@.map_values(|x: i128| x as int) == old(out)@.map_values(|x: i128| x as int) + text_key(cs@),
{
    let ghost start = old(out)@.map_values(|x: i128| x as int);
    let mut i: usize = 0;
    assert(out@.map_values(|x: i128| x as int) =~= start + Seq::new(0, |k: int| (cs@[k] as u32) as int + 1));
    while i < cs.len()
        invariant
            i <= cs@.len(),
            out@.map_values(|x: i128| x as int) == start + Seq::new(i as nat, |k: int| (cs@[k] as u32) as int + 1),
        decreases cs@.len() - i,
    {
        let ghost prev = out@;
        let c: u32 = cs[i] as u32;
        assert(c == cs@[i as int] as u32);
        out.push(c as i128 + 1);
        assert(out@ == prev.push((c + 1) as i128));
        assert(out@.map_values(|x: i128| x as int) =~= prev.map_values(|x: i128| x as int).push(c as int + 1));
        i += 1;
        assert(out@.map_values(|x: i128| x as int) =~= start + Seq::new(i as nat, |k: int| (cs@[k] as u32) as int + 1));
    }
    let ghost prev = out@;
    out.push(0);
    assert(out@.map_values(|x: i128| x as int) =~= prev.map_values(|x: i128| x as int).push(0));
    assert(out@.map_values(|x: i128| x as int) =~= start + text_key(cs@));
}

fn str_is(s: &str, lit: &str) -> (r: bool)
    ensures
        r == (s@ == lit@),
{
    crate::text::str_eq(s, lit)
}

/// The sort key of an entry (`sort_key`).
fn key_of(e: &DirEntry, mode: &str) -> (r: Vec<i128>)
    ensures
        r@.map_values(|x: i128| x as int) == sort_key(*e, mode@),
{
    let mut out: Vec<i128> = Vec::new();
    out.push(if e.is_dir { 0 } else { 1 });
    assert(out@.map_values(|x: i128| x as int) =~= (if e.is_dir { seq![0int] } else { seq![1int] }));
    if str_is(mode, "type") {
        let ext = extension_of(e.name.as_str());
        let cs = chars_of(ext.as_str());
        text_key_of(&cs, &mut out);
    } else if str_is(mode, "size") {
        out.push(-(e.size as i128));
        assert(out@.map_values(|x: i128| x as int) =~= (if e.is_dir { seq![0int] } else { seq![1int] }) + seq![-(e.size as int)]);
    } else if str_is(mode, "modified") {
        match e.modified {
            Some(t) => {
                out.push(-1);
                out.push(-(t.0 as i128));
                out.push(-(t.1 as i128));
                assert(out@.map_values(|x: i128| x as int) =~= (if e.is_dir { seq![0int] } else { seq![1int] }) + seq![-1int, -(t.0 as int), -(t.1 as int)]);
            },
            None => {
                out.push(0);
                assert(out@.map_values(|x: i128| x as int) =~= (if e.is_dir { seq![0int] } else { seq![1int] }) + seq![0int]);
            },
        }
    } else {
        assert(out@.map_values(|x: i128| x as int) =~= (if e.is_dir { seq![0int] } else { seq![1int] }) + Seq::<int>::empty());
    }
    let lower = to_lowercase(e.name.as_str());
    let cs = chars_of(lower.as_str());
    text_key_of(&cs, &mut out);
    out
}

/// Compares two keys (`lex_order`).
fn compare_keys(a: &Vec<i128>, b: &Vec<i128>) -> (r: i8)
    ensures
        r as int == lex_order(a@.map_values(|x: i128| x as int), b@.map_values(|x: i128| x as int)),
{
    let ghost sa = a@.map_values(|x: i128| x as int);
    let ghost sb = b@.map_values(|x: i128| x as int);
    let mut i: usize = 0;
    assert(sa.skip(0) =~= sa);
    assert(sb.skip(0) =~= sb);
    while i < a.len() && i < b.len() && a[i] == b[i]
        invariant
            i <= a@.len(),
            i <= b@.len(),
            sa == a@.map_values(|x: i128| x as int),
            sb == b@.map_values(|x: i128| x as int),
            lex_order(sa, sb) == lex_order(sa.skip(i as int), sb.skip(i as int)),
        decreases a@.len() - i,
    {
        assert(sa.skip(i as int).drop_first() =~= sa.skip(i + 1));
        assert(sb.skip(i as int).drop_first() =~= sb.skip(i + 1));
        i += 1;
    }
    if i == a.len() {
        if i == b.len() { 0 } else { -1 }
    } else if i == b.len() {
        1
    } else if a[i] < b[i] {
        -1
    } else {
        1
    }
}

/// How two entries of a listing compare under `mode`: `-1` where `a` goes
/// first, `1` where `b` does, `0` where they rank alike (directories first,
/// then by `mode`, then by the lower-cased name; see `sort_key`).
pub fn compare_entries(a: &DirEntry, b: &DirEntry, mode: &str) -> (r: i8)
    ensures
        r as int == lex_order(sort_key(*a, mode@), sort_key(*b, mode@)),
{
    let ka = key_of(a, mode);
    let kb = key_of(b, mode);
    compare_keys(&ka, &kb)
}

/// Sorts a listing: directories first, then by `mode` (`type`, `size`,
/// `modified`, or the name alone), then by the lower-cased name; entries
/// that compare equal keep their order.
pub fn sort_entries(entries: &Vec<DirEntry>, mode: &str) -> (r: Vec<DirEntry>)
    ensures
        stably_sorted(entries@, mode@, r@),
{
    let ghost keys = keys_of(entries@, mode@);
    let mut ks: Vec<Vec<i128>> = Vec::new();
    let mut i: usize = 0;
    while i < entries.len()
        invariant
            i <= entries@.len(),
            ks@.len() == i,
            keys == keys_of(entries@, mode@),
            forall|k: int| 0 <= k < i ==> (#[trigger] ks@[k])@.map_values(|x: i128| x as int) == keys[k],
        decreases entries@.len() - i,
    {
        ks.push(key_of(&entries[i], mode));
        i += 1;
    }
    let mut order: Vec<usize> = Vec::new();
    let mut n: usize = 0;
    while n < entries.len()
        invariant
            n <= entries@.len(),
            ks@.len() == entries@.len(),
            keys == keys_of(entries@, mode@),
            forall|k: int| 0 <= k < entries@.len() ==> (#[trigger] ks@[k])@.map_values(|x: i128| x as int) == keys[k],
            order@.len() == n,
            forall|k: int| 0 <= k < n ==> (#[trigger] order@[k]) < n,
            forall|k: int, l: int| 0 <= k < l < n ==> order@[k] != order@[l],
            forall|k: int, l: int| 0 <= k < l < n ==> ranks_before(keys, #[trigger] order@[k] as int, #[trigger] order@[l] as int),
        decreases entries@.len() - n,
    {
        let mut p: usize = 0;
        while p < order.len() && compare_keys(&ks[n], &ks[order[p]]) >= 0
            invariant
                p <= order@.len(),
                order@.len() == n,
                n < entries@.len(),
                ks@.len() == entries@.len(),
                forall|k: int| 0 <= k < entries@.len() ==> (#[trigger] ks@[k])@.map_values(|x: i128| x as int) == keys[k],
                forall|k: int| 0 <= k < n ==> (#[trigger] order@[k]) < n,
                forall|k: int| 0 <= k < p ==> lex_order(keys[n as int], keys[#[trigger] order@[k] as int]) >= 0,
            decreases order@.len() - p,
        {
            p += 1;
        }
        let ghost before = order@;
        proof {
            assert forall|k: int| 0 <= k < p implies ranks_before(keys, #[trigger] before[k] as int, n as int) by {
                lemma_lex_antisym(keys[n as int], keys[before[k] as int]);
            }
            if p < before.len() {
                assert(lex_order(keys[n as int], keys[before[p as int] as int]) < 0);
                assert forall|k: int| p <= k < before.len() implies ranks_before(keys, n as int, #[trigger] before[k] as int) by {
                    if k > p {
                        assert(ranks_before(keys, before[p as int] as int, before[k] as int));
                        lemma_lex_trans(keys[n as int], keys[before[p as int] as int], keys[before[k] as int]);
                    }
                }
            }
        }
        order.insert(p, n);
        n += 1;
        proof {
            assert forall|k: int, l: int| 0 <= k < l < n implies ranks_before(keys, #[trigger] order@[k] as int, #[trigger] order@[l] as int) by {
                if k < p && l < p {
                    assert(order@[k] == before[k] && order@[l] == before[l]);
                } else if k < p && l == p {
                } else if k < p {
                    assert(order@[k] == before[k] && order@[l] == before[l - 1]);
                } else if k == p {
                    assert(order@[l] == before[l - 1]);
                } else {
                    assert(order@[k] == before[k - 1] && order@[l] == before[l - 1]);
                }
            }
            assert forall|k: int, l: int| 0 <= k < l < n implies order@[k] != order@[l] by {
                if k < p && l < p {
                } else if k < p && l == p {
                } else if k < p {
                    assert(order@[l] == before[l - 1]);
                } else if k == p {
                    assert(order@[l] == before[l - 1]);
                } else {
                    assert(order@[k] == before[k - 1] && order@[l] == before[l - 1]);
                }
            }
            assert forall|k: int| 0 <= k < n implies (#[trigger] order@[k]) < n by {
                if k < p {
                } else if k > p {
                    assert(order@[k] == before[k - 1]);
                }
            }
        }
    }
    let mut out: Vec<DirEntry> = Vec::new();
    let mut j: usize = 0;
    while j < order.len()
        invariant
            j <= order@.len(),
            order@.len() == entries@.len(),
            forall|k: int| 0 <= k < order@.len() ==> (#[trigger] order@[k]) < entries@.len(),
            out@.len() == j,
            forall|k: int| 0 <= k < j ==> #[trigger] out@[k] == entries@[order@[k] as int],
        decreases order@.len() - j,
    {
        out.push(entries[order[j]].copy());
        j += 1;
    }
    let ghost perm = order@.map_values(|x: usize| x as int);
    assert(is_permutation(perm, entries@.len() as int));
    assert(forall|k: int| 0 <= k < out@.len() ==> #[trigger] out@[k] == entries@[perm[k]]);
    assert(forall|k: int, l: int| 0 <= k < l < out@.len() ==> ranks_before(keys_of(entries@, mode@), #[trigger] perm[k], #[trigger] perm[l]));
    out
}


/// A column of the Miller view: a directory, its entries, and which one has
/// the cursor.
#[derive(Debug)]
pub struct DirColumn {
    pub path: String,
    pub entries: Vec<DirEntry>,
    pub selected: usize,
    pub permission_denied: bool,
    pub sudo_password_required: bool,
}

/// What reading a directory gave.
#[derive(Debug)]
pub struct DirReadOutcome {
    pub entries: Vec<DirEntry>,
    pub permission_denied: bool,
    pub sudo_password_required: bool,
}

/// Why listing a directory through `sudo` failed.
#[derive(Debug, Clone, Copy, PartialEq, Eq, Structural)]
pub enum SudoReadError {
    PasswordRequired,
    PermissionDenied,
    Other,
}

impl DirColumn {
    /// A column for a directory as it was read, the cursor on the first
    /// entry.
    pub fn from_path(path: String, read: DirReadOutcome) -> (r: DirColumn)
        ensures
            r.path == path,
            r.entries == read.entries,
            r.selected == 0,
            r.permission_denied == read.permission_denied,
            r.sudo_password_required == read.sudo_password_required,
    {
        DirColumn {
            path,
            entries: read.entries,
            selected: 0,
            permission_denied: read.permission_denied,
            sudo_password_required: read.sudo_password_required,
        }
    }
}

/// A name that starts with `.`.
pub open spec fn is_hidden(name: Seq<char>) -> bool {
    name.len() > 0 && name[0] == '.'
}

fn starts_with_dot(name: &str) -> (r: bool)
    ensures
        r == is_hidden(name@),
{
    let cs = chars_of(name);
    cs.len() > 0 && cs[0] == '.'
}

/// The entries that are shown: all of them, or those whose name does not
/// start with `.`.
pub open spec fn visible(es: Seq<DirEntry>, show_hidden: bool) -> Seq<DirEntry> {
    es.filter(|e: DirEntry| show_hidden || !is_hidden(e.name@))
}

/// The listing of a directory as shown: hidden entries left out unless
/// `show_hidden`, the rest sorted by `mode` (see `sort_entries`).
pub fn prepare_entries(raw: Vec<DirEntry>, show_hidden: bool, mode: &str) -> (r: Vec<DirEntry>)
    ensures
        stably_sorted(visible(raw@, show_hidden), mode@, r@),
{
    let mut kept: Vec<DirEntry> = Vec::new();
    let mut i: usize = 0;
    while i < raw.len()
        invariant
            i <= raw@.len(),
            kept@ == visible(raw@.take(i as int), show_hidden),
        decreases raw@.len() - i,
    {
        let ghost t = raw@.take(i + 1);
        assert(t.drop_last() =~= raw@.take(i as int));
        let keep = show_hidden || !starts_with_dot(raw[i].name.as_str());
        if keep {
            kept.push(raw[i].copy());
        }
        i += 1;
        proof {
            let f = |e: DirEntry| show_hidden || !is_hidden(e.name@);
            assert(t.filter(f) == t.drop_last().filter(f) + if f(t.last()) { seq![t.last()] } else { Seq::empty() }) by {
                reveal(Seq::filter);
            }
            assert(kept@ =~= visible(raw@.take(i as int), show_hidden));
        }
    }
    assert(raw@.take(raw@.len() as int) =~= raw@);
    sort_entries(&kept, mode)
}

/// `p` is a prefix of `s`.
pub open spec fn starts_with_text(s: Seq<char>, p: Seq<char>) -> bool {
    p.len() <= s.len() && s.take(p.len() as int) == p
}

fn starts_with_str(s: &str, p: &str) -> (r: bool)
    ensures
        r == starts_with_text(s@, p@),
{
    let a = chars_of(s);
    let b = chars_of(p);
    if b.len() > a.len() {
        return false;
    }
    let mut i: usize = 0;
    while i < b.len()
        invariant
            a@ == s@,
            b@ == p@,
            b@.len() <= a@.len(),
            i <= b@.len(),
            forall|k: int| 0 <= k < i ==> a@[k] == b@[k],
        decreases b@.len() - i,
    {
        if a[i] != b[i] {
            assert(s@.take(p@.len() as int)[i as int] != p@[i as int]);
            return false;
        }
        i += 1;
    }
    assert(s@.take(p@.len() as int) =~= p@);
    true
}

/// The words joined by single spaces.
pub open spec fn joined_words(ws: Seq<Seq<char>>) -> Seq<char>
    decreases ws.len(),
{
    if ws.len() == 0 {
        Seq::empty()
    } else if ws.len() == 1 {
        ws[0]
    } else {
        joined_words(ws.drop_last()) + seq![' '] + ws.last()
    }
}

/// The name on a line of `ls -la`: the words from the ninth on, joined by
/// spaces; `None` for the `total` line and for lines of fewer than nine
/// words (blank lines among them).
pub open spec fn ls_name(line: Seq<char>) -> Option<Seq<char>> {
    if starts_with_text(line, "total "@) || words_of(line).len() < 9 {
        None
    } else {
        Some(joined_words(words_of(line).skip(8)))
    }
}

/// The name and permission field of a line of `ls -la` that lists an entry
/// to show: not `.` or `..`, and not hidden unless `show_hidden`.
pub open spec fn ls_listed(line: Seq<char>, show_hidden: bool) -> Option<(Seq<char>, Seq<char>)> {
    match ls_name(line) {
        None => None,
        Some(n) => if n == "."@ || n == ".."@ || (!show_hidden && is_hidden(n)) {
            None
        } else {
            Some((n, words_of(line)[0]))
        },
    }
}

/// The listed entries of the lines, in order.
pub open spec fn ls_listing(ls: Seq<Seq<char>>, show_hidden: bool) -> Seq<(Seq<char>, Seq<char>)>
    decreases ls.len(),
{
    if ls.len() == 0 {
        Seq::empty()
    } else {
        let rest = ls_listing(ls.drop_last(), show_hidden);
        match ls_listed(ls.last(), show_hidden) {
            Some(x) => rest.push(x),
            None => rest,
        }
    }
}

/// The character at `i` of a permission field is `x`.
pub open spec fn perm_x(perms: Seq<char>, i: int) -> bool {
    i < perms.len() && perms[i] == 'x'
}

/// The entry that a listed name and permission field stand for, in the
/// directory `dir`: a directory when the field starts with `d`, a link when
/// it starts with `l`, executable when anyone may execute it. Size and time
/// are unknown.
pub open spec fn ls_entry_matches(e: DirEntry, name: Seq<char>, perms: Seq<char>, dir: Seq<char>) -> bool {
    &&& e.name@ == name
    &&& e.path@ == path_joined(dir, name)
    &&& e.is_dir == (perms.len() > 0 && perms[0] == 'd')
    &&& e.is_symlink == (perms.len() > 0 && perms[0] == 'l')
    &&& e.is_executable == (perm_x(perms, 3) || perm_x(perms, 6) || perm_x(perms, 9))
    &&& e.size == 0
    &&& e.modified is None
}

fn join_words(ws: &Vec<String>, from: usize) -> (r: String)
    requires
        from < ws@.len(),
    ensures
        r@ == joined_words(ws@.map_values(|w: String| w@).skip(from as int)),
{
    let ghost all = ws@.map_values(|w: String| w@);
    let n: usize = ws.len();
    let mut out: Vec<char> = chars_of(ws[from].as_str());
    let mut i: usize = from + 1;
    assert(all.skip(from as int).take(1) =~= seq![all[from as int]]);
    while i < ws.len()
        invariant
            from < i <= ws@.len(),
            all == ws@.map_values(|w: String| w@),
            out@ == joined_words(all.skip(from as int).take(i - from)),
        decreases ws@.len() - i,
    {
        let ghost prev = out@;
        out.push(' ');
        let w = chars_of(ws[i].as_str());
        let mut k: usize = 0;
        while k < w.len()
            invariant
                k <= w@.len(),
                out@ == prev + seq![' '] + w@.take(k as int),
            decreases w@.len() - k,
        {
            out.push(w[k]);
            k += 1;
            assert(out@ =~= prev + seq![' '] + w@.take(k as int));
        }
        i += 1;
        proof {
            let t = all.skip(from as int).take(i - from);
            assert(t.drop_last() =~= all.skip(from as int).take(i - 1 - from));
            assert(w@.take(w@.len() as int) =~= w@);
            assert(out@ =~= joined_words(t));
        }
    }
    assert(all.skip(from as int).take(ws@.len() - from) =~= all.skip(from as int));
    string_from_chars(out.as_slice())
}

/// The name and permission field of one line of `ls -la`, as `ls_listed`
/// reads it.
fn read_ls_line(line: &str, show_hidden: bool) -> (r: Option<(String, String)>)
    ensures
        match r {
            Some(x) => ls_listed(line@, show_hidden) == Some((x.0@, x.1@)),
            None => ls_listed(line@, show_hidden) is None,
        },
{
    if starts_with_str(line, "total ") {
        return None;
    }
    let words = split_whitespace(line);
    if words.len() < 9 {
        return None;
    }
    assert(words@.map_values(|w: String| w@) =~= words_of(line@));
    let name = join_words(&words, 8);
    if str_eq(name.as_str(), ".") || str_eq(name.as_str(), "..") {
        return None;
    }
    if !show_hidden && starts_with_dot(name.as_str()) {
        return None;
    }
    Some((name, words[0].clone()))
}

fn perm_char_is_x(perms: &Vec<char>, i: usize) -> (r: bool)
    ensures
        r == perm_x(perms@, i as int),
{
    i < perms.len() && perms[i] == 'x'
}

/// The entries that a listing of `dir` by `ls -la` shows, in the listing's
/// order (see `ls_listed`; sort them with `sort_entries` once their sizes
/// and times are known).
pub fn parse_ls_listing(out: &str, dir: &str, show_hidden: bool) -> (r: Vec<DirEntry>)
    ensures
        r@.len() == ls_listing(lines_of(out@), show_hidden).len(),
        forall|k: int| 0 <= k < r@.len() ==> {
            let x = #[trigger] ls_listing(lines_of(out@), show_hidden)[k];
            ls_entry_matches(r@[k], x.0, x.1, dir@)
        },
{
    let ls = lines(out);
    let ghost all = lines_of(out@);
    let mut entries: Vec<DirEntry> = Vec::new();
    let mut i: usize = 0;
    assert(all.take(0) =~= Seq::<Seq<char>>::empty());
    while i < ls.len()
        invariant
            i <= ls@.len(),
            ls@.len() == all.len(),
            all == lines_of(out@),
            forall|k: int| 0 <= k < ls@.len() ==> (#[trigger] ls@[k])@ == all[k],
            entries@.len() == ls_listing(all.take(i as int), show_hidden).len(),
            forall|k: int| 0 <= k < entries@.len() ==> {
                let x = #[trigger] ls_listing(all.take(i as int), show_hidden)[k];
                ls_entry_matches(entries@[k], x.0, x.1, dir@)
            },
        decreases ls@.len() - i,
    {
        let ghost t = all.take(i + 1);
        assert(t.drop_last() =~= all.take(i as int));
        assert(t.last() == ls@[i as int]@);
        match read_ls_line(ls[i].as_str(), show_hidden) {
            Some((name, perms)) => {
                let pc = chars_of(perms.as_str());
                let is_dir = pc.len() > 0 && pc[0] == 'd';
                let is_symlink = pc.len() > 0 && pc[0] == 'l';
                let is_executable = perm_char_is_x(&pc, 3) || perm_char_is_x(&pc, 6) || perm_char_is_x(&pc, 9);
                let path = join(dir, name.as_str());
                entries.push(DirEntry {
                    name,
                    path,
                    is_dir,
                    is_symlink,
                    is_executable,
                    size: 0,
                    modified: None,
                });
            },
            None => {},
        }
        i += 1;
    }
    assert(all.take(ls@.len() as int) =~= all);
    entries
}

/// `needle` occurs in `hay`.
pub open spec fn has_text(hay: Seq<char>, needle: Seq<char>) -> bool {
    exists|i: int| 0 <= i && i + needle.len() <= hay.len() && #[trigger] hay.subrange(i, i + needle.len()) == needle
}

fn contains_str(hay: &Vec<char>, needle: &Vec<char>) -> (r: bool)
    ensures
        r == has_text(hay@, needle@),
{
    if needle.len() > hay.len() {
        return false;
    }
    if needle.len() == 0 {
        assert(hay@.subrange(0int, 0int + needle@.len()) =~= needle@);
        return true;
    }
    let last: usize = hay.len() - needle.len();
    assert(hay@.len() <= usize::MAX);
    let mut i: usize = 0;
    while i <= last
        invariant
            0 < needle@.len() <= hay@.len(),
            hay@.len() <= usize::MAX,
            last == hay@.len() - needle@.len(),
            i <= last + 1,
            forall|j: int| 0 <= j < i ==> #[trigger] hay@.subrange(j, j + needle@.len()) != needle@,
        decreases hay@.len() - i,
    {
        let mut k: usize = 0;
        while k < needle.len() && hay[i + k] == needle[k]
            invariant
                k <= needle@.len(),
                needle@.len() <= hay@.len(),
                hay@.len() <= usize::MAX,
                i <= last,
                last == hay@.len() - needle@.len(),
                forall|m: int| 0 <= m < k ==> hay@[i + m] == needle@[m],
            decreases needle@.len() - k,
        {
            k += 1;
        }
        if k == needle.len() {
            assert(hay@.subrange(i as int, i + needle@.len()) =~= needle@);
            return true;
        }
        assert(hay@.subrange(i as int, i + needle@.len())[k as int] != needle@[k as int]);
        i += 1;
    }
    proof {
        assert forall|j: int| 0 <= j && j + needle@.len() <= hay@.len() implies #[trigger] hay@.subrange(j, j + needle@.len()) != needle@ by {
            assert(j < i);
        }
    }
    false
}

/// Why a `sudo ls` failed, from what it wrote to its error stream: it asked
/// for a password, or permission was denied, or something else.
pub open spec fn sudo_failure_of(stderr: Seq<char>) -> SudoReadError {
    let l = ascii_lower_seq(stderr);
    if has_text(l, "password"@) {
        SudoReadError::PasswordRequired
    } else if has_text(l, "permission denied"@) {
        SudoReadError::PermissionDenied
    } else {
        SudoReadError::Other
    }
}

pub fn classify_sudo_failure(stderr: &str) -> (r: SudoReadError)
    ensures
        r == sudo_failure_of(stderr@),
{
    let lower = to_ascii_lowercase(stderr);
    let l = chars_of(lower.as_str());
    let pw = chars_of("password");
    let pd = chars_of("permission denied");
    if contains_str(&l, &pw) {
        SudoReadError::PasswordRequired
    } else if contains_str(&l, &pd) {
        SudoReadError::PermissionDenied
    } else {
        SudoReadError::Other
    }
}

/// What a listing through `sudo` gives: its entries, or a column marked
/// denied (and waiting for a password where one was asked for); `None`
/// where the listing failed otherwise and the directory is read directly.
pub fn sudo_read_outcome(res: Result<Vec<DirEntry>, SudoReadError>) -> (r: Option<DirReadOutcome>)
    ensures
        match res {
            Ok(es) => r == Some(DirReadOutcome { entries: es, permission_denied: false, sudo_password_required: false }),
            Err(SudoReadError::PasswordRequired) => r matches Some(o) && o.entries@.len() == 0 && o.permission_denied && o.sudo_password_required,
            Err(SudoReadError::PermissionDenied) => r matches Some(o) && o.entries@.len() == 0 && o.permission_denied && !o.sudo_password_required,
            Err(SudoReadError::Other) => r is None,
        },
{
    match res {
        Ok(entries) => Some(DirReadOutcome { entries, permission_denied: false, sudo_password_required: false }),
        Err(SudoReadError::PasswordRequired) => Some(DirReadOutcome { entries: Vec::new(), permission_denied: true, sudo_password_required: true }),
        Err(SudoReadError::PermissionDenied) => Some(DirReadOutcome { entries: Vec::new(), permission_denied: true, sudo_password_required: false }),
        Err(SudoReadError::Other) => None,
    }
}

/// What a directory that could not be opened gives: no entries, marked
/// denied when the error was a refused permission.
pub fn unreadable_outcome(permission_denied: bool) -> (r: DirReadOutcome)
    ensures
        r.entries@.len() == 0,
        r.permission_denied == permission_denied,
        !r.sudo_password_required,
{
    DirReadOutcome { entries: Vec::new(), permission_denied, sudo_password_required: false }
}


/// The directory that a column chain ends in: the path itself when it is a
/// directory, else its parent (the path itself when it has none).
pub fn column_target(path: &str, is_dir: bool) -> (r: String)
    ensures
        r@ == if is_dir {
            path@
        } else {
            match path_parent(path@) {
                Some(q) => q,
                None => path@,
            }
        },
{
    if is_dir {
        path.to_owned()
    } else {
        match parent(path) {
            Some(q) => q,
            None => path.to_owned(),
        }
    }
}

/// The directories from the top down to `p`: each the parent of the next,
/// ending where a path has no parent or is its own; at most `fuel` steps up.
pub open spec fn ancestry(p: Seq<char>, fuel: nat) -> Seq<Seq<char>>
    decreases fuel,
{
    if fuel == 0 {
        seq![p]
    } else {
        match path_parent(p) {
            Some(q) => if q != p { ancestry(q, (fuel - 1) as nat).push(p) } else { seq![p] },
            None => seq![p],
        }
    }
}

/// The chain of directories from the top down to `target`. A parent is
/// shorter than its path, so the steps up are bounded by the length of the
/// path.
pub fn ancestor_dirs(target: &str) -> (r: Vec<String>)
    ensures
        r@.len() == ancestry(target@, target@.len()).len(),
        forall|k: int| 0 <= k < r@.len() ==> (#[trigger] r@[k])@ == ancestry(target@, target@.len())[k],
{
    let fuel0: usize = chars_of(target).len();
    let mut up: Vec<String> = Vec::new();
    let mut cur: String = target.to_owned();
    let mut fuel: usize = fuel0;
    let mut done = false;
    while !done
        invariant
            fuel <= fuel0,
            fuel0 == target@.len(),
            !done ==> ancestry(target@, fuel0 as nat) == ancestry(cur@, fuel as nat) + Seq::new(up@.len(), |k: int| up@[up@.len() - 1 - k]@),
            done ==> ancestry(target@, fuel0 as nat) == Seq::new(up@.len(), |k: int| up@[up@.len() - 1 - k]@),
        decreases fuel + if done { 0int } else { 1int },
    {
        let ghost before = up@;
        let ghost cur_v = cur@;
        up.push(cur.clone());
        let next = if fuel == 0 {
            None
        } else {
            match parent(cur.as_str()) {
                Some(q) => if str_eq(q.as_str(), cur.as_str()) { None } else { Some(q) },
                None => None,
            }
        };
        proof {
            let tail = Seq::new(before.len(), |k: int| before[before.len() - 1 - k]@);
            let tail2 = Seq::new(up@.len(), |k: int| up@[up@.len() - 1 - k]@);
            assert(tail2 =~= seq![cur_v] + tail);
        }
        match next {
            Some(q) => {
                proof {
                    let tail = Seq::new(before.len(), |k: int| before[before.len() - 1 - k]@);
                    assert(ancestry(cur_v, fuel as nat) == ancestry(q@, (fuel - 1) as nat).push(cur_v));
                    assert(ancestry(q@, (fuel - 1) as nat).push(cur_v) + tail =~= ancestry(q@, (fuel - 1) as nat) + (seq![cur_v] + tail));
                }
                cur = q;
                fuel = fuel - 1;
            },
            None => {
                proof {
                    let tail = Seq::new(before.len(), |k: int| before[before.len() - 1 - k]@);
                    assert(ancestry(cur_v, fuel as nat) == seq![cur_v]);
                }
                done = true;
            },
        }
    }
    let mut out: Vec<String> = Vec::new();
    let mut j: usize = up.len();
    while j > 0
        invariant
            j <= up@.len(),
            out@.len() == up@.len() - j,
            forall|k: int| 0 <= k < out@.len() ==> (#[trigger] out@[k])@ == up@[up@.len() - 1 - k]@,
        decreases j,
    {
        j -= 1;
        out.push(up[j].clone());
    }
    out
}

/// The first position in `es` of an entry at `path` (paths compared as std
/// compares them).
pub open spec fn position_of(es: Seq<DirEntry>, path: Seq<char>) -> Option<int> {
    if exists|k: int| 0 <= k < es.len() && path_components((#[trigger] es[k]).path@) == path_components(path) {
        Some(choose|k: int| 0 <= k < es.len() && path_components((#[trigger] es[k]).path@) == path_components(path) && forall|m: int| 0 <= m < k ==> path_components(es[m].path@) != path_components(path))
    } else {
        None
    }
}

pub(crate) fn find_path(es: &Vec<DirEntry>, path: &str) -> (r: Option<usize>)
    ensures
        match r {
            Some(k) => k < es@.len() && path_components(es@[k as int].path@) == path_components(path@) && forall|m: int| 0 <= m < k ==> path_components(es@[m].path@) != path_components(path@),
            None => forall|m: int| 0 <= m < es@.len() ==> path_components((#[trigger] es@[m]).path@) != path_components(path@),
        },
        r == match position_of(es@, path@) { Some(k) => Some(k as usize), None => None },
{
    let mut i: usize = 0;
    while i < es.len()
        invariant
            i <= es@.len(),
            forall|m: int| 0 <= m < i ==> path_components((#[trigger] es@[m]).path@) != path_components(path@),
        decreases es@.len() - i,
    {
        if crate::paths::same_path(es[i].path.as_str(), path) {
            proof {
                let k = choose|k: int| 0 <= k < es@.len() && path_components((#[trigger] es@[k]).path@) == path_components(path@) && forall|m: int| 0 <= m < k ==> path_components(es@[m].path@) != path_components(path@);
                assert(0 <= i < es@.len() && path_components(es@[i as int].path@) == path_components(path@) && forall|m: int| 0 <= m < i ==> path_components(es@[m].path@) != path_components(path@));
                if k < i {
                    assert(path_components(es@[k].path@) != path_components(path@));
                } else if k > i {
                    assert(path_components(es@[i as int].path@) != path_components(path@));
                }
            }
            return Some(i);
        }
        i += 1;
    }
    None
}

/// In a chain of columns from the top down, puts the cursor of each column
/// on the entry of the next column's directory, where it lists it; the last
/// column keeps its cursor.
pub fn link_columns(cols: &mut Vec<DirColumn>)
    ensures
        final(cols)@.len() == old(cols)@.len(),
        forall|k: int| 0 <= k < old(cols)@.len() ==> {
            let c = #[trigger] final(cols)@[k];
            let o = old(cols)@[k];
            &&& c.path == o.path
            &&& c.entries == o.entries
            &&& c.permission_denied == o.permission_denied
            &&& c.sudo_password_required == o.sudo_password_required
            &&& c.selected == if k + 1 < old(cols)@.len() {
                match position_of(o.entries@, old(cols)@[k + 1].path@) {
                    Some(p) => p as usize,
                    None => o.selected,
                }
            } else {
                o.selected
            }
        },
{
    let n = cols.len();
    let mut i: usize = 0;
    while n > 0 && i < n - 1
        invariant
            n == old(cols)@.len(),
            cols@.len() == n,
            i < n || n == 0,
            n == 0 ==> i == 0,
            forall|k: int| 0 <= k < n ==> {
                let c = #[trigger] cols@[k];
                let o = old(cols)@[k];
                &&& c.path == o.path
                &&& c.entries == o.entries
                &&& c.permission_denied == o.permission_denied
                &&& c.sudo_password_required == o.sudo_password_required
                &&& c.selected == if k < i {
                    match position_of(o.entries@, old(cols)@[k + 1].path@) {
                        Some(p) => p as usize,
                        None => o.selected,
                    }
                } else {
                    o.selected
                }
            },
        decreases n - i,
    {
        let found = find_path(&cols[i].entries, cols[i + 1].path.as_str());
        match found {
            Some(p) => {
                let mut col = cols.remove(i);
                col.selected = p;
                cols.insert(i, col);
            },
            None => {},
        }
        i += 1;
    }
}

/// The first row to show of a list of `total_rows` in a window of
/// `viewport_rows`, keeping `anchor` near the middle. Where the anchor is a
/// row of the list and the window is not empty, the anchor is always in the
/// window.
pub fn scroll_start(total_rows: usize, viewport_rows: usize, anchor: usize) -> (r: usize)
    ensures
        r == if viewport_rows == 0 || total_rows <= viewport_rows {
            0
        } else {
            let centered = if anchor >= viewport_rows / 2 { anchor - viewport_rows / 2 } else { 0 };
            if centered < total_rows - viewport_rows { centered } else { total_rows - viewport_rows }
        },
        anchor < total_rows && viewport_rows > 0 ==> r <= anchor < r + viewport_rows,
        r + viewport_rows <= total_rows || r == 0,
{
    if viewport_rows == 0 || total_rows <= viewport_rows {
        return 0;
    }
    let half = viewport_rows / 2;
    let centered = anchor.saturating_sub(half);
    if centered < total_rows - viewport_rows { centered } else { total_rows - viewport_rows }
}

/// The unit that `format_size` shows a size in: `0` for bytes, then KB, MB,
/// GB, and `4` for TB and above.
pub open spec fn size_unit_of(bytes: u64) -> int {
    if bytes < 1024 {
        0
    } else if bytes < 1024 * 1024 {
        1
    } else if bytes < 1024 * 1024 * 1024 {
        2
    } else if bytes < 1024 * 1024 * 1024 * 1024 {
        3
    } else {
        4
    }
}

pub fn size_unit(bytes: u64) -> (r: usize)
    ensures
        r == size_unit_of(bytes),
{
    if bytes < 1024 {
        0
    } else if bytes < 1024 * 1024 {
        1
    } else if bytes < 1024 * 1024 * 1024 {
        2
    } else if bytes < 1024 * 1024 * 1024 * 1024 {
        3
    } else {
        4
    }
}

/// The name of a size unit.
pub fn size_unit_name(unit: usize) -> (r: &'static str)
    requires
        unit <= 4,
    ensures
        r@ == if unit == 0 { "B"@ } else if unit == 1 { "KB"@ } else if unit == 2 { "MB"@ } else if unit == 3 { "GB"@ } else { "TB"@ },
{
    proof {
        reveal_strlit("B");
        reveal_strlit("KB");
        reveal_strlit("MB");
        reveal_strlit("GB");
        reveal_strlit("TB");
    }
    if unit == 0 { "B" } else if unit == 1 { "KB" } else if unit == 2 { "MB" } else if unit == 3 { "GB" } else { "TB" }
}


/// The mount points under `/mnt` or `/media` named by the lines of a mount
/// table (the second word of each line), in order.
pub open spec fn mount_points(ls: Seq<Seq<char>>) -> Seq<Seq<char>>
    decreases ls.len(),
{
    if ls.len() == 0 {
        Seq::empty()
    } else {
        let rest = mount_points(ls.drop_last());
        let ws = words_of(ls.last());
        if ws.len() > 1 && (starts_with_text(ws[1], "/mnt"@) || starts_with_text(ws[1], "/media"@)) {
            rest.push(ws[1])
        } else {
            rest
        }
    }
}

/// The drives to list: `/`, and the mount points under `/mnt` or `/media`
/// among the first twenty lines of the mount table, where it could be read.
pub open spec fn is_drive(x: Seq<char>, table: Option<Seq<char>>) -> bool {
    x == "/"@ || match table {
        Some(t) => {
            let ls = lines_of(t);
            mount_points(ls.take(if ls.len() < 20 { ls.len() as int } else { 20 })).contains(x)
        },
        None => false,
    }
}

/// Some string of `v` holds the text `y`.
pub open spec fn holds_text(v: Seq<String>, y: Seq<char>) -> bool {
    exists|k: int| 0 <= k < v.len() && #[trigger] v[k]@ == y
}

/// `a` sorts before `b` as text (by character codes, a prefix first).
pub open spec fn text_before(a: Seq<char>, b: Seq<char>) -> bool {
    lex_order(text_key(a), text_key(b)) < 0
}

proof fn lemma_text_key_injective(a: Seq<char>, b: Seq<char>)
    requires
        text_key(a) == text_key(b),
    ensures
        a == b,
{
    assert(text_key(a).len() == a.len() + 1);
    assert(a.len() == b.len());
    assert forall|i: int| 0 <= i < a.len() implies a[i] == b[i] by {
        assert(text_key(a)[i] == text_key(b)[i]);
        assert(text_key(a)[i] == (a[i] as u32) as int + 1);
        assert(text_key(b)[i] == (b[i] as u32) as int + 1);
        assert((a[i] as u32) == (b[i] as u32));
        vstd::utf8::char_u32_cast(a[i], a[i] as u32);
        vstd::utf8::char_u32_cast(b[i], b[i] as u32);
    }
    assert(a =~= b);
}

fn text_key_vec(s: &str) -> (r: Vec<i128>)
    ensures
        r@.map_values(|x: i128| x as int) == text_key(s@),
{
    let cs = chars_of(s);
    let mut out: Vec<i128> = Vec::new();
    assert(out@.map_values(|x: i128| x as int) =~= Seq::<int>::empty());
    text_key_of(&cs, &mut out);
    assert(Seq::<int>::empty() + text_key(cs@) =~= text_key(s@));
    out
}

/// Adds `x` to a list kept sorted as text and free of repeats.
fn insert_sorted_unique(out: &mut Vec<String>, keys: &mut Vec<Vec<i128>>, x: String)
    requires
        old(keys)@.len() == old(out)@.len(),
        forall|k: int| 0 <= k < old(out)@.len() ==> (#[trigger] old(keys)@[k])@.map_values(|v: i128| v as int) == text_key(old(out)@[k]@),
        forall|k: int, l: int| 0 <= k < l < old(out)@.len() ==> text_before(#[trigger] old(out)@[k]@, #[trigger] old(out)@[l]@),
    ensures
        final(keys)@.len() == final(out)@.len(),
        forall|k: int| 0 <= k < final(out)@.len() ==> (#[trigger] final(keys)@[k])@.map_values(|v: i128| v as int) == text_key(final(out)@[k]@),
        forall|k: int, l: int| 0 <= k < l < final(out)@.len() ==> text_before(#[trigger] final(out)@[k]@, #[trigger] final(out)@[l]@),
        forall|y: Seq<char>| #[trigger] holds_text(final(out)@, y) <==> (y == x@ || holds_text(old(out)@, y)),
{
    let kx = text_key_vec(x.as_str());
    let mut p: usize = 0;
    while p < out.len() && compare_keys(&keys[p], &kx) < 0
        invariant
            p <= out@.len(),
            keys@.len() == out@.len(),
            out@ == old(out)@,
            keys@ == old(keys)@,
            kx@.map_values(|v: i128| v as int) == text_key(x@),
            forall|k: int| 0 <= k < out@.len() ==> (#[trigger] keys@[k])@.map_values(|v: i128| v as int) == text_key(out@[k]@),
            forall|k: int| 0 <= k < p ==> text_before(#[trigger] out@[k]@, x@),
        decreases out@.len() - p,
    {
        p += 1;
    }
    let ghost before = out@;
    if p < out.len() && compare_keys(&keys[p], &kx) == 0 {
        proof {
            lemma_lex_antisym(text_key(before[p as int]@), text_key(x@));
            lemma_text_key_injective(before[p as int]@, x@);
        }
        return;
    }
    proof {
        if p < before.len() {
            lemma_lex_antisym(text_key(before[p as int]@), text_key(x@));
            assert(text_before(x@, before[p as int]@));
            assert forall|k: int| p < k < before.len() implies text_before(x@, #[trigger] before[k]@) by {
                lemma_lex_trans(text_key(x@), text_key(before[p as int]@), text_key(before[k]@));
            }
        }
    }
    out.insert(p, x);
    keys.insert(p, kx);
    proof {
        assert forall|k: int, l: int| 0 <= k < l < out@.len() implies text_before(#[trigger] out@[k]@, #[trigger] out@[l]@) by {
            if k < p && l < p {
            } else if k < p && l == p {
            } else if k < p {
                assert(out@[l] == before[l - 1]);
                if p < before.len() {
                    lemma_lex_trans(text_key(out@[k]@), text_key(out@[p as int]@), text_key(out@[l]@));
                }
            } else if k == p {
                assert(out@[l] == before[l - 1]);
            } else {
                assert(out@[k] == before[k - 1] && out@[l] == before[l - 1]);
            }
        }
        assert forall|k: int| 0 <= k < out@.len() implies (#[trigger] keys@[k])@.map_values(|v: i128| v as int) == text_key(out@[k]@) by {
            if k > p {
                assert(out@[k] == before[k - 1]);
            }
        }
        assert forall|y: Seq<char>| #[trigger] holds_text(out@, y) implies (y == x@ || holds_text(before, y)) by {
            let k = choose|k: int| 0 <= k < out@.len() && #[trigger] out@[k]@ == y;
            if k > p {
                assert(before[k - 1]@ == y);
            } else if k < p {
                assert(before[k]@ == y);
            }
        }
        assert forall|y: Seq<char>| (y == x@ || holds_text(before, y)) implies #[trigger] holds_text(out@, y) by {
            if y == x@ {
                assert(out@[p as int]@ == y);
            } else {
                let k = choose|k: int| 0 <= k < before.len() && #[trigger] before[k]@ == y;
                if k >= p {
                    assert(out@[k + 1]@ == y);
                } else {
                    assert(out@[k]@ == y);
                }
            }
        }
    }
}

/// The drives to list, from the text of the mount table where it could be
/// read: `/` and the mount points under `/mnt` or `/media` on its first
/// twenty lines, sorted as text, each once.
pub fn drives_from_mounts(table: Option<&str>) -> (r: Vec<String>)
    ensures
        forall|k: int, l: int| 0 <= k < l < r@.len() ==> text_before(#[trigger] r@[k]@, #[trigger] r@[l]@),
        forall|x: Seq<char>| #[trigger] holds_text(r@, x) <==> is_drive(x, opt_str(table)),
{
    let mut out: Vec<String> = Vec::new();
    let mut keys: Vec<Vec<i128>> = Vec::new();
    insert_sorted_unique(&mut out, &mut keys, "/".to_owned());
    match table {
        None => {},
        Some(t) => {
            let ls = lines(t);
            let ghost all = lines_of(t@);
            let n: usize = if ls.len() < 20 { ls.len() } else { 20 };
            let mut i: usize = 0;
            while i < n
                invariant
                    i <= n <= ls@.len(),
                    n == if ls@.len() < 20 { ls@.len() } else { 20 },
                    ls@.len() == all.len(),
                    all == lines_of(t@),
                    forall|k: int| 0 <= k < ls@.len() ==> (#[trigger] ls@[k])@ == all[k],
                    keys@.len() == out@.len(),
                    forall|k: int| 0 <= k < out@.len() ==> (#[trigger] keys@[k])@.map_values(|v: i128| v as int) == text_key(out@[k]@),
                    forall|k: int, l: int| 0 <= k < l < out@.len() ==> text_before(#[trigger] out@[k]@, #[trigger] out@[l]@),
                    forall|x: Seq<char>| #[trigger] holds_text(out@, x) <==> (x == "/"@ || mount_points(all.take(i as int)).contains(x)),
                decreases n - i,
            {
                let ghost prev = out@;
                let ghost tk = all.take(i + 1);
                assert(tk.drop_last() =~= all.take(i as int));
                let ws = split_whitespace(ls[i].as_str());
                if ws.len() > 1 && (starts_with_str(ws[1].as_str(), "/mnt") || starts_with_str(ws[1].as_str(), "/media")) {
                    let m = ws[1].clone();
                    insert_sorted_unique(&mut out, &mut keys, m);
                    proof {
                        assert(mount_points(tk) == mount_points(all.take(i as int)).push(ws@[1]@));
                        assert forall|x: Seq<char>| (x == "/"@ || mount_points(tk).contains(x)) <==> (x == ws@[1]@ || x == "/"@ || mount_points(all.take(i as int)).contains(x)) by {
                            if mount_points(tk).contains(x) && x != ws@[1]@ {
                                let j = choose|j: int| 0 <= j < mount_points(tk).len() && mount_points(tk)[j] == x;
                                assert(mount_points(all.take(i as int))[j] == x);
                            }
                            if mount_points(all.take(i as int)).contains(x) {
                                let j = choose|j: int| 0 <= j < mount_points(all.take(i as int)).len() && mount_points(all.take(i as int))[j] == x;
                                assert(mount_points(tk)[j] == x);
                            }
                            if x == ws@[1]@ {
                                assert(mount_points(tk)[mount_points(tk).len() - 1] == x);
                            }
                        }
                    }
                } else {
                    assert(mount_points(tk) == mount_points(all.take(i as int)));
                }
                i += 1;
            }
        },
    }
    out
}

pub open spec fn opt_str(o: Option<&str>) -> Option<Seq<char>> {
    match o {
        Some(s) => Some(s@),
        None => None,
    }
}

} // verus!
