use vstd::prelude::*;

verus! {

broadcast use vstd::string::group_string_axioms;

/// Appends one character to a string (`String::push`).
#[verifier::external_body]
pub(crate) fn push_char(s: &mut String, c: char)
    ensures
        final(s)@ == old(s)@.push(c),
{
    s.push(c);
}

/// The characters of `s`, in order.
pub fn chars_of(s: &str) -> (r: Vec<char>)
    ensures
        r@ == s@,
{
    let mut out: Vec<char> = Vec::new();
    for c in iter: s.chars()
        invariant
            iter.seq() == s@,
            out@ == iter.seq().take(iter.index() as int),
    {
        out.push(c);
    }
    out
}

/// Builds a string from a sequence of characters.
pub fn string_from_chars(cs: &[char]) -> (r: String)
    ensures
        r@ == cs@,
{
    let mut out = String::new();
    let mut i: usize = 0;
    while i < cs.len()
        invariant
            i <= cs@.len(),
            out@ == cs@.take(i as int),
        decreases cs@.len() - i,
    {
        push_char(&mut out, cs[i]);
        i += 1;
        assert(cs@.take(i as int) =~= cs@.take((i - 1) as int).push(cs@[i - 1]));
    }
    assert(cs@.take(cs@.len() as int) =~= cs@);
    out
}

/// `needle` occurs in `haystack` as a subsequence: its characters appear in
/// `haystack` in the same order, not necessarily next to each other.
pub open spec fn is_subsequence(needle: Seq<char>, haystack: Seq<char>) -> bool
    decreases haystack.len(),
{
    if needle.len() == 0 {
        true
    } else if haystack.len() == 0 {
        false
    } else if haystack[0] == needle[0] {
        is_subsequence(needle.drop_first(), haystack.drop_first())
    } else {
        is_subsequence(needle, haystack.drop_first())
    }
}

/// Fuzzy matching: true exactly when `needle` is a subsequence of `haystack`.
pub fn fuzzy_contains(haystack: &str, needle: &str) -> (r: bool)
    ensures
        r == is_subsequence(needle@, haystack@),
{
    let n = chars_of(needle);
    let h = chars_of(haystack);
    if n.len() == 0 {
        return true;
    }
    let mut j: usize = 0;
    let mut i: usize = 0;
    assert(n@.skip(0) =~= n@);
    assert(h@.skip(0) =~= h@);
    while i < h.len()
        invariant
            n@ == needle@,
            h@ == haystack@,
            0 < n@.len(),
            i <= h@.len(),
            j < n@.len(),
            is_subsequence(needle@, haystack@) == is_subsequence(n@.skip(j as int), h@.skip(i as int)),
        decreases h@.len() - i,
    {
        let ghost ns = n@.skip(j as int);
        let ghost hs = h@.skip(i as int);
        assert(hs.drop_first() =~= h@.skip(i + 1));
        assert(is_subsequence(ns, hs) == if hs[0] == ns[0] {
            is_subsequence(ns.drop_first(), hs.drop_first())
        } else {
            is_subsequence(ns, hs.drop_first())
        });
        if h[i] == n[j] {
            assert(ns.drop_first() =~= n@.skip(j + 1));
            assert(j < n.len());
            j += 1;
            if j == n.len() {
                assert(n@.skip(j as int).len() == 0);
                return true;
            }
        }
        i += 1;
    }
    false
}

/// Whether two strings hold the same characters.
pub fn str_eq(a: &str, b: &str) -> (r: bool)
    ensures
        r == (a@ == b@),
{
    let x = chars_of(a);
    let y = chars_of(b);
    if x.len() != y.len() {
        return false;
    }
    let mut i: usize = 0;
    while i < x.len()
        invariant
            x@ == a@,
            y@ == b@,
            x@.len() == y@.len(),
            i <= x@.len(),
            forall|j: int| 0 <= j < i ==> x@[j] == y@[j],
        decreases x@.len() - i,
    {
        if x[i] != y[i] {
            return false;
        }
        i += 1;
    }
    assert(x@ =~= y@);
    true
}

/// Builds a string from the characters `cs[lo..hi]`.
pub fn string_from_range(cs: &[char], lo: usize, hi: usize) -> (r: String)
    requires
        lo <= hi <= cs@.len(),
    ensures
        r@ == cs@.subrange(lo as int, hi as int),
{
    let mut out = String::new();
    let mut i: usize = lo;
    while i < hi
        invariant
            lo <= i <= hi <= cs@.len(),
            out@ == cs@.subrange(lo as int, i as int),
        decreases hi - i,
    {
        push_char(&mut out, cs[i]);
        i += 1;
        assert(cs@.subrange(lo as int, i as int) =~= cs@.subrange(lo as int, (i - 1) as int).push(cs@[i - 1]));
    }
    out
}

/// `c` with ASCII upper-case letters mapped to lower case.
pub open spec fn ascii_lower(c: char) -> char {
    if 'A' <= c <= 'Z' {
        ((c as u32) + 32) as char
    } else {
        c
    }
}

pub open spec fn ascii_lower_seq(s: Seq<char>) -> Seq<char> {
    Seq::new(s.len(), |i: int| ascii_lower(s[i]))
}

pub fn to_ascii_lower_char(c: char) -> (r: char)
    ensures
        r == ascii_lower(c),
{
    if 'A' <= c && c <= 'Z' {
        let b: u8 = (c as u8) + 32;
        b as char
    } else {
        c
    }
}

/// `str::to_ascii_lowercase`.
pub fn to_ascii_lowercase(s: &str) -> (r: String)
    ensures
        r@ == ascii_lower_seq(s@),
{
    let cs = chars_of(s);
    let mut out = String::new();
    let mut i: usize = 0;
    while i < cs.len()
        invariant
            cs@ == s@,
            i <= cs@.len(),
            out@ == ascii_lower_seq(s@).take(i as int),
        decreases cs@.len() - i,
    {
        let c = to_ascii_lower_char(cs[i]);
        push_char(&mut out, c);
        i += 1;
        assert(ascii_lower_seq(s@).take(i as int) =~= ascii_lower_seq(s@).take((i - 1) as int).push(c));
    }
    assert(ascii_lower_seq(s@).take(cs@.len() as int) =~= ascii_lower_seq(s@));
    out
}

/// The Unicode `White_Space` property, which `char::is_whitespace` tests.
pub open spec fn is_white(c: char) -> bool {
    let u = c as u32;
    (0x09 <= u <= 0x0d) || u == 0x20 || u == 0x85 || u == 0xa0 || u == 0x1680 || (0x2000 <= u
        <= 0x200a) || u == 0x2028 || u == 0x2029 || u == 0x202f || u == 0x205f || u == 0x3000
}

pub fn is_whitespace(c: char) -> (r: bool)
    ensures
        r == is_white(c),
{
    let u = c as u32;
    (0x09 <= u && u <= 0x0d) || u == 0x20 || u == 0x85 || u == 0xa0 || u == 0x1680 || (0x2000 <= u
        && u <= 0x200a) || u == 0x2028 || u == 0x2029 || u == 0x202f || u == 0x205f || u == 0x3000
}

/// The position of the first character that is not white space (or the length).
pub open spec fn trim_start_index(s: Seq<char>) -> int
    decreases s.len(),
{
    if s.len() == 0 || !is_white(s[0]) {
        0
    } else {
        1 + trim_start_index(s.drop_first())
    }
}

/// The position just after the last character that is not white space (or 0).
pub open spec fn trim_end_index(s: Seq<char>) -> int
    decreases s.len(),
{
    if s.len() == 0 || !is_white(s.last()) {
        s.len() as int
    } else {
        trim_end_index(s.drop_last())
    }
}

/// `s` without leading and trailing white space (`str::trim`).
pub open spec fn trimmed(s: Seq<char>) -> Seq<char> {
    let a = trim_start_index(s);
    let b = trim_end_index(s);
    if a < b {
        s.subrange(a, b)
    } else {
        Seq::empty()
    }
}

proof fn lemma_trim_start(s: Seq<char>, i: int)
    requires
        0 <= i <= s.len(),
        forall|j: int| 0 <= j < i ==> is_white(#[trigger] s[j]),
    ensures
        i == s.len() || !is_white(s[i]) ==> trim_start_index(s) == i,
        0 <= trim_start_index(s) <= s.len(),
    decreases s.len(),
{
    if s.len() > 0 {
        if i > 0 {
            assert forall|j: int| 0 <= j < i - 1 implies is_white(#[trigger] s.drop_first()[j]) by {
                assert(s.drop_first()[j] == s[j + 1]);
            }
            lemma_trim_start(s.drop_first(), i - 1);
        } else {
            lemma_trim_start(s.drop_first(), 0);
        }
    }
}

proof fn lemma_trim_end(s: Seq<char>, i: int)
    requires
        0 <= i <= s.len(),
        forall|j: int| i <= j < s.len() ==> is_white(#[trigger] s[j]),
    ensures
        i == 0 || !is_white(s[i - 1]) ==> trim_end_index(s) == i,
        0 <= trim_end_index(s) <= s.len(),
    decreases s.len(),
{
    if s.len() > 0 {
        if i < s.len() {
            assert forall|j: int| i <= j < s.len() - 1 implies is_white(#[trigger] s.drop_last()[j]) by {
                assert(s.drop_last()[j] == s[j]);
            }
            lemma_trim_end(s.drop_last(), i);
        } else {
            lemma_trim_end(s.drop_last(), s.len() - 1);
        }
    }
}

proof fn lemma_trim_start_index(s: Seq<char>)
    ensures
        0 <= trim_start_index(s) <= s.len(),
        trim_start_index(s) < s.len() ==> !is_white(s[trim_start_index(s)]),
    decreases s.len(),
{
    if s.len() > 0 && is_white(s[0]) {
        lemma_trim_start_index(s.drop_first());
    }
}

proof fn lemma_trim_end_index(s: Seq<char>)
    ensures
        0 <= trim_end_index(s) <= s.len(),
        trim_end_index(s) > 0 ==> !is_white(s[trim_end_index(s) - 1]),
    decreases s.len(),
{
    if s.len() > 0 && is_white(s.last()) {
        lemma_trim_end_index(s.drop_last());
    }
}

/// A trimmed text starts and ends with a character that is not white space.
pub proof fn lemma_trimmed_ends(s: Seq<char>)
    ensures
        trimmed(s).len() > 0 ==> !is_white(trimmed(s)[0]) && !is_white(trimmed(s).last()),
{
    lemma_trim_start_index(s);
    lemma_trim_end_index(s);
}

/// A text that is empty or starts and ends with a character that is not
/// white space is its own trim.
pub proof fn lemma_trimmed_self(t: Seq<char>)
    requires
        t.len() > 0 ==> !is_white(t[0]) && !is_white(t.last()),
    ensures
        trimmed(t) == t,
{
    if t.len() == 0 {
        assert(trimmed(t) =~= t);
    } else {
        lemma_trim_start(t, 0);
        lemma_trim_end(t, t.len() as int);
        assert(trimmed(t) =~= t);
    }
}

/// Trimming twice is trimming once.
pub proof fn lemma_trimmed_twice(s: Seq<char>)
    ensures
        trimmed(trimmed(s)) == trimmed(s),
{
    lemma_trimmed_ends(s);
    lemma_trimmed_self(trimmed(s));
}

/// `str::trim`: `s` without leading and trailing white space.
pub fn trim(s: &str) -> (r: String)
    ensures
        r@ == trimmed(s@),
{
    let cs = chars_of(s);
    let mut a: usize = 0;
    while a < cs.len() && is_whitespace(cs[a])
        invariant
            cs@ == s@,
            a <= cs@.len(),
            forall|j: int| 0 <= j < a ==> is_white(#[trigger] cs@[j]),
        decreases cs@.len() - a,
    {
        a += 1;
    }
    let mut b: usize = cs.len();
    while b > 0 && is_whitespace(cs[b - 1])
        invariant
            cs@ == s@,
            b <= cs@.len(),
            forall|j: int| b <= j < cs@.len() ==> is_white(#[trigger] cs@[j]),
        decreases b,
    {
        b -= 1;
    }
    proof {
        lemma_trim_start(s@, a as int);
        lemma_trim_end(s@, b as int);
    }
    if a < b {
        string_from_range(cs.as_slice(), a, b)
    } else {
        String::new()
    }
}

/// What `str::to_lowercase` makes of a text (Unicode lower-casing).
pub uninterp spec fn unicode_lowercase(s: Seq<char>) -> Seq<char>;

/// `str::to_lowercase`; the result is the named lower-casing of the text.
#[verifier::external_body]
pub(crate) fn to_lowercase(s: &str) -> (r: String)
    ensures
        r@ == unicode_lowercase(s@),
{
    s.to_lowercase()
}

/// The pieces of `s` after each `\n`, each keeping its `\n`
/// (`str::split_inclusive('\n')`): no empty piece at the end.
pub open spec fn newline_pieces(s: Seq<char>) -> Seq<Seq<char>>
    decreases s.len(),
{
    if s.len() == 0 {
        Seq::empty()
    } else {
        let rest = newline_pieces(s.drop_last());
        if rest.len() == 0 || rest.last().last() == '\n' {
            rest.push(seq![s.last()])
        } else {
            rest.update(rest.len() - 1, rest.last().push(s.last()))
        }
    }
}

/// A line without its ending: a final `\n` and then a `\r` before it.
pub open spec fn line_body(piece: Seq<char>) -> Seq<char> {
    if piece.len() > 0 && piece.last() == '\n' {
        let p = piece.drop_last();
        if p.len() > 0 && p.last() == '\r' {
            p.drop_last()
        } else {
            p
        }
    } else {
        piece
    }
}

/// The lines of `s` (`str::lines`).
pub open spec fn lines_of(s: Seq<char>) -> Seq<Seq<char>> {
    Seq::new(newline_pieces(s).len(), |i: int| line_body(newline_pieces(s)[i]))
}

proof fn lemma_pieces_nonempty(s: Seq<char>)
    ensures
        forall|i: int| 0 <= i < newline_pieces(s).len() ==> (#[trigger] newline_pieces(s)[i]).len() > 0,
    decreases s.len(),
{
    if s.len() > 0 {
        let rest = newline_pieces(s.drop_last());
        lemma_pieces_nonempty(s.drop_last());
        if rest.len() == 0 || rest.last().last() == '\n' {
            assert forall|i: int| 0 <= i < newline_pieces(s).len() implies (#[trigger] newline_pieces(s)[i]).len() > 0 by {
                if i < rest.len() {
                    assert(newline_pieces(s)[i] == rest[i]);
                }
            }
        } else {
            assert forall|i: int| 0 <= i < newline_pieces(s).len() implies (#[trigger] newline_pieces(s)[i]).len() > 0 by {
                if i < rest.len() - 1 {
                    assert(newline_pieces(s)[i] == rest[i]);
                }
            }
        }
    }
}

/// The pieces of `s` after each `\n` (see `newline_pieces`).
fn newline_split(s: &str) -> (r: Vec<Vec<char>>)
    ensures
        r@.len() == newline_pieces(s@).len(),
        forall|i: int| 0 <= i < r@.len() ==> (#[trigger] r@[i])@ == newline_pieces(s@)[i],
{
    let cs = chars_of(s);
    let mut out: Vec<Vec<char>> = Vec::new();
    let mut i: usize = 0;
    assert(s@.take(0) =~= Seq::<char>::empty());
    while i < cs.len()
        invariant
            cs@ == s@,
            i <= cs@.len(),
            out@.len() == newline_pieces(s@.take(i as int)).len(),
            forall|k: int| 0 <= k < out@.len() ==> (#[trigger] out@[k])@ == newline_pieces(s@.take(i as int))[k],
        decreases cs@.len() - i,
    {
        let ghost before = newline_pieces(s@.take(i as int));
        proof {
            lemma_pieces_nonempty(s@.take(i as int));
        }
        assert(s@.take(i + 1).drop_last() =~= s@.take(i as int));
        let c = cs[i];
        let n = out.len();
        let start_new = n == 0 || {
            let last = &out[n - 1];
            last[last.len() - 1] == '\n'
        };
        if start_new {
            out.push(vec![c]);
            assert(out@[n as int]@ =~= seq![c]);
        } else {
            let mut last = out.pop().unwrap();
            last.push(c);
            out.push(last);
        }
        i += 1;
        assert forall|k: int| 0 <= k < out@.len() implies (#[trigger] out@[k])@ == newline_pieces(s@.take(i as int))[k] by {}
    }
    assert(s@.take(cs@.len() as int) =~= s@);
    out
}

/// The lines of a text (`str::lines`).
pub fn lines(s: &str) -> (r: Vec<String>)
    ensures
        r@.len() == lines_of(s@).len(),
        forall|i: int| 0 <= i < r@.len() ==> (#[trigger] r@[i])@ == lines_of(s@)[i],
{
    let pieces = newline_split(s);
    let mut out: Vec<String> = Vec::new();
    let mut i: usize = 0;
    while i < pieces.len()
        invariant
            pieces@.len() == newline_pieces(s@).len(),
            forall|k: int| 0 <= k < pieces@.len() ==> (#[trigger] pieces@[k])@ == newline_pieces(s@)[k],
            i <= pieces@.len(),
            out@.len() == i,
            forall|k: int| 0 <= k < i ==> (#[trigger] out@[k])@ == lines_of(s@)[k],
        decreases pieces@.len() - i,
    {
        let p = &pieces[i];
        let mut end = p.len();
        if end > 0 && p[end - 1] == '\n' {
            end -= 1;
            if end > 0 && p[end - 1] == '\r' {
                end -= 1;
            }
        }
        let line = string_from_range(p.as_slice(), 0, end);
        assert(line@ =~= line_body(p@));
        out.push(line);
        i += 1;
    }
    out
}

/// The pieces of `s` separated by white space (`str::split_whitespace`).
pub open spec fn words_of(s: Seq<char>) -> Seq<Seq<char>>
    decreases s.len(),
{
    if s.len() == 0 {
        Seq::empty()
    } else {
        let rest = words_of(s.drop_last());
        if is_white(s.last()) {
            rest
        } else if s.len() >= 2 && !is_white(s[s.len() - 2]) && rest.len() > 0 {
            rest.update(rest.len() - 1, rest.last().push(s.last()))
        } else {
            rest.push(seq![s.last()])
        }
    }
}

/// The words of a text (`str::split_whitespace`).
pub fn split_whitespace(s: &str) -> (r: Vec<String>)
    ensures
        r@.len() == words_of(s@).len(),
        forall|i: int| 0 <= i < r@.len() ==> (#[trigger] r@[i])@ == words_of(s@)[i],
{
    let cs = chars_of(s);
    let mut words: Vec<Vec<char>> = Vec::new();
    let mut i: usize = 0;
    assert(s@.take(0) =~= Seq::<char>::empty());
    while i < cs.len()
        invariant
            cs@ == s@,
            i <= cs@.len(),
            words@.len() == words_of(s@.take(i as int)).len(),
            forall|k: int| 0 <= k < words@.len() ==> (#[trigger] words@[k])@ == words_of(s@.take(i as int))[k],
            i > 0 && !is_white(s@[i - 1]) ==> words@.len() > 0,
        decreases cs@.len() - i,
    {
        let ghost t = s@.take(i + 1);
        assert(t.drop_last() =~= s@.take(i as int));
        let c = cs[i];
        if is_whitespace(c) {
        } else if i >= 1 && !is_whitespace(cs[i - 1]) && words.len() > 0 {
            assert(t[t.len() - 2] == s@[i - 1]);
            let mut last = words.pop().unwrap();
            last.push(c);
            words.push(last);
        } else {
            proof {
                if i >= 1 {
                    assert(t[t.len() - 2] == s@[i - 1]);
                }
            }
            words.push(vec![c]);
            assert(words@[words@.len() - 1]@ =~= seq![c]);
        }
        i += 1;
        assert forall|k: int| 0 <= k < words@.len() implies (#[trigger] words@[k])@ == words_of(s@.take(i as int))[k] by {}
    }
    assert(s@.take(cs@.len() as int) =~= s@);
    let mut out: Vec<String> = Vec::new();
    let mut j: usize = 0;
    while j < words.len()
        invariant
            words@.len() == words_of(s@).len(),
            forall|k: int| 0 <= k < words@.len() ==> (#[trigger] words@[k])@ == words_of(s@)[k],
            j <= words@.len(),
            out@.len() == j,
            forall|k: int| 0 <= k < j ==> (#[trigger] out@[k])@ == words_of(s@)[k],
        decreases words@.len() - j,
    {
        let w = string_from_range(words[j].as_slice(), 0, words[j].len());
        assert(w@ =~= words@[j as int]@);
        out.push(w);
        j += 1;
    }
    out
}


/// The two texts one after the other.
pub fn concat(a: &str, b: &str) -> (r: String)
    ensures
        r@ == a@ + b@,
{
    let mut out = a.to_owned();
    let cs = chars_of(b);
    let mut i: usize = 0;
    while i < cs.len()
        invariant
            i <= cs@.len(),
            cs@ == b@,
            out@ == a@ + b@.take(i as int),
        decreases cs@.len() - i,
    {
        push_char(&mut out, cs[i]);
        i += 1;
        assert(out@ =~= a@ + b@.take(i as int));
    }
    assert(b@.take(cs@.len() as int) =~= b@);
    out
}

/// The decimal digits of a number, without leading zeros (`0` for zero).
pub open spec fn decimal(n: nat) -> Seq<char>
    decreases n,
{
    if n < 10 {
        seq![digit_char((n % 10) as nat)]
    } else {
        decimal(n / 10).push(digit_char((n % 10) as nat))
    }
}

pub open spec fn digit_char(d: nat) -> char {
    if d == 0 { '0' } else if d == 1 { '1' } else if d == 2 { '2' } else if d == 3 { '3' } else if d == 4 { '4' }
    else if d == 5 { '5' } else if d == 6 { '6' } else if d == 7 { '7' } else if d == 8 { '8' } else { '9' }
}

fn digit(d: u64) -> (r: char)
    requires
        d < 10,
    ensures
        r == digit_char(d as nat),
{
    if d == 0 { '0' } else if d == 1 { '1' } else if d == 2 { '2' } else if d == 3 { '3' } else if d == 4 { '4' }
    else if d == 5 { '5' } else if d == 6 { '6' } else if d == 7 { '7' } else if d == 8 { '8' } else { '9' }
}

/// A number written in decimal (what `format!("{}", n)` writes).
pub fn decimal_text(n: u64) -> (r: String)
    ensures
        r@ == decimal(n as nat),
    decreases n,
{
    if n < 10 {
        let mut s = String::new();
        push_char(&mut s, digit(n));
        assert(s@ =~= seq![digit_char(n as nat)]);
        s
    } else {
        let mut s = decimal_text(n / 10);
        push_char(&mut s, digit(n % 10));
        s
    }
}

/// `a`, the decimal number `n`, then `b`.
pub fn with_number(a: &str, n: u64, b: &str) -> (r: String)
    ensures
        r@ == a@ + decimal(n as nat) + b@,
{
    let d = decimal_text(n);
    let x = concat(a, d.as_str());
    concat(x.as_str(), b)
}

/// `a`, the character `c`, then `b`.
pub fn with_char(a: &str, c: char, b: &str) -> (r: String)
    ensures
        r@ == a@ + seq![c] + b@,
{
    let mut x = a.to_owned();
    push_char(&mut x, c);
    concat(x.as_str(), b)
}

} // verus!
