//! Sets of paths, held as lists in which no path occurs twice. Paths are
//! compared as std compares them, component by component
//! (`paths::same_path`); the text lists of `has_text` and `remove_text`
//! compare as text.
use vstd::prelude::*;

use crate::entries::{holds_text, DirEntry};
use crate::paths::{path_components, same_path};
use crate::text::str_eq;

verus! {

/// No text occurs twice.
pub open spec fn no_repeats(v: Seq<String>) -> bool {
    forall|k: int, l: int| 0 <= k < l < v.len() ==> (#[trigger] v[k])@ != (#[trigger] v[l])@
}

/// No path occurs twice, however spelt.
pub open spec fn no_path_repeats(v: Seq<String>) -> bool {
    forall|k: int, l: int| 0 <= k < l < v.len() ==> path_components((#[trigger] v[k])@) != path_components((#[trigger] v[l])@)
}

/// The set holds the path `y` (in some spelling).
pub open spec fn holds_path(v: Seq<String>, y: Seq<char>) -> bool {
    exists|k: int| 0 <= k < v.len() && #[trigger] path_components(v[k]@) == path_components(y)
}

/// Whether the list holds the text `p`.
pub fn has_text(v: &Vec<String>, p: &str) -> (r: bool)
    ensures
        r == holds_text(v@, p@),
{
    let mut i: usize = 0;
    while i < v.len()
        invariant
            i <= v@.len(),
            forall|k: int| 0 <= k < i ==> (#[trigger] v@[k])@ != p@,
        decreases v@.len() - i,
    {
        if str_eq(v[i].as_str(), p) {
            return true;
        }
        i += 1;
    }
    false
}

/// Takes the text `p` out of the list.
pub fn remove_text(v: &mut Vec<String>, p: &str)
    requires
        no_repeats(old(v)@),
    ensures
        no_repeats(final(v)@),
        forall|q: Seq<char>| #[trigger] holds_text(final(v)@, q) == (holds_text(old(v)@, q) && q != p@),
{
    let ghost before = v@;
    let mut out: Vec<String> = Vec::new();
    let mut i: usize = 0;
    while i < v.len()
        invariant
            v@ == before,
            i <= before.len(),
            no_repeats(before),
            forall|k: int| 0 <= k < out@.len() ==> (#[trigger] out@[k])@ != p@,
            forall|k: int| 0 <= k < out@.len() ==> exists|m: int| 0 <= m < i && (#[trigger] before[m])@ == (#[trigger] out@[k])@,
            forall|m: int| 0 <= m < i && (#[trigger] before[m])@ != p@ ==> holds_text(out@, before[m]@),
            no_repeats(out@),
        decreases before.len() - i,
    {
        if !str_eq(v[i].as_str(), p) {
            let ghost prev = out@;
            proof {
                assert forall|k: int| 0 <= k < prev.len() implies (#[trigger] prev[k])@ != before[i as int]@ by {
                    let m = choose|m: int| 0 <= m < i && (#[trigger] before[m])@ == prev[k]@;
                }
            }
            out.push(v[i].clone());
            proof {
                assert forall|m: int| 0 <= m < i + 1 && (#[trigger] before[m])@ != p@ implies holds_text(out@, before[m]@) by {
                    if m == i {
                        assert(out@[prev.len() as int]@ == before[m]@);
                    } else {
                        let k = choose|k: int| 0 <= k < prev.len() && #[trigger] prev[k]@ == before[m]@;
                        assert(out@[k]@ == before[m]@);
                    }
                }
                assert forall|k: int| 0 <= k < out@.len() implies exists|m: int| 0 <= m < i + 1 && (#[trigger] before[m])@ == (#[trigger] out@[k])@ by {
                    if k == prev.len() {
                        assert(before[i as int]@ == out@[k]@);
                    } else {
                        let m = choose|m: int| 0 <= m < i && (#[trigger] before[m])@ == prev[k]@;
                        assert(before[m]@ == out@[k]@);
                    }
                }
            }
        }
        i += 1;
    }
    proof {
        assert forall|q: Seq<char>| #[trigger] holds_text(out@, q) == (holds_text(before, q) && q != p@) by {
            if holds_text(out@, q) {
                let k = choose|k: int| 0 <= k < out@.len() && #[trigger] out@[k]@ == q;
                let m = choose|m: int| 0 <= m < before.len() && (#[trigger] before[m])@ == out@[k]@;
            }
            if holds_text(before, q) && q != p@ {
                let m = choose|m: int| 0 <= m < before.len() && #[trigger] before[m]@ == q;
            }
        }
    }
    *v = out;
}

/// Whether the set holds the path `p`.
pub fn has_path(v: &Vec<String>, p: &str) -> (r: bool)
    ensures
        r == holds_path(v@, p@),
{
    let mut i: usize = 0;
    while i < v.len()
        invariant
            i <= v@.len(),
            forall|k: int| 0 <= k < i ==> path_components((#[trigger] v@[k])@) != path_components(p@),
        decreases v@.len() - i,
    {
        if same_path(v[i].as_str(), p) {
            return true;
        }
        i += 1;
    }
    false
}

/// Adds `p` to the set, where it is not yet there.
pub fn add_path(v: &mut Vec<String>, p: &str)
    requires
        no_path_repeats(old(v)@),
    ensures
        no_path_repeats(final(v)@),
        forall|q: Seq<char>| #[trigger] holds_path(final(v)@, q) == (holds_path(old(v)@, q) || path_components(q) == path_components(p@)),
{
    if !has_path(v, p) {
        let ghost before = v@;
        v.push(p.to_owned());
        proof {
            assert forall|q: Seq<char>| #[trigger] holds_path(v@, q) == (holds_path(before, q) || path_components(q) == path_components(p@)) by {
                if holds_path(before, q) {
                    let k = choose|k: int| 0 <= k < before.len() && #[trigger] path_components(before[k]@) == path_components(q);
                    assert(v@[k]@ == before[k]@);
                }
                if path_components(q) == path_components(p@) {
                    assert(v@[before.len() as int]@ == p@);
                }
                if holds_path(v@, q) {
                    let k = choose|k: int| 0 <= k < v@.len() && #[trigger] path_components(v@[k]@) == path_components(q);
                    if k < before.len() {
                        assert(before[k]@ == v@[k]@);
                    }
                }
            }
            assert forall|k: int, l: int| 0 <= k < l < v@.len() implies path_components((#[trigger] v@[k])@) != path_components((#[trigger] v@[l])@) by {
                if l == before.len() {
                    assert(before[k]@ == v@[k]@);
                } else {
                    assert(before[k]@ == v@[k]@ && before[l]@ == v@[l]@);
                }
            }
        }
    }
}

/// Takes the path `p` (in any spelling) out of the set.
pub fn remove_path(v: &mut Vec<String>, p: &str)
    requires
        no_path_repeats(old(v)@),
    ensures
        no_path_repeats(final(v)@),
        forall|q: Seq<char>| #[trigger] holds_path(final(v)@, q) == (holds_path(old(v)@, q) && path_components(q) != path_components(p@)),
{
    let ghost before = v@;
    let mut out: Vec<String> = Vec::new();
    let mut i: usize = 0;
    while i < v.len()
        invariant
            v@ == before,
            i <= before.len(),
            no_path_repeats(before),
            forall|k: int| 0 <= k < out@.len() ==> path_components((#[trigger] out@[k])@) != path_components(p@),
            forall|k: int| 0 <= k < out@.len() ==> exists|m: int| 0 <= m < i && (#[trigger] before[m])@ == (#[trigger] out@[k])@,
            forall|m: int| 0 <= m < i && path_components((#[trigger] before[m])@) != path_components(p@) ==> holds_path(out@, before[m]@),
            no_path_repeats(out@),
        decreases before.len() - i,
    {
        if !same_path(v[i].as_str(), p) {
            let ghost prev = out@;
            proof {
                assert forall|k: int| 0 <= k < prev.len() implies path_components((#[trigger] prev[k])@) != path_components(before[i as int]@) by {
                    let m = choose|m: int| 0 <= m < i && (#[trigger] before[m])@ == prev[k]@;
                }
            }
            out.push(v[i].clone());
            proof {
                assert forall|m: int| 0 <= m < i + 1 && path_components((#[trigger] before[m])@) != path_components(p@) implies holds_path(out@, before[m]@) by {
                    if m == i {
                        assert(out@[prev.len() as int]@ == before[m]@);
                    } else {
                        let k = choose|k: int| 0 <= k < prev.len() && #[trigger] path_components(prev[k]@) == path_components(before[m]@);
                        assert(out@[k]@ == prev[k]@);
                    }
                }
                assert forall|k: int| 0 <= k < out@.len() implies exists|m: int| 0 <= m < i + 1 && (#[trigger] before[m])@ == (#[trigger] out@[k])@ by {
                    if k == prev.len() {
                        assert(before[i as int]@ == out@[k]@);
                    } else {
                        let m = choose|m: int| 0 <= m < i && (#[trigger] before[m])@ == prev[k]@;
                        assert(before[m]@ == out@[k]@);
                    }
                }
                assert forall|k: int, l: int| 0 <= k < l < out@.len() implies path_components((#[trigger] out@[k])@) != path_components((#[trigger] out@[l])@) by {
                    if l == prev.len() {
                        assert(out@[k]@ == prev[k]@);
                    } else {
                        assert(out@[k]@ == prev[k]@ && out@[l]@ == prev[l]@);
                    }
                }
            }
        }
        i += 1;
    }
    proof {
        assert forall|q: Seq<char>| #[trigger] holds_path(out@, q) == (holds_path(before, q) && path_components(q) != path_components(p@)) by {
            if holds_path(out@, q) {
                let k = choose|k: int| 0 <= k < out@.len() && #[trigger] path_components(out@[k]@) == path_components(q);
                let m = choose|m: int| 0 <= m < before.len() && (#[trigger] before[m])@ == out@[k]@;
                assert(path_components(before[m]@) == path_components(q));
            }
            if holds_path(before, q) && path_components(q) != path_components(p@) {
                let m = choose|m: int| 0 <= m < before.len() && #[trigger] path_components(before[m]@) == path_components(q);
                assert(holds_path(out@, before[m]@));
                let k = choose|k: int| 0 <= k < out@.len() && #[trigger] path_components(out@[k]@) == path_components(before[m]@);
            }
        }
    }
    *v = out;
}

/// Adds the path `p` where it is missing, else takes it out.
pub fn toggle_path(v: &mut Vec<String>, p: &str)
    requires
        no_path_repeats(old(v)@),
    ensures
        no_path_repeats(final(v)@),
        forall|q: Seq<char>| #[trigger] holds_path(final(v)@, q) == (if path_components(q) == path_components(p@) { !holds_path(old(v)@, q) } else { holds_path(old(v)@, q) }),
{
    let ghost before = v@;
    if has_path(v, p) {
        remove_path(v, p);
    } else {
        add_path(v, p);
    }
    proof {
        assert forall|q: Seq<char>| #[trigger] holds_path(v@, q) == (if path_components(q) == path_components(p@) { !holds_path(before, q) } else { holds_path(before, q) }) by {
            if path_components(q) == path_components(p@) {
                if holds_path(before, p@) {
                    let k = choose|k: int| 0 <= k < before.len() && #[trigger] path_components(before[k]@) == path_components(p@);
                    assert(path_components(before[k]@) == path_components(q));
                }
                if holds_path(before, q) {
                    let k = choose|k: int| 0 <= k < before.len() && #[trigger] path_components(before[k]@) == path_components(q);
                    assert(path_components(before[k]@) == path_components(p@));
                }
            }
        }
    }
}

/// The paths of `es[lo..=hi]`, each once.
pub fn range_paths(es: &Vec<DirEntry>, lo: usize, hi: usize) -> (r: Vec<String>)
    requires
        lo <= hi < es@.len(),
    ensures
        no_path_repeats(r@),
        forall|q: Seq<char>| #[trigger] holds_path(r@, q) == exists|i: int| lo <= i <= hi && path_components((#[trigger] es@[i]).path@) == path_components(q),
{
    let n: usize = es.len();
    let mut out: Vec<String> = Vec::new();
    let mut i: usize = lo;
    while i <= hi
        invariant
            lo <= i <= hi + 1,
            hi < es@.len(),
            es@.len() == n,
            no_path_repeats(out@),
            forall|q: Seq<char>| #[trigger] holds_path(out@, q) == exists|j: int| lo <= j < i && path_components((#[trigger] es@[j]).path@) == path_components(q),
        decreases hi + 1 - i,
    {
        let ghost prev = out@;
        add_path(&mut out, es[i].path.as_str());
        proof {
            assert forall|q: Seq<char>| #[trigger] holds_path(out@, q) == exists|j: int| lo <= j < i + 1 && path_components((#[trigger] es@[j]).path@) == path_components(q) by {
                if holds_path(prev, q) {
                    let j = choose|j: int| lo <= j < i && path_components((#[trigger] es@[j]).path@) == path_components(q);
                }
                if exists|j: int| lo <= j < i + 1 && path_components((#[trigger] es@[j]).path@) == path_components(q) {
                    let j = choose|j: int| lo <= j < i + 1 && path_components((#[trigger] es@[j]).path@) == path_components(q);
                    if j < i {
                        assert(holds_path(prev, q));
                    }
                }
            }
        }
        i += 1;
    }
    out
}

/// Toggles the paths that are in one of `fresh` and `stale` but not both:
/// the set becomes itself flipped by the difference of the two.
pub fn toggle_difference(selected: &mut Vec<String>, fresh: &Vec<String>, stale: &Vec<String>)
    requires
        no_path_repeats(old(selected)@),
        no_path_repeats(fresh@),
        no_path_repeats(stale@),
    ensures
        no_path_repeats(final(selected)@),
        forall|q: Seq<char>| #[trigger] holds_path(final(selected)@, q) == (holds_path(old(selected)@, q) != (holds_path(fresh@, q) != holds_path(stale@, q))),
{
    let ghost start = selected@;
    let mut i: usize = 0;
    while i < fresh.len()
        invariant
            i <= fresh@.len(),
            no_path_repeats(fresh@),
            no_path_repeats(selected@),
            forall|q: Seq<char>| #[trigger] holds_path(selected@, q) == (holds_path(start, q) != (holds_path(fresh@.take(i as int), q) && !holds_path(stale@, q))),
        decreases fresh@.len() - i,
    {
        let ghost prev = selected@;
        let p = &fresh[i];
        let fresh_here = !has_path(stale, p.as_str());
        if fresh_here {
            toggle_path(selected, p.as_str());
        }
        proof {
            let t = fresh@.take(i + 1);
            let f = fresh@[i as int]@;
            assert forall|q: Seq<char>| #[trigger] holds_path(t, q) == (holds_path(fresh@.take(i as int), q) || path_components(q) == path_components(f)) by {
                if holds_path(t, q) {
                    let k = choose|k: int| 0 <= k < t.len() && #[trigger] path_components(t[k]@) == path_components(q);
                    if k < i {
                        assert(fresh@.take(i as int)[k]@ == t[k]@);
                    }
                }
                if holds_path(fresh@.take(i as int), q) {
                    let k = choose|k: int| 0 <= k < i && #[trigger] path_components(fresh@.take(i as int)[k]@) == path_components(q);
                    assert(t[k]@ == fresh@.take(i as int)[k]@);
                }
                if path_components(q) == path_components(f) {
                    assert(t[i as int]@ == f);
                }
            }
            assert(!holds_path(fresh@.take(i as int), f)) by {
                if holds_path(fresh@.take(i as int), f) {
                    let k = choose|k: int| 0 <= k < i && #[trigger] path_components(fresh@.take(i as int)[k]@) == path_components(f);
                    assert(fresh@[k]@ == fresh@.take(i as int)[k]@);
                }
            }
            assert forall|q: Seq<char>| #[trigger] holds_path(selected@, q) == (holds_path(start, q) != (holds_path(t, q) && !holds_path(stale@, q))) by {
                if path_components(q) == path_components(f) {
                    assert(holds_path(stale@, q) == holds_path(stale@, f)) by {
                        if holds_path(stale@, q) {
                            let k = choose|k: int| 0 <= k < stale@.len() && #[trigger] path_components(stale@[k]@) == path_components(q);
                        }
                        if holds_path(stale@, f) {
                            let k = choose|k: int| 0 <= k < stale@.len() && #[trigger] path_components(stale@[k]@) == path_components(f);
                        }
                    }
                    assert(holds_path(fresh@.take(i as int), q) == holds_path(fresh@.take(i as int), f)) by {
                        if holds_path(fresh@.take(i as int), q) {
                            let k = choose|k: int| 0 <= k < i && #[trigger] path_components(fresh@.take(i as int)[k]@) == path_components(q);
                        }
                    }
                    assert(holds_path(prev, q) == holds_path(prev, f)) by {
                        if holds_path(prev, q) {
                            let k = choose|k: int| 0 <= k < prev.len() && #[trigger] path_components(prev[k]@) == path_components(q);
                        }
                        if holds_path(prev, f) {
                            let k = choose|k: int| 0 <= k < prev.len() && #[trigger] path_components(prev[k]@) == path_components(f);
                        }
                    }
                    assert(holds_path(start, q) == holds_path(start, f)) by {
                        if holds_path(start, q) {
                            let k = choose|k: int| 0 <= k < start.len() && #[trigger] path_components(start[k]@) == path_components(q);
                        }
                        if holds_path(start, f) {
                            let k = choose|k: int| 0 <= k < start.len() && #[trigger] path_components(start[k]@) == path_components(f);
                        }
                    }
                }
            }
        }
        i += 1;
    }
    assert(fresh@.take(fresh@.len() as int) =~= fresh@);
    let ghost mid = selected@;
    let mut j: usize = 0;
    while j < stale.len()
        invariant
            j <= stale@.len(),
            no_path_repeats(stale@),
            no_path_repeats(selected@),
            forall|q: Seq<char>| #[trigger] holds_path(mid, q) == (holds_path(start, q) != (holds_path(fresh@, q) && !holds_path(stale@, q))),
            forall|q: Seq<char>| #[trigger] holds_path(selected@, q) == (holds_path(mid, q) != (holds_path(stale@.take(j as int), q) && !holds_path(fresh@, q))),
        decreases stale@.len() - j,
    {
        let ghost prev = selected@;
        let p = &stale[j];
        if !has_path(fresh, p.as_str()) {
            toggle_path(selected, p.as_str());
        }
        proof {
            let t = stale@.take(j + 1);
            let f = stale@[j as int]@;
            assert forall|q: Seq<char>| #[trigger] holds_path(t, q) == (holds_path(stale@.take(j as int), q) || path_components(q) == path_components(f)) by {
                if holds_path(t, q) {
                    let k = choose|k: int| 0 <= k < t.len() && #[trigger] path_components(t[k]@) == path_components(q);
                    if k < j {
                        assert(stale@.take(j as int)[k]@ == t[k]@);
                    }
                }
                if holds_path(stale@.take(j as int), q) {
                    let k = choose|k: int| 0 <= k < j && #[trigger] path_components(stale@.take(j as int)[k]@) == path_components(q);
                    assert(t[k]@ == stale@.take(j as int)[k]@);
                }
                if path_components(q) == path_components(f) {
                    assert(t[j as int]@ == f);
                }
            }
            assert(!holds_path(stale@.take(j as int), f)) by {
                if holds_path(stale@.take(j as int), f) {
                    let k = choose|k: int| 0 <= k < j && #[trigger] path_components(stale@.take(j as int)[k]@) == path_components(f);
                    assert(stale@[k]@ == stale@.take(j as int)[k]@);
                }
            }
            assert forall|q: Seq<char>| #[trigger] holds_path(selected@, q) == (holds_path(mid, q) != (holds_path(t, q) && !holds_path(fresh@, q))) by {
                if path_components(q) == path_components(f) {
                    assert(holds_path(fresh@, q) == holds_path(fresh@, f)) by {
                        if holds_path(fresh@, q) {
                            let k = choose|k: int| 0 <= k < fresh@.len() && #[trigger] path_components(fresh@[k]@) == path_components(q);
                        }
                        if holds_path(fresh@, f) {
                            let k = choose|k: int| 0 <= k < fresh@.len() && #[trigger] path_components(fresh@[k]@) == path_components(f);
                        }
                    }
                    assert(holds_path(stale@.take(j as int), q) == holds_path(stale@.take(j as int), f)) by {
                        if holds_path(stale@.take(j as int), q) {
                            let k = choose|k: int| 0 <= k < j && #[trigger] path_components(stale@.take(j as int)[k]@) == path_components(q);
                        }
                    }
                    assert(holds_path(prev, q) == holds_path(prev, f)) by {
                        if holds_path(prev, q) {
                            let k = choose|k: int| 0 <= k < prev.len() && #[trigger] path_components(prev[k]@) == path_components(q);
                        }
                        if holds_path(prev, f) {
                            let k = choose|k: int| 0 <= k < prev.len() && #[trigger] path_components(prev[k]@) == path_components(f);
                        }
                    }
                    assert(holds_path(mid, q) == holds_path(mid, f)) by {
                        if holds_path(mid, q) {
                            let k = choose|k: int| 0 <= k < mid.len() && #[trigger] path_components(mid[k]@) == path_components(q);
                        }
                        if holds_path(mid, f) {
                            let k = choose|k: int| 0 <= k < mid.len() && #[trigger] path_components(mid[k]@) == path_components(f);
                        }
                    }
                }
            }
        }
        j += 1;
    }
    assert(stale@.take(stale@.len() as int) =~= stale@);
}

} // verus!
