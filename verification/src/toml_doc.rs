use vstd::prelude::*;

verus! {

/// A TOML document as the library reads it: one node of the tree.
/// Tables keep their entries in order; a float and a datetime are kept by
/// their text, so that neither is altered on the way through.
#[derive(Debug)]
pub enum TomlValue {
    String(String),
    Integer(i64),
    Float(String),
    Boolean(bool),
    Datetime(String),
    Array(Vec<TomlValue>),
    Table(Vec<(String, TomlValue)>),
}

/// The mathematical model of a `TomlValue`.
pub ghost enum TomlDoc {
    String(Seq<char>),
    Integer(int),
    Float(Seq<char>),
    Boolean(bool),
    Datetime(Seq<char>),
    Array(Seq<TomlDoc>),
    Table(Seq<(Seq<char>, TomlDoc)>),
}

pub open spec fn doc_of(v: TomlValue) -> TomlDoc
    decreases v,
{
    match v {
        TomlValue::String(s) => TomlDoc::String(s@),
        TomlValue::Integer(i) => TomlDoc::Integer(i as int),
        TomlValue::Float(b) => TomlDoc::Float(b@),
        TomlValue::Boolean(b) => TomlDoc::Boolean(b),
        TomlValue::Datetime(s) => TomlDoc::Datetime(s@),
        TomlValue::Array(a) => TomlDoc::Array(docs_of(a@)),
        TomlValue::Table(t) => TomlDoc::Table(entry_docs_of(t@)),
    }
}

pub open spec fn docs_of(a: Seq<TomlValue>) -> Seq<TomlDoc>
    decreases a,
{
    if a.len() == 0 {
        Seq::empty()
    } else {
        docs_of(a.drop_last()).push(doc_of(a.last()))
    }
}

pub open spec fn entry_docs_of(t: Seq<(String, TomlValue)>) -> Seq<(Seq<char>, TomlDoc)>
    decreases t,
{
    if t.len() == 0 {
        Seq::empty()
    } else {
        entry_docs_of(t.drop_last()).push((t.last().0@, doc_of(t.last().1)))
    }
}

pub proof fn lemma_docs_of(a: Seq<TomlValue>)
    ensures
        docs_of(a).len() == a.len(),
        forall|i: int| 0 <= i < a.len() ==> #[trigger] docs_of(a)[i] == doc_of(a[i]),
    decreases a.len(),
{
    if a.len() > 0 {
        lemma_docs_of(a.drop_last());
    }
}

pub proof fn lemma_entry_docs_of(t: Seq<(String, TomlValue)>)
    ensures
        entry_docs_of(t).len() == t.len(),
        forall|i: int|
            0 <= i < t.len() ==> #[trigger] entry_docs_of(t)[i] == (t[i].0@, doc_of(t[i].1)),
    decreases t.len(),
{
    if t.len() > 0 {
        lemma_entry_docs_of(t.drop_last());
    }
}

/// Two documents that agree element by element have the same model.
pub proof fn lemma_docs_ext(a: Seq<TomlValue>, b: Seq<TomlDoc>)
    requires
        a.len() == b.len(),
        forall|i: int| 0 <= i < a.len() ==> doc_of(#[trigger] a[i]) == b[i],
    ensures
        docs_of(a) == b,
{
    lemma_docs_of(a);
    assert(docs_of(a) =~= b);
}

pub proof fn lemma_entry_docs_ext(t: Seq<(String, TomlValue)>, b: Seq<(Seq<char>, TomlDoc)>)
    requires
        t.len() == b.len(),
        forall|i: int| 0 <= i < t.len() ==> (#[trigger] t[i]).0@ == b[i].0 && doc_of(t[i].1) == b[i].1,
    ensures
        entry_docs_of(t) == b,
{
    lemma_entry_docs_of(t);
    assert(entry_docs_of(t) =~= b);
}

/// A copy of `v` with the same model.
pub fn deep_copy(v: &TomlValue) -> (r: TomlValue)
    ensures
        doc_of(r) == doc_of(*v),
    decreases v,
{
    match v {
        TomlValue::String(s) => TomlValue::String(s.clone()),
        TomlValue::Integer(i) => TomlValue::Integer(*i),
        TomlValue::Float(b) => TomlValue::Float(b.clone()),
        TomlValue::Boolean(b) => TomlValue::Boolean(*b),
        TomlValue::Datetime(s) => TomlValue::Datetime(s.clone()),
        TomlValue::Array(a) => {
            let mut out: Vec<TomlValue> = Vec::new();
            let mut i: usize = 0;
            while i < a.len()
                invariant
                    *v == TomlValue::Array(*a),
                    i <= a@.len(),
                    out@.len() == i,
                    forall|j: int| 0 <= j < i ==> doc_of(#[trigger] out@[j]) == doc_of(a@[j]),
                decreases a@.len() - i,
            {
                proof {
                    vstd::std_specs::vec::axiom_vec_index_decreases(*a, i as int);
                    assert(decreases_to!(*v => v->Array_0));
                    assert(decreases_to!(*a => a[i as int]));
                }
                let c = deep_copy(&a[i]);
                out.push(c);
                i += 1;
            }
            proof {
                lemma_docs_of(a@);
                lemma_docs_ext(out@, docs_of(a@));
            }
            TomlValue::Array(out)
        },
        TomlValue::Table(t) => {
            let mut out: Vec<(String, TomlValue)> = Vec::new();
            let mut i: usize = 0;
            while i < t.len()
                invariant
                    *v == TomlValue::Table(*t),
                    i <= t@.len(),
                    out@.len() == i,
                    forall|j: int|
                        0 <= j < i ==> (#[trigger] out@[j]).0@ == t@[j].0@ && doc_of(out@[j].1)
                            == doc_of(t@[j].1),
                decreases t@.len() - i,
            {
                proof {
                    vstd::std_specs::vec::axiom_vec_index_decreases(*t, i as int);
                    assert(decreases_to!(*v => v->Table_0));
                    assert(decreases_to!(*t => t[i as int]));
                    assert(decreases_to!(t[i as int] => t[i as int].1));
                }
                let c = deep_copy(&t[i].1);
                out.push((t[i].0.clone(), c));
                i += 1;
            }
            proof {
                lemma_entry_docs_of(t@);
                lemma_entry_docs_ext(out@, entry_docs_of(t@));
            }
            TomlValue::Table(out)
        },
    }
}

/// The entries of a table model.
pub type DocEntries = Seq<(Seq<char>, TomlDoc)>;

/// Both values are of the same TOML kind (string, integer, float, boolean,
/// datetime, array or table).
pub open spec fn same_kind(a: TomlDoc, b: TomlDoc) -> bool {
    match (a, b) {
        (TomlDoc::String(_), TomlDoc::String(_)) => true,
        (TomlDoc::Integer(_), TomlDoc::Integer(_)) => true,
        (TomlDoc::Float(_), TomlDoc::Float(_)) => true,
        (TomlDoc::Boolean(_), TomlDoc::Boolean(_)) => true,
        (TomlDoc::Datetime(_), TomlDoc::Datetime(_)) => true,
        (TomlDoc::Array(_), TomlDoc::Array(_)) => true,
        (TomlDoc::Table(_), TomlDoc::Table(_)) => true,
        _ => false,
    }
}

/// The position of the first entry of `t` whose key is `k`.
pub open spec fn find_key(t: DocEntries, k: Seq<char>) -> Option<int>
    decreases t.len(),
{
    if t.len() == 0 {
        None
    } else {
        match find_key(t.drop_last(), k) {
            Some(i) => Some(i),
            None => if t.last().0 == k {
                Some(t.len() - 1)
            } else {
                None
            },
        }
    }
}

pub proof fn lemma_find_key(t: DocEntries, k: Seq<char>)
    ensures
        match find_key(t, k) {
            Some(i) => 0 <= i < t.len() && t[i].0 == k && forall|j: int|
                0 <= j < i ==> (#[trigger] t[j]).0 != k,
            None => forall|j: int| 0 <= j < t.len() ==> (#[trigger] t[j]).0 != k,
        },
    decreases t.len(),
{
    if t.len() > 0 {
        lemma_find_key(t.drop_last(), k);
        let d = t.drop_last();
        assert forall|j: int| 0 <= j < d.len() implies d[j] == t[j] by {}
    }
}

/// `d` is a well-formed document: no table holds the same key twice.
pub open spec fn doc_wf(d: TomlDoc) -> bool
    decreases d,
{
    match d {
        TomlDoc::Array(a) => items_wf(a),
        TomlDoc::Table(t) => entries_wf(t),
        _ => true,
    }
}

pub open spec fn items_wf(a: Seq<TomlDoc>) -> bool
    decreases a,
{
    a.len() == 0 || (items_wf(a.drop_last()) && doc_wf(a.last()))
}

pub open spec fn entries_wf(t: DocEntries) -> bool
    decreases t,
{
    t.len() == 0 || (entries_wf(t.drop_last()) && find_key(t.drop_last(), t.last().0) is None
        && doc_wf(t.last().1))
}

pub proof fn lemma_items_wf(a: Seq<TomlDoc>, i: int)
    requires
        items_wf(a),
        0 <= i < a.len(),
    ensures
        doc_wf(a[i]),
    decreases a.len(),
{
    if i < a.len() - 1 {
        lemma_items_wf(a.drop_last(), i);
    }
}

pub proof fn lemma_entries_wf(t: DocEntries, i: int)
    requires
        entries_wf(t),
        0 <= i < t.len(),
    ensures
        doc_wf(t[i].1),
        forall|j: int| 0 <= j < t.len() && j != i ==> (#[trigger] t[j]).0 != t[i].0,
    decreases t.len(),
{
    let d = t.drop_last();
    if i < t.len() - 1 {
        lemma_entries_wf(d, i);
        lemma_find_key(d, t.last().0);
        assert forall|j: int| 0 <= j < t.len() && j != i implies (#[trigger] t[j]).0 != t[i].0 by {
            if j < t.len() - 1 {
                assert(t[j] == d[j]);
            }
        }
    } else {
        lemma_find_key(d, t.last().0);
        assert forall|j: int| 0 <= j < t.len() && j != i implies (#[trigger] t[j]).0 != t[i].0 by {
            assert(t[j] == d[j]);
        }
    }
}

/// The document `cur` repaired against `def`: every key that `def` holds and
/// `cur` lacks is added with its default value, every value whose kind
/// differs from the default's is replaced by the default, and every element
/// of an array is repaired against the first element of the default array.
pub open spec fn heal_doc(cur: TomlDoc, def: TomlDoc) -> TomlDoc
    decreases def, 0int,
{
    match def {
        TomlDoc::Table(dt) => match cur {
            TomlDoc::Table(ct) => TomlDoc::Table(heal_entries(ct, dt)),
            _ => def,
        },
        TomlDoc::Array(da) => match cur {
            TomlDoc::Array(ca) => if da.len() == 0 {
                cur
            } else {
                TomlDoc::Array(heal_items(ca, da[0]))
            },
            _ => def,
        },
        _ => if same_kind(cur, def) {
            cur
        } else {
            def
        },
    }
}

/// The entries `ct` after the keys of `dt` have been repaired in order.
pub open spec fn heal_entries(ct: DocEntries, dt: DocEntries) -> DocEntries
    decreases dt, 0int,
{
    if dt.len() == 0 {
        ct
    } else {
        let t = heal_entries(ct, dt.drop_last());
        let k = dt.last().0;
        let dv = dt.last().1;
        match find_key(t, k) {
            Some(i) => t.update(i, (k, heal_doc(t[i].1, dv))),
            None => t.push((k, dv)),
        }
    }
}

/// Every element of `ca` repaired against `template`.
pub open spec fn heal_items(ca: Seq<TomlDoc>, template: TomlDoc) -> Seq<TomlDoc>
    decreases template, ca.len(),
{
    if ca.len() == 0 {
        ca
    } else {
        heal_items(ca.drop_last(), template).push(heal_doc(ca.last(), template))
    }
}

pub proof fn lemma_heal_items(ca: Seq<TomlDoc>, template: TomlDoc)
    ensures
        heal_items(ca, template).len() == ca.len(),
        forall|i: int|
            0 <= i < ca.len() ==> #[trigger] heal_items(ca, template)[i] == heal_doc(
                ca[i],
                template,
            ),
    decreases ca.len(),
{
    if ca.len() > 0 {
        lemma_heal_items(ca.drop_last(), template);
    }
}

/// Whether `a` and `b` hold values of the same TOML kind.
pub fn same_toml_type(a: &TomlValue, b: &TomlValue) -> (r: bool)
    ensures
        r == same_kind(doc_of(*a), doc_of(*b)),
{
    match (a, b) {
        (TomlValue::String(_), TomlValue::String(_)) => true,
        (TomlValue::Integer(_), TomlValue::Integer(_)) => true,
        (TomlValue::Float(_), TomlValue::Float(_)) => true,
        (TomlValue::Boolean(_), TomlValue::Boolean(_)) => true,
        (TomlValue::Datetime(_), TomlValue::Datetime(_)) => true,
        (TomlValue::Array(_), TomlValue::Array(_)) => true,
        (TomlValue::Table(_), TomlValue::Table(_)) => true,
        _ => false,
    }
}

/// The position of the first entry of `t` whose key is `k`.
pub fn find_entry(t: &Vec<(String, TomlValue)>, k: &str) -> (r: Option<usize>)
    ensures
        match r {
            Some(i) => find_key(entry_docs_of(t@), k@) == Some(i as int),
            None => find_key(entry_docs_of(t@), k@) is None,
        },
{
    proof {
        lemma_entry_docs_of(t@);
        lemma_find_key(entry_docs_of(t@), k@);
    }
    let mut i: usize = 0;
    while i < t.len()
        invariant
            i <= t@.len(),
            entry_docs_of(t@).len() == t@.len(),
            forall|j: int|
                0 <= j < t@.len() ==> #[trigger] entry_docs_of(t@)[j] == (t@[j].0@, doc_of(t@[j].1)),
            forall|j: int| 0 <= j < i ==> (#[trigger] t@[j]).0@ != k@,
            match find_key(entry_docs_of(t@), k@) {
                Some(i) => 0 <= i < t.len() && entry_docs_of(t@)[i].0 == k@ && forall|j: int|
                    0 <= j < i ==> (#[trigger] entry_docs_of(t@)[j]).0 != k@,
                None => forall|j: int|
                    0 <= j < t.len() ==> (#[trigger] entry_docs_of(t@)[j]).0 != k@,
            },
        decreases t@.len() - i,
    {
        if crate::text::str_eq(t[i].0.as_str(), k) {
            assert(entry_docs_of(t@)[i as int].0 == k@);
            return Some(i);
        }
        i += 1;
    }
    None
}

/// What repairing entries does to positions: keys in place stay, a value that
/// changed belongs to a key of `dt`, and every added entry carries a key of `dt`.
pub proof fn lemma_heal_entries_shape(ct: DocEntries, dt: DocEntries)
    ensures
        heal_entries(ct, dt).len() >= ct.len(),
        forall|p: int| 0 <= p < ct.len() ==> (#[trigger] heal_entries(ct, dt)[p]).0 == ct[p].0,
        forall|p: int|
            0 <= p < ct.len() && #[trigger] heal_entries(ct, dt)[p] != ct[p] ==> exists|q: int|
                0 <= q < dt.len() && (#[trigger] dt[q]).0 == ct[p].0,
        forall|p: int|
            ct.len() <= p < heal_entries(ct, dt).len() ==> exists|q: int|
                0 <= q < dt.len() && (#[trigger] dt[q]).0 == (#[trigger] heal_entries(ct, dt)[p]).0,
    decreases dt.len(),
{
    if dt.len() > 0 {
        let d = dt.drop_last();
        lemma_heal_entries_shape(ct, d);
        let t = heal_entries(ct, d);
        let h = heal_entries(ct, dt);
        let k = dt.last().0;
        lemma_find_key(t, k);
        assert forall|q: int| 0 <= q < d.len() implies d[q] == dt[q] by {}
        assert forall|p: int| 0 <= p < ct.len() && #[trigger] h[p] != ct[p] implies exists|q: int|
            0 <= q < dt.len() && (#[trigger] dt[q]).0 == ct[p].0 by {
            if h[p] == t[p] {
                let q = choose|q: int| 0 <= q < d.len() && (#[trigger] d[q]).0 == ct[p].0;
                assert(dt[q] == d[q]);
            } else {
                assert(dt[dt.len() - 1].0 == ct[p].0);
            }
        }
        assert forall|p: int| ct.len() <= p < h.len() implies exists|q: int|
            0 <= q < dt.len() && (#[trigger] dt[q]).0 == (#[trigger] h[p]).0 by {
            if p < t.len() {
                let q = choose|q: int| 0 <= q < d.len() && (#[trigger] d[q]).0 == t[p].0;
                assert(dt[q] == d[q]);
            } else {
                assert(dt[dt.len() - 1].0 == h[p].0);
            }
        }
    }
}

/// One more repaired key leaves the entries different from `ct` exactly when
/// they differed before or this key changed something.
pub proof fn lemma_heal_entries_step(ct: DocEntries, dt: DocEntries, j: int)
    requires
        entries_wf(dt),
        0 <= j < dt.len(),
    ensures
        ({
            let t = heal_entries(ct, dt.take(j));
            let k = dt[j].0;
            let dv = dt[j].1;
            &&& heal_entries(ct, dt.take(j + 1)) == match find_key(t, k) {
                Some(i) => t.update(i, (k, heal_doc(t[i].1, dv))),
                None => t.push((k, dv)),
            }
            &&& (heal_entries(ct, dt.take(j + 1)) != ct) == (t != ct || match find_key(t, k) {
                Some(i) => heal_doc(t[i].1, dv) != t[i].1,
                None => true,
            })
        }),
{
    let d = dt.take(j);
    let t = heal_entries(ct, d);
    let k = dt[j].0;
    let dv = dt[j].1;
    assert(dt.take(j + 1).drop_last() =~= d);
    let h = heal_entries(ct, dt.take(j + 1));
    lemma_find_key(t, k);
    lemma_heal_entries_shape(ct, d);
    lemma_entries_wf(dt, j);
    match find_key(t, k) {
        Some(i) => {
            if heal_doc(t[i].1, dv) == t[i].1 {
                assert(h =~= t);
            } else {
                if i >= ct.len() {
                    let q = choose|q: int| 0 <= q < d.len() && (#[trigger] d[q]).0 == t[i].0;
                    assert(d[q] == dt[q]);
                } else {
                    if t[i] != ct[i] {
                        let q = choose|q: int| 0 <= q < d.len() && (#[trigger] d[q]).0 == ct[i].0;
                        assert(d[q] == dt[q]);
                    }
                    assert(h[i] != ct[i]);
                }
            }
        },
        None => {
            assert(h.len() > ct.len());
        },
    }
}

pub proof fn lemma_heal_kind(cur: TomlDoc, def: TomlDoc)
    ensures
        !same_kind(cur, def) ==> cur != def,
{
}

/// `cur` repaired against `def`, as a new value, with whether anything changed.
pub fn heal_copy(cur: &TomlValue, def: &TomlValue) -> (r: (TomlValue, bool))
    requires
        doc_wf(doc_of(*def)),
    ensures
        doc_of(r.0) == heal_doc(doc_of(*cur), doc_of(*def)),
        r.1 == (doc_of(r.0) != doc_of(*cur)),
    decreases def,
{
    match def {
        TomlValue::Table(dt) => {
            match cur {
                TomlValue::Table(ct) => {
                    let ghost cd = entry_docs_of(ct@);
                    let ghost dd = entry_docs_of(dt@);
                    let copy = deep_copy(cur);
                    let mut entries = match copy {
                        TomlValue::Table(e) => e,
                        _ => Vec::new(),
                    };
                    let mut changed = false;
                    let mut j: usize = 0;
                    proof {
                        lemma_entry_docs_of(dt@);
                        assert(dd.take(0) =~= Seq::<(Seq<char>, TomlDoc)>::empty());
                    }
                    while j < dt.len()
                        invariant
                            *def == TomlValue::Table(*dt),
                            doc_wf(doc_of(*def)),
                            dd == entry_docs_of(dt@),
                            dd.len() == dt@.len(),
                            forall|q: int|
                                0 <= q < dt@.len() ==> #[trigger] dd[q] == (dt@[q].0@, doc_of(dt@[q].1)),
                            entries_wf(dd),
                            j <= dt@.len(),
                            entry_docs_of(entries@) == heal_entries(cd, dd.take(j as int)),
                            changed == (entry_docs_of(entries@) != cd),
                        decreases dt@.len() - j,
                    {
                        let ghost before = entry_docs_of(entries@);
                        proof {
                            lemma_heal_entries_step(cd, dd, j as int);
                            lemma_entry_docs_of(entries@);
                            lemma_entries_wf(dd, j as int);
                        }
                        let k = &dt[j].0;
                        match find_entry(&entries, k.as_str()) {
                            Some(p) => {
                                proof {
                                    lemma_find_key(entry_docs_of(entries@), k@);
                                    vstd::std_specs::vec::axiom_vec_index_decreases(*dt, j as int);
                                    assert(decreases_to!(*def => def->Table_0));
                                    assert(decreases_to!(*dt => dt[j as int]));
                                    assert(decreases_to!(dt[j as int] => dt[j as int].1));
                                }
                                let (nv, c) = heal_copy(&entries[p].1, &dt[j].1);
                                if c {
                                    changed = true;
                                }
                                let ghost old_entries = entries@;
                                entries.set(p, (k.clone(), nv));
                                proof {
                                    lemma_entry_docs_of(entries@);
                                    lemma_entry_docs_ext(
                                        entries@,
                                        before.update(p as int, (dd[j as int].0, heal_doc(before[p as int].1, dd[j as int].1))),
                                    );
                                }
                            },
                            None => {
                                entries.push((k.clone(), deep_copy(&dt[j].1)));
                                changed = true;
                                proof {
                                    lemma_entry_docs_of(entries@);
                                    lemma_entry_docs_ext(entries@, before.push(dd[j as int]));
                                }
                            },
                        }
                        j += 1;
                    }
                    proof {
                        assert(dd.take(dt@.len() as int) =~= dd);
                    }
                    (TomlValue::Table(entries), changed)
                },
                _ => (deep_copy(def), true),
            }
        },
        TomlValue::Array(da) => {
            match cur {
                TomlValue::Array(ca) => {
                    if da.len() == 0 {
                        proof {
                            lemma_docs_of(da@);
                        }
                        (deep_copy(cur), false)
                    } else {
                        let ghost cd = docs_of(ca@);
                        let ghost tmpl = doc_of(da@[0]);
                        proof {
                            lemma_docs_of(da@);
                            lemma_docs_of(ca@);
                            lemma_heal_items(cd, tmpl);
                            lemma_items_wf(docs_of(da@), 0);
                            vstd::std_specs::vec::axiom_vec_index_decreases(*da, 0);
                            assert(decreases_to!(*def => def->Array_0));
                            assert(decreases_to!(*da => da[0]));
                        }
                        let mut out: Vec<TomlValue> = Vec::new();
                        let mut changed = false;
                        let mut i: usize = 0;
                        while i < ca.len()
                            invariant
                                da@.len() > 0,
                                decreases_to!(*def => da[0]),
                                tmpl == doc_of(da@[0]),
                                doc_wf(tmpl),
                                cd == docs_of(ca@),
                                cd.len() == ca@.len(),
                                forall|q: int| 0 <= q < ca@.len() ==> #[trigger] cd[q] == doc_of(ca@[q]),
                                heal_items(cd, tmpl).len() == cd.len(),
                                forall|q: int|
                                    0 <= q < cd.len() ==> #[trigger] heal_items(cd, tmpl)[q] == heal_doc(
                                        cd[q],
                                        tmpl,
                                    ),
                                i <= ca@.len(),
                                out@.len() == i,
                                forall|q: int|
                                    0 <= q < i ==> doc_of(#[trigger] out@[q]) == heal_doc(cd[q], tmpl),
                                changed == exists|q: int|
                                    0 <= q < i && #[trigger] heal_doc(cd[q], tmpl) != cd[q],
                            decreases ca@.len() - i,
                        {
                            let ghost old_changed = changed;
                            let (nv, c) = heal_copy(&ca[i], &da[0]);
                            out.push(nv);
                            if c {
                                changed = true;
                            }
                            proof {
                                assert(cd[i as int] == doc_of(ca@[i as int]));
                                if c {
                                    assert(heal_doc(cd[i as int], tmpl) != cd[i as int]);
                                } else {
                                    assert(heal_doc(cd[i as int], tmpl) == cd[i as int]);
                                    if old_changed {
                                        let q = choose|q: int|
                                            0 <= q < i && #[trigger] heal_doc(cd[q], tmpl) != cd[q];
                                        assert(0 <= q < i + 1 && heal_doc(cd[q], tmpl) != cd[q]);
                                    } else {
                                        assert forall|q: int| 0 <= q < i + 1 implies !(#[trigger] heal_doc(cd[q], tmpl) != cd[q]) by {
                                            if q < i {
                                            }
                                        }
                                    }
                                }
                            }
                            i += 1;
                        }
                        proof {
                            lemma_docs_ext(out@, heal_items(cd, tmpl));
                            if changed {
                                let q = choose|q: int|
                                    0 <= q < ca@.len() && #[trigger] heal_doc(cd[q], tmpl) != cd[q];
                                assert(heal_items(cd, tmpl)[q] != cd[q]);
                            } else {
                                assert(heal_items(cd, tmpl) =~= cd);
                            }
                        }
                        (TomlValue::Array(out), changed)
                    }
                },
                _ => (deep_copy(def), true),
            }
        },
        _ => {
            if same_toml_type(cur, def) {
                (deep_copy(cur), false)
            } else {
                proof {
                    lemma_heal_kind(doc_of(*cur), doc_of(*def));
                }
                (deep_copy(def), true)
            }
        },
    }
}

/// Repairs `current` in place against `defaults` (see `heal_doc`); returns
/// whether anything changed.
pub fn heal_value(current: &mut TomlValue, defaults: &TomlValue) -> (changed: bool)
    requires
        doc_wf(doc_of(*defaults)),
    ensures
        doc_of(*final(current)) == heal_doc(doc_of(*old(current)), doc_of(*defaults)),
        changed == (doc_of(*final(current)) != doc_of(*old(current))),
{
    let (v, c) = heal_copy(current, defaults);
    *current = v;
    c
}

/// Every key of `dt` is found in `x`, with a value that repairing against
/// the default leaves as it is.
pub open spec fn covers(x: DocEntries, dt: DocEntries) -> bool {
    forall|q: int|
        0 <= q < dt.len() ==> match find_key(x, (#[trigger] dt[q]).0) {
            Some(i) => heal_doc(x[i].1, dt[q].1) == x[i].1,
            None => false,
        }
}

/// A default document that repairing leaves as it is: every array holds
/// elements that already agree with its first element, all the way down.
pub open spec fn doc_settled(d: TomlDoc) -> bool
    decreases d,
{
    match d {
        TomlDoc::Array(da) => da.len() == 0 || (doc_settled(da[0]) && forall|i: int|
            0 <= i < da.len() ==> heal_doc(#[trigger] da[i], da[0]) == da[i]),
        TomlDoc::Table(dt) => entries_settled(dt),
        _ => true,
    }
}

pub open spec fn entries_settled(dt: DocEntries) -> bool
    decreases dt,
{
    dt.len() == 0 || (entries_settled(dt.drop_last()) && doc_settled(dt.last().1))
}

pub proof fn lemma_entries_settled(dt: DocEntries, i: int)
    requires
        entries_settled(dt),
        0 <= i < dt.len(),
    ensures
        doc_settled(dt[i].1),
    decreases dt.len(),
{
    if i < dt.len() - 1 {
        lemma_entries_settled(dt.drop_last(), i);
    }
}

/// Entries that cover `dt` are left as they are by repairing against `dt`.
pub proof fn lemma_covered_entries_unchanged(x: DocEntries, dt: DocEntries)
    requires
        covers(x, dt),
    ensures
        heal_entries(x, dt) == x,
    decreases dt.len(),
{
    if dt.len() > 0 {
        let d = dt.drop_last();
        assert forall|q: int| 0 <= q < d.len() implies match find_key(x, (#[trigger] d[q]).0) {
            Some(i) => heal_doc(x[i].1, d[q].1) == x[i].1,
            None => false,
        } by {
            assert(d[q] == dt[q]);
        }
        lemma_covered_entries_unchanged(x, d);
        let last = dt.len() - 1;
        assert(dt[last] == dt.last());
        lemma_find_key(x, dt.last().0);
        let i = find_key(x, dt.last().0)->0;
        assert(x.update(i, (dt.last().0, heal_doc(x[i].1, dt.last().1))) =~= x);
    }
}

/// A well-formed, settled default is left as it is by repairing it against itself.
pub proof fn lemma_heal_self(d: TomlDoc)
    requires
        doc_wf(d),
        doc_settled(d),
    ensures
        heal_doc(d, d) == d,
    decreases d,
{
    match d {
        TomlDoc::Table(dt) => {
            assert forall|q: int| 0 <= q < dt.len() implies match find_key(dt, (#[trigger] dt[q]).0) {
                Some(i) => heal_doc(dt[i].1, dt[q].1) == dt[i].1,
                None => false,
            } by {
                lemma_find_key(dt, dt[q].0);
                lemma_entries_wf(dt, q);
                lemma_entries_settled(dt, q);
                lemma_heal_self(dt[q].1);
            }
            lemma_covered_entries_unchanged(dt, dt);
        },
        TomlDoc::Array(da) => {
            if da.len() > 0 {
                lemma_heal_items(da, da[0]);
                assert(heal_items(da, da[0]) =~= da);
            }
        },
        _ => {},
    }
}

/// Repairing twice gives what repairing once gives, for a well-formed,
/// settled default.
pub proof fn lemma_heal_twice(c: TomlDoc, d: TomlDoc)
    requires
        doc_wf(d),
        doc_settled(d),
    ensures
        heal_doc(heal_doc(c, d), d) == heal_doc(c, d),
    decreases d, 0int,
{
    match d {
        TomlDoc::Table(dt) => match c {
            TomlDoc::Table(ct) => {
                lemma_heal_entries_covers(ct, dt);
                lemma_covered_entries_unchanged(heal_entries(ct, dt), dt);
            },
            _ => lemma_heal_self(d),
        },
        TomlDoc::Array(da) => match c {
            TomlDoc::Array(ca) => {
                if da.len() > 0 {
                    let h = heal_items(ca, da[0]);
                    lemma_heal_items(ca, da[0]);
                    lemma_heal_items(h, da[0]);
                    assert forall|i: int| 0 <= i < h.len() implies #[trigger] heal_items(h, da[0])[i] == h[i] by {
                        lemma_items_wf(da, 0);
                        lemma_heal_twice(ca[i], da[0]);
                    }
                    assert(heal_items(h, da[0]) =~= h);
                }
            },
            _ => lemma_heal_self(d),
        },
        _ => {},
    }
}

/// Repairing entries leaves them covering every key of the defaults.
pub proof fn lemma_heal_entries_covers(ct: DocEntries, dt: DocEntries)
    requires
        entries_wf(dt),
        entries_settled(dt),
    ensures
        covers(heal_entries(ct, dt), dt),
    decreases dt, 1int,
{
    if dt.len() > 0 {
        let d = dt.drop_last();
        let t = heal_entries(ct, d);
        let h = heal_entries(ct, dt);
        let k = dt.last().0;
        let dv = dt.last().1;
        let last = dt.len() - 1;
        assert(dt[last] == dt.last());
        lemma_entries_wf(dt, last);
        lemma_entries_settled(dt, last);
        lemma_heal_entries_covers(ct, d);
        lemma_find_key(t, k);
        lemma_find_key(h, k);
        assert forall|q: int| 0 <= q < dt.len() implies match find_key(h, (#[trigger] dt[q]).0) {
            Some(i) => heal_doc(h[i].1, dt[q].1) == h[i].1,
            None => false,
        } by {
            if q < last {
                assert(d[q] == dt[q]);
                let kq = dt[q].0;
                assert(kq != k);
                lemma_find_key(t, kq);
                lemma_find_key(h, kq);
                let i = find_key(t, kq)->0;
                assert(heal_doc(t[i].1, dt[q].1) == t[i].1);
                assert(h.len() >= t.len());
                assert(forall|j: int| 0 <= j < t.len() ==> (#[trigger] h[j]).0 == t[j].0);
                assert(h[i] == t[i]);
                match find_key(h, kq) {
                    Some(i2) => {
                        if i2 < i {
                            assert(t[i2].0 == kq);
                        } else if i2 > i {
                            assert(h[i].0 == kq);
                        }
                    },
                    None => {
                        assert(h[i].0 == kq);
                    },
                }
            } else {
                assert(q == last);
                assert(dt[q].0 == k && dt[q].1 == dv);
                match find_key(t, k) {
                    Some(i) => {
                        lemma_heal_twice(t[i].1, dv);
                        assert(h == t.update(i, (k, heal_doc(t[i].1, dv))));
                        assert(h[i].0 == k);
                        assert(forall|j: int| 0 <= j < i ==> (#[trigger] h[j]).0 == t[j].0);
                        match find_key(h, k) {
                            Some(i2) => {
                                if i2 < i {
                                    assert(t[i2].0 == k);
                                } else if i2 > i {
                                    assert(h[i].0 == k);
                                }
                            },
                            None => {
                                assert(h[i].0 == k);
                            },
                        }
                    },
                    None => {
                        lemma_heal_self(dv);
                        assert(h == t.push((k, dv)));
                        let n = t.len() as int;
                        assert(h[n].0 == k);
                        assert(forall|j: int| 0 <= j < n ==> (#[trigger] h[j]).0 == t[j].0);
                        match find_key(h, k) {
                            Some(i2) => {
                                if i2 < n {
                                    assert(t[i2].0 == k);
                                }
                            },
                            None => {
                                assert(h[n].0 == k);
                            },
                        }
                    },
                }
            }
        }
    }
}

/// The entries of `t` without those whose key is `k`.
pub open spec fn without_key(t: DocEntries, k: Seq<char>) -> DocEntries
    decreases t.len(),
{
    if t.len() == 0 {
        t
    } else if t.last().0 == k {
        without_key(t.drop_last(), k)
    } else {
        without_key(t.drop_last(), k).push(t.last())
    }
}

pub open spec fn has_key(t: DocEntries, k: Seq<char>) -> bool {
    exists|i: int| 0 <= i < t.len() && (#[trigger] t[i]).0 == k
}

/// Removing a key changes the entries exactly when the key is there.
pub proof fn lemma_without_key(t: DocEntries, k: Seq<char>)
    ensures
        (without_key(t, k) == t) == !has_key(t, k),
        !has_key(without_key(t, k), k),
        without_key(without_key(t, k), k) == without_key(t, k),
        without_key(t, k).len() <= t.len(),
    decreases t.len(),
{
    if t.len() > 0 {
        let d = t.drop_last();
        lemma_without_key(d, k);
        let w = without_key(d, k);
        assert forall|i: int| 0 <= i < d.len() implies d[i] == t[i] by {}
        if t.last().0 == k {
            assert(t[t.len() - 1].0 == k);
            assert(without_key(t, k).len() < t.len());
        } else {
            assert forall|i: int| 0 <= i < w.push(t.last()).len() && (#[trigger] w.push(t.last())[i]).0 == k implies false by {
                if i < w.len() {
                    assert(w.push(t.last())[i] == w[i]);
                }
            }
            if has_key(t, k) {
                let i = choose|i: int| 0 <= i < t.len() && (#[trigger] t[i]).0 == k;
                assert(i < d.len() && d[i].0 == k);
                assert(w != d);
                assert(w.push(t.last()).drop_last() =~= w);
            } else {
                assert(!has_key(d, k)) by {
                    if has_key(d, k) {
                        let i = choose|i: int| 0 <= i < d.len() && (#[trigger] d[i]).0 == k;
                        assert(t[i].0 == k);
                    }
                }
                assert(w.push(t.last()) =~= t);
            }
            assert(without_key(w.push(t.last()), k) == without_key(w, k).push(t.last())) by {
                assert(w.push(t.last()).drop_last() =~= w);
            }
        }
    }
}

pub open spec fn ui_colors_key() -> Seq<char> {
    "ui_colors"@
}

/// A profile with its `ui_colors` block taken out, when it is a table.
pub open spec fn strip_profile(p: TomlDoc) -> TomlDoc {
    match p {
        TomlDoc::Table(pt) => TomlDoc::Table(without_key(pt, ui_colors_key())),
        _ => p,
    }
}

/// The configuration document with the colour blocks that the settings no
/// longer read taken out: `defaults.ui_colors` and `ui_colors` of every
/// profile.
pub open spec fn strip_doc(root: TomlDoc) -> TomlDoc {
    match root {
        TomlDoc::Table(rt) => {
            let t1 = match find_key(rt, "defaults"@) {
                Some(i) => match rt[i].1 {
                    TomlDoc::Table(dt) => rt.update(
                        i,
                        (rt[i].0, TomlDoc::Table(without_key(dt, ui_colors_key()))),
                    ),
                    _ => rt,
                },
                None => rt,
            };
            let t2 = match find_key(t1, "profiles"@) {
                Some(i) => match t1[i].1 {
                    TomlDoc::Array(ps) => t1.update(
                        i,
                        (t1[i].0, TomlDoc::Array(Seq::new(ps.len(), |j: int| strip_profile(ps[j])))),
                    ),
                    _ => t1,
                },
                None => t1,
            };
            TomlDoc::Table(t2)
        },
        _ => root,
    }
}

/// The entries of `t` without `k`, and whether `k` was there.
fn remove_entries(t: &Vec<(String, TomlValue)>, k: &str) -> (r: (Vec<(String, TomlValue)>, bool))
    ensures
        entry_docs_of(r.0@) == without_key(entry_docs_of(t@), k@),
        r.1 == has_key(entry_docs_of(t@), k@),
{
    proof {
        lemma_entry_docs_of(t@);
    }
    let ghost td = entry_docs_of(t@);
    let mut out: Vec<(String, TomlValue)> = Vec::new();
    let mut found = false;
    let mut i: usize = 0;
    assert(td.take(0) =~= Seq::<(Seq<char>, TomlDoc)>::empty());
    while i < t.len()
        invariant
            td == entry_docs_of(t@),
            td.len() == t@.len(),
            forall|j: int| 0 <= j < t@.len() ==> #[trigger] td[j] == (t@[j].0@, doc_of(t@[j].1)),
            i <= t@.len(),
            entry_docs_of(out@) == without_key(td.take(i as int), k@),
            found == has_key(td.take(i as int), k@),
        decreases t@.len() - i,
    {
        let ghost before = out@;
        assert(td.take(i + 1).drop_last() =~= td.take(i as int));
        assert(td.take(i + 1).last() == td[i as int]);
        if crate::text::str_eq(t[i].0.as_str(), k) {
            found = true;
            assert(td.take(i + 1)[i as int].0 == k@);
        } else {
            let c = deep_copy(&t[i].1);
            out.push((t[i].0.clone(), c));
            proof {
                lemma_entry_docs_of(before);
                lemma_entry_docs_of(out@);
                lemma_entry_docs_ext(out@, entry_docs_of(before).push(td[i as int]));
            }
            assert(found == has_key(td.take(i + 1), k@)) by {
                if has_key(td.take(i + 1), k@) && !found {
                    let j = choose|j: int| 0 <= j < i + 1 && (#[trigger] td.take(i + 1)[j]).0 == k@;
                    assert(td.take(i as int)[j].0 == k@);
                }
                if found {
                    let j = choose|j: int| 0 <= j < i && (#[trigger] td.take(i as int)[j]).0 == k@;
                    assert(td.take(i + 1)[j].0 == k@);
                }
            }
        }
        if found {
            assert(has_key(td.take(i + 1), k@)) by {
                if td[i as int].0 == k@ {
                    assert(td.take(i + 1)[i as int].0 == k@);
                } else {
                    let j = choose|j: int| 0 <= j < i && (#[trigger] td.take(i as int)[j]).0 == k@;
                    assert(td.take(i + 1)[j].0 == k@);
                }
            }
        }
        i += 1;
    }
    assert(td.take(t@.len() as int) =~= td);
    (out, found)
}

/// The profiles with their colour blocks taken out, and whether any had one.
fn strip_profiles(ps: &Vec<TomlValue>) -> (r: (Vec<TomlValue>, bool))
    ensures
        docs_of(r.0@) == Seq::new(docs_of(ps@).len(), |j: int| strip_profile(docs_of(ps@)[j])),
        r.1 == (docs_of(r.0@) != docs_of(ps@)),
{
    proof {
        lemma_docs_of(ps@);
    }
    let ghost pd = docs_of(ps@);
    let ghost target = Seq::new(pd.len(), |j: int| strip_profile(pd[j]));
    let mut out: Vec<TomlValue> = Vec::new();
    let mut changed = false;
    let mut i: usize = 0;
    while i < ps.len()
        invariant
            pd == docs_of(ps@),
            pd.len() == ps@.len(),
            forall|j: int| 0 <= j < ps@.len() ==> #[trigger] pd[j] == doc_of(ps@[j]),
            target == Seq::new(pd.len(), |j: int| strip_profile(pd[j])),
            i <= ps@.len(),
            out@.len() == i,
            forall|j: int| 0 <= j < i ==> doc_of(#[trigger] out@[j]) == target[j],
            changed == exists|j: int| 0 <= j < i && #[trigger] target[j] != pd[j],
        decreases ps@.len() - i,
    {
        let ghost old_changed = changed;
        let item = match &ps[i] {
            TomlValue::Table(pt) => {
                let (np, c) = remove_entries(pt, "ui_colors");
                proof {
                    lemma_without_key(entry_docs_of(pt@), ui_colors_key());
                }
                if c {
                    changed = true;
                }
                TomlValue::Table(np)
            },
            _ => deep_copy(&ps[i]),
        };
        out.push(item);
        proof {
            assert(doc_of(out@[i as int]) == target[i as int]);
            if changed && !old_changed {
                assert(target[i as int] != pd[i as int]);
            }
            if !changed {
                assert(target[i as int] == pd[i as int]);
                assert forall|j: int| 0 <= j < i + 1 implies !(#[trigger] target[j] != pd[j]) by {
                    if j < i {
                    }
                }
            }
            if old_changed {
                let j = choose|j: int| 0 <= j < i && #[trigger] target[j] != pd[j];
                assert(0 <= j < i + 1 && target[j] != pd[j]);
            }
        }
        i += 1;
    }
    proof {
        lemma_docs_ext(out@, target);
        if changed {
            let j = choose|j: int| 0 <= j < ps@.len() && #[trigger] target[j] != pd[j];
            assert(target[j] != pd[j]);
        } else {
            assert(target =~= pd);
        }
    }
    (out, changed)
}

/// Takes the colour blocks that the settings no longer read out of the
/// configuration document: `defaults.ui_colors` and the `ui_colors` of every
/// profile. Returns whether anything was taken out.
pub fn strip_color_blocks(root: &mut TomlValue) -> (changed: bool)
    ensures
        doc_of(*final(root)) == strip_doc(doc_of(*old(root))),
        changed == (doc_of(*final(root)) != doc_of(*old(root))),
{
    let copy = deep_copy(root);
    let ghost rd = doc_of(*root);
    match copy {
        TomlValue::Table(mut t) => {
            let ghost rt = entry_docs_of(t@);
            let mut changed = false;
            proof {
                lemma_entry_docs_of(t@);
            }
            let di = find_entry(&t, "defaults");
            let ghost t1: DocEntries = rt;
            let mut di_changed = false;
            if let Some(i) = di {
                proof {
                    lemma_find_key(rt, "defaults"@);
                }
                let stripped = match &t[i].1 {
                    TomlValue::Table(dt) => {
                        let (nd, c) = remove_entries(dt, "ui_colors");
                        proof {
                            lemma_without_key(entry_docs_of(dt@), ui_colors_key());
                            assert(rt[i as int].1 == TomlDoc::Table(entry_docs_of(dt@)));
                        }
                        Some((TomlValue::Table(nd), c))
                    },
                    _ => None,
                };
                proof {
                    match &stripped {
                        Some((nv, c)) => {
                            assert(rt[i as int].1 is Table);
                            let dd = rt[i as int].1->Table_0;
                            assert(doc_of(*nv) == TomlDoc::Table(without_key(dd, ui_colors_key())));
                            assert(*c == (doc_of(*nv) != rt[i as int].1));
                        },
                        None => {
                            assert(!(rt[i as int].1 is Table));
                        },
                    }
                }
                if let Some((nv, c)) = stripped {
                    let key = t[i].0.clone();
                    t.set(i, (key, nv));
                    di_changed = c;
                    proof {
                        t1 = rt.update(i as int, (rt[i as int].0, doc_of(nv)));
                        lemma_entry_docs_of(t@);
                        lemma_entry_docs_ext(t@, t1);
                        if c {
                            assert(t1[i as int] != rt[i as int]);
                        } else {
                            assert(t1 =~= rt);
                        }
                    }
                }
            }
            assert(t1 == match find_key(rt, "defaults"@) {
                Some(i) => match rt[i].1 {
                    TomlDoc::Table(dt) => rt.update(i, (rt[i].0, TomlDoc::Table(without_key(dt, ui_colors_key())))),
                    _ => rt,
                },
                None => rt,
            });
            assert(di_changed == (t1 != rt));
            proof {
                lemma_entry_docs_of(t@);
                lemma_find_key(t1, "profiles"@);
            }
            let pi = find_entry(&t, "profiles");
            let ghost t2: DocEntries = t1;
            let mut pi_changed = false;
            if let Some(i) = pi {
                let stripped = match &t[i].1 {
                    TomlValue::Array(ps) => Some(strip_profiles(ps)),
                    _ => None,
                };
                if let Some((np, c)) = stripped {
                    let key = t[i].0.clone();
                    let nv = TomlValue::Array(np);
                    t.set(i, (key, nv));
                    pi_changed = c;
                    proof {
                        t2 = t1.update(i as int, (t1[i as int].0, doc_of(nv)));
                        lemma_entry_docs_of(t@);
                        lemma_entry_docs_ext(t@, t2);
                    }
                }
            }
            assert(t2 == match find_key(t1, "profiles"@) {
                Some(i) => match t1[i].1 {
                    TomlDoc::Array(ps) => t1.update(i, (t1[i].0, TomlDoc::Array(Seq::new(ps.len(), |j: int| strip_profile(ps[j]))))),
                    _ => t1,
                },
                None => t1,
            });
            changed = di_changed || pi_changed;
            proof {
                lemma_find_key(rt, "defaults"@);
                if pi_changed {
                    let j = pi->0 as int;
                    assert(t2[j] != t1[j]);
                    if di_changed {
                        let i = di->0 as int;
                        assert(rt[i].0 == "defaults"@);
                        assert(t1[j].0 == "profiles"@);
                        assert(i != j) by {
                            reveal_strlit("defaults");
                            reveal_strlit("profiles");
                            assert("defaults"@[0] != "profiles"@[0]);
                        }
                        assert(t1[j] == rt[j]);
                    } else {
                        assert(t1 == rt);
                    }
                    assert(t2[j] != rt[j]);
                } else {
                    assert(t2 == t1);
                }
            }
            let r = TomlValue::Table(t);
            *root = r;
            changed
        },
        _ => {
            *root = copy;
            false
        },
    }
}

/// Replacing the value at one position keeps the first position of every key.
pub proof fn lemma_find_key_update(t: DocEntries, i: int, v: TomlDoc, k: Seq<char>)
    requires
        0 <= i < t.len(),
    ensures
        find_key(t.update(i, (t[i].0, v)), k) == find_key(t, k),
{
    let u = t.update(i, (t[i].0, v));
    lemma_find_key(t, k);
    lemma_find_key(u, k);
    assert(forall|j: int| 0 <= j < t.len() ==> (#[trigger] u[j]).0 == t[j].0);
    match find_key(t, k) {
        Some(a) => match find_key(u, k) {
            Some(b) => {
                if a < b {
                    assert(u[a].0 == k);
                } else if b < a {
                    assert(t[b].0 == k);
                }
            },
            None => {
                assert(u[a].0 == k);
            },
        },
        None => match find_key(u, k) {
            Some(b) => {
                assert(t[b].0 == k);
            },
            None => {},
        },
    }
}

/// Taking the colour blocks out twice gives what taking them out once gives.
pub proof fn lemma_strip_twice(root: TomlDoc)
    ensures
        strip_doc(strip_doc(root)) == strip_doc(root),
{
    match root {
        TomlDoc::Table(rt) => {
            let t1 = match find_key(rt, "defaults"@) {
                Some(i) => match rt[i].1 {
                    TomlDoc::Table(dt) => rt.update(i, (rt[i].0, TomlDoc::Table(without_key(dt, ui_colors_key())))),
                    _ => rt,
                },
                None => rt,
            };
            lemma_find_key(rt, "defaults"@);
            match find_key(rt, "defaults"@) {
                Some(i) => {
                    lemma_find_key_update(rt, i, TomlDoc::Table(without_key(rt[i].1->Table_0, ui_colors_key())), "profiles"@);
                    lemma_find_key_update(rt, i, TomlDoc::Table(without_key(rt[i].1->Table_0, ui_colors_key())), "defaults"@);
                },
                None => {},
            }
            let t2 = match find_key(t1, "profiles"@) {
                Some(i) => match t1[i].1 {
                    TomlDoc::Array(ps) => t1.update(i, (t1[i].0, TomlDoc::Array(Seq::new(ps.len(), |j: int| strip_profile(ps[j]))))),
                    _ => t1,
                },
                None => t1,
            };
            lemma_find_key(t1, "profiles"@);
            match find_key(t1, "profiles"@) {
                Some(i) => {
                    if t1[i].1 is Array {
                        let ps = t1[i].1->Array_0;
                        let nv = TomlDoc::Array(Seq::new(ps.len(), |j: int| strip_profile(ps[j])));
                        lemma_find_key_update(t1, i, nv, "profiles"@);
                        lemma_find_key_update(t1, i, nv, "defaults"@);
                    }
                },
                None => {},
            }
            assert(find_key(t2, "defaults"@) == find_key(rt, "defaults"@));
            assert(find_key(t2, "profiles"@) == find_key(t1, "profiles"@));
            let s1 = match find_key(t2, "defaults"@) {
                Some(i) => match t2[i].1 {
                    TomlDoc::Table(dt) => t2.update(i, (t2[i].0, TomlDoc::Table(without_key(dt, ui_colors_key())))),
                    _ => t2,
                },
                None => t2,
            };
            match find_key(rt, "defaults"@) {
                Some(i) => {
                    match find_key(t1, "profiles"@) {
                        Some(j) => {
                            if i == j {
                                reveal_strlit("defaults");
                                reveal_strlit("profiles");
                                assert("defaults"@[0] != "profiles"@[0]);
                                assert(false);
                            }
                        },
                        None => {},
                    }
                    if rt[i].1 is Table {
                        lemma_without_key(rt[i].1->Table_0, ui_colors_key());
                        assert(s1 =~= t2);
                    } else {
                        assert(s1 == t2);
                    }
                },
                None => {},
            }
            assert(s1 == t2);
            match find_key(t1, "profiles"@) {
                Some(j) => {
                    if t1[j].1 is Array {
                        let ps = t1[j].1->Array_0;
                        let sp = Seq::new(ps.len(), |k: int| strip_profile(ps[k]));
                        assert forall|k: int| 0 <= k < sp.len() implies strip_profile(#[trigger] sp[k]) == sp[k] by {
                            match ps[k] {
                                TomlDoc::Table(pt) => {
                                    lemma_without_key(pt, ui_colors_key());
                                },
                                _ => {},
                            }
                        }
                        let sp2 = Seq::new(sp.len(), |k: int| strip_profile(sp[k]));
                        assert(sp2 =~= sp);
                        assert(s1.update(j, (s1[j].0, TomlDoc::Array(sp2))) =~= s1);
                    }
                },
                None => {},
            }
        },
        _ => {},
    }
}

} // verus!
