//! Strict structural comparison of JSON documents.
//!
//! Object comparisons require identical key sets, array comparisons are
//! order- and length-sensitive, and scalar comparisons require matching
//! kind and value. A mismatch produces a location-qualified list of
//! differences; the list is empty exactly when the two documents are
//! structurally equal, and every `Changed` difference names a location
//! both documents hold, with differing sub-documents there.

use vstd::prelude::*;
use vstd::string::{StrSliceExecFns, StringExecFns};

use crate::json::{
    json_eq, lemma_model_fields_pointwise, lemma_model_items_pointwise, lemma_sorted_key_unique,
    model_fields, model_items, obj_has_key, obj_sorted, wf_model, Json, JsonV,
};
use crate::text::{chars_lt, spec_decimal, u64_decimal};

verus! {

/// One step on the path from the document root to a difference.
#[derive(Clone, Debug)]
pub enum PathSeg {
    /// An object field, by key.
    Key(String),
    /// An array element, by position.
    Index(usize),
}

/// How the two documents differ at a path.
#[derive(Clone, Copy, Debug, PartialEq, Eq, Structural)]
pub enum DiffKind {
    /// The left document holds this entry where the right one holds
    /// none, or another key stands in its place.
    Added,
    /// The right document holds this entry where the left one holds
    /// none, or another key stands in its place.
    Removed,
    /// Both documents hold a value at this path, and the values differ.
    Changed,
}

/// One location-qualified difference between two documents.
#[derive(Clone, Debug)]
pub struct Diff {
    /// Path from the root to the differing location.
    pub path: Vec<PathSeg>,
    /// The kind of difference found there.
    pub kind: DiffKind,
}

/// The sub-document a path names inside a document, when every step of
/// the path exists: object steps go by key (unique in a well-formed
/// object), array steps by position.
pub open spec fn resolve(v: JsonV, path: Seq<PathSeg>) -> Option<JsonV>
    decreases path.len(),
{
    if path.len() == 0 {
        Some(v)
    } else {
        match path[0] {
            PathSeg::Key(key) => match v {
                JsonV::Object(fields) => if obj_has_key(fields, key@) {
                    let i = choose|i: int| 0 <= i < fields.len() && (#[trigger] fields[i]).0 == key@;
                    resolve(fields[i].1, path.drop_first())
                } else {
                    None
                },
                _ => None,
            },
            PathSeg::Index(idx) => match v {
                JsonV::Array(items) => if (idx as int) < items.len() {
                    resolve(items[idx as int], path.drop_first())
                } else {
                    None
                },
                _ => None,
            },
        }
    }
}

/// Every `Changed` difference names a location both documents hold, and
/// the sub-documents there differ.
pub open spec fn changed_diffs_resolve(diffs: Seq<Diff>, a: JsonV, e: JsonV) -> bool {
    forall|k: int|
        0 <= k < diffs.len() && (#[trigger] diffs[k]).kind is Changed ==> {
            &&& resolve(a, diffs[k].path@) is Some
            &&& resolve(e, diffs[k].path@) is Some
            &&& resolve(a, diffs[k].path@) != resolve(e, diffs[k].path@)
        }
}

/// Copies one path step.
fn seg_dup(seg: &PathSeg) -> (r: PathSeg)
    ensures
        r == *seg,
{
    match seg {
        PathSeg::Key(k) => PathSeg::Key(k.clone()),
        PathSeg::Index(i) => PathSeg::Index(*i),
    }
}

/// Prepends `seg` to the path of every difference in `diffs`: used when
/// lifting differences found in a sub-document to the enclosing one. The
/// differences come back in reverse order, each with its kind kept and
/// `seg` in front of its path.
fn prefix_all(diffs: Vec<Diff>, seg: &PathSeg) -> (r: Vec<Diff>)
    ensures
        r@.len() == diffs@.len(),
        forall|k: int|
            0 <= k < r@.len() ==> (#[trigger] r@[k]).kind == diffs@[r@.len() - 1 - k].kind
                && r@[k].path@ == seq![*seg] + diffs@[r@.len() - 1 - k].path@,
{
    let ghost n = diffs@.len();
    let ghost orig = diffs@;
    let mut rest = diffs;
    let mut out: Vec<Diff> = Vec::new();
    proof {
        assert(rest@ =~= orig.take(rest@.len() as int));
    }
    while rest.len() > 0
        invariant
            n == orig.len(),
            out@.len() + rest@.len() == n,
            rest@ == orig.take(rest@.len() as int),
            forall|k: int|
                0 <= k < out@.len() ==> (#[trigger] out@[k]).kind == orig[n - 1 - k].kind
                    && out@[k].path@ == seq![*seg] + orig[n - 1 - k].path@,
        decreases rest@.len(),
    {
        let ghost rl = rest@.len() as int;
        proof {
            assert(1 <= rl <= orig.len());
            assert(rest@ == orig.take(rl));
        }
        let mut d = rest.pop().unwrap();
        proof {
            assert(orig.take(rl).drop_last() =~= orig.take(rl - 1));
            assert(orig.take(rl).last() == orig[rl - 1]);
            assert(d.path@ == orig[rl - 1].path@ && d.kind == orig[rl - 1].kind);
        }
        let ghost dp = d.path@;
        d.path.insert(0, seg_dup(seg));
        proof {
            assert(d.path@ =~= seq![*seg] + dp);
        }
        out.push(d);
    }
    out
}

/// Strict structural comparison: returns the list of differences between
/// `actual` and `expected`. The list is empty exactly when the two
/// documents are equal; on well-formed documents, every `Changed`
/// difference resolves in both documents to sub-documents that differ.
pub fn compare_strict(actual: &Json, expected: &Json) -> (diffs: Vec<Diff>)
    ensures
        (diffs@.len() == 0) <==> (actual@ == expected@),
        wf_model(actual@) && wf_model(expected@) ==> changed_diffs_resolve(
            diffs@,
            actual@,
            expected@,
        ),
    decreases *actual,
{
    match (actual, expected) {
        (Json::Array(xs), Json::Array(ys)) => {
            proof {
                lemma_model_items_pointwise(xs@);
                lemma_model_items_pointwise(ys@);
            }
            let n = if xs.len() < ys.len() {
                xs.len()
            } else {
                ys.len()
            };
            let mut out: Vec<Diff> = Vec::new();
            let mut i: usize = 0;
            while i < n
                invariant
                    i <= n,
                    n <= xs@.len(),
                    n <= ys@.len(),
                    actual == Json::Array(*xs),
                    expected == Json::Array(*ys),
                    (out@.len() == 0) <==> (forall|j: int|
                        0 <= j < i ==> model_items(xs@)[j] == model_items(ys@)[j]),
                    wf_model(actual@) && wf_model(expected@) ==> changed_diffs_resolve(
                        out@,
                        actual@,
                        expected@,
                    ),
                decreases n - i,
            {
                proof {
                    lemma_model_items_pointwise(xs@);
                    lemma_model_items_pointwise(ys@);
                    assert(decreases_to!(*actual => (*actual)->Array_0));
                    assert((*actual)->Array_0 == *xs);
                    assert(decreases_to!(*xs => xs@));
                    assert(decreases_to!(xs@ => xs@[i as int]));
                }
                let sub = compare_strict(&xs[i], &ys[i]);
                let ghost subm = sub@;
                let sub2 = prefix_all(sub, &PathSeg::Index(i));
                let ghost sub2m = sub2@;
                let ghost out0 = out@;
                let mut sub2 = sub2;
                out.append(&mut sub2);
                proof {
                    lemma_model_items_pointwise(xs@);
                    lemma_model_items_pointwise(ys@);
                    if wf_model(actual@) && wf_model(expected@) {
                        assert(wf_model(model_items(xs@)[i as int]));
                        assert(wf_model(model_items(ys@)[i as int]));
                        assert forall|k: int|
                            0 <= k < out@.len() && (#[trigger] out@[k]).kind is Changed implies {
                            &&& resolve(actual@, out@[k].path@) is Some
                            &&& resolve(expected@, out@[k].path@) is Some
                            &&& resolve(actual@, out@[k].path@) != resolve(
                                expected@,
                                out@[k].path@,
                            )
                        } by {
                            if k < out0.len() {
                                assert(out@[k] == out0[k]);
                            } else {
                                let d2 = out@[k];
                                assert(d2 == sub2m[k - out0.len()]);
                                let od = subm[sub2m.len() - 1 - (k - out0.len())];
                                assert(d2.kind == od.kind && d2.path@ == seq![PathSeg::Index(i)]
                                    + od.path@);
                                assert(d2.path@[0] == PathSeg::Index(i));
                                assert(d2.path@.drop_first() =~= od.path@);
                                assert(resolve(actual@, d2.path@) == resolve(
                                    model_items(xs@)[i as int],
                                    od.path@,
                                ));
                                assert(resolve(expected@, d2.path@) == resolve(
                                    model_items(ys@)[i as int],
                                    od.path@,
                                ));
                            }
                        }
                    }
                }
                i += 1;
            }
            proof {
                lemma_model_items_pointwise(xs@);
                lemma_model_items_pointwise(ys@);
            }
            if xs.len() == ys.len() {
                proof {
                    if out@.len() == 0 {
                        assert(model_items(xs@) =~= model_items(ys@));
                    }
                }
                out
            } else if xs.len() > ys.len() {
                let mut k = n;
                while k < xs.len()
                    invariant
                        n < xs@.len(),
                        n <= k <= xs@.len(),
                        k > n ==> out@.len() > 0,
                        actual == Json::Array(*xs),
                        expected == Json::Array(*ys),
                        wf_model(actual@) && wf_model(expected@) ==> changed_diffs_resolve(
                            out@,
                            actual@,
                            expected@,
                        ),
                    decreases xs@.len() - k,
                {
                    let mut p: Vec<PathSeg> = Vec::new();
                    p.push(PathSeg::Index(k));
                    let ghost out0 = out@;
                    out.push(Diff { path: p, kind: DiffKind::Added });
                    proof {
                        assert(forall|j: int| 0 <= j < out0.len() ==> out@[j] == out0[j]);
                    }
                    k += 1;
                }
                out
            } else {
                let mut k = n;
                while k < ys.len()
                    invariant
                        n < ys@.len(),
                        n <= k <= ys@.len(),
                        k > n ==> out@.len() > 0,
                        actual == Json::Array(*xs),
                        expected == Json::Array(*ys),
                        wf_model(actual@) && wf_model(expected@) ==> changed_diffs_resolve(
                            out@,
                            actual@,
                            expected@,
                        ),
                    decreases ys@.len() - k,
                {
                    let mut p: Vec<PathSeg> = Vec::new();
                    p.push(PathSeg::Index(k));
                    let ghost out0 = out@;
                    out.push(Diff { path: p, kind: DiffKind::Removed });
                    proof {
                        assert(forall|j: int| 0 <= j < out0.len() ==> out@[j] == out0[j]);
                    }
                    k += 1;
                }
                out
            }
        },
        (Json::Object(xs), Json::Object(ys)) => {
            proof {
                lemma_model_fields_pointwise(xs@);
                lemma_model_fields_pointwise(ys@);
            }
            let n = if xs.len() < ys.len() {
                xs.len()
            } else {
                ys.len()
            };
            let mut out: Vec<Diff> = Vec::new();
            let mut i: usize = 0;
            while i < n
                invariant
                    i <= n,
                    n <= xs@.len(),
                    n <= ys@.len(),
                    actual == Json::Object(*xs),
                    expected == Json::Object(*ys),
                    (out@.len() == 0) <==> (forall|j: int|
                        0 <= j < i ==> model_fields(xs@)[j] == model_fields(ys@)[j]),
                    wf_model(actual@) && wf_model(expected@) ==> changed_diffs_resolve(
                        out@,
                        actual@,
                        expected@,
                    ),
                decreases n - i,
            {
                proof {
                    lemma_model_fields_pointwise(xs@);
                    lemma_model_fields_pointwise(ys@);
                    assert(decreases_to!(*actual => (*actual)->Object_0));
                    assert((*actual)->Object_0 == *xs);
                    assert(decreases_to!(*xs => xs@));
                    assert(decreases_to!(xs@ => xs@[i as int]));
                    assert(decreases_to!(xs@[i as int] => xs@[i as int].1));
                }
                if xs[i].0 == ys[i].0 {
                    let key = xs[i].0.clone();
                    let sub = compare_strict(&xs[i].1, &ys[i].1);
                    let ghost subm = sub@;
                    let sub2 = prefix_all(sub, &PathSeg::Key(key));
                    let ghost sub2m = sub2@;
                    let ghost out0 = out@;
                    let mut sub2 = sub2;
                    out.append(&mut sub2);
                    proof {
                        lemma_model_fields_pointwise(xs@);
                        lemma_model_fields_pointwise(ys@);
                        if wf_model(actual@) && wf_model(expected@) {
                            let mfx = model_fields(xs@);
                            let mfy = model_fields(ys@);
                            assert(wf_model(mfx[i as int].1));
                            assert(wf_model(mfy[i as int].1));
                            assert(obj_sorted(mfx)) by {
                                assert forall|a: int, b: int|
                                    0 <= a < b < mfx.len() implies chars_lt(
                                    (#[trigger] mfx[a]).0,
                                    (#[trigger] mfx[b]).0,
                                ) by {
                                    assert(chars_lt(mfx[a].0, mfx[b].0));
                                }
                            }
                            assert(obj_sorted(mfy)) by {
                                assert forall|a: int, b: int|
                                    0 <= a < b < mfy.len() implies chars_lt(
                                    (#[trigger] mfy[a]).0,
                                    (#[trigger] mfy[b]).0,
                                ) by {
                                    assert(chars_lt(mfy[a].0, mfy[b].0));
                                }
                            }
                            assert forall|k: int|
                                0 <= k < out@.len() && (#[trigger] out@[k]).kind
                                    is Changed implies {
                                &&& resolve(actual@, out@[k].path@) is Some
                                &&& resolve(expected@, out@[k].path@) is Some
                                &&& resolve(actual@, out@[k].path@) != resolve(
                                    expected@,
                                    out@[k].path@,
                                )
                            } by {
                                if k < out0.len() {
                                    assert(out@[k] == out0[k]);
                                } else {
                                    let d2 = out@[k];
                                    assert(d2 == sub2m[k - out0.len()]);
                                    let od = subm[sub2m.len() - 1 - (k - out0.len())];
                                    let kseg = d2.path@[0];
                                    assert(d2.kind == od.kind && d2.path@ == seq![PathSeg::Key(xs@[i as int].0)] + od.path@);
                                    assert(kseg == PathSeg::Key(xs@[i as int].0));
                                    assert(d2.path@.drop_first() =~= od.path@);
                                    assert(mfx[i as int].0 == xs@[i as int].0@);
                                    assert(obj_has_key(mfx, xs@[i as int].0@));
                                    let ci = choose|c: int|
                                        0 <= c < mfx.len() && (#[trigger] mfx[c]).0
                                            == xs@[i as int].0@;
                                    lemma_sorted_key_unique(mfx, ci, i as int);
                                    assert(resolve(actual@, d2.path@) == resolve(
                                        mfx[i as int].1,
                                        od.path@,
                                    ));
                                    assert(mfy[i as int].0 == xs@[i as int].0@);
                                    assert(obj_has_key(mfy, xs@[i as int].0@));
                                    let cj = choose|c: int|
                                        0 <= c < mfy.len() && (#[trigger] mfy[c]).0
                                            == xs@[i as int].0@;
                                    lemma_sorted_key_unique(mfy, cj, i as int);
                                    assert(resolve(expected@, d2.path@) == resolve(
                                        mfy[i as int].1,
                                        od.path@,
                                    ));
                                }
                            }
                        }
                    }
                } else {
                    let ghost out0 = out@;
                    let mut p: Vec<PathSeg> = Vec::new();
                    p.push(PathSeg::Key(xs[i].0.clone()));
                    out.push(Diff { path: p, kind: DiffKind::Added });
                    let mut q: Vec<PathSeg> = Vec::new();
                    q.push(PathSeg::Key(ys[i].0.clone()));
                    out.push(Diff { path: q, kind: DiffKind::Removed });
                    proof {
                        assert(forall|j: int| 0 <= j < out0.len() ==> out@[j] == out0[j]);
                    }
                }
                i += 1;
            }
            proof {
                lemma_model_fields_pointwise(xs@);
                lemma_model_fields_pointwise(ys@);
            }
            if xs.len() == ys.len() {
                proof {
                    if out@.len() == 0 {
                        assert(model_fields(xs@) =~= model_fields(ys@));
                    }
                }
                out
            } else if xs.len() > ys.len() {
                let mut k = n;
                while k < xs.len()
                    invariant
                        n < xs@.len(),
                        n <= k <= xs@.len(),
                        k > n ==> out@.len() > 0,
                        actual == Json::Object(*xs),
                        expected == Json::Object(*ys),
                        wf_model(actual@) && wf_model(expected@) ==> changed_diffs_resolve(
                            out@,
                            actual@,
                            expected@,
                        ),
                    decreases xs@.len() - k,
                {
                    let mut p: Vec<PathSeg> = Vec::new();
                    p.push(PathSeg::Key(xs[k].0.clone()));
                    let ghost out0 = out@;
                    out.push(Diff { path: p, kind: DiffKind::Added });
                    proof {
                        assert(forall|j: int| 0 <= j < out0.len() ==> out@[j] == out0[j]);
                    }
                    k += 1;
                }
                out
            } else {
                let mut k = n;
                while k < ys.len()
                    invariant
                        n < ys@.len(),
                        n <= k <= ys@.len(),
                        k > n ==> out@.len() > 0,
                        actual == Json::Object(*xs),
                        expected == Json::Object(*ys),
                        wf_model(actual@) && wf_model(expected@) ==> changed_diffs_resolve(
                            out@,
                            actual@,
                            expected@,
                        ),
                    decreases ys@.len() - k,
                {
                    let mut p: Vec<PathSeg> = Vec::new();
                    p.push(PathSeg::Key(ys[k].0.clone()));
                    let ghost out0 = out@;
                    out.push(Diff { path: p, kind: DiffKind::Removed });
                    proof {
                        assert(forall|j: int| 0 <= j < out0.len() ==> out@[j] == out0[j]);
                    }
                    k += 1;
                }
                out
            }
        },
        _ => {
            if json_eq(actual, expected) {
                Vec::new()
            } else {
                let mut out: Vec<Diff> = Vec::new();
                let p: Vec<PathSeg> = Vec::new();
                out.push(Diff { path: p, kind: DiffKind::Changed });
                proof {
                    assert(out@[0].path@ =~= Seq::<PathSeg>::empty());
                }
                out
            }
        },
    }
}

/// The text of one path step: `.key` for an object field, `[i]` for an
/// array element.
pub open spec fn spec_seg_text(seg: PathSeg) -> Seq<char> {
    match seg {
        PathSeg::Key(k) => "."@ + k@,
        PathSeg::Index(i) => "["@ + spec_decimal(i as int) + "]"@,
    }
}

/// The text of a path, one step after another.
pub open spec fn spec_path_text(path: Seq<PathSeg>) -> Seq<char>
    decreases path,
{
    if path.len() == 0 {
        Seq::empty()
    } else {
        spec_path_text(path.drop_last()) + spec_seg_text(path.last())
    }
}

/// The word for a difference kind.
pub open spec fn spec_kind_text(k: DiffKind) -> Seq<char> {
    match k {
        DiffKind::Added => "added"@,
        DiffKind::Removed => "removed"@,
        DiffKind::Changed => "changed"@,
    }
}

/// One difference as text: its kind and its location from the root.
pub open spec fn spec_diff_text(d: Diff) -> Seq<char> {
    spec_kind_text(d.kind) + " at root"@ + spec_path_text(d.path@)
}

/// All differences as text, one line each.
pub open spec fn spec_diffs_text(diffs: Seq<Diff>) -> Seq<char>
    decreases diffs,
{
    if diffs.len() == 0 {
        Seq::empty()
    } else if diffs.len() == 1 {
        spec_diff_text(diffs[0])
    } else {
        spec_diffs_text(diffs.drop_last()) + "\n"@ + spec_diff_text(diffs.last())
    }
}

/// Appends the text of one path step.
fn push_seg_text(seg: &PathSeg, out: &mut String)
    ensures
        final(out)@ == old(out)@ + spec_seg_text(*seg),
{
    match seg {
        PathSeg::Key(k) => {
            out.append(".");
            out.append(k.as_str());
            proof {
                assert(old(out)@ + ("."@ + k@) =~= out@);
            }
        },
        PathSeg::Index(i) => {
            out.append("[");
            let d = u64_decimal(*i as u64);
            out.append(d.as_str());
            out.append("]");
            proof {
                assert(old(out)@ + ("["@ + spec_decimal(*i as int) + "]"@) =~= out@);
            }
        },
    }
}

/// Renders one difference: its kind and its location from the root.
pub fn render_diff(d: &Diff) -> (r: String)
    ensures
        r@ == spec_diff_text(*d),
{
    let mut s = match d.kind {
        DiffKind::Added => String::from_str("added"),
        DiffKind::Removed => String::from_str("removed"),
        DiffKind::Changed => String::from_str("changed"),
    };
    s.append(" at root");
    proof {
        assert(d.path@.take(0) =~= Seq::<PathSeg>::empty());
        assert(s@ =~= spec_kind_text(d.kind) + " at root"@ + spec_path_text(d.path@.take(0)));
    }
    let mut i: usize = 0;
    while i < d.path.len()
        invariant
            i <= d.path@.len(),
            s@ == spec_kind_text(d.kind) + " at root"@ + spec_path_text(d.path@.take(i as int)),
        decreases d.path@.len() - i,
    {
        push_seg_text(&d.path[i], &mut s);
        proof {
            assert(d.path@.take(i + 1).drop_last() =~= d.path@.take(i as int));
            assert(d.path@.take(i + 1).last() == d.path@[i as int]);
            assert(spec_kind_text(d.kind) + " at root"@ + spec_path_text(d.path@.take(i as int))
                + spec_seg_text(d.path@[i as int]) =~= spec_kind_text(d.kind) + " at root"@
                + spec_path_text(d.path@.take(i + 1)));
        }
        i += 1;
    }
    proof {
        assert(d.path@.take(d.path@.len() as int) =~= d.path@);
    }
    s
}

/// Renders a difference list, one line per difference: the
/// location-qualified report a failed comparison carries.
pub fn render_diffs(diffs: &Vec<Diff>) -> (r: String)
    ensures
        r@ == spec_diffs_text(diffs@),
{
    let mut s = String::new();
    let mut i: usize = 0;
    while i < diffs.len()
        invariant
            i <= diffs@.len(),
            s@ == spec_diffs_text(diffs@.take(i as int)),
        decreases diffs@.len() - i,
    {
        if i > 0 {
            s.append("\n");
        }
        let line = render_diff(&diffs[i]);
        s.append(line.as_str());
        proof {
            assert(diffs@.take(i + 1).drop_last() =~= diffs@.take(i as int));
            assert(diffs@.take(i + 1).last() == diffs@[i as int]);
            if i == 0 {
                assert(s@ =~= spec_diffs_text(diffs@.take(1)));
            } else {
                assert(s@ =~= spec_diffs_text(diffs@.take(i as int)) + "\n"@ + spec_diff_text(
                    diffs@[i as int],
                ));
                assert(s@ =~= spec_diffs_text(diffs@.take(i + 1)));
            }
        }
        i += 1;
    }
    proof {
        assert(diffs@.take(diffs@.len() as int) =~= diffs@);
    }
    s
}

} // verus!
