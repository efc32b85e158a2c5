//! JSON document model.
//!
//! Fixture files and engine output events are JSON documents. The library
//! holds them as [`Json`] values, whose mathematical model is [`JsonV`]:
//! numbers are split the way a strict comparison sees them (unsigned
//! integer, negative integer, or the shortest decimal rendering of any
//! other number), and objects are ordered field lists with unique keys.

use vstd::prelude::*;

use crate::text::chars_lt;

verus! {

/// Mathematical model of a JSON document.
///
/// Object fields are a sequence of key/value pairs; a well-formed value
/// (see [`Json::wf`]) keeps them in strictly ascending key order, so two
/// well-formed objects are equal exactly when they have identical key sets
/// and equal values key by key.
pub enum JsonV {
    Null,
    Bool(bool),
    UInt(u64),
    Int(i64),
    Decimal(Seq<char>),
    Text(Seq<char>),
    Array(Seq<JsonV>),
    Object(Seq<(Seq<char>, JsonV)>),
}

/// A JSON document.
///
/// `UInt` holds any non-negative integer, `Int` any negative integer, and
/// `Decimal` the decimal rendering of a number that is not an integer;
/// this mirrors how a strict structural comparison distinguishes number
/// values by kind as well as by value.
#[derive(Debug)]
pub enum Json {
    Null,
    Bool(bool),
    UInt(u64),
    Int(i64),
    Decimal(String),
    Text(String),
    Array(Vec<Json>),
    Object(Vec<(String, Json)>),
}

impl Json {
    /// The mathematical value of this document.
    pub open spec fn model(self) -> JsonV
        decreases self,
    {
        match self {
            Json::Null => JsonV::Null,
            Json::Bool(b) => JsonV::Bool(b),
            Json::UInt(n) => JsonV::UInt(n),
            Json::Int(n) => JsonV::Int(n),
            Json::Decimal(s) => JsonV::Decimal(s@),
            Json::Text(s) => JsonV::Text(s@),
            Json::Array(items) => JsonV::Array(model_items(items@)),
            Json::Object(fields) => JsonV::Object(model_fields(fields@)),
        }
    }
}

/// Models of a sequence of documents, element by element.
pub open spec fn model_items(items: Seq<Json>) -> Seq<JsonV>
    decreases items,
{
    if items.len() == 0 {
        Seq::empty()
    } else {
        model_items(items.drop_last()).push(items.last().model())
    }
}

/// Models of a sequence of object fields, field by field.
pub open spec fn model_fields(fields: Seq<(String, Json)>) -> Seq<(Seq<char>, JsonV)>
    decreases fields,
{
    if fields.len() == 0 {
        Seq::empty()
    } else {
        model_fields(fields.drop_last()).push((fields.last().0@, fields.last().1.model()))
    }
}

impl View for Json {
    type V = JsonV;

    open spec fn view(&self) -> JsonV {
        self.model()
    }
}

/// Well-formedness of a model value: every object keeps its keys in
/// strictly ascending order, at every nesting level. Parsed documents
/// always satisfy this, because the parser stores object fields in an
/// ordered map.
pub open spec fn wf_model(v: JsonV) -> bool
    decreases v,
{
    match v {
        JsonV::Array(items) => forall|i: int| 0 <= i < items.len() ==> wf_model(#[trigger] items[i]),
        JsonV::Object(fields) => {
            &&& forall|i: int|
                0 <= i < fields.len() ==> wf_model(#[trigger] fields[i].1)
            &&& forall|i: int, j: int|
                0 <= i < j < fields.len() ==> chars_lt(#[trigger] fields[i].0, #[trigger] fields[j].0)
        },
        _ => true,
    }
}

impl Json {
    /// A document is well formed when its model is.
    pub open spec fn wf(self) -> bool {
        wf_model(self.model())
    }
}

/// The object holds a field with the given key.
pub open spec fn obj_has_key(fields: Seq<(Seq<char>, JsonV)>, k: Seq<char>) -> bool {
    exists|i: int| 0 <= i < fields.len() && (#[trigger] fields[i]).0 == k
}

/// The object's keys are strictly ascending: what [`wf_model`] asks of
/// every object.
pub open spec fn obj_sorted(fields: Seq<(Seq<char>, JsonV)>) -> bool {
    forall|i: int, j: int|
        0 <= i < j < fields.len() ==> chars_lt((#[trigger] fields[i]).0, (#[trigger] fields[j]).0)
}

/// In an object with strictly ascending keys, a key appears at most once.
pub proof fn lemma_sorted_key_unique(fields: Seq<(Seq<char>, JsonV)>, i: int, j: int)
    requires
        obj_sorted(fields),
        0 <= i < fields.len(),
        0 <= j < fields.len(),
        fields[i].0 == fields[j].0,
    ensures
        i == j,
{
    if i < j {
        crate::text::lemma_chars_lt_irrefl(fields[i].0);
    } else if j < i {
        crate::text::lemma_chars_lt_irrefl(fields[j].0);
    }
}

/// For well-formed objects, structural equality is exactly the strict
/// object semantics: the two field lists are equal as sequences if and
/// only if they have identical key sets — no subset or superset leniency —
/// and equal values wherever their keys agree.
pub proof fn lemma_object_equality_is_keyset_equality(
    f: Seq<(Seq<char>, JsonV)>,
    g: Seq<(Seq<char>, JsonV)>,
)
    requires
        obj_sorted(f),
        obj_sorted(g),
    ensures
        (f == g) <==> ((forall|k: Seq<char>| obj_has_key(f, k) <==> obj_has_key(g, k)) && (forall|
            i: int,
            j: int,
        |
            0 <= i < f.len() && 0 <= j < g.len() && (#[trigger] f[i]).0 == (#[trigger] g[j]).0
                ==> f[i].1 == g[j].1)),
    decreases f.len(),
{
    if f == g {
        assert forall|i: int, j: int|
            0 <= i < f.len() && 0 <= j < g.len() && (#[trigger] f[i]).0 == (#[trigger] g[j]).0
                implies f[i].1 == g[j].1 by {
            if i < j {
                crate::text::lemma_chars_lt_irrefl(f[i].0);
            } else if j < i {
                crate::text::lemma_chars_lt_irrefl(f[j].0);
            }
        }
    }
    if (forall|k: Seq<char>| obj_has_key(f, k) <==> obj_has_key(g, k)) && (forall|i: int, j: int|
        0 <= i < f.len() && 0 <= j < g.len() && (#[trigger] f[i]).0 == (#[trigger] g[j]).0
            ==> f[i].1 == g[j].1) {
        if f.len() == 0 {
            if g.len() > 0 {
                assert(obj_has_key(g, g[0].0));
                assert(obj_has_key(f, g[0].0));
                assert(false);
            }
            assert(f =~= g);
        } else if g.len() == 0 {
            assert(obj_has_key(f, f[0].0));
            assert(obj_has_key(g, f[0].0));
            assert(false);
        } else {
            let k0 = f[0].0;
            let l0 = g[0].0;
            assert(obj_has_key(f, k0));
            let j0 = choose|j: int| 0 <= j < g.len() && (#[trigger] g[j]).0 == k0;
            assert(obj_has_key(g, l0));
            let i0 = choose|i: int| 0 <= i < f.len() && (#[trigger] f[i]).0 == l0;
            if i0 > 0 && j0 > 0 {
                assert(chars_lt(l0, g[j0].0));
                assert(chars_lt(k0, f[i0].0));
                crate::text::lemma_chars_lt_trans(k0, l0, k0);
                crate::text::lemma_chars_lt_irrefl(k0);
                assert(false);
            }
            assert(k0 == l0);
            assert(f[0].1 == g[0].1);
            assert(f[0] == g[0]);
            let ft = f.drop_first();
            let gt = g.drop_first();
            assert forall|k: Seq<char>| obj_has_key(ft, k) <==> obj_has_key(gt, k) by {
                if obj_has_key(ft, k) {
                    let i = choose|i: int| 0 <= i < ft.len() && (#[trigger] ft[i]).0 == k;
                    assert(ft[i] == f[i + 1]);
                    assert(obj_has_key(f, k));
                    let j = choose|j: int| 0 <= j < g.len() && (#[trigger] g[j]).0 == k;
                    if j == 0 {
                        assert(chars_lt(f[0].0, f[i + 1].0));
                        crate::text::lemma_chars_lt_irrefl(k);
                        assert(false);
                    }
                    assert(gt[j - 1] == g[j]);
                    assert(obj_has_key(gt, k));
                }
                if obj_has_key(gt, k) {
                    let j = choose|j: int| 0 <= j < gt.len() && (#[trigger] gt[j]).0 == k;
                    assert(gt[j] == g[j + 1]);
                    assert(obj_has_key(g, k));
                    let i = choose|i: int| 0 <= i < f.len() && (#[trigger] f[i]).0 == k;
                    if i == 0 {
                        assert(chars_lt(g[0].0, g[j + 1].0));
                        crate::text::lemma_chars_lt_irrefl(k);
                        assert(false);
                    }
                    assert(ft[i - 1] == f[i]);
                    assert(obj_has_key(ft, k));
                }
            }
            assert forall|i: int, j: int|
                0 <= i < ft.len() && 0 <= j < gt.len() && (#[trigger] ft[i]).0 == (#[trigger] gt[j]).0 implies ft[i].1 == gt[j].1 by {
                assert(ft[i] == f[i + 1]);
                assert(gt[j] == g[j + 1]);
            }
            assert(obj_sorted(ft)) by {
                assert forall|i: int, j: int|
                    0 <= i < j < ft.len() implies chars_lt(
                    (#[trigger] ft[i]).0,
                    (#[trigger] ft[j]).0,
                ) by {
                    assert(ft[i] == f[i + 1] && ft[j] == f[j + 1]);
                }
            }
            assert(obj_sorted(gt)) by {
                assert forall|i: int, j: int|
                    0 <= i < j < gt.len() implies chars_lt(
                    (#[trigger] gt[i]).0,
                    (#[trigger] gt[j]).0,
                ) by {
                    assert(gt[i] == g[i + 1] && gt[j] == g[j + 1]);
                }
            }
            lemma_object_equality_is_keyset_equality(ft, gt);
            assert(ft == gt);
            assert forall|i: int| 0 <= i < f.len() implies f[i] == g[i] by {
                if i > 0 {
                    assert(f[i] == ft[i - 1] && g[i] == gt[i - 1]);
                }
            }
            assert(f =~= g);
        }
    }
}

/// The model of a document sequence has the same length and holds the
/// model of each element, in order.
pub proof fn lemma_model_items_pointwise(items: Seq<Json>)
    ensures
        model_items(items).len() == items.len(),
        forall|i: int| 0 <= i < items.len() ==> model_items(items)[i] == (#[trigger] items[i]).model(),
    decreases items,
{
    if items.len() > 0 {
        lemma_model_items_pointwise(items.drop_last());
        assert forall|i: int|
            0 <= i < items.len() implies model_items(items)[i] == (#[trigger] items[i]).model() by {
            if i < items.len() - 1 {
                assert(items.drop_last()[i] == items[i]);
            } else {
                assert(items[i] == items.last());
            }
        }
    }
}

/// The model of a field sequence has the same length and holds the view of
/// each key with the model of each value, in order.
pub proof fn lemma_model_fields_pointwise(fields: Seq<(String, Json)>)
    ensures
        model_fields(fields).len() == fields.len(),
        forall|i: int|
            0 <= i < fields.len() ==> model_fields(fields)[i] == ((#[trigger] fields[i]).0@,
            fields[i].1.model()),
    decreases fields,
{
    if fields.len() > 0 {
        lemma_model_fields_pointwise(fields.drop_last());
        assert forall|i: int|
            0 <= i < fields.len() implies model_fields(fields)[i] == ((#[trigger] fields[i]).0@,
        fields[i].1.model()) by {
            if i < fields.len() - 1 {
                assert(fields.drop_last()[i] == fields[i]);
            } else {
                assert(fields[i] == fields.last());
            }
        }
    }
}

/// The parser's own document type, declared so that the conversion in
/// [`parse_json`] can hold a value of it; the library never looks inside.
#[verifier::external_type_specification]
#[verifier::external_body]
pub struct ExValue(serde_json::Value);

/// The document a given text parses to, when parsing succeeds. Parsing is
/// a function of the text alone, so the result can be given a name; what
/// the name denotes on a given text is only learned by calling
/// [`parse_json`].
pub uninterp spec fn spec_parse_json(text: Seq<char>) -> JsonV;

/// Whether a given text parses as JSON. Like the parsed document itself,
/// this is a function of the text alone.
pub uninterp spec fn json_parses(text: Seq<char>) -> bool;

/// Parses a JSON text into a document.
///
/// Relies on `serde_json::from_str::<serde_json::Value>`: parsing is
/// deterministic in the text, and object fields come out of the parser's
/// ordered map with strictly ascending, unique keys, so the result is
/// well formed. A text that is not valid JSON yields `Err` with the
/// parser's message.
#[verifier::external_body]
pub fn parse_json(text: &str) -> (r: Result<Json, String>)
    ensures
        (r is Ok) == json_parses(text@),
        r is Ok ==> r->Ok_0@ == spec_parse_json(text@) && wf_model(r->Ok_0@),
{
    match serde_json::from_str::<serde_json::Value>(text) {
        Ok(v) => Ok(json_of_value(v)),
        Err(e) => Err(e.to_string()),
    }
}

/// Conversion half of [`parse_json`]: turns the parser's document type
/// into the library's, variant by variant.
///
/// Relies on `serde_json::Value` and `serde_json::Number`: `as_u64` is
/// `Some` exactly for non-negative integers, `as_i64` then catches the
/// negative ones, any other number keeps its shortest decimal rendering;
/// the object map iterates its keys in strictly ascending order.
#[verifier::external_body]
fn json_of_value(v: serde_json::Value) -> (r: Json)
    ensures
        r.wf(),
{
    match v {
        serde_json::Value::Null => Json::Null,
        serde_json::Value::Bool(b) => Json::Bool(b),
        serde_json::Value::Number(n) => match (n.as_u64(), n.as_i64()) {
            (Some(u), _) => Json::UInt(u),
            (None, Some(i)) => Json::Int(i),
            _ => Json::Decimal(n.to_string()),
        },
        serde_json::Value::String(s) => Json::Text(s),
        serde_json::Value::Array(a) => Json::Array(a.into_iter().map(json_of_value).collect()),
        serde_json::Value::Object(m) => Json::Object(m.into_iter().map(|f| (f.0, json_of_value(f.1))).collect()),
    }
}

/// Copies a document; the copy has the same model as the original.
pub fn json_dup(j: &Json) -> (r: Json)
    ensures
        r@ == j@,
    decreases *j,
{
    match j {
        Json::Null => Json::Null,
        Json::Bool(x) => Json::Bool(*x),
        Json::UInt(x) => Json::UInt(*x),
        Json::Int(x) => Json::Int(*x),
        Json::Decimal(x) => Json::Decimal(x.clone()),
        Json::Text(x) => Json::Text(x.clone()),
        Json::Array(xs) => {
            let mut out: Vec<Json> = Vec::new();
            let mut i: usize = 0;
            while i < xs.len()
                invariant
                    i <= xs@.len(),
                    j == Json::Array(*xs),
                    out@.len() == i,
                    forall|k: int| 0 <= k < i ==> model_items(out@)[k] == model_items(xs@)[k],
                decreases xs@.len() - i,
            {
                proof {
                    lemma_model_items_pointwise(xs@);
                    lemma_model_items_pointwise(out@);
                    assert(decreases_to!(*j => (*j)->Array_0));
                    assert((*j)->Array_0 == *xs);
                    assert(decreases_to!(*xs => xs@));
                    assert(decreases_to!(xs@ => xs@[i as int]));
                }
                let d = json_dup(&xs[i]);
                let ghost prev = out@;
                let ghost dm = d@;
                out.push(d);
                proof {
                    lemma_model_items_pointwise(xs@);
                    lemma_model_items_pointwise(prev);
                    lemma_model_items_pointwise(out@);
                    assert forall|k: int| 0 <= k < i + 1 implies model_items(out@)[k] == model_items(
                        xs@,
                    )[k] by {
                        if k < i {
                            assert(out@[k] == prev[k]);
                        } else {
                            assert(out@[k].model() == dm);
                        }
                    }
                }
                i += 1;
            }
            proof {
                lemma_model_items_pointwise(xs@);
                lemma_model_items_pointwise(out@);
                assert(model_items(out@) =~= model_items(xs@));
            }
            Json::Array(out)
        },
        Json::Object(fs) => {
            let mut out: Vec<(String, Json)> = Vec::new();
            let mut i: usize = 0;
            while i < fs.len()
                invariant
                    i <= fs@.len(),
                    j == Json::Object(*fs),
                    out@.len() == i,
                    forall|k: int| 0 <= k < i ==> model_fields(out@)[k] == model_fields(fs@)[k],
                decreases fs@.len() - i,
            {
                proof {
                    lemma_model_fields_pointwise(fs@);
                    lemma_model_fields_pointwise(out@);
                    assert(decreases_to!(*j => (*j)->Object_0));
                    assert((*j)->Object_0 == *fs);
                    assert(decreases_to!(*fs => fs@));
                    assert(decreases_to!(fs@ => fs@[i as int]));
                    assert(decreases_to!(fs@[i as int] => fs@[i as int].1));
                }
                let d = json_dup(&fs[i].1);
                let key = fs[i].0.clone();
                let ghost prev = out@;
                let ghost dm = d@;
                let ghost km = key@;
                out.push((key, d));
                proof {
                    lemma_model_fields_pointwise(fs@);
                    lemma_model_fields_pointwise(prev);
                    lemma_model_fields_pointwise(out@);
                    assert forall|k: int| 0 <= k < i + 1 implies model_fields(out@)[k] == model_fields(
                        fs@,
                    )[k] by {
                        if k < i {
                            assert(out@[k] == prev[k]);
                        } else {
                            assert(out@[k].0@ == km && out@[k].1.model() == dm);
                        }
                    }
                }
                i += 1;
            }
            proof {
                lemma_model_fields_pointwise(fs@);
                lemma_model_fields_pointwise(out@);
                assert(model_fields(out@) =~= model_fields(fs@));
            }
            Json::Object(out)
        },
    }
}

/// Structural equality of two documents: equal exactly when their models
/// are equal. This is the comparison a strict fixture check is built on.
pub fn json_eq(a: &Json, b: &Json) -> (r: bool)
    ensures
        r == (a@ == b@),
    decreases *a,
{
    match (a, b) {
        (Json::Null, Json::Null) => true,
        (Json::Bool(x), Json::Bool(y)) => *x == *y,
        (Json::UInt(x), Json::UInt(y)) => *x == *y,
        (Json::Int(x), Json::Int(y)) => *x == *y,
        (Json::Decimal(x), Json::Decimal(y)) => *x == *y,
        (Json::Text(x), Json::Text(y)) => *x == *y,
        (Json::Array(xs), Json::Array(ys)) => {
            proof {
                lemma_model_items_pointwise(xs@);
                lemma_model_items_pointwise(ys@);
            }
            if xs.len() != ys.len() {
                return false;
            }
            let mut i: usize = 0;
            while i < xs.len()
                invariant
                    i <= xs@.len(),
                    xs@.len() == ys@.len(),
                    a == Json::Array(*xs),
                    b == Json::Array(*ys),
                    forall|j: int| 0 <= j < i ==> model_items(xs@)[j] == model_items(ys@)[j],
                decreases xs@.len() - i,
            {
                proof {
                    lemma_model_items_pointwise(xs@);
                    lemma_model_items_pointwise(ys@);
                    assert(decreases_to!(*a => (*a)->Array_0));
                    assert((*a)->Array_0 == *xs);
                    assert(decreases_to!(*xs => xs@));
                    assert(decreases_to!(xs@ => xs@[i as int]));
                }
                if !json_eq(&xs[i], &ys[i]) {
                    return false;
                }
                i += 1;
            }
            proof {
                lemma_model_items_pointwise(xs@);
                lemma_model_items_pointwise(ys@);
                assert(model_items(xs@) =~= model_items(ys@));
            }
            true
        },
        (Json::Object(xs), Json::Object(ys)) => {
            proof {
                lemma_model_fields_pointwise(xs@);
                lemma_model_fields_pointwise(ys@);
            }
            if xs.len() != ys.len() {
                return false;
            }
            let mut i: usize = 0;
            while i < xs.len()
                invariant
                    i <= xs@.len(),
                    xs@.len() == ys@.len(),
                    a == Json::Object(*xs),
                    b == Json::Object(*ys),
                    forall|j: int| 0 <= j < i ==> model_fields(xs@)[j] == model_fields(ys@)[j],
                decreases xs@.len() - i,
            {
                proof {
                    lemma_model_fields_pointwise(xs@);
                    lemma_model_fields_pointwise(ys@);
                    assert(decreases_to!(*a => (*a)->Object_0));
                    assert((*a)->Object_0 == *xs);
                    assert(decreases_to!(*xs => xs@));
                    assert(decreases_to!(xs@ => xs@[i as int]));
                    assert(decreases_to!(xs@[i as int] => xs@[i as int].1));
                }
                if !(xs[i].0 == ys[i].0) {
                    return false;
                }
                if !json_eq(&xs[i].1, &ys[i].1) {
                    return false;
                }
                i += 1;
            }
            proof {
                lemma_model_fields_pointwise(xs@);
                lemma_model_fields_pointwise(ys@);
                assert(model_fields(xs@) =~= model_fields(ys@));
            }
            true
        },
        _ => false,
    }
}

} // verus!
