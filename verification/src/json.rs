//! JSON values: what a document, a filter, or a message payload is made of.
//!
//! An object keeps its entries in the order in which they are walked. Its
//! meaning is a map: where a key occurs twice, the later entry counts.

use crate::text::same;
use vstd::prelude::*;

verus! {

/// A JSON number: an unsigned integer, a negative integer, or anything else as
/// the bits of a finite double.
#[derive(Debug, Clone, Copy)]
pub enum Number {
    PosInt(u64),
    NegInt(i64),
    Float(u64),
}

/// A JSON value.
#[derive(Debug)]
pub enum Json {
    Null,
    Bool(bool),
    Number(Number),
    Text(String),
    Array(Vec<Json>),
    Object(Vec<(String, Json)>),
}

/// What a number means: positive and negative zero are one double.
pub enum NumberView {
    PosInt(u64),
    NegInt(i64),
    Float(u64),
}

/// What a JSON value means.
pub enum JsonView {
    Null,
    Bool(bool),
    Number(NumberView),
    Text(Seq<char>),
    Array(Seq<JsonView>),
    Object(Map<Seq<char>, JsonView>),
}

/// The bits of a double, with negative zero read as zero.
pub open spec fn double_value(bits: u64) -> u64 {
    if bits == 0x8000_0000_0000_0000 {
        0
    } else {
        bits
    }
}

pub open spec fn number_view(n: Number) -> NumberView {
    match n {
        Number::PosInt(u) => NumberView::PosInt(u),
        Number::NegInt(i) => NumberView::NegInt(i),
        Number::Float(b) => NumberView::Float(double_value(b)),
    }
}

/// The map that a list of entries stands for.
pub open spec fn object_view(entries: Seq<(String, Json)>) -> Map<Seq<char>, JsonView>
    decreases entries,
{
    if entries.len() == 0 {
        Map::empty()
    } else {
        object_view(entries.drop_last()).insert(
            entries.last().0@,
            json_view(entries.last().1),
        )
    }
}

pub open spec fn json_view(j: Json) -> JsonView
    decreases j,
{
    match j {
        Json::Null => JsonView::Null,
        Json::Bool(b) => JsonView::Bool(b),
        Json::Number(n) => JsonView::Number(number_view(n)),
        Json::Text(s) => JsonView::Text(s@),
        Json::Array(v) => JsonView::Array(
            Seq::new(
                v@.len(),
                |i: int|
                    if 0 <= i < v@.len() {
                        json_view(v@[i])
                    } else {
                        JsonView::Null
                    },
            ),
        ),
        Json::Object(e) => JsonView::Object(object_view(e@)),
    }
}

impl View for Json {
    type V = JsonView;

    open spec fn view(&self) -> JsonView {
        json_view(*self)
    }
}

/// An absent value, or the meaning of a present one.
pub open spec fn option_view(j: Option<Json>) -> Option<JsonView> {
    match j {
        Some(v) => Some(v@),
        None => None,
    }
}

/// The value under `key`, in an object that has it.
pub open spec fn member(v: JsonView, key: Seq<char>) -> Option<JsonView> {
    match v {
        JsonView::Object(m) => if m.contains_key(key) {
            Some(m[key])
        } else {
            None
        },
        _ => None,
    }
}

/// The value that is reached from `v` by the keys of `path`, one after another.
pub open spec fn reached(v: JsonView, path: Seq<Seq<char>>) -> Option<JsonView>
    decreases path.len(),
{
    if path.len() == 0 {
        Some(v)
    } else {
        match member(v, path[0]) {
            Some(inner) => reached(inner, path.skip(1)),
            None => None,
        }
    }
}

// ---- Building --------------------------------------------------------------

/// A text value.
pub fn json_text(s: &str) -> (r: Json)
    ensures
        r@ == JsonView::Text(s@),
{
    Json::Text(s.to_string())
}

/// An integer value.
pub fn json_int(n: i64) -> (r: Json)
    ensures
        r@ == int_view(n as int),
{
    if n < 0 {
        Json::Number(Number::NegInt(n))
    } else {
        Json::Number(Number::PosInt(n as u64))
    }
}

/// An unsigned integer value.
pub fn json_uint(n: u64) -> (r: Json)
    ensures
        r@ == int_view(n as int),
{
    Json::Number(Number::PosInt(n))
}

/// The JSON number of an integer that fits in 64 bits.
pub open spec fn int_view(n: int) -> JsonView {
    if n < 0 {
        JsonView::Number(NumberView::NegInt(n as i64))
    } else {
        JsonView::Number(NumberView::PosInt(n as u64))
    }
}

/// Adds an entry to an object under construction.
pub fn put(entries: &mut Vec<(String, Json)>, key: &str, value: Json)
    ensures
        object_view(final(entries)@) == object_view(old(entries)@).insert(key@, value@),
{
    let ghost before = entries@;
    let k = key.to_string();
    entries.push((k, value));
    assert(entries@.drop_last() =~= before);
}

// ---- Reading ---------------------------------------------------------------

/// Where the entry that counts for `key` stands.
pub fn find(entries: &Vec<(String, Json)>, key: &str) -> (r: Option<usize>)
    ensures
        match r {
            Some(i) => {
                &&& i < entries@.len()
                &&& entries@[i as int].0@ == key@
                &&& object_view(entries@).contains_key(key@)
                &&& object_view(entries@)[key@] == entries@[i as int].1@
            },
            None => !object_view(entries@).contains_key(key@),
        },
{
    let mut i: usize = entries.len();
    assert(entries@.take(i as int) =~= entries@);
    while i > 0
        invariant
            i <= entries@.len(),
            object_view(entries@).contains_key(key@) == object_view(
                entries@.take(i as int),
            ).contains_key(key@),
            object_view(entries@).contains_key(key@) ==> object_view(entries@)[key@]
                == object_view(entries@.take(i as int))[key@],
        decreases i,
    {
        let ghost here = entries@.take(i as int);
        proof {
            assert(here.drop_last() =~= entries@.take(i - 1));
            assert(here.last() == entries@[i - 1]);
        }
        if same(entries[i - 1].0.as_str(), key) {
            return Some(i - 1);
        }
        i = i - 1;
    }
    assert(entries@.take(0).len() == 0);
    None
}

/// The value under `key`, in an object that has it.
pub fn get<'a>(v: &'a Json, key: &str) -> (r: Option<&'a Json>)
    ensures
        match r {
            Some(j) => member(v@, key@) == Some(j@),
            None => member(v@, key@) is None,
        },
{
    match v {
        Json::Object(e) => match find(e, key) {
            Some(i) => Some(&e[i].1),
            None => None,
        },
        _ => None,
    }
}

/// The value that is reached from `doc` by the keys of `path`.
pub fn lookup<'a>(doc: &'a Json, path: &Vec<String>) -> (r: Option<&'a Json>)
    ensures
        match r {
            Some(j) => reached(doc@, crate::text::views(path@)) == Some(j@),
            None => reached(doc@, crate::text::views(path@)) is None,
        },
{
    let ghost full = crate::text::views(path@);
    let mut cur = doc;
    let mut i: usize = 0;
    assert(full.skip(0) =~= full);
    while i < path.len()
        invariant
            i <= path@.len(),
            full == crate::text::views(path@),
            reached(doc@, full) == reached(cur@, full.skip(i as int)),
        decreases path@.len() - i,
    {
        proof {
            assert(full.skip(i as int)[0] == path@[i as int]@);
            assert(full.skip(i as int).skip(1) =~= full.skip(i + 1));
        }
        match get(cur, path[i].as_str()) {
            Some(next) => {
                cur = next;
            },
            None => {
                return None;
            },
        }
        i = i + 1;
    }
    Some(cur)
}

// ---- Copying and comparing -------------------------------------------------

/// A value with the same meaning.
pub fn duplicate(j: &Json) -> (r: Json)
    ensures
        r@ == j@,
    decreases *j,
{
    match j {
        Json::Null => Json::Null,
        Json::Bool(b) => Json::Bool(*b),
        Json::Number(n) => Json::Number(*n),
        Json::Text(s) => Json::Text(s.clone()),
        Json::Array(v) => {
            let mut out: Vec<Json> = Vec::new();
            let mut i: usize = 0;
            #[verifier::loop_isolation(false)]
            while i < v.len()
                invariant
                    i <= v@.len(),
                    out@.len() == i,
                    forall|k: int| 0 <= k < i ==> (#[trigger] out@[k])@ == v@[k]@,
                decreases v@.len() - i,
            {
                let c = duplicate(&v[i]);
                out.push(c);
                i = i + 1;
            }
            let r = Json::Array(out);
            assert(r@->Array_0 =~= j@->Array_0);
            r
        },
        Json::Object(e) => {
            let mut out: Vec<(String, Json)> = Vec::new();
            let mut i: usize = 0;
            assert(e@.take(0) =~= out@);
            #[verifier::loop_isolation(false)]
            while i < e.len()
                invariant
                    i <= e@.len(),
                    object_view(out@) == object_view(e@.take(i as int)),
                decreases e@.len() - i,
            {
                let ghost before = out@;
                let c = duplicate(&e[i].1);
                out.push((e[i].0.clone(), c));
                proof {
                    assert(out@.drop_last() =~= before);
                    assert(e@.take(i + 1).drop_last() =~= e@.take(i as int));
                    assert(e@.take(i + 1).last() == e@[i as int]);
                }
                i = i + 1;
            }
            assert(e@.take(e@.len() as int) =~= e@);
            Json::Object(out)
        },
    }
}

/// Whether two numbers mean the same.
fn same_number(a: &Number, b: &Number) -> (r: bool)
    ensures
        r == (number_view(*a) == number_view(*b)),
{
    match (a, b) {
        (Number::PosInt(x), Number::PosInt(y)) => *x == *y,
        (Number::NegInt(x), Number::NegInt(y)) => *x == *y,
        (Number::Float(x), Number::Float(y)) => *x == *y || ((*x == 0 || *x
            == 0x8000_0000_0000_0000) && (*y == 0 || *y == 0x8000_0000_0000_0000)),
        _ => false,
    }
}

/// An object has a key exactly when one of its entries does.
proof fn lemma_object_keys(entries: Seq<(String, Json)>, key: Seq<char>)
    ensures
        object_view(entries).contains_key(key) <==> exists|i: int|
            0 <= i < entries.len() && (#[trigger] entries[i]).0@ == key,
    decreases entries.len(),
{
    if entries.len() > 0 {
        let before = entries.drop_last();
        lemma_object_keys(before, key);
        if object_view(before).contains_key(key) {
            let i = choose|i: int| 0 <= i < before.len() && (#[trigger] before[i]).0@ == key;
            assert(entries[i].0@ == key);
        }
        if exists|i: int| 0 <= i < entries.len() && (#[trigger] entries[i]).0@ == key {
            let i = choose|i: int| 0 <= i < entries.len() && (#[trigger] entries[i]).0@ == key;
            if i < before.len() {
                assert(before[i].0@ == key);
            }
        }
        if entries.last().0@ == key {
            assert(entries[entries.len() - 1].0@ == key);
        }
    }
}

/// Whether two values mean the same.
pub fn json_eq(a: &Json, b: &Json) -> (r: bool)
    ensures
        r == (a@ == b@),
    decreases *a,
{
    match (a, b) {
        (Json::Null, Json::Null) => true,
        (Json::Bool(x), Json::Bool(y)) => *x == *y,
        (Json::Number(x), Json::Number(y)) => same_number(x, y),
        (Json::Text(x), Json::Text(y)) => same(x.as_str(), y.as_str()),
        (Json::Array(x), Json::Array(y)) => {
            if x.len() != y.len() {
                assert(a@->Array_0.len() != b@->Array_0.len());
                return false;
            }
            let mut i: usize = 0;
            #[verifier::loop_isolation(false)]
            while i < x.len()
                invariant
                    i <= x@.len(),
                    forall|k: int| 0 <= k < i ==> (#[trigger] x@[k])@ == y@[k]@,
                decreases x@.len() - i,
            {
                if !json_eq(&x[i], &y[i]) {
                    proof {
                        assert(a@->Array_0[i as int] == x@[i as int]@);
                        assert(b@->Array_0[i as int] == y@[i as int]@);
                    }
                    return false;
                }
                i = i + 1;
            }
            assert(a@->Array_0 =~= b@->Array_0);
            true
        },
        (Json::Object(x), Json::Object(y)) => {
            let ghost m = object_view(x@);
            let ghost w = object_view(y@);
            let mut i: usize = 0;
            #[verifier::loop_isolation(false)]
            while i < x.len()
                invariant
                    i <= x@.len(),
                    forall|k: int|
                        0 <= k < i ==> w.contains_key((#[trigger] x@[k]).0@) && w[x@[k].0@]
                            == m[x@[k].0@],
                decreases x@.len() - i,
            {
                let key = x[i].0.as_str();
                proof {
                    lemma_object_keys(x@, key@);
                    assert(x@[i as int].0@ == key@);
                }
                match (find(x, key), find(y, key)) {
                    (Some(p), Some(q)) => {
                        if !json_eq(&x[p].1, &y[q].1) {
                            return false;
                        }
                    },
                    _ => {
                        return false;
                    },
                }
                i = i + 1;
            }
            let mut j: usize = 0;
            #[verifier::loop_isolation(false)]
            while j < y.len()
                invariant
                    j <= y@.len(),
                    forall|k: int| 0 <= k < j ==> m.contains_key((#[trigger] y@[k]).0@),
                decreases y@.len() - j,
            {
                let key = y[j].0.as_str();
                proof {
                    lemma_object_keys(y@, key@);
                    assert(y@[j as int].0@ == key@);
                }
                if find(x, key).is_none() {
                    return false;
                }
                j = j + 1;
            }
            proof {
                assert forall|k: Seq<char>| m.contains_key(k) <==> w.contains_key(k) by {
                    lemma_object_keys(x@, k);
                    lemma_object_keys(y@, k);
                }
                assert forall|k: Seq<char>| m.contains_key(k) implies m[k] == w[k] by {
                    lemma_object_keys(x@, k);
                }
                assert(m =~= w);
            }
            true
        },
        _ => false,
    }
}

} // verus!
