//! Reducing a document to some of its fields.

use crate::json::{duplicate, find, lookup, object_view, put, reached, Json, JsonView};
use crate::text::{split, split_text, views};
use vstd::prelude::*;

verus! {

/// `m` with `value` reached by `segs`. Objects on the way are created where they
/// are missing; where something else stands on the way, `m` stays as it is.
pub open spec fn inserted(
    m: Map<Seq<char>, JsonView>,
    segs: Seq<Seq<char>>,
    value: JsonView,
) -> Map<Seq<char>, JsonView>
    decreases segs.len(),
{
    if segs.len() == 0 {
        m
    } else if segs.len() == 1 {
        m.insert(segs[0], value)
    } else {
        let entry = if m.contains_key(segs[0]) {
            m[segs[0]]
        } else {
            JsonView::Object(Map::empty())
        };
        match entry {
            JsonView::Object(inner) => m.insert(
                segs[0],
                JsonView::Object(inserted(inner, segs.skip(1), value)),
            ),
            _ => m,
        }
    }
}

/// No piece of the path is empty.
pub open spec fn whole_path(segs: Seq<Seq<char>>) -> bool {
    forall|i: int| 0 <= i < segs.len() ==> (#[trigger] segs[i]).len() > 0
}

/// What one more path adds to a projection.
pub open spec fn with_path(
    m: Map<Seq<char>, JsonView>,
    doc: JsonView,
    path: Seq<char>,
) -> Map<Seq<char>, JsonView> {
    let segs = split(path, '.');
    if !whole_path(segs) {
        m
    } else {
        match reached(doc, segs) {
            Some(v) => inserted(m, segs, v),
            None => m,
        }
    }
}

/// The fields of `doc` that the paths name, nested as they are in `doc`.
pub open spec fn projected(doc: JsonView, paths: Seq<Seq<char>>) -> Map<Seq<char>, JsonView>
    decreases paths.len(),
{
    if paths.len() == 0 {
        Map::empty()
    } else {
        with_path(projected(doc, paths.drop_last()), doc, paths.last())
    }
}

/// Taking out one entry of a key and giving the key a value is giving it that
/// value.
proof fn lemma_object_remove(entries: Seq<(String, Json)>, i: int, value: JsonView)
    requires
        0 <= i < entries.len(),
    ensures
        object_view(entries.remove(i)).insert(entries[i].0@, value) == object_view(entries).insert(
            entries[i].0@,
            value,
        ),
    decreases entries.len(),
{
    let k = entries[i].0@;
    let rest = entries.remove(i);
    let before = entries.drop_last();
    if i == entries.len() - 1 {
        assert(rest =~= before);
        assert(object_view(rest).insert(k, value) =~= object_view(entries).insert(k, value));
    } else {
        lemma_object_remove(before, i, value);
        assert(rest.drop_last() =~= before.remove(i));
        assert(rest.last() == entries.last());
        let l = entries.last().0@;
        let w = entries.last().1@;
        let a = object_view(before.remove(i));
        let b = object_view(before);
        assert(a.insert(k, value) == b.insert(k, value));
        let x = a.insert(l, w).insert(k, value);
        let y = b.insert(l, w).insert(k, value);
        assert forall|key: Seq<char>| #[trigger] x.contains_key(key) implies y.contains_key(key)
            && x[key] == y[key] by {
            if key != k && key != l {
                assert(a.insert(k, value).contains_key(key));
                assert(a.insert(k, value)[key] == b.insert(k, value)[key]);
            }
        }
        assert forall|key: Seq<char>| #[trigger] y.contains_key(key) implies x.contains_key(
            key,
        ) by {
            if key != k && key != l {
                assert(b.insert(k, value).contains_key(key));
            }
        }
        assert(x =~= y);
    }
}

/// Puts `value` where the keys from `at` on lead.
fn insert_nested(out: &mut Vec<(String, Json)>, segs: &Vec<String>, at: usize, value: Json)
    requires
        at < segs@.len(),
    ensures
        object_view(final(out)@) == inserted(
            object_view(old(out)@),
            views(segs@).skip(at as int),
            value@,
        ),
    decreases segs@.len() - at,
{
    let ghost path = views(segs@).skip(at as int);
    let ghost before = out@;
    let key = segs[at].as_str();
    assert(path[0] == key@);
    let n: usize = segs.len();
    if at + 1 == n {
        put(out, key, value);
        return ;
    }
    assert(path.skip(1) =~= views(segs@).skip(at + 1));
    match find(out, key) {
        None => {
            let mut inner: Vec<(String, Json)> = Vec::new();
            assert(object_view(inner@) =~= Map::empty());
            insert_nested(&mut inner, segs, at + 1, value);
            put(out, key, Json::Object(inner));
        },
        Some(i) => {
            let (k, entry) = out.remove(i);
            match entry {
                Json::Object(inner) => {
                    let mut inner = inner;
                    insert_nested(&mut inner, segs, at + 1, value);
                    let ghost rest = out@;
                    out.push((k, Json::Object(inner)));
                    proof {
                        assert(out@.drop_last() =~= rest);
                        lemma_object_remove(before, i as int, out@.last().1@);
                    }
                },
                other => {
                    out.insert(i, (k, other));
                    assert(out@ =~= before);
                },
            }
        },
    }
}

/// Whether no piece of the path is empty.
fn is_whole(segs: &Vec<String>) -> (r: bool)
    ensures
        r == whole_path(views(segs@)),
{
    let mut i: usize = 0;
    while i < segs.len()
        invariant
            i <= segs@.len(),
            forall|k: int| 0 <= k < i ==> (#[trigger] views(segs@)[k]).len() > 0,
        decreases segs@.len() - i,
    {
        if crate::text::chars_of(segs[i].as_str()).len() == 0 {
            assert(views(segs@)[i as int].len() == 0);
            return false;
        }
        i = i + 1;
    }
    true
}

/// Reduces a document to the fields that the paths name, in dot notation. A path
/// that leads nowhere is passed over.
pub fn apply_projection(doc: &Json, paths: &Vec<String>) -> (r: Json)
    ensures
        r@ == JsonView::Object(projected(doc@, views(paths@))),
{
    let ghost all = views(paths@);
    let mut out: Vec<(String, Json)> = Vec::new();
    let mut i: usize = 0;
    assert(all.take(0).len() == 0);
    assert(object_view(out@) =~= Map::empty());
    while i < paths.len()
        invariant
            i <= paths@.len(),
            all == views(paths@),
            object_view(out@) == projected(doc@, all.take(i as int)),
        decreases paths@.len() - i,
    {
        proof {
            assert(all.take(i + 1).drop_last() =~= all.take(i as int));
            assert(all.take(i + 1).last() == paths@[i as int]@);
        }
        let segs = split_text(paths[i].as_str(), '.');
        if is_whole(&segs) {
            match lookup(doc, &segs) {
                Some(v) => {
                    let copy = duplicate(v);
                    assert(views(segs@).skip(0) =~= views(segs@));
                    insert_nested(&mut out, &segs, 0, copy);
                },
                None => {},
            }
        }
        i = i + 1;
    }
    assert(all.take(all.len() as int) =~= all);
    Json::Object(out)
}

// ---- What holds of every projection ----------------------------------------

/// Everything that `a` holds is in `b` too, at the same place.
pub open spec fn within(a: JsonView, b: JsonView) -> bool {
    forall|p: Seq<Seq<char>>| #[trigger]
        reached(a, p) is Some ==> {
            &&& reached(b, p) is Some
            &&& if reached(a, p)->0 is Object {
                reached(b, p)->0 is Object
            } else {
                reached(a, p) == reached(b, p)
            }
        }
}

/// Adding to a part of a document what the document has at a path gives a part of
/// the document that has it, and takes nothing away.
proof fn lemma_insert_within(
    m: Map<Seq<char>, JsonView>,
    d: Map<Seq<char>, JsonView>,
    q: Seq<Seq<char>>,
    w: JsonView,
)
    requires
        within(JsonView::Object(m), JsonView::Object(d)),
        q.len() > 0,
        reached(JsonView::Object(d), q) == Some(w),
    ensures
        within(JsonView::Object(inserted(m, q, w)), JsonView::Object(d)),
        reached(JsonView::Object(inserted(m, q, w)), q) == Some(w),
        forall|p: Seq<Seq<char>>|
            reached(JsonView::Object(m), p) is Some && reached(JsonView::Object(m), p) == reached(
                JsonView::Object(d),
                p,
            ) ==> #[trigger] reached(JsonView::Object(inserted(m, q, w)), p) == reached(
                JsonView::Object(d),
                p,
            ),
    decreases q.len(),
{
    let k = q[0];
    let whole = JsonView::Object(d);
    let part = JsonView::Object(m);
    let out = inserted(m, q, w);
    let grown = JsonView::Object(out);
    let rest = q.skip(1);
    assert(d.contains_key(k));
    assert(reached(d[k], rest) == Some(w));
    if q.len() == 1 {
        assert(rest.len() == 0);
        assert(d[k] == w);
        assert(reached(grown, q) == Some(w)) by {
            reveal_with_fuel(reached, 2);
        }
        assert forall|p: Seq<Seq<char>>| #[trigger] reached(grown, p) is Some implies {
            &&& reached(whole, p) is Some
            &&& if reached(grown, p)->0 is Object {
                reached(whole, p)->0 is Object
            } else {
                reached(grown, p) == reached(whole, p)
            }
        } by {
            if p.len() > 0 && p[0] != k {
                assert(reached(grown, p) == reached(part, p));
            }
        }
        assert forall|p: Seq<Seq<char>>|
            reached(part, p) is Some && reached(part, p) == reached(
                whole,
                p,
            ) implies #[trigger] reached(grown, p) == reached(whole, p) by {
            if p.len() == 0 {
                // The part is the whole, so what is added is there already.
                assert(m == d);
                assert(out =~= d);
            }
        }
    } else {
        // The document has an object at `k`, and so has its part if it has
        // anything there.
        assert(d[k] is Object);
        let inner_d = d[k]->Object_0;
        let inner_m = if m.contains_key(k) {
            m[k]->Object_0
        } else {
            Map::empty()
        };
        if m.contains_key(k) {
            let p = seq![k];
            assert(p.skip(1).len() == 0);
            assert(reached(part, p) == Some(m[k])) by {
                reveal_with_fuel(reached, 2);
            }
            assert(reached(whole, p) == Some(d[k])) by {
                reveal_with_fuel(reached, 2);
            }
            assert(m[k] is Object);
        }
        assert(within(JsonView::Object(inner_m), d[k])) by {
            assert forall|p: Seq<Seq<char>>| #[trigger]
                reached(JsonView::Object(inner_m), p) is Some implies {
                &&& reached(d[k], p) is Some
                &&& if reached(JsonView::Object(inner_m), p)->0 is Object {
                    reached(d[k], p)->0 is Object
                } else {
                    reached(JsonView::Object(inner_m), p) == reached(d[k], p)
                }
            } by {
                if m.contains_key(k) {
                    let longer = seq![k] + p;
                    assert(longer.skip(1) =~= p);
                    assert(reached(part, longer) == reached(m[k], p));
                    assert(reached(whole, longer) == reached(d[k], p));
                }
            }
        }
        lemma_insert_within(inner_m, inner_d, rest, w);
        let inner_out = JsonView::Object(inserted(inner_m, rest, w));
        assert(out == m.insert(k, inner_out));
        assert forall|p: Seq<Seq<char>>| #[trigger] reached(grown, p) is Some implies {
            &&& reached(whole, p) is Some
            &&& if reached(grown, p)->0 is Object {
                reached(whole, p)->0 is Object
            } else {
                reached(grown, p) == reached(whole, p)
            }
        } by {
            if p.len() > 0 {
                if p[0] != k {
                    assert(reached(grown, p) == reached(part, p));
                } else {
                    assert(reached(grown, p) == reached(inner_out, p.skip(1)));
                    assert(reached(whole, p) == reached(d[k], p.skip(1)));
                }
            }
        }
        assert forall|p: Seq<Seq<char>>|
            reached(part, p) is Some && reached(part, p) == reached(
                whole,
                p,
            ) implies #[trigger] reached(grown, p) == reached(whole, p) by {
            if p.len() == 0 {
                assert(m == d);
                let e = Seq::<Seq<char>>::empty();
                assert(reached(JsonView::Object(inner_m), e) == reached(d[k], e));
                assert(reached(inner_out, e) == reached(d[k], e));
                assert(inner_out == d[k]);
                assert(out =~= d);
            } else if p[0] != k {
                assert(reached(grown, p) == reached(part, p));
            } else {
                assert(reached(part, p) == reached(JsonView::Object(inner_m), p.skip(1)));
                assert(reached(grown, p) == reached(inner_out, p.skip(1)));
            }
        }
    }
}

/// The paths of a projection can be followed in the document.
pub open spec fn named(doc: JsonView, path: Seq<char>) -> bool {
    whole_path(split(path, '.')) && reached(doc, split(path, '.')) is Some
}

/// A projection holds nothing that the document does not hold at the same place,
/// and it holds every field that is asked for and that the document has.
pub proof fn law_projection_is_part_of_the_document(
    d: Map<Seq<char>, JsonView>,
    paths: Seq<Seq<char>>,
)
    ensures
        within(
            JsonView::Object(projected(JsonView::Object(d), paths)),
            JsonView::Object(d),
        ),
        forall|i: int|
            0 <= i < paths.len() && named(JsonView::Object(d), #[trigger] paths[i]) ==> reached(
                JsonView::Object(projected(JsonView::Object(d), paths)),
                split(paths[i], '.'),
            ) == reached(JsonView::Object(d), split(paths[i], '.')),
    decreases paths.len(),
{
    let doc = JsonView::Object(d);
    if paths.len() == 0 {
        let none = JsonView::Object(projected(doc, paths));
        assert forall|p: Seq<Seq<char>>| #[trigger] reached(none, p) is Some implies {
            &&& reached(doc, p) is Some
            &&& if reached(none, p)->0 is Object {
                reached(doc, p)->0 is Object
            } else {
                reached(none, p) == reached(doc, p)
            }
        } by {
            assert(p.len() == 0);
        }
    } else {
        let before = paths.drop_last();
        law_projection_is_part_of_the_document(d, before);
        let m = projected(doc, before);
        let segs = split(paths.last(), '.');
        crate::text::lemma_split_nonempty(paths.last(), '.');
        if let Some(w) = reached(doc, segs) {
            lemma_insert_within(m, d, segs, w);
        }
        assert forall|i: int| 0 <= i < paths.len() && named(doc, #[trigger] paths[i]) implies
            reached(JsonView::Object(projected(doc, paths)), split(paths[i], '.')) == reached(
            doc,
            split(paths[i], '.'),
        ) by {
            if i < before.len() {
                assert(before[i] == paths[i]);
                assert(reached(JsonView::Object(m), split(paths[i], '.')) == reached(
                    doc,
                    split(paths[i], '.'),
                ));
            }
        }
    }
}

/// The path `q` goes on where `s` ends, or ends there too.
pub open spec fn leads_to(s: Seq<Seq<char>>, q: Seq<Seq<char>>) -> bool {
    s.len() <= q.len() && q.take(s.len() as int) == s
}

/// The place `q` is one that a path names, or lies below one.
pub open spec fn at_or_below(doc: JsonView, paths: Seq<Seq<char>>, q: Seq<Seq<char>>) -> bool {
    exists|i: int|
        0 <= i < paths.len() && named(doc, #[trigger] paths[i]) && leads_to(
            split(paths[i], '.'),
            q,
        )
}

/// The place `q` lies above one that a path names; the document itself lies above all.
pub open spec fn above(doc: JsonView, paths: Seq<Seq<char>>, q: Seq<Seq<char>>) -> bool {
    q.len() == 0 || exists|i: int|
        0 <= i < paths.len() && named(doc, #[trigger] paths[i]) && leads_to(
            q,
            split(paths[i], '.'),
        )
}

/// What a projection has at a place: at and below what a path names it has what the
/// document has there, above it there is an object, and anywhere else there is nothing.
pub open spec fn holds_at(
    r: JsonView,
    doc: JsonView,
    paths: Seq<Seq<char>>,
    q: Seq<Seq<char>>,
) -> bool {
    if at_or_below(doc, paths, q) {
        reached(r, q) == reached(doc, q)
    } else if above(doc, paths, q) {
        reached(r, q) matches Some(v) && v is Object
    } else {
        reached(r, q) is None
    }
}

/// What is reached by a path and then by another is reached by both in one.
proof fn lemma_reached_further(v: JsonView, s: Seq<Seq<char>>, q: Seq<Seq<char>>)
    requires
        leads_to(s, q),
    ensures
        reached(v, q) == (match reached(v, s) {
            Some(w) => reached(w, q.skip(s.len() as int)),
            None => None,
        }),
    decreases s.len(),
{
    if s.len() == 0 {
        assert(q.skip(0) =~= q);
    } else {
        assert(q[0] == q.take(s.len() as int)[0]);
        assert(leads_to(s.skip(1), q.skip(1))) by {
            assert(q.skip(1).take(s.len() - 1) =~= q.take(s.len() as int).skip(1));
        }
        assert(q.skip(1).skip(s.len() - 1) =~= q.skip(s.len() as int));
        if let Some(inner) = crate::json::member(v, q[0]) {
            lemma_reached_further(inner, s.skip(1), q.skip(1));
        }
    }
}

/// Where a path is put into a part of a document, places apart from it stay as they
/// are, and places above it hold objects.
proof fn lemma_insert_elsewhere(
    m: Map<Seq<char>, JsonView>,
    d: Map<Seq<char>, JsonView>,
    s: Seq<Seq<char>>,
    w: JsonView,
    q: Seq<Seq<char>>,
)
    requires
        within(JsonView::Object(m), JsonView::Object(d)),
        s.len() > 0,
        reached(JsonView::Object(d), s) == Some(w),
    ensures
        !leads_to(s, q) && !leads_to(q, s) ==> reached(JsonView::Object(inserted(m, s, w)), q)
            == reached(JsonView::Object(m), q),
        !leads_to(s, q) && leads_to(q, s) ==> (reached(JsonView::Object(inserted(m, s, w)), q)
            matches Some(v) && v is Object),
    decreases s.len(),
{
    let k = s[0];
    let out = inserted(m, s, w);
    let grown = JsonView::Object(out);
    let rest = s.skip(1);
    assert(d.contains_key(k));
    assert(reached(d[k], rest) == Some(w));
    if q.len() > 0 {
        if s.len() == 1 {
            if q[0] == k {
                assert(q.take(1) =~= s);
                assert(leads_to(s, q));
            } else {
                assert(reached(grown, q) == reached(JsonView::Object(m), q));
                if leads_to(q, s) {
                    assert(s.take(q.len() as int)[0] == q[0]);
                }
            }
        } else {
            assert(d[k] is Object);
            let inner_d = d[k]->Object_0;
            if m.contains_key(k) {
                let p = seq![k];
                assert(p.skip(1).len() == 0);
                assert(reached(JsonView::Object(m), p) == Some(m[k])) by {
                    reveal_with_fuel(reached, 2);
                }
                assert(reached(JsonView::Object(d), p) == Some(d[k])) by {
                    reveal_with_fuel(reached, 2);
                }
                assert(m[k] is Object);
            }
            let inner_m = if m.contains_key(k) {
                m[k]->Object_0
            } else {
                Map::empty()
            };
            assert(within(JsonView::Object(inner_m), d[k])) by {
                assert forall|p: Seq<Seq<char>>| #[trigger]
                    reached(JsonView::Object(inner_m), p) is Some implies {
                    &&& reached(d[k], p) is Some
                    &&& if reached(JsonView::Object(inner_m), p)->0 is Object {
                        reached(d[k], p)->0 is Object
                    } else {
                        reached(JsonView::Object(inner_m), p) == reached(d[k], p)
                    }
                } by {
                    if m.contains_key(k) {
                        let longer = seq![k] + p;
                        assert(longer.skip(1) =~= p);
                        assert(reached(JsonView::Object(m), longer) == reached(m[k], p));
                        assert(reached(JsonView::Object(d), longer) == reached(d[k], p));
                    }
                }
            }
            let inner_out = JsonView::Object(inserted(inner_m, rest, w));
            assert(out == m.insert(k, inner_out));
            if q[0] == k {
                let below = q.skip(1);
                lemma_insert_elsewhere(inner_m, inner_d, rest, w, below);
                assert(reached(grown, q) == reached(inner_out, below));
                assert(leads_to(s, q) == leads_to(rest, below)) by {
                    if leads_to(s, q) {
                        assert(below.take(rest.len() as int) =~= q.take(s.len() as int).skip(1));
                    }
                    if leads_to(rest, below) {
                        assert(q.take(s.len() as int) =~= seq![k] + below.take(rest.len() as int));
                        assert(s =~= seq![k] + rest);
                    }
                }
                assert(leads_to(q, s) == leads_to(below, rest)) by {
                    if leads_to(q, s) {
                        assert(rest.take(below.len() as int) =~= s.take(q.len() as int).skip(1));
                    }
                    if leads_to(below, rest) {
                        assert(s.take(q.len() as int) =~= seq![k] + rest.take(below.len() as int));
                        assert(q =~= seq![k] + below);
                    }
                }
                if !leads_to(rest, below) && !leads_to(below, rest) {
                    assert(below.len() > 0) by {
                        if below.len() == 0 {
                            assert(rest.take(0) =~= below);
                        }
                    }
                    if m.contains_key(k) {
                        assert(reached(JsonView::Object(m), q) == reached(m[k], below));
                    } else {
                        assert(reached(JsonView::Object(inner_m), below) is None);
                    }
                }
            } else {
                assert(reached(grown, q) == reached(JsonView::Object(m), q));
                if leads_to(q, s) {
                    assert(s.take(q.len() as int)[0] == q[0]);
                }
                if leads_to(s, q) {
                    assert(q.take(s.len() as int)[0] == s[0]);
                }
            }
        }
    } else {
        assert(s.take(0) =~= q);
    }
}

/// A projection holds, at every place, what `holds_at` says: the fields that the paths
/// name, whole, with the objects that lead to them, and nothing else.
pub proof fn law_projection_holds_what_is_named(
    d: Map<Seq<char>, JsonView>,
    paths: Seq<Seq<char>>,
    q: Seq<Seq<char>>,
)
    ensures
        holds_at(
            JsonView::Object(projected(JsonView::Object(d), paths)),
            JsonView::Object(d),
            paths,
            q,
        ),
    decreases paths.len(),
{
    let doc = JsonView::Object(d);
    if paths.len() > 0 {
        let before = paths.drop_last();
        let n = paths.len() - 1;
        law_projection_holds_what_is_named(d, before, q);
        law_projection_is_part_of_the_document(d, before);
        let m = projected(doc, before);
        let r = JsonView::Object(projected(doc, paths));
        let s = split(paths.last(), '.');
        crate::text::lemma_split_nonempty(paths.last(), '.');
        assert(paths.last() == paths[n]);
        if at_or_below(doc, before, q) {
            let i = choose|i: int|
                0 <= i < before.len() && named(doc, #[trigger] before[i]) && leads_to(
                    split(before[i], '.'),
                    q,
                );
            assert(paths[i] == before[i]);
            assert(at_or_below(doc, paths, q));
        }
        if above(doc, before, q) && q.len() > 0 {
            let i = choose|i: int|
                0 <= i < before.len() && named(doc, #[trigger] before[i]) && leads_to(
                    q,
                    split(before[i], '.'),
                );
            assert(paths[i] == before[i]);
            assert(above(doc, paths, q));
        }
        if at_or_below(doc, paths, q) {
            let i = choose|i: int|
                0 <= i < paths.len() && named(doc, #[trigger] paths[i]) && leads_to(
                    split(paths[i], '.'),
                    q,
                );
            if i < n {
                assert(before[i] == paths[i]);
            }
        }
        if above(doc, paths, q) && q.len() > 0 {
            let i = choose|i: int|
                0 <= i < paths.len() && named(doc, #[trigger] paths[i]) && leads_to(
                    q,
                    split(paths[i], '.'),
                );
            if i < n {
                assert(before[i] == paths[i]);
            }
        }
        if named(doc, paths.last()) {
            let w = reached(doc, s)->0;
            lemma_insert_within(m, d, s, w);
            lemma_insert_elsewhere(m, d, s, w, q);
            if leads_to(s, q) {
                lemma_reached_further(r, s, q);
                lemma_reached_further(doc, s, q);
            } else if at_or_below(doc, before, q) {
                if reached(doc, q) is None {
                    // The projection is part of the document.
                    law_projection_is_part_of_the_document(d, paths);
                }
            }
        }
    }
}

/// Two values hold the same at a place: nothing, or an object both, or one value.
pub open spec fn alike_at(a: JsonView, b: JsonView, q: Seq<Seq<char>>) -> bool {
    match (reached(a, q), reached(b, q)) {
        (None, None) => true,
        (Some(x), Some(y)) => (x is Object && y is Object) || x == y,
        _ => false,
    }
}

/// Values that are alike at every place are equal.
proof fn lemma_alike_everywhere(a: JsonView, b: JsonView)
    requires
        forall|q: Seq<Seq<char>>| #[trigger] alike_at(a, b, q),
    ensures
        a == b,
    decreases a,
{
    assert(alike_at(a, b, Seq::empty()));
    if a is Object {
        let m = a->Object_0;
        let n = b->Object_0;
        assert forall|k: Seq<char>| #[trigger] m.contains_key(k) == n.contains_key(k) by {
            let one = seq![k];
            assert(one.skip(1).len() == 0);
            assert(alike_at(a, b, one));
            reveal_with_fuel(reached, 2);
        }
        assert forall|k: Seq<char>| #[trigger] m.contains_key(k) implies m[k] == n[k] by {
            assert forall|q: Seq<Seq<char>>| #[trigger] alike_at(m[k], n[k], q) by {
                let longer = seq![k] + q;
                assert(longer.skip(1) =~= q);
                assert(alike_at(a, b, longer));
            }
            lemma_alike_everywhere(m[k], n[k]);
        }
        assert(m =~= n);
    }
}

/// A projection does not depend on the order of its paths, nor on how often one is
/// named.
pub proof fn law_order_of_paths_does_not_matter(
    d: Map<Seq<char>, JsonView>,
    paths: Seq<Seq<char>>,
    others: Seq<Seq<char>>,
)
    requires
        forall|i: int| 0 <= i < paths.len() ==> others.contains(#[trigger] paths[i]),
        forall|i: int| 0 <= i < others.len() ==> paths.contains(#[trigger] others[i]),
    ensures
        projected(JsonView::Object(d), paths) == projected(JsonView::Object(d), others),
{
    let doc = JsonView::Object(d);
    let a = JsonView::Object(projected(doc, paths));
    let b = JsonView::Object(projected(doc, others));
    assert forall|q: Seq<Seq<char>>| #[trigger] alike_at(a, b, q) by {
        law_projection_holds_what_is_named(d, paths, q);
        law_projection_holds_what_is_named(d, others, q);
        lemma_same_places(doc, doc, paths, others, q);
        lemma_same_places(doc, doc, others, paths, q);
    }
    lemma_alike_everywhere(a, b);
}

/// Places that some paths name are named by every list that holds those paths.
proof fn lemma_same_places(
    doc: JsonView,
    other: JsonView,
    paths: Seq<Seq<char>>,
    others: Seq<Seq<char>>,
    q: Seq<Seq<char>>,
)
    requires
        forall|i: int|
            0 <= i < paths.len() && named(doc, #[trigger] paths[i]) ==> others.contains(paths[i])
                && named(other, paths[i]),
    ensures
        at_or_below(doc, paths, q) ==> at_or_below(other, others, q),
        above(doc, paths, q) ==> above(other, others, q),
{
    if at_or_below(doc, paths, q) {
        let i = choose|i: int|
            0 <= i < paths.len() && named(doc, #[trigger] paths[i]) && leads_to(
                split(paths[i], '.'),
                q,
            );
        let j = choose|j: int| 0 <= j < others.len() && others[j] == paths[i];
        assert(named(other, others[j]));
    }
    if above(doc, paths, q) && q.len() > 0 {
        let i = choose|i: int|
            0 <= i < paths.len() && named(doc, #[trigger] paths[i]) && leads_to(
                q,
                split(paths[i], '.'),
            );
        let j = choose|j: int| 0 <= j < others.len() && others[j] == paths[i];
        assert(named(other, others[j]));
    }
}

/// A projection has at each of its paths what the document has there, or nothing where
/// the document has nothing.
pub proof fn law_projection_agrees_on_its_paths(
    d: Map<Seq<char>, JsonView>,
    paths: Seq<Seq<char>>,
    i: int,
)
    requires
        0 <= i < paths.len(),
        whole_path(split(paths[i], '.')),
    ensures
        reached(
            JsonView::Object(projected(JsonView::Object(d), paths)),
            split(paths[i], '.'),
        ) == reached(JsonView::Object(d), split(paths[i], '.')),
{
    law_projection_is_part_of_the_document(d, paths);
    assert(named(JsonView::Object(d), paths[i]) == (reached(
        JsonView::Object(d),
        split(paths[i], '.'),
    ) is Some));
}

/// A projection of a projection by the same paths changes nothing.
pub proof fn law_projecting_twice_changes_nothing(
    d: Map<Seq<char>, JsonView>,
    paths: Seq<Seq<char>>,
)
    ensures
        projected(JsonView::Object(projected(JsonView::Object(d), paths)), paths) == projected(
            JsonView::Object(d),
            paths,
        ),
{
    let doc = JsonView::Object(d);
    let e = projected(doc, paths);
    let once = JsonView::Object(e);
    let twice = JsonView::Object(projected(once, paths));
    assert forall|i: int| 0 <= i < paths.len() implies named(doc, #[trigger] paths[i]) == named(
        once,
        paths[i],
    ) && paths.contains(paths[i]) by {
        if whole_path(split(paths[i], '.')) {
            law_projection_agrees_on_its_paths(d, paths, i);
        }
    }
    assert forall|q: Seq<Seq<char>>| #[trigger] alike_at(twice, once, q) by {
        law_projection_holds_what_is_named(d, paths, q);
        law_projection_holds_what_is_named(e, paths, q);
        lemma_same_places(doc, once, paths, paths, q);
        lemma_same_places(once, doc, paths, paths, q);
    }
    lemma_alike_everywhere(twice, once);
}

} // verus!
