//! The crate's own JSON value model.
//!
//! Pipeline definitions, override patches and notification payloads all
//! travel as JSON.  `JsonValue` holds such a document as plain values; its
//! mathematical model is `JsonVal`, built from `Seq`s.  Numbers that are
//! not integers are kept as their decimal text, so the model stays exact
//! and the merge engine can move them around without interpreting them.
//!
//! Objects are sequences of key/value pairs: insertion order is preserved,
//! and lookup returns the first binding of a key.

use vstd::prelude::*;

verus! {

/// Mathematical model of a JSON document.
#[verifier::ext_equal]
pub enum JsonVal {
    Null,
    Bool(bool),
    Int(i64),
    /// A non-integer JSON number, as its decimal text.
    Num(Seq<char>),
    Str(Seq<char>),
    Arr(Seq<JsonVal>),
    Obj(Seq<(Seq<char>, JsonVal)>),
}

/// A JSON document as plain executable values.
#[derive(Debug, PartialEq, Eq)]
pub enum JsonValue {
    Null,
    Bool(bool),
    Int(i64),
    /// A non-integer JSON number, as its decimal text.
    Num(String),
    Str(String),
    Arr(Vec<JsonValue>),
    Obj(Vec<(String, JsonValue)>),
}

/// Model of an array's elements.
pub open spec fn arr_view(xs: Seq<JsonValue>) -> Seq<JsonVal>
    decreases xs,
{
    if xs.len() == 0 {
        Seq::empty()
    } else {
        arr_view(xs.drop_last()).push(json_view(xs.last()))
    }
}

/// Model of an object's field list.
pub open spec fn fields_view(fs: Seq<(String, JsonValue)>) -> Seq<(Seq<char>, JsonVal)>
    decreases fs,
{
    if fs.len() == 0 {
        Seq::empty()
    } else {
        fields_view(fs.drop_last()).push((fs.last().0@, json_view(fs.last().1)))
    }
}

/// Model of a JSON value.
pub open spec fn json_view(v: JsonValue) -> JsonVal
    decreases v,
{
    match v {
        JsonValue::Null => JsonVal::Null,
        JsonValue::Bool(b) => JsonVal::Bool(b),
        JsonValue::Int(i) => JsonVal::Int(i),
        JsonValue::Num(s) => JsonVal::Num(s@),
        JsonValue::Str(s) => JsonVal::Str(s@),
        JsonValue::Arr(xs) => JsonVal::Arr(arr_view(xs@)),
        JsonValue::Obj(fs) => JsonVal::Obj(fields_view(fs@)),
    }
}

impl View for JsonValue {
    type V = JsonVal;

    open spec fn view(&self) -> JsonVal {
        json_view(*self)
    }
}

impl DeepView for JsonValue {
    type V = JsonVal;

    open spec fn deep_view(&self) -> JsonVal {
        json_view(*self)
    }
}

/// An array's model has one element per array element.
pub broadcast proof fn lemma_arr_view_len(xs: Seq<JsonValue>)
    ensures
        #[trigger] arr_view(xs).len() == xs.len(),
    decreases xs,
{
    if xs.len() > 0 {
        lemma_arr_view_len(xs.drop_last());
    }
}

/// An array's model is the elementwise model.
pub broadcast proof fn lemma_arr_view_index(xs: Seq<JsonValue>, i: int)
    requires
        0 <= i < xs.len(),
    ensures
        #[trigger] arr_view(xs)[i] == json_view(xs[i]),
    decreases xs,
{
    lemma_arr_view_len(xs);
    if i < xs.len() - 1 {
        lemma_arr_view_index(xs.drop_last(), i);
    } else {
        lemma_arr_view_len(xs.drop_last());
    }
}

/// A field list's model has one entry per field.
pub broadcast proof fn lemma_fields_view_len(fs: Seq<(String, JsonValue)>)
    ensures
        #[trigger] fields_view(fs).len() == fs.len(),
    decreases fs,
{
    if fs.len() > 0 {
        lemma_fields_view_len(fs.drop_last());
    }
}

/// A field list's model is the entrywise model.
pub broadcast proof fn lemma_fields_view_index(fs: Seq<(String, JsonValue)>, i: int)
    requires
        0 <= i < fs.len(),
    ensures
        #[trigger] fields_view(fs)[i] == (fs[i].0@, json_view(fs[i].1)),
    decreases fs,
{
    lemma_fields_view_len(fs);
    if i < fs.len() - 1 {
        lemma_fields_view_index(fs.drop_last(), i);
    } else {
        lemma_fields_view_len(fs.drop_last());
    }
}

pub broadcast group group_json_view {
    lemma_arr_view_len,
    lemma_arr_view_index,
    lemma_fields_view_len,
    lemma_fields_view_index,
}

/// First binding of `k` in an object's field list, if any.
pub open spec fn obj_get(fs: Seq<(Seq<char>, JsonVal)>, k: Seq<char>) -> Option<JsonVal>
    decreases fs.len(),
{
    if fs.len() == 0 {
        None
    } else if fs[0].0 == k {
        Some(fs[0].1)
    } else {
        obj_get(fs.subrange(1, fs.len() as int), k)
    }
}

/// Whether an object's field list binds `k`.
pub open spec fn obj_has(fs: Seq<(Seq<char>, JsonVal)>, k: Seq<char>) -> bool {
    obj_get(fs, k) is Some
}

/// The field list with the first binding of `k` replaced by `v`, or with
/// `(k, v)` appended when `k` is not bound.
pub open spec fn obj_set(fs: Seq<(Seq<char>, JsonVal)>, k: Seq<char>, v: JsonVal) -> Seq<
    (Seq<char>, JsonVal),
>
    decreases fs.len(),
{
    if fs.len() == 0 {
        seq![(k, v)]
    } else if fs[0].0 == k {
        seq![(k, v)] + fs.subrange(1, fs.len() as int)
    } else {
        seq![fs[0]] + obj_set(fs.subrange(1, fs.len() as int), k, v)
    }
}

/// Whether the keys of a field list are pairwise distinct.
pub open spec fn keys_unique(fs: Seq<(Seq<char>, JsonVal)>) -> bool {
    forall|i: int, j: int| 0 <= i < j < fs.len() ==> fs[i].0 != fs[j].0
}

/// The fields of `fs` whose keys satisfy `p`, in order.
pub open spec fn fields_keep(
    p: spec_fn(Seq<char>) -> bool,
    fs: Seq<(Seq<char>, JsonVal)>,
) -> Seq<(Seq<char>, JsonVal)>
    decreases fs.len(),
{
    if fs.len() == 0 {
        Seq::empty()
    } else {
        let rest = fields_keep(p, fs.subrange(1, fs.len() as int));
        if p(fs[0].0) {
            seq![fs[0]] + rest
        } else {
            rest
        }
    }
}

/// `fields_keep` commutes with appending a field.
pub proof fn lemma_fields_keep_push(
    p: spec_fn(Seq<char>) -> bool,
    fs: Seq<(Seq<char>, JsonVal)>,
    x: (Seq<char>, JsonVal),
)
    ensures
        fields_keep(p, fs.push(x)) == if p(x.0) {
            fields_keep(p, fs).push(x)
        } else {
            fields_keep(p, fs)
        },
    decreases fs.len(),
{
    if fs.len() == 0 {
        assert(fields_keep(p, Seq::<(Seq<char>, JsonVal)>::empty()) == Seq::<
            (Seq<char>, JsonVal),
        >::empty());
        assert(fs.push(x).subrange(1, fs.push(x).len() as int) =~= Seq::<
            (Seq<char>, JsonVal),
        >::empty());
        assert(fs.push(x)[0] == x);
        if p(x.0) {
            assert(seq![x] + Seq::<(Seq<char>, JsonVal)>::empty() =~= Seq::<
                (Seq<char>, JsonVal),
            >::empty().push(x));
            assert(fs =~= Seq::<(Seq<char>, JsonVal)>::empty());
        } else {
            assert(fs =~= Seq::<(Seq<char>, JsonVal)>::empty());
        }
    } else {
        let fsp = fs.push(x);
        assert(fsp.subrange(1, fsp.len() as int) =~= fs.subrange(1, fs.len() as int).push(x));
        lemma_fields_keep_push(p, fs.subrange(1, fs.len() as int), x);
        let rest = fields_keep(p, fs.subrange(1, fs.len() as int));
        if p(x.0) {
            if p(fs[0].0) {
                assert(seq![fs[0]] + rest.push(x) =~= (seq![fs[0]] + rest).push(x));
            }
        }
    }
}

/// When no key satisfies `p`, nothing is kept.
pub proof fn lemma_fields_keep_none(p: spec_fn(Seq<char>) -> bool, fs: Seq<(Seq<char>, JsonVal)>)
    requires
        forall|j: int| 0 <= j < fs.len() ==> !p(#[trigger] fs[j].0),
    ensures
        fields_keep(p, fs) == Seq::<(Seq<char>, JsonVal)>::empty(),
    decreases fs.len(),
{
    if fs.len() > 0 {
        let tail = fs.subrange(1, fs.len() as int);
        assert(forall|j: int| 0 <= j < tail.len() ==> tail[j] == fs[j + 1]);
        lemma_fields_keep_none(p, tail);
    }
}

/// When every key satisfies `p`, everything is kept.
pub proof fn lemma_fields_keep_all(p: spec_fn(Seq<char>) -> bool, fs: Seq<(Seq<char>, JsonVal)>)
    requires
        forall|j: int| 0 <= j < fs.len() ==> p(#[trigger] fs[j].0),
    ensures
        fields_keep(p, fs) == fs,
    decreases fs.len(),
{
    if fs.len() > 0 {
        let tail = fs.subrange(1, fs.len() as int);
        assert(forall|j: int| 0 <= j < tail.len() ==> tail[j] == fs[j + 1]);
        lemma_fields_keep_all(p, tail);
        assert(seq![fs[0]] + tail =~= fs);
    } else {
        assert(fields_keep(p, fs) =~= fs);
    }
}

/// Every kept field satisfies `p` and comes from `fs`.
pub proof fn lemma_fields_keep_sat(p: spec_fn(Seq<char>) -> bool, fs: Seq<(Seq<char>, JsonVal)>)
    ensures
        forall|j: int| 0 <= j < fields_keep(p, fs).len() ==> p(
            (#[trigger] fields_keep(p, fs)[j]).0,
        ),
        forall|j: int| 0 <= j < fields_keep(p, fs).len() ==> exists|i: int|
            0 <= i < fs.len() && fs[i] == #[trigger] fields_keep(p, fs)[j],
    decreases fs.len(),
{
    if fs.len() > 0 {
        let tail = fs.subrange(1, fs.len() as int);
        lemma_fields_keep_sat(p, tail);
        let rest = fields_keep(p, tail);
        assert(forall|j: int| 0 <= j < rest.len() ==> exists|i: int|
            0 <= i < fs.len() && fs[i] == #[trigger] rest[j]) by {
            assert forall|j: int| 0 <= j < rest.len() implies exists|i: int|
                0 <= i < fs.len() && fs[i] == #[trigger] rest[j] by {
                let i0 = choose|i: int| 0 <= i < tail.len() && tail[i] == rest[j];
                assert(fs[i0 + 1] == rest[j]);
            }
        }
        if p(fs[0].0) {
            let whole = seq![fs[0]] + rest;
            assert(forall|j: int| 1 <= j < whole.len() ==> whole[j] == rest[j - 1]);
            assert(whole[0] == fs[0]);
        }
    }
}

/// Keeping fields preserves key distinctness.
pub proof fn lemma_fields_keep_unique(
    p: spec_fn(Seq<char>) -> bool,
    fs: Seq<(Seq<char>, JsonVal)>,
)
    requires
        keys_unique(fs),
    ensures
        keys_unique(fields_keep(p, fs)),
    decreases fs.len(),
{
    if fs.len() > 0 {
        let tail = fs.subrange(1, fs.len() as int);
        assert(forall|j: int| 0 <= j < tail.len() ==> tail[j] == fs[j + 1]);
        lemma_fields_keep_unique(p, tail);
        let rest = fields_keep(p, tail);
        lemma_fields_keep_sat(p, tail);
        if p(fs[0].0) {
            let whole = seq![fs[0]] + rest;
            assert forall|a: int, b: int| 0 <= a < b < whole.len() implies whole[a].0
                != whole[b].0 by {
                if a == 0 {
                    let i0 = choose|i: int| 0 <= i < tail.len() && tail[i] == rest[b - 1];
                    assert(whole[b] == rest[b - 1]);
                    assert(rest[b - 1] == fs[i0 + 1]);
                } else {
                    assert(whole[a] == rest[a - 1] && whole[b] == rest[b - 1]);
                }
            }
        }
    }
}

/// A key test that holds of every field and of `k` holds of every field
/// after an `obj_set`.
pub proof fn lemma_obj_set_pred(
    fs: Seq<(Seq<char>, JsonVal)>,
    k: Seq<char>,
    v: JsonVal,
    p: spec_fn(Seq<char>) -> bool,
)
    requires
        forall|j: int| 0 <= j < fs.len() ==> p(#[trigger] fs[j].0),
        p(k),
    ensures
        forall|j: int| 0 <= j < obj_set(fs, k, v).len() ==> p(
            (#[trigger] obj_set(fs, k, v)[j]).0,
        ),
    decreases fs.len(),
{
    if fs.len() == 0 {
        assert(obj_set(fs, k, v) =~= seq![(k, v)]);
    } else if fs[0].0 == k {
        let out = seq![(k, v)] + fs.subrange(1, fs.len() as int);
        assert(forall|j: int| 1 <= j < out.len() ==> out[j] == fs[j]);
        assert(out[0].0 == k);
    } else {
        let tail = fs.subrange(1, fs.len() as int);
        assert(forall|j: int| 0 <= j < tail.len() ==> tail[j] == fs[j + 1]);
        lemma_obj_set_pred(tail, k, v, p);
        let out = seq![fs[0]] + obj_set(tail, k, v);
        assert(forall|j: int| 1 <= j < out.len() ==> out[j] == obj_set(tail, k, v)[j - 1]);
        assert(out[0] == fs[0]);
    }
}

/// A successful lookup has a first matching index holding its value.
pub proof fn lemma_obj_get_first_match(fs: Seq<(Seq<char>, JsonVal)>, k: Seq<char>)
    requires
        obj_get(fs, k) is Some,
    ensures
        exists|i: int| is_first_match(fs, k, i) && fs[i].1 == obj_get(fs, k).unwrap(),
    decreases fs.len(),
{
    if fs.len() > 0 {
        if fs[0].0 == k {
            assert(is_first_match(fs, k, 0) && fs[0].1 == obj_get(fs, k).unwrap());
        } else {
            let tail = fs.subrange(1, fs.len() as int);
            lemma_obj_get_first_match(tail, k);
            let i0 = choose|i: int|
                is_first_match(tail, k, i) && tail[i].1 == obj_get(tail, k).unwrap();
            assert(forall|j: int| 0 <= j < i0 + 1 ==> fs[j].0 != k) by {
                assert(forall|j: int| 1 <= j < i0 + 1 ==> fs[j] == tail[j - 1]);
            }
            assert(is_first_match(fs, k, i0 + 1) && fs[i0 + 1].1 == obj_get(fs, k).unwrap());
        }
    }
}

/// `obj_get` returns the binding at the first index whose key is `k`.
pub proof fn lemma_obj_get_first(fs: Seq<(Seq<char>, JsonVal)>, k: Seq<char>, i: int)
    requires
        0 <= i < fs.len(),
        fs[i].0 == k,
        forall|j: int| 0 <= j < i ==> fs[j].0 != k,
    ensures
        obj_get(fs, k) == Some(fs[i].1),
    decreases fs.len(),
{
    if i == 0 {
    } else {
        lemma_obj_get_first(fs.subrange(1, fs.len() as int), k, i - 1);
    }
}

/// When no key matches, `obj_get` returns `None`.
pub proof fn lemma_obj_get_absent(fs: Seq<(Seq<char>, JsonVal)>, k: Seq<char>)
    requires
        forall|j: int| 0 <= j < fs.len() ==> fs[j].0 != k,
    ensures
        obj_get(fs, k) is None,
    decreases fs.len(),
{
    if fs.len() > 0 {
        lemma_obj_get_absent(fs.subrange(1, fs.len() as int), k);
    }
}

/// `obj_set` on a key bound first at `i` updates position `i` in place.
pub proof fn lemma_obj_set_found(
    fs: Seq<(Seq<char>, JsonVal)>,
    k: Seq<char>,
    v: JsonVal,
    i: int,
)
    requires
        0 <= i < fs.len(),
        fs[i].0 == k,
        forall|j: int| 0 <= j < i ==> fs[j].0 != k,
    ensures
        obj_set(fs, k, v) == fs.update(i, (k, v)),
    decreases fs.len(),
{
    if i == 0 {
        assert(seq![(k, v)] + fs.subrange(1, fs.len() as int) =~= fs.update(0, (k, v)));
    } else {
        let tail = fs.subrange(1, fs.len() as int);
        lemma_obj_set_found(tail, k, v, i - 1);
        assert(seq![fs[0]] + tail.update(i - 1, (k, v)) =~= fs.update(i, (k, v)));
    }
}

/// `obj_set` on an unbound key appends the new field.
pub proof fn lemma_obj_set_absent(fs: Seq<(Seq<char>, JsonVal)>, k: Seq<char>, v: JsonVal)
    requires
        forall|j: int| 0 <= j < fs.len() ==> fs[j].0 != k,
    ensures
        obj_set(fs, k, v) == fs.push((k, v)),
    decreases fs.len(),
{
    if fs.len() == 0 {
        assert(seq![(k, v)] =~= fs.push((k, v)));
    } else {
        let tail = fs.subrange(1, fs.len() as int);
        lemma_obj_set_absent(tail, k, v);
        assert(seq![fs[0]] + tail.push((k, v)) =~= fs.push((k, v)));
    }
}

/// What `obj_get` reads after an `obj_set`.
pub proof fn lemma_obj_set_get(
    fs: Seq<(Seq<char>, JsonVal)>,
    k: Seq<char>,
    v: JsonVal,
    k2: Seq<char>,
)
    ensures
        obj_get(obj_set(fs, k, v), k2) == if k2 == k {
            Some(v)
        } else {
            obj_get(fs, k2)
        },
    decreases fs.len(),
{
    if fs.len() == 0 {
        let one = seq![(k, v)];
        assert(one[0] == (k, v));
        assert(one.subrange(1, 1) =~= Seq::<(Seq<char>, JsonVal)>::empty());
        assert(obj_get(Seq::<(Seq<char>, JsonVal)>::empty(), k2) is None);
    } else if fs[0].0 == k {
        let out = seq![(k, v)] + fs.subrange(1, fs.len() as int);
        assert(out[0] == (k, v));
        assert(out.subrange(1, out.len() as int) =~= fs.subrange(1, fs.len() as int));
    } else {
        let tail = fs.subrange(1, fs.len() as int);
        lemma_obj_set_get(tail, k, v, k2);
        let out = seq![fs[0]] + obj_set(tail, k, v);
        assert(out[0] == fs[0]);
        assert(out.subrange(1, out.len() as int) =~= obj_set(tail, k, v));
    }
}

/// Re-binding a key to the value it already has leaves the list unchanged.
pub proof fn lemma_obj_set_same(fs: Seq<(Seq<char>, JsonVal)>, k: Seq<char>, v: JsonVal, i: int)
    requires
        0 <= i < fs.len(),
        fs[i].0 == k,
        fs[i].1 == v,
        forall|j: int| 0 <= j < i ==> fs[j].0 != k,
    ensures
        obj_set(fs, k, v) == fs,
{
    lemma_obj_set_found(fs, k, v, i);
    assert(fs[i] == (k, v));
    assert(fs.update(i, (k, v)) =~= fs);
}

/// Whether `i` is the first index of `fs` whose key is `k`.
pub open spec fn is_first_match(fs: Seq<(Seq<char>, JsonVal)>, k: Seq<char>, i: int) -> bool {
    &&& 0 <= i < fs.len()
    &&& fs[i].0 == k
    &&& forall|j: int| 0 <= j < i ==> fs[j].0 != k
}

/// If some index matches `k`, a first matching index exists.
pub proof fn lemma_first_match_exists(fs: Seq<(Seq<char>, JsonVal)>, k: Seq<char>, w: int)
    requires
        0 <= w < fs.len(),
        fs[w].0 == k,
    ensures
        exists|i: int| is_first_match(fs, k, i),
    decreases w,
{
    if forall|j: int| 0 <= j < w ==> fs[j].0 != k {
        assert(is_first_match(fs, k, w));
    } else {
        let w2 = choose|j: int| 0 <= j < w && fs[j].0 == k;
        lemma_first_match_exists(fs, k, w2);
    }
}

/// `obj_set` keeps keys pairwise distinct.
pub proof fn lemma_obj_set_unique(fs: Seq<(Seq<char>, JsonVal)>, k: Seq<char>, v: JsonVal)
    requires
        keys_unique(fs),
    ensures
        keys_unique(obj_set(fs, k, v)),
{
    if exists|i: int| 0 <= i < fs.len() && fs[i].0 == k {
        let w = choose|i: int| 0 <= i < fs.len() && fs[i].0 == k;
        lemma_first_match_exists(fs, k, w);
        let i = choose|i: int| is_first_match(fs, k, i);
        lemma_obj_set_found(fs, k, v, i);
    } else {
        lemma_obj_set_absent(fs, k, v);
    }
}

/// Look up the first binding of `key` in an executable field list.
pub fn fields_get<'a>(fs: &'a Vec<(String, JsonValue)>, key: &str) -> (r: Option<
    &'a JsonValue,
>)
    ensures
        match r {
            Some(v) => obj_get(fields_view(fs@), key@) == Some(v@),
            None => obj_get(fields_view(fs@), key@) is None,
        },
{
    proof {
        broadcast use group_json_view;

    }
    let mut i: usize = 0;
    while i < fs.len()
        invariant
            i <= fs@.len(),
            forall|j: int| 0 <= j < i ==> fs@[j].0@ != key@,
        decreases fs@.len() - i,
    {
        if crate::text::str_eq(fs[i].0.as_str(), key) {
            proof {
                broadcast use group_json_view;

                lemma_obj_get_first(fields_view(fs@), key@, i as int);
            }
            return Some(&fs[i].1);
        }
        i += 1;
    }
    proof {
        broadcast use group_json_view;

        lemma_obj_get_absent(fields_view(fs@), key@);
    }
    None
}

/// Bind `key` to `v` in an executable field list: replace the first
/// binding, or append when the key is unbound.
pub fn fields_set(fs: &mut Vec<(String, JsonValue)>, key: &str, v: JsonValue)
    ensures
        fields_view(final(fs)@) == obj_set(fields_view(old(fs)@), key@, v@),
{
    proof {
        broadcast use group_json_view;

    }
    let mut i: usize = 0;
    while i < fs.len()
        invariant
            i <= fs@.len(),
            fs@ == old(fs)@,
            forall|j: int| 0 <= j < i ==> fs@[j].0@ != key@,
        decreases fs@.len() - i,
    {
        if crate::text::str_eq(fs[i].0.as_str(), key) {
            let ghost prev = fs@;
            let ghost idx = i as int;
            fs[i] = (key.to_owned(), v);
            proof {
                broadcast use group_json_view;

                lemma_obj_set_found(fields_view(prev), key@, fs@[idx].1@, idx);
                assert(fields_view(fs@) =~= fields_view(prev).update(
                    idx,
                    (key@, fs@[idx].1@),
                ));
            }
            return ;
        }
        i += 1;
    }
    let ghost prev = fs@;
    fs.push((key.to_owned(), v));
    proof {
        broadcast use group_json_view;

        lemma_obj_set_absent(fields_view(prev), key@, fs@[fs@.len() - 1].1@);
        assert(fields_view(fs@) =~= fields_view(prev).push((key@, fs@[fs@.len() - 1].1@)));
    }
}

/// Element-for-element copy of an array's contents.
pub fn clone_arr(xs: &Vec<JsonValue>) -> (r: Vec<JsonValue>)
    ensures
        arr_view(r@) == arr_view(xs@),
    decreases xs,
{
    let mut r: Vec<JsonValue> = Vec::new();
    let mut i: usize = 0;
    while i < xs.len()
        invariant
            i <= xs@.len(),
            r@.len() == i,
            forall|j: int| 0 <= j < i ==> json_view(#[trigger] r@[j]) == json_view(xs@[j]),
        decreases xs@.len() - i,
    {
        r.push(xs[i].clone());
        i += 1;
    }
    proof {
        broadcast use group_json_view;

        assert(arr_view(r@) =~= arr_view(xs@));
    }
    r
}

/// Field-for-field copy of an object's contents.
pub fn clone_fields(fs: &Vec<(String, JsonValue)>) -> (r: Vec<(String, JsonValue)>)
    ensures
        fields_view(r@) == fields_view(fs@),
    decreases fs,
{
    let mut r: Vec<(String, JsonValue)> = Vec::new();
    let mut i: usize = 0;
    while i < fs.len()
        invariant
            i <= fs@.len(),
            r@.len() == i,
            forall|j: int| 0 <= j < i ==> (#[trigger] r@[j]).0@ == fs@[j].0@ && json_view(
                r@[j].1,
            ) == json_view(fs@[j].1),
        decreases fs@.len() - i,
    {
        let entry = &fs[i];
        r.push((entry.0.clone(), entry.1.clone()));
        i += 1;
    }
    proof {
        broadcast use group_json_view;

        assert(fields_view(r@) =~= fields_view(fs@));
    }
    r
}

impl Clone for JsonValue {
    /// A copy with the same model.
    fn clone(&self) -> (r: Self)
        ensures
            r@ == self@,
        decreases self,
    {
        match self {
            JsonValue::Null => JsonValue::Null,
            JsonValue::Bool(b) => JsonValue::Bool(*b),
            JsonValue::Int(i) => JsonValue::Int(*i),
            JsonValue::Num(s) => JsonValue::Num(s.clone()),
            JsonValue::Str(s) => JsonValue::Str(s.clone()),
            JsonValue::Arr(xs) => JsonValue::Arr(clone_arr(xs)),
            JsonValue::Obj(fs) => JsonValue::Obj(clone_fields(fs)),
        }
    }
}

impl JsonValue {
    /// Whether this value is an object.
    pub fn is_obj(&self) -> (r: bool)
        ensures
            r == (self@ is Obj),
    {
        match self {
            JsonValue::Obj(_) => true,
            _ => false,
        }
    }

    /// Whether this value is a string.
    pub fn is_str(&self) -> (r: bool)
        ensures
            r == (self@ is Str),
    {
        match self {
            JsonValue::Str(_) => true,
            _ => false,
        }
    }

    /// The field list of an object, or `None` for any other value.
    pub fn as_obj(&self) -> (r: Option<&Vec<(String, JsonValue)>>)
        ensures
            match r {
                Some(fs) => self@ is Obj && self@ == JsonVal::Obj(fields_view(fs@)),
                None => !(self@ is Obj),
            },
    {
        match self {
            JsonValue::Obj(fs) => Some(fs),
            _ => None,
        }
    }

    /// The character content of a string value.
    pub fn as_str(&self) -> (r: Option<&String>)
        ensures
            match r {
                Some(s) => self@ == JsonVal::Str(s@),
                None => !(self@ is Str),
            },
    {
        match self {
            JsonValue::Str(s) => Some(s),
            _ => None,
        }
    }

    /// The elements of an array value.
    pub fn as_arr(&self) -> (r: Option<&Vec<JsonValue>>)
        ensures
            match r {
                Some(xs) => self@ is Arr && self@ == JsonVal::Arr(arr_view(xs@)),
                None => !(self@ is Arr),
            },
    {
        match self {
            JsonValue::Arr(xs) => Some(xs),
            _ => None,
        }
    }

    /// The payload of an integer value.
    pub fn as_int(&self) -> (r: Option<i64>)
        ensures
            match r {
                Some(i) => self@ == JsonVal::Int(i),
                None => !(self@ is Int),
            },
    {
        match self {
            JsonValue::Int(i) => Some(*i),
            _ => None,
        }
    }

    /// The payload of a boolean value.
    pub fn as_bool(&self) -> (r: Option<bool>)
        ensures
            match r {
                Some(b) => self@ == JsonVal::Bool(b),
                None => !(self@ is Bool),
            },
    {
        match self {
            JsonValue::Bool(b) => Some(*b),
            _ => None,
        }
    }

    /// The first binding of `key`, when this value is an object that
    /// binds it.
    pub fn get<'a>(&'a self, key: &str) -> (r: Option<&'a JsonValue>)
        ensures
            match r {
                Some(v) => self@ is Obj && obj_get(self@->Obj_0, key@) == Some(v@),
                None => !(self@ is Obj) || obj_get(self@->Obj_0, key@) is None,
            },
    {
        match self {
            JsonValue::Obj(fs) => fields_get(fs, key),
            _ => None,
        }
    }
}

} // verus!
