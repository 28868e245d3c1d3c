//! A structural JSON tree and the bridge from generic values to it.
//!
//! The tree mirrors the transport format at the system's boundary: an object
//! keeps its entries in order (their order carries no meaning; equality is
//! map equality), a number is an unsigned integer, a negative integer, or a
//! finite double held as its bit pattern — the three shapes the transport
//! distinguishes.

use vstd::prelude::*;

use crate::generic_transform::lemma_view_value_pairs;
use crate::generic_transform::lemma_view_value_seq;
use crate::generic_transform::view_value;
use crate::generic_transform::view_value_pairs;
use crate::generic_transform::view_value_seq;
use crate::generic_transform::Value;
use crate::generic_transform::ValueV;
use crate::num::eq_bits;
use crate::num::is_finite_bits;

verus! {

/// A JSON number: a non-negative integer, a negative integer, or a double
/// held as its IEEE 754 bit pattern.
#[derive(Debug, Clone, Copy, PartialEq, Eq, Structural)]
pub enum JNum {
    /// A non-negative integer.
    PosInt(u64),
    /// A negative integer; always less than zero.
    NegInt(i64),
    /// A double, by its bit pattern; the transport only carries finite ones.
    Float(u64),
}

/// A JSON tree.
#[derive(Debug, PartialEq)]
pub enum Json {
    /// `null`.
    Null,
    /// A boolean.
    Bool(bool),
    /// A number.
    Num(JNum),
    /// A string.
    Str(String),
    /// An array; order is meaningful.
    Arr(Vec<Json>),
    /// An object: entries in insertion order, compared as a map.
    Obj(Vec<(String, Json)>),
}

/// Ghost mirror of [`Json`].
pub ghost enum JsonV {
    Null,
    Bool(bool),
    Num(JNum),
    Str(Seq<char>),
    Arr(Seq<JsonV>),
    Obj(Seq<(Seq<char>, JsonV)>),
}

/// Deep view of a JSON tree.
pub open spec fn view_json(j: Json) -> JsonV
    decreases j,
{
    match j {
        Json::Null => JsonV::Null,
        Json::Bool(b) => JsonV::Bool(b),
        Json::Num(n) => JsonV::Num(n),
        Json::Str(s) => JsonV::Str(s@),
        Json::Arr(items) => JsonV::Arr(view_json_seq(items@)),
        Json::Obj(pairs) => JsonV::Obj(view_json_pairs(pairs@)),
    }
}

/// Deep view of a sequence of JSON trees.
pub open spec fn view_json_seq(s: Seq<Json>) -> Seq<JsonV>
    decreases s,
{
    if s.len() == 0 {
        Seq::empty()
    } else {
        seq![view_json(s[0])] + view_json_seq(s.skip(1))
    }
}

/// Deep view of a sequence of object entries.
pub open spec fn view_json_pairs(s: Seq<(String, Json)>) -> Seq<(Seq<char>, JsonV)>
    decreases s,
{
    if s.len() == 0 {
        Seq::empty()
    } else {
        seq![(s[0].0@, view_json(s[0].1))] + view_json_pairs(s.skip(1))
    }
}

impl View for Json {
    type V = JsonV;

    open spec fn view(&self) -> JsonV {
        view_json(*self)
    }
}

/// The viewed tree sequence has the source's length, elementwise.
pub proof fn lemma_view_json_seq(s: Seq<Json>)
    ensures
        view_json_seq(s).len() == s.len(),
        forall|i: int| 0 <= i < s.len() ==> view_json_seq(s)[i] == view_json(s[i]),
    decreases s,
{
    if s.len() > 0 {
        lemma_view_json_seq(s.skip(1));
    }
}

/// The viewed entry sequence has the source's length, elementwise.
pub proof fn lemma_view_json_pairs(s: Seq<(String, Json)>)
    ensures
        view_json_pairs(s).len() == s.len(),
        forall|i: int| 0 <= i < s.len() ==> view_json_pairs(s)[i] == (s[i].0@, view_json(s[i].1)),
    decreases s,
{
    if s.len() > 0 {
        lemma_view_json_pairs(s.skip(1));
    }
}

/// Equality of two JSON numbers, as the transport compares them: same shape
/// and equal value, doubles comparing as doubles. An integer and a double
/// are never equal, whatever their values.
pub open spec fn jnum_eq(a: JNum, b: JNum) -> bool {
    match (a, b) {
        (JNum::PosInt(x), JNum::PosInt(y)) => x == y,
        (JNum::NegInt(x), JNum::NegInt(y)) => x == y,
        (JNum::Float(x), JNum::Float(y)) => eq_bits(x, y),
        _ => false,
    }
}

/// First index of the key in an object's entries, or -1.
pub open spec fn jindex_of_key(s: Seq<(Seq<char>, JsonV)>, k: Seq<char>) -> int
    decreases s,
{
    if s.len() == 0 {
        -1
    } else if s[0].0 == k {
        0
    } else {
        let r = jindex_of_key(s.skip(1), k);
        if r < 0 {
            -1
        } else {
            r + 1
        }
    }
}

/// The value under the key in an object's entries: the last occurrence wins,
/// as the transport keeps the last of repeated keys.
pub open spec fn obj_get(s: Seq<(Seq<char>, JsonV)>, k: Seq<char>) -> Option<JsonV>
    decreases s,
{
    if s.len() == 0 {
        None
    } else {
        match obj_get(s.skip(1), k) {
            Some(v) => Some(v),
            None => if s[0].0 == k {
                Some(s[0].1)
            } else {
                None
            },
        }
    }
}

/// Looking a key up behind a pushed entry: the pushed entry answers for its
/// own key (the last occurrence wins), any other key looks past it.
pub broadcast proof fn lemma_obj_get_push(s: Seq<(Seq<char>, JsonV)>, p: (Seq<char>, JsonV), k: Seq<char>)
    ensures
        #[trigger] obj_get(s.push(p), k) == if p.0 == k {
            Some(p.1)
        } else {
            obj_get(s, k)
        },
    decreases s.len(),
{
    if s.len() == 0 {
        assert(s.push(p).skip(1) =~= Seq::<(Seq<char>, JsonV)>::empty());
        assert(obj_get(Seq::<(Seq<char>, JsonV)>::empty(), k) is None);
        assert(s.push(p)[0] == p);
        assert(s.push(p).len() == 1);
    } else {
        lemma_obj_get_push(s.skip(1), p, k);
        assert(s.push(p).skip(1) =~= s.skip(1).push(p));
        assert(s.push(p)[0] == s[0]);
    }
}

/// Value equality of two JSON trees: objects compare as maps — same entry
/// count, every entry of the left matched by key in the right with an equal
/// value — arrays pointwise, numbers by [`jnum_eq`], the rest structurally.
pub open spec fn json_equiv(a: JsonV, b: JsonV) -> bool
    decreases a,
{
    match (a, b) {
        (JsonV::Null, JsonV::Null) => true,
        (JsonV::Bool(x), JsonV::Bool(y)) => x == y,
        (JsonV::Num(x), JsonV::Num(y)) => jnum_eq(x, y),
        (JsonV::Str(x), JsonV::Str(y)) => x == y,
        (JsonV::Arr(la), JsonV::Arr(lb)) => la.len() == lb.len() && json_arr_equiv(la, lb),
        (JsonV::Obj(pa), JsonV::Obj(pb)) => pa.len() == pb.len() && json_obj_equiv(pa, pb),
        _ => false,
    }
}

/// Pointwise equality of two equally long arrays.
pub open spec fn json_arr_equiv(la: Seq<JsonV>, lb: Seq<JsonV>) -> bool
    decreases la,
{
    if la.len() == 0 {
        true
    } else {
        la.len() == lb.len() && json_equiv(la[0], lb[0]) && json_arr_equiv(la.skip(1), lb.skip(1))
    }
}

/// Every entry of `pa` is matched by key in `pb` with an equal value.
pub open spec fn json_obj_equiv(pa: Seq<(Seq<char>, JsonV)>, pb: Seq<(Seq<char>, JsonV)>) -> bool
    decreases pa,
{
    if pa.len() == 0 {
        true
    } else {
        let j = jindex_of_key(pb, pa[0].0);
        j >= 0 && json_equiv(pa[0].1, pb[j].1) && json_obj_equiv(pa.skip(1), pb)
    }
}

/// The structural JSON projection of a generic value: a table becomes an
/// object (keys preserved), a list an array (order preserved), scalars their
/// JSON scalars; a number that is not finite becomes `null` rather than
/// failing, a finite one a JSON double.
pub open spec fn json_of_value(v: ValueV) -> JsonV
    decreases v,
{
    match v {
        ValueV::Table(pairs) => JsonV::Obj(json_of_pairs(pairs)),
        ValueV::List(items) => JsonV::Arr(json_of_items(items)),
        ValueV::Str(s) => JsonV::Str(s),
        ValueV::Number(b) => if is_finite_bits(b) {
            JsonV::Num(JNum::Float(b))
        } else {
            JsonV::Null
        },
        ValueV::Bool(b) => JsonV::Bool(b),
        ValueV::Nil => JsonV::Null,
    }
}

/// JSON projection of a table's entries, in order.
pub open spec fn json_of_pairs(pairs: Seq<(Seq<char>, ValueV)>) -> Seq<(Seq<char>, JsonV)>
    decreases pairs,
{
    if pairs.len() == 0 {
        Seq::empty()
    } else {
        seq![(pairs[0].0, json_of_value(pairs[0].1))] + json_of_pairs(pairs.skip(1))
    }
}

/// JSON projection of a list's items, in order.
pub open spec fn json_of_items(items: Seq<ValueV>) -> Seq<JsonV>
    decreases items,
{
    if items.len() == 0 {
        Seq::empty()
    } else {
        seq![json_of_value(items[0])] + json_of_items(items.skip(1))
    }
}

/// Converts a generic value into its structural JSON projection.
pub fn value_to_json(v: &Value) -> (r: Json)
    ensures
        r@ == json_of_value(v@),
    decreases *v,
{
    match v {
        Value::Table(pairs) => {
            let out = value_pairs_to_json(pairs, 0);
            proof {
                assert(view_value_pairs(pairs@).skip(0) =~= view_value_pairs(pairs@));
            }
            Json::Obj(out)
        },
        Value::List(items) => {
            let out = value_items_to_json(items, 0);
            proof {
                assert(view_value_seq(items@).skip(0) =~= view_value_seq(items@));
            }
            Json::Arr(out)
        },
        Value::Str(s) => Json::Str(s.clone()),
        Value::Number(n) => {
            if n.is_finite() {
                Json::Num(JNum::Float(n.bits))
            } else {
                Json::Null
            }
        },
        Value::Bool(b) => Json::Bool(*b),
        Value::Nil => Json::Null,
    }
}

/// Converts a table's entries from `i` on.
fn value_pairs_to_json(pairs: &Vec<(String, Value)>, i: usize) -> (r: Vec<(String, Json)>)
    requires
        i <= pairs.len(),
    ensures
        view_json_pairs(r@) == json_of_pairs(view_value_pairs(pairs@).skip(i as int)),
    decreases pairs@, pairs@.len() - i,
{
    proof {
        lemma_view_value_pairs(pairs@);
    }
    if i == pairs.len() {
        return Vec::new();
    }
    let ghost vp = view_value_pairs(pairs@);
    proof {
        assert(vp.skip(i as int)[0] == vp[i as int]);
        assert(vp.skip(i as int).skip(1) =~= vp.skip(i as int + 1));
    }
    let head_key = pairs[i].0.clone();
    let head_val = value_to_json(&pairs[i].1);
    let mut rest = value_pairs_to_json(pairs, i + 1);
    let ghost rest0 = rest@;
    rest.insert(0, (head_key, head_val));
    proof {
        lemma_view_json_pairs(rest0);
        lemma_view_json_pairs(rest@);
        assert(rest@ =~= seq![(head_key, head_val)] + rest0);
        assert(view_json_pairs(rest@) =~= seq![(head_key@, view_json(head_val))]
            + view_json_pairs(rest0));
    }
    rest
}

/// Converts a list's items from `i` on.
fn value_items_to_json(items: &Vec<Value>, i: usize) -> (r: Vec<Json>)
    requires
        i <= items.len(),
    ensures
        view_json_seq(r@) == json_of_items(view_value_seq(items@).skip(i as int)),
    decreases items@, items@.len() - i,
{
    proof {
        lemma_view_value_seq(items@);
    }
    if i == items.len() {
        return Vec::new();
    }
    let ghost vs = view_value_seq(items@);
    proof {
        assert(vs.skip(i as int)[0] == vs[i as int]);
        assert(vs.skip(i as int).skip(1) =~= vs.skip(i as int + 1));
    }
    let head = value_to_json(&items[i]);
    let mut rest = value_items_to_json(items, i + 1);
    let ghost rest0 = rest@;
    rest.insert(0, head);
    proof {
        lemma_view_json_seq(rest0);
        lemma_view_json_seq(rest@);
        assert(rest@ =~= seq![head] + rest0);
        assert(view_json_seq(rest@) =~= seq![view_json(head)] + view_json_seq(rest0));
    }
    rest
}

/// [`jindex_of_key`] returns -1 exactly when no entry carries the key, and
/// otherwise the first index that does.
pub proof fn lemma_jindex_of_key(s: Seq<(Seq<char>, JsonV)>, k: Seq<char>)
    ensures
        jindex_of_key(s, k) == -1 || (0 <= jindex_of_key(s, k) < s.len()),
        jindex_of_key(s, k) == -1 ==> forall|j: int| 0 <= j < s.len() ==> s[j].0 != k,
        jindex_of_key(s, k) >= 0 ==> s[jindex_of_key(s, k)].0 == k,
        jindex_of_key(s, k) >= 0 ==> forall|j: int| 0 <= j < jindex_of_key(s, k) ==> s[j].0 != k,
    decreases s,
{
    if s.len() > 0 && s[0].0 != k {
        lemma_jindex_of_key(s.skip(1), k);
        assert(forall|j: int| 1 <= j < s.len() ==> s[j] == s.skip(1)[j - 1]);
    }
}

/// Equality of two JNum values, decided on the plain fields.
pub fn jnum_eq_exec(a: &JNum, b: &JNum) -> (r: bool)
    ensures
        r == jnum_eq(*a, *b),
{
    match (a, b) {
        (JNum::PosInt(x), JNum::PosInt(y)) => x == y,
        (JNum::NegInt(x), JNum::NegInt(y)) => x == y,
        (JNum::Float(x), JNum::Float(y)) => crate::num::eq_bits_exec(*x, *y),
        _ => false,
    }
}

/// Value equality of two JSON trees, as [`json_equiv`] defines it.
pub fn json_eq(a: &Json, b: &Json) -> (r: bool)
    ensures
        r == json_equiv(a@, b@),
    decreases *a,
{
    match (a, b) {
        (Json::Null, Json::Null) => true,
        (Json::Bool(x), Json::Bool(y)) => x == y,
        (Json::Num(x), Json::Num(y)) => jnum_eq_exec(x, y),
        (Json::Str(x), Json::Str(y)) => String::eq(x, y),
        (Json::Arr(la), Json::Arr(lb)) => {
            proof {
                lemma_view_json_seq(la@);
                lemma_view_json_seq(lb@);
                assert(view_json_seq(la@).skip(0) =~= view_json_seq(la@));
                assert(view_json_seq(lb@).skip(0) =~= view_json_seq(lb@));
            }
            if la.len() != lb.len() {
                false
            } else {
                json_arr_eq_exec(la, 0, lb)
            }
        },
        (Json::Obj(pa), Json::Obj(pb)) => {
            proof {
                lemma_view_json_pairs(pa@);
                lemma_view_json_pairs(pb@);
                assert(view_json_pairs(pa@).skip(0) =~= view_json_pairs(pa@));
            }
            if pa.len() != pb.len() {
                false
            } else {
                json_obj_eq_exec(pa, 0, pb)
            }
        },
        _ => false,
    }
}

/// First index of `pb` carrying the key, if any.
fn jfind_key_index(pb: &Vec<(String, Json)>, k: &String) -> (r: Option<usize>)
    ensures
        match r {
            Some(i) => 0 <= i < pb.len() && jindex_of_key(view_json_pairs(pb@), k@) == i as int,
            None => jindex_of_key(view_json_pairs(pb@), k@) == -1,
        },
{
    let n = pb.len();
    for j in 0..n
        invariant
            n == pb.len(),
            forall|t: int| 0 <= t < j ==> pb@[t].0@ != k@,
    {
        let hit = String::eq(&pb[j].0, k);
        if hit {
            proof {
                lemma_view_json_pairs(pb@);
                lemma_jindex_of_key(view_json_pairs(pb@), k@);
                let s = view_json_pairs(pb@);
                let i = jindex_of_key(s, k@);
                assert(s[j as int].0 == k@);
                assert(i != -1);
                if i < j as int {
                    assert(s[i].0 == k@);
                    assert(pb@[i].0@ != k@);
                    assert(false);
                }
                if i > j as int {
                    assert(s[j as int].0 != k@);
                    assert(false);
                }
            }
            return Some(j);
        }
    }
    proof {
        lemma_view_json_pairs(pb@);
        lemma_jindex_of_key(view_json_pairs(pb@), k@);
        let s = view_json_pairs(pb@);
        let i = jindex_of_key(s, k@);
        if i >= 0 {
            assert(s[i].0 == k@);
            assert(pb@[i].0@ != k@);
            assert(false);
        }
    }
    None
}

/// Every entry of `pa` from `i` on is matched by key in `pb`.
fn json_obj_eq_exec(pa: &Vec<(String, Json)>, i: usize, pb: &Vec<(String, Json)>) -> (r: bool)
    requires
        i <= pa.len(),
    ensures
        r == json_obj_equiv(view_json_pairs(pa@).skip(i as int), view_json_pairs(pb@)),
    decreases pa@, pa@.len() - i,
{
    proof {
        lemma_view_json_pairs(pa@);
        lemma_view_json_pairs(pb@);
    }
    if i == pa.len() {
        return true;
    }
    let ghost va = view_json_pairs(pa@);
    proof {
        assert(va.skip(i as int)[0] == va[i as int]);
        assert(va.skip(i as int).skip(1) =~= va.skip(i as int + 1));
    }
    match jfind_key_index(pb, &pa[i].0) {
        None => false,
        Some(j) => {
            let head = json_eq(&pa[i].1, &pb[j].1);
            if head {
                json_obj_eq_exec(pa, i + 1, pb)
            } else {
                false
            }
        },
    }
}

/// Pointwise equality of the arrays from `i` on.
fn json_arr_eq_exec(la: &Vec<Json>, i: usize, lb: &Vec<Json>) -> (r: bool)
    requires
        i <= la.len(),
        la.len() == lb.len(),
    ensures
        r == json_arr_equiv(view_json_seq(la@).skip(i as int), view_json_seq(lb@).skip(i as int)),
    decreases la@, la@.len() - i,
{
    proof {
        lemma_view_json_seq(la@);
        lemma_view_json_seq(lb@);
    }
    if i == la.len() {
        return true;
    }
    let ghost va = view_json_seq(la@);
    let ghost vb = view_json_seq(lb@);
    proof {
        assert(va.skip(i as int)[0] == va[i as int]);
        assert(vb.skip(i as int)[0] == vb[i as int]);
        assert(va.skip(i as int).skip(1) =~= va.skip(i as int + 1));
        assert(vb.skip(i as int).skip(1) =~= vb.skip(i as int + 1));
    }
    let head = json_eq(&la[i], &lb[i]);
    if head {
        json_arr_eq_exec(la, i + 1, lb)
    } else {
        false
    }
}

} // verus!
