//! JSON values.

use crate::text;
use serde_json::Value;
use vstd::prelude::*;

verus! {

/// A JSON number, in the three forms a parser tells apart. A number with a
/// fraction or an exponent is kept as the bits of its double and as its
/// shortest printed form.
#[derive(Debug, Clone, PartialEq)]
pub enum Number {
    PosInt(u64),
    NegInt(i64),
    Float { bits: u64, text: String },
}

#[derive(Debug, PartialEq)]
pub enum JsonValue {
    Null,
    Bool(bool),
    Number(Number),
    Str(String),
    Array(Vec<JsonValue>),
    /// Entries in the order in which they were written.
    Object(Vec<(String, JsonValue)>),
}

pub ghost enum NumberV {
    PosInt(nat),
    NegInt(int),
    Float { bits: u64, text: Seq<char> },
}

/// The mathematical value of a JSON value.
pub ghost enum Json {
    Null,
    Bool(bool),
    Number(NumberV),
    Str(Seq<char>),
    Array(Seq<Json>),
    Object(Seq<(Seq<char>, Json)>),
}

impl View for Number {
    type V = NumberV;

    open spec fn view(&self) -> NumberV {
        match *self {
            Number::PosInt(n) => NumberV::PosInt(n as nat),
            Number::NegInt(n) => NumberV::NegInt(n as int),
            Number::Float { bits, text } => NumberV::Float { bits, text: text@ },
        }
    }
}

pub open spec fn json(v: JsonValue) -> Json
    decreases v,
{
    match v {
        JsonValue::Null => Json::Null,
        JsonValue::Bool(b) => Json::Bool(b),
        JsonValue::Number(n) => Json::Number(n@),
        JsonValue::Str(s) => Json::Str(s@),
        JsonValue::Array(a) => Json::Array(
            Seq::new(
                a@.len(),
                |i: int|
                    if 0 <= i < a@.len() {
                        json(a@[i])
                    } else {
                        Json::Null
                    },
            ),
        ),
        JsonValue::Object(o) => Json::Object(
            Seq::new(
                o@.len(),
                |i: int|
                    if 0 <= i < o@.len() {
                        (o@[i].0@, json(o@[i].1))
                    } else {
                        (Seq::empty(), Json::Null)
                    },
            ),
        ),
    }
}

impl View for JsonValue {
    type V = Json;

    open spec fn view(&self) -> Json {
        json(*self)
    }
}

/// The value of the first entry with this key.
pub open spec fn entry(o: Seq<(Seq<char>, Json)>, key: Seq<char>) -> Option<Json>
    decreases o.len(),
{
    if o.len() == 0 {
        None
    } else if o[0].0 == key {
        Some(o[0].1)
    } else {
        entry(o.skip(1), key)
    }
}

/// Where the first entry with this key is; the number of entries where there
/// is none.
pub open spec fn entry_index(o: Seq<(Seq<char>, Json)>, key: Seq<char>) -> int
    decreases o.len(),
{
    if o.len() == 0 || o[0].0 == key {
        0
    } else {
        1 + entry_index(o.skip(1), key)
    }
}

pub proof fn lemma_entry_index(o: Seq<(Seq<char>, Json)>, key: Seq<char>)
    ensures
        0 <= entry_index(o, key) <= o.len(),
        entry_index(o, key) < o.len() ==> o[entry_index(o, key)].0 == key,
        forall|i: int| 0 <= i < entry_index(o, key) ==> (#[trigger] o[i]).0 != key,
        entry(o, key) == (if entry_index(o, key) < o.len() {
            Some(o[entry_index(o, key)].1)
        } else {
            None
        }),
    decreases o.len(),
{
    if o.len() > 0 && o[0].0 != key {
        lemma_entry_index(o.skip(1), key);
        assert forall|i: int| 0 <= i < entry_index(o, key) implies (#[trigger] o[i]).0 != key by {
            if i > 0 {
                assert(o[i] == o.skip(1)[i - 1]);
            }
        }
    }
}

/// The only index with these two properties is the entry index.
pub proof fn lemma_entry_index_is(o: Seq<(Seq<char>, Json)>, key: Seq<char>, at: int)
    requires
        0 <= at <= o.len(),
        at < o.len() ==> o[at].0 == key,
        forall|i: int| 0 <= i < at ==> (#[trigger] o[i]).0 != key,
    ensures
        entry_index(o, key) == at,
{
    lemma_entry_index(o, key);
    let e = entry_index(o, key);
    if e < at {
        assert(o[e].0 != key);
    } else if at < e {
        assert(o[at].0 != key);
    }
}

/// The entries with the value under `key` set: in its place if it is there,
/// at the end otherwise.
pub open spec fn with_entry(o: Seq<(Seq<char>, Json)>, key: Seq<char>, x: Json) -> Seq<
    (Seq<char>, Json),
> {
    let i = entry_index(o, key);
    if i < o.len() {
        o.update(i, (key, x))
    } else {
        o.push((key, x))
    }
}

/// An object with one member set; any other value as it is.
pub open spec fn with_member(j: Json, key: Seq<char>, x: Json) -> Json {
    match j {
        Json::Object(o) => Json::Object(with_entry(o, key, x)),
        _ => j,
    }
}

/// What is set is what is read back, and every other member stays.
pub proof fn lemma_with_member(j: Json, key: Seq<char>, x: Json)
    ensures
        j is Object ==> member(with_member(j, key, x), key) == Some(x),
        forall|k: Seq<char>| k != key ==> #[trigger] member(with_member(j, key, x), k) == member(j, k),
{
    if let Json::Object(o) = j {
        let n = with_entry(o, key, x);
        lemma_entry_index(o, key);
        let i = entry_index(o, key);
        lemma_entry_index_is(n, key, i);
        lemma_entry_index(n, key);
        assert forall|k: Seq<char>| k != key implies #[trigger] member(
            with_member(j, key, x),
            k,
        ) == member(j, k) by {
            lemma_entry_index(o, k);
            lemma_entry_index(n, k);
            let a = entry_index(o, k);
            let b = entry_index(n, k);
            if a < o.len() {
                lemma_entry_index_is(n, k, a);
            } else {
                lemma_entry_index_is(n, k, n.len() as int);
            }
        }
    }
}

/// The member of an object; nothing on any other value.
pub open spec fn member(j: Json, key: Seq<char>) -> Option<Json> {
    match j {
        Json::Object(o) => entry(o, key),
        _ => None,
    }
}

pub open spec fn member_of(j: Option<Json>, key: Seq<char>) -> Option<Json> {
    match j {
        Some(j) => member(j, key),
        None => None,
    }
}

/// The member that a chain of keys leads to.
pub open spec fn member_at(j: Json, path: Seq<Seq<char>>) -> Option<Json>
    decreases path.len(),
{
    if path.len() == 0 {
        Some(j)
    } else {
        match member(j, path[0]) {
            Some(m) => member_at(m, path.skip(1)),
            None => None,
        }
    }
}

pub open spec fn string_in(j: Option<Json>) -> Option<Seq<char>> {
    match j {
        Some(Json::Str(s)) => Some(s),
        _ => None,
    }
}

pub open spec fn bool_in(j: Option<Json>) -> Option<bool> {
    match j {
        Some(Json::Bool(b)) => Some(b),
        _ => None,
    }
}

/// A whole number that is not negative.
pub open spec fn number_in(j: Option<Json>) -> Option<nat> {
    match j {
        Some(Json::Number(NumberV::PosInt(n))) => Some(n),
        _ => None,
    }
}

pub open spec fn array_in(j: Option<Json>) -> Option<Seq<Json>> {
    match j {
        Some(Json::Array(a)) => Some(a),
        _ => None,
    }
}

pub open spec fn string_member(j: Json, key: Seq<char>) -> Option<Seq<char>> {
    string_in(member(j, key))
}

/// The string under a key, empty where there is none.
pub open spec fn text_member(j: Json, key: Seq<char>) -> Seq<char> {
    match string_member(j, key) {
        Some(s) => s,
        None => Seq::empty(),
    }
}

pub open spec fn or_empty(s: Option<Seq<char>>) -> Seq<char> {
    match s {
        Some(s) => s,
        None => Seq::empty(),
    }
}

pub open spec fn or_else<A>(a: Option<A>, b: Option<A>) -> Option<A> {
    match a {
        Some(a) => Some(a),
        None => b,
    }
}

/// The view of an optional value.
pub open spec fn seen(o: Option<&JsonValue>) -> Option<Json> {
    match o {
        Some(v) => Some(v@),
        None => None,
    }
}

/// The views of a list of values.
pub open spec fn seen_all(v: Seq<JsonValue>) -> Seq<Json> {
    v.map_values(|x: JsonValue| x@)
}

pub proof fn lemma_array_view(v: JsonValue)
    ensures
        v matches JsonValue::Array(a) ==> v@ == Json::Array(seen_all(a@)),
{
    if let JsonValue::Array(a) = v {
        assert(v@->Array_0 =~= seen_all(a@));
    }
}

pub fn get<'a>(v: &'a JsonValue, key: &str) -> (r: Option<&'a JsonValue>)
    ensures
        seen(r) == member(v@, key@),
        r matches Some(x) ==> decreases_to!(*v => *x),
{
    match v {
        JsonValue::Object(o) => {
            let ghost all = v@->Object_0;
            let mut i: usize = 0;
            assert(all.skip(0) =~= all);
            while i < o.len()
                invariant
                    i <= o@.len(),
                    *v == JsonValue::Object(*o),
                    v@ == Json::Object(all),
                    all.len() == o@.len(),
                    forall|k: int| 0 <= k < o@.len() ==> all[k] == (o@[k].0@, o@[k].1@),
                    entry(all, key@) == entry(all.skip(i as int), key@),
                decreases o@.len() - i,
            {
                assert(all.skip(i as int)[0] == all[i as int]);
                if text::same(o[i].0.as_str(), key) {
                    return Some(&o[i].1);
                }
                assert(all.skip(i as int).skip(1) =~= all.skip(i as int + 1));
                i = i + 1;
            }
            None
        },
        _ => None,
    }
}

pub fn get_in<'a>(v: Option<&'a JsonValue>, key: &str) -> (r: Option<&'a JsonValue>)
    ensures
        seen(r) == member_of(seen(v), key@),
{
    match v {
        Some(v) => get(v, key),
        None => None,
    }
}

/// The member under the first of two keys that is there.
pub fn get_either<'a>(v: &'a JsonValue, first: &str, second: &str) -> (r: Option<&'a JsonValue>)
    ensures
        seen(r) == or_else(member(v@, first@), member(v@, second@)),
{
    match get(v, first) {
        Some(x) => Some(x),
        None => get(v, second),
    }
}

pub fn as_str<'a>(v: Option<&'a JsonValue>) -> (r: Option<&'a str>)
    ensures
        text::opt_str_view(r) == string_in(seen(v)),
{
    match v {
        Some(JsonValue::Str(s)) => Some(s.as_str()),
        _ => None,
    }
}

pub fn as_bool(v: Option<&JsonValue>) -> (r: Option<bool>)
    ensures
        r == bool_in(seen(v)),
{
    match v {
        Some(JsonValue::Bool(b)) => Some(*b),
        _ => None,
    }
}

pub open spec fn nat_of(n: Option<u64>) -> Option<nat> {
    match n {
        Some(n) => Some(n as nat),
        None => None,
    }
}

pub fn as_u64(v: Option<&JsonValue>) -> (r: Option<u64>)
    ensures
        nat_of(r) == number_in(seen(v)),
{
    match v {
        Some(JsonValue::Number(Number::PosInt(n))) => Some(*n),
        _ => None,
    }
}

pub fn as_array<'a>(v: Option<&'a JsonValue>) -> (r: Option<&'a Vec<JsonValue>>)
    ensures
        match r {
            Some(a) => array_in(seen(v)) == Some(seen_all(a@)) && v == Some(&JsonValue::Array(*a)),
            None => array_in(seen(v)) is None,
        },
{
    match v {
        Some(JsonValue::Array(a)) => {
            proof {
                lemma_array_view(JsonValue::Array(*a));
            }
            Some(a)
        },
        _ => None,
    }
}

pub fn is_null(v: &JsonValue) -> (r: bool)
    ensures
        r == (v@ is Null),
{
    match v {
        JsonValue::Null => true,
        _ => false,
    }
}

pub fn get_str<'a>(v: &'a JsonValue, key: &str) -> (r: Option<&'a str>)
    ensures
        text::opt_str_view(r) == string_member(v@, key@),
{
    as_str(get(v, key))
}

/// The string under a key, empty where there is none.
pub fn str_field(v: &JsonValue, key: &str) -> (r: String)
    ensures
        r@ == text_member(v@, key@),
{
    match get_str(v, key) {
        Some(s) => s.to_owned(),
        None => {
            let r = String::new();
            assert(r@ =~= Seq::empty());
            r
        },
    }
}

pub fn u64_field(v: &JsonValue, key: &str) -> (r: Option<u64>)
    ensures
        nat_of(r) == number_in(member(v@, key@)),
{
    as_u64(get(v, key))
}

pub fn copy_number(n: &Number) -> (r: Number)
    ensures
        r@ == n@,
{
    match n {
        Number::PosInt(n) => Number::PosInt(*n),
        Number::NegInt(n) => Number::NegInt(*n),
        Number::Float { bits, text } => Number::Float { bits: *bits, text: text.clone() },
    }
}

/// A value with the same content.
pub fn copy(v: &JsonValue) -> (r: JsonValue)
    ensures
        r@ == v@,
    decreases v,
{
    match v {
        JsonValue::Null => JsonValue::Null,
        JsonValue::Bool(b) => JsonValue::Bool(*b),
        JsonValue::Number(n) => JsonValue::Number(copy_number(n)),
        JsonValue::Str(s) => JsonValue::Str(s.clone()),
        JsonValue::Array(a) => {
            let mut out: Vec<JsonValue> = Vec::new();
            let mut i: usize = 0;
            while i < a.len()
                invariant
                    i <= a@.len(),
                    *v == JsonValue::Array(*a),
                    out@.len() == i,
                    forall|k: int| 0 <= k < i ==> out@[k]@ == (#[trigger] a@[k])@,
                decreases a@.len() - i,
            {
                assert(decreases_to!(*v => v->Array_0@[i as int]));
                out.push(copy(&a[i]));
                i = i + 1;
            }
            let r = JsonValue::Array(out);
            assert(r@->Array_0 =~= v@->Array_0);
            r
        },
        JsonValue::Object(o) => {
            let mut out: Vec<(String, JsonValue)> = Vec::new();
            let mut i: usize = 0;
            while i < o.len()
                invariant
                    i <= o@.len(),
                    *v == JsonValue::Object(*o),
                    out@.len() == i,
                    forall|k: int|
                        0 <= k < i ==> out@[k].0@ == (#[trigger] o@[k]).0@ && out@[k].1@ == o@[k].1@,
                decreases o@.len() - i,
            {
                assert(decreases_to!(*v => v->Object_0@[i as int].1));
                out.push((o[i].0.clone(), copy(&o[i].1)));
                i = i + 1;
            }
            let r = JsonValue::Object(out);
            assert(r@->Object_0 =~= v@->Object_0);
            r
        },
    }
}

/// Two numbers are equal when they have the same form and the same value; the
/// two zeros among the doubles are one value.
pub open spec fn same_number(a: NumberV, b: NumberV) -> bool {
    match (a, b) {
        (NumberV::PosInt(a), NumberV::PosInt(b)) => a == b,
        (NumberV::NegInt(a), NumberV::NegInt(b)) => a == b,
        (NumberV::Float { bits: a, .. }, NumberV::Float { bits: b, .. }) => a == b || (
        zero_bits(a) && zero_bits(b)),
        _ => false,
    }
}

pub open spec fn zero_bits(bits: u64) -> bool {
    bits == 0 || bits == 0x8000_0000_0000_0000
}

/// Equality of JSON values: the order of an object's entries does not matter.
pub open spec fn same_json(a: Json, b: Json) -> bool
    decreases a,
{
    match (a, b) {
        (Json::Null, Json::Null) => true,
        (Json::Bool(a), Json::Bool(b)) => a == b,
        (Json::Number(a), Json::Number(b)) => same_number(a, b),
        (Json::Str(a), Json::Str(b)) => a == b,
        (Json::Array(a), Json::Array(b)) => a.len() == b.len() && forall|i: int|
            0 <= i < a.len() ==> same_json(#[trigger] a[i], b[i]),
        (Json::Object(a), Json::Object(b)) => a.len() == b.len() && forall|i: int|
            0 <= i < a.len() ==> match entry(b, (#[trigger] a[i]).0) {
                Some(x) => same_json(a[i].1, x),
                None => false,
            },
        _ => false,
    }
}

pub open spec fn distinct_keys(o: Seq<(Seq<char>, Json)>) -> bool {
    forall|i: int, k: int| 0 <= i < k < o.len() ==> (#[trigger] o[i]).0 != (#[trigger] o[k]).0
}

/// A value whose objects name no key twice.
pub open spec fn sound(j: Json) -> bool
    decreases j,
{
    match j {
        Json::Array(a) => forall|i: int| 0 <= i < a.len() ==> sound(#[trigger] a[i]),
        Json::Object(o) => {
            &&& distinct_keys(o)
            &&& forall|i: int| 0 <= i < o.len() ==> sound((#[trigger] o[i]).1)
        },
        _ => true,
    }
}

pub proof fn lemma_member_sound(j: Json, key: Seq<char>)
    requires
        sound(j),
    ensures
        member(j, key) matches Some(x) ==> sound(x),
{
    if let Json::Object(o) = j {
        lemma_entry_index(o, key);
    }
}

pub proof fn lemma_same_json_transitive(a: Json, b: Json, c: Json)
    requires
        same_json(a, b),
        same_json(b, c),
    ensures
        same_json(a, c),
    decreases a,
{
    match (a, b, c) {
        (Json::Array(x), Json::Array(y), Json::Array(z)) => {
            assert forall|i: int| 0 <= i < x.len() implies same_json(#[trigger] x[i], z[i]) by {
                assert(same_json(y[i], z[i]));
                lemma_same_json_transitive(x[i], y[i], z[i]);
            }
        },
        (Json::Object(x), Json::Object(y), Json::Object(z)) => {
            assert forall|i: int| 0 <= i < x.len() implies match entry(z, (#[trigger] x[i]).0) {
                Some(w) => same_json(x[i].1, w),
                None => false,
            } by {
                let key = x[i].0;
                lemma_entry_index(y, key);
                let k = entry_index(y, key);
                assert(y[k].0 == key);
                lemma_same_json_transitive(x[i].1, y[k].1, entry(z, key)->0);
            }
        },
        _ => {},
    }
}

pub open spec fn keys_of(o: Seq<(Seq<char>, Json)>) -> Seq<Seq<char>> {
    o.map_values(|e: (Seq<char>, Json)| e.0)
}

proof fn lemma_keys_shared(a: Seq<(Seq<char>, Json)>, b: Seq<(Seq<char>, Json)>, k: int) -> (r: int)
    requires
        a.len() == b.len(),
        sound(Json::Object(a)),
        sound(Json::Object(b)),
        forall|i: int| 0 <= i < a.len() ==> entry(b, (#[trigger] a[i]).0) is Some,
        0 <= k < b.len(),
    ensures
        0 <= r < a.len(),
        a[r].0 == b[k].0,
{
    let x = keys_of(a);
    let y = keys_of(b);
    assert(distinct_keys(a) && distinct_keys(b));
    assert(x.no_duplicates()) by {
        assert forall|i: int, j: int| 0 <= i < x.len() && 0 <= j < x.len() && i != j implies x[i]
            != x[j] by {
            assert(x[i] == a[i].0 && x[j] == a[j].0);
            if i < j {
                assert(a[i].0 != a[j].0);
            } else {
                assert(a[j].0 != a[i].0);
            }
        }
    }
    assert(y.no_duplicates()) by {
        assert forall|i: int, j: int| 0 <= i < y.len() && 0 <= j < y.len() && i != j implies y[i]
            != y[j] by {
            assert(y[i] == b[i].0 && y[j] == b[j].0);
            if i < j {
                assert(b[i].0 != b[j].0);
            } else {
                assert(b[j].0 != b[i].0);
            }
        }
    }
    x.unique_seq_to_set();
    y.unique_seq_to_set();
    assert(x.to_set().subset_of(y.to_set())) by {
        assert forall|key: Seq<char>| x.to_set().contains(key) implies y.to_set().contains(key) by {
            let i = choose|i: int| 0 <= i < x.len() && x[i] == key;
            assert(a[i].0 == key);
            lemma_entry_index(b, key);
            assert(y[entry_index(b, key)] == key);
        }
    }
    vstd::seq_lib::seq_to_set_is_finite(x);
    vstd::seq_lib::seq_to_set_is_finite(y);
    vstd::set_lib::lemma_subset_equality(x.to_set(), y.to_set());
    assert(y[k] == b[k].0);
    assert(y.to_set().contains(y[k]));
    assert(x.to_set().contains(b[k].0));
    let r = choose|i: int| 0 <= i < x.len() && x[i] == b[k].0;
    assert(x[r] == a[r].0);
    r
}

pub proof fn lemma_same_json_symmetric(a: Json, b: Json)
    requires
        sound(a),
        sound(b),
        same_json(a, b),
    ensures
        same_json(b, a),
    decreases a,
{
    match (a, b) {
        (Json::Array(x), Json::Array(y)) => {
            assert forall|i: int| 0 <= i < y.len() implies same_json(#[trigger] y[i], x[i]) by {
                assert(same_json(x[i], y[i]));
                lemma_same_json_symmetric(x[i], y[i]);
            }
        },
        (Json::Object(x), Json::Object(y)) => {
            assert forall|i: int| 0 <= i < y.len() implies match entry(x, (#[trigger] y[i]).0) {
                Some(w) => same_json(y[i].1, w),
                None => false,
            } by {
                let key = y[i].0;
                let at = lemma_keys_shared(x, y, i);
                lemma_entry_index(x, key);
                let k = entry_index(x, key);
                assert(x[k].0 == key);
                lemma_entry_index(y, key);
                assert(entry_index(y, key) == i) by {
                    let e = entry_index(y, key);
                    if e < i {
                        assert(y[e].0 != y[i].0);
                    }
                }
                lemma_same_json_symmetric(x[k].1, y[i].1);
            }
        },
        _ => {},
    }
}

pub fn number_eq(a: &Number, b: &Number) -> (r: bool)
    ensures
        r == same_number(a@, b@),
{
    match (a, b) {
        (Number::PosInt(a), Number::PosInt(b)) => *a == *b,
        (Number::NegInt(a), Number::NegInt(b)) => *a == *b,
        (Number::Float { bits: a, .. }, Number::Float { bits: b, .. }) => *a == *b || ((*a == 0
            || *a == 0x8000_0000_0000_0000) && (*b == 0 || *b == 0x8000_0000_0000_0000)),
        _ => false,
    }
}

pub fn value_eq(a: &JsonValue, b: &JsonValue) -> (r: bool)
    ensures
        r == same_json(a@, b@),
    decreases a,
{
    match (a, b) {
        (JsonValue::Null, JsonValue::Null) => true,
        (JsonValue::Bool(x), JsonValue::Bool(y)) => *x == *y,
        (JsonValue::Number(x), JsonValue::Number(y)) => number_eq(x, y),
        (JsonValue::Str(x), JsonValue::Str(y)) => text::same(x.as_str(), y.as_str()),
        (JsonValue::Array(x), JsonValue::Array(y)) => {
            if x.len() != y.len() {
                return false;
            }
            let ghost va = a@->Array_0;
            let ghost vb = b@->Array_0;
            let mut i: usize = 0;
            while i < x.len()
                invariant
                    i <= x@.len() == y@.len(),
                    *a == JsonValue::Array(*x),
                    va.len() == x@.len(),
                    vb.len() == x@.len(),
                    a@ == Json::Array(va),
                    b@ == Json::Array(vb),
                    forall|k: int| 0 <= k < x@.len() ==> va[k] == x@[k]@ && vb[k] == y@[k]@,
                    forall|k: int| 0 <= k < i ==> same_json(#[trigger] va[k], vb[k]),
                decreases x@.len() - i,
            {
                if !value_eq(&x[i], &y[i]) {
                    assert(!same_json(va[i as int], vb[i as int]));
                    return false;
                }
                i = i + 1;
            }
            true
        },
        (JsonValue::Object(x), JsonValue::Object(y)) => {
            if x.len() != y.len() {
                return false;
            }
            let ghost va = a@->Object_0;
            let ghost vb = b@->Object_0;
            let mut i: usize = 0;
            while i < x.len()
                invariant
                    i <= x@.len() == y@.len(),
                    *a == JsonValue::Object(*x),
                    va.len() == x@.len(),
                    vb.len() == x@.len(),
                    a@ == Json::Object(va),
                    b@ == Json::Object(vb),
                    forall|k: int| 0 <= k < x@.len() ==> va[k] == (x@[k].0@, x@[k].1@),
                    forall|k: int|
                        0 <= k < i ==> match entry(vb, (#[trigger] va[k]).0) {
                            Some(x) => same_json(va[k].1, x),
                            None => false,
                        },
                decreases x@.len() - i,
            {
                assert(va[i as int] == (x@[i as int].0@, x@[i as int].1@));
                match get(b, x[i].0.as_str()) {
                    Some(other) => {
                        if !value_eq(&x[i].1, other) {
                            return false;
                        }
                    },
                    None => {
                        return false;
                    },
                }
                i = i + 1;
            }
            true
        },
        _ => false,
    }
}

/// The hexadecimal digit of a number below sixteen.
pub open spec fn hex_digit(d: int) -> char {
    if d < 10 {
        (0x30 + d) as char
    } else {
        (0x57 + d) as char
    }
}

/// How one character stands inside a JSON string.
pub open spec fn escaped_char(c: char) -> Seq<char> {
    if c == '"' {
        seq!['\\', '"']
    } else if c == '\\' {
        seq!['\\', '\\']
    } else if c == '\u{8}' {
        seq!['\\', 'b']
    } else if c == '\u{c}' {
        seq!['\\', 'f']
    } else if c == '\n' {
        seq!['\\', 'n']
    } else if c == '\r' {
        seq!['\\', 'r']
    } else if c == '\t' {
        seq!['\\', 't']
    } else if (c as u32) < 0x20 {
        seq!['\\', 'u', '0', '0', hex_digit(c as int / 16), hex_digit(c as int % 16)]
    } else {
        seq![c]
    }
}

pub open spec fn escaped(s: Seq<char>) -> Seq<char>
    decreases s.len(),
{
    if s.len() == 0 {
        Seq::empty()
    } else {
        escaped(s.drop_last()) + escaped_char(s.last())
    }
}

/// A text as a JSON string.
pub open spec fn quoted(s: Seq<char>) -> Seq<char> {
    seq!['"'] + escaped(s) + seq!['"']
}

/// A JSON value of the parser.
#[verifier::external_type_specification]
#[verifier::external_body]
pub struct ExTree(serde_json::Value);

/// What a JSON value of the parser holds. The entries of an object come in the
/// order in which the parser walks them.
pub uninterp spec fn held(v: serde_json::Value) -> Json;

/// What `serde_json::from_str` reads out of a text: the value it holds, or
/// nothing where it is no JSON.
pub uninterp spec fn read_json(t: Seq<char>) -> Option<Json>;

/// What becomes of a value in the parser's own form, where an object has every
/// key once and a number with a fraction is a double.
pub uninterp spec fn stored(j: Json) -> Json;

/// How `serde_json::to_string_pretty` lays out a value over lines.
pub uninterp spec fn pretty_json(j: Json) -> Option<Seq<char>>;

/// A key that the parser takes for a mark of its own.
pub open spec fn reserved_key(key: Seq<char>) -> bool {
    key == "$serde_json::private::RawValue"@ || key == "$serde_json::private::Number"@
}

/// A value that survives being printed and read: it has no number with a
/// fraction, no key twice, no key that the parser takes for a mark of its own,
/// and at most `depth` values inside each other.
pub open spec fn plain(j: Json, depth: nat) -> bool
    decreases j,
{
    match j {
        Json::Number(NumberV::NegInt(n)) => n < 0,
        Json::Number(NumberV::Float { .. }) => false,
        Json::Array(a) => {
            &&& depth > 0
            &&& forall|i: int| 0 <= i < a.len() ==> plain(#[trigger] a[i], (depth - 1) as nat)
        },
        Json::Object(o) => {
            &&& depth > 0
            &&& distinct_keys(o)
            &&& forall|i: int|
                0 <= i < o.len() ==> !reserved_key((#[trigger] o[i]).0) && plain(
                    o[i].1,
                    (depth - 1) as nat,
                )
        },
        _ => true,
    }
}

/// How deep the parser follows values inside each other.
pub open spec fn depth_limit() -> nat {
    127
}

pub proof fn lemma_plain_is_sound(j: Json, depth: nat)
    requires
        plain(j, depth),
    ensures
        sound(j),
    decreases j,
{
    match j {
        Json::Array(a) => {
            assert forall|i: int| 0 <= i < a.len() implies sound(#[trigger] a[i]) by {
                lemma_plain_is_sound(a[i], (depth - 1) as nat);
            }
        },
        Json::Object(o) => {
            assert forall|i: int| 0 <= i < o.len() implies sound((#[trigger] o[i]).1) by {
                lemma_plain_is_sound(o[i].1, (depth - 1) as nat);
            }
        },
        _ => {},
    }
}

/// Setting a member keeps an object plain.
pub proof fn lemma_with_member_plain(j: Json, key: Seq<char>, x: Json, depth: nat)
    requires
        plain(j, depth),
        !reserved_key(key),
        depth > 0,
        plain(x, (depth - 1) as nat),
    ensures
        plain(with_member(j, key, x), depth),
{
    if let Json::Object(o) = j {
        lemma_entry_index(o, key);
        let n = with_entry(o, key, x);
        let at = entry_index(o, key);
        assert forall|i: int, k: int| 0 <= i < k < n.len() implies (#[trigger] n[i]).0 != (
        #[trigger] n[k]).0 by {
            if at < o.len() {
                assert(o[i].0 != o[k].0);
            } else if k < o.len() {
                assert(o[i].0 != o[k].0);
            }
        }
        assert forall|i: int| 0 <= i < n.len() implies !reserved_key((#[trigger] n[i]).0) && plain(
            n[i].1,
            (depth - 1) as nat,
        ) by {
            if i != at {
                assert(n[i] == o[i]);
            }
        }
    }
}

/// Values that are the same have the same texts under the same keys.
pub proof fn lemma_same_member(a: Json, b: Json, key: Seq<char>)
    requires
        sound(a),
        sound(b),
        same_json(a, b),
    ensures
        match (member(a, key), member(b, key)) {
            (Some(x), Some(y)) => same_json(x, y),
            (None, None) => true,
            _ => false,
        },
        string_member(a, key) == string_member(b, key),
{
    if let (Json::Object(x), Json::Object(y)) = (a, b) {
        lemma_same_json_symmetric(a, b);
        lemma_entry_index(x, key);
        lemma_entry_index(y, key);
        let i = entry_index(x, key);
        let k = entry_index(y, key);
        if i < x.len() {
            assert(entry(y, x[i].0) is Some);
        }
        if k < y.len() {
            assert(entry(x, y[k].0) is Some);
        }
    }
}

pub open spec fn opt_held(v: Option<serde_json::Value>) -> Option<Json> {
    match v {
        Some(v) => Some(held(v)),
        None => None,
    }
}

/// `serde_json::from_str` to a `serde_json::Value`: what is read depends on the
/// text alone.
#[verifier::external_body]
fn parse_tree(t: &str) -> (r: Option<serde_json::Value>)
    ensures
        opt_held(r) == read_json(t@),
{
    serde_json::from_str(t).ok()
}

/// A `serde_json::Value` variant by variant: nothing of what it holds is lost
/// or added.
#[verifier::external_body]
fn from_tree(v: serde_json::Value) -> (r: JsonValue)
    ensures
        r@ == held(v),
{
    match v {
        Value::Null => JsonValue::Null,
        Value::Bool(b) => JsonValue::Bool(b),
        Value::Number(n) => JsonValue::Number(match (n.as_u64(), n.as_i64()) {
            (Some(u), _) => Number::PosInt(u),
            (_, Some(i)) => Number::NegInt(i),
            _ => Number::Float { bits: n.as_f64().unwrap_or_default().to_bits(), text: n.to_string() },
        }),
        Value::String(s) => JsonValue::Str(s),
        Value::Array(a) => JsonValue::Array(a.into_iter().map(from_tree).collect()),
        Value::Object(o) => JsonValue::Object(
            o.into_iter().map(|(k, x)| (k, from_tree(x))).collect()),
    }
}

/// The `serde_json::Value` of a value, variant by variant. What it holds
/// depends on the value alone; of a plain value it is the same value, and plain.
#[verifier::external_body]
fn to_tree(v: &JsonValue) -> (r: serde_json::Value)
    ensures
        held(r) == stored(v@),
        plain(v@, depth_limit()) ==> plain(held(r), depth_limit()) && same_json(held(r), v@),
{
    match v {
        JsonValue::Null => Value::Null,
        JsonValue::Bool(b) => Value::Bool(*b),
        JsonValue::Number(Number::PosInt(n)) => Value::from(*n),
        JsonValue::Number(Number::NegInt(n)) => Value::from(*n),
        JsonValue::Number(Number::Float { text, .. }) => Value::from(
            text.parse().ok().and_then(serde_json::Number::from_f64)),
        JsonValue::Str(s) => Value::String(s.clone()),
        JsonValue::Array(a) => Value::Array(a.iter().map(to_tree).collect()),
        JsonValue::Object(o) => Value::Object(
            o.iter().map(|(k, x)| (k.clone(), to_tree(x))).collect()),
    }
}

/// `serde_json::to_string_pretty` on a `serde_json::Value`: the text depends on
/// what the value holds alone, and `serde_json::from_str` reads a plain value
/// back from it. Not said is what it reads of numbers with a fraction, which it
/// may round, and of values deeper than it follows.
#[verifier::external_body]
fn print_pretty(v: &serde_json::Value) -> (r: Option<String>)
    ensures
        text::opt_view(r) == pretty_json(held(*v)),
        plain(held(*v), depth_limit()) ==> r is Some && read_json(r->0@) == Some(held(*v)),
{
    serde_json::to_string_pretty(v).ok()
}

/// The value that a text holds, if it is JSON.
pub fn parse_json(t: &str) -> (r: Option<JsonValue>)
    ensures
        crate::bus::opt_value_view(r) == read_json(t@),
{
    match parse_tree(t) {
        Some(v) => Some(from_tree(v)),
        None => None,
    }
}

/// A value laid out over lines.
pub fn pretty_text(v: &JsonValue) -> (r: Option<String>)
    ensures
        text::opt_view(r) == pretty_json(stored(v@)),
        plain(v@, depth_limit()) ==> (r matches Some(t) && read_back(t@, v@)),
{
    let tree = to_tree(v);
    proof {
        if plain(v@, depth_limit()) {
            lemma_plain_is_sound(held(tree), depth_limit());
        }
    }
    print_pretty(&tree)
}

/// What is read out of a text is this value.
pub open spec fn read_back(t: Seq<char>, j: Json) -> bool {
    read_json(t) matches Some(x) && sound(x) && same_json(x, j)
}

/// `serde_json::Value::to_string` on a string value: the text between quotes,
/// with quotes, backslashes and the characters below U+0020 escaped.
#[verifier::external_body]
pub(crate) fn quote(s: &str) -> (r: String)
    ensures
        r@ == quoted(s@),
{
    serde_json::Value::String(s.to_string()).to_string()
}

pub open spec fn printed_number(n: NumberV) -> Seq<char> {
    match n {
        NumberV::PosInt(n) => text::decimal(n),
        NumberV::NegInt(n) => text::signed_decimal(n),
        NumberV::Float { text, .. } => text,
    }
}

/// The compact text of a JSON value.
pub open spec fn printed(j: Json) -> Seq<char>
    decreases j,
{
    match j {
        Json::Null => "null"@,
        Json::Bool(b) => if b {
            "true"@
        } else {
            "false"@
        },
        Json::Number(n) => printed_number(n),
        Json::Str(s) => quoted(s),
        Json::Array(a) => seq!['['] + text::joined(printed_items(a), ","@) + seq![']'],
        Json::Object(o) => seq!['{'] + text::joined(printed_entries(o), ","@) + seq!['}'],
    }
}

pub open spec fn printed_items(a: Seq<Json>) -> Seq<Seq<char>>
    decreases a,
{
    if a.len() == 0 {
        Seq::empty()
    } else {
        printed_items(a.drop_last()).push(printed(a.last()))
    }
}

pub open spec fn printed_entries(o: Seq<(Seq<char>, Json)>) -> Seq<Seq<char>>
    decreases o,
{
    if o.len() == 0 {
        Seq::empty()
    } else {
        printed_entries(o.drop_last()).push(quoted(o.last().0) + ":"@ + printed(o.last().1))
    }
}

pub fn number_text(n: &Number) -> (r: String)
    ensures
        r@ == printed_number(n@),
{
    match n {
        Number::PosInt(n) => text::decimal_string(*n),
        Number::NegInt(n) => text::signed_decimal_string(*n),
        Number::Float { text, .. } => text.clone(),
    }
}

fn bracketed(open: char, inner: &str, close: char) -> (r: String)
    ensures
        r@ == seq![open] + inner@ + seq![close],
{
    let mut r = String::new();
    r.push(open);
    text::push_str(&mut r, inner);
    r.push(close);
    assert(r@ =~= seq![open] + inner@ + seq![close]);
    r
}

/// The compact text of a value.
pub fn value_text(v: &JsonValue) -> (r: String)
    ensures
        r@ == printed(v@),
    decreases v,
{
    match v {
        JsonValue::Null => "null".to_owned(),
        JsonValue::Bool(b) => if *b {
            "true".to_owned()
        } else {
            "false".to_owned()
        },
        JsonValue::Number(n) => number_text(n),
        JsonValue::Str(s) => quote(s.as_str()),
        JsonValue::Array(a) => {
            let mut parts: Vec<String> = Vec::new();
            let mut i: usize = 0;
            let ghost j = v@->Array_0;
            assert(text::views(parts@) =~= printed_items(j.take(0)));
            while i < a.len()
                invariant
                    i <= a@.len(),
                    *v == JsonValue::Array(*a),
                    j.len() == a@.len(),
                    forall|k: int| 0 <= k < a@.len() ==> j[k] == (#[trigger] a@[k])@,
                    text::views(parts@) == printed_items(j.take(i as int)),
                decreases a@.len() - i,
            {
                assert(decreases_to!(*v => v->Array_0@[i as int]));
                let ghost before = parts@;
                let part = value_text(&a[i]);
                let ghost p = part@;
                parts.push(part);
                assert(text::views(parts@) =~= text::views(before).push(p));
                assert(j.take(i as int + 1).drop_last() =~= j.take(i as int));
                i = i + 1;
            }
            assert(j.take(i as int) =~= j);
            let inner = text::join(&parts, ",");
            bracketed('[', inner.as_str(), ']')
        },
        JsonValue::Object(o) => {
            let mut parts: Vec<String> = Vec::new();
            let mut i: usize = 0;
            let ghost j = v@->Object_0;
            assert(text::views(parts@) =~= printed_entries(j.take(0)));
            while i < o.len()
                invariant
                    i <= o@.len(),
                    *v == JsonValue::Object(*o),
                    j.len() == o@.len(),
                    forall|k: int| 0 <= k < o@.len() ==> j[k] == ((#[trigger] o@[k]).0@, o@[k].1@),
                    text::views(parts@) == printed_entries(j.take(i as int)),
                decreases o@.len() - i,
            {
                assert(decreases_to!(*v => v->Object_0@[i as int].1));
                let ghost before = parts@;
                let key = quote(o[i].0.as_str());
                let val = value_text(&o[i].1);
                let part = text::concat3(key.as_str(), ":", val.as_str());
                let ghost p = part@;
                parts.push(part);
                assert(text::views(parts@) =~= text::views(before).push(p));
                assert(j.take(i as int + 1).drop_last() =~= j.take(i as int));
                i = i + 1;
            }
            assert(j.take(i as int) =~= j);
            let inner = text::join(&parts, ",");
            bracketed('{', inner.as_str(), '}')
        },
    }
}

pub open spec fn entries_view(o: Seq<(String, JsonValue)>) -> Seq<(Seq<char>, Json)> {
    o.map_values(|e: (String, JsonValue)| (e.0@, e.1@))
}

pub proof fn lemma_object_view(v: JsonValue)
    ensures
        v matches JsonValue::Object(o) ==> v@ == Json::Object(entries_view(o@)),
{
    if let JsonValue::Object(o) = v {
        assert(v@->Object_0 =~= entries_view(o@));
    }
}

fn index_of(o: &Vec<(String, JsonValue)>, key: &str) -> (r: usize)
    ensures
        r == entry_index(entries_view(o@), key@),
        r <= o@.len(),
{
    let mut i: usize = 0;
    while i < o.len()
        invariant
            i <= o@.len(),
            forall|k: int| 0 <= k < i ==> (#[trigger] entries_view(o@)[k]).0 != key@,
        decreases o@.len() - i,
    {
        if text::same(o[i].0.as_str(), key) {
            proof {
                lemma_entry_index_is(entries_view(o@), key@, i as int);
            }
            return i;
        }
        assert(entries_view(o@)[i as int].0 != key@);
        i = i + 1;
    }
    proof {
        lemma_entry_index_is(entries_view(o@), key@, i as int);
    }
    i
}

/// Sets one member of an object.
pub fn set_member(v: &mut JsonValue, key: &str, x: JsonValue)
    ensures
        final(v)@ == with_member(old(v)@, key@, x@),
{
    proof {
        lemma_object_view(*v);
    }
    match v {
        JsonValue::Object(o) => {
            let ghost before = entries_view(o@);
            let i: usize = index_of(o, key);
            if i < o.len() {
                proof {
                    lemma_entry_index(before, key@);
                }
                o[i].1 = x;
                assert(entries_view(o@) =~= before.update(i as int, (key@, x@)));
            } else {
                o.push((key.to_owned(), x));
                assert(entries_view(o@) =~= before.push((key@, x@)));
            }
        },
        _ => {},
    }
    proof {
        lemma_object_view(*v);
    }
}

/// Takes one member out of its place, leaving null there.
pub fn take_member(v: &mut JsonValue, key: &str) -> (r: Option<JsonValue>)
    ensures
        match r {
            Some(x) => member(old(v)@, key@) == Some(x@) && final(v)@ == with_member(
                old(v)@,
                key@,
                Json::Null,
            ),
            None => member(old(v)@, key@) is None && final(v)@ == old(v)@,
        },
{
    proof {
        lemma_object_view(*v);
    }
    let mut r: Option<JsonValue> = None;
    match v {
        JsonValue::Object(o) => {
            let ghost before = entries_view(o@);
            proof {
                lemma_entry_index(before, key@);
            }
            let i: usize = index_of(o, key);
            if i < o.len() {
                let mut x = JsonValue::Null;
                std::mem::swap(&mut o[i].1, &mut x);
                r = Some(x);
                assert(entries_view(o@) =~= before.update(i as int, (key@, Json::Null)));
            }
        },
        _ => {},
    }
    proof {
        lemma_object_view(*v);
    }
    r
}

/// Setting a member twice is setting it once, to the last value.
pub proof fn lemma_with_member_twice(j: Json, key: Seq<char>, x: Json, y: Json)
    ensures
        with_member(with_member(j, key, x), key, y) == with_member(j, key, y),
{
    if let Json::Object(o) = j {
        lemma_entry_index(o, key);
        let n = with_entry(o, key, x);
        let i = entry_index(o, key);
        lemma_entry_index_is(n, key, i);
        assert(with_entry(n, key, y) =~= with_entry(o, key, y));
    }
}

/// Setting a member to what it is changes nothing.
pub proof fn lemma_set_same(j: Json, key: Seq<char>)
    ensures
        member(j, key) matches Some(x) ==> with_member(j, key, x) == j,
{
    if let Json::Object(o) = j {
        lemma_entry_index(o, key);
        if member(j, key) is Some {
            assert(with_entry(o, key, member(j, key)->0) =~= o);
        }
    }
}

} // verus!
