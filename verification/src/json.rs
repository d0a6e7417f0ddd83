//! A JSON document model: the values that dashboard files and Grafana
//! replies hold. An object keeps its keys and its values side by side, in
//! order.
use vstd::prelude::*;

verus! {

/// A JSON value. Numbers keep their literal text.
#[derive(Debug)]
pub enum JsonValue {
    Null,
    Bool(bool),
    Number(String),
    Str(String),
    Array(Vec<JsonValue>),
    Object { keys: Vec<String>, values: Vec<JsonValue> },
}

/// The mathematical form of a JSON value.
pub ghost enum Json {
    Null,
    Bool(bool),
    Number(Seq<char>),
    Str(Seq<char>),
    Array(Seq<Json>),
    Object(Seq<Seq<char>>, Seq<Json>),
}

/// The entries of an object: keys and values are paired up to the shorter
/// of the two lists.
pub open spec fn entry_count(keys: nat, values: nat) -> nat {
    if keys <= values {
        keys
    } else {
        values
    }
}

impl View for JsonValue {
    type V = Json;

    open spec fn view(&self) -> Json
        decreases self,
    {
        match self {
            JsonValue::Null => Json::Null,
            JsonValue::Bool(b) => Json::Bool(*b),
            JsonValue::Number(n) => Json::Number(n@),
            JsonValue::Str(s) => Json::Str(s@),
            JsonValue::Array(items) => Json::Array(
                Seq::new(items@.len(), |i: int| if 0 <= i < items@.len() { items@[i]@ } else { Json::Null }),
            ),
            JsonValue::Object { keys, values } => {
                let n = entry_count(keys@.len(), values@.len());
                Json::Object(
                    Seq::new(n, |i: int| keys@[i]@),
                    Seq::new(n, |i: int| if 0 <= i < values@.len() { values@[i]@ } else { Json::Null }),
                )
            },
        }
    }
}

/// A copy of a JSON value.
#[verifier::loop_isolation(false)]
pub fn clone_json(v: &JsonValue) -> (c: JsonValue)
    ensures
        c@ == v@,
    decreases v,
{
    match v {
        JsonValue::Null => JsonValue::Null,
        JsonValue::Bool(b) => JsonValue::Bool(*b),
        JsonValue::Number(n) => JsonValue::Number(n.clone()),
        JsonValue::Str(s) => JsonValue::Str(s.clone()),
        JsonValue::Array(items) => {
            let out = clone_items(v, items);
            let r = JsonValue::Array(out);
            assert(r@->Array_0 =~= v@->Array_0);
            r
        },
        JsonValue::Object { keys, values } => {
            let mut ks: Vec<String> = Vec::new();
            let mut i: usize = 0;
            while i < keys.len()
                invariant
                    i <= keys@.len(),
                    ks@.len() == i,
                    forall|k: int| 0 <= k < i ==> (#[trigger] ks@[k])@ == keys@[k]@,
                decreases keys.len() - i,
            {
                ks.push(keys[i].clone());
                i = i + 1;
            }
            let vs = clone_items(v, values);
            let r = JsonValue::Object { keys: ks, values: vs };
            assert(r@->Object_0 =~= v@->Object_0);
            assert(r@->Object_1 =~= v@->Object_1);
            r
        },
    }
}

/// Copies of the items of an array, or of the values of an object, that
/// `parent` holds.
#[verifier::loop_isolation(false)]
fn clone_items(parent: &JsonValue, items: &Vec<JsonValue>) -> (out: Vec<JsonValue>)
    requires
        parent matches JsonValue::Array(a) ==> a == *items,
        parent matches JsonValue::Object { values, .. } ==> values == *items,
        parent is Array || parent is Object,
    ensures
        out@.len() == items@.len(),
        forall|k: int| 0 <= k < items@.len() ==> (#[trigger] out@[k])@ == items@[k]@,
    decreases parent, 0nat,
{
    let mut out: Vec<JsonValue> = Vec::new();
    let mut i: usize = 0;
    while i < items.len()
        invariant
            i <= items@.len(),
            out@.len() == i,
            forall|k: int| 0 <= k < i ==> (#[trigger] out@[k])@ == items@[k]@,
        decreases items.len() - i,
    {
        proof {
            if parent is Array {
                assert(decreases_to!(*parent => (*parent)->Array_0));
            } else {
                assert(decreases_to!(*parent => (*parent)->values));
            }
            assert(decreases_to!(*items => items@));
            assert(decreases_to!(items@ => items@[i as int]));
        }
        let c = clone_json(&items[i]);
        out.push(c);
        i = i + 1;
    }
    out
}

/// The view of an object with the given keys and values.
pub open spec fn obj_view(keys: Vec<String>, values: Vec<JsonValue>) -> Json {
    (JsonValue::Object { keys, values })@
}

/// The position of the first entry with `key`, or -1.
pub open spec fn key_pos(keys: Seq<Seq<char>>, key: Seq<char>) -> int
    decreases keys.len(),
{
    if keys.len() == 0 {
        -1
    } else if keys[0] == key {
        0
    } else {
        let p = key_pos(keys.drop_first(), key);
        if p < 0 {
            -1
        } else {
            p + 1
        }
    }
}

pub proof fn lemma_key_pos(keys: Seq<Seq<char>>, key: Seq<char>)
    ensures
        -1 <= key_pos(keys, key) < keys.len(),
        key_pos(keys, key) >= 0 ==> keys[key_pos(keys, key)] == key,
        key_pos(keys, key) >= 0 ==> forall|i: int| 0 <= i < key_pos(keys, key) ==> keys[i] != key,
        key_pos(keys, key) < 0 ==> forall|i: int| 0 <= i < keys.len() ==> keys[i] != key,
    decreases keys.len(),
{
    if keys.len() > 0 && keys[0] != key {
        lemma_key_pos(keys.drop_first(), key);
        assert forall|i: int| 1 <= i < keys.len() implies keys[i] == keys.drop_first()[i - 1] by {}
    }
}

/// The value under `key` of an object, or `None` for a missing key or a
/// value that is no object.
pub open spec fn field(j: Json, key: Seq<char>) -> Option<Json> {
    match j {
        Json::Object(ks, vs) => {
            let p = key_pos(ks, key);
            if 0 <= p < vs.len() {
                Some(vs[p])
            } else {
                None
            }
        },
        _ => None,
    }
}

/// The string under `key`, or `None`.
pub open spec fn str_field(j: Json, key: Seq<char>) -> Option<Seq<char>> {
    match field(j, key) {
        Some(Json::Str(s)) => Some(s),
        _ => None,
    }
}

/// An object with `key` set to `value`: replaced in place where the key
/// is present, appended where it is not. Any other value is left as it is.
pub open spec fn with_field(j: Json, key: Seq<char>, value: Json) -> Json {
    match j {
        Json::Object(ks, vs) => {
            let p = key_pos(ks, key);
            if 0 <= p {
                Json::Object(ks, vs.update(p, value))
            } else {
                Json::Object(ks.push(key), vs.push(value))
            }
        },
        _ => j,
    }
}

/// An object with the given keys and values, in order.
pub open spec fn object_of(ks: Seq<Seq<char>>, vs: Seq<Json>) -> Json {
    Json::Object(ks, vs)
}

/// The position among the paired entries of the first key equal to `key`.
pub fn find_key(keys: &Vec<String>, values: &Vec<JsonValue>, key: &str) -> (r: Option<usize>)
    ensures
        ({
            let j = obj_view(*keys, *values);
            match r {
                Some(p) => p == key_pos(j->Object_0, key@) && p < j->Object_1.len()
                    && p < keys@.len() && p < values@.len(),
                None => key_pos(j->Object_0, key@) < 0,
            }
        }),
{
    let ghost j = obj_view(*keys, *values);
    let n = if keys.len() <= values.len() { keys.len() } else { values.len() };
    proof {
        lemma_key_pos(j->Object_0, key@);
    }
    let mut i: usize = 0;
    while i < n
        invariant
            i <= n,
            n == j->Object_0.len(),
            n == j->Object_1.len(),
            n <= keys@.len(),
            n <= values@.len(),
            j == obj_view(*keys, *values),
            forall|q: int| 0 <= q < i ==> j->Object_0[q] != key@,
            -1 <= key_pos(j->Object_0, key@) < n,
            key_pos(j->Object_0, key@) >= 0 ==> j->Object_0[key_pos(j->Object_0, key@)] == key@,
            key_pos(j->Object_0, key@) >= 0 ==> forall|q: int| 0 <= q < key_pos(j->Object_0, key@) ==> j->Object_0[q] != key@,
            key_pos(j->Object_0, key@) < 0 ==> forall|q: int| 0 <= q < n ==> j->Object_0[q] != key@,
        decreases n - i,
    {
        assert(j->Object_0[i as int] == keys@[i as int]@);
        if crate::text::str_is(keys[i].as_str(), key) {
            return Some(i);
        }
        i = i + 1;
    }
    None
}

/// The value under `key`, where `v` is an object that has it.
pub fn get_field<'a>(v: &'a JsonValue, key: &str) -> (r: Option<&'a JsonValue>)
    ensures
        match r {
            Some(x) => field(v@, key@) == Some(x@),
            None => field(v@, key@) is None,
        },
{
    match v {
        JsonValue::Object { keys, values } => {
            match find_key(keys, values, key) {
                Some(p) => {
                    assert(v@->Object_1[p as int] == values@[p as int]@);
                    Some(&values[p])
                },
                None => None,
            }
        },
        _ => None,
    }
}

/// The string under `key`, where there is one.
pub fn get_str<'a>(v: &'a JsonValue, key: &str) -> (r: Option<&'a String>)
    ensures
        match r {
            Some(s) => str_field(v@, key@) == Some(s@),
            None => str_field(v@, key@) is None,
        },
{
    match get_field(v, key) {
        Some(JsonValue::Str(s)) => Some(s),
        _ => None,
    }
}

/// The trimmed string under `key`, or `default` where there is none or it
/// is blank.
pub open spec fn string_field_of(j: Json, key: Seq<char>, default: Seq<char>) -> Seq<char> {
    match str_field(j, key) {
        Some(s) => if crate::text::trim(s).len() > 0 {
            crate::text::trim(s)
        } else {
            default
        },
        None => default,
    }
}

/// Reads a string field of a record, trimmed, falling back to `default`.
pub fn string_field(v: &JsonValue, key: &str, default: &str) -> (r: String)
    ensures
        r@ == string_field_of(v@, key@, default@),
{
    match get_str(v, key) {
        Some(s) => {
            let t = crate::text::trim_str(s.as_str());
            if t.as_str().unicode_len() > 0 {
                t
            } else {
                crate::text::owned(default)
            }
        },
        None => crate::text::owned(default),
    }
}

/// Sets `key` of an object to `value`, in place where the key is present
/// and at the end where it is not; a value that is no object is left as it
/// is.
pub fn set_field(v: &mut JsonValue, key: String, value: JsonValue)
    ensures
        final(v)@ == with_field(old(v)@, key@, value@),
{
    let ghost j = v@;
    match v {
        JsonValue::Object { keys, values } => {
            let found = find_key(keys, values, key.as_str());
            proof {
                lemma_key_pos(j->Object_0, key@);
            }
            match found {
                Some(p) => {
                    let ghost n = j->Object_0.len();
                    values.set(p, value);
                    proof {
                        let k2 = obj_view(*keys, *values);
                        assert(k2->Object_0 =~= j->Object_0);
                        assert(k2->Object_1 =~= j->Object_1.update(p as int, value@));
                    }
                },
                None => {
                    let n = if keys.len() <= values.len() { keys.len() } else { values.len() };
                    keys.truncate(n);
                    values.truncate(n);
                    let ghost kv = keys@;
                    let ghost vv = values@;
                    keys.push(key);
                    values.push(value);
                    proof {
                        let k2 = obj_view(*keys, *values);
                        assert(k2->Object_0 =~= j->Object_0.push(key@));
                        assert(k2->Object_1 =~= j->Object_1.push(value@));
                    }
                },
            }
        },
        _ => {},
    }
}

} // verus!
verus! {

proof fn lemma_key_pos_push(keys: Seq<Seq<char>>, x: Seq<char>, key: Seq<char>)
    ensures
        key_pos(keys.push(x), key) == (if key_pos(keys, key) >= 0 {
            key_pos(keys, key)
        } else if x == key {
            keys.len() as int
        } else {
            -1
        }),
    decreases keys.len(),
{
    if keys.len() > 0 {
        assert(keys.push(x).drop_first() =~= keys.drop_first().push(x));
        assert(keys.push(x)[0] == keys[0]);
        lemma_key_pos_push(keys.drop_first(), x, key);
        assert(keys.drop_first().len() == keys.len() - 1);
    } else {
        assert(keys.push(x).drop_first() =~= Seq::<Seq<char>>::empty());
        assert(keys.push(x)[0] == x);
        assert(key_pos(keys.push(x).drop_first(), key) == -1);
    }
}

/// Reading a key of an object after setting it gives the value set.
pub proof fn lemma_field_after_set(j: Json, key: Seq<char>, value: Json)
    requires
        j is Object,
        j->Object_0.len() == j->Object_1.len(),
    ensures
        field(with_field(j, key, value), key) == Some(value),
{
    let ks = j->Object_0;
    lemma_key_pos(ks, key);
    if key_pos(ks, key) < 0 {
        lemma_key_pos_push(ks, key, key);
    }
}

/// Setting one key of an object leaves every other key as it was.
pub proof fn lemma_field_after_set_other(j: Json, key: Seq<char>, value: Json, other: Seq<char>)
    requires
        j is Object,
        j->Object_0.len() == j->Object_1.len(),
        other != key,
    ensures
        field(with_field(j, key, value), other) == field(j, other),
{
    let ks = j->Object_0;
    lemma_key_pos(ks, key);
    lemma_key_pos(ks, other);
    if key_pos(ks, key) < 0 {
        lemma_key_pos_push(ks, key, other);
    }
}

/// Every object a value holds pairs each key with a value.
pub proof fn lemma_object_view_paired(v: JsonValue)
    requires
        v is Object,
    ensures
        v@->Object_0.len() == v@->Object_1.len(),
{
}

} // verus!
