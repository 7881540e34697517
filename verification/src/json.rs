//! A JSON value as the message logic reads it, and the recursive search for
//! the values stored under a key.

use vstd::prelude::*;

verus! {

/// A JSON number, as `serde_json` stores it: a non-negative integer, a
/// negative integer, or a float. The float's value is not held: nothing in
/// this library reads it.
#[derive(Debug)]
pub enum JsonNumber {
    PosInt(u64),
    NegInt(i64),
    Float,
}

/// A JSON value. An object holds its entries in the order in which its map
/// is walked (by key, for `serde_json`'s default map); a value read from
/// JSON text is `json_well_formed`: no object in it repeats a key.
#[derive(Debug)]
pub enum JsonValue {
    Null,
    Bool(bool),
    Number(JsonNumber),
    String(String),
    Array(Vec<JsonValue>),
    Object(Vec<(String, JsonValue)>),
}

/// Whether no two of `entries` have the same key.
pub open spec fn keys_distinct(entries: Seq<(String, JsonValue)>) -> bool {
    forall|i: int, j: int|
        0 <= i < j < entries.len() ==> (#[trigger] entries[i]).0@ != (#[trigger] entries[j]).0@
}

/// The well-formedness of a JSON value as a map holds it: every object in
/// it, at any depth, has distinct keys.
pub open spec fn json_well_formed(value: JsonValue) -> bool
    decreases value,
{
    match value {
        JsonValue::Array(items) => forall|i: int|
            0 <= i < items@.len() ==> json_well_formed(#[trigger] items@[i]),
        JsonValue::Object(entries) => {
            &&& keys_distinct(entries@)
            &&& forall|i: int| 0 <= i < entries@.len() ==> json_well_formed(#[trigger] entries@[i].1)
        },
        _ => true,
    }
}

/// `Number::as_i64`: the number as an `i64` when it is an integer that fits.
pub open spec fn number_as_i64(n: JsonNumber) -> Option<i64> {
    match n {
        JsonNumber::PosInt(u) => if u <= i64::MAX {
            Some(u as i64)
        } else {
            None
        },
        JsonNumber::NegInt(i) => Some(i),
        JsonNumber::Float => None,
    }
}

impl JsonNumber {
    /// The number as an `i64` when it is an integer that fits.
    pub fn as_i64(&self) -> (res: Option<i64>)
        ensures
            res == number_as_i64(*self),
    {
        match self {
            JsonNumber::PosInt(u) => if *u <= 9223372036854775807u64 {
                Some(*u as i64)
            } else {
                None
            },
            JsonNumber::NegInt(i) => Some(*i),
            JsonNumber::Float => None,
        }
    }
}

/// The value stored under `key` among `entries`: that of the first entry
/// with that key.
pub open spec fn entries_lookup(entries: Seq<(String, JsonValue)>, key: Seq<char>) -> Option<
    JsonValue,
>
    decreases entries.len(),
{
    if entries.len() == 0 {
        None
    } else if entries[0].0@ == key {
        Some(entries[0].1)
    } else {
        entries_lookup(entries.drop_first(), key)
    }
}

/// `value.get(key)`: the value under `key` when `value` is an object that has
/// it, otherwise nothing.
pub open spec fn json_get(value: JsonValue, key: Seq<char>) -> Option<JsonValue> {
    match value {
        JsonValue::Object(entries) => entries_lookup(entries@, key),
        _ => None,
    }
}

/// Among entries with distinct keys, the lookup finds the entry that has
/// the key.
pub proof fn lemma_entries_lookup_distinct(entries: Seq<(String, JsonValue)>, key: Seq<char>, i: int)
    requires
        keys_distinct(entries),
        0 <= i < entries.len(),
        entries[i].0@ == key,
    ensures
        entries_lookup(entries, key) == Some(entries[i].1),
    decreases entries.len(),
{
    if i > 0 {
        assert(entries[0].0@ != entries[i].0@);
        let rest = entries.drop_first();
        assert forall|a: int, b: int| 0 <= a < b < rest.len() implies (#[trigger] rest[a]).0@
            != (#[trigger] rest[b]).0@ by {
            assert(rest[a] == entries[a + 1] && rest[b] == entries[b + 1]);
        }
        assert(rest[i - 1] == entries[i]);
        lemma_entries_lookup_distinct(rest, key, i - 1);
    }
}

/// In a well-formed object, `get` of an entry's key gives that entry's
/// value: with distinct keys no earlier entry can shadow it.
pub proof fn lemma_get_in_well_formed_object(value: JsonValue, key: Seq<char>, i: int)
    requires
        json_well_formed(value),
        value matches JsonValue::Object(entries) && 0 <= i < entries@.len() && entries@[i].0@
            == key,
    ensures
        value matches JsonValue::Object(entries) && json_get(value, key) == Some(entries@[i].1),
{
    match value {
        JsonValue::Object(entries) => {
            lemma_entries_lookup_distinct(entries@, key, i);
        },
        _ => {},
    }
}

/// `value[key]`: the value under `key`, or `Null` where `get` finds nothing.
pub open spec fn json_index(value: JsonValue, key: Seq<char>) -> JsonValue {
    match json_get(value, key) {
        Some(v) => v,
        None => JsonValue::Null,
    }
}

/// The text of a string value.
pub open spec fn json_str(value: JsonValue) -> Option<Seq<char>> {
    match value {
        JsonValue::String(s) => Some(s@),
        _ => None,
    }
}

/// Whether `value` is an array or an object.
pub open spec fn is_container(value: JsonValue) -> bool {
    value is Array || value is Object
}

/// Every value stored under `key` in `value` and below it, in the order of a
/// depth-first walk: first the value under `key` in `value` itself (if it is
/// an object that has one), then, for an array, what each element holds, and
/// for an object, what each of its array or object values holds.
pub open spec fn values_by_key(value: JsonValue, key: Seq<char>) -> Seq<JsonValue>
    decreases value,
{
    let here = match json_get(value, key) {
        Some(v) => seq![v],
        None => Seq::empty(),
    };
    here + match value {
        JsonValue::Array(items) => values_in_items(items@, key),
        JsonValue::Object(entries) => values_in_entries(entries@, key),
        _ => Seq::empty(),
    }
}

/// What `values_by_key` finds in each of `items`, one after the other.
pub open spec fn values_in_items(items: Seq<JsonValue>, key: Seq<char>) -> Seq<JsonValue>
    decreases items,
{
    if items.len() == 0 {
        Seq::empty()
    } else {
        values_in_items(items.drop_last(), key) + values_by_key(items.last(), key)
    }
}

/// What `values_by_key` finds in each array or object value of `entries`,
/// one after the other; other values are not searched.
pub open spec fn values_in_entries(entries: Seq<(String, JsonValue)>, key: Seq<char>) -> Seq<
    JsonValue,
>
    decreases entries,
{
    if entries.len() == 0 {
        Seq::empty()
    } else {
        values_in_entries(entries.drop_last(), key) + if is_container(entries.last().1) {
            values_by_key(entries.last().1, key)
        } else {
            Seq::empty()
        }
    }
}

/// The search finds the value stored under `key` in the value itself.
pub proof fn lemma_values_by_key_here(value: JsonValue, key: Seq<char>, x: JsonValue)
    requires
        json_get(value, key) == Some(x),
    ensures
        values_by_key(value, key).contains(x),
{
    assert(values_by_key(value, key)[0] == x);
}

/// The search goes into every array or object value of an object's
/// entries: what it finds there, it finds in the object.
pub proof fn lemma_values_in_entries_contains(
    entries: Seq<(String, JsonValue)>,
    key: Seq<char>,
    i: int,
    x: JsonValue,
)
    requires
        0 <= i < entries.len(),
        is_container(entries[i].1),
        values_by_key(entries[i].1, key).contains(x),
    ensures
        values_in_entries(entries, key).contains(x),
    decreases entries.len(),
{
    let rest = entries.drop_last();
    let found = values_by_key(entries[i].1, key);
    let k = choose|k: int| 0 <= k < found.len() && found[k] == x;
    if i == entries.len() - 1 {
        let prefix = values_in_entries(rest, key);
        assert(values_in_entries(entries, key) == prefix + found);
        assert((prefix + found)[prefix.len() + k] == x);
    } else {
        assert(rest[i] == entries[i]);
        lemma_values_in_entries_contains(rest, key, i, x);
        let prefix = values_in_entries(rest, key);
        let k2 = choose|k2: int| 0 <= k2 < prefix.len() && prefix[k2] == x;
        let tail = if is_container(entries.last().1) {
            values_by_key(entries.last().1, key)
        } else {
            Seq::<JsonValue>::empty()
        };
        assert(values_in_entries(entries, key) == prefix + tail);
        assert((prefix + tail)[k2] == x);
    }
}

/// The search goes into every element of an array: what it finds in an
/// element, it finds in the array.
pub proof fn lemma_values_in_items_contains(items: Seq<JsonValue>, key: Seq<char>, i: int, x: JsonValue)
    requires
        0 <= i < items.len(),
        values_by_key(items[i], key).contains(x),
    ensures
        values_in_items(items, key).contains(x),
    decreases items.len(),
{
    let rest = items.drop_last();
    let found = values_by_key(items[i], key);
    let k = choose|k: int| 0 <= k < found.len() && found[k] == x;
    let prefix = values_in_items(rest, key);
    if i == items.len() - 1 {
        assert(values_in_items(items, key) == prefix + found);
        assert((prefix + found)[prefix.len() + k] == x);
    } else {
        assert(rest[i] == items[i]);
        lemma_values_in_items_contains(rest, key, i, x);
        let k2 = choose|k2: int| 0 <= k2 < prefix.len() && prefix[k2] == x;
        let tail = values_by_key(items.last(), key);
        assert(values_in_items(items, key) == prefix + tail);
        assert((prefix + tail)[k2] == x);
    }
}

/// The search finds what is stored under `key` in any element of an array.
pub proof fn lemma_values_by_key_in_array(value: JsonValue, key: Seq<char>, i: int, x: JsonValue)
    requires
        value matches JsonValue::Array(items) && 0 <= i < items@.len() && values_by_key(
            items@[i],
            key,
        ).contains(x),
    ensures
        values_by_key(value, key).contains(x),
{
    match value {
        JsonValue::Array(items) => {
            lemma_values_in_items_contains(items@, key, i, x);
            let inner = values_in_items(items@, key);
            let k = choose|k: int| 0 <= k < inner.len() && inner[k] == x;
            assert(json_get(value, key) is None);
            assert(values_by_key(value, key) == Seq::<JsonValue>::empty() + inner);
            assert((Seq::<JsonValue>::empty() + inner)[k] == x);
        },
        _ => {},
    }
}

/// The search finds what is stored under `key` in an array or object
/// value of an object's entries, at one level down.
pub proof fn lemma_values_by_key_nested(value: JsonValue, key: Seq<char>, i: int, x: JsonValue)
    requires
        value matches JsonValue::Object(entries) && 0 <= i < entries@.len() && is_container(
            entries@[i].1,
        ) && values_by_key(entries@[i].1, key).contains(x),
    ensures
        values_by_key(value, key).contains(x),
{
    match value {
        JsonValue::Object(entries) => {
            lemma_values_in_entries_contains(entries@, key, i, x);
            let here = match json_get(value, key) {
                Some(v) => seq![v],
                None => Seq::<JsonValue>::empty(),
            };
            let inner = values_in_entries(entries@, key);
            let k = choose|k: int| 0 <= k < inner.len() && inner[k] == x;
            assert(values_by_key(value, key) == here + inner);
            assert((here + inner)[here.len() + k] == x);
        },
        _ => {},
    }
}

/// The values behind a sequence of references.
pub open spec fn derefs<'a>(refs: Seq<&'a JsonValue>) -> Seq<JsonValue> {
    refs.map_values(|r: &'a JsonValue| *r)
}

impl JsonValue {
    /// The value stored under `key`, when `self` is an object that has one.
    pub fn get(&self, key: &str) -> (res: Option<&JsonValue>)
        ensures
            match res {
                Some(v) => json_get(*self, key@) == Some(*v),
                None => json_get(*self, key@) is None,
            },
    {
        match self {
            JsonValue::Object(entries) => {
                let k = String::from_str(key);
                let mut i: usize = 0;
                assert(entries@.skip(0) =~= entries@);
                while i < entries.len()
                    invariant
                        0 <= i <= entries@.len(),
                        k@ == key@,
                        *self == JsonValue::Object(*entries),
                        entries_lookup(entries@, key@) == entries_lookup(
                            entries@.skip(i as int),
                            key@,
                        ),
                    decreases entries.len() - i,
                {
                    assert(entries@.skip(i as int).drop_first() =~= entries@.skip(i + 1));
                    assert(entries@.skip(i as int)[0] == entries@[i as int]);
                    if entries[i].0.eq(&k) {
                        assert(entries_lookup(entries@.skip(i as int), key@) == Some(
                            entries@[i as int].1,
                        ));
                        return Some(&entries[i].1);
                    }
                    i = i + 1;
                }
                None
            },
            _ => None,
        }
    }

    /// The text of a string value.
    pub fn as_str(&self) -> (res: Option<&str>)
        ensures
            match res {
                Some(s) => json_str(*self) == Some(s@),
                None => json_str(*self) is None,
            },
    {
        match self {
            JsonValue::String(s) => Some(s.as_str()),
            _ => None,
        }
    }

    /// Whether this is a string value.
    pub fn is_string(&self) -> (res: bool)
        ensures
            res == (*self is String),
    {
        match self {
            JsonValue::String(_) => true,
            _ => false,
        }
    }
}

/// Pushes onto `values` every value stored under `key` in `obj` and below
/// it, in the order of `values_by_key`.
pub fn find_values_in_object_by_key<'a>(
    obj: &'a JsonValue,
    key: &str,
    values: &mut Vec<&'a JsonValue>,
)
    ensures
        derefs(final(values)@) == derefs(old(values)@) + values_by_key(*obj, key@),
    decreases obj,
{
    let ghost start = derefs(values@);
    if let Some(val) = obj.get(key) {
        values.push(val);
    }
    let ghost here = derefs(values@).skip(start.len() as int);
    assert(derefs(values@) =~= start + here);
    assert(here =~= match json_get(*obj, key@) {
        Some(v) => seq![v],
        None => Seq::<JsonValue>::empty(),
    });
    match obj {
        JsonValue::Array(arr) => {
            let mut i: usize = 0;
            while i < arr.len()
                invariant
                    0 <= i <= arr@.len(),
                    *obj == JsonValue::Array(*arr),
                    derefs(values@) == start + here + values_in_items(arr@.take(i as int), key@),
                decreases arr.len() - i,
            {
                proof {
                    let ghost o = *obj;
                    match o {
                        JsonValue::Array(a) => {
                            assert(decreases_to!(*obj => a));
                        },
                        _ => {},
                    }
                    assert(decreases_to!(*obj => arr[i as int]));
                }
                let ghost before = derefs(values@);
                find_values_in_object_by_key(&arr[i], key, values);
                assert(arr@.take(i + 1).drop_last() =~= arr@.take(i as int));
                assert(arr@.take(i + 1).last() == arr@[i as int]);
                assert(derefs(values@) =~= start + here + values_in_items(
                    arr@.take(i + 1),
                    key@,
                ));
                i = i + 1;
            }
            assert(arr@.take(arr@.len() as int) =~= arr@);
        },
        JsonValue::Object(kv) => {
            let mut i: usize = 0;
            while i < kv.len()
                invariant
                    0 <= i <= kv@.len(),
                    *obj == JsonValue::Object(*kv),
                    derefs(values@) == start + here + values_in_entries(kv@.take(i as int), key@),
                decreases kv.len() - i,
            {
                assert(kv@.take(i + 1).drop_last() =~= kv@.take(i as int));
                assert(kv@.take(i + 1).last() == kv@[i as int]);
                let val = &kv[i].1;
                match val {
                    JsonValue::Object(_) | JsonValue::Array(_) => {
                        proof {
                            let ghost o = *obj;
                            match o {
                                JsonValue::Object(entries) => {
                                    assert(decreases_to!(*obj => entries));
                                },
                                _ => {},
                            }
                            assert(decreases_to!(*obj => kv[i as int].1));
                        }
                        find_values_in_object_by_key(val, key, values);
                    },
                    _ => {},
                }
                assert(derefs(values@) =~= start + here + values_in_entries(
                    kv@.take(i + 1),
                    key@,
                ));
                i = i + 1;
            }
            assert(kv@.take(kv@.len() as int) =~= kv@);
        },
        _ => {},
    }
}

} // verus!
