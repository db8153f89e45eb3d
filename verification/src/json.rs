//! A minimal JSON value model.
//!
//! The wire protocol exchanges JSON documents. Parsing and serialising the
//! concrete bytes is the transport's business; this module models the parsed
//! values themselves, as plain data that contracts can speak about.

use vstd::prelude::*;

verus! {

/// A parsed JSON value.
///
/// Numbers are modelled as unsigned integers: every number this protocol
/// reads or writes (timeout durations, cookie expiry, element geometry) is a
/// non-negative integer. A response number of any other shape is handed in
/// by the transport as `Null`, which the readers below then reject.
#[derive(Debug, PartialEq)]
pub enum JsonValue {
    Null,
    Bool(bool),
    UInt(u64),
    Str(String),
    Arr(Vec<JsonValue>),
    Obj(Vec<(String, JsonValue)>),
}

/// The mathematical form of a JSON value: strings as character sequences.
#[verifier::ext_equal]
pub enum JsonV {
    Null,
    Bool(bool),
    UInt(u64),
    Str(Seq<char>),
    Arr(Seq<JsonV>),
    Obj(Seq<(Seq<char>, JsonV)>),
}

/// First value bound to `key` among `fields`, or `None` when absent.
pub open spec fn spec_obj_get(fields: Seq<(Seq<char>, JsonV)>, key: Seq<char>) -> Option<JsonV>
    decreases fields.len(),
{
    if fields.len() == 0 {
        None
    } else if fields[0].0 == key {
        Some(fields[0].1)
    } else {
        spec_obj_get(fields.drop_first(), key)
    }
}

/// Looks a key up in a JSON object; `None` when `v` is not an object or the
/// key is absent.
pub fn obj_get<'a>(v: &'a JsonValue, key: &str) -> (r: Option<&'a JsonValue>)
    ensures
        match v@ {
            JsonV::Obj(fs) => match r {
                Some(x) => spec_obj_get(fs, key@) == Some(x@),
                None => spec_obj_get(fs, key@) is None,
            },
            _ => r is None,
        },
{
    match v {
        JsonValue::Obj(fields) => {
            proof {
                lemma_obj_view(*fields);
            }
            let ghost fs = (match v@ {
                JsonV::Obj(fs) => fs,
                _ => Seq::empty(),
            });
            let key_s: String = key.to_owned();
            let n = fields.len();
            let mut i: usize = 0;
            proof {
                assert(fs.skip(0) =~= fs);
            }
            while i < n
                invariant
                    n == fields.len(),
                    i <= n,
                    v@ == JsonV::Obj(fs),
                    fs.len() == fields@.len(),
                    forall|j: int| 0 <= j < fs.len() ==> fs[j] == (fields@[j].0@, fields@[j].1@),
                    key_s@ == key@,
                    spec_obj_get(fs, key@) == spec_obj_get(fs.skip(i as int), key@),
                decreases n - i,
            {
                if fields[i].0 == key_s {
                    proof {
                        assert(fs.skip(i as int)[0] == fs[i as int]);
                    }
                    return Some(&fields[i].1);
                }
                proof {
                    assert(fs.skip(i as int)[0] == fs[i as int]);
                    assert(fs.skip(i as int)[0].0 != key@);
                    assert(spec_obj_get(fs.skip(i as int), key@) == spec_obj_get(
                        fs.skip(i as int).drop_first(),
                        key@,
                    ));
                    assert(fs.skip(i as int).drop_first() =~= fs.skip(i + 1));
                }
                i = i + 1;
            }
            proof {
                assert(fs.skip(n as int).len() == 0);
            }
            None
        },
        _ => None,
    }
}

/// The view of a JSON value, defined structurally.
pub open spec fn view_of(v: JsonValue) -> JsonV
    decreases v,
{
    match v {
        JsonValue::Null => JsonV::Null,
        JsonValue::Bool(b) => JsonV::Bool(b),
        JsonValue::UInt(n) => JsonV::UInt(n),
        JsonValue::Str(s) => JsonV::Str(s@),
        JsonValue::Arr(items) => JsonV::Arr(spec_items_view(items@)),
        JsonValue::Obj(fields) => JsonV::Obj(spec_fields_view(fields@)),
    }
}

/// The views of the elements of a JSON array, in order.
pub open spec fn spec_items_view(items: Seq<JsonValue>) -> Seq<JsonV>
    decreases items,
{
    Seq::new(
        items.len(),
        |i: int|
            if 0 <= i < items.len() {
                view_of(items[i])
            } else {
                JsonV::Null
            },
    )
}

/// The views of the fields of a JSON object, in order.
pub open spec fn spec_fields_view(fields: Seq<(String, JsonValue)>) -> Seq<(Seq<char>, JsonV)>
    decreases fields,
{
    Seq::new(
        fields.len(),
        |i: int|
            if 0 <= i < fields.len() {
                (fields[i].0@, view_of(fields[i].1))
            } else {
                (Seq::empty(), JsonV::Null)
            },
    )
}

/// Removes the first field bound to `key` and hands its value out, owned.
/// `None` when the key is absent.
pub fn take_field(fields: &mut Vec<(String, JsonValue)>, key: &str) -> (r: Option<JsonValue>)
    ensures
        match r {
            Some(x) => spec_obj_get(spec_fields_view(old(fields)@), key@) == Some(x@),
            None => spec_obj_get(spec_fields_view(old(fields)@), key@) is None,
        },
{
    let ghost fs = spec_fields_view(fields@);
    proof {
        assert(fs.skip(0) =~= fs);
    }
    let key_s: String = key.to_owned();
    let n = fields.len();
    let mut i: usize = 0;
    while i < n
        invariant
            n == fields.len(),
            i <= n,
            fields@ == old(fields)@,
            fs == spec_fields_view(fields@),
            fs.len() == fields@.len(),
            forall|j: int|
                0 <= j < fs.len() ==> fs[j] == (#[trigger] fields@[j].0@, view_of(fields@[j].1)),
            key_s@ == key@,
            spec_obj_get(fs, key@) == spec_obj_get(fs.skip(i as int), key@),
        decreases n - i,
    {
        if fields[i].0 == key_s {
            proof {
                assert(fs.skip(i as int)[0] == fs[i as int]);
                assert(fs[i as int].0 == key@);
                assert(spec_obj_get(fs.skip(i as int), key@) == Some(fs.skip(i as int)[0].1));
            }
            let pair = fields.remove(i);
            return Some(pair.1);
        }
        proof {
            assert(fs.skip(i as int)[0] == fs[i as int]);
            assert(fs.skip(i as int)[0].0 != key@);
            assert(spec_obj_get(fs.skip(i as int), key@) == spec_obj_get(
                fs.skip(i as int).drop_first(),
                key@,
            ));
            assert(fs.skip(i as int).drop_first() =~= fs.skip(i + 1));
        }
        i = i + 1;
    }
    proof {
        assert(fs.skip(n as int).len() == 0);
    }
    None
}

impl View for JsonValue {
    type V = JsonV;

    open spec fn view(&self) -> JsonV {
        view_of(*self)
    }
}

/// What the view of an array value holds, element by element.
pub broadcast proof fn lemma_arr_view(items: Vec<JsonValue>)
    ensures
        #![trigger JsonValue::Arr(items)@]
        JsonValue::Arr(items)@ matches JsonV::Arr(elems) && elems.len() == items@.len()
            && forall|i: int| 0 <= i < items@.len() ==> elems[i] == #[trigger] items@[i]@,
{
    let v = JsonValue::Arr(items);
    let elems = (match v@ {
        JsonV::Arr(e) => e,
        _ => Seq::empty(),
    });
    assert(elems.len() == items@.len());
    assert(forall|i: int| 0 <= i < items@.len() ==> elems[i] == #[trigger] items@[i]@);
}

/// What the view of an object value holds, field by field.
pub broadcast proof fn lemma_obj_view(fields: Vec<(String, JsonValue)>)
    ensures
        #![trigger JsonValue::Obj(fields)@]
        JsonValue::Obj(fields)@ matches JsonV::Obj(fs) && fs.len() == fields@.len()
            && forall|i: int|
            0 <= i < fields@.len() ==> fs[i] == (#[trigger] fields@[i].0@, fields@[i].1@),
{
    let v = JsonValue::Obj(fields);
    let fs = (match v@ {
        JsonV::Obj(e) => e,
        _ => Seq::empty(),
    });
    assert(fs.len() == fields@.len());
    assert(forall|i: int|
        0 <= i < fields@.len() ==> fs[i] == (#[trigger] fields@[i].0@, fields@[i].1@));
}

} // verus!
