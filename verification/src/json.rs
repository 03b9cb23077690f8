//! A tree model of JSON values.
//!
//! `Json` is the executable tree; `JsonVal` is its mathematical shadow, used
//! by every contract that speaks about serialized documents or model replies.
//! Numbers that are not unsigned integers are carried as their literal text:
//! the note schema and the action wire format only ever use unsigned integers.

use vstd::prelude::*;

verus! {

/// The mathematical model of a JSON value.
#[verifier::ext_equal]
pub enum JsonVal {
    Null,
    Bool(bool),
    UInt(u64),
    /// A number literal outside `0..=u64::MAX`, kept as its decimal text.
    NumOther(Seq<char>),
    Text(Seq<char>),
    Arr(Seq<JsonVal>),
    Obj(Seq<(Seq<char>, JsonVal)>),
}

/// An executable JSON value.
pub enum Json {
    Null,
    Bool(bool),
    UInt(u64),
    /// A number literal outside `0..=u64::MAX`, kept as its decimal text.
    NumOther(String),
    Text(String),
    Arr(Vec<Json>),
    Obj(Vec<(String, Json)>),
}

pub open spec fn json_view(j: Json) -> JsonVal
    decreases j, 1int,
{
    match j {
        Json::Null => JsonVal::Null,
        Json::Bool(b) => JsonVal::Bool(b),
        Json::UInt(n) => JsonVal::UInt(n),
        Json::NumOther(s) => JsonVal::NumOther(s@),
        Json::Text(s) => JsonVal::Text(s@),
        Json::Arr(items) => JsonVal::Arr(arr_view(items@)),
        Json::Obj(fields) => JsonVal::Obj(fields_view(fields@)),
    }
}

pub open spec fn arr_view(items: Seq<Json>) -> Seq<JsonVal>
    decreases items, 0int,
{
    Seq::new(
        items.len(),
        |i: int|
            if 0 <= i < items.len() {
                json_view(items[i])
            } else {
                JsonVal::Null
            },
    )
}

pub open spec fn fields_view(fields: Seq<(String, Json)>) -> Seq<(Seq<char>, JsonVal)>
    decreases fields, 0int,
{
    Seq::new(
        fields.len(),
        |i: int|
            if 0 <= i < fields.len() {
                (fields[i].0@, json_view(fields[i].1))
            } else {
                (Seq::empty(), JsonVal::Null)
            },
    )
}

impl View for Json {
    type V = JsonVal;

    open spec fn view(&self) -> JsonVal {
        json_view(*self)
    }
}

/// First binding of key `key` in `fields`, scanning from index `i`.
pub open spec fn field_lookup_from(
    fields: Seq<(Seq<char>, JsonVal)>,
    key: Seq<char>,
    i: int,
) -> Option<JsonVal>
    decreases fields.len() - i,
{
    if i < 0 || i >= fields.len() {
        None
    } else if fields[i].0 == key {
        Some(fields[i].1)
    } else {
        field_lookup_from(fields, key, i + 1)
    }
}

/// First binding of key `key` in `fields`, if any.
pub open spec fn field_lookup(fields: Seq<(Seq<char>, JsonVal)>, key: Seq<char>) -> Option<
    JsonVal,
> {
    field_lookup_from(fields, key, 0)
}

/// Looks a key up in an object's field list, first match wins.
pub fn obj_get<'a>(fields: &'a Vec<(String, Json)>, key: &String) -> (r: Option<&'a Json>)
    ensures
        match r {
            Some(v) => field_lookup(fields_view(fields@), key@) == Some(v@),
            None => field_lookup(fields_view(fields@), key@) is None,
        },
        r matches Some(v) ==> (exists|k: int|
            0 <= k < fields@.len() && #[trigger] fields@[k].1 == *v),
{
    let n = fields.len();
    let mut i: usize = 0;
    while i < n
        invariant
            n == fields@.len(),
            0 <= i <= n,
            field_lookup(fields_view(fields@), key@) == field_lookup_from(
                fields_view(fields@),
                key@,
                i as int,
            ),
        decreases n - i,
    {
        proof {
            assert(fields_view(fields@)[i as int] == (
                fields@[i as int].0@,
                json_view(fields@[i as int].1),
            ));
        }
        if fields[i].0 == *key {
            proof {
                assert(exists|k: int|
                    0 <= k < fields@.len() && #[trigger] fields@[k].1 == fields@[i as int].1);
            }
            return Some(&fields[i].1);
        }
        i = i + 1;
    }
    None
}

} // verus!
