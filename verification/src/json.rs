//! Documents of known shape, decoded from JSON text.
//!
//! The JSON text itself is parsed by an outside library; the parsed tree is
//! held as a `Json` value of plain data, and every rule about document shape
//! — required and defaulted fields, field-name aliases, closed tag sets,
//! numeric widths — is verified code over that tree. Documents whose numbers
//! are not unsigned integers are rejected: every numeric field of the typed
//! models is at most 16 bits wide.

use serde_json::Value as RawDocument;
use vstd::prelude::*;

verus! {

broadcast use vstd::std_specs::vec::group_vec_axioms, vstd::seq::group_seq_axioms;

/// Failure to decode a document: its JSON shape does not match the expected
/// typed record — it is not valid JSON, a required field is missing, a tag
/// string is outside its closed set, or a number overflows its field width.
#[derive(Clone, Copy, Debug, PartialEq, Eq, Structural)]
pub enum DecodeError {
    ShapeMismatch,
}

/// A decoded JSON document tree. Object fields are key-unique and ordered by
/// key, as the parser hands them over.
#[derive(Debug, PartialEq, Eq)]
pub enum Json {
    Null,
    Bool(bool),
    Num(u64),
    Text(String),
    Arr(Vec<Json>),
    Obj(Vec<(String, Json)>),
}

/// The mathematical value of a `Json` tree.
pub enum JsonV {
    Null,
    Bool(bool),
    Num(u64),
    Text(Seq<char>),
    Arr(Seq<JsonV>),
    Obj(Seq<(Seq<char>, JsonV)>),
}

impl View for Json {
    type V = JsonV;

    open spec fn view(&self) -> JsonV
        decreases self,
    {
        match self {
            Json::Null => JsonV::Null,
            Json::Bool(b) => JsonV::Bool(*b),
            Json::Num(n) => JsonV::Num(*n),
            Json::Text(s) => JsonV::Text(s@),
            Json::Arr(items) => JsonV::Arr(arr_view(items@)),
            Json::Obj(fields) => JsonV::Obj(fields_view(fields@)),
        }
    }
}

/// The views of an array's elements.
pub open spec fn arr_view(items: Seq<Json>) -> Seq<JsonV>
    decreases items,
{
    Seq::new(
        items.len(),
        |i: int|
            if 0 <= i < items.len() {
                items[i]@
            } else {
                JsonV::Null
            },
    )
}

/// The views of an object's fields.
pub open spec fn fields_view(fields: Seq<(String, Json)>) -> Seq<(Seq<char>, JsonV)>
    decreases fields,
{
    Seq::new(
        fields.len(),
        |i: int|
            if 0 <= i < fields.len() {
                (fields[i].0@, fields[i].1@)
            } else {
                (Seq::empty(), JsonV::Null)
            },
    )
}

/// What parsing a JSON document text yields: the tree for a well-formed
/// document whose numbers are unsigned integers, nothing otherwise. The
/// result depends on the text alone.
pub uninterp spec fn json_doc(text: Seq<char>) -> Option<JsonV>;

#[verifier::external_type_specification]
#[verifier::external_body]
pub struct ExRawDocument(RawDocument);

/// Relies on the variants of serde_json's parsed tree: moves that tree into
/// the library's own, one variant arm each. A number that is not an unsigned
/// integer has no place in any document field, so it yields nothing.
#[verifier::external_body]
fn value_tree(v: RawDocument) -> (r: Option<Json>) {
    match v {
        RawDocument::Null => Some(Json::Null),
        RawDocument::Bool(b) => Some(Json::Bool(b)),
        RawDocument::Number(n) => Some(Json::Num(n.as_u64()?)),
        RawDocument::String(s) => Some(Json::Text(s)),
        RawDocument::Array(a) => Some(Json::Arr(
            a.into_iter().map(value_tree).collect::<Option<Vec<Json>>>()?,
        )),
        RawDocument::Object(m) => Some(Json::Obj(
            m.into_iter().map(|p| Some((p.0, value_tree(p.1)?))).collect::<Option<Vec<_>>>()?,
        )),
    }
}

/// Relies on serde_json::from_str: parsing is a function of the text alone,
/// and the field order of a parsed object is the parser's key order.
#[verifier::external_body]
pub fn parse_json(text: &str) -> (r: Option<Json>)
    ensures
        (match r {
            Some(j) => json_doc(text@) == Some(j@),
            None => json_doc(text@) is None,
        }),
{
    let v: RawDocument = serde_json::from_str(text).ok()?;
    value_tree(v)
}

/// The value under `key` among an object's fields: the first field whose key
/// matches, nothing when none does.
pub open spec fn obj_get(fields: Seq<(Seq<char>, JsonV)>, key: Seq<char>) -> Option<JsonV>
    decreases fields.len(),
{
    if fields.len() == 0 {
        Option::None
    } else if fields[0].0 == key {
        Option::Some(fields[0].1)
    } else {
        obj_get(fields.drop_first(), key)
    }
}

proof fn lemma_obj_get_skip(fields: Seq<(Seq<char>, JsonV)>, key: Seq<char>, i: int)
    requires
        0 <= i <= fields.len(),
        forall|m: int| 0 <= m < i ==> fields[m].0 != key,
    ensures
        obj_get(fields, key) == obj_get(fields.skip(i), key),
    decreases i,
{
    if i > 0 {
        lemma_obj_get_skip(fields, key, i - 1);
        assert(fields.skip(i - 1).len() > 0);
        assert(fields.skip(i - 1)[0] == fields[i - 1]);
        assert(fields.skip(i - 1).drop_first() =~= fields.skip(i));
    } else {
        assert(fields.skip(0) =~= fields);
    }
}

/// Find a field by key.
pub fn get_field<'a>(fields: &'a Vec<(String, Json)>, key: &str) -> (r: Option<&'a Json>)
    ensures
        (match r {
            Some(j) => obj_get(fields_view(fields@), key@) == Some(j@),
            None => obj_get(fields_view(fields@), key@) is None,
        }),
{
    let k: String = key.to_owned();
    let ghost fv = fields_view(fields@);
    let mut i: usize = 0;
    while i < fields.len()
        invariant
            0 <= i <= fields.len(),
            k@ == key@,
            fv == fields_view(fields@),
            forall|m: int| 0 <= m < i ==> fv[m].0 != key@,
        decreases fields.len() - i,
    {
        let pair = &fields[i];
        if pair.0 == k {
            proof {
                lemma_obj_get_skip(fv, key@, i as int);
                assert(fv.skip(i as int)[0] == fv[i as int]);
            }
            return Some(&pair.1);
        }
        i = i + 1;
    }
    proof {
        lemma_obj_get_skip(fv, key@, fields@.len() as int);
        assert(fv.skip(fields@.len() as int).len() == 0);
    }
    None
}

/// A 16-bit number field value.
pub open spec fn dec_u16(j: JsonV) -> Option<u16> {
    match j {
        JsonV::Num(n) => if n <= 0xffff {
            Option::Some(n as u16)
        } else {
            Option::None
        },
        _ => Option::None,
    }
}

/// An 8-bit number field value.
pub open spec fn dec_u8(j: JsonV) -> Option<u8> {
    match j {
        JsonV::Num(n) => if n <= 0xff {
            Option::Some(n as u8)
        } else {
            Option::None
        },
        _ => Option::None,
    }
}

/// A boolean field value.
pub open spec fn dec_bool(j: JsonV) -> Option<bool> {
    match j {
        JsonV::Bool(b) => Option::Some(b),
        _ => Option::None,
    }
}

/// A sequence of 16-bit numbers.
pub open spec fn dec_u16_seq(items: Seq<JsonV>) -> Option<Seq<u16>>
    decreases items.len(),
{
    if items.len() == 0 {
        Option::Some(Seq::empty())
    } else {
        match (dec_u16_seq(items.drop_last()), dec_u16(items.last())) {
            (Option::Some(front), Option::Some(v)) => Option::Some(front.push(v)),
            _ => Option::None,
        }
    }
}

proof fn lemma_dec_u16_seq_none(items: Seq<JsonV>, i: int)
    requires
        0 <= i < items.len(),
        dec_u16(items[i]) is None,
    ensures
        dec_u16_seq(items) is None,
    decreases items.len(),
{
    if i < items.len() - 1 {
        assert(items.drop_last()[i] == items[i]);
        lemma_dec_u16_seq_none(items.drop_last(), i);
    }
}

/// A required 16-bit number field.
pub open spec fn field_u16(fields: Seq<(Seq<char>, JsonV)>, key: Seq<char>) -> Option<u16> {
    match obj_get(fields, key) {
        Option::Some(j) => dec_u16(j),
        Option::None => Option::None,
    }
}

/// A required 8-bit number field.
pub open spec fn field_u8(fields: Seq<(Seq<char>, JsonV)>, key: Seq<char>) -> Option<u8> {
    match obj_get(fields, key) {
        Option::Some(j) => dec_u8(j),
        Option::None => Option::None,
    }
}

/// An 8-bit number field that defaults to zero when absent.
pub open spec fn field_u8_or_zero(fields: Seq<(Seq<char>, JsonV)>, key: Seq<char>) -> Option<
    u8,
> {
    match obj_get(fields, key) {
        Option::Some(j) => dec_u8(j),
        Option::None => Option::Some(0u8),
    }
}

/// A required boolean field.
pub open spec fn field_bool(fields: Seq<(Seq<char>, JsonV)>, key: Seq<char>) -> Option<bool> {
    match obj_get(fields, key) {
        Option::Some(j) => dec_bool(j),
        Option::None => Option::None,
    }
}

/// A required field holding an array of 16-bit numbers.
pub open spec fn field_u16_vec(fields: Seq<(Seq<char>, JsonV)>, key: Seq<char>) -> Option<
    Seq<u16>,
> {
    match obj_get(fields, key) {
        Option::Some(JsonV::Arr(items)) => dec_u16_seq(items),
        _ => Option::None,
    }
}

/// Read a required 16-bit number field.
pub fn get_u16(fields: &Vec<(String, Json)>, key: &str) -> (r: Result<u16, DecodeError>)
    ensures
        (match r {
            Ok(v) => field_u16(fields_view(fields@), key@) == Some(v),
            Err(_) => field_u16(fields_view(fields@), key@) is None,
        }),
{
    match get_field(fields, key) {
        Some(j) => match j {
            Json::Num(n) => {
                if *n <= 0xffff {
                    Ok(*n as u16)
                } else {
                    Err(DecodeError::ShapeMismatch)
                }
            },
            _ => Err(DecodeError::ShapeMismatch),
        },
        None => Err(DecodeError::ShapeMismatch),
    }
}

/// Read a required 8-bit number field.
pub fn get_u8(fields: &Vec<(String, Json)>, key: &str) -> (r: Result<u8, DecodeError>)
    ensures
        (match r {
            Ok(v) => field_u8(fields_view(fields@), key@) == Some(v),
            Err(_) => field_u8(fields_view(fields@), key@) is None,
        }),
{
    match get_field(fields, key) {
        Some(j) => match j {
            Json::Num(n) => {
                if *n <= 0xff {
                    Ok(*n as u8)
                } else {
                    Err(DecodeError::ShapeMismatch)
                }
            },
            _ => Err(DecodeError::ShapeMismatch),
        },
        None => Err(DecodeError::ShapeMismatch),
    }
}

/// Read an 8-bit number field, defaulting to zero when the document omits
/// it.
pub fn get_u8_or_zero(fields: &Vec<(String, Json)>, key: &str) -> (r: Result<u8, DecodeError>)
    ensures
        (match r {
            Ok(v) => field_u8_or_zero(fields_view(fields@), key@) == Some(v),
            Err(_) => field_u8_or_zero(fields_view(fields@), key@) is None,
        }),
{
    match get_field(fields, key) {
        Some(j) => match j {
            Json::Num(n) => {
                if *n <= 0xff {
                    Ok(*n as u8)
                } else {
                    Err(DecodeError::ShapeMismatch)
                }
            },
            _ => Err(DecodeError::ShapeMismatch),
        },
        None => Ok(0),
    }
}

/// Read a required boolean field.
pub fn get_bool(fields: &Vec<(String, Json)>, key: &str) -> (r: Result<bool, DecodeError>)
    ensures
        (match r {
            Ok(v) => field_bool(fields_view(fields@), key@) == Some(v),
            Err(_) => field_bool(fields_view(fields@), key@) is None,
        }),
{
    match get_field(fields, key) {
        Some(j) => match j {
            Json::Bool(b) => Ok(*b),
            _ => Err(DecodeError::ShapeMismatch),
        },
        None => Err(DecodeError::ShapeMismatch),
    }
}

/// Decode an array of 16-bit numbers, preserving order.
pub fn decode_u16_vec(items: &Vec<Json>) -> (r: Result<Vec<u16>, DecodeError>)
    ensures
        (match r {
            Ok(v) => dec_u16_seq(arr_view(items@)) == Some(v@),
            Err(_) => dec_u16_seq(arr_view(items@)) is None,
        }),
{
    let ghost av = arr_view(items@);
    let mut out: Vec<u16> = Vec::new();
    let mut i: usize = 0;
    while i < items.len()
        invariant
            0 <= i <= items.len(),
            av == arr_view(items@),
            dec_u16_seq(av.take(i as int)) == Some(out@),
        decreases items.len() - i,
    {
        let item = &items[i];
        proof {
            assert(av[i as int] == items@[i as int]@);
            assert(av.take(i + 1).drop_last() =~= av.take(i as int));
            assert(av.take(i + 1).last() == av[i as int]);
        }
        match item {
            Json::Num(n) => {
                if *n <= 0xffff {
                    out.push(*n as u16);
                } else {
                    proof {
                        lemma_dec_u16_seq_none(av, i as int);
                    }
                    return Err(DecodeError::ShapeMismatch);
                }
            },
            _ => {
                proof {
                    lemma_dec_u16_seq_none(av, i as int);
                }
                return Err(DecodeError::ShapeMismatch);
            },
        }
        i = i + 1;
    }
    proof {
        assert(av.take(items@.len() as int) =~= av);
    }
    Ok(out)
}

/// Read a required field holding an array of 16-bit numbers.
pub fn get_u16_vec(fields: &Vec<(String, Json)>, key: &str) -> (r: Result<
    Vec<u16>,
    DecodeError,
>)
    ensures
        (match r {
            Ok(v) => field_u16_vec(fields_view(fields@), key@) == Some(v@),
            Err(_) => field_u16_vec(fields_view(fields@), key@) is None,
        }),
{
    match get_field(fields, key) {
        Some(j) => match j {
            Json::Arr(items) => decode_u16_vec(items),
            _ => Err(DecodeError::ShapeMismatch),
        },
        None => Err(DecodeError::ShapeMismatch),
    }
}

/// A record decodable from one JSON value. Implementations prove that
/// `from_json` yields exactly the record `dec` describes, and fails exactly
/// when the shape does not match.
pub trait Decode: View + Sized {
    /// What the record's document shape decodes to.
    spec fn dec(j: JsonV) -> Option<Self::V>;

    /// Decode one record from a JSON value.
    fn from_json(j: &Json) -> (r: Result<Self, DecodeError>)
        ensures
            (match r {
                Ok(v) => Self::dec(j@) == Some(v@),
                Err(_) => Self::dec(j@) is None,
            }),
    ;
}

/// A sequence of records, each decoded by `T`, in document order.
pub open spec fn dec_seq<T: Decode>(items: Seq<JsonV>) -> Option<Seq<T::V>>
    decreases items.len(),
{
    if items.len() == 0 {
        Option::Some(Seq::empty())
    } else {
        match (dec_seq::<T>(items.drop_last()), T::dec(items.last())) {
            (Option::Some(front), Option::Some(v)) => Option::Some(front.push(v)),
            _ => Option::None,
        }
    }
}

proof fn lemma_dec_seq_none<T: Decode>(items: Seq<JsonV>, i: int)
    requires
        0 <= i < items.len(),
        T::dec(items[i]) is None,
    ensures
        dec_seq::<T>(items) is None,
    decreases items.len(),
{
    if i < items.len() - 1 {
        assert(items.drop_last()[i] == items[i]);
        lemma_dec_seq_none::<T>(items.drop_last(), i);
    }
}

/// Decode every element of an array, preserving document order; the first
/// mismatch fails the whole array.
pub fn decode_seq<T: Decode>(items: &Vec<Json>) -> (r: Result<Vec<T>, DecodeError>)
    ensures
        (match r {
            Ok(v) => dec_seq::<T>(arr_view(items@)) == Some(crate::codec::views(v@)),
            Err(_) => dec_seq::<T>(arr_view(items@)) is None,
        }),
{
    let ghost av = arr_view(items@);
    let mut out: Vec<T> = Vec::new();
    let mut i: usize = 0;
    while i < items.len()
        invariant
            0 <= i <= items.len(),
            av == arr_view(items@),
            dec_seq::<T>(av.take(i as int)) == Some(crate::codec::views(out@)),
        decreases items.len() - i,
    {
        let item = &items[i];
        proof {
            assert(av[i as int] == items@[i as int]@);
            assert(av.take(i + 1).drop_last() =~= av.take(i as int));
            assert(av.take(i + 1).last() == av[i as int]);
        }
        match T::from_json(item) {
            Ok(v) => {
                out.push(v);
                proof {
                    assert(crate::codec::views(out@) =~= dec_seq::<T>(
                        av.take(i + 1),
                    ).unwrap());
                }
            },
            Err(e) => {
                proof {
                    lemma_dec_seq_none::<T>(av, i as int);
                }
                return Err(e);
            },
        }
        i = i + 1;
    }
    proof {
        assert(av.take(items@.len() as int) =~= av);
    }
    Ok(out)
}

/// The mathematical value of an optional record.
pub open spec fn opt_view<T: View>(o: Option<T>) -> Option<T::V> {
    match o {
        Option::None => Option::None,
        Option::Some(v) => Option::Some(v@),
    }
}

/// A required field holding one record of `T`'s shape.
pub open spec fn field_rec<T: Decode>(
    fields: Seq<(Seq<char>, JsonV)>,
    key: Seq<char>,
) -> Option<T::V> {
    match obj_get(fields, key) {
        Option::Some(j) => T::dec(j),
        Option::None => Option::None,
    }
}

/// An optional field holding one record of `T`'s shape: an absent field and
/// an explicit `null` both mean the empty optional.
pub open spec fn field_opt_rec<T: Decode>(
    fields: Seq<(Seq<char>, JsonV)>,
    key: Seq<char>,
) -> Option<Option<T::V>> {
    match obj_get(fields, key) {
        Option::None => Option::Some(Option::None),
        Option::Some(JsonV::Null) => Option::Some(Option::None),
        Option::Some(j) => match T::dec(j) {
            Option::Some(v) => Option::Some(Option::Some(v)),
            Option::None => Option::None,
        },
    }
}

/// A required field holding an array of records of `T`'s shape.
pub open spec fn field_seq<T: Decode>(
    fields: Seq<(Seq<char>, JsonV)>,
    key: Seq<char>,
) -> Option<Seq<T::V>> {
    match obj_get(fields, key) {
        Option::Some(JsonV::Arr(items)) => dec_seq::<T>(items),
        _ => Option::None,
    }
}

/// Read a required record field.
pub fn get_rec<T: Decode>(fields: &Vec<(String, Json)>, key: &str) -> (r: Result<
    T,
    DecodeError,
>)
    ensures
        (match r {
            Ok(v) => field_rec::<T>(fields_view(fields@), key@) == Some(v@),
            Err(_) => field_rec::<T>(fields_view(fields@), key@) is None,
        }),
{
    match get_field(fields, key) {
        Some(j) => T::from_json(j),
        None => Err(DecodeError::ShapeMismatch),
    }
}

/// Read an optional record field; absent and `null` both yield the empty
/// optional.
pub fn get_opt_rec<T: Decode>(fields: &Vec<(String, Json)>, key: &str) -> (r: Result<
    Option<T>,
    DecodeError,
>)
    ensures
        (match r {
            Ok(v) => field_opt_rec::<T>(fields_view(fields@), key@) == Some(opt_view(v)),
            Err(_) => field_opt_rec::<T>(fields_view(fields@), key@) is None,
        }),
{
    match get_field(fields, key) {
        None => Ok(None),
        Some(j) => match j {
            Json::Null => Ok(None),
            _ => match T::from_json(j) {
                Ok(v) => Ok(Some(v)),
                Err(e) => Err(e),
            },
        },
    }
}

/// Read a required field holding an array of records, preserving order.
pub fn get_seq<T: Decode>(fields: &Vec<(String, Json)>, key: &str) -> (r: Result<
    Vec<T>,
    DecodeError,
>)
    ensures
        (match r {
            Ok(v) => field_seq::<T>(fields_view(fields@), key@) == Some(crate::codec::views(v@)),
            Err(_) => field_seq::<T>(fields_view(fields@), key@) is None,
        }),
{
    match get_field(fields, key) {
        Some(j) => match j {
            Json::Arr(items) => decode_seq::<T>(items),
            _ => Err(DecodeError::ShapeMismatch),
        },
        None => Err(DecodeError::ShapeMismatch),
    }
}

/// A pool document: either a bare array of records, or one object holding
/// the record array under the pool's internal field name or its
/// type-specific alias. In the object form exactly one of the two keys must
/// be present; with both present the document is ambiguous and is rejected.
pub open spec fn dec_pool_doc<T: Decode>(
    doc: JsonV,
    name: Seq<char>,
    alias: Seq<char>,
) -> Option<Seq<T::V>> {
    match doc {
        JsonV::Arr(items) => dec_seq::<T>(items),
        JsonV::Obj(fields) => match (obj_get(fields, name), obj_get(fields, alias)) {
            (Option::Some(j), Option::None) => match j {
                JsonV::Arr(items) => dec_seq::<T>(items),
                _ => Option::None,
            },
            (Option::None, Option::Some(j)) => match j {
                JsonV::Arr(items) => dec_seq::<T>(items),
                _ => Option::None,
            },
            _ => Option::None,
        },
        _ => Option::None,
    }
}

/// Decode a whole pool document: a bare record array, or an object keyed by
/// the internal field name or its alias.
pub fn decode_pool_doc<T: Decode>(doc: &Json, name: &str, alias: &str) -> (r: Result<
    Vec<T>,
    DecodeError,
>)
    ensures
        (match r {
            Ok(v) => dec_pool_doc::<T>(doc@, name@, alias@) == Some(crate::codec::views(v@)),
            Err(_) => dec_pool_doc::<T>(doc@, name@, alias@) is None,
        }),
{
    match doc {
        Json::Arr(items) => decode_seq::<T>(items),
        Json::Obj(fields) => {
            let named = get_field(fields, name);
            let aliased = get_field(fields, alias);
            match (named, aliased) {
                (Some(j), None) => match j {
                    Json::Arr(items) => decode_seq::<T>(items),
                    _ => Err(DecodeError::ShapeMismatch),
                },
                (None, Some(j)) => match j {
                    Json::Arr(items) => decode_seq::<T>(items),
                    _ => Err(DecodeError::ShapeMismatch),
                },
                _ => Err(DecodeError::ShapeMismatch),
            }
        },
        _ => Err(DecodeError::ShapeMismatch),
    }
}

} // verus!
