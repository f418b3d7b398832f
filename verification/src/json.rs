//! The JSON tree that every decoder of this crate walks, the field lookup
//! helpers shared by the domain and envelope decoders, and the defensive
//! wrapped-collection decoder.

use vstd::prelude::*;

verus! {

broadcast use vstd::std_specs::vec::axiom_vec_index_decreases;

/// A JSON document, already split from its transport text.
///
/// Numbers are restricted to signed 64-bit integers: every numeric field of
/// the wire format (epoch seconds, counts, durations, sizes) is an integer,
/// and a document holding a fractional or out-of-range number is outside the
/// wire contract (its parse fails; see `parse_text`).
#[derive(Debug, PartialEq, Eq)]
pub enum Json {
    Null,
    Bool(bool),
    Int(i64),
    Str(String),
    Arr(Vec<Json>),
    Obj(Vec<(String, Json)>),
}

/// The mathematical shape of a JSON document: the form that contracts and
/// the spec-level decoders speak of.
#[verifier::ext_equal]
pub ghost enum JsonV {
    Null,
    Bool(bool),
    Int(int),
    Str(Seq<char>),
    Arr(Seq<JsonV>),
    Obj(Seq<(Seq<char>, JsonV)>),
}

/// The view of an object's field list: each key with the view of its value,
/// in input order (duplicates kept).
pub open spec fn fields_view(fs: Vec<(String, Json)>) -> Seq<(Seq<char>, JsonV)>
    decreases fs,
{
    Seq::new(
        fs.len() as nat,
        |i: int|
            (
                fs[i].0@,
                if 0 <= i < fs.len() {
                    fs[i].1.deep_view()
                } else {
                    JsonV::Null
                },
            ),
    )
}

/// The view of an array's element list, in order.
pub open spec fn elems_view(xs: Vec<Json>) -> Seq<JsonV>
    decreases xs,
{
    Seq::new(
        xs.len() as nat,
        |i: int|
            if 0 <= i < xs.len() {
                xs[i].deep_view()
            } else {
                JsonV::Null
            },
    )
}

impl DeepView for Json {
    type V = JsonV;

    open spec fn deep_view(&self) -> JsonV
        decreases self,
    {
        match self {
            Json::Null => JsonV::Null,
            Json::Bool(b) => JsonV::Bool(*b),
            Json::Int(n) => JsonV::Int(*n as int),
            Json::Str(s) => JsonV::Str(s@),
            Json::Arr(xs) => JsonV::Arr(elems_view(*xs)),
            Json::Obj(fs) => JsonV::Obj(fields_view(*fs)),
        }
    }
}

/// Looks a key up in an object's field list.  When the same key occurs more
/// than once the last occurrence wins, matching how the upstream transport
/// collapses duplicate keys.
pub open spec fn obj_get(fs: Seq<(Seq<char>, JsonV)>, name: Seq<char>) -> Option<JsonV>
    decreases fs.len(),
{
    if fs.len() == 0 {
        None
    } else if fs.last().0 == name {
        Some(fs.last().1)
    } else {
        obj_get(fs.drop_last(), name)
    }
}

/// A required string field: present and a string, else the decode fails.
pub open spec fn req_str(fs: Seq<(Seq<char>, JsonV)>, name: Seq<char>) -> Option<Seq<char>> {
    match obj_get(fs, name) {
        Some(JsonV::Str(s)) => Some(s),
        _ => None,
    }
}

/// An optional string field: absent or null is "no value"; present but not a
/// string fails the decode (the outer `None`).
pub open spec fn opt_str(fs: Seq<(Seq<char>, JsonV)>, name: Seq<char>) -> Option<
    Option<Seq<char>>,
> {
    match obj_get(fs, name) {
        None => Some(None),
        Some(JsonV::Null) => Some(None),
        Some(JsonV::Str(s)) => Some(Some(s)),
        Some(_) => None,
    }
}

/// A required boolean field.
pub open spec fn req_bool(fs: Seq<(Seq<char>, JsonV)>, name: Seq<char>) -> Option<bool> {
    match obj_get(fs, name) {
        Some(JsonV::Bool(b)) => Some(b),
        _ => None,
    }
}

/// A required integer field (the wire format's integers all fit in 64 signed
/// bits; epoch-second timestamps use this directly).
pub open spec fn req_int(fs: Seq<(Seq<char>, JsonV)>, name: Seq<char>) -> Option<int> {
    match obj_get(fs, name) {
        Some(JsonV::Int(n)) => Some(n),
        _ => None,
    }
}

/// An optional integer field: absent or null is "no value"; present but not
/// an integer fails the decode.
pub open spec fn opt_int(fs: Seq<(Seq<char>, JsonV)>, name: Seq<char>) -> Option<Option<int>> {
    match obj_get(fs, name) {
        None => Some(None),
        Some(JsonV::Null) => Some(None),
        Some(JsonV::Int(n)) => Some(Some(n)),
        Some(_) => None,
    }
}

/// A required integer field that must fit the given inclusive bounds, as the
/// typed counts and durations of the wire format do.
pub open spec fn req_int_in(
    fs: Seq<(Seq<char>, JsonV)>,
    name: Seq<char>,
    lo: int,
    hi: int,
) -> Option<int> {
    match req_int(fs, name) {
        Some(n) => if lo <= n <= hi {
            Some(n)
        } else {
            None
        },
        None => None,
    }
}

/// An optional bounded integer field.
pub open spec fn opt_int_in(
    fs: Seq<(Seq<char>, JsonV)>,
    name: Seq<char>,
    lo: int,
    hi: int,
) -> Option<Option<int>> {
    match opt_int(fs, name) {
        Some(Some(n)) => if lo <= n <= hi {
            Some(Some(n))
        } else {
            None
        },
        other => other,
    }
}

/// String equality stated over the character views.
pub fn str_eq(a: &str, b: &str) -> (r: bool)
    ensures
        r == (a@ == b@),
{
    let owned_a: String = a.to_owned();
    let owned_b: String = b.to_owned();
    owned_a == owned_b
}

/// Finds the value of `name` in `fields`, taking the last occurrence when a
/// key repeats, as `obj_get` does.
pub fn get_field<'a>(fields: &'a Vec<(String, Json)>, name: &str) -> (r: Option<&'a Json>)
    ensures
        match r {
            Some(j) => obj_get(fields_view(*fields), name@) == Some(j.deep_view()),
            None => obj_get(fields_view(*fields), name@) is None,
        },
{
    let ghost all = fields_view(*fields);
    let mut idx: usize = fields.len();
    proof {
        assert(all.take(idx as int) =~= all);
    }
    while idx > 0
        invariant
            idx <= fields.len(),
            all == fields_view(*fields),
            all.len() == fields.len(),
            obj_get(all.take(idx as int), name@) == obj_get(all, name@),
        decreases idx,
    {
        idx = idx - 1;
        if str_eq(fields[idx].0.as_str(), name) {
            assert(all.take(idx as int + 1).last() == all[idx as int]);
            return Some(&fields[idx].1);
        }
        proof {
            assert(all.take(idx as int + 1).last() == all[idx as int]);
            assert(all.take(idx as int + 1).drop_last() =~= all.take(idx as int));
        }
    }
    proof {
        assert(all.take(0) =~= Seq::<(Seq<char>, JsonV)>::empty());
    }
    None
}

/// Decodes a required string field.
pub fn get_str(fields: &Vec<(String, Json)>, name: &str) -> (r: Option<String>)
    ensures
        match r {
            Some(s) => req_str(fields_view(*fields), name@) == Some(s@),
            None => req_str(fields_view(*fields), name@) is None,
        },
{
    match get_field(fields, name) {
        Some(Json::Str(s)) => Some(s.clone()),
        _ => None,
    }
}

/// Decodes an optional string field (`Some(None)` when absent or null).
pub fn get_opt_str(fields: &Vec<(String, Json)>, name: &str) -> (r: Option<Option<String>>)
    ensures
        match r {
            Some(v) => opt_str(fields_view(*fields), name@) == Some(v.deep_view()),
            None => opt_str(fields_view(*fields), name@) is None,
        },
{
    match get_field(fields, name) {
        None => Some(None),
        Some(Json::Null) => Some(None),
        Some(Json::Str(s)) => Some(Some(s.clone())),
        Some(_) => None,
    }
}

/// Decodes a required boolean field.
pub fn get_bool(fields: &Vec<(String, Json)>, name: &str) -> (r: Option<bool>)
    ensures
        match r {
            Some(b) => req_bool(fields_view(*fields), name@) == Some(b),
            None => req_bool(fields_view(*fields), name@) is None,
        },
{
    match get_field(fields, name) {
        Some(Json::Bool(b)) => Some(*b),
        _ => None,
    }
}

/// Decodes a required 64-bit integer field.
pub fn get_i64(fields: &Vec<(String, Json)>, name: &str) -> (r: Option<i64>)
    ensures
        match r {
            Some(n) => req_int(fields_view(*fields), name@) == Some(n as int),
            None => req_int(fields_view(*fields), name@) is None,
        },
{
    match get_field(fields, name) {
        Some(Json::Int(n)) => Some(*n),
        _ => None,
    }
}

/// Decodes an optional 64-bit integer field.
pub fn get_opt_i64(fields: &Vec<(String, Json)>, name: &str) -> (r: Option<Option<i64>>)
    ensures
        match r {
            Some(Some(n)) => opt_int(fields_view(*fields), name@) == Some(Some(n as int)),
            Some(None) => opt_int(fields_view(*fields), name@) == Some(Option::<int>::None),
            None => opt_int(fields_view(*fields), name@) is None,
        },
{
    match get_field(fields, name) {
        None => Some(None),
        Some(Json::Null) => Some(None),
        Some(Json::Int(n)) => Some(Some(*n)),
        Some(_) => None,
    }
}

/// Decodes a required unsigned 32-bit integer field.
pub fn get_u32(fields: &Vec<(String, Json)>, name: &str) -> (r: Option<u32>)
    ensures
        match r {
            Some(n) => req_int_in(fields_view(*fields), name@, 0, u32::MAX as int) == Some(
                n as int,
            ),
            None => req_int_in(fields_view(*fields), name@, 0, u32::MAX as int) is None,
        },
{
    match get_i64(fields, name) {
        Some(n) => if 0 <= n && n <= u32::MAX as i64 {
            Some(n as u32)
        } else {
            None
        },
        None => None,
    }
}

/// Decodes a required signed 32-bit integer field.
pub fn get_i32(fields: &Vec<(String, Json)>, name: &str) -> (r: Option<i32>)
    ensures
        match r {
            Some(n) => req_int_in(fields_view(*fields), name@, i32::MIN as int, i32::MAX as int)
                == Some(n as int),
            None => req_int_in(fields_view(*fields), name@, i32::MIN as int, i32::MAX as int)
                is None,
        },
{
    match get_i64(fields, name) {
        Some(n) => if i32::MIN as i64 <= n && n <= i32::MAX as i64 {
            Some(n as i32)
        } else {
            None
        },
        None => None,
    }
}

/// Decodes an optional signed 32-bit integer field.
pub fn get_opt_i32(fields: &Vec<(String, Json)>, name: &str) -> (r: Option<Option<i32>>)
    ensures
        match r {
            Some(Some(n)) => opt_int_in(
                fields_view(*fields),
                name@,
                i32::MIN as int,
                i32::MAX as int,
            ) == Some(Some(n as int)),
            Some(None) => opt_int_in(fields_view(*fields), name@, i32::MIN as int, i32::MAX as int)
                == Some(Option::<int>::None),
            None => opt_int_in(fields_view(*fields), name@, i32::MIN as int, i32::MAX as int)
                is None,
        },
{
    match get_opt_i64(fields, name) {
        Some(Some(n)) => if i32::MIN as i64 <= n && n <= i32::MAX as i64 {
            Some(Some(n as i32))
        } else {
            None
        },
        Some(None) => Some(None),
        None => None,
    }
}

/// Decodes a required signed 8-bit integer field.
pub fn get_i8(fields: &Vec<(String, Json)>, name: &str) -> (r: Option<i8>)
    ensures
        match r {
            Some(n) => req_int_in(fields_view(*fields), name@, i8::MIN as int, i8::MAX as int)
                == Some(n as int),
            None => req_int_in(fields_view(*fields), name@, i8::MIN as int, i8::MAX as int)
                is None,
        },
{
    match get_i64(fields, name) {
        Some(n) => if i8::MIN as i64 <= n && n <= i8::MAX as i64 {
            Some(n as i8)
        } else {
            None
        },
        None => None,
    }
}

/// Decodes a required unsigned 8-bit integer field.
pub fn get_u8(fields: &Vec<(String, Json)>, name: &str) -> (r: Option<u8>)
    ensures
        match r {
            Some(n) => req_int_in(fields_view(*fields), name@, 0, u8::MAX as int) == Some(n as int),
            None => req_int_in(fields_view(*fields), name@, 0, u8::MAX as int) is None,
        },
{
    match get_i64(fields, name) {
        Some(n) => if 0 <= n && n <= u8::MAX as i64 {
            Some(n as u8)
        } else {
            None
        },
        None => None,
    }
}

/// A value that this crate can decode from and encode to a JSON tree.
///
/// `spec_decode` and `spec_encode` are the mathematical statements; the two
/// executable methods are proved to agree with them.  The envelope decoder is
/// generic over this trait, so it never knows a concrete payload shape.
pub trait JsonCodec: DeepView + Sized {
    /// What the decode of a document yields, if anything.
    spec fn spec_decode(j: JsonV) -> Option<Self::V>;

    /// The document that encoding a value produces.
    spec fn spec_encode(v: Self::V) -> JsonV;

    /// Decodes a value from a JSON tree; `None` is a structural failure.
    fn decode_json(j: &Json) -> (r: Option<Self>)
        ensures
            match r {
                Some(v) => Self::spec_decode(j.deep_view()) == Some(v.deep_view()),
                None => Self::spec_decode(j.deep_view()) is None,
            },
    ;

    /// Encodes the value back to a JSON tree.
    fn encode_json(&self) -> (r: Json)
        ensures
            r.deep_view() == Self::spec_encode(self.deep_view()),
    ;
}

/// An enumeration with a closed wire vocabulary: every variant has one fixed
/// token, and an unrecognized token is a hard decode failure — enum drift is
/// never absorbed, unlike the wrapped-collection fallback.
pub trait WireEnum: Sized {
    /// The variant a token names, if any.
    spec fn spec_from_token(t: Seq<char>) -> Option<Self>;

    /// The token a variant is written as.
    spec fn token(self) -> Seq<char>;

    /// Decodes a token; `None` exactly on tokens outside the vocabulary.
    fn from_token(t: &str) -> (r: Option<Self>)
        ensures
            r == Self::spec_from_token(t@),
    ;

    /// Writes the variant's token.
    fn token_string(&self) -> (r: String)
        ensures
            r@ == self.token(),
    ;
}

/// A required enum field: present, a string, and inside the vocabulary.
pub open spec fn req_enum<E: WireEnum>(fs: Seq<(Seq<char>, JsonV)>, name: Seq<char>) -> Option<E> {
    match req_str(fs, name) {
        Some(t) => E::spec_from_token(t),
        None => None,
    }
}

/// An optional enum field: absent or null is "no value"; a present token
/// must still be inside the vocabulary.
pub open spec fn opt_enum<E: WireEnum>(fs: Seq<(Seq<char>, JsonV)>, name: Seq<char>) -> Option<
    Option<E>,
> {
    match opt_str(fs, name) {
        Some(Some(t)) => match E::spec_from_token(t) {
            Some(v) => Some(Some(v)),
            None => None,
        },
        Some(None) => Some(None),
        None => None,
    }
}

/// Decodes a required enum field.
pub fn get_enum<E: WireEnum>(fields: &Vec<(String, Json)>, name: &str) -> (r: Option<E>)
    ensures
        r == req_enum::<E>(fields_view(*fields), name@),
{
    match get_str(fields, name) {
        Some(t) => E::from_token(t.as_str()),
        None => None,
    }
}

/// Decodes an optional enum field.
pub fn get_opt_enum<E: WireEnum>(fields: &Vec<(String, Json)>, name: &str) -> (r: Option<
    Option<E>,
>)
    ensures
        r == opt_enum::<E>(fields_view(*fields), name@),
{
    match get_opt_str(fields, name) {
        Some(Some(t)) => match E::from_token(t.as_str()) {
            Some(v) => Some(Some(v)),
            None => None,
        },
        Some(None) => Some(None),
        None => None,
    }
}

/// Decodes every element of a list, failing when any element fails.
pub open spec fn spec_decode_list<T: JsonCodec>(es: Seq<JsonV>) -> Option<Seq<T::V>>
    decreases es.len(),
{
    if es.len() == 0 {
        Some(Seq::empty())
    } else {
        match T::spec_decode(es.first()) {
            Some(v) => match spec_decode_list::<T>(es.drop_first()) {
                Some(rest) => Some(seq![v] + rest),
                None => None,
            },
            None => None,
        }
    }
}

/// Decodes a whole array of `T`, all-or-nothing.
pub fn decode_list<T: JsonCodec>(arr: &Vec<Json>) -> (r: Option<Vec<T>>)
    ensures
        match r {
            Some(vs) => spec_decode_list::<T>(elems_view(*arr)) == Some(vs.deep_view()),
            None => spec_decode_list::<T>(elems_view(*arr)) is None,
        },
{
    let ghost all = elems_view(*arr);
    let mut out: Vec<T> = Vec::new();
    let mut idx: usize = 0;
    proof {
        assert(all.skip(0) =~= all);
        assert(out.deep_view() =~= Seq::<T::V>::empty());
    }
    while idx < arr.len()
        invariant
            idx <= arr.len(),
            all == elems_view(*arr),
            all.len() == arr.len(),
            out.deep_view().len() == idx as int,
            match spec_decode_list::<T>(all.skip(idx as int)) {
                Some(rest) => spec_decode_list::<T>(all) == Some(out.deep_view() + rest),
                None => spec_decode_list::<T>(all) is None,
            },
        decreases arr.len() - idx,
    {
        let ghost before = out.deep_view();
        assert(all.skip(idx as int).first() == all[idx as int]);
        match T::decode_json(&arr[idx]) {
            Some(v) => {
                out.push(v);
                proof {
                    assert(all.skip(idx as int).drop_first() =~= all.skip(idx as int + 1));
                    assert(out.deep_view() =~= before + seq![v.deep_view()]);
                    if spec_decode_list::<T>(all.skip(idx as int + 1)) is Some {
                        let rest = spec_decode_list::<T>(all.skip(idx as int + 1))->0;
                        assert(before + (seq![v.deep_view()] + rest) =~= (before + seq![
                            v.deep_view(),
                        ]) + rest);
                    }
                }
            },
            None => {
                return None;
            },
        }
        idx = idx + 1;
    }
    proof {
        assert(all.skip(arr.len() as int) =~= Seq::<JsonV>::empty());
        assert(out.deep_view() + Seq::<T::V>::empty() =~= out.deep_view());
    }
    Some(out)
}

/// The defensive decode of a wrapped collection (see the fallback policy):
/// the field's value must be an object with a string `type` discriminator and
/// a list named `name` whose elements all decode as `T`.  Any other shape,
/// a missing field, or a failing element yields the empty list — never an
/// error, so schema drift in one collection cannot abort the enclosing
/// aggregate.
pub open spec fn spec_fallback_list<T: JsonCodec>(field: Option<JsonV>, name: Seq<char>) -> Seq<
    T::V,
> {
    match field {
        Some(JsonV::Obj(fs)) => if req_str(fs, "type"@) is Some {
            match obj_get(fs, name) {
                Some(JsonV::Arr(es)) => match spec_decode_list::<T>(es) {
                    Some(vs) => vs,
                    None => Seq::empty(),
                },
                _ => Seq::empty(),
            }
        } else {
            Seq::empty()
        },
        _ => Seq::empty(),
    }
}

fn empty_list<T: JsonCodec>() -> (r: Vec<T>)
    ensures
        r.deep_view() == Seq::<T::V>::empty(),
{
    let r: Vec<T> = Vec::new();
    proof {
        assert(r.deep_view() =~= Seq::<T::V>::empty());
    }
    r
}

/// Decodes one of the four wrapped-collection fields, absorbing every
/// failure into an empty list.
pub fn fallback_list<T: JsonCodec>(field: Option<&Json>, name: &str) -> (r: Vec<T>)
    ensures
        r.deep_view() == spec_fallback_list::<T>(field.deep_view(), name@),
{
    match field {
        Some(Json::Obj(fs)) => {
            match get_field(fs, "type") {
                Some(Json::Str(_)) => {},
                _ => {
                    return empty_list::<T>();
                },
            }
            match get_field(fs, name) {
                Some(Json::Arr(es)) => match decode_list::<T>(es) {
                    Some(vs) => vs,
                    None => empty_list::<T>(),
                },
                _ => empty_list::<T>(),
            }
        },
        _ => empty_list::<T>(),
    }
}

/// A required nested value: present and decodable as `T`, else failure.
pub open spec fn req_codec<T: JsonCodec>(fs: Seq<(Seq<char>, JsonV)>, name: Seq<char>) -> Option<
    T::V,
> {
    match obj_get(fs, name) {
        Some(j) => T::spec_decode(j),
        None => None,
    }
}

/// An optional nested substructure: absent or null is "no value", while a
/// present value is decoded all-or-nothing — a partially present
/// substructure is a hard failure, never coerced to absent.
pub open spec fn opt_codec<T: JsonCodec>(fs: Seq<(Seq<char>, JsonV)>, name: Seq<char>) -> Option<
    Option<T::V>,
> {
    match obj_get(fs, name) {
        None => Some(None),
        Some(JsonV::Null) => Some(None),
        Some(j) => match T::spec_decode(j) {
            Some(v) => Some(Some(v)),
            None => None,
        },
    }
}

/// A required plain list field: present, an array, and every element
/// decodes — unlike the wrapped collections, a failure here propagates.
pub open spec fn req_list<T: JsonCodec>(fs: Seq<(Seq<char>, JsonV)>, name: Seq<char>) -> Option<
    Seq<T::V>,
> {
    match obj_get(fs, name) {
        Some(JsonV::Arr(es)) => spec_decode_list::<T>(es),
        _ => None,
    }
}

/// Decodes a required nested value.
pub fn get_codec<T: JsonCodec>(fields: &Vec<(String, Json)>, name: &str) -> (r: Option<T>)
    ensures
        match r {
            Some(v) => req_codec::<T>(fields_view(*fields), name@) == Some(v.deep_view()),
            None => req_codec::<T>(fields_view(*fields), name@) is None,
        },
{
    match get_field(fields, name) {
        Some(j) => T::decode_json(j),
        None => None,
    }
}

/// Decodes an optional nested substructure.
pub fn get_opt_codec<T: JsonCodec>(fields: &Vec<(String, Json)>, name: &str) -> (r: Option<
    Option<T>,
>)
    ensures
        match r {
            Some(Some(v)) => opt_codec::<T>(fields_view(*fields), name@) == Some(
                Some(v.deep_view()),
            ),
            Some(None) => opt_codec::<T>(fields_view(*fields), name@) == Some(
                Option::<T::V>::None,
            ),
            None => opt_codec::<T>(fields_view(*fields), name@) is None,
        },
{
    match get_field(fields, name) {
        None => Some(None),
        Some(Json::Null) => Some(None),
        Some(j) => match T::decode_json(j) {
            Some(v) => Some(Some(v)),
            None => None,
        },
    }
}

/// Decodes a required plain list field.
pub fn get_list<T: JsonCodec>(fields: &Vec<(String, Json)>, name: &str) -> (r: Option<Vec<T>>)
    ensures
        match r {
            Some(vs) => req_list::<T>(fields_view(*fields), name@) == Some(vs.deep_view()),
            None => req_list::<T>(fields_view(*fields), name@) is None,
        },
{
    match get_field(fields, name) {
        Some(Json::Arr(es)) => decode_list::<T>(es),
        _ => None,
    }
}

/// Replaces the value at the first occurrence of `k`, keeping its position,
/// or appends the pair when `k` is absent.
pub open spec fn upsert(
    acc: Seq<(Seq<char>, Seq<char>)>,
    k: Seq<char>,
    v: Seq<char>,
) -> Seq<(Seq<char>, Seq<char>)>
    decreases acc.len(),
{
    if acc.len() == 0 {
        seq![(k, v)]
    } else if acc.first().0 == k {
        seq![(k, v)] + acc.drop_first()
    } else {
        seq![acc.first()] + upsert(acc.drop_first(), k, v)
    }
}

/// Folds an object's fields into a string-to-string mapping, left to right:
/// a duplicate key is resolved by last-value-wins, so keys are unique in the
/// result.  A non-string value fails the whole fold.
pub open spec fn attrs_fold(
    fs: Seq<(Seq<char>, JsonV)>,
    acc: Seq<(Seq<char>, Seq<char>)>,
) -> Option<Seq<(Seq<char>, Seq<char>)>>
    decreases fs.len(),
{
    if fs.len() == 0 {
        Some(acc)
    } else {
        match fs.first().1 {
            JsonV::Str(s) => attrs_fold(fs.drop_first(), upsert(acc, fs.first().0, s)),
            _ => None,
        }
    }
}

/// The decode of a string-to-string attribute mapping: the value must be an
/// object whose values are all strings.
pub open spec fn spec_attrs(j: JsonV) -> Option<Seq<(Seq<char>, Seq<char>)>> {
    match j {
        JsonV::Obj(fs) => attrs_fold(fs, Seq::empty()),
        _ => None,
    }
}

/// A required attribute-mapping field.
pub open spec fn req_attrs(fs: Seq<(Seq<char>, JsonV)>, name: Seq<char>) -> Option<
    Seq<(Seq<char>, Seq<char>)>,
> {
    match obj_get(fs, name) {
        Some(j) => spec_attrs(j),
        None => None,
    }
}

/// An upsert whose key sits first at position `i` is an in-place update.
proof fn lemma_upsert_at(s: Seq<(Seq<char>, Seq<char>)>, k: Seq<char>, v: Seq<char>, i: int)
    requires
        0 <= i < s.len(),
        s[i].0 == k,
        forall|j: int| 0 <= j < i ==> (#[trigger] s[j]).0 != k,
    ensures
        upsert(s, k, v) == s.update(i, (k, v)),
    decreases i,
{
    if i == 0 {
        assert(s.first() == s[0]);
        assert(seq![(k, v)] + s.drop_first() =~= s.update(0, (k, v)));
    } else {
        assert(s.first() == s[0]);
        assert(s.drop_first()[i - 1] == s[i]);
        assert forall|j: int| 0 <= j < i - 1 implies (#[trigger] s.drop_first()[j]).0 != k by {
            assert(s.drop_first()[j] == s[j + 1]);
        }
        lemma_upsert_at(s.drop_first(), k, v, i - 1);
        assert(seq![s.first()] + s.drop_first().update(i - 1, (k, v)) =~= s.update(i, (k, v)));
    }
}

/// An upsert of an absent key is an append.
proof fn lemma_upsert_absent(s: Seq<(Seq<char>, Seq<char>)>, k: Seq<char>, v: Seq<char>)
    requires
        forall|j: int| 0 <= j < s.len() ==> (#[trigger] s[j]).0 != k,
    ensures
        upsert(s, k, v) == s.push((k, v)),
    decreases s.len(),
{
    if s.len() == 0 {
        assert(s =~= Seq::<(Seq<char>, Seq<char>)>::empty());
        assert(seq![(k, v)] =~= s.push((k, v)));
    } else {
        assert(s.first() == s[0]);
        assert forall|j: int| 0 <= j < s.drop_first().len() implies (#[trigger] s.drop_first()[j]).0
            != k by {
            assert(s.drop_first()[j] == s[j + 1]);
        }
        lemma_upsert_absent(s.drop_first(), k, v);
        assert(seq![s.first()] + s.drop_first().push((k, v)) =~= s.push((k, v)));
    }
}

/// Replaces the first pair whose key is `key`, in place, or appends.
fn upsert_attr(acc: &mut Vec<(String, String)>, key: String, val: String)
    ensures
        final(acc).deep_view() == upsert(old(acc).deep_view(), key@, val@),
{
    let ghost kv = key@;
    let ghost vv = val@;
    let ghost orig = acc.deep_view();
    let mut i: usize = 0;
    while i < acc.len()
        invariant
            i <= acc.len(),
            acc.deep_view() == orig,
            orig == old(acc).deep_view(),
            orig.len() == acc.len(),
            kv == key@,
            vv == val@,
            forall|j: int| 0 <= j < i ==> (#[trigger] orig[j]).0 != kv,
        decreases acc.len() - i,
    {
        if str_eq(acc[i].0.as_str(), key.as_str()) {
            let at: usize = i;
            acc[at] = (key, val);
            proof {
                assert(acc.deep_view() =~= orig.update(at as int, (kv, vv)));
                lemma_upsert_at(orig, kv, vv, at as int);
            }
            return ;
        }
        i = i + 1;
    }
    acc.push((key, val));
    proof {
        assert(acc.deep_view() =~= orig.push((kv, vv)));
        lemma_upsert_absent(orig, kv, vv);
    }
}

/// Decodes an attribute mapping from one JSON value.
pub fn decode_attrs(j: &Json) -> (r: Option<Vec<(String, String)>>)
    ensures
        match r {
            Some(v) => spec_attrs(j.deep_view()) == Some(v.deep_view()),
            None => spec_attrs(j.deep_view()) is None,
        },
{
    let fields = match j {
        Json::Obj(fs) => fs,
        _ => {
            return None;
        },
    };
    let ghost all = fields_view(*fields);
    let mut out: Vec<(String, String)> = Vec::new();
    let mut idx: usize = 0;
    proof {
        assert(all.skip(0) =~= all);
        assert(out.deep_view() =~= Seq::<(Seq<char>, Seq<char>)>::empty());
    }
    while idx < fields.len()
        invariant
            idx <= fields.len(),
            all == fields_view(*fields),
            all.len() == fields.len(),
            j.deep_view() == JsonV::Obj(all),
            attrs_fold(all, Seq::empty()) == attrs_fold(all.skip(idx as int), out.deep_view()),
        decreases fields.len() - idx,
    {
        assert(all.skip(idx as int).first() == all[idx as int]);
        let val = match &fields[idx].1 {
            Json::Str(s) => s.clone(),
            _ => {
                proof {
                    assert(!(all[idx as int].1 is Str));
                    assert(attrs_fold(all.skip(idx as int), out.deep_view()) is None);
                }
                return None;
            },
        };
        let key = fields[idx].0.clone();
        upsert_attr(&mut out, key, val);
        proof {
            assert(all.skip(idx as int).drop_first() =~= all.skip(idx as int + 1));
        }
        idx = idx + 1;
    }
    proof {
        assert(all.skip(fields.len() as int) =~= Seq::<(Seq<char>, JsonV)>::empty());
    }
    Some(out)
}

/// Decodes a required attribute-mapping field.
pub fn get_attrs(fields: &Vec<(String, Json)>, name: &str) -> (r: Option<Vec<(String, String)>>)
    ensures
        match r {
            Some(v) => req_attrs(fields_view(*fields), name@) == Some(v.deep_view()),
            None => req_attrs(fields_view(*fields), name@) is None,
        },
{
    match get_field(fields, name) {
        Some(j) => decode_attrs(j),
        None => None,
    }
}

/// The encoding of an attribute mapping: one string field per pair, in order.
pub open spec fn spec_encode_attrs(ps: Seq<(Seq<char>, Seq<char>)>) -> JsonV {
    JsonV::Obj(Seq::new(ps.len(), |i: int| (ps[i].0, JsonV::Str(ps[i].1))))
}

/// Encodes an attribute mapping.
pub fn encode_attrs(ps: &Vec<(String, String)>) -> (r: Json)
    ensures
        r.deep_view() == spec_encode_attrs(ps.deep_view()),
{
    let ghost all = ps.deep_view();
    let mut fs: Vec<(String, Json)> = Vec::new();
    let mut idx: usize = 0;
    proof {
        assert(fields_view(fs) =~= spec_encode_attrs(all.take(0))->Obj_0);
    }
    while idx < ps.len()
        invariant
            idx <= ps.len(),
            all == ps.deep_view(),
            all.len() == ps.len(),
            fs.len() == idx,
            fields_view(fs) == spec_encode_attrs(all.take(idx as int))->Obj_0,
        decreases ps.len() - idx,
    {
        let ghost before = fields_view(fs);
        fs.push((ps[idx].0.clone(), Json::Str(ps[idx].1.clone())));
        proof {
            assert(fields_view(fs) =~= before.push((all[idx as int].0, JsonV::Str(
                all[idx as int].1,
            ))));
            assert(spec_encode_attrs(all.take(idx as int + 1))->Obj_0 =~= spec_encode_attrs(
                all.take(idx as int),
            )->Obj_0.push((all[idx as int].0, JsonV::Str(all[idx as int].1))));
        }
        idx = idx + 1;
    }
    let r = Json::Obj(fs);
    proof {
        assert(all.take(ps.len() as int) =~= all);
        assert(r.deep_view() =~~= spec_encode_attrs(all));
    }
    r
}

/// Folding the encoding of a unique-keyed mapping appends its pairs in order.
proof fn lemma_attrs_fold_roundtrip(
    ps: Seq<(Seq<char>, Seq<char>)>,
    acc: Seq<(Seq<char>, Seq<char>)>,
)
    requires
        forall|i: int, j: int|
            0 <= i < j < ps.len() ==> (#[trigger] ps[i]).0 != (#[trigger] ps[j]).0,
        forall|i: int, j: int|
            0 <= i < ps.len() && 0 <= j < acc.len() ==> (#[trigger] ps[i]).0 != (
            #[trigger] acc[j]).0,
    ensures
        attrs_fold(spec_encode_attrs(ps)->Obj_0, acc) == Some(acc + ps),
    decreases ps.len(),
{
    let es = spec_encode_attrs(ps)->Obj_0;
    if ps.len() == 0 {
        assert(es.len() == 0);
        assert(acc + ps =~= acc);
    } else {
        assert(es.first() == (ps[0].0, JsonV::Str(ps[0].1)));
        assert forall|j: int| 0 <= j < acc.len() implies (#[trigger] acc[j]).0 != ps[0].0 by {
            assert(ps[0].0 != acc[j].0);
        }
        lemma_upsert_absent(acc, ps[0].0, ps[0].1);
        let tail = ps.drop_first();
        let acc2 = acc.push((ps[0].0, ps[0].1));
        assert(es.drop_first() =~= spec_encode_attrs(tail)->Obj_0);
        assert forall|i: int, j: int| 0 <= i < j < tail.len() implies (#[trigger] tail[i]).0 != (
        #[trigger] tail[j]).0 by {
            assert(tail[i] == ps[i + 1] && tail[j] == ps[j + 1]);
        }
        assert forall|i: int, j: int|
            0 <= i < tail.len() && 0 <= j < acc2.len() implies (#[trigger] tail[i]).0 != (
        #[trigger] acc2[j]).0 by {
            assert(tail[i] == ps[i + 1]);
            if j < acc.len() {
                assert(acc2[j] == acc[j]);
            } else {
                assert(acc2[j] == (ps[0].0, ps[0].1));
            }
        }
        lemma_attrs_fold_roundtrip(tail, acc2);
        assert(acc2 + tail =~= acc + ps);
    }
}

/// Decoding the encoding of a unique-keyed attribute mapping gives the
/// mapping back.
pub proof fn lemma_attrs_roundtrip(ps: Seq<(Seq<char>, Seq<char>)>)
    requires
        forall|i: int, j: int|
            0 <= i < j < ps.len() ==> (#[trigger] ps[i]).0 != (#[trigger] ps[j]).0,
    ensures
        spec_attrs(spec_encode_attrs(ps)) == Some(ps),
{
    lemma_attrs_fold_roundtrip(ps, Seq::empty());
    assert(Seq::<(Seq<char>, Seq<char>)>::empty() + ps =~= ps);
}

/// The encoding of a list: each element encoded, in order.
pub open spec fn spec_encode_list<T: JsonCodec>(vs: Seq<T::V>) -> Seq<JsonV> {
    Seq::new(vs.len(), |i: int| T::spec_encode(vs[i]))
}

/// Encodes a whole list of `T`.
pub fn encode_list<T: JsonCodec>(xs: &Vec<T>) -> (r: Vec<Json>)
    ensures
        elems_view(r) == spec_encode_list::<T>(xs.deep_view()),
{
    let ghost all = xs.deep_view();
    let mut out: Vec<Json> = Vec::new();
    let mut idx: usize = 0;
    proof {
        assert(elems_view(out) =~= spec_encode_list::<T>(all.take(0)));
    }
    while idx < xs.len()
        invariant
            idx <= xs.len(),
            all == xs.deep_view(),
            all.len() == xs.len(),
            out.len() == idx,
            elems_view(out) == spec_encode_list::<T>(all.take(idx as int)),
        decreases xs.len() - idx,
    {
        let ghost before = elems_view(out);
        let encoded = xs[idx].encode_json();
        out.push(encoded);
        proof {
            assert(elems_view(out) =~= before.push(encoded.deep_view()));
            assert(spec_encode_list::<T>(all.take(idx as int + 1)) =~= spec_encode_list::<T>(
                all.take(idx as int),
            ).push(T::spec_encode(all[idx as int])));
        }
        idx = idx + 1;
    }
    proof {
        assert(all.take(xs.len() as int) =~= all);
    }
    out
}

/// The wrapper shape that a wrapped collection is encoded as: a `type`
/// discriminator and the list under its field name.
pub open spec fn spec_wrap_list(tag: Seq<char>, name: Seq<char>, es: Seq<JsonV>) -> JsonV {
    JsonV::Obj(seq![("type"@, JsonV::Str(tag)), (name, JsonV::Arr(es))])
}

/// Encodes a wrapped collection.
pub fn wrap_list(tag: &str, name: &str, elems: Vec<Json>) -> (r: Json)
    ensures
        r.deep_view() == spec_wrap_list(tag@, name@, elems_view(elems)),
{
    let ghost ev = elems_view(elems);
    let mut fs: Vec<(String, Json)> = Vec::new();
    fs.push(("type".to_owned(), Json::Str(tag.to_owned())));
    fs.push((name.to_owned(), Json::Arr(elems)));
    let r = Json::Obj(fs);
    proof {
        assert(fs@.len() == 2);
        assert(fs@[0].0@ == "type"@);
        assert(fs@[0].1.deep_view() == JsonV::Str(tag@));
        assert(fs@[1].0@ == name@);
        assert(fs@[1].1.deep_view() == JsonV::Arr(ev));
        assert(fields_view(fs) =~~= seq![("type"@, JsonV::Str(tag@)), (name@, JsonV::Arr(ev))]);
        assert(r.deep_view() =~~= spec_wrap_list(tag@, name@, ev));
    }
    r
}

/// Two character sequences differ when their lengths differ or some common
/// position does: the witness that tells one revealed literal from another.
pub proof fn lemma_str_neq(a: Seq<char>, b: Seq<char>, i: int)
    requires
        a.len() != b.len() || (0 <= i < a.len() && 0 <= i < b.len() && a[i] != b[i]),
    ensures
        a != b,
{
    assert(!(a =~= b));
}

/// Looking a key up lands on its own entry whenever no later entry shadows
/// it: the workhorse behind every structural round-trip proof.
pub proof fn lemma_obj_get_at(fs: Seq<(Seq<char>, JsonV)>, i: int)
    requires
        0 <= i < fs.len(),
        forall|j: int| i < j < fs.len() ==> (#[trigger] fs[j].0) != fs[i].0,
    ensures
        obj_get(fs, fs[i].0) == Some(fs[i].1),
    decreases fs.len(),
{
    if i == fs.len() - 1 {
        assert(fs.last() == fs[i]);
    } else {
        assert(fs.last() == fs[fs.len() - 1]);
        lemma_obj_get_at(fs.drop_last(), i);
        assert(fs.drop_last()[i] == fs[i]);
    }
}

/// Decoding the encoding of a list gives the list back, provided every
/// element itself round-trips.
pub proof fn lemma_decode_list_roundtrip<T: JsonCodec>(vs: Seq<T::V>)
    requires
        forall|i: int|
            0 <= i < vs.len() ==> T::spec_decode(T::spec_encode(#[trigger] vs[i])) == Some(vs[i]),
    ensures
        spec_decode_list::<T>(spec_encode_list::<T>(vs)) == Some(vs),
    decreases vs.len(),
{
    let es = spec_encode_list::<T>(vs);
    if vs.len() == 0 {
        assert(vs =~= Seq::<T::V>::empty());
    } else {
        assert(es.first() == T::spec_encode(vs[0]));
        let tail = vs.drop_first();
        assert(es.drop_first() =~= spec_encode_list::<T>(tail));
        assert forall|i: int| 0 <= i < tail.len() implies T::spec_decode(
            T::spec_encode(#[trigger] tail[i]),
        ) == Some(tail[i]) by {
            assert(tail[i] == vs[i + 1]);
        }
        lemma_decode_list_roundtrip::<T>(tail);
        assert(seq![vs[0]] + tail =~= vs);
    }
}

/// Decoding the encoding of a wrapped collection gives the collection back:
/// the encoder emits exactly the wrapper shape that the defensive decoder's
/// success path accepts.
pub proof fn lemma_fallback_wrap_roundtrip<T: JsonCodec>(tag: Seq<char>, name: Seq<char>, vs: Seq<T::V>)
    requires
        name != "type"@,
        forall|i: int|
            0 <= i < vs.len() ==> T::spec_decode(T::spec_encode(#[trigger] vs[i])) == Some(vs[i]),
    ensures
        spec_fallback_list::<T>(Some(spec_wrap_list(tag, name, spec_encode_list::<T>(vs))), name)
            == vs,
{
    let es = spec_encode_list::<T>(vs);
    let fs = seq![("type"@, JsonV::Str(tag)), (name, JsonV::Arr(es))];
    let bare = seq![("type"@, JsonV::Str(tag))];
    assert(bare.drop_last() =~= Seq::<(Seq<char>, JsonV)>::empty());
    assert(obj_get(bare, "type"@) == Some(JsonV::Str(tag)));
    assert(fs.drop_last() =~= bare);
    assert(obj_get(fs, "type"@) == obj_get(bare, "type"@));
    assert(obj_get(fs, name) == Some(JsonV::Arr(es)));
    lemma_decode_list_roundtrip::<T>(vs);
}

/// Fallback idempotence: a wrapper whose list field is present and empty and
/// a wrapper without the list field at all decode to the same empty list.
/// The first is the ordinary success path, the second the absorbed one.
pub proof fn lemma_fallback_empty_forms<T: JsonCodec>(tag: Seq<char>, name: Seq<char>)
    requires
        name != "type"@,
    ensures
        spec_fallback_list::<T>(
            Some(JsonV::Obj(seq![("type"@, JsonV::Str(tag)), (name, JsonV::Arr(Seq::empty()))])),
            name,
        ) =~= Seq::<T::V>::empty(),
        spec_fallback_list::<T>(Some(JsonV::Obj(seq![("type"@, JsonV::Str(tag))])), name) =~= Seq::<
            T::V,
        >::empty(),
{
    let bare = seq![("type"@, JsonV::Str(tag))];
    let with_list = seq![("type"@, JsonV::Str(tag)), (name, JsonV::Arr(Seq::empty()))];
    assert(bare.drop_last() =~= Seq::<(Seq<char>, JsonV)>::empty());
    assert(obj_get(Seq::<(Seq<char>, JsonV)>::empty(), name) is None);
    assert(obj_get(bare, "type"@) == Some(JsonV::Str(tag)));
    assert(obj_get(bare, name) is None);
    assert(with_list.drop_last() =~= bare);
    assert(obj_get(with_list, "type"@) == obj_get(bare, "type"@));
    assert(obj_get(with_list, name) == Some(JsonV::Arr(Seq::<JsonV>::empty())));
    assert(spec_decode_list::<T>(Seq::empty()) == Some(Seq::<T::V>::empty()));
}

/// Fallback absorption: when any element of the wrapped list fails to decode
/// as `T`, the whole collection decodes to the empty list instead of failing.
pub proof fn lemma_fallback_absorbs_bad_element<T: JsonCodec>(
    fs: Seq<(Seq<char>, JsonV)>,
    name: Seq<char>,
    es: Seq<JsonV>,
    i: int,
)
    requires
        obj_get(fs, name) == Some(JsonV::Arr(es)),
        0 <= i < es.len(),
        T::spec_decode(es[i]) is None,
    ensures
        spec_fallback_list::<T>(Some(JsonV::Obj(fs)), name) =~= Seq::<T::V>::empty(),
{
    lemma_decode_list_bad_element::<T>(es, i);
}

/// A list with a failing element never decodes.
pub proof fn lemma_decode_list_bad_element<T: JsonCodec>(es: Seq<JsonV>, i: int)
    requires
        0 <= i < es.len(),
        T::spec_decode(es[i]) is None,
    ensures
        spec_decode_list::<T>(es) is None,
    decreases es.len(),
{
    if i == 0 {
        assert(es.first() == es[0]);
    } else {
        assert(es.drop_first()[i - 1] == es[i]);
        lemma_decode_list_bad_element::<T>(es.drop_first(), i - 1);
    }
}

} // verus!
