//! The generic notification envelope.
//!
//! An envelope wraps an arbitrary payload type `T` under a doubly-nested
//! `data.item` structure; decoding flattens that one level so the caller
//! receives the payload directly.  The envelope knows nothing of concrete
//! payload shapes: `T` supplies its own codec.  No fallback applies here —
//! a wrong envelope shape or a failing payload fails the whole decode.

use crate::json::{
    fields_view, get_codec, get_field, get_i32, get_opt_str, get_str, lemma_obj_get_at,
    lemma_str_neq, obj_get, opt_str, req_codec, req_int, req_int_in, req_str, Json, JsonCodec,
    JsonV,
};
use crate::timestamp::{get_ts, Timestamp};
use vstd::prelude::*;

verus! {

/// The event envelope: routing and delivery metadata around one payload.
#[derive(Debug, PartialEq, Eq)]
pub struct Notification<T> {
    pub typ: String,
    pub id: String,
    pub url: Option<String>,
    pub created_at: Timestamp,
    pub topic: String,
    pub delivery_attempts: i32,
    pub first_sent_at: Timestamp,
    pub data: T,
}

/// The mathematical value of a `Notification`, over the payload's view.
#[verifier::ext_equal]
pub ghost struct NotificationV<DV> {
    pub typ: Seq<char>,
    pub id: Seq<char>,
    pub url: Option<Seq<char>>,
    pub created_at: int,
    pub topic: Seq<char>,
    pub delivery_attempts: int,
    pub first_sent_at: int,
    pub data: DV,
}

impl<DV> NotificationV<DV> {
    /// The envelope's own numeric fields fit their machine types; what holds
    /// of the payload is the payload type's business.
    pub open spec fn wf_envelope(self) -> bool {
        &&& i64::MIN <= self.created_at <= i64::MAX
        &&& i64::MIN <= self.first_sent_at <= i64::MAX
        &&& i32::MIN <= self.delivery_attempts <= i32::MAX
    }
}

impl<T: DeepView> DeepView for Notification<T> {
    type V = NotificationV<T::V>;

    open spec fn deep_view(&self) -> NotificationV<T::V> {
        NotificationV {
            typ: self.typ@,
            id: self.id@,
            url: self.url.deep_view(),
            created_at: self.created_at.deep_view(),
            topic: self.topic@,
            delivery_attempts: self.delivery_attempts as int,
            first_sent_at: self.first_sent_at.deep_view(),
            data: self.data.deep_view(),
        }
    }
}

/// The payload of a `data` field: an object holding the payload under its
/// single meaningful field `item`.
pub open spec fn req_data_item<T: JsonCodec>(fs: Seq<(Seq<char>, JsonV)>, name: Seq<char>) -> Option<
    T::V,
> {
    match obj_get(fs, name) {
        Some(JsonV::Obj(dfs)) => req_codec::<T>(dfs, "item"@),
        _ => None,
    }
}

/// Decodes the doubly-nested `data.item` structure, flattening one level.
pub fn get_data_item<T: JsonCodec>(fields: &Vec<(String, Json)>, name: &str) -> (r: Option<T>)
    ensures
        match r {
            Some(v) => req_data_item::<T>(fields_view(*fields), name@) == Some(v.deep_view()),
            None => req_data_item::<T>(fields_view(*fields), name@) is None,
        },
{
    match get_field(fields, name) {
        Some(Json::Obj(dfs)) => get_codec::<T>(dfs, "item"),
        _ => None,
    }
}

impl<T: JsonCodec> JsonCodec for Notification<T> {
    open spec fn spec_decode(j: JsonV) -> Option<NotificationV<T::V>> {
        match j {
            JsonV::Obj(fs) => if req_str(fs, "type"@) is Some && req_str(fs, "id"@) is Some
                && opt_str(fs, "self"@) is Some && req_int(fs, "created_at"@) is Some && req_str(
                fs,
                "topic"@,
            ) is Some && req_int_in(fs, "delivery_attempts"@, i32::MIN as int, i32::MAX as int)
                is Some && req_int(fs, "first_sent_at"@) is Some && req_data_item::<T>(
                fs,
                "data"@,
            ) is Some {
                Some(
                    NotificationV {
                        typ: req_str(fs, "type"@)->0,
                        id: req_str(fs, "id"@)->0,
                        url: opt_str(fs, "self"@)->0,
                        created_at: req_int(fs, "created_at"@)->0,
                        topic: req_str(fs, "topic"@)->0,
                        delivery_attempts: req_int_in(
                            fs,
                            "delivery_attempts"@,
                            i32::MIN as int,
                            i32::MAX as int,
                        )->0,
                        first_sent_at: req_int(fs, "first_sent_at"@)->0,
                        data: req_data_item::<T>(fs, "data"@)->0,
                    },
                )
            } else {
                None
            },
            _ => None,
        }
    }

    open spec fn spec_encode(v: NotificationV<T::V>) -> JsonV {
        JsonV::Obj(
            seq![
                ("type"@, JsonV::Str(v.typ)),
                ("id"@, JsonV::Str(v.id)),
                (
                    "self"@,
                    match v.url {
                        Some(s) => JsonV::Str(s),
                        None => JsonV::Null,
                    },
                ),
                ("created_at"@, JsonV::Int(v.created_at)),
                ("topic"@, JsonV::Str(v.topic)),
                ("delivery_attempts"@, JsonV::Int(v.delivery_attempts)),
                ("first_sent_at"@, JsonV::Int(v.first_sent_at)),
                ("data"@, JsonV::Obj(seq![("item"@, T::spec_encode(v.data))])),
            ],
        )
    }

    fn decode_json(j: &Json) -> (r: Option<Self>) {
        let fields = match j {
            Json::Obj(fs) => fs,
            _ => {
                return None;
            },
        };
        let typ = match get_str(fields, "type") {
            Some(x) => x,
            None => {
                return None;
            },
        };
        let id = match get_str(fields, "id") {
            Some(x) => x,
            None => {
                return None;
            },
        };
        let url = match get_opt_str(fields, "self") {
            Some(x) => x,
            None => {
                return None;
            },
        };
        let created_at = match get_ts(fields, "created_at") {
            Some(x) => x,
            None => {
                return None;
            },
        };
        let topic = match get_str(fields, "topic") {
            Some(x) => x,
            None => {
                return None;
            },
        };
        let delivery_attempts = match get_i32(fields, "delivery_attempts") {
            Some(x) => x,
            None => {
                return None;
            },
        };
        let first_sent_at = match get_ts(fields, "first_sent_at") {
            Some(x) => x,
            None => {
                return None;
            },
        };
        let data = match get_data_item::<T>(fields, "data") {
            Some(x) => x,
            None => {
                return None;
            },
        };
        Some(
            Notification {
                typ,
                id,
                url,
                created_at,
                topic,
                delivery_attempts,
                first_sent_at,
                data,
            },
        )
    }

    fn encode_json(&self) -> (r: Json) {
        let ghost dv = T::spec_encode(self.data.deep_view());
        let mut inner: Vec<(String, Json)> = Vec::new();
        inner.push(("item".to_owned(), self.data.encode_json()));
        proof {
            assert(fields_view(inner) =~= seq![("item"@, dv)]);
        }
        let data_obj = Json::Obj(inner);
        let fs: Vec<(String, Json)> = vec![
            ("type".to_owned(), Json::Str(self.typ.clone())),
            ("id".to_owned(), Json::Str(self.id.clone())),
            (
                "self".to_owned(),
                match &self.url {
                    Some(s) => Json::Str(s.clone()),
                    None => Json::Null,
                },
            ),
            ("created_at".to_owned(), Json::Int(self.created_at.secs)),
            ("topic".to_owned(), Json::Str(self.topic.clone())),
            ("delivery_attempts".to_owned(), Json::Int(self.delivery_attempts as i64)),
            ("first_sent_at".to_owned(), Json::Int(self.first_sent_at.secs)),
            ("data".to_owned(), data_obj),
        ];
        let r = Json::Obj(fs);
        proof {
            assert(fields_view(fs) =~~= Self::spec_encode(self.deep_view())->Obj_0);
            assert(r.deep_view() =~~= Self::spec_encode(self.deep_view()));
        }
        r
    }
}

/// Decoding the encoding of an envelope gives it back, whenever the payload
/// itself round-trips: the envelope preserves any payload exactly.
pub proof fn lemma_notification_roundtrip<T: JsonCodec>(v: NotificationV<T::V>)
    requires
        v.wf_envelope(),
        T::spec_decode(T::spec_encode(v.data)) == Some(v.data),
    ensures
        Notification::<T>::spec_decode(Notification::<T>::spec_encode(v)) == Some(v),
{
    reveal_strlit("type");
    reveal_strlit("id");
    reveal_strlit("self");
    reveal_strlit("created_at");
    reveal_strlit("topic");
    reveal_strlit("delivery_attempts");
    reveal_strlit("first_sent_at");
    reveal_strlit("data");
    reveal_strlit("item");
    lemma_str_neq("type"@, "id"@, 0);
    lemma_str_neq("type"@, "self"@, 0);
    lemma_str_neq("type"@, "created_at"@, 0);
    lemma_str_neq("type"@, "topic"@, 1);
    lemma_str_neq("type"@, "delivery_attempts"@, 0);
    lemma_str_neq("type"@, "first_sent_at"@, 0);
    lemma_str_neq("type"@, "data"@, 0);
    lemma_str_neq("id"@, "self"@, 0);
    lemma_str_neq("id"@, "created_at"@, 0);
    lemma_str_neq("id"@, "topic"@, 0);
    lemma_str_neq("id"@, "delivery_attempts"@, 0);
    lemma_str_neq("id"@, "first_sent_at"@, 0);
    lemma_str_neq("id"@, "data"@, 0);
    lemma_str_neq("self"@, "created_at"@, 0);
    lemma_str_neq("self"@, "topic"@, 0);
    lemma_str_neq("self"@, "delivery_attempts"@, 0);
    lemma_str_neq("self"@, "first_sent_at"@, 0);
    lemma_str_neq("self"@, "data"@, 0);
    lemma_str_neq("created_at"@, "topic"@, 0);
    lemma_str_neq("created_at"@, "delivery_attempts"@, 0);
    lemma_str_neq("created_at"@, "first_sent_at"@, 0);
    lemma_str_neq("created_at"@, "data"@, 0);
    lemma_str_neq("topic"@, "delivery_attempts"@, 0);
    lemma_str_neq("topic"@, "first_sent_at"@, 0);
    lemma_str_neq("topic"@, "data"@, 0);
    lemma_str_neq("delivery_attempts"@, "data"@, 1);
    lemma_str_neq("delivery_attempts"@, "first_sent_at"@, 0);
    lemma_str_neq("first_sent_at"@, "data"@, 0);
    let fs = Notification::<T>::spec_encode(v)->Obj_0;
    lemma_obj_get_at(fs, 0);
    lemma_obj_get_at(fs, 1);
    lemma_obj_get_at(fs, 2);
    lemma_obj_get_at(fs, 3);
    lemma_obj_get_at(fs, 4);
    lemma_obj_get_at(fs, 5);
    lemma_obj_get_at(fs, 6);
    lemma_obj_get_at(fs, 7);
    let dfs = seq![("item"@, T::spec_encode(v.data))];
    assert(dfs.drop_last() =~= Seq::<(Seq<char>, JsonV)>::empty());
    assert(obj_get(dfs, "item"@) == Some(T::spec_encode(v.data)));
}

} // verus!
