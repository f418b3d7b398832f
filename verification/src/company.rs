//! A second payload type carried by the notification envelope: a company,
//! as some notification topics deliver one.  It exercises the envelope's
//! independence from any concrete payload shape.

use crate::json::{
    encode_attrs, get_attrs, lemma_attrs_roundtrip, req_attrs, spec_encode_attrs, fields_view,
    get_str, lemma_obj_get_at, lemma_str_neq, req_int, req_str, Json, JsonCodec, JsonV,
};
use crate::timestamp::{get_ts, Timestamp};
use vstd::prelude::*;

verus! {

// ---------------------------------------------------------------------------
// Company
// ---------------------------------------------------------------------------
/// A company payload, as carried by one of the notification topics.
#[derive(Debug, PartialEq, Eq)]
pub struct Company {
    pub typ: String,
    pub id: String,
    pub name: String,
    pub company_id: String,
    pub remote_created_at: Timestamp,
    pub created_at: Timestamp,
    pub updated_at: Timestamp,
    pub custom_attributes: Vec<(String, String)>,
}

/// The mathematical value of a `Company`.
#[verifier::ext_equal]
pub ghost struct CompanyV {
    pub typ: Seq<char>,
    pub id: Seq<char>,
    pub name: Seq<char>,
    pub company_id: Seq<char>,
    pub remote_created_at: int,
    pub created_at: int,
    pub updated_at: int,
    pub custom_attributes: Seq<(Seq<char>, Seq<char>)>,
}

impl CompanyV {
    /// Every numeric field fits its machine type, and attribute keys are
    /// unique: true of the view of every decoded value.
    pub open spec fn wf(self) -> bool {
        &&& i64::MIN <= self.remote_created_at <= i64::MAX
        &&& i64::MIN <= self.created_at <= i64::MAX
        &&& i64::MIN <= self.updated_at <= i64::MAX
        &&& forall|i: int, j: int| 0 <= i < j < self.custom_attributes.len() ==> (#[trigger] self.custom_attributes[i]).0 != (#[trigger] self.custom_attributes[j]).0
    }
}

impl DeepView for Company {
    type V = CompanyV;

    open spec fn deep_view(&self) -> CompanyV {
        CompanyV {
            typ: self.typ@,
            id: self.id@,
            name: self.name@,
            company_id: self.company_id@,
            remote_created_at: self.remote_created_at.deep_view(),
            created_at: self.created_at.deep_view(),
            updated_at: self.updated_at.deep_view(),
            custom_attributes: self.custom_attributes.deep_view(),
        }
    }
}

impl JsonCodec for Company {
    open spec fn spec_decode(j: JsonV) -> Option<CompanyV> {
        match j {
            JsonV::Obj(fs) => if req_str(fs, "type"@) is Some
                && req_str(fs, "id"@) is Some
                && req_str(fs, "name"@) is Some
                && req_str(fs, "company_id"@) is Some
                && req_int(fs, "remote_created_at"@) is Some
                && req_int(fs, "created_at"@) is Some
                && req_int(fs, "updated_at"@) is Some
                && req_attrs(fs, "custom_attributes"@) is Some {
                Some(
                    CompanyV {
                        typ: req_str(fs, "type"@)->0,
                        id: req_str(fs, "id"@)->0,
                        name: req_str(fs, "name"@)->0,
                        company_id: req_str(fs, "company_id"@)->0,
                        remote_created_at: req_int(fs, "remote_created_at"@)->0,
                        created_at: req_int(fs, "created_at"@)->0,
                        updated_at: req_int(fs, "updated_at"@)->0,
                        custom_attributes: req_attrs(fs, "custom_attributes"@)->0,
                    },
                )
            } else {
                None
            },
            _ => None,
        }
    }

    open spec fn spec_encode(v: CompanyV) -> JsonV {
        JsonV::Obj(
            seq![
                ("type"@, (JsonV::Str(v.typ))),
                ("id"@, (JsonV::Str(v.id))),
                ("name"@, (JsonV::Str(v.name))),
                ("company_id"@, (JsonV::Str(v.company_id))),
                ("remote_created_at"@, (JsonV::Int(v.remote_created_at))),
                ("created_at"@, (JsonV::Int(v.created_at))),
                ("updated_at"@, (JsonV::Int(v.updated_at))),
                ("custom_attributes"@, (spec_encode_attrs(v.custom_attributes))),
            ],
        )
    }

    fn decode_json(j: &Json) -> (r: Option<Self>) {
        let fields = match j {
            Json::Obj(fs) => fs,
            _ => {
                return None;
            },
        };
        let f_typ = match get_str(fields, "type") {
            Some(x) => x,
            None => {
                return None;
            },
        };
        let f_id = match get_str(fields, "id") {
            Some(x) => x,
            None => {
                return None;
            },
        };
        let f_name = match get_str(fields, "name") {
            Some(x) => x,
            None => {
                return None;
            },
        };
        let f_company_id = match get_str(fields, "company_id") {
            Some(x) => x,
            None => {
                return None;
            },
        };
        let f_remote_created_at = match get_ts(fields, "remote_created_at") {
            Some(x) => x,
            None => {
                return None;
            },
        };
        let f_created_at = match get_ts(fields, "created_at") {
            Some(x) => x,
            None => {
                return None;
            },
        };
        let f_updated_at = match get_ts(fields, "updated_at") {
            Some(x) => x,
            None => {
                return None;
            },
        };
        let f_custom_attributes = match get_attrs(fields, "custom_attributes") {
            Some(x) => x,
            None => {
                return None;
            },
        };
        Some(
            Company {
                typ: f_typ,
                id: f_id,
                name: f_name,
                company_id: f_company_id,
                remote_created_at: f_remote_created_at,
                created_at: f_created_at,
                updated_at: f_updated_at,
                custom_attributes: f_custom_attributes,
            },
        )
    }

    fn encode_json(&self) -> (r: Json) {
        let mut fs: Vec<(String, Json)> = Vec::new();
        fs.push(("type".to_owned(), Json::Str(self.typ.clone())));
        fs.push(("id".to_owned(), Json::Str(self.id.clone())));
        fs.push(("name".to_owned(), Json::Str(self.name.clone())));
        fs.push(("company_id".to_owned(), Json::Str(self.company_id.clone())));
        fs.push(("remote_created_at".to_owned(), Json::Int(self.remote_created_at.secs)));
        fs.push(("created_at".to_owned(), Json::Int(self.created_at.secs)));
        fs.push(("updated_at".to_owned(), Json::Int(self.updated_at.secs)));
        fs.push(("custom_attributes".to_owned(), encode_attrs(&self.custom_attributes)));
        let r = Json::Obj(fs);
        proof {
            assert(fields_view(fs) =~~= Self::spec_encode(self.deep_view())->Obj_0);
            assert(r.deep_view() =~~= Self::spec_encode(self.deep_view()));
        }
        r
    }
}

/// Decoding the encoding of a `Company` value gives it back.
pub proof fn lemma_company_roundtrip(v: CompanyV)
    requires
        v.wf(),
    ensures
        Company::spec_decode(Company::spec_encode(v)) == Some(v),
{
    reveal_strlit("type");
    reveal_strlit("id");
    reveal_strlit("name");
    reveal_strlit("company_id");
    reveal_strlit("remote_created_at");
    reveal_strlit("created_at");
    reveal_strlit("updated_at");
    reveal_strlit("custom_attributes");
    lemma_str_neq("type"@, "id"@, 0);
    lemma_str_neq("type"@, "name"@, 0);
    lemma_str_neq("type"@, "company_id"@, 0);
    lemma_str_neq("type"@, "remote_created_at"@, 0);
    lemma_str_neq("type"@, "created_at"@, 0);
    lemma_str_neq("type"@, "updated_at"@, 0);
    lemma_str_neq("type"@, "custom_attributes"@, 0);
    lemma_str_neq("id"@, "name"@, 0);
    lemma_str_neq("id"@, "company_id"@, 0);
    lemma_str_neq("id"@, "remote_created_at"@, 0);
    lemma_str_neq("id"@, "created_at"@, 0);
    lemma_str_neq("id"@, "updated_at"@, 0);
    lemma_str_neq("id"@, "custom_attributes"@, 0);
    lemma_str_neq("name"@, "company_id"@, 0);
    lemma_str_neq("name"@, "remote_created_at"@, 0);
    lemma_str_neq("name"@, "created_at"@, 0);
    lemma_str_neq("name"@, "updated_at"@, 0);
    lemma_str_neq("name"@, "custom_attributes"@, 0);
    lemma_str_neq("company_id"@, "remote_created_at"@, 0);
    lemma_str_neq("company_id"@, "created_at"@, 1);
    lemma_str_neq("company_id"@, "updated_at"@, 0);
    lemma_str_neq("company_id"@, "custom_attributes"@, 0);
    lemma_str_neq("remote_created_at"@, "created_at"@, 0);
    lemma_str_neq("remote_created_at"@, "updated_at"@, 0);
    lemma_str_neq("remote_created_at"@, "custom_attributes"@, 0);
    lemma_str_neq("created_at"@, "updated_at"@, 0);
    lemma_str_neq("created_at"@, "custom_attributes"@, 0);
    lemma_str_neq("updated_at"@, "custom_attributes"@, 0);
    let fs = Company::spec_encode(v)->Obj_0;
    lemma_obj_get_at(fs, 0);
    lemma_obj_get_at(fs, 1);
    lemma_obj_get_at(fs, 2);
    lemma_obj_get_at(fs, 3);
    lemma_obj_get_at(fs, 4);
    lemma_obj_get_at(fs, 5);
    lemma_obj_get_at(fs, 6);
    lemma_obj_get_at(fs, 7);
    lemma_attrs_roundtrip(v.custom_attributes);
}

} // verus!
