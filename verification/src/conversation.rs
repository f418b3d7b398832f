//! The conversation aggregate: a tree of immutable value objects decoded
//! from one JSON document, with closed enum vocabularies, optional
//! substructures that are present or absent as a whole, and four wrapped
//! collections that fall back to an empty list instead of failing.

use crate::json::{
    encode_attrs, get_attrs, lemma_attrs_roundtrip, req_attrs, spec_encode_attrs,
    fields_view, get_bool, get_codec, get_enum, get_field, get_i32, get_i8, get_list, get_opt_codec,
    get_opt_enum, get_opt_i32, get_opt_str, get_str, get_u32, get_u8, lemma_decode_list_roundtrip,
    lemma_fallback_wrap_roundtrip, lemma_obj_get_at, lemma_str_neq, obj_get, opt_codec, opt_enum, opt_int,
    opt_int_in, opt_str, req_bool, req_codec, req_enum, req_int, req_int_in, req_list, req_str,
    spec_encode_list, spec_fallback_list, spec_wrap_list, str_eq, encode_list, fallback_list,
    wrap_list, Json, JsonCodec, JsonV, WireEnum,
};
use crate::timestamp::{get_opt_ts, get_ts, Timestamp};
use vstd::prelude::*;

verus! {

// ---------------------------------------------------------------------------
// Closed enumerations
// ---------------------------------------------------------------------------
/// The conversation's state.
#[derive(Debug, Clone, Copy, PartialEq, Eq)]
pub enum ConversationState {
    Open,
    Closed,
    Snoozed,
}

impl DeepView for ConversationState {
    type V = ConversationState;

    open spec fn deep_view(&self) -> ConversationState {
        *self
    }
}

impl WireEnum for ConversationState {
    open spec fn spec_from_token(t: Seq<char>) -> Option<Self> {
        if t == "open"@ {
            Some(ConversationState::Open)
        } else if t == "closed"@ {
            Some(ConversationState::Closed)
        } else if t == "snoozed"@ {
            Some(ConversationState::Snoozed)
        } else {
            None
        }
    }

    open spec fn token(self) -> Seq<char> {
        match self {
            ConversationState::Open => "open"@,
            ConversationState::Closed => "closed"@,
            ConversationState::Snoozed => "snoozed"@,
        }
    }

    fn from_token(t: &str) -> (r: Option<Self>) {
        if str_eq(t, "open") {
            Some(ConversationState::Open)
        } else if str_eq(t, "closed") {
            Some(ConversationState::Closed)
        } else if str_eq(t, "snoozed") {
            Some(ConversationState::Snoozed)
        } else {
            None
        }
    }

    fn token_string(&self) -> (r: String) {
        match self {
            ConversationState::Open => "open".to_owned(),
            ConversationState::Closed => "closed".to_owned(),
            ConversationState::Snoozed => "snoozed".to_owned(),
        }
    }
}

/// Each variant's token names that variant and nothing else.
pub proof fn lemma_state_token_roundtrip(v: ConversationState)
    ensures
        ConversationState::spec_from_token(v.token()) == Some(v),
{
    reveal_strlit("open");
    reveal_strlit("closed");
    reveal_strlit("snoozed");
    lemma_str_neq("open"@, "closed"@, 0);
    lemma_str_neq("open"@, "snoozed"@, 0);
    lemma_str_neq("closed"@, "snoozed"@, 0);
}

/// Whether the conversation is marked as a priority.
#[derive(Debug, Clone, Copy, PartialEq, Eq)]
pub enum ConversationPriority {
    Priority,
    NotPriority,
}

impl DeepView for ConversationPriority {
    type V = ConversationPriority;

    open spec fn deep_view(&self) -> ConversationPriority {
        *self
    }
}

impl WireEnum for ConversationPriority {
    open spec fn spec_from_token(t: Seq<char>) -> Option<Self> {
        if t == "priority"@ {
            Some(ConversationPriority::Priority)
        } else if t == "not_priority"@ {
            Some(ConversationPriority::NotPriority)
        } else {
            None
        }
    }

    open spec fn token(self) -> Seq<char> {
        match self {
            ConversationPriority::Priority => "priority"@,
            ConversationPriority::NotPriority => "not_priority"@,
        }
    }

    fn from_token(t: &str) -> (r: Option<Self>) {
        if str_eq(t, "priority") {
            Some(ConversationPriority::Priority)
        } else if str_eq(t, "not_priority") {
            Some(ConversationPriority::NotPriority)
        } else {
            None
        }
    }

    fn token_string(&self) -> (r: String) {
        match self {
            ConversationPriority::Priority => "priority".to_owned(),
            ConversationPriority::NotPriority => "not_priority".to_owned(),
        }
    }
}

/// Each variant's token names that variant and nothing else.
pub proof fn lemma_priority_token_roundtrip(v: ConversationPriority)
    ensures
        ConversationPriority::spec_from_token(v.token()) == Some(v),
{
    reveal_strlit("priority");
    reveal_strlit("not_priority");
    lemma_str_neq("priority"@, "not_priority"@, 0);
}

/// The outcome of an SLA applied to the conversation.
#[derive(Debug, Clone, Copy, PartialEq, Eq)]
pub enum SLAStatus {
    Hit,
    Missed,
    Cancelled,
    Active,
}

impl DeepView for SLAStatus {
    type V = SLAStatus;

    open spec fn deep_view(&self) -> SLAStatus {
        *self
    }
}

impl WireEnum for SLAStatus {
    open spec fn spec_from_token(t: Seq<char>) -> Option<Self> {
        if t == "hit"@ {
            Some(SLAStatus::Hit)
        } else if t == "missed"@ {
            Some(SLAStatus::Missed)
        } else if t == "cancelled"@ {
            Some(SLAStatus::Cancelled)
        } else if t == "active"@ {
            Some(SLAStatus::Active)
        } else {
            None
        }
    }

    open spec fn token(self) -> Seq<char> {
        match self {
            SLAStatus::Hit => "hit"@,
            SLAStatus::Missed => "missed"@,
            SLAStatus::Cancelled => "cancelled"@,
            SLAStatus::Active => "active"@,
        }
    }

    fn from_token(t: &str) -> (r: Option<Self>) {
        if str_eq(t, "hit") {
            Some(SLAStatus::Hit)
        } else if str_eq(t, "missed") {
            Some(SLAStatus::Missed)
        } else if str_eq(t, "cancelled") {
            Some(SLAStatus::Cancelled)
        } else if str_eq(t, "active") {
            Some(SLAStatus::Active)
        } else {
            None
        }
    }

    fn token_string(&self) -> (r: String) {
        match self {
            SLAStatus::Hit => "hit".to_owned(),
            SLAStatus::Missed => "missed".to_owned(),
            SLAStatus::Cancelled => "cancelled".to_owned(),
            SLAStatus::Active => "active".to_owned(),
        }
    }
}

/// Each variant's token names that variant and nothing else.
pub proof fn lemma_sla_status_token_roundtrip(v: SLAStatus)
    ensures
        SLAStatus::spec_from_token(v.token()) == Some(v),
{
    reveal_strlit("hit");
    reveal_strlit("missed");
    reveal_strlit("cancelled");
    reveal_strlit("active");
    lemma_str_neq("hit"@, "missed"@, 0);
    lemma_str_neq("hit"@, "cancelled"@, 0);
    lemma_str_neq("hit"@, "active"@, 0);
    lemma_str_neq("missed"@, "cancelled"@, 0);
    lemma_str_neq("missed"@, "active"@, 0);
    lemma_str_neq("cancelled"@, "active"@, 0);
}

/// The kind of knowledge source an AI agent cited.
#[derive(Debug, Clone, Copy, PartialEq, Eq)]
pub enum ContentType {
    File,
    Article,
    ExternalContent,
    ContentSnippet,
    WorkflowConnectorAction,
}

impl DeepView for ContentType {
    type V = ContentType;

    open spec fn deep_view(&self) -> ContentType {
        *self
    }
}

impl WireEnum for ContentType {
    open spec fn spec_from_token(t: Seq<char>) -> Option<Self> {
        if t == "file"@ {
            Some(ContentType::File)
        } else if t == "article"@ {
            Some(ContentType::Article)
        } else if t == "external_content"@ {
            Some(ContentType::ExternalContent)
        } else if t == "content_snippet"@ {
            Some(ContentType::ContentSnippet)
        } else if t == "workflow_connector_action"@ {
            Some(ContentType::WorkflowConnectorAction)
        } else {
            None
        }
    }

    open spec fn token(self) -> Seq<char> {
        match self {
            ContentType::File => "file"@,
            ContentType::Article => "article"@,
            ContentType::ExternalContent => "external_content"@,
            ContentType::ContentSnippet => "content_snippet"@,
            ContentType::WorkflowConnectorAction => "workflow_connector_action"@,
        }
    }

    fn from_token(t: &str) -> (r: Option<Self>) {
        if str_eq(t, "file") {
            Some(ContentType::File)
        } else if str_eq(t, "article") {
            Some(ContentType::Article)
        } else if str_eq(t, "external_content") {
            Some(ContentType::ExternalContent)
        } else if str_eq(t, "content_snippet") {
            Some(ContentType::ContentSnippet)
        } else if str_eq(t, "workflow_connector_action") {
            Some(ContentType::WorkflowConnectorAction)
        } else {
            None
        }
    }

    fn token_string(&self) -> (r: String) {
        match self {
            ContentType::File => "file".to_owned(),
            ContentType::Article => "article".to_owned(),
            ContentType::ExternalContent => "external_content".to_owned(),
            ContentType::ContentSnippet => "content_snippet".to_owned(),
            ContentType::WorkflowConnectorAction => "workflow_connector_action".to_owned(),
        }
    }
}

/// Each variant's token names that variant and nothing else.
pub proof fn lemma_content_type_token_roundtrip(v: ContentType)
    ensures
        ContentType::spec_from_token(v.token()) == Some(v),
{
    reveal_strlit("file");
    reveal_strlit("article");
    reveal_strlit("external_content");
    reveal_strlit("content_snippet");
    reveal_strlit("workflow_connector_action");
    lemma_str_neq("file"@, "article"@, 0);
    lemma_str_neq("file"@, "external_content"@, 0);
    lemma_str_neq("file"@, "content_snippet"@, 0);
    lemma_str_neq("file"@, "workflow_connector_action"@, 0);
    lemma_str_neq("article"@, "external_content"@, 0);
    lemma_str_neq("article"@, "content_snippet"@, 0);
    lemma_str_neq("article"@, "workflow_connector_action"@, 0);
    lemma_str_neq("external_content"@, "content_snippet"@, 0);
    lemma_str_neq("external_content"@, "workflow_connector_action"@, 0);
    lemma_str_neq("content_snippet"@, "workflow_connector_action"@, 0);
}

/// What kind of automation produced the AI agent's involvement.
#[derive(Debug, Clone, Copy, PartialEq, Eq)]
pub enum SourceType {
    EssentialsPlanSetup,
    Profile,
    Workflow,
    WorkflowPreview,
    FinPreview,
}

impl DeepView for SourceType {
    type V = SourceType;

    open spec fn deep_view(&self) -> SourceType {
        *self
    }
}

impl WireEnum for SourceType {
    open spec fn spec_from_token(t: Seq<char>) -> Option<Self> {
        if t == "essentials_plan_setup"@ {
            Some(SourceType::EssentialsPlanSetup)
        } else if t == "profile"@ {
            Some(SourceType::Profile)
        } else if t == "workflow"@ {
            Some(SourceType::Workflow)
        } else if t == "workflow_preview"@ {
            Some(SourceType::WorkflowPreview)
        } else if t == "fin_preview"@ {
            Some(SourceType::FinPreview)
        } else {
            None
        }
    }

    open spec fn token(self) -> Seq<char> {
        match self {
            SourceType::EssentialsPlanSetup => "essentials_plan_setup"@,
            SourceType::Profile => "profile"@,
            SourceType::Workflow => "workflow"@,
            SourceType::WorkflowPreview => "workflow_preview"@,
            SourceType::FinPreview => "fin_preview"@,
        }
    }

    fn from_token(t: &str) -> (r: Option<Self>) {
        if str_eq(t, "essentials_plan_setup") {
            Some(SourceType::EssentialsPlanSetup)
        } else if str_eq(t, "profile") {
            Some(SourceType::Profile)
        } else if str_eq(t, "workflow") {
            Some(SourceType::Workflow)
        } else if str_eq(t, "workflow_preview") {
            Some(SourceType::WorkflowPreview)
        } else if str_eq(t, "fin_preview") {
            Some(SourceType::FinPreview)
        } else {
            None
        }
    }

    fn token_string(&self) -> (r: String) {
        match self {
            SourceType::EssentialsPlanSetup => "essentials_plan_setup".to_owned(),
            SourceType::Profile => "profile".to_owned(),
            SourceType::Workflow => "workflow".to_owned(),
            SourceType::WorkflowPreview => "workflow_preview".to_owned(),
            SourceType::FinPreview => "fin_preview".to_owned(),
        }
    }
}

/// Each variant's token names that variant and nothing else.
pub proof fn lemma_source_type_token_roundtrip(v: SourceType)
    ensures
        SourceType::spec_from_token(v.token()) == Some(v),
{
    reveal_strlit("essentials_plan_setup");
    reveal_strlit("profile");
    reveal_strlit("workflow");
    reveal_strlit("workflow_preview");
    reveal_strlit("fin_preview");
    lemma_str_neq("essentials_plan_setup"@, "profile"@, 0);
    lemma_str_neq("essentials_plan_setup"@, "workflow"@, 0);
    lemma_str_neq("essentials_plan_setup"@, "workflow_preview"@, 0);
    lemma_str_neq("essentials_plan_setup"@, "fin_preview"@, 0);
    lemma_str_neq("profile"@, "workflow"@, 0);
    lemma_str_neq("profile"@, "workflow_preview"@, 0);
    lemma_str_neq("profile"@, "fin_preview"@, 0);
    lemma_str_neq("workflow"@, "workflow_preview"@, 0);
    lemma_str_neq("workflow"@, "fin_preview"@, 0);
    lemma_str_neq("workflow_preview"@, "fin_preview"@, 0);
}

/// Which kind of answer the AI agent gave last.  The wire token of the
/// AI-answer variant is `ai_answer`, a deviation from the mechanical naming
/// of every other token, so the table here is explicit.
#[derive(Debug, Clone, Copy, PartialEq, Eq)]
pub enum LastAnswerType {
    AIAnswer,
    CustomAnswer,
}

impl DeepView for LastAnswerType {
    type V = LastAnswerType;

    open spec fn deep_view(&self) -> LastAnswerType {
        *self
    }
}

impl WireEnum for LastAnswerType {
    open spec fn spec_from_token(t: Seq<char>) -> Option<Self> {
        if t == "ai_answer"@ {
            Some(LastAnswerType::AIAnswer)
        } else if t == "custom_answer"@ {
            Some(LastAnswerType::CustomAnswer)
        } else {
            None
        }
    }

    open spec fn token(self) -> Seq<char> {
        match self {
            LastAnswerType::AIAnswer => "ai_answer"@,
            LastAnswerType::CustomAnswer => "custom_answer"@,
        }
    }

    fn from_token(t: &str) -> (r: Option<Self>) {
        if str_eq(t, "ai_answer") {
            Some(LastAnswerType::AIAnswer)
        } else if str_eq(t, "custom_answer") {
            Some(LastAnswerType::CustomAnswer)
        } else {
            None
        }
    }

    fn token_string(&self) -> (r: String) {
        match self {
            LastAnswerType::AIAnswer => "ai_answer".to_owned(),
            LastAnswerType::CustomAnswer => "custom_answer".to_owned(),
        }
    }
}

/// Each variant's token names that variant and nothing else.
pub proof fn lemma_last_answer_token_roundtrip(v: LastAnswerType)
    ensures
        LastAnswerType::spec_from_token(v.token()) == Some(v),
{
    reveal_strlit("ai_answer");
    reveal_strlit("custom_answer");
    lemma_str_neq("ai_answer"@, "custom_answer"@, 0);
}

/// How the AI agent's participation ended.
#[derive(Debug, Clone, Copy, PartialEq, Eq)]
pub enum ResolutionState {
    AssumedResolution,
    ConfirmedResolution,
    RoutedToTeam,
    Abandoned,
}

impl DeepView for ResolutionState {
    type V = ResolutionState;

    open spec fn deep_view(&self) -> ResolutionState {
        *self
    }
}

impl WireEnum for ResolutionState {
    open spec fn spec_from_token(t: Seq<char>) -> Option<Self> {
        if t == "assumed_resolution"@ {
            Some(ResolutionState::AssumedResolution)
        } else if t == "confirmed_resolution"@ {
            Some(ResolutionState::ConfirmedResolution)
        } else if t == "routed_to_team"@ {
            Some(ResolutionState::RoutedToTeam)
        } else if t == "abandoned"@ {
            Some(ResolutionState::Abandoned)
        } else {
            None
        }
    }

    open spec fn token(self) -> Seq<char> {
        match self {
            ResolutionState::AssumedResolution => "assumed_resolution"@,
            ResolutionState::ConfirmedResolution => "confirmed_resolution"@,
            ResolutionState::RoutedToTeam => "routed_to_team"@,
            ResolutionState::Abandoned => "abandoned"@,
        }
    }

    fn from_token(t: &str) -> (r: Option<Self>) {
        if str_eq(t, "assumed_resolution") {
            Some(ResolutionState::AssumedResolution)
        } else if str_eq(t, "confirmed_resolution") {
            Some(ResolutionState::ConfirmedResolution)
        } else if str_eq(t, "routed_to_team") {
            Some(ResolutionState::RoutedToTeam)
        } else if str_eq(t, "abandoned") {
            Some(ResolutionState::Abandoned)
        } else {
            None
        }
    }

    fn token_string(&self) -> (r: String) {
        match self {
            ResolutionState::AssumedResolution => "assumed_resolution".to_owned(),
            ResolutionState::ConfirmedResolution => "confirmed_resolution".to_owned(),
            ResolutionState::RoutedToTeam => "routed_to_team".to_owned(),
            ResolutionState::Abandoned => "abandoned".to_owned(),
        }
    }
}

/// Each variant's token names that variant and nothing else.
pub proof fn lemma_resolution_token_roundtrip(v: ResolutionState)
    ensures
        ResolutionState::spec_from_token(v.token()) == Some(v),
{
    reveal_strlit("assumed_resolution");
    reveal_strlit("confirmed_resolution");
    reveal_strlit("routed_to_team");
    reveal_strlit("abandoned");
    lemma_str_neq("assumed_resolution"@, "confirmed_resolution"@, 0);
    lemma_str_neq("assumed_resolution"@, "routed_to_team"@, 0);
    lemma_str_neq("assumed_resolution"@, "abandoned"@, 1);
    lemma_str_neq("confirmed_resolution"@, "routed_to_team"@, 0);
    lemma_str_neq("confirmed_resolution"@, "abandoned"@, 0);
    lemma_str_neq("routed_to_team"@, "abandoned"@, 0);
}

// ---------------------------------------------------------------------------
// Tag
// ---------------------------------------------------------------------------
/// A label applied to the conversation.
#[derive(Debug, PartialEq, Eq)]
pub struct Tag {
    pub typ: String,
    pub id: String,
    pub name: String,
    pub applied_at: Timestamp,
}

/// The mathematical value of a `Tag`.
#[verifier::ext_equal]
pub ghost struct TagV {
    pub typ: Seq<char>,
    pub id: Seq<char>,
    pub name: Seq<char>,
    pub applied_at: int,
}

impl TagV {
    /// Every numeric field fits its machine type, as every decoded value does.
    pub open spec fn wf(self) -> bool {
        i64::MIN <= self.applied_at <= i64::MAX
    }
}

impl DeepView for Tag {
    type V = TagV;

    open spec fn deep_view(&self) -> TagV {
        TagV {
            typ: self.typ@,
            id: self.id@,
            name: self.name@,
            applied_at: self.applied_at.deep_view(),
        }
    }
}

impl JsonCodec for Tag {
    open spec fn spec_decode(j: JsonV) -> Option<TagV> {
        match j {
            JsonV::Obj(fs) => if req_str(fs, "type"@) is Some && req_str(fs, "id"@) is Some
                && req_str(fs, "name"@) is Some && req_int(fs, "applied_at"@) is Some {
                Some(
                    TagV {
                        typ: req_str(fs, "type"@)->0,
                        id: req_str(fs, "id"@)->0,
                        name: req_str(fs, "name"@)->0,
                        applied_at: req_int(fs, "applied_at"@)->0,
                    },
                )
            } else {
                None
            },
            _ => None,
        }
    }

    open spec fn spec_encode(v: TagV) -> JsonV {
        JsonV::Obj(
            seq![
                ("type"@, JsonV::Str(v.typ)),
                ("id"@, JsonV::Str(v.id)),
                ("name"@, JsonV::Str(v.name)),
                ("applied_at"@, JsonV::Int(v.applied_at)),
            ],
        )
    }

    fn decode_json(j: &Json) -> (r: Option<Self>) {
        let fields = match j {
            Json::Obj(fs) => fs,
            _ => {
                return None;
            },
        };
        let typ = match get_str(fields, "type") {
            Some(x) => x,
            None => {
                return None;
            },
        };
        let id = match get_str(fields, "id") {
            Some(x) => x,
            None => {
                return None;
            },
        };
        let name = match get_str(fields, "name") {
            Some(x) => x,
            None => {
                return None;
            },
        };
        let applied_at = match get_ts(fields, "applied_at") {
            Some(x) => x,
            None => {
                return None;
            },
        };
        Some(Tag { typ, id, name, applied_at })
    }

    fn encode_json(&self) -> (r: Json) {
        let mut fs: Vec<(String, Json)> = Vec::new();
        fs.push(("type".to_owned(), Json::Str(self.typ.clone())));
        fs.push(("id".to_owned(), Json::Str(self.id.clone())));
        fs.push(("name".to_owned(), Json::Str(self.name.clone())));
        fs.push(("applied_at".to_owned(), Json::Int(self.applied_at.secs)));
        let r = Json::Obj(fs);
        proof {
            assert(fields_view(fs) =~~= Self::spec_encode(self.deep_view())->Obj_0);
            assert(r.deep_view() =~~= Self::spec_encode(self.deep_view()));
        }
        r
    }
}

/// Decoding the encoding of a tag gives the tag back.
pub proof fn lemma_tag_roundtrip(v: TagV)
    requires
        v.wf(),
    ensures
        Tag::spec_decode(Tag::spec_encode(v)) == Some(v),
{
    reveal_strlit("type");
    reveal_strlit("id");
    reveal_strlit("name");
    reveal_strlit("applied_at");
    lemma_str_neq("type"@, "id"@, 0);
    lemma_str_neq("type"@, "name"@, 0);
    lemma_str_neq("type"@, "applied_at"@, 0);
    lemma_str_neq("id"@, "name"@, 0);
    lemma_str_neq("id"@, "applied_at"@, 0);
    lemma_str_neq("name"@, "applied_at"@, 0);
    let fs = Tag::spec_encode(v)->Obj_0;
    lemma_obj_get_at(fs, 0);
    lemma_obj_get_at(fs, 1);
    lemma_obj_get_at(fs, 2);
    lemma_obj_get_at(fs, 3);
}

// ---------------------------------------------------------------------------
// Reference
// ---------------------------------------------------------------------------
/// A lightweight pointer to another entity, such as a teammate.
#[derive(Debug, PartialEq, Eq)]
pub struct Reference {
    pub typ: String,
    pub id: String,
}

/// The mathematical value of a `Reference`.
#[verifier::ext_equal]
pub ghost struct ReferenceV {
    pub typ: Seq<char>,
    pub id: Seq<char>,
}

impl ReferenceV {
    /// Every numeric field fits its machine type, and attribute keys are
    /// unique: true of the view of every decoded value.
    pub open spec fn wf(self) -> bool {
        true
    }
}

impl DeepView for Reference {
    type V = ReferenceV;

    open spec fn deep_view(&self) -> ReferenceV {
        ReferenceV {
            typ: self.typ@,
            id: self.id@,
        }
    }
}

impl JsonCodec for Reference {
    open spec fn spec_decode(j: JsonV) -> Option<ReferenceV> {
        match j {
            JsonV::Obj(fs) => if req_str(fs, "type"@) is Some
                && req_str(fs, "id"@) is Some {
                Some(
                    ReferenceV {
                        typ: req_str(fs, "type"@)->0,
                        id: req_str(fs, "id"@)->0,
                    },
                )
            } else {
                None
            },
            _ => None,
        }
    }

    open spec fn spec_encode(v: ReferenceV) -> JsonV {
        JsonV::Obj(
            seq![
                ("type"@, (JsonV::Str(v.typ))),
                ("id"@, (JsonV::Str(v.id))),
            ],
        )
    }

    fn decode_json(j: &Json) -> (r: Option<Self>) {
        let fields = match j {
            Json::Obj(fs) => fs,
            _ => {
                return None;
            },
        };
        let f_typ = match get_str(fields, "type") {
            Some(x) => x,
            None => {
                return None;
            },
        };
        let f_id = match get_str(fields, "id") {
            Some(x) => x,
            None => {
                return None;
            },
        };
        Some(
            Reference {
                typ: f_typ,
                id: f_id,
            },
        )
    }

    fn encode_json(&self) -> (r: Json) {
        let mut fs: Vec<(String, Json)> = Vec::new();
        fs.push(("type".to_owned(), Json::Str(self.typ.clone())));
        fs.push(("id".to_owned(), Json::Str(self.id.clone())));
        let r = Json::Obj(fs);
        proof {
            assert(fields_view(fs) =~~= Self::spec_encode(self.deep_view())->Obj_0);
            assert(r.deep_view() =~~= Self::spec_encode(self.deep_view()));
        }
        r
    }
}

/// Decoding the encoding of a `Reference` value gives it back.
pub proof fn lemma_reference_roundtrip(v: ReferenceV)
    requires
        v.wf(),
    ensures
        Reference::spec_decode(Reference::spec_encode(v)) == Some(v),
{
    reveal_strlit("type");
    reveal_strlit("id");
    lemma_str_neq("type"@, "id"@, 0);
    let fs = Reference::spec_encode(v)->Obj_0;
    lemma_obj_get_at(fs, 0);
    lemma_obj_get_at(fs, 1);
}

// ---------------------------------------------------------------------------
// ContactReference
// ---------------------------------------------------------------------------
/// A contact, with an optional external correlation id.
#[derive(Debug, PartialEq, Eq)]
pub struct ContactReference {
    pub reference: Reference,
    pub external_id: Option<String>,
}

/// The mathematical value of a `ContactReference`.
#[verifier::ext_equal]
pub ghost struct ContactReferenceV {
    pub reference: ReferenceV,
    pub external_id: Option<Seq<char>>,
}

impl ContactReferenceV {
    /// Every numeric field fits its machine type, and attribute keys are
    /// unique: true of the view of every decoded value.
    pub open spec fn wf(self) -> bool {
        &&& self.reference.wf()
    }
}

impl DeepView for ContactReference {
    type V = ContactReferenceV;

    open spec fn deep_view(&self) -> ContactReferenceV {
        ContactReferenceV {
            reference: self.reference.deep_view(),
            external_id: self.external_id.deep_view(),
        }
    }
}

impl JsonCodec for ContactReference {
    open spec fn spec_decode(j: JsonV) -> Option<ContactReferenceV> {
        match j {
            JsonV::Obj(fs) => if req_str(fs, "type"@) is Some && req_str(fs, "id"@) is Some
                && opt_str(fs, "external_id"@) is Some {
                Some(
                    ContactReferenceV {
                        reference: ReferenceV { typ: req_str(fs, "type"@)->0, id: req_str(fs, "id"@)->0 },
                        external_id: opt_str(fs, "external_id"@)->0,
                    },
                )
            } else {
                None
            },
            _ => None,
        }
    }

    open spec fn spec_encode(v: ContactReferenceV) -> JsonV {
        JsonV::Obj(
            seq![
                ("type"@, JsonV::Str(v.reference.typ)),
                ("id"@, JsonV::Str(v.reference.id)),
                ("external_id"@, (match v.external_id { Some(s) => JsonV::Str(s), None => JsonV::Null })),
            ],
        )
    }

    fn decode_json(j: &Json) -> (r: Option<Self>) {
        let fields = match j {
            Json::Obj(fs) => fs,
            _ => {
                return None;
            },
        };
        let r_typ = match get_str(fields, "type") {
            Some(x) => x,
            None => {
                return None;
            },
        };
        let r_id = match get_str(fields, "id") {
            Some(x) => x,
            None => {
                return None;
            },
        };
        let f_external_id = match get_opt_str(fields, "external_id") {
            Some(x) => x,
            None => {
                return None;
            },
        };
        Some(
            ContactReference {
                reference: Reference { typ: r_typ, id: r_id },
                external_id: f_external_id,
            },
        )
    }

    fn encode_json(&self) -> (r: Json) {
        let mut fs: Vec<(String, Json)> = Vec::new();
        fs.push(("type".to_owned(), Json::Str(self.reference.typ.clone())));
        fs.push(("id".to_owned(), Json::Str(self.reference.id.clone())));
        fs.push(("external_id".to_owned(), match &self.external_id { Some(s) => Json::Str(s.clone()), None => Json::Null }));
        let r = Json::Obj(fs);
        proof {
            assert(fields_view(fs) =~~= Self::spec_encode(self.deep_view())->Obj_0);
            assert(r.deep_view() =~~= Self::spec_encode(self.deep_view()));
        }
        r
    }
}

/// Decoding the encoding of a `ContactReference` value gives it back.
pub proof fn lemma_contact_reference_roundtrip(v: ContactReferenceV)
    requires
        v.wf(),
    ensures
        ContactReference::spec_decode(ContactReference::spec_encode(v)) == Some(v),
{
    reveal_strlit("type");
    reveal_strlit("id");
    reveal_strlit("external_id");
    lemma_str_neq("type"@, "id"@, 0);
    lemma_str_neq("type"@, "external_id"@, 0);
    lemma_str_neq("id"@, "external_id"@, 0);
    let fs = ContactReference::spec_encode(v)->Obj_0;
    lemma_obj_get_at(fs, 0);
    lemma_obj_get_at(fs, 1);
    lemma_obj_get_at(fs, 2);
}

// ---------------------------------------------------------------------------
// ConversationRating
// ---------------------------------------------------------------------------
/// A post-conversation satisfaction score.
#[derive(Debug, PartialEq, Eq)]
pub struct ConversationRating {
    pub rating: i8,
    pub remark: String,
    pub created_at: Timestamp,
    pub contact: ContactReference,
    pub teammate: Reference,
}

/// The mathematical value of a `ConversationRating`.
#[verifier::ext_equal]
pub ghost struct ConversationRatingV {
    pub rating: int,
    pub remark: Seq<char>,
    pub created_at: int,
    pub contact: ContactReferenceV,
    pub teammate: ReferenceV,
}

impl ConversationRatingV {
    /// Every numeric field fits its machine type, and attribute keys are
    /// unique: true of the view of every decoded value.
    pub open spec fn wf(self) -> bool {
        &&& i8::MIN <= self.rating <= i8::MAX
        &&& i64::MIN <= self.created_at <= i64::MAX
        &&& self.contact.wf()
        &&& self.teammate.wf()
    }
}

impl DeepView for ConversationRating {
    type V = ConversationRatingV;

    open spec fn deep_view(&self) -> ConversationRatingV {
        ConversationRatingV {
            rating: self.rating as int,
            remark: self.remark@,
            created_at: self.created_at.deep_view(),
            contact: self.contact.deep_view(),
            teammate: self.teammate.deep_view(),
        }
    }
}

impl JsonCodec for ConversationRating {
    open spec fn spec_decode(j: JsonV) -> Option<ConversationRatingV> {
        match j {
            JsonV::Obj(fs) => if req_int_in(fs, "rating"@, i8::MIN as int, i8::MAX as int) is Some
                && req_str(fs, "remark"@) is Some
                && req_int(fs, "created_at"@) is Some
                && req_codec::<ContactReference>(fs, "contact"@) is Some
                && req_codec::<Reference>(fs, "teammate"@) is Some {
                Some(
                    ConversationRatingV {
                        rating: req_int_in(fs, "rating"@, i8::MIN as int, i8::MAX as int)->0,
                        remark: req_str(fs, "remark"@)->0,
                        created_at: req_int(fs, "created_at"@)->0,
                        contact: req_codec::<ContactReference>(fs, "contact"@)->0,
                        teammate: req_codec::<Reference>(fs, "teammate"@)->0,
                    },
                )
            } else {
                None
            },
            _ => None,
        }
    }

    open spec fn spec_encode(v: ConversationRatingV) -> JsonV {
        JsonV::Obj(
            seq![
                ("rating"@, (JsonV::Int(v.rating))),
                ("remark"@, (JsonV::Str(v.remark))),
                ("created_at"@, (JsonV::Int(v.created_at))),
                ("contact"@, (ContactReference::spec_encode(v.contact))),
                ("teammate"@, (Reference::spec_encode(v.teammate))),
            ],
        )
    }

    fn decode_json(j: &Json) -> (r: Option<Self>) {
        let fields = match j {
            Json::Obj(fs) => fs,
            _ => {
                return None;
            },
        };
        let f_rating = match get_i8(fields, "rating") {
            Some(x) => x,
            None => {
                return None;
            },
        };
        let f_remark = match get_str(fields, "remark") {
            Some(x) => x,
            None => {
                return None;
            },
        };
        let f_created_at = match get_ts(fields, "created_at") {
            Some(x) => x,
            None => {
                return None;
            },
        };
        let f_contact = match get_codec::<ContactReference>(fields, "contact") {
            Some(x) => x,
            None => {
                return None;
            },
        };
        let f_teammate = match get_codec::<Reference>(fields, "teammate") {
            Some(x) => x,
            None => {
                return None;
            },
        };
        Some(
            ConversationRating {
                rating: f_rating,
                remark: f_remark,
                created_at: f_created_at,
                contact: f_contact,
                teammate: f_teammate,
            },
        )
    }

    fn encode_json(&self) -> (r: Json) {
        let mut fs: Vec<(String, Json)> = Vec::new();
        fs.push(("rating".to_owned(), Json::Int(self.rating as i64)));
        fs.push(("remark".to_owned(), Json::Str(self.remark.clone())));
        fs.push(("created_at".to_owned(), Json::Int(self.created_at.secs)));
        fs.push(("contact".to_owned(), self.contact.encode_json()));
        fs.push(("teammate".to_owned(), self.teammate.encode_json()));
        let r = Json::Obj(fs);
        proof {
            assert(fields_view(fs) =~~= Self::spec_encode(self.deep_view())->Obj_0);
            assert(r.deep_view() =~~= Self::spec_encode(self.deep_view()));
        }
        r
    }
}

/// Decoding the encoding of a `ConversationRating` value gives it back.
pub proof fn lemma_conversation_rating_roundtrip(v: ConversationRatingV)
    requires
        v.wf(),
    ensures
        ConversationRating::spec_decode(ConversationRating::spec_encode(v)) == Some(v),
{
    reveal_strlit("rating");
    reveal_strlit("remark");
    reveal_strlit("created_at");
    reveal_strlit("contact");
    reveal_strlit("teammate");
    lemma_str_neq("rating"@, "remark"@, 1);
    lemma_str_neq("rating"@, "created_at"@, 0);
    lemma_str_neq("rating"@, "contact"@, 0);
    lemma_str_neq("rating"@, "teammate"@, 0);
    lemma_str_neq("remark"@, "created_at"@, 0);
    lemma_str_neq("remark"@, "contact"@, 0);
    lemma_str_neq("remark"@, "teammate"@, 0);
    lemma_str_neq("created_at"@, "contact"@, 0);
    lemma_str_neq("created_at"@, "teammate"@, 0);
    lemma_str_neq("contact"@, "teammate"@, 0);
    let fs = ConversationRating::spec_encode(v)->Obj_0;
    lemma_obj_get_at(fs, 0);
    lemma_obj_get_at(fs, 1);
    lemma_obj_get_at(fs, 2);
    lemma_obj_get_at(fs, 3);
    lemma_obj_get_at(fs, 4);
    lemma_contact_reference_roundtrip(v.contact);
    lemma_reference_roundtrip(v.teammate);
}

// ---------------------------------------------------------------------------
// Author
// ---------------------------------------------------------------------------
/// The originator of the initiating message.
#[derive(Debug, PartialEq, Eq)]
pub struct Author {
    pub typ: String,
    pub id: String,
    pub name: String,
    pub email: String,
}

/// The mathematical value of a `Author`.
#[verifier::ext_equal]
pub ghost struct AuthorV {
    pub typ: Seq<char>,
    pub id: Seq<char>,
    pub name: Seq<char>,
    pub email: Seq<char>,
}

impl AuthorV {
    /// Every numeric field fits its machine type, and attribute keys are
    /// unique: true of the view of every decoded value.
    pub open spec fn wf(self) -> bool {
        true
    }
}

impl DeepView for Author {
    type V = AuthorV;

    open spec fn deep_view(&self) -> AuthorV {
        AuthorV {
            typ: self.typ@,
            id: self.id@,
            name: self.name@,
            email: self.email@,
        }
    }
}

impl JsonCodec for Author {
    open spec fn spec_decode(j: JsonV) -> Option<AuthorV> {
        match j {
            JsonV::Obj(fs) => if req_str(fs, "type"@) is Some
                && req_str(fs, "id"@) is Some
                && req_str(fs, "name"@) is Some
                && req_str(fs, "email"@) is Some {
                Some(
                    AuthorV {
                        typ: req_str(fs, "type"@)->0,
                        id: req_str(fs, "id"@)->0,
                        name: req_str(fs, "name"@)->0,
                        email: req_str(fs, "email"@)->0,
                    },
                )
            } else {
                None
            },
            _ => None,
        }
    }

    open spec fn spec_encode(v: AuthorV) -> JsonV {
        JsonV::Obj(
            seq![
                ("type"@, (JsonV::Str(v.typ))),
                ("id"@, (JsonV::Str(v.id))),
                ("name"@, (JsonV::Str(v.name))),
                ("email"@, (JsonV::Str(v.email))),
            ],
        )
    }

    fn decode_json(j: &Json) -> (r: Option<Self>) {
        let fields = match j {
            Json::Obj(fs) => fs,
            _ => {
                return None;
            },
        };
        let f_typ = match get_str(fields, "type") {
            Some(x) => x,
            None => {
                return None;
            },
        };
        let f_id = match get_str(fields, "id") {
            Some(x) => x,
            None => {
                return None;
            },
        };
        let f_name = match get_str(fields, "name") {
            Some(x) => x,
            None => {
                return None;
            },
        };
        let f_email = match get_str(fields, "email") {
            Some(x) => x,
            None => {
                return None;
            },
        };
        Some(
            Author {
                typ: f_typ,
                id: f_id,
                name: f_name,
                email: f_email,
            },
        )
    }

    fn encode_json(&self) -> (r: Json) {
        let mut fs: Vec<(String, Json)> = Vec::new();
        fs.push(("type".to_owned(), Json::Str(self.typ.clone())));
        fs.push(("id".to_owned(), Json::Str(self.id.clone())));
        fs.push(("name".to_owned(), Json::Str(self.name.clone())));
        fs.push(("email".to_owned(), Json::Str(self.email.clone())));
        let r = Json::Obj(fs);
        proof {
            assert(fields_view(fs) =~~= Self::spec_encode(self.deep_view())->Obj_0);
            assert(r.deep_view() =~~= Self::spec_encode(self.deep_view()));
        }
        r
    }
}

/// Decoding the encoding of an `Author` value gives it back.
pub proof fn lemma_author_roundtrip(v: AuthorV)
    requires
        v.wf(),
    ensures
        Author::spec_decode(Author::spec_encode(v)) == Some(v),
{
    reveal_strlit("type");
    reveal_strlit("id");
    reveal_strlit("name");
    reveal_strlit("email");
    lemma_str_neq("type"@, "id"@, 0);
    lemma_str_neq("type"@, "name"@, 0);
    lemma_str_neq("type"@, "email"@, 0);
    lemma_str_neq("id"@, "name"@, 0);
    lemma_str_neq("id"@, "email"@, 0);
    lemma_str_neq("name"@, "email"@, 0);
    let fs = Author::spec_encode(v)->Obj_0;
    lemma_obj_get_at(fs, 0);
    lemma_obj_get_at(fs, 1);
    lemma_obj_get_at(fs, 2);
    lemma_obj_get_at(fs, 3);
}

// ---------------------------------------------------------------------------
// Attachment
// ---------------------------------------------------------------------------
/// A file attached to the originating message.
#[derive(Debug, PartialEq, Eq)]
pub struct Attachment {
    pub typ: String,
    pub name: String,
    pub url: String,
    pub content_type: String,
    pub filesize: i32,
    pub width: i32,
    pub height: i32,
}

/// The mathematical value of a `Attachment`.
#[verifier::ext_equal]
pub ghost struct AttachmentV {
    pub typ: Seq<char>,
    pub name: Seq<char>,
    pub url: Seq<char>,
    pub content_type: Seq<char>,
    pub filesize: int,
    pub width: int,
    pub height: int,
}

impl AttachmentV {
    /// Every numeric field fits its machine type, and attribute keys are
    /// unique: true of the view of every decoded value.
    pub open spec fn wf(self) -> bool {
        &&& i32::MIN <= self.filesize <= i32::MAX
        &&& i32::MIN <= self.width <= i32::MAX
        &&& i32::MIN <= self.height <= i32::MAX
    }
}

impl DeepView for Attachment {
    type V = AttachmentV;

    open spec fn deep_view(&self) -> AttachmentV {
        AttachmentV {
            typ: self.typ@,
            name: self.name@,
            url: self.url@,
            content_type: self.content_type@,
            filesize: self.filesize as int,
            width: self.width as int,
            height: self.height as int,
        }
    }
}

impl JsonCodec for Attachment {
    open spec fn spec_decode(j: JsonV) -> Option<AttachmentV> {
        match j {
            JsonV::Obj(fs) => if req_str(fs, "type"@) is Some
                && req_str(fs, "name"@) is Some
                && req_str(fs, "url"@) is Some
                && req_str(fs, "content_type"@) is Some
                && req_int_in(fs, "filesize"@, i32::MIN as int, i32::MAX as int) is Some
                && req_int_in(fs, "width"@, i32::MIN as int, i32::MAX as int) is Some
                && req_int_in(fs, "height"@, i32::MIN as int, i32::MAX as int) is Some {
                Some(
                    AttachmentV {
                        typ: req_str(fs, "type"@)->0,
                        name: req_str(fs, "name"@)->0,
                        url: req_str(fs, "url"@)->0,
                        content_type: req_str(fs, "content_type"@)->0,
                        filesize: req_int_in(fs, "filesize"@, i32::MIN as int, i32::MAX as int)->0,
                        width: req_int_in(fs, "width"@, i32::MIN as int, i32::MAX as int)->0,
                        height: req_int_in(fs, "height"@, i32::MIN as int, i32::MAX as int)->0,
                    },
                )
            } else {
                None
            },
            _ => None,
        }
    }

    open spec fn spec_encode(v: AttachmentV) -> JsonV {
        JsonV::Obj(
            seq![
                ("type"@, (JsonV::Str(v.typ))),
                ("name"@, (JsonV::Str(v.name))),
                ("url"@, (JsonV::Str(v.url))),
                ("content_type"@, (JsonV::Str(v.content_type))),
                ("filesize"@, (JsonV::Int(v.filesize))),
                ("width"@, (JsonV::Int(v.width))),
                ("height"@, (JsonV::Int(v.height))),
            ],
        )
    }

    fn decode_json(j: &Json) -> (r: Option<Self>) {
        let fields = match j {
            Json::Obj(fs) => fs,
            _ => {
                return None;
            },
        };
        let f_typ = match get_str(fields, "type") {
            Some(x) => x,
            None => {
                return None;
            },
        };
        let f_name = match get_str(fields, "name") {
            Some(x) => x,
            None => {
                return None;
            },
        };
        let f_url = match get_str(fields, "url") {
            Some(x) => x,
            None => {
                return None;
            },
        };
        let f_content_type = match get_str(fields, "content_type") {
            Some(x) => x,
            None => {
                return None;
            },
        };
        let f_filesize = match get_i32(fields, "filesize") {
            Some(x) => x,
            None => {
                return None;
            },
        };
        let f_width = match get_i32(fields, "width") {
            Some(x) => x,
            None => {
                return None;
            },
        };
        let f_height = match get_i32(fields, "height") {
            Some(x) => x,
            None => {
                return None;
            },
        };
        Some(
            Attachment {
                typ: f_typ,
                name: f_name,
                url: f_url,
                content_type: f_content_type,
                filesize: f_filesize,
                width: f_width,
                height: f_height,
            },
        )
    }

    fn encode_json(&self) -> (r: Json) {
        let mut fs: Vec<(String, Json)> = Vec::new();
        fs.push(("type".to_owned(), Json::Str(self.typ.clone())));
        fs.push(("name".to_owned(), Json::Str(self.name.clone())));
        fs.push(("url".to_owned(), Json::Str(self.url.clone())));
        fs.push(("content_type".to_owned(), Json::Str(self.content_type.clone())));
        fs.push(("filesize".to_owned(), Json::Int(self.filesize as i64)));
        fs.push(("width".to_owned(), Json::Int(self.width as i64)));
        fs.push(("height".to_owned(), Json::Int(self.height as i64)));
        let r = Json::Obj(fs);
        proof {
            assert(fields_view(fs) =~~= Self::spec_encode(self.deep_view())->Obj_0);
            assert(r.deep_view() =~~= Self::spec_encode(self.deep_view()));
        }
        r
    }
}

/// Decoding the encoding of an `Attachment` value gives it back.
pub proof fn lemma_attachment_roundtrip(v: AttachmentV)
    requires
        v.wf(),
    ensures
        Attachment::spec_decode(Attachment::spec_encode(v)) == Some(v),
{
    reveal_strlit("type");
    reveal_strlit("name");
    reveal_strlit("url");
    reveal_strlit("content_type");
    reveal_strlit("filesize");
    reveal_strlit("width");
    reveal_strlit("height");
    lemma_str_neq("type"@, "name"@, 0);
    lemma_str_neq("type"@, "url"@, 0);
    lemma_str_neq("type"@, "content_type"@, 0);
    lemma_str_neq("type"@, "filesize"@, 0);
    lemma_str_neq("type"@, "width"@, 0);
    lemma_str_neq("type"@, "height"@, 0);
    lemma_str_neq("name"@, "url"@, 0);
    lemma_str_neq("name"@, "content_type"@, 0);
    lemma_str_neq("name"@, "filesize"@, 0);
    lemma_str_neq("name"@, "width"@, 0);
    lemma_str_neq("name"@, "height"@, 0);
    lemma_str_neq("url"@, "content_type"@, 0);
    lemma_str_neq("url"@, "filesize"@, 0);
    lemma_str_neq("url"@, "width"@, 0);
    lemma_str_neq("url"@, "height"@, 0);
    lemma_str_neq("content_type"@, "filesize"@, 0);
    lemma_str_neq("content_type"@, "width"@, 0);
    lemma_str_neq("content_type"@, "height"@, 0);
    lemma_str_neq("filesize"@, "width"@, 0);
    lemma_str_neq("filesize"@, "height"@, 0);
    lemma_str_neq("width"@, "height"@, 0);
    let fs = Attachment::spec_encode(v)->Obj_0;
    lemma_obj_get_at(fs, 0);
    lemma_obj_get_at(fs, 1);
    lemma_obj_get_at(fs, 2);
    lemma_obj_get_at(fs, 3);
    lemma_obj_get_at(fs, 4);
    lemma_obj_get_at(fs, 5);
    lemma_obj_get_at(fs, 6);
}

// ---------------------------------------------------------------------------
// ConversationSource
// ---------------------------------------------------------------------------
/// The first message that opened the conversation.
#[derive(Debug, PartialEq, Eq)]
pub struct ConversationSource {
    pub typ: String,
    pub id: String,
    pub delivered_as: String,
    pub subject: String,
    pub body: String,
    pub author: Author,
    pub attachments: Vec<Attachment>,
    pub url: Option<String>,
    pub redacted: bool,
}

/// The mathematical value of a `ConversationSource`.
#[verifier::ext_equal]
pub ghost struct ConversationSourceV {
    pub typ: Seq<char>,
    pub id: Seq<char>,
    pub delivered_as: Seq<char>,
    pub subject: Seq<char>,
    pub body: Seq<char>,
    pub author: AuthorV,
    pub attachments: Seq<AttachmentV>,
    pub url: Option<Seq<char>>,
    pub redacted: bool,
}

impl ConversationSourceV {
    /// Every numeric field fits its machine type, and attribute keys are
    /// unique: true of the view of every decoded value.
    pub open spec fn wf(self) -> bool {
        &&& self.author.wf()
        &&& forall|i: int| 0 <= i < self.attachments.len() ==> (#[trigger] self.attachments[i]).wf()
    }
}

impl DeepView for ConversationSource {
    type V = ConversationSourceV;

    open spec fn deep_view(&self) -> ConversationSourceV {
        ConversationSourceV {
            typ: self.typ@,
            id: self.id@,
            delivered_as: self.delivered_as@,
            subject: self.subject@,
            body: self.body@,
            author: self.author.deep_view(),
            attachments: self.attachments.deep_view(),
            url: self.url.deep_view(),
            redacted: self.redacted,
        }
    }
}

impl JsonCodec for ConversationSource {
    open spec fn spec_decode(j: JsonV) -> Option<ConversationSourceV> {
        match j {
            JsonV::Obj(fs) => if req_str(fs, "type"@) is Some
                && req_str(fs, "id"@) is Some
                && req_str(fs, "delivered_as"@) is Some
                && req_str(fs, "subject"@) is Some
                && req_str(fs, "body"@) is Some
                && req_codec::<Author>(fs, "author"@) is Some
                && req_list::<Attachment>(fs, "attachments"@) is Some
                && opt_str(fs, "url"@) is Some
                && req_bool(fs, "redacted"@) is Some {
                Some(
                    ConversationSourceV {
                        typ: req_str(fs, "type"@)->0,
                        id: req_str(fs, "id"@)->0,
                        delivered_as: req_str(fs, "delivered_as"@)->0,
                        subject: req_str(fs, "subject"@)->0,
                        body: req_str(fs, "body"@)->0,
                        author: req_codec::<Author>(fs, "author"@)->0,
                        attachments: req_list::<Attachment>(fs, "attachments"@)->0,
                        url: opt_str(fs, "url"@)->0,
                        redacted: req_bool(fs, "redacted"@)->0,
                    },
                )
            } else {
                None
            },
            _ => None,
        }
    }

    open spec fn spec_encode(v: ConversationSourceV) -> JsonV {
        JsonV::Obj(
            seq![
                ("type"@, (JsonV::Str(v.typ))),
                ("id"@, (JsonV::Str(v.id))),
                ("delivered_as"@, (JsonV::Str(v.delivered_as))),
                ("subject"@, (JsonV::Str(v.subject))),
                ("body"@, (JsonV::Str(v.body))),
                ("author"@, (Author::spec_encode(v.author))),
                ("attachments"@, (JsonV::Arr(spec_encode_list::<Attachment>(v.attachments)))),
                ("url"@, (match v.url { Some(s) => JsonV::Str(s), None => JsonV::Null })),
                ("redacted"@, (JsonV::Bool(v.redacted))),
            ],
        )
    }

    fn decode_json(j: &Json) -> (r: Option<Self>) {
        let fields = match j {
            Json::Obj(fs) => fs,
            _ => {
                return None;
            },
        };
        let f_typ = match get_str(fields, "type") {
            Some(x) => x,
            None => {
                return None;
            },
        };
        let f_id = match get_str(fields, "id") {
            Some(x) => x,
            None => {
                return None;
            },
        };
        let f_delivered_as = match get_str(fields, "delivered_as") {
            Some(x) => x,
            None => {
                return None;
            },
        };
        let f_subject = match get_str(fields, "subject") {
            Some(x) => x,
            None => {
                return None;
            },
        };
        let f_body = match get_str(fields, "body") {
            Some(x) => x,
            None => {
                return None;
            },
        };
        let f_author = match get_codec::<Author>(fields, "author") {
            Some(x) => x,
            None => {
                return None;
            },
        };
        let f_attachments = match get_list::<Attachment>(fields, "attachments") {
            Some(x) => x,
            None => {
                return None;
            },
        };
        let f_url = match get_opt_str(fields, "url") {
            Some(x) => x,
            None => {
                return None;
            },
        };
        let f_redacted = match get_bool(fields, "redacted") {
            Some(x) => x,
            None => {
                return None;
            },
        };
        Some(
            ConversationSource {
                typ: f_typ,
                id: f_id,
                delivered_as: f_delivered_as,
                subject: f_subject,
                body: f_body,
                author: f_author,
                attachments: f_attachments,
                url: f_url,
                redacted: f_redacted,
            },
        )
    }

    fn encode_json(&self) -> (r: Json) {
        let mut fs: Vec<(String, Json)> = Vec::new();
        fs.push(("type".to_owned(), Json::Str(self.typ.clone())));
        fs.push(("id".to_owned(), Json::Str(self.id.clone())));
        fs.push(("delivered_as".to_owned(), Json::Str(self.delivered_as.clone())));
        fs.push(("subject".to_owned(), Json::Str(self.subject.clone())));
        fs.push(("body".to_owned(), Json::Str(self.body.clone())));
        fs.push(("author".to_owned(), self.author.encode_json()));
        fs.push(("attachments".to_owned(), Json::Arr(encode_list::<Attachment>(&self.attachments))));
        fs.push(("url".to_owned(), match &self.url { Some(s) => Json::Str(s.clone()), None => Json::Null }));
        fs.push(("redacted".to_owned(), Json::Bool(self.redacted)));
        let r = Json::Obj(fs);
        proof {
            assert(fields_view(fs) =~~= Self::spec_encode(self.deep_view())->Obj_0);
            assert(r.deep_view() =~~= Self::spec_encode(self.deep_view()));
        }
        r
    }
}

/// Decoding the encoding of a `ConversationSource` value gives it back.
pub proof fn lemma_source_roundtrip(v: ConversationSourceV)
    requires
        v.wf(),
    ensures
        ConversationSource::spec_decode(ConversationSource::spec_encode(v)) == Some(v),
{
    reveal_strlit("type");
    reveal_strlit("id");
    reveal_strlit("delivered_as");
    reveal_strlit("subject");
    reveal_strlit("body");
    reveal_strlit("author");
    reveal_strlit("attachments");
    reveal_strlit("url");
    reveal_strlit("redacted");
    lemma_str_neq("type"@, "id"@, 0);
    lemma_str_neq("type"@, "delivered_as"@, 0);
    lemma_str_neq("type"@, "subject"@, 0);
    lemma_str_neq("type"@, "body"@, 0);
    lemma_str_neq("type"@, "author"@, 0);
    lemma_str_neq("type"@, "attachments"@, 0);
    lemma_str_neq("type"@, "url"@, 0);
    lemma_str_neq("type"@, "redacted"@, 0);
    lemma_str_neq("id"@, "delivered_as"@, 0);
    lemma_str_neq("id"@, "subject"@, 0);
    lemma_str_neq("id"@, "body"@, 0);
    lemma_str_neq("id"@, "author"@, 0);
    lemma_str_neq("id"@, "attachments"@, 0);
    lemma_str_neq("id"@, "url"@, 0);
    lemma_str_neq("id"@, "redacted"@, 0);
    lemma_str_neq("delivered_as"@, "subject"@, 0);
    lemma_str_neq("delivered_as"@, "body"@, 0);
    lemma_str_neq("delivered_as"@, "author"@, 0);
    lemma_str_neq("delivered_as"@, "attachments"@, 0);
    lemma_str_neq("delivered_as"@, "url"@, 0);
    lemma_str_neq("delivered_as"@, "redacted"@, 0);
    lemma_str_neq("subject"@, "body"@, 0);
    lemma_str_neq("subject"@, "author"@, 0);
    lemma_str_neq("subject"@, "attachments"@, 0);
    lemma_str_neq("subject"@, "url"@, 0);
    lemma_str_neq("subject"@, "redacted"@, 0);
    lemma_str_neq("body"@, "author"@, 0);
    lemma_str_neq("body"@, "attachments"@, 0);
    lemma_str_neq("body"@, "url"@, 0);
    lemma_str_neq("body"@, "redacted"@, 0);
    lemma_str_neq("author"@, "attachments"@, 0);
    lemma_str_neq("author"@, "url"@, 0);
    lemma_str_neq("author"@, "redacted"@, 0);
    lemma_str_neq("attachments"@, "url"@, 0);
    lemma_str_neq("attachments"@, "redacted"@, 0);
    lemma_str_neq("url"@, "redacted"@, 0);
    let fs = ConversationSource::spec_encode(v)->Obj_0;
    lemma_obj_get_at(fs, 0);
    lemma_obj_get_at(fs, 1);
    lemma_obj_get_at(fs, 2);
    lemma_obj_get_at(fs, 3);
    lemma_obj_get_at(fs, 4);
    lemma_obj_get_at(fs, 5);
    lemma_obj_get_at(fs, 6);
    lemma_obj_get_at(fs, 7);
    lemma_obj_get_at(fs, 8);
    lemma_author_roundtrip(v.author);
    assert forall|i: int| 0 <= i < v.attachments.len() implies Attachment::spec_decode(
        Attachment::spec_encode(#[trigger] v.attachments[i]),
    ) == Some(v.attachments[i]) by {
        lemma_attachment_roundtrip(v.attachments[i]);
    }
    lemma_decode_list_roundtrip::<Attachment>(v.attachments);
}

// ---------------------------------------------------------------------------
// FirstContactReply
// ---------------------------------------------------------------------------
/// The first reply, if any, to the initiating contact.
#[derive(Debug, PartialEq, Eq)]
pub struct FirstContactReply {
    pub created_at: Timestamp,
    pub typ: String,
    pub url: Option<String>,
}

/// The mathematical value of a `FirstContactReply`.
#[verifier::ext_equal]
pub ghost struct FirstContactReplyV {
    pub created_at: int,
    pub typ: Seq<char>,
    pub url: Option<Seq<char>>,
}

impl FirstContactReplyV {
    /// Every numeric field fits its machine type, and attribute keys are
    /// unique: true of the view of every decoded value.
    pub open spec fn wf(self) -> bool {
        &&& i64::MIN <= self.created_at <= i64::MAX
    }
}

impl DeepView for FirstContactReply {
    type V = FirstContactReplyV;

    open spec fn deep_view(&self) -> FirstContactReplyV {
        FirstContactReplyV {
            created_at: self.created_at.deep_view(),
            typ: self.typ@,
            url: self.url.deep_view(),
        }
    }
}

impl JsonCodec for FirstContactReply {
    open spec fn spec_decode(j: JsonV) -> Option<FirstContactReplyV> {
        match j {
            JsonV::Obj(fs) => if req_int(fs, "created_at"@) is Some
                && req_str(fs, "type"@) is Some
                && opt_str(fs, "url"@) is Some {
                Some(
                    FirstContactReplyV {
                        created_at: req_int(fs, "created_at"@)->0,
                        typ: req_str(fs, "type"@)->0,
                        url: opt_str(fs, "url"@)->0,
                    },
                )
            } else {
                None
            },
            _ => None,
        }
    }

    open spec fn spec_encode(v: FirstContactReplyV) -> JsonV {
        JsonV::Obj(
            seq![
                ("created_at"@, (JsonV::Int(v.created_at))),
                ("type"@, (JsonV::Str(v.typ))),
                ("url"@, (match v.url { Some(s) => JsonV::Str(s), None => JsonV::Null })),
            ],
        )
    }

    fn decode_json(j: &Json) -> (r: Option<Self>) {
        let fields = match j {
            Json::Obj(fs) => fs,
            _ => {
                return None;
            },
        };
        let f_created_at = match get_ts(fields, "created_at") {
            Some(x) => x,
            None => {
                return None;
            },
        };
        let f_typ = match get_str(fields, "type") {
            Some(x) => x,
            None => {
                return None;
            },
        };
        let f_url = match get_opt_str(fields, "url") {
            Some(x) => x,
            None => {
                return None;
            },
        };
        Some(
            FirstContactReply {
                created_at: f_created_at,
                typ: f_typ,
                url: f_url,
            },
        )
    }

    fn encode_json(&self) -> (r: Json) {
        let mut fs: Vec<(String, Json)> = Vec::new();
        fs.push(("created_at".to_owned(), Json::Int(self.created_at.secs)));
        fs.push(("type".to_owned(), Json::Str(self.typ.clone())));
        fs.push(("url".to_owned(), match &self.url { Some(s) => Json::Str(s.clone()), None => Json::Null }));
        let r = Json::Obj(fs);
        proof {
            assert(fields_view(fs) =~~= Self::spec_encode(self.deep_view())->Obj_0);
            assert(r.deep_view() =~~= Self::spec_encode(self.deep_view()));
        }
        r
    }
}

/// Decoding the encoding of a `FirstContactReply` value gives it back.
pub proof fn lemma_first_contact_reply_roundtrip(v: FirstContactReplyV)
    requires
        v.wf(),
    ensures
        FirstContactReply::spec_decode(FirstContactReply::spec_encode(v)) == Some(v),
{
    reveal_strlit("created_at");
    reveal_strlit("type");
    reveal_strlit("url");
    lemma_str_neq("created_at"@, "type"@, 0);
    lemma_str_neq("created_at"@, "url"@, 0);
    lemma_str_neq("type"@, "url"@, 0);
    let fs = FirstContactReply::spec_encode(v)->Obj_0;
    lemma_obj_get_at(fs, 0);
    lemma_obj_get_at(fs, 1);
    lemma_obj_get_at(fs, 2);
}

// ---------------------------------------------------------------------------
// AppliedSLA
// ---------------------------------------------------------------------------
/// The outcome of an SLA agreement.
#[derive(Debug, PartialEq, Eq)]
pub struct AppliedSLA {
    pub typ: String,
    pub sla_name: String,
    pub sla_status: SLAStatus,
}

/// The mathematical value of a `AppliedSLA`.
#[verifier::ext_equal]
pub ghost struct AppliedSLAV {
    pub typ: Seq<char>,
    pub sla_name: Seq<char>,
    pub sla_status: SLAStatus,
}

impl AppliedSLAV {
    /// Every numeric field fits its machine type, and attribute keys are
    /// unique: true of the view of every decoded value.
    pub open spec fn wf(self) -> bool {
        true
    }
}

impl DeepView for AppliedSLA {
    type V = AppliedSLAV;

    open spec fn deep_view(&self) -> AppliedSLAV {
        AppliedSLAV {
            typ: self.typ@,
            sla_name: self.sla_name@,
            sla_status: self.sla_status,
        }
    }
}

impl JsonCodec for AppliedSLA {
    open spec fn spec_decode(j: JsonV) -> Option<AppliedSLAV> {
        match j {
            JsonV::Obj(fs) => if req_str(fs, "type"@) is Some
                && req_str(fs, "sla_name"@) is Some
                && req_enum::<SLAStatus>(fs, "sla_status"@) is Some {
                Some(
                    AppliedSLAV {
                        typ: req_str(fs, "type"@)->0,
                        sla_name: req_str(fs, "sla_name"@)->0,
                        sla_status: req_enum::<SLAStatus>(fs, "sla_status"@)->0,
                    },
                )
            } else {
                None
            },
            _ => None,
        }
    }

    open spec fn spec_encode(v: AppliedSLAV) -> JsonV {
        JsonV::Obj(
            seq![
                ("type"@, (JsonV::Str(v.typ))),
                ("sla_name"@, (JsonV::Str(v.sla_name))),
                ("sla_status"@, (JsonV::Str(v.sla_status.token()))),
            ],
        )
    }

    fn decode_json(j: &Json) -> (r: Option<Self>) {
        let fields = match j {
            Json::Obj(fs) => fs,
            _ => {
                return None;
            },
        };
        let f_typ = match get_str(fields, "type") {
            Some(x) => x,
            None => {
                return None;
            },
        };
        let f_sla_name = match get_str(fields, "sla_name") {
            Some(x) => x,
            None => {
                return None;
            },
        };
        let f_sla_status = match get_enum::<SLAStatus>(fields, "sla_status") {
            Some(x) => x,
            None => {
                return None;
            },
        };
        Some(
            AppliedSLA {
                typ: f_typ,
                sla_name: f_sla_name,
                sla_status: f_sla_status,
            },
        )
    }

    fn encode_json(&self) -> (r: Json) {
        let mut fs: Vec<(String, Json)> = Vec::new();
        fs.push(("type".to_owned(), Json::Str(self.typ.clone())));
        fs.push(("sla_name".to_owned(), Json::Str(self.sla_name.clone())));
        fs.push(("sla_status".to_owned(), Json::Str(self.sla_status.token_string())));
        let r = Json::Obj(fs);
        proof {
            assert(fields_view(fs) =~~= Self::spec_encode(self.deep_view())->Obj_0);
            assert(r.deep_view() =~~= Self::spec_encode(self.deep_view()));
        }
        r
    }
}

/// Decoding the encoding of an `AppliedSLA` value gives it back.
pub proof fn lemma_applied_sla_roundtrip(v: AppliedSLAV)
    requires
        v.wf(),
    ensures
        AppliedSLA::spec_decode(AppliedSLA::spec_encode(v)) == Some(v),
{
    reveal_strlit("type");
    reveal_strlit("sla_name");
    reveal_strlit("sla_status");
    lemma_str_neq("type"@, "sla_name"@, 0);
    lemma_str_neq("type"@, "sla_status"@, 0);
    lemma_str_neq("sla_name"@, "sla_status"@, 0);
    let fs = AppliedSLA::spec_encode(v)->Obj_0;
    lemma_obj_get_at(fs, 0);
    lemma_obj_get_at(fs, 1);
    lemma_obj_get_at(fs, 2);
    lemma_sla_status_token_roundtrip(v.sla_status);
}

// ---------------------------------------------------------------------------
// Statistics
// ---------------------------------------------------------------------------
/// Aggregate timing and count metrics for the conversation.
#[derive(Debug, PartialEq, Eq)]
pub struct Statistics {
    pub typ: String,
    pub time_to_assignment: u32,
    pub time_to_admin_reply: u32,
    pub time_to_first_close: u32,
    pub time_to_last_close: u32,
    pub median_time_to_reply: u32,
    pub first_contact_reply_at: Timestamp,
    pub first_assignment_at: Timestamp,
    pub first_admin_reply_at: Timestamp,
    pub first_close_at: Timestamp,
    pub last_assignment_at: Timestamp,
    pub last_assignment_admin_reply_at: Timestamp,
    pub last_contact_reply_at: Timestamp,
    pub last_admin_reply_at: Timestamp,
    pub last_close_at: Timestamp,
    pub last_closed_by_id: String,
    pub count_reopens: i32,
    pub count_assignments: i32,
    pub count_conversation_parts: i32,
}

/// The mathematical value of a `Statistics`.
#[verifier::ext_equal]
pub ghost struct StatisticsV {
    pub typ: Seq<char>,
    pub time_to_assignment: int,
    pub time_to_admin_reply: int,
    pub time_to_first_close: int,
    pub time_to_last_close: int,
    pub median_time_to_reply: int,
    pub first_contact_reply_at: int,
    pub first_assignment_at: int,
    pub first_admin_reply_at: int,
    pub first_close_at: int,
    pub last_assignment_at: int,
    pub last_assignment_admin_reply_at: int,
    pub last_contact_reply_at: int,
    pub last_admin_reply_at: int,
    pub last_close_at: int,
    pub last_closed_by_id: Seq<char>,
    pub count_reopens: int,
    pub count_assignments: int,
    pub count_conversation_parts: int,
}

impl StatisticsV {
    /// Every numeric field fits its machine type, and attribute keys are
    /// unique: true of the view of every decoded value.
    pub open spec fn wf(self) -> bool {
        &&& 0 <= self.time_to_assignment <= u32::MAX
        &&& 0 <= self.time_to_admin_reply <= u32::MAX
        &&& 0 <= self.time_to_first_close <= u32::MAX
        &&& 0 <= self.time_to_last_close <= u32::MAX
        &&& 0 <= self.median_time_to_reply <= u32::MAX
        &&& i64::MIN <= self.first_contact_reply_at <= i64::MAX
        &&& i64::MIN <= self.first_assignment_at <= i64::MAX
        &&& i64::MIN <= self.first_admin_reply_at <= i64::MAX
        &&& i64::MIN <= self.first_close_at <= i64::MAX
        &&& i64::MIN <= self.last_assignment_at <= i64::MAX
        &&& i64::MIN <= self.last_assignment_admin_reply_at <= i64::MAX
        &&& i64::MIN <= self.last_contact_reply_at <= i64::MAX
        &&& i64::MIN <= self.last_admin_reply_at <= i64::MAX
        &&& i64::MIN <= self.last_close_at <= i64::MAX
        &&& i32::MIN <= self.count_reopens <= i32::MAX
        &&& i32::MIN <= self.count_assignments <= i32::MAX
        &&& i32::MIN <= self.count_conversation_parts <= i32::MAX
    }
}

impl DeepView for Statistics {
    type V = StatisticsV;

    open spec fn deep_view(&self) -> StatisticsV {
        StatisticsV {
            typ: self.typ@,
            time_to_assignment: self.time_to_assignment as int,
            time_to_admin_reply: self.time_to_admin_reply as int,
            time_to_first_close: self.time_to_first_close as int,
            time_to_last_close: self.time_to_last_close as int,
            median_time_to_reply: self.median_time_to_reply as int,
            first_contact_reply_at: self.first_contact_reply_at.deep_view(),
            first_assignment_at: self.first_assignment_at.deep_view(),
            first_admin_reply_at: self.first_admin_reply_at.deep_view(),
            first_close_at: self.first_close_at.deep_view(),
            last_assignment_at: self.last_assignment_at.deep_view(),
            last_assignment_admin_reply_at: self.last_assignment_admin_reply_at.deep_view(),
            last_contact_reply_at: self.last_contact_reply_at.deep_view(),
            last_admin_reply_at: self.last_admin_reply_at.deep_view(),
            last_close_at: self.last_close_at.deep_view(),
            last_closed_by_id: self.last_closed_by_id@,
            count_reopens: self.count_reopens as int,
            count_assignments: self.count_assignments as int,
            count_conversation_parts: self.count_conversation_parts as int,
        }
    }
}

impl JsonCodec for Statistics {
    open spec fn spec_decode(j: JsonV) -> Option<StatisticsV> {
        match j {
            JsonV::Obj(fs) => if req_str(fs, "type"@) is Some
                && req_int_in(fs, "time_to_assignment"@, 0, u32::MAX as int) is Some
                && req_int_in(fs, "time_to_admin_reply"@, 0, u32::MAX as int) is Some
                && req_int_in(fs, "time_to_first_close"@, 0, u32::MAX as int) is Some
                && req_int_in(fs, "time_to_last_close"@, 0, u32::MAX as int) is Some
                && req_int_in(fs, "median_time_to_reply"@, 0, u32::MAX as int) is Some
                && req_int(fs, "first_contact_reply_at"@) is Some
                && req_int(fs, "first_assignment_at"@) is Some
                && req_int(fs, "first_admin_reply_at"@) is Some
                && req_int(fs, "first_close_at"@) is Some
                && req_int(fs, "last_assignment_at"@) is Some
                && req_int(fs, "last_assignment_admin_reply_at"@) is Some
                && req_int(fs, "last_contact_reply_at"@) is Some
                && req_int(fs, "last_admin_reply_at"@) is Some
                && req_int(fs, "last_close_at"@) is Some
                && req_str(fs, "last_closed_by_id"@) is Some
                && req_int_in(fs, "count_reopens"@, i32::MIN as int, i32::MAX as int) is Some
                && req_int_in(fs, "count_assignments"@, i32::MIN as int, i32::MAX as int) is Some
                && req_int_in(fs, "count_conversation_parts"@, i32::MIN as int, i32::MAX as int) is Some {
                Some(
                    StatisticsV {
                        typ: req_str(fs, "type"@)->0,
                        time_to_assignment: req_int_in(fs, "time_to_assignment"@, 0, u32::MAX as int)->0,
                        time_to_admin_reply: req_int_in(fs, "time_to_admin_reply"@, 0, u32::MAX as int)->0,
                        time_to_first_close: req_int_in(fs, "time_to_first_close"@, 0, u32::MAX as int)->0,
                        time_to_last_close: req_int_in(fs, "time_to_last_close"@, 0, u32::MAX as int)->0,
                        median_time_to_reply: req_int_in(fs, "median_time_to_reply"@, 0, u32::MAX as int)->0,
                        first_contact_reply_at: req_int(fs, "first_contact_reply_at"@)->0,
                        first_assignment_at: req_int(fs, "first_assignment_at"@)->0,
                        first_admin_reply_at: req_int(fs, "first_admin_reply_at"@)->0,
                        first_close_at: req_int(fs, "first_close_at"@)->0,
                        last_assignment_at: req_int(fs, "last_assignment_at"@)->0,
                        last_assignment_admin_reply_at: req_int(fs, "last_assignment_admin_reply_at"@)->0,
                        last_contact_reply_at: req_int(fs, "last_contact_reply_at"@)->0,
                        last_admin_reply_at: req_int(fs, "last_admin_reply_at"@)->0,
                        last_close_at: req_int(fs, "last_close_at"@)->0,
                        last_closed_by_id: req_str(fs, "last_closed_by_id"@)->0,
                        count_reopens: req_int_in(fs, "count_reopens"@, i32::MIN as int, i32::MAX as int)->0,
                        count_assignments: req_int_in(fs, "count_assignments"@, i32::MIN as int, i32::MAX as int)->0,
                        count_conversation_parts: req_int_in(fs, "count_conversation_parts"@, i32::MIN as int, i32::MAX as int)->0,
                    },
                )
            } else {
                None
            },
            _ => None,
        }
    }

    open spec fn spec_encode(v: StatisticsV) -> JsonV {
        JsonV::Obj(
            seq![
                ("type"@, (JsonV::Str(v.typ))),
                ("time_to_assignment"@, (JsonV::Int(v.time_to_assignment))),
                ("time_to_admin_reply"@, (JsonV::Int(v.time_to_admin_reply))),
                ("time_to_first_close"@, (JsonV::Int(v.time_to_first_close))),
                ("time_to_last_close"@, (JsonV::Int(v.time_to_last_close))),
                ("median_time_to_reply"@, (JsonV::Int(v.median_time_to_reply))),
                ("first_contact_reply_at"@, (JsonV::Int(v.first_contact_reply_at))),
                ("first_assignment_at"@, (JsonV::Int(v.first_assignment_at))),
                ("first_admin_reply_at"@, (JsonV::Int(v.first_admin_reply_at))),
                ("first_close_at"@, (JsonV::Int(v.first_close_at))),
                ("last_assignment_at"@, (JsonV::Int(v.last_assignment_at))),
                ("last_assignment_admin_reply_at"@, (JsonV::Int(v.last_assignment_admin_reply_at))),
                ("last_contact_reply_at"@, (JsonV::Int(v.last_contact_reply_at))),
                ("last_admin_reply_at"@, (JsonV::Int(v.last_admin_reply_at))),
                ("last_close_at"@, (JsonV::Int(v.last_close_at))),
                ("last_closed_by_id"@, (JsonV::Str(v.last_closed_by_id))),
                ("count_reopens"@, (JsonV::Int(v.count_reopens))),
                ("count_assignments"@, (JsonV::Int(v.count_assignments))),
                ("count_conversation_parts"@, (JsonV::Int(v.count_conversation_parts))),
            ],
        )
    }

    fn decode_json(j: &Json) -> (r: Option<Self>) {
        let fields = match j {
            Json::Obj(fs) => fs,
            _ => {
                return None;
            },
        };
        let f_typ = match get_str(fields, "type") {
            Some(x) => x,
            None => {
                return None;
            },
        };
        let f_time_to_assignment = match get_u32(fields, "time_to_assignment") {
            Some(x) => x,
            None => {
                return None;
            },
        };
        let f_time_to_admin_reply = match get_u32(fields, "time_to_admin_reply") {
            Some(x) => x,
            None => {
                return None;
            },
        };
        let f_time_to_first_close = match get_u32(fields, "time_to_first_close") {
            Some(x) => x,
            None => {
                return None;
            },
        };
        let f_time_to_last_close = match get_u32(fields, "time_to_last_close") {
            Some(x) => x,
            None => {
                return None;
            },
        };
        let f_median_time_to_reply = match get_u32(fields, "median_time_to_reply") {
            Some(x) => x,
            None => {
                return None;
            },
        };
        let f_first_contact_reply_at = match get_ts(fields, "first_contact_reply_at") {
            Some(x) => x,
            None => {
                return None;
            },
        };
        let f_first_assignment_at = match get_ts(fields, "first_assignment_at") {
            Some(x) => x,
            None => {
                return None;
            },
        };
        let f_first_admin_reply_at = match get_ts(fields, "first_admin_reply_at") {
            Some(x) => x,
            None => {
                return None;
            },
        };
        let f_first_close_at = match get_ts(fields, "first_close_at") {
            Some(x) => x,
            None => {
                return None;
            },
        };
        let f_last_assignment_at = match get_ts(fields, "last_assignment_at") {
            Some(x) => x,
            None => {
                return None;
            },
        };
        let f_last_assignment_admin_reply_at = match get_ts(fields, "last_assignment_admin_reply_at") {
            Some(x) => x,
            None => {
                return None;
            },
        };
        let f_last_contact_reply_at = match get_ts(fields, "last_contact_reply_at") {
            Some(x) => x,
            None => {
                return None;
            },
        };
        let f_last_admin_reply_at = match get_ts(fields, "last_admin_reply_at") {
            Some(x) => x,
            None => {
                return None;
            },
        };
        let f_last_close_at = match get_ts(fields, "last_close_at") {
            Some(x) => x,
            None => {
                return None;
            },
        };
        let f_last_closed_by_id = match get_str(fields, "last_closed_by_id") {
            Some(x) => x,
            None => {
                return None;
            },
        };
        let f_count_reopens = match get_i32(fields, "count_reopens") {
            Some(x) => x,
            None => {
                return None;
            },
        };
        let f_count_assignments = match get_i32(fields, "count_assignments") {
            Some(x) => x,
            None => {
                return None;
            },
        };
        let f_count_conversation_parts = match get_i32(fields, "count_conversation_parts") {
            Some(x) => x,
            None => {
                return None;
            },
        };
        Some(
            Statistics {
                typ: f_typ,
                time_to_assignment: f_time_to_assignment,
                time_to_admin_reply: f_time_to_admin_reply,
                time_to_first_close: f_time_to_first_close,
                time_to_last_close: f_time_to_last_close,
                median_time_to_reply: f_median_time_to_reply,
                first_contact_reply_at: f_first_contact_reply_at,
                first_assignment_at: f_first_assignment_at,
                first_admin_reply_at: f_first_admin_reply_at,
                first_close_at: f_first_close_at,
                last_assignment_at: f_last_assignment_at,
                last_assignment_admin_reply_at: f_last_assignment_admin_reply_at,
                last_contact_reply_at: f_last_contact_reply_at,
                last_admin_reply_at: f_last_admin_reply_at,
                last_close_at: f_last_close_at,
                last_closed_by_id: f_last_closed_by_id,
                count_reopens: f_count_reopens,
                count_assignments: f_count_assignments,
                count_conversation_parts: f_count_conversation_parts,
            },
        )
    }

    fn encode_json(&self) -> (r: Json) {
        let mut fs: Vec<(String, Json)> = Vec::new();
        fs.push(("type".to_owned(), Json::Str(self.typ.clone())));
        fs.push(("time_to_assignment".to_owned(), Json::Int(self.time_to_assignment as i64)));
        fs.push(("time_to_admin_reply".to_owned(), Json::Int(self.time_to_admin_reply as i64)));
        fs.push(("time_to_first_close".to_owned(), Json::Int(self.time_to_first_close as i64)));
        fs.push(("time_to_last_close".to_owned(), Json::Int(self.time_to_last_close as i64)));
        fs.push(("median_time_to_reply".to_owned(), Json::Int(self.median_time_to_reply as i64)));
        fs.push(("first_contact_reply_at".to_owned(), Json::Int(self.first_contact_reply_at.secs)));
        fs.push(("first_assignment_at".to_owned(), Json::Int(self.first_assignment_at.secs)));
        fs.push(("first_admin_reply_at".to_owned(), Json::Int(self.first_admin_reply_at.secs)));
        fs.push(("first_close_at".to_owned(), Json::Int(self.first_close_at.secs)));
        fs.push(("last_assignment_at".to_owned(), Json::Int(self.last_assignment_at.secs)));
        fs.push(("last_assignment_admin_reply_at".to_owned(), Json::Int(self.last_assignment_admin_reply_at.secs)));
        fs.push(("last_contact_reply_at".to_owned(), Json::Int(self.last_contact_reply_at.secs)));
        fs.push(("last_admin_reply_at".to_owned(), Json::Int(self.last_admin_reply_at.secs)));
        fs.push(("last_close_at".to_owned(), Json::Int(self.last_close_at.secs)));
        fs.push(("last_closed_by_id".to_owned(), Json::Str(self.last_closed_by_id.clone())));
        fs.push(("count_reopens".to_owned(), Json::Int(self.count_reopens as i64)));
        fs.push(("count_assignments".to_owned(), Json::Int(self.count_assignments as i64)));
        fs.push(("count_conversation_parts".to_owned(), Json::Int(self.count_conversation_parts as i64)));
        let r = Json::Obj(fs);
        proof {
            assert(fields_view(fs) =~~= Self::spec_encode(self.deep_view())->Obj_0);
            assert(r.deep_view() =~~= Self::spec_encode(self.deep_view()));
        }
        r
    }
}

/// Decoding the encoding of a `Statistics` value gives it back.
pub proof fn lemma_statistics_roundtrip(v: StatisticsV)
    requires
        v.wf(),
    ensures
        Statistics::spec_decode(Statistics::spec_encode(v)) == Some(v),
{
    reveal_strlit("type");
    reveal_strlit("time_to_assignment");
    reveal_strlit("time_to_admin_reply");
    reveal_strlit("time_to_first_close");
    reveal_strlit("time_to_last_close");
    reveal_strlit("median_time_to_reply");
    reveal_strlit("first_contact_reply_at");
    reveal_strlit("first_assignment_at");
    reveal_strlit("first_admin_reply_at");
    reveal_strlit("first_close_at");
    reveal_strlit("last_assignment_at");
    reveal_strlit("last_assignment_admin_reply_at");
    reveal_strlit("last_contact_reply_at");
    reveal_strlit("last_admin_reply_at");
    reveal_strlit("last_close_at");
    reveal_strlit("last_closed_by_id");
    reveal_strlit("count_reopens");
    reveal_strlit("count_assignments");
    reveal_strlit("count_conversation_parts");
    lemma_str_neq("type"@, "time_to_assignment"@, 0);
    lemma_str_neq("type"@, "time_to_admin_reply"@, 0);
    lemma_str_neq("type"@, "time_to_first_close"@, 0);
    lemma_str_neq("type"@, "time_to_last_close"@, 0);
    lemma_str_neq("type"@, "median_time_to_reply"@, 0);
    lemma_str_neq("type"@, "first_contact_reply_at"@, 0);
    lemma_str_neq("type"@, "first_assignment_at"@, 0);
    lemma_str_neq("type"@, "first_admin_reply_at"@, 0);
    lemma_str_neq("type"@, "first_close_at"@, 0);
    lemma_str_neq("type"@, "last_assignment_at"@, 0);
    lemma_str_neq("type"@, "last_assignment_admin_reply_at"@, 0);
    lemma_str_neq("type"@, "last_contact_reply_at"@, 0);
    lemma_str_neq("type"@, "last_admin_reply_at"@, 0);
    lemma_str_neq("type"@, "last_close_at"@, 0);
    lemma_str_neq("type"@, "last_closed_by_id"@, 0);
    lemma_str_neq("type"@, "count_reopens"@, 0);
    lemma_str_neq("type"@, "count_assignments"@, 0);
    lemma_str_neq("type"@, "count_conversation_parts"@, 0);
    lemma_str_neq("time_to_assignment"@, "time_to_admin_reply"@, 0);
    lemma_str_neq("time_to_assignment"@, "time_to_first_close"@, 0);
    lemma_str_neq("time_to_assignment"@, "time_to_last_close"@, 8);
    lemma_str_neq("time_to_assignment"@, "median_time_to_reply"@, 0);
    lemma_str_neq("time_to_assignment"@, "first_contact_reply_at"@, 0);
    lemma_str_neq("time_to_assignment"@, "first_assignment_at"@, 0);
    lemma_str_neq("time_to_assignment"@, "first_admin_reply_at"@, 0);
    lemma_str_neq("time_to_assignment"@, "first_close_at"@, 0);
    lemma_str_neq("time_to_assignment"@, "last_assignment_at"@, 0);
    lemma_str_neq("time_to_assignment"@, "last_assignment_admin_reply_at"@, 0);
    lemma_str_neq("time_to_assignment"@, "last_contact_reply_at"@, 0);
    lemma_str_neq("time_to_assignment"@, "last_admin_reply_at"@, 0);
    lemma_str_neq("time_to_assignment"@, "last_close_at"@, 0);
    lemma_str_neq("time_to_assignment"@, "last_closed_by_id"@, 0);
    lemma_str_neq("time_to_assignment"@, "count_reopens"@, 0);
    lemma_str_neq("time_to_assignment"@, "count_assignments"@, 0);
    lemma_str_neq("time_to_assignment"@, "count_conversation_parts"@, 0);
    lemma_str_neq("time_to_admin_reply"@, "time_to_first_close"@, 8);
    lemma_str_neq("time_to_admin_reply"@, "time_to_last_close"@, 0);
    lemma_str_neq("time_to_admin_reply"@, "median_time_to_reply"@, 0);
    lemma_str_neq("time_to_admin_reply"@, "first_contact_reply_at"@, 0);
    lemma_str_neq("time_to_admin_reply"@, "first_assignment_at"@, 0);
    lemma_str_neq("time_to_admin_reply"@, "first_admin_reply_at"@, 0);
    lemma_str_neq("time_to_admin_reply"@, "first_close_at"@, 0);
    lemma_str_neq("time_to_admin_reply"@, "last_assignment_at"@, 0);
    lemma_str_neq("time_to_admin_reply"@, "last_assignment_admin_reply_at"@, 0);
    lemma_str_neq("time_to_admin_reply"@, "last_contact_reply_at"@, 0);
    lemma_str_neq("time_to_admin_reply"@, "last_admin_reply_at"@, 0);
    lemma_str_neq("time_to_admin_reply"@, "last_close_at"@, 0);
    lemma_str_neq("time_to_admin_reply"@, "last_closed_by_id"@, 0);
    lemma_str_neq("time_to_admin_reply"@, "count_reopens"@, 0);
    lemma_str_neq("time_to_admin_reply"@, "count_assignments"@, 0);
    lemma_str_neq("time_to_admin_reply"@, "count_conversation_parts"@, 0);
    lemma_str_neq("time_to_first_close"@, "time_to_last_close"@, 0);
    lemma_str_neq("time_to_first_close"@, "median_time_to_reply"@, 0);
    lemma_str_neq("time_to_first_close"@, "first_contact_reply_at"@, 0);
    lemma_str_neq("time_to_first_close"@, "first_assignment_at"@, 0);
    lemma_str_neq("time_to_first_close"@, "first_admin_reply_at"@, 0);
    lemma_str_neq("time_to_first_close"@, "first_close_at"@, 0);
    lemma_str_neq("time_to_first_close"@, "last_assignment_at"@, 0);
    lemma_str_neq("time_to_first_close"@, "last_assignment_admin_reply_at"@, 0);
    lemma_str_neq("time_to_first_close"@, "last_contact_reply_at"@, 0);
    lemma_str_neq("time_to_first_close"@, "last_admin_reply_at"@, 0);
    lemma_str_neq("time_to_first_close"@, "last_close_at"@, 0);
    lemma_str_neq("time_to_first_close"@, "last_closed_by_id"@, 0);
    lemma_str_neq("time_to_first_close"@, "count_reopens"@, 0);
    lemma_str_neq("time_to_first_close"@, "count_assignments"@, 0);
    lemma_str_neq("time_to_first_close"@, "count_conversation_parts"@, 0);
    lemma_str_neq("time_to_last_close"@, "median_time_to_reply"@, 0);
    lemma_str_neq("time_to_last_close"@, "first_contact_reply_at"@, 0);
    lemma_str_neq("time_to_last_close"@, "first_assignment_at"@, 0);
    lemma_str_neq("time_to_last_close"@, "first_admin_reply_at"@, 0);
    lemma_str_neq("time_to_last_close"@, "first_close_at"@, 0);
    lemma_str_neq("time_to_last_close"@, "last_assignment_at"@, 0);
    lemma_str_neq("time_to_last_close"@, "last_assignment_admin_reply_at"@, 0);
    lemma_str_neq("time_to_last_close"@, "last_contact_reply_at"@, 0);
    lemma_str_neq("time_to_last_close"@, "last_admin_reply_at"@, 0);
    lemma_str_neq("time_to_last_close"@, "last_close_at"@, 0);
    lemma_str_neq("time_to_last_close"@, "last_closed_by_id"@, 0);
    lemma_str_neq("time_to_last_close"@, "count_reopens"@, 0);
    lemma_str_neq("time_to_last_close"@, "count_assignments"@, 0);
    lemma_str_neq("time_to_last_close"@, "count_conversation_parts"@, 0);
    lemma_str_neq("median_time_to_reply"@, "first_contact_reply_at"@, 0);
    lemma_str_neq("median_time_to_reply"@, "first_assignment_at"@, 0);
    lemma_str_neq("median_time_to_reply"@, "first_admin_reply_at"@, 0);
    lemma_str_neq("median_time_to_reply"@, "first_close_at"@, 0);
    lemma_str_neq("median_time_to_reply"@, "last_assignment_at"@, 0);
    lemma_str_neq("median_time_to_reply"@, "last_assignment_admin_reply_at"@, 0);
    lemma_str_neq("median_time_to_reply"@, "last_contact_reply_at"@, 0);
    lemma_str_neq("median_time_to_reply"@, "last_admin_reply_at"@, 0);
    lemma_str_neq("median_time_to_reply"@, "last_close_at"@, 0);
    lemma_str_neq("median_time_to_reply"@, "last_closed_by_id"@, 0);
    lemma_str_neq("median_time_to_reply"@, "count_reopens"@, 0);
    lemma_str_neq("median_time_to_reply"@, "count_assignments"@, 0);
    lemma_str_neq("median_time_to_reply"@, "count_conversation_parts"@, 0);
    lemma_str_neq("first_contact_reply_at"@, "first_assignment_at"@, 0);
    lemma_str_neq("first_contact_reply_at"@, "first_admin_reply_at"@, 0);
    lemma_str_neq("first_contact_reply_at"@, "first_close_at"@, 0);
    lemma_str_neq("first_contact_reply_at"@, "last_assignment_at"@, 0);
    lemma_str_neq("first_contact_reply_at"@, "last_assignment_admin_reply_at"@, 0);
    lemma_str_neq("first_contact_reply_at"@, "last_contact_reply_at"@, 0);
    lemma_str_neq("first_contact_reply_at"@, "last_admin_reply_at"@, 0);
    lemma_str_neq("first_contact_reply_at"@, "last_close_at"@, 0);
    lemma_str_neq("first_contact_reply_at"@, "last_closed_by_id"@, 0);
    lemma_str_neq("first_contact_reply_at"@, "count_reopens"@, 0);
    lemma_str_neq("first_contact_reply_at"@, "count_assignments"@, 0);
    lemma_str_neq("first_contact_reply_at"@, "count_conversation_parts"@, 0);
    lemma_str_neq("first_assignment_at"@, "first_admin_reply_at"@, 0);
    lemma_str_neq("first_assignment_at"@, "first_close_at"@, 0);
    lemma_str_neq("first_assignment_at"@, "last_assignment_at"@, 0);
    lemma_str_neq("first_assignment_at"@, "last_assignment_admin_reply_at"@, 0);
    lemma_str_neq("first_assignment_at"@, "last_contact_reply_at"@, 0);
    lemma_str_neq("first_assignment_at"@, "last_admin_reply_at"@, 0);
    lemma_str_neq("first_assignment_at"@, "last_close_at"@, 0);
    lemma_str_neq("first_assignment_at"@, "last_closed_by_id"@, 0);
    lemma_str_neq("first_assignment_at"@, "count_reopens"@, 0);
    lemma_str_neq("first_assignment_at"@, "count_assignments"@, 0);
    lemma_str_neq("first_assignment_at"@, "count_conversation_parts"@, 0);
    lemma_str_neq("first_admin_reply_at"@, "first_close_at"@, 0);
    lemma_str_neq("first_admin_reply_at"@, "last_assignment_at"@, 0);
    lemma_str_neq("first_admin_reply_at"@, "last_assignment_admin_reply_at"@, 0);
    lemma_str_neq("first_admin_reply_at"@, "last_contact_reply_at"@, 0);
    lemma_str_neq("first_admin_reply_at"@, "last_admin_reply_at"@, 0);
    lemma_str_neq("first_admin_reply_at"@, "last_close_at"@, 0);
    lemma_str_neq("first_admin_reply_at"@, "last_closed_by_id"@, 0);
    lemma_str_neq("first_admin_reply_at"@, "count_reopens"@, 0);
    lemma_str_neq("first_admin_reply_at"@, "count_assignments"@, 0);
    lemma_str_neq("first_admin_reply_at"@, "count_conversation_parts"@, 0);
    lemma_str_neq("first_close_at"@, "last_assignment_at"@, 0);
    lemma_str_neq("first_close_at"@, "last_assignment_admin_reply_at"@, 0);
    lemma_str_neq("first_close_at"@, "last_contact_reply_at"@, 0);
    lemma_str_neq("first_close_at"@, "last_admin_reply_at"@, 0);
    lemma_str_neq("first_close_at"@, "last_close_at"@, 0);
    lemma_str_neq("first_close_at"@, "last_closed_by_id"@, 0);
    lemma_str_neq("first_close_at"@, "count_reopens"@, 0);
    lemma_str_neq("first_close_at"@, "count_assignments"@, 0);
    lemma_str_neq("first_close_at"@, "count_conversation_parts"@, 0);
    lemma_str_neq("last_assignment_at"@, "last_assignment_admin_reply_at"@, 0);
    lemma_str_neq("last_assignment_at"@, "last_contact_reply_at"@, 0);
    lemma_str_neq("last_assignment_at"@, "last_admin_reply_at"@, 0);
    lemma_str_neq("last_assignment_at"@, "last_close_at"@, 0);
    lemma_str_neq("last_assignment_at"@, "last_closed_by_id"@, 0);
    lemma_str_neq("last_assignment_at"@, "count_reopens"@, 0);
    lemma_str_neq("last_assignment_at"@, "count_assignments"@, 0);
    lemma_str_neq("last_assignment_at"@, "count_conversation_parts"@, 0);
    lemma_str_neq("last_assignment_admin_reply_at"@, "last_contact_reply_at"@, 0);
    lemma_str_neq("last_assignment_admin_reply_at"@, "last_admin_reply_at"@, 0);
    lemma_str_neq("last_assignment_admin_reply_at"@, "last_close_at"@, 0);
    lemma_str_neq("last_assignment_admin_reply_at"@, "last_closed_by_id"@, 0);
    lemma_str_neq("last_assignment_admin_reply_at"@, "count_reopens"@, 0);
    lemma_str_neq("last_assignment_admin_reply_at"@, "count_assignments"@, 0);
    lemma_str_neq("last_assignment_admin_reply_at"@, "count_conversation_parts"@, 0);
    lemma_str_neq("last_contact_reply_at"@, "last_admin_reply_at"@, 0);
    lemma_str_neq("last_contact_reply_at"@, "last_close_at"@, 0);
    lemma_str_neq("last_contact_reply_at"@, "last_closed_by_id"@, 0);
    lemma_str_neq("last_contact_reply_at"@, "count_reopens"@, 0);
    lemma_str_neq("last_contact_reply_at"@, "count_assignments"@, 0);
    lemma_str_neq("last_contact_reply_at"@, "count_conversation_parts"@, 0);
    lemma_str_neq("last_admin_reply_at"@, "last_close_at"@, 0);
    lemma_str_neq("last_admin_reply_at"@, "last_closed_by_id"@, 0);
    lemma_str_neq("last_admin_reply_at"@, "count_reopens"@, 0);
    lemma_str_neq("last_admin_reply_at"@, "count_assignments"@, 0);
    lemma_str_neq("last_admin_reply_at"@, "count_conversation_parts"@, 0);
    lemma_str_neq("last_close_at"@, "last_closed_by_id"@, 0);
    lemma_str_neq("last_close_at"@, "count_reopens"@, 0);
    lemma_str_neq("last_close_at"@, "count_assignments"@, 0);
    lemma_str_neq("last_close_at"@, "count_conversation_parts"@, 0);
    lemma_str_neq("last_closed_by_id"@, "count_reopens"@, 0);
    lemma_str_neq("last_closed_by_id"@, "count_assignments"@, 0);
    lemma_str_neq("last_closed_by_id"@, "count_conversation_parts"@, 0);
    lemma_str_neq("count_reopens"@, "count_assignments"@, 0);
    lemma_str_neq("count_reopens"@, "count_conversation_parts"@, 0);
    lemma_str_neq("count_assignments"@, "count_conversation_parts"@, 0);
    let fs = Statistics::spec_encode(v)->Obj_0;
    lemma_obj_get_at(fs, 0);
    lemma_obj_get_at(fs, 1);
    lemma_obj_get_at(fs, 2);
    lemma_obj_get_at(fs, 3);
    lemma_obj_get_at(fs, 4);
    lemma_obj_get_at(fs, 5);
    lemma_obj_get_at(fs, 6);
    lemma_obj_get_at(fs, 7);
    lemma_obj_get_at(fs, 8);
    lemma_obj_get_at(fs, 9);
    lemma_obj_get_at(fs, 10);
    lemma_obj_get_at(fs, 11);
    lemma_obj_get_at(fs, 12);
    lemma_obj_get_at(fs, 13);
    lemma_obj_get_at(fs, 14);
    lemma_obj_get_at(fs, 15);
    lemma_obj_get_at(fs, 16);
    lemma_obj_get_at(fs, 17);
    lemma_obj_get_at(fs, 18);
}

// ---------------------------------------------------------------------------
// ContentSources
// ---------------------------------------------------------------------------
/// A knowledge source cited by the AI agent.
#[derive(Debug, PartialEq, Eq)]
pub struct ContentSources {
    pub content_type: ContentType,
    pub url: String,
    pub title: String,
    pub locale: String,
}

/// The mathematical value of a `ContentSources`.
#[verifier::ext_equal]
pub ghost struct ContentSourcesV {
    pub content_type: ContentType,
    pub url: Seq<char>,
    pub title: Seq<char>,
    pub locale: Seq<char>,
}

impl ContentSourcesV {
    /// Every numeric field fits its machine type, and attribute keys are
    /// unique: true of the view of every decoded value.
    pub open spec fn wf(self) -> bool {
        true
    }
}

impl DeepView for ContentSources {
    type V = ContentSourcesV;

    open spec fn deep_view(&self) -> ContentSourcesV {
        ContentSourcesV {
            content_type: self.content_type,
            url: self.url@,
            title: self.title@,
            locale: self.locale@,
        }
    }
}

impl JsonCodec for ContentSources {
    open spec fn spec_decode(j: JsonV) -> Option<ContentSourcesV> {
        match j {
            JsonV::Obj(fs) => if req_enum::<ContentType>(fs, "content_type"@) is Some
                && req_str(fs, "url"@) is Some
                && req_str(fs, "title"@) is Some
                && req_str(fs, "locale"@) is Some {
                Some(
                    ContentSourcesV {
                        content_type: req_enum::<ContentType>(fs, "content_type"@)->0,
                        url: req_str(fs, "url"@)->0,
                        title: req_str(fs, "title"@)->0,
                        locale: req_str(fs, "locale"@)->0,
                    },
                )
            } else {
                None
            },
            _ => None,
        }
    }

    open spec fn spec_encode(v: ContentSourcesV) -> JsonV {
        JsonV::Obj(
            seq![
                ("content_type"@, (JsonV::Str(v.content_type.token()))),
                ("url"@, (JsonV::Str(v.url))),
                ("title"@, (JsonV::Str(v.title))),
                ("locale"@, (JsonV::Str(v.locale))),
            ],
        )
    }

    fn decode_json(j: &Json) -> (r: Option<Self>) {
        let fields = match j {
            Json::Obj(fs) => fs,
            _ => {
                return None;
            },
        };
        let f_content_type = match get_enum::<ContentType>(fields, "content_type") {
            Some(x) => x,
            None => {
                return None;
            },
        };
        let f_url = match get_str(fields, "url") {
            Some(x) => x,
            None => {
                return None;
            },
        };
        let f_title = match get_str(fields, "title") {
            Some(x) => x,
            None => {
                return None;
            },
        };
        let f_locale = match get_str(fields, "locale") {
            Some(x) => x,
            None => {
                return None;
            },
        };
        Some(
            ContentSources {
                content_type: f_content_type,
                url: f_url,
                title: f_title,
                locale: f_locale,
            },
        )
    }

    fn encode_json(&self) -> (r: Json) {
        let mut fs: Vec<(String, Json)> = Vec::new();
        fs.push(("content_type".to_owned(), Json::Str(self.content_type.token_string())));
        fs.push(("url".to_owned(), Json::Str(self.url.clone())));
        fs.push(("title".to_owned(), Json::Str(self.title.clone())));
        fs.push(("locale".to_owned(), Json::Str(self.locale.clone())));
        let r = Json::Obj(fs);
        proof {
            assert(fields_view(fs) =~~= Self::spec_encode(self.deep_view())->Obj_0);
            assert(r.deep_view() =~~= Self::spec_encode(self.deep_view()));
        }
        r
    }
}

/// Decoding the encoding of a `ContentSources` value gives it back.
pub proof fn lemma_content_sources_roundtrip(v: ContentSourcesV)
    requires
        v.wf(),
    ensures
        ContentSources::spec_decode(ContentSources::spec_encode(v)) == Some(v),
{
    reveal_strlit("content_type");
    reveal_strlit("url");
    reveal_strlit("title");
    reveal_strlit("locale");
    lemma_str_neq("content_type"@, "url"@, 0);
    lemma_str_neq("content_type"@, "title"@, 0);
    lemma_str_neq("content_type"@, "locale"@, 0);
    lemma_str_neq("url"@, "title"@, 0);
    lemma_str_neq("url"@, "locale"@, 0);
    lemma_str_neq("title"@, "locale"@, 0);
    let fs = ContentSources::spec_encode(v)->Obj_0;
    lemma_obj_get_at(fs, 0);
    lemma_obj_get_at(fs, 1);
    lemma_obj_get_at(fs, 2);
    lemma_obj_get_at(fs, 3);
    lemma_content_type_token_roundtrip(v.content_type);
}

// ---------------------------------------------------------------------------
// AIAgent
// ---------------------------------------------------------------------------
/// The outcome of automated-agent participation.
#[derive(Debug, PartialEq, Eq)]
pub struct AIAgent {
    pub source_type: SourceType,
    pub source_title: Option<String>,
    pub last_answer_type: Option<LastAnswerType>,
    pub resolution_state: ResolutionState,
    pub rating: u8,
    pub rating_remark: String,
    pub content_sources: Vec<ContentSources>,
}

/// The mathematical value of a `AIAgent`.
#[verifier::ext_equal]
pub ghost struct AIAgentV {
    pub source_type: SourceType,
    pub source_title: Option<Seq<char>>,
    pub last_answer_type: Option<LastAnswerType>,
    pub resolution_state: ResolutionState,
    pub rating: int,
    pub rating_remark: Seq<char>,
    pub content_sources: Seq<ContentSourcesV>,
}

impl AIAgentV {
    /// Every numeric field fits its machine type, and attribute keys are
    /// unique: true of the view of every decoded value.
    pub open spec fn wf(self) -> bool {
        &&& 0 <= self.rating <= u8::MAX
        &&& forall|i: int| 0 <= i < self.content_sources.len() ==> (#[trigger] self.content_sources[i]).wf()
    }
}

impl DeepView for AIAgent {
    type V = AIAgentV;

    open spec fn deep_view(&self) -> AIAgentV {
        AIAgentV {
            source_type: self.source_type,
            source_title: self.source_title.deep_view(),
            last_answer_type: self.last_answer_type.deep_view(),
            resolution_state: self.resolution_state,
            rating: self.rating as int,
            rating_remark: self.rating_remark@,
            content_sources: self.content_sources.deep_view(),
        }
    }
}

impl JsonCodec for AIAgent {
    open spec fn spec_decode(j: JsonV) -> Option<AIAgentV> {
        match j {
            JsonV::Obj(fs) => if req_enum::<SourceType>(fs, "source_type"@) is Some
                && opt_str(fs, "source_title"@) is Some
                && opt_enum::<LastAnswerType>(fs, "last_answer_type"@) is Some
                && req_enum::<ResolutionState>(fs, "resolution_state"@) is Some
                && req_int_in(fs, "rating"@, 0, u8::MAX as int) is Some
                && req_str(fs, "rating_remark"@) is Some {
                Some(
                    AIAgentV {
                        source_type: req_enum::<SourceType>(fs, "source_type"@)->0,
                        source_title: opt_str(fs, "source_title"@)->0,
                        last_answer_type: opt_enum::<LastAnswerType>(fs, "last_answer_type"@)->0,
                        resolution_state: req_enum::<ResolutionState>(fs, "resolution_state"@)->0,
                        rating: req_int_in(fs, "rating"@, 0, u8::MAX as int)->0,
                        rating_remark: req_str(fs, "rating_remark"@)->0,
                        content_sources: spec_fallback_list::<ContentSources>(obj_get(fs, "content_sources"@), "content_sources"@),
                    },
                )
            } else {
                None
            },
            _ => None,
        }
    }

    open spec fn spec_encode(v: AIAgentV) -> JsonV {
        JsonV::Obj(
            seq![
                ("source_type"@, (JsonV::Str(v.source_type.token()))),
                ("source_title"@, (match v.source_title { Some(s) => JsonV::Str(s), None => JsonV::Null })),
                ("last_answer_type"@, (match v.last_answer_type { Some(e) => JsonV::Str(e.token()), None => JsonV::Null })),
                ("resolution_state"@, (JsonV::Str(v.resolution_state.token()))),
                ("rating"@, (JsonV::Int(v.rating))),
                ("rating_remark"@, (JsonV::Str(v.rating_remark))),
                ("content_sources"@, (spec_wrap_list("content_source.list"@, "content_sources"@, spec_encode_list::<ContentSources>(v.content_sources)))),
            ],
        )
    }

    fn decode_json(j: &Json) -> (r: Option<Self>) {
        let fields = match j {
            Json::Obj(fs) => fs,
            _ => {
                return None;
            },
        };
        let f_source_type = match get_enum::<SourceType>(fields, "source_type") {
            Some(x) => x,
            None => {
                return None;
            },
        };
        let f_source_title = match get_opt_str(fields, "source_title") {
            Some(x) => x,
            None => {
                return None;
            },
        };
        let f_last_answer_type = match get_opt_enum::<LastAnswerType>(fields, "last_answer_type") {
            Some(x) => x,
            None => {
                return None;
            },
        };
        let f_resolution_state = match get_enum::<ResolutionState>(fields, "resolution_state") {
            Some(x) => x,
            None => {
                return None;
            },
        };
        let f_rating = match get_u8(fields, "rating") {
            Some(x) => x,
            None => {
                return None;
            },
        };
        let f_rating_remark = match get_str(fields, "rating_remark") {
            Some(x) => x,
            None => {
                return None;
            },
        };
        let f_content_sources: Vec<ContentSources> = fallback_list::<ContentSources>(get_field(fields, "content_sources"), "content_sources");
        Some(
            AIAgent {
                source_type: f_source_type,
                source_title: f_source_title,
                last_answer_type: f_last_answer_type,
                resolution_state: f_resolution_state,
                rating: f_rating,
                rating_remark: f_rating_remark,
                content_sources: f_content_sources,
            },
        )
    }

    fn encode_json(&self) -> (r: Json) {
        let mut fs: Vec<(String, Json)> = Vec::new();
        fs.push(("source_type".to_owned(), Json::Str(self.source_type.token_string())));
        fs.push(("source_title".to_owned(), match &self.source_title { Some(s) => Json::Str(s.clone()), None => Json::Null }));
        fs.push(("last_answer_type".to_owned(), match self.last_answer_type { Some(e) => Json::Str(e.token_string()), None => Json::Null }));
        fs.push(("resolution_state".to_owned(), Json::Str(self.resolution_state.token_string())));
        fs.push(("rating".to_owned(), Json::Int(self.rating as i64)));
        fs.push(("rating_remark".to_owned(), Json::Str(self.rating_remark.clone())));
        fs.push(("content_sources".to_owned(), wrap_list("content_source.list", "content_sources", encode_list::<ContentSources>(&self.content_sources))));
        let r = Json::Obj(fs);
        proof {
            assert(fields_view(fs) =~~= Self::spec_encode(self.deep_view())->Obj_0);
            assert(r.deep_view() =~~= Self::spec_encode(self.deep_view()));
        }
        r
    }
}

/// Decoding the encoding of an `AIAgent` value gives it back.
pub proof fn lemma_ai_agent_roundtrip(v: AIAgentV)
    requires
        v.wf(),
    ensures
        AIAgent::spec_decode(AIAgent::spec_encode(v)) == Some(v),
{
    reveal_strlit("source_type");
    reveal_strlit("source_title");
    reveal_strlit("last_answer_type");
    reveal_strlit("resolution_state");
    reveal_strlit("rating");
    reveal_strlit("rating_remark");
    reveal_strlit("content_sources");
    lemma_str_neq("source_type"@, "source_title"@, 0);
    lemma_str_neq("source_type"@, "last_answer_type"@, 0);
    lemma_str_neq("source_type"@, "resolution_state"@, 0);
    lemma_str_neq("source_type"@, "rating"@, 0);
    lemma_str_neq("source_type"@, "rating_remark"@, 0);
    lemma_str_neq("source_type"@, "content_sources"@, 0);
    lemma_str_neq("source_title"@, "last_answer_type"@, 0);
    lemma_str_neq("source_title"@, "resolution_state"@, 0);
    lemma_str_neq("source_title"@, "rating"@, 0);
    lemma_str_neq("source_title"@, "rating_remark"@, 0);
    lemma_str_neq("source_title"@, "content_sources"@, 0);
    lemma_str_neq("last_answer_type"@, "resolution_state"@, 0);
    lemma_str_neq("last_answer_type"@, "rating"@, 0);
    lemma_str_neq("last_answer_type"@, "rating_remark"@, 0);
    lemma_str_neq("last_answer_type"@, "content_sources"@, 0);
    lemma_str_neq("resolution_state"@, "rating"@, 0);
    lemma_str_neq("resolution_state"@, "rating_remark"@, 0);
    lemma_str_neq("resolution_state"@, "content_sources"@, 0);
    lemma_str_neq("rating"@, "rating_remark"@, 0);
    lemma_str_neq("rating"@, "content_sources"@, 0);
    lemma_str_neq("rating_remark"@, "content_sources"@, 0);
    let fs = AIAgent::spec_encode(v)->Obj_0;
    lemma_obj_get_at(fs, 0);
    lemma_obj_get_at(fs, 1);
    lemma_obj_get_at(fs, 2);
    lemma_obj_get_at(fs, 3);
    lemma_obj_get_at(fs, 4);
    lemma_obj_get_at(fs, 5);
    lemma_obj_get_at(fs, 6);
    lemma_source_type_token_roundtrip(v.source_type);
    if v.last_answer_type is Some {
        lemma_last_answer_token_roundtrip(v.last_answer_type->0);
    }
    lemma_resolution_token_roundtrip(v.resolution_state);
    assert forall|i: int| 0 <= i < v.content_sources.len() implies ContentSources::spec_decode(
        ContentSources::spec_encode(#[trigger] v.content_sources[i]),
    ) == Some(v.content_sources[i]) by {
        lemma_content_sources_roundtrip(v.content_sources[i]);
    }
    reveal_strlit("type");
    lemma_str_neq("content_sources"@, "type"@, 0);
    lemma_fallback_wrap_roundtrip::<ContentSources>("content_source.list"@, "content_sources"@, v.content_sources);
}

// ---------------------------------------------------------------------------
// Conversation
// ---------------------------------------------------------------------------
/// The aggregate root: one customer-support conversation.
#[derive(Debug, PartialEq, Eq)]
pub struct Conversation {
    pub typ: String,
    pub id: String,
    pub title: Option<String>,
    pub created_at: Timestamp,
    pub updated_at: Timestamp,
    pub waiting_since: Option<Timestamp>,
    pub snoozed_until: Option<Timestamp>,
    pub open: bool,
    pub state: ConversationState,
    pub read: bool,
    pub priority: ConversationPriority,
    pub admin_assignee_id: Option<i32>,
    pub team_assignee_id: Option<String>,
    pub tags: Vec<Tag>,
    pub conversation_rating: Option<ConversationRating>,
    pub source: ConversationSource,
    pub contacts: Vec<ContactReference>,
    pub teammates: Vec<Reference>,
    pub custom_attributes: Vec<(String, String)>,
    pub first_contact_reply: Option<FirstContactReply>,
    pub sla_applied: Option<AppliedSLA>,
    pub statistics: Option<Statistics>,
    pub ai_agent_participated: bool,
    pub ai_agent: AIAgent,
}

/// The mathematical value of a `Conversation`.
#[verifier::ext_equal]
pub ghost struct ConversationV {
    pub typ: Seq<char>,
    pub id: Seq<char>,
    pub title: Option<Seq<char>>,
    pub created_at: int,
    pub updated_at: int,
    pub waiting_since: Option<int>,
    pub snoozed_until: Option<int>,
    pub open: bool,
    pub state: ConversationState,
    pub read: bool,
    pub priority: ConversationPriority,
    pub admin_assignee_id: Option<int>,
    pub team_assignee_id: Option<Seq<char>>,
    pub tags: Seq<TagV>,
    pub conversation_rating: Option<ConversationRatingV>,
    pub source: ConversationSourceV,
    pub contacts: Seq<ContactReferenceV>,
    pub teammates: Seq<ReferenceV>,
    pub custom_attributes: Seq<(Seq<char>, Seq<char>)>,
    pub first_contact_reply: Option<FirstContactReplyV>,
    pub sla_applied: Option<AppliedSLAV>,
    pub statistics: Option<StatisticsV>,
    pub ai_agent_participated: bool,
    pub ai_agent: AIAgentV,
}

impl ConversationV {
    /// Every numeric field fits its machine type, and attribute keys are
    /// unique: true of the view of every decoded value.
    pub open spec fn wf(self) -> bool {
        &&& i64::MIN <= self.created_at <= i64::MAX
        &&& i64::MIN <= self.updated_at <= i64::MAX
        &&& (self.waiting_since matches Some(x) ==> i64::MIN <= x <= i64::MAX)
        &&& (self.snoozed_until matches Some(x) ==> i64::MIN <= x <= i64::MAX)
        &&& (self.admin_assignee_id matches Some(x) ==> i32::MIN <= x <= i32::MAX)
        &&& forall|i: int| 0 <= i < self.tags.len() ==> (#[trigger] self.tags[i]).wf()
        &&& (self.conversation_rating matches Some(x) ==> x.wf())
        &&& self.source.wf()
        &&& forall|i: int| 0 <= i < self.contacts.len() ==> (#[trigger] self.contacts[i]).wf()
        &&& forall|i: int| 0 <= i < self.teammates.len() ==> (#[trigger] self.teammates[i]).wf()
        &&& forall|i: int, j: int| 0 <= i < j < self.custom_attributes.len() ==> (#[trigger] self.custom_attributes[i]).0 != (#[trigger] self.custom_attributes[j]).0
        &&& (self.first_contact_reply matches Some(x) ==> x.wf())
        &&& (self.sla_applied matches Some(x) ==> x.wf())
        &&& (self.statistics matches Some(x) ==> x.wf())
        &&& self.ai_agent.wf()
    }
}

impl DeepView for Conversation {
    type V = ConversationV;

    open spec fn deep_view(&self) -> ConversationV {
        ConversationV {
            typ: self.typ@,
            id: self.id@,
            title: self.title.deep_view(),
            created_at: self.created_at.deep_view(),
            updated_at: self.updated_at.deep_view(),
            waiting_since: self.waiting_since.deep_view(),
            snoozed_until: self.snoozed_until.deep_view(),
            open: self.open,
            state: self.state,
            read: self.read,
            priority: self.priority,
            admin_assignee_id: match self.admin_assignee_id { Some(n) => Some(n as int), None => None },
            team_assignee_id: self.team_assignee_id.deep_view(),
            tags: self.tags.deep_view(),
            conversation_rating: self.conversation_rating.deep_view(),
            source: self.source.deep_view(),
            contacts: self.contacts.deep_view(),
            teammates: self.teammates.deep_view(),
            custom_attributes: self.custom_attributes.deep_view(),
            first_contact_reply: self.first_contact_reply.deep_view(),
            sla_applied: self.sla_applied.deep_view(),
            statistics: self.statistics.deep_view(),
            ai_agent_participated: self.ai_agent_participated,
            ai_agent: self.ai_agent.deep_view(),
        }
    }
}

impl Conversation {
    #[verifier::rlimit(100)]
    #[verifier::spinoff_prover]
    fn encode_head_fields(&self) -> (out: Vec<(String, Json)>)
        ensures
            fields_view(out) == Self::spec_encode(self.deep_view())->Obj_0.take(12),
    {
        let fs: Vec<(String, Json)> = vec![
            ("type".to_owned(), Json::Str(self.typ.clone())),
            ("id".to_owned(), Json::Str(self.id.clone())),
            ("title".to_owned(), match &self.title { Some(s) => Json::Str(s.clone()), None => Json::Null }),
            ("created_at".to_owned(), Json::Int(self.created_at.secs)),
            ("updated_at".to_owned(), Json::Int(self.updated_at.secs)),
            ("waiting_since".to_owned(), match self.waiting_since { Some(t) => Json::Int(t.secs), None => Json::Null }),
            ("snoozed_until".to_owned(), match self.snoozed_until { Some(t) => Json::Int(t.secs), None => Json::Null }),
            ("open".to_owned(), Json::Bool(self.open)),
            ("state".to_owned(), Json::Str(self.state.token_string())),
            ("read".to_owned(), Json::Bool(self.read)),
            ("priority".to_owned(), Json::Str(self.priority.token_string())),
            ("admin_assignee_id".to_owned(), match self.admin_assignee_id { Some(n) => Json::Int(n as i64), None => Json::Null }),
        ];
        proof {
            let ghost sv = Self::spec_encode(self.deep_view())->Obj_0;
            assert(fs@.len() == 12);
            assert(fields_view(fs)[0] == sv[0]);
            assert(fields_view(fs)[1] == sv[1]);
            assert(fields_view(fs)[2] == sv[2]);
            assert(fields_view(fs)[3] == sv[3]);
            assert(fields_view(fs)[4] == sv[4]);
            assert(fields_view(fs)[5] == sv[5]);
            assert(fields_view(fs)[6] == sv[6]);
            assert(fields_view(fs)[7] == sv[7]);
            assert(fields_view(fs)[8] == sv[8]);
            assert(fields_view(fs)[9] == sv[9]);
            assert(fields_view(fs)[10] == sv[10]);
            assert(fields_view(fs)[11] == sv[11]);
            assert(fields_view(fs) =~= sv.take(12));
        }
        fs
    }

    #[verifier::rlimit(100)]
    #[verifier::spinoff_prover]
    fn encode_tail_fields(&self) -> (out: Vec<(String, Json)>)
        ensures
            fields_view(out) == Self::spec_encode(self.deep_view())->Obj_0.skip(12),
    {
        let fs: Vec<(String, Json)> = vec![
            ("team_assignee_id".to_owned(), match &self.team_assignee_id { Some(s) => Json::Str(s.clone()), None => Json::Null }),
            ("tags".to_owned(), wrap_list("tag.list", "tags", encode_list::<Tag>(&self.tags))),
            ("conversation_rating".to_owned(), match &self.conversation_rating { Some(x) => x.encode_json(), None => Json::Null }),
            ("source".to_owned(), self.source.encode_json()),
            ("contacts".to_owned(), wrap_list("contact.list", "contacts", encode_list::<ContactReference>(&self.contacts))),
            ("teammates".to_owned(), wrap_list("teammate.list", "teammates", encode_list::<Reference>(&self.teammates))),
            ("custom_attributes".to_owned(), encode_attrs(&self.custom_attributes)),
            ("first_contact_reply".to_owned(), match &self.first_contact_reply { Some(x) => x.encode_json(), None => Json::Null }),
            ("sla_applied".to_owned(), match &self.sla_applied { Some(x) => x.encode_json(), None => Json::Null }),
            ("statistics".to_owned(), match &self.statistics { Some(x) => x.encode_json(), None => Json::Null }),
            ("ai_agent_participated".to_owned(), Json::Bool(self.ai_agent_participated)),
            ("ai_agent".to_owned(), self.ai_agent.encode_json()),
        ];
        proof {
            let ghost sv = Self::spec_encode(self.deep_view())->Obj_0;
            assert(fs@.len() == 12);
            assert(fields_view(fs)[0] == sv[12]);
            assert(fields_view(fs)[1] == sv[13]);
            assert(fields_view(fs)[2] == sv[14]);
            assert(fields_view(fs)[3] == sv[15]);
            assert(fields_view(fs)[4] == sv[16]);
            assert(fields_view(fs)[5] == sv[17]);
            assert(fields_view(fs)[6] == sv[18]);
            assert(fields_view(fs)[7] == sv[19]);
            assert(fields_view(fs)[8] == sv[20]);
            assert(fields_view(fs)[9] == sv[21]);
            assert(fields_view(fs)[10] == sv[22]);
            assert(fields_view(fs)[11] == sv[23]);
            assert(fields_view(fs) =~= sv.skip(12));
        }
        fs
    }
}

impl JsonCodec for Conversation {
    open spec fn spec_decode(j: JsonV) -> Option<ConversationV> {
        match j {
            JsonV::Obj(fs) => if req_str(fs, "type"@) is Some
                && req_str(fs, "id"@) is Some
                && opt_str(fs, "title"@) is Some
                && req_int(fs, "created_at"@) is Some
                && req_int(fs, "updated_at"@) is Some
                && opt_int(fs, "waiting_since"@) is Some
                && opt_int(fs, "snoozed_until"@) is Some
                && req_bool(fs, "open"@) is Some
                && req_enum::<ConversationState>(fs, "state"@) is Some
                && req_bool(fs, "read"@) is Some
                && req_enum::<ConversationPriority>(fs, "priority"@) is Some
                && opt_int_in(fs, "admin_assignee_id"@, i32::MIN as int, i32::MAX as int) is Some
                && opt_str(fs, "team_assignee_id"@) is Some
                && opt_codec::<ConversationRating>(fs, "conversation_rating"@) is Some
                && req_codec::<ConversationSource>(fs, "source"@) is Some
                && req_attrs(fs, "custom_attributes"@) is Some
                && opt_codec::<FirstContactReply>(fs, "first_contact_reply"@) is Some
                && opt_codec::<AppliedSLA>(fs, "sla_applied"@) is Some
                && opt_codec::<Statistics>(fs, "statistics"@) is Some
                && req_bool(fs, "ai_agent_participated"@) is Some
                && req_codec::<AIAgent>(fs, "ai_agent"@) is Some {
                Some(
                    ConversationV {
                        typ: req_str(fs, "type"@)->0,
                        id: req_str(fs, "id"@)->0,
                        title: opt_str(fs, "title"@)->0,
                        created_at: req_int(fs, "created_at"@)->0,
                        updated_at: req_int(fs, "updated_at"@)->0,
                        waiting_since: opt_int(fs, "waiting_since"@)->0,
                        snoozed_until: opt_int(fs, "snoozed_until"@)->0,
                        open: req_bool(fs, "open"@)->0,
                        state: req_enum::<ConversationState>(fs, "state"@)->0,
                        read: req_bool(fs, "read"@)->0,
                        priority: req_enum::<ConversationPriority>(fs, "priority"@)->0,
                        admin_assignee_id: opt_int_in(fs, "admin_assignee_id"@, i32::MIN as int, i32::MAX as int)->0,
                        team_assignee_id: opt_str(fs, "team_assignee_id"@)->0,
                        tags: spec_fallback_list::<Tag>(obj_get(fs, "tags"@), "tags"@),
                        conversation_rating: opt_codec::<ConversationRating>(fs, "conversation_rating"@)->0,
                        source: req_codec::<ConversationSource>(fs, "source"@)->0,
                        contacts: spec_fallback_list::<ContactReference>(obj_get(fs, "contacts"@), "contacts"@),
                        teammates: spec_fallback_list::<Reference>(obj_get(fs, "teammates"@), "teammates"@),
                        custom_attributes: req_attrs(fs, "custom_attributes"@)->0,
                        first_contact_reply: opt_codec::<FirstContactReply>(fs, "first_contact_reply"@)->0,
                        sla_applied: opt_codec::<AppliedSLA>(fs, "sla_applied"@)->0,
                        statistics: opt_codec::<Statistics>(fs, "statistics"@)->0,
                        ai_agent_participated: req_bool(fs, "ai_agent_participated"@)->0,
                        ai_agent: req_codec::<AIAgent>(fs, "ai_agent"@)->0,
                    },
                )
            } else {
                None
            },
            _ => None,
        }
    }

    open spec fn spec_encode(v: ConversationV) -> JsonV {
        JsonV::Obj(
            seq![
                ("type"@, (JsonV::Str(v.typ))),
                ("id"@, (JsonV::Str(v.id))),
                ("title"@, (match v.title { Some(s) => JsonV::Str(s), None => JsonV::Null })),
                ("created_at"@, (JsonV::Int(v.created_at))),
                ("updated_at"@, (JsonV::Int(v.updated_at))),
                ("waiting_since"@, (match v.waiting_since { Some(n) => JsonV::Int(n), None => JsonV::Null })),
                ("snoozed_until"@, (match v.snoozed_until { Some(n) => JsonV::Int(n), None => JsonV::Null })),
                ("open"@, (JsonV::Bool(v.open))),
                ("state"@, (JsonV::Str(v.state.token()))),
                ("read"@, (JsonV::Bool(v.read))),
                ("priority"@, (JsonV::Str(v.priority.token()))),
                ("admin_assignee_id"@, (match v.admin_assignee_id { Some(n) => JsonV::Int(n), None => JsonV::Null })),
                ("team_assignee_id"@, (match v.team_assignee_id { Some(s) => JsonV::Str(s), None => JsonV::Null })),
                ("tags"@, (spec_wrap_list("tag.list"@, "tags"@, spec_encode_list::<Tag>(v.tags)))),
                ("conversation_rating"@, (match v.conversation_rating { Some(x) => ConversationRating::spec_encode(x), None => JsonV::Null })),
                ("source"@, (ConversationSource::spec_encode(v.source))),
                ("contacts"@, (spec_wrap_list("contact.list"@, "contacts"@, spec_encode_list::<ContactReference>(v.contacts)))),
                ("teammates"@, (spec_wrap_list("teammate.list"@, "teammates"@, spec_encode_list::<Reference>(v.teammates)))),
                ("custom_attributes"@, (spec_encode_attrs(v.custom_attributes))),
                ("first_contact_reply"@, (match v.first_contact_reply { Some(x) => FirstContactReply::spec_encode(x), None => JsonV::Null })),
                ("sla_applied"@, (match v.sla_applied { Some(x) => AppliedSLA::spec_encode(x), None => JsonV::Null })),
                ("statistics"@, (match v.statistics { Some(x) => Statistics::spec_encode(x), None => JsonV::Null })),
                ("ai_agent_participated"@, (JsonV::Bool(v.ai_agent_participated))),
                ("ai_agent"@, (AIAgent::spec_encode(v.ai_agent))),
            ],
        )
    }

    fn decode_json(j: &Json) -> (r: Option<Self>) {
        let fields = match j {
            Json::Obj(fs) => fs,
            _ => {
                return None;
            },
        };
        let f_typ = match get_str(fields, "type") {
            Some(x) => x,
            None => {
                return None;
            },
        };
        let f_id = match get_str(fields, "id") {
            Some(x) => x,
            None => {
                return None;
            },
        };
        let f_title = match get_opt_str(fields, "title") {
            Some(x) => x,
            None => {
                return None;
            },
        };
        let f_created_at = match get_ts(fields, "created_at") {
            Some(x) => x,
            None => {
                return None;
            },
        };
        let f_updated_at = match get_ts(fields, "updated_at") {
            Some(x) => x,
            None => {
                return None;
            },
        };
        let f_waiting_since = match get_opt_ts(fields, "waiting_since") {
            Some(x) => x,
            None => {
                return None;
            },
        };
        let f_snoozed_until = match get_opt_ts(fields, "snoozed_until") {
            Some(x) => x,
            None => {
                return None;
            },
        };
        let f_open = match get_bool(fields, "open") {
            Some(x) => x,
            None => {
                return None;
            },
        };
        let f_state = match get_enum::<ConversationState>(fields, "state") {
            Some(x) => x,
            None => {
                return None;
            },
        };
        let f_read = match get_bool(fields, "read") {
            Some(x) => x,
            None => {
                return None;
            },
        };
        let f_priority = match get_enum::<ConversationPriority>(fields, "priority") {
            Some(x) => x,
            None => {
                return None;
            },
        };
        let f_admin_assignee_id = match get_opt_i32(fields, "admin_assignee_id") {
            Some(x) => x,
            None => {
                return None;
            },
        };
        let f_team_assignee_id = match get_opt_str(fields, "team_assignee_id") {
            Some(x) => x,
            None => {
                return None;
            },
        };
        let f_tags: Vec<Tag> = fallback_list::<Tag>(get_field(fields, "tags"), "tags");
        let f_conversation_rating = match get_opt_codec::<ConversationRating>(fields, "conversation_rating") {
            Some(x) => x,
            None => {
                return None;
            },
        };
        let f_source = match get_codec::<ConversationSource>(fields, "source") {
            Some(x) => x,
            None => {
                return None;
            },
        };
        let f_contacts: Vec<ContactReference> = fallback_list::<ContactReference>(get_field(fields, "contacts"), "contacts");
        let f_teammates: Vec<Reference> = fallback_list::<Reference>(get_field(fields, "teammates"), "teammates");
        let f_custom_attributes = match get_attrs(fields, "custom_attributes") {
            Some(x) => x,
            None => {
                return None;
            },
        };
        let f_first_contact_reply = match get_opt_codec::<FirstContactReply>(fields, "first_contact_reply") {
            Some(x) => x,
            None => {
                return None;
            },
        };
        let f_sla_applied = match get_opt_codec::<AppliedSLA>(fields, "sla_applied") {
            Some(x) => x,
            None => {
                return None;
            },
        };
        let f_statistics = match get_opt_codec::<Statistics>(fields, "statistics") {
            Some(x) => x,
            None => {
                return None;
            },
        };
        let f_ai_agent_participated = match get_bool(fields, "ai_agent_participated") {
            Some(x) => x,
            None => {
                return None;
            },
        };
        let f_ai_agent = match get_codec::<AIAgent>(fields, "ai_agent") {
            Some(x) => x,
            None => {
                return None;
            },
        };
        Some(
            Conversation {
                typ: f_typ,
                id: f_id,
                title: f_title,
                created_at: f_created_at,
                updated_at: f_updated_at,
                waiting_since: f_waiting_since,
                snoozed_until: f_snoozed_until,
                open: f_open,
                state: f_state,
                read: f_read,
                priority: f_priority,
                admin_assignee_id: f_admin_assignee_id,
                team_assignee_id: f_team_assignee_id,
                tags: f_tags,
                conversation_rating: f_conversation_rating,
                source: f_source,
                contacts: f_contacts,
                teammates: f_teammates,
                custom_attributes: f_custom_attributes,
                first_contact_reply: f_first_contact_reply,
                sla_applied: f_sla_applied,
                statistics: f_statistics,
                ai_agent_participated: f_ai_agent_participated,
                ai_agent: f_ai_agent,
            },
        )
    }

    fn encode_json(&self) -> (r: Json) {
        let ghost sv = Self::spec_encode(self.deep_view())->Obj_0;
        let mut fs = self.encode_head_fields();
        let ghost hv = fields_view(fs);
        let mut rest = self.encode_tail_fields();
        let ghost tv = fields_view(rest);
        fs.append(&mut rest);
        let r = Json::Obj(fs);
        proof {
            assert(sv.len() == 24);
            assert(hv.len() == 12);
            assert(tv.len() == 12);
            assert(fs@.len() == 24);
            assert forall|i: int| 0 <= i < 24 implies fields_view(fs)[i] == sv[i] by {
                if i < 12 {
                    assert(fs[i] == fs@[i]);
                    assert(fields_view(fs)[i] == hv[i]);
                    assert(hv[i] == sv.take(12)[i]);
                } else {
                    assert(fields_view(fs)[i] == tv[i - 12]);
                    assert(tv[i - 12] == sv.skip(12)[i - 12]);
                }
            }
            assert(fields_view(fs) =~= sv);
            assert(r.deep_view() == Self::spec_encode(self.deep_view()));
        }
        r
    }
}

/// Decoding the encoding of a `Conversation` value gives it back.
#[verifier::rlimit(100)]
#[verifier::spinoff_prover]
pub proof fn lemma_conversation_roundtrip(v: ConversationV)
    requires
        v.wf(),
    ensures
        Conversation::spec_decode(Conversation::spec_encode(v)) == Some(v),
{
    reveal_strlit("type");
    reveal_strlit("id");
    reveal_strlit("title");
    reveal_strlit("created_at");
    reveal_strlit("updated_at");
    reveal_strlit("waiting_since");
    reveal_strlit("snoozed_until");
    reveal_strlit("open");
    reveal_strlit("state");
    reveal_strlit("read");
    reveal_strlit("priority");
    reveal_strlit("admin_assignee_id");
    reveal_strlit("team_assignee_id");
    reveal_strlit("tags");
    reveal_strlit("conversation_rating");
    reveal_strlit("source");
    reveal_strlit("contacts");
    reveal_strlit("teammates");
    reveal_strlit("custom_attributes");
    reveal_strlit("first_contact_reply");
    reveal_strlit("sla_applied");
    reveal_strlit("statistics");
    reveal_strlit("ai_agent_participated");
    reveal_strlit("ai_agent");
    lemma_str_neq("type"@, "id"@, 0);
    lemma_str_neq("type"@, "title"@, 0);
    lemma_str_neq("type"@, "created_at"@, 0);
    lemma_str_neq("type"@, "updated_at"@, 0);
    lemma_str_neq("type"@, "waiting_since"@, 0);
    lemma_str_neq("type"@, "snoozed_until"@, 0);
    lemma_str_neq("type"@, "open"@, 0);
    lemma_str_neq("type"@, "state"@, 0);
    lemma_str_neq("type"@, "read"@, 0);
    lemma_str_neq("type"@, "priority"@, 0);
    lemma_str_neq("type"@, "admin_assignee_id"@, 0);
    lemma_str_neq("type"@, "team_assignee_id"@, 0);
    lemma_str_neq("type"@, "tags"@, 1);
    lemma_str_neq("type"@, "conversation_rating"@, 0);
    lemma_str_neq("type"@, "source"@, 0);
    lemma_str_neq("type"@, "contacts"@, 0);
    lemma_str_neq("type"@, "teammates"@, 0);
    lemma_str_neq("type"@, "custom_attributes"@, 0);
    lemma_str_neq("type"@, "first_contact_reply"@, 0);
    lemma_str_neq("type"@, "sla_applied"@, 0);
    lemma_str_neq("type"@, "statistics"@, 0);
    lemma_str_neq("type"@, "ai_agent_participated"@, 0);
    lemma_str_neq("type"@, "ai_agent"@, 0);
    lemma_str_neq("id"@, "title"@, 0);
    lemma_str_neq("id"@, "created_at"@, 0);
    lemma_str_neq("id"@, "updated_at"@, 0);
    lemma_str_neq("id"@, "waiting_since"@, 0);
    lemma_str_neq("id"@, "snoozed_until"@, 0);
    lemma_str_neq("id"@, "open"@, 0);
    lemma_str_neq("id"@, "state"@, 0);
    lemma_str_neq("id"@, "read"@, 0);
    lemma_str_neq("id"@, "priority"@, 0);
    lemma_str_neq("id"@, "admin_assignee_id"@, 0);
    lemma_str_neq("id"@, "team_assignee_id"@, 0);
    lemma_str_neq("id"@, "tags"@, 0);
    lemma_str_neq("id"@, "conversation_rating"@, 0);
    lemma_str_neq("id"@, "source"@, 0);
    lemma_str_neq("id"@, "contacts"@, 0);
    lemma_str_neq("id"@, "teammates"@, 0);
    lemma_str_neq("id"@, "custom_attributes"@, 0);
    lemma_str_neq("id"@, "first_contact_reply"@, 0);
    lemma_str_neq("id"@, "sla_applied"@, 0);
    lemma_str_neq("id"@, "statistics"@, 0);
    lemma_str_neq("id"@, "ai_agent_participated"@, 0);
    lemma_str_neq("id"@, "ai_agent"@, 0);
    lemma_str_neq("title"@, "created_at"@, 0);
    lemma_str_neq("title"@, "updated_at"@, 0);
    lemma_str_neq("title"@, "waiting_since"@, 0);
    lemma_str_neq("title"@, "snoozed_until"@, 0);
    lemma_str_neq("title"@, "open"@, 0);
    lemma_str_neq("title"@, "state"@, 0);
    lemma_str_neq("title"@, "read"@, 0);
    lemma_str_neq("title"@, "priority"@, 0);
    lemma_str_neq("title"@, "admin_assignee_id"@, 0);
    lemma_str_neq("title"@, "team_assignee_id"@, 0);
    lemma_str_neq("title"@, "tags"@, 0);
    lemma_str_neq("title"@, "conversation_rating"@, 0);
    lemma_str_neq("title"@, "source"@, 0);
    lemma_str_neq("title"@, "contacts"@, 0);
    lemma_str_neq("title"@, "teammates"@, 0);
    lemma_str_neq("title"@, "custom_attributes"@, 0);
    lemma_str_neq("title"@, "first_contact_reply"@, 0);
    lemma_str_neq("title"@, "sla_applied"@, 0);
    lemma_str_neq("title"@, "statistics"@, 0);
    lemma_str_neq("title"@, "ai_agent_participated"@, 0);
    lemma_str_neq("title"@, "ai_agent"@, 0);
    lemma_str_neq("created_at"@, "updated_at"@, 0);
    lemma_str_neq("created_at"@, "waiting_since"@, 0);
    lemma_str_neq("created_at"@, "snoozed_until"@, 0);
    lemma_str_neq("created_at"@, "open"@, 0);
    lemma_str_neq("created_at"@, "state"@, 0);
    lemma_str_neq("created_at"@, "read"@, 0);
    lemma_str_neq("created_at"@, "priority"@, 0);
    lemma_str_neq("created_at"@, "admin_assignee_id"@, 0);
    lemma_str_neq("created_at"@, "team_assignee_id"@, 0);
    lemma_str_neq("created_at"@, "tags"@, 0);
    lemma_str_neq("created_at"@, "conversation_rating"@, 0);
    lemma_str_neq("created_at"@, "source"@, 0);
    lemma_str_neq("created_at"@, "contacts"@, 0);
    lemma_str_neq("created_at"@, "teammates"@, 0);
    lemma_str_neq("created_at"@, "custom_attributes"@, 0);
    lemma_str_neq("created_at"@, "first_contact_reply"@, 0);
    lemma_str_neq("created_at"@, "sla_applied"@, 0);
    lemma_str_neq("created_at"@, "statistics"@, 0);
    lemma_str_neq("created_at"@, "ai_agent_participated"@, 0);
    lemma_str_neq("created_at"@, "ai_agent"@, 0);
    lemma_str_neq("updated_at"@, "waiting_since"@, 0);
    lemma_str_neq("updated_at"@, "snoozed_until"@, 0);
    lemma_str_neq("updated_at"@, "open"@, 0);
    lemma_str_neq("updated_at"@, "state"@, 0);
    lemma_str_neq("updated_at"@, "read"@, 0);
    lemma_str_neq("updated_at"@, "priority"@, 0);
    lemma_str_neq("updated_at"@, "admin_assignee_id"@, 0);
    lemma_str_neq("updated_at"@, "team_assignee_id"@, 0);
    lemma_str_neq("updated_at"@, "tags"@, 0);
    lemma_str_neq("updated_at"@, "conversation_rating"@, 0);
    lemma_str_neq("updated_at"@, "source"@, 0);
    lemma_str_neq("updated_at"@, "contacts"@, 0);
    lemma_str_neq("updated_at"@, "teammates"@, 0);
    lemma_str_neq("updated_at"@, "custom_attributes"@, 0);
    lemma_str_neq("updated_at"@, "first_contact_reply"@, 0);
    lemma_str_neq("updated_at"@, "sla_applied"@, 0);
    lemma_str_neq("updated_at"@, "statistics"@, 0);
    lemma_str_neq("updated_at"@, "ai_agent_participated"@, 0);
    lemma_str_neq("updated_at"@, "ai_agent"@, 0);
    lemma_str_neq("waiting_since"@, "snoozed_until"@, 0);
    lemma_str_neq("waiting_since"@, "open"@, 0);
    lemma_str_neq("waiting_since"@, "state"@, 0);
    lemma_str_neq("waiting_since"@, "read"@, 0);
    lemma_str_neq("waiting_since"@, "priority"@, 0);
    lemma_str_neq("waiting_since"@, "admin_assignee_id"@, 0);
    lemma_str_neq("waiting_since"@, "team_assignee_id"@, 0);
    lemma_str_neq("waiting_since"@, "tags"@, 0);
    lemma_str_neq("waiting_since"@, "conversation_rating"@, 0);
    lemma_str_neq("waiting_since"@, "source"@, 0);
    lemma_str_neq("waiting_since"@, "contacts"@, 0);
    lemma_str_neq("waiting_since"@, "teammates"@, 0);
    lemma_str_neq("waiting_since"@, "custom_attributes"@, 0);
    lemma_str_neq("waiting_since"@, "first_contact_reply"@, 0);
    lemma_str_neq("waiting_since"@, "sla_applied"@, 0);
    lemma_str_neq("waiting_since"@, "statistics"@, 0);
    lemma_str_neq("waiting_since"@, "ai_agent_participated"@, 0);
    lemma_str_neq("waiting_since"@, "ai_agent"@, 0);
    lemma_str_neq("snoozed_until"@, "open"@, 0);
    lemma_str_neq("snoozed_until"@, "state"@, 0);
    lemma_str_neq("snoozed_until"@, "read"@, 0);
    lemma_str_neq("snoozed_until"@, "priority"@, 0);
    lemma_str_neq("snoozed_until"@, "admin_assignee_id"@, 0);
    lemma_str_neq("snoozed_until"@, "team_assignee_id"@, 0);
    lemma_str_neq("snoozed_until"@, "tags"@, 0);
    lemma_str_neq("snoozed_until"@, "conversation_rating"@, 0);
    lemma_str_neq("snoozed_until"@, "source"@, 0);
    lemma_str_neq("snoozed_until"@, "contacts"@, 0);
    lemma_str_neq("snoozed_until"@, "teammates"@, 0);
    lemma_str_neq("snoozed_until"@, "custom_attributes"@, 0);
    lemma_str_neq("snoozed_until"@, "first_contact_reply"@, 0);
    lemma_str_neq("snoozed_until"@, "sla_applied"@, 0);
    lemma_str_neq("snoozed_until"@, "statistics"@, 0);
    lemma_str_neq("snoozed_until"@, "ai_agent_participated"@, 0);
    lemma_str_neq("snoozed_until"@, "ai_agent"@, 0);
    lemma_str_neq("open"@, "state"@, 0);
    lemma_str_neq("open"@, "read"@, 0);
    lemma_str_neq("open"@, "priority"@, 0);
    lemma_str_neq("open"@, "admin_assignee_id"@, 0);
    lemma_str_neq("open"@, "team_assignee_id"@, 0);
    lemma_str_neq("open"@, "tags"@, 0);
    lemma_str_neq("open"@, "conversation_rating"@, 0);
    lemma_str_neq("open"@, "source"@, 0);
    lemma_str_neq("open"@, "contacts"@, 0);
    lemma_str_neq("open"@, "teammates"@, 0);
    lemma_str_neq("open"@, "custom_attributes"@, 0);
    lemma_str_neq("open"@, "first_contact_reply"@, 0);
    lemma_str_neq("open"@, "sla_applied"@, 0);
    lemma_str_neq("open"@, "statistics"@, 0);
    lemma_str_neq("open"@, "ai_agent_participated"@, 0);
    lemma_str_neq("open"@, "ai_agent"@, 0);
    lemma_str_neq("state"@, "read"@, 0);
    lemma_str_neq("state"@, "priority"@, 0);
    lemma_str_neq("state"@, "admin_assignee_id"@, 0);
    lemma_str_neq("state"@, "team_assignee_id"@, 0);
    lemma_str_neq("state"@, "tags"@, 0);
    lemma_str_neq("state"@, "conversation_rating"@, 0);
    lemma_str_neq("state"@, "source"@, 0);
    lemma_str_neq("state"@, "contacts"@, 0);
    lemma_str_neq("state"@, "teammates"@, 0);
    lemma_str_neq("state"@, "custom_attributes"@, 0);
    lemma_str_neq("state"@, "first_contact_reply"@, 0);
    lemma_str_neq("state"@, "sla_applied"@, 0);
    lemma_str_neq("state"@, "statistics"@, 0);
    lemma_str_neq("state"@, "ai_agent_participated"@, 0);
    lemma_str_neq("state"@, "ai_agent"@, 0);
    lemma_str_neq("read"@, "priority"@, 0);
    lemma_str_neq("read"@, "admin_assignee_id"@, 0);
    lemma_str_neq("read"@, "team_assignee_id"@, 0);
    lemma_str_neq("read"@, "tags"@, 0);
    lemma_str_neq("read"@, "conversation_rating"@, 0);
    lemma_str_neq("read"@, "source"@, 0);
    lemma_str_neq("read"@, "contacts"@, 0);
    lemma_str_neq("read"@, "teammates"@, 0);
    lemma_str_neq("read"@, "custom_attributes"@, 0);
    lemma_str_neq("read"@, "first_contact_reply"@, 0);
    lemma_str_neq("read"@, "sla_applied"@, 0);
    lemma_str_neq("read"@, "statistics"@, 0);
    lemma_str_neq("read"@, "ai_agent_participated"@, 0);
    lemma_str_neq("read"@, "ai_agent"@, 0);
    lemma_str_neq("priority"@, "admin_assignee_id"@, 0);
    lemma_str_neq("priority"@, "team_assignee_id"@, 0);
    lemma_str_neq("priority"@, "tags"@, 0);
    lemma_str_neq("priority"@, "conversation_rating"@, 0);
    lemma_str_neq("priority"@, "source"@, 0);
    lemma_str_neq("priority"@, "contacts"@, 0);
    lemma_str_neq("priority"@, "teammates"@, 0);
    lemma_str_neq("priority"@, "custom_attributes"@, 0);
    lemma_str_neq("priority"@, "first_contact_reply"@, 0);
    lemma_str_neq("priority"@, "sla_applied"@, 0);
    lemma_str_neq("priority"@, "statistics"@, 0);
    lemma_str_neq("priority"@, "ai_agent_participated"@, 0);
    lemma_str_neq("priority"@, "ai_agent"@, 0);
    lemma_str_neq("admin_assignee_id"@, "team_assignee_id"@, 0);
    lemma_str_neq("admin_assignee_id"@, "tags"@, 0);
    lemma_str_neq("admin_assignee_id"@, "conversation_rating"@, 0);
    lemma_str_neq("admin_assignee_id"@, "source"@, 0);
    lemma_str_neq("admin_assignee_id"@, "contacts"@, 0);
    lemma_str_neq("admin_assignee_id"@, "teammates"@, 0);
    lemma_str_neq("admin_assignee_id"@, "custom_attributes"@, 0);
    lemma_str_neq("admin_assignee_id"@, "first_contact_reply"@, 0);
    lemma_str_neq("admin_assignee_id"@, "sla_applied"@, 0);
    lemma_str_neq("admin_assignee_id"@, "statistics"@, 0);
    lemma_str_neq("admin_assignee_id"@, "ai_agent_participated"@, 0);
    lemma_str_neq("admin_assignee_id"@, "ai_agent"@, 0);
    lemma_str_neq("team_assignee_id"@, "tags"@, 0);
    lemma_str_neq("team_assignee_id"@, "conversation_rating"@, 0);
    lemma_str_neq("team_assignee_id"@, "source"@, 0);
    lemma_str_neq("team_assignee_id"@, "contacts"@, 0);
    lemma_str_neq("team_assignee_id"@, "teammates"@, 0);
    lemma_str_neq("team_assignee_id"@, "custom_attributes"@, 0);
    lemma_str_neq("team_assignee_id"@, "first_contact_reply"@, 0);
    lemma_str_neq("team_assignee_id"@, "sla_applied"@, 0);
    lemma_str_neq("team_assignee_id"@, "statistics"@, 0);
    lemma_str_neq("team_assignee_id"@, "ai_agent_participated"@, 0);
    lemma_str_neq("team_assignee_id"@, "ai_agent"@, 0);
    lemma_str_neq("tags"@, "conversation_rating"@, 0);
    lemma_str_neq("tags"@, "source"@, 0);
    lemma_str_neq("tags"@, "contacts"@, 0);
    lemma_str_neq("tags"@, "teammates"@, 0);
    lemma_str_neq("tags"@, "custom_attributes"@, 0);
    lemma_str_neq("tags"@, "first_contact_reply"@, 0);
    lemma_str_neq("tags"@, "sla_applied"@, 0);
    lemma_str_neq("tags"@, "statistics"@, 0);
    lemma_str_neq("tags"@, "ai_agent_participated"@, 0);
    lemma_str_neq("tags"@, "ai_agent"@, 0);
    lemma_str_neq("conversation_rating"@, "source"@, 0);
    lemma_str_neq("conversation_rating"@, "contacts"@, 0);
    lemma_str_neq("conversation_rating"@, "teammates"@, 0);
    lemma_str_neq("conversation_rating"@, "custom_attributes"@, 0);
    lemma_str_neq("conversation_rating"@, "first_contact_reply"@, 0);
    lemma_str_neq("conversation_rating"@, "sla_applied"@, 0);
    lemma_str_neq("conversation_rating"@, "statistics"@, 0);
    lemma_str_neq("conversation_rating"@, "ai_agent_participated"@, 0);
    lemma_str_neq("conversation_rating"@, "ai_agent"@, 0);
    lemma_str_neq("source"@, "contacts"@, 0);
    lemma_str_neq("source"@, "teammates"@, 0);
    lemma_str_neq("source"@, "custom_attributes"@, 0);
    lemma_str_neq("source"@, "first_contact_reply"@, 0);
    lemma_str_neq("source"@, "sla_applied"@, 0);
    lemma_str_neq("source"@, "statistics"@, 0);
    lemma_str_neq("source"@, "ai_agent_participated"@, 0);
    lemma_str_neq("source"@, "ai_agent"@, 0);
    lemma_str_neq("contacts"@, "teammates"@, 0);
    lemma_str_neq("contacts"@, "custom_attributes"@, 0);
    lemma_str_neq("contacts"@, "first_contact_reply"@, 0);
    lemma_str_neq("contacts"@, "sla_applied"@, 0);
    lemma_str_neq("contacts"@, "statistics"@, 0);
    lemma_str_neq("contacts"@, "ai_agent_participated"@, 0);
    lemma_str_neq("contacts"@, "ai_agent"@, 0);
    lemma_str_neq("teammates"@, "custom_attributes"@, 0);
    lemma_str_neq("teammates"@, "first_contact_reply"@, 0);
    lemma_str_neq("teammates"@, "sla_applied"@, 0);
    lemma_str_neq("teammates"@, "statistics"@, 0);
    lemma_str_neq("teammates"@, "ai_agent_participated"@, 0);
    lemma_str_neq("teammates"@, "ai_agent"@, 0);
    lemma_str_neq("custom_attributes"@, "first_contact_reply"@, 0);
    lemma_str_neq("custom_attributes"@, "sla_applied"@, 0);
    lemma_str_neq("custom_attributes"@, "statistics"@, 0);
    lemma_str_neq("custom_attributes"@, "ai_agent_participated"@, 0);
    lemma_str_neq("custom_attributes"@, "ai_agent"@, 0);
    lemma_str_neq("first_contact_reply"@, "sla_applied"@, 0);
    lemma_str_neq("first_contact_reply"@, "statistics"@, 0);
    lemma_str_neq("first_contact_reply"@, "ai_agent_participated"@, 0);
    lemma_str_neq("first_contact_reply"@, "ai_agent"@, 0);
    lemma_str_neq("sla_applied"@, "statistics"@, 0);
    lemma_str_neq("sla_applied"@, "ai_agent_participated"@, 0);
    lemma_str_neq("sla_applied"@, "ai_agent"@, 0);
    lemma_str_neq("statistics"@, "ai_agent_participated"@, 0);
    lemma_str_neq("statistics"@, "ai_agent"@, 0);
    lemma_str_neq("ai_agent_participated"@, "ai_agent"@, 0);
    let fs = Conversation::spec_encode(v)->Obj_0;
    lemma_obj_get_at(fs, 0);
    lemma_obj_get_at(fs, 1);
    lemma_obj_get_at(fs, 2);
    lemma_obj_get_at(fs, 3);
    lemma_obj_get_at(fs, 4);
    lemma_obj_get_at(fs, 5);
    lemma_obj_get_at(fs, 6);
    lemma_obj_get_at(fs, 7);
    lemma_obj_get_at(fs, 8);
    lemma_obj_get_at(fs, 9);
    lemma_obj_get_at(fs, 10);
    lemma_obj_get_at(fs, 11);
    lemma_obj_get_at(fs, 12);
    lemma_obj_get_at(fs, 13);
    lemma_obj_get_at(fs, 14);
    lemma_obj_get_at(fs, 15);
    lemma_obj_get_at(fs, 16);
    lemma_obj_get_at(fs, 17);
    lemma_obj_get_at(fs, 18);
    lemma_obj_get_at(fs, 19);
    lemma_obj_get_at(fs, 20);
    lemma_obj_get_at(fs, 21);
    lemma_obj_get_at(fs, 22);
    lemma_obj_get_at(fs, 23);
    lemma_state_token_roundtrip(v.state);
    lemma_priority_token_roundtrip(v.priority);
    assert forall|i: int| 0 <= i < v.tags.len() implies Tag::spec_decode(
        Tag::spec_encode(#[trigger] v.tags[i]),
    ) == Some(v.tags[i]) by {
        lemma_tag_roundtrip(v.tags[i]);
    }
    lemma_fallback_wrap_roundtrip::<Tag>("tag.list"@, "tags"@, v.tags);
    if v.conversation_rating is Some {
        lemma_conversation_rating_roundtrip(v.conversation_rating->0);
    }
    lemma_source_roundtrip(v.source);
    assert forall|i: int| 0 <= i < v.contacts.len() implies ContactReference::spec_decode(
        ContactReference::spec_encode(#[trigger] v.contacts[i]),
    ) == Some(v.contacts[i]) by {
        lemma_contact_reference_roundtrip(v.contacts[i]);
    }
    lemma_fallback_wrap_roundtrip::<ContactReference>("contact.list"@, "contacts"@, v.contacts);
    assert forall|i: int| 0 <= i < v.teammates.len() implies Reference::spec_decode(
        Reference::spec_encode(#[trigger] v.teammates[i]),
    ) == Some(v.teammates[i]) by {
        lemma_reference_roundtrip(v.teammates[i]);
    }
    lemma_fallback_wrap_roundtrip::<Reference>("teammate.list"@, "teammates"@, v.teammates);
    lemma_attrs_roundtrip(v.custom_attributes);
    if v.first_contact_reply is Some {
        lemma_first_contact_reply_roundtrip(v.first_contact_reply->0);
    }
    if v.sla_applied is Some {
        lemma_applied_sla_roundtrip(v.sla_applied->0);
    }
    if v.statistics is Some {
        lemma_statistics_roundtrip(v.statistics->0);
    }
    lemma_ai_agent_roundtrip(v.ai_agent);
}

} // verus!
