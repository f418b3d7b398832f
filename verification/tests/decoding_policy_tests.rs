//! The decoding policy, exercised case by case: fallback absorption and its
//! limits, enum strictness, timestamp exactness, attribute merging, and the
//! failure modes that must stay failures.

use conversation_ingest::conversation::{ConversationState, SLAStatus, Tag};
use conversation_ingest::conversation::{AppliedSLA, Conversation};
use conversation_ingest::ingest::{decode_document, log_errors};
use conversation_ingest::json::{decode_attrs, fallback_list, Json, JsonCodec, WireEnum};
use conversation_ingest::timestamp::Timestamp;

fn s(text: &str) -> String {
    text.to_string()
}

fn tag_wrapper(entries: Vec<Json>) -> Json {
    Json::Obj(vec![(s("type"), Json::Str(s("tag.list"))), (s("tags"), Json::Arr(entries))])
}

#[test]
fn fallback_empty_list_and_absent_field_agree() {
    let with_empty_list = tag_wrapper(vec![]);
    let without_field = Json::Obj(vec![(s("type"), Json::Str(s("tag.list")))]);

    let from_empty: Vec<Tag> = fallback_list::<Tag>(Some(&with_empty_list), "tags");
    let from_absent: Vec<Tag> = fallback_list::<Tag>(Some(&without_field), "tags");

    assert_eq!(from_empty, Vec::<Tag>::new());
    assert_eq!(from_absent, Vec::<Tag>::new());
}

#[test]
fn fallback_absorbs_invalid_element() {
    // The element is missing its `id`, so it does not decode as a Tag: the
    // whole collection falls back to empty instead of failing.
    let broken = tag_wrapper(vec![Json::Obj(vec![
        (s("type"), Json::Str(s("tag"))),
        (s("name"), Json::Str(s("no id"))),
        (s("applied_at"), Json::Int(1704067200)),
    ])]);
    let tags: Vec<Tag> = fallback_list::<Tag>(Some(&broken), "tags");
    assert_eq!(tags, Vec::<Tag>::new());
}

#[test]
fn fallback_rejects_bare_list() {
    // A bare array is not the wrapper shape: it is absorbed to empty too.
    let bare = Json::Arr(vec![Json::Obj(vec![
        (s("type"), Json::Str(s("tag"))),
        (s("id"), Json::Str(s("1"))),
        (s("name"), Json::Str(s("x"))),
        (s("applied_at"), Json::Int(0)),
    ])]);
    let tags: Vec<Tag> = fallback_list::<Tag>(Some(&bare), "tags");
    assert_eq!(tags, Vec::<Tag>::new());
}

const MINIMAL_CONVERSATION: &str = r#"{
  "type": "conversation",
  "id": "77",
  "title": null,
  "created_at": 1663597223,
  "updated_at": 1663597260,
  "waiting_since": null,
  "snoozed_until": null,
  "open": false,
  "state": "snoozed",
  "read": false,
  "priority": "not_priority",
  "admin_assignee_id": null,
  "team_assignee_id": null,
  "tags": {"type": "tag.list", "tags": [{"type": "tag", "name": "broken, no id", "applied_at": 1}]},
  "conversation_rating": null,
  "source": {
    "type": "conversation",
    "id": "3",
    "delivered_as": "customer_initiated",
    "subject": "",
    "body": "hi",
    "author": {"type": "user", "id": "9", "name": "A", "email": "a@example.com"},
    "attachments": [],
    "url": null,
    "redacted": false
  },
  "contacts": {"type": "contact.list", "contacts": []},
  "teammates": {"type": "admin.list", "teammates": []},
  "custom_attributes": {},
  "first_contact_reply": null,
  "sla_applied": null,
  "statistics": null,
  "ai_agent_participated": false,
  "ai_agent": {
    "source_type": "profile",
    "source_title": null,
    "last_answer_type": null,
    "resolution_state": "abandoned",
    "rating": 0,
    "rating_remark": "",
    "content_sources": {"type": "content_source.list", "content_sources": []}
  }
}"#;

#[test]
fn invalid_tag_element_leaves_siblings_intact() {
    // The tag inside the wrapper is structurally invalid, yet the enclosing
    // conversation decodes; only the tags collection is emptied.
    let conversation = decode_document::<Conversation>(MINIMAL_CONVERSATION).unwrap();
    assert_eq!(conversation.tags, Vec::<Tag>::new());
    assert_eq!(conversation.id, s("77"));
    assert_eq!(conversation.state, ConversationState::Snoozed);
    assert_eq!(conversation.title, None);
    assert_eq!(conversation.statistics, None);
}

#[test]
fn state_vocabulary_is_closed() {
    assert_eq!(ConversationState::from_token("archived"), None);
    assert_eq!(ConversationState::from_token("snoozed"), Some(ConversationState::Snoozed));
    assert_eq!(ConversationState::from_token("open"), Some(ConversationState::Open));
    assert_eq!(ConversationState::from_token("closed"), Some(ConversationState::Closed));
}

#[test]
fn unknown_enum_token_fails_whole_decode() {
    let text = MINIMAL_CONVERSATION.replace("\"state\": \"snoozed\"", "\"state\": \"archived\"");
    assert_eq!(decode_document::<Conversation>(&text), None);
}

#[test]
fn timestamp_decodes_and_reencodes_exactly() {
    let expected = Timestamp {
        secs: chrono::DateTime::parse_from_rfc3339("2024-01-01T00:00:00Z").unwrap().timestamp(),
    };
    let decoded = Timestamp::decode_json(&Json::Int(1704067200)).unwrap();
    assert_eq!(decoded, expected);
    assert_eq!(decoded.encode_json(), Json::Int(1704067200));
    assert_eq!(decoded.epoch_seconds(), 1704067200);
}

#[test]
fn present_but_invalid_timestamp_fails() {
    let text = MINIMAL_CONVERSATION
        .replace("\"waiting_since\": null", "\"waiting_since\": \"yesterday\"");
    assert_eq!(decode_document::<Conversation>(&text), None);
}

#[test]
fn missing_required_field_fails() {
    let text = MINIMAL_CONVERSATION.replace("  \"id\": \"77\",\n", "");
    assert_eq!(decode_document::<Conversation>(&text), None);
}

#[test]
fn partial_optional_substructure_fails() {
    // An sla_applied object missing its status is a hard failure for the
    // whole record, not a coercion to "absent".
    let text = MINIMAL_CONVERSATION.replace(
        "\"sla_applied\": null",
        "\"sla_applied\": {\"type\": \"conversation_sla_summary\", \"sla_name\": \"gold\"}",
    );
    assert_eq!(decode_document::<Conversation>(&text), None);

    let partial = Json::Obj(vec![
        (s("type"), Json::Str(s("conversation_sla_summary"))),
        (s("sla_name"), Json::Str(s("gold"))),
    ]);
    assert_eq!(AppliedSLA::decode_json(&partial), None);

    let full = Json::Obj(vec![
        (s("type"), Json::Str(s("conversation_sla_summary"))),
        (s("sla_name"), Json::Str(s("gold"))),
        (s("sla_status"), Json::Str(s("missed"))),
    ]);
    assert_eq!(
        AppliedSLA::decode_json(&full),
        Some(AppliedSLA {
            typ: s("conversation_sla_summary"),
            sla_name: s("gold"),
            sla_status: SLAStatus::Missed,
        })
    );
}

#[test]
fn unparseable_text_fails() {
    assert_eq!(decode_document::<Conversation>("not json at all"), None);
    assert_eq!(decode_document::<Conversation>(""), None);
}

#[test]
fn fractional_number_is_outside_the_wire_contract() {
    let text = MINIMAL_CONVERSATION.replace("\"created_at\": 1663597223", "\"created_at\": 16.5");
    assert_eq!(decode_document::<Conversation>(&text), None);
}

#[test]
fn out_of_range_count_fails() {
    let text = MINIMAL_CONVERSATION.replace(
        "\"rating\": 0",
        "\"rating\": 300"
    );
    // AIAgent's rating is an unsigned 8-bit value on the wire.
    assert_eq!(decode_document::<Conversation>(&text), None);
}

#[test]
fn custom_attributes_last_value_wins() {
    let attrs = Json::Obj(vec![
        (s("a"), Json::Str(s("first"))),
        (s("b"), Json::Str(s("kept"))),
        (s("a"), Json::Str(s("second"))),
    ]);
    let decoded = decode_attrs(&attrs).unwrap();
    assert_eq!(decoded, vec![(s("a"), s("second")), (s("b"), s("kept"))]);

    let not_strings = Json::Obj(vec![(s("a"), Json::Int(3))]);
    assert_eq!(decode_attrs(&not_strings), None);
}

#[test]
fn absent_optional_field_is_no_value() {
    let text = MINIMAL_CONVERSATION.replace("  \"title\": null,\n", "");
    let conversation = decode_document::<Conversation>(&text).unwrap();
    assert_eq!(conversation.title, None);
}

#[test]
fn absent_wrapped_collection_falls_back_to_empty() {
    let without_tags = MINIMAL_CONVERSATION.replace(
        "  \"tags\": {\"type\": \"tag.list\", \"tags\": [{\"type\": \"tag\", \"name\": \"broken, no id\", \"applied_at\": 1}]},\n",
        "",
    );
    assert_ne!(without_tags, MINIMAL_CONVERSATION);
    let conversation = decode_document::<Conversation>(&without_tags).unwrap();
    assert_eq!(conversation.tags, Vec::<Tag>::new());
}

#[test]
fn log_errors_selects_failing_positions() {
    let results: Vec<Result<i32, String>> =
        vec![Ok(1), Err(s("boom")), Ok(2), Err(s("bad")), Ok(3)];
    let failed = log_errors("push failed", &results);
    assert_eq!(failed, vec![1usize, 3usize]);

    let none_failed: Vec<Result<i32, String>> = vec![Ok(1), Ok(2)];
    assert_eq!(log_errors("push failed", &none_failed), Vec::<usize>::new());
}
