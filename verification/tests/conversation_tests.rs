use conversation_ingest::company::Company;
use conversation_ingest::conversation::{
    AIAgent, AppliedSLA, Attachment, Author, ContactReference, ContentSources, ContentType,
    Conversation, ConversationPriority, ConversationRating, ConversationSource, ConversationState,
    FirstContactReply, LastAnswerType, Reference, ResolutionState, SLAStatus, SourceType,
    Statistics, Tag,
};
use conversation_ingest::ingest::{decode_document, deserialize_conversation};
use conversation_ingest::json::{fallback_list, Json, JsonCodec};
use conversation_ingest::notification::Notification;
use conversation_ingest::timestamp::Timestamp;

fn s(text: &str) -> String {
    text.to_string()
}

fn dt(text: &str) -> Timestamp {
    Timestamp { secs: chrono::DateTime::parse_from_rfc3339(text).unwrap().timestamp() }
}

const NOTIFICATION_JSON: &str = r#"{
  "type": "notification_event",
  "id": "notif_ccd8a4d0-f965-11e3-a367-c779cae3e1b3",
  "created_at": 1392731331,
  "topic": "company.created",
  "delivery_attempts": 1,
  "first_sent_at": 1392731392,
  "data": {
    "item": {
      "type": "company",
      "id": "531ee472cce572a6ec000006",
      "name": "Blue Sun",
      "company_id": "6",
      "remote_created_at": 1394531169,
      "created_at": 1394533506,
      "updated_at": 1396874658,
      "custom_attributes": {}
    }
  }
}"#;

const CONVERSATION_JSON: &str = r#"{
  "type": "conversation",
  "id": "1295",
  "title": "Conversation Title",
  "created_at": 1663597223,
  "updated_at": 1663597260,
  "waiting_since": 1663597260,
  "snoozed_until": 1663597260,
  "open": true,
  "state": "open",
  "read": true,
  "priority": "priority",
  "admin_assignee_id": 0,
  "team_assignee_id": "5017691",
  "tags": {
    "type": "tag.list",
    "tags": [
      {"type": "tag", "id": "123456", "name": "Test tag", "applied_at": 1663597223}
    ]
  },
  "conversation_rating": {
    "rating": 5,
    "remark": "",
    "created_at": 1671028894,
    "contact": {"type": "contact", "id": "5ba682d23d7cf92bef87bfd4", "external_id": "f3b87a2e09d514c6c2e79b9a"},
    "teammate": {"type": "contact", "id": "1a2b3c"}
  },
  "source": {
    "type": "conversation",
    "id": "3",
    "delivered_as": "operator_initiated",
    "subject": "",
    "body": "<p>Hey there!</p>",
    "author": {"type": "admin", "id": "274", "name": "Operator", "email": "operator+abcd1234@intercom.io"},
    "attachments": [
      {"type": "upload", "name": "example.png", "url": "https://picsum.photos/200/300", "content_type": "image/png", "filesize": 100, "width": 100, "height": 100}
    ],
    "url": null,
    "redacted": false
  },
  "contacts": {
    "type": "contact.list",
    "contacts": [
      {"type": "contact", "id": "5ba682d23d7cf92bef87bfd4", "external_id": "f3b87a2e09d514c6c2e79b9a"}
    ]
  },
  "teammates": {
    "type": "admin.list",
    "teammates": []
  },
  "custom_attributes": {
    "property2": "string",
    "property1": "string"
  },
  "first_contact_reply": {
    "created_at": 1663597223,
    "type": "conversation",
    "url": "https://developers.intercom.com/"
  },
  "sla_applied": {
    "type": "conversation_sla_summary",
    "sla_name": "",
    "sla_status": "hit"
  },
  "statistics": {
    "type": "conversation_statistics",
    "time_to_assignment": 2310,
    "time_to_admin_reply": 2310,
    "time_to_first_close": 2310,
    "time_to_last_close": 2310,
    "median_time_to_reply": 2310,
    "first_contact_reply_at": 1663597233,
    "first_assignment_at": 1663597233,
    "first_admin_reply_at": 1663597233,
    "first_close_at": 1663597233,
    "last_assignment_at": 1663597233,
    "last_assignment_admin_reply_at": 1663597233,
    "last_contact_reply_at": 1663597233,
    "last_admin_reply_at": 1663597233,
    "last_close_at": 1663597233,
    "last_closed_by_id": "c3po",
    "count_reopens": 1,
    "count_assignments": 1,
    "count_conversation_parts": 1
  },
  "ai_agent_participated": true,
  "ai_agent": {
    "source_type": "workflow",
    "source_title": "My AI Workflow",
    "last_answer_type": "ai_answer",
    "resolution_state": "assumed_resolution",
    "rating": 4,
    "rating_remark": "Very helpful!",
    "content_sources": {
      "type": "content_source.list",
      "content_sources": [
        {"content_type": "content_snippet", "url": "/fin-ai-agent/content?content=content_snippet&id=3234924", "title": "My internal content snippet", "locale": "en"}
      ]
    }
  }
}"#;

fn expected_conversation() -> Conversation {
    Conversation {
        typ: s("conversation"),
        id: s("1295"),
        title: Some(s("Conversation Title")),
        created_at: dt("2022-09-19T14:20:23Z"),
        updated_at: dt("2022-09-19T14:21:00Z"),
        waiting_since: Some(dt("2022-09-19T14:21:00Z")),
        snoozed_until: Some(dt("2022-09-19T14:21:00Z")),
        open: true,
        state: ConversationState::Open,
        read: true,
        priority: ConversationPriority::Priority,
        admin_assignee_id: Some(0),
        team_assignee_id: Some(s("5017691")),
        tags: vec![Tag {
            typ: s("tag"),
            id: s("123456"),
            name: s("Test tag"),
            applied_at: dt("2022-09-19T14:20:23Z"),
        }],
        conversation_rating: Some(ConversationRating {
            rating: 5,
            remark: s(""),
            created_at: dt("2022-12-14T14:41:34Z"),
            contact: ContactReference {
                reference: Reference { typ: s("contact"), id: s("5ba682d23d7cf92bef87bfd4") },
                external_id: Some(s("f3b87a2e09d514c6c2e79b9a")),
            },
            teammate: Reference { typ: s("contact"), id: s("1a2b3c") },
        }),
        source: ConversationSource {
            typ: s("conversation"),
            id: s("3"),
            delivered_as: s("operator_initiated"),
            subject: s(""),
            body: s("<p>Hey there!</p>"),
            author: Author {
                typ: s("admin"),
                id: s("274"),
                name: s("Operator"),
                email: s("operator+abcd1234@intercom.io"),
            },
            attachments: vec![Attachment {
                typ: s("upload"),
                name: s("example.png"),
                url: s("https://picsum.photos/200/300"),
                content_type: s("image/png"),
                filesize: 100,
                width: 100,
                height: 100,
            }],
            url: None,
            redacted: false,
        },
        contacts: vec![ContactReference {
            reference: Reference { typ: s("contact"), id: s("5ba682d23d7cf92bef87bfd4") },
            external_id: Some(s("f3b87a2e09d514c6c2e79b9a")),
        }],
        teammates: vec![],
        // The mapping is unordered; the transport hands keys over sorted.
        custom_attributes: vec![(s("property1"), s("string")), (s("property2"), s("string"))],
        first_contact_reply: Some(FirstContactReply {
            created_at: dt("2022-09-19T14:20:23Z"),
            typ: s("conversation"),
            url: Some(s("https://developers.intercom.com/")),
        }),
        sla_applied: Some(AppliedSLA {
            typ: s("conversation_sla_summary"),
            sla_name: s(""),
            sla_status: SLAStatus::Hit,
        }),
        statistics: Some(Statistics {
            typ: s("conversation_statistics"),
            time_to_assignment: 2310,
            time_to_admin_reply: 2310,
            time_to_first_close: 2310,
            time_to_last_close: 2310,
            median_time_to_reply: 2310,
            first_contact_reply_at: dt("2022-09-19T14:20:33Z"),
            first_assignment_at: dt("2022-09-19T14:20:33Z"),
            first_admin_reply_at: dt("2022-09-19T14:20:33Z"),
            first_close_at: dt("2022-09-19T14:20:33Z"),
            last_assignment_at: dt("2022-09-19T14:20:33Z"),
            last_assignment_admin_reply_at: dt("2022-09-19T14:20:33Z"),
            last_contact_reply_at: dt("2022-09-19T14:20:33Z"),
            last_admin_reply_at: dt("2022-09-19T14:20:33Z"),
            last_close_at: dt("2022-09-19T14:20:33Z"),
            last_closed_by_id: s("c3po"),
            count_reopens: 1,
            count_assignments: 1,
            count_conversation_parts: 1,
        }),
        ai_agent_participated: true,
        ai_agent: AIAgent {
            source_type: SourceType::Workflow,
            source_title: Some(s("My AI Workflow")),
            last_answer_type: Some(LastAnswerType::AIAnswer),
            resolution_state: ResolutionState::AssumedResolution,
            rating: 4,
            rating_remark: s("Very helpful!"),
            content_sources: vec![ContentSources {
                content_type: ContentType::ContentSnippet,
                url: s("/fin-ai-agent/content?content=content_snippet&id=3234924"),
                title: s("My internal content snippet"),
                locale: s("en"),
            }],
        },
    }
}

#[test]
fn notification_test() {
    let notification: Notification<Company> =
        decode_document::<Notification<Company>>(NOTIFICATION_JSON).unwrap();

    assert_eq!(
        notification,
        Notification {
            typ: s("notification_event"),
            id: s("notif_ccd8a4d0-f965-11e3-a367-c779cae3e1b3"),
            url: None,
            created_at: dt("2014-02-18T13:48:51Z"),
            topic: s("company.created"),
            delivery_attempts: 1,
            first_sent_at: dt("2014-02-18T13:49:52Z"),
            data: Company {
                typ: s("company"),
                id: s("531ee472cce572a6ec000006"),
                name: s("Blue Sun"),
                company_id: s("6"),
                remote_created_at: dt("2014-03-11T09:46:09Z"),
                created_at: dt("2014-03-11T10:25:06Z"),
                updated_at: dt("2014-04-07T12:44:18Z"),
                custom_attributes: vec![],
            },
        }
    )
}

#[test]
fn conversation_deserialization_test() {
    let conversation: Conversation =
        decode_document::<Conversation>(CONVERSATION_JSON).expect("Failed to deserialize conversation");

    assert_eq!(conversation, expected_conversation());

    assert_eq!(conversation.created_at, dt("2022-09-19T14:20:23Z"));

    assert_eq!(
        conversation.tags[0],
        Tag {
            typ: "tag".into(),
            id: "123456".into(),
            name: "Test tag".into(),
            applied_at: dt("2022-09-19T14:20:23Z"),
        }
    );
}

#[test]
fn tag_list_deserialize() {
    let now = dt("2024-01-01T00:00:00Z");

    let expected = vec![Tag { typ: s("tag"), id: s("1"), name: s("tag name"), applied_at: now }];

    let tag_list_json = Json::Obj(vec![
        (s("type"), Json::Str(s("tag.list"))),
        (
            s("tags"),
            Json::Arr(vec![Json::Obj(vec![
                (s("type"), Json::Str(s("tag"))),
                (s("id"), Json::Str(s("1"))),
                (s("name"), Json::Str(s("tag name"))),
                (s("applied_at"), Json::Int(1704067200)),
            ])]),
        ),
    ]);

    let tags: Vec<Tag> = fallback_list::<Tag>(Some(&tag_list_json), "tags");

    assert_eq!(expected, tags)
}

#[test]
fn conversation_roundtrip() {
    let conversation = decode_document::<Conversation>(CONVERSATION_JSON).unwrap();
    let encoded: Json = conversation.encode_json();
    let again = Conversation::decode_json(&encoded).unwrap();
    assert_eq!(conversation, again);
}

fn conversation_envelope_json() -> String {
    let head = r#"{
  "type": "notification_event",
  "id": "notif_1",
  "self": null,
  "created_at": 1392731331,
  "topic": "conversation.admin.replied",
  "delivery_attempts": 1,
  "first_sent_at": 1392731392,
  "data": {
    "item": "#;
    format!("{}{}{}", head, CONVERSATION_JSON, "\n  }\n}")
}

#[test]
fn notification_self_url_is_kept() {
    let text = conversation_envelope_json()
        .replace("\"self\": null", "\"self\": \"https://api.example.com/notif_1\"");
    let notification = deserialize_conversation(&text).unwrap();
    assert_eq!(notification.url, Some(s("https://api.example.com/notif_1")));
}

#[test]
fn notification_envelope_roundtrip() {
    let text = conversation_envelope_json();
    let notification = deserialize_conversation(&text).unwrap();
    assert_eq!(notification.topic, s("conversation.admin.replied"));
    assert_eq!(notification.url, None);
    assert_eq!(notification.data, expected_conversation());
    let encoded = notification.encode_json();
    let again = Notification::<Conversation>::decode_json(&encoded).unwrap();
    assert_eq!(notification, again);
}
