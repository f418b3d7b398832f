//! The top of the ingestion layer: one call from transport text to a decoded
//! value, and the batch-error selector that the hosting runtime reports from.

use crate::conversation::{lemma_conversation_roundtrip, Conversation, ConversationV};
use crate::json::JsonCodec;
use crate::notification::{lemma_notification_roundtrip, Notification, NotificationV};
use crate::parse::{json_of, parse_text};
use vstd::prelude::*;

verus! {

/// Decoding the encoding of a fully-populated conversation notification —
/// the exact value the production path hands back out for re-serialization —
/// gives it back unchanged.
pub proof fn lemma_conversation_notification_roundtrip(v: NotificationV<ConversationV>)
    requires
        v.wf_envelope(),
        v.data.wf(),
    ensures
        Notification::<Conversation>::spec_decode(Notification::<Conversation>::spec_encode(v))
            == Some(v),
{
    lemma_conversation_roundtrip(v.data);
    lemma_notification_roundtrip::<Conversation>(v);
}

/// Decodes one JSON document into any codec type.  The result is pinned by
/// the parse of the text and the type's own decode: no partial value is ever
/// produced — decoding is atomic per document.
pub fn decode_document<T: JsonCodec>(text: &str) -> (r: Option<T>)
    ensures
        match json_of(text@) {
            None => r is None,
            Some(j) => match r {
                Some(v) => T::spec_decode(j) == Some(v.deep_view()),
                None => T::spec_decode(j) is None,
            },
        },
{
    match parse_text(text) {
        Some(j) => T::decode_json(&j),
        None => None,
    }
}

/// The production path: one record's text decoded as a conversation inside
/// its notification envelope.  A failure of any kind — unparseable text, a
/// wrong envelope shape, a failing payload — yields `None`, and the caller
/// drops the record rather than crash.
pub fn deserialize_conversation(content: &str) -> (r: Option<Notification<Conversation>>)
    ensures
        match json_of(content@) {
            None => r is None,
            Some(j) => match r {
                Some(v) => Notification::<Conversation>::spec_decode(j) == Some(v.deep_view()),
                None => Notification::<Conversation>::spec_decode(j) is None,
            },
        },
{
    decode_document::<Notification<Conversation>>(content)
}

/// The positions of the failed results in a batch, in order.
pub open spec fn err_indices<O, E>(s: Seq<Result<O, E>>) -> Seq<usize>
    decreases s.len(),
{
    if s.len() == 0 {
        Seq::empty()
    } else {
        let rest = err_indices(s.drop_last());
        if s.last() is Err {
            rest.push((s.len() - 1) as usize)
        } else {
            rest
        }
    }
}

/// Selects which results of a batch failed, in order of occurrence: the
/// caller reports `msg` once for each returned index.  The reporting itself
/// is I/O and stays with the caller.
pub fn log_errors<O, E>(msg: &str, results: &[Result<O, E>]) -> (r: Vec<usize>)
    ensures
        r@ == err_indices(results@),
{
    let ghost all = results@;
    let mut out: Vec<usize> = Vec::new();
    let mut idx: usize = 0;
    let _ = msg;
    proof {
        assert(all.take(0) =~= Seq::<Result<O, E>>::empty());
        assert(out@ =~= err_indices(all.take(0)));
    }
    while idx < results.len()
        invariant
            idx <= results.len(),
            all == results@,
            all.len() == results.len(),
            out@ == err_indices(all.take(idx as int)),
        decreases results.len() - idx,
    {
        proof {
            assert(all.take(idx as int + 1).drop_last() =~= all.take(idx as int));
            assert(all.take(idx as int + 1).last() == all[idx as int]);
        }
        if results[idx].is_err() {
            out.push(idx);
        }
        idx = idx + 1;
    }
    proof {
        assert(all.take(results.len() as int) =~= all);
    }
    out
}

} // verus!
