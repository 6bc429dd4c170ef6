//! Writing an event and reading it back gives the same event.

use crate::error::DashScopeErrorView;
use crate::json::{
    lemma_field_empty, lemma_field_with_opt_other, lemma_field_with_opt_same,
    lemma_field_with_other, lemma_field_with_same, lemma_with_opt_object,
};
use crate::operation::audio::ws::output::{
    AsrOutputView, AsrSentenceView, AsrTranslationView, AsrUsageView, AsrWordView,
    AsrtranscriptionView, WebSocketEventHeaderView, WebSocketEventPayloadView, WebSocketEventView,
    decode_json, event_kind, header_member, lemma_event_type_names, lenient_boolean, payload_member,
    translations_from_json, translations_to_json, words_from_json, words_member, words_to_json,
};
use vstd::prelude::*;

verus! {

broadcast use {
    lemma_field_empty,
    lemma_field_with_other,
    lemma_field_with_same,
    lemma_field_with_opt_other,
    lemma_field_with_opt_same,
    lemma_with_opt_object,
};

/// A word is read back from its wire value.
pub proof fn lemma_word_roundtrip(w: AsrWordView)
    ensures
        AsrWordView::from_json(w.to_json()) == Some(w),
{
    reveal_strlit("begin_time");
    reveal_strlit("end_time");
    reveal_strlit("text");
    reveal_strlit("punctuation");
    assert("begin_time"@.len() == 10);
    assert("end_time"@.len() == 8);
    assert("text"@.len() == 4);
    assert("punctuation"@.len() == 11);
    let j = w.to_json();
    assert(j.req_u32("begin_time"@) == Some(w.begin_time));
    assert(j.req_u32("end_time"@) == Some(w.end_time));
    assert(j.opt_text("text"@) == Some(w.text));
    assert(j.req_text("punctuation"@) == Some(w.punctuation));
}

/// A run of words is read back from its wire array.
pub proof fn lemma_words_roundtrip(ws: Seq<AsrWordView>)
    ensures
        words_from_json(words_to_json(ws)) == Some(ws),
{
    let items = words_to_json(ws)->Array_0;
    assert forall|i: int| 0 <= i < items.len() implies (#[trigger] AsrWordView::from_json(
        items[i],
    )) == Some(ws[i]) by {
        lemma_word_roundtrip(ws[i]);
    }
    assert(words_from_json(words_to_json(ws))->0 =~= ws);
}

/// A usage is read back from its wire value.
pub proof fn lemma_usage_roundtrip(u: AsrUsageView)
    ensures
        AsrUsageView::from_json(u.to_json()) == Some(u),
{
    let j = u.to_json();
    assert(j.opt_u32("duration"@) == Some(u.duration));
}

/// A translation is read back from its wire value.
pub proof fn lemma_translation_roundtrip(t: AsrTranslationView)
    ensures
        AsrTranslationView::from_json(t.to_json()) == Some(t),
{
    let j = t.to_json();
    assert(j.opt_text("text"@) == Some(t.text));
}

/// A run of translations is read back from its wire array.
pub proof fn lemma_translations_roundtrip(ts: Seq<AsrTranslationView>)
    ensures
        translations_from_json(translations_to_json(ts)) == Some(ts),
{
    let items = translations_to_json(ts)->Array_0;
    assert forall|i: int| 0 <= i < items.len() implies (#[trigger] AsrTranslationView::from_json(
        items[i],
    )) == Some(ts[i]) by {
        lemma_translation_roundtrip(ts[i]);
    }
    assert(translations_from_json(translations_to_json(ts))->0 =~= ts);
}

/// A transcription is read back from its wire value.
pub proof fn lemma_transcription_roundtrip(t: AsrtranscriptionView)
    ensures
        AsrtranscriptionView::from_json(t.to_json()) == Some(t),
{
    reveal_strlit("sentence_id");
    reveal_strlit("begin_time");
    reveal_strlit("end_time");
    reveal_strlit("text");
    reveal_strlit("lang");
    reveal_strlit("words");
    reveal_strlit("sentence_end");
    assert("sentence_id"@.len() == 11);
    assert("begin_time"@.len() == 10);
    assert("end_time"@.len() == 8);
    assert("text"@.len() == 4);
    assert("lang"@.len() == 4);
    assert("words"@.len() == 5);
    assert("sentence_end"@.len() == 12);
    assert("text"@[0] == 't');
    assert("lang"@[0] == 'l');
    lemma_words_roundtrip(t.words);
    let j = t.to_json();
    assert(j.req_u32("sentence_id"@) == Some(t.sentence_id));
    assert(j.opt_u32("begin_time"@) == Some(t.begin_time));
    assert(j.opt_u32("end_time"@) == Some(t.end_time));
    assert(j.opt_text("text"@) == Some(t.text));
    assert(j.opt_text("lang"@) == Some(t.lang));
    assert(words_member(j) == Some(t.words));
    assert(lenient_boolean(j, "sentence_end"@) == Some(t.sentence_end));
}

/// A well-formed sentence is read back from its wire value.
pub proof fn lemma_sentence_roundtrip(t: AsrSentenceView)
    requires
        t.wf(),
    ensures
        AsrSentenceView::from_json(t.to_json()) == Some(t),
{
    reveal_strlit("index");
    reveal_strlit("begin_time");
    reveal_strlit("end_time");
    reveal_strlit("text");
    reveal_strlit("words");
    reveal_strlit("heartbeat");
    reveal_strlit("sentence_end");
    reveal_strlit("emo_tag");
    reveal_strlit("emo_confidence");
    assert("index"@.len() == 5);
    assert("begin_time"@.len() == 10);
    assert("end_time"@.len() == 8);
    assert("text"@.len() == 4);
    assert("words"@.len() == 5);
    assert("heartbeat"@.len() == 9);
    assert("sentence_end"@.len() == 12);
    assert("emo_tag"@.len() == 7);
    assert("emo_confidence"@.len() == 14);
    assert("index"@[0] == 'i');
    assert("words"@[0] == 'w');
    lemma_words_roundtrip(t.words);
    let j = t.to_json();
    assert(j.opt_u32("index"@) == Some(t.index));
    assert(j.opt_u32("begin_time"@) == Some(t.begin_time));
    assert(j.opt_u32("end_time"@) == Some(t.end_time));
    assert(j.opt_text("text"@) == Some(t.text));
    assert(words_member(j) == Some(t.words));
    assert(j.opt_boolean("heartbeat"@) == Some(t.heartbeat));
    assert(lenient_boolean(j, "sentence_end"@) == Some(t.sentence_end));
    assert(j.opt_text("emo_tag"@) == Some(t.emo_tag));
    assert(j.opt_number("emo_confidence"@) == Some(t.emo_confidence));
}

/// A well-formed output is read back from its wire value.
pub proof fn lemma_output_roundtrip(t: AsrOutputView)
    requires
        t.wf(),
    ensures
        AsrOutputView::from_json(t.to_json()) == Some(t),
{
    reveal_strlit("sentence");
    reveal_strlit("translations");
    reveal_strlit("transcription");
    assert("sentence"@.len() == 8);
    assert("translations"@.len() == 12);
    assert("transcription"@.len() == 13);
    if t.sentence is Some {
        lemma_sentence_roundtrip(t.sentence->0);
    }
    if t.translations is Some {
        lemma_translations_roundtrip(t.translations->0);
    }
    if t.transcription is Some {
        lemma_transcription_roundtrip(t.transcription->0);
    }
    let j = t.to_json();
    assert(AsrOutputView::sentence_member(j) == Some(t.sentence));
    assert(AsrOutputView::translations_member(j) == Some(t.translations));
    assert(AsrOutputView::transcription_member(j) == Some(t.transcription));
}

/// A well-formed payload is read back from its wire value.
pub proof fn lemma_payload_roundtrip(t: WebSocketEventPayloadView)
    requires
        t.wf(),
    ensures
        WebSocketEventPayloadView::from_json(t.to_json()) == Some(t),
{
    reveal_strlit("output");
    reveal_strlit("usage");
    assert("output"@.len() == 6);
    assert("usage"@.len() == 5);
    if t.output is Some {
        lemma_output_roundtrip(t.output->0);
    }
    if t.usage is Some {
        lemma_usage_roundtrip(t.usage->0);
    }
    let j = t.to_json();
    assert(WebSocketEventPayloadView::output_member(j) == Some(t.output));
    assert(WebSocketEventPayloadView::usage_member(j) == Some(t.usage));
}

/// A header is read back from its wire value.
pub proof fn lemma_header_roundtrip(t: WebSocketEventHeaderView)
    ensures
        WebSocketEventHeaderView::from_json(t.to_json()) == Some(t),
        t.to_json().req_text("event"@) == Some(t.event),
{
    reveal_strlit("task_id");
    reveal_strlit("event");
    reveal_strlit("attributes");
    reveal_strlit("error_code");
    reveal_strlit("error_message");
    assert("task_id"@.len() == 7);
    assert("event"@.len() == 5);
    assert("attributes"@.len() == 10);
    assert("error_code"@.len() == 10);
    assert("error_message"@.len() == 13);
    assert("attributes"@[0] == 'a');
    assert("error_code"@[0] == 'e');
    let j = t.to_json();
    assert(j.req_text("task_id"@) == Some(t.task_id));
    assert(j.req_text("event"@) == Some(t.event));
    assert(j.field("attributes"@) == Some(t.attributes));
    assert(j.opt_text("error_code"@) == Some(t.error_code));
    assert(j.opt_text("error_message"@) == Some(t.error_message));
}

/// Round trip: an event whose header names its kind is read back, as the
/// same event, from the document that it is written as. This holds for each
/// of the four kinds and for every choice of present and absent members.
pub proof fn lemma_event_roundtrip(e: WebSocketEventView, raw: Seq<char>)
    requires
        e.wf(),
    ensures
        decode_json(e.to_json(), raw) == Ok::<WebSocketEventView, DashScopeErrorView>(e),
{
    reveal_strlit("header");
    reveal_strlit("payload");
    assert("header"@.len() == 6);
    assert("payload"@.len() == 7);
    lemma_header_roundtrip(e.header());
    lemma_event_type_names(e.kind());
    if e.payload() is Some {
        lemma_payload_roundtrip(e.payload()->0);
    }
    let j = e.to_json();
    assert(j.field("header"@) == Some(e.header().to_json()));
    assert(event_kind(j) == Some(e.header().event));
    assert(header_member(j) == Some(e.header()));
    if e.payload() is Some {
        assert(payload_member(j) == e.payload());
    }
}

} // verus!
