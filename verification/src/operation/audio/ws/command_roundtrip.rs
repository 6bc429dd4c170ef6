//! Writing a command and reading it back gives the same command.

use crate::json::{
    lemma_field_empty, lemma_field_with_opt_other, lemma_field_with_opt_same,
    lemma_field_with_other, lemma_field_with_same, lemma_with_opt_object,
};
use crate::operation::audio::ws::param::{
    ContinueTaskInputView, ContinueTaskParametersView, ContinueTaskPayloadView,
    FinishTaskParametersView, FinishTaskPayloadView, RunTaskFunction, RunTaskParametersView,
    RunTaskPayloadView, RunTaskType, TaskAction, TaskHeaderView, TaskParametersView, TextType,
};
use crate::wire::texts_to_json;
use vstd::prelude::*;

verus! {

impl TaskAction {
    /// The wire names are pairwise different: every action is read back from
    /// its own name.
    pub proof fn lemma_names()
        ensures
            forall|t: TaskAction| TaskAction::named(#[trigger] t.text()) == Some(t),
    {
        reveal_strlit("run-task");
        reveal_strlit("finish-task");
        reveal_strlit("continue-task");
        assert("run-task"@.len() == 8);
        assert("finish-task"@.len() == 11);
        assert("continue-task"@.len() == 13);
    }
}

impl RunTaskType {
    /// The wire names are pairwise different: every family is read back from
    /// its own name.
    pub proof fn lemma_names()
        ensures
            forall|t: RunTaskType| RunTaskType::named(#[trigger] t.text()) == Some(t),
    {
        reveal_strlit("asr");
        reveal_strlit("tts");
        assert("asr"@.len() == 3);
        assert("tts"@.len() == 3);
        assert("asr"@[0] == 'a');
        assert("tts"@[0] == 't');
    }
}

impl RunTaskFunction {
    /// The wire names are pairwise different: every function is read back from
    /// its own name.
    pub proof fn lemma_names()
        ensures
            forall|t: RunTaskFunction| RunTaskFunction::named(#[trigger] t.text()) == Some(t),
    {
        reveal_strlit("recognition");
        reveal_strlit("SpeechSynthesizer");
        assert("recognition"@.len() == 11);
        assert("SpeechSynthesizer"@.len() == 17);
    }
}

impl TextType {
    /// The wire names are pairwise different: every text kind is read back from
    /// its own name.
    pub proof fn lemma_names()
        ensures
            forall|t: TextType| TextType::named(#[trigger] t.text()) == Some(t),
    {
        reveal_strlit("PlainText");
        assert("PlainText"@.len() == 9);
    }
}

/// A header is read back from its wire value.
pub proof fn lemma_task_header_roundtrip(t: TaskHeaderView)
    ensures
        TaskHeaderView::from_json(t.to_json()) == Some(t),
{
    broadcast use {
        lemma_field_empty,
        lemma_field_with_other,
        lemma_field_with_same,
        lemma_field_with_opt_other,
        lemma_field_with_opt_same,
        lemma_with_opt_object,
    };

    reveal_strlit("action");
    reveal_strlit("task_id");
    reveal_strlit("streaming");
    assert("action"@.len() == 6);
    assert("task_id"@.len() == 7);
    assert("streaming"@.len() == 9);
    TaskAction::lemma_names();
    assert(t.to_json().req_text("action"@) == Some(t.action.text()));
    let j = t.to_json();
    assert(TaskAction::required(j, "action"@) == Some(t.action));
    assert(j.req_text("task_id"@) == Some(t.task_id));
    assert((match j.field("streaming"@) {
        None => Some("duplex"@),
        Some(c) => c.as_text(),
    }) == Some(t.streaming));
}

/// The name `text_type` differs from the name of every other member.
proof fn lemma_task_parameters_name_text_type()
    ensures
        "text_type"@ != "voice"@,
        "text_type"@ != "format"@,
        "text_type"@ != "sample_rate"@,
        "text_type"@ != "volume"@,
        "text_type"@ != "rate"@,
        "text_type"@ != "pitch"@,
        "text_type"@ != "enable_ssml"@,
        "text_type"@ != "bit_rate"@,
        "text_type"@ != "word_timestamp_enabled"@,
        "text_type"@ != "seed"@,
        "text_type"@ != "language_hints"@,
        "text_type"@ != "instruction"@,
        "text_type"@ != "enable_aigc_tag"@,
        "text_type"@ != "aigc_propagator"@,
        "text_type"@ != "aigc_propagate_id"@,
        "text_type"@ != "vocabulary_id"@,
        "text_type"@ != "semantic_punctuation_enabled"@,
        "text_type"@ != "max_sentence_silence"@,
        "text_type"@ != "multi_threshold_mode_enabled"@,
        "text_type"@ != "heartbeat"@,
{
    reveal_strlit("text_type");
    reveal_strlit("voice");
    reveal_strlit("format");
    reveal_strlit("sample_rate");
    reveal_strlit("volume");
    reveal_strlit("rate");
    reveal_strlit("pitch");
    reveal_strlit("enable_ssml");
    reveal_strlit("bit_rate");
    reveal_strlit("word_timestamp_enabled");
    reveal_strlit("seed");
    reveal_strlit("language_hints");
    reveal_strlit("instruction");
    reveal_strlit("enable_aigc_tag");
    reveal_strlit("aigc_propagator");
    reveal_strlit("aigc_propagate_id");
    reveal_strlit("vocabulary_id");
    reveal_strlit("semantic_punctuation_enabled");
    reveal_strlit("max_sentence_silence");
    reveal_strlit("multi_threshold_mode_enabled");
    reveal_strlit("heartbeat");
    assert("text_type"@.len() == 9);
    assert("voice"@.len() == 5);
    assert("format"@.len() == 6);
    assert("sample_rate"@.len() == 11);
    assert("volume"@.len() == 6);
    assert("rate"@.len() == 4);
    assert("pitch"@.len() == 5);
    assert("enable_ssml"@.len() == 11);
    assert("bit_rate"@.len() == 8);
    assert("word_timestamp_enabled"@.len() == 22);
    assert("seed"@.len() == 4);
    assert("language_hints"@.len() == 14);
    assert("instruction"@.len() == 11);
    assert("enable_aigc_tag"@.len() == 15);
    assert("aigc_propagator"@.len() == 15);
    assert("aigc_propagate_id"@.len() == 17);
    assert("vocabulary_id"@.len() == 13);
    assert("semantic_punctuation_enabled"@.len() == 28);
    assert("max_sentence_silence"@.len() == 20);
    assert("multi_threshold_mode_enabled"@.len() == 28);
    assert("heartbeat"@.len() == 9);
    assert("format"@[0] == 'f');
    assert("volume"@[0] == 'v');
    assert("rate"@[0] == 'r');
    assert("seed"@[0] == 's');
    assert("pitch"@[0] == 'p');
    assert("voice"@[0] == 'v');
    assert("enable_ssml"@[0] == 'e');
    assert("sample_rate"@[0] == 's');
    assert("instruction"@[0] == 'i');
    assert("aigc_propagator"@[0] == 'a');
    assert("enable_aigc_tag"@[0] == 'e');
    assert("multi_threshold_mode_enabled"@[0] == 'm');
    assert("semantic_punctuation_enabled"@[0] == 's');
    assert("heartbeat"@[0] == 'h');
    assert("text_type"@[0] == 't');
}

/// The name `voice` differs from the name of every other member.
proof fn lemma_task_parameters_name_voice()
    ensures
        "voice"@ != "text_type"@,
        "voice"@ != "format"@,
        "voice"@ != "sample_rate"@,
        "voice"@ != "volume"@,
        "voice"@ != "rate"@,
        "voice"@ != "pitch"@,
        "voice"@ != "enable_ssml"@,
        "voice"@ != "bit_rate"@,
        "voice"@ != "word_timestamp_enabled"@,
        "voice"@ != "seed"@,
        "voice"@ != "language_hints"@,
        "voice"@ != "instruction"@,
        "voice"@ != "enable_aigc_tag"@,
        "voice"@ != "aigc_propagator"@,
        "voice"@ != "aigc_propagate_id"@,
        "voice"@ != "vocabulary_id"@,
        "voice"@ != "semantic_punctuation_enabled"@,
        "voice"@ != "max_sentence_silence"@,
        "voice"@ != "multi_threshold_mode_enabled"@,
        "voice"@ != "heartbeat"@,
{
    reveal_strlit("text_type");
    reveal_strlit("voice");
    reveal_strlit("format");
    reveal_strlit("sample_rate");
    reveal_strlit("volume");
    reveal_strlit("rate");
    reveal_strlit("pitch");
    reveal_strlit("enable_ssml");
    reveal_strlit("bit_rate");
    reveal_strlit("word_timestamp_enabled");
    reveal_strlit("seed");
    reveal_strlit("language_hints");
    reveal_strlit("instruction");
    reveal_strlit("enable_aigc_tag");
    reveal_strlit("aigc_propagator");
    reveal_strlit("aigc_propagate_id");
    reveal_strlit("vocabulary_id");
    reveal_strlit("semantic_punctuation_enabled");
    reveal_strlit("max_sentence_silence");
    reveal_strlit("multi_threshold_mode_enabled");
    reveal_strlit("heartbeat");
    assert("text_type"@.len() == 9);
    assert("voice"@.len() == 5);
    assert("format"@.len() == 6);
    assert("sample_rate"@.len() == 11);
    assert("volume"@.len() == 6);
    assert("rate"@.len() == 4);
    assert("pitch"@.len() == 5);
    assert("enable_ssml"@.len() == 11);
    assert("bit_rate"@.len() == 8);
    assert("word_timestamp_enabled"@.len() == 22);
    assert("seed"@.len() == 4);
    assert("language_hints"@.len() == 14);
    assert("instruction"@.len() == 11);
    assert("enable_aigc_tag"@.len() == 15);
    assert("aigc_propagator"@.len() == 15);
    assert("aigc_propagate_id"@.len() == 17);
    assert("vocabulary_id"@.len() == 13);
    assert("semantic_punctuation_enabled"@.len() == 28);
    assert("max_sentence_silence"@.len() == 20);
    assert("multi_threshold_mode_enabled"@.len() == 28);
    assert("heartbeat"@.len() == 9);
    assert("format"@[0] == 'f');
    assert("volume"@[0] == 'v');
    assert("rate"@[0] == 'r');
    assert("seed"@[0] == 's');
    assert("pitch"@[0] == 'p');
    assert("voice"@[0] == 'v');
    assert("enable_ssml"@[0] == 'e');
    assert("sample_rate"@[0] == 's');
    assert("instruction"@[0] == 'i');
    assert("aigc_propagator"@[0] == 'a');
    assert("enable_aigc_tag"@[0] == 'e');
    assert("multi_threshold_mode_enabled"@[0] == 'm');
    assert("semantic_punctuation_enabled"@[0] == 's');
    assert("heartbeat"@[0] == 'h');
    assert("text_type"@[0] == 't');
}

/// The name `format` differs from the name of every other member.
proof fn lemma_task_parameters_name_format()
    ensures
        "format"@ != "text_type"@,
        "format"@ != "voice"@,
        "format"@ != "sample_rate"@,
        "format"@ != "volume"@,
        "format"@ != "rate"@,
        "format"@ != "pitch"@,
        "format"@ != "enable_ssml"@,
        "format"@ != "bit_rate"@,
        "format"@ != "word_timestamp_enabled"@,
        "format"@ != "seed"@,
        "format"@ != "language_hints"@,
        "format"@ != "instruction"@,
        "format"@ != "enable_aigc_tag"@,
        "format"@ != "aigc_propagator"@,
        "format"@ != "aigc_propagate_id"@,
        "format"@ != "vocabulary_id"@,
        "format"@ != "semantic_punctuation_enabled"@,
        "format"@ != "max_sentence_silence"@,
        "format"@ != "multi_threshold_mode_enabled"@,
        "format"@ != "heartbeat"@,
{
    reveal_strlit("text_type");
    reveal_strlit("voice");
    reveal_strlit("format");
    reveal_strlit("sample_rate");
    reveal_strlit("volume");
    reveal_strlit("rate");
    reveal_strlit("pitch");
    reveal_strlit("enable_ssml");
    reveal_strlit("bit_rate");
    reveal_strlit("word_timestamp_enabled");
    reveal_strlit("seed");
    reveal_strlit("language_hints");
    reveal_strlit("instruction");
    reveal_strlit("enable_aigc_tag");
    reveal_strlit("aigc_propagator");
    reveal_strlit("aigc_propagate_id");
    reveal_strlit("vocabulary_id");
    reveal_strlit("semantic_punctuation_enabled");
    reveal_strlit("max_sentence_silence");
    reveal_strlit("multi_threshold_mode_enabled");
    reveal_strlit("heartbeat");
    assert("text_type"@.len() == 9);
    assert("voice"@.len() == 5);
    assert("format"@.len() == 6);
    assert("sample_rate"@.len() == 11);
    assert("volume"@.len() == 6);
    assert("rate"@.len() == 4);
    assert("pitch"@.len() == 5);
    assert("enable_ssml"@.len() == 11);
    assert("bit_rate"@.len() == 8);
    assert("word_timestamp_enabled"@.len() == 22);
    assert("seed"@.len() == 4);
    assert("language_hints"@.len() == 14);
    assert("instruction"@.len() == 11);
    assert("enable_aigc_tag"@.len() == 15);
    assert("aigc_propagator"@.len() == 15);
    assert("aigc_propagate_id"@.len() == 17);
    assert("vocabulary_id"@.len() == 13);
    assert("semantic_punctuation_enabled"@.len() == 28);
    assert("max_sentence_silence"@.len() == 20);
    assert("multi_threshold_mode_enabled"@.len() == 28);
    assert("heartbeat"@.len() == 9);
    assert("format"@[0] == 'f');
    assert("volume"@[0] == 'v');
    assert("rate"@[0] == 'r');
    assert("seed"@[0] == 's');
    assert("pitch"@[0] == 'p');
    assert("voice"@[0] == 'v');
    assert("enable_ssml"@[0] == 'e');
    assert("sample_rate"@[0] == 's');
    assert("instruction"@[0] == 'i');
    assert("aigc_propagator"@[0] == 'a');
    assert("enable_aigc_tag"@[0] == 'e');
    assert("multi_threshold_mode_enabled"@[0] == 'm');
    assert("semantic_punctuation_enabled"@[0] == 's');
    assert("heartbeat"@[0] == 'h');
    assert("text_type"@[0] == 't');
}

/// The name `sample_rate` differs from the name of every other member.
proof fn lemma_task_parameters_name_sample_rate()
    ensures
        "sample_rate"@ != "text_type"@,
        "sample_rate"@ != "voice"@,
        "sample_rate"@ != "format"@,
        "sample_rate"@ != "volume"@,
        "sample_rate"@ != "rate"@,
        "sample_rate"@ != "pitch"@,
        "sample_rate"@ != "enable_ssml"@,
        "sample_rate"@ != "bit_rate"@,
        "sample_rate"@ != "word_timestamp_enabled"@,
        "sample_rate"@ != "seed"@,
        "sample_rate"@ != "language_hints"@,
        "sample_rate"@ != "instruction"@,
        "sample_rate"@ != "enable_aigc_tag"@,
        "sample_rate"@ != "aigc_propagator"@,
        "sample_rate"@ != "aigc_propagate_id"@,
        "sample_rate"@ != "vocabulary_id"@,
        "sample_rate"@ != "semantic_punctuation_enabled"@,
        "sample_rate"@ != "max_sentence_silence"@,
        "sample_rate"@ != "multi_threshold_mode_enabled"@,
        "sample_rate"@ != "heartbeat"@,
{
    reveal_strlit("text_type");
    reveal_strlit("voice");
    reveal_strlit("format");
    reveal_strlit("sample_rate");
    reveal_strlit("volume");
    reveal_strlit("rate");
    reveal_strlit("pitch");
    reveal_strlit("enable_ssml");
    reveal_strlit("bit_rate");
    reveal_strlit("word_timestamp_enabled");
    reveal_strlit("seed");
    reveal_strlit("language_hints");
    reveal_strlit("instruction");
    reveal_strlit("enable_aigc_tag");
    reveal_strlit("aigc_propagator");
    reveal_strlit("aigc_propagate_id");
    reveal_strlit("vocabulary_id");
    reveal_strlit("semantic_punctuation_enabled");
    reveal_strlit("max_sentence_silence");
    reveal_strlit("multi_threshold_mode_enabled");
    reveal_strlit("heartbeat");
    assert("text_type"@.len() == 9);
    assert("voice"@.len() == 5);
    assert("format"@.len() == 6);
    assert("sample_rate"@.len() == 11);
    assert("volume"@.len() == 6);
    assert("rate"@.len() == 4);
    assert("pitch"@.len() == 5);
    assert("enable_ssml"@.len() == 11);
    assert("bit_rate"@.len() == 8);
    assert("word_timestamp_enabled"@.len() == 22);
    assert("seed"@.len() == 4);
    assert("language_hints"@.len() == 14);
    assert("instruction"@.len() == 11);
    assert("enable_aigc_tag"@.len() == 15);
    assert("aigc_propagator"@.len() == 15);
    assert("aigc_propagate_id"@.len() == 17);
    assert("vocabulary_id"@.len() == 13);
    assert("semantic_punctuation_enabled"@.len() == 28);
    assert("max_sentence_silence"@.len() == 20);
    assert("multi_threshold_mode_enabled"@.len() == 28);
    assert("heartbeat"@.len() == 9);
    assert("format"@[0] == 'f');
    assert("volume"@[0] == 'v');
    assert("rate"@[0] == 'r');
    assert("seed"@[0] == 's');
    assert("pitch"@[0] == 'p');
    assert("voice"@[0] == 'v');
    assert("enable_ssml"@[0] == 'e');
    assert("sample_rate"@[0] == 's');
    assert("instruction"@[0] == 'i');
    assert("aigc_propagator"@[0] == 'a');
    assert("enable_aigc_tag"@[0] == 'e');
    assert("multi_threshold_mode_enabled"@[0] == 'm');
    assert("semantic_punctuation_enabled"@[0] == 's');
    assert("heartbeat"@[0] == 'h');
    assert("text_type"@[0] == 't');
}

/// The name `volume` differs from the name of every other member.
proof fn lemma_task_parameters_name_volume()
    ensures
        "volume"@ != "text_type"@,
        "volume"@ != "voice"@,
        "volume"@ != "format"@,
        "volume"@ != "sample_rate"@,
        "volume"@ != "rate"@,
        "volume"@ != "pitch"@,
        "volume"@ != "enable_ssml"@,
        "volume"@ != "bit_rate"@,
        "volume"@ != "word_timestamp_enabled"@,
        "volume"@ != "seed"@,
        "volume"@ != "language_hints"@,
        "volume"@ != "instruction"@,
        "volume"@ != "enable_aigc_tag"@,
        "volume"@ != "aigc_propagator"@,
        "volume"@ != "aigc_propagate_id"@,
        "volume"@ != "vocabulary_id"@,
        "volume"@ != "semantic_punctuation_enabled"@,
        "volume"@ != "max_sentence_silence"@,
        "volume"@ != "multi_threshold_mode_enabled"@,
        "volume"@ != "heartbeat"@,
{
    reveal_strlit("text_type");
    reveal_strlit("voice");
    reveal_strlit("format");
    reveal_strlit("sample_rate");
    reveal_strlit("volume");
    reveal_strlit("rate");
    reveal_strlit("pitch");
    reveal_strlit("enable_ssml");
    reveal_strlit("bit_rate");
    reveal_strlit("word_timestamp_enabled");
    reveal_strlit("seed");
    reveal_strlit("language_hints");
    reveal_strlit("instruction");
    reveal_strlit("enable_aigc_tag");
    reveal_strlit("aigc_propagator");
    reveal_strlit("aigc_propagate_id");
    reveal_strlit("vocabulary_id");
    reveal_strlit("semantic_punctuation_enabled");
    reveal_strlit("max_sentence_silence");
    reveal_strlit("multi_threshold_mode_enabled");
    reveal_strlit("heartbeat");
    assert("text_type"@.len() == 9);
    assert("voice"@.len() == 5);
    assert("format"@.len() == 6);
    assert("sample_rate"@.len() == 11);
    assert("volume"@.len() == 6);
    assert("rate"@.len() == 4);
    assert("pitch"@.len() == 5);
    assert("enable_ssml"@.len() == 11);
    assert("bit_rate"@.len() == 8);
    assert("word_timestamp_enabled"@.len() == 22);
    assert("seed"@.len() == 4);
    assert("language_hints"@.len() == 14);
    assert("instruction"@.len() == 11);
    assert("enable_aigc_tag"@.len() == 15);
    assert("aigc_propagator"@.len() == 15);
    assert("aigc_propagate_id"@.len() == 17);
    assert("vocabulary_id"@.len() == 13);
    assert("semantic_punctuation_enabled"@.len() == 28);
    assert("max_sentence_silence"@.len() == 20);
    assert("multi_threshold_mode_enabled"@.len() == 28);
    assert("heartbeat"@.len() == 9);
    assert("format"@[0] == 'f');
    assert("volume"@[0] == 'v');
    assert("rate"@[0] == 'r');
    assert("seed"@[0] == 's');
    assert("pitch"@[0] == 'p');
    assert("voice"@[0] == 'v');
    assert("enable_ssml"@[0] == 'e');
    assert("sample_rate"@[0] == 's');
    assert("instruction"@[0] == 'i');
    assert("aigc_propagator"@[0] == 'a');
    assert("enable_aigc_tag"@[0] == 'e');
    assert("multi_threshold_mode_enabled"@[0] == 'm');
    assert("semantic_punctuation_enabled"@[0] == 's');
    assert("heartbeat"@[0] == 'h');
    assert("text_type"@[0] == 't');
}

/// The name `rate` differs from the name of every other member.
proof fn lemma_task_parameters_name_rate()
    ensures
        "rate"@ != "text_type"@,
        "rate"@ != "voice"@,
        "rate"@ != "format"@,
        "rate"@ != "sample_rate"@,
        "rate"@ != "volume"@,
        "rate"@ != "pitch"@,
        "rate"@ != "enable_ssml"@,
        "rate"@ != "bit_rate"@,
        "rate"@ != "word_timestamp_enabled"@,
        "rate"@ != "seed"@,
        "rate"@ != "language_hints"@,
        "rate"@ != "instruction"@,
        "rate"@ != "enable_aigc_tag"@,
        "rate"@ != "aigc_propagator"@,
        "rate"@ != "aigc_propagate_id"@,
        "rate"@ != "vocabulary_id"@,
        "rate"@ != "semantic_punctuation_enabled"@,
        "rate"@ != "max_sentence_silence"@,
        "rate"@ != "multi_threshold_mode_enabled"@,
        "rate"@ != "heartbeat"@,
{
    reveal_strlit("text_type");
    reveal_strlit("voice");
    reveal_strlit("format");
    reveal_strlit("sample_rate");
    reveal_strlit("volume");
    reveal_strlit("rate");
    reveal_strlit("pitch");
    reveal_strlit("enable_ssml");
    reveal_strlit("bit_rate");
    reveal_strlit("word_timestamp_enabled");
    reveal_strlit("seed");
    reveal_strlit("language_hints");
    reveal_strlit("instruction");
    reveal_strlit("enable_aigc_tag");
    reveal_strlit("aigc_propagator");
    reveal_strlit("aigc_propagate_id");
    reveal_strlit("vocabulary_id");
    reveal_strlit("semantic_punctuation_enabled");
    reveal_strlit("max_sentence_silence");
    reveal_strlit("multi_threshold_mode_enabled");
    reveal_strlit("heartbeat");
    assert("text_type"@.len() == 9);
    assert("voice"@.len() == 5);
    assert("format"@.len() == 6);
    assert("sample_rate"@.len() == 11);
    assert("volume"@.len() == 6);
    assert("rate"@.len() == 4);
    assert("pitch"@.len() == 5);
    assert("enable_ssml"@.len() == 11);
    assert("bit_rate"@.len() == 8);
    assert("word_timestamp_enabled"@.len() == 22);
    assert("seed"@.len() == 4);
    assert("language_hints"@.len() == 14);
    assert("instruction"@.len() == 11);
    assert("enable_aigc_tag"@.len() == 15);
    assert("aigc_propagator"@.len() == 15);
    assert("aigc_propagate_id"@.len() == 17);
    assert("vocabulary_id"@.len() == 13);
    assert("semantic_punctuation_enabled"@.len() == 28);
    assert("max_sentence_silence"@.len() == 20);
    assert("multi_threshold_mode_enabled"@.len() == 28);
    assert("heartbeat"@.len() == 9);
    assert("format"@[0] == 'f');
    assert("volume"@[0] == 'v');
    assert("rate"@[0] == 'r');
    assert("seed"@[0] == 's');
    assert("pitch"@[0] == 'p');
    assert("voice"@[0] == 'v');
    assert("enable_ssml"@[0] == 'e');
    assert("sample_rate"@[0] == 's');
    assert("instruction"@[0] == 'i');
    assert("aigc_propagator"@[0] == 'a');
    assert("enable_aigc_tag"@[0] == 'e');
    assert("multi_threshold_mode_enabled"@[0] == 'm');
    assert("semantic_punctuation_enabled"@[0] == 's');
    assert("heartbeat"@[0] == 'h');
    assert("text_type"@[0] == 't');
}

/// The name `pitch` differs from the name of every other member.
proof fn lemma_task_parameters_name_pitch()
    ensures
        "pitch"@ != "text_type"@,
        "pitch"@ != "voice"@,
        "pitch"@ != "format"@,
        "pitch"@ != "sample_rate"@,
        "pitch"@ != "volume"@,
        "pitch"@ != "rate"@,
        "pitch"@ != "enable_ssml"@,
        "pitch"@ != "bit_rate"@,
        "pitch"@ != "word_timestamp_enabled"@,
        "pitch"@ != "seed"@,
        "pitch"@ != "language_hints"@,
        "pitch"@ != "instruction"@,
        "pitch"@ != "enable_aigc_tag"@,
        "pitch"@ != "aigc_propagator"@,
        "pitch"@ != "aigc_propagate_id"@,
        "pitch"@ != "vocabulary_id"@,
        "pitch"@ != "semantic_punctuation_enabled"@,
        "pitch"@ != "max_sentence_silence"@,
        "pitch"@ != "multi_threshold_mode_enabled"@,
        "pitch"@ != "heartbeat"@,
{
    reveal_strlit("text_type");
    reveal_strlit("voice");
    reveal_strlit("format");
    reveal_strlit("sample_rate");
    reveal_strlit("volume");
    reveal_strlit("rate");
    reveal_strlit("pitch");
    reveal_strlit("enable_ssml");
    reveal_strlit("bit_rate");
    reveal_strlit("word_timestamp_enabled");
    reveal_strlit("seed");
    reveal_strlit("language_hints");
    reveal_strlit("instruction");
    reveal_strlit("enable_aigc_tag");
    reveal_strlit("aigc_propagator");
    reveal_strlit("aigc_propagate_id");
    reveal_strlit("vocabulary_id");
    reveal_strlit("semantic_punctuation_enabled");
    reveal_strlit("max_sentence_silence");
    reveal_strlit("multi_threshold_mode_enabled");
    reveal_strlit("heartbeat");
    assert("text_type"@.len() == 9);
    assert("voice"@.len() == 5);
    assert("format"@.len() == 6);
    assert("sample_rate"@.len() == 11);
    assert("volume"@.len() == 6);
    assert("rate"@.len() == 4);
    assert("pitch"@.len() == 5);
    assert("enable_ssml"@.len() == 11);
    assert("bit_rate"@.len() == 8);
    assert("word_timestamp_enabled"@.len() == 22);
    assert("seed"@.len() == 4);
    assert("language_hints"@.len() == 14);
    assert("instruction"@.len() == 11);
    assert("enable_aigc_tag"@.len() == 15);
    assert("aigc_propagator"@.len() == 15);
    assert("aigc_propagate_id"@.len() == 17);
    assert("vocabulary_id"@.len() == 13);
    assert("semantic_punctuation_enabled"@.len() == 28);
    assert("max_sentence_silence"@.len() == 20);
    assert("multi_threshold_mode_enabled"@.len() == 28);
    assert("heartbeat"@.len() == 9);
    assert("format"@[0] == 'f');
    assert("volume"@[0] == 'v');
    assert("rate"@[0] == 'r');
    assert("seed"@[0] == 's');
    assert("pitch"@[0] == 'p');
    assert("voice"@[0] == 'v');
    assert("enable_ssml"@[0] == 'e');
    assert("sample_rate"@[0] == 's');
    assert("instruction"@[0] == 'i');
    assert("aigc_propagator"@[0] == 'a');
    assert("enable_aigc_tag"@[0] == 'e');
    assert("multi_threshold_mode_enabled"@[0] == 'm');
    assert("semantic_punctuation_enabled"@[0] == 's');
    assert("heartbeat"@[0] == 'h');
    assert("text_type"@[0] == 't');
}

/// The name `enable_ssml` differs from the name of every other member.
proof fn lemma_task_parameters_name_enable_ssml()
    ensures
        "enable_ssml"@ != "text_type"@,
        "enable_ssml"@ != "voice"@,
        "enable_ssml"@ != "format"@,
        "enable_ssml"@ != "sample_rate"@,
        "enable_ssml"@ != "volume"@,
        "enable_ssml"@ != "rate"@,
        "enable_ssml"@ != "pitch"@,
        "enable_ssml"@ != "bit_rate"@,
        "enable_ssml"@ != "word_timestamp_enabled"@,
        "enable_ssml"@ != "seed"@,
        "enable_ssml"@ != "language_hints"@,
        "enable_ssml"@ != "instruction"@,
        "enable_ssml"@ != "enable_aigc_tag"@,
        "enable_ssml"@ != "aigc_propagator"@,
        "enable_ssml"@ != "aigc_propagate_id"@,
        "enable_ssml"@ != "vocabulary_id"@,
        "enable_ssml"@ != "semantic_punctuation_enabled"@,
        "enable_ssml"@ != "max_sentence_silence"@,
        "enable_ssml"@ != "multi_threshold_mode_enabled"@,
        "enable_ssml"@ != "heartbeat"@,
{
    reveal_strlit("text_type");
    reveal_strlit("voice");
    reveal_strlit("format");
    reveal_strlit("sample_rate");
    reveal_strlit("volume");
    reveal_strlit("rate");
    reveal_strlit("pitch");
    reveal_strlit("enable_ssml");
    reveal_strlit("bit_rate");
    reveal_strlit("word_timestamp_enabled");
    reveal_strlit("seed");
    reveal_strlit("language_hints");
    reveal_strlit("instruction");
    reveal_strlit("enable_aigc_tag");
    reveal_strlit("aigc_propagator");
    reveal_strlit("aigc_propagate_id");
    reveal_strlit("vocabulary_id");
    reveal_strlit("semantic_punctuation_enabled");
    reveal_strlit("max_sentence_silence");
    reveal_strlit("multi_threshold_mode_enabled");
    reveal_strlit("heartbeat");
    assert("text_type"@.len() == 9);
    assert("voice"@.len() == 5);
    assert("format"@.len() == 6);
    assert("sample_rate"@.len() == 11);
    assert("volume"@.len() == 6);
    assert("rate"@.len() == 4);
    assert("pitch"@.len() == 5);
    assert("enable_ssml"@.len() == 11);
    assert("bit_rate"@.len() == 8);
    assert("word_timestamp_enabled"@.len() == 22);
    assert("seed"@.len() == 4);
    assert("language_hints"@.len() == 14);
    assert("instruction"@.len() == 11);
    assert("enable_aigc_tag"@.len() == 15);
    assert("aigc_propagator"@.len() == 15);
    assert("aigc_propagate_id"@.len() == 17);
    assert("vocabulary_id"@.len() == 13);
    assert("semantic_punctuation_enabled"@.len() == 28);
    assert("max_sentence_silence"@.len() == 20);
    assert("multi_threshold_mode_enabled"@.len() == 28);
    assert("heartbeat"@.len() == 9);
    assert("format"@[0] == 'f');
    assert("volume"@[0] == 'v');
    assert("rate"@[0] == 'r');
    assert("seed"@[0] == 's');
    assert("pitch"@[0] == 'p');
    assert("voice"@[0] == 'v');
    assert("enable_ssml"@[0] == 'e');
    assert("sample_rate"@[0] == 's');
    assert("instruction"@[0] == 'i');
    assert("aigc_propagator"@[0] == 'a');
    assert("enable_aigc_tag"@[0] == 'e');
    assert("multi_threshold_mode_enabled"@[0] == 'm');
    assert("semantic_punctuation_enabled"@[0] == 's');
    assert("heartbeat"@[0] == 'h');
    assert("text_type"@[0] == 't');
}

/// The name `bit_rate` differs from the name of every other member.
proof fn lemma_task_parameters_name_bit_rate()
    ensures
        "bit_rate"@ != "text_type"@,
        "bit_rate"@ != "voice"@,
        "bit_rate"@ != "format"@,
        "bit_rate"@ != "sample_rate"@,
        "bit_rate"@ != "volume"@,
        "bit_rate"@ != "rate"@,
        "bit_rate"@ != "pitch"@,
        "bit_rate"@ != "enable_ssml"@,
        "bit_rate"@ != "word_timestamp_enabled"@,
        "bit_rate"@ != "seed"@,
        "bit_rate"@ != "language_hints"@,
        "bit_rate"@ != "instruction"@,
        "bit_rate"@ != "enable_aigc_tag"@,
        "bit_rate"@ != "aigc_propagator"@,
        "bit_rate"@ != "aigc_propagate_id"@,
        "bit_rate"@ != "vocabulary_id"@,
        "bit_rate"@ != "semantic_punctuation_enabled"@,
        "bit_rate"@ != "max_sentence_silence"@,
        "bit_rate"@ != "multi_threshold_mode_enabled"@,
        "bit_rate"@ != "heartbeat"@,
{
    reveal_strlit("text_type");
    reveal_strlit("voice");
    reveal_strlit("format");
    reveal_strlit("sample_rate");
    reveal_strlit("volume");
    reveal_strlit("rate");
    reveal_strlit("pitch");
    reveal_strlit("enable_ssml");
    reveal_strlit("bit_rate");
    reveal_strlit("word_timestamp_enabled");
    reveal_strlit("seed");
    reveal_strlit("language_hints");
    reveal_strlit("instruction");
    reveal_strlit("enable_aigc_tag");
    reveal_strlit("aigc_propagator");
    reveal_strlit("aigc_propagate_id");
    reveal_strlit("vocabulary_id");
    reveal_strlit("semantic_punctuation_enabled");
    reveal_strlit("max_sentence_silence");
    reveal_strlit("multi_threshold_mode_enabled");
    reveal_strlit("heartbeat");
    assert("text_type"@.len() == 9);
    assert("voice"@.len() == 5);
    assert("format"@.len() == 6);
    assert("sample_rate"@.len() == 11);
    assert("volume"@.len() == 6);
    assert("rate"@.len() == 4);
    assert("pitch"@.len() == 5);
    assert("enable_ssml"@.len() == 11);
    assert("bit_rate"@.len() == 8);
    assert("word_timestamp_enabled"@.len() == 22);
    assert("seed"@.len() == 4);
    assert("language_hints"@.len() == 14);
    assert("instruction"@.len() == 11);
    assert("enable_aigc_tag"@.len() == 15);
    assert("aigc_propagator"@.len() == 15);
    assert("aigc_propagate_id"@.len() == 17);
    assert("vocabulary_id"@.len() == 13);
    assert("semantic_punctuation_enabled"@.len() == 28);
    assert("max_sentence_silence"@.len() == 20);
    assert("multi_threshold_mode_enabled"@.len() == 28);
    assert("heartbeat"@.len() == 9);
    assert("format"@[0] == 'f');
    assert("volume"@[0] == 'v');
    assert("rate"@[0] == 'r');
    assert("seed"@[0] == 's');
    assert("pitch"@[0] == 'p');
    assert("voice"@[0] == 'v');
    assert("enable_ssml"@[0] == 'e');
    assert("sample_rate"@[0] == 's');
    assert("instruction"@[0] == 'i');
    assert("aigc_propagator"@[0] == 'a');
    assert("enable_aigc_tag"@[0] == 'e');
    assert("multi_threshold_mode_enabled"@[0] == 'm');
    assert("semantic_punctuation_enabled"@[0] == 's');
    assert("heartbeat"@[0] == 'h');
    assert("text_type"@[0] == 't');
}

/// The name `word_timestamp_enabled` differs from the name of every other member.
proof fn lemma_task_parameters_name_word_timestamp_enabled()
    ensures
        "word_timestamp_enabled"@ != "text_type"@,
        "word_timestamp_enabled"@ != "voice"@,
        "word_timestamp_enabled"@ != "format"@,
        "word_timestamp_enabled"@ != "sample_rate"@,
        "word_timestamp_enabled"@ != "volume"@,
        "word_timestamp_enabled"@ != "rate"@,
        "word_timestamp_enabled"@ != "pitch"@,
        "word_timestamp_enabled"@ != "enable_ssml"@,
        "word_timestamp_enabled"@ != "bit_rate"@,
        "word_timestamp_enabled"@ != "seed"@,
        "word_timestamp_enabled"@ != "language_hints"@,
        "word_timestamp_enabled"@ != "instruction"@,
        "word_timestamp_enabled"@ != "enable_aigc_tag"@,
        "word_timestamp_enabled"@ != "aigc_propagator"@,
        "word_timestamp_enabled"@ != "aigc_propagate_id"@,
        "word_timestamp_enabled"@ != "vocabulary_id"@,
        "word_timestamp_enabled"@ != "semantic_punctuation_enabled"@,
        "word_timestamp_enabled"@ != "max_sentence_silence"@,
        "word_timestamp_enabled"@ != "multi_threshold_mode_enabled"@,
        "word_timestamp_enabled"@ != "heartbeat"@,
{
    reveal_strlit("text_type");
    reveal_strlit("voice");
    reveal_strlit("format");
    reveal_strlit("sample_rate");
    reveal_strlit("volume");
    reveal_strlit("rate");
    reveal_strlit("pitch");
    reveal_strlit("enable_ssml");
    reveal_strlit("bit_rate");
    reveal_strlit("word_timestamp_enabled");
    reveal_strlit("seed");
    reveal_strlit("language_hints");
    reveal_strlit("instruction");
    reveal_strlit("enable_aigc_tag");
    reveal_strlit("aigc_propagator");
    reveal_strlit("aigc_propagate_id");
    reveal_strlit("vocabulary_id");
    reveal_strlit("semantic_punctuation_enabled");
    reveal_strlit("max_sentence_silence");
    reveal_strlit("multi_threshold_mode_enabled");
    reveal_strlit("heartbeat");
    assert("text_type"@.len() == 9);
    assert("voice"@.len() == 5);
    assert("format"@.len() == 6);
    assert("sample_rate"@.len() == 11);
    assert("volume"@.len() == 6);
    assert("rate"@.len() == 4);
    assert("pitch"@.len() == 5);
    assert("enable_ssml"@.len() == 11);
    assert("bit_rate"@.len() == 8);
    assert("word_timestamp_enabled"@.len() == 22);
    assert("seed"@.len() == 4);
    assert("language_hints"@.len() == 14);
    assert("instruction"@.len() == 11);
    assert("enable_aigc_tag"@.len() == 15);
    assert("aigc_propagator"@.len() == 15);
    assert("aigc_propagate_id"@.len() == 17);
    assert("vocabulary_id"@.len() == 13);
    assert("semantic_punctuation_enabled"@.len() == 28);
    assert("max_sentence_silence"@.len() == 20);
    assert("multi_threshold_mode_enabled"@.len() == 28);
    assert("heartbeat"@.len() == 9);
    assert("format"@[0] == 'f');
    assert("volume"@[0] == 'v');
    assert("rate"@[0] == 'r');
    assert("seed"@[0] == 's');
    assert("pitch"@[0] == 'p');
    assert("voice"@[0] == 'v');
    assert("enable_ssml"@[0] == 'e');
    assert("sample_rate"@[0] == 's');
    assert("instruction"@[0] == 'i');
    assert("aigc_propagator"@[0] == 'a');
    assert("enable_aigc_tag"@[0] == 'e');
    assert("multi_threshold_mode_enabled"@[0] == 'm');
    assert("semantic_punctuation_enabled"@[0] == 's');
    assert("heartbeat"@[0] == 'h');
    assert("text_type"@[0] == 't');
}

/// The name `seed` differs from the name of every other member.
proof fn lemma_task_parameters_name_seed()
    ensures
        "seed"@ != "text_type"@,
        "seed"@ != "voice"@,
        "seed"@ != "format"@,
        "seed"@ != "sample_rate"@,
        "seed"@ != "volume"@,
        "seed"@ != "rate"@,
        "seed"@ != "pitch"@,
        "seed"@ != "enable_ssml"@,
        "seed"@ != "bit_rate"@,
        "seed"@ != "word_timestamp_enabled"@,
        "seed"@ != "language_hints"@,
        "seed"@ != "instruction"@,
        "seed"@ != "enable_aigc_tag"@,
        "seed"@ != "aigc_propagator"@,
        "seed"@ != "aigc_propagate_id"@,
        "seed"@ != "vocabulary_id"@,
        "seed"@ != "semantic_punctuation_enabled"@,
        "seed"@ != "max_sentence_silence"@,
        "seed"@ != "multi_threshold_mode_enabled"@,
        "seed"@ != "heartbeat"@,
{
    reveal_strlit("text_type");
    reveal_strlit("voice");
    reveal_strlit("format");
    reveal_strlit("sample_rate");
    reveal_strlit("volume");
    reveal_strlit("rate");
    reveal_strlit("pitch");
    reveal_strlit("enable_ssml");
    reveal_strlit("bit_rate");
    reveal_strlit("word_timestamp_enabled");
    reveal_strlit("seed");
    reveal_strlit("language_hints");
    reveal_strlit("instruction");
    reveal_strlit("enable_aigc_tag");
    reveal_strlit("aigc_propagator");
    reveal_strlit("aigc_propagate_id");
    reveal_strlit("vocabulary_id");
    reveal_strlit("semantic_punctuation_enabled");
    reveal_strlit("max_sentence_silence");
    reveal_strlit("multi_threshold_mode_enabled");
    reveal_strlit("heartbeat");
    assert("text_type"@.len() == 9);
    assert("voice"@.len() == 5);
    assert("format"@.len() == 6);
    assert("sample_rate"@.len() == 11);
    assert("volume"@.len() == 6);
    assert("rate"@.len() == 4);
    assert("pitch"@.len() == 5);
    assert("enable_ssml"@.len() == 11);
    assert("bit_rate"@.len() == 8);
    assert("word_timestamp_enabled"@.len() == 22);
    assert("seed"@.len() == 4);
    assert("language_hints"@.len() == 14);
    assert("instruction"@.len() == 11);
    assert("enable_aigc_tag"@.len() == 15);
    assert("aigc_propagator"@.len() == 15);
    assert("aigc_propagate_id"@.len() == 17);
    assert("vocabulary_id"@.len() == 13);
    assert("semantic_punctuation_enabled"@.len() == 28);
    assert("max_sentence_silence"@.len() == 20);
    assert("multi_threshold_mode_enabled"@.len() == 28);
    assert("heartbeat"@.len() == 9);
    assert("format"@[0] == 'f');
    assert("volume"@[0] == 'v');
    assert("rate"@[0] == 'r');
    assert("seed"@[0] == 's');
    assert("pitch"@[0] == 'p');
    assert("voice"@[0] == 'v');
    assert("enable_ssml"@[0] == 'e');
    assert("sample_rate"@[0] == 's');
    assert("instruction"@[0] == 'i');
    assert("aigc_propagator"@[0] == 'a');
    assert("enable_aigc_tag"@[0] == 'e');
    assert("multi_threshold_mode_enabled"@[0] == 'm');
    assert("semantic_punctuation_enabled"@[0] == 's');
    assert("heartbeat"@[0] == 'h');
    assert("text_type"@[0] == 't');
}

/// The name `language_hints` differs from the name of every other member.
proof fn lemma_task_parameters_name_language_hints()
    ensures
        "language_hints"@ != "text_type"@,
        "language_hints"@ != "voice"@,
        "language_hints"@ != "format"@,
        "language_hints"@ != "sample_rate"@,
        "language_hints"@ != "volume"@,
        "language_hints"@ != "rate"@,
        "language_hints"@ != "pitch"@,
        "language_hints"@ != "enable_ssml"@,
        "language_hints"@ != "bit_rate"@,
        "language_hints"@ != "word_timestamp_enabled"@,
        "language_hints"@ != "seed"@,
        "language_hints"@ != "instruction"@,
        "language_hints"@ != "enable_aigc_tag"@,
        "language_hints"@ != "aigc_propagator"@,
        "language_hints"@ != "aigc_propagate_id"@,
        "language_hints"@ != "vocabulary_id"@,
        "language_hints"@ != "semantic_punctuation_enabled"@,
        "language_hints"@ != "max_sentence_silence"@,
        "language_hints"@ != "multi_threshold_mode_enabled"@,
        "language_hints"@ != "heartbeat"@,
{
    reveal_strlit("text_type");
    reveal_strlit("voice");
    reveal_strlit("format");
    reveal_strlit("sample_rate");
    reveal_strlit("volume");
    reveal_strlit("rate");
    reveal_strlit("pitch");
    reveal_strlit("enable_ssml");
    reveal_strlit("bit_rate");
    reveal_strlit("word_timestamp_enabled");
    reveal_strlit("seed");
    reveal_strlit("language_hints");
    reveal_strlit("instruction");
    reveal_strlit("enable_aigc_tag");
    reveal_strlit("aigc_propagator");
    reveal_strlit("aigc_propagate_id");
    reveal_strlit("vocabulary_id");
    reveal_strlit("semantic_punctuation_enabled");
    reveal_strlit("max_sentence_silence");
    reveal_strlit("multi_threshold_mode_enabled");
    reveal_strlit("heartbeat");
    assert("text_type"@.len() == 9);
    assert("voice"@.len() == 5);
    assert("format"@.len() == 6);
    assert("sample_rate"@.len() == 11);
    assert("volume"@.len() == 6);
    assert("rate"@.len() == 4);
    assert("pitch"@.len() == 5);
    assert("enable_ssml"@.len() == 11);
    assert("bit_rate"@.len() == 8);
    assert("word_timestamp_enabled"@.len() == 22);
    assert("seed"@.len() == 4);
    assert("language_hints"@.len() == 14);
    assert("instruction"@.len() == 11);
    assert("enable_aigc_tag"@.len() == 15);
    assert("aigc_propagator"@.len() == 15);
    assert("aigc_propagate_id"@.len() == 17);
    assert("vocabulary_id"@.len() == 13);
    assert("semantic_punctuation_enabled"@.len() == 28);
    assert("max_sentence_silence"@.len() == 20);
    assert("multi_threshold_mode_enabled"@.len() == 28);
    assert("heartbeat"@.len() == 9);
    assert("format"@[0] == 'f');
    assert("volume"@[0] == 'v');
    assert("rate"@[0] == 'r');
    assert("seed"@[0] == 's');
    assert("pitch"@[0] == 'p');
    assert("voice"@[0] == 'v');
    assert("enable_ssml"@[0] == 'e');
    assert("sample_rate"@[0] == 's');
    assert("instruction"@[0] == 'i');
    assert("aigc_propagator"@[0] == 'a');
    assert("enable_aigc_tag"@[0] == 'e');
    assert("multi_threshold_mode_enabled"@[0] == 'm');
    assert("semantic_punctuation_enabled"@[0] == 's');
    assert("heartbeat"@[0] == 'h');
    assert("text_type"@[0] == 't');
}

/// The name `instruction` differs from the name of every other member.
proof fn lemma_task_parameters_name_instruction()
    ensures
        "instruction"@ != "text_type"@,
        "instruction"@ != "voice"@,
        "instruction"@ != "format"@,
        "instruction"@ != "sample_rate"@,
        "instruction"@ != "volume"@,
        "instruction"@ != "rate"@,
        "instruction"@ != "pitch"@,
        "instruction"@ != "enable_ssml"@,
        "instruction"@ != "bit_rate"@,
        "instruction"@ != "word_timestamp_enabled"@,
        "instruction"@ != "seed"@,
        "instruction"@ != "language_hints"@,
        "instruction"@ != "enable_aigc_tag"@,
        "instruction"@ != "aigc_propagator"@,
        "instruction"@ != "aigc_propagate_id"@,
        "instruction"@ != "vocabulary_id"@,
        "instruction"@ != "semantic_punctuation_enabled"@,
        "instruction"@ != "max_sentence_silence"@,
        "instruction"@ != "multi_threshold_mode_enabled"@,
        "instruction"@ != "heartbeat"@,
{
    reveal_strlit("text_type");
    reveal_strlit("voice");
    reveal_strlit("format");
    reveal_strlit("sample_rate");
    reveal_strlit("volume");
    reveal_strlit("rate");
    reveal_strlit("pitch");
    reveal_strlit("enable_ssml");
    reveal_strlit("bit_rate");
    reveal_strlit("word_timestamp_enabled");
    reveal_strlit("seed");
    reveal_strlit("language_hints");
    reveal_strlit("instruction");
    reveal_strlit("enable_aigc_tag");
    reveal_strlit("aigc_propagator");
    reveal_strlit("aigc_propagate_id");
    reveal_strlit("vocabulary_id");
    reveal_strlit("semantic_punctuation_enabled");
    reveal_strlit("max_sentence_silence");
    reveal_strlit("multi_threshold_mode_enabled");
    reveal_strlit("heartbeat");
    assert("text_type"@.len() == 9);
    assert("voice"@.len() == 5);
    assert("format"@.len() == 6);
    assert("sample_rate"@.len() == 11);
    assert("volume"@.len() == 6);
    assert("rate"@.len() == 4);
    assert("pitch"@.len() == 5);
    assert("enable_ssml"@.len() == 11);
    assert("bit_rate"@.len() == 8);
    assert("word_timestamp_enabled"@.len() == 22);
    assert("seed"@.len() == 4);
    assert("language_hints"@.len() == 14);
    assert("instruction"@.len() == 11);
    assert("enable_aigc_tag"@.len() == 15);
    assert("aigc_propagator"@.len() == 15);
    assert("aigc_propagate_id"@.len() == 17);
    assert("vocabulary_id"@.len() == 13);
    assert("semantic_punctuation_enabled"@.len() == 28);
    assert("max_sentence_silence"@.len() == 20);
    assert("multi_threshold_mode_enabled"@.len() == 28);
    assert("heartbeat"@.len() == 9);
    assert("format"@[0] == 'f');
    assert("volume"@[0] == 'v');
    assert("rate"@[0] == 'r');
    assert("seed"@[0] == 's');
    assert("pitch"@[0] == 'p');
    assert("voice"@[0] == 'v');
    assert("enable_ssml"@[0] == 'e');
    assert("sample_rate"@[0] == 's');
    assert("instruction"@[0] == 'i');
    assert("aigc_propagator"@[0] == 'a');
    assert("enable_aigc_tag"@[0] == 'e');
    assert("multi_threshold_mode_enabled"@[0] == 'm');
    assert("semantic_punctuation_enabled"@[0] == 's');
    assert("heartbeat"@[0] == 'h');
    assert("text_type"@[0] == 't');
}

/// The name `enable_aigc_tag` differs from the name of every other member.
proof fn lemma_task_parameters_name_enable_aigc_tag()
    ensures
        "enable_aigc_tag"@ != "text_type"@,
        "enable_aigc_tag"@ != "voice"@,
        "enable_aigc_tag"@ != "format"@,
        "enable_aigc_tag"@ != "sample_rate"@,
        "enable_aigc_tag"@ != "volume"@,
        "enable_aigc_tag"@ != "rate"@,
        "enable_aigc_tag"@ != "pitch"@,
        "enable_aigc_tag"@ != "enable_ssml"@,
        "enable_aigc_tag"@ != "bit_rate"@,
        "enable_aigc_tag"@ != "word_timestamp_enabled"@,
        "enable_aigc_tag"@ != "seed"@,
        "enable_aigc_tag"@ != "language_hints"@,
        "enable_aigc_tag"@ != "instruction"@,
        "enable_aigc_tag"@ != "aigc_propagator"@,
        "enable_aigc_tag"@ != "aigc_propagate_id"@,
        "enable_aigc_tag"@ != "vocabulary_id"@,
        "enable_aigc_tag"@ != "semantic_punctuation_enabled"@,
        "enable_aigc_tag"@ != "max_sentence_silence"@,
        "enable_aigc_tag"@ != "multi_threshold_mode_enabled"@,
        "enable_aigc_tag"@ != "heartbeat"@,
{
    reveal_strlit("text_type");
    reveal_strlit("voice");
    reveal_strlit("format");
    reveal_strlit("sample_rate");
    reveal_strlit("volume");
    reveal_strlit("rate");
    reveal_strlit("pitch");
    reveal_strlit("enable_ssml");
    reveal_strlit("bit_rate");
    reveal_strlit("word_timestamp_enabled");
    reveal_strlit("seed");
    reveal_strlit("language_hints");
    reveal_strlit("instruction");
    reveal_strlit("enable_aigc_tag");
    reveal_strlit("aigc_propagator");
    reveal_strlit("aigc_propagate_id");
    reveal_strlit("vocabulary_id");
    reveal_strlit("semantic_punctuation_enabled");
    reveal_strlit("max_sentence_silence");
    reveal_strlit("multi_threshold_mode_enabled");
    reveal_strlit("heartbeat");
    assert("text_type"@.len() == 9);
    assert("voice"@.len() == 5);
    assert("format"@.len() == 6);
    assert("sample_rate"@.len() == 11);
    assert("volume"@.len() == 6);
    assert("rate"@.len() == 4);
    assert("pitch"@.len() == 5);
    assert("enable_ssml"@.len() == 11);
    assert("bit_rate"@.len() == 8);
    assert("word_timestamp_enabled"@.len() == 22);
    assert("seed"@.len() == 4);
    assert("language_hints"@.len() == 14);
    assert("instruction"@.len() == 11);
    assert("enable_aigc_tag"@.len() == 15);
    assert("aigc_propagator"@.len() == 15);
    assert("aigc_propagate_id"@.len() == 17);
    assert("vocabulary_id"@.len() == 13);
    assert("semantic_punctuation_enabled"@.len() == 28);
    assert("max_sentence_silence"@.len() == 20);
    assert("multi_threshold_mode_enabled"@.len() == 28);
    assert("heartbeat"@.len() == 9);
    assert("format"@[0] == 'f');
    assert("volume"@[0] == 'v');
    assert("rate"@[0] == 'r');
    assert("seed"@[0] == 's');
    assert("pitch"@[0] == 'p');
    assert("voice"@[0] == 'v');
    assert("enable_ssml"@[0] == 'e');
    assert("sample_rate"@[0] == 's');
    assert("instruction"@[0] == 'i');
    assert("aigc_propagator"@[0] == 'a');
    assert("enable_aigc_tag"@[0] == 'e');
    assert("multi_threshold_mode_enabled"@[0] == 'm');
    assert("semantic_punctuation_enabled"@[0] == 's');
    assert("heartbeat"@[0] == 'h');
    assert("text_type"@[0] == 't');
}

/// The name `aigc_propagator` differs from the name of every other member.
proof fn lemma_task_parameters_name_aigc_propagator()
    ensures
        "aigc_propagator"@ != "text_type"@,
        "aigc_propagator"@ != "voice"@,
        "aigc_propagator"@ != "format"@,
        "aigc_propagator"@ != "sample_rate"@,
        "aigc_propagator"@ != "volume"@,
        "aigc_propagator"@ != "rate"@,
        "aigc_propagator"@ != "pitch"@,
        "aigc_propagator"@ != "enable_ssml"@,
        "aigc_propagator"@ != "bit_rate"@,
        "aigc_propagator"@ != "word_timestamp_enabled"@,
        "aigc_propagator"@ != "seed"@,
        "aigc_propagator"@ != "language_hints"@,
        "aigc_propagator"@ != "instruction"@,
        "aigc_propagator"@ != "enable_aigc_tag"@,
        "aigc_propagator"@ != "aigc_propagate_id"@,
        "aigc_propagator"@ != "vocabulary_id"@,
        "aigc_propagator"@ != "semantic_punctuation_enabled"@,
        "aigc_propagator"@ != "max_sentence_silence"@,
        "aigc_propagator"@ != "multi_threshold_mode_enabled"@,
        "aigc_propagator"@ != "heartbeat"@,
{
    reveal_strlit("text_type");
    reveal_strlit("voice");
    reveal_strlit("format");
    reveal_strlit("sample_rate");
    reveal_strlit("volume");
    reveal_strlit("rate");
    reveal_strlit("pitch");
    reveal_strlit("enable_ssml");
    reveal_strlit("bit_rate");
    reveal_strlit("word_timestamp_enabled");
    reveal_strlit("seed");
    reveal_strlit("language_hints");
    reveal_strlit("instruction");
    reveal_strlit("enable_aigc_tag");
    reveal_strlit("aigc_propagator");
    reveal_strlit("aigc_propagate_id");
    reveal_strlit("vocabulary_id");
    reveal_strlit("semantic_punctuation_enabled");
    reveal_strlit("max_sentence_silence");
    reveal_strlit("multi_threshold_mode_enabled");
    reveal_strlit("heartbeat");
    assert("text_type"@.len() == 9);
    assert("voice"@.len() == 5);
    assert("format"@.len() == 6);
    assert("sample_rate"@.len() == 11);
    assert("volume"@.len() == 6);
    assert("rate"@.len() == 4);
    assert("pitch"@.len() == 5);
    assert("enable_ssml"@.len() == 11);
    assert("bit_rate"@.len() == 8);
    assert("word_timestamp_enabled"@.len() == 22);
    assert("seed"@.len() == 4);
    assert("language_hints"@.len() == 14);
    assert("instruction"@.len() == 11);
    assert("enable_aigc_tag"@.len() == 15);
    assert("aigc_propagator"@.len() == 15);
    assert("aigc_propagate_id"@.len() == 17);
    assert("vocabulary_id"@.len() == 13);
    assert("semantic_punctuation_enabled"@.len() == 28);
    assert("max_sentence_silence"@.len() == 20);
    assert("multi_threshold_mode_enabled"@.len() == 28);
    assert("heartbeat"@.len() == 9);
    assert("format"@[0] == 'f');
    assert("volume"@[0] == 'v');
    assert("rate"@[0] == 'r');
    assert("seed"@[0] == 's');
    assert("pitch"@[0] == 'p');
    assert("voice"@[0] == 'v');
    assert("enable_ssml"@[0] == 'e');
    assert("sample_rate"@[0] == 's');
    assert("instruction"@[0] == 'i');
    assert("aigc_propagator"@[0] == 'a');
    assert("enable_aigc_tag"@[0] == 'e');
    assert("multi_threshold_mode_enabled"@[0] == 'm');
    assert("semantic_punctuation_enabled"@[0] == 's');
    assert("heartbeat"@[0] == 'h');
    assert("text_type"@[0] == 't');
}

/// The name `aigc_propagate_id` differs from the name of every other member.
proof fn lemma_task_parameters_name_aigc_propagate_id()
    ensures
        "aigc_propagate_id"@ != "text_type"@,
        "aigc_propagate_id"@ != "voice"@,
        "aigc_propagate_id"@ != "format"@,
        "aigc_propagate_id"@ != "sample_rate"@,
        "aigc_propagate_id"@ != "volume"@,
        "aigc_propagate_id"@ != "rate"@,
        "aigc_propagate_id"@ != "pitch"@,
        "aigc_propagate_id"@ != "enable_ssml"@,
        "aigc_propagate_id"@ != "bit_rate"@,
        "aigc_propagate_id"@ != "word_timestamp_enabled"@,
        "aigc_propagate_id"@ != "seed"@,
        "aigc_propagate_id"@ != "language_hints"@,
        "aigc_propagate_id"@ != "instruction"@,
        "aigc_propagate_id"@ != "enable_aigc_tag"@,
        "aigc_propagate_id"@ != "aigc_propagator"@,
        "aigc_propagate_id"@ != "vocabulary_id"@,
        "aigc_propagate_id"@ != "semantic_punctuation_enabled"@,
        "aigc_propagate_id"@ != "max_sentence_silence"@,
        "aigc_propagate_id"@ != "multi_threshold_mode_enabled"@,
        "aigc_propagate_id"@ != "heartbeat"@,
{
    reveal_strlit("text_type");
    reveal_strlit("voice");
    reveal_strlit("format");
    reveal_strlit("sample_rate");
    reveal_strlit("volume");
    reveal_strlit("rate");
    reveal_strlit("pitch");
    reveal_strlit("enable_ssml");
    reveal_strlit("bit_rate");
    reveal_strlit("word_timestamp_enabled");
    reveal_strlit("seed");
    reveal_strlit("language_hints");
    reveal_strlit("instruction");
    reveal_strlit("enable_aigc_tag");
    reveal_strlit("aigc_propagator");
    reveal_strlit("aigc_propagate_id");
    reveal_strlit("vocabulary_id");
    reveal_strlit("semantic_punctuation_enabled");
    reveal_strlit("max_sentence_silence");
    reveal_strlit("multi_threshold_mode_enabled");
    reveal_strlit("heartbeat");
    assert("text_type"@.len() == 9);
    assert("voice"@.len() == 5);
    assert("format"@.len() == 6);
    assert("sample_rate"@.len() == 11);
    assert("volume"@.len() == 6);
    assert("rate"@.len() == 4);
    assert("pitch"@.len() == 5);
    assert("enable_ssml"@.len() == 11);
    assert("bit_rate"@.len() == 8);
    assert("word_timestamp_enabled"@.len() == 22);
    assert("seed"@.len() == 4);
    assert("language_hints"@.len() == 14);
    assert("instruction"@.len() == 11);
    assert("enable_aigc_tag"@.len() == 15);
    assert("aigc_propagator"@.len() == 15);
    assert("aigc_propagate_id"@.len() == 17);
    assert("vocabulary_id"@.len() == 13);
    assert("semantic_punctuation_enabled"@.len() == 28);
    assert("max_sentence_silence"@.len() == 20);
    assert("multi_threshold_mode_enabled"@.len() == 28);
    assert("heartbeat"@.len() == 9);
    assert("format"@[0] == 'f');
    assert("volume"@[0] == 'v');
    assert("rate"@[0] == 'r');
    assert("seed"@[0] == 's');
    assert("pitch"@[0] == 'p');
    assert("voice"@[0] == 'v');
    assert("enable_ssml"@[0] == 'e');
    assert("sample_rate"@[0] == 's');
    assert("instruction"@[0] == 'i');
    assert("aigc_propagator"@[0] == 'a');
    assert("enable_aigc_tag"@[0] == 'e');
    assert("multi_threshold_mode_enabled"@[0] == 'm');
    assert("semantic_punctuation_enabled"@[0] == 's');
    assert("heartbeat"@[0] == 'h');
    assert("text_type"@[0] == 't');
}

/// The name `vocabulary_id` differs from the name of every other member.
proof fn lemma_task_parameters_name_vocabulary_id()
    ensures
        "vocabulary_id"@ != "text_type"@,
        "vocabulary_id"@ != "voice"@,
        "vocabulary_id"@ != "format"@,
        "vocabulary_id"@ != "sample_rate"@,
        "vocabulary_id"@ != "volume"@,
        "vocabulary_id"@ != "rate"@,
        "vocabulary_id"@ != "pitch"@,
        "vocabulary_id"@ != "enable_ssml"@,
        "vocabulary_id"@ != "bit_rate"@,
        "vocabulary_id"@ != "word_timestamp_enabled"@,
        "vocabulary_id"@ != "seed"@,
        "vocabulary_id"@ != "language_hints"@,
        "vocabulary_id"@ != "instruction"@,
        "vocabulary_id"@ != "enable_aigc_tag"@,
        "vocabulary_id"@ != "aigc_propagator"@,
        "vocabulary_id"@ != "aigc_propagate_id"@,
        "vocabulary_id"@ != "semantic_punctuation_enabled"@,
        "vocabulary_id"@ != "max_sentence_silence"@,
        "vocabulary_id"@ != "multi_threshold_mode_enabled"@,
        "vocabulary_id"@ != "heartbeat"@,
{
    reveal_strlit("text_type");
    reveal_strlit("voice");
    reveal_strlit("format");
    reveal_strlit("sample_rate");
    reveal_strlit("volume");
    reveal_strlit("rate");
    reveal_strlit("pitch");
    reveal_strlit("enable_ssml");
    reveal_strlit("bit_rate");
    reveal_strlit("word_timestamp_enabled");
    reveal_strlit("seed");
    reveal_strlit("language_hints");
    reveal_strlit("instruction");
    reveal_strlit("enable_aigc_tag");
    reveal_strlit("aigc_propagator");
    reveal_strlit("aigc_propagate_id");
    reveal_strlit("vocabulary_id");
    reveal_strlit("semantic_punctuation_enabled");
    reveal_strlit("max_sentence_silence");
    reveal_strlit("multi_threshold_mode_enabled");
    reveal_strlit("heartbeat");
    assert("text_type"@.len() == 9);
    assert("voice"@.len() == 5);
    assert("format"@.len() == 6);
    assert("sample_rate"@.len() == 11);
    assert("volume"@.len() == 6);
    assert("rate"@.len() == 4);
    assert("pitch"@.len() == 5);
    assert("enable_ssml"@.len() == 11);
    assert("bit_rate"@.len() == 8);
    assert("word_timestamp_enabled"@.len() == 22);
    assert("seed"@.len() == 4);
    assert("language_hints"@.len() == 14);
    assert("instruction"@.len() == 11);
    assert("enable_aigc_tag"@.len() == 15);
    assert("aigc_propagator"@.len() == 15);
    assert("aigc_propagate_id"@.len() == 17);
    assert("vocabulary_id"@.len() == 13);
    assert("semantic_punctuation_enabled"@.len() == 28);
    assert("max_sentence_silence"@.len() == 20);
    assert("multi_threshold_mode_enabled"@.len() == 28);
    assert("heartbeat"@.len() == 9);
    assert("format"@[0] == 'f');
    assert("volume"@[0] == 'v');
    assert("rate"@[0] == 'r');
    assert("seed"@[0] == 's');
    assert("pitch"@[0] == 'p');
    assert("voice"@[0] == 'v');
    assert("enable_ssml"@[0] == 'e');
    assert("sample_rate"@[0] == 's');
    assert("instruction"@[0] == 'i');
    assert("aigc_propagator"@[0] == 'a');
    assert("enable_aigc_tag"@[0] == 'e');
    assert("multi_threshold_mode_enabled"@[0] == 'm');
    assert("semantic_punctuation_enabled"@[0] == 's');
    assert("heartbeat"@[0] == 'h');
    assert("text_type"@[0] == 't');
}

/// The name `semantic_punctuation_enabled` differs from the name of every other member.
proof fn lemma_task_parameters_name_semantic_punctuation_enabled()
    ensures
        "semantic_punctuation_enabled"@ != "text_type"@,
        "semantic_punctuation_enabled"@ != "voice"@,
        "semantic_punctuation_enabled"@ != "format"@,
        "semantic_punctuation_enabled"@ != "sample_rate"@,
        "semantic_punctuation_enabled"@ != "volume"@,
        "semantic_punctuation_enabled"@ != "rate"@,
        "semantic_punctuation_enabled"@ != "pitch"@,
        "semantic_punctuation_enabled"@ != "enable_ssml"@,
        "semantic_punctuation_enabled"@ != "bit_rate"@,
        "semantic_punctuation_enabled"@ != "word_timestamp_enabled"@,
        "semantic_punctuation_enabled"@ != "seed"@,
        "semantic_punctuation_enabled"@ != "language_hints"@,
        "semantic_punctuation_enabled"@ != "instruction"@,
        "semantic_punctuation_enabled"@ != "enable_aigc_tag"@,
        "semantic_punctuation_enabled"@ != "aigc_propagator"@,
        "semantic_punctuation_enabled"@ != "aigc_propagate_id"@,
        "semantic_punctuation_enabled"@ != "vocabulary_id"@,
        "semantic_punctuation_enabled"@ != "max_sentence_silence"@,
        "semantic_punctuation_enabled"@ != "multi_threshold_mode_enabled"@,
        "semantic_punctuation_enabled"@ != "heartbeat"@,
{
    reveal_strlit("text_type");
    reveal_strlit("voice");
    reveal_strlit("format");
    reveal_strlit("sample_rate");
    reveal_strlit("volume");
    reveal_strlit("rate");
    reveal_strlit("pitch");
    reveal_strlit("enable_ssml");
    reveal_strlit("bit_rate");
    reveal_strlit("word_timestamp_enabled");
    reveal_strlit("seed");
    reveal_strlit("language_hints");
    reveal_strlit("instruction");
    reveal_strlit("enable_aigc_tag");
    reveal_strlit("aigc_propagator");
    reveal_strlit("aigc_propagate_id");
    reveal_strlit("vocabulary_id");
    reveal_strlit("semantic_punctuation_enabled");
    reveal_strlit("max_sentence_silence");
    reveal_strlit("multi_threshold_mode_enabled");
    reveal_strlit("heartbeat");
    assert("text_type"@.len() == 9);
    assert("voice"@.len() == 5);
    assert("format"@.len() == 6);
    assert("sample_rate"@.len() == 11);
    assert("volume"@.len() == 6);
    assert("rate"@.len() == 4);
    assert("pitch"@.len() == 5);
    assert("enable_ssml"@.len() == 11);
    assert("bit_rate"@.len() == 8);
    assert("word_timestamp_enabled"@.len() == 22);
    assert("seed"@.len() == 4);
    assert("language_hints"@.len() == 14);
    assert("instruction"@.len() == 11);
    assert("enable_aigc_tag"@.len() == 15);
    assert("aigc_propagator"@.len() == 15);
    assert("aigc_propagate_id"@.len() == 17);
    assert("vocabulary_id"@.len() == 13);
    assert("semantic_punctuation_enabled"@.len() == 28);
    assert("max_sentence_silence"@.len() == 20);
    assert("multi_threshold_mode_enabled"@.len() == 28);
    assert("heartbeat"@.len() == 9);
    assert("format"@[0] == 'f');
    assert("volume"@[0] == 'v');
    assert("rate"@[0] == 'r');
    assert("seed"@[0] == 's');
    assert("pitch"@[0] == 'p');
    assert("voice"@[0] == 'v');
    assert("enable_ssml"@[0] == 'e');
    assert("sample_rate"@[0] == 's');
    assert("instruction"@[0] == 'i');
    assert("aigc_propagator"@[0] == 'a');
    assert("enable_aigc_tag"@[0] == 'e');
    assert("multi_threshold_mode_enabled"@[0] == 'm');
    assert("semantic_punctuation_enabled"@[0] == 's');
    assert("heartbeat"@[0] == 'h');
    assert("text_type"@[0] == 't');
}

/// The name `max_sentence_silence` differs from the name of every other member.
proof fn lemma_task_parameters_name_max_sentence_silence()
    ensures
        "max_sentence_silence"@ != "text_type"@,
        "max_sentence_silence"@ != "voice"@,
        "max_sentence_silence"@ != "format"@,
        "max_sentence_silence"@ != "sample_rate"@,
        "max_sentence_silence"@ != "volume"@,
        "max_sentence_silence"@ != "rate"@,
        "max_sentence_silence"@ != "pitch"@,
        "max_sentence_silence"@ != "enable_ssml"@,
        "max_sentence_silence"@ != "bit_rate"@,
        "max_sentence_silence"@ != "word_timestamp_enabled"@,
        "max_sentence_silence"@ != "seed"@,
        "max_sentence_silence"@ != "language_hints"@,
        "max_sentence_silence"@ != "instruction"@,
        "max_sentence_silence"@ != "enable_aigc_tag"@,
        "max_sentence_silence"@ != "aigc_propagator"@,
        "max_sentence_silence"@ != "aigc_propagate_id"@,
        "max_sentence_silence"@ != "vocabulary_id"@,
        "max_sentence_silence"@ != "semantic_punctuation_enabled"@,
        "max_sentence_silence"@ != "multi_threshold_mode_enabled"@,
        "max_sentence_silence"@ != "heartbeat"@,
{
    reveal_strlit("text_type");
    reveal_strlit("voice");
    reveal_strlit("format");
    reveal_strlit("sample_rate");
    reveal_strlit("volume");
    reveal_strlit("rate");
    reveal_strlit("pitch");
    reveal_strlit("enable_ssml");
    reveal_strlit("bit_rate");
    reveal_strlit("word_timestamp_enabled");
    reveal_strlit("seed");
    reveal_strlit("language_hints");
    reveal_strlit("instruction");
    reveal_strlit("enable_aigc_tag");
    reveal_strlit("aigc_propagator");
    reveal_strlit("aigc_propagate_id");
    reveal_strlit("vocabulary_id");
    reveal_strlit("semantic_punctuation_enabled");
    reveal_strlit("max_sentence_silence");
    reveal_strlit("multi_threshold_mode_enabled");
    reveal_strlit("heartbeat");
    assert("text_type"@.len() == 9);
    assert("voice"@.len() == 5);
    assert("format"@.len() == 6);
    assert("sample_rate"@.len() == 11);
    assert("volume"@.len() == 6);
    assert("rate"@.len() == 4);
    assert("pitch"@.len() == 5);
    assert("enable_ssml"@.len() == 11);
    assert("bit_rate"@.len() == 8);
    assert("word_timestamp_enabled"@.len() == 22);
    assert("seed"@.len() == 4);
    assert("language_hints"@.len() == 14);
    assert("instruction"@.len() == 11);
    assert("enable_aigc_tag"@.len() == 15);
    assert("aigc_propagator"@.len() == 15);
    assert("aigc_propagate_id"@.len() == 17);
    assert("vocabulary_id"@.len() == 13);
    assert("semantic_punctuation_enabled"@.len() == 28);
    assert("max_sentence_silence"@.len() == 20);
    assert("multi_threshold_mode_enabled"@.len() == 28);
    assert("heartbeat"@.len() == 9);
    assert("format"@[0] == 'f');
    assert("volume"@[0] == 'v');
    assert("rate"@[0] == 'r');
    assert("seed"@[0] == 's');
    assert("pitch"@[0] == 'p');
    assert("voice"@[0] == 'v');
    assert("enable_ssml"@[0] == 'e');
    assert("sample_rate"@[0] == 's');
    assert("instruction"@[0] == 'i');
    assert("aigc_propagator"@[0] == 'a');
    assert("enable_aigc_tag"@[0] == 'e');
    assert("multi_threshold_mode_enabled"@[0] == 'm');
    assert("semantic_punctuation_enabled"@[0] == 's');
    assert("heartbeat"@[0] == 'h');
    assert("text_type"@[0] == 't');
}

/// The name `multi_threshold_mode_enabled` differs from the name of every other member.
proof fn lemma_task_parameters_name_multi_threshold_mode_enabled()
    ensures
        "multi_threshold_mode_enabled"@ != "text_type"@,
        "multi_threshold_mode_enabled"@ != "voice"@,
        "multi_threshold_mode_enabled"@ != "format"@,
        "multi_threshold_mode_enabled"@ != "sample_rate"@,
        "multi_threshold_mode_enabled"@ != "volume"@,
        "multi_threshold_mode_enabled"@ != "rate"@,
        "multi_threshold_mode_enabled"@ != "pitch"@,
        "multi_threshold_mode_enabled"@ != "enable_ssml"@,
        "multi_threshold_mode_enabled"@ != "bit_rate"@,
        "multi_threshold_mode_enabled"@ != "word_timestamp_enabled"@,
        "multi_threshold_mode_enabled"@ != "seed"@,
        "multi_threshold_mode_enabled"@ != "language_hints"@,
        "multi_threshold_mode_enabled"@ != "instruction"@,
        "multi_threshold_mode_enabled"@ != "enable_aigc_tag"@,
        "multi_threshold_mode_enabled"@ != "aigc_propagator"@,
        "multi_threshold_mode_enabled"@ != "aigc_propagate_id"@,
        "multi_threshold_mode_enabled"@ != "vocabulary_id"@,
        "multi_threshold_mode_enabled"@ != "semantic_punctuation_enabled"@,
        "multi_threshold_mode_enabled"@ != "max_sentence_silence"@,
        "multi_threshold_mode_enabled"@ != "heartbeat"@,
{
    reveal_strlit("text_type");
    reveal_strlit("voice");
    reveal_strlit("format");
    reveal_strlit("sample_rate");
    reveal_strlit("volume");
    reveal_strlit("rate");
    reveal_strlit("pitch");
    reveal_strlit("enable_ssml");
    reveal_strlit("bit_rate");
    reveal_strlit("word_timestamp_enabled");
    reveal_strlit("seed");
    reveal_strlit("language_hints");
    reveal_strlit("instruction");
    reveal_strlit("enable_aigc_tag");
    reveal_strlit("aigc_propagator");
    reveal_strlit("aigc_propagate_id");
    reveal_strlit("vocabulary_id");
    reveal_strlit("semantic_punctuation_enabled");
    reveal_strlit("max_sentence_silence");
    reveal_strlit("multi_threshold_mode_enabled");
    reveal_strlit("heartbeat");
    assert("text_type"@.len() == 9);
    assert("voice"@.len() == 5);
    assert("format"@.len() == 6);
    assert("sample_rate"@.len() == 11);
    assert("volume"@.len() == 6);
    assert("rate"@.len() == 4);
    assert("pitch"@.len() == 5);
    assert("enable_ssml"@.len() == 11);
    assert("bit_rate"@.len() == 8);
    assert("word_timestamp_enabled"@.len() == 22);
    assert("seed"@.len() == 4);
    assert("language_hints"@.len() == 14);
    assert("instruction"@.len() == 11);
    assert("enable_aigc_tag"@.len() == 15);
    assert("aigc_propagator"@.len() == 15);
    assert("aigc_propagate_id"@.len() == 17);
    assert("vocabulary_id"@.len() == 13);
    assert("semantic_punctuation_enabled"@.len() == 28);
    assert("max_sentence_silence"@.len() == 20);
    assert("multi_threshold_mode_enabled"@.len() == 28);
    assert("heartbeat"@.len() == 9);
    assert("format"@[0] == 'f');
    assert("volume"@[0] == 'v');
    assert("rate"@[0] == 'r');
    assert("seed"@[0] == 's');
    assert("pitch"@[0] == 'p');
    assert("voice"@[0] == 'v');
    assert("enable_ssml"@[0] == 'e');
    assert("sample_rate"@[0] == 's');
    assert("instruction"@[0] == 'i');
    assert("aigc_propagator"@[0] == 'a');
    assert("enable_aigc_tag"@[0] == 'e');
    assert("multi_threshold_mode_enabled"@[0] == 'm');
    assert("semantic_punctuation_enabled"@[0] == 's');
    assert("heartbeat"@[0] == 'h');
    assert("text_type"@[0] == 't');
}

/// The name `heartbeat` differs from the name of every other member.
proof fn lemma_task_parameters_name_heartbeat()
    ensures
        "heartbeat"@ != "text_type"@,
        "heartbeat"@ != "voice"@,
        "heartbeat"@ != "format"@,
        "heartbeat"@ != "sample_rate"@,
        "heartbeat"@ != "volume"@,
        "heartbeat"@ != "rate"@,
        "heartbeat"@ != "pitch"@,
        "heartbeat"@ != "enable_ssml"@,
        "heartbeat"@ != "bit_rate"@,
        "heartbeat"@ != "word_timestamp_enabled"@,
        "heartbeat"@ != "seed"@,
        "heartbeat"@ != "language_hints"@,
        "heartbeat"@ != "instruction"@,
        "heartbeat"@ != "enable_aigc_tag"@,
        "heartbeat"@ != "aigc_propagator"@,
        "heartbeat"@ != "aigc_propagate_id"@,
        "heartbeat"@ != "vocabulary_id"@,
        "heartbeat"@ != "semantic_punctuation_enabled"@,
        "heartbeat"@ != "max_sentence_silence"@,
        "heartbeat"@ != "multi_threshold_mode_enabled"@,
{
    reveal_strlit("text_type");
    reveal_strlit("voice");
    reveal_strlit("format");
    reveal_strlit("sample_rate");
    reveal_strlit("volume");
    reveal_strlit("rate");
    reveal_strlit("pitch");
    reveal_strlit("enable_ssml");
    reveal_strlit("bit_rate");
    reveal_strlit("word_timestamp_enabled");
    reveal_strlit("seed");
    reveal_strlit("language_hints");
    reveal_strlit("instruction");
    reveal_strlit("enable_aigc_tag");
    reveal_strlit("aigc_propagator");
    reveal_strlit("aigc_propagate_id");
    reveal_strlit("vocabulary_id");
    reveal_strlit("semantic_punctuation_enabled");
    reveal_strlit("max_sentence_silence");
    reveal_strlit("multi_threshold_mode_enabled");
    reveal_strlit("heartbeat");
    assert("text_type"@.len() == 9);
    assert("voice"@.len() == 5);
    assert("format"@.len() == 6);
    assert("sample_rate"@.len() == 11);
    assert("volume"@.len() == 6);
    assert("rate"@.len() == 4);
    assert("pitch"@.len() == 5);
    assert("enable_ssml"@.len() == 11);
    assert("bit_rate"@.len() == 8);
    assert("word_timestamp_enabled"@.len() == 22);
    assert("seed"@.len() == 4);
    assert("language_hints"@.len() == 14);
    assert("instruction"@.len() == 11);
    assert("enable_aigc_tag"@.len() == 15);
    assert("aigc_propagator"@.len() == 15);
    assert("aigc_propagate_id"@.len() == 17);
    assert("vocabulary_id"@.len() == 13);
    assert("semantic_punctuation_enabled"@.len() == 28);
    assert("max_sentence_silence"@.len() == 20);
    assert("multi_threshold_mode_enabled"@.len() == 28);
    assert("heartbeat"@.len() == 9);
    assert("format"@[0] == 'f');
    assert("volume"@[0] == 'v');
    assert("rate"@[0] == 'r');
    assert("seed"@[0] == 's');
    assert("pitch"@[0] == 'p');
    assert("voice"@[0] == 'v');
    assert("enable_ssml"@[0] == 'e');
    assert("sample_rate"@[0] == 's');
    assert("instruction"@[0] == 'i');
    assert("aigc_propagator"@[0] == 'a');
    assert("enable_aigc_tag"@[0] == 'e');
    assert("multi_threshold_mode_enabled"@[0] == 'm');
    assert("semantic_punctuation_enabled"@[0] == 's');
    assert("heartbeat"@[0] == 'h');
    assert("text_type"@[0] == 't');
}

/// Reading `text_type` from what was written gives what was there.
proof fn lemma_task_parameters_reads_text_type(t: TaskParametersView)
    requires
        t.wf(),
    ensures
        ({
            let j = t.to_json();
            j is Object && TextType::optional(j, "text_type"@) == Some(t.text_type)
        }),
{
    broadcast use {
        lemma_field_empty,
        lemma_field_with_other,
        lemma_field_with_same,
        lemma_field_with_opt_other,
        lemma_field_with_opt_same,
        lemma_with_opt_object,
    };

    lemma_task_parameters_name_text_type();
    TextType::lemma_names();
    assert(t.to_json().opt_text("text_type"@) == Some(
        match t.text_type {
            Some(x) => Some(x.text()),
            None => None,
        },
    ));
}

/// Reading `voice` from what was written gives what was there.
proof fn lemma_task_parameters_reads_voice(t: TaskParametersView)
    requires
        t.wf(),
    ensures
        ({
            let j = t.to_json();
            j is Object && j.opt_text("voice"@) == Some(t.voice)
        }),
{
    broadcast use {
        lemma_field_empty,
        lemma_field_with_other,
        lemma_field_with_same,
        lemma_field_with_opt_other,
        lemma_field_with_opt_same,
        lemma_with_opt_object,
    };

    lemma_task_parameters_name_voice();
}

/// Reading `format` from what was written gives what was there.
proof fn lemma_task_parameters_reads_format(t: TaskParametersView)
    requires
        t.wf(),
    ensures
        ({
            let j = t.to_json();
            j is Object && j.req_text("format"@) == Some(t.format)
        }),
{
    broadcast use {
        lemma_field_empty,
        lemma_field_with_other,
        lemma_field_with_same,
        lemma_field_with_opt_other,
        lemma_field_with_opt_same,
        lemma_with_opt_object,
    };

    lemma_task_parameters_name_format();
}

/// Reading `sample_rate` from what was written gives what was there.
proof fn lemma_task_parameters_reads_sample_rate(t: TaskParametersView)
    requires
        t.wf(),
    ensures
        ({
            let j = t.to_json();
            j is Object && j.opt_u32("sample_rate"@) == Some(t.sample_rate)
        }),
{
    broadcast use {
        lemma_field_empty,
        lemma_field_with_other,
        lemma_field_with_same,
        lemma_field_with_opt_other,
        lemma_field_with_opt_same,
        lemma_with_opt_object,
    };

    lemma_task_parameters_name_sample_rate();
}

/// Reading `volume` from what was written gives what was there.
proof fn lemma_task_parameters_reads_volume(t: TaskParametersView)
    requires
        t.wf(),
    ensures
        ({
            let j = t.to_json();
            j is Object && j.opt_u8("volume"@) == Some(t.volume)
        }),
{
    broadcast use {
        lemma_field_empty,
        lemma_field_with_other,
        lemma_field_with_same,
        lemma_field_with_opt_other,
        lemma_field_with_opt_same,
        lemma_with_opt_object,
    };

    lemma_task_parameters_name_volume();
}

/// Reading `rate` from what was written gives what was there.
proof fn lemma_task_parameters_reads_rate(t: TaskParametersView)
    requires
        t.wf(),
    ensures
        ({
            let j = t.to_json();
            j is Object && j.opt_number("rate"@) == Some(t.rate)
        }),
{
    broadcast use {
        lemma_field_empty,
        lemma_field_with_other,
        lemma_field_with_same,
        lemma_field_with_opt_other,
        lemma_field_with_opt_same,
        lemma_with_opt_object,
    };

    lemma_task_parameters_name_rate();
}

/// Reading `pitch` from what was written gives what was there.
proof fn lemma_task_parameters_reads_pitch(t: TaskParametersView)
    requires
        t.wf(),
    ensures
        ({
            let j = t.to_json();
            j is Object && j.opt_number("pitch"@) == Some(t.pitch)
        }),
{
    broadcast use {
        lemma_field_empty,
        lemma_field_with_other,
        lemma_field_with_same,
        lemma_field_with_opt_other,
        lemma_field_with_opt_same,
        lemma_with_opt_object,
    };

    lemma_task_parameters_name_pitch();
}

/// Reading `enable_ssml` from what was written gives what was there.
proof fn lemma_task_parameters_reads_enable_ssml(t: TaskParametersView)
    requires
        t.wf(),
    ensures
        ({
            let j = t.to_json();
            j is Object && j.opt_boolean("enable_ssml"@) == Some(t.enable_ssml)
        }),
{
    broadcast use {
        lemma_field_empty,
        lemma_field_with_other,
        lemma_field_with_same,
        lemma_field_with_opt_other,
        lemma_field_with_opt_same,
        lemma_with_opt_object,
    };

    lemma_task_parameters_name_enable_ssml();
}

/// Reading `bit_rate` from what was written gives what was there.
proof fn lemma_task_parameters_reads_bit_rate(t: TaskParametersView)
    requires
        t.wf(),
    ensures
        ({
            let j = t.to_json();
            j is Object && j.opt_u32("bit_rate"@) == Some(t.bit_rate)
        }),
{
    broadcast use {
        lemma_field_empty,
        lemma_field_with_other,
        lemma_field_with_same,
        lemma_field_with_opt_other,
        lemma_field_with_opt_same,
        lemma_with_opt_object,
    };

    lemma_task_parameters_name_bit_rate();
}

/// Reading `word_timestamp_enabled` from what was written gives what was there.
proof fn lemma_task_parameters_reads_word_timestamp_enabled(t: TaskParametersView)
    requires
        t.wf(),
    ensures
        ({
            let j = t.to_json();
            j is Object && j.opt_boolean("word_timestamp_enabled"@) == Some(t.word_timestamp_enabled)
        }),
{
    broadcast use {
        lemma_field_empty,
        lemma_field_with_other,
        lemma_field_with_same,
        lemma_field_with_opt_other,
        lemma_field_with_opt_same,
        lemma_with_opt_object,
    };

    lemma_task_parameters_name_word_timestamp_enabled();
}

/// Reading `seed` from what was written gives what was there.
proof fn lemma_task_parameters_reads_seed(t: TaskParametersView)
    requires
        t.wf(),
    ensures
        ({
            let j = t.to_json();
            j is Object && j.opt_u32("seed"@) == Some(t.seed)
        }),
{
    broadcast use {
        lemma_field_empty,
        lemma_field_with_other,
        lemma_field_with_same,
        lemma_field_with_opt_other,
        lemma_field_with_opt_same,
        lemma_with_opt_object,
    };

    lemma_task_parameters_name_seed();
}

/// Reading `language_hints` from what was written gives what was there.
proof fn lemma_task_parameters_reads_language_hints(t: TaskParametersView)
    requires
        t.wf(),
    ensures
        ({
            let j = t.to_json();
            j is Object && j.opt_texts("language_hints"@) == Some(t.language_hints)
        }),
{
    broadcast use {
        lemma_field_empty,
        lemma_field_with_other,
        lemma_field_with_same,
        lemma_field_with_opt_other,
        lemma_field_with_opt_same,
        lemma_with_opt_object,
    };

    lemma_task_parameters_name_language_hints();
    if t.language_hints is Some {
        assert(texts_to_json(t.language_hints->0).as_texts()->0 =~= t.language_hints->0);
    }
}

/// Reading `instruction` from what was written gives what was there.
proof fn lemma_task_parameters_reads_instruction(t: TaskParametersView)
    requires
        t.wf(),
    ensures
        ({
            let j = t.to_json();
            j is Object && j.opt_text("instruction"@) == Some(t.instruction)
        }),
{
    broadcast use {
        lemma_field_empty,
        lemma_field_with_other,
        lemma_field_with_same,
        lemma_field_with_opt_other,
        lemma_field_with_opt_same,
        lemma_with_opt_object,
    };

    lemma_task_parameters_name_instruction();
}

/// Reading `enable_aigc_tag` from what was written gives what was there.
proof fn lemma_task_parameters_reads_enable_aigc_tag(t: TaskParametersView)
    requires
        t.wf(),
    ensures
        ({
            let j = t.to_json();
            j is Object && j.opt_boolean("enable_aigc_tag"@) == Some(t.enable_aigc_tag)
        }),
{
    broadcast use {
        lemma_field_empty,
        lemma_field_with_other,
        lemma_field_with_same,
        lemma_field_with_opt_other,
        lemma_field_with_opt_same,
        lemma_with_opt_object,
    };

    lemma_task_parameters_name_enable_aigc_tag();
}

/// Reading `aigc_propagator` from what was written gives what was there.
proof fn lemma_task_parameters_reads_aigc_propagator(t: TaskParametersView)
    requires
        t.wf(),
    ensures
        ({
            let j = t.to_json();
            j is Object && j.opt_text("aigc_propagator"@) == Some(t.aigc_propagator)
        }),
{
    broadcast use {
        lemma_field_empty,
        lemma_field_with_other,
        lemma_field_with_same,
        lemma_field_with_opt_other,
        lemma_field_with_opt_same,
        lemma_with_opt_object,
    };

    lemma_task_parameters_name_aigc_propagator();
}

/// Reading `aigc_propagate_id` from what was written gives what was there.
proof fn lemma_task_parameters_reads_aigc_propagate_id(t: TaskParametersView)
    requires
        t.wf(),
    ensures
        ({
            let j = t.to_json();
            j is Object && j.opt_text("aigc_propagate_id"@) == Some(t.aigc_propagate_id)
        }),
{
    broadcast use {
        lemma_field_empty,
        lemma_field_with_other,
        lemma_field_with_same,
        lemma_field_with_opt_other,
        lemma_field_with_opt_same,
        lemma_with_opt_object,
    };

    lemma_task_parameters_name_aigc_propagate_id();
}

/// Reading `vocabulary_id` from what was written gives what was there.
proof fn lemma_task_parameters_reads_vocabulary_id(t: TaskParametersView)
    requires
        t.wf(),
    ensures
        ({
            let j = t.to_json();
            j is Object && j.opt_text("vocabulary_id"@) == Some(t.vocabulary_id)
        }),
{
    broadcast use {
        lemma_field_empty,
        lemma_field_with_other,
        lemma_field_with_same,
        lemma_field_with_opt_other,
        lemma_field_with_opt_same,
        lemma_with_opt_object,
    };

    lemma_task_parameters_name_vocabulary_id();
}

/// Reading `semantic_punctuation_enabled` from what was written gives what was there.
proof fn lemma_task_parameters_reads_semantic_punctuation_enabled(t: TaskParametersView)
    requires
        t.wf(),
    ensures
        ({
            let j = t.to_json();
            j is Object && j.opt_boolean("semantic_punctuation_enabled"@) == Some(t.semantic_punctuation_enabled)
        }),
{
    broadcast use {
        lemma_field_empty,
        lemma_field_with_other,
        lemma_field_with_same,
        lemma_field_with_opt_other,
        lemma_field_with_opt_same,
        lemma_with_opt_object,
    };

    lemma_task_parameters_name_semantic_punctuation_enabled();
}

/// Reading `max_sentence_silence` from what was written gives what was there.
proof fn lemma_task_parameters_reads_max_sentence_silence(t: TaskParametersView)
    requires
        t.wf(),
    ensures
        ({
            let j = t.to_json();
            j is Object && j.opt_u32("max_sentence_silence"@) == Some(t.max_sentence_silence)
        }),
{
    broadcast use {
        lemma_field_empty,
        lemma_field_with_other,
        lemma_field_with_same,
        lemma_field_with_opt_other,
        lemma_field_with_opt_same,
        lemma_with_opt_object,
    };

    lemma_task_parameters_name_max_sentence_silence();
}

/// Reading `multi_threshold_mode_enabled` from what was written gives what was there.
proof fn lemma_task_parameters_reads_multi_threshold_mode_enabled(t: TaskParametersView)
    requires
        t.wf(),
    ensures
        ({
            let j = t.to_json();
            j is Object && j.opt_boolean("multi_threshold_mode_enabled"@) == Some(t.multi_threshold_mode_enabled)
        }),
{
    broadcast use {
        lemma_field_empty,
        lemma_field_with_other,
        lemma_field_with_same,
        lemma_field_with_opt_other,
        lemma_field_with_opt_same,
        lemma_with_opt_object,
    };

    lemma_task_parameters_name_multi_threshold_mode_enabled();
}

/// Reading `heartbeat` from what was written gives what was there.
proof fn lemma_task_parameters_reads_heartbeat(t: TaskParametersView)
    requires
        t.wf(),
    ensures
        ({
            let j = t.to_json();
            j is Object && j.opt_boolean("heartbeat"@) == Some(t.heartbeat)
        }),
{
    broadcast use {
        lemma_field_empty,
        lemma_field_with_other,
        lemma_field_with_same,
        lemma_field_with_opt_other,
        lemma_field_with_opt_same,
        lemma_with_opt_object,
    };

    lemma_task_parameters_name_heartbeat();
}

/// A well-formed parameter set is read back from its wire value.
pub proof fn lemma_task_parameters_roundtrip(t: TaskParametersView)
    requires
        t.wf(),
    ensures
        TaskParametersView::from_json(t.to_json()) == Some(t),
{
    lemma_task_parameters_reads_text_type(t);
    lemma_task_parameters_reads_voice(t);
    lemma_task_parameters_reads_format(t);
    lemma_task_parameters_reads_sample_rate(t);
    lemma_task_parameters_reads_volume(t);
    lemma_task_parameters_reads_rate(t);
    lemma_task_parameters_reads_pitch(t);
    lemma_task_parameters_reads_enable_ssml(t);
    lemma_task_parameters_reads_bit_rate(t);
    lemma_task_parameters_reads_word_timestamp_enabled(t);
    lemma_task_parameters_reads_seed(t);
    lemma_task_parameters_reads_language_hints(t);
    lemma_task_parameters_reads_instruction(t);
    lemma_task_parameters_reads_enable_aigc_tag(t);
    lemma_task_parameters_reads_aigc_propagator(t);
    lemma_task_parameters_reads_aigc_propagate_id(t);
    lemma_task_parameters_reads_vocabulary_id(t);
    lemma_task_parameters_reads_semantic_punctuation_enabled(t);
    lemma_task_parameters_reads_max_sentence_silence(t);
    lemma_task_parameters_reads_multi_threshold_mode_enabled(t);
    lemma_task_parameters_reads_heartbeat(t);
}

/// A well-formed payload is read back from its wire value.
pub proof fn lemma_run_task_payload_roundtrip(t: RunTaskPayloadView)
    requires
        t.wf(),
    ensures
        RunTaskPayloadView::from_json(t.to_json()) == Some(t),
{
    broadcast use {
        lemma_field_empty,
        lemma_field_with_other,
        lemma_field_with_same,
        lemma_field_with_opt_other,
        lemma_field_with_opt_same,
        lemma_with_opt_object,
    };

    reveal_strlit("task_group");
    reveal_strlit("task");
    reveal_strlit("function");
    reveal_strlit("model");
    reveal_strlit("input");
    reveal_strlit("parameters");
    assert("task_group"@.len() == 10);
    assert("task"@.len() == 4);
    assert("function"@.len() == 8);
    assert("model"@.len() == 5);
    assert("input"@.len() == 5);
    assert("parameters"@.len() == 10);
    assert("input"@[0] == 'i');
    assert("model"@[0] == 'm');
    assert("parameters"@[0] == 'p');
    assert("task_group"@[0] == 't');
    RunTaskType::lemma_names();
    assert(t.to_json().req_text("task"@) == Some(t.task.text()));
    RunTaskFunction::lemma_names();
    assert(t.to_json().req_text("function"@) == Some(t.function.text()));
    lemma_task_parameters_roundtrip(t.parameters);
    let j = t.to_json();
    assert(j.req_text("task_group"@) == Some(t.task_group));
    assert(RunTaskType::required(j, "task"@) == Some(t.task));
    assert(RunTaskFunction::required(j, "function"@) == Some(t.function));
    assert(j.req_text("model"@) == Some(t.model));
    assert(j.req_object("input"@) == Some(t.input));
    assert(TaskParametersView::required(j, "parameters"@) == Some(t.parameters));
}

/// A well-formed start command is read back from its wire value.
pub proof fn lemma_run_task_parameters_roundtrip(t: RunTaskParametersView)
    requires
        t.wf(),
    ensures
        RunTaskParametersView::from_json(t.to_json()) == Some(t),
{
    broadcast use {
        lemma_field_empty,
        lemma_field_with_other,
        lemma_field_with_same,
        lemma_field_with_opt_other,
        lemma_field_with_opt_same,
        lemma_with_opt_object,
    };

    reveal_strlit("header");
    reveal_strlit("payload");
    assert("header"@.len() == 6);
    assert("payload"@.len() == 7);
    lemma_task_header_roundtrip(t.header);
    lemma_run_task_payload_roundtrip(t.payload);
    let j = t.to_json();
    assert(TaskHeaderView::required(j, "header"@) == Some(t.header));
    assert(RunTaskPayloadView::required(j, "payload"@) == Some(t.payload));
}

/// A well-formed payload is read back from its wire value.
pub proof fn lemma_finish_task_payload_roundtrip(t: FinishTaskPayloadView)
    requires
        t.wf(),
    ensures
        FinishTaskPayloadView::from_json(t.to_json()) == Some(t),
{
    broadcast use {
        lemma_field_empty,
        lemma_field_with_other,
        lemma_field_with_same,
        lemma_field_with_opt_other,
        lemma_field_with_opt_same,
        lemma_with_opt_object,
    };

    reveal_strlit("input");
    assert("input"@.len() == 5);
    let j = t.to_json();
    assert(j.req_object("input"@) == Some(t.input));
}

/// A well-formed finish command is read back from its wire value.
pub proof fn lemma_finish_task_parameters_roundtrip(t: FinishTaskParametersView)
    requires
        t.wf(),
    ensures
        FinishTaskParametersView::from_json(t.to_json()) == Some(t),
{
    broadcast use {
        lemma_field_empty,
        lemma_field_with_other,
        lemma_field_with_same,
        lemma_field_with_opt_other,
        lemma_field_with_opt_same,
        lemma_with_opt_object,
    };

    reveal_strlit("header");
    reveal_strlit("payload");
    assert("header"@.len() == 6);
    assert("payload"@.len() == 7);
    lemma_task_header_roundtrip(t.header);
    lemma_finish_task_payload_roundtrip(t.payload);
    let j = t.to_json();
    assert(TaskHeaderView::required(j, "header"@) == Some(t.header));
    assert(FinishTaskPayloadView::required(j, "payload"@) == Some(t.payload));
}

/// An input is read back from its wire value.
pub proof fn lemma_continue_task_input_roundtrip(t: ContinueTaskInputView)
    ensures
        ContinueTaskInputView::from_json(t.to_json()) == Some(t),
{
    broadcast use {
        lemma_field_empty,
        lemma_field_with_other,
        lemma_field_with_same,
        lemma_field_with_opt_other,
        lemma_field_with_opt_same,
        lemma_with_opt_object,
    };

    reveal_strlit("text");
    assert("text"@.len() == 4);
    let j = t.to_json();
    assert(j.req_text("text"@) == Some(t.text));
}

/// A payload is read back from its wire value.
pub proof fn lemma_continue_task_payload_roundtrip(t: ContinueTaskPayloadView)
    ensures
        ContinueTaskPayloadView::from_json(t.to_json()) == Some(t),
{
    broadcast use {
        lemma_field_empty,
        lemma_field_with_other,
        lemma_field_with_same,
        lemma_field_with_opt_other,
        lemma_field_with_opt_same,
        lemma_with_opt_object,
    };

    reveal_strlit("input");
    assert("input"@.len() == 5);
    lemma_continue_task_input_roundtrip(t.input);
    let j = t.to_json();
    assert(ContinueTaskInputView::required(j, "input"@) == Some(t.input));
}

/// A continue command is read back from its wire value.
pub proof fn lemma_continue_task_parameters_roundtrip(t: ContinueTaskParametersView)
    ensures
        ContinueTaskParametersView::from_json(t.to_json()) == Some(t),
{
    broadcast use {
        lemma_field_empty,
        lemma_field_with_other,
        lemma_field_with_same,
        lemma_field_with_opt_other,
        lemma_field_with_opt_same,
        lemma_with_opt_object,
    };

    reveal_strlit("header");
    reveal_strlit("payload");
    assert("header"@.len() == 6);
    assert("payload"@.len() == 7);
    lemma_task_header_roundtrip(t.header);
    lemma_continue_task_payload_roundtrip(t.payload);
    let j = t.to_json();
    assert(TaskHeaderView::required(j, "header"@) == Some(t.header));
    assert(ContinueTaskPayloadView::required(j, "payload"@) == Some(t.payload));
}

} // verus!
