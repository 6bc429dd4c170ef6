use async_dashscope::error::BuilderError;
use async_dashscope::operation::audio::ws::param::{
    create_asr_run_task, create_continue_task, create_finish_task, create_tts_run_task,
    default_streaming, default_volume, FinishTaskParameters, FinishTaskParametersBuilder,
    FinishTaskPayloadBuilder, RunTaskFunction, RunTaskParameters, RunTaskParametersBuilder,
    RunTaskPayloadBuilder, RunTaskType, TaskAction, TaskHeader, TaskHeaderBuilder, TaskParameters,
    TaskParametersBuilder, TextType,
};

fn parse(text: &str) -> serde_json::Value {
    serde_json::from_str(text).unwrap()
}

#[test]
fn test_run_task_parameters_creation() {
    let header = TaskHeaderBuilder::default()
        .action(TaskAction::RunTask)
        .streaming("duplex".to_string())
        .build()
        .expect("Failed to build header");

    let task_params = TaskParametersBuilder::default()
        .text_type(TextType::PlainText)
        .format("pcm".to_string())
        .sample_rate(16000)
        .semantic_punctuation_enabled(true)
        .build()
        .expect("Failed to build recognition parameters");

    let payload = RunTaskPayloadBuilder::default()
        .task_group("audio".to_string())
        .task(RunTaskType::Asr)
        .function(RunTaskFunction::Recognition)
        .model("fun-asr-realtime".to_string())
        .parameters(task_params)
        .build()
        .expect("Failed to build payload");

    let params = RunTaskParametersBuilder::default()
        .header(header)
        .payload(payload)
        .build()
        .expect("Failed to build run task parameters");

    assert_eq!(params.header.action, TaskAction::RunTask);
    assert_eq!(params.payload.task_group, "audio");
    assert_eq!(params.payload.task, RunTaskType::Asr);
    assert_eq!(params.payload.function, RunTaskFunction::Recognition);
    assert_eq!(params.payload.model, "fun-asr-realtime");
    assert_eq!(params.payload.parameters.format, "pcm");
    assert_eq!(params.payload.parameters.sample_rate, Some(16000));
    assert_eq!(
        params.payload.parameters.semantic_punctuation_enabled,
        Some(true)
    );
}

#[test]
fn test_finish_task_parameters_creation() {
    let header = TaskHeaderBuilder::default()
        .action(TaskAction::FinishTask)
        .task_id("test-task-id".to_string())
        .streaming("duplex".to_string())
        .build()
        .expect("Failed to build finish task header");

    let payload = FinishTaskPayloadBuilder::default()
        .build()
        .expect("Failed to build finish task payload");

    let params = FinishTaskParametersBuilder::default()
        .header(header)
        .payload(payload)
        .build()
        .expect("Failed to build finish task parameters");

    assert_eq!(params.header.action, TaskAction::FinishTask);
    assert_eq!(params.header.task_id, "test-task-id");
    assert_eq!(params.header.streaming, "duplex");
}

#[test]
fn test_default_recognition_parameters() {
    let params = TaskParameters::default();

    assert_eq!(params.format, "");
    assert_eq!(params.sample_rate, None);
    assert_eq!(params.semantic_punctuation_enabled, None);
    assert_eq!(params.max_sentence_silence, None);
    assert_eq!(params.multi_threshold_mode_enabled, None);
    assert_eq!(params.heartbeat, None);
    assert_eq!(params.language_hints, None);
}

#[test]
fn test_serialization_deserialization() {
    let header = TaskHeaderBuilder::default()
        .action(TaskAction::RunTask)
        .streaming("duplex".to_string())
        .build()
        .expect("Failed to build header");

    let task_params = TaskParametersBuilder::default()
        .text_type(TextType::PlainText)
        .format("wav".to_string())
        .sample_rate(44100)
        .semantic_punctuation_enabled(false)
        .build()
        .expect("Failed to build recognition parameters");

    let payload = RunTaskPayloadBuilder::default()
        .task_group("audio".to_string())
        .task(RunTaskType::Asr)
        .function(RunTaskFunction::Recognition)
        .model("fun-asr-realtime".to_string())
        .parameters(task_params)
        .build()
        .expect("Failed to build payload");

    let original_params = RunTaskParametersBuilder::default()
        .header(header)
        .payload(payload)
        .build()
        .expect("Failed to build run task parameters");

    let serialized = original_params.encode().unwrap();
    let deserialized: RunTaskParameters = RunTaskParameters::decode(&serialized).unwrap();

    assert_eq!(original_params, deserialized);
}

#[test]
fn test_finish_task_serialization_deserialization() {
    let header = TaskHeaderBuilder::default()
        .action(TaskAction::FinishTask)
        .task_id("test-task-id".to_string())
        .streaming("duplex".to_string())
        .build()
        .expect("Failed to build finish task header");

    let payload = FinishTaskPayloadBuilder::default()
        .build()
        .expect("Failed to build finish task payload");

    let original_params = FinishTaskParametersBuilder::default()
        .header(header)
        .payload(payload)
        .build()
        .expect("Failed to build finish task parameters");

    let serialized = original_params.encode().unwrap();
    let deserialized: FinishTaskParameters = FinishTaskParameters::decode(&serialized).unwrap();

    assert_eq!(original_params, deserialized);
}

#[test]
fn start_command_for_recognition_has_the_wire_shape() {
    let command = create_asr_run_task("abc123", "demo-asr", "pcm", Some(16000));
    let wire = parse(&command.encode().unwrap());
    assert_eq!(wire["header"]["action"], "run-task");
    assert_eq!(wire["header"]["streaming"], "duplex");
    assert_eq!(wire["header"]["task_id"], "abc123");
    assert_eq!(wire["payload"]["task_group"], "audio");
    assert_eq!(wire["payload"]["task"], "asr");
    assert_eq!(wire["payload"]["function"], "recognition");
    assert_eq!(wire["payload"]["model"], "demo-asr");
    assert_eq!(wire["payload"]["input"], parse("{}"));
    assert_eq!(wire["payload"]["parameters"]["format"], "pcm");
    assert_eq!(wire["payload"]["parameters"]["sample_rate"], 16000);
}

#[test]
fn absent_parameters_are_left_out_or_written_as_null() {
    let command = create_asr_run_task("t", "m", "pcm", None);
    let wire = parse(&command.encode().unwrap());
    let parameters = wire["payload"]["parameters"].as_object().unwrap();
    for left_out in ["text_type", "voice", "sample_rate", "volume", "rate", "pitch", "enable_ssml", "bit_rate", "word_timestamp_enabled", "seed"] {
        assert!(!parameters.contains_key(left_out), "{} should be left out", left_out);
    }
    for null in ["language_hints", "instruction", "enable_aigc_tag", "aigc_propagator", "aigc_propagate_id", "vocabulary_id", "semantic_punctuation_enabled", "max_sentence_silence", "multi_threshold_mode_enabled", "heartbeat"] {
        assert!(parameters[null].is_null(), "{} should be null", null);
    }
    assert_eq!(parameters.len(), 11);
}

#[test]
fn start_command_for_synthesis_has_the_wire_shape() {
    let command = create_tts_run_task("t-9", "cosyvoice-v2", Some("longxiaochun"), "mp3", Some("hello"));
    let wire = parse(&command.encode().unwrap());
    assert_eq!(wire["header"]["action"], "run-task");
    assert_eq!(wire["header"]["streaming"], "duplex");
    assert_eq!(wire["payload"]["task"], "tts");
    assert_eq!(wire["payload"]["function"], "SpeechSynthesizer");
    assert_eq!(wire["payload"]["input"]["text"], "hello");
    assert_eq!(wire["payload"]["parameters"]["text_type"], "PlainText");
    assert_eq!(wire["payload"]["parameters"]["voice"], "longxiaochun");
    assert_eq!(wire["payload"]["parameters"]["format"], "mp3");

    let silent = create_tts_run_task("t-9", "cosyvoice-v2", None, "mp3", None);
    let wire = parse(&silent.encode().unwrap());
    assert_eq!(wire["payload"]["input"], parse("{}"));
    assert!(wire["payload"]["parameters"].get("voice").is_none());
}

#[test]
fn finish_command_has_the_wire_shape() {
    let command = create_finish_task("abc123");
    let wire = parse(&command.encode().unwrap());
    assert_eq!(wire, parse(r#"{"header":{"action":"finish-task","task_id":"abc123","streaming":"duplex"},"payload":{"input":{}}}"#));
    assert_eq!(FinishTaskParameters::new("abc123".to_string()), command);
}

#[test]
fn continue_command_has_the_wire_shape() {
    let command = create_continue_task("abc123".to_string(), "more text");
    assert_eq!(command.header.action, TaskAction::ContinueTask);
    let wire = parse(&command.encode().unwrap());
    assert_eq!(wire, parse(r#"{"header":{"action":"continue-task","task_id":"abc123","streaming":"duplex"},"payload":{"input":{"text":"more text"}}}"#));
}

#[test]
fn fresh_headers_carry_a_new_id_each() {
    let a = TaskHeader::run_task();
    let b = TaskHeader::run_task();
    assert_eq!(a.action, TaskAction::RunTask);
    assert_eq!(a.streaming, "duplex");
    assert_eq!(a.task_id.chars().count(), 36);
    for (i, c) in a.task_id.chars().enumerate() {
        if i == 8 || i == 13 || i == 18 || i == 23 {
            assert_eq!(c, '-');
        } else {
            assert!(c.is_ascii_digit() || ('a'..='f').contains(&c), "character {} at {}", c, i);
        }
    }
    assert_ne!(a.task_id, b.task_id);
    assert_eq!(TaskHeader::finish_task().action, TaskAction::FinishTask);
    assert_eq!(TaskHeader::continue_task().action, TaskAction::ContinueTask);
}

#[test]
fn builders_name_the_first_member_that_is_missing() {
    assert_eq!(TaskHeaderBuilder::default().build(), Err(BuilderError::UninitializedField("action")));
    assert_eq!(TaskParametersBuilder::default().build(), Err(BuilderError::UninitializedField("format")));
    assert_eq!(
        RunTaskPayloadBuilder::default().task(RunTaskType::Asr).build(),
        Err(BuilderError::UninitializedField("task_group"))
    );
    assert_eq!(
        RunTaskPayloadBuilder::default().task_group("audio".to_string()).task(RunTaskType::Asr).function(RunTaskFunction::Recognition).build(),
        Err(BuilderError::UninitializedField("model"))
    );
    assert_eq!(BuilderError::UninitializedField("model").to_string(), "`model` must be initialized");
}

#[test]
fn commands_with_numbers_for_rate_and_pitch() {
    let parameters = TaskParametersBuilder::default()
        .format("mp3".to_string())
        .volume(80)
        .rate(parse("1.5"))
        .pitch(parse("0.8"))
        .language_hints(vec!["zh".to_string(), "en".to_string()])
        .build()
        .unwrap();
    let payload = RunTaskPayloadBuilder::default()
        .task_group("audio".to_string())
        .task(RunTaskType::Tts)
        .function(RunTaskFunction::SpeechSynthesizer)
        .model("cosyvoice-v2".to_string())
        .parameters(parameters)
        .build()
        .unwrap();
    let command = RunTaskParametersBuilder::default()
        .header(TaskHeader::of(TaskAction::RunTask, "t1"))
        .payload(payload)
        .build()
        .unwrap();
    let text = command.encode().unwrap();
    let wire = parse(&text);
    assert_eq!(wire["payload"]["parameters"]["volume"], 80);
    assert_eq!(wire["payload"]["parameters"]["rate"], 1.5);
    assert_eq!(wire["payload"]["parameters"]["pitch"], 0.8);
    assert_eq!(wire["payload"]["parameters"]["language_hints"], parse(r#"["zh","en"]"#));
    assert_eq!(RunTaskParameters::decode(&text).unwrap(), command);
}

#[test]
fn a_text_that_is_no_command_is_refused() {
    assert!(RunTaskParameters::decode("not json").is_err());
    assert!(RunTaskParameters::decode(r#"{"header":{"action":"run-task","task_id":"t"}}"#).is_err());
    assert!(RunTaskParameters::decode(r#"{"header":{"action":"fly","task_id":"t"},"payload":{}}"#).is_err());
    let missing_streaming = r#"{"header":{"action":"finish-task","task_id":"t"},"payload":{"input":{}}}"#;
    assert_eq!(FinishTaskParameters::decode(missing_streaming).unwrap(), create_finish_task("t"));
    assert!(FinishTaskParameters::decode(r#"{"header":{"action":"finish-task","task_id":"t"},"payload":{"input":[]}}"#).is_err());
}

#[test]
fn standing_values() {
    assert_eq!(default_streaming(), "duplex");
    assert_eq!(default_volume(), Some(50));
    assert_eq!(TextType::default(), TextType::PlainText);
    assert_eq!(TaskAction::RunTask.as_str(), "run-task");
    assert_eq!(TaskAction::from_str("continue-task"), Some(TaskAction::ContinueTask));
    assert_eq!(TaskAction::from_str("Run-Task"), None);
}
