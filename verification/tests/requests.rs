use async_dashscope::error::{ApiError, BuilderError, DashScopeError};
use async_dashscope::operation::audio::asr::customization::{
    create_vocabulary_request, delete_vocabulary_request, list_vocabularies_request,
    query_vocabulary_request, update_vocabulary_request, CreateVocabularyResponse,
    ListVocabulariesResponse, QueryVocabularyResponse, UpdateVocabularyResponse, VocabularyDetail,
};
use async_dashscope::operation::audio::{check_tts, check_tts_stream};
use async_dashscope::operation::audio::tts::param::{Input as TtsInput, TextToSpeechParam};
use async_dashscope::operation::common::{
    FunctionCall, Parameters, ParametersBuilder, ResponseFormat, TaskStatus,
};
use async_dashscope::operation::file::param::FileUploadParam;
use async_dashscope::operation::file::{file_path, list_page, upload_form};
use async_dashscope::operation::generation;
use async_dashscope::operation::generation::param::{
    GenerationParam, Input, Message, MessageBuilder, MessageBuilderError, SystemMessage, UserMessage,
};
use async_dashscope::operation::multimodal_generation;
use async_dashscope::operation::multimodal_generation::input::{
    Input as MmgInput, Message as MmgMessage, MultiModalGenerationInput,
};
use async_dashscope::operation::request::RequestTrait;
use async_dashscope::operation::validate::{check_model_parameters, validate_request, ModelValidator};

fn parse(text: &str) -> serde_json::Value {
    serde_json::from_str(text).unwrap()
}

fn request(model: &str, parameters: Option<Parameters>, stream: Option<bool>) -> GenerationParam {
    GenerationParam {
        model: model.to_string(),
        input: Input { messages: vec![MessageBuilder::new("user", "hello").build().unwrap()] },
        parameters,
        stream,
        stream_options: None,
    }
}

fn invalid(text: &str) -> Result<(), DashScopeError> {
    Err(DashScopeError::InvalidArgument(text.to_string()))
}

#[test]
fn each_model_has_its_rules() {
    assert_eq!(
        check_model_parameters("deepseek-r1"),
        vec![ModelValidator::NotSupportResultFormatText, ModelValidator::NotSupportJsonOutput]
    );
    assert_eq!(check_model_parameters("qwen-vl"), vec![ModelValidator::NotSupportToolCall]);
    assert_eq!(check_model_parameters("qwen-audio"), vec![ModelValidator::NotSupportToolCall]);
    assert_eq!(
        check_model_parameters("Moonshot-Kimi-K2-Instruct"),
        vec![
            ModelValidator::NotSupportEnableThinking,
            ModelValidator::NotSupportResultFormatText,
            ModelValidator::NotSupportJsonOutput,
            ModelValidator::NotSupportToolCall,
        ]
    );
    assert_eq!(check_model_parameters("qwen-turbo"), vec![ModelValidator::Default]);
    assert_eq!(check_model_parameters(""), vec![ModelValidator::Default]);
}

#[test]
fn rules_refuse_what_a_model_does_not_support() {
    let text = ParametersBuilder::default().result_format("text".to_string()).build().unwrap();
    let message = ParametersBuilder::default().result_format("message".to_string()).build().unwrap();
    let thinking = ParametersBuilder::default().enable_thinking(true).build().unwrap();
    let not_thinking = ParametersBuilder::default().enable_thinking(false).build().unwrap();
    let json = ParametersBuilder::default().response_format(ResponseFormat { type_: "json_object".to_string() }).build().unwrap();
    let tools = ParametersBuilder::default().functions(vec![FunctionCall { typ: None, function: None }]).build().unwrap();

    let r = |p: &Parameters| request("m", Some(p.clone()), None);
    assert_eq!(ModelValidator::NotSupportResultFormatText.validate(&r(&text)), invalid("deepseek-r1 does not support result_format = text"));
    assert_eq!(ModelValidator::NotSupportResultFormatText.validate(&r(&message)), Ok(()));
    assert_eq!(ModelValidator::NotSupportEnableThinking.validate(&r(&thinking)), invalid("The model does not support enable_thinking = true"));
    assert_eq!(ModelValidator::NotSupportEnableThinking.validate(&r(&not_thinking)), Ok(()));
    assert_eq!(ModelValidator::NotSupportJsonOutput.validate(&r(&json)), invalid("The model does not support response_format=json_object"));
    assert_eq!(ModelValidator::NotSupportJsonOutput.validate(&r(&text)), Ok(()));
    assert_eq!(ModelValidator::NotSupportToolCall.validate(&r(&tools)), invalid("The model does not support tool call"));
    assert_eq!(ModelValidator::NotSupportToolCall.validate(&r(&json)), Ok(()));
    for p in [&text, &thinking, &json, &tools] {
        assert_eq!(ModelValidator::Default.validate(&r(p)), Ok(()));
    }
    for rule in [
        ModelValidator::Default,
        ModelValidator::NotSupportResultFormatText,
        ModelValidator::NotSupportEnableThinking,
        ModelValidator::NotSupportJsonOutput,
        ModelValidator::NotSupportToolCall,
    ] {
        assert_eq!(rule.validate(&request("m", None, None)), Ok(()));
    }
}

#[test]
fn the_first_rule_that_refuses_decides() {
    let both = ParametersBuilder::default()
        .result_format("text".to_string())
        .enable_thinking(true)
        .response_format(ResponseFormat { type_: "json_object".to_string() })
        .build()
        .unwrap();
    assert_eq!(validate_request(&request("deepseek-r1", Some(both.clone()), None)), invalid("deepseek-r1 does not support result_format = text"));
    assert_eq!(validate_request(&request("Moonshot-Kimi-K2-Instruct", Some(both.clone()), None)), invalid("The model does not support enable_thinking = true"));
    assert_eq!(validate_request(&request("qwen-vl", Some(both.clone()), None)), Ok(()));
    assert_eq!(validate_request(&request("qwen-turbo", Some(both), None)), Ok(()));
}

#[test]
fn generation_is_checked_before_it_is_sent() {
    assert_eq!(generation::check_call(&request("qwen-turbo", None, Some(true))), invalid("When stream is true, use Generation::call_stream"));
    assert_eq!(generation::check_call(&request("qwen-turbo", None, Some(false))), Ok(()));
    assert_eq!(generation::check_call(&request("qwen-turbo", None, None)), Ok(()));
    let text = ParametersBuilder::default().result_format("text".to_string()).build().unwrap();
    assert_eq!(generation::check_call(&request("deepseek-r1", Some(text), None)), invalid("deepseek-r1 does not support result_format = text"));

    let mut refused = request("qwen-turbo", None, Some(false));
    assert_eq!(generation::check_call_stream(&mut refused), invalid("When stream is false, use Generation::call"));
    assert_eq!(refused.stream, Some(false));
    let mut silent = request("qwen-turbo", None, None);
    assert_eq!(generation::check_call_stream(&mut silent), Ok(()));
    assert_eq!(silent.stream, Some(true));
    assert_eq!(silent.model(), "qwen-turbo");
    assert!(silent.parameters().is_none());
}

#[test]
fn multi_modal_generation_is_checked_before_it_is_sent() {
    let input = |p: Option<Parameters>| MultiModalGenerationInput {
        model: "m".to_string(),
        input: MmgInput { messages: vec![MmgMessage { role: "user".to_string(), contents: parse(r#"[{"text":"hi"}]"#) }] },
        parameters: p,
    };
    let increments = |b: bool| ParametersBuilder::default().incremental_output(b).enable_search(true).build().unwrap();
    assert_eq!(multimodal_generation::check_call(&input(None)), Ok(()));
    assert_eq!(multimodal_generation::check_call(&input(Some(increments(false)))), Ok(()));
    assert_eq!(multimodal_generation::check_call(&input(Some(increments(true)))), invalid("When stream is true, use MultiModalGeneration::call_stream"));

    let mut refused = input(Some(increments(false)));
    assert_eq!(multimodal_generation::check_call_stream(&mut refused), invalid("When stream is false, use MultiModalGeneration::call"));
    assert_eq!(refused, input(Some(increments(false))));
    let mut wanted = input(Some(increments(true)));
    assert_eq!(multimodal_generation::check_call_stream(&mut wanted), Ok(()));
    let only_increments = ParametersBuilder::default().incremental_output(true).build().unwrap();
    assert_eq!(wanted, input(Some(only_increments.clone())));
    let mut silent = input(None);
    assert_eq!(multimodal_generation::check_call_stream(&mut silent), Ok(()));
    assert_eq!(silent, input(Some(only_increments)));
}

#[test]
fn speech_is_checked_before_it_is_sent() {
    let speech = |stream: Option<bool>| TextToSpeechParam {
        model: "qwen-tts".to_string(),
        input: TtsInput { text: "hello".to_string(), voice: "Cherry".to_string(), language_type: None },
        stream,
        parameters: None,
    };
    assert_eq!(check_tts(&speech(Some(true))), invalid("When stream is true, use Audio::call_stream"));
    assert_eq!(check_tts(&speech(Some(false))), Ok(()));
    assert_eq!(check_tts(&speech(None)), Ok(()));
    assert_eq!(check_tts_stream(&speech(Some(false))), invalid("When stream is false, use Audio::call"));
    assert_eq!(check_tts_stream(&speech(Some(true))), Ok(()));
    assert_eq!(check_tts_stream(&speech(None)), Ok(()));
    assert_eq!(
        parse(&speech(None).encode().unwrap()),
        parse(r#"{"model":"qwen-tts","input":{"text":"hello","voice":"Cherry","language_type":null}}"#)
    );
}

#[test]
fn messages_are_built_by_role() {
    assert_eq!(
        MessageBuilder::new("system", "be brief").build(),
        Ok(Message::System(SystemMessage { role: "system".to_string(), content: "be brief".to_string() }))
    );
    assert_eq!(
        MessageBuilder::new("x", "hi").user().build(),
        Ok(Message::User(UserMessage { role: "user".to_string(), content: "hi".to_string() }))
    );
    match MessageBuilder::new("assistant", "so far").partial(true).build().unwrap() {
        Message::Assistant(m) => {
            assert_eq!(m.partial, Some(true));
            assert_eq!(m.tool_calls, None);
            assert_eq!(m.content, "so far");
        }
        other => panic!("unexpected message: {:?}", other),
    }
    match MessageBuilder::new("", "42").tool().tool_call_id("call-1").content("43").build().unwrap() {
        Message::Tool(m) => {
            assert_eq!(m.tool_call_id, Some("call-1".to_string()));
            assert_eq!(m.content, "43");
            assert_eq!(m.role, "tool");
        }
        other => panic!("unexpected message: {:?}", other),
    }
    assert_eq!(MessageBuilder::new("narrator", "hi").build(), Err(MessageBuilderError::InvalidRole));
    assert_eq!(MessageBuilder::new("User", "hi").build(), Err(MessageBuilderError::InvalidRole));
    assert_eq!(MessageBuilderError::InvalidRole.to_string(), "Invalid role");
    assert_eq!(Message::default(), Message::Empty);
}

#[test]
fn a_generation_request_has_the_wire_shape() {
    let parameters = ParametersBuilder::default().result_format("message".to_string()).thinking_budget(64).build().unwrap();
    let mut r = request("qwen-turbo", Some(parameters), Some(false));
    r.input.messages.push(MessageBuilder::new("assistant", "hi").build().unwrap());
    let wire = parse(&r.encode().unwrap());
    assert_eq!(wire["model"], "qwen-turbo");
    assert_eq!(wire["stream"], false);
    assert!(wire["stream_options"].is_null());
    assert_eq!(wire["input"]["messages"], parse(r#"[{"role":"user","content":"hello"},{"role":"assistant","content":"hi","partial":false,"tool_calls":null}]"#));
    assert_eq!(wire["parameters"]["result_format"], "message");
    assert_eq!(wire["parameters"]["thinking_budget"], 64);
    assert!(wire["parameters"]["tools"].is_null());
    assert_eq!(wire["parameters"].as_object().unwrap().len(), 14);
    let bare = parse(&request("m", None, None).encode().unwrap());
    assert!(bare.get("parameters").is_none());
    assert!(bare["stream"].is_null());
}

#[test]
fn uploads_need_files_and_a_purpose() {
    assert_eq!(FileUploadParam::builder().build(), Err("Files cannot be empty".to_string()));
    assert_eq!(FileUploadParam::builder().files(vec![]).purpose("p".to_string()).build(), Err("Files cannot be empty".to_string()));
    assert_eq!(FileUploadParam::builder().purpose("p".to_string()).build(), Err("Files cannot be empty".to_string()));
    assert_eq!(FileUploadParam::builder().files(vec!["a.jsonl".to_string()]).build(), Err("Purpose is required".to_string()));
    let built = FileUploadParam::builder()
        .files(vec!["a.jsonl".to_string(), "b.jsonl".to_string()])
        .purpose("fine-tune".to_string())
        .descriptions(vec!["first".to_string(), "second".to_string()])
        .build()
        .unwrap();
    assert_eq!(
        built,
        FileUploadParam {
            files: vec!["a.jsonl".to_string(), "b.jsonl".to_string()],
            purpose: "fine-tune".to_string(),
            descriptions: Some(vec!["first".to_string(), "second".to_string()]),
        }
    );
    assert_eq!(
        upload_form(&built.purpose, &built.descriptions),
        vec![
            ("purpose".to_string(), "fine-tune".to_string()),
            ("descriptions".to_string(), "first".to_string()),
            ("descriptions".to_string(), "second".to_string()),
        ]
    );
    assert_eq!(upload_form("p", &None), vec![("purpose".to_string(), "p".to_string())]);
}

#[test]
fn pages_are_kept_within_bounds() {
    assert_eq!(list_page(None, None), (1, 10));
    assert_eq!(list_page(Some(0), Some(0)), (1, 1));
    assert_eq!(list_page(Some(1), Some(1)), (1, 1));
    assert_eq!(list_page(Some(7), Some(100)), (7, 100));
    assert_eq!(list_page(Some(u64::MAX), Some(101)), (u64::MAX, 100));
    assert_eq!(list_page(None, Some(u64::MAX)), (1, 100));
    assert_eq!(file_path("file-123"), "files/file-123");
}

#[test]
fn vocabulary_requests_have_the_wire_shape() {
    let words = vec![VocabularyDetail::from(("赛德克巴莱", 4)), VocabularyDetail { lang: Some("zh".to_string()), ..VocabularyDetail::from(("小西风", -2)) }];
    let create = create_vocabulary_request("fun-asr", "testpfx", &words);
    assert_eq!(
        parse(&create.encode().unwrap()),
        parse(r#"{"model":"speech-biasing","input":{"action":"create_vocabulary","target_model":"fun-asr","prefix":"testpfx","vocabulary":[{"text":"赛德克巴莱","weight":4},{"text":"小西风","weight":-2,"lang":"zh"}]}}"#)
    );
    assert_eq!(query_vocabulary_request("v1"), parse(r#"{"model":"speech-biasing","input":{"action":"query_vocabulary","vocabulary_id":"v1"}}"#));
    assert_eq!(delete_vocabulary_request("v1"), parse(r#"{"model":"speech-biasing","input":{"action":"delete_vocabulary","vocabulary_id":"v1"}}"#));
    assert_eq!(
        update_vocabulary_request("v1", &words[..1]),
        parse(r#"{"model":"speech-biasing","input":{"action":"update_vocabulary","vocabulary_id":"v1","vocabulary":[{"text":"赛德克巴莱","weight":4}]}}"#)
    );
    assert_eq!(
        list_vocabularies_request(None, None, None),
        parse(r#"{"model":"speech-biasing","input":{"action":"list_vocabularie","prefix":"","page_index":0,"page_size":10}}"#)
    );
    assert_eq!(
        list_vocabularies_request(Some("pfx"), Some(3), Some(25)),
        parse(r#"{"model":"speech-biasing","input":{"action":"list_vocabularie","prefix":"pfx","page_index":3,"page_size":25}}"#)
    );
}

#[test]
fn vocabulary_answers_are_read() {
    let created = CreateVocabularyResponse::decode(r#"{"output":{"vocabulary_id":"vocab-1"},"usage":{"count":1},"request_id":"r1"}"#).unwrap();
    assert_eq!(created.output.vocabulary_id, "vocab-1");
    assert_eq!(created.usage.count, 1);
    let queried = QueryVocabularyResponse::decode(r#"{"output":{"gmt_create":"a","gmt_modified":"b","status":"OK","target_model":"fun-asr","vocabulary":[{"text":"x","weight":4,"lang":null}]},"usage":{"count":1},"request_id":"r2"}"#).unwrap();
    assert_eq!(queried.output.vocabulary, vec![VocabularyDetail::from(("x", 4))]);
    let listed = ListVocabulariesResponse::decode(r#"{"output":{"vocabulary_list":[]},"usage":{"count":-1},"request_id":"r3"}"#).unwrap();
    assert!(listed.output.vocabulary_list.is_empty());
    assert_eq!(listed.usage.count, -1);
    let updated = UpdateVocabularyResponse::decode(r#"{"output":{},"usage":{"count":1},"request_id":"r4"}"#).unwrap();
    assert_eq!(updated.request_id, "r4");
    for wrong in [
        r#"{"output":{"vocabulary_id":7},"usage":{"count":1},"request_id":"r1"}"#,
        r#"{"output":{"vocabulary_id":"v"},"usage":{"count":2147483648},"request_id":"r1"}"#,
        r#"{"output":{"vocabulary_id":"v"},"usage":{"count":1.0},"request_id":"r1"}"#,
        r#"{"usage":{"count":1},"request_id":"r1"}"#,
    ] {
        match CreateVocabularyResponse::decode(wrong) {
            Err(DashScopeError::JSONDeserialize { source, raw_response }) => {
                assert_eq!(raw_response, wrong);
                assert_eq!(source, "document does not have the shape expected");
            }
            other => panic!("unexpected outcome for {}: {:?}", wrong, other),
        }
    }
    assert!(matches!(CreateVocabularyResponse::decode("<html>"), Err(DashScopeError::JSONDeserialize { .. })));
}

#[test]
fn errors_have_their_messages() {
    let full = ApiError { message: "m".to_string(), request_id: Some("r-1".to_string()), code: Some("Throttling".to_string()) };
    assert_eq!(full.to_string(), "code: Throttling request_id: r-1");
    assert_eq!(ApiError { code: None, ..full.clone() }.to_string(), "request_id: r-1");
    assert_eq!(ApiError { request_id: None, ..full.clone() }.to_string(), "code: Throttling");
    assert_eq!(ApiError { request_id: None, code: None, ..full.clone() }.to_string(), "");
    assert_eq!(DashScopeError::ApiError(full).to_string(), "code: Throttling request_id: r-1");
    assert_eq!(DashScopeError::Reqwest("timed out".to_string()).to_string(), "http error: timed out");
    assert_eq!(
        DashScopeError::JSONDeserialize { source: "eof".to_string(), raw_response: "{".to_string() }.to_string(),
        "failed to deserialize api response: eof"
    );
    assert_eq!(DashScopeError::InvalidArgument("x".to_string()).to_string(), "invalid argument:x");
    assert_eq!(DashScopeError::StreamError("x".to_string()).to_string(), "stream error:x");
    assert_eq!(DashScopeError::UnknownEventType { event_type: "e".to_string() }.to_string(), "unknown event type: e");
    assert_eq!(BuilderError::UninitializedField("api_key").to_string(), "`api_key` must be initialized");
}

#[test]
fn statuses_have_their_names() {
    for (status, name) in [
        (TaskStatus::Pending, "PENDING"),
        (TaskStatus::Running, "RUNNING"),
        (TaskStatus::Succeeded, "SUCCEEDED"),
        (TaskStatus::Failed, "FAILED"),
        (TaskStatus::Canceled, "CANCELED"),
        (TaskStatus::Unknown, "UNKNOWN"),
    ] {
        assert_eq!(status.as_str(), name);
        assert_eq!(TaskStatus::from_str(name), Some(status));
    }
    assert_eq!(TaskStatus::from_str("succeeded"), None);
}

#[test]
fn messages_are_made_from_their_kinds() {
    let system = SystemMessage { role: "system".to_string(), content: "be brief".to_string() };
    assert_eq!(Message::from(system.clone()), Message::System(system.clone()));
    let user = UserMessage { role: "user".to_string(), content: "hi".to_string() };
    let message: Message = user.clone().into();
    assert_eq!(message, Message::User(user));
    assert_eq!(Message::System(system).to_value(), parse(r#"{"role":"system","content":"be brief"}"#));
    assert_eq!(Message::Empty.to_value(), parse("null"));
}
