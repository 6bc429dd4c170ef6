use async_dashscope::client::{is_last_chunk, judge_response, stream_finished, Attempt};
use async_dashscope::error::{ApiError, DashScopeError};
use async_dashscope::operation::audio::asr::client::{
    chunk_audio, finish_task_command, fresh_task_id, receive, run_task_command, Received, Sender,
    SenderAction, SenderInput, SenderState, CHUNK_SIZE,
};
use async_dashscope::operation::audio::asr::dispatch;
use async_dashscope::operation::audio::asr::param::{
    AsrInput, AsrParameters, AsrResource, AutomaticSpeechRecognitionParam,
};
use async_dashscope::operation::audio::tts::output::{
    pcm_samples, Audio, AudioOutputError, PcmSamples, TextToSpeechOutput,
};
use async_dashscope::operation::audio::ws::output::WebSocketEvent;
use async_dashscope::operation::audio::ws::session::{Frame, SessionAction};
use async_dashscope::operation::common::TaskStatus;
use async_dashscope::operation::generation::output::GenerationOutput;
use async_dashscope::operation::image2image::param::{Image2imageParam, Input as ImageInput};
use async_dashscope::operation::multi_modal_conversation::param::{
    Element, Input, Message, MultiModalConversationParam, PendingUpload,
};
use async_dashscope::operation::task::output::TaskResult;
use async_dashscope::operation::task::{judge, query_outcome, task_path, Poller, Verdict};
use async_dashscope::operation::ws_client::{upgrade_headers, WS_URL};
use async_dashscope::oss_util::{
    is_valid_url, plan_upload, policy_query, upload_name, upload_outcome, PolicyData, UploadPolicy,
};

fn parse(text: &str) -> serde_json::Value {
    serde_json::from_str(text).unwrap()
}

const BUSY: &str = r#"{"code":"Throttling","message":"too many requests","request_id":"r-1"}"#;

fn busy() -> DashScopeError {
    DashScopeError::ApiError(ApiError {
        message: "too many requests".to_string(),
        request_id: Some("r-1".to_string()),
        code: Some("Throttling".to_string()),
    })
}

#[test]
fn only_a_busy_service_is_asked_again() {
    assert_eq!(judge_response(429, BUSY.to_string()), Attempt::Retry(busy()));
    for status in [400, 401, 403, 404, 428, 430, 500, 502, 503, 199, 300, 0, 65535] {
        assert_eq!(judge_response(status, BUSY.to_string()), Attempt::GiveUp(busy()), "status {}", status);
    }
    for status in [200, 201, 204, 299] {
        assert_eq!(judge_response(status, BUSY.to_string()), Attempt::Done(BUSY.to_string()), "status {}", status);
        assert_eq!(judge_response(status, "not json".to_string()), Attempt::Done("not json".to_string()));
    }
}

#[test]
fn an_error_body_that_cannot_be_read_ends_the_request() {
    for status in [429, 500] {
        match judge_response(status, "<html>busy</html>".to_string()) {
            Attempt::GiveUp(DashScopeError::JSONDeserialize { raw_response, .. }) => assert_eq!(raw_response, "<html>busy</html>"),
            other => panic!("unexpected outcome: {:?}", other),
        }
        match judge_response(status, r#"{"code":"X"}"#.to_string()) {
            Attempt::GiveUp(DashScopeError::JSONDeserialize { source, raw_response }) => {
                assert_eq!(raw_response, r#"{"code":"X"}"#);
                assert_eq!(source, "document does not have the shape expected");
            }
            other => panic!("unexpected outcome: {:?}", other),
        }
    }
    assert_eq!(
        judge_response(429, r#"{"message":"slow down"}"#.to_string()),
        Attempt::Retry(DashScopeError::ApiError(ApiError { message: "slow down".to_string(), request_id: None, code: None }))
    );
}

#[test]
fn a_stream_ends_with_the_reason_stop() {
    assert!(is_last_chunk(&parse(r#"{"output":{"choices":[{"finish_reason":"stop"}]}}"#)));
    assert!(is_last_chunk(&parse(r#"{"output":{"choices":[{"finish_reason":"stop"},{"finish_reason":"null"}]}}"#)));
    for going_on in [
        r#"{"output":{"choices":[{"finish_reason":"null"}]}}"#,
        r#"{"output":{"choices":[{"finish_reason":null}]}}"#,
        r#"{"output":{"choices":[{},{"finish_reason":"stop"}]}}"#,
        r#"{"output":{"choices":[]}}"#,
        r#"{"output":{"choices":{"0":{"finish_reason":"stop"}}}}"#,
        r#"{"output":{}}"#,
        r#"{"choices":[{"finish_reason":"stop"}]}"#,
        r#"[]"#,
    ] {
        assert!(!is_last_chunk(&parse(going_on)), "{}", going_on);
        assert_eq!(stream_finished(going_on), Ok(false));
    }
    assert_eq!(stream_finished(r#"{"output":{"choices":[{"finish_reason":"stop"}]}}"#), Ok(true));
    assert!(matches!(stream_finished("data:"), Err(DashScopeError::JSONDeserialize { .. })));
}

#[test]
fn answers_of_generation_are_read() {
    let answer = GenerationOutput::decode(
        r#"{"output":{"choices":[{"finish_reason":"stop","message":{"role":"assistant","content":"hi","reasoning_content":null}}],"finish_reason":null},"usage":{"input_tokens":3,"output_tokens":1,"total_tokens":4,"prompt_tokens_details":{"prompt_tokens":0}},"request_id":"r-9"}"#,
    )
    .unwrap();
    assert_eq!(answer.request_id, Some("r-9".to_string()));
    assert_eq!(answer.output.choices.len(), 1);
    assert_eq!(answer.output.choices[0].finish_reason, Some("stop".to_string()));
    assert_eq!(answer.output.choices[0].message.content, "hi");
    assert_eq!(answer.output.choices[0].message.reasoning_content, None);
    let usage = answer.usage.unwrap();
    assert_eq!((usage.input_tokens, usage.output_tokens, usage.total_tokens, usage.image_tokens), (Some(3), Some(1), Some(4), None));
    assert_eq!(usage.prompt_tokens_details.unwrap().prompt_tokens, Some(0));
    assert!(GenerationOutput::decode(r#"{"output":{"choices":[{"message":{"role":"assistant"}}]}}"#).is_err());
}

fn task_body(status: &str) -> String {
    format!(r#"{{"request_id":"r","output":{{"task_id":"t-1","task_status":"{}","submit_time":"now","task_metrics":{{"TOTAL":1,"SUCCEEDED":1,"FAILED":0}}}},"usage":{{"image_count":1}}}}"#, status)
}

#[test]
fn polling_goes_on_until_the_task_is_final() {
    for (status, over) in [("PENDING", false), ("RUNNING", false), ("SUCCEEDED", true), ("FAILED", true), ("CANCELED", true), ("UNKNOWN", true)] {
        let outcome = query_outcome(&task_body(status));
        let result: TaskResult = outcome.clone().unwrap();
        assert_eq!(result.output.task_status, TaskStatus::from_str(status).unwrap());
        assert_eq!(result.output.task_metrics.as_ref().unwrap().succeeded, 1);
        match judge(outcome.clone()) {
            Verdict::Done(r) => {
                assert!(over, "status {}", status);
                assert_eq!(r, outcome);
            }
            Verdict::Wait => assert!(!over, "status {}", status),
        }
    }
}

#[test]
fn polling_waits_for_errors_that_may_pass() {
    let empty = query_outcome("");
    assert_eq!(
        empty,
        Err(DashScopeError::ApiError(ApiError {
            message: "API returned empty response".to_string(),
            request_id: None,
            code: Some("EmptyResponse".to_string())
        }))
    );
    assert_eq!(judge(empty), Verdict::Wait);
    let unreadable = query_outcome("<html>");
    assert!(matches!(unreadable, Err(DashScopeError::JSONDeserialize { .. })));
    assert_eq!(judge(unreadable), Verdict::Wait);
    assert!(matches!(query_outcome(&task_body("DONE")), Err(DashScopeError::JSONDeserialize { .. })));
    assert_eq!(judge(Err(DashScopeError::Reqwest("reset".to_string()))), Verdict::Wait);
    for lasting in [
        DashScopeError::ApiError(ApiError { message: "no".to_string(), request_id: None, code: Some("InvalidApiKey".to_string()) }),
        DashScopeError::ApiError(ApiError { message: "no".to_string(), request_id: None, code: None }),
        DashScopeError::InvalidArgument("x".to_string()),
        DashScopeError::TimeoutError("x".to_string()),
        DashScopeError::UploadError("x".to_string()),
    ] {
        assert_eq!(judge(Err(lasting.clone())), Verdict::Done(Err(lasting)));
    }
}

#[test]
fn polling_gives_up_when_the_attempts_are_used() {
    let mut poller = Poller::new(2);
    assert_eq!(poller.attempt(), Ok(()));
    assert_eq!(poller.attempt(), Ok(()));
    let timeout = Err(DashScopeError::TimeoutError("轮询超时，任务未在预期时间内完成".to_string()));
    assert_eq!(poller.attempt(), timeout);
    assert_eq!(poller.attempt(), timeout);
    assert_eq!(Poller::new(0).attempt(), timeout);
    assert_eq!(task_path("t-1"), "/tasks/t-1");
}

#[test]
fn audio_is_cut_into_pieces() {
    let data: Vec<u8> = (0..4000u32).map(|i| (i % 251) as u8).collect();
    let chunks = chunk_audio(&data, CHUNK_SIZE);
    assert_eq!(chunks.iter().map(|c| c.len()).collect::<Vec<_>>(), vec![1600, 1600, 800]);
    assert_eq!(chunks.concat(), data);
    assert_eq!(chunk_audio(&data[..3200], CHUNK_SIZE).len(), 2);
    assert_eq!(chunk_audio(&data[..1], CHUNK_SIZE), vec![vec![0u8]]);
    assert_eq!(chunk_audio(&[], CHUNK_SIZE), Vec::<Vec<u8>>::new());
    assert_eq!(chunk_audio(&[1, 2, 3], 1), vec![vec![1], vec![2], vec![3]]);
    assert_eq!(chunk_audio(&[1, 2, 3], usize::MAX), vec![vec![1, 2, 3]]);
}

#[test]
fn recognition_is_framed_by_two_commands() {
    let param = AutomaticSpeechRecognitionParam {
        model: "paraformer-realtime-v2".to_string(),
        input: AsrInput {},
        parameters: Some(AsrParameters {
            format: "pcm".to_string(),
            sample_rate: 16000,
            vocabulary_id: None,
            disfluency_removal_enabled: Some(true),
            language_hints: Some(vec!["zh".to_string()]),
            semantic_punctuation_enabled: None,
            max_sentence_silence: None,
            multi_threshold_mode_enabled: None,
            punctuation_prediction_enabled: None,
            heartbeat: None,
            inverse_text_normalization_enabled: None,
        }),
        resources: Some(vec![AsrResource { resource_id: "v1".to_string(), resource_type: "asr_phrase".to_string() }]),
    };
    let run = run_task_command("abc", param);
    assert_eq!(
        run.to_value(),
        parse(r#"{"header":{"action":"run-task","task_id":"abc","streaming":"duplex"},"payload":{"task_group":"audio","task":"asr","function":"recognition","model":"paraformer-realtime-v2","parameters":{"format":"pcm","sample_rate":16000,"disfluency_removal_enabled":true,"language_hints":["zh"]},"resources":[{"resource_id":"v1","resource_type":"asr_phrase"}],"input":{}}}"#)
    );
    assert_eq!(
        parse(&finish_task_command("abc").encode().unwrap()),
        parse(r#"{"header":{"action":"finish-task","task_id":"abc","streaming":"duplex"},"payload":{"input":{}}}"#)
    );
    let id = fresh_task_id();
    assert_eq!(id.len(), 32);
    assert!(id.chars().all(|c| c.is_ascii_digit() || ('a'..='f').contains(&c)));
    assert_ne!(id, fresh_task_id());
}

#[test]
fn the_receiver_stops_at_the_last_event() {
    let frame = |kind: &str| format!(r#"{{"header":{{"task_id":"t","event":"{}","attributes":{{}}}},"payload":{{}}}}"#, kind);
    let event = |kind: &str| WebSocketEvent::decode(&frame(kind)).unwrap();
    assert_eq!(receive(Frame::Text(frame("task-started"))), Received::Event(event("task-started")));
    assert_eq!(receive(Frame::Text(frame("result-generated"))), Received::Event(event("result-generated")));
    assert_eq!(receive(Frame::Text(frame("task-finished"))), Received::LastEvent(event("task-finished")));
    assert_eq!(receive(Frame::Text(frame("task-failed"))), Received::LastEvent(event("task-failed")));
    assert_eq!(receive(Frame::Text(frame("task-paused"))), Received::Skip);
    assert_eq!(receive(Frame::Text("{".to_string())), Received::Skip);
    assert_eq!(receive(Frame::Binary(vec![1])), Received::Skip);
    assert_eq!(receive(Frame::Ping(vec![])), Received::Skip);
    assert_eq!(receive(Frame::Pong(vec![])), Received::Skip);
    assert_eq!(receive(Frame::Close { code: 1000, reason: String::new() }), Received::Stop);

    assert_eq!(dispatch(Frame::Text(frame("task-finished"))), Some(SessionAction::OnEvent(event("task-finished"))));
    assert!(matches!(dispatch(Frame::Text("{".to_string())), Some(SessionAction::OnError(DashScopeError::JSONDeserialize { .. }))));
    assert_eq!(dispatch(Frame::Close { code: 1001, reason: "bye".to_string() }), Some(SessionAction::OnClose { code: 1001, reason: "bye".to_string() }));
    assert_eq!(dispatch(Frame::Binary(vec![1])), None);
    assert_eq!(dispatch(Frame::Ping(vec![1])), None);
    assert_eq!(dispatch(Frame::Pong(vec![1])), None);
}

#[test]
fn the_socket_is_opened_with_the_key() {
    assert_eq!(WS_URL, "wss://dashscope.aliyuncs.com/api-ws/v1/inference");
    assert_eq!(upgrade_headers("k", None, None), vec![("Authorization".to_string(), "Bearer k".to_string())]);
    assert_eq!(
        upgrade_headers("k", Some("ws-1"), Some("{\"input\":\"cip\"}")),
        vec![
            ("Authorization".to_string(), "Bearer k".to_string()),
            ("X-DashScope-WorkSpace".to_string(), "ws-1".to_string()),
            ("X-DashScope-DataInspection".to_string(), "{\"input\":\"cip\"}".to_string()),
        ]
    );
    assert_eq!(
        upgrade_headers("k", None, Some("d")),
        vec![("Authorization".to_string(), "Bearer k".to_string()), ("X-DashScope-DataInspection".to_string(), "d".to_string())]
    );
}

fn audio(data: &str, url: Option<&str>) -> Audio {
    Audio { id: "a".to_string(), url: url.map(|u| u.to_string()), expires_at: 1, data: data.to_string() }
}

#[test]
fn audio_is_decoded_from_base64() {
    assert_eq!(audio("AAEC/w==", None).to_vec(), Ok(vec![0, 1, 2, 255]));
    assert_eq!(audio("", None).to_vec(), Ok(vec![]));
    assert_eq!(audio("aGVsbG8=", None).bytes(), Ok(b"hello".to_vec()));
    assert_eq!(audio("aGVsbG8", None).to_vec(), Err(AudioOutputError::DataDecodeError));
    assert_eq!(audio("not base64!", None).to_vec(), Err(AudioOutputError::DataDecodeError));
    assert_eq!(audio("AAEC/w==", None).get_audio_data(), "AAEC/w==");
    assert!(!audio("", None).is_finished());
    assert!(audio("", Some("https://a/b.wav")).is_finished());
    assert_eq!(audio("", Some("https://a/b.wav")).download_url(), Ok("https://a/b.wav"));
    assert_eq!(audio("", None).download_url(), Err(AudioOutputError::NullUrl));
    let answer = TextToSpeechOutput::decode(r#"{"request_id":"r","output":{"finish_reason":"stop","audio":{"id":"a","url":"https://a/b.wav","expires_at":1700000000,"data":""}},"usage":null}"#).unwrap();
    assert!(answer.is_finished());
    assert_eq!(answer.output.audio.expires_at, 1700000000);
    assert_eq!(answer.download_url(), Ok("https://a/b.wav"));
}

#[test]
fn raw_audio_is_read_as_samples() {
    assert_eq!(
        pcm_samples(&vec![0x00, 0x00, 0x01, 0x00, 0xff, 0x7f, 0x00, 0x80, 0xff, 0xff, 0x34, 0x12, 0x99], 16),
        Ok(PcmSamples::Signed16(vec![0, 1, 32767, -32768, -1, 0x1234]))
    );
    assert_eq!(pcm_samples(&vec![0, 1, 127, 128, 255], 8), Ok(PcmSamples::Signed8(vec![0, 1, 127, -128, -1])));
    assert_eq!(pcm_samples(&vec![], 16), Ok(PcmSamples::Signed16(vec![])));
    assert_eq!(pcm_samples(&vec![7], 16), Ok(PcmSamples::Signed16(vec![])));
    for bits in [0, 1, 12, 24, 32] {
        assert_eq!(pcm_samples(&vec![0, 1], bits), Err(AudioOutputError::DataDecodeError));
    }
    assert_eq!(audio("AQD//w==", None).to_samples(16), Ok(PcmSamples::Signed16(vec![1, -1])));
    assert_eq!(audio("AQD//w==", None).to_samples(8), Ok(PcmSamples::Signed8(vec![1, 0, -1, -1])));
    assert_eq!(audio("AQD//w==", None).to_samples(24), Err(AudioOutputError::DataDecodeError));
    assert_eq!(audio("?", None).to_samples(16), Err(AudioOutputError::DataDecodeError));
}

#[test]
fn elements_are_read_in_a_fixed_order() {
    assert_eq!(Element::try_from(parse(r#"{"image":"https://a/b.png"}"#)), Ok(Element::Image("https://a/b.png".to_string())));
    assert_eq!(Element::try_from(parse(r#"{"video":"v.mp4"}"#)), Ok(Element::Video("v.mp4".to_string())));
    assert_eq!(Element::try_from(parse(r#"{"audio":"a.mp3"}"#)), Ok(Element::Audio("a.mp3".to_string())));
    assert_eq!(Element::try_from(parse(r#"{"text":"Hello, world!"}"#)), Ok(Element::Text("Hello, world!".to_string())));
    assert_eq!(Element::try_from(parse(r#"{"text":"t","audio":"a","image":"i","video":"v"}"#)), Ok(Element::Image("i".to_string())));
    assert_eq!(Element::try_from(parse(r#"{"text":"t","audio":"a","image":7}"#)), Ok(Element::Audio("a".to_string())));
    let refused = Err(DashScopeError::ElementError("Invalid element type.".to_string()));
    for wrong in [r#"{}"#, r#"{"image":1}"#, r#"{"picture":"p"}"#, r#"["image"]"#, r#""text""#, "null"] {
        assert_eq!(Element::try_from(parse(wrong)), refused, "{}", wrong);
    }
    assert_eq!(Element::Video("v".to_string()).to_value(), parse(r#"{"video":"v"}"#));
}

#[test]
fn files_are_uploaded_one_by_one() {
    assert!(is_valid_url("https://example.com/a.png"));
    assert!(is_valid_url("oss://bucket/key"));
    assert!(!is_valid_url("./a.png"));
    assert!(!is_valid_url("a.png"));
    assert!(!is_valid_url(""));

    let mut first = Message::new("user", vec![Element::Text("look".to_string()), Element::Image("https://a/b.png".to_string())]);
    first.push_content(Element::Audio("voice.mp3".to_string()));
    let second = Message::new("user", vec![Element::Image("./cat.png".to_string()), Element::Text("./not-a-file".to_string()), Element::Video("movies/dog.mp4".to_string())]);
    let mut request = MultiModalConversationParam {
        model: "qwen-vl-max".to_string(),
        input: Input { messages: vec![first, Message::new("system", vec![]), second] },
        stream: None,
        parameters: None,
    };
    let mut seen = Vec::new();
    while let Some(PendingUpload { message, content, path }) = request.next_upload() {
        request.set_uploaded(message, content, format!("oss://bucket/{}", seen.len()));
        seen.push((message, content, path));
        assert!(seen.len() <= 3);
    }
    assert_eq!(seen, vec![(0, 2, "voice.mp3".to_string()), (2, 0, "./cat.png".to_string()), (2, 2, "movies/dog.mp4".to_string())]);
    assert_eq!(
        parse(&request.encode().unwrap()),
        parse(r#"{"model":"qwen-vl-max","stream":null,"input":{"messages":[
            {"role":"user","content":[{"text":"look"},{"image":"https://a/b.png"},{"audio":"oss://bucket/0"}]},
            {"role":"system","content":[]},
            {"role":"user","content":[{"image":"oss://bucket/1"},{"text":"./not-a-file"},{"video":"oss://bucket/2"}]}]}}"#)
    );
    assert_eq!(request.next_upload(), None);

    let image = Image2imageParam {
        model: "qwen-mt-image".to_string(),
        input: ImageInput { image_url: "./a.png".to_string(), source_lang: "zh".to_string(), target_lang: "en".to_string(), ext: None },
    };
    let uploaded = image.clone().with_uploaded("oss://bucket/a.png".to_string());
    assert_eq!(uploaded.input.image_url, "oss://bucket/a.png");
    assert_eq!(uploaded.input.source_lang, "zh");
    assert_eq!(uploaded.model, image.model);
}

#[test]
fn an_upload_is_planned_from_the_policy() {
    let answer = UploadPolicy::decode(
        r#"{"request_id":"r","data":{"policy":"P","signature":"S","upload_dir":"dashscope-instant/abc/2025","upload_host":"https://oss.example.com","expire_in_seconds":300,"max_file_size_mb":100,"capacity_limit_mb":999999,"oss_access_key_id":"AK","x_oss_object_acl":"private","x_oss_forbid_overwrite":"true"}}"#,
    )
    .unwrap();
    let policy: PolicyData = answer.data;
    assert_eq!(policy.expire_in_seconds, 300);
    let plan = plan_upload(&policy, "cat.png");
    assert_eq!(plan.host, "https://oss.example.com");
    assert_eq!(plan.key, "dashscope-instant/abc/2025/cat.png");
    assert_eq!(plan.address, "oss://dashscope-instant/abc/2025/cat.png");
    let pair = |a: &str, b: &str| (a.to_string(), b.to_string());
    assert_eq!(
        plan.fields,
        vec![
            pair("OSSAccessKeyId", "AK"),
            pair("Signature", "S"),
            pair("policy", "P"),
            pair("x-oss-object-acl", "private"),
            pair("x-oss-forbid-overwrite", "true"),
            pair("key", "dashscope-instant/abc/2025/cat.png"),
            pair("success_action_status", "200"),
        ]
    );
    assert_eq!(upload_outcome(&plan, true, "ignored".to_string()), Ok("oss://dashscope-instant/abc/2025/cat.png".to_string()));
    assert_eq!(upload_outcome(&plan, false, "<Error>AccessDenied</Error>".to_string()), Err(DashScopeError::UploadError("<Error>AccessDenied</Error>".to_string())));
    assert_eq!(policy_query("qwen-vl-max"), vec![pair("action", "getPolicy"), pair("model", "qwen-vl-max")]);
    assert_eq!(upload_name(Some("cat.png".to_string())), Ok("cat.png".to_string()));
    assert_eq!(upload_name(None), Err(DashScopeError::UploadError("file name is empty".to_string())));
}

fn bare_request() -> AutomaticSpeechRecognitionParam {
    AutomaticSpeechRecognitionParam { model: "paraformer-realtime-v2".to_string(), input: AsrInput {}, parameters: None, resources: None }
}

#[test]
fn a_recognition_sends_its_frames_in_order() {
    let run = run_task_command("abc", bare_request()).encode().unwrap();
    let finish = finish_task_command("abc").encode().unwrap();
    let audio = |bytes: Vec<u8>, first: bool| SenderAction::SendBinary { bytes, pause_before_ms: if first { 100 } else { 0 }, pause_after_ms: 100 };

    let mut sender = Sender::new("abc", bare_request());
    assert_eq!(sender.state(), SenderState::Ready);
    assert_eq!(sender.step(SenderInput::Chunk(vec![0])), vec![]);
    assert_eq!(sender.step(SenderInput::EndOfAudio), vec![]);
    assert_eq!(sender.step(SenderInput::Begin), vec![SenderAction::SendText(run.clone())]);
    assert_eq!(sender.step(SenderInput::Begin), vec![]);
    assert_eq!(sender.step(SenderInput::Chunk(vec![1, 2])), vec![audio(vec![1, 2], true)]);
    assert_eq!(sender.step(SenderInput::Chunk(vec![3])), vec![audio(vec![3], false)]);
    assert_eq!(sender.step(SenderInput::Chunk(vec![])), vec![audio(vec![], false)]);
    assert_eq!(sender.state(), SenderState::Streaming);
    assert_eq!(sender.step(SenderInput::EndOfAudio), vec![SenderAction::SendText(finish.clone())]);
    assert_eq!(sender.state(), SenderState::Finished);
    for late in [SenderInput::Begin, SenderInput::Chunk(vec![9]), SenderInput::EndOfAudio, SenderInput::SendFailed] {
        assert_eq!(sender.step(late), vec![]);
    }

    let mut silent = Sender::new("abc", bare_request());
    assert_eq!(silent.step(SenderInput::Begin), vec![SenderAction::SendText(run.clone())]);
    assert_eq!(silent.step(SenderInput::EndOfAudio), vec![SenderAction::SendText(finish.clone())]);

    let mut broken = Sender::new("abc", bare_request());
    broken.step(SenderInput::Begin);
    broken.step(SenderInput::Chunk(vec![1]));
    assert_eq!(broken.step(SenderInput::SendFailed), vec![SenderAction::SendText(finish)]);
    assert_eq!(broken.state(), SenderState::Finished);
}

#[test]
fn writing_never_fails() {
    let text = run_task_command("abc", bare_request()).encode();
    assert_eq!(
        text.map(|t| parse(&t)),
        Ok(parse(r#"{"header":{"action":"run-task","task_id":"abc","streaming":"duplex"},"payload":{"task_group":"audio","task":"asr","function":"recognition","model":"paraformer-realtime-v2","input":{}}}"#))
    );
}
