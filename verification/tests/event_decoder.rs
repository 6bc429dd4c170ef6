use async_dashscope::error::DashScopeError;
use async_dashscope::operation::audio::ws::output::{
    deserialize_bool_from_any, AsrOutput, AsrSentence, AsrTranslation, AsrUsage, AsrWord,
    Asrtranscription, EventType, WebSocketEvent, WebSocketEventHeader, WebSocketEventPayload,
};

fn parse(text: &str) -> serde_json::Value {
    serde_json::from_str(text).unwrap()
}

fn header(event: &str) -> WebSocketEventHeader {
    WebSocketEventHeader {
        task_id: "t1".to_string(),
        event: event.to_string(),
        attributes: parse("{}"),
        error_code: None,
        error_message: None,
    }
}

#[test]
fn decodes_the_failed_event() {
    let frame = r#"{"header":{"task_id":"t1","event":"task-failed","error_code":"400","error_message":"bad audio","attributes":{}}}"#;
    let event = WebSocketEvent::decode(frame).unwrap();
    assert!(event.is_task_failed());
    assert!(!event.is_task_started() && !event.is_result_generated() && !event.is_task_finished());
    assert_eq!(event.event_type(), EventType::TaskFailed);
    assert_eq!(event.task_id(), "t1");
    assert_eq!(event.get_error_info(), Some(("400", "bad audio")));
    assert_eq!(event.get_usage(), None);
    assert_eq!(
        event,
        WebSocketEvent::TaskFailed {
            header: WebSocketEventHeader {
                task_id: "t1".to_string(),
                event: "task-failed".to_string(),
                attributes: parse("{}"),
                error_code: Some("400".to_string()),
                error_message: Some("bad audio".to_string()),
            }
        }
    );
    assert_eq!(WebSocketEvent::try_from(frame.to_string()).unwrap(), event);
}

#[test]
fn rejects_a_misspelled_event_kind() {
    let frame = r#"{"header":{"task_id":"t1","event":"task-faild","error_code":"400","error_message":"bad audio","attributes":{}}}"#;
    match WebSocketEvent::decode(frame) {
        Err(DashScopeError::UnknownEventType { event_type }) => assert_eq!(event_type, "task-faild"),
        other => panic!("unexpected outcome: {:?}", other),
    }
}

#[test]
fn a_missing_event_kind_is_unknown() {
    for frame in [
        r#"{"header":{"task_id":"t1","attributes":{}}}"#,
        r#"{"header":{"task_id":"t1","event":7,"attributes":{}}}"#,
        r#"{"header":{"task_id":"t1","event":null,"attributes":{}}}"#,
        r#"{"payload":{}}"#,
        r#"{"header":["task-started"]}"#,
        r#"[1,2,3]"#,
        r#""task-started""#,
    ] {
        match WebSocketEvent::decode(frame) {
            Err(DashScopeError::UnknownEventType { event_type }) => assert_eq!(event_type, "unknown"),
            other => panic!("unexpected outcome for {}: {:?}", frame, other),
        }
    }
}

#[test]
fn each_kind_decodes_to_its_own_variant() {
    let started = WebSocketEvent::decode(r#"{"header":{"task_id":"t1","event":"task-started","attributes":{}}}"#).unwrap();
    assert_eq!(started, WebSocketEvent::TaskStarted { header: header("task-started") });
    assert_eq!(started.event_type().as_str(), "task-started");

    let result = WebSocketEvent::decode(r#"{"header":{"task_id":"t1","event":"result-generated","attributes":{}},"payload":{}}"#).unwrap();
    assert_eq!(
        result,
        WebSocketEvent::ResultGenerated {
            header: header("result-generated"),
            payload: WebSocketEventPayload { output: None, usage: None }
        }
    );

    let finished = WebSocketEvent::decode(r#"{"header":{"task_id":"t1","event":"task-finished","attributes":{}},"payload":{"usage":{"duration":3}}}"#).unwrap();
    assert_eq!(
        finished,
        WebSocketEvent::TaskFinished {
            header: header("task-finished"),
            payload: WebSocketEventPayload { output: None, usage: Some(AsrUsage { duration: Some(3) }) }
        }
    );
    assert_eq!(finished.get_usage(), Some(&AsrUsage { duration: Some(3) }));

    let failed = WebSocketEvent::decode(r#"{"header":{"task_id":"t1","event":"task-failed","attributes":{}}}"#).unwrap();
    assert_eq!(failed, WebSocketEvent::TaskFailed { header: header("task-failed") });
    assert_eq!(failed.get_error_info(), None);
}

#[test]
fn a_frame_in_the_wrong_shape_is_a_decode_error() {
    for frame in [
        r#"{"header":{"task_id":"t1","event":"result-generated","attributes":{}}}"#,
        r#"{"header":{"task_id":"t1","event":"task-finished","attributes":{}},"payload":null}"#,
        r#"{"header":{"task_id":"t1","event":"task-finished","attributes":{}},"payload":[]}"#,
        r#"{"header":{"event":"task-started","attributes":{}}}"#,
        r#"{"header":{"task_id":"t1","event":"task-started"}}"#,
        r#"{"header":{"task_id":5,"event":"task-started","attributes":{}}}"#,
        r#"{"header":{"task_id":"t1","event":"task-failed","attributes":{},"error_code":400}}"#,
        r#"{"header":{"task_id":"t1","event":"result-generated","attributes":{}},"payload":{"usage":{"duration":-1}}}"#,
        r#"{"header":{"task_id":"t1","event":"result-generated","attributes":{}},"payload":{"usage":{"duration":4294967296}}}"#,
        r#"{"header":{"task_id":"t1","event":"result-generated","attributes":{}},"payload":{"usage":{"duration":1.5}}}"#,
        r#"{"header":{"task_id":"t1","event":"result-generated","attributes":{}},"payload":{"output":{"sentence":{"text":"hi"}}}}"#,
        r#"{"header":{"task_id":"t1","event":"result-generated","attributes":{}},"payload":{"output":{"sentence":{"words":[{"begin_time":0}]}}}}"#,
        r#"{"header":{"task_id":"t1","event":"result-generated","attributes":{}},"payload":{"output":{"sentence":{"words":[],"sentence_end":"maybe"}}}}"#,
        r#"{"header":{"task_id":"t1","event":"result-generated","attributes":{}},"payload":{"output":{"sentence":{"words":[],"emo_confidence":"high"}}}}"#,
    ] {
        match WebSocketEvent::decode(frame) {
            Err(DashScopeError::JSONDeserialize { source, raw_response }) => {
                assert_eq!(raw_response, frame);
                assert_eq!(source, "frame does not match the shape of its event kind");
            }
            other => panic!("unexpected outcome for {}: {:?}", frame, other),
        }
    }
}

#[test]
fn a_text_that_is_no_json_is_a_decode_error() {
    for frame in ["", "{", "plain words", r#"{"header":}"#, r#"{"header":{}} trailing"#] {
        match WebSocketEvent::decode(frame) {
            Err(DashScopeError::JSONDeserialize { source, raw_response }) => {
                assert_eq!(raw_response, frame);
                assert!(!source.is_empty());
            }
            other => panic!("unexpected outcome for {:?}: {:?}", frame, other),
        }
    }
}

#[test]
fn decodes_a_full_result() {
    let frame = r#"{
        "header": {"task_id": "t7", "event": "result-generated", "attributes": {"k": [1, "two", null]}},
        "payload": {
            "output": {
                "sentence": {
                    "index": 2, "begin_time": 100, "end_time": null, "text": "hello wor",
                    "words": [
                        {"begin_time": 100, "end_time": 300, "text": "hello", "punctuation": ""},
                        {"begin_time": 300, "end_time": 520, "punctuation": ","}
                    ],
                    "heartbeat": false, "sentence_end": "false",
                    "emo_tag": "neutral", "emo_confidence": 0.85
                },
                "translations": [{"text": "bonjour"}, {}],
                "transcription": {"sentence_id": 9, "words": [], "sentence_end": 1, "lang": "en"}
            },
            "usage": {"duration": 12},
            "extra": "ignored"
        }
    }"#;
    let event = WebSocketEvent::decode(frame).unwrap();
    let expected = WebSocketEvent::ResultGenerated {
        header: WebSocketEventHeader {
            task_id: "t7".to_string(),
            event: "result-generated".to_string(),
            attributes: parse(r#"{"k": [1, "two", null]}"#),
            error_code: None,
            error_message: None,
        },
        payload: WebSocketEventPayload {
            output: Some(AsrOutput {
                sentence: Some(AsrSentence {
                    index: Some(2),
                    begin_time: Some(100),
                    end_time: None,
                    text: Some("hello wor".to_string()),
                    words: vec![
                        AsrWord { begin_time: 100, end_time: 300, text: Some("hello".to_string()), punctuation: "".to_string() },
                        AsrWord { begin_time: 300, end_time: 520, text: None, punctuation: ",".to_string() },
                    ],
                    heartbeat: Some(false),
                    sentence_end: Some(false),
                    emo_tag: Some("neutral".to_string()),
                    emo_confidence: Some(parse("0.85")),
                }),
                translations: Some(vec![AsrTranslation { text: Some("bonjour".to_string()) }, AsrTranslation { text: None }]),
                transcription: Some(Asrtranscription {
                    sentence_id: 9,
                    begin_time: None,
                    end_time: None,
                    text: None,
                    lang: Some("en".to_string()),
                    words: vec![],
                    sentence_end: Some(true),
                }),
            }),
            usage: Some(AsrUsage { duration: Some(12) }),
        },
    };
    assert_eq!(event, expected);
    let sentence = match &event {
        WebSocketEvent::ResultGenerated { payload, .. } => payload.output.as_ref().unwrap().sentence.as_ref().unwrap(),
        _ => unreachable!(),
    };
    assert!(sentence.is_intermediate());
    assert!(!sentence.is_final());
}

fn coerce(text: &str) -> Result<Option<bool>, String> {
    deserialize_bool_from_any(&parse(text))
}

#[test]
fn lenient_booleans_follow_the_table() {
    for (input, expected) in [
        ("true", true),
        ("false", false),
        ("1", true),
        ("0", false),
        (r#""true""#, true),
        (r#""false""#, false),
        (r#""1""#, true),
        (r#""0""#, false),
        (r#""yes""#, true),
        (r#""no""#, false),
        ("7", true),
        ("-3", true),
        ("18446744073709551615", true),
        ("9223372036854775808", true),
        ("0.5", true),
        ("-2.25", true),
        ("1e-300", true),
        ("0.0", false),
        ("-0.0", false),
        (r#""42""#, true),
        (r#""-7""#, true),
        (r#""+0""#, false),
        (r#""000""#, false),
    ] {
        assert_eq!(coerce(input), Ok(Some(expected)), "input {}", input);
    }
}

#[test]
fn lenient_booleans_refuse_everything_else() {
    assert_eq!(coerce(r#""maybe""#), Err("unable to parse 'maybe' as bool".to_string()));
    for input in [r#""""#, r#""TRUE""#, r#""Yes""#, r#"" 1""#, r#""1.0""#, r#""0x10""#, r#""9223372036854775808""#, r#""-""#] {
        let text: String = parse(input).as_str().unwrap().to_string();
        assert_eq!(coerce(input), Err(format!("unable to parse '{}' as bool", text)), "input {}", input);
    }
    for input in ["null", "[]", "[true]", "{}", r#"{"value":true}"#] {
        assert_eq!(coerce(input), Err("unexpected value type for bool".to_string()), "input {}", input);
    }
}

#[test]
fn event_kinds_have_their_names() {
    for (kind, name) in [
        (EventType::TaskStarted, "task-started"),
        (EventType::ResultGenerated, "result-generated"),
        (EventType::TaskFinished, "task-finished"),
        (EventType::TaskFailed, "task-failed"),
    ] {
        assert_eq!(kind.as_str(), name);
        assert_eq!(EventType::from_str(name), Ok(kind));
    }
    assert_eq!(EventType::from_str("task-faild"), Err(()));
    assert_eq!(EventType::from_str(""), Err(()));
}

fn roundtrip(event: WebSocketEvent) {
    let text = event.encode().unwrap();
    assert_eq!(WebSocketEvent::decode(&text).unwrap(), event, "through {}", text);
    assert_eq!(parse(&text), event.to_value());
}

#[test]
fn events_survive_the_round_trip() {
    roundtrip(WebSocketEvent::TaskStarted { header: header("task-started") });
    roundtrip(WebSocketEvent::TaskFailed {
        header: WebSocketEventHeader {
            task_id: "t1".to_string(),
            event: "task-failed".to_string(),
            attributes: parse(r#"{"request_uuid":"u-1","n":[1,2,{"x":null}]}"#),
            error_code: Some("400".to_string()),
            error_message: Some("bad audio".to_string()),
        },
    });
    roundtrip(WebSocketEvent::TaskFailed {
        header: WebSocketEventHeader { attributes: parse("null"), error_code: Some("E".to_string()), ..header("task-failed") },
    });
    roundtrip(WebSocketEvent::TaskFinished {
        header: header("task-finished"),
        payload: WebSocketEventPayload { output: None, usage: Some(AsrUsage { duration: None }) },
    });
    roundtrip(WebSocketEvent::ResultGenerated {
        header: header("result-generated"),
        payload: WebSocketEventPayload { output: None, usage: None },
    });
    roundtrip(WebSocketEvent::ResultGenerated {
        header: header("result-generated"),
        payload: WebSocketEventPayload {
            output: Some(AsrOutput {
                sentence: Some(AsrSentence {
                    index: Some(0),
                    begin_time: Some(0),
                    end_time: Some(4294967295),
                    text: Some("你好, \"world\"".to_string()),
                    words: vec![AsrWord { begin_time: 1, end_time: 2, text: None, punctuation: "。".to_string() }],
                    heartbeat: None,
                    sentence_end: Some(true),
                    emo_tag: None,
                    emo_confidence: Some(parse("0.25")),
                }),
                translations: Some(vec![]),
                transcription: Some(Asrtranscription {
                    sentence_id: 1,
                    begin_time: Some(5),
                    end_time: None,
                    text: Some("t".to_string()),
                    lang: None,
                    words: vec![AsrWord { begin_time: 1, end_time: 2, text: Some("w".to_string()), punctuation: "".to_string() }],
                    sentence_end: None,
                }),
            }),
            usage: Some(AsrUsage { duration: Some(1) }),
        },
    });
    roundtrip(WebSocketEvent::ResultGenerated {
        header: header("result-generated"),
        payload: WebSocketEventPayload {
            output: Some(AsrOutput {
                sentence: Some(AsrSentence {
                    index: None,
                    begin_time: None,
                    end_time: None,
                    text: None,
                    words: vec![],
                    heartbeat: Some(true),
                    sentence_end: None,
                    emo_tag: Some("happy".to_string()),
                    emo_confidence: None,
                }),
                translations: None,
                transcription: None,
            }),
            usage: None,
        },
    });
}

#[test]
fn an_event_is_written_without_its_absent_members() {
    let event = WebSocketEvent::TaskStarted { header: header("task-started") };
    assert_eq!(event.to_value(), parse(r#"{"header":{"task_id":"t1","event":"task-started","attributes":{}}}"#));
    let event = WebSocketEvent::TaskFinished {
        header: header("task-finished"),
        payload: WebSocketEventPayload { output: None, usage: Some(AsrUsage { duration: Some(2) }) },
    };
    assert_eq!(event.to_value(), parse(r#"{"header":{"task_id":"t1","event":"task-finished","attributes":{}},"payload":{"usage":{"duration":2}}}"#));
}

#[test]
fn a_null_member_is_absent() {
    let frame = r#"{"header":{"task_id":"t1","event":"result-generated","attributes":{}},"payload":{"output":{"sentence":{"text":"hi","words":[],"heartbeat":null,"sentence_end":null}}}}"#;
    let event = WebSocketEvent::decode(frame).unwrap();
    let expected = WebSocketEvent::ResultGenerated {
        header: header("result-generated"),
        payload: WebSocketEventPayload {
            output: Some(AsrOutput {
                sentence: Some(AsrSentence {
                    index: None,
                    begin_time: None,
                    end_time: None,
                    text: Some("hi".to_string()),
                    words: vec![],
                    heartbeat: None,
                    sentence_end: None,
                    emo_tag: None,
                    emo_confidence: None,
                }),
                translations: None,
                transcription: None,
            }),
            usage: None,
        },
    };
    assert_eq!(event, expected);
    assert_eq!(WebSocketEvent::decode(&event.encode().unwrap()).unwrap(), expected);
    let transcribed = r#"{"header":{"task_id":"t1","event":"result-generated","attributes":{}},"payload":{"output":{"transcription":{"sentence_id":1,"words":[],"sentence_end":null}}}}"#;
    match WebSocketEvent::decode(transcribed).unwrap() {
        WebSocketEvent::ResultGenerated { payload, .. } => {
            assert_eq!(payload.output.unwrap().transcription.unwrap().sentence_end, None)
        }
        other => panic!("unexpected event: {:?}", other),
    }
    assert_eq!(coerce("null"), Err("unexpected value type for bool".to_string()));
}
