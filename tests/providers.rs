use eyeris::json::{parse_json, quote_json, Json};
use eyeris::providers::ollama::{collect_responses, read_ollama_body};
use eyeris::providers::openai::{read_openai_body, reply_from_json};
use eyeris::providers::{
    is_success, AIProvider, OllamaProvider, OpenAIProvider, ProviderError, ProviderHandle,
    TokenUsage,
};

fn field<'a>(j: &'a serde_json::Value, path: &[&str]) -> &'a serde_json::Value {
    let mut v = j;
    for p in path {
        v = &v[*p];
    }
    v
}

#[test]
fn ndjson_lines_concatenate_in_order() {
    let body = "{\"response\":\"A\"}\n{\"response\":\"B\"}\n{\"response\":\"C\"}";
    assert_eq!(read_ollama_body(body).unwrap(), "ABC");
    let with_newline = "{\"response\":\"A\"}\n{\"response\":\"B\"}\n{\"response\":\"C\"}\n";
    assert_eq!(read_ollama_body(with_newline).unwrap(), "ABC");
}

#[test]
fn ndjson_skips_lines_that_do_not_parse() {
    let body = "{\"response\":\"Hel\"}\nnot json\n{\"done\":true}\r\n{\"response\":\"lo\",\"done\":false}\r\n";
    assert_eq!(read_ollama_body(body).unwrap(), "Hello");
}

#[test]
fn empty_ndjson_is_an_error() {
    assert!(matches!(read_ollama_body(""), Err(ProviderError::EmptyResponse)));
    assert!(matches!(
        read_ollama_body("{\"response\":\"\"}\n{\"done\":true}"),
        Err(ProviderError::EmptyResponse)
    ));
    assert!(matches!(collect_responses(&vec![None, None]), Err(ProviderError::EmptyResponse)));
}

#[test]
fn collect_responses_takes_parsed_values() {
    let parts = vec![parse_json("{\"response\":\"x\"}"), None, parse_json("[1,2]"), parse_json("{\"response\":\"y\"}")];
    assert_eq!(collect_responses(&parts).unwrap(), "xy");
}

#[test]
fn hosted_reply_with_usage() {
    let body = r#"{"id":"c1","choices":[{"index":0,"message":{"role":"assistant","content":"a cat"}},{"message":{"content":"a dog"}}],"usage":{"prompt_tokens":12,"completion_tokens":5,"total_tokens":17}}"#;
    let (text, usage) = read_openai_body(body).unwrap();
    assert_eq!(text, "a cat");
    assert_eq!(usage, Some(TokenUsage { prompt_tokens: 12, completion_tokens: 5, total_tokens: 17 }));
}

#[test]
fn hosted_reply_without_usage() {
    let (text, usage) = read_openai_body(r#"{"choices":[{"message":{"content":"ok"}}]}"#).unwrap();
    assert_eq!(text, "ok");
    assert_eq!(usage, None);
    let (_, usage) = read_openai_body(r#"{"choices":[{"message":{"content":"ok"}}],"usage":null}"#).unwrap();
    assert_eq!(usage, None);
}

#[test]
fn hosted_reply_with_no_choices_is_malformed() {
    let body = r#"{"choices":[]}"#;
    match read_openai_body(body) {
        Err(ProviderError::MalformedResponse { detail, raw_body }) => {
            assert_eq!(detail, "no choices in response");
            assert_eq!(raw_body, body);
        }
        other => panic!("unexpected {:?}", other),
    }
}

#[test]
fn hosted_reply_of_wrong_shape_is_malformed() {
    for body in [
        r#"{"error":{"message":"bad"}}"#,
        r#"{"choices":[{"message":{"content":7}}]}"#,
        r#"{"choices":[{"message":{"content":"a"}},{"text":"b"}]}"#,
        r#"{"choices":[{"message":{"content":"a"}}],"usage":{"prompt_tokens":1}}"#,
        r#"{"choices":[{"message":{"content":"a"}}],"usage":{"prompt_tokens":-1,"completion_tokens":1,"total_tokens":0}}"#,
        r#"[1,2,3]"#,
    ] {
        match read_openai_body(body) {
            Err(ProviderError::MalformedResponse { detail, raw_body }) => {
                assert_eq!(detail, "the response does not have the expected shape");
                assert_eq!(raw_body, body);
            }
            other => panic!("unexpected {:?} for {}", other, body),
        }
    }
}

#[test]
fn hosted_reply_that_is_not_json_is_malformed() {
    match read_openai_body("<html>gateway</html>") {
        Err(ProviderError::MalformedResponse { detail, raw_body }) => {
            assert_eq!(detail, "the response is not JSON");
            assert_eq!(raw_body, "<html>gateway</html>");
        }
        other => panic!("unexpected {:?}", other),
    }
}

#[test]
fn reply_from_json_reads_a_parsed_value() {
    let top = parse_json(r#"{"choices":[{"message":{"content":"hi"}}]}"#).unwrap();
    assert_eq!(reply_from_json(&top, "raw").unwrap().0, "hi");
    let other = Json::Null;
    assert!(matches!(reply_from_json(&other, "raw"), Err(ProviderError::MalformedResponse { .. })));
}

#[test]
fn failed_status_is_rejected_with_body() {
    assert!(is_success(200));
    assert!(is_success(299));
    assert!(!is_success(199));
    assert!(!is_success(300));
    let local = OllamaProvider::new(None);
    match local.read_response(500, "boom") {
        Err(ProviderError::RequestRejected { status, body }) => {
            assert_eq!(status, 500);
            assert_eq!(body, "boom");
        }
        other => panic!("unexpected {:?}", other),
    }
    let hosted = OpenAIProvider::new(None);
    assert!(matches!(
        hosted.read_response(401, "{}"),
        Err(ProviderError::RequestRejected { status: 401, .. })
    ));
}

#[test]
fn default_models() {
    assert_eq!(OllamaProvider::new(None).model, "moondream");
    assert_eq!(OpenAIProvider::new(None).model, "gpt-4o");
    assert_eq!(OpenAIProvider::new(Some("gpt-4o-mini".to_string())).model, "gpt-4o-mini");
}

#[test]
fn local_request_body_is_json_with_the_image() {
    let req = OllamaProvider::new(None).request("QUJD", "say \"hi\"\n");
    assert_eq!(req.url, "http://localhost:11434/api/generate");
    assert!(req.bearer_token.is_none());
    assert!(req.body.starts_with("{\"model\":\"moondream\",\"prompt\":\"say \\\"hi\\\"\\n\""));
    let v: serde_json::Value = serde_json::from_str(&req.body).unwrap();
    assert_eq!(v["model"], "moondream");
    assert_eq!(v["prompt"], "say \"hi\"\n");
    assert_eq!(v["images"][0], "QUJD");
}

#[test]
fn hosted_request_needs_a_credential() {
    let hosted = OpenAIProvider::new(None);
    assert!(matches!(hosted.request("QUJD", "p", None), Err(ProviderError::MissingCredential)));
    let req = hosted.request("QUJD", "describe", Some("SECRET-REDACTED".to_string())).unwrap();
    assert_eq!(req.url, "https://api.openai.com/v1/chat/completions");
    assert_eq!(req.bearer_token.as_deref(), Some("SECRET-REDACTED"));
    let v: serde_json::Value = serde_json::from_str(&req.body).unwrap();
    assert_eq!(v["model"], "gpt-4o");
    assert_eq!(v["temperature"], 0);
    assert_eq!(v["max_completion_tokens"], 16384);
    assert_eq!(field(&v, &["messages"])[0]["role"], "system");
    let user = &v["messages"][1];
    assert_eq!(user["role"], "user");
    assert!(user["content"][0]["text"].as_str().unwrap().starts_with("describe\nPlease analyze"));
    assert_eq!(user["content"][1]["image_url"]["url"], "data:image/jpeg;base64,QUJD");
}

#[test]
fn handle_dispatches_by_kind() {
    let local = ProviderHandle::new(AIProvider::Ollama, None);
    assert!(local.request("QUJD", "p", None).is_ok());
    assert_eq!(local.read_response(200, "{\"response\":\"x\"}").unwrap(), ("x".to_string(), None));
    let hosted = ProviderHandle::new(AIProvider::OpenAI, Some("m".to_string()));
    assert!(matches!(hosted.request("QUJD", "p", None), Err(ProviderError::MissingCredential)));
}

#[test]
fn json_quoting_escapes() {
    assert_eq!(quote_json("a\"b"), "\"a\\\"b\"");
    assert_eq!(quote_json(""), "\"\"");
}

#[test]
fn json_parsing_keeps_numbers_and_members() {
    let v = parse_json(r#"{"a":1,"b":-2,"c":1.5,"d":[true,null],"e":"s"}"#).unwrap();
    assert!(matches!(v.get("a"), Some(Json::UInt(1))));
    assert!(matches!(v.get("b"), Some(Json::Int(-2))));
    assert!(matches!(v.get("c"), Some(Json::Fraction(t)) if t == "1.5"));
    assert!(v.get("d").unwrap().is_array());
    assert!(matches!(v.get("e"), Some(Json::Str(s)) if s == "s"));
    assert!(v.get("z").is_none());
    assert!(parse_json("{").is_none());
}
