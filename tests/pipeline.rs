use base64::Engine;
use eyeris::imaging::ImageError;
use eyeris::options::{default_model, default_provider, provider_for_lowercase, provider_from_name};
use eyeris::processor::{record_reply, ImageProcessor};
use eyeris::prompts::PromptFormat;
use eyeris::providers::{AIProvider, ProviderError, TokenUsage};
use eyeris::stats::TokenStats;
use eyeris::text::{decimal_string, numbered_list, split_lines};
use eyeris::web::{check_field_name, check_image_data, UploadError};
use eyeris::ProcessorError;

fn png_bytes(width: u32, height: u32) -> Vec<u8> {
    let img = image::RgbImage::from_fn(width, height, |x, y| image::Rgb([x as u8, y as u8, 7]));
    let mut out = std::io::Cursor::new(Vec::new());
    image::DynamicImage::ImageRgb8(img).write_to(&mut out, image::ImageFormat::Png).unwrap();
    out.into_inner()
}

fn usage(p: usize, c: usize) -> TokenUsage {
    TokenUsage { prompt_tokens: p, completion_tokens: c, total_tokens: p + c }
}

#[test]
fn stats_are_sums_of_sequential_usage() {
    let records = [usage(10, 5), usage(3, 4), usage(100, 1)];
    let mut stats = TokenStats::new();
    for r in &records {
        stats.add(r);
    }
    assert_eq!(stats, TokenStats { prompt_tokens: 113, completion_tokens: 10, total_tokens: 123 });
    assert_eq!(stats.total_tokens, stats.prompt_tokens + stats.completion_tokens);
}

#[test]
fn stats_do_not_depend_on_completion_order() {
    let records = [usage(1, 2), usage(30, 40), usage(500, 600), usage(7, 0)];
    let orders = [[0, 1, 2, 3], [3, 2, 1, 0], [1, 3, 0, 2], [2, 0, 3, 1]];
    let mut results = Vec::new();
    for order in orders {
        let mut stats = TokenStats::new();
        for i in order {
            stats.add(&records[i]);
        }
        results.push(stats);
    }
    for r in &results {
        assert_eq!(*r, results[0]);
    }
    assert_eq!(results[0].total_tokens, 1180);
}

#[test]
fn stats_saturate() {
    let mut stats = TokenStats::new();
    stats.add(&TokenUsage { prompt_tokens: usize::MAX, completion_tokens: 1, total_tokens: usize::MAX });
    stats.add(&usage(1, 1));
    assert_eq!(stats.prompt_tokens, usize::MAX);
    assert_eq!(stats.completion_tokens, 2);
    assert_eq!(stats.total_tokens, usize::MAX);
}

#[test]
fn processor_defaults() {
    let p = ImageProcessor::new(AIProvider::Ollama, None, None);
    assert_eq!(p.prompt.format, PromptFormat::Json);
    assert!(p.prompt.text.contains("\"classification\""));
    let q = ImageProcessor::new(AIProvider::OpenAI, Some("m".to_string()), Some(PromptFormat::List));
    assert_eq!(q.prompt.format, PromptFormat::List);
}

#[test]
fn prepare_sends_the_transcoded_image() {
    let processor = ImageProcessor::new(AIProvider::Ollama, None, Some(PromptFormat::Concise));
    let raw = png_bytes(1600, 800);
    let prepared = processor.prepare(&raw, None).unwrap();
    assert_eq!((prepared.image.width, prepared.image.height), (768, 384));
    assert_eq!((prepared.decoded.width, prepared.decoded.height), (1600, 800));
    let v: serde_json::Value = serde_json::from_str(&prepared.request.body).unwrap();
    let expected = base64::engine::general_purpose::STANDARD.encode(&prepared.image.bytes);
    assert_eq!(v["images"][0], expected.as_str());
    assert_eq!(v["prompt"], processor.prompt.text.as_str());
}

#[test]
fn prepare_reports_image_and_credential_errors() {
    let hosted = ImageProcessor::new(AIProvider::OpenAI, None, None);
    assert!(matches!(
        hosted.prepare(b"nope", Some("k".to_string())),
        Err(ProcessorError::Image(ImageError::UnrecognizedFormat))
    ));
    assert!(matches!(
        hosted.prepare(&png_bytes(20, 20), None),
        Err(ProcessorError::Provider(ProviderError::MissingCredential))
    ));
    let ok = hosted.prepare(&png_bytes(20, 20), Some("k".to_string())).unwrap();
    assert_eq!(ok.request.bearer_token.as_deref(), Some("k"));
}

#[test]
fn finish_folds_reported_usage() {
    let hosted = ImageProcessor::new(AIProvider::OpenAI, None, None);
    let mut stats = TokenStats::new();
    let body = r#"{"choices":[{"message":{"content":"done"}}],"usage":{"prompt_tokens":4,"completion_tokens":6,"total_tokens":10}}"#;
    for _ in 0..3 {
        let (text, u) = hosted.finish(200, body, &mut stats).unwrap();
        assert_eq!(text, "done");
        assert_eq!(u, usage(4, 6));
    }
    assert_eq!(stats, TokenStats { prompt_tokens: 12, completion_tokens: 18, total_tokens: 30 });
    assert!(matches!(hosted.finish(503, "busy", &mut stats), Err(ProcessorError::Provider(ProviderError::RequestRejected { status: 503, .. }))));
    assert_eq!(stats.total_tokens, 30);
}

#[test]
fn finish_fills_missing_usage_with_zeros() {
    let local = ImageProcessor::new(AIProvider::Ollama, None, None);
    let mut stats = TokenStats::new();
    let (text, u) = local.finish(200, "{\"response\":\"A\"}\n{\"response\":\"B\"}\n{\"response\":\"C\"}", &mut stats).unwrap();
    assert_eq!(text, "ABC");
    assert_eq!(u, TokenUsage::default());
    assert_eq!(stats, TokenStats::new());
    assert!(matches!(local.finish(200, "", &mut stats), Err(ProcessorError::Provider(ProviderError::EmptyResponse))));
}

#[test]
fn record_reply_maps_each_case() {
    let mut stats = TokenStats::new();
    let r = record_reply(Ok(("t".to_string(), Some(usage(1, 1)))), &mut stats).unwrap();
    assert_eq!(r.1.total_tokens, 2);
    assert_eq!(stats.total_tokens, 2);
    assert!(matches!(record_reply(Err(ProviderError::EmptyResponse), &mut stats), Err(ProcessorError::Provider(ProviderError::EmptyResponse))));
}

#[test]
fn provider_names() {
    assert_eq!(default_provider(), "ollama");
    assert_eq!(default_model(), "moondream");
    assert_eq!(eyeris::web::default_model(), "gpt-4o");
    assert_eq!(provider_from_name("OLLAMA"), AIProvider::Ollama);
    assert_eq!(provider_from_name("Ollama"), AIProvider::Ollama);
    assert_eq!(provider_from_name("OpenAI"), AIProvider::OpenAI);
    assert_eq!(provider_from_name("anything"), AIProvider::OpenAI);
    assert_eq!(provider_for_lowercase("OLLAMA"), AIProvider::OpenAI);
}

#[test]
fn upload_checks() {
    assert!(check_field_name(Some("image")).is_ok());
    assert!(matches!(check_field_name(Some("file")), Err(UploadError::WrongField { name: Some(n) }) if n == "file"));
    assert!(matches!(check_field_name(None), Err(UploadError::WrongField { name: None })));
    assert!(matches!(check_image_data(0), Err(UploadError::EmptyData)));
    assert!(check_image_data(3).is_ok());
}

#[test]
fn text_helpers() {
    assert_eq!(decimal_string(0), "0");
    assert_eq!(decimal_string(7), "7");
    assert_eq!(decimal_string(42), "42");
    assert_eq!(decimal_string(1234), "1234");
    assert_eq!(numbered_list(&vec!["a".to_string(), "b".to_string()]), "1. a\n2. b");
    assert_eq!(numbered_list(&vec![]), "");
    assert_eq!(split_lines("a\nb\n\nc"), vec!["a", "b", "", "c"]);
    assert_eq!(split_lines(""), vec![""]);
    assert_eq!(split_lines("x\n"), vec!["x", ""]);
}
