use eyeris::prompts::{AnalysisConfig, ContentCategory, ImagePrompt, PromptFormat};

#[test]
fn test_prompt_formats() {
    let formats = vec![
        PromptFormat::Concise,
        PromptFormat::Detailed,
        PromptFormat::Json,
        PromptFormat::List,
    ];

    for format in formats {
        let prompt = ImagePrompt::new(format.clone());
        assert!(!prompt.text.is_empty());

        let config = AnalysisConfig {
            extract_text: true,
            detect_faces: false,
            identify_brands: true,
            analyze_layout: true,
            extract_data: true,
            color_analysis: true,
            spatial_analysis: false,
            semantic_analysis: true,
            detect_emotions: true,
            identify_patterns: true,
            historical_context: true,
            cultural_analysis: true,
            technical_details: true,
            accessibility_analysis: true,
            content_category: Some(ContentCategory::Screenshot { platform: Some("iOS".to_string()) }),
            custom_traits: vec![],
        };

        let prompt_with_config = ImagePrompt::with_config(format, config);
        assert!(!prompt_with_config.text.is_empty());

        let openai_content = prompt.to_openai_content();
        assert!(openai_content.is_array());

        let ollama_prompt = prompt.to_ollama_prompt();
        assert!(!ollama_prompt.is_empty());
    }
}

#[test]
fn test_category_specific_prompts() {
    let categories = vec![
        ContentCategory::Screenshot { platform: Some("iOS".to_string()) },
        ContentCategory::Recipe,
        ContentCategory::Document,
        ContentCategory::GeoMap,
    ];

    for category in categories {
        let config = AnalysisConfig {
            content_category: Some(category),
            ..Default::default()
        };

        let prompt = ImagePrompt::with_config(PromptFormat::Json, config);
        assert!(prompt.text.contains("For this"));
        assert!(!prompt.text.is_empty());

        assert!(prompt.text.contains("Pattern Recognition"));
        assert!(prompt.text.contains("Innovation Detection"));
    }
}

#[test]
fn test_dynamic_discovery() {
    let config = AnalysisConfig {
        identify_patterns: true,
        semantic_analysis: true,
        cultural_analysis: true,
        ..Default::default()
    };

    let prompt = ImagePrompt::with_config(PromptFormat::Json, config);

    assert!(prompt.text.contains("dynamic_extensions"));
    assert!(prompt.text.contains("discovered_categories"));
    assert!(prompt.text.contains("pattern_type"));
}

#[test]
fn test_custom_traits() {
    let config = AnalysisConfig {
        custom_traits: vec!["brand_safety".to_string(), "viral_potential".to_string()],
        ..Default::default()
    };

    let prompt = ImagePrompt::with_config(PromptFormat::Detailed, config);
    assert!(prompt.text.contains("brand_safety") || prompt.text.contains("viral_potential"));
}

#[test]
fn test_platform_specific_screenshot() {
    let config = AnalysisConfig {
        content_category: Some(ContentCategory::Screenshot { platform: Some("iOS".to_string()) }),
        ..Default::default()
    };

    let prompt = ImagePrompt::with_config(PromptFormat::Detailed, config);
    assert!(prompt.text.contains("iOS"));
    assert!(prompt.text.contains("platform-specific"));
}

#[test]
fn concise_prompt_follows_toggles() {
    let config = AnalysisConfig {
        extract_text: true,
        detect_faces: false,
        identify_brands: true,
        ..Default::default()
    };
    let prompt = ImagePrompt::with_config(PromptFormat::Concise, config);
    assert!(prompt.text.starts_with(
        "Analyze this image and describe its contents concisely. Extract any visible text. Identify any brands or logos.\n\n"
    ));
    assert!(!prompt.text.contains("Note any faces present."));
}

#[test]
fn detailed_prompt_lists_sections_as_bullets() {
    let prompt = ImagePrompt::new(PromptFormat::Detailed);
    assert!(prompt.text.starts_with(
        "Provide a detailed analysis of this image, including:\n- Main subjects and their characteristics\n- Background elements and setting\n- Colors and lighting\n- Notable details or unusual elements\n- Any visible text or written content\n- Presence and characteristics of any faces\n- Visible brands, logos, or trademarked content\n- Layout and composition analysis\n\n"
    ));
}

#[test]
fn list_prompt_numbers_items_from_one() {
    let config = AnalysisConfig {
        extract_text: false,
        detect_faces: false,
        identify_brands: true,
        analyze_layout: false,
        ..Default::default()
    };
    let prompt = ImagePrompt::with_config(PromptFormat::List, config);
    assert!(prompt.text.starts_with(
        "Analyze this image and provide:\n1. Main subject(s)\n2. Setting/location\n3. Notable actions/activities\n4. Key details\n5. Brands and logos\n\n"
    ));
}

#[test]
fn custom_traits_are_an_enumerated_list() {
    let config = AnalysisConfig {
        custom_traits: vec!["brand_safety".to_string(), "viral_potential".to_string()],
        ..Default::default()
    };
    let prompt = ImagePrompt::with_config(PromptFormat::Concise, config);
    assert!(prompt
        .text
        .contains("custom traits explicitly:\n1. brand_safety\n2. viral_potential\n\n"));
}

#[test]
fn json_prompt_names_every_schema_key() {
    for category in [None, Some(ContentCategory::Receipt)] {
        let config = AnalysisConfig { content_category: category, ..Default::default() };
        let prompt = ImagePrompt::with_config(PromptFormat::Json, config);
        for key in [
            "\"classification\"",
            "\"content\"",
            "\"analysis_layers\"",
            "\"extracted_information\"",
            "\"insights\"",
            "\"metadata\"",
            "\"dynamic_extensions\"",
        ] {
            assert!(prompt.text.contains(key), "missing {key}");
        }
    }
}

#[test]
fn sections_come_in_order() {
    let config = AnalysisConfig {
        content_category: Some(ContentCategory::Discovered {
            name: "packaging".to_string(),
            confidence_percent: 80,
            traits: vec!["shape".to_string()],
        }),
        custom_traits: vec!["legibility".to_string()],
        ..Default::default()
    };
    let prompt = ImagePrompt::with_config(PromptFormat::Concise, config);
    let category = prompt.text.find("For this discovered category (packaging)").unwrap();
    let traits = prompt.text.find("1. legibility").unwrap();
    let discovery = prompt.text.find("Beyond these specific instructions").unwrap();
    assert!(category < traits && traits < discovery);
    assert!(prompt.text.contains("define it:\n- shape"));
}

#[test]
fn default_format_is_json() {
    assert_eq!(PromptFormat::default(), PromptFormat::Json);
}

#[test]
fn openai_content_has_text_and_image_parts() {
    let prompt = ImagePrompt::new(PromptFormat::Concise);
    let content = prompt.to_openai_content();
    match content {
        eyeris::json::Json::Array(items) => {
            assert_eq!(items.len(), 2);
            match items[0].get("text") {
                Some(eyeris::json::Json::Str(s)) => assert_eq!(s, &prompt.text),
                other => panic!("unexpected text part {:?}", other),
            }
            let url = items[1].get("image_url").and_then(|u| u.get("url"));
            assert!(matches!(url, Some(eyeris::json::Json::Str(s)) if s == "data:image/jpeg;base64,"));
        }
        other => panic!("not an array: {:?}", other),
    }
}
