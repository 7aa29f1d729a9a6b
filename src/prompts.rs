use vstd::prelude::*;
use vstd::string::*;

use crate::json::{json_field, member, Json};
use crate::providers::openai::IMAGE_URL_PREFIX;
use crate::text::{
    add_item, bullet_list, bullets, contains, lemma_contains_middle, lemma_contains_prefix,
    numbered, numbered_list, texts,
};

verus! {

/// Output shape requested from the backend.
#[derive(Clone, Copy, Debug, PartialEq, Eq, Structural)]
pub enum PromptFormat {
    Concise,
    Detailed,
    Json,
    List,
}

impl Default for PromptFormat {
    /// Structured JSON output.
    fn default() -> (r: Self)
        ensures
            r == PromptFormat::Json,
    {
        PromptFormat::Json
    }
}

/// The kind of content an image holds, when the caller knows it.
#[derive(Clone, Debug)]
pub enum ContentCategory {
    Screenshot { platform: Option<String> },
    UserInterface,
    SocialMediaPost,
    DigitalArt,
    Website,
    Software,
    VideoGame,
    Document,
    Receipt,
    BusinessCard,
    Invoice,
    Form,
    Identification,
    Certificate,
    Photo,
    Artwork,
    Illustration,
    Meme,
    Comic,
    Advertisement,
    Poster,
    Recipe,
    Tutorial,
    Diagram,
    Blueprint,
    Schematic,
    Manual,
    Guide,
    Chart,
    Graph,
    Dashboard,
    Infographic,
    Timeline,
    Flowchart,
    MindMap,
    GeoMap,
    FloorPlan,
    Architecture,
    Landscape,
    Satellite,
    Medical,
    Scientific,
    Technical,
    Educational,
    Legal,
    Financial,
    /// A category found by an earlier analysis; `confidence_percent` is its
    /// confidence in hundredths.
    Discovered { name: String, confidence_percent: u8, traits: Vec<String> },
}

/// Feature toggles and optional category hints of an analysis.
#[derive(Clone, Debug)]
pub struct AnalysisConfig {
    pub extract_text: bool,
    pub detect_faces: bool,
    pub identify_brands: bool,
    pub analyze_layout: bool,
    pub extract_data: bool,
    pub color_analysis: bool,
    pub spatial_analysis: bool,
    pub semantic_analysis: bool,
    pub detect_emotions: bool,
    pub identify_patterns: bool,
    pub historical_context: bool,
    pub cultural_analysis: bool,
    pub technical_details: bool,
    pub accessibility_analysis: bool,
    pub content_category: Option<ContentCategory>,
    pub custom_traits: Vec<String>,
}

/// Every toggle on, no category, no custom trait.
pub open spec fn is_default_config(c: AnalysisConfig) -> bool {
    &&& c.extract_text && c.detect_faces && c.identify_brands && c.analyze_layout
    &&& c.extract_data && c.color_analysis && c.spatial_analysis && c.semantic_analysis
    &&& c.detect_emotions && c.identify_patterns && c.historical_context
    &&& c.cultural_analysis && c.technical_details && c.accessibility_analysis
    &&& c.content_category is None
    &&& c.custom_traits@.len() == 0
}

impl Default for AnalysisConfig {
    fn default() -> (r: Self)
        ensures
            is_default_config(r),
    {
        AnalysisConfig {
            extract_text: true,
            detect_faces: true,
            identify_brands: true,
            analyze_layout: true,
            extract_data: true,
            color_analysis: true,
            spatial_analysis: true,
            semantic_analysis: true,
            detect_emotions: true,
            identify_patterns: true,
            historical_context: true,
            cultural_analysis: true,
            technical_details: true,
            accessibility_analysis: true,
            content_category: None,
            custom_traits: Vec::new(),
        }
    }
}

pub const CONCISE_HEAD: &'static str = "Analyze this image and describe its contents concisely.";

pub const DETAILED_HEAD: &'static str = "Provide a detailed analysis of this image, including:\n";

pub const LIST_HEAD: &'static str = "Analyze this image and provide:\n";

pub const JSON_INTRO: &'static str = r#"You are an expert image analysis system with deep understanding across multiple domains. Analyze this image comprehensively and return a structured JSON response. While the structure below provides a framework, you are encouraged to:

1. Discover and add new relevant categories or traits not explicitly listed
2. Expand analysis based on patterns you recognize
3. Add domain-specific insights when relevant
4. Include any unique or unexpected observations
5. Note interesting relationships or implications

Every top-level key below is required in the response, spelled exactly as shown. Return a single JSON object and nothing else.

{
    "#;

pub const KEY_CLASSIFICATION: &'static str = r#""classification""#;

pub const JSON_CLASSIFICATION: &'static str = r#": {
        "primary_category": "string",
        "secondary_categories": ["string"],
        "confidence": 0.0-1.0,
        "discovered_categories": [{
            "name": "string",
            "confidence": 0.0-1.0,
            "reasoning": "string",
            "traits": ["string"]
        }]
    },

    "#;

pub const KEY_CONTENT: &'static str = r#""content""#;

pub const JSON_CONTENT: &'static str = r#": {
        "main_elements": [{
            "type": "string",
            "description": "string",
            "location": "string",
            "confidence": 0.0-1.0,
            "relationships": [{
                "related_to": "string",
                "relationship_type": "string",
                "significance": "string"
            }]
        }],
        "context": {
            "setting": "string",
            "time_period": "string",
            "cultural_context": "string",
            "purpose": "string"
        },
        "discovered_patterns": [{
            "pattern_type": "string",
            "description": "string",
            "implications": "string"
        }]
    },

    "#;

pub const KEY_ANALYSIS_LAYERS: &'static str = r#""analysis_layers""#;

pub const JSON_ANALYSIS_LAYERS: &'static str = r#": {
        "visual": {
            "composition": {
                "layout": "string",
                "style": "string",
                "techniques": ["string"],
                "quality": "string"
            },
            "colors": [{
                "name": "string",
                "hex": "string",
                "dominance": 0.0-1.0,
                "psychological_impact": "string"
            }],
            "discovered_visual_elements": [{
                "element": "string",
                "significance": "string"
            }]
        },
        "semantic": {
            "themes": ["string"],
            "symbolism": [{
                "symbol": "string",
                "meaning": "string",
                "cultural_relevance": "string"
            }],
            "emotional_tone": {
                "primary": "string",
                "secondary": ["string"],
                "confidence": 0.0-1.0
            }
        },
        "technical": {
            "creation_method": "string",
            "technical_quality": {
                "resolution": "string",
                "clarity": "string",
                "issues": ["string"]
            },
            "special_characteristics": [{
                "characteristic": "string",
                "significance": "string"
            }]
        }
    },

    "#;

pub const KEY_EXTRACTED_INFORMATION: &'static str = r#""extracted_information""#;

pub const JSON_EXTRACTED_INFORMATION: &'static str = r#": {
        "text_elements": [{
            "content": "string",
            "type": "string",
            "location": "string",
            "language": "string",
            "purpose": "string"
        }],
        "data_points": [{
            "type": "string",
            "value": "string",
            "context": "string"
        }],
        "structured_data": {
            "type": "string",
            "schema": "string",
            "data": {}
        }
    },

    "#;

pub const KEY_INSIGHTS: &'static str = r#""insights""#;

pub const JSON_INSIGHTS: &'static str = r#": {
        "key_observations": ["string"],
        "unusual_elements": ["string"],
        "potential_implications": ["string"],
        "suggested_actions": ["string"]
    },

    "#;

pub const KEY_METADATA: &'static str = r#""metadata""#;

pub const JSON_METADATA: &'static str = r#": {
        "analysis_confidence": 0.0-1.0,
        "quality_indicators": {
            "image_quality": "string",
            "analysis_completeness": 0.0-1.0,
            "ambiguous_elements": ["string"]
        },
        "processing_notes": ["string"]
    },

    "#;

pub const KEY_DYNAMIC_EXTENSIONS: &'static str = r#""dynamic_extensions""#;

pub const JSON_DYNAMIC_EXTENSIONS: &'static str = r#": {
        // This section is for any additional structured data you discover
        // Feel free to add any new categories or analysis types that seem relevant
    }
}"#;

pub const SCREENSHOT_GUIDE: &'static str = r#"For this screenshot, perform deep UI/UX analysis:
- Identify UI patterns and components
- Map interaction flows and user journeys
- Extract all text content and labels
- Analyze information hierarchy
- Note accessibility considerations
- Identify platform-specific patterns
- Map navigation structure
- Flag any security/privacy concerns"#;

pub const PLATFORM_GUIDE: &'static str = r#":
- Check platform-specific design guidelines
- Identify standard platform components
- Note any platform-specific conventions"#;

pub const GENERAL_GUIDE: &'static str = r#", perform comprehensive analysis considering:
- Primary purpose
- Key elements and relationships
- Content organization
- Technical aspects
- Cultural context
- Practical applications
- Quality indicators
- Notable patterns
- Unique characteristics"#;

pub const TRAITS_HEAD: &'static str = "Additionally, evaluate each of these custom traits explicitly:\n";

pub const DISCOVERY_GUIDE: &'static str = r#"
Beyond these specific instructions, please also:

1. Pattern Recognition
- Identify any recurring patterns or motifs
- Note unusual or unexpected elements
- Recognize domain-specific conventions

2. Contextual Analysis
- Consider historical or cultural significance
- Note technological implications
- Identify industry-specific elements

3. Relationship Mapping
- Map connections between elements
- Identify hierarchical structures
- Note cause-and-effect relationships

4. Innovation Detection
- Flag unique or innovative approaches
- Identify emerging patterns
- Note creative solutions

5. Quality Assessment
- Evaluate technical execution
- Assess practical effectiveness
- Consider user experience aspects

Feel free to create new categories or analysis dimensions if you discover something interesting that doesn't fit the standard framework. Explain your reasoning for significant discoveries."#;

/// `j` is a string with the text `t`.
pub open spec fn is_str(j: Option<Json>, t: Seq<char>) -> bool {
    j matches Some(Json::Str(s)) && s@ == t
}

pub open spec fn when(b: bool, s: Seq<char>) -> Seq<char> {
    if b {
        s
    } else {
        Seq::empty()
    }
}

pub open spec fn push_if(items: Seq<Seq<char>>, b: bool, s: Seq<char>) -> Seq<Seq<char>> {
    if b {
        items.push(s)
    } else {
        items
    }
}

pub open spec fn concise_text(c: AnalysisConfig) -> Seq<char> {
    CONCISE_HEAD@ + when(c.extract_text, " Extract any visible text."@) + when(
        c.detect_faces,
        " Note any faces present."@,
    ) + when(c.identify_brands, " Identify any brands or logos."@)
}

pub open spec fn detailed_sections(c: AnalysisConfig) -> Seq<Seq<char>> {
    let base = seq![
        "Main subjects and their characteristics"@,
        "Background elements and setting"@,
        "Colors and lighting"@,
        "Notable details or unusual elements"@,
    ];
    let a = push_if(base, c.extract_text, "Any visible text or written content"@);
    let b = push_if(a, c.detect_faces, "Presence and characteristics of any faces"@);
    let d = push_if(b, c.identify_brands, "Visible brands, logos, or trademarked content"@);
    push_if(d, c.analyze_layout, "Layout and composition analysis"@)
}

pub open spec fn list_items(c: AnalysisConfig) -> Seq<Seq<char>> {
    let base = seq![
        "Main subject(s)"@,
        "Setting/location"@,
        "Notable actions/activities"@,
        "Key details"@,
    ];
    let a = push_if(base, c.extract_text, "Visible text"@);
    let b = push_if(a, c.detect_faces, "Faces present"@);
    let d = push_if(b, c.identify_brands, "Brands and logos"@);
    push_if(d, c.analyze_layout, "Layout structure"@)
}

/// The top-level keys that the structured template requires.
pub open spec fn schema_keys() -> Seq<Seq<char>> {
    seq![
        KEY_CLASSIFICATION@,
        KEY_CONTENT@,
        KEY_ANALYSIS_LAYERS@,
        KEY_EXTRACTED_INFORMATION@,
        KEY_INSIGHTS@,
        KEY_METADATA@,
        KEY_DYNAMIC_EXTENSIONS@,
    ]
}

/// The structured template: the schema with each required key in place.
pub open spec fn json_text() -> Seq<char> {
    JSON_INTRO@ + KEY_CLASSIFICATION@ + JSON_CLASSIFICATION@ + KEY_CONTENT@ + JSON_CONTENT@
        + KEY_ANALYSIS_LAYERS@ + JSON_ANALYSIS_LAYERS@ + KEY_EXTRACTED_INFORMATION@
        + JSON_EXTRACTED_INFORMATION@ + KEY_INSIGHTS@ + JSON_INSIGHTS@ + KEY_METADATA@
        + JSON_METADATA@ + KEY_DYNAMIC_EXTENSIONS@ + JSON_DYNAMIC_EXTENSIONS@
}

pub open spec fn base_text(f: PromptFormat, c: AnalysisConfig) -> Seq<char> {
    match f {
        PromptFormat::Concise => concise_text(c),
        PromptFormat::Detailed => DETAILED_HEAD@ + bullets(detailed_sections(c)),
        PromptFormat::Json => json_text(),
        PromptFormat::List => LIST_HEAD@ + numbered(list_items(c)),
    }
}

pub open spec fn category_label(c: ContentCategory) -> Seq<char> {
    match c {
        ContentCategory::Screenshot { .. } => "screenshot"@,
        ContentCategory::UserInterface => "user interface"@,
        ContentCategory::SocialMediaPost => "social media post"@,
        ContentCategory::DigitalArt => "digital art"@,
        ContentCategory::Website => "website"@,
        ContentCategory::Software => "software"@,
        ContentCategory::VideoGame => "video game"@,
        ContentCategory::Document => "document"@,
        ContentCategory::Receipt => "receipt"@,
        ContentCategory::BusinessCard => "business card"@,
        ContentCategory::Invoice => "invoice"@,
        ContentCategory::Form => "form"@,
        ContentCategory::Identification => "identification document"@,
        ContentCategory::Certificate => "certificate"@,
        ContentCategory::Photo => "photo"@,
        ContentCategory::Artwork => "artwork"@,
        ContentCategory::Illustration => "illustration"@,
        ContentCategory::Meme => "meme"@,
        ContentCategory::Comic => "comic"@,
        ContentCategory::Advertisement => "advertisement"@,
        ContentCategory::Poster => "poster"@,
        ContentCategory::Recipe => "recipe"@,
        ContentCategory::Tutorial => "tutorial"@,
        ContentCategory::Diagram => "diagram"@,
        ContentCategory::Blueprint => "blueprint"@,
        ContentCategory::Schematic => "schematic"@,
        ContentCategory::Manual => "manual"@,
        ContentCategory::Guide => "guide"@,
        ContentCategory::Chart => "chart"@,
        ContentCategory::Graph => "graph"@,
        ContentCategory::Dashboard => "dashboard"@,
        ContentCategory::Infographic => "infographic"@,
        ContentCategory::Timeline => "timeline"@,
        ContentCategory::Flowchart => "flowchart"@,
        ContentCategory::MindMap => "mind map"@,
        ContentCategory::GeoMap => "map"@,
        ContentCategory::FloorPlan => "floor plan"@,
        ContentCategory::Architecture => "architectural image"@,
        ContentCategory::Landscape => "landscape"@,
        ContentCategory::Satellite => "satellite image"@,
        ContentCategory::Medical => "medical image"@,
        ContentCategory::Scientific => "scientific image"@,
        ContentCategory::Technical => "technical image"@,
        ContentCategory::Educational => "educational material"@,
        ContentCategory::Legal => "legal document"@,
        ContentCategory::Financial => "financial document"@,
        ContentCategory::Discovered { .. } => "discovered category"@,
    }
}

/// Guidance appended for a content category.
pub open spec fn category_text(c: ContentCategory) -> Seq<char> {
    match c {
        ContentCategory::Screenshot { platform } => SCREENSHOT_GUIDE@ + match platform {
            Some(p) => "\n\nSpecific to "@ + p@ + PLATFORM_GUIDE@,
            None => Seq::empty(),
        },
        ContentCategory::Discovered { name, traits, .. } => "For this discovered category ("@
            + name@ + "), focus on the traits that define it"@ + if traits@.len() == 0 {
            "."@
        } else {
            ":\n"@ + bullets(texts(traits@))
        },
        _ => "For this "@ + category_label(c) + GENERAL_GUIDE@,
    }
}

/// The category guidance of a configuration, after its separator.
pub open spec fn category_part(c: AnalysisConfig) -> Seq<char> {
    match c.content_category {
        Some(cat) => "\n\n"@ + category_text(cat),
        None => Seq::empty(),
    }
}

/// The custom traits of a configuration as a numbered list, after its
/// separator and heading.
pub open spec fn traits_part(c: AnalysisConfig) -> Seq<char> {
    when(c.custom_traits@.len() > 0, "\n\n"@ + TRAITS_HEAD@ + numbered(texts(c.custom_traits@)))
}

/// The whole instruction text for a format and a configuration.
pub open spec fn prompt_text(f: PromptFormat, c: AnalysisConfig) -> Seq<char> {
    base_text(f, c) + category_part(c) + traits_part(c) + "\n\n"@ + DISCOVERY_GUIDE@
}

/// Instruction text sent to a backend, with the format and configuration it
/// was built from.
#[derive(Clone, Debug)]
pub struct ImagePrompt {
    pub text: String,
    pub format: PromptFormat,
    pub config: AnalysisConfig,
}

impl ContentCategory {
    /// A short name of the category, as used in guidance text.
    pub fn label(&self) -> (r: &'static str)
        ensures
            r@ == category_label(*self),
    {
        match self {
            ContentCategory::Screenshot { .. } => "screenshot",
            ContentCategory::UserInterface => "user interface",
            ContentCategory::SocialMediaPost => "social media post",
            ContentCategory::DigitalArt => "digital art",
            ContentCategory::Website => "website",
            ContentCategory::Software => "software",
            ContentCategory::VideoGame => "video game",
            ContentCategory::Document => "document",
            ContentCategory::Receipt => "receipt",
            ContentCategory::BusinessCard => "business card",
            ContentCategory::Invoice => "invoice",
            ContentCategory::Form => "form",
            ContentCategory::Identification => "identification document",
            ContentCategory::Certificate => "certificate",
            ContentCategory::Photo => "photo",
            ContentCategory::Artwork => "artwork",
            ContentCategory::Illustration => "illustration",
            ContentCategory::Meme => "meme",
            ContentCategory::Comic => "comic",
            ContentCategory::Advertisement => "advertisement",
            ContentCategory::Poster => "poster",
            ContentCategory::Recipe => "recipe",
            ContentCategory::Tutorial => "tutorial",
            ContentCategory::Diagram => "diagram",
            ContentCategory::Blueprint => "blueprint",
            ContentCategory::Schematic => "schematic",
            ContentCategory::Manual => "manual",
            ContentCategory::Guide => "guide",
            ContentCategory::Chart => "chart",
            ContentCategory::Graph => "graph",
            ContentCategory::Dashboard => "dashboard",
            ContentCategory::Infographic => "infographic",
            ContentCategory::Timeline => "timeline",
            ContentCategory::Flowchart => "flowchart",
            ContentCategory::MindMap => "mind map",
            ContentCategory::GeoMap => "map",
            ContentCategory::FloorPlan => "floor plan",
            ContentCategory::Architecture => "architectural image",
            ContentCategory::Landscape => "landscape",
            ContentCategory::Satellite => "satellite image",
            ContentCategory::Medical => "medical image",
            ContentCategory::Scientific => "scientific image",
            ContentCategory::Technical => "technical image",
            ContentCategory::Educational => "educational material",
            ContentCategory::Legal => "legal document",
            ContentCategory::Financial => "financial document",
            ContentCategory::Discovered { .. } => "discovered category",
        }
    }
}


impl ImagePrompt {
    /// The prompt for `format` under the default configuration.
    pub fn new(format: PromptFormat) -> (r: Self)
        ensures
            r.format == format,
            is_default_config(r.config),
            r.text@ == prompt_text(format, r.config),
    {
        Self::with_config(format, AnalysisConfig::default())
    }

    /// The prompt for `format`, with category guidance, custom traits and the
    /// discovery guidance appended in that order.
    pub fn with_config(format: PromptFormat, config: AnalysisConfig) -> (r: Self)
        ensures
            r.format == format,
            r.config == config,
            r.text@ == prompt_text(format, config),
    {
        let mut text = Self::base_prompt(format, &config);
        let ghost t0 = text@;
        if let Some(category) = &config.content_category {
            text.append("\n\n");
            let guide = Self::get_category_specific_instructions(category);
            text.append(guide.as_str());
        }
        assert(text@ =~= t0 + category_part(config));
        let ghost t1 = text@;
        if config.custom_traits.len() > 0 {
            text.append("\n\n");
            text.append(TRAITS_HEAD);
            let traits = numbered_list(&config.custom_traits);
            text.append(traits.as_str());
        }
        assert(text@ =~= t1 + traits_part(config));
        text.append("\n\n");
        let discovery = Self::add_dynamic_discovery_prompt();
        text.append(discovery.as_str());
        ImagePrompt { text, format, config }
    }

    fn base_prompt(format: PromptFormat, config: &AnalysisConfig) -> (r: String)
        ensures
            r@ == base_text(format, *config),
    {
        match format {
            PromptFormat::Concise => Self::get_concise_prompt(config),
            PromptFormat::Detailed => Self::get_detailed_prompt(config),
            PromptFormat::Json => Self::get_json_prompt(config),
            PromptFormat::List => Self::get_list_prompt(config),
        }
    }

    fn get_concise_prompt(config: &AnalysisConfig) -> (r: String)
        ensures
            r@ == concise_text(*config),
    {
        let mut prompt = String::from_str(CONCISE_HEAD);
        if config.extract_text {
            prompt.append(" Extract any visible text.");
        }
        if config.detect_faces {
            prompt.append(" Note any faces present.");
        }
        if config.identify_brands {
            prompt.append(" Identify any brands or logos.");
        }
        prompt
    }

    fn get_detailed_prompt(config: &AnalysisConfig) -> (r: String)
        ensures
            r@ == DETAILED_HEAD@ + bullets(detailed_sections(*config)),
    {
        let mut sections: Vec<String> = Vec::new();
        add_item(&mut sections, "Main subjects and their characteristics");
        add_item(&mut sections, "Background elements and setting");
        add_item(&mut sections, "Colors and lighting");
        add_item(&mut sections, "Notable details or unusual elements");
        let ghost c = *config;
        let ghost base = texts(sections@);
        assert(base =~= seq![
            "Main subjects and their characteristics"@,
            "Background elements and setting"@,
            "Colors and lighting"@,
            "Notable details or unusual elements"@,
        ]);
        if config.extract_text {
            add_item(&mut sections, "Any visible text or written content");
        }
        if config.detect_faces {
            add_item(&mut sections, "Presence and characteristics of any faces");
        }
        if config.identify_brands {
            add_item(&mut sections, "Visible brands, logos, or trademarked content");
        }
        if config.analyze_layout {
            add_item(&mut sections, "Layout and composition analysis");
        }
        assert(texts(sections@) == detailed_sections(c));
        let mut prompt = String::from_str(DETAILED_HEAD);
        let list = bullet_list(&sections);
        prompt.append(list.as_str());
        prompt
    }

    fn get_list_prompt(config: &AnalysisConfig) -> (r: String)
        ensures
            r@ == LIST_HEAD@ + numbered(list_items(*config)),
    {
        let mut items: Vec<String> = Vec::new();
        add_item(&mut items, "Main subject(s)");
        add_item(&mut items, "Setting/location");
        add_item(&mut items, "Notable actions/activities");
        add_item(&mut items, "Key details");
        let ghost c = *config;
        let ghost base = texts(items@);
        assert(base =~= seq![
            "Main subject(s)"@,
            "Setting/location"@,
            "Notable actions/activities"@,
            "Key details"@,
        ]);
        if config.extract_text {
            add_item(&mut items, "Visible text");
        }
        if config.detect_faces {
            add_item(&mut items, "Faces present");
        }
        if config.identify_brands {
            add_item(&mut items, "Brands and logos");
        }
        if config.analyze_layout {
            add_item(&mut items, "Layout structure");
        }
        assert(texts(items@) == list_items(c));
        let mut prompt = String::from_str(LIST_HEAD);
        let list = numbered_list(&items);
        prompt.append(list.as_str());
        prompt
    }

    /// The structured template does not depend on the toggles.
    fn get_json_prompt(_config: &AnalysisConfig) -> (r: String)
        ensures
            r@ == json_text(),
    {
        let mut prompt = String::from_str(JSON_INTRO);
        prompt.append(KEY_CLASSIFICATION);
        prompt.append(JSON_CLASSIFICATION);
        prompt.append(KEY_CONTENT);
        prompt.append(JSON_CONTENT);
        prompt.append(KEY_ANALYSIS_LAYERS);
        prompt.append(JSON_ANALYSIS_LAYERS);
        prompt.append(KEY_EXTRACTED_INFORMATION);
        prompt.append(JSON_EXTRACTED_INFORMATION);
        prompt.append(KEY_INSIGHTS);
        prompt.append(JSON_INSIGHTS);
        prompt.append(KEY_METADATA);
        prompt.append(JSON_METADATA);
        prompt.append(KEY_DYNAMIC_EXTENSIONS);
        prompt.append(JSON_DYNAMIC_EXTENSIONS);
        prompt
    }

    fn get_category_specific_instructions(category: &ContentCategory) -> (r: String)
        ensures
            r@ == category_text(*category),
    {
        match category {
            ContentCategory::Screenshot { platform } => {
                let mut guide = String::from_str(SCREENSHOT_GUIDE);
                if let Some(name) = platform {
                    guide.append("\n\nSpecific to ");
                    guide.append(name.as_str());
                    guide.append(PLATFORM_GUIDE);
                }
                guide
            },
            ContentCategory::Discovered { name, traits, .. } => {
                let mut guide = String::from_str("For this discovered category (");
                guide.append(name.as_str());
                guide.append("), focus on the traits that define it");
                if traits.len() == 0 {
                    guide.append(".");
                } else {
                    guide.append(":\n");
                    let list = bullet_list(traits);
                    guide.append(list.as_str());
                }
                guide
            },
            _ => {
                let mut guide = String::from_str("For this ");
                guide.append(category.label());
                guide.append(GENERAL_GUIDE);
                guide
            },
        }
    }

    fn add_dynamic_discovery_prompt() -> (r: String)
        ensures
            r@ == DISCOVERY_GUIDE@,
    {
        String::from_str(DISCOVERY_GUIDE)
    }

    /// The instruction text as the content of a hosted-backend user message:
    /// a text part, then an image part whose URL the caller completes with the
    /// image data.
    pub fn to_openai_content(&self) -> (r: Json)
        ensures
            r matches Json::Array(items) && items@.len() == 2 && is_str(
                json_field(items@[0], "type"@),
                "text"@,
            ) && is_str(json_field(items@[0], "text"@), self.text@) && is_str(
                json_field(items@[1], "type"@),
                "image_url"@,
            ) && (json_field(items@[1], "image_url"@) matches Some(u) && is_str(
                json_field(u, "url"@),
                IMAGE_URL_PREFIX@,
            )),
    {
        proof {
            reveal_strlit("type");
            reveal_strlit("text");
            reveal_strlit("image_url");
            reveal_strlit("url");
        }
        let text_members = vec![
            (String::from_str("type"), Json::Str(String::from_str("text"))),
            (String::from_str("text"), Json::Str(String::from_str(self.text.as_str()))),
        ];
        assert(text_members@.drop_first()[0] == text_members@[1]);
        assert(member(text_members@, "type"@) == Some(text_members@[0].1));
        assert("type"@ != "text"@) by {
            assert("type"@[1] == 'y' && "text"@[1] == 'e');
        }
        assert(member(text_members@.drop_first(), "text"@) == Some(text_members@[1].1));
        assert(member(text_members@, "text"@) == Some(text_members@[1].1));
        let text_part = Json::Object(text_members);
        let url_members = vec![(String::from_str("url"), Json::Str(String::from_str(IMAGE_URL_PREFIX)))];
        assert(member(url_members@, "url"@) == Some(url_members@[0].1));
        let url = Json::Object(url_members);
        let image_members = vec![
            (String::from_str("type"), Json::Str(String::from_str("image_url"))),
            (String::from_str("image_url"), url),
        ];
        assert(image_members@.drop_first()[0] == image_members@[1]);
        assert(member(image_members@, "type"@) == Some(image_members@[0].1));
        assert("type"@ != "image_url"@) by {
            assert("type"@.len() != "image_url"@.len());
        }
        assert(member(image_members@.drop_first(), "image_url"@) == Some(image_members@[1].1));
        assert(member(image_members@, "image_url"@) == Some(image_members@[1].1));
        let image_part = Json::Object(image_members);
        Json::Array(vec![text_part, image_part])
    }

    /// The instruction text as the local backend takes it.
    pub fn to_ollama_prompt(&self) -> (r: String)
        ensures
            r@ == self.text@,
    {
        String::from_str(self.text.as_str())
    }
}

proof fn lemma_json_text_names_schema_keys()
    ensures
        forall|i: int| 0 <= i < schema_keys().len() ==> contains(json_text(), #[trigger] schema_keys()[i]),
{
    let j = json_text();
    let a0 = JSON_INTRO@;
    let b0 = JSON_CLASSIFICATION@ + KEY_CONTENT@ + JSON_CONTENT@ + KEY_ANALYSIS_LAYERS@
        + JSON_ANALYSIS_LAYERS@ + KEY_EXTRACTED_INFORMATION@ + JSON_EXTRACTED_INFORMATION@
        + KEY_INSIGHTS@ + JSON_INSIGHTS@ + KEY_METADATA@ + JSON_METADATA@
        + KEY_DYNAMIC_EXTENSIONS@ + JSON_DYNAMIC_EXTENSIONS@;
    assert(j =~= a0 + KEY_CLASSIFICATION@ + b0);
    lemma_contains_middle(a0, KEY_CLASSIFICATION@, b0);
    let a1 = a0 + KEY_CLASSIFICATION@ + JSON_CLASSIFICATION@;
    let b1 = JSON_CONTENT@ + KEY_ANALYSIS_LAYERS@ + JSON_ANALYSIS_LAYERS@
        + KEY_EXTRACTED_INFORMATION@ + JSON_EXTRACTED_INFORMATION@ + KEY_INSIGHTS@
        + JSON_INSIGHTS@ + KEY_METADATA@ + JSON_METADATA@ + KEY_DYNAMIC_EXTENSIONS@
        + JSON_DYNAMIC_EXTENSIONS@;
    assert(j =~= a1 + KEY_CONTENT@ + b1);
    lemma_contains_middle(a1, KEY_CONTENT@, b1);
    let a2 = a1 + KEY_CONTENT@ + JSON_CONTENT@;
    let b2 = JSON_ANALYSIS_LAYERS@ + KEY_EXTRACTED_INFORMATION@ + JSON_EXTRACTED_INFORMATION@
        + KEY_INSIGHTS@ + JSON_INSIGHTS@ + KEY_METADATA@ + JSON_METADATA@
        + KEY_DYNAMIC_EXTENSIONS@ + JSON_DYNAMIC_EXTENSIONS@;
    assert(j =~= a2 + KEY_ANALYSIS_LAYERS@ + b2);
    lemma_contains_middle(a2, KEY_ANALYSIS_LAYERS@, b2);
    let a3 = a2 + KEY_ANALYSIS_LAYERS@ + JSON_ANALYSIS_LAYERS@;
    let b3 = JSON_EXTRACTED_INFORMATION@ + KEY_INSIGHTS@ + JSON_INSIGHTS@ + KEY_METADATA@
        + JSON_METADATA@ + KEY_DYNAMIC_EXTENSIONS@ + JSON_DYNAMIC_EXTENSIONS@;
    assert(j =~= a3 + KEY_EXTRACTED_INFORMATION@ + b3);
    lemma_contains_middle(a3, KEY_EXTRACTED_INFORMATION@, b3);
    let a4 = a3 + KEY_EXTRACTED_INFORMATION@ + JSON_EXTRACTED_INFORMATION@;
    let b4 = JSON_INSIGHTS@ + KEY_METADATA@ + JSON_METADATA@ + KEY_DYNAMIC_EXTENSIONS@
        + JSON_DYNAMIC_EXTENSIONS@;
    assert(j =~= a4 + KEY_INSIGHTS@ + b4);
    lemma_contains_middle(a4, KEY_INSIGHTS@, b4);
    let a5 = a4 + KEY_INSIGHTS@ + JSON_INSIGHTS@;
    let b5 = JSON_METADATA@ + KEY_DYNAMIC_EXTENSIONS@ + JSON_DYNAMIC_EXTENSIONS@;
    assert(j =~= a5 + KEY_METADATA@ + b5);
    lemma_contains_middle(a5, KEY_METADATA@, b5);
    let a6 = a5 + KEY_METADATA@ + JSON_METADATA@;
    let b6 = JSON_DYNAMIC_EXTENSIONS@;
    assert(j =~= a6 + KEY_DYNAMIC_EXTENSIONS@ + b6);
    lemma_contains_middle(a6, KEY_DYNAMIC_EXTENSIONS@, b6);
    assert(schema_keys()[0] == KEY_CLASSIFICATION@);
    assert(schema_keys()[1] == KEY_CONTENT@);
    assert(schema_keys()[2] == KEY_ANALYSIS_LAYERS@);
    assert(schema_keys()[3] == KEY_EXTRACTED_INFORMATION@);
    assert(schema_keys()[4] == KEY_INSIGHTS@);
    assert(schema_keys()[5] == KEY_METADATA@);
    assert(schema_keys()[6] == KEY_DYNAMIC_EXTENSIONS@);
}

/// Whatever the configuration, the structured prompt names every required
/// top-level key of its schema.
pub proof fn lemma_json_prompt_names_schema_keys(config: AnalysisConfig)
    ensures
        forall|i: int|
            0 <= i < schema_keys().len() ==> contains(
                prompt_text(PromptFormat::Json, config),
                #[trigger] schema_keys()[i],
            ),
{
    lemma_json_text_names_schema_keys();
    let rest = category_part(config) + traits_part(config) + "\n\n"@ + DISCOVERY_GUIDE@;
    assert(prompt_text(PromptFormat::Json, config) =~= json_text() + rest);
    assert forall|i: int| 0 <= i < schema_keys().len() implies contains(
        prompt_text(PromptFormat::Json, config),
        #[trigger] schema_keys()[i],
    ) by {
        lemma_contains_prefix(json_text(), schema_keys()[i], rest);
    }
}

} // verus!
