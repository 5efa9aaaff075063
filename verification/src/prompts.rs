//! Prompts for the language models: model configurations and their
//! selection by model family, prompt templates, the context fitted into a
//! model's window, the instruction formats of the model families, token
//! estimates, and the shortening of prompts that are too long.
use vstd::prelude::*;
use crate::text::{lemma_byte_len_prefix_mono, 
    chars_of, string_from_chars, append_chars, contains, contains_chars, str_eq, replace,
    replace_chars, occurs_at, find_from, join, join_chars, views, lines, lines_of, byte_len,
    at_char_boundary, char_index, char_index_at_byte, lemma_byte_len_encoding,
};
use crate::unicode::{lowercase, to_lowercase};
use crate::document::str_views;

verus! {

/// The text of the "comprehensive_analysis" template.
pub const COMPREHENSIVE_ANALYSIS_TEMPLATE: &'static str = r#"Analyze the following resume against the job description with enhanced AI analysis.

RESUME CONTENT:
{resume_content}

JOB DESCRIPTION:
{job_description}

CONTEXT ANALYSIS:
{industry_analysis}
{semantic_analysis}

ANALYSIS FOCUS:
Please focus your analysis on: {analysis_focus}

Please provide a comprehensive analysis covering:
1. Skills alignment and gaps
2. Experience relevance and level assessment
3. Industry-specific insights
4. ATS compatibility considerations
5. Specific recommendations for improvement

Output format: {output_format}

Provide detailed, actionable insights that will help improve the candidate's resume effectiveness."#;

/// The text of the "skills_analysis" template.
pub const SKILLS_ANALYSIS_TEMPLATE: &'static str = r#"Perform a detailed skills analysis of this resume against the job requirements.

RESUME:
{resume_content}

JOB REQUIREMENTS:
{job_description}

SEMANTIC CONTEXT:
{semantic_analysis}

Focus on:
- Technical skills matching
- Experience level appropriateness  
- Missing critical skills
- Skill development recommendations

Provide specific, actionable recommendations in {output_format} format."#;

/// The text of the "ats_optimization" template.
pub const ATS_OPTIMIZATION_TEMPLATE: &'static str = r#"Analyze this resume for ATS (Applicant Tracking System) optimization.

RESUME:
{resume_content}

TARGET JOB:
{job_description}

Provide specific recommendations for:
1. Keyword optimization
2. Format improvements for ATS parsing
3. Section organization
4. Content structure optimization

Output in {output_format} format with specific, implementable suggestions."#;

/// How a model is prompted.
#[derive(Debug, Clone)]
pub struct ModelConfig {
    pub model_name: String,
    pub max_context_length: usize,
    /// The sampling temperature that suits the model, in hundredths.
    pub optimal_temperature_centi: u32,
    pub supports_system_message: bool,
    /// "alpaca", "chatML", "llama2" or "mistral".
    pub instruction_format: String,
    pub stop_tokens: Vec<String>,
    pub special_tokens: Vec<(String, String)>,
}

/// The content of a model configuration: name, context length,
/// temperature in hundredths, system message support, instruction format.
pub type ConfigView = (Seq<char>, nat, nat, bool, Seq<char>);

/// The content of a model configuration.
pub open spec fn config_view(c: ModelConfig) -> ConfigView {
    (
        c.model_name@,
        c.max_context_length as nat,
        c.optimal_temperature_centi as nat,
        c.supports_system_message,
        c.instruction_format@,
    )
}

/// The model configurations the engine knows.
pub open spec fn known_configs() -> Seq<ConfigView> {
    seq![
        ("llama2"@, 4096nat, 10nat, true, "llama2"@),
        ("mistral"@, 8192nat, 10nat, false, "mistral"@),
        ("codellama"@, 4096nat, 5nat, true, "llama2"@),
        ("neural-chat"@, 4096nat, 10nat, true, "chatML"@),
        ("default"@, 2048nat, 10nat, false, "alpaca"@),
    ]
}

/// Whether `name` names a known configuration exactly.
pub open spec fn is_known_config(name: Seq<char>) -> bool {
    exists|i: int| 0 <= i < known_configs().len() && #[trigger] known_configs()[i].0 == name
}

/// The names of the known configurations differ.
proof fn lemma_known_config_names_distinct()
    ensures
        forall|a: int, b: int| 0 <= a < b < known_configs().len() ==> known_configs()[a].0 != known_configs()[b].0,
{
    reveal_strlit("llama2");
    reveal_strlit("mistral");
    reveal_strlit("codellama");
    reveal_strlit("neural-chat");
    reveal_strlit("default");
    assert("llama2"@.len() != "mistral"@.len());
    assert("llama2"@.len() != "codellama"@.len());
    assert("llama2"@.len() != "neural-chat"@.len());
    assert("llama2"@.len() != "default"@.len());
    assert("mistral"@.len() != "codellama"@.len());
    assert("mistral"@.len() != "neural-chat"@.len());
    assert("mistral"@[0] != "default"@[0]);
    assert("codellama"@.len() != "neural-chat"@.len());
    assert("codellama"@.len() != "default"@.len());
    assert("neural-chat"@.len() != "default"@.len());
}

/// The configuration used for a model: its own where one is known by that
/// name, else that of its family (Llama, Mistral, code models, chat
/// models) by the lowercased name, else the default.
pub open spec fn config_name_for(model: Seq<char>) -> Seq<char> {
    let lc = lowercase(model);
    if is_known_config(model) {
        model
    } else if contains(lc, "llama"@) {
        "llama2"@
    } else if contains(lc, "mistral"@) {
        "mistral"@
    } else if contains(lc, "code"@) || contains(lc, "starcoder"@) {
        "codellama"@
    } else if contains(lc, "neural"@) || contains(lc, "chat"@) {
        "neural-chat"@
    } else {
        "default"@
    }
}

/// The known configuration named `name`.
pub open spec fn config_named(name: Seq<char>) -> ConfigView {
    known_configs()[choose|i: int| 0 <= i < known_configs().len() && known_configs()[i].0 == name]
}

/// Estimated tokens of a text of `n` characters: one per four, rounded up.
pub open spec fn tokens_for(n: nat) -> nat {
    (n + 3) / 4
}

/// The token estimate adjusted to the model: a tenth more for Llama
/// models, a tenth less for Mistral, a fifth more for code models.
pub open spec fn adjusted_tokens(model: Seq<char>, t: nat) -> nat {
    if contains(model, "llama"@) {
        t * 11 / 10
    } else if contains(model, "mistral"@) {
        t * 9 / 10
    } else if contains(model, "code"@) {
        t * 12 / 10
    } else {
        t
    }
}

/// `prompt` in the Alpaca instruction format.
pub open spec fn alpaca_style(prompt: Seq<char>) -> Seq<char> {
    "### Instruction:\n"@ + prompt + "\n\n### Response:\n"@
}

/// `prompt` in the ChatML format, with the analyzer's system message.
pub open spec fn chatml_style(prompt: Seq<char>) -> Seq<char> {
    "<|im_start|>system\nYou are an expert resume analyzer and career consultant.<|im_end|>\n<|im_start|>user\n"@
        + prompt + "<|im_end|>\n<|im_start|>assistant\n"@
}

/// `prompt` in the Llama 2 format, with the analyzer's system message.
pub open spec fn llama2_style(prompt: Seq<char>) -> Seq<char> {
    "[INST] <<SYS>>\nYou are an expert resume analyzer. Provide detailed, actionable analysis.\n<</SYS>>\n\n"@
        + prompt + " [/INST]"@
}

/// `prompt` in the Mistral format.
pub open spec fn mistral_style(prompt: Seq<char>) -> Seq<char> {
    "<s>[INST] "@ + prompt + " [/INST]"@
}

/// `prompt` in the instruction format `format`; unknown formats leave it
/// as it is.
pub open spec fn styled(format: Seq<char>, prompt: Seq<char>) -> Seq<char> {
    if format == "alpaca"@ {
        alpaca_style(prompt)
    } else if format == "chatML"@ {
        chatml_style(prompt)
    } else if format == "llama2"@ {
        llama2_style(prompt)
    } else if format == "mistral"@ {
        mistral_style(prompt)
    } else {
        prompt
    }
}

/// Estimated tokens of `text`: one per four characters, rounded up.
pub fn estimate_text_tokens(text: &str) -> (res: usize)
    ensures
        res == tokens_for(text@.len()),
{
    let n = chars_of(text).len();
    n / 4 + if n % 4 == 0 { 0 } else { 1 }
}

/// `prompt` in the Alpaca instruction format.
pub fn format_alpaca_style(prompt: &str) -> (res: String)
    ensures
        res@ == alpaca_style(prompt@),
{
    let mut v: Vec<char> = Vec::new();
    append_chars(&mut v, &chars_of("### Instruction:\n"));
    append_chars(&mut v, &chars_of(prompt));
    append_chars(&mut v, &chars_of("\n\n### Response:\n"));
    string_from_chars(&v)
}

/// `prompt` in the ChatML format.
pub fn format_chatml_style(prompt: &str) -> (res: String)
    ensures
        res@ == chatml_style(prompt@),
{
    let mut v: Vec<char> = Vec::new();
    append_chars(
        &mut v,
        &chars_of(
            "<|im_start|>system\nYou are an expert resume analyzer and career consultant.<|im_end|>\n<|im_start|>user\n",
        ),
    );
    append_chars(&mut v, &chars_of(prompt));
    append_chars(&mut v, &chars_of("<|im_end|>\n<|im_start|>assistant\n"));
    string_from_chars(&v)
}

/// `prompt` in the Llama 2 format.
pub fn format_llama2_style(prompt: &str) -> (res: String)
    ensures
        res@ == llama2_style(prompt@),
{
    let mut v: Vec<char> = Vec::new();
    append_chars(
        &mut v,
        &chars_of(
            "[INST] <<SYS>>\nYou are an expert resume analyzer. Provide detailed, actionable analysis.\n<</SYS>>\n\n",
        ),
    );
    append_chars(&mut v, &chars_of(prompt));
    append_chars(&mut v, &chars_of(" [/INST]"));
    string_from_chars(&v)
}

/// `prompt` in the Mistral format.
pub fn format_mistral_style(prompt: &str) -> (res: String)
    ensures
        res@ == mistral_style(prompt@),
{
    let mut v: Vec<char> = Vec::new();
    append_chars(&mut v, &chars_of("<s>[INST] "));
    append_chars(&mut v, &chars_of(prompt));
    append_chars(&mut v, &chars_of(" [/INST]"));
    string_from_chars(&v)
}

/// `prompt` in the instruction format `format`.
pub fn format_in_style(format: &str, prompt: &str) -> (res: String)
    ensures
        res@ == styled(format@, prompt@),
{
    if str_eq(format, "alpaca") {
        format_alpaca_style(prompt)
    } else if str_eq(format, "chatML") {
        format_chatml_style(prompt)
    } else if str_eq(format, "llama2") {
        format_llama2_style(prompt)
    } else if str_eq(format, "mistral") {
        format_mistral_style(prompt)
    } else {
        prompt.to_owned()
    }
}

/// A model configuration with the given contents.
fn new_config(
    name: &str,
    max_context_length: usize,
    temperature_centi: u32,
    system: bool,
    format: &str,
    stop_tokens: Vec<String>,
    special_tokens: Vec<(String, String)>,
) -> (res: ModelConfig)
    ensures
        config_view(res) == (name@, max_context_length as nat, temperature_centi as nat, system, format@),
{
    ModelConfig {
        model_name: name.to_owned(),
        max_context_length,
        optimal_temperature_centi: temperature_centi,
        supports_system_message: system,
        instruction_format: format.to_owned(),
        stop_tokens,
        special_tokens,
    }
}

/// The model configurations the engine knows, in the order of
/// `known_configs`.
pub fn build_model_configs() -> (res: Vec<ModelConfig>)
    ensures
        res@.map_values(|c: ModelConfig| config_view(c)) == known_configs(),
{
    let res = vec![
        new_config(
            "llama2",
            4096,
            10,
            true,
            "llama2",
            vec!["</s>".to_owned(), "[/INST]".to_owned()],
            vec![("bos".to_owned(), "<s>".to_owned()), ("eos".to_owned(), "</s>".to_owned())],
        ),
        new_config("mistral", 8192, 10, false, "mistral", vec!["</s>".to_owned()], Vec::new()),
        new_config(
            "codellama",
            4096,
            5,
            true,
            "llama2",
            vec!["</s>".to_owned(), "[/INST]".to_owned()],
            Vec::new(),
        ),
        new_config("neural-chat", 4096, 10, true, "chatML", vec!["<|im_end|>".to_owned()], Vec::new()),
        new_config("default", 2048, 10, false, "alpaca", vec!["###".to_owned()], Vec::new()),
    ];
    assert(res@.map_values(|c: ModelConfig| config_view(c)) =~= known_configs());
    res
}


/// A prompt template.
#[derive(Debug, Clone)]
pub struct PromptTemplate {
    pub name: String,
    pub category: String,
    /// The text, with `{variable}` placeholders.
    pub template: String,
    pub variables: Vec<String>,
    /// Texts that replace the template for particular models.
    pub model_specific: Vec<(String, String)>,
    pub context_window_size: usize,
    /// The sampling temperature, in hundredths.
    pub temperature_centi: u32,
    pub max_tokens: Option<usize>,
}

/// The content of a template: name, category, text, variables, context
/// window, temperature in hundredths, token limit.
pub type TemplateView = (Seq<char>, Seq<char>, Seq<char>, Seq<Seq<char>>, nat, nat, Option<nat>);

/// The content of a template.
pub open spec fn template_view(t: PromptTemplate) -> TemplateView {
    (
        t.name@,
        t.category@,
        t.template@,
        t.variables@.map_values(|v: String| v@),
        t.context_window_size as nat,
        t.temperature_centi as nat,
        match t.max_tokens {
            Some(n) => Some(n as nat),
            None => None,
        },
    )
}

/// How the context of a prompt is fitted into a model's window.
#[derive(Debug, Clone)]
pub struct ContextStrategy {
    pub name: String,
    /// The share of the context window to use, in percent.
    pub max_context_percent: u32,
    /// The optional context items, most important first.
    pub prioritization: Vec<String>,
    /// "truncate_context", "summarize_sections" or "remove_examples".
    pub compression_technique: String,
}

/// The content of a strategy: name, percent of the window, priorities,
/// compression technique.
pub type StrategyView = (Seq<char>, nat, Seq<Seq<char>>, Seq<char>);

/// The content of a strategy.
pub open spec fn strategy_view(s: ContextStrategy) -> StrategyView {
    (
        s.name@,
        s.max_context_percent as nat,
        s.prioritization@.map_values(|v: String| v@),
        s.compression_technique@,
    )
}

/// The context strategies the engine knows, with their keys.
pub open spec fn known_strategies() -> Seq<(Seq<char>, StrategyView)> {
    seq![
        ("comprehensive"@, ("Comprehensive Analysis"@, 80nat, seq!["industry_analysis"@, "semantic_analysis"@, "focus_areas"@], "summarize_sections"@)),
        ("technical_focused"@, ("Technical Focus"@, 70nat, seq!["semantic_analysis"@, "focus_areas"@, "industry_analysis"@], "remove_examples"@)),
        ("analytical"@, ("Analytical Deep Dive"@, 85nat, seq!["industry_analysis"@, "semantic_analysis"@, "focus_areas"@], "summarize_sections"@)),
        ("default"@, ("Balanced Approach"@, 75nat, seq!["focus_areas"@, "semantic_analysis"@, "industry_analysis"@], "truncate_context"@)),
    ]
}

/// The prompt templates the engine knows, with their keys.
pub open spec fn known_templates() -> Seq<(Seq<char>, TemplateView)> {
    seq![
        ("comprehensive_analysis"@, ("Comprehensive Resume Analysis"@, "analysis"@, COMPREHENSIVE_ANALYSIS_TEMPLATE@, seq!["resume_content"@, "job_description"@, "industry_analysis"@, "semantic_analysis"@, "analysis_focus"@, "output_format"@], 6000nat, 10nat, Some(2048nat))),
        ("skills_analysis"@, ("Skills-Focused Analysis"@, "analysis"@, SKILLS_ANALYSIS_TEMPLATE@, seq!["resume_content"@, "job_description"@, "semantic_analysis"@, "output_format"@], 4000nat, 5nat, Some(1024nat))),
        ("ats_optimization"@, ("ATS Optimization Analysis"@, "optimization"@, ATS_OPTIMIZATION_TEMPLATE@, seq!["resume_content"@, "job_description"@, "output_format"@], 3000nat, 5nat, Some(1024nat))),
    ]
}


/// Whether a template is known under `key`.
pub open spec fn is_known_template(key: Seq<char>) -> bool {
    exists|i: int| 0 <= i < known_templates().len() && #[trigger] known_templates()[i].0 == key
}

/// The template known under `key`.
pub open spec fn template_named(key: Seq<char>) -> TemplateView {
    known_templates()[choose|i: int| 0 <= i < known_templates().len() && known_templates()[i].0 == key].1
}

/// The template for a prompt type and model: the one for the type and
/// that model (key `type_model`), else the one for the type.
pub open spec fn template_for(prompt_type: Seq<char>, model: Seq<char>) -> Option<TemplateView> {
    let specific = prompt_type + "_"@ + model;
    if is_known_template(specific) {
        Some(template_named(specific))
    } else if is_known_template(prompt_type) {
        Some(template_named(prompt_type))
    } else {
        None
    }
}

/// The strategy known under `key`.
pub open spec fn strategy_named(key: Seq<char>) -> StrategyView {
    known_strategies()[choose|i: int| 0 <= i < known_strategies().len() && known_strategies()[i].0 == key].1
}

/// The key of the strategy for a model and template: comprehensive for
/// windows above 8000, technical for code models, analytical for analysis
/// templates, else the default.
pub open spec fn strategy_key_for(model: Seq<char>, t: TemplateView) -> Seq<char> {
    if t.4 > 8000 {
        "comprehensive"@
    } else if contains(lowercase(model), "code"@) {
        "technical_focused"@
    } else if t.1 == "analysis"@ {
        "analytical"@
    } else {
        "default"@
    }
}

/// The keys of the known templates differ.
proof fn lemma_known_template_keys_distinct()
    ensures
        forall|a: int, b: int| 0 <= a < b < known_templates().len() ==> known_templates()[a].0 != known_templates()[b].0,
{
    reveal_strlit("comprehensive_analysis");
    reveal_strlit("skills_analysis");
    reveal_strlit("ats_optimization");
    assert("comprehensive_analysis"@.len() != "skills_analysis"@.len());
    assert("comprehensive_analysis"@.len() != "ats_optimization"@.len());
    assert("skills_analysis"@.len() != "ats_optimization"@.len());
}

/// The keys of the known strategies differ.
proof fn lemma_known_strategy_keys_distinct()
    ensures
        forall|a: int, b: int| 0 <= a < b < known_strategies().len() ==> known_strategies()[a].0 != known_strategies()[b].0,
{
    reveal_strlit("comprehensive");
    reveal_strlit("technical_focused");
    reveal_strlit("analytical");
    reveal_strlit("default");
    assert("comprehensive"@.len() != "technical_focused"@.len());
    assert("comprehensive"@.len() != "analytical"@.len());
    assert("comprehensive"@.len() != "default"@.len());
    assert("technical_focused"@.len() != "analytical"@.len());
    assert("technical_focused"@.len() != "default"@.len());
    assert("analytical"@.len() != "default"@.len());
}

/// A context strategy with the given contents.
fn new_strategy(name: &str, percent: u32, a: &str, b: &str, c: &str, technique: &str) -> (res: ContextStrategy)
    ensures
        strategy_view(res) == (name@, percent as nat, seq![a@, b@, c@], technique@),
{
    let res = ContextStrategy {
        name: name.to_owned(),
        max_context_percent: percent,
        prioritization: vec![a.to_owned(), b.to_owned(), c.to_owned()],
        compression_technique: technique.to_owned(),
    };
    assert(res.prioritization@.map_values(|v: String| v@) =~= seq![a@, b@, c@]);
    res
}

/// The context strategies the engine knows, in the order of
/// `known_strategies`.
pub fn build_context_strategies() -> (res: Vec<(String, ContextStrategy)>)
    ensures
        res@.map_values(|e: (String, ContextStrategy)| (e.0@, strategy_view(e.1))) == known_strategies(),
{
    let res = vec![
        (
            "comprehensive".to_owned(),
            new_strategy("Comprehensive Analysis", 80, "industry_analysis", "semantic_analysis", "focus_areas", "summarize_sections"),
        ),
        (
            "technical_focused".to_owned(),
            new_strategy("Technical Focus", 70, "semantic_analysis", "focus_areas", "industry_analysis", "remove_examples"),
        ),
        (
            "analytical".to_owned(),
            new_strategy("Analytical Deep Dive", 85, "industry_analysis", "semantic_analysis", "focus_areas", "summarize_sections"),
        ),
        (
            "default".to_owned(),
            new_strategy("Balanced Approach", 75, "focus_areas", "semantic_analysis", "industry_analysis", "truncate_context"),
        ),
    ];
    assert(res@.map_values(|e: (String, ContextStrategy)| (e.0@, strategy_view(e.1))) =~= known_strategies());
    res
}

/// The prompt templates the engine knows, in the order of
/// `known_templates`.
pub fn build_prompt_templates() -> (res: Vec<(String, PromptTemplate)>)
    ensures
        res@.map_values(|e: (String, PromptTemplate)| (e.0@, template_view(e.1))) == known_templates(),
        forall|i: int| 0 <= i < res@.len() ==> (#[trigger] res@[i]).1.model_specific@.len() == 0,
{
    let res = vec![
        (
            "comprehensive_analysis".to_owned(),
            PromptTemplate {
                name: "Comprehensive Resume Analysis".to_owned(),
                category: "analysis".to_owned(),
                template: COMPREHENSIVE_ANALYSIS_TEMPLATE.to_owned(),
                variables: vec!["resume_content".to_owned(), "job_description".to_owned(), "industry_analysis".to_owned(), "semantic_analysis".to_owned(), "analysis_focus".to_owned(), "output_format".to_owned()],
                model_specific: Vec::new(),
                context_window_size: 6000,
                temperature_centi: 10,
                max_tokens: Some(2048),
            },
        ),
        (
            "skills_analysis".to_owned(),
            PromptTemplate {
                name: "Skills-Focused Analysis".to_owned(),
                category: "analysis".to_owned(),
                template: SKILLS_ANALYSIS_TEMPLATE.to_owned(),
                variables: vec!["resume_content".to_owned(), "job_description".to_owned(), "semantic_analysis".to_owned(), "output_format".to_owned()],
                model_specific: Vec::new(),
                context_window_size: 4000,
                temperature_centi: 5,
                max_tokens: Some(1024),
            },
        ),
        (
            "ats_optimization".to_owned(),
            PromptTemplate {
                name: "ATS Optimization Analysis".to_owned(),
                category: "optimization".to_owned(),
                template: ATS_OPTIMIZATION_TEMPLATE.to_owned(),
                variables: vec!["resume_content".to_owned(), "job_description".to_owned(), "output_format".to_owned()],
                model_specific: Vec::new(),
                context_window_size: 3000,
                temperature_centi: 5,
                max_tokens: Some(1024),
            },
        ),
    ];
    assert(template_view(res@[0].1).3 =~= seq!["resume_content"@, "job_description"@, "industry_analysis"@, "semantic_analysis"@, "analysis_focus"@, "output_format"@]);
    assert(template_view(res@[1].1).3 =~= seq!["resume_content"@, "job_description"@, "semantic_analysis"@, "output_format"@]);
    assert(template_view(res@[2].1).3 =~= seq!["resume_content"@, "job_description"@, "output_format"@]);
    assert(res@.map_values(|e: (String, PromptTemplate)| (e.0@, template_view(e.1))) =~= known_templates());
    res
}

/// Builds prompts for the language models.
pub struct EnhancedPromptEngine {
    model_configs: Vec<ModelConfig>,
    prompt_templates: Vec<(String, PromptTemplate)>,
    context_strategies: Vec<(String, ContextStrategy)>,
}

impl View for EnhancedPromptEngine {
    type V = (Seq<ConfigView>, Seq<(Seq<char>, TemplateView)>, Seq<(Seq<char>, StrategyView)>);

    /// The model configurations, the named templates and the named context
    /// strategies the engine holds.
    closed spec fn view(&self) -> Self::V {
        (
            self.model_configs@.map_values(|c: ModelConfig| config_view(c)),
            self.prompt_templates@.map_values(|e: (String, PromptTemplate)| (e.0@, template_view(e.1))),
            self.context_strategies@.map_values(|e: (String, ContextStrategy)| (e.0@, strategy_view(e.1))),
        )
    }
}

impl EnhancedPromptEngine {
    /// The engine always holds the known configurations, templates and
    /// strategies.
    #[verifier::type_invariant]
    spec fn holds_known_tables(&self) -> bool {
        &&& self.model_configs@.map_values(|c: ModelConfig| config_view(c)) == known_configs()
        &&& self.prompt_templates@.map_values(|e: (String, PromptTemplate)| (e.0@, template_view(e.1)))
            == known_templates()
        &&& self.context_strategies@.map_values(|e: (String, ContextStrategy)| (e.0@, strategy_view(e.1)))
            == known_strategies()
        &&& forall|i: int| 0 <= i < self.prompt_templates@.len() ==> (#[trigger] self.prompt_templates@[i]).1.model_specific@.len() == 0
    }

    /// An engine with the known configurations, templates and strategies.
    pub fn new() -> (res: Self)
        ensures
            res@ == (known_configs(), known_templates(), known_strategies()),
    {
        EnhancedPromptEngine {
            model_configs: build_model_configs(),
            prompt_templates: build_prompt_templates(),
            context_strategies: build_context_strategies(),
        }
    }

    /// The configuration used for `model_name`: its own, its family's, or
    /// the default.
    pub fn get_model_config(&self, model_name: &str) -> (res: &ModelConfig)
        ensures
            config_view(*res) == config_named(config_name_for(model_name@)),
    {
        proof {
            use_type_invariant(self);
        }
        let lc = chars_of(to_lowercase(model_name).as_str());
        let key: &str = if self.config_index(model_name).is_some() {
            model_name
        } else if contains_chars(&lc, &chars_of("llama")) {
            "llama2"
        } else if contains_chars(&lc, &chars_of("mistral")) {
            "mistral"
        } else if contains_chars(&lc, &chars_of("code")) || contains_chars(&lc, &chars_of("starcoder")) {
            "codellama"
        } else if contains_chars(&lc, &chars_of("neural")) || contains_chars(&lc, &chars_of("chat")) {
            "neural-chat"
        } else {
            "default"
        };
        assert(key@ == config_name_for(model_name@));
        assert(is_known_config(key@)) by {
            if key@ == "llama2"@ {
                assert(known_configs()[0].0 == key@);
            } else if key@ == "mistral"@ {
                assert(known_configs()[1].0 == key@);
            } else if key@ == "codellama"@ {
                assert(known_configs()[2].0 == key@);
            } else if key@ == "neural-chat"@ {
                assert(known_configs()[3].0 == key@);
            } else if key@ == "default"@ {
                assert(known_configs()[4].0 == key@);
            }
        }
        let i = self.config_index(key).unwrap();
        &self.model_configs[i]
    }

    /// The position of the configuration named `name`.
    fn config_index(&self, name: &str) -> (res: Option<usize>)
        ensures
            res is Some <==> is_known_config(name@),
            res matches Some(i) ==> i < known_configs().len() && self.model_configs@.len() == known_configs().len()
                && known_configs()[i as int].0 == name@ && config_view(self.model_configs@[i as int]) == config_named(name@),
    {
        proof {
            use_type_invariant(self);
        }
        let mut i: usize = 0;
        while i < self.model_configs.len()
            invariant
                i <= self.model_configs.len(),
                self.model_configs@.map_values(|c: ModelConfig| config_view(c)) == known_configs(),
                forall|k: int| 0 <= k < i ==> known_configs()[k].0 != name@,
            decreases self.model_configs.len() - i,
        {
            assert(config_view(self.model_configs@[i as int]) == known_configs()[i as int]);
            if str_eq(self.model_configs[i].model_name.as_str(), name) {
                proof {
                    lemma_known_config_names_distinct();
                    let c = choose|c: int| 0 <= c < known_configs().len() && known_configs()[c].0 == name@;
                    assert(known_configs()[i as int].0 == name@);
                }
                return Some(i);
            }
            i += 1;
        }
        None
    }
}


impl EnhancedPromptEngine {
    /// The estimated tokens of `text` for the model of `model_config`: one
    /// per four characters, rounded up, then adjusted by model family.
    pub fn estimate_token_count(&self, text: &str, model_config: &ModelConfig) -> (res: usize)
        ensures
            res == adjusted_tokens(model_config.model_name@, tokens_for(text@.len())),
    {
        let t = estimate_text_tokens(text) as u128;
        let name = chars_of(model_config.model_name.as_str());
        let adjusted = if contains_chars(&name, &chars_of("llama")) {
            t * 11 / 10
        } else if contains_chars(&name, &chars_of("mistral")) {
            t * 9 / 10
        } else if contains_chars(&name, &chars_of("code")) {
            t * 12 / 10
        } else {
            t
        };
        let n = chars_of(text).len();
        assert(t <= n / 4 + 1);
        assert(adjusted <= 2 * t);
        adjusted as usize
    }

    /// The position of the template known under `key`.
    fn template_index(&self, key: &str) -> (res: Option<usize>)
        ensures
            res is Some <==> is_known_template(key@),
            res matches Some(i) ==> i < self.prompt_templates@.len() && template_view(self.prompt_templates@[i as int].1)
                == template_named(key@) && self.prompt_templates@[i as int].1.model_specific@.len() == 0,
    {
        proof {
            use_type_invariant(self);
        }
        let mut i: usize = 0;
        while i < self.prompt_templates.len()
            invariant
                i <= self.prompt_templates.len(),
                self.prompt_templates@.map_values(|e: (String, PromptTemplate)| (e.0@, template_view(e.1)))
                    == known_templates(),
                forall|j: int| 0 <= j < self.prompt_templates@.len() ==> (#[trigger] self.prompt_templates@[j]).1.model_specific@.len() == 0,
                forall|k: int| 0 <= k < i ==> known_templates()[k].0 != key@,
            decreases self.prompt_templates.len() - i,
        {
            assert(known_templates()[i as int] == (self.prompt_templates@[i as int].0@, template_view(self.prompt_templates@[i as int].1)));
            if str_eq(self.prompt_templates[i].0.as_str(), key) {
                proof {
                    lemma_known_template_keys_distinct();
                    let c = choose|c: int| 0 <= c < known_templates().len() && known_templates()[c].0 == key@;
                    assert(known_templates()[i as int].0 == key@);
                }
                return Some(i);
            }
            i += 1;
        }
        None
    }

    /// The template for a prompt type and model: the one for both, else the
    /// one for the type; `None` when neither is known.
    pub fn select_prompt_template(&self, prompt_type: &str, model_name: &str) -> (res: Option<&PromptTemplate>)
        ensures
            match res {
                Some(t) => template_for(prompt_type@, model_name@) == Some(template_view(*t)) && t.model_specific@.len() == 0,
                None => template_for(prompt_type@, model_name@) is None,
            },
    {
        proof {
            use_type_invariant(self);
        }
        let mut kv: Vec<char> = Vec::new();
        append_chars(&mut kv, &chars_of(prompt_type));
        append_chars(&mut kv, &chars_of("_"));
        append_chars(&mut kv, &chars_of(model_name));
        let key = string_from_chars(&kv);
        match self.template_index(key.as_str()) {
            Some(i) => Some(&self.prompt_templates[i].1),
            None => match self.template_index(prompt_type) {
                Some(i) => Some(&self.prompt_templates[i].1),
                None => None,
            },
        }
    }

    /// The strategy known under `key`, which must be known.
    fn strategy(&self, key: &str) -> (res: &ContextStrategy)
        requires
            exists|i: int| 0 <= i < known_strategies().len() && #[trigger] known_strategies()[i].0 == key@,
        ensures
            strategy_view(*res) == strategy_named(key@),
            res.max_context_percent <= 100,
    {
        proof {
            use_type_invariant(self);
        }
        let mut i: usize = 0;
        while i < self.context_strategies.len()
            invariant
                i <= self.context_strategies.len(),
                self.context_strategies@.map_values(|e: (String, ContextStrategy)| (e.0@, strategy_view(e.1)))
                    == known_strategies(),
                exists|i: int| 0 <= i < known_strategies().len() && #[trigger] known_strategies()[i].0 == key@,
                forall|k: int| 0 <= k < i ==> known_strategies()[k].0 != key@,
            decreases self.context_strategies.len() - i,
        {
            assert(known_strategies()[i as int] == (self.context_strategies@[i as int].0@, strategy_view(self.context_strategies@[i as int].1)));
            if str_eq(self.context_strategies[i].0.as_str(), key) {
                proof {
                    lemma_known_strategy_keys_distinct();
                    let c = choose|c: int| 0 <= c < known_strategies().len() && known_strategies()[c].0 == key@;
                    assert(known_strategies()[i as int].0 == key@);
                    assert(known_strategies()[i as int].1.1 <= 100);
                }
                return &self.context_strategies[i].1;
            }
            i += 1;
        }
        proof {
            let c = choose|c: int| 0 <= c < known_strategies().len() && known_strategies()[c].0 == key@;
            assert(known_strategies()[c].0 != key@);
        }
        &self.context_strategies[0].1
    }

    /// The strategy for a model and template, as `strategy_key_for` picks it.
    pub fn select_context_strategy(&self, model_name: &str, template: &PromptTemplate) -> (res: &ContextStrategy)
        ensures
            strategy_view(*res) == strategy_named(strategy_key_for(model_name@, template_view(*template))),
            res.max_context_percent <= 100,
    {
        let lc = chars_of(to_lowercase(model_name).as_str());
        let key: &str = if template.context_window_size > 8000 {
            "comprehensive"
        } else if contains_chars(&lc, &chars_of("code")) {
            "technical_focused"
        } else if str_eq(template.category.as_str(), "analysis") {
            "analytical"
        } else {
            "default"
        };
        assert(key@ == strategy_key_for(model_name@, template_view(*template)));
        assert(exists|i: int| 0 <= i < known_strategies().len() && #[trigger] known_strategies()[i].0 == key@) by {
            if key@ == "comprehensive"@ {
                assert(known_strategies()[0].0 == key@);
            } else if key@ == "technical_focused"@ {
                assert(known_strategies()[1].0 == key@);
            } else if key@ == "analytical"@ {
                assert(known_strategies()[2].0 == key@);
            } else {
                assert(known_strategies()[3].0 == key@);
            }
        }
        self.strategy(key)
    }
}


/// The last position of `c` in `s`.
pub open spec fn last_index_of(s: Seq<char>, c: char) -> Option<int>
    decreases s.len(),
{
    if s.len() == 0 {
        None
    } else if s.last() == c {
        Some(s.len() - 1)
    } else {
        last_index_of(s.drop_last(), c)
    }
}

/// `prompt` cut to about `max_tokens` tokens: unchanged if its encoding
/// has at most four bytes a token; else its first `4 * max_tokens` bytes,
/// ended at the last full stop (kept) or else the last space (dropped).
/// `None` where that byte count falls inside a character or overflows.
pub open spec fn truncated(prompt: Seq<char>, max_tokens: nat) -> Option<Seq<char>> {
    let target = 4 * max_tokens;
    if target > usize::MAX {
        None
    } else if byte_len(prompt) <= target {
        Some(prompt)
    } else if !at_char_boundary(prompt, target as int) {
        None
    } else {
        let t = prompt.take(char_index(prompt, target as int));
        match last_index_of(t, '.') {
            Some(p) => Some(t.take(p) + "."@),
            None => match last_index_of(t, ' ') {
                Some(p) => Some(t.take(p)),
                None => Some(t),
            },
        }
    }
}

/// The pieces of `s` from its start, continuing the piece `cur`, split
/// at blank lines: each `\n\n`, taken from the left without overlap.
pub open spec fn split_blank_from(s: Seq<char>, cur: Seq<char>) -> Seq<Seq<char>>
    decreases s.len(),
{
    if s.len() == 0 {
        seq![cur]
    } else if s.len() >= 2 && s[0] == '\n' && s[1] == '\n' {
        seq![cur] + split_blank_from(s.skip(2), Seq::empty())
    } else {
        split_blank_from(s.skip(1), cur.push(s[0]))
    }
}

/// The pieces of `s` between the occurrences of `\n\n`, left to right
/// (`str::split("\n\n")`).
pub open spec fn split_blank(s: Seq<char>) -> Seq<Seq<char>> {
    split_blank_from(s, Seq::empty())
}

/// `text` appended to `acc`, after a blank line where `acc` is not empty.
pub open spec fn add_section(acc: Seq<char>, text: Seq<char>) -> Seq<char> {
    if acc.len() > 0 {
        acc + "\n\n"@ + text
    } else {
        text
    }
}

/// Sections from `i` on added to `acc` while their tokens fit in `max`
/// beside the `used` ones; the first that does not fit is cut to the rest
/// if more than 50 tokens are left, and the rest dropped. `None` where a cut
/// falls inside a character.
pub open spec fn summarize_from(secs: Seq<Seq<char>>, i: int, acc: Seq<char>, used: nat, max: nat) -> Option<Seq<char>>
    decreases secs.len() - i,
{
    if i < 0 || i >= secs.len() {
        Some(acc)
    } else {
        let t = tokens_for(secs[i].len());
        if used + t <= max {
            summarize_from(secs, i + 1, add_section(acc, secs[i]), used + t, max)
        } else {
            let rest = if max >= used { (max - used) as nat } else { 0 };
            if rest > 50 {
                match truncated(secs[i], rest) {
                    Some(c) => Some(add_section(acc, c)),
                    None => None,
                }
            } else {
                Some(acc)
            }
        }
    }
}

/// `prompt` shortened section by section (sections are separated by blank
/// lines) to about `max_tokens` tokens.
pub open spec fn summarized(prompt: Seq<char>, max_tokens: nat) -> Option<Seq<char>> {
    summarize_from(split_blank(prompt), 0, Seq::empty(), 0, max_tokens)
}

/// Whether a line gives an example.
pub open spec fn is_example_line(l: Seq<char>) -> bool {
    let lc = lowercase(l);
    contains(lc, "example:"@) || contains(lc, "for example"@) || contains(lc, "e.g."@)
}

/// The lines of `ls` that give no example.
pub open spec fn non_example_lines(ls: Seq<Seq<char>>) -> Seq<Seq<char>>
    decreases ls.len(),
{
    if ls.len() == 0 {
        Seq::empty()
    } else {
        non_example_lines(ls.drop_last()) + if is_example_line(ls.last()) {
            Seq::empty()
        } else {
            seq![ls.last()]
        }
    }
}

/// `prompt` without the lines that give examples, cut to about
/// `max_tokens` tokens if still too long.
pub open spec fn without_examples(prompt: Seq<char>, max_tokens: nat) -> Option<Seq<char>> {
    let w = join(non_example_lines(lines(prompt)), "\n"@);
    if tokens_for(w.len()) <= max_tokens {
        Some(w)
    } else {
        truncated(w, max_tokens)
    }
}

/// The last position of `c` among the characters of `v`.
fn last_position(v: &Vec<char>, c: char) -> (res: Option<usize>)
    ensures
        match res {
            Some(p) => last_index_of(v@, c) == Some(p as int) && p < v.len(),
            None => last_index_of(v@, c) is None,
        },
{
    let mut i: usize = v.len();
    assert(v@.take(v.len() as int) == v@);
    while i > 0
        invariant
            i <= v.len(),
            last_index_of(v@, c) == last_index_of(v@.take(i as int), c),
        decreases i,
    {
        assert(v@.take(i as int).drop_last() == v@.take(i - 1));
        assert(v@.take(i as int).last() == v@[i - 1]);
        if v[i - 1] == c {
            return Some(i - 1);
        }
        i -= 1;
    }
    None
}

/// The first `k` characters of `v`.
fn prefix_chars(v: &Vec<char>, k: usize) -> (res: Vec<char>)
    requires
        k <= v.len(),
    ensures
        res@ == v@.take(k as int),
{
    let mut w: Vec<char> = Vec::new();
    let mut i: usize = 0;
    while i < k
        invariant
            i <= k,
            k <= v.len(),
            w@ == v@.take(i as int),
        decreases k - i,
    {
        w.push(v[i]);
        assert(v@.take(i + 1) == v@.take(i as int).push(v@[i as int]));
        i += 1;
    }
    w
}

/// `prompt` cut to about `max_tokens` tokens, as `truncated` states.
pub fn truncate_context(prompt: &str, max_tokens: usize) -> (res: String)
    requires
        truncated(prompt@, max_tokens as nat) is Some,
    ensures
        res@ == truncated(prompt@, max_tokens as nat)->Some_0,
{
    let target = max_tokens * 4;
    let len = prompt.as_bytes().len();
    proof {
        lemma_byte_len_encoding(prompt@);
    }
    if len <= target {
        return prompt.to_owned();
    }
    let v = chars_of(prompt);
    let k = char_index_at_byte(&v, target).unwrap();
    let t = prefix_chars(&v, k);
    match last_position(&t, '.') {
        Some(p) => {
            let mut w = prefix_chars(&t, p);
            w.push('.');
            proof { reveal_strlit("."); }
            assert(w@ == t@.take(p as int) + "."@);
            string_from_chars(&w)
        },
        None => match last_position(&t, ' ') {
            Some(p) => string_from_chars(&prefix_chars(&t, p)),
            None => string_from_chars(&t),
        },
    }
}

/// The pieces of `v` between the occurrences of `\n\n`.
fn split_blank_chars(v: &Vec<char>) -> (res: Vec<Vec<char>>)
    ensures
        views(res@) == split_blank(v@),
{
    let mut out: Vec<Vec<char>> = Vec::new();
    let mut cur: Vec<char> = Vec::new();
    let mut i: usize = 0;
    assert(v@.skip(0) == v@);
    while i < v.len()
        invariant
            i <= v.len(),
            split_blank(v@) == views(out@) + split_blank_from(v@.skip(i as int), cur@),
        decreases v.len() - i,
    {
        let ghost rest = v@.skip(i as int);
        let ghost before = views(out@);
        if i + 1 < v.len() && v[i] == '\n' && v[i + 1] == '\n' {
            assert(rest[0] == '\n' && rest[1] == '\n');
            assert(rest.skip(2) == v@.skip(i + 2));
            out.push(cur);
            assert(views(out@) == before + seq![cur@]);
            cur = Vec::new();
            i += 2;
        } else {
            assert(rest[0] == v@[i as int]);
            assert(rest.skip(1) == v@.skip(i + 1));
            cur.push(v[i]);
            i += 1;
        }
    }
    assert(v@.skip(i as int).len() == 0);
    let ghost before = views(out@);
    out.push(cur);
    assert(views(out@) == before + seq![cur@]);
    out
}


/// `text` added to `acc` after a blank line where `acc` is not empty.
fn push_section(acc: &mut Vec<char>, text: &Vec<char>)
    ensures
        final(acc)@ == add_section(old(acc)@, text@),
{
    if acc.len() > 0 {
        append_chars(acc, &chars_of("\n\n"));
    }
    append_chars(acc, text);
}

/// `prompt` shortened section by section, as `summarized` states.
pub fn summarize_sections(prompt: &str, max_tokens: usize) -> (res: String)
    requires
        summarized(prompt@, max_tokens as nat) is Some,
    ensures
        res@ == summarized(prompt@, max_tokens as nat)->Some_0,
{
    let secs = split_blank_chars(&chars_of(prompt));
    let ghost sv = views(secs@);
    let mut acc: Vec<char> = Vec::new();
    let mut used: usize = 0;
    let mut i: usize = 0;
    while i < secs.len()
        invariant
            i <= secs.len(),
            sv == views(secs@),
            used <= max_tokens,
            summarized(prompt@, max_tokens as nat) == summarize_from(sv, i as int, acc@, used as nat, max_tokens as nat),
            summarized(prompt@, max_tokens as nat) is Some,
        decreases secs.len() - i,
    {
        let sec = string_from_chars(&secs[i]);
        let t = estimate_text_tokens(sec.as_str());
        assert(sv[i as int] == sec@);
        if t <= max_tokens - used {
            push_section(&mut acc, &secs[i]);
            used = used + t;
            i += 1;
        } else {
            let rest = max_tokens - used;
            if rest > 50 {
                let cut = truncate_context(sec.as_str(), rest);
                push_section(&mut acc, &chars_of(cut.as_str()));
            }
            return string_from_chars(&acc);
        }
    }
    string_from_chars(&acc)
}

/// `prompt` shortened section by section, as `summarized` states; `None`
/// where a section would be cut inside a character.
pub fn try_summarize_sections(prompt: &str, max_tokens: usize) -> (res: Option<String>)
    ensures
        res is Some <==> summarized(prompt@, max_tokens as nat) is Some,
        res matches Some(r) ==> r@ == summarized(prompt@, max_tokens as nat)->Some_0,
{
    let secs = split_blank_chars(&chars_of(prompt));
    let ghost sv = views(secs@);
    let mut acc: Vec<char> = Vec::new();
    let mut used: usize = 0;
    let mut i: usize = 0;
    while i < secs.len()
        invariant
            i <= secs.len(),
            sv == views(secs@),
            used <= max_tokens,
            summarized(prompt@, max_tokens as nat) == summarize_from(sv, i as int, acc@, used as nat, max_tokens as nat),
        decreases secs.len() - i,
    {
        let sec = string_from_chars(&secs[i]);
        let t = estimate_text_tokens(sec.as_str());
        assert(sv[i as int] == sec@);
        if t <= max_tokens - used {
            push_section(&mut acc, &secs[i]);
            used = used + t;
            i += 1;
        } else {
            let rest = max_tokens - used;
            if rest > 50 {
                if !truncation_ok(sec.as_str(), rest) {
                    return None;
                }
                let cut = truncate_context(sec.as_str(), rest);
                push_section(&mut acc, &chars_of(cut.as_str()));
            }
            return Some(string_from_chars(&acc));
        }
    }
    Some(string_from_chars(&acc))
}

/// The lines of `ls` that give no example.
fn keep_non_examples(ls: &Vec<Vec<char>>) -> (res: Vec<Vec<char>>)
    ensures
        views(res@) == non_example_lines(views(ls@)),
{
    let ghost lv = views(ls@);
    let mut out: Vec<Vec<char>> = Vec::new();
    let mut i: usize = 0;
    while i < ls.len()
        invariant
            i <= ls.len(),
            lv == views(ls@),
            views(out@) == non_example_lines(lv.take(i as int)),
        decreases ls.len() - i,
    {
        assert(lv.take(i + 1).drop_last() == lv.take(i as int));
        assert(lv.take(i + 1).last() == ls@[i as int]@);
        let line = string_from_chars(&ls[i]);
        let lc = chars_of(to_lowercase(line.as_str()).as_str());
        let example = contains_chars(&lc, &chars_of("example:")) || contains_chars(&lc, &chars_of("for example"))
            || contains_chars(&lc, &chars_of("e.g."));
        if !example {
            let ghost before = views(out@);
            out.push(ls[i].clone());
            assert(views(out@) == before + seq![ls@[i as int]@]);
        }
        i += 1;
    }
    assert(lv.take(ls.len() as int) == lv);
    out
}

/// `prompt` without the lines that give examples, cut if still too long,
/// as `without_examples` states.
pub fn remove_examples(prompt: &str, max_tokens: usize) -> (res: String)
    requires
        without_examples(prompt@, max_tokens as nat) is Some,
    ensures
        res@ == without_examples(prompt@, max_tokens as nat)->Some_0,
{
    let ls = lines_of(&chars_of(prompt));
    let kept = keep_non_examples(&ls);
    let w = string_from_chars(&join_chars(&kept, &chars_of("\n")));
    if estimate_text_tokens(w.as_str()) <= max_tokens {
        w
    } else {
        truncate_context(w.as_str(), max_tokens)
    }
}


/// A request for a prompt. The industry and semantic contexts are the
/// summaries of those analyses, where they were made.
#[derive(Debug, Clone)]
pub struct EnhancedPromptRequest {
    pub prompt_type: String,
    pub model_name: String,
    pub resume_content: String,
    pub job_description: String,
    pub industry_context: Option<String>,
    pub semantic_context: Option<String>,
    pub analysis_focus: Vec<String>,
    pub output_format: String,
}

/// A prompt ready for a model, with what it was built from.
#[derive(Debug, Clone)]
pub struct EnhancedPromptResponse {
    pub formatted_prompt: String,
    pub model_config: ModelConfig,
    pub estimated_tokens: usize,
    pub prompt_strategy: String,
    pub context_summary: String,
}

/// Why no prompt could be built.
#[derive(Debug, Clone, PartialEq, Eq)]
pub enum PromptError {
    /// No template is known for the prompt type.
    TemplateNotFound(String),
}

impl PromptError {
    /// The message of this error.
    pub fn message(&self) -> (res: String)
        ensures
            match self {
                PromptError::TemplateNotFound(t) => res@ == "No template found for prompt type: "@ + t@,
            },
    {
        match self {
            PromptError::TemplateNotFound(t) => {
                let mut v: Vec<char> = Vec::new();
                append_chars(&mut v, &chars_of("No template found for prompt type: "));
                append_chars(&mut v, &chars_of(t.as_str()));
                string_from_chars(&v)
            },
        }
    }
}

/// The tokens of a model's window that a strategy uses.
pub open spec fn window_tokens(c: ConfigView, s: StrategyView) -> nat {
    c.1 * s.1 / 100
}

/// `prompt` shortened to `max` tokens by `technique`: by sections, by
/// dropping examples, or (for any other technique) by cutting.
pub open spec fn compressed(technique: Seq<char>, prompt: Seq<char>, max: nat) -> Option<Seq<char>> {
    if technique == "summarize_sections"@ {
        summarized(prompt, max)
    } else if technique == "remove_examples"@ {
        without_examples(prompt, max)
    } else {
        truncated(prompt, max)
    }
}

/// The prompt as sent, and whether it was shortened: unchanged if its
/// estimate fits the strategy's share of the window, else compressed.
pub open spec fn optimized(prompt: Seq<char>, estimate: nat, c: ConfigView, s: StrategyView) -> Option<(Seq<char>, bool)> {
    let max = window_tokens(c, s);
    if estimate <= max {
        Some((prompt, false))
    } else {
        match compressed(s.3, prompt, max) {
            Some(p) => Some((p, true)),
            None => None,
        }
    }
}

/// The optional context item `item` of a request, with its key.
pub open spec fn context_item(item: Seq<char>, r: EnhancedPromptRequest) -> Option<(Seq<char>, Seq<char>)> {
    if item == "industry_analysis"@ {
        match r.industry_context {
            Some(x) => Some(("industry_analysis"@, x@)),
            None => None,
        }
    } else if item == "semantic_analysis"@ {
        match r.semantic_context {
            Some(x) => Some(("semantic_analysis"@, x@)),
            None => None,
        }
    } else if item == "focus_areas"@ {
        if r.analysis_focus.len() > 0 {
            Some(("analysis_focus"@, join(r.analysis_focus@.map_values(|f: String| f@), ", "@)))
        } else {
            None
        }
    } else {
        None
    }
}

/// The optional context items from `i` on, in priority order, each taken
/// if its tokens still fit in `remaining` beside the `used` ones, until
/// the space is used up.
pub open spec fn priority_context(
    items: Seq<Seq<char>>,
    i: int,
    r: EnhancedPromptRequest,
    remaining: nat,
    used: nat,
) -> Seq<(Seq<char>, Seq<char>)>
    decreases items.len() - i,
{
    if i < 0 || i >= items.len() || used >= remaining {
        Seq::empty()
    } else {
        match context_item(items[i], r) {
            Some(e) => if used + tokens_for(e.1.len()) <= remaining {
                seq![e] + priority_context(items, i + 1, r, remaining, used + tokens_for(e.1.len()))
            } else {
                priority_context(items, i + 1, r, remaining, used)
            },
            None => priority_context(items, i + 1, r, remaining, used),
        }
    }
}

/// The context of a prompt, as key and text pairs in order: resume and job
/// description, the optional items that fit, the output format.
pub open spec fn prompt_context(r: EnhancedPromptRequest, s: StrategyView, c: ConfigView) -> Seq<(Seq<char>, Seq<char>)> {
    let available = window_tokens(c, s);
    let base = tokens_for(r.resume_content@.len()) + tokens_for(r.job_description@.len());
    let remaining = if available >= base { (available - base) as nat } else { 0 };
    seq![("resume_content"@, r.resume_content@), ("job_description"@, r.job_description@)] + priority_context(
        s.2,
        0,
        r,
        remaining,
        0,
    ) + seq![("output_format"@, r.output_format@)]
}

/// `text` with each `{key}` of the context replaced by its text, key by key
/// in order.
pub open spec fn filled(text: Seq<char>, ctx: Seq<(Seq<char>, Seq<char>)>) -> Seq<char>
    decreases ctx.len(),
{
    if ctx.len() == 0 {
        text
    } else {
        filled(replace(text, "{"@ + ctx[0].0 + "}"@, ctx[0].1), ctx.drop_first())
    }
}

/// The text of a template for a model: the model's own variant, else the
/// template text.
pub open spec fn template_text_for(variants: Seq<(String, String)>, text: Seq<char>, model: Seq<char>) -> Seq<char>
    decreases variants.len(),
{
    if variants.len() == 0 {
        text
    } else if variants[0].0@ == model {
        variants[0].1@
    } else {
        template_text_for(variants.drop_first(), text, model)
    }
}

/// The prompt for a template, context, instruction format and model.
pub open spec fn formatted_prompt(t: PromptTemplate, ctx: Seq<(Seq<char>, Seq<char>)>, format: Seq<char>, model: Seq<char>) -> Seq<char> {
    styled(format, filled(template_text_for(t.model_specific@, t.template@, model), ctx))
}

/// A copy of a model configuration.
fn copy_config(c: &ModelConfig) -> (res: ModelConfig)
    ensures
        config_view(res) == config_view(*c),
{
    let mut stop: Vec<String> = Vec::new();
    let mut i: usize = 0;
    while i < c.stop_tokens.len()
        invariant
            i <= c.stop_tokens.len(),
        decreases c.stop_tokens.len() - i,
    {
        stop.push(c.stop_tokens[i].clone());
        i += 1;
    }
    let mut special: Vec<(String, String)> = Vec::new();
    let mut j: usize = 0;
    while j < c.special_tokens.len()
        invariant
            j <= c.special_tokens.len(),
        decreases c.special_tokens.len() - j,
    {
        special.push((c.special_tokens[j].0.clone(), c.special_tokens[j].1.clone()));
        j += 1;
    }
    ModelConfig {
        model_name: c.model_name.clone(),
        max_context_length: c.max_context_length,
        optimal_temperature_centi: c.optimal_temperature_centi,
        supports_system_message: c.supports_system_message,
        instruction_format: c.instruction_format.clone(),
        stop_tokens: stop,
        special_tokens: special,
    }
}

/// The tokens of a window that a strategy uses.
fn window_of(c: &ModelConfig, s: &ContextStrategy) -> (res: usize)
    requires
        s.max_context_percent <= 100,
    ensures
        res == window_tokens(config_view(*c), strategy_view(*s)),
        res <= c.max_context_length,
{
    let m = c.max_context_length as u128;
    let p = s.max_context_percent as u128;
    assert(m * p <= m * 100) by (nonlinear_arith)
        requires
            p <= 100,
    ;
    let w = m * p / 100;
    assert(w <= m) by (nonlinear_arith)
        requires
            w == m * p / 100,
            m * p <= m * 100,
    ;
    w as usize
}

impl EnhancedPromptEngine {
    /// The prompt as sent and whether it was shortened, as `optimized`
    /// states.
    pub fn optimize_prompt_if_needed(
        &self,
        prompt: String,
        estimated_tokens: usize,
        model_config: &ModelConfig,
        strategy: &ContextStrategy,
    ) -> (res: (String, bool))
        requires
            strategy.max_context_percent <= 100,
            optimized(prompt@, estimated_tokens as nat, config_view(*model_config), strategy_view(*strategy)) is Some,
        ensures
            (res.0@, res.1) == optimized(prompt@, estimated_tokens as nat, config_view(*model_config), strategy_view(*strategy))->Some_0,
    {
        let max = window_of(model_config, strategy);
        if estimated_tokens <= max {
            return (prompt, false);
        }
        let t = strategy.compression_technique.as_str();
        let p = if str_eq(t, "summarize_sections") {
            summarize_sections(prompt.as_str(), max)
        } else if str_eq(t, "remove_examples") {
            remove_examples(prompt.as_str(), max)
        } else {
            truncate_context(prompt.as_str(), max)
        };
        (p, true)
    }
}


/// The parts of the prompt for a request: the model configuration, the
/// template, the strategy, the formatted prompt and its token estimate;
/// `None` when no template is known for the prompt type.
pub open spec fn prompt_parts(r: EnhancedPromptRequest) -> Option<(ConfigView, TemplateView, StrategyView, Seq<char>, nat)> {
    let c = config_named(config_name_for(r.model_name@));
    match template_for(r.prompt_type@, r.model_name@) {
        Some(t) => {
            let s = strategy_named(strategy_key_for(r.model_name@, t));
            let p = styled(c.4, filled(t.2, prompt_context(r, s, c)));
            Some((c, t, s, p, adjusted_tokens(c.0, tokens_for(p.len()))))
        },
        None => None,
    }
}

/// Whether shortening the prompt for a request, where needed, cuts on
/// character boundaries.
pub open spec fn prompt_fits(r: EnhancedPromptRequest) -> bool {
    match prompt_parts(r) {
        Some(q) => optimized(q.3, q.4, q.0, q.2) is Some,
        None => true,
    }
}

/// Whether `res` is the answer to the request `r`.
pub open spec fn is_prompt_for(res: Result<EnhancedPromptResponse, PromptError>, r: EnhancedPromptRequest) -> bool {
    match prompt_parts(r) {
        None => res == Err::<EnhancedPromptResponse, PromptError>(PromptError::TemplateNotFound(r.prompt_type)),
        Some(q) => res matches Ok(resp) && {
            let o = optimized(q.3, q.4, q.0, q.2)->Some_0;
            &&& resp.formatted_prompt@ == o.0
            &&& config_view(resp.model_config) == q.0
            &&& resp.estimated_tokens == q.4
            &&& resp.prompt_strategy@ == q.1.0 + " with "@ + q.2.0
            &&& resp.context_summary@ == "Context prepared with "@ + q.2.0 + " strategy"@ + if o.1 {
                " (optimized)"@
            } else {
                ""@
            }
        },
    }
}

/// The focus areas joined by commas.
fn join_focus(v: &Vec<String>) -> (res: String)
    ensures
        res@ == join(v@.map_values(|f: String| f@), ", "@),
{
    let mut cs: Vec<Vec<char>> = Vec::new();
    let mut i: usize = 0;
    while i < v.len()
        invariant
            i <= v.len(),
            views(cs@) == v@.map_values(|f: String| f@).take(i as int),
        decreases v.len() - i,
    {
        cs.push(chars_of(v[i].as_str()));
        assert(v@.map_values(|f: String| f@).take(i + 1) == v@.map_values(|f: String| f@).take(i as int).push(v@[i as int]@));
        i += 1;
    }
    assert(v@.map_values(|f: String| f@).take(v.len() as int) == v@.map_values(|f: String| f@));
    string_from_chars(&join_chars(&cs, &chars_of(", ")))
}

/// The views of key and text pairs.
pub open spec fn pair_views(v: Seq<(String, String)>) -> Seq<(Seq<char>, Seq<char>)> {
    v.map_values(|e: (String, String)| (e.0@, e.1@))
}

impl EnhancedPromptEngine {
    /// The context of a prompt, as `prompt_context` states.
    pub fn prepare_prioritized_context(
        &self,
        request: &EnhancedPromptRequest,
        strategy: &ContextStrategy,
        model_config: &ModelConfig,
    ) -> (res: Vec<(String, String)>)
        requires
            strategy.max_context_percent <= 100,
        ensures
            pair_views(res@) == prompt_context(*request, strategy_view(*strategy), config_view(*model_config)),
    {
        let available = window_of(model_config, strategy);
        let base = estimate_text_tokens(request.resume_content.as_str()) as u128
            + estimate_text_tokens(request.job_description.as_str()) as u128;
        let remaining: usize = if available as u128 >= base { (available as u128 - base) as usize } else { 0 };
        let mut ctx: Vec<(String, String)> = Vec::new();
        ctx.push(("resume_content".to_owned(), request.resume_content.clone()));
        ctx.push(("job_description".to_owned(), request.job_description.clone()));
        let ghost head = pair_views(ctx@);
        let ghost items = strategy.prioritization@.map_values(|v: String| v@);
        let mut used: usize = 0;
        let mut i: usize = 0;
        while i < strategy.prioritization.len() && used < remaining
            invariant
                i <= strategy.prioritization.len(),
                items == strategy.prioritization@.map_values(|v: String| v@),
                used <= remaining,
                pair_views(ctx@) + priority_context(items, i as int, *request, remaining as nat, used as nat)
                    == head + priority_context(items, 0, *request, remaining as nat, 0),
            decreases strategy.prioritization.len() - i,
        {
            let item = strategy.prioritization[i].as_str();
            assert(items[i as int] == item@);
            let cand: Option<(&str, String)> = if str_eq(item, "industry_analysis") {
                match &request.industry_context {
                    Some(x) => Some(("industry_analysis", x.clone())),
                    None => None,
                }
            } else if str_eq(item, "semantic_analysis") {
                match &request.semantic_context {
                    Some(x) => Some(("semantic_analysis", x.clone())),
                    None => None,
                }
            } else if str_eq(item, "focus_areas") {
                if request.analysis_focus.len() > 0 {
                    Some(("analysis_focus", join_focus(&request.analysis_focus)))
                } else {
                    None
                }
            } else {
                None
            };
            match cand {
                Some((k, v)) => {
                    assert(context_item(items[i as int], *request) == Some((k@, v@)));
                    let t = estimate_text_tokens(v.as_str());
                    if t <= remaining - used {
                        let ghost before = pair_views(ctx@);
                        ctx.push((k.to_owned(), v));
                        assert(pair_views(ctx@) == before + seq![(k@, v@)]);
                        used = used + t;
                    }
                },
                None => {
                    assert(context_item(items[i as int], *request) is None);
                },
            }
            i += 1;
        }
        assert(priority_context(items, i as int, *request, remaining as nat, used as nat) == Seq::<(Seq<char>, Seq<char>)>::empty());
        let ghost before = pair_views(ctx@);
        ctx.push(("output_format".to_owned(), request.output_format.clone()));
        assert(pair_views(ctx@) == before + seq![("output_format"@, request.output_format@)]);
        ctx
    }

    /// The prompt for a template and context in the model's instruction
    /// format, as `formatted_prompt` states.
    pub fn format_prompt_for_model(
        &self,
        template: &PromptTemplate,
        context: &Vec<(String, String)>,
        model_config: &ModelConfig,
        request: &EnhancedPromptRequest,
    ) -> (res: String)
        ensures
            res@ == formatted_prompt(*template, pair_views(context@), model_config.instruction_format@, request.model_name@),
    {
        let ghost tt = template_text_for(template.model_specific@, template.template@, request.model_name@);
        let mut k: usize = 0;
        let mut base: Option<&String> = None;
        assert(template.model_specific@.skip(0) == template.model_specific@);
        while k < template.model_specific.len() && base.is_none()
            invariant
                k <= template.model_specific.len(),
                tt == template_text_for(template.model_specific@, template.template@, request.model_name@),
                base is None ==> tt == template_text_for(template.model_specific@.skip(k as int), template.template@, request.model_name@),
                base matches Some(b) ==> b@ == tt,
            decreases template.model_specific.len() - k,
        {
            let ghost rest = template.model_specific@.skip(k as int);
            assert(rest[0] == template.model_specific@[k as int]);
            assert(rest.drop_first() == template.model_specific@.skip(k + 1));
            if str_eq(template.model_specific[k].0.as_str(), request.model_name.as_str()) {
                base = Some(&template.model_specific[k].1);
            }
            k += 1;
        }
        let text: Vec<char> = match base {
            Some(b) => chars_of(b.as_str()),
            None => {
                assert(template.model_specific@.skip(k as int).len() == 0);
                chars_of(template.template.as_str())
            },
        };
        assert(text@ == tt);
        let ghost cv = pair_views(context@);
        let mut out = text;
        let mut j: usize = 0;
        assert(cv.skip(0) == cv);
        while j < context.len()
            invariant
                j <= context.len(),
                cv == pair_views(context@),
                filled(text@, cv) == filled(out@, cv.skip(j as int)),
            decreases context.len() - j,
        {
            let mut pv: Vec<char> = Vec::new();
            append_chars(&mut pv, &chars_of("{"));
            append_chars(&mut pv, &chars_of(context[j].0.as_str()));
            append_chars(&mut pv, &chars_of("}"));
            proof {
                reveal_strlit("{");
            }
            assert(cv.skip(j as int)[0] == cv[j as int]);
            assert(cv.skip(j as int).drop_first() == cv.skip(j + 1));
            out = replace_chars(&out, &pv, &chars_of(context[j].1.as_str()));
            j += 1;
        }
        assert(cv.skip(context.len() as int).len() == 0);
        let filled_text = string_from_chars(&out);
        format_in_style(model_config.instruction_format.as_str(), filled_text.as_str())
    }

    /// The prompt for a request, as `is_prompt_for` states; shortening it
    /// where needed must cut on character boundaries
    /// (`try_create_enhanced_prompt` tests this first).
    pub fn create_enhanced_prompt(&self, request: EnhancedPromptRequest) -> (res: Result<EnhancedPromptResponse, PromptError>)
        requires
            prompt_fits(request),
        ensures
            is_prompt_for(res, request),
    {
        let model_config = self.get_model_config(request.model_name.as_str());
        let template = match self.select_prompt_template(request.prompt_type.as_str(), request.model_name.as_str()) {
            Some(t) => t,
            None => {
                return Err(PromptError::TemplateNotFound(request.prompt_type.clone()));
            },
        };
        let strategy = self.select_context_strategy(request.model_name.as_str(), template);
        let context = self.prepare_prioritized_context(&request, strategy, model_config);
        let formatted = self.format_prompt_for_model(template, &context, model_config, &request);
        assert(template_text_for(template.model_specific@, template.template@, request.model_name@) == template.template@);
        let estimated_tokens = self.estimate_token_count(formatted.as_str(), model_config);
        let (final_prompt, optimization_applied) = self.optimize_prompt_if_needed(
            formatted,
            estimated_tokens,
            model_config,
            strategy,
        );
        let mut ps: Vec<char> = Vec::new();
        append_chars(&mut ps, &chars_of(template.name.as_str()));
        append_chars(&mut ps, &chars_of(" with "));
        append_chars(&mut ps, &chars_of(strategy.name.as_str()));
        let mut cs: Vec<char> = Vec::new();
        append_chars(&mut cs, &chars_of("Context prepared with "));
        append_chars(&mut cs, &chars_of(strategy.name.as_str()));
        append_chars(&mut cs, &chars_of(" strategy"));
        if optimization_applied {
            append_chars(&mut cs, &chars_of(" (optimized)"));
        } else {
            append_chars(&mut cs, &chars_of(""));
        }
        Ok(EnhancedPromptResponse {
            formatted_prompt: final_prompt,
            model_config: copy_config(model_config),
            estimated_tokens,
            prompt_strategy: string_from_chars(&ps),
            context_summary: string_from_chars(&cs),
        })
    }
}


impl EnhancedPromptEngine {
    /// Whether the prompt for a request can be built: shortening it, where
    /// needed, cuts on character boundaries.
    pub fn prompt_fits_request(&self, request: &EnhancedPromptRequest) -> (res: bool)
        ensures
            res == prompt_fits(*request),
    {
        let model_config = self.get_model_config(request.model_name.as_str());
        let template = match self.select_prompt_template(request.prompt_type.as_str(), request.model_name.as_str()) {
            Some(t) => t,
            None => {
                return true;
            },
        };
        let strategy = self.select_context_strategy(request.model_name.as_str(), template);
        let context = self.prepare_prioritized_context(request, strategy, model_config);
        let formatted = self.format_prompt_for_model(template, &context, model_config, request);
        assert(template_text_for(template.model_specific@, template.template@, request.model_name@) == template.template@);
        let estimated_tokens = self.estimate_token_count(formatted.as_str(), model_config);
        let max = window_of(model_config, strategy);
        if estimated_tokens <= max {
            return true;
        }
        let t = strategy.compression_technique.as_str();
        if str_eq(t, "summarize_sections") {
            try_summarize_sections(formatted.as_str(), max).is_some()
        } else if str_eq(t, "remove_examples") {
            try_remove_examples(formatted.as_str(), max).is_some()
        } else {
            truncation_ok(formatted.as_str(), max)
        }
    }

    /// The prompt for a request, as `is_prompt_for` states, where it can be
    /// built; `None` where shortening it would cut inside a character.
    pub fn try_create_enhanced_prompt(&self, request: EnhancedPromptRequest) -> (res: Option<
        Result<EnhancedPromptResponse, PromptError>,
    >)
        ensures
            res is Some <==> prompt_fits(request),
            res matches Some(r) ==> is_prompt_for(r, request),
    {
        if self.prompt_fits_request(&request) {
            Some(self.create_enhanced_prompt(request))
        } else {
            None
        }
    }
}

/// Whether `prompt` can be cut to `max_tokens` tokens, as `truncated`
/// requires.
pub fn truncation_ok(prompt: &str, max_tokens: usize) -> (res: bool)
    ensures
        res == truncated(prompt@, max_tokens as nat) is Some,
{
    if max_tokens > usize::MAX / 4 {
        return false;
    }
    let target = max_tokens * 4;
    let len = prompt.as_bytes().len();
    proof {
        lemma_byte_len_encoding(prompt@);
    }
    if len <= target {
        return true;
    }
    char_index_at_byte(&chars_of(prompt), target).is_some()
}

/// `prompt` without the lines that give examples, cut if still too long;
/// `None` where the cut would fall inside a character.
pub fn try_remove_examples(prompt: &str, max_tokens: usize) -> (res: Option<String>)
    ensures
        res is Some <==> without_examples(prompt@, max_tokens as nat) is Some,
        res matches Some(r) ==> r@ == without_examples(prompt@, max_tokens as nat)->Some_0,
{
    let ls = lines_of(&chars_of(prompt));
    let kept = keep_non_examples(&ls);
    let w = string_from_chars(&join_chars(&kept, &chars_of("\n")));
    if estimate_text_tokens(w.as_str()) <= max_tokens {
        Some(w)
    } else if truncation_ok(w.as_str(), max_tokens) {
        Some(truncate_context(w.as_str(), max_tokens))
    } else {
        None
    }
}


/// Where `last_index_of` finds `c`, it is a position of `c`.
proof fn lemma_last_index_of(s: Seq<char>, c: char)
    ensures
        last_index_of(s, c) matches Some(p) ==> 0 <= p < s.len() && s[p] == c,
    decreases s.len(),
{
    if s.len() > 0 && s.last() != c {
        lemma_last_index_of(s.drop_last(), c);
    }
}

/// A cut prompt keeps to its budget: its encoding has at most four bytes
/// for each token allowed.
pub proof fn law_truncated_fits_budget(prompt: Seq<char>, max_tokens: nat)
    requires
        truncated(prompt, max_tokens) is Some,
    ensures
        byte_len(truncated(prompt, max_tokens)->Some_0) <= 4 * max_tokens,
{
    let target = 4 * max_tokens;
    if byte_len(prompt) > target {
        let k = char_index(prompt, target as int);
        assert(0 <= k <= prompt.len() && byte_len(prompt.take(k)) == target);
        let t = prompt.take(k);
        lemma_last_index_of(t, '.');
        lemma_last_index_of(t, ' ');
        match last_index_of(t, '.') {
            Some(p) => {
                reveal_strlit(".");
                assert(t.take(p) + "."@ == t.take(p + 1));
                lemma_byte_len_prefix_mono(t, p + 1);
            },
            None => match last_index_of(t, ' ') {
                Some(p) => {
                    lemma_byte_len_prefix_mono(t, p);
                },
                None => {},
            },
        }
    }
}

} // verus!
