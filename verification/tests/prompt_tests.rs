use ats_scanner::prompts::{
    estimate_text_tokens, format_mistral_style, summarize_sections, truncate_context,
    truncation_ok, try_remove_examples, try_summarize_sections, EnhancedPromptEngine, EnhancedPromptRequest, PromptError,
};

fn request(prompt_type: &str, model: &str) -> EnhancedPromptRequest {
    EnhancedPromptRequest {
        prompt_type: prompt_type.to_string(),
        model_name: model.to_string(),
        resume_content: "Software engineer with Python experience".to_string(),
        job_description: "Looking for Python developer".to_string(),
        industry_context: None,
        semantic_context: None,
        analysis_focus: vec!["skills".to_string()],
        output_format: "json".to_string(),
    }
}

#[test]
fn test_prompt_template_creation() {
    let engine = EnhancedPromptEngine::new();
    let request = request("skills_analysis", "llama2");
    let result = engine.create_enhanced_prompt(request).unwrap();
    assert!(result.formatted_prompt.contains("Python"));
    assert!(result.formatted_prompt.contains("[INST]"));
}

#[test]
fn test_token_estimation() {
    let engine = EnhancedPromptEngine::new();
    let config = engine.get_model_config("default");
    let text = "This is a test string for token estimation.";
    let tokens = engine.estimate_token_count(text, config);
    assert!(tokens > 0);
    assert!(tokens < text.len());
}

#[test]
fn test_model_config_selection() {
    let engine = EnhancedPromptEngine::new();
    let config = engine.get_model_config("llama2");
    assert_eq!(config.model_name, "llama2");
    let config = engine.get_model_config("llama2-7b-chat");
    assert_eq!(config.model_name, "llama2");
    let config = engine.get_model_config("unknown-model");
    assert_eq!(config.model_name, "default");
}

#[test]
fn families_and_token_adjustments() {
    let engine = EnhancedPromptEngine::new();
    assert_eq!(engine.get_model_config("Mistral-7B").model_name, "mistral");
    assert_eq!(engine.get_model_config("starcoder").model_name, "codellama");
    assert_eq!(engine.get_model_config("my-chat").model_name, "neural-chat");
    assert_eq!(engine.get_model_config("codellama").max_context_length, 4096);
    assert_eq!(estimate_text_tokens("12345"), 2);
    assert_eq!(estimate_text_tokens(""), 0);
    // 40 characters: 10 tokens; a tenth more for Llama models ("codellama"
    // is one), a tenth less for Mistral
    let text = "a".repeat(40);
    assert_eq!(engine.estimate_token_count(&text, engine.get_model_config("llama2")), 11);
    assert_eq!(engine.estimate_token_count(&text, engine.get_model_config("codellama")), 11);
    assert_eq!(engine.estimate_token_count(&text, engine.get_model_config("mistral")), 9);
}

#[test]
fn prompt_contents_and_errors() {
    let engine = EnhancedPromptEngine::new();
    let mut r = request("ats_optimization", "mistral");
    r.output_format = "text".to_string();
    let result = engine.create_enhanced_prompt(r).unwrap();
    assert!(result.formatted_prompt.starts_with("<s>[INST] Analyze this resume for ATS"));
    assert!(result.formatted_prompt.contains("Output in text format"));
    assert_eq!(result.prompt_strategy, "ATS Optimization Analysis with Balanced Approach");
    assert_eq!(result.context_summary, "Context prepared with Balanced Approach strategy");
    let err = engine.create_enhanced_prompt(request("poetry", "llama2")).unwrap_err();
    assert_eq!(err, PromptError::TemplateNotFound("poetry".to_string()));
    assert_eq!(err.message(), "No template found for prompt type: poetry");
    assert_eq!(format_mistral_style("x"), "<s>[INST] x [/INST]");
}

#[test]
fn long_prompts_are_shortened() {
    let engine = EnhancedPromptEngine::new();
    let mut r = request("comprehensive_analysis", "default");
    r.resume_content = "Built systems. ".repeat(800);
    let result = engine.create_enhanced_prompt(r).unwrap();
    // analytical strategy: 85% of the default model's 2048 tokens
    assert_eq!(result.context_summary, "Context prepared with Analytical Deep Dive strategy (optimized)");
    assert!(result.estimated_tokens > 1740);
    assert!(result.formatted_prompt.len() < 1740 * 4 + 100);
}

#[test]
fn truncation_and_sections() {
    assert_eq!(truncate_context("One. Two three", 2), "One.");
    assert_eq!(truncate_context("alpha beta gamma", 3), "alpha beta");
    assert_eq!(truncate_context("short", 5), "short");
    assert!(!truncation_ok("aéééé", 1));
    assert!(!truncation_ok("aéééé", 2));
    assert!(truncation_ok("aéééé", 3));
    assert!(truncation_ok("aaaaé", 1));
    assert_eq!(summarize_sections("aaaa\n\nbbbb\n\ncccc", 2), "aaaa\n\nbbbb");
    assert_eq!(
        try_remove_examples("Keep\nFor example this\nalso e.g. that\nend", 100).unwrap(),
        "Keep\nend"
    );
}

#[test]
fn checked_prompt_building() {
    let engine = EnhancedPromptEngine::new();
    let made = engine.try_create_enhanced_prompt(request("skills_analysis", "llama2")).unwrap().unwrap();
    assert_eq!(made.formatted_prompt, engine.create_enhanced_prompt(request("skills_analysis", "llama2")).unwrap().formatted_prompt);
    assert!(matches!(
        engine.try_create_enhanced_prompt(request("poetry", "llama2")),
        Some(Err(PromptError::TemplateNotFound(_)))
    ));
    assert!(engine.prompt_fits_request(&request("skills_analysis", "mistral")));
}

#[test]
fn checked_section_summaries() {
    assert_eq!(try_summarize_sections("aaaa\n\nbbbb\n\ncccc", 2).unwrap(), "aaaa\n\nbbbb");
    // the cut of the long section would fall inside a two-byte character
    let odd = format!("a{}", "é".repeat(300));
    assert_eq!(try_summarize_sections(&odd, 60), None);
    let even = "é".repeat(300);
    assert!(try_summarize_sections(&even, 60).is_some());
}
