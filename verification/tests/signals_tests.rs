use ats_scanner::fallback::get_fallback_keywords;
use ats_scanner::signals::{
    analyze_seniority_signals, experience_indicators_checked, extract_experience_indicators,
    extract_keyword_context, extract_keyword_context_simple, find_synonyms_in_content,
    keyword_context_checked, keyword_contexts_checked, keyword_frequency, seniority_signals_checked,
};

#[test]
fn experience_indicators_of_a_resume_line() {
    let content = "senior software engineer with 5 years of experience";
    let found = extract_experience_indicators(content);
    assert_eq!(found.len(), 2);
    assert_eq!(found[0].indicator_type, "experience_mention");
    assert_eq!(found[0].description, "5 years of experience");
    assert_eq!(found[0].weight_tenths, 10);
    assert_eq!(found[0].context, content);
    assert_eq!(found[1].indicator_type, "role_keyword");
    assert_eq!(found[1].description, "senior");
    assert_eq!(found[1].weight_tenths, 18);
    assert_eq!(found[1].context, content);
    let checked = experience_indicators_checked(content).unwrap();
    assert_eq!(checked.len(), 2);
    assert!(extract_experience_indicators("nothing to see").is_empty());
}

#[test]
fn role_keywords_come_in_table_order() {
    let found = extract_experience_indicators("expert consultant and director");
    let names: Vec<&str> = found.iter().map(|i| i.description.as_str()).collect();
    assert_eq!(names, vec!["director", "consultant", "expert"]);
    let weights: Vec<u32> = found.iter().map(|i| i.weight_tenths).collect();
    assert_eq!(weights, vec![30, 15, 17]);
}

#[test]
fn seniority_signals_with_context() {
    let content = "mentored junior developers and designed the architecture";
    let signals = analyze_seniority_signals(content);
    assert_eq!(signals.len(), 2);
    assert_eq!(signals[0].signal_type, "seniority_keyword");
    assert_eq!(signals[0].description, "Architecture decisions show senior technical role");
    assert_eq!(signals[0].strength_tenths, 20);
    assert_eq!(signals[0].context, "ored junior developers and designed the architecture");
    assert_eq!(signals[1].description, "Design responsibility indicates senior technical role");
    assert_eq!(signals[1].strength_tenths, 14);
    assert_eq!(signals[1].context, content);
    assert_eq!(seniority_signals_checked(content).unwrap().len(), 2);
    assert!(analyze_seniority_signals("junior developer").is_empty());
}

#[test]
fn keyword_context_is_found_without_regard_to_case() {
    assert_eq!(extract_keyword_context_simple("ABC def", "DEF", 2), "def");
    assert_eq!(extract_keyword_context_simple("ABC def", "xyz", 2), "");
    assert_eq!(extract_keyword_context_simple("one two three four", "three", 4), "o three f");
    assert_eq!(keyword_context_checked("ABC def", "def", 2), Some("def".to_string()));
}

#[test]
fn keyword_context_refused_when_lowercase_shifts_offsets() {
    // "İ" lowercases to two characters, so the offset found in the
    // lowercased text lies beyond the end of the original.
    assert_eq!(keyword_context_checked("İİx", "x", 0), None);
}

#[test]
fn fallback_keywords_of_a_sales_industry() {
    let kws = get_fallback_keywords("Sales");
    assert_eq!(kws.len(), 13);
    assert_eq!(kws[0].id, "fallback-Sales-communication");
    assert_eq!(kws[0].industry, "Sales");
    assert_eq!(kws[0].weight_tenths, 13);
    assert_eq!(kws[0].synonyms, r#"["verbal communication", "written communication"]"#);
    assert_eq!(kws[10].keyword, "sales experience");
    assert_eq!(kws[10].id, "fallback-Sales-sales_experience");
    assert_eq!(kws[10].category, "domain");
    assert_eq!(kws[10].weight_tenths, 14);
}

#[test]
fn fallback_keywords_of_other_industries() {
    let kws = get_fallback_keywords("Widgets");
    assert_eq!(kws.len(), 13);
    assert_eq!(kws[12].keyword, "compliance");
    assert_eq!(kws[12].category, "regulation");
    let hr = get_fallback_keywords("HR");
    assert_eq!(hr[10].keyword, "recruitment");
    assert_eq!(hr[9].id, "fallback-HR-attention_to_detail");
}

#[test]
fn every_occurrence_gets_its_context() {
    let all = extract_keyword_context("Python and python, PYTHON!", "python");
    assert_eq!(all.len(), 3);
    assert!(all.iter().all(|c| c == "Python and python, PYTHON!"));
    let text = format!("{} Rust {}", "a".repeat(60), "b".repeat(60));
    let around = extract_keyword_context(&text, "rust");
    assert_eq!(around, vec![format!("{} Rust {}", "a".repeat(49), "b".repeat(49))]);
    assert!(extract_keyword_context("nothing here", "rust").is_empty());
}

#[test]
fn empty_keyword_is_refused() {
    assert_eq!(keyword_contexts_checked("text", ""), None);
    assert_eq!(keyword_contexts_checked("a rust b", "Rust"), Some(vec!["a rust b".to_string()]));
}

#[test]
fn synonyms_found_in_content() {
    let found = find_synonyms_in_content("uses k8s and helm", r#"["K8S", "docker", "Helm"]"#);
    assert_eq!(found, vec!["K8S".to_string(), "Helm".to_string()]);
    assert!(find_synonyms_in_content("uses k8s", "not json").is_empty());
}

#[test]
fn seeded_keyword_identifiers() {
    assert_eq!(ats_scanner::fallback::seed_keyword_id("technology", "machine learning"), "technology-machine_learning");
    assert_eq!(ats_scanner::fallback::seed_keyword_id("finance", "sox"), "finance-sox");
}

#[test]
fn keyword_frequency_counts_like_matches() {
    assert_eq!(keyword_frequency("Python, python and PYTHON", "python"), (true, 3));
    // non-overlapping, from the left
    assert_eq!(keyword_frequency("aaaa", "aa"), (true, 2));
    assert_eq!(keyword_frequency("aaa", "aa"), (true, 1));
    assert_eq!(keyword_frequency("java developer", "rust"), (false, 0));
    // an empty keyword matches at every boundary
    assert_eq!(keyword_frequency("abc", ""), (true, 4));
}
