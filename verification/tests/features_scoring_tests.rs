use ats_scanner::ml_features::{
    extract_skills_from_resume, StructuralFeatureExtractor, TextualFeatureExtractor,
};
use ats_scanner::scoring::{
    calculate_education_score, calculate_experience_score, calculate_leadership_score,
    dynamic_weight_points, fallback_industry_detection, industries_are_related,
    industry_weighting, industry_word_overlap, role_weighting, validate_and_normalize_industry,
    IndustryWeighting, RoleWeighting, WeightPoints,
};

#[test]
fn textual_features() {
    let t = TextualFeatureExtractor;
    let text = "Software Engineer with 5 years experience in Python and machine learning.";
    assert_eq!(t.word_count(text), 11);
    assert_eq!(t.sentence_count(text), 2);
    assert_eq!(t.char_count("héllo"), 5);
    let (common, total) = t.keyword_overlap(text, "Looking for Python developer with ML experience.");
    // python, with (experience. differs from experience)
    assert_eq!((common, total), (2, 7));
    assert_eq!(t.readability_bucket(text), 50);
    assert_eq!(t.get_feature_names().len(), 5);
}

#[test]
fn structural_features() {
    let s = StructuralFeatureExtractor;
    let text = "SUMMARY\n • Led team\n- shipped\nSkills: Rust, Go\nme@x.io  phone";
    assert_eq!(s.count_sections(text), 2);
    assert_eq!(s.count_bullet_points(text), 2);
    assert_eq!(s.contact_elements_found(text), 2);
    assert_eq!(s.formatting_checks_passed(text), 2);
    assert_eq!(s.formatting_checks_passed("plain text. Ok"), 3);
}

#[test]
fn model_answers_are_normalized() {
    assert_eq!(validate_and_normalize_industry("  Healthcare  "), "healthcare/medical");
    assert_eq!(validate_and_normalize_industry("The answer: TECHNOLOGY"), "technology/software");
    // "it" occurs inside "digital"
    assert_eq!(validate_and_normalize_industry("digital"), "technology/software");
    assert_eq!(validate_and_normalize_industry("zzz"), "unknown");
}

#[test]
fn keyword_fallback_picks_the_best_industry() {
    assert_eq!(fallback_industry_detection("Nothing relevant here"), "general");
    assert_eq!(
        fallback_industry_detection("Registered nurse caring for each patient in the hospital"),
        "healthcare/medical"
    );
    assert_eq!(
        fallback_industry_detection("Python developer building a REST API and database"),
        "technology/software"
    );
}

#[test]
fn related_industry_groups() {
    assert!(industries_are_related("technology/software", "consulting/professional"));
    assert!(industries_are_related("real estate", "construction"));
    assert!(!industries_are_related("healthcare/medical", "finance/banking"));
    assert!(!industries_are_related("Technology/Software", "consulting/professional"));
}

#[test]
fn industry_names_share_words() {
    assert_eq!(industry_word_overlap("technology/software", "software-engineering"), (1, 3));
    assert_eq!(industry_word_overlap("a//b", "b"), (1, 3));
    assert_eq!(industry_word_overlap("legal/law", "legal/law"), (2, 2));
}

#[test]
fn skills_named_in_a_resume() {
    let skills = extract_skills_from_resume("Built Node.js services on AWS; Machine Learning with Python.");
    assert_eq!(skills, vec!["python", "node.js", "aws", "machine learning"]);
    // "javascript" contains "java"
    assert_eq!(extract_skills_from_resume("JavaScript"), vec!["java", "javascript"]);
    assert!(extract_skills_from_resume("gardening").is_empty());
}

#[test]
fn weighting_groups_ignore_case() {
    assert_eq!(industry_weighting("Software"), IndustryWeighting::Technology);
    assert_eq!(industry_weighting("IT"), IndustryWeighting::Technology);
    assert_eq!(industry_weighting("medical"), IndustryWeighting::Healthcare);
    assert_eq!(industry_weighting("Banking"), IndustryWeighting::Finance);
    assert_eq!(industry_weighting("ACADEMIC"), IndustryWeighting::Education);
    assert_eq!(industry_weighting("retail"), IndustryWeighting::Standard);
    assert_eq!(role_weighting("Principal"), RoleWeighting::Senior);
    assert_eq!(role_weighting("CTO"), RoleWeighting::Executive);
    assert_eq!(role_weighting("intern"), RoleWeighting::Entry);
    assert_eq!(role_weighting("mid"), RoleWeighting::Standard);
}

fn total(w: &WeightPoints) -> u32 {
    w.technical_skills + w.experience + w.education + w.keywords + w.format + w.leadership
        + w.certifications + w.industry_specific
}

#[test]
fn dynamic_weights_for_senior_technology() {
    let w = dynamic_weight_points("technology", "senior");
    assert_eq!(
        w,
        WeightPoints {
            technical_skills: 30,
            experience: 30,
            education: 5,
            keywords: 10,
            format: 10,
            leadership: 15,
            certifications: 10,
            industry_specific: 5,
        }
    );
    assert_eq!(total(&w), 115);
}

#[test]
fn dynamic_weights_defaults_and_entry() {
    let d = dynamic_weight_points("retail", "mid");
    assert_eq!((d.technical_skills, d.experience, d.education, d.leadership), (25, 20, 15, 5));
    assert_eq!(total(&d), 100);
    let e = dynamic_weight_points("healthcare", "junior");
    assert_eq!((e.education, e.technical_skills, e.experience, e.leadership), (35, 15, 10, 0));
    assert_eq!(total(&e), 115);
    let x = dynamic_weight_points("Finance", "Executive");
    assert_eq!((x.leadership, x.experience, x.technical_skills, x.education, x.keywords), (25, 35, 5, 10, 0));
    assert_eq!(total(&x), 115);
}

#[test]
fn experience_score_parts() {
    // 50 + min(2*5, 30) + 25 (senior) + 2*3
    assert_eq!(calculate_experience_score(Some(5), "senior", 3), 91);
    // years and indicators both capped; level bonus 40; total capped at 100
    assert_eq!(calculate_experience_score(Some(20), "executive", 15), 100);
    // unknown level gives 10; no estimate adds nothing
    assert_eq!(calculate_experience_score(None, "unknown", 0), 60);
    assert_eq!(calculate_experience_score(None, "entry", 1), 57);
    assert_eq!(calculate_experience_score(Some(-10), "entry", 0), 35);
}

#[test]
fn education_score_parts() {
    assert_eq!(calculate_education_score("PhD in Computer Science"), 55);
    assert_eq!(calculate_education_score("MBA, professional development courses"), 40);
    assert_eq!(calculate_education_score("Bachelor of Arts"), 20);
    assert_eq!(calculate_education_score("Diploma in Engineering, continuing education"), 35);
    assert_eq!(calculate_education_score("High school"), 0);
}

#[test]
fn leadership_score_parts() {
    // 2 indicators (20) + led, managed, mentored (15) + senior (15)
    assert_eq!(calculate_leadership_score("Led a team; Managed budgets; mentored juniors", 2, "senior"), 50);
    // indicators capped at 40, executive 30, words: led, directed, principal
    assert_eq!(calculate_leadership_score("LED and DIRECTED as Principal", 7, "executive"), 85);
    assert_eq!(calculate_leadership_score("wrote code", 0, "mid"), 0);
    // all eleven words: 55, + 40 + 20 is capped at 100
    let all = "led managed supervised directed coordinated mentored team lead project manager scrum master architect principal";
    assert_eq!(calculate_leadership_score(all, 9, "lead"), 100);
}
