use ats_scanner::format_checker::FormatCompatibilityChecker;

#[test]
fn test_table_detection() {
    let checker = FormatCompatibilityChecker::new();
    let content_with_table = "<table><tr><td>Name</td><td>Value</td></tr></table>";
    assert!(checker.contains_tables(content_with_table));
    let content_without_table = "This is regular text content without tables.";
    assert!(!checker.contains_tables(content_without_table));
}

#[test]
fn test_section_identification() {
    let checker = FormatCompatibilityChecker::new();
    let content = "EXPERIENCE\nSoftware Engineer at Company\nEDUCATION\nBachelor's Degree";
    assert!(checker.can_identify_section(content, "experience"));
    assert!(checker.can_identify_section(content, "education"));
    assert!(!checker.can_identify_section(content, "skills"));
}

#[test]
fn test_format_compatibility_check() {
    let checker = FormatCompatibilityChecker::new();
    let good_content = "John Doe\njohn@email.com\n\nEXPERIENCE\nSoftware Engineer\n\nEDUCATION\nBS Computer Science";
    let result = checker.check_comprehensive_compatibility(good_content).unwrap();
    // overall score above 80
    assert!(result.overall_score_centi > 8000);
    assert!(result.format_issues.len() < 3);
}

#[test]
fn test_problematic_content() {
    let checker = FormatCompatibilityChecker::new();
    let bad_content = "<table><tr><td>Experience</td></tr></table><img src='test.jpg'>";
    let result = checker.check_comprehensive_compatibility(bad_content).unwrap();
    // overall score below 70
    assert!(result.overall_score_centi < 7000);
    assert!(result.format_issues.len() > 0);
    let critical_issues: Vec<_> = result
        .format_issues
        .iter()
        .filter(|issue| issue.severity == "critical")
        .collect();
    assert!(critical_issues.len() > 0);
}

#[test]
fn test_parsing_simulation() {
    let checker = FormatCompatibilityChecker::new();
    let content = "John Doe\nemail@test.com\n\nSUMMARY\nExperienced developer\n\nEXPERIENCE\nSoftware Engineer\n\nSKILLS\nPython, JavaScript";
    let simulation = checker.simulate_parsing_process(content);
    // extraction accuracy above one half
    let total = simulation.successful_sections.len() + simulation.failed_sections.len();
    assert!(simulation.successful_sections.len() * 2 > total);
    assert!(simulation.successful_sections.contains(&"contact".to_string()));
    assert!(simulation.successful_sections.contains(&"summary".to_string()));
    assert!(simulation.successful_sections.contains(&"experience".to_string()));
    assert!(simulation.successful_sections.contains(&"skills".to_string()));
}

#[test]
fn system_scores_and_issue_details() {
    let checker = FormatCompatibilityChecker::new();
    let bad_content = "<table><tr><td>Experience</td></tr></table><img src='test.jpg'>";
    let result = checker.check_comprehensive_compatibility(bad_content).unwrap();
    let scores: Vec<(String, u32)> = result.ats_specific_scores.clone();
    assert_eq!(
        scores,
        vec![
            ("greenhouse".to_string(), 75),
            ("lever".to_string(), 100),
            ("workday".to_string(), 70),
            ("icims".to_string(), 100),
        ]
    );
    // (75 + 100 + 70 + 100) / 4 = 86.25, less tables (25), images (30)
    // and unclear sections (15)
    assert_eq!(result.overall_score_centi, 1625);
    let first = &result.format_issues[0];
    assert_eq!(first.issue_type, "table_usage");
    assert_eq!(first.severity, "critical");
    assert_eq!(first.section_affected, "experience");
    assert_eq!(first.impact_score, 25);
    assert_eq!(
        result.recommendations[0],
        "Convert all text in images to regular text in the document"
    );
}

#[test]
fn severity_thresholds() {
    let checker = FormatCompatibilityChecker::new();
    assert_eq!(checker.determine_severity(25), "critical");
    assert_eq!(checker.determine_severity(20), "critical");
    assert_eq!(checker.determine_severity(15), "high");
    assert_eq!(checker.determine_severity(10), "high");
    assert_eq!(checker.determine_severity(5), "medium");
    assert_eq!(checker.determine_severity(3), "low");
}

#[test]
fn clean_document_gets_praise() {
    let checker = FormatCompatibilityChecker::new();
    let content = "Summary\nExperience at ACME\nEducation: BSc\nSkills: Rust";
    let result = checker.check_comprehensive_compatibility(content).unwrap();
    assert!(result.format_issues.is_empty());
    assert_eq!(result.overall_score_centi, 10000);
    assert_eq!(
        result.recommendations,
        vec!["Your resume format is well-optimized for ATS systems".to_string()]
    );
}

#[test]
fn fonts_and_special_characters_are_reported() {
    let checker = FormatCompatibilityChecker::new();
    let content = "font: Papyrus; • experience education skills";
    let fonts = checker.check_fonts(content);
    assert_eq!(fonts, vec!["Papyrus".to_string()]);
    assert!(checker.has_problematic_characters(content));
    let issues = checker.check_problematic_elements(content);
    let types: Vec<&str> = issues.iter().map(|i| i.issue_type.as_str()).collect();
    assert_eq!(types, vec!["non_standard_font", "special_characters"]);
    assert_eq!(issues[0].description, "Font 'Papyrus' may not be ATS-friendly");
}

#[test]
fn affected_section_window_split_in_character_is_refused() {
    let checker = FormatCompatibilityChecker::new();
    // The first "<img" starts 101 bytes in; the range starts 100 bytes
    // before it, inside the two-byte "é".
    let mut content = String::from("é");
    content.push_str(&"a".repeat(99));
    content.push_str("<img src='x.png'>");
    assert!(!checker.rule_locatable(&content, r"<img|\.jpg|\.png|\.gif"));
    assert!(checker.compatibility_report(&content).is_none());
    assert!(checker.compatibility_report("plain text").is_some());
}

#[test]
fn penalty_and_parsing_prediction() {
    let checker = FormatCompatibilityChecker::new();
    let content = "<table> plain";
    // tables (25) and no clear headers (15)
    assert_eq!(checker.calculate_format_penalty(content), 40);
    let sim = checker.simulate_parsing_process(content);
    assert!(sim.successful_sections.is_empty());
    assert_eq!(sim.predicted_parsing_score_sixths, 0);
}
