use ats_scanner::industry::{industry_relation, IndustryRelation};
use ats_scanner::scoring::{classification_match, ClassificationMatch};
use ats_scanner::industry_rules::{build_industry_rules, check_industry_certifications, industry_pattern_counts};

#[test]
fn rules_of_technology_and_finance() {
    let rules = build_industry_rules();
    assert_eq!(rules.len(), 2);
    assert_eq!(rules[0].0, "technology");
    assert_eq!(rules[0].1.industry_name, "Technology");
    assert_eq!(rules[0].1.required_keywords, vec!["software", "programming", "development", "code", "technical", "system"]);
    assert_eq!(rules[0].1.certifications[0].name, "AWS Certified");
    assert_eq!(rules[0].1.certifications[0].importance_thousandths, 900);
    assert_eq!(rules[0].1.certifications[0].validity_years, Some(3));
    assert_eq!(rules[1].0, "finance");
    assert_eq!(rules[1].1.preferred_keywords[0], "risk management");
    assert_eq!(rules[1].1.certifications[0].name, "CPA");
    assert_eq!(rules[1].1.certifications[0].importance_thousandths, 950);
    assert_eq!(rules[1].1.certifications[1].validity_years, None);
}

#[test]
fn certification_checks() {
    let checks = check_industry_certifications("Holds the aws certified solutions architect credential", "technology");
    assert_eq!(checks.len(), 2);
    assert!(checks[0].found);
    assert_eq!(checks[0].expiry_status.as_deref(), Some("Valid"));
    assert_eq!(checks[0].recommendation_reason, "Certification 'AWS Certified' found in resume");
    assert_eq!(checks[0].alternatives, vec!["Azure Certified", "Google Cloud"]);
    assert!(!checks[1].found);
    assert_eq!(checks[1].expiry_status, None);
    assert_eq!(
        checks[1].recommendation_reason,
        "Consider obtaining 'Kubernetes' certification - importance: 80.0%"
    );
    let finance = check_industry_certifications("CFA charterholder", "finance");
    assert_eq!(finance[0].recommendation_reason, "Consider obtaining 'CPA' certification - importance: 95.0%");
    assert!(finance[1].found);
    assert!(check_industry_certifications("anything", "healthcare").is_empty());
    // the key is matched exactly
    assert!(check_industry_certifications("CPA", "Finance").is_empty());
}

#[test]
fn industry_pattern_counts_by_industry() {
    let counts = industry_pattern_counts("Software engineer: Python, Docker and AWS; built a banking API");
    assert_eq!(counts, vec![("technology".to_string(), 5), ("finance".to_string(), 1)]);
    assert!(industry_pattern_counts("gardening").is_empty());
    assert_eq!(industry_pattern_counts("Clinical nurse at a HOSPITAL"), vec![("healthcare".to_string(), 3)]);
}

#[test]
fn industry_relations() {
    assert_eq!(industry_relation("Technology", "technology"), IndustryRelation::Same);
    assert_eq!(industry_relation("software", "IT"), IndustryRelation::Related);
    assert_eq!(industry_relation("retail", "healthcare"), IndustryRelation::Unrelated);
}

#[test]
fn classification_matches() {
    assert_eq!(classification_match("Finance/Banking", "finance/banking"), ClassificationMatch::Same);
    assert_eq!(classification_match("legal/law", "Government/Public"), ClassificationMatch::Related);
    assert_eq!(classification_match("retail/consumer", "healthcare/medical"), ClassificationMatch::Specific);
    assert_eq!(classification_match("unknown", "technology/software"), ClassificationMatch::Unspecific);
    assert_eq!(classification_match("general", "retail/consumer"), ClassificationMatch::Unspecific);
}
