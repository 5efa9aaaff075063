use ats_scanner::industry::{
    are_related_industries, count_job_positions, determine_leadership_scope,
    estimate_years_of_experience, extract_leadership_indicators, extract_surrounding_context,
    extract_team_size, leadership_indicators_checked,
};
use ats_scanner::text::parse_i32;

#[test]
fn test_experience_estimation() {
    let content = "Senior software engineer with 5 years of experience";
    let years = estimate_years_of_experience(&content.to_lowercase());
    assert_eq!(years, Some(5));
}

#[test]
fn years_from_positions_and_titles() {
    assert_eq!(estimate_years_of_experience("over 12 years in sales"), Some(12));
    // no dates: one position, no senior title
    assert_eq!(estimate_years_of_experience("developer"), Some(2));
    assert_eq!(estimate_years_of_experience("senior developer"), Some(4));
    // one position with a management title gives no estimate
    assert_eq!(estimate_years_of_experience("manager"), None);
    let dates = "2010 - 2012\n2012 - 2015\n2015 - 2018\n2018 - present\n2005 - 2010\n2001 - 2005";
    assert_eq!(count_job_positions(dates), 3);
    assert_eq!(estimate_years_of_experience(dates), Some(5));
    assert_eq!(count_job_positions("january 2020, march 2021"), 1);
    // a number too large for i32 is skipped
    assert_eq!(estimate_years_of_experience("99999999999 years of experience, over 3 years"), Some(3));
}

#[test]
fn integers_parse_like_std() {
    assert_eq!(parse_i32("42"), Some(42));
    assert_eq!(parse_i32("+7"), Some(7));
    assert_eq!(parse_i32("-2147483648"), Some(i32::MIN));
    assert_eq!(parse_i32("2147483648"), None);
    assert_eq!(parse_i32("-"), None);
    assert_eq!(parse_i32(""), None);
    assert_eq!(parse_i32("1a"), None);
    assert_eq!(parse_i32("٣"), None);
}

#[test]
fn team_size_and_scope() {
    assert_eq!(extract_team_size("Led a team of 8 engineers"), Some(8));
    assert_eq!(extract_team_size("managed 12 people"), Some(12));
    assert_eq!(extract_team_size("managed people"), None);
    assert_eq!(determine_leadership_scope("the whole Department"), "department");
    assert_eq!(determine_leadership_scope("a team"), "team");
    assert_eq!(determine_leadership_scope("one project"), "project");
    assert_eq!(determine_leadership_scope("alone"), "individual");
}

#[test]
fn related_industry_names() {
    assert!(are_related_industries("Software", "tech"));
    assert!(are_related_industries("banking", "FinTech"));
    assert!(!are_related_industries("banking", "retail"));
}

#[test]
fn leadership_mentions_with_context() {
    let content = "I led a team of 4 engineers on the payments project.";
    let found = extract_leadership_indicators(content);
    assert_eq!(found.len(), 1);
    assert_eq!(found[0].description, "led a team");
    assert_eq!(found[0].team_size, Some(4));
    assert_eq!(found[0].scope, "team");
    assert_eq!(found[0].context, content);
    assert_eq!(extract_surrounding_context("abcdefghij", 4, 6, 2), "cdefgh");
    let mut long = String::from("é");
    long.push_str(&"x".repeat(98));
    long.push_str(" led a team");
    assert!(leadership_indicators_checked(&long).is_none());
    assert!(leadership_indicators_checked(content).is_some());
}
