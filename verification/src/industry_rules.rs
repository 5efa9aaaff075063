//! The rules the industry analysis holds for a few industries (the keywords
//! it expects and the certifications it values), the check of a resume
//! against those certifications, and the patterns that point to an
//! industry.
use vstd::prelude::*;
use crate::text::{chars_of, contains, contains_chars, append_chars, string_from_chars, str_eq, decimal, decimal_text, opt_view};
use crate::unicode::{lowercase, to_lowercase};
use crate::document::string_views;
use crate::pattern::{count_matches, regex_accepts, regex_match_count};

verus! {

/// A certification as the rules hold it: its name, its importance in
/// thousandths, the roles it is required for, its alternatives and the
/// years it stays valid.
pub type CertRow = (Seq<char>, u32, Seq<Seq<char>>, Seq<Seq<char>>, Option<i32>);

/// The rules of an industry: the key they are found by, the display name,
/// the required keywords, the preferred keywords and the certifications.
pub type RulesRow = (Seq<char>, Seq<char>, Seq<Seq<char>>, Seq<Seq<char>>, Seq<CertRow>);

/// The rules of every industry that has them.
pub open spec fn industry_rules_table() -> Seq<RulesRow> {
    seq![
        (
            "technology"@,
            "Technology"@,
            seq!["software"@, "programming"@, "development"@, "code"@, "technical"@, "system"@],
            seq!["agile"@, "scrum"@, "devops"@, "cloud"@, "api"@, "database"@],
            seq![
                ("AWS Certified"@, 900u32, seq!["Senior"@, "Lead"@], seq!["Azure Certified"@, "Google Cloud"@], Some(3i32)),
                ("Kubernetes"@, 800u32, seq!["DevOps"@], seq!["Docker Certified"@], Some(2i32)),
            ],
        ),
        (
            "finance"@,
            "Finance"@,
            seq!["financial"@, "accounting"@, "budget"@, "analysis"@, "reporting"@, "compliance"@],
            seq!["risk management"@, "audit"@, "investment"@, "portfolio"@, "regulatory"@, "sox"@],
            seq![
                ("CPA"@, 950u32, seq!["Senior Accountant"@, "Finance Manager"@], seq!["CMA"@], None),
                ("CFA"@, 900u32, seq!["Investment Analyst"@], seq!["FRM"@], None),
            ],
        ),
    ]
}

/// A certification valued in an industry.
#[derive(Debug, Clone)]
pub struct IndustryCertification {
    pub name: String,
    /// The importance in thousandths: 900 stands for 0.9.
    pub importance_thousandths: u32,
    pub required_for_levels: Vec<String>,
    pub alternatives: Vec<String>,
    pub validity_years: Option<i32>,
}

/// What the rules of an industry expect.
#[derive(Debug, Clone)]
pub struct IndustryRules {
    pub industry_name: String,
    pub required_keywords: Vec<String>,
    pub preferred_keywords: Vec<String>,
    pub certifications: Vec<IndustryCertification>,
}

pub open spec fn cert_view(c: IndustryCertification) -> CertRow {
    (c.name@, c.importance_thousandths, string_views(c.required_for_levels@), string_views(c.alternatives@), c.validity_years)
}

pub open spec fn rules_view(key: Seq<char>, r: IndustryRules) -> RulesRow {
    (
        key,
        r.industry_name@,
        string_views(r.required_keywords@),
        string_views(r.preferred_keywords@),
        r.certifications@.map_values(|c: IndustryCertification| cert_view(c)),
    )
}

pub open spec fn table_view(t: Seq<(String, IndustryRules)>) -> Seq<RulesRow> {
    t.map_values(|e: (String, IndustryRules)| rules_view(e.0@, e.1))
}

fn strings2(a: &str, b: &str) -> (res: Vec<String>)
    ensures
        string_views(res@) == seq![a@, b@],
{
    let mut v: Vec<String> = Vec::new();
    v.push(a.to_string());
    v.push(b.to_string());
    assert(string_views(v@) =~= seq![a@, b@]);
    v
}

fn strings1(a: &str) -> (res: Vec<String>)
    ensures
        string_views(res@) == seq![a@],
{
    let mut v: Vec<String> = Vec::new();
    v.push(a.to_string());
    assert(string_views(v@) =~= seq![a@]);
    v
}

fn strings6(a: &str, b: &str, c: &str, d: &str, e: &str, f: &str) -> (res: Vec<String>)
    ensures
        string_views(res@) == seq![a@, b@, c@, d@, e@, f@],
{
    let mut v: Vec<String> = Vec::new();
    v.push(a.to_string());
    v.push(b.to_string());
    v.push(c.to_string());
    v.push(d.to_string());
    v.push(e.to_string());
    v.push(f.to_string());
    assert(string_views(v@) =~= seq![a@, b@, c@, d@, e@, f@]);
    v
}

fn certification(
    name: &str,
    importance_thousandths: u32,
    required_for_levels: Vec<String>,
    alternatives: Vec<String>,
    validity_years: Option<i32>,
) -> (res: IndustryCertification)
    ensures
        cert_view(res) == (name@, importance_thousandths, string_views(required_for_levels@), string_views(alternatives@), validity_years),
{
    IndustryCertification {
        name: name.to_string(),
        importance_thousandths,
        required_for_levels,
        alternatives,
        validity_years,
    }
}

/// The rules of every industry that has them, each with the key it is
/// found by.
pub fn build_industry_rules() -> (res: Vec<(String, IndustryRules)>)
    ensures
        res@.len() == 2,
        table_view(res@) == industry_rules_table(),
{
    let mut tech_certs: Vec<IndustryCertification> = Vec::new();
    tech_certs.push(certification(
        "AWS Certified",
        900,
        strings2("Senior", "Lead"),
        strings2("Azure Certified", "Google Cloud"),
        Some(3),
    ));
    tech_certs.push(certification("Kubernetes", 800, strings1("DevOps"), strings1("Docker Certified"), Some(2)));
    assert(tech_certs@.map_values(|c: IndustryCertification| cert_view(c)) =~= industry_rules_table()[0].4);
    let technology = IndustryRules {
        industry_name: "Technology".to_string(),
        required_keywords: strings6("software", "programming", "development", "code", "technical", "system"),
        preferred_keywords: strings6("agile", "scrum", "devops", "cloud", "api", "database"),
        certifications: tech_certs,
    };
    let mut finance_certs: Vec<IndustryCertification> = Vec::new();
    finance_certs.push(certification(
        "CPA",
        950,
        strings2("Senior Accountant", "Finance Manager"),
        strings1("CMA"),
        None,
    ));
    finance_certs.push(certification("CFA", 900, strings1("Investment Analyst"), strings1("FRM"), None));
    assert(finance_certs@.map_values(|c: IndustryCertification| cert_view(c)) =~= industry_rules_table()[1].4);
    let finance = IndustryRules {
        industry_name: "Finance".to_string(),
        required_keywords: strings6("financial", "accounting", "budget", "analysis", "reporting", "compliance"),
        preferred_keywords: strings6("risk management", "audit", "investment", "portfolio", "regulatory", "sox"),
        certifications: finance_certs,
    };
    let mut rules: Vec<(String, IndustryRules)> = Vec::new();
    rules.push(("technology".to_string(), technology));
    rules.push(("finance".to_string(), finance));
    assert(rules_view(rules@[0].0@, rules@[0].1) == industry_rules_table()[0]);
    assert(rules_view(rules@[1].0@, rules@[1].1) == industry_rules_table()[1]);
    assert(table_view(rules@) =~= industry_rules_table());
    rules
}

/// The certifications the rules of an industry value, found by the exact
/// key; none where the industry has no rules.
pub open spec fn valued_certifications(industry: Seq<char>) -> Seq<CertRow> {
    if industry == "technology"@ {
        industry_rules_table()[0].4
    } else if industry == "finance"@ {
        industry_rules_table()[1].4
    } else {
        seq![]
    }
}

/// The importance of a certification as a percentage with one decimal:
/// 950 thousandths read "95.0%".
pub open spec fn importance_percent_text(t: u32) -> Seq<char> {
    decimal((t / 10) as int) + "."@ + decimal((t % 10) as int) + "%"@
}

/// Why a certification is reported as it is.
pub open spec fn certification_reason(name: Seq<char>, found: bool, importance: u32) -> Seq<char> {
    if found {
        "Certification '"@ + name + "' found in resume"@
    } else {
        "Consider obtaining '"@ + name + "' certification - importance: "@ + importance_percent_text(importance)
    }
}

/// A valued certification and whether a resume names it.
#[derive(Debug, Clone)]
pub struct CertificationCheck {
    pub certification_name: String,
    pub found: bool,
    /// The importance in thousandths.
    pub importance_thousandths: u32,
    /// "Valid" where the resume names the certification.
    pub expiry_status: Option<String>,
    pub alternatives: Vec<String>,
    pub recommendation_reason: String,
}

/// A check as names, flags and numbers.
pub type CheckView = (Seq<char>, bool, u32, Option<Seq<char>>, Seq<Seq<char>>, Seq<char>);

pub open spec fn check_view(c: CertificationCheck) -> CheckView {
    (
        c.certification_name@,
        c.found,
        c.importance_thousandths,
        opt_view(c.expiry_status),
        string_views(c.alternatives@),
        c.recommendation_reason@,
    )
}

/// The check of one valued certification against a lowercased resume.
pub open spec fn check_of(lc: Seq<char>, c: CertRow) -> CheckView {
    let found = contains(lc, lowercase(c.0));
    (
        c.0,
        found,
        c.1,
        if found { Some("Valid"@) } else { None },
        c.3,
        certification_reason(c.0, found, c.1),
    )
}

/// The reason text for a certification.
fn reason_text(name: &str, found: bool, importance: u32) -> (res: String)
    ensures
        res@ == certification_reason(name@, found, importance),
{
    let mut v: Vec<char> = Vec::new();
    if found {
        append_chars(&mut v, &chars_of("Certification '"));
        append_chars(&mut v, &chars_of(name));
        append_chars(&mut v, &chars_of("' found in resume"));
    } else {
        append_chars(&mut v, &chars_of("Consider obtaining '"));
        append_chars(&mut v, &chars_of(name));
        append_chars(&mut v, &chars_of("' certification - importance: "));
        append_chars(&mut v, &chars_of(&decimal_text((importance / 10) as i64)));
        append_chars(&mut v, &chars_of("."));
        append_chars(&mut v, &chars_of(&decimal_text((importance % 10) as i64)));
        append_chars(&mut v, &chars_of("%"));
    }
    string_from_chars(&v)
}

fn clone_strings(v: &Vec<String>) -> (res: Vec<String>)
    ensures
        string_views(res@) == string_views(v@),
{
    let mut out: Vec<String> = Vec::new();
    let mut i: usize = 0;
    while i < v.len()
        invariant
            i <= v.len(),
            out@.len() == i,
            forall|k: int| 0 <= k < i ==> #[trigger] out@[k]@ == v@[k]@,
        decreases v.len() - i,
    {
        out.push(v[i].as_str().to_string());
        i += 1;
    }
    assert(string_views(out@) =~= string_views(v@));
    out
}

/// The valued certifications of an industry, each with whether the resume
/// names it (without regard to case), its importance, its alternatives and
/// the reason it is reported; none where the industry has no rules.
pub fn check_industry_certifications(resume_content: &str, industry: &str) -> (res: Vec<CertificationCheck>)
    ensures
        res@.map_values(|c: CertificationCheck| check_view(c)) == valued_certifications(industry@).map_values(
            |c: CertRow| check_of(lowercase(resume_content@), c),
        ),
{
    let mut out: Vec<CertificationCheck> = Vec::new();
    let index: usize = if str_eq(industry, "technology") {
        0
    } else if str_eq(industry, "finance") {
        1
    } else {
        assert(out@.map_values(|c: CertificationCheck| check_view(c)) =~= valued_certifications(industry@).map_values(
            |c: CertRow| check_of(lowercase(resume_content@), c),
        ));
        return out;
    };
    let rules = build_industry_rules();
    let certs = &rules[index].1.certifications;
    let ghost rows = valued_certifications(industry@);
    assert(table_view(rules@)[index as int] == rules_view(rules@[index as int].0@, rules@[index as int].1));
    assert(certs@.map_values(|c: IndustryCertification| cert_view(c)) == rows);
    let lc = chars_of(&to_lowercase(resume_content));
    let mut i: usize = 0;
    while i < certs.len()
        invariant
            i <= certs.len(),
            certs@.map_values(|c: IndustryCertification| cert_view(c)) == rows,
            lc@ == lowercase(resume_content@),
            out@.len() == i,
            forall|k: int| 0 <= k < i ==> #[trigger] check_view(out@[k]) == check_of(lowercase(resume_content@), rows[k]),
        decreases certs.len() - i,
    {
        let cert = &certs[i];
        assert(cert_view(*cert) == rows[i as int]);
        let name_lc = chars_of(&to_lowercase(cert.name.as_str()));
        let found = contains_chars(&lc, &name_lc);
        let reason = reason_text(cert.name.as_str(), found, cert.importance_thousandths);
        let check = CertificationCheck {
            certification_name: cert.name.as_str().to_string(),
            found,
            importance_thousandths: cert.importance_thousandths,
            expiry_status: if found { Some("Valid".to_string()) } else { None },
            alternatives: clone_strings(&cert.alternatives),
            recommendation_reason: reason,
        };
        assert(check_view(check) == check_of(lowercase(resume_content@), rows[i as int]));
        out.push(check);
        i += 1;
    }
    assert(out@.map_values(|c: CertificationCheck| check_view(c)) =~= rows.map_values(
        |c: CertRow| check_of(lowercase(resume_content@), c),
    ));
    out
}


/// The pattern that points to each industry.
pub open spec fn industry_patterns() -> Seq<(Seq<char>, Seq<char>)> {
    seq![
        ("technology"@, r"(?i)\b(?:software|programming|development|coding|algorithm|database|api|framework|javascript|python|java|react|angular|vue|node|docker|kubernetes|aws|azure|gcp|devops|agile|scrum|git)\b"@),
        ("healthcare"@, r"(?i)\b(?:medical|clinical|patient|healthcare|hospital|physician|nurse|pharmacy|medical device|fda|hipaa|ehr|emr|clinical trial)\b"@),
        ("finance"@, r"(?i)\b(?:financial|banking|investment|portfolio|trading|risk management|compliance|audit|accounting|fintech|blockchain|cryptocurrency|loan|credit|insurance)\b"@),
    ]
}

/// How many matches a pattern has in a text; none where it is refused.
pub open spec fn pattern_count(pattern: Seq<char>, text: Seq<char>) -> nat {
    if regex_accepts(pattern) { regex_match_count(pattern, text) } else { 0 }
}

/// The industries among the first `n` patterns whose pattern matches the
/// text, each with its number of matches.
pub open spec fn pattern_counts(text: Seq<char>, n: int) -> Seq<(Seq<char>, nat)>
    decreases n,
{
    if n <= 0 {
        seq![]
    } else {
        let (industry, pattern) = industry_patterns()[n - 1];
        let c = pattern_count(pattern, text);
        if c > 0 {
            pattern_counts(text, n - 1).push((industry, c))
        } else {
            pattern_counts(text, n - 1)
        }
    }
}

/// The industries whose pattern matches the resume, read in lower case,
/// each with its number of matches, in the order of the patterns.
pub fn industry_pattern_counts(resume_content: &str) -> (res: Vec<(String, usize)>)
    ensures
        res@.map_values(|e: (String, usize)| (e.0@, e.1 as nat)) == pattern_counts(lowercase(resume_content@), 3),
{
    let lower = to_lowercase(resume_content);
    let patterns: [(&str, &str); 3] = [
        ("technology", r"(?i)\b(?:software|programming|development|coding|algorithm|database|api|framework|javascript|python|java|react|angular|vue|node|docker|kubernetes|aws|azure|gcp|devops|agile|scrum|git)\b"),
        ("healthcare", r"(?i)\b(?:medical|clinical|patient|healthcare|hospital|physician|nurse|pharmacy|medical device|fda|hipaa|ehr|emr|clinical trial)\b"),
        ("finance", r"(?i)\b(?:financial|banking|investment|portfolio|trading|risk management|compliance|audit|accounting|fintech|blockchain|cryptocurrency|loan|credit|insurance)\b"),
    ];
    assert(forall|k: int| 0 <= k < 3 ==> (#[trigger] patterns@[k]).0@ == industry_patterns()[k].0
        && patterns@[k].1@ == industry_patterns()[k].1);
    let mut out: Vec<(String, usize)> = Vec::new();
    let mut j: usize = 0;
    while j < 3
        invariant
            j <= 3,
            lower@ == lowercase(resume_content@),
            forall|k: int| 0 <= k < 3 ==> (#[trigger] patterns@[k]).0@ == industry_patterns()[k].0
                && patterns@[k].1@ == industry_patterns()[k].1,
            out@.map_values(|e: (String, usize)| (e.0@, e.1 as nat)) == pattern_counts(lowercase(resume_content@), j as int),
        decreases 3 - j,
    {
        let (industry, pattern) = patterns[j];
        assert(patterns@[j as int].0@ == industry_patterns()[j as int].0);
        let c = count_matches(pattern, lower.as_str());
        if c > 0 {
            let ghost before = out@;
            out.push((industry.to_string(), c));
            assert(out@.map_values(|e: (String, usize)| (e.0@, e.1 as nat)) =~= before.map_values(
                |e: (String, usize)| (e.0@, e.1 as nat),
            ).push((industry@, c as nat)));
        }
        j += 1;
    }
    out
}

} // verus!
