//! The keywords an industry falls back on when the keyword store has none:
//! keywords that apply to most industries, then a few for the industry's
//! group.
use vstd::prelude::*;
use crate::text::{chars_of, str_eq, replace, replace_chars, append_chars, string_from_chars};
use crate::unicode::{lowercase, to_lowercase};

verus! {

/// A fallback keyword of an industry.
#[derive(Debug, Clone)]
pub struct FallbackKeyword {
    /// "fallback-", the industry, "-", and the keyword with its spaces
    /// replaced by underscores.
    pub id: String,
    pub industry: String,
    pub keyword: String,
    /// The weight of the keyword in tenths: 13 stands for 1.3.
    pub weight_tenths: u32,
    pub category: String,
    /// The keyword's synonyms, as a JSON array of strings.
    pub synonyms: String,
}

/// A row of a keyword table: keyword, category, weight in tenths, synonyms.
pub type KeywordRow = (Seq<char>, Seq<char>, u32, Seq<char>);

/// The keywords that apply to most industries.
pub open spec fn generic_rows() -> Seq<KeywordRow> {
    seq![
        ("communication"@, "soft_skill"@, 13u32, r#"["verbal communication", "written communication"]"#@),
        ("teamwork"@, "soft_skill"@, 12u32, r#"["collaboration", "team player"]"#@),
        ("leadership"@, "soft_skill"@, 14u32, r#"["team leadership", "management"]"#@),
        ("problem solving"@, "soft_skill"@, 14u32, r#"["analytical thinking", "critical thinking"]"#@),
        ("project management"@, "methodology"@, 13u32, r#"["project planning", "project coordination"]"#@),
        ("data analysis"@, "technical"@, 13u32, r#"["data analytics", "analysis"]"#@),
        ("microsoft office"@, "technical"@, 11u32, r#"["excel", "word", "powerpoint"]"#@),
        ("customer service"@, "soft_skill"@, 12u32, r#"["customer support", "client service"]"#@),
        ("time management"@, "soft_skill"@, 11u32, r#"["organization", "prioritization"]"#@),
        ("attention to detail"@, "soft_skill"@, 11u32, r#"["accuracy", "detail-oriented"]"#@),
    ]
}

/// The keywords of the group of the lowercased industry name `l`.
pub open spec fn specific_rows(l: Seq<char>) -> Seq<KeywordRow> {
    if l == "business"@ || l == "general"@ || l == "administration"@ {
        seq![
            ("business analysis"@, "technical"@, 13u32, r#"["business planning", "strategic analysis"]"#@),
            ("office administration"@, "technical"@, 12u32, r#"["administrative support", "office management"]"#@),
            ("customer relations"@, "soft_skill"@, 12u32, r#"["client relations", "relationship management"]"#@),
        ]
    } else if l == "sales"@ || l == "marketing"@ {
        seq![
            ("sales experience"@, "domain"@, 14u32, r#"["sales performance", "revenue generation"]"#@),
            ("marketing"@, "domain"@, 13u32, r#"["digital marketing", "brand marketing"]"#@),
            ("customer acquisition"@, "technical"@, 13u32, r#"["lead generation", "prospecting"]"#@),
        ]
    } else if l == "operations"@ || l == "logistics"@ {
        seq![
            ("operations management"@, "technical"@, 14u32, r#"["operational efficiency", "process management"]"#@),
            ("supply chain"@, "domain"@, 13u32, r#"["logistics", "distribution"]"#@),
            ("inventory management"@, "technical"@, 12u32, r#"["inventory control", "stock management"]"#@),
        ]
    } else if l == "human resources"@ || l == "hr"@ {
        seq![
            ("recruitment"@, "technical"@, 14u32, r#"["hiring", "talent acquisition"]"#@),
            ("employee relations"@, "soft_skill"@, 13u32, r#"["hr management", "personnel management"]"#@),
            ("performance management"@, "technical"@, 13u32, r#"["performance evaluation", "employee development"]"#@),
        ]
    } else {
        seq![
            ("industry experience"@, "domain"@, 12u32, r#"["sector knowledge", "domain expertise"]"#@),
            ("professional development"@, "soft_skill"@, 11u32, r#"["continuous learning", "skill development"]"#@),
            ("compliance"@, "regulation"@, 12u32, r#"["regulatory compliance", "standards"]"#@),
        ]
    }
}

/// The fallback rows of an industry: the generic rows, then those of its
/// group, chosen by its lowercased name.
pub open spec fn fallback_rows(industry: Seq<char>) -> Seq<KeywordRow> {
    generic_rows() + specific_rows(lowercase(industry))
}

/// The identifier of a fallback keyword.
pub open spec fn fallback_id(industry: Seq<char>, keyword: Seq<char>) -> Seq<char> {
    "fallback-"@ + industry + "-"@ + replace(keyword, " "@, "_"@)
}

/// The content of a fallback keyword: id, industry, keyword, weight,
/// category, synonyms.
pub type FallbackView = (Seq<char>, Seq<char>, Seq<char>, u32, Seq<char>, Seq<char>);

/// The content of a fallback keyword.
pub open spec fn fallback_view(k: FallbackKeyword) -> FallbackView {
    (k.id@, k.industry@, k.keyword@, k.weight_tenths, k.category@, k.synonyms@)
}

/// The fallback keyword of `industry` made from row `r`.
pub open spec fn keyword_of_row(industry: Seq<char>, r: KeywordRow) -> FallbackView {
    (fallback_id(industry, r.0), industry, r.0, r.2, r.1, r.3)
}

/// The view of a table of rows.
pub open spec fn rows_view(t: Seq<(&str, &str, u32, &str)>) -> Seq<KeywordRow> {
    t.map_values(|e: (&str, &str, u32, &str)| (e.0@, e.1@, e.2, e.3@))
}

/// The rows of the group of the lowercased industry name `l`.
fn specific_table(l: &str) -> (res: [(&'static str, &'static str, u32, &'static str); 3])
    ensures
        rows_view(res@) == specific_rows(l@),
{
    if str_eq(l, "business") || str_eq(l, "general") || str_eq(l, "administration") {
        let t = [
            ("business analysis", "technical", 13, r#"["business planning", "strategic analysis"]"#),
            ("office administration", "technical", 12, r#"["administrative support", "office management"]"#),
            ("customer relations", "soft_skill", 12, r#"["client relations", "relationship management"]"#),
        ];
        assert(rows_view(t@) == specific_rows(l@));
        t
    } else if str_eq(l, "sales") || str_eq(l, "marketing") {
        let t = [
            ("sales experience", "domain", 14, r#"["sales performance", "revenue generation"]"#),
            ("marketing", "domain", 13, r#"["digital marketing", "brand marketing"]"#),
            ("customer acquisition", "technical", 13, r#"["lead generation", "prospecting"]"#),
        ];
        assert(rows_view(t@) == specific_rows(l@));
        t
    } else if str_eq(l, "operations") || str_eq(l, "logistics") {
        let t = [
            ("operations management", "technical", 14, r#"["operational efficiency", "process management"]"#),
            ("supply chain", "domain", 13, r#"["logistics", "distribution"]"#),
            ("inventory management", "technical", 12, r#"["inventory control", "stock management"]"#),
        ];
        assert(rows_view(t@) == specific_rows(l@));
        t
    } else if str_eq(l, "human resources") || str_eq(l, "hr") {
        let t = [
            ("recruitment", "technical", 14, r#"["hiring", "talent acquisition"]"#),
            ("employee relations", "soft_skill", 13, r#"["hr management", "personnel management"]"#),
            ("performance management", "technical", 13, r#"["performance evaluation", "employee development"]"#),
        ];
        assert(rows_view(t@) == specific_rows(l@));
        t
    } else {
        let t = [
            ("industry experience", "domain", 12, r#"["sector knowledge", "domain expertise"]"#),
            ("professional development", "soft_skill", 11, r#"["continuous learning", "skill development"]"#),
            ("compliance", "regulation", 12, r#"["regulatory compliance", "standards"]"#),
        ];
        assert(rows_view(t@) == specific_rows(l@));
        t
    }
}

/// The fallback keyword of `industry` made from one row.
fn keyword_from_row(industry: &str, keyword: &str, category: &str, weight_tenths: u32, synonyms: &str) -> (res: FallbackKeyword)
    ensures
        fallback_view(res) == keyword_of_row(industry@, (keyword@, category@, weight_tenths, synonyms@)),
{
    let mut id = chars_of("fallback-");
    append_chars(&mut id, &chars_of(industry));
    append_chars(&mut id, &chars_of("-"));
    let space = chars_of(" ");
    proof {
        reveal_strlit(" ");
    }
    assert(space@.len() == 1);
    let under = replace_chars(&chars_of(keyword), &space, &chars_of("_"));
    append_chars(&mut id, &under);
    FallbackKeyword {
        id: string_from_chars(&id),
        industry: industry.to_owned(),
        keyword: keyword.to_owned(),
        weight_tenths,
        category: category.to_owned(),
        synonyms: synonyms.to_owned(),
    }
}

/// Appends the keywords of `industry` made from the rows of `t`.
fn push_rows(out: &mut Vec<FallbackKeyword>, industry: &str, t: &[(&str, &str, u32, &str)])
    ensures
        final(out)@.map_values(|k: FallbackKeyword| fallback_view(k)) == old(out)@.map_values(
            |k: FallbackKeyword| fallback_view(k),
        ) + rows_view(t@).map_values(|r: KeywordRow| keyword_of_row(industry@, r)),
{
    let ghost start = out@.map_values(|k: FallbackKeyword| fallback_view(k));
    let mut i: usize = 0;
    while i < t.len()
        invariant
            i <= t.len(),
            out@.map_values(|k: FallbackKeyword| fallback_view(k)) == start + rows_view(t@).take(
                i as int,
            ).map_values(|r: KeywordRow| keyword_of_row(industry@, r)),
        decreases t.len() - i,
    {
        let (kw, cat, w, syn) = t[i];
        let k = keyword_from_row(industry, kw, cat, w, syn);
        let ghost prev = out@;
        out.push(k);
        assert(rows_view(t@)[i as int] == (kw@, cat@, w, syn@));
        assert(out@.map_values(|k: FallbackKeyword| fallback_view(k)) == prev.map_values(
            |k: FallbackKeyword| fallback_view(k),
        ).push(fallback_view(k)));
        assert(rows_view(t@).take(i + 1) == rows_view(t@).take(i as int).push(rows_view(t@)[i as int]));
        assert(rows_view(t@).take(i + 1).map_values(|r: KeywordRow| keyword_of_row(industry@, r))
            == rows_view(t@).take(i as int).map_values(|r: KeywordRow| keyword_of_row(industry@, r)).push(
            keyword_of_row(industry@, rows_view(t@)[i as int]),
        ));
        i += 1;
    }
    assert(rows_view(t@).take(t.len() as int) == rows_view(t@));
}

/// The fallback keywords of an industry: the generic keywords, then those
/// of the industry's group, each with its identifier.
pub fn get_fallback_keywords(industry: &str) -> (res: Vec<FallbackKeyword>)
    ensures
        res@.map_values(|k: FallbackKeyword| fallback_view(k)) == fallback_rows(industry@).map_values(
            |r: KeywordRow| keyword_of_row(industry@, r),
        ),
{
    let generic = [
        ("communication", "soft_skill", 13, r#"["verbal communication", "written communication"]"#),
        ("teamwork", "soft_skill", 12, r#"["collaboration", "team player"]"#),
        ("leadership", "soft_skill", 14, r#"["team leadership", "management"]"#),
        ("problem solving", "soft_skill", 14, r#"["analytical thinking", "critical thinking"]"#),
        ("project management", "methodology", 13, r#"["project planning", "project coordination"]"#),
        ("data analysis", "technical", 13, r#"["data analytics", "analysis"]"#),
        ("microsoft office", "technical", 11, r#"["excel", "word", "powerpoint"]"#),
        ("customer service", "soft_skill", 12, r#"["customer support", "client service"]"#),
        ("time management", "soft_skill", 11, r#"["organization", "prioritization"]"#),
        ("attention to detail", "soft_skill", 11, r#"["accuracy", "detail-oriented"]"#),
    ];
    assert(rows_view(generic@) == generic_rows());
    let lower = to_lowercase(industry);
    let specific = specific_table(lower.as_str());
    let mut out: Vec<FallbackKeyword> = Vec::new();
    push_rows(&mut out, industry, &generic);
    push_rows(&mut out, industry, &specific);
    assert(out@.map_values(|k: FallbackKeyword| fallback_view(k)) == fallback_rows(industry@).map_values(
        |r: KeywordRow| keyword_of_row(industry@, r),
    ));
    out
}


/// Every industry falls back on thirteen keywords: the ten generic ones and
/// three of its group.
pub proof fn law_fallback_keyword_count(industry: Seq<char>)
    ensures
        fallback_rows(industry).len() == 13,
{
}


/// The identifier of a keyword seeded for an industry: the industry, "-",
/// and the keyword with its spaces replaced by underscores.
pub open spec fn seed_id(industry: Seq<char>, keyword: Seq<char>) -> Seq<char> {
    industry + "-"@ + replace(keyword, " "@, "_"@)
}

/// The identifier of a keyword seeded for an industry.
pub fn seed_keyword_id(industry: &str, keyword: &str) -> (res: String)
    ensures
        res@ == seed_id(industry@, keyword@),
{
    let mut id = chars_of(industry);
    append_chars(&mut id, &chars_of("-"));
    let space = chars_of(" ");
    proof {
        reveal_strlit(" ");
    }
    assert(space@.len() == 1);
    let under = replace_chars(&chars_of(keyword), &space, &chars_of("_"));
    append_chars(&mut id, &under);
    string_from_chars(&id)
}

} // verus!
