//! Industry classification of resumes (normalizing a model's answer to a
//! known industry, and a keyword-weight classification when no model answer
//! is usable), related industries, and the parts of the enhanced score that
//! are whole numbers: the scoring weights by industry and role level and the
//! experience, education and leadership scores.
use vstd::prelude::*;
use crate::text::{chars_of, contains, contains_chars, trim, trim_chars, string_from_chars, str_eq, views};
use crate::document::str_views;
use crate::ml_features::{shared_count, distinct};
use crate::unicode::{lowercase, to_lowercase};

verus! {

/// Areas where a resume stands above or below its peers.
#[derive(Debug, Clone)]
pub struct PeerComparison {
    pub above_average_areas: Vec<String>,
    pub below_average_areas: Vec<String>,
    pub standout_strengths: Vec<String>,
    pub critical_gaps: Vec<String>,
}

/// The known industries, each with the words that name it.
pub open spec fn industry_mappings() -> Seq<(Seq<char>, Seq<Seq<char>>)> {
    seq![
        ("technology/software"@, seq!["technology"@, "software"@, "tech"@, "it"@, "information technology"@]),
        ("healthcare/medical"@, seq!["healthcare"@, "medical"@, "health"@, "medicine"@, "clinical"@]),
        ("finance/banking"@, seq!["finance"@, "banking"@, "financial"@, "fintech"@, "investment"@]),
        ("education/academic"@, seq!["education"@, "academic"@, "university"@, "school"@, "teaching"@]),
        ("manufacturing/engineering"@, seq!["manufacturing"@, "engineering"@, "industrial"@, "mechanical"@, "production"@]),
        ("retail/consumer"@, seq!["retail"@, "consumer"@, "sales"@, "ecommerce"@, "commerce"@]),
        ("government/public"@, seq!["government"@, "public"@, "federal"@, "state"@, "municipal"@]),
        ("non-profit/ngo"@, seq!["non-profit"@, "ngo"@, "nonprofit"@, "charity"@, "foundation"@]),
        ("media/entertainment"@, seq!["media"@, "entertainment"@, "broadcasting"@, "journalism"@, "creative"@]),
        ("consulting/professional"@, seq!["consulting"@, "professional"@, "advisory"@, "services"@]),
        ("real estate"@, seq!["real estate"@, "property"@, "realty"@, "real-estate"@]),
        ("transportation/logistics"@, seq!["transportation"@, "logistics"@, "shipping"@, "supply chain"@]),
        ("energy/utilities"@, seq!["energy"@, "utilities"@, "power"@, "renewable"@, "oil"@, "gas"@]),
        ("legal/law"@, seq!["legal"@, "law"@, "attorney"@, "lawyer"@, "juridical"@]),
        ("construction"@, seq!["construction"@, "building"@, "architecture"@, "contractor"@]),
    ]
}

/// The known industries with their keywords; each weight is counted in
/// half points (a weight of 1.5 is 3).
pub open spec fn industry_keyword_table() -> Seq<(Seq<char>, Seq<(Seq<char>, nat)>)> {
    seq![
        ("technology/software"@, seq![("software"@, 6nat), ("programming"@, 6nat), ("developer"@, 6nat), ("engineer"@, 4nat), ("code"@, 4nat), ("api"@, 4nat), ("database"@, 4nat), ("web"@, 4nat), ("mobile"@, 4nat), ("application"@, 3nat), ("javascript"@, 6nat), ("python"@, 6nat), ("java"@, 5nat), ("react"@, 5nat), ("node"@, 4nat), ("aws"@, 5nat), ("cloud"@, 4nat), ("devops"@, 6nat), ("agile"@, 3nat), ("scrum"@, 3nat), ("git"@, 4nat), ("docker"@, 5nat), ("kubernetes"@, 5nat)]),
        ("healthcare/medical"@, seq![("medical"@, 6nat), ("healthcare"@, 6nat), ("patient"@, 6nat), ("clinical"@, 6nat), ("hospital"@, 5nat), ("doctor"@, 5nat), ("nurse"@, 5nat), ("physician"@, 5nat), ("treatment"@, 4nat), ("diagnosis"@, 4nat), ("pharmaceutical"@, 5nat), ("biomedical"@, 5nat), ("surgery"@, 4nat), ("therapy"@, 4nat), ("medical device"@, 5nat), ("hipaa"@, 4nat), ("epic"@, 3nat), ("emr"@, 4nat), ("ehr"@, 4nat), ("fda"@, 4nat)]),
        ("finance/banking"@, seq![("financial"@, 6nat), ("banking"@, 6nat), ("investment"@, 6nat), ("trading"@, 5nat), ("accounting"@, 5nat), ("finance"@, 6nat), ("portfolio"@, 4nat), ("risk"@, 4nat), ("compliance"@, 4nat), ("audit"@, 4nat), ("credit"@, 4nat), ("loan"@, 4nat), ("mortgage"@, 4nat), ("derivatives"@, 5nat), ("securities"@, 5nat), ("fintech"@, 6nat), ("blockchain"@, 4nat), ("cryptocurrency"@, 4nat), ("cfa"@, 5nat), ("cpa"@, 5nat)]),
        ("education/academic"@, seq![("education"@, 6nat), ("teaching"@, 6nat), ("professor"@, 5nat), ("university"@, 5nat), ("school"@, 4nat), ("curriculum"@, 4nat), ("student"@, 4nat), ("research"@, 5nat), ("academic"@, 6nat), ("learning"@, 4nat), ("instruction"@, 4nat), ("pedagogy"@, 5nat), ("classroom"@, 4nat), ("course"@, 3nat), ("degree"@, 3nat), ("scholarship"@, 4nat)]),
        ("manufacturing/engineering"@, seq![("manufacturing"@, 6nat), ("production"@, 5nat), ("assembly"@, 4nat), ("quality"@, 4nat), ("engineering"@, 5nat), ("mechanical"@, 5nat), ("electrical"@, 5nat), ("industrial"@, 5nat), ("process"@, 4nat), ("automation"@, 5nat), ("machinery"@, 4nat), ("factory"@, 4nat), ("plant"@, 4nat), ("operations"@, 4nat), ("supply chain"@, 4nat), ("lean"@, 4nat), ("six sigma"@, 5nat), ("cad"@, 4nat), ("plc"@, 4nat)]),
        ("consulting/professional"@, seq![("consulting"@, 6nat), ("advisory"@, 5nat), ("strategy"@, 5nat), ("management"@, 4nat), ("business"@, 4nat), ("project"@, 3nat), ("client"@, 4nat), ("stakeholder"@, 4nat), ("analysis"@, 4nat), ("recommendations"@, 4nat), ("implementation"@, 4nat), ("change management"@, 5nat), ("transformation"@, 5nat), ("optimization"@, 4nat)]),
    ]
}

/// The first industry, in table order, with a naming word in `r`.
pub open spec fn first_mapping(ms: Seq<(Seq<char>, Seq<Seq<char>>)>, r: Seq<char>) -> Option<Seq<char>>
    decreases ms.len(),
{
    if ms.len() == 0 {
        None
    } else if exists|i: int| 0 <= i < ms[0].1.len() && #[trigger] contains(r, ms[0].1[i]) {
        Some(ms[0].0)
    } else {
        first_mapping(ms.drop_first(), r)
    }
}

/// The industry a model's answer names: the first known industry one of
/// whose words occurs in the trimmed, lowercased answer; "unknown" if none.
pub open spec fn normalized_industry(answer: Seq<char>) -> Seq<char> {
    match first_mapping(industry_mappings(), lowercase(trim(answer))) {
        Some(c) => c,
        None => "unknown"@,
    }
}

/// Score of an industry: the weights of its keywords that occur in `lc`.
pub open spec fn industry_score(kws: Seq<(Seq<char>, nat)>, lc: Seq<char>) -> nat
    decreases kws.len(),
{
    if kws.len() == 0 {
        0
    } else {
        industry_score(kws.drop_last(), lc) + if contains(lc, kws.last().0) {
            kws.last().1
        } else {
            0
        }
    }
}

/// Index of the first highest-scoring industry among the first `n`.
pub open spec fn best_industry_index(lc: Seq<char>, n: int) -> int
    decreases n,
{
    if n <= 1 {
        0
    } else {
        let b = best_industry_index(lc, n - 1);
        if industry_score(industry_keyword_table()[n - 1].1, lc) > industry_score(
            industry_keyword_table()[b].1,
            lc,
        ) {
            n - 1
        } else {
            b
        }
    }
}

/// The industry the keywords of a resume point to: the first of the
/// highest-scoring industries, or "general" when no keyword occurs.
pub open spec fn keyword_industry(resume: Seq<char>) -> Seq<char> {
    let lc = lowercase(resume);
    let b = best_industry_index(lc, industry_keyword_table().len() as int);
    if industry_score(industry_keyword_table()[b].1, lc) == 0 {
        "general"@
    } else {
        industry_keyword_table()[b].0
    }
}

fn mapping_entry(g: usize) -> (res: (&'static str, Vec<&'static str>))
    requires
        g < 15,
    ensures
        res.0@ == industry_mappings()[g as int].0,
        res.1@.map_values(|v: &str| v@) == industry_mappings()[g as int].1,
{
    if g == 0 {
        let v: Vec<&'static str> = vec!["technology", "software", "tech", "it", "information technology"];
        assert(v@.map_values(|v: &str| v@) =~= industry_mappings()[g as int].1);
        ("technology/software", v)
    } else if g == 1 {
        let v: Vec<&'static str> = vec!["healthcare", "medical", "health", "medicine", "clinical"];
        assert(v@.map_values(|v: &str| v@) =~= industry_mappings()[g as int].1);
        ("healthcare/medical", v)
    } else if g == 2 {
        let v: Vec<&'static str> = vec!["finance", "banking", "financial", "fintech", "investment"];
        assert(v@.map_values(|v: &str| v@) =~= industry_mappings()[g as int].1);
        ("finance/banking", v)
    } else if g == 3 {
        let v: Vec<&'static str> = vec!["education", "academic", "university", "school", "teaching"];
        assert(v@.map_values(|v: &str| v@) =~= industry_mappings()[g as int].1);
        ("education/academic", v)
    } else if g == 4 {
        let v: Vec<&'static str> = vec!["manufacturing", "engineering", "industrial", "mechanical", "production"];
        assert(v@.map_values(|v: &str| v@) =~= industry_mappings()[g as int].1);
        ("manufacturing/engineering", v)
    } else if g == 5 {
        let v: Vec<&'static str> = vec!["retail", "consumer", "sales", "ecommerce", "commerce"];
        assert(v@.map_values(|v: &str| v@) =~= industry_mappings()[g as int].1);
        ("retail/consumer", v)
    } else if g == 6 {
        let v: Vec<&'static str> = vec!["government", "public", "federal", "state", "municipal"];
        assert(v@.map_values(|v: &str| v@) =~= industry_mappings()[g as int].1);
        ("government/public", v)
    } else if g == 7 {
        let v: Vec<&'static str> = vec!["non-profit", "ngo", "nonprofit", "charity", "foundation"];
        assert(v@.map_values(|v: &str| v@) =~= industry_mappings()[g as int].1);
        ("non-profit/ngo", v)
    } else if g == 8 {
        let v: Vec<&'static str> = vec!["media", "entertainment", "broadcasting", "journalism", "creative"];
        assert(v@.map_values(|v: &str| v@) =~= industry_mappings()[g as int].1);
        ("media/entertainment", v)
    } else if g == 9 {
        let v: Vec<&'static str> = vec!["consulting", "professional", "advisory", "services"];
        assert(v@.map_values(|v: &str| v@) =~= industry_mappings()[g as int].1);
        ("consulting/professional", v)
    } else if g == 10 {
        let v: Vec<&'static str> = vec!["real estate", "property", "realty", "real-estate"];
        assert(v@.map_values(|v: &str| v@) =~= industry_mappings()[g as int].1);
        ("real estate", v)
    } else if g == 11 {
        let v: Vec<&'static str> = vec!["transportation", "logistics", "shipping", "supply chain"];
        assert(v@.map_values(|v: &str| v@) =~= industry_mappings()[g as int].1);
        ("transportation/logistics", v)
    } else if g == 12 {
        let v: Vec<&'static str> = vec!["energy", "utilities", "power", "renewable", "oil", "gas"];
        assert(v@.map_values(|v: &str| v@) =~= industry_mappings()[g as int].1);
        ("energy/utilities", v)
    } else if g == 13 {
        let v: Vec<&'static str> = vec!["legal", "law", "attorney", "lawyer", "juridical"];
        assert(v@.map_values(|v: &str| v@) =~= industry_mappings()[g as int].1);
        ("legal/law", v)
    } else {
        let v: Vec<&'static str> = vec!["construction", "building", "architecture", "contractor"];
        assert(v@.map_values(|v: &str| v@) =~= industry_mappings()[g as int].1);
        ("construction", v)
    }
}

fn keyword_entry(g: usize) -> (res: (&'static str, Vec<(&'static str, u32)>))
    requires
        g < 6,
    ensures
        res.0@ == industry_keyword_table()[g as int].0,
        res.1@.map_values(|e: (&str, u32)| (e.0@, e.1 as nat)) == industry_keyword_table()[g as int].1,
        res.1.len() <= 30,
        forall|k: int| 0 <= k < res.1.len() ==> #[trigger] res.1@[k].1 <= 6,
{
    if g == 0 {
        let v: Vec<(&'static str, u32)> = vec![("software", 6), ("programming", 6), ("developer", 6), ("engineer", 4), ("code", 4), ("api", 4), ("database", 4), ("web", 4), ("mobile", 4), ("application", 3), ("javascript", 6), ("python", 6), ("java", 5), ("react", 5), ("node", 4), ("aws", 5), ("cloud", 4), ("devops", 6), ("agile", 3), ("scrum", 3), ("git", 4), ("docker", 5), ("kubernetes", 5)];
        assert(v@.map_values(|e: (&str, u32)| (e.0@, e.1 as nat)) =~= industry_keyword_table()[g as int].1);
        ("technology/software", v)
    } else if g == 1 {
        let v: Vec<(&'static str, u32)> = vec![("medical", 6), ("healthcare", 6), ("patient", 6), ("clinical", 6), ("hospital", 5), ("doctor", 5), ("nurse", 5), ("physician", 5), ("treatment", 4), ("diagnosis", 4), ("pharmaceutical", 5), ("biomedical", 5), ("surgery", 4), ("therapy", 4), ("medical device", 5), ("hipaa", 4), ("epic", 3), ("emr", 4), ("ehr", 4), ("fda", 4)];
        assert(v@.map_values(|e: (&str, u32)| (e.0@, e.1 as nat)) =~= industry_keyword_table()[g as int].1);
        ("healthcare/medical", v)
    } else if g == 2 {
        let v: Vec<(&'static str, u32)> = vec![("financial", 6), ("banking", 6), ("investment", 6), ("trading", 5), ("accounting", 5), ("finance", 6), ("portfolio", 4), ("risk", 4), ("compliance", 4), ("audit", 4), ("credit", 4), ("loan", 4), ("mortgage", 4), ("derivatives", 5), ("securities", 5), ("fintech", 6), ("blockchain", 4), ("cryptocurrency", 4), ("cfa", 5), ("cpa", 5)];
        assert(v@.map_values(|e: (&str, u32)| (e.0@, e.1 as nat)) =~= industry_keyword_table()[g as int].1);
        ("finance/banking", v)
    } else if g == 3 {
        let v: Vec<(&'static str, u32)> = vec![("education", 6), ("teaching", 6), ("professor", 5), ("university", 5), ("school", 4), ("curriculum", 4), ("student", 4), ("research", 5), ("academic", 6), ("learning", 4), ("instruction", 4), ("pedagogy", 5), ("classroom", 4), ("course", 3), ("degree", 3), ("scholarship", 4)];
        assert(v@.map_values(|e: (&str, u32)| (e.0@, e.1 as nat)) =~= industry_keyword_table()[g as int].1);
        ("education/academic", v)
    } else if g == 4 {
        let v: Vec<(&'static str, u32)> = vec![("manufacturing", 6), ("production", 5), ("assembly", 4), ("quality", 4), ("engineering", 5), ("mechanical", 5), ("electrical", 5), ("industrial", 5), ("process", 4), ("automation", 5), ("machinery", 4), ("factory", 4), ("plant", 4), ("operations", 4), ("supply chain", 4), ("lean", 4), ("six sigma", 5), ("cad", 4), ("plc", 4)];
        assert(v@.map_values(|e: (&str, u32)| (e.0@, e.1 as nat)) =~= industry_keyword_table()[g as int].1);
        ("manufacturing/engineering", v)
    } else {
        let v: Vec<(&'static str, u32)> = vec![("consulting", 6), ("advisory", 5), ("strategy", 5), ("management", 4), ("business", 4), ("project", 3), ("client", 4), ("stakeholder", 4), ("analysis", 4), ("recommendations", 4), ("implementation", 4), ("change management", 5), ("transformation", 5), ("optimization", 4)];
        assert(v@.map_values(|e: (&str, u32)| (e.0@, e.1 as nat)) =~= industry_keyword_table()[g as int].1);
        ("consulting/professional", v)
    }
}

/// Whether any of `words` occurs in `hay`.
fn any_contained(words: &Vec<&str>, hay: &Vec<char>) -> (res: bool)
    ensures
        res == exists|i: int| 0 <= i < words.len() && #[trigger] contains(hay@, words@[i]@),
{
    let mut i: usize = 0;
    while i < words.len()
        invariant
            i <= words.len(),
            forall|k: int| 0 <= k < i ==> !contains(hay@, #[trigger] words@[k]@),
        decreases words.len() - i,
    {
        if contains_chars(hay, &chars_of(words[i])) {
            assert(contains(hay@, words@[i as int]@));
            return true;
        }
        i += 1;
    }
    false
}

/// The known industry a model's answer names, or "unknown".
pub fn validate_and_normalize_industry(ml_response: &str) -> (res: String)
    ensures
        res@ == normalized_industry(ml_response@),
{
    let t = string_from_chars(&trim_chars(&chars_of(ml_response)));
    let lc = to_lowercase(t.as_str());
    let r = chars_of(lc.as_str());
    let ghost ms = industry_mappings();
    assert(ms.skip(0) == ms);
    let mut g: usize = 0;
    while g < 15
        invariant
            g <= 15,
            r@ == lowercase(trim(ml_response@)),
            ms == industry_mappings(),
            first_mapping(ms, r@) == first_mapping(ms.skip(g as int), r@),
        decreases 15 - g,
    {
        let (name, vars) = mapping_entry(g);
        assert(ms.skip(g as int)[0] == ms[g as int]);
        assert(ms.skip(g as int).drop_first() == ms.skip(g + 1));
        let ghost vv = vars@.map_values(|v: &str| v@);
        if any_contained(&vars, &r) {
            proof {
                let i = choose|i: int| 0 <= i < vars.len() && #[trigger] contains(r@, vars@[i]@);
                assert(contains(r@, vv[i]));
            }
            return name.to_owned();
        }
        proof {
            assert forall|i: int| 0 <= i < vv.len() implies !#[trigger] contains(r@, vv[i]) by {
                assert(vv[i] == vars@[i]@);
            }
        }
        g += 1;
    }
    assert(ms.skip(15).len() == 0);
    "unknown".to_owned()
}

/// Score of industry `g` of the keyword table in the lowercase text `lc`.
fn score_of(g: usize, lc: &Vec<char>) -> (res: u32)
    requires
        g < 6,
    ensures
        res == industry_score(industry_keyword_table()[g as int].1, lc@),
{
    let (_, kws) = keyword_entry(g);
    let ghost kv = kws@.map_values(|e: (&str, u32)| (e.0@, e.1 as nat));
    let mut total: u32 = 0;
    let mut i: usize = 0;
    while i < kws.len()
        invariant
            i <= kws.len(),
            kws.len() <= 30,
            kv == kws@.map_values(|e: (&str, u32)| (e.0@, e.1 as nat)),
            forall|k: int| 0 <= k < kws.len() ==> #[trigger] kws@[k].1 <= 6,
            total == industry_score(kv.take(i as int), lc@),
            total <= 6 * i,
        decreases kws.len() - i,
    {
        assert(kv.take(i + 1).drop_last() == kv.take(i as int));
        assert(kv.take(i + 1).last() == kv[i as int]);
        if contains_chars(lc, &chars_of(kws[i].0)) {
            total = total + kws[i].1;
        }
        i += 1;
    }
    assert(kv.take(kws.len() as int) == kv);
    total
}

/// The industry the keywords of a resume point to, or "general" when none
/// occurs; among equal scores the first industry of the table wins.
pub fn fallback_industry_detection(resume_content: &str) -> (res: String)
    ensures
        res@ == keyword_industry(resume_content@),
{
    let lcs = to_lowercase(resume_content);
    let lc = chars_of(lcs.as_str());
    let mut best: usize = 0;
    let mut best_score = score_of(0, &lc);
    let mut g: usize = 1;
    while g < 6
        invariant
            1 <= g <= 6,
            best < 6,
            lc@ == lowercase(resume_content@),
            best == best_industry_index(lc@, g as int),
            best_score == industry_score(industry_keyword_table()[best as int].1, lc@),
        decreases 6 - g,
    {
        let s = score_of(g, &lc);
        if s > best_score {
            best = g;
            best_score = s;
        }
        g += 1;
    }
    if best_score == 0 {
        "general".to_owned()
    } else {
        let (name, _) = keyword_entry(best);
        name.to_owned()
    }
}


/// Groups of industries that count as related.
pub open spec fn related_industry_groups() -> Seq<Seq<Seq<char>>> {
    seq![
        seq!["technology/software"@, "manufacturing/engineering"@, "consulting/professional"@],
        seq!["healthcare/medical"@, "education/academic"@],
        seq!["finance/banking"@, "consulting/professional"@, "real estate"@],
        seq!["government/public"@, "non-profit/ngo"@, "education/academic"@],
        seq!["media/entertainment"@, "consulting/professional"@, "technology/software"@],
        seq!["transportation/logistics"@, "manufacturing/engineering"@],
        seq!["energy/utilities"@, "manufacturing/engineering"@, "consulting/professional"@],
        seq!["legal/law"@, "consulting/professional"@, "government/public"@],
        seq!["construction"@, "manufacturing/engineering"@, "real estate"@],
    ]
}

/// Whether one group of related industries names both industries.
pub open spec fn industries_related(a: Seq<char>, b: Seq<char>) -> bool {
    exists|g: int| 0 <= g < related_industry_groups().len() && #[trigger] related_industry_groups()[g].contains(a)
        && related_industry_groups()[g].contains(b)
}

/// Whether `group` names `x`.
fn names(group: &[&str], x: &str) -> (res: bool)
    ensures
        res == str_views(group@).contains(x@),
{
    let ghost gv = str_views(group@);
    let mut i: usize = 0;
    while i < group.len()
        invariant
            i <= group.len(),
            gv == str_views(group@),
            forall|k: int| 0 <= k < i ==> gv[k] != x@,
        decreases group.len() - i,
    {
        if str_eq(group[i], x) {
            assert(gv[i as int] == x@);
            return true;
        }
        i += 1;
    }
    false
}

/// Whether two industries (normalized names) are related: one group of
/// related industries names both.
pub fn industries_are_related(industry1: &str, industry2: &str) -> (res: bool)
    ensures
        res == industries_related(industry1@, industry2@),
{
    let mut g: usize = 0;
    while g < 9
        invariant
            g <= 9,
            forall|k: int| 0 <= k < g ==> !(#[trigger] related_industry_groups()[k].contains(industry1@)
                && related_industry_groups()[k].contains(industry2@)),
        decreases 9 - g,
    {
        let hit = if g == 0 {
            let grp: [&str; 3] = ["technology/software", "manufacturing/engineering", "consulting/professional"];
            assert(str_views(grp@) == related_industry_groups()[0]);
            names(&grp, industry1) && names(&grp, industry2)
        } else if g == 1 {
            let grp: [&str; 2] = ["healthcare/medical", "education/academic"];
            assert(str_views(grp@) == related_industry_groups()[1]);
            names(&grp, industry1) && names(&grp, industry2)
        } else if g == 2 {
            let grp: [&str; 3] = ["finance/banking", "consulting/professional", "real estate"];
            assert(str_views(grp@) == related_industry_groups()[2]);
            names(&grp, industry1) && names(&grp, industry2)
        } else if g == 3 {
            let grp: [&str; 3] = ["government/public", "non-profit/ngo", "education/academic"];
            assert(str_views(grp@) == related_industry_groups()[3]);
            names(&grp, industry1) && names(&grp, industry2)
        } else if g == 4 {
            let grp: [&str; 3] = ["media/entertainment", "consulting/professional", "technology/software"];
            assert(str_views(grp@) == related_industry_groups()[4]);
            names(&grp, industry1) && names(&grp, industry2)
        } else if g == 5 {
            let grp: [&str; 2] = ["transportation/logistics", "manufacturing/engineering"];
            assert(str_views(grp@) == related_industry_groups()[5]);
            names(&grp, industry1) && names(&grp, industry2)
        } else if g == 6 {
            let grp: [&str; 3] = ["energy/utilities", "manufacturing/engineering", "consulting/professional"];
            assert(str_views(grp@) == related_industry_groups()[6]);
            names(&grp, industry1) && names(&grp, industry2)
        } else if g == 7 {
            let grp: [&str; 3] = ["legal/law", "consulting/professional", "government/public"];
            assert(str_views(grp@) == related_industry_groups()[7]);
            names(&grp, industry1) && names(&grp, industry2)
        } else {
            let grp: [&str; 3] = ["construction", "manufacturing/engineering", "real estate"];
            assert(str_views(grp@) == related_industry_groups()[8]);
            names(&grp, industry1) && names(&grp, industry2)
        };
        if hit {
            return true;
        }
        g += 1;
    }
    false
}

/// Whether `c` separates the words of an industry name.
pub open spec fn is_name_separator(c: char) -> bool {
    c == '/' || c == '-' || c == ' '
}

/// The words of an industry name: the pieces between separators, empty
/// ones included (`str::split` with `/`, `-` and space).
pub open spec fn name_words(s: Seq<char>) -> Seq<Seq<char>>
    decreases s.len(),
{
    if s.len() == 0 {
        seq![Seq::<char>::empty()]
    } else {
        let p = name_words(s.drop_last());
        if is_name_separator(s.last()) {
            p.push(Seq::<char>::empty())
        } else {
            p.update(p.len() - 1, p.last().push(s.last()))
        }
    }
}

proof fn lemma_name_words_nonempty(s: Seq<char>)
    ensures
        1 <= name_words(s).len() <= s.len() + 1,
    decreases s.len(),
{
    if s.len() > 0 {
        lemma_name_words_nonempty(s.drop_last());
    }
}

/// The words of an industry name.
fn name_words_of(v: &Vec<char>) -> (res: Vec<Vec<char>>)
    ensures
        views(res@) == name_words(v@),
{
    let mut done: Vec<Vec<char>> = Vec::new();
    let mut cur: Vec<char> = Vec::new();
    let mut i: usize = 0;
    assert(v@.take(0) == Seq::<char>::empty());
    while i < v.len()
        invariant
            i <= v.len(),
            views(done@).push(cur@) == name_words(v@.take(i as int)),
        decreases v.len() - i,
    {
        let c = v[i];
        let ghost prev = name_words(v@.take(i as int));
        assert(v@.take(i + 1).drop_last() == v@.take(i as int));
        assert(v@.take(i + 1).last() == c);
        proof {
            lemma_name_words_nonempty(v@.take(i as int));
        }
        if c == '/' || c == '-' || c == ' ' {
            let ghost d = views(done@);
            let piece = cur;
            done.push(piece);
            cur = Vec::new();
            assert(views(done@) == d.push(piece@));
            assert(views(done@).push(cur@) == prev.push(Seq::<char>::empty()));
        } else {
            let ghost d = views(done@);
            let ghost old_cur = cur@;
            assert(prev == d.push(old_cur));
            cur.push(c);
            assert(views(done@).push(cur@) == d.push(cur@));
            assert(views(done@).push(cur@) == prev.update(prev.len() - 1, prev.last().push(c)));
        }
        i += 1;
    }
    assert(v@.take(v.len() as int) == v@);
    let ghost d = views(done@);
    done.push(cur);
    assert(views(done@) == d.push(cur@));
    done
}

/// How much two industry names share: the number of words they have in
/// common and the number of words either has.
pub fn industry_word_overlap(industry1: &str, industry2: &str) -> (res: (usize, usize))
    requires
        industry1@.len() + industry2@.len() + 2 <= usize::MAX,
    ensures
        res.0 == name_words(industry1@).to_set().intersect(name_words(industry2@).to_set()).len(),
        res.1 == name_words(industry1@).to_set().union(name_words(industry2@).to_set()).len(),
{
    let a = name_words_of(&chars_of(industry1));
    let b = name_words_of(&chars_of(industry2));
    let common = shared_count(&a, &b);
    let da = distinct(&a);
    let db = distinct(&b);
    proof {
        views(da@).unique_seq_to_set();
        views(db@).unique_seq_to_set();
        vstd::seq_lib::seq_to_set_is_finite(views(a@));
        vstd::seq_lib::seq_to_set_is_finite(views(b@));
        vstd::set_lib::lemma_set_intersect_union_lens(views(a@).to_set(), views(b@).to_set());
        vstd::set_lib::lemma_len_intersect(views(a@).to_set(), views(b@).to_set());
        views(a@).lemma_cardinality_of_set();
        views(b@).lemma_cardinality_of_set();
        lemma_name_words_nonempty(industry1@);
        lemma_name_words_nonempty(industry2@);
    }
    let total = (da.len() - common) + db.len();
    (common, total)
}


/// The industry groups that call for their own scoring weights.
#[derive(Debug, Clone, Copy, PartialEq, Eq, Structural)]
pub enum IndustryWeighting {
    Technology,
    Healthcare,
    Finance,
    Education,
    Standard,
}

/// The role levels that call for their own scoring weights.
#[derive(Debug, Clone, Copy, PartialEq, Eq, Structural)]
pub enum RoleWeighting {
    Senior,
    Executive,
    Entry,
    Standard,
}

/// The weighting group of a lowercased industry name.
pub open spec fn industry_weighting_of(l: Seq<char>) -> IndustryWeighting {
    if l == "technology"@ || l == "software"@ || l == "it"@ {
        IndustryWeighting::Technology
    } else if l == "healthcare"@ || l == "medical"@ {
        IndustryWeighting::Healthcare
    } else if l == "finance"@ || l == "banking"@ {
        IndustryWeighting::Finance
    } else if l == "education"@ || l == "academic"@ {
        IndustryWeighting::Education
    } else {
        IndustryWeighting::Standard
    }
}

/// The weighting group of a lowercased role level.
pub open spec fn role_weighting_of(l: Seq<char>) -> RoleWeighting {
    if l == "senior"@ || l == "lead"@ || l == "principal"@ {
        RoleWeighting::Senior
    } else if l == "executive"@ || l == "director"@ || l == "vp"@ || l == "cto"@ || l == "ceo"@ {
        RoleWeighting::Executive
    } else if l == "entry"@ || l == "junior"@ || l == "intern"@ {
        RoleWeighting::Entry
    } else {
        RoleWeighting::Standard
    }
}

/// The weighting group of an industry, by its name without regard to case.
pub fn industry_weighting(industry: &str) -> (res: IndustryWeighting)
    ensures
        res == industry_weighting_of(lowercase(industry@)),
{
    let lower = to_lowercase(industry);
    let l = lower.as_str();
    if str_eq(l, "technology") || str_eq(l, "software") || str_eq(l, "it") {
        IndustryWeighting::Technology
    } else if str_eq(l, "healthcare") || str_eq(l, "medical") {
        IndustryWeighting::Healthcare
    } else if str_eq(l, "finance") || str_eq(l, "banking") {
        IndustryWeighting::Finance
    } else if str_eq(l, "education") || str_eq(l, "academic") {
        IndustryWeighting::Education
    } else {
        IndustryWeighting::Standard
    }
}

/// The weighting group of a role level, by its name without regard to case.
pub fn role_weighting(role_level: &str) -> (res: RoleWeighting)
    ensures
        res == role_weighting_of(lowercase(role_level@)),
{
    let lower = to_lowercase(role_level);
    let l = lower.as_str();
    if str_eq(l, "senior") || str_eq(l, "lead") || str_eq(l, "principal") {
        RoleWeighting::Senior
    } else if str_eq(l, "executive") || str_eq(l, "director") || str_eq(l, "vp") || str_eq(l, "cto") || str_eq(l, "ceo") {
        RoleWeighting::Executive
    } else if str_eq(l, "entry") || str_eq(l, "junior") || str_eq(l, "intern") {
        RoleWeighting::Entry
    } else {
        RoleWeighting::Standard
    }
}


/// Scoring weights in hundredths, before they are scaled to sum to one.
#[derive(Debug, Clone, Copy, PartialEq, Eq, Structural)]
pub struct WeightPoints {
    pub technical_skills: u32,
    pub experience: u32,
    pub education: u32,
    pub keywords: u32,
    pub format: u32,
    pub leadership: u32,
    pub certifications: u32,
    pub industry_specific: u32,
}

/// The sum of all weights.
pub open spec fn total_points(w: WeightPoints) -> int {
    w.technical_skills + w.experience + w.education + w.keywords + w.format + w.leadership
        + w.certifications + w.industry_specific
}

/// The weights an industry group starts from.
pub open spec fn base_points(i: IndustryWeighting) -> WeightPoints {
    match i {
        IndustryWeighting::Technology => WeightPoints {
            technical_skills: 35, experience: 25, education: 10, keywords: 15,
            format: 10, leadership: 5, certifications: 10, industry_specific: 5,
        },
        IndustryWeighting::Healthcare => WeightPoints {
            technical_skills: 10, experience: 20, education: 25, keywords: 10,
            format: 10, leadership: 5, certifications: 30, industry_specific: 5,
        },
        IndustryWeighting::Finance => WeightPoints {
            technical_skills: 15, experience: 25, education: 20, keywords: 10,
            format: 10, leadership: 5, certifications: 25, industry_specific: 5,
        },
        IndustryWeighting::Education => WeightPoints {
            technical_skills: 10, experience: 20, education: 35, keywords: 15,
            format: 10, leadership: 5, certifications: 15, industry_specific: 5,
        },
        IndustryWeighting::Standard => WeightPoints {
            technical_skills: 25, experience: 20, education: 15, keywords: 15,
            format: 10, leadership: 5, certifications: 5, industry_specific: 5,
        },
    }
}

/// The weights after the shift that a role level makes.
pub open spec fn role_adjusted(w: WeightPoints, r: RoleWeighting) -> WeightPoints {
    match r {
        RoleWeighting::Senior => WeightPoints {
            leadership: (w.leadership + 10) as u32,
            experience: (w.experience + 5) as u32,
            technical_skills: (w.technical_skills - 5) as u32,
            education: (w.education - 5) as u32,
            keywords: (w.keywords - 5) as u32,
            ..w
        },
        RoleWeighting::Executive => WeightPoints {
            leadership: (w.leadership + 20) as u32,
            experience: (w.experience + 10) as u32,
            technical_skills: (w.technical_skills - 10) as u32,
            education: (w.education - 10) as u32,
            keywords: (w.keywords - 10) as u32,
            ..w
        },
        RoleWeighting::Entry => WeightPoints {
            education: (w.education + 10) as u32,
            technical_skills: (w.technical_skills + 5) as u32,
            experience: (w.experience - 10) as u32,
            leadership: (w.leadership - 5) as u32,
            ..w
        },
        RoleWeighting::Standard => w,
    }
}

fn base_weight_points(i: IndustryWeighting) -> (res: WeightPoints)
    ensures
        res == base_points(i),
{
    match i {
        IndustryWeighting::Technology => WeightPoints {
            technical_skills: 35, experience: 25, education: 10, keywords: 15,
            format: 10, leadership: 5, certifications: 10, industry_specific: 5,
        },
        IndustryWeighting::Healthcare => WeightPoints {
            technical_skills: 10, experience: 20, education: 25, keywords: 10,
            format: 10, leadership: 5, certifications: 30, industry_specific: 5,
        },
        IndustryWeighting::Finance => WeightPoints {
            technical_skills: 15, experience: 25, education: 20, keywords: 10,
            format: 10, leadership: 5, certifications: 25, industry_specific: 5,
        },
        IndustryWeighting::Education => WeightPoints {
            technical_skills: 10, experience: 20, education: 35, keywords: 15,
            format: 10, leadership: 5, certifications: 15, industry_specific: 5,
        },
        IndustryWeighting::Standard => WeightPoints {
            technical_skills: 25, experience: 20, education: 15, keywords: 15,
            format: 10, leadership: 5, certifications: 5, industry_specific: 5,
        },
    }
}

/// The scoring weights, in hundredths, for an industry and a role level,
/// before they are scaled to sum to one. Every weight stays non-negative,
/// and the shift of a role level moves weight between categories without
/// changing the sum: 115 for the four named industry groups, 100 otherwise.
pub fn dynamic_weight_points(industry: &str, role_level: &str) -> (res: WeightPoints)
    ensures
        res == role_adjusted(
            base_points(industry_weighting_of(lowercase(industry@))),
            role_weighting_of(lowercase(role_level@)),
        ),
        total_points(res) == if industry_weighting_of(lowercase(industry@)) == IndustryWeighting::Standard {
            100int
        } else {
            115int
        },
{
    let i = industry_weighting(industry);
    let r = role_weighting(role_level);
    let mut w = base_weight_points(i);
    match r {
        RoleWeighting::Senior => {
            w.leadership = w.leadership + 10;
            w.experience = w.experience + 5;
            w.technical_skills = w.technical_skills - 5;
            w.education = w.education - 5;
            w.keywords = w.keywords - 5;
        },
        RoleWeighting::Executive => {
            w.leadership = w.leadership + 20;
            w.experience = w.experience + 10;
            w.technical_skills = w.technical_skills - 10;
            w.education = w.education - 10;
            w.keywords = w.keywords - 10;
        },
        RoleWeighting::Entry => {
            w.education = w.education + 10;
            w.technical_skills = w.technical_skills + 5;
            w.experience = w.experience - 10;
            w.leadership = w.leadership - 5;
        },
        RoleWeighting::Standard => {},
    }
    w
}


/// The smaller of two integers.
pub open spec fn min_of(a: int, b: int) -> int {
    if a <= b { a } else { b }
}

/// Points a detected role level adds to the experience score.
pub open spec fn experience_level_bonus(level: Seq<char>) -> int {
    if level == "entry"@ {
        5
    } else if level == "mid"@ {
        15
    } else if level == "senior"@ {
        25
    } else if level == "lead"@ || level == "principal"@ {
        35
    } else if level == "executive"@ {
        40
    } else {
        10
    }
}

/// The experience score: 50, plus two points a year of experience (at most
/// 30), plus the bonus of the role level, plus two points an experience
/// indicator (at most 20), capped at 100.
pub open spec fn experience_score(years: Option<i32>, level: Seq<char>, indicators: nat) -> int {
    let from_years = match years {
        Some(y) => min_of(2 * y, 30),
        None => 0,
    };
    min_of(50 + from_years + experience_level_bonus(level) + min_of((2 * indicators) as int, 20), 100)
}

/// The experience score of a role assessment, from its estimate of years,
/// its detected level and the number of its experience indicators.
pub fn calculate_experience_score(
    years_of_experience: Option<i32>,
    detected_level: &str,
    experience_indicator_count: usize,
) -> (res: i64)
    ensures
        res == experience_score(years_of_experience, detected_level@, experience_indicator_count as nat),
{
    let mut score: i64 = 50;
    match years_of_experience {
        Some(y) => {
            let twice: i64 = 2 * (y as i64);
            score = score + if twice < 30 { twice } else { 30 };
        },
        None => {},
    }
    let bonus: i64 = if str_eq(detected_level, "entry") {
        5
    } else if str_eq(detected_level, "mid") {
        15
    } else if str_eq(detected_level, "senior") {
        25
    } else if str_eq(detected_level, "lead") || str_eq(detected_level, "principal") {
        35
    } else if str_eq(detected_level, "executive") {
        40
    } else {
        10
    };
    score = score + bonus;
    score = score + if experience_indicator_count >= 10 { 20 } else { 2 * (experience_indicator_count as i64) };
    if score < 100 { score } else { 100 }
}

/// The education score of a lowercased text: the highest degree named
/// (40, 30, 20 or 10), 15 for a technical field, 10 for ongoing education.
pub open spec fn education_score(lc: Seq<char>) -> int {
    let degree = if contains(lc, "phd"@) || contains(lc, "doctorate"@) {
        40int
    } else if contains(lc, "master"@) || contains(lc, "mba"@) {
        30
    } else if contains(lc, "bachelor"@) || contains(lc, "degree"@) {
        20
    } else if contains(lc, "associate"@) || contains(lc, "diploma"@) {
        10
    } else {
        0
    };
    let field = if contains(lc, "computer science"@) || contains(lc, "engineering"@) { 15int } else { 0 };
    let ongoing = if contains(lc, "continuing education"@) || contains(lc, "professional development"@) {
        10int
    } else {
        0
    };
    degree + field + ongoing
}

fn mentions_text(v: &Vec<char>, k: &str) -> (res: bool)
    ensures
        res == contains(v@, k@),
{
    contains_chars(v, &chars_of(k))
}

/// The education score of a resume, read without regard to case; it never
/// exceeds 65.
pub fn calculate_education_score(resume_content: &str) -> (res: u32)
    ensures
        res == education_score(lowercase(resume_content@)),
        res <= 65,
{
    let lc = chars_of(&to_lowercase(resume_content));
    let mut score: u32 = 0;
    if mentions_text(&lc, "phd") || mentions_text(&lc, "doctorate") {
        score = 40;
    } else if mentions_text(&lc, "master") || mentions_text(&lc, "mba") {
        score = 30;
    } else if mentions_text(&lc, "bachelor") || mentions_text(&lc, "degree") {
        score = 20;
    } else if mentions_text(&lc, "associate") || mentions_text(&lc, "diploma") {
        score = 10;
    }
    if mentions_text(&lc, "computer science") || mentions_text(&lc, "engineering") {
        score = score + 15;
    }
    if mentions_text(&lc, "continuing education") || mentions_text(&lc, "professional development") {
        score = score + 10;
    }
    score
}

/// The words that show leadership in a resume.
pub open spec fn leadership_keywords() -> Seq<Seq<char>> {
    seq![
        "led"@, "managed"@, "supervised"@, "directed"@, "coordinated"@, "mentored"@,
        "team lead"@, "project manager"@, "scrum master"@, "architect"@, "principal"@,
    ]
}

/// How many of the first `n` words of `kws` occur in `lc`.
pub open spec fn keywords_present(kws: Seq<Seq<char>>, lc: Seq<char>, n: int) -> nat
    decreases n,
{
    if n <= 0 {
        0
    } else {
        keywords_present(kws, lc, n - 1) + if contains(lc, kws[n - 1]) { 1nat } else { 0nat }
    }
}

/// Points a detected role level adds to the leadership score.
pub open spec fn leadership_level_bonus(level: Seq<char>) -> int {
    if level == "lead"@ || level == "principal"@ {
        20
    } else if level == "senior"@ {
        15
    } else if level == "executive"@ {
        30
    } else {
        0
    }
}

/// The leadership score: ten points a leadership indicator (at most 40),
/// five points a leadership word in the lowercased text, plus the bonus of
/// the role level, capped at 100.
pub open spec fn leadership_score(indicators: nat, lc: Seq<char>, level: Seq<char>) -> int {
    min_of(
        min_of((10 * indicators) as int, 40) + 5 * keywords_present(leadership_keywords(), lc, 11)
            + leadership_level_bonus(level),
        100,
    )
}

/// The leadership score of a resume, from the number of leadership
/// indicators of its role assessment, its words (read without regard to
/// case) and the detected level.
pub fn calculate_leadership_score(
    resume_content: &str,
    leadership_indicator_count: usize,
    detected_level: &str,
) -> (res: u32)
    ensures
        res == leadership_score(leadership_indicator_count as nat, lowercase(resume_content@), detected_level@),
{
    let kws: [&str; 11] = [
        "led", "managed", "supervised", "directed", "coordinated", "mentored", "team lead",
        "project manager", "scrum master", "architect", "principal",
    ];
    let ghost kv = str_views(kws@);
    assert(forall|k: int| 0 <= k < 11 ==> kv[k] == #[trigger] leadership_keywords()[k]);
    let lc = chars_of(&to_lowercase(resume_content));
    let mut found: u32 = 0;
    let mut j: usize = 0;
    while j < 11
        invariant
            j <= 11,
            kv == str_views(kws@),
            forall|k: int| 0 <= k < 11 ==> kv[k] == #[trigger] leadership_keywords()[k],
            lc@ == lowercase(resume_content@),
            found == keywords_present(leadership_keywords(), lc@, j as int),
            found <= j,
        decreases 11 - j,
    {
        assert(kv[j as int] == kws[j as int]@);
        if mentions_text(&lc, kws[j]) {
            found = found + 1;
        }
        j += 1;
    }
    let mut score: u32 = if leadership_indicator_count >= 4 { 40 } else { 10 * (leadership_indicator_count as u32) };
    score = score + 5 * found;
    if str_eq(detected_level, "lead") || str_eq(detected_level, "principal") {
        score = score + 20;
    } else if str_eq(detected_level, "senior") {
        score = score + 15;
    } else if str_eq(detected_level, "executive") {
        score = score + 30;
    }
    if score < 100 { score } else { 100 }
}


/// How a model's industry classification stands to the target industry.
#[derive(Debug, Clone, Copy, PartialEq, Eq, Structural)]
pub enum ClassificationMatch {
    /// The same industry, without regard to case.
    Same,
    /// Industries of one related group.
    Related,
    /// A specific industry that is neither: the words the two names share
    /// decide the confidence.
    Specific,
    /// The classification is "unknown" or "general".
    Unspecific,
}

/// How `detected` stands to `target`.
pub open spec fn classification_match_of(detected: Seq<char>, target: Seq<char>) -> ClassificationMatch {
    let d = lowercase(detected);
    let t = lowercase(target);
    if d == t {
        ClassificationMatch::Same
    } else if industries_related(d, t) {
        ClassificationMatch::Related
    } else if detected != "unknown"@ && detected != "general"@ {
        ClassificationMatch::Specific
    } else {
        ClassificationMatch::Unspecific
    }
}

/// How a model's industry classification stands to the target industry:
/// the same (without regard to case), related, another specific industry,
/// or no specific industry at all.
pub fn classification_match(detected: &str, target: &str) -> (res: ClassificationMatch)
    ensures
        res == classification_match_of(detected@, target@),
{
    let d = to_lowercase(detected);
    let t = to_lowercase(target);
    if str_eq(d.as_str(), t.as_str()) {
        ClassificationMatch::Same
    } else if industries_are_related(d.as_str(), t.as_str()) {
        ClassificationMatch::Related
    } else if !str_eq(detected, "unknown") && !str_eq(detected, "general") {
        ClassificationMatch::Specific
    } else {
        ClassificationMatch::Unspecific
    }
}


/// The degree named decides the first part of the education score: a
/// doctorate gives at least 40, a master's degree (or MBA) without a
/// doctorate between 30 and 55, a bachelor's degree (or the word degree)
/// without a higher one between 20 and 45; a field and ongoing education
/// add at most 25, and the score never exceeds 65.
pub proof fn law_education_degree_points(lc: Seq<char>)
    ensures
        contains(lc, "phd"@) || contains(lc, "doctorate"@) ==> 40 <= education_score(lc) <= 65,
        !contains(lc, "phd"@) && !contains(lc, "doctorate"@) && (contains(lc, "master"@) || contains(lc, "mba"@))
            ==> 30 <= education_score(lc) <= 55,
        !contains(lc, "phd"@) && !contains(lc, "doctorate"@) && !contains(lc, "master"@) && !contains(lc, "mba"@)
            && (contains(lc, "bachelor"@) || contains(lc, "degree"@)) ==> 20 <= education_score(lc) <= 45,
        0 <= education_score(lc) <= 65,
{
}

} // verus!
