//! Textual and structural features of a resume, as counts; the prediction
//! models turn them into numbers. Also the plain parts of the insight
//! reports.
use vstd::prelude::*;
use crate::text::{
    chars_of, contains, contains_chars, words, words_of, views, lines, lines_of, trim_start,
    trim_start_chars, chars_eq,
};
use crate::unicode::{lowercase, to_lowercase, upper, is_uppercase};

verus! {

/// Advice for a salary negotiation.
#[derive(Debug, Clone)]
pub struct NegotiationInsights {
    pub leverage_points: Vec<String>,
    pub market_conditions: String,
    pub timing_recommendations: Vec<String>,
    pub preparation_strategies: Vec<String>,
}

/// A milestone on a career path.
#[derive(Debug, Clone)]
pub struct CareerMilestone {
    pub milestone: String,
    pub timeline: String,
    pub requirements: Vec<String>,
    pub success_indicators: Vec<String>,
}

/// Features of the wording of a resume.
#[derive(Debug, Clone, Copy)]
pub struct TextualFeatureExtractor;

/// Features of the layout of a resume.
#[derive(Debug, Clone, Copy)]
pub struct StructuralFeatureExtractor;

/// Number of occurrences of `c` in `s`.
pub open spec fn count_char(s: Seq<char>, c: char) -> nat
    decreases s.len(),
{
    if s.len() == 0 {
        0
    } else {
        count_char(s.drop_last(), c) + if s.last() == c { 1nat } else { 0nat }
    }
}

/// Number of pieces of `s` split at `.` (`str::split('.').count()`).
pub open spec fn sentence_pieces(s: Seq<char>) -> nat {
    count_char(s, '.') + 1
}

/// The distinct lowercase words of `s`.
pub open spec fn word_set(s: Seq<char>) -> Set<Seq<char>> {
    words(lowercase(s)).to_set()
}

/// Readability of text with `w` words in `s` sentences: 100 for 15 to 25
/// words a sentence, 50 below 10 or above 30, otherwise 75.
pub open spec fn readability_bucket(w: nat, s: nat) -> nat {
    if 15 * s <= w && w <= 25 * s {
        100
    } else if w < 10 * s || w > 30 * s {
        50
    } else {
        75
    }
}

/// Number of the `needles` that occur in `hay`.
pub open spec fn found_count(needles: Seq<Seq<char>>, hay: Seq<char>) -> nat
    decreases needles.len(),
{
    if needles.len() == 0 {
        0
    } else {
        found_count(needles.drop_last(), hay) + if contains(hay, needles.last()) { 1nat } else { 0nat }
    }
}

/// Whether a line, after leading whitespace, starts with a bullet or a dash.
pub open spec fn is_bullet_line(l: Seq<char>) -> bool {
    let t = trim_start(l);
    t.len() > 0 && (t[0] == '•' || t[0] == '-')
}

/// Number of bullet lines among `ls`.
pub open spec fn bullet_count(ls: Seq<Seq<char>>) -> nat
    decreases ls.len(),
{
    if ls.len() == 0 {
        0
    } else {
        bullet_count(ls.drop_last()) + if is_bullet_line(ls.last()) { 1nat } else { 0nat }
    }
}

/// Number of formatting checks that `s` passes: some uppercase letter, a
/// full stop or comma, and no double space.
pub open spec fn formatting_checks(s: Seq<char>) -> nat {
    (if exists|i: int| 0 <= i < s.len() && upper(#[trigger] s[i]) { 1nat } else { 0nat }) + (if contains(
        s,
        "."@,
    ) || contains(s, ","@) {
        1nat
    } else {
        0nat
    }) + (if !contains(s, "  "@) { 1nat } else { 0nat })
}

/// What a pushed sequence contains.
proof fn lemma_push_contains(s: Seq<Seq<char>>, x: Seq<char>, y: Seq<char>)
    ensures
        s.push(x).contains(y) <==> (s.contains(y) || y == x),
{
    if s.push(x).contains(y) {
        let k = choose|k: int| 0 <= k < s.len() + 1 && s.push(x)[k] == y;
        if k < s.len() {
            assert(s[k] == y);
        }
    }
    if s.contains(y) {
        let k = choose|k: int| 0 <= k < s.len() && s[k] == y;
        assert(s.push(x)[k] == y);
    }
    if y == x {
        assert(s.push(x)[s.len() as int] == y);
    }
}

/// Whether `list` holds `w`.
fn holds_word(list: &Vec<Vec<char>>, w: &Vec<char>) -> (res: bool)
    ensures
        res == views(list@).contains(w@),
{
    let mut i: usize = 0;
    while i < list.len()
        invariant
            i <= list.len(),
            forall|k: int| 0 <= k < i ==> views(list@)[k] != w@,
        decreases list.len() - i,
    {
        if chars_eq(&list[i], w) {
            assert(views(list@)[i as int] == w@);
            return true;
        }
        i += 1;
    }
    false
}

/// The distinct entries of `v`.
pub(crate) fn distinct(v: &Vec<Vec<char>>) -> (res: Vec<Vec<char>>)
    ensures
        views(res@).no_duplicates(),
        views(res@).to_set() == views(v@).to_set(),
{
    let mut out: Vec<Vec<char>> = Vec::new();
    let mut i: usize = 0;
    while i < v.len()
        invariant
            i <= v.len(),
            views(out@).no_duplicates(),
            views(out@).to_set() == views(v@).take(i as int).to_set(),
        decreases v.len() - i,
    {
        let ghost before = views(out@);
        assert(views(v@).take(i + 1) == views(v@).take(i as int).push(v@[i as int]@));
        let ghost x = v@[i as int]@;
        let ghost t = views(v@).take(i as int);
        if !holds_word(&out, &v[i]) {
            out.push(v[i].clone());
            assert(views(out@) == before.push(x));
            assert forall|y: Seq<char>| views(out@).to_set().contains(y) == t.push(x).to_set().contains(y) by {
                lemma_push_contains(before, x, y);
                lemma_push_contains(t, x, y);
                assert(before.to_set().contains(y) == t.to_set().contains(y));
            }
            assert(views(out@).to_set() =~= views(v@).take(i + 1).to_set());
        } else {
            assert forall|y: Seq<char>| views(out@).to_set().contains(y) == t.push(x).to_set().contains(y) by {
                lemma_push_contains(t, x, y);
                assert(before.to_set().contains(y) == t.to_set().contains(y));
                assert(before.contains(x));
            }
            assert(views(out@).to_set() =~= views(v@).take(i + 1).to_set());
        }
        i += 1;
    }
    assert(views(v@).take(v.len() as int) == views(v@));
    out
}

/// The number of distinct entries of `jw` that `rw` holds too.
pub(crate) fn shared_count(jw: &Vec<Vec<char>>, rw: &Vec<Vec<char>>) -> (res: usize)
    ensures
        res == views(jw@).to_set().intersect(views(rw@).to_set()).len(),
{
        let jd = distinct(&jw);
        let ghost rs = views(rw@).to_set();
        let mut common: Vec<Vec<char>> = Vec::new();
        let mut k: usize = 0;
        while k < jd.len()
            invariant
                k <= jd.len(),
                views(jd@).no_duplicates(),
                rs == views(rw@).to_set(),
                views(common@).no_duplicates(),
                views(common@).to_set() == views(jd@).take(k as int).to_set().intersect(rs),
                forall|a: int| 0 <= a < common.len() ==> views(jd@).take(k as int).contains(#[trigger] views(common@)[a]),
            decreases jd.len() - k,
        {
            let ghost before = views(common@);
            assert(views(jd@).take(k + 1) == views(jd@).take(k as int).push(jd@[k as int]@));
            if holds_word(&rw, &jd[k]) {
                proof {
                    assert(!before.contains(jd@[k as int]@)) by {
                        if before.contains(jd@[k as int]@) {
                            let a = choose|a: int| 0 <= a < before.len() && before[a] == jd@[k as int]@;
                            assert(views(jd@).take(k as int).contains(before[a]));
                            let b = choose|b: int| 0 <= b < k && views(jd@).take(k as int)[b] == before[a];
                            assert(views(jd@)[b] == views(jd@)[k as int]);
                        }
                    }
                }
                common.push(jd[k].clone());
                assert(views(common@) == before.push(jd@[k as int]@));
                assert forall|a: int| 0 <= a < common.len() implies views(jd@).take(k + 1).contains(#[trigger] views(common@)[a]) by {
                    if a < before.len() {
                        let b = choose|b: int| 0 <= b < k && views(jd@).take(k as int)[b] == before[a];
                        assert(views(jd@).take(k + 1)[b] == before[a]);
                    } else {
                        assert(views(jd@).take(k + 1)[k as int] == views(common@)[a]);
                    }
                }
            } else {
                assert forall|a: int| 0 <= a < common.len() implies views(jd@).take(k + 1).contains(#[trigger] views(common@)[a]) by {
                    let b = choose|b: int| 0 <= b < k && views(jd@).take(k as int)[b] == before[a];
                    assert(views(jd@).take(k + 1)[b] == before[a]);
                }
            }
            proof {
                let x = jd@[k as int]@;
                let t = views(jd@).take(k as int);
                assert forall|y: Seq<char>| views(common@).to_set().contains(y) == t.push(x).to_set().intersect(rs).contains(y) by {
                    lemma_push_contains(before, x, y);
                    lemma_push_contains(t, x, y);
                    assert(before.to_set().contains(y) == t.to_set().intersect(rs).contains(y));
                    assert(rs.contains(x) == views(rw@).contains(x));
                }
            }
            assert(views(common@).to_set() =~= views(jd@).take(k + 1).to_set().intersect(rs));
            k += 1;
        }
        assert(views(jd@).take(jd.len() as int) == views(jd@));
        proof {
            views(common@).unique_seq_to_set();
            views(jd@).unique_seq_to_set();
        }
        (common.len())
}

impl TextualFeatureExtractor {
    /// Number of words.
    pub fn word_count(&self, content: &str) -> (res: usize)
        ensures
            res == words(content@).len(),
    {
        words_of(&chars_of(content)).len()
    }

    /// Number of pieces when split at full stops.
    pub fn sentence_count(&self, content: &str) -> (res: usize)
        requires
            content@.len() < usize::MAX,
        ensures
            res == sentence_pieces(content@),
    {
        let v = chars_of(content);
        let mut n: usize = 1;
        let mut i: usize = 0;
        while i < v.len()
            invariant
                i <= v.len(),
                v.len() < usize::MAX,
                n == count_char(v@.take(i as int), '.') + 1,
                n <= i + 1,
            decreases v.len() - i,
        {
            assert(v@.take(i + 1).drop_last() == v@.take(i as int));
            if v[i] == '.' {
                n += 1;
            }
            i += 1;
        }
        assert(v@.take(v.len() as int) == v@);
        n
    }

    /// Number of characters.
    pub fn char_count(&self, content: &str) -> (res: usize)
        ensures
            res == content@.len(),
    {
        chars_of(content).len()
    }

    /// The number of distinct lowercase words of the job description that
    /// the resume has too, and the number of distinct words of the job
    /// description.
    pub fn keyword_overlap(&self, resume_content: &str, job_description: &str) -> (res: (usize, usize))
        ensures
            res.0 == word_set(job_description@).intersect(word_set(resume_content@)).len(),
            res.1 == word_set(job_description@).len(),
    {
        let rl = to_lowercase(resume_content);
        let jl = to_lowercase(job_description);
        let rw = words_of(&chars_of(rl.as_str()));
        let jw = words_of(&chars_of(jl.as_str()));
        let common = shared_count(&jw, &rw);
        let jd = distinct(&jw);
        proof {
            views(jd@).unique_seq_to_set();
        }
        (common, jd.len())
    }

    /// Readability of the text by its words per sentence, as
    /// `readability_bucket` states.
    pub fn readability_bucket(&self, content: &str) -> (res: u32)
        requires
            content@.len() < usize::MAX,
        ensures
            res == readability_bucket(words(content@).len(), sentence_pieces(content@)),
    {
        let w = self.word_count(content) as u128;
        let s = self.sentence_count(content) as u128;
        if 15 * s <= w && w <= 25 * s {
            100
        } else if w < 10 * s || w > 30 * s {
            50
        } else {
            75
        }
    }

    /// Names of the textual features, in order.
    pub fn get_feature_names(&self) -> (res: Vec<String>)
        ensures
            res@.map_values(|n: String| n@) == seq![
                "word_count"@,
                "sentence_count"@,
                "avg_word_length"@,
                "keyword_density"@,
                "readability_score"@,
            ],
    {
        let res = vec![
            "word_count".to_owned(),
            "sentence_count".to_owned(),
            "avg_word_length".to_owned(),
            "keyword_density".to_owned(),
            "readability_score".to_owned(),
        ];
        assert(res@.map_values(|n: String| n@) =~= seq![
            "word_count"@,
            "sentence_count"@,
            "avg_word_length"@,
            "keyword_density"@,
            "readability_score"@,
        ]);
        res
    }
}

/// Counts how many of `needles` occur in `hay`.
fn count_found(needles: &[&str], hay: &Vec<char>) -> (res: usize)
    ensures
        res == found_count(needles@.map_values(|n: &str| n@), hay@),
{
    let ghost nv = needles@.map_values(|n: &str| n@);
    let mut n: usize = 0;
    let mut i: usize = 0;
    while i < needles.len()
        invariant
            i <= needles.len(),
            nv == needles@.map_values(|n: &str| n@),
            n == found_count(nv.take(i as int), hay@),
            n <= i,
        decreases needles.len() - i,
    {
        assert(nv.take(i + 1).drop_last() == nv.take(i as int));
        if contains_chars(hay, &chars_of(needles[i])) {
            n += 1;
        }
        i += 1;
    }
    assert(nv.take(needles.len() as int) == nv);
    n
}

/// Section words counted in a resume.
pub open spec fn common_section_words() -> Seq<Seq<char>> {
    seq!["experience"@, "education"@, "skills"@, "summary"@, "objective"@]
}

/// Contact elements counted in a resume.
pub open spec fn contact_elements() -> Seq<Seq<char>> {
    seq!["@"@, "phone"@, "linkedin"@, "github"@]
}

impl StructuralFeatureExtractor {
    /// Number of the common section words in the lowercase text.
    pub fn count_sections(&self, content: &str) -> (res: usize)
        ensures
            res == found_count(common_section_words(), lowercase(content@)),
    {
        let words: [&str; 5] = ["experience", "education", "skills", "summary", "objective"];
        assert(words@.map_values(|n: &str| n@) == common_section_words());
        let lc = to_lowercase(content);
        count_found(&words, &chars_of(lc.as_str()))
    }

    /// Number of lines that start, after leading whitespace, with a bullet
    /// or a dash.
    pub fn count_bullet_points(&self, content: &str) -> (res: usize)
        ensures
            res == bullet_count(lines(content@)),
    {
        let ls = lines_of(&chars_of(content));
        let ghost lv = views(ls@);
        let mut n: usize = 0;
        let mut i: usize = 0;
        while i < ls.len()
            invariant
                i <= ls.len(),
                lv == views(ls@),
                n == bullet_count(lv.take(i as int)),
                n <= i,
            decreases ls.len() - i,
        {
            assert(lv.take(i + 1).drop_last() == lv.take(i as int));
            assert(lv.take(i + 1).last() == ls@[i as int]@);
            let t = trim_start_chars(&ls[i]);
            if t.len() > 0 && (t[0] == '•' || t[0] == '-') {
                n += 1;
            }
            i += 1;
        }
        assert(lv.take(ls.len() as int) == lv);
        n
    }

    /// Number of the contact elements in the lowercase text.
    pub fn contact_elements_found(&self, content: &str) -> (res: usize)
        ensures
            res == found_count(contact_elements(), lowercase(content@)),
    {
        let elems: [&str; 4] = ["@", "phone", "linkedin", "github"];
        assert(elems@.map_values(|n: &str| n@) == contact_elements());
        let lc = to_lowercase(content);
        count_found(&elems, &chars_of(lc.as_str()))
    }

    /// Number of the formatting checks the text passes.
    pub fn formatting_checks_passed(&self, content: &str) -> (res: usize)
        ensures
            res == formatting_checks(content@),
    {
        let v = chars_of(content);
        let mut has_upper = false;
        let mut i: usize = 0;
        while i < v.len()
            invariant
                i <= v.len(),
                v@ == content@,
                has_upper == exists|k: int| 0 <= k < i && upper(#[trigger] v@[k]),
            decreases v.len() - i,
        {
            if is_uppercase(v[i]) {
                has_upper = true;
            }
            i += 1;
        }
        let punct = contains_chars(&v, &chars_of(".")) || contains_chars(&v, &chars_of(","));
        let spacing = !contains_chars(&v, &chars_of("  "));
        let mut n: usize = 0;
        if has_upper {
            n += 1;
        }
        if punct {
            n += 1;
        }
        if spacing {
            n += 1;
        }
        n
    }

    /// Names of the structural features, in order.
    pub fn get_feature_names(&self) -> (res: Vec<String>)
        ensures
            res@.map_values(|n: String| n@) == seq![
                "section_count"@,
                "bullet_count"@,
                "contact_info_completeness"@,
                "formatting_score"@,
            ],
    {
        let res = vec![
            "section_count".to_owned(),
            "bullet_count".to_owned(),
            "contact_info_completeness".to_owned(),
            "formatting_score".to_owned(),
        ];
        assert(res@.map_values(|n: String| n@) =~= seq![
            "section_count"@,
            "bullet_count"@,
            "contact_info_completeness"@,
            "formatting_score"@,
        ]);
        res
    }
}


/// Skills looked for in a resume.
pub open spec fn common_skills() -> Seq<Seq<char>> {
    seq![
        "python"@, "java"@, "javascript"@, "react"@, "node.js"@, "sql"@, "aws"@, "docker"@,
        "kubernetes"@, "machine learning"@, "data analysis"@, "project management"@,
    ]
}

/// Those of `skills` that occur in `hay`, in order.
pub open spec fn skills_found(skills: Seq<Seq<char>>, hay: Seq<char>) -> Seq<Seq<char>>
    decreases skills.len(),
{
    if skills.len() == 0 {
        Seq::empty()
    } else {
        skills_found(skills.drop_last(), hay) + if contains(hay, skills.last()) {
            seq![skills.last()]
        } else {
            Seq::empty()
        }
    }
}

/// The common skills that the lowercased resume names, in list order.
pub fn extract_skills_from_resume(resume_content: &str) -> (res: Vec<String>)
    ensures
        res@.map_values(|s: String| s@) == skills_found(common_skills(), lowercase(resume_content@)),
{
    let skills: [&str; 12] = [
        "python", "java", "javascript", "react", "node.js", "sql", "aws", "docker", "kubernetes",
        "machine learning", "data analysis", "project management",
    ];
    let ghost sv = skills@.map_values(|n: &str| n@);
    assert(sv == common_skills());
    let lc = chars_of(to_lowercase(resume_content).as_str());
    let mut out: Vec<String> = Vec::new();
    let mut i: usize = 0;
    while i < 12
        invariant
            i <= 12,
            sv == skills@.map_values(|n: &str| n@),
            lc@ == lowercase(resume_content@),
            out@.map_values(|s: String| s@) == skills_found(sv.take(i as int), lc@),
        decreases 12 - i,
    {
        assert(sv.take(i + 1).drop_last() == sv.take(i as int));
        assert(sv.take(i + 1).last() == skills[i as int]@);
        if contains_chars(&lc, &chars_of(skills[i])) {
            let ghost prev = out@;
            out.push(skills[i].to_owned());
            assert(out@.map_values(|s: String| s@) == prev.map_values(|s: String| s@).push(skills[i as int]@));
        }
        i += 1;
    }
    assert(sv.take(12) == sv);
    out
}

} // verus!
