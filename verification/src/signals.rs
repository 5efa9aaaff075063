//! Signs of experience and seniority in a resume, the text around the
//! mentions of a keyword, how often a keyword occurs, and the synonyms of a
//! keyword that a resume uses.
use vstd::prelude::*;
use crate::text::{
    chars_of, contains, occurs_at, find_from, contains_chars, string_from_chars, trim, trim_chars,
    byte_len, char_width, at_char_boundary, char_index_at_byte, lemma_byte_len_encoding,
    lemma_byte_len_prefix_mono, lemma_byte_len_step, char_index, occurrence_count, count_occurrences,
    lemma_occurrences_positive,
};
use crate::unicode::{lowercase, to_lowercase};
use crate::pattern::find_all_spans;
use crate::document::str_views;
use crate::industry::{
    byte_slice, surrounding, spans_of, spans_locatable, context_ok, extract_surrounding_context,
    chars_between, pattern_locatable,
};

verus! {

/// A sign of experience in a resume.
#[derive(Debug, Clone)]
pub struct ExperienceIndicator {
    /// "experience_mention" or "role_keyword".
    pub indicator_type: String,
    /// The text of the mention, or the keyword found.
    pub description: String,
    /// The weight of the sign in tenths: 15 stands for 1.5.
    pub weight_tenths: u32,
    /// The text around the mention.
    pub context: String,
}

/// A sign of seniority in a resume.
#[derive(Debug, Clone)]
pub struct SenioritySignal {
    pub signal_type: String,
    /// Why the keyword found suggests seniority.
    pub description: String,
    /// The strength of the signal in tenths: 15 stands for 1.5.
    pub strength_tenths: u32,
    /// The text around the keyword.
    pub context: String,
}

/// The first position where `n` occurs in `h`.
pub open spec fn first_index(h: Seq<char>, n: Seq<char>) -> int {
    choose|i: int| occurs_at(h, n, i) && forall|j: int| 0 <= j < i ==> !occurs_at(h, n, j)
}

proof fn lemma_first_index(h: Seq<char>, n: Seq<char>, i: int)
    requires
        occurs_at(h, n, i),
        forall|j: int| 0 <= j < i ==> !occurs_at(h, n, j),
    ensures
        first_index(h, n) == i,
{
    assert(exists|k: int| occurs_at(h, n, k) && forall|j: int| 0 <= j < k ==> !occurs_at(h, n, j));
    let c = first_index(h, n);
    if c < i {
        assert(!occurs_at(h, n, c));
    } else if c > i {
        assert(!occurs_at(h, n, i));
    }
}

/// The byte offset, in the lowercased text, of the first occurrence of the
/// lowercased keyword; `None` where it does not occur.
pub open spec fn keyword_position(content: Seq<char>, keyword: Seq<char>) -> Option<int> {
    let l = lowercase(content);
    let k = lowercase(keyword);
    if contains(l, k) {
        Some(byte_len(l.take(first_index(l, k))) as int)
    } else {
        None
    }
}

/// The byte range from half of `size` before `pos` to half of `size` after
/// the keyword, within the text.
pub open spec fn keyword_range(content: Seq<char>, keyword: Seq<char>, pos: int, size: int) -> (int, int) {
    let half = size / 2;
    (
        if pos >= half { pos - half } else { 0 },
        if pos + byte_len(keyword) + half <= byte_len(content) {
            pos + byte_len(keyword) + half
        } else {
            byte_len(content) as int
        },
    )
}

/// Whether the text around the first mention of `keyword` can be cut out:
/// the offsets fit the machine words the computation uses, and the range is
/// in order and on character boundaries of the text.
pub open spec fn keyword_context_ok(content: Seq<char>, keyword: Seq<char>, size: int) -> bool {
    match keyword_position(content, keyword) {
        Some(pos) => {
            let r = keyword_range(content, keyword, pos, size);
            &&& pos <= i32::MAX
            &&& 0 <= size <= i32::MAX
            &&& pos + byte_len(keyword) + size / 2 <= usize::MAX
            &&& r.0 <= r.1
            &&& at_char_boundary(content, r.0)
            &&& at_char_boundary(content, r.1)
        },
        None => true,
    }
}

/// The trimmed text around the first mention of `keyword`, found without
/// regard to case; empty where the keyword does not occur.
pub open spec fn keyword_context(content: Seq<char>, keyword: Seq<char>, size: int) -> Seq<char> {
    match keyword_position(content, keyword) {
        Some(pos) => {
            let r = keyword_range(content, keyword, pos, size);
            trim(byte_slice(content, r.0, r.1))
        },
        None => Seq::empty(),
    }
}

/// The byte offset of character position `i` of `v`.
fn byte_offset(v: &Vec<char>, i: usize) -> (res: usize)
    requires
        i <= v.len(),
        byte_len(v@) <= usize::MAX,
    ensures
        res == byte_len(v@.take(i as int)),
{
    let mut total: usize = 0;
    let mut k: usize = 0;
    while k < i
        invariant
            k <= i <= v.len(),
            total == byte_len(v@.take(k as int)),
            byte_len(v@) <= usize::MAX,
        decreases i - k,
    {
        proof {
            lemma_byte_len_step(v@, k as int);
            lemma_byte_len_prefix_mono(v@, k + 1);
        }
        let u = v[k] as u32;
        let w: usize = if u < 0x80 {
            1
        } else if u < 0x800 {
            2
        } else if u < 0x10000 {
            3
        } else {
            4
        };
        assert(w == char_width(v@[k as int]));
        total = total + w;
        k += 1;
    }
    total
}

/// Where the lowercased keyword first occurs in the lowercased text.
fn find_keyword_position(content: &str, keyword: &str) -> (res: Option<usize>)
    ensures
        res is Some <==> keyword_position(content@, keyword@) is Some,
        res matches Some(p) ==> keyword_position(content@, keyword@) == Some(p as int),
{
    let l = to_lowercase(content);
    let k = to_lowercase(keyword);
    let lv = chars_of(l.as_str());
    let kv = chars_of(k.as_str());
    let len = l.as_str().as_bytes().len();
    proof {
        lemma_byte_len_encoding(l@);
    }
    assert(len == byte_len(lv@));
    match find_from(&lv, &kv, 0) {
        Some(i) => {
            proof {
                lemma_first_index(lv@, kv@, i as int);
            }
            assert(contains(lv@, kv@));
            Some(byte_offset(&lv, i))
        },
        None => {
            assert(!contains(lv@, kv@)) by {
                assert forall|j: int| !occurs_at(lv@, kv@, j) by {
                    if j < 0 {
                    }
                }
            }
            None
        },
    }
}

/// The trimmed text around the first mention of `keyword`, found without
/// regard to case: from half of `context_size` bytes before it to half of
/// `context_size` bytes after it, within the text. Empty where the keyword
/// does not occur.
pub fn extract_keyword_context_simple(content: &str, keyword: &str, context_size: usize) -> (res: String)
    requires
        keyword_context_ok(content@, keyword@, context_size as int),
    ensures
        res@ == keyword_context(content@, keyword@, context_size as int),
{
    match find_keyword_position(content, keyword) {
        Some(pos) => {
            let v = chars_of(content);
            let len = content.as_bytes().len();
            let klen = keyword.as_bytes().len();
            proof {
                lemma_byte_len_encoding(content@);
                lemma_byte_len_encoding(keyword@);
            }
            let half = context_size / 2;
            let a: usize = if pos >= half { pos - half } else { 0 };
            let b: usize = if pos + klen + half <= len { pos + klen + half } else { len };
            let w = chars_between(&v, a, b);
            string_from_chars(&trim_chars(&w))
        },
        None => String::new(),
    }
}

/// Whether the text around the first mention of `keyword` can be cut out.
pub(crate) fn keyword_context_locatable(content: &str, keyword: &str, context_size: usize) -> (res: bool)
    ensures
        res == keyword_context_ok(content@, keyword@, context_size as int),
{
    match find_keyword_position(content, keyword) {
        Some(pos) => {
            let v = chars_of(content);
            let len = content.as_bytes().len();
            let klen = keyword.as_bytes().len();
            proof {
                lemma_byte_len_encoding(content@);
                lemma_byte_len_encoding(keyword@);
            }
            if pos > 2147483647 || context_size > 2147483647 {
                return false;
            }
            let half = context_size / 2;
            if klen > usize::MAX - pos || half > usize::MAX - pos - klen {
                return false;
            }
            let a: usize = if pos >= half { pos - half } else { 0 };
            let b: usize = if pos + klen + half <= len { pos + klen + half } else { len };
            if a > b {
                return false;
            }
            char_index_at_byte(&v, a).is_some() && char_index_at_byte(&v, b).is_some()
        },
        None => true,
    }
}

/// The text around the first mention of `keyword`, where it can be cut out
/// on character boundaries; `None` where it cannot.
pub fn keyword_context_checked(content: &str, keyword: &str, context_size: usize) -> (res: Option<String>)
    ensures
        res is Some <==> keyword_context_ok(content@, keyword@, context_size as int),
        res matches Some(s) ==> s@ == keyword_context(content@, keyword@, context_size as int),
{
    if keyword_context_locatable(content, keyword, context_size) {
        Some(extract_keyword_context_simple(content, keyword, context_size))
    } else {
        None
    }
}

/// Patterns of stated experience ("5 years of experience", "over 3 years").
pub open spec fn experience_patterns() -> Seq<Seq<char>> {
    seq![
        r"(?i)(\d+)\+?\s*years?\s+(?:of\s+)?(?:experience|exp)"@,
        r"(?i)over\s+(\d+)\s+years?"@,
        r"(?i)(\d+)\+?\s*yrs?\s+(?:of\s+)?(?:experience|exp)"@,
        r"(?i)more than\s+(\d+)\s+years?"@,
    ]
}

/// Role keywords that suggest experience, with their weights in tenths.
pub open spec fn experience_keywords() -> Seq<(Seq<char>, u32)> {
    seq![
        ("project management"@, 15u32),
        ("team lead"@, 20u32),
        ("senior"@, 18u32),
        ("principal"@, 25u32),
        ("architect"@, 22u32),
        ("director"@, 30u32),
        ("manager"@, 20u32),
        ("consultant"@, 15u32),
        ("specialist"@, 13u32),
        ("expert"@, 17u32),
    ]
}

/// The content of an experience indicator: type, description, weight,
/// context.
pub type ExperienceView = (Seq<char>, Seq<char>, u32, Seq<char>);

/// The content of an experience indicator.
pub open spec fn experience_view(i: ExperienceIndicator) -> ExperienceView {
    (i.indicator_type@, i.description@, i.weight_tenths, i.context@)
}

/// The indicator of the match `s` of an experience pattern.
pub open spec fn mention_at(content: Seq<char>, s: (nat, nat)) -> ExperienceView {
    (
        "experience_mention"@,
        byte_slice(content, s.0 as int, s.1 as int),
        10,
        surrounding(content, s.0 as int, s.1 as int, 50),
    )
}

/// The indicators of the matches of the first `n` experience patterns,
/// pattern by pattern, in match order.
pub open spec fn experience_mentions(content: Seq<char>, n: int) -> Seq<ExperienceView>
    decreases n,
{
    if n <= 0 {
        Seq::empty()
    } else {
        experience_mentions(content, n - 1) + spans_of(experience_patterns()[n - 1], content).map_values(
            |s: (nat, nat)| mention_at(content, s),
        )
    }
}

/// The indicators of those of the first `n` role keywords that the text
/// contains, in table order.
pub open spec fn role_keyword_indicators(content: Seq<char>, n: int) -> Seq<ExperienceView>
    decreases n,
{
    if n <= 0 {
        Seq::empty()
    } else {
        let e = experience_keywords()[n - 1];
        role_keyword_indicators(content, n - 1) + if contains(content, e.0) {
            seq![("role_keyword"@, e.0, e.1, keyword_context(content, e.0, 100))]
        } else {
            Seq::empty()
        }
    }
}

/// The experience indicators of a text: the matches of the experience
/// patterns, then the role keywords it contains.
pub open spec fn experience_indicators(content: Seq<char>) -> Seq<ExperienceView> {
    experience_mentions(content, 4) + role_keyword_indicators(content, 10)
}

/// Whether the text around every experience indicator can be cut out.
pub open spec fn experience_locatable(content: Seq<char>) -> bool {
    &&& forall|p: int| 0 <= p < 4 ==> spans_locatable(#[trigger] experience_patterns()[p], content, 50)
    &&& forall|k: int|
        0 <= k < 10 && contains(content, #[trigger] experience_keywords()[k].0) ==> keyword_context_ok(
            content,
            experience_keywords()[k].0,
            100,
        )
}

/// The experience indicators of a resume text: each match of the
/// experience patterns with the text around it, then each role keyword the
/// text contains with its weight and the text around its first mention.
pub fn extract_experience_indicators(content: &str) -> (res: Vec<ExperienceIndicator>)
    requires
        experience_locatable(content@),
    ensures
        res@.map_values(|i: ExperienceIndicator| experience_view(i)) == experience_indicators(content@),
{
    let pats: [&str; 4] = [
        r"(?i)(\d+)\+?\s*years?\s+(?:of\s+)?(?:experience|exp)",
        r"(?i)over\s+(\d+)\s+years?",
        r"(?i)(\d+)\+?\s*yrs?\s+(?:of\s+)?(?:experience|exp)",
        r"(?i)more than\s+(\d+)\s+years?",
    ];
    let ghost pv = str_views(pats@);
    assert(pv == experience_patterns());
    let v = chars_of(content);
    let mut out: Vec<ExperienceIndicator> = Vec::new();
    let mut p: usize = 0;
    while p < 4
        invariant
            p <= 4,
            pv == str_views(pats@),
            pv == experience_patterns(),
            v@ == content@,
            experience_locatable(content@),
            out@.map_values(|i: ExperienceIndicator| experience_view(i)) == experience_mentions(content@, p as int),
        decreases 4 - p,
    {
        let spans = find_all_spans(pats[p], content);
        let ghost sv = spans@.map_values(|s: (usize, usize)| (s.0 as nat, s.1 as nat));
        assert(sv == spans_of(pv[p as int], content@));
        assert(spans_locatable(experience_patterns()[p as int], content@, 50));
        let ghost base = out@.map_values(|i: ExperienceIndicator| experience_view(i));
        let mut k: usize = 0;
        while k < spans.len()
            invariant
                k <= spans.len(),
                p < 4,
                v@ == content@,
                sv == spans@.map_values(|s: (usize, usize)| (s.0 as nat, s.1 as nat)),
                sv == spans_of(experience_patterns()[p as int], content@),
                spans_locatable(experience_patterns()[p as int], content@, 50),
                forall|i: int| 0 <= i < spans.len() ==> (#[trigger] spans@[i]).0 <= spans@[i].1 && at_char_boundary(content@, spans@[i].0 as int) && at_char_boundary(content@, spans@[i].1 as int),
                out@.map_values(|i: ExperienceIndicator| experience_view(i)) == base + sv.take(k as int).map_values(
                    |s: (nat, nat)| mention_at(content@, s),
                ),
            decreases spans.len() - k,
        {
            let (s, e) = spans[k];
            assert(sv[k as int] == (s as nat, e as nat));
            assert(context_ok(content@, s as int, e as int, 50));
            let context = extract_surrounding_context(content, s, e, 50);
            let description = string_from_chars(&chars_between(&v, s, e));
            let ind = ExperienceIndicator {
                indicator_type: "experience_mention".to_owned(),
                description,
                weight_tenths: 10,
                context,
            };
            let ghost before = out@;
            out.push(ind);
            assert(experience_view(ind) == mention_at(content@, sv[k as int]));
            assert(out@.map_values(|i: ExperienceIndicator| experience_view(i)) == before.map_values(
                |i: ExperienceIndicator| experience_view(i),
            ).push(experience_view(ind)));
            assert(sv.take(k + 1) == sv.take(k as int).push(sv[k as int]));
            assert(sv.take(k + 1).map_values(|s: (nat, nat)| mention_at(content@, s)) == sv.take(
                k as int,
            ).map_values(|s: (nat, nat)| mention_at(content@, s)).push(mention_at(content@, sv[k as int])));
            k += 1;
        }
        assert(sv.take(spans.len() as int) == sv);
        p += 1;
    }
    let kws: [(&str, u32); 10] = [
        ("project management", 15),
        ("team lead", 20),
        ("senior", 18),
        ("principal", 25),
        ("architect", 22),
        ("director", 30),
        ("manager", 20),
        ("consultant", 15),
        ("specialist", 13),
        ("expert", 17),
    ];
    let ghost kv = kws@.map_values(|e: (&str, u32)| (e.0@, e.1));
    assert(kv == experience_keywords());
    let mut j: usize = 0;
    while j < 10
        invariant
            j <= 10,
            kv == kws@.map_values(|e: (&str, u32)| (e.0@, e.1)),
            kv == experience_keywords(),
            v@ == content@,
            experience_locatable(content@),
            out@.map_values(|i: ExperienceIndicator| experience_view(i)) == experience_mentions(content@, 4)
                + role_keyword_indicators(content@, j as int),
        decreases 10 - j,
    {
        let (kw, w) = kws[j];
        assert(kv[j as int] == (kw@, w));
        let ghost before = out@.map_values(|i: ExperienceIndicator| experience_view(i));
        if contains_chars(&v, &chars_of(kw)) {
            assert(contains(content@, experience_keywords()[j as int].0));
            let context = extract_keyword_context_simple(content, kw, 100);
            let ind = ExperienceIndicator {
                indicator_type: "role_keyword".to_owned(),
                description: kw.to_owned(),
                weight_tenths: w,
                context,
            };
            let ghost prev = out@;
            out.push(ind);
            assert(out@.map_values(|i: ExperienceIndicator| experience_view(i)) == prev.map_values(
                |i: ExperienceIndicator| experience_view(i),
            ).push(experience_view(ind)));
        } else {
            assert(!contains(content@, experience_keywords()[j as int].0));
        }
        j += 1;
    }
    out
}

/// The experience indicators of a resume text, where the text around each
/// can be cut out on character boundaries; `None` where it cannot.
pub fn experience_indicators_checked(content: &str) -> (res: Option<Vec<ExperienceIndicator>>)
    ensures
        res is Some <==> experience_locatable(content@),
        res matches Some(v) ==> v@.map_values(|i: ExperienceIndicator| experience_view(i)) == experience_indicators(content@),
{
    let pats: [&str; 4] = [
        r"(?i)(\d+)\+?\s*years?\s+(?:of\s+)?(?:experience|exp)",
        r"(?i)over\s+(\d+)\s+years?",
        r"(?i)(\d+)\+?\s*yrs?\s+(?:of\s+)?(?:experience|exp)",
        r"(?i)more than\s+(\d+)\s+years?",
    ];
    let ghost pv = str_views(pats@);
    assert(pv == experience_patterns());
    let mut p: usize = 0;
    while p < 4
        invariant
            p <= 4,
            pv == str_views(pats@),
            pv == experience_patterns(),
            forall|q: int| 0 <= q < p ==> spans_locatable(#[trigger] experience_patterns()[q], content@, 50),
        decreases 4 - p,
    {
        if !pattern_locatable(pats[p], content, 50) {
            assert(!spans_locatable(experience_patterns()[p as int], content@, 50));
            return None;
        }
        p += 1;
    }
    let kws: [&str; 10] = [
        "project management", "team lead", "senior", "principal", "architect", "director", "manager",
        "consultant", "specialist", "expert",
    ];
    let ghost kv = str_views(kws@);
    assert(forall|k: int| 0 <= k < 10 ==> kv[k] == #[trigger] experience_keywords()[k].0);
    let v = chars_of(content);
    let mut j: usize = 0;
    while j < 10
        invariant
            j <= 10,
            kv == str_views(kws@),
            forall|k: int| 0 <= k < 10 ==> kv[k] == #[trigger] experience_keywords()[k].0,
            v@ == content@,
            forall|k: int|
                0 <= k < j && contains(content@, #[trigger] experience_keywords()[k].0) ==> keyword_context_ok(
                    content@,
                    experience_keywords()[k].0,
                    100,
                ),
        decreases 10 - j,
    {
        assert(kv[j as int] == kws[j as int]@);
        if contains_chars(&v, &chars_of(kws[j])) && !keyword_context_locatable(content, kws[j], 100) {
            assert(experience_keywords()[j as int].0 == kws[j as int]@);
            return None;
        }
        j += 1;
    }
    Some(extract_experience_indicators(content))
}

/// Keywords that suggest seniority, with their strengths in tenths and the
/// reason each suggests it.
pub open spec fn seniority_table() -> Seq<(Seq<char>, u32, Seq<char>)> {
    seq![
        ("mentoring"@, 15u32, "Mentoring experience indicates seniority"@),
        ("architecture"@, 20u32, "Architecture decisions show senior technical role"@),
        ("strategy"@, 18u32, "Strategic involvement indicates senior position"@),
        ("budget"@, 17u32, "Budget responsibility shows management seniority"@),
        ("hiring"@, 16u32, "Hiring involvement indicates leadership role"@),
        ("stakeholder"@, 14u32, "Stakeholder management shows seniority"@),
        ("cross-functional"@, 13u32, "Cross-functional work indicates experience"@),
        ("implemented"@, 12u32, "Implementation experience shows hands-on seniority"@),
        ("designed"@, 14u32, "Design responsibility indicates senior technical role"@),
        ("led initiative"@, 20u32, "Leading initiatives shows leadership seniority"@),
    ]
}

/// The content of a seniority signal: type, description, strength,
/// context.
pub type SignalView = (Seq<char>, Seq<char>, u32, Seq<char>);

/// The content of a seniority signal.
pub open spec fn signal_view(s: SenioritySignal) -> SignalView {
    (s.signal_type@, s.description@, s.strength_tenths, s.context@)
}

/// The signals of those of the first `n` seniority keywords that the text
/// contains, in table order.
pub open spec fn seniority_signals(content: Seq<char>, n: int) -> Seq<SignalView>
    decreases n,
{
    if n <= 0 {
        Seq::empty()
    } else {
        let e = seniority_table()[n - 1];
        seniority_signals(content, n - 1) + if contains(content, e.0) {
            seq![("seniority_keyword"@, e.2, e.1, keyword_context(content, e.0, 80))]
        } else {
            Seq::empty()
        }
    }
}

/// Whether the text around every seniority keyword found can be cut out.
pub open spec fn seniority_locatable(content: Seq<char>) -> bool {
    forall|k: int|
        0 <= k < 10 && contains(content, #[trigger] seniority_table()[k].0) ==> keyword_context_ok(
            content,
            seniority_table()[k].0,
            80,
        )
}

/// The seniority signals of a resume text: each seniority keyword it
/// contains, with its reason, strength and the text around its first
/// mention.
#[verifier::rlimit(40)]
pub fn analyze_seniority_signals(content: &str) -> (res: Vec<SenioritySignal>)
    requires
        seniority_locatable(content@),
    ensures
        res@.map_values(|s: SenioritySignal| signal_view(s)) == seniority_signals(content@, 10),
{
    let table: [(&str, u32, &str); 10] = [
        ("mentoring", 15, "Mentoring experience indicates seniority"),
        ("architecture", 20, "Architecture decisions show senior technical role"),
        ("strategy", 18, "Strategic involvement indicates senior position"),
        ("budget", 17, "Budget responsibility shows management seniority"),
        ("hiring", 16, "Hiring involvement indicates leadership role"),
        ("stakeholder", 14, "Stakeholder management shows seniority"),
        ("cross-functional", 13, "Cross-functional work indicates experience"),
        ("implemented", 12, "Implementation experience shows hands-on seniority"),
        ("designed", 14, "Design responsibility indicates senior technical role"),
        ("led initiative", 20, "Leading initiatives shows leadership seniority"),
    ];
    let ghost tv = table@.map_values(|e: (&str, u32, &str)| (e.0@, e.1, e.2@));
    assert(tv == seniority_table());
    let v = chars_of(content);
    let mut out: Vec<SenioritySignal> = Vec::new();
    let mut j: usize = 0;
    while j < 10
        invariant
            j <= 10,
            tv == table@.map_values(|e: (&str, u32, &str)| (e.0@, e.1, e.2@)),
            tv == seniority_table(),
            v@ == content@,
            seniority_locatable(content@),
            out@.map_values(|s: SenioritySignal| signal_view(s)) == seniority_signals(content@, j as int),
        decreases 10 - j,
    {
        let (kw, strength, description) = table[j];
        assert(tv[j as int] == (kw@, strength, description@));
        if contains_chars(&v, &chars_of(kw)) {
            assert(contains(content@, seniority_table()[j as int].0));
            let context = extract_keyword_context_simple(content, kw, 80);
            let sig = SenioritySignal {
                signal_type: "seniority_keyword".to_owned(),
                description: description.to_owned(),
                strength_tenths: strength,
                context,
            };
            let ghost prev = out@;
            out.push(sig);
            assert(out@.map_values(|s: SenioritySignal| signal_view(s)) == prev.map_values(
                |s: SenioritySignal| signal_view(s),
            ).push(signal_view(sig)));
        } else {
            assert(!contains(content@, seniority_table()[j as int].0));
        }
        j += 1;
    }
    out
}

/// The seniority signals of a resume text, where the text around each
/// keyword found can be cut out on character boundaries; `None` where it
/// cannot.
pub fn seniority_signals_checked(content: &str) -> (res: Option<Vec<SenioritySignal>>)
    ensures
        res is Some <==> seniority_locatable(content@),
        res matches Some(v) ==> v@.map_values(|s: SenioritySignal| signal_view(s)) == seniority_signals(content@, 10),
{
    let kws: [&str; 10] = [
        "mentoring", "architecture", "strategy", "budget", "hiring", "stakeholder", "cross-functional",
        "implemented", "designed", "led initiative",
    ];
    let ghost kv = str_views(kws@);
    assert(forall|k: int| 0 <= k < 10 ==> kv[k] == #[trigger] seniority_table()[k].0);
    let v = chars_of(content);
    let mut j: usize = 0;
    while j < 10
        invariant
            j <= 10,
            kv == str_views(kws@),
            forall|k: int| 0 <= k < 10 ==> kv[k] == #[trigger] seniority_table()[k].0,
            v@ == content@,
            forall|k: int|
                0 <= k < j && contains(content@, #[trigger] seniority_table()[k].0) ==> keyword_context_ok(
                    content@,
                    seniority_table()[k].0,
                    80,
                ),
        decreases 10 - j,
    {
        assert(kv[j as int] == kws[j as int]@);
        if contains_chars(&v, &chars_of(kws[j])) && !keyword_context_locatable(content, kws[j], 80) {
            assert(seniority_table()[j as int].0 == kws[j as int]@);
            return None;
        }
        j += 1;
    }
    Some(analyze_seniority_signals(content))
}


/// The first position at or after `from` where `n` occurs in `h`.
#[verifier::opaque]
pub open spec fn first_index_from(h: Seq<char>, n: Seq<char>, from: int) -> int {
    choose|i: int| from <= i && occurs_at(h, n, i) && forall|j: int| from <= j < i ==> !occurs_at(h, n, j)
}

/// Whether `n` occurs in `h` at or after `from`.
#[verifier::opaque]
pub open spec fn occurs_from(h: Seq<char>, n: Seq<char>, from: int) -> bool {
    exists|i: int| from <= i && occurs_at(h, n, i)
}

proof fn lemma_first_index_from(h: Seq<char>, n: Seq<char>, from: int, i: int)
    requires
        from <= i,
        occurs_at(h, n, i),
        forall|j: int| from <= j < i ==> !occurs_at(h, n, j),
    ensures
        first_index_from(h, n, from) == i,
        occurs_from(h, n, from),
{
    reveal(first_index_from);
    reveal(occurs_from);
    assert(exists|k: int| from <= k && occurs_at(h, n, k) && forall|j: int| from <= j < k ==> !occurs_at(h, n, j));
    let c = first_index_from(h, n, from);
    if c < i {
        assert(!occurs_at(h, n, c));
    } else if c > i {
        assert(!occurs_at(h, n, i));
    }
}

proof fn lemma_not_occurs_from(h: Seq<char>, n: Seq<char>, from: int)
    requires
        forall|j: int| from <= j ==> !occurs_at(h, n, j),
    ensures
        !occurs_from(h, n, from),
{
    reveal(occurs_from);
}

/// The byte offset, in `l`, of the first occurrence of `k` at or after the
/// byte offset `start`; `None` where there is none.
pub open spec fn occurrence_from(l: Seq<char>, k: Seq<char>, start: int) -> Option<int> {
    let ci = char_index(l, start);
    if occurs_from(l, k, ci) {
        Some(byte_len(l.take(first_index_from(l, k, ci))) as int)
    } else {
        None
    }
}

/// The byte range from 50 bytes before the occurrence at `actual` to 50
/// bytes after the keyword, within the text.
pub open spec fn occurrence_range(content: Seq<char>, keyword: Seq<char>, actual: int) -> (int, int) {
    (
        if actual >= 50 { actual - 50 } else { 0 },
        if actual + byte_len(keyword) + 50 <= byte_len(content) {
            actual + byte_len(keyword) + 50
        } else {
            byte_len(content) as int
        },
    )
}

/// The trimmed texts around the occurrences of the lowercased keyword in
/// the lowercased text, from byte offset `start` on; each search goes on
/// after the keyword's length in bytes.
pub open spec fn keyword_contexts_from(content: Seq<char>, keyword: Seq<char>, start: int) -> Seq<Seq<char>>
    decreases byte_len(lowercase(content)) - start,
{
    let l = lowercase(content);
    let k = lowercase(keyword);
    if byte_len(keyword) == 0 || start < 0 || start > byte_len(l) {
        Seq::empty()
    } else {
        match occurrence_from(l, k, start) {
            Some(actual) => {
                let r = occurrence_range(content, keyword, actual);
                let next = actual + byte_len(keyword);
                seq![trim(byte_slice(content, r.0, r.1))] + if start < next <= byte_len(l) {
                    keyword_contexts_from(content, keyword, next)
                } else {
                    Seq::empty()
                }
            },
            None => Seq::empty(),
        }
    }
}

/// Whether every search and cut of `keyword_contexts_from` can be made: the
/// keyword is not empty, each search starts on a character boundary of the
/// lowercased text, each range is in order and on character boundaries of
/// the text, and the offsets fit the machine words the computation uses.
pub open spec fn keyword_contexts_ok(content: Seq<char>, keyword: Seq<char>, start: int) -> bool
    decreases byte_len(lowercase(content)) - start,
{
    let l = lowercase(content);
    let k = lowercase(keyword);
    &&& byte_len(keyword) > 0
    &&& 0 <= start <= byte_len(l)
    &&& at_char_boundary(l, start)
    &&& match occurrence_from(l, k, start) {
        Some(actual) => {
            let r = occurrence_range(content, keyword, actual);
            let next = actual + byte_len(keyword);
            &&& actual <= i32::MAX
            &&& next + 50 <= usize::MAX
            &&& r.0 <= r.1
            &&& at_char_boundary(content, r.0)
            &&& at_char_boundary(content, r.1)
            &&& next <= byte_len(l)
            &&& start < next ==> keyword_contexts_ok(content, keyword, next)
        },
        None => true,
    }
}

/// One step of the search of `keyword_contexts_from` where the keyword
/// occurs at byte `actual`.
proof fn lemma_contexts_found(content: Seq<char>, keyword: Seq<char>, start: int, actual: int)
    requires
        byte_len(keyword) > 0,
        0 <= start <= byte_len(lowercase(content)),
        occurrence_from(lowercase(content), lowercase(keyword), start) == Some(actual),
    ensures
        keyword_contexts_from(content, keyword, start) == seq![
            trim(
                byte_slice(
                    content,
                    occurrence_range(content, keyword, actual).0,
                    occurrence_range(content, keyword, actual).1,
                ),
            ),
        ] + if start < actual + byte_len(keyword) <= byte_len(lowercase(content)) {
            keyword_contexts_from(content, keyword, actual + byte_len(keyword))
        } else {
            Seq::empty()
        },
        keyword_contexts_ok(content, keyword, start) ==> {
            let r = occurrence_range(content, keyword, actual);
            let next = actual + byte_len(keyword);
            &&& actual <= i32::MAX
            &&& next + 50 <= usize::MAX
            &&& r.0 <= r.1
            &&& at_char_boundary(content, r.0)
            &&& at_char_boundary(content, r.1)
            &&& next <= byte_len(lowercase(content))
            &&& start < next ==> keyword_contexts_ok(content, keyword, next)
        },
{
    reveal(keyword_contexts_from);
    reveal(keyword_contexts_ok);
}

/// The search of `keyword_contexts_from` ends where the keyword does not
/// occur any more.
proof fn lemma_contexts_none(content: Seq<char>, keyword: Seq<char>, start: int)
    requires
        occurrence_from(lowercase(content), lowercase(keyword), start) is None,
    ensures
        keyword_contexts_from(content, keyword, start) == Seq::<Seq<char>>::empty(),
{
    reveal(keyword_contexts_from);
}

/// What `keyword_contexts_ok` asks at the start of a search.
proof fn lemma_contexts_ok_start(content: Seq<char>, keyword: Seq<char>, start: int)
    ensures
        keyword_contexts_ok(content, keyword, start) ==> {
            &&& byte_len(keyword) > 0
            &&& 0 <= start <= byte_len(lowercase(content))
            &&& at_char_boundary(lowercase(content), start)
        },
{
    reveal(keyword_contexts_ok);
}

/// The trimmed texts around each occurrence of `keyword` in `content`,
/// found without regard to case: from 50 bytes before it to 50 bytes after
/// it, within the text.
pub fn extract_keyword_context(content: &str, keyword: &str) -> (res: Vec<String>)
    requires
        keyword_contexts_ok(content@, keyword@, 0),
    ensures
        res@.map_values(|s: String| s@) == keyword_contexts_from(content@, keyword@, 0),
{
    let l = to_lowercase(content);
    let k = to_lowercase(keyword);
    let lv = chars_of(l.as_str());
    let kv = chars_of(k.as_str());
    let v = chars_of(content);
    let llen = l.as_str().as_bytes().len();
    let clen = content.as_bytes().len();
    let klen = keyword.as_bytes().len();
    proof {
        lemma_byte_len_encoding(l@);
        lemma_byte_len_encoding(content@);
        lemma_byte_len_encoding(keyword@);
        lemma_contexts_ok_start(content@, keyword@, 0);
    }
    let mut out: Vec<String> = Vec::new();
    let mut start: usize = 0;
    let mut searching = true;
    while searching
        invariant
            lv@ == lowercase(content@),
            kv@ == lowercase(keyword@),
            v@ == content@,
            llen == byte_len(lv@),
            clen == byte_len(content@),
            klen == byte_len(keyword@),
            klen > 0,
            start <= llen,
            searching ==> keyword_contexts_ok(content@, keyword@, start as int),
            searching ==> out@.map_values(|s: String| s@) + keyword_contexts_from(content@, keyword@, start as int)
                == keyword_contexts_from(content@, keyword@, 0),
            !searching ==> out@.map_values(|s: String| s@) == keyword_contexts_from(content@, keyword@, 0),
        decreases llen - start + if searching { 1int } else { 0int },
    {
        proof {
            lemma_contexts_ok_start(content@, keyword@, start as int);
        }
        let ci = char_index_at_byte(&lv, start).unwrap();
        let ghost before = out@.map_values(|s: String| s@);
        match find_from(&lv, &kv, ci) {
            None => {
                proof {
                    lemma_not_occurs_from(lv@, kv@, ci as int);
                    lemma_contexts_none(content@, keyword@, start as int);
                }
                assert(before + Seq::<Seq<char>>::empty() == before);
                searching = false;
            },
            Some(j) => {
                proof {
                    lemma_first_index_from(lv@, kv@, ci as int, j as int);
                }
                let actual = byte_offset(&lv, j);
                proof {
                    if ci < j {
                        crate::text::lemma_byte_len_strict(lv@, ci as int, j as int);
                    }
                    lemma_contexts_found(content@, keyword@, start as int, actual as int);
                }
                let a: usize = if actual >= 50 { actual - 50 } else { 0 };
                let b: usize = if actual + klen + 50 <= clen { actual + klen + 50 } else { clen };
                let w = chars_between(&v, a, b);
                let ctx = string_from_chars(&trim_chars(&w));
                out.push(ctx);
                assert(out@.map_values(|s: String| s@) == before.push(ctx@));
                let next = actual + klen;
                if next <= start {
                    assert(before.push(ctx@) == before + seq![ctx@]);
                    searching = false;
                } else {
                    assert(before + (seq![ctx@] + keyword_contexts_from(content@, keyword@, next as int))
                        == before.push(ctx@) + keyword_contexts_from(content@, keyword@, next as int));
                    start = next;
                }
            },
        }
    }
    out
}

/// Whether every search and cut of `extract_keyword_context` can be made.
#[verifier::rlimit(60)]
fn keyword_contexts_locatable(content: &str, keyword: &str) -> (res: bool)
    ensures
        res == keyword_contexts_ok(content@, keyword@, 0),
{
    let l = to_lowercase(content);
    let k = to_lowercase(keyword);
    let lv = chars_of(l.as_str());
    let kv = chars_of(k.as_str());
    let v = chars_of(content);
    let llen = l.as_str().as_bytes().len();
    let clen = content.as_bytes().len();
    let klen = keyword.as_bytes().len();
    proof {
        lemma_byte_len_encoding(l@);
        lemma_byte_len_encoding(content@);
        lemma_byte_len_encoding(keyword@);
    }
    proof {
        reveal(keyword_contexts_ok);
    }
    if klen == 0 {
        return false;
    }
    let mut start: usize = 0;
    loop
        invariant
            lv@ == lowercase(content@),
            kv@ == lowercase(keyword@),
            v@ == content@,
            llen == byte_len(lv@),
            clen == byte_len(content@),
            klen == byte_len(keyword@),
            klen > 0,
            start <= llen,
            keyword_contexts_ok(content@, keyword@, 0) == keyword_contexts_ok(content@, keyword@, start as int),
        decreases llen - start,
    {
        let ci = match char_index_at_byte(&lv, start) {
            Some(ci) => ci,
            None => {
                return false;
            },
        };
        match find_from(&lv, &kv, ci) {
            None => {
                proof {
                    lemma_not_occurs_from(lv@, kv@, ci as int);
                }
                return true;
            },
            Some(j) => {
                proof {
                    lemma_first_index_from(lv@, kv@, ci as int, j as int);
                }
                let actual = byte_offset(&lv, j);
                proof {
                    lemma_byte_len_prefix_mono(lv@, j as int);
                    if ci < j {
                        crate::text::lemma_byte_len_strict(lv@, ci as int, j as int);
                    }
                }
                if actual > 2147483647 || klen > usize::MAX - 50 - actual {
                    return false;
                }
                let a: usize = if actual >= 50 { actual - 50 } else { 0 };
                let b: usize = if actual + klen + 50 <= clen { actual + klen + 50 } else { clen };
                if a > b || char_index_at_byte(&v, a).is_none() || char_index_at_byte(&v, b).is_none() {
                    return false;
                }
                let next = actual + klen;
                if next > llen {
                    return false;
                }
                if next <= start {
                    return true;
                }
                start = next;
            },
        }
    }
}

/// The texts around each occurrence of `keyword`, where every search and
/// cut can be made on character boundaries; `None` where one cannot.
pub fn keyword_contexts_checked(content: &str, keyword: &str) -> (res: Option<Vec<String>>)
    ensures
        res is Some <==> keyword_contexts_ok(content@, keyword@, 0),
        res matches Some(v) ==> v@.map_values(|s: String| s@) == keyword_contexts_from(content@, keyword@, 0),
{
    if keyword_contexts_locatable(content, keyword) {
        Some(extract_keyword_context(content, keyword))
    } else {
        None
    }
}

/// What `serde_json::from_str::<Vec<String>>` reads from `s`; `None` on an
/// error.
pub uninterp spec fn json_string_list(s: Seq<char>) -> Option<Seq<Seq<char>>>;

/// Calls `serde_json::from_str::<Vec<String>>`. The result is named.
#[verifier::external_body]
fn parse_string_list(s: &str) -> (res: Option<Vec<String>>)
    ensures
        match res {
            Some(v) => json_string_list(s@) == Some(v@.map_values(|x: String| x@)),
            None => json_string_list(s@) is None,
        },
{
    serde_json::from_str::<Vec<String>>(s).ok()
}

/// Those of `synonyms` whose lowercase form the text contains, in order.
pub open spec fn synonyms_in(content: Seq<char>, synonyms: Seq<Seq<char>>) -> Seq<Seq<char>>
    decreases synonyms.len(),
{
    if synonyms.len() == 0 {
        Seq::empty()
    } else {
        synonyms_in(content, synonyms.drop_last()) + if contains(content, lowercase(synonyms.last())) {
            seq![synonyms.last()]
        } else {
            Seq::empty()
        }
    }
}

/// The synonyms of a keyword that a (lowercased) text contains: those of
/// the JSON list `synonyms_json` whose lowercase form occurs in it; none
/// where the list does not parse.
pub fn find_synonyms_in_content(content: &str, synonyms_json: &str) -> (res: Vec<String>)
    ensures
        res@.map_values(|s: String| s@) == match json_string_list(synonyms_json@) {
            Some(l) => synonyms_in(content@, l),
            None => Seq::empty(),
        },
{
    let mut found: Vec<String> = Vec::new();
    match parse_string_list(synonyms_json) {
        Some(list) => {
            let ghost lv = list@.map_values(|x: String| x@);
            let v = chars_of(content);
            let mut i: usize = 0;
            while i < list.len()
                invariant
                    i <= list.len(),
                    lv == list@.map_values(|x: String| x@),
                    v@ == content@,
                    found@.map_values(|s: String| s@) == synonyms_in(content@, lv.take(i as int)),
                decreases list.len() - i,
            {
                assert(lv.take(i + 1).drop_last() == lv.take(i as int));
                assert(lv.take(i + 1).last() == list[i as int]@);
                let syn = &list[i];
                if contains_chars(&v, &chars_of(to_lowercase(syn.as_str()).as_str())) {
                    let ghost prev = found@;
                    found.push(syn.clone());
                    assert(found@.map_values(|s: String| s@) == prev.map_values(|s: String| s@).push(syn@));
                }
                i += 1;
            }
            assert(lv.take(list.len() as int) == lv);
            found
        },
        None => found,
    }
}


/// Whether a keyword occurs in a text, both read without regard to case,
/// and how many times, counted as `str::matches` counts.
pub fn keyword_frequency(content: &str, keyword: &str) -> (res: (bool, u128))
    ensures
        res.0 == contains(lowercase(content@), lowercase(keyword@)),
        res.1 == occurrence_count(lowercase(content@), lowercase(keyword@)),
{
    let c = chars_of(&to_lowercase(content));
    let k = chars_of(&to_lowercase(keyword));
    (contains_chars(&c, &k), count_occurrences(&c, &k))
}

/// A keyword that is not empty in lower case is found in a text exactly
/// when it is counted there at least once.
pub proof fn law_found_iff_counted(content: Seq<char>, keyword: Seq<char>)
    requires
        lowercase(keyword).len() > 0,
    ensures
        contains(lowercase(content), lowercase(keyword)) <==> occurrence_count(lowercase(content), lowercase(keyword)) > 0,
{
    lemma_occurrences_positive(lowercase(content), lowercase(keyword), 0);
}

} // verus!
