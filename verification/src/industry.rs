//! Industry and seniority signals of a resume: related industries, the
//! years of experience it states or suggests, the number of positions it
//! lists, and its mentions of leadership with team size and scope.
use vstd::prelude::*;
use crate::text::{
    str_eq,
    chars_of, contains, contains_chars, string_from_chars, trim, trim_chars, byte_len,
    at_char_boundary, char_index, lemma_byte_len_strict, char_index_at_byte, parse_i32,
    parsed_i32,
};
use crate::unicode::{lowercase, to_lowercase};
use crate::pattern::{
    regex_accepts, regex_match_count, regex_all_spans, captured, capture, count_matches,
    find_all_spans,
};
use crate::document::str_views;

verus! {

/// A mention of leadership in a resume.
#[derive(Debug, Clone)]
pub struct LeadershipIndicator {
    pub indicator_type: String,
    /// The text of the mention.
    pub description: String,
    /// The size of the team led, where the text around the mention gives it.
    pub team_size: Option<i32>,
    /// "department", "team", "project" or "individual".
    pub scope: String,
    /// The text around the mention.
    pub context: String,
}

/// What an industry expects at one level of experience.
#[derive(Debug, Clone)]
pub struct ExperienceLevel {
    pub min_years: i32,
    pub max_years: Option<i32>,
    pub typical_responsibilities: Vec<String>,
    pub expected_skills: Vec<String>,
    pub leadership_expectations: Vec<String>,
}

/// Groups of related industry names.
pub open spec fn related_groups() -> Seq<Seq<Seq<char>>> {
    seq![
        seq!["technology"@, "software"@, "it"@, "computer science"@, "engineering"@],
        seq!["healthcare"@, "medical"@, "pharmaceutical"@, "biotech"@],
        seq!["finance"@, "banking"@, "investment"@, "fintech"@, "accounting"@],
        seq!["education"@, "academic"@, "research"@, "training"@],
        seq!["retail"@, "e-commerce"@, "sales"@, "marketing"@],
    ]
}

/// Whether some name of `group` contains `part`.
pub open spec fn group_mentions(group: Seq<Seq<char>>, part: Seq<char>) -> bool {
    exists|i: int| 0 <= i < group.len() && #[trigger] contains(group[i], part)
}

/// Whether two industries are related: some group has a name containing
/// the first, lowercased, and a name containing the second.
pub open spec fn related_industries(a: Seq<char>, b: Seq<char>) -> bool {
    exists|g: int|
        0 <= g < related_groups().len() && group_mentions(#[trigger] related_groups()[g], lowercase(a))
            && group_mentions(related_groups()[g], lowercase(b))
}

/// Number of matches of `pattern` in `text`; none where it is refused.
pub open spec fn match_count(pattern: Seq<char>, text: Seq<char>) -> nat {
    if regex_accepts(pattern) {
        regex_match_count(pattern, text)
    } else {
        0
    }
}

/// Date ranges of positions.
pub open spec fn position_range_pattern() -> Seq<char> {
    r"(?i)(?:^|\n)\s*\d{4}\s*[-–—]\s*(?:\d{4}|present)"@
}

/// Month-and-year dates.
pub open spec fn month_year_pattern() -> Seq<char> {
    r"(?i)(?:january|february|march|april|may|june|july|august|september|october|november|december)\s+\d{4}"@
}

/// The estimated number of positions: half the date mentions, at least one.
pub open spec fn job_positions(content: Seq<char>) -> nat {
    let n = (match_count(position_range_pattern(), content) + match_count(month_year_pattern(), content)) / 2;
    if n >= 1 {
        n
    } else {
        1
    }
}

/// Patterns that state years of experience; the number is group 1.
pub open spec fn year_patterns() -> Seq<Seq<char>> {
    seq![
        r"(\d+)\+?\s*years?\s+(?:of\s+)?experience"@,
        r"(\d+)\+?\s*yrs?\s+(?:of\s+)?experience"@,
        r"over\s+(\d+)\s+years?"@,
        r"more than\s+(\d+)\s+years?"@,
    ]
}

/// The first stated number of years, in pattern order, that parses.
pub open spec fn stated_years(pats: Seq<Seq<char>>, content: Seq<char>) -> Option<i32>
    decreases pats.len(),
{
    if pats.len() == 0 {
        None
    } else {
        match captured(pats[0], content, 1) {
            Some(g) => match parsed_i32(g) {
                Some(v) => Some(v),
                None => stated_years(pats.drop_first(), content),
            },
            None => stated_years(pats.drop_first(), content),
        }
    }
}

/// Years suggested by the number of positions and the presence of senior
/// and management titles.
pub open spec fn suggested_years(jobs: nat, senior: bool, management: bool) -> Option<i32> {
    if 1 <= jobs <= 2 && !management {
        Some(if senior { 4i32 } else { 2i32 })
    } else if 3 <= jobs <= 4 {
        Some(if management { 8i32 } else if senior { 7i32 } else { 5i32 })
    } else if jobs >= 5 {
        Some(if management { 12i32 } else if senior { 10i32 } else { 8i32 })
    } else {
        None
    }
}

/// Whether the text names a senior title.
pub open spec fn has_senior_title(content: Seq<char>) -> bool {
    contains(content, "senior"@) || contains(content, "lead"@) || contains(content, "principal"@)
}

/// Whether the text names a management title.
pub open spec fn has_management_title(content: Seq<char>) -> bool {
    contains(content, "manager"@) || contains(content, "director"@)
}

/// Years of experience: as stated, else as suggested by the positions.
pub open spec fn estimated_years(content: Seq<char>) -> Option<i32> {
    match stated_years(year_patterns(), content) {
        Some(v) => Some(v),
        None => suggested_years(
            job_positions(content),
            has_senior_title(content),
            has_management_title(content),
        ),
    }
}

/// Team sizes: "team of N" (group 1) or "N people/person/members" (group 2).
pub open spec fn team_pattern() -> Seq<char> {
    r"(?i)team\s+of\s+(\d+)|(\d+)\s+(?:person|people|member)"@
}

/// The team size a text mentions.
pub open spec fn team_size_in(context: Seq<char>) -> Option<i32> {
    let g = match captured(team_pattern(), context, 1) {
        Some(g) => Some(g),
        None => captured(team_pattern(), context, 2),
    };
    match g {
        Some(t) => parsed_i32(t),
        None => None,
    }
}

/// The scope of leadership a text suggests.
pub open spec fn leadership_scope(context: Seq<char>) -> Seq<char> {
    if contains(lowercase(context), "department"@) || contains(context, "division"@) {
        "department"@
    } else if contains(context, "team"@) {
        "team"@
    } else if contains(context, "project"@) {
        "project"@
    } else {
        "individual"@
    }
}

/// Byte range around bytes `start`..`end`, widened by `size` on both sides
/// within the text.
pub open spec fn context_range(content: Seq<char>, start: int, end: int, size: int) -> (int, int) {
    (
        if start >= size { start - size } else { 0 },
        if end + size <= byte_len(content) { end + size } else { byte_len(content) as int },
    )
}

/// Whether the range around `start`..`end` can be cut out of the text: it
/// starts and ends on character boundaries, in order, and the offsets fit
/// the machine words the computation uses.
pub open spec fn context_ok(content: Seq<char>, start: int, end: int, size: int) -> bool {
    let r = context_range(content, start, end, size);
    &&& 0 <= start <= i32::MAX
    &&& 0 <= size <= i32::MAX
    &&& 0 <= end
    &&& end + size <= usize::MAX
    &&& r.0 <= r.1
    &&& at_char_boundary(content, r.0)
    &&& at_char_boundary(content, r.1)
}

/// The trimmed text around `start`..`end`.
pub open spec fn surrounding(content: Seq<char>, start: int, end: int, size: int) -> Seq<char> {
    let r = context_range(content, start, end, size);
    trim(content.subrange(char_index(content, r.0), char_index(content, r.1)))
}

/// The characters between byte offsets `a` and `b`.
pub open spec fn byte_slice(content: Seq<char>, a: int, b: int) -> Seq<char> {
    content.subrange(char_index(content, a), char_index(content, b))
}

/// Patterns of leadership mentions.
pub open spec fn leadership_patterns() -> Seq<Seq<char>> {
    seq![
        r"(?i)\b(?:led|managed|supervised|directed|coordinated|oversaw)\s+(?:a\s+)?(?:team|group|department|division)"@,
        r"(?i)\b(?:managed|supervised)\s+\d+\s+(?:people|employees|staff|members)"@,
        r"(?i)\b(?:team\s+lead|team\s+leader|project\s+manager|scrum\s+master|tech\s+lead)"@,
        r"(?i)\b(?:mentored|coached|trained)\s+(?:junior|new|team)"@,
    ]
}

/// The matches of `pattern`; none where it is refused.
pub open spec fn spans_of(pattern: Seq<char>, content: Seq<char>) -> Seq<(nat, nat)> {
    if regex_accepts(pattern) {
        regex_all_spans(pattern, content)
    } else {
        Seq::empty()
    }
}

/// Whether the text around every match of `pattern` can be cut out.
pub open spec fn spans_locatable(pattern: Seq<char>, content: Seq<char>, size: int) -> bool {
    forall|i: int|
        0 <= i < spans_of(pattern, content).len() ==> context_ok(
            content,
            #[trigger] spans_of(pattern, content)[i].0 as int,
            spans_of(pattern, content)[i].1 as int,
            size,
        )
}

/// Whether the text around every leadership mention can be cut out.
pub open spec fn leadership_locatable(content: Seq<char>) -> bool {
    forall|p: int| 0 <= p < leadership_patterns().len() ==> spans_locatable(#[trigger] leadership_patterns()[p], content, 100)
}

/// The content of an indicator: type, description, team size, scope,
/// context.
pub type IndicatorView = (Seq<char>, Seq<char>, Option<i32>, Seq<char>, Seq<char>);

/// The content of an indicator.
pub open spec fn indicator_view(i: LeadershipIndicator) -> IndicatorView {
    (i.indicator_type@, i.description@, i.team_size, i.scope@, i.context@)
}

/// The indicator of the match `s` in `content`.
pub open spec fn indicator_at(content: Seq<char>, s: (nat, nat)) -> IndicatorView {
    let ctx = surrounding(content, s.0 as int, s.1 as int, 100);
    ("leadership_mention"@, byte_slice(content, s.0 as int, s.1 as int), team_size_in(ctx), leadership_scope(ctx), ctx)
}

/// The indicators of the matches of the first `n` leadership patterns,
/// pattern by pattern, in match order.
pub open spec fn leadership_indicators(content: Seq<char>, n: int) -> Seq<IndicatorView>
    decreases n,
{
    if n <= 0 {
        Seq::empty()
    } else {
        leadership_indicators(content, n - 1) + spans_of(leadership_patterns()[n - 1], content).map_values(
            |s: (nat, nat)| indicator_at(content, s),
        )
    }
}

/// Whether some name of `group` contains `part`.
fn mentions(group: &[&str], part: &Vec<char>) -> (res: bool)
    ensures
        res == group_mentions(str_views(group@), part@),
{
    let ghost gv = str_views(group@);
    let mut i: usize = 0;
    while i < group.len()
        invariant
            i <= group.len(),
            gv == str_views(group@),
            forall|k: int| 0 <= k < i ==> !contains(#[trigger] gv[k], part@),
        decreases group.len() - i,
    {
        if contains_chars(&chars_of(group[i]), part) {
            assert(contains(gv[i as int], part@));
            return true;
        }
        i += 1;
    }
    false
}

/// Whether two industries are related.
pub fn are_related_industries(industry1: &str, industry2: &str) -> (res: bool)
    ensures
        res == related_industries(industry1@, industry2@),
{
    let a = chars_of(to_lowercase(industry1).as_str());
    let b = chars_of(to_lowercase(industry2).as_str());
    let mut g: usize = 0;
    while g < 5
        invariant
            g <= 5,
            a@ == lowercase(industry1@),
            b@ == lowercase(industry2@),
            forall|k: int| 0 <= k < g ==> !(group_mentions(#[trigger] related_groups()[k], a@)
                && group_mentions(related_groups()[k], b@)),
        decreases 5 - g,
    {
        let hit = if g == 0 {
            let grp: [&str; 5] = ["technology", "software", "it", "computer science", "engineering"];
            assert(str_views(grp@) == related_groups()[0]);
            mentions(&grp, &a) && mentions(&grp, &b)
        } else if g == 1 {
            let grp: [&str; 4] = ["healthcare", "medical", "pharmaceutical", "biotech"];
            assert(str_views(grp@) == related_groups()[1]);
            mentions(&grp, &a) && mentions(&grp, &b)
        } else if g == 2 {
            let grp: [&str; 5] = ["finance", "banking", "investment", "fintech", "accounting"];
            assert(str_views(grp@) == related_groups()[2]);
            mentions(&grp, &a) && mentions(&grp, &b)
        } else if g == 3 {
            let grp: [&str; 4] = ["education", "academic", "research", "training"];
            assert(str_views(grp@) == related_groups()[3]);
            mentions(&grp, &a) && mentions(&grp, &b)
        } else {
            let grp: [&str; 4] = ["retail", "e-commerce", "sales", "marketing"];
            assert(str_views(grp@) == related_groups()[4]);
            mentions(&grp, &a) && mentions(&grp, &b)
        };
        if hit {
            return true;
        }
        g += 1;
    }
    false
}

/// The estimated number of positions a resume lists: half its date
/// mentions, at least one.
pub fn count_job_positions(content: &str) -> (res: usize)
    ensures
        res == job_positions(content@),
{
    let a = count_matches(r"(?i)(?:^|\n)\s*\d{4}\s*[-–—]\s*(?:\d{4}|present)", content) as u128;
    let b = count_matches(
        r"(?i)(?:january|february|march|april|may|june|july|august|september|october|november|december)\s+\d{4}",
        content,
    ) as u128;
    let n = (a + b) / 2;
    if n >= 1 {
        n as usize
    } else {
        1
    }
}

/// The team size a text mentions, if it parses.
pub fn extract_team_size(context: &str) -> (res: Option<i32>)
    ensures
        res == team_size_in(context@),
{
    let p = r"(?i)team\s+of\s+(\d+)|(\d+)\s+(?:person|people|member)";
    let g = match capture(p, context, 1) {
        Some(g) => Some(g),
        None => capture(p, context, 2),
    };
    match g {
        Some(t) => parse_i32(t.as_str()),
        None => None,
    }
}

/// The scope of leadership a text suggests.
pub fn determine_leadership_scope(context: &str) -> (res: String)
    ensures
        res@ == leadership_scope(context@),
{
    let c = chars_of(context);
    let lc = chars_of(to_lowercase(context).as_str());
    if contains_chars(&lc, &chars_of("department")) || contains_chars(&c, &chars_of("division")) {
        "department".to_owned()
    } else if contains_chars(&c, &chars_of("team")) {
        "team".to_owned()
    } else if contains_chars(&c, &chars_of("project")) {
        "project".to_owned()
    } else {
        "individual".to_owned()
    }
}

/// The characters of `v` from position `i` to position `j`.
pub(crate) fn slice_chars(v: &Vec<char>, i: usize, j: usize) -> (res: Vec<char>)
    requires
        i <= j <= v.len(),
    ensures
        res@ == v@.subrange(i as int, j as int),
{
    let mut w: Vec<char> = Vec::new();
    let mut k: usize = i;
    while k < j
        invariant
            i <= k <= j,
            j <= v.len(),
            w@ == v@.subrange(i as int, k as int),
        decreases j - k,
    {
        w.push(v[k]);
        assert(v@.subrange(i as int, k + 1) == v@.subrange(i as int, k as int).push(v@[k as int]));
        k += 1;
    }
    w
}

/// The characters between two byte offsets that lie on character
/// boundaries, in order.
pub(crate) fn chars_between(v: &Vec<char>, a: usize, b: usize) -> (res: Vec<char>)
    requires
        a <= b,
        at_char_boundary(v@, a as int),
        at_char_boundary(v@, b as int),
    ensures
        res@ == v@.subrange(char_index(v@, a as int), char_index(v@, b as int)),
{
    let i = char_index_at_byte(v, a).unwrap();
    let j = char_index_at_byte(v, b).unwrap();
    if j < i {
        proof {
            lemma_byte_len_strict(v@, j as int, i as int);
        }
    }
    slice_chars(v, i, j)
}

/// The trimmed text from `context_size` bytes before `start` to
/// `context_size` bytes after `end`, within the text.
pub fn extract_surrounding_context(content: &str, start: usize, end: usize, context_size: usize) -> (res: String)
    requires
        context_ok(content@, start as int, end as int, context_size as int),
    ensures
        res@ == surrounding(content@, start as int, end as int, context_size as int),
{
    let v = chars_of(content);
    let len = content.as_bytes().len();
    proof {
        crate::text::lemma_byte_len_encoding(content@);
    }
    let a: usize = if start >= context_size { start - context_size } else { 0 };
    let b: usize = if end + context_size <= len { end + context_size } else { len };
    let w = chars_between(&v, a, b);
    string_from_chars(&trim_chars(&w))
}

/// Years of experience a resume states ("5 years of experience", "over 3
/// years", ...), else the years its positions and titles suggest.
pub fn estimate_years_of_experience(content: &str) -> (res: Option<i32>)
    ensures
        res == estimated_years(content@),
{
    let pats: [&str; 4] = [
        r"(\d+)\+?\s*years?\s+(?:of\s+)?experience",
        r"(\d+)\+?\s*yrs?\s+(?:of\s+)?experience",
        r"over\s+(\d+)\s+years?",
        r"more than\s+(\d+)\s+years?",
    ];
    let ghost pv = str_views(pats@);
    assert(pv == year_patterns());
    assert(pv.skip(0) == pv);
    let mut i: usize = 0;
    while i < 4
        invariant
            i <= 4,
            pv == str_views(pats@),
            pv == year_patterns(),
            stated_years(pv, content@) == stated_years(pv.skip(i as int), content@),
        decreases 4 - i,
    {
        assert(pv.skip(i as int)[0] == pv[i as int]);
        assert(pv.skip(i as int).drop_first() == pv.skip(i + 1));
        let cap = capture(pats[i], content, 1);
        assert(crate::text::opt_view(cap) == captured(pv[i as int], content@, 1));
        if let Some(g) = cap {
            assert(captured(pv[i as int], content@, 1) == Some(g@));
            if let Some(v) = parse_i32(g.as_str()) {
                assert(pv.skip(i as int).len() > 0);
                assert(stated_years(pv.skip(i as int), content@) == Some(v));
                return Some(v);
            }
        }
        i += 1;
    }
    assert(pv.skip(4).len() == 0);
    let jobs = count_job_positions(content);
    let c = chars_of(content);
    let senior = contains_chars(&c, &chars_of("senior")) || contains_chars(&c, &chars_of("lead"))
        || contains_chars(&c, &chars_of("principal"));
    let management = contains_chars(&c, &chars_of("manager")) || contains_chars(&c, &chars_of("director"));
    if 1 <= jobs && jobs <= 2 && !management {
        Some(if senior { 4 } else { 2 })
    } else if 3 <= jobs && jobs <= 4 {
        Some(if management { 8 } else if senior { 7 } else { 5 })
    } else if jobs >= 5 {
        Some(if management { 12 } else if senior { 10 } else { 8 })
    } else {
        None
    }
}

/// The leadership mentions of a resume, pattern by pattern, each with the
/// text around it, the team size and the scope that text suggests. The
/// text around every mention must be cut out on character boundaries (see
/// `leadership_indicators_checked` for a version that tests this).
pub fn extract_leadership_indicators(content: &str) -> (res: Vec<LeadershipIndicator>)
    requires
        leadership_locatable(content@),
    ensures
        res@.map_values(|i: LeadershipIndicator| indicator_view(i)) == leadership_indicators(content@, 4),
{
    let pats: [&str; 4] = [
        r"(?i)\b(?:led|managed|supervised|directed|coordinated|oversaw)\s+(?:a\s+)?(?:team|group|department|division)",
        r"(?i)\b(?:managed|supervised)\s+\d+\s+(?:people|employees|staff|members)",
        r"(?i)\b(?:team\s+lead|team\s+leader|project\s+manager|scrum\s+master|tech\s+lead)",
        r"(?i)\b(?:mentored|coached|trained)\s+(?:junior|new|team)",
    ];
    let ghost pv = str_views(pats@);
    assert(pv == leadership_patterns());
    let v = chars_of(content);
    let mut out: Vec<LeadershipIndicator> = Vec::new();
    let mut p: usize = 0;
    while p < 4
        invariant
            p <= 4,
            pv == str_views(pats@),
            pv == leadership_patterns(),
            v@ == content@,
            leadership_locatable(content@),
            out@.map_values(|i: LeadershipIndicator| indicator_view(i)) == leadership_indicators(content@, p as int),
        decreases 4 - p,
    {
        let spans = find_all_spans(pats[p], content);
        let ghost sv = spans@.map_values(|s: (usize, usize)| (s.0 as nat, s.1 as nat));
        assert(sv == spans_of(pv[p as int], content@));
        assert(spans_locatable(leadership_patterns()[p as int], content@, 100));
        let ghost base = out@.map_values(|i: LeadershipIndicator| indicator_view(i));
        let mut k: usize = 0;
        while k < spans.len()
            invariant
                k <= spans.len(),
                p < 4,
                v@ == content@,
                sv == spans@.map_values(|s: (usize, usize)| (s.0 as nat, s.1 as nat)),
                sv == spans_of(leadership_patterns()[p as int], content@),
                spans_locatable(leadership_patterns()[p as int], content@, 100),
                forall|i: int| 0 <= i < spans.len() ==> (#[trigger] spans@[i]).0 <= spans@[i].1 && at_char_boundary(content@, spans@[i].0 as int) && at_char_boundary(content@, spans@[i].1 as int),
                out@.map_values(|i: LeadershipIndicator| indicator_view(i)) == base + sv.take(k as int).map_values(
                    |s: (nat, nat)| indicator_at(content@, s),
                ),
            decreases spans.len() - k,
        {
            let (s, e) = spans[k];
            assert(sv[k as int] == (s as nat, e as nat));
            assert(context_ok(content@, s as int, e as int, 100));
            let context = extract_surrounding_context(content, s, e, 100);
            let description = string_from_chars(&chars_between(&v, s, e));
            let team_size = extract_team_size(context.as_str());
            let scope = determine_leadership_scope(context.as_str());
            let ind = LeadershipIndicator {
                indicator_type: "leadership_mention".to_owned(),
                description,
                team_size,
                scope,
                context,
            };
            let ghost before = out@;
            out.push(ind);
            assert(indicator_view(ind) == indicator_at(content@, sv[k as int]));
            assert(out@.map_values(|i: LeadershipIndicator| indicator_view(i)) == before.map_values(
                |i: LeadershipIndicator| indicator_view(i),
            ).push(indicator_view(ind)));
            assert(sv.take(k + 1) == sv.take(k as int).push(sv[k as int]));
            assert(sv.take(k + 1).map_values(|s: (nat, nat)| indicator_at(content@, s)) == sv.take(
                k as int,
            ).map_values(|s: (nat, nat)| indicator_at(content@, s)).push(indicator_at(content@, sv[k as int])));
            k += 1;
        }
        assert(sv.take(spans.len() as int) == sv);
        p += 1;
    }
    out
}

/// Whether the text around every match of `pattern` can be cut out.
pub(crate) fn pattern_locatable(pattern: &str, content: &str, size: usize) -> (res: bool)
    ensures
        res == spans_locatable(pattern@, content@, size as int),
{
    let spans = find_all_spans(pattern, content);
    let ghost sv = spans@.map_values(|s: (usize, usize)| (s.0 as nat, s.1 as nat));
    let v = chars_of(content);
    let len = content.as_bytes().len();
    proof {
        crate::text::lemma_byte_len_encoding(content@);
    }
    let mut k: usize = 0;
    while k < spans.len()
        invariant
            k <= spans.len(),
            v@ == content@,
            len == byte_len(content@),
            sv == spans@.map_values(|s: (usize, usize)| (s.0 as nat, s.1 as nat)),
            sv == spans_of(pattern@, content@),
            forall|i: int| 0 <= i < spans.len() ==> (#[trigger] spans@[i]).0 <= spans@[i].1 && spans@[i].1 <= byte_len(content@),
            forall|i: int| 0 <= i < k ==> context_ok(content@, #[trigger] sv[i].0 as int, sv[i].1 as int, size as int),
        decreases spans.len() - k,
    {
        let (s, e) = spans[k];
        assert(sv[k as int] == (s as nat, e as nat));
        if s > 2147483647 || size > 2147483647 || e > usize::MAX - size {
            return false;
        }
        let a: usize = if s >= size { s - size } else { 0 };
        let b: usize = if e + size <= len { e + size } else { len };
        if a > b {
            return false;
        }
        if char_index_at_byte(&v, a).is_none() || char_index_at_byte(&v, b).is_none() {
            return false;
        }
        k += 1;
    }
    true
}

/// The leadership mentions of a resume, where the text around each can be
/// cut out on character boundaries; `None` where it cannot.
pub fn leadership_indicators_checked(content: &str) -> (res: Option<Vec<LeadershipIndicator>>)
    ensures
        res is Some <==> leadership_locatable(content@),
        res matches Some(v) ==> v@.map_values(|i: LeadershipIndicator| indicator_view(i)) == leadership_indicators(content@, 4),
{
    let pats: [&str; 4] = [
        r"(?i)\b(?:led|managed|supervised|directed|coordinated|oversaw)\s+(?:a\s+)?(?:team|group|department|division)",
        r"(?i)\b(?:managed|supervised)\s+\d+\s+(?:people|employees|staff|members)",
        r"(?i)\b(?:team\s+lead|team\s+leader|project\s+manager|scrum\s+master|tech\s+lead)",
        r"(?i)\b(?:mentored|coached|trained)\s+(?:junior|new|team)",
    ];
    let ghost pv = str_views(pats@);
    assert(pv == leadership_patterns());
    let mut p: usize = 0;
    while p < 4
        invariant
            p <= 4,
            pv == str_views(pats@),
            pv == leadership_patterns(),
            forall|q: int| 0 <= q < p ==> spans_locatable(#[trigger] leadership_patterns()[q], content@, 100),
        decreases 4 - p,
    {
        if !pattern_locatable(pats[p], content, 100) {
            assert(!spans_locatable(leadership_patterns()[p as int], content@, 100));
            return None;
        }
        p += 1;
    }
    Some(extract_leadership_indicators(content))
}


/// How a detected industry stands to the target industry.
#[derive(Debug, Clone, Copy, PartialEq, Eq, Structural)]
pub enum IndustryRelation {
    /// The same industry, without regard to case.
    Same,
    /// Industries of one related group.
    Related,
    /// Neither.
    Unrelated,
}

/// How `detected` stands to `target`.
pub open spec fn industry_relation_of(detected: Seq<char>, target: Seq<char>) -> IndustryRelation {
    if lowercase(detected) == lowercase(target) {
        IndustryRelation::Same
    } else if related_industries(detected, target) {
        IndustryRelation::Related
    } else {
        IndustryRelation::Unrelated
    }
}

/// How a detected industry stands to the target industry: the same
/// (without regard to case), related, or neither.
pub fn industry_relation(detected: &str, target: &str) -> (res: IndustryRelation)
    ensures
        res == industry_relation_of(detected@, target@),
{
    let d = to_lowercase(detected);
    let t = to_lowercase(target);
    if str_eq(d.as_str(), t.as_str()) {
        IndustryRelation::Same
    } else if are_related_industries(detected, target) {
        IndustryRelation::Related
    } else {
        IndustryRelation::Unrelated
    }
}


/// A mention of a division, or of a department in any case, makes the
/// scope a department's; the scope is an individual's only where neither
/// nor a team nor a project is mentioned.
pub proof fn law_leadership_scope(context: Seq<char>)
    ensures
        contains(context, "division"@) ==> leadership_scope(context) == "department"@,
        contains(lowercase(context), "department"@) ==> leadership_scope(context) == "department"@,
        leadership_scope(context) == "individual"@ ==> !contains(context, "division"@) && !contains(
            context,
            "team"@,
        ) && !contains(context, "project"@),
        !contains(context, "division"@) && !contains(lowercase(context), "department"@) && contains(
            context,
            "team"@,
        ) ==> leadership_scope(context) == "team"@,
{
    reveal_strlit("department");
    reveal_strlit("individual");
    reveal_strlit("team");
    reveal_strlit("project");
    assert("department"@[0] != "individual"@[0]);
    assert("team"@[0] != "individual"@[0]);
    assert("project"@[0] != "individual"@[0]);
    assert("department"@[0] != "team"@[0]);
}

} // verus!
