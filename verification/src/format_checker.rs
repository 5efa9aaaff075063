//! Format compatibility of resume text with applicant tracking systems:
//! per-system rule checks, general problematic elements, a simulation of
//! section parsing, and prioritized recommendations.
use vstd::prelude::*;
use crate::text::{
    chars_of, string_from_chars, contains, contains_chars, append_chars, byte_len,
    at_char_boundary, char_index, char_index_at_byte, lemma_byte_len_encoding,
};
use crate::unicode::{lowercase, to_lowercase};
use crate::pattern::{first_span, find_span, pattern_matches, is_match};
use crate::document::{escape, escape_chars, str_views, string_views};
use crate::text::str_eq;

verus! {

/// A format problem found in a document.
#[derive(Debug, Clone)]
pub struct FormatIssue {
    pub issue_type: String,
    /// "critical", "high", "medium" or "low".
    pub severity: String,
    pub description: String,
    pub recommendation: String,
    pub section_affected: String,
    /// Points of compatibility that the problem costs.
    pub impact_score: u32,
}

/// The content of an issue: type, severity, description, recommendation,
/// affected section and impact.
pub type FormatIssueView = (Seq<char>, Seq<char>, Seq<char>, Seq<char>, Seq<char>, nat);

/// The content of an issue.
pub open spec fn format_issue_view(i: FormatIssue) -> FormatIssueView {
    (
        i.issue_type@,
        i.severity@,
        i.description@,
        i.recommendation@,
        i.section_affected@,
        i.impact_score as nat,
    )
}

/// The contents of a sequence of issues.
pub open spec fn format_issue_views(v: Seq<FormatIssue>) -> Seq<FormatIssueView> {
    v.map_values(|i: FormatIssue| format_issue_view(i))
}

/// How the standard sections of a document fare in a simulated parse.
#[derive(Debug, Clone)]
pub struct ParsingSimulation {
    pub successful_sections: Vec<String>,
    pub failed_sections: Vec<String>,
    /// Six times the predicted parsing score: the share of identified
    /// sections in percent, less the format penalty, and at least zero.
    pub predicted_parsing_score_sixths: u32,
}

/// A format rule of one applicant tracking system.
#[derive(Debug, Clone)]
pub struct FormatRule {
    pub rule_type: String,
    /// A regular expression; a document that it matches breaks the rule.
    pub pattern: String,
    pub penalty_weight: u32,
    pub description: String,
    pub recommendation: String,
}

/// The content of a rule: type, pattern, penalty, description, recommendation.
pub type RuleView = (Seq<char>, Seq<char>, nat, Seq<char>, Seq<char>);

/// The content of a rule.
pub open spec fn rule_view(r: FormatRule) -> RuleView {
    (r.rule_type@, r.pattern@, r.penalty_weight as nat, r.description@, r.recommendation@)
}

/// The contents of a sequence of rules.
pub open spec fn rule_views(v: Seq<FormatRule>) -> Seq<RuleView> {
    v.map_values(|r: FormatRule| rule_view(r))
}

/// The result of a full format check.
#[derive(Debug, Clone)]
pub struct FormatCompatibilityReport {
    /// A hundred times the overall score: the mean of the per-system scores
    /// less the impacts of the general problematic elements, at least zero
    /// (0 without systems).
    pub overall_score_centi: u32,
    /// Each system's name with its score, 0 to 100.
    pub ats_specific_scores: Vec<(String, u32)>,
    pub format_issues: Vec<FormatIssue>,
    pub recommendations: Vec<String>,
    pub parsing_simulation: ParsingSimulation,
}

/// The patterns that find font declarations.
pub open spec fn font_pattern_list() -> Seq<Seq<char>> {
    seq![r"(?i)font-family:\s*([a-zA-Z\s]+)"@, r"(?i)font:\s*[^;]*?([a-zA-Z\s]+);"@]
}

/// The patterns that find section structure.
pub open spec fn structure_pattern_list() -> Seq<Seq<char>> {
    seq![r"(?i)^(experience|education|skills|summary|contact)"@, r"\n\s*([A-Z\s]{3,})\s*\n"@]
}

/// The patterns of elements that applicant tracking systems read badly.
pub open spec fn problematic_element_list() -> Seq<Seq<char>> {
    seq![r"<table"@, r"<img"@, r"text-box"@, r"position:\s*absolute"@]
}

/// Checks documents against the format rules of common applicant tracking
/// systems.
pub struct FormatCompatibilityChecker {
    ats_rules: Vec<(String, Vec<FormatRule>)>,
    font_patterns: Vec<String>,
    structure_patterns: Vec<String>,
    problematic_elements: Vec<String>,
}

/// The name and rule contents of each system.
pub type RuleSetsView = Seq<(Seq<char>, Seq<RuleView>)>;

/// The contents of a list of systems with their rules.
pub open spec fn rule_sets_view(v: Seq<(String, Vec<FormatRule>)>) -> RuleSetsView {
    v.map_values(|e: (String, Vec<FormatRule>)| (e.0@, rule_views(e.1@)))
}

impl View for FormatCompatibilityChecker {
    type V = RuleSetsView;

    closed spec fn view(&self) -> RuleSetsView {
        rule_sets_view(self.ats_rules@)
    }
}

// ---------------------------------------------------------------------------
// Specification of the checks.
// ---------------------------------------------------------------------------

/// The systems and rules a new checker holds: Greenhouse, Lever, Workday
/// and iCIMS.
pub open spec fn default_rule_sets() -> RuleSetsView {
    seq![
        ("greenhouse"@, seq![
            ("table_usage"@, "<table|<tr>|<td>"@, 25nat,
                "Greenhouse has difficulty parsing tables correctly"@,
                "Convert tables to plain text with clear formatting"@),
            ("special_characters"@, "[•★♦♣♠♥✓✗]"@, 5nat,
                "Special characters may not display correctly"@,
                "Use standard bullet points and symbols"@),
        ]),
        ("lever"@, seq![
            ("text_boxes"@, "<textbox|text-box|textBox"@, 20nat,
                "Lever often ignores content in text boxes"@,
                "Move all text to the main document body"@),
            ("complex_formatting"@, r"columns:\s*\d+|float:\s*(left|right)"@, 15nat,
                "Complex layouts can confuse Lever's parser"@,
                "Use a single-column layout with simple formatting"@),
        ]),
        ("workday"@, seq![
            ("image_text"@, r"<img|\.jpg|\.png|\.gif"@, 30nat,
                "Workday cannot extract text from images"@,
                "Ensure all text is in readable format, not embedded in images"@),
            ("font_issues"@, "(?i)(comic sans|papyrus|brush script)"@, 10nat,
                "Non-standard fonts may not render correctly"@,
                "Use professional fonts like Arial, Calibri, or Times New Roman"@),
        ]),
        ("icims"@, seq![
            ("section_headers"@, "^(?!.*(?i)(experience|education|skills|summary))"@, 15nat,
                "iCIMS relies heavily on clear section headers"@,
                "Use standard section headers that are clearly identifiable"@),
        ]),
    ]
}

/// Severity of a penalty: 20 and more is critical, 10 and more high, 5 and
/// more medium, less is low.
pub open spec fn severity_for(p: nat) -> Seq<char> {
    if p >= 20 {
        "critical"@
    } else if p >= 10 {
        "high"@
    } else if p >= 5 {
        "medium"@
    } else {
        "low"@
    }
}

/// The byte range around the first match of `pattern`: up to 100 bytes
/// before and after it, within the text.
pub open spec fn match_window(content: Seq<char>, pattern: Seq<char>) -> Option<(int, int)> {
    match first_span(pattern, content) {
        Some((s, e)) => Some(
            (
                if s >= 100 { s - 100 } else { 0int },
                if e + 100 <= byte_len(content) { (e + 100) as int } else { byte_len(content) as int },
            ),
        ),
        None => None,
    }
}

/// Whether the range around the first match of `pattern` starts and ends on
/// character boundaries, so that it can be cut out of the text.
pub open spec fn window_ok(content: Seq<char>, pattern: Seq<char>) -> bool {
    match match_window(content, pattern) {
        Some((lo, hi)) => at_char_boundary(content, lo) && at_char_boundary(content, hi),
        None => true,
    }
}

/// The section a lowercase context names: experience, education, skills,
/// summary, checked in this order, else general.
pub open spec fn section_named(ctx: Seq<char>) -> Seq<char> {
    if contains(ctx, "experience"@) {
        "experience"@
    } else if contains(ctx, "education"@) {
        "education"@
    } else if contains(ctx, "skills"@) {
        "skills"@
    } else if contains(ctx, "summary"@) {
        "summary"@
    } else {
        "general"@
    }
}

/// The section affected by the first match of `pattern`: named by the text
/// around the match; "unknown" without a match.
pub open spec fn affected_section(content: Seq<char>, pattern: Seq<char>) -> Seq<char> {
    match match_window(content, pattern) {
        Some((lo, hi)) => section_named(
            lowercase(content.subrange(char_index(content, lo), char_index(content, hi))),
        ),
        None => "unknown"@,
    }
}

/// Sum of the penalties of the rules whose pattern matches.
pub open spec fn penalty_total(rules: Seq<RuleView>, content: Seq<char>) -> nat
    decreases rules.len(),
{
    if rules.len() == 0 {
        0
    } else {
        penalty_total(rules.drop_last(), content) + if pattern_matches(rules.last().1, content) {
            rules.last().2
        } else {
            0
        }
    }
}

/// Score of a system: 100 less the penalties of the broken rules, at least 0.
pub open spec fn system_score(rules: Seq<RuleView>, content: Seq<char>) -> nat {
    let t = penalty_total(rules, content);
    if t >= 100 {
        0
    } else {
        (100 - t) as nat
    }
}

/// Whether every broken rule's match can be located in the text.
pub open spec fn rules_locatable(rules: Seq<RuleView>, content: Seq<char>) -> bool {
    forall|i: int|
        0 <= i < rules.len() && #[trigger] pattern_matches(rules[i].1, content) ==> window_ok(
            content,
            rules[i].1,
        )
}

/// The issues of the broken rules, in rule order.
pub open spec fn rule_issues(rules: Seq<RuleView>, content: Seq<char>) -> Seq<FormatIssueView>
    decreases rules.len(),
{
    if rules.len() == 0 {
        Seq::empty()
    } else {
        let r = rules.last();
        rule_issues(rules.drop_last(), content) + if pattern_matches(r.1, content) {
            seq![(r.0, severity_for(r.2), r.3, r.4, affected_section(content, r.1), r.2)]
        } else {
            Seq::empty()
        }
    }
}

/// Whether any of `patterns` matches `content`.
pub open spec fn any_matches(patterns: Seq<Seq<char>>, content: Seq<char>) -> bool {
    exists|i: int| 0 <= i < patterns.len() && #[trigger] pattern_matches(patterns[i], content)
}

/// Table markup or drawn table borders.
pub open spec fn table_patterns() -> Seq<Seq<char>> {
    seq!["<table"@, "<tr>"@, "<td>"@, r"\|\s*\|"@, "┌.*┐"@, "│.*│"@]
}

/// Text box markup.
pub open spec fn textbox_patterns() -> Seq<Seq<char>> {
    seq!["<textbox"@, "text-box"@, "textBox"@, "floating.*text"@]
}

/// Images, which may hold text.
pub open spec fn image_patterns() -> Seq<Seq<char>> {
    seq!["<img"@, r"\[image\]"@, r"\.jpg"@, r"\.png"@, r"\.gif"@, r"\.jpeg"@]
}

/// Layout styling that parsers tend to lose.
pub open spec fn complex_patterns() -> Seq<Seq<char>> {
    seq![
        "<style"@,
        r"text-align:\s*justify"@,
        r"columns:\s*\d+"@,
        r"float:\s*(left|right)"@,
        r"position:\s*absolute"@,
    ]
}

/// Fonts that applicant tracking systems handle badly.
pub open spec fn problematic_font_names() -> Seq<Seq<char>> {
    seq![
        "Comic Sans"@,
        "Papyrus"@,
        "Brush Script"@,
        "Chalkduster"@,
        "Fantasy"@,
        "Decorative"@,
        "Script"@,
        "Handwriting"@,
    ]
}

/// Symbols that may not parse.
pub open spec fn problematic_chars() -> Seq<Seq<char>> {
    seq![
        "•"@, "→"@, "←"@, "↑"@, "↓"@, "★"@, "♦"@, "♣"@, "♠"@, "♥"@,
        "✓"@, "✗"@, "⚫"@, "⚪"@, "◆"@, "◇"@, "■"@, "□"@, "▲"@, "▼"@,
    ]
}

/// Standard section header words.
pub open spec fn standard_headers() -> Seq<Seq<char>> {
    seq![
        "experience"@,
        "education"@,
        "skills"@,
        "summary"@,
        "contact"@,
        "work experience"@,
        "employment"@,
        "qualifications"@,
        "background"@,
    ]
}

/// The case-insensitive whole-word pattern of `word`.
pub open spec fn word_pattern(word: Seq<char>) -> Seq<char> {
    r"(?i)\b"@ + escape(word) + r"\b"@
}

/// Number of `words` that occur as whole words, case-insensitively.
pub open spec fn words_found(words: Seq<Seq<char>>, content: Seq<char>) -> nat
    decreases words.len(),
{
    if words.len() == 0 {
        0
    } else {
        words_found(words.drop_last(), content) + if pattern_matches(
            word_pattern(words.last()),
            content,
        ) {
            1nat
        } else {
            0nat
        }
    }
}

/// Whether at least three standard section headers occur.
pub open spec fn clear_headers(content: Seq<char>) -> bool {
    words_found(standard_headers(), content) >= 3
}

/// The fonts of the list whose lowercase name occurs in the lowercase text.
pub open spec fn fonts_found(fonts: Seq<Seq<char>>, content: Seq<char>) -> Seq<Seq<char>>
    decreases fonts.len(),
{
    if fonts.len() == 0 {
        Seq::empty()
    } else {
        fonts_found(fonts.drop_last(), content) + if contains(
            lowercase(content),
            lowercase(fonts.last()),
        ) {
            seq![fonts.last()]
        } else {
            Seq::empty()
        }
    }
}

/// The issue of one problematic font.
pub open spec fn font_issue(font: Seq<char>) -> FormatIssueView {
    (
        "non_standard_font"@,
        "medium"@,
        "Font '"@ + font + "' may not be ATS-friendly"@,
        "Use standard fonts like Arial, Calibri, or Times New Roman"@,
        "formatting"@,
        5,
    )
}

/// The issues of a list of problematic fonts.
pub open spec fn font_issues(fonts: Seq<Seq<char>>) -> Seq<FormatIssueView> {
    fonts.map_values(|f: Seq<char>| font_issue(f))
}

/// `issue` when `cond` holds, else nothing.
pub open spec fn issue_if(cond: bool, issue: FormatIssueView) -> Seq<FormatIssueView> {
    if cond {
        seq![issue]
    } else {
        Seq::empty()
    }
}

/// The general problematic elements of a document, in the order they are
/// checked: tables, text boxes, images, complex formatting, fonts, special
/// characters, unclear sections.
pub open spec fn problematic_issues(content: Seq<char>) -> Seq<FormatIssueView> {
    issue_if(
        any_matches(table_patterns(), content),
        ("tables"@, "critical"@, "Tables can cause parsing errors in ATS systems"@,
            "Convert table content to plain text with clear headings"@,
            "document_structure"@, 25),
    ) + issue_if(
        any_matches(textbox_patterns(), content),
        ("text_boxes"@, "high"@, "Text boxes are often ignored by ATS parsers"@,
            "Move content from text boxes to main document body"@,
            "document_structure"@, 20),
    ) + issue_if(
        any_matches(image_patterns(), content),
        ("text_in_images"@, "critical"@, "Text within images cannot be read by ATS systems"@,
            "Convert all text in images to regular text in the document"@,
            "document_structure"@, 30),
    ) + issue_if(
        any_matches(complex_patterns(), content),
        ("complex_formatting"@, "medium"@,
            "Complex formatting may not be preserved in ATS parsing"@,
            "Use simple, clean formatting with clear section headers"@, "formatting"@, 10),
    ) + font_issues(fonts_found(problematic_font_names(), content)) + issue_if(
        exists|i: int| 0 <= i < problematic_chars().len() && #[trigger] contains(content, problematic_chars()[i]),
        ("special_characters"@, "low"@,
            "Special characters may not parse correctly in all ATS systems"@,
            "Replace special characters with standard equivalents"@, "content"@, 3),
    ) + issue_if(
        !clear_headers(content),
        ("unclear_sections"@, "medium"@,
            "Document lacks clear section headers for ATS parsing"@,
            "Add clear, standard section headers (Experience, Education, Skills, etc.)"@,
            "structure"@, 15),
    )
}

/// The patterns by which a section is recognized; an unknown section name
/// gets the empty pattern.
pub open spec fn section_patterns(section: Seq<char>) -> Seq<Seq<char>> {
    if section == "contact"@ {
        seq![r"@\w+\.\w+"@, r"\(\d{3}\)"@, r"\d{3}-\d{3}-\d{4}"@]
    } else if section == "summary"@ {
        seq![r"(?i)\bsummary\b"@, r"(?i)\bobjective\b"@, r"(?i)\bprofile\b"@]
    } else if section == "experience"@ {
        seq![r"(?i)\bexperience\b"@, r"(?i)\bemployment\b"@, r"(?i)\bwork history\b"@]
    } else if section == "education"@ {
        seq![r"(?i)\beducation\b"@, r"(?i)\bdegree\b"@, r"(?i)\buniversity\b"@]
    } else if section == "skills"@ {
        seq![r"(?i)\bskills\b"@, r"(?i)\btechnical\b"@, r"(?i)\bcompetencies\b"@]
    } else if section == "certifications"@ {
        seq![r"(?i)\bcertification\b"@, r"(?i)\bcertified\b"@, r"(?i)\blicense\b"@]
    } else {
        seq![""@]
    }
}

/// Whether a simulated parse finds `section` in `content`.
pub open spec fn identifies_section(content: Seq<char>, section: Seq<char>) -> bool {
    any_matches(section_patterns(section), content)
}

/// The sections a simulated parse looks for, in order.
pub open spec fn standard_sections() -> Seq<Seq<char>> {
    seq!["contact"@, "summary"@, "experience"@, "education"@, "skills"@, "certifications"@]
}

/// The sections of `secs` that a simulated parse finds (`found`) or misses
/// (`!found`), in order.
pub open spec fn sections_with(secs: Seq<Seq<char>>, content: Seq<char>, found: bool) -> Seq<Seq<char>>
    decreases secs.len(),
{
    if secs.len() == 0 {
        Seq::empty()
    } else {
        sections_with(secs.drop_last(), content, found) + if identifies_section(content, secs.last()) == found {
            seq![secs.last()]
        } else {
            Seq::empty()
        }
    }
}

/// Penalty points of the format problems a parse suffers from.
pub open spec fn format_penalty(content: Seq<char>) -> nat {
    (if any_matches(table_patterns(), content) { 25nat } else { 0nat }) + (if any_matches(
        textbox_patterns(),
        content,
    ) {
        20nat
    } else {
        0nat
    }) + (if any_matches(image_patterns(), content) { 30nat } else { 0nat }) + (if any_matches(
        complex_patterns(),
        content,
    ) {
        10nat
    } else {
        0nat
    }) + (if !clear_headers(content) { 15nat } else { 0nat })
}

/// Six times the predicted parsing score when `found` of the six standard
/// sections are identified.
pub open spec fn predicted_sixths(found: nat, content: Seq<char>) -> nat {
    let p = 6 * format_penalty(content);
    if 100 * found >= p {
        (100 * found - p) as nat
    } else {
        0
    }
}

/// The first issue of type `t`, in issue order.
pub open spec fn first_of_type(issues: Seq<FormatIssueView>, t: Seq<char>) -> Option<FormatIssueView>
    decreases issues.len(),
{
    if issues.len() == 0 {
        None
    } else if issues[0].0 == t {
        Some(issues[0])
    } else {
        first_of_type(issues.drop_first(), t)
    }
}

/// Issue types in the order their recommendations are given.
pub open spec fn priority_order() -> Seq<Seq<char>> {
    seq![
        "text_in_images"@,
        "tables"@,
        "text_boxes"@,
        "unclear_sections"@,
        "complex_formatting"@,
        "non_standard_font"@,
        "special_characters"@,
    ]
}

/// For each type of `types` that occurs, the recommendation of its first issue.
pub open spec fn priority_recommendations(
    issues: Seq<FormatIssueView>,
    types: Seq<Seq<char>>,
) -> Seq<Seq<char>>
    decreases types.len(),
{
    if types.len() == 0 {
        Seq::empty()
    } else {
        priority_recommendations(issues, types.drop_last()) + match first_of_type(
            issues,
            types.last(),
        ) {
            Some(i) => seq![i.3],
            None => Seq::empty(),
        }
    }
}

/// The recommendations for a list of issues: the prioritized ones, then
/// advice to start over when something is critical, then praise when there
/// is nothing or only low-severity issues.
pub open spec fn format_recommendations(issues: Seq<FormatIssueView>) -> Seq<Seq<char>> {
    let critical = exists|i: int| 0 <= i < issues.len() && #[trigger] issues[i].1 == "critical"@;
    let all_low = forall|i: int| 0 <= i < issues.len() ==> #[trigger] issues[i].1 == "low"@;
    priority_recommendations(issues, priority_order()) + (if critical {
        seq!["Consider recreating the resume using a simple template to avoid parsing issues"@]
    } else {
        Seq::empty()
    }) + (if issues.len() == 0 {
        seq!["Your resume format is well-optimized for ATS systems"@]
    } else if all_low {
        seq!["Your resume has good ATS compatibility with minor improvements needed"@]
    } else {
        Seq::empty()
    })
}


// ---------------------------------------------------------------------------
// Building blocks.
// ---------------------------------------------------------------------------

/// An issue with the given contents.
fn new_issue(
    issue_type: &str,
    severity: &str,
    description: &str,
    recommendation: &str,
    section: &str,
    impact: u32,
) -> (res: FormatIssue)
    ensures
        format_issue_view(res) == (
            issue_type@,
            severity@,
            description@,
            recommendation@,
            section@,
            impact as nat,
        ),
{
    FormatIssue {
        issue_type: issue_type.to_owned(),
        severity: severity.to_owned(),
        description: description.to_owned(),
        recommendation: recommendation.to_owned(),
        section_affected: section.to_owned(),
        impact_score: impact,
    }
}

/// A rule with the given contents.
fn new_rule(
    rule_type: &str,
    pattern: &str,
    penalty: u32,
    description: &str,
    recommendation: &str,
) -> (res: FormatRule)
    ensures
        rule_view(res) == (rule_type@, pattern@, penalty as nat, description@, recommendation@),
{
    FormatRule {
        rule_type: rule_type.to_owned(),
        pattern: pattern.to_owned(),
        penalty_weight: penalty,
        description: description.to_owned(),
        recommendation: recommendation.to_owned(),
    }
}

/// Whether any of `patterns` matches `content`.
pub fn matches_any(patterns: &[&str], content: &str) -> (res: bool)
    ensures
        res == any_matches(str_views(patterns@), content@),
{
    let ghost pv = str_views(patterns@);
    let mut i: usize = 0;
    while i < patterns.len()
        invariant
            i <= patterns.len(),
            pv == str_views(patterns@),
            forall|j: int| 0 <= j < i ==> !pattern_matches(#[trigger] pv[j], content@),
        decreases patterns.len() - i,
    {
        if is_match(patterns[i], content) {
            assert(pattern_matches(pv[i as int], content@));
            return true;
        }
        i += 1;
    }
    false
}

/// Pushing an issue pushes its content.
proof fn lemma_issue_views_push(v: Seq<FormatIssue>, x: FormatIssue)
    ensures
        format_issue_views(v.push(x)) == format_issue_views(v) + seq![format_issue_view(x)],
{
    assert(format_issue_views(v.push(x)) =~= format_issue_views(v) + seq![format_issue_view(x)]);
}

/// Appends all issues of `more` to `issues`.
fn append_issues(issues: &mut Vec<FormatIssue>, more: Vec<FormatIssue>)
    ensures
        format_issue_views(final(issues)@) == format_issue_views(old(issues)@) + format_issue_views(more@),
{
    let mut more = more;
    let ghost m = more@;
    issues.append(&mut more);
    assert(format_issue_views(old(issues)@ + m) == format_issue_views(old(issues)@) + format_issue_views(m));
}


impl FormatCompatibilityChecker {
    /// Severity of a penalty: critical from 20 points, high from 10,
    /// medium from 5, otherwise low.
    pub fn determine_severity(&self, penalty_weight: u32) -> (res: String)
        ensures
            res@ == severity_for(penalty_weight as nat),
    {
        if penalty_weight >= 20 {
            "critical".to_owned()
        } else if penalty_weight >= 10 {
            "high".to_owned()
        } else if penalty_weight >= 5 {
            "medium".to_owned()
        } else {
            "low".to_owned()
        }
    }

    /// Whether the text holds table markup or drawn table borders.
    pub fn contains_tables(&self, content: &str) -> (res: bool)
        ensures
            res == any_matches(table_patterns(), content@),
    {
        let pats: [&str; 6] = ["<table", "<tr>", "<td>", r"\|\s*\|", "┌.*┐", "│.*│"];
        assert(str_views(pats@) == table_patterns());
        matches_any(&pats, content)
    }

    /// Whether the text holds text box markup.
    pub fn contains_text_boxes(&self, content: &str) -> (res: bool)
        ensures
            res == any_matches(textbox_patterns(), content@),
    {
        let pats: [&str; 4] = ["<textbox", "text-box", "textBox", "floating.*text"];
        assert(str_views(pats@) == textbox_patterns());
        matches_any(&pats, content)
    }

    /// Whether the text refers to images, which may hold text.
    pub fn contains_text_in_images(&self, content: &str) -> (res: bool)
        ensures
            res == any_matches(image_patterns(), content@),
    {
        let pats: [&str; 6] = ["<img", r"\[image\]", r"\.jpg", r"\.png", r"\.gif", r"\.jpeg"];
        assert(str_views(pats@) == image_patterns());
        matches_any(&pats, content)
    }

    /// Whether the text holds layout styling that parsers tend to lose.
    pub fn has_complex_formatting(&self, content: &str) -> (res: bool)
        ensures
            res == any_matches(complex_patterns(), content@),
    {
        let pats: [&str; 5] = [
            "<style",
            r"text-align:\s*justify",
            r"columns:\s*\d+",
            r"float:\s*(left|right)",
            r"position:\s*absolute",
        ];
        assert(str_views(pats@) == complex_patterns());
        matches_any(&pats, content)
    }

    /// The problematic fonts named in the text, compared without case.
    pub fn check_fonts(&self, content: &str) -> (res: Vec<String>)
        ensures
            res@.map_values(|f: String| f@) == fonts_found(problematic_font_names(), content@),
    {
        let names: [&str; 8] = [
            "Comic Sans",
            "Papyrus",
            "Brush Script",
            "Chalkduster",
            "Fantasy",
            "Decorative",
            "Script",
            "Handwriting",
        ];
        let ghost nv = str_views(names@);
        assert(nv == problematic_font_names());
        let lc = to_lowercase(content);
        let lcv = chars_of(lc.as_str());
        let mut found: Vec<String> = Vec::new();
        let mut i: usize = 0;
        while i < 8
            invariant
                i <= 8,
                nv == str_views(names@),
                lcv@ == lowercase(content@),
                found@.map_values(|f: String| f@) == fonts_found(nv.take(i as int), content@),
            decreases 8 - i,
        {
            let lf = to_lowercase(names[i]);
            let ghost before = found@;
            assert(nv.take(i + 1).drop_last() == nv.take(i as int));
            if contains_chars(&lcv, &chars_of(lf.as_str())) {
                found.push(names[i].to_owned());
                assert(found@.map_values(|f: String| f@) == before.map_values(|f: String| f@).push(names@[i as int]@));
            }
            i += 1;
        }
        assert(nv.take(8) == nv);
        found
    }

    /// Whether the text holds any of the symbols that may not parse.
    pub fn has_problematic_characters(&self, content: &str) -> (res: bool)
        ensures
            res == exists|i: int| 0 <= i < problematic_chars().len() && #[trigger] contains(content@, problematic_chars()[i]),
    {
        let syms: [&str; 20] = [
            "•", "→", "←", "↑", "↓", "★", "♦", "♣", "♠", "♥",
            "✓", "✗", "⚫", "⚪", "◆", "◇", "■", "□", "▲", "▼",
        ];
        let ghost sv = str_views(syms@);
        assert(sv == problematic_chars());
        let cv = chars_of(content);
        let mut i: usize = 0;
        while i < 20
            invariant
                i <= 20,
                sv == str_views(syms@),
                sv == problematic_chars(),
                cv@ == content@,
                forall|j: int| 0 <= j < i ==> !contains(content@, #[trigger] sv[j]),
            decreases 20 - i,
        {
            if contains_chars(&cv, &chars_of(syms[i])) {
                assert(contains(content@, sv[i as int]));
                return true;
            }
            i += 1;
        }
        false
    }

    /// Whether at least three standard section headers occur as words.
    pub fn has_clear_section_headers(&self, content: &str) -> (res: bool)
        ensures
            res == clear_headers(content@),
    {
        let headers: [&str; 9] = [
            "experience",
            "education",
            "skills",
            "summary",
            "contact",
            "work experience",
            "employment",
            "qualifications",
            "background",
        ];
        let ghost hv = str_views(headers@);
        assert(hv == standard_headers());
        let mut found: usize = 0;
        let mut i: usize = 0;
        while i < 9
            invariant
                i <= 9,
                hv == str_views(headers@),
                found == words_found(hv.take(i as int), content@),
                found <= i,
            decreases 9 - i,
        {
            let esc = escape_chars(&chars_of(headers[i]));
            let mut pv: Vec<char> = Vec::new();
            append_chars(&mut pv, &chars_of(r"(?i)\b"));
            append_chars(&mut pv, &esc);
            append_chars(&mut pv, &chars_of(r"\b"));
            let pat = string_from_chars(&pv);
            assert(pat@ == word_pattern(hv[i as int]));
            assert(hv.take(i + 1).drop_last() == hv.take(i as int));
            if is_match(pat.as_str(), content) {
                found += 1;
            }
            i += 1;
        }
        assert(hv.take(9) == hv);
        found >= 3
    }

    /// Whether a simulated parse finds `section`; an unknown section name
    /// is checked with the empty pattern.
    pub fn can_identify_section(&self, content: &str, section: &str) -> (res: bool)
        ensures
            res == identifies_section(content@, section@),
    {
        if str_eq(section, "contact") {
            let pats: [&str; 3] = [r"@\w+\.\w+", r"\(\d{3}\)", r"\d{3}-\d{3}-\d{4}"];
            assert(str_views(pats@) == section_patterns(section@));
            matches_any(&pats, content)
        } else if str_eq(section, "summary") {
            let pats: [&str; 3] = [r"(?i)\bsummary\b", r"(?i)\bobjective\b", r"(?i)\bprofile\b"];
            assert(str_views(pats@) == section_patterns(section@));
            matches_any(&pats, content)
        } else if str_eq(section, "experience") {
            let pats: [&str; 3] = [
                r"(?i)\bexperience\b",
                r"(?i)\bemployment\b",
                r"(?i)\bwork history\b",
            ];
            assert(str_views(pats@) == section_patterns(section@));
            matches_any(&pats, content)
        } else if str_eq(section, "education") {
            let pats: [&str; 3] = [r"(?i)\beducation\b", r"(?i)\bdegree\b", r"(?i)\buniversity\b"];
            assert(str_views(pats@) == section_patterns(section@));
            matches_any(&pats, content)
        } else if str_eq(section, "skills") {
            let pats: [&str; 3] = [r"(?i)\bskills\b", r"(?i)\btechnical\b", r"(?i)\bcompetencies\b"];
            assert(str_views(pats@) == section_patterns(section@));
            matches_any(&pats, content)
        } else if str_eq(section, "certifications") {
            let pats: [&str; 3] = [
                r"(?i)\bcertification\b",
                r"(?i)\bcertified\b",
                r"(?i)\blicense\b",
            ];
            assert(str_views(pats@) == section_patterns(section@));
            matches_any(&pats, content)
        } else {
            let pats: [&str; 1] = [""];
            assert(str_views(pats@) == section_patterns(section@));
            matches_any(&pats, content)
        }
    }

    /// Penalty points of the format problems of the text.
    pub fn calculate_format_penalty(&self, content: &str) -> (res: u32)
        ensures
            res == format_penalty(content@),
    {
        let mut penalty: u32 = 0;
        if self.contains_tables(content) {
            penalty += 25;
        }
        if self.contains_text_boxes(content) {
            penalty += 20;
        }
        if self.contains_text_in_images(content) {
            penalty += 30;
        }
        if self.has_complex_formatting(content) {
            penalty += 10;
        }
        if !self.has_clear_section_headers(content) {
            penalty += 15;
        }
        penalty
    }
}


impl FormatCompatibilityChecker {
    /// The section affected by the first match of `pattern`: the text up to
    /// 100 bytes before and after the match names it. The range must start
    /// and end on character boundaries.
    pub fn identify_affected_section(&self, content: &str, pattern: &str) -> (res: String)
        requires
            window_ok(content@, pattern@),
        ensures
            res@ == affected_section(content@, pattern@),
    {
        let cv = chars_of(content);
        match find_span(pattern, content) {
            None => "unknown".to_owned(),
            Some((s, e)) => {
                let len = content.as_bytes().len();
                proof {
                    lemma_byte_len_encoding(content@);
                }
                let lo: usize = if s >= 100 { s - 100 } else { 0 };
                let hi: usize = if len - e >= 100 { e + 100 } else { len };
                let a = char_index_at_byte(&cv, lo);
                let b = char_index_at_byte(&cv, hi);
                match (a, b) {
                    (Some(i), Some(j)) => {
                        if j < i {
                            proof {
                                crate::text::lemma_byte_len_strict(cv@, j as int, i as int);
                            }
                        }
                        let mut w: Vec<char> = Vec::new();
                        let mut k: usize = i;
                        while k < j
                            invariant
                                i <= k <= j,
                                j <= cv.len(),
                                w@ == cv@.subrange(i as int, k as int),
                            decreases j - k,
                        {
                            w.push(cv[k]);
                            assert(cv@.subrange(i as int, k + 1) == cv@.subrange(i as int, k as int).push(cv@[k as int]));
                            k += 1;
                        }
                        let ws = string_from_chars(&w);
                        let ctx = to_lowercase(ws.as_str());
                        let xv = chars_of(ctx.as_str());
                        if contains_chars(&xv, &chars_of("experience")) {
                            "experience".to_owned()
                        } else if contains_chars(&xv, &chars_of("education")) {
                            "education".to_owned()
                        } else if contains_chars(&xv, &chars_of("skills")) {
                            "skills".to_owned()
                        } else if contains_chars(&xv, &chars_of("summary")) {
                            "summary".to_owned()
                        } else {
                            "general".to_owned()
                        }
                    },
                    _ => "unknown".to_owned(),
                }
            },
        }
    }

    /// Score and issues of one system's rules: each broken rule costs its
    /// penalty and yields an issue; the score is at least zero.
    pub fn check_ats_specific_format(&self, content: &str, rules: &Vec<FormatRule>) -> (res: (
        u32,
        Vec<FormatIssue>,
    ))
        requires
            rules_locatable(rule_views(rules@), content@),
        ensures
            res.0 == system_score(rule_views(rules@), content@),
            format_issue_views(res.1@) == rule_issues(rule_views(rules@), content@),
    {
        let ghost rv = rule_views(rules@);
        let mut total: u64 = 0;
        let mut issues: Vec<FormatIssue> = Vec::new();
        let mut i: usize = 0;
        while i < rules.len()
            invariant
                i <= rules.len(),
                rv == rule_views(rules@),
                rules_locatable(rv, content@),
                total == if penalty_total(rv.take(i as int), content@) >= 100 {
                    100
                } else {
                    penalty_total(rv.take(i as int), content@)
                },
                format_issue_views(issues@) == rule_issues(rv.take(i as int), content@),
            decreases rules.len() - i,
        {
            let rule = &rules[i];
            assert(rv[i as int] == rule_view(*rule));
            assert(rv.take(i + 1).drop_last() == rv.take(i as int));
            assert(rv.take(i + 1).last() == rv[i as int]);
            if is_match(rule.pattern.as_str(), content) {
                let w = rule.penalty_weight as u64;
                total = if total + w >= 100 { 100 } else { total + w };
                let ghost before = issues@;
                assert(pattern_matches(rv[i as int].1, content@));
                let section = self.identify_affected_section(content, rule.pattern.as_str());
                let severity = self.determine_severity(rule.penalty_weight);
                let issue = FormatIssue {
                    issue_type: rule.rule_type.clone(),
                    severity,
                    description: rule.description.clone(),
                    recommendation: rule.recommendation.clone(),
                    section_affected: section,
                    impact_score: rule.penalty_weight,
                };
                issues.push(issue);
                assert(format_issue_views(issues@) == format_issue_views(before).push(format_issue_view(issue)));
            }
            i += 1;
        }
        assert(rv.take(rules.len() as int) == rv);
        let score: u32 = if total >= 100 { 0 } else { (100 - total) as u32 };
        (score, issues)
    }
}


impl FormatCompatibilityChecker {
    /// The general problematic elements of the text, in the order of
    /// `problematic_issues`.
    pub fn check_problematic_elements(&self, content: &str) -> (res: Vec<FormatIssue>)
        ensures
            format_issue_views(res@) == problematic_issues(content@),
    {
        let mut issues: Vec<FormatIssue> = Vec::new();
        let ghost s0 = format_issue_views(issues@);
        let c1 = self.contains_tables(content);
        if c1 {
            let x = new_issue(
                "tables",
                "critical",
                "Tables can cause parsing errors in ATS systems",
                "Convert table content to plain text with clear headings",
                "document_structure",
                25,
            );
            proof { lemma_issue_views_push(issues@, x); }
            issues.push(x);
        }
        let ghost s1 = format_issue_views(issues@);
        assert(s1 == s0 + issue_if(c1, ("tables"@, "critical"@, "Tables can cause parsing errors in ATS systems"@,
            "Convert table content to plain text with clear headings"@, "document_structure"@, 25)));
        let c2 = self.contains_text_boxes(content);
        if c2 {
            let x = new_issue(
                "text_boxes",
                "high",
                "Text boxes are often ignored by ATS parsers",
                "Move content from text boxes to main document body",
                "document_structure",
                20,
            );
            proof { lemma_issue_views_push(issues@, x); }
            issues.push(x);
        }
        let ghost s2 = format_issue_views(issues@);
        assert(s2 == s1 + issue_if(c2, ("text_boxes"@, "high"@, "Text boxes are often ignored by ATS parsers"@,
            "Move content from text boxes to main document body"@, "document_structure"@, 20)));
        let c3 = self.contains_text_in_images(content);
        if c3 {
            let x = new_issue(
                "text_in_images",
                "critical",
                "Text within images cannot be read by ATS systems",
                "Convert all text in images to regular text in the document",
                "document_structure",
                30,
            );
            proof { lemma_issue_views_push(issues@, x); }
            issues.push(x);
        }
        let ghost s3 = format_issue_views(issues@);
        assert(s3 == s2 + issue_if(c3, ("text_in_images"@, "critical"@, "Text within images cannot be read by ATS systems"@,
            "Convert all text in images to regular text in the document"@, "document_structure"@, 30)));
        let c4 = self.has_complex_formatting(content);
        if c4 {
            let x = new_issue(
                "complex_formatting",
                "medium",
                "Complex formatting may not be preserved in ATS parsing",
                "Use simple, clean formatting with clear section headers",
                "formatting",
                10,
            );
            proof { lemma_issue_views_push(issues@, x); }
            issues.push(x);
        }
        let ghost s4 = format_issue_views(issues@);
        assert(s4 == s3 + issue_if(c4, ("complex_formatting"@, "medium"@,
            "Complex formatting may not be preserved in ATS parsing"@,
            "Use simple, clean formatting with clear section headers"@, "formatting"@, 10)));
        let fonts = self.check_fonts(content);
        let ghost fv = fonts@.map_values(|f: String| f@);
        let mut k: usize = 0;
        while k < fonts.len()
            invariant
                k <= fonts.len(),
                fv == fonts@.map_values(|f: String| f@),
                format_issue_views(issues@) == s4 + font_issues(fv.take(k as int)),
            decreases fonts.len() - k,
        {
            let mut dv: Vec<char> = Vec::new();
            append_chars(&mut dv, &chars_of("Font '"));
            append_chars(&mut dv, &chars_of(fonts[k].as_str()));
            append_chars(&mut dv, &chars_of("' may not be ATS-friendly"));
            let d = string_from_chars(&dv);
            let issue = new_issue(
                "non_standard_font",
                "medium",
                d.as_str(),
                "Use standard fonts like Arial, Calibri, or Times New Roman",
                "formatting",
                5,
            );
            proof { lemma_issue_views_push(issues@, issue); }
            issues.push(issue);
            assert(format_issue_view(issue) == font_issue(fv[k as int]));
            assert(fv.take(k + 1) == fv.take(k as int).push(fv[k as int]));
            assert(font_issues(fv.take(k + 1)) == font_issues(fv.take(k as int)) + seq![font_issue(fv[k as int])]);
            k += 1;
        }
        assert(fv.take(fonts.len() as int) == fv);
        let ghost s5 = format_issue_views(issues@);
        assert(s5 == s4 + font_issues(fonts_found(problematic_font_names(), content@)));
        let c6 = self.has_problematic_characters(content);
        if c6 {
            let x = new_issue(
                "special_characters",
                "low",
                "Special characters may not parse correctly in all ATS systems",
                "Replace special characters with standard equivalents",
                "content",
                3,
            );
            proof { lemma_issue_views_push(issues@, x); }
            issues.push(x);
        }
        let ghost s6 = format_issue_views(issues@);
        assert(s6 == s5 + issue_if(c6, ("special_characters"@, "low"@,
            "Special characters may not parse correctly in all ATS systems"@,
            "Replace special characters with standard equivalents"@, "content"@, 3)));
        let c7 = !self.has_clear_section_headers(content);
        if c7 {
            let x = new_issue(
                "unclear_sections",
                "medium",
                "Document lacks clear section headers for ATS parsing",
                "Add clear, standard section headers (Experience, Education, Skills, etc.)",
                "structure",
                15,
            );
            proof { lemma_issue_views_push(issues@, x); }
            issues.push(x);
        }
        let ghost s7 = format_issue_views(issues@);
        assert(s7 == s6 + issue_if(c7, ("unclear_sections"@, "medium"@,
            "Document lacks clear section headers for ATS parsing"@,
            "Add clear, standard section headers (Experience, Education, Skills, etc.)"@,
            "structure"@, 15)));
        assert(s0 =~= Seq::<FormatIssueView>::empty());
        assert(s7 =~= problematic_issues(content@));
        issues
    }

    /// A simulated parse: which standard sections are found, and the
    /// predicted parsing score.
    pub fn simulate_parsing_process(&self, content: &str) -> (res: ParsingSimulation)
        ensures
            res.successful_sections@.map_values(|s: String| s@) == sections_with(standard_sections(), content@, true),
            res.failed_sections@.map_values(|s: String| s@) == sections_with(standard_sections(), content@, false),
            res.predicted_parsing_score_sixths == predicted_sixths(
                res.successful_sections.len() as nat,
                content@,
            ),
    {
        let names: [&str; 6] = [
            "contact",
            "summary",
            "experience",
            "education",
            "skills",
            "certifications",
        ];
        let ghost nv = str_views(names@);
        assert(nv == standard_sections());
        let mut ok: Vec<String> = Vec::new();
        let mut failed: Vec<String> = Vec::new();
        let mut i: usize = 0;
        while i < 6
            invariant
                i <= 6,
                nv == str_views(names@),
                ok.len() <= i,
                ok@.map_values(|s: String| s@) == sections_with(nv.take(i as int), content@, true),
                failed@.map_values(|s: String| s@) == sections_with(nv.take(i as int), content@, false),
            decreases 6 - i,
        {
            let ghost ob = ok@;
            let ghost fb = failed@;
            assert(nv.take(i + 1).drop_last() == nv.take(i as int));
            assert(nv.take(i + 1).last() == nv[i as int]);
            if self.can_identify_section(content, names[i]) {
                ok.push(names[i].to_owned());
                assert(ok@.map_values(|s: String| s@) == ob.map_values(|s: String| s@).push(nv[i as int]));
            } else {
                failed.push(names[i].to_owned());
                assert(failed@.map_values(|s: String| s@) == fb.map_values(|s: String| s@).push(nv[i as int]));
            }
            i += 1;
        }
        assert(nv.take(6) == nv);
        let penalty = self.calculate_format_penalty(content);
        let found = ok.len() as u32;
        let sixths: u32 = if 100 * found >= 6 * penalty { 100 * found - 6 * penalty } else { 0 };
        ParsingSimulation {
            successful_sections: ok,
            failed_sections: failed,
            predicted_parsing_score_sixths: sixths,
        }
    }
}


/// Sum of the scores of all systems.
pub open spec fn score_sum(sets: RuleSetsView, content: Seq<char>) -> nat
    decreases sets.len(),
{
    if sets.len() == 0 {
        0
    } else {
        score_sum(sets.drop_last(), content) + system_score(sets.last().1, content)
    }
}

/// The issues of all systems' broken rules, system by system.
pub open spec fn all_rule_issues(sets: RuleSetsView, content: Seq<char>) -> Seq<FormatIssueView>
    decreases sets.len(),
{
    if sets.len() == 0 {
        Seq::empty()
    } else {
        all_rule_issues(sets.drop_last(), content) + rule_issues(sets.last().1, content)
    }
}

/// Whether every system's broken rules can be located in the text.
pub open spec fn sets_locatable(sets: RuleSetsView, content: Seq<char>) -> bool {
    forall|i: int| 0 <= i < sets.len() ==> rules_locatable(#[trigger] sets[i].1, content)
}

/// The full list of issues of a check.
pub open spec fn report_issues(sets: RuleSetsView, content: Seq<char>) -> Seq<FormatIssueView> {
    all_rule_issues(sets, content) + problematic_issues(content)
}

/// A hundred times the overall score: the mean system score, less the
/// impacts of the general problematic elements, and at least zero.
pub open spec fn overall_centi(sets: RuleSetsView, content: Seq<char>) -> nat {
    if sets.len() == 0 {
        0
    } else {
        let mean = score_sum(sets, content) * 100 / sets.len();
        let general = 100 * impact_total(problematic_issues(content));
        if mean >= general {
            (mean - general) as nat
        } else {
            0
        }
    }
}

/// Sum of the impacts of a list of issues.
pub open spec fn impact_total(issues: Seq<FormatIssueView>) -> nat
    decreases issues.len(),
{
    if issues.len() == 0 {
        0
    } else {
        impact_total(issues.drop_last()) + issues.last().5
    }
}

impl FormatCompatibilityChecker {
    /// Recommendations for a list of issues, as `format_recommendations`
    /// states them.
    pub fn generate_format_recommendations(&self, issues: &Vec<FormatIssue>) -> (res: Vec<String>)
        ensures
            res@.map_values(|r: String| r@) == format_recommendations(format_issue_views(issues@)),
    {
        let ghost iv = format_issue_views(issues@);
        let order: [&str; 7] = [
            "text_in_images",
            "tables",
            "text_boxes",
            "unclear_sections",
            "complex_formatting",
            "non_standard_font",
            "special_characters",
        ];
        let ghost ov = str_views(order@);
        assert(ov == priority_order());
        let mut recs: Vec<String> = Vec::new();
        let mut t: usize = 0;
        while t < 7
            invariant
                t <= 7,
                ov == str_views(order@),
                iv == format_issue_views(issues@),
                recs@.map_values(|r: String| r@) == priority_recommendations(iv, ov.take(t as int)),
            decreases 7 - t,
        {
            assert(ov.take(t + 1).drop_last() == ov.take(t as int));
            assert(ov.take(t + 1).last() == ov[t as int]);
            let mut j: usize = 0;
            let mut hit: Option<usize> = None;
            assert(iv.skip(0) == iv);
            while j < issues.len()
                invariant
                    j <= issues.len(),
                    iv == format_issue_views(issues@),
                    t < 7,
                    ov == str_views(order@),
                    hit is None ==> first_of_type(iv, ov[t as int]) == first_of_type(iv.skip(j as int), ov[t as int]),
                    hit matches Some(h) ==> h < issues.len() && first_of_type(iv, ov[t as int]) == Some(iv[h as int]),
                    hit is Some ==> j == issues.len(),
                decreases issues.len() - j,
            {
                assert(iv.skip(j as int).drop_first() == iv.skip(j + 1));
                assert(iv.skip(j as int)[0] == iv[j as int]);
                assert(iv[j as int] == format_issue_view(issues@[j as int]));
                if str_eq(issues[j].issue_type.as_str(), order[t]) {
                    hit = Some(j);
                    j = issues.len();
                } else {
                    j += 1;
                }
            }
            proof {
                if hit is None {
                    assert(iv.skip(issues.len() as int).len() == 0);
                }
            }
            let ghost before = recs@;
            match hit {
                Some(h) => {
                    recs.push(issues[h].recommendation.clone());
                    assert(recs@.map_values(|r: String| r@) == before.map_values(|r: String| r@) + seq![iv[h as int].3]);
                },
                None => {},
            }
            t += 1;
        }
        assert(ov.take(7) == ov);
        let mut critical = false;
        let mut all_low = true;
        let mut j: usize = 0;
        while j < issues.len()
            invariant
                j <= issues.len(),
                iv == format_issue_views(issues@),
                critical == exists|i: int| 0 <= i < j && #[trigger] iv[i].1 == "critical"@,
                all_low == forall|i: int| 0 <= i < j ==> #[trigger] iv[i].1 == "low"@,
            decreases issues.len() - j,
        {
            assert(iv[j as int] == format_issue_view(issues@[j as int]));
            let is_crit = str_eq(issues[j].severity.as_str(), "critical");
            let is_low = str_eq(issues[j].severity.as_str(), "low");
            assert(is_crit == (iv[j as int].1 == "critical"@));
            assert(is_low == (iv[j as int].1 == "low"@));
            let ghost c0 = critical;
            let ghost l0 = all_low;
            if is_crit {
                critical = true;
            }
            if !is_low {
                all_low = false;
            }
            proof {
                if is_crit {
                    assert(0 <= j < j + 1 && iv[j as int].1 == "critical"@);
                } else if c0 {
                    let w = choose|i: int| 0 <= i < j && #[trigger] iv[i].1 == "critical"@;
                    assert(0 <= w < j + 1 && iv[w].1 == "critical"@);
                } else {
                    assert forall|i: int| 0 <= i < j + 1 implies !(#[trigger] iv[i].1 == "critical"@) by {
                        if i < j {
                        }
                    }
                }
                if !is_low {
                    assert(!(iv[j as int].1 == "low"@));
                } else if l0 {
                    assert forall|i: int| 0 <= i < j + 1 implies #[trigger] iv[i].1 == "low"@ by {
                        if i < j {
                        }
                    }
                } else {
                    let w = choose|i: int| !(0 <= i < j ==> #[trigger] iv[i].1 == "low"@);
                    assert(!(iv[w].1 == "low"@));
                }
            }
            j += 1;
        }
        let ghost mid = recs@;
        if critical {
            recs.push("Consider recreating the resume using a simple template to avoid parsing issues".to_owned());
        }
        let ghost mid2 = recs@;
        assert(mid2.map_values(|r: String| r@) == mid.map_values(|r: String| r@) + (if critical {
            seq!["Consider recreating the resume using a simple template to avoid parsing issues"@]
        } else {
            Seq::<Seq<char>>::empty()
        }));
        if issues.len() == 0 {
            recs.push("Your resume format is well-optimized for ATS systems".to_owned());
        } else if all_low {
            recs.push("Your resume has good ATS compatibility with minor improvements needed".to_owned());
        }
        assert(recs@.map_values(|r: String| r@) == mid2.map_values(|r: String| r@) + (if iv.len() == 0 {
            seq!["Your resume format is well-optimized for ATS systems"@]
        } else if all_low {
            seq!["Your resume has good ATS compatibility with minor improvements needed"@]
        } else {
            Seq::<Seq<char>>::empty()
        }));
        recs
    }
}


/// Whether `r` is the report of checking `content` against the systems
/// `sets`: each system's score, the mean, all issues, the recommendations
/// for them, and the simulated parse.
pub open spec fn is_report_of(r: FormatCompatibilityReport, sets: RuleSetsView, content: Seq<char>) -> bool {
    &&& r.ats_specific_scores@.map_values(|e: (String, u32)| (e.0@, e.1 as nat)) == sets.map_values(
        |e: (Seq<char>, Seq<RuleView>)| (e.0, system_score(e.1, content)),
    )
    &&& r.overall_score_centi == overall_centi(sets, content)
    &&& format_issue_views(r.format_issues@) == report_issues(sets, content)
    &&& r.recommendations@.map_values(|x: String| x@) == format_recommendations(
        report_issues(sets, content),
    )
    &&& r.parsing_simulation.successful_sections@.map_values(|x: String| x@) == sections_with(
        standard_sections(),
        content,
        true,
    )
    &&& r.parsing_simulation.failed_sections@.map_values(|x: String| x@) == sections_with(
        standard_sections(),
        content,
        false,
    )
    &&& r.parsing_simulation.predicted_parsing_score_sixths == predicted_sixths(
        r.parsing_simulation.successful_sections.len() as nat,
        content,
    )
}

impl FormatCompatibilityChecker {
    /// The full check: every system's rules, the general problematic
    /// elements, a simulated parse, and the recommendations. Each broken
    /// rule's match must be locatable in the text (see
    /// `compatibility_report` for a check that tests this first). The
    /// check itself always succeeds.
    pub fn check_comprehensive_compatibility(&self, content: &str) -> (res: Result<
        FormatCompatibilityReport,
        anyhow::Error,
    >)
        requires
            sets_locatable(self@, content@),
        ensures
            res matches Ok(r) && is_report_of(r, self@, content@),
    {
        let ghost sets = self@;
        let mut issues: Vec<FormatIssue> = Vec::new();
        let mut scores: Vec<(String, u32)> = Vec::new();
        let mut sum: u128 = 0;
        let mut i: usize = 0;
        while i < self.ats_rules.len()
            invariant
                i <= self.ats_rules.len(),
                sets == self@,
                sets == rule_sets_view(self.ats_rules@),
                sets_locatable(sets, content@),
                sum == score_sum(sets.take(i as int), content@),
                sum <= 100 * i,
                format_issue_views(issues@) == all_rule_issues(sets.take(i as int), content@),
                scores@.map_values(|e: (String, u32)| (e.0@, e.1 as nat)) == sets.take(i as int).map_values(
                    |e: (Seq<char>, Seq<RuleView>)| (e.0, system_score(e.1, content@)),
                ),
            decreases self.ats_rules.len() - i,
        {
            let entry = &self.ats_rules[i];
            assert(sets[i as int] == (entry.0@, rule_views(entry.1@)));
            assert(rules_locatable(sets[i as int].1, content@));
            let (score, found) = self.check_ats_specific_format(content, &entry.1);
            assert(sets.take(i + 1).drop_last() == sets.take(i as int));
            assert(sets.take(i + 1).last() == sets[i as int]);
            let ghost sb = scores@;
            scores.push((entry.0.clone(), score));
            assert(scores@.map_values(|e: (String, u32)| (e.0@, e.1 as nat)) == sb.map_values(
                |e: (String, u32)| (e.0@, e.1 as nat),
            ).push((sets[i as int].0, system_score(sets[i as int].1, content@))));
            assert(sets.take(i + 1).map_values(
                |e: (Seq<char>, Seq<RuleView>)| (e.0, system_score(e.1, content@)),
            ) == sets.take(i as int).map_values(
                |e: (Seq<char>, Seq<RuleView>)| (e.0, system_score(e.1, content@)),
            ).push((sets[i as int].0, system_score(sets[i as int].1, content@))));
            append_issues(&mut issues, found);
            sum = sum + score as u128;
            i += 1;
        }
        assert(sets.take(self.ats_rules.len() as int) == sets);
        let more = self.check_problematic_elements(content);
        let ghost mv = format_issue_views(more@);
        let mut impact: u128 = 0;
        let mut k: usize = 0;
        while k < more.len()
            invariant
                k <= more.len(),
                mv == format_issue_views(more@),
                impact == if impact_total(mv.take(k as int)) >= 100 {
                    100
                } else {
                    impact_total(mv.take(k as int))
                },
            decreases more.len() - k,
        {
            assert(mv.take(k + 1).drop_last() == mv.take(k as int));
            assert(mv.take(k + 1).last() == format_issue_view(more@[k as int]));
            let w = more[k].impact_score as u128;
            impact = if impact + w >= 100 { 100 } else { impact + w };
            k += 1;
        }
        assert(mv.take(more.len() as int) == mv);
        append_issues(&mut issues, more);
        let parsing_simulation = self.simulate_parsing_process(content);
        let n = self.ats_rules.len();
        let overall: u32 = if n == 0 {
            0
        } else {
            assert(sum * 100 <= 10000 * n) by (nonlinear_arith)
                requires
                    sum <= 100 * n,
            ;
            assert(sum * 100 / (n as int) <= 10000) by (nonlinear_arith)
                requires
                    sum * 100 <= 10000 * n,
                    n > 0,
            ;
            let mean = sum * 100 / (n as u128);
            if mean >= 100 * impact {
                (mean - 100 * impact) as u32
            } else {
                0
            }
        };
        let recommendations = self.generate_format_recommendations(&issues);
        Ok(
            FormatCompatibilityReport {
                overall_score_centi: overall,
                ats_specific_scores: scores,
                format_issues: issues,
                recommendations,
                parsing_simulation,
            },
        )
    }
}


impl FormatCompatibilityChecker {
    /// Whether the match of `pattern`, if it matches, can be located in the
    /// text: the range around it starts and ends on character boundaries.
    pub fn rule_locatable(&self, content: &str, pattern: &str) -> (res: bool)
        ensures
            res == (pattern_matches(pattern@, content@) ==> window_ok(content@, pattern@)),
    {
        if !is_match(pattern, content) {
            return true;
        }
        let cv = chars_of(content);
        match find_span(pattern, content) {
            None => true,
            Some((s, e)) => {
                let len = content.as_bytes().len();
                proof {
                    lemma_byte_len_encoding(content@);
                }
                let lo: usize = if s >= 100 { s - 100 } else { 0 };
                let hi: usize = if len - e >= 100 { e + 100 } else { len };
                char_index_at_byte(&cv, lo).is_some() && char_index_at_byte(&cv, hi).is_some()
            },
        }
    }

    /// The full check where every broken rule's match can be located in the
    /// text; `None` where one cannot (cutting the text around it would split
    /// a character).
    pub fn compatibility_report(&self, content: &str) -> (res: Option<FormatCompatibilityReport>)
        ensures
            res is Some <==> sets_locatable(self@, content@),
            res matches Some(r) ==> is_report_of(r, self@, content@),
    {
        let ghost sets = self@;
        let mut i: usize = 0;
        while i < self.ats_rules.len()
            invariant
                i <= self.ats_rules.len(),
                sets == self@,
                sets == rule_sets_view(self.ats_rules@),
                forall|k: int| 0 <= k < i ==> rules_locatable(#[trigger] sets[k].1, content@),
            decreases self.ats_rules.len() - i,
        {
            let rules = &self.ats_rules[i].1;
            let ghost rv = rule_views(rules@);
            assert(sets[i as int].1 == rv);
            let mut j: usize = 0;
            while j < rules.len()
                invariant
                    j <= rules.len(),
                    i < self.ats_rules.len(),
                    sets == rule_sets_view(self.ats_rules@),
                    rv == rule_views(rules@),
                    sets[i as int].1 == rv,
                    forall|k: int| 0 <= k < j && #[trigger] pattern_matches(rv[k].1, content@) ==> window_ok(content@, rv[k].1),
                decreases rules.len() - j,
            {
                assert(rv[j as int] == rule_view(rules@[j as int]));
                if !self.rule_locatable(content, rules[j].pattern.as_str()) {
                    assert(pattern_matches(rv[j as int].1, content@));
                    assert(!rules_locatable(sets[i as int].1, content@));
                    return None;
                }
                j += 1;
            }
            assert(rules_locatable(sets[i as int].1, content@));
            i += 1;
        }
        match self.check_comprehensive_compatibility(content) {
            Ok(r) => Some(r),
            Err(_) => None,
        }
    }

    /// The rules of Greenhouse, Lever, Workday and iCIMS.
    fn initialize_ats_rules(&mut self)
        ensures
            final(self)@ == default_rule_sets(),
            final(self).font_patterns == old(self).font_patterns,
            final(self).structure_patterns == old(self).structure_patterns,
            final(self).problematic_elements == old(self).problematic_elements,
    {
        let greenhouse = vec![
            new_rule(
                "table_usage",
                "<table|<tr>|<td>",
                25,
                "Greenhouse has difficulty parsing tables correctly",
                "Convert tables to plain text with clear formatting",
            ),
            new_rule(
                "special_characters",
                "[•★♦♣♠♥✓✗]",
                5,
                "Special characters may not display correctly",
                "Use standard bullet points and symbols",
            ),
        ];
        let lever = vec![
            new_rule(
                "text_boxes",
                "<textbox|text-box|textBox",
                20,
                "Lever often ignores content in text boxes",
                "Move all text to the main document body",
            ),
            new_rule(
                "complex_formatting",
                r"columns:\s*\d+|float:\s*(left|right)",
                15,
                "Complex layouts can confuse Lever's parser",
                "Use a single-column layout with simple formatting",
            ),
        ];
        let workday = vec![
            new_rule(
                "image_text",
                r"<img|\.jpg|\.png|\.gif",
                30,
                "Workday cannot extract text from images",
                "Ensure all text is in readable format, not embedded in images",
            ),
            new_rule(
                "font_issues",
                "(?i)(comic sans|papyrus|brush script)",
                10,
                "Non-standard fonts may not render correctly",
                "Use professional fonts like Arial, Calibri, or Times New Roman",
            ),
        ];
        let icims = vec![
            new_rule(
                "section_headers",
                "^(?!.*(?i)(experience|education|skills|summary))",
                15,
                "iCIMS relies heavily on clear section headers",
                "Use standard section headers that are clearly identifiable",
            ),
        ];
        assert(rule_views(greenhouse@) == default_rule_sets()[0].1);
        assert(rule_views(lever@) == default_rule_sets()[1].1);
        assert(rule_views(workday@) == default_rule_sets()[2].1);
        assert(rule_views(icims@) == default_rule_sets()[3].1);
        let sets = vec![
            ("greenhouse".to_owned(), greenhouse),
            ("lever".to_owned(), lever),
            ("workday".to_owned(), workday),
            ("icims".to_owned(), icims),
        ];
        assert(rule_sets_view(sets@) == default_rule_sets());
        self.ats_rules = sets;
    }

    /// The patterns for fonts, structure and problematic elements.
    fn initialize_patterns(&mut self)
        ensures
            final(self).ats_rules == old(self).ats_rules,
            string_views(final(self).font_patterns@) == font_pattern_list(),
            string_views(final(self).structure_patterns@) == structure_pattern_list(),
            string_views(final(self).problematic_elements@) == problematic_element_list(),
    {
        self.font_patterns = vec![
            r"(?i)font-family:\s*([a-zA-Z\s]+)".to_owned(),
            r"(?i)font:\s*[^;]*?([a-zA-Z\s]+);".to_owned(),
        ];
        self.structure_patterns = vec![
            r"(?i)^(experience|education|skills|summary|contact)".to_owned(),
            r"\n\s*([A-Z\s]{3,})\s*\n".to_owned(),
        ];
        self.problematic_elements = vec![
            r"<table".to_owned(),
            r"<img".to_owned(),
            r"text-box".to_owned(),
            r"position:\s*absolute".to_owned(),
        ];
        assert(string_views(self.font_patterns@) =~= font_pattern_list());
        assert(string_views(self.structure_patterns@) =~= structure_pattern_list());
        assert(string_views(self.problematic_elements@) =~= problematic_element_list());
    }

    /// A checker with the rules of Greenhouse, Lever, Workday and iCIMS.
    pub fn new() -> (res: Self)
        ensures
            res@ == default_rule_sets(),
    {
        let mut checker = FormatCompatibilityChecker {
            ats_rules: Vec::new(),
            font_patterns: Vec::new(),
            structure_patterns: Vec::new(),
            problematic_elements: Vec::new(),
        };
        checker.initialize_ats_rules();
        checker.initialize_patterns();
        checker
    }
}

impl Default for FormatCompatibilityChecker {
    fn default() -> (res: Self)
        ensures
            res@ == default_rule_sets(),
    {
        Self::new()
    }
}


/// Every system's score is a percentage: at most 100.
pub proof fn law_system_score_at_most_100(rules: Seq<RuleView>, content: Seq<char>)
    ensures
        system_score(rules, content) <= 100,
{
}

/// The scores of the systems add up to at most 100 for each system.
proof fn lemma_score_sum_bound(sets: RuleSetsView, content: Seq<char>)
    ensures
        score_sum(sets, content) <= 100 * sets.len(),
    decreases sets.len(),
{
    if sets.len() > 0 {
        lemma_score_sum_bound(sets.drop_last(), content);
    }
}

/// The overall score, in hundredths, is a percentage: at most 100.00.
pub proof fn law_overall_score_at_most_100(sets: RuleSetsView, content: Seq<char>)
    ensures
        overall_centi(sets, content) <= 10000,
{
    if sets.len() > 0 {
        lemma_score_sum_bound(sets, content);
        let n = sets.len();
        let sum = score_sum(sets, content);
        assert(sum * 100 <= 10000 * n) by (nonlinear_arith)
            requires
                sum <= 100 * n,
        ;
        assert(sum * 100 / n <= 10000) by (nonlinear_arith)
            requires
                sum * 100 <= 10000 * n,
                n > 0,
        ;
    }
}


/// Text-box markup is always reported: where one of the text-box patterns
/// ("<textbox", "text-box", "textBox", "floating.*text") matches, the
/// general problematic elements include a "text_boxes" issue of high
/// severity and impact 20.
pub proof fn law_text_boxes_reported(content: Seq<char>)
    requires
        pattern_matches("<textbox"@, content) || pattern_matches("text-box"@, content) || pattern_matches(
            "textBox"@,
            content,
        ) || pattern_matches("floating.*text"@, content),
    ensures
        exists|i: int|
            0 <= i < problematic_issues(content).len() && (#[trigger] problematic_issues(content)[i]).0
                == "text_boxes"@ && problematic_issues(content)[i].1 == "high"@ && problematic_issues(content)[i].5
                == 20,
{
    let ps = textbox_patterns();
    if pattern_matches("<textbox"@, content) {
        assert(pattern_matches(ps[0], content));
    } else if pattern_matches("text-box"@, content) {
        assert(pattern_matches(ps[1], content));
    } else if pattern_matches("textBox"@, content) {
        assert(pattern_matches(ps[2], content));
    } else {
        assert(pattern_matches(ps[3], content));
    }
    assert(any_matches(ps, content));
    let t: int = if any_matches(table_patterns(), content) { 1 } else { 0 };
    let all = problematic_issues(content);
    assert(all[t].0 == "text_boxes"@ && all[t].1 == "high"@ && all[t].5 == 20);
}

proof fn lemma_impact_total_at_least(issues: Seq<FormatIssueView>, i: int)
    requires
        0 <= i < issues.len(),
    ensures
        impact_total(issues) >= issues[i].5,
    decreases issues.len(),
{
    if i < issues.len() - 1 {
        lemma_impact_total_at_least(issues.drop_last(), i);
    }
}

/// A text box costs the overall score its 20 points: where a text-box
/// pattern matches, the overall score (in hundredths) is at least 2000
/// below the mean of the systems' scores, or 0.
pub proof fn law_text_boxes_lower_overall(sets: RuleSetsView, content: Seq<char>)
    requires
        sets.len() > 0,
        pattern_matches("<textbox"@, content) || pattern_matches("text-box"@, content) || pattern_matches(
            "textBox"@,
            content,
        ) || pattern_matches("floating.*text"@, content),
    ensures
        overall_centi(sets, content) == 0 || overall_centi(sets, content) + 2000 <= score_sum(sets, content) * 100
            / sets.len(),
{
    law_text_boxes_reported(content);
    let all = problematic_issues(content);
    let i = choose|i: int|
        0 <= i < all.len() && (#[trigger] all[i]).0 == "text_boxes"@ && all[i].1 == "high"@ && all[i].5 == 20;
    lemma_impact_total_at_least(all, i);
}

} // verus!
