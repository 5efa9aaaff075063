//! Resume document parsing: file types, text extraction and cleaning,
//! section detection and document structure.
use vstd::prelude::*;
use crate::text::{
    chars_of, str_eq, string_from_chars, trim, trim_chars, trim_start, trim_start_chars, byte_len, byte_len_below, contains,
    contains_chars, word_count, count_words_chars, is_ws, is_whitespace_char,
};
use crate::text::{lines, lines_of, views, join, join_chars, opt_view, occurs_at};
use crate::unicode::{upper, alpha, lowercase, is_uppercase, is_alphabetic, to_lowercase};
use crate::pattern::{first_match, pattern_matches, find, is_match, replaced, replace_all};
use crate::text::{replace, replace_chars};
use crate::unicode::{lossy_utf8, utf8_decode, utf8_decode_lossy};
use crate::formats::{
    XmlEvent, ZipEntryError, zip_entry_text, encoding_utf8_decode, xml_events_of,
    read_zip_entry, decode_with_encoding_rs, read_xml_events,
};
use vstd::utf8::{valid_utf8, decode_utf8, encode_utf8};
use crate::text::{starts_with, words, words_of, word_bytes};

verus! {

/// What `std::path::Path::file_name` gives for the path `p`, as text.
pub uninterp spec fn path_file_name(p: Seq<char>) -> Option<Seq<char>>;

/// What `mime_guess::from_path(p).first_or_octet_stream()` gives, as text.
pub uninterp spec fn guessed_mime(p: Seq<char>) -> Seq<char>;

/// Calls `Path::new(p).file_name()` and converts the name to text. The
/// result is named; nothing more is stated.
#[verifier::external_body]
fn file_name_of(p: &str) -> (res: Option<String>)
    ensures
        match res {
            Some(e) => path_file_name(p@) == Some(e@),
            None => path_file_name(p@) is None,
        },
{
    std::path::Path::new(p).file_name().and_then(|e| e.to_str()).map(|e| e.to_string())
}

/// Calls `mime_guess::from_path(p).first_or_octet_stream()` and converts
/// the MIME type to text. The result is named; nothing more is stated.
#[verifier::external_body]
fn guess_mime_type(p: &str) -> (res: String)
    ensures
        res@ == guessed_mime(p@),
{
    mime_guess::from_path(p).first_or_octet_stream().as_ref().to_string()
}

/// What `std::path::Path::extension` gives for the path `p`, as text.
pub uninterp spec fn path_extension(p: Seq<char>) -> Option<Seq<char>>;

/// Calls `Path::new(p).extension()` and converts the extension to text.
/// The result is named; nothing more is stated.
#[verifier::external_body]
fn file_extension(p: &str) -> (res: Option<String>)
    ensures
        match res {
            Some(e) => path_extension(p@) == Some(e@),
            None => path_extension(p@) is None,
        },
{
    std::path::Path::new(p).extension().and_then(|e| e.to_str()).map(|e| e.to_string())
}

/// The file type for a MIME type; unknown types are treated as text.
pub open spec fn file_type_for_mime(m: Seq<char>) -> Seq<char> {
    if m == "application/pdf"@ {
        "pdf"@
    } else if m == "application/vnd.openxmlformats-officedocument.wordprocessingml.document"@ {
        "docx"@
    } else if m == "application/msword"@ {
        "doc"@
    } else {
        "txt"@
    }
}

/// The file type for a (lowercased) file extension; unknown extensions are
/// treated as text.
pub open spec fn file_type_for_extension(e: Seq<char>) -> Seq<char> {
    if e == "pdf"@ {
        "pdf"@
    } else if e == "docx"@ {
        "docx"@
    } else if e == "doc"@ {
        "doc"@
    } else {
        "txt"@
    }
}

/// The file type of a file name, from its extension.
pub open spec fn file_type_for_filename(f: Seq<char>) -> Seq<char> {
    match path_extension(f) {
        Some(e) => file_type_for_extension(lowercase(e)),
        None => file_type_for_extension(lowercase(Seq::empty())),
    }
}

/// Whether a file type may be parsed.
pub open spec fn allowed_file_type(t: Seq<char>) -> bool {
    t == "pdf"@ || t == "docx"@ || t == "doc"@ || t == "txt"@
}

/// Header words that mark a resume section.
pub open spec fn header_words() -> Seq<Seq<char>> {
    seq![
        "experience"@,
        "education"@,
        "skills"@,
        "summary"@,
        "objective"@,
        "work experience"@,
        "professional experience"@,
        "academic background"@,
        "technical skills"@,
        "core competencies"@,
        "employment"@,
        "qualifications"@,
    ]
}

/// The `k`-th header word.
fn header_word(k: usize) -> (res: &'static str)
    requires
        k < 12,
    ensures
        res@ == header_words()[k as int],
{
    match k {
        0 => "experience",
        1 => "education",
        2 => "skills",
        3 => "summary",
        4 => "objective",
        5 => "work experience",
        6 => "professional experience",
        7 => "academic background",
        8 => "technical skills",
        9 => "core competencies",
        10 => "employment",
        _ => "qualifications",
    }
}

/// Whether every letter of `s` is uppercase.
pub open spec fn all_caps(s: Seq<char>) -> bool {
    forall|i: int| 0 <= i < s.len() ==> upper(#[trigger] s[i]) || !alpha(s[i])
}

/// Whether a line looks like a section header: it names a common section
/// and is shorter than 50 bytes, or it is in capitals and shorter than 30
/// bytes.
pub open spec fn is_section_header_line(line: Seq<char>) -> bool {
    ||| (exists|k: int| 0 <= k < 12 && contains(lowercase(line), #[trigger] header_words()[k]))
        && byte_len(line) < 50
    ||| all_caps(line) && byte_len(line) < 30
}

/// Whether every letter of `v` is uppercase.
fn all_caps_chars(v: &[char]) -> (res: bool)
    ensures
        res == all_caps(v@),
{
    let mut i: usize = 0;
    while i < v.len()
        invariant
            i <= v.len(),
            forall|j: int| 0 <= j < i ==> upper(#[trigger] v@[j]) || !alpha(v@[j]),
        decreases v.len() - i,
    {
        if !(is_uppercase(v[i]) || !is_alphabetic(v[i])) {
            return false;
        }
        i += 1;
    }
    true
}

/// Whether every word of `s` starts with an uppercase letter.
pub open spec fn words_capitalized(s: Seq<char>) -> bool {
    forall|i: int|
        0 <= i < s.len() && !is_ws(#[trigger] s[i]) && (i == 0 || is_ws(s[i - 1])) ==> upper(s[i])
}

/// The heading level of a line: 1 when in capitals, 2 when every word is
/// capitalized, 3 otherwise.
pub open spec fn heading_level(s: Seq<char>) -> u8 {
    if all_caps(s) {
        1
    } else if words_capitalized(s) {
        2
    } else {
        3
    }
}

/// Whether `c` has a meaning in a regular expression.
pub open spec fn is_meta_char(c: char) -> bool {
    c == '\\' || c == '.' || c == '+' || c == '*' || c == '?' || c == '(' || c == ')' || c
        == '|' || c == '[' || c == ']' || c == '{' || c == '}' || c == '^' || c == '$' || c
        == '#' || c == '&' || c == '-' || c == '~'
}

/// `s` with a backslash before every meta character (`regex::escape`).
pub open spec fn escape(s: Seq<char>) -> Seq<char>
    decreases s.len(),
{
    if s.len() == 0 {
        Seq::empty()
    } else {
        escape(s.drop_last()) + if is_meta_char(s.last()) {
            seq!['\\', s.last()]
        } else {
            seq![s.last()]
        }
    }
}

/// `v` with a backslash before every meta character.
pub fn escape_chars(v: &[char]) -> (res: Vec<char>)
    ensures
        res@ == escape(v@),
{
    let mut out: Vec<char> = Vec::new();
    let mut i: usize = 0;
    while i < v.len()
        invariant
            i <= v.len(),
            out@ == escape(v@.take(i as int)),
        decreases v.len() - i,
    {
        let c = v[i];
        assert(v@.take(i + 1).drop_last() == v@.take(i as int));
        if c == '\\' || c == '.' || c == '+' || c == '*' || c == '?' || c == '(' || c == ')' || c
            == '|' || c == '[' || c == ']' || c == '{' || c == '}' || c == '^' || c == '$' || c
            == '#' || c == '&' || c == '-' || c == '~' {
            out.push('\\');
        }
        out.push(c);
        i += 1;
    }
    assert(v@.take(v.len() as int) == v@);
    out
}

/// The case-insensitive pattern of a line that contains `header`.
pub open spec fn header_pattern(header: Seq<char>) -> Seq<char> {
    "(?i)^.*"@ + escape(header) + ".*$"@
}

/// The trimmed non-empty lines of a section whose body starts at line `j`,
/// up to the next section header.
pub open spec fn section_lines(ls: Seq<Seq<char>>, j: int) -> Seq<Seq<char>>
    decreases ls.len() - j,
{
    if j < 0 || j >= ls.len() {
        Seq::empty()
    } else if is_section_header_line(trim(ls[j])) {
        Seq::empty()
    } else {
        let t = trim(ls[j]);
        (if t.len() > 0 {
            seq![t]
        } else {
            Seq::<Seq<char>>::empty()
        }) + section_lines(ls, j + 1)
    }
}

/// The index of the line that ends a section whose body starts at line `j`.
pub open spec fn section_end(ls: Seq<Seq<char>>, j: int) -> int
    decreases ls.len() - j,
{
    if j < 0 || j >= ls.len() {
        if j < 0 { j } else { ls.len() as int }
    } else if is_section_header_line(trim(ls[j])) {
        j
    } else {
        section_end(ls, j + 1)
    }
}

/// The body of the first section, in the order of `hs` and then of the
/// lines, whose header line matches one of `hs` and whose body is not empty.
pub open spec fn find_section(ls: Seq<Seq<char>>, hs: Seq<Seq<char>>, h: int, i: int) -> Option<
    Seq<char>,
>
    decreases hs.len() - h, ls.len() - i,
{
    if h < 0 || h >= hs.len() || i < 0 {
        None
    } else if i >= ls.len() {
        find_section(ls, hs, h + 1, 0)
    } else if pattern_matches(header_pattern(hs[h]), ls[i]) && section_lines(ls, i + 1).len() > 0 {
        Some(join(section_lines(ls, i + 1), "\n"@))
    } else {
        find_section(ls, hs, h, i + 1)
    }
}

/// The body of the section of `content` introduced by one of `hs`.
pub open spec fn section_of(content: Seq<char>, hs: Seq<Seq<char>>) -> Option<Seq<char>> {
    find_section(lines(content), hs, 0, 0)
}

/// The views of a slice of string slices.
pub open spec fn str_views(v: Seq<&str>) -> Seq<Seq<char>> {
    v.map_values(|s: &str| s@)
}

/// Contact details found in a resume.
#[derive(Debug, Clone, Default)]
pub struct ContactInfo {
    pub email: Option<String>,
    pub phone: Option<String>,
    pub linkedin: Option<String>,
}

/// Pattern of an e-mail address.
pub open spec fn email_pattern() -> Seq<char> {
    r"\b[A-Za-z0-9._%+-]+@[A-Za-z0-9.-]+\.[A-Z|a-z]{2,}\b"@
}

/// Pattern of a phone number.
pub open spec fn phone_pattern() -> Seq<char> {
    r"(\+?1[-.\s]?)?\(?([0-9]{3})\)?[-.\s]?([0-9]{3})[-.\s]?([0-9]{4})"@
}

/// Pattern of a LinkedIn profile address.
pub open spec fn linkedin_pattern() -> Seq<char> {
    r"(?:linkedin\.com/in/|linkedin\.com/pub/)([A-Za-z0-9-]+)"@
}

/// The sections of a resume.
#[derive(Debug, Clone)]
pub struct ResumeStructure {
    pub contact_info: ContactInfo,
    pub summary: Option<String>,
    pub experience: Option<String>,
    pub education: Option<String>,
    pub skills: Option<String>,
}

impl ResumeStructure {
    /// A structure with no contact details and no sections.
    pub fn new() -> (res: Self)
        ensures
            res.contact_info.email is None,
            res.contact_info.phone is None,
            res.contact_info.linkedin is None,
            res.summary is None,
            res.experience is None,
            res.education is None,
            res.skills is None,
    {
        ResumeStructure {
            contact_info: ContactInfo { email: None, phone: None, linkedin: None },
            summary: None,
            experience: None,
            education: None,
            skills: None,
        }
    }
}

/// Header words of the experience section.
pub open spec fn experience_headers() -> Seq<Seq<char>> {
    seq![
        "experience"@,
        "work experience"@,
        "professional experience"@,
        "employment"@,
        "career history"@,
        "work history"@,
    ]
}

/// Header words of the education section.
pub open spec fn education_headers() -> Seq<Seq<char>> {
    seq!["education"@, "academic background"@, "qualifications"@, "degrees"@]
}

/// Header words of the skills section.
pub open spec fn skills_headers() -> Seq<Seq<char>> {
    seq![
        "skills"@,
        "technical skills"@,
        "core competencies"@,
        "expertise"@,
        "proficiencies"@,
        "technologies"@,
    ]
}

/// Header words of the summary section.
pub open spec fn summary_headers() -> Seq<Seq<char>> {
    seq!["summary"@, "profile"@, "objective"@, "about"@, "overview"@]
}

/// The first five lines of `content`, joined by newlines; blank space
/// before the first line does not count.
pub open spec fn top_lines(content: Seq<char>) -> Seq<char> {
    let ls = lines(trim_start(content));
    join(ls.take(if ls.len() < 5 { ls.len() as int } else { 5 }), "\n"@)
}

/// Contact details of a document.
#[derive(Debug, Clone, Default)]
pub struct DocumentContactInfo {
    pub email: Option<String>,
    pub phone: Option<String>,
    pub linkedin: Option<String>,
}

/// Formatting of a heading, as far as plain text shows it.
#[derive(Debug, Clone)]
pub struct HeadingFormatting {
    pub is_bold: bool,
    pub is_uppercase: bool,
    /// Font size relative to body text, in hundredths; plain text never has it.
    pub font_size_relative: Option<u32>,
    pub alignment: Option<String>,
}

/// A heading line of a document.
#[derive(Debug, Clone)]
pub struct DocumentHeading {
    pub text: String,
    pub level: u8,
    /// Byte offset of the heading's line in the document.
    pub position: usize,
    pub formatting: HeadingFormatting,
}

/// A section of a document.
#[derive(Debug, Clone)]
pub struct DocumentSection {
    pub name: String,
    pub content: String,
    pub start_position: usize,
    pub end_position: usize,
    /// Confidence of the detection, in percent.
    pub confidence: u8,
    pub bullet_points: Vec<String>,
}

/// The structure of a document: sections, contact details and headings.
#[derive(Debug, Clone)]
pub struct DocumentStructure {
    pub sections: Vec<DocumentSection>,
    pub contact_info: DocumentContactInfo,
    pub headings: Vec<DocumentHeading>,
    pub total_sections: usize,
    pub has_consistent_formatting: bool,
}

/// Whether a line is a bullet point.
pub open spec fn is_bullet(l: Seq<char>) -> bool {
    starts_with(l, "\u{2022}"@) || starts_with(l, "- "@) || starts_with(l, "* "@)
}

/// The bullet points among `ls`.
pub open spec fn bullet_lines(ls: Seq<Seq<char>>) -> Seq<Seq<char>>
    decreases ls.len(),
{
    if ls.len() == 0 {
        Seq::empty()
    } else {
        bullet_lines(ls.drop_last()) + if is_bullet(ls.last()) {
            seq![ls.last()]
        } else {
            Seq::<Seq<char>>::empty()
        }
    }
}

/// The bullet points among the trimmed lines of `ls`.
pub open spec fn trimmed_bullet_lines(ls: Seq<Seq<char>>) -> Seq<Seq<char>>
    decreases ls.len(),
{
    if ls.len() == 0 {
        Seq::empty()
    } else {
        trimmed_bullet_lines(ls.drop_last()) + if is_bullet(trim(ls.last())) {
            seq![trim(ls.last())]
        } else {
            Seq::<Seq<char>>::empty()
        }
    }
}

/// Whether line `i` of `ls` is a heading.
pub open spec fn is_heading_at(ls: Seq<Seq<char>>, i: int) -> bool {
    trim(ls[i]).len() > 0 && is_section_header_line(trim(ls[i]))
}

/// Indices of the heading lines among the first `n` lines.
pub open spec fn heading_lines(ls: Seq<Seq<char>>, n: int) -> Seq<int>
    decreases n,
{
    if n <= 0 {
        Seq::empty()
    } else {
        heading_lines(ls, n - 1) + if is_heading_at(ls, n - 1) {
            seq![n - 1]
        } else {
            Seq::<int>::empty()
        }
    }
}

/// Indices of the heading lines among the first `n` lines that have a
/// non-empty section body below them.
pub open spec fn section_heads(ls: Seq<Seq<char>>, n: int) -> Seq<int>
    decreases n,
{
    if n <= 0 {
        Seq::empty()
    } else {
        section_heads(ls, n - 1) + if is_heading_at(ls, n - 1) && section_lines(ls, n).len() > 0 {
            seq![n - 1]
        } else {
            Seq::<int>::empty()
        }
    }
}

/// Byte offset of line `i`: each earlier line counts its length plus one
/// for its line break (wrapping around as release arithmetic does).
pub open spec fn line_position(ls: Seq<Seq<char>>, i: int) -> usize
    decreases i,
{
    if i <= 0 {
        0
    } else {
        line_position(ls, i - 1).wrapping_add((encode_utf8(ls[i - 1]).len() as usize)).wrapping_add(1)
    }
}

/// Whether `h` is the heading of line `i` of `ls`.
pub open spec fn heading_matches(h: DocumentHeading, ls: Seq<Seq<char>>, i: int) -> bool {
    &&& h.text@ == trim(ls[i])
    &&& h.level == heading_level(trim(ls[i]))
    &&& h.position == line_position(ls, i)
    &&& h.formatting.is_bold == false
    &&& h.formatting.is_uppercase == all_caps(trim(ls[i]))
    &&& h.formatting.font_size_relative is None
    &&& h.formatting.alignment is None
}

/// Whether `s` is the section under the heading on line `i` of `ls`.
pub open spec fn section_matches(s: DocumentSection, ls: Seq<Seq<char>>, i: int) -> bool {
    &&& s.name@ == trim(ls[i])
    &&& s.content@ == join(section_lines(ls, i + 1), "\n"@)
    &&& s.start_position == i
    &&& s.end_position == section_end(ls, i + 1)
    &&& s.confidence == 80
    &&& string_views(s.bullet_points@) == bullet_lines(section_lines(ls, i + 1))
}

/// The views of a sequence of strings.
pub open spec fn string_views(v: Seq<String>) -> Seq<Seq<char>> {
    v.map_values(|s: String| s@)
}

/// The names and header words of the common resume sections.
pub open spec fn common_section_kinds() -> Seq<(Seq<char>, Seq<Seq<char>>)> {
    seq![
        ("Experience"@, experience_headers()),
        ("Education"@, education_headers()),
        ("Skills"@, skills_headers()),
        ("Summary"@, summary_headers()),
    ]
}

/// Whether `s` is the common section of kind `kind`, found in `content`.
pub open spec fn common_section_matches(s: DocumentSection, content: Seq<char>, kind: (Seq<char>, Seq<Seq<char>>)) -> bool {
    &&& section_of(content, kind.1) is Some
    &&& s.name@ == kind.0
    &&& s.content@ == section_of(content, kind.1)->Some_0
    &&& s.start_position == 0
    &&& s.end_position == 0
    &&& s.confidence == 70
    &&& string_views(s.bullet_points@) == trimmed_bullet_lines(lines(section_of(content, kind.1)->Some_0))
}

/// The kinds of common sections, among the first `n`, found in `content`.
pub open spec fn common_sections_found(content: Seq<char>, n: int) -> Seq<(Seq<char>, Seq<Seq<char>>)>
    decreases n,
{
    if n <= 0 || n > 4 {
        Seq::empty()
    } else {
        common_sections_found(content, n - 1) + if section_of(content, common_section_kinds()[n - 1].1) is Some {
            seq![common_section_kinds()[n - 1]]
        } else {
            Seq::<(Seq<char>, Seq<Seq<char>>)>::empty()
        }
    }
}

/// Whether the headings share their formatting.
pub open spec fn consistent_formatting(hs: Seq<DocumentHeading>) -> bool {
    hs.len() < 2 || forall|k: int|
        0 <= k < hs.len() ==> (#[trigger] hs[k]).formatting.is_uppercase
            == hs[0].formatting.is_uppercase && hs[k].formatting.is_bold == hs[0].formatting.is_bold
}

/// Kinds of document issues.
#[derive(Debug, Clone, Copy, PartialEq, Eq, Structural)]
pub enum DocumentIssueType {
    Formatting,
    Structure,
    Content,
    AtsCompatibility,
    ContactInfo,
    Spelling,
    Grammar,
}

/// Severity of a document issue.
#[derive(Debug, Clone, Copy, PartialEq, Eq, Structural)]
pub enum IssueSeverity {
    Low,
    Medium,
    High,
    Critical,
}

/// An issue found in a document.
#[derive(Debug, Clone)]
pub struct DocumentIssue {
    pub issue_type: DocumentIssueType,
    pub description: String,
    pub severity: IssueSeverity,
    pub location: Option<String>,
    pub suggestion: Option<String>,
}

/// The content of an issue: kind, description, severity, location and suggestion.
pub type IssueView = (DocumentIssueType, Seq<char>, IssueSeverity, Option<Seq<char>>, Option<Seq<char>>);

/// The content of an issue.
pub open spec fn issue_view(i: DocumentIssue) -> IssueView {
    (i.issue_type, i.description@, i.severity, opt_view(i.location), opt_view(i.suggestion))
}

/// The contents of a sequence of issues.
pub open spec fn issue_views(v: Seq<DocumentIssue>) -> Seq<IssueView> {
    v.map_values(|i: DocumentIssue| issue_view(i))
}

/// The integer components of the quality of a document; the weighted
/// overall score is computed from them by the application.
#[derive(Debug, Clone)]
pub struct DocumentQualityMetrics {
    /// ATS compatibility, 0 to 100.
    pub ats_compatibility_score: u32,
    /// Readability, 80, 90 or 100 (50 for a document without words).
    pub readability_score: u32,
    /// 90 with consistent heading formatting, 60 otherwise.
    pub formatting_consistency_score: u32,
    /// Words that contain a professional keyword.
    pub keyword_count: usize,
    /// All words of the document.
    pub total_words: usize,
    /// Number of the three essential sections found.
    pub sections_found: usize,
    /// Contact completeness, 0 to 100 in steps of 25.
    pub contact_info_completeness: u32,
    /// The overall quality score times 300: the weighted mean of ATS
    /// compatibility (0.3), readability (0.2), formatting (0.15), section
    /// completeness (0.2, as a percentage of the three sections) and contact
    /// completeness (0.15).
    pub overall_quality_x300: u32,
    pub issues: Vec<DocumentIssue>,
    pub recommendations: Vec<String>,
}

/// Whether some line of `content` holds a tab.
pub open spec fn has_tab_line(content: Seq<char>) -> bool {
    exists|k: int| 0 <= k < lines(content).len() && contains(#[trigger] lines(content)[k], "\t"@)
}

/// The ATS compatibility score: 100, less 10 for tabs, 20 for missing
/// headings and 15 for a missing e-mail address.
pub open spec fn ats_score(content: Seq<char>, no_headings: bool, no_email: bool) -> u32 {
    (100 - (if has_tab_line(content) { 10int } else { 0 }) - (if no_headings { 20int } else { 0 }) - (
    if no_email { 15int } else { 0 })) as u32
}

/// The issue of tab characters.
pub open spec fn tab_issue() -> IssueView {
    (
        DocumentIssueType::AtsCompatibility,
        "Document contains tab characters which may cause parsing issues"@,
        IssueSeverity::Medium,
        None,
        Some("Replace tabs with spaces for better ATS compatibility"@),
    )
}

/// The issue of missing section headers.
pub open spec fn headers_issue() -> IssueView {
    (
        DocumentIssueType::Structure,
        "No clear section headers detected"@,
        IssueSeverity::High,
        None,
        Some("Add clear section headers like 'EXPERIENCE', 'EDUCATION', etc."@),
    )
}

/// The issue of a missing e-mail address, as the ATS check reports it.
pub open spec fn ats_email_issue() -> IssueView {
    (
        DocumentIssueType::ContactInfo,
        "No email address found"@,
        IssueSeverity::High,
        Some("Header"@),
        Some("Include a professional email address in the header"@),
    )
}

/// The issues that the ATS check reports.
pub open spec fn ats_issues(content: Seq<char>, no_headings: bool, no_email: bool) -> Seq<IssueView> {
    (if has_tab_line(content) { seq![tab_issue()] } else { Seq::empty() }) + (if no_headings {
        seq![headers_issue()]
    } else {
        Seq::empty()
    }) + (if no_email { seq![ats_email_issue()] } else { Seq::empty() })
}

/// The issue of a missing e-mail address, as the contact check reports it.
pub open spec fn missing_email_issue() -> IssueView {
    (
        DocumentIssueType::ContactInfo,
        "Missing email address"@,
        IssueSeverity::High,
        Some("Header"@),
        Some("Add a professional email address"@),
    )
}

/// The issue of a missing phone number.
pub open spec fn missing_phone_issue() -> IssueView {
    (
        DocumentIssueType::ContactInfo,
        "Missing phone number"@,
        IssueSeverity::Medium,
        Some("Header"@),
        Some("Add a phone number for direct contact"@),
    )
}

/// Contact completeness in percent: the e-mail address weighs two, the
/// phone number and the LinkedIn profile one each, out of four.
pub open spec fn contact_score(c: DocumentContactInfo) -> u32 {
    (25 * ((if c.email is Some { 2int } else { 0 }) + (if c.phone is Some { 1int } else { 0 }) + (
    if c.linkedin is Some { 1int } else { 0 }))) as u32
}

/// The number of sentence separators (`.`, `!`, `?`) in `s`.
pub open spec fn separator_count(s: Seq<char>) -> nat
    decreases s.len(),
{
    if s.len() == 0 {
        0
    } else {
        separator_count(s.drop_last()) + if s.last() == '.' || s.last() == '!' || s.last() == '?' {
            1nat
        } else {
            0nat
        }
    }
}

/// Readability: 50 without words; else the mean of a sentence score (100
/// when sentences average strictly between 15 and 25 words, else 80) and a
/// word score (100 when words average strictly between 4 and 7 bytes, else
/// 80). A text has one sentence more than it has separators.
pub open spec fn readability(s: Seq<char>) -> u32 {
    let w = words(s).len();
    let n = separator_count(s) + 1;
    let b = word_bytes(s);
    if w == 0 {
        50
    } else {
        let ss: int = if 15 * n < w && w < 25 * n { 100 } else { 80 };
        let ws: int = if 4 * w < b && b < 7 * w { 100 } else { 80 };
        ((ss + ws) / 2) as u32
    }
}

/// Professional keywords counted by the keyword density.
pub open spec fn professional_keywords() -> Seq<Seq<char>> {
    seq![
        "experience"@,
        "developed"@,
        "managed"@,
        "led"@,
        "created"@,
        "implemented"@,
        "designed"@,
        "coordinated"@,
        "analyzed"@,
        "improved"@,
    ]
}

/// Whether a word, lowercased, holds a professional keyword.
pub open spec fn is_keyword_word(w: Seq<char>) -> bool {
    exists|k: int| 0 <= k < 10 && contains(lowercase(w), #[trigger] professional_keywords()[k])
}

/// The number of words among `ws` that hold a professional keyword.
pub open spec fn keyword_word_count(ws: Seq<Seq<char>>) -> nat
    decreases ws.len(),
{
    if ws.len() == 0 {
        0
    } else {
        keyword_word_count(ws.drop_last()) + if is_keyword_word(ws.last()) { 1nat } else { 0nat }
    }
}

/// The essential sections.
pub open spec fn essential_sections() -> Seq<Seq<char>> {
    seq!["experience"@, "education"@, "skills"@]
}

/// Whether some section name, lowercased, holds `e`.
pub open spec fn has_section_named(secs: Seq<DocumentSection>, e: Seq<char>) -> bool {
    exists|j: int| 0 <= j < secs.len() && contains(lowercase((#[trigger] secs[j]).name@), e)
}

/// The essential sections, among the first `n`, missing from `secs`.
pub open spec fn missing_sections(secs: Seq<DocumentSection>, n: int) -> Seq<Seq<char>>
    decreases n,
{
    if n <= 0 || n > 3 {
        Seq::empty()
    } else {
        missing_sections(secs, n - 1) + if has_section_named(secs, essential_sections()[n - 1]) {
            Seq::<Seq<char>>::empty()
        } else {
            seq![essential_sections()[n - 1]]
        }
    }
}

/// The recommendation to add a missing section.
pub open spec fn add_section_recommendation(e: Seq<char>) -> Seq<char> {
    "Consider adding a "@ + e + " section"@
}

/// Whether `res` is the structure of `content`: its heading lines, the
/// sections under them (or, when there are none, the common resume
/// sections), and the contact details of its first five lines.
pub open spec fn is_structure_of(content: Seq<char>, res: DocumentStructure) -> bool {
    let ls = lines(content);
    let hl = heading_lines(ls, ls.len() as int);
    let sl = section_heads(ls, ls.len() as int);
    let common = common_sections_found(content, 4);
    &&& opt_view(res.contact_info.email) == first_match(email_pattern(), top_lines(content))
    &&& opt_view(res.contact_info.phone) == first_match(phone_pattern(), top_lines(content))
    &&& opt_view(res.contact_info.linkedin) == first_match(linkedin_pattern(), top_lines(content))
    &&& res.headings.len() == hl.len()
    &&& forall|k: int|
        0 <= k < hl.len() ==> heading_matches(#[trigger] res.headings@[k], ls, hl[k])
    &&& sl.len() > 0 ==> res.sections.len() == sl.len() && forall|k: int|
        0 <= k < sl.len() ==> section_matches(#[trigger] res.sections@[k], ls, sl[k])
    &&& sl.len() == 0 ==> res.sections.len() == common.len() && forall|k: int|
        0 <= k < res.sections.len() ==> common_section_matches(
            #[trigger] res.sections@[k],
            content,
            common[k],
        )
    &&& res.total_sections == res.sections.len()
    &&& res.has_consistent_formatting == consistent_formatting(res.headings@)
}

/// Whether `res` holds the quality components of `content` with `structure`.
pub open spec fn is_quality_of(
    content: Seq<char>,
    structure: DocumentStructure,
    res: DocumentQualityMetrics,
) -> bool {
    let no_headings = structure.headings.len() == 0;
    let no_email = structure.contact_info.email is None;
    &&& res.ats_compatibility_score == ats_score(content, no_headings, no_email)
    &&& res.readability_score == readability(content)
    &&& res.formatting_consistency_score == if structure.has_consistent_formatting {
        90u32
    } else {
        60u32
    }
    &&& res.keyword_count == keyword_word_count(words(content))
    &&& res.total_words == words(content).len()
    &&& res.sections_found + missing_sections(structure.sections@, 3).len() == 3
    &&& res.contact_info_completeness == contact_score(structure.contact_info)
    &&& res.overall_quality_x300 == 90 * res.ats_compatibility_score + 60 * res.readability_score + 45
        * res.formatting_consistency_score + 2000 * res.sections_found + 45
        * res.contact_info_completeness
    &&& issue_views(res.issues@) == ats_issues(content, no_headings, no_email) + (if no_email {
        seq![missing_email_issue()]
    } else {
        Seq::empty()
    }) + (if structure.contact_info.phone is None {
        seq![missing_phone_issue()]
    } else {
        Seq::empty()
    })
    &&& string_views(res.recommendations@) == missing_sections(structure.sections@, 3).map_values(
        |e: Seq<char>| add_section_recommendation(e),
    ) + (if res.readability_score < 100 {
        seq![readability_recommendation()]
    } else {
        Seq::empty()
    }) + (if structure.has_consistent_formatting {
        Seq::empty()
    } else {
        seq![formatting_recommendation()]
    })
}

/// The recommendation made when sentences or words stray from the lengths
/// that read best.
pub open spec fn readability_recommendation() -> Seq<char> {
    "Improve readability: aim for sentences of 15 to 25 words and words of 4 to 7 letters"@
}

/// The recommendation made when the section headings are formatted
/// differently.
pub open spec fn formatting_recommendation() -> Seq<char> {
    "Use the same capitalization and emphasis for every section heading"@
}

/// The text a PDF reader gave: its text when it read the file, `None` when
/// it failed or was not run.
pub open spec fn pdf_reading_text(pdf_reading: Option<Result<String, String>>) -> Option<Seq<char>> {
    match pdf_reading {
        Some(Ok(t)) => Some(t@),
        _ => None,
    }
}

/// The raw text of a document of type `ft`, given what the PDF reader made
/// of it: `None` when the format's reader fails or the type is not
/// supported.
pub open spec fn raw_text(ft: Seq<char>, bs: Seq<u8>, pdf_reading: Option<Result<String, String>>) -> Option<Seq<char>> {
    if ft == "pdf"@ {
        pdf_reading_text(pdf_reading)
    } else if ft == "docx"@ {
        docx_file_text(bs)
    } else if ft == "doc"@ {
        Some(legacy_doc_text(bs))
    } else if ft == "txt"@ {
        Some(plain_text_of(bs))
    } else {
        None
    }
}

/// A parsed document: its type, size, cleaned text, counts, structure and
/// quality components.
#[derive(Debug, Clone)]
pub struct ParsedDocument {
    pub filename: String,
    pub file_type: String,
    pub size: usize,
    pub content: String,
    pub word_count: usize,
    pub character_count: usize,
    pub structure: DocumentStructure,
    pub quality_metrics: DocumentQualityMetrics,
}

/// Whether `doc` is what parsing the bytes `bs` as a document of type `ft`
/// named `name` gives.
pub open spec fn is_parsed_document(
    doc: ParsedDocument,
    name: Seq<char>,
    ft: Seq<char>,
    bs: Seq<u8>,
    pdf_reading: Option<Result<String, String>>,
) -> bool {
    &&& raw_text(ft, bs, pdf_reading) is Some
    &&& doc.filename@ == name
    &&& doc.file_type@ == ft
    &&& doc.size == bs.len()
    &&& doc.content@ == clean_text_spec(raw_text(ft, bs, pdf_reading)->Some_0)
    &&& doc.word_count == word_count(doc.content@)
    &&& doc.character_count == doc.content@.len()
    &&& is_structure_of(doc.content@, doc.structure)
    &&& is_quality_of(doc.content@, doc.structure, doc.quality_metrics)
}

/// Errors of document parsing.
#[derive(Debug, Clone, PartialEq, Eq)]
pub enum DocumentError {
    /// No readable text was found in a legacy Word document.
    NoReadableText,
    /// The PDF could not be read; the message of the PDF reader.
    Pdf(String),
    /// The DOCX file is not a ZIP archive.
    DocxNotAnArchive(String),
    /// The DOCX archive has no `word/document.xml`.
    DocxMissingDocument(String),
    /// `word/document.xml` could not be read.
    DocxUnreadable(String),
    /// Text of the document XML could not be decoded.
    XmlText(String),
    /// The document XML is malformed.
    Xml(String),
    /// The file type is not one of the supported document formats.
    UnsupportedFileType(String),
}

/// Text cleaning: runs of whitespace within a line become one space, control
/// characters are removed, line breaks are normalized and at most two in a
/// row are kept; then surrounding whitespace is removed.
pub open spec fn clean_text_spec(t: Seq<char>) -> Seq<char> {
    let a = replaced(r"[^\S\r\n]+"@, t, " "@);
    let b = replaced(r"[\x00-\x08\x0B\x0C\x0E-\x1F\x7F]"@, a, ""@);
    let c = replaced(r"\r\n|\r"@, b, "\n"@);
    let d = replaced(r"\n{3,}"@, c, "\n\n"@);
    trim(d)
}

/// Text of a legacy Word document with common artifacts removed, then
/// cleaned.
pub open spec fn clean_doc_text_spec(t: Seq<char>) -> Seq<char> {
    let a = replace(t, "Microsoft Word"@, ""@);
    let b = replace(a, "Normal.dot"@, ""@);
    let c = replace(b, "Times New Roman"@, ""@);
    let d = replace(c, "Arial"@, ""@);
    let e1 = replaced(r"\bMicrosoft\b\s*\bWord\b"@, d, ""@);
    let e2 = replaced(r"\bTimes\b\s*\bNew\b\s*\bRoman\b"@, e1, ""@);
    let e3 = replaced(r"\bArial\b"@, e2, ""@);
    let e4 = replaced(r"\bCalibri\b"@, e3, ""@);
    let e5 = replaced(r"Normal\.dot"@, e4, ""@);
    let e6 = replaced(r"\b_Toc\d+\b"@, e5, ""@);
    let e7 = replaced(r"\bHYPERLINK\b"@, e6, ""@);
    clean_text_spec(e7)
}

/// A printable ASCII byte, a newline, a carriage return or a tab.
pub open spec fn printable(b: u8) -> bool {
    (32 <= b && b <= 126) || b == 10 || b == 13 || b == 9
}

/// The characters of ASCII bytes.
pub open spec fn ascii_text(bs: Seq<u8>) -> Seq<char> {
    bs.map_values(|b: u8| b as char)
}

/// Whether `s` has an alphabetic character.
pub open spec fn has_alpha(s: Seq<char>) -> bool {
    exists|i: int| 0 <= i < s.len() && alpha(#[trigger] s[i])
}

/// The text kept of a run of printable bytes: runs longer than three bytes
/// whose trimmed text is non-empty and has a letter.
pub open spec fn kept_run(cur: Seq<u8>) -> Option<Seq<char>> {
    if cur.len() > 3 && trim(ascii_text(cur)).len() > 0 && has_alpha(trim(ascii_text(cur))) {
        Some(trim(ascii_text(cur)))
    } else {
        None
    }
}

/// `ex` with the text kept of the run `cur` appended.
pub open spec fn flush_run(ex: Seq<Seq<char>>, cur: Seq<u8>) -> Seq<Seq<char>> {
    match kept_run(cur) {
        Some(t) => ex.push(t),
        None => ex,
    }
}

/// Scans bytes for runs of printable characters: a control byte ends the
/// current run; bytes above 126 are skipped. Yields the kept texts and the
/// open run.
pub open spec fn scan_runs(bs: Seq<u8>) -> (Seq<Seq<char>>, Seq<u8>)
    decreases bs.len(),
{
    if bs.len() == 0 {
        (Seq::empty(), Seq::empty())
    } else {
        let (ex, cur) = scan_runs(bs.drop_last());
        let b = bs.last();
        if printable(b) {
            (ex, cur.push(b))
        } else if cur.len() > 0 && b < 32 {
            (flush_run(ex, cur), Seq::empty())
        } else {
            (ex, cur)
        }
    }
}

/// The readable text runs of the bytes of a legacy Word document.
pub open spec fn doc_runs(bs: Seq<u8>) -> Seq<Seq<char>> {
    flush_run(scan_runs(bs).0, scan_runs(bs).1)
}

/// What the simple extraction gives for the bytes of a legacy Word
/// document: the readable runs joined by spaces and cleaned, or `None` when
/// they hold nothing but whitespace.
pub open spec fn doc_text(bs: Seq<u8>) -> Option<Seq<char>> {
    let joined = join(doc_runs(bs), " "@);
    if trim(joined).len() == 0 {
        None
    } else {
        Some(clean_doc_text_spec(joined))
    }
}

/// The text of a plain-text file: its UTF-8 decoding when valid, else the
/// decoding of `encoding_rs` when it reports no error, else the lossy
/// decoding.
pub open spec fn plain_text_of(bs: Seq<u8>) -> Seq<char> {
    if valid_utf8(bs) {
        decode_utf8(bs)
    } else if !encoding_utf8_decode(bs).1 {
        encoding_utf8_decode(bs).0
    } else {
        lossy_utf8(bs)
    }
}

/// The text of a legacy Word document: the simple extraction, or, when that
/// finds nothing, the cleaned lossy decoding of the bytes.
pub open spec fn legacy_doc_text(bs: Seq<u8>) -> Seq<char> {
    match doc_text(bs) {
        Some(t) => t,
        None => clean_text_spec(lossy_utf8(bs)),
    }
}

/// The name `w:t` of DOCX text runs.
pub open spec fn text_tag() -> Seq<u8> {
    seq![119u8, 58u8, 116u8]
}

/// The name `w:p` of DOCX paragraphs.
pub open spec fn paragraph_tag() -> Seq<u8> {
    seq![119u8, 58u8, 112u8]
}

/// Collects the text of DOCX events from index `i` on, given whether a text
/// run is open: the text inside `w:t` runs, and a newline at the end of each
/// `w:p` paragraph. Stops at the end of input; fails on an error.
pub open spec fn docx_text_from(evs: Seq<XmlEvent>, i: int, inside: bool) -> Result<Seq<char>, DocumentError>
    decreases evs.len() - i,
{
    if i < 0 || i >= evs.len() {
        Ok(Seq::empty())
    } else {
        match evs[i] {
            XmlEvent::Start(name) => docx_text_from(evs, i + 1, if name@ == text_tag() { true } else { inside }),
            XmlEvent::Text(t) => if inside {
                match t {
                    Ok(x) => match docx_text_from(evs, i + 1, inside) {
                        Ok(rest) => Ok(x@ + rest),
                        Err(e) => Err(e),
                    },
                    Err(m) => Err(DocumentError::XmlText(m)),
                }
            } else {
                docx_text_from(evs, i + 1, inside)
            },
            XmlEvent::End(name) => {
                let inside2 = if name@ == text_tag() { false } else { inside };
                if name@ == paragraph_tag() {
                    match docx_text_from(evs, i + 1, inside2) {
                        Ok(rest) => Ok("\n"@ + rest),
                        Err(e) => Err(e),
                    }
                } else {
                    docx_text_from(evs, i + 1, inside2)
                }
            },
            XmlEvent::Eof => Ok(Seq::empty()),
            XmlEvent::Error(m) => Err(DocumentError::Xml(m)),
            XmlEvent::Other => docx_text_from(evs, i + 1, inside),
        }
    }
}

/// `r` with `p` put in front of its text.
pub open spec fn prepend(p: Seq<char>, r: Result<Seq<char>, DocumentError>) -> Result<Seq<char>, DocumentError> {
    match r {
        Ok(x) => Ok(p + x),
        Err(e) => Err(e),
    }
}

/// The text of a DOCX body: what the events of its XML give.
pub open spec fn docx_text_spec(xml: Seq<char>) -> Result<Seq<char>, DocumentError> {
    docx_text_from(xml_events_of(xml), 0, false)
}

/// The text of a DOCX file: the text of its `word/document.xml`.
pub open spec fn docx_file_text(bs: Seq<u8>) -> Option<Seq<char>> {
    match zip_entry_text(bs, "word/document.xml"@) {
        Some(xml) => match docx_text_spec(xml) {
            Ok(t) => Some(t),
            Err(_) => None,
        },
        None => None,
    }
}

/// Whether the bytes `name` are exactly `a`, `b`, `c`.
fn chars_eq_bytes(name: &Vec<u8>, a: u8, b: u8, c: u8) -> (res: bool)
    ensures
        res == (name@ == seq![a, b, c]),
{
    let r = name.len() == 3 && name[0] == a && name[1] == b && name[2] == c;
    if r {
        assert(name@ == seq![a, b, c]);
    }
    r
}

/// An issue with the given content.
fn make_issue(
    issue_type: DocumentIssueType,
    description: &str,
    severity: IssueSeverity,
    location: Option<&str>,
    suggestion: Option<&str>,
) -> (res: DocumentIssue)
    ensures
        issue_view(res) == (issue_type, description@, severity, match location {
            Some(l) => Some(l@),
            None => None::<Seq<char>>,
        }, match suggestion {
            Some(l) => Some(l@),
            None => None::<Seq<char>>,
        }),
{
    DocumentIssue {
        issue_type,
        description: description.to_owned(),
        severity,
        location: match location {
            Some(l) => Some(l.to_owned()),
            None => None,
        },
        suggestion: match suggestion {
            Some(l) => Some(l.to_owned()),
            None => None,
        },
    }
}

/// The `k`-th professional keyword.
fn professional_keyword(k: usize) -> (res: &'static str)
    requires
        k < 10,
    ensures
        res@ == professional_keywords()[k as int],
{
    match k {
        0 => "experience",
        1 => "developed",
        2 => "managed",
        3 => "led",
        4 => "created",
        5 => "implemented",
        6 => "designed",
        7 => "coordinated",
        8 => "analyzed",
        _ => "improved",
    }
}

/// Parser of resume documents.
pub struct DocumentParser;

impl DocumentParser {
    /// The file type ("pdf", "docx", "doc" or "txt") for a MIME type.
    pub fn determine_file_type(mime_type: &str) -> (res: String)
        ensures
            res@ == file_type_for_mime(mime_type@),
    {
        if str_eq(mime_type, "application/pdf") {
            "pdf".to_owned()
        } else if str_eq(
            mime_type,
            "application/vnd.openxmlformats-officedocument.wordprocessingml.document",
        ) {
            "docx".to_owned()
        } else if str_eq(mime_type, "application/msword") {
            "doc".to_owned()
        } else {
            "txt".to_owned()
        }
    }

    /// The file type ("pdf", "docx", "doc" or "txt") of a file name.
    pub fn determine_file_type_from_filename(filename: &str) -> (res: String)
        ensures
            res@ == file_type_for_filename(filename@),
    {
        let ext = match file_extension(filename) {
            Some(e) => e,
            None => String::new(),
        };
        let ext_lower = to_lowercase(ext.as_str());
        let e = ext_lower.as_str();
        if str_eq(e, "pdf") {
            "pdf".to_owned()
        } else if str_eq(e, "docx") {
            "docx".to_owned()
        } else if str_eq(e, "doc") {
            "doc".to_owned()
        } else {
            "txt".to_owned()
        }
    }

    /// Whether a file type is one of the document formats that may be parsed.
    pub fn is_allowed_file_type(file_type: &str) -> (res: bool)
        ensures
            res == allowed_file_type(file_type@),
    {
        str_eq(file_type, "pdf") || str_eq(file_type, "docx") || str_eq(file_type, "doc")
            || str_eq(file_type, "txt")
    }

    /// Whether a line looks like a section header.
    pub fn is_section_header(line: &str) -> (res: bool)
        ensures
            res == is_section_header_line(line@),
    {
        let v = chars_of(line);
        Self::is_section_header_chars(&v)
    }

    /// Whether a line, given by its characters, looks like a section header.
    pub fn is_section_header_chars(v: &[char]) -> (res: bool)
        ensures
            res == is_section_header_line(v@),
    {
        let line_string = string_from_chars(v);
        let line = line_string.as_str();
        let lower = to_lowercase(line);
        let lv = chars_of(lower.as_str());
        let short50 = byte_len_below(&v, 50);
        if short50 {
            let mut k: usize = 0;
            while k < 12
                invariant
                    k <= 12,
                    lv@ == lowercase(line@),
                    v@ == line@,
                    byte_len(v@) < 50,
                    forall|j: int| 0 <= j < k ==> !contains(lv@, #[trigger] header_words()[j]),
                decreases 12 - k,
            {
                let h = chars_of(header_word(k));
                if contains_chars(&lv, &h) {
                    assert(0 <= k < 12 && contains(lowercase(line@), header_words()[k as int]));
                    return true;
                }
                k += 1;
            }
        }
        all_caps_chars(&v) && byte_len_below(&v, 30)
    }

    /// Whether a line is a heading.
    pub fn is_heading(line: &str) -> (res: bool)
        ensures
            res == is_section_header_line(line@),
    {
        Self::is_section_header(line)
    }

    /// The heading level (1 to 3, 1 being the most important) of a line.
    pub fn determine_heading_level(line: &str) -> (res: u8)
        ensures
            res == heading_level(line@),
    {
        let v = chars_of(line);
        if all_caps_chars(&v) {
            return 1;
        }
        let mut i: usize = 0;
        while i < v.len()
            invariant
                i <= v.len(),
                v@ == line@,
                !all_caps(line@),
                forall|j: int|
                    0 <= j < i && !is_ws(#[trigger] v@[j]) && (j == 0 || is_ws(v@[j - 1]))
                        ==> upper(v@[j]),
            decreases v.len() - i,
        {
            if !is_whitespace_char(v[i]) && (i == 0 || is_whitespace_char(v[i - 1]))
                && !is_uppercase(v[i]) {
                assert(!words_capitalized(line@)) by {
                    let ii = i as int;
                    assert(0 <= ii < line@.len() && !is_ws(line@[ii]) && (ii == 0 || is_ws(
                        line@[ii - 1],
                    )) && !upper(line@[ii]));
                }
                return 3;
            }
            i += 1;
        }
        2
    }

    /// The number of whitespace-separated words of `text`.
    pub fn count_words(text: &str) -> (res: usize)
        ensures
            res == word_count(text@),
    {
        let v = chars_of(text);
        count_words_chars(&v)
    }

    /// Cleans extracted text: runs of whitespace within a line become one
    /// space, control characters are removed, line breaks normalized, and
    /// surrounding whitespace removed.
    pub fn clean_text(text: &str) -> (res: String)
        ensures
            res@ == clean_text_spec(text@),
    {
        let a = replace_all(r"[^\S\r\n]+", text, " ");
        let b = replace_all(r"[\x00-\x08\x0B\x0C\x0E-\x1F\x7F]", a.as_str(), "");
        let c = replace_all(r"\r\n|\r", b.as_str(), "\n");
        let d = replace_all(r"\n{3,}", c.as_str(), "\n\n");
        let v = chars_of(d.as_str());
        let t = trim_chars(&v);
        string_from_chars(&t)
    }

    /// Removes common artifacts of legacy Word documents, then cleans.
    pub fn clean_extracted_doc_text(text: &str) -> (res: String)
        ensures
            res@ == clean_doc_text_spec(text@),
    {
        let v = chars_of(text);
        let empty: Vec<char> = Vec::new();
        proof {
            reveal_strlit("Microsoft Word");
            reveal_strlit("Normal.dot");
            reveal_strlit("Times New Roman");
            reveal_strlit("Arial");
            reveal_strlit("");
        }
        let a = replace_chars(&v, &chars_of("Microsoft Word"), &empty);
        let b = replace_chars(&a, &chars_of("Normal.dot"), &empty);
        let c = replace_chars(&b, &chars_of("Times New Roman"), &empty);
        let d = replace_chars(&c, &chars_of("Arial"), &empty);
        let ds = string_from_chars(&d);
        assert(empty@ == ""@);
        assert(a@ == replace(text@, "Microsoft Word"@, ""@));
        assert(ds@ == replace(replace(replace(replace(text@, "Microsoft Word"@, ""@), "Normal.dot"@, ""@), "Times New Roman"@, ""@), "Arial"@, ""@));
        let e1 = replace_all(r"\bMicrosoft\b\s*\bWord\b", ds.as_str(), "");
        let e2 = replace_all(r"\bTimes\b\s*\bNew\b\s*\bRoman\b", e1.as_str(), "");
        let e3 = replace_all(r"\bArial\b", e2.as_str(), "");
        let e4 = replace_all(r"\bCalibri\b", e3.as_str(), "");
        let e5 = replace_all(r"Normal\.dot", e4.as_str(), "");
        let e6 = replace_all(r"\b_Toc\d+\b", e5.as_str(), "");
        let e7 = replace_all(r"\bHYPERLINK\b", e6.as_str(), "");
        Self::clean_text(e7.as_str())
    }

    /// The kept text of a run of printable bytes.
    fn kept_run_of(cur: &Vec<u8>) -> (res: Option<Vec<char>>)
        ensures
            match res {
                Some(t) => kept_run(cur@) == Some(t@),
                None => kept_run(cur@) is None,
            },
    {
        if cur.len() <= 3 {
            return None;
        }
        let mut chars: Vec<char> = Vec::new();
        let mut i: usize = 0;
        while i < cur.len()
            invariant
                i <= cur.len(),
                chars@ == ascii_text(cur@.take(i as int)),
            decreases cur.len() - i,
        {
            chars.push(cur[i] as char);
            assert(ascii_text(cur@.take(i + 1)) == ascii_text(cur@.take(i as int)).push(cur@[i as int] as char));
            i += 1;
        }
        assert(cur@.take(cur.len() as int) == cur@);
        let t = trim_chars(&chars);
        if t.len() == 0 {
            return None;
        }
        let mut k: usize = 0;
        while k < t.len()
            invariant
                k <= t.len(),
                t@ == trim(ascii_text(cur@)),
                cur@.len() > 3,
                t@.len() > 0,
                forall|j: int| 0 <= j < k ==> !alpha(#[trigger] t@[j]),
            decreases t.len() - k,
        {
            if is_alphabetic(t[k]) {
                assert(has_alpha(t@)) by {
                    assert(0 <= k < t@.len() && alpha(t@[k as int]));
                }
                return Some(t);
            }
            k += 1;
        }
        None
    }

    /// Extracts readable text from the bytes of a legacy Word document by
    /// collecting runs of printable characters.
    pub fn extract_doc_text_simple(content: &[u8]) -> (res: Result<String, DocumentError>)
        ensures
            match res {
                Ok(t) => doc_text(content@) == Some(t@),
                Err(e) => doc_text(content@) is None && e == DocumentError::NoReadableText,
            },
    {
        let mut extracted: Vec<Vec<char>> = Vec::new();
        let mut current: Vec<u8> = Vec::new();
        let mut i: usize = 0;
        while i < content.len()
            invariant
                i <= content.len(),
                scan_runs(content@.take(i as int)) == (views(extracted@), current@),
            decreases content.len() - i,
        {
            let byte = content[i];
            assert(content@.take(i + 1).drop_last() == content@.take(i as int));
            if (32 <= byte && byte <= 126) || byte == 10 || byte == 13 || byte == 9 {
                current.push(byte);
            } else if current.len() > 0 && byte < 32 {
                match Self::kept_run_of(&current) {
                    Some(t) => {
                        assert(views(extracted@.push(t)) == views(extracted@).push(t@));
                        extracted.push(t);
                    },
                    None => {},
                }
                current = Vec::new();
            }
            i += 1;
        }
        assert(content@.take(content.len() as int) == content@);
        match Self::kept_run_of(&current) {
            Some(t) => {
                assert(views(extracted@.push(t)) == views(extracted@).push(t@));
                extracted.push(t);
            },
            None => {},
        }
        let joined = join_chars(&extracted, &chars_of(" "));
        let trimmed = trim_chars(&joined);
        if trimmed.len() == 0 {
            return Err(DocumentError::NoReadableText);
        }
        let js = string_from_chars(&joined);
        Ok(Self::clean_extracted_doc_text(js.as_str()))
    }

    /// Text of binary content: its (lossy) UTF-8 decoding, cleaned.
    pub fn extract_text_from_binary(content: &[u8]) -> (res: Result<String, DocumentError>)
        ensures
            res matches Ok(t) && t@ == clean_text_spec(lossy_utf8(content@)),
    {
        match utf8_decode(content) {
            Some(text) => {
                let lossy = utf8_decode_lossy(content);
                assert(lossy@ == text@);
                Ok(Self::clean_text(text.as_str()))
            },
            None => {
                let text = utf8_decode_lossy(content);
                Ok(Self::clean_text(text.as_str()))
            },
        }
    }

    /// The text of a plain-text file.
    pub fn parse_text(content: &[u8]) -> (res: String)
        ensures
            res@ == plain_text_of(content@),
    {
        if let Some(text) = utf8_decode(content) {
            return text;
        }
        let (text, had_errors) = decode_with_encoding_rs(content);
        if !had_errors {
            text
        } else {
            utf8_decode_lossy(content)
        }
    }

    /// The text of a legacy Word document; falls back to the cleaned raw
    /// bytes when no readable run is found.
    pub fn parse_doc(content: &[u8]) -> (res: String)
        ensures
            res@ == legacy_doc_text(content@),
    {
        match Self::extract_doc_text_simple(content) {
            Ok(text) => text,
            Err(_) => match Self::extract_text_from_binary(content) {
                Ok(text) => text,
                Err(_) => String::new(),
            },
        }
    }

    /// The text of a PDF file from what the PDF reader made of it: its text,
    /// or its error message as a PDF error.
    pub fn parse_pdf(reading: Result<String, String>) -> (res: Result<String, DocumentError>)
        ensures
            match reading {
                Ok(t) => res == Ok::<String, DocumentError>(t),
                Err(m) => res == Err::<String, DocumentError>(DocumentError::Pdf(m)),
            },
    {
        match reading {
            Ok(text) => Ok(text),
            Err(m) => Err(DocumentError::Pdf(m)),
        }
    }

    /// The text of the runs and paragraphs of a DOCX body.
    pub fn extract_text_from_xml(xml_content: &str) -> (res: Result<String, DocumentError>)
        ensures
            match res {
                Ok(t) => docx_text_spec(xml_content@) == Ok::<Seq<char>, DocumentError>(t@),
                Err(e) => docx_text_spec(xml_content@) == Err::<Seq<char>, DocumentError>(e),
            },
    {
        let events = read_xml_events(xml_content);
        let ghost evs = events@;
        let mut out: Vec<char> = Vec::new();
        let mut inside = false;
        let mut i: usize = 0;
        while i < events.len()
            invariant
                i <= events.len(),
                evs == events@,
                docx_text_spec(xml_content@) == prepend(out@, docx_text_from(evs, i as int, inside)),
            decreases events.len() - i,
        {
            match &events[i] {
                XmlEvent::Start(name) => {
                    if chars_eq_bytes(name, 119, 58, 116) {
                        inside = true;
                    }
                },
                XmlEvent::Text(t) => {
                    if inside {
                        match t {
                            Ok(x) => {
                                let xv = chars_of(x.as_str());
                                let ghost before = out@;
                                crate::text::append_chars(&mut out, &xv);
                                proof {
                                    match docx_text_from(evs, i + 1, inside) {
                                        Ok(r) => assert(before + (x@ + r) == out@ + r),
                                        Err(_) => {},
                                    }
                                }
                            },
                            Err(m) => {
                                return Err(DocumentError::XmlText(m.clone()));
                            },
                        }
                    }
                },
                XmlEvent::End(name) => {
                    if chars_eq_bytes(name, 119, 58, 116) {
                        inside = false;
                    }
                    if chars_eq_bytes(name, 119, 58, 112) {
                        let ghost before = out@;
                        out.push('\n');
                        proof {
                            reveal_strlit("\n");
                            assert(out@ == before + "\n"@);
                            match docx_text_from(evs, i + 1, inside) {
                                Ok(r) => assert(before + ("\n"@ + r) == out@ + r),
                                Err(_) => {},
                            }
                        }
                    }
                },
                XmlEvent::Eof => {
                    return Ok(string_from_chars(&out));
                },
                XmlEvent::Error(m) => {
                    return Err(DocumentError::Xml(m.clone()));
                },
                XmlEvent::Other => {},
            }
            i += 1;
        }
        Ok(string_from_chars(&out))
    }

    /// The text of a DOCX file: the text of its `word/document.xml`.
    pub fn parse_docx(content: &[u8]) -> (res: Result<String, DocumentError>)
        ensures
            match res {
                Ok(t) => docx_file_text(content@) == Some(t@),
                Err(_) => docx_file_text(content@) is None,
            },
    {
        let xml = match read_zip_entry(content, "word/document.xml") {
            Ok(x) => x,
            Err(ZipEntryError::NotAnArchive(m)) => return Err(DocumentError::DocxNotAnArchive(m)),
            Err(ZipEntryError::MissingEntry(m)) => return Err(DocumentError::DocxMissingDocument(m)),
            Err(ZipEntryError::Unreadable(m)) => return Err(DocumentError::DocxUnreadable(m)),
        };
        Self::extract_text_from_xml(xml.as_str())
    }

    /// Whether a line is a bullet point.
    pub fn is_bullet_chars(v: &[char]) -> (res: bool)
        ensures
            res == is_bullet(v@),
    {
        crate::text::matches_at(v, &chars_of("\u{2022}"), 0) || crate::text::matches_at(
            v,
            &chars_of("- "),
            0,
        ) || crate::text::matches_at(v, &chars_of("* "), 0)
    }

    /// The bullet points among `ls`.
    fn bullet_points_of(ls: &Vec<Vec<char>>) -> (res: Vec<String>)
        ensures
            string_views(res@) == bullet_lines(views(ls@)),
    {
        let mut out: Vec<String> = Vec::new();
        let mut i: usize = 0;
        while i < ls.len()
            invariant
                i <= ls.len(),
                string_views(out@) == bullet_lines(views(ls@).take(i as int)),
            decreases ls.len() - i,
        {
            assert(views(ls@).take(i + 1).drop_last() == views(ls@).take(i as int));
            if Self::is_bullet_chars(&ls[i]) {
                let b = string_from_chars(&ls[i]);
                assert(string_views(out@.push(b)) == string_views(out@).push(b@));
                out.push(b);
            } else {
                assert(string_views(out@) + Seq::<Seq<char>>::empty() == string_views(out@));
            }
            i += 1;
        }
        assert(views(ls@).take(ls.len() as int) == views(ls@));
        out
    }

    /// The bullet points among the trimmed lines of `ls`.
    fn trimmed_bullet_points_of(ls: &Vec<Vec<char>>) -> (res: Vec<String>)
        ensures
            string_views(res@) == trimmed_bullet_lines(views(ls@)),
    {
        let mut out: Vec<String> = Vec::new();
        let mut i: usize = 0;
        while i < ls.len()
            invariant
                i <= ls.len(),
                string_views(out@) == trimmed_bullet_lines(views(ls@).take(i as int)),
            decreases ls.len() - i,
        {
            assert(views(ls@).take(i + 1).drop_last() == views(ls@).take(i as int));
            let t = trim_chars(&ls[i]);
            if Self::is_bullet_chars(&t) {
                let b = string_from_chars(&t);
                assert(string_views(out@.push(b)) == string_views(out@).push(b@));
                out.push(b);
            } else {
                assert(string_views(out@) + Seq::<Seq<char>>::empty() == string_views(out@));
            }
            i += 1;
        }
        assert(views(ls@).take(ls.len() as int) == views(ls@));
        out
    }

    /// Formatting of a heading line, as far as plain text shows it.
    pub fn analyze_heading_formatting(line: &str) -> (res: HeadingFormatting)
        ensures
            res.is_bold == false,
            res.is_uppercase == all_caps(line@),
            res.font_size_relative is None,
            res.alignment is None,
    {
        let v = chars_of(line);
        HeadingFormatting {
            is_bold: false,
            is_uppercase: all_caps_chars(&v),
            font_size_relative: None,
            alignment: None,
        }
    }

    /// The section under the heading on line `start_idx`: its trimmed
    /// non-empty lines up to the next section header; `None` when there are
    /// none.
    pub fn extract_section_at_position(
        lines: &Vec<Vec<char>>,
        start_idx: usize,
        section_name: &str,
    ) -> (res: Option<DocumentSection>)
        requires
            start_idx < lines.len(),
            section_name@ == trim(views(lines@)[start_idx as int]),
        ensures
            section_lines(views(lines@), start_idx + 1).len() > 0 ==> (res matches Some(s)
                && section_matches(s, views(lines@), start_idx as int)),
            section_lines(views(lines@), start_idx + 1).len() == 0 ==> res is None,
    {
        let (body, end) = Self::collect_section_lines(lines, start_idx + 1);
        if body.len() == 0 {
            return None;
        }
        let nl = chars_of("\n");
        let joined = join_chars(&body, &nl);
        let bullets = Self::bullet_points_of(&body);
        Some(DocumentSection {
            name: section_name.to_owned(),
            content: string_from_chars(&joined),
            start_position: start_idx,
            end_position: end,
            confidence: 80,
            bullet_points: bullets,
        })
    }

    /// The common resume sections (experience, education, skills, summary)
    /// found in `content`.
    pub fn extract_common_sections(content: &str) -> (res: Vec<DocumentSection>)
        ensures
            res.len() == common_sections_found(content@, 4).len(),
            forall|k: int| 0 <= k < res.len() ==> common_section_matches(#[trigger] res@[k], content@, common_sections_found(content@, 4)[k]),
    {
        let mut sections: Vec<DocumentSection> = Vec::new();
        let mut n: usize = 0;
        while n < 4
            invariant
                n <= 4,
                sections.len() == common_sections_found(content@, n as int).len(),
                forall|k: int| 0 <= k < sections.len() ==> common_section_matches(#[trigger] sections@[k], content@, common_sections_found(content@, n as int)[k]),
            decreases 4 - n,
        {
            let ghost kind = common_section_kinds()[n as int];
            let (name, found) = if n == 0 {
                let kws: [&str; 6] = [
                    "experience",
                    "work experience",
                    "professional experience",
                    "employment",
                    "career history",
                    "work history",
                ];
                assert(str_views(kws@) == experience_headers());
                ("Experience", Self::extract_section(content, &kws))
            } else if n == 1 {
                let kws: [&str; 4] = ["education", "academic background", "qualifications", "degrees"];
                assert(str_views(kws@) == education_headers());
                ("Education", Self::extract_section(content, &kws))
            } else if n == 2 {
                let kws: [&str; 6] = [
                    "skills",
                    "technical skills",
                    "core competencies",
                    "expertise",
                    "proficiencies",
                    "technologies",
                ];
                assert(str_views(kws@) == skills_headers());
                ("Skills", Self::extract_section(content, &kws))
            } else {
                let kws: [&str; 5] = ["summary", "profile", "objective", "about", "overview"];
                assert(str_views(kws@) == summary_headers());
                ("Summary", Self::extract_section(content, &kws))
            };
            assert(name@ == kind.0 && opt_view(found) == section_of(content@, kind.1));
            let ghost before = sections@;
            match found {
                Some(section_content) => {
                    let cv = chars_of(section_content.as_str());
                    let ls = lines_of(&cv);
                    let bullets = Self::trimmed_bullet_points_of(&ls);
                    let sec = DocumentSection {
                        name: name.to_owned(),
                        content: section_content,
                        start_position: 0,
                        end_position: 0,
                        confidence: 70,
                        bullet_points: bullets,
                    };
                    assert(common_section_matches(sec, content@, kind));
                    sections.push(sec);
                    assert(common_sections_found(content@, n + 1) == common_sections_found(content@, n as int).push(kind));
                },
                None => {
                    assert(common_sections_found(content@, n + 1) == common_sections_found(content@, n as int));
                },
            }
            assert forall|k: int| 0 <= k < sections.len() implies common_section_matches(#[trigger] sections@[k], content@, common_sections_found(content@, n + 1)[k]) by {
                if k < before.len() {
                    assert(sections@[k] == before[k]);
                }
            }
            n += 1;
        }
        sections
    }

    /// Whether all headings share the formatting of the first.
    pub fn check_formatting_consistency(headings: &Vec<DocumentHeading>) -> (res: bool)
        ensures
            res == consistent_formatting(headings@),
    {
        if headings.len() < 2 {
            return true;
        }
        let up = headings[0].formatting.is_uppercase;
        let bold = headings[0].formatting.is_bold;
        let mut k: usize = 0;
        while k < headings.len()
            invariant
                k <= headings.len(),
                headings.len() >= 2,
                up == headings@[0].formatting.is_uppercase,
                bold == headings@[0].formatting.is_bold,
                forall|j: int| 0 <= j < k ==> (#[trigger] headings@[j]).formatting.is_uppercase == up
                    && headings@[j].formatting.is_bold == bold,
            decreases headings.len() - k,
        {
            if headings[k].formatting.is_uppercase != up || headings[k].formatting.is_bold != bold {
                assert(!consistent_formatting(headings@)) by {
                    let kk = k as int;
                    assert(0 <= kk < headings@.len());
                }
                return false;
            }
            k += 1;
        }
        true
    }

    /// E-mail address, phone number and LinkedIn profile found in `text`.
    pub fn extract_contact_info_enhanced(text: &str) -> (res: DocumentContactInfo)
        ensures
            opt_view(res.email) == first_match(email_pattern(), text@),
            opt_view(res.phone) == first_match(phone_pattern(), text@),
            opt_view(res.linkedin) == first_match(linkedin_pattern(), text@),
    {
        let c = Self::extract_contact_info(text);
        DocumentContactInfo { email: c.email, phone: c.phone, linkedin: c.linkedin }
    }

    /// The structure of a document: its heading lines, the sections under
    /// them (or, when there are none, the common resume sections), and the
    /// contact details of its first five lines.
    pub fn analyze_document_structure(content: &str) -> (res: DocumentStructure)
        ensures
            is_structure_of(content@, res),
    {
        let cv = chars_of(content);
        let ls = lines_of(&cv);
        let ghost lv = views(ls@);
        let top = Self::top_lines_of(content);
        let contact_info = Self::extract_contact_info_enhanced(top.as_str());
        let mut headings: Vec<DocumentHeading> = Vec::new();
        let mut sections: Vec<DocumentSection> = Vec::new();
        let mut position: usize = 0;
        let mut i: usize = 0;
        while i < ls.len()
            invariant
                i <= ls.len(),
                lv == views(ls@),
                lv == lines(content@),
                position == line_position(lv, i as int),
                headings.len() == heading_lines(lv, i as int).len(),
                forall|k: int| 0 <= k < headings.len() ==> heading_matches(#[trigger] headings@[k], lv, heading_lines(lv, i as int)[k]),
                sections.len() == section_heads(lv, i as int).len(),
                forall|k: int| 0 <= k < sections.len() ==> section_matches(#[trigger] sections@[k], lv, section_heads(lv, i as int)[k]),
            decreases ls.len() - i,
        {
            let line = string_from_chars(&ls[i]);
            let t = trim_chars(&ls[i]);
            assert(lv[i as int] == ls@[i as int]@);
            let ghost hb = headings@;
            let ghost sb = sections@;
            if t.len() > 0 && Self::is_section_header_chars(&t) {
                let text = string_from_chars(&t);
                let level = Self::determine_heading_level(text.as_str());
                let formatting = Self::analyze_heading_formatting(text.as_str());
                let h = DocumentHeading { text, level, position, formatting };
                assert(heading_matches(h, lv, i as int));
                headings.push(h);
                let name = string_from_chars(&t);
                match Self::extract_section_at_position(&ls, i, name.as_str()) {
                    Some(sec) => {
                        sections.push(sec);
                    },
                    None => {},
                }
            }
            assert(heading_lines(lv, i + 1) == heading_lines(lv, i as int) + if is_heading_at(lv, i as int) { seq![i as int] } else { Seq::<int>::empty() });
            assert(section_heads(lv, i + 1) == section_heads(lv, i as int) + if is_heading_at(lv, i as int) && section_lines(lv, i + 1).len() > 0 { seq![i as int] } else { Seq::<int>::empty() });
            assert forall|k: int| 0 <= k < headings.len() implies heading_matches(#[trigger] headings@[k], lv, heading_lines(lv, i + 1)[k]) by {
                if k < hb.len() {
                    assert(headings@[k] == hb[k]);
                }
            }
            assert forall|k: int| 0 <= k < sections.len() implies section_matches(#[trigger] sections@[k], lv, section_heads(lv, i + 1)[k]) by {
                if k < sb.len() {
                    assert(sections@[k] == sb[k]);
                }
            }
            position = position.wrapping_add(line.as_str().len()).wrapping_add(1);
            i += 1;
        }
        if sections.len() == 0 {
            sections = Self::extract_common_sections(content);
        }
        let total_sections = sections.len();
        let has_consistent_formatting = Self::check_formatting_consistency(&headings);
        DocumentStructure { sections, contact_info, headings, total_sections, has_consistent_formatting }
    }

    /// Calculates the ATS compatibility score, reporting its issues.
    pub fn calculate_ats_compatibility(
        content: &str,
        structure: &DocumentStructure,
        issues: &mut Vec<DocumentIssue>,
    ) -> (res: u32)
        ensures
            res == ats_score(content@, structure.headings.len() == 0, structure.contact_info.email is None),
            issue_views(final(issues)@) == issue_views(old(issues)@) + ats_issues(
                content@,
                structure.headings.len() == 0,
                structure.contact_info.email is None,
            ),
    {
        let mut score: u32 = 100;
        let ghost start = issue_views(issues@);
        let cv = chars_of(content);
        let ls = lines_of(&cv);
        let tab = chars_of("\t");
        let mut has_tab = false;
        let mut k: usize = 0;
        while k < ls.len() && !has_tab
            invariant
                k <= ls.len(),
                views(ls@) == lines(content@),
                tab@ == "\t"@,
                has_tab ==> has_tab_line(content@),
                !has_tab ==> forall|j: int| 0 <= j < k ==> !contains(#[trigger] lines(content@)[j], "\t"@),
            decreases ls.len() - k + (if has_tab { 0int } else { 1int }),
        {
            if contains_chars(&ls[k], &tab) {
                assert(lines(content@)[k as int] == ls@[k as int]@);
                has_tab = true;
            } else {
                k += 1;
            }
        }
        let ghost i1 = issue_views(issues@);
        if has_tab {
            score -= 10;
            issues.push(make_issue(
                DocumentIssueType::AtsCompatibility,
                "Document contains tab characters which may cause parsing issues",
                IssueSeverity::Medium,
                None,
                Some("Replace tabs with spaces for better ATS compatibility"),
            ));
            assert(issue_views(issues@) == i1.push(tab_issue()));
        }
        let ghost i2 = issue_views(issues@);
        if structure.headings.len() == 0 {
            score -= 20;
            issues.push(make_issue(
                DocumentIssueType::Structure,
                "No clear section headers detected",
                IssueSeverity::High,
                None,
                Some("Add clear section headers like 'EXPERIENCE', 'EDUCATION', etc."),
            ));
            assert(issue_views(issues@) == i2.push(headers_issue()));
        }
        let ghost i3 = issue_views(issues@);
        if structure.contact_info.email.is_none() {
            score -= 15;
            issues.push(make_issue(
                DocumentIssueType::ContactInfo,
                "No email address found",
                IssueSeverity::High,
                Some("Header"),
                Some("Include a professional email address in the header"),
            ));
            assert(issue_views(issues@) == i3.push(ats_email_issue()));
        }
        score
    }

    /// Calculates the readability score from sentence and word lengths.
    pub fn calculate_readability_score(content: &str) -> (res: u32)
        ensures
            res == readability(content@),
    {
        let v = chars_of(content);
        let ws = words_of(&v);
        let w = ws.len();
        if w == 0 {
            return 50;
        }
        let mut seps: u128 = 0;
        let mut bytes: u128 = 0;
        let mut i: usize = 0;
        while i < v.len()
            invariant
                i <= v.len(),
                seps == separator_count(v@.take(i as int)),
                bytes == word_bytes(v@.take(i as int)),
                seps <= i,
                bytes <= 4 * i,
            decreases v.len() - i,
        {
            let c = v[i];
            assert(v@.take(i + 1).drop_last() == v@.take(i as int));
            if c == '.' || c == '!' || c == '?' {
                seps += 1;
            }
            if !is_whitespace_char(c) {
                let u = c as u32;
                let width: u128 = if u < 0x80 {
                    1
                } else if u < 0x800 {
                    2
                } else if u < 0x10000 {
                    3
                } else {
                    4
                };
                bytes += width;
            }
            i += 1;
        }
        assert(v@.take(v.len() as int) == v@);
        let n: u128 = seps + 1;
        let wn = w as u128;
        let sentence_score: u32 = if 15 * n < wn && wn < 25 * n {
            100
        } else {
            80
        };
        let word_score: u32 = if 4 * wn < bytes && bytes < 7 * wn {
            100
        } else {
            80
        };
        (sentence_score + word_score) / 2
    }

    /// The words of `content` that hold a professional keyword, and all its
    /// words.
    pub fn calculate_keyword_density(content: &str) -> (res: (usize, usize))
        ensures
            res.0 == keyword_word_count(words(content@)),
            res.1 == words(content@).len(),
    {
        let v = chars_of(content);
        let ws = words_of(&v);
        let ghost wv = views(ws@);
        let mut count: usize = 0;
        let mut i: usize = 0;
        while i < ws.len()
            invariant
                i <= ws.len(),
                wv == views(ws@),
                count == keyword_word_count(wv.take(i as int)),
                count <= i,
            decreases ws.len() - i,
        {
            assert(wv.take(i + 1).drop_last() == wv.take(i as int));
            let word = string_from_chars(&ws[i]);
            let lower = to_lowercase(word.as_str());
            let lv = chars_of(lower.as_str());
            let mut found = false;
            let mut k: usize = 0;
            while k < 10 && !found
                invariant
                    k <= 10,
                    lv@ == lowercase(wv[i as int]),
                    found ==> is_keyword_word(wv[i as int]),
                    !found ==> forall|j: int| 0 <= j < k ==> !contains(lv@, #[trigger] professional_keywords()[j]),
                decreases 10 - k + (if found { 0int } else { 1int }),
            {
                let kw = chars_of(professional_keyword(k));
                if contains_chars(&lv, &kw) {
                    assert(0 <= k < 10 && contains(lowercase(wv[i as int]), professional_keywords()[k as int]));
                    found = true;
                } else {
                    k += 1;
                }
            }
            if found {
                count += 1;
            }
            i += 1;
        }
        assert(wv.take(ws.len() as int) == wv);
        (count, ws.len())
    }

    /// Counts the essential sections (experience, education, skills) among
    /// the section names, recommending each missing one.
    pub fn calculate_section_completeness(
        structure: &DocumentStructure,
        recommendations: &mut Vec<String>,
    ) -> (res: usize)
        ensures
            res + missing_sections(structure.sections@, 3).len() == 3,
            string_views(final(recommendations)@) == string_views(old(recommendations)@)
                + missing_sections(structure.sections@, 3).map_values(
                |e: Seq<char>| add_section_recommendation(e),
            ),
    {
        let ghost secs = structure.sections@;
        let ghost start = string_views(recommendations@);
        let mut names: Vec<Vec<char>> = Vec::new();
        let mut j: usize = 0;
        while j < structure.sections.len()
            invariant
                j <= structure.sections.len(),
                secs == structure.sections@,
                names.len() == j,
                forall|q: int| 0 <= q < j ==> (#[trigger] names@[q])@ == lowercase(secs[q].name@),
            decreases structure.sections.len() - j,
        {
            let lower = to_lowercase(structure.sections[j].name.as_str());
            names.push(chars_of(lower.as_str()));
            j += 1;
        }
        let mut found: usize = 0;
        let mut n: usize = 0;
        while n < 3
            invariant
                n <= 3,
                secs == structure.sections@,
                names.len() == secs.len(),
                forall|q: int| 0 <= q < names.len() ==> (#[trigger] names@[q])@ == lowercase(secs[q].name@),
                found + missing_sections(secs, n as int).len() == n,
                string_views(recommendations@) == start + missing_sections(secs, n as int).map_values(
                    |e: Seq<char>| add_section_recommendation(e),
                ),
            decreases 3 - n,
        {
            let essential = if n == 0 {
                "experience"
            } else if n == 1 {
                "education"
            } else {
                "skills"
            };
            assert(essential@ == essential_sections()[n as int]);
            let ev = chars_of(essential);
            let mut present = false;
            let mut q: usize = 0;
            while q < names.len() && !present
                invariant
                    q <= names.len(),
                    names.len() == secs.len(),
                    forall|r: int| 0 <= r < names.len() ==> (#[trigger] names@[r])@ == lowercase(secs[r].name@),
                    present ==> has_section_named(secs, ev@),
                    !present ==> forall|r: int| 0 <= r < q ==> !contains(lowercase((#[trigger] secs[r]).name@), ev@),
                decreases names.len() - q + (if present { 0int } else { 1int }),
            {
                if contains_chars(&names[q], &ev) {
                    assert(0 <= q < secs.len() && contains(lowercase(secs[q as int].name@), ev@));
                    present = true;
                } else {
                    q += 1;
                }
            }
            let ghost before = missing_sections(secs, n as int);
            if present {
                found += 1;
                assert(missing_sections(secs, n + 1) == before);
            } else {
                let mut rv: Vec<char> = chars_of("Consider adding a ");
                crate::text::append_chars(&mut rv, &ev);
                crate::text::append_chars(&mut rv, &chars_of(" section"));
                let r = string_from_chars(&rv);
                assert(r@ == add_section_recommendation(ev@));
                assert(missing_sections(secs, n + 1) == before.push(ev@));
                assert(before.push(ev@).map_values(|e: Seq<char>| add_section_recommendation(e)) == before.map_values(|e: Seq<char>| add_section_recommendation(e)).push(add_section_recommendation(ev@)));
                assert(string_views(recommendations@.push(r)) == string_views(recommendations@).push(r@));
                recommendations.push(r);
            }
            n += 1;
        }
        found
    }

    /// Calculates contact completeness, reporting a missing e-mail address
    /// or phone number.
    pub fn calculate_contact_completeness(
        contact_info: &DocumentContactInfo,
        issues: &mut Vec<DocumentIssue>,
    ) -> (res: u32)
        ensures
            res == contact_score(*contact_info),
            issue_views(final(issues)@) == issue_views(old(issues)@) + (if contact_info.email is None {
                seq![missing_email_issue()]
            } else {
                Seq::empty()
            }) + (if contact_info.phone is None {
                seq![missing_phone_issue()]
            } else {
                Seq::empty()
            }),
    {
        let mut score: u32 = 0;
        let ghost i1 = issue_views(issues@);
        if contact_info.email.is_some() {
            score += 2;
        } else {
            issues.push(make_issue(
                DocumentIssueType::ContactInfo,
                "Missing email address",
                IssueSeverity::High,
                Some("Header"),
                Some("Add a professional email address"),
            ));
            assert(issue_views(issues@) == i1.push(missing_email_issue()));
        }
        let ghost i2 = issue_views(issues@);
        if contact_info.phone.is_some() {
            score += 1;
        } else {
            issues.push(make_issue(
                DocumentIssueType::ContactInfo,
                "Missing phone number",
                IssueSeverity::Medium,
                Some("Header"),
                Some("Add a phone number for direct contact"),
            ));
            assert(issue_views(issues@) == i2.push(missing_phone_issue()));
        }
        if contact_info.linkedin.is_some() {
            score += 1;
        }
        score * 25
    }

    /// The integer components of the quality of a document and its issues
    /// and recommendations.
    pub fn calculate_quality_metrics(content: &str, structure: &DocumentStructure) -> (res: DocumentQualityMetrics)
        ensures
            is_quality_of(content@, *structure, res),
    {
        let mut issues: Vec<DocumentIssue> = Vec::new();
        let mut recommendations: Vec<String> = Vec::new();
        let ats = Self::calculate_ats_compatibility(content, structure, &mut issues);
        let readability_score = Self::calculate_readability_score(content);
        let formatting = if structure.has_consistent_formatting { 90 } else { 60 };
        let (keyword_count, total_words) = Self::calculate_keyword_density(content);
        let sections_found = Self::calculate_section_completeness(structure, &mut recommendations);
        let contact = Self::calculate_contact_completeness(&structure.contact_info, &mut issues);
        let ghost section_recs = string_views(recommendations@);
        if readability_score < 100 {
            recommendations.push(
                "Improve readability: aim for sentences of 15 to 25 words and words of 4 to 7 letters".to_string(),
            );
        }
        let ghost with_readability = string_views(recommendations@);
        assert(with_readability == section_recs + (if readability_score < 100 {
            seq![readability_recommendation()]
        } else {
            Seq::empty()
        }));
        if !structure.has_consistent_formatting {
            recommendations.push("Use the same capitalization and emphasis for every section heading".to_string());
        }
        assert(string_views(recommendations@) == with_readability + (if structure.has_consistent_formatting {
            Seq::empty()
        } else {
            seq![formatting_recommendation()]
        }));
        let overall = 90 * ats + 60 * readability_score + 45 * formatting + 2000 * (
        sections_found as u32) + 45 * contact;
        assert(issue_views(Seq::<DocumentIssue>::empty()) == Seq::<IssueView>::empty());
        assert(string_views(Seq::<String>::empty()) == Seq::<Seq<char>>::empty());
        DocumentQualityMetrics {
            ats_compatibility_score: ats,
            readability_score,
            formatting_consistency_score: formatting,
            keyword_count,
            total_words,
            sections_found,
            contact_info_completeness: contact,
            overall_quality_x300: overall,
            issues,
            recommendations,
        }
    }

    /// The raw text of the bytes of a document of type `file_type`.
    pub fn extract_text_by_type(
        file_type: &str,
        content: &[u8],
        pdf_reading: Option<Result<String, String>>,
    ) -> (res: Result<String, DocumentError>)
        ensures
            match res {
                Ok(t) => raw_text(file_type@, content@, pdf_reading) == Some(t@),
                Err(_) => raw_text(file_type@, content@, pdf_reading) is None,
            },
    {
        if str_eq(file_type, "pdf") {
            match pdf_reading {
                Some(reading) => Self::parse_pdf(reading),
                None => Err(DocumentError::Pdf("the PDF reader was not run".to_owned())),
            }
        } else if str_eq(file_type, "docx") {
            Self::parse_docx(content)
        } else if str_eq(file_type, "doc") {
            Ok(Self::parse_doc(content))
        } else if str_eq(file_type, "txt") {
            Ok(Self::parse_text(content))
        } else {
            Err(DocumentError::UnsupportedFileType(file_type.to_owned()))
        }
    }

    /// Parses the bytes of a document of type `file_type`: cleans its text,
    /// counts words and characters, and analyzes structure and quality.
    pub fn build_document(
        filename: &str,
        file_type: &str,
        content: &[u8],
        pdf_reading: Option<Result<String, String>>,
    ) -> (res: Result<ParsedDocument, DocumentError>)
        ensures
            match res {
                Ok(doc) => is_parsed_document(doc, filename@, file_type@, content@, pdf_reading),
                Err(_) => raw_text(file_type@, content@, pdf_reading) is None,
            },
    {
        let raw = Self::extract_text_by_type(file_type, content, pdf_reading)?;
        let cleaned = Self::clean_text(raw.as_str());
        let word_count = Self::count_words(cleaned.as_str());
        let character_count = chars_of(cleaned.as_str()).len();
        let structure = Self::analyze_document_structure(cleaned.as_str());
        let quality_metrics = Self::calculate_quality_metrics(cleaned.as_str(), &structure);
        Ok(ParsedDocument {
            filename: filename.to_owned(),
            file_type: file_type.to_owned(),
            size: content.len(),
            content: cleaned,
            word_count,
            character_count,
            structure,
            quality_metrics,
        })
    }

    /// Parses document content whose type is given by its file name.
    pub fn parse_content(
        content: &[u8],
        filename: &str,
        pdf_reading: Option<Result<String, String>>,
    ) -> (res: Result<ParsedDocument, DocumentError>)
        ensures
            match res {
                Ok(doc) => is_parsed_document(doc, filename@, file_type_for_filename(filename@), content@, pdf_reading),
                Err(_) => raw_text(file_type_for_filename(filename@), content@, pdf_reading) is None,
            },
    {
        let file_type = Self::determine_file_type_from_filename(filename);
        Self::build_document(filename, file_type.as_str(), content, pdf_reading)
    }

    /// Parses the content read from the file at `file_path`, whose type is
    /// guessed from the path's MIME type; refuses types that may not be
    /// parsed.
    pub fn parse_file_content(
        file_path: &str,
        file_content: &[u8],
        pdf_reading: Option<Result<String, String>>,
    ) -> (res: Result<ParsedDocument, DocumentError>)
        ensures
            ({
                let ft = file_type_for_mime(guessed_mime(file_path@));
                let name = match path_file_name(file_path@) {
                    Some(n) => n,
                    None => "unknown"@,
                };
                match res {
                    Ok(doc) => allowed_file_type(ft) && is_parsed_document(doc, name, ft, file_content@, pdf_reading),
                    Err(_) => !allowed_file_type(ft) || raw_text(ft, file_content@, pdf_reading) is None,
                }
            }),
    {
        let filename = match file_name_of(file_path) {
            Some(n) => n,
            None => "unknown".to_owned(),
        };
        let mime = guess_mime_type(file_path);
        let file_type = Self::determine_file_type(mime.as_str());
        if !Self::is_allowed_file_type(file_type.as_str()) {
            return Err(DocumentError::UnsupportedFileType(file_type));
        }
        Self::build_document(filename.as_str(), file_type.as_str(), file_content, pdf_reading)
    }

    /// The document type of a file, by the MIME type guessed from its path.
    pub fn file_type_of_path(file_path: &str) -> (res: String)
        ensures
            res@ == file_type_for_mime(guessed_mime(file_path@)),
    {
        let mime = guess_mime_type(file_path);
        Self::determine_file_type(mime.as_str())
    }

    /// The trimmed non-empty lines from line `start` up to the next section
    /// header, and the index of the line where they stop.
    pub fn collect_section_lines(ls: &Vec<Vec<char>>, start: usize) -> (res: (Vec<Vec<char>>, usize))
        requires
            start <= ls.len(),
        ensures
            views(res.0@) == section_lines(views(ls@), start as int),
            res.1 == section_end(views(ls@), start as int),
            start <= res.1 <= ls.len(),
    {
        let ghost lv = views(ls@);
        let mut out: Vec<Vec<char>> = Vec::new();
        let mut j = start;
        let mut stop = false;
        while !stop && j < ls.len()
            invariant
                start <= j <= ls.len(),
                lv == views(ls@),
                views(out@) + section_lines(lv, j as int) == section_lines(lv, start as int),
                section_end(lv, j as int) == section_end(lv, start as int),
                stop ==> section_lines(lv, j as int) == Seq::<Seq<char>>::empty() && section_end(
                    lv,
                    j as int,
                ) == j,
            decreases ls.len() - j + (if stop { 0int } else { 1int }),
        {
            let t = trim_chars(&ls[j]);
            assert(lv[j as int] == ls@[j as int]@);
            if Self::is_section_header_chars(&t) {
                stop = true;
            } else {
                if t.len() > 0 {
                    proof {
                        assert(views(out@.push(t)) == views(out@).push(t@));
                        assert(seq![t@] + section_lines(lv, j + 1) == section_lines(lv, j as int));
                        assert(views(out@).push(t@) + section_lines(lv, j + 1) == views(out@) + (
                        seq![t@] + section_lines(lv, j + 1)));
                    }
                    out.push(t);
                } else {
                    assert(section_lines(lv, j as int) == section_lines(lv, j + 1));
                }
                j += 1;
            }
        }
        assert(section_lines(lv, j as int) == Seq::<Seq<char>>::empty());
        assert(views(out@) + Seq::<Seq<char>>::empty() == views(out@));
        (out, j)
    }

    /// The body of the section of `content` introduced by one of
    /// `section_headers`, with its trimmed non-empty lines joined by newlines.
    pub fn extract_section(content: &str, section_headers: &[&str]) -> (res: Option<String>)
        ensures
            opt_view(res) == section_of(content@, str_views(section_headers@)),
    {
        let cv = chars_of(content);
        let ls = lines_of(&cv);
        let ghost lv = views(ls@);
        let ghost hs = str_views(section_headers@);
        let mut h: usize = 0;
        while h < section_headers.len()
            invariant
                h <= section_headers.len(),
                lv == views(ls@),
                lv == lines(content@),
                hs == str_views(section_headers@),
                find_section(lv, hs, h as int, 0) == find_section(lv, hs, 0, 0),
            decreases section_headers.len() - h,
        {
            let hv = chars_of(section_headers[h]);
            let esc = escape_chars(&hv);
            let mut pv: Vec<char> = Vec::new();
            crate::text::append_chars(&mut pv, &chars_of("(?i)^.*"));
            crate::text::append_chars(&mut pv, &esc);
            crate::text::append_chars(&mut pv, &chars_of(".*$"));
            let pat = string_from_chars(&pv);
            assert(pat@ == header_pattern(hs[h as int]));
            let mut i: usize = 0;
            while i < ls.len()
                invariant
                    h < section_headers.len(),
                    i <= ls.len(),
                    lv == views(ls@),
                    lv == lines(content@),
                    hs == str_views(section_headers@),
                    pat@ == header_pattern(hs[h as int]),
                    find_section(lv, hs, h as int, i as int) == find_section(lv, hs, 0, 0),
                decreases ls.len() - i,
            {
                let line = string_from_chars(&ls[i]);
                assert(line@ == lv[i as int]);
                if is_match(pat.as_str(), line.as_str()) {
                    let (body, _end) = Self::collect_section_lines(&ls, i + 1);
                    if body.len() > 0 {
                        let nl = chars_of("\n");
                        let joined = join_chars(&body, &nl);
                        let r = string_from_chars(&joined);
                        proof {
                            assert(views(body@).len() == body@.len());
                            assert(pattern_matches(header_pattern(hs[h as int]), lv[i as int]));
                            assert(find_section(lv, hs, h as int, i as int) == Some(
                                join(section_lines(lv, i + 1), "\n"@),
                            ));
                        }
                        return Some(r);
                    }
                }
                i += 1;
            }
            h += 1;
        }
        None
    }

    /// E-mail address, phone number and LinkedIn profile found in `text`.
    pub fn extract_contact_info(text: &str) -> (res: ContactInfo)
        ensures
            opt_view(res.email) == first_match(email_pattern(), text@),
            opt_view(res.phone) == first_match(phone_pattern(), text@),
            opt_view(res.linkedin) == first_match(linkedin_pattern(), text@),
    {
        ContactInfo {
            email: find(r"\b[A-Za-z0-9._%+-]+@[A-Za-z0-9.-]+\.[A-Z|a-z]{2,}\b", text),
            phone: find(r"(\+?1[-.\s]?)?\(?([0-9]{3})\)?[-.\s]?([0-9]{3})[-.\s]?([0-9]{4})", text),
            linkedin: find(r"(?:linkedin\.com/in/|linkedin\.com/pub/)([A-Za-z0-9-]+)", text),
        }
    }

    /// The first five lines of `content`, joined by newlines.
    pub fn top_lines_of(content: &str) -> (res: String)
        ensures
            res@ == top_lines(content@),
    {
        let cv = chars_of(content);
        let tv = trim_start_chars(&cv);
        let ls = lines_of(&tv);
        let n = if ls.len() < 5 { ls.len() } else { 5 };
        let mut first: Vec<Vec<char>> = Vec::new();
        let mut i: usize = 0;
        while i < n
            invariant
                i <= n,
                n <= ls.len(),
                views(first@) == views(ls@).take(i as int),
            decreases n - i,
        {
            first.push(ls[i].clone());
            assert(views(ls@).take(i + 1) == views(ls@).take(i as int).push(ls@[i as int]@));
            i += 1;
        }
        let joined = join_chars(&first, &chars_of("\n"));
        string_from_chars(&joined)
    }

    /// The contact details and the summary, experience, education and skills
    /// sections of a resume.
    pub fn extract_sections(content: &str) -> (res: Result<ResumeStructure, DocumentError>)
        ensures
            res matches Ok(st) && {
                &&& opt_view(st.contact_info.email) == first_match(email_pattern(), top_lines(content@))
                &&& opt_view(st.contact_info.phone) == first_match(phone_pattern(), top_lines(content@))
                &&& opt_view(st.contact_info.linkedin) == first_match(
                    linkedin_pattern(),
                    top_lines(content@),
                )
                &&& opt_view(st.experience) == section_of(content@, experience_headers())
                &&& opt_view(st.education) == section_of(content@, education_headers())
                &&& opt_view(st.skills) == section_of(content@, skills_headers())
                &&& opt_view(st.summary) == section_of(content@, summary_headers())
            },
    {
        let mut structure = ResumeStructure::new();
        let top = Self::top_lines_of(content);
        structure.contact_info = Self::extract_contact_info(top.as_str());
        let experience: [&str; 6] = [
            "experience",
            "work experience",
            "professional experience",
            "employment",
            "career history",
            "work history",
        ];
        assert(str_views(experience@) == experience_headers());
        structure.experience = Self::extract_section(content, &experience);
        let education: [&str; 4] = ["education", "academic background", "qualifications", "degrees"];
        assert(str_views(education@) == education_headers());
        structure.education = Self::extract_section(content, &education);
        let skills: [&str; 6] = [
            "skills",
            "technical skills",
            "core competencies",
            "expertise",
            "proficiencies",
            "technologies",
        ];
        assert(str_views(skills@) == skills_headers());
        structure.skills = Self::extract_section(content, &skills);
        let summary: [&str; 5] = ["summary", "profile", "objective", "about", "overview"];
        assert(str_views(summary@) == summary_headers());
        structure.summary = Self::extract_section(content, &summary);
        Ok(structure)
    }
}


/// A tab in any line of the content costs the ATS compatibility score 10
/// points, so it is at most 90, and is reported as the tab-character
/// issue.
pub proof fn law_tabs_lower_ats_score(content: Seq<char>, no_headings: bool, no_email: bool)
    requires
        exists|k: int, i: int|
            0 <= k < lines(content).len() && 0 <= i < lines(content)[k].len() && #[trigger] lines(content)[k][i]
                == '\t',
    ensures
        ats_score(content, no_headings, no_email) <= 90,
        ats_issues(content, no_headings, no_email).len() > 0,
        ats_issues(content, no_headings, no_email)[0].1 == "Document contains tab characters which may cause parsing issues"@,
{
    let (k, i) = choose|k: int, i: int|
        0 <= k < lines(content).len() && 0 <= i < lines(content)[k].len() && #[trigger] lines(content)[k][i] == '\t';
    let l = lines(content)[k];
    reveal_strlit("\t");
    assert(l.subrange(i, i + 1) =~= "\t"@);
    assert(occurs_at(l, "\t"@, i));
    assert(contains(lines(content)[k], "\t"@));
    assert(has_tab_line(content));
}

} // verus!
