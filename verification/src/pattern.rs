//! Trusted specifications of the `regex` crate's matching operations.
//! Every wrapper compiles the pattern with `regex::Regex::new`; on a pattern
//! that the crate refuses, the wrapper reports "no match".
use vstd::prelude::*;
use crate::text::{opt_view, byte_len, at_char_boundary};

verus! {

/// Whether `regex::Regex::new` accepts `pattern`.
pub uninterp spec fn regex_accepts(pattern: Seq<char>) -> bool;

/// What `Regex::is_match` returns on `text` for the regex of `pattern`.
pub uninterp spec fn regex_matches(pattern: Seq<char>, text: Seq<char>) -> bool;

/// The text of the match that `Regex::find` returns on `text`.
pub uninterp spec fn regex_first_match(pattern: Seq<char>, text: Seq<char>) -> Option<Seq<char>>;

/// The byte offsets of the match that `Regex::find` returns on `text`.
pub uninterp spec fn regex_first_span(pattern: Seq<char>, text: Seq<char>) -> Option<(nat, nat)>;

/// The byte offsets of the matches that `Regex::find_iter` yields on `text`.
pub uninterp spec fn regex_all_spans(pattern: Seq<char>, text: Seq<char>) -> Seq<(nat, nat)>;

/// The number of matches that `Regex::find_iter` yields on `text`.
pub uninterp spec fn regex_match_count(pattern: Seq<char>, text: Seq<char>) -> nat;

/// The text of capture group `group` of the first match of `Regex::captures`.
pub uninterp spec fn regex_capture(pattern: Seq<char>, text: Seq<char>, group: nat) -> Option<Seq<char>>;

/// What `Regex::replace_all` returns for `text` with the literal replacement `rep`.
pub uninterp spec fn regex_replace_all(pattern: Seq<char>, text: Seq<char>, rep: Seq<char>) -> Seq<char>;

/// The text of the first match of `pattern` in `text`; `None` when the
/// pattern is refused or nothing matches.
pub open spec fn first_match(pattern: Seq<char>, text: Seq<char>) -> Option<Seq<char>> {
    if regex_accepts(pattern) {
        regex_first_match(pattern, text)
    } else {
        None
    }
}

/// The text of capture group `group`; `None` when the pattern is refused or
/// the group does not take part in the first match.
pub open spec fn captured(pattern: Seq<char>, text: Seq<char>, group: nat) -> Option<Seq<char>> {
    if regex_accepts(pattern) {
        regex_capture(pattern, text, group)
    } else {
        None
    }
}

/// The byte offsets (start, end) of the first match of `pattern` in `text`;
/// `None` when the pattern is refused or nothing matches.
pub open spec fn first_span(pattern: Seq<char>, text: Seq<char>) -> Option<(nat, nat)> {
    if regex_accepts(pattern) {
        regex_first_span(pattern, text)
    } else {
        None
    }
}

/// Whether `pattern` is accepted and matches `text`.
pub open spec fn pattern_matches(pattern: Seq<char>, text: Seq<char>) -> bool {
    regex_accepts(pattern) && regex_matches(pattern, text)
}

/// `text` with every match of `pattern` replaced by `rep`; unchanged when the
/// pattern is refused.
pub open spec fn replaced(pattern: Seq<char>, text: Seq<char>, rep: Seq<char>) -> Seq<char> {
    if regex_accepts(pattern) {
        regex_replace_all(pattern, text, rep)
    } else {
        text
    }
}

/// Calls `Regex::new(pattern)` and then `Regex::is_match(text)`; `false`
/// where the pattern is refused.
#[verifier::external_body]
pub fn is_match(pattern: &str, text: &str) -> (res: bool)
    ensures
        res == (regex_accepts(pattern@) && regex_matches(pattern@, text@)),
{
    regex::Regex::new(pattern).map(|re| re.is_match(text)).unwrap_or(false)
}

/// Calls `Regex::new(pattern)` and then `Regex::find(text)`, returning the
/// matched text; `None` where the pattern is refused.
#[verifier::external_body]
pub fn find(pattern: &str, text: &str) -> (res: Option<String>)
    ensures
        opt_view(res) == (if regex_accepts(pattern@) {
            regex_first_match(pattern@, text@)
        } else {
            None
        }),
{
    match regex::Regex::new(pattern) {
        Ok(re) => re.find(text).map(|m| m.as_str().to_string()),
        Err(_) => None,
    }
}

/// Calls `Regex::new(pattern)` and then `Regex::find(text)`, returning the
/// byte offsets of the match; `None` where the pattern is refused. As the
/// crate documents, a match lies within the text: start <= end <= length.
#[verifier::external_body]
pub fn find_span(pattern: &str, text: &str) -> (res: Option<(usize, usize)>)
    ensures
        (match res {
            Some((s, e)) => Some((s as nat, e as nat)),
            None => None,
        }) == (if regex_accepts(pattern@) {
            regex_first_span(pattern@, text@)
        } else {
            None
        }),
        res matches Some((s, e)) ==> s <= e && e <= byte_len(text@),
{
    match regex::Regex::new(pattern) {
        Ok(re) => re.find(text).map(|m| (m.start(), m.end())),
        Err(_) => None,
    }
}

/// Calls `Regex::new(pattern)` and collects the byte offsets of the matches
/// of `Regex::find_iter(text)`; none where the pattern is refused. As the
/// crate documents, each match lies within the text and starts and ends on
/// character boundaries.
#[verifier::external_body]
pub fn find_all_spans(pattern: &str, text: &str) -> (res: Vec<(usize, usize)>)
    ensures
        res@.map_values(|p: (usize, usize)| (p.0 as nat, p.1 as nat)) == (if regex_accepts(pattern@) {
            regex_all_spans(pattern@, text@)
        } else {
            Seq::empty()
        }),
        forall|i: int| 0 <= i < res.len() ==> (#[trigger] res@[i]).0 <= res@[i].1 && res@[i].1 <= byte_len(text@)
            && at_char_boundary(text@, res@[i].0 as int) && at_char_boundary(text@, res@[i].1 as int),
{
    match regex::Regex::new(pattern) {
        Ok(re) => re.find_iter(text).map(|m| (m.start(), m.end())).collect(),
        Err(_) => Vec::new(),
    }
}

/// Calls `Regex::new(pattern)` and counts the matches of
/// `Regex::find_iter(text)`; `0` where the pattern is refused.
#[verifier::external_body]
pub fn count_matches(pattern: &str, text: &str) -> (res: usize)
    ensures
        res == (if regex_accepts(pattern@) { regex_match_count(pattern@, text@) } else { 0 }),
{
    match regex::Regex::new(pattern) {
        Ok(re) => re.find_iter(text).count(),
        Err(_) => 0,
    }
}

/// Calls `Regex::new(pattern)` and `Regex::captures(text)`, returning the
/// text of group `group`; `None` where the pattern is refused.
#[verifier::external_body]
pub fn capture(pattern: &str, text: &str, group: usize) -> (res: Option<String>)
    ensures
        opt_view(res) == (if regex_accepts(pattern@) {
            regex_capture(pattern@, text@, group as nat)
        } else {
            None
        }),
{
    match regex::Regex::new(pattern) {
        Ok(re) => re.captures(text).and_then(|c| c.get(group)).map(|m| m.as_str().to_string()),
        Err(_) => None,
    }
}

/// Calls `Regex::new(pattern)` and `Regex::replace_all(text, rep)`, with
/// `rep` taken literally (`regex::NoExpand`); `text` unchanged where the
/// pattern is refused.
#[verifier::external_body]
pub fn replace_all(pattern: &str, text: &str, rep: &str) -> (res: String)
    ensures
        res@ == (if regex_accepts(pattern@) {
            regex_replace_all(pattern@, text@, rep@)
        } else {
            text@
        }),
{
    match regex::Regex::new(pattern) {
        Ok(re) => re.replace_all(text, regex::NoExpand(rep)).to_string(),
        Err(_) => text.to_string(),
    }
}

} // verus!
