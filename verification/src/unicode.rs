//! Trusted specifications of the standard library's Unicode-aware
//! character and string operations that the analysis relies on.
use vstd::prelude::*;
use vstd::utf8::*;

verus! {

/// What `char::is_uppercase` returns for `c` (Unicode `Uppercase` property).
pub uninterp spec fn upper(c: char) -> bool;

/// What `char::is_alphabetic` returns for `c` (Unicode `Alphabetic` property).
pub uninterp spec fn alpha(c: char) -> bool;

/// What `str::to_lowercase` returns for the string `s`.
pub uninterp spec fn lowercase(s: Seq<char>) -> Seq<char>;

/// What `String::from_utf8_lossy` returns for the bytes `b`.
pub uninterp spec fn lossy_utf8(b: Seq<u8>) -> Seq<char>;

/// Calls `char::is_uppercase`. The contract names the result and states
/// the documented behaviour on ASCII characters: exactly `A`..=`Z` are
/// uppercase.
#[verifier::external_body]
pub fn is_uppercase(c: char) -> (res: bool)
    ensures
        res == upper(c),
        (c as u32) < 128 ==> (res <==> ('A' <= c && c <= 'Z')),
{
    c.is_uppercase()
}

/// Calls `char::is_alphabetic`. The contract names the result and states
/// the documented behaviour on ASCII characters: exactly the Latin letters
/// are alphabetic.
#[verifier::external_body]
pub fn is_alphabetic(c: char) -> (res: bool)
    ensures
        res == alpha(c),
        (c as u32) < 128 ==> (res <==> (('A' <= c && c <= 'Z') || ('a' <= c && c <= 'z'))),
{
    c.is_alphabetic()
}

/// `c` with an ASCII capital letter turned into its small letter.
pub open spec fn ascii_lower_char(c: char) -> char {
    if 'A' <= c && c <= 'Z' {
        ((c as u32) + 32) as char
    } else {
        c
    }
}

/// Calls `str::to_lowercase`. The result is named; on text that is all
/// ASCII, the contract states what the Unicode lowercase mapping gives
/// there: each capital letter becomes its small letter, every other
/// character stays.
#[verifier::external_body]
pub fn to_lowercase(s: &str) -> (res: String)
    ensures
        res@ == lowercase(s@),
        (forall|i: int| 0 <= i < s@.len() ==> (#[trigger] s@[i] as u32) < 128) ==> res@ == s@.map_values(
            |c: char| ascii_lower_char(c),
        ),
{
    s.to_lowercase()
}

/// Calls `String::from_utf8` on a copy of `b`: succeeds exactly on valid
/// UTF-8, with the decoded characters.
#[verifier::external_body]
pub fn utf8_decode(b: &[u8]) -> (res: Option<String>)
    ensures
        res is Some <==> valid_utf8(b@),
        res matches Some(s) ==> s@ == decode_utf8(b@),
{
    String::from_utf8(b.to_vec()).ok()
}

/// Calls `String::from_utf8_lossy`. The result is named; the contract
/// states the documented fact that valid UTF-8 is decoded unchanged.
#[verifier::external_body]
pub fn utf8_decode_lossy(b: &[u8]) -> (res: String)
    ensures
        res@ == lossy_utf8(b@),
        valid_utf8(b@) ==> res@ == decode_utf8(b@),
{
    String::from_utf8_lossy(b).to_string()
}

} // verus!
