//! What the process database accepts: text fields are checked against a list
//! of words and characters that could change the meaning of a query.

pub mod processes;

use vstd::prelude::*;
use crate::text::{chars_of, contains_chars, contains_seq};

verus! {

/// The lowercase form of a text, as std's `str::to_lowercase` computes it
/// (Unicode lowercase mapping; it may change the length of the text).
pub uninterp spec fn lowercase(s: Seq<char>) -> Seq<char>;

/// std's `str::to_lowercase`. Claimed: the result is `lowercase` of the
/// argument; what that mapping is (Unicode's tables) is not written out.
#[verifier::external_body]
fn to_lowercase(s: &str) -> (r: String)
    ensures
        r@ == lowercase(s@),
{
    s.to_lowercase()
}

/// The words and characters that a database text may not contain (in lowercase).
pub open spec fn illegal_strings() -> Seq<Seq<char>> {
    seq![
        "drop"@, "table"@, "insert"@, "modify"@, "where"@, ";"@, ","@, "\\0"@, "\\n"@,
        "\\r"@, "\\"@, "'"@, "\""@, "\\z"@,
    ]
}

/// `s` contains one of the illegal strings.
pub open spec fn has_illegal(s: Seq<char>) -> bool {
    exists|i: int| 0 <= i < illegal_strings().len() && contains_seq(s, #[trigger] illegal_strings()[i])
}

/// A text that the database accepts: its lowercase form holds no illegal string.
pub open spec fn is_sane(s: Seq<char>) -> bool {
    !has_illegal(lowercase(s))
}

/// Why a text was refused.
#[derive(Clone, Copy, Debug, PartialEq, Eq, Structural)]
pub enum SanitizeError {
    IllegalString,
}

fn illegal_string(i: usize) -> (s: &'static str)
    requires
        i < 14,
    ensures
        s@ == illegal_strings()[i as int],
{
    match i {
        0 => "drop",
        1 => "table",
        2 => "insert",
        3 => "modify",
        4 => "where",
        5 => ";",
        6 => ",",
        7 => "\\0",
        8 => "\\n",
        9 => "\\r",
        10 => "\\",
        11 => "'",
        12 => "\"",
        _ => "\\z",
    }
}

/// Checks a text that is already in lowercase: it fails exactly when the text
/// contains one of the illegal strings.
pub fn sanitize_lowercased(lower: &str) -> (r: Result<(), SanitizeError>)
    ensures
        r is Err <==> has_illegal(lower@),
        r matches Err(e) ==> e == SanitizeError::IllegalString,
{
    let hay = chars_of(lower);
    let mut i: usize = 0;
    while i < 14
        invariant
            i <= 14,
            hay@ == lower@,
            illegal_strings().len() == 14,
            forall|j: int| 0 <= j < i ==> !contains_seq(lower@, #[trigger] illegal_strings()[j]),
        decreases 14 - i,
    {
        let needle = chars_of(illegal_string(i));
        if contains_chars(&hay, &needle) {
            return Err(SanitizeError::IllegalString);
        }
        i = i + 1;
    }
    Ok(())
}

/// Checks a text for the database: it fails exactly when its lowercase form
/// contains one of the illegal strings.
pub fn sanitize_string(str: String) -> (r: Result<(), SanitizeError>)
    ensures
        r is Ok <==> is_sane(str@),
        r matches Err(e) ==> e == SanitizeError::IllegalString,
{
    let lower_case = to_lowercase(str.as_str());
    sanitize_lowercased(lower_case.as_str())
}

} // verus!
