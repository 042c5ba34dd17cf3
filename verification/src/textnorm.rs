//! Text normalization at the library boundary.  Unicode case mapping and
//! canonical (de)composition are delegated to outside code; each call is
//! wrapped once here, and its result is given a name that the contracts of
//! the rest of the library speak of.

use unicode_normalization::UnicodeNormalization;
use vstd::prelude::*;

verus! {

/// The Unicode lowercase mapping of a character sequence.
pub uninterp spec fn lower_of(s: Seq<char>) -> Seq<char>;

/// The Unicode uppercase mapping of a character sequence.
pub uninterp spec fn upper_of(s: Seq<char>) -> Seq<char>;

/// The canonical decomposition (normalization form D) of a character sequence.
pub uninterp spec fn nfd_of(s: Seq<char>) -> Seq<char>;

/// Relies on str::to_lowercase: the result depends on the characters alone.
#[verifier::external_body]
pub fn lowercase(s: &str) -> (r: String)
    ensures
        r@ == lower_of(s@),
        s@.len() == 0 ==> r@.len() == 0,
{
    s.to_lowercase()
}

/// Relies on str::to_uppercase: the result depends on the characters alone.
#[verifier::external_body]
pub fn uppercase(s: &str) -> (r: String)
    ensures
        r@ == upper_of(s@),
        s@.len() == 0 ==> r@.len() == 0,
{
    s.to_uppercase()
}

/// Relies on unicode_normalization::UnicodeNormalization::nfd: canonical
/// decomposition is a function of the characters alone.
#[verifier::external_body]
pub fn nfd_str(s: &str) -> (r: String)
    ensures
        r@ == nfd_of(s@),
        s@.len() == 0 ==> r@.len() == 0,
{
    s.nfd().collect()
}

/// A character with the Unicode White_Space property.
pub open spec fn is_ws_char(c: char) -> bool {
    let v = c as u32;
    (9 <= v <= 13) || v == 32 || v == 0x85 || v == 0xA0 || v == 0x1680 || (0x2000 <= v <= 0x200A)
        || v == 0x2028 || v == 0x2029 || v == 0x202F || v == 0x205F || v == 0x3000
}

/// `s` with leading whitespace removed.
pub open spec fn trim_start_spec(s: Seq<char>) -> Seq<char>
    decreases s.len(),
{
    if s.len() > 0 && is_ws_char(s[0]) {
        trim_start_spec(s.subrange(1, s.len() as int))
    } else {
        s
    }
}

/// `s` with trailing whitespace removed.
pub open spec fn trim_end_spec(s: Seq<char>) -> Seq<char>
    decreases s.len(),
{
    if s.len() > 0 && is_ws_char(s.last()) {
        trim_end_spec(s.drop_last())
    } else {
        s
    }
}

/// `s` with leading and trailing whitespace removed.
pub open spec fn trim_spec(s: Seq<char>) -> Seq<char> {
    trim_end_spec(trim_start_spec(s))
}

/// Relies on str::trim: it removes exactly the leading and trailing
/// characters with the White_Space property.
#[verifier::external_body]
pub fn str_trim(s: &str) -> (r: &str)
    ensures
        r@ == trim_spec(s@),
{
    s.trim()
}

/// Relies on String's FromIterator impl: collecting characters yields
/// exactly those characters.
#[verifier::external_body]
pub fn chars_to_string(v: &Vec<char>) -> (r: String)
    ensures
        r@ == v@,
{
    v.iter().collect()
}

} // verus!
