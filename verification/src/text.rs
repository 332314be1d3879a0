//! Text helpers shared by the rest of the library.
//!
//! Strings are modelled by their view, a `Seq<char>`.

use vstd::prelude::*;
use vstd::string::*;

verus! {

/// `text` begins with `prefix`.
pub open spec fn is_prefix_of(prefix: Seq<char>, text: Seq<char>) -> bool {
    prefix.len() <= text.len() && text.subrange(0, prefix.len() as int) == prefix
}

/// `text` ends with `suffix`.
pub open spec fn is_suffix_of(suffix: Seq<char>, text: Seq<char>) -> bool {
    suffix.len() <= text.len() && text.subrange(text.len() - suffix.len(), text.len() as int)
        == suffix
}

/// `needle` occurs in `text` starting at position `at`.
pub open spec fn occurs_at(needle: Seq<char>, text: Seq<char>, at: int) -> bool {
    0 <= at && at + needle.len() <= text.len() && text.subrange(at, at + needle.len()) == needle
}

/// `needle` occurs somewhere in `text`.
pub open spec fn is_infix_of(needle: Seq<char>, text: Seq<char>) -> bool {
    exists|at: int| occurs_at(needle, text, at)
}

/// Calls `str::starts_with` with a string pattern, which std documents to
/// return `true` exactly when the pattern matches a prefix of the slice.
#[verifier::external_body]
pub(crate) fn starts_with(text: &str, prefix: &str) -> (found: bool)
    ensures
        found == is_prefix_of(prefix@, text@),
{
    text.starts_with(prefix)
}

/// Calls `str::ends_with` with a string pattern, which std documents to
/// return `true` exactly when the pattern matches a suffix of the slice.
#[verifier::external_body]
pub(crate) fn ends_with(text: &str, suffix: &str) -> (found: bool)
    ensures
        found == is_suffix_of(suffix@, text@),
{
    text.ends_with(suffix)
}

/// Calls `str::contains` with a string pattern, which std documents to
/// return `true` exactly when the pattern matches a sub-slice of the slice.
#[verifier::external_body]
pub(crate) fn contains(text: &str, needle: &str) -> (found: bool)
    ensures
        found == is_infix_of(needle@, text@),
{
    text.contains(needle)
}

/// Calls `str::strip_prefix` with a string pattern, which std documents to
/// return the rest of the slice behind the prefix when the slice starts with
/// it, and `None` otherwise.
#[verifier::external_body]
pub(crate) fn strip_prefix<'a>(text: &'a str, prefix: &str) -> (rest: Option<&'a str>)
    ensures
        match rest {
            Some(rest) => is_prefix_of(prefix@, text@) && rest@ == text@.subrange(
                prefix@.len() as int,
                text@.len() as int,
            ),
            None => !is_prefix_of(prefix@, text@),
        },
{
    text.strip_prefix(prefix)
}

/// Calls `==` on two string slices, which std documents to compare them
/// character by character.
#[verifier::external_body]
pub(crate) fn same_text(a: &str, b: &str) -> (same: bool)
    ensures
        same == (a@ == b@),
{
    a == b
}

/// The position of the first `separator` in `text`, or the length of
/// `text` where there is none.
pub open spec fn first_position(text: Seq<char>, separator: char) -> int
    decreases text.len(),
{
    if text.len() == 0 || text[0] == separator {
        0
    } else {
        1 + first_position(text.drop_first(), separator)
    }
}

/// The first position of a separator lies in the text or at its end.
pub proof fn lemma_first_position_bounds(text: Seq<char>, separator: char)
    ensures
        0 <= first_position(text, separator) <= text.len(),
    decreases text.len(),
{
    if text.len() > 0 && text[0] != separator {
        lemma_first_position_bounds(text.drop_first(), separator);
    }
}

/// The parts of `text` between the occurrences of `separator`, in order. A
/// text without the separator is its own only part; a separator at either
/// end has an empty part beside it.
pub open spec fn split_on(text: Seq<char>, separator: char) -> Seq<Seq<char>>
    decreases text.len(),
    via split_on_decreases
{
    let at = first_position(text, separator);
    if at >= text.len() {
        seq![text]
    } else {
        seq![text.subrange(0, at)] + split_on(text.subrange(at + 1, text.len() as int), separator)
    }
}

#[via_fn]
proof fn split_on_decreases(text: Seq<char>, separator: char) {
    lemma_first_position_bounds(text, separator);
}

/// Calls `str::split` with a character as the pattern and collects the
/// substrings, which std documents to be those that the pattern separates.
#[verifier::external_body]
pub(crate) fn split(text: &str, separator: char) -> (parts: Vec<String>)
    ensures
        parts@.len() == split_on(text@, separator).len(),
        forall|i: int| 0 <= i < parts@.len() ==> (#[trigger] parts@[i])@ == split_on(text@, separator)[i],
{
    let mut parts = Vec::new();
    for part in text.split(separator) {
        parts.push(part.to_string());
    }
    parts
}

/// Whether `texts` holds `wanted`.
pub open spec fn holds_text(texts: Seq<String>, wanted: Seq<char>) -> bool {
    exists|i: int| 0 <= i < texts.len() && #[trigger] texts[i]@ == wanted
}

/// Looks `wanted` up in a list of texts.
pub fn list_contains(texts: &Vec<String>, wanted: &str) -> (found: bool)
    ensures
        found == holds_text(texts@, wanted@),
{
    let mut i: usize = 0;
    while i < texts.len()
        invariant
            i <= texts.len(),
            forall|j: int| 0 <= j < i ==> #[trigger] texts@[j]@ != wanted@,
        decreases texts.len() - i,
    {
        if same_text(texts[i].as_str(), wanted) {
            return true;
        }
        i += 1;
    }
    false
}

/// The decimal digit for a value below ten.
pub open spec fn digit_char(d: nat) -> char {
    if d == 0 {
        '0'
    } else if d == 1 {
        '1'
    } else if d == 2 {
        '2'
    } else if d == 3 {
        '3'
    } else if d == 4 {
        '4'
    } else if d == 5 {
        '5'
    } else if d == 6 {
        '6'
    } else if d == 7 {
        '7'
    } else if d == 8 {
        '8'
    } else {
        '9'
    }
}

/// The decimal text of a natural number, without leading zeros.
pub open spec fn decimal(n: nat) -> Seq<char>
    decreases n,
{
    if n < 10 {
        seq![digit_char(n)]
    } else {
        decimal(n / 10).push(digit_char(n % 10))
    }
}

fn digit_text(d: u64) -> (text: &'static str)
    requires
        d < 10,
    ensures
        text@ == seq![digit_char(d as nat)],
{
    proof {
        reveal_strlit("0");
        reveal_strlit("1");
        reveal_strlit("2");
        reveal_strlit("3");
        reveal_strlit("4");
        reveal_strlit("5");
        reveal_strlit("6");
        reveal_strlit("7");
        reveal_strlit("8");
        reveal_strlit("9");
    }
    let text = if d == 0 {
        "0"
    } else if d == 1 {
        "1"
    } else if d == 2 {
        "2"
    } else if d == 3 {
        "3"
    } else if d == 4 {
        "4"
    } else if d == 5 {
        "5"
    } else if d == 6 {
        "6"
    } else if d == 7 {
        "7"
    } else if d == 8 {
        "8"
    } else {
        "9"
    };
    assert(text@ =~= seq![digit_char(d as nat)]);
    text
}

/// Writes a number in decimal.
pub fn decimal_text(n: u64) -> (text: String)
    ensures
        text@ == decimal(n as nat),
    decreases n,
{
    if n < 10 {
        String::from_str(digit_text(n))
    } else {
        let head = decimal_text(n / 10);
        let text = head.concat(digit_text(n % 10));
        assert(text@ =~= decimal(n as nat));
        text
    }
}

/// Joins two texts.
pub fn concat2(a: &str, b: &str) -> (text: String)
    ensures
        text@ == a@ + b@,
{
    String::from_str(a).concat(b)
}

/// Joins three texts.
pub fn concat3(a: &str, b: &str, c: &str) -> (text: String)
    ensures
        text@ == a@ + b@ + c@,
{
    String::from_str(a).concat(b).concat(c)
}

} // verus!
