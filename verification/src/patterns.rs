//! Regular expressions: compiled patterns and what they find in a text.

use vstd::prelude::*;
use vstd::string::*;

verus! {

/// `regex::Regex`, a compiled pattern.
#[verifier::external_type_specification]
#[verifier::external_body]
pub struct ExRegex(regex::Regex);

/// Whether `pattern` is a regular expression that compiles.
pub uninterp spec fn is_pattern(pattern: Seq<char>) -> bool;

/// The pattern that a compiled regular expression was made from.
pub uninterp spec fn pattern_of(compiled: regex::Regex) -> Seq<char>;

/// The groups of the leftmost match of `pattern` in `text`: the whole match
/// first, then each group of the pattern, `None` for a group that took no
/// part in the match. `None` where the pattern matches nowhere.
pub uninterp spec fn captured(pattern: Seq<char>, text: Seq<char>) -> Option<
    Seq<Option<Seq<char>>>,
>;

/// `text` with the leftmost match of `pattern` replaced by `with`, in which
/// `$` refers to the groups of the match. `text` itself where the pattern
/// matches nowhere.
pub uninterp spec fn first_replaced(pattern: Seq<char>, text: Seq<char>, with: Seq<char>) -> Seq<
    char,
>;

/// `text` with every match of `pattern`, from left to right and without
/// overlap, replaced by `with`, in which `$` refers to the groups of the
/// match.
pub uninterp spec fn all_replaced(pattern: Seq<char>, text: Seq<char>, with: Seq<char>) -> Seq<
    char,
>;

/// The groups of every match of `pattern` in `text`, from left to right and
/// without overlap: for each match what `captured` gives for one.
pub uninterp spec fn all_captured(pattern: Seq<char>, text: Seq<char>) -> Seq<
    Seq<Option<Seq<char>>>,
>;

/// The mathematical content of the groups of a match.
pub open spec fn groups_view(groups: Option<Vec<Option<String>>>) -> Option<
    Seq<Option<Seq<char>>>,
> {
    match groups {
        Some(list) => Some(
            list@.map_values(
                |g: Option<String>|
                    match g {
                        Some(s) => Some(s@),
                        None => None,
                    },
            ),
        ),
        None => None,
    }
}

/// The group `i` of a match, where there is a match and the group took part
/// in it.
pub open spec fn group(groups: Option<Seq<Option<Seq<char>>>>, i: int) -> Option<Seq<char>> {
    match groups {
        Some(list) => if 0 <= i < list.len() {
            list[i]
        } else {
            None
        },
        None => None,
    }
}

/// Calls `regex::Regex::new` and hands back what it compiled, or the text of
/// its error.
///
/// Trusted: whether the pattern compiles depends on the pattern alone, and
/// what comes out is made from that pattern.
#[verifier::external_body]
pub(crate) fn compile(pattern: &str) -> (r: Result<regex::Regex, String>)
    ensures
        r matches Ok(compiled) ==> pattern_of(compiled) == pattern@,
        r is Ok <==> is_pattern(pattern@),
{
    regex::Regex::new(pattern).map_err(|e| e.to_string())
}

/// Calls `regex::Regex::captures` and copies the text of each group.
///
/// Trusted: the groups depend on the pattern and the text alone.
#[verifier::external_body]
pub(crate) fn find_groups(compiled: &regex::Regex, text: &str) -> (r: Option<Vec<Option<String>>>)
    ensures
        groups_view(r) == captured(pattern_of(*compiled), text@),
{
    compiled.captures(text).map(|c| c.iter().map(|m| m.map(|m| m.as_str().to_owned())).collect())
}

/// Calls `regex::Regex::captures_iter` and copies the text of each group of
/// each match.
///
/// Trusted: the matches and their groups depend on the pattern and the text
/// alone.
#[verifier::external_body]
pub(crate) fn find_all_groups(compiled: &regex::Regex, text: &str) -> (r: Vec<
    Option<Vec<Option<String>>>,
>)
    ensures
        r@.len() == all_captured(pattern_of(*compiled), text@).len(),
        forall|i: int|
            0 <= i < r@.len() ==> groups_view(#[trigger] r@[i]) == Some(
                all_captured(pattern_of(*compiled), text@)[i],
            ),
{
    compiled.captures_iter(text).map(
        |c| Some(c.iter().map(|m| m.map(|m| m.as_str().to_owned())).collect()),
    ).collect()
}

/// Calls `regex::Regex::replace`.
///
/// Trusted: the text that comes out depends on the pattern, the text and the
/// replacement alone.
#[verifier::external_body]
pub(crate) fn replace_first(compiled: &regex::Regex, text: &str, with: &str) -> (r: String)
    ensures
        r@ == first_replaced(pattern_of(*compiled), text@, with@),
{
    compiled.replace(text, with).into_owned()
}

/// Calls `regex::Regex::replace_all`.
///
/// Trusted: the text that comes out depends on the pattern, the text and the
/// replacement alone.
#[verifier::external_body]
pub(crate) fn replace_every(compiled: &regex::Regex, text: &str, with: &str) -> (r: String)
    ensures
        r@ == all_replaced(pattern_of(*compiled), text@, with@),
{
    compiled.replace_all(text, with).into_owned()
}

/// The text of the group `i` of a match.
pub fn group_text(groups: &Option<Vec<Option<String>>>, i: usize) -> (r: Option<String>)
    ensures
        match group(groups_view(*groups), i as int) {
            Some(text) => r matches Some(x) && x@ == text,
            None => r is None,
        },
{
    match groups {
        Some(list) => if i < list.len() {
            match &list[i] {
                Some(s) => Some(s.clone()),
                None => None,
            }
        } else {
            None
        },
        None => None,
    }
}

} // verus!
