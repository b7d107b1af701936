//! The regular expressions of the `regex` crate, as far as the engine uses
//! them: compiling a pattern, asking whether it matches, and reading what
//! its groups captured.
//!
//! None of this is proved here. What a pattern matches is not said: the
//! answers of the crate have names, and the claims are that an answer depends
//! on the pattern and the text alone, and that what a group captures is
//! taken from the text that was searched.

use vstd::prelude::*;

verus! {

/// A compiled regular expression.
#[verifier::external_type_specification]
#[verifier::external_body]
pub struct ExRegex(regex::Regex);

/// The error for a pattern that cannot be compiled.
#[verifier::external_type_specification]
#[verifier::external_body]
pub struct ExRegexError(regex::Error);

/// What the groups of an expression captured in one match.
#[verifier::external_type_specification]
#[verifier::external_body]
pub struct ExCaptures<'h>(regex::Captures<'h>);

/// The pattern that stands for a compiled expression in the answers below.
/// For an expression made by `Regex::new` it is the pattern that was
/// compiled. Of an expression made in another way, with a builder and its
/// options, nothing is said here: the name then stands for whatever pattern
/// gives the same answers, and need not be the text that was written.
pub uninterp spec fn pattern_text(re: regex::Regex) -> Seq<char>;

/// Whether a pattern can be compiled: whether `Regex::new` takes it.
pub uninterp spec fn pattern_compiles(pattern: Seq<char>) -> bool;

/// Whether the expression compiled from `pattern` matches anywhere in
/// `haystack`: what `Regex::is_match` answers.
pub uninterp spec fn matched_by(pattern: Seq<char>, haystack: Seq<char>) -> bool;

/// What the groups of the expression compiled from `pattern` capture in the
/// leftmost match in `haystack`, or nothing where there is no match: what
/// `Regex::captures` gives, each group as text.
pub uninterp spec fn captured_by(pattern: Seq<char>, haystack: Seq<char>) -> Option<
    Seq<Option<Seq<char>>>,
>;

/// `Regex::new` compiles a pattern, or fails on one that is invalid or too
/// large. Which of the two depends on the pattern alone, and the expression
/// is that of the pattern. Nothing is claimed of which patterns compile.
pub assume_specification[ regex::Regex::new ](re: &str) -> (compiled: Result<
    regex::Regex,
    regex::Error,
>)
    ensures
        compiled.is_ok() == pattern_compiles(re@),
        compiled matches Ok(made) ==> pattern_text(made) == re@,
;

/// `Regex::is_match` says whether the expression matches anywhere in the
/// text. The answer depends on the pattern and the text alone; nothing else
/// is claimed of it.
pub assume_specification[ regex::Regex::is_match ](re: &regex::Regex, haystack: &str) -> (found:
    bool)
    ensures
        found == matched_by(pattern_text(*re), haystack@),
;

/// Whether `piece` is a stretch of `whole`: some of its characters, in a row.
pub open spec fn is_piece_of(whole: Seq<char>, piece: Seq<char>) -> bool {
    exists|from: int, to: int| 0 <= from <= to <= whole.len() && piece == whole.subrange(from, to)
}

/// What the groups of an expression captured in one match: for each group,
/// by its number, the text it matched, or nothing where it took no part.
pub uninterp spec fn group_texts(captures: regex::Captures) -> Seq<Option<Seq<char>>>;

/// `Regex::captures` gives what the groups captured in the leftmost match,
/// or nothing where the expression does not match. The answer depends on the
/// pattern and the text alone. What a group has captured is a stretch of the
/// text that was searched: the crate keeps the text with the offsets of each
/// group and hands a group out as the slice between its offsets.
#[verifier::external_body]
pub(crate) fn find_captures<'h>(pattern: &regex::Regex, haystack: &'h str) -> (found: Option<
    regex::Captures<'h>,
>)
    ensures
        match found {
            Some(captures) => captured_by(pattern_text(*pattern), haystack@) == Some(
                group_texts(captures),
            ),
            None => captured_by(pattern_text(*pattern), haystack@).is_none(),
        },
        found matches Some(captures) ==> forall|g: int|
            0 <= g < group_texts(captures).len() ==> (#[trigger] group_texts(captures)[g] matches Some(
                text,
            ) ==> is_piece_of(haystack@, text)),
{
    pattern.captures(haystack)
}

/// `Captures::get`, with the piece handed out as text by `Match::as_str`: the
/// text that the group with the given number matched, or nothing where there
/// is no such group or it took no part in the match.
#[verifier::external_body]
pub(crate) fn group_text(captures: &regex::Captures, group: usize) -> (text: Option<String>)
    ensures
        match text {
            Some(t) => group < group_texts(*captures).len() && group_texts(*captures)[group as int]
                == Some(t@),
            None => group >= group_texts(*captures).len() || group_texts(
                *captures,
            )[group as int].is_none(),
        },
{
    captures.get(group).map(|piece| piece.as_str().to_string())
}

} // verus!
