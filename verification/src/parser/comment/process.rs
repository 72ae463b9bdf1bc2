use vstd::prelude::*;
use crate::parser::failure::{fail, Failure, FailureKind, FailureModel, ParseFailure};
use crate::parser::input::{is_token_outcome, token_on, token_outcome};
use crate::parser::scan::{find_line_end, line_end, to_chars};

verus! {

/// Whether `//` stands at `pos`.
pub open spec fn comment_marker_at(s: Seq<char>, pos: int) -> bool {
    0 <= pos && pos + 1 < s.len() && s[pos] == '/' && s[pos + 1] == '/'
}

/// Whether `//!` stands at `pos`.
pub open spec fn native_marker_at(s: Seq<char>, pos: int) -> bool {
    comment_marker_at(s, pos) && pos + 2 < s.len() && s[pos + 2] == '!'
}

/// Says whether `//` stands at `pos`.
pub fn has_comment_marker(s: &[char], pos: usize) -> (b: bool)
    requires
        pos <= s@.len(),
    ensures
        b == comment_marker_at(s@, pos as int),
{
    s.len() - pos >= 2 && s[pos] == '/' && s[pos + 1] == '/'
}

/// Says whether `//!` stands at `pos`.
pub fn has_native_marker(s: &[char], pos: usize) -> (b: bool)
    requires
        pos <= s@.len(),
    ensures
        b == native_marker_at(s@, pos as int),
{
    s.len() - pos >= 3 && s[pos] == '/' && s[pos + 1] == '/' && s[pos + 2] == '!'
}

/// Where the comment that is left out of the output and starts at `pos` ends: at
/// the end of the line. Such a comment starts with `//` and goes on with anything
/// but `!`.
pub open spec fn dev_comment_end(s: Seq<char>, pos: int) -> Result<int, FailureModel> {
    if !comment_marker_at(s, pos) {
        fail(pos, FailureKind::UnexpectedToken)
    } else if native_marker_at(s, pos) {
        fail(pos + 2, FailureKind::UnexpectedToken)
    } else {
        Ok(line_end(s, pos + 2))
    }
}

/// Where the comment that is written into the output and starts at `pos` ends: at
/// the end of the line. Such a comment starts with `//!`.
pub open spec fn native_comment_end(s: Seq<char>, pos: int) -> Result<int, FailureModel> {
    if !native_marker_at(s, pos) {
        fail(pos, FailureKind::UnexpectedToken)
    } else {
        Ok(line_end(s, pos + 3))
    }
}

/// Reads a `//` comment at `pos`.
pub fn process_dev_comment_at(s: &[char], pos: usize) -> (r: Result<usize, Failure>)
    requires
        pos <= s@.len(),
    ensures
        match r {
            Ok(end) => dev_comment_end(s@, pos as int) == Ok::<int, FailureModel>(end as int)
                && pos + 2 <= end <= s@.len(),
            Err(f) => dev_comment_end(s@, pos as int) == Err::<int, FailureModel>(f@) && f.at
                <= s@.len(),
        },
{
    let len = s.len();
    if !has_comment_marker(s, pos) {
        Err(Failure { at: pos, kind: FailureKind::UnexpectedToken })
    } else if has_native_marker(s, pos) {
        Err(Failure { at: pos + 2, kind: FailureKind::UnexpectedToken })
    } else {
        Ok(find_line_end(s, pos + 2))
    }
}

/// Reads a `//!` comment at `pos`.
pub fn process_native_comment_at(s: &[char], pos: usize) -> (r: Result<usize, Failure>)
    requires
        pos <= s@.len(),
    ensures
        match r {
            Ok(end) => native_comment_end(s@, pos as int) == Ok::<int, FailureModel>(end as int)
                && pos + 3 <= end <= s@.len(),
            Err(f) => native_comment_end(s@, pos as int) == Err::<int, FailureModel>(f@) && f.at
                == pos,
        },
{
    let len = s.len();
    if !has_native_marker(s, pos) {
        Err(Failure { at: pos, kind: FailureKind::UnexpectedToken })
    } else {
        Ok(find_line_end(s, pos + 3))
    }
}

/// What `process_dev_comment` gives for the input `s`.
pub open spec fn spec_process_dev_comment(s: Seq<char>) -> Result<
    (Seq<char>, Seq<char>),
    (Seq<char>, FailureKind),
> {
    token_outcome(s, dev_comment_end(s, 0), 2, 0)
}

/// What `process_native_comment` gives for the input `s`.
pub open spec fn spec_process_native_comment(s: Seq<char>) -> Result<
    (Seq<char>, Seq<char>),
    (Seq<char>, FailureKind),
> {
    token_outcome(s, native_comment_end(s, 0), 3, 0)
}

/// Reads a `//` comment from the start of `input`, and gives what follows its
/// line and the comment's text. `//!` is no such comment.
pub fn process_dev_comment<'a>(input: &'a str) -> (r: Result<(&'a str, &'a str), ParseFailure>)
    ensures
        is_token_outcome(r, spec_process_dev_comment(input@)),
{
    let chars = to_chars(input);
    let end = process_dev_comment_at(chars.as_slice(), 0);
    token_on(input, chars.len(), end, 2, 0)
}

/// Reads a `//!` comment from the start of `input`, and gives what follows its
/// line and the comment's text.
pub fn process_native_comment<'a>(input: &'a str) -> (r: Result<(&'a str, &'a str), ParseFailure>)
    ensures
        is_token_outcome(r, spec_process_native_comment(input@)),
{
    let chars = to_chars(input);
    let end = process_native_comment_at(chars.as_slice(), 0);
    token_on(input, chars.len(), end, 3, 0)
}

} // verus!
