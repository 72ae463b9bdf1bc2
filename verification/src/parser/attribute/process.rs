use vstd::prelude::*;
use crate::parser::failure::{fail, Failure, FailureKind, FailureModel, ParseFailure};
use crate::parser::input::{is_token_outcome, token_on, token_outcome};
use crate::parser::scan::{
    alphabetic, alphanumeric, find_closing, numeric, search_closing, to_chars,
    unicode_alphabetic, unicode_alphanumeric, unicode_numeric,
};
use crate::parser::HsmlProcessContext;

verus! {

/// Whether `c` may stand in an attribute key, given whether it is a letter or a
/// number of Unicode: such a character may, and `-`, `_`, `:`, `#`, `@`, `[`, `]`,
/// `(`, `)`, `{`, `}`.
pub open spec fn key_char_given(c: char, alphanumeric: bool) -> bool {
    alphanumeric || c == '-' || c == '_' || c == ':' || c == '#' || c == '@' || c == '[' || c
        == ']' || c == '(' || c == ')' || c == '{' || c == '}'
}

/// Whether an attribute key may start with `c`, given whether it is a letter and
/// whether it is a number of Unicode: a letter that is no number may, and `:`,
/// `#`, `@`, `[`, `(` if they are no numbers.
pub open spec fn key_start_given(c: char, alphabetic: bool, numeric: bool) -> bool {
    !numeric && (alphabetic || c == ':' || c == '#' || c == '@' || c == '[' || c == '(')
}

/// The characters of which an attribute key is made.
pub open spec fn is_key_char(c: char) -> bool {
    key_char_given(c, unicode_alphanumeric(c))
}

/// The characters with which an attribute key may start.
pub open spec fn is_key_start(c: char) -> bool {
    key_start_given(c, unicode_alphabetic(c), unicode_numeric(c))
}

/// Says whether `c` may stand in an attribute key, given whether it is a letter
/// or a number of Unicode.
pub fn key_char_for(c: char, alphanumeric: bool) -> (b: bool)
    ensures
        b == key_char_given(c, alphanumeric),
{
    alphanumeric || c == '-' || c == '_' || c == ':' || c == '#' || c == '@' || c == '[' || c
        == ']' || c == '(' || c == ')' || c == '{' || c == '}'
}

/// Says whether an attribute key may start with `c`, given whether it is a
/// letter and whether it is a number of Unicode.
pub fn key_start_for(c: char, alphabetic: bool, numeric: bool) -> (b: bool)
    ensures
        b == key_start_given(c, alphabetic, numeric),
{
    !numeric && (alphabetic || c == ':' || c == '#' || c == '@' || c == '[' || c == '(')
}

/// Says whether `c` may stand in an attribute key.
pub fn is_valid_attribute_key(c: char) -> (b: bool)
    ensures
        b == is_key_char(c),
{
    key_char_for(c, alphanumeric(c))
}

/// Says whether an attribute key may start with `c`.
pub fn is_valid_attribute_key_start(c: char) -> (b: bool)
    ensures
        b == is_key_start(c),
{
    key_start_for(c, alphabetic(c), numeric(c))
}

/// Where the run of key characters that goes on at `pos` ends, when `open`
/// parentheses of the key are not closed yet: at the first character that is not
/// of a key, at a `)` that closes no `(` of the key, or at the end of the input.
pub open spec fn key_run_end(s: Seq<char>, pos: int, open: nat) -> int
    decreases s.len() - pos,
{
    if 0 <= pos < s.len() && is_key_char(s[pos]) {
        if s[pos] == '(' {
            key_run_end(s, pos + 1, open + 1)
        } else if s[pos] == ')' {
            if open == 0 {
                pos
            } else {
                key_run_end(s, pos + 1, (open - 1) as nat)
            }
        } else {
            key_run_end(s, pos + 1, open)
        }
    } else {
        pos
    }
}

/// Where the attribute key that starts at `pos` ends. A key is not empty and
/// starts as `is_key_start` says.
pub open spec fn key_end(s: Seq<char>, pos: int) -> Result<int, FailureModel> {
    if pos >= s.len() {
        fail(pos, FailureKind::UnexpectedEndOfInput)
    } else if key_run_end(s, pos, 0) == pos || !is_key_start(s[pos]) {
        fail(pos, FailureKind::MalformedAttribute)
    } else {
        Ok(key_run_end(s, pos, 0))
    }
}

/// Where the attribute value that starts at `pos` ends: behind the first quote of
/// the kind it starts with that has no backslash before it. The value itself
/// stands between the two quotes, and may span lines.
pub open spec fn value_end(s: Seq<char>, pos: int) -> Result<int, FailureModel> {
    if pos < 0 || pos >= s.len() {
        fail(pos, FailureKind::UnexpectedEndOfInput)
    } else if s[pos] != '"' && s[pos] != '\'' {
        fail(pos, FailureKind::MalformedAttribute)
    } else {
        match find_closing(s, pos + 1, s[pos]) {
            Some(closing) => Ok(closing + 1),
            None => fail(pos, FailureKind::UnterminatedQuotedValue),
        }
    }
}

/// Where the attribute that starts at `pos` ends: a key, and if `=` follows it,
/// the `=` and a quoted value.
pub open spec fn attribute_end(s: Seq<char>, pos: int) -> Result<int, FailureModel> {
    match key_end(s, pos) {
        Ok(k) => if k < s.len() && s[k] == '=' {
            value_end(s, k + 1)
        } else {
            Ok(k)
        },
        Err(f) => Err(f),
    }
}

/// Reads an attribute key at `pos`.
pub fn process_attribute_key_at(s: &[char], pos: usize) -> (r: Result<usize, Failure>)
    requires
        pos <= s@.len(),
    ensures
        match r {
            Ok(end) => key_end(s@, pos as int) == Ok::<int, FailureModel>(end as int) && pos
                < end <= s@.len(),
            Err(f) => key_end(s@, pos as int) == Err::<int, FailureModel>(f@) && f.at == pos,
        },
{
    if pos >= s.len() {
        return Err(Failure { at: pos, kind: FailureKind::UnexpectedEndOfInput });
    }
    let mut i: usize = pos;
    let mut open: usize = 0;
    while i < s.len() && is_valid_attribute_key(s[i]) && !(s[i] == ')' && open == 0)
        invariant
            pos <= i <= s@.len(),
            open <= i - pos,
            key_run_end(s@, pos as int, 0) == key_run_end(s@, i as int, open as nat),
        decreases s@.len() - i,
    {
        if s[i] == '(' {
            open += 1;
        } else if s[i] == ')' {
            open -= 1;
        }
        i += 1;
    }
    if i == pos || !is_valid_attribute_key_start(s[pos]) {
        Err(Failure { at: pos, kind: FailureKind::MalformedAttribute })
    } else {
        Ok(i)
    }
}

/// Reads a quoted attribute value at `pos`.
pub fn process_attribute_value_at(s: &[char], pos: usize) -> (r: Result<usize, Failure>)
    requires
        pos <= s@.len(),
    ensures
        match r {
            Ok(end) => value_end(s@, pos as int) == Ok::<int, FailureModel>(end as int) && pos + 2
                <= end <= s@.len(),
            Err(f) => value_end(s@, pos as int) == Err::<int, FailureModel>(f@) && f.at == pos,
        },
{
    if pos >= s.len() {
        return Err(Failure { at: pos, kind: FailureKind::UnexpectedEndOfInput });
    }
    let quote = s[pos];
    if quote != '"' && quote != '\'' {
        return Err(Failure { at: pos, kind: FailureKind::MalformedAttribute });
    }
    match search_closing(s, pos + 1, quote) {
        Some(closing) => Ok(closing + 1),
        None => Err(Failure { at: pos, kind: FailureKind::UnterminatedQuotedValue }),
    }
}

/// Reads an attribute at `pos`.
pub fn process_attribute_at(s: &[char], pos: usize) -> (r: Result<usize, Failure>)
    requires
        pos <= s@.len(),
    ensures
        match r {
            Ok(end) => attribute_end(s@, pos as int) == Ok::<int, FailureModel>(end as int) && pos
                < end <= s@.len(),
            Err(f) => attribute_end(s@, pos as int) == Err::<int, FailureModel>(f@) && f.at
                <= s@.len(),
        },
{
    match process_attribute_key_at(s, pos) {
        Ok(k) => {
            if k < s.len() && s[k] == '=' {
                process_attribute_value_at(s, k + 1)
            } else {
                Ok(k)
            }
        },
        Err(f) => Err(f),
    }
}

/// What `process_attribute_value` gives for the input `s`.
pub open spec fn spec_process_attribute_value(s: Seq<char>) -> Result<
    (Seq<char>, Seq<char>),
    (Seq<char>, FailureKind),
> {
    token_outcome(s, value_end(s, 0), 1, 1)
}

/// What `process_attribute` gives for the input `s`.
pub open spec fn spec_process_attribute(s: Seq<char>) -> Result<
    (Seq<char>, Seq<char>),
    (Seq<char>, FailureKind),
> {
    token_outcome(s, attribute_end(s, 0), 0, 0)
}

/// Reads a quoted value from the start of `input`, and gives what follows the
/// closing quote and the value without its quotes. The context is not touched.
pub fn process_attribute_value<'a>(input: &'a str, context: &mut HsmlProcessContext) -> (r: Result<
    (&'a str, &'a str),
    ParseFailure,
>)
    ensures
        is_token_outcome(r, spec_process_attribute_value(input@)),
        *final(context) == *old(context),
{
    let chars = to_chars(input);
    let end = process_attribute_value_at(chars.as_slice(), 0);
    token_on(input, chars.len(), end, 1, 1)
}

/// Reads an attribute from the start of `input`, and gives the rest of the input
/// and the attribute as it was written, with `=` and the quotes. The context is
/// not touched.
pub fn process_attribute<'a>(input: &'a str, context: &mut HsmlProcessContext) -> (r: Result<
    (&'a str, &'a str),
    ParseFailure,
>)
    ensures
        is_token_outcome(r, spec_process_attribute(input@)),
        *final(context) == *old(context),
{
    let chars = to_chars(input);
    let end = process_attribute_at(chars.as_slice(), 0);
    token_on(input, chars.len(), end, 0, 0)
}

} // verus!
