use vstd::prelude::*;
use vstd::string::*;
use crate::parser::failure::{suffix, Failure, FailureKind, FailureModel, ParseFailure};

verus! {

/// The outcome of reading one token from the start of `s`, told in terms of what
/// is left: on success the rest and the token, which is what was consumed but for
/// its first `skip` and its last `trim` characters.
pub open spec fn token_outcome(s: Seq<char>, r: Result<int, FailureModel>, skip: int, trim: int) -> Result<
    (Seq<char>, Seq<char>),
    (Seq<char>, FailureKind),
> {
    match r {
        Ok(end) => Ok((suffix(s, end), s.subrange(skip, end - trim))),
        Err(f) => Err((suffix(s, f.at), f.kind)),
    }
}

/// Whether an outcome over strings is the outcome `expected` over sequences.
pub open spec fn is_token_outcome(
    r: Result<(&str, &str), ParseFailure>,
    expected: Result<(Seq<char>, Seq<char>), (Seq<char>, FailureKind)>,
) -> bool {
    match r {
        Ok((rest, token)) => expected == Ok::<_, (Seq<char>, FailureKind)>((rest@, token@)),
        Err(e) => expected == Err::<(Seq<char>, Seq<char>), _>(e@),
    }
}

/// Whether an outcome that holds a node is the outcome `expected` over models.
pub open spec fn is_node_outcome<N: View>(
    r: Result<(&str, N), ParseFailure>,
    expected: Result<(Seq<char>, N::V), (Seq<char>, FailureKind)>,
) -> bool {
    match r {
        Ok((rest, node)) => expected == Ok::<_, (Seq<char>, FailureKind)>((rest@, node@)),
        Err(e) => expected == Err::<(Seq<char>, N::V), _>(e@),
    }
}

/// What is left of `input` from its character `at` on.
pub fn rest_from<'a>(input: &'a str, len: usize, at: usize) -> (rest: &'a str)
    requires
        len == input@.len(),
        at <= len,
    ensures
        rest@ == suffix(input@, at as int),
{
    input.substring_char(at, len)
}

/// The failure `f` inside `input`, with what is left of `input` at it.
pub fn failure_on(input: &str, len: usize, f: Failure) -> (e: ParseFailure)
    requires
        len == input@.len(),
        f.at <= len,
    ensures
        e@ == (suffix(input@, f.at as int), f.kind),
{
    ParseFailure { input: String::from_str(rest_from(input, len, f.at)), kind: f.kind }
}

/// Turns the end of a token that was read from the start of `input` into the rest
/// of the input and the token.
pub fn token_on<'a>(
    input: &'a str,
    len: usize,
    r: Result<usize, Failure>,
    skip: usize,
    trim: usize,
) -> (out: Result<(&'a str, &'a str), ParseFailure>)
    requires
        len == input@.len(),
        match r {
            Ok(end) => skip + trim <= end <= len,
            Err(f) => f.at <= len,
        },
    ensures
        is_token_outcome(
            out,
            token_outcome(
                input@,
                match r {
                    Ok(end) => Ok(end as int),
                    Err(f) => Err(f@),
                },
                skip as int,
                trim as int,
            ),
        ),
{
    match r {
        Ok(end) => Ok((rest_from(input, len, end), input.substring_char(skip, end - trim))),
        Err(f) => Err(failure_on(input, len, f)),
    }
}

} // verus!
