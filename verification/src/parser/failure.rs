use vstd::prelude::*;

verus! {

/// Why a piece of input could not be read as the construct that was asked for.
#[derive(Clone, Copy, Debug, PartialEq, Eq, Structural)]
pub enum FailureKind {
    /// A tag was expected, but the input starts with a digit, a symbol, blank space
    /// or a line ending.
    MalformedTagName,
    /// A second `#id` on the head of one tag.
    DuplicateId,
    /// An indentation mixes tabs and spaces, or is not a whole multiple of the
    /// document's indentation unit, or skips a level.
    InconsistentIndentation,
    /// The opening quote of an attribute value is never closed.
    UnterminatedQuotedValue,
    /// The `[` of an arbitrary value inside a class name is never closed.
    UnterminatedClassBracket,
    /// The input ends where a construct has to begin or to go on.
    UnexpectedEndOfInput,
    /// `#` is not followed by an identifier.
    MalformedId,
    /// An attribute key does not start as a key may, or `=` is not followed by a
    /// quoted value.
    MalformedAttribute,
    /// The input does not start with the marker of the construct that was asked for.
    UnexpectedToken,
}

/// A failure inside a sequence of characters: the position of the first character
/// that was not consumed, and the reason.
pub struct FailureModel {
    pub at: int,
    pub kind: FailureKind,
}

/// A failure inside a slice of characters.
#[derive(Clone, Copy, Debug)]
pub struct Failure {
    pub at: usize,
    pub kind: FailureKind,
}

impl View for Failure {
    type V = FailureModel;

    open spec fn view(&self) -> FailureModel {
        FailureModel { at: self.at as int, kind: self.kind }
    }
}

/// A failure as callers see it: the input that was left when reading stopped, and
/// the reason.
#[derive(Debug, PartialEq, Eq)]
pub struct ParseFailure {
    pub input: String,
    pub kind: FailureKind,
}

impl View for ParseFailure {
    type V = (Seq<char>, FailureKind);

    open spec fn view(&self) -> (Seq<char>, FailureKind) {
        (self.input@, self.kind)
    }
}

/// What is left of `s` from position `at` on.
pub open spec fn suffix(s: Seq<char>, at: int) -> Seq<char> {
    s.subrange(at, s.len() as int)
}

/// The outcome of reading at a position, told in terms of what is left of the
/// input: the rest and the value on success, the rest and the reason on failure.
pub open spec fn on_rest<T>(s: Seq<char>, r: Result<(int, T), FailureModel>) -> Result<
    (Seq<char>, T),
    (Seq<char>, FailureKind),
> {
    match r {
        Ok((end, value)) => Ok((suffix(s, end), value)),
        Err(f) => Err((suffix(s, f.at), f.kind)),
    }
}

/// The failure of the kind `kind` at the position `at`.
pub open spec fn fail<T>(at: int, kind: FailureKind) -> Result<T, FailureModel> {
    Err(FailureModel { at, kind })
}

} // verus!
