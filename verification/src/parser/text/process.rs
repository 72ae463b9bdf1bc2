use vstd::prelude::*;
use crate::parser::failure::{fail, Failure, FailureKind, FailureModel, ParseFailure};
use crate::parser::input::{is_token_outcome, token_on, token_outcome};
use crate::parser::scan::{
    collect, find_line_end, has_prefix_at, is_line_ending_at, lemma_line_end, line_end, line_ending_at,
    repeat, repeated, run_end, skip_run, starts_with_at, to_chars, CharClass,
};
use crate::parser::{ContextModel, HsmlProcessContext};

verus! {

/// Where the text that starts with the space at `pos` ends: at the end of the
/// line.
pub open spec fn text_end(s: Seq<char>, pos: int) -> Result<int, FailureModel> {
    if 0 <= pos < s.len() && s[pos] == ' ' {
        Ok(line_end(s, pos + 1))
    } else {
        fail(pos, FailureKind::UnexpectedToken)
    }
}

/// Reads the text of a tag at `pos`: a space and the rest of the line.
pub fn process_text_at(s: &[char], pos: usize) -> (r: Result<usize, Failure>)
    requires
        pos <= s@.len(),
    ensures
        match r {
            Ok(end) => text_end(s@, pos as int) == Ok::<int, FailureModel>(end as int) && pos
                < end <= s@.len(),
            Err(f) => text_end(s@, pos as int) == Err::<int, FailureModel>(f@) && f.at == pos,
        },
{
    if pos < s.len() && s[pos] == ' ' {
        Ok(find_line_end(s, pos + 1))
    } else {
        Err(Failure { at: pos, kind: FailureKind::UnexpectedToken })
    }
}

/// What `process_text` gives for the input `s`.
pub open spec fn spec_process_text(s: Seq<char>) -> Result<
    (Seq<char>, Seq<char>),
    (Seq<char>, FailureKind),
> {
    token_outcome(s, text_end(s, 0), 1, 0)
}

/// Reads a space and the rest of the line from the start of `input`, and gives
/// what follows the line and the text after the space.
pub fn process_text<'a>(input: &'a str) -> (r: Result<(&'a str, &'a str), ParseFailure>)
    ensures
        is_token_outcome(r, spec_process_text(input@)),
{
    let chars = to_chars(input);
    let end = process_text_at(chars.as_slice(), 0);
    token_on(input, chars.len(), end, 1, 0)
}

/// The indentation unit that a text block goes by while the document has shown
/// none: two spaces.
pub open spec fn default_unit() -> Seq<char> {
    seq![' ', ' ']
}

/// The indentation that the lines of a text block have at least, below a tag at
/// depth `level`: the unit, once more than the tag is deep.
pub open spec fn block_prefix(unit: Option<Seq<char>>, level: int) -> Seq<char> {
    repeat(
        match unit {
            Some(u) => u,
            None => default_unit(),
        },
        level + 1,
    )
}

/// How long the line ending at `pos` is.
pub open spec fn line_ending_len(s: Seq<char>, pos: int) -> int {
    if 0 <= pos < s.len() && s[pos] == '\n' {
        1
    } else {
        2
    }
}

/// Whether the line that starts at `pos` is blank: it holds nothing but spaces
/// and tabs, and a line ending follows them.
pub open spec fn blank_line_at(s: Seq<char>, pos: int) -> bool {
    line_ending_at(s, run_end(s, pos, CharClass::Indent))
}

/// Whether the line that starts at `pos` belongs to a text block: it is blank, or
/// it starts with `prefix`.
pub open spec fn continues_block(s: Seq<char>, pos: int, prefix: Seq<char>) -> bool {
    blank_line_at(s, pos) || has_prefix_at(s, pos, prefix)
}

/// Where the text block ends of which a line starts at `pos`: at the end of the
/// last line that is followed by no line that goes on the block.
pub open spec fn block_end(s: Seq<char>, pos: int, prefix: Seq<char>) -> int
    decreases s.len() - pos,
{
    let end = line_end(s, pos);
    let next = end + line_ending_len(s, end);
    if pos <= end < s.len() && next <= s.len() && continues_block(s, next, prefix) {
        block_end(s, next, prefix)
    } else {
        end
    }
}

/// Whether the text block that starts with the `.` at `pos` has a line: the line
/// below the `.` belongs to it.
pub open spec fn block_has_lines(s: Seq<char>, pos: int, prefix: Seq<char>) -> bool {
    continues_block(s, pos + 1 + line_ending_len(s, pos + 1), prefix)
}

/// Where the lines of the text block start that starts with the `.` at `pos`:
/// behind the line ending that follows the `.`; or, if the block has no line,
/// behind the `.`.
pub open spec fn block_start(s: Seq<char>, pos: int, prefix: Seq<char>) -> int {
    if block_has_lines(s, pos, prefix) {
        pos + 1 + line_ending_len(s, pos + 1)
    } else {
        pos + 1
    }
}

/// Where the text block that starts with the `.` at `pos` ends. A text block is
/// a `.` at the end of a line, and the lines below it up to the first that is
/// neither blank nor indented by `prefix`. It ends before the line ending of its
/// last line; with no line, it ends behind the `.`.
pub open spec fn text_block_end(s: Seq<char>, pos: int, prefix: Seq<char>) -> Result<
    int,
    FailureModel,
> {
    if 0 <= pos < s.len() && s[pos] == '.' && line_ending_at(s, pos + 1) {
        if block_has_lines(s, pos, prefix) {
            Ok(block_end(s, pos + 1 + line_ending_len(s, pos + 1), prefix))
        } else {
            Ok(pos + 1)
        }
    } else {
        fail(pos, FailureKind::UnexpectedToken)
    }
}

/// Where the first line feed from `pos` on and before `to` stands, or `to`.
pub open spec fn line_feed(s: Seq<char>, pos: int, to: int) -> int
    decreases to - pos,
{
    if 0 <= pos < to && pos < s.len() && s[pos] != '\n' {
        line_feed(s, pos + 1, to)
    } else {
        pos
    }
}

/// The lines of `s` from `pos` up to `to`, each without `prefix` at its start if
/// it starts with it. `pos` is the start of a line.
pub open spec fn dedent(s: Seq<char>, pos: int, to: int, prefix: Seq<char>) -> Seq<char>
    decreases to - pos,
{
    if pos < 0 || pos >= to || to > s.len() {
        Seq::empty()
    } else {
        let from = if has_prefix_at(s, pos, prefix) && pos + prefix.len() <= to {
            pos + prefix.len()
        } else {
            pos
        };
        let feed = line_feed(s, from, to);
        if pos <= feed < to {
            s.subrange(from, feed + 1) + dedent(s, feed + 1, to, prefix)
        } else {
            s.subrange(from, to)
        }
    }
}

/// The indentation of the lines of a text block below a tag at depth `level`.
pub fn block_prefix_chars(unit: &Option<Vec<char>>, level: usize) -> (prefix: Vec<char>)
    ensures
        prefix@ == block_prefix(
            match *unit {
                Some(u) => Some(u@),
                None => None,
            },
            level as int,
        ),
{
    let prefix = match unit {
        Some(u) => {
            let mut p = repeated(u.as_slice(), level);
            p.extend_from_slice(u.as_slice());
            p
        },
        None => {
            let two: [char; 2] = [' ', ' '];
            assert(two@ =~= default_unit());
            let mut p = repeated(two.as_slice(), level);
            p.extend_from_slice(two.as_slice());
            p
        },
    };
    prefix
}

/// Says whether the line that starts at `pos` belongs to a text block.
pub fn goes_on_block(s: &[char], pos: usize, prefix: &[char]) -> (b: bool)
    requires
        pos <= s@.len(),
    ensures
        b == continues_block(s@, pos as int, prefix@),
{
    let content = skip_run(s, pos, CharClass::Indent);
    is_line_ending_at(s, content) || starts_with_at(s, pos, prefix)
}

/// Reads a text block at `pos`, and gives where its lines start and where it
/// ends.
pub fn process_text_block_at(s: &[char], pos: usize, prefix: &[char]) -> (r: Result<
    (usize, usize),
    Failure,
>)
    requires
        pos <= s@.len(),
    ensures
        match r {
            Ok((start, end)) => text_block_end(s@, pos as int, prefix@) == Ok::<int, FailureModel>(
                end as int,
            ) && start == block_start(s@, pos as int, prefix@) && pos < start <= end
                <= s@.len(),
            Err(f) => text_block_end(s@, pos as int, prefix@) == Err::<int, FailureModel>(f@)
                && f.at == pos,
        },
{
    let len = s.len();
    if !(pos < len && s[pos] == '.' && is_line_ending_at(s, pos + 1)) {
        return Err(Failure { at: pos, kind: FailureKind::UnexpectedToken });
    }
    let start: usize = if s[pos + 1] == '\n' {
        pos + 2
    } else {
        pos + 3
    };
    if !goes_on_block(s, start, prefix) {
        return Ok((pos + 1, pos + 1));
    }
    let mut line: usize = start;
    loop
        invariant
            len == s@.len(),
            pos < start <= line <= len,
            s@[pos as int] == '.',
            line_ending_at(s@, pos + 1),
            start == pos + 1 + line_ending_len(s@, pos + 1),
            block_has_lines(s@, pos as int, prefix@),
            block_end(s@, start as int, prefix@) == block_end(s@, line as int, prefix@),
        decreases len - line,
    {
        let end = find_line_end(s, line);
        if end >= len {
            return Ok((start, end));
        }
        proof {
            lemma_line_end(s@, line as int);
        }
        let next: usize = if s[end] == '\n' {
            end + 1
        } else {
            end + 2
        };
        if goes_on_block(s, next, prefix) {
            line = next;
        } else {
            return Ok((start, end));
        }
    }
}

/// The lines of `s` from `from` up to `to`, each without `prefix` at its start.
pub fn dedent_lines(s: &[char], from: usize, to: usize, prefix: &[char]) -> (out: String)
    requires
        from <= to <= s@.len(),
    ensures
        out@ == dedent(s@, from as int, to as int, prefix@),
{
    let mut out = String::new();
    let mut line: usize = from;
    while line < to
        invariant
            from <= line <= to <= s@.len(),
            dedent(s@, from as int, to as int, prefix@) == out@ + dedent(
                s@,
                line as int,
                to as int,
                prefix@,
            ),
        decreases to - line,
    {
        let begin: usize = if starts_with_at(s, line, prefix) && prefix.len() <= to - line {
            line + prefix.len()
        } else {
            line
        };
        let mut feed: usize = begin;
        while feed < to && s[feed] != '\n'
            invariant
                line <= begin <= feed <= to <= s@.len(),
                line_feed(s@, begin as int, to as int) == line_feed(s@, feed as int, to as int),
            decreases to - feed,
        {
            feed += 1;
        }
        let ghost rest = dedent(s@, line as int, to as int, prefix@);
        if feed < to {
            let piece = collect(s, begin, feed + 1);
            out.append(piece.as_str());
            assert(rest == piece@ + dedent(s@, feed + 1, to as int, prefix@));
            assert(out@ + dedent(s@, feed + 1, to as int, prefix@) =~= (out@.subrange(
                0,
                out@.len() - piece@.len(),
            )) + rest);
            line = feed + 1;
        } else {
            let piece = collect(s, begin, to);
            out.append(piece.as_str());
            assert(rest == piece@);
            assert(dedent(s@, to as int, to as int, prefix@) =~= Seq::<char>::empty());
            assert(out@ + dedent(s@, to as int, to as int, prefix@) =~= (out@.subrange(
                0,
                out@.len() - piece@.len(),
            )) + rest);
            line = to;
        }
    }
    proof {
        assert(dedent(s@, line as int, to as int, prefix@) =~= Seq::<char>::empty());
        assert(out@ + Seq::<char>::empty() =~= out@);
    }
    out
}

/// What `process_text_block` gives for the input `s` under the context `c`.
pub open spec fn spec_process_text_block(s: Seq<char>, c: ContextModel) -> Result<
    (Seq<char>, Seq<char>),
    (Seq<char>, FailureKind),
> {
    token_outcome(
        s,
        text_block_end(s, 0, block_prefix(c.unit, c.level)),
        block_start(s, 0, block_prefix(c.unit, c.level)),
        0,
    )
}

/// The characters of the context's indentation unit, if it has one.
pub fn unit_chars(context: &HsmlProcessContext) -> (unit: Option<Vec<char>>)
    ensures
        context@.unit == match unit {
            Some(u) => Some(u@),
            None => None::<Seq<char>>,
        },
{
    match &context.indent_string {
        Some(u) => Some(to_chars(u.as_str())),
        None => None,
    }
}

/// Reads a text block from the start of `input`, and gives what follows its last
/// line and its lines as they were written. The context is not touched.
pub fn process_text_block<'a>(input: &'a str, context: &mut HsmlProcessContext) -> (r: Result<
    (&'a str, &'a str),
    ParseFailure,
>)
    ensures
        is_token_outcome(r, spec_process_text_block(input@, old(context)@)),
        *final(context) == *old(context),
{
    let chars = to_chars(input);
    let unit = unit_chars(context);
    let prefix = block_prefix_chars(&unit, context.indent_level);
    match process_text_block_at(chars.as_slice(), 0, prefix.as_slice()) {
        Ok((start, end)) => token_on(input, chars.len(), Ok(end), start, 0),
        Err(f) => token_on(input, chars.len(), Err(f), 0, 0),
    }
}

} // verus!
