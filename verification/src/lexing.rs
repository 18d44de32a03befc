//! The mathematical model of the scan: what one scan step does at a given
//! cursor and line, and what the whole scan of a source returns.  The
//! executable [`crate::scanner::Scanner`] is proved to follow this model.

use vstd::prelude::*;

use crate::token::{keyword_of, ErrorModel, KindModel, TokenModel};

verus! {

/// An ASCII decimal digit.
pub open spec fn digit_char(c: char) -> bool {
    '0' <= c && c <= '9'
}

/// An ASCII letter or underscore: what an identifier may begin with.
pub open spec fn alpha_char(c: char) -> bool {
    ('a' <= c && c <= 'z') || ('A' <= c && c <= 'Z') || c == '_'
}

/// What an identifier may continue with.
pub open spec fn ident_char(c: char) -> bool {
    digit_char(c) || alpha_char(c)
}

/// Horizontal whitespace, skipped without a token and without a line change.
pub open spec fn blank_char(c: char) -> bool {
    c == ' ' || c == '\r' || c == '\t'
}

/// The first index at or after `pos` holding no digit, or the end of `src`.
pub open spec fn digits_end(src: Seq<char>, pos: int) -> int
    decreases src.len() - pos,
{
    if 0 <= pos < src.len() && digit_char(src[pos]) {
        digits_end(src, pos + 1)
    } else {
        pos
    }
}

/// The first index at or after `pos` holding no identifier character, or the
/// end of `src`.
pub open spec fn ident_end(src: Seq<char>, pos: int) -> int
    decreases src.len() - pos,
{
    if 0 <= pos < src.len() && ident_char(src[pos]) {
        ident_end(src, pos + 1)
    } else {
        pos
    }
}

/// Where a line comment whose body starts at `pos` ends: the index of the
/// next newline (left unconsumed), or the end of `src`.
pub open spec fn comment_end(src: Seq<char>, pos: int) -> int
    decreases src.len() - pos,
{
    if 0 <= pos < src.len() && src[pos] != '\n' {
        comment_end(src, pos + 1)
    } else {
        pos
    }
}

/// The index of the first `"` at or after `pos`, or the end of `src` when the
/// string literal is unterminated.
pub open spec fn string_body_end(src: Seq<char>, pos: int) -> int
    decreases src.len() - pos,
{
    if 0 <= pos < src.len() && src[pos] != '"' {
        string_body_end(src, pos + 1)
    } else {
        pos
    }
}

/// How many newline characters `src` holds in the index range `[from, to)`.
pub open spec fn newline_count(src: Seq<char>, from: int, to: int) -> int
    decreases to - from,
{
    if from < to {
        newline_count(src, from, to - 1) + (if src[to - 1] == '\n' {
            1int
        } else {
            0int
        })
    } else {
        0
    }
}

/// Where a number whose first digit stood just before `pos` ends: the maximal
/// run of digits, extended by `.` and a further digit run only when the dot is
/// immediately followed by a digit.
pub open spec fn number_end(src: Seq<char>, pos: int) -> int {
    let whole = digits_end(src, pos);
    if whole < src.len() && src[whole] == '.' && whole + 1 < src.len() && digit_char(
        src[whole + 1],
    ) {
        digits_end(src, whole + 2)
    } else {
        whole
    }
}

/// The kind a fixed single-character punctuation mark scans to, if `c` is one.
/// `/` is not here: it opens a line comment when doubled.
pub open spec fn single_kind(c: char) -> Option<KindModel> {
    if c == '(' {
        Some(KindModel::OpenParenthesis)
    } else if c == ')' {
        Some(KindModel::CloseParenthesis)
    } else if c == '{' {
        Some(KindModel::OpenCurlyBracket)
    } else if c == '}' {
        Some(KindModel::CloseCurlyBracket)
    } else if c == ',' {
        Some(KindModel::Comma)
    } else if c == '.' {
        Some(KindModel::Dot)
    } else if c == '-' {
        Some(KindModel::Minus)
    } else if c == '+' {
        Some(KindModel::Plus)
    } else if c == ';' {
        Some(KindModel::Semicolon)
    } else if c == '*' {
        Some(KindModel::Asterisk)
    } else {
        None
    }
}

/// For `!`, `=`, `<`, `>`: the kind the character scans to alone, and the kind
/// it scans to when the character at the cursor after it is `=`.
pub open spec fn operator_kinds(c: char) -> Option<(KindModel, KindModel)> {
    if c == '!' {
        Some((KindModel::Exclamation, KindModel::ExclamationEqual))
    } else if c == '=' {
        Some((KindModel::Equal, KindModel::EqualEqual))
    } else if c == '<' {
        Some((KindModel::Less, KindModel::LessEqual))
    } else if c == '>' {
        Some((KindModel::Greater, KindModel::GreaterEqual))
    } else {
        None
    }
}

/// What one scan step at cursor `pos`, line `line` does.
pub enum Step {
    /// A token was recognized; the cursor moves to `next` and the line counter
    /// to `line` (a string literal may span newlines).
    Emit { token: TokenModel, next: int, line: int },
    /// Whitespace or a comment was skipped without a token.
    Skip { next: int, line: int },
    /// The scan fails here, and with it the whole scan.
    Fail { error: ErrorModel },
}

/// One scan step: dispatch on the character at `pos`.
///
/// A token's `line` is the line its first character stood on; the step's
/// resulting line counts every newline consumed, including those inside a
/// string literal.  Input already exhausted before a character could be read
/// is an error; the whole scan never reaches that case, since it stops at
/// the end of the source.
pub open spec fn scan_step(src: Seq<char>, pos: int, line: int) -> Step {
    if pos >= src.len() {
        Step::Fail { error: ErrorModel { message: "Invalid syntax."@, line } }
    } else {
        let c = src[pos];
        match single_kind(c) {
            Some(k) => Step::Emit {
                token: TokenModel { kind: k, start: pos, end: pos + 1, line },
                next: pos + 1,
                line,
            },
            None => match operator_kinds(c) {
                Some(pair) => if pos + 1 < src.len() && src[pos + 1] == '=' {
                    Step::Emit {
                        token: TokenModel { kind: pair.1, start: pos, end: pos + 2, line },
                        next: pos + 2,
                        line,
                    }
                } else {
                    Step::Emit {
                        token: TokenModel { kind: pair.0, start: pos, end: pos + 1, line },
                        next: pos + 1,
                        line,
                    }
                },
                None => if c == '/' {
                    if pos + 1 < src.len() && src[pos + 1] == '/' {
                        Step::Skip { next: comment_end(src, pos + 2), line }
                    } else {
                        Step::Emit {
                            token: TokenModel { kind: KindModel::Slash, start: pos, end: pos + 1, line },
                            next: pos + 1,
                            line,
                        }
                    }
                } else if c == '"' {
                    let close = string_body_end(src, pos + 1);
                    if close < src.len() {
                        Step::Emit {
                            token: TokenModel {
                                kind: KindModel::StringLit(src.subrange(pos + 1, close)),
                                start: pos,
                                end: close + 1,
                                line,
                            },
                            next: close + 1,
                            line: line + newline_count(src, pos + 1, close),
                        }
                    } else {
                        Step::Fail {
                            error: ErrorModel {
                                message: "EOF while scanning string literal"@,
                                line: line + newline_count(src, pos + 1, close),
                            },
                        }
                    }
                } else if digit_char(c) {
                    let end = number_end(src, pos + 1);
                    Step::Emit {
                        token: TokenModel {
                            kind: KindModel::Number(src.subrange(pos, end)),
                            start: pos,
                            end,
                            line,
                        },
                        next: end,
                        line,
                    }
                } else if alpha_char(c) {
                    let end = ident_end(src, pos + 1);
                    let lexeme = src.subrange(pos, end);
                    Step::Emit {
                        token: TokenModel {
                            kind: match keyword_of(lexeme) {
                                Some(k) => KindModel::Keyword(k),
                                None => KindModel::Identifier(lexeme),
                            },
                            start: pos,
                            end,
                            line,
                        },
                        next: end,
                        line,
                    }
                } else if blank_char(c) {
                    Step::Skip { next: pos + 1, line }
                } else if c == '\n' {
                    Step::Skip { next: pos + 1, line: line + 1 }
                } else {
                    Step::Fail { error: ErrorModel { message: "Invalid syntax."@, line } }
                },
            },
        }
    }
}

/// The whole scan from cursor `pos` on line `line`: the ordered tokens of the
/// rest of the source, or the first error.  An error discards every token
/// recognized before it.
pub open spec fn scan_from(src: Seq<char>, pos: int, line: int) -> Result<
    Seq<TokenModel>,
    ErrorModel,
>
    decreases src.len() - pos when 0 <= pos via scan_from_decreases
{
    if pos >= src.len() {
        Ok(Seq::empty())
    } else {
        match scan_step(src, pos, line) {
            Step::Emit { token, next, line: l2 } => match scan_from(src, next, l2) {
                Ok(rest) => Ok(seq![token] + rest),
                Err(e) => Err(e),
            },
            Step::Skip { next, line: l2 } => scan_from(src, next, l2),
            Step::Fail { error } => Err(error),
        }
    }
}

#[via_fn]
proof fn scan_from_decreases(src: Seq<char>, pos: int, line: int) {
    if 0 <= pos < src.len() {
        lemma_scan_step_advances(src, pos, line);
    }
}

/// The cursor strictly advances on every step that does not fail, and stays
/// within the source: scanning terminates.
pub proof fn lemma_scan_step_advances(src: Seq<char>, pos: int, line: int)
    requires
        0 <= pos < src.len(),
    ensures
        match scan_step(src, pos, line) {
            Step::Emit { next, .. } => pos < next <= src.len(),
            Step::Skip { next, .. } => pos < next <= src.len(),
            Step::Fail { .. } => true,
        },
{
    let c = src[pos];
    if single_kind(c) is None && operator_kinds(c) is None {
        if c == '/' && pos + 1 < src.len() && src[pos + 1] == '/' {
            lemma_comment_end_bounds(src, pos + 2);
        } else if c == '"' {
            lemma_string_body_end_bounds(src, pos + 1);
        } else if digit_char(c) {
            lemma_number_end_bounds(src, pos + 1);
        } else if alpha_char(c) {
            lemma_ident_end_bounds(src, pos + 1);
        }
    }
}

/// `digits_end` stays between its start and the end of the source.
pub proof fn lemma_digits_end_bounds(src: Seq<char>, pos: int)
    requires
        0 <= pos <= src.len(),
    ensures
        pos <= digits_end(src, pos) <= src.len(),
    decreases src.len() - pos,
{
    if pos < src.len() && digit_char(src[pos]) {
        lemma_digits_end_bounds(src, pos + 1);
    }
}

/// `ident_end` stays between its start and the end of the source.
pub proof fn lemma_ident_end_bounds(src: Seq<char>, pos: int)
    requires
        0 <= pos <= src.len(),
    ensures
        pos <= ident_end(src, pos) <= src.len(),
    decreases src.len() - pos,
{
    if pos < src.len() && ident_char(src[pos]) {
        lemma_ident_end_bounds(src, pos + 1);
    }
}

/// `comment_end` stays between its start and the end of the source.
pub proof fn lemma_comment_end_bounds(src: Seq<char>, pos: int)
    requires
        0 <= pos <= src.len(),
    ensures
        pos <= comment_end(src, pos) <= src.len(),
    decreases src.len() - pos,
{
    if pos < src.len() && src[pos] != '\n' {
        lemma_comment_end_bounds(src, pos + 1);
    }
}

/// `string_body_end` stays between its start and the end of the source; where
/// it stops short of the end it stops on the closing quote, and no quote
/// stands before it.
pub proof fn lemma_string_body_end_bounds(src: Seq<char>, pos: int)
    requires
        0 <= pos <= src.len(),
    ensures
        pos <= string_body_end(src, pos) <= src.len(),
        string_body_end(src, pos) < src.len() ==> src[string_body_end(src, pos)] == '"',
        forall|i: int| pos <= i < string_body_end(src, pos) ==> src[i] != '"',
    decreases src.len() - pos,
{
    if pos < src.len() && src[pos] != '"' {
        lemma_string_body_end_bounds(src, pos + 1);
    }
}

/// `number_end` stays between its start and the end of the source.
pub proof fn lemma_number_end_bounds(src: Seq<char>, pos: int)
    requires
        0 <= pos <= src.len(),
    ensures
        pos <= number_end(src, pos) <= src.len(),
{
    lemma_digits_end_bounds(src, pos);
    let whole = digits_end(src, pos);
    if whole < src.len() && src[whole] == '.' && whole + 1 < src.len() && digit_char(
        src[whole + 1],
    ) {
        lemma_digits_end_bounds(src, whole + 2);
    }
}

} // verus!
