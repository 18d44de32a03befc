//! Properties proved of the scan model, and through `scan_tokens`' contract
//! of the scanner itself.

use vstd::prelude::*;

use crate::lexing::{
    blank_char, comment_end, lemma_comment_end_bounds, lemma_ident_end_bounds,
    lemma_number_end_bounds, lemma_scan_step_advances, lemma_string_body_end_bounds, operator_kinds,
    scan_from, scan_step, single_kind, Step,
};
use crate::token::{keyword_of, spelling, ErrorModel, Keyword, KindModel, TokenModel};

verus! {

/// The characters a token kind without a payload is always written with.
pub open spec fn fixed_lexeme(k: KindModel) -> Seq<char> {
    match k {
        KindModel::OpenParenthesis => seq!['('],
        KindModel::CloseParenthesis => seq![')'],
        KindModel::OpenCurlyBracket => seq!['{'],
        KindModel::CloseCurlyBracket => seq!['}'],
        KindModel::Comma => seq![','],
        KindModel::Dot => seq!['.'],
        KindModel::Minus => seq!['-'],
        KindModel::Plus => seq!['+'],
        KindModel::Semicolon => seq![';'],
        KindModel::Slash => seq!['/'],
        KindModel::Asterisk => seq!['*'],
        KindModel::Exclamation => seq!['!'],
        KindModel::ExclamationEqual => seq!['!', '='],
        KindModel::Equal => seq!['='],
        KindModel::EqualEqual => seq!['=', '='],
        KindModel::Greater => seq!['>'],
        KindModel::GreaterEqual => seq!['>', '='],
        KindModel::Less => seq!['<'],
        KindModel::LessEqual => seq!['<', '='],
        KindModel::Identifier(_) => Seq::empty(),
        KindModel::StringLit(_) => Seq::empty(),
        KindModel::Number(_) => Seq::empty(),
        KindModel::Keyword(_) => Seq::empty(),
        KindModel::Eof => Seq::empty(),
    }
}

/// The round trip between a token and its source: the token's span lies
/// inside the source, re-slicing the source at `[start, end)` reproduces the
/// classified characters for the fixed kinds, and each payload is the stated
/// function of that same span.  No token is ever an `Eof` marker.
pub open spec fn token_matches_source(src: Seq<char>, t: TokenModel) -> bool {
    &&& 0 <= t.start <= t.end <= src.len()
    &&& match t.kind {
        KindModel::Identifier(name) => name == src.subrange(t.start, t.end),
        KindModel::StringLit(contents) => {
            &&& t.start + 2 <= t.end
            &&& src[t.start] == '"'
            &&& src[t.end - 1] == '"'
            &&& contents == src.subrange(t.start + 1, t.end - 1)
        },
        KindModel::Number(lexeme) => lexeme == src.subrange(t.start, t.end),
        KindModel::Keyword(k) => spelling(k) == src.subrange(t.start, t.end),
        KindModel::Eof => false,
        _ => src.subrange(t.start, t.end) == fixed_lexeme(t.kind),
    }
}

/// A keyword token is recognized by exact span equality, never by prefix: the
/// keyword table maps a spelling to `k` exactly when it is `k`'s spelling.
pub proof fn lemma_keyword_exact(s: Seq<char>, k: Keyword)
    ensures
        keyword_of(s) == Some(k) <==> s == spelling(k),
{
    broadcast use vstd::string::group_string_axioms;

    reveal_strlit("and");
    reveal_strlit("class");
    reveal_strlit("else");
    reveal_strlit("false");
    reveal_strlit("fun");
    reveal_strlit("for");
    reveal_strlit("if");
    reveal_strlit("nil");
    reveal_strlit("or");
    reveal_strlit("print");
    reveal_strlit("return");
    reveal_strlit("super");
    reveal_strlit("this");
    reveal_strlit("true");
    reveal_strlit("var");
    reveal_strlit("while");
    assert("and"@.len() == 3 && "and"@[0] == 'a');
    assert("class"@.len() == 5 && "class"@[0] == 'c');
    assert("else"@.len() == 4 && "else"@[0] == 'e');
    assert("false"@.len() == 5 && "false"@[0] == 'f');
    assert("fun"@.len() == 3 && "fun"@[0] == 'f' && "fun"@[1] == 'u');
    assert("for"@.len() == 3 && "for"@[0] == 'f' && "for"@[1] == 'o');
    assert("if"@.len() == 2 && "if"@[0] == 'i');
    assert("nil"@.len() == 3 && "nil"@[0] == 'n');
    assert("or"@.len() == 2 && "or"@[0] == 'o');
    assert("print"@.len() == 5 && "print"@[0] == 'p');
    assert("return"@.len() == 6 && "return"@[0] == 'r');
    assert("super"@.len() == 5 && "super"@[0] == 's');
    assert("this"@.len() == 4 && "this"@[0] == 't' && "this"@[1] == 'h');
    assert("true"@.len() == 4 && "true"@[0] == 't' && "true"@[1] == 'r');
    assert("var"@.len() == 3 && "var"@[0] == 'v');
    assert("while"@.len() == 5 && "while"@[0] == 'w');
}

/// The token one scan step emits matches its source span.
proof fn lemma_step_token_matches(src: Seq<char>, pos: int, line: int)
    requires
        0 <= pos < src.len(),
    ensures
        scan_step(src, pos, line) matches Step::Emit { token, .. } ==> token_matches_source(
            src,
            token,
        ),
{
    let c = src[pos];
    if single_kind(c) is Some {
        assert(src.subrange(pos, pos + 1) =~= seq![c]);
    } else if c == '!' || c == '=' || c == '<' || c == '>' {
        if pos + 1 < src.len() && src[pos + 1] == '=' {
            assert(src.subrange(pos, pos + 2) =~= seq![c, '=']);
        } else {
            assert(src.subrange(pos, pos + 1) =~= seq![c]);
        }
    } else if c == '/' {
        if !(pos + 1 < src.len() && src[pos + 1] == '/') {
            assert(src.subrange(pos, pos + 1) =~= seq![c]);
        }
    } else if c == '"' {
        lemma_string_body_end_bounds(src, pos + 1);
    } else if '0' <= c && c <= '9' {
        lemma_number_end_bounds(src, pos + 1);
    } else if ('a' <= c && c <= 'z') || ('A' <= c && c <= 'Z') || c == '_' {
        lemma_ident_end_bounds(src, pos + 1);
    }
}

/// Round trip: every token of a successful scan matches its source span, as
/// [`token_matches_source`] states.
pub proof fn lemma_scan_matches_source(src: Seq<char>, pos: int, line: int)
    requires
        0 <= pos <= src.len(),
    ensures
        scan_from(src, pos, line) matches Ok(tokens) ==> forall|i: int|
            0 <= i < tokens.len() ==> token_matches_source(src, #[trigger] tokens[i]),
    decreases src.len() - pos,
{
    if pos < src.len() {
        lemma_scan_step_advances(src, pos, line);
        match scan_step(src, pos, line) {
            Step::Emit { token, next, line: l2 } => {
                lemma_step_token_matches(src, pos, line);
                lemma_scan_matches_source(src, next, l2);
                if let Ok(rest) = scan_from(src, next, l2) {
                    assert forall|i: int| 0 <= i < (seq![token] + rest).len() implies
                        token_matches_source(src, #[trigger] (seq![token] + rest)[i]) by {
                        if i > 0 {
                            assert((seq![token] + rest)[i] == rest[i - 1]);
                        }
                    }
                }
            },
            Step::Skip { next, line: l2 } => {
                lemma_scan_matches_source(src, next, l2);
            },
            Step::Fail { .. } => {},
        }
    }
}

/// A source made of nothing but blanks, newlines and line comments, from
/// `pos` on.
pub open spec fn trivia_from(src: Seq<char>, pos: int) -> bool
    decreases src.len() - pos when 0 <= pos via trivia_from_decreases
{
    ||| pos >= src.len()
    ||| ((blank_char(src[pos]) || src[pos] == '\n') && trivia_from(src, pos + 1))
    ||| (src[pos] == '/' && pos + 1 < src.len() && src[pos + 1] == '/' && trivia_from(
        src,
        comment_end(src, pos + 2),
    ))
}

#[via_fn]
proof fn trivia_from_decreases(src: Seq<char>, pos: int) {
    if 0 <= pos && pos + 2 <= src.len() {
        lemma_comment_end_bounds(src, pos + 2);
    }
}

/// A source containing only whitespace and comments scans to the empty token
/// sequence, with no error, whatever line the scan starts on.
pub proof fn lemma_trivia_scans_empty(src: Seq<char>, pos: int, line: int)
    requires
        0 <= pos <= src.len(),
        trivia_from(src, pos),
    ensures
        scan_from(src, pos, line) == Ok::<Seq<TokenModel>, ErrorModel>(Seq::empty()),
    decreases src.len() - pos,
{
    if pos < src.len() {
        let c = src[pos];
        if blank_char(c) || c == '\n' {
            lemma_trivia_scans_empty(src, pos + 1, if c == '\n' {
                line + 1
            } else {
                line
            });
        } else {
            lemma_comment_end_bounds(src, pos + 2);
            lemma_trivia_scans_empty(src, comment_end(src, pos + 2), line);
        }
    }
}

/// Uniform two-character operator lookahead, for each of the four operator
/// characters `!`, `=`, `<`, `>`: followed directly by `=`, the pair scans as
/// one token of the two-character kind spanning both characters; alone, the
/// operator scans as one token of the one-character kind.  The rule is the
/// same for all four.
pub proof fn lemma_operator_lookahead(c: char)
    requires
        operator_kinds(c) is Some,
    ensures
        operator_kinds(c) matches Some(pair) ==> {
            &&& scan_from(seq![c], 0, 1) == Ok::<Seq<TokenModel>, ErrorModel>(
                seq![TokenModel { kind: pair.0, start: 0, end: 1, line: 1 }],
            )
            &&& scan_from(seq![c, '='], 0, 1) == Ok::<Seq<TokenModel>, ErrorModel>(
                seq![TokenModel { kind: pair.1, start: 0, end: 2, line: 1 }],
            )
        },
{
    let alone = seq![c];
    let paired = seq![c, '='];
    assert(scan_from(alone, 1, 1) == Ok::<Seq<TokenModel>, ErrorModel>(Seq::empty()));
    assert(scan_from(paired, 2, 1) == Ok::<Seq<TokenModel>, ErrorModel>(Seq::empty()));
    if let Step::Emit { token, .. } = scan_step(alone, 0, 1) {
        assert(seq![token] + Seq::<TokenModel>::empty() =~= seq![token]);
    }
    if let Step::Emit { token, .. } = scan_step(paired, 0, 1) {
        assert(seq![token] + Seq::<TokenModel>::empty() =~= seq![token]);
    }
}

/// Scanning one fixed single-character punctuation mark alone yields exactly
/// one token of the matching kind, spanning `[0, 1)` on line 1.  A lone `/`
/// is such a mark too: it opens a comment only when doubled.
pub proof fn lemma_single_punctuation(c: char)
    requires
        single_kind(c) is Some || c == '/',
    ensures
        single_kind(c) matches Some(k) ==> scan_from(seq![c], 0, 1) == Ok::<
            Seq<TokenModel>,
            ErrorModel,
        >(seq![TokenModel { kind: k, start: 0, end: 1, line: 1 }]),
        c == '/' ==> scan_from(seq![c], 0, 1) == Ok::<Seq<TokenModel>, ErrorModel>(
            seq![TokenModel { kind: KindModel::Slash, start: 0, end: 1, line: 1 }],
        ),
{
    let src = seq![c];
    assert(src.len() == 1);
    assert(scan_from(src, 1, 1) == Ok::<Seq<TokenModel>, ErrorModel>(Seq::empty()));
    if let Step::Emit { token, .. } = scan_step(src, 0, 1) {
        assert(seq![token] + Seq::<TokenModel>::empty() =~= seq![token]);
    }
}

} // verus!
