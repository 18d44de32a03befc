//! The scanner: owns one source text and produces its token sequence.

use vstd::prelude::*;
use vstd::string::StrSliceExecFns;

use crate::lexing::{
    alpha_char, comment_end, digit_char, digits_end, ident_char, ident_end,
    lemma_scan_step_advances, newline_count, number_end, scan_from, scan_step, string_body_end,
    Step,
};
use crate::token::{keyword_of, Error, ErrorModel, Keyword, Kind, KindModel, Position, Token, TokenModel};

verus! {

/// Scan state over one source text: the source as a character sequence, the
/// cursor, the start of the lexeme being recognized, and the 1-based line
/// counter.
pub struct Scanner {
    source: String,
    current_position: usize,
    current_start: usize,
    current_line: usize,
}

impl Scanner {
    /// The source as the character sequence the scan is specified over.
    pub closed spec fn src(&self) -> Seq<char> {
        self.source@
    }

    /// The cursor, as a mathematical integer.
    pub closed spec fn pos(&self) -> int {
        self.current_position as int
    }

    /// The start of the lexeme being recognized, as a mathematical integer.
    pub closed spec fn start(&self) -> int {
        self.current_start as int
    }

    /// The line counter, as a mathematical integer.
    pub closed spec fn line(&self) -> int {
        self.current_line as int
    }

    /// The scanner's invariant.  The cursor never leaves the source, the
    /// lexeme start never passes the cursor, and the line counter, which
    /// began at 1 and grew by at most one per consumed newline, stays small
    /// enough that counting one more line cannot overflow.
    pub open spec fn wf(&self) -> bool {
        &&& self.pos() <= self.src().len()
        &&& self.start() <= self.pos()
        &&& 1 <= self.line()
        &&& self.line() <= self.pos() + 1
        &&& self.src().len() < usize::MAX
    }

    /// A fresh scanner over `source`, with the cursor at the first character
    /// and the line counter at 1.
    pub fn new(source: String) -> (s: Scanner)
        requires
            source@.len() < usize::MAX,
        ensures
            s.wf(),
            s.src() == source@,
            s.pos() == 0,
            s.start() == 0,
            s.line() == 1,
    {
        Scanner { source, current_position: 0, current_start: 0, current_line: 1 }
    }

    /// Moves the cursor one character forward.
    fn advance(&mut self)
        requires
            old(self).pos() < usize::MAX,
        ensures
            final(self).source == old(self).source,
            final(self).current_start == old(self).current_start,
            final(self).current_line == old(self).current_line,
            final(self).pos() == old(self).pos() + 1,
    {
        self.current_position += 1;
    }

    /// Counts one more line.
    fn advance_line(&mut self)
        requires
            old(self).line() < usize::MAX,
        ensures
            final(self).source == old(self).source,
            final(self).current_start == old(self).current_start,
            final(self).current_position == old(self).current_position,
            final(self).line() == old(self).line() + 1,
    {
        self.current_line += 1;
    }

    /// Marks the cursor as the start of the next lexeme.
    fn mark_start(&mut self)
        ensures
            final(self).source == old(self).source,
            final(self).current_position == old(self).current_position,
            final(self).current_line == old(self).current_line,
            final(self).start() == old(self).pos(),
    {
        self.current_start = self.current_position;
    }

    /// The character at `position`.
    fn get_character_at_position(&self, position: usize) -> (c: char)
        requires
            position < self.src().len(),
        ensures
            c == self.src()[position as int],
    {
        self.source.as_str().get_char(position)
    }

    /// Whether the whole source has been consumed.
    fn finished(&self) -> (r: bool)
        ensures
            r == (self.pos() >= self.src().len()),
    {
        self.current_position >= self.source.as_str().unicode_len()
    }

    /// Whether a character stands at `position`.
    fn is_valid_position(&self, position: usize) -> (r: bool)
        ensures
            r == (position < self.src().len()),
    {
        position < self.source.as_str().unicode_len()
    }

    /// The character at the cursor, if one is left.
    fn get_current_char(&self) -> (r: Option<char>)
        ensures
            r == (if self.pos() < self.src().len() {
                Some(self.src()[self.pos()])
            } else {
                None::<char>
            }),
    {
        match self.finished() {
            true => None,
            false => Some(self.get_character_at_position(self.current_position)),
        }
    }

    /// The character one past the cursor, if one is there.
    fn get_next_char(&self) -> (r: Option<char>)
        requires
            self.pos() < usize::MAX,
        ensures
            r == (if self.pos() + 1 < self.src().len() {
                Some(self.src()[self.pos() + 1])
            } else {
                None::<char>
            }),
    {
        match self.is_valid_position(self.current_position + 1) {
            false => None,
            true => Some(self.get_character_at_position(self.current_position + 1)),
        }
    }

    /// The character at the cursor, consuming it.  Past the end of the
    /// source there is nothing left to read, but the cursor still moves.
    fn get_current_char_and_advance(&mut self) -> (r: Option<char>)
        requires
            old(self).pos() <= old(self).src().len(),
            old(self).src().len() < usize::MAX,
        ensures
            final(self).source == old(self).source,
            final(self).current_start == old(self).current_start,
            final(self).current_line == old(self).current_line,
            final(self).pos() == old(self).pos() + 1,
            r == (if old(self).pos() < old(self).src().len() {
                Some(old(self).src()[old(self).pos()])
            } else {
                None::<char>
            }),
    {
        let character = self.get_current_char();
        self.advance();
        character
    }

    /// A token of kind `kind` spanning the current lexeme, on the current
    /// line.
    fn build_token(&self, kind: Kind) -> (t: Token)
        ensures
            t.kind == kind,
            t.position == (Position {
                start: self.current_start,
                end: self.current_position,
                line: self.current_line,
            }),
    {
        Token {
            kind,
            position: Position {
                start: self.current_start,
                end: self.current_position,
                line: self.current_line,
            },
        }
    }

    /// An error carrying `message` and the current line.
    fn build_error(&self, message: String) -> (e: Error)
        ensures
            e.message == message,
            e.line == self.current_line,
    {
        Error { message, line: self.current_line }
    }

    /// Whether the character at the cursor is `expected`.
    fn current_char_is(&self, expected: char) -> (r: bool)
        ensures
            r == (self.pos() < self.src().len() && self.src()[self.pos()] == expected),
    {
        match self.get_current_char() {
            Some(c) => c == expected,
            None => false,
        }
    }

    /// Whether the cursor still stands inside a string literal's body: on a
    /// character that is not the closing quote.
    fn in_string_body(&self) -> (r: bool)
        ensures
            r == (self.pos() < self.src().len() && self.src()[self.pos()] != '"'),
    {
        match self.get_current_char() {
            Some(c) => c != '"',
            None => false,
        }
    }

    /// Whether the cursor still stands inside a line comment's body: on a
    /// character that is not a newline.
    fn in_comment_body(&self) -> (r: bool)
        ensures
            r == (self.pos() < self.src().len() && self.src()[self.pos()] != '\n'),
    {
        match self.get_current_char() {
            Some(c) => c != '\n',
            None => false,
        }
    }

    /// Scans a string literal's body and closing quote; the opening quote is
    /// already consumed.  Newlines inside the literal advance the line
    /// counter; the contents are the characters between the quotes, verbatim.
    /// Fails when the source ends before a closing quote.
    #[verifier::loop_isolation(false)]
    fn scan_string(&mut self) -> (r: Result<Option<Token>, Error>)
        requires
            old(self).wf(),
            old(self).start() + 1 == old(self).pos(),
            old(self).src()[old(self).start()] == '"',
        ensures
            final(self).source == old(self).source,
            final(self).wf(),
            ({
                let src = old(self).src();
                let body = old(self).pos();
                let close = string_body_end(src, body);
                if close < src.len() {
                    &&& r matches Ok(Some(t)) && t@ == (TokenModel {
                        kind: KindModel::StringLit(src.subrange(body, close)),
                        start: old(self).start(),
                        end: close + 1,
                        line: old(self).line(),
                    })
                    &&& final(self).pos() == close + 1
                    &&& final(self).line() == old(self).line() + newline_count(src, body, close)
                } else {
                    &&& r matches Err(e) && e@ == (ErrorModel {
                        message: "EOF while scanning string literal"@,
                        line: old(self).line() + newline_count(src, body, close),
                    })
                    &&& final(self).pos() == src.len()
                    &&& final(self).line() == old(self).line() + newline_count(src, body, close)
                }
            }),
    {
        let entry_line = self.current_line;
        let ghost src = self.src();
        let ghost body = self.pos();
        let ghost entry = *self;
        while self.in_string_body()
            invariant
                self.wf(),
                self.source == entry.source,
                self.current_start == entry.current_start,
                body <= self.pos() <= src.len(),
                string_body_end(src, body) == string_body_end(src, self.pos()),
                self.line() == entry.line() + newline_count(src, body, self.pos()),
            decreases src.len() - self.pos(),
        {
            if self.current_char_is('\n') {
                self.advance_line();
            }
            self.advance();
        }
        if self.finished() {
            Err(self.build_error("EOF while scanning string literal".to_owned()))
        } else {
            self.advance();
            let contents = self.source.as_str().substring_char(
                self.current_start + 1,
                self.current_position - 1,
            ).to_owned();
            let token = Token {
                kind: Kind::String(contents),
                position: Position {
                    start: self.current_start,
                    end: self.current_position,
                    line: entry_line,
                },
            };
            Ok(Some(token))
        }
    }

    /// Scans the rest of a number: further digits, and a fractional part only
    /// when the dot is immediately followed by a digit.  The first digit is
    /// already consumed; the token carries the matched span verbatim.
    #[verifier::loop_isolation(false)]
    fn scan_number(&mut self) -> (r: Result<Option<Token>, Error>)
        requires
            old(self).wf(),
            old(self).start() + 1 == old(self).pos(),
            digit_char(old(self).src()[old(self).start()]),
        ensures
            final(self).source == old(self).source,
            final(self).wf(),
            final(self).pos() == number_end(old(self).src(), old(self).pos()),
            final(self).line() == old(self).line(),
            ({
                let src = old(self).src();
                let end = number_end(src, old(self).pos());
                r matches Ok(Some(t)) && t@ == (TokenModel {
                    kind: KindModel::Number(src.subrange(old(self).start(), end)),
                    start: old(self).start(),
                    end: end,
                    line: old(self).line(),
                })
            }),
    {
        let ghost src = self.src();
        let ghost body = self.pos();
        let ghost entry = *self;
        while is_numeric(self.get_current_char())
            invariant
                self.wf(),
                self.source == entry.source,
                self.current_start == entry.current_start,
                self.current_line == entry.current_line,
                body <= self.pos() <= src.len(),
                digits_end(src, body) == digits_end(src, self.pos()),
            decreases src.len() - self.pos(),
        {
            self.advance();
        }
        let has_fraction = self.current_char_is('.') && is_numeric(self.get_next_char());
        if has_fraction {
            self.advance();
            self.advance();
            let ghost fraction = self.pos();
            while is_numeric(self.get_current_char())
                invariant
                    self.wf(),
                    self.source == entry.source,
                    self.current_start == entry.current_start,
                    self.current_line == entry.current_line,
                    fraction <= self.pos() <= src.len(),
                    digits_end(src, fraction) == digits_end(src, self.pos()),
                decreases src.len() - self.pos(),
            {
                self.advance();
            }
        }
        let lexeme = self.source.as_str().substring_char(
            self.current_start,
            self.current_position,
        ).to_owned();
        Ok(Some(self.build_token(Kind::Number(lexeme))))
    }

    /// Scans the rest of an identifier-shaped lexeme; its first character is
    /// already consumed.  A lexeme that spells a reserved word exactly becomes
    /// that keyword's token, any other becomes an identifier token.
    #[verifier::loop_isolation(false)]
    fn scan_identifier(&mut self) -> (r: Result<Option<Token>, Error>)
        requires
            old(self).wf(),
            old(self).start() + 1 == old(self).pos(),
            alpha_char(old(self).src()[old(self).start()]),
        ensures
            final(self).source == old(self).source,
            final(self).wf(),
            final(self).pos() == ident_end(old(self).src(), old(self).pos()),
            final(self).line() == old(self).line(),
            ({
                let src = old(self).src();
                let end = ident_end(src, old(self).pos());
                let lexeme = src.subrange(old(self).start(), end);
                r matches Ok(Some(t)) && t@ == (TokenModel {
                    kind: match keyword_of(lexeme) {
                        Some(k) => KindModel::Keyword(k),
                        None => KindModel::Identifier(lexeme),
                    },
                    start: old(self).start(),
                    end: end,
                    line: old(self).line(),
                })
            }),
    {
        let ghost src = self.src();
        let ghost body = self.pos();
        let ghost entry = *self;
        while is_alphanumeric(self.get_current_char())
            invariant
                self.wf(),
                self.source == entry.source,
                self.current_start == entry.current_start,
                self.current_line == entry.current_line,
                body <= self.pos() <= src.len(),
                ident_end(src, body) == ident_end(src, self.pos()),
            decreases src.len() - self.pos(),
        {
            self.advance();
        }
        let lexeme = self.source.as_str().substring_char(
            self.current_start,
            self.current_position,
        );
        match Keyword::from_str(lexeme) {
            Ok(keyword) => Ok(Some(self.build_token(Kind::Keyword(keyword)))),
            Err(_) => Ok(Some(self.build_token(Kind::Identifier(lexeme.to_owned())))),
        }
    }

    /// One scan step: consumes one lexeme, a piece of trivia, or nothing
    /// valid, and behaves as [`scan_step`] says at the entry cursor and line.
    /// Input already exhausted is an error, and the cursor still moves, as in
    /// the dispatch this implements; `scan_tokens` stops before that case.
    #[verifier::loop_isolation(false)]
    fn scan_token(&mut self) -> (r: Result<Option<Token>, Error>)
        requires
            old(self).wf(),
            old(self).start() == old(self).pos(),
        ensures
            final(self).source == old(self).source,
            old(self).pos() < old(self).src().len() ==> final(self).wf(),
            (match scan_step(old(self).src(), old(self).pos(), old(self).line()) {
                Step::Emit { token, next, line } => {
                    &&& r matches Ok(Some(t)) && t@ == token
                    &&& final(self).pos() == next
                    &&& final(self).line() == line
                },
                Step::Skip { next, line } => {
                    &&& r == Ok::<Option<Token>, Error>(None)
                    &&& final(self).pos() == next
                    &&& final(self).line() == line
                },
                Step::Fail { error } => {
                    &&& r matches Err(e) && e@ == error
                    &&& final(self).line() == error.line
                    &&& ({
                        let src = old(self).src();
                        let pos = old(self).pos();
                        if pos < src.len() && src[pos] == '"' {
                            final(self).pos() == src.len()
                        } else {
                            final(self).pos() == pos + 1 && final(self).line() == old(self).line()
                        }
                    })
                },
            }),
    {
        let character_opt = self.get_current_char_and_advance();
        match character_opt {
            Some(character) => {
                if character == '(' {
                    Ok(Some(self.build_token(Kind::OpenParenthesis)))
                } else if character == ')' {
                    Ok(Some(self.build_token(Kind::CloseParenthesis)))
                } else if character == '{' {
                    Ok(Some(self.build_token(Kind::OpenCurlyBracket)))
                } else if character == '}' {
                    Ok(Some(self.build_token(Kind::CloseCurlyBracket)))
                } else if character == ',' {
                    Ok(Some(self.build_token(Kind::Comma)))
                } else if character == '.' {
                    Ok(Some(self.build_token(Kind::Dot)))
                } else if character == '-' {
                    Ok(Some(self.build_token(Kind::Minus)))
                } else if character == '+' {
                    Ok(Some(self.build_token(Kind::Plus)))
                } else if character == ';' {
                    Ok(Some(self.build_token(Kind::Semicolon)))
                } else if character == '*' {
                    Ok(Some(self.build_token(Kind::Asterisk)))
                } else if character == '!' {
                    if self.current_char_is('=') {
                        self.advance();
                        Ok(Some(self.build_token(Kind::ExclamationEqual)))
                    } else {
                        Ok(Some(self.build_token(Kind::Exclamation)))
                    }
                } else if character == '=' {
                    if self.current_char_is('=') {
                        self.advance();
                        Ok(Some(self.build_token(Kind::EqualEqual)))
                    } else {
                        Ok(Some(self.build_token(Kind::Equal)))
                    }
                } else if character == '<' {
                    if self.current_char_is('=') {
                        self.advance();
                        Ok(Some(self.build_token(Kind::LessEqual)))
                    } else {
                        Ok(Some(self.build_token(Kind::Less)))
                    }
                } else if character == '>' {
                    if self.current_char_is('=') {
                        self.advance();
                        Ok(Some(self.build_token(Kind::GreaterEqual)))
                    } else {
                        Ok(Some(self.build_token(Kind::Greater)))
                    }
                } else if character == '/' {
                    if self.current_char_is('/') {
                        let ghost src = self.src();
                        let ghost body = self.pos();
                        while self.in_comment_body()
                            invariant
                                self.wf(),
                                self.source == old(self).source,
                                self.current_start == old(self).current_start,
                                self.current_line == old(self).current_line,
                                body <= self.pos() <= src.len(),
                                comment_end(src, body) == comment_end(src, self.pos()),
                            decreases src.len() - self.pos(),
                        {
                            self.advance();
                        }
                        Ok(None)
                    } else {
                        Ok(Some(self.build_token(Kind::Slash)))
                    }
                } else if character == '"' {
                    self.scan_string()
                } else if '0' <= character && character <= '9' {
                    self.scan_number()
                } else if ('a' <= character && character <= 'z') || ('A' <= character
                    && character <= 'Z') || character == '_' {
                    self.scan_identifier()
                } else if character == ' ' || character == '\r' || character == '\t' {
                    Ok(None)
                } else if character == '\n' {
                    self.advance_line();
                    Ok(None)
                } else {
                    Err(self.build_error("Invalid syntax.".to_owned()))
                }
            },
            None => Err(self.build_error("Invalid syntax.".to_owned())),
        }
    }

    /// Consumes the rest of the source and returns its complete, ordered
    /// token sequence — exactly what [`scan_from`] specifies at the entry
    /// cursor and line — or the first error, discarding any tokens already
    /// recognized.
    #[verifier::loop_isolation(false)]
    pub fn scan_tokens(&mut self) -> (r: Result<Vec<Token>, Error>)
        requires
            old(self).wf(),
        ensures
            final(self).src() == old(self).src(),
            final(self).wf(),
            r is Ok ==> final(self).pos() == old(self).src().len(),
            (match r {
                Ok(tokens) => scan_from(old(self).src(), old(self).pos(), old(self).line())
                    == Ok::<Seq<TokenModel>, ErrorModel>(tokens@.map_values(|t: Token| t@)),
                Err(e) => scan_from(old(self).src(), old(self).pos(), old(self).line())
                    == Err::<Seq<TokenModel>, ErrorModel>(e@),
            }),
    {
        let ghost src = old(self).src();
        let mut tokens: Vec<Token> = Vec::new();
        while !self.finished()
            invariant
                self.wf(),
                self.source == old(self).source,
                (match scan_from(src, self.pos(), self.line()) {
                    Ok(rest) => scan_from(src, old(self).pos(), old(self).line())
                        == Ok::<Seq<TokenModel>, ErrorModel>(
                        tokens@.map_values(|t: Token| t@) + rest,
                    ),
                    Err(e) => scan_from(src, old(self).pos(), old(self).line())
                        == Err::<Seq<TokenModel>, ErrorModel>(e),
                }),
            decreases src.len() - self.pos(),
        {
            self.mark_start();
            let ghost pre_pos = self.pos();
            let ghost pre_line = self.line();
            let ghost toks_pre = tokens@;
            let result = self.scan_token();
            proof {
                lemma_scan_step_advances(src, pre_pos, pre_line);
            }
            match result {
                Ok(Some(token)) => {
                    tokens.push(token);
                    proof {
                        assert(tokens@.map_values(|t: Token| t@) =~= toks_pre.map_values(
                            |t: Token| t@,
                        ).push(token@));
                        if let Step::Emit { token: tm, next, line } = scan_step(
                            src,
                            pre_pos,
                            pre_line,
                        ) {
                            if let Ok(rest) = scan_from(src, next, line) {
                                assert(toks_pre.map_values(|t: Token| t@) + (seq![tm] + rest)
                                    =~= tokens@.map_values(|t: Token| t@) + rest);
                            }
                        }
                    }
                },
                Ok(None) => {},
                Err(error) => {
                    return Err(error);
                },
            }
        }
        proof {
            assert(tokens@.map_values(|t: Token| t@) + Seq::<TokenModel>::empty()
                =~= tokens@.map_values(|t: Token| t@));
        }
        Ok(tokens)
    }
}

/// Whether an ASCII decimal digit was read.
fn is_numeric(character: Option<char>) -> (r: bool)
    ensures
        r == (match character {
            Some(c) => digit_char(c),
            None => false,
        }),
{
    match character {
        Some(c) => '0' <= c && c <= '9',
        None => false,
    }
}

/// Whether an ASCII letter or underscore was read.
fn is_alpha(character: Option<char>) -> (r: bool)
    ensures
        r == (match character {
            Some(c) => alpha_char(c),
            None => false,
        }),
{
    match character {
        Some(c) => ('a' <= c && c <= 'z') || ('A' <= c && c <= 'Z') || c == '_',
        None => false,
    }
}

/// Whether a character an identifier may continue with was read.
fn is_alphanumeric(character: Option<char>) -> (r: bool)
    ensures
        r == (match character {
            Some(c) => ident_char(c),
            None => false,
        }),
{
    is_numeric(character) || is_alpha(character)
}

} // verus!
