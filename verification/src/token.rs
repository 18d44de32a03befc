//! The token model: the closed set of token kinds, the keyword table, and the
//! position record attached to every token.

use vstd::prelude::*;

verus! {

/// The reserved words of the language.
#[derive(Debug, Clone, Copy, PartialEq, Eq, Structural)]
pub enum Keyword {
    And,
    Class,
    Else,
    False,
    Fun,
    For,
    If,
    Nil,
    Or,
    Print,
    Return,
    Super,
    This,
    True,
    Var,
    While,
}

/// The spelling of a reserved word, as the characters it is written with.
pub open spec fn spelling(k: Keyword) -> Seq<char> {
    match k {
        Keyword::And => "and"@,
        Keyword::Class => "class"@,
        Keyword::Else => "else"@,
        Keyword::False => "false"@,
        Keyword::Fun => "fun"@,
        Keyword::For => "for"@,
        Keyword::If => "if"@,
        Keyword::Nil => "nil"@,
        Keyword::Or => "or"@,
        Keyword::Print => "print"@,
        Keyword::Return => "return"@,
        Keyword::Super => "super"@,
        Keyword::This => "this"@,
        Keyword::True => "true"@,
        Keyword::Var => "var"@,
        Keyword::While => "while"@,
    }
}

/// The keyword whose spelling is exactly `s`, if there is one.
pub open spec fn keyword_of(s: Seq<char>) -> Option<Keyword> {
    if s == spelling(Keyword::And) {
        Some(Keyword::And)
    } else if s == spelling(Keyword::Class) {
        Some(Keyword::Class)
    } else if s == spelling(Keyword::Else) {
        Some(Keyword::Else)
    } else if s == spelling(Keyword::False) {
        Some(Keyword::False)
    } else if s == spelling(Keyword::Fun) {
        Some(Keyword::Fun)
    } else if s == spelling(Keyword::For) {
        Some(Keyword::For)
    } else if s == spelling(Keyword::If) {
        Some(Keyword::If)
    } else if s == spelling(Keyword::Nil) {
        Some(Keyword::Nil)
    } else if s == spelling(Keyword::Or) {
        Some(Keyword::Or)
    } else if s == spelling(Keyword::Print) {
        Some(Keyword::Print)
    } else if s == spelling(Keyword::Return) {
        Some(Keyword::Return)
    } else if s == spelling(Keyword::Super) {
        Some(Keyword::Super)
    } else if s == spelling(Keyword::This) {
        Some(Keyword::This)
    } else if s == spelling(Keyword::True) {
        Some(Keyword::True)
    } else if s == spelling(Keyword::Var) {
        Some(Keyword::Var)
    } else if s == spelling(Keyword::While) {
        Some(Keyword::While)
    } else {
        None
    }
}

impl Keyword {
    /// Looks a spelling up in the keyword table: `Ok` exactly when `s` is one
    /// of the sixteen reserved words.
    pub fn from_str(s: &str) -> (r: Result<Keyword, ()>)
        ensures
            r == (match keyword_of(s@) {
                Some(k) => Ok::<Keyword, ()>(k),
                None => Err::<Keyword, ()>(()),
            }),
    {
        let o: String = s.to_owned();
        if o == "and".to_owned() {
            Ok(Keyword::And)
        } else if o == "class".to_owned() {
            Ok(Keyword::Class)
        } else if o == "else".to_owned() {
            Ok(Keyword::Else)
        } else if o == "false".to_owned() {
            Ok(Keyword::False)
        } else if o == "fun".to_owned() {
            Ok(Keyword::Fun)
        } else if o == "for".to_owned() {
            Ok(Keyword::For)
        } else if o == "if".to_owned() {
            Ok(Keyword::If)
        } else if o == "nil".to_owned() {
            Ok(Keyword::Nil)
        } else if o == "or".to_owned() {
            Ok(Keyword::Or)
        } else if o == "print".to_owned() {
            Ok(Keyword::Print)
        } else if o == "return".to_owned() {
            Ok(Keyword::Return)
        } else if o == "super".to_owned() {
            Ok(Keyword::Super)
        } else if o == "this".to_owned() {
            Ok(Keyword::This)
        } else if o == "true".to_owned() {
            Ok(Keyword::True)
        } else if o == "var".to_owned() {
            Ok(Keyword::Var)
        } else if o == "while".to_owned() {
            Ok(Keyword::While)
        } else {
            Err(())
        }
    }
}

/// What category a token belongs to, with the payload its lexeme carries.
///
/// `Number` holds the matched span of digits (and an optional fraction)
/// verbatim; the span is numeric by construction, so callers that want the
/// value as a machine float can parse the payload without it ever failing.
/// `EOF` is a terminal marker for consumers that want to append one:
/// `scan_tokens` itself never emits it, it simply stops at the end of input.
#[derive(Debug, Clone, PartialEq)]
pub enum Kind {
    OpenParenthesis,
    CloseParenthesis,
    OpenCurlyBracket,
    CloseCurlyBracket,
    Comma,
    Dot,
    Minus,
    Plus,
    Semicolon,
    Slash,
    Asterisk,
    Exclamation,
    ExclamationEqual,
    Equal,
    EqualEqual,
    Greater,
    GreaterEqual,
    Less,
    LessEqual,
    Identifier(String),
    String(String),
    Number(String),
    Keyword(Keyword),
    EOF,
}

/// The mathematical image of a [`Kind`]: payloads as character sequences.
pub enum KindModel {
    OpenParenthesis,
    CloseParenthesis,
    OpenCurlyBracket,
    CloseCurlyBracket,
    Comma,
    Dot,
    Minus,
    Plus,
    Semicolon,
    Slash,
    Asterisk,
    Exclamation,
    ExclamationEqual,
    Equal,
    EqualEqual,
    Greater,
    GreaterEqual,
    Less,
    LessEqual,
    Identifier(Seq<char>),
    StringLit(Seq<char>),
    Number(Seq<char>),
    Keyword(Keyword),
    Eof,
}

impl View for Kind {
    type V = KindModel;

    open spec fn view(&self) -> KindModel {
        match self {
            Kind::OpenParenthesis => KindModel::OpenParenthesis,
            Kind::CloseParenthesis => KindModel::CloseParenthesis,
            Kind::OpenCurlyBracket => KindModel::OpenCurlyBracket,
            Kind::CloseCurlyBracket => KindModel::CloseCurlyBracket,
            Kind::Comma => KindModel::Comma,
            Kind::Dot => KindModel::Dot,
            Kind::Minus => KindModel::Minus,
            Kind::Plus => KindModel::Plus,
            Kind::Semicolon => KindModel::Semicolon,
            Kind::Slash => KindModel::Slash,
            Kind::Asterisk => KindModel::Asterisk,
            Kind::Exclamation => KindModel::Exclamation,
            Kind::ExclamationEqual => KindModel::ExclamationEqual,
            Kind::Equal => KindModel::Equal,
            Kind::EqualEqual => KindModel::EqualEqual,
            Kind::Greater => KindModel::Greater,
            Kind::GreaterEqual => KindModel::GreaterEqual,
            Kind::Less => KindModel::Less,
            Kind::LessEqual => KindModel::LessEqual,
            Kind::Identifier(name) => KindModel::Identifier(name@),
            Kind::String(contents) => KindModel::StringLit(contents@),
            Kind::Number(lexeme) => KindModel::Number(lexeme@),
            Kind::Keyword(k) => KindModel::Keyword(*k),
            Kind::EOF => KindModel::Eof,
        }
    }
}

/// Where a token came from: the character span `[start, end)` into the source
/// and the 1-based line its first character stood on.
#[derive(Debug, Clone, Copy, PartialEq, Eq, Structural)]
pub struct Position {
    pub start: usize,
    pub end: usize,
    pub line: usize,
}

/// A classified lexeme together with its source position.
#[derive(Debug, Clone, PartialEq)]
pub struct Token {
    pub kind: Kind,
    pub position: Position,
}

/// The mathematical image of a [`Token`].
pub struct TokenModel {
    pub kind: KindModel,
    pub start: int,
    pub end: int,
    pub line: int,
}

impl View for Token {
    type V = TokenModel;

    open spec fn view(&self) -> TokenModel {
        TokenModel {
            kind: self.kind@,
            start: self.position.start as int,
            end: self.position.end as int,
            line: self.position.line as int,
        }
    }
}

/// Why a scan failed: a human-readable message and the line it failed on.
#[derive(Debug, Clone, PartialEq)]
pub struct Error {
    pub message: String,
    pub line: usize,
}

/// The mathematical image of an [`Error`].
pub struct ErrorModel {
    pub message: Seq<char>,
    pub line: int,
}

impl View for Error {
    type V = ErrorModel;

    open spec fn view(&self) -> ErrorModel {
        ErrorModel { message: self.message@, line: self.line as int }
    }
}

} // verus!
