//! The lexical vocabulary: source locations, tokens and lexical errors,
//! together with the mathematical values that contracts speak of.

use vstd::prelude::*;
use vstd::std_specs::cmp::PartialEqSpecImpl;

verus! {

/// Number of columns by which a tab character moves the location.
pub const TAB_SIZE: usize = 4;

/// A zero-based source location: that of the first character of a token, or
/// of the character at which lexing failed.
#[derive(Clone, Copy, Debug, PartialEq, Eq, Structural)]
pub struct Loc {
    pub line: usize,
    pub column: usize,
}

/// The unbounded location that a `Loc` stands for.
pub struct Position {
    pub line: nat,
    pub column: nat,
}

impl Position {
    /// The location of the first character of any input.
    pub open spec fn origin() -> Position {
        Position { line: 0, column: 0 }
    }

    /// The location `width` columns further on the same line.
    pub open spec fn right(self, width: nat) -> Position {
        Position { line: self.line, column: self.column + width }
    }

    /// The start of the following line.
    pub open spec fn next_line(self) -> Position {
        Position { line: self.line + 1, column: 0 }
    }

    /// Source order: by line, then by column.
    pub open spec fn le(self, other: Position) -> bool {
        self.line < other.line || (self.line == other.line && self.column <= other.column)
    }

    /// Strict source order: `self` comes before `other`.
    pub open spec fn lt(self, other: Position) -> bool {
        self.line < other.line || (self.line == other.line && self.column < other.column)
    }
}

impl View for Loc {
    type V = Position;

    open spec fn view(&self) -> Position {
        Position { line: self.line as nat, column: self.column as nat }
    }
}

impl Default for Loc {
    fn default() -> (loc: Loc)
        ensures
            loc@ == Position::origin(),
    {
        Loc { line: 0, column: 0 }
    }
}

/// What a token is, apart from where it stands.
pub enum TokenKind {
    Identifier(Seq<char>),
    Comment(Seq<char>),
    FilePath(Seq<char>),
    Equal,
    Colon,
    Semicolon,
    OpenParen,
    CloseParen,
    OpenBrace,
    CloseBrace,
    OpenAngleBracket,
    CloseAngleBracket,
    DirectiveExtern,
    DirectiveImport,
    LangCpp,
    LangJava,
    LangObjC,
    KeywordEnum,
    KeywordRecord,
    KeywordInterface,
    KeywordStatic,
    KeywordDeriving,
    KeywordBool,
    KeywordI8,
    KeywordI16,
    KeywordI32,
    KeywordI64,
    KeywordF32,
    KeywordF64,
    KeywordString,
    KeywordBinary,
    KeywordDate,
    KeywordList,
    KeywordSet,
    KeywordMap,
    KeywordOptional,
}

/// The value of a token: its kind and the location of its first character.
pub struct TokenView {
    pub kind: TokenKind,
    pub loc: Position,
}

/// A classified lexical unit with the location of its first character.
#[derive(Debug)]
pub enum Token {
    Identifier(String, Loc),
    /// `#` to the end of the line; adjacent comment lines form one token.
    Comment(String, Loc),
    /// A double-quoted path, without its quotes.
    FilePath(String, Loc),
    Equal(Loc),
    Colon(Loc),
    Semicolon(Loc),
    OpenParen(Loc),
    CloseParen(Loc),
    OpenBrace(Loc),
    CloseBrace(Loc),
    OpenAngleBracket(Loc),
    CloseAngleBracket(Loc),
    DirectiveExtern(Loc),
    DirectiveImport(Loc),
    LangCpp(Loc),
    LangJava(Loc),
    LangObjC(Loc),
    KeywordEnum(Loc),
    KeywordRecord(Loc),
    KeywordInterface(Loc),
    KeywordStatic(Loc),
    KeywordDeriving(Loc),
    KeywordBool(Loc),
    KeywordI8(Loc),
    KeywordI16(Loc),
    KeywordI32(Loc),
    KeywordI64(Loc),
    KeywordF32(Loc),
    KeywordF64(Loc),
    KeywordString(Loc),
    KeywordBinary(Loc),
    KeywordDate(Loc),
    KeywordList(Loc),
    KeywordSet(Loc),
    KeywordMap(Loc),
    KeywordOptional(Loc),
}

impl Token {
    /// The kind of this token, its text taken as a sequence of characters.
    pub open spec fn kind(&self) -> TokenKind {
        match self {
            Token::Identifier(text, _) => TokenKind::Identifier(text@),
            Token::Comment(text, _) => TokenKind::Comment(text@),
            Token::FilePath(text, _) => TokenKind::FilePath(text@),
            Token::Equal(_) => TokenKind::Equal,
            Token::Colon(_) => TokenKind::Colon,
            Token::Semicolon(_) => TokenKind::Semicolon,
            Token::OpenParen(_) => TokenKind::OpenParen,
            Token::CloseParen(_) => TokenKind::CloseParen,
            Token::OpenBrace(_) => TokenKind::OpenBrace,
            Token::CloseBrace(_) => TokenKind::CloseBrace,
            Token::OpenAngleBracket(_) => TokenKind::OpenAngleBracket,
            Token::CloseAngleBracket(_) => TokenKind::CloseAngleBracket,
            Token::DirectiveExtern(_) => TokenKind::DirectiveExtern,
            Token::DirectiveImport(_) => TokenKind::DirectiveImport,
            Token::LangCpp(_) => TokenKind::LangCpp,
            Token::LangJava(_) => TokenKind::LangJava,
            Token::LangObjC(_) => TokenKind::LangObjC,
            Token::KeywordEnum(_) => TokenKind::KeywordEnum,
            Token::KeywordRecord(_) => TokenKind::KeywordRecord,
            Token::KeywordInterface(_) => TokenKind::KeywordInterface,
            Token::KeywordStatic(_) => TokenKind::KeywordStatic,
            Token::KeywordDeriving(_) => TokenKind::KeywordDeriving,
            Token::KeywordBool(_) => TokenKind::KeywordBool,
            Token::KeywordI8(_) => TokenKind::KeywordI8,
            Token::KeywordI16(_) => TokenKind::KeywordI16,
            Token::KeywordI32(_) => TokenKind::KeywordI32,
            Token::KeywordI64(_) => TokenKind::KeywordI64,
            Token::KeywordF32(_) => TokenKind::KeywordF32,
            Token::KeywordF64(_) => TokenKind::KeywordF64,
            Token::KeywordString(_) => TokenKind::KeywordString,
            Token::KeywordBinary(_) => TokenKind::KeywordBinary,
            Token::KeywordDate(_) => TokenKind::KeywordDate,
            Token::KeywordList(_) => TokenKind::KeywordList,
            Token::KeywordSet(_) => TokenKind::KeywordSet,
            Token::KeywordMap(_) => TokenKind::KeywordMap,
            Token::KeywordOptional(_) => TokenKind::KeywordOptional,
        }
    }

    /// The location that this token carries.
    pub open spec fn spec_loc(&self) -> Loc {
        match self {
            Token::Identifier(_, loc)
            | Token::Comment(_, loc)
            | Token::FilePath(_, loc) => *loc,
            Token::Equal(loc)
            | Token::Colon(loc)
            | Token::Semicolon(loc)
            | Token::OpenParen(loc)
            | Token::CloseParen(loc)
            | Token::OpenBrace(loc)
            | Token::CloseBrace(loc)
            | Token::OpenAngleBracket(loc)
            | Token::CloseAngleBracket(loc)
            | Token::DirectiveExtern(loc)
            | Token::DirectiveImport(loc)
            | Token::LangCpp(loc)
            | Token::LangJava(loc)
            | Token::LangObjC(loc)
            | Token::KeywordEnum(loc)
            | Token::KeywordRecord(loc)
            | Token::KeywordInterface(loc)
            | Token::KeywordStatic(loc)
            | Token::KeywordDeriving(loc)
            | Token::KeywordBool(loc)
            | Token::KeywordI8(loc)
            | Token::KeywordI16(loc)
            | Token::KeywordI32(loc)
            | Token::KeywordI64(loc)
            | Token::KeywordF32(loc)
            | Token::KeywordF64(loc)
            | Token::KeywordString(loc)
            | Token::KeywordBinary(loc)
            | Token::KeywordDate(loc)
            | Token::KeywordList(loc)
            | Token::KeywordSet(loc)
            | Token::KeywordMap(loc)
            | Token::KeywordOptional(loc) => *loc,
        }
    }

    /// The location of the token's first character.
    #[verifier::when_used_as_spec(spec_loc)]
    pub fn loc(&self) -> (loc: Loc)
        ensures
            loc == self.spec_loc(),
    {
        match self {
            Token::Identifier(_, loc)
            | Token::Comment(_, loc)
            | Token::FilePath(_, loc) => *loc,
            Token::Equal(loc)
            | Token::Colon(loc)
            | Token::Semicolon(loc)
            | Token::OpenParen(loc)
            | Token::CloseParen(loc)
            | Token::OpenBrace(loc)
            | Token::CloseBrace(loc)
            | Token::OpenAngleBracket(loc)
            | Token::CloseAngleBracket(loc)
            | Token::DirectiveExtern(loc)
            | Token::DirectiveImport(loc)
            | Token::LangCpp(loc)
            | Token::LangJava(loc)
            | Token::LangObjC(loc)
            | Token::KeywordEnum(loc)
            | Token::KeywordRecord(loc)
            | Token::KeywordInterface(loc)
            | Token::KeywordStatic(loc)
            | Token::KeywordDeriving(loc)
            | Token::KeywordBool(loc)
            | Token::KeywordI8(loc)
            | Token::KeywordI16(loc)
            | Token::KeywordI32(loc)
            | Token::KeywordI64(loc)
            | Token::KeywordF32(loc)
            | Token::KeywordF64(loc)
            | Token::KeywordString(loc)
            | Token::KeywordBinary(loc)
            | Token::KeywordDate(loc)
            | Token::KeywordList(loc)
            | Token::KeywordSet(loc)
            | Token::KeywordMap(loc)
            | Token::KeywordOptional(loc) => *loc,
        }
    }
}

impl View for Token {
    type V = TokenView;

    open spec fn view(&self) -> TokenView {
        TokenView { kind: self.kind(), loc: self.spec_loc()@ }
    }
}

/// The values of a list of tokens, in order.
pub open spec fn token_views(tokens: Seq<Token>) -> Seq<TokenView> {
    tokens.map_values(|t: Token| t@)
}

/// Two tokens are equal when they are of the same kind, with the same text:
/// where they stand is not compared.
impl PartialEq for Token {
    fn eq(&self, other: &Self) -> (same: bool) {
        match (self, other) {
            (Token::Identifier(a, _), Token::Identifier(b, _)) => *a == *b,
            (Token::Comment(a, _), Token::Comment(b, _)) => *a == *b,
            (Token::FilePath(a, _), Token::FilePath(b, _)) => *a == *b,
            (Token::Equal(_), Token::Equal(_)) => true,
            (Token::Colon(_), Token::Colon(_)) => true,
            (Token::Semicolon(_), Token::Semicolon(_)) => true,
            (Token::OpenParen(_), Token::OpenParen(_)) => true,
            (Token::CloseParen(_), Token::CloseParen(_)) => true,
            (Token::OpenBrace(_), Token::OpenBrace(_)) => true,
            (Token::CloseBrace(_), Token::CloseBrace(_)) => true,
            (Token::OpenAngleBracket(_), Token::OpenAngleBracket(_)) => true,
            (Token::CloseAngleBracket(_), Token::CloseAngleBracket(_)) => true,
            (Token::DirectiveExtern(_), Token::DirectiveExtern(_)) => true,
            (Token::DirectiveImport(_), Token::DirectiveImport(_)) => true,
            (Token::LangCpp(_), Token::LangCpp(_)) => true,
            (Token::LangJava(_), Token::LangJava(_)) => true,
            (Token::LangObjC(_), Token::LangObjC(_)) => true,
            (Token::KeywordEnum(_), Token::KeywordEnum(_)) => true,
            (Token::KeywordRecord(_), Token::KeywordRecord(_)) => true,
            (Token::KeywordInterface(_), Token::KeywordInterface(_)) => true,
            (Token::KeywordStatic(_), Token::KeywordStatic(_)) => true,
            (Token::KeywordDeriving(_), Token::KeywordDeriving(_)) => true,
            (Token::KeywordBool(_), Token::KeywordBool(_)) => true,
            (Token::KeywordI8(_), Token::KeywordI8(_)) => true,
            (Token::KeywordI16(_), Token::KeywordI16(_)) => true,
            (Token::KeywordI32(_), Token::KeywordI32(_)) => true,
            (Token::KeywordI64(_), Token::KeywordI64(_)) => true,
            (Token::KeywordF32(_), Token::KeywordF32(_)) => true,
            (Token::KeywordF64(_), Token::KeywordF64(_)) => true,
            (Token::KeywordString(_), Token::KeywordString(_)) => true,
            (Token::KeywordBinary(_), Token::KeywordBinary(_)) => true,
            (Token::KeywordDate(_), Token::KeywordDate(_)) => true,
            (Token::KeywordList(_), Token::KeywordList(_)) => true,
            (Token::KeywordSet(_), Token::KeywordSet(_)) => true,
            (Token::KeywordMap(_), Token::KeywordMap(_)) => true,
            (Token::KeywordOptional(_), Token::KeywordOptional(_)) => true,
            _ => false,
        }
    }
}

impl PartialEqSpecImpl for Token {
    open spec fn obeys_eq_spec() -> bool {
        true
    }

    open spec fn eq_spec(&self, other: &Self) -> bool {
        self.kind() == other.kind()
    }
}

/// Why lexing stopped, with the location at which it did.
#[derive(Clone, Copy, Debug, PartialEq, Eq, Structural)]
pub enum TokenizeError {
    /// A character that can start no token.
    UnexpectedChar(Loc),
    /// A quoted path whose line or input ends before the closing quote.
    InvalidFilePath(Loc),
    /// `@` before a word that is the name of no directive.
    UnknownDirective(Loc),
    /// `+` before anything but the letter of a target language.
    UnknownLanguage(Loc),
}

/// The value of a lexical error: its kind and an unbounded location.
pub enum LexError {
    UnexpectedChar(Position),
    InvalidFilePath(Position),
    UnknownDirective(Position),
    UnknownLanguage(Position),
}

impl View for TokenizeError {
    type V = LexError;

    open spec fn view(&self) -> LexError {
        match self {
            TokenizeError::UnexpectedChar(loc) => LexError::UnexpectedChar(loc@),
            TokenizeError::InvalidFilePath(loc) => LexError::InvalidFilePath(loc@),
            TokenizeError::UnknownDirective(loc) => LexError::UnknownDirective(loc@),
            TokenizeError::UnknownLanguage(loc) => LexError::UnknownLanguage(loc@),
        }
    }
}

impl LexError {
    /// The location at which lexing stopped.
    pub open spec fn loc(self) -> Position {
        match self {
            LexError::UnexpectedChar(at)
            | LexError::InvalidFilePath(at)
            | LexError::UnknownDirective(at)
            | LexError::UnknownLanguage(at) => at,
        }
    }
}

impl TokenizeError {
    /// The location at which lexing stopped.
    pub fn loc(&self) -> (loc: Loc)
        ensures
            loc@ == self@.loc(),
            *self == TokenizeError::UnexpectedChar(loc) || *self == TokenizeError::InvalidFilePath(loc)
                || *self == TokenizeError::UnknownDirective(loc) || *self
                == TokenizeError::UnknownLanguage(loc),
    {
        match self {
            TokenizeError::UnexpectedChar(loc)
            | TokenizeError::InvalidFilePath(loc)
            | TokenizeError::UnknownDirective(loc)
            | TokenizeError::UnknownLanguage(loc) => *loc,
        }
    }
}

/// What lexing returns: every token of the input, or the first error.
pub type TokenizeResult = Result<Vec<Token>, TokenizeError>;

} // verus!
