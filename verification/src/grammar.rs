//! The language that the lexer accepts, as functions on sequences of
//! characters. These definitions say what `tokenize` returns.

use crate::stdlib::{alphabetic, alphanumeric};
use crate::token::{
    token_views, LexError, Position, TokenKind, TokenView, TokenizeResult, TAB_SIZE,
};
use vstd::prelude::*;
use vstd::utf8::encode_utf8;

verus! {

/// A character that can start an identifier or a keyword: a letter or `_`.
pub open spec fn is_word_start(c: char) -> bool {
    alphabetic(c) || c == '_'
}

/// A character that can continue an identifier or a keyword: a letter, a
/// digit or `_`.
pub open spec fn is_word_part(c: char) -> bool {
    alphanumeric(c) || c == '_'
}

/// The classes of characters of which the lexer takes the longest run.
#[derive(Clone, Copy)]
pub enum CharClass {
    /// The characters of a word after its first.
    WordPart,
    /// The characters of a directive's name, after `@`.
    DirectiveName,
    /// The text of a comment: everything but the end of the line.
    CommentText,
    /// The text of a quoted path: everything but the closing quote and the
    /// end of the line.
    PathText,
}

impl CharClass {
    /// Whether `c` belongs to this class.
    pub open spec fn contains(self, c: char) -> bool {
        match self {
            CharClass::WordPart => is_word_part(c),
            CharClass::DirectiveName => is_word_start(c),
            CharClass::CommentText => c != '\n',
            CharClass::PathText => c != '"' && c != '\n',
        }
    }
}

/// The length of the longest run of characters of `class` that starts at
/// index `from` of `s`.
pub open spec fn run_len(s: Seq<char>, from: int, class: CharClass) -> nat
    decreases s.len() - from,
{
    if 0 <= from < s.len() && class.contains(s[from]) {
        1 + run_len(s, from + 1, class)
    } else {
        0
    }
}

/// A run ends within the input: every character of it is of the class, and
/// the character after it, if there is one, is not.
pub proof fn lemma_run_bounds(s: Seq<char>, from: int, class: CharClass)
    requires
        0 <= from <= s.len(),
    ensures
        from + run_len(s, from, class) <= s.len(),
        forall|k: int| from <= k < from + run_len(s, from, class) ==> class.contains(#[trigger] s[k]),
        from + run_len(s, from, class) < s.len() ==> !class.contains(
            s[from + run_len(s, from, class)],
        ),
    decreases s.len() - from,
{
    if from < s.len() && class.contains(s[from]) {
        lemma_run_bounds(s, from + 1, class);
    }
}

/// The number of columns that a word or a path takes: the length of its
/// UTF-8 encoding in bytes.
pub open spec fn width(text: Seq<char>) -> nat {
    encode_utf8(text).len()
}

/// The UTF-8 encoding of a text has at least one byte and at most four for
/// each of its characters.
pub proof fn lemma_width_bounds(text: Seq<char>)
    ensures
        text.len() <= width(text) <= 4 * text.len(),
    decreases text.len(),
{
    if text.len() > 0 {
        lemma_width_bounds(text.drop_first());
    }
}

/// The token of a punctuation character, if `c` is one.
pub open spec fn punctuation(c: char) -> Option<TokenKind> {
    if c == '=' {
        Some(TokenKind::Equal)
    } else if c == ':' {
        Some(TokenKind::Colon)
    } else if c == ';' {
        Some(TokenKind::Semicolon)
    } else if c == '(' {
        Some(TokenKind::OpenParen)
    } else if c == ')' {
        Some(TokenKind::CloseParen)
    } else if c == '{' {
        Some(TokenKind::OpenBrace)
    } else if c == '}' {
        Some(TokenKind::CloseBrace)
    } else if c == '<' {
        Some(TokenKind::OpenAngleBracket)
    } else if c == '>' {
        Some(TokenKind::CloseAngleBracket)
    } else {
        None
    }
}

/// The annotation that `+` and the letter `c` make, if they make one.
pub open spec fn language(c: char) -> Option<TokenKind> {
    if c == 'c' {
        Some(TokenKind::LangCpp)
    } else if c == 'j' {
        Some(TokenKind::LangJava)
    } else if c == 'o' {
        Some(TokenKind::LangObjC)
    } else {
        None
    }
}

/// The directive that `@` and `name` make, if they make one.
pub open spec fn directive(name: Seq<char>) -> Option<TokenKind> {
    if name == "extern"@ {
        Some(TokenKind::DirectiveExtern)
    } else if name == "import"@ {
        Some(TokenKind::DirectiveImport)
    } else {
        None
    }
}

/// The keyword that `word` spells, if it spells one. Spellings are compared
/// exactly: case counts, and so does every character.
pub open spec fn keyword(word: Seq<char>) -> Option<TokenKind> {
    if word == "enum"@ {
        Some(TokenKind::KeywordEnum)
    } else if word == "record"@ {
        Some(TokenKind::KeywordRecord)
    } else if word == "interface"@ {
        Some(TokenKind::KeywordInterface)
    } else if word == "static"@ {
        Some(TokenKind::KeywordStatic)
    } else if word == "deriving"@ {
        Some(TokenKind::KeywordDeriving)
    } else if word == "bool"@ {
        Some(TokenKind::KeywordBool)
    } else if word == "i8"@ {
        Some(TokenKind::KeywordI8)
    } else if word == "i16"@ {
        Some(TokenKind::KeywordI16)
    } else if word == "i32"@ {
        Some(TokenKind::KeywordI32)
    } else if word == "i64"@ {
        Some(TokenKind::KeywordI64)
    } else if word == "f32"@ {
        Some(TokenKind::KeywordF32)
    } else if word == "f64"@ {
        Some(TokenKind::KeywordF64)
    } else if word == "string"@ {
        Some(TokenKind::KeywordString)
    } else if word == "binary"@ {
        Some(TokenKind::KeywordBinary)
    } else if word == "date"@ {
        Some(TokenKind::KeywordDate)
    } else if word == "list"@ {
        Some(TokenKind::KeywordList)
    } else if word == "set"@ {
        Some(TokenKind::KeywordSet)
    } else if word == "map"@ {
        Some(TokenKind::KeywordMap)
    } else if word == "optional"@ {
        Some(TokenKind::KeywordOptional)
    } else {
        None
    }
}

/// The kind of the token that a whole word makes: its keyword, or else an
/// identifier with the word as its text.
pub open spec fn word_kind(word: Seq<char>) -> TokenKind {
    match keyword(word) {
        Some(kind) => kind,
        None => TokenKind::Identifier(word),
    }
}

/// `out` after a comment with `text` was read at `at`: the text joins the
/// last token after a newline where that token is a comment, and else makes
/// a token of its own.
pub open spec fn with_comment(out: Seq<TokenView>, text: Seq<char>, at: Position) -> Seq<
    TokenView,
> {
    if out.len() > 0 && out.last().kind is Comment {
        out.drop_last().push(
            TokenView {
                kind: TokenKind::Comment(out.last().kind->Comment_0 + seq!['\n'] + text),
                loc: out.last().loc,
            },
        )
    } else {
        out.push(TokenView { kind: TokenKind::Comment(text), loc: at })
    }
}

/// The state of a scan: the index of the next character to read, the
/// location that it has, and the tokens read before it.
pub struct Cursor {
    pub index: int,
    pub at: Position,
    pub out: Seq<TokenView>,
}

impl Cursor {
    /// The state before anything was read.
    pub open spec fn start() -> Cursor {
        Cursor { index: 0, at: Position::origin(), out: Seq::empty() }
    }

    /// The state after `count` characters that make no token and take
    /// `columns` columns.
    pub open spec fn skip(self, count: int, columns: nat) -> Cursor {
        Cursor { index: self.index + count, at: self.at.right(columns), out: self.out }
    }

    /// The state after a token of `kind` that starts here, is `count`
    /// characters long and takes `columns` columns.
    pub open spec fn emit(self, kind: TokenKind, count: int, columns: nat) -> Cursor {
        Cursor {
            index: self.index + count,
            at: self.at.right(columns),
            out: self.out.push(TokenView { kind, loc: self.at }),
        }
    }
}

/// A comment starts at `cur.index` with `#` and runs to the end of its line
/// or of the input. Its text is what stands between the `#` and the end of
/// the line; the line break, where there is one, is read with the comment.
/// The location moves to the start of the next line, whether or not a line
/// break was there.
pub open spec fn read_comment(s: Seq<char>, cur: Cursor) -> Cursor {
    let from = cur.index + 1;
    let to = from + run_len(s, from, CharClass::CommentText);
    Cursor {
        index: if to < s.len() {
            to + 1
        } else {
            to
        },
        at: cur.at.next_line(),
        out: with_comment(cur.out, s.subrange(from, to), cur.at),
    }
}

/// A directive starts at `cur.index` with `@`; its name is the longest run of
/// letters and underscores that follows, and must be a known one.
pub open spec fn read_directive(s: Seq<char>, cur: Cursor) -> Result<Cursor, LexError> {
    let from = cur.index + 1;
    let to = from + run_len(s, from, CharClass::DirectiveName);
    let name = s.subrange(from, to);
    match directive(name) {
        Some(kind) => Ok(cur.emit(kind, to - cur.index, width(name) + 1)),
        None => Err(LexError::UnknownDirective(cur.at)),
    }
}

/// A path starts at `cur.index` with `"` and holds every character up to the
/// next `"`, which must come before the line and the input end.
pub open spec fn read_path(s: Seq<char>, cur: Cursor) -> Result<Cursor, LexError> {
    let from = cur.index + 1;
    let to = from + run_len(s, from, CharClass::PathText);
    let path = s.subrange(from, to);
    if to < s.len() && s[to] == '"' {
        Ok(cur.emit(TokenKind::FilePath(path), to + 1 - cur.index, width(path) + 2))
    } else {
        Err(LexError::InvalidFilePath(cur.at))
    }
}

/// A language annotation starts at `cur.index` with `+`, and the character
/// after it must name a language.
pub open spec fn read_language(s: Seq<char>, cur: Cursor) -> Result<Cursor, LexError> {
    if cur.index + 1 < s.len() {
        match language(s[cur.index + 1]) {
            Some(kind) => Ok(cur.emit(kind, 2, 2)),
            None => Err(LexError::UnknownLanguage(cur.at)),
        }
    } else {
        Err(LexError::UnknownLanguage(cur.at))
    }
}

/// A word starts at `cur.index` and takes in the longest run of letters,
/// digits and underscores that follows its first character.
pub open spec fn read_word(s: Seq<char>, cur: Cursor) -> Cursor {
    let to = cur.index + 1 + run_len(s, cur.index + 1, CharClass::WordPart);
    let word = s.subrange(cur.index, to);
    cur.emit(word_kind(word), to - cur.index, width(word))
}

/// The state after the lexical unit that starts at `cur.index` was read, or
/// the error that it is. The first character decides what the unit is.
pub open spec fn step(s: Seq<char>, cur: Cursor) -> Result<Cursor, LexError>
    recommends
        0 <= cur.index < s.len(),
{
    let c = s[cur.index];
    if c == '\n' {
        Ok(Cursor { index: cur.index + 1, at: cur.at.next_line(), out: cur.out })
    } else if c == '\t' {
        Ok(cur.skip(1, TAB_SIZE as nat))
    } else if c == ' ' || c == '\r' {
        Ok(cur.skip(1, 1))
    } else if c == '#' {
        Ok(read_comment(s, cur))
    } else if c == '@' {
        read_directive(s, cur)
    } else if c == '"' {
        read_path(s, cur)
    } else if c == '+' {
        read_language(s, cur)
    } else if punctuation(c) is Some {
        Ok(cur.emit(punctuation(c)->Some_0, 1, 1))
    } else if is_word_start(c) {
        Ok(read_word(s, cur))
    } else {
        Err(LexError::UnexpectedChar(cur.at))
    }
}

/// Every lexical unit holds at least one character and none beyond the
/// input: a step that succeeds moves the index forward, at most to the end.
pub proof fn lemma_step_advances(s: Seq<char>, cur: Cursor)
    requires
        0 <= cur.index < s.len(),
    ensures
        step(s, cur) matches Ok(next) ==> cur.index < next.index <= s.len(),
{
    lemma_run_bounds(s, cur.index + 1, CharClass::WordPart);
    lemma_run_bounds(s, cur.index + 1, CharClass::DirectiveName);
    lemma_run_bounds(s, cur.index + 1, CharClass::CommentText);
    lemma_run_bounds(s, cur.index + 1, CharClass::PathText);
}

/// What reading `s` from `cur` to its end gives: the tokens read before
/// `cur` and those from it on, or the first error from `cur` on.
pub open spec fn lex_from(s: Seq<char>, cur: Cursor) -> Result<Seq<TokenView>, LexError>
    decreases s.len() - cur.index,
{
    if 0 <= cur.index < s.len() {
        match step(s, cur) {
            Ok(next) => {
                proof {
                    lemma_step_advances(s, cur);
                }
                lex_from(s, next)
            },
            Err(error) => Err(error),
        }
    } else {
        Ok(cur.out)
    }
}

/// The tokens of `s` in source order, or the first lexical error in it.
pub open spec fn lex(s: Seq<char>) -> Result<Seq<TokenView>, LexError> {
    lex_from(s, Cursor::start())
}

/// Whether `result` is what lexing `input` gives: the value of every token
/// of `input`, in order, or its first lexical error.
pub open spec fn is_lexing_of(result: TokenizeResult, input: Seq<char>) -> bool {
    match result {
        Ok(tokens) => lex(input) == Ok::<Seq<TokenView>, LexError>(token_views(tokens@)),
        Err(error) => lex(input) == Err::<Seq<TokenView>, LexError>(error@),
    }
}

} // verus!
