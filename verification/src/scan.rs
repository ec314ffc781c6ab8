//! The lexer's building blocks: reading characters out of the input, finding
//! where a run ends, and naming the token that a spelling makes.

use crate::grammar::{
    directive, language, lemma_width_bounds, punctuation, run_len, width, word_kind, CharClass,
};
use crate::token::{Loc, Token, TokenView};
use vstd::prelude::*;

verus! {

/// The characters of `input`, in order.
pub fn chars_of(input: &str) -> (chars: Vec<char>)
    ensures
        chars@ == input@,
{
    let mut chars: Vec<char> = Vec::new();
    for c in it: input.chars()
        invariant
            chars@ == it.seq().take(it.index@),
    {
        chars.push(c);
    }
    chars
}

impl CharClass {
    /// Whether `c` belongs to this class.
    pub fn has(self, c: char) -> (yes: bool)
        ensures
            yes == self.contains(c),
    {
        match self {
            CharClass::WordPart => c.is_alphanumeric() || c == '_',
            CharClass::DirectiveName => c.is_alphabetic() || c == '_',
            CharClass::CommentText => c != '\n',
            CharClass::PathText => c != '"' && c != '\n',
        }
    }
}

/// The index at which the longest run of characters of `class` from `from`
/// on ends.
pub fn run_end(chars: &Vec<char>, from: usize, class: CharClass) -> (to: usize)
    requires
        from <= chars.len(),
    ensures
        to == from + run_len(chars@, from as int, class),
        from <= to <= chars.len(),
{
    let mut to: usize = from;
    while to < chars.len() && class.has(chars[to])
        invariant
            from <= to <= chars.len(),
            from + run_len(chars@, from as int, class) == to + run_len(chars@, to as int, class),
        decreases chars.len() - to,
    {
        to += 1;
    }
    to
}

/// The characters of `chars` from `from` up to `to`, as a string.
pub fn text_of(chars: &Vec<char>, from: usize, to: usize) -> (text: String)
    requires
        from <= to <= chars.len(),
    ensures
        text@ == chars@.subrange(from as int, to as int),
{
    let mut text = String::new();
    let mut k: usize = from;
    while k < to
        invariant
            from <= k <= to <= chars.len(),
            text@ == chars@.subrange(from as int, k as int),
        decreases to - k,
    {
        text.push(chars[k]);
        k += 1;
        proof {
            assert(chars@.subrange(from as int, k as int) == chars@.subrange(
                from as int,
                k - 1,
            ).push(chars@[k - 1]));
        }
    }
    text
}

/// The token at `loc` that the whole word `word` makes: a keyword where it
/// spells one, else an identifier.
pub fn word_token(word: String, loc: Loc) -> (token: Token)
    ensures
        token@ == (TokenView { kind: word_kind(word@), loc: loc@ }),
{
    let spelling = word.as_str();
    if spelling.eq("enum") {
        Token::KeywordEnum(loc)
    } else if spelling.eq("record") {
        Token::KeywordRecord(loc)
    } else if spelling.eq("interface") {
        Token::KeywordInterface(loc)
    } else if spelling.eq("static") {
        Token::KeywordStatic(loc)
    } else if spelling.eq("deriving") {
        Token::KeywordDeriving(loc)
    } else if spelling.eq("bool") {
        Token::KeywordBool(loc)
    } else if spelling.eq("i8") {
        Token::KeywordI8(loc)
    } else if spelling.eq("i16") {
        Token::KeywordI16(loc)
    } else if spelling.eq("i32") {
        Token::KeywordI32(loc)
    } else if spelling.eq("i64") {
        Token::KeywordI64(loc)
    } else if spelling.eq("f32") {
        Token::KeywordF32(loc)
    } else if spelling.eq("f64") {
        Token::KeywordF64(loc)
    } else if spelling.eq("string") {
        Token::KeywordString(loc)
    } else if spelling.eq("binary") {
        Token::KeywordBinary(loc)
    } else if spelling.eq("date") {
        Token::KeywordDate(loc)
    } else if spelling.eq("list") {
        Token::KeywordList(loc)
    } else if spelling.eq("set") {
        Token::KeywordSet(loc)
    } else if spelling.eq("map") {
        Token::KeywordMap(loc)
    } else if spelling.eq("optional") {
        Token::KeywordOptional(loc)
    } else {
        Token::Identifier(word, loc)
    }
}

/// The token at `loc` that `@` and `name` make, if `name` is a directive's.
pub fn directive_token(name: &str, loc: Loc) -> (token: Option<Token>)
    ensures
        match token {
            Some(token) => directive(name@) == Some(token@.kind) && token@.loc == loc@,
            None => directive(name@) is None,
        },
{
    if name.eq("extern") {
        Some(Token::DirectiveExtern(loc))
    } else if name.eq("import") {
        Some(Token::DirectiveImport(loc))
    } else {
        None
    }
}

/// The token at `loc` that `+` and `c` make, if `c` names a language.
pub fn language_token(c: char, loc: Loc) -> (token: Option<Token>)
    ensures
        match token {
            Some(token) => language(c) == Some(token@.kind) && token@.loc == loc@,
            None => language(c) is None,
        },
{
    if c == 'c' {
        Some(Token::LangCpp(loc))
    } else if c == 'j' {
        Some(Token::LangJava(loc))
    } else if c == 'o' {
        Some(Token::LangObjC(loc))
    } else {
        None
    }
}

/// The token at `loc` that `c` makes by itself, if it is punctuation.
pub fn punctuation_token(c: char, loc: Loc) -> (token: Option<Token>)
    ensures
        match token {
            Some(token) => punctuation(c) == Some(token@.kind) && token@.loc == loc@,
            None => punctuation(c) is None,
        },
{
    if c == '=' {
        Some(Token::Equal(loc))
    } else if c == ':' {
        Some(Token::Colon(loc))
    } else if c == ';' {
        Some(Token::Semicolon(loc))
    } else if c == '(' {
        Some(Token::OpenParen(loc))
    } else if c == ')' {
        Some(Token::CloseParen(loc))
    } else if c == '{' {
        Some(Token::OpenBrace(loc))
    } else if c == '}' {
        Some(Token::CloseBrace(loc))
    } else if c == '<' {
        Some(Token::OpenAngleBracket(loc))
    } else if c == '>' {
        Some(Token::CloseAngleBracket(loc))
    } else {
        None
    }
}

/// The number of columns that `text` takes.
pub fn width_of(text: &str) -> (columns: usize)
    requires
        4 * text@.len() <= usize::MAX,
    ensures
        columns == width(text@),
{
    proof {
        lemma_width_bounds(text@);
    }
    text.len()
}

} // verus!
