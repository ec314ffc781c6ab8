//! The lexer: one pass over the input, from its first character to its last
//! or to the first lexical error.

use crate::grammar::{
    is_lexing_of, lemma_step_advances, lemma_width_bounds, lex, lex_from, read_comment,
    read_directive, read_language, read_path, read_word, step, with_comment, CharClass, Cursor,
};
use crate::laws::{
    comments_merged, in_source_order, keywords_kept_apart, lemma_comments_merged,
    lemma_keywords_kept_apart, lemma_tokens_in_source_order,
};
use crate::scan::{
    chars_of, directive_token, language_token, punctuation_token, run_end, text_of, width_of,
    word_token,
};
use crate::token::{
    token_views, LexError, Loc, Token, TokenView, TokenizeError, TokenizeResult, TAB_SIZE,
};
use vstd::prelude::*;
use vstd::string::StringExecFns;

verus! {

/// A scan in progress: the index of the next character, its location, and
/// the tokens read before it.
struct Scanner {
    index: usize,
    loc: Loc,
    tokens: Vec<Token>,
}

impl View for Scanner {
    type V = Cursor;

    closed spec fn view(&self) -> Cursor {
        Cursor { index: self.index as int, at: self.loc@, out: token_views(self.tokens@) }
    }
}

/// Pushing a token onto a list pushes its value onto the list's values.
proof fn lemma_views_push(tokens: Seq<Token>, token: Token)
    ensures
        token_views(tokens.push(token)) == token_views(tokens).push(token@),
{
    assert(token_views(tokens.push(token)) =~= token_views(tokens).push(token@));
}

impl Scanner {
    /// The scan is within `chars`, whose length leaves room for every
    /// location in it: no line is longer than four columns for each
    /// character read, and there are no more lines than characters.
    spec fn fits(&self, chars: Seq<char>) -> bool {
        &&& self.index <= chars.len()
        &&& 4 * chars.len() <= usize::MAX
        &&& self.loc.line <= self.index
        &&& self.loc.column <= 4 * self.index
    }

    /// Moves over `count` characters that take `columns` columns and make
    /// no token.
    fn skip(&mut self, count: usize, columns: usize)
        requires
            old(self).index + count <= usize::MAX,
            old(self).loc.column + columns <= usize::MAX,
        ensures
            final(self)@ == old(self)@.skip(count as int, columns as nat),
            final(self).index == old(self).index + count,
            final(self).loc.line == old(self).loc.line,
            final(self).loc.column == old(self).loc.column + columns,
    {
        self.index = self.index + count;
        self.loc.column = self.loc.column + columns;
    }

    /// Appends `token`, which starts here, and moves over its `count`
    /// characters and `columns` columns.
    fn emit(&mut self, token: Token, count: usize, columns: usize)
        requires
            old(self).index + count <= usize::MAX,
            old(self).loc.column + columns <= usize::MAX,
            token@.loc == old(self).loc@,
        ensures
            final(self)@ == old(self)@.emit(token@.kind, count as int, columns as nat),
            final(self).index == old(self).index + count,
            final(self).loc.line == old(self).loc.line,
            final(self).loc.column == old(self).loc.column + columns,
    {
        proof {
            lemma_views_push(self.tokens@, token);
        }
        self.tokens.push(token);
        self.index = self.index + count;
        self.loc.column = self.loc.column + columns;
    }

    /// Takes in a comment with `text` that starts here: it joins the last
    /// token where that is a comment, and else makes a token of its own.
    fn add_comment(&mut self, text: String)
        ensures
            final(self).index == old(self).index,
            final(self).loc == old(self).loc,
            token_views(final(self).tokens@) == with_comment(
                token_views(old(self).tokens@),
                text@,
                old(self).loc@,
            ),
    {
        let ghost before = self.tokens@;
        match self.tokens.pop() {
            Some(Token::Comment(last, at)) => {
                let mut joined = last;
                joined.push('\n');
                joined.append(text.as_str());
                let merged = Token::Comment(joined, at);
                proof {
                    lemma_views_push(self.tokens@, merged);
                    assert(self.tokens@ == before.drop_last());
                    assert(token_views(before.drop_last()) =~= token_views(before).drop_last());
                    assert(joined@ =~= last@ + seq!['\n'] + text@);
                }
                self.tokens.push(merged);
            },
            Some(other) => {
                let fresh = Token::Comment(text, self.loc);
                proof {
                    assert(before == self.tokens@.push(other));
                    lemma_views_push(self.tokens@.push(other), fresh);
                }
                self.tokens.push(other);
                self.tokens.push(fresh);
            },
            None => {
                let fresh = Token::Comment(text, self.loc);
                proof {
                    lemma_views_push(self.tokens@, fresh);
                }
                self.tokens.push(fresh);
            },
        }
    }

    /// Reads the comment whose `#` is the next character.
    fn read_comment(&mut self, chars: &Vec<char>)
        requires
            old(self).fits(chars@),
            old(self).index < chars.len(),
        ensures
            final(self)@ == read_comment(chars@, old(self)@),
            final(self).fits(chars@),
            final(self).index > old(self).index,
    {
        let from = self.index + 1;
        let to = run_end(chars, from, CharClass::CommentText);
        let text = text_of(chars, from, to);
        self.add_comment(text);
        self.index = if to < chars.len() {
            to + 1
        } else {
            to
        };
        self.loc.line = self.loc.line + 1;
        self.loc.column = 0;
    }

    /// Reads the directive whose `@` is the next character.
    fn read_directive(&mut self, chars: &Vec<char>) -> (result: Result<(), TokenizeError>)
        requires
            old(self).fits(chars@),
            old(self).index < chars.len(),
        ensures
            match result {
                Ok(()) => read_directive(chars@, old(self)@) == Ok::<Cursor, LexError>(final(self)@)
                    && final(self).fits(chars@),
                Err(error) => read_directive(chars@, old(self)@) == Err::<Cursor, LexError>(error@),
            },
    {
        let from = self.index + 1;
        let to = run_end(chars, from, CharClass::DirectiveName);
        let name = text_of(chars, from, to);
        match directive_token(name.as_str(), self.loc) {
            Some(token) => {
                let columns = width_of(name.as_str());
                proof {
                    lemma_width_bounds(name@);
                }
                self.emit(token, to - self.index, columns + 1);
                Ok(())
            },
            None => Err(TokenizeError::UnknownDirective(self.loc)),
        }
    }

    /// Reads the quoted path whose opening `"` is the next character.
    fn read_path(&mut self, chars: &Vec<char>) -> (result: Result<(), TokenizeError>)
        requires
            old(self).fits(chars@),
            old(self).index < chars.len(),
        ensures
            match result {
                Ok(()) => read_path(chars@, old(self)@) == Ok::<Cursor, LexError>(final(self)@)
                    && final(self).fits(chars@),
                Err(error) => read_path(chars@, old(self)@) == Err::<Cursor, LexError>(error@),
            },
    {
        let from = self.index + 1;
        let to = run_end(chars, from, CharClass::PathText);
        if to < chars.len() && chars[to] == '"' {
            let path = text_of(chars, from, to);
            let columns = width_of(path.as_str());
            proof {
                lemma_width_bounds(path@);
            }
            let token = Token::FilePath(path, self.loc);
            self.emit(token, to + 1 - self.index, columns + 2);
            Ok(())
        } else {
            Err(TokenizeError::InvalidFilePath(self.loc))
        }
    }

    /// Reads the language annotation whose `+` is the next character.
    fn read_language(&mut self, chars: &Vec<char>) -> (result: Result<(), TokenizeError>)
        requires
            old(self).fits(chars@),
            old(self).index < chars.len(),
        ensures
            match result {
                Ok(()) => read_language(chars@, old(self)@) == Ok::<Cursor, LexError>(final(self)@)
                    && final(self).fits(chars@),
                Err(error) => read_language(chars@, old(self)@) == Err::<Cursor, LexError>(error@),
            },
    {
        if self.index + 1 < chars.len() {
            match language_token(chars[self.index + 1], self.loc) {
                Some(token) => {
                    self.emit(token, 2, 2);
                    Ok(())
                },
                None => Err(TokenizeError::UnknownLanguage(self.loc)),
            }
        } else {
            Err(TokenizeError::UnknownLanguage(self.loc))
        }
    }

    /// Reads the word whose first character is the next one.
    fn read_word(&mut self, chars: &Vec<char>)
        requires
            old(self).fits(chars@),
            old(self).index < chars.len(),
        ensures
            final(self)@ == read_word(chars@, old(self)@),
            final(self).fits(chars@),
    {
        let to = run_end(chars, self.index + 1, CharClass::WordPart);
        let word = text_of(chars, self.index, to);
        let columns = width_of(word.as_str());
        proof {
            lemma_width_bounds(word@);
        }
        let token = word_token(word, self.loc);
        self.emit(token, to - self.index, columns);
    }

    /// Reads the lexical unit that starts at the next character.
    fn step(&mut self, chars: &Vec<char>) -> (result: Result<(), TokenizeError>)
        requires
            old(self).fits(chars@),
            old(self).index < chars.len(),
        ensures
            match result {
                Ok(()) => step(chars@, old(self)@) == Ok::<Cursor, LexError>(final(self)@)
                    && final(self).fits(chars@),
                Err(error) => step(chars@, old(self)@) == Err::<Cursor, LexError>(error@),
            },
    {
        let c = chars[self.index];
        if c == '\n' {
            self.index = self.index + 1;
            self.loc.line = self.loc.line + 1;
            self.loc.column = 0;
            Ok(())
        } else if c == '\t' {
            self.skip(1, TAB_SIZE);
            Ok(())
        } else if c == ' ' || c == '\r' {
            self.skip(1, 1);
            Ok(())
        } else if c == '#' {
            self.read_comment(chars);
            Ok(())
        } else if c == '@' {
            self.read_directive(chars)
        } else if c == '"' {
            self.read_path(chars)
        } else if c == '+' {
            self.read_language(chars)
        } else if let Some(token) = punctuation_token(c, self.loc) {
            self.emit(token, 1, 1);
            Ok(())
        } else if c.is_alphabetic() || c == '_' {
            self.read_word(chars);
            Ok(())
        } else {
            Err(TokenizeError::UnexpectedChar(self.loc))
        }
    }
}

/// Splits `input` into its tokens, in source order, each with the location
/// of its first character; or returns the first lexical error in `input`,
/// with the location at which it stands, and no token.
///
/// Lines and columns are counted from zero. A tab takes `TAB_SIZE` columns,
/// a word or a path one column for each byte of its UTF-8 encoding, and any
/// other character one. The input must be short enough for every location
/// in it to fit a `usize`.
pub fn tokenize(input: &str) -> (result: TokenizeResult)
    requires
        4 * input@.len() <= usize::MAX,
    ensures
        is_lexing_of(result, input@),
        result matches Ok(tokens) ==> in_source_order(token_views(tokens@)) && comments_merged(
            token_views(tokens@),
        ) && keywords_kept_apart(token_views(tokens@)),
{
    proof {
        lemma_tokens_in_source_order(input@);
        lemma_comments_merged(input@);
        lemma_keywords_kept_apart(input@);
    }
    let chars = chars_of(input);
    let mut scanner = Scanner { index: 0, loc: Loc::default(), tokens: Vec::new() };
    assert(scanner@ == Cursor::start()) by {
        assert(token_views(scanner.tokens@) =~= Seq::<TokenView>::empty());
    }
    while scanner.index < chars.len()
        invariant
            chars@ == input@,
            scanner.fits(chars@),
            lex_from(chars@, scanner@) == lex(chars@),
        decreases chars.len() - scanner.index,
    {
        proof {
            lemma_step_advances(chars@, scanner@);
        }
        match scanner.step(&chars) {
            Ok(()) => {},
            Err(error) => {
                return Err(error);
            },
        }
    }
    Ok(scanner.tokens)
}

} // verus!
