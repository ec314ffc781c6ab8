//! What holds of every lexing, proved from the grammar.

use crate::grammar::{
    is_lexing_of, is_word_part, keyword, lemma_run_bounds, lemma_step_advances,
    lemma_width_bounds, lex, lex_from, read_word, run_len, step, word_kind, CharClass, Cursor,
};
use crate::token::{
    token_views, LexError, Position, TokenKind, TokenView, TokenizeResult, TAB_SIZE,
};
use vstd::prelude::*;
use vstd::std_specs::cmp::PartialEqSpec;

verus! {

/// The tokens stand in source order: each is located after every token
/// before it.
pub open spec fn in_source_order(tokens: Seq<TokenView>) -> bool {
    forall|i: int, j: int|
        0 <= i < j < tokens.len() ==> (#[trigger] tokens[i]).loc.lt((#[trigger] tokens[j]).loc)
}

/// No comment follows a comment directly.
pub open spec fn comments_merged(tokens: Seq<TokenView>) -> bool {
    forall|i: int|
        0 <= i < tokens.len() - 1 ==> !((#[trigger] tokens[i]).kind is Comment && tokens[i
            + 1].kind is Comment)
}

/// No identifier spells a keyword.
pub open spec fn keywords_kept_apart(tokens: Seq<TokenView>) -> bool {
    forall|i: int|
        0 <= i < tokens.len() ==> ((#[trigger] tokens[i]).kind matches TokenKind::Identifier(word)
            ==> keyword(word) is None)
}

/// What holds of a scan at every step: the tokens read so far are in source
/// order, all of them before the current location, no two comments are
/// neighbours, and no identifier spells a keyword.
pub open spec fn orderly(cur: Cursor) -> bool {
    &&& in_source_order(cur.out)
    &&& comments_merged(cur.out)
    &&& keywords_kept_apart(cur.out)
    &&& forall|i: int| 0 <= i < cur.out.len() ==> (#[trigger] cur.out[i]).loc.lt(cur.at)
}

/// A step keeps a scan orderly.
pub proof fn lemma_step_keeps_orderly(s: Seq<char>, cur: Cursor)
    requires
        0 <= cur.index < s.len(),
        orderly(cur),
    ensures
        step(s, cur) matches Ok(next) ==> orderly(next),
{
    let word = s.subrange(
        cur.index,
        cur.index + 1 + run_len(s, cur.index + 1, CharClass::WordPart),
    );
    lemma_run_bounds(s, cur.index + 1, CharClass::WordPart);
    lemma_width_bounds(word);
}

/// Whatever a scan reads from an orderly state on, its tokens are in source
/// order, its comments merged, and its identifiers no keywords.
pub proof fn lemma_lex_from_orderly(s: Seq<char>, cur: Cursor)
    requires
        orderly(cur),
    ensures
        lex_from(s, cur) matches Ok(tokens) ==> in_source_order(tokens) && comments_merged(tokens)
            && keywords_kept_apart(tokens),
    decreases s.len() - cur.index,
{
    if 0 <= cur.index < s.len() {
        lemma_step_advances(s, cur);
        lemma_step_keeps_orderly(s, cur);
        match step(s, cur) {
            Ok(next) => lemma_lex_from_orderly(s, next),
            Err(_) => {},
        }
    }
}

/// The tokens of an input without lexical error stand in source order: each
/// is located after every token before it, so that along the list locations
/// never decrease.
pub proof fn lemma_tokens_in_source_order(s: Seq<char>)
    ensures
        lex(s) matches Ok(tokens) ==> in_source_order(tokens) && forall|i: int, j: int|
            0 <= i <= j < tokens.len() ==> (#[trigger] tokens[i]).loc.le(
                (#[trigger] tokens[j]).loc,
            ),
{
    lemma_lex_from_orderly(s, Cursor::start());
}

/// Among the tokens of an input, no two neighbours are both comments:
/// comment lines that follow each other make one token.
pub proof fn lemma_comments_merged(s: Seq<char>)
    ensures
        lex(s) matches Ok(tokens) ==> comments_merged(tokens),
{
    lemma_lex_from_orderly(s, Cursor::start());
}

/// A word that spells a keyword is never read as an identifier: the text of
/// every identifier among the tokens of an input is the spelling of no
/// keyword.
pub proof fn lemma_keywords_kept_apart(s: Seq<char>)
    ensures
        lex(s) matches Ok(tokens) ==> keywords_kept_apart(tokens),
{
    lemma_lex_from_orderly(s, Cursor::start());
}

/// Lexing the same input twice gives equal results: as many tokens, equal
/// one by one and at the same locations, or the same error.
pub proof fn lemma_tokenize_twice(input: Seq<char>, first: TokenizeResult, second: TokenizeResult)
    requires
        is_lexing_of(first, input),
        is_lexing_of(second, input),
    ensures
        match (first, second) {
            (Ok(a), Ok(b)) => a.len() == b.len() && forall|i: int|
                0 <= i < a.len() ==> (#[trigger] a[i]).eq_spec(&b[i]) && a[i].spec_loc()
                    == b[i].spec_loc(),
            (Err(a), Err(b)) => a == b,
            _ => false,
        },
{
    match (first, second) {
        (Ok(a), Ok(b)) => {
            assert(token_views(a@) == token_views(b@));
            assert(a.len() == token_views(a@).len());
            assert(b.len() == token_views(b@).len());
            assert forall|i: int| 0 <= i < a.len() implies (#[trigger] a[i]).eq_spec(&b[i])
                && a[i].spec_loc() == b[i].spec_loc() by {
                assert(token_views(a@)[i] == a[i]@);
                assert(token_views(b@)[i] == b[i]@);
            }
        },
        (Err(a), Err(b)) => {
            assert(a@ == b@);
        },
        _ => {},
    }
}

/// A tab takes exactly `TAB_SIZE` columns wherever on its line it stands: it
/// does not move the location to a tab stop.
pub proof fn lemma_tab_takes_four_columns(s: Seq<char>, cur: Cursor)
    requires
        0 <= cur.index < s.len(),
        s[cur.index] == '\t',
    ensures
        TAB_SIZE == 4,
        step(s, cur) == Ok::<Cursor, LexError>(
            Cursor {
                index: cur.index + 1,
                at: Position { line: cur.at.line, column: cur.at.column + 4 },
                out: cur.out,
            },
        ),
{
}

/// A word is as long as it can be: it ends within the input, every
/// character after its first is a letter, a digit or an underscore, and the
/// character after the word, if there is one, is none of these. So a keyword
/// is only ever read as a whole word, never as the start of a longer one.
pub proof fn lemma_word_is_longest(s: Seq<char>, cur: Cursor)
    requires
        0 <= cur.index < s.len(),
    ensures
        cur.index < read_word(s, cur).index <= s.len(),
        forall|k: int| cur.index < k < read_word(s, cur).index ==> is_word_part(#[trigger] s[k]),
        read_word(s, cur).index < s.len() ==> !is_word_part(s[read_word(s, cur).index]),
        read_word(s, cur).out == cur.out.push(
            TokenView {
                kind: word_kind(s.subrange(cur.index, read_word(s, cur).index)),
                loc: cur.at,
            },
        ),
{
    lemma_run_bounds(s, cur.index + 1, CharClass::WordPart);
}

} // verus!
