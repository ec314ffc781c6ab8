use idl_lexer::grammar::CharClass;
use idl_lexer::scan::{
    chars_of, directive_token, language_token, punctuation_token, run_end, text_of, width_of,
    word_token,
};
use idl_lexer::{Loc, Token, TAB_SIZE};

fn here() -> Loc {
    Loc::default()
}

#[test]
fn tab_size_is_four() {
    assert_eq!(TAB_SIZE, 4);
}

#[test]
fn chars_of_keeps_every_character_in_order() {
    assert_eq!(chars_of(""), Vec::<char>::new());
    assert_eq!(chars_of("a\u{e9}\n\u{1f600}"), vec!['a', '\u{e9}', '\n', '\u{1f600}']);
}

#[test]
fn classes_hold_their_characters() {
    assert!(CharClass::WordPart.has('a'));
    assert!(CharClass::WordPart.has('7'));
    assert!(CharClass::WordPart.has('_'));
    assert!(!CharClass::WordPart.has('-'));
    assert!(!CharClass::WordPart.has(' '));
    assert!(CharClass::DirectiveName.has('a'));
    assert!(CharClass::DirectiveName.has('_'));
    assert!(!CharClass::DirectiveName.has('7'));
    assert!(CharClass::CommentText.has('"'));
    assert!(CharClass::CommentText.has('\r'));
    assert!(!CharClass::CommentText.has('\n'));
    assert!(CharClass::PathText.has(' '));
    assert!(!CharClass::PathText.has('"'));
    assert!(!CharClass::PathText.has('\n'));
}

#[test]
fn run_ends_at_the_first_character_outside_the_class() {
    let chars = chars_of("ab1_ cd");
    assert_eq!(run_end(&chars, 0, CharClass::WordPart), 4);
    assert_eq!(run_end(&chars, 0, CharClass::DirectiveName), 2);
    assert_eq!(run_end(&chars, 2, CharClass::DirectiveName), 2);
    assert_eq!(run_end(&chars, 4, CharClass::WordPart), 4);
    assert_eq!(run_end(&chars, 5, CharClass::WordPart), 7);
    assert_eq!(run_end(&chars, 7, CharClass::WordPart), 7);
    assert_eq!(run_end(&chars, 0, CharClass::CommentText), 7);
}

#[test]
fn run_of_path_text_ends_at_quote_or_newline() {
    let chars = chars_of("a b\"c\nd");
    assert_eq!(run_end(&chars, 0, CharClass::PathText), 3);
    assert_eq!(run_end(&chars, 4, CharClass::PathText), 5);
    assert_eq!(run_end(&chars, 0, CharClass::CommentText), 5);
    assert_eq!(run_end(&chars, 6, CharClass::CommentText), 7);
}

#[test]
fn text_of_copies_the_range() {
    let chars = chars_of("hello world");
    assert_eq!(text_of(&chars, 0, 5), "hello");
    assert_eq!(text_of(&chars, 6, 11), "world");
    assert_eq!(text_of(&chars, 3, 3), "");
    assert_eq!(text_of(&chars, 0, 11), "hello world");
}

#[test]
fn width_is_the_length_in_bytes() {
    assert_eq!(width_of(""), 0);
    assert_eq!(width_of("abc"), 3);
    assert_eq!(width_of("\u{e9}"), 2);
    assert_eq!(width_of("\u{4e16}"), 3);
    assert_eq!(width_of("a\u{1f600}"), 5);
}

#[test]
fn word_token_names_keywords_and_identifiers() {
    assert_eq!(word_token("date".to_string(), here()), Token::KeywordDate(here()));
    assert_eq!(word_token("set".to_string(), here()), Token::KeywordSet(here()));
    assert_eq!(
        word_token("dates".to_string(), here()),
        Token::Identifier("dates".to_string(), here())
    );
    assert_eq!(word_token(String::new(), here()), Token::Identifier(String::new(), here()));
    let far = Loc { line: 3, column: 9 };
    assert_eq!(word_token("binary".to_string(), far).loc(), far);
    assert_eq!(word_token("x".to_string(), far).loc(), far);
}

#[test]
fn directive_token_knows_two_names() {
    let far = Loc { line: 2, column: 1 };
    assert_eq!(directive_token("extern", far), Some(Token::DirectiveExtern(far)));
    assert_eq!(directive_token("import", far), Some(Token::DirectiveImport(far)));
    assert_eq!(directive_token("import", far).unwrap().loc(), far);
    assert_eq!(directive_token("", far), None);
    assert_eq!(directive_token("imports", far), None);
}

#[test]
fn language_token_knows_three_letters() {
    let far = Loc { line: 2, column: 1 };
    assert_eq!(language_token('c', far), Some(Token::LangCpp(far)));
    assert_eq!(language_token('j', far), Some(Token::LangJava(far)));
    assert_eq!(language_token('o', far), Some(Token::LangObjC(far)));
    assert_eq!(language_token('o', far).unwrap().loc(), far);
    assert_eq!(language_token('x', far), None);
    assert_eq!(language_token('C', far), None);
}

#[test]
fn punctuation_token_knows_nine_characters() {
    let far = Loc { line: 4, column: 0 };
    assert_eq!(punctuation_token('=', far), Some(Token::Equal(far)));
    assert_eq!(punctuation_token('>', far), Some(Token::CloseAngleBracket(far)));
    assert_eq!(punctuation_token('{', far).unwrap().loc(), far);
    assert_eq!(punctuation_token('+', far), None);
    assert_eq!(punctuation_token('a', far), None);
}
