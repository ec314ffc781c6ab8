use idl_lexer::{tokenize, Loc, Token, TokenizeError};

#[test]
fn test_tokenize_1() {
    let input = r#"
            # Accounts Domain API
            accounts_API = interface +c {
                static create(): accounts_API;
            }
        "#;

    let mut tokens = tokenize(input).unwrap().into_iter();

    // # Accounts Domain API
    // accounts_API = interface +c {
    assert_eq!(
        tokens.next(),
        Some(Token::Comment(
            " Accounts Domain API".to_string(),
            Loc::default()
        ))
    );
    assert_eq!(
        tokens.next(),
        Some(Token::Identifier("accounts_API".into(), Loc::default()))
    );
    assert_eq!(tokens.next(), Some(Token::Equal(Loc::default())));
    assert_eq!(tokens.next(), Some(Token::KeywordInterface(Loc::default())));
    assert_eq!(tokens.next(), Some(Token::LangCpp(Loc::default())));
    assert_eq!(tokens.next(), Some(Token::OpenBrace(Loc::default())));

    // static create(): accounts_API;
    assert_eq!(tokens.next(), Some(Token::KeywordStatic(Loc::default())));
    assert_eq!(
        tokens.next(),
        Some(Token::Identifier("create".into(), Loc::default()))
    );
    assert_eq!(tokens.next(), Some(Token::OpenParen(Loc::default())));
    assert_eq!(tokens.next(), Some(Token::CloseParen(Loc::default())));
    assert_eq!(tokens.next(), Some(Token::Colon(Loc::default())));
    assert_eq!(
        tokens.next(),
        Some(Token::Identifier("accounts_API".into(), Loc::default()))
    );
    assert_eq!(tokens.next(), Some(Token::Semicolon(Loc::default())));

    // }
    assert_eq!(tokens.next(), Some(Token::CloseBrace(Loc::default())));
    assert_eq!(tokens.next(), None);
}

#[test]
fn test_tokenize_2() {
    let input = r#"
            get_user_groups(load_mode: load_mode): groups_response;
            delete_user(assignee_id: optional<string>): delete_user_response;
        "#;

    let mut tokens = tokenize(input).unwrap().into_iter();

    // get_user_groups(load_mode: load_mode): groups_response;
    assert_eq!(
        tokens.next(),
        Some(Token::Identifier("get_user_groups".into(), Loc::default()))
    );
    assert_eq!(tokens.next(), Some(Token::OpenParen(Loc::default())));
    assert_eq!(
        tokens.next(),
        Some(Token::Identifier("load_mode".into(), Loc::default()))
    );
    assert_eq!(tokens.next(), Some(Token::Colon(Loc::default())));
    assert_eq!(
        tokens.next(),
        Some(Token::Identifier("load_mode".to_string(), Loc::default()))
    );
    assert_eq!(tokens.next(), Some(Token::CloseParen(Loc::default())));
    assert_eq!(tokens.next(), Some(Token::Colon(Loc::default())));
    assert_eq!(
        tokens.next(),
        Some(Token::Identifier("groups_response".into(), Loc::default()))
    );
    assert_eq!(tokens.next(), Some(Token::Semicolon(Loc::default())));

    // delete_user(assignee_id: optional<string>): delete_user_response;
    assert_eq!(
        tokens.next(),
        Some(Token::Identifier("delete_user".into(), Loc::default()))
    );
    assert_eq!(tokens.next(), Some(Token::OpenParen(Loc::default())));
    assert_eq!(
        tokens.next(),
        Some(Token::Identifier("assignee_id".into(), Loc::default()))
    );
    assert_eq!(tokens.next(), Some(Token::Colon(Loc::default())));
    assert_eq!(tokens.next(), Some(Token::KeywordOptional(Loc::default())));
    assert_eq!(tokens.next(), Some(Token::OpenAngleBracket(Loc::default())));
    assert_eq!(tokens.next(), Some(Token::KeywordString(Loc::default())));
    assert_eq!(tokens.next(), Some(Token::CloseAngleBracket(Loc::default())));
    assert_eq!(tokens.next(), Some(Token::CloseParen(Loc::default())));
    assert_eq!(tokens.next(), Some(Token::Colon(Loc::default())));
    assert_eq!(
        tokens.next(),
        Some(Token::Identifier("delete_user_response".into(), Loc::default()))
    );
    assert_eq!(tokens.next(), Some(Token::Semicolon(Loc::default())));

    assert_eq!(tokens.next(), None);
}

#[test]
fn test_tokenize_3() {
    let input = r#"
            # Get the list of users cached by sync users plugin,
            # fetch from remote on cache miss if fetch_from_remote_if_cache_miss is true
            get_cached_users(fetch_from_remote_if_cache_miss: bool): list<pb_common_UserDocument_UserDocument>;
        "#;

    let mut tokens = tokenize(input).unwrap().into_iter();

    // # Get the list of users cached by sync users plugin,
    // # fetch from remote on cache miss if fetch_from_remote_if_cache_miss is true
    // get_cached_users(fetch_from_remote_if_cache_miss: bool): list<pb_common_UserDocument_UserDocument>;
    assert_eq!(
        tokens.next(),
        Some(Token::Comment(
            format!(
                "{}\n{}",
                " Get the list of users cached by sync users plugin,",
                " fetch from remote on cache miss if fetch_from_remote_if_cache_miss is true"
            ),
            Loc::default()
        ))
    );
    assert_eq!(
        tokens.next(),
        Some(Token::Identifier("get_cached_users".into(), Loc::default()))
    );
    assert_eq!(tokens.next(), Some(Token::OpenParen(Loc::default())));
    assert_eq!(
        tokens.next(),
        Some(Token::Identifier("fetch_from_remote_if_cache_miss".into(), Loc::default()))
    );
    assert_eq!(tokens.next(), Some(Token::Colon(Loc::default())));
    assert_eq!(tokens.next(), Some(Token::KeywordBool(Loc::default())));
    assert_eq!(tokens.next(), Some(Token::CloseParen(Loc::default())));
    assert_eq!(tokens.next(), Some(Token::Colon(Loc::default())));
    assert_eq!(tokens.next(), Some(Token::KeywordList(Loc::default())));
    assert_eq!(tokens.next(), Some(Token::OpenAngleBracket(Loc::default())));
    assert_eq!(
        tokens.next(),
        Some(Token::Identifier("pb_common_UserDocument_UserDocument".into(), Loc::default()))
    );
    assert_eq!(tokens.next(), Some(Token::CloseAngleBracket(Loc::default())));
    assert_eq!(tokens.next(), Some(Token::Semicolon(Loc::default())));

    assert_eq!(tokens.next(), None);
}

#[test]
fn test_tokenize_error_1() {
    let input = "abc -";

    assert_eq!(
        tokenize(input),
        Err(TokenizeError::UnexpectedChar(Loc { line: 0, column: 4 }))
    );
}

#[test]
fn test_tokenize_error_2() {
    let input = "xyz\n+x";

    assert_eq!(
        tokenize(input),
        Err(TokenizeError::UnknownLanguage(Loc { line: 1, column: 0 }))
    );
}

#[test]
fn test_tokenize_error_3() {
    let input = "@unknown";

    assert_eq!(
        tokenize(input),
        Err(TokenizeError::UnknownDirective(Loc { line: 0, column: 0 }))
    );
}
