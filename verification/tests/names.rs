use f1_ext_install::error::ParseError;
use f1_ext_install::parse::{name, parse_all};

#[test]
fn test_name_list_single() {
    let input = "abc";
    let (remaining, result) = name(input).unwrap();
    assert_eq!(remaining, "", "no input left");
    assert_eq!(result, "abc", "all input consumed");
}

#[test]
fn test_name_list_multi() {
    let input = "abc_def";
    let (remaining, result) = name(input).unwrap();
    assert_eq!(remaining, "", "no input left");
    assert_eq!(result, "abc_def", "all input consumed");
}

#[test]
fn test_name_list_empty() {
    let input = "";
    let result = name(input);
    assert!(result.is_err());
}

#[test]
fn name_keeps_valid_names_whole() {
    for input in ["gd", "pdo_mysql", "example_foo", "a", "Z9", "a1_b2_c3", "xmlrpc"] {
        assert_eq!(name(input), Ok(("", input)));
    }
}

#[test]
fn name_fails_without_a_leading_letter() {
    for input in ["", "1abc", "_abc", " abc", "  whoops  ", "@x", "-gd", "é", ":gd"] {
        assert_eq!(name(input), Err(ParseError::InvalidSyntax));
    }
}

#[test]
fn name_stops_at_the_longest_prefix() {
    assert_eq!(name("abc def"), Ok((" def", "abc")));
    assert_eq!(name("xdebug@2.5.5"), Ok(("@2.5.5", "xdebug")));
    assert_eq!(name("foo__bar"), Ok(("__bar", "foo")));
    assert_eq!(name("foo_"), Ok(("_", "foo")));
    assert_eq!(name("foo_1"), Ok(("_1", "foo")));
    assert_eq!(name("foo_b1"), Ok(("", "foo_b1")));
    assert_eq!(name("a_b_"), Ok(("_", "a_b")));
    assert_eq!(name("abcé"), Ok(("é", "abc")));
    assert_eq!(name("gd-2"), Ok(("-2", "gd")));
}

#[test]
fn parse_all_refuses_leftover_input() {
    assert_eq!(parse_all(name("abc")), Ok("abc"));
    assert_eq!(parse_all(name("abc def")), Err(ParseError::InvalidSyntax));
    assert_eq!(parse_all(name("")), Err(ParseError::InvalidSyntax));
    assert_eq!(
        parse_all::<u8>(Err(ParseError::ExpectedPrefix)),
        Err(ParseError::ExpectedPrefix)
    );
    assert_eq!(parse_all(Ok(("", 7u8))), Ok(7u8));
    assert_eq!(parse_all(Ok(("x", 7u8))), Err(ParseError::InvalidSyntax));
}

#[test]
fn error_messages() {
    assert_eq!(
        ParseError::ExpectedPrefix.message(),
        "An extension name needs to begin with a prefix of either \"builtin:\" or \"pecl:\""
    );
    assert_eq!(
        ParseError::InvalidSyntax.message(),
        "An extension name needs to be a valid name (e.g., memcached, pdo_mysql, gd)"
    );
}
