use gummy::style::parse::{from_css, keyword, parse_css};
use gummy::{AlignContent, AlignItems, AlignSelf, CssKeyword, CssParseError, JustifyContent, JustifyItems, JustifySelf};

#[test]
fn keywords_match_ignoring_ascii_case() {
    assert_eq!(keyword("Space-Between"), Some(CssKeyword::SpaceBetween));
    assert_eq!(keyword("SAFE"), Some(CssKeyword::Safe));
    assert_eq!(keyword("flex_start"), None);
    assert_eq!(keyword("centre"), None);
    assert_eq!(keyword(""), None);
    assert_eq!("SaFe FlEx-EnD".parse::<JustifyContent>().unwrap(), JustifyContent::SAFE_FLEX_END);
}

#[test]
fn whitespace_and_comments_between_keywords_are_skipped() {
    assert_eq!("  safe   center  ".parse::<AlignItems>().unwrap(), AlignItems::SAFE_CENTER);
    assert_eq!("/* a */ unsafe /* b */ end".parse::<AlignSelf>().unwrap(), AlignSelf::END);
    assert_eq!("stretch /* trailing */".parse::<JustifyItems>().unwrap(), JustifyItems::STRETCH);
}

#[test]
fn escaped_identifiers_are_unescaped() {
    assert_eq!("st\\61rt".parse::<AlignContent>().unwrap(), AlignContent::START);
}

#[test]
fn each_error_has_its_input() {
    assert!(matches!("".parse::<AlignItems>(), Err(CssParseError::ExpectedIdent)));
    assert!(matches!("safe".parse::<AlignItems>(), Err(CssParseError::ExpectedIdent)));
    assert!(matches!("12px".parse::<JustifySelf>(), Err(CssParseError::ExpectedIdent)));
    match "left".parse::<AlignContent>() {
        Err(CssParseError::UnexpectedIdent(ident)) => assert_eq!(ident, "left"),
        other => panic!("unexpected result {:?}", other),
    }
    match "safe Baseline".parse::<AlignSelf>() {
        Err(CssParseError::UnexpectedIdent(ident)) => assert_eq!(ident, "Baseline"),
        other => panic!("unexpected result {:?}", other),
    }
    assert!(matches!("center end".parse::<JustifyContent>(), Err(CssParseError::TrailingInput)));
    assert!(matches!("center,".parse::<AlignItems>(), Err(CssParseError::TrailingInput)));
}

#[test]
fn a_prefix_parse_returns_the_rest_of_the_input() {
    let (value, rest) = from_css::<AlignSelf>("safe flex-start 10px").unwrap();
    assert_eq!(value, AlignSelf::SAFE_FLEX_START);
    assert_eq!(rest, " 10px");
    let (value, rest) = from_css::<JustifyItems>("normal").unwrap();
    assert_eq!(value, JustifyItems::NORMAL);
    assert_eq!(rest, "");
    assert_eq!(parse_css::<JustifySelf>("self-end").unwrap(), JustifySelf::SELF_END);
}

#[test]
fn unsafe_gives_the_bare_keyword_and_safe_the_safe_value() {
    for word in ["start", "end", "flex-start", "flex-end", "center"] {
        let bare = word.parse::<AlignContent>().unwrap();
        let unsafe_value = format!("unsafe {word}").parse::<AlignContent>().unwrap();
        let safe_value = format!("safe {word}").parse::<AlignContent>().unwrap();
        assert_eq!(unsafe_value, bare);
        assert!(safe_value.is_safe());
        assert_eq!(safe_value.unsafe_variant(), bare);
    }
}

#[test]
fn only_whitespace_and_comments_may_follow_a_value() {
    assert_eq!("center \t\n\r\x0C".parse::<AlignItems>().unwrap(), AlignItems::CENTER);
    assert_eq!("center /* unterminated".parse::<AlignItems>().unwrap(), AlignItems::CENTER);
    assert_eq!("center /**/ /* two */".parse::<AlignItems>().unwrap(), AlignItems::CENTER);
    assert!(matches!("center /* a */ x".parse::<AlignItems>(), Err(CssParseError::TrailingInput)));
    assert!(matches!("center /".parse::<AlignItems>(), Err(CssParseError::TrailingInput)));
}
