use esm_dev_server::specifier::{classify, is_well_formed, SpecifierKind};

#[test]
fn dot_slash_is_relative() {
    assert_eq!(classify("./b.js"), SpecifierKind::Relative);
    assert_eq!(classify("./"), SpecifierKind::Relative);
}

#[test]
fn dot_dot_slash_is_relative() {
    assert_eq!(classify("../lib/c.js"), SpecifierKind::Relative);
    assert_eq!(classify("../"), SpecifierKind::Relative);
}

#[test]
fn leading_slash_is_absolute() {
    assert_eq!(classify("/node_modules/left-pad/index.js"), SpecifierKind::Absolute);
    assert_eq!(classify("/"), SpecifierKind::Absolute);
    assert_eq!(classify("//cdn.example/x.js"), SpecifierKind::Absolute);
}

#[test]
fn package_names_are_bare() {
    assert_eq!(classify("left-pad"), SpecifierKind::Bare);
    assert_eq!(classify("left-pad/lib/index.js"), SpecifierKind::Bare);
    assert_eq!(classify("@scope/pkg"), SpecifierKind::Bare);
    assert_eq!(classify("https://cdn.example/x.js"), SpecifierKind::Bare);
}

#[test]
fn empty_specifier_is_bare_and_malformed() {
    assert_eq!(classify(""), SpecifierKind::Bare);
    assert!(!is_well_formed(""));
}

#[test]
fn dot_components_are_bare_and_malformed() {
    for s in [".", "..", ".\\b.js", "..\\b.js", ".\\", "..\\"] {
        assert_eq!(classify(s), SpecifierKind::Bare, "{}", s);
        assert!(!is_well_formed(s), "{}", s);
    }
}

#[test]
fn names_that_begin_with_a_dot_are_well_formed() {
    for s in [".x", ".hidden", "..x", "...", ".x/index.js", "..x/y"] {
        assert_eq!(classify(s), SpecifierKind::Bare, "{}", s);
        assert!(is_well_formed(s), "{}", s);
    }
}

#[test]
fn relative_and_absolute_specifiers_are_no_bare_specifiers() {
    for s in ["./b.js", "../b.js", "/b.js"] {
        assert!(!is_well_formed(s), "{}", s);
    }
}

#[test]
fn names_with_backslash_or_percent_are_well_formed() {
    assert!(is_well_formed("left\\pad"));
    assert!(is_well_formed("left%2Fpad"));
    assert!(is_well_formed("C:\\project\\a.js"));
    assert!(is_well_formed("@scope/pk%67"));
}

#[test]
fn backslash_and_percent_are_allowed_in_the_subpath() {
    assert!(is_well_formed("pkg/sub\\path"));
    assert!(is_well_formed("pkg/100%"));
    assert!(is_well_formed("@scope/pkg/a%20b"));
}

#[test]
fn scope_without_a_package_is_well_formed() {
    assert!(is_well_formed("@scope"));
    assert!(is_well_formed("@"));
    assert!(is_well_formed("@scope/pkg"));
    assert!(is_well_formed("@scope/"));
}

#[test]
fn names_beyond_ascii_are_counted_by_character() {
    assert_eq!(classify("./ü.js"), SpecifierKind::Relative);
    assert_eq!(classify("päck/ü.js"), SpecifierKind::Bare);
    assert!(is_well_formed("päck/ü.js"));
}
