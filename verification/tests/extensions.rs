use f1_ext_install::error::ParseError;
use f1_ext_install::extension::{Dependency, Extension};
use f1_ext_install::version::Version;

fn no_vars() -> Vec<(String, String)> {
    Vec::new()
}

fn vars(pairs: &[(&str, &str)]) -> Vec<(String, String)> {
    pairs.iter().map(|(k, v)| (k.to_string(), v.to_string())).collect()
}

fn strings(items: &[&str]) -> Vec<String> {
    items.iter().map(|s| s.to_string()).collect()
}

#[test]
fn mod_test_parse_builtin() {
    let gd = Extension::from_str("builtin:gd", &no_vars()).unwrap();
    match gd {
        Extension::Builtin(gd) => {
            assert_eq!(gd.name(), "gd", "builtin:gd should have name gd");
        }
        _ => panic!("builtin:gd should be a builtin extension"),
    }
}

#[test]
fn mod_test_parse_pecl() {
    let xdebug = Extension::from_str("pecl:xdebug", &no_vars()).unwrap();
    match xdebug {
        Extension::Pecl(xdebug) => {
            assert_eq!(xdebug.name(), "xdebug", "pecl:xdebug should have name xdebug");
            assert!(
                matches!(xdebug.version(), Version::Stable),
                "pecl:xdebug should have version stable"
            );
        }
        _ => panic!("pecl:xdebug should be a PECL extension"),
    }
}

#[test]
fn mod_test_parse_pecl_explicit_stable() {
    let xdebug = Extension::from_str("pecl:xdebug@stable", &no_vars()).unwrap();
    match xdebug {
        Extension::Pecl(xdebug) => {
            assert_eq!(xdebug.name(), "xdebug", "pecl:xdebug@stable should have name xdebug");
            assert!(
                matches!(xdebug.version(), Version::Stable),
                "pecl:xdebug@stable should have version stable"
            );
        }
        _ => panic!("pecl:xdebug@stable should be a PECL extension"),
    }
}

#[test]
fn mod_test_parse_pecl_explicit_version() {
    let xdebug = Extension::from_str("pecl:xdebug@2.5.5", &no_vars()).unwrap();
    match xdebug {
        Extension::Pecl(xdebug) => {
            assert_eq!(xdebug.name(), "xdebug", "pecl:xdebug@2.5.5 should have name xdebug");
            match xdebug.version() {
                Version::Custom(version) => {
                    assert_eq!(version, "2.5.5", "pecl:xdebug@2.5.5 should have version 2.5.5");
                }
                _ => panic!("pecl:xdebug@2.5.5 should have a custom version"),
            }
        }
        _ => panic!("pecl@xdebug:2.5.5 should be a PECL extension"),
    }
}

#[test]
#[should_panic]
fn mod_test_parse_pecl_garbage_version() {
    let _ = Extension::from_str("pecl:xdebug@askjdfh", &no_vars()).unwrap();
}

#[test]
fn extension_garbage_version_is_invalid_syntax() {
    assert!(matches!(
        Extension::from_str("pecl:xdebug@askjdfh", &no_vars()),
        Err(ParseError::InvalidSyntax)
    ));
}

#[test]
fn extension_builtin_gd() {
    let gd = Extension::from_str("builtin:gd", &no_vars()).unwrap();
    assert_eq!(gd.packages(), Some(&strings(&["coreutils", "freetype-dev", "libjpeg-turbo-dev"])));
    assert!(gd.has_packages());
    match gd {
        Extension::Builtin(gd) => {
            assert_eq!(
                gd.configure_cmd(),
                Some(&strings(&[
                    "--with-freetype-dir=/usr/include/",
                    "--with-jpeg-dir=/usr/include/",
                    "--with-png-dir=/usr/include/",
                ]))
            );
        }
        _ => panic!("builtin:gd is a builtin"),
    }
}

#[test]
fn extension_pecl_xdebug() {
    for input in ["pecl:xdebug", "pecl:xdebug@stable"] {
        match Extension::from_str(input, &no_vars()).unwrap() {
            Extension::Pecl(xdebug) => {
                assert!(matches!(xdebug.version(), Version::Stable));
                assert!(!xdebug.is_enabled());
                assert_eq!(xdebug.specifier(), "xdebug-stable");
            }
            _ => panic!("{} is a PECL extension", input),
        }
    }
}

#[test]
fn extension_expected_prefix() {
    for input in [
        "", "foo", "gd", "builtin", "pecl", "Builtin:gd", "PECL:xdebug", " builtin:gd", "builtin :gd",
        "builtin;gd", "pec:xdebug", "pecl@xdebug", "xbuiltin:gd",
    ] {
        assert!(
            matches!(Extension::from_str(input, &no_vars()), Err(ParseError::ExpectedPrefix)),
            "{:?} has no prefix",
            input
        );
    }
}

#[test]
fn extension_invalid_syntax() {
    for input in [
        "builtin:", "pecl:", "builtin:  whoops  ", "builtin:gd ", "builtin:gd@stable",
        "builtin:gd@2.5.5", "builtin:1gd", "builtin:pdo__mysql", "builtin:_gd", "builtin:gd_",
        "builtin:builtin:gd", "pecl:xdebug@", "pecl:xdebug@2.5", "pecl:x@1.2.3-rc1",
        "pecl:pecl:xdebug", "pecl:xdebug@2.5.5 trailing", "builtin:gd,zip", "builtin:gé",
    ] {
        assert!(
            matches!(Extension::from_str(input, &no_vars()), Err(ParseError::InvalidSyntax)),
            "{:?} is invalid",
            input
        );
    }
}

#[test]
fn extension_has_packages() {
    let intl = Extension::from_str("builtin:intl", &no_vars()).unwrap();
    assert!(intl.has_packages());
    let opcache = Extension::from_str("builtin:opcache", &no_vars()).unwrap();
    assert_eq!(opcache.packages(), None);
    assert!(!opcache.has_packages());
    let xdebug = Extension::from_str("pecl:xdebug", &no_vars()).unwrap();
    assert_eq!(xdebug.packages(), None);
    assert!(!xdebug.has_packages());
    let imagick = Extension::from_str("pecl:imagick", &no_vars()).unwrap();
    assert!(imagick.has_packages());

    let env = vars(&[("F1_BUILTIN_FFI_PACKAGES", ""), ("F1_PECL_FFI_PACKAGES", "libffi-dev")]);
    let empty = Extension::from_str("builtin:ffi", &env).unwrap();
    assert_eq!(empty.packages(), Some(&Vec::new()));
    assert!(!empty.has_packages());
    let one = Extension::from_str("pecl:ffi", &env).unwrap();
    assert_eq!(one.packages(), Some(&strings(&["libffi-dev"])));
    assert!(one.has_packages());
}

#[test]
fn extension_clone() {
    let gd = Extension::from_str("builtin:gd", &no_vars()).unwrap();
    let copy = gd.clone();
    assert_eq!(copy.packages(), gd.packages());
    assert!(matches!(copy, Extension::Builtin(_)));
    let xdebug = Extension::from_str("pecl:xdebug@2.5.5", &no_vars()).unwrap().clone();
    match xdebug {
        Extension::Pecl(xdebug) => assert_eq!(xdebug.specifier(), "xdebug-2.5.5"),
        _ => panic!("pecl:xdebug@2.5.5 is a PECL extension"),
    }
}

#[test]
fn dependency_is_an_extension() {
    let zip: Dependency = Dependency::from_str("builtin:zip", &no_vars()).unwrap();
    assert_eq!(zip.packages(), Some(&strings(&["libzip-dev"])));
    assert!(zip.has_packages());
}
