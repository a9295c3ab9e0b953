use f1_ext_install::error::ParseError;
use f1_ext_install::pecl::{find_pecl_data, Pecl, PeclData};
use f1_ext_install::version::Version;

fn no_vars() -> Vec<(String, String)> {
    Vec::new()
}

fn vars(pairs: &[(&str, &str)]) -> Vec<(String, String)> {
    pairs.iter().map(|(k, v)| (k.to_string(), v.to_string())).collect()
}

fn strings(items: &[&str]) -> Vec<String> {
    items.iter().map(|s| s.to_string()).collect()
}

#[test]
fn test_basic_parse() {
    let xdebug = Pecl::from_str("xdebug", &no_vars()).unwrap();
    assert_eq!(xdebug.name(), "xdebug");
}

#[test]
fn pecl_test_name_underscores() {
    let example_foo = Pecl::from_str("example_foo", &no_vars()).unwrap();
    assert_eq!(example_foo.name(), "example_foo");
}

#[test]
fn test_stable() {
    let xdebug = Pecl::from_str("xdebug@stable", &no_vars()).unwrap();
    assert_eq!(xdebug.name(), "xdebug", "xdebug should have name xdebug");
    assert!(
        matches!(xdebug.version(), Version::Stable),
        "xdebug@stable should have an explicit stable version"
    );
}

#[test]
fn test_version() {
    let xdebug = Pecl::from_str("xdebug@2.5.5", &no_vars()).unwrap();
    assert_eq!(xdebug.name(), "xdebug", "xdebug should have name xdebug");
    match xdebug.version() {
        Version::Custom(version) => {
            assert_eq!(version, "2.5.5");
        }
        _ => panic!("xdebug@2.5.5 should have custom version 2.5.5"),
    }
}

#[test]
fn pecl_without_version_is_stable() {
    let xdebug = Pecl::from_str("xdebug", &no_vars()).unwrap();
    assert!(matches!(xdebug.version(), Version::Stable));
    assert!(!xdebug.is_enabled());
    assert_eq!(xdebug.packages(), None);
}

#[test]
fn pecl_specifier() {
    let custom = Pecl::from_str("xdebug@2.5.5", &no_vars()).unwrap();
    assert_eq!(custom.specifier(), "xdebug-2.5.5");
    let stable = Pecl::from_str("xdebug@stable", &no_vars()).unwrap();
    assert_eq!(stable.specifier(), "xdebug-stable");
    let default = Pecl::from_str("pdo_sqlsrv", &no_vars()).unwrap();
    assert_eq!(default.specifier(), "pdo_sqlsrv-stable");
    let other = Pecl::from_str("memcached@3.1.5", &no_vars()).unwrap();
    assert_eq!(other.specifier(), "memcached-3.1.5");
}

#[test]
fn pecl_refuses_bad_syntax() {
    for input in [
        "", "xdebug@askjdfh", "xdebug@", "@2.5.5", "xdebug@2.5", "xdebug@2.5.5.1", "xdebug@@stable",
        "xdebug@stable@stable", "xdebug @stable", " xdebug", "xdebug ", "x__y", "xdebug@2.5.5 ",
        "xdebug@Stable", "1x", "xdebug-2.5.5", "xdebug@stable1", "x@1.2.3@",
    ] {
        assert!(
            matches!(Pecl::from_str(input, &no_vars()), Err(ParseError::InvalidSyntax)),
            "{:?} is no PECL extension",
            input
        );
    }
}

#[test]
fn pecl_registry_contents() {
    let imagick = Pecl::from_str("imagick", &no_vars()).unwrap();
    assert_eq!(imagick.packages(), Some(&strings(&["imagemagick-dev"])));
    assert!(imagick.is_enabled());

    let memcached = Pecl::from_str("memcached@3.1.5", &no_vars()).unwrap();
    assert_eq!(
        memcached.packages(),
        Some(&strings(&["libmemcached-dev", "zlib-dev", "libevent-dev"]))
    );
    assert!(memcached.is_enabled());

    let xdebug = Pecl::from_str("xdebug@stable", &no_vars()).unwrap();
    assert_eq!(xdebug.packages(), None);
    assert!(!xdebug.is_enabled());

    let unknown = Pecl::from_str("redis", &no_vars()).unwrap();
    assert_eq!(unknown.packages(), None);
    assert!(unknown.is_enabled());
}

#[test]
fn pecl_from_the_environment() {
    let env = vars(&[
        ("F1_PECL_MCRYPT_PACKAGES", "libmcrypt-dev"),
        ("F1_BUILTIN_MCRYPT_PACKAGES", "wrong"),
        ("HOME", "/root"),
    ]);
    let mcrypt = Pecl::from_str("mcrypt", &env).unwrap();
    assert_eq!(mcrypt.packages(), Some(&strings(&["libmcrypt-dev"])));
    assert!(mcrypt.is_enabled());

    let env = vars(&[
        ("F1_PECL_MCRYPT_PACKAGES", "libmcrypt-dev,libltdl"),
        ("F1_PECL_MCRYPT_DISABLED", "true"),
    ]);
    let mcrypt = Pecl::from_str("mcrypt@1.0.3", &env).unwrap();
    assert_eq!(mcrypt.packages(), Some(&strings(&["libmcrypt-dev", "libltdl"])));
    assert!(!mcrypt.is_enabled());
    assert_eq!(mcrypt.specifier(), "mcrypt-1.0.3");

    let env = vars(&[("F1_PECL_MCRYPT_DISABLED", "false")]);
    let mcrypt = Pecl::from_str("mcrypt", &env).unwrap();
    assert_eq!(mcrypt.packages(), None);
    assert!(mcrypt.is_enabled());
}

#[test]
fn pecl_unusable_environment_gives_no_data() {
    for flag in ["yes", "", "TRUE", "true,false", " true", "1"] {
        let env = vars(&[
            ("F1_PECL_MCRYPT_PACKAGES", "libmcrypt-dev"),
            ("F1_PECL_MCRYPT_DISABLED", flag),
        ]);
        let mcrypt = Pecl::from_str("mcrypt", &env).unwrap();
        assert_eq!(mcrypt.packages(), None, "DISABLED={:?}", flag);
        assert!(mcrypt.is_enabled(), "DISABLED={:?}", flag);
    }
}

#[test]
fn pecl_registry_comes_before_the_environment() {
    let env = vars(&[
        ("F1_PECL_XDEBUG_DISABLED", "false"),
        ("F1_PECL_XDEBUG_PACKAGES", "some"),
    ]);
    let xdebug = Pecl::from_str("xdebug", &env).unwrap();
    assert!(!xdebug.is_enabled());
    assert_eq!(xdebug.packages(), None);
}

#[test]
fn pecl_resolution_is_repeatable() {
    let env = vars(&[("F1_PECL_MCRYPT_PACKAGES", "libmcrypt-dev")]);
    let first = Pecl::from_str("mcrypt", &env).unwrap();
    let _ = Pecl::from_str("imagick", &env).unwrap();
    let second = Pecl::from_str("mcrypt", &env).unwrap();
    assert_eq!(first.packages(), second.packages());
    assert_eq!(first.is_enabled(), second.is_enabled());
}

#[test]
fn pecl_data_constructors() {
    let fields = vec![
        ("disabled".to_string(), strings(&["true"])),
        ("packages".to_string(), strings(&["p"])),
    ];
    assert!(PeclData::from_fields(&fields).is_some());
    let fields = vec![("disabled".to_string(), strings(&["true", "x"]))];
    assert!(PeclData::from_fields(&fields).is_none());
    let fields = vec![("disabled".to_string(), Vec::new())];
    assert!(PeclData::from_fields(&fields).is_none());
    assert!(PeclData::from_fields(&Vec::new()).is_some());

    assert!(PeclData::from_registry("xdebug").is_some());
    assert!(PeclData::from_registry("redis").is_none());

    let _ = PeclData::default().clone();
    let _ = PeclData::resolve("redis", None);
    let _ = find_pecl_data("redis", &no_vars());

    let copy = Pecl::from_str("memcached@3.1.5", &no_vars()).unwrap().clone();
    assert_eq!(copy.name(), "memcached");
    assert_eq!(copy.specifier(), "memcached-3.1.5");
    assert_eq!(copy.packages(), Some(&strings(&["libmemcached-dev", "zlib-dev", "libevent-dev"])));
}

#[test]
fn test_pecl_from_registry() {
    let packages = &["imagick", "memcached"];

    for &package in packages {
        let specifier = format!("pecl:{}", package);
        match f1_ext_install::extension::Extension::from_str(&specifier, &no_vars()) {
            Ok(f1_ext_install::extension::Extension::Pecl(pecl)) => {
                assert_eq!(pecl.name(), package);
                assert!(pecl.packages().is_some());
                assert!(pecl.is_enabled());
                assert_eq!(pecl.specifier(), format!("{}-stable", package));
            }
            other => panic!("{} should be a PECL extension, not {:?}", specifier, other),
        }
    }
}

#[test]
fn test_external_pecl_config() {
    let packages = &[("mcrypt", ("F1_PECL_MCRYPT_PACKAGES", "libmcrypt-dev"))];

    for (package, (packages_key, packages_value)) in packages {
        let env = vars(&[(packages_key, packages_value)]);

        let ldap = Pecl::from_str("ldap", &env).unwrap();
        assert_eq!(ldap.name(), "ldap");
        assert_eq!(ldap.packages(), None);

        let configured = Pecl::from_str(package, &env).unwrap();
        assert_eq!(configured.name(), *package);
        assert_eq!(configured.packages(), Some(&strings(&[packages_value])));
    }
}
