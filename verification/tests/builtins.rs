use f1_ext_install::builtin::{find_builtin, find_builtin_data, Builtin, BuiltinData};
use f1_ext_install::error::ParseError;

fn no_vars() -> Vec<(String, String)> {
    Vec::new()
}

fn vars(pairs: &[(&str, &str)]) -> Vec<(String, String)> {
    pairs.iter().map(|(k, v)| (k.to_string(), v.to_string())).collect()
}

fn strings(items: &[&str]) -> Vec<String> {
    items.iter().map(|s| s.to_string()).collect()
}

#[test]
fn builtin_test_parse_ok() {
    let parsed = Builtin::from_str("foo", &no_vars()).unwrap();
    assert_eq!(parsed.name(), "foo");
}

#[test]
#[should_panic]
fn builtin_test_parse_fail() {
    let _ = Builtin::from_str("  whoops  ", &no_vars()).unwrap();
}

#[test]
fn builtin_test_name_underscores() {
    let pdo_mysql = Builtin::from_str("pdo_mysql", &no_vars()).unwrap();
    assert_eq!(pdo_mysql.name(), "pdo_mysql");
}

#[test]
fn builtin_unknown_name_has_no_data() {
    let foo = Builtin::from_str("foo", &no_vars()).unwrap();
    assert_eq!(foo.name(), "foo");
    assert_eq!(foo.packages(), None);
    assert_eq!(foo.configure_cmd(), None);
}

#[test]
fn builtin_whitespace_is_refused() {
    assert!(matches!(
        Builtin::from_str("  whoops  ", &no_vars()),
        Err(ParseError::InvalidSyntax)
    ));
    assert!(matches!(Builtin::from_str("gd ", &no_vars()), Err(ParseError::InvalidSyntax)));
    assert!(matches!(Builtin::from_str("", &no_vars()), Err(ParseError::InvalidSyntax)));
    assert!(matches!(Builtin::from_str("foo__bar", &no_vars()), Err(ParseError::InvalidSyntax)));
    assert!(matches!(Builtin::from_str("9gd", &no_vars()), Err(ParseError::InvalidSyntax)));
}

#[test]
fn builtin_parse_hands_back_the_rest() {
    let (rest, builtin) = Builtin::parse("gd and more", &no_vars()).unwrap();
    assert_eq!(rest, " and more");
    assert_eq!(builtin.name(), "gd");
    assert_eq!(
        builtin.packages(),
        Some(&strings(&["coreutils", "freetype-dev", "libjpeg-turbo-dev"]))
    );
    assert!(matches!(Builtin::parse(" gd", &no_vars()), Err(ParseError::InvalidSyntax)));
}

#[test]
fn builtin_registry_contents() {
    let table: [(&str, &[&str], Option<&[&str]>); 10] = [
        ("bz2", &["bzip2-dev"], Some(&["--with-bz2"])),
        ("enchant", &["enchant-dev"], Some(&["--with-enchant"])),
        (
            "gd",
            &["coreutils", "freetype-dev", "libjpeg-turbo-dev"],
            Some(&[
                "--with-freetype-dir=/usr/include/",
                "--with-jpeg-dir=/usr/include/",
                "--with-png-dir=/usr/include/",
            ]),
        ),
        ("gettext", &["gettext", "gettext-dev"], Some(&["--with-gettext"])),
        ("gmp", &["gmp-dev"], Some(&["--with-gmp"])),
        ("imap", &["imap-dev", "openssl-dev"], Some(&["--with-imap", "--with-imap-ssl"])),
        ("intl", &["icu-dev"], None),
        ("ldap", &["openldap-dev"], Some(&["--with-ldap", "--with-ldap-sasl"])),
        ("soap", &["libxml2-dev"], None),
        ("zip", &["libzip-dev"], None),
    ];
    for (name, packages, configure_cmd) in table {
        let builtin = Builtin::from_str(name, &no_vars()).unwrap();
        assert_eq!(builtin.name(), name);
        assert_eq!(builtin.packages(), Some(&strings(packages)), "packages of {}", name);
        assert_eq!(
            builtin.configure_cmd(),
            configure_cmd.map(strings).as_ref(),
            "configure arguments of {}",
            name
        );
    }
}

#[test]
fn builtin_registry_comes_before_the_environment() {
    let env = vars(&[
        ("F1_BUILTIN_ZIP_PACKAGES", "other"),
        ("F1_BUILTIN_ZIP_CONFIGURE_CMD", "--with-other"),
    ]);
    let zip = Builtin::from_str("zip", &env).unwrap();
    assert_eq!(zip.packages(), Some(&strings(&["libzip-dev"])));
    assert_eq!(zip.configure_cmd(), None);
}

#[test]
fn builtin_from_the_environment() {
    let env = vars(&[
        ("PATH", "/usr/bin"),
        ("F1_BUILTIN_FFI_PACKAGES", "libffi-dev,gcc"),
        ("F1_BUILTIN_FFI_CONFIGURE_CMD", "--with-ffi"),
        ("F1_BUILTIN_FFIX_PACKAGES", "wrong"),
        ("F1_PECL_FFI_PACKAGES", "wrong"),
    ]);
    let ffi = Builtin::from_str("ffi", &env).unwrap();
    assert_eq!(ffi.name(), "ffi");
    assert_eq!(ffi.packages(), Some(&strings(&["libffi-dev", "gcc"])));
    assert_eq!(ffi.configure_cmd(), Some(&strings(&["--with-ffi"])));
}

#[test]
fn builtin_environment_lists_are_split_at_commas_only() {
    let env = vars(&[
        ("F1_BUILTIN_PDO_PGSQL_PACKAGES", "postgresql-dev, libpq extra"),
        ("F1_BUILTIN_PDO_PGSQL_CONFIGURE_CMD", ""),
    ]);
    let data = find_builtin_data("pdo_pgsql", &env);
    let builtin = Builtin::new("pdo_pgsql").with_data(data);
    assert_eq!(builtin.packages(), Some(&strings(&["postgresql-dev", " libpq extra"])));
    assert_eq!(builtin.configure_cmd(), Some(&Vec::new()));
}

#[test]
fn builtin_environment_only_one_field() {
    let env = vars(&[("F1_BUILTIN_XSL_CONFIGURE_CMD", "--with-xsl,--enable-x")]);
    let xsl = find_builtin("xsl", &env);
    assert_eq!(xsl.packages(), None);
    assert_eq!(xsl.configure_cmd(), Some(&strings(&["--with-xsl", "--enable-x"])));
}

#[test]
fn builtin_resolution_is_repeatable() {
    let env = vars(&[("F1_BUILTIN_FFI_PACKAGES", "libffi-dev")]);
    let first = find_builtin("ffi", &env);
    let _ = find_builtin("gd", &env);
    let _ = find_builtin("unknown", &env);
    let second = find_builtin("ffi", &env);
    assert_eq!(first.packages(), second.packages());
    assert_eq!(first.configure_cmd(), second.configure_cmd());
    let gd_first = find_builtin("gd", &env);
    let gd_second = find_builtin("gd", &no_vars());
    assert_eq!(gd_first.packages(), gd_second.packages());
    assert_eq!(gd_first.configure_cmd(), gd_second.configure_cmd());
}

#[test]
fn builtin_builders() {
    let builtin = Builtin::new("gd");
    assert_eq!(builtin.name(), "gd");
    assert_eq!(builtin.packages(), None);
    assert_eq!(builtin.configure_cmd(), None);

    let builtin = builtin.with_packages(strings(&["coreutils"]));
    assert_eq!(builtin.packages(), Some(&strings(&["coreutils"])));
    assert_eq!(builtin.configure_cmd(), None);

    let builtin = builtin.with_configure_cmd(strings(&["--with-gd"]));
    assert_eq!(builtin.name(), "gd");
    assert_eq!(builtin.packages(), Some(&strings(&["coreutils"])));
    assert_eq!(builtin.configure_cmd(), Some(&strings(&["--with-gd"])));

    let copy = builtin.clone();
    assert_eq!(copy.name(), "gd");
    assert_eq!(copy.packages(), builtin.packages());
    assert_eq!(copy.configure_cmd(), builtin.configure_cmd());

    let builtin = builtin.with_data(BuiltinData::default());
    assert_eq!(builtin.name(), "gd");
    assert_eq!(builtin.packages(), None);
    assert_eq!(builtin.configure_cmd(), None);
}

#[test]
fn builtin_data_constructors() {
    let data = BuiltinData::from_fields(&vec![("packages".to_string(), strings(&["a"]))]);
    let builtin = Builtin::new("x").with_data(data.clone());
    assert_eq!(builtin.packages(), Some(&strings(&["a"])));
    assert_eq!(builtin.configure_cmd(), None);

    let fields = vec![
        ("configure_cmd".to_string(), strings(&["--x"])),
        ("other".to_string(), strings(&["y"])),
        ("packages".to_string(), strings(&["p", "q"])),
    ];
    let builtin = Builtin::new("x").with_data(BuiltinData::from_fields(&fields));
    assert_eq!(builtin.packages(), Some(&strings(&["p", "q"])));
    assert_eq!(builtin.configure_cmd(), Some(&strings(&["--x"])));

    assert!(BuiltinData::from_registry("gd").is_some());
    assert!(BuiltinData::from_registry("GD").is_none());
    assert!(BuiltinData::from_registry("opcache").is_none());

    let resolved = BuiltinData::resolve("soap", Some(fields.clone()));
    let builtin = Builtin::new("soap").with_data(resolved);
    assert_eq!(builtin.packages(), Some(&strings(&["libxml2-dev"])));
    let resolved = BuiltinData::resolve("opcache", Some(fields));
    let builtin = Builtin::new("opcache").with_data(resolved);
    assert_eq!(builtin.packages(), Some(&strings(&["p", "q"])));
    let resolved = BuiltinData::resolve("opcache", None);
    let builtin = Builtin::new("opcache").with_data(resolved);
    assert_eq!(builtin.packages(), None);
}
