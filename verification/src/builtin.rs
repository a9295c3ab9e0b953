//! PHP builtin extensions: those that `docker-php-ext-install` compiles from
//! the PHP source tree.

use vstd::prelude::*;
use vstd::string::*;
use crate::environment::{decode_vars, envy_lists, field, find_field, var_prefix, FieldsView, Kind, VarsView};
use crate::error::ParseError;
use crate::parse::{is_longest_name_prefix, is_name, lemma_name_is_own_prefix, lemma_longest_name_prefix_unique, name, parse_all};
use crate::text::{clone_strings, is_alpha, list1, list2, list3, str_eq};

verus! {

/// What installing a builtin extension needs besides its name.
#[derive(Debug)]
pub struct BuiltinData {
    /// The system packages that the extension needs, if any.
    packages: Option<Vec<String>>,
    /// The arguments for `docker-php-ext-configure`, if that tool has to run.
    configure_cmd: Option<Vec<String>>,
}

/// What a [`BuiltinData`] stands for.
pub struct BuiltinDataView {
    pub packages: Option<Seq<Seq<char>>>,
    pub configure_cmd: Option<Seq<Seq<char>>>,
}

impl BuiltinDataView {
    /// Nothing to install and nothing to configure.
    pub open spec fn empty() -> BuiltinDataView {
        BuiltinDataView { packages: None, configure_cmd: None }
    }
}

impl View for BuiltinData {
    type V = BuiltinDataView;

    closed spec fn view(&self) -> BuiltinDataView {
        BuiltinDataView {
            packages: self.packages.deep_view(),
            configure_cmd: self.configure_cmd.deep_view(),
        }
    }
}

/// A builtin extension, ready to be installed.
#[derive(Debug)]
pub struct Builtin {
    /// The name, as `docker-php-ext-install` takes it.
    name: String,
    /// What installing it needs.
    data: BuiltinData,
}

/// What a [`Builtin`] stands for.
pub struct BuiltinView {
    pub name: Seq<char>,
    pub data: BuiltinDataView,
}

impl View for Builtin {
    type V = BuiltinView;

    closed spec fn view(&self) -> BuiltinView {
        BuiltinView { name: self.name@, data: self.data@ }
    }
}

/// The table of the builtin extensions that need packages or configure
/// arguments. Most builtins need neither and are not listed.
pub open spec fn builtin_registry(name: Seq<char>) -> Option<BuiltinDataView> {
    if name == "bz2"@ {
        Some(
            BuiltinDataView {
                packages: Some(seq!["bzip2-dev"@]),
                configure_cmd: Some(seq!["--with-bz2"@]),
            },
        )
    } else if name == "enchant"@ {
        Some(
            BuiltinDataView {
                packages: Some(seq!["enchant-dev"@]),
                configure_cmd: Some(seq!["--with-enchant"@]),
            },
        )
    } else if name == "gd"@ {
        Some(
            BuiltinDataView {
                packages: Some(seq!["coreutils"@, "freetype-dev"@, "libjpeg-turbo-dev"@]),
                configure_cmd: Some(
                    seq![
                        "--with-freetype-dir=/usr/include/"@,
                        "--with-jpeg-dir=/usr/include/"@,
                        "--with-png-dir=/usr/include/"@,
                    ],
                ),
            },
        )
    } else if name == "gettext"@ {
        Some(
            BuiltinDataView {
                packages: Some(seq!["gettext"@, "gettext-dev"@]),
                configure_cmd: Some(seq!["--with-gettext"@]),
            },
        )
    } else if name == "gmp"@ {
        Some(
            BuiltinDataView {
                packages: Some(seq!["gmp-dev"@]),
                configure_cmd: Some(seq!["--with-gmp"@]),
            },
        )
    } else if name == "imap"@ {
        Some(
            BuiltinDataView {
                packages: Some(seq!["imap-dev"@, "openssl-dev"@]),
                configure_cmd: Some(seq!["--with-imap"@, "--with-imap-ssl"@]),
            },
        )
    } else if name == "intl"@ {
        Some(BuiltinDataView { packages: Some(seq!["icu-dev"@]), configure_cmd: None })
    } else if name == "ldap"@ {
        Some(
            BuiltinDataView {
                packages: Some(seq!["openldap-dev"@]),
                configure_cmd: Some(seq!["--with-ldap"@, "--with-ldap-sasl"@]),
            },
        )
    } else if name == "soap"@ {
        Some(BuiltinDataView { packages: Some(seq!["libxml2-dev"@]), configure_cmd: None })
    } else if name == "zip"@ {
        Some(BuiltinDataView { packages: Some(seq!["libzip-dev"@]), configure_cmd: None })
    } else {
        None
    }
}

/// The data that decoded environment fields describe: the lists named
/// `packages` and `configure_cmd`, as far as they are there.
pub open spec fn builtin_from_fields(fields: FieldsView) -> BuiltinDataView {
    BuiltinDataView {
        packages: field(fields, "packages"@),
        configure_cmd: field(fields, "configure_cmd"@),
    }
}

/// The data of the builtin `name`, given what the environment decoded to:
/// the table's entry if there is one, else what the environment says, else
/// nothing.
pub open spec fn resolve_builtin(name: Seq<char>, decoded: Option<FieldsView>) -> BuiltinDataView {
    match builtin_registry(name) {
        Some(data) => data,
        None => match decoded {
            Some(fields) => builtin_from_fields(fields),
            None => BuiltinDataView::empty(),
        },
    }
}

/// The data of the builtin `name` in the environment `vars`.
pub open spec fn builtin_data_for(name: Seq<char>, vars: VarsView) -> BuiltinDataView {
    resolve_builtin(name, envy_lists(var_prefix(Kind::Builtin, name), vars))
}

impl Default for BuiltinData {
    /// Nothing to install and nothing to configure.
    fn default() -> (r: BuiltinData)
        ensures
            r@ == BuiltinDataView::empty(),
    {
        BuiltinData { packages: None, configure_cmd: None }
    }
}

impl Clone for BuiltinData {
    fn clone(&self) -> (r: BuiltinData)
        ensures
            r@ == self@,
    {
        BuiltinData {
            packages: match &self.packages {
                Some(list) => Some(clone_strings(list)),
                None => None,
            },
            configure_cmd: match &self.configure_cmd {
                Some(list) => Some(clone_strings(list)),
                None => None,
            },
        }
    }
}

impl BuiltinData {
    /// The data that fields decoded from the environment describe.
    pub fn from_fields(fields: &Vec<(String, Vec<String>)>) -> (r: BuiltinData)
        ensures
            r@ == builtin_from_fields(fields.deep_view()),
    {
        BuiltinData {
            packages: find_field(fields, "packages"),
            configure_cmd: find_field(fields, "configure_cmd"),
        }
    }

    /// The table's entry for `name`, if it has one.
    pub fn from_registry(name: &str) -> (r: Option<BuiltinData>)
        ensures
            r is Some == builtin_registry(name@) is Some,
            r matches Some(data) ==> Some(data@) == builtin_registry(name@),
    {
        if str_eq(name, "bz2") {
            Some(
                BuiltinData {
                    packages: Some(list1("bzip2-dev")),
                    configure_cmd: Some(list1("--with-bz2")),
                },
            )
        } else if str_eq(name, "enchant") {
            Some(
                BuiltinData {
                    packages: Some(list1("enchant-dev")),
                    configure_cmd: Some(list1("--with-enchant")),
                },
            )
        } else if str_eq(name, "gd") {
            Some(
                BuiltinData {
                    packages: Some(list3("coreutils", "freetype-dev", "libjpeg-turbo-dev")),
                    configure_cmd: Some(
                        list3(
                            "--with-freetype-dir=/usr/include/",
                            "--with-jpeg-dir=/usr/include/",
                            "--with-png-dir=/usr/include/",
                        ),
                    ),
                },
            )
        } else if str_eq(name, "gettext") {
            Some(
                BuiltinData {
                    packages: Some(list2("gettext", "gettext-dev")),
                    configure_cmd: Some(list1("--with-gettext")),
                },
            )
        } else if str_eq(name, "gmp") {
            Some(
                BuiltinData {
                    packages: Some(list1("gmp-dev")),
                    configure_cmd: Some(list1("--with-gmp")),
                },
            )
        } else if str_eq(name, "imap") {
            Some(
                BuiltinData {
                    packages: Some(list2("imap-dev", "openssl-dev")),
                    configure_cmd: Some(list2("--with-imap", "--with-imap-ssl")),
                },
            )
        } else if str_eq(name, "intl") {
            Some(BuiltinData { packages: Some(list1("icu-dev")), configure_cmd: None })
        } else if str_eq(name, "ldap") {
            Some(
                BuiltinData {
                    packages: Some(list1("openldap-dev")),
                    configure_cmd: Some(list2("--with-ldap", "--with-ldap-sasl")),
                },
            )
        } else if str_eq(name, "soap") {
            Some(BuiltinData { packages: Some(list1("libxml2-dev")), configure_cmd: None })
        } else if str_eq(name, "zip") {
            Some(BuiltinData { packages: Some(list1("libzip-dev")), configure_cmd: None })
        } else {
            None
        }
    }

    /// The data of `name`, given what the environment decoded to. The table
    /// comes first; the environment is asked only about names that the table
    /// does not hold.
    pub fn resolve(name: &str, decoded: Option<Vec<(String, Vec<String>)>>) -> (r: BuiltinData)
        ensures
            r@ == resolve_builtin(name@, decoded.deep_view()),
    {
        match BuiltinData::from_registry(name) {
            Some(data) => data,
            None => match decoded {
                Some(fields) => BuiltinData::from_fields(&fields),
                None => BuiltinData::default(),
            },
        }
    }
}

impl Clone for Builtin {
    fn clone(&self) -> (r: Builtin)
        ensures
            r@ == self@,
    {
        Builtin { name: self.name.clone(), data: self.data.clone() }
    }
}

/// Two resolutions of one name in one environment give the same data,
/// whatever was resolved in between: the data is a function of the name and
/// the environment.
pub proof fn lemma_builtin_resolution_deterministic(
    name: Seq<char>,
    vars: VarsView,
    first: BuiltinData,
    second: BuiltinData,
)
    requires
        first@ == builtin_data_for(name, vars),
        second@ == builtin_data_for(name, vars),
    ensures
        first@ == second@,
{
}

/// A name that the table holds resolves to the table's entry in every
/// environment.
pub proof fn lemma_builtin_registry_first(name: Seq<char>, vars: VarsView)
    requires
        builtin_registry(name) is Some,
    ensures
        Some(builtin_data_for(name, vars)) == builtin_registry(name),
{
}

/// Finds the data of a builtin: in the table, else in the environment `vars`,
/// else there is none. An unknown name is no error.
pub fn find_builtin_data(name: &str, vars: &Vec<(String, String)>) -> (r: BuiltinData)
    ensures
        r@ == builtin_data_for(name@, vars.deep_view()),
{
    match BuiltinData::from_registry(name) {
        Some(data) => data,
        None => BuiltinData::resolve(name, decode_vars(Kind::Builtin, name, vars)),
    }
}

/// Finds the builtin `name`, with its data from the table or from the
/// environment `vars`.
pub fn find_builtin(name: &str, vars: &Vec<(String, String)>) -> (r: Builtin)
    requires
        is_name(name@),
    ensures
        r.well_formed(),
        r@ == (BuiltinView { name: name@, data: builtin_data_for(name@, vars.deep_view()) }),
{
    Builtin::new(name).with_data(find_builtin_data(name, vars))
}

impl Builtin {
    /// The name is a valid extension name.
    pub open spec fn well_formed(&self) -> bool {
        is_name(self@.name)
    }

    /// A builtin that needs no packages and no configure arguments.
    pub fn new(name: &str) -> (r: Builtin)
        requires
            is_name(name@),
        ensures
            r.well_formed(),
            r@ == (BuiltinView { name: name@, data: BuiltinDataView::empty() }),
    {
        Builtin { name: String::from_str(name), data: BuiltinData::default() }
    }

    /// The same builtin with other data.
    pub fn with_data(self, data: BuiltinData) -> (r: Builtin)
        ensures
            r.well_formed() == self.well_formed(),
            r@ == (BuiltinView { name: self@.name, data: data@ }),
    {
        Builtin { name: self.name, data }
    }

    /// The same builtin with `packages` as the system packages it needs.
    pub fn with_packages(self, packages: Vec<String>) -> (r: Builtin)
        ensures
            r.well_formed() == self.well_formed(),
            r@ == (BuiltinView {
                name: self@.name,
                data: BuiltinDataView {
                    packages: Some(packages.deep_view()),
                    configure_cmd: self@.data.configure_cmd,
                },
            }),
    {
        Builtin {
            name: self.name,
            data: BuiltinData { packages: Some(packages), configure_cmd: self.data.configure_cmd },
        }
    }

    /// The same builtin with `configure_cmd` as its arguments for
    /// `docker-php-ext-configure`.
    pub fn with_configure_cmd(self, configure_cmd: Vec<String>) -> (r: Builtin)
        ensures
            r.well_formed() == self.well_formed(),
            r@ == (BuiltinView {
                name: self@.name,
                data: BuiltinDataView {
                    packages: self@.data.packages,
                    configure_cmd: Some(configure_cmd.deep_view()),
                },
            }),
    {
        Builtin {
            name: self.name,
            data: BuiltinData { packages: self.data.packages, configure_cmd: Some(configure_cmd) },
        }
    }

    /// The name of the builtin.
    pub fn name(&self) -> (r: &str)
        ensures
            r@ == self@.name,
    {
        self.name.as_str()
    }

    /// The system packages that the builtin needs, if any.
    pub fn packages(&self) -> (r: Option<&Vec<String>>)
        ensures
            r.deep_view() == self@.data.packages,
    {
        self.data.packages.as_ref()
    }

    /// The arguments for `docker-php-ext-configure`, if that tool has to run.
    pub fn configure_cmd(&self) -> (r: Option<&Vec<String>>)
        ensures
            r.deep_view() == self@.data.configure_cmd,
    {
        self.data.configure_cmd.as_ref()
    }

    /// Reads a builtin from the front of `input`: the longest name there, with
    /// its data from the table or from the environment `vars`. What is left of
    /// the input is handed back with the builtin. Fails with
    /// [`ParseError::InvalidSyntax`] exactly when `input` does not start with a
    /// letter.
    pub fn parse<'a>(input: &'a str, vars: &Vec<(String, String)>) -> (r: Result<
        (&'a str, Builtin),
        ParseError,
    >)
        ensures
            r is Ok <==> input@.len() > 0 && is_alpha(input@[0]),
            r matches Ok((rest, builtin)) ==> {
                &&& builtin.well_formed()
                &&& is_longest_name_prefix(input@, builtin@.name.len() as int)
                &&& builtin@.name == input@.take(builtin@.name.len() as int)
                &&& rest@ == input@.skip(builtin@.name.len() as int)
                &&& builtin@.data == builtin_data_for(builtin@.name, vars.deep_view())
            },
            r matches Err(e) ==> e == ParseError::InvalidSyntax,
    {
        match name(input) {
            Ok((rest, matched)) => Ok((rest, find_builtin(matched, vars))),
            Err(e) => Err(e),
        }
    }

    /// Reads a builtin that is all of `input`. Succeeds exactly when `input` is
    /// a name, and then keeps that name as it is; anything else is
    /// [`ParseError::InvalidSyntax`].
    pub fn from_str(input: &str, vars: &Vec<(String, String)>) -> (r: Result<Builtin, ParseError>)
        ensures
            r is Ok <==> is_name(input@),
            r matches Ok(builtin) ==> {
                &&& builtin.well_formed()
                &&& builtin@ == (BuiltinView {
                    name: input@,
                    data: builtin_data_for(input@, vars.deep_view()),
                })
            },
            r matches Err(e) ==> e == ParseError::InvalidSyntax,
    {
        let parsed = Builtin::parse(input, vars);
        proof {
            let s = input@;
            if is_name(s) {
                lemma_name_is_own_prefix(s);
                let n = parsed->Ok_0.1@.name.len() as int;
                lemma_longest_name_prefix_unique(s, n, s.len() as int);
                assert(s.take(s.len() as int) =~= s);
            }
            if parsed is Ok && parsed->Ok_0.0@.len() == 0 {
                assert(s.take(s.len() as int) =~= s);
            }
        }
        parse_all(parsed)
    }
}

} // verus!
