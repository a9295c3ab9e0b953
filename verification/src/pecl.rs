//! PECL extensions: those that `pecl install` fetches from the PHP Extension
//! Community Library, by name and, if wanted, by version.

use vstd::prelude::*;
use vstd::string::*;
use crate::environment::{decode_vars, envy_lists, field, find_field, var_prefix, FieldsView, Kind, VarsView};
use crate::error::ParseError;
use crate::parse::{is_longest_name_prefix, is_name, is_name_char, lemma_name_is_own_prefix, name};
use crate::text::{clone_strings, list1, list3, str_eq};
use crate::version::{is_version, stable_tag, Version, VersionView};

verus! {

/// What installing a PECL extension needs besides its name and version.
#[derive(Debug)]
pub struct PeclData {
    /// The system packages that the extension needs, if any.
    packages: Option<Vec<String>>,
    /// Whether the extension is left disabled after it is installed. XDebug is:
    /// it slows PHP down, so it is enabled only where it is wanted.
    disabled: bool,
}

/// What a [`PeclData`] stands for.
pub struct PeclDataView {
    pub packages: Option<Seq<Seq<char>>>,
    pub default_enabled: bool,
}

impl PeclDataView {
    /// Nothing to install, and enabled once installed.
    pub open spec fn empty() -> PeclDataView {
        PeclDataView { packages: None, default_enabled: true }
    }
}

impl View for PeclData {
    type V = PeclDataView;

    closed spec fn view(&self) -> PeclDataView {
        PeclDataView { packages: self.packages.deep_view(), default_enabled: !self.disabled }
    }
}

/// A PECL extension, ready to be installed.
#[derive(Debug)]
pub struct Pecl {
    /// The name, as `pecl install` takes it.
    name: String,
    /// The version to install.
    version: Version,
    /// What installing it needs.
    data: PeclData,
}

/// What a [`Pecl`] stands for.
pub struct PeclView {
    pub name: Seq<char>,
    pub version: VersionView,
    pub data: PeclDataView,
}

impl PeclView {
    /// What `pecl install` is given: the name, a hyphen and the version.
    pub open spec fn specifier(self) -> Seq<char> {
        self.name + seq!['-'] + self.version.text()
    }
}

impl View for Pecl {
    type V = PeclView;

    closed spec fn view(&self) -> PeclView {
        PeclView { name: self.name@, version: self.version@, data: self.data@ }
    }
}

/// The table of the PECL extensions that need packages or are left disabled.
pub open spec fn pecl_registry(name: Seq<char>) -> Option<PeclDataView> {
    if name == "imagick"@ {
        Some(PeclDataView { packages: Some(seq!["imagemagick-dev"@]), default_enabled: true })
    } else if name == "memcached"@ {
        Some(
            PeclDataView {
                packages: Some(seq!["libmemcached-dev"@, "zlib-dev"@, "libevent-dev"@]),
                default_enabled: true,
            },
        )
    } else if name == "xdebug"@ {
        Some(PeclDataView { packages: None, default_enabled: false })
    } else {
        None
    }
}

/// The data that decoded environment fields describe: the list named
/// `packages`, if it is there, and the field `disabled`, which holds `true` or
/// `false` and counts as `false` where it is missing. A `disabled` field that
/// holds anything else makes the fields as a whole unusable.
pub open spec fn pecl_from_fields(fields: FieldsView) -> Option<PeclDataView> {
    let packages = field(fields, "packages"@);
    match field(fields, "disabled"@) {
        None => Some(PeclDataView { packages, default_enabled: true }),
        Some(flag) => if flag == seq!["true"@] {
            Some(PeclDataView { packages, default_enabled: false })
        } else if flag == seq!["false"@] {
            Some(PeclDataView { packages, default_enabled: true })
        } else {
            None
        },
    }
}

/// The data of the PECL extension `name`, given what the environment decoded
/// to: the table's entry if there is one, else what the environment says if
/// that can be used, else nothing.
pub open spec fn resolve_pecl(name: Seq<char>, decoded: Option<FieldsView>) -> PeclDataView {
    match pecl_registry(name) {
        Some(data) => data,
        None => match decoded {
            Some(fields) => match pecl_from_fields(fields) {
                Some(data) => data,
                None => PeclDataView::empty(),
            },
            None => PeclDataView::empty(),
        },
    }
}

/// The data of the PECL extension `name` in the environment `vars`.
pub open spec fn pecl_data_for(name: Seq<char>, vars: VarsView) -> PeclDataView {
    resolve_pecl(name, envy_lists(var_prefix(Kind::Pecl, name), vars))
}

/// The version that the text after `@` asks for.
pub open spec fn version_of(text: Seq<char>) -> VersionView {
    if text == stable_tag() {
        VersionView::Stable
    } else {
        VersionView::Custom(text)
    }
}

/// `s` is a name, an `@` at position `i`, and a version: the word `stable` or
/// a release number.
pub open spec fn pecl_split(s: Seq<char>, i: int) -> bool {
    &&& 0 < i < s.len()
    &&& s[i] == '@'
    &&& is_name(s.take(i))
    &&& (s.skip(i + 1) == stable_tag() || is_version(s.skip(i + 1)))
}

/// `s` names a PECL extension: a name, or a name, `@` and a version.
pub open spec fn pecl_accepts(s: Seq<char>) -> bool {
    is_name(s) || exists|i: int| pecl_split(s, i)
}

/// The `@` of a PECL specifier stands where its longest name prefix ends.
pub proof fn lemma_split_at_name_end(s: Seq<char>, n: int, i: int)
    requires
        is_longest_name_prefix(s, n),
        pecl_split(s, i),
    ensures
        i == n,
{
    if i < n {
        assert(is_name_char(s.take(n)[i]));
    }
}

impl Default for PeclData {
    /// Nothing to install, and enabled once installed.
    fn default() -> (r: PeclData)
        ensures
            r@ == PeclDataView::empty(),
    {
        PeclData { packages: None, disabled: false }
    }
}

impl Clone for PeclData {
    fn clone(&self) -> (r: PeclData)
        ensures
            r@ == self@,
    {
        PeclData {
            packages: match &self.packages {
                Some(list) => Some(clone_strings(list)),
                None => None,
            },
            disabled: self.disabled,
        }
    }
}

impl PeclData {
    /// The data that fields decoded from the environment describe, or `None`
    /// where the field `disabled` holds neither `true` nor `false`.
    pub fn from_fields(fields: &Vec<(String, Vec<String>)>) -> (r: Option<PeclData>)
        ensures
            r is Some == pecl_from_fields(fields.deep_view()) is Some,
            r matches Some(data) ==> Some(data@) == pecl_from_fields(fields.deep_view()),
    {
        let packages = find_field(fields, "packages");
        match find_field(fields, "disabled") {
            None => Some(PeclData { packages, disabled: false }),
            Some(flag) => {
                if flag.len() != 1 {
                    assert(flag.deep_view().len() != 1);
                    None
                } else {
                    assert(flag.deep_view()[0] == flag@[0]@);
                    if str_eq(flag[0].as_str(), "true") {
                        assert(flag.deep_view() =~= seq!["true"@]);
                        Some(PeclData { packages, disabled: true })
                    } else if str_eq(flag[0].as_str(), "false") {
                        assert(flag.deep_view() =~= seq!["false"@]);
                        Some(PeclData { packages, disabled: false })
                    } else {
                        None
                    }
                }
            },
        }
    }

    /// The table's entry for `name`, if it has one.
    pub fn from_registry(name: &str) -> (r: Option<PeclData>)
        ensures
            r is Some == pecl_registry(name@) is Some,
            r matches Some(data) ==> Some(data@) == pecl_registry(name@),
    {
        if str_eq(name, "imagick") {
            Some(PeclData { packages: Some(list1("imagemagick-dev")), disabled: false })
        } else if str_eq(name, "memcached") {
            Some(
                PeclData {
                    packages: Some(list3("libmemcached-dev", "zlib-dev", "libevent-dev")),
                    disabled: false,
                },
            )
        } else if str_eq(name, "xdebug") {
            Some(PeclData { packages: None, disabled: true })
        } else {
            None
        }
    }

    /// The data of `name`, given what the environment decoded to. The table
    /// comes first; the environment is asked only about names that the table
    /// does not hold.
    pub fn resolve(name: &str, decoded: Option<Vec<(String, Vec<String>)>>) -> (r: PeclData)
        ensures
            r@ == resolve_pecl(name@, decoded.deep_view()),
    {
        match PeclData::from_registry(name) {
            Some(data) => data,
            None => match decoded {
                Some(fields) => match PeclData::from_fields(&fields) {
                    Some(data) => data,
                    None => PeclData::default(),
                },
                None => PeclData::default(),
            },
        }
    }
}

impl Clone for Pecl {
    fn clone(&self) -> (r: Pecl)
        ensures
            r@ == self@,
    {
        Pecl { name: self.name.clone(), version: self.version.clone(), data: self.data.clone() }
    }
}

/// Two resolutions of one name in one environment give the same data,
/// whatever was resolved in between: the data is a function of the name and
/// the environment.
pub proof fn lemma_pecl_resolution_deterministic(
    name: Seq<char>,
    vars: VarsView,
    first: PeclData,
    second: PeclData,
)
    requires
        first@ == pecl_data_for(name, vars),
        second@ == pecl_data_for(name, vars),
    ensures
        first@ == second@,
{
}

/// A name that the table holds resolves to the table's entry in every
/// environment.
pub proof fn lemma_pecl_registry_first(name: Seq<char>, vars: VarsView)
    requires
        pecl_registry(name) is Some,
    ensures
        Some(pecl_data_for(name, vars)) == pecl_registry(name),
{
}

/// Finds the data of a PECL extension: in the table, else in the environment
/// `vars`, else there is none. An unknown name is no error.
pub fn find_pecl_data(name: &str, vars: &Vec<(String, String)>) -> (r: PeclData)
    ensures
        r@ == pecl_data_for(name@, vars.deep_view()),
{
    match PeclData::from_registry(name) {
        Some(data) => data,
        None => PeclData::resolve(name, decode_vars(Kind::Pecl, name, vars)),
    }
}

impl Pecl {
    /// The name is a valid extension name, and a custom version is a release
    /// number.
    pub open spec fn well_formed(&self) -> bool {
        &&& is_name(self@.name)
        &&& self@.version matches VersionView::Custom(number) ==> is_version(number)
    }

    /// The name of the extension.
    pub fn name(&self) -> (r: &str)
        ensures
            r@ == self@.name,
    {
        self.name.as_str()
    }

    /// The system packages that the extension needs, if any.
    pub fn packages(&self) -> (r: Option<&Vec<String>>)
        ensures
            r.deep_view() == self@.data.packages,
    {
        self.data.packages.as_ref()
    }

    /// Whether the extension is enabled once it is installed.
    pub fn is_enabled(&self) -> (r: bool)
        ensures
            r == self@.data.default_enabled,
    {
        !self.data.disabled
    }

    /// What `pecl install` is given: the name, a hyphen and the version.
    pub fn specifier(&self) -> (r: String)
        ensures
            r@ == self@.specifier(),
    {
        let mut r = self.name.clone();
        r.push('-');
        let version = self.version.to_string();
        r.append(version.as_str());
        r
    }

    /// The version to install.
    pub fn version(&self) -> (r: &Version)
        ensures
            r@ == self@.version,
    {
        &self.version
    }

    /// Reads a PECL extension that is all of `input`: a name, or a name, `@`
    /// and a version. Without a version the stable channel is meant. The data
    /// comes from the table or from the environment `vars`. Anything else,
    /// a version that is neither `stable` nor a release number included, is
    /// [`ParseError::InvalidSyntax`].
    pub fn from_str(input: &str, vars: &Vec<(String, String)>) -> (r: Result<Pecl, ParseError>)
        ensures
            r is Ok <==> pecl_accepts(input@),
            r matches Ok(pecl) ==> {
                &&& pecl.well_formed()
                &&& is_name(input@) ==> pecl@.name == input@ && pecl@.version
                    == VersionView::Stable
                &&& forall|i: int| #[trigger]
                    pecl_split(input@, i) ==> pecl@.name == input@.take(i) && pecl@.version
                        == version_of(input@.skip(i + 1))
                &&& pecl@.data == pecl_data_for(pecl@.name, vars.deep_view())
            },
            r matches Err(e) ==> e == ParseError::InvalidSyntax,
    {
        let ghost s = input@;
        let (rest, matched) = match name(input) {
            Ok(pair) => pair,
            Err(e) => {
                assert forall|i: int| !pecl_split(s, i) by {
                    if pecl_split(s, i) {
                        assert(s.take(i)[0] == s[0]);
                    }
                }
                return Err(ParseError::InvalidSyntax);
            },
        };
        let ghost n = matched@.len() as int;
        let left = rest.unicode_len();
        proof {
            assert forall|i: int| pecl_split(s, i) implies i == n by {
                lemma_split_at_name_end(s, n, i);
            }
            if is_name(s) {
                lemma_name_is_own_prefix(s);
                crate::parse::lemma_longest_name_prefix_unique(s, n, s.len() as int);
            }
        }
        if left == 0 {
            assert(s.take(n) =~= s);
            return Ok(
                Pecl {
                    name: String::from_str(matched),
                    version: Version::Stable,
                    data: find_pecl_data(matched, vars),
                },
            );
        }
        if rest.get_char(0) != '@' {
            return Err(ParseError::InvalidSyntax);
        }
        let tail = rest.substring_char(1, left);
        assert(tail@ =~= s.skip(n + 1));
        match Version::from_str(tail) {
            Ok(version) => {
                assert(pecl_split(s, n));
                Ok(Pecl { name: String::from_str(matched), version, data: find_pecl_data(matched, vars) })
            },
            Err(e) => Err(e),
        }
    }
}

} // verus!
