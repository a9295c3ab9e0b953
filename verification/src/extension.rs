//! Extension specifiers, as they are given on the command line:
//! `builtin:<name>`, `pecl:<name>` or `pecl:<name>@<version>`.

use vstd::prelude::*;
use vstd::string::*;
use crate::builtin::{builtin_data_for, BuiltinView};
pub use crate::builtin::Builtin;
pub use crate::error::ParseError;
use crate::parse::is_name;
use crate::pecl::{pecl_accepts, pecl_data_for, pecl_split, version_of, PeclView};
pub use crate::pecl::Pecl;
use crate::text::str_eq;
pub use crate::version::Version;
use crate::version::{is_version, stable_tag, VersionView};

verus! {

/// An extension that the image being built needs.
#[derive(Debug)]
pub enum Extension {
    /// A PHP builtin, such as `gd` or `opcache`.
    Builtin(Builtin),
    /// A PECL extension, such as `memcached` or `xdebug`.
    Pecl(Pecl),
}

/// An extension, seen as something that the image depends on.
pub type Dependency = Extension;

/// What an [`Extension`] stands for.
pub enum ExtensionView {
    Builtin(BuiltinView),
    Pecl(PeclView),
}

impl View for Extension {
    type V = ExtensionView;

    open spec fn view(&self) -> ExtensionView {
        match self {
            Extension::Builtin(builtin) => ExtensionView::Builtin(builtin@),
            Extension::Pecl(pecl) => ExtensionView::Pecl(pecl@),
        }
    }
}

impl ExtensionView {
    /// The system packages that the extension needs, if any.
    pub open spec fn packages(self) -> Option<Seq<Seq<char>>> {
        match self {
            ExtensionView::Builtin(builtin) => builtin.data.packages,
            ExtensionView::Pecl(pecl) => pecl.data.packages,
        }
    }
}

/// The prefix of a builtin's specifier.
pub open spec fn builtin_tag() -> Seq<char> {
    "builtin:"@
}

/// The prefix of a PECL extension's specifier.
pub open spec fn pecl_tag() -> Seq<char> {
    "pecl:"@
}

/// `s` starts with `tag`.
pub open spec fn has_tag(s: Seq<char>, tag: Seq<char>) -> bool {
    s.len() >= tag.len() && s.take(tag.len() as int) == tag
}

/// What is left of `s` behind a tag of that length.
pub open spec fn behind_tag(s: Seq<char>, tag: Seq<char>) -> Seq<char> {
    s.skip(tag.len() as int)
}

/// `s` is a specifier that [`Extension::from_str`] takes.
pub open spec fn accepts(s: Seq<char>) -> bool {
    if has_tag(s, builtin_tag()) {
        is_name(behind_tag(s, builtin_tag()))
    } else {
        has_tag(s, pecl_tag()) && pecl_accepts(behind_tag(s, pecl_tag()))
    }
}

/// The error that [`Extension::from_str`] gives for a specifier it refuses.
pub open spec fn refusal(s: Seq<char>) -> ParseError {
    if has_tag(s, builtin_tag()) || has_tag(s, pecl_tag()) {
        ParseError::InvalidSyntax
    } else {
        ParseError::ExpectedPrefix
    }
}

/// Every name behind `builtin:` is a specifier, and what stands behind the
/// prefix is that name.
pub proof fn lemma_builtin_specifier(name: Seq<char>)
    requires
        is_name(name),
    ensures
        accepts(builtin_tag() + name),
        behind_tag(builtin_tag() + name, builtin_tag()) == name,
{
    let s = builtin_tag() + name;
    assert(s.take(builtin_tag().len() as int) =~= builtin_tag());
    assert(s.skip(builtin_tag().len() as int) =~= name);
}

/// Every name behind `pecl:` is a specifier, alone or followed by `@` and a
/// version, which is the word `stable` or a release number.
pub proof fn lemma_pecl_specifier(name: Seq<char>, version: Seq<char>)
    requires
        is_name(name),
        version == stable_tag() || is_version(version),
    ensures
        accepts(pecl_tag() + name),
        accepts(pecl_tag() + name + seq!['@'] + version),
        behind_tag(pecl_tag() + name, pecl_tag()) == name,
        pecl_split(
            behind_tag(pecl_tag() + name + seq!['@'] + version, pecl_tag()),
            name.len() as int,
        ),
{
    reveal_strlit("builtin:");
    reveal_strlit("pecl:");
    let width = pecl_tag().len() as int;
    let short = pecl_tag() + name;
    assert(short.take(width) =~= pecl_tag());
    assert(short.skip(width) =~= name);
    assert(short.len() >= 8 ==> short.take(8)[0] == 'p');
    let long = pecl_tag() + name + seq!['@'] + version;
    let rest = name + seq!['@'] + version;
    assert(long.take(width) =~= pecl_tag());
    assert(long.skip(width) =~= rest);
    assert(long.len() >= 8 ==> long.take(8)[0] == 'p');
    assert(rest.take(name.len() as int) =~= name);
    assert(rest.skip(name.len() as int + 1) =~= version);
    assert(pecl_split(rest, name.len() as int));
}

/// Whether `input` starts with `tag`, and what follows the tag if it does.
fn strip_tag<'a>(input: &'a str, tag: &str) -> (r: Option<&'a str>)
    ensures
        r is Some <==> has_tag(input@, tag@),
        r matches Some(rest) ==> rest@ == behind_tag(input@, tag@),
{
    let length = input.unicode_len();
    let width = tag.unicode_len();
    if length >= width && str_eq(input.substring_char(0, width), tag) {
        Some(input.substring_char(width, length))
    } else {
        None
    }
}

impl Clone for Extension {
    fn clone(&self) -> (r: Extension)
        ensures
            r@ == self@,
    {
        match self {
            Extension::Builtin(builtin) => Extension::Builtin(builtin.clone()),
            Extension::Pecl(pecl) => Extension::Pecl(pecl.clone()),
        }
    }
}

impl Extension {
    /// The system packages that the extension needs, if any, by the names that
    /// the package manager knows them under.
    pub fn packages(&self) -> (r: Option<&Vec<String>>)
        ensures
            r.deep_view() == self@.packages(),
    {
        match self {
            Extension::Builtin(builtin) => builtin.packages(),
            Extension::Pecl(pecl) => pecl.packages(),
        }
    }

    /// Whether the extension needs any system package: false exactly when it
    /// has no package list or an empty one.
    pub fn has_packages(&self) -> (r: bool)
        ensures
            r == (self@.packages() matches Some(list) && list.len() > 0),
            !r <==> (self@.packages() is None || self@.packages() == Some(
                Seq::<Seq<char>>::empty(),
            )),
    {
        match self.packages() {
            None => false,
            Some(packages) => {
                assert(packages.deep_view().len() == packages.len());
                assert(packages.len() == 0 ==> packages.deep_view() =~= Seq::<Seq<char>>::empty());
                packages.len() > 0
            },
        }
    }

    /// The extension is well formed.
    pub open spec fn well_formed(&self) -> bool {
        match self {
            Extension::Builtin(builtin) => builtin.well_formed(),
            Extension::Pecl(pecl) => pecl.well_formed(),
        }
    }

    /// Reads a specifier.
    ///
    /// The input has to start with `builtin:` or `pecl:`, else it is refused
    /// with [`ParseError::ExpectedPrefix`]. Behind `builtin:` stands a name and
    /// nothing else; behind `pecl:` a name, or a name, `@` and a version.
    /// Anything else behind the prefix, leftover input included, is refused
    /// with [`ParseError::InvalidSyntax`]. The extension's data comes from the
    /// built-in table or from the environment `vars`.
    pub fn from_str(input: &str, vars: &Vec<(String, String)>) -> (r: Result<Extension, ParseError>)
        ensures
            r is Ok <==> accepts(input@),
            r matches Err(e) ==> e == refusal(input@),
            r matches Ok(extension) ==> extension.well_formed(),
            r matches Ok(Extension::Builtin(builtin)) ==> {
                &&& has_tag(input@, builtin_tag())
                &&& builtin@ == (BuiltinView {
                    name: behind_tag(input@, builtin_tag()),
                    data: builtin_data_for(behind_tag(input@, builtin_tag()), vars.deep_view()),
                })
            },
            r matches Ok(Extension::Pecl(pecl)) ==> {
                let rest = behind_tag(input@, pecl_tag());
                &&& !has_tag(input@, builtin_tag())
                &&& has_tag(input@, pecl_tag())
                &&& is_name(rest) ==> pecl@.name == rest && pecl@.version == VersionView::Stable
                &&& forall|i: int| #[trigger]
                    pecl_split(rest, i) ==> pecl@.name == rest.take(i) && pecl@.version
                        == version_of(rest.skip(i + 1))
                &&& pecl@.data == pecl_data_for(pecl@.name, vars.deep_view())
            },
    {
        match strip_tag(input, "builtin:") {
            Some(rest) => match Builtin::from_str(rest, vars) {
                Ok(builtin) => Ok(Extension::Builtin(builtin)),
                Err(e) => Err(e),
            },
            None => match strip_tag(input, "pecl:") {
                Some(rest) => match Pecl::from_str(rest, vars) {
                    Ok(pecl) => Ok(Extension::Pecl(pecl)),
                    Err(e) => Err(e),
                },
                None => Err(ParseError::ExpectedPrefix),
            },
        }
    }
}

} // verus!
