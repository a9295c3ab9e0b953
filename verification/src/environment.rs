//! Extension metadata given through the process environment.
//!
//! An extension that the built-in tables do not know can be described by
//! variables named `F1_<KIND>_<NAME>_<FIELD>`, where `<KIND>` is `BUILTIN` or
//! `PECL`, `<NAME>` is the extension's name in upper case and `<FIELD>` is
//! `PACKAGES`, `CONFIGURE_CMD` or `DISABLED`. The value of a variable is a list
//! whose items are separated by commas: `F1_BUILTIN_FFI_PACKAGES=libffi-dev,gcc`.
//! Nothing is trimmed, and an empty value is the empty list.
//!
//! The caller reads the environment and hands it over as pairs of a variable's
//! name and value. The `envy` crate picks the variables of one extension and
//! splits their values.

use std::collections::BTreeMap;
use vstd::prelude::*;
use vstd::string::*;
use crate::text::{ascii_uppercase, clone_strings, str_eq, upper_seq};

verus! {

/// The environment as the model sees it: pairs of a variable's name and value.
pub type VarsView = Seq<(Seq<char>, Seq<char>)>;

/// Decoded fields as the model sees them: pairs of a field's name and its
/// list of items.
pub type FieldsView = Seq<(Seq<char>, Seq<Seq<char>>)>;

/// What `envy` decodes from the variables `vars` whose names start with
/// `prefix`: for each such variable its name, without the prefix and in lower
/// case, and its value split at commas. `None` when `envy` reports an error.
pub uninterp spec fn envy_lists(prefix: Seq<char>, vars: VarsView) -> Option<FieldsView>;

/// Decodes the variables whose names start with `prefix` through
/// `envy::Prefixed::from_iter`, into a map from field name to list.
///
/// Nothing is claimed of the outcome but that it is the one `envy` gives for
/// these arguments, which [`envy_lists`] names. `envy` keeps the variables
/// whose names start with the prefix, strips the prefix from the front of
/// each name as often as it stands there, turns the name to lower case and
/// splits the value at its commas; an empty value gives an empty list. The
/// fields come out of the map ordered by name, each name once.
#[verifier::external_body]
fn prefixed_lists(prefix: &str, vars: &Vec<(String, String)>) -> (r: Option<
    Vec<(String, Vec<String>)>,
>)
    ensures
        r.deep_view() == envy_lists(prefix@, vars.deep_view()),
{
    envy::prefixed(prefix)
        .from_iter::<_, BTreeMap<String, Vec<String>>>(vars.clone())
        .ok()
        .map(|fields| fields.into_iter().collect())
}

/// The kind of extension that a variable speaks of.
#[derive(Clone, Copy, Debug, PartialEq, Eq, Structural)]
pub enum Kind {
    Builtin,
    Pecl,
}

impl Kind {
    /// The kind as it is written in a variable's name.
    pub open spec fn tag(self) -> Seq<char> {
        match self {
            Kind::Builtin => "BUILTIN"@,
            Kind::Pecl => "PECL"@,
        }
    }
}

/// The start of the names of the variables that describe the extension `name`
/// of kind `kind`: `F1_<KIND>_<NAME>_`.
pub open spec fn var_prefix(kind: Kind, name: Seq<char>) -> Seq<char> {
    "F1_"@ + kind.tag() + "_"@ + upper_seq(name) + "_"@
}

/// Builds the prefix of the variables that describe one extension.
pub fn make_var_prefix(kind: Kind, name: &str) -> (r: String)
    ensures
        r@ == var_prefix(kind, name@),
{
    let mut r = String::from_str("F1_");
    match kind {
        Kind::Builtin => r.append("BUILTIN"),
        Kind::Pecl => r.append("PECL"),
    }
    r.append("_");
    let upper = ascii_uppercase(name);
    r.append(upper.as_str());
    r.append("_");
    r
}

/// The list of the first field of `fields` that is named `key`.
pub open spec fn field(fields: FieldsView, key: Seq<char>) -> Option<Seq<Seq<char>>>
    decreases fields.len(),
{
    if fields.len() == 0 {
        None
    } else if fields[0].0 == key {
        Some(fields[0].1)
    } else {
        field(fields.drop_first(), key)
    }
}

/// Looks a field up by its name.
pub fn find_field(fields: &Vec<(String, Vec<String>)>, key: &str) -> (r: Option<Vec<String>>)
    ensures
        r.deep_view() == field(fields.deep_view(), key@),
{
    let ghost all = fields.deep_view();
    let mut i: usize = 0;
    assert(all.skip(0) =~= all);
    while i < fields.len()
        invariant
            i <= fields.len(),
            all == fields.deep_view(),
            field(all, key@) == field(all.skip(i as int), key@),
        decreases fields.len() - i,
    {
        proof {
            let rest = all.skip(i as int);
            assert(rest[0] == all[i as int]);
            assert(rest.drop_first() =~= all.skip(i + 1));
            assert(all[i as int] == fields@[i as int].deep_view());
        }
        if str_eq(fields[i].0.as_str(), key) {
            let list = clone_strings(&fields[i].1);
            return Some(list);
        }
        i += 1;
    }
    None
}

/// Decodes the variables that describe the extension `name` of kind `kind`.
///
/// Gives the fields that `envy` finds under the prefix `F1_<KIND>_<NAME>_`,
/// or `None` when `envy` reports an error.
pub fn decode_vars(kind: Kind, name: &str, vars: &Vec<(String, String)>) -> (r: Option<
    Vec<(String, Vec<String>)>,
>)
    ensures
        r.deep_view() == envy_lists(var_prefix(kind, name@), vars.deep_view()),
{
    let prefix = make_var_prefix(kind, name);
    prefixed_lists(prefix.as_str(), vars)
}

} // verus!
