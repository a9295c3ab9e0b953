//! The errors that parsing a specifier can end in.

use vstd::prelude::*;
use vstd::string::*;

verus! {

/// Why a specifier was rejected.
#[derive(Clone, Copy, Debug, PartialEq, Eq, Structural)]
pub enum ParseError {
    /// The input starts with neither `builtin:` nor `pecl:`, the two prefixes
    /// that say how the extension is to be installed.
    ExpectedPrefix,
    /// The name or the version breaks its grammar, or input is left over after
    /// an otherwise valid specifier.
    InvalidSyntax,
}

impl ParseError {
    /// The text shown to the user for this error.
    pub open spec fn message_text(self) -> Seq<char> {
        match self {
            ParseError::ExpectedPrefix =>
                "An extension name needs to begin with a prefix of either \"builtin:\" or \"pecl:\""@,
            ParseError::InvalidSyntax =>
                "An extension name needs to be a valid name (e.g., memcached, pdo_mysql, gd)"@,
        }
    }

    /// Renders the error for the user.
    pub fn message(&self) -> (r: String)
        ensures
            r@ == self.message_text(),
    {
        match self {
            ParseError::ExpectedPrefix => String::from_str(
                "An extension name needs to begin with a prefix of either \"builtin:\" or \"pecl:\"",
            ),
            ParseError::InvalidSyntax => String::from_str(
                "An extension name needs to be a valid name (e.g., memcached, pdo_mysql, gd)",
            ),
        }
    }
}

} // verus!
