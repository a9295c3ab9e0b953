//! The version of a PECL extension: the `stable` channel, or one release
//! given as `MAJOR.MINOR.PATCH`.

use vstd::prelude::*;
use vstd::string::*;
use crate::error::ParseError;
use crate::parse::parse_all;
use crate::text::{char_is_digit, is_digit, str_eq, to_chars};

verus! {

/// The version asked for when a PECL extension is installed.
#[derive(Debug)]
pub enum Version {
    /// The `stable` channel.
    Stable,
    /// One release, as `MAJOR.MINOR.PATCH`.
    Custom(String),
}

/// What a [`Version`] stands for.
pub enum VersionView {
    Stable,
    Custom(Seq<char>),
}

impl View for Version {
    type V = VersionView;

    open spec fn view(&self) -> VersionView {
        match self {
            Version::Stable => VersionView::Stable,
            Version::Custom(number) => VersionView::Custom(number@),
        }
    }
}

/// The word that names the stable channel.
pub open spec fn stable_tag() -> Seq<char> {
    "stable"@
}

/// `s` starts with the word `stable`.
pub open spec fn starts_with_stable(s: Seq<char>) -> bool {
    s.len() >= 6 && s.take(6) == stable_tag()
}

/// `s` has dots at `a` and `b`, digits everywhere else, and at least one digit
/// before, between and after the dots.
pub open spec fn version_dots(s: Seq<char>, a: int, b: int) -> bool {
    &&& 0 < a
    &&& a + 1 < b
    &&& b + 1 < s.len()
    &&& s[a] == '.'
    &&& s[b] == '.'
    &&& forall|i: int| 0 <= i < s.len() && i != a && i != b ==> is_digit(#[trigger] s[i])
}

/// `s` is a release number: three runs of digits joined by dots.
pub open spec fn is_version(s: Seq<char>) -> bool {
    exists|a: int, b: int| version_dots(s, a, b)
}

/// The first `n` characters of `s` are a release number, and no longer prefix
/// of `s` is.
pub open spec fn is_longest_version_prefix(s: Seq<char>, n: int) -> bool {
    &&& 0 <= n <= s.len()
    &&& is_version(s.take(n))
    &&& forall|k: int| n < k <= s.len() ==> !is_version(#[trigger] s.take(k))
}

/// Some prefix of `s` is a release number.
pub open spec fn has_version_prefix(s: Seq<char>) -> bool {
    exists|n: int| 0 <= n <= s.len() && is_version(#[trigger] s.take(n))
}

/// The characters of `s` from `from` up to `end` are digits, and the run of
/// digits ends at `end`.
pub open spec fn digit_run(s: Seq<char>, from: int, end: int) -> bool {
    &&& 0 <= from <= end <= s.len()
    &&& forall|i: int| from <= i < end ==> is_digit(#[trigger] s[i])
    &&& end < s.len() ==> !is_digit(s[end])
}

impl VersionView {
    /// The text that `pecl install` takes for this version: `stable`, or the
    /// release number.
    pub open spec fn text(self) -> Seq<char> {
        match self {
            VersionView::Stable => stable_tag(),
            VersionView::Custom(number) => number,
        }
    }
}

impl Version {
    /// A custom version holds a release number.
    pub open spec fn well_formed(self) -> bool {
        match self {
            Version::Stable => true,
            Version::Custom(number) => is_version(number@),
        }
    }
}

/// Finds where the run of digits that starts at `from` ends.
fn digits_end(chars: &Vec<char>, from: usize) -> (end: usize)
    requires
        from <= chars@.len(),
    ensures
        digit_run(chars@, from as int, end as int),
{
    let mut i = from;
    while i < chars.len() && char_is_digit(chars[i])
        invariant
            from <= i <= chars@.len(),
            forall|j: int| from <= j < i ==> is_digit(#[trigger] chars@[j]),
        decreases chars@.len() - i,
    {
        i += 1;
    }
    i
}

/// In a release number that is a prefix of `s`, the first dot stands where the
/// first run of digits of `s` ends.
proof fn lemma_first_dot(s: Seq<char>, k: int, a: int, b: int, end: int)
    requires
        0 <= k <= s.len(),
        version_dots(s.take(k), a, b),
        digit_run(s, 0, end),
    ensures
        a == end,
{
    let p = s.take(k);
    if a < end {
        assert(is_digit(s[a]));
        assert(p[a] == s[a]);
    } else if end < a {
        assert(is_digit(p[end]));
    }
}

/// In a release number that is a prefix of `s`, the second dot stands where
/// the run of digits after the first dot ends.
proof fn lemma_second_dot(s: Seq<char>, k: int, a: int, b: int, end: int)
    requires
        0 <= k <= s.len(),
        version_dots(s.take(k), a, b),
        digit_run(s, a + 1, end),
    ensures
        b == end,
{
    let p = s.take(k);
    if b < end {
        assert(is_digit(s[b]));
        assert(p[b] == s[b]);
    } else if end < b {
        assert(is_digit(p[end]));
    }
}

/// A release number that is a prefix of `s` ends no later than the run of
/// digits after its second dot.
proof fn lemma_version_end(s: Seq<char>, k: int, a: int, b: int, end: int)
    requires
        0 <= k <= s.len(),
        version_dots(s.take(k), a, b),
        digit_run(s, b + 1, end),
    ensures
        b + 1 < end,
        k <= end,
{
    let p = s.take(k);
    assert(is_digit(p[b + 1]));
    if end < k {
        assert(is_digit(p[end]));
    }
}

/// The three digit runs of `s`, as far as they are joined by dots, decide
/// whether `s` has a release number at its front, and how long it is.
proof fn lemma_version_prefix(s: Seq<char>, a: int, b: int, n: int)
    requires
        digit_run(s, 0, a),
        a < s.len() && s[a] == '.' ==> digit_run(s, a + 1, b),
        a < s.len() && s[a] == '.' && b < s.len() && s[b] == '.' ==> digit_run(s, b + 1, n),
    ensures
        ({
            &&& 0 < a < s.len()
            &&& s[a] == '.'
            &&& a + 1 < b < s.len()
            &&& s[b] == '.'
            &&& b + 1 < n
        }) ==> is_longest_version_prefix(s, n),
        !({
            &&& 0 < a < s.len()
            &&& s[a] == '.'
            &&& a + 1 < b < s.len()
            &&& s[b] == '.'
            &&& b + 1 < n
        }) ==> !has_version_prefix(s),
{
    let found = {
        &&& 0 < a < s.len()
        &&& s[a] == '.'
        &&& a + 1 < b < s.len()
        &&& s[b] == '.'
        &&& b + 1 < n
    };
    assert forall|k: int, x: int, y: int| 0 <= k <= s.len() && version_dots(s.take(k), x, y)
        implies found && k <= n by {
        lemma_first_dot(s, k, x, y, a);
        assert(s.take(k)[x] == s[x]);
        lemma_second_dot(s, k, x, y, b);
        assert(s.take(k)[y] == s[y]);
        lemma_version_end(s, k, x, y, n);
    }
    if found {
        assert(version_dots(s.take(n), a, b));
        assert forall|k: int| n < k <= s.len() implies !is_version(#[trigger] s.take(k)) by {
            if is_version(s.take(k)) {
                let (x, y) = choose|x: int, y: int| version_dots(s.take(k), x, y);
                assert(version_dots(s.take(k), x, y));
            }
        }
    } else {
        assert forall|k: int| 0 <= k <= s.len() implies !is_version(#[trigger] s.take(k)) by {
            if is_version(s.take(k)) {
                let (x, y) = choose|x: int, y: int| version_dots(s.take(k), x, y);
                assert(version_dots(s.take(k), x, y));
            }
        }
    }
}

/// A release number does not start with the word `stable`.
pub proof fn lemma_version_is_not_stable(s: Seq<char>)
    requires
        is_version(s),
    ensures
        !starts_with_stable(s),
{
    reveal_strlit("stable");
    let (a, b) = choose|a: int, b: int| version_dots(s, a, b);
    assert(is_digit(s[0]));
    if starts_with_stable(s) {
        assert(s.take(6)[0] == s[0]);
    }
}

impl Version {
    /// Reads a version from the front of `input`.
    ///
    /// The word `stable` gives [`Version::Stable`]. Otherwise the longest
    /// release number at the front of `input` gives [`Version::Custom`].
    /// What is left of the input is handed back with the version. Fails with
    /// [`ParseError::InvalidSyntax`] when `input` starts with neither.
    pub fn parse(input: &str) -> (r: Result<(&str, Version), ParseError>)
        ensures
            r is Ok <==> starts_with_stable(input@) || has_version_prefix(input@),
            r matches Ok((rest, version)) ==> version.well_formed() && match version@ {
                VersionView::Stable => starts_with_stable(input@) && rest@ == input@.skip(6),
                VersionView::Custom(number) => {
                    &&& !starts_with_stable(input@)
                    &&& is_longest_version_prefix(input@, number.len() as int)
                    &&& number == input@.take(number.len() as int)
                    &&& rest@ == input@.skip(number.len() as int)
                },
            },
            r matches Err(e) ==> e == ParseError::InvalidSyntax,
    {
        let chars = to_chars(input);
        let len = chars.len();
        if len >= 6 && str_eq(input.substring_char(0, 6), "stable") {
            return Ok((input.substring_char(6, len), Version::Stable));
        }
        let a = digits_end(&chars, 0);
        let mut b: usize = 0;
        let mut n: usize = 0;
        if a < len && chars[a] == '.' {
            b = digits_end(&chars, a + 1);
            if b < len && chars[b] == '.' {
                n = digits_end(&chars, b + 1);
            }
        }
        proof {
            lemma_version_prefix(chars@, a as int, b as int, n as int);
        }
        let found = 0 < a && a < len && chars[a] == '.' && a + 1 < b && b < len && chars[b] == '.'
            && b + 1 < n;
        if found {
            let number = input.substring_char(0, n);
            Ok((input.substring_char(n, len), Version::Custom(number.to_owned())))
        } else {
            Err(ParseError::InvalidSyntax)
        }
    }

    /// Reads a version that is all of `input`: the word `stable`, or a release
    /// number. Anything else is [`ParseError::InvalidSyntax`].
    pub fn from_str(input: &str) -> (r: Result<Version, ParseError>)
        ensures
            input@ == stable_tag() ==> (r matches Ok(version) && version@ == VersionView::Stable),
            is_version(input@) ==> (r matches Ok(version) && version@ == VersionView::Custom(
                input@,
            )),
            !(input@ == stable_tag()) && !is_version(input@) ==> r == Err::<Version, ParseError>(
                ParseError::InvalidSyntax,
            ),
            r matches Ok(version) ==> version.well_formed(),
    {
        let parsed = Version::parse(input);
        proof {
            let s = input@;
            reveal_strlit("stable");
            if s == stable_tag() {
                assert(s.take(6) =~= s);
                assert(s.skip(6).len() == 0);
            }
            if is_version(s) {
                lemma_version_is_not_stable(s);
                assert(s.take(s.len() as int) =~= s);
                assert(has_version_prefix(s));
            }
            if parsed is Ok {
                if parsed->Ok_0.0@.len() == 0 {
                    if starts_with_stable(s) {
                        assert(s.take(6) =~= s);
                    } else {
                        assert(s.take(s.len() as int) =~= s);
                    }
                } else {
                    if starts_with_stable(s) {
                        assert(s != stable_tag());
                        if is_version(s) {
                            lemma_version_is_not_stable(s);
                        }
                    } else {
                        assert(s.take(s.len() as int) =~= s);
                    }
                }
            }
        }
        parse_all(parsed)
    }

    /// The text that `pecl install` takes for this version: `stable`, or the
    /// release number.
    pub fn to_string(&self) -> (r: String)
        ensures
            r@ == self@.text(),
    {
        match self {
            Version::Stable => String::from_str("stable"),
            Version::Custom(number) => number.clone(),
        }
    }
}

impl Clone for Version {
    fn clone(&self) -> (r: Version)
        ensures
            r@ == self@,
    {
        match self {
            Version::Stable => Version::Stable,
            Version::Custom(number) => Version::Custom(number.clone()),
        }
    }
}

impl Default for Version {
    /// The stable channel.
    fn default() -> (r: Version)
        ensures
            r@ == VersionView::Stable,
    {
        Version::Stable
    }
}

} // verus!
