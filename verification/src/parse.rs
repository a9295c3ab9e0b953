//! The grammar of extension names.
//!
//! A name is a list of segments joined by single underscores. Each segment
//! starts with an ASCII letter and goes on with ASCII letters and digits:
//! `gd`, `pdo_mysql`, `example_foo`. Neither `docker-php-ext-install` nor
//! `pecl install` knows a name like `foo__bar`, so empty segments are refused.

use vstd::prelude::*;
use vstd::string::*;
use crate::error::ParseError;
use crate::text::{char_is_alnum, char_is_alpha, is_alnum, is_alpha, to_chars};

verus! {

/// `c` may occur in a name.
pub open spec fn is_name_char(c: char) -> bool {
    is_alnum(c) || c == '_'
}

/// An underscore at position `i` of `s` is followed by a letter.
pub open spec fn underscore_joins(s: Seq<char>, i: int) -> bool {
    s[i] == '_' ==> i + 1 < s.len() && is_alpha(s[i + 1])
}

/// `s` is a name: it is not empty, starts with a letter, holds only letters,
/// digits and underscores, and each underscore is followed by a letter.
pub open spec fn is_name(s: Seq<char>) -> bool {
    &&& s.len() > 0
    &&& is_alpha(s[0])
    &&& forall|i: int| 0 <= i < s.len() ==> is_name_char(#[trigger] s[i])
    &&& forall|i: int| 0 <= i < s.len() ==> #[trigger] underscore_joins(s, i)
}

/// The first `n` characters of `s` are a name, and no longer prefix of `s` is.
pub open spec fn is_longest_name_prefix(s: Seq<char>, n: int) -> bool {
    &&& 0 < n <= s.len()
    &&& is_name(s.take(n))
    &&& forall|k: int| n < k <= s.len() ==> !is_name(#[trigger] s.take(k))
}

/// A name stays a name when a letter or digit is appended.
proof fn lemma_name_push_alnum(s: Seq<char>, i: int)
    requires
        0 < i < s.len(),
        is_name(s.take(i)),
        is_alnum(s[i]),
    ensures
        is_name(s.take(i + 1)),
{
    let a = s.take(i);
    let b = s.take(i + 1);
    assert(b[0] == a[0]);
    assert forall|j: int| 0 <= j < b.len() implies is_name_char(#[trigger] b[j]) by {
        if j < i {
            assert(is_name_char(a[j]));
        }
    }
    assert forall|j: int| 0 <= j < b.len() implies #[trigger] underscore_joins(b, j) by {
        if j < i {
            assert(underscore_joins(a, j));
        }
    }
}

/// A name stays a name when an underscore and a letter are appended.
proof fn lemma_name_push_segment(s: Seq<char>, i: int)
    requires
        0 < i,
        i + 1 < s.len(),
        is_name(s.take(i)),
        s[i] == '_',
        is_alpha(s[i + 1]),
    ensures
        is_name(s.take(i + 2)),
{
    let a = s.take(i);
    let b = s.take(i + 2);
    assert(b[0] == a[0]);
    assert forall|j: int| 0 <= j < b.len() implies is_name_char(#[trigger] b[j]) by {
        if j < i {
            assert(is_name_char(a[j]));
        }
    }
    assert forall|j: int| 0 <= j < b.len() implies #[trigger] underscore_joins(b, j) by {
        if j < i {
            assert(underscore_joins(a, j));
        }
    }
}

/// No name reaches past a character that cannot continue it.
proof fn lemma_name_stops(s: Seq<char>, i: int)
    requires
        0 <= i < s.len(),
        !is_alnum(s[i]),
        !(s[i] == '_' && i + 1 < s.len() && is_alpha(s[i + 1])),
    ensures
        forall|k: int| i < k <= s.len() ==> !is_name(#[trigger] s.take(k)),
{
    assert forall|k: int| i < k <= s.len() implies !is_name(#[trigger] s.take(k)) by {
        let p = s.take(k);
        if is_name(p) {
            assert(is_name_char(p[i]));
            assert(underscore_joins(p, i));
            assert(p[i] == '_');
            assert(p[i + 1] == s[i + 1]);
        }
    }
}

/// Nothing that is empty or starts with anything but a letter is a name, and
/// neither is any of its prefixes.
pub proof fn lemma_name_starts_with_letter(s: Seq<char>)
    requires
        s.len() == 0 || !is_alpha(s[0]),
    ensures
        !is_name(s),
        forall|n: int| 0 <= n <= s.len() ==> !is_name(#[trigger] s.take(n)),
{
    assert forall|n: int| 0 <= n <= s.len() implies !is_name(#[trigger] s.take(n)) by {
        if n > 0 {
            assert(s.take(n)[0] == s[0]);
        }
    }
}

/// A whole name is its own longest name prefix.
pub proof fn lemma_name_is_own_prefix(s: Seq<char>)
    requires
        is_name(s),
    ensures
        is_longest_name_prefix(s, s.len() as int),
{
    assert(s.take(s.len() as int) =~= s);
}

/// The longest name prefix of a string is unique.
pub proof fn lemma_longest_name_prefix_unique(s: Seq<char>, n: int, m: int)
    requires
        is_longest_name_prefix(s, n),
        is_longest_name_prefix(s, m),
    ensures
        n == m,
{
    if n < m {
        assert(!is_name(s.take(m)));
    } else if m < n {
        assert(!is_name(s.take(n)));
    }
}

/// Reads a name from the front of `input`.
///
/// Takes the longest prefix of `input` that is a name and returns what is left
/// of the input together with that prefix. Fails with
/// [`ParseError::InvalidSyntax`] exactly when `input` does not start with a
/// letter.
pub fn name(input: &str) -> (r: Result<(&str, &str), ParseError>)
    ensures
        r is Ok <==> input@.len() > 0 && is_alpha(input@[0]),
        r matches Ok((rest, matched)) ==> {
            &&& is_longest_name_prefix(input@, matched@.len() as int)
            &&& matched@ == input@.take(matched@.len() as int)
            &&& rest@ == input@.skip(matched@.len() as int)
        },
        r matches Err(e) ==> e == ParseError::InvalidSyntax,
{
    let chars = to_chars(input);
    let n = chars.len();
    if n == 0 || !char_is_alpha(chars[0]) {
        return Err(ParseError::InvalidSyntax);
    }
    let mut i: usize = 1;
    let mut scanning: bool = true;
    proof {
        let p = chars@.take(1);
        assert forall|j: int| 0 <= j < p.len() implies #[trigger] underscore_joins(p, j) by {}
    }
    while scanning && i < n
        invariant
            0 < i <= n,
            n == chars@.len(),
            is_name(chars@.take(i as int)),
            !scanning ==> forall|k: int| i < k <= n ==> !is_name(#[trigger] chars@.take(k)),
        decreases (n - i) + (if scanning { 1int } else { 0int }),
    {
        let c = chars[i];
        if char_is_alnum(c) {
            proof {
                lemma_name_push_alnum(chars@, i as int);
            }
            i += 1;
        } else if c == '_' && i + 1 < n && char_is_alpha(chars[i + 1]) {
            proof {
                lemma_name_push_segment(chars@, i as int);
            }
            i += 2;
        } else {
            proof {
                lemma_name_stops(chars@, i as int);
            }
            scanning = false;
        }
    }
    let matched = input.substring_char(0, i);
    let rest = input.substring_char(i, n);
    Ok((rest, matched))
}

/// Accepts the result of a parser only if it has used up its whole input.
///
/// A parser that reads from the front of its input hands back what is left
/// over. This turns leftover input into [`ParseError::InvalidSyntax`], and
/// passes an error of the parser on.
pub fn parse_all<O>(parsed: Result<(&str, O), ParseError>) -> (r: Result<O, ParseError>)
    ensures
        match parsed {
            Ok((rest, value)) => if rest@.len() == 0 {
                r == Ok::<O, ParseError>(value)
            } else {
                r == Err::<O, ParseError>(ParseError::InvalidSyntax)
            },
            Err(e) => r == Err::<O, ParseError>(e),
        },
{
    match parsed {
        Ok((rest, value)) => {
            if rest.unicode_len() == 0 {
                Ok(value)
            } else {
                Err(ParseError::InvalidSyntax)
            }
        },
        Err(e) => Err(e),
    }
}

} // verus!
