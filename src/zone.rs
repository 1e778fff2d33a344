//! The UTC time zone, by name.
use vstd::prelude::*;

verus! {

/// Whether `c` has the Unicode `White_Space` property, as `char::is_whitespace` checks.
pub open spec fn is_white_space(c: char) -> bool {
    ('\t' <= c <= '\r') || c == ' ' || c == '\u{85}' || c == '\u{A0}' || c == '\u{1680}' || (
    '\u{2000}' <= c <= '\u{200A}') || c == '\u{2028}' || c == '\u{2029}' || c == '\u{202F}' || c
        == '\u{205F}' || c == '\u{3000}'
}

/// `s` without its leading white space.
pub open spec fn trim_start(s: Seq<char>) -> Seq<char>
    decreases s.len(),
{
    if s.len() > 0 && is_white_space(s[0]) {
        trim_start(s.drop_first())
    } else {
        s
    }
}

/// `s` without its trailing white space.
pub open spec fn trim_end(s: Seq<char>) -> Seq<char>
    decreases s.len(),
{
    if s.len() > 0 && is_white_space(s.last()) {
        trim_end(s.drop_last())
    } else {
        s
    }
}

/// `s` without leading and trailing white space, as `str::trim` gives it.
pub open spec fn trim(s: Seq<char>) -> Seq<char> {
    trim_end(trim_start(s))
}

/// The names under which the UTC zone is known.
pub open spec fn names_utc(s: Seq<char>) -> bool {
    s == "UTC"@ || s == "Utc"@ || s == "utc"@
}

fn is_white_space_char(c: char) -> (r: bool)
    ensures
        r == is_white_space(c),
{
    ('\t' <= c && c <= '\r') || c == ' ' || c == '\u{85}' || c == '\u{A0}' || c == '\u{1680}' || (
    '\u{2000}' <= c && c <= '\u{200A}') || c == '\u{2028}' || c == '\u{2029}' || c == '\u{202F}'
        || c == '\u{205F}' || c == '\u{3000}'
}

/// Removes leading and trailing white space.
pub fn trimmed(s: &str) -> (r: &str)
    ensures
        r@ == trim(s@),
{
    let n = s.unicode_len();
    let mut i: usize = 0;
    assert(s@.skip(0) =~= s@);
    while i < n && is_white_space_char(s.get_char(i))
        invariant
            n == s@.len(),
            i <= n,
            trim_start(s@) == trim_start(s@.skip(i as int)),
        decreases n - i,
    {
        assert(s@.skip(i as int).drop_first() =~= s@.skip(i + 1));
        i = i + 1;
    }
    let ghost t = s@.skip(i as int);
    assert(trim_start(t) == t);
    let mut j: usize = n;
    assert(s@.subrange(i as int, n as int) =~= t);
    while j > i && is_white_space_char(s.get_char(j - 1))
        invariant
            n == s@.len(),
            i <= j <= n,
            t == s@.skip(i as int),
            trim_end(t) == trim_end(s@.subrange(i as int, j as int)),
        decreases j,
    {
        assert(s@.subrange(i as int, j as int).drop_last() =~= s@.subrange(i as int, j - 1));
        j = j - 1;
    }
    s.substring_char(i, j)
}

fn is_utc_name(s: &str) -> (r: bool)
    ensures
        r == names_utc(s@),
{
    proof {
        reveal_strlit("UTC");
        reveal_strlit("Utc");
        reveal_strlit("utc");
    }
    if s.unicode_len() != 3 {
        return false;
    }
    let a = s.get_char(0);
    let b = s.get_char(1);
    let c = s.get_char(2);
    let r = (a == 'U' && b == 'T' && c == 'C') || (a == 'U' && b == 't' && c == 'c') || (a == 'u'
        && b == 't' && c == 'c');
    assert(r ==> names_utc(s@)) by {
        if a == 'U' && b == 'T' && c == 'C' {
            assert(s@ =~= "UTC"@);
        } else if a == 'U' && b == 't' && c == 'c' {
            assert(s@ =~= "Utc"@);
        } else if r {
            assert(s@ =~= "utc"@);
        }
    }
    r
}

/// The UTC time zone.
#[derive(Copy, Clone, Debug)]
pub struct Tz;

impl Tz {
    /// The zone's label.
    pub fn name(&self) -> (r: &'static str)
        ensures
            r@ == "UTC"@,
    {
        "UTC"
    }

    /// Parses a zone name, ignoring surrounding white space: `UTC`, `Utc`
    /// or `utc`; anything else is refused with a message naming it.
    pub fn parse(s: &str) -> (r: Result<Tz, String>)
        ensures
            r is Ok <==> names_utc(trim(s@)),
            r matches Err(m) ==> m@ == "'"@ + trim(s@) + "' is not a valid timezone"@,
    {
        let t = trimmed(s);
        if is_utc_name(t) {
            Ok(Tz)
        } else {
            let mut m = String::from_str("'");
            m.append(t);
            m.append("' is not a valid timezone");
            Err(m)
        }
    }
}

impl core::str::FromStr for Tz {
    type Err = String;

    fn from_str(s: &str) -> Result<Self, Self::Err> {
        Tz::parse(s)
    }
}

} // verus!
