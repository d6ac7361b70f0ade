//! Text building blocks: decimal rendering of integers and the
//! filesystem-safe filename sanitizer.

use vstd::prelude::*;
use vstd::string::StrSliceExecFns;

verus! {

/// Relies on std's String::push: appends the given character to the end of
/// the string.
pub assume_specification[ String::push ](s: &mut String, ch: char)
    ensures
        final(s)@ == old(s)@.push(ch),
;

// ---------------------------------------------------------------------------
// Decimal rendering
// ---------------------------------------------------------------------------

/// The character for one decimal digit.
pub open spec fn spec_digit(d: nat) -> char {
    if d == 0 {
        '0'
    } else if d == 1 {
        '1'
    } else if d == 2 {
        '2'
    } else if d == 3 {
        '3'
    } else if d == 4 {
        '4'
    } else if d == 5 {
        '5'
    } else if d == 6 {
        '6'
    } else if d == 7 {
        '7'
    } else if d == 8 {
        '8'
    } else {
        '9'
    }
}

/// The decimal rendering of a natural number, most significant digit first,
/// with no leading zeros (except for zero itself).
pub open spec fn spec_decimal(n: nat) -> Seq<char>
    decreases n,
{
    if n < 10 {
        seq![spec_digit(n)]
    } else {
        spec_decimal(n / 10).push(spec_digit(n % 10))
    }
}

/// The decimal rendering padded with a leading zero to at least two digits,
/// as Rust's `{:02}` format writes it.
pub open spec fn spec_two_digit(n: nat) -> Seq<char> {
    if n < 10 {
        seq!['0'] + spec_decimal(n)
    } else {
        spec_decimal(n)
    }
}

fn digit_char(d: u64) -> (c: char)
    requires
        d < 10,
    ensures
        c == spec_digit(d as nat),
{
    if d == 0 {
        '0'
    } else if d == 1 {
        '1'
    } else if d == 2 {
        '2'
    } else if d == 3 {
        '3'
    } else if d == 4 {
        '4'
    } else if d == 5 {
        '5'
    } else if d == 6 {
        '6'
    } else if d == 7 {
        '7'
    } else if d == 8 {
        '8'
    } else {
        '9'
    }
}

fn push_decimal(s: &mut String, n: u64)
    ensures
        final(s)@ == old(s)@ + spec_decimal(n as nat),
    decreases n,
{
    if n >= 10 {
        push_decimal(s, n / 10);
    }
    let c = digit_char(n % 10);
    s.push(c);
    proof {
        if n < 10 {
            assert(old(s)@ + spec_decimal(n as nat) =~= old(s)@.push(spec_digit(n as nat)));
        } else {
            assert(old(s)@ + spec_decimal(n as nat) =~= (old(s)@ + spec_decimal(
                (n / 10) as nat,
            )).push(spec_digit((n % 10) as nat)));
        }
    }
}

/// Renders a number in decimal, no padding.
pub fn u64_to_string(n: u64) -> (r: String)
    ensures
        r@ == spec_decimal(n as nat),
{
    let mut s = String::new();
    push_decimal(&mut s, n);
    proof {
        assert(Seq::<char>::empty() + spec_decimal(n as nat) =~= spec_decimal(n as nat));
    }
    s
}

/// Renders a number in decimal, zero-padded to at least two digits.
pub fn two_digit(n: u64) -> (r: String)
    ensures
        r@ == spec_two_digit(n as nat),
{
    let mut s = String::new();
    if n < 10 {
        s.push('0');
    }
    push_decimal(&mut s, n);
    proof {
        if n < 10 {
            assert(Seq::<char>::empty().push('0') =~= seq!['0']);
        } else {
            assert(Seq::<char>::empty() + spec_decimal(n as nat) =~= spec_decimal(n as nat));
        }
    }
    s
}

/// Character-for-character string comparison.
pub fn str_eq(a: &str, b: &str) -> (r: bool)
    ensures
        r == (a@ == b@),
{
    let alen = a.unicode_len();
    let blen = b.unicode_len();
    if alen != blen {
        return false;
    }
    let mut i: usize = 0;
    while i < alen
        invariant
            alen == a@.len(),
            blen == b@.len(),
            alen == blen,
            i <= alen,
            forall|j: int| 0 <= j < i ==> a@[j] == b@[j],
        decreases alen - i,
    {
        let ca = a.get_char(i);
        let cb = b.get_char(i);
        if ca != cb {
            return false;
        }
        i += 1;
    }
    proof {
        assert(a@ =~= b@);
    }
    true
}

// ---------------------------------------------------------------------------
// Filename sanitizing
// ---------------------------------------------------------------------------

/// The default policy substitutes only the path separator, by a
/// division-slash look-alike.
pub open spec fn default_sub(c: char) -> char {
    if c == '/' {
        '\u{2215}'
    } else {
        c
    }
}

/// The strict policy substitutes each character that NTFS-like filesystems
/// forbid by a distinct visually similar character.
pub open spec fn strict_sub(c: char) -> char {
    if c == '/' {
        '\u{2215}'
    } else if c == ':' {
        '\u{02d0}'
    } else if c == '?' {
        '\u{0294}'
    } else if c == '"' {
        '\u{00a8}'
    } else if c == '|' {
        '\u{01c0}'
    } else if c == '*' {
        '\u{04ff}'
    } else {
        c
    }
}

pub open spec fn default_map(s: Seq<char>) -> Seq<char> {
    s.map_values(|c: char| default_sub(c))
}

pub open spec fn strict_map(s: Seq<char>) -> Seq<char> {
    s.map_values(|c: char| strict_sub(c))
}

/// A character the strict policy must remove.
pub open spec fn strict_forbidden(c: char) -> bool {
    c == '/' || c == ':' || c == '?' || c == '"' || c == '|' || c == '*'
}

/// Law: the default policy output never contains a path separator.
pub proof fn lemma_default_map_no_slash(s: Seq<char>)
    ensures
        forall|i: int| 0 <= i < default_map(s).len() ==> default_map(s)[i] != '/',
{
}

/// Law: the strict policy output contains none of the six forbidden
/// characters.
pub proof fn lemma_strict_map_no_forbidden(s: Seq<char>)
    ensures
        forall|i: int| 0 <= i < strict_map(s).len() ==> !strict_forbidden(#[trigger] strict_map(s)[i]),
{
}

/// Relies on aho_corasick::AhoCorasick::new and AhoCorasick::replace_all:
/// built over the six single-character patterns `/ : ? " | *`, replace_all
/// replaces every occurrence of a pattern by the replacement at the same
/// index and keeps every other character; single-character patterns cannot
/// overlap, so the result is exactly the character-for-character
/// substitution `strict_map`.
#[verifier::external_body]
fn strict_replace_all(filename: &str) -> (r: String)
    ensures
        r@ == strict_map(filename@),
{
    let matcher = aho_corasick::AhoCorasick::new(["/", ":", "?", "\"", "|", "*"]).unwrap();
    matcher.replace_all(
        filename,
        &["\u{2215}", "\u{02d0}", "\u{0294}", "\u{00a8}", "\u{01c0}", "\u{04ff}"],
    )
}

fn default_replace(filename: &str) -> (r: String)
    ensures
        r@ == default_map(filename@),
{
    let len = filename.unicode_len();
    let mut out = String::new();
    let mut i: usize = 0;
    while i < len
        invariant
            len == filename@.len(),
            i <= len,
            out@ == default_map(filename@.take(i as int)),
        decreases len - i,
    {
        let c = filename.get_char(i);
        if c == '/' {
            out.push('\u{2215}');
        } else {
            out.push(c);
        }
        proof {
            assert(default_map(filename@.take(i + 1 as int)) =~= default_map(
                filename@.take(i as int),
            ).push(default_sub(filename@[i as int])));
        }
        i += 1;
    }
    proof {
        assert(filename@.take(len as int) =~= filename@);
    }
    out
}

/// The selectable filename sanitizing policy.
pub enum PathSanitizer {
    Standard,
    Ntfs,
}

impl PathSanitizer {
    /// The substitution a policy applies, character for character.
    pub open spec fn spec_map(self, s: Seq<char>) -> Seq<char> {
        match self {
            PathSanitizer::Standard => default_map(s),
            PathSanitizer::Ntfs => strict_map(s),
        }
    }

    /// The default policy: only `/` is substituted.
    pub fn default() -> (r: Self)
        ensures
            r is Standard,
    {
        PathSanitizer::Standard
    }

    /// The strict policy for NTFS-like filesystems: `/ : ? " | *` are all
    /// substituted.
    pub fn ntfs() -> (r: Self)
        ensures
            r is Ntfs,
    {
        PathSanitizer::Ntfs
    }

    /// Maps arbitrary text to a filesystem-safe string under this policy.
    /// Total: never fails, every character outside the policy's forbidden
    /// set passes through unchanged.
    pub fn map(&self, filename: &str) -> (r: String)
        ensures
            r@ == self.spec_map(filename@),
    {
        match self {
            PathSanitizer::Standard => default_replace(filename),
            PathSanitizer::Ntfs => strict_replace_all(filename),
        }
    }
}

} // verus!
