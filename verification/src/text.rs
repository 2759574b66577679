//! Character-sequence helpers shared by the action constructors and encoders.
use vstd::prelude::*;
use vstd::std_specs::iter::IteratorSpec;

verus! {

/// ASCII lowercasing of a single character; other characters are unchanged.
pub open spec fn ascii_lower_char(c: char) -> char {
    if 'A' <= c && c <= 'Z' {
        ((c as u32) + 32) as char
    } else {
        c
    }
}

/// ASCII uppercasing of a single character; other characters are unchanged.
pub open spec fn ascii_upper_char(c: char) -> char {
    if 'a' <= c && c <= 'z' {
        ((c as u32) - 32) as char
    } else {
        c
    }
}

pub open spec fn ascii_lower(s: Seq<char>) -> Seq<char> {
    s.map_values(|c: char| ascii_lower_char(c))
}

pub open spec fn ascii_upper(s: Seq<char>) -> Seq<char> {
    s.map_values(|c: char| ascii_upper_char(c))
}

pub open spec fn all_ascii(s: Seq<char>) -> bool {
    forall|i: int| 0 <= i < s.len() ==> (s[i] as u32) < 128
}

/// The Unicode lowercase mapping of a string, as computed by `str::to_lowercase`.
pub uninterp spec fn unicode_lowercase(s: Seq<char>) -> Seq<char>;

/// The Unicode uppercase mapping of a string, as computed by `str::to_uppercase`.
pub uninterp spec fn unicode_uppercase(s: Seq<char>) -> Seq<char>;

/// Calls `str::to_lowercase`. Claimed: the result is the Unicode lowercase mapping of the
/// input (named, not spelled out), and on ASCII input it lowercases exactly the letters A-Z.
#[verifier::external_body]
pub(crate) fn to_lowercase(s: &str) -> (r: String)
    ensures
        r@ == unicode_lowercase(s@),
        all_ascii(s@) ==> r@ == ascii_lower(s@),
{
    s.to_lowercase()
}

/// Calls `str::to_uppercase`. Claimed: the result is the Unicode uppercase mapping of the
/// input (named, not spelled out), and on ASCII input it uppercases exactly the letters a-z.
#[verifier::external_body]
pub(crate) fn to_uppercase(s: &str) -> (r: String)
    ensures
        r@ == unicode_uppercase(s@),
        all_ascii(s@) ==> r@ == ascii_upper(s@),
{
    s.to_uppercase()
}

/// Calls `String::push`. Claimed: the character is appended.
#[verifier::external_body]
pub(crate) fn push_char(s: &mut String, c: char)
    ensures
        final(s)@ == old(s)@.push(c),
{
    s.push(c)
}

/// The lowercase form of a string as `str::to_lowercase` gives it: ASCII lowercasing when
/// every character is ASCII, the Unicode mapping otherwise.
pub open spec fn lowercase_text(s: Seq<char>) -> Seq<char> {
    if all_ascii(s) {
        ascii_lower(s)
    } else {
        unicode_lowercase(s)
    }
}

/// The uppercase form of a string as `str::to_uppercase` gives it: ASCII uppercasing when
/// every character is ASCII, the Unicode mapping otherwise.
pub open spec fn uppercase_text(s: Seq<char>) -> Seq<char> {
    if all_ascii(s) {
        ascii_upper(s)
    } else {
        unicode_uppercase(s)
    }
}

/// `"<lowercased dex>:<uppercased coin>"`, the coin naming used by perp deploy actions.
pub open spec fn dex_coin_spec(dex: Seq<char>, coin: Seq<char>) -> Seq<char> {
    lowercase_text(dex) + seq![':'] + uppercase_text(coin)
}

/// Formats a coin identifier as `"<dex>:<COIN>"` with the dex lowercased and the coin
/// uppercased.
pub fn dex_coin(dex: &str, coin: &str) -> (r: String)
    ensures
        r@ == dex_coin_spec(dex@, coin@),
{
    let mut r = to_lowercase(dex);
    push_char(&mut r, ':');
    let up = to_uppercase(coin);
    r.append(up.as_str());
    r
}

/// The characters of a string.
pub fn chars_of(s: &str) -> (v: Vec<char>)
    ensures
        v@ == s@,
{
    broadcast use vstd::string::axiom_spec_iter, vstd::string::next_postcondition;
    let mut v: Vec<char> = Vec::new();
    let mut it = s.chars();
    loop
        invariant
            v@.len() <= s@.len(),
            v@ == s@.take(v@.len() as int),
            IteratorSpec::remaining(&it) == s@.skip(v@.len() as int),
        decreases s@.len() - v@.len(),
    {
        match it.next() {
            Some(c) => {
                proof {
                    assert(s@.skip(v@.len() as int).len() > 0);
                    assert(s@.take(v@.len() as int + 1) =~= v@.push(c));
                    assert(s@.skip(v@.len() as int + 1) =~= s@.skip(v@.len() as int).drop_first());
                }
                v.push(c);
            },
            None => {
                proof {
                    assert(v@ =~= s@);
                }
                return v;
            },
        }
    }
}

} // verus!
