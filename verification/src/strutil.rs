//! Small string utilities the handlers build on: exact string equality,
//! decimal rendering and parsing, ASCII case-insensitive matching of the
//! `bearer` token type, and last-wins lookup in a list of query pairs.
use vstd::prelude::*;
use vstd::string::StrSliceExecFns;
use vstd::string::StringExecFns;

verus! {

/// The decimal digit characters, by value.
pub open spec fn digit_char(d: nat) -> char {
    if d == 0 {
        '0'
    } else if d == 1 {
        '1'
    } else if d == 2 {
        '2'
    } else if d == 3 {
        '3'
    } else if d == 4 {
        '4'
    } else if d == 5 {
        '5'
    } else if d == 6 {
        '6'
    } else if d == 7 {
        '7'
    } else if d == 8 {
        '8'
    } else {
        '9'
    }
}

/// The decimal rendering of a number, most significant digit first.
pub open spec fn spec_dec(n: nat) -> Seq<char>
    decreases n,
{
    if n < 10 {
        seq![digit_char(n)]
    } else {
        spec_dec(n / 10) + seq![digit_char(n % 10)]
    }
}

fn digit_str(d: u64) -> (r: &'static str)
    requires
        d < 10,
    ensures
        r@ == seq![digit_char(d as nat)],
{
    proof {
        reveal_strlit("0");
        reveal_strlit("1");
        reveal_strlit("2");
        reveal_strlit("3");
        reveal_strlit("4");
        reveal_strlit("5");
        reveal_strlit("6");
        reveal_strlit("7");
        reveal_strlit("8");
        reveal_strlit("9");
    }
    let r = match d {
        0 => "0",
        1 => "1",
        2 => "2",
        3 => "3",
        4 => "4",
        5 => "5",
        6 => "6",
        7 => "7",
        8 => "8",
        _ => "9",
    };
    proof {
        assert(r@ =~= seq![digit_char(d as nat)]);
    }
    r
}

/// Renders a number in decimal.
pub fn u64_to_dec(n: u64) -> (r: String)
    ensures
        r@ == spec_dec(n as nat),
    decreases n,
{
    if n < 10 {
        digit_str(n).to_owned()
    } else {
        let mut s = u64_to_dec(n / 10);
        s.append(digit_str(n % 10));
        s
    }
}

/// Exact string equality, stated over the character sequences.
pub fn str_eq(a: &str, b: &str) -> (r: bool)
    ensures
        r == (a@ == b@),
{
    let alen = a.unicode_len();
    let blen = b.unicode_len();
    if alen != blen {
        return false;
    }
    let mut i: usize = 0;
    while i < alen
        invariant
            alen == a@.len(),
            blen == b@.len(),
            alen == blen,
            0 <= i <= alen,
            forall|j: int| 0 <= j < i ==> a@[j] == b@[j],
        decreases alen - i,
    {
        if a.get_char(i) != b.get_char(i) {
            return false;
        }
        i += 1;
    }
    proof {
        assert(a@ =~= b@);
    }
    true
}

/// ASCII lower-casing of a single character, by code point.
pub open spec fn lower_code(c: char) -> u32 {
    if 65 <= c as u32 && c as u32 <= 90 {
        (c as u32 + 32) as u32
    } else {
        c as u32
    }
}

/// Whether a token type names a bearer token: equal to `bearer` up to ASCII case.
pub open spec fn is_bearer_ci(s: Seq<char>) -> bool {
    &&& s.len() == 6
    &&& lower_code(s[0]) == 'b' as u32
    &&& lower_code(s[1]) == 'e' as u32
    &&& lower_code(s[2]) == 'a' as u32
    &&& lower_code(s[3]) == 'r' as u32
    &&& lower_code(s[4]) == 'e' as u32
    &&& lower_code(s[5]) == 'r' as u32
}

fn lower_code_of(c: char) -> (r: u32)
    ensures
        r == lower_code(c),
{
    let u = c as u32;
    if 65 <= u && u <= 90 {
        u + 32
    } else {
        u
    }
}

/// Decides whether a token type equals `bearer`, ignoring ASCII case.
pub fn token_type_is_bearer(s: &str) -> (r: bool)
    ensures
        r == is_bearer_ci(s@),
{
    if s.unicode_len() != 6 {
        return false;
    }
    let r = lower_code_of(s.get_char(0)) == 'b' as u32 && lower_code_of(s.get_char(1)) == 'e' as u32
        && lower_code_of(s.get_char(2)) == 'a' as u32 && lower_code_of(s.get_char(3)) == 'r' as u32
        && lower_code_of(s.get_char(4)) == 'e' as u32 && lower_code_of(s.get_char(5)) == 'r' as u32;
    r
}

/// Whether a character is a decimal digit.
pub open spec fn is_dec_digit(c: char) -> bool {
    48 <= c as u32 && c as u32 <= 57
}

/// Whether a character belongs to the URL-safe base64 alphabet:
/// `A`–`Z`, `a`–`z`, `0`–`9`, `-` or `_`.
pub open spec fn is_b64url_char(c: char) -> bool {
    ||| 65 <= c as u32 && c as u32 <= 90
    ||| 97 <= c as u32 && c as u32 <= 122
    ||| is_dec_digit(c)
    ||| c == '-'
    ||| c == '_'
}

/// Whether a character is a lowercase hexadecimal digit.
pub open spec fn is_lower_hex_digit(c: char) -> bool {
    is_dec_digit(c) || (97 <= c as u32 && c as u32 <= 102)
}

/// The value of a decimal digit character.
pub open spec fn digit_val(c: char) -> nat {
    (c as u32 - 48) as nat
}

/// Whether every character of a sequence is a decimal digit.
pub open spec fn all_digits(s: Seq<char>) -> bool {
    forall|i: int| 0 <= i < s.len() ==> is_dec_digit(#[trigger] s[i])
}

/// The numeric value of a sequence of decimal digit characters.
pub open spec fn dec_val(s: Seq<char>) -> nat
    decreases s.len(),
{
    if s.len() == 0 {
        0
    } else {
        dec_val(s.drop_last()) * 10 + digit_val(s.last())
    }
}

/// What `parse_u64` returns: the digits after an optional `+` sign, read in
/// decimal, provided they are non-empty, all digits, and fit in a `u64`.
pub open spec fn parse_u64_spec(s: Seq<char>) -> Option<u64> {
    let body = if s.len() > 0 && s[0] == '+' {
        s.subrange(1, s.len() as int)
    } else {
        s
    };
    if body.len() == 0 || !all_digits(body) || dec_val(body) > u64::MAX {
        None
    } else {
        Some(dec_val(body) as u64)
    }
}

proof fn lemma_dec_val_prefix(s: Seq<char>, k: int)
    requires
        0 <= k <= s.len(),
    ensures
        dec_val(s) >= dec_val(s.take(k)),
    decreases s.len() - k,
{
    if k < s.len() {
        assert(s.take(k + 1).drop_last() =~= s.take(k));
        assert(s.take(k + 1).last() == s[k]);
        assert(dec_val(s.take(k + 1)) == dec_val(s.take(k)) * 10 + digit_val(s[k]));
        assert(dec_val(s.take(k)) * 10 >= dec_val(s.take(k)));
        lemma_dec_val_prefix(s, k + 1);
    } else {
        assert(s.take(k) =~= s);
    }
}

/// Reads a decimal integer, accepting an optional leading `+` sign,
/// exactly as `parse_u64_spec` describes.
pub fn parse_u64(s: &str) -> (r: Option<u64>)
    ensures
        r == parse_u64_spec(s@),
{
    let len = s.unicode_len();
    let start: usize = if len > 0 && s.get_char(0) == '+' {
        1
    } else {
        0
    };
    let ghost body = if s@.len() > 0 && s@[0] == '+' {
        s@.subrange(1, s@.len() as int)
    } else {
        s@
    };
    proof {
        assert(body =~= s@.subrange(start as int, s@.len() as int));
    }
    if start >= len {
        return None;
    }
    let mut acc: u64 = 0;
    let mut i: usize = start;
    while i < len
        invariant
            start <= i <= len,
            len == s@.len(),
            start <= 1,
            body == s@.subrange(start as int, s@.len() as int),
            body == (if s@.len() > 0 && s@[0] == '+' {
                s@.subrange(1, s@.len() as int)
            } else {
                s@
            }),
            all_digits(body.take(i - start)),
            acc as nat == dec_val(body.take(i - start)),
        decreases len - i,
    {
        let c = s.get_char(i);
        let u = c as u32;
        if u < 48 || u > 57 {
            proof {
                assert(body[i - start] == s@[i as int]);
                assert(!is_dec_digit(body[i - start]));
                assert(!all_digits(body));
            }
            return None;
        }
        let d: u64 = (u - 48) as u64;
        proof {
            assert(body.take(i - start + 1).drop_last() =~= body.take(i - start));
            assert(body.take(i - start + 1).last() == s@[i as int]);
        }
        if acc > (u64::MAX - d) / 10 {
            proof {
                assert(digit_val(body.take(i - start + 1).last()) == d);
                assert(dec_val(body.take(i - start + 1)) == acc * 10 + d);
                assert((u64::MAX - d) / 10 * 10 + 10 > u64::MAX - d);
                assert(acc * 10 >= ((u64::MAX - d) / 10 + 1) * 10);
                assert(dec_val(body.take(i - start + 1)) > u64::MAX);
                lemma_dec_val_prefix(body, i - start + 1);
                assert(dec_val(body) > u64::MAX);
            }
            return None;
        }
        acc = acc * 10 + d;
        i += 1;
        proof {
            assert(all_digits(body.take(i - start)));
        }
    }
    proof {
        assert(body.take(len - start) =~= body);
    }
    Some(acc)
}

/// The views of a list of string pairs.
pub open spec fn pairs_view(ps: Seq<(String, String)>) -> Seq<(Seq<char>, Seq<char>)> {
    ps.map_values(|p: (String, String)| (p.0@, p.1@))
}

/// Last-wins lookup among key/value pairs: what a map built by inserting the
/// pairs in order would hold under the key.
pub open spec fn lookup_pairs(ps: Seq<(Seq<char>, Seq<char>)>, k: Seq<char>) -> Option<Seq<char>>
    decreases ps.len(),
{
    if ps.len() == 0 {
        None
    } else if ps.last().0 == k {
        Some(ps.last().1)
    } else {
        lookup_pairs(ps.drop_last(), k)
    }
}

/// Looks a key up among parsed query pairs; with a repeated key the last
/// occurrence wins, as when the pairs are collected into a map.
pub fn lookup_pair(pairs: &Vec<(String, String)>, key: &str) -> (r: Option<String>)
    ensures
        r is Some <==> lookup_pairs(pairs_view(pairs@), key@) is Some,
        r matches Some(v) ==> lookup_pairs(pairs_view(pairs@), key@) == Some(v@),
{
    let ghost full = pairs_view(pairs@);
    let mut i: usize = pairs.len();
    proof {
        assert(full.take(i as int) =~= full);
    }
    while i > 0
        invariant
            0 <= i <= pairs@.len(),
            full == pairs_view(pairs@),
            lookup_pairs(full, key@) == lookup_pairs(full.take(i as int), key@),
        decreases i,
    {
        i -= 1;
        proof {
            assert(full.take(i + 1).drop_last() =~= full.take(i as int));
            assert(full.take(i + 1).last() == full[i as int]);
            assert(full[i as int].0 == pairs@[i as int].0@);
        }
        if str_eq(pairs[i].0.as_str(), key) {
            let v = pairs[i].1.clone();
            return Some(v);
        }
    }
    proof {
        assert(full.take(0) =~= Seq::<(Seq<char>, Seq<char>)>::empty());
    }
    None
}

} // verus!
