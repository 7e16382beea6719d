//! Coincidental cohesion: the lowest form, where a module groups elements
//! arbitrarily, with no meaningful relationship between them.  The grouped
//! computations here are a greeting line and a hexadecimal parser; the
//! floating-point cosine that traditionally completes the trio lives outside
//! the verified library.

use vstd::prelude::*;

verus! {

/// Whether `c` is a hexadecimal digit (`0-9`, `a-f`, `A-F`).
pub open spec fn is_hex_digit(c: char) -> bool {
    (48 <= c as u32 && c as u32 <= 57)  // '0' ..= '9'
    || (97 <= c as u32 && c as u32 <= 102)  // 'a' ..= 'f'
    || (65 <= c as u32 && c as u32 <= 70)  // 'A' ..= 'F'

}

/// The numeric value of a hexadecimal digit.
pub open spec fn hex_digit_value(c: char) -> nat
    recommends
        is_hex_digit(c),
{
    if 48 <= c as u32 && c as u32 <= 57 {
        (c as u32 - 48) as nat
    } else if 97 <= c as u32 && c as u32 <= 102 {
        (c as u32 - 87) as nat
    } else {
        (c as u32 - 55) as nat
    }
}

/// Whether every character of `s` is a hexadecimal digit.
pub open spec fn all_hex_digits(s: Seq<char>) -> bool {
    forall|i: int| 0 <= i < s.len() ==> is_hex_digit(#[trigger] s[i])
}

/// The numeric value of a sequence of hexadecimal digits, most significant
/// digit first.
pub open spec fn hex_value(s: Seq<char>) -> nat
    decreases s.len(),
{
    if s.len() == 0 {
        0
    } else {
        16 * hex_value(s.drop_last()) + hex_digit_value(s.last())
    }
}

/// The digit part of a hexadecimal numeral: everything after one optional
/// leading plus sign.
pub open spec fn sign_stripped(s: Seq<char>) -> Seq<char> {
    if s.len() > 0 && s[0] == '+' {
        s.drop_first()
    } else {
        s
    }
}

/// Whether `s` is a hexadecimal numeral for a value that fits in a `u32`:
/// an optional leading plus sign, then at least one hexadecimal digit, with
/// a value of at most `u32::MAX`.
pub open spec fn valid_hex_u32(s: Seq<char>) -> bool {
    let d = sign_stripped(s);
    d.len() > 0 && all_hex_digits(d) && hex_value(d) <= u32::MAX
}

/// The numeric value of a digit, or `None` when `c` is no hexadecimal digit.
fn hex_char_value(c: char) -> (r: Option<u8>)
    ensures
        match r {
            Some(v) => is_hex_digit(c) && v as nat == hex_digit_value(c),
            None => !is_hex_digit(c),
        },
{
    let u = c as u32;
    if 48 <= u && u <= 57 {
        Some((u - 48) as u8)
    } else if 97 <= u && u <= 102 {
        Some((u - 87) as u8)
    } else if 65 <= u && u <= 70 {
        Some((u - 55) as u8)
    } else {
        None
    }
}

/// A longer run of digits never has a smaller value: every prefix of a digit
/// sequence is worth at most the whole.
proof fn lemma_hex_value_prefix(s: Seq<char>, k: int)
    requires
        0 <= k <= s.len(),
    ensures
        hex_value(s.subrange(0, k)) <= hex_value(s),
    decreases s.len() - k,
{
    if k < s.len() {
        lemma_hex_value_prefix(s, k + 1);
        let p = s.subrange(0, k + 1);
        assert(p.drop_last() =~= s.subrange(0, k));
        assert(hex_value(s.subrange(0, k)) <= hex_value(p));
    } else {
        assert(s.subrange(0, k) =~= s);
    }
}

/// Parses a hexadecimal numeral into a `u32`.
///
/// Accepts one optional leading plus sign followed by at least one
/// hexadecimal digit, upper or lower case; returns `None` on an empty digit
/// run, on any other character, and on a value above `u32::MAX`.
pub fn parse_hex_to_u32(hex_string: &str) -> (r: Option<u32>)
    ensures
        match r {
            Some(v) => valid_hex_u32(hex_string@) && v as nat == hex_value(
                sign_stripped(hex_string@),
            ),
            None => !valid_hex_u32(hex_string@),
        },
{
    let n = hex_string.unicode_len();
    let start: usize = if n > 0 && hex_string.get_char(0) == '+' {
        1
    } else {
        0
    };
    let ghost d = sign_stripped(hex_string@);
    proof {
        assert(d =~= hex_string@.subrange(start as int, n as int));
    }
    if start >= n {
        return None;
    }
    let mut acc: u64 = 0;
    let mut j: usize = start;
    while j < n
        invariant
            start <= j <= n,
            n == hex_string@.len(),
            d == sign_stripped(hex_string@),
            d == hex_string@.subrange(start as int, n as int),
            acc as nat == hex_value(hex_string@.subrange(start as int, j as int)),
            acc <= u32::MAX,
            all_hex_digits(hex_string@.subrange(start as int, j as int)),
        decreases n - j,
    {
        let c = hex_string.get_char(j);
        let ghost prefix = hex_string@.subrange(start as int, j as int);
        let ghost extended = hex_string@.subrange(start as int, j as int + 1);
        proof {
            assert(extended.drop_last() =~= prefix);
            assert(extended.last() == hex_string@[j as int]);
        }
        match hex_char_value(c) {
            None => {
                proof {
                    assert(d[j as int - start as int] == hex_string@[j as int]);
                    assert(!all_hex_digits(d));
                }
                return None;
            },
            Some(v) => {
                acc = acc * 16 + v as u64;
                if acc > 0xFFFF_FFFF {
                    proof {
                        lemma_hex_value_prefix(d, j as int + 1 - start);
                        assert(d.subrange(0, j as int + 1 - start) =~= extended);
                        assert(hex_value(d) >= hex_value(extended));
                    }
                    return None;
                }
            },
        }
        j = j + 1;
    }
    proof {
        assert(hex_string@.subrange(start as int, n as int) =~= d);
    }
    Some(acc as u32)
}

/// The greeting line for `name`.
pub fn greeting(name: &str) -> (r: String)
    ensures
        r@ == "Hello, "@ + name@ + "!"@,
{
    let mut r = "Hello, ".to_owned();
    r.append(name);
    r.append("!");
    proof {
        assert(r@ =~= "Hello, "@ + name@ + "!"@);
    }
    r
}

} // verus!
