//! `0x`-prefixed hexadecimal quantities, as webhook notifications write them.

use vstd::prelude::*;

verus! {

/// Value of one hexadecimal digit (`0-9`, `a-f`, `A-F`), if it is one.
pub open spec fn hex_char_value(c: char) -> Option<int> {
    if '0' <= c && c <= '9' {
        Some(c as int - '0' as int)
    } else if 'a' <= c && c <= 'f' {
        Some(c as int - 'a' as int + 10)
    } else if 'A' <= c && c <= 'F' {
        Some(c as int - 'A' as int + 10)
    } else {
        None
    }
}

pub open spec fn all_hex_digits(d: Seq<char>) -> bool {
    forall|i: int| 0 <= i < d.len() ==> (#[trigger] hex_char_value(d[i])) is Some
}

/// The number that a sequence of hexadecimal digits denotes, most significant first.
pub open spec fn hex_number(d: Seq<char>) -> int
    decreases d.len(),
{
    if d.len() == 0 {
        0
    } else {
        hex_number(d.drop_last()) * 16 + hex_char_value(d.last()).unwrap_or(0)
    }
}

/// The digits of a `0x`-prefixed number, after the prefix and an optional `+` sign.
pub open spec fn prefixed_digits(s: Seq<char>) -> Seq<char> {
    let rest = s.skip(2);
    if rest.len() > 0 && rest[0] == '+' {
        rest.skip(1)
    } else {
        rest
    }
}

pub open spec fn has_hex_prefix(s: Seq<char>) -> bool {
    s.len() >= 2 && s[0] == '0' && s[1] == 'x'
}

/// What a `0x`-prefixed hexadecimal quantity reads as, when it fits in a `u64`.
pub open spec fn prefixed_hex_u64(s: Seq<char>) -> Option<u64> {
    let d = prefixed_digits(s);
    if has_hex_prefix(s) && d.len() > 0 && all_hex_digits(d) && hex_number(d) <= u64::MAX {
        Some(hex_number(d) as u64)
    } else {
        None
    }
}

/// Why a hexadecimal quantity was refused.
#[derive(Debug, Clone, Copy, PartialEq, Eq, Structural)]
pub enum HexNumberError {
    /// The text does not start with `0x`.
    MissingPrefix,
    /// The digits are empty, not hexadecimal, or do not fit in a `u64`.
    NotANumber,
}

proof fn lemma_hex_number_nonneg(d: Seq<char>)
    requires
        all_hex_digits(d),
    ensures
        hex_number(d) >= 0,
    decreases d.len(),
{
    if d.len() > 0 {
        assert(all_hex_digits(d.drop_last())) by {
            assert forall|i: int| 0 <= i < d.drop_last().len() implies (#[trigger] hex_char_value(
                d.drop_last()[i],
            )) is Some by {
                assert(d.drop_last()[i] == d[i]);
            }
        }
        lemma_hex_number_nonneg(d.drop_last());
        assert(hex_char_value(d[d.len() - 1]) is Some);
    }
}

/// A number only grows as digits are appended to it.
proof fn lemma_hex_number_grows(d: Seq<char>, i: int)
    requires
        all_hex_digits(d),
        0 <= i <= d.len(),
    ensures
        hex_number(d.take(i)) <= hex_number(d),
    decreases d.len() - i,
{
    if i < d.len() {
        lemma_hex_number_grows(d, i + 1);
        let t = d.take(i + 1);
        assert(t.drop_last() =~= d.take(i));
        assert(hex_char_value(d[i]) is Some);
        assert(all_hex_digits(d.take(i))) by {
            assert forall|k: int| 0 <= k < d.take(i).len() implies (#[trigger] hex_char_value(
                d.take(i)[k],
            )) is Some by {
                assert(d.take(i)[k] == d[k]);
            }
        }
        lemma_hex_number_nonneg(d.take(i));
    } else {
        assert(d.take(i) =~= d);
    }
}

/// Reads a `0x`-prefixed hexadecimal quantity, as the webhook gives token ids and amounts.
///
/// After the prefix an optional `+` may stand, then at least one hexadecimal digit.
pub fn strip_prefix(s: &String) -> (r: Result<u64, HexNumberError>)
    ensures
        !has_hex_prefix(s@) ==> r == Err::<u64, HexNumberError>(HexNumberError::MissingPrefix),
        has_hex_prefix(s@) ==> match prefixed_hex_u64(s@) {
            Some(v) => r == Ok::<u64, HexNumberError>(v),
            None => r == Err::<u64, HexNumberError>(HexNumberError::NotANumber),
        },
{
    let t = s.as_str();
    let n = t.unicode_len();
    if n < 2 || t.get_char(0) != '0' || t.get_char(1) != 'x' {
        return Err(HexNumberError::MissingPrefix);
    }
    let mut start: usize = 2;
    if n > 2 && t.get_char(2) == '+' {
        start = 3;
    }
    let ghost d = prefixed_digits(s@);
    assert(d =~= s@.subrange(start as int, n as int));
    if start == n {
        return Err(HexNumberError::NotANumber);
    }
    let mut acc: u64 = 0;
    let mut i: usize = start;
    while i < n
        invariant
            start <= i <= n,
            n == s@.len(),
            has_hex_prefix(s@),
            d == prefixed_digits(s@),
            t@ == s@,
            d =~= s@.subrange(start as int, n as int),
            all_hex_digits(d.take(i - start)),
            acc as int == hex_number(d.take(i - start)),
        decreases n - i,
    {
        let c = t.get_char(i);
        let ghost k = i - start;
        assert(d[k as int] == c);
        let v: u64 = if '0' <= c && c <= '9' {
            (c as u64) - ('0' as u64)
        } else if 'a' <= c && c <= 'f' {
            (c as u64) - ('a' as u64) + 10
        } else if 'A' <= c && c <= 'F' {
            (c as u64) - ('A' as u64) + 10
        } else {
            proof {
                assert(hex_char_value(d[k as int]) is None);
                assert(!all_hex_digits(d));
            }
            return Err(HexNumberError::NotANumber);
        };
        assert(d.take(k + 1).drop_last() =~= d.take(k));
        assert(all_hex_digits(d.take(k + 1))) by {
            assert forall|j: int| 0 <= j < d.take(k + 1).len() implies (#[trigger] hex_char_value(
                d.take(k + 1)[j],
            )) is Some by {
                if j < k {
                    assert(d.take(k + 1)[j] == d.take(k)[j]);
                }
            }
        }
        if acc > (u64::MAX - v) / 16 {
            proof {
                assert(hex_number(d.take(k + 1)) > u64::MAX);
                if all_hex_digits(d) {
                    lemma_hex_number_grows(d, k + 1);
                }
            }
            return Err(HexNumberError::NotANumber);
        }
        acc = acc * 16 + v;
        i = i + 1;
    }
    assert(d.take(d.len() as int) =~= d);
    Ok(acc)
}

} // verus!
