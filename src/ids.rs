//! UUIDs and timestamps, read and written through their outside crates.

use vstd::prelude::*;

use vstd::arithmetic::power2::pow2;

use crate::model::Timestamp;

verus! {

/// The UUID that a text denotes, if it is one.
pub uninterp spec fn uuid_of(s: Seq<char>) -> Option<u128>;

/// The lower-case hexadecimal digits, by value.
pub open spec fn lower_hex_digits() -> Seq<char> {
    seq!['0', '1', '2', '3', '4', '5', '6', '7', '8', '9', 'a', 'b', 'c', 'd', 'e', 'f']
}

/// The `k`-th hexadecimal digit of a UUID's 32, most significant first.
pub open spec fn uuid_nibble(id: u128, k: int) -> int {
    (id as int / pow2((4 * (31 - k)) as nat) as int) % 16
}

/// The hyphenated lower-case text of a UUID: its 32 hexadecimal digits in groups of
/// 8, 4, 4, 4 and 12, joined by hyphens.
pub open spec fn uuid_text(id: u128) -> Seq<char> {
    Seq::new(
        36,
        |p: int|
            if p == 8 || p == 13 || p == 18 || p == 23 {
                '-'
            } else {
                let k = if p < 8 {
                    p
                } else if p < 13 {
                    p - 1
                } else if p < 18 {
                    p - 2
                } else if p < 23 {
                    p - 3
                } else {
                    p - 4
                };
                lower_hex_digits()[uuid_nibble(id, k)]
            },
    )
}

/// The seconds and nanoseconds that an RFC 3339 timestamp denotes, if it is one.
pub uninterp spec fn parsed_timestamp(s: Seq<char>) -> Option<(i64, i32)>;

/// Relies on `uuid::Uuid::parse_str` to read a UUID, and on `Uuid::as_u128` for its value.
#[verifier::external_body]
pub(crate) fn parse_uuid(s: &String) -> (r: Option<u128>)
    ensures
        r == uuid_of(s@),
{
    match uuid::Uuid::parse_str(s) {
        Ok(u) => Some(u.as_u128()),
        Err(_) => None,
    }
}

/// Relies on `uuid::Uuid::from_u128` and the `Display` of `Uuid`, which writes the
/// hyphenated lower-case form.
#[verifier::external_body]
pub(crate) fn uuid_string(id: u128) -> (r: String)
    ensures
        r@ == uuid_text(id),
{
    uuid::Uuid::from_u128(id).to_string()
}

pub open spec fn is_digit(c: char) -> bool {
    '0' <= c && c <= '9'
}

pub open spec fn is_ascii_text(s: Seq<char>) -> bool {
    forall|i: int| 0 <= i < s.len() ==> (#[trigger] s[i] as int) < 128
}

/// The number of decimal digits that stand in `s` from position `i` on.
pub open spec fn digit_run(s: Seq<char>, i: int) -> int
    decreases s.len() - i,
{
    if i < 0 || i >= s.len() || !is_digit(s[i]) {
        0
    } else {
        1 + digit_run(s, i + 1)
    }
}

/// `s` holds the character `c` at position `i`.
pub open spec fn char_at(s: Seq<char>, i: int, c: char) -> bool {
    0 <= i < s.len() && s[i] == c
}

/// Where the year of a timestamp ends: `+` and five or more digits, `-` and four or more
/// digits, or four characters; `None` where the reader gives up there.
pub open spec fn year_end(s: Seq<char>) -> Option<int> {
    if s[0] == '+' {
        let d = digit_run(s, 1);
        if d < 5 {
            None
        } else {
            Some(1 + d)
        }
    } else if s[0] == '-' {
        let d = digit_run(s, 1);
        if d < 4 {
            None
        } else {
            Some(1 + d)
        }
    } else {
        Some(4)
    }
}

/// From position `u` on, the time zone designator never cuts a two-digit field short: an
/// optional space, then `Z`, `z`, or a sign with two hour digits and, where more follows, an
/// optional colon and two minute digits.
pub open spec fn offset_complete(s: Seq<char>, u: int) -> bool {
    let v = if char_at(s, u, ' ') {
        u + 1
    } else {
        u
    };
    if u >= s.len() || v >= s.len() {
        true
    } else if s[v] == '+' || s[v] == '-' {
        &&& s.len() >= v + 3
        &&& (s.len() == v + 3 || s.len() >= (if s[v + 3] == ':' {
            v + 4
        } else {
            v + 3
        }) + 2)
    } else {
        true
    }
}

/// From position `t`, right after the seconds: an optional fraction, then the time zone.
pub open spec fn after_seconds_complete(s: Seq<char>, t: int) -> bool {
    if char_at(s, t, '.') {
        let n = digit_run(s, t + 1);
        n == 0 || n > 9 || offset_complete(s, t + 1 + n)
    } else {
        offset_complete(s, t)
    }
}

/// From position `r`, right after the separator: hours, minutes and seconds, each two
/// characters, as far as the colons lead.
pub open spec fn time_complete(s: Seq<char>, r: int) -> bool {
    &&& s.len() >= r + 2
    &&& char_at(s, r + 2, ':') ==> {
        &&& s.len() >= r + 5
        &&& char_at(s, r + 5, ':') ==> s.len() >= r + 8 && after_seconds_complete(s, r + 8)
    }
}

/// A timestamp text on which the RFC 3339 reader never reads a two-digit field that is cut
/// short. It follows the reader's path: a non-ASCII text or one under ten characters is
/// refused at once; then come the year, month and day, an optional `T`, `t` or space with the
/// time, and the time zone. Every text that the reader accepts is of this kind.
pub open spec fn timestamp_complete(s: Seq<char>) -> bool {
    ||| !is_ascii_text(s)
    ||| s.len() < 10
    ||| match year_end(s) {
        None => true,
        Some(p) => char_at(s, p, '-') ==> {
            &&& s.len() >= p + 3
            &&& char_at(s, p + 3, '-') ==> {
                &&& s.len() >= p + 6
                &&& (s.len() == p + 6 || !(s[p + 6] == 'T' || s[p + 6] == 't' || s[p + 6] == ' ')
                    || time_complete(s, p + 7))
            }
        },
    }
}

/// What a timestamp text reads as; a text whose fields are cut short reads as nothing.
pub open spec fn read_timestamp(s: Seq<char>) -> Option<(i64, i32)> {
    if timestamp_complete(s) {
        parsed_timestamp(s)
    } else {
        None
    }
}

fn ascii_text(t: &str) -> (r: bool)
    ensures
        r == is_ascii_text(t@),
{
    let len = t.unicode_len();
    let mut i: usize = 0;
    while i < len
        invariant
            i <= len,
            len == t@.len(),
            forall|j: int| 0 <= j < i ==> (#[trigger] t@[j] as int) < 128,
        decreases len - i,
    {
        let c = t.get_char(i);
        if (c as u32) >= 128 {
            assert(!((t@[i as int] as int) < 128));
            return false;
        }
        i = i + 1;
    }
    true
}

fn run_from(t: &str, i: usize) -> (n: usize)
    requires
        i <= t@.len(),
    ensures
        n as int == digit_run(t@, i as int),
        i + n <= t@.len(),
{
    let len = t.unicode_len();
    let mut k: usize = i;
    while k < len && digit_at(t, k)
        invariant
            i <= k <= len,
            len == t@.len(),
            digit_run(t@, i as int) == (k - i) + digit_run(t@, k as int),
        decreases len - k,
    {
        k = k + 1;
    }
    k - i
}

fn digit_at(t: &str, k: usize) -> (r: bool)
    requires
        k < t@.len(),
    ensures
        r == is_digit(t@[k as int]),
{
    let c = t.get_char(k);
    '0' <= c && c <= '9'
}

fn char_is(t: &str, i: usize, c: char) -> (r: bool)
    ensures
        r == char_at(t@, i as int, c),
{
    i < t.unicode_len() && t.get_char(i) == c
}

fn offset_ok(t: &str, u: usize) -> (r: bool)
    requires
        u <= t@.len(),
    ensures
        r == offset_complete(t@, u as int),
{
    let len = t.unicode_len();
    let v = if char_is(t, u, ' ') {
        u + 1
    } else {
        u
    };
    if u >= len || v >= len {
        return true;
    }
    let c = t.get_char(v);
    if c == '+' || c == '-' {
        if len - v < 3 {
            return false;
        }
        if len - v == 3 {
            return true;
        }
        let w = if t.get_char(v + 3) == ':' {
            v + 4
        } else {
            v + 3
        };
        len - w >= 2
    } else {
        true
    }
}

fn after_seconds_ok(t: &str, pos: usize) -> (r: bool)
    requires
        pos <= t@.len(),
    ensures
        r == after_seconds_complete(t@, pos as int),
{
    let len = t.unicode_len();
    if char_is(t, pos, '.') {
        assert(pos < len);
        let n = run_from(t, pos + 1);
        n == 0 || n > 9 || offset_ok(t, pos + 1 + n)
    } else {
        offset_ok(t, pos)
    }
}

fn time_ok(t: &str, r: usize) -> (ok: bool)
    requires
        r <= t@.len(),
    ensures
        ok == time_complete(t@, r as int),
{
    let len = t.unicode_len();
    if len - r < 2 {
        return false;
    }
    if !char_is(t, r + 2, ':') {
        return true;
    }
    if len - r < 5 {
        return false;
    }
    if !char_is(t, r + 5, ':') {
        return true;
    }
    len - r >= 8 && after_seconds_ok(t, r + 8)
}

/// Whether the RFC 3339 reader can be handed `s` without cutting a two-digit field short.
pub fn is_timestamp_complete(s: &String) -> (r: bool)
    ensures
        r == timestamp_complete(s@),
{
    let t = s.as_str();
    let len = t.unicode_len();
    if !ascii_text(t) || len < 10 {
        return true;
    }
    let c0 = t.get_char(0);
    let p: usize = if c0 == '+' || c0 == '-' {
        let d = run_from(t, 1);
        if (c0 == '+' && d < 5) || (c0 == '-' && d < 4) {
            return true;
        }
        1 + d
    } else {
        4
    };
    assert(year_end(s@) == Some(p as int));
    if !char_is(t, p, '-') {
        return true;
    }
    if len - p < 3 {
        return false;
    }
    if !char_is(t, p + 3, '-') {
        return true;
    }
    if len - p < 6 {
        return false;
    }
    if len == p + 6 {
        return true;
    }
    let sep = t.get_char(p + 6);
    if !(sep == 'T' || sep == 't' || sep == ' ') {
        return true;
    }
    time_ok(t, p + 7)
}

/// Relies on the `FromStr` of `prost_types::Timestamp` to read an RFC 3339 timestamp. Its
/// reader splits two-digit fields without checking their length, so only texts on which no
/// field is cut short are handed to it.
#[verifier::external_body]
pub(crate) fn parse_timestamp(s: &String) -> (r: Option<Timestamp>)
    requires
        timestamp_complete(s@),
    ensures
        match parsed_timestamp(s@) {
            Some((seconds, nanos)) => r == Some(Timestamp { seconds, nanos }),
            None => r is None,
        },
{
    match s.parse::<prost_types::Timestamp>() {
        Ok(t) => Some(Timestamp { seconds: t.seconds, nanos: t.nanos }),
        Err(_) => None,
    }
}

} // verus!
