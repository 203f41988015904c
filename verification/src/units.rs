//! Parsing of the duration ("300ms", "10m") and byte size ("20GB") strings
//! used in configuration files.

use vstd::prelude::*;
use crate::text::chars_of;

verus! {

/// An ASCII decimal digit.
pub open spec fn is_ascii_digit(c: char) -> bool {
    '0' <= c && c <= '9'
}

/// The value of an ASCII digit.
pub open spec fn digit_value(c: char) -> nat {
    ((c as int) - ('0' as int)) as nat
}

/// The value of a sequence of ASCII digits, most significant first.
pub open spec fn digits_value(s: Seq<char>) -> nat
    decreases s.len(),
{
    if s.len() == 0 {
        0
    } else {
        digits_value(s.drop_last()) * 10 + digit_value(s.last())
    }
}

/// The end of the run of ASCII digits that starts at `i`.
pub open spec fn digit_run_end(s: Seq<char>, i: int) -> int
    decreases s.len() - i,
{
    if i < 0 || i >= s.len() || !is_ascii_digit(s[i]) {
        i
    } else {
        digit_run_end(s, i + 1)
    }
}

/// A leading number and the unit text after it; `None` when `s` does not
/// start with a digit.
pub open spec fn quantity(s: Seq<char>) -> Option<(nat, Seq<char>)> {
    let k = digit_run_end(s, 0);
    if k == 0 {
        None
    } else {
        Some((digits_value(s.take(k)), s.skip(k)))
    }
}

/// The number of milliseconds of one duration unit.
pub open spec fn duration_unit_ms(u: Seq<char>) -> Option<nat> {
    if u == Seq::<char>::empty() || u == "ms"@ {
        Some(1)
    } else if u == "s"@ {
        Some(1000)
    } else if u == "m"@ || u == "min"@ {
        Some(60000)
    } else if u == "h"@ {
        Some(3600000)
    } else if u == "d"@ {
        Some(86400000)
    } else {
        None
    }
}

/// The number of milliseconds a duration string denotes: a decimal number
/// followed by one of the units `ms`, `s`, `m`, `min`, `h`, `d` (no unit
/// means milliseconds).
pub open spec fn duration_ms(s: Seq<char>) -> Option<nat> {
    match quantity(s) {
        None => None,
        Some((n, u)) => match duration_unit_ms(u) {
            None => None,
            Some(f) => Some(n * f),
        },
    }
}

/// ASCII letters folded to lowercase; other characters unchanged.
pub open spec fn ascii_lower(c: char) -> char {
    if 'A' <= c && c <= 'Z' {
        ((c as u32) + 32) as char
    } else {
        c
    }
}

/// A character sequence with ASCII letters folded to lowercase.
pub open spec fn ascii_lower_seq(s: Seq<char>) -> Seq<char> {
    s.map_values(|c: char| ascii_lower(c))
}

/// The number of bytes of one size unit, compared without regard to ASCII
/// case.
pub open spec fn byte_unit_factor(u: Seq<char>) -> Option<nat> {
    let l = ascii_lower_seq(u);
    if l == Seq::<char>::empty() || l == "b"@ {
        Some(1)
    } else if l == "k"@ || l == "kb"@ {
        Some(1024)
    } else if l == "m"@ || l == "mb"@ {
        Some(1048576)
    } else if l == "g"@ || l == "gb"@ {
        Some(1073741824)
    } else if l == "t"@ || l == "tb"@ {
        Some(1099511627776)
    } else if l == "p"@ || l == "pb"@ {
        Some(1125899906842624)
    } else {
        None
    }
}

/// The number of bytes a size string denotes: a decimal number followed by
/// one of the units `B`, `K`/`KB`, `M`/`MB`, `G`/`GB`, `T`/`TB`, `P`/`PB` in
/// any case (no unit means bytes).
pub open spec fn byte_size(s: Seq<char>) -> Option<nat> {
    match quantity(s) {
        None => None,
        Some((n, u)) => match byte_unit_factor(u) {
            None => None,
            Some(f) => Some(n * f),
        },
    }
}

/// A parsed value that fits in a `u64`.
pub open spec fn fits_u64(v: Option<nat>) -> Option<u64> {
    match v {
        Some(n) => if n <= u64::MAX { Some(n as u64) } else { None },
        None => None,
    }
}

proof fn lemma_digit_run_end_bounds(s: Seq<char>, i: int)
    requires
        0 <= i <= s.len(),
    ensures
        i <= digit_run_end(s, i) <= s.len(),
        forall|j: int| i <= j < digit_run_end(s, i) ==> is_ascii_digit(#[trigger] s[j]),
        digit_run_end(s, i) < s.len() ==> !is_ascii_digit(s[digit_run_end(s, i)]),
    decreases s.len() - i,
{
    if i < s.len() && is_ascii_digit(s[i]) {
        lemma_digit_run_end_bounds(s, i + 1);
    }
}

/// Splits `s` into its leading number (if it fits in a `u64`) and the rest.
fn split_quantity(s: &Vec<char>) -> (r: Option<(u64, Vec<char>)>)
    ensures
        match quantity(s@) {
            None => r is None,
            Some((n, u)) => if n <= u64::MAX {
                r matches Some((x, rest)) && x == n && rest@ == u
            } else {
                r is None
            },
        },
{
    let len = s.len();
    let mut i: usize = 0;
    let mut value: u64 = 0;
    let mut overflow = false;
    proof {
        lemma_digit_run_end_bounds(s@, 0);
    }
    while i < len && '0' <= s[i] && s[i] <= '9'
        invariant
            len == s@.len(),
            i <= len,
            0 <= digit_run_end(s@, 0) <= len,
            forall|j: int| 0 <= j < i ==> is_ascii_digit(#[trigger] s@[j]),
            digit_run_end(s@, 0) == digit_run_end(s@, i as int),
            !overflow ==> value == digits_value(s@.take(i as int)),
            overflow ==> digits_value(s@.take(i as int)) > u64::MAX,
        decreases len - i,
    {
        let d = (s[i] as u32 - '0' as u32) as u64;
        assert(s@.take(i + 1).drop_last() =~= s@.take(i as int));
        if !overflow {
            match value.checked_mul(10) {
                Some(v10) => match v10.checked_add(d) {
                    Some(v) => {
                        value = v;
                    },
                    None => {
                        overflow = true;
                    },
                },
                None => {
                    overflow = true;
                },
            }
        } else {
            assert(digits_value(s@.take(i + 1)) >= digits_value(s@.take(i as int)) * 10);
        }
        i = i + 1;
    }
    proof {
        lemma_digit_run_end_bounds(s@, i as int);
    }
    assert(digit_run_end(s@, 0) == i);
    if i == 0 {
        return None;
    }
    if overflow {
        return None;
    }
    let mut rest: Vec<char> = Vec::new();
    let mut j: usize = i;
    while j < len
        invariant
            len == s@.len(),
            i <= j <= len,
            rest@ == s@.subrange(i as int, j as int),
        decreases len - j,
    {
        rest.push(s[j]);
        j = j + 1;
        assert(rest@ =~= s@.subrange(i as int, j as int));
    }
    assert(rest@ =~= s@.skip(i as int));
    Some((value, rest))
}

/// Whether two character sequences are equal.
pub fn chars_eq(a: &Vec<char>, b: &Vec<char>) -> (r: bool)
    ensures
        r == (a@ == b@),
{
    if a.len() != b.len() {
        return false;
    }
    let mut i: usize = 0;
    while i < a.len()
        invariant
            a@.len() == b@.len(),
            i <= a@.len(),
            forall|j: int| 0 <= j < i ==> a@[j] == b@[j],
        decreases a@.len() - i,
    {
        if a[i] != b[i] {
            return false;
        }
        i = i + 1;
    }
    assert(a@ =~= b@);
    true
}

/// Whether `a` holds exactly the characters of `lit`.
pub fn chars_eq_str(a: &Vec<char>, lit: &str) -> (r: bool)
    ensures
        r == (a@ == lit@),
{
    let b = chars_of(lit);
    chars_eq(a, &b)
}

fn ascii_lower_char(c: char) -> (r: char)
    ensures
        r == ascii_lower(c),
{
    if 'A' <= c && c <= 'Z' {
        let b = (c as u8) + 32;
        b as char
    } else {
        c
    }
}

/// `s` with ASCII letters folded to lowercase.
pub fn ascii_lowercase(s: &Vec<char>) -> (r: Vec<char>)
    ensures
        r@ == ascii_lower_seq(s@),
{
    let mut r: Vec<char> = Vec::new();
    let mut i: usize = 0;
    while i < s.len()
        invariant
            i <= s@.len(),
            r@ == ascii_lower_seq(s@.take(i as int)),
        decreases s@.len() - i,
    {
        r.push(ascii_lower_char(s[i]));
        i = i + 1;
        assert(r@ =~= ascii_lower_seq(s@.take(i as int)));
    }
    assert(s@.take(s@.len() as int) =~= s@);
    r
}

fn duration_factor(u: &Vec<char>) -> (r: Option<u64>)
    ensures
        match duration_unit_ms(u@) {
            None => r is None,
            Some(f) => r == Some(f as u64),
        },
{
    if u.len() == 0 {
        assert(u@ =~= Seq::<char>::empty());
        Some(1)
    } else if chars_eq_str(u, "ms") {
        Some(1)
    } else if chars_eq_str(u, "s") {
        Some(1000)
    } else if chars_eq_str(u, "m") || chars_eq_str(u, "min") {
        Some(60000)
    } else if chars_eq_str(u, "h") {
        Some(3600000)
    } else if chars_eq_str(u, "d") {
        Some(86400000)
    } else {
        None
    }
}

fn byte_factor(u: &Vec<char>) -> (r: Option<u64>)
    ensures
        match byte_unit_factor(u@) {
            None => r is None,
            Some(f) => r == Some(f as u64),
        },
{
    let l = ascii_lowercase(u);
    if l.len() == 0 {
        assert(l@ =~= Seq::<char>::empty());
        Some(1)
    } else if chars_eq_str(&l, "b") {
        Some(1)
    } else if chars_eq_str(&l, "k") || chars_eq_str(&l, "kb") {
        Some(1024)
    } else if chars_eq_str(&l, "m") || chars_eq_str(&l, "mb") {
        Some(1048576)
    } else if chars_eq_str(&l, "g") || chars_eq_str(&l, "gb") {
        Some(1073741824)
    } else if chars_eq_str(&l, "t") || chars_eq_str(&l, "tb") {
        Some(1099511627776)
    } else if chars_eq_str(&l, "p") || chars_eq_str(&l, "pb") {
        Some(1125899906842624)
    } else {
        None
    }
}

/// The milliseconds a duration string denotes; `None` when it is malformed
/// or the value does not fit in a `u64`.
pub fn parse_duration_ms(s: &str) -> (r: Option<u64>)
    ensures
        r == fits_u64(duration_ms(s@)),
{
    let cs = chars_of(s);
    match split_quantity(&cs) {
        None => {
            proof {
                if let Some((n, u)) = quantity(s@) {
                    if let Some(f) = duration_unit_ms(u) {
                        assert(n * f >= n) by (nonlinear_arith)
                            requires f >= 1;
                    }
                }
            }
            None
        },
        Some((n, u)) => match duration_factor(&u) {
            None => None,
            Some(f) => n.checked_mul(f),
        },
    }
}

/// The bytes a size string denotes; `None` when it is malformed or the value
/// does not fit in a `u64`.
pub fn parse_byte_size(s: &str) -> (r: Option<u64>)
    ensures
        r == fits_u64(byte_size(s@)),
{
    let cs = chars_of(s);
    match split_quantity(&cs) {
        None => {
            proof {
                if let Some((n, u)) = quantity(s@) {
                    if let Some(f) = byte_unit_factor(u) {
                        assert(n * f >= n) by (nonlinear_arith)
                            requires f >= 1;
                    }
                }
            }
            None
        },
        Some((n, u)) => match byte_factor(&u) {
            None => None,
            Some(f) => n.checked_mul(f),
        },
    }
}

/// Every character is an ASCII digit.
pub open spec fn all_digits(s: Seq<char>) -> bool {
    forall|i: int| 0 <= i < s.len() ==> is_ascii_digit(#[trigger] s[i])
}

/// The value `str::parse::<u32>` gives for a text: an optional `+` followed
/// by at least one ASCII digit, with a value that fits in a `u32`.
pub open spec fn u32_text(s: Seq<char>) -> Option<u32> {
    let body = if s.len() > 0 && s[0] == '+' { s.drop_first() } else { s };
    if body.len() > 0 && all_digits(body) && digits_value(body) <= u32::MAX {
        Some(digits_value(body) as u32)
    } else {
        None
    }
}

/// Parses a `u32` the way `str::parse::<u32>` does.
pub fn parse_u32(s: &str) -> (r: Option<u32>)
    ensures
        r == u32_text(s@),
{
    let cs = chars_of(s);
    let body: Vec<char> = if cs.len() > 0 && cs[0] == '+' {
        let mut b: Vec<char> = Vec::new();
        let mut i: usize = 1;
        while i < cs.len()
            invariant
                1 <= i <= cs@.len(),
                b@ == cs@.subrange(1, i as int),
            decreases cs@.len() - i,
        {
            b.push(cs[i]);
            i = i + 1;
            assert(b@ =~= cs@.subrange(1, i as int));
        }
        assert(b@ =~= cs@.drop_first());
        b
    } else {
        cs
    };
    proof {
        lemma_digit_run_end_bounds(body@, 0);
    }
    match split_quantity(&body) {
        None => {
            proof {
                if body@.len() > 0 && all_digits(body@) {
                    if digit_run_end(body@, 0) < body@.len() {
                        assert(is_ascii_digit(body@[digit_run_end(body@, 0)]));
                    }
                    assert(body@.take(body@.len() as int) =~= body@);
                }
            }
            None
        },
        Some((n, rest)) => {
            if rest.len() == 0 && n <= 0xffff_ffff {
                proof {
                    assert(body@.take(digit_run_end(body@, 0)) =~= body@);
                }
                Some(n as u32)
            } else {
                proof {
                    if body@.len() > 0 && all_digits(body@) {
                        if digit_run_end(body@, 0) < body@.len() {
                            assert(is_ascii_digit(body@[digit_run_end(body@, 0)]));
                        }
                        assert(body@.take(body@.len() as int) =~= body@);
                    }
                }
                None
            }
        },
    }
}

} // verus!
