//! Minimal inspection of the interaction envelope: the interceptor reads one
//! field of the authenticated payload, the `type` discriminator, and nothing
//! else.
//!
//! The payload stays a raw byte sequence. The discriminator is the decimal
//! integer that follows the first occurrence of the seven bytes `"type":`,
//! after any whitespace; a payload without that key, or with no digit there,
//! has no discriminator.

use vstd::prelude::*;

verus! {

/// The seven bytes of the discriminator key, `"type":`.
pub open spec fn key_at(s: Seq<u8>, i: int) -> bool {
    0 <= i && i + 7 <= s.len() && s[i] == 34u8 && s[i + 1] == 116u8 && s[i + 2] == 121u8 && s[i
        + 3] == 112u8 && s[i + 4] == 101u8 && s[i + 5] == 34u8 && s[i + 6] == 58u8
}

/// The first position at or after `i` where the discriminator key occurs.
pub open spec fn first_key(s: Seq<u8>, i: int) -> Option<int>
    decreases s.len() - i,
{
    if i < 0 || i + 7 > s.len() {
        None
    } else if key_at(s, i) {
        Some(i)
    } else {
        first_key(s, i + 1)
    }
}

/// True of the ASCII codes of space, tab, line feed and carriage return.
pub open spec fn is_ws(b: u8) -> bool {
    b == 32 || b == 9 || b == 10 || b == 13
}

/// The first position at or after `i` holding no whitespace.
pub open spec fn skip_ws(s: Seq<u8>, i: int) -> int
    decreases s.len() - i,
{
    if 0 <= i && i < s.len() && is_ws(s[i]) {
        skip_ws(s, i + 1)
    } else {
        i
    }
}

/// True of the ASCII code of a decimal digit.
pub open spec fn is_digit(b: u8) -> bool {
    48 <= b && b <= 57
}

/// The position just past the run of decimal digits that starts at `i`.
pub open spec fn digit_run_end(s: Seq<u8>, i: int) -> int
    decreases s.len() - i,
{
    if 0 <= i && i < s.len() && is_digit(s[i]) {
        digit_run_end(s, i + 1)
    } else {
        i
    }
}

/// The value of the decimal digits `s[i .. j]`, most significant first.
pub open spec fn digits_value(s: Seq<u8>, i: int, j: int) -> nat
    recommends
        forall|k: int| i <= k < j ==> is_digit(s[k]),
    decreases j - i,
{
    if i >= j {
        0
    } else {
        digits_value(s, i, j - 1) * 10 + (s[j - 1] - 48) as nat
    }
}

/// The payload's discriminator: the decimal integer after the first
/// `"type":` key, or `None` where the key or the integer is missing.
pub open spec fn payload_type(s: Seq<u8>) -> Option<nat> {
    match first_key(s, 0) {
        None => None,
        Some(k) => {
            let p = skip_ws(s, k + 7);
            let e = digit_run_end(s, p);
            if e == p {
                None
            } else {
                Some(digits_value(s, p, e))
            }
        },
    }
}

/// A longer digit run never denotes a smaller value.
proof fn lemma_digits_value_monotonic(s: Seq<u8>, start: int, i: int, j: int)
    requires
        start <= i <= j,
    ensures
        digits_value(s, start, j) >= digits_value(s, start, i),
    decreases j - i,
{
    if i < j {
        lemma_digits_value_monotonic(s, start, i, j - 1);
        assert(digits_value(s, start, j) == digits_value(s, start, j - 1) * 10 + (s[j - 1]
            - 48) as nat);
        assert(digits_value(s, start, j - 1) * 10 >= digits_value(s, start, j - 1)) by (nonlinear_arith);
    }
}

/// A digit run never ends before its own start.
proof fn lemma_digit_run_end_ge(s: Seq<u8>, i: int)
    ensures
        digit_run_end(s, i) >= i,
    decreases s.len() - i,
{
    if 0 <= i && i < s.len() && is_digit(s[i]) {
        lemma_digit_run_end_ge(s, i + 1);
    }
}

/// The position of the first discriminator key, or `None` where the payload
/// holds none.
fn find_key(s: &[u8]) -> (r: Option<usize>)
    ensures
        match r {
            Some(i) => first_key(s@, 0) == Some(i as int),
            None => first_key(s@, 0) is None,
        },
{
    let n = s.len();
    if n < 7 {
        assert(first_key(s@, 0) is None);
        return None;
    }
    let mut i: usize = 0;
    while i <= n - 7
        invariant
            n == s@.len(),
            7 <= n,
            0 <= i <= n,
            first_key(s@, 0) == first_key(s@, i as int),
        decreases n - i,
    {
        if s[i] == 34 && s[i + 1] == 116 && s[i + 2] == 121 && s[i + 3] == 112 && s[i + 4] == 101
            && s[i + 5] == 34 && s[i + 6] == 58 {
            assert(key_at(s@, i as int));
            assert(first_key(s@, i as int) == Some(i as int));
            return Some(i);
        }
        assert(!key_at(s@, i as int));
        assert(first_key(s@, i as int) == first_key(s@, i as int + 1));
        i = i + 1;
    }
    assert(first_key(s@, i as int) is None);
    None
}

/// The first non-whitespace position at or after `start`.
fn scan_past_ws(s: &[u8], start: usize) -> (r: usize)
    requires
        start <= s@.len(),
    ensures
        r as int == skip_ws(s@, start as int),
        start <= r <= s@.len(),
{
    let n = s.len();
    let mut i: usize = start;
    while i < n && (s[i] == 32 || s[i] == 9 || s[i] == 10 || s[i] == 13)
        invariant
            n == s@.len(),
            start <= i <= n,
            skip_ws(s@, start as int) == skip_ws(s@, i as int),
        decreases n - i,
    {
        assert(skip_ws(s@, i as int) == skip_ws(s@, i as int + 1));
        i = i + 1;
    }
    assert(skip_ws(s@, i as int) == i as int);
    i
}

/// Reads the run of decimal digits that starts at `start`. `None` where no
/// digit stands there, or where the run's value does not fit in a `u64`.
fn parse_digits(s: &[u8], start: usize) -> (r: Option<u64>)
    requires
        start <= s@.len(),
    ensures
        ({
            let e = digit_run_end(s@, start as int);
            match r {
                Some(v) => e > start && v as nat == digits_value(s@, start as int, e),
                None => e == start || digits_value(s@, start as int, e) > u64::MAX,
            }
        }),
{
    let n = s.len();
    if start >= n || !(48 <= s[start] && s[start] <= 57) {
        assert(digit_run_end(s@, start as int) == start as int);
        return None;
    }
    let mut i: usize = start;
    let mut v: u64 = 0;
    while i < n && 48 <= s[i] && s[i] <= 57
        invariant
            n == s@.len(),
            start <= i <= n,
            digit_run_end(s@, start as int) == digit_run_end(s@, i as int),
            forall|k: int| start <= k < i ==> is_digit(s@[k]),
            v as nat == digits_value(s@, start as int, i as int),
        decreases n - i,
    {
        let d = s[i] - 48;
        if v > u64::MAX / 10 || (v == u64::MAX / 10 && d > 5) {
            proof {
                let full = digits_value(s@, start as int, i as int + 1);
                assert(full == v as nat * 10 + d as nat);
                assert(v as nat * 10 + d as nat > u64::MAX) by (nonlinear_arith)
                    requires
                        v > u64::MAX / 10 || (v == u64::MAX / 10 && d > 5),
                        d < 10,
                ;
                assert(digit_run_end(s@, i as int) == digit_run_end(s@, i as int + 1));
                lemma_digit_run_end_ge(s@, i as int + 1);
                lemma_digits_value_monotonic(
                    s@,
                    start as int,
                    i as int + 1,
                    digit_run_end(s@, start as int),
                );
            }
            return None;
        }
        proof {
            assert(v as nat * 10 + d as nat <= u64::MAX) by (nonlinear_arith)
                requires
                    v <= u64::MAX / 10,
                    !(v == u64::MAX / 10 && d > 5),
                    d < 10,
            ;
        }
        v = v * 10 + (d as u64);
        i = i + 1;
    }
    assert(digit_run_end(s@, i as int) == i as int);
    Some(v)
}

/// The payload's discriminator as a machine integer; `None` where the
/// payload holds none, and also where its value does not fit in a `u64`.
pub fn discriminator(s: &[u8]) -> (r: Option<u64>)
    ensures
        match r {
            Some(v) => payload_type(s@) == Some(v as nat),
            None => payload_type(s@) is None || (payload_type(s@) matches Some(t) && t
                > u64::MAX),
        },
{
    let n = s.len();
    let k = match find_key(s) {
        Some(k) => k,
        None => {
            return None;
        },
    };
    proof {
        lemma_first_key_in_range(s@, 0);
        assert(k + 7 <= n);
    }
    let p = scan_past_ws(s, k + 7);
    parse_digits(s, p)
}

/// A found key leaves at least seven bytes before the payload's end.
proof fn lemma_first_key_in_range(s: Seq<u8>, i: int)
    requires
        first_key(s, i) is Some,
    ensures
        match first_key(s, i) {
            Some(k) => i <= k && k + 7 <= s.len() && key_at(s, k),
            None => false,
        },
    decreases s.len() - i,
{
    if i < 0 || i + 7 > s.len() {
    } else if key_at(s, i) {
    } else {
        lemma_first_key_in_range(s, i + 1);
    }
}

/// True exactly of a payload whose discriminator is the handshake type.
pub fn is_handshake(s: &[u8]) -> (r: bool)
    ensures
        r == (payload_type(s@) == Some(1nat)),
{
    match discriminator(s) {
        Some(v) => v == 1,
        None => false,
    }
}

} // verus!
