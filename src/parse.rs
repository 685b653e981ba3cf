use vstd::prelude::*;
use vstd::string::StringSliceAdditionalSpecFns;

verus! {

/// The ASCII code of `'0'`.
pub const ZERO: u8 = 48;

/// The ASCII code of `'+'`.
pub const PLUS: u8 = 43;

pub open spec fn is_digit(c: u8) -> bool {
    ZERO <= c && c <= ZERO + 9
}

pub open spec fn all_digits(b: Seq<u8>) -> bool {
    forall|i: int| 0 <= i < b.len() ==> is_digit(#[trigger] b[i])
}

/// The number that a string of decimal digits spells, most significant first.
pub open spec fn digits_value(b: Seq<u8>) -> nat
    decreases b.len(),
{
    if b.len() == 0 {
        0
    } else {
        digits_value(b.drop_last()) * 10 + (b.last() - ZERO) as nat
    }
}

/// The digits of a decimal numeral, without its optional leading `+`.
pub open spec fn unsigned_digits(b: Seq<u8>) -> Seq<u8> {
    if b.len() > 0 && b[0] == PLUS {
        b.drop_first()
    } else {
        b
    }
}

/// What reading `b` as an unsigned decimal numeral no larger than `max` gives: an optional
/// `+`, then at least one digit and nothing else, of a value that fits.
pub open spec fn decimal_value(b: Seq<u8>, max: nat) -> Option<nat> {
    let d = unsigned_digits(b);
    if d.len() > 0 && all_digits(d) && digits_value(d) <= max {
        Some(digits_value(d))
    } else {
        None
    }
}

proof fn lemma_prefix_value_grows(b: Seq<u8>, j: int, k: int)
    requires
        0 <= j <= k <= b.len(),
        all_digits(b),
    ensures
        digits_value(b.subrange(0, j)) <= digits_value(b.subrange(0, k)),
    decreases k - j,
{
    if j < k {
        lemma_prefix_value_grows(b, j, k - 1);
        assert(b.subrange(0, k).drop_last() =~= b.subrange(0, k - 1));
    }
}

/// Reads `s` as an unsigned decimal numeral whose value is at most `max`, in the way that
/// the standard library parses unsigned integers.
pub fn parse_decimal(s: &str, max: u64) -> (r: Option<u64>)
    ensures
        match decimal_value(s.spec_bytes(), max as nat) {
            Some(v) => r == Some(v as u64),
            None => r is None,
        },
{
    let b = s.as_bytes();
    let n = b.len();
    let mut i: usize = 0;
    if n > 0 && b[0] == PLUS {
        i = 1;
    }
    let start = i;
    let ghost d = unsigned_digits(b@);
    assert(d =~= b@.subrange(start as int, n as int));
    if i == n {
        return None;
    }
    let mut value: u64 = 0;
    while i < n
        invariant
            start <= i <= n,
            n == b@.len(),
            b@ == s.spec_bytes(),
            d == b@.subrange(start as int, n as int),
            d == unsigned_digits(b@),
            all_digits(d.subrange(0, i - start)),
            value as nat == digits_value(d.subrange(0, i - start)),
            value <= max,
        decreases n - i,
    {
        let c = b[i];
        if c < ZERO || c > ZERO + 9 {
            assert(!is_digit(d[i - start]));
            assert(!all_digits(d));
            return None;
        }
        let digit = (c - ZERO) as u64;
        assert(d.subrange(0, i + 1 - start).drop_last() =~= d.subrange(0, i - start));
        if digit > max || value > (max - digit) / 10 {
            assert(value * 10 + digit > max) by (nonlinear_arith)
                requires digit > max || value > (max - digit) / 10;
            proof {
                if all_digits(d) {
                    lemma_prefix_value_grows(d, i + 1 - start, d.len() as int);
                    assert(d.subrange(0, d.len() as int) =~= d);
                }
            }
            return None;
        }
        assert(value * 10 + digit <= max) by (nonlinear_arith)
            requires value <= (max - digit) / 10, digit <= max;
        value = value * 10 + digit;
        i = i + 1;
        assert(all_digits(d.subrange(0, i - start)));
    }
    assert(d.subrange(0, n - start) =~= d);
    Some(value)
}

} // verus!
