//! Decimal text of `i64` values, written and read as `format!("{}")` and
//! `str::parse::<i64>` do.
use vstd::prelude::*;

verus! {

pub open spec fn is_digit(b: u8) -> bool {
    0x30 <= b <= 0x39
}

pub open spec fn digit_char(d: nat) -> u8 {
    (0x30 + d) as u8
}

/// Every byte is an ASCII digit.
pub open spec fn all_digits(s: Seq<u8>) -> bool {
    forall|i: int| 0 <= i < s.len() ==> is_digit(#[trigger] s[i])
}

/// The value of a string of ASCII digits, most significant first.
pub open spec fn digits_value(s: Seq<u8>) -> nat
    decreases s.len(),
{
    if s.len() == 0 {
        0
    } else {
        digits_value(s.drop_last()) * 10 + (s.last() - 0x30) as nat
    }
}

/// The decimal digits of `n`, without leading zeros.
pub open spec fn nat_decimal(n: nat) -> Seq<u8>
    decreases n,
{
    if n < 10 {
        seq![digit_char(n)]
    } else {
        nat_decimal(n / 10).push(digit_char(n % 10))
    }
}

/// The text that `format!("{}", v)` gives for an integer: a minus sign for a
/// negative value, then the digits of its magnitude.
pub open spec fn int_decimal(v: int) -> Seq<u8> {
    if v < 0 {
        seq![0x2du8] + nat_decimal((-v) as nat)
    } else {
        nat_decimal(v as nat)
    }
}

/// What `str::parse::<i64>` gives for the digits after an optional sign: at
/// least one ASCII digit and nothing else, of a value that fits in `i64`.
pub open spec fn parse_digits_spec(negative: bool, digits: Seq<u8>) -> Option<i64> {
    let value: int = if negative {
        -digits_value(digits)
    } else {
        digits_value(digits) as int
    };
    if digits.len() == 0 || !all_digits(digits) {
        None
    } else if i64::MIN <= value <= i64::MAX {
        Some(value as i64)
    } else {
        None
    }
}

/// What `str::parse::<i64>` gives for the text `s`: an optional `+` or `-`, then at
/// least one ASCII digit and nothing else, of a value that fits in `i64`.
pub open spec fn parse_i64_spec(s: Seq<u8>) -> Option<i64> {
    if s.len() > 0 && (s[0] == 0x2du8 || s[0] == 0x2bu8) {
        parse_digits_spec(s[0] == 0x2du8, s.drop_first())
    } else {
        parse_digits_spec(false, s)
    }
}

proof fn lemma_nat_decimal(n: nat)
    ensures
        nat_decimal(n).len() >= 1,
        all_digits(nat_decimal(n)),
        digits_value(nat_decimal(n)) == n,
    decreases n,
{
    if n < 10 {
        let s = nat_decimal(n);
        assert(s.drop_last() =~= Seq::<u8>::empty());
        assert(s.last() == digit_char(n));
        assert(digit_char(n) - 0x30 == n);
        assert(digits_value(s) == digits_value(s.drop_last()) * 10 + (s.last() - 0x30) as nat);
        assert(digits_value(Seq::<u8>::empty()) == 0);
    } else {
        lemma_nat_decimal(n / 10);
        let s = nat_decimal(n);
        assert(s.drop_last() =~= nat_decimal(n / 10));
        assert(s.last() == digit_char(n % 10));
        assert(digit_char(n % 10) - 0x30 == n % 10);
        assert(n == (n / 10) * 10 + n % 10);
        assert(digits_value(s) == digits_value(s.drop_last()) * 10 + (s.last() - 0x30) as nat);
        assert(all_digits(s)) by {
            assert forall|i: int| 0 <= i < s.len() implies is_digit(#[trigger] s[i]) by {
                if i < s.len() - 1 {
                    assert(s[i] == nat_decimal(n / 10)[i]);
                }
            }
        }
    }
}

/// Reading back the decimal text of a value gives the value.
pub proof fn lemma_parse_int_decimal(v: i64)
    ensures
        parse_i64_spec(int_decimal(v as int)) == Some(v),
        all_digits(int_decimal(v as int)) || int_decimal(v as int)[0] == 0x2du8,
        forall|i: int|
            0 <= i < int_decimal(v as int).len() ==> (is_digit(#[trigger] int_decimal(v as int)[i])
                || int_decimal(v as int)[i] == 0x2du8),
{
    let s = int_decimal(v as int);
    if v < 0 {
        lemma_nat_decimal((-v) as nat);
        assert(s.drop_first() =~= nat_decimal((-v) as nat));
        assert forall|i: int| 0 <= i < s.len() implies (is_digit(#[trigger] s[i]) || s[i] == 0x2du8) by {
            if i > 0 {
                assert(s[i] == nat_decimal((-v) as nat)[i - 1]);
            }
        }
    } else {
        lemma_nat_decimal(v as nat);
    }
}

fn nat_digits(n: u64) -> (s: Vec<u8>)
    ensures
        s@ == nat_decimal(n as nat),
    decreases n,
{
    if n < 10 {
        let mut s = Vec::new();
        s.push(0x30u8 + n as u8);
        assert(s@ =~= nat_decimal(n as nat));
        s
    } else {
        let mut s = nat_digits(n / 10);
        s.push(0x30u8 + (n % 10) as u8);
        s
    }
}

/// The decimal text of `v`, as `format!("{}", v)` writes it.
pub fn format_i64(v: i64) -> (s: Vec<u8>)
    ensures
        s@ == int_decimal(v as int),
{
    if v < 0 {
        let magnitude: u64 = (-(v as i128)) as u64;
        let digits = nat_digits(magnitude);
        let mut s = Vec::new();
        s.push(0x2du8);
        let mut i: usize = 0;
        while i < digits.len()
            invariant
                i <= digits@.len(),
                s@ == seq![0x2du8] + digits@.subrange(0, i as int),
            decreases digits@.len() - i,
        {
            s.push(digits[i]);
            assert(digits@.subrange(0, i + 1) =~= digits@.subrange(0, i as int).push(digits@[i as int]));
            i = i + 1;
        }
        assert(digits@.subrange(0, digits@.len() as int) =~= digits@);
        s
    } else {
        nat_digits(v as u64)
    }
}

/// A bound above every `i64` magnitude: accumulating stops growing there.
const SATURATION: u128 = 0x1_0000_0000_0000_0000;

pub open spec fn min_nat(a: nat, b: nat) -> nat {
    if a < b {
        a
    } else {
        b
    }
}

/// The `i64` written in `s[start..end]`, read as `str::parse::<i64>` reads it.
pub fn parse_i64(s: &[u8], start: usize, end: usize) -> (r: Option<i64>)
    requires
        start <= end <= s@.len(),
    ensures
        r == parse_i64_spec(s@.subrange(start as int, end as int)),
{
    let ghost text = s@.subrange(start as int, end as int);
    if start == end {
        return None;
    }
    let negative = s[start] == 0x2du8;
    let signed = negative || s[start] == 0x2bu8;
    let first: usize = if signed {
        start + 1
    } else {
        start
    };
    let ghost digits = s@.subrange(first as int, end as int);
    assert(digits =~= if signed {
        text.drop_first()
    } else {
        text
    });
    assert(parse_i64_spec(text) == parse_digits_spec(negative, digits));
    if first == end {
        return None;
    }
    let mut acc: u128 = 0;
    let mut i: usize = first;
    while i < end
        invariant
            first <= i <= end <= s@.len(),
            digits == s@.subrange(first as int, end as int),
            text == s@.subrange(start as int, end as int),
            parse_i64_spec(text) == parse_digits_spec(negative, digits),
            all_digits(digits.subrange(0, i - first)),
            acc as nat == min_nat(digits_value(digits.subrange(0, i - first)), SATURATION as nat),
        decreases end - i,
    {
        let b = s[i];
        if !(0x30u8 <= b && b <= 0x39u8) {
            assert(!all_digits(digits)) by {
                assert(digits[i - first] == b);
            }
            return None;
        }
        let ghost prefix = digits.subrange(0, i - first);
        let ghost longer = digits.subrange(0, i + 1 - first);
        assert(longer.drop_last() =~= prefix);
        assert(longer.last() == b);
        assert(all_digits(longer)) by {
            assert forall|k: int| 0 <= k < longer.len() implies is_digit(#[trigger] longer[k]) by {
                if k < prefix.len() {
                    assert(longer[k] == prefix[k]);
                }
            }
        }
        let d = (b - 0x30u8) as u128;
        if acc >= SATURATION {
            assert(digits_value(prefix) >= SATURATION);
            assert(digits_value(longer) == digits_value(prefix) * 10 + d);
            acc = SATURATION;
        } else {
            let grown = acc * 10 + d;
            acc = if grown >= SATURATION {
                SATURATION
            } else {
                grown
            };
        }
        i = i + 1;
    }
    assert(digits.subrange(0, end - first) =~= digits);
    let bound: u128 = if negative {
        0x8000_0000_0000_0000
    } else {
        0x7fff_ffff_ffff_ffff
    };
    if acc > bound {
        None
    } else if negative {
        Some((-(acc as i128)) as i64)
    } else {
        Some(acc as i64)
    }
}

} // verus!
