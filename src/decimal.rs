//! Decimal integers, read and written the way `FromStr` and `Display` do for
//! the primitive integer types.
use crate::text::{chars_of, split_char, split_on};
use crate::text::views;
use vstd::prelude::*;
use vstd::string::*;

verus! {

pub open spec fn is_digit(c: char) -> bool {
    48 <= (c as u32) && (c as u32) <= 57
}

pub open spec fn digit_value(c: char) -> nat {
    ((c as u32) - 48) as nat
}

pub open spec fn all_digits(s: Seq<char>) -> bool {
    forall|i: int| 0 <= i < s.len() ==> is_digit(#[trigger] s[i])
}

/// The number that a non-empty run of decimal digits denotes.
pub open spec fn digits_value(s: Seq<char>) -> nat
    decreases s.len(),
{
    if s.len() == 0 {
        0
    } else {
        digits_value(s.drop_last()) * 10 + digit_value(s.last())
    }
}

/// The digits of an unsigned number: an optional leading `+` removed.
pub open spec fn unsigned_body(s: Seq<char>) -> Seq<char> {
    if s.len() > 0 && s[0] == '+' {
        s.skip(1)
    } else {
        s
    }
}

/// What `s` denotes as an unsigned decimal, before any range check.
pub open spec fn decimal_value(s: Seq<char>) -> Option<nat> {
    let d = unsigned_body(s);
    if d.len() > 0 && all_digits(d) {
        Some(digits_value(d))
    } else {
        None
    }
}

/// `u64::from_str`.
pub open spec fn parse_u64_spec(s: Seq<char>) -> Option<u64> {
    match decimal_value(s) {
        Some(v) => if v <= u64::MAX {
            Some(v as u64)
        } else {
            None
        },
        None => None,
    }
}

/// `u8::from_str`.
pub open spec fn parse_u8_spec(s: Seq<char>) -> Option<u8> {
    match decimal_value(s) {
        Some(v) => if v <= u8::MAX {
            Some(v as u8)
        } else {
            None
        },
        None => None,
    }
}

/// `usize::from_str`.
pub open spec fn parse_usize_spec(s: Seq<char>) -> Option<usize> {
    match decimal_value(s) {
        Some(v) => if v <= usize::MAX {
            Some(v as usize)
        } else {
            None
        },
        None => None,
    }
}

/// `i64::from_str`: a leading `-` negates, a leading `+` is allowed.
pub open spec fn parse_i64_spec(s: Seq<char>) -> Option<i64> {
    if s.len() > 0 && s[0] == '-' {
        let d = s.skip(1);
        if d.len() > 0 && all_digits(d) && digits_value(d) <= 0x8000_0000_0000_0000 {
            Some((-digits_value(d)) as i64)
        } else {
            None
        }
    } else {
        match decimal_value(s) {
            Some(v) => if v <= i64::MAX {
                Some(v as i64)
            } else {
                None
            },
            None => None,
        }
    }
}

proof fn lemma_digits_prefix(u: Seq<char>, k: int)
    requires
        0 <= k <= u.len(),
    ensures
        digits_value(u.take(k)) <= digits_value(u),
    decreases u.len(),
{
    if k < u.len() {
        lemma_digits_prefix(u.drop_last(), k);
        assert(u.drop_last().take(k) =~= u.take(k));
    } else {
        assert(u.take(k) =~= u);
    }
}

/// The value of the digits `cs[from..]`, when they are all digits and fit in a `u64`.
fn digits_u64(cs: &Vec<char>, from: usize) -> (r: Option<u64>)
    requires
        from <= cs@.len(),
    ensures
        ({
            let d = cs@.skip(from as int);
            r == if d.len() > 0 && all_digits(d) && digits_value(d) <= u64::MAX {
                Some(digits_value(d) as u64)
            } else {
                None::<u64>
            }
        }),
{
    let ghost d = cs@.skip(from as int);
    let n = cs.len();
    if from == n {
        return None;
    }
    let mut acc: u64 = 0;
    let mut i: usize = from;
    proof {
        assert(d.take(0) =~= Seq::<char>::empty());
    }
    while i < n
        invariant
            from <= i <= n == cs@.len(),
            d == cs@.skip(from as int),
            all_digits(d.take(i - from)),
            acc as nat == digits_value(d.take(i - from)),
        decreases n - i,
    {
        let c = cs[i];
        proof {
            assert(d[i - from] == c);
        }
        let u = c as u32;
        if !(48 <= u && u <= 57) {
            proof {
                assert(!is_digit(d[i - from]));
            }
            return None;
        }
        let dv = (u - 48) as u64;
        let ghost k = i - from;
        proof {
            assert(d.take(k + 1).drop_last() =~= d.take(k));
            assert(d.take(k + 1).last() == c);
        }
        let next = match acc.checked_mul(10) {
            Some(m) => m.checked_add(dv),
            None => None,
        };
        match next {
            Some(v) => {
                acc = v;
            },
            None => {
                proof {
                    assert(digits_value(d.take(k + 1)) > u64::MAX);
                    lemma_digits_prefix(d, k + 1);
                }
                return None;
            },
        }
        proof {
            assert forall|j: int| 0 <= j < k + 1 implies is_digit(#[trigger] d.take(k + 1)[j]) by {
                if j < k {
                    assert(d.take(k + 1)[j] == d.take(k)[j]);
                }
            }
        }
        i = i + 1;
    }
    proof {
        assert(d.take(n - from) =~= d);
    }
    Some(acc)
}

/// Reads `s` as `u64::from_str` does.
pub fn parse_u64(s: &str) -> (r: Option<u64>)
    ensures
        r == parse_u64_spec(s@),
{
    let cs = chars_of(s);
    let from: usize = if cs.len() > 0 && cs[0] == '+' {
        1
    } else {
        0
    };
    proof {
        assert(cs@.skip(0) =~= cs@);
    }
    digits_u64(&cs, from)
}

/// Reads `s` as `u8::from_str` does.
pub fn parse_u8(s: &str) -> (r: Option<u8>)
    ensures
        r == parse_u8_spec(s@),
{
    match parse_u64(s) {
        Some(v) => if v <= 255 {
            Some(v as u8)
        } else {
            None
        },
        None => None,
    }
}

/// Reads `s` as `usize::from_str` does.
pub fn parse_usize(s: &str) -> (r: Option<usize>)
    ensures
        r == parse_usize_spec(s@),
{
    match parse_u64(s) {
        Some(v) => if v as u128 <= usize::MAX as u128 {
            Some(v as usize)
        } else {
            None
        },
        None => None,
    }
}

/// Reads `s` as `i64::from_str` does.
pub fn parse_i64(s: &str) -> (r: Option<i64>)
    ensures
        r == parse_i64_spec(s@),
{
    let cs = chars_of(s);
    if cs.len() > 0 && cs[0] == '-' {
        match digits_u64(&cs, 1) {
            Some(m) => if m < 0x8000_0000_0000_0000 {
                Some(-(m as i64))
            } else if m == 0x8000_0000_0000_0000 {
                Some(i64::MIN)
            } else {
                None
            },
            None => None,
        }
    } else {
        match parse_u64(s) {
            Some(v) => if v <= 0x7fff_ffff_ffff_ffff {
                Some(v as i64)
            } else {
                None
            },
            None => None,
        }
    }
}


/// A non-empty run of digits that fits in a `u64`.
pub open spec fn digits_u64_spec(s: Seq<char>) -> Option<u64> {
    if s.len() > 0 && all_digits(s) && digits_value(s) <= u64::MAX {
        Some(digits_value(s) as u64)
    } else {
        None
    }
}

pub open spec fn pow10(n: nat) -> nat
    decreases n,
{
    if n == 0 {
        1
    } else {
        10 * pow10((n - 1) as nat)
    }
}

/// The digits after a decimal point, in millionths: the first six digits,
/// padded with zeros; later digits are dropped.
pub open spec fn fraction_millionths(f: Seq<char>) -> nat {
    let k = if f.len() < 6 {
        f.len()
    } else {
        6
    };
    digits_value(f.take(k as int)) * pow10((6 - k) as nat)
}

/// A non-negative decimal number in millionths: digits, optionally a `.`
/// and more digits, at least one digit in all, an optional leading `+`,
/// and a whole part that fits in a `u64`. Exponents, signs other than `+`,
/// and the words `inf` and `NaN` are not read.
pub open spec fn decimal_millionths(s: Seq<char>) -> Option<nat> {
    let p = split_char(unsigned_body(s), '.');
    if p.len() == 1 {
        match digits_u64_spec(p[0]) {
            Some(v) => Some(v as nat * 1_000_000nat),
            None => None,
        }
    } else if p.len() == 2 && (p[0].len() > 0 || p[1].len() > 0) && all_digits(p[1]) {
        if p[0].len() == 0 {
            Some(fraction_millionths(p[1]))
        } else {
            match digits_u64_spec(p[0]) {
                Some(v) => Some(v as nat * 1_000_000nat + fraction_millionths(p[1])),
                None => None,
            }
        }
    } else {
        None
    }
}

/// Reads a non-empty run of digits that fits in a `u64`.
pub fn parse_digits(s: &str) -> (r: Option<u64>)
    ensures
        r == digits_u64_spec(s@),
{
    let cs = chars_of(s);
    proof {
        assert(cs@.skip(0) =~= cs@);
    }
    digits_u64(&cs, 0)
}

proof fn lemma_pow10_monotonic(a: nat, b: nat)
    requires
        a <= b,
    ensures
        pow10(a) <= pow10(b),
    decreases b,
{
    if a < b {
        lemma_pow10_monotonic(a, (b - 1) as nat);
    }
}

fn fraction_value(f: &str) -> (r: Option<u64>)
    ensures
        r == if all_digits(f@) {
            Some(fraction_millionths(f@) as u64)
        } else {
            None::<u64>
        },
        r matches Some(v) ==> v < 1_000_000,
        all_digits(f@) ==> fraction_millionths(f@) < 1_000_000,
{
    let cs = chars_of(f);
    let n = cs.len();
    let mut acc: u64 = 0;
    let mut i: usize = 0;
    proof {
        reveal_with_fuel(pow10, 7);
        assert(f@.take(0) =~= Seq::<char>::empty());
    }
    while i < n
        invariant
            cs@ == f@,
            n == cs@.len(),
            i <= n,
            all_digits(f@.take(i as int)),
            acc as nat == digits_value(f@.take(if i < 6 { i as int } else { 6 })),
            acc < pow10(if i < 6 { i as nat } else { 6 }),
            pow10(6) == 1_000_000,
        decreases n - i,
    {
        let c = cs[i];
        let u = c as u32;
        if !(48 <= u && u <= 57) {
            proof {
                assert(!is_digit(f@[i as int]));
            }
            return None;
        }
        proof {
            assert(f@.take(i + 1).drop_last() =~= f@.take(i as int));
            assert forall|j: int| 0 <= j < i + 1 implies is_digit(#[trigger] f@.take(i + 1)[j]) by {
                if j < i {
                    assert(f@.take(i + 1)[j] == f@.take(i as int)[j]);
                }
            }
        }
        if i < 6 {
            proof {
                lemma_pow10_monotonic(i as nat, 5);
                assert(pow10(5) == 100_000) by {
                    reveal_with_fuel(pow10, 6);
                }
                assert(f@.take(i + 1).last() == c);
                assert(pow10((i + 1) as nat) == 10 * pow10(i as nat));
            }
            acc = acc * 10 + (u - 48) as u64;
        }
        i = i + 1;
    }
    proof {
        assert(f@.take(n as int) =~= f@);
    }
    let k: usize = if n < 6 { n } else { 6 };
    let mult: u64 = if k == 0 {
        1_000_000
    } else if k == 1 {
        100_000
    } else if k == 2 {
        10_000
    } else if k == 3 {
        1_000
    } else if k == 4 {
        100
    } else if k == 5 {
        10
    } else {
        1
    };
    proof {
        reveal_with_fuel(pow10, 7);
        assert(mult == pow10((6 - k) as nat));
        assert(acc < pow10(k as nat));
        assert(acc * mult < 1_000_000) by (nonlinear_arith)
            requires
                acc < pow10(k as nat),
                mult == pow10((6 - k) as nat),
                k <= 6,
                pow10(0) == 1, pow10(1) == 10, pow10(2) == 100, pow10(3) == 1000,
                pow10(4) == 10000, pow10(5) == 100000, pow10(6) == 1000000,
        ;
    }
    Some(acc * mult)
}

/// Reads a non-negative decimal number in millionths.
pub fn parse_decimal_millionths(s: &str) -> (r: Option<u128>)
    ensures
        r == match decimal_millionths(s@) {
            Some(v) => Some(v as u128),
            None => None::<u128>,
        },
        r matches Some(v) ==> v < 0x1_0000_0000_0000_0000 * 1_000_000,
        decimal_millionths(s@) matches Some(v) ==> v < 0x1_0000_0000_0000_0000 * 1_000_000,
{
    let cs = chars_of(s);
    let body: &str = if cs.len() > 0 && cs[0] == '+' {
        s.substring_char(1, cs.len())
    } else {
        s
    };
    proof {
        if cs@.len() > 0 && cs@[0] == '+' {
            assert(body@ =~= s@.skip(1));
        }
    }
    let p = split_on(body, '.');
    proof {
        assert(views(p@) == split_char(unsigned_body(s@), '.'));
    }
    if p.len() == 1 {
        proof {
            assert(p@[0]@ == views(p@)[0]);
        }
        match parse_digits(p[0].as_str()) {
            Some(v) => {
                proof {
                    assert(decimal_millionths(s@) == Some(v as nat * 1_000_000nat));
                }
                Some(v as u128 * 1_000_000)
            },
            None => None,
        }
    } else if p.len() == 2 {
        proof {
            assert(p@[0]@ == views(p@)[0]);
            assert(p@[1]@ == views(p@)[1]);
        }
        let whole_empty = p[0].as_str().is_empty();
        if whole_empty && p[1].as_str().is_empty() {
            return None;
        }
        let frac = match fraction_value(p[1].as_str()) {
            Some(v) => v,
            None => {
                return None;
            },
        };
        if whole_empty {
            Some(frac as u128)
        } else {
            match parse_digits(p[0].as_str()) {
                Some(v) => {
                    proof {
                        assert(decimal_millionths(s@) == Some(v as nat * 1_000_000nat + frac as nat));
                    }
                    Some(v as u128 * 1_000_000 + frac as u128)
                },
                None => None,
            }
        }
    } else {
        None
    }
}

pub open spec fn digit_char(d: nat) -> char {
    seq!['0', '1', '2', '3', '4', '5', '6', '7', '8', '9'][d as int]
}

/// The decimal digits of `n`, as `Display` writes an unsigned integer.
pub open spec fn to_decimal(n: nat) -> Seq<char>
    decreases n,
{
    if n < 10 {
        seq![digit_char(n)]
    } else {
        to_decimal(n / 10).push(digit_char(n % 10))
    }
}

proof fn lemma_digit_char(d: nat)
    requires
        d < 10,
    ensures
        is_digit(digit_char(d)),
        digit_value(digit_char(d)) == d,
{
    let s = seq!['0', '1', '2', '3', '4', '5', '6', '7', '8', '9'];
    assert(s[0] == '0' && s[1] == '1' && s[2] == '2' && s[3] == '3' && s[4] == '4');
    assert(s[5] == '5' && s[6] == '6' && s[7] == '7' && s[8] == '8' && s[9] == '9');
}

pub proof fn lemma_to_decimal_digits(n: nat)
    ensures
        to_decimal(n).len() > 0,
        all_digits(to_decimal(n)),
        digits_value(to_decimal(n)) == n,
    decreases n,
{
    if n < 10 {
        lemma_digit_char(n);
        let s = to_decimal(n);
        assert(s.drop_last() =~= Seq::<char>::empty());
        assert(s.last() == digit_char(n));
        assert(digits_value(s) == digits_value(s.drop_last()) * 10 + digit_value(s.last()));
    } else {
        lemma_digit_char(n % 10);
        lemma_to_decimal_digits(n / 10);
        assert((n / 10) * 10 + n % 10 == n);
        let s = to_decimal(n);
        assert(s.drop_last() =~= to_decimal(n / 10));
        assert(s.last() == digit_char(n % 10));
        assert(digits_value(s) == digits_value(s.drop_last()) * 10 + digit_value(s.last()));
        assert forall|i: int| 0 <= i < s.len() implies is_digit(#[trigger] s[i]) by {
            if i < s.len() - 1 {
                assert(s[i] == to_decimal(n / 10)[i]);
            }
        }
    }
}

/// Reading back what `to_decimal` wrote gives the number again.
pub proof fn lemma_decimal_round_trip(n: nat)
    ensures
        decimal_value(to_decimal(n)) == Some(n),
{
    lemma_to_decimal_digits(n);
    assert(is_digit(to_decimal(n)[0]));
}

fn digit_str(d: u64) -> (r: &'static str)
    requires
        d < 10,
    ensures
        r@ == seq![digit_char(d as nat)],
{
    if d == 0 {
        proof { reveal_strlit("0"); }
        "0"
    } else if d == 1 {
        proof { reveal_strlit("1"); }
        "1"
    } else if d == 2 {
        proof { reveal_strlit("2"); }
        "2"
    } else if d == 3 {
        proof { reveal_strlit("3"); }
        "3"
    } else if d == 4 {
        proof { reveal_strlit("4"); }
        "4"
    } else if d == 5 {
        proof { reveal_strlit("5"); }
        "5"
    } else if d == 6 {
        proof { reveal_strlit("6"); }
        "6"
    } else if d == 7 {
        proof { reveal_strlit("7"); }
        "7"
    } else if d == 8 {
        proof { reveal_strlit("8"); }
        "8"
    } else {
        proof { reveal_strlit("9"); }
        "9"
    }
}

/// Writes `n` in decimal.
pub fn decimal_text(n: u64) -> (r: String)
    ensures
        r@ == to_decimal(n as nat),
    decreases n,
{
    if n < 10 {
        digit_str(n).to_owned()
    } else {
        let mut s = decimal_text(n / 10);
        s.append(digit_str(n % 10));
        s
    }
}

} // verus!
