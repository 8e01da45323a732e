//! Sizes as the command line writes them: a decimal number and an optional
//! unit, read into whole kilobytes.

use crate::text::{captures, chars_of, lowercase, regex_captures, to_lowercase};
use vstd::arithmetic::div_mod::{
    lemma_div_denominator, lemma_div_multiples_vanish_quotient, lemma_fundamental_div_mod_converse,
};
use vstd::prelude::*;

verus! {

/// Largest size accepted, in KB: 10 GB.
pub const MAX_SIZE_KB: u64 = 10_485_760;

pub const KB_PER_MB: u64 = 1024;

pub const KB_PER_GB: u64 = 1_048_576;

/// Fractional digits that can change a size. Both multipliers divide ten to
/// this power, so digits further right never reach a whole kilobyte.
pub const FRACTION_DIGITS: usize = 20;

/// The shape of a size: a number, optionally with a fraction, optionally
/// followed by a unit, in either case.
pub const SIZE_PATTERN: &'static str = "(?i)^(\\d+(?:\\.\\d+)?)(k|m|kb|mb|g|gb)?$";

pub open spec fn is_digit(c: char) -> bool {
    '0' <= c && c <= '9'
}

pub open spec fn digit_value(c: char) -> nat {
    (c as u32 - '0' as u32) as nat
}

pub open spec fn all_digits(s: Seq<char>) -> bool {
    forall|i: int| 0 <= i < s.len() ==> is_digit(#[trigger] s[i])
}

/// The number that a run of decimal digits writes.
pub open spec fn number_value(digits: Seq<char>) -> nat
    decreases digits.len(),
{
    if digits.len() == 0 {
        0
    } else {
        number_value(digits.drop_last()) * 10 + digit_value(digits.last())
    }
}

pub open spec fn pow10(n: nat) -> nat
    decreases n,
{
    if n == 0 {
        1
    } else {
        10 * pow10((n - 1) as nat)
    }
}

/// How many digits `s` begins with.
pub open spec fn leading_digits(s: Seq<char>) -> nat
    decreases s.len(),
{
    if s.len() > 0 && is_digit(s[0]) {
        1 + leading_digits(s.drop_first())
    } else {
        0
    }
}

/// Kilobytes in one unit. `unit` is the unit in lowercase; no unit, and any
/// unit but giga and mega, count kilobytes.
pub open spec fn unit_multiplier(unit: Option<Seq<char>>) -> nat {
    match unit {
        Some(u) => if u == seq!['g'] || u == seq!['g', 'b'] {
            KB_PER_GB as nat
        } else if u == seq!['m'] || u == seq!['m', 'b'] {
            KB_PER_MB as nat
        } else {
            1
        },
        None => 1,
    }
}

/// `n` as a `u64`, or the largest `u64` where `n` does not fit.
pub open spec fn saturated(n: nat) -> u64 {
    if n > u64::MAX {
        u64::MAX
    } else {
        n as u64
    }
}

/// The whole kilobytes in `0.digits` units of `multiplier` KB each.
pub open spec fn fraction_kb(digits: Seq<char>, multiplier: nat) -> nat {
    number_value(digits) * multiplier / pow10(digits.len())
}

/// The size in KB that a number and a lowercase unit stand for, rounded
/// down, and `u64::MAX` where it does not fit. `None` where the number is
/// not one or more digits, optionally followed by a point and one or more
/// digits.
pub open spec fn captured_size(number: Seq<char>, unit: Option<Seq<char>>) -> Option<u64> {
    let w = leading_digits(number) as int;
    let m = unit_multiplier(unit);
    if w == 0 {
        None
    } else if w == number.len() {
        Some(saturated(number_value(number) * m))
    } else if number[w] == '.' && w + 1 < number.len() && all_digits(number.skip(w + 1)) {
        Some(saturated(number_value(number.take(w)) * m + fraction_kb(number.skip(w + 1), m)))
    } else {
        None
    }
}

/// The size in KB that `text` stands for: what the pattern captures as
/// number and unit, the unit in lowercase, read by `captured_size`.
pub open spec fn parsed_size(text: Seq<char>) -> Option<u64> {
    match regex_captures(SIZE_PATTERN@, text) {
        Some(groups) => if groups.len() >= 3 && groups[1] is Some {
            captured_size(
                groups[1]->0,
                match groups[2] {
                    Some(u) => Some(lowercase(u)),
                    None => None,
                },
            )
        } else {
            None
        },
        None => None,
    }
}

proof fn lemma_leading_digits(s: Seq<char>, n: int)
    requires
        0 <= n <= s.len(),
        forall|j: int| 0 <= j < n ==> is_digit(#[trigger] s[j]),
        n == s.len() || !is_digit(s[n]),
    ensures
        leading_digits(s) == n,
    decreases n,
{
    if n > 0 {
        let rest = s.drop_first();
        assert forall|j: int| 0 <= j < n - 1 implies is_digit(#[trigger] rest[j]) by {}
        lemma_leading_digits(rest, n - 1);
    }
}

fn digit_of(c: char) -> (d: Option<u8>)
    ensures
        d is Some == is_digit(c),
        d matches Some(v) ==> v == digit_value(c) && v <= 9,
{
    if c >= '0' && c <= '9' {
        Some((c as u32 - '0' as u32) as u8)
    } else {
        None
    }
}

fn multiplier_of(unit: Option<&str>) -> (m: u64)
    ensures
        m == unit_multiplier(
            match unit {
                Some(u) => Some(u@),
                None => None,
            },
        ),
        m == 1 || m == KB_PER_MB || m == KB_PER_GB,
{
    match unit {
        None => 1,
        Some(u) => {
            let chars = chars_of(u);
            let giga = chars.len() >= 1 && chars[0] == 'g';
            let mega = chars.len() >= 1 && chars[0] == 'm';
            let bare = chars.len() == 1;
            let bytes = chars.len() == 2 && chars[1] == 'b';
            proof {
                if bare {
                    assert(giga ==> u@ =~= seq!['g']);
                    assert(mega ==> u@ =~= seq!['m']);
                }
                if bytes {
                    assert(giga ==> u@ =~= seq!['g', 'b']);
                    assert(mega ==> u@ =~= seq!['m', 'b']);
                }
            }
            if giga && (bare || bytes) {
                KB_PER_GB
            } else if mega && (bare || bytes) {
                KB_PER_MB
            } else {
                1
            }
        },
    }
}


proof fn lemma_number_push(digits: Seq<char>, c: char)
    ensures
        number_value(digits.push(c)) == number_value(digits) * 10 + digit_value(c),
{
    assert(digits.push(c).drop_last() =~= digits);
}

proof fn lemma_pow10_positive(n: nat)
    ensures
        pow10(n) >= 1,
    decreases n,
{
    if n > 0 {
        lemma_pow10_positive((n - 1) as nat);
    }
}

proof fn lemma_pow10_adds(a: nat, b: nat)
    ensures
        pow10(a + b) == pow10(a) * pow10(b),
    decreases a,
{
    if a > 0 {
        let x = pow10((a - 1) as nat);
        let y = pow10(b);
        lemma_pow10_adds((a - 1) as nat, b);
        assert(10 * (x * y) == (10 * x) * y) by (nonlinear_arith);
    } else {
        assert(pow10(a) == 1);
    }
}

proof fn lemma_pow10_grows(a: nat, b: nat)
    requires
        a <= b,
    ensures
        pow10(a) <= pow10(b),
{
    lemma_pow10_adds(a, (b - a) as nat);
    lemma_pow10_positive((b - a) as nat);
    assert(pow10(a) <= pow10(a) * pow10((b - a) as nat)) by (nonlinear_arith)
        requires
            pow10((b - a) as nat) >= 1,
    ;
}

proof fn lemma_pow10_of_fraction_digits()
    ensures
        pow10(FRACTION_DIGITS as nat) == 100_000_000_000_000_000_000,
{
    reveal_with_fuel(pow10, 21);
}

/// A run of digits writes a number below ten to the power of its length, and
/// splits at any place into a head and a tail.
proof fn lemma_number_splits(digits: Seq<char>, at: int)
    requires
        all_digits(digits),
        0 <= at <= digits.len(),
    ensures
        number_value(digits) < pow10(digits.len()),
        number_value(digits) == number_value(digits.take(at)) * pow10((digits.len() - at) as nat)
            + number_value(digits.skip(at)),
    decreases digits.len(),
{
    if digits.len() > 0 {
        let front = digits.drop_last();
        let d = digit_value(digits.last());
        assert forall|i: int| 0 <= i < front.len() implies is_digit(#[trigger] front[i]) by {}
        if at == digits.len() {
            lemma_number_splits(front, 0);
            assert(digits.take(at) =~= digits);
            assert(number_value(digits) * 1 == number_value(digits));
        } else {
            lemma_number_splits(front, at);
            assert(front.take(at) =~= digits.take(at));
            let rest = digits.skip(at);
            assert(rest.drop_last() =~= front.skip(at));
            let head = number_value(digits.take(at)) as int;
            let low = number_value(front.skip(at)) as int;
            let p = pow10((front.len() - at) as nat) as int;
            assert((head * p + low) * 10 + d == head * (10 * p) + (low * 10 + d))
                by (nonlinear_arith);
        }
    }
}

/// Fractional digits past the twentieth add less than one kilobyte.
proof fn lemma_fraction_truncates(digits: Seq<char>, multiplier: nat)
    requires
        all_digits(digits),
        digits.len() > FRACTION_DIGITS,
        multiplier == 1 || multiplier == KB_PER_MB || multiplier == KB_PER_GB,
    ensures
        fraction_kb(digits, multiplier) == fraction_kb(
            digits.take(FRACTION_DIGITS as int),
            multiplier,
        ),
{
    let head = number_value(digits.take(FRACTION_DIGITS as int));
    let tail = number_value(digits.skip(FRACTION_DIGITS as int));
    let extra = (digits.len() - FRACTION_DIGITS) as nat;
    let d = pow10(extra) as int;
    let m = multiplier as int;
    let full = pow10(FRACTION_DIGITS as nat) as int;
    let c: int = if multiplier == 1 {
        100_000_000_000_000_000_000
    } else if multiplier == KB_PER_MB {
        97_656_250_000_000_000
    } else {
        95_367_431_640_625
    };
    let f = number_value(digits) as int;
    lemma_pow10_of_fraction_digits();
    lemma_pow10_positive(extra);
    lemma_pow10_adds(FRACTION_DIGITS as nat, extra);
    lemma_number_splits(digits, FRACTION_DIGITS as int);
    assert forall|i: int| 0 <= i < digits.skip(FRACTION_DIGITS as int).len() implies is_digit(
        #[trigger] digits.skip(FRACTION_DIGITS as int)[i],
    ) by {}
    lemma_number_splits(digits.skip(FRACTION_DIGITS as int), 0);
    assert(full * d == m * (c * d)) by (nonlinear_arith)
        requires
            m * c == full,
    ;
    assert(c * d > 0) by (nonlinear_arith)
        requires
            c > 0,
            d > 0,
    ;
    // f * m / (m * (c * d)) == f / (c * d)
    lemma_div_multiples_vanish_quotient(m, f, c * d);
    // f / (c * d) == (f / d) / c
    lemma_div_denominator(f, d, c);
    // f / d == head
    lemma_fundamental_div_mod_converse(f, d, head as int, tail as int);
    // head / c == head * m / (m * c)
    lemma_div_multiples_vanish_quotient(m, head as int, c);
}

/// Reads a number and a lowercase unit, as the pattern captures them, into
/// whole kilobytes.
pub fn size_from_captures(number: &str, unit: Option<&str>) -> (kb: Option<u64>)
    ensures
        kb == captured_size(
            number@,
            match unit {
                Some(u) => Some(u@),
                None => None,
            },
        ),
{
    let m = multiplier_of(unit);
    let chars = chars_of(number);
    let n = chars.len();
    let mut i: usize = 0;
    let mut whole: u128 = 0;
    let mut huge = false;
    let mut more = true;
    while more
        invariant
            i <= n,
            n == chars@.len(),
            forall|j: int| 0 <= j < i ==> is_digit(#[trigger] chars@[j]),
            whole <= u64::MAX,
            !huge ==> whole == number_value(chars@.take(i as int)),
            huge ==> number_value(chars@.take(i as int)) > u64::MAX,
            !more ==> (i == n || !is_digit(chars@[i as int])),
        decreases n - i + (if more { 1int } else { 0int }),
    {
        if i < n {
            match digit_of(chars[i]) {
                Some(d) => {
                    proof {
                        lemma_number_push(chars@.take(i as int), chars@[i as int]);
                        assert(chars@.take(i as int).push(chars@[i as int]) =~= chars@.take(
                            i + 1,
                        ));
                    }
                    if !huge {
                        let next: u128 = whole * 10 + d as u128;
                        if next > u64::MAX as u128 {
                            huge = true;
                        } else {
                            whole = next;
                        }
                    }
                    i += 1;
                },
                None => {
                    more = false;
                },
            }
        } else {
            more = false;
        }
    }
    proof {
        lemma_leading_digits(chars@, i as int);
    }
    if i == 0 {
        return None;
    }
    let ghost whole_value = number_value(chars@.take(i as int));
    assert(whole_value * m >= whole_value) by (nonlinear_arith)
        requires
            m >= 1,
    ;
    assert(whole * m <= u64::MAX * KB_PER_GB) by (nonlinear_arith)
        requires
            whole <= u64::MAX,
            m <= KB_PER_GB,
    ;
    if i == n {
        assert(chars@.take(i as int) =~= chars@);
        if huge {
            return Some(u64::MAX);
        }
        let total: u128 = whole * (m as u128);
        return Some(
            if total > u64::MAX as u128 {
                u64::MAX
            } else {
                total as u64
            },
        );
    }
    if chars[i] != '.' || i + 1 >= n {
        return None;
    }
    let start: usize = i + 1;
    let ghost fraction = chars@.skip(start as int);
    let mut j: usize = start;
    let mut acc: u128 = 0;
    let mut scale: u128 = 1;
    let mut taken: usize = 0;
    proof {
        lemma_pow10_of_fraction_digits();
    }
    while j < n
        invariant
            start <= j <= n,
            n == chars@.len(),
            chars@ == number@,
            0 < i < n,
            start == i + 1,
            leading_digits(number@) == i,
            chars@[i as int] == '.',
            fraction == chars@.skip(start as int),
            forall|t: int| 0 <= t < j - start ==> is_digit(#[trigger] fraction[t]),
            taken == if j - start < FRACTION_DIGITS { (j - start) as usize } else { FRACTION_DIGITS },
            acc == number_value(fraction.take(taken as int)),
            scale == pow10(taken as nat),
            acc < scale,
            scale <= 100_000_000_000_000_000_000,
            pow10(FRACTION_DIGITS as nat) == 100_000_000_000_000_000_000,
        decreases n - j,
    {
        match digit_of(chars[j]) {
            None => {
                assert(!is_digit(fraction[j - start]));
                return None;
            },
            Some(d) => {
                if taken < FRACTION_DIGITS {
                    proof {
                        lemma_number_push(fraction.take(taken as int), fraction[taken as int]);
                        assert(fraction.take(taken as int).push(fraction[taken as int])
                            =~= fraction.take(taken + 1));
                        lemma_pow10_grows((taken + 1) as nat, FRACTION_DIGITS as nat);
                    }
                    acc = acc * 10 + d as u128;
                    scale = scale * 10;
                    taken += 1;
                }
                j += 1;
            },
        }
    }
    assert(acc * m <= 100_000_000_000_000_000_000 * KB_PER_GB) by (nonlinear_arith)
        requires
            acc < 100_000_000_000_000_000_000,
            m <= KB_PER_GB,
    ;
    let part: u128 = acc * (m as u128) / scale;
    proof {
        if fraction.len() <= FRACTION_DIGITS {
            assert(fraction.take(taken as int) =~= fraction);
        } else {
            lemma_fraction_truncates(fraction, m as nat);
        }
        assert(acc * m / (scale as int) <= acc * m) by (nonlinear_arith)
            requires
                scale >= 1,
                acc * m >= 0,
        ;
    }
    if huge {
        return Some(u64::MAX);
    }
    let total: u128 = whole * (m as u128) + part;
    Some(
        if total > u64::MAX as u128 {
            u64::MAX
        } else {
            total as u64
        },
    )
}

/// Parses a size such as `200k`, `1.5m`, `500kb` or `2gb` into whole KB. No
/// unit means kilobytes. `None` where the text is not a size.
pub fn parse_size(size_str: &str) -> (kb: Option<u64>)
    ensures
        kb == parsed_size(size_str@),
{
    match captures(SIZE_PATTERN, size_str) {
        None => None,
        Some(groups) => {
            if groups.len() < 3 {
                return None;
            }
            match &groups[1] {
                None => None,
                Some(number) => match &groups[2] {
                    None => size_from_captures(number.as_str(), None),
                    Some(unit) => {
                        let lower = to_lowercase(unit.as_str());
                        size_from_captures(number.as_str(), Some(lower.as_str()))
                    },
                },
            }
        },
    }
}


/// Why a size was turned down.
#[derive(Clone, Copy, Debug, PartialEq, Eq, Structural)]
pub enum SizeError {
    /// The text is empty.
    Empty,
    /// The size is zero.
    Zero,
    /// The size is above `MAX_SIZE_KB`.
    TooLarge,
    /// The text is not a size.
    Invalid,
}

/// The verdict on a size text, given whether it is empty and what it parsed
/// to: the size where it lies between 1 KB and `MAX_SIZE_KB`, else the
/// reason why not. Emptiness is judged first, then the format, then the
/// value.
pub open spec fn size_verdict(empty: bool, parsed: Option<u64>) -> Result<u64, SizeError> {
    if empty {
        Err(SizeError::Empty)
    } else {
        match parsed {
            None => Err(SizeError::Invalid),
            Some(kb) => if kb == 0 {
                Err(SizeError::Zero)
            } else if kb > MAX_SIZE_KB {
                Err(SizeError::TooLarge)
            } else {
                Ok(kb)
            },
        }
    }
}

pub fn judge_size(empty: bool, parsed: Option<u64>) -> (verdict: Result<u64, SizeError>)
    ensures
        verdict == size_verdict(empty, parsed),
{
    if empty {
        return Err(SizeError::Empty);
    }
    match parsed {
        None => Err(SizeError::Invalid),
        Some(kb) => {
            if kb == 0 {
                Err(SizeError::Zero)
            } else if kb > MAX_SIZE_KB {
                Err(SizeError::TooLarge)
            } else {
                Ok(kb)
            }
        },
    }
}

/// Checks a size given on the command line and returns it in KB.
pub fn validate_size(size_str: &str) -> (verdict: Result<u64, SizeError>)
    ensures
        verdict == size_verdict(size_str@.len() == 0, parsed_size(size_str@)),
{
    if size_str.is_empty() {
        return judge_size(true, None);
    }
    judge_size(false, parse_size(size_str))
}

impl SizeError {
    /// What to tell the user, given the text that was turned down.
    pub open spec fn message_text(self, size_str: Seq<char>) -> Seq<char> {
        match self {
            SizeError::Empty => "Size cannot be empty. Examples: 200k, 1.5m, 500kb"@,
            SizeError::Zero => "Size must be greater than 0. Examples: 200k, 1.5m, 500kb"@,
            SizeError::TooLarge => "Size too large (max 10GB). Got: "@ + size_str,
            SizeError::Invalid => "Invalid size format: '"@ + size_str
                + "'. Examples:\n   - 200k or 200kb (200 kilobytes)\n   - 1.5m or 1.5mb (1.5 megabytes)\n   - 2g or 2gb (2 gigabytes)"@,
        }
    }

    pub fn message(&self, size_str: &str) -> (text: String)
        ensures
            text@ == self.message_text(size_str@),
    {
        match self {
            SizeError::Empty => String::from_str(
                "Size cannot be empty. Examples: 200k, 1.5m, 500kb",
            ),
            SizeError::Zero => String::from_str(
                "Size must be greater than 0. Examples: 200k, 1.5m, 500kb",
            ),
            SizeError::TooLarge => String::from_str("Size too large (max 10GB). Got: ").concat(
                size_str,
            ),
            SizeError::Invalid => String::from_str("Invalid size format: '").concat(
                size_str,
            ).concat(
                "'. Examples:\n   - 200k or 200kb (200 kilobytes)\n   - 1.5m or 1.5mb (1.5 megabytes)\n   - 2g or 2gb (2 gigabytes)",
            ),
        }
    }
}

} // verus!
