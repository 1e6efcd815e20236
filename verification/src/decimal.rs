//! Non-negative decimal numbers as they appear in the venue's wire text:
//! a digit string, optionally split once by a dot. A parsed value keeps the
//! digits as an integer mantissa together with the count of fraction digits.

use vstd::prelude::*;
use crate::text::str_to_chars;

verus! {

/// Upper bound on the number of significant digits a wire decimal may carry.
pub const MAX_DECIMAL_DIGITS: usize = 28;

/// A non-negative finite decimal: `mantissa / 10^scale`.
#[derive(Clone, Copy, Debug, PartialEq, Eq, Structural)]
pub struct Decimal {
    pub mantissa: u128,
    pub scale: u32,
}

/// Why a wire string failed to parse as a decimal.
#[derive(Clone, Copy, Debug, PartialEq, Eq, Structural)]
pub enum DecimalError {
    /// The input was empty.
    Empty,
    /// The input was not digits optionally split once by a dot.
    Invalid,
    /// The input had more significant digits than a mantissa can carry.
    TooLong,
}

pub open spec fn is_dec_digit(c: char) -> bool {
    '0' <= c && c <= '9'
}

pub open spec fn digit_val(c: char) -> nat
    recommends
        is_dec_digit(c),
{
    (c as int - 48) as nat
}

pub open spec fn all_digits(s: Seq<char>) -> bool {
    forall|i: int| 0 <= i < s.len() ==> is_dec_digit(#[trigger] s[i])
}

/// The integer value of a digit string, most significant digit first.
pub open spec fn digits_val(s: Seq<char>) -> nat
    recommends
        all_digits(s),
    decreases s.len(),
{
    if s.len() == 0 {
        0
    } else {
        digits_val(s.drop_last()) * 10 + digit_val(s.last())
    }
}

pub open spec fn pow10(n: nat) -> nat
    decreases n,
{
    if n == 0 {
        1
    } else {
        10 * pow10((n - 1) as nat)
    }
}

/// The string is digits, a dot at position `i`, then more digits, with at
/// least one digit on each side.
pub open spec fn dot_split_at(s: Seq<char>, i: int) -> bool {
    &&& 1 <= i
    &&& i + 1 < s.len()
    &&& s[i] == '.'
    &&& all_digits(s.take(i))
    &&& all_digits(s.skip(i + 1))
}

pub open spec fn has_dot_split(s: Seq<char>) -> bool {
    exists|i: int| dot_split_at(s, i)
}

/// The wire grammar of a decimal: one or more digits, optionally followed
/// by a dot and one or more fraction digits.
pub open spec fn valid_decimal(s: Seq<char>) -> bool {
    (s.len() > 0 && all_digits(s)) || has_dot_split(s)
}

/// How many significant digits the string carries.
pub open spec fn dec_digit_count(s: Seq<char>) -> nat
    recommends
        valid_decimal(s),
{
    if s.len() > 0 && all_digits(s) {
        s.len()
    } else if has_dot_split(s) {
        (s.len() - 1) as nat
    } else {
        0
    }
}

/// The fraction-digit count the string denotes.
pub open spec fn dec_scale(s: Seq<char>) -> nat
    recommends
        valid_decimal(s),
{
    if s.len() > 0 && all_digits(s) {
        0
    } else if has_dot_split(s) {
        let i = choose|i: int| dot_split_at(s, i);
        (s.len() - i - 1) as nat
    } else {
        0
    }
}

/// The integer formed by the string's digits with the dot removed.
pub open spec fn dec_mantissa(s: Seq<char>) -> nat
    recommends
        valid_decimal(s),
{
    if s.len() > 0 && all_digits(s) {
        digits_val(s)
    } else if has_dot_split(s) {
        let i = choose|i: int| dot_split_at(s, i);
        digits_val(s.take(i) + s.skip(i + 1))
    } else {
        0
    }
}

impl Decimal {
    /// A parsed wire decimal: the scale and mantissa stay within the
    /// digit budget of the grammar.
    pub open spec fn wf(self) -> bool {
        self.scale <= MAX_DECIMAL_DIGITS && self.mantissa < pow10(MAX_DECIMAL_DIGITS as nat)
    }
}

proof fn lemma_pow10_mono(a: nat, b: nat)
    requires
        a <= b,
    ensures
        pow10(a) <= pow10(b),
    decreases b,
{
    if a < b {
        lemma_pow10_mono(a, (b - 1) as nat);
    }
}

proof fn lemma_pow10_28()
    ensures
        pow10(28) == 10_000_000_000_000_000_000_000_000_000,
{
    reveal_with_fuel(pow10, 29);
}

proof fn lemma_digits_val_bound(s: Seq<char>)
    requires
        all_digits(s),
    ensures
        digits_val(s) < pow10(s.len()),
    decreases s.len(),
{
    if s.len() > 0 {
        assert(all_digits(s.drop_last()));
        lemma_digits_val_bound(s.drop_last());
        assert(is_dec_digit(s.last()));
    }
}

proof fn lemma_dot_split_unique(s: Seq<char>, i: int, j: int)
    requires
        dot_split_at(s, i),
        dot_split_at(s, j),
    ensures
        i == j,
{
    if i < j {
        assert(is_dec_digit(s.take(j)[i]));
    } else if j < i {
        assert(is_dec_digit(s.take(i)[j]));
    }
}

/// Pins the spec decomposition of a string whose dot position is known.
proof fn lemma_dec_spec_at(s: Seq<char>, i: int)
    requires
        dot_split_at(s, i),
    ensures
        valid_decimal(s),
        !all_digits(s),
        dec_digit_count(s) == s.len() - 1,
        dec_scale(s) == s.len() - i - 1,
        dec_mantissa(s) == digits_val(s.take(i) + s.skip(i + 1)),
{
    assert(!is_dec_digit(s[i]));
    let k = choose|k: int| dot_split_at(s, k);
    lemma_dot_split_unique(s, i, k);
}

/// Accumulates the digits of `v[from..to]` onto an already accumulated
/// digit string `prefix`.
fn accumulate_digits(
    v: &Vec<char>,
    from: usize,
    to: usize,
    acc: u128,
    Ghost(prefix): Ghost<Seq<char>>,
) -> (r: u128)
    requires
        from <= to <= v@.len(),
        all_digits(v@.subrange(from as int, to as int)),
        all_digits(prefix),
        acc == digits_val(prefix),
        prefix.len() + (to - from) <= MAX_DECIMAL_DIGITS,
    ensures
        r == digits_val(prefix + v@.subrange(from as int, to as int)),
{
    let mut j = from;
    let mut acc = acc;
    proof {
        assert(prefix + v@.subrange(from as int, from as int) =~= prefix);
    }
    while j < to
        invariant
            from <= j <= to <= v@.len(),
            all_digits(v@.subrange(from as int, to as int)),
            all_digits(prefix),
            prefix.len() + (to - from) <= MAX_DECIMAL_DIGITS,
            all_digits(prefix + v@.subrange(from as int, j as int)),
            acc == digits_val(prefix + v@.subrange(from as int, j as int)),
        decreases to - j,
    {
        let ghost sofar = prefix + v@.subrange(from as int, j as int);
        let c = v[j];
        proof {
            assert(is_dec_digit(v@.subrange(from as int, to as int)[j - from]));
            assert(c == v@.subrange(from as int, to as int)[j - from]);
            lemma_digits_val_bound(sofar);
            lemma_pow10_mono(sofar.len(), 27);
            lemma_pow10_28();
            assert(pow10(27) * 10 == pow10(28));
        }
        let d: u32 = (c as u32) - 48;
        acc = acc * 10 + (d as u128);
        j = j + 1;
        proof {
            assert(sofar.push(c) =~= prefix + v@.subrange(from as int, j as int));
            assert(digits_val(sofar.push(c)) == digits_val(sofar) * 10 + digit_val(c)) by {
                assert(sofar.push(c).drop_last() =~= sofar);
                assert(sofar.push(c).last() == c);
            }
        }
    }
    acc
}

/// Parses the wire decimal grammar: digits, optionally a dot and more
/// digits. Exactly the valid strings within the digit budget succeed; the
/// error names whether the input was empty, malformed, or too long.
pub fn parse_decimal(s: &str) -> (r: Result<Decimal, DecimalError>)
    ensures
        r is Ok <==> valid_decimal(s@) && dec_digit_count(s@) <= MAX_DECIMAL_DIGITS,
        r is Ok ==> (r->Ok_0).mantissa == dec_mantissa(s@) && (r->Ok_0).scale == dec_scale(s@)
            && (r->Ok_0).wf(),
        r == Result::<Decimal, DecimalError>::Err(DecimalError::Empty) <==> s@.len() == 0,
        r == Result::<Decimal, DecimalError>::Err(DecimalError::TooLong) <==> valid_decimal(s@)
            && dec_digit_count(s@) > MAX_DECIMAL_DIGITS,
        r == Result::<Decimal, DecimalError>::Err(DecimalError::Invalid) <==> s@.len() > 0
            && !valid_decimal(s@),
{
    let v = str_to_chars(s);
    let n = v.len();
    if n == 0 {
        proof {
            assert(forall|i: int| !dot_split_at(s@, i));
        }
        return Err(DecimalError::Empty);
    }
    let mut i: usize = 0;
    while i < n && v[i] >= '0' && v[i] <= '9'
        invariant
            n == v@.len(),
            v@ == s@,
            i <= n,
            forall|k: int| 0 <= k < i ==> is_dec_digit(#[trigger] s@[k]),
        decreases n - i,
    {
        i = i + 1;
    }
    if i == 0 {
        proof {
            assert(!is_dec_digit(s@[0]));
            assert forall|j: int| !dot_split_at(s@, j) by {
                if dot_split_at(s@, j) {
                    assert(is_dec_digit(s@.take(j)[0]));
                }
            }
        }
        return Err(DecimalError::Invalid);
    }
    if i == n {
        proof {
            assert(all_digits(s@));
        }
        if n > MAX_DECIMAL_DIGITS {
            return Err(DecimalError::TooLong);
        }
        proof {
            assert(v@.subrange(0, n as int) =~= s@);
            assert(Seq::<char>::empty() + v@.subrange(0, n as int) =~= s@);
            lemma_digits_val_bound(s@);
            lemma_pow10_mono(s@.len(), MAX_DECIMAL_DIGITS as nat);
        }
        let mantissa = accumulate_digits(&v, 0, n, 0, Ghost(Seq::empty()));
        return Ok(Decimal { mantissa, scale: 0 });
    }
    // A non-digit stopped the scan at i, with 1 <= i < n.
    let c = v[i];
    proof {
        assert(!(c >= '0' && c <= '9'));
        assert(!is_dec_digit(s@[i as int]));
        assert(!all_digits(s@));
    }
    if c != '.' {
        proof {
            assert forall|j: int| !dot_split_at(s@, j) by {
                if dot_split_at(s@, j) {
                    if j < i {
                        assert(is_dec_digit(s@[j]));
                    } else if j > i {
                        assert(is_dec_digit(s@.take(j)[i as int]));
                    }
                }
            }
        }
        return Err(DecimalError::Invalid);
    }
    let mut j = i + 1;
    while j < n && v[j] >= '0' && v[j] <= '9'
        invariant
            n == v@.len(),
            v@ == s@,
            i + 1 <= j <= n,
            i < n,
            s@[i as int] == '.',
            !is_dec_digit(s@[i as int]),
            forall|k: int| 0 <= k < i ==> is_dec_digit(#[trigger] s@[k]),
            forall|k: int| i < k < j ==> is_dec_digit(#[trigger] s@[k]),
        decreases n - j,
    {
        j = j + 1;
    }
    if j < n || j == i + 1 {
        // Either a second non-digit, or no fraction digit after the dot.
        proof {
            assert forall|p: int| !dot_split_at(s@, p) by {
                if dot_split_at(s@, p) {
                    if p < i {
                        assert(is_dec_digit(s@[p]));
                    } else if p > i {
                        assert(is_dec_digit(s@.take(p)[i as int]));
                    } else {
                        if j < n {
                            assert(is_dec_digit(s@.skip(i + 1)[j - i - 1]));
                        }
                    }
                }
            }
        }
        return Err(DecimalError::Invalid);
    }
    proof {
        assert(all_digits(s@.take(i as int)));
        assert(all_digits(s@.skip(i as int + 1))) by {
            assert(forall|k: int|
                0 <= k < s@.skip(i as int + 1).len() ==> is_dec_digit(
                    #[trigger] s@.skip(i as int + 1)[k]));
        }
        assert(dot_split_at(s@, i as int));
        lemma_dec_spec_at(s@, i as int);
    }
    if n - 1 > MAX_DECIMAL_DIGITS {
        return Err(DecimalError::TooLong);
    }
    proof {
        assert(v@.subrange(0, i as int) =~= s@.take(i as int));
        assert(Seq::<char>::empty() + v@.subrange(0, i as int) =~= s@.take(i as int));
        lemma_digits_val_bound(s@.take(i as int));
        lemma_pow10_mono(i as nat, MAX_DECIMAL_DIGITS as nat);
    }
    let int_part = accumulate_digits(&v, 0, i, 0, Ghost(Seq::empty()));
    proof {
        assert(v@.subrange(i as int + 1, n as int) =~= s@.skip(i as int + 1));
        assert(s@.take(i as int) + v@.subrange(i as int + 1, n as int)
            =~= s@.take(i as int) + s@.skip(i as int + 1));
    }
    let mantissa = accumulate_digits(&v, i + 1, n, int_part, Ghost(s@.take(i as int)));
    let scale: u32 = (n - 1 - i) as u32;
    proof {
        let whole = s@.take(i as int) + s@.skip(i as int + 1);
        assert(all_digits(whole));
        lemma_digits_val_bound(whole);
        lemma_pow10_mono(whole.len(), MAX_DECIMAL_DIGITS as nat);
    }
    Ok(Decimal { mantissa, scale })
}

/// A short human-readable description of a decimal parse failure.
pub open spec fn decimal_error_text(e: DecimalError) -> Seq<char> {
    match e {
        DecimalError::Empty => "empty string"@,
        DecimalError::Invalid => "not a decimal number"@,
        DecimalError::TooLong => "too many digits"@,
    }
}

impl DecimalError {
    /// A short human-readable description of the failure.
    pub fn message_str(&self) -> (r: &'static str)
        ensures
            r@ == decimal_error_text(*self),
    {
        match self {
            DecimalError::Empty => "empty string",
            DecimalError::Invalid => "not a decimal number",
            DecimalError::TooLong => "too many digits",
        }
    }
}

} // verus!
