//! Decimal text to fixed point and back.
//!
//! A decimal is a run of digits with at most one point in it and at least
//! one digit: `"12"`, `"12.5"`, `"0.00100000"`, `".5"` and `"7."` are
//! decimals; `""`, `"."`, `"-1"` and `"1e3"` are not. Its value is counted
//! in units of 10^-8; fractional digits past the eighth are dropped.

use vstd::prelude::*;
use crate::text::{decimal_digits, digit, digit_char, push_decimal, string_from_chars};

verus! {

/// `c` is one of `0` to `9`.
pub open spec fn is_digit(c: char) -> bool {
    '0' <= c <= '9'
}

/// The number a digit character stands for.
pub open spec fn digit_value(c: char) -> int {
    c as int - '0' as int
}

/// Every character is a digit.
pub open spec fn all_digits(s: Seq<char>) -> bool {
    forall|i: int| 0 <= i < s.len() ==> is_digit(#[trigger] s[i])
}

/// The number a run of digits reads as.
pub open spec fn digits_value(s: Seq<char>) -> int
    decreases s.len(),
{
    if s.len() == 0 {
        0
    } else {
        digits_value(s.drop_last()) * 10 + digit_value(s.last())
    }
}

/// Units of the fractional digits `frac`, the first of which counts
/// `weight` units and each following one a tenth of the one before.
pub open spec fn frac_units(frac: Seq<char>, weight: int) -> int
    decreases frac.len(),
{
    if frac.len() == 0 {
        0
    } else {
        digit_value(frac[0]) * weight + frac_units(frac.drop_first(), weight / 10)
    }
}

/// Index of the first point in `s`, or the length of `s` if it has none.
pub open spec fn point_index(s: Seq<char>) -> int
    decreases s.len(),
{
    if s.len() == 0 {
        0
    } else if s[0] == '.' {
        0
    } else {
        1 + point_index(s.drop_first())
    }
}

/// The digits before the point.
pub open spec fn whole_part(s: Seq<char>) -> Seq<char> {
    s.take(point_index(s))
}

/// The digits after the point.
pub open spec fn frac_part(s: Seq<char>) -> Seq<char> {
    if point_index(s) < s.len() {
        s.skip(point_index(s) + 1)
    } else {
        Seq::empty()
    }
}

/// `s` is a decimal.
pub open spec fn is_decimal(s: Seq<char>) -> bool {
    &&& all_digits(whole_part(s))
    &&& all_digits(frac_part(s))
    &&& whole_part(s).len() + frac_part(s).len() > 0
}

/// The value of a decimal, in units.
pub open spec fn decimal_units(s: Seq<char>) -> int {
    digits_value(whole_part(s)) * 100_000_000 + frac_units(frac_part(s), 10_000_000)
}

/// What parsing `s` gives: its units if it is a decimal whose value fits in
/// 64 bits, else nothing.
pub open spec fn parsed(s: Seq<char>) -> Option<u64> {
    if is_decimal(s) && decimal_units(s) <= u64::MAX {
        Some(decimal_units(s) as u64)
    } else {
        None
    }
}

proof fn lemma_point_index_bounds(s: Seq<char>)
    ensures
        0 <= point_index(s) <= s.len(),
        point_index(s) < s.len() ==> s[point_index(s)] == '.',
        forall|j: int| 0 <= j < point_index(s) ==> #[trigger] s[j] != '.',
    decreases s.len(),
{
    if s.len() > 0 && s[0] != '.' {
        let rest = s.drop_first();
        lemma_point_index_bounds(rest);
        assert forall|j: int| 0 <= j < point_index(s) implies #[trigger] s[j] != '.' by {
            if j > 0 {
                assert(rest[j - 1] == s[j]);
            }
        }
    }
}

/// The first point is where no earlier character is a point.
proof fn lemma_point_index_is(s: Seq<char>, at: int)
    requires
        0 <= at <= s.len(),
        forall|j: int| 0 <= j < at ==> #[trigger] s[j] != '.',
        at < s.len() ==> s[at] == '.',
    ensures
        point_index(s) == at,
    decreases s.len(),
{
    if s.len() > 0 && at > 0 {
        let rest = s.drop_first();
        assert(s[0] != '.');
        assert forall|j: int| 0 <= j < at - 1 implies #[trigger] rest[j] != '.' by {
            assert(rest[j] == s[j + 1]);
        }
        lemma_point_index_is(rest, at - 1);
    }
}

proof fn lemma_digits_value_nonnegative(s: Seq<char>)
    requires
        all_digits(s),
    ensures
        digits_value(s) >= 0,
    decreases s.len(),
{
    if s.len() > 0 {
        assert(is_digit(s.last()));
        lemma_digits_value_nonnegative(s.drop_last());
    }
}

proof fn lemma_digits_value_grows(s: Seq<char>, upto: int)
    requires
        all_digits(s),
        0 <= upto <= s.len(),
    ensures
        0 <= digits_value(s.take(upto)) <= digits_value(s),
    decreases s.len() - upto,
{
    lemma_digits_value_nonnegative(s.take(upto));
    if upto == s.len() {
        assert(s.take(upto) =~= s);
    } else {
        lemma_digits_value_grows(s, upto + 1);
        assert(s.take(upto + 1).drop_last() =~= s.take(upto));
        assert(is_digit(s[upto]));
    }
}

proof fn lemma_frac_units_bounds(frac: Seq<char>, weight: int)
    requires
        all_digits(frac),
        weight == 10_000_000 || weight == 1_000_000 || weight == 100_000 || weight == 10_000
            || weight == 1_000 || weight == 100 || weight == 10 || weight == 1 || weight == 0,
    ensures
        0 <= frac_units(frac, weight) <= 10 * weight,
        weight == 0 ==> frac_units(frac, weight) == 0,
    decreases frac.len(),
{
    if frac.len() > 0 {
        assert(is_digit(frac[0]));
        let rest = frac.drop_first();
        assert forall|i: int| 0 <= i < rest.len() implies is_digit(#[trigger] rest[i]) by {
            assert(rest[i] == frac[i + 1]);
        }
        lemma_frac_units_bounds(rest, weight / 10);
    }
}

/// Returns the number a digit character stands for, if it is one.
pub fn digit_of(c: char) -> (r: Option<u64>)
    ensures
        r is Some <==> is_digit(c),
        r matches Some(d) ==> d == digit_value(c) && d < 10,
{
    if '0' <= c && c <= '9' {
        Some((c as u64) - ('0' as u64))
    } else {
        None
    }
}

/// Parses a decimal into units.
pub fn parse_decimal(text: &str) -> (r: Option<u64>)
    ensures
        r == parsed(text@),
{
    let n = text.unicode_len();
    let ghost s = text@;
    // Whole part: digits up to the first point.
    let mut i: usize = 0;
    let mut whole: u128 = 0;
    let mut overflow = false;
    let mut seen_point = false;
    while i < n && !seen_point
        invariant
            n == s.len(),
            s == text@,
            i <= n,
            !seen_point ==> forall|j: int| 0 <= j < i ==> #[trigger] s[j] != '.',
            !seen_point ==> all_digits(s.take(i as int)),
            !seen_point && !overflow ==> whole == digits_value(s.take(i as int)) && whole <= u64::MAX,
            !seen_point && overflow ==> digits_value(s.take(i as int)) > u64::MAX,
            seen_point ==> i < n && s[i as int] == '.' && (forall|j: int|
                0 <= j < i ==> #[trigger] s[j] != '.') && all_digits(s.take(i as int)) && (!overflow
                ==> whole == digits_value(s.take(i as int)) && whole <= u64::MAX) && (overflow
                ==> digits_value(s.take(i as int)) > u64::MAX),
        decreases n - i + (if seen_point { 0int } else { 1int }),
    {
        let c = text.get_char(i);
        if c == '.' {
            seen_point = true;
        } else {
            match digit_of(c) {
                Some(d) => {
                    proof {
                        assert(s.take(i + 1).drop_last() =~= s.take(i as int));
                        assert(s.take(i + 1).last() == c);
                        assert forall|j: int| 0 <= j < i + 1 implies is_digit(
                            #[trigger] s.take(i + 1)[j],
                        ) by {
                            if j < i {
                                assert(s.take(i as int)[j] == s[j]);
                            }
                        }
                        lemma_digits_value_nonnegative(s.take(i as int));
                    }
                    if !overflow {
                        whole = whole * 10 + d as u128;
                        if whole > u64::MAX as u128 {
                            overflow = true;
                        }
                    }
                    i = i + 1;
                },
                None => {
                    proof {
                        // A character that is neither a digit nor the first
                        // point lies in the whole part or after the point.
                        lemma_point_index_bounds(s);
                        let p = point_index(s);
                        if p > i {
                            assert(whole_part(s)[i as int] == c);
                        } else {
                            assert(s[p] == '.');
                            assert(false);
                        }
                    }
                    return None;
                },
            }
        }
    }
    proof {
        lemma_point_index_is(s, i as int);
        assert(whole_part(s) =~= s.take(i as int));
    }
    // Fractional part: digits after the point.
    let ghost frac = frac_part(s);
    let start: usize = if seen_point { i + 1 } else { i };
    proof {
        if seen_point {
            assert(frac =~= s.skip(start as int));
        } else {
            assert(i == n);
            assert(frac =~= s.skip(start as int));
        }
    }
    let mut k: usize = start;
    let mut units: u64 = 0;
    let mut weight: u64 = 10_000_000;
    while k < n
        invariant
            n == s.len(),
            s == text@,
            start <= k <= n,
            frac == s.skip(start as int),
            frac == frac_part(s),
            all_digits(s.subrange(start as int, k as int)),
            units + frac_units(s.skip(k as int), weight as int) == frac_units(frac, 10_000_000),
            units + 10 * weight <= 100_000_000,
            weight == 10_000_000 || weight == 1_000_000 || weight == 100_000 || weight == 10_000
                || weight == 1_000 || weight == 100 || weight == 10 || weight == 1 || weight == 0,
        decreases n - k,
    {
        let c = text.get_char(k);
        match digit_of(c) {
            Some(d) => {
                proof {
                    assert(s.skip(k as int)[0] == c);
                    assert(s.skip(k as int).drop_first() =~= s.skip(k + 1));
                    assert forall|j: int| 0 <= j < k + 1 - start implies is_digit(
                        #[trigger] s.subrange(start as int, k + 1)[j],
                    ) by {
                        if j < k - start {
                            assert(s.subrange(start as int, k as int)[j] == s[start + j]);
                        }
                    }
                    assert(d * weight <= 9 * weight) by (nonlinear_arith)
                        requires
                            d <= 9,
                            weight >= 0,
                    ;
                }
                units = units + d * weight;
                weight = weight / 10;
                k = k + 1;
            },
            None => {
                proof {
                    assert(frac[k - start] == c);
                    assert(!is_digit(frac[k - start]));
                    assert(!all_digits(frac_part(s)));
                }
                return None;
            },
        }
    }
    proof {
        assert(s.skip(n as int) =~= Seq::<char>::empty());
        assert(s.subrange(start as int, n as int) =~= frac);
    }
    if i + (n - start) == 0 {
        return None;
    }
    if overflow {
        proof {
            lemma_frac_units_bounds(frac, 10_000_000);
        }
        return None;
    }
    let total: u128 = whole * 100_000_000 + units as u128;
    if total > u64::MAX as u128 {
        None
    } else {
        Some(total as u64)
    }
}

/// The last `width` decimal digits of `n`, with leading zeros.
pub open spec fn padded_digits(n: nat, width: nat) -> Seq<char>
    decreases width,
{
    if width == 0 {
        Seq::empty()
    } else {
        padded_digits(n / 10, (width - 1) as nat).push(digit_char(n % 10))
    }
}

/// `s` without its trailing zeros.
pub open spec fn without_trailing_zeros(s: Seq<char>) -> Seq<char>
    decreases s.len(),
{
    if s.len() > 0 && s.last() == '0' {
        without_trailing_zeros(s.drop_last())
    } else {
        s
    }
}

/// An amount written with all eight decimals: `150000000` is `1.50000000`.
pub open spec fn fixed_text(units: u128) -> Seq<char> {
    decimal_digits((units / 100_000_000) as nat) + seq!['.'] + padded_digits(
        (units % 100_000_000) as nat,
        8,
    )
}

/// An amount written as short as it goes: `150000000` is `1.5`, and
/// `1000000000` is `10`.
pub open spec fn short_text(units: u128) -> Seq<char> {
    if units % 100_000_000 == 0 {
        decimal_digits((units / 100_000_000) as nat)
    } else {
        decimal_digits((units / 100_000_000) as nat) + seq!['.'] + without_trailing_zeros(
            padded_digits((units % 100_000_000) as nat, 8),
        )
    }
}

/// Appends the last `width` decimal digits of `n` to `out`.
pub fn push_padded(out: &mut Vec<char>, n: u128, width: u8)
    ensures
        final(out)@ == old(out)@ + padded_digits(n as nat, width as nat),
    decreases width,
{
    if width > 0 {
        push_padded(out, n / 10, width - 1);
        out.push(digit(n % 10));
    }
}

/// Appends an amount with all eight decimals to `out`.
pub fn push_fixed(out: &mut Vec<char>, units: u128)
    ensures
        final(out)@ == old(out)@ + fixed_text(units),
{
    push_decimal(out, units / 100_000_000);
    out.push('.');
    push_padded(out, units % 100_000_000, 8);
}

/// Writes an amount with all eight decimals.
pub fn format_fixed(units: u128) -> (r: String)
    ensures
        r@ == fixed_text(units),
{
    let mut out: Vec<char> = Vec::new();
    push_fixed(&mut out, units);
    string_from_chars(&out)
}

/// Writes an amount as short as it goes.
pub fn format_short(units: u128) -> (r: String)
    ensures
        r@ == short_text(units),
{
    let mut out: Vec<char> = Vec::new();
    push_decimal(&mut out, units / 100_000_000);
    if units % 100_000_000 != 0 {
        let mut frac: Vec<char> = Vec::new();
        push_padded(&mut frac, units % 100_000_000, 8);
        let ghost full = frac@;
        while frac.len() > 0 && frac[frac.len() - 1] == '0'
            invariant
                without_trailing_zeros(frac@) == without_trailing_zeros(full),
            decreases frac.len(),
        {
            frac.pop();
        }
        out.push('.');
        let mut i: usize = 0;
        while i < frac.len()
            invariant
                i <= frac.len(),
                out@ == decimal_digits((units / 100_000_000) as nat) + seq!['.'] + frac@.take(i as int),
            decreases frac.len() - i,
        {
            out.push(frac[i]);
            proof {
                assert(frac@.take(i + 1) =~= frac@.take(i as int).push(frac@[i as int]));
            }
            i = i + 1;
        }
        proof {
            assert(frac@.take(i as int) =~= frac@);
        }
    }
    string_from_chars(&out)
}

// ----------------------------------------------------------------------
// Laws
// ----------------------------------------------------------------------

/// A digit character is a digit and stands for the digit it was made of.
pub proof fn lemma_digit_char(d: nat)
    requires
        d < 10,
    ensures
        is_digit(digit_char(d)),
        digit_value(digit_char(d)) == d,
        digit_char(d) != '.',
{
}

/// The decimal digits of a number are digits and read back as the number.
pub proof fn lemma_decimal_digits(n: nat)
    ensures
        decimal_digits(n).len() >= 1,
        all_digits(decimal_digits(n)),
        digits_value(decimal_digits(n)) == n,
    decreases n,
{
    let s = decimal_digits(n);
    if n < 10 {
        lemma_digit_char(n);
        assert(s.drop_last() =~= Seq::<char>::empty());
        assert(digits_value(s.drop_last()) == 0);
    } else {
        lemma_decimal_digits(n / 10);
        lemma_digit_char(n % 10);
        let head = decimal_digits(n / 10);
        assert(s.drop_last() =~= head);
        assert forall|i: int| 0 <= i < s.len() implies is_digit(#[trigger] s[i]) by {
            if i < head.len() {
                assert(s[i] == head[i]);
            }
        }
    }
}

/// Ten to the power of `k`.
pub open spec fn pow10(k: nat) -> nat
    decreases k,
{
    if k == 0 {
        1
    } else {
        10 * pow10((k - 1) as nat)
    }
}

/// One more fractional digit at the end: the digits before it count ten
/// times as much as they did alone.
pub proof fn lemma_frac_units_push(t: Seq<char>, c: char)
    ensures
        frac_units(t.push(c), pow10(t.len()) as int) == 10 * frac_units(
            t,
            pow10(t.len()) as int / 10,
        ) + digit_value(c),
    decreases t.len(),
{
    let k = t.len();
    let s = t.push(c);
    if k == 0 {
        assert(s.drop_first() =~= Seq::<char>::empty());
        assert(frac_units(s.drop_first(), 0) == 0);
        assert(pow10(0) == 1);
    } else {
        let rest = t.drop_first();
        let w = pow10(k) as int;
        let v = pow10((k - 1) as nat) as int;
        assert(w == 10 * v);
        assert(w / 10 == v);
        lemma_frac_units_push(rest, c);
        assert(s.drop_first() =~= rest.push(c));
        assert(s[0] == t[0]);
        assert(digit_value(t[0]) * w == 10 * (digit_value(t[0]) * v)) by (nonlinear_arith)
            requires
                w == 10 * v,
        ;
    }
}

/// Padded digits are digits and count, as a fraction, the number they
/// were made of.
pub proof fn lemma_padded_fraction(n: nat, width: nat)
    requires
        n < pow10(width),
    ensures
        padded_digits(n, width).len() == width,
        all_digits(padded_digits(n, width)),
        frac_units(padded_digits(n, width), pow10(width) as int / 10) == n,
    decreases width,
{
    if width > 0 {
        let head = padded_digits(n / 10, (width - 1) as nat);
        let c = digit_char(n % 10);
        let s = padded_digits(n, width);
        lemma_padded_fraction(n / 10, (width - 1) as nat);
        lemma_digit_char(n % 10);
        lemma_frac_units_push(head, c);
        assert(s == head.push(c));
        assert(pow10(width) as int / 10 == pow10((width - 1) as nat));
        assert forall|i: int| 0 <= i < s.len() implies is_digit(#[trigger] s[i]) by {
            if i < head.len() {
                assert(s[i] == head[i]);
            }
        }
    }
}

/// Writing and reading agree: an amount written with all eight decimals
/// parses to the same amount.
pub proof fn lemma_fixed_text_parses(units: u64)
    ensures
        parsed(fixed_text(units as u128)) == Some(units),
{
    let whole = (units / 100_000_000) as nat;
    let fraction = (units % 100_000_000) as nat;
    let head = decimal_digits(whole);
    let tail = padded_digits(fraction, 8);
    let s = fixed_text(units as u128);
    lemma_decimal_digits(whole);
    assert(pow10(8) == 100_000_000) by {
        reveal_with_fuel(pow10, 9);
    }
    lemma_padded_fraction(fraction, 8);
    assert(s == head + seq!['.'] + tail);
    assert(s[head.len() as int] == '.');
    assert forall|j: int| 0 <= j < head.len() implies #[trigger] s[j] != '.' by {
        assert(s[j] == head[j]);
        assert(is_digit(head[j]));
    }
    lemma_point_index_is(s, head.len() as int);
    assert(whole_part(s) =~= head);
    assert(frac_part(s) =~= tail);
}

/// A zero at the end of a fraction counts nothing.
pub proof fn lemma_frac_units_trailing_zero(s: Seq<char>, weight: int)
    requires
        s.len() > 0,
        s.last() == '0',
    ensures
        frac_units(s, weight) == frac_units(s.drop_last(), weight),
    decreases s.len(),
{
    if s.len() == 1 {
        assert(s.drop_first() =~= Seq::<char>::empty());
        assert(s.drop_last() =~= Seq::<char>::empty());
        assert(s[0] == '0');
        assert(digit_value(s[0]) * weight == 0) by (nonlinear_arith)
            requires
                digit_value(s[0]) == 0,
        ;
        assert(frac_units(s.drop_first(), weight / 10) == 0);
        assert(frac_units(s, weight) == 0);
        assert(frac_units(s.drop_last(), weight) == 0);
    } else {
        let rest = s.drop_first();
        let front = s.drop_last();
        assert(rest.last() == s.last());
        lemma_frac_units_trailing_zero(rest, weight / 10);
        assert(front.drop_first() =~= rest.drop_last());
        assert(front[0] == s[0]);
        assert(frac_units(s, weight) == digit_value(s[0]) * weight + frac_units(rest, weight / 10));
        assert(frac_units(front, weight) == digit_value(front[0]) * weight + frac_units(
            front.drop_first(),
            weight / 10,
        ));
    }
}

/// A fraction without its trailing zeros is digits still and counts the same.
pub proof fn lemma_without_trailing_zeros(s: Seq<char>, weight: int)
    requires
        all_digits(s),
    ensures
        all_digits(without_trailing_zeros(s)),
        frac_units(without_trailing_zeros(s), weight) == frac_units(s, weight),
        frac_units(s, weight) != 0 ==> without_trailing_zeros(s).len() > 0,
    decreases s.len(),
{
    if s.len() > 0 && s.last() == '0' {
        let head = s.drop_last();
        assert forall|i: int| 0 <= i < head.len() implies is_digit(#[trigger] head[i]) by {
            assert(head[i] == s[i]);
        }
        lemma_without_trailing_zeros(head, weight);
        lemma_frac_units_trailing_zero(s, weight);
    }
}

/// Writing and reading agree: an amount written as short as it goes parses
/// to the same amount.
pub proof fn lemma_short_text_parses(units: u64)
    ensures
        parsed(short_text(units as u128)) == Some(units),
{
    let whole = (units / 100_000_000) as nat;
    let fraction = (units % 100_000_000) as nat;
    let head = decimal_digits(whole);
    let s = short_text(units as u128);
    lemma_decimal_digits(whole);
    if fraction == 0 {
        assert(s == head);
        assert forall|j: int| 0 <= j < head.len() implies #[trigger] s[j] != '.' by {
            assert(is_digit(head[j]));
        }
        lemma_point_index_is(s, head.len() as int);
        assert(whole_part(s) =~= head);
        assert(frac_part(s) =~= Seq::<char>::empty());
    } else {
        assert(pow10(8) == 100_000_000) by {
            reveal_with_fuel(pow10, 9);
        }
        lemma_padded_fraction(fraction, 8);
        let tail = without_trailing_zeros(padded_digits(fraction, 8));
        lemma_without_trailing_zeros(padded_digits(fraction, 8), 10_000_000);
        assert(s == head + seq!['.'] + tail);
        assert(s[head.len() as int] == '.');
        assert forall|j: int| 0 <= j < head.len() implies #[trigger] s[j] != '.' by {
            assert(s[j] == head[j]);
            assert(is_digit(head[j]));
        }
        lemma_point_index_is(s, head.len() as int);
        assert(whole_part(s) =~= head);
        assert(frac_part(s) =~= tail);
    }
}

} // verus!
