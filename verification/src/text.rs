//! Decimal rendering of fixed-point numbers, used to build the human-readable
//! details and reasons that checks and decisions carry.

use vstd::prelude::*;

verus! {

/// The character for a decimal digit.
pub open spec fn digit_char(d: nat) -> char {
    if d == 0 { '0' }
    else if d == 1 { '1' }
    else if d == 2 { '2' }
    else if d == 3 { '3' }
    else if d == 4 { '4' }
    else if d == 5 { '5' }
    else if d == 6 { '6' }
    else if d == 7 { '7' }
    else if d == 8 { '8' }
    else { '9' }
}

/// Decimal digits of `n`, most significant first, without leading zeros.
pub open spec fn decimal_digits(n: nat) -> Seq<char>
    decreases n,
{
    if n < 10 {
        seq![digit_char(n)]
    } else {
        decimal_digits(n / 10).push(digit_char(n % 10))
    }
}

/// `units` hundredths rendered with exactly two decimals, as `{:.2}` prints.
pub open spec fn fixed2_text(units: nat) -> Seq<char> {
    decimal_digits(units / 100) + seq!['.', digit_char((units / 10) % 10), digit_char(units % 10)]
}

/// `units` tenths rendered with exactly one decimal, as `{:.1}` prints.
pub open spec fn fixed1_text(units: nat) -> Seq<char> {
    decimal_digits(units / 10) + seq!['.', digit_char(units % 10)]
}

/// A micro-dollar amount rounded half up to whole cents.
pub open spec fn cents_of(micro: nat) -> nat {
    (micro + 5000) / 10000
}

/// A micro-dollar amount as a dollar figure with two decimals and a leading `$`.
pub open spec fn usd_text(micro: nat) -> Seq<char> {
    seq!['$'] + fixed2_text(cents_of(micro))
}

fn digit_str(d: u64) -> (r: &'static str)
    requires
        d < 10,
    ensures
        r@ == seq![digit_char(d as nat)],
{
    if d == 0 {
        proof { reveal_strlit("0"); }
        "0"
    } else if d == 1 {
        proof { reveal_strlit("1"); }
        "1"
    } else if d == 2 {
        proof { reveal_strlit("2"); }
        "2"
    } else if d == 3 {
        proof { reveal_strlit("3"); }
        "3"
    } else if d == 4 {
        proof { reveal_strlit("4"); }
        "4"
    } else if d == 5 {
        proof { reveal_strlit("5"); }
        "5"
    } else if d == 6 {
        proof { reveal_strlit("6"); }
        "6"
    } else if d == 7 {
        proof { reveal_strlit("7"); }
        "7"
    } else if d == 8 {
        proof { reveal_strlit("8"); }
        "8"
    } else {
        proof { reveal_strlit("9"); }
        "9"
    }
}

/// Appends the decimal digits of `n`.
pub fn push_decimal(s: &mut String, n: u64)
    ensures
        final(s)@ == old(s)@ + decimal_digits(n as nat),
    decreases n,
{
    if n >= 10 {
        push_decimal(s, n / 10);
        s.append(digit_str(n % 10));
        assert(s@ =~= old(s)@ + decimal_digits(n as nat));
    } else {
        s.append(digit_str(n));
    }
}

/// Appends `units` hundredths with two decimals.
pub fn push_fixed2(s: &mut String, units: u64)
    ensures
        final(s)@ == old(s)@ + fixed2_text(units as nat),
{
    push_decimal(s, units / 100);
    proof { reveal_strlit("."); }
    s.append(".");
    s.append(digit_str((units / 10) % 10));
    s.append(digit_str(units % 10));
    assert(s@ =~= old(s)@ + fixed2_text(units as nat));
}

/// Appends `units` tenths with one decimal.
pub fn push_fixed1(s: &mut String, units: u64)
    ensures
        final(s)@ == old(s)@ + fixed1_text(units as nat),
{
    push_decimal(s, units / 10);
    proof { reveal_strlit("."); }
    s.append(".");
    s.append(digit_str(units % 10));
    assert(s@ =~= old(s)@ + fixed1_text(units as nat));
}

/// Rounds a micro-dollar amount half up to whole cents.
pub fn cents(micro: u64) -> (r: u64)
    ensures
        r as nat == cents_of(micro as nat),
{
    let whole = micro / 10000;
    if micro % 10000 >= 5000 {
        whole + 1
    } else {
        whole
    }
}

/// Appends a micro-dollar amount as `$` and dollars with two decimals.
pub fn push_usd(s: &mut String, micro: u64)
    ensures
        final(s)@ == old(s)@ + usd_text(micro as nat),
{
    proof { reveal_strlit("$"); }
    s.append("$");
    push_fixed2(s, cents(micro));
    assert(s@ =~= old(s)@ + usd_text(micro as nat));
}

/// Whether a character is an ASCII decimal digit.
pub open spec fn is_digit(c: char) -> bool {
    '0' <= c <= '9'
}

/// The value of a string of decimal digits.
pub open spec fn digits_value(s: Seq<char>) -> nat
    decreases s.len(),
{
    if s.len() == 0 {
        0
    } else {
        digits_value(s.drop_last()) * 10 + (s.last() as nat - '0' as nat) as nat
    }
}

/// A text without its leading `+`, if it has one.
pub open spec fn unsigned_part(s: Seq<char>) -> Seq<char> {
    if s.len() > 0 && s[0] == '+' { s.drop_first() } else { s }
}

/// The `u64` a text denotes, as `str::parse::<u64>` reads it: an optional `+`
/// followed by one or more decimal digits whose value fits in 64 bits.
pub open spec fn u64_text_value(s: Seq<char>) -> Option<u64> {
    let d = unsigned_part(s);
    if d.len() > 0 && (forall|i: int| 0 <= i < d.len() ==> is_digit(#[trigger] d[i]))
        && digits_value(d) <= u64::MAX {
        Some(digits_value(d) as u64)
    } else {
        None
    }
}

proof fn lemma_digits_value_step(s: Seq<char>, i: int)
    requires
        0 <= i < s.len(),
    ensures
        digits_value(s.take(i + 1)) == digits_value(s.take(i)) * 10 + (s[i] as nat - '0' as nat) as nat,
{
    assert(s.take(i + 1).drop_last() =~= s.take(i));
}

proof fn lemma_digits_value_grows(s: Seq<char>, i: int, j: int)
    requires
        0 <= i <= j <= s.len(),
        forall|k: int| 0 <= k < s.len() ==> is_digit(#[trigger] s[k]),
    ensures
        digits_value(s.take(i)) <= digits_value(s.take(j)),
    decreases j - i,
{
    if i < j {
        lemma_digits_value_grows(s, i, j - 1);
        lemma_digits_value_step(s, j - 1);
    }
}

/// Parses a text as a `u64` (see [`u64_text_value`]).
pub fn parse_u64(text: &str) -> (r: Option<u64>)
    ensures
        r == u64_text_value(text@),
{
    let n = text.unicode_len();
    let mut i: usize = 0;
    if n > 0 && text.get_char(0) == '+' {
        i = 1;
    }
    let start = i;
    let ghost d = unsigned_part(text@);
    assert(d =~= text@.skip(start as int));
    if start == n {
        return None;
    }
    let mut value: u64 = 0;
    while i < n
        invariant
            start <= i <= n,
            n == text@.len(),
            d == text@.skip(start as int),
            d == unsigned_part(text@),
            forall|k: int| 0 <= k < i - start ==> is_digit(#[trigger] d[k]),
            value as nat == digits_value(d.take(i - start)),
        decreases n - i,
    {
        let c = text.get_char(i);
        assert(c == d[i - start]);
        if c < '0' || c > '9' {
            assert(!is_digit(d[i - start]));
            return None;
        }
        let digit = (c as u32 - '0' as u32) as u64;
        proof { lemma_digits_value_step(d, i - start); }
        if value > (u64::MAX - digit) / 10 {
            proof {
                assert(digits_value(d.take(i - start + 1)) > u64::MAX) by (nonlinear_arith)
                    requires
                        digits_value(d.take(i - start + 1)) == value * 10 + digit,
                        value > (u64::MAX - digit) / 10,
                        digit <= 9;
                if forall|k: int| 0 <= k < d.len() ==> is_digit(#[trigger] d[k]) {
                    lemma_digits_value_grows(d, i - start + 1, d.len() as int);
                    assert(d.take(d.len() as int) =~= d);
                }
            }
            return None;
        }
        value = value * 10 + digit;
        i = i + 1;
    }
    assert(d.take(d.len() as int) =~= d);
    Some(value)
}

/// Appends the decimal digits of a 128-bit `n`.
pub fn push_decimal_wide(s: &mut String, n: u128)
    ensures
        final(s)@ == old(s)@ + decimal_digits(n as nat),
    decreases n,
{
    if n >= 10 {
        push_decimal_wide(s, n / 10);
        s.append(digit_str((n % 10) as u64));
        assert(s@ =~= old(s)@ + decimal_digits(n as nat));
    } else {
        s.append(digit_str(n as u64));
    }
}

/// Appends a 128-bit micro-dollar amount as `$` and dollars with two
/// decimals.
pub fn push_usd_wide(s: &mut String, micro: u128)
    ensures
        final(s)@ == old(s)@ + usd_text(micro as nat),
{
    let c: u128 = if micro % 10000 >= 5000 { micro / 10000 + 1 } else { micro / 10000 };
    assert(c as nat == cents_of(micro as nat));
    proof { reveal_strlit("$"); reveal_strlit("."); }
    s.append("$");
    push_decimal_wide(s, c / 100);
    s.append(".");
    s.append(digit_str(((c / 10) % 10) as u64));
    s.append(digit_str((c % 10) as u64));
    assert(s@ =~= old(s)@ + usd_text(micro as nat));
}

/// A hex text without its `0x` prefix, if it has one.
pub open spec fn without_hex_prefix(s: Seq<char>) -> Seq<char> {
    if s.len() >= 2 && s[0] == '0' && s[1] == 'x' { s.skip(2) } else { s }
}

/// A hex text without its `0x` prefix, if it has one.
pub fn strip_hex_prefix(s: &str) -> (r: String)
    ensures
        r@ == without_hex_prefix(s@),
{
    let n = s.unicode_len();
    if n >= 2 && s.get_char(0) == '0' && s.get_char(1) == 'x' {
        String::from_str(s.substring_char(2, n))
    } else {
        String::from_str(s)
    }
}

/// A text without its trailing `0` characters.
pub open spec fn without_trailing_zeros(s: Seq<char>) -> Seq<char>
    decreases s.len(),
{
    if s.len() > 0 && s.last() == '0' { without_trailing_zeros(s.drop_last()) } else { s }
}

/// The six decimals of a millionth count below one million, zero-padded.
pub open spec fn six_decimals(f: nat) -> Seq<char> {
    seq![
        digit_char((f / 100000) % 10),
        digit_char((f / 10000) % 10),
        digit_char((f / 1000) % 10),
        digit_char((f / 100) % 10),
        digit_char((f / 10) % 10),
        digit_char(f % 10),
    ]
}

/// A micro-dollar amount as a plain number of dollars, as `f64`'s `Display`
/// prints it: whole dollars, then a point and the decimals without trailing
/// zeros when there are any (`5000.5`, `2`).
pub open spec fn amount_text(micro: nat) -> Seq<char> {
    if micro % 1_000_000 == 0 {
        decimal_digits(micro / 1_000_000)
    } else {
        decimal_digits(micro / 1_000_000) + seq!['.'] + without_trailing_zeros(six_decimals(micro % 1_000_000))
    }
}

/// Appends a micro-dollar amount as a plain number of dollars (see
/// [`amount_text`]).
pub fn push_amount(s: &mut String, micro: u64)
    ensures
        final(s)@ == old(s)@ + amount_text(micro as nat),
{
    push_decimal(s, micro / 1_000_000);
    let f = micro % 1_000_000;
    if f == 0 {
        return;
    }
    let d0 = (f / 100000) % 10;
    let d1 = (f / 10000) % 10;
    let d2 = (f / 1000) % 10;
    let d3 = (f / 100) % 10;
    let d4 = (f / 10) % 10;
    let d5 = f % 10;
    assert(!(d0 == 0 && d1 == 0 && d2 == 0 && d3 == 0 && d4 == 0 && d5 == 0)) by (nonlinear_arith)
        requires
            0 < f < 1_000_000,
            d0 == (f / 100000) % 10,
            d1 == (f / 10000) % 10,
            d2 == (f / 1000) % 10,
            d3 == (f / 100) % 10,
            d4 == (f / 10) % 10,
            d5 == f % 10;
    let ghost digits = six_decimals(f as nat);
    assert(digits == seq![
        digit_char(d0 as nat), digit_char(d1 as nat), digit_char(d2 as nat),
        digit_char(d3 as nat), digit_char(d4 as nat), digit_char(d5 as nat),
    ]);
    let keep: u64 = if d5 != 0 { 6 } else if d4 != 0 { 5 } else if d3 != 0 { 4 } else if d2 != 0 { 3 } else if d1 != 0 { 2 } else { 1 };
    proof {
        reveal_with_fuel(without_trailing_zeros, 7);
        assert(digits.take(5) =~= digits.drop_last());
        assert(digits.take(4) =~= digits.take(5).drop_last());
        assert(digits.take(3) =~= digits.take(4).drop_last());
        assert(digits.take(2) =~= digits.take(3).drop_last());
        assert(digits.take(1) =~= digits.take(2).drop_last());
        assert(without_trailing_zeros(digits) == digits.take(keep as int));
    }
    proof { reveal_strlit("."); }
    s.append(".");
    s.append(digit_str(d0));
    if keep >= 2 {
        s.append(digit_str(d1));
    }
    if keep >= 3 {
        s.append(digit_str(d2));
    }
    if keep >= 4 {
        s.append(digit_str(d3));
    }
    if keep >= 5 {
        s.append(digit_str(d4));
    }
    if keep >= 6 {
        s.append(digit_str(d5));
    }
    assert(s@ =~= old(s)@ + amount_text(micro as nat));
}

} // verus!
