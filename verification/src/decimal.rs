//! Money as a count of hundredths.
//!
//! A `Decimal` is a figure that a user typed or a feed quoted; an `Amount`
//! is a figure computed from them and wide enough for any such result. Both
//! are exact: no rounding happens anywhere.

use vstd::prelude::*;
use vstd::arithmetic::div_mod::{lemma_basic_div, lemma_fundamental_div_mod_converse};
use crate::text::{
    append_digit, append_nat, chars_of, digit_char, digit_run, digit_value, digits_value,
    has_minus, is_digit, lemma_digit_char, lemma_digit_run, lemma_digits_value_below,
    lemma_digits_value_split, lemma_nat_digits, lemma_pow10_grows, nat_digits, pow10,
    scan_digits, sign_len, value_upto, ParseError, DIGITS_CAP,
};

verus! {

/// A price, a fee or a quote, in hundredths of the currency unit.
#[derive(Clone, Copy, Debug, PartialEq, Eq, Structural)]
pub struct Decimal {
    pub hundredths: i64,
}

/// A computed sum of money, in hundredths of the currency unit.
#[derive(Clone, Copy, Debug, PartialEq, Eq, Structural)]
pub struct Amount {
    pub hundredths: i128,
}

impl View for Decimal {
    type V = int;

    open spec fn view(&self) -> int {
        self.hundredths as int
    }
}

impl View for Amount {
    type V = int;

    open spec fn view(&self) -> int {
        self.hundredths as int
    }
}

/// The absolute value.
pub open spec fn magnitude(v: int) -> nat {
    if v < 0 {
        (-v) as nat
    } else {
        v as nat
    }
}

/// `"-"` below zero, else nothing.
pub open spec fn sign_text(v: int) -> Seq<char> {
    if v < 0 {
        seq!['-']
    } else {
        Seq::empty()
    }
}

/// A count of hundredths written with exactly two decimals: `9500` is
/// `"95.00"`, `-5` is `"-0.05"`.
pub open spec fn fixed_text(v: int) -> Seq<char> {
    let m = magnitude(v);
    sign_text(v) + nat_digits(m / 100) + seq![
        '.',
        digit_char(((m / 10) % 10) as int),
        digit_char((m % 10) as int),
    ]
}

/// A count of hundredths written with as few decimals as it needs:
/// `10000` is `"100"`, `10050` is `"100.5"`, `10025` is `"100.25"`.
pub open spec fn plain_text(v: int) -> Seq<char> {
    let m = magnitude(v);
    let whole = sign_text(v) + nat_digits(m / 100);
    if m % 100 == 0 {
        whole
    } else if m % 10 == 0 {
        whole + seq!['.', digit_char(((m / 10) % 10) as int)]
    } else {
        whole + seq!['.', digit_char(((m / 10) % 10) as int), digit_char((m % 10) as int)]
    }
}

/// A magnitude with the sign that the text starts with.
pub open spec fn with_sign_of(s: Seq<char>, m: nat) -> int {
    if has_minus(s) {
        -(m as int)
    } else {
        m as int
    }
}

/// `n` times ten to the power `k`. Where `k` is negative the result is
/// rounded to the nearest whole number, and a half is rounded up.
pub open spec fn scale_round(n: nat, k: int) -> nat {
    if k >= 0 {
        n * pow10(k as nat)
    } else {
        (((n + pow10((-k) as nat) / 2) as int) / (pow10((-k) as nat) as int)) as nat
    }
}

/// The exponent that a text writes from position `from` on: zero if the
/// text ends there, else `e` or `E`, an optional sign, and digits to the
/// end. `None` for anything else.
pub open spec fn exponent_at(s: Seq<char>, from: int) -> Option<int> {
    if from == s.len() {
        Some(0)
    } else if s[from] == 'e' || s[from] == 'E' {
        let signed = from + 1;
        let minus = signed < s.len() && s[signed] == '-';
        let digits = if signed < s.len() && (s[signed] == '+' || s[signed] == '-') {
            signed + 1
        } else {
            signed
        };
        let run = digit_run(s, digits);
        if run >= 1 && digits + run == s.len() {
            let m = digits_value(s.subrange(digits, s.len() as int));
            Some(
                if minus {
                    -(m as int)
                } else {
                    m as int
                },
            )
        } else {
            None
        }
    } else {
        None
    }
}

/// The count of hundredths that a text writes. The text is a decimal
/// number: an optional `+` or `-`, digits with an optional point before,
/// among or after them, and optionally an exponent. Its value is the digits
/// read as one number, shifted by the exponent and by the place of the
/// point. What lies beyond the hundredths is rounded, a half away from
/// zero. `None` for any other text.
pub open spec fn hundredths_of(s: Seq<char>) -> Option<int> {
    let start = sign_len(s);
    let whole = digit_run(s, start);
    let dot = start + whole;
    let point = dot < s.len() && s[dot] == '.';
    let frac = if point {
        digit_run(s, dot + 1)
    } else {
        0
    };
    let end = if point {
        dot + 1 + frac
    } else {
        dot
    };
    let digits = if point {
        s.subrange(start, dot) + s.subrange(dot + 1, end)
    } else {
        s.subrange(start, dot)
    };
    if whole + frac >= 1 {
        match exponent_at(s, end) {
            Some(x) => Some(with_sign_of(s, scale_round(digits_value(digits), x - frac + 2))),
            None => None,
        }
    } else {
        None
    }
}

/// The `Decimal` that a text writes, if it writes a count of hundredths
/// that fits.
pub open spec fn decimal_of(s: Seq<char>) -> Option<Decimal> {
    match hundredths_of(s) {
        Some(v) => if i64::MIN <= v <= i64::MAX {
            Some(Decimal { hundredths: v as i64 })
        } else {
            None
        },
        None => None,
    }
}

/// The absolute value of a count of hundredths.
fn magnitude_of(v: i128) -> (m: u128)
    ensures
        m == magnitude(v as int),
{
    if v < 0 {
        ((-(v + 1)) as u128) + 1
    } else {
        v as u128
    }
}

/// Appends sign and whole units.
fn append_whole(out: &mut String, v: i128, m: u128)
    requires
        m == magnitude(v as int),
    ensures
        final(out)@ == old(out)@ + sign_text(v as int) + nat_digits((m / 100) as nat),
{
    if v < 0 {
        proof {
            reveal_strlit("-");
        }
        out.append("-");
    }
    append_nat(out, m / 100);
}

/// Appends a count of hundredths with exactly two decimals.
pub(crate) fn append_fixed(out: &mut String, v: i128)
    ensures
        final(out)@ == old(out)@ + fixed_text(v as int),
{
    let m = magnitude_of(v);
    append_whole(out, v, m);
    proof {
        reveal_strlit(".");
    }
    out.append(".");
    append_digit(out, ((m / 10) % 10) as u8);
    append_digit(out, (m % 10) as u8);
}

/// Appends a count of hundredths with as few decimals as it needs.
pub(crate) fn append_plain(out: &mut String, v: i128)
    ensures
        final(out)@ == old(out)@ + plain_text(v as int),
{
    let m = magnitude_of(v);
    append_whole(out, v, m);
    if m % 100 != 0 {
        proof {
            reveal_strlit(".");
        }
        out.append(".");
        append_digit(out, ((m / 10) % 10) as u8);
        if m % 10 != 0 {
            append_digit(out, (m % 10) as u8);
        }
    }
}

/// An exponent as read: its sign and its size, unless the size is more
/// than `DIGITS_CAP`.
struct Exponent {
    negative: bool,
    value: u128,
    over: bool,
}

impl Exponent {
    /// Whether this is what was read of the exponent `x`.
    spec fn reads(self, x: int) -> bool {
        if self.over {
            if self.negative {
                x < -(DIGITS_CAP as int)
            } else {
                x > DIGITS_CAP as int
            }
        } else {
            &&& self.value <= DIGITS_CAP
            &&& x == if self.negative {
                -(self.value as int)
            } else {
                self.value as int
            }
        }
    }
}

/// Reads the exponent that starts at `from`.
fn scan_exponent(v: &Vec<char>, from: usize) -> (r: Option<Exponent>)
    requires
        from <= v.len(),
    ensures
        match r {
            Some(e) => exponent_at(v@, from as int) matches Some(x) && e.reads(x),
            None => exponent_at(v@, from as int) is None,
        },
{
    if from == v.len() {
        return Some(Exponent { negative: false, value: 0, over: false });
    }
    if v[from] != 'e' && v[from] != 'E' {
        return None;
    }
    let signed = from + 1;
    let negative = signed < v.len() && v[signed] == '-';
    let digits = if signed < v.len() && (v[signed] == '+' || v[signed] == '-') {
        signed + 1
    } else {
        signed
    };
    let scan = scan_digits(v, digits);
    if scan.end == digits || scan.end != v.len() {
        return None;
    }
    Some(Exponent { negative, value: scan.value, over: scan.over })
}

/// The characters of two stretches of a text, one after the other.
fn join_runs(v: &Vec<char>, a: usize, b: usize, c: usize, e: usize) -> (d: Vec<char>)
    requires
        a <= b <= v.len(),
        c <= e <= v.len(),
    ensures
        d@ == v@.subrange(a as int, b as int) + v@.subrange(c as int, e as int),
{
    let mut d: Vec<char> = Vec::new();
    let mut i: usize = a;
    while i < b
        invariant
            a <= i <= b <= v.len(),
            d@ == v@.subrange(a as int, i as int),
        decreases b - i,
    {
        d.push(v[i]);
        i = i + 1;
    }
    let mut j: usize = c;
    while j < e
        invariant
            c <= j <= e <= v.len(),
            d@ == v@.subrange(a as int, b as int) + v@.subrange(c as int, j as int),
        decreases e - j,
    {
        d.push(v[j]);
        j = j + 1;
    }
    d
}

/// A shift to the left makes a number no smaller, and a larger shift makes
/// it larger still.
proof fn lemma_scale_up(n: nat, i: nat, k: nat)
    requires
        i <= k,
    ensures
        n * pow10(i) <= n * pow10(k),
        n <= n * pow10(k),
        n >= 1 ==> pow10(k) <= n * pow10(k),
{
    lemma_pow10_grows(i, k);
    lemma_pow10_grows(0, i);
    let a = pow10(i) as int;
    let b = pow10(k) as int;
    let m = n as int;
    assert(m * a <= m * b && m <= m * b && (m >= 1 ==> b <= m * b)) by (nonlinear_arith)
        requires
            1 <= a <= b,
            0 <= m,
    ;
}

/// Digits shifted to the right by more places than there are digits round
/// to nothing.
proof fn lemma_rounds_to_nothing(s: Seq<char>, m: nat)
    requires
        forall|i: int| 0 <= i < s.len() ==> is_digit(#[trigger] s[i]),
        m > s.len(),
    ensures
        scale_round(digits_value(s), -(m as int)) == 0,
{
    lemma_digits_value_below(s);
    lemma_pow10_grows(s.len(), (m - 1) as nat);
    let n = digits_value(s) as int;
    let full = pow10(m) as int;
    lemma_basic_div(n + full / 2, full);
}

/// Digits cut off after the first `p` are rounded by the first digit that
/// was cut: from five on, the digits kept count one more.
proof fn lemma_round_at(s: Seq<char>, p: int)
    requires
        forall|i: int| 0 <= i < s.len() ==> is_digit(#[trigger] s[i]),
        0 <= p < s.len(),
    ensures
        scale_round(digits_value(s), p - s.len()) == digits_value(s.take(p)) + (if s[p] >= '5' {
            1nat
        } else {
            0nat
        }),
{
    let m = (s.len() - p) as nat;
    let cut = s.skip(p);
    lemma_digits_value_split(s, p);
    lemma_digits_value_split(cut, 1);
    lemma_digits_value_below(cut.skip(1));
    reveal_with_fuel(digits_value, 2);
    let kept = digits_value(s.take(p)) as int;
    let first = digit_value(s[p]) as int;
    let rest = digits_value(cut.skip(1)) as int;
    let small = pow10((m - 1) as nat) as int;
    let full = pow10(m) as int;
    lemma_pow10_grows(0, (m - 1) as nat);
    let n = digits_value(s) as int;
    if first >= 5 {
        assert(n + full / 2 == (kept + 1) * full + ((first - 5) * small + rest)
            && 0 <= (first - 5) * small + rest < full) by (nonlinear_arith)
            requires
                n == kept * full + (first * small + rest),
                full == 10 * small,
                full / 2 == 5 * small,
                5 <= first <= 9,
                0 <= rest < small,
        ;
        lemma_fundamental_div_mod_converse(
            n + full / 2,
            full,
            kept + 1,
            (first - 5) * small + rest,
        );
    } else {
        assert(n + full / 2 == kept * full + ((first + 5) * small + rest) && 0 <= (first + 5)
            * small + rest < full) by (nonlinear_arith)
            requires
                n == kept * full + (first * small + rest),
                full == 10 * small,
                full / 2 == 5 * small,
                0 <= first <= 4,
                0 <= rest < small,
        ;
        lemma_fundamental_div_mod_converse(
            n + full / 2,
            full,
            kept,
            (first + 5) * small + rest,
        );
    }
}

/// The digits `d`, of which the last `frac_len` stand behind the point,
/// shifted by the exponent and rounded to hundredths; `None` where that is
/// more than `DIGITS_CAP`.
fn scaled_digits(d: &Vec<char>, frac_len: usize, exponent: Exponent, Ghost(x): Ghost<int>) -> (r:
    Option<u128>)
    requires
        forall|j: int| 0 <= j < d.len() ==> is_digit(#[trigger] d@[j]),
        frac_len <= d.len(),
        exponent.reads(x),
    ensures
        match r {
            Some(h) => h == scale_round(digits_value(d@), x - frac_len + 2) && h <= DIGITS_CAP
                + 1,
            None => scale_round(digits_value(d@), x - frac_len + 2) > DIGITS_CAP,
        },
{
    let len = d.len();
    let ghost n = digits_value(d@);
    let ghost k = x - frac_len + 2;
    assert(d@.take(len as int) =~= d@);
    if exponent.over && exponent.negative {
        proof {
            lemma_rounds_to_nothing(d@, (-k) as nat);
        }
        return Some(0);
    }
    // How many places the digits move to the left. An exponent too large
    // to read moves them further than any figure in range allows.
    let shift: i128 = if exponent.over {
        22
    } else if exponent.negative {
        2 - exponent.value as i128 - frac_len as i128
    } else {
        exponent.value as i128 + 2 - frac_len as i128
    };
    if shift >= 0 {
        // The digits are shifted to the left.
        let (value, over) = value_upto(d, len);
        proof {
            lemma_scale_up(n, 0, k as nat);
        }
        if over {
            return None;
        }
        if value == 0 {
            assert(n * pow10(k as nat) == 0) by (nonlinear_arith)
                requires
                    n == 0,
            ;
            return Some(0);
        }
        if shift > 21 {
            proof {
                lemma_pow10_grows(22, k as nat);
                reveal_with_fuel(pow10, 23);
            }
            return None;
        }
        let mut scaled: u128 = value;
        let mut i: i128 = 0;
        assert(n * pow10(0) == n) by (nonlinear_arith)
            requires
                pow10(0) == 1,
        ;
        while i < shift
            invariant
                0 <= i <= shift == k <= 21,
                n == digits_value(d@),
                k == x - frac_len + 2,
                scaled == n * pow10(i as nat),
                scaled <= DIGITS_CAP,
            decreases shift - i,
        {
            proof {
                let before = pow10(i as nat) as int;
                let m = n as int;
                assert(m * (10 * before) == (m * before) * 10) by (nonlinear_arith);
                lemma_scale_up(n, (i + 1) as nat, k as nat);
            }
            scaled = scaled * 10;
            if scaled > DIGITS_CAP {
                return None;
            }
            i = i + 1;
        }
        Some(scaled)
    } else {
        // The digits are shifted to the right, and those beyond the
        // hundredths are cut off.
        let keep: i128 = len as i128 + shift;
        if keep < 0 {
            proof {
                lemma_rounds_to_nothing(d@, (-k) as nat);
            }
            return Some(0);
        }
        let (kept, over) = value_upto(d, keep as usize);
        proof {
            lemma_round_at(d@, keep as int);
        }
        if over {
            return None;
        }
        if d[keep as usize] >= '5' {
            Some(kept + 1)
        } else {
            Some(kept)
        }
    }
}

/// Reads a count of hundredths in the grammar of `hundredths_of`, up to the
/// range of `i64`.
pub(crate) fn parse_decimal(s: &str) -> (r: Result<Decimal, ParseError>)
    ensures
        match r {
            Ok(d) => decimal_of(s@) == Some(d),
            Err(_) => decimal_of(s@) is None,
        },
{
    let v = chars_of(s);
    let negative = v.len() > 0 && v[0] == '-';
    let start: usize = if v.len() > 0 && (v[0] == '+' || v[0] == '-') {
        1
    } else {
        0
    };
    let whole = scan_digits(&v, start);
    let dot = whole.end;
    let point = dot < v.len() && v[dot] == '.';
    let first: usize = if point {
        dot + 1
    } else {
        dot
    };
    let end: usize = if point {
        scan_digits(&v, dot + 1).end
    } else {
        dot
    };
    let frac_len = end - first;
    if dot - start == 0 && frac_len == 0 {
        return Err(ParseError {  });
    }
    let exponent = match scan_exponent(&v, end) {
        Some(e) => e,
        None => {
            return Err(ParseError {  });
        },
    };
    let ghost x = exponent_at(v@, end as int)->0;
    let d = join_runs(&v, start, dot, first, end);
    assert(forall|j: int| 0 <= j < d.len() ==> is_digit(#[trigger] d@[j]));
    let m = match scaled_digits(&d, frac_len, exponent, Ghost(x)) {
        Some(m) => m,
        None => {
            return Err(ParseError {  });
        },
    };
    if negative {
        if m > 9223372036854775808u128 {
            Err(ParseError {  })
        } else {
            let wide: i128 = -(m as i128);
            Ok(Decimal { hundredths: wide as i64 })
        }
    } else {
        if m > 9223372036854775807u128 {
            Err(ParseError {  })
        } else {
            Ok(Decimal { hundredths: m as i64 })
        }
    }
}

impl Decimal {
    /// Zero.
    pub fn zero() -> (d: Decimal)
        ensures
            d@ == 0,
    {
        Decimal { hundredths: 0 }
    }

    /// The figure with this many hundredths.
    pub fn from_hundredths(hundredths: i64) -> (d: Decimal)
        ensures
            d@ == hundredths,
    {
        Decimal { hundredths }
    }

    /// Reads a text field.
    pub fn parse(s: &str) -> (r: Result<Decimal, ParseError>)
        ensures
            match r {
                Ok(d) => decimal_of(s@) == Some(d),
                Err(_) => decimal_of(s@) is None,
            },
    {
        parse_decimal(s)
    }

    /// Reads a text field; a text that holds no figure counts as zero.
    pub fn parse_or_zero(s: &str) -> (d: Decimal)
        ensures
            d == match decimal_of(s@) {
                Some(v) => v,
                None => Decimal { hundredths: 0 },
            },
    {
        match parse_decimal(s) {
            Ok(d) => d,
            Err(_) => Decimal { hundredths: 0 },
        }
    }

    /// Zero and above count as positive.
    pub fn is_positive(&self) -> (b: bool)
        ensures
            b == (self@ >= 0),
    {
        self.hundredths >= 0
    }

    /// The figure with exactly two decimals.
    pub fn to_fixed(&self) -> (r: String)
        ensures
            r@ == fixed_text(self@),
    {
        let mut out = String::new();
        append_fixed(&mut out, self.hundredths as i128);
        out
    }

    /// The figure with as few decimals as it needs.
    pub fn to_plain(&self) -> (r: String)
        ensures
            r@ == plain_text(self@),
    {
        let mut out = String::new();
        append_plain(&mut out, self.hundredths as i128);
        out
    }
}

impl Amount {
    /// The amount with this many hundredths.
    pub fn from_hundredths(hundredths: i128) -> (a: Amount)
        ensures
            a@ == hundredths,
    {
        Amount { hundredths }
    }

    /// Zero and above count as positive.
    pub fn is_positive(&self) -> (b: bool)
        ensures
            b == (self@ >= 0),
    {
        self.hundredths >= 0
    }

    /// The amount with exactly two decimals.
    pub fn to_fixed(&self) -> (r: String)
        ensures
            r@ == fixed_text(self@),
    {
        let mut out = String::new();
        append_fixed(&mut out, self.hundredths);
        out
    }
}

/// The parts of a written figure: the sign and the whole units are read as
/// such, whatever follows them from a decimal point on.
proof fn lemma_whole_part(v: int, tail: Seq<char>)
    requires
        tail.len() == 0 || tail[0] == '.',
    ensures
        ({
            let m = magnitude(v);
            let s = sign_text(v) + nat_digits(m / 100) + tail;
            let start = sign_len(s);
            let dot = start + digit_run(s, start);
            &&& start == sign_text(v).len()
            &&& has_minus(s) == (v < 0)
            &&& digit_run(s, start) == nat_digits(m / 100).len()
            &&& digit_run(s, start) >= 1
            &&& digits_value(s.subrange(start, dot)) == m / 100
            &&& s.subrange(dot, s.len() as int) == tail
        }),
{
    let m = magnitude(v);
    let whole = nat_digits(m / 100);
    let s = sign_text(v) + whole + tail;
    lemma_nat_digits(m / 100);
    let start = sign_text(v).len() as int;
    let end = start + whole.len();
    assert forall|i: int| start <= i < end implies is_digit(#[trigger] s[i]) by {
        assert(s[i] == whole[i - start]);
    }
    lemma_digit_run(s, start, end);
    assert(s.subrange(start, end) =~= whole);
}

/// Shifts by no, one and two places.
proof fn lemma_scale_small(n: nat)
    ensures
        scale_round(n, 0) == n,
        scale_round(n, 1) == 10 * n,
        scale_round(n, 2) == 100 * n,
{
    reveal_with_fuel(pow10, 3);
    let m = n as int;
    assert(m * 1 == m && m * 10 == 10 * m && m * 100 == 100 * m) by (nonlinear_arith);
}

/// Reading back what `fixed_text` wrote gives the figure written.
pub proof fn lemma_fixed_text_reads_back(v: int)
    ensures
        hundredths_of(fixed_text(v)) == Some(v),
{
    let m = magnitude(v);
    let tenths = ((m / 10) % 10) as int;
    let units = (m % 10) as int;
    let tail = seq!['.', digit_char(tenths), digit_char(units)];
    let s = sign_text(v) + nat_digits(m / 100) + tail;
    lemma_whole_part(v, tail);
    lemma_digit_char(tenths);
    lemma_digit_char(units);
    let start = sign_len(s);
    let dot = start + digit_run(s, start);
    lemma_digit_run(s, dot + 1, dot + 3);
    let digits = s.subrange(start, dot) + s.subrange(dot + 1, dot + 3);
    assert(digits.drop_last().drop_last() =~= s.subrange(start, dot));
    reveal_with_fuel(digits_value, 3);
    lemma_scale_small(digits_value(digits));
}

/// Reading back what `plain_text` wrote gives the figure written.
pub proof fn lemma_plain_text_reads_back(v: int)
    ensures
        hundredths_of(plain_text(v)) == Some(v),
{
    let m = magnitude(v);
    let tenths = ((m / 10) % 10) as int;
    if m % 100 == 0 {
        let tail = Seq::<char>::empty();
        let s = sign_text(v) + nat_digits(m / 100) + tail;
        lemma_whole_part(v, tail);
        let start = sign_len(s);
        let dot = start + digit_run(s, start);
        lemma_scale_small(digits_value(s.subrange(start, dot)));
    } else if m % 10 == 0 {
        let tail = seq!['.', digit_char(tenths)];
        let s = sign_text(v) + nat_digits(m / 100) + tail;
        lemma_whole_part(v, tail);
        lemma_digit_char(tenths);
        let start = sign_len(s);
        let dot = start + digit_run(s, start);
        lemma_digit_run(s, dot + 1, dot + 2);
        let digits = s.subrange(start, dot) + s.subrange(dot + 1, dot + 2);
        assert(digits.drop_last() =~= s.subrange(start, dot));
        lemma_scale_small(digits_value(digits));
    } else {
        lemma_fixed_text_reads_back(v);
    }
}

/// What a `Decimal` shows, in either form, reads back as the same
/// `Decimal`.
pub proof fn lemma_decimal_text_reads_back(d: Decimal)
    ensures
        decimal_of(fixed_text(d@)) == Some(d),
        decimal_of(plain_text(d@)) == Some(d),
{
    lemma_fixed_text_reads_back(d@);
    lemma_plain_text_reads_back(d@);
}

} // verus!
