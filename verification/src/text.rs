//! Decimal digits: how numbers are written out and read back.

use vstd::prelude::*;

verus! {

/// The character that stands for a digit value; `'0'` outside `0..=9`.
pub open spec fn digit_char(d: int) -> char {
    if d == 1 {
        '1'
    } else if d == 2 {
        '2'
    } else if d == 3 {
        '3'
    } else if d == 4 {
        '4'
    } else if d == 5 {
        '5'
    } else if d == 6 {
        '6'
    } else if d == 7 {
        '7'
    } else if d == 8 {
        '8'
    } else if d == 9 {
        '9'
    } else {
        '0'
    }
}

/// Whether a character is one of `'0'..='9'`.
pub open spec fn is_digit(c: char) -> bool {
    '0' <= c && c <= '9'
}

/// The value of a digit character.
pub open spec fn digit_value(c: char) -> nat
    recommends
        is_digit(c),
{
    (c as nat - '0' as nat) as nat
}

/// A natural number in decimal, without leading zeros; zero is `"0"`.
pub open spec fn nat_digits(n: nat) -> Seq<char>
    decreases n,
{
    if n < 10 {
        seq![digit_char(n as int)]
    } else {
        nat_digits(n / 10).push(digit_char((n % 10) as int))
    }
}

/// An integer in decimal, with a leading `-` below zero.
pub open spec fn int_digits(v: int) -> Seq<char> {
    if v < 0 {
        seq!['-'] + nat_digits((-v) as nat)
    } else {
        nat_digits(v as nat)
    }
}

/// A natural number in decimal, at least two digits wide: one digit gets a
/// leading zero.
pub open spec fn two_digits(n: nat) -> Seq<char> {
    if n < 10 {
        seq!['0'] + nat_digits(n)
    } else {
        nat_digits(n)
    }
}

/// The number that a sequence of digit characters writes, read from the
/// left; zero for the empty sequence.
pub open spec fn digits_value(s: Seq<char>) -> nat
    decreases s.len(),
{
    if s.len() == 0 {
        0
    } else {
        digits_value(s.drop_last()) * 10 + digit_value(s.last())
    }
}

/// How many digit characters stand in a row from position `from` on.
pub open spec fn digit_run(s: Seq<char>, from: int) -> nat
    decreases s.len() - from,
{
    if 0 <= from < s.len() && is_digit(s[from]) {
        1 + digit_run(s, from + 1)
    } else {
        0
    }
}

/// The length of a leading sign: one for `+` or `-`, else zero.
pub open spec fn sign_len(s: Seq<char>) -> int {
    if s.len() > 0 && (s[0] == '+' || s[0] == '-') {
        1
    } else {
        0
    }
}

/// Whether the text starts with a minus sign.
pub open spec fn has_minus(s: Seq<char>) -> bool {
    s.len() > 0 && s[0] == '-'
}

/// The integer that a text writes: an optional sign, then one digit or more
/// and nothing else. `None` for any other text.
pub open spec fn integer_of(s: Seq<char>) -> Option<int> {
    let start = sign_len(s);
    let run = digit_run(s, start);
    if run >= 1 && start + run == s.len() {
        let magnitude = digits_value(s.subrange(start, s.len() as int));
        Some(
            if has_minus(s) {
                -(magnitude as int)
            } else {
                magnitude as int
            },
        )
    } else {
        None
    }
}

/// The digit characters, one literal each.
fn digit_str(d: u8) -> (r: &'static str)
    requires
        d < 10,
    ensures
        r@ == seq![digit_char(d as int)],
{
    proof {
        reveal_strlit("0");
        reveal_strlit("1");
        reveal_strlit("2");
        reveal_strlit("3");
        reveal_strlit("4");
        reveal_strlit("5");
        reveal_strlit("6");
        reveal_strlit("7");
        reveal_strlit("8");
        reveal_strlit("9");
    }
    let r = if d == 0 {
        "0"
    } else if d == 1 {
        "1"
    } else if d == 2 {
        "2"
    } else if d == 3 {
        "3"
    } else if d == 4 {
        "4"
    } else if d == 5 {
        "5"
    } else if d == 6 {
        "6"
    } else if d == 7 {
        "7"
    } else if d == 8 {
        "8"
    } else {
        "9"
    };
    r
}

/// Appends one digit.
pub(crate) fn append_digit(out: &mut String, d: u8)
    requires
        d < 10,
    ensures
        final(out)@ == old(out)@.push(digit_char(d as int)),
{
    out.append(digit_str(d));
}

/// Appends a natural number in decimal.
pub(crate) fn append_nat(out: &mut String, n: u128)
    ensures
        final(out)@ == old(out)@ + nat_digits(n as nat),
    decreases n,
{
    if n >= 10 {
        append_nat(out, n / 10);
    }
    append_digit(out, (n % 10) as u8);
}

/// Appends a natural number, two digits wide at least.
pub(crate) fn append_two_digits(out: &mut String, n: u32)
    ensures
        final(out)@ == old(out)@ + two_digits(n as nat),
{
    if n < 10 {
        append_digit(out, 0);
    }
    append_nat(out, n as u128);
}

/// The characters of a text, in order.
pub(crate) fn chars_of(s: &str) -> (v: Vec<char>)
    ensures
        v@ == s@,
{
    let mut v: Vec<char> = Vec::new();
    for c in it: s.chars()
        invariant
            it.seq() == s@,
            v@ == s@.take(it.index() as int),
    {
        v.push(c);
    }
    v
}

/// Extending a digit sequence by one character multiplies its value by ten
/// and adds the new digit.
proof fn lemma_digits_value_step(s: Seq<char>, from: int, to: int)
    requires
        0 <= from <= to < s.len(),
    ensures
        digits_value(s.subrange(from, to + 1)) == digits_value(s.subrange(from, to)) * 10
            + digit_value(s[to]),
{
    let longer = s.subrange(from, to + 1);
    assert(longer.drop_last() =~= s.subrange(from, to));
}

/// What `scan_digits` found: where the run of digits ends and what it is
/// worth, unless it is worth more than `DIGITS_CAP`.
pub(crate) struct DigitScan {
    pub(crate) end: usize,
    pub(crate) value: u128,
    pub(crate) over: bool,
}

/// Runs of digits are read exactly up to this value; above it they count as
/// too large.
pub(crate) const DIGITS_CAP: u128 = 1_000_000_000_000_000_000_000u128;

/// Reads the run of digits that starts at `from`.
pub(crate) fn scan_digits(v: &Vec<char>, from: usize) -> (r: DigitScan)
    requires
        from <= v.len(),
    ensures
        r.end == from + digit_run(v@, from as int),
        r.end <= v.len(),
        forall|j: int| from <= j < r.end ==> is_digit(#[trigger] v@[j]),
        !r.over ==> r.value == digits_value(v@.subrange(from as int, r.end as int)) && r.value
            <= DIGITS_CAP,
        r.over ==> digits_value(v@.subrange(from as int, r.end as int)) > DIGITS_CAP,
{
    let mut i: usize = from;
    let mut value: u128 = 0;
    let mut over = false;
    while i < v.len() && v[i] >= '0' && v[i] <= '9'
        invariant
            from <= i <= v.len(),
            forall|j: int| from <= j < i ==> is_digit(#[trigger] v@[j]),
            digit_run(v@, from as int) == (i - from) + digit_run(v@, i as int),
            !over ==> value == digits_value(v@.subrange(from as int, i as int)) && value
                <= DIGITS_CAP,
            over ==> digits_value(v@.subrange(from as int, i as int)) > DIGITS_CAP,
        decreases v.len() - i,
    {
        let d: u128 = (v[i] as u32 - 48) as u128;
        proof {
            lemma_digits_value_step(v@, from as int, i as int);
        }
        if !over {
            value = value * 10 + d;
            if value > DIGITS_CAP {
                over = true;
            }
        }
        i = i + 1;
    }
    DigitScan { end: i, value, over }
}

/// A text field did not hold a number of the kind asked for.
#[derive(Clone, Copy, Debug, PartialEq, Eq, Structural)]
pub struct ParseError {}

/// The `i32` that a text writes, if it writes an integer in range.
pub open spec fn i32_of(s: Seq<char>) -> Option<i32> {
    match integer_of(s) {
        Some(v) => if i32::MIN <= v <= i32::MAX {
            Some(v as i32)
        } else {
            None
        },
        None => None,
    }
}

/// Reads a whole number: an optional `+` or `-`, then digits only. Fails on
/// any other text and on a number outside `i32`.
pub fn parse_i32(s: &str) -> (r: Result<i32, ParseError>)
    ensures
        match r {
            Ok(q) => i32_of(s@) == Some(q),
            Err(_) => i32_of(s@) is None,
        },
{
    let v = chars_of(s);
    let negative = v.len() > 0 && v[0] == '-';
    let start: usize = if v.len() > 0 && (v[0] == '+' || v[0] == '-') {
        1
    } else {
        0
    };
    let scan = scan_digits(&v, start);
    if scan.end == start || scan.end != v.len() || scan.over {
        return Err(ParseError {  });
    }
    if negative {
        if scan.value > 2147483648u128 {
            Err(ParseError {  })
        } else {
            let wide: i64 = -(scan.value as i64);
            Ok(wide as i32)
        }
    } else {
        if scan.value > 2147483647u128 {
            Err(ParseError {  })
        } else {
            Ok(scan.value as i32)
        }
    }
}

/// Reads a whole number; any text that is none counts as zero.
pub fn parse_i32_or_zero(s: &str) -> (q: i32)
    ensures
        q == match i32_of(s@) {
            Some(v) => v,
            None => 0i32,
        },
{
    match parse_i32(s) {
        Ok(q) => q,
        Err(_) => 0,
    }
}

/// The text of an `i32`.
pub fn i32_text(v: i32) -> (r: String)
    ensures
        r@ == int_digits(v as int),
{
    let mut out = String::new();
    if v < 0 {
        out.append("-");
        proof {
            reveal_strlit("-");
        }
        let m: u128 = (-(v as i64)) as u128;
        append_nat(&mut out, m);
    } else {
        append_nat(&mut out, v as u128);
    }
    out
}

/// A digit character is a digit and is worth its digit.
pub(crate) proof fn lemma_digit_char(d: int)
    requires
        0 <= d <= 9,
    ensures
        is_digit(digit_char(d)),
        digit_value(digit_char(d)) == d,
{
}

/// What `nat_digits` writes is one digit or more, digits only, and worth
/// the number written.
pub(crate) proof fn lemma_nat_digits(n: nat)
    ensures
        nat_digits(n).len() >= 1,
        forall|i: int| 0 <= i < nat_digits(n).len() ==> is_digit(#[trigger] nat_digits(n)[i]),
        digits_value(nat_digits(n)) == n,
    decreases n,
{
    if n < 10 {
        lemma_digit_char(n as int);
        let s = nat_digits(n);
        assert(digits_value(s.drop_last()) == 0);
    } else {
        lemma_nat_digits(n / 10);
        lemma_digit_char((n % 10) as int);
        let s = nat_digits(n);
        assert(s.drop_last() =~= nat_digits(n / 10));
    }
}

/// A stretch of digits that ends at the end of the text or before a
/// character that is no digit is a whole run.
pub(crate) proof fn lemma_digit_run(s: Seq<char>, from: int, to: int)
    requires
        0 <= from <= to <= s.len(),
        forall|i: int| from <= i < to ==> is_digit(#[trigger] s[i]),
        to == s.len() || !is_digit(s[to]),
    ensures
        digit_run(s, from) == to - from,
    decreases to - from,
{
    if from < to {
        lemma_digit_run(s, from + 1, to);
    }
}

/// Reading back what `int_digits` wrote gives the number written.
pub proof fn lemma_int_digits_read_back(v: int)
    ensures
        integer_of(int_digits(v)) == Some(v),
{
    let m: nat = if v < 0 {
        (-v) as nat
    } else {
        v as nat
    };
    lemma_nat_digits(m);
    let s = int_digits(v);
    let start = sign_len(s);
    lemma_digit_run(s, start, s.len() as int);
    assert(s.subrange(start, s.len() as int) =~= nat_digits(m));
}

/// Ten to the power `n`.
pub open spec fn pow10(n: nat) -> nat
    decreases n,
{
    if n == 0 {
        1
    } else {
        10 * pow10((n - 1) as nat)
    }
}

/// Powers of ten grow with the exponent, from one on.
pub(crate) proof fn lemma_pow10_grows(a: nat, b: nat)
    requires
        a <= b,
    ensures
        1 <= pow10(a) <= pow10(b),
    decreases b,
{
    if a < b {
        lemma_pow10_grows(a, (b - 1) as nat);
    } else if a > 0 {
        lemma_pow10_grows((a - 1) as nat, (a - 1) as nat);
    }
}

/// A digit sequence is worth its first `p` digits, shifted by the number of
/// the others, plus the others.
pub(crate) proof fn lemma_digits_value_split(s: Seq<char>, p: int)
    requires
        0 <= p <= s.len(),
    ensures
        digits_value(s) == digits_value(s.take(p)) * pow10((s.len() - p) as nat) + digits_value(
            s.skip(p),
        ),
    decreases s.len(),
{
    if p == s.len() {
        assert(s.take(p) =~= s);
        let whole = digits_value(s.take(p)) as int;
        let one = pow10((s.len() - p) as nat) as int;
        assert(whole * one == whole) by (nonlinear_arith)
            requires
                one == 1,
        ;
    } else {
        let front = s.drop_last();
        lemma_digits_value_split(front, p);
        assert(front.take(p) =~= s.take(p));
        assert(s.skip(p).drop_last() =~= front.skip(p));
        let a = digits_value(s.take(p)) as int;
        let b = digits_value(front.skip(p)) as int;
        let small = pow10((front.len() - p) as nat) as int;
        let d = digit_value(s.last()) as int;
        assert((a * small + b) * 10 + d == a * (10 * small) + (b * 10 + d)) by (nonlinear_arith);
    }
}

/// A sequence of `n` digits is worth less than ten to the power `n`.
pub(crate) proof fn lemma_digits_value_below(s: Seq<char>)
    requires
        forall|i: int| 0 <= i < s.len() ==> is_digit(#[trigger] s[i]),
    ensures
        digits_value(s) < pow10(s.len()),
    decreases s.len(),
{
    if s.len() > 0 {
        lemma_digits_value_below(s.drop_last());
    }
}

/// Reads the value of the first `to` digits of a digit sequence, unless it
/// is more than `DIGITS_CAP`.
pub(crate) fn value_upto(d: &Vec<char>, to: usize) -> (r: (u128, bool))
    requires
        to <= d.len(),
        forall|j: int| 0 <= j < to ==> is_digit(#[trigger] d@[j]),
    ensures
        !r.1 ==> r.0 == digits_value(d@.take(to as int)) && r.0 <= DIGITS_CAP,
        r.1 ==> digits_value(d@.take(to as int)) > DIGITS_CAP,
{
    let mut i: usize = 0;
    let mut value: u128 = 0;
    let mut over = false;
    while i < to
        invariant
            i <= to <= d.len(),
            forall|j: int| 0 <= j < to ==> is_digit(#[trigger] d@[j]),
            !over ==> value == digits_value(d@.subrange(0, i as int)) && value <= DIGITS_CAP,
            over ==> digits_value(d@.subrange(0, i as int)) > DIGITS_CAP,
        decreases to - i,
    {
        let digit: u128 = (d[i] as u32 - 48) as u128;
        proof {
            lemma_digits_value_step(d@, 0, i as int);
        }
        if !over {
            value = value * 10 + digit;
            if value > DIGITS_CAP {
                over = true;
            }
        }
        i = i + 1;
    }
    (value, over)
}

} // verus!
