//! Decimal text of integers, as identification numbers and JSON numbers carry
//! them on the wire.
use vstd::prelude::*;
use vstd::arithmetic::div_mod::lemma_fundamental_div_mod;

verus! {

/// Whether `c` is one of the ASCII digits.
pub open spec fn is_digit(c: char) -> bool {
    '0' <= c && c <= '9'
}

/// The value of an ASCII digit.
pub open spec fn digit_value(c: char) -> int {
    c as int - '0' as int
}

/// The ASCII digit of `d`, for `0 <= d < 10`.
pub open spec fn digit_char(d: int) -> char {
    if d == 0 { '0' }
    else if d == 1 { '1' }
    else if d == 2 { '2' }
    else if d == 3 { '3' }
    else if d == 4 { '4' }
    else if d == 5 { '5' }
    else if d == 6 { '6' }
    else if d == 7 { '7' }
    else if d == 8 { '8' }
    else { '9' }
}

/// Whether every character of `s` is a digit.
pub open spec fn all_digits(s: Seq<char>) -> bool {
    forall|i: int| 0 <= i < s.len() ==> is_digit(#[trigger] s[i])
}

/// The value of a string of digits, read in base ten.
pub open spec fn digits_value(s: Seq<char>) -> int
    decreases s.len(),
{
    if s.len() == 0 {
        0
    } else {
        digits_value(s.drop_last()) * 10 + digit_value(s.last())
    }
}

/// The shortest decimal digits of `n`.
pub open spec fn nat_text(n: nat) -> Seq<char>
    decreases n,
{
    if n < 10 {
        seq![digit_char(n as int)]
    } else {
        nat_text(n / 10).push(digit_char(n as int % 10))
    }
}

/// The decimal text of `n`: its digits, after a minus sign when negative.
pub open spec fn int_text(n: int) -> Seq<char> {
    if n < 0 {
        seq!['-'] + nat_text((-n) as nat)
    } else {
        nat_text(n as nat)
    }
}

/// The integer that `s` writes in decimal: an optional minus sign, then one
/// or more digits.
pub open spec fn parse_int(s: Seq<char>) -> Option<int> {
    if s.len() > 0 && s[0] == '-' {
        let rest = s.skip(1);
        if rest.len() > 0 && all_digits(rest) {
            Some(-digits_value(rest))
        } else {
            None
        }
    } else if s.len() > 0 && all_digits(s) {
        Some(digits_value(s))
    } else {
        None
    }
}

/// What an `i64` read from `s` is: the integer that `s` writes, where it fits.
pub open spec fn parse_i64(s: Seq<char>) -> Option<i64> {
    match parse_int(s) {
        Some(v) => if i64::MIN <= v <= i64::MAX {
            Some(v as i64)
        } else {
            None
        },
        None => None,
    }
}

pub proof fn lemma_digit_char(d: int)
    requires
        0 <= d < 10,
    ensures
        is_digit(digit_char(d)),
        digit_value(digit_char(d)) == d,
{
}

pub proof fn lemma_nat_text(n: nat)
    ensures
        nat_text(n).len() > 0,
        all_digits(nat_text(n)),
        digits_value(nat_text(n)) == n,
        nat_text(n)[0] != '-',
    decreases n,
{
    if n < 10 {
        lemma_digit_char(n as int);
        assert(nat_text(n).drop_last() =~= Seq::<char>::empty());
        assert(digits_value(Seq::<char>::empty()) == 0);
    } else {
        lemma_nat_text(n / 10);
        lemma_digit_char(n as int % 10);
        let t = nat_text(n);
        assert(t.drop_last() =~= nat_text(n / 10));
        lemma_fundamental_div_mod(n as int, 10);
        assert forall|i: int| 0 <= i < t.len() implies is_digit(#[trigger] t[i]) by {
            if i < t.len() - 1 {
                assert(t[i] == nat_text(n / 10)[i]);
            }
        }
        assert(t[0] == nat_text(n / 10)[0]);
        assert(t.last() == digit_char(n as int % 10));
        let q = n as int / 10;
        let r = n as int % 10;
        assert(digits_value(t) == digits_value(nat_text(n / 10)) * 10 + digit_value(t.last()));
        assert(q * 10 + r == n) by (nonlinear_arith)
            requires n as int == 10 * q + r;
    }
}

/// Reading back the decimal text of an integer gives that integer.
pub proof fn lemma_parse_int_text(n: int)
    ensures
        parse_int(int_text(n)) == Some(n),
{
    if n < 0 {
        let m = (-n) as nat;
        lemma_nat_text(m);
        let t = int_text(n);
        assert(t.skip(1) =~= nat_text(m));
        assert(t[0] == '-');
    } else {
        lemma_nat_text(n as nat);
    }
}

/// Reading back the decimal text of an `i64` gives that `i64`.
pub proof fn lemma_parse_i64_text(n: i64)
    ensures
        parse_i64(int_text(n as int)) == Some(n),
{
    lemma_parse_int_text(n as int);
}

/// The decimal text of `n`: its digits, after a minus sign when it is
/// negative.
pub(crate) fn i64_text(n: i64) -> (r: String)
    ensures
        r@ == int_text(n as int),
{
    if n < 0 {
        let magnitude = (0i128 - n as i128) as u64;
        let mut r = String::from_str("-");
        proof {
            reveal_strlit("-");
        }
        r.append(u64_text(magnitude).as_str());
        r
    } else {
        u64_text(n as u64)
    }
}

/// A value that may be written as text.
pub trait Stringify {
    /// The text of the value, if it has one.
    spec fn spec_stringify(&self) -> Option<Seq<char>>;

    fn stringify(&self) -> (r: Option<String>)
        ensures
            match r {
                Some(s) => self.spec_stringify() == Some(s@),
                None => self.spec_stringify() is None,
            };
}

impl Stringify for Option<i64> {
    /// The decimal text of the number, when there is one.
    open spec fn spec_stringify(&self) -> Option<Seq<char>> {
        match self {
            Some(n) => Some(int_text(*n as int)),
            None => None,
        }
    }

    fn stringify(&self) -> (r: Option<String>) {
        match self {
            Some(n) => Some(i64_text(*n)),
            None => None,
        }
    }
}

/// Reads an `i64` written in decimal, as `parse_i64` says.
pub fn read_i64(s: &str) -> (r: Option<i64>)
    ensures
        r == parse_i64(s@),
{
    let n = s.unicode_len();
    if n == 0 {
        return None;
    }
    let negative = s.get_char(0) == '-';
    let start: usize = if negative { 1 } else { 0 };
    if start == n {
        return None;
    }
    let ghost digits = s@.skip(start as int);
    // The magnitude, up to the largest one that an i64 can carry.
    let limit: u64 = if negative { 9223372036854775808u64 } else { 9223372036854775807u64 };
    let mut acc: u64 = 0;
    let mut i: usize = start;
    while i < n
        invariant
            n == s@.len(),
            start <= i <= n,
            start < n,
            digits == s@.skip(start as int),
            all_digits(s@.subrange(start as int, i as int)),
            acc as int == digits_value(s@.subrange(start as int, i as int)),
            acc <= limit,
            limit == (if negative { 9223372036854775808u64 } else { 9223372036854775807u64 }),
            negative == (s@[0] == '-'),
            start == (if negative { 1usize } else { 0usize }),
        decreases n - i,
    {
        let c = s.get_char(i);
        let sub = Ghost(s@.subrange(start as int, i as int + 1));
        assert(sub@.drop_last() =~= s@.subrange(start as int, i as int));
        if !('0' <= c && c <= '9') {
            proof {
                assert(digits[i - start] == c);
                assert(!all_digits(digits));
                assert(s@[0] == '-' <==> negative);
            }
            return None;
        }
        let d = (c as u32 - '0' as u32) as u64;
        assert(d <= 9);
        assert(digit_value(c) == d);
        assert(sub@.last() == c);
        assert(all_digits(sub@)) by {
            assert forall|k: int| 0 <= k < sub@.len() implies is_digit(#[trigger] sub@[k]) by {
                if k < sub@.len() - 1 {
                    assert(sub@[k] == s@.subrange(start as int, i as int)[k]);
                }
            }
        }
        assert(digits_value(sub@) == acc * 10 + d);
        if acc > (limit - d) / 10 {
            proof {
                // The digits read so far are already too many for an i64; the
                // ones that follow only raise the value.
                let l = limit as int;
                let a = acc as int;
                let dd = d as int;
                assert(a * 10 + dd > l) by (nonlinear_arith)
                    requires a > (l - dd) / 10, 0 <= dd <= 9, dd <= l;
                assert(digits.subrange(0, (i + 1 - start) as int) =~= sub@);
                lemma_digits_value_prefix_grows(digits, (i + 1 - start) as int);
                assert(digits_value(sub@) > limit);
                assert(s@[0] == '-' <==> negative);
                if !negative {
                    assert(digits =~= s@);
                }
            }
            return None;
        }
        acc = acc * 10 + d;
        i = i + 1;
    }
    proof {
        assert(s@.subrange(start as int, n as int) =~= digits);
        assert(s@[0] == '-' <==> negative);
        if !negative {
            assert(digits =~= s@);
        }
    }
    if negative {
        if acc == 9223372036854775808u64 {
            Some(i64::MIN)
        } else {
            Some(-(acc as i64))
        }
    } else {
        Some(acc as i64)
    }
}

/// `n` zeros.
pub open spec fn zeros(n: nat) -> Seq<char> {
    Seq::new(n, |i: int| '0')
}

/// The integer and fraction digits of an unsigned decimal: digits, or
/// digits, a point and digits.
pub open spec fn decimal_parts(body: Seq<char>) -> Option<(Seq<char>, Seq<char>)> {
    if body.len() > 0 && all_digits(body) {
        Some((body, Seq::empty()))
    } else if exists|p: int| is_point_at(body, p) {
        let p = choose|p: int| is_point_at(body, p);
        Some((body.take(p), body.skip(p + 1)))
    } else {
        None
    }
}

/// `body` has a point at `p`, with one or more digits on each side and
/// nothing else.
pub open spec fn is_point_at(body: Seq<char>, p: int) -> bool {
    &&& 0 < p < body.len() - 1
    &&& body[p] == '.'
    &&& all_digits(body.take(p))
    &&& all_digits(body.skip(p + 1))
}

/// What a decimal text writes, as `(units, scale)`: the value is
/// `units / 10^scale`, and `scale` counts the digits after the point.
pub open spec fn parse_decimal(s: Seq<char>) -> Option<(int, nat)> {
    let negative = s.len() > 0 && s[0] == '-';
    let body = if negative { s.skip(1) } else { s };
    match decimal_parts(body) {
        Some((whole, frac)) => {
            let v = digits_value(whole + frac);
            Some((if negative { -v } else { v }, frac.len()))
        },
        None => None,
    }
}

/// The digits of `m`, with zeros in front so that at least one digit
/// stands before the last `scale`.
pub open spec fn padded_digits(m: nat, scale: nat) -> Seq<char> {
    let d = nat_text(m);
    if d.len() <= scale {
        zeros((scale + 1 - d.len()) as nat) + d
    } else {
        d
    }
}

/// The decimal text of `units / 10^scale` with exactly `scale` digits after
/// the point, and no point when `scale` is zero.
pub open spec fn decimal_text(units: int, scale: nat) -> Seq<char> {
    let sign = if units < 0 { seq!['-'] } else { Seq::<char>::empty() };
    let m = (if units < 0 { -units } else { units }) as nat;
    let p = padded_digits(m, scale);
    if scale == 0 {
        sign + p
    } else {
        sign + p.take(p.len() - scale) + seq!['.'] + p.skip(p.len() - scale)
    }
}

proof fn lemma_digits_value_zeros(n: nat)
    ensures
        digits_value(zeros(n)) == 0,
        all_digits(zeros(n)),
    decreases n,
{
    if n > 0 {
        assert(zeros(n).drop_last() =~= zeros((n - 1) as nat));
        lemma_digits_value_zeros((n - 1) as nat);
    }
}

/// Zeros in front leave the value of digits unchanged.
proof fn lemma_digits_value_leading_zeros(z: nat, s: Seq<char>)
    ensures
        digits_value(zeros(z) + s) == digits_value(s),
    decreases s.len(),
{
    if s.len() == 0 {
        assert(zeros(z) + s =~= zeros(z));
        lemma_digits_value_zeros(z);
    } else {
        assert((zeros(z) + s).drop_last() =~= zeros(z) + s.drop_last());
        lemma_digits_value_leading_zeros(z, s.drop_last());
    }
}

proof fn lemma_padded_digits(m: nat, scale: nat)
    ensures
        padded_digits(m, scale).len() > scale,
        all_digits(padded_digits(m, scale)),
        digits_value(padded_digits(m, scale)) == m,
{
    lemma_nat_text(m);
    let d = nat_text(m);
    if d.len() <= scale {
        let z = (scale + 1 - d.len()) as nat;
        lemma_digits_value_zeros(z);
        lemma_digits_value_leading_zeros(z, d);
        let p = zeros(z) + d;
        assert forall|i: int| 0 <= i < p.len() implies is_digit(#[trigger] p[i]) by {
            if i < z {
                assert(p[i] == zeros(z)[i]);
            } else {
                assert(p[i] == d[i - z]);
            }
        }
    }
}

/// Reading back the decimal text of `units / 10^scale` gives `units` and
/// `scale`.
pub proof fn lemma_parse_decimal_text(units: int, scale: nat)
    ensures
        parse_decimal(decimal_text(units, scale)) == Some((units, scale)),
{
    let m = (if units < 0 { -units } else { units }) as nat;
    let p = padded_digits(m, scale);
    lemma_padded_digits(m, scale);
    let s = decimal_text(units, scale);
    let sign = if units < 0 { seq!['-'] } else { Seq::<char>::empty() };
    let body = if scale == 0 { p } else { p.take(p.len() - scale) + seq!['.'] + p.skip(p.len() - scale) };
    assert(s =~= sign + body);
    assert(p[0] != '-') by {
        assert(is_digit(p[0]));
    }
    if units < 0 {
        assert(s[0] == '-');
        assert(s.skip(1) =~= body);
    } else {
        assert(s =~= body);
        if body.len() > 0 {
            if scale == 0 {
                assert(body[0] == p[0]);
            } else {
                assert(body[0] == p[0]);
            }
        }
    }
    if scale == 0 {
        assert(p + Seq::<char>::empty() =~= p);
    } else {
        let k = p.len() - scale;
        let whole = p.take(k);
        let frac = p.skip(k);
        assert(body[k] == '.');
        assert(!all_digits(body)) by {
            assert(!is_digit(body[k]));
        }
        assert(body.take(k) =~= whole);
        assert(body.skip(k + 1) =~= frac);
        assert forall|i: int| 0 <= i < whole.len() implies is_digit(#[trigger] whole[i]) by {
            assert(whole[i] == p[i]);
        }
        assert forall|i: int| 0 <= i < frac.len() implies is_digit(#[trigger] frac[i]) by {
            assert(frac[i] == p[i + k]);
        }
        assert(is_point_at(body, k));
        let q = choose|q: int| is_point_at(body, q);
        assert(q == k) by {
            if q < k {
                assert(body[q] == whole[q]);
                assert(is_digit(whole[q]));
            } else if q > k {
                assert(body[q] == frac[q - k - 1]);
                assert(is_digit(frac[q - k - 1]));
            }
        }
        assert(whole + frac =~= p);
    }
}

/// A decimal amount of money: `units / 10^scale`. Amounts keep the scale
/// in which they were written, so `15.00` is 1500 units at scale 2.
#[derive(Debug, Clone, Copy, PartialEq, Eq, Structural)]
pub struct Amount {
    pub units: i64,
    pub scale: u8,
}

/// The amount that `s` writes, where its units fit an `i64` and its scale a
/// `u8`.
pub open spec fn parse_amount(s: Seq<char>) -> Option<Amount> {
    match parse_decimal(s) {
        Some((u, sc)) => if i64::MIN <= u <= i64::MAX && sc <= 255 {
            Some(Amount { units: u as i64, scale: sc as u8 })
        } else {
            None
        },
        None => None,
    }
}

/// The digit of `d`, as a text.
fn digit_text(d: u64) -> (r: &'static str)
    requires
        d < 10,
    ensures
        r@ == seq![digit_char(d as int)],
{
    match d {
        0 => {
            proof {
                reveal_strlit("0");
            }
            assert("0"@ =~= seq![digit_char(0)]);
            "0"
        },
        1 => {
            proof {
                reveal_strlit("1");
            }
            assert("1"@ =~= seq![digit_char(1)]);
            "1"
        },
        2 => {
            proof {
                reveal_strlit("2");
            }
            assert("2"@ =~= seq![digit_char(2)]);
            "2"
        },
        3 => {
            proof {
                reveal_strlit("3");
            }
            assert("3"@ =~= seq![digit_char(3)]);
            "3"
        },
        4 => {
            proof {
                reveal_strlit("4");
            }
            assert("4"@ =~= seq![digit_char(4)]);
            "4"
        },
        5 => {
            proof {
                reveal_strlit("5");
            }
            assert("5"@ =~= seq![digit_char(5)]);
            "5"
        },
        6 => {
            proof {
                reveal_strlit("6");
            }
            assert("6"@ =~= seq![digit_char(6)]);
            "6"
        },
        7 => {
            proof {
                reveal_strlit("7");
            }
            assert("7"@ =~= seq![digit_char(7)]);
            "7"
        },
        8 => {
            proof {
                reveal_strlit("8");
            }
            assert("8"@ =~= seq![digit_char(8)]);
            "8"
        },
        _ => {
            proof {
                reveal_strlit("9");
            }
            assert("9"@ =~= seq![digit_char(9)]);
            "9"
        },
    }
}

/// The decimal digits of `n`.
pub(crate) fn u64_text(n: u64) -> (r: String)
    ensures
        r@ == nat_text(n as nat),
    decreases n,
{
    if n < 10 {
        String::from_str(digit_text(n))
    } else {
        let mut r = u64_text(n / 10);
        r.append(digit_text(n % 10));
        r
    }
}

impl Amount {
    /// The amount `units / 10^scale`.
    pub fn new(units: i64, scale: u8) -> (r: Amount)
        ensures
            r.units == units,
            r.scale == scale,
    {
        Amount { units, scale }
    }

    /// The decimal text of the amount, with `scale` digits after the point.
    pub fn to_text(&self) -> (r: String)
        ensures
            r@ == decimal_text(self.units as int, self.scale as nat),
            parse_amount(r@) == Some(*self),
    {
        let negative = self.units < 0;
        let m: u64 = if negative {
            (0i128 - self.units as i128) as u64
        } else {
            self.units as u64
        };
        let d = u64_text(m);
        let dl = d.as_str().unicode_len();
        let scale = self.scale as usize;
        let mut p = String::new();
        proof {
            reveal_strlit("0");
            reveal_strlit("-");
            reveal_strlit(".");
        }
        if dl <= scale {
            let z = scale + 1 - dl;
            let mut i: usize = 0;
            while i < z
                invariant
                    i <= z,
                    p@ == zeros(i as nat),
                decreases z - i,
            {
                proof {
                    reveal_strlit("0");
                }
                p.append("0");
                assert(p@ =~= zeros((i + 1) as nat));
                i = i + 1;
            }
        }
        p.append(d.as_str());
        let ghost pd = padded_digits(m as nat, scale as nat);
        assert(p@ =~= pd);
        proof {
            lemma_padded_digits(m as nat, scale as nat);
        }
        let pl = p.as_str().unicode_len();
        let mut r = String::new();
        if negative {
            r.append("-");
        }
        if scale == 0 {
            r.append(p.as_str());
        } else {
            let k = pl - scale;
            r.append(p.as_str().substring_char(0, k));
            r.append(".");
            r.append(p.as_str().substring_char(k, pl));
        }
        proof {
            let sign = if self.units < 0 { seq!['-'] } else { Seq::<char>::empty() };
            assert(r@ =~= decimal_text(self.units as int, self.scale as nat));
            lemma_parse_decimal_text(self.units as int, self.scale as nat);
        }
        r
    }

    /// Reads an amount written in decimal, as `parse_amount` says.
    pub fn from_text(s: &str) -> (r: Option<Amount>)
        ensures
            r == parse_amount(s@),
    {
        read_amount(s)
    }
}

/// Adds the digits of `s` from `from` to `to` to the value `acc` of the
/// digits `prefix`, as long as the value stays within `limit`.
fn accumulate_digits(s: &str, from: usize, to: usize, acc: u64, limit: u64, Ghost(prefix): Ghost<Seq<char>>) -> (r: Option<u64>)
    requires
        from <= to <= s@.len(),
        acc == digits_value(prefix),
        all_digits(prefix),
        acc <= limit,
        9223372036854775807u64 <= limit <= 9223372036854775808u64,
    ensures
        match r {
            Some(v) => all_digits(s@.subrange(from as int, to as int)) && v == digits_value(
                prefix + s@.subrange(from as int, to as int),
            ) && v <= limit,
            None => !all_digits(s@.subrange(from as int, to as int)) || digits_value(
                prefix + s@.subrange(from as int, to as int),
            ) > limit,
        },
{
    let mut acc = acc;
    let mut i = from;
    assert(prefix + s@.subrange(from as int, from as int) =~= prefix);
    while i < to
        invariant
            from <= i <= to <= s@.len(),
            all_digits(prefix + s@.subrange(from as int, i as int)),
            acc == digits_value(prefix + s@.subrange(from as int, i as int)),
            acc <= limit,
            9223372036854775807u64 <= limit <= 9223372036854775808u64,
            all_digits(prefix),
        decreases to - i,
    {
        let c = s.get_char(i);
        let ghost cur = prefix + s@.subrange(from as int, i as int);
        let ghost next = prefix + s@.subrange(from as int, i as int + 1);
        assert(next.drop_last() =~= cur);
        assert(next.last() == c);
        if !('0' <= c && c <= '9') {
            assert(s@.subrange(from as int, to as int)[i - from] == c);
            return None;
        }
        let d = (c as u32 - '0' as u32) as u64;
        assert(all_digits(next)) by {
            assert forall|k: int| 0 <= k < next.len() implies is_digit(#[trigger] next[k]) by {
                if k < next.len() - 1 {
                    assert(next[k] == cur[k]);
                }
            }
        }
        if acc > (limit - d) / 10 {
            proof {
                let l = limit as int;
                let a = acc as int;
                let dd = d as int;
                assert(a * 10 + dd > l) by (nonlinear_arith)
                    requires a > (l - dd) / 10, 0 <= dd <= 9, dd <= l;
                let all = prefix + s@.subrange(from as int, to as int);
                assert(all.subrange(0, next.len() as int) =~= next);
                lemma_digits_value_prefix_grows(all, next.len() as int);
                if all_digits(all) {
                    assert forall|k: int| 0 <= k < (to - from) implies is_digit(#[trigger] s@.subrange(from as int, to as int)[k]) by {
                        assert(s@.subrange(from as int, to as int)[k] == all[prefix.len() + k]);
                    }
                }
                if all_digits(s@.subrange(from as int, to as int)) {
                    assert forall|k: int| 0 <= k < all.len() implies is_digit(#[trigger] all[k]) by {
                        if k >= prefix.len() {
                            assert(all[k] == s@.subrange(from as int, to as int)[k - prefix.len()]);
                        }
                    }
                }
            }
            return None;
        }
        acc = acc * 10 + d;
        i = i + 1;
    }
    proof {
        let seg = s@.subrange(from as int, to as int);
        let all = prefix + seg;
        assert forall|k: int| 0 <= k < seg.len() implies is_digit(#[trigger] seg[k]) by {
            assert(seg[k] == all[prefix.len() + k]);
        }
    }
    Some(acc)
}

/// Reads an amount written in decimal, as `parse_amount` says.
fn read_amount(s: &str) -> (r: Option<Amount>)
    ensures
        r == parse_amount(s@),
{
    let n = s.unicode_len();
    if n == 0 {
        return None;
    }
    let negative = s.get_char(0) == '-';
    let start: usize = if negative { 1 } else { 0 };
    // The first point, if any.
    let mut dot = n;
    let mut i = start;
    while i < n
        invariant
            start <= i <= n,
            n == s@.len(),
            dot == n || (start <= dot < i && s@[dot as int] == '.'),
            forall|k: int| start <= k < i && k < dot ==> s@[k] != '.',
        decreases n - i,
    {
        if dot == n && s.get_char(i) == '.' {
            dot = i;
        }
        i = i + 1;
    }
    if dot == n {
        read_amount_whole(s, negative)
    } else {
        read_amount_point(s, negative, dot)
    }
}

/// The units of an amount of magnitude `v`, negated when `negative`.
fn signed_units(v: u64, negative: bool) -> (r: i64)
    requires
        v <= (if negative { 9223372036854775808u64 } else { 9223372036854775807u64 }),
    ensures
        r == (if negative { -(v as int) } else { v as int }),
{
    if negative {
        if v == 9223372036854775808u64 { i64::MIN } else { -(v as i64) }
    } else {
        v as i64
    }
}

/// Reads an amount with no point in it.
fn read_amount_whole(s: &str, negative: bool) -> (r: Option<Amount>)
    requires
        s@.len() > 0,
        negative == (s@[0] == '-'),
        forall|k: int| (if negative { 1int } else { 0int }) <= k < s@.len() ==> s@[k] != '.',
    ensures
        r == parse_amount(s@),
{
    let n = s.unicode_len();
    let start: usize = if negative { 1 } else { 0 };
    let ghost body = if negative { s@.skip(1) } else { s@ };
    assert(body =~= s@.subrange(start as int, n as int));
    let limit: u64 = if negative { 9223372036854775808u64 } else { 9223372036854775807u64 };
    assert forall|p: int| !is_point_at(body, p) by {
        if 0 < p < body.len() {
            assert(body[p] == s@[start + p]);
        }
    }
    if start == n {
        return None;
    }
    let v = accumulate_digits(s, start, n, 0, limit, Ghost(Seq::empty()));
    assert(Seq::<char>::empty() + body =~= body);
    assert(body + Seq::<char>::empty() =~= body);
    match v {
        Some(v) => Some(Amount { units: signed_units(v, negative), scale: 0 }),
        None => None,
    }
}

/// Reads an amount whose first point is at `dot`.
fn read_amount_point(s: &str, negative: bool, dot: usize) -> (r: Option<Amount>)
    requires
        s@.len() > 0,
        negative == (s@[0] == '-'),
        (if negative { 1int } else { 0int }) <= dot < s@.len(),
        s@[dot as int] == '.',
        forall|k: int| (if negative { 1int } else { 0int }) <= k < dot ==> s@[k] != '.',
    ensures
        r == parse_amount(s@),
{
    let n = s.unicode_len();
    let start: usize = if negative { 1 } else { 0 };
    let ghost body = if negative { s@.skip(1) } else { s@ };
    assert(body =~= s@.subrange(start as int, n as int));
    let limit: u64 = if negative { 9223372036854775808u64 } else { 9223372036854775807u64 };
    let ghost pd = (dot - start) as int;
    assert(body[pd] == '.');
    assert forall|k: int| 0 <= k < pd implies body[k] != '.' by {
        assert(body[k] == s@[start + k]);
    }
    proof {
        lemma_point_unique(body, pd);
    }
    if dot == start || dot + 1 == n {
        return None;
    }
    if n - dot - 1 > 255 {
        return None;
    }
    let ghost whole = s@.subrange(start as int, dot as int);
    let ghost frac = s@.subrange(dot as int + 1, n as int);
    assert(Seq::<char>::empty() + whole =~= whole);
    assert(body.take(pd) =~= whole);
    assert(body.skip(pd + 1) =~= frac);
    let w = accumulate_digits(s, start, dot, 0, limit, Ghost(Seq::empty()));
    match w {
        None => {
            proof {
                if all_digits(whole) && all_digits(frac) {
                    assert((whole + frac).subrange(0, whole.len() as int) =~= whole);
                    lemma_digits_value_prefix_grows(whole + frac, whole.len() as int);
                    assert forall|k: int| 0 <= k < (whole + frac).len() implies is_digit(#[trigger] (whole + frac)[k]) by {
                        if k < whole.len() {
                            assert((whole + frac)[k] == whole[k]);
                        } else {
                            assert((whole + frac)[k] == frac[k - whole.len()]);
                        }
                    }
                }
            }
            None
        },
        Some(w) => {
            let f = accumulate_digits(s, dot + 1, n, w, limit, Ghost(whole));
            match f {
                None => None,
                Some(v) => Some(Amount { units: signed_units(v, negative), scale: (n - dot - 1) as u8 }),
            }
        },
    }
}

/// With a point at `pd` and none before it, `decimal_parts` splits there, or
/// nowhere when one side is not all digits.
proof fn lemma_point_unique(body: Seq<char>, pd: int)
    requires
        0 <= pd < body.len(),
        body[pd] == '.',
        forall|k: int| 0 <= k < pd ==> body[k] != '.',
    ensures
        !all_digits(body),
        is_point_at(body, pd) ==> decimal_parts(body) == Some((body.take(pd), body.skip(pd + 1))),
        !is_point_at(body, pd) ==> decimal_parts(body) is None,
{
    assert(!is_digit(body[pd]));
    assert forall|p: int| #[trigger] is_point_at(body, p) implies p == pd by {
        if p < pd {
            assert(body[p] != '.');
        } else if p > pd {
            assert(body.take(p)[pd] == '.');
            assert(!is_digit(body.take(p)[pd]));
        }
    }
}

/// The value of the first `k` digits of `s` bounds that of all of them from
/// below, and of any longer prefix.
proof fn lemma_digits_value_prefix_grows(s: Seq<char>, k: int)
    requires
        0 <= k <= s.len(),
        all_digits(s.subrange(0, k)),
    ensures
        all_digits(s) ==> digits_value(s) >= digits_value(s.subrange(0, k)),
    decreases s.len() - k,
{
    if k < s.len() && all_digits(s) {
        let p = s.subrange(0, k + 1);
        assert(p.drop_last() =~= s.subrange(0, k));
        assert(is_digit(s[k]));
        lemma_digits_value_nonneg(s.subrange(0, k));
        lemma_digits_value_prefix_grows(s, k + 1);
    } else if k == s.len() {
        assert(s.subrange(0, k) =~= s);
    }
}

proof fn lemma_digits_value_nonneg(s: Seq<char>)
    requires
        all_digits(s),
    ensures
        digits_value(s) >= 0,
    decreases s.len(),
{
    if s.len() > 0 {
        assert(is_digit(s.last()));
        lemma_digits_value_nonneg(s.drop_last());
    }
}

} // verus!
