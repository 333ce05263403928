//! Exact numeric value types: fixed-point decimals for axis values and
//! rational numbers for regression statistics. Both carry exact wire
//! specifications; no floating point is involved anywhere.

use vstd::prelude::*;
use vstd::string::*;
use crate::text::{digit_char, dec_digits, int_wire, int_wire_val, digits_val, all_digits,
    lemma_dec_digits_val, append_i64, append_u64, digit_str};

verus! {

/// Ten to the power `k`.
pub open spec fn pow10(k: nat) -> nat
    decreases k,
{
    if k == 0 {
        1
    } else {
        10 * pow10((k - 1) as nat)
    }
}

/// Ten to the power `k` as a machine integer; `k` is capped so the result
/// fits comfortably in a `u64`.
pub fn pow10_u64(k: u32) -> (r: u64)
    requires
        k <= 12,
    ensures
        r == pow10(k as nat),
        r >= 1,
{
    let mut r: u64 = 1;
    let mut i: u32 = 0;
    proof {
        lemma_pow10_bound(k as nat);
    }
    while i < k
        invariant
            i <= k <= 12,
            r == pow10(i as nat),
            r >= 1,
        decreases k - i,
    {
        proof {
            lemma_pow10_bound(k as nat);
            lemma_pow10_mono(i as nat + 1, k as nat);
        }
        r = r * 10;
        i = i + 1;
    }
    r
}

/// Ten to any power is positive.
pub proof fn lemma_pow10_pos(k: nat)
    ensures
        pow10(k) >= 1,
    decreases k,
{
    if k > 0 {
        lemma_pow10_pos((k - 1) as nat);
    }
}

/// `pow10` grows with its argument.
pub proof fn lemma_pow10_mono(a: nat, b: nat)
    requires
        a <= b,
    ensures
        pow10(a) <= pow10(b),
    decreases b,
{
    if a < b {
        lemma_pow10_mono(a, (b - 1) as nat);
    }
}

/// A small bound on `pow10` for the exponents decimals may carry.
pub proof fn lemma_pow10_bound(k: nat)
    requires
        k <= 12,
    ensures
        pow10(k) <= 1000000000000,
    decreases k,
{
    if k > 0 {
        lemma_pow10_bound((k - 1) as nat);
        lemma_pow10_mono(k, 12);
        reveal_with_fuel(pow10, 13);
        assert(pow10(12) == 1000000000000);
    } else {
        assert(pow10(0) == 1);
    }
}

/// A fixed-point decimal number with value `mantissa / 10^exp`.
///
/// This is the numeric axis value type for non-integer data; `12.5` is
/// `Decimal { mantissa: 125, exp: 1 }`. The wire form keeps exactly `exp`
/// fractional digits, so `14.0` (mantissa 140, exp 1) serializes as `14.0`.
#[derive(Clone, Copy, Debug, PartialEq, Eq, Structural)]
pub struct Decimal {
    pub mantissa: i64,
    pub exp: u32,
}

/// Exactly `k` decimal digits of `n`, zero padded at the front.
pub open spec fn frac_digits(n: nat, k: nat) -> Seq<char>
    decreases k,
{
    if k == 0 {
        Seq::<char>::empty()
    } else {
        frac_digits(n / 10, (k - 1) as nat) + seq![digit_char((n % 10) as int)]
    }
}

/// Wire text of the decimal `mantissa / 10^exp`: plain integer digits when
/// `exp` is zero, otherwise sign, whole digits, a point, and exactly `exp`
/// fractional digits.
pub open spec fn decimal_wire(mantissa: int, exp: nat) -> Seq<char> {
    if exp == 0 {
        int_wire(mantissa)
    } else {
        let m = if mantissa < 0 { -mantissa } else { mantissa };
        let sign = if mantissa < 0 { seq!['-'] } else { Seq::<char>::empty() };
        sign + dec_digits((m / pow10(exp) as int) as nat) + seq!['.'] + frac_digits(
            (m % pow10(exp) as int) as nat,
            exp,
        )
    }
}

impl Decimal {
    /// A decimal with value `mantissa / 10^exp`.
    pub fn new(mantissa: i64, exp: u32) -> (r: Decimal)
        ensures
            r.mantissa == mantissa,
            r.exp == exp,
    {
        Decimal { mantissa, exp }
    }

    /// Whether this decimal can be rendered: the exponent is small enough
    /// for exact machine arithmetic.
    pub open spec fn renderable(&self) -> bool {
        self.exp <= 12
    }

    /// The wire text of this decimal.
    pub open spec fn wire(&self) -> Seq<char> {
        decimal_wire(self.mantissa as int, self.exp as nat)
    }

    /// The exact value of this decimal as the pair numerator, denominator.
    pub open spec fn val_num(&self) -> int {
        self.mantissa as int
    }

    /// Denominator of the exact value.
    pub open spec fn val_den(&self) -> int {
        pow10(self.exp as nat) as int
    }
}

/// Appends exactly `k` zero-padded decimal digits of `n` to `out`.
pub(crate) fn append_frac(out: &mut String, n: u64, k: u32)
    ensures
        final(out)@ == old(out)@ + frac_digits(n as nat, k as nat),
    decreases k,
{
    if k == 0 {
        proof {
            assert(final(out)@ =~= old(out)@ + frac_digits(n as nat, 0));
        }
    } else {
        append_frac(out, n / 10, k - 1);
        out.append(digit_str(n % 10));
        proof {
            assert(final(out)@ =~= old(out)@ + frac_digits(n as nat, k as nat));
        }
    }
}

/// Appends the wire text of the decimal `mantissa / 10^exp` to `out`.
pub fn append_decimal(out: &mut String, d: &Decimal)
    requires
        d.renderable(),
    ensures
        final(out)@ == old(out)@ + d.wire(),
{
    if d.exp == 0 {
        append_i64(out, d.mantissa);
    } else {
        let mag: u64 = if d.mantissa == i64::MIN {
            9223372036854775808u64
        } else if d.mantissa < 0 {
            (-d.mantissa) as u64
        } else {
            d.mantissa as u64
        };
        if d.mantissa < 0 {
            proof {
                reveal_strlit("-");
            }
            out.append("-");
            proof {
                assert("-"@ =~= seq!['-']);
            }
        }
        let p = pow10_u64(d.exp);
        append_u64(out, mag / p);
        proof {
            reveal_strlit(".");
        }
        out.append(".");
        append_frac(out, mag % p, d.exp);
        proof {
            assert("."@ =~= seq!['.']);
            assert(final(out)@ =~= old(out)@ + d.wire());
        }
    }
}

/// A rational number `num / den`; the denominator is positive for every
/// value this library constructs.
#[derive(Clone, Copy, Debug, PartialEq, Eq, Structural)]
pub struct Fraction {
    pub num: i128,
    pub den: i128,
}

impl Fraction {
    /// Well-formed: a positive denominator.
    pub open spec fn wf(&self) -> bool {
        self.den > 0
    }

    /// Whether this fraction and `other` denote the same rational value.
    pub open spec fn same_value(&self, other: Fraction) -> bool {
        self.num * other.den == other.num * self.den
    }

    /// The rational zero.
    pub fn zero() -> (r: Fraction)
        ensures
            r.num == 0,
            r.den == 1,
            r.wf(),
    {
        Fraction { num: 0, den: 1 }
    }

    /// The rational one.
    pub fn one() -> (r: Fraction)
        ensures
            r.num == 1,
            r.den == 1,
            r.wf(),
    {
        Fraction { num: 1, den: 1 }
    }

    /// Whether this fraction equals one.
    pub fn is_one(&self) -> (r: bool)
        requires
            self.wf(),
        ensures
            r == (self.num == self.den),
    {
        self.num == self.den
    }

    /// Whether this fraction equals zero.
    pub fn is_zero(&self) -> (r: bool)
        requires
            self.wf(),
        ensures
            r == (self.num == 0),
    {
        self.num == 0
    }
}

/// The mantissa of the four-fractional-digit decimal nearest to
/// `num/den`, rounding half up: `(num·10^4 + den/2) / den`.
pub open spec fn fixed4_mantissa(num: int, den: int) -> int {
    (num * 10000 + den / 2) / den
}

impl Fraction {
    /// This fraction, between zero and one, rounded half up at the fourth
    /// fractional digit; the result is the mantissa for exponent four.
    pub fn fixed4(&self) -> (m: u64)
        requires
            self.wf(),
            0 <= self.num <= self.den,
            self.den <= 17000000000000000000000000000000000000,
        ensures
            m as int == fixed4_mantissa(self.num as int, self.den as int),
            m <= 10000,
    {
        let nu: u128 = self.num as u128;
        let de: u128 = self.den as u128;
        if nu == de {
            proof {
                vstd::arithmetic::div_mod::lemma_fundamental_div_mod(de as int, 2);
                vstd::arithmetic::div_mod::lemma_fundamental_div_mod_converse(
                    nu as int * 10000 + de as int / 2,
                    de as int,
                    10000,
                    de as int / 2,
                );
            }
            return 10000;
        }
        let mut m: u128 = 0;
        let mut rem: u128 = nu;
        let mut k: u32 = 0;
        proof {
            reveal_with_fuel(pow10, 6);
        }
        while k < 4
            invariant
                de > 0,
                de <= 17000000000000000000000000000000000000,
                nu < de,
                k <= 4,
                rem < de,
                m <= pow10(k as nat),
                nu * pow10(k as nat) == m * de + rem,
            decreases 4 - k,
        {
            proof {
                reveal_with_fuel(pow10, 6);
                lemma_pow10_fixed4_bound(k as nat);
            }
            let rem10: u128 = rem * 10;
            let d: u128 = rem10 / de;
            proof {
                vstd::arithmetic::div_mod::lemma_fundamental_div_mod(rem10 as int, de as int);
                assert(d <= 9) by (nonlinear_arith)
                    requires
                        rem10 < 10 * de,
                        de > 0,
                        rem10 as int == de as int * (d as int) + (rem10 as int % de as int),
                        rem10 as int % de as int >= 0,
                ;
                assert((m * 10 + d) * de + (rem10 % de) == nu * (pow10(k as nat) * 10))
                    by (nonlinear_arith)
                    requires
                        nu * pow10(k as nat) == m * de + rem,
                        rem10 == rem * 10,
                        rem10 as int == de as int * (d as int) + (rem10 as int % de as int),
                ;
                assert(m * 10 + d <= pow10((k + 1) as nat)) by (nonlinear_arith)
                    requires
                        (m * 10 + d) * de + (rem10 as int % de as int) == nu * (pow10(k as nat)
                            * 10),
                        nu <= de,
                        de > 0,
                        rem10 as int % de as int >= 0,
                        pow10((k + 1) as nat) == pow10(k as nat) * 10,
                ;
            }
            m = m * 10 + d;
            rem = rem10 % de;
            k = k + 1;
        }
        let h: u128 = de / 2;
        proof {
            vstd::arithmetic::div_mod::lemma_fundamental_div_mod(de as int, 2);
            reveal_with_fuel(pow10, 6);
            assert(nu * 10000 == m * de + rem);
        }
        if 2 * rem >= de {
            proof {
                assert(m < 10000) by (nonlinear_arith)
                    requires
                        nu * 10000 == m * de + rem,
                        nu <= de,
                        de > 0,
                        2 * rem >= de,
                        rem < de,
                ;
                assert((m as int + 1) * de as int == m as int * de as int + de as int)
                    by (nonlinear_arith);
                vstd::arithmetic::div_mod::lemma_fundamental_div_mod_converse(
                    nu as int * 10000 + h as int,
                    de as int,
                    m as int + 1,
                    rem as int + h as int - de as int,
                );
            }
            m = m + 1;
        } else {
            proof {
                vstd::arithmetic::div_mod::lemma_fundamental_div_mod_converse(
                    nu as int * 10000 + h as int,
                    de as int,
                    m as int,
                    rem as int + h as int,
                );
                assert(m <= 10000) by (nonlinear_arith)
                    requires
                        nu * 10000 == m * de + rem,
                        nu <= de,
                        de > 0,
                        rem >= 0,
                ;
            }
        }
        m as u64
    }
}

/// Inside the four-digit loop the partial mantissa stays at most a
/// thousand.
proof fn lemma_pow10_fixed4_bound(k: nat)
    requires
        k <= 3,
    ensures
        pow10(k) <= 1000,
{
    reveal_with_fuel(pow10, 6);
    lemma_pow10_mono(k, 3);
}

/// The zero-padded digit block of `frac_digits` reads back as the low
/// digits of its number.
pub proof fn lemma_frac_digits_val(n: nat, k: nat)
    ensures
        frac_digits(n, k).len() == k,
        all_digits(frac_digits(n, k)),
        digits_val(frac_digits(n, k)) == n % pow10(k),
    decreases k,
{
    if k == 0 {
        assert(pow10(0) == 1);
        assert(n as int % 1 == 0) by (nonlinear_arith);
    } else {
        lemma_frac_digits_val(n / 10, (k - 1) as nat);
        let d = frac_digits(n, k);
        let pre = frac_digits(n / 10, (k - 1) as nat);
        assert(d =~= pre + seq![digit_char((n % 10) as int)]);
        assert(d.drop_last() =~= pre);
        assert(digits_val(d) == digits_val(pre) * 10 + digit_val_of_digit(n % 10));
        lemma_pow10_pos((k - 1) as nat);
        vstd::arithmetic::div_mod::lemma_mod_breakdown(n as int, 10, pow10((k - 1) as nat) as int);
        assert(pow10(k) == 10 * pow10((k - 1) as nat));
        assert(n as int % (10 * pow10((k - 1) as nat) as int) == 10 * ((n as int / 10) % pow10(
            (k - 1) as nat,
        ) as int) + n as int % 10);
    }
}

/// The numeric value of a digit character made from a digit.
pub open spec fn digit_val_of_digit(d: nat) -> int {
    crate::text::digit_val(digit_char((d % 10) as int))
}

/// The number a decimal wire text with `e` fractional digits denotes,
/// scaled to an integer mantissa: sign, whole digits times `10^e`, plus
/// the fractional digits.
pub open spec fn decimal_wire_val(s: Seq<char>, e: nat) -> int {
    let body = if s.len() >= 1 && s[0] == '-' {
        s.subrange(1, s.len() as int)
    } else {
        s
    };
    let sign: int = if s.len() >= 1 && s[0] == '-' {
        -1
    } else {
        1
    };
    if e == 0 {
        int_wire_val(s)
    } else {
        let whole = body.subrange(0, body.len() - e - 1);
        let frac = body.subrange(body.len() - e, body.len() as int);
        sign * (digits_val(whole) * pow10(e) + digits_val(frac))
    }
}

/// Decimal serialization is numeric passthrough: reading the wire text of
/// any renderable decimal back recovers its mantissa exactly.
pub proof fn lemma_decimal_wire_round_trip(m: int, e: nat)
    requires
        e <= 12,
        -0x8000000000000000 <= m <= 0x7fffffffffffffff,
    ensures
        decimal_wire_val(decimal_wire(m, e), e) == m,
{
    if e == 0 {
        crate::text::lemma_int_wire_round_trip(m);
    } else {
        let p = pow10(e) as int;
        lemma_pow10_bound(e);
        lemma_pow10_pos(e);
        let mag = if m < 0 {
            -m
        } else {
            m
        };
        let w = (mag / p) as nat;
        let f = (mag % p) as nat;
        vstd::arithmetic::div_mod::lemma_div_pos_is_pos(mag, p);
        vstd::arithmetic::div_mod::lemma_mod_pos_bound(mag, p);
        lemma_dec_digits_val(w);
        lemma_frac_digits_val(f, e);
        vstd::arithmetic::div_mod::lemma_fundamental_div_mod(mag, p);
        assert(f < p) by {
            assert(0 <= mag % p < p);
        }
        assert(f as int % p == f) by {
            vstd::arithmetic::div_mod::lemma_small_mod(f, p as nat);
        }
        let s = decimal_wire(m, e);
        let dd = dec_digits(w);
        let fd = frac_digits(f, e);
        let body = dd + seq!['.'] + fd;
        if m < 0 {
            assert(s =~= seq!['-'] + body);
            assert(s[0] == '-');
            assert(s.subrange(1, s.len() as int) =~= body);
        } else {
            assert(s =~= body);
            assert(s.len() >= 1);
            if s[0] == '-' {
                assert(crate::text::digit_val(dd[0]) >= 0) by {
                    assert(all_digits(dd));
                }
                assert(false);
            }
        }
        assert(body.subrange(0, body.len() - e - 1) =~= dd);
        assert(body.subrange(body.len() - e, body.len() as int) =~= fd);
        assert(digits_val(dd) * p + digits_val(fd) == mag);
        if m < 0 {
            assert(decimal_wire_val(s, e) == -1 * (digits_val(dd) * p + digits_val(fd)));
            assert(-1 * mag == m) by (nonlinear_arith)
                requires
                    mag == -m,
            ;
        } else {
            assert(decimal_wire_val(s, e) == 1 * (digits_val(dd) * p + digits_val(fd)));
        }
    }
}

} // verus!
