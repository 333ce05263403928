//! Ordinary least-squares linear regression with R² computation, in exact
//! integer arithmetic. Decimal inputs are scaled to a common exponent per
//! axis; the fitted line and R² are then exact rationals. Inputs are
//! bounded so that every intermediate fits a 128-bit machine integer:
//! after scaling, each coordinate must lie within ±10^6 and a series may
//! hold at most 1024 points. Out-of-bound inputs report a recoverable
//! numeric error, never a wrong result.

use vstd::prelude::*;
use crate::numeric::{Decimal, Fraction, pow10, pow10_u64};
use crate::data::ChartData;

verus! {

/// Raised when the regression solve cannot produce an exact result: a
/// degenerate design matrix, or inputs beyond the exact-arithmetic bounds.
#[derive(Clone, Copy, Debug, PartialEq, Eq, Structural)]
pub enum NumericError {
    /// The design matrix is singular: every x value is the same.
    Singular,
    /// The inputs exceed the bounds under which the arithmetic is exact.
    OutOfRange,
}

/// The outcome of a least-squares fit: the fitted series over the input
/// x values, and the coefficient of determination as an exact rational.
#[derive(Clone, Debug)]
pub struct RegressionResult {
    pub fitted: ChartData<Decimal, Decimal>,
    pub r_squared: Fraction,
}

/// The largest exponent among the x coordinates.
pub open spec fn max_exp_x(s: Seq<(Decimal, Decimal)>) -> nat
    decreases s.len(),
{
    if s.len() == 0 {
        0
    } else {
        let rest = max_exp_x(s.drop_last());
        if s.last().0.exp as nat > rest {
            s.last().0.exp as nat
        } else {
            rest
        }
    }
}

/// The largest exponent among the y coordinates.
pub open spec fn max_exp_y(s: Seq<(Decimal, Decimal)>) -> nat
    decreases s.len(),
{
    if s.len() == 0 {
        0
    } else {
        let rest = max_exp_y(s.drop_last());
        if s.last().1.exp as nat > rest {
            s.last().1.exp as nat
        } else {
            rest
        }
    }
}

/// The x coordinates brought to the common exponent: integers whose value
/// is the x value times ten to the largest x exponent.
pub open spec fn scaled_xs(s: Seq<(Decimal, Decimal)>) -> Seq<int> {
    Seq::new(s.len(), |i: int| s[i].0.mantissa * pow10((max_exp_x(s) - s[i].0.exp) as nat))
}

/// The y coordinates brought to the common exponent.
pub open spec fn scaled_ys(s: Seq<(Decimal, Decimal)>) -> Seq<int> {
    Seq::new(s.len(), |i: int| s[i].1.mantissa * pow10((max_exp_y(s) - s[i].1.exp) as nat))
}

/// Sum of a sequence of integers.
pub open spec fn isum(q: Seq<int>) -> int
    decreases q.len(),
{
    if q.len() == 0 {
        0
    } else {
        isum(q.drop_last()) + q.last()
    }
}

/// Sum of the pointwise products of two equally long sequences.
pub open spec fn isum_mul(a: Seq<int>, b: Seq<int>) -> int
    decreases a.len(),
{
    if a.len() == 0 || b.len() == 0 {
        0
    } else {
        isum_mul(a.drop_last(), b.drop_last()) + a.last() * b.last()
    }
}

/// The inputs this engine accepts exactly: at most 1024 points, exponents
/// at most 12, and scaled coordinates within ±10^6. These are machine
/// limits of the exact arithmetic, not properties of the data model.
pub open spec fn bounds_ok(s: Seq<(Decimal, Decimal)>) -> bool {
    &&& s.len() <= 1024
    &&& forall|i: int| 0 <= i < s.len() ==> (#[trigger] s[i]).0.exp <= 12 && s[i].1.exp <= 12
    &&& forall|i: int| 0 <= i < s.len() ==> -1000000 <= #[trigger] scaled_xs(s)[i] <= 1000000
    &&& forall|i: int| 0 <= i < s.len() ==> -1000000 <= #[trigger] scaled_ys(s)[i] <= 1000000
}

/// Determinant of the normal equations: `n·Σx² − (Σx)²`, over the scaled
/// integer coordinates. Zero exactly when all x values coincide.
pub open spec fn d_of(s: Seq<(Decimal, Decimal)>) -> int {
    s.len() * isum_mul(scaled_xs(s), scaled_xs(s)) - isum(scaled_xs(s)) * isum(scaled_xs(s))
}

/// Slope numerator: `n·Σxy − Σx·Σy` over the scaled coordinates.
pub open spec fn a_of(s: Seq<(Decimal, Decimal)>) -> int {
    s.len() * isum_mul(scaled_xs(s), scaled_ys(s)) - isum(scaled_xs(s)) * isum(scaled_ys(s))
}

/// Total-variation numerator: `n·Σy² − (Σy)²`. Zero exactly when all y
/// values coincide, that is when SS_tot is zero.
pub open spec fn t_of(s: Seq<(Decimal, Decimal)>) -> int {
    s.len() * isum_mul(scaled_ys(s), scaled_ys(s)) - isum(scaled_ys(s)) * isum(scaled_ys(s))
}

/// Intercept-related numerator: `D·Σy − A·Σx`.
pub open spec fn c_of(s: Seq<(Decimal, Decimal)>) -> int {
    d_of(s) * isum(scaled_ys(s)) - a_of(s) * isum(scaled_xs(s))
}

/// Numerator of the fitted y value at input point `i`: the fitted value is
/// `f_of(s, i) / g_of(s)` in original y units.
pub open spec fn f_of(s: Seq<(Decimal, Decimal)>, i: int) -> int {
    s.len() * a_of(s) * scaled_xs(s)[i] + c_of(s)
}

/// Common denominator of the fitted values: `n·D` times the y scale.
pub open spec fn g_of(s: Seq<(Decimal, Decimal)>) -> int {
    s.len() * d_of(s) * pow10(max_exp_y(s))
}

/// Scaled residual at point `i`: zero exactly when the fitted line passes
/// through the point. `res_of(s, i) / g_of(s)` is the true residual.
pub open spec fn res_of(s: Seq<(Decimal, Decimal)>, i: int) -> int {
    s.len() * d_of(s) * scaled_ys(s)[i] - f_of(s, i)
}

/// Whether the sum of squared residuals is zero: every point lies on the
/// fitted line.
pub open spec fn residuals_zero(s: Seq<(Decimal, Decimal)>) -> bool {
    forall|i: int| 0 <= i < s.len() ==> res_of(s, i) == 0
}

/// Magnitude of a quotient rounded half away from zero to six fractional
/// digits: `|f|·10^6 / g`, rounded to the nearest integer.
pub open spec fn round6_mag(f: int, g: int) -> int {
    let m = if f < 0 {
        -f
    } else {
        f
    };
    (m * 1000000 + g / 2) / g
}

/// Canonical mantissa and exponent: trailing zero digits of the fraction
/// are dropped.
pub open spec fn canon(m: nat, e: nat) -> (nat, nat)
    decreases e,
{
    if e == 0 || m % 10 != 0 {
        (m, e)
    } else {
        canon(m / 10, (e - 1) as nat)
    }
}

/// The fitted y value at point `i` as a canonical decimal, rounded half
/// away from zero at the sixth fractional digit.
pub open spec fn fitted_dec(s: Seq<(Decimal, Decimal)>, i: int) -> Decimal {
    let f = f_of(s, i);
    let g = g_of(s);
    let m0 = round6_mag(f, g);
    let mc = canon(m0 as nat, 6).0;
    let ec = canon(m0 as nat, 6).1;
    Decimal {
        mantissa: if f < 0 {
            (0 - mc) as i64
        } else {
            mc as i64
        },
        exp: ec as u32,
    }
}

/// The fitted series: the input x values in their original order, each
/// paired with its fitted y value.
pub open spec fn fitted_seq(s: Seq<(Decimal, Decimal)>) -> Seq<(Decimal, Decimal)> {
    Seq::new(s.len(), |i: int| (s[i].0, fitted_dec(s, i)))
}

/// Whether every rounded fitted mantissa fits a 64-bit machine integer.
pub open spec fn fitted_fits(s: Seq<(Decimal, Decimal)>) -> bool {
    forall|i: int| 0 <= i < s.len() ==> #[trigger] round6_mag(f_of(s, i), g_of(s))
        <= 0x7fffffffffffffff
}

/// The coefficient of determination, `1 − SS_res/SS_tot`, as an exact
/// rational. For the least-squares line this equals `A²/(D·T)`, which is
/// the form the fields take. The edge cases follow the engine's contract:
/// an empty input has R² = 0; a constant target (SS_tot = 0) has R² = 1
/// when the fit is exact and 0 otherwise.
pub open spec fn r2_of(s: Seq<(Decimal, Decimal)>) -> Fraction {
    if s.len() == 0 {
        Fraction { num: 0, den: 1 }
    } else if t_of(s) <= 0 {
        if residuals_zero(s) {
            Fraction { num: 1, den: 1 }
        } else {
            Fraction { num: 0, den: 1 }
        }
    } else {
        Fraction { num: (a_of(s) * a_of(s)) as i128, den: (d_of(s) * t_of(s)) as i128 }
    }
}

/// Sum of squared deviations of a sequence from a fixed value.
pub open spec fn sq_dev_sum(q: Seq<int>, x: int) -> int
    decreases q.len(),
{
    if q.len() == 0 {
        0
    } else {
        sq_dev_sum(q.drop_last(), x) + (q.last() - x) * (q.last() - x)
    }
}

/// A sum of squares is never negative.
proof fn lemma_sq_dev_sum_nonneg(q: Seq<int>, x: int)
    ensures
        sq_dev_sum(q, x) >= 0,
    decreases q.len(),
{
    if q.len() > 0 {
        lemma_sq_dev_sum_nonneg(q.drop_last(), x);
        assert((q.last() - x) * (q.last() - x) >= 0) by (nonlinear_arith);
    }
}

/// The squared-deviation sum expanded over the plain sums.
proof fn lemma_sq_dev_sum_value(q: Seq<int>, x: int)
    ensures
        sq_dev_sum(q, x) == isum_mul(q, q) + q.len() * (x * x) - 2 * x * isum(q),
    decreases q.len(),
{
    if q.len() > 0 {
        let d = q.drop_last();
        let l = q.last();
        lemma_sq_dev_sum_value(d, x);
        assert(sq_dev_sum(q, x) == isum_mul(d, d) + d.len() * (x * x) - 2 * x * isum(d) + (l - x)
            * (l - x));
        assert((l - x) * (l - x) == l * l - 2 * x * l + x * x) by (nonlinear_arith);
        assert(d.len() * (x * x) + x * x == q.len() * (x * x)) by (nonlinear_arith)
            requires
                q.len() == d.len() + 1,
        ;
        assert(2 * x * isum(d) + 2 * x * l == 2 * x * isum(q)) by (nonlinear_arith)
            requires
                isum(q) == isum(d) + l,
        ;
    }
}

/// The variance determinant is never negative: `n·Σq² ≥ (Σq)²` for any
/// integer sequence.
proof fn lemma_variance_nonneg(q: Seq<int>)
    ensures
        q.len() * isum_mul(q, q) - isum(q) * isum(q) >= 0,
    decreases q.len(),
{
    if q.len() > 0 {
        let d = q.drop_last();
        let l = q.last();
        lemma_variance_nonneg(d);
        lemma_sq_dev_sum_nonneg(d, l);
        lemma_sq_dev_sum_value(d, l);
        assert(q.len() * isum_mul(q, q) - isum(q) * isum(q) == (d.len() * isum_mul(d, d) - isum(d)
            * isum(d)) + sq_dev_sum(d, l)) by (nonlinear_arith)
            requires
                q.len() == d.len() + 1,
                isum(q) == isum(d) + l,
                isum_mul(q, q) == isum_mul(d, d) + l * l,
                sq_dev_sum(d, l) == isum_mul(d, d) + d.len() * (l * l) - 2 * l * isum(d),
        ;
    }
}

/// Product magnitude bound: factors bounded in magnitude bound the
/// product.
proof fn lemma_abs_mul_le(a: int, b: int, ca: int, cb: int)
    requires
        -ca <= a <= ca,
        -cb <= b <= cb,
        0 <= ca,
        0 <= cb,
    ensures
        -(ca * cb) <= a * b <= ca * cb,
{
    assert(-(ca * cb) <= a * b <= ca * cb) by (nonlinear_arith)
        requires
            -ca <= a <= ca,
            -cb <= b <= cb,
            0 <= ca,
            0 <= cb,
    ;
}

/// A product of two positive integers is positive.
proof fn lemma_pos_mul(a: int, b: int)
    requires
        a > 0,
        b > 0,
    ensures
        a * b > 0,
{
    assert(a * b > 0) by (nonlinear_arith)
        requires
            a > 0,
            b > 0,
    ;
}

/// Every x exponent is at most the common x exponent.
proof fn lemma_max_exp_x_ge(s: Seq<(Decimal, Decimal)>, i: int)
    requires
        0 <= i < s.len(),
    ensures
        s[i].0.exp as nat <= max_exp_x(s),
    decreases s.len(),
{
    if i == s.len() - 1 {
    } else {
        lemma_max_exp_x_ge(s.drop_last(), i);
        assert(s.drop_last()[i] == s[i]);
    }
}

/// Every y exponent is at most the common y exponent.
proof fn lemma_max_exp_y_ge(s: Seq<(Decimal, Decimal)>, i: int)
    requires
        0 <= i < s.len(),
    ensures
        s[i].1.exp as nat <= max_exp_y(s),
    decreases s.len(),
{
    if i == s.len() - 1 {
    } else {
        lemma_max_exp_y_ge(s.drop_last(), i);
        assert(s.drop_last()[i] == s[i]);
    }
}

/// Checks the exact-arithmetic bounds and brings both coordinates to a
/// common per-axis exponent. Returns the scaled integer coordinates, or
/// nothing exactly when the bounds fail.
fn scale_inputs(points: &Vec<(Decimal, Decimal)>) -> (r: Option<(Vec<i64>, Vec<i64>)>)
    ensures
        r is Some <==> bounds_ok(points@),
        r matches Some(p) ==> {
            &&& p.0@.len() == points@.len()
            &&& p.1@.len() == points@.len()
            &&& p.0@.map_values(|v: i64| v as int) == scaled_xs(points@)
            &&& p.1@.map_values(|v: i64| v as int) == scaled_ys(points@)
        },
{
    let n = points.len();
    if n > 1024 {
        return None;
    }
    let mut mex: u32 = 0;
    let mut mey: u32 = 0;
    let mut i: usize = 0;
    proof {
        assert(points@.take(0) =~= Seq::<(Decimal, Decimal)>::empty());
    }
    while i < n
        invariant
            n == points@.len() <= 1024,
            i <= n,
            forall|k: int| 0 <= k < i ==> (#[trigger] points@[k]).0.exp <= 12 && points@[k].1.exp
                <= 12,
            mex as nat == max_exp_x(points@.take(i as int)),
            mey as nat == max_exp_y(points@.take(i as int)),
            mex <= 12,
            mey <= 12,
        decreases n - i,
    {
        let p = points[i];
        if p.0.exp > 12 || p.1.exp > 12 {
            return None;
        }
        proof {
            assert(points@.take(i as int + 1).drop_last() =~= points@.take(i as int));
            assert(points@.take(i as int + 1).last() == points@[i as int]);
        }
        if p.0.exp > mex {
            mex = p.0.exp;
        }
        if p.1.exp > mey {
            mey = p.1.exp;
        }
        i = i + 1;
    }
    proof {
        assert(points@.take(n as int) =~= points@);
    }
    let mut xs: Vec<i64> = Vec::new();
    let mut ys: Vec<i64> = Vec::new();
    let mut i: usize = 0;
    proof {
        assert(scaled_xs(points@).take(0) =~= Seq::<int>::empty());
        assert(scaled_ys(points@).take(0) =~= Seq::<int>::empty());
        assert(xs@.map_values(|v: i64| v as int) =~= Seq::<int>::empty());
        assert(ys@.map_values(|v: i64| v as int) =~= Seq::<int>::empty());
    }
    while i < n
        invariant
            n == points@.len() <= 1024,
            i <= n,
            forall|k: int| 0 <= k < n ==> (#[trigger] points@[k]).0.exp <= 12 && points@[k].1.exp
                <= 12,
            mex as nat == max_exp_x(points@),
            mey as nat == max_exp_y(points@),
            mex <= 12,
            mey <= 12,
            xs@.map_values(|v: i64| v as int) == scaled_xs(points@).take(i as int),
            ys@.map_values(|v: i64| v as int) == scaled_ys(points@).take(i as int),
            forall|k: int| 0 <= k < i ==> -1000000 <= #[trigger] scaled_xs(points@)[k] <= 1000000,
            forall|k: int| 0 <= k < i ==> -1000000 <= #[trigger] scaled_ys(points@)[k] <= 1000000,
        decreases n - i,
    {
        let p = points[i];
        proof {
            lemma_max_exp_x_ge(points@, i as int);
            lemma_max_exp_y_ge(points@, i as int);
        }
        let px = pow10_u64(mex - p.0.exp) as i128;
        let py = pow10_u64(mey - p.1.exp) as i128;
        proof {
            crate::numeric::lemma_pow10_bound((mex - p.0.exp) as nat);
            crate::numeric::lemma_pow10_bound((mey - p.1.exp) as nat);
            lemma_abs_mul_le(p.0.mantissa as int, px as int, 9223372036854775808, 1000000000000);
            lemma_abs_mul_le(p.1.mantissa as int, py as int, 9223372036854775808, 1000000000000);
        }
        let xi: i128 = (p.0.mantissa as i128) * px;
        let yi: i128 = (p.1.mantissa as i128) * py;
        proof {
            assert(xi as int == scaled_xs(points@)[i as int]);
            assert(yi as int == scaled_ys(points@)[i as int]);
        }
        if xi > 1000000 || xi < -1000000 || yi > 1000000 || yi < -1000000 {
            return None;
        }
        proof {
            xs@.lemma_push_map_commute(|v: i64| v as int, xi as i64);
            ys@.lemma_push_map_commute(|v: i64| v as int, yi as i64);
            assert(xs@.push(xi as i64).map_values(|v: i64| v as int) =~= scaled_xs(
                points@,
            ).take(i as int + 1));
            assert(ys@.push(yi as i64).map_values(|v: i64| v as int) =~= scaled_ys(
                points@,
            ).take(i as int + 1));
        }
        xs.push(xi as i64);
        ys.push(yi as i64);
        i = i + 1;
    }
    proof {
        assert(scaled_xs(points@).take(n as int) =~= scaled_xs(points@));
        assert(scaled_ys(points@).take(n as int) =~= scaled_ys(points@));
    }
    Some((xs, ys))
}

/// The five sums the normal equations need, over the scaled coordinates,
/// with magnitude bounds that keep every later product inside 128 bits.
fn compute_sums(xs: &Vec<i64>, ys: &Vec<i64>) -> (r: (i128, i128, i128, i128, i128))
    requires
        xs@.len() == ys@.len(),
        xs@.len() <= 1024,
        forall|k: int| 0 <= k < xs@.len() ==> -1000000 <= #[trigger] (xs@[k] as int) <= 1000000,
        forall|k: int| 0 <= k < ys@.len() ==> -1000000 <= #[trigger] (ys@[k] as int) <= 1000000,
    ensures
        ({
            let xi = xs@.map_values(|v: i64| v as int);
            let yi = ys@.map_values(|v: i64| v as int);
            &&& r.0 == isum(xi) && -1024000000 <= r.0 <= 1024000000
            &&& r.1 == isum(yi) && -1024000000 <= r.1 <= 1024000000
            &&& r.2 == isum_mul(xi, xi) && -1024000000000000 <= r.2 <= 1024000000000000
            &&& r.3 == isum_mul(xi, yi) && -1024000000000000 <= r.3 <= 1024000000000000
            &&& r.4 == isum_mul(yi, yi) && -1024000000000000 <= r.4 <= 1024000000000000
        }),
{
    let ghost xi = xs@.map_values(|v: i64| v as int);
    let ghost yi = ys@.map_values(|v: i64| v as int);
    let n = xs.len();
    let mut sx: i128 = 0;
    let mut sy: i128 = 0;
    let mut sxx: i128 = 0;
    let mut sxy: i128 = 0;
    let mut syy: i128 = 0;
    let mut i: usize = 0;
    proof {
        assert(xi.take(0) =~= Seq::<int>::empty());
        assert(yi.take(0) =~= Seq::<int>::empty());
    }
    while i < n
        invariant
            n == xs@.len(),
            n == ys@.len(),
            n <= 1024,
            i <= n,
            xi == xs@.map_values(|v: i64| v as int),
            yi == ys@.map_values(|v: i64| v as int),
            forall|k: int| 0 <= k < n ==> -1000000 <= #[trigger] (xs@[k] as int) <= 1000000,
            forall|k: int| 0 <= k < n ==> -1000000 <= #[trigger] (ys@[k] as int) <= 1000000,
            sx == isum(xi.take(i as int)),
            sy == isum(yi.take(i as int)),
            sxx == isum_mul(xi.take(i as int), xi.take(i as int)),
            sxy == isum_mul(xi.take(i as int), yi.take(i as int)),
            syy == isum_mul(yi.take(i as int), yi.take(i as int)),
            -1000000 * i <= sx <= 1000000 * i,
            -1000000 * i <= sy <= 1000000 * i,
            -1000000000000 * i <= sxx <= 1000000000000 * i,
            -1000000000000 * i <= sxy <= 1000000000000 * i,
            -1000000000000 * i <= syy <= 1000000000000 * i,
        decreases n - i,
    {
        let x = xs[i] as i128;
        let y = ys[i] as i128;
        proof {
            lemma_abs_mul_le(x as int, x as int, 1000000, 1000000);
            lemma_abs_mul_le(x as int, y as int, 1000000, 1000000);
            lemma_abs_mul_le(y as int, y as int, 1000000, 1000000);
            assert(xi.take(i as int + 1).drop_last() =~= xi.take(i as int));
            assert(yi.take(i as int + 1).drop_last() =~= yi.take(i as int));
            assert(xi.take(i as int + 1).last() == xi[i as int]);
            assert(yi.take(i as int + 1).last() == yi[i as int]);
        }
        sx = sx + x;
        sy = sy + y;
        sxx = sxx + x * x;
        sxy = sxy + x * y;
        syy = syy + y * y;
        i = i + 1;
    }
    proof {
        assert(xi.take(n as int) =~= xi);
        assert(yi.take(n as int) =~= yi);
    }
    (sx, sy, sxx, sxy, syy)
}

/// Least-squares line fit with R², in exact arithmetic.
///
/// The empty input yields R² = 0 and an empty fitted series. A singular
/// design matrix (every x equal) is reported as a recoverable error. When
/// all true y values coincide, R² is 1 for the exact degenerate fit and 0
/// otherwise. In every other case R² equals `1 − SS_res/SS_tot`, held in
/// the equivalent exact form `A²/(D·T)` of the least-squares line. The
/// fitted series keeps the x values and their order, pairing each with the
/// fitted y value rounded at the sixth fractional digit.
pub fn fit(points: &Vec<(Decimal, Decimal)>) -> (r: Result<RegressionResult, NumericError>)
    ensures
        r == Err::<RegressionResult, NumericError>(NumericError::OutOfRange) <==> (!bounds_ok(
            points@,
        ) || (points@.len() > 0 && bounds_ok(points@) && d_of(points@) > 0 && !fitted_fits(
            points@,
        ))),
        r == Err::<RegressionResult, NumericError>(NumericError::Singular) <==> (bounds_ok(points@)
            && points@.len() > 0 && d_of(points@) == 0),
        r matches Ok(out) ==> {
            &&& out.r_squared == r2_of(points@)
            &&& out.r_squared.wf()
            &&& 0 <= out.r_squared.num
            &&& out.r_squared.den <= 4410000000000000000000000000000000000
            &&& out.fitted is Vector2D
            &&& out.fitted.xy_seq() == fitted_seq(points@)
        },
{
    let scaled = scale_inputs(points);
    let (xs, ys) = match scaled {
        Some(p) => p,
        None => {
            return Err(NumericError::OutOfRange);
        },
    };
    let n = points.len();
    if n == 0 {
        let empty: Vec<(Decimal, Decimal)> = Vec::new();
        proof {
            assert(empty@ =~= fitted_seq(points@));
        }
        return Ok(
            RegressionResult { fitted: ChartData::pairs(empty), r_squared: Fraction::zero() },
        );
    }
    let ghost xi = xs@.map_values(|v: i64| v as int);
    let ghost yi = ys@.map_values(|v: i64| v as int);
    proof {
        assert forall|k: int| 0 <= k < xs@.len() implies -1000000 <= #[trigger] (xs@[k] as int)
            <= 1000000 by {
            assert(xi[k] == xs@[k] as int);
            assert(scaled_xs(points@)[k] == xi[k]);
        }
        assert forall|k: int| 0 <= k < ys@.len() implies -1000000 <= #[trigger] (ys@[k] as int)
            <= 1000000 by {
            assert(yi[k] == ys@[k] as int);
            assert(scaled_ys(points@)[k] == yi[k]);
        }
    }
    let (sx, sy, sxx, sxy, syy) = compute_sums(&xs, &ys);
    let ni: i128 = n as i128;
    proof {
        lemma_abs_mul_le(ni as int, sxx as int, 1024, 1024000000000000);
        lemma_abs_mul_le(ni as int, sxy as int, 1024, 1024000000000000);
        lemma_abs_mul_le(ni as int, syy as int, 1024, 1024000000000000);
        lemma_abs_mul_le(sx as int, sx as int, 1024000000, 1024000000);
        lemma_abs_mul_le(sx as int, sy as int, 1024000000, 1024000000);
        lemma_abs_mul_le(sy as int, sy as int, 1024000000, 1024000000);
    }
    let d: i128 = ni * sxx - sx * sx;
    let a: i128 = ni * sxy - sx * sy;
    let t: i128 = ni * syy - sy * sy;
    proof {
        assert(d as int == d_of(points@));
        assert(a as int == a_of(points@));
        assert(t as int == t_of(points@));
        lemma_variance_nonneg(scaled_xs(points@));
        lemma_variance_nonneg(scaled_ys(points@));
        assert(scaled_xs(points@).len() == points@.len());
        assert(scaled_ys(points@).len() == points@.len());
        assert(d >= 0);
        assert(t >= 0);
    }
    if d == 0 {
        return Err(NumericError::Singular);
    }
    proof {
        lemma_abs_mul_le(d as int, sy as int, 2100000000000000000, 1024000000);
        lemma_abs_mul_le(a as int, sx as int, 2100000000000000000, 1024000000);
        lemma_abs_mul_le(ni as int, a as int, 1024, 2100000000000000000);
        lemma_abs_mul_le(ni as int, d as int, 1024, 2100000000000000000);
    }
    let c: i128 = d * sy - a * sx;
    let na: i128 = ni * a;
    let nd: i128 = ni * d;
    let sy_scale = {
        let ghost s = points@;
        let mut mey: u32 = 0;
        let mut j: usize = 0;
        proof {
            assert(points@.take(0) =~= Seq::<(Decimal, Decimal)>::empty());
        }
        while j < n
            invariant
                n == points@.len(),
                j <= n,
                bounds_ok(points@),
                mey as nat == max_exp_y(points@.take(j as int)),
                mey <= 12,
            decreases n - j,
        {
            let p = points[j];
            proof {
                assert(points@.take(j as int + 1).drop_last() =~= points@.take(j as int));
                assert(points@.take(j as int + 1).last() == points@[j as int]);
                assert(points@[j as int].1.exp <= 12);
            }
            if p.1.exp > mey {
                mey = p.1.exp;
            }
            j = j + 1;
        }
        proof {
            assert(points@.take(n as int) =~= points@);
        }
        pow10_u64(mey) as i128
    };
    proof {
        crate::numeric::lemma_pow10_bound(max_exp_y(points@));
        lemma_abs_mul_le(nd as int, sy_scale as int, 2150400000000000000000, 1000000000000);
        lemma_pos_mul(ni as int, d as int);
        lemma_pos_mul((ni * d) as int, sy_scale as int);
    }
    let g: i128 = nd * sy_scale;
    proof {
        assert(g as int == g_of(points@));
        assert(g > 0);
    }
    let gu: u128 = g as u128;
    let mut fitted_vec: Vec<(Decimal, Decimal)> = Vec::new();
    let mut all_zero: bool = true;
    let mut i: usize = 0;
    proof {
        assert(fitted_vec@ =~= fitted_seq(points@).take(0));
    }
    while i < n
        invariant
            n == points@.len(),
            n == xs@.len(),
            n == ys@.len(),
            1 <= n <= 1024,
            i <= n,
            bounds_ok(points@),
            d_of(points@) > 0,
            xi == xs@.map_values(|v: i64| v as int),
            yi == ys@.map_values(|v: i64| v as int),
            xi == scaled_xs(points@),
            yi == scaled_ys(points@),
            na as int == points@.len() * a_of(points@),
            nd as int == points@.len() * d_of(points@),
            c as int == c_of(points@),
            g as int == g_of(points@),
            g > 0,
            gu == g as u128,
            -2150400000000000000000 <= na <= 2150400000000000000000,
            -2150400000000000000000 <= nd <= 2150400000000000000000,
            -4400000000000000000000000000 <= c <= 4400000000000000000000000000,
            g <= 2150400000000000000000000000000000,
            fitted_vec@ == fitted_seq(points@).take(i as int),
            all_zero <==> (forall|k: int| 0 <= k < i ==> res_of(points@, k) == 0),
            forall|k: int| 0 <= k < i ==> #[trigger] round6_mag(f_of(points@, k), g_of(points@))
                <= 0x7fffffffffffffff,
        decreases n - i,
    {
        let x = xs[i] as i128;
        let y = ys[i] as i128;
        proof {
            assert(xi[i as int] == xs@[i as int] as int);
            assert(yi[i as int] == ys@[i as int] as int);
            assert(scaled_xs(points@)[i as int] == x as int);
            assert(scaled_ys(points@)[i as int] == y as int);
            assert(-1000000 <= x <= 1000000);
            assert(-1000000 <= y <= 1000000);
            lemma_abs_mul_le(na as int, x as int, 2150400000000000000000, 1000000);
            lemma_abs_mul_le(nd as int, y as int, 2150400000000000000000, 1000000);
        }
        let f: i128 = na * x + c;
        let res: i128 = nd * y - f;
        proof {
            assert(f as int == f_of(points@, i as int));
            assert(res as int == res_of(points@, i as int));
        }
        if res != 0 {
            all_zero = false;
        }
        let mag: u128 = if f < 0 {
            (-f) as u128
        } else {
            f as u128
        };
        let m6: u128 = mag * 1000000;
        let m0: u128 = (m6 + gu / 2) / gu;
        proof {
            assert(m0 as int == round6_mag(f_of(points@, i as int), g_of(points@)));
        }
        if m0 > 9223372036854775807u128 {
            proof {
                assert(round6_mag(f_of(points@, i as int), g_of(points@)) > 0x7fffffffffffffff);
                assert(!fitted_fits(points@));
            }
            return Err(NumericError::OutOfRange);
        }
        let mut m: u128 = m0;
        let mut e: u32 = 6;
        while e > 0 && m % 10 == 0
            invariant
                m <= m0,
                m0 <= 9223372036854775807u128,
                e <= 6,
                canon(m as nat, e as nat) == canon(m0 as nat, 6),
            decreases e,
        {
            m = m / 10;
            e = e - 1;
        }
        let mantissa: i64 = if f < 0 {
            -(m as i64)
        } else {
            m as i64
        };
        let dec = Decimal { mantissa, exp: e };
        proof {
            assert(canon(m as nat, e as nat) == (m as nat, e as nat));
            assert(dec == fitted_dec(points@, i as int));
            assert(fitted_vec@.push((points@[i as int].0, dec)) =~= fitted_seq(points@).take(
                i as int + 1,
            ));
        }
        fitted_vec.push((points[i].0, dec));
        i = i + 1;
    }
    proof {
        assert(fitted_seq(points@).take(n as int) =~= fitted_seq(points@));
    }
    let r_squared: Fraction = if t <= 0 {
        if all_zero {
            Fraction::one()
        } else {
            Fraction::zero()
        }
    } else {
        proof {
            lemma_abs_mul_le(a as int, a as int, 2100000000000000000, 2100000000000000000);
            lemma_abs_mul_le(d as int, t as int, 2100000000000000000, 2100000000000000000);
            lemma_pos_mul(d as int, t as int);
            assert(a as int * a as int >= 0) by (nonlinear_arith);
        }
        Fraction { num: a * a, den: d * t }
    };
    proof {
        assert(r_squared == r2_of(points@));
    }
    Ok(RegressionResult { fitted: ChartData::pairs(fitted_vec), r_squared })
}

} // verus!
