//! Unsigned and signed 32-bit rationals as EXIF stores them, and their sum.

use num::rational::Ratio;
use vstd::prelude::*;
use vstd::std_specs::cmp::PartialEqSpecImpl;

use crate::errors::{EncodeCause, MergeError};

verus! {

/// An unsigned rational: numerator over denominator, not necessarily reduced.
#[derive(Clone, Copy, Debug, Eq)]
pub struct Rational {
    pub n: u32,
    pub d: u32,
}

/// A signed rational.
#[derive(Clone, Copy, Debug, Eq)]
pub struct SRational {
    pub n: i32,
    pub d: i32,
}

impl PartialEq for Rational {
    /// Two rationals are the same entry when numerator and denominator agree.
    fn eq(&self, other: &Rational) -> (r: bool) {
        self.n == other.n && self.d == other.d
    }
}

impl PartialEqSpecImpl for Rational {
    open spec fn obeys_eq_spec() -> bool {
        true
    }

    open spec fn eq_spec(&self, other: &Rational) -> bool {
        self.n == other.n && self.d == other.d
    }
}

impl PartialEq for SRational {
    /// Two rationals are the same entry when numerator and denominator agree.
    fn eq(&self, other: &SRational) -> (r: bool) {
        self.n == other.n && self.d == other.d
    }
}

impl PartialEqSpecImpl for SRational {
    open spec fn obeys_eq_spec() -> bool {
        true
    }

    open spec fn eq_spec(&self, other: &SRational) -> bool {
        self.n == other.n && self.d == other.d
    }
}

impl Rational {
    pub fn new(n: u32, d: u32) -> (r: Rational)
        ensures
            r.n == n,
            r.d == d,
    {
        Rational { n, d }
    }
}

impl SRational {
    pub fn new(n: i32, d: i32) -> (r: SRational)
        ensures
            r.n == n,
            r.d == d,
    {
        SRational { n, d }
    }
}

/// No integer above one divides both `n` and `d`.
pub open spec fn coprime(n: int, d: int) -> bool {
    forall|k: int| k > 1 ==> !(#[trigger] (n % k) == 0 && d % k == 0)
}

/// `n / d` is the sum `n1 / d1 + n2 / d2` in lowest terms.
pub open spec fn is_reduced_sum(n1: int, d1: int, n2: int, d2: int, n: int, d: int) -> bool {
    &&& d > 0
    &&& n >= 0
    &&& n * (d1 * d2) == (n1 * d2 + n2 * d1) * d
    &&& coprime(n, d)
}

/// `sum` is the reduced sum of `a` and `b`.
pub open spec fn sums_to(a: Rational, b: Rational, sum: Rational) -> bool {
    is_reduced_sum(a.n as int, a.d as int, b.n as int, b.d as int, sum.n as int, sum.d as int)
}

/// `Ratio::<u128>::add` of `num`, on `Ratio::new(n1, d1)` and
/// `Ratio::new(n2, d2)`: numerator and denominator of the sum. `Ratio::new`
/// divides both by their greatest common divisor and keeps the denominator
/// positive, so the pair is the sum in lowest terms. It panics on a zero
/// denominator, which `requires` leaves out; with 32-bit operands no
/// intermediate product leaves `u128`.
#[verifier::external_body]
fn ratio_sum(n1: u32, d1: u32, n2: u32, d2: u32) -> (r: (u128, u128))
    requires
        d1 != 0,
        d2 != 0,
    ensures
        is_reduced_sum(n1 as int, d1 as int, n2 as int, d2 as int, r.0 as int, r.1 as int),
{
    let sum = Ratio::new(u128::from(n1), u128::from(d1)) + Ratio::new(u128::from(n2), u128::from(d2));
    sum.into_raw()
}

/// Two fractions of one value are both multiples of one fraction: a
/// numerator, a denominator and the two factors.
proof fn lemma_common_base(n: int, d: int, n2: int, d2: int) -> (base: (int, int, int, int))
    requires
        d > 0,
        d2 > 0,
        n >= 0,
        n2 >= 0,
        n * d2 == n2 * d,
    ensures
        base.0 >= 0,
        base.1 > 0,
        base.2 >= 1,
        base.3 >= 1,
        n == base.2 * base.0,
        d == base.2 * base.1,
        n2 == base.3 * base.0,
        d2 == base.3 * base.1,
    decreases d + d2,
{
    if d == d2 {
        assert(n == n2) by (nonlinear_arith)
            requires
                n * d == n2 * d,
                d > 0,
        ;
        (n, d, 1, 1)
    } else if d < d2 {
        let (rest_n, rest_d) = (n2 - n, d2 - d);
        assert(n2 >= n) by (nonlinear_arith)
            requires
                n * d2 == n2 * d,
                d2 > d,
                d > 0,
                n >= 0,
        ;
        assert(n * rest_d == rest_n * d) by (nonlinear_arith)
            requires
                n * d2 == n2 * d,
                rest_n == n2 - n,
                rest_d == d2 - d,
        ;
        let (n0, d0, q, p) = lemma_common_base(n, d, rest_n, rest_d);
        assert(n2 == (q + p) * n0) by (nonlinear_arith)
            requires
                n == q * n0,
                n2 - n == p * n0,
        ;
        assert(d2 == (q + p) * d0) by (nonlinear_arith)
            requires
                d == q * d0,
                d2 - d == p * d0,
        ;
        (n0, d0, q, q + p)
    } else {
        let (rest_n, rest_d) = (n - n2, d - d2);
        assert(n >= n2) by (nonlinear_arith)
            requires
                n * d2 == n2 * d,
                d > d2,
                d2 > 0,
                n2 >= 0,
        ;
        assert(rest_n * d2 == n2 * rest_d) by (nonlinear_arith)
            requires
                n * d2 == n2 * d,
                rest_n == n - n2,
                rest_d == d - d2,
        ;
        let (n0, d0, p, q2) = lemma_common_base(rest_n, rest_d, n2, d2);
        assert(n == (p + q2) * n0) by (nonlinear_arith)
            requires
                n2 == q2 * n0,
                n - n2 == p * n0,
        ;
        assert(d == (p + q2) * d0) by (nonlinear_arith)
            requires
                d2 == q2 * d0,
                d - d2 == p * d0,
        ;
        (n0, d0, p + q2, q2)
    }
}

/// A fraction in lowest terms is no proper multiple of another fraction.
proof fn lemma_coprime_factor(n0: int, d0: int, q: int)
    requires
        q >= 1,
        coprime(q * n0, q * d0),
    ensures
        q == 1,
{
    if q > 1 {
        assert((q * n0) % q == 0) by (nonlinear_arith)
            requires
                q > 1,
        ;
        assert((q * d0) % q == 0) by (nonlinear_arith)
            requires
                q > 1,
        ;
    }
}

/// A value has one fraction in lowest terms: two such fractions of one value
/// are the same.
pub proof fn lemma_lowest_terms_are_unique(n: int, d: int, n2: int, d2: int)
    requires
        d > 0,
        d2 > 0,
        n >= 0,
        n2 >= 0,
        n * d2 == n2 * d,
        coprime(n, d),
        coprime(n2, d2),
    ensures
        n == n2,
        d == d2,
{
    let (n0, d0, q, q2) = lemma_common_base(n, d, n2, d2);
    lemma_coprime_factor(n0, d0, q);
    lemma_coprime_factor(n0, d0, q2);
    assert(1 * n0 == n0 && 1 * d0 == d0);
}

/// The sum `a + b` in lowest terms, as numerator and denominator, for
/// operands with denominators other than zero.
#[verifier::opaque]
pub open spec fn reduced_sum(a: Rational, b: Rational) -> (int, int) {
    choose|sum: (int, int)| is_reduced_sum(a.n as int, a.d as int, b.n as int, b.d as int, sum.0, sum.1)
}

/// The reduced sum is the one fraction that is the sum in lowest terms.
pub proof fn lemma_reduced_sum_is(a: Rational, b: Rational, n: int, d: int)
    requires
        a.d != 0,
        b.d != 0,
        is_reduced_sum(a.n as int, a.d as int, b.n as int, b.d as int, n, d),
    ensures
        reduced_sum(a, b) == (n, d),
{
    reveal(reduced_sum);
    let found = reduced_sum(a, b);
    assert(is_reduced_sum(a.n as int, a.d as int, b.n as int, b.d as int, (n, d).0, (n, d).1));
    assert(is_reduced_sum(a.n as int, a.d as int, b.n as int, b.d as int, found.0, found.1));
    let unreduced = a.n * b.d + b.n * a.d;
    let scale = a.d * b.d;
    assert(scale > 0) by (nonlinear_arith)
        requires
            scale == a.d * b.d,
            a.d > 0,
            b.d > 0,
    ;
    // Both fractions have the value `unreduced / scale`.
    assert(n * found.1 == found.0 * d) by (nonlinear_arith)
        requires
            n * scale == unreduced * d,
            found.0 * scale == unreduced * found.1,
            scale > 0,
    ;
    lemma_lowest_terms_are_unique(n, d, found.0, found.1);
}

/// The sum of two optional rationals: absent where either is; a failure
/// where a denominator is zero; else the sum in lowest terms, or an overflow
/// where that needs more than 32 bits.
pub open spec fn rational_sum(entry1: Option<Rational>, entry2: Option<Rational>) -> Result<
    Option<Rational>,
    MergeError,
> {
    if entry1 is None || entry2 is None {
        Ok(None)
    } else if entry1->0.d == 0 || entry2->0.d == 0 {
        Err(MergeError::EncodeFailed { cause: EncodeCause::ZeroDenominator })
    } else {
        let (n, d) = reduced_sum(entry1->0, entry2->0);
        if n <= u32::MAX && d <= u32::MAX {
            Ok(Some(Rational { n: n as u32, d: d as u32 }))
        } else {
            Err(MergeError::EncodeFailed { cause: EncodeCause::RationalOverflow })
        }
    }
}

/// Adds two optional rationals. The sum is absent when either operand is;
/// otherwise it is the sum in lowest terms.
pub fn add_tiff_rational(entry1: Option<Rational>, entry2: Option<Rational>) -> (r: Result<
    Option<Rational>,
    MergeError,
>)
    ensures
        r == rational_sum(entry1, entry2),
{
    match (entry1, entry2) {
        (Some(x1), Some(x2)) => {
            if x1.d == 0 || x2.d == 0 {
                return Err(MergeError::EncodeFailed { cause: EncodeCause::ZeroDenominator });
            }
            let (n, d): (u128, u128) = ratio_sum(x1.n, x1.d, x2.n, x2.d);
            proof {
                lemma_reduced_sum_is(x1, x2, n as int, d as int);
            }
            if n <= 0xffff_ffff && d <= 0xffff_ffff {
                Ok(Some(Rational { n: n as u32, d: d as u32 }))
            } else {
                Err(MergeError::EncodeFailed { cause: EncodeCause::RationalOverflow })
            }
        },
        _ => Ok(None),
    }
}

/// The sum of a list of rationals as one fraction, not reduced: numerator
/// and denominator.
pub open spec fn total_of(times: Seq<Rational>) -> (int, int)
    decreases times.len(),
{
    if times.len() == 0 {
        (0, 1)
    } else {
        let (n, d) = total_of(times.drop_last());
        (n * times.last().d + times.last().n * d, d * times.last().d)
    }
}

/// `sums` holds what adding the rationals of a list from left to right
/// gives after each of them: the first as it stands, and then the reduced
/// sum with each next one.
pub open spec fn running_sums(times: Seq<Rational>, sums: Seq<Rational>) -> bool {
    &&& sums.len() == times.len()
    &&& times.len() > 0 ==> sums[0] == times[0]
    &&& forall|i: int| 1 <= i < times.len() ==> sums_to(sums[i - 1], times[i], #[trigger] sums[i])
}

/// Four factors can be paired at will.
proof fn lemma_regroup(x: int, y: int, u: int, v: int)
    ensures
        (x * y) * (u * v) == (x * u) * (y * v),
        (x * y) * (u * v) == (x * v) * (y * u),
        (x * y) * (u * v) == (y * u) * (x * v),
{
    assert((x * y) * (u * v) == (x * u) * (y * v)) by (nonlinear_arith);
    assert((x * y) * (u * v) == (x * v) * (y * u)) by (nonlinear_arith);
    assert((x * y) * (u * v) == (y * u) * (x * v)) by (nonlinear_arith);
}

/// Adding keeps the value: where `a` has the value `na / da` and `b` the
/// value `nb / db`, their reduced sum has the value `na / da + nb / db`.
pub proof fn lemma_sum_keeps_value(a: Rational, b: Rational, sum: Rational, na: int, da: int, nb: int, db: int)
    requires
        a.d > 0,
        b.d > 0,
        da > 0,
        db > 0,
        a.n * da == na * a.d,
        b.n * db == nb * b.d,
        sums_to(a, b, sum),
    ensures
        sum.n * (da * db) == (na * db + nb * da) * sum.d,
        sum.d > 0,
        coprime(sum.n as int, sum.d as int),
{
    let (an, ad, bn, bd, sn, sd) = (a.n as int, a.d as int, b.n as int, b.d as int, sum.n as int, sum.d as int);
    let unreduced = an * bd + bn * ad;
    let scale = da * db;
    let common = ad * bd;
    let target = na * db + nb * da;
    assert(sn * common == unreduced * sd);
    // `unreduced * scale == common * target`, term by term.
    let (p, q) = (an * bd, bn * ad);
    assert((p + q) * scale == p * scale + q * scale) by (nonlinear_arith);
    lemma_regroup(an, bd, da, db);
    lemma_regroup(bn, ad, da, db);
    assert(p * scale == (an * da) * (bd * db));
    assert(q * scale == (bn * db) * (ad * da));
    lemma_regroup(na, ad, bd, db);
    lemma_regroup(nb, bd, ad, da);
    assert((na * ad) * (bd * db) == common * (na * db));
    assert((nb * bd) * (ad * da) == (bd * ad) * (nb * da));
    assert(bd * ad == common) by (nonlinear_arith)
        requires
            common == ad * bd,
    ;
    let (g, h) = (na * db, nb * da);
    assert(common * g + common * h == common * (g + h)) by (nonlinear_arith);
    assert(unreduced * scale == common * target);
    // Both sides of the claim, scaled by `common`, are equal.
    assert(common * (sn * scale) == (sn * common) * scale) by (nonlinear_arith);
    assert((unreduced * sd) * scale == (unreduced * scale) * sd) by (nonlinear_arith);
    assert((common * target) * sd == common * (target * sd)) by (nonlinear_arith);
    assert(common > 0) by (nonlinear_arith)
        requires
            common == ad * bd,
            ad > 0,
            bd > 0,
    ;
    let left = sn * scale;
    let right = target * sd;
    assert(left == right) by (nonlinear_arith)
        requires
            common * left == common * right,
            common > 0,
    ;
}

/// The exposure time of a merge of several sources is the sum of their
/// exposure times: what adding them from left to right gives has, after
/// each source, the value of the sum so far and, from the second source on,
/// is in lowest terms.
pub proof fn lemma_exposure_adds_up(times: Seq<Rational>, sums: Seq<Rational>, i: int)
    requires
        forall|j: int| 0 <= j < times.len() ==> times[j].d > 0,
        running_sums(times, sums),
        0 <= i < times.len(),
    ensures
        sums[i].d > 0,
        total_of(times.take(i + 1)).1 > 0,
        sums[i].n * total_of(times.take(i + 1)).1 == total_of(times.take(i + 1)).0 * sums[i].d,
        i >= 1 ==> coprime(sums[i].n as int, sums[i].d as int),
    decreases i,
{
    let upto = times.take(i + 1);
    assert(upto.drop_last() =~= times.take(i));
    assert(upto.last() == times[i]);
    if i == 0 {
        assert(total_of(times.take(0)) == (0int, 1int));
        assert(total_of(upto) == (0 * times[0].d + times[0].n * 1, 1 * times[0].d));
    } else {
        lemma_exposure_adds_up(times, sums, i - 1);
        let (n, d) = total_of(times.take(i));
        let last = times[i];
        lemma_sum_keeps_value(sums[i - 1], last, sums[i], n, d, last.n as int, last.d as int);
        assert(d * last.d > 0) by (nonlinear_arith)
            requires
                d > 0,
                last.d > 0,
        ;
    }
}

} // verus!
