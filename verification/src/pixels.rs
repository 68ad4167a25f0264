//! Numerical kernels on 16-bit sample buffers: pairwise merging and
//! darkframe subtraction.

use vstd::prelude::*;

verus! {

/// How two samples at the same position are combined.
#[derive(Copy, Clone, Debug, PartialEq, Eq, Structural)]
pub enum MergeMode {
    /// The larger of the two samples.
    Maximize,
    /// The mean of the two samples, each weighted by a frame count.
    WeightedAverage,
}

/// The larger of two samples.
pub open spec fn max_sample(a: u16, b: u16) -> u16 {
    if a >= b {
        a
    } else {
        b
    }
}

/// Two to the power `e`.
pub open spec fn two_to(e: nat) -> nat
    decreases e,
{
    if e == 0 {
        1
    } else {
        2 * two_to((e - 1) as nat)
    }
}

/// How many bits a number has beyond 24.
pub open spec fn excess_bits(n: nat) -> nat
    decreases n,
{
    if n < 0x100_0000 {
        0
    } else {
        1 + excess_bits(n / 2)
    }
}

/// A whole number as single precision holds it: rounded to 24 significant
/// bits, to the nearest such number, and to the even one of two that are
/// equally near.
pub open spec fn round24(n: nat) -> nat {
    let unit = two_to(excess_bits(n));
    let kept = n / unit;
    let rest = n % unit;
    if 2 * rest > unit || (2 * rest == unit && kept % 2 == 1) {
        (kept + 1) * unit
    } else {
        kept * unit
    }
}

/// How many halves of the last place of single precision make one, just
/// below the whole number after `q`: two to the power `24 - k` for `q` from
/// `2^k` up to `2^(k+1)`, and two to the power 25 below one. For `q` below
/// 65536.
pub open spec fn half_steps(q: nat) -> nat {
    if q < 1 {
        0x200_0000
    } else if q < 2 {
        0x100_0000
    } else if q < 4 {
        0x80_0000
    } else if q < 8 {
        0x40_0000
    } else if q < 16 {
        0x20_0000
    } else if q < 32 {
        0x10_0000
    } else if q < 64 {
        0x8_0000
    } else if q < 128 {
        0x4_0000
    } else if q < 256 {
        0x2_0000
    } else if q < 512 {
        0x1_0000
    } else if q < 1024 {
        0x8000
    } else if q < 2048 {
        0x4000
    } else if q < 4096 {
        0x2000
    } else if q < 8192 {
        0x1000
    } else if q < 16384 {
        0x800
    } else if q < 32768 {
        0x400
    } else {
        0x200
    }
}

/// The quotient `total / weight` as single precision computes it and a
/// sample holds it: the quotient rounded to the nearest number of single
/// precision, cut off to a whole number and held at 65535. The rounding
/// reaches the next whole number where the quotient is within half a last
/// place of it.
pub open spec fn single_quotient(total: nat, weight: nat) -> int {
    let q = total / weight;
    let rest = total % weight;
    if q >= 65535 {
        65535
    } else if (weight - rest) * half_steps(q) <= weight {
        (q + 1) as int
    } else {
        q as int
    }
}

/// The weighted mean of two samples as single precision computes it: the
/// weights, the two products, their sum and the sum of the weights each
/// rounded to single precision, and the quotient rounded and cut off to a
/// sample. Zero where both weights are zero and there is no mean.
pub open spec fn weighted_sample(a: u16, b: u16, weight_a: nat, weight_b: nat) -> int {
    let single_a = round24(weight_a);
    let single_b = round24(weight_b);
    let total = round24(round24(a as nat * single_a) + round24(b as nat * single_b));
    let weight = round24(single_a + single_b);
    if weight == 0 {
        0
    } else {
        single_quotient(total, weight)
    }
}

/// One merged sample under `mode`.
pub open spec fn merged_sample(a: u16, b: u16, weight_a: nat, weight_b: nat, mode: MergeMode) -> int {
    match mode {
        MergeMode::Maximize => max_sample(a, b) as int,
        MergeMode::WeightedAverage => weighted_sample(a, b, weight_a, weight_b),
    }
}

/// The buffer that merging `a` with `b` sample by sample gives.
pub open spec fn merged_buffer(
    a: Seq<u16>,
    b: Seq<u16>,
    weight_a: nat,
    weight_b: nat,
    mode: MergeMode,
) -> Seq<u16> {
    Seq::new(a.len(), |k: int| merged_sample(a[k], b[k], weight_a, weight_b, mode) as u16)
}

/// A weighted mean is again a sample.
pub proof fn lemma_weighted_sample_bounds(a: u16, b: u16, weight_a: nat, weight_b: nat)
    ensures
        0 <= weighted_sample(a, b, weight_a, weight_b) <= u16::MAX,
{
}

/// A whole number of at most 24 bits is held as it is.
pub proof fn lemma_round24_small(n: nat)
    requires
        n < 0x100_0000,
    ensures
        round24(n) == n,
{
    assert(excess_bits(n) == 0);
    assert(two_to(0) == 1);
}

/// The mean of a few frames is the exact one: where the weights sum to less
/// than 512 and the weighted sum of the samples has at most 24 bits, nothing
/// is rounded but the quotient, which is rounded down.
pub proof fn lemma_mean_of_few_is_exact(a: u16, b: u16, weight_a: nat, weight_b: nat)
    requires
        0 < weight_a + weight_b < 512,
        a * weight_a + b * weight_b < 0x100_0000,
    ensures
        weighted_sample(a, b, weight_a, weight_b) == (a * weight_a + b * weight_b) / ((weight_a + weight_b) as int),
{
    let part_a = a as nat * weight_a;
    let part_b = b as nat * weight_b;
    let total = part_a + part_b;
    let weight = weight_a + weight_b;
    assert(0 <= part_a && 0 <= part_b) by (nonlinear_arith)
        requires
            part_a == a as nat * weight_a,
            part_b == b as nat * weight_b,
    ;
    lemma_round24_small(weight_a);
    lemma_round24_small(weight_b);
    lemma_round24_small(part_a);
    lemma_round24_small(part_b);
    lemma_round24_small(total);
    lemma_round24_small(weight);
    let q = total / weight;
    let rest = total % weight;
    assert(part_a <= 65535 * weight_a) by (nonlinear_arith)
        requires
            part_a == a as nat * weight_a,
            a <= 65535,
    ;
    assert(part_b <= 65535 * weight_b) by (nonlinear_arith)
        requires
            part_b == b as nat * weight_b,
            b <= 65535,
    ;
    assert(q <= 65535 && 0 <= rest < weight) by (nonlinear_arith)
        requires
            q == total / weight,
            rest == total % weight,
            total <= 65535 * weight,
            weight > 0,
    ;
    if q < 65535 {
        assert(half_steps(q) >= 512);
        assert((weight - rest) * half_steps(q) >= 512) by (nonlinear_arith)
            requires
                weight - rest >= 1,
                half_steps(q) >= 512,
        ;
    }
    assert(weighted_sample(a, b, weight_a, weight_b) == single_quotient(total, weight));
}

/// Rounds a whole number to single precision.
fn round_to_single(n: u128) -> (r: u128)
    requires
        n < 0x1_0000_0000_0000_0000_0000_0000,
    ensures
        r == round24(n as nat),
        r <= 2 * n,
{
    let mut unit: u128 = 1;
    let mut kept: u128 = n;
    let ghost mut shift: nat = 0;
    while kept >= 0x100_0000
        invariant
            n < 0x1_0000_0000_0000_0000_0000_0000,
            unit >= 1,
            unit == two_to(shift),
            kept == n / unit,
            kept * unit <= n,
            kept >= 1 || unit == 1,
            excess_bits(n as nat) == shift + excess_bits(kept as nat),
        decreases kept,
    {
        proof {
            vstd::arithmetic::div_mod::lemma_div_denominator(n as int, unit as int, 2);
            assert(unit < 0x1_0000_0000_0000_0000_00) by (nonlinear_arith)
                requires
                    kept * unit <= n,
                    kept >= 0x100_0000,
                    n < 0x1_0000_0000_0000_0000_0000_0000,
                    unit >= 1,
            ;
            assert((kept / 2) * (unit * 2) <= kept * unit) by (nonlinear_arith)
                requires
                    kept >= 0,
                    unit >= 0,
            ;
            shift = shift + 1;
        }
        kept = kept / 2;
        unit = unit * 2;
    }
    let rest: u128 = n % unit;
    proof {
        vstd::arithmetic::div_mod::lemma_fundamental_div_mod(n as int, unit as int);
        assert(unit * kept == kept * unit) by (nonlinear_arith);
        assert((kept + 1) * unit == kept * unit + unit) by (nonlinear_arith);
        assert(unit <= 0x1_0000_0000_0000_0000_0000_0000) by (nonlinear_arith)
            requires
                kept * unit <= n,
                n < 0x1_0000_0000_0000_0000_0000_0000,
                unit >= 1,
                kept >= 1 || unit == 1,
        ;
    }
    if 2 * rest > unit || (2 * rest == unit && kept % 2 == 1) {
        (kept + 1) * unit
    } else {
        kept * unit
    }
}

/// How many halves of the last place make one below the whole number after
/// `q`.
fn half_steps_of(q: u128) -> (r: u128)
    ensures
        r == half_steps(q as nat),
        r <= 0x200_0000,
{
    if q < 1 {
        0x200_0000
    } else if q < 2 {
        0x100_0000
    } else if q < 4 {
        0x80_0000
    } else if q < 8 {
        0x40_0000
    } else if q < 16 {
        0x20_0000
    } else if q < 32 {
        0x10_0000
    } else if q < 64 {
        0x8_0000
    } else if q < 128 {
        0x4_0000
    } else if q < 256 {
        0x2_0000
    } else if q < 512 {
        0x1_0000
    } else if q < 1024 {
        0x8000
    } else if q < 2048 {
        0x4000
    } else if q < 4096 {
        0x2000
    } else if q < 8192 {
        0x1000
    } else if q < 16384 {
        0x800
    } else if q < 32768 {
        0x400
    } else {
        0x200
    }
}

/// Combines one pair of samples.
pub fn merge_sample(a: u16, b: u16, weight_a: usize, weight_b: usize, mode: MergeMode) -> (r: u16)
    ensures
        r == merged_sample(a, b, weight_a as nat, weight_b as nat, mode),
{
    match mode {
        MergeMode::Maximize => if a >= b {
            a
        } else {
            b
        },
        MergeMode::WeightedAverage => {
            let single_a: u128 = round_to_single(weight_a as u128);
            let single_b: u128 = round_to_single(weight_b as u128);
            assert(a * single_a <= 0xffff * 0x2_0000_0000_0000_0000) by (nonlinear_arith)
                requires
                    0 <= a <= 0xffff,
                    0 <= single_a <= 0x2_0000_0000_0000_0000,
            ;
            assert(b * single_b <= 0xffff * 0x2_0000_0000_0000_0000) by (nonlinear_arith)
                requires
                    0 <= b <= 0xffff,
                    0 <= single_b <= 0x2_0000_0000_0000_0000,
            ;
            let part_a: u128 = round_to_single(a as u128 * single_a);
            let part_b: u128 = round_to_single(b as u128 * single_b);
            let total: u128 = round_to_single(part_a + part_b);
            let weight: u128 = round_to_single(single_a + single_b);
            if weight == 0 {
                return 0;
            }
            let q: u128 = total / weight;
            let rest: u128 = total % weight;
            if q >= 65535 {
                return 65535;
            }
            let steps: u128 = half_steps_of(q);
            assert((weight - rest) * steps <= 0x8_0000_0000_0000_0000 * 0x200_0000) by (nonlinear_arith)
                requires
                    0 <= weight - rest <= 0x8_0000_0000_0000_0000,
                    0 <= steps <= 0x200_0000,
            ;
            if (weight - rest) * steps <= weight {
                (q + 1) as u16
            } else {
                q as u16
            }
        },
    }
}

/// Merges `b` into `a`, sample by sample, reusing `a`'s storage.
pub fn merge_buffers(a: Vec<u16>, b: &Vec<u16>, weight_a: usize, weight_b: usize, mode: MergeMode) -> (r:
    Vec<u16>)
    requires
        a.len() == b.len(),
    ensures
        r@ == merged_buffer(a@, b@, weight_a as nat, weight_b as nat, mode),
{
    let ghost before = a@;
    let mut out = a;
    let n: usize = out.len();
    let mut k: usize = 0;
    while k < n
        invariant
            k <= n,
            n == out.len(),
            n == b.len(),
            before.len() == n,
            forall|j: int| 0 <= j < k ==> out[j] == merged_sample(before[j], b[j], weight_a as nat, weight_b as nat, mode),
            forall|j: int| k <= j < n ==> out[j] == before[j],
        decreases n - k,
    {
        let v: u16 = merge_sample(out[k], b[k], weight_a, weight_b, mode);
        out[k] = v;
        k = k + 1;
    }
    assert(out@ =~= merged_buffer(before, b@, weight_a as nat, weight_b as nat, mode));
    out
}

/// Taking the larger sample does not depend on the order of the operands.
pub proof fn lemma_maximize_commutes(a: Seq<u16>, b: Seq<u16>, weight_a: nat, weight_b: nat)
    requires
        a.len() == b.len(),
    ensures
        merged_buffer(a, b, weight_a, weight_b, MergeMode::Maximize) == merged_buffer(
            b,
            a,
            weight_b,
            weight_a,
            MergeMode::Maximize,
        ),
{
    assert(merged_buffer(a, b, weight_a, weight_b, MergeMode::Maximize) =~= merged_buffer(
        b,
        a,
        weight_b,
        weight_a,
        MergeMode::Maximize,
    ));
}

/// Taking the larger sample does not depend on how three operands are
/// paired.
pub proof fn lemma_maximize_associates(a: Seq<u16>, b: Seq<u16>, c: Seq<u16>, weight: nat)
    requires
        a.len() == b.len(),
        b.len() == c.len(),
    ensures
        merged_buffer(merged_buffer(a, b, weight, weight, MergeMode::Maximize), c, weight, weight, MergeMode::Maximize)
            == merged_buffer(
            a,
            merged_buffer(b, c, weight, weight, MergeMode::Maximize),
            weight,
            weight,
            MergeMode::Maximize,
        ),
{
    assert(merged_buffer(
        merged_buffer(a, b, weight, weight, MergeMode::Maximize),
        c,
        weight,
        weight,
        MergeMode::Maximize,
    ) =~= merged_buffer(
        a,
        merged_buffer(b, c, weight, weight, MergeMode::Maximize),
        weight,
        weight,
        MergeMode::Maximize,
    ));
}

/// The sum of all samples of a buffer.
pub open spec fn buffer_sum(data: Seq<u16>) -> int
    decreases data.len(),
{
    if data.len() == 0 {
        0
    } else {
        buffer_sum(data.drop_last()) + data.last()
    }
}

/// The mean of a buffer, rounded down; zero for the empty buffer.
pub open spec fn average_black(dark: Seq<u16>) -> int {
    if dark.len() == 0 {
        0
    } else {
        buffer_sum(dark) / (dark.len() as int)
    }
}

/// A 16-bit pattern read as a signed number.
pub open spec fn as_signed(x: int) -> int {
    if x >= 32768 {
        x - 65536
    } else {
        x
    }
}

/// One light sample less the dark sample's excess over the mean dark level,
/// both read as signed 16-bit numbers, held within the range of a sample.
pub open spec fn subtracted_sample(light: u16, dark: u16, avg_black: int) -> int {
    let v = as_signed(light as int) - (as_signed(dark as int) - as_signed(avg_black));
    if v < 0 {
        0
    } else if v > 65535 {
        65535
    } else {
        v
    }
}

/// The light buffer with the dark buffer's spatial structure taken out.
pub open spec fn subtracted_buffer(light: Seq<u16>, dark: Seq<u16>) -> Seq<u16> {
    Seq::new(light.len(), |k: int| subtracted_sample(light[k], dark[k], average_black(dark)) as u16)
}

/// The sum of a buffer is at most 65535 for each sample.
pub proof fn lemma_buffer_sum_bounds(data: Seq<u16>)
    ensures
        0 <= buffer_sum(data) <= 65535 * data.len(),
    decreases data.len(),
{
    if data.len() > 0 {
        lemma_buffer_sum_bounds(data.drop_last());
    }
}

/// The mean of a buffer is again a sample.
pub proof fn lemma_average_black_bounds(dark: Seq<u16>)
    ensures
        0 <= average_black(dark) <= 65535,
{
    if dark.len() > 0 {
        lemma_buffer_sum_bounds(dark);
        let s = buffer_sum(dark);
        let n = dark.len() as int;
        assert(0 <= s / n <= 65535) by (nonlinear_arith)
            requires
                0 <= s <= 65535 * n,
                n > 0,
        ;
    }
}

/// The sum of a buffer whose samples all equal `c`.
pub proof fn lemma_constant_buffer_sum(data: Seq<u16>, c: u16)
    requires
        forall|k: int| 0 <= k < data.len() ==> data[k] == c,
    ensures
        buffer_sum(data) == c * data.len(),
    decreases data.len(),
{
    if data.len() > 0 {
        lemma_constant_buffer_sum(data.drop_last(), c);
        assert(c * (data.len() - 1) + c == c * data.len()) by (nonlinear_arith);
    }
}

/// Subtracting a dark buffer that is constant changes nothing, for light
/// samples below 32768 (which read the same signed and unsigned).
pub proof fn lemma_constant_dark_is_neutral(light: Seq<u16>, dark: Seq<u16>, c: u16)
    requires
        light.len() == dark.len(),
        forall|k: int| 0 <= k < dark.len() ==> dark[k] == c,
        forall|k: int| 0 <= k < light.len() ==> light[k] < 32768,
    ensures
        subtracted_buffer(light, dark) == light,
{
    if dark.len() > 0 {
        lemma_constant_buffer_sum(dark, c);
        let n = dark.len() as int;
        assert((c * n) / n == c) by (nonlinear_arith)
            requires
                n > 0,
        ;
        assert(average_black(dark) == c);
    }
    assert(subtracted_buffer(light, dark) =~= light);
}

/// The mean of a buffer, rounded down; zero for the empty buffer.
pub fn mean_level(dark: &Vec<u16>) -> (r: u16)
    ensures
        r == average_black(dark@),
{
    let n: usize = dark.len();
    if n == 0 {
        return 0;
    }
    let mut sum: u128 = 0;
    let mut k: usize = 0;
    while k < n
        invariant
            k <= n,
            n == dark.len(),
            sum == buffer_sum(dark@.take(k as int)),
            sum <= 65535 * k,
        decreases n - k,
    {
        assert(dark@.take(k as int) =~= dark@.take(k + 1).drop_last());
        sum = sum + dark[k] as u128;
        k = k + 1;
    }
    assert(dark@.take(n as int) =~= dark@);
    proof {
        lemma_average_black_bounds(dark@);
    }
    (sum / n as u128) as u16
}

/// Subtracts one dark sample, given the mean dark level.
pub fn subtract_sample(light: u16, dark: u16, avg_black: u16) -> (r: u16)
    ensures
        r == subtracted_sample(light, dark, avg_black as int),
{
    let l: i32 = if light >= 32768 {
        light as i32 - 65536
    } else {
        light as i32
    };
    let d: i32 = if dark >= 32768 {
        dark as i32 - 65536
    } else {
        dark as i32
    };
    let a: i32 = if avg_black >= 32768 {
        avg_black as i32 - 65536
    } else {
        avg_black as i32
    };
    let v: i32 = l - (d - a);
    if v < 0 {
        0
    } else if v > 65535 {
        65535
    } else {
        v as u16
    }
}

/// Subtracts the dark buffer from the light buffer, reusing the light
/// buffer's storage.
pub fn subtract_buffers(light: Vec<u16>, dark: &Vec<u16>) -> (r: Vec<u16>)
    requires
        light.len() == dark.len(),
    ensures
        r@ == subtracted_buffer(light@, dark@),
{
    let ghost before = light@;
    let avg_black: u16 = mean_level(dark);
    let mut out = light;
    let n: usize = out.len();
    let mut k: usize = 0;
    while k < n
        invariant
            k <= n,
            n == out.len(),
            n == dark.len(),
            before.len() == n,
            avg_black == average_black(dark@),
            forall|j: int| 0 <= j < k ==> out[j] == subtracted_sample(before[j], dark[j], avg_black as int),
            forall|j: int| k <= j < n ==> out[j] == before[j],
        decreases n - k,
    {
        let v: u16 = subtract_sample(out[k], dark[k], avg_black);
        out[k] = v;
        k = k + 1;
    }
    assert(out@ =~= subtracted_buffer(before, dark@));
    out
}

} // verus!
