use crate::rational::{
    lemma_mul_bound, lemma_mul_pos, q_abs, q_add, q_div, q_eq, q_le, q_mul, q_one, q_sub,
    q_wf, q_zero, Q, Rat, INPUT_BOUND,
};
use vstd::prelude::*;

verus! {

/// Denominator of the validation tolerance: the two shares must sum to one
/// within one part in a thousand million.
pub const TOLERANCE_DEN: i128 = 1_000_000_000;

/// Tolerance for the share-sum validation.
pub open spec fn tolerance() -> Q {
    Q { n: 1, d: TOLERANCE_DEN as int }
}

/// The validation rule: the two mass shares must sum to one within
/// `tolerance`, that is `|pn + pm - 1| <= tolerance`.
pub open spec fn percentages_valid(pn: Q, pm: Q) -> bool {
    q_le(q_abs(q_sub(q_add(pn, pm), q_one())), tolerance())
}

/// A mixture request: total mass in grams and the two mass shares.
#[derive(Clone, Copy, Debug, PartialEq, Eq, Structural)]
pub struct InputData {
    pub total_mass: Rat,
    pub percentage_nitro: Rat,
    pub percentage_m5: Rat,
}

impl InputData {
    /// Every field is small enough for the exact computation.
    pub open spec fn wf(self) -> bool {
        &&& self.total_mass.in_bounds()
        &&& self.percentage_nitro.in_bounds()
        &&& self.percentage_m5.in_bounds()
    }

    pub fn new(total_mass: Rat, percentage_nitro: Rat, percentage_m5: Rat) -> (i: InputData)
        ensures
            i.total_mass == total_mass,
            i.percentage_nitro == percentage_nitro,
            i.percentage_m5 == percentage_m5,
    {
        InputData { total_mass, percentage_nitro, percentage_m5 }
    }

    /// Runtime check for `wf`, for callers whose numbers come from outside.
    pub fn is_bounded(&self) -> (b: bool)
        ensures
            b == self.wf(),
    {
        in_bounds_exec(&self.total_mass) && in_bounds_exec(&self.percentage_nitro)
            && in_bounds_exec(&self.percentage_m5)
    }
}

fn in_bounds_exec(r: &Rat) -> (b: bool)
    ensures
        b == r.in_bounds(),
{
    0 < r.den && r.den <= INPUT_BOUND && -INPUT_BOUND <= r.num && r.num <= INPUT_BOUND
}

/// Decides whether the two shares sum to one within `tolerance`, exactly.
pub fn percentages_sum_to_one(pn: &Rat, pm: &Rat) -> (ok: bool)
    requires
        pn.in_bounds(),
        pm.in_bounds(),
    ensures
        ok == percentages_valid(pn@, pm@),
{
    proof {
        lemma_mul_bound(pn.num as int, pm.den as int, INPUT_BOUND as int, INPUT_BOUND as int);
        lemma_mul_bound(pm.num as int, pn.den as int, INPUT_BOUND as int, INPUT_BOUND as int);
        lemma_mul_bound(pn.den as int, pm.den as int, INPUT_BOUND as int, INPUT_BOUND as int);
        lemma_mul_pos(pn.den as int, pm.den as int);
    }
    let cross_nitro: i128 = pn.num * pm.den;
    let cross_m5: i128 = pm.num * pn.den;
    let sum_num: i128 = cross_nitro + cross_m5;
    let sum_den: i128 = pn.den * pm.den;
    let diff_num: i128 = sum_num - sum_den;
    let abs_diff: i128 = if diff_num >= 0 {
        diff_num
    } else {
        -diff_num
    };
    proof {
        lemma_mul_bound(
            abs_diff as int,
            TOLERANCE_DEN as int,
            3 * INPUT_BOUND * INPUT_BOUND,
            TOLERANCE_DEN as int,
        );
    }
    let scaled_diff: i128 = abs_diff * TOLERANCE_DEN;
    scaled_diff <= sum_den
}

/// Density of the nitro component, in grams per millilitre: 0.74.
pub open spec fn density_nitro() -> Q {
    Q { n: 74, d: 100 }
}

/// Density of the m5 component, in grams per millilitre: 0.80.
pub open spec fn density_m5() -> Q {
    Q { n: 80, d: 100 }
}

/// Lube share of the total fuel volume: 5 ml for every 1000 ml.
pub open spec fn lube_ratio() -> Q {
    Q { n: 5, d: 1000 }
}

/// The only failure of the handler: the shares do not sum to one.
#[derive(Clone, Copy, Debug, PartialEq, Eq, Structural)]
pub struct ValidationError {}

/// The fixed message carried by every `ValidationError`.
pub open spec fn validation_message() -> Seq<char> {
    "Persentase Shell Nitro+ dan M5 harus berjumlah 100%."@
}

impl ValidationError {
    /// The human-readable message; the same for every value of the error.
    pub fn message(&self) -> (m: &'static str)
        ensures
            m@ == validation_message(),
    {
        "Persentase Shell Nitro+ dan M5 harus berjumlah 100%."
    }
}

/// The computed volumes, in millilitres, all exact rationals.
#[derive(Clone, Copy, Debug, PartialEq, Eq, Structural)]
pub struct VolumeResponse {
    pub volume_nitro: Rat,
    pub volume_m5: Rat,
    pub total_volume: Rat,
    pub lube_volume: Rat,
}

impl VolumeResponse {
    pub open spec fn wf(self) -> bool {
        &&& self.volume_nitro.wf()
        &&& self.volume_m5.wf()
        &&& self.total_volume.wf()
        &&& self.lube_volume.wf()
    }
}

/// The common denominator the handler puts every volume over:
/// `5920 = 74 * 80`, the product of the scaled densities.
pub open spec fn common_den(i: InputData) -> int {
    ((i.total_mass@.d * i.percentage_nitro@.d) * i.percentage_m5@.d) * 5920
}

/// Numerator of the nitro volume over `common_den`:
/// `mass * share * 100 / 74` scaled by `74 * 80`, and `8000 = 100 * 80`.
pub open spec fn nitro_num(i: InputData) -> int {
    ((i.total_mass@.n * i.percentage_nitro@.n) * i.percentage_m5@.d) * 8000
}

/// Numerator of the m5 volume over `common_den`:
/// `mass * share * 100 / 80` scaled by `74 * 80`, and `7400 = 100 * 74`.
pub open spec fn m5_num(i: InputData) -> int {
    ((i.total_mass@.n * i.percentage_m5@.n) * i.percentage_nitro@.d) * 7400
}

/// The exact representation of the handler's output for input `i`.  The
/// output is a function of the input alone, down to the representation.
pub open spec fn output_matches(i: InputData, o: VolumeResponse) -> bool {
    &&& o.volume_nitro@ == (Q { n: nitro_num(i), d: common_den(i) })
    &&& o.volume_m5@ == (Q { n: m5_num(i), d: common_den(i) })
    &&& o.total_volume@ == (Q { n: nitro_num(i) + m5_num(i), d: common_den(i) })
    &&& o.lube_volume@ == (Q { n: (nitro_num(i) + m5_num(i)) * 5, d: common_den(i) * 1000 })
}

/// Converts a mixture request to exact volumes, or rejects it.
///
/// The shares must sum to one within `tolerance`; a request outside the
/// tolerance is answered with the one `ValidationError`.  On success the
/// volumes are the exact quotients of the component masses by the fixed
/// densities, the total is their exact sum, and the lube volume is exactly
/// `5/1000` of the total.
pub fn calculate_volume(input: &InputData) -> (result: Result<VolumeResponse, ValidationError>)
    requires
        input.wf(),
    ensures
        (result is Ok) == percentages_valid(
            input.percentage_nitro@,
            input.percentage_m5@,
        ),
        result matches Ok(out) ==> {
            &&& out.wf()
            &&& output_matches(*input, out)
            &&& q_eq(
                out.volume_nitro@,
                q_div(q_mul(input.total_mass@, input.percentage_nitro@), density_nitro()),
            )
            &&& q_eq(
                out.volume_m5@,
                q_div(q_mul(input.total_mass@, input.percentage_m5@), density_m5()),
            )
            &&& q_eq(out.total_volume@, q_add(out.volume_nitro@, out.volume_m5@))
            &&& out.lube_volume@ == q_mul(out.total_volume@, lube_ratio())
            &&& input.total_mass@.n == 0 ==> {
                &&& q_eq(out.volume_nitro@, q_zero())
                &&& q_eq(out.volume_m5@, q_zero())
                &&& q_eq(out.total_volume@, q_zero())
                &&& q_eq(out.lube_volume@, q_zero())
            }
        },
        result matches Err(e) ==> e == (ValidationError {}),
{
    if !percentages_sum_to_one(&input.percentage_nitro, &input.percentage_m5) {
        return Err(ValidationError {});
    }
    let t = &input.total_mass;
    let p = &input.percentage_nitro;
    let m = &input.percentage_m5;
    proof {
        lemma_mul_bound(t.den as int, p.den as int, INPUT_BOUND as int, INPUT_BOUND as int);
        lemma_mul_pos(t.den as int, p.den as int);
        lemma_mul_bound(
            (t.den * p.den) as int,
            m.den as int,
            INPUT_BOUND * INPUT_BOUND,
            INPUT_BOUND as int,
        );
        lemma_mul_pos((t.den * p.den) as int, m.den as int);
        lemma_mul_bound(t.num as int, p.num as int, INPUT_BOUND as int, INPUT_BOUND as int);
        lemma_mul_bound(
            (t.num * p.num) as int,
            m.den as int,
            INPUT_BOUND * INPUT_BOUND,
            INPUT_BOUND as int,
        );
        lemma_mul_bound(t.num as int, m.num as int, INPUT_BOUND as int, INPUT_BOUND as int);
        lemma_mul_bound(
            (t.num * m.num) as int,
            p.den as int,
            INPUT_BOUND * INPUT_BOUND,
            INPUT_BOUND as int,
        );
    }
    let den_mass_nitro: i128 = t.den * p.den;
    let den_all: i128 = den_mass_nitro * m.den;
    let den_common: i128 = den_all * 5920;
    let num_mass_nitro: i128 = t.num * p.num;
    let num_nitro_scaled: i128 = num_mass_nitro * m.den;
    let volume_nitro_num: i128 = num_nitro_scaled * 8000;
    let num_mass_m5: i128 = t.num * m.num;
    let num_m5_scaled: i128 = num_mass_m5 * p.den;
    let volume_m5_num: i128 = num_m5_scaled * 7400;
    let total_num: i128 = volume_nitro_num + volume_m5_num;
    let lube_num: i128 = total_num * 5;
    let lube_den: i128 = den_common * 1000;
    let out = VolumeResponse {
        volume_nitro: Rat { num: volume_nitro_num, den: den_common },
        volume_m5: Rat { num: volume_m5_num, den: den_common },
        total_volume: Rat { num: total_num, den: den_common },
        lube_volume: Rat { num: lube_num, den: lube_den },
    };
    proof {
        lemma_nitro_cross(t.num as int, p.num as int, t.den as int, p.den as int, m.den as int);
        lemma_m5_cross(t.num as int, m.num as int, t.den as int, m.den as int, p.den as int);
        lemma_total_cross(nitro_num(*input), m5_num(*input), common_den(*input));
        if t.num == 0 {
            lemma_zero_mass(p.num as int, m.den as int, 8000);
            lemma_zero_mass(m.num as int, p.den as int, 7400);
        }
    }
    Ok(out)
}

/// Ring identity behind the nitro-volume contract: the fraction
/// `((tn * pn) * 100) / ((td * pd) * 74)` equals the one over the common
/// denominator, because `8000 * 74 == 100 * 5920`.
proof fn lemma_nitro_cross(tn: int, pn: int, td: int, pd: int, md: int)
    by (nonlinear_arith)
    ensures
        (((tn * pn) * md) * 8000) * ((td * pd) * 74) == ((tn * pn) * 100) * (((td * pd) * md)
            * 5920),
{
}

/// Ring identity behind the m5-volume contract: the fraction
/// `((tn * mn) * 100) / ((td * md) * 80)` equals the one over the common
/// denominator, because `7400 * 80 == 100 * 5920`.
proof fn lemma_m5_cross(tn: int, mn: int, td: int, md: int, pd: int)
    by (nonlinear_arith)
    ensures
        (((tn * mn) * pd) * 7400) * ((td * md) * 80) == ((tn * mn) * 100) * (((td * pd) * md)
            * 5920),
{
}

/// Ring identity behind the total-volume contract: adding two fractions
/// over the same denominator adds the numerators.
proof fn lemma_total_cross(x: int, y: int, d: int)
    by (nonlinear_arith)
    ensures
        (x + y) * (d * d) == (x * d + y * d) * d,
{
}

/// With a zero mass every scaled numerator is zero.
proof fn lemma_zero_mass(b: int, c: int, k: int)
    by (nonlinear_arith)
    ensures
        ((0 * b) * c) * k == 0,
{
}

/// Law: the reported total volume is exactly the sum of the two component
/// volumes.
pub proof fn lemma_total_volume_is_sum(i: InputData, o: VolumeResponse)
    requires
        i.wf(),
        output_matches(i, o),
    ensures
        q_eq(o.total_volume@, q_add(o.volume_nitro@, o.volume_m5@)),
{
    lemma_total_cross(nitro_num(i), m5_num(i), common_den(i));
}

/// Law: the reported lube volume is exactly `5/1000` of the total volume.
pub proof fn lemma_lube_volume_ratio(i: InputData, o: VolumeResponse)
    requires
        i.wf(),
        output_matches(i, o),
    ensures
        o.lube_volume@ == q_mul(o.total_volume@, lube_ratio()),
{
}

/// Law: the handler is a pure function of its input.  Two outputs for the
/// same input are equal, down to the representation.
pub proof fn lemma_deterministic(
    i1: InputData,
    i2: InputData,
    o1: VolumeResponse,
    o2: VolumeResponse,
)
    requires
        i1 == i2,
        output_matches(i1, o1),
        output_matches(i2, o2),
    ensures
        o1 == o2,
{
    assert(o1.volume_nitro == o2.volume_nitro);
    assert(o1.volume_m5 == o2.volume_m5);
    assert(o1.total_volume == o2.total_volume);
    assert(o1.lube_volume == o2.lube_volume);
}

/// Nonlinear core of the rejection law: a sum representing exactly
/// `1 + 2/TOLERANCE_DEN` misses the tolerance.
proof fn lemma_reject_core(sn: int, sd: int)
    by (nonlinear_arith)
    requires
        sd > 0,
        sn * 1_000_000_000 == 1_000_000_002 * sd,
    ensures
        sn - sd > 0,
        (sn - sd) * 1_000_000_000 > sd,
{
}

/// Nonlinear core of the acceptance law: a sum representing exactly
/// `1 + 1/(2 * TOLERANCE_DEN)` stays within the tolerance.
proof fn lemma_accept_core(sn: int, sd: int)
    by (nonlinear_arith)
    requires
        sd > 0,
        sn * 2_000_000_000 == 2_000_000_001 * sd,
    ensures
        sn - sd >= 0,
        (sn - sd) * 1_000_000_000 <= sd,
{
}

/// Law: shares whose sum is exactly `1 + 2 * tolerance` are rejected.
pub proof fn lemma_sum_two_tolerances_rejected(pn: Q, pm: Q)
    requires
        q_wf(pn),
        q_wf(pm),
        q_eq(q_add(pn, pm), (Q { n: 1_000_000_002, d: 1_000_000_000 })),
    ensures
        !percentages_valid(pn, pm),
{
    lemma_mul_pos(pn.d, pm.d);
    lemma_reject_core(pn.n * pm.d + pm.n * pn.d, pn.d * pm.d);
}

/// Law: shares whose sum is exactly `1 + tolerance / 2` are accepted.
pub proof fn lemma_sum_half_tolerance_accepted(pn: Q, pm: Q)
    requires
        q_wf(pn),
        q_wf(pm),
        q_eq(q_add(pn, pm), (Q { n: 2_000_000_001, d: 2_000_000_000 })),
    ensures
        percentages_valid(pn, pm),
{
    lemma_mul_pos(pn.d, pm.d);
    lemma_accept_core(pn.n * pm.d + pm.n * pn.d, pn.d * pm.d);
}

} // verus!
