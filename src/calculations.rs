use vstd::prelude::*;

use num_complex::Complex;

use crate::consts::{two_pi_model, ConstCache};
use crate::types::{
    abs_model, integer_of, is_zero_model, neg_model, power_of, product_of, quotient_of, root_of, sum_of, BFloat,
    FloatModel, UnitType,
};

verus! {

#[verifier::external_type_specification]
#[verifier::reject_recursive_types(T)]
pub struct ExComplex<T>(Complex<T>);

/// Relies on `Complex::new`: the number with the given real and imaginary parts.
pub assume_specification<T>[ Complex::<T>::new ](re: T, im: T) -> (r: Complex<T>)
    ensures
        r.re == re,
        r.im == im,
;

/// `1 / (2π · sqrt(L · C))`.
pub open spec fn f0_model(l: FloatModel, c: FloatModel) -> FloatModel {
    quotient_of(integer_of(1), product_of(two_pi_model(), root_of(product_of(l, c))))
}

/// `1 / (C · (2π · f0)²)`.
pub open spec fn l_model(c: FloatModel, f0: FloatModel) -> FloatModel {
    quotient_of(integer_of(1), product_of(c, power_of(product_of(two_pi_model(), f0), 2)))
}

/// `1 / (L · (2π · f0)²)`.
pub open spec fn c_model(l: FloatModel, f0: FloatModel) -> FloatModel {
    quotient_of(integer_of(1), product_of(l, power_of(product_of(two_pi_model(), f0), 2)))
}

/// The inductive reactance `ω · L` (positive imaginary part).
pub open spec fn xl_model(l: FloatModel, omega: FloatModel) -> FloatModel {
    product_of(omega, l)
}

/// The capacitive reactance `−1 / (ω · C)` (negative imaginary part).
pub open spec fn xc_model(c: FloatModel, omega: FloatModel) -> FloatModel {
    quotient_of(neg_model(integer_of(1)), product_of(omega, c))
}

/// Series combination: `(|Xl + Xc|, Xl, |Xc|)`.
pub open spec fn series_model(l: FloatModel, c: FloatModel, omega: FloatModel) -> (
    FloatModel,
    FloatModel,
    FloatModel,
) {
    let xl = xl_model(l, omega);
    let xc = xc_model(c, omega);
    (abs_model(sum_of(xl, xc)), xl, abs_model(xc))
}

/// Parallel combination: `(|Xl · Xc / (Xl + Xc)|, Xl, |Xc|)`.
pub open spec fn parallel_model(l: FloatModel, c: FloatModel, omega: FloatModel) -> (
    FloatModel,
    FloatModel,
    FloatModel,
) {
    let xl = xl_model(l, omega);
    let xc = xc_model(c, omega);
    (abs_model(quotient_of(product_of(xl, xc), sum_of(xl, xc))), xl, abs_model(xc))
}

/// The reactances cancel exactly (their sum is a zero) while their product
/// is a nonzero finite number: the lossless LC pair resonates at `omega`.
pub open spec fn resonates(l: FloatModel, c: FloatModel, omega: FloatModel) -> bool {
    let xl = xl_model(l, omega);
    let xc = xc_model(c, omega);
    is_zero_model(sum_of(xl, xc)) && product_of(xl, xc) is Finite && !is_zero_model(
        product_of(xl, xc),
    )
}

/// Resonant frequency of an LC pair: `1 / (2π · sqrt(L · C))`.
pub fn lc_to_f0(l: BFloat, c: BFloat, cache: &mut ConstCache) -> (r: BFloat)
    requires
        old(cache).wf(),
    ensures
        final(cache).wf(),
        r@ == f0_model(l@, c@),
{
    let two_pi = cache.two_pi();
    BFloat::one().div(&two_pi.mul(&l.mul(&c).sqrt()))
}

/// Inductance that resonates with `c` at `f0`: `1 / (C · (2π · f0)²)`.
pub fn cf0_to_l(c: BFloat, f0: BFloat, cache: &mut ConstCache) -> (r: BFloat)
    requires
        old(cache).wf(),
    ensures
        final(cache).wf(),
        r@ == l_model(c@, f0@),
{
    let two_pi = cache.two_pi();
    BFloat::one().div(&c.mul(&two_pi.mul(&f0).pow(2)))
}

/// Capacitance that resonates with `l` at `f0`: `1 / (L · (2π · f0)²)`.
pub fn lf0_to_c(l: BFloat, f0: BFloat, cache: &mut ConstCache) -> (r: BFloat)
    requires
        old(cache).wf(),
    ensures
        final(cache).wf(),
        r@ == c_model(l@, f0@),
{
    let two_pi = cache.two_pi();
    BFloat::one().div(&l.mul(&two_pi.mul(&f0).pow(2)))
}

/// The reactance of an inductor as a complex impedance: `0 + i·ω·L`.
pub fn lc_inductive_reactance(l: BFloat, omega: BFloat) -> (r: Complex<BFloat>)
    ensures
        r.re@ == integer_of(0),
        r.im@ == xl_model(l@, omega@),
{
    Complex::new(BFloat::zero(), omega.mul(&l))
}

/// The reactance of a capacitor as a complex impedance: `0 − i/(ω·C)`.
pub fn lc_capacitive_reactance(c: BFloat, omega: BFloat) -> (r: Complex<BFloat>)
    ensures
        r.re@ == integer_of(0),
        r.im@ == xc_model(c@, omega@),
{
    Complex::new(BFloat::zero(), BFloat::one().neg().div(&omega.mul(&c)))
}

/// Series LC impedance magnitude, inductive reactance and capacitive
/// reactance magnitude.
pub fn calculate_impedance_series(l: BFloat, c: BFloat, omega: BFloat) -> (r: (BFloat, BFloat, BFloat))
    ensures
        (r.0@, r.1@, r.2@) == series_model(l@, c@, omega@),
        is_zero_model(sum_of(xl_model(l@, omega@), xc_model(c@, omega@))) ==> is_zero_model(r.0@),
{
    let l_reactance = lc_inductive_reactance(l, omega.clone()).im;
    let c_reactance = lc_capacitive_reactance(c, omega).im;
    let lc_impedance = l_reactance.add(&c_reactance);
    (lc_impedance.abs(), l_reactance, c_reactance.abs())
}

/// Parallel LC impedance magnitude, inductive reactance and capacitive
/// reactance magnitude. At resonance the reactances cancel and the
/// impedance is infinite.
pub fn calculate_impedance_parallel(l: BFloat, c: BFloat, omega: BFloat) -> (r: (
    BFloat,
    BFloat,
    BFloat,
))
    ensures
        (r.0@, r.1@, r.2@) == parallel_model(l@, c@, omega@),
        resonates(l@, c@, omega@) ==> r.0@ == (FloatModel::Inf { neg: false }),
{
    let l_reactance = lc_inductive_reactance(l, omega.clone()).im;
    let c_reactance = lc_capacitive_reactance(c, omega).im;
    let lc_impedance = l_reactance.mul(&c_reactance).div(&l_reactance.add(&c_reactance));
    (lc_impedance.abs(), l_reactance, c_reactance.abs())
}

/// Resonant frequency of an LC pair: `1 / (2π · sqrt(L · C))`.
pub fn calculate_resonant_frequency(l: BFloat, c: BFloat, cache: &mut ConstCache) -> (r: BFloat)
    requires
        old(cache).wf(),
    ensures
        final(cache).wf(),
        r@ == f0_model(l@, c@),
{
    lc_to_f0(l, c, cache)
}

/// The quantity of kind `output_kind` derived from `base1`, of kind
/// `base1_kind`, and `base2`, of the third kind among inductance,
/// capacitance and frequency; `None` when the two kinds are equal or not
/// both among those three.
pub open spec fn missing_model(
    base1: FloatModel,
    base2: FloatModel,
    base1_kind: UnitType,
    output_kind: UnitType,
) -> Option<FloatModel> {
    match (base1_kind, output_kind) {
        (UnitType::Henry, UnitType::Farad) => Some(c_model(base1, base2)),
        (UnitType::Henry, UnitType::Hertz) => Some(f0_model(base1, base2)),
        (UnitType::Farad, UnitType::Henry) => Some(l_model(base1, base2)),
        (UnitType::Farad, UnitType::Hertz) => Some(f0_model(base2, base1)),
        (UnitType::Hertz, UnitType::Henry) => Some(l_model(base2, base1)),
        (UnitType::Hertz, UnitType::Farad) => Some(c_model(base2, base1)),
        _ => None,
    }
}

/// Derives the missing one of inductance, capacitance and frequency from
/// the two known ones, all in base units: `base1` is of kind `base1_kind`,
/// `base2` of the remaining kind, and `output_kind` names the one wanted.
/// `None` when the kinds do not name two different quantities among the three.
pub fn calculate_missing(
    base1: BFloat,
    base2: BFloat,
    base1_kind: UnitType,
    output_kind: UnitType,
    cache: &mut ConstCache,
) -> (r: Option<BFloat>)
    requires
        old(cache).wf(),
    ensures
        final(cache).wf(),
        r is Some <==> missing_model(base1@, base2@, base1_kind, output_kind) is Some,
        r matches Some(v) ==> Some(v@) == missing_model(base1@, base2@, base1_kind, output_kind),
{
    match (base1_kind, output_kind) {
        (UnitType::Henry, UnitType::Farad) => Some(lf0_to_c(base1, base2, cache)),
        (UnitType::Henry, UnitType::Hertz) => Some(lc_to_f0(base1, base2, cache)),
        (UnitType::Farad, UnitType::Henry) => Some(cf0_to_l(base1, base2, cache)),
        (UnitType::Farad, UnitType::Hertz) => Some(lc_to_f0(base2, base1, cache)),
        (UnitType::Hertz, UnitType::Henry) => Some(cf0_to_l(base2, base1, cache)),
        (UnitType::Hertz, UnitType::Farad) => Some(lf0_to_c(base2, base1, cache)),
        _ => None,
    }
}

} // verus!
