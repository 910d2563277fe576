use vstd::prelude::*;

use crate::consts::{two_pi_model, ConstCache};
use crate::types::{integer_of, product_of, quotient_of, BFloat, FloatModel, UnitType};
use crate::units::{registry, base_label, exponent_of, has_label, label_exponent, max_exponent, min_exponent};

verus! {

pub open spec fn pow10(k: nat) -> nat
    decreases k,
{
    if k == 0 {
        1
    } else {
        10 * pow10((k - 1) as nat)
    }
}

/// `x` scaled by `10^delta`: unchanged for a zero `delta`, multiplied by
/// the power for a positive one, divided by it for a negative one.
pub open spec fn scale_model(x: FloatModel, delta: int) -> FloatModel {
    if delta == 0 {
        x
    } else if delta < 0 {
        quotient_of(x, integer_of(pow10((-delta) as nat)))
    } else {
        product_of(x, integer_of(pow10(delta as nat)))
    }
}

/// The power of ten by which a value in unit `from` is scaled to unit `to`.
pub open spec fn conversion_delta(kind: UnitType, from: Seq<char>, to: Seq<char>) -> int {
    exponent_of(kind, from)->0 - exponent_of(kind, to)->0
}

/// A value of `kind` in unit `from`, expressed in unit `to`.
pub open spec fn convert_model(x: FloatModel, kind: UnitType, from: Seq<char>, to: Seq<char>) -> FloatModel {
    scale_model(x, conversion_delta(kind, from, to))
}

/// The angular frequency of a frequency: `f · 2π`.
pub open spec fn omega_model(f: FloatModel) -> FloatModel {
    product_of(f, two_pi_model())
}

proof fn lemma_pow10_monotone(i: nat, j: nat)
    requires
        i <= j,
    ensures
        pow10(i) <= pow10(j),
    decreases j,
{
    if i < j {
        lemma_pow10_monotone(i, (j - 1) as nat);
    }
}

/// `10^k` as an integer, for the exponent gaps that occur in the registries.
fn power_of_ten(k: u32) -> (r: u64)
    requires
        k <= 12,
    ensures
        r == pow10(k as nat),
{
    proof {
        reveal_with_fuel(pow10, 13);
    }
    let mut p: u64 = 1;
    let mut i: u32 = 0;
    while i < k
        invariant
            i <= k <= 12,
            p == pow10(i as nat),
            pow10(12) == 1000000000000,
        decreases k - i,
    {
        proof {
            lemma_pow10_monotone(i as nat, 11);
            reveal_with_fuel(pow10, 12);
        }
        p = p * 10;
        i = i + 1;
    }
    p
}

/// Rescales `unit`, a value of kind `unit_type` in unit `unit_label`, to unit
/// `target_unit`. `None` when the kind's registry lacks either label. Equal
/// labels give the value back untouched.
pub fn convert_measure(unit: BFloat, unit_type: UnitType, unit_label: &str, target_unit: &str) -> (r:
    Option<BFloat>)
    ensures
        r is Some <==> has_label(unit_type, unit_label@) && has_label(unit_type, target_unit@),
        r matches Some(v) ==> v@ == convert_model(unit@, unit_type, unit_label@, target_unit@),
        r is Some && unit_label@ == target_unit@ ==> r->0@ == unit@,
{
    let input_ratio = match label_exponent(unit_type, unit_label) {
        Some(e) => e,
        None => return None,
    };
    let target_ratio = match label_exponent(unit_type, target_unit) {
        Some(e) => e,
        None => return None,
    };
    Some(unit_convert(unit, input_ratio, target_ratio, Ghost(unit_type)))
}

fn unit_convert(unit: BFloat, input_ratio: i32, target_ratio: i32, Ghost(kind): Ghost<UnitType>) -> (r:
    BFloat)
    requires
        min_exponent(kind) <= input_ratio <= max_exponent(kind),
        min_exponent(kind) <= target_ratio <= max_exponent(kind),
    ensures
        r@ == scale_model(unit@, input_ratio - target_ratio),
{
    let ratio: i32 = input_ratio - target_ratio;
    if ratio == 0 {
        unit
    } else if ratio < 0 {
        unit.div(&BFloat::from_u64(power_of_ten((-ratio) as u32)))
    } else {
        unit.mul(&BFloat::from_u64(power_of_ten(ratio as u32)))
    }
}

/// Rescales a value of kind `unit_type` from unit `unit_label` to the kind's
/// base unit.
pub fn convert_to_base(unit: BFloat, unit_type: UnitType, unit_label: &str) -> (r: Option<BFloat>)
    ensures
        r is Some <==> has_label(unit_type, unit_label@) && unit_type != UnitType::NotSelected,
        r matches Some(v) ==> v@ == convert_model(unit@, unit_type, unit_label@, base_label(unit_type)),
{
    let base = base_unit(unit_type);
    convert_measure(unit, unit_type, unit_label, base)
}

/// Rescales a value of kind `unit_type` from the kind's base unit to unit
/// `target_unit`.
pub fn convert_from_base(unit: BFloat, unit_type: UnitType, target_unit: &str) -> (r: Option<BFloat>)
    ensures
        r is Some <==> has_label(unit_type, target_unit@) && unit_type != UnitType::NotSelected,
        r matches Some(v) ==> v@ == convert_model(unit@, unit_type, base_label(unit_type), target_unit@),
{
    let base = base_unit(unit_type);
    convert_measure(unit, unit_type, base, target_unit)
}

proof fn lemma_base_listed(kind: UnitType)
    ensures
        kind != UnitType::NotSelected ==> exponent_of(kind, base_label(kind)) == Some(0int),
{
    let t = registry(kind);
    if kind != UnitType::NotSelected {
        assert(t.len() > 0 && t[0].0 == base_label(kind) && t[0].1 == 0);
    }
}

/// The label of the base unit of a kind.
pub fn base_unit(kind: UnitType) -> (r: &'static str)
    ensures
        r@ == base_label(kind),
        kind != UnitType::NotSelected ==> has_label(kind, r@),
{
    proof {
        reveal_strlit("Hz");
        reveal_strlit("F");
        reveal_strlit("H");
        reveal_strlit("\u{3a9}");
        reveal_strlit("");
        lemma_base_listed(kind);
    }
    let r = match kind {
        UnitType::Hertz => "Hz",
        UnitType::Farad => "F",
        UnitType::Henry => "H",
        UnitType::Ohm => "\u{3a9}",
        UnitType::NotSelected => "",
    };
    assert(r@ == base_label(kind));
    r
}

/// The angular frequency `f · 2π`.
pub fn get_omega(f: BFloat, cache: &mut ConstCache) -> (r: BFloat)
    requires
        old(cache).wf(),
    ensures
        final(cache).wf(),
        r@ == omega_model(f@),
{
    let two_pi = cache.two_pi();
    f.mul(&two_pi)
}

/// Converting a value to its own unit leaves it as it is.
pub proof fn lemma_identity_conversion(x: FloatModel, kind: UnitType, a: Seq<char>)
    requires
        has_label(kind, a),
    ensures
        convert_model(x, kind, a, a) == x,
{
}

/// Converting from `a` to `b` and back scales by a power of ten and then by
/// its inverse: the round trip is the identity when `a` and `b` share an
/// exponent, and otherwise a product and a quotient by the same `10^k`.
pub proof fn lemma_round_trip_scales(x: FloatModel, kind: UnitType, a: Seq<char>, b: Seq<char>)
    requires
        has_label(kind, a),
        has_label(kind, b),
    ensures
        conversion_delta(kind, b, a) == -conversion_delta(kind, a, b),
        conversion_delta(kind, a, b) == 0 ==> convert_model(convert_model(x, kind, a, b), kind, b, a)
            == x,
        conversion_delta(kind, a, b) > 0 ==> convert_model(convert_model(x, kind, a, b), kind, b, a)
            == quotient_of(
            product_of(x, integer_of(pow10(conversion_delta(kind, a, b) as nat))),
            integer_of(pow10(conversion_delta(kind, a, b) as nat)),
        ),
        conversion_delta(kind, a, b) < 0 ==> convert_model(convert_model(x, kind, a, b), kind, b, a)
            == product_of(
            quotient_of(x, integer_of(pow10((-conversion_delta(kind, a, b)) as nat))),
            integer_of(pow10((-conversion_delta(kind, a, b)) as nat)),
        ),
{
}

} // verus!
