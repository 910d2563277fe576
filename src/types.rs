use vstd::prelude::*;

use astro_float::{BigFloat, Consts, RoundingMode, Sign};

verus! {

#[verifier::external_type_specification]
#[verifier::external_body]
pub struct ExBigFloat(BigFloat);

#[verifier::external_type_specification]
#[verifier::external_body]
pub struct ExConsts(Consts);

#[verifier::external_type_specification]
#[verifier::external_body]
pub struct ExError(astro_float::Error);

/// Working precision, in bits, of rounded operations.
pub const PRECISION: usize = 1024;

/// The kind of physical quantity a value carries; `NotSelected` stands for
/// "not known yet".
#[derive(PartialEq, Eq, Structural, Debug, Clone, Copy)]
pub enum UnitType {
    Hertz,
    Farad,
    Henry,
    Ohm,
    NotSelected,
}

/// What a number is: the raw parts of a finite binary floating-point number
/// (mantissa words, least significant first; number of significant bits;
/// sign; binary exponent; inexact flag), a signed infinity, or not-a-number.
pub enum FloatModel {
    Finite { words: Seq<u64>, bits: nat, neg: bool, exp: int, inexact: bool },
    Inf { neg: bool },
    NaN,
}

enum Repr {
    Finite { words: Vec<u64>, bits: usize, neg: bool, exp: i32, inexact: bool },
    Inf { neg: bool },
    NaN,
}

/// An arbitrary-precision number. Its parts are only ever produced by
/// astro-float, so they always form a valid number of that library. The
/// contracts below do not model astro-float running out of memory, which
/// turns a result into NaN.
pub struct BFloat {
    repr: Repr,
}

impl View for BFloat {
    type V = FloatModel;

    closed spec fn view(&self) -> FloatModel {
        match self.repr {
            Repr::Finite { words, bits, neg, exp, inexact } => FloatModel::Finite {
                words: words@,
                bits: bits as nat,
                neg,
                exp: exp as int,
                inexact,
            },
            Repr::Inf { neg } => FloatModel::Inf { neg },
            Repr::NaN => FloatModel::NaN,
        }
    }
}

/// A finite number whose mantissa is zero (of either sign).
pub open spec fn is_zero_model(x: FloatModel) -> bool {
    match x {
        FloatModel::Finite { words, .. } => forall|i: int| 0 <= i < words.len() ==> words[i] == 0,
        _ => false,
    }
}

/// A finite number, zero or not, with its sign bit set.
pub open spec fn is_negative_finite(x: FloatModel) -> bool {
    match x {
        FloatModel::Finite { neg, .. } => neg,
        _ => false,
    }
}

/// The same number with the opposite sign; NaN stays NaN.
pub open spec fn neg_model(x: FloatModel) -> FloatModel {
    match x {
        FloatModel::Finite { words, bits, neg, exp, inexact } => FloatModel::Finite {
            words,
            bits,
            neg: !neg,
            exp,
            inexact,
        },
        FloatModel::Inf { neg } => FloatModel::Inf { neg: !neg },
        FloatModel::NaN => FloatModel::NaN,
    }
}

/// The same number with a cleared sign; NaN stays NaN.
pub open spec fn abs_model(x: FloatModel) -> FloatModel {
    match x {
        FloatModel::Finite { words, bits, neg, exp, inexact } => FloatModel::Finite {
            words,
            bits,
            neg: false,
            exp,
            inexact,
        },
        FloatModel::Inf { neg } => FloatModel::Inf { neg: false },
        FloatModel::NaN => FloatModel::NaN,
    }
}

/// The exact sum, as astro-float's `add_full_prec` computes it.
pub uninterp spec fn sum_of(a: FloatModel, b: FloatModel) -> FloatModel;

/// The exact difference, as astro-float's `sub_full_prec` computes it.
pub uninterp spec fn difference_of(a: FloatModel, b: FloatModel) -> FloatModel;

/// The exact product, as astro-float's `mul_full_prec` computes it.
pub uninterp spec fn product_of(a: FloatModel, b: FloatModel) -> FloatModel;

/// The quotient rounded to even at `PRECISION` bits, as astro-float's `div` computes it.
pub uninterp spec fn quotient_of(a: FloatModel, b: FloatModel) -> FloatModel;

/// The `n`-th power rounded to even at `PRECISION` bits (astro-float's `powi`).
pub uninterp spec fn power_of(a: FloatModel, n: nat) -> FloatModel;

/// The square root rounded to even at `PRECISION` bits (astro-float's `sqrt`).
pub uninterp spec fn root_of(a: FloatModel) -> FloatModel;

/// The number that astro-float's `from_u64` builds from an integer.
pub uninterp spec fn integer_of(v: nat) -> FloatModel;

/// The decimal text `s` read at `PRECISION` bits, rounded to even (astro-float's `parse`).
pub uninterp spec fn parsed_of(s: Seq<char>) -> FloatModel;

/// Whether astro-float's `==` holds between two numbers.
pub uninterp spec fn equal_of(a: FloatModel, b: FloatModel) -> bool;

// Conversions between the parts held here and astro-float's own number.
impl BFloat {
    /// Rebuilds astro-float's number from the parts, one for one
    /// (`BigFloat::from_raw_parts`, and its NaN and infinity constants).
    #[verifier::external_body]
    pub(crate) fn to_big(&self) -> BigFloat {
        match &self.repr {
            Repr::Finite { words, bits, neg, exp, inexact } => {
                let s = if *neg { Sign::Neg } else { Sign::Pos };
                BigFloat::from_raw_parts(words, *bits, s, *exp, *inexact)
            },
            Repr::Inf { neg: false } => astro_float::INF_POS,
            Repr::Inf { neg: true } => astro_float::INF_NEG,
            Repr::NaN => astro_float::NAN,
        }
    }

    /// Takes astro-float's number apart, one for one (`BigFloat::as_raw_parts`).
    #[verifier::external_body]
    pub(crate) fn from_big(b: BigFloat) -> BFloat {
        let repr = match b.as_raw_parts() {
            Some((m, bits, s, exp, inexact)) => {
                Repr::Finite { words: m.to_vec(), bits, neg: s.is_negative(), exp, inexact }
            },
            None if b.is_nan() => Repr::NaN,
            None => Repr::Inf { neg: b.is_inf_neg() },
        };
        BFloat { repr }
    }
}

impl Clone for BFloat {
    fn clone(&self) -> (r: BFloat)
        ensures
            r@ == self@,
    {
        let repr = match &self.repr {
            Repr::Finite { words, bits, neg, exp, inexact } => {
                let w = words.clone();
                proof {
                    assert(w@ =~= words@);
                }
                Repr::Finite { words: w, bits: *bits, neg: *neg, exp: *exp, inexact: *inexact }
            },
            Repr::Inf { neg } => Repr::Inf { neg: *neg },
            Repr::NaN => Repr::NaN,
        };
        BFloat { repr }
    }
}

impl BFloat {
    /// Not-a-number.
    pub fn nan() -> (r: BFloat)
        ensures
            r@ is NaN,
    {
        BFloat { repr: Repr::NaN }
    }

    /// Relies on `From<u64> for BigFloat` (`from_u64` at the default precision):
    /// a finite, non-negative number that is zero exactly when `v` is.
    #[verifier::external_body]
    pub fn from_u64(v: u64) -> (r: BFloat)
        ensures
            r@ == integer_of(v as nat),
            r@ is Finite,
            !is_negative_finite(r@),
            is_zero_model(r@) == (v == 0),
    {
        BFloat::from_big(BigFloat::from(v))
    }

    /// The additive identity.
    pub fn zero() -> (r: BFloat)
        ensures
            r@ == integer_of(0),
            is_zero_model(r@),
            !is_negative_finite(r@),
    {
        BFloat::from_u64(0)
    }

    /// The multiplicative identity.
    pub fn one() -> (r: BFloat)
        ensures
            r@ == integer_of(1),
            r@ is Finite,
            !is_zero_model(r@),
            !is_negative_finite(r@),
    {
        BFloat::from_u64(1)
    }

    /// Resets `self` to zero.
    pub fn set_zero(&mut self)
        ensures
            final(self)@ == integer_of(0),
    {
        *self = BFloat::zero();
    }

    /// Resets `self` to one.
    pub fn set_one(&mut self)
        ensures
            final(self)@ == integer_of(1),
    {
        *self = BFloat::one();
    }

    pub fn is_nan(&self) -> (r: bool)
        ensures
            r == (self@ is NaN),
    {
        match &self.repr {
            Repr::NaN => true,
            _ => false,
        }
    }

    pub fn is_inf_pos(&self) -> (r: bool)
        ensures
            r == (self@ == FloatModel::Inf { neg: false }),
    {
        match &self.repr {
            Repr::Inf { neg } => !*neg,
            _ => false,
        }
    }

    pub fn is_inf_neg(&self) -> (r: bool)
        ensures
            r == (self@ == FloatModel::Inf { neg: true }),
    {
        match &self.repr {
            Repr::Inf { neg } => *neg,
            _ => false,
        }
    }

    /// Whether `self` is a zero of either sign.
    pub fn is_zero(&self) -> (r: bool)
        ensures
            r == is_zero_model(self@),
    {
        match &self.repr {
            Repr::Finite { words, .. } => {
                let mut i: usize = 0;
                while i < words.len()
                    invariant
                        i <= words@.len(),
                        self@ is Finite,
                        self@->Finite_words == words@,
                        forall|j: int| 0 <= j < i ==> words@[j] == 0,
                    decreases words@.len() - i,
                {
                    if words[i] != 0 {
                        proof {
                            let ws = self@->Finite_words;
                            assert(ws[i as int] != 0);
                        }
                        return false;
                    }
                    i = i + 1;
                }
                true
            },
            _ => false,
        }
    }

    /// The same number with the opposite sign.
    pub fn neg(&self) -> (r: BFloat)
        ensures
            r@ == neg_model(self@),
    {
        let repr = match &self.repr {
            Repr::Finite { words, bits, neg, exp, inexact } => {
                let w = words.clone();
                proof {
                    assert(w@ =~= words@);
                }
                Repr::Finite { words: w, bits: *bits, neg: !*neg, exp: *exp, inexact: *inexact }
            },
            Repr::Inf { neg } => Repr::Inf { neg: !*neg },
            Repr::NaN => Repr::NaN,
        };
        BFloat { repr }
    }

    /// The absolute value.
    pub fn abs(&self) -> (r: BFloat)
        ensures
            r@ == abs_model(self@),
    {
        let repr = match &self.repr {
            Repr::Finite { words, bits, exp, inexact, .. } => {
                let w = words.clone();
                proof {
                    assert(w@ =~= words@);
                }
                Repr::Finite { words: w, bits: *bits, neg: false, exp: *exp, inexact: *inexact }
            },
            Repr::Inf { .. } => Repr::Inf { neg: false },
            Repr::NaN => Repr::NaN,
        };
        BFloat { repr }
    }

    /// Relies on `BigFloat::add_full_prec`: the exact sum; NaN if either side is NaN.
    #[verifier::external_body]
    pub fn add(&self, rhs: &BFloat) -> (r: BFloat)
        ensures
            r@ == sum_of(self@, rhs@),
            (self@ is NaN || rhs@ is NaN) ==> r@ is NaN,
    {
        BFloat::from_big(self.to_big().add_full_prec(&rhs.to_big()))
    }

    /// Relies on `BigFloat::sub_full_prec`: the exact difference; NaN if either side is NaN.
    #[verifier::external_body]
    pub fn sub(&self, rhs: &BFloat) -> (r: BFloat)
        ensures
            r@ == difference_of(self@, rhs@),
            (self@ is NaN || rhs@ is NaN) ==> r@ is NaN,
    {
        BFloat::from_big(self.to_big().sub_full_prec(&rhs.to_big()))
    }

    /// Relies on `BigFloat::mul_full_prec`: the exact product; NaN if either
    /// side is NaN; for two finite numbers of which one is zero, a zero whose
    /// sign is the product of the two signs.
    #[verifier::external_body]
    pub fn mul(&self, rhs: &BFloat) -> (r: BFloat)
        ensures
            r@ == product_of(self@, rhs@),
            (self@ is NaN || rhs@ is NaN) ==> r@ is NaN,
            self@ is Finite && rhs@ is Finite && (is_zero_model(self@) || is_zero_model(rhs@))
                ==> is_zero_model(r@) && is_negative_finite(r@) == (is_negative_finite(self@)
                != is_negative_finite(rhs@)),
    {
        BFloat::from_big(self.to_big().mul_full_prec(&rhs.to_big()))
    }

    /// Relies on `BigFloat::div` at `PRECISION` bits, rounding to even. NaN if
    /// either side is NaN, or both are zero; a nonzero finite number over a zero
    /// gives the infinity whose sign is the product of the two signs.
    #[verifier::external_body]
    pub fn div(&self, rhs: &BFloat) -> (r: BFloat)
        ensures
            r@ == quotient_of(self@, rhs@),
            (self@ is NaN || rhs@ is NaN) ==> r@ is NaN,
            is_zero_model(self@) && is_zero_model(rhs@) ==> r@ is NaN,
            self@ is Finite && !is_zero_model(self@) && is_zero_model(rhs@) ==> r@ == (FloatModel::Inf {
                neg: is_negative_finite(self@) != is_negative_finite(rhs@),
            }),
    {
        BFloat::from_big(self.to_big().div(&rhs.to_big(), PRECISION, RoundingMode::ToEven))
    }

    /// Relies on `BigFloat::powi` at `PRECISION` bits, rounding to even; NaN stays NaN.
    #[verifier::external_body]
    pub fn pow(&self, n: usize) -> (r: BFloat)
        ensures
            r@ == power_of(self@, n as nat),
            self@ is NaN ==> r@ is NaN,
    {
        BFloat::from_big(self.to_big().powi(n, PRECISION, RoundingMode::ToEven))
    }

    /// Relies on `BigFloat::sqrt` at `PRECISION` bits, rounding to even. NaN
    /// stays NaN, a negative nonzero number has no root (NaN), and the root
    /// of a zero is a zero of the same sign.
    #[verifier::external_body]
    pub fn sqrt(&self) -> (r: BFloat)
        ensures
            r@ == root_of(self@),
            self@ is NaN ==> r@ is NaN,
            is_negative_finite(self@) && !is_zero_model(self@) ==> r@ is NaN,
            is_zero_model(self@) ==> is_zero_model(r@) && is_negative_finite(r@)
                == is_negative_finite(self@),
    {
        BFloat::from_big(self.to_big().sqrt(PRECISION, RoundingMode::ToEven))
    }

    /// Relies on `BigFloat`'s `==`, which compares values; NaN equals nothing.
    #[verifier::external_body]
    fn equals(&self, rhs: &BFloat) -> (r: bool)
        ensures
            r == equal_of(self@, rhs@),
            (self@ is NaN || rhs@ is NaN) ==> !r,
    {
        self.to_big() == rhs.to_big()
    }

    /// Whether `self` equals one.
    pub fn is_one(&self) -> (r: bool)
        ensures
            r == equal_of(self@, integer_of(1)),
    {
        self.equals(&BFloat::one())
    }

    /// Relies on `BigFloat::parse` (decimal, `PRECISION` bits, rounding to
    /// even): malformed text gives NaN, and so does empty text.
    #[verifier::external_body]
    pub(crate) fn parse_with(s: &str, cc: &mut Consts) -> (r: BFloat)
        ensures
            r@ == parsed_of(s@),
            s@.len() == 0 ==> r@ is NaN,
    {
        BFloat::from_big(BigFloat::parse(s, astro_float::Radix::Dec, PRECISION, RoundingMode::ToEven, cc))
    }
}

} // verus!
