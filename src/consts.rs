use vstd::prelude::*;

use astro_float::{Consts, RoundingMode};

use crate::types::{integer_of, parsed_of, product_of, BFloat, FloatModel};

verus! {

/// Precision, in bits, at which π is taken.
pub const PI_PRECISION: usize = 2048;

/// π at `p` bits, rounded to even, as astro-float's constants cache gives it.
pub uninterp spec fn pi_of(p: nat) -> FloatModel;

/// 2π as every formula uses it: π at `PI_PRECISION` bits, doubled exactly.
pub open spec fn two_pi_model() -> FloatModel {
    product_of(pi_of(PI_PRECISION as nat), integer_of(2))
}

/// One step of the scan of a decimal numeral `[+-]? (digits [. digits?]? |
/// . digits) ([eE] [+-]? digits)?`. States: 0 start, 1 after the sign,
/// 2 integer digits, 3 point after digits, 4 point without digits before,
/// 5 fraction digits, 6 exponent mark, 7 exponent sign, 8 exponent digits,
/// 9 rejected.
pub open spec fn numeral_step(st: u8, c: char) -> u8 {
    let digit = '0' <= c && c <= '9';
    let sign = c == '+' || c == '-';
    let mark = c == 'e' || c == 'E';
    if st == 0 {
        if sign { 1 } else if digit { 2 } else if c == '.' { 4 } else { 9 }
    } else if st == 1 {
        if digit { 2 } else if c == '.' { 4 } else { 9 }
    } else if st == 2 {
        if digit { 2 } else if c == '.' { 3 } else if mark { 6 } else { 9 }
    } else if st == 3 || st == 5 {
        if digit { 5 } else if mark { 6 } else { 9 }
    } else if st == 4 {
        if digit { 5 } else { 9 }
    } else if st == 6 {
        if sign { 7 } else if digit { 8 } else { 9 }
    } else if st == 7 || st == 8 {
        if digit { 8 } else { 9 }
    } else {
        9
    }
}

/// The state reached by scanning `s` from state `st`.
pub open spec fn numeral_scan(s: Seq<char>, st: u8) -> u8
    decreases s.len(),
{
    if s.len() == 0 {
        st
    } else {
        numeral_scan(s.drop_first(), numeral_step(st, s[0]))
    }
}

/// `s` is a decimal numeral: optionally signed, with digits before or after
/// an optional point, and an optional exponent.
pub open spec fn is_decimal_numeral(s: Seq<char>) -> bool {
    let e = numeral_scan(s, 0);
    e == 2 || e == 3 || e == 5 || e == 8
}

/// `s` names a special value as the decimal text writes it.
pub open spec fn is_special_word(s: Seq<char>) -> bool {
    s == seq!['N', 'a', 'N'] || s == seq!['I', 'n', 'f'] || s == seq!['+', 'I', 'n', 'f'] || s
        == seq!['-', 'I', 'n', 'f']
}

/// The number that text stands for: a numeral or special word read by
/// astro-float, and NaN for any other text.
pub open spec fn read_number(s: Seq<char>) -> FloatModel {
    if is_decimal_numeral(s) || is_special_word(s) {
        parsed_of(s)
    } else {
        FloatModel::NaN
    }
}

/// Relies on `str::chars`, collected: the characters of `s`, in order.
#[verifier::external_body]
fn chars_of(s: &str) -> (r: Vec<char>)
    ensures
        r@ == s@,
{
    s.chars().collect()
}

fn numeral_step_exec(st: u8, c: char) -> (r: u8)
    ensures
        r == numeral_step(st, c),
{
    let digit = '0' <= c && c <= '9';
    let sign = c == '+' || c == '-';
    let mark = c == 'e' || c == 'E';
    if st == 0 {
        if sign { 1 } else if digit { 2 } else if c == '.' { 4 } else { 9 }
    } else if st == 1 {
        if digit { 2 } else if c == '.' { 4 } else { 9 }
    } else if st == 2 {
        if digit { 2 } else if c == '.' { 3 } else if mark { 6 } else { 9 }
    } else if st == 3 || st == 5 {
        if digit { 5 } else if mark { 6 } else { 9 }
    } else if st == 4 {
        if digit { 5 } else { 9 }
    } else if st == 6 {
        if sign { 7 } else if digit { 8 } else { 9 }
    } else if st == 7 || st == 8 {
        if digit { 8 } else { 9 }
    } else {
        9
    }
}

/// Whether `s` is a decimal numeral or a special word (see `read_number`).
pub fn is_number_text(s: &str) -> (r: bool)
    ensures
        r == (is_decimal_numeral(s@) || is_special_word(s@)),
{
    let v = chars_of(s);
    let n = v.len();
    let mut st: u8 = 0;
    let mut i: usize = 0;
    assert(v@.subrange(0, n as int) =~= v@);
    while i < n
        invariant
            i <= n == v@.len(),
            v@ == s@,
            numeral_scan(v@, 0) == numeral_scan(v@.subrange(i as int, n as int), st),
        decreases n - i,
    {
        let ghost rest = v@.subrange(i as int, n as int);
        assert(rest[0] == v@[i as int]);
        assert(rest.drop_first() =~= v@.subrange(i + 1, n as int));
        st = numeral_step_exec(st, v[i]);
        i = i + 1;
    }
    let numeral = st == 2 || st == 3 || st == 5 || st == 8;
    let special = (n == 3 && v[0] == 'N' && v[1] == 'a' && v[2] == 'N') || (n == 3 && v[0] == 'I'
        && v[1] == 'n' && v[2] == 'f') || (n == 4 && (v[0] == '+' || v[0] == '-') && v[1] == 'I'
        && v[2] == 'n' && v[3] == 'f');
    proof {
        if special {
            if n == 3 && v[0] == 'N' {
                assert(v@ =~= seq!['N', 'a', 'N']);
            } else if n == 3 {
                assert(v@ =~= seq!['I', 'n', 'f']);
            } else if v[0] == '+' {
                assert(v@ =~= seq!['+', 'I', 'n', 'f']);
            } else {
                assert(v@ =~= seq!['-', 'I', 'n', 'f']);
            }
        }
        if is_special_word(v@) {
            assert(v@.len() == 3 || v@.len() == 4);
            if v@ == seq!['N', 'a', 'N'] {
                assert(v@[0] == 'N' && v@[1] == 'a' && v@[2] == 'N');
            } else if v@ == seq!['I', 'n', 'f'] {
                assert(v@[0] == 'I' && v@[1] == 'n' && v@[2] == 'f');
            } else if v@ == seq!['+', 'I', 'n', 'f'] {
                assert(v@[0] == '+' && v@[1] == 'I' && v@[2] == 'n' && v@[3] == 'f');
            } else {
                assert(v@[0] == '-' && v@[1] == 'I' && v@[2] == 'n' && v@[3] == 'f');
            }
        }
    }
    numeral || special
}

/// Relies on `Consts::new`: a fresh constants cache, or the allocation error.
#[verifier::external_body]
fn new_consts() -> (r: Result<Consts, astro_float::Error>) {
    Consts::new()
}

/// Relies on `Consts::pi`: π at `PI_PRECISION` bits, rounded to even.
#[verifier::external_body]
fn pi(cc: &mut Consts) -> (r: BFloat)
    ensures
        r@ == pi_of(PI_PRECISION as nat),
{
    BFloat::from_big(cc.pi(PI_PRECISION, RoundingMode::ToEven))
}

/// The sign, the decimal digits (most significant first) and the decimal
/// exponent `e` of a finite number `0.d₁d₂… × 10^e`, as astro-float's
/// `convert_to_radix` gives them in radix ten with `RoundingMode::None`:
/// about 0.3·p + 1 digits for a mantissa of p bits, which need not be the
/// whole binary value's expansion.
pub uninterp spec fn decimal_of(x: FloatModel) -> (bool, Seq<u8>, int);

/// Whether astro-float's `convert_to_radix` (radix ten) succeeds on `x`; its
/// source documents exponent overflow as the failure of a finite number.
pub uninterp spec fn decimal_ok(x: FloatModel) -> bool;

/// Relies on `BigFloat::convert_to_radix` (radix ten, `RoundingMode::None`):
/// the decimal digits of a finite number, each below ten, exactly when the
/// conversion succeeds; an error for NaN and the infinities.
#[verifier::external_body]
fn decimal_parts(x: &BFloat, cc: &mut Consts) -> (r: Result<(bool, Vec<u8>, i32), astro_float::Error>)
    ensures
        r is Ok <==> decimal_ok(x@),
        r matches Ok(t) ==> decimal_of(x@) == (t.0, t.1@, t.2 as int),
        r matches Ok(t) ==> forall|i: int| 0 <= i < t.1@.len() ==> #[trigger] t.1@[i] < 10,
        !(x@ is Finite) ==> r is Err,
{
    match x.to_big().convert_to_radix(astro_float::Radix::Dec, RoundingMode::None, cc) {
        Ok((s, digits, e)) => Ok((s.is_negative(), digits, e)),
        Err(err) => Err(err),
    }
}

/// The constants service: astro-float's scratch cache and 2π, computed on
/// first use and reused afterwards. Exclusive access (`&mut`) guards the
/// lazy computation.
pub struct ConstCache {
    cc: Consts,
    two_pi: Option<BFloat>,
}

impl ConstCache {
    /// A cached 2π, if any, is the right one.
    pub closed spec fn wf(&self) -> bool {
        self.two_pi matches Some(v) ==> v@ == two_pi_model()
    }

    /// Whether 2π has been computed yet.
    pub closed spec fn holds_two_pi(&self) -> bool {
        self.two_pi is Some
    }

    /// A fresh service with nothing computed; `None` if astro-float could not
    /// allocate its cache.
    pub fn new() -> (r: Option<ConstCache>)
        ensures
            r matches Some(c) ==> c.wf() && !c.holds_two_pi(),
    {
        match new_consts() {
            Ok(cc) => Some(ConstCache { cc, two_pi: None }),
            Err(_) => None,
        }
    }

    /// 2π, computed on the first call only.
    pub fn two_pi(&mut self) -> (r: BFloat)
        requires
            old(self).wf(),
        ensures
            final(self).wf(),
            final(self).holds_two_pi(),
            r@ == two_pi_model(),
    {
        match &self.two_pi {
            Some(v) => v.clone(),
            None => {
                let v = pi(&mut self.cc).mul(&BFloat::from_u64(2));
                self.two_pi = Some(v.clone());
                v
            },
        }
    }

    /// Reads text (see `read_number`): a decimal numeral or special word at
    /// `PRECISION` bits, rounding to even; NaN for any other text, the empty
    /// text included.
    pub fn parse(&mut self, s: &str) -> (r: BFloat)
        requires
            old(self).wf(),
        ensures
            final(self).wf(),
            final(self).holds_two_pi() == old(self).holds_two_pi(),
            r@ == read_number(s@),
    {
        if is_number_text(s) {
            BFloat::parse_with(s, &mut self.cc)
        } else {
            BFloat::nan()
        }
    }

    /// The decimal digits of `x` (see `decimal_of`); `None` exactly when
    /// astro-float's conversion fails (see `decimal_ok`), always so for NaN
    /// and the infinities.
    pub fn decimal_parts(&mut self, x: &BFloat) -> (r: Option<(bool, Vec<u8>, i32)>)
        requires
            old(self).wf(),
        ensures
            final(self).wf(),
            final(self).holds_two_pi() == old(self).holds_two_pi(),
            r is Some <==> decimal_ok(x@),
            !(x@ is Finite) ==> !decimal_ok(x@),
            r matches Some(t) ==> decimal_of(x@) == (t.0, t.1@, t.2 as int),
            r matches Some(t) ==> forall|i: int| 0 <= i < t.1@.len() ==> #[trigger] t.1@[i] < 10,
            !(x@ is Finite) ==> r is None,
    {
        match decimal_parts(x, &mut self.cc) {
            Ok(t) => Some(t),
            Err(_) => None,
        }
    }
}

} // verus!
