use vstd::prelude::*;

use crate::consts::{decimal_ok, decimal_of, ConstCache};
use crate::types::{is_zero_model, BFloat, FloatModel};

verus! {

/// The character of a decimal digit.
pub open spec fn digit_char(d: u8) -> char {
    (48 + d) as char
}

pub open spec fn digit_chars(d: Seq<u8>) -> Seq<char> {
    d.map_values(|x: u8| digit_char(x))
}

pub open spec fn zeros(n: nat) -> Seq<char> {
    Seq::new(n, |i: int| '0')
}

/// Whether the positional form of `0.d × 10^e` has a fractional part.
pub open spec fn has_fraction(d: Seq<u8>, e: int) -> bool {
    e <= 0 || e < d.len()
}

/// The positional form of `±0.d × 10^e`, before any trimming: `0.` and
/// leading zeros below one, the digits padded with zeros when they are all
/// integral, a point between integer and fraction digits otherwise.
pub open spec fn layout(neg: bool, d: Seq<u8>, e: int) -> Seq<char> {
    let body = if e <= 0 {
        seq!['0', '.'] + zeros((-e) as nat) + digit_chars(d)
    } else if e >= d.len() {
        digit_chars(d) + zeros((e - d.len()) as nat)
    } else {
        digit_chars(d.subrange(0, e)) + seq!['.'] + digit_chars(d.subrange(e, d.len() as int))
    };
    if neg {
        seq!['-'] + body
    } else {
        body
    }
}

/// `s` without its trailing zeros.
pub open spec fn trim_zeros(s: Seq<char>) -> Seq<char>
    decreases s.len(),
{
    if s.len() > 0 && s.last() == '0' {
        trim_zeros(s.drop_last())
    } else {
        s
    }
}

/// The plain decimal text of `±0.d × 10^e`: where there is a fractional
/// part, its trailing zeros and then a bare point are dropped (a lone sign
/// left over becomes `0`).
pub open spec fn plain_decimal(neg: bool, d: Seq<u8>, e: int) -> Seq<char> {
    let s = layout(neg, d, e);
    if has_fraction(d, e) {
        let t = trim_zeros(s);
        let u = if t.len() > 0 && t.last() == '.' {
            t.drop_last()
        } else {
            t
        };
        if u == seq!['-'] {
            seq!['0']
        } else {
            u
        }
    } else {
        s
    }
}

/// The decimal text of a number: `NaN`, `Inf`, `-Inf`, `0` for a zero of
/// either sign, and otherwise the plain decimal form of the digits that
/// astro-float's radix conversion gives (see `decimal_of`).
pub open spec fn exact_text(x: FloatModel) -> Seq<char> {
    match x {
        FloatModel::NaN => seq!['N', 'a', 'N'],
        FloatModel::Inf { neg } => if neg {
            seq!['-', 'I', 'n', 'f']
        } else {
            seq!['I', 'n', 'f']
        },
        FloatModel::Finite { .. } => if is_zero_model(x) {
            seq!['0']
        } else {
            plain_decimal(decimal_of(x).0, decimal_of(x).1, decimal_of(x).2)
        },
    }
}

/// An expansion whose last digit is nonzero is rendered in full: its text is
/// its positional form, with no zero and no point trimmed away.
pub proof fn lemma_canonical_expansion_untrimmed(neg: bool, d: Seq<u8>, e: int)
    requires
        d.len() > 0,
        d.last() != 0,
        forall|i: int| 0 <= i < d.len() ==> #[trigger] d[i] < 10,
    ensures
        plain_decimal(neg, d, e) == layout(neg, d, e),
{
    let s = layout(neg, d, e);
    if has_fraction(d, e) {
        let x = d.last();
        assert(digit_chars(d).last() == digit_char(x));
        if e > 0 {
            let tail = d.subrange(e, d.len() as int);
            assert(tail.last() == x);
            assert(digit_chars(tail).last() == digit_char(x));
        }
        assert(s.last() == digit_char(x));
        assert(digit_char(x) != '0' && digit_char(x) != '.');
        assert(trim_zeros(s) == s);
        assert(s.len() >= 2);
    }
}

/// The decimal expansion of a number could not be produced.
#[derive(PartialEq, Eq, Structural, Debug, Clone, Copy)]
pub enum FormatError {
    Conversion,
}

/// Relies on `FromIterator<char> for String`: the characters, in order.
#[verifier::external_body]
fn string_from_chars(v: &Vec<char>) -> (r: String)
    ensures
        r@ == v@,
{
    v.iter().collect()
}

fn push_digits(v: &mut Vec<char>, d: &Vec<u8>, from: usize, to: usize)
    requires
        from <= to <= d@.len(),
        forall|i: int| 0 <= i < d@.len() ==> #[trigger] d@[i] < 10,
    ensures
        final(v)@ == old(v)@ + digit_chars(d@.subrange(from as int, to as int)),
{
    let ghost start = v@;
    let mut i: usize = from;
    while i < to
        invariant
            from <= i <= to <= d@.len(),
            forall|j: int| 0 <= j < d@.len() ==> #[trigger] d@[j] < 10,
            v@ == start + digit_chars(d@.subrange(from as int, i as int)),
        decreases to - i,
    {
        let c = (48u8 + d[i]) as char;
        v.push(c);
        assert(digit_chars(d@.subrange(from as int, i + 1)) =~= digit_chars(
            d@.subrange(from as int, i as int),
        ).push(c));
        i = i + 1;
    }
}

fn push_zeros(v: &mut Vec<char>, n: usize)
    ensures
        final(v)@ == old(v)@ + zeros(n as nat),
{
    let ghost start = v@;
    let mut i: usize = 0;
    while i < n
        invariant
            i <= n,
            v@ == start + zeros(i as nat),
        decreases n - i,
    {
        v.push('0');
        assert(zeros((i + 1) as nat) =~= zeros(i as nat).push('0'));
        i = i + 1;
    }
}

/// The plain decimal text of `±0.d × 10^e` (see `plain_decimal`).
pub fn plain_decimal_string(neg: bool, digits: &Vec<u8>, exp: i32) -> (r: String)
    requires
        forall|i: int| 0 <= i < digits@.len() ==> #[trigger] digits@[i] < 10,
    ensures
        r@ == plain_decimal(neg, digits@, exp as int),
{
    let ghost d = digits@;
    let ghost e = exp as int;
    let mut v: Vec<char> = Vec::new();
    if neg {
        v.push('-');
    }
    let ghost sign_part = v@;
    let len = digits.len();
    if exp <= 0 {
        v.push('0');
        v.push('.');
        let n: i64 = -(exp as i64);
        push_zeros(&mut v, n as usize);
        push_digits(&mut v, digits, 0, len);
        assert(d.subrange(0, len as int) =~= d);
        assert(v@ =~= layout(neg, d, e));
    } else if exp as usize >= len {
        push_digits(&mut v, digits, 0, len);
        push_zeros(&mut v, exp as usize - len);
        assert(d.subrange(0, len as int) =~= d);
        assert(v@ =~= layout(neg, d, e));
    } else {
        let pos = exp as usize;
        push_digits(&mut v, digits, 0, pos);
        v.push('.');
        push_digits(&mut v, digits, pos, len);
        assert(v@ =~= layout(neg, d, e));
    }
    if exp <= 0 || (exp as usize) < len {
        let ghost s = v@;
        while v.len() > 0 && v[v.len() - 1] == '0'
            invariant
                trim_zeros(v@) == trim_zeros(s),
            decreases v@.len(),
        {
            v.pop();
        }
        assert(trim_zeros(v@) == v@);
        if v.len() > 0 && v[v.len() - 1] == '.' {
            v.pop();
        }
        if v.len() == 1 && v[0] == '-' {
            assert(v@ =~= seq!['-']);
            v = vec!['0'];
            assert(v@ =~= seq!['0']);
        } else {
            assert(v@ != seq!['-']);
        }
    }
    string_from_chars(&v)
}

/// Whether `x` has a decimal text: NaN, the infinities and zeros always do;
/// another finite number does when astro-float's radix conversion succeeds.
pub open spec fn renders(x: FloatModel) -> bool {
    !(x is Finite) || is_zero_model(x) || decimal_ok(x)
}

/// The decimal text of `n` (see `exact_text`), never in scientific
/// notation: the digits astro-float's radix conversion gives, placed around
/// the point. Fails exactly when that conversion fails on a finite nonzero
/// number.
pub fn bigfloat_to_plain_decimal(n: &BFloat, cache: &mut ConstCache) -> (r: Result<String, FormatError>)
    requires
        old(cache).wf(),
    ensures
        final(cache).wf(),
        final(cache).holds_two_pi() == old(cache).holds_two_pi(),
        r is Ok <==> renders(n@),
        r matches Ok(s) ==> s@ == exact_text(n@),
{
    proof {
        reveal_strlit("NaN");
        reveal_strlit("Inf");
        reveal_strlit("-Inf");
        reveal_strlit("0");
    }
    if n.is_nan() {
        return Ok(String::from_str("NaN"));
    }
    if n.is_inf_pos() {
        return Ok(String::from_str("Inf"));
    }
    if n.is_inf_neg() {
        return Ok(String::from_str("-Inf"));
    }
    if n.is_zero() {
        return Ok(String::from_str("0"));
    }
    match cache.decimal_parts(n) {
        Some((neg, digits, exp)) => Ok(plain_decimal_string(neg, &digits, exp)),
        None => Err(FormatError::Conversion),
    }
}

/// The decimal digits of a natural number, most significant first.
pub open spec fn nat_text(n: nat) -> Seq<char>
    decreases n,
{
    if n < 10 {
        seq![digit_char(n as u8)]
    } else {
        nat_text(n / 10).push(digit_char((n % 10) as u8))
    }
}

/// The decimal text of an integer, with a leading `-` when negative.
pub open spec fn int_text(i: int) -> Seq<char> {
    if i < 0 {
        seq!['-'] + nat_text((-i) as nat)
    } else {
        nat_text(i as nat)
    }
}

/// The scientific form `±0.d e E` of `±0.d × 10^e`, which the approximate
/// rendering splits at the `e`.
pub open spec fn scientific_text(neg: bool, d: Seq<u8>, e: int) -> Seq<char> {
    (if neg {
        seq!['-']
    } else {
        seq![]
    }) + seq!['0', '.'] + digit_chars(d) + seq!['e'] + int_text(e)
}

fn push_nat_text(v: &mut Vec<char>, n: u64)
    ensures
        final(v)@ == old(v)@ + nat_text(n as nat),
    decreases n,
{
    if n >= 10 {
        push_nat_text(v, n / 10);
    }
    let c = (48u8 + (n % 10) as u8) as char;
    v.push(c);
    proof {
        if n < 10 {
            assert(nat_text(n as nat) =~= seq![c]);
        }
    }
}

/// The scientific text of a finite number (see `scientific_text`); `None`
/// exactly for NaN and the infinities, and when astro-float's radix
/// conversion fails.
pub fn bigfloat_to_string(n: &BFloat, cache: &mut ConstCache) -> (r: Option<String>)
    requires
        old(cache).wf(),
    ensures
        final(cache).wf(),
        r is Some <==> decimal_ok(n@),
        !(n@ is Finite) ==> r is None,
        r matches Some(s) ==> s@ == scientific_text(decimal_of(n@).0, decimal_of(n@).1, decimal_of(n@).2),
{
    let (neg, digits, exp) = match cache.decimal_parts(n) {
        Some(parts) => parts,
        None => return None,
    };
    let mut v: Vec<char> = Vec::new();
    if neg {
        v.push('-');
    }
    v.push('0');
    v.push('.');
    let len = digits.len();
    push_digits(&mut v, &digits, 0, len);
    assert(digits@.subrange(0, len as int) =~= digits@);
    v.push('e');
    if exp < 0 {
        v.push('-');
    }
    let magnitude: u64 = if exp < 0 {
        (-(exp as i64)) as u64
    } else {
        exp as u64
    };
    push_nat_text(&mut v, magnitude);
    assert(v@ =~= scientific_text(neg, digits@, exp as int));
    Some(string_from_chars(&v))
}

impl BFloat {
    /// The decimal text of `self` (see `bigfloat_to_plain_decimal`).
    pub fn as_decimal_string(&self, cache: &mut ConstCache) -> (r: Result<String, FormatError>)
        requires
            old(cache).wf(),
        ensures
            final(cache).wf(),
            final(cache).holds_two_pi() == old(cache).holds_two_pi(),
            r is Ok <==> renders(self@),
            r matches Ok(s) ==> s@ == exact_text(self@),
    {
        bigfloat_to_plain_decimal(self, cache)
    }
}

} // verus!
