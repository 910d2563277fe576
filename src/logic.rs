use vstd::prelude::*;

use crate::calculations::{
    c_model, calculate_impedance_parallel, calculate_impedance_series, calculate_resonant_frequency,
    cf0_to_l, f0_model, l_model, lc_to_f0, lf0_to_c, parallel_model, series_model,
};
use crate::consts::{read_number, ConstCache};
use crate::conversions::{convert_from_base, convert_model, convert_to_base, get_omega, omega_model};
use crate::types::{BFloat, FloatModel, UnitType};
use crate::units::{base_label, has_label, label_exponent};
use crate::utils::{exact_text, renders, FormatError};

verus! {

/// How the inductor and the capacitor are combined.
#[derive(PartialEq, Eq, Structural, Debug, Clone, Copy)]
pub enum ImpedanceMode {
    Series,
    Parallel,
}

/// Why a calculation was not carried out.
#[derive(PartialEq, Eq, Structural, Debug, Clone, Copy)]
pub enum CalcError {
    /// Fewer than two of inductance, capacitance and frequency were given.
    Underdetermined,
    /// A unit label is not listed in the registry of its quantity.
    UnknownUnit,
}

/// The one quantity that was derived rather than given, in the unit the
/// caller chose for it.
pub enum Inferred {
    Inductance(BFloat),
    Capacitance(BFloat),
    Frequency(BFloat),
}

/// Inductance, capacitance and frequency in base units (H, F, Hz), and the
/// derived one, if any, in its display unit.
pub struct FullValues {
    pub l: BFloat,
    pub c: BFloat,
    pub f: BFloat,
    pub inferred: Option<Inferred>,
}

/// The results of a calculation, each in the unit the caller asked for.
pub struct CalcOutput {
    pub impedance: BFloat,
    pub inductive_reactance: BFloat,
    pub capacitive_reactance: BFloat,
    pub resonant_frequency: BFloat,
    pub inferred: Option<Inferred>,
}

/// How many of the three inputs are missing (NaN).
pub open spec fn nan_count(l: FloatModel, c: FloatModel, f: FloatModel) -> int {
    (if l is NaN { 1int } else { 0int }) + (if c is NaN { 1int } else { 0int }) + (if f is NaN {
        1int
    } else {
        0int
    })
}

/// Every input unit is listed in its quantity's registry.
pub open spec fn input_units_known(l_type: Seq<char>, c_type: Seq<char>, f_type: Seq<char>) -> bool {
    has_label(UnitType::Henry, l_type) && has_label(UnitType::Farad, c_type) && has_label(
        UnitType::Hertz,
        f_type,
    )
}

/// Inductance, capacitance and frequency in base units: the given ones
/// converted, and a missing one derived from the others, resolved in the
/// order inductance, capacitance, frequency.
pub open spec fn resolved(
    l: FloatModel,
    c: FloatModel,
    f: FloatModel,
    l_type: Seq<char>,
    c_type: Seq<char>,
    f_type: Seq<char>,
) -> (FloatModel, FloatModel, FloatModel) {
    let lb = convert_model(l, UnitType::Henry, l_type, base_label(UnitType::Henry));
    let cb = convert_model(c, UnitType::Farad, c_type, base_label(UnitType::Farad));
    let fb = convert_model(f, UnitType::Hertz, f_type, base_label(UnitType::Hertz));
    let l_res = if l is NaN {
        l_model(cb, fb)
    } else {
        lb
    };
    let c_res = if c is NaN {
        c_model(l_res, fb)
    } else {
        cb
    };
    let f_res = if f is NaN {
        f0_model(l_res, c_res)
    } else {
        fb
    };
    (l_res, c_res, f_res)
}

/// What the caller is shown of the derived quantity: its value in the
/// caller's unit for it.
pub open spec fn inferred_matches(
    inferred: Option<Inferred>,
    l: FloatModel,
    c: FloatModel,
    f: FloatModel,
    l_type: Seq<char>,
    c_type: Seq<char>,
    f_type: Seq<char>,
) -> bool {
    let v = resolved(l, c, f, l_type, c_type, f_type);
    if l is NaN {
        (inferred matches Some(Inferred::Inductance(x)) && x@ == convert_model(
            v.0,
            UnitType::Henry,
            base_label(UnitType::Henry),
            l_type,
        ))
    } else if c is NaN {
        (inferred matches Some(Inferred::Capacitance(x)) && x@ == convert_model(
            v.1,
            UnitType::Farad,
            base_label(UnitType::Farad),
            c_type,
        ))
    } else if f is NaN {
        (inferred matches Some(Inferred::Frequency(x)) && x@ == convert_model(
            v.2,
            UnitType::Hertz,
            base_label(UnitType::Hertz),
            f_type,
        ))
    } else {
        inferred is None
    }
}

fn count_nans(l: &BFloat, c: &BFloat, f: &BFloat) -> (r: u8)
    ensures
        r as int == nan_count(l@, c@, f@),
{
    let mut n: u8 = 0;
    if l.is_nan() {
        n = n + 1;
    }
    if c.is_nan() {
        n = n + 1;
    }
    if f.is_nan() {
        n = n + 1;
    }
    n
}

fn base_if_present(x: BFloat, kind: UnitType, label: &str) -> (r: Option<BFloat>)
    requires
        has_label(kind, label@),
        kind != UnitType::NotSelected,
    ensures
        x@ is NaN ==> r is None,
        !(x@ is NaN) ==> (r matches Some(v) && v@ == convert_model(x@, kind, label@, base_label(kind))),
{
    if x.is_nan() {
        None
    } else {
        convert_to_base(x, kind, label)
    }
}

/// Reads the three inputs (text that does not parse counts as missing),
/// and, when at most one is missing and every unit is known, brings them to
/// base units and derives the missing one.
pub fn get_full_value_list(
    l_str: &str,
    c_str: &str,
    f_str: &str,
    l_type: &str,
    c_type: &str,
    f_type: &str,
    cache: &mut ConstCache,
) -> (r: Result<FullValues, CalcError>)
    requires
        old(cache).wf(),
    ensures
        final(cache).wf(),
        r == Err::<FullValues, CalcError>(CalcError::Underdetermined) <==> nan_count(
            read_number(l_str@),
            read_number(c_str@),
            read_number(f_str@),
        ) > 1,
        r == Err::<FullValues, CalcError>(CalcError::UnknownUnit) <==> nan_count(
            read_number(l_str@),
            read_number(c_str@),
            read_number(f_str@),
        ) <= 1 && !input_units_known(l_type@, c_type@, f_type@),
        r matches Ok(v) ==> (v.l@, v.c@, v.f@) == resolved(
            read_number(l_str@),
            read_number(c_str@),
            read_number(f_str@),
            l_type@,
            c_type@,
            f_type@,
        ),
        r matches Ok(v) ==> inferred_matches(
            v.inferred,
            read_number(l_str@),
            read_number(c_str@),
            read_number(f_str@),
            l_type@,
            c_type@,
            f_type@,
        ),
{
    let l_maybe = cache.parse(l_str);
    let c_maybe = cache.parse(c_str);
    let f_maybe = cache.parse(f_str);

    if count_nans(&l_maybe, &c_maybe, &f_maybe) > 1 {
        return Err(CalcError::Underdetermined);
    }
    if label_exponent(UnitType::Henry, l_type).is_none() || label_exponent(
        UnitType::Farad,
        c_type,
    ).is_none() || label_exponent(UnitType::Hertz, f_type).is_none() {
        return Err(CalcError::UnknownUnit);
    }
    let l_base = base_if_present(l_maybe, UnitType::Henry, l_type);
    let c_base = base_if_present(c_maybe, UnitType::Farad, c_type);
    let f_base = base_if_present(f_maybe, UnitType::Hertz, f_type);

    match (l_base, c_base, f_base) {
        (None, Some(c), Some(f)) => {
            let l = cf0_to_l(c.clone(), f.clone(), cache);
            match convert_from_base(l.clone(), UnitType::Henry, l_type) {
                Some(shown) => Ok(FullValues { l, c, f, inferred: Some(Inferred::Inductance(shown)) }),
                None => Err(CalcError::UnknownUnit),
            }
        },
        (Some(l), None, Some(f)) => {
            let c = lf0_to_c(l.clone(), f.clone(), cache);
            match convert_from_base(c.clone(), UnitType::Farad, c_type) {
                Some(shown) => Ok(FullValues { l, c, f, inferred: Some(Inferred::Capacitance(shown)) }),
                None => Err(CalcError::UnknownUnit),
            }
        },
        (Some(l), Some(c), None) => {
            let f = lc_to_f0(l.clone(), c.clone(), cache);
            match convert_from_base(f.clone(), UnitType::Hertz, f_type) {
                Some(shown) => Ok(FullValues { l, c, f, inferred: Some(Inferred::Frequency(shown)) }),
                None => Err(CalcError::UnknownUnit),
            }
        },
        (Some(l), Some(c), Some(f)) => Ok(FullValues { l, c, f, inferred: None }),
        _ => Err(CalcError::Underdetermined),
    }
}

/// The impedance triple of the chosen combination.
pub open spec fn impedance_model(mode: ImpedanceMode, l: FloatModel, c: FloatModel, omega: FloatModel) -> (
    FloatModel,
    FloatModel,
    FloatModel,
) {
    match mode {
        ImpedanceMode::Series => series_model(l, c, omega),
        ImpedanceMode::Parallel => parallel_model(l, c, omega),
    }
}

/// Every output unit is listed: impedance and both reactances in ohms, the
/// resonant frequency in hertz.
pub open spec fn output_units_known(
    imp_type: Seq<char>,
    xl_type: Seq<char>,
    xc_type: Seq<char>,
    rf_type: Seq<char>,
) -> bool {
    has_label(UnitType::Ohm, imp_type) && has_label(UnitType::Ohm, xl_type) && has_label(
        UnitType::Ohm,
        xc_type,
    ) && has_label(UnitType::Hertz, rf_type)
}

/// The four results of a calculation, in the units asked for: impedance,
/// inductive reactance and capacitive reactance magnitude, then resonant
/// frequency.
pub open spec fn outputs(
    l: FloatModel,
    c: FloatModel,
    f: FloatModel,
    l_type: Seq<char>,
    c_type: Seq<char>,
    f_type: Seq<char>,
    mode: ImpedanceMode,
    imp_type: Seq<char>,
    xl_type: Seq<char>,
    xc_type: Seq<char>,
    rf_type: Seq<char>,
) -> (FloatModel, FloatModel, FloatModel, FloatModel) {
    let v = resolved(l, c, f, l_type, c_type, f_type);
    let z = impedance_model(mode, v.0, v.1, omega_model(v.2));
    let ohm = base_label(UnitType::Ohm);
    (
        convert_model(z.0, UnitType::Ohm, ohm, imp_type),
        convert_model(z.1, UnitType::Ohm, ohm, xl_type),
        convert_model(z.2, UnitType::Ohm, ohm, xc_type),
        convert_model(f0_model(v.0, v.1), UnitType::Hertz, base_label(UnitType::Hertz), rf_type),
    )
}

/// `o` holds the results of the calculation on these inputs, and the
/// derived quantity.
pub open spec fn outputs_match(
    o: CalcOutput,
    l: FloatModel,
    c: FloatModel,
    f: FloatModel,
    l_type: Seq<char>,
    c_type: Seq<char>,
    f_type: Seq<char>,
    mode: ImpedanceMode,
    imp_type: Seq<char>,
    xl_type: Seq<char>,
    xc_type: Seq<char>,
    rf_type: Seq<char>,
) -> bool {
    let w = outputs(l, c, f, l_type, c_type, f_type, mode, imp_type, xl_type, xc_type, rf_type);
    &&& o.impedance@ == w.0
    &&& o.inductive_reactance@ == w.1
    &&& o.capacitive_reactance@ == w.2
    &&& o.resonant_frequency@ == w.3
    &&& inferred_matches(o.inferred, l, c, f, l_type, c_type, f_type)
}

/// With two inputs missing nothing can be derived: the calculation is
/// refused, whatever the third input.
pub proof fn lemma_dual_absence_underdetermined(l: FloatModel, c: FloatModel, f: FloatModel)
    requires
        l is NaN,
        c is NaN,
    ensures
        nan_count(l, c, f) > 1,
{
}

/// Inductance and capacitance left empty: nothing is derived, whatever the
/// frequency's text.
pub proof fn lemma_empty_inductance_and_capacitance(f: Seq<char>)
    ensures
        nan_count(read_number(Seq::empty()), read_number(Seq::empty()), read_number(f)) > 1,
{
}

fn from_base_or_err(x: BFloat, kind: UnitType, target: &str) -> (r: Result<BFloat, CalcError>)
    requires
        kind != UnitType::NotSelected,
    ensures
        r is Ok <==> has_label(kind, target@),
        r is Err ==> r == Err::<BFloat, CalcError>(CalcError::UnknownUnit),
        r matches Ok(v) ==> v@ == convert_model(x@, kind, base_label(kind), target@),
{
    match convert_from_base(x, kind, target) {
        Some(v) => Ok(v),
        None => Err(CalcError::UnknownUnit),
    }
}

/// A whole calculation: resolves inductance, capacitance and frequency
/// (see `get_full_value_list`), then the angular frequency, the impedance of
/// the chosen combination with both reactances, and the resonant frequency,
/// each converted to the unit asked for. Nothing is computed when fewer
/// than two inputs are given.
pub fn calculate(
    l_str: &str,
    c_str: &str,
    f_str: &str,
    l_type: &str,
    c_type: &str,
    f_type: &str,
    mode: ImpedanceMode,
    imp_type: &str,
    xl_type: &str,
    xc_type: &str,
    rf_type: &str,
    cache: &mut ConstCache,
) -> (r: Result<CalcOutput, CalcError>)
    requires
        old(cache).wf(),
    ensures
        final(cache).wf(),
        r == Err::<CalcOutput, CalcError>(CalcError::Underdetermined) <==> nan_count(
            read_number(l_str@),
            read_number(c_str@),
            read_number(f_str@),
        ) > 1,
        r == Err::<CalcOutput, CalcError>(CalcError::UnknownUnit) <==> nan_count(
            read_number(l_str@),
            read_number(c_str@),
            read_number(f_str@),
        ) <= 1 && !(input_units_known(l_type@, c_type@, f_type@) && output_units_known(
            imp_type@,
            xl_type@,
            xc_type@,
            rf_type@,
        )),
        r matches Ok(o) ==> outputs_match(
            o,
            read_number(l_str@),
            read_number(c_str@),
            read_number(f_str@),
            l_type@,
            c_type@,
            f_type@,
            mode,
            imp_type@,
            xl_type@,
            xc_type@,
            rf_type@,
        ),
{
    let values = match get_full_value_list(l_str, c_str, f_str, l_type, c_type, f_type, cache) {
        Ok(v) => v,
        Err(e) => return Err(e),
    };
    let FullValues { l, c, f, inferred } = values;

    let omega = get_omega(f, cache);
    let (impedance, inductive_reactance, capacitive_reactance) = match mode {
        ImpedanceMode::Series => calculate_impedance_series(l.clone(), c.clone(), omega),
        ImpedanceMode::Parallel => calculate_impedance_parallel(l.clone(), c.clone(), omega),
    };
    let resonant_frequency = calculate_resonant_frequency(l, c, cache);

    let impedance = from_base_or_err(impedance, UnitType::Ohm, imp_type)?;
    let inductive_reactance = from_base_or_err(inductive_reactance, UnitType::Ohm, xl_type)?;
    let capacitive_reactance = from_base_or_err(capacitive_reactance, UnitType::Ohm, xc_type)?;
    let resonant_frequency = from_base_or_err(resonant_frequency, UnitType::Hertz, rf_type)?;
    Ok(CalcOutput {
        impedance,
        inductive_reactance,
        capacitive_reactance,
        resonant_frequency,
        inferred,
    })
}

/// One request of the calculator's interface: the three inputs with their
/// units (empty text for a missing input), the combination (`0` series, `1`
/// parallel, anything else when none is selected), and the units of the
/// four results.
pub struct CalcRequest {
    pub l_str: String,
    pub c_str: String,
    pub f_str: String,
    pub l_type: String,
    pub c_type: String,
    pub f_type: String,
    pub type_index: i32,
    pub imp_type: String,
    pub xl_type: String,
    pub xc_type: String,
    pub rf_type: String,
}

/// What the interface shows after a request: the four results as
/// decimal text, and the derived quantity's kind and text, if one was
/// derived. A text is an error where astro-float could not expand the value.
pub struct UiUpdate {
    pub impedance: Result<String, FormatError>,
    pub inductive_reactance: Result<String, FormatError>,
    pub capacitive_reactance: Result<String, FormatError>,
    pub resonant_frequency: Result<String, FormatError>,
    pub inferred: Option<(UnitType, Result<String, FormatError>)>,
}

/// `r` holds the decimal text of `x`, and is an error exactly when `x` has
/// none (see `renders`).
pub open spec fn text_matches(r: Result<String, FormatError>, x: FloatModel) -> bool {
    &&& (r is Ok <==> renders(x))
    &&& (r matches Ok(s) ==> s@ == exact_text(x))
}

/// The combination a selector index stands for.
pub open spec fn mode_of(type_index: i32) -> Option<ImpedanceMode> {
    if type_index == 0 {
        Some(ImpedanceMode::Series)
    } else if type_index == 1 {
        Some(ImpedanceMode::Parallel)
    } else {
        None
    }
}

/// The derived quantity in the caller's unit for it (NaN when none is
/// derived).
pub open spec fn inferred_value(
    l: FloatModel,
    c: FloatModel,
    f: FloatModel,
    l_type: Seq<char>,
    c_type: Seq<char>,
    f_type: Seq<char>,
) -> FloatModel {
    let v = resolved(l, c, f, l_type, c_type, f_type);
    if l is NaN {
        convert_model(v.0, UnitType::Henry, base_label(UnitType::Henry), l_type)
    } else if c is NaN {
        convert_model(v.1, UnitType::Farad, base_label(UnitType::Farad), c_type)
    } else if f is NaN {
        convert_model(v.2, UnitType::Hertz, base_label(UnitType::Hertz), f_type)
    } else {
        FloatModel::NaN
    }
}

/// The kind and decimal text of the derived quantity, if any.
pub open spec fn inferred_text(
    l: FloatModel,
    c: FloatModel,
    f: FloatModel,
    l_type: Seq<char>,
    c_type: Seq<char>,
    f_type: Seq<char>,
) -> Option<(UnitType, Seq<char>)> {
    let v = resolved(l, c, f, l_type, c_type, f_type);
    if l is NaN {
        Some(
            (
                UnitType::Henry,
                exact_text(convert_model(v.0, UnitType::Henry, base_label(UnitType::Henry), l_type)),
            ),
        )
    } else if c is NaN {
        Some(
            (
                UnitType::Farad,
                exact_text(convert_model(v.1, UnitType::Farad, base_label(UnitType::Farad), c_type)),
            ),
        )
    } else if f is NaN {
        Some(
            (
                UnitType::Hertz,
                exact_text(convert_model(v.2, UnitType::Hertz, base_label(UnitType::Hertz), f_type)),
            ),
        )
    } else {
        None
    }
}

/// `u` shows the results of the request `q`, computed with combination `mode`.
pub open spec fn update_matches(u: UiUpdate, q: CalcRequest, mode: ImpedanceMode) -> bool {
    let (l, c, f) = (read_number(q.l_str@), read_number(q.c_str@), read_number(q.f_str@));
    let w = outputs(
        l,
        c,
        f,
        q.l_type@,
        q.c_type@,
        q.f_type@,
        mode,
        q.imp_type@,
        q.xl_type@,
        q.xc_type@,
        q.rf_type@,
    );
    let t = inferred_text(l, c, f, q.l_type@, q.c_type@, q.f_type@);
    &&& text_matches(u.impedance, w.0)
    &&& text_matches(u.inductive_reactance, w.1)
    &&& text_matches(u.capacitive_reactance, w.2)
    &&& text_matches(u.resonant_frequency, w.3)
    &&& (u.inferred is None) == (t is None)
    &&& (u.inferred matches Some(p) ==> t matches Some(q) && p.0 == q.0 && (p.1 matches Ok(s)
        ==> s@ == q.1))
}

/// Handles one request of the calculator's interface: nothing to show when
/// no combination is selected, when fewer than two inputs are given, or when
/// a unit is unknown; otherwise the results of `calculate` as decimal
/// text, and the derived quantity's text.
pub fn run_app(q: &CalcRequest, cache: &mut ConstCache) -> (r: Option<UiUpdate>)
    requires
        old(cache).wf(),
    ensures
        final(cache).wf(),
        r is Some <==> mode_of(q.type_index) is Some && nan_count(
            read_number(q.l_str@),
            read_number(q.c_str@),
            read_number(q.f_str@),
        ) <= 1 && input_units_known(q.l_type@, q.c_type@, q.f_type@) && output_units_known(
            q.imp_type@,
            q.xl_type@,
            q.xc_type@,
            q.rf_type@,
        ),
        r matches Some(u) ==> (mode_of(q.type_index) matches Some(m) && update_matches(u, *q, m)),
{
    let mode = if q.type_index == 0 {
        ImpedanceMode::Series
    } else if q.type_index == 1 {
        ImpedanceMode::Parallel
    } else {
        return None;
    };
    let out = match calculate(
        q.l_str.as_str(),
        q.c_str.as_str(),
        q.f_str.as_str(),
        q.l_type.as_str(),
        q.c_type.as_str(),
        q.f_type.as_str(),
        mode,
        q.imp_type.as_str(),
        q.xl_type.as_str(),
        q.xc_type.as_str(),
        q.rf_type.as_str(),
        cache,
    ) {
        Ok(o) => o,
        Err(CalcError::Underdetermined) => return None,
        Err(CalcError::UnknownUnit) => return None,
    };
    let impedance = out.impedance.as_decimal_string(cache);
    let inductive_reactance = out.inductive_reactance.as_decimal_string(cache);
    let capacitive_reactance = out.capacitive_reactance.as_decimal_string(cache);
    let resonant_frequency = out.resonant_frequency.as_decimal_string(cache);
    let inferred = match &out.inferred {
        None => None,
        Some(Inferred::Inductance(x)) => Some((UnitType::Henry, x.as_decimal_string(cache))),
        Some(Inferred::Capacitance(x)) => Some((UnitType::Farad, x.as_decimal_string(cache))),
        Some(Inferred::Frequency(x)) => Some((UnitType::Hertz, x.as_decimal_string(cache))),
    };
    Some(UiUpdate {
        impedance,
        inductive_reactance,
        capacitive_reactance,
        resonant_frequency,
        inferred,
    })
}

} // verus!
