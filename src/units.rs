use vstd::prelude::*;

use crate::types::UnitType;

verus! {

/// The ordered registry of a quantity kind: each unit label with its
/// power-of-ten exponent relative to the kind's SI base unit.
pub open spec fn registry(kind: UnitType) -> Seq<(Seq<char>, int)> {
    match kind {
        UnitType::Hertz => seq![
            (seq!['H', 'z'], 0),
            (seq!['k', 'H', 'z'], 3),
            (seq!['M', 'H', 'z'], 6),
            (seq!['G', 'H', 'z'], 9),
        ],
        UnitType::Farad => seq![
            (seq!['F'], 0),
            (seq!['m', 'F'], -3),
            (seq!['\u{3bc}', 'F'], -6),
            (seq!['n', 'F'], -9),
            (seq!['p', 'F'], -12),
        ],
        UnitType::Henry => seq![
            (seq!['H'], 0),
            (seq!['m', 'H'], -3),
            (seq!['\u{3bc}', 'H'], -6),
            (seq!['n', 'H'], -9),
            (seq!['p', 'H'], -12),
        ],
        UnitType::Ohm => seq![
            (seq!['\u{3a9}'], 0),
            (seq!['k', '\u{3a9}'], 3),
            (seq!['M', '\u{3a9}'], 6),
        ],
        UnitType::NotSelected => seq![],
    }
}

/// The exponent of the first entry of `table` labelled `label`.
pub open spec fn lookup(table: Seq<(Seq<char>, int)>, label: Seq<char>) -> Option<int>
    decreases table.len(),
{
    if table.len() == 0 {
        None
    } else if table[0].0 == label {
        Some(table[0].1)
    } else {
        lookup(table.drop_first(), label)
    }
}

/// The exponent of `label` in the registry of `kind`, if it is listed there.
pub open spec fn exponent_of(kind: UnitType, label: Seq<char>) -> Option<int> {
    lookup(registry(kind), label)
}

/// Whether `label` is listed in the registry of `kind`.
pub open spec fn has_label(kind: UnitType, label: Seq<char>) -> bool {
    exponent_of(kind, label) is Some
}

/// The base unit's label of each kind (exponent zero).
pub open spec fn base_label(kind: UnitType) -> Seq<char> {
    match kind {
        UnitType::Hertz => seq!['H', 'z'],
        UnitType::Farad => seq!['F'],
        UnitType::Henry => seq!['H'],
        UnitType::Ohm => seq!['\u{3a9}'],
        UnitType::NotSelected => seq![],
    }
}

/// The least exponent in a kind's registry.
pub open spec fn min_exponent(kind: UnitType) -> int {
    match kind {
        UnitType::Farad | UnitType::Henry => -12,
        _ => 0,
    }
}

/// The greatest exponent in a kind's registry.
pub open spec fn max_exponent(kind: UnitType) -> int {
    match kind {
        UnitType::Hertz => 9,
        UnitType::Ohm => 6,
        _ => 0,
    }
}

/// The first kind, in the order Hertz, Farad, Henry, Ohm, whose registry
/// lists `label`;
/// `NotSelected` if none does.
pub open spec fn classify_spec(label: Seq<char>) -> UnitType {
    if has_label(UnitType::Hertz, label) {
        UnitType::Hertz
    } else if has_label(UnitType::Farad, label) {
        UnitType::Farad
    } else if has_label(UnitType::Henry, label) {
        UnitType::Henry
    } else if has_label(UnitType::Ohm, label) {
        UnitType::Ohm
    } else {
        UnitType::NotSelected
    }
}

/// The registry of `kind`, in order, with labels as strings.
pub fn unit_table(kind: UnitType) -> (r: Vec<(String, i32)>)
    ensures
        r@.len() == registry(kind).len(),
        forall|i: int|
            0 <= i < r@.len() ==> #[trigger] r@[i].0@ == registry(kind)[i].0 && r@[i].1
                == registry(kind)[i].1,
        forall|i: int|
            0 <= i < r@.len() ==> min_exponent(kind) <= #[trigger] r@[i].1 <= max_exponent(kind),
{
    proof {
        reveal_strlit("Hz");
        reveal_strlit("kHz");
        reveal_strlit("MHz");
        reveal_strlit("GHz");
        reveal_strlit("F");
        reveal_strlit("mF");
        reveal_strlit("\u{3bc}F");
        reveal_strlit("nF");
        reveal_strlit("pF");
        reveal_strlit("H");
        reveal_strlit("mH");
        reveal_strlit("\u{3bc}H");
        reveal_strlit("nH");
        reveal_strlit("pH");
        reveal_strlit("\u{3a9}");
        reveal_strlit("k\u{3a9}");
        reveal_strlit("M\u{3a9}");
    }
    let r = match kind {
        UnitType::Hertz => vec![
            (String::from_str("Hz"), 0i32),
            (String::from_str("kHz"), 3i32),
            (String::from_str("MHz"), 6i32),
            (String::from_str("GHz"), 9i32),
        ],
        UnitType::Farad => vec![
            (String::from_str("F"), 0i32),
            (String::from_str("mF"), -3i32),
            (String::from_str("\u{3bc}F"), -6i32),
            (String::from_str("nF"), -9i32),
            (String::from_str("pF"), -12i32),
        ],
        UnitType::Henry => vec![
            (String::from_str("H"), 0i32),
            (String::from_str("mH"), -3i32),
            (String::from_str("\u{3bc}H"), -6i32),
            (String::from_str("nH"), -9i32),
            (String::from_str("pH"), -12i32),
        ],
        UnitType::Ohm => vec![
            (String::from_str("\u{3a9}"), 0i32),
            (String::from_str("k\u{3a9}"), 3i32),
            (String::from_str("M\u{3a9}"), 6i32),
        ],
        UnitType::NotSelected => Vec::new(),
    };
    r
}

/// The exponent of `label` in the registry of `kind`; `None` if the registry
/// does not list it.
pub fn label_exponent(kind: UnitType, label: &str) -> (r: Option<i32>)
    ensures
        r matches Some(e) ==> exponent_of(kind, label@) == Some(e as int),
        r is None ==> exponent_of(kind, label@) is None,
        r matches Some(e) ==> min_exponent(kind) <= e <= max_exponent(kind),
{
    let table = unit_table(kind);
    let wanted = label.to_owned();
    let ghost full = registry(kind);
    assert(full.subrange(0, full.len() as int) =~= full);
    let mut i: usize = 0;
    while i < table.len()
        invariant
            i <= table@.len(),
            table@.len() == full.len(),
            wanted@ == label@,
            forall|j: int|
                0 <= j < table@.len() ==> #[trigger] table@[j].0@ == full[j].0 && table@[j].1
                    == full[j].1,
            forall|j: int|
                0 <= j < table@.len() ==> min_exponent(kind) <= #[trigger] table@[j].1
                    <= max_exponent(kind),
            full == registry(kind),
            lookup(full, label@) == lookup(full.subrange(i as int, full.len() as int), label@),
        decreases table@.len() - i,
    {
        let ghost rest = full.subrange(i as int, full.len() as int);
        assert(rest[0] == full[i as int]);
        if table[i].0 == wanted {
            return Some(table[i].1);
        }
        assert(rest.drop_first() =~= full.subrange(i + 1, full.len() as int));
        i = i + 1;
    }
    None
}

/// The labels of the registry of `kind`, in registry order.
pub fn unit_labels(kind: UnitType) -> (r: Vec<String>)
    ensures
        r@.len() == registry(kind).len(),
        forall|i: int| 0 <= i < r@.len() ==> #[trigger] r@[i]@ == registry(kind)[i].0,
{
    let table = unit_table(kind);
    let mut r: Vec<String> = Vec::new();
    let mut i: usize = 0;
    while i < table.len()
        invariant
            i <= table@.len(),
            table@.len() == registry(kind).len(),
            r@.len() == i,
            forall|j: int|
                0 <= j < table@.len() ==> #[trigger] table@[j].0@ == registry(kind)[j].0,
            forall|j: int| 0 <= j < i ==> #[trigger] r@[j]@ == registry(kind)[j].0,
        decreases table@.len() - i,
    {
        r.push(table[i].0.clone());
        i = i + 1;
    }
    r
}

/// The first kind, in the order Hertz, Farad, Henry, Ohm, whose registry
/// lists `label`; `NotSelected` if none does.
pub fn classify(label: &str) -> (r: UnitType)
    ensures
        r == classify_spec(label@),
{
    if label_exponent(UnitType::Hertz, label).is_some() {
        UnitType::Hertz
    } else if label_exponent(UnitType::Farad, label).is_some() {
        UnitType::Farad
    } else if label_exponent(UnitType::Henry, label).is_some() {
        UnitType::Henry
    } else if label_exponent(UnitType::Ohm, label).is_some() {
        UnitType::Ohm
    } else {
        UnitType::NotSelected
    }
}

} // verus!
