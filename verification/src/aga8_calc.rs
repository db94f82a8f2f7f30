//! The component table that addresses the AGA8 composition, and the errors of
//! the AGA8 calculations.
use vstd::prelude::*;
use vstd::utf8::is_ascii_chars;
use crate::text::{
    ascii_lower_char, ascii_lowercase, ascii_upper_char, ascii_uppercase, spec_to_uppercase, str_is,
    texts, to_uppercase,
};

verus! {

/// Error type for aga8 calculations
#[derive(Debug)]
pub enum Aga8Error {
    InvalidComposition(String),
    CalculationFailed(String),
    PhaseBoundaryError(String),
    UnsupportedComponent(String),
}

impl Aga8Error {
    /// The text that describes the error.
    pub open spec fn message_spec(&self) -> Seq<char> {
        match self {
            Aga8Error::InvalidComposition(m) => "Invalid composition: "@ + m@,
            Aga8Error::CalculationFailed(m) => "Calculation failed: "@ + m@,
            Aga8Error::PhaseBoundaryError(m) => "Phase boundary calculation failed: "@ + m@,
            Aga8Error::UnsupportedComponent(m) => "Component not supported: "@ + m@,
        }
    }

    /// Describes the error: a fixed prefix for its kind, then its detail.
    pub fn message(&self) -> (r: String)
        ensures
            r@ == self.message_spec(),
    {
        let (prefix, detail) = match self {
            Aga8Error::InvalidComposition(m) => ("Invalid composition: ", m),
            Aga8Error::CalculationFailed(m) => ("Calculation failed: ", m),
            Aga8Error::PhaseBoundaryError(m) => ("Phase boundary calculation failed: ", m),
            Aga8Error::UnsupportedComponent(m) => ("Component not supported: ", m),
        };
        let mut r = String::from_str(prefix);
        r.append(detail.as_str());
        r
    }
}

/// Number of component slots in an AGA8 composition.
pub const AGA8_SLOTS: usize = 21;

/// The AGA8 composition slot that an upper-case component name addresses:
/// the chemical formula or the name of each of the 21 components.
pub open spec fn aga8_index_of_upper(u: Seq<char>) -> Option<usize> {
    if u == "CH4"@ || u == "METHANE"@ {
        Some(0usize)
    } else if u == "N2"@ || u == "NITROGEN"@ {
        Some(1usize)
    } else if u == "CO2"@ || u == "CARBON_DIOXIDE"@ {
        Some(2usize)
    } else if u == "C2H6"@ || u == "ETHANE"@ {
        Some(3usize)
    } else if u == "C3H8"@ || u == "PROPANE"@ {
        Some(4usize)
    } else if u == "IC4H10"@ || u == "ISOBUTANE"@ {
        Some(5usize)
    } else if u == "NC4H10"@ || u == "N_BUTANE"@ || u == "BUTANE"@ {
        Some(6usize)
    } else if u == "IC5H12"@ || u == "ISOPENTANE"@ {
        Some(7usize)
    } else if u == "NC5H12"@ || u == "N_PENTANE"@ || u == "PENTANE"@ {
        Some(8usize)
    } else if u == "C6H14"@ || u == "HEXANE"@ {
        Some(9usize)
    } else if u == "C7H16"@ || u == "HEPTANE"@ {
        Some(10usize)
    } else if u == "C8H18"@ || u == "OCTANE"@ {
        Some(11usize)
    } else if u == "C9H20"@ || u == "NONANE"@ {
        Some(12usize)
    } else if u == "C10H22"@ || u == "DECANE"@ {
        Some(13usize)
    } else if u == "H2"@ || u == "HYDROGEN"@ {
        Some(14usize)
    } else if u == "O2"@ || u == "OXYGEN"@ {
        Some(15usize)
    } else if u == "CO"@ || u == "CARBON_MONOXIDE"@ {
        Some(16usize)
    } else if u == "H2O"@ || u == "WATER"@ {
        Some(17usize)
    } else if u == "H2S"@ || u == "HYDROGEN_SULFIDE"@ {
        Some(18usize)
    } else if u == "HE"@ || u == "HELIUM"@ {
        Some(19usize)
    } else if u == "AR"@ || u == "ARGON"@ {
        Some(20usize)
    } else {
        None
    }
}

/// The AGA8 slot that a component name addresses, case-insensitively.
pub open spec fn aga8_index_of(name: Seq<char>) -> Option<usize> {
    aga8_index_of_upper(spec_to_uppercase(name))
}

/// The detail of the error for a component name that addresses no slot.
pub open spec fn unsupported_detail(name: Seq<char>) -> Seq<char> {
    "Component '"@ + name + "' is not supported by aga8"@
}

/// Looks up the slot of an upper-case component name.
pub fn aga8_index_from_uppercase(upper: &str) -> (r: Option<usize>)
    ensures
        r == aga8_index_of_upper(upper@),
{
    if str_is(upper, "CH4") || str_is(upper, "METHANE") {
        Some(0)
    } else if str_is(upper, "N2") || str_is(upper, "NITROGEN") {
        Some(1)
    } else if str_is(upper, "CO2") || str_is(upper, "CARBON_DIOXIDE") {
        Some(2)
    } else if str_is(upper, "C2H6") || str_is(upper, "ETHANE") {
        Some(3)
    } else if str_is(upper, "C3H8") || str_is(upper, "PROPANE") {
        Some(4)
    } else if str_is(upper, "IC4H10") || str_is(upper, "ISOBUTANE") {
        Some(5)
    } else if str_is(upper, "NC4H10") || str_is(upper, "N_BUTANE") || str_is(upper, "BUTANE") {
        Some(6)
    } else if str_is(upper, "IC5H12") || str_is(upper, "ISOPENTANE") {
        Some(7)
    } else if str_is(upper, "NC5H12") || str_is(upper, "N_PENTANE") || str_is(upper, "PENTANE") {
        Some(8)
    } else if str_is(upper, "C6H14") || str_is(upper, "HEXANE") {
        Some(9)
    } else if str_is(upper, "C7H16") || str_is(upper, "HEPTANE") {
        Some(10)
    } else if str_is(upper, "C8H18") || str_is(upper, "OCTANE") {
        Some(11)
    } else if str_is(upper, "C9H20") || str_is(upper, "NONANE") {
        Some(12)
    } else if str_is(upper, "C10H22") || str_is(upper, "DECANE") {
        Some(13)
    } else if str_is(upper, "H2") || str_is(upper, "HYDROGEN") {
        Some(14)
    } else if str_is(upper, "O2") || str_is(upper, "OXYGEN") {
        Some(15)
    } else if str_is(upper, "CO") || str_is(upper, "CARBON_MONOXIDE") {
        Some(16)
    } else if str_is(upper, "H2O") || str_is(upper, "WATER") {
        Some(17)
    } else if str_is(upper, "H2S") || str_is(upper, "HYDROGEN_SULFIDE") {
        Some(18)
    } else if str_is(upper, "HE") || str_is(upper, "HELIUM") {
        Some(19)
    } else if str_is(upper, "AR") || str_is(upper, "ARGON") {
        Some(20)
    } else {
        None
    }
}

/// Converts a component name to the index of its slot in the AGA8
/// composition, ignoring case; a name outside the table is an error.
pub fn component_name_to_aga8_index(name: &str) -> (r: Result<usize, Aga8Error>)
    ensures
        match aga8_index_of(name@) {
            Some(i) => r == Ok::<usize, Aga8Error>(i),
            None => r matches Err(Aga8Error::UnsupportedComponent(m)) && m@ == unsupported_detail(name@),
        },
        is_ascii_chars(name@) ==> match aga8_index_of_upper(ascii_uppercase(name@)) {
            Some(i) => r == Ok::<usize, Aga8Error>(i),
            None => r is Err,
        },
{
    let upper = to_uppercase(name);
    match aga8_index_from_uppercase(upper.as_str()) {
        Some(i) => Ok(i),
        None => {
            let mut m = String::from_str("Component '");
            m.append(name);
            m.append("' is not supported by aga8");
            Err(Aga8Error::UnsupportedComponent(m))
        },
    }
}


/// Whether each of the first `n` names addresses a slot.
pub open spec fn all_supported(names: Seq<Seq<char>>, n: int) -> bool {
    forall|j: int| 0 <= j < n ==> (#[trigger] aga8_index_of(names[j])) is Some
}

/// For each AGA8 slot, the position of the name whose mole fraction fills it
/// after the first `n` names have been read in order: a later name for the
/// same slot replaces an earlier one, and an unnamed slot keeps `None`.
pub open spec fn slot_sources(names: Seq<Seq<char>>, n: nat) -> Seq<Option<usize>>
    decreases n,
{
    if n == 0 {
        Seq::new(AGA8_SLOTS as nat, |s: int| None::<usize>)
    } else {
        let prev = slot_sources(names, (n - 1) as nat);
        match aga8_index_of(names[n - 1]) {
            Some(i) => prev.update(i as int, Some((n - 1) as usize)),
            None => prev,
        }
    }
}

proof fn lemma_slot_sources_len(names: Seq<Seq<char>>, n: nat)
    ensures
        slot_sources(names, n).len() == AGA8_SLOTS,
    decreases n,
{
    if n > 0 {
        lemma_slot_sources_len(names, (n - 1) as nat);
    }
}

/// Maps each component name to the AGA8 slot its mole fraction goes to.
/// The result holds, for each of the 21 slots, the position of the last
/// component that addresses it; the first name outside the table is an error.
pub fn aga8_composition_slots(components: &Vec<String>) -> (r: Result<Vec<Option<usize>>, Aga8Error>)
    ensures
        r is Ok <==> all_supported(texts(components@), components@.len() as int),
        r matches Ok(slots) ==> slots@ == slot_sources(texts(components@), components@.len()),
        r matches Err(e) ==> exists|j: int|
            {
                &&& 0 <= j < components@.len()
                &&& all_supported(texts(components@), j)
                &&& aga8_index_of(#[trigger] texts(components@)[j]) is None
                &&& e matches Aga8Error::UnsupportedComponent(m)
                &&& m@ == unsupported_detail(texts(components@)[j])
            },
{
    let ghost names = texts(components@);
    let mut slots: Vec<Option<usize>> = Vec::new();
    let mut s: usize = 0;
    while s < AGA8_SLOTS
        invariant
            s <= AGA8_SLOTS,
            slots@.len() == s,
            forall|k: int| 0 <= k < s ==> slots@[k] == None::<usize>,
        decreases AGA8_SLOTS - s,
    {
        slots.push(None);
        s = s + 1;
    }
    assert(slots@ =~= slot_sources(names, 0));
    let mut j: usize = 0;
    while j < components.len()
        invariant
            names == texts(components@),
            j <= components@.len(),
            all_supported(names, j as int),
            slots@ == slot_sources(names, j as nat),
        decreases components.len() - j,
    {
        proof {
            lemma_slot_sources_len(names, j as nat);
        }
        match component_name_to_aga8_index(components[j].as_str()) {
            Ok(i) => {
                slots.set(i, Some(j));
                assert(all_supported(names, (j + 1) as int)) by {
                    assert forall|k: int| 0 <= k < j + 1 implies (#[trigger] aga8_index_of(names[k])) is Some by {
                        if k < j {
                        }
                    }
                }
            },
            Err(e) => {
                assert(aga8_index_of(names[j as int]) is None);
                return Err(e);
            },
        }
        j = j + 1;
    }
    Ok(slots)
}

/// The slot sources say, for every slot, which name fills it: the last name
/// addressing that slot, or none when no name addresses it.
pub proof fn lemma_slot_sources_last_wins(names: Seq<Seq<char>>, n: nat, s: int)
    requires
        0 <= s < AGA8_SLOTS,
        n <= names.len(),
        n <= usize::MAX,
    ensures
        slot_sources(names, n).len() == AGA8_SLOTS,
        match slot_sources(names, n)[s] {
            Some(j) => j < n && aga8_index_of(names[j as int]) == Some(s as usize) && forall|k: int|
                j < k < n ==> aga8_index_of(#[trigger] names[k]) != Some(s as usize),
            None => forall|k: int| 0 <= k < n ==> aga8_index_of(#[trigger] names[k]) != Some(s as usize),
        },
    decreases n,
{
    lemma_slot_sources_len(names, n);
    if n > 0 {
        lemma_slot_sources_last_wins(names, (n - 1) as nat, s);
        lemma_slot_sources_len(names, (n - 1) as nat);
        let prev = slot_sources(names, (n - 1) as nat);
        let last = aga8_index_of(names[n - 1]);
        if last == Some(s as usize) {
            assert(slot_sources(names, n)[s] == Some((n - 1) as usize));
        } else {
            assert(slot_sources(names, n)[s] == prev[s]);
            match prev[s] {
                Some(j) => {
                    assert forall|k: int| j < k < n implies aga8_index_of(#[trigger] names[k]) != Some(s as usize) by {
                        if k < n - 1 {
                        }
                    }
                },
                None => {
                    assert forall|k: int| 0 <= k < n implies aga8_index_of(#[trigger] names[k]) != Some(s as usize) by {
                        if k < n - 1 {
                        }
                    }
                },
            }
        }
    }
}

/// The components of an AGA8 composition, slot by slot: the chemical
/// formula first, then the names that also denote the component.
pub open spec fn component_names(slot: usize) -> Seq<Seq<char>> {
    match slot {
        0 => seq!["CH4"@, "METHANE"@],
        1 => seq!["N2"@, "NITROGEN"@],
        2 => seq!["CO2"@, "CARBON_DIOXIDE"@],
        3 => seq!["C2H6"@, "ETHANE"@],
        4 => seq!["C3H8"@, "PROPANE"@],
        5 => seq!["IC4H10"@, "ISOBUTANE"@],
        6 => seq!["NC4H10"@, "N_BUTANE"@, "BUTANE"@],
        7 => seq!["IC5H12"@, "ISOPENTANE"@],
        8 => seq!["NC5H12"@, "N_PENTANE"@, "PENTANE"@],
        9 => seq!["C6H14"@, "HEXANE"@],
        10 => seq!["C7H16"@, "HEPTANE"@],
        11 => seq!["C8H18"@, "OCTANE"@],
        12 => seq!["C9H20"@, "NONANE"@],
        13 => seq!["C10H22"@, "DECANE"@],
        14 => seq!["H2"@, "HYDROGEN"@],
        15 => seq!["O2"@, "OXYGEN"@],
        16 => seq!["CO"@, "CARBON_MONOXIDE"@],
        17 => seq!["H2O"@, "WATER"@],
        18 => seq!["H2S"@, "HYDROGEN_SULFIDE"@],
        19 => seq!["HE"@, "HELIUM"@],
        20 => seq!["AR"@, "ARGON"@],
        _ => Seq::empty(),
    }
}

/// Every formula and name of a component addresses that component's slot.
pub proof fn lemma_component_names_address_their_slot()
    ensures
        forall|s: usize, k: int|
            s < AGA8_SLOTS && 0 <= k < component_names(s).len() ==> aga8_index_of_upper(
                #[trigger] component_names(s)[k],
            ) == Some(s),
{
    reveal_strlit("CH4");
    reveal_strlit("METHANE");
    reveal_strlit("N2");
    reveal_strlit("NITROGEN");
    reveal_strlit("CO2");
    reveal_strlit("CARBON_DIOXIDE");
    reveal_strlit("C2H6");
    reveal_strlit("ETHANE");
    reveal_strlit("C3H8");
    reveal_strlit("PROPANE");
    reveal_strlit("IC4H10");
    reveal_strlit("ISOBUTANE");
    reveal_strlit("NC4H10");
    reveal_strlit("N_BUTANE");
    reveal_strlit("BUTANE");
    reveal_strlit("IC5H12");
    reveal_strlit("ISOPENTANE");
    reveal_strlit("NC5H12");
    reveal_strlit("N_PENTANE");
    reveal_strlit("PENTANE");
    reveal_strlit("C6H14");
    reveal_strlit("HEXANE");
    reveal_strlit("C7H16");
    reveal_strlit("HEPTANE");
    reveal_strlit("C8H18");
    reveal_strlit("OCTANE");
    reveal_strlit("C9H20");
    reveal_strlit("NONANE");
    reveal_strlit("C10H22");
    reveal_strlit("DECANE");
    reveal_strlit("H2");
    reveal_strlit("HYDROGEN");
    reveal_strlit("O2");
    reveal_strlit("OXYGEN");
    reveal_strlit("CO");
    reveal_strlit("CARBON_MONOXIDE");
    reveal_strlit("H2O");
    reveal_strlit("WATER");
    reveal_strlit("H2S");
    reveal_strlit("HYDROGEN_SULFIDE");
    reveal_strlit("HE");
    reveal_strlit("HELIUM");
    reveal_strlit("AR");
    reveal_strlit("ARGON");
    assert("CH4"@.len() == 3 && "CH4"@[0] == 'C' && "CH4"@[1] == 'H' && "CH4"@[2] == '4');
    assert("METHANE"@.len() == 7 && "METHANE"@[0] == 'M' && "METHANE"@[1] == 'E' && "METHANE"@[2] == 'T' && "METHANE"@[3] == 'H' && "METHANE"@[4] == 'A' && "METHANE"@[5] == 'N' && "METHANE"@[6] == 'E');
    assert("N2"@.len() == 2 && "N2"@[0] == 'N' && "N2"@[1] == '2');
    assert("NITROGEN"@.len() == 8 && "NITROGEN"@[0] == 'N' && "NITROGEN"@[1] == 'I' && "NITROGEN"@[2] == 'T' && "NITROGEN"@[3] == 'R' && "NITROGEN"@[4] == 'O' && "NITROGEN"@[5] == 'G' && "NITROGEN"@[6] == 'E' && "NITROGEN"@[7] == 'N');
    assert("CO2"@.len() == 3 && "CO2"@[0] == 'C' && "CO2"@[1] == 'O' && "CO2"@[2] == '2');
    assert("CARBON_DIOXIDE"@.len() == 14 && "CARBON_DIOXIDE"@[0] == 'C' && "CARBON_DIOXIDE"@[1] == 'A' && "CARBON_DIOXIDE"@[2] == 'R' && "CARBON_DIOXIDE"@[3] == 'B' && "CARBON_DIOXIDE"@[4] == 'O' && "CARBON_DIOXIDE"@[5] == 'N' && "CARBON_DIOXIDE"@[6] == '_' && "CARBON_DIOXIDE"@[7] == 'D' && "CARBON_DIOXIDE"@[8] == 'I' && "CARBON_DIOXIDE"@[9] == 'O' && "CARBON_DIOXIDE"@[10] == 'X' && "CARBON_DIOXIDE"@[11] == 'I' && "CARBON_DIOXIDE"@[12] == 'D' && "CARBON_DIOXIDE"@[13] == 'E');
    assert("C2H6"@.len() == 4 && "C2H6"@[0] == 'C' && "C2H6"@[1] == '2' && "C2H6"@[2] == 'H' && "C2H6"@[3] == '6');
    assert("ETHANE"@.len() == 6 && "ETHANE"@[0] == 'E' && "ETHANE"@[1] == 'T' && "ETHANE"@[2] == 'H' && "ETHANE"@[3] == 'A' && "ETHANE"@[4] == 'N' && "ETHANE"@[5] == 'E');
    assert("C3H8"@.len() == 4 && "C3H8"@[0] == 'C' && "C3H8"@[1] == '3' && "C3H8"@[2] == 'H' && "C3H8"@[3] == '8');
    assert("PROPANE"@.len() == 7 && "PROPANE"@[0] == 'P' && "PROPANE"@[1] == 'R' && "PROPANE"@[2] == 'O' && "PROPANE"@[3] == 'P' && "PROPANE"@[4] == 'A' && "PROPANE"@[5] == 'N' && "PROPANE"@[6] == 'E');
    assert("IC4H10"@.len() == 6 && "IC4H10"@[0] == 'I' && "IC4H10"@[1] == 'C' && "IC4H10"@[2] == '4' && "IC4H10"@[3] == 'H' && "IC4H10"@[4] == '1' && "IC4H10"@[5] == '0');
    assert("ISOBUTANE"@.len() == 9 && "ISOBUTANE"@[0] == 'I' && "ISOBUTANE"@[1] == 'S' && "ISOBUTANE"@[2] == 'O' && "ISOBUTANE"@[3] == 'B' && "ISOBUTANE"@[4] == 'U' && "ISOBUTANE"@[5] == 'T' && "ISOBUTANE"@[6] == 'A' && "ISOBUTANE"@[7] == 'N' && "ISOBUTANE"@[8] == 'E');
    assert("NC4H10"@.len() == 6 && "NC4H10"@[0] == 'N' && "NC4H10"@[1] == 'C' && "NC4H10"@[2] == '4' && "NC4H10"@[3] == 'H' && "NC4H10"@[4] == '1' && "NC4H10"@[5] == '0');
    assert("N_BUTANE"@.len() == 8 && "N_BUTANE"@[0] == 'N' && "N_BUTANE"@[1] == '_' && "N_BUTANE"@[2] == 'B' && "N_BUTANE"@[3] == 'U' && "N_BUTANE"@[4] == 'T' && "N_BUTANE"@[5] == 'A' && "N_BUTANE"@[6] == 'N' && "N_BUTANE"@[7] == 'E');
    assert("BUTANE"@.len() == 6 && "BUTANE"@[0] == 'B' && "BUTANE"@[1] == 'U' && "BUTANE"@[2] == 'T' && "BUTANE"@[3] == 'A' && "BUTANE"@[4] == 'N' && "BUTANE"@[5] == 'E');
    assert("IC5H12"@.len() == 6 && "IC5H12"@[0] == 'I' && "IC5H12"@[1] == 'C' && "IC5H12"@[2] == '5' && "IC5H12"@[3] == 'H' && "IC5H12"@[4] == '1' && "IC5H12"@[5] == '2');
    assert("ISOPENTANE"@.len() == 10 && "ISOPENTANE"@[0] == 'I' && "ISOPENTANE"@[1] == 'S' && "ISOPENTANE"@[2] == 'O' && "ISOPENTANE"@[3] == 'P' && "ISOPENTANE"@[4] == 'E' && "ISOPENTANE"@[5] == 'N' && "ISOPENTANE"@[6] == 'T' && "ISOPENTANE"@[7] == 'A' && "ISOPENTANE"@[8] == 'N' && "ISOPENTANE"@[9] == 'E');
    assert("NC5H12"@.len() == 6 && "NC5H12"@[0] == 'N' && "NC5H12"@[1] == 'C' && "NC5H12"@[2] == '5' && "NC5H12"@[3] == 'H' && "NC5H12"@[4] == '1' && "NC5H12"@[5] == '2');
    assert("N_PENTANE"@.len() == 9 && "N_PENTANE"@[0] == 'N' && "N_PENTANE"@[1] == '_' && "N_PENTANE"@[2] == 'P' && "N_PENTANE"@[3] == 'E' && "N_PENTANE"@[4] == 'N' && "N_PENTANE"@[5] == 'T' && "N_PENTANE"@[6] == 'A' && "N_PENTANE"@[7] == 'N' && "N_PENTANE"@[8] == 'E');
    assert("PENTANE"@.len() == 7 && "PENTANE"@[0] == 'P' && "PENTANE"@[1] == 'E' && "PENTANE"@[2] == 'N' && "PENTANE"@[3] == 'T' && "PENTANE"@[4] == 'A' && "PENTANE"@[5] == 'N' && "PENTANE"@[6] == 'E');
    assert("C6H14"@.len() == 5 && "C6H14"@[0] == 'C' && "C6H14"@[1] == '6' && "C6H14"@[2] == 'H' && "C6H14"@[3] == '1' && "C6H14"@[4] == '4');
    assert("HEXANE"@.len() == 6 && "HEXANE"@[0] == 'H' && "HEXANE"@[1] == 'E' && "HEXANE"@[2] == 'X' && "HEXANE"@[3] == 'A' && "HEXANE"@[4] == 'N' && "HEXANE"@[5] == 'E');
    assert("C7H16"@.len() == 5 && "C7H16"@[0] == 'C' && "C7H16"@[1] == '7' && "C7H16"@[2] == 'H' && "C7H16"@[3] == '1' && "C7H16"@[4] == '6');
    assert("HEPTANE"@.len() == 7 && "HEPTANE"@[0] == 'H' && "HEPTANE"@[1] == 'E' && "HEPTANE"@[2] == 'P' && "HEPTANE"@[3] == 'T' && "HEPTANE"@[4] == 'A' && "HEPTANE"@[5] == 'N' && "HEPTANE"@[6] == 'E');
    assert("C8H18"@.len() == 5 && "C8H18"@[0] == 'C' && "C8H18"@[1] == '8' && "C8H18"@[2] == 'H' && "C8H18"@[3] == '1' && "C8H18"@[4] == '8');
    assert("OCTANE"@.len() == 6 && "OCTANE"@[0] == 'O' && "OCTANE"@[1] == 'C' && "OCTANE"@[2] == 'T' && "OCTANE"@[3] == 'A' && "OCTANE"@[4] == 'N' && "OCTANE"@[5] == 'E');
    assert("C9H20"@.len() == 5 && "C9H20"@[0] == 'C' && "C9H20"@[1] == '9' && "C9H20"@[2] == 'H' && "C9H20"@[3] == '2' && "C9H20"@[4] == '0');
    assert("NONANE"@.len() == 6 && "NONANE"@[0] == 'N' && "NONANE"@[1] == 'O' && "NONANE"@[2] == 'N' && "NONANE"@[3] == 'A' && "NONANE"@[4] == 'N' && "NONANE"@[5] == 'E');
    assert("C10H22"@.len() == 6 && "C10H22"@[0] == 'C' && "C10H22"@[1] == '1' && "C10H22"@[2] == '0' && "C10H22"@[3] == 'H' && "C10H22"@[4] == '2' && "C10H22"@[5] == '2');
    assert("DECANE"@.len() == 6 && "DECANE"@[0] == 'D' && "DECANE"@[1] == 'E' && "DECANE"@[2] == 'C' && "DECANE"@[3] == 'A' && "DECANE"@[4] == 'N' && "DECANE"@[5] == 'E');
    assert("H2"@.len() == 2 && "H2"@[0] == 'H' && "H2"@[1] == '2');
    assert("HYDROGEN"@.len() == 8 && "HYDROGEN"@[0] == 'H' && "HYDROGEN"@[1] == 'Y' && "HYDROGEN"@[2] == 'D' && "HYDROGEN"@[3] == 'R' && "HYDROGEN"@[4] == 'O' && "HYDROGEN"@[5] == 'G' && "HYDROGEN"@[6] == 'E' && "HYDROGEN"@[7] == 'N');
    assert("O2"@.len() == 2 && "O2"@[0] == 'O' && "O2"@[1] == '2');
    assert("OXYGEN"@.len() == 6 && "OXYGEN"@[0] == 'O' && "OXYGEN"@[1] == 'X' && "OXYGEN"@[2] == 'Y' && "OXYGEN"@[3] == 'G' && "OXYGEN"@[4] == 'E' && "OXYGEN"@[5] == 'N');
    assert("CO"@.len() == 2 && "CO"@[0] == 'C' && "CO"@[1] == 'O');
    assert("CARBON_MONOXIDE"@.len() == 15 && "CARBON_MONOXIDE"@[0] == 'C' && "CARBON_MONOXIDE"@[1] == 'A' && "CARBON_MONOXIDE"@[2] == 'R' && "CARBON_MONOXIDE"@[3] == 'B' && "CARBON_MONOXIDE"@[4] == 'O' && "CARBON_MONOXIDE"@[5] == 'N' && "CARBON_MONOXIDE"@[6] == '_' && "CARBON_MONOXIDE"@[7] == 'M' && "CARBON_MONOXIDE"@[8] == 'O' && "CARBON_MONOXIDE"@[9] == 'N' && "CARBON_MONOXIDE"@[10] == 'O' && "CARBON_MONOXIDE"@[11] == 'X' && "CARBON_MONOXIDE"@[12] == 'I' && "CARBON_MONOXIDE"@[13] == 'D' && "CARBON_MONOXIDE"@[14] == 'E');
    assert("H2O"@.len() == 3 && "H2O"@[0] == 'H' && "H2O"@[1] == '2' && "H2O"@[2] == 'O');
    assert("WATER"@.len() == 5 && "WATER"@[0] == 'W' && "WATER"@[1] == 'A' && "WATER"@[2] == 'T' && "WATER"@[3] == 'E' && "WATER"@[4] == 'R');
    assert("H2S"@.len() == 3 && "H2S"@[0] == 'H' && "H2S"@[1] == '2' && "H2S"@[2] == 'S');
    assert("HYDROGEN_SULFIDE"@.len() == 16 && "HYDROGEN_SULFIDE"@[0] == 'H' && "HYDROGEN_SULFIDE"@[1] == 'Y' && "HYDROGEN_SULFIDE"@[2] == 'D' && "HYDROGEN_SULFIDE"@[3] == 'R' && "HYDROGEN_SULFIDE"@[4] == 'O' && "HYDROGEN_SULFIDE"@[5] == 'G' && "HYDROGEN_SULFIDE"@[6] == 'E' && "HYDROGEN_SULFIDE"@[7] == 'N' && "HYDROGEN_SULFIDE"@[8] == '_' && "HYDROGEN_SULFIDE"@[9] == 'S' && "HYDROGEN_SULFIDE"@[10] == 'U' && "HYDROGEN_SULFIDE"@[11] == 'L' && "HYDROGEN_SULFIDE"@[12] == 'F' && "HYDROGEN_SULFIDE"@[13] == 'I' && "HYDROGEN_SULFIDE"@[14] == 'D' && "HYDROGEN_SULFIDE"@[15] == 'E');
    assert("HE"@.len() == 2 && "HE"@[0] == 'H' && "HE"@[1] == 'E');
    assert("HELIUM"@.len() == 6 && "HELIUM"@[0] == 'H' && "HELIUM"@[1] == 'E' && "HELIUM"@[2] == 'L' && "HELIUM"@[3] == 'I' && "HELIUM"@[4] == 'U' && "HELIUM"@[5] == 'M');
    assert("AR"@.len() == 2 && "AR"@[0] == 'A' && "AR"@[1] == 'R');
    assert("ARGON"@.len() == 5 && "ARGON"@[0] == 'A' && "ARGON"@[1] == 'R' && "ARGON"@[2] == 'G' && "ARGON"@[3] == 'O' && "ARGON"@[4] == 'N');
    assert(aga8_index_of_upper("CH4"@) == Some(0usize));
    assert(aga8_index_of_upper("METHANE"@) == Some(0usize));
    assert(aga8_index_of_upper("N2"@) == Some(1usize));
    assert(aga8_index_of_upper("NITROGEN"@) == Some(1usize));
    assert(aga8_index_of_upper("CO2"@) == Some(2usize));
    assert(aga8_index_of_upper("CARBON_DIOXIDE"@) == Some(2usize));
    assert(aga8_index_of_upper("C2H6"@) == Some(3usize));
    assert(aga8_index_of_upper("ETHANE"@) == Some(3usize));
    assert(aga8_index_of_upper("C3H8"@) == Some(4usize));
    assert(aga8_index_of_upper("PROPANE"@) == Some(4usize));
    assert(aga8_index_of_upper("IC4H10"@) == Some(5usize));
    assert(aga8_index_of_upper("ISOBUTANE"@) == Some(5usize));
    assert(aga8_index_of_upper("NC4H10"@) == Some(6usize));
    assert(aga8_index_of_upper("N_BUTANE"@) == Some(6usize));
    assert(aga8_index_of_upper("BUTANE"@) == Some(6usize));
    assert(aga8_index_of_upper("IC5H12"@) == Some(7usize));
    assert(aga8_index_of_upper("ISOPENTANE"@) == Some(7usize));
    assert(aga8_index_of_upper("NC5H12"@) == Some(8usize));
    assert(aga8_index_of_upper("N_PENTANE"@) == Some(8usize));
    assert(aga8_index_of_upper("PENTANE"@) == Some(8usize));
    assert(aga8_index_of_upper("C6H14"@) == Some(9usize));
    assert(aga8_index_of_upper("HEXANE"@) == Some(9usize));
    assert(aga8_index_of_upper("C7H16"@) == Some(10usize));
    assert(aga8_index_of_upper("HEPTANE"@) == Some(10usize));
    assert(aga8_index_of_upper("C8H18"@) == Some(11usize));
    assert(aga8_index_of_upper("OCTANE"@) == Some(11usize));
    assert(aga8_index_of_upper("C9H20"@) == Some(12usize));
    assert(aga8_index_of_upper("NONANE"@) == Some(12usize));
    assert(aga8_index_of_upper("C10H22"@) == Some(13usize));
    assert(aga8_index_of_upper("DECANE"@) == Some(13usize));
    assert(aga8_index_of_upper("H2"@) == Some(14usize));
    assert(aga8_index_of_upper("HYDROGEN"@) == Some(14usize));
    assert(aga8_index_of_upper("O2"@) == Some(15usize));
    assert(aga8_index_of_upper("OXYGEN"@) == Some(15usize));
    assert(aga8_index_of_upper("CO"@) == Some(16usize));
    assert(aga8_index_of_upper("CARBON_MONOXIDE"@) == Some(16usize));
    assert(aga8_index_of_upper("H2O"@) == Some(17usize));
    assert(aga8_index_of_upper("WATER"@) == Some(17usize));
    assert(aga8_index_of_upper("H2S"@) == Some(18usize));
    assert(aga8_index_of_upper("HYDROGEN_SULFIDE"@) == Some(18usize));
    assert(aga8_index_of_upper("HE"@) == Some(19usize));
    assert(aga8_index_of_upper("HELIUM"@) == Some(19usize));
    assert(aga8_index_of_upper("AR"@) == Some(20usize));
    assert(aga8_index_of_upper("ARGON"@) == Some(20usize));
}

/// Only the formulas and names of a component address its slot, and every
/// slot is one of the 21: an upper-case name outside the table addresses none.
pub proof fn lemma_only_component_names_address_slots(u: Seq<char>)
    ensures
        aga8_index_of_upper(u) matches Some(s) ==> s < AGA8_SLOTS && component_names(s).contains(u),
        (forall|s: usize| s < AGA8_SLOTS ==> !(#[trigger] component_names(s)).contains(u))
            ==> aga8_index_of_upper(u) is None,
{
    if let Some(s) = aga8_index_of_upper(u) {
        assert(component_names(s).contains(u)) by {
            let names = component_names(s);
            assert(exists|k: int| 0 <= k < names.len() && names[k] == u);
        }
    }
}

/// Component names ignore ASCII letter case: a name, its lower-case and its
/// upper-case spelling address the same slot.
pub proof fn lemma_component_name_case_insensitive(s: Seq<char>)
    ensures
        aga8_index_of_upper(ascii_uppercase(ascii_lowercase(s))) == aga8_index_of_upper(
            ascii_uppercase(s),
        ),
        aga8_index_of_upper(ascii_uppercase(ascii_uppercase(s))) == aga8_index_of_upper(
            ascii_uppercase(s),
        ),
{
    assert(ascii_uppercase(ascii_lowercase(s)) =~= ascii_uppercase(s)) by {
        assert forall|i: int| 0 <= i < s.len() implies ascii_upper_char(ascii_lower_char(s[i]))
            == ascii_upper_char(s[i]) by {
            let c = s[i];
            if 'A' <= c && c <= 'Z' {
                assert((c as u32) + 32 >= 'a' as u32);
                assert((c as u32) + 32 <= 'z' as u32);
            }
        }
    }
    assert(ascii_uppercase(ascii_uppercase(s)) =~= ascii_uppercase(s)) by {
        assert forall|i: int| 0 <= i < s.len() implies ascii_upper_char(ascii_upper_char(s[i]))
            == ascii_upper_char(s[i]) by {
            let c = s[i];
            if 'a' <= c && c <= 'z' {
                assert((c as u32) - 32 < 'a' as u32);
            }
        }
    }
}

/// Calculate thermodynamic properties using aga8
pub struct Aga8Calculator;

} // verus!
