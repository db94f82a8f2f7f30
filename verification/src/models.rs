//! Request-level models that carry no measured quantities: the choice of
//! equation of state and the shape checks on a composition.
use vstd::prelude::*;
use vstd::std_specs::convert::FromSpecImpl;
use vstd::utf8::is_ascii_chars;
use crate::text::{ascii_lowercase, ascii_lower_char, spec_to_lowercase, str_is, to_lowercase};

verus! {

/// Equation of state to use for calculations
#[derive(Debug, Clone, Copy, PartialEq, Eq, Structural)]
pub enum EquationOfState {
    /// GERG-2008 equation of state (default)
    Gerg2008,
    /// AGA8 DETAIL equation of state
    Aga8Detail,
}

/// The equation of state that a lower-cased name selects: the three DETAIL
/// spellings select AGA8 DETAIL, anything else selects GERG-2008.
pub open spec fn eos_from_lowercase_spec(lower: Seq<char>) -> EquationOfState {
    if lower == "aga8detail"@ || lower == "aga8_detail"@ || lower == "detail"@ {
        EquationOfState::Aga8Detail
    } else {
        EquationOfState::Gerg2008
    }
}

/// The label of an equation of state in the name of a tab file table.
pub open spec fn eos_table_label(e: EquationOfState) -> Seq<char> {
    match e {
        EquationOfState::Gerg2008 => "GERG2008"@,
        EquationOfState::Aga8Detail => "AGA8_DETAIL"@,
    }
}

/// The equation of state that a name selects, case-insensitively.
pub open spec fn eos_from_name_spec(name: Seq<char>) -> EquationOfState {
    eos_from_lowercase_spec(spec_to_lowercase(name))
}

impl EquationOfState {
    /// Selects the equation of state from a name that is already lower case.
    pub fn from_lowercase(lower: &str) -> (e: EquationOfState)
        ensures
            e == eos_from_lowercase_spec(lower@),
    {
        if str_is(lower, "aga8detail") || str_is(lower, "aga8_detail") || str_is(lower, "detail") {
            EquationOfState::Aga8Detail
        } else {
            EquationOfState::Gerg2008
        }
    }
}

impl Default for EquationOfState {
    fn default() -> (e: Self)
        ensures
            e == EquationOfState::Gerg2008,
    {
        EquationOfState::Gerg2008
    }
}

impl<'a> From<&'a str> for EquationOfState {
    fn from(s: &'a str) -> (e: Self)
        ensures
            e == eos_from_name_spec(s@),
            is_ascii_chars(s@) ==> e == eos_from_lowercase_spec(ascii_lowercase(s@)),
    {
        let lower = to_lowercase(s);
        EquationOfState::from_lowercase(lower.as_str())
    }
}

impl<'a> FromSpecImpl<&'a str> for EquationOfState {
    open spec fn obeys_from_spec() -> bool {
        true
    }

    open spec fn from_spec(s: &'a str) -> Self {
        eos_from_name_spec(s@)
    }
}

/// The detail of the error for a composition whose two lists differ in length.
pub open spec fn length_mismatch_detail() -> Seq<char> {
    "Components and mole fractions must have the same length"@
}

/// The detail of the error for a composition without components.
pub open spec fn empty_composition_detail() -> Seq<char> {
    "Composition must have at least one component"@
}

/// The checks on a composition that concern its shape: as many mole
/// fractions as components, and at least one component. The sum of the
/// fractions is checked on the numbers themselves.
pub fn validate_composition_lengths(n_components: usize, n_fractions: usize) -> (r: Result<(), String>)
    ensures
        n_components != n_fractions ==> (r matches Err(m) && m@ == length_mismatch_detail()),
        n_components == n_fractions && n_components == 0 ==> (r matches Err(m) && m@
            == empty_composition_detail()),
        n_components == n_fractions && n_components > 0 ==> r is Ok,
{
    if n_components != n_fractions {
        return Err(String::from_str("Components and mole fractions must have the same length"));
    }
    if n_components == 0 {
        return Err(String::from_str("Composition must have at least one component"));
    }
    Ok(())
}

/// The name of the equation of state that a request carries when it names none.
pub fn default_eos_string() -> (s: String)
    ensures
        s@ == "gerg2008"@,
{
    String::from_str("gerg2008")
}

/// The label under which the tab file names an equation of state selects
/// that same equation of state when read back as a name.
pub proof fn lemma_eos_label_selects_eos(e: EquationOfState)
    ensures
        is_ascii_chars(eos_table_label(e)),
        eos_from_lowercase_spec(ascii_lowercase(eos_table_label(e))) == e,
{
    reveal_strlit("GERG2008");
    reveal_strlit("AGA8_DETAIL");
    reveal_strlit("aga8detail");
    reveal_strlit("aga8_detail");
    reveal_strlit("detail");
    match e {
        EquationOfState::Gerg2008 => {
            assert(ascii_lowercase("GERG2008"@) =~= "gerg2008"@) by {
                reveal_strlit("gerg2008");
            }
            reveal_strlit("gerg2008");
        },
        EquationOfState::Aga8Detail => {
            assert(ascii_lowercase("AGA8_DETAIL"@) =~= "aga8_detail"@);
        },
    }
}

/// The name a request carries when it names no equation of state selects
/// the default equation of state.
pub proof fn lemma_default_name_selects_default()
    ensures
        is_ascii_chars("gerg2008"@),
        eos_from_lowercase_spec(ascii_lowercase("gerg2008"@)) == EquationOfState::Gerg2008,
{
    reveal_strlit("gerg2008");
    reveal_strlit("aga8detail");
    reveal_strlit("aga8_detail");
    reveal_strlit("detail");
    assert(ascii_lowercase("gerg2008"@) =~= "gerg2008"@);
}

/// Selecting an equation of state ignores ASCII letter case: a name and its
/// lower-case spelling select the same one.
pub proof fn lemma_eos_name_case_insensitive(s: Seq<char>)
    ensures
        eos_from_lowercase_spec(ascii_lowercase(ascii_lowercase(s))) == eos_from_lowercase_spec(
            ascii_lowercase(s),
        ),
{
    assert(ascii_lowercase(ascii_lowercase(s)) =~= ascii_lowercase(s)) by {
        assert forall|i: int| 0 <= i < s.len() implies ascii_lower_char(ascii_lower_char(s[i]))
            == ascii_lower_char(s[i]) by {
            let c = s[i];
            if 'A' <= c && c <= 'Z' {
                assert((c as u32) + 32 > 'Z' as u32);
            }
        }
    }
}

/// The names that select AGA8 DETAIL, once in lower case.
pub open spec fn detail_names() -> Set<Seq<char>> {
    set!["aga8detail"@, "aga8_detail"@, "detail"@]
}

/// Exactly three lower-case names select AGA8 DETAIL; every other name,
/// such as `gerg2008` or `gerg-2008`, selects GERG-2008. A request's name
/// selects by its lower-case form, and for an ASCII name that is its ASCII
/// lower case.
pub proof fn lemma_names_that_select_detail(name: Seq<char>)
    ensures
        Set::new(|l: Seq<char>| eos_from_lowercase_spec(l) == EquationOfState::Aga8Detail)
            == detail_names(),
        eos_from_name_spec(name) == EquationOfState::Aga8Detail <==> detail_names().contains(
            spec_to_lowercase(name),
        ),
        eos_from_name_spec(name) == EquationOfState::Gerg2008 <==> !detail_names().contains(
            spec_to_lowercase(name),
        ),
        eos_from_lowercase_spec(ascii_lowercase(name)) == EquationOfState::Aga8Detail
            <==> detail_names().contains(ascii_lowercase(name)),
{
    assert(Set::new(|l: Seq<char>| eos_from_lowercase_spec(l) == EquationOfState::Aga8Detail)
        =~= detail_names());
}

} // verus!
