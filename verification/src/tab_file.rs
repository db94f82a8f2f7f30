//! The Multiflash tab file: its header, its value arrays with their line
//! wrapping, and one line per grid point. Every number reaches the layout as
//! the decimal text that stands for it in the file.
use vstd::prelude::*;
use vstd::utf8::is_ascii_chars;
use crate::aga8_calc::{
    aga8_index_from_uppercase, aga8_index_of, aga8_index_of_upper, component_names,
    lemma_component_names_address_their_slot, lemma_only_component_names_address_slots, AGA8_SLOTS,
};
use crate::models::{eos_table_label, EquationOfState};
use crate::text::{
    byte_len, count_char, join, join_strings, lemma_byte_len_concat, lemma_count_char_concat,
    ascii_uppercase, replace_spaces, str_byte_len, texts, to_uppercase, underscore_spaces,
};

verus! {

/// The composition as it is written: component names and mole fractions.
pub struct CompositionText {
    /// Component names (e.g., ["CO2", "H2"])
    pub components: Vec<String>,
    /// Mole fractions, each written with nine decimals
    pub mole_fractions: Vec<String>,
}

/// The critical point as it is written.
pub struct CriticalPointText {
    /// Critical pressure in Pa
    pub pressure: String,
    /// Critical temperature in °C
    pub temperature: String,
}

/// The phase boundaries as they are written.
pub struct PhaseBoundaryText {
    /// Bubble point pressures at each temperature (Pa)
    pub bubble_pressures: Vec<String>,
    /// Bubble point temperatures at each pressure (°C)
    pub bubble_temperatures: Vec<String>,
    /// Dew point pressures at each temperature (Pa)
    pub dew_pressures: Vec<String>,
    /// Dew point temperatures at each pressure (°C)
    pub dew_temperatures: Vec<String>,
}

/// One thermodynamic point as it is written: the twenty columns of a
/// `PVTTABLE POINT` line, in column order.
pub struct PointText {
    /// Pressure in Pa
    pub pressure: String,
    /// Temperature in °C
    pub temperature: String,
    /// Gas density in kg/m³
    pub gas_density: String,
    /// Liquid density in kg/m³
    pub liquid_density: String,
    /// Gas density derivative with respect to pressure
    pub d_rho_gas_dp: String,
    /// Liquid density derivative with respect to pressure
    pub d_rho_liq_dp: String,
    /// Gas density derivative with respect to temperature
    pub d_rho_gas_dt: String,
    /// Liquid density derivative with respect to temperature
    pub d_rho_liq_dt: String,
    /// Solution gas-oil ratio
    pub rs: String,
    /// Gas viscosity in Pa·s
    pub gas_viscosity: String,
    /// Liquid viscosity in Pa·s
    pub liquid_viscosity: String,
    /// Gas heat capacity in J/(kg·K)
    pub gas_cp: String,
    /// Liquid heat capacity in J/(kg·K)
    pub liquid_cp: String,
    /// Gas enthalpy in J/mol
    pub gas_enthalpy: String,
    /// Liquid enthalpy in J/mol
    pub liquid_enthalpy: String,
    /// Gas thermal conductivity in W/(m·K)
    pub gas_thermal_conductivity: String,
    /// Liquid thermal conductivity in W/(m·K)
    pub liquid_thermal_conductivity: String,
    /// Surface tension in N/m
    pub surface_tension: String,
    /// Gas entropy in J/(mol·K)
    pub gas_entropy: String,
    /// Liquid entropy in J/(mol·K)
    pub liquid_entropy: String,
}

/// Name of an equation of state in the file's comment block.
pub open spec fn eos_name(e: EquationOfState) -> Seq<char> {
    match e {
        EquationOfState::Gerg2008 => "GERG-2008"@,
        EquationOfState::Aga8Detail => "AGA8 DETAIL"@,
    }
}

/// A `NAME = ( a , b , c ), \` line.
pub open spec fn list_line_text(name: Seq<char>, items: Seq<Seq<char>>) -> Seq<char> {
    name + " = ( "@ + join(items, " , "@) + " ), \\\n"@
}

/// The first lines of the file: table label, comment block, components.
pub open spec fn header_text(components: Seq<Seq<char>>, eos: EquationOfState) -> Seq<char> {
    "PVTTABLE LABEL = "@ + eos_table_label(eos) + "_"@ + underscore_spaces(join(components, " , "@))
        + " ,  PHASE = TWO, \\\n"@ + "!\n"@ + "! Multiflash Version 7.4.08     May 2023\n"@ + "!\n"@
        + "! EOS:  "@ + eos_name(eos) + "                                                                          !\n"@ + "!\n"@ + list_line_text(
        "COMPONENTS"@,
        components,
    )
}

/// Molar mass of each AGA8 slot in units of 1e-9 kg/mol; a name outside
/// the table counts as air.
pub open spec fn molecular_weight_nano(slot: Option<usize>) -> u64 {
    match slot {
        Some(0) => 16043000,
        Some(1) => 28013400,
        Some(2) => 44009800,
        Some(3) => 30069600,
        Some(4) => 44095600,
        Some(5) => 58122200,
        Some(6) => 58122200,
        Some(7) => 72148800,
        Some(8) => 72148800,
        Some(9) => 86175400,
        Some(10) => 100201900,
        Some(11) => 114228500,
        Some(12) => 128255100,
        Some(13) => 142281700,
        Some(14) => 2015880,
        Some(15) => 31998800,
        Some(16) => 28010100,
        Some(17) => 18015280,
        Some(18) => 34080900,
        Some(19) => 4002602,
        Some(20) => 39948000,
        _ => 28970000,
    }
}

/// The character of a decimal digit.
pub open spec fn digit_char(d: nat) -> char {
    (48 + d) as char
}

/// The last `k` decimal digits of `v`, most significant first, zero-padded.
pub open spec fn padded_digits(v: nat, k: nat) -> Seq<char>
    decreases k,
{
    if k == 0 {
        Seq::empty()
    } else {
        padded_digits(v / 10, (k - 1) as nat).push(digit_char(v % 10))
    }
}

/// `v / 1e9` written with nine decimals, for `v < 1e9`.
pub open spec fn nano_fraction_text(v: nat) -> Seq<char> {
    "0."@ + padded_digits(v, 9)
}

/// The molar mass of a component as it is written in the file.
pub open spec fn molecular_weight_text(name: Seq<char>) -> Seq<char> {
    nano_fraction_text(molecular_weight_nano(aga8_index_of(name)) as nat)
}

pub open spec fn molecular_weight_texts(components: Seq<Seq<char>>) -> Seq<Seq<char>> {
    components.map_values(|c: Seq<char>| molecular_weight_text(c))
}

/// The fixed block of standard conditions.
pub open spec fn standard_conditions_text() -> Seq<char> {
    "STDPRESSURE = 101325 PA , \\\nSTDTEMPERATURE = 15.55556 C, \\\nGOR = -999 SM3/SM3, \\\nGLR = -999 SM3/SM3, \\\nWC = -999 , \\\nSTDGASDENSITY = 1.85037281 KG/M3, \\\nSTDOILDENSITY = -999 KG/M3, \\\nSTDWATDENSITY = -999 KG/M3, \\\nMESHTYPE = STANDARD, \\\n"@
}

/// The column line.
pub open spec fn columns_text() -> Seq<char> {
    "COLUMNS = ( PT, TM, ROG, ROHL, DROGDP,  DROHLDP, DROGDT, DROHLDT, RS, VISG, VISHL, CPG, CPHL,   HG, HHL, TCG, TCHL, SIGGHL, SEG, SEHL)\n"@
}

/// The entry that follows a value in an array: a separator, or after the
/// last value the closing bracket and the unit.
pub open spec fn array_entry(values: Seq<Seq<char>>, i: int, unit: Seq<char>) -> Seq<char> {
    if i == values.len() - 1 {
        values[i] + " ) "@ + unit + ", \\\n"@
    } else {
        values[i] + " , "@
    }
}

/// The entries from `i` on, when the current line already holds `cur`
/// bytes: an entry that would carry a line past 80 bytes starts a new line
/// (after a `\` continuation mark), except the first entry of the array.
pub open spec fn array_body(values: Seq<Seq<char>>, unit: Seq<char>, i: nat, cur: nat) -> Seq<char>
    decreases values.len() - i,
{
    if i >= values.len() {
        Seq::empty()
    } else {
        let e = array_entry(values, i as int, unit);
        if cur + byte_len(e) > 80 && i > 0 {
            "\\\n"@ + e + array_body(values, unit, i + 1, byte_len(e))
        } else {
            e + array_body(values, unit, i + 1, cur + byte_len(e))
        }
    }
}

/// A named array of values: `NAME = ( v0 , v1 , ... ) UNIT, \`, wrapped.
pub open spec fn array_text(name: Seq<char>, values: Seq<Seq<char>>, unit: Seq<char>) -> Seq<char> {
    let head = name + " = ( "@;
    head + array_body(values, unit, 0, byte_len(head))
}

/// The lines of an array from entry `i` on, when the current line holds
/// `line`: each line without its continuation mark.
pub open spec fn array_lines_from(values: Seq<Seq<char>>, unit: Seq<char>, i: nat, line: Seq<char>) -> Seq<
    Seq<char>,
>
    decreases values.len() - i,
{
    if i >= values.len() {
        seq![line]
    } else {
        let e = array_entry(values, i as int, unit);
        if byte_len(line) + byte_len(e) > 80 && i > 0 {
            seq![line] + array_lines_from(values, unit, i + 1, e)
        } else {
            array_lines_from(values, unit, i + 1, line + e)
        }
    }
}

/// The lines of a named array.
pub open spec fn array_lines(name: Seq<char>, values: Seq<Seq<char>>, unit: Seq<char>) -> Seq<Seq<char>> {
    array_lines_from(values, unit, 0, name + " = ( "@)
}

/// Whether a line after the first is within the width, or holds one entry
/// that is wider than the width by itself.
pub open spec fn later_line_ok(l: Seq<char>, values: Seq<Seq<char>>, unit: Seq<char>) -> bool {
    byte_len(l) <= 80 || exists|k: int| 0 <= k < values.len() && l == #[trigger] array_entry(values, k, unit)
}

/// Whether the first line is within the width, or holds nothing but the head
/// and the first entry.
pub open spec fn first_line_ok(l: Seq<char>, head: Seq<char>, values: Seq<Seq<char>>, unit: Seq<char>) -> bool {
    byte_len(l) <= 80 || l == head || l == head + array_entry(values, 0, unit)
}

/// Prepending one item to a non-empty list adds it and a separator in front.
proof fn lemma_join_prepend(a: Seq<char>, rest: Seq<Seq<char>>, sep: Seq<char>)
    requires
        rest.len() >= 1,
    ensures
        join(seq![a] + rest, sep) == a + sep + join(rest, sep),
    decreases rest.len(),
{
    let all = seq![a] + rest;
    if rest.len() == 1 {
        assert(all.drop_last() =~= seq![a]);
        assert(join(rest, sep) == rest[0]);
    } else {
        assert(all.drop_last() =~= seq![a] + rest.drop_last());
        lemma_join_prepend(a, rest.drop_last(), sep);
        assert(join(seq![a] + rest.drop_last(), sep) + sep + rest.last() =~= a + sep + (join(
            rest.drop_last(),
            sep,
        ) + sep + rest.last()));
    }
}

proof fn lemma_array_lines_from(values: Seq<Seq<char>>, unit: Seq<char>, i: nat, line: Seq<char>, head: Seq<char>, first: bool)
    requires
        i <= values.len(),
        first ==> first_line_ok(line, head, values, unit),
        first && i == 0 ==> line == head,
        !first ==> later_line_ok(line, values, unit),
        !first ==> i > 0,
    ensures
        line + array_body(values, unit, i, byte_len(line)) == join(
            array_lines_from(values, unit, i, line),
            "\\\n"@,
        ),
        array_lines_from(values, unit, i, line).len() >= 1,
        first ==> first_line_ok(array_lines_from(values, unit, i, line)[0], head, values, unit),
        !first ==> later_line_ok(array_lines_from(values, unit, i, line)[0], values, unit),
        forall|j: int|
            1 <= j < array_lines_from(values, unit, i, line).len() ==> later_line_ok(
                #[trigger] array_lines_from(values, unit, i, line)[j],
                values,
                unit,
            ),
    decreases values.len() - i,
{
    if i >= values.len() {
        assert(line + array_body(values, unit, i, byte_len(line)) =~= line);
    } else {
        let e = array_entry(values, i as int, unit);
        if byte_len(line) + byte_len(e) > 80 && i > 0 {
            assert(later_line_ok(e, values, unit));
            lemma_array_lines_from(values, unit, i + 1, e, head, false);
            let rest = array_lines_from(values, unit, i + 1, e);
            lemma_join_prepend(line, rest, "\\\n"@);
            assert(line + ("\\\n"@ + e + array_body(values, unit, i + 1, byte_len(e))) =~= line
                + "\\\n"@ + (e + array_body(values, unit, i + 1, byte_len(e))));
            let all = seq![line] + rest;
            assert forall|j: int| 1 <= j < all.len() implies later_line_ok(#[trigger] all[j], values, unit) by {
                assert(all[j] == rest[j - 1]);
            }
        } else {
            lemma_byte_len_concat(line, e);
            if first {
                if i == 0 {
                    assert(first_line_ok(line + e, head, values, unit));
                } else {
                    assert(byte_len(line + e) <= 80);
                }
            } else {
                assert(byte_len(line + e) <= 80);
            }
            lemma_array_lines_from(values, unit, i + 1, line + e, head, first);
            assert(line + (e + array_body(values, unit, i + 1, byte_len(line) + byte_len(e))) =~= (line
                + e) + array_body(values, unit, i + 1, byte_len(line + e)));
        }
    }
}

/// Line wrapping of an array: the array is its lines joined by `\`
/// continuation marks; every line after the first is at most 80 bytes or
/// holds a single entry, and the first line is at most 80 bytes or holds
/// only the head and the first entry.
pub proof fn lemma_array_wrapping(name: Seq<char>, values: Seq<Seq<char>>, unit: Seq<char>)
    ensures
        array_text(name, values, unit) == join(array_lines(name, values, unit), "\\\n"@),
        array_lines(name, values, unit).len() >= 1,
        first_line_ok(array_lines(name, values, unit)[0], name + " = ( "@, values, unit),
        forall|j: int|
            1 <= j < array_lines(name, values, unit).len() ==> later_line_ok(
                #[trigger] array_lines(name, values, unit)[j],
                values,
                unit,
            ),
{
    let head = name + " = ( "@;
    lemma_array_lines_from(values, unit, 0, head, head, true);
}

/// The entries of an array from entry `i` on, one after the other.
pub open spec fn array_entries_from(values: Seq<Seq<char>>, unit: Seq<char>, i: nat) -> Seq<char>
    decreases values.len() - i,
{
    if i >= values.len() {
        Seq::empty()
    } else {
        array_entry(values, i as int, unit) + array_entries_from(values, unit, i + 1)
    }
}

proof fn lemma_array_entries_join(values: Seq<Seq<char>>, unit: Seq<char>, i: nat)
    requires
        i < values.len(),
    ensures
        array_entries_from(values, unit, i) == join(values.subrange(i as int, values.len() as int), " , "@)
            + " ) "@ + unit + ", \\\n"@,
    decreases values.len() - i,
{
    let sub = values.subrange(i as int, values.len() as int);
    if i == values.len() - 1 {
        assert(sub.len() == 1);
        assert(array_entries_from(values, unit, i + 1) =~= Seq::<char>::empty());
        assert(array_entries_from(values, unit, i) =~= values[i as int] + " ) "@ + unit + ", \\\n"@);
    } else {
        lemma_array_entries_join(values, unit, i + 1);
        let rest = values.subrange((i + 1) as int, values.len() as int);
        assert(sub =~= seq![values[i as int]] + rest);
        lemma_join_prepend(values[i as int], rest, " , "@);
        assert(array_entries_from(values, unit, i) =~= join(sub, " , "@) + " ) "@ + unit + ", \\\n"@);
    }
}

proof fn lemma_array_lines_concat(values: Seq<Seq<char>>, unit: Seq<char>, i: nat, line: Seq<char>)
    requires
        i <= values.len(),
    ensures
        join(array_lines_from(values, unit, i, line), Seq::empty()) == line + array_entries_from(
            values,
            unit,
            i,
        ),
    decreases values.len() - i,
{
    if i >= values.len() {
        assert(line + array_entries_from(values, unit, i) =~= line);
    } else {
        let e = array_entry(values, i as int, unit);
        if byte_len(line) + byte_len(e) > 80 && i > 0 {
            lemma_array_lines_concat(values, unit, i + 1, e);
            let rest = array_lines_from(values, unit, i + 1, e);
            lemma_array_lines_from_nonempty(values, unit, i + 1, e);
            lemma_join_prepend(line, rest, Seq::empty());
            assert(line + Seq::<char>::empty() + join(rest, Seq::empty()) =~= line + (e
                + array_entries_from(values, unit, i + 1)));
        } else {
            lemma_array_lines_concat(values, unit, i + 1, line + e);
            assert((line + e) + array_entries_from(values, unit, i + 1) =~= line + (e
                + array_entries_from(values, unit, i + 1)));
        }
    }
}

proof fn lemma_array_lines_from_nonempty(values: Seq<Seq<char>>, unit: Seq<char>, i: nat, line: Seq<char>)
    ensures
        array_lines_from(values, unit, i, line).len() >= 1,
    decreases values.len() - i,
{
    if i < values.len() {
        let e = array_entry(values, i as int, unit);
        lemma_array_lines_from_nonempty(values, unit, i + 1, e);
        lemma_array_lines_from_nonempty(values, unit, i + 1, line + e);
    }
}

/// An array lists every value in order: its lines put back together without
/// the continuation marks give the head, the values separated by ` , `, and
/// the closing bracket with the unit; an array without values is its head.
pub proof fn lemma_array_values_in_order(name: Seq<char>, values: Seq<Seq<char>>, unit: Seq<char>)
    ensures
        values.len() == 0 ==> array_text(name, values, unit) == name + " = ( "@,
        values.len() >= 1 ==> join(array_lines(name, values, unit), Seq::empty()) == name + " = ( "@
            + join(values, " , "@) + " ) "@ + unit + ", \\\n"@,
{
    let head = name + " = ( "@;
    if values.len() == 0 {
        assert(array_text(name, values, unit) =~= head);
    } else {
        lemma_array_lines_concat(values, unit, 0, head);
        lemma_array_entries_join(values, unit, 0);
        assert(values.subrange(0, values.len() as int) =~= values);
        assert(head + (join(values, " , "@) + " ) "@ + unit + ", \\\n"@) =~= head + join(values, " , "@)
            + " ) "@ + unit + ", \\\n"@);
    }
}

/// The critical point lines have the layout of two arrays of one value
/// each: the pressure in Pa, then the temperature in degrees Celsius.
pub proof fn lemma_critical_lines_are_arrays(c: CriticalPointText)
    ensures
        critical_text(c) == array_text("CRITICALPRESSURE"@, seq![c.pressure@], "PA"@) + array_text(
            "CRITICALTEMPERATURE"@,
            seq![c.temperature@],
            "C"@,
        ),
{
    reveal_strlit("CRITICALPRESSURE = ( ");
    reveal_strlit("CRITICALPRESSURE");
    reveal_strlit("CRITICALTEMPERATURE = ( ");
    reveal_strlit("CRITICALTEMPERATURE");
    reveal_strlit(" = ( ");
    reveal_strlit(" ) PA, \\\n");
    reveal_strlit(" ) C, \\\n");
    reveal_strlit(" ) ");
    reveal_strlit("PA");
    reveal_strlit("C");
    reveal_strlit(", \\\n");
    let pv = seq![c.pressure@];
    let tv = seq![c.temperature@];
    let hp = "CRITICALPRESSURE"@ + " = ( "@;
    let ht = "CRITICALTEMPERATURE"@ + " = ( "@;
    assert(array_body(pv, "PA"@, 1, byte_len(hp) + byte_len(array_entry(pv, 0, "PA"@))) =~= Seq::<char>::empty());
    assert(array_body(tv, "C"@, 1, byte_len(ht) + byte_len(array_entry(tv, 0, "C"@))) =~= Seq::<char>::empty());
    assert(array_text("CRITICALPRESSURE"@, pv, "PA"@) =~= "CRITICALPRESSURE = ( "@ + c.pressure@ + " ) PA, \\\n"@);
    assert(array_text("CRITICALTEMPERATURE"@, tv, "C"@) =~= "CRITICALTEMPERATURE = ( "@ + c.temperature@ + " ) C, \\\n"@);
    assert(critical_text(c) =~= ("CRITICALPRESSURE = ( "@ + c.pressure@ + " ) PA, \\\n"@) + (
    "CRITICALTEMPERATURE = ( "@ + c.temperature@ + " ) C, \\\n"@));
}

/// A point line lists the point's twenty column texts in column order, the
/// first thirteen and the last seven each separated by ` , `.
#[verifier::rlimit(100)]
#[verifier::spinoff_prover]
pub proof fn lemma_point_line_columns(p: PointText)
    ensures
        point_line(p) == "PVTTABLE POINT = ( "@ + join(point_fields(p).take(13), " , "@) + " ,   "@ + join(
            point_fields(p).skip(13),
            " , "@,
        ) + " )\n"@,
{
    let fs = point_fields(p);
    let a = fs.take(13);
    let b = fs.skip(13);
    let pre = "PVTTABLE POINT = ( "@;
    let j1 = p.pressure@;
    assert(a.take(1) =~= seq![j1]);
    assert(a.take(2).drop_last() =~= a.take(1));
    assert(join(a.take(2), " , "@) == join(a.take(1), " , "@) + " , "@ + p.temperature@);
    assert("PVTTABLE POINT = ( "@ + p.pressure@ + " , "@ + p.temperature@ == pre + join(a.take(2), " , "@)) by {
        assert((pre + join(a.take(1), " , "@)) + " , "@ + p.temperature@ =~= pre + (join(a.take(1), " , "@) + " , "@ + p.temperature@));
    }
    assert(a.take(3).drop_last() =~= a.take(2));
    assert(join(a.take(3), " , "@) == join(a.take(2), " , "@) + " , "@ + p.gas_density@);
    assert("PVTTABLE POINT = ( "@ + p.pressure@ + " , "@ + p.temperature@ + " , "@ + p.gas_density@ == pre + join(a.take(3), " , "@)) by {
        assert((pre + join(a.take(2), " , "@)) + " , "@ + p.gas_density@ =~= pre + (join(a.take(2), " , "@) + " , "@ + p.gas_density@));
    }
    assert(a.take(4).drop_last() =~= a.take(3));
    assert(join(a.take(4), " , "@) == join(a.take(3), " , "@) + " , "@ + p.liquid_density@);
    assert("PVTTABLE POINT = ( "@ + p.pressure@ + " , "@ + p.temperature@ + " , "@ + p.gas_density@ + " , "@ + p.liquid_density@ == pre + join(a.take(4), " , "@)) by {
        assert((pre + join(a.take(3), " , "@)) + " , "@ + p.liquid_density@ =~= pre + (join(a.take(3), " , "@) + " , "@ + p.liquid_density@));
    }
    assert(a.take(5).drop_last() =~= a.take(4));
    assert(join(a.take(5), " , "@) == join(a.take(4), " , "@) + " , "@ + p.d_rho_gas_dp@);
    assert("PVTTABLE POINT = ( "@ + p.pressure@ + " , "@ + p.temperature@ + " , "@ + p.gas_density@ + " , "@ + p.liquid_density@ + " , "@ + p.d_rho_gas_dp@ == pre + join(a.take(5), " , "@)) by {
        assert((pre + join(a.take(4), " , "@)) + " , "@ + p.d_rho_gas_dp@ =~= pre + (join(a.take(4), " , "@) + " , "@ + p.d_rho_gas_dp@));
    }
    assert(a.take(6).drop_last() =~= a.take(5));
    assert(join(a.take(6), " , "@) == join(a.take(5), " , "@) + " , "@ + p.d_rho_liq_dp@);
    assert("PVTTABLE POINT = ( "@ + p.pressure@ + " , "@ + p.temperature@ + " , "@ + p.gas_density@ + " , "@ + p.liquid_density@ + " , "@ + p.d_rho_gas_dp@ + " , "@ + p.d_rho_liq_dp@ == pre + join(a.take(6), " , "@)) by {
        assert((pre + join(a.take(5), " , "@)) + " , "@ + p.d_rho_liq_dp@ =~= pre + (join(a.take(5), " , "@) + " , "@ + p.d_rho_liq_dp@));
    }
    assert(a.take(7).drop_last() =~= a.take(6));
    assert(join(a.take(7), " , "@) == join(a.take(6), " , "@) + " , "@ + p.d_rho_gas_dt@);
    assert("PVTTABLE POINT = ( "@ + p.pressure@ + " , "@ + p.temperature@ + " , "@ + p.gas_density@ + " , "@ + p.liquid_density@ + " , "@ + p.d_rho_gas_dp@ + " , "@ + p.d_rho_liq_dp@ + " , "@ + p.d_rho_gas_dt@ == pre + join(a.take(7), " , "@)) by {
        assert((pre + join(a.take(6), " , "@)) + " , "@ + p.d_rho_gas_dt@ =~= pre + (join(a.take(6), " , "@) + " , "@ + p.d_rho_gas_dt@));
    }
    assert(a.take(8).drop_last() =~= a.take(7));
    assert(join(a.take(8), " , "@) == join(a.take(7), " , "@) + " , "@ + p.d_rho_liq_dt@);
    assert("PVTTABLE POINT = ( "@ + p.pressure@ + " , "@ + p.temperature@ + " , "@ + p.gas_density@ + " , "@ + p.liquid_density@ + " , "@ + p.d_rho_gas_dp@ + " , "@ + p.d_rho_liq_dp@ + " , "@ + p.d_rho_gas_dt@ + " , "@ + p.d_rho_liq_dt@ == pre + join(a.take(8), " , "@)) by {
        assert((pre + join(a.take(7), " , "@)) + " , "@ + p.d_rho_liq_dt@ =~= pre + (join(a.take(7), " , "@) + " , "@ + p.d_rho_liq_dt@));
    }
    assert(a.take(9).drop_last() =~= a.take(8));
    assert(join(a.take(9), " , "@) == join(a.take(8), " , "@) + " , "@ + p.rs@);
    assert("PVTTABLE POINT = ( "@ + p.pressure@ + " , "@ + p.temperature@ + " , "@ + p.gas_density@ + " , "@ + p.liquid_density@ + " , "@ + p.d_rho_gas_dp@ + " , "@ + p.d_rho_liq_dp@ + " , "@ + p.d_rho_gas_dt@ + " , "@ + p.d_rho_liq_dt@ + " , "@ + p.rs@ == pre + join(a.take(9), " , "@)) by {
        assert((pre + join(a.take(8), " , "@)) + " , "@ + p.rs@ =~= pre + (join(a.take(8), " , "@) + " , "@ + p.rs@));
    }
    assert(a.take(10).drop_last() =~= a.take(9));
    assert(join(a.take(10), " , "@) == join(a.take(9), " , "@) + " , "@ + p.gas_viscosity@);
    assert("PVTTABLE POINT = ( "@ + p.pressure@ + " , "@ + p.temperature@ + " , "@ + p.gas_density@ + " , "@ + p.liquid_density@ + " , "@ + p.d_rho_gas_dp@ + " , "@ + p.d_rho_liq_dp@ + " , "@ + p.d_rho_gas_dt@ + " , "@ + p.d_rho_liq_dt@ + " , "@ + p.rs@ + " , "@ + p.gas_viscosity@ == pre + join(a.take(10), " , "@)) by {
        assert((pre + join(a.take(9), " , "@)) + " , "@ + p.gas_viscosity@ =~= pre + (join(a.take(9), " , "@) + " , "@ + p.gas_viscosity@));
    }
    assert(a.take(11).drop_last() =~= a.take(10));
    assert(join(a.take(11), " , "@) == join(a.take(10), " , "@) + " , "@ + p.liquid_viscosity@);
    assert("PVTTABLE POINT = ( "@ + p.pressure@ + " , "@ + p.temperature@ + " , "@ + p.gas_density@ + " , "@ + p.liquid_density@ + " , "@ + p.d_rho_gas_dp@ + " , "@ + p.d_rho_liq_dp@ + " , "@ + p.d_rho_gas_dt@ + " , "@ + p.d_rho_liq_dt@ + " , "@ + p.rs@ + " , "@ + p.gas_viscosity@ + " , "@ + p.liquid_viscosity@ == pre + join(a.take(11), " , "@)) by {
        assert((pre + join(a.take(10), " , "@)) + " , "@ + p.liquid_viscosity@ =~= pre + (join(a.take(10), " , "@) + " , "@ + p.liquid_viscosity@));
    }
    assert(a.take(12).drop_last() =~= a.take(11));
    assert(join(a.take(12), " , "@) == join(a.take(11), " , "@) + " , "@ + p.gas_cp@);
    assert("PVTTABLE POINT = ( "@ + p.pressure@ + " , "@ + p.temperature@ + " , "@ + p.gas_density@ + " , "@ + p.liquid_density@ + " , "@ + p.d_rho_gas_dp@ + " , "@ + p.d_rho_liq_dp@ + " , "@ + p.d_rho_gas_dt@ + " , "@ + p.d_rho_liq_dt@ + " , "@ + p.rs@ + " , "@ + p.gas_viscosity@ + " , "@ + p.liquid_viscosity@ + " , "@ + p.gas_cp@ == pre + join(a.take(12), " , "@)) by {
        assert((pre + join(a.take(11), " , "@)) + " , "@ + p.gas_cp@ =~= pre + (join(a.take(11), " , "@) + " , "@ + p.gas_cp@));
    }
    assert(a.take(13).drop_last() =~= a.take(12));
    assert(join(a.take(13), " , "@) == join(a.take(12), " , "@) + " , "@ + p.liquid_cp@);
    assert("PVTTABLE POINT = ( "@ + p.pressure@ + " , "@ + p.temperature@ + " , "@ + p.gas_density@ + " , "@ + p.liquid_density@ + " , "@ + p.d_rho_gas_dp@ + " , "@ + p.d_rho_liq_dp@ + " , "@ + p.d_rho_gas_dt@ + " , "@ + p.d_rho_liq_dt@ + " , "@ + p.rs@ + " , "@ + p.gas_viscosity@ + " , "@ + p.liquid_viscosity@ + " , "@ + p.gas_cp@ + " , "@ + p.liquid_cp@ == pre + join(a.take(13), " , "@)) by {
        assert((pre + join(a.take(12), " , "@)) + " , "@ + p.liquid_cp@ =~= pre + (join(a.take(12), " , "@) + " , "@ + p.liquid_cp@));
    }
    assert(a.take(13) =~= a);
    let ja = join(a, " , "@);
    assert(b.take(1) =~= seq![p.gas_enthalpy@]);
    assert("PVTTABLE POINT = ( "@ + p.pressure@ + " , "@ + p.temperature@ + " , "@ + p.gas_density@ + " , "@ + p.liquid_density@ + " , "@ + p.d_rho_gas_dp@ + " , "@ + p.d_rho_liq_dp@ + " , "@ + p.d_rho_gas_dt@ + " , "@ + p.d_rho_liq_dt@ + " , "@ + p.rs@ + " , "@ + p.gas_viscosity@ + " , "@ + p.liquid_viscosity@ + " , "@ + p.gas_cp@ + " , "@ + p.liquid_cp@ + " ,   "@ + p.gas_enthalpy@ == (pre + ja + " ,   "@) + join(b.take(1), " , "@)) by {
        assert((pre + ja) + " ,   "@ + p.gas_enthalpy@ =~= (pre + ja + " ,   "@) + p.gas_enthalpy@);
    }
    assert(b.take(2).drop_last() =~= b.take(1));
    assert(join(b.take(2), " , "@) == join(b.take(1), " , "@) + " , "@ + p.liquid_enthalpy@);
    assert("PVTTABLE POINT = ( "@ + p.pressure@ + " , "@ + p.temperature@ + " , "@ + p.gas_density@ + " , "@ + p.liquid_density@ + " , "@ + p.d_rho_gas_dp@ + " , "@ + p.d_rho_liq_dp@ + " , "@ + p.d_rho_gas_dt@ + " , "@ + p.d_rho_liq_dt@ + " , "@ + p.rs@ + " , "@ + p.gas_viscosity@ + " , "@ + p.liquid_viscosity@ + " , "@ + p.gas_cp@ + " , "@ + p.liquid_cp@ + " ,   "@ + p.gas_enthalpy@ + " , "@ + p.liquid_enthalpy@ == (pre + ja + " ,   "@) + join(b.take(2), " , "@)) by {
        assert(((pre + ja + " ,   "@) + join(b.take(1), " , "@)) + " , "@ + p.liquid_enthalpy@ =~= (pre + ja + " ,   "@) + (join(b.take(1), " , "@) + " , "@ + p.liquid_enthalpy@));
    }
    assert(b.take(3).drop_last() =~= b.take(2));
    assert(join(b.take(3), " , "@) == join(b.take(2), " , "@) + " , "@ + p.gas_thermal_conductivity@);
    assert("PVTTABLE POINT = ( "@ + p.pressure@ + " , "@ + p.temperature@ + " , "@ + p.gas_density@ + " , "@ + p.liquid_density@ + " , "@ + p.d_rho_gas_dp@ + " , "@ + p.d_rho_liq_dp@ + " , "@ + p.d_rho_gas_dt@ + " , "@ + p.d_rho_liq_dt@ + " , "@ + p.rs@ + " , "@ + p.gas_viscosity@ + " , "@ + p.liquid_viscosity@ + " , "@ + p.gas_cp@ + " , "@ + p.liquid_cp@ + " ,   "@ + p.gas_enthalpy@ + " , "@ + p.liquid_enthalpy@ + " , "@ + p.gas_thermal_conductivity@ == (pre + ja + " ,   "@) + join(b.take(3), " , "@)) by {
        assert(((pre + ja + " ,   "@) + join(b.take(2), " , "@)) + " , "@ + p.gas_thermal_conductivity@ =~= (pre + ja + " ,   "@) + (join(b.take(2), " , "@) + " , "@ + p.gas_thermal_conductivity@));
    }
    assert(b.take(4).drop_last() =~= b.take(3));
    assert(join(b.take(4), " , "@) == join(b.take(3), " , "@) + " , "@ + p.liquid_thermal_conductivity@);
    assert("PVTTABLE POINT = ( "@ + p.pressure@ + " , "@ + p.temperature@ + " , "@ + p.gas_density@ + " , "@ + p.liquid_density@ + " , "@ + p.d_rho_gas_dp@ + " , "@ + p.d_rho_liq_dp@ + " , "@ + p.d_rho_gas_dt@ + " , "@ + p.d_rho_liq_dt@ + " , "@ + p.rs@ + " , "@ + p.gas_viscosity@ + " , "@ + p.liquid_viscosity@ + " , "@ + p.gas_cp@ + " , "@ + p.liquid_cp@ + " ,   "@ + p.gas_enthalpy@ + " , "@ + p.liquid_enthalpy@ + " , "@ + p.gas_thermal_conductivity@ + " , "@ + p.liquid_thermal_conductivity@ == (pre + ja + " ,   "@) + join(b.take(4), " , "@)) by {
        assert(((pre + ja + " ,   "@) + join(b.take(3), " , "@)) + " , "@ + p.liquid_thermal_conductivity@ =~= (pre + ja + " ,   "@) + (join(b.take(3), " , "@) + " , "@ + p.liquid_thermal_conductivity@));
    }
    assert(b.take(5).drop_last() =~= b.take(4));
    assert(join(b.take(5), " , "@) == join(b.take(4), " , "@) + " , "@ + p.surface_tension@);
    assert("PVTTABLE POINT = ( "@ + p.pressure@ + " , "@ + p.temperature@ + " , "@ + p.gas_density@ + " , "@ + p.liquid_density@ + " , "@ + p.d_rho_gas_dp@ + " , "@ + p.d_rho_liq_dp@ + " , "@ + p.d_rho_gas_dt@ + " , "@ + p.d_rho_liq_dt@ + " , "@ + p.rs@ + " , "@ + p.gas_viscosity@ + " , "@ + p.liquid_viscosity@ + " , "@ + p.gas_cp@ + " , "@ + p.liquid_cp@ + " ,   "@ + p.gas_enthalpy@ + " , "@ + p.liquid_enthalpy@ + " , "@ + p.gas_thermal_conductivity@ + " , "@ + p.liquid_thermal_conductivity@ + " , "@ + p.surface_tension@ == (pre + ja + " ,   "@) + join(b.take(5), " , "@)) by {
        assert(((pre + ja + " ,   "@) + join(b.take(4), " , "@)) + " , "@ + p.surface_tension@ =~= (pre + ja + " ,   "@) + (join(b.take(4), " , "@) + " , "@ + p.surface_tension@));
    }
    assert(b.take(6).drop_last() =~= b.take(5));
    assert(join(b.take(6), " , "@) == join(b.take(5), " , "@) + " , "@ + p.gas_entropy@);
    assert("PVTTABLE POINT = ( "@ + p.pressure@ + " , "@ + p.temperature@ + " , "@ + p.gas_density@ + " , "@ + p.liquid_density@ + " , "@ + p.d_rho_gas_dp@ + " , "@ + p.d_rho_liq_dp@ + " , "@ + p.d_rho_gas_dt@ + " , "@ + p.d_rho_liq_dt@ + " , "@ + p.rs@ + " , "@ + p.gas_viscosity@ + " , "@ + p.liquid_viscosity@ + " , "@ + p.gas_cp@ + " , "@ + p.liquid_cp@ + " ,   "@ + p.gas_enthalpy@ + " , "@ + p.liquid_enthalpy@ + " , "@ + p.gas_thermal_conductivity@ + " , "@ + p.liquid_thermal_conductivity@ + " , "@ + p.surface_tension@ + " , "@ + p.gas_entropy@ == (pre + ja + " ,   "@) + join(b.take(6), " , "@)) by {
        assert(((pre + ja + " ,   "@) + join(b.take(5), " , "@)) + " , "@ + p.gas_entropy@ =~= (pre + ja + " ,   "@) + (join(b.take(5), " , "@) + " , "@ + p.gas_entropy@));
    }
    assert(b.take(7).drop_last() =~= b.take(6));
    assert(join(b.take(7), " , "@) == join(b.take(6), " , "@) + " , "@ + p.liquid_entropy@);
    assert("PVTTABLE POINT = ( "@ + p.pressure@ + " , "@ + p.temperature@ + " , "@ + p.gas_density@ + " , "@ + p.liquid_density@ + " , "@ + p.d_rho_gas_dp@ + " , "@ + p.d_rho_liq_dp@ + " , "@ + p.d_rho_gas_dt@ + " , "@ + p.d_rho_liq_dt@ + " , "@ + p.rs@ + " , "@ + p.gas_viscosity@ + " , "@ + p.liquid_viscosity@ + " , "@ + p.gas_cp@ + " , "@ + p.liquid_cp@ + " ,   "@ + p.gas_enthalpy@ + " , "@ + p.liquid_enthalpy@ + " , "@ + p.gas_thermal_conductivity@ + " , "@ + p.liquid_thermal_conductivity@ + " , "@ + p.surface_tension@ + " , "@ + p.gas_entropy@ + " , "@ + p.liquid_entropy@ == (pre + ja + " ,   "@) + join(b.take(7), " , "@)) by {
        assert(((pre + ja + " ,   "@) + join(b.take(6), " , "@)) + " , "@ + p.liquid_entropy@ =~= (pre + ja + " ,   "@) + (join(b.take(6), " , "@) + " , "@ + p.liquid_entropy@));
    }
    assert(b.take(7) =~= b);
    assert(point_line(p) == "PVTTABLE POINT = ( "@ + p.pressure@ + " , "@ + p.temperature@ + " , "@ + p.gas_density@ + " , "@ + p.liquid_density@ + " , "@ + p.d_rho_gas_dp@ + " , "@ + p.d_rho_liq_dp@ + " , "@ + p.d_rho_gas_dt@ + " , "@ + p.d_rho_liq_dt@ + " , "@ + p.rs@ + " , "@ + p.gas_viscosity@ + " , "@ + p.liquid_viscosity@ + " , "@ + p.gas_cp@ + " , "@ + p.liquid_cp@ + " ,   "@ + p.gas_enthalpy@ + " , "@ + p.liquid_enthalpy@ + " , "@ + p.gas_thermal_conductivity@ + " , "@ + p.liquid_thermal_conductivity@ + " , "@ + p.surface_tension@ + " , "@ + p.gas_entropy@ + " , "@ + p.liquid_entropy@ + " )\n"@);
}

/// The two critical point lines.
pub open spec fn critical_text(c: CriticalPointText) -> Seq<char> {
    "CRITICALPRESSURE = ( "@ + c.pressure@ + " ) PA, \\\n"@ + "CRITICALTEMPERATURE = ( "@
        + c.temperature@ + " ) C, \\\n"@
}

/// The `PVTTABLE POINT` line of one point.
pub open spec fn point_line(p: PointText) -> Seq<char> {
    "PVTTABLE POINT = ( "@ + p.pressure@ + " , "@ + p.temperature@ + " , "@ + p.gas_density@ + " , "@ + p.liquid_density@ + " , "@ + p.d_rho_gas_dp@ + " , "@ + p.d_rho_liq_dp@ + " , "@ + p.d_rho_gas_dt@ + " , "@ + p.d_rho_liq_dt@ + " , "@ + p.rs@ + " , "@ + p.gas_viscosity@ + " , "@ + p.liquid_viscosity@ + " , "@ + p.gas_cp@ + " , "@ + p.liquid_cp@ + " ,   "@ + p.gas_enthalpy@ + " , "@ + p.liquid_enthalpy@ + " , "@ + p.gas_thermal_conductivity@ + " , "@ + p.liquid_thermal_conductivity@ + " , "@ + p.surface_tension@ + " , "@ + p.gas_entropy@ + " , "@ + p.liquid_entropy@ + " )\n"@
}


/// The twenty column texts of a point, in column order.
pub open spec fn point_fields(p: PointText) -> Seq<Seq<char>> {
    seq![
        p.pressure@,
        p.temperature@,
        p.gas_density@,
        p.liquid_density@,
        p.d_rho_gas_dp@,
        p.d_rho_liq_dp@,
        p.d_rho_gas_dt@,
        p.d_rho_liq_dt@,
        p.rs@,
        p.gas_viscosity@,
        p.liquid_viscosity@,
        p.gas_cp@,
        p.liquid_cp@,
        p.gas_enthalpy@,
        p.liquid_enthalpy@,
        p.gas_thermal_conductivity@,
        p.liquid_thermal_conductivity@,
        p.surface_tension@,
        p.gas_entropy@,
        p.liquid_entropy@,
    ]
}

/// Whether no column text of a point holds the character `c`.
pub open spec fn point_free_of(p: PointText, c: char) -> bool {
    forall|k: int| 0 <= k < 20 ==> count_char(#[trigger] point_fields(p)[k], c) == 0
}

proof fn lemma_separator_counts()
    ensures
        count_char(" , "@, ',') == 1,
        count_char(" ,   "@, ',') == 1,
        count_char(" , "@, '\n') == 0,
        count_char(" ,   "@, '\n') == 0,
        count_char(" )\n"@, ',') == 0,
        count_char(" )\n"@, '\n') == 1,
{
    reveal_strlit(" )\n");
    reveal_strlit(" , ");
    reveal_strlit(" ,   ");
    reveal_with_fuel(count_char, 6);
}

proof fn lemma_point_prefix_counts()
    ensures
        count_char("PVTTABLE POINT = ( "@, ',') == 0,
        count_char("PVTTABLE POINT = ( "@, '\n') == 0,
{
    reveal_strlit("PVTTABLE POINT = ( ");
    let s = "PVTTABLE POINT = ( "@;
    assert forall|k: nat| k <= s.len() implies count_char(#[trigger] s.take(k as int), ',') == 0
        && count_char(s.take(k as int), '\n') == 0 by {
        lemma_prefix_counts_zero(s, k);
    }
    assert(s.take(s.len() as int) =~= s);
}

proof fn lemma_prefix_counts_zero(s: Seq<char>, k: nat)
    requires
        k <= s.len(),
        forall|i: int| 0 <= i < s.len() ==> s[i] != ',' && s[i] != '\n',
    ensures
        count_char(s.take(k as int), ',') == 0,
        count_char(s.take(k as int), '\n') == 0,
    decreases k,
{
    if k > 0 {
        lemma_prefix_counts_zero(s, (k - 1) as nat);
        assert(s.take(k as int).drop_last() =~= s.take(k - 1));
    }
}

/// A point line ends with its closing bracket and a newline; when no column
/// text holds a comma it has exactly 19 commas, so 20 comma-separated values,
/// and when no column text holds a newline it is exactly one line.
pub proof fn lemma_point_line_shape(p: PointText)
    ensures
        point_line(p).len() >= 3,
        point_line(p).subrange(point_line(p).len() - 3, point_line(p).len() as int) == " )\n"@,
        point_free_of(p, ',') ==> count_char(point_line(p), ',') == 19,
        point_free_of(p, '\n') ==> count_char(point_line(p), '\n') == 1,
{
    broadcast use lemma_count_char_concat;

    lemma_separator_counts();
    lemma_point_prefix_counts();
    reveal_strlit(" )\n");
    let fs = point_fields(p);
    assert(point_line(p).subrange(point_line(p).len() - 3, point_line(p).len() as int) =~= " )\n"@);
    if point_free_of(p, ',') {
        assert(count_char(p.pressure@, ',') == 0) by { assert(fs[0] == p.pressure@); }
        assert(count_char(p.temperature@, ',') == 0) by { assert(fs[1] == p.temperature@); }
        assert(count_char(p.gas_density@, ',') == 0) by { assert(fs[2] == p.gas_density@); }
        assert(count_char(p.liquid_density@, ',') == 0) by { assert(fs[3] == p.liquid_density@); }
        assert(count_char(p.d_rho_gas_dp@, ',') == 0) by { assert(fs[4] == p.d_rho_gas_dp@); }
        assert(count_char(p.d_rho_liq_dp@, ',') == 0) by { assert(fs[5] == p.d_rho_liq_dp@); }
        assert(count_char(p.d_rho_gas_dt@, ',') == 0) by { assert(fs[6] == p.d_rho_gas_dt@); }
        assert(count_char(p.d_rho_liq_dt@, ',') == 0) by { assert(fs[7] == p.d_rho_liq_dt@); }
        assert(count_char(p.rs@, ',') == 0) by { assert(fs[8] == p.rs@); }
        assert(count_char(p.gas_viscosity@, ',') == 0) by { assert(fs[9] == p.gas_viscosity@); }
        assert(count_char(p.liquid_viscosity@, ',') == 0) by { assert(fs[10] == p.liquid_viscosity@); }
        assert(count_char(p.gas_cp@, ',') == 0) by { assert(fs[11] == p.gas_cp@); }
        assert(count_char(p.liquid_cp@, ',') == 0) by { assert(fs[12] == p.liquid_cp@); }
        assert(count_char(p.gas_enthalpy@, ',') == 0) by { assert(fs[13] == p.gas_enthalpy@); }
        assert(count_char(p.liquid_enthalpy@, ',') == 0) by { assert(fs[14] == p.liquid_enthalpy@); }
        assert(count_char(p.gas_thermal_conductivity@, ',') == 0) by { assert(fs[15] == p.gas_thermal_conductivity@); }
        assert(count_char(p.liquid_thermal_conductivity@, ',') == 0) by { assert(fs[16] == p.liquid_thermal_conductivity@); }
        assert(count_char(p.surface_tension@, ',') == 0) by { assert(fs[17] == p.surface_tension@); }
        assert(count_char(p.gas_entropy@, ',') == 0) by { assert(fs[18] == p.gas_entropy@); }
        assert(count_char(p.liquid_entropy@, ',') == 0) by { assert(fs[19] == p.liquid_entropy@); }
    }
    if point_free_of(p, '\n') {
        assert(count_char(p.pressure@, '\n') == 0) by { assert(fs[0] == p.pressure@); }
        assert(count_char(p.temperature@, '\n') == 0) by { assert(fs[1] == p.temperature@); }
        assert(count_char(p.gas_density@, '\n') == 0) by { assert(fs[2] == p.gas_density@); }
        assert(count_char(p.liquid_density@, '\n') == 0) by { assert(fs[3] == p.liquid_density@); }
        assert(count_char(p.d_rho_gas_dp@, '\n') == 0) by { assert(fs[4] == p.d_rho_gas_dp@); }
        assert(count_char(p.d_rho_liq_dp@, '\n') == 0) by { assert(fs[5] == p.d_rho_liq_dp@); }
        assert(count_char(p.d_rho_gas_dt@, '\n') == 0) by { assert(fs[6] == p.d_rho_gas_dt@); }
        assert(count_char(p.d_rho_liq_dt@, '\n') == 0) by { assert(fs[7] == p.d_rho_liq_dt@); }
        assert(count_char(p.rs@, '\n') == 0) by { assert(fs[8] == p.rs@); }
        assert(count_char(p.gas_viscosity@, '\n') == 0) by { assert(fs[9] == p.gas_viscosity@); }
        assert(count_char(p.liquid_viscosity@, '\n') == 0) by { assert(fs[10] == p.liquid_viscosity@); }
        assert(count_char(p.gas_cp@, '\n') == 0) by { assert(fs[11] == p.gas_cp@); }
        assert(count_char(p.liquid_cp@, '\n') == 0) by { assert(fs[12] == p.liquid_cp@); }
        assert(count_char(p.gas_enthalpy@, '\n') == 0) by { assert(fs[13] == p.gas_enthalpy@); }
        assert(count_char(p.liquid_enthalpy@, '\n') == 0) by { assert(fs[14] == p.liquid_enthalpy@); }
        assert(count_char(p.gas_thermal_conductivity@, '\n') == 0) by { assert(fs[15] == p.gas_thermal_conductivity@); }
        assert(count_char(p.liquid_thermal_conductivity@, '\n') == 0) by { assert(fs[16] == p.liquid_thermal_conductivity@); }
        assert(count_char(p.surface_tension@, '\n') == 0) by { assert(fs[17] == p.surface_tension@); }
        assert(count_char(p.gas_entropy@, '\n') == 0) by { assert(fs[18] == p.gas_entropy@); }
        assert(count_char(p.liquid_entropy@, '\n') == 0) by { assert(fs[19] == p.liquid_entropy@); }
    }
}

/// The point lines, one per point, in order.
pub open spec fn points_text(ps: Seq<PointText>) -> Seq<char>
    decreases ps.len(),
{
    if ps.len() == 0 {
        Seq::empty()
    } else {
        points_text(ps.drop_last()) + point_line(ps.last())
    }
}

/// The block of point lines holds one line per point: when no column text
/// of any point holds a newline, it has exactly as many newlines as points,
/// and when none holds a comma, exactly 19 commas per point.
pub proof fn lemma_points_text_lines(ps: Seq<PointText>)
    ensures
        (forall|k: int| 0 <= k < ps.len() ==> point_free_of(#[trigger] ps[k], '\n')) ==> count_char(
            points_text(ps),
            '\n',
        ) == ps.len(),
        (forall|k: int| 0 <= k < ps.len() ==> point_free_of(#[trigger] ps[k], ',')) ==> count_char(
            points_text(ps),
            ',',
        ) == 19 * ps.len(),
    decreases ps.len(),
{
    if ps.len() > 0 {
        let init = ps.drop_last();
        lemma_points_text_lines(init);
        lemma_point_line_shape(ps.last());
        lemma_count_char_concat(points_text(init), point_line(ps.last()), '\n');
        lemma_count_char_concat(points_text(init), point_line(ps.last()), ',');
        if forall|k: int| 0 <= k < ps.len() ==> point_free_of(#[trigger] ps[k], '\n') {
            assert forall|k: int| 0 <= k < init.len() implies point_free_of(#[trigger] init[k], '\n') by {
                assert(init[k] == ps[k]);
            }
            assert(point_free_of(ps[ps.len() - 1], '\n'));
        }
        if forall|k: int| 0 <= k < ps.len() ==> point_free_of(#[trigger] ps[k], ',') {
            assert forall|k: int| 0 <= k < init.len() implies point_free_of(#[trigger] init[k], ',') by {
                assert(init[k] == ps[k]);
            }
            assert(point_free_of(ps[ps.len() - 1], ','));
        }
    }
}

/// The value of a sequence of decimal digits, most significant first.
pub open spec fn decimal_value(ds: Seq<char>) -> int
    decreases ds.len(),
{
    if ds.len() == 0 {
        0
    } else {
        decimal_value(ds.drop_last()) * 10 + (ds.last() as int - 48)
    }
}

pub open spec fn pow10(k: nat) -> nat
    decreases k,
{
    if k == 0 {
        1
    } else {
        10 * pow10((k - 1) as nat)
    }
}

/// The padded digits of a number below `10^k` are `k` decimal digits whose
/// value is the number itself.
pub proof fn lemma_padded_digits_value(v: nat, k: nat)
    requires
        v < pow10(k),
    ensures
        padded_digits(v, k).len() == k,
        forall|i: int| 0 <= i < k ==> '0' <= #[trigger] padded_digits(v, k)[i] <= '9',
        decimal_value(padded_digits(v, k)) == v,
    decreases k,
{
    if k > 0 {
        let p = pow10((k - 1) as nat);
        assert(v / 10 < p) by (nonlinear_arith)
            requires
                v < 10 * p,
        ;
        lemma_padded_digits_value(v / 10, (k - 1) as nat);
        let ds = padded_digits(v, k);
        assert(ds.drop_last() =~= padded_digits(v / 10, (k - 1) as nat));
        let d = v % 10;
        assert(ds.last() == digit_char(d));
        assert(digit_char(d) as int == 48 + d);
        assert(forall|i: int| 0 <= i < k - 1 ==> ds[i] == padded_digits(v / 10, (k - 1) as nat)[i]);
    }
}

/// The molar mass written for a component is `0.` and nine digits whose
/// value, in units of 1e-9 kg/mol, is exactly the tabulated molar mass.
pub proof fn lemma_molecular_weight_text_value(name: Seq<char>)
    ensures
        molecular_weight_text(name) == "0."@ + padded_digits(
            molecular_weight_nano(aga8_index_of(name)) as nat,
            9,
        ),
        padded_digits(molecular_weight_nano(aga8_index_of(name)) as nat, 9).len() == 9,
        decimal_value(padded_digits(molecular_weight_nano(aga8_index_of(name)) as nat, 9))
            == molecular_weight_nano(aga8_index_of(name)),
{
    reveal_with_fuel(pow10, 10);
    lemma_padded_digits_value(molecular_weight_nano(aga8_index_of(name)) as nat, 9);
}

/// The whole tab file.
pub open spec fn tab_file_text(
    composition: CompositionText,
    critical: CriticalPointText,
    bounds: PhaseBoundaryText,
    pressure_grid: Seq<String>,
    temperature_grid: Seq<String>,
    points: Seq<PointText>,
    eos: EquationOfState,
) -> Seq<char> {
    let components = texts(composition.components@);
    header_text(components, eos) + list_line_text("MOLES"@, texts(composition.mole_fractions@))
        + list_line_text("MOLWEIGHT"@, molecular_weight_texts(components))
        + standard_conditions_text() + array_text("PRESSURE"@, texts(pressure_grid), "PA"@)
        + array_text("TEMPERATURE"@, texts(temperature_grid), "C"@) + array_text(
        "BUBBLEPRESSURES"@,
        texts(bounds.bubble_pressures@),
        "PA"@,
    ) + array_text("BUBBLETEMPERATURES"@, texts(bounds.bubble_temperatures@), "C"@) + array_text(
        "DEWPRESSURES"@,
        texts(bounds.dew_pressures@),
        "PA"@,
    ) + array_text("DEWTEMPERATURES"@, texts(bounds.dew_temperatures@), "C"@) + critical_text(
        critical,
    ) + columns_text() + points_text(points)
}

/// A line length counted up to one byte past the width: every decision of
/// the wrapping only asks whether a length exceeds 80 bytes.
pub open spec fn clamp_width_spec(c: nat) -> nat {
    if c > 81 {
        81
    } else {
        c
    }
}

fn clamp_width(c: usize) -> (r: usize)
    ensures
        r == clamp_width_spec(c as nat),
{
    if c > 81 {
        81
    } else {
        c
    }
}

/// Writes a `NAME = ( a , b , c ), \` line.
pub fn list_line(name: &str, items: &Vec<String>) -> (r: String)
    ensures
        r@ == list_line_text(name@, texts(items@)),
{
    let mut r = String::from_str(name);
    r.append(" = ( ");
    let joined = join_strings(items, " , ");
    r.append(joined.as_str());
    r.append(" ), \\\n");
    r
}

/// Writes the first lines of the file: label, comment block, components.
pub fn header_lines(components: &Vec<String>, eos: &EquationOfState) -> (r: String)
    ensures
        r@ == header_text(texts(components@), *eos),
{
    let component_list = join_strings(components, " , ");
    let eos_label: &str = match eos {
        EquationOfState::Gerg2008 => "GERG2008",
        EquationOfState::Aga8Detail => "AGA8_DETAIL",
    };
    let eos_name: &str = match eos {
        EquationOfState::Gerg2008 => "GERG-2008",
        EquationOfState::Aga8Detail => "AGA8 DETAIL",
    };
    let mut r = String::from_str("PVTTABLE LABEL = ");
    r.append(eos_label);
    r.append("_");
    let label_tail = replace_spaces(component_list.as_str());
    r.append(label_tail.as_str());
    r.append(" ,  PHASE = TWO, \\\n");
    r.append("!\n");
    r.append("! Multiflash Version 7.4.08     May 2023\n");
    r.append("!\n");
    r.append("! EOS:  ");
    r.append(eos_name);
    r.append("                                                                          !\n");
    r.append("!\n");
    let comp_line = list_line("COMPONENTS", components);
    r.append(comp_line.as_str());
    r
}

/// Molar mass of an AGA8 slot in units of 1e-9 kg/mol (air for `None`).
pub fn molecular_weight_of_slot(slot: Option<usize>) -> (w: u64)
    ensures
        w == molecular_weight_nano(slot),
        w < 1_000_000_000,
{
    match slot {
        Some(0) => 16043000,
        Some(1) => 28013400,
        Some(2) => 44009800,
        Some(3) => 30069600,
        Some(4) => 44095600,
        Some(5) => 58122200,
        Some(6) => 58122200,
        Some(7) => 72148800,
        Some(8) => 72148800,
        Some(9) => 86175400,
        Some(10) => 100201900,
        Some(11) => 114228500,
        Some(12) => 128255100,
        Some(13) => 142281700,
        Some(14) => 2015880,
        Some(15) => 31998800,
        Some(16) => 28010100,
        Some(17) => 18015280,
        Some(18) => 34080900,
        Some(19) => 4002602,
        Some(20) => 39948000,
        _ => 28970000,
    }
}

/// The text of one decimal digit.
fn digit_text(d: u64) -> (r: &'static str)
    requires
        d < 10,
    ensures
        r@ == seq![digit_char(d as nat)],
{
    match d {
        0 => {
            proof { reveal_strlit("0"); }
            "0"
        },
        1 => {
            proof { reveal_strlit("1"); }
            "1"
        },
        2 => {
            proof { reveal_strlit("2"); }
            "2"
        },
        3 => {
            proof { reveal_strlit("3"); }
            "3"
        },
        4 => {
            proof { reveal_strlit("4"); }
            "4"
        },
        5 => {
            proof { reveal_strlit("5"); }
            "5"
        },
        6 => {
            proof { reveal_strlit("6"); }
            "6"
        },
        7 => {
            proof { reveal_strlit("7"); }
            "7"
        },
        8 => {
            proof { reveal_strlit("8"); }
            "8"
        },
        _ => {
            proof { reveal_strlit("9"); }
            "9"
        },
    }
}

/// Writes `v / 1e9` with nine decimals.
pub fn nano_fraction(v: u64) -> (r: String)
    requires
        v < 1_000_000_000,
    ensures
        r@ == nano_fraction_text(v as nat),
{
    // Collect the nine digits from the least significant one on.
    let mut ds: Vec<u64> = Vec::new();
    let mut rest: u64 = v;
    let mut t: usize = 0;
    while t < 9
        invariant
            t <= 9,
            ds@.len() == t,
            forall|k: int| 0 <= k < t ==> ds@[k] < 10,
            padded_digits(v as nat, 9) == padded_digits(rest as nat, (9 - t) as nat) + Seq::new(
                t as nat,
                |k: int| digit_char(ds@[t - 1 - k] as nat),
            ),
        decreases 9 - t,
    {
        let ghost old_ds = ds@;
        let ghost old_rest = rest;
        let d = rest % 10;
        ds.push(d);
        rest = rest / 10;
        let ghost m = (9 - t) as nat;
        assert(padded_digits(old_rest as nat, m) == padded_digits(rest as nat, (m - 1) as nat).push(
            digit_char(d as nat),
        ));
        assert(Seq::new((t + 1) as nat, |k: int| digit_char(ds@[t - k] as nat)) =~= seq![
            digit_char(d as nat),
        ] + Seq::new(t as nat, |k: int| digit_char(old_ds[t - 1 - k] as nat)));
        assert(padded_digits(rest as nat, (m - 1) as nat).push(digit_char(d as nat)) + Seq::new(
            t as nat,
            |k: int| digit_char(old_ds[t - 1 - k] as nat),
        ) =~= padded_digits(rest as nat, (m - 1) as nat) + (seq![digit_char(d as nat)] + Seq::new(
            t as nat,
            |k: int| digit_char(old_ds[t - 1 - k] as nat),
        )));
        t = t + 1;
    }
    assert(padded_digits(rest as nat, 0) =~= Seq::<char>::empty());
    let ghost digits = Seq::new(9, |k: int| digit_char(ds@[8 - k] as nat));
    assert(padded_digits(v as nat, 9) =~= digits);
    let mut r = String::from_str("0.");
    proof { reveal_strlit("0."); }
    let mut k: usize = 0;
    while k < 9
        invariant
            k <= 9,
            ds@.len() == 9,
            forall|j: int| 0 <= j < 9 ==> ds@[j] < 10,
            digits == Seq::new(9, |j: int| digit_char(ds@[8 - j] as nat)),
            r@ == "0."@ + digits.take(k as int),
        decreases 9 - k,
    {
        let dt = digit_text(ds[8 - k]);
        r.append(dt);
        assert(digits.take((k + 1) as int) =~= digits.take(k as int) + seq![digits[k as int]]);
        k = k + 1;
    }
    assert(digits.take(9) =~= digits);
    r
}

/// Writes the molar mass of a component.
pub fn molecular_weight(name: &str) -> (r: String)
    ensures
        r@ == molecular_weight_text(name@),
        is_ascii_chars(name@) ==> r@ == nano_fraction_text(
            molecular_weight_nano(aga8_index_of_upper(ascii_uppercase(name@))) as nat,
        ),
{
    let upper = to_uppercase(name);
    let slot = aga8_index_from_uppercase(upper.as_str());
    let w = molecular_weight_of_slot(slot);
    nano_fraction(w)
}

/// Writes the molar mass of each component, in order.
pub fn molecular_weights(components: &Vec<String>) -> (r: Vec<String>)
    ensures
        texts(r@) == molecular_weight_texts(texts(components@)),
{
    let mut r: Vec<String> = Vec::new();
    let mut i: usize = 0;
    while i < components.len()
        invariant
            i <= components@.len(),
            r@.len() == i,
            forall|k: int| 0 <= k < i ==> (#[trigger] r@[k])@ == molecular_weight_text(components@[k]@),
        decreases components.len() - i,
    {
        let w = molecular_weight(components[i].as_str());
        r.push(w);
        i = i + 1;
    }
    assert(texts(r@) =~= molecular_weight_texts(texts(components@)));
    r
}

/// Writes the two critical point lines.
pub fn critical_lines(c: &CriticalPointText) -> (r: String)
    ensures
        r@ == critical_text(*c),
{
    let mut r = String::from_str("CRITICALPRESSURE = ( ");
    r.append(c.pressure.as_str());
    r.append(" ) PA, \\\n");
    r.append("CRITICALTEMPERATURE = ( ");
    r.append(c.temperature.as_str());
    r.append(" ) C, \\\n");
    r
}

/// One more point adds exactly its line at the end of the file; nothing
/// before it changes.
pub proof fn lemma_tab_file_push_point(
    composition: CompositionText,
    critical: CriticalPointText,
    bounds: PhaseBoundaryText,
    pressure_grid: Seq<String>,
    temperature_grid: Seq<String>,
    points: Seq<PointText>,
    p: PointText,
    eos: EquationOfState,
)
    ensures
        tab_file_text(composition, critical, bounds, pressure_grid, temperature_grid, points.push(p), eos)
            == tab_file_text(composition, critical, bounds, pressure_grid, temperature_grid, points, eos)
            + point_line(p),
{
    assert(points.push(p).drop_last() =~= points);
    let all = tab_file_text(composition, critical, bounds, pressure_grid, temperature_grid, points.push(p), eos);
    let before = tab_file_text(composition, critical, bounds, pressure_grid, temperature_grid, points, eos);
    let head = before.subrange(0, before.len() - points_text(points).len());
    assert(before =~= head + points_text(points));
    assert(all =~= head + (points_text(points) + point_line(p)));
    assert(all =~= before + point_line(p));
}

/// Molar mass of each component in units of 1e-9 kg/mol, slot by slot.
pub open spec fn component_molar_mass_nano(slot: usize) -> u64 {
    match slot {
        0 => 16043000,
        1 => 28013400,
        2 => 44009800,
        3 => 30069600,
        4 => 44095600,
        5 => 58122200,
        6 => 58122200,
        7 => 72148800,
        8 => 72148800,
        9 => 86175400,
        10 => 100201900,
        11 => 114228500,
        12 => 128255100,
        13 => 142281700,
        14 => 2015880,
        15 => 31998800,
        16 => 28010100,
        17 => 18015280,
        18 => 34080900,
        19 => 4002602,
        _ => 39948000,
    }
}

/// Molar mass of air in units of 1e-9 kg/mol.
pub open spec fn air_molar_mass_nano() -> u64 {
    28970000
}

/// Every formula and name of a component weighs that component's molar
/// mass, so a formula and the names of its component weigh the same; a name
/// outside the component table weighs as air.
pub proof fn lemma_component_weights(u: Seq<char>)
    ensures
        forall|s: usize, k: int|
            s < AGA8_SLOTS && 0 <= k < component_names(s).len() ==> molecular_weight_nano(
                aga8_index_of_upper(#[trigger] component_names(s)[k]),
            ) == component_molar_mass_nano(s),
        (forall|s: usize| s < AGA8_SLOTS ==> !(#[trigger] component_names(s)).contains(u))
            ==> molecular_weight_nano(aga8_index_of_upper(u)) == air_molar_mass_nano(),
{
    lemma_component_names_address_their_slot();
    lemma_only_component_names_address_slots(u);
    assert forall|s: usize, k: int|
        s < AGA8_SLOTS && 0 <= k < component_names(s).len() implies molecular_weight_nano(
            aga8_index_of_upper(#[trigger] component_names(s)[k]),
        ) == component_molar_mass_nano(s) by {
        assert(aga8_index_of_upper(component_names(s)[k]) == Some(s));
    }
}

/// The molar masses are written one per component, in order.
pub proof fn lemma_molecular_weight_texts(components: Seq<Seq<char>>)
    ensures
        molecular_weight_texts(components).len() == components.len(),
        forall|k: int|
            0 <= k < components.len() ==> #[trigger] molecular_weight_texts(components)[k]
                == molecular_weight_text(components[k]),
{
}

/// A list line holds every item in order: with no item it is empty between
/// its brackets, with one item it holds just that item, and one more item
/// adds a separator and the item before the closing bracket.
pub proof fn lemma_list_line_items(name: Seq<char>, items: Seq<Seq<char>>, x: Seq<char>)
    ensures
        list_line_text(name, Seq::empty()) == name + " = (  ), \\\n"@,
        list_line_text(name, seq![x]) == name + " = ( "@ + x + " ), \\\n"@,
        items.len() >= 1 ==> list_line_text(name, items.push(x)) == list_line_text(name, items).subrange(
            0,
            list_line_text(name, items).len() - 6,
        ) + " , "@ + x + " ), \\\n"@,
{
    reveal_strlit(" = ( ");
    reveal_strlit(" ), \\\n");
    reveal_strlit(" = (  ), \\\n");
    assert(list_line_text(name, Seq::empty()) =~= name + " = (  ), \\\n"@);
    assert(seq![x].len() == 1);
    assert(list_line_text(name, seq![x]) =~= name + " = ( "@ + x + " ), \\\n"@);
    if items.len() >= 1 {
        let line = list_line_text(name, items);
        let body = name + " = ( "@ + join(items, " , "@);
        assert(line == body + " ), \\\n"@);
        assert(line.subrange(0, line.len() - 6) =~= body);
        assert(items.push(x).drop_last() =~= items);
        assert(join(items.push(x), " , "@) == join(items, " , "@) + " , "@ + x);
        assert(list_line_text(name, items.push(x)) =~= body + " , "@ + x + " ), \\\n"@);
    }
}

/// The file opens with the header, whose last line lists the components,
/// then the MOLES line of the mole fractions and the MOLWEIGHT line of the
/// components' molar masses; it ends with the six named arrays, each of the
/// data set's field of that name, in the order PRESSURE, TEMPERATURE,
/// BUBBLEPRESSURES, BUBBLETEMPERATURES, DEWPRESSURES, DEWTEMPERATURES, then
/// the critical point, the columns and the point lines.
pub proof fn lemma_tab_file_sections(
    composition: CompositionText,
    critical: CriticalPointText,
    bounds: PhaseBoundaryText,
    pressure_grid: Seq<String>,
    temperature_grid: Seq<String>,
    points: Seq<PointText>,
    eos: EquationOfState,
)
    ensures
        exists|label: Seq<char>|
            header_text(texts(composition.components@), eos) == label + list_line_text(
                "COMPONENTS"@,
                texts(composition.components@),
            ),
        exists|rest: Seq<char>|
            tab_file_text(composition, critical, bounds, pressure_grid, temperature_grid, points, eos)
                == header_text(texts(composition.components@), eos) + list_line_text(
                "MOLES"@,
                texts(composition.mole_fractions@),
            ) + list_line_text("MOLWEIGHT"@, molecular_weight_texts(texts(composition.components@)))
                + rest,
        exists|head: Seq<char>|
            tab_file_text(composition, critical, bounds, pressure_grid, temperature_grid, points, eos)
                == head + array_text("PRESSURE"@, texts(pressure_grid), "PA"@) + array_text(
                "TEMPERATURE"@,
                texts(temperature_grid),
                "C"@,
            ) + array_text("BUBBLEPRESSURES"@, texts(bounds.bubble_pressures@), "PA"@) + array_text(
                "BUBBLETEMPERATURES"@,
                texts(bounds.bubble_temperatures@),
                "C"@,
            ) + array_text("DEWPRESSURES"@, texts(bounds.dew_pressures@), "PA"@) + array_text(
                "DEWTEMPERATURES"@,
                texts(bounds.dew_temperatures@),
                "C"@,
            ) + critical_text(critical) + columns_text() + points_text(points),
{
    let components = texts(composition.components@);
    let h = header_text(components, eos);
    let m = list_line_text("MOLES"@, texts(composition.mole_fractions@));
    let w = list_line_text("MOLWEIGHT"@, molecular_weight_texts(components));
    let label = "PVTTABLE LABEL = "@ + eos_table_label(eos) + "_"@ + underscore_spaces(
        join(components, " , "@),
    ) + " ,  PHASE = TWO, \\\n"@ + "!\n"@ + "! Multiflash Version 7.4.08     May 2023\n"@ + "!\n"@
        + "! EOS:  "@ + eos_name(eos) + "                                                                          !\n"@ + "!\n"@;
    assert(h == label + list_line_text("COMPONENTS"@, components));
    let total = tab_file_text(composition, critical, bounds, pressure_grid, temperature_grid, points, eos);
    let rest = total.subrange((h + m + w).len() as int, total.len() as int);
    assert(total =~= h + m + w + rest);
    let head = h + m + w + standard_conditions_text();
    assert(total == head + array_text("PRESSURE"@, texts(pressure_grid), "PA"@) + array_text(
        "TEMPERATURE"@,
        texts(temperature_grid),
        "C"@,
    ) + array_text("BUBBLEPRESSURES"@, texts(bounds.bubble_pressures@), "PA"@) + array_text(
        "BUBBLETEMPERATURES"@,
        texts(bounds.bubble_temperatures@),
        "C"@,
    ) + array_text("DEWPRESSURES"@, texts(bounds.dew_pressures@), "PA"@) + array_text(
        "DEWTEMPERATURES"@,
        texts(bounds.dew_temperatures@),
        "C"@,
    ) + critical_text(critical) + columns_text() + points_text(points));
}

/// Format thermodynamic data as a Multiflash tab file
pub struct TabFileFormatter;

impl TabFileFormatter {
    /// Format an array of values for the tab file: after the head, each
    /// value with its separator, breaking the line before an entry that
    /// would carry it past 80 bytes (never before the first entry).
    pub fn format_array(name: &str, values: &Vec<String>, unit: &str) -> (r: String)
        ensures
            r@ == array_text(name@, texts(values@), unit@),
    {
        let ghost vals = texts(values@);
        let ghost total = array_text(name@, vals, unit@);
        let mut output = String::from_str(name);
        output.append(" = ( ");
        let line_width: usize = 80;
        // The length of the current line, counted up to one byte past the width.
        let mut current_line_len = clamp_width(str_byte_len(output.as_str()));
        let ghost mut cur: nat = byte_len(output@);
        let n = values.len();
        let mut i: usize = 0;
        while i < n
            invariant
                vals == texts(values@),
                line_width == 80,
                n == values@.len(),
                i <= n,
                total == array_text(name@, vals, unit@),
                current_line_len == clamp_width_spec(cur),
                output@ + array_body(vals, unit@, i as nat, cur) == total,
            decreases n - i,
        {
            let mut entry = String::from_str(values[i].as_str());
            if i == n - 1 {
                entry.append(" ) ");
                entry.append(unit);
                entry.append(", \\\n");
            } else {
                entry.append(" , ");
            }
            assert(entry@ == array_entry(vals, i as int, unit@));
            let ghost e = entry@;
            let ghost brk = cur + byte_len(e) > 80 && i > 0;
            let ghost next_cur: nat = if brk { byte_len(e) } else { cur + byte_len(e) };
            let ghost rest = array_body(vals, unit@, (i + 1) as nat, next_cur);
            let ghost lead: Seq<char> = if brk { "\\\n"@ + e } else { e };
            let ghost start = output@;
            assert(array_body(vals, unit@, i as nat, cur) == lead + rest);
            assert(start + (lead + rest) == total);
            let elen = str_byte_len(entry.as_str());
            let exceeds = current_line_len > line_width || elen > line_width - current_line_len;
            assert(exceeds == (cur + byte_len(e) > 80));
            if exceeds && i > 0 {
                assert(brk);
                output.append("\\\n");
                current_line_len = clamp_width(elen);
                assert(output@ == start + "\\\n"@);
            } else {
                assert(!brk);
                if elen > line_width {
                    current_line_len = line_width + 1;
                } else {
                    current_line_len = clamp_width(current_line_len + elen);
                }
                assert(output@ == start);
            }
            output.append(entry.as_str());
            proof {
                assert(output@ =~= start + lead);
                assert((start + lead) + rest =~= start + (lead + rest));
                cur = next_cur;
            }
            i = i + 1;
        }
        assert(output@ + array_body(vals, unit@, i as nat, cur) =~= output@);
        output
    }

    /// Generate the complete tab file content
    pub fn format(
        composition: &CompositionText,
        critical_point: &CriticalPointText,
        phase_boundaries: &PhaseBoundaryText,
        pressure_grid: &Vec<String>,
        temperature_grid: &Vec<String>,
        points: &Vec<PointText>,
        eos: &EquationOfState,
    ) -> (r: String)
        ensures
            r@ == tab_file_text(
                *composition,
                *critical_point,
                *phase_boundaries,
                pressure_grid@,
                temperature_grid@,
                points@,
                *eos,
            ),
    {
        let mut output = header_lines(&composition.components, eos);
        let moles = list_line("MOLES", &composition.mole_fractions);
        output.append(moles.as_str());
        let weights = molecular_weights(&composition.components);
        let weight_line = list_line("MOLWEIGHT", &weights);
        output.append(weight_line.as_str());
        output.append(
            "STDPRESSURE = 101325 PA , \\\nSTDTEMPERATURE = 15.55556 C, \\\nGOR = -999 SM3/SM3, \\\nGLR = -999 SM3/SM3, \\\nWC = -999 , \\\nSTDGASDENSITY = 1.85037281 KG/M3, \\\nSTDOILDENSITY = -999 KG/M3, \\\nSTDWATDENSITY = -999 KG/M3, \\\nMESHTYPE = STANDARD, \\\n",
        );
        let pressure = Self::format_array("PRESSURE", pressure_grid, "PA");
        output.append(pressure.as_str());
        let temperature = Self::format_array("TEMPERATURE", temperature_grid, "C");
        output.append(temperature.as_str());
        let bubble_p = Self::format_array("BUBBLEPRESSURES", &phase_boundaries.bubble_pressures, "PA");
        output.append(bubble_p.as_str());
        let bubble_t = Self::format_array(
            "BUBBLETEMPERATURES",
            &phase_boundaries.bubble_temperatures,
            "C",
        );
        output.append(bubble_t.as_str());
        let dew_p = Self::format_array("DEWPRESSURES", &phase_boundaries.dew_pressures, "PA");
        output.append(dew_p.as_str());
        let dew_t = Self::format_array("DEWTEMPERATURES", &phase_boundaries.dew_temperatures, "C");
        output.append(dew_t.as_str());
        let critical = critical_lines(critical_point);
        output.append(critical.as_str());
        output.append(
            "COLUMNS = ( PT, TM, ROG, ROHL, DROGDP,  DROHLDP, DROGDT, DROHLDT, RS, VISG, VISHL, CPG, CPHL,   HG, HHL, TCG, TCHL, SIGGHL, SEG, SEHL)\n",
        );
        let lines = Self::format_points(points);
        output.append(lines.as_str());
        output
    }

    /// The point lines, one per point, in order.
    pub fn format_points(points: &Vec<PointText>) -> (r: String)
        ensures
            r@ == points_text(points@),
    {
        let mut r = String::new();
        let mut i: usize = 0;
        while i < points.len()
            invariant
                i <= points@.len(),
                r@ == points_text(points@.take(i as int)),
            decreases points.len() - i,
        {
            assert(points@.take((i + 1) as int).drop_last() =~= points@.take(i as int));
            let line = Self::format_point(&points[i]);
            r.append(line.as_str());
            i = i + 1;
        }
        assert(points@.take(points.len() as int) =~= points@);
        r
    }

    /// Format a single thermodynamic point
    pub fn format_point(p: &PointText) -> (r: String)
        ensures
            r@ == point_line(*p),
    {
        let mut r = String::from_str("PVTTABLE POINT = ( ");
        r.append(p.pressure.as_str());
        r.append(" , ");
        r.append(p.temperature.as_str());
        r.append(" , ");
        r.append(p.gas_density.as_str());
        r.append(" , ");
        r.append(p.liquid_density.as_str());
        r.append(" , ");
        r.append(p.d_rho_gas_dp.as_str());
        r.append(" , ");
        r.append(p.d_rho_liq_dp.as_str());
        r.append(" , ");
        r.append(p.d_rho_gas_dt.as_str());
        r.append(" , ");
        r.append(p.d_rho_liq_dt.as_str());
        r.append(" , ");
        r.append(p.rs.as_str());
        r.append(" , ");
        r.append(p.gas_viscosity.as_str());
        r.append(" , ");
        r.append(p.liquid_viscosity.as_str());
        r.append(" , ");
        r.append(p.gas_cp.as_str());
        r.append(" , ");
        r.append(p.liquid_cp.as_str());
        r.append(" ,   ");
        r.append(p.gas_enthalpy.as_str());
        r.append(" , ");
        r.append(p.liquid_enthalpy.as_str());
        r.append(" , ");
        r.append(p.gas_thermal_conductivity.as_str());
        r.append(" , ");
        r.append(p.liquid_thermal_conductivity.as_str());
        r.append(" , ");
        r.append(p.surface_tension.as_str());
        r.append(" , ");
        r.append(p.gas_entropy.as_str());
        r.append(" , ");
        r.append(p.liquid_entropy.as_str());
        r.append(" )\n");
        r
    }
}

} // verus!
