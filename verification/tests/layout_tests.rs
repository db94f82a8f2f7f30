use aga8_api::aga8_calc::{
    aga8_composition_slots, aga8_index_from_uppercase, component_name_to_aga8_index, Aga8Error,
};
use aga8_api::models::{default_eos_string, validate_composition_lengths, EquationOfState};
use aga8_api::service::{ThermodynamicDataText, ThermodynamicService};
use aga8_api::tab_file::{
    molecular_weight, nano_fraction, CompositionText, CriticalPointText, PhaseBoundaryText,
    PointText, TabFileFormatter,
};

/// The array layout written the plain way, on the numbers themselves.
fn reference_format_array(name: &str, values: &[f64], unit: &str) -> String {
    let mut output = format!("{} = ( ", name);
    let line_width = 80;
    let mut current_line_len = output.len();
    for (i, &value) in values.iter().enumerate() {
        let value_str = if value.abs() < 1.0 {
            format!("{:.9}", value)
        } else {
            format!("{:.2}", value)
        };
        let entry = if i == values.len() - 1 {
            format!("{} ) {}, \\\n", value_str, unit)
        } else {
            format!("{} , ", value_str)
        };
        if current_line_len + entry.len() > line_width && i > 0 {
            output.push_str("\\\n");
            current_line_len = 0;
        }
        output.push_str(&entry);
        current_line_len += entry.len();
    }
    output
}

fn value_texts(values: &[f64]) -> Vec<String> {
    values
        .iter()
        .map(|&v| if v.abs() < 1.0 { format!("{:.9}", v) } else { format!("{:.2}", v) })
        .collect()
}

fn strings(items: &[&str]) -> Vec<String> {
    items.iter().map(|s| s.to_string()).collect()
}

fn sample_point(p: &str, t: &str) -> PointText {
    let f = |s: &str| s.to_string();
    PointText {
        pressure: f(p),
        temperature: f(t),
        gas_density: f("1.79081970"),
        liquid_density: f("1008.35187"),
        d_rho_gas_dp: f("0.00002101"),
        d_rho_liq_dp: f("0.00000416"),
        d_rho_gas_dt: f("-0.00722354"),
        d_rho_liq_dt: f("-4.7006394"),
        rs: f("1.00000000"),
        gas_viscosity: f("0.00001294"),
        liquid_viscosity: f("0.000148339"),
        gas_cp: f("806.095759"),
        liquid_cp: f("1865.59489"),
        gas_enthalpy: f("-38093.301"),
        liquid_enthalpy: f("-349375.58"),
        gas_thermal_conductivity: f("0.014448240"),
        liquid_thermal_conductivity: f("0.132125757"),
        surface_tension: f("0.009313488"),
        gas_entropy: f("-97.595648"),
        liquid_entropy: f("-1890.9995"),
    }
}

fn sample_data(eos: EquationOfState) -> ThermodynamicDataText {
    ThermodynamicDataText {
        composition: CompositionText {
            components: strings(&["CO2", "H2"]),
            mole_fractions: strings(&["0.990000000", "0.010000000"]),
        },
        critical_point: CriticalPointText {
            pressure: "6179493.04".to_string(),
            temperature: "176.4101392".to_string(),
        },
        phase_boundaries: PhaseBoundaryText {
            bubble_pressures: strings(&["109687795.33"]),
            bubble_temperatures: strings(&["30.95"]),
            dew_pressures: strings(&["100000.00"]),
            dew_temperatures: strings(&["-123.15"]),
        },
        points: vec![sample_point("100000.00", "-29.000000000")],
        pressure_grid: strings(&["100000.00"]),
        temperature_grid: strings(&["-29.00"]),
        equation_of_state: eos,
    }
}

#[test]
fn array_layout_matches_plain_layout() {
    let grids: Vec<Vec<f64>> = vec![
        vec![],
        vec![100_000.0],
        vec![0.5, -0.25],
        (0..100).map(|i| 100_000.0 + 7_575.757_575_757_576 * i as f64).collect(),
        (0..100).map(|i| -29.0 + 2.313_131_313_131_313 * i as f64).collect(),
        (0..37).map(|i| -300_000_000.0 + 8_000_000.123 * i as f64).collect(),
    ];
    for grid in &grids {
        for (name, unit) in [("PRESSURE", "PA"), ("BUBBLETEMPERATURES", "C")] {
            let expected = reference_format_array(name, grid, unit);
            let got = TabFileFormatter::format_array(name, &value_texts(grid), unit);
            assert_eq!(got, expected);
        }
    }
}

#[test]
fn array_layout_of_an_empty_array_is_its_head() {
    assert_eq!(TabFileFormatter::format_array("DEWPRESSURES", &vec![], "PA"), "DEWPRESSURES = ( ");
}

#[test]
fn array_lines_respect_the_width() {
    let grid: Vec<f64> = (0..100).map(|i| 100_000.0 + 7_575.76 * i as f64).collect();
    let out = TabFileFormatter::format_array("PRESSURE", &value_texts(&grid), "PA");
    for line in out.split("\\\n") {
        assert!(line.len() <= 80, "line too long: {:?}", line);
    }
    let expected_start = "PRESSURE = ( 100000.00 , 107575.76 , 115151.52 , 122727.28 , 130303.04 , \\\n";
    assert!(out.starts_with(expected_start), "{}", out);
}

#[test]
fn point_line_matches_plain_layout() {
    let line = TabFileFormatter::format_point(&sample_point("100000.00", "-29.000000000"));
    assert_eq!(
        line,
        "PVTTABLE POINT = ( 100000.00 , -29.000000000 , 1.79081970 , 1008.35187 , 0.00002101 , 0.00000416 , -0.00722354 , -4.7006394 , 1.00000000 , 0.00001294 , 0.000148339 , 806.095759 , 1865.59489 ,   -38093.301 , -349375.58 , 0.014448240 , 0.132125757 , 0.009313488 , -97.595648 , -1890.9995 )\n"
    );
    assert_eq!(line.matches(',').count(), 19);
}

#[test]
fn points_block_has_one_line_per_point() {
    let points = vec![
        sample_point("1.00", "2.0"),
        sample_point("3.00", "4.0"),
        sample_point("5.00", "6.0"),
    ];
    let block = TabFileFormatter::format_points(&points);
    assert_eq!(block.matches('\n').count(), 3);
    assert_eq!(block.lines().filter(|l| l.starts_with("PVTTABLE POINT = ( ")).count(), 3);
    assert_eq!(TabFileFormatter::format_points(&vec![]), "");
}

#[test]
fn molecular_weights_match_the_table() {
    let table: [(&str, f64); 23] = [
        ("CH4", 0.016043),
        ("nitrogen", 0.0280134),
        ("CO2", 0.0440098),
        ("ethane", 0.0300696),
        ("C3H8", 0.0440956),
        ("isobutane", 0.0581222),
        ("butane", 0.0581222),
        ("IC5H12", 0.0721488),
        ("n_pentane", 0.0721488),
        ("C6H14", 0.0861754),
        ("heptane", 0.1002019),
        ("C8H18", 0.1142285),
        ("nonane", 0.1282551),
        ("C10H22", 0.1422817),
        ("H2", 0.00201588),
        ("oxygen", 0.0319988),
        ("CO", 0.0280101),
        ("water", 0.01801528),
        ("H2S", 0.0340809),
        ("He", 0.004002602),
        ("argon", 0.039948),
        ("xenon", 0.02897),
        ("", 0.02897),
    ];
    for (name, mw) in table {
        assert_eq!(molecular_weight(name), format!("{:.9}", mw), "{}", name);
    }
}

#[test]
fn nano_fraction_writes_nine_decimals() {
    assert_eq!(nano_fraction(0), "0.000000000");
    assert_eq!(nano_fraction(44009800), "0.044009800");
    assert_eq!(nano_fraction(999_999_999), "0.999999999");
    assert_eq!(nano_fraction(7), "0.000000007");
}

#[test]
fn tab_file_header_block() {
    let data = sample_data(EquationOfState::Gerg2008);
    let out = ThermodynamicService::generate_tab_file(&data);
    let expected_head = "PVTTABLE LABEL = GERG2008_CO2_,_H2 ,  PHASE = TWO, \\\n\
!\n\
! Multiflash Version 7.4.08     May 2023\n\
!\n\
! EOS:  GERG-2008                                                                          !\n\
!\n\
COMPONENTS = ( CO2 , H2 ), \\\n\
MOLES = ( 0.990000000 , 0.010000000 ), \\\n\
MOLWEIGHT = ( 0.044009800 , 0.002015880 ), \\\n\
STDPRESSURE = 101325 PA , \\\n\
STDTEMPERATURE = 15.55556 C, \\\n";
    assert!(out.starts_with(expected_head), "{}", out);
    assert!(out.contains("CRITICALPRESSURE = ( 6179493.04 ) PA, \\\nCRITICALTEMPERATURE = ( 176.4101392 ) C, \\\n"));
    assert!(out.contains("PRESSURE = ( 100000.00 ) PA, \\\nTEMPERATURE = ( -29.00 ) C, \\\n"));
    assert!(out.ends_with("-1890.9995 )\n"));
    assert_eq!(out.matches("PVTTABLE POINT").count(), 1);
}

#[test]
fn tab_file_label_of_detail_and_spaced_names() {
    let mut data = sample_data(EquationOfState::Aga8Detail);
    data.composition.components = strings(&["carbon dioxide", "H2"]);
    let out = ThermodynamicService::generate_tab_file(&data);
    assert!(out.starts_with("PVTTABLE LABEL = AGA8_DETAIL_carbon_dioxide_,_H2 ,  PHASE = TWO, \\\n"));
    assert!(out.contains("! EOS:  AGA8 DETAIL "));
    assert!(out.contains("COMPONENTS = ( carbon dioxide , H2 ), \\\n"));
    // "carbon dioxide" is not in the component table: it weighs as air.
    assert!(out.contains("MOLWEIGHT = ( 0.028970000 , 0.002015880 ), \\\n"));
}

#[test]
fn service_writes_what_the_formatter_writes() {
    let data = sample_data(EquationOfState::Gerg2008);
    let direct = TabFileFormatter::format(
        &data.composition,
        &data.critical_point,
        &data.phase_boundaries,
        &data.pressure_grid,
        &data.temperature_grid,
        &data.points,
        &data.equation_of_state,
    );
    assert_eq!(ThermodynamicService::generate_tab_file(&data), direct);
}

#[test]
fn component_indices_follow_the_table() {
    assert_eq!(component_name_to_aga8_index("CH4").unwrap(), 0);
    assert_eq!(component_name_to_aga8_index("methane").unwrap(), 0);
    assert_eq!(component_name_to_aga8_index("CO2").unwrap(), 2);
    assert_eq!(component_name_to_aga8_index("Carbon_Dioxide").unwrap(), 2);
    assert_eq!(component_name_to_aga8_index("butane").unwrap(), 6);
    assert_eq!(component_name_to_aga8_index("h2").unwrap(), 14);
    assert_eq!(component_name_to_aga8_index("Ar").unwrap(), 20);
    assert_eq!(aga8_index_from_uppercase("HELIUM"), Some(19));
    assert_eq!(aga8_index_from_uppercase("helium"), None);
}

#[test]
fn unsupported_component_is_an_error() {
    match component_name_to_aga8_index("Xe") {
        Err(Aga8Error::UnsupportedComponent(m)) => {
            assert_eq!(m, "Component 'Xe' is not supported by aga8")
        }
        other => panic!("unexpected {:?}", other),
    }
    let e = component_name_to_aga8_index("carbon dioxide").unwrap_err();
    assert_eq!(
        e.message(),
        "Component not supported: Component 'carbon dioxide' is not supported by aga8"
    );
}

#[test]
fn error_messages_name_their_kind() {
    assert_eq!(
        Aga8Error::InvalidComposition("x".to_string()).message(),
        "Invalid composition: x"
    );
    assert_eq!(
        Aga8Error::CalculationFailed("y".to_string()).message(),
        "Calculation failed: y"
    );
    assert_eq!(
        Aga8Error::PhaseBoundaryError("z".to_string()).message(),
        "Phase boundary calculation failed: z"
    );
}

#[test]
fn composition_slots_take_the_last_name() {
    let slots = aga8_composition_slots(&strings(&["CO2", "H2"])).unwrap();
    assert_eq!(slots.len(), 21);
    for (s, source) in slots.iter().enumerate() {
        let expected = match s {
            2 => Some(0),
            14 => Some(1),
            _ => None,
        };
        assert_eq!(*source, expected);
    }
    let slots = aga8_composition_slots(&strings(&["co2", "N2", "CO2"])).unwrap();
    assert_eq!(slots[2], Some(2));
    assert_eq!(slots[1], Some(1));
    let empty = aga8_composition_slots(&vec![]).unwrap();
    assert!(empty.iter().all(|s| s.is_none()));
}

#[test]
fn composition_slots_report_the_first_unknown_name() {
    match aga8_composition_slots(&strings(&["CO2", "Xe", "Kr"])) {
        Err(Aga8Error::UnsupportedComponent(m)) => {
            assert_eq!(m, "Component 'Xe' is not supported by aga8")
        }
        other => panic!("unexpected {:?}", other.map(|v| v.len())),
    }
}

#[test]
fn equation_of_state_names() {
    assert_eq!(EquationOfState::from("gerg2008"), EquationOfState::Gerg2008);
    assert_eq!(EquationOfState::from("aga8detail"), EquationOfState::Aga8Detail);
    assert_eq!(EquationOfState::from("AGA8_DETAIL"), EquationOfState::Aga8Detail);
    assert_eq!(EquationOfState::from("Detail"), EquationOfState::Aga8Detail);
    assert_eq!(EquationOfState::from("peng-robinson"), EquationOfState::Gerg2008);
    assert_eq!(EquationOfState::from(""), EquationOfState::Gerg2008);
    assert_eq!(EquationOfState::from_lowercase("DETAIL"), EquationOfState::Gerg2008);
    assert_eq!(EquationOfState::default(), EquationOfState::Gerg2008);
    assert_eq!(default_eos_string(), "gerg2008");
    assert_eq!(
        EquationOfState::from(default_eos_string().as_str()),
        EquationOfState::default()
    );
    assert_eq!(EquationOfState::from("GERG2008"), EquationOfState::Gerg2008);
}

#[test]
fn composition_length_checks() {
    assert!(validate_composition_lengths(2, 2).is_ok());
    assert_eq!(
        validate_composition_lengths(2, 1).unwrap_err(),
        "Components and mole fractions must have the same length"
    );
    assert_eq!(
        validate_composition_lengths(0, 0).unwrap_err(),
        "Composition must have at least one component"
    );
    assert_eq!(
        validate_composition_lengths(0, 3).unwrap_err(),
        "Components and mole fractions must have the same length"
    );
}

#[test]
fn one_more_point_appends_its_line() {
    let mut data = sample_data(EquationOfState::Gerg2008);
    let before = ThermodynamicService::generate_tab_file(&data);
    let extra = sample_point("200000.00", "-26.686868687");
    let line = TabFileFormatter::format_point(&extra);
    data.points.push(extra);
    let after = ThermodynamicService::generate_tab_file(&data);
    assert_eq!(after, format!("{}{}", before, line));
}

#[test]
fn component_names_ignore_letter_case() {
    for name in ["methane", "METHANE", "Methane", "mEtHaNe", "ch4", "Ch4"] {
        assert_eq!(component_name_to_aga8_index(name).unwrap(), 0, "{}", name);
    }
    for name in ["hydrogen_sulfide", "h2s", "H2s"] {
        assert_eq!(component_name_to_aga8_index(name).unwrap(), 18, "{}", name);
    }
    for name in ["aga8detail", "AGA8DETAIL", "Aga8Detail", "dEtAiL"] {
        assert_eq!(EquationOfState::from(name), EquationOfState::Aga8Detail, "{}", name);
    }
}

#[test]
fn grid_points_go_pressure_by_pressure() {
    let order = ThermodynamicService::point_grid_order(5, 10);
    assert_eq!(order.len(), 50);
    assert_eq!(order[0], (0, 0));
    assert_eq!(order[9], (0, 9));
    assert_eq!(order[10], (1, 0));
    assert_eq!(order[49], (4, 9));
    assert_eq!(ThermodynamicService::point_grid_order(1, 1), vec![(0, 0)]);
    assert_eq!(ThermodynamicService::point_grid_order(2, 2), vec![(0, 0), (0, 1), (1, 0), (1, 1)]);
    assert!(ThermodynamicService::point_grid_order(0, 7).is_empty());
    assert!(ThermodynamicService::point_grid_order(3, 0).is_empty());
}
