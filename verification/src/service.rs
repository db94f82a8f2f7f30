//! The service layer: a generated data set written out as a tab file.
use vstd::prelude::*;
use crate::models::EquationOfState;
use crate::tab_file::{
    tab_file_text, CompositionText, CriticalPointText, PhaseBoundaryText, PointText,
    TabFileFormatter,
};

verus! {

/// A complete thermodynamic data set with every number as the text that
/// stands for it in the tab file.
pub struct ThermodynamicDataText {
    /// Composition information
    pub composition: CompositionText,
    /// Critical point
    pub critical_point: CriticalPointText,
    /// Phase boundaries
    pub phase_boundaries: PhaseBoundaryText,
    /// Grid of thermodynamic points
    pub points: Vec<PointText>,
    /// Pressure grid values
    pub pressure_grid: Vec<String>,
    /// Temperature grid values
    pub temperature_grid: Vec<String>,
    /// Equation of state used
    pub equation_of_state: EquationOfState,
}

/// The tab file of a data set.
pub open spec fn data_tab_file_text(data: ThermodynamicDataText) -> Seq<char> {
    tab_file_text(
        data.composition,
        data.critical_point,
        data.phase_boundaries,
        data.pressure_grid@,
        data.temperature_grid@,
        data.points@,
        data.equation_of_state,
    )
}

/// Service layer for generating thermodynamic data
pub struct ThermodynamicService;

impl ThermodynamicService {
    /// The order in which the grid points of a data set are calculated:
    /// pressure by pressure, and at each pressure every temperature in turn.
    /// Position `i * n_temperatures + j` holds pressure `i` and temperature `j`.
    pub fn point_grid_order(n_pressures: usize, n_temperatures: usize) -> (r: Vec<(usize, usize)>)
        requires
            n_pressures * n_temperatures <= usize::MAX,
        ensures
            r@.len() == n_pressures * n_temperatures,
            forall|i: int, j: int|
                0 <= i < n_pressures && 0 <= j < n_temperatures ==> #[trigger] r@[i * n_temperatures + j]
                    == (i as usize, j as usize),
    {
        let mut r: Vec<(usize, usize)> = Vec::new();
        let mut i: usize = 0;
        while i < n_pressures
            invariant
                i <= n_pressures,
                n_pressures * n_temperatures <= usize::MAX,
                r@.len() == i * n_temperatures,
                forall|a: int, b: int|
                    0 <= a < i && 0 <= b < n_temperatures ==> #[trigger] r@[a * n_temperatures + b] == (
                        a as usize,
                        b as usize,
                    ),
            decreases n_pressures - i,
        {
            let mut j: usize = 0;
            while j < n_temperatures
                invariant
                    i < n_pressures,
                    j <= n_temperatures,
                    n_pressures * n_temperatures <= usize::MAX,
                    r@.len() == i * n_temperatures + j,
                    forall|a: int, b: int|
                        0 <= a < i && 0 <= b < n_temperatures ==> #[trigger] r@[a * n_temperatures + b]
                            == (a as usize, b as usize),
                    forall|b: int| 0 <= b < j ==> #[trigger] r@[i * n_temperatures + b] == (i, b as usize),
                decreases n_temperatures - j,
            {
                assert(i * n_temperatures + j < n_pressures * n_temperatures) by (nonlinear_arith)
                    requires
                        i < n_pressures,
                        j < n_temperatures,
                ;
                r.push((i, j));
                proof {
                    assert forall|a: int, b: int|
                        0 <= a < i && 0 <= b < n_temperatures implies #[trigger] r@[a * n_temperatures + b]
                            == (a as usize, b as usize) by {
                        assert(a * n_temperatures + b < i * n_temperatures) by (nonlinear_arith)
                            requires
                                a < i,
                                b < n_temperatures,
                        ;
                    }
                }
                j = j + 1;
            }
            proof {
                assert forall|a: int, b: int|
                    0 <= a < i + 1 && 0 <= b < n_temperatures implies #[trigger] r@[a * n_temperatures + b]
                        == (a as usize, b as usize) by {
                    if a == i {
                    }
                }
                assert((i + 1) * n_temperatures == i * n_temperatures + n_temperatures) by (nonlinear_arith);
            }
            i = i + 1;
        }
        r
    }

    /// Generate tab file content from thermodynamic data
    pub fn generate_tab_file(data: &ThermodynamicDataText) -> (r: String)
        ensures
            r@ == data_tab_file_text(*data),
    {
        TabFileFormatter::format(
            &data.composition,
            &data.critical_point,
            &data.phase_boundaries,
            &data.pressure_grid,
            &data.temperature_grid,
            &data.points,
            &data.equation_of_state,
        )
    }
}

} // verus!
