//! Thermodynamic data for gas mixtures in the Multiflash tab file format.
//!
//! The library holds the parts of the service that work on names, counts and
//! text: the component table used to address the AGA8 composition slots, the
//! equation-of-state selection, the checks on a request's shape, and the
//! complete layout of the tab file. Numbers reach the layout already written
//! as decimal text.
pub mod text;
pub mod models;
pub mod aga8_calc;
pub mod tab_file;
pub mod service;
