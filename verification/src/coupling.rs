//! Coupling is the degree of interdependence between modules.  Each submodule
//! illustrates one classic coupling category with a small verified example.

pub mod common_coupling;
pub mod content_coupling;
pub mod control_coupling;
pub mod formatters;
pub mod stamp_coupling;
