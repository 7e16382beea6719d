//! Cohesion is the degree to which the elements of a module are functionally
//! related: the internal glue that keeps the module together.  Each submodule
//! illustrates one classic cohesion category with a small verified example.

pub mod coincidental_cohesion;
pub mod communicational_cohesion;
pub mod logical_cohesion;
pub mod procedural_cohesion;
pub mod sequence_cohesion;
