//! Reads a JaCoCo-style XML coverage report and turns its top-level counters
//! into per-metric coverage ratios.

pub mod text;
pub mod coverage;
pub mod nesting;
pub mod xml;
pub mod extract;
pub mod report;
