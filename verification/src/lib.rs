//! Conformance validation of an expression library's curvature and sign
//! reports against a declarative catalogue of atoms.

pub mod checkers;
pub mod factory;
pub mod loader;
pub mod model;
pub mod oracle;
pub mod orchestrator;
pub mod report;

